//! The calls of the game, and which of them the chain accepts without a signature.
use vstd::prelude::*;
use crate::types::WeaponryKind;
use crate::hashing::{encode_i32, scale_i32};

verus! {

/// A call of the game, with its arguments.
#[allow(non_camel_case_types)]
#[derive(Clone, Debug)]
pub enum Call {
    create,
    create_wild_animal(u32, u32),
    breed(u32, u32),
    transfer(u64, u32),
    ask(u32, Option<u64>),
    buy(u32, u64),
    battle(u32, u32),
    battle_wild(u32, u32),
    full_health(u32),
    add_weaponry(WeaponryKind, Vec<u8>, u32, u64),
    buy_weaponry(u32, u32),
    update_kitty_ec(u32, u32),
}

/// How the chain should treat an accepted unsigned transaction.
#[derive(Clone, Debug)]
pub struct ValidTransaction {
    pub priority: u64,
    pub requires: Vec<Vec<u8>>,
    pub provides: Vec<Vec<u8>>,
    pub longevity: u64,
    pub propagate: bool,
}

/// Why an unsigned transaction is refused.
#[derive(Clone, Copy, PartialEq, Eq, Structural, Debug)]
pub enum UnknownTransaction {
    /// The call is not one that may be sent unsigned.
    NoUnsignedValidator,
}

/// Accepts the lottery's unsigned `update_kitty_ec` call, with priority zero, no
/// requirement, the encoded `0i32` as the tag it provides, the longest life and
/// propagation; refuses every other call.
pub fn validate_unsigned(call: &Call) -> (r: Result<ValidTransaction, UnknownTransaction>)
    ensures
        match *call {
            Call::update_kitty_ec(_, _) => {
                &&& r is Ok
                &&& r->Ok_0.priority == 0
                &&& r->Ok_0.requires@.len() == 0
                &&& r->Ok_0.provides@.len() == 1
                &&& r->Ok_0.provides@[0]@ == scale_i32(0)
                &&& r->Ok_0.longevity == u64::MAX
                &&& r->Ok_0.propagate
            },
            _ => r == Err::<ValidTransaction, UnknownTransaction>(UnknownTransaction::NoUnsignedValidator),
        },
{
    match call {
        Call::update_kitty_ec(_, _) => {
            let mut provides: Vec<Vec<u8>> = Vec::new();
            provides.push(encode_i32(0));
            Ok(
                ValidTransaction {
                    priority: 0,
                    requires: Vec::new(),
                    provides,
                    longevity: u64::MAX,
                    propagate: true,
                },
            )
        },
        _ => Err(UnknownTransaction::NoUnsignedValidator),
    }
}

} // verus!
