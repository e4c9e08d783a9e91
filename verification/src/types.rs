//! The values the game stores and hands out: kitties, their battle attributes,
//! wild animals, weaponry, origins, errors and events.
use vstd::prelude::*;

verus! {

/// A kitty is its 128-bit DNA.
#[derive(Clone, Copy, PartialEq, Eq, Debug)]
pub struct Kitty(pub [u8; 16]);

/// Why a byte string is not an encoded kitty.
#[derive(Clone, Copy, PartialEq, Eq, Structural, Debug)]
pub enum DecodeError {
    /// Fewer than sixteen bytes were given.
    NotEnoughData,
}

impl Kitty {
    /// The encoding of a kitty: its sixteen DNA bytes, nothing else.
    pub fn encode(&self) -> (r: Vec<u8>)
        ensures
            r@ == self.0@,
    {
        let mut out: Vec<u8> = Vec::new();
        for i in 0..16
            invariant
                out@ == self.0@.take(i as int),
        {
            out.push(self.0[i]);
            assert(out@ =~= self.0@.take(i + 1));
        }
        assert(self.0@.take(16) =~= self.0@);
        out
    }

    /// Reads a kitty from the first sixteen bytes of `input`.
    pub fn decode(input: &[u8]) -> (r: Result<Kitty, DecodeError>)
        ensures
            input@.len() < 16 ==> r == Err::<Kitty, DecodeError>(DecodeError::NotEnoughData),
            input@.len() >= 16 ==> (r matches Ok(k) && k.0@ == input@.take(16)),
    {
        if input.len() < 16 {
            return Err(DecodeError::NotEnoughData);
        }
        let mut dna = [0u8; 16];
        for i in 0..16
            invariant
                input@.len() >= 16,
                forall|j: int| 0 <= j < i ==> dna[j] == input@[j],
        {
            dna[i] = input[i];
        }
        assert(dna@ =~= input@.take(16));
        Ok(Kitty(dna))
    }
}

/// A wild animal that kitties can fight.
#[derive(Clone, Copy, PartialEq, Eq, Structural, Debug)]
pub struct WildAnimal {
    pub hp: u32,
    pub ce: u32,
}

impl Default for WildAnimal {
    fn default() -> (r: Self)
        ensures
            r == (WildAnimal { hp: 0, ce: 0 }),
    {
        WildAnimal { hp: 0, ce: 0 }
    }
}

/// Whom a battle was fought against.
#[allow(non_camel_case_types)]
#[derive(Clone, Copy, PartialEq, Eq, Structural, Debug)]
pub enum BattleType {
    WILD,
    KITTY,
}

/// The battle attributes of a kitty.
#[derive(Clone, Copy, PartialEq, Eq, Structural, Debug)]
pub struct KittyAttr<BlockNumber> {
    pub hp: u32,
    pub exp: u32,
    pub ce: u32,
    pub battle_begin: Option<BlockNumber>,
    pub battle_end: Option<BlockNumber>,
    pub battle_type: Option<BattleType>,
}

/// The attributes of a kitty that has none stored.
pub open spec fn default_attr<B>() -> KittyAttr<B> {
    KittyAttr { hp: 0, exp: 0, ce: 0, battle_begin: None, battle_end: None, battle_type: None }
}

/// The attributes every new kitty starts with.
pub open spec fn newborn_attr<B>() -> KittyAttr<B> {
    KittyAttr { hp: 100, exp: 0, ce: 100, battle_begin: None, battle_end: None, battle_type: None }
}

impl<B> Default for KittyAttr<B> {
    fn default() -> (r: Self)
        ensures
            r == default_attr::<B>(),
    {
        KittyAttr { hp: 0, exp: 0, ce: 0, battle_begin: None, battle_end: None, battle_type: None }
    }
}

/// The slot a piece of weaponry occupies; a kitty carries at most one per slot.
#[allow(non_camel_case_types)]
#[derive(Clone, Copy, PartialEq, Eq, Structural, Debug)]
pub enum WeaponryKind {
    HELMET,
    ARMOR,
    WEAPON,
    SHOES,
}

/// The number that stands for each slot in storage keys.
pub open spec fn kind_code(kind: WeaponryKind) -> u8 {
    match kind {
        WeaponryKind::HELMET => 0,
        WeaponryKind::ARMOR => 1,
        WeaponryKind::WEAPON => 2,
        WeaponryKind::SHOES => 3,
    }
}

impl WeaponryKind {
    /// The storage code of this slot.
    pub fn code(&self) -> (r: u8)
        ensures
            r == kind_code(*self),
    {
        match self {
            WeaponryKind::HELMET => 0,
            WeaponryKind::ARMOR => 1,
            WeaponryKind::WEAPON => 2,
            WeaponryKind::SHOES => 3,
        }
    }
}

/// A piece of weaponry sold by the shop.
#[derive(Clone, Debug)]
pub struct Weaponry<BalanceOf> {
    pub name: Vec<u8>,
    pub kind: WeaponryKind,
    pub ce: u32,
    pub price: BalanceOf,
}

/// Who sent a call: the root account, a signed account, or nobody.
#[derive(Clone, Copy, PartialEq, Eq, Structural, Debug)]
pub enum Origin {
    Root,
    Signed(u64),
    Unsigned,
}

/// Why a call was refused.
#[derive(Clone, Copy, PartialEq, Eq, Structural, Debug)]
pub enum Error {
    RequiresOwner,
    InvalidKittyId,
    KittyNotForSale,
    PriceTooLow,
    KittiesCountOverflow,
    RequiresDifferentParents,
    IndexCountOverflow,
    KittyIsBattling,
    RequiresDifferentOwner,
    /// The call came from the wrong kind of origin.
    BadOrigin,
    /// A counter would pass its largest value.
    Overflow,
}

/// What a successful call announces.
#[derive(Clone, Copy, PartialEq, Eq, Structural, Debug)]
pub enum Event {
    /// A kitty is created. (owner, kitty_id)
    Created(u64, u32),
    /// A kitty is transferred. (from, to, kitty_id)
    Transferred(u64, u64, u32),
    /// A kitty is available for sale. (owner, kitty_id, price)
    Ask(u64, u32, Option<u64>),
    /// A kitty is sold. (from, to, kitty_id, price)
    Sold(u64, u64, u32, u64),
    /// A weaponry is created. (owner, weaponry_index)
    AddWeaponry(u64, u32),
    /// Weaponry bought for a kitty. (owner, kitty_id, weaponry_index, price)
    BuyWeaponry(u64, u32, u32, u64),
    /// A kitty is healed. (owner, kitty_id, price)
    FullHealth(u64, u32, u64),
    /// A battle was fought. (owner, kitty_1, kitty_2, winner)
    Battled(u64, u32, u32, u32),
    /// A kitty won the lottery. (kitty_id)
    Lottery(u32),
}

/// A transfer of funds that a call needs before it can finish.
#[derive(Clone, Copy, PartialEq, Eq, Structural, Debug)]
pub struct Payment {
    pub from: u64,
    pub to: u64,
    pub amount: u64,
}

/// The account that signed the call.
pub open spec fn signed_by(origin: Origin) -> Result<u64, Error> {
    match origin {
        Origin::Signed(who) => Ok(who),
        _ => Err(Error::BadOrigin),
    }
}

/// Succeeds for a signed origin with its account, fails with `BadOrigin` otherwise.
pub fn ensure_signed(origin: Origin) -> (r: Result<u64, Error>)
    ensures
        r == signed_by(origin),
{
    match origin {
        Origin::Signed(who) => Ok(who),
        _ => Err(Error::BadOrigin),
    }
}

/// Succeeds for the root origin only.
pub fn ensure_root(origin: Origin) -> (r: Result<(), Error>)
    ensures
        r == (if origin == Origin::Root {
            Ok::<(), Error>(())
        } else {
            Err(Error::BadOrigin)
        }),
{
    match origin {
        Origin::Root => Ok(()),
        _ => Err(Error::BadOrigin),
    }
}

/// Succeeds for an unsigned origin only.
pub fn ensure_none(origin: Origin) -> (r: Result<(), Error>)
    ensures
        r == (if origin == Origin::Unsigned {
            Ok::<(), Error>(())
        } else {
            Err(Error::BadOrigin)
        }),
{
    match origin {
        Origin::Unsigned => Ok(()),
        _ => Err(Error::BadOrigin),
    }
}

} // verus!
