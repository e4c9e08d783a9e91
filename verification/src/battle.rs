//! The game's arithmetic: how parents' DNA mixes into a child's, and how a
//! battle changes the fighters' attributes.
use vstd::prelude::*;
use crate::types::{KittyAttr, WildAnimal};

verus! {

/// The bit of `x` at position `i`.
pub open spec fn bit(x: u8, i: u8) -> u8 {
    (x >> i) & 1
}

/// The gene mixing rule: take `dna1` where `selector` has a one, `dna2` elsewhere.
pub open spec fn combine_dna_spec(dna1: u8, dna2: u8, selector: u8) -> u8 {
    (selector & dna1) | (!selector & dna2)
}

/// Mixes one byte of two parents' DNA: each bit comes from `dna1` where `selector`
/// has a one, from `dna2` where it has a zero.
pub fn combine_dna(dna1: u8, dna2: u8, selector: u8) -> (r: u8)
    ensures
        r == combine_dna_spec(dna1, dna2, selector),
        forall|i: u8|
            i < 8 ==> #[trigger] bit(r, i) == if bit(selector, i) == 1 {
                bit(dna1, i)
            } else {
                bit(dna2, i)
            },
{
    let r = (selector & dna1) | (!selector & dna2);
    assert(forall|i: u8|
        i < 8 ==> ((r >> i) & 1) == if ((selector >> i) & 1) == 1 {
            (dna1 >> i) & 1
        } else {
            (dna2 >> i) & 1
        }) by (bit_vector)
        requires
            r == (selector & dna1) | (!selector & dna2),
    ;
    r
}

/// Mixes the DNA of two parents byte by byte with `combine_dna`.
pub fn mix_dna(dna1: [u8; 16], dna2: [u8; 16], selector: [u8; 16]) -> (r: [u8; 16])
    ensures
        forall|i: int| 0 <= i < 16 ==> #[trigger] r[i] == combine_dna_spec(dna1[i], dna2[i], selector[i]),
{
    let mut new_dna = [0u8; 16];
    for i in 0..16
        invariant
            forall|j: int| 0 <= j < i ==> #[trigger] new_dna[j] == combine_dna_spec(dna1[j], dna2[j], selector[j]),
    {
        new_dna[i] = combine_dna(dna1[i], dna2[i], selector[i]);
    }
    new_dna
}

/// Whether the first fighter wins a kitty battle: its health divided by the
/// opponent's combat effectiveness is at least the opponent's health divided by its own.
pub open spec fn first_wins(a1: KittyAttr<u64>, a2: KittyAttr<u64>, ce1: u32, ce2: u32) -> bool {
    a1.hp / ce2 >= a2.hp / ce1
}

/// The winner gains the loser's health times the loser's combat effectiveness as
/// experience and loses a tenth of it as health.
pub open spec fn winner_after(w: KittyAttr<u64>, blow: int) -> KittyAttr<u64> {
    KittyAttr { exp: (w.exp + blow) as u32, hp: (w.hp - blow / 10) as u32, ..w }
}

/// The loser is left without health and loses a tenth of its experience.
pub open spec fn loser_after(l: KittyAttr<u64>) -> KittyAttr<u64> {
    KittyAttr { hp: 0, exp: (l.exp - l.exp / 10) as u32, ..l }
}

/// Marks a fighter as in battle from `block` for four blocks.
pub open spec fn in_battle(a: KittyAttr<u64>, block: u64) -> KittyAttr<u64> {
    KittyAttr { battle_begin: Some(block), battle_end: Some((block + 4) as u64), ..a }
}

/// The fighters' attributes after a kitty battle fought at `block`.
pub open spec fn battle_result(a1: KittyAttr<u64>, a2: KittyAttr<u64>, ce1: u32, ce2: u32, block: u64) -> (
    KittyAttr<u64>,
    KittyAttr<u64>,
) {
    if first_wins(a1, a2, ce1, ce2) {
        (in_battle(winner_after(a1, a2.hp * ce2), block), in_battle(loser_after(a2), block))
    } else {
        (in_battle(loser_after(a1), block), in_battle(winner_after(a2, a1.hp * ce1), block))
    }
}

/// The inputs on which a kitty battle's arithmetic neither divides by zero nor
/// leaves the range of its integers.
pub open spec fn battle_arith_ok(a1: KittyAttr<u64>, a2: KittyAttr<u64>, ce1: u32, ce2: u32, block: u64) -> bool {
    &&& ce1 > 0
    &&& ce2 > 0
    &&& block + 4 <= u64::MAX
    &&& if first_wins(a1, a2, ce1, ce2) {
        &&& a2.hp * ce2 <= u32::MAX
        &&& a1.exp + a2.hp * ce2 <= u32::MAX
        &&& (a2.hp * ce2) / 10 <= a1.hp
    } else {
        &&& a1.hp * ce1 <= u32::MAX
        &&& a2.exp + a1.hp * ce1 <= u32::MAX
        &&& (a1.hp * ce1) / 10 <= a2.hp
    }
}

/// Fights a kitty battle between fighters with attributes `a1` and `a2` and combat
/// effectiveness `ce1` and `ce2` at block `block`.
pub fn battle_outcome(a1: KittyAttr<u64>, a2: KittyAttr<u64>, ce1: u32, ce2: u32, block: u64) -> (r: (
    KittyAttr<u64>,
    KittyAttr<u64>,
))
    requires
        battle_arith_ok(a1, a2, ce1, ce2, block),
    ensures
        r == battle_result(a1, a2, ce1, ce2, block),
{
    let mut k1 = a1;
    let mut k2 = a2;
    if k1.hp / ce2 >= k2.hp / ce1 {
        let blow = k2.hp * ce2;
        k1.exp = k1.exp + blow;
        k1.hp = k1.hp - blow / 10;
        k2.hp = 0;
        k2.exp = k2.exp - k2.exp / 10;
    } else {
        let blow = k1.hp * ce1;
        k2.exp = k2.exp + blow;
        k2.hp = k2.hp - blow / 10;
        k1.hp = 0;
        k1.exp = k1.exp - k1.exp / 10;
    }
    k1.battle_begin = Some(block);
    k1.battle_end = Some(block + 4);
    k2.battle_begin = Some(block);
    k2.battle_end = Some(block + 4);
    (k1, k2)
}

/// Whether a kitty beats a wild animal: its health divided by the animal's combat
/// effectiveness is more than the animal's health divided by the kitty's.
pub open spec fn beats_wild(k: KittyAttr<u64>, w: WildAnimal, ce: u32) -> bool {
    k.hp / w.ce > w.hp / ce
}

/// A kitty's attributes after fighting a wild animal: on a win it gains the animal's
/// health times its combat effectiveness as experience; win or lose it loses a tenth
/// of that product as health.
pub open spec fn wild_battle_result(k: KittyAttr<u64>, w: WildAnimal, ce: u32) -> KittyAttr<u64> {
    let blow = w.hp * w.ce;
    let exp = if beats_wild(k, w, ce) { (k.exp + blow) as u32 } else { k.exp };
    KittyAttr { exp: exp, hp: (k.hp - blow / 10) as u32, ..k }
}

/// The inputs on which a wild battle's arithmetic neither divides by zero nor
/// leaves the range of its integers.
pub open spec fn wild_arith_ok(k: KittyAttr<u64>, w: WildAnimal, ce: u32) -> bool {
    &&& w.ce > 0
    &&& ce > 0
    &&& w.hp * w.ce <= u32::MAX
    &&& beats_wild(k, w, ce) ==> k.exp + w.hp * w.ce <= u32::MAX
    &&& (w.hp * w.ce) / 10 <= k.hp
}

/// Fights a wild animal `w` with a kitty of attributes `k` and combat effectiveness `ce`.
pub fn wild_battle_outcome(k: KittyAttr<u64>, w: WildAnimal, ce: u32) -> (r: KittyAttr<u64>)
    requires
        wild_arith_ok(k, w, ce),
    ensures
        r == wild_battle_result(k, w, ce),
{
    let mut kitty = k;
    let kitty_score = kitty.hp / w.ce;
    let wild_animal_score = w.hp / ce;
    if kitty_score > wild_animal_score {
        kitty.exp = kitty.exp + w.hp * w.ce;
    }
    kitty.hp = kitty.hp - w.hp * w.ce / 10;
    kitty
}

/// The product of two `u32` values, which always fits in a `u64`.
fn wide_mul(a: u32, b: u32) -> (r: u64)
    ensures
        r == a * b,
{
    assert(a * b <= u32::MAX * u32::MAX) by (nonlinear_arith)
        requires
            a <= u32::MAX,
            b <= u32::MAX,
    ;
    (a as u64) * (b as u64)
}

/// Tells whether `battle_outcome` may be called on these inputs.
pub fn battle_arith_fits(a1: KittyAttr<u64>, a2: KittyAttr<u64>, ce1: u32, ce2: u32, block: u64) -> (r: bool)
    ensures
        r == battle_arith_ok(a1, a2, ce1, ce2, block),
{
    if ce1 == 0 || ce2 == 0 || block > u64::MAX - 4 {
        return false;
    }
    if a1.hp / ce2 >= a2.hp / ce1 {
        let blow = wide_mul(a2.hp, ce2);
        blow <= u32::MAX as u64 && a1.exp as u64 + blow <= u32::MAX as u64 && blow / 10 <= a1.hp as u64
    } else {
        let blow = wide_mul(a1.hp, ce1);
        blow <= u32::MAX as u64 && a2.exp as u64 + blow <= u32::MAX as u64 && blow / 10 <= a2.hp as u64
    }
}

/// Tells whether `wild_battle_outcome` may be called on these inputs.
pub fn wild_arith_fits(k: KittyAttr<u64>, w: WildAnimal, ce: u32) -> (r: bool)
    ensures
        r == wild_arith_ok(k, w, ce),
{
    if w.ce == 0 || ce == 0 {
        return false;
    }
    let blow = wide_mul(w.hp, w.ce);
    if blow > u32::MAX as u64 {
        return false;
    }
    if k.hp / w.ce > w.hp / ce && k.exp as u64 + blow > u32::MAX as u64 {
        return false;
    }
    blow / 10 <= k.hp as u64
}

} // verus!
