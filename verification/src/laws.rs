//! Properties of the game that hold across calls and states.
use vstd::prelude::*;
use crate::types::{kind_code, signed_by, Error, Kitty, KittyAttr, Origin, Payment, WeaponryKind, WildAnimal};
use crate::module::{
    battle_check, breed_check, buy_check, healed, idle_owner_check, is_battling, kitty_ce, lemma_push_contents,
    lemma_with_transfer_inv, weaponry_ce, State,
};
use crate::battle::{battle_arith_ok, battle_result, combine_dna_spec, wild_arith_ok, wild_battle_result};
use crate::linked_list::{entry, lemma_index_of_unique, lemma_remove_value_at, list_of, LinkedItem};

verus! {

/// Appending a kitty to a list without it and then removing it gives the list back.
pub proof fn law_append_then_remove(l: Seq<u32>, v: u32)
    requires
        l.no_duplicates(),
        !l.contains(v),
    ensures
        l.push(v).remove_value(v) == l,
{
    lemma_push_contents(l, v);
    lemma_remove_value_at(l.push(v), l.len() as int);
    assert(l.push(v)[l.len() as int] == v);
    assert(l.push(v).remove(l.len() as int) =~= l);
}

/// A kitty sits in the list of at most one account.
pub proof fn law_single_owner(s: State, a: u64, b: u64, kitty_id: u32)
    requires
        s.inv(),
        s.owns(a, kitty_id),
        s.owns(b, kitty_id),
    ensures
        a == b,
{
    assert(s.owned_list(a).contains(kitty_id));
    assert(s.owned_list(b).contains(kitty_id));
}

/// Every kitty sits in the list of its owner, and the kitties are exactly the
/// indices below the count.
pub proof fn law_kitty_in_owner_list(s: State, kitty_id: u32)
    requires
        s.inv(),
    ensures
        s.kitties.contains_key(kitty_id) == (kitty_id < s.kitties_count),
        s.kitties.contains_key(kitty_id) ==> s.kitty_owners.contains_key(kitty_id) && s.owns(
            s.kitty_owners[kitty_id],
            kitty_id,
        ),
{
    if s.kitties.contains_key(kitty_id) {
        assert(s.kitty_owners.contains_key(kitty_id));
        assert(s.owned_list(s.kitty_owners[kitty_id]).contains(kitty_id));
    }
}

/// A new kitty takes the next index, the count goes up by one, and the kitty is
/// the last of its owner's list.
pub proof fn law_new_kitty_takes_next_index(s: State, owner: u64, kitty: Kitty)
    requires
        s.inv(),
        s.kitties_count < u32::MAX,
    ensures
        ({
            let t = s.with_kitty(owner, s.kitties_count, kitty);
            &&& t.kitties_count == s.kitties_count + 1
            &&& t.kitties.dom() == s.kitties.dom().insert(s.kitties_count)
            &&& t.kitty_owners[s.kitties_count] == owner
            &&& t.owned_list(owner).last() == s.kitties_count
            &&& t.owned_list(owner).drop_last() == s.owned_list(owner)
            &&& t.kitties[s.kitties_count] == kitty
            &&& t.attr(s.kitties_count).hp == 100
            &&& t.attr(s.kitties_count).exp == 0
            &&& t.attr(s.kitties_count).ce == 100
            &&& t.attr(s.kitties_count).battle_begin is None
            &&& t.attr(s.kitties_count).battle_end is None
        }),
{
    let t = s.with_kitty(owner, s.kitties_count, kitty);
    assert(t.owned_list(owner) == s.owned_list(owner).push(s.kitties_count));
    assert(t.owned_list(owner).drop_last() =~= s.owned_list(owner));
}

/// Storing a kitty under any index that has no owner yet keeps every account's list
/// holding exactly the kitties it owns, and puts the new kitty in its owner's list only.
pub proof fn law_new_kitty_keeps_ownership_lists(s: State, owner: u64, kitty_id: u32, kitty: Kitty)
    requires
        forall|a: u64, k: u32| #[trigger] s.owns(a, k) == (s.kitty_owners.get(k) == Some(a)),
        !s.kitty_owners.contains_key(kitty_id),
    ensures
        ({
            let t = s.with_kitty(owner, kitty_id, kitty);
            &&& forall|a: u64, k: u32| #[trigger] t.owns(a, k) == (t.kitty_owners.get(k) == Some(a))
            &&& t.owns(owner, kitty_id)
            &&& forall|a: u64| #[trigger] t.owns(a, kitty_id) ==> a == owner
        }),
{
    let t = s.with_kitty(owner, kitty_id, kitty);
    let l = s.owned_list(owner);
    assert(!s.owns(owner, kitty_id));
    assert forall|a: u64, k: u32| #[trigger] t.owns(a, k) == (t.kitty_owners.get(k) == Some(a)) by {
        if a == owner {
            assert(t.owned_list(a) == l.push(kitty_id));
            assert(s.owns(a, k) == (s.kitty_owners.get(k) == Some(a)));
            if l.push(kitty_id).contains(k) && k != kitty_id {
                let j = choose|j: int| 0 <= j < l.push(kitty_id).len() && l.push(kitty_id)[j] == k;
                assert(l[j] == k);
            }
            if k == kitty_id {
                assert(l.push(kitty_id)[l.len() as int] == kitty_id);
            } else if l.contains(k) {
                let j = choose|j: int| 0 <= j < l.len() && l[j] == k;
                assert(l.push(kitty_id)[j] == k);
            }
        } else {
            assert(t.owned_list(a) == s.owned_list(a));
            assert(s.owns(a, k) == (s.kitty_owners.get(k) == Some(a)));
        }
    }
    assert(t.owns(owner, kitty_id) == (t.kitty_owners.get(kitty_id) == Some(owner)));
    assert forall|a: u64| #[trigger] t.owns(a, kitty_id) implies a == owner by {
        assert(t.owns(a, kitty_id) == (t.kitty_owners.get(kitty_id) == Some(a)));
    }
}

/// A transfer changes who owns the kitty and nothing about the kitties themselves,
/// their prices or their attributes.
pub proof fn law_transfer_changes_only_ownership(s: State, from: u64, to: u64, kitty_id: u32)
    requires
        s.inv(),
        s.kitty_owners.get(kitty_id) == Some(from),
    ensures
        ({
            let t = s.with_transfer(from, to, kitty_id);
            &&& t.inv()
            &&& t.kitties == s.kitties
            &&& t.kitties_count == s.kitties_count
            &&& t.kitty_prices == s.kitty_prices
            &&& t.kitty_attrs == s.kitty_attrs
            &&& t.kitty_owners == s.kitty_owners.insert(kitty_id, to)
            &&& t.owns(to, kitty_id)
            &&& forall|a: u64| a != to ==> !#[trigger] t.owns(a, kitty_id)
        }),
{
    lemma_with_transfer_inv(s, from, to, kitty_id);
    let t = s.with_transfer(from, to, kitty_id);
    assert(t.owned_list(to).contains(kitty_id) == (t.kitty_owners.contains_key(kitty_id) && t.kitty_owners[kitty_id]
        == to));
    assert forall|a: u64| a != to implies !#[trigger] t.owns(a, kitty_id) by {
        assert(t.owned_list(a).contains(kitty_id) == (t.kitty_owners.contains_key(kitty_id)
            && t.kitty_owners[kitty_id] == a));
    }
}

/// Transferring a kitty and transferring it back leaves every account owning what
/// it owned before.
pub proof fn law_transfer_back_restores_ownership(s: State, a: u64, b: u64, kitty_id: u32)
    requires
        s.inv(),
        s.kitty_owners.get(kitty_id) == Some(a),
    ensures
        ({
            let t = s.with_transfer(a, b, kitty_id).with_transfer(b, a, kitty_id);
            &&& t.kitty_owners == s.kitty_owners
            &&& forall|c: u64, x: u32| #[trigger] t.owns(c, x) == s.owns(c, x)
        }),
{
    let m = s.with_transfer(a, b, kitty_id);
    lemma_with_transfer_inv(s, a, b, kitty_id);
    lemma_with_transfer_inv(m, b, a, kitty_id);
    let t = m.with_transfer(b, a, kitty_id);
    assert(t.kitty_owners =~= s.kitty_owners);
    assert forall|c: u64, x: u32| #[trigger] t.owns(c, x) == s.owns(c, x) by {
        assert(t.owned_list(c).contains(x) == (t.kitty_owners.contains_key(x) && t.kitty_owners[x] == c));
        assert(s.owned_list(c).contains(x) == (s.kitty_owners.contains_key(x) && s.kitty_owners[x] == c));
    }
}

/// A buyer who is let through pays the owner exactly the asking price, which is at
/// most what the buyer offered.
pub proof fn law_buyer_pays_asking_price(s: State, origin: Origin, kitty_id: u32, price: u64)
    requires
        buy_check(s, origin, kitty_id, price) is Ok,
    ensures
        ({
            let p = buy_check(s, origin, kitty_id, price)->Ok_0;
            &&& origin == Origin::Signed(p.from)
            &&& s.kitty_owners.get(kitty_id) == Some(p.to)
            &&& s.kitty_prices.get(kitty_id) == Some(p.amount)
            &&& p.amount <= price
        }),
{
}

/// A kitty that is in battle can neither fight again, nor fight a wild animal, nor
/// be healed, nor breed.
pub proof fn law_battling_kitty_is_refused(
    s: State,
    origin: Origin,
    sender: u64,
    kitty_id: u32,
    other_id: u32,
    block: u64,
)
    requires
        is_battling(s, kitty_id, block),
    ensures
        battle_check(s, origin, kitty_id, other_id, block) is Err,
        battle_check(s, origin, other_id, kitty_id, block) is Err,
        idle_owner_check(s, origin, kitty_id, block) is Err,
        breed_check(s, sender, kitty_id, other_id, block) is Err,
        breed_check(s, sender, other_id, kitty_id, block) is Err,
{
}

/// After a battle at `block`, both fighters count as in battle up to four blocks later.
pub proof fn law_fighters_rest_after_battle(
    s: State,
    kitty_id: u32,
    target_id: u32,
    ce1: u32,
    ce2: u32,
    block: u64,
    later: u64,
)
    requires
        kitty_id != target_id,
        block + 4 <= u64::MAX,
        later <= block + 4,
    ensures
        ({
            let fought = battle_result(s.attr(kitty_id), s.attr(target_id), ce1, ce2, block);
            let t = State { kitty_attrs: s.kitty_attrs.insert(kitty_id, fought.0).insert(target_id, fought.1), ..s };
            &&& is_battling(t, kitty_id, later)
            &&& is_battling(t, target_id, later)
        }),
{
    let fought = battle_result(s.attr(kitty_id), s.attr(target_id), ce1, ce2, block);
    let t = State { kitty_attrs: s.kitty_attrs.insert(kitty_id, fought.0).insert(target_id, fought.1), ..s };
    assert(t.attr(kitty_id) == fought.0);
    assert(t.attr(target_id) == fought.1);
}

/// Healing, a wild battle and a lottery win leave a kitty's battle times alone.
pub proof fn law_attr_updates_keep_battle_times(a: KittyAttr<u64>, w: WildAnimal, ce: u32, gain: u32)
    ensures
        healed(a).battle_begin == a.battle_begin && healed(a).battle_end == a.battle_end,
        wild_battle_result(a, w, ce).battle_begin == a.battle_begin,
        wild_battle_result(a, w, ce).battle_end == a.battle_end,
        (KittyAttr { ce: gain, ..a }).battle_begin == a.battle_begin,
{
}

/// Every index the lottery may draw, from zero to the count less one, is a kitty.
pub proof fn law_lottery_draws_a_kitty(s: State, kitty_id: u32)
    requires
        s.inv(),
        s.kitties_count != 0,
        kitty_id <= s.kitties_count - 1,
    ensures
        s.kitties.contains_key(kitty_id),
{
}

/// A wild battle never raises a kitty's health.
pub proof fn law_wild_battle_never_heals(k: KittyAttr<u64>, w: WildAnimal, ce: u32)
    requires
        wild_arith_ok(k, w, ce),
    ensures
        wild_battle_result(k, w, ce).hp <= k.hp,
{
}

/// Healing never lowers health and always leaves at least a hundred.
pub proof fn law_healing(a: KittyAttr<u64>)
    ensures
        healed(a).hp >= a.hp,
        healed(a).hp >= 100,
        a.hp < 100 ==> healed(a).hp == 100,
        a.hp >= 100 ==> healed(a) == a,
        healed(a).exp == a.exp && healed(a).ce == a.ce,
{
}

/// A selector of all ones passes on the first parent's genes, one of all zeros the
/// second parent's.
pub proof fn law_selector_extremes(dna1: u8, dna2: u8)
    ensures
        combine_dna_spec(dna1, dna2, 0xff) == dna1,
        combine_dna_spec(dna1, dna2, 0) == dna2,
{
    assert((0xffu8 & dna1) | (!0xffu8 & dna2) == dna1) by (bit_vector);
    assert((0u8 & dna1) | (!0u8 & dna2) == dna2) by (bit_vector);
}

/// A kitty read back from its own encoding is the same kitty.
pub proof fn law_decode_of_encode(k: Kitty, d: Kitty)
    requires
        d.0@ == k.0@.take(16),
    ensures
        d == k,
{
    assert(k.0@.take(16) =~= k.0@);
    assert(d.0 =~= k.0);
}

/// In a kitty battle the fighter whose health divided by the other's combat
/// effectiveness is at least the other's health divided by its own wins. The winner
/// keeps its experience and gains the loser's health times the loser's combat
/// effectiveness, and loses a tenth of that product as health; the loser is left
/// without health and loses a tenth of its experience. Both are in battle from
/// `block` to `block + 4`; nothing else about them changes.
pub proof fn law_battle_exchange(a1: KittyAttr<u64>, a2: KittyAttr<u64>, ce1: u32, ce2: u32, block: u64)
    requires
        battle_arith_ok(a1, a2, ce1, ce2, block),
    ensures
        ({
            let r = battle_result(a1, a2, ce1, ce2, block);
            &&& a1.hp / ce2 >= a2.hp / ce1 ==> {
                &&& r.0.exp == a1.exp + a2.hp * ce2
                &&& r.0.hp == a1.hp - (a2.hp * ce2) / 10
                &&& r.1.hp == 0
                &&& r.1.exp == a2.exp - a2.exp / 10
            }
            &&& a1.hp / ce2 < a2.hp / ce1 ==> {
                &&& r.1.exp == a2.exp + a1.hp * ce1
                &&& r.1.hp == a2.hp - (a1.hp * ce1) / 10
                &&& r.0.hp == 0
                &&& r.0.exp == a1.exp - a1.exp / 10
            }
            &&& r.0.ce == a1.ce && r.1.ce == a2.ce
            &&& r.0.battle_type == a1.battle_type && r.1.battle_type == a2.battle_type
            &&& r.0.battle_begin == Some(block) && r.1.battle_begin == Some(block)
            &&& r.0.battle_end == Some((block + 4) as u64) && r.1.battle_end == Some((block + 4) as u64)
        }),
{
}

/// A battle never lowers the winner's experience, and the experience the winner gains
/// is ten times the health it loses, rounded as the division rounds.
pub proof fn law_battle_winner_gains(a1: KittyAttr<u64>, a2: KittyAttr<u64>, ce1: u32, ce2: u32, block: u64)
    requires
        battle_arith_ok(a1, a2, ce1, ce2, block),
    ensures
        ({
            let r = battle_result(a1, a2, ce1, ce2, block);
            &&& a1.hp / ce2 >= a2.hp / ce1 ==> r.0.exp >= a1.exp && r.0.hp <= a1.hp && (r.0.exp - a1.exp) / 10 == a1.hp
                - r.0.hp
            &&& a1.hp / ce2 < a2.hp / ce1 ==> r.1.exp >= a2.exp && r.1.hp <= a2.hp && (r.1.exp - a2.exp) / 10 == a2.hp
                - r.1.hp
        }),
{
}

/// Against a wild animal, a kitty whose health divided by the animal's combat
/// effectiveness is more than the animal's health divided by the kitty's wins and gains
/// the animal's health times the animal's combat effectiveness as experience; otherwise
/// its experience stays. Win or lose it loses a tenth of that product as health, and
/// nothing else about it changes.
pub proof fn law_wild_battle_exchange(k: KittyAttr<u64>, w: WildAnimal, ce: u32)
    requires
        wild_arith_ok(k, w, ce),
    ensures
        ({
            let r = wild_battle_result(k, w, ce);
            &&& k.hp / w.ce > w.hp / ce ==> r.exp == k.exp + w.hp * w.ce
            &&& k.hp / w.ce <= w.hp / ce ==> r.exp == k.exp
            &&& r.exp >= k.exp
            &&& r.hp == k.hp - (w.hp * w.ce) / 10
            &&& r.ce == k.ce
            &&& r.battle_begin == k.battle_begin && r.battle_end == k.battle_end
            &&& r.battle_type == k.battle_type
        }),
{
}

/// A signed offer of at least the asking price for a kitty that has an owner and a
/// price is accepted, and the buyer pays the owner the asking price; a lower offer is
/// refused as too low.
pub proof fn law_offer_at_asking_price_is_accepted(s: State, buyer: u64, kitty_id: u32, price: u64)
    requires
        s.kitty_owners.contains_key(kitty_id),
        s.kitty_prices.contains_key(kitty_id),
    ensures
        price >= s.kitty_prices[kitty_id] ==> buy_check(s, Origin::Signed(buyer), kitty_id, price) == Ok::<
            Payment,
            Error,
        >(Payment { from: buyer, to: s.kitty_owners[kitty_id], amount: s.kitty_prices[kitty_id] }),
        price < s.kitty_prices[kitty_id] ==> buy_check(s, Origin::Signed(buyer), kitty_id, price) == Err::<
            Payment,
            Error,
        >(Error::PriceTooLow),
{
}

/// With no weaponry, a kitty's combat effectiveness is its own.
pub proof fn law_unarmed_ce(s: State, kitty_id: u32)
    requires
        forall|code: u8| !#[trigger] s.kitty_weaponrys.contains_key((kitty_id, code)),
    ensures
        kitty_ce(s, kitty_id) == s.attr(kitty_id).ce,
{
    assert(!s.kitty_weaponrys.contains_key((kitty_id, 0u8)));
    assert(!s.kitty_weaponrys.contains_key((kitty_id, 1u8)));
    assert(!s.kitty_weaponrys.contains_key((kitty_id, 2u8)));
    assert(!s.kitty_weaponrys.contains_key((kitty_id, 3u8)));
}

/// Equipping a kitty with weaponry in an empty slot, whichever slot it is, raises the
/// kitty's combat effectiveness by exactly the weaponry's combat effectiveness.
pub proof fn law_equipping_adds_ce(s: State, kitty_id: u32, kind: WeaponryKind, weaponry_id: u32)
    requires
        s.weaponrys.contains_key(weaponry_id),
        !s.kitty_weaponrys.contains_key((kitty_id, kind_code(kind))),
    ensures
        kitty_ce(
            State { kitty_weaponrys: s.kitty_weaponrys.insert((kitty_id, kind_code(kind)), weaponry_id), ..s },
            kitty_id,
        ) == kitty_ce(s, kitty_id) + s.weaponrys[weaponry_id].ce,
{
    let t = State { kitty_weaponrys: s.kitty_weaponrys.insert((kitty_id, kind_code(kind)), weaponry_id), ..s };
    assert(t.kitty_weaponrys.get((kitty_id, kind_code(kind))) == Some(weaponry_id));
    assert(s.kitty_weaponrys.get((kitty_id, kind_code(kind))) == None::<u32>);
    assert forall|k2: WeaponryKind| k2 != kind implies #[trigger] weaponry_ce(t, kitty_id, k2) == weaponry_ce(
        s,
        kitty_id,
        k2,
    ) by {
        assert(kind_code(k2) != kind_code(kind));
        assert(t.kitty_weaponrys.get((kitty_id, kind_code(k2))) == s.kitty_weaponrys.get((kitty_id, kind_code(k2))));
    }
    assert(weaponry_ce(t, kitty_id, kind) == s.weaponrys[weaponry_id].ce);
    assert(weaponry_ce(s, kitty_id, kind) == 0);
    match kind {
        WeaponryKind::HELMET => {
            assert(weaponry_ce(t, kitty_id, WeaponryKind::ARMOR) == weaponry_ce(s, kitty_id, WeaponryKind::ARMOR));
            assert(weaponry_ce(t, kitty_id, WeaponryKind::WEAPON) == weaponry_ce(s, kitty_id, WeaponryKind::WEAPON));
            assert(weaponry_ce(t, kitty_id, WeaponryKind::SHOES) == weaponry_ce(s, kitty_id, WeaponryKind::SHOES));
        },
        WeaponryKind::ARMOR => {
            assert(weaponry_ce(t, kitty_id, WeaponryKind::HELMET) == weaponry_ce(s, kitty_id, WeaponryKind::HELMET));
            assert(weaponry_ce(t, kitty_id, WeaponryKind::WEAPON) == weaponry_ce(s, kitty_id, WeaponryKind::WEAPON));
            assert(weaponry_ce(t, kitty_id, WeaponryKind::SHOES) == weaponry_ce(s, kitty_id, WeaponryKind::SHOES));
        },
        WeaponryKind::WEAPON => {
            assert(weaponry_ce(t, kitty_id, WeaponryKind::HELMET) == weaponry_ce(s, kitty_id, WeaponryKind::HELMET));
            assert(weaponry_ce(t, kitty_id, WeaponryKind::ARMOR) == weaponry_ce(s, kitty_id, WeaponryKind::ARMOR));
            assert(weaponry_ce(t, kitty_id, WeaponryKind::SHOES) == weaponry_ce(s, kitty_id, WeaponryKind::SHOES));
        },
        WeaponryKind::SHOES => {
            assert(weaponry_ce(t, kitty_id, WeaponryKind::HELMET) == weaponry_ce(s, kitty_id, WeaponryKind::HELMET));
            assert(weaponry_ce(t, kitty_id, WeaponryKind::ARMOR) == weaponry_ce(s, kitty_id, WeaponryKind::ARMOR));
            assert(weaponry_ce(t, kitty_id, WeaponryKind::WEAPON) == weaponry_ce(s, kitty_id, WeaponryKind::WEAPON));
        },
    }
}

/// The four slots have four different storage codes.
pub proof fn law_slots_are_distinct(k1: WeaponryKind, k2: WeaponryKind)
    ensures
        kind_code(k1) == kind_code(k2) <==> k1 == k2,
{
}

/// Breeding succeeds exactly when both parents are stored kitties, they are different,
/// the sender owns both, neither is in battle and the count has room; the child then
/// takes the next index. A sender that does not own both valid, different parents is
/// refused as not the owner.
pub proof fn law_breeding_needs_both_parents(s: State, sender: u64, kitty_id_1: u32, kitty_id_2: u32, block: u64)
    ensures
        breed_check(s, sender, kitty_id_1, kitty_id_2, block) is Ok <==> {
            &&& s.kitties.contains_key(kitty_id_1)
            &&& s.kitties.contains_key(kitty_id_2)
            &&& kitty_id_1 != kitty_id_2
            &&& s.kitty_owners.contains_key(kitty_id_1) && s.kitty_owners[kitty_id_1] == sender
            &&& s.kitty_owners.contains_key(kitty_id_2) && s.kitty_owners[kitty_id_2] == sender
            &&& !is_battling(s, kitty_id_1, block)
            &&& !is_battling(s, kitty_id_2, block)
            &&& s.kitties_count < u32::MAX
        },
        breed_check(s, sender, kitty_id_1, kitty_id_2, block) is Ok ==> breed_check(
            s,
            sender,
            kitty_id_1,
            kitty_id_2,
            block,
        ) == Ok::<u32, Error>(s.kitties_count),
        s.kitties.contains_key(kitty_id_1) && s.kitties.contains_key(kitty_id_2) && kitty_id_1 != kitty_id_2 && (
        s.kitty_owners.get(kitty_id_1) != Some(sender) || s.kitty_owners.get(kitty_id_2) != Some(sender))
            ==> breed_check(s, sender, kitty_id_1, kitty_id_2, block) == Err::<u32, Error>(Error::RequiresOwner),
{
}

/// A kitty battle goes ahead exactly when a signed sender owns the kitty, the target
/// belongs to someone else, and neither is in battle.
pub proof fn law_battle_admission(s: State, sender: u64, kitty_id: u32, target_id: u32, block: u64)
    ensures
        battle_check(s, Origin::Signed(sender), kitty_id, target_id, block) == Ok::<u64, Error>(sender) <==> {
            &&& s.owned_list(sender).contains(kitty_id)
            &&& s.kitty_owners.get(target_id) != Some(sender)
            &&& !is_battling(s, kitty_id, block)
            &&& !is_battling(s, target_id, block)
        },
{
}

/// A kitty whose battle ended at block `end` is in battle at `end` and free after it.
pub proof fn law_battle_ends_after_last_block(s: State, kitty_id: u32, begin: u64, end: u64)
    requires
        s.attr(kitty_id).battle_begin == Some(begin),
        s.attr(kitty_id).battle_end == Some(end),
        end < u64::MAX,
    ensures
        is_battling(s, kitty_id, end),
        !is_battling(s, kitty_id, (end + 1) as u64),
{
}

/// A kitty whose battle has not begun is not in battle at any block.
pub proof fn law_unbegun_battle_is_no_battle(s: State, kitty_id: u32, block: u64)
    requires
        s.attr(kitty_id).battle_begin is None,
    ensures
        !is_battling(s, kitty_id, block),
{
}

/// A wild battle or healing goes ahead exactly when a signed sender owns the kitty and
/// it is not in battle; an unsigned or root origin is refused as a bad origin.
pub proof fn law_idle_owner_admission(s: State, origin: Origin, sender: u64, kitty_id: u32, block: u64)
    ensures
        idle_owner_check(s, Origin::Signed(sender), kitty_id, block) == Ok::<u64, Error>(sender) <==> (
        s.owned_list(sender).contains(kitty_id) && !is_battling(s, kitty_id, block)),
        s.owned_list(sender).contains(kitty_id) && is_battling(s, kitty_id, block) ==> idle_owner_check(
            s,
            Origin::Signed(sender),
            kitty_id,
            block,
        ) == Err::<u64, Error>(Error::KittyIsBattling),
        !(origin is Signed) ==> idle_owner_check(s, origin, kitty_id, block) == Err::<u64, Error>(Error::BadOrigin),
{
}

/// An offer for a kitty without an owner is refused as an invalid kitty, and one for
/// an owned kitty that is not for sale as not for sale.
pub proof fn law_offer_refusals(s: State, buyer: u64, kitty_id: u32, price: u64)
    ensures
        !s.kitty_owners.contains_key(kitty_id) ==> buy_check(s, Origin::Signed(buyer), kitty_id, price) == Err::<
            Payment,
            Error,
        >(Error::InvalidKittyId),
        s.kitty_owners.contains_key(kitty_id) && !s.kitty_prices.contains_key(kitty_id) ==> buy_check(
            s,
            Origin::Signed(buyer),
            kitty_id,
            price,
        ) == Err::<Payment, Error>(Error::KittyNotForSale),
{
}

/// A transferred kitty goes to the end of its new owner's list, and leaves every other
/// kitty of the new owner where it was.
pub proof fn law_transfer_appends_to_new_owner(s: State, from: u64, to: u64, kitty_id: u32)
    requires
        from != to,
    ensures
        s.with_transfer(from, to, kitty_id).owned_list(to) == s.owned_list(to).push(kitty_id),
{
}

/// Each bit of a mixed gene comes from the first parent where the selector has a one
/// and from the second where it has a zero.
pub proof fn law_gene_mixing(dna1: u8, dna2: u8, selector: u8)
    ensures
        forall|i: u8|
            i < 8 ==> #[trigger] ((combine_dna_spec(dna1, dna2, selector) >> i) & 1) == if ((selector >> i) & 1) == 1 {
                (dna1 >> i) & 1
            } else {
                (dna2 >> i) & 1
            },
{
    let r = combine_dna_spec(dna1, dna2, selector);
    assert(forall|i: u8|
        i < 8 ==> ((r >> i) & 1) == if ((selector >> i) & 1) == 1 {
            (dna1 >> i) & 1
        } else {
            (dna2 >> i) & 1
        }) by (bit_vector)
        requires
            r == (selector & dna1) | (!selector & dna2),
    ;
}

/// In the owned-kitties storage an account's sentinel links to the last and the first
/// kitty of its list, and each kitty's entry links to the kitties just before and just
/// after it (`None` at either end).
pub proof fn law_list_links(lists: Map<u64, Seq<u32>>, heads: Set<u64>, account: u64, i: int)
    requires
        list_of(lists, account).no_duplicates(),
        0 <= i < list_of(lists, account).len(),
        heads.contains(account),
    ensures
        ({
            let s = list_of(lists, account);
            &&& entry(lists, heads, (account, None)) == Some(LinkedItem { prev: Some(s[s.len() - 1]), next: Some(s[0]) })
            &&& entry(lists, heads, (account, Some(s[i]))) is Some
            &&& entry(lists, heads, (account, Some(s[i])))->0.prev == (if i == 0 {
                None
            } else {
                Some(s[i - 1])
            })
            &&& entry(lists, heads, (account, Some(s[i])))->0.next == (if i == s.len() - 1 {
                None
            } else {
                Some(s[i + 1])
            })
        }),
{
    lemma_index_of_unique(list_of(lists, account), i);
}

/// An account's storage holds no entry for a kitty outside its list.
pub proof fn law_unlisted_has_no_entry(lists: Map<u64, Seq<u32>>, heads: Set<u64>, account: u64, kitty_id: u32)
    requires
        !list_of(lists, account).contains(kitty_id),
    ensures
        entry(lists, heads, (account, Some(kitty_id))) is None,
{
}

/// A kitty with no stored attributes has no health, experience or combat
/// effectiveness and has never fought.
pub proof fn law_unstored_attributes_are_empty(s: State, kitty_id: u32)
    requires
        !s.kitty_attrs.contains_key(kitty_id),
    ensures
        s.attr(kitty_id).hp == 0 && s.attr(kitty_id).exp == 0 && s.attr(kitty_id).ce == 0,
        s.attr(kitty_id).battle_begin is None && s.attr(kitty_id).battle_end is None,
        s.attr(kitty_id).battle_type is None,
{
}

/// Only a signed origin has a sender, and it is the signing account.
pub proof fn law_only_signed_origins_send(origin: Origin, who: u64)
    ensures
        signed_by(Origin::Signed(who)) == Ok::<u64, Error>(who),
        !(origin is Signed) ==> signed_by(origin) == Err::<u64, Error>(Error::BadOrigin),
{
}

} // verus!
