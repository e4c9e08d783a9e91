//! The game's storage and the calls that change it.
use vstd::prelude::*;
use std::collections::BTreeMap;
use crate::types::{
    default_attr, ensure_none, ensure_root, ensure_signed, kind_code, newborn_attr, signed_by, Error,
    Event, Kitty, KittyAttr, Origin, Payment, WeaponryKind, Weaponry, WildAnimal,
};
use crate::linked_list::{entry, list_of, lemma_index_of_unique, lemma_remove_value_at, LinkedItem, OwnedKittiesList};
use crate::hashing::{blake2_128_digest, blake2_256_digest, dna_payload, lottery_payload, lottery_seed, random_value};
use crate::unsigned::Call;
use crate::battle::{
    battle_arith_fits, battle_arith_ok, battle_outcome, battle_result, combine_dna_spec, mix_dna, wild_arith_fits,
    wild_arith_ok, wild_battle_outcome, wild_battle_result,
};

verus! {

broadcast use vstd::std_specs::btree::group_btree_axioms, vstd::laws_cmp::group_laws_cmp;

/// The storage of the game, as plain maps.
pub struct State {
    /// All kitties, by index.
    pub kitties: Map<u32, Kitty>,
    /// The number of kitties ever made: the index of the next one.
    pub kitties_count: u32,
    /// The owner of each kitty.
    pub kitty_owners: Map<u32, u64>,
    /// The asking price of each kitty for sale.
    pub kitty_prices: Map<u32, u64>,
    /// The battle attributes stored for kitties.
    pub kitty_attrs: Map<u32, KittyAttr<u64>>,
    /// The kitties of each account, in the order they came to it.
    pub owned_kitties: Map<u64, Seq<u32>>,
    /// The accounts whose list has been written at least once.
    pub owned_heads: Set<u64>,
    /// The number of wild animals: the index of the next one.
    pub wild_animals_count: u32,
    /// All wild animals, by index.
    pub wild_animals: Map<u32, WildAnimal>,
    /// The weaponry in the shop, by index.
    pub weaponrys: Map<u32, Weaponry<u64>>,
    /// The number of weaponry items: the index of the next one.
    pub weaponrys_count: u32,
    /// The weaponry each kitty carries, by kitty and slot code.
    pub kitty_weaponrys: Map<(u32, u8), u32>,
}

impl State {
    /// The storage of a new chain without genesis weaponry.
    pub open spec fn empty() -> State {
        State {
            kitties: Map::empty(),
            kitties_count: 0,
            kitty_owners: Map::empty(),
            kitty_prices: Map::empty(),
            kitty_attrs: Map::empty(),
            owned_kitties: Map::empty(),
            owned_heads: Set::empty(),
            wild_animals_count: 0,
            wild_animals: Map::empty(),
            weaponrys: Map::empty(),
            weaponrys_count: 0,
            kitty_weaponrys: Map::empty(),
        }
    }

    /// The kitties of `account`.
    pub open spec fn owned_list(self, account: u64) -> Seq<u32> {
        list_of(self.owned_kitties, account)
    }

    /// Whether the owned-kitties storage of `account` holds `kitty_id`.
    pub open spec fn owns(self, account: u64, kitty_id: u32) -> bool {
        self.owned_list(account).contains(kitty_id)
    }

    /// The attributes of a kitty, the default ones when none are stored.
    pub open spec fn attr(self, kitty_id: u32) -> KittyAttr<u64> {
        if self.kitty_attrs.contains_key(kitty_id) {
            self.kitty_attrs[kitty_id]
        } else {
            default_attr()
        }
    }

    /// The storage after `kitty` is stored as kitty `kitty_id` of `owner`.
    pub open spec fn with_kitty(self, owner: u64, kitty_id: u32, kitty: Kitty) -> State {
        State {
            kitties: self.kitties.insert(kitty_id, kitty),
            kitties_count: (kitty_id + 1) as u32,
            kitty_owners: self.kitty_owners.insert(kitty_id, owner),
            kitty_attrs: self.kitty_attrs.insert(kitty_id, newborn_attr()),
            owned_kitties: self.owned_kitties.insert(owner, self.owned_list(owner).push(kitty_id)),
            owned_heads: self.owned_heads.insert(owner),
            ..self
        }
    }

    /// The storage after kitty `kitty_id` passes from `from` to `to`: it leaves the
    /// list of `from` (if it is there) and goes to the end of the list of `to`.
    pub open spec fn with_transfer(self, from: u64, to: u64, kitty_id: u32) -> State {
        let removed = if self.owned_list(from).contains(kitty_id) {
            self.owned_kitties.insert(from, self.owned_list(from).remove_value(kitty_id))
        } else {
            self.owned_kitties
        };
        State {
            kitty_owners: self.kitty_owners.insert(kitty_id, to),
            owned_kitties: removed.insert(to, list_of(removed, to).push(kitty_id)),
            owned_heads: self.owned_heads.insert(to),
            ..self
        }
    }

    /// What the storage always keeps: the kitties are exactly the indices below the count, the
    /// kitties with an owner are exactly the stored kitties, an account's list holds
    /// exactly the kitties it owns, and no list repeats a kitty.
    pub open spec fn inv(self) -> bool {
        &&& forall|id: u32| #[trigger] self.kitties.contains_key(id) == (id < self.kitties_count)
        &&& forall|id: u32| #[trigger] self.kitty_owners.contains_key(id) == self.kitties.contains_key(id)
        &&& forall|a: u64, id: u32|
            #[trigger] self.owned_list(a).contains(id) == (self.kitty_owners.contains_key(id)
                && self.kitty_owners[id] == a)
        &&& forall|a: u64| #[trigger] self.owned_list(a).no_duplicates()
    }
}

/// Storing a new kitty under the next index keeps the invariant.
pub proof fn lemma_with_kitty_inv(s: State, owner: u64, kitty: Kitty)
    requires
        s.inv(),
        s.kitties_count < u32::MAX,
    ensures
        s.with_kitty(owner, s.kitties_count, kitty).inv(),
        !s.owned_list(owner).contains(s.kitties_count),
{
    let id = s.kitties_count;
    let t = s.with_kitty(owner, id, kitty);
    assert(!s.kitty_owners.contains_key(id));
    assert(!s.owned_list(owner).contains(id));
    assert forall|a: u64, x: u32| #[trigger] t.owned_list(a).contains(x) == (t.kitty_owners.contains_key(x)
        && t.kitty_owners[x] == a) by {
        if a == owner {
            let l = s.owned_list(owner);
            assert(t.owned_list(a) == l.push(id));
            if l.push(id).contains(x) && x != id {
                let j = choose|j: int| 0 <= j < l.push(id).len() && l.push(id)[j] == x;
                assert(l[j] == x);
            }
            if x == id {
                assert(l.push(id)[l.len() as int] == id);
            } else if l.contains(x) {
                let j = choose|j: int| 0 <= j < l.len() && l[j] == x;
                assert(l.push(id)[j] == x);
            }
        } else {
            assert(t.owned_list(a) == s.owned_list(a));
        }
    }
    assert forall|a: u64| #[trigger] t.owned_list(a).no_duplicates() by {
        if a == owner {
            let l = s.owned_list(owner);
            assert(l.no_duplicates());
            assert forall|x: int, y: int|
                0 <= x < l.push(id).len() && 0 <= y < l.push(id).len() && x != y implies l.push(id)[x]
                != l.push(id)[y] by {
                if x == l.len() {
                    assert(l.contains(l.push(id)[y]));
                } else if y == l.len() {
                    assert(l.contains(l.push(id)[x]));
                }
            }
        } else {
            assert(t.owned_list(a) == s.owned_list(a));
        }
    }
}

/// The invariant only reads the kitties, their owners, the count and the lists.
pub proof fn lemma_inv_frame(s: State, t: State)
    requires
        s.inv(),
        t.kitties == s.kitties,
        t.kitties_count == s.kitties_count,
        t.kitty_owners == s.kitty_owners,
        t.owned_kitties == s.owned_kitties,
    ensures
        t.inv(),
{
    assert forall|a: u64, id: u32| #[trigger] t.owned_list(a).contains(id) == (t.kitty_owners.contains_key(id)
        && t.kitty_owners[id] == a) by {
        assert(t.owned_list(a) == s.owned_list(a));
    }
    assert forall|a: u64| #[trigger] t.owned_list(a).no_duplicates() by {
        assert(t.owned_list(a) == s.owned_list(a));
    }
}

/// Removing the only occurrence of `x` leaves a list without repetitions that
/// holds everything else it held.
pub proof fn lemma_remove_value_contents(l: Seq<u32>, x: u32)
    requires
        l.no_duplicates(),
        l.contains(x),
    ensures
        l.remove_value(x).no_duplicates(),
        forall|y: u32| #[trigger] l.remove_value(x).contains(y) == (l.contains(y) && y != x),
{
    let i = l.index_of(x);
    lemma_index_of_unique(l, i);
    lemma_remove_value_at(l, i);
    let r = l.remove(i);
    assert forall|p: int, q: int| 0 <= p < r.len() && 0 <= q < r.len() && p != q implies r[p] != r[q] by {
        let po = if p < i { p } else { p + 1 };
        let qo = if q < i { q } else { q + 1 };
        assert(r[p] == l[po]);
        assert(r[q] == l[qo]);
    }
    assert forall|y: u32| #[trigger] r.contains(y) == (l.contains(y) && y != x) by {
        if r.contains(y) {
            let p = choose|p: int| 0 <= p < r.len() && r[p] == y;
            let po = if p < i { p } else { p + 1 };
            assert(l[po] == y);
        }
        if l.contains(y) && y != x {
            let p = choose|p: int| 0 <= p < l.len() && l[p] == y;
            assert(p != i);
            let pr = if p < i { p } else { p - 1 };
            assert(r[pr] == y);
        }
    }
}

/// Appending a value that is not in a list without repetitions keeps it so.
pub proof fn lemma_push_contents(l: Seq<u32>, x: u32)
    requires
        l.no_duplicates(),
        !l.contains(x),
    ensures
        l.push(x).no_duplicates(),
        forall|y: u32| #[trigger] l.push(x).contains(y) == (l.contains(y) || y == x),
{
    let r = l.push(x);
    assert forall|p: int, q: int| 0 <= p < r.len() && 0 <= q < r.len() && p != q implies r[p] != r[q] by {
        if p == l.len() {
            assert(l.contains(r[q]));
        } else if q == l.len() {
            assert(l.contains(r[p]));
        }
    }
    assert forall|y: u32| #[trigger] r.contains(y) == (l.contains(y) || y == x) by {
        if r.contains(y) && y != x {
            let p = choose|p: int| 0 <= p < r.len() && r[p] == y;
            assert(l[p] == y);
        }
        if l.contains(y) {
            let p = choose|p: int| 0 <= p < l.len() && l[p] == y;
            assert(r[p] == y);
        }
        if y == x {
            assert(r[l.len() as int] == x);
        }
    }
}

/// Passing a kitty from its owner to any account keeps the invariant.
pub proof fn lemma_with_transfer_inv(s: State, from: u64, to: u64, kitty_id: u32)
    requires
        s.inv(),
        s.kitty_owners.contains_key(kitty_id),
        s.kitty_owners[kitty_id] == from,
    ensures
        s.with_transfer(from, to, kitty_id).inv(),
        s.owns(from, kitty_id),
{
    let t = s.with_transfer(from, to, kitty_id);
    let lf = s.owned_list(from);
    assert(lf.contains(kitty_id));
    assert(lf.no_duplicates());
    lemma_remove_value_contents(lf, kitty_id);
    let removed = s.owned_kitties.insert(from, lf.remove_value(kitty_id));
    let lt = list_of(removed, to);
    assert(lt.no_duplicates()) by {
        if to != from {
            assert(lt == s.owned_list(to));
        }
    }
    assert(!lt.contains(kitty_id)) by {
        if to != from {
            assert(lt == s.owned_list(to));
        }
    }
    lemma_push_contents(lt, kitty_id);
    assert forall|a: u64, x: u32| #[trigger] t.owned_list(a).contains(x) == (t.kitty_owners.contains_key(x)
        && t.kitty_owners[x] == a) by {
        if a == to {
            assert(t.owned_list(a) == lt.push(kitty_id));
            if to != from {
                assert(lt == s.owned_list(to));
            }
        } else if a == from {
            assert(t.owned_list(a) == lf.remove_value(kitty_id));
        } else {
            assert(t.owned_list(a) == s.owned_list(a));
        }
    }
    assert forall|a: u64| #[trigger] t.owned_list(a).no_duplicates() by {
        if a == to {
            assert(t.owned_list(a) == lt.push(kitty_id));
        } else if a == from {
            assert(t.owned_list(a) == lf.remove_value(kitty_id));
        } else {
            assert(t.owned_list(a) == s.owned_list(a));
        }
    }
}

/// What breeding `kitty_id_1` with `kitty_id_2` for `sender` at `block` is refused
/// with, in the order of the checks, or the index the child gets. A parent that is
/// in battle cannot breed.
pub open spec fn breed_check(s: State, sender: u64, kitty_id_1: u32, kitty_id_2: u32, block: u64) -> Result<
    u32,
    Error,
> {
    if !s.kitties.contains_key(kitty_id_1) || !s.kitties.contains_key(kitty_id_2) {
        Err(Error::InvalidKittyId)
    } else if kitty_id_1 == kitty_id_2 {
        Err(Error::RequiresDifferentParents)
    } else if s.kitty_owners.get(kitty_id_1) != Some(sender) || s.kitty_owners.get(kitty_id_2) != Some(sender) {
        Err(Error::RequiresOwner)
    } else if is_battling(s, kitty_id_1, block) || is_battling(s, kitty_id_2, block) {
        Err(Error::KittyIsBattling)
    } else if s.kitties_count == u32::MAX {
        Err(Error::KittiesCountOverflow)
    } else {
        Ok(s.kitties_count)
    }
}

/// What an offer of `price` for `kitty_id` is refused with, in the order of the
/// checks, or the payment the buyer owes the owner.
pub open spec fn buy_check(s: State, origin: Origin, kitty_id: u32, price: u64) -> Result<Payment, Error> {
    match signed_by(origin) {
        Err(e) => Err(e),
        Ok(sender) => if !s.kitty_owners.contains_key(kitty_id) {
            Err(Error::InvalidKittyId)
        } else if !s.kitty_prices.contains_key(kitty_id) {
            Err(Error::KittyNotForSale)
        } else if price < s.kitty_prices[kitty_id] {
            Err(Error::PriceTooLow)
        } else {
            Ok(Payment { from: sender, to: s.kitty_owners[kitty_id], amount: s.kitty_prices[kitty_id] })
        },
    }
}

/// Whether a kitty counts as in battle at `block`: its battle has begun and has not
/// ended before that block.
pub open spec fn is_battling(s: State, kitty_id: u32, block: u64) -> bool {
    let a = s.attr(kitty_id);
    a.battle_begin is Some && !(a.battle_end is Some && a.battle_end->0 < block)
}

/// The combat effectiveness a kitty gets from its weaponry in slot `kind`.
pub open spec fn weaponry_ce(s: State, kitty_id: u32, kind: WeaponryKind) -> u32 {
    match s.kitty_weaponrys.get((kitty_id, kind_code(kind))) {
        Some(w) => match s.weaponrys.get(w) {
            Some(weaponry) => weaponry.ce,
            None => 0,
        },
        None => 0,
    }
}

/// A kitty's combat effectiveness: its own plus that of its four weaponry slots.
pub open spec fn kitty_ce(s: State, kitty_id: u32) -> int {
    s.attr(kitty_id).ce + weaponry_ce(s, kitty_id, WeaponryKind::HELMET) + weaponry_ce(s, kitty_id, WeaponryKind::ARMOR)
        + weaponry_ce(s, kitty_id, WeaponryKind::WEAPON) + weaponry_ce(s, kitty_id, WeaponryKind::SHOES)
}

/// The signer, when it owns `kitty_id`.
pub open spec fn owner_check(s: State, origin: Origin, kitty_id: u32) -> Result<u64, Error> {
    match signed_by(origin) {
        Err(e) => Err(e),
        Ok(sender) => if s.owns(sender, kitty_id) {
            Ok(sender)
        } else {
            Err(Error::RequiresOwner)
        },
    }
}

/// The signer, when it owns `kitty_id` and the kitty is not in battle at `block`:
/// what a wild battle and healing check first.
pub open spec fn idle_owner_check(s: State, origin: Origin, kitty_id: u32, block: u64) -> Result<u64, Error> {
    match owner_check(s, origin, kitty_id) {
        Err(e) => Err(e),
        Ok(sender) => if is_battling(s, kitty_id, block) {
            Err(Error::KittyIsBattling)
        } else {
            Ok(sender)
        },
    }
}

/// What a kitty battle is refused with, in the order of the checks, or the signer:
/// neither fighter may already be in battle, and the target must belong to someone else.
pub open spec fn battle_check(s: State, origin: Origin, kitty_id: u32, target_id: u32, block: u64) -> Result<
    u64,
    Error,
> {
    match owner_check(s, origin, kitty_id) {
        Err(e) => Err(e),
        Ok(sender) => if is_battling(s, kitty_id, block) {
            Err(Error::KittyIsBattling)
        } else if s.kitty_owners.get(target_id) == Some(sender) {
            Err(Error::RequiresDifferentOwner)
        } else if is_battling(s, target_id, block) {
            Err(Error::KittyIsBattling)
        } else {
            Ok(sender)
        },
    }
}

/// The states in which a kitty battle's arithmetic stays in range.
pub open spec fn battle_safe(s: State, kitty_id: u32, target_id: u32, block: u64) -> bool {
    &&& kitty_ce(s, kitty_id) <= u32::MAX
    &&& kitty_ce(s, target_id) <= u32::MAX
    &&& battle_arith_ok(
        s.attr(kitty_id),
        s.attr(target_id),
        kitty_ce(s, kitty_id) as u32,
        kitty_ce(s, target_id) as u32,
        block,
    )
}

/// The states in which a wild battle finds its animal and its arithmetic stays in range.
pub open spec fn wild_safe(s: State, kitty_id: u32, wild_animal_id: u32) -> bool {
    &&& kitty_ce(s, kitty_id) <= u32::MAX
    &&& s.wild_animals.contains_key(wild_animal_id)
    &&& wild_arith_ok(s.attr(kitty_id), s.wild_animals[wild_animal_id], kitty_ce(s, kitty_id) as u32)
}

/// A kitty's attributes after healing: health below a hundred becomes a hundred.
pub open spec fn healed(a: KittyAttr<u64>) -> KittyAttr<u64> {
    if a.hp < 100 {
        KittyAttr { hp: 100, ..a }
    } else {
        a
    }
}

/// A lottery draw for the off-chain worker: the number generator's seed and the
/// largest kitty index it may pick.
#[derive(Clone, Copy, Debug)]
pub struct LotteryDraw {
    pub seed: [u8; 32],
    pub max: u32,
}

/// The map that a list of `(index, weaponry)` pairs sets up, later pairs winning.
pub open spec fn pairs_to_map(pairs: Seq<(u32, Weaponry<u64>)>) -> Map<u32, Weaponry<u64>>
    decreases pairs.len(),
{
    if pairs.len() == 0 {
        Map::empty()
    } else {
        pairs_to_map(pairs.drop_last()).insert(pairs.last().0, pairs.last().1)
    }
}

/// The unsigned call the off-chain worker submits for the kitty `picked` by the
/// lottery: raise its combat effectiveness by one.
pub fn lottery_call(picked: u32) -> (r: Call)
    ensures
        r == Call::update_kitty_ec(picked, 1),
{
    Call::update_kitty_ec(picked, 1)
}

/// The game's storage.
pub struct Module {
    kitties: BTreeMap<u32, Kitty>,
    kitties_count: u32,
    kitty_owners: BTreeMap<u32, u64>,
    kitty_prices: BTreeMap<u32, u64>,
    kitty_attrs: BTreeMap<u32, KittyAttr<u64>>,
    owned_kitties: OwnedKittiesList,
    wild_animals_count: u32,
    wild_animals: BTreeMap<u32, WildAnimal>,
    weaponrys: BTreeMap<u32, Weaponry<u64>>,
    weaponrys_count: u32,
    kitty_weaponrys: BTreeMap<(u32, u8), u32>,
}

impl View for Module {
    type V = State;

    closed spec fn view(&self) -> State {
        State {
            kitties: self.kitties@,
            kitties_count: self.kitties_count,
            kitty_owners: self.kitty_owners@,
            kitty_prices: self.kitty_prices@,
            kitty_attrs: self.kitty_attrs@,
            owned_kitties: self.owned_kitties.lists(),
            owned_heads: self.owned_kitties.heads(),
            wild_animals_count: self.wild_animals_count,
            wild_animals: self.wild_animals@,
            weaponrys: self.weaponrys@,
            weaponrys_count: self.weaponrys_count,
            kitty_weaponrys: self.kitty_weaponrys@,
        }
    }
}

impl Module {
    /// The storage is consistent: the owned-kitties map is well formed and the
    /// state keeps its invariant.
    pub closed spec fn wf(&self) -> bool {
        &&& self.owned_kitties.wf()
        &&& self@.inv()
    }

    /// The owned-kitties map agrees with the lists it stands for.
    pub closed spec fn lists_wf(&self) -> bool {
        self.owned_kitties.wf()
    }

    /// The storage of a new chain, without weaponry.
    pub fn new() -> (r: Module)
        ensures
            r.wf(),
            r@ == State::empty(),
    {
        let r = Module {
            kitties: BTreeMap::new(),
            kitties_count: 0,
            kitty_owners: BTreeMap::new(),
            kitty_prices: BTreeMap::new(),
            kitty_attrs: BTreeMap::new(),
            owned_kitties: OwnedKittiesList::new(),
            wild_animals_count: 0,
            wild_animals: BTreeMap::new(),
            weaponrys: BTreeMap::new(),
            weaponrys_count: 0,
            kitty_weaponrys: BTreeMap::new(),
        };
        assert(r@ =~= State::empty());
        r
    }

    /// The storage of a new chain whose shop starts with `weaponrys` (a later pair
    /// overriding an earlier one with the same index) and whose weaponry count
    /// starts at `weaponrys_count`.
    pub fn genesis(weaponrys: Vec<(u32, Weaponry<u64>)>, weaponrys_count: u32) -> (r: Module)
        ensures
            r.wf(),
            r@ == (State { weaponrys: pairs_to_map(weaponrys@), weaponrys_count: weaponrys_count, ..State::empty() }),
    {
        let mut m = Module::new();
        m.weaponrys_count = weaponrys_count;
        let ghost all = weaponrys@;
        let mut rest = weaponrys;
        let ghost mut done: int = 0;
        while rest.len() > 0
            invariant
                m.wf(),
                0 <= done <= all.len(),
                rest@ == all.skip(done),
                m@ == (State { weaponrys: pairs_to_map(all.take(done)), weaponrys_count: weaponrys_count, ..State::empty() }),
            decreases rest.len(),
        {
            let (id, w) = rest.remove(0);
            let ghost before = m@;
            m.weaponrys.insert(id, w);
            proof {
                assert(all.take(done + 1).drop_last() =~= all.take(done));
                assert(all.take(done + 1).last() == all[done]);
                assert(all.skip(done + 1) =~= all.skip(done).remove(0));
                done = done + 1;
                lemma_inv_frame(before, m@);
            }
        }
        assert(all.take(done) =~= all);
        m
    }

    /// The kitty stored under `kitty_id`.
    pub fn kitties(&self, kitty_id: u32) -> (r: Option<Kitty>)
        ensures
            r == self@.kitties.get(kitty_id),
    {
        match self.kitties.get(&kitty_id) {
            Some(k) => Some(*k),
            None => None,
        }
    }

    /// The number of kitties made so far.
    pub fn kitties_count(&self) -> (r: u32)
        ensures
            r == self@.kitties_count,
    {
        self.kitties_count
    }

    /// The owner of a kitty.
    pub fn kitty_owner(&self, kitty_id: u32) -> (r: Option<u64>)
        ensures
            r == self@.kitty_owners.get(kitty_id),
    {
        match self.kitty_owners.get(&kitty_id) {
            Some(o) => Some(*o),
            None => None,
        }
    }

    /// The asking price of a kitty; `None` when it is not for sale.
    pub fn kitty_price(&self, kitty_id: u32) -> (r: Option<u64>)
        ensures
            r == self@.kitty_prices.get(kitty_id),
    {
        match self.kitty_prices.get(&kitty_id) {
            Some(p) => Some(*p),
            None => None,
        }
    }

    /// The battle attributes of a kitty, the default ones when none are stored.
    pub fn kitty_attrs(&self, kitty_id: u32) -> (r: KittyAttr<u64>)
        ensures
            r == self@.attr(kitty_id),
    {
        match self.kitty_attrs.get(&kitty_id) {
            Some(a) => *a,
            None => KittyAttr::default(),
        }
    }

    /// The owned-kitties entry under `key`.
    pub fn owned_kitties(&self, key: (u64, Option<u32>)) -> (r: Option<LinkedItem>)
        requires
            self.lists_wf(),
        ensures
            r == entry(self@.owned_kitties, self@.owned_heads, key),
    {
        self.owned_kitties.get(key)
    }

    /// The number of wild animals made so far.
    pub fn wild_animals_count(&self) -> (r: u32)
        ensures
            r == self@.wild_animals_count,
    {
        self.wild_animals_count
    }

    /// The wild animal stored under `id`.
    pub fn wild_animals(&self, id: u32) -> (r: Option<WildAnimal>)
        ensures
            r == self@.wild_animals.get(id),
    {
        match self.wild_animals.get(&id) {
            Some(w) => Some(*w),
            None => None,
        }
    }

    /// The weaponry stored under `id`.
    pub fn weaponrys(&self, id: u32) -> (r: Option<&Weaponry<u64>>)
        ensures
            r == (match self@.weaponrys.get(id) {
                Some(w) => Some(&w),
                None => None,
            }),
    {
        self.weaponrys.get(&id)
    }

    /// The number of weaponry items made so far.
    pub fn weaponrys_count(&self) -> (r: u32)
        ensures
            r == self@.weaponrys_count,
    {
        self.weaponrys_count
    }

    /// The weaponry a kitty carries in slot `kind`.
    pub fn kitty_weaponrys(&self, kitty_id: u32, kind: WeaponryKind) -> (r: Option<u32>)
        ensures
            r == self@.kitty_weaponrys.get((kitty_id, kind_code(kind))),
    {
        match self.kitty_weaponrys.get(&(kitty_id, kind.code())) {
            Some(w) => Some(*w),
            None => None,
        }
    }

    /// The index the next kitty gets, unless the count is at its largest value.
    pub fn next_kitty_id(&self) -> (r: Result<u32, Error>)
        ensures
            r == (if self@.kitties_count == u32::MAX {
                Err(Error::KittiesCountOverflow)
            } else {
                Ok::<u32, Error>(self@.kitties_count)
            }),
    {
        let kitty_id = self.kitties_count;
        if kitty_id == u32::MAX {
            return Err(Error::KittiesCountOverflow);
        }
        Ok(kitty_id)
    }

    /// The index the next weaponry gets, unless the count is at its largest value.
    pub fn next_weaponry_id(&self) -> (r: Result<u32, Error>)
        ensures
            r == (if self@.weaponrys_count == u32::MAX {
                Err(Error::IndexCountOverflow)
            } else {
                Ok::<u32, Error>(self@.weaponrys_count)
            }),
    {
        let weaponry_id = self.weaponrys_count;
        if weaponry_id == u32::MAX {
            return Err(Error::IndexCountOverflow);
        }
        Ok(weaponry_id)
    }

    /// Appends a kitty to the list of its owner.
    pub fn insert_owned_kitty(&mut self, owner: u64, kitty_id: u32)
        requires
            old(self).lists_wf(),
            !old(self)@.owns(owner, kitty_id),
        ensures
            final(self).lists_wf(),
            final(self)@ == (State {
                owned_kitties: old(self)@.owned_kitties.insert(owner, old(self)@.owned_list(owner).push(kitty_id)),
                owned_heads: old(self)@.owned_heads.insert(owner),
                ..old(self)@
            }),
    {
        self.owned_kitties.append(owner, kitty_id);
    }

    /// Stores `kitty` as the next kitty, owned by `owner`, with the newborn attributes.
    pub(crate) fn insert_kitty(&mut self, owner: u64, kitty_id: u32, kitty: Kitty)
        requires
            old(self).wf(),
            kitty_id == old(self)@.kitties_count,
            kitty_id < u32::MAX,
        ensures
            final(self).wf(),
            final(self)@ == old(self)@.with_kitty(owner, kitty_id, kitty),
    {
        proof {
            lemma_with_kitty_inv(self@, owner, kitty);
        }
        self.kitties.insert(kitty_id, kitty);
        self.kitties_count = kitty_id + 1;
        self.kitty_owners.insert(kitty_id, owner);
        self.kitty_attrs.insert(
            kitty_id,
            KittyAttr { hp: 100, exp: 0, ce: 100, battle_begin: None, battle_end: None, battle_type: None },
        );
        self.insert_owned_kitty(owner, kitty_id);
        assert(self@ =~= old(self)@.with_kitty(owner, kitty_id, kitty));
    }

    /// Moves kitty `kitty_id` from the list of `from` (where it may be missing) to the
    /// end of the list of `to`, and records `to` as its owner. The list of `to` must
    /// not hold the kitty already, unless `to` is `from`.
    pub fn do_transfer(&mut self, from: u64, to: u64, kitty_id: u32)
        requires
            old(self).lists_wf(),
            to == from || !old(self)@.owns(to, kitty_id),
        ensures
            final(self).lists_wf(),
            final(self)@ == old(self)@.with_transfer(from, to, kitty_id),
            old(self).wf() && old(self)@.kitty_owners.get(kitty_id) == Some(from) ==> final(self).wf(),
    {
        let ghost l = self@.owned_list(from);
        proof {
            self.owned_kitties.lemma_no_duplicates();
            assert(self.owned_kitties.list(from) == l);
            assert(l.no_duplicates());
            if l.contains(kitty_id) {
                lemma_remove_value_contents(l, kitty_id);
            }
            if old(self).wf() && old(self)@.kitty_owners.get(kitty_id) == Some(from) {
                lemma_with_transfer_inv(self@, from, to, kitty_id);
            }
        }
        self.owned_kitties.remove(from, kitty_id);
        proof {
            if to != from {
                assert(self.owned_kitties.list(to) == old(self)@.owned_list(to));
            }
        }
        self.owned_kitties.append(to, kitty_id);
        self.kitty_owners.insert(kitty_id, to);
        assert(self@ =~= old(self)@.with_transfer(from, to, kitty_id));
    }

    /// Creates a kitty for the signer with DNA drawn from the chain's randomness.
    pub fn create(
        &mut self,
        origin: Origin,
        random_seed: [u8; 32],
        extrinsic_index: Option<u32>,
        block_number: u64,
    ) -> (r: Result<Event, Error>)
        requires
            old(self).wf(),
        ensures
            final(self).wf(),
            match signed_by(origin) {
                Err(e) => r == Err::<Event, Error>(e) && final(self)@ == old(self)@,
                Ok(sender) => if old(self)@.kitties_count == u32::MAX {
                    r == Err::<Event, Error>(Error::KittiesCountOverflow) && final(self)@ == old(self)@
                } else {
                    let id = old(self)@.kitties_count;
                    &&& r == Ok::<Event, Error>(Event::Created(sender, id))
                    &&& final(self)@ == old(self)@.with_kitty(sender, id, final(self)@.kitties[id])
                    &&& final(self)@.kitties[id].0@ == blake2_128_digest(
                        dna_payload(random_seed@, sender, extrinsic_index, block_number),
                    )
                },
            },
    {
        let sender = ensure_signed(origin)?;
        let kitty_id = self.next_kitty_id()?;
        let dna = random_value(random_seed, sender, extrinsic_index, block_number);
        let kitty = Kitty(dna);
        self.insert_kitty(sender, kitty_id, kitty);
        Ok(Event::Created(sender, kitty_id))
    }

    /// Creates a wild animal; only the root origin may.
    pub fn create_wild_animal(&mut self, origin: Origin, health_point: u32, combat_effectiveness: u32) -> (r:
        Result<(), Error>)
        requires
            old(self).wf(),
        ensures
            final(self).wf(),
            origin != Origin::Root ==> r == Err::<(), Error>(Error::BadOrigin) && final(self)@ == old(self)@,
            origin == Origin::Root && old(self)@.wild_animals_count == u32::MAX ==> r == Err::<(), Error>(
                Error::Overflow,
            ) && final(self)@ == old(self)@,
            origin == Origin::Root && old(self)@.wild_animals_count < u32::MAX ==> r == Ok::<(), Error>(())
                && final(self)@ == (State {
                wild_animals_count: (old(self)@.wild_animals_count + 1) as u32,
                wild_animals: old(self)@.wild_animals.insert(
                    old(self)@.wild_animals_count,
                    WildAnimal { hp: health_point, ce: combat_effectiveness },
                ),
                ..old(self)@
            }),
    {
        ensure_root(origin)?;
        let wild_animal_id = self.wild_animals_count;
        let next = match wild_animal_id.checked_add(1) {
            Some(n) => n,
            None => return Err(Error::Overflow),
        };
        self.wild_animals_count = next;
        let wild_animal = WildAnimal { hp: health_point, ce: combat_effectiveness };
        self.wild_animals.insert(wild_animal_id, wild_animal);
        proof {
            lemma_inv_frame(old(self)@, self@);
        }
        Ok(())
    }

    /// Breeds a new kitty for `sender` from two of its kitties: each bit of the child's
    /// DNA comes from the first parent where the chain's random bits have a one, from
    /// the second elsewhere.
    pub fn do_breed(
        &mut self,
        sender: u64,
        kitty_id_1: u32,
        kitty_id_2: u32,
        random_seed: [u8; 32],
        extrinsic_index: Option<u32>,
        block_number: u64,
    ) -> (r: Result<u32, Error>)
        requires
            old(self).wf(),
        ensures
            final(self).wf(),
            match breed_check(old(self)@, sender, kitty_id_1, kitty_id_2, block_number) {
                Err(e) => r == Err::<u32, Error>(e) && final(self)@ == old(self)@,
                Ok(id) => {
                    let selector = blake2_128_digest(dna_payload(random_seed@, sender, extrinsic_index, block_number));
                    &&& r == Ok::<u32, Error>(id)
                    &&& final(self)@ == old(self)@.with_kitty(sender, id, final(self)@.kitties[id])
                    &&& forall|i: int|
                        0 <= i < 16 ==> #[trigger] final(self)@.kitties[id].0[i] == combine_dna_spec(
                            old(self)@.kitties[kitty_id_1].0[i],
                            old(self)@.kitties[kitty_id_2].0[i],
                            selector[i],
                        )
                },
            },
    {
        let kitty1 = self.kitties(kitty_id_1);
        let kitty2 = self.kitties(kitty_id_2);
        let kitty1 = match kitty1 {
            Some(k) => k,
            None => return Err(Error::InvalidKittyId),
        };
        let kitty2 = match kitty2 {
            Some(k) => k,
            None => return Err(Error::InvalidKittyId),
        };
        if kitty_id_1 == kitty_id_2 {
            return Err(Error::RequiresDifferentParents);
        }
        match self.kitty_owner(kitty_id_1) {
            Some(owner) => if owner != sender {
                return Err(Error::RequiresOwner);
            },
            None => return Err(Error::RequiresOwner),
        }
        match self.kitty_owner(kitty_id_2) {
            Some(owner) => if owner != sender {
                return Err(Error::RequiresOwner);
            },
            None => return Err(Error::RequiresOwner),
        }
        if self.check_battling(kitty_id_1, block_number) || self.check_battling(kitty_id_2, block_number) {
            return Err(Error::KittyIsBattling);
        }
        let kitty_id = self.next_kitty_id()?;
        let selector = random_value(random_seed, sender, extrinsic_index, block_number);
        let new_dna = mix_dna(kitty1.0, kitty2.0, selector);
        self.insert_kitty(sender, kitty_id, Kitty(new_dna));
        Ok(kitty_id)
    }

    /// Breeds two kitties of the signer into a new one.
    pub fn breed(
        &mut self,
        origin: Origin,
        kitty_id_1: u32,
        kitty_id_2: u32,
        random_seed: [u8; 32],
        extrinsic_index: Option<u32>,
        block_number: u64,
    ) -> (r: Result<Event, Error>)
        requires
            old(self).wf(),
        ensures
            final(self).wf(),
            match signed_by(origin) {
                Err(e) => r == Err::<Event, Error>(e) && final(self)@ == old(self)@,
                Ok(sender) => match breed_check(old(self)@, sender, kitty_id_1, kitty_id_2, block_number) {
                    Err(e) => r == Err::<Event, Error>(e) && final(self)@ == old(self)@,
                    Ok(id) => {
                        let selector = blake2_128_digest(
                            dna_payload(random_seed@, sender, extrinsic_index, block_number),
                        );
                        &&& r == Ok::<Event, Error>(Event::Created(sender, id))
                        &&& final(self)@ == old(self)@.with_kitty(sender, id, final(self)@.kitties[id])
                        &&& forall|i: int|
                            0 <= i < 16 ==> #[trigger] final(self)@.kitties[id].0[i] == combine_dna_spec(
                                old(self)@.kitties[kitty_id_1].0[i],
                                old(self)@.kitties[kitty_id_2].0[i],
                                selector[i],
                            )
                    },
                },
            },
    {
        let sender = ensure_signed(origin)?;
        let new_kitty_id = self.do_breed(sender, kitty_id_1, kitty_id_2, random_seed, extrinsic_index, block_number)?;
        Ok(Event::Created(sender, new_kitty_id))
    }

    /// Gives a kitty of the signer to `to`.
    pub fn transfer(&mut self, origin: Origin, to: u64, kitty_id: u32) -> (r: Result<Event, Error>)
        requires
            old(self).wf(),
        ensures
            final(self).wf(),
            match signed_by(origin) {
                Err(e) => r == Err::<Event, Error>(e) && final(self)@ == old(self)@,
                Ok(sender) => if !old(self)@.owns(sender, kitty_id) {
                    r == Err::<Event, Error>(Error::RequiresOwner) && final(self)@ == old(self)@
                } else {
                    &&& r == Ok::<Event, Error>(Event::Transferred(sender, to, kitty_id))
                    &&& final(self)@ == old(self)@.with_transfer(sender, to, kitty_id)
                },
            },
    {
        let sender = ensure_signed(origin)?;
        if !self.owned_kitties.contains_key((sender, Some(kitty_id))) {
            return Err(Error::RequiresOwner);
        }
        assert(self@.owned_list(sender).contains(kitty_id));
        self.do_transfer(sender, to, kitty_id);
        Ok(Event::Transferred(sender, to, kitty_id))
    }

    /// Puts a kitty of the signer up for sale at `price`, or takes it off sale with `None`.
    pub fn ask(&mut self, origin: Origin, kitty_id: u32, price: Option<u64>) -> (r: Result<Event, Error>)
        requires
            old(self).wf(),
        ensures
            final(self).wf(),
            match signed_by(origin) {
                Err(e) => r == Err::<Event, Error>(e) && final(self)@ == old(self)@,
                Ok(sender) => if !old(self)@.owns(sender, kitty_id) {
                    r == Err::<Event, Error>(Error::RequiresOwner) && final(self)@ == old(self)@
                } else {
                    &&& r == Ok::<Event, Error>(Event::Ask(sender, kitty_id, price))
                    &&& final(self)@ == (State {
                        kitty_prices: match price {
                            Some(p) => old(self)@.kitty_prices.insert(kitty_id, p),
                            None => old(self)@.kitty_prices.remove(kitty_id),
                        },
                        ..old(self)@
                    })
                },
            },
    {
        let sender = ensure_signed(origin)?;
        if !self.owned_kitties.contains_key((sender, Some(kitty_id))) {
            return Err(Error::RequiresOwner);
        }
        match price {
            Some(p) => {
                self.kitty_prices.insert(kitty_id, p);
            },
            None => {
                self.kitty_prices.remove(&kitty_id);
            },
        }
        proof {
            lemma_inv_frame(old(self)@, self@);
        }
        Ok(Event::Ask(sender, kitty_id, price))
    }

    /// Checks an offer of `price` for a kitty and says what the buyer must pay to
    /// whom: the asking price, to the owner. Nothing changes until `complete_buy`.
    pub fn buy(&self, origin: Origin, kitty_id: u32, price: u64) -> (r: Result<Payment, Error>)
        requires
            self.wf(),
        ensures
            r == buy_check(self@, origin, kitty_id, price),
    {
        let sender = ensure_signed(origin)?;
        let owner = match self.kitty_owner(kitty_id) {
            Some(o) => o,
            None => return Err(Error::InvalidKittyId),
        };
        let kitty_price = match self.kitty_price(kitty_id) {
            Some(p) => p,
            None => return Err(Error::KittyNotForSale),
        };
        if price < kitty_price {
            return Err(Error::PriceTooLow);
        }
        Ok(Payment { from: sender, to: owner, amount: kitty_price })
    }

    /// Finishes a sale once `payment` is made: the kitty is off sale and passes from
    /// the seller to the buyer.
    pub fn complete_buy(&mut self, payment: Payment, kitty_id: u32) -> (r: Event)
        requires
            old(self).wf(),
            old(self)@.kitty_owners.get(kitty_id) == Some(payment.to),
        ensures
            final(self).wf(),
            r == Event::Sold(payment.to, payment.from, kitty_id, payment.amount),
            final(self)@ == (State { kitty_prices: old(self)@.kitty_prices.remove(kitty_id), ..old(self)@ }).with_transfer(
                payment.to,
                payment.from,
                kitty_id,
            ),
    {
        self.kitty_prices.remove(&kitty_id);
        proof {
            lemma_inv_frame(old(self)@, self@);
        }
        self.do_transfer(payment.to, payment.from, kitty_id);
        Event::Sold(payment.to, payment.from, kitty_id, payment.amount)
    }

    /// Whether a kitty counts as in battle at `curr_block`: its battle has begun and
    /// has not ended before that block.
    pub fn check_battling(&self, kitty_id: u32, curr_block: u64) -> (r: bool)
        ensures
            r == is_battling(self@, kitty_id, curr_block),
    {
        let kitty_attrs = self.kitty_attrs(kitty_id);
        if !kitty_attrs.battle_begin.is_some() {
            return false;
        }
        match kitty_attrs.battle_end {
            Some(end) => if end < curr_block {
                return false;
            },
            None => {},
        }
        true
    }

    /// The combat effectiveness a kitty gets from the weaponry in slot `kind`; zero
    /// when the slot is empty or names weaponry the shop does not have.
    pub fn get_kitty_weaponry_ce(&self, kitty_id: u32, kind: WeaponryKind) -> (r: u32)
        ensures
            r == weaponry_ce(self@, kitty_id, kind),
    {
        if let Some(weapon_id) = self.kitty_weaponrys(kitty_id, kind) {
            if let Some(weapon) = self.weaponrys.get(&weapon_id) {
                return weapon.ce;
            }
        }
        return 0;
    }

    /// A kitty's combat effectiveness: its own plus that of its four weaponry slots.
    pub fn get_kitty_ce(&self, kitty_id: u32) -> (r: u32)
        requires
            kitty_ce(self@, kitty_id) <= u32::MAX,
        ensures
            r == kitty_ce(self@, kitty_id),
    {
        let attrs = self.kitty_attrs(kitty_id);
        let mut weapon_ce = 0u32;
        weapon_ce += self.get_kitty_weaponry_ce(kitty_id, WeaponryKind::HELMET);
        weapon_ce += self.get_kitty_weaponry_ce(kitty_id, WeaponryKind::ARMOR);
        weapon_ce += self.get_kitty_weaponry_ce(kitty_id, WeaponryKind::WEAPON);
        weapon_ce += self.get_kitty_weaponry_ce(kitty_id, WeaponryKind::SHOES);
        attrs.ce + weapon_ce
    }

    /// A kitty's combat effectiveness, or `None` where `get_kitty_ce` would overflow.
    pub fn checked_kitty_ce(&self, kitty_id: u32) -> (r: Option<u32>)
        ensures
            r == (if kitty_ce(self@, kitty_id) <= u32::MAX {
                Some(kitty_ce(self@, kitty_id) as u32)
            } else {
                None::<u32>
            }),
    {
        let attrs = self.kitty_attrs(kitty_id);
        let total: u64 = attrs.ce as u64 + self.get_kitty_weaponry_ce(kitty_id, WeaponryKind::HELMET) as u64
            + self.get_kitty_weaponry_ce(kitty_id, WeaponryKind::ARMOR) as u64 + self.get_kitty_weaponry_ce(
            kitty_id,
            WeaponryKind::WEAPON,
        ) as u64 + self.get_kitty_weaponry_ce(kitty_id, WeaponryKind::SHOES) as u64;
        if total <= u32::MAX as u64 {
            Some(total as u32)
        } else {
            None
        }
    }

    /// Sends a kitty of the signer into battle against another account's kitty at
    /// `curr_block`. Neither may already be in battle at that block; afterwards both
    /// are, for four blocks.
    pub fn battle(&mut self, origin: Origin, kitty_id: u32, target_id: u32, curr_block: u64) -> (r: Result<
        Event,
        Error,
    >)
        requires
            old(self).wf(),
            battle_check(old(self)@, origin, kitty_id, target_id, curr_block) is Ok ==> battle_safe(
                old(self)@,
                kitty_id,
                target_id,
                curr_block,
            ),
        ensures
            final(self).wf(),
            match battle_check(old(self)@, origin, kitty_id, target_id, curr_block) {
                Err(e) => r == Err::<Event, Error>(e) && final(self)@ == old(self)@,
                Ok(sender) => {
                    let s = old(self)@;
                    let fought = battle_result(
                        s.attr(kitty_id),
                        s.attr(target_id),
                        kitty_ce(s, kitty_id) as u32,
                        kitty_ce(s, target_id) as u32,
                        curr_block,
                    );
                    &&& r == Ok::<Event, Error>(
                        Event::Battled(
                            sender,
                            kitty_id,
                            target_id,
                            if fought.0.hp == 0 {
                                target_id
                            } else {
                                kitty_id
                            },
                        ),
                    )
                    &&& final(self)@ == (State {
                        kitty_attrs: s.kitty_attrs.insert(kitty_id, fought.0).insert(target_id, fought.1),
                        ..s
                    })
                },
            },
    {
        let sender = ensure_signed(origin)?;
        if !self.owned_kitties.contains_key((sender, Some(kitty_id))) {
            return Err(Error::RequiresOwner);
        }
        if self.check_battling(kitty_id, curr_block) {
            return Err(Error::KittyIsBattling);
        }
        match self.kitty_owner(target_id) {
            Some(owner) => if owner == sender {
                return Err(Error::RequiresDifferentOwner);
            },
            None => {},
        }
        if self.check_battling(target_id, curr_block) {
            return Err(Error::KittyIsBattling);
        }
        let kitty_attr_1 = self.kitty_attrs(kitty_id);
        let kitty_attr_2 = self.kitty_attrs(target_id);
        let kitty_1_ce = self.get_kitty_ce(kitty_id);
        let kitty_2_ce = self.get_kitty_ce(target_id);
        let (a1, a2) = battle_outcome(kitty_attr_1, kitty_attr_2, kitty_1_ce, kitty_2_ce, curr_block);
        let winner = if a1.hp == 0 {
            target_id
        } else {
            kitty_id
        };
        self.kitty_attrs.insert(kitty_id, a1);
        self.kitty_attrs.insert(target_id, a2);
        proof {
            lemma_inv_frame(old(self)@, self@);
        }
        Ok(Event::Battled(sender, kitty_id, target_id, winner))
    }

    /// Whether `battle` with these arguments would divide by zero or overflow, as
    /// the checks that precede its arithmetic let it reach it.
    pub fn battle_would_panic(&self, origin: Origin, kitty_id: u32, target_id: u32, curr_block: u64) -> (r: bool)
        requires
            self.wf(),
        ensures
            r == (battle_check(self@, origin, kitty_id, target_id, curr_block) is Ok && !battle_safe(
                self@,
                kitty_id,
                target_id,
                curr_block,
            )),
    {
        let sender = match ensure_signed(origin) {
            Ok(s) => s,
            Err(_) => return false,
        };
        if !self.owned_kitties.contains_key((sender, Some(kitty_id))) || self.check_battling(kitty_id, curr_block) {
            return false;
        }
        match self.kitty_owner(target_id) {
            Some(owner) => if owner == sender {
                return false;
            },
            None => {},
        }
        if self.check_battling(target_id, curr_block) {
            return false;
        }
        let ce1 = match self.checked_kitty_ce(kitty_id) {
            Some(c) => c,
            None => return true,
        };
        let ce2 = match self.checked_kitty_ce(target_id) {
            Some(c) => c,
            None => return true,
        };
        let a1 = self.kitty_attrs(kitty_id);
        let a2 = self.kitty_attrs(target_id);
        !battle_arith_fits(a1, a2, ce1, ce2, curr_block)
    }

    /// Sends a kitty of the signer that is not in battle at `curr_block` against a wild animal.
    pub fn battle_wild(&mut self, origin: Origin, kitty_id: u32, wild_animal_id: u32, curr_block: u64) -> (r: Result<
        (),
        Error,
    >)
        requires
            old(self).wf(),
            idle_owner_check(old(self)@, origin, kitty_id, curr_block) is Ok ==> wild_safe(
                old(self)@,
                kitty_id,
                wild_animal_id,
            ),
        ensures
            final(self).wf(),
            match idle_owner_check(old(self)@, origin, kitty_id, curr_block) {
                Err(e) => r == Err::<(), Error>(e) && final(self)@ == old(self)@,
                Ok(sender) => {
                    let s = old(self)@;
                    &&& r == Ok::<(), Error>(())
                    &&& final(self)@ == (State {
                        kitty_attrs: s.kitty_attrs.insert(
                            kitty_id,
                            wild_battle_result(
                                s.attr(kitty_id),
                                s.wild_animals[wild_animal_id],
                                kitty_ce(s, kitty_id) as u32,
                            ),
                        ),
                        ..s
                    })
                },
            },
    {
        let sender = ensure_signed(origin)?;
        if !self.owned_kitties.contains_key((sender, Some(kitty_id))) {
            return Err(Error::RequiresOwner);
        }
        if self.check_battling(kitty_id, curr_block) {
            return Err(Error::KittyIsBattling);
        }
        let ce = self.get_kitty_ce(kitty_id);
        let kitty = self.kitty_attrs(kitty_id);
        let wild_animal = self.wild_animals(wild_animal_id);
        let wild_animal = wild_animal.unwrap();
        let kitty = wild_battle_outcome(kitty, wild_animal, ce);
        self.kitty_attrs.insert(kitty_id, kitty);
        proof {
            lemma_inv_frame(old(self)@, self@);
        }
        Ok(())
    }

    /// Whether `battle_wild` with these arguments would fail on a missing animal,
    /// divide by zero or overflow, as its checks let it reach its arithmetic.
    pub fn battle_wild_would_panic(&self, origin: Origin, kitty_id: u32, wild_animal_id: u32, curr_block: u64) -> (r:
        bool)
        requires
            self.wf(),
        ensures
            r == (idle_owner_check(self@, origin, kitty_id, curr_block) is Ok && !wild_safe(
                self@,
                kitty_id,
                wild_animal_id,
            )),
    {
        let sender = match ensure_signed(origin) {
            Ok(s) => s,
            Err(_) => return false,
        };
        if !self.owned_kitties.contains_key((sender, Some(kitty_id))) || self.check_battling(kitty_id, curr_block) {
            return false;
        }
        let ce = match self.checked_kitty_ce(kitty_id) {
            Some(c) => c,
            None => return true,
        };
        let w = match self.wild_animals(wild_animal_id) {
            Some(w) => w,
            None => return true,
        };
        !wild_arith_fits(self.kitty_attrs(kitty_id), w, ce)
    }

    /// Checks that the signer owns the kitty and that it is not in battle at
    /// `curr_block`, and says what healing it costs: ten, paid to `root_key`.
    /// Nothing changes until `complete_full_health`.
    pub fn full_health(&self, origin: Origin, kitty_id: u32, root_key: u64, curr_block: u64) -> (r: Result<
        Payment,
        Error,
    >)
        requires
            self.wf(),
        ensures
            r == (match idle_owner_check(self@, origin, kitty_id, curr_block) {
                Err(e) => Err(e),
                Ok(sender) => Ok(Payment { from: sender, to: root_key, amount: 10 }),
            }),
    {
        let sender = ensure_signed(origin)?;
        if !self.owned_kitties.contains_key((sender, Some(kitty_id))) {
            return Err(Error::RequiresOwner);
        }
        if self.check_battling(kitty_id, curr_block) {
            return Err(Error::KittyIsBattling);
        }
        Ok(Payment { from: sender, to: root_key, amount: 10 })
    }

    /// Heals a kitty once `payment` is made: health below a hundred is raised to a
    /// hundred, and the attributes are stored.
    pub fn complete_full_health(&mut self, payment: Payment, kitty_id: u32) -> (r: Event)
        requires
            old(self).wf(),
        ensures
            final(self).wf(),
            r == Event::FullHealth(payment.from, kitty_id, payment.amount),
            final(self)@ == (State {
                kitty_attrs: old(self)@.kitty_attrs.insert(kitty_id, healed(old(self)@.attr(kitty_id))),
                ..old(self)@
            }),
    {
        let mut kitty = self.kitty_attrs(kitty_id);
        if kitty.hp < 100 {
            kitty.hp = 100;
        }
        self.kitty_attrs.insert(kitty_id, kitty);
        proof {
            lemma_inv_frame(old(self)@, self@);
        }
        Event::FullHealth(payment.from, kitty_id, payment.amount)
    }

    /// Adds weaponry to the shop. The call needs an origin that is the root and is
    /// signed as well; no origin is both, so it is always refused.
    pub fn add_weaponry(
        &mut self,
        origin: Origin,
        kind: WeaponryKind,
        name: Vec<u8>,
        combat_effectiveness: u32,
        price: u64,
    ) -> (r: Result<Event, Error>)
        requires
            old(self).wf(),
        ensures
            final(self).wf(),
            r == Err::<Event, Error>(Error::BadOrigin),
            final(self)@ == old(self)@,
    {
        ensure_root(origin)?;
        let account_id = ensure_signed(origin)?;
        let weaponry_id = self.next_weaponry_id()?;
        let weaponry = Weaponry { name, ce: combat_effectiveness, price, kind };
        self.weaponrys.insert(weaponry_id, weaponry);
        let next = match weaponry_id.checked_add(1) {
            Some(n) => n,
            None => return Err(Error::Overflow),
        };
        self.weaponrys_count = next;
        Ok(Event::AddWeaponry(account_id, weaponry_id))
    }

    /// Checks that the signer owns the kitty and says what the weaponry costs, paid to
    /// `root_key`; `None` when the shop has no such weaponry, in which case the call
    /// does nothing. Nothing changes until `complete_buy_weaponry`.
    pub fn buy_weaponry(&self, origin: Origin, kitty_id: u32, weaponry_id: u32, root_key: u64) -> (r: Result<
        Option<Payment>,
        Error,
    >)
        requires
            self.wf(),
        ensures
            r == (match owner_check(self@, origin, kitty_id) {
                Err(e) => Err(e),
                Ok(sender) => Ok(
                    if self@.weaponrys.contains_key(weaponry_id) {
                        Some(Payment { from: sender, to: root_key, amount: self@.weaponrys[weaponry_id].price })
                    } else {
                        None
                    },
                ),
            }),
    {
        let sender = ensure_signed(origin)?;
        if !self.owned_kitties.contains_key((sender, Some(kitty_id))) {
            return Err(Error::RequiresOwner);
        }
        match self.weaponrys.get(&weaponry_id) {
            Some(weaponry) => Ok(Some(Payment { from: sender, to: root_key, amount: weaponry.price })),
            None => Ok(None),
        }
    }

    /// Equips the kitty with the weaponry once `payment` is made, in the weaponry's slot.
    pub fn complete_buy_weaponry(&mut self, payment: Payment, kitty_id: u32, weaponry_id: u32) -> (r: Event)
        requires
            old(self).wf(),
            old(self)@.weaponrys.contains_key(weaponry_id),
        ensures
            final(self).wf(),
            r == Event::BuyWeaponry(payment.from, kitty_id, weaponry_id, old(self)@.weaponrys[weaponry_id].price),
            final(self)@ == (State {
                kitty_weaponrys: old(self)@.kitty_weaponrys.insert(
                    (kitty_id, kind_code(old(self)@.weaponrys[weaponry_id].kind)),
                    weaponry_id,
                ),
                ..old(self)@
            }),
    {
        let (kind, price) = match self.weaponrys.get(&weaponry_id) {
            Some(w) => (w.kind, w.price),
            None => {
                assert(false);
                return Event::BuyWeaponry(payment.from, kitty_id, weaponry_id, 0);
            },
        };
        self.kitty_weaponrys.insert((kitty_id, kind.code()), weaponry_id);
        proof {
            lemma_inv_frame(old(self)@, self@);
        }
        Event::BuyWeaponry(payment.from, kitty_id, weaponry_id, price)
    }

    /// Raises a kitty's combat effectiveness by `ce`; sent unsigned by the lottery.
    /// Does nothing for an unknown kitty or one whose effectiveness is at its largest value.
    pub fn update_kitty_ec(&mut self, origin: Origin, kitty_id: u32, ce: u32) -> (r: Result<Option<Event>, Error>)
        requires
            old(self).wf(),
            origin == Origin::Unsigned && old(self)@.kitties.contains_key(kitty_id) && old(self)@.attr(kitty_id).ce
                != u32::MAX ==> old(self)@.attr(kitty_id).ce + ce <= u32::MAX,
        ensures
            final(self).wf(),
            origin != Origin::Unsigned ==> r == Err::<Option<Event>, Error>(Error::BadOrigin) && final(self)@ == old(
                self,
            )@,
            origin == Origin::Unsigned && (!old(self)@.kitties.contains_key(kitty_id) || old(self)@.attr(kitty_id).ce
                == u32::MAX) ==> r == Ok::<Option<Event>, Error>(None) && final(self)@ == old(self)@,
            origin == Origin::Unsigned && old(self)@.kitties.contains_key(kitty_id) && old(self)@.attr(kitty_id).ce
                != u32::MAX ==> r == Ok::<Option<Event>, Error>(Some(Event::Lottery(kitty_id))) && final(self)@ == (
            State {
                kitty_attrs: old(self)@.kitty_attrs.insert(
                    kitty_id,
                    KittyAttr { ce: (old(self)@.attr(kitty_id).ce + ce) as u32, ..old(self)@.attr(kitty_id) },
                ),
                ..old(self)@
            }),
    {
        ensure_none(origin)?;
        if !self.kitties(kitty_id).is_some() {
            return Ok(None);
        }
        let mut kitty_attr = self.kitty_attrs(kitty_id);
        if kitty_attr.ce == u32::MAX {
            return Ok(None);
        }
        kitty_attr.ce = kitty_attr.ce + ce;
        self.kitty_attrs.insert(kitty_id, kitty_attr);
        proof {
            lemma_inv_frame(old(self)@, self@);
        }
        Ok(Some(Event::Lottery(kitty_id)))
    }

    /// What the off-chain worker does at `curr_block`: on every fifth block, when
    /// there are kitties, it draws a lottery winner below `max` from the number
    /// generator seeded with `seed`.
    pub fn offchain_worker(
        &self,
        curr_block: u64,
        random_seed: [u8; 32],
        extrinsic_index: Option<u32>,
        block_number: u64,
    ) -> (r: Option<LotteryDraw>)
        ensures
            r is Some <==> curr_block % 5 == 0 && self@.kitties_count != 0,
            r is Some ==> r->0.max == self@.kitties_count - 1,
            r is Some ==> r->0.seed@ == blake2_256_digest(
                blake2_128_digest(lottery_payload(random_seed@, extrinsic_index, block_number)),
            ),
    {
        if curr_block % 5 == 0 {
            self.do_offchain(random_seed, extrinsic_index, block_number)
        } else {
            None
        }
    }

    /// The lottery draw: none when there are no kitties, else the generator's seed and
    /// the largest index it may pick.
    pub fn do_offchain(&self, random_seed: [u8; 32], extrinsic_index: Option<u32>, block_number: u64) -> (r: Option<
        LotteryDraw,
    >)
        ensures
            r is Some <==> self@.kitties_count != 0,
            r is Some ==> r->0.max == self@.kitties_count - 1,
            r is Some ==> r->0.seed@ == blake2_256_digest(
                blake2_128_digest(lottery_payload(random_seed@, extrinsic_index, block_number)),
            ),
    {
        let kitty_count = self.kitties_count;
        if kitty_count == 0 {
            return None;
        }
        let seed = lottery_seed(random_seed, extrinsic_index, block_number);
        Some(LotteryDraw { seed, max: kitty_count - 1 })
    }
}

} // verus!
