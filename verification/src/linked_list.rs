//! The per-account list of owned kitties, stored the way the chain stores it:
//! one map keyed by `(account, Option<kitty>)`, where the key `(account, None)`
//! holds the sentinel whose `prev` is the last kitty and whose `next` is the
//! first, and `(account, Some(kitty))` holds that kitty's neighbours.
use vstd::prelude::*;
use std::collections::BTreeMap;

verus! {

broadcast use vstd::std_specs::btree::group_btree_axioms, vstd::laws_cmp::group_laws_cmp;

/// The neighbours of one entry of an account's list; `None` stands for the sentinel.
#[derive(Clone, Copy, PartialEq, Eq, Structural, Debug)]
pub struct LinkedItem {
    pub prev: Option<u32>,
    pub next: Option<u32>,
}

/// The link stored at the sentinel of an account whose list is `s`.
pub open spec fn head_item(s: Seq<u32>) -> LinkedItem {
    if s.len() == 0 {
        LinkedItem { prev: None, next: None }
    } else {
        LinkedItem { prev: Some(s.last()), next: Some(s[0]) }
    }
}

/// The link stored at position `i` of an account whose list is `s`.
pub open spec fn node_item(s: Seq<u32>, i: int) -> LinkedItem {
    LinkedItem {
        prev: if i == 0 { None } else { Some(s[i - 1]) },
        next: if i + 1 == s.len() { None } else { Some(s[i + 1]) },
    }
}

/// The list of `account` in the model `lists` (empty when it has none).
pub open spec fn list_of(lists: Map<u64, Seq<u32>>, account: u64) -> Seq<u32> {
    if lists.contains_key(account) {
        lists[account]
    } else {
        Seq::empty()
    }
}

/// What the storage holds under `key` when the accounts' lists are `lists` and the
/// accounts whose sentinel has been written are `heads`.
pub open spec fn entry(lists: Map<u64, Seq<u32>>, heads: Set<u64>, key: (u64, Option<u32>)) -> Option<
    LinkedItem,
> {
    let s = list_of(lists, key.0);
    match key.1 {
        None => if heads.contains(key.0) {
            Some(head_item(s))
        } else {
            None
        },
        Some(v) => if s.contains(v) {
            Some(node_item(s, s.index_of(v)))
        } else {
            None
        },
    }
}

/// The whole storage map determined by `lists` and `heads`.
pub open spec fn model(lists: Map<u64, Seq<u32>>, heads: Set<u64>) -> Map<
    (u64, Option<u32>),
    LinkedItem,
> {
    Map::new(|k: (u64, Option<u32>)| entry(lists, heads, k) is Some, |k: (u64, Option<u32>)| entry(lists, heads, k).unwrap())
}

/// In a list without repetitions, the position of an element is the one it sits at.
pub proof fn lemma_index_of_unique(s: Seq<u32>, i: int)
    requires
        s.no_duplicates(),
        0 <= i < s.len(),
    ensures
        s.contains(s[i]),
        s.index_of(s[i]) == i,
{
    assert(s.contains(s[i]));
}

/// Removing the only occurrence of a value removes its position.
pub proof fn lemma_remove_value_at(s: Seq<u32>, i: int)
    requires
        s.no_duplicates(),
        0 <= i < s.len(),
    ensures
        s.remove_value(s[i]) == s.remove(i),
{
    s.index_of_first_ensures(s[i]);
}

/// The lists of owned kitties of all accounts.
pub struct OwnedKittiesList {
    map: BTreeMap<(u64, Option<u32>), LinkedItem>,
    lists: Ghost<Map<u64, Seq<u32>>>,
    heads: Ghost<Set<u64>>,
}

impl OwnedKittiesList {
    /// The list of each account, first appended first.
    pub closed spec fn lists(&self) -> Map<u64, Seq<u32>> {
        self.lists@
    }

    /// The accounts whose sentinel entry has been written.
    pub closed spec fn heads(&self) -> Set<u64> {
        self.heads@
    }

    /// The list of `account`.
    pub open spec fn list(&self, account: u64) -> Seq<u32> {
        list_of(self.lists(), account)
    }

    /// The storage map as the chain sees it.
    pub closed spec fn view(&self) -> Map<(u64, Option<u32>), LinkedItem> {
        self.map@
    }

    /// The storage map agrees with the lists, no list repeats a kitty, and every
    /// account with a non-empty list has its sentinel.
    pub closed spec fn wf(&self) -> bool {
        &&& self.map@ == model(self.lists@, self.heads@)
        &&& forall|a: u64| #[trigger] list_of(self.lists@, a).no_duplicates()
        &&& forall|a: u64| list_of(self.lists@, a).len() > 0 ==> #[trigger] self.heads@.contains(a)
    }

    /// No list of a well-formed storage repeats a kitty.
    pub proof fn lemma_no_duplicates(&self)
        requires
            self.wf(),
        ensures
            forall|a: u64| #[trigger] self.list(a).no_duplicates(),
    {
    }

    /// An empty storage: no account owns anything.
    pub fn new() -> (r: Self)
        ensures
            r.wf(),
            r.lists() == Map::<u64, Seq<u32>>::empty(),
            r.heads() == Set::<u64>::empty(),
    {
        let r = OwnedKittiesList {
            map: BTreeMap::new(),
            lists: Ghost(Map::empty()),
            heads: Ghost(Set::empty()),
        };
        assert(r.map@ =~= model(r.lists@, r.heads@));
        r
    }

    /// The entry stored under `key`, as the storage getter returns it.
    pub fn get(&self, key: (u64, Option<u32>)) -> (r: Option<LinkedItem>)
        requires
            self.wf(),
        ensures
            r == entry(self.lists(), self.heads(), key),
    {
        match self.map.get(&key) {
            Some(item) => Some(*item),
            None => None,
        }
    }

    /// Whether `key` is present in the storage.
    pub fn contains_key(&self, key: (u64, Option<u32>)) -> (r: bool)
        requires
            self.wf(),
        ensures
            r == entry(self.lists(), self.heads(), key) is Some,
    {
        self.map.contains_key(&key)
    }

    /// The entry under `key`, or the empty link when there is none.
    fn read(&self, key: (u64, Option<u32>)) -> (r: LinkedItem)
        ensures
            r == (if self.map@.contains_key(key) {
                self.map@[key]
            } else {
                LinkedItem { prev: None, next: None }
            }),
    {
        match self.map.get(&key) {
            Some(item) => *item,
            None => LinkedItem { prev: None, next: None },
        }
    }

    /// Appends `value` to the end of the list of `account`.
    pub fn append(&mut self, account: u64, value: u32)
        requires
            old(self).wf(),
            !old(self).list(account).contains(value),
        ensures
            final(self).wf(),
            final(self).lists() == old(self).lists().insert(account, old(self).list(account).push(value)),
            final(self).heads() == old(self).heads().insert(account),
    {
        let ghost s = self.list(account);
        let ghost s2 = s.push(value);
        let ghost new_lists = self.lists@.insert(account, s2);
        let ghost new_heads = self.heads@.insert(account);
        proof {
            assert(self.map@ == model(self.lists@, self.heads@));
        }
        let head = self.read((account, None));
        assert(head == head_item(s));
        let new_head = LinkedItem { prev: Some(value), next: head.next };
        self.map.insert((account, None), new_head);
        let prev = self.read((account, head.prev));
        proof {
            if s.len() > 0 {
                lemma_index_of_unique(s, s.len() - 1);
                assert(prev == node_item(s, s.len() - 1));
            } else {
                assert(prev == new_head);
            }
        }
        let new_prev = LinkedItem { prev: prev.prev, next: Some(value) };
        self.map.insert((account, head.prev), new_prev);
        let item = LinkedItem { prev: head.prev, next: None };
        self.map.insert((account, Some(value)), item);
        proof {
            assert(s.no_duplicates());
            assert(s2.no_duplicates()) by {
                assert forall|x: int, y: int|
                    0 <= x < s2.len() && 0 <= y < s2.len() && x != y implies s2[x] != s2[y] by {
                    if x == s.len() {
                        assert(s.contains(s2[y]));
                    } else if y == s.len() {
                        assert(s.contains(s2[x]));
                    }
                }
            }
            assert forall|k: (u64, Option<u32>)|
                #![trigger entry(new_lists, new_heads, k)]
                #![trigger self.map@.contains_key(k)]
                self.map@.contains_key(k) == (entry(new_lists, new_heads, k) is Some) && (
                self.map@.contains_key(k) ==> self.map@[k] == entry(new_lists, new_heads, k).unwrap()) by {
                if k.0 == account {
                    assert(list_of(new_lists, account) == s2);
                    match k.1 {
                        None => {},
                        Some(w) => {
                            if w == value {
                                lemma_index_of_unique(s2, s.len() as int);
                            } else if s.contains(w) {
                                let i = s.index_of(w);
                                lemma_index_of_unique(s, i);
                                lemma_index_of_unique(s2, i);
                                assert(s2.contains(w));
                            } else {
                                assert(!s2.contains(w));
                            }
                        },
                    }
                } else {
                    assert(list_of(new_lists, k.0) == list_of(self.lists@, k.0));
                }
            }
            assert(self.map@ =~= model(new_lists, new_heads));
            self.lists = Ghost(new_lists);
            self.heads = Ghost(new_heads);
            assert forall|a: u64| #[trigger] list_of(self.lists@, a).no_duplicates() by {
                if a != account {
                    assert(list_of(self.lists@, a) == list_of(old(self).lists@, a));
                }
            }
        }
    }

    /// Removes `value` from the list of `account`; does nothing when it is not there.
    pub fn remove(&mut self, account: u64, value: u32)
        requires
            old(self).wf(),
        ensures
            final(self).wf(),
            old(self).list(account).contains(value) ==> final(self).lists() == old(self).lists().insert(
                account,
                old(self).list(account).remove_value(value),
            ),
            !old(self).list(account).contains(value) ==> final(self).lists() == old(self).lists(),
            final(self).heads() == old(self).heads(),
    {
        let ghost s = self.list(account);
        proof {
            assert(self.map@ == model(self.lists@, self.heads@));
        }
        let taken = self.map.remove(&(account, Some(value)));
        match taken {
            None => {
                proof {
                    assert(!s.contains(value));
                    assert(self.map@ =~= model(self.lists@, self.heads@));
                }
            },
            Some(item) => {
                let ghost i = s.index_of(value);
                let ghost n = s.len() as int;
                let ghost s2 = s.remove(i);
                let ghost new_lists = self.lists@.insert(account, s2);
                let ghost heads = self.heads@;
                proof {
                    assert(s.contains(value));
                    assert(s.no_duplicates());
                    lemma_index_of_unique(s, i);
                    lemma_remove_value_at(s, i);
                    assert(item == node_item(s, i));
                    assert(heads.contains(account));
                    assert(s2.no_duplicates()) by {
                        assert forall|x: int, y: int|
                            0 <= x < s2.len() && 0 <= y < s2.len() && x != y implies s2[x] != s2[y] by {
                            let xo = if x < i { x } else { x + 1 };
                            let yo = if y < i { y } else { y + 1 };
                            assert(s2[x] == s[xo]);
                            assert(s2[y] == s[yo]);
                        }
                    }
                    if i > 0 {
                        lemma_index_of_unique(s, i - 1);
                    }
                    if i + 1 < n {
                        lemma_index_of_unique(s, i + 1);
                    }
                }
                let prev = self.read((account, item.prev));
                let new_prev = LinkedItem { prev: prev.prev, next: item.next };
                self.map.insert((account, item.prev), new_prev);
                let next = self.read((account, item.next));
                let new_next = LinkedItem { prev: item.prev, next: next.next };
                self.map.insert((account, item.next), new_next);
                proof {
                    assert forall|k: (u64, Option<u32>)|
                        #![trigger entry(new_lists, heads, k)]
                        #![trigger self.map@.contains_key(k)]
                        self.map@.contains_key(k) == (entry(new_lists, heads, k) is Some) && (
                        self.map@.contains_key(k) ==> self.map@[k] == entry(new_lists, heads, k).unwrap()) by {
                        if k.0 == account {
                            assert(list_of(new_lists, account) == s2);
                            match k.1 {
                                None => {},
                                Some(w) => {
                                    if w == value {
                                        assert(!s2.contains(w));
                                    } else if s.contains(w) {
                                        let j = s.index_of(w);
                                        lemma_index_of_unique(s, j);
                                        let j2 = if j < i { j } else { j - 1 };
                                        assert(s2[j2] == w);
                                        lemma_index_of_unique(s2, j2);
                                        if j2 > 0 {
                                            let jp = if j2 - 1 < i { j2 - 1 } else { j2 };
                                            assert(s2[j2 - 1] == s[jp]);
                                        }
                                        if j2 + 1 < s2.len() {
                                            let jn = if j2 + 1 < i { j2 + 1 } else { j2 + 2 };
                                            assert(s2[j2 + 1] == s[jn]);
                                        }
                                    } else {
                                        assert(!s2.contains(w)) by {
                                            if s2.contains(w) {
                                                let j2 = s2.index_of(w);
                                                let jo = if j2 < i { j2 } else { j2 + 1 };
                                                assert(s[jo] == w);
                                            }
                                        }
                                    }
                                },
                            }
                        } else {
                            assert(list_of(new_lists, k.0) == list_of(self.lists@, k.0));
                        }
                    }
                    assert(self.map@ =~= model(new_lists, heads));
                    self.lists = Ghost(new_lists);
                    assert forall|a: u64| #[trigger] list_of(self.lists@, a).no_duplicates() by {
                        if a != account {
                            assert(list_of(self.lists@, a) == list_of(old(self).lists@, a));
                        }
                    }
                }
            },
        }
    }
}

} // verus!
