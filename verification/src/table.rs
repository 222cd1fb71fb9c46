//! A store of accounts in which each identity has at most one account.
//!
//! It stands for storage that is addressed by what a record is about: a
//! record is found again by the identity it was created for, and cannot be
//! created twice.

use vstd::prelude::*;
use crate::state::{Account, Key};

verus! {

/// One occupied slot: an account and the identity it is stored under.
#[derive(Debug)]
struct Slot<T> {
    id: Key,
    account: Account<T>,
}

/// Accounts stored by identity. Its view is the map from each identity that
/// has an account to that account.
#[derive(Debug)]
pub struct Table<T> {
    slots: Vec<Slot<T>>,
}

/// Some slot of `slots` is stored under `id`.
spec fn holds<T>(slots: Seq<Slot<T>>, id: Key) -> bool {
    exists|i: int| 0 <= i < slots.len() && #[trigger] slots[i].id == id
}

/// The position of a slot stored under `id`.
spec fn position_of<T>(slots: Seq<Slot<T>>, id: Key) -> int {
    choose|i: int| 0 <= i < slots.len() && #[trigger] slots[i].id == id
}

/// No two slots are stored under the same identity.
spec fn distinct<T>(slots: Seq<Slot<T>>) -> bool {
    forall|i: int, j: int|
        0 <= i < j < slots.len() ==> (#[trigger] slots[i]).id != (#[trigger] slots[j]).id
}

/// The map that a list of slots stands for.
spec fn as_map<T>(slots: Seq<Slot<T>>) -> Map<Key, Account<T>> {
    Map::new(|id: Key| holds(slots, id), |id: Key| slots[position_of(slots, id)].account)
}

/// In a list of distinct slots, each slot is the one found under its identity.
proof fn lemma_position<T>(slots: Seq<Slot<T>>, i: int)
    requires
        distinct(slots),
        0 <= i < slots.len(),
    ensures
        holds(slots, slots[i].id),
        position_of(slots, slots[i].id) == i,
        as_map(slots).contains_key(slots[i].id),
        as_map(slots)[slots[i].id] == slots[i].account,
{
    // the position chosen for the slot's identity holds that identity, and
    // no other slot does
    let chosen = position_of(slots, slots[i].id);
    assert(slots[chosen].id == slots[i].id);
}

/// A slot of the longer list that is not its last is a slot of its front.
proof fn lemma_front<T>(slots: Seq<Slot<T>>, id: Key)
    requires
        slots.len() > 0,
    ensures
        holds(slots, id) <==> holds(slots.drop_last(), id) || slots.last().id == id,
{
    let front = slots.drop_last();
    if holds(slots, id) {
        let i = position_of(slots, id);
        if i < front.len() {
            assert(front[i].id == id);
        }
    }
    if holds(front, id) {
        let i = position_of(front, id);
        assert(slots[i].id == id);
    }
    if slots.last().id == id {
        assert(slots[slots.len() - 1].id == id);
    }
}

/// The map of a list of slots has a finite domain.
proof fn lemma_finite<T>(slots: Seq<Slot<T>>)
    ensures
        as_map(slots).dom().finite(),
    decreases slots.len(),
{
    if slots.len() == 0 {
        assert(as_map(slots).dom() =~= Set::<Key>::empty());
    } else {
        let front = slots.drop_last();
        lemma_finite(front);
        assert forall|id: Key|
            as_map(slots).dom().contains(id) <==> as_map(front).dom().insert(
                slots.last().id,
            ).contains(id) by {
            lemma_front(slots, id);
        }
        assert(as_map(slots).dom() =~= as_map(front).dom().insert(slots.last().id));
    }
}

impl<T: Copy> View for Table<T> {
    type V = Map<Key, Account<T>>;

    closed spec fn view(&self) -> Map<Key, Account<T>> {
        as_map(self.slots@)
    }
}

impl<T: Copy> Table<T> {
    /// No identity is stored twice.
    pub closed spec fn wf(&self) -> bool {
        distinct(self.slots@)
    }

    /// The empty table.
    pub fn new() -> (table: Table<T>)
        ensures
            table.wf(),
            table@ == Map::<Key, Account<T>>::empty(),
    {
        Table { slots: Vec::new() }
    }

    /// How many accounts the table holds.
    pub fn len(&self) -> (n: usize)
        requires
            self.wf(),
        ensures
            n == self@.dom().len(),
    {
        proof {
            lemma_len(self.slots@);
        }
        self.slots.len()
    }

    fn position(&self, id: &Key) -> (found: Option<usize>)
        requires
            self.wf(),
        ensures
            match found {
                Some(i) => i < self.slots@.len() && self.slots@[i as int].id == *id,
                None => !holds(self.slots@, *id),
            },
    {
        let mut i: usize = 0;
        while i < self.slots.len()
            invariant
                i <= self.slots@.len(),
                forall|j: int| 0 <= j < i ==> (#[trigger] self.slots@[j]).id != *id,
            decreases self.slots@.len() - i,
        {
            if self.slots[i].id == *id {
                return Some(i);
            }
            i += 1;
        }
        None
    }

    /// The account stored under `id`, if there is one.
    pub fn get(&self, id: &Key) -> (found: Option<Account<T>>)
        requires
            self.wf(),
        ensures
            found == if self@.contains_key(*id) {
                Some(self@[*id])
            } else {
                None
            },
    {
        match self.position(id) {
            Some(i) => {
                proof {
                    lemma_position(self.slots@, i as int);
                }
                Some(self.slots[i].account)
            },
            None => None,
        }
    }

    /// Whether an account is stored under `id`.
    pub fn contains(&self, id: &Key) -> (found: bool)
        requires
            self.wf(),
        ensures
            found == self@.contains_key(*id),
    {
        self.position(id).is_some()
    }

    /// Stores `account` under `id`, in place of the account that was stored
    /// there, if any.
    pub fn put(&mut self, id: Key, account: Account<T>)
        requires
            old(self).wf(),
        ensures
            final(self).wf(),
            final(self)@ == old(self)@.insert(id, account),
    {
        let slot = Slot { id, account };
        match self.position(&id) {
            Some(i) => {
                self.slots.set(i, slot);
                proof {
                    lemma_replaced(old(self).slots@, i as int, account);
                }
            },
            None => {
                self.slots.push(slot);
                proof {
                    lemma_pushed(old(self).slots@, slot);
                }
            },
        }
    }

    /// Removes the account stored under `id`, if there is one.
    pub fn remove(&mut self, id: &Key)
        requires
            old(self).wf(),
        ensures
            final(self).wf(),
            final(self)@ == old(self)@.remove(*id),
    {
        match self.position(id) {
            Some(i) => {
                self.slots.remove(i);
                proof {
                    lemma_removed(old(self).slots@, i as int);
                }
            },
            None => {},
        }
    }
}

/// A list of distinct slots holds as many accounts as it has slots.
proof fn lemma_len<T>(slots: Seq<Slot<T>>)
    requires
        distinct(slots),
    ensures
        as_map(slots).dom().finite(),
        as_map(slots).dom().len() == slots.len(),
    decreases slots.len(),
{
    lemma_finite(slots);
    if slots.len() == 0 {
        assert(as_map(slots).dom() =~= Set::<Key>::empty());
    } else {
        let front = slots.drop_last();
        let last = slots.last();
        assert(distinct(front)) by {
            assert forall|i: int, j: int| 0 <= i < j < front.len() implies (#[trigger] front[i]).id
                != (#[trigger] front[j]).id by {
                assert(slots[i].id != slots[j].id);
            }
        }
        assert(!holds(front, last.id)) by {
            if holds(front, last.id) {
                let i = position_of(front, last.id);
                assert(slots[i].id != slots[slots.len() - 1].id);
            }
        }
        lemma_len(front);
        lemma_pushed(front, last);
        assert(slots =~= front.push(last));
    }
}

/// Appending a slot under a new identity inserts its account.
proof fn lemma_pushed<T>(slots: Seq<Slot<T>>, slot: Slot<T>)
    requires
        distinct(slots),
        !holds(slots, slot.id),
    ensures
        distinct(slots.push(slot)),
        as_map(slots.push(slot)) == as_map(slots).insert(slot.id, slot.account),
{
    let after = slots.push(slot);
    assert(distinct(after)) by {
        assert forall|i: int, j: int| 0 <= i < j < after.len() implies (#[trigger] after[i]).id != (
        #[trigger] after[j]).id by {
            if j < slots.len() {
                assert(slots[i].id != slots[j].id);
            } else {
                assert(slots[i].id == after[i].id);
            }
        }
    }
    assert forall|id: Key| #[trigger]
        as_map(after).contains_key(id) <==> as_map(slots).insert(
            slot.id,
            slot.account,
        ).contains_key(id) by {
        assert(after.drop_last() =~= slots);
        lemma_front(after, id);
    }
    assert forall|id: Key| #[trigger] as_map(after).contains_key(id) implies as_map(after)[id]
        == as_map(slots).insert(slot.id, slot.account)[id] by {
        let i = position_of(after, id);
        lemma_position(after, i);
        if i < slots.len() {
            lemma_position(slots, i);
        }
    }
    assert(as_map(after) =~= as_map(slots).insert(slot.id, slot.account));
}

/// Replacing the account of a slot replaces the account of its identity.
proof fn lemma_replaced<T>(slots: Seq<Slot<T>>, i: int, account: Account<T>)
    requires
        distinct(slots),
        0 <= i < slots.len(),
    ensures
        distinct(slots.update(i, Slot { id: slots[i].id, account })),
        as_map(slots.update(i, Slot { id: slots[i].id, account })) == as_map(slots).insert(
            slots[i].id,
            account,
        ),
{
    let slot = Slot { id: slots[i].id, account };
    let after = slots.update(i, slot);
    assert(distinct(after)) by {
        assert forall|a: int, b: int| 0 <= a < b < after.len() implies (#[trigger] after[a]).id != (
        #[trigger] after[b]).id by {
            assert(slots[a].id != slots[b].id);
        }
    }
    assert forall|id: Key| #[trigger]
        as_map(after).contains_key(id) <==> as_map(slots).insert(slot.id, account).contains_key(
            id,
        ) by {
        if holds(after, id) {
            let p = position_of(after, id);
            assert(slots[p].id == id);
        }
        if holds(slots, id) {
            let p = position_of(slots, id);
            assert(after[p].id == id);
        }
    }
    assert forall|id: Key| #[trigger] as_map(after).contains_key(id) implies as_map(after)[id]
        == as_map(slots).insert(slot.id, account)[id] by {
        let p = position_of(after, id);
        lemma_position(after, p);
        lemma_position(slots, p);
    }
    assert(as_map(after) =~= as_map(slots).insert(slot.id, account));
}

/// Removing a slot removes the account of its identity.
proof fn lemma_removed<T>(slots: Seq<Slot<T>>, i: int)
    requires
        distinct(slots),
        0 <= i < slots.len(),
    ensures
        distinct(slots.remove(i)),
        as_map(slots.remove(i)) == as_map(slots).remove(slots[i].id),
{
    let gone = slots[i].id;
    let after = slots.remove(i);
    // where a slot of the shorter list stood in the longer one
    let before = |p: int| if p < i { p } else { p + 1 };
    assert(distinct(after)) by {
        assert forall|a: int, b: int| 0 <= a < b < after.len() implies (#[trigger] after[a]).id != (
        #[trigger] after[b]).id by {
            assert(slots[before(a)].id != slots[before(b)].id);
        }
    }
    assert forall|id: Key| #[trigger]
        as_map(after).contains_key(id) <==> as_map(slots).remove(gone).contains_key(id) by {
        if holds(after, id) {
            let p = position_of(after, id);
            assert(slots[before(p)].id == id);
            lemma_position(slots, before(p));
            lemma_position(slots, i);
        }
        if holds(slots, id) && id != gone {
            let p = position_of(slots, id);
            assert(after[if p < i { p } else { p - 1 }].id == id);
        }
    }
    assert forall|id: Key| #[trigger] as_map(after).contains_key(id) implies as_map(after)[id]
        == as_map(slots).remove(gone)[id] by {
        let p = position_of(after, id);
        lemma_position(after, p);
        lemma_position(slots, before(p));
    }
    assert(as_map(after) =~= as_map(slots).remove(gone));
}

} // verus!
