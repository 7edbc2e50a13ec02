use vstd::prelude::*;

use super::{IRegisterInfo, RegisterInfoId};

verus! {

broadcast use vstd::seq::group_seq_axioms;

/// Number of occupied slots.
pub open spec fn occupied<T>(s: Seq<Option<T>>) -> nat
    decreases s.len(),
{
    if s.len() == 0 {
        0
    } else {
        occupied(s.drop_last()) + if s.last() is Some {
            1nat
        } else {
            0nat
        }
    }
}

/// Index of the first free slot (the length when every slot is taken).
pub open spec fn first_free<T>(s: Seq<Option<T>>) -> int {
    first_free_from(s, 0)
}

pub open spec fn first_free_from<T>(s: Seq<Option<T>>, i: int) -> int
    decreases s.len() - i,
{
    if i >= s.len() || s[i] is None {
        i
    } else {
        first_free_from(s, i + 1)
    }
}

/// The slot holds an entry with identity `id`.
pub open spec fn holds<T: IRegisterInfo>(s: Seq<Option<T>>, i: int, id: RegisterInfoId) -> bool {
    s[i] is Some && s[i].unwrap().spec_id() == id
}

/// Index of the first slot holding `id` (the length when there is none).
pub open spec fn first_match<T: IRegisterInfo>(s: Seq<Option<T>>, id: RegisterInfoId) -> int {
    first_match_from(s, id, 0)
}

pub open spec fn first_match_from<T: IRegisterInfo>(
    s: Seq<Option<T>>,
    id: RegisterInfoId,
    i: int,
) -> int
    decreases s.len() - i,
{
    if i >= s.len() || holds(s, i, id) {
        i
    } else {
        first_match_from(s, id, i + 1)
    }
}

/// The slots after adding `t`: it takes the first free slot; with no free
/// slot nothing changes.
pub open spec fn with_added<T>(s: Seq<Option<T>>, t: T) -> Seq<Option<T>> {
    if first_free(s) < s.len() {
        s.update(first_free(s), Some(t))
    } else {
        s
    }
}

/// The slots after removing `id`: the first slot holding it is freed; with no
/// such slot nothing changes.
pub open spec fn without<T: IRegisterInfo>(s: Seq<Option<T>>, id: RegisterInfoId) -> Seq<Option<T>> {
    if first_match(s, id) < s.len() {
        s.update(first_match(s, id), None)
    } else {
        s
    }
}

/// The slots after a liveness sweep at `now`: every entry that is not valid at
/// `now` is gone, every other slot is as it was.
pub open spec fn swept<T: IRegisterInfo>(s: Seq<Option<T>>, now: u64) -> Seq<Option<T>> {
    Seq::new(
        s.len(),
        |i: int|
            if s[i] is Some && !s[i].unwrap().spec_valid(now) {
                None
            } else {
                s[i]
            },
    )
}

proof fn lemma_occupied_bound<T>(s: Seq<Option<T>>)
    ensures
        occupied(s) <= s.len(),
    decreases s.len(),
{
    if s.len() > 0 {
        lemma_occupied_bound(s.drop_last());
    }
}

proof fn lemma_occupied_update<T>(s: Seq<Option<T>>, i: int, v: Option<T>)
    requires
        0 <= i < s.len(),
    ensures
        occupied(s.update(i, v)) + (if s[i] is Some {
            1int
        } else {
            0int
        }) == occupied(s) + (if v is Some {
            1int
        } else {
            0int
        }),
    decreases s.len(),
{
    let u = s.update(i, v);
    if i < s.len() - 1 {
        assert(u.drop_last() =~= s.drop_last().update(i, v));
        lemma_occupied_update(s.drop_last(), i, v);
    } else {
        assert(u.drop_last() =~= s.drop_last());
    }
}

proof fn lemma_first_free_from<T>(s: Seq<Option<T>>, i: int)
    requires
        0 <= i <= s.len(),
    ensures
        i <= first_free_from(s, i) <= s.len(),
        first_free_from(s, i) < s.len() ==> s[first_free_from(s, i)] is None,
        forall|j: int| i <= j < first_free_from(s, i) ==> s[j] is Some,
    decreases s.len() - i,
{
    if i < s.len() && s[i] is Some {
        lemma_first_free_from(s, i + 1);
    }
}

proof fn lemma_free_slot_counts<T>(s: Seq<Option<T>>, i: int)
    requires
        0 <= i < s.len(),
        s[i] is None,
    ensures
        occupied(s) < s.len(),
    decreases s.len(),
{
    lemma_occupied_bound(s.drop_last());
    if i < s.len() - 1 {
        lemma_free_slot_counts(s.drop_last(), i);
    }
}

/// With fewer entries than slots some slot is free.
proof fn lemma_free_slot_exists<T>(s: Seq<Option<T>>)
    requires
        occupied(s) < s.len(),
    ensures
        first_free(s) < s.len(),
{
    lemma_first_free_from(s, 0);
    if first_free(s) >= s.len() {
        lemma_all_occupied(s);
    }
}

proof fn lemma_all_occupied<T>(s: Seq<Option<T>>)
    requires
        forall|j: int| 0 <= j < s.len() ==> s[j] is Some,
    ensures
        occupied(s) == s.len(),
    decreases s.len(),
{
    if s.len() > 0 {
        lemma_all_occupied(s.drop_last());
    }
}

proof fn lemma_first_match_from<T: IRegisterInfo>(s: Seq<Option<T>>, id: RegisterInfoId, i: int)
    requires
        0 <= i <= s.len(),
    ensures
        i <= first_match_from(s, id, i) <= s.len(),
        first_match_from(s, id, i) < s.len() ==> holds(s, first_match_from(s, id, i), id),
        forall|j: int| i <= j < first_match_from(s, id, i) ==> !holds(s, j, id),
    decreases s.len() - i,
{
    if i < s.len() && !holds(s, i, id) {
        lemma_first_match_from(s, id, i + 1);
    }
}

/// `first_match` is the least index of a slot holding `id`, or the length.
pub proof fn lemma_first_match<T: IRegisterInfo>(s: Seq<Option<T>>, id: RegisterInfoId)
    ensures
        0 <= first_match(s, id) <= s.len(),
        first_match(s, id) < s.len() ==> holds(s, first_match(s, id), id),
        forall|j: int| 0 <= j < first_match(s, id) ==> !holds(s, j, id),
{
    lemma_first_match_from(s, id, 0);
}

/// Capacity: adding never takes a table past its slot count; adding to a full
/// table changes nothing, and adding to any other table adds exactly one entry.
pub proof fn lemma_add_bounded<T>(s: Seq<Option<T>>, t: T)
    ensures
        with_added(s, t).len() == s.len(),
        occupied(with_added(s, t)) <= s.len(),
        occupied(s) == s.len() ==> with_added(s, t) == s,
        occupied(s) < s.len() ==> occupied(with_added(s, t)) == occupied(s) + 1,
{
    lemma_first_free_from(s, 0);
    lemma_occupied_bound(s);
    if first_free(s) < s.len() {
        lemma_occupied_update(s, first_free(s), Some(t));
        lemma_free_slot_counts(s, first_free(s));
        lemma_occupied_bound(with_added(s, t));
    } else if occupied(s) < s.len() {
        lemma_free_slot_exists(s);
    }
}

/// A sweep at `now` removes exactly the entries that are not valid at `now`:
/// a slot is occupied afterwards if and only if it held an entry valid at
/// `now`, and such an entry is kept as it was.
pub proof fn lemma_sweep_exact<T: IRegisterInfo>(s: Seq<Option<T>>, now: u64)
    ensures
        swept(s, now).len() == s.len(),
        forall|i: int|
            0 <= i < s.len() ==> ((#[trigger] swept(s, now)[i] is Some) <==> (s[i] is Some
                && s[i].unwrap().spec_valid(now))),
        forall|i: int| 0 <= i < s.len() && (#[trigger] swept(s, now)[i] is Some) ==> swept(s, now)[i] == s[i],
{
}

/// A fixed-capacity table of liveness entries: `SIZE` slots, each free or
/// holding one entry, and the count of occupied slots.
pub struct RegisterList<const SIZE: usize, T: IRegisterInfo> {
    len: usize,
    slots: Vec<Option<T>>,
}

impl<const SIZE: usize, T: IRegisterInfo> View for RegisterList<SIZE, T> {
    type V = Seq<Option<T>>;

    closed spec fn view(&self) -> Seq<Option<T>> {
        self.slots@
    }
}

impl<const SIZE: usize, T: IRegisterInfo> RegisterList<SIZE, T> {
    /// There are `SIZE` slots and the count matches the occupied ones.
    pub closed spec fn wf(&self) -> bool {
        &&& self.slots@.len() == SIZE
        &&& self.len == occupied(self.slots@)
    }

    /// Every table has exactly `SIZE` slots.
    pub proof fn lemma_slot_count(&self)
        requires
            self.wf(),
        ensures
            self@.len() == SIZE,
    {
    }

    /// An empty table.
    pub fn new() -> (r: Self)
        ensures
            r.wf(),
            r@ == Seq::new(SIZE as nat, |i: int| None::<T>),
    {
        let mut slots: Vec<Option<T>> = Vec::new();
        let mut i: usize = 0;
        while i < SIZE
            invariant
                i <= SIZE,
                slots@ == Seq::new(i as nat, |j: int| None::<T>),
                occupied(slots@) == 0,
            decreases SIZE - i,
        {
            proof {
                assert(slots@.push(None).drop_last() =~= slots@);
            }
            slots.push(None);
            i += 1;
            proof {
                assert(slots@ =~= Seq::new(i as nat, |j: int| None::<T>));
            }
        }
        RegisterList { len: 0, slots }
    }

    /// Frees every slot.
    pub fn clear(&mut self)
        requires
            old(self).wf(),
        ensures
            final(self).wf(),
            final(self)@ == Seq::new(SIZE as nat, |i: int| None::<T>),
    {
        *self = Self::new();
    }

    pub fn is_empty(&self) -> (r: bool)
        requires
            self.wf(),
        ensures
            r == (occupied(self@) == 0),
    {
        self.len == 0
    }

    /// Number of entries held.
    pub fn len(&self) -> (r: usize)
        requires
            self.wf(),
        ensures
            r == occupied(self@),
            r <= SIZE,
    {
        proof {
            lemma_occupied_bound(self.slots@);
        }
        self.len
    }

    /// Puts `t` into the first free slot; does nothing when every slot is taken.
    /// Identities are not checked for duplicates.
    pub fn add(&mut self, t: T)
        requires
            old(self).wf(),
        ensures
            final(self).wf(),
            final(self)@ == with_added(old(self)@, t),
            occupied(old(self)@) == SIZE ==> final(self)@ == old(self)@,
            occupied(old(self)@) < SIZE ==> {
                &&& first_free(old(self)@) < SIZE
                &&& final(self)@ == old(self)@.update(first_free(old(self)@), Some(t))
            },
            occupied(final(self)@) <= SIZE,
    {
        proof {
            lemma_occupied_bound(self.slots@);
            lemma_first_free_from(self.slots@, 0);
        }
        if self.len == SIZE {
            proof {
                if first_free(self.slots@) < SIZE {
                    lemma_free_slot_counts(self.slots@, first_free(self.slots@));
                }
            }
            return;
        }
        proof {
            lemma_free_slot_exists(self.slots@);
        }
        let mut idx: usize = 0;
        while idx < self.slots.len() && self.slots[idx].is_some()
            invariant
                self.wf(),
                idx <= first_free(self.slots@),
                first_free(self.slots@) < SIZE,
                forall|j: int| 0 <= j < first_free(self.slots@) ==> self.slots@[j] is Some,
                first_free(self.slots@) < self.slots@.len() ==> self.slots@[first_free(
                    self.slots@,
                )] is None,
            decreases SIZE - idx,
        {
            idx += 1;
        }
        proof {
            lemma_occupied_update(self.slots@, idx as int, Some(t));
        }
        self.slots.set(idx, Some(t));
        self.len += 1;
        proof {
            lemma_occupied_bound(self.slots@);
        }
    }

    /// Removes the first entry with identity `id`; does nothing when there is
    /// none.
    pub fn remove(&mut self, id: RegisterInfoId)
        requires
            old(self).wf(),
        ensures
            final(self).wf(),
            final(self)@ == without(old(self)@, id),
            first_match(old(self)@, id) < SIZE ==> final(self)@ == old(self)@.update(
                first_match(old(self)@, id),
                None,
            ),
            first_match(old(self)@, id) >= SIZE ==> final(self)@ == old(self)@,
    {
        proof {
            assert(self@ == self.slots@);
        }
        match self.position(id) {
            Some(idx) => {
                proof {
                    lemma_occupied_update(self.slots@, idx as int, None);
                }
                self.slots.set(idx, None);
                self.len -= 1;
            },
            None => {},
        }
    }

    /// Index of the first slot holding `id`.
    pub fn position(&self, id: RegisterInfoId) -> (r: Option<usize>)
        requires
            self.wf(),
        ensures
            first_match(self@, id) < SIZE ==> r == Some(first_match(self@, id) as usize),
            first_match(self@, id) >= SIZE ==> r is None,
            0 <= first_match(self@, id) <= SIZE,
            r matches Some(i) ==> holds(self@, i as int, id),
    {
        proof {
            assert(self@ == self.slots@);
            lemma_first_match_from(self.slots@, id, 0);
        }
        let mut idx: usize = 0;
        while idx < self.slots.len()
            invariant
                self.wf(),
                idx <= first_match(self.slots@, id),
                first_match(self.slots@, id) <= SIZE,
                first_match(self.slots@, id) < SIZE ==> holds(
                    self.slots@,
                    first_match(self.slots@, id),
                    id,
                ),
                forall|j: int| 0 <= j < first_match(self.slots@, id) ==> !holds(self.slots@, j, id),
            decreases SIZE - idx,
        {
            match &self.slots[idx] {
                Some(info) => {
                    if info.id() == id {
                        assert(holds(self.slots@, idx as int, id));
                        assert(self@ == self.slots@);
                        return Some(idx);
                    }
                },
                None => {},
            }
            idx += 1;
        }
        None
    }

    /// Whether some entry has identity `id`.
    pub fn has(&self, id: RegisterInfoId) -> (r: bool)
        requires
            self.wf(),
        ensures
            r == exists|i: int| 0 <= i < SIZE && holds(self@, i, id),
    {
        proof {
            assert(self@ == self.slots@);
        }
        proof {
            lemma_first_match_from(self.slots@, id, 0);
        }
        let r = self.position(id).is_some();
        proof {
            if !r {
                assert forall|i: int| 0 <= i < SIZE implies !holds(self@, i, id) by {}
            }
        }
        r
    }

    /// A copy of the first entry with identity `id`.
    pub fn get_ref(&self, id: RegisterInfoId) -> (r: Option<T>)
        requires
            self.wf(),
        ensures
            first_match(self@, id) < SIZE ==> r == self@[first_match(self@, id)],
            first_match(self@, id) >= SIZE ==> r is None,
    {
        proof {
            assert(self@ == self.slots@);
        }
        match self.position(id) {
            Some(idx) => self.slots[idx],
            None => None,
        }
    }

    /// Overwrites the first entry with identity `id` by `t`, keeping its slot;
    /// returns whether there was one.
    pub fn get_mut(&mut self, id: RegisterInfoId, t: T) -> (found: bool)
        requires
            old(self).wf(),
        ensures
            final(self).wf(),
            found == (first_match(old(self)@, id) < SIZE),
            found ==> final(self)@ == old(self)@.update(first_match(old(self)@, id), Some(t)),
            !found ==> final(self)@ == old(self)@,
    {
        proof {
            assert(self@ == self.slots@);
        }
        match self.position(id) {
            Some(idx) => {
                proof {
                    lemma_first_match_from(self.slots@, id, 0);
                    lemma_occupied_update(self.slots@, idx as int, Some(t));
                }
                self.slots.set(idx, Some(t));
                true
            },
            None => false,
        }
    }

    /// Liveness sweep: frees every slot whose entry is not valid at `now`.
    pub fn check_valid(&mut self, now: u64)
        requires
            old(self).wf(),
        ensures
            final(self).wf(),
            final(self)@ == swept(old(self)@, now),
    {
        let ghost before = self.slots@;
        let mut idx: usize = 0;
        while idx < self.slots.len()
            invariant
                self.wf(),
                idx <= SIZE,
                before.len() == SIZE,
                forall|j: int| 0 <= j < idx ==> self.slots@[j] == swept(before, now)[j],
                forall|j: int| idx <= j < SIZE ==> self.slots@[j] == before[j],
            decreases SIZE - idx,
        {
            let dead = match &self.slots[idx] {
                Some(info) => !info.is_valid(now),
                None => false,
            };
            if dead {
                proof {
                    lemma_occupied_update(self.slots@, idx as int, None);
                }
                self.slots.set(idx, None);
                self.len -= 1;
            }
            idx += 1;
        }
        proof {
            assert(self.slots@ =~= swept(before, now));
        }
    }
}

/// A well-formed table never holds more than its capacity.
pub proof fn lemma_capacity<const SIZE: usize, T: IRegisterInfo>(table: RegisterList<SIZE, T>)
    requires
        table.wf(),
    ensures
        occupied(table@) <= SIZE,
{
    lemma_occupied_bound(table.slots@);
}

} // verus!
