//! The store as a mathematical object: a sequence of records in insertion
//! order and the identifier that the next record will get.

use vstd::prelude::*;
use crate::text::is_blank;
use crate::user::{Hours, UserView};

verus! {

/// The abstract state of a store.
#[verifier::ext_equal]
pub struct StoreView {
    /// The records, oldest first.
    pub users: Seq<UserView>,
    /// The identifier that the next created record receives.
    pub next_id: nat,
}

impl StoreView {
    /// The state of a fresh store, and of any store after it was emptied.
    pub open spec fn empty() -> StoreView {
        StoreView { users: Seq::empty(), next_id: 1 }
    }

    /// The invariant of every reachable state: identifiers start at 1, stay
    /// below the counter and grow strictly along the sequence, and no stored
    /// name is blank.
    pub open spec fn wf(self) -> bool {
        &&& 1 <= self.next_id
        &&& forall|i: int|
            0 <= i < self.users.len() ==> 1 <= (#[trigger] self.users[i]).id < self.next_id
        &&& forall|i: int, j: int|
            #![trigger self.users[i], self.users[j]]
            0 <= i < j < self.users.len() ==> self.users[i].id < self.users[j].id
        &&& forall|i: int|
            0 <= i < self.users.len() ==> !is_blank((#[trigger] self.users[i]).name)
    }

    /// Some record carries `id`.
    pub open spec fn contains(self, id: nat) -> bool {
        exists|i: int| 0 <= i < self.users.len() && (#[trigger] self.users[i]).id == id
    }

    /// The record at position `i` is the first one that carries `id`.
    pub open spec fn first_at(self, id: nat, i: int) -> bool {
        &&& 0 <= i < self.users.len()
        &&& self.users[i].id == id
        &&& forall|j: int| 0 <= j < i ==> (#[trigger] self.users[j]).id != id
    }

    /// The position of the first record that carries `id`, if there is one.
    pub open spec fn index_of(self, id: nat) -> Option<int> {
        if exists|i: int| self.first_at(id, i) {
            Some(choose|i: int| self.first_at(id, i))
        } else {
            None
        }
    }

    /// The first record that carries `id`, if there is one.
    pub open spec fn find(self, id: nat) -> Option<UserView> {
        match self.index_of(id) {
            Some(i) => Some(self.users[i]),
            None => None,
        }
    }

    /// The record that creating a user called `name` adds.
    pub open spec fn next_user(self, name: Seq<char>) -> UserView {
        UserView { id: self.next_id, name, hours_worked: Hours::zero_hours() }
    }

    /// The state after creating a user called `name`: a blank name changes
    /// nothing; any other is stored as given, at the end, under the counter's
    /// value, and the counter moves on by one.
    pub open spec fn create(self, name: Seq<char>) -> StoreView {
        if is_blank(name) {
            self
        } else {
            StoreView { users: self.users.push(self.next_user(name)), next_id: self.next_id + 1 }
        }
    }

    /// The state after replacing the name of the record `id`: nothing changes
    /// when there is no such record or when `name` is blank.
    pub open spec fn update(self, id: nat, name: Seq<char>) -> StoreView {
        match self.index_of(id) {
            Some(i) if !is_blank(name) => StoreView {
                users: self.users.update(i, UserView { name, ..self.users[i] }),
                ..self
            },
            _ => self,
        }
    }

    /// The state after the hours of the record `id` became `hours`: nothing
    /// changes when there is no such record.
    pub open spec fn accumulate(self, id: nat, hours: Hours) -> StoreView {
        match self.index_of(id) {
            Some(i) => StoreView {
                users: self.users.update(i, UserView { hours_worked: hours, ..self.users[i] }),
                ..self
            },
            None => self,
        }
    }

    /// The state after deleting the record `id`: the others keep their
    /// order, and so does the counter.
    pub open spec fn delete(self, id: nat) -> StoreView {
        match self.index_of(id) {
            Some(i) => StoreView { users: self.users.remove(i), ..self },
            None => self,
        }
    }
}

/// A request that can change the store. The hours of an accumulation are the
/// amount that the record ends up with.
pub enum Request {
    Create { name: Seq<char> },
    Update { id: nat, name: Seq<char> },
    Accumulate { id: nat, hours: Hours },
    Delete { id: nat },
    DeleteAll,
}

impl Request {
    /// The request adds a record, and so uses up an identifier.
    pub open spec fn creates(self) -> bool {
        self matches Request::Create { name } && !is_blank(name)
    }
}

impl StoreView {
    /// The state after one request.
    pub open spec fn step(self, request: Request) -> StoreView {
        match request {
            Request::Create { name } => self.create(name),
            Request::Update { id, name } => self.update(id, name),
            Request::Accumulate { id, hours } => self.accumulate(id, hours),
            Request::Delete { id } => self.delete(id),
            Request::DeleteAll => StoreView::empty(),
        }
    }

    /// The state after a sequence of requests, carried out in order.
    pub open spec fn run(self, requests: Seq<Request>) -> StoreView
        decreases requests.len(),
    {
        if requests.len() == 0 {
            self
        } else {
            self.run(requests.drop_last()).step(requests.last())
        }
    }
}

/// Once a position is known to hold the first record with `id`, it is the
/// position that `index_of` names.
pub proof fn lemma_index_of_first(s: StoreView, id: nat, i: int)
    requires
        s.first_at(id, i),
    ensures
        s.index_of(id) == Some(i),
{
}

/// A store that holds no record with `id` has no position for it.
pub proof fn lemma_index_of_absent(s: StoreView, id: nat)
    requires
        !s.contains(id),
    ensures
        s.index_of(id) is None,
        s.find(id) is None,
{
}

/// Two states whose records carry the same identifiers at the same positions
/// find every identifier at the same position.
pub proof fn lemma_index_of_same_ids(a: StoreView, b: StoreView, id: nat)
    requires
        a.users.len() == b.users.len(),
        forall|i: int| 0 <= i < a.users.len() ==> (#[trigger] a.users[i]).id == b.users[i].id,
    ensures
        a.index_of(id) == b.index_of(id),
{
    if exists|i: int| a.first_at(id, i) {
        let k = choose|k: int| a.first_at(id, k);
        assert(b.first_at(id, k)) by {
            assert forall|j: int| 0 <= j < k implies (#[trigger] b.users[j]).id != id by {
                assert(b.users[j].id == a.users[j].id);
            }
        }
        lemma_index_of_first(a, id, k);
        lemma_index_of_first(b, id, k);
    } else if exists|i: int| b.first_at(id, i) {
        let k = choose|k: int| b.first_at(id, k);
        assert(a.first_at(id, k));
    }
}

/// Creating a record keeps the invariant.
pub proof fn lemma_create_wf(s: StoreView, name: Seq<char>)
    requires
        s.wf(),
    ensures
        s.create(name).wf(),
{
}

/// Replacing a name keeps the invariant, and every identifier where it was.
pub proof fn lemma_update_wf(s: StoreView, id: nat, name: Seq<char>)
    requires
        s.wf(),
    ensures
        s.update(id, name).wf(),
        forall|other: nat| s.update(id, name).index_of(other) == s.index_of(other),
{
    let t = s.update(id, name);
    assert forall|other: nat| t.index_of(other) == s.index_of(other) by {
        lemma_index_of_same_ids(t, s, other);
    }
}

/// Changing the hours of a record keeps the invariant, and every identifier
/// where it was.
pub proof fn lemma_accumulate_wf(s: StoreView, id: nat, hours: Hours)
    requires
        s.wf(),
    ensures
        s.accumulate(id, hours).wf(),
        forall|other: nat| s.accumulate(id, hours).index_of(other) == s.index_of(other),
{
    let t = s.accumulate(id, hours);
    assert forall|other: nat| t.index_of(other) == s.index_of(other) by {
        lemma_index_of_same_ids(t, s, other);
    }
}

/// Deleting a record keeps the invariant.
pub proof fn lemma_delete_wf(s: StoreView, id: nat)
    requires
        s.wf(),
    ensures
        s.delete(id).wf(),
{
}

} // verus!
