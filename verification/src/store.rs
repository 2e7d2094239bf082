//! The executable store: a vector of records and a counter, kept together
//! behind one owner so that an identifier is issued and its record inserted
//! in a single step.

use vstd::prelude::*;
use crate::model::{
    lemma_accumulate_wf, lemma_create_wf, lemma_delete_wf, lemma_index_of_absent,
    lemma_index_of_first, lemma_update_wf, StoreView,
};
use crate::text::{is_blank, text_is_blank};
use crate::user::{views, Hours, User, UserView};

verus! {

/// Why an operation on the store was turned down.
#[derive(Clone, Copy, Debug, PartialEq, Eq, Structural)]
pub enum StoreError {
    /// No record carries the identifier that was asked for.
    NotFound,
    /// The name given for a new record is empty or all white space.
    Validation,
}

/// The records of a running service and the counter that numbers them.
///
/// All changes go through `&mut self`, so whoever holds the store exclusively
/// sees each operation happen as a whole.
pub struct Store {
    users: Vec<User>,
    next_id: u32,
}

impl View for Store {
    type V = StoreView;

    closed spec fn view(&self) -> StoreView {
        StoreView { users: views(self.users@), next_id: self.next_id as nat }
    }
}

impl Store {
    #[verifier::type_invariant]
    spec fn inv(self) -> bool {
        self@.wf()
    }

    /// An empty store whose first record will get the identifier 1.
    pub fn new() -> (store: Store)
        ensures
            store@ == StoreView::empty(),
    {
        let store = Store { users: Vec::new(), next_id: 1 };
        store
    }

    /// The identifier that the next created record will get.
    pub fn next_id(&self) -> (n: u32)
        ensures
            n == self@.next_id,
            self@.wf(),
    {
        proof {
            use_type_invariant(self);
        }
        self.next_id
    }

    /// The number of records.
    pub fn len(&self) -> (n: usize)
        ensures
            n == self@.users.len(),
    {
        self.users.len()
    }

    /// Moves the records out, leaving none behind, so that they can be
    /// changed and put back in one assignment.
    fn take_users(&mut self) -> (users: Vec<User>)
        ensures
            users == old(self).users,
            final(self).users@.len() == 0,
            final(self).next_id == old(self).next_id,
    {
        proof {
            use_type_invariant(&*self);
        }
        let mut users: Vec<User> = Vec::new();
        std::mem::swap(&mut users, &mut self.users);
        users
    }

    /// The position of the first record that carries `id`.
    fn position(&self, id: u32) -> (found: Option<usize>)
        ensures
            match found {
                Some(i) => self@.index_of(id as nat) == Some(i as int) && i < self.users.len(),
                None => self@.index_of(id as nat) is None && !self@.contains(id as nat),
            },
    {
        let mut i: usize = 0;
        while i < self.users.len()
            invariant
                i <= self.users.len(),
                forall|j: int| 0 <= j < i ==> (#[trigger] self@.users[j]).id != id as nat,
            decreases self.users.len() - i,
        {
            if self.users[i].id == id {
                proof {
                    lemma_index_of_first(self@, id as nat, i as int);
                }
                return Some(i);
            }
            i += 1;
        }
        proof {
            lemma_index_of_absent(self@, id as nat);
        }
        None
    }

    /// All records, oldest first.
    pub fn list(&self) -> (all: Vec<User>)
        ensures
            views(all@) == self@.users,
            self@.wf(),
    {
        proof {
            use_type_invariant(self);
        }
        let mut all: Vec<User> = Vec::new();
        let mut i: usize = 0;
        while i < self.users.len()
            invariant
                i <= self.users.len(),
                all@ == self.users@.take(i as int),
            decreases self.users.len() - i,
        {
            all.push(self.users[i].clone());
            i += 1;
        }
        all
    }

    /// The record that carries `id`.
    pub fn get(&self, id: u32) -> (res: Result<User, StoreError>)
        ensures
            match self@.find(id as nat) {
                Some(u) => res matches Ok(r) && r@ == u,
                None => res == Err::<User, StoreError>(StoreError::NotFound),
            },
            self@.wf(),
    {
        proof {
            use_type_invariant(self);
        }
        match self.position(id) {
            Some(i) => Ok(self.users[i].clone()),
            None => Err(StoreError::NotFound),
        }
    }

    /// Creates a record called `name`, with no hours worked, under the next
    /// identifier. A blank name is turned down and nothing changes.
    pub fn create(&mut self, name: String) -> (res: Result<User, StoreError>)
        requires
            !is_blank(name@) ==> old(self)@.next_id < u32::MAX,
        ensures
            final(self)@ == old(self)@.create(name@),
            final(self)@.wf(),
            is_blank(name@) ==> res == Err::<User, StoreError>(StoreError::Validation),
            !is_blank(name@) ==> (res matches Ok(u) && u@ == old(self)@.next_user(name@)),
    {
        proof {
            use_type_invariant(&*self);
        }
        if text_is_blank(name.as_str()) {
            return Err(StoreError::Validation);
        }
        let user = User { id: self.next_id, name, hours_worked: Hours::zero() };
        let created = user.clone();
        let mut users = self.take_users();
        users.push(user);
        self.next_id = self.next_id + 1;
        proof {
            lemma_create_wf(old(self)@, name@);
            assert(views(users@) =~= old(self)@.users.push(created@));
        }
        self.users = users;
        Ok(created)
    }

    /// Replaces the name of the record `id` and returns the record as it then
    /// stands. A blank `name` is no error: the record keeps the name it has.
    pub fn update(&mut self, id: u32, name: String) -> (res: Result<User, StoreError>)
        ensures
            final(self)@ == old(self)@.update(id as nat, name@),
            final(self)@.wf(),
            match final(self)@.find(id as nat) {
                Some(u) => res matches Ok(r) && r@ == u,
                None => res == Err::<User, StoreError>(StoreError::NotFound),
            },
    {
        proof {
            use_type_invariant(&*self);
        }
        match self.position(id) {
            Some(i) => {
                proof {
                    lemma_update_wf(old(self)@, id as nat, name@);
                }
                if !text_is_blank(name.as_str()) {
                    let mut users = self.take_users();
                    users[i].name = name;
                    proof {
                        assert(views(users@) =~= old(self)@.users.update(
                            i as int,
                            UserView { name: name@, ..old(self)@.users[i as int] },
                        ));
                    }
                    self.users = users;
                }
                Ok(self.users[i].clone())
            },
            None => Err(StoreError::NotFound),
        }
    }

    /// Adds `delta` to the hours of the record `id` and returns the record as
    /// it then stands. The store does no arithmetic on hours itself: the new
    /// amount is what `sum` makes of the amount so far and `delta`, in that
    /// order.
    pub fn accumulate<F: FnOnce(Hours, Hours) -> Hours>(
        &mut self,
        id: u32,
        delta: Hours,
        sum: F,
    ) -> (res: Result<User, StoreError>)
        requires
            old(self)@.find(id as nat) matches Some(u) ==> sum.requires((u.hours_worked, delta)),
        ensures
            final(self)@.wf(),
            match old(self)@.find(id as nat) {
                Some(u) => {
                    &&& res matches Ok(r)
                    &&& sum.ensures((u.hours_worked, delta), r@.hours_worked)
                    &&& r@ == (UserView { hours_worked: r@.hours_worked, ..u })
                    &&& final(self)@ == old(self)@.accumulate(id as nat, r@.hours_worked)
                },
                None => {
                    &&& res == Err::<User, StoreError>(StoreError::NotFound)
                    &&& final(self)@ == old(self)@
                },
            },
    {
        proof {
            use_type_invariant(&*self);
        }
        match self.position(id) {
            Some(i) => {
                let hours = sum(self.users[i].hours_worked, delta);
                let mut users = self.take_users();
                users[i].hours_worked = hours;
                proof {
                    lemma_accumulate_wf(old(self)@, id as nat, hours);
                    assert(views(users@) =~= old(self)@.users.update(
                        i as int,
                        UserView { hours_worked: hours, ..old(self)@.users[i as int] },
                    ));
                }
                self.users = users;
                Ok(self.users[i].clone())
            },
            None => Err(StoreError::NotFound),
        }
    }

    /// Takes the record `id` out of the store and returns it. The other
    /// records keep their order, and the identifier is not given out again.
    pub fn delete(&mut self, id: u32) -> (res: Result<User, StoreError>)
        ensures
            final(self)@ == old(self)@.delete(id as nat),
            final(self)@.wf(),
            match old(self)@.find(id as nat) {
                Some(u) => res matches Ok(r) && r@ == u,
                None => res == Err::<User, StoreError>(StoreError::NotFound),
            },
    {
        proof {
            use_type_invariant(&*self);
        }
        match self.position(id) {
            Some(i) => {
                let mut users = self.take_users();
                let removed = users.remove(i);
                proof {
                    lemma_delete_wf(old(self)@, id as nat);
                    assert(views(users@) =~= old(self)@.users.remove(i as int));
                }
                self.users = users;
                Ok(removed)
            },
            None => Err(StoreError::NotFound),
        }
    }

    /// Removes every record and starts numbering again at 1.
    pub fn delete_all(&mut self)
        ensures
            final(self)@ == StoreView::empty(),
    {
        let _ = self.take_users();
        self.next_id = 1;
    }
}

} // verus!
