//! The user record and its mathematical model.

use vstd::prelude::*;

verus! {

/// An amount of hours worked.
///
/// The amount is a double-precision number, and the store never looks inside
/// it: it is carried as the 64 bits of its IEEE 754 encoding, so that equal
/// bits are the same number and the all-zero pattern is positive zero.
/// Arithmetic on amounts is the caller's business: an operation that adds
/// takes the function that adds.
#[derive(Clone, Copy, Debug, PartialEq, Eq, Structural)]
pub struct Hours {
    pub bits: u64,
}

impl Hours {
    /// Zero hours: the amount every new record starts with.
    pub open spec fn zero_hours() -> Hours {
        Hours { bits: 0 }
    }

    #[verifier::when_used_as_spec(zero_hours)]
    pub fn zero() -> (h: Hours)
        ensures
            h == Hours::zero_hours(),
    {
        Hours { bits: 0 }
    }
}

/// One user record.
#[derive(Debug, PartialEq, Eq)]
pub struct User {
    pub id: u32,
    pub name: String,
    pub hours_worked: Hours,
}

/// What a user record stands for: an identifier, a name as a sequence of
/// characters, and the hours worked so far.
pub struct UserView {
    pub id: nat,
    pub name: Seq<char>,
    pub hours_worked: Hours,
}

impl View for User {
    type V = UserView;

    open spec fn view(&self) -> UserView {
        UserView { id: self.id as nat, name: self.name@, hours_worked: self.hours_worked }
    }
}

impl Clone for User {
    fn clone(&self) -> (copy: Self)
        ensures
            copy == *self,
    {
        User { id: self.id, name: self.name.clone(), hours_worked: self.hours_worked }
    }
}

/// The models of a sequence of records, in the same order.
pub open spec fn views(users: Seq<User>) -> Seq<UserView> {
    users.map_values(|u: User| u@)
}

} // verus!
