//! Handles that identify program instances.
use vstd::prelude::*;

verus! {

/// A reference token for a program instance: an opaque 64-bit id.
/// Two handles name the same program exactly when their ids are equal.
#[derive(Clone, Copy, Debug, PartialEq, Eq, Structural)]
pub struct Program {
    id: i64,
}

impl View for Program {
    type V = i64;

    closed spec fn view(&self) -> i64 {
        self.id
    }
}

impl Program {
    /// A handle for the program with the given id.
    pub fn new(id: i64) -> (r: Program)
        ensures
            r@ == id,
    {
        Program { id }
    }

    /// The id of the program this handle names.
    pub fn id(&self) -> (r: i64)
        ensures
            r == self@,
    {
        self.id
    }
}

} // verus!
