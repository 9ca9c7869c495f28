//! Wire representation of an identifier: its canonical string form.

use vstd::prelude::*;

verus! {

/// A user identifier on the wire, carried as a string.
#[derive(Debug)]
pub struct UserId {
    pub id: String,
}

} // verus!
