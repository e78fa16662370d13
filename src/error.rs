use vstd::prelude::*;

verus! {

/// The one way construction can fail: a name that is not a C identifier.
#[derive(Debug)]
pub enum Error {
    BadIdentifier(String),
}

} // verus!
