use vstd::prelude::*;

verus! {

/// The single error kind of this crate: every engine-level failure, failed
/// attach, failed commit, and "no handle attached" condition surfaces as an
/// `IOError` carrying a human-readable cause.
#[derive(Debug)]
pub enum Error {
    IOError(String),
}

impl Error {
    /// The human-readable cause carried by this error.
    pub open spec fn text(&self) -> Seq<char> {
        match self {
            Error::IOError(m) => m@,
        }
    }

    /// Returns the human-readable cause of this error.
    pub fn message(&self) -> (r: &String)
        ensures
            r@ == self.text(),
    {
        match self {
            Error::IOError(m) => m,
        }
    }
}

} // verus!
