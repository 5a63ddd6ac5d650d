use vstd::prelude::*;

verus! {

/// The platform could not provide what a window needs.
#[derive(Debug, Clone, Copy, PartialEq, Eq, Structural)]
pub struct Error;

impl Error {
    /// A short description of the error.
    pub fn message(&self) -> (r: String)
        ensures
            r@ == "Android Error"@,
    {
        String::from_str("Android Error")
    }
}

} // verus!
