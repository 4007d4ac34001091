use vstd::prelude::*;

verus! {

/// A native error code reported by the windowing system.
#[derive(Debug, Clone, Copy, PartialEq, Eq, Structural)]
pub struct OsError {
    code: u32,
}

impl View for OsError {
    type V = u32;

    closed spec fn view(&self) -> u32 {
        self.code
    }
}

impl Default for OsError {
    /// The empty error: code zero.
    fn default() -> (r: OsError)
        ensures
            r@ == 0,
    {
        OsError { code: 0 }
    }
}

impl OsError {
    /// Wraps a native error code.
    pub fn from_code(code: u32) -> (r: OsError)
        ensures
            r@ == code,
    {
        OsError { code }
    }

    /// Gives back the native error code.
    pub fn into_inner(self) -> (r: u32)
        ensures
            r == self@,
    {
        self.code
    }
}

} // verus!
