//! The library's error value: a numeric code with a short description.
use vstd::prelude::*;

verus! {

/// An error raised by this library, carrying a stable numeric code and a
/// human-readable description.
#[derive(Debug)]
pub struct StarboardError {
    info: &'static str,
    code: u8,
}

impl StarboardError {
    pub closed spec fn spec_code(&self) -> u8 {
        self.code
    }

    pub closed spec fn spec_info(&self) -> &'static str {
        self.info
    }

    pub fn new(code: u8, info: &'static str) -> (r: Self)
        ensures
            r.spec_code() == code,
            r.spec_info() == info,
    {
        Self { info, code }
    }

    pub fn info(&self) -> (r: &'static str)
        ensures
            r == self.spec_info(),
    {
        self.info
    }

    pub fn code(&self) -> (r: &u8)
        ensures
            r == self.spec_code(),
    {
        &self.code
    }
}

} // verus!
