//! Error values the library can report to its caller.

use vstd::prelude::*;

verus! {

/// An input the library rejects, carrying a descriptive message: a malformed
/// tonic token, or a malformed interval description.
#[derive(Debug)]
pub enum Error<'a> {
    InvalidTonic(&'a str),
    InvalidIntervals(&'a str),
}

} // verus!
