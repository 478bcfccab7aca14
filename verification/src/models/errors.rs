use vstd::prelude::*;

verus! {

/// Why a string names no value of the type asked for.
#[derive(Debug, Clone, Copy, PartialEq, Eq, Structural)]
pub enum ParsingError {
    /// The string is none of the names that the type knows.
    InvalidStr,
}

} // verus!
