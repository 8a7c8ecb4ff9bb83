//! Errors reported while decoding a stream of code pairs.

use vstd::prelude::*;

verus! {

/// Why decoding stopped.
#[derive(Clone, Copy, Debug, PartialEq, Eq, Structural)]
pub enum DxfError {
    /// The input ended where a field was still owed.
    UnexpectedEndOfInput,
    /// A pair with this code stood where another was required. The second
    /// field is the offset of the pair in the input, 0 where it is not known.
    UnexpectedCode(i32, usize),
    /// A pair held a value of another type than the field requires.
    MalformedValue,
}

pub type DxfResult<T> = Result<T, DxfError>;

} // verus!
