//! Table entries of a drawing, as far as colours depend on them.

use vstd::prelude::*;
use crate::color::Color;

verus! {

/// A layer of a drawing: the colour of what lies on it, and whether it is
/// shown.
#[derive(Clone, Copy, Debug, PartialEq, Eq, Structural)]
pub struct Layer {
    pub color: Color,
    pub is_layer_on: bool,
}

} // verus!
