//! Enumerations that the format encodes as numbers.

use vstd::prelude::*;

verus! {

/// How a boundary path of a hatch came about, as code 92 gives it.
#[derive(Clone, Copy, Debug, PartialEq, Eq, Structural)]
pub enum BoundaryPathType {
    Default,
    External,
    Polyline,
    Derived,
    Textbox,
    Outermost,
}

impl BoundaryPathType {
    /// The type that the number stands for, if it stands for one.
    pub open spec fn spec_from_i16(n: i16) -> Option<BoundaryPathType> {
        if n == 0 {
            Some(BoundaryPathType::Default)
        } else if n == 1 {
            Some(BoundaryPathType::External)
        } else if n == 2 {
            Some(BoundaryPathType::Polyline)
        } else if n == 4 {
            Some(BoundaryPathType::Derived)
        } else if n == 8 {
            Some(BoundaryPathType::Textbox)
        } else if n == 16 {
            Some(BoundaryPathType::Outermost)
        } else {
            None
        }
    }

    /// The type that the number stands for, `Default` where it stands for none.
    pub open spec fn spec_decode(n: i16) -> BoundaryPathType {
        match Self::spec_from_i16(n) {
            Some(path_type) => path_type,
            None => BoundaryPathType::Default,
        }
    }

    /// The number that stands for the type.
    pub open spec fn spec_to_i16(self) -> i16 {
        match self {
            BoundaryPathType::Default => 0,
            BoundaryPathType::External => 1,
            BoundaryPathType::Polyline => 2,
            BoundaryPathType::Derived => 4,
            BoundaryPathType::Textbox => 8,
            BoundaryPathType::Outermost => 16,
        }
    }

    pub fn from_i16(n: i16) -> (r: Option<BoundaryPathType>)
        ensures
            r == Self::spec_from_i16(n),
    {
        if n == 0 {
            Some(BoundaryPathType::Default)
        } else if n == 1 {
            Some(BoundaryPathType::External)
        } else if n == 2 {
            Some(BoundaryPathType::Polyline)
        } else if n == 4 {
            Some(BoundaryPathType::Derived)
        } else if n == 8 {
            Some(BoundaryPathType::Textbox)
        } else if n == 16 {
            Some(BoundaryPathType::Outermost)
        } else {
            None
        }
    }

    /// Decodes a number read from the input. A number that stands for no
    /// type is taken as `Default`.
    pub fn decode(n: i16) -> (path_type: BoundaryPathType)
        ensures
            path_type == Self::spec_decode(n),
    {
        match Self::from_i16(n) {
            Some(path_type) => path_type,
            None => BoundaryPathType::Default,
        }
    }

    pub fn to_i16(&self) -> (n: i16)
        ensures
            n == self.spec_to_i16(),
            Self::spec_from_i16(n) == Some(*self),
    {
        match self {
            BoundaryPathType::Default => 0,
            BoundaryPathType::External => 1,
            BoundaryPathType::Polyline => 2,
            BoundaryPathType::Derived => 4,
            BoundaryPathType::Textbox => 8,
            BoundaryPathType::Outermost => 16,
        }
    }
}

/// The kind of one edge of a boundary path, as code 72 gives it.
#[derive(Clone, Copy, Debug, PartialEq, Eq, Structural)]
pub enum BoundaryEdgeType {
    Line,
    CircularArc,
    EllipticArc,
    Spline,
}

impl BoundaryEdgeType {
    /// The kind that the number stands for, if it stands for one.
    pub open spec fn spec_from_i16(n: i16) -> Option<BoundaryEdgeType> {
        if n == 1 {
            Some(BoundaryEdgeType::Line)
        } else if n == 2 {
            Some(BoundaryEdgeType::CircularArc)
        } else if n == 3 {
            Some(BoundaryEdgeType::EllipticArc)
        } else if n == 4 {
            Some(BoundaryEdgeType::Spline)
        } else {
            None
        }
    }

    /// The kind that the number stands for, `Line` where it stands for none.
    pub open spec fn spec_decode(n: i16) -> BoundaryEdgeType {
        match Self::spec_from_i16(n) {
            Some(edge_type) => edge_type,
            None => BoundaryEdgeType::Line,
        }
    }

    /// The number that stands for the kind.
    pub open spec fn spec_to_i16(self) -> i16 {
        match self {
            BoundaryEdgeType::Line => 1,
            BoundaryEdgeType::CircularArc => 2,
            BoundaryEdgeType::EllipticArc => 3,
            BoundaryEdgeType::Spline => 4,
        }
    }

    pub fn from_i16(n: i16) -> (r: Option<BoundaryEdgeType>)
        ensures
            r == Self::spec_from_i16(n),
    {
        if n == 1 {
            Some(BoundaryEdgeType::Line)
        } else if n == 2 {
            Some(BoundaryEdgeType::CircularArc)
        } else if n == 3 {
            Some(BoundaryEdgeType::EllipticArc)
        } else if n == 4 {
            Some(BoundaryEdgeType::Spline)
        } else {
            None
        }
    }

    /// Decodes a number read from the input. A number that stands for no
    /// kind is taken as `Line`.
    pub fn decode(n: i16) -> (edge_type: BoundaryEdgeType)
        ensures
            edge_type == Self::spec_decode(n),
    {
        match Self::from_i16(n) {
            Some(edge_type) => edge_type,
            None => BoundaryEdgeType::Line,
        }
    }

    pub fn to_i16(&self) -> (n: i16)
        ensures
            n == self.spec_to_i16(),
            Self::spec_from_i16(n) == Some(*self),
    {
        match self {
            BoundaryEdgeType::Line => 1,
            BoundaryEdgeType::CircularArc => 2,
            BoundaryEdgeType::EllipticArc => 3,
            BoundaryEdgeType::Spline => 4,
        }
    }
}

} // verus!
