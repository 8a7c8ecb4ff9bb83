//! The hatch entity, as far as its boundary and pattern data go.

use vstd::prelude::*;
use crate::hatch::{
    boundary_data_views, pattern_line_views, HatchPatternBoundaryData, HatchPatternBoundaryView,
    HatchPatternLineData, HatchPatternLineView,
};

verus! {

/// A filled region of a drawing: the paths that bound it and the lines of
/// its fill pattern, each list in the order of the input.
#[derive(Clone, Debug, PartialEq)]
pub struct Hatch {
    pub pattern_boundary_data: Vec<HatchPatternBoundaryData>,
    pub pattern_line_data: Vec<HatchPatternLineData>,
}

/// What a `Hatch` holds.
pub struct HatchView {
    pub pattern_boundary_data: Seq<HatchPatternBoundaryView>,
    pub pattern_line_data: Seq<HatchPatternLineView>,
}

impl View for Hatch {
    type V = HatchView;

    open spec fn view(&self) -> HatchView {
        HatchView {
            pattern_boundary_data: boundary_data_views(self.pattern_boundary_data@),
            pattern_line_data: pattern_line_views(self.pattern_line_data@),
        }
    }
}

impl HatchView {
    /// The hatch with these boundary paths added behind its own.
    pub open spec fn with_boundary_paths(self, paths: Seq<HatchPatternBoundaryView>) -> HatchView {
        HatchView {
            pattern_boundary_data: self.pattern_boundary_data + paths,
            pattern_line_data: self.pattern_line_data,
        }
    }

    /// The hatch with these pattern lines added behind its own.
    pub open spec fn with_pattern_lines(self, lines: Seq<HatchPatternLineView>) -> HatchView {
        HatchView {
            pattern_boundary_data: self.pattern_boundary_data,
            pattern_line_data: self.pattern_line_data + lines,
        }
    }
}

impl Hatch {
    /// A hatch without boundary paths and pattern lines.
    pub fn new() -> (hatch: Hatch)
        ensures
            hatch@.pattern_boundary_data == Seq::<HatchPatternBoundaryView>::empty(),
            hatch@.pattern_line_data == Seq::<HatchPatternLineView>::empty(),
    {
        let hatch = Hatch { pattern_boundary_data: Vec::new(), pattern_line_data: Vec::new() };
        assert(hatch@.pattern_boundary_data =~= Seq::<HatchPatternBoundaryView>::empty());
        assert(hatch@.pattern_line_data =~= Seq::<HatchPatternLineView>::empty());
        hatch
    }
}

} // verus!
