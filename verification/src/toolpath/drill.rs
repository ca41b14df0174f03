use vstd::prelude::*;
use crate::domain::toolpath::{ToolpathSegment, rapids_at, rapids_to, segments_view};

verus! {

/// The tool path of manual drilling: one rapid move per point, all at
/// clearance height.
pub fn manual_drill_toolpath(points: &[[i64; 2]], clearance_z: i64) -> (r: Vec<ToolpathSegment>)
    ensures
        segments_view(r@) == rapids_at(points@, clearance_z),
{
    rapids_to(points, clearance_z)
}

} // verus!
