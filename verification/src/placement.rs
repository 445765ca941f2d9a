//! Placement geometry: where the exported signature image goes inside the
//! host container. With measured anchor geometry the position is computed
//! relative to the container and its scroll offset; without it the caller's
//! fallback coordinates are used unchanged. Placement never fails.

use vstd::prelude::*;

verus! {

/// Geometry the host measured for anchor-relative placement: the anchor's
/// and the container's bounding-rect origins in viewport pixels, and the
/// container's scroll offsets. Present only when an anchor is configured
/// and both elements were found.
#[derive(Clone, Copy, PartialEq, Eq, Structural, Debug)]
pub struct AnchorGeometry {
    pub anchor_left: i32,
    pub anchor_top: i32,
    pub container_left: i32,
    pub container_top: i32,
    pub scroll_left: i32,
    pub scroll_top: i32,
}

/// Pure geometry: maps anchor geometry (or its absence) to container-local
/// coordinates.
pub struct PlacementResolver;

/// `v` forced into `i32` range.
pub open spec fn clamp_i32(v: int) -> int {
    if v > i32::MAX {
        i32::MAX as int
    } else if v < i32::MIN {
        i32::MIN as int
    } else {
        v
    }
}

/// The container-local x coordinate for measured anchor geometry.
pub open spec fn spec_anchor_left(g: AnchorGeometry) -> int {
    clamp_i32(g.anchor_left - g.container_left + g.scroll_left)
}

/// The container-local y coordinate for measured anchor geometry.
pub open spec fn spec_anchor_top(g: AnchorGeometry) -> int {
    clamp_i32(g.anchor_top - g.container_top + g.scroll_top)
}

/// What `PlacementResolver::resolve` returns.
pub open spec fn spec_resolve(anchor: Option<AnchorGeometry>, fallback_x: int, fallback_y: int) -> (
    int,
    int,
) {
    match anchor {
        None => (fallback_x, fallback_y),
        Some(g) => (spec_anchor_left(g), spec_anchor_top(g)),
    }
}

/// `v` forced into `i32` range.
fn clamp_to_i32(v: i64) -> (r: i32)
    ensures
        r as int == clamp_i32(v as int),
{
    if v > i32::MAX as i64 {
        i32::MAX
    } else if v < i32::MIN as i64 {
        i32::MIN
    } else {
        v as i32
    }
}

impl PlacementResolver {
    /// Container-local coordinates for the placed image. Without anchor
    /// geometry the fallback is returned unchanged; with it, the anchor's
    /// offset from the container plus the container's scroll offset, per
    /// axis. Never fails: missing geometry degrades to the fallback.
    pub fn resolve(anchor: Option<AnchorGeometry>, fallback_x: i32, fallback_y: i32) -> (r: (
        i32,
        i32,
    ))
        ensures
            r.0 as int == spec_resolve(anchor, fallback_x as int, fallback_y as int).0,
            r.1 as int == spec_resolve(anchor, fallback_x as int, fallback_y as int).1,
            anchor is None ==> r == (fallback_x, fallback_y),
    {
        match anchor {
            None => (fallback_x, fallback_y),
            Some(g) => {
                let left: i64 = g.anchor_left as i64 - g.container_left as i64
                    + g.scroll_left as i64;
                let top: i64 = g.anchor_top as i64 - g.container_top as i64
                    + g.scroll_top as i64;
                (clamp_to_i32(left), clamp_to_i32(top))
            },
        }
    }
}

} // verus!
