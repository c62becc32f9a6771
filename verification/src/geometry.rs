//! Geometric path extraction: turns a shape's raw path-point records into a
//! transformed, flat, ordered sequence of Bezier control points.
//!
//! For each path point the emission order is fixed: incoming handle, anchor,
//! outgoing handle, each only when present (an absent handle is skipped, not
//! replaced).  Sub-paths are concatenated in document order, and every
//! emitted coordinate is mapped through the effective transform, the shape's
//! own transform composed with its ancestors'.

use vstd::prelude::*;
use crate::transforms::{
    apply_fits, combine, mat_apply, mat_mul, mul_fits, Mat, Point, Pt, Transform,
};

verus! {

/// One path-point record: an anchor and its two optional Bezier handles.
#[derive(Debug, Clone, Copy)]
pub struct PathPointType {
    pub anchor: Option<Point>,
    pub left_direction: Option<Point>,
    pub right_direction: Option<Point>,
}

/// One sub-path: an ordered run of path points.
#[derive(Debug, Clone)]
pub struct PathPointArray {
    pub path_point_array: Vec<PathPointType>,
}

/// A shape's path type: the open/closed flag and its sub-paths.
#[derive(Debug, Clone)]
pub struct GeometryPathType {
    pub path_open: bool,
    pub path_point_arrays: Vec<PathPointArray>,
}

/// A shape's geometry.
#[derive(Debug, Clone)]
pub struct PathGeometry {
    pub geometry_path_type: GeometryPathType,
}

/// The geometric properties a shape may carry.
#[derive(Debug, Clone)]
pub struct Properties {
    pub path_geometry: Option<PathGeometry>,
}

pub open spec fn opt_pt(o: Option<Point>) -> Seq<Point> {
    match o {
        Some(p) => seq![p],
        None => Seq::empty(),
    }
}

/// The points one path-point record emits, in the fixed order
/// incoming handle, anchor, outgoing handle, absent ones skipped.
pub open spec fn emitted(pp: PathPointType) -> Seq<Point> {
    opt_pt(pp.left_direction) + opt_pt(pp.anchor) + opt_pt(pp.right_direction)
}

/// All points a sub-path emits, in order.
pub open spec fn sub_points(s: Seq<PathPointType>) -> Seq<Point>
    decreases s.len(),
{
    if s.len() == 0 {
        Seq::empty()
    } else {
        sub_points(s.drop_last()) + emitted(s.last())
    }
}

/// All points a geometry emits: its sub-paths' points concatenated in
/// document order.
pub open spec fn geometry_points(subs: Seq<PathPointArray>) -> Seq<Point>
    decreases subs.len(),
{
    if subs.len() == 0 {
        Seq::empty()
    } else {
        geometry_points(subs.drop_last()) + sub_points(subs.last().path_point_array@)
    }
}

/// The mathematical values of a point sequence.
pub open spec fn view_pts(pts: Seq<Point>) -> Seq<Pt> {
    pts.map_values(|p: Point| p@)
}

/// A point sequence mapped through a transform.
pub open spec fn transformed(m: Mat, pts: Seq<Point>) -> Seq<Pt> {
    pts.map_values(|p: Point| mat_apply(m, p@))
}

/// Every present component of the record can be transformed on the machine.
pub open spec fn pp_fits(m: Mat, pp: PathPointType) -> bool {
    &&& (pp.left_direction matches Some(p) ==> apply_fits(m, p@))
    &&& (pp.anchor matches Some(p) ==> apply_fits(m, p@))
    &&& (pp.right_direction matches Some(p) ==> apply_fits(m, p@))
}

/// Whether a shape's geometry closes its path: the negation of the upstream
/// open flag; a shape without geometry is treated as open.
pub open spec fn closed_of(properties: Option<Properties>) -> bool {
    match properties {
        Some(pr) => match pr.path_geometry {
            Some(g) => !g.geometry_path_type.path_open,
            None => false,
        },
        None => false,
    }
}

/// Reads the closed/open flag of a shape's geometry.
pub fn is_closed_path(properties: &Option<Properties>) -> (r: bool)
    ensures
        r == closed_of(*properties),
{
    match properties {
        Some(pr) => match &pr.path_geometry {
            Some(g) => !g.geometry_path_type.path_open,
            None => false,
        },
        None => false,
    }
}

/// Extracts a geometry's flat point sequence under the effective transform:
/// `shape_transform` composed with `ancestor_transform` applied to every
/// emitted point, sub-paths concatenated in document order.  A geometry with
/// no points yields the empty sequence.
#[verifier::loop_isolation(false)]
#[verifier::rlimit(100)]
pub fn extract_points(
    geometry: &PathGeometry,
    shape_transform: &Transform,
    ancestor_transform: &Transform,
) -> (r: Vec<Point>)
    requires
        mul_fits(shape_transform@, ancestor_transform@),
        forall|i: int, j: int|
            0 <= i < geometry.geometry_path_type.path_point_arrays@.len() && 0 <= j
                < geometry.geometry_path_type.path_point_arrays@[i].path_point_array@.len()
                ==> pp_fits(
                mat_mul(shape_transform@, ancestor_transform@),
                #[trigger] geometry.geometry_path_type.path_point_arrays@[i].path_point_array@[j],
            ),
    ensures
        view_pts(r@) == transformed(
            mat_mul(shape_transform@, ancestor_transform@),
            geometry_points(geometry.geometry_path_type.path_point_arrays@),
        ),
{
    let eff = combine(shape_transform, ancestor_transform);
    let ghost m = mat_mul(shape_transform@, ancestor_transform@);
    let ghost subs = geometry.geometry_path_type.path_point_arrays@;
    let mut out: Vec<Point> = Vec::new();
    let mut i: usize = 0;
    proof {
        assert(subs.take(0).len() == 0);
        assert(view_pts(out@) =~= transformed(m, geometry_points(subs.take(0))));
    }
    while i < geometry.geometry_path_type.path_point_arrays.len()
        invariant
            0 <= i <= subs.len(),
            view_pts(out@) == transformed(m, geometry_points(subs.take(i as int))),
        decreases subs.len() - i,
    {
        let arr = &geometry.geometry_path_type.path_point_arrays[i];
        let ghost sub = arr.path_point_array@;
        let mut j: usize = 0;
        proof {
            assert(sub.take(0).len() == 0);
            assert(geometry_points(subs.take(i as int)) + sub_points(sub.take(0))
                =~= geometry_points(subs.take(i as int)));
        }
        while j < arr.path_point_array.len()
            invariant
                0 <= j <= sub.len(),
                view_pts(out@) == transformed(
                    m,
                    geometry_points(subs.take(i as int)) + sub_points(sub.take(j as int)),
                ),
            decreases sub.len() - j,
        {
            let pp = &arr.path_point_array[j];
            proof {
                assert(subs[i as int].path_point_array@[j as int] == sub[j as int]);
                assert(pp_fits(m, sub[j as int]));
            }
            let ghost pre = out@;
            if let Some(p) = pp.left_direction {
                out.push(eff.apply_to_point(&p));
            }
            let ghost after_left = out@;
            proof {
                assert(view_pts(after_left) =~= view_pts(pre) + transformed(
                    m,
                    opt_pt(sub[j as int].left_direction),
                ));
            }
            if let Some(p) = pp.anchor {
                out.push(eff.apply_to_point(&p));
            }
            let ghost after_anchor = out@;
            proof {
                assert(view_pts(after_anchor) =~= view_pts(after_left) + transformed(
                    m,
                    opt_pt(sub[j as int].anchor),
                ));
            }
            if let Some(p) = pp.right_direction {
                out.push(eff.apply_to_point(&p));
            }
            proof {
                assert(view_pts(out@) =~= view_pts(after_anchor) + transformed(
                    m,
                    opt_pt(sub[j as int].right_direction),
                ));
                assert(sub.take(j as int + 1).drop_last() =~= sub.take(j as int));
                assert(sub.take(j as int + 1).last() == sub[j as int]);
                assert(sub_points(sub.take(j as int + 1)) == sub_points(sub.take(j as int))
                    + emitted(sub[j as int]));
                assert(view_pts(out@) =~= transformed(
                    m,
                    geometry_points(subs.take(i as int)) + sub_points(sub.take(j as int + 1)),
                ));
            }
            j = j + 1;
        }
        proof {
            assert(sub.take(sub.len() as int) =~= sub);
            assert(subs.take(i as int + 1).drop_last() =~= subs.take(i as int));
            assert(subs.take(i as int + 1).last() == subs[i as int]);
            assert(geometry_points(subs.take(i as int + 1)) == geometry_points(subs.take(i as int))
                + sub_points(sub));
        }
        i = i + 1;
    }
    proof {
        assert(subs.take(subs.len() as int) =~= subs);
    }
    out
}

} // verus!
