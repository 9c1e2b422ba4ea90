//! Building an abstract path from drawing commands and tessellating it.
//!
//! `build_path` replays a well-formed command sequence into the external path
//! builder; the tessellation entry points run one stroke or fill pass over
//! the built path and surface a tessellation failure as a recoverable error.

use vstd::prelude::*;
use crate::geometry::GeometryBuffer;
use crate::lyon_calls::{
    builder_add_circle, builder_add_polygon, builder_add_rounded_rectangle, builder_begin,
    builder_build, builder_end, builder_quadratic_bezier_to, fill_succeeds, fill_triangles,
    path_builder_new, path_cmds, path_tessellatable, stroke_succeeds, stroke_triangles,
    tessellate_fill, tessellate_stroke,
};
use crate::shapes::{cmd_ok, cmds_valid, cmds_view, lemma_cmds_valid_take, subpath_open, Cmd,
    ShapeCmd};

verus! {

/// Why rendering a shape failed. The tessellator may reject a malformed or
/// degenerate path; such a failure is surfaced to the caller rather than
/// aborting.
#[derive(Clone, Copy, Debug, PartialEq, Eq, Structural)]
pub enum RenderError {
    Tessellation,
}

/// Builds the abstract path holding exactly the given drawing commands.
///
/// The commands must be well-formed (`cmds_valid`) and must leave no sub-path
/// open, or the external builder would reject the replay. The commands'
/// 16-bit coordinates guarantee a path the tessellators accept.
pub fn build_path(cmds: &Vec<ShapeCmd>) -> (p: lyon::path::Path)
    requires
        cmds_valid(cmds_view(cmds@)),
        !subpath_open(cmds_view(cmds@)),
    ensures
        path_cmds(p) == cmds_view(cmds@),
        path_tessellatable(p),
{
    let ghost v = cmds_view(cmds@);
    let mut b = path_builder_new();
    let n = cmds.len();
    let mut i: usize = 0;
    proof {
        assert(v.take(0) =~= Seq::<Cmd>::empty());
    }
    while i < n
        invariant
            0 <= i <= n,
            n == cmds@.len(),
            v == cmds_view(cmds@),
            cmds_valid(v),
            !subpath_open(v),
            crate::lyon_calls::builder_cmds(b) == v.take(i as int),
        decreases n - i,
    {
        proof {
            lemma_cmds_valid_take(v, i + 1);
            assert(v.take(i + 1).drop_last() =~= v.take(i as int));
            assert(v.take(i + 1).last() == v[i as int]);
            assert(cmd_ok(v[i as int], subpath_open(v.take(i as int))));
            assert(v[i as int] == cmds@[i as int]@);
        }
        match &cmds[i] {
            ShapeCmd::Begin { at } => builder_begin(&mut b, *at),
            ShapeCmd::QuadraticTo { ctrl, to } => builder_quadratic_bezier_to(&mut b, *ctrl, *to),
            ShapeCmd::Close { close } => builder_end(&mut b, *close),
            ShapeCmd::Circle { center, radius, positive } => builder_add_circle(
                &mut b,
                *center,
                *radius,
                *positive,
            ),
            ShapeCmd::RoundedRect { corner, width, height, radius, positive } => {
                builder_add_rounded_rectangle(&mut b, *corner, *width, *height, *radius, *positive)
            },
            ShapeCmd::Polygon { points, closed } => builder_add_polygon(&mut b, points, *closed),
        }
        proof {
            assert(crate::lyon_calls::builder_cmds(b) =~= v.take(i + 1));
        }
        i += 1;
    }
    proof {
        assert(v.take(n as int) =~= v);
    }
    builder_build(b)
}

/// Runs one stroke tessellation pass over the path with default options.
///
/// The pass succeeds exactly when stroke tessellation succeeds on the path's
/// commands. On success the returned buffer is exactly the named stroke
/// geometry of those commands, and it is well-formed: the index list comes
/// in whole triangles and every index refers into the vertex sequence.
///
/// The path must be one the tessellators accept, as every path from
/// `build_path` is.
pub fn stroke_geometry(path: &lyon::path::Path) -> (r: Result<GeometryBuffer, RenderError>)
    requires
        path_tessellatable(*path),
    ensures
        (r is Ok) == stroke_succeeds(path_cmds(*path)),
        r matches Ok(g) ==> g@ == stroke_triangles(path_cmds(*path)) && g@.wf(),
        r matches Err(e) ==> e == RenderError::Tessellation,
{
    match tessellate_stroke(path) {
        Ok(g) => Ok(g),
        Err(_) => Err(RenderError::Tessellation),
    }
}

/// Runs one fill tessellation pass over the path with default options, as
/// `stroke_geometry`.
pub fn fill_geometry(path: &lyon::path::Path) -> (r: Result<GeometryBuffer, RenderError>)
    requires
        path_tessellatable(*path),
    ensures
        (r is Ok) == fill_succeeds(path_cmds(*path)),
        r matches Ok(g) ==> g@ == fill_triangles(path_cmds(*path)) && g@.wf(),
        r matches Err(e) ==> e == RenderError::Tessellation,
{
    match tessellate_fill(path) {
        Ok(g) => Ok(g),
        Err(_) => Err(RenderError::Tessellation),
    }
}

} // verus!
