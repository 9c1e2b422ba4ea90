//! The trusted boundary to the lyon path builder and tessellators.
//!
//! A lyon path builder records drawing commands in order; the builder's and
//! the built path's recorded commands are named `builder_cmds` / `path_cmds`
//! and the wrappers below state how each call changes them. Tessellation is
//! an opaque geometry algorithm: what it returns is a function of the path's
//! commands alone (and the fixed default options), so its result is only
//! named (`stroke_triangles`, `fill_triangles`), and everything that follows
//! the call is verified against that name.

use vstd::prelude::*;
use lyon::path::builder::PathBuilder;
use crate::geometry::{GeometryBuffer, GeometryModel, Vertex};
use crate::shapes::{Cmd, Point, subpath_open};

verus! {

#[verifier::external_type_specification]
#[verifier::external_body]
pub struct ExPathBuilder(lyon::path::path::Builder);

#[verifier::external_type_specification]
#[verifier::external_body]
pub struct ExPath(lyon::path::Path);

#[verifier::external_type_specification]
#[verifier::external_body]
pub struct ExTessellationError(lyon::tessellation::TessellationError);

/// The drawing commands a path builder has recorded, in order.
///
/// This models the builder's history: each builder value carries the calls
/// through which it was built. Distinct command sequences can leave equal
/// stored data (a one-point open polygon records the same verbs as a begin
/// followed by an end), but the builder type is opaque here, so no two
/// values are ever equated and each soundly keeps its own history.
pub uninterp spec fn builder_cmds(b: lyon::path::path::Builder) -> Seq<Cmd>;

/// The drawing commands a built path holds, in order: the history of the
/// builder it was built from, as `builder_cmds`.
pub uninterp spec fn path_cmds(p: lyon::path::Path) -> Seq<Cmd>;

/// Whether the path's coordinates are small finite values that the
/// tessellators accept without panicking. A path whose in-range coordinates
/// are extreme enough can drive the fill tessellator's edge sort into a
/// failing float comparison; every path built through the wrappers in this
/// module has its coordinates converted from 16-bit integers, far below
/// that, so `builder_build` ensures this predicate.
pub uninterp spec fn path_tessellatable(p: lyon::path::Path) -> bool;

/// The geometry that stroke tessellation with default options produces for a
/// path with the given commands, its vertex positions rendered as decimal
/// text. The tessellation algorithm and the text rendering depend on the
/// commands alone.
pub uninterp spec fn stroke_triangles(cmds: Seq<Cmd>) -> GeometryModel;

/// The geometry that fill tessellation with default options produces for a
/// path with the given commands, as `stroke_triangles`.
pub uninterp spec fn fill_triangles(cmds: Seq<Cmd>) -> GeometryModel;

/// Whether stroke tessellation with default options succeeds on a path with
/// the given commands. Success or failure, like the output itself, depends
/// on the path's commands alone.
pub uninterp spec fn stroke_succeeds(cmds: Seq<Cmd>) -> bool;

/// Whether fill tessellation with default options succeeds on a path with
/// the given commands, as `stroke_succeeds`.
pub uninterp spec fn fill_succeeds(cmds: Seq<Cmd>) -> bool;

/// Relies on lyon::path::Path::builder: a new builder has recorded no
/// commands.
#[verifier::external_body]
pub(crate) fn path_builder_new() -> (b: lyon::path::path::Builder)
    ensures
        builder_cmds(b) == Seq::<Cmd>::empty(),
{
    lyon::path::Path::builder()
}

/// Relies on lyon::path::path::Builder::begin: records the start of a
/// sub-path at the point; it asserts (in debug builds) that no sub-path is
/// open.
#[verifier::external_body]
pub(crate) fn builder_begin(b: &mut lyon::path::path::Builder, at: Point)
    requires
        !subpath_open(builder_cmds(*old(b))),
    ensures
        builder_cmds(*final(b)) == builder_cmds(*old(b)).push(
            Cmd::Begin { x: at.x as int, y: at.y as int },
        ),
{
    b.begin(lyon::path::math::point(at.x.into(), at.y.into()));
}

/// Relies on lyon::path::path::Builder::quadratic_bezier_to: records a
/// quadratic bezier edge; it asserts (in debug builds) that a sub-path is
/// open.
#[verifier::external_body]
pub(crate) fn builder_quadratic_bezier_to(b: &mut lyon::path::path::Builder, ctrl: Point, to: Point)
    requires
        subpath_open(builder_cmds(*old(b))),
    ensures
        builder_cmds(*final(b)) == builder_cmds(*old(b)).push(
            Cmd::QuadraticTo { cx: ctrl.x as int, cy: ctrl.y as int, x: to.x as int, y: to.y as int },
        ),
{
    b.quadratic_bezier_to(
        lyon::path::math::point(ctrl.x.into(), ctrl.y.into()),
        lyon::path::math::point(to.x.into(), to.y.into()),
    );
}

/// Relies on lyon::path::path::Builder::end: records the end of the open
/// sub-path, closed if `close` is set; it asserts (in debug builds) that a
/// sub-path is open.
#[verifier::external_body]
pub(crate) fn builder_end(b: &mut lyon::path::path::Builder, close: bool)
    requires
        subpath_open(builder_cmds(*old(b))),
    ensures
        builder_cmds(*final(b)) == builder_cmds(*old(b)).push(Cmd::Close { close }),
{
    b.end(close);
}

/// Relies on lyon::path::builder::PathBuilder::add_circle: records a full
/// circular contour as one closed sub-path; it asserts (in debug builds)
/// that no sub-path is open, and leaves none open.
#[verifier::external_body]
pub(crate) fn builder_add_circle(
    b: &mut lyon::path::path::Builder,
    center: Point,
    radius: u16,
    positive: bool,
)
    requires
        !subpath_open(builder_cmds(*old(b))),
    ensures
        builder_cmds(*final(b)) == builder_cmds(*old(b)).push(
            Cmd::Circle { x: center.x as int, y: center.y as int, radius: radius as int, positive },
        ),
{
    b.add_circle(
        lyon::path::math::point(center.x.into(), center.y.into()),
        radius.into(),
        if positive { lyon::path::Winding::Positive } else { lyon::path::Winding::Negative },
    );
}

/// Relies on lyon::path::builder::PathBuilder::add_rounded_rectangle: records
/// an axis-aligned rounded rectangle contour as one closed sub-path; it
/// asserts (in debug builds) that no sub-path is open, and leaves none open.
#[verifier::external_body]
pub(crate) fn builder_add_rounded_rectangle(
    b: &mut lyon::path::path::Builder,
    corner: Point,
    width: u16,
    height: u16,
    radius: u16,
    positive: bool,
)
    requires
        !subpath_open(builder_cmds(*old(b))),
    ensures
        builder_cmds(*final(b)) == builder_cmds(*old(b)).push(
            Cmd::RoundedRect {
                x: corner.x as int,
                y: corner.y as int,
                width: width as int,
                height: height as int,
                radius: radius as int,
                positive,
            },
        ),
{
    b.add_rounded_rectangle(
        &lyon::path::math::Rect::new(
            lyon::path::math::point(corner.x.into(), corner.y.into()),
            lyon::path::math::Size::new(width.into(), height.into()),
        ),
        &lyon::path::builder::BorderRadii::new(radius.into()),
        if positive { lyon::path::Winding::Positive } else { lyon::path::Winding::Negative },
    );
}

/// Relies on lyon::path::builder::PathBuilder::add_polygon: records a polygon
/// contour through the points in order as one sub-path; with at least one
/// point and no sub-path open it leaves none open.
#[verifier::external_body]
pub(crate) fn builder_add_polygon(
    b: &mut lyon::path::path::Builder,
    points: &Vec<Point>,
    closed: bool,
)
    requires
        !subpath_open(builder_cmds(*old(b))),
        points@.len() > 0,
    ensures
        builder_cmds(*final(b)) == builder_cmds(*old(b)).push(
            Cmd::Polygon {
                points: points@.map_values(|p: Point| (p.x as int, p.y as int)),
                closed,
            },
        ),
{
    let pts: Vec<lyon::path::math::Point> = points
        .iter()
        .map(|p| lyon::path::math::point(p.x.into(), p.y.into()))
        .collect();
    b.add_polygon(lyon::path::Polygon { points: &pts, closed });
}

/// Relies on lyon::path::path::Builder::build: the built path holds exactly
/// the recorded commands; it asserts (in debug builds) that no sub-path is
/// open. Every coordinate the wrappers in this module record comes from a
/// 16-bit integer, whose float image is small and finite, so the built path
/// is one the tessellators accept (`path_tessellatable`).
#[verifier::external_body]
pub(crate) fn builder_build(b: lyon::path::path::Builder) -> (p: lyon::path::Path)
    requires
        !subpath_open(builder_cmds(b)),
    ensures
        path_cmds(p) == builder_cmds(b),
        path_tessellatable(p),
{
    b.build()
}

/// Relies on lyon::tessellation::StrokeTessellator::tessellate_path with
/// default StrokeOptions, collecting positions into VertexBuffers through
/// BuffersBuilder: the outcome depends on the path's commands alone; on
/// success the index list comes in whole triangles and refers into the
/// returned vertices. Each position is rendered as the decimal text of its
/// two coordinates. The tessellators compare values derived from float
/// arithmetic on the coordinates, so only a path whose coordinates are small
/// and finite (`path_tessellatable`) is known to return rather than panic.
#[verifier::external_body]
pub(crate) fn tessellate_stroke(path: &lyon::path::Path) -> (r: Result<
    GeometryBuffer,
    lyon::tessellation::TessellationError,
>)
    requires
        path_tessellatable(*path),
    ensures
        (r is Ok) == stroke_succeeds(path_cmds(*path)),
        r matches Ok(g) ==> g@ == stroke_triangles(path_cmds(*path)) && g@.wf(),
{
    let mut buf: lyon::tessellation::VertexBuffers<Vertex, u16> = lyon::tessellation::VertexBuffers::new();
    let mut tess = lyon::tessellation::StrokeTessellator::new();
    let ctor = |v: lyon::tessellation::StrokeVertex| {
        let p = v.position();
        Vertex { x: format!("{}", p.x), y: format!("{}", p.y) }
    };
    tess.tessellate_path(path, &lyon::tessellation::StrokeOptions::default(), &mut lyon::tessellation::BuffersBuilder::new(&mut buf, ctor))?;
    Ok(GeometryBuffer { vertices: buf.vertices, indices: buf.indices.into_iter().map(|i| i as usize).collect() })
}

/// Relies on lyon::tessellation::FillTessellator::tessellate_path with
/// default FillOptions, as `tessellate_stroke`: in particular its edge sort
/// unwraps float comparisons, so the no-panic claim holds only of paths with
/// small finite coordinates (`path_tessellatable`).
#[verifier::external_body]
pub(crate) fn tessellate_fill(path: &lyon::path::Path) -> (r: Result<
    GeometryBuffer,
    lyon::tessellation::TessellationError,
>)
    requires
        path_tessellatable(*path),
    ensures
        (r is Ok) == fill_succeeds(path_cmds(*path)),
        r matches Ok(g) ==> g@ == fill_triangles(path_cmds(*path)) && g@.wf(),
{
    let mut buf: lyon::tessellation::VertexBuffers<Vertex, u16> = lyon::tessellation::VertexBuffers::new();
    let mut tess = lyon::tessellation::FillTessellator::new();
    let ctor = |v: lyon::tessellation::FillVertex| {
        let p = v.position();
        Vertex { x: format!("{}", p.x), y: format!("{}", p.y) }
    };
    tess.tessellate_path(path, &lyon::tessellation::FillOptions::default(), &mut lyon::tessellation::BuffersBuilder::new(&mut buf, ctor))?;
    Ok(GeometryBuffer { vertices: buf.vertices, indices: buf.indices.into_iter().map(|i| i as usize).collect() })
}

} // verus!
