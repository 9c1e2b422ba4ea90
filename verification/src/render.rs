//! Rendering a geometry buffer as an SVG document.
//!
//! The index list is partitioned into consecutive groups of three; each group
//! is emitted as one closed triangle path (move to the first vertex, lines to
//! the other two, close), wrapped in a path element with the pass's fill
//! color, a black outline of width 0.1, and appended to the document in
//! traversal order. A whole shape is rendered as one document with a fixed
//! viewport: all stroke-pass triangles first (fill "blue"), then all
//! fill-pass triangles (fill "red").

use vstd::prelude::*;
use vstd::string::StringExecFns;
use crate::geometry::{GeometryBuffer, GeometryModel, Vertex, VertexModel};
use crate::lyon_calls::{
    fill_succeeds, fill_triangles, path_cmds, path_tessellatable, stroke_succeeds,
    stroke_triangles,
};
use crate::shapes::{shape_cmds, Choice};
use crate::svg_calls::{
    doc_attrs, doc_paths, path_attrs, svg_document_add_path, svg_document_new, svg_document_set,
    svg_path_new, svg_path_set,
};
use crate::tessellate::{build_path, fill_geometry, stroke_geometry, RenderError};

verus! {

/// The draw command text of one closed triangle: move to the first vertex,
/// lines to the other two, close.
pub open spec fn triangle_data_model(v0: VertexModel, v1: VertexModel, v2: VertexModel) -> Seq<
    char,
> {
    "M"@ + v0.x + ","@ + v0.y + " L"@ + v1.x + ","@ + v1.y + " L"@ + v2.x + ","@ + v2.y + " Z"@
}

/// The attributes of the path element emitted for triangle `t` of a geometry
/// buffer: the pass's fill color, the fixed black outline of width 0.1, and
/// the triangle's draw command text.
pub open spec fn triangle_node_attrs(g: GeometryModel, color: Seq<char>, t: int) -> Map<
    Seq<char>,
    Seq<char>,
> {
    Map::<Seq<char>, Seq<char>>::empty().insert("fill"@, color).insert("stroke"@, "black"@).insert(
        "stroke-width"@,
        "0.1"@,
    ).insert(
        "d"@,
        triangle_data_model(
            g.vertices[g.indices[3 * t]],
            g.vertices[g.indices[3 * t + 1]],
            g.vertices[g.indices[3 * t + 2]],
        ),
    )
}

/// The path elements emitted for a geometry buffer, one per triangle, in
/// index-list order.
pub open spec fn triangle_nodes(g: GeometryModel, color: Seq<char>) -> Seq<
    Map<Seq<char>, Seq<char>>,
> {
    Seq::new((g.indices.len() / 3) as nat, |t: int| triangle_node_attrs(g, color, t))
}

/// The attributes of every rendered document: the svg namespace and the fixed
/// 90 by 90 viewport.
pub open spec fn document_attrs() -> Map<Seq<char>, Seq<char>> {
    crate::svg_calls::initial_doc_attrs().insert("viewBox"@, "0 0 90 90"@)
}

/// The path elements of the document rendered for one shape choice: the
/// stroke pass's triangles in "blue", then the fill pass's in "red".
pub open spec fn rendered_paths(choice: Choice) -> Seq<Map<Seq<char>, Seq<char>>> {
    triangle_nodes(stroke_triangles(shape_cmds(choice)), "blue"@) + triangle_nodes(
        fill_triangles(shape_cmds(choice)),
        "red"@,
    )
}

/// Builds the draw command text of one closed triangle.
pub fn triangle_data(v0: &Vertex, v1: &Vertex, v2: &Vertex) -> (s: String)
    ensures
        s@ == triangle_data_model(v0@, v1@, v2@),
{
    let mut s = String::from_str("M");
    s.append(v0.x.as_str());
    s.append(",");
    s.append(v0.y.as_str());
    s.append(" L");
    s.append(v1.x.as_str());
    s.append(",");
    s.append(v1.y.as_str());
    s.append(" L");
    s.append(v2.x.as_str());
    s.append(",");
    s.append(v2.y.as_str());
    s.append(" Z");
    s
}

/// Appends one path element per triangle of the buffer to the document, in
/// index-list order, each with the given fill color.
pub fn add_triangle_nodes(
    doc: svg::node::element::SVG,
    geometry: &GeometryBuffer,
    fill_color: &str,
) -> (d: svg::node::element::SVG)
    requires
        geometry@.wf(),
    ensures
        doc_attrs(d) == doc_attrs(doc),
        doc_paths(d) == doc_paths(doc) + triangle_nodes(geometry@, fill_color@),
{
    let ghost g = geometry@;
    let ghost nodes = triangle_nodes(g, fill_color@);
    let mut d = doc;
    let total = geometry.indices.len();
    let n = total / 3;
    proof {
        assert(g.indices.len() == total as int);
        assert(total as int == 3 * (n as int));
        assert(doc_paths(d) + nodes.take(0) =~= doc_paths(doc));
    }
    let mut t: usize = 0;
    while t < n
        invariant
            0 <= t <= n,
            geometry@ == g,
            g.wf(),
            total == geometry.indices.len(),
            n == total / 3,
            total as int == 3 * (n as int),
            nodes == triangle_nodes(g, fill_color@),
            doc_attrs(d) == doc_attrs(doc),
            doc_paths(d) == doc_paths(doc) + nodes.take(t as int),
        decreases n - t,
    {
        proof {
            assert(3 * (t as int) + 2 < total as int);
            assert(g.indices[3 * (t as int)] == geometry.indices@[3 * (t as int)] as int);
            assert(g.indices[3 * (t as int) + 1] == geometry.indices@[3 * (t as int) + 1] as int);
            assert(g.indices[3 * (t as int) + 2] == geometry.indices@[3 * (t as int) + 2] as int);
        }
        let i0 = geometry.indices[3 * t];
        let i1 = geometry.indices[3 * t + 1];
        let i2 = geometry.indices[3 * t + 2];
        let data = triangle_data(&geometry.vertices[i0], &geometry.vertices[i1], &geometry.vertices[i2]);
        let mut p = svg_path_new();
        p = svg_path_set(p, "fill", fill_color);
        p = svg_path_set(p, "stroke", "black");
        p = svg_path_set(p, "stroke-width", "0.1");
        p = svg_path_set(p, "d", data.as_str());
        proof {
            assert(g.vertices[g.indices[3 * (t as int)]] == geometry.vertices@[i0 as int]@);
            assert(g.vertices[g.indices[3 * (t as int) + 1]] == geometry.vertices@[i1 as int]@);
            assert(g.vertices[g.indices[3 * (t as int) + 2]] == geometry.vertices@[i2 as int]@);
            assert(path_attrs(p) == triangle_node_attrs(g, fill_color@, t as int));
        }
        d = svg_document_add_path(d, p);
        proof {
            assert(nodes[t as int] == triangle_node_attrs(g, fill_color@, t as int));
            assert(doc_paths(doc) + nodes.take(t as int + 1) =~= (doc_paths(doc) + nodes.take(
                t as int,
            )).push(nodes[t as int]));
        }
        t += 1;
    }
    proof {
        assert(nodes.take(n as int) =~= nodes);
    }
    d
}

/// Renders one tessellation pass as a whole document: the fixed viewport and
/// one path element per triangle with the given fill color.
pub fn make_document(geometry: &GeometryBuffer, fill_color: &str) -> (d: svg::node::element::SVG)
    requires
        geometry@.wf(),
    ensures
        doc_attrs(d) == document_attrs(),
        doc_paths(d) == triangle_nodes(geometry@, fill_color@),
{
    let doc = svg_document_new();
    let doc = svg_document_set(doc, "viewBox", "0 0 90 90");
    let d = add_triangle_nodes(doc, geometry, fill_color);
    proof {
        assert(doc_paths(d) =~= triangle_nodes(geometry@, fill_color@));
    }
    d
}

/// Stroke-tessellates the path and renders the triangles as a document with
/// fill color "blue". Succeeds exactly when the stroke pass succeeds on the
/// path's commands. The path must be one the tessellators accept, as every
/// path from `build_path` is.
pub fn stroke(path: &lyon::path::Path) -> (r: Result<svg::node::element::SVG, RenderError>)
    requires
        path_tessellatable(*path),
    ensures
        (r is Ok) == stroke_succeeds(path_cmds(*path)),
        r matches Ok(d) ==> doc_attrs(d) == document_attrs() && doc_paths(d) == triangle_nodes(
            stroke_triangles(path_cmds(*path)),
            "blue"@,
        ),
        r matches Err(e) ==> e == RenderError::Tessellation,
{
    match stroke_geometry(path) {
        Ok(g) => Ok(make_document(&g, "blue")),
        Err(e) => Err(e),
    }
}

/// Fill-tessellates the path and renders the triangles as a document with
/// fill color "red". Succeeds exactly when the fill pass succeeds on the
/// path's commands. The path must be one the tessellators accept, as every
/// path from `build_path` is.
pub fn fill(path: &lyon::path::Path) -> (r: Result<svg::node::element::SVG, RenderError>)
    requires
        path_tessellatable(*path),
    ensures
        (r is Ok) == fill_succeeds(path_cmds(*path)),
        r matches Ok(d) ==> doc_attrs(d) == document_attrs() && doc_paths(d) == triangle_nodes(
            fill_triangles(path_cmds(*path)),
            "red"@,
        ),
        r matches Err(e) ==> e == RenderError::Tessellation,
{
    match fill_geometry(path) {
        Ok(g) => Ok(make_document(&g, "red")),
        Err(e) => Err(e),
    }
}

/// Renders one shape choice as a single document: the stroke pass's
/// triangles first, the fill pass's appended after them. Succeeds exactly
/// when both passes succeed on the shape's commands.
pub fn render_choice(choice: &Choice) -> (r: Result<svg::node::element::SVG, RenderError>)
    ensures
        (r is Ok) == (stroke_succeeds(shape_cmds(*choice)) && fill_succeeds(shape_cmds(*choice))),
        r matches Ok(d) ==> doc_attrs(d) == document_attrs() && doc_paths(d) == rendered_paths(
            *choice,
        ),
        r matches Err(e) ==> e == RenderError::Tessellation,
{
    let cmds = crate::shapes::shape_commands(choice);
    let path = build_path(&cmds);
    let doc = match stroke(&path) {
        Ok(d) => d,
        Err(e) => {
            return Err(e);
        },
    };
    let g = match fill_geometry(&path) {
        Ok(g) => g,
        Err(e) => {
            return Err(e);
        },
    };
    let d = add_triangle_nodes(doc, &g, "red");
    Ok(d)
}

/// Document composition: rendering a stroke pass and a fill pass into one
/// document yields one path element per triangle — their number is the two
/// passes' triangle counts added — and every stroke-colored element stands
/// before every fill-colored one.
pub proof fn lemma_document_composition(
    g_stroke: GeometryModel,
    g_fill: GeometryModel,
    stroke_color: Seq<char>,
    fill_color: Seq<char>,
)
    requires
        g_stroke.wf(),
        g_fill.wf(),
        stroke_color != fill_color,
    ensures
        ({
            let nodes = triangle_nodes(g_stroke, stroke_color) + triangle_nodes(
                g_fill,
                fill_color,
            );
            &&& nodes.len() == g_stroke.triangle_count() + g_fill.triangle_count()
            &&& forall|i: int|
                0 <= i < g_stroke.triangle_count() ==> #[trigger] nodes[i]["fill"@]
                    == stroke_color
            &&& forall|i: int|
                g_stroke.triangle_count() <= i < nodes.len() ==> #[trigger] nodes[i]["fill"@]
                    == fill_color
        }),
{
    reveal_strlit("fill");
    reveal_strlit("stroke");
    reveal_strlit("stroke-width");
    reveal_strlit("d");
    assert("fill"@.len() == 4 && "stroke"@.len() == 6 && "stroke-width"@.len() == 12 && "d"@.len()
        == 1);
    assert("fill"@ != "stroke"@ && "fill"@ != "stroke-width"@ && "fill"@ != "d"@);
    let nodes = triangle_nodes(g_stroke, stroke_color) + triangle_nodes(g_fill, fill_color);
    assert forall|i: int| 0 <= i < g_stroke.triangle_count() implies #[trigger] nodes[i]["fill"@]
        == stroke_color by {
        assert(nodes[i] == triangle_node_attrs(g_stroke, stroke_color, i));
    }
    assert forall|i: int|
        g_stroke.triangle_count() <= i < nodes.len() implies #[trigger] nodes[i]["fill"@]
        == fill_color by {
        assert(nodes[i] == triangle_node_attrs(g_fill, fill_color, i - g_stroke.triangle_count()));
    }
}

/// Determinism: two independent renderings of the same shape choice have
/// the same outcome. Tessellation with given commands and options succeeds
/// or fails as a function of those alone; on success the output and its pure
/// mapping into a document are fixed too, so the two runs either fail with
/// the same error or return documents with the same attributes and the same
/// path elements.
pub proof fn lemma_render_deterministic(
    choice: Choice,
    r1: Result<svg::node::element::SVG, RenderError>,
    r2: Result<svg::node::element::SVG, RenderError>,
)
    requires
        (r1 is Ok) == (stroke_succeeds(shape_cmds(choice)) && fill_succeeds(shape_cmds(choice))),
        r1 matches Ok(d) ==> doc_attrs(d) == document_attrs() && doc_paths(d) == rendered_paths(
            choice,
        ),
        r1 matches Err(e) ==> e == RenderError::Tessellation,
        (r2 is Ok) == (stroke_succeeds(shape_cmds(choice)) && fill_succeeds(shape_cmds(choice))),
        r2 matches Ok(d) ==> doc_attrs(d) == document_attrs() && doc_paths(d) == rendered_paths(
            choice,
        ),
        r2 matches Err(e) ==> e == RenderError::Tessellation,
    ensures
        (r1 is Ok) == (r2 is Ok),
        r1 matches Ok(d1) ==> r2 matches Ok(d2) ==> doc_attrs(d1) == doc_attrs(d2) && doc_paths(
            d1,
        ) == doc_paths(d2),
        r1 matches Err(e1) ==> r2 matches Err(e2) ==> e1 == e2,
{
}

/// Builds the output file name of one shape choice.
pub fn output_filename(choice: &Choice) -> (s: String)
    ensures
        s@ == "svg_output/"@ + choice.spec_name() + ".svg"@,
{
    let mut s = String::from_str("svg_output/");
    s.append(choice.name());
    s.append(".svg");
    s
}

/// Renders one shape choice and pairs the document with the file name it is
/// to be saved under. Writing the file is left to the caller. Succeeds
/// exactly when both tessellation passes succeed on the shape's commands.
pub fn make_example(choice: &Choice) -> (r: Result<(String, svg::node::element::SVG), RenderError>)
    ensures
        (r is Ok) == (stroke_succeeds(shape_cmds(*choice)) && fill_succeeds(shape_cmds(*choice))),
        r matches Ok(p) ==> p.0@ == "svg_output/"@ + choice.spec_name() + ".svg"@ && doc_attrs(
            p.1,
        ) == document_attrs() && doc_paths(p.1) == rendered_paths(*choice),
        r matches Err(e) ==> e == RenderError::Tessellation,
{
    let name = output_filename(choice);
    match render_choice(choice) {
        Ok(d) => Ok((name, d)),
        Err(e) => Err(e),
    }
}

} // verus!
