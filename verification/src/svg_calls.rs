//! The trusted boundary to the svg document model.
//!
//! An svg document is an element holding attributes and child path elements;
//! a path element holds attributes. Both are opaque here: their contents are
//! named (`doc_attrs`, `doc_paths`, `path_attrs`) and the wrappers state how
//! each call changes them. Writing a document to a file is input/output and
//! stays outside the library.

use vstd::prelude::*;

verus! {

#[verifier::external_type_specification]
#[verifier::external_body]
pub struct ExSvgDocument(svg::node::element::SVG);

#[verifier::external_type_specification]
#[verifier::external_body]
pub struct ExSvgPath(svg::node::element::Path);

/// An attribute map with no entries.
pub open spec fn no_attrs() -> Map<Seq<char>, Seq<char>> {
    Map::empty()
}

/// A child list with no path elements.
pub open spec fn no_paths() -> Seq<Map<Seq<char>, Seq<char>>> {
    Seq::empty()
}

/// The attributes a fresh document holds: the svg namespace alone.
pub open spec fn initial_doc_attrs() -> Map<Seq<char>, Seq<char>> {
    no_attrs().insert("xmlns"@, "http://www.w3.org/2000/svg"@)
}

/// The attributes a path element holds, by name.
pub uninterp spec fn path_attrs(p: svg::node::element::Path) -> Map<Seq<char>, Seq<char>>;

/// The attributes a document holds, by name.
pub uninterp spec fn doc_attrs(d: svg::node::element::SVG) -> Map<Seq<char>, Seq<char>>;

/// The attribute maps of the path elements a document holds, in the order
/// they were appended.
pub uninterp spec fn doc_paths(d: svg::node::element::SVG) -> Seq<Map<Seq<char>, Seq<char>>>;

/// Relies on svg::node::element::Path::new: a new path element holds no
/// attributes.
#[verifier::external_body]
pub(crate) fn svg_path_new() -> (p: svg::node::element::Path)
    ensures
        path_attrs(p) == no_attrs(),
{
    svg::node::element::Path::new()
}

/// Relies on svg::node::element::Path::set: assigns one attribute, replacing
/// an earlier value under the same name.
#[verifier::external_body]
pub(crate) fn svg_path_set(
    p: svg::node::element::Path,
    name: &str,
    value: &str,
) -> (r: svg::node::element::Path)
    ensures
        path_attrs(r) == path_attrs(p).insert(name@, value@),
{
    p.set(name, value)
}

/// Relies on svg::Document::new: a new document holds no path elements and
/// one attribute, the svg namespace.
#[verifier::external_body]
pub(crate) fn svg_document_new() -> (d: svg::node::element::SVG)
    ensures
        doc_paths(d) == no_paths(),
        doc_attrs(d) == initial_doc_attrs(),
{
    svg::Document::new()
}

/// Relies on svg::node::element::SVG::set: assigns one attribute of the
/// document, leaving its path elements as they are.
#[verifier::external_body]
pub(crate) fn svg_document_set(
    d: svg::node::element::SVG,
    name: &str,
    value: &str,
) -> (r: svg::node::element::SVG)
    ensures
        doc_attrs(r) == doc_attrs(d).insert(name@, value@),
        doc_paths(r) == doc_paths(d),
{
    d.set(name, value)
}

/// Relies on svg::node::element::SVG::add: appends one path element as the
/// last child of the document, leaving the attributes as they are.
#[verifier::external_body]
pub(crate) fn svg_document_add_path(
    d: svg::node::element::SVG,
    p: svg::node::element::Path,
) -> (r: svg::node::element::SVG)
    ensures
        doc_paths(r) == doc_paths(d).push(path_attrs(p)),
        doc_attrs(r) == doc_attrs(d),
{
    d.add(p)
}

} // verus!
