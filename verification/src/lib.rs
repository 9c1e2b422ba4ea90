//! Converts vector path descriptions (a quadratic bezier, a circle, a rounded
//! rectangle, a polygon) into triangulated geometry and renders the triangles
//! as an SVG document with a stroke pass and a fill pass.
//!
//! The pipeline has three stages, composed one way with no feedback:
//! drawing commands are built per shape (`shapes`), the commands are handed to
//! an external tessellator which returns a vertex/index buffer (`lyon_calls`,
//! `tessellate`), and the buffer is rendered as one closed triangle path per
//! triangle in an SVG document (`render`).

pub mod geometry;
pub mod lyon_calls;
pub mod render;
pub mod shapes;
pub mod svg_calls;
pub mod tessellate;
