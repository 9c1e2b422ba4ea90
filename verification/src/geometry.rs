//! The geometry buffer: the vertex sequence and triangle index list produced
//! by one tessellation pass.
//!
//! A vertex is a 2D position; it is carried here as the decimal text of its
//! two coordinates, exactly as the position is later written into the SVG
//! path data. Triangles are three indices into the vertex sequence, grouped
//! consecutively in threes within the flat index list.

use vstd::prelude::*;

verus! {

/// One tessellation output vertex: the decimal text of its two coordinates.
#[derive(Clone, Debug)]
pub struct Vertex {
    pub x: String,
    pub y: String,
}

/// The model of a vertex: the two coordinate texts.
pub ghost struct VertexModel {
    pub x: Seq<char>,
    pub y: Seq<char>,
}

impl View for Vertex {
    type V = VertexModel;

    open spec fn view(&self) -> VertexModel {
        VertexModel { x: self.x@, y: self.y@ }
    }
}

/// The pairing of a vertex sequence and a triangle index list, produced by
/// one tessellation pass over one path.
#[derive(Clone, Debug)]
pub struct GeometryBuffer {
    pub vertices: Vec<Vertex>,
    pub indices: Vec<usize>,
}

/// The model of a geometry buffer.
pub ghost struct GeometryModel {
    pub vertices: Seq<VertexModel>,
    pub indices: Seq<int>,
}

impl GeometryModel {
    /// The number of triangles the index list describes.
    pub open spec fn triangle_count(self) -> int {
        self.indices.len() as int / 3
    }

    /// Well-formedness: the index list length is a multiple of 3, and every
    /// index refers into the vertex sequence.
    pub open spec fn wf(self) -> bool {
        &&& self.indices.len() % 3 == 0
        &&& forall|i: int|
            0 <= i < self.indices.len() ==> 0 <= #[trigger] self.indices[i] < self.vertices.len()
    }
}

impl View for GeometryBuffer {
    type V = GeometryModel;

    open spec fn view(&self) -> GeometryModel {
        GeometryModel {
            vertices: self.vertices@.map_values(|v: Vertex| v@),
            indices: self.indices@.map_values(|i: usize| i as int),
        }
    }
}

/// No out-of-bounds references: in a well-formed geometry buffer, every
/// entry of the index list is strictly less than the vertex count.
pub proof fn lemma_indices_in_bounds(g: GeometryModel, i: int)
    requires
        g.wf(),
        0 <= i < g.indices.len(),
    ensures
        0 <= g.indices[i] < g.vertices.len(),
{
}

impl GeometryBuffer {
    /// Decides well-formedness: whether the index list length is a multiple
    /// of 3 and every index is strictly less than the vertex count.
    pub fn is_well_formed(&self) -> (r: bool)
        ensures
            r == self@.wf(),
    {
        if self.indices.len() % 3 != 0 {
            return false;
        }
        let n = self.indices.len();
        let mut i: usize = 0;
        while i < n
            invariant
                0 <= i <= n,
                n == self@.indices.len(),
                self@.indices.len() % 3 == 0,
                forall|j: int| 0 <= j < i ==> 0 <= #[trigger] self@.indices[j] < self@.vertices.len(),
            decreases n - i,
        {
            if self.indices[i] >= self.vertices.len() {
                proof {
                    assert(self@.indices[i as int] == self.indices@[i as int] as int);
                    assert(self@.vertices.len() == self.vertices@.len());
                    assert(!self@.wf());
                }
                return false;
            }
            i += 1;
        }
        true
    }
}

} // verus!
