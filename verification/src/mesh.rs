//! Minimal mesh description: a vertex buffer with its vertex count.

use vstd::prelude::*;

use crate::factory::Buffer;

verus! {

/// A vertex buffer together with the number of vertices it holds.
#[derive(Clone, Copy, PartialEq, Eq, Structural, Debug)]
pub struct Mesh {
    pub buffer: Buffer,
    pub num_vertices: u32,
}

impl Mesh {
    /// Wrap a vertex buffer and its vertex count as a mesh.
    pub fn from_format(buffer: Buffer, num_vertices: u32) -> (r: Mesh)
        ensures
            r.buffer == buffer,
            r.num_vertices == num_vertices,
    {
        Mesh { buffer, num_vertices }
    }
}

} // verus!
