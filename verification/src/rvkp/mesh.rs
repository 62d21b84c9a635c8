//! Meshes as the view sees them, and the vertices that the generator emits.

use vstd::prelude::*;

verus! {

/// A mesh vertex at an integer world position.
#[derive(Clone, Copy, Debug, PartialEq, Eq, Structural)]
pub struct RVertex3d {
    pub x: u32,
    pub y: u32,
    pub z: u32,
}

impl RVertex3d {
    pub fn new(x: u32, y: u32, z: u32) -> (v: Self)
        ensures
            v == (RVertex3d { x, y, z }),
    {
        RVertex3d { x, y, z }
    }
}

/// One indexed draw: how many indices to read and how many instances to draw.
#[derive(Clone, Copy, Debug, PartialEq, Eq, Structural)]
pub struct DrawCall {
    /// Number of entries read from the index buffer.
    pub index_count: usize,
    /// Number of instances drawn.
    pub instance_count: usize,
    /// Whether the instance buffer is bound beside the vertex buffer.
    pub instanced: bool,
}

/// A drawable object: for each device buffer that it owns, the number of
/// elements in it. The buffers themselves stay with the rendering backend.
#[derive(Clone, Copy, Debug, PartialEq, Eq, Structural)]
pub struct Mesh {
    /// Vertex count of the vertex buffer, if there is one.
    pub vert_buf: Option<usize>,
    /// Entry count of the index buffer, if there is one.
    pub ind_buf: Option<usize>,
    /// Instance count of the instance buffer, if there is one.
    pub inst_buf: Option<usize>,
}

impl Mesh {
    /// A mesh can be drawn once it has a vertex buffer and an index buffer.
    pub open spec fn drawable(&self) -> bool {
        self.vert_buf is Some && self.ind_buf is Some
    }

    /// The draw that a drawable mesh asks for: all of its indices, and as
    /// many instances as its instance buffer holds, none without one.
    pub open spec fn draw_call(&self) -> DrawCall {
        DrawCall {
            index_count: self.ind_buf->0,
            instance_count: match self.inst_buf {
                Some(n) => n,
                None => 0,
            },
            instanced: self.inst_buf is Some,
        }
    }

    /// A mesh with a vertex buffer of `verts` vertices and an index buffer of
    /// `inds` entries, and no instance buffer.
    pub fn new(verts: usize, inds: usize) -> (m: Self)
        ensures
            m == (Mesh { vert_buf: Some(verts), ind_buf: Some(inds), inst_buf: None }),
    {
        Mesh { vert_buf: Some(verts), ind_buf: Some(inds), inst_buf: None }
    }

    /// The default quad: four vertices, two triangles.
    pub fn quad() -> (m: Self)
        ensures
            m == (Mesh { vert_buf: Some(4), ind_buf: Some(6), inst_buf: None }),
    {
        Mesh { vert_buf: Some(4), ind_buf: Some(6), inst_buf: None }
    }

    /// Replaces the vertex buffer by one of `v` vertices.
    pub fn vertices(self, v: usize) -> (m: Self)
        ensures
            m == (Mesh { vert_buf: Some(v), ..self }),
    {
        Mesh { vert_buf: Some(v), ind_buf: self.ind_buf, inst_buf: self.inst_buf }
    }

    /// Replaces the index buffer by one of `i` entries.
    pub fn indices(self, i: usize) -> (m: Self)
        ensures
            m == (Mesh { ind_buf: Some(i), ..self }),
    {
        Mesh { vert_buf: self.vert_buf, ind_buf: Some(i), inst_buf: self.inst_buf }
    }

    /// Replaces the instance buffer by one of `i` instances.
    pub fn instances(self, i: usize) -> (m: Self)
        ensures
            m == (Mesh { inst_buf: Some(i), ..self }),
    {
        Mesh { vert_buf: self.vert_buf, ind_buf: self.ind_buf, inst_buf: Some(i) }
    }

    /// The draw call for this mesh.
    pub fn draw(&self) -> (call: DrawCall)
        requires
            self.drawable(),
        ensures
            call == self.draw_call(),
    {
        let index_count: usize = match self.ind_buf {
            Some(n) => n,
            None => 0,
        };
        match self.inst_buf {
            Some(n) => DrawCall { index_count, instance_count: n, instanced: true },
            None => DrawCall { index_count, instance_count: 0, instanced: false },
        }
    }
}

} // verus!
