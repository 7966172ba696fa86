//! Meshes: primitive topology, buffer sizes and the draw call that renders them.
use vstd::prelude::*;

verus! {

/// `GL_POINTS` in the Khronos registry.
pub const GL_POINTS: u32 = 0x0000;

/// `GL_LINES` in the Khronos registry.
pub const GL_LINES: u32 = 0x0001;

/// `GL_TRIANGLES` in the Khronos registry.
pub const GL_TRIANGLES: u32 = 0x0004;

/// `GL_QUADS` in the Khronos registry (compatibility profile).
pub const GL_QUADS: u32 = 0x0007;

/// Represents all the drawable primitives that can be rendered to the screen.
#[derive(Clone, Copy, Debug, PartialEq, Eq, Structural)]
pub enum PrimitiveType {
    Points,
    Lines,
    Triangles,
    Quads,
}

/// The OpenGL drawing mode of each primitive type.
pub open spec fn gl_mode(p: PrimitiveType) -> u32 {
    match p {
        PrimitiveType::Points => GL_POINTS,
        PrimitiveType::Lines => GL_LINES,
        PrimitiveType::Triangles => GL_TRIANGLES,
        PrimitiveType::Quads => GL_QUADS,
    }
}

impl PrimitiveType {
    /// The OpenGL constant naming this primitive's drawing mode.
    pub fn to_gl_const(&self) -> (r: u32)
        ensures
            r == gl_mode(*self),
    {
        match *self {
            PrimitiveType::Points => GL_POINTS,
            PrimitiveType::Lines => GL_LINES,
            PrimitiveType::Triangles => GL_TRIANGLES,
            PrimitiveType::Quads => GL_QUADS,
        }
    }
}


/// Bytes in one vertex component, a 32 bit float.
pub const FLOAT_BYTES: usize = 4;

/// Bytes in one index, a 32 bit unsigned integer.
pub const INDEX_BYTES: usize = 4;

/// Number of attributes of a vertex.
pub const ATTRIBUTE_COUNT: usize = 3;

/// Components of each vertex attribute, in memory order: the position
/// (x, y, z), the color (r, g, b, a) and the texture coordinates (u, v).
pub open spec fn attribute_components() -> Seq<int> {
    seq![3, 4, 2]
}

/// Byte offset of attribute `i` in a vertex: the attributes lie packed one
/// after another, without padding.
pub open spec fn packed_offset(i: nat) -> int
    decreases i,
{
    if i == 0 {
        0
    } else {
        packed_offset((i - 1) as nat) + FLOAT_BYTES * attribute_components()[i - 1]
    }
}

/// Bytes from one vertex to the next: the whole packed vertex.
pub open spec fn vertex_stride() -> int {
    packed_offset(ATTRIBUTE_COUNT as nat)
}

/// Bytes in one vertex.
pub const VERTEX_BYTES: usize = 36;

/// Where one vertex attribute lies in the vertex buffer.
#[derive(Clone, Copy, Debug, PartialEq, Eq, Structural)]
pub struct VertexAttribute {
    /// The attribute's location in the shader.
    pub index: u32,
    /// Number of float components.
    pub components: i32,
    /// Byte offset inside a vertex.
    pub offset: usize,
}

/// The attributes of a vertex, with the stride `VERTEX_BYTES` between
/// vertices.
pub fn vertex_attributes() -> (r: Vec<VertexAttribute>)
    ensures
        r@.len() == ATTRIBUTE_COUNT,
        VERTEX_BYTES == vertex_stride(),
        forall|i: int|
            0 <= i < ATTRIBUTE_COUNT ==> {
                &&& r@[i].index == i
                &&& r@[i].components == attribute_components()[i]
                &&& r@[i].offset == packed_offset(i as nat)
            },
{
    reveal_with_fuel(packed_offset, 4);
    let mut r: Vec<VertexAttribute> = Vec::new();
    r.push(VertexAttribute { index: 0, components: 3, offset: 0 });
    r.push(VertexAttribute { index: 1, components: 4, offset: 3 * FLOAT_BYTES });
    r.push(VertexAttribute { index: 2, components: 2, offset: (3 + 4) * FLOAT_BYTES });
    r
}

/// What a mesh's buffers hold and how many elements a draw call takes.
pub ghost struct MeshPlan {
    /// Size of the vertex buffer in bytes.
    pub vertex_bytes: int,
    /// Size of the index buffer in bytes, where the mesh has indices.
    pub index_bytes: Option<int>,
    /// Elements that one draw call renders.
    pub count: int,
}

/// The plan of a mesh of `vertex_count` vertices and, where it has them,
/// `index_count` indices: the elements drawn are the indices if there are
/// any, the vertices otherwise.
pub open spec fn mesh_plan(vertex_count: nat, index_count: Option<nat>) -> MeshPlan {
    MeshPlan {
        vertex_bytes: VERTEX_BYTES * vertex_count,
        index_bytes: match index_count {
            Some(n) => Some(INDEX_BYTES * n),
            None => None,
        },
        count: match index_count {
            Some(n) => n as int,
            None => vertex_count as int,
        },
    }
}

/// An optional count, as a natural number.
pub open spec fn count_of(n: Option<usize>) -> Option<nat> {
    match n {
        Some(n) => Some(n as nat),
        None => None,
    }
}

/// Whether OpenGL can take the plan: buffer sizes fit a `GLsizeiptr` and
/// the element count fits a `GLsizei`.
pub open spec fn plan_fits(p: MeshPlan) -> bool {
    &&& p.vertex_bytes <= isize::MAX
    &&& (p.index_bytes matches Some(b) ==> b <= isize::MAX)
    &&& p.count <= i32::MAX
}

/// Buffer sizes and element count of a mesh, worked out before its data is
/// uploaded.
pub struct MeshLayout {
    vertex_bytes: isize,
    index_bytes: Option<isize>,
    count: i32,
}

impl View for MeshLayout {
    type V = MeshPlan;

    closed spec fn view(&self) -> MeshPlan {
        MeshPlan {
            vertex_bytes: self.vertex_bytes as int,
            index_bytes: match self.index_bytes {
                Some(b) => Some(b as int),
                None => None,
            },
            count: self.count as int,
        }
    }
}

impl MeshLayout {
    #[verifier::type_invariant]
    spec fn sizes_not_negative(&self) -> bool {
        &&& self.vertex_bytes >= 0
        &&& (self.index_bytes matches Some(b) ==> b >= 0)
        &&& self.count >= 0
    }

    /// Lay out a mesh of `vertex_count` vertices and, optionally,
    /// `index_count` indices; `None` where OpenGL cannot take its sizes.
    pub fn plan(vertex_count: usize, index_count: Option<usize>) -> (r: Option<MeshLayout>)
        ensures
            r is Some <==> plan_fits(mesh_plan(vertex_count as nat, count_of(index_count))),
            r is Some ==> r->Some_0@ == mesh_plan(vertex_count as nat, count_of(index_count)),
    {
        if vertex_count > (isize::MAX as usize) / VERTEX_BYTES {
            return None;
        }
        let vertex_bytes = (vertex_count * VERTEX_BYTES) as isize;
        match index_count {
            Some(n) => {
                if n > (isize::MAX as usize) / INDEX_BYTES || n > i32::MAX as usize {
                    return None;
                }
                Some(MeshLayout {
                    vertex_bytes,
                    index_bytes: Some((n * INDEX_BYTES) as isize),
                    count: n as i32,
                })
            },
            None => {
                if vertex_count > i32::MAX as usize {
                    return None;
                }
                Some(MeshLayout { vertex_bytes, index_bytes: None, count: vertex_count as i32 })
            },
        }
    }

    /// Size of the vertex buffer in bytes.
    pub fn vertex_bytes(&self) -> (r: isize)
        ensures
            r == self@.vertex_bytes,
            r >= 0,
    {
        proof {
            use_type_invariant(self);
        }
        self.vertex_bytes
    }

    /// Size of the index buffer in bytes, where the mesh has indices.
    pub fn index_bytes(&self) -> (r: Option<isize>)
        ensures
            r is Some <==> self@.index_bytes is Some,
            r matches Some(b) ==> b == self@.index_bytes->Some_0 && b >= 0,
    {
        proof {
            use_type_invariant(self);
        }
        self.index_bytes
    }
}

/// What a mesh holds: its primitive, its element count and the names of
/// its vertex buffer and, where it has one, its index buffer.
pub ghost struct MeshState {
    pub primitive: PrimitiveType,
    pub count: i32,
    pub vbo: u32,
    pub ibo: Option<u32>,
}

/// The draw call that renders a mesh.
#[derive(Clone, Copy, Debug, PartialEq, Eq, Structural)]
pub enum DrawCall {
    /// Draw `count` elements through the index buffer `ibo`.
    Elements { mode: u32, count: i32, ibo: u32 },
    /// Draw `count` vertices in order, from the vertex `first`.
    Arrays { mode: u32, first: i32, count: i32 },
}

/// A mesh with an index buffer draws through it; one without draws its
/// vertices in order from the first.
pub open spec fn draw_call_of(m: MeshState) -> DrawCall {
    match m.ibo {
        Some(ibo) => DrawCall::Elements { mode: gl_mode(m.primitive), count: m.count, ibo },
        None => DrawCall::Arrays { mode: gl_mode(m.primitive), first: 0, count: m.count },
    }
}

/// Represents a renderable 3D object whose buffers are on the graphics card.
pub struct Mesh {
    primitive: PrimitiveType,
    count: i32,
    vbo: u32,
    ibo: Option<u32>,
}

impl View for Mesh {
    type V = MeshState;

    closed spec fn view(&self) -> MeshState {
        MeshState { primitive: self.primitive, count: self.count, vbo: self.vbo, ibo: self.ibo }
    }
}

impl Mesh {
    #[verifier::type_invariant]
    spec fn count_not_negative(&self) -> bool {
        self.count >= 0
    }

    /// A mesh of primitive `p` over the vertex buffer `vbo` and, where the
    /// layout has indices, the index buffer `ibo`, both uploaded as
    /// `layout` says.
    pub fn from_buffers(p: PrimitiveType, layout: &MeshLayout, vbo: u32, ibo: Option<u32>) -> (r:
        Mesh)
        requires
            ibo is Some <==> layout@.index_bytes is Some,
        ensures
            r@ == (MeshState { primitive: p, count: layout@.count as i32, vbo, ibo }),
            r@.count == layout@.count,
    {
        proof {
            use_type_invariant(layout);
        }
        Mesh { primitive: p, count: layout.count, vbo, ibo }
    }

    /// The primitive that the mesh is drawn with.
    pub fn primitive(&self) -> (r: PrimitiveType)
        ensures
            r == self@.primitive,
    {
        self.primitive
    }

    /// The name of the vertex buffer.
    pub fn vbo(&self) -> (r: u32)
        ensures
            r == self@.vbo,
    {
        self.vbo
    }

    /// The draw call that renders the mesh.
    pub fn draw_call(&self) -> (r: DrawCall)
        ensures
            r == draw_call_of(self@),
            r matches DrawCall::Elements { count, .. } ==> count >= 0,
            r matches DrawCall::Arrays { count, .. } ==> count >= 0,
    {
        proof {
            use_type_invariant(self);
        }
        let mode = self.primitive.to_gl_const();
        match self.ibo {
            Some(ibo) => DrawCall::Elements { mode, count: self.count, ibo },
            None => DrawCall::Arrays { mode, first: 0, count: self.count },
        }
    }
}

} // verus!
