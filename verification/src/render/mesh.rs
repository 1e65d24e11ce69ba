//! Meshes: which ones are accepted, and what is built of them.
use vstd::prelude::*;

use crate::render::RenderError;
use crate::scalar::Float3;
use crate::scalar::Float4;
use crate::scalar::Scalar;
use crate::scene::GeometryRef;
use crate::scene::MeshInstance;

verus! {

/// The least number of scalars per vertex: position, color and normal.
pub const MIN_STRIDE: u32 = 9;

/// A vertex as a mesh holds it, in the mesh's own space.
#[derive(Clone, Copy, Debug, PartialEq, Eq, Structural)]
pub struct RawVertex {
    pub position: Float3,
    pub normal: Float3,
}

/// A vertex in the scene's space: its position transformed, its normal
/// rotated and normalized.
#[derive(Clone, Copy, Debug, PartialEq, Eq, Structural)]
pub struct PlacedVertex {
    pub position: Float3,
    pub normal: Float3,
}

/// What is built of a mesh.
#[derive(Debug, PartialEq, Eq)]
pub struct MeshBuildResult {
    /// The positions, three scalars each, for the acceleration structure.
    pub position_buffer: Vec<Scalar>,
    /// The indices for the acceleration structure.
    pub index_buffer: Option<Vec<u32>>,
    pub triangle_count: u32,
    /// One normal for each vertex, with 0.0 behind it.
    pub vertex_normals: Vec<Float4>,
    /// The indices for the kernel; empty if the vertices come in triangles.
    pub indices_for_kernel: Vec<u32>,
    pub vertex_count: u32,
}

/// Why a mesh is refused, if it is.
pub open spec fn mesh_error(mesh: MeshInstance) -> Option<RenderError> {
    match mesh.geometry {
        GeometryRef::Cached { hash: _ } => Some(RenderError::CachedGeometry),
        GeometryRef::Inline { vertices, indices, stride } => {
            if stride < MIN_STRIDE || vertices@.len() % (stride as nat) != 0 {
                Some(RenderError::InvalidStride { stride, scalars: vertices@.len() as usize })
            } else {
                match indices {
                    Some(list) => if list@.len() % 3 != 0 {
                        Some(RenderError::PartialIndexTriangle { count: list@.len() as usize })
                    } else {
                        None
                    },
                    None => if vertex_count(mesh) % 3 != 0 {
                        Some(
                            RenderError::PartialVertexTriangle {
                                count: vertex_count(mesh) as usize,
                            },
                        )
                    } else {
                        None
                    },
                }
            }
        },
    }
}

/// How many vertices a mesh has.
pub open spec fn vertex_count(mesh: MeshInstance) -> nat {
    match mesh.geometry {
        GeometryRef::Cached { hash: _ } => 0,
        GeometryRef::Inline { vertices, indices: _, stride } => if stride == 0 {
            0
        } else {
            vertices@.len() / (stride as nat)
        },
    }
}

/// How many triangles an accepted mesh has.
pub open spec fn triangle_count(mesh: MeshInstance) -> nat {
    if mesh_indices(mesh) is Some {
        mesh_indices(mesh)->0.len() / 3
    } else {
        vertex_count(mesh) / 3
    }
}

/// The indices of a mesh, if it has them.
pub open spec fn mesh_indices(mesh: MeshInstance) -> Option<Seq<u32>> {
    match mesh.geometry {
        GeometryRef::Cached { hash: _ } => None,
        GeometryRef::Inline { vertices: _, indices, stride: _ } => match indices {
            Some(list) => Some(list@),
            None => None,
        },
    }
}

/// The indices that the kernel gets of a mesh.
pub open spec fn kernel_indices(mesh: MeshInstance) -> Seq<u32> {
    match mesh_indices(mesh) {
        Some(list) => list,
        None => Seq::empty(),
    }
}

/// The vertex that begins at a place among a mesh's scalars.
pub open spec fn vertex_at(scalars: Seq<Scalar>, start: int) -> RawVertex {
    RawVertex {
        position: Float3 { x: scalars[start], y: scalars[start + 1], z: scalars[start + 2] },
        normal: Float3 { x: scalars[start + 6], y: scalars[start + 7], z: scalars[start + 8] },
    }
}

/// The vertices of a mesh.
pub open spec fn raw_vertices(mesh: MeshInstance) -> Seq<RawVertex> {
    match mesh.geometry {
        GeometryRef::Cached { hash: _ } => Seq::empty(),
        GeometryRef::Inline { vertices, indices: _, stride } => Seq::new(
            vertex_count(mesh),
            |i: int| vertex_at(vertices@, i * stride),
        ),
    }
}

/// Three scalars for each position.
pub open spec fn positions(placed: Seq<PlacedVertex>) -> Seq<Scalar>
    decreases placed.len(),
{
    if placed.len() == 0 {
        Seq::empty()
    } else {
        let last = placed.last().position;
        positions(placed.drop_last()).push(last.x).push(last.y).push(last.z)
    }
}

/// A normal for each vertex, with 0.0 behind it.
pub open spec fn normals(placed: Seq<PlacedVertex>) -> Seq<Float4> {
    Seq::new(placed.len(), |i: int| placed[i].normal.extend(Scalar::zero()))
}

impl MeshBuildResult {
    /// Whether this is what is built of a mesh whose vertices were placed.
    pub open spec fn is_built_from(
        self,
        mesh: MeshInstance,
        placed: Seq<PlacedVertex>,
    ) -> bool {
        &&& self.position_buffer@ == positions(placed)
        &&& self.index_buffer is Some <==> mesh_indices(mesh) is Some
        &&& self.index_buffer is Some ==> self.index_buffer->0@ == mesh_indices(mesh)->0
        &&& self.triangle_count == triangle_count(mesh) as u32
        &&& self.vertex_normals@ == normals(placed)
        &&& self.indices_for_kernel@ == kernel_indices(mesh)
        &&& self.vertex_count == vertex_count(mesh) as u32
    }
}

/// Whether a mesh is accepted, and how many vertices it has.
pub fn check_mesh(mesh: &MeshInstance) -> (count: Result<usize, RenderError>)
    ensures
        match count {
            Ok(n) => mesh_error(*mesh) is None && n == vertex_count(*mesh),
            Err(e) => mesh_error(*mesh) == Some(e),
        },
{
    match &mesh.geometry {
        GeometryRef::Cached { hash: _ } => Err(RenderError::CachedGeometry),
        GeometryRef::Inline { vertices, indices, stride } => {
            let step: usize = *stride as usize;
            if *stride < MIN_STRIDE || vertices.len() % step != 0 {
                return Err(
                    RenderError::InvalidStride { stride: *stride, scalars: vertices.len() },
                );
            }
            let count: usize = vertices.len() / step;
            match indices {
                Some(list) => {
                    if list.len() % 3 != 0 {
                        return Err(RenderError::PartialIndexTriangle { count: list.len() });
                    }
                },
                None => {
                    if count % 3 != 0 {
                        return Err(RenderError::PartialVertexTriangle { count });
                    }
                },
            }
            Ok(count)
        },
    }
}

/// The vertices of a mesh, to be placed in the scene.
pub fn mesh_vertices(mesh: &MeshInstance) -> (vertices: Result<Vec<RawVertex>, RenderError>)
    ensures
        match vertices {
            Ok(list) => mesh_error(*mesh) is None && list@ == raw_vertices(*mesh),
            Err(e) => mesh_error(*mesh) == Some(e),
        },
{
    let count: usize = match check_mesh(mesh) {
        Ok(count) => count,
        Err(e) => return Err(e),
    };
    match &mesh.geometry {
        GeometryRef::Cached { hash: _ } => Err(RenderError::CachedGeometry),
        GeometryRef::Inline { vertices, indices: _, stride } => {
            let step: usize = *stride as usize;
            let mut list: Vec<RawVertex> = Vec::new();
            let mut i: usize = 0;
            let mut start: usize = 0;
            let total: usize = vertices.len();
            assert(vertices@.len() == count * step) by {
                vstd::arithmetic::div_mod::lemma_fundamental_div_mod(
                    vertices@.len() as int,
                    step as int,
                );
                assert(count * step == step * count) by (nonlinear_arith);
            }
            while i < count
                invariant
                    mesh.geometry == (GeometryRef::Inline {
                        vertices: *vertices,
                        indices: mesh.geometry->indices,
                        stride: *stride,
                    }),
                    step == *stride,
                    step >= MIN_STRIDE,
                    count == vertex_count(*mesh),
                    vertices@.len() == total == count * step,
                    0 <= i <= count,
                    start == i * step,
                    list@.len() == i,
                    forall|k: int| 0 <= k < i ==> list@[k] == raw_vertices(*mesh)[k],
                decreases count - i,
            {
                assert(start + step <= total) by (nonlinear_arith)
                    requires
                        start == i * step,
                        i < count,
                        total == count * step,
                ;
                list.push(
                    RawVertex {
                        position: Float3 {
                            x: vertices[start],
                            y: vertices[start + 1],
                            z: vertices[start + 2],
                        },
                        normal: Float3 {
                            x: vertices[start + 6],
                            y: vertices[start + 7],
                            z: vertices[start + 8],
                        },
                    },
                );
                assert(start + step == (i + 1) * step) by (nonlinear_arith)
                    requires
                        start == i * step,
                ;
                start = start + step;
                i = i + 1;
            }
            assert(list@ =~= raw_vertices(*mesh));
            Ok(list)
        },
    }
}

fn copy_indices(list: &Vec<u32>) -> (copy: Vec<u32>)
    ensures
        copy@ == list@,
{
    let mut copy: Vec<u32> = Vec::new();
    let mut i: usize = 0;
    while i < list.len()
        invariant
            0 <= i <= list@.len(),
            copy@ == list@.take(i as int),
        decreases list@.len() - i,
    {
        copy.push(list[i]);
        i = i + 1;
        assert(copy@ =~= list@.take(i as int));
    }
    assert(list@.take(i as int) =~= list@);
    copy
}

/// Builds a mesh of its placed vertices, of which there is one for each of
/// [`mesh_vertices`].
pub fn build_mesh_buffers(mesh: &MeshInstance, placed: &Vec<PlacedVertex>) -> (built: Result<
    MeshBuildResult,
    RenderError,
>)
    requires
        mesh_error(*mesh) is None ==> placed@.len() == vertex_count(*mesh),
    ensures
        match built {
            Ok(result) => mesh_error(*mesh) is None && result.is_built_from(*mesh, placed@),
            Err(e) => mesh_error(*mesh) == Some(e),
        },
{
    let count: usize = match check_mesh(mesh) {
        Ok(count) => count,
        Err(e) => return Err(e),
    };
    let mut position_buffer: Vec<Scalar> = Vec::new();
    let mut vertex_normals: Vec<Float4> = Vec::new();
    let mut i: usize = 0;
    while i < placed.len()
        invariant
            0 <= i <= placed@.len(),
            position_buffer@ == positions(placed@.take(i as int)),
            vertex_normals@ == normals(placed@.take(i as int)),
        decreases placed@.len() - i,
    {
        let vertex: PlacedVertex = placed[i];
        assert(placed@.take(i + 1).drop_last() =~= placed@.take(i as int));
        position_buffer.push(vertex.position.x);
        position_buffer.push(vertex.position.y);
        position_buffer.push(vertex.position.z);
        vertex_normals.push(vertex.normal.extend(Scalar::zero()));
        i = i + 1;
        assert(vertex_normals@ =~= normals(placed@.take(i as int)));
    }
    assert(placed@.take(i as int) =~= placed@);
    match &mesh.geometry {
        GeometryRef::Cached { hash: _ } => Err(RenderError::CachedGeometry),
        GeometryRef::Inline { vertices: _, indices, stride: _ } => {
            match indices {
                Some(list) => Ok(
                    MeshBuildResult {
                        position_buffer,
                        index_buffer: Some(copy_indices(list)),
                        triangle_count: (list.len() / 3) as u32,
                        vertex_normals,
                        indices_for_kernel: copy_indices(list),
                        vertex_count: count as u32,
                    },
                ),
                None => Ok(
                    MeshBuildResult {
                        position_buffer,
                        index_buffer: None,
                        triangle_count: (count / 3) as u32,
                        vertex_normals,
                        indices_for_kernel: Vec::new(),
                        vertex_count: count as u32,
                    },
                ),
            }
        },
    }
}

/// An accepted mesh's scalars are exactly its vertices', and every vertex
/// lies within them.
pub proof fn lemma_vertex_within_mesh(mesh: MeshInstance, i: int)
    requires
        mesh_error(mesh) is None,
        0 <= i < vertex_count(mesh),
    ensures
        mesh.geometry is Inline,
        mesh.geometry->vertices@.len() == vertex_count(mesh) * mesh.geometry->stride,
        0 <= i * mesh.geometry->stride,
        i * mesh.geometry->stride + MIN_STRIDE <= mesh.geometry->vertices@.len(),
{
    let total = mesh.geometry->vertices@.len() as int;
    let stride = mesh.geometry->stride as int;
    vstd::arithmetic::div_mod::lemma_fundamental_div_mod(total, stride);
    let count = vertex_count(mesh) as int;
    assert(count * stride == stride * count) by (nonlinear_arith);
    assert(0 <= i * stride && i * stride + stride <= count * stride) by (nonlinear_arith)
        requires
            0 <= i < count,
            stride >= 9,
    ;
}

/// The place of a vertex's position in the position buffer.
pub proof fn lemma_position_lookup(placed: Seq<PlacedVertex>, i: int)
    requires
        0 <= i < placed.len(),
    ensures
        positions(placed).len() == 3 * placed.len(),
        positions(placed)[3 * i] == placed[i].position.x,
        positions(placed)[3 * i + 1] == placed[i].position.y,
        positions(placed)[3 * i + 2] == placed[i].position.z,
    decreases placed.len(),
{
    if placed.len() > 1 {
        if i < placed.len() - 1 {
            lemma_position_lookup(placed.drop_last(), i);
        } else {
            lemma_position_lookup(placed.drop_last(), 0);
        }
    } else {
        assert(positions(placed.drop_last()).len() == 0);
    }
}

/// A mesh is accepted if and only if it brings its own data, each vertex has a
/// position, a color and a normal, the vertices fill the data, and its indices,
/// or without them its vertices, make up whole triangles.
pub proof fn lemma_accepted_meshes(mesh: MeshInstance)
    ensures
        mesh_error(mesh) is None <==> {
            &&& mesh.geometry is Inline
            &&& mesh.geometry->stride >= 9
            &&& mesh.geometry->vertices@.len() % (mesh.geometry->stride as nat) == 0
            &&& match mesh.geometry->indices {
                Some(list) => list@.len() % 3 == 0,
                None => mesh.geometry->vertices@.len() / (mesh.geometry->stride as nat) % 3 == 0,
            }
        },
{
}

/// The first thing that is wrong with a mesh is why it is refused, and the
/// error tells the numbers that do not go together.
pub proof fn lemma_refused_meshes(mesh: MeshInstance)
    ensures
        mesh.geometry is Cached <==> mesh_error(mesh) == Some(RenderError::CachedGeometry),
        mesh.geometry matches GeometryRef::Inline { vertices, indices, stride } ==> {
            let total = vertices@.len();
            let whole = stride >= 9 && total % (stride as nat) == 0;
            &&& !whole ==> mesh_error(mesh) == Some(
                RenderError::InvalidStride { stride, scalars: total as usize },
            )
            &&& whole && indices is Some && indices->0@.len() % 3 != 0 ==> mesh_error(mesh) == Some(
                RenderError::PartialIndexTriangle { count: indices->0@.len() as usize },
            )
            &&& whole && indices is None && total / (stride as nat) % 3 != 0 ==> mesh_error(mesh)
                == Some(
                RenderError::PartialVertexTriangle { count: (total / (stride as nat)) as usize },
            )
        },
{
}

/// A vertex's position is the first three of its scalars, and its normal the
/// three behind the color. Its scalars stand behind those of the vertices
/// before it.
pub proof fn lemma_vertex_scalars(mesh: MeshInstance, i: int)
    requires
        mesh_error(mesh) is None,
        0 <= i < raw_vertices(mesh).len(),
    ensures
        raw_vertices(mesh).len() * mesh.geometry->stride == mesh.geometry->vertices@.len(),
        ({
            let scalars = mesh.geometry->vertices@;
            let start = i * mesh.geometry->stride;
            let vertex = raw_vertices(mesh)[i];
            &&& vertex.position.x == scalars[start]
            &&& vertex.position.y == scalars[start + 1]
            &&& vertex.position.z == scalars[start + 2]
            &&& vertex.normal.x == scalars[start + 6]
            &&& vertex.normal.y == scalars[start + 7]
            &&& vertex.normal.z == scalars[start + 8]
        }),
{
    lemma_vertex_within_mesh(mesh, i);
}

/// Three corners make a triangle: every index is a corner, or every vertex
/// where there are no indices, and none is left over.
pub proof fn lemma_triangles_use_all_corners(mesh: MeshInstance)
    requires
        mesh_error(mesh) is None,
    ensures
        mesh.geometry->indices is Some ==> 3 * triangle_count(mesh)
            == mesh.geometry->indices->0@.len(),
        mesh.geometry->indices is None ==> 3 * triangle_count(mesh) * mesh.geometry->stride
            == mesh.geometry->vertices@.len(),
        vertex_count(mesh) * mesh.geometry->stride == mesh.geometry->vertices@.len(),
{
    let total = mesh.geometry->vertices@.len() as int;
    let stride = mesh.geometry->stride as int;
    vstd::arithmetic::div_mod::lemma_fundamental_div_mod(total, stride);
    let count = vertex_count(mesh) as int;
    assert(count * stride == stride * count) by (nonlinear_arith);
}

/// The indices of a mesh reach the acceleration structure and the kernel as
/// the mesh has them.
pub proof fn lemma_indices_are_passed_on(mesh: MeshInstance)
    requires
        mesh.geometry is Inline,
    ensures
        mesh.geometry->indices is Some <==> mesh_indices(mesh) is Some,
        mesh.geometry->indices matches Some(list) ==> mesh_indices(mesh)->0 == list@
            && kernel_indices(mesh) == list@,
        mesh.geometry->indices is None ==> kernel_indices(mesh).len() == 0,
{
}

/// Each vertex has its own normal in the buffer of normals.
pub proof fn lemma_normal_lookup(placed: Seq<PlacedVertex>, i: int)
    requires
        0 <= i < placed.len(),
    ensures
        normals(placed).len() == placed.len(),
        normals(placed)[i].x == placed[i].normal.x,
        normals(placed)[i].y == placed[i].normal.y,
        normals(placed)[i].z == placed[i].normal.z,
        normals(placed)[i].w.bits == 0,
{
}

/// What is built of a mesh holds each vertex's placed position and normal and
/// the mesh's own indices, as long as its triangles and vertices can be counted
/// in 32 bits.
pub proof fn lemma_built_mesh(
    built: MeshBuildResult,
    mesh: MeshInstance,
    placed: Seq<PlacedVertex>,
    i: int,
)
    requires
        mesh_error(mesh) is None,
        built.is_built_from(mesh, placed),
        placed.len() == vertex_count(mesh),
        placed.len() <= u32::MAX,
        triangle_count(mesh) <= u32::MAX,
        0 <= i < placed.len(),
    ensures
        built.position_buffer@.len() == 3 * placed.len(),
        built.position_buffer@[3 * i] == placed[i].position.x,
        built.position_buffer@[3 * i + 1] == placed[i].position.y,
        built.position_buffer@[3 * i + 2] == placed[i].position.z,
        built.vertex_normals@.len() == placed.len(),
        built.vertex_normals@[i].x == placed[i].normal.x,
        built.vertex_normals@[i].y == placed[i].normal.y,
        built.vertex_normals@[i].z == placed[i].normal.z,
        built.vertex_normals@[i].w.bits == 0,
        built.vertex_count == placed.len(),
        mesh.geometry->indices matches Some(list) ==> {
            &&& built.index_buffer is Some
            &&& built.index_buffer->0@ == list@
            &&& built.indices_for_kernel@ == list@
            &&& 3 * built.triangle_count == list@.len()
        },
        mesh.geometry->indices is None ==> {
            &&& built.index_buffer is None
            &&& built.indices_for_kernel@.len() == 0
            &&& 3 * built.triangle_count == placed.len()
        },
{
    lemma_position_lookup(placed, i);
}

} // verus!
