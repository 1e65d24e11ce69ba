//! What all meshes of a scene upload together: the geometry of the
//! acceleration structure, and the buffers that the meshes share.
use vstd::prelude::*;

use crate::render::mesh::build_mesh_buffers;
use crate::render::mesh::kernel_indices;
use crate::render::mesh::mesh_error;
use crate::render::mesh::mesh_indices;
use crate::render::mesh::normals;
use crate::render::mesh::positions;
use crate::render::mesh::triangle_count;
use crate::render::mesh::vertex_count;
use crate::render::mesh::MeshBuildResult;
use crate::render::mesh::PlacedVertex;
use crate::render::uniforms::material_to_uniform;
use crate::render::uniforms::material_uniform;
use crate::render::uniforms::GeomOffset;
use crate::render::uniforms::MaterialUniform;
use crate::render::RenderError;
use crate::scalar::Float4;
use crate::scalar::Scalar;
use crate::scene::MeshInstance;

verus! {

/// A mesh in the acceleration structure. The structure refers to these
/// buffers, so they live as long as it does.
#[derive(Debug, PartialEq, Eq)]
pub struct Geometry {
    /// Three scalars for each vertex.
    pub positions: Vec<Scalar>,
    pub indices: Option<Vec<u32>>,
    pub triangle_count: u32,
}

/// A mesh in the acceleration structure, as a value of the specification.
#[verifier::ext_equal]
pub struct GeometryView {
    pub positions: Seq<Scalar>,
    pub indices: Option<Seq<u32>>,
    pub triangle_count: u32,
}

impl View for Geometry {
    type V = GeometryView;

    open spec fn view(&self) -> GeometryView {
        GeometryView {
            positions: self.positions@,
            indices: match self.indices {
                Some(list) => Some(list@),
                None => None,
            },
            triangle_count: self.triangle_count,
        }
    }
}

/// Why a list of meshes is refused: the first refused mesh says why.
pub open spec fn first_error(meshes: Seq<MeshInstance>) -> Option<RenderError>
    decreases meshes.len(),
{
    if meshes.len() == 0 {
        None
    } else {
        match first_error(meshes.drop_last()) {
            Some(e) => Some(e),
            None => mesh_error(meshes.last()),
        }
    }
}

/// The normals of all meshes, one mesh behind the other.
pub open spec fn all_normals(placed: Seq<Vec<PlacedVertex>>) -> Seq<Float4>
    decreases placed.len(),
{
    if placed.len() == 0 {
        Seq::empty()
    } else {
        all_normals(placed.drop_last()) + normals(placed.last()@)
    }
}

/// The indices of all meshes, one mesh behind the other.
pub open spec fn all_indices(meshes: Seq<MeshInstance>) -> Seq<u32>
    decreases meshes.len(),
{
    if meshes.len() == 0 {
        Seq::empty()
    } else {
        all_indices(meshes.drop_last()) + kernel_indices(meshes.last())
    }
}

/// The materials of all meshes.
pub open spec fn all_materials(meshes: Seq<MeshInstance>) -> Seq<MaterialUniform> {
    Seq::new(meshes.len(), |i: int| material_uniform(meshes[i].material))
}

/// Where a mesh's normals and indices begin.
pub open spec fn offset_of(
    meshes: Seq<MeshInstance>,
    placed: Seq<Vec<PlacedVertex>>,
    i: int,
) -> GeomOffset {
    GeomOffset {
        vertex_offset: all_normals(placed.take(i)).len() as u32,
        index_offset: all_indices(meshes.take(i)).len() as u32,
        is_indexed: if kernel_indices(meshes[i]).len() == 0 {
            0
        } else {
            1
        },
        pad: 0,
    }
}

/// Where each mesh's normals and indices begin.
pub open spec fn all_offsets(
    meshes: Seq<MeshInstance>,
    placed: Seq<Vec<PlacedVertex>>,
) -> Seq<GeomOffset> {
    Seq::new(meshes.len(), |i: int| offset_of(meshes, placed, i))
}

/// A mesh in the acceleration structure.
pub open spec fn geometry_of(mesh: MeshInstance, placed: Seq<PlacedVertex>) -> GeometryView {
    GeometryView {
        positions: positions(placed),
        indices: mesh_indices(mesh),
        triangle_count: triangle_count(mesh) as u32,
    }
}

/// All meshes in the acceleration structure.
pub open spec fn all_geometry(
    meshes: Seq<MeshInstance>,
    placed: Seq<Vec<PlacedVertex>>,
) -> Seq<GeometryView> {
    Seq::new(meshes.len(), |i: int| geometry_of(meshes[i], placed[i]@))
}

/// What all meshes together upload.
pub(crate) struct SceneData {
    pub geometry: Vec<Geometry>,
    pub materials: Vec<MaterialUniform>,
    pub offsets: Vec<GeomOffset>,
    pub normals: Vec<Float4>,
    pub indices: Vec<u32>,
}

/// Builds all meshes and joins what they upload.
pub(crate) fn collect_meshes(
    meshes: &Vec<MeshInstance>,
    placed: &Vec<Vec<PlacedVertex>>,
) -> (data: Result<SceneData, RenderError>)
    requires
        placed@.len() == meshes@.len(),
        forall|i: int|
            0 <= i < meshes@.len() && mesh_error(#[trigger] meshes@[i]) is None
                ==> placed@[i]@.len() == vertex_count(meshes@[i]),
    ensures
        match data {
            Ok(data) => {
                &&& first_error(meshes@) is None
                &&& geometry_views(data.geometry@) == all_geometry(meshes@, placed@)
                &&& data.materials@ == all_materials(meshes@)
                &&& data.offsets@ == all_offsets(meshes@, placed@)
                &&& data.normals@ == all_normals(placed@)
                &&& data.indices@ == all_indices(meshes@)
            },
            Err(e) => first_error(meshes@) == Some(e),
        },
{
    let mut geometry: Vec<Geometry> = Vec::new();
    let mut materials: Vec<MaterialUniform> = Vec::new();
    let mut offsets: Vec<GeomOffset> = Vec::new();
    let mut global_normals: Vec<Float4> = Vec::new();
    let mut global_indices: Vec<u32> = Vec::new();
    let mut i: usize = 0;
    while i < meshes.len()
        invariant
            placed@.len() == meshes@.len(),
            forall|k: int|
                0 <= k < meshes@.len() && mesh_error(#[trigger] meshes@[k]) is None
                    ==> placed@[k]@.len() == vertex_count(meshes@[k]),
            0 <= i <= meshes@.len(),
            first_error(meshes@.take(i as int)) is None,
            geometry@.len() == i,
            forall|k: int|
                0 <= k < i ==> #[trigger] geometry@[k]@ == geometry_of(meshes@[k], placed@[k]@),
            materials@.len() == i,
            forall|k: int|
                0 <= k < i ==> #[trigger] materials@[k] == material_uniform(meshes@[k].material),
            offsets@.len() == i,
            forall|k: int|
                0 <= k < i ==> #[trigger] offsets@[k] == offset_of(meshes@, placed@, k),
            global_normals@ == all_normals(placed@.take(i as int)),
            global_indices@ == all_indices(meshes@.take(i as int)),
        decreases meshes@.len() - i,
    {
        proof {
            assert(meshes@.take(i + 1).drop_last() =~= meshes@.take(i as int));
            assert(placed@.take(i + 1).drop_last() =~= placed@.take(i as int));
        }
        let built: MeshBuildResult = match build_mesh_buffers(&meshes[i], &placed[i]) {
            Ok(built) => built,
            Err(e) => {
                proof {
                    lemma_first_error_is_kept(meshes@, i + 1);
                }
                return Err(e);
            },
        };
        offsets.push(
            GeomOffset {
                vertex_offset: global_normals.len() as u32,
                index_offset: global_indices.len() as u32,
                is_indexed: if built.indices_for_kernel.len() == 0 {
                    0
                } else {
                    1
                },
                pad: 0,
            },
        );
        let mut mesh_normals = built.vertex_normals;
        let mut mesh_kernel_indices = built.indices_for_kernel;
        global_normals.append(&mut mesh_normals);
        global_indices.append(&mut mesh_kernel_indices);
        geometry.push(
            Geometry {
                positions: built.position_buffer,
                indices: built.index_buffer,
                triangle_count: built.triangle_count,
            },
        );
        assert(geometry@[i as int]@ =~= geometry_of(meshes@[i as int], placed@[i as int]@));
        materials.push(material_to_uniform(&meshes[i].material));
        i = i + 1;
    }
    proof {
        assert(meshes@.take(i as int) =~= meshes@);
        assert(placed@.take(i as int) =~= placed@);
        assert(geometry_views(geometry@) =~= all_geometry(meshes@, placed@));
        assert(materials@ =~= all_materials(meshes@));
        assert(offsets@ =~= all_offsets(meshes@, placed@));
    }
    Ok(
        SceneData {
            geometry,
            materials,
            offsets,
            normals: global_normals,
            indices: global_indices,
        },
    )
}

/// An error among the first meshes is the first error of all.
proof fn lemma_first_error_is_kept(meshes: Seq<MeshInstance>, n: int)
    requires
        0 <= n <= meshes.len(),
        first_error(meshes.take(n)) is Some,
    ensures
        first_error(meshes) == first_error(meshes.take(n)),
    decreases meshes.len() - n,
{
    if n == meshes.len() {
        assert(meshes.take(n) =~= meshes);
    } else {
        assert(meshes.take(n + 1).drop_last() =~= meshes.take(n));
        lemma_first_error_is_kept(meshes, n + 1);
    }
}

/// The meshes in an acceleration structure, as values of the specification.
pub open spec fn geometry_views(geometry: Seq<Geometry>) -> Seq<GeometryView> {
    Seq::new(geometry.len(), |i: int| geometry[i]@)
}

/// A list of meshes is accepted if and only if each of them is.
pub proof fn lemma_first_error_covers_all(meshes: Seq<MeshInstance>)
    ensures
        first_error(meshes) is None <==> forall|i: int|
            0 <= i < meshes.len() ==> mesh_error(#[trigger] meshes[i]) is None,
    decreases meshes.len(),
{
    if meshes.len() > 0 {
        lemma_first_error_covers_all(meshes.drop_last());
        assert(forall|i: int|
            0 <= i < meshes.len() - 1 ==> #[trigger] meshes.drop_last()[i] == meshes[i]);
        if first_error(meshes) is None {
            assert forall|i: int| 0 <= i < meshes.len() implies mesh_error(
                #[trigger] meshes[i],
            ) is None by {
                if i < meshes.len() - 1 {
                    assert(meshes.drop_last()[i] == meshes[i]);
                }
            }
        } else if forall|i: int|
            0 <= i < meshes.len() ==> mesh_error(#[trigger] meshes[i]) is None {
            assert(mesh_error(meshes[meshes.len() - 1]) is None);
            assert forall|i: int| 0 <= i < meshes.len() - 1 implies mesh_error(
                #[trigger] meshes.drop_last()[i],
            ) is None by {
                assert(meshes.drop_last()[i] == meshes[i]);
            }
        }
    }
}

/// The error of a list of meshes is that of its first refused mesh.
pub proof fn lemma_first_error_is_the_first(meshes: Seq<MeshInstance>)
    requires
        first_error(meshes) is Some,
    ensures
        exists|i: int| #![trigger meshes[i]]
            0 <= i < meshes.len() && mesh_error(meshes[i]) == first_error(meshes) && first_error(
                meshes.take(i),
            ) is None,
    decreases meshes.len(),
{
    let before = meshes.drop_last();
    if first_error(before) is Some {
        lemma_first_error_is_the_first(before);
        let i = choose|i: int| #![trigger before[i]]
            0 <= i < before.len() && mesh_error(before[i]) == first_error(before) && first_error(
                before.take(i),
            ) is None;
        assert(before.take(i) =~= meshes.take(i));
        assert(meshes[i] == before[i]);
    } else {
        assert(meshes.take(meshes.len() - 1) =~= before);
        assert(mesh_error(meshes[meshes.len() - 1]) == first_error(meshes));
    }
}

/// A mesh's normals stand in the shared buffer behind those of the meshes
/// before it.
pub proof fn lemma_normals_of_mesh(placed: Seq<Vec<PlacedVertex>>, mesh: int)
    requires
        0 <= mesh < placed.len(),
    ensures
        all_normals(placed.take(mesh)).len() + placed[mesh]@.len() <= all_normals(placed).len(),
        forall|k: int| #![trigger normals(placed[mesh]@)[k]]
            0 <= k < placed[mesh]@.len() ==> all_normals(placed)[all_normals(
                placed.take(mesh),
            ).len() + k] == normals(placed[mesh]@)[k],
    decreases placed.len(),
{
    let before = placed.drop_last();
    if mesh == placed.len() - 1 {
        assert(placed.take(mesh) =~= before);
    } else {
        lemma_normals_of_mesh(before, mesh);
        assert(before.take(mesh) =~= placed.take(mesh));
        assert(before[mesh] == placed[mesh]);
    }
}

/// A mesh's indices stand in the shared buffer behind those of the meshes
/// before it.
pub proof fn lemma_indices_of_mesh(meshes: Seq<MeshInstance>, mesh: int)
    requires
        0 <= mesh < meshes.len(),
    ensures
        all_indices(meshes.take(mesh)).len() + kernel_indices(meshes[mesh]).len()
            <= all_indices(meshes).len(),
        forall|k: int| #![trigger kernel_indices(meshes[mesh])[k]]
            0 <= k < kernel_indices(meshes[mesh]).len() ==> all_indices(meshes)[all_indices(
                meshes.take(mesh),
            ).len() + k] == kernel_indices(meshes[mesh])[k],
    decreases meshes.len(),
{
    let before = meshes.drop_last();
    if mesh == meshes.len() - 1 {
        assert(meshes.take(mesh) =~= before);
    } else {
        lemma_indices_of_mesh(before, mesh);
        assert(before.take(mesh) =~= meshes.take(mesh));
        assert(before[mesh] == meshes[mesh]);
    }
}

/// The view of what the acceleration structure is built of shows all of it, in
/// order.
pub proof fn lemma_geometry_view_shows_all(list: Seq<Geometry>, i: int)
    requires
        0 <= i < list.len(),
    ensures
        geometry_views(list).len() == list.len(),
        geometry_views(list)[i].positions == list[i].positions@,
        geometry_views(list)[i].triangle_count == list[i].triangle_count,
        list[i].indices is Some <==> geometry_views(list)[i].indices is Some,
        list[i].indices matches Some(indices) ==> geometry_views(list)[i].indices->0 == indices@,
{
}

} // verus!
