//! The state of a Metal renderer: which buffers hold what, and what a frame
//! takes.
//!
//! A renderer is set up once, at a fixed size. A scene then replaces
//! everything it holds; the camera, the lights and the materials can also be
//! replaced alone, without rebuilding the acceleration structure.
use vstd::prelude::*;

use crate::render::assembly::all_geometry;
use crate::render::assembly::all_indices;
use crate::render::assembly::all_materials;
use crate::render::assembly::all_normals;
use crate::render::assembly::all_offsets;
use crate::render::assembly::collect_meshes;
use crate::render::assembly::first_error;
use crate::render::assembly::geometry_views;
use crate::render::assembly::lemma_first_error_covers_all;
use crate::render::assembly::lemma_indices_of_mesh;
use crate::render::assembly::lemma_normals_of_mesh;
use crate::render::assembly::offset_of;
use crate::render::assembly::Geometry;
use crate::render::assembly::GeometryView;
use crate::render::assembly::SceneData;
use crate::render::mesh::lemma_position_lookup;
use crate::render::mesh::mesh_error;
use crate::render::mesh::normals;
use crate::render::mesh::triangle_count;
use crate::render::mesh::vertex_count;
use crate::render::mesh::PlacedVertex;
use crate::render::uniforms::build_camera_uniform;
use crate::render::uniforms::build_lights_uniform;
use crate::render::uniforms::camera_uniform;
use crate::render::uniforms::lights_uniform;
use crate::render::uniforms::material_to_uniform;
use crate::render::uniforms::material_uniform;
use crate::render::uniforms::CameraTerms;
use crate::render::uniforms::CameraUniform;
use crate::render::uniforms::GeomOffset;
use crate::render::uniforms::LightTerms;
use crate::render::uniforms::LightsUniform;
use crate::render::uniforms::LightsView;
use crate::render::uniforms::MaterialUniform;
use crate::render::RenderError;
use crate::scalar::Float3;
use crate::scalar::Float4;
use crate::scalar::Scalar;
use crate::scene::Camera;
use crate::scene::Light;
use crate::scene::Material;
use crate::scene::MeshInstance;
use crate::scene::Scene;

verus! {

/// What is computed of a scene in floating point before it is packed.
#[derive(Debug)]
pub struct SceneTerms {
    /// For each mesh, its vertices placed in the scene.
    pub placed: Vec<Vec<PlacedVertex>>,
    /// For each light, its terms.
    pub lights: Vec<LightTerms>,
    pub camera: CameraTerms,
}

impl SceneTerms {
    /// Whether there are terms for every light and for every vertex of every
    /// mesh that is accepted.
    pub open spec fn fit(self, scene: Scene) -> bool {
        &&& self.lights@.len() == scene.lights@.len()
        &&& self.placed@.len() == scene.meshes@.len()
        &&& forall|i: int|
            0 <= i < scene.meshes@.len() && mesh_error(#[trigger] scene.meshes@[i]) is None
                ==> self.placed@[i]@.len() == vertex_count(scene.meshes@[i])
    }
}

/// A renderer: the size of its frames, the color of an empty one, and what
/// its GPU buffers hold. A buffer that is not allocated is `None`.
#[derive(Debug)]
pub struct MetalRenderer {
    width: u32,
    height: u32,
    accel: Option<Vec<Geometry>>,
    camera_buffer: Option<CameraUniform>,
    material_buffer: Option<Vec<MaterialUniform>>,
    vertex_normals_buffer: Option<Vec<Float4>>,
    vertex_indices_buffer: Option<Vec<u32>>,
    geom_offsets_buffer: Option<Vec<GeomOffset>>,
    lights_buffer: Option<LightsUniform>,
    clear_color: Float3,
    has_scene: bool,
}

/// A renderer, as a value of the specification.
#[verifier::ext_equal]
pub struct RendererView {
    pub width: u32,
    pub height: u32,
    pub accel: Option<Seq<GeometryView>>,
    pub camera: Option<CameraUniform>,
    pub materials: Option<Seq<MaterialUniform>>,
    pub normals: Option<Seq<Float4>>,
    pub indices: Option<Seq<u32>>,
    pub offsets: Option<Seq<GeomOffset>>,
    pub lights: Option<LightsView>,
    pub clear_color: Float3,
    pub has_scene: bool,
}

impl RendererView {
    /// A renderer that has got no scene yet.
    pub open spec fn fresh(width: u32, height: u32) -> RendererView {
        RendererView {
            width,
            height,
            accel: None,
            camera: None,
            materials: None,
            normals: None,
            indices: None,
            offsets: None,
            lights: None,
            clear_color: initial_clear_color(),
            has_scene: false,
        }
    }

    /// The renderer with another clear color.
    pub open spec fn with_clear_color(self, clear_color: Float3) -> RendererView {
        RendererView { clear_color, ..self }
    }

    /// The renderer after a scene was accepted.
    pub open spec fn with_scene(self, scene: Scene, terms: SceneTerms) -> RendererView {
        if scene.meshes@.len() == 0 {
            RendererView {
                accel: None,
                camera: None,
                materials: None,
                normals: None,
                indices: None,
                offsets: None,
                lights: None,
                clear_color: scene.clear_color,
                has_scene: false,
                ..self
            }
        } else {
            RendererView {
                accel: Some(all_geometry(scene.meshes@, terms.placed@)),
                camera: Some(camera_uniform(scene.camera, terms.camera)),
                materials: Some(all_materials(scene.meshes@)),
                normals: Some(all_normals(terms.placed@)),
                indices: Some(all_indices(scene.meshes@)),
                offsets: Some(all_offsets(scene.meshes@, terms.placed@)),
                lights: Some(lights_uniform(scene.lights@, terms.lights@)),
                clear_color: scene.clear_color,
                has_scene: true,
                ..self
            }
        }
    }

    /// Whether the buffers are in order: with a scene, all of them are
    /// allocated, with an entry for each mesh in those that are per mesh;
    /// without one, at most the camera and the lights are.
    pub open spec fn wf(self) -> bool {
        if self.has_scene {
            &&& self.accel is Some && self.accel->0.len() > 0
            &&& self.camera is Some
            &&& self.materials is Some && self.materials->0.len() == self.accel->0.len()
            &&& self.normals is Some
            &&& self.indices is Some
            &&& self.offsets is Some && self.offsets->0.len() == self.accel->0.len()
            &&& self.lights is Some
        } else {
            &&& self.accel is None
            &&& self.materials is None
            &&& self.normals is None
            &&& self.indices is None
            &&& self.offsets is None
        }
    }
}

impl View for MetalRenderer {
    type V = RendererView;

    closed spec fn view(&self) -> RendererView {
        RendererView {
            width: self.width,
            height: self.height,
            accel: match self.accel {
                Some(list) => Some(geometry_views(list@)),
                None => None,
            },
            camera: self.camera_buffer,
            materials: match self.material_buffer {
                Some(list) => Some(list@),
                None => None,
            },
            normals: match self.vertex_normals_buffer {
                Some(list) => Some(list@),
                None => None,
            },
            indices: match self.vertex_indices_buffer {
                Some(list) => Some(list@),
                None => None,
            },
            offsets: match self.geom_offsets_buffer {
                Some(list) => Some(list@),
                None => None,
            },
            lights: match self.lights_buffer {
                Some(block) => Some(block@),
                None => None,
            },
            clear_color: self.clear_color,
            has_scene: self.has_scene,
        }
    }
}

/// The clear color before a scene brings one: (0.05, 0.06, 0.10).
pub open spec fn initial_clear_color() -> Float3 {
    Float3 {
        x: Scalar { bits: 0x3d4c_cccd },
        y: Scalar { bits: 0x3d75_c28f },
        z: Scalar { bits: 0x3dcc_cccd },
    }
}

/// What is to be done next when a renderer is set up.
#[derive(Debug, Clone, Copy, PartialEq, Eq, Structural)]
pub enum SetupStep {
    /// Take the system's default device.
    AcquireDevice,
    /// Compile the kernel source.
    CompileLibrary,
    /// Find the kernel's entry point.
    FindKernel,
    /// Make a pipeline of it.
    CreatePipeline,
    /// Nothing: the device is set up.
    Complete,
}

impl SetupStep {
    /// The step behind a step that succeeded.
    pub open spec fn following(self) -> SetupStep {
        match self {
            SetupStep::AcquireDevice => SetupStep::CompileLibrary,
            SetupStep::CompileLibrary => SetupStep::FindKernel,
            SetupStep::FindKernel => SetupStep::CreatePipeline,
            SetupStep::CreatePipeline => SetupStep::Complete,
            SetupStep::Complete => SetupStep::Complete,
        }
    }

    /// The error of a step that failed.
    pub open spec fn failure(self, reason: String) -> RenderError {
        match self {
            SetupStep::AcquireDevice => RenderError::NoDevice,
            SetupStep::CompileLibrary => RenderError::CompileFailed(reason),
            SetupStep::FindKernel => RenderError::KernelNotFound(reason),
            SetupStep::CreatePipeline => RenderError::PipelineFailed(reason),
            SetupStep::Complete => RenderError::NoDevice,
        }
    }

    /// Goes on from a step according to its outcome.
    pub fn after(self, outcome: Result<(), String>) -> (next: Result<SetupStep, RenderError>)
        requires
            self != SetupStep::Complete,
        ensures
            match outcome {
                Ok(_) => next == Ok::<SetupStep, RenderError>(self.following()),
                Err(reason) => next == Err::<SetupStep, RenderError>(self.failure(reason)),
            },
    {
        match outcome {
            Ok(_) => Ok(
                match self {
                    SetupStep::AcquireDevice => SetupStep::CompileLibrary,
                    SetupStep::CompileLibrary => SetupStep::FindKernel,
                    SetupStep::FindKernel => SetupStep::CreatePipeline,
                    SetupStep::CreatePipeline => SetupStep::Complete,
                    SetupStep::Complete => SetupStep::Complete,
                },
            ),
            Err(reason) => Err(
                match self {
                    SetupStep::AcquireDevice => RenderError::NoDevice,
                    SetupStep::CompileLibrary => RenderError::CompileFailed(reason),
                    SetupStep::FindKernel => RenderError::KernelNotFound(reason),
                    SetupStep::CreatePipeline => RenderError::PipelineFailed(reason),
                    SetupStep::Complete => RenderError::NoDevice,
                },
            ),
        }
    }
}

/// Setting up takes four steps, each of which must succeed.
pub proof fn lemma_setup_takes_four_steps()
    ensures
        ({
            let first = SetupStep::AcquireDevice;
            let second = first.following();
            let third = second.following();
            let fourth = third.following();
            &&& second == SetupStep::CompileLibrary
            &&& third == SetupStep::FindKernel
            &&& fourth == SetupStep::CreatePipeline
            &&& fourth.following() == SetupStep::Complete
        }),
{
}

/// How a frame comes about.
#[derive(Debug, PartialEq, Eq)]
pub enum FrameWork {
    /// Without a scene: these pixels are the frame.
    Cleared(Vec<u8>),
    /// With one: the kernel is run, and the texture read back.
    Dispatch(Dispatch),
}

/// A run of the kernel over all pixels, in groups of 16 by 16.
#[derive(Debug, Clone, Copy, PartialEq, Eq, Structural)]
pub struct Dispatch {
    pub groups_wide: u64,
    pub groups_high: u64,
    /// Bytes of a row of pixels.
    pub bytes_per_row: u64,
    /// Bytes of the frame.
    pub frame_bytes: usize,
}

/// The number of pixels across a thread group, and down it.
pub const GROUP_SIZE: u64 = 16;

/// A frame of one color.
pub open spec fn cleared_pixels(count: nat, rgb: (u8, u8, u8)) -> Seq<u8> {
    Seq::new(
        4 * count,
        |k: int|
            if k % 4 == 0 {
                rgb.0
            } else if k % 4 == 1 {
                rgb.1
            } else if k % 4 == 2 {
                rgb.2
            } else {
                255
            },
    )
}

/// The run of the kernel for frames of a size.
pub open spec fn dispatch_for(width: u32, height: u32) -> Dispatch {
    Dispatch {
        groups_wide: ((width + GROUP_SIZE - 1) / GROUP_SIZE as int) as u64,
        groups_high: ((height + GROUP_SIZE - 1) / GROUP_SIZE as int) as u64,
        bytes_per_row: (4 * width) as u64,
        frame_bytes: (4 * width * height) as usize,
    }
}

impl MetalRenderer {
    #[verifier::type_invariant]
    spec fn buffers_in_order(self) -> bool {
        self@.wf()
    }

    /// A renderer for frames of a size, on a device that was set up, or the
    /// error of setting it up.
    pub fn new(width: u32, height: u32, setup: Result<(), RenderError>) -> (renderer: Result<
        MetalRenderer,
        RenderError,
    >)
        ensures
            match setup {
                Ok(_) => renderer is Ok && renderer->Ok_0@ == RendererView::fresh(width, height),
                Err(e) => renderer is Err && renderer->Err_0 == e,
            },
    {
        match setup {
            Err(e) => Err(e),
            Ok(_) => Ok(
                MetalRenderer {
                    width,
                    height,
                    accel: None,
                    camera_buffer: None,
                    material_buffer: None,
                    vertex_normals_buffer: None,
                    vertex_indices_buffer: None,
                    geom_offsets_buffer: None,
                    lights_buffer: None,
                    clear_color: Float3 {
                        x: Scalar { bits: 0x3d4c_cccd },
                        y: Scalar { bits: 0x3d75_c28f },
                        z: Scalar { bits: 0x3dcc_cccd },
                    },
                    has_scene: false,
                },
            ),
        }
    }

    /// Replaces everything that the renderer holds by a scene. Where a mesh
    /// is refused, only the clear color is replaced.
    pub fn update_scene(&mut self, scene: &Scene, terms: &SceneTerms) -> (done: Result<
        (),
        RenderError,
    >)
        requires
            terms.fit(*scene),
        ensures
            match done {
                Ok(_) => {
                    &&& first_error(scene.meshes@) is None
                    &&& final(self)@ == old(self)@.with_scene(*scene, *terms)
                },
                Err(e) => {
                    &&& first_error(scene.meshes@) == Some(e)
                    &&& final(self)@ == old(self)@.with_clear_color(scene.clear_color)
                },
            },
    {
        proof {
            use_type_invariant(&*self);
        }
        self.clear_color = scene.clear_color;
        let width: u32 = self.width;
        let height: u32 = self.height;
        if scene.meshes.len() == 0 {
            *self =
            MetalRenderer {
                width,
                height,
                accel: None,
                camera_buffer: None,
                material_buffer: None,
                vertex_normals_buffer: None,
                vertex_indices_buffer: None,
                geom_offsets_buffer: None,
                lights_buffer: None,
                clear_color: scene.clear_color,
                has_scene: false,
            };
            return Ok(());
        }
        let data: SceneData = match collect_meshes(&scene.meshes, &terms.placed) {
            Ok(data) => data,
            Err(e) => return Err(e),
        };
        *self =
        MetalRenderer {
            width,
            height,
            accel: Some(data.geometry),
            camera_buffer: Some(build_camera_uniform(&scene.camera, &terms.camera)),
            material_buffer: Some(data.materials),
            vertex_normals_buffer: Some(data.normals),
            vertex_indices_buffer: Some(data.indices),
            geom_offsets_buffer: Some(data.offsets),
            lights_buffer: Some(build_lights_uniform(&scene.lights, &terms.lights)),
            clear_color: scene.clear_color,
            has_scene: true,
        };
        Ok(())
    }

    /// Replaces the camera alone.
    pub fn update_camera(&mut self, camera: &Camera, terms: &CameraTerms) -> (done: Result<
        (),
        RenderError,
    >)
        ensures
            done is Ok,
            final(self)@ == (RendererView {
                camera: Some(camera_uniform(*camera, *terms)),
                ..old(self)@
            }),
    {
        proof {
            use_type_invariant(&*self);
        }
        self.camera_buffer = Some(build_camera_uniform(camera, terms));
        Ok(())
    }

    /// Replaces the lights alone.
    pub fn update_lights(&mut self, lights: &Vec<Light>, terms: &Vec<LightTerms>) -> (done: Result<
        (),
        RenderError,
    >)
        requires
            terms@.len() == lights@.len(),
        ensures
            done is Ok,
            final(self)@ == (RendererView {
                lights: Some(lights_uniform(lights@, terms@)),
                ..old(self)@
            }),
    {
        proof {
            use_type_invariant(&*self);
        }
        self.lights_buffer = Some(build_lights_uniform(lights, terms));
        Ok(())
    }

    /// Replaces the materials alone. There must be one for each mesh of the
    /// scene.
    pub fn update_materials(&mut self, materials: &Vec<Material>) -> (done: Result<
        (),
        RenderError,
    >)
        ensures
            match old(self)@.materials {
                None => {
                    &&& done == Err::<(), RenderError>(RenderError::NoMaterials)
                    &&& final(self)@ == old(self)@
                },
                Some(present) => if present.len() != materials@.len() {
                    &&& done == Err::<(), RenderError>(
                        RenderError::MaterialCountMismatch {
                            meshes: present.len() as usize,
                            materials: materials@.len() as usize,
                        },
                    )
                    &&& final(self)@ == old(self)@
                } else {
                    &&& done is Ok
                    &&& final(self)@ == (RendererView {
                        materials: Some(
                            Seq::new(materials@.len(), |i: int| material_uniform(materials@[i])),
                        ),
                        ..old(self)@
                    })
                },
            },
    {
        proof {
            use_type_invariant(&*self);
        }
        let present: usize = match &self.material_buffer {
            None => return Err(RenderError::NoMaterials),
            Some(list) => list.len(),
        };
        if present != materials.len() {
            return Err(
                RenderError::MaterialCountMismatch {
                    meshes: present,
                    materials: materials.len(),
                },
            );
        }
        let mut packed: Vec<MaterialUniform> = Vec::new();
        let mut i: usize = 0;
        while i < materials.len()
            invariant
                0 <= i <= materials@.len(),
                packed@.len() == i,
                forall|k: int|
                    0 <= k < i ==> #[trigger] packed@[k] == material_uniform(materials@[k]),
            decreases materials@.len() - i,
        {
            packed.push(material_to_uniform(&materials[i]));
            i = i + 1;
        }
        assert(packed@ =~= Seq::new(
            materials@.len(),
            |i: int| material_uniform(materials@[i]),
        ));
        self.material_buffer = Some(packed);
        Ok(())
    }

    /// How the next frame comes about. Without a scene it shows the clear
    /// color, which comes as bytes.
    pub fn render_frame(&self, clear_rgb: (u8, u8, u8)) -> (work: FrameWork)
        requires
            4 * self@.width * self@.height <= u32::MAX,
            self@.has_scene ==> 4 * self@.width <= u32::MAX,
        ensures
            if self@.has_scene {
                work == FrameWork::Dispatch(dispatch_for(self@.width, self@.height))
            } else {
                work is Cleared && work->Cleared_0@ == cleared_pixels(
                    (self@.width * self@.height) as nat,
                    clear_rgb,
                )
            },
    {
        assert(0 <= self.width * self.height && 4 * self.width * self.height == 4 * (self.width
            * self.height)) by (nonlinear_arith);
        if !self.has_scene {
            let count: u32 = self.width * self.height;
            let mut pixels: Vec<u8> = Vec::new();
            let mut i: u32 = 0;
            while i < count
                invariant
                    0 <= i <= count,
                    pixels@ == cleared_pixels(i as nat, clear_rgb),
                decreases count - i,
            {
                pixels.push(clear_rgb.0);
                pixels.push(clear_rgb.1);
                pixels.push(clear_rgb.2);
                pixels.push(255);
                i = i + 1;
                assert(pixels@ =~= cleared_pixels(i as nat, clear_rgb));
            }
            return FrameWork::Cleared(pixels);
        }
        FrameWork::Dispatch(
            Dispatch {
                groups_wide: (self.width as u64 + (GROUP_SIZE - 1)) / GROUP_SIZE,
                groups_high: (self.height as u64 + (GROUP_SIZE - 1)) / GROUP_SIZE,
                bytes_per_row: (self.width * 4) as u64,
                frame_bytes: (self.width * self.height * 4) as usize,
            },
        )
    }
}

impl MetalRenderer {
    /// The width of the frames.
    pub fn width(&self) -> (width: u32)
        ensures
            width == self@.width,
    {
        self.width
    }

    /// The height of the frames.
    pub fn height(&self) -> (height: u32)
        ensures
            height == self@.height,
    {
        self.height
    }

    /// The color of a frame without a scene.
    pub fn clear_color(&self) -> (color: Float3)
        ensures
            color == self@.clear_color,
    {
        self.clear_color
    }

    /// The meshes that the acceleration structure is built of.
    pub fn accel(&self) -> (list: Option<&Vec<Geometry>>)
        ensures
            match list {
                Some(list) => self@.accel == Some(geometry_views(list@)),
                None => self@.accel is None,
            },
    {
        self.accel.as_ref()
    }

    /// What the camera buffer holds.
    pub fn camera(&self) -> (block: Option<CameraUniform>)
        ensures
            block == self@.camera,
    {
        self.camera_buffer
    }

    /// What the material buffer holds.
    pub fn materials(&self) -> (list: Option<&Vec<MaterialUniform>>)
        ensures
            match list {
                Some(list) => self@.materials == Some(list@),
                None => self@.materials is None,
            },
    {
        self.material_buffer.as_ref()
    }

    /// What the buffer of normals holds.
    pub fn vertex_normals(&self) -> (list: Option<&Vec<Float4>>)
        ensures
            match list {
                Some(list) => self@.normals == Some(list@),
                None => self@.normals is None,
            },
    {
        self.vertex_normals_buffer.as_ref()
    }

    /// What the buffer of indices holds.
    pub fn vertex_indices(&self) -> (list: Option<&Vec<u32>>)
        ensures
            match list {
                Some(list) => self@.indices == Some(list@),
                None => self@.indices is None,
            },
    {
        self.vertex_indices_buffer.as_ref()
    }

    /// What the buffer of offsets holds.
    pub fn geom_offsets(&self) -> (list: Option<&Vec<GeomOffset>>)
        ensures
            match list {
                Some(list) => self@.offsets == Some(list@),
                None => self@.offsets is None,
            },
    {
        self.geom_offsets_buffer.as_ref()
    }

    /// What the lights buffer holds.
    pub fn lights(&self) -> (block: Option<&LightsUniform>)
        ensures
            match block {
                Some(block) => self@.lights == Some(block@),
                None => self@.lights is None,
            },
    {
        self.lights_buffer.as_ref()
    }
}

/// The normal that the kernel finds for a corner of a triangle that a ray
/// hit: through the mesh's indices if it has them, else at the vertex itself.
pub open spec fn corner_normal(
    renderer: RendererView,
    mesh: int,
    triangle: int,
    corner: int,
) -> Float4 {
    let offset = renderer.offsets->0[mesh];
    if offset.is_indexed == 1 {
        renderer.normals->0[offset.vertex_offset + renderer.indices->0[offset.index_offset + 3
            * triangle + corner]]
    } else {
        renderer.normals->0[offset.vertex_offset + 3 * triangle + corner]
    }
}

/// The vertex of its own mesh that a triangle's corner is at.
pub open spec fn corner_vertex(mesh: MeshInstance, triangle: int, corner: int) -> int {
    match mesh.geometry->indices {
        Some(list) => list@[3 * triangle + corner] as int,
        None => 3 * triangle + corner,
    }
}

/// Through the buffers that all meshes share, the kernel finds for each corner
/// of each triangle the normal of that mesh's own vertex, as long as the
/// vertices and indices of the scene can be counted in 32 bits and the index
/// names a vertex of the mesh.
pub proof fn lemma_kernel_finds_own_normals(
    renderer: RendererView,
    scene: Scene,
    terms: SceneTerms,
    mesh: int,
    triangle: int,
    corner: int,
)
    requires
        terms.fit(scene),
        first_error(scene.meshes@) is None,
        all_normals(terms.placed@).len() <= u32::MAX,
        all_indices(scene.meshes@).len() <= u32::MAX,
        0 <= mesh < scene.meshes@.len(),
        0 <= triangle < triangle_count(scene.meshes@[mesh]),
        0 <= corner < 3,
        corner_vertex(scene.meshes@[mesh], triangle, corner) < vertex_count(scene.meshes@[mesh]),
    ensures
        corner_normal(renderer.with_scene(scene, terms), mesh, triangle, corner)
            == terms.placed@[mesh]@[corner_vertex(
            scene.meshes@[mesh],
            triangle,
            corner,
        )].normal.extend(Scalar::zero()),
{
    let meshes = scene.meshes@;
    let placed = terms.placed@;
    let own = meshes[mesh];
    lemma_first_error_covers_all(meshes);
    assert(mesh_error(own) is None);
    assert(placed[mesh]@.len() == vertex_count(own));
    lemma_normals_of_mesh(placed, mesh);
    lemma_indices_of_mesh(meshes, mesh);
    let vertex = corner_vertex(own, triangle, corner);
    assert(normals(placed[mesh]@)[vertex] == placed[mesh]@[vertex].normal.extend(Scalar::zero()));
    assert(all_offsets(meshes, placed)[mesh] == offset_of(meshes, placed, mesh));
}

/// A renderer's buffers stay in order whatever it is given.
pub proof fn lemma_buffers_stay_in_order(
    renderer: RendererView,
    scene: Scene,
    terms: SceneTerms,
    camera: CameraUniform,
    lights: LightsView,
    materials: Seq<MaterialUniform>,
    clear_color: Float3,
)
    requires
        renderer.wf(),
        terms.fit(scene),
    ensures
        renderer.with_scene(scene, terms).wf(),
        renderer.with_clear_color(clear_color).wf(),
        (RendererView { camera: Some(camera), ..renderer }).wf(),
        (RendererView { lights: Some(lights), ..renderer }).wf(),
        renderer.materials is Some && renderer.materials->0.len() == materials.len() ==> (
        RendererView { materials: Some(materials), ..renderer }).wf(),
        forall|width: u32, height: u32| #[trigger] RendererView::fresh(width, height).wf(),
{
}

/// A scene replaces all that a renderer held: only the size of the frames
/// stays.
pub proof fn lemma_scene_replaces_everything(
    one: RendererView,
    other: RendererView,
    scene: Scene,
    terms: SceneTerms,
)
    requires
        one.width == other.width,
        one.height == other.height,
    ensures
        one.with_scene(scene, terms) == other.with_scene(scene, terms),
        one.with_scene(scene, terms).width == one.width,
        one.with_scene(scene, terms).height == one.height,
{
}

/// Updating the camera, the lights or the materials by those of the scene that
/// is shown changes nothing.
pub proof fn lemma_partial_updates_agree_with_scene(
    renderer: RendererView,
    scene: Scene,
    terms: SceneTerms,
    materials: Seq<Material>,
)
    requires
        scene.meshes@.len() > 0,
        materials.len() == scene.meshes@.len(),
        forall|i: int|
            0 <= i < materials.len() ==> #[trigger] materials[i] == scene.meshes@[i].material,
    ensures
        ({
            let shown = renderer.with_scene(scene, terms);
            &&& RendererView { camera: Some(camera_uniform(scene.camera, terms.camera)), ..shown }
                == shown
            &&& RendererView { lights: Some(lights_uniform(scene.lights@, terms.lights@)), ..shown }
                == shown
            &&& RendererView {
                materials: Some(
                    Seq::new(materials.len(), |i: int| material_uniform(materials[i])),
                ),
                ..shown
            } == shown
        }),
{
    assert(Seq::new(materials.len(), |i: int| material_uniform(materials[i])) =~= all_materials(
        scene.meshes@,
    ));
}

/// Every frame is four bytes for each pixel, cleared or traced.
pub proof fn lemma_frame_size(width: u32, height: u32, rgb: (u8, u8, u8))
    requires
        4 * width * height <= u32::MAX,
        4 * width <= u32::MAX,
    ensures
        cleared_pixels((width * height) as nat, rgb).len() == 4 * width * height,
        dispatch_for(width, height).frame_bytes == 4 * width * height,
        dispatch_for(width, height).bytes_per_row == 4 * width,
        dispatch_for(width, height).bytes_per_row * height == 4 * width * height,
{
    assert(0 <= width * height && 4 * (width * height) == 4 * width * height) by (nonlinear_arith);
}

/// A pixel of a cleared frame is the clear color, opaque.
pub proof fn lemma_cleared_pixel(count: nat, rgb: (u8, u8, u8), pixel: int)
    requires
        0 <= pixel < count,
    ensures
        cleared_pixels(count, rgb).subrange(4 * pixel, 4 * pixel + 4) == seq![
            rgb.0,
            rgb.1,
            rgb.2,
            255u8,
        ],
{
    assert(cleared_pixels(count, rgb).subrange(4 * pixel, 4 * pixel + 4) =~= seq![
        rgb.0,
        rgb.1,
        rgb.2,
        255u8,
    ]);
}

/// The thread groups cover the frame, and none lies wholly outside it.
pub proof fn lemma_groups_cover_frame(width: u32, height: u32)
    ensures
        ({
            let run = dispatch_for(width, height);
            &&& GROUP_SIZE == 16
            &&& width <= 16 * run.groups_wide < width + 16
            &&& height <= 16 * run.groups_high < height + 16
        }),
{
}

/// Where the acceleration structure has a corner of a triangle: through the
/// geometry's indices if it has them, else at the vertex itself.
pub open spec fn traced_corner(geometry: GeometryView, triangle: int, corner: int) -> Float3 {
    let vertex = match geometry.indices {
        Some(list) => list[3 * triangle + corner] as int,
        None => 3 * triangle + corner,
    };
    Float3 {
        x: geometry.positions[3 * vertex],
        y: geometry.positions[3 * vertex + 1],
        z: geometry.positions[3 * vertex + 2],
    }
}

/// The triangles that are traced are those of the scene's own meshes: each
/// corner stands where that mesh's vertex was placed, as long as the index names
/// a vertex of the mesh.
pub proof fn lemma_own_triangles_are_traced(
    renderer: RendererView,
    scene: Scene,
    terms: SceneTerms,
    mesh: int,
    triangle: int,
    corner: int,
)
    requires
        terms.fit(scene),
        first_error(scene.meshes@) is None,
        0 <= mesh < scene.meshes@.len(),
        0 <= triangle < triangle_count(scene.meshes@[mesh]),
        0 <= corner < 3,
        corner_vertex(scene.meshes@[mesh], triangle, corner) < vertex_count(scene.meshes@[mesh]),
    ensures
        traced_corner(renderer.with_scene(scene, terms).accel->0[mesh], triangle, corner)
            == terms.placed@[mesh]@[corner_vertex(
            scene.meshes@[mesh],
            triangle,
            corner,
        )].position,
{
    lemma_first_error_covers_all(scene.meshes@);
    let own = scene.meshes@[mesh];
    assert(mesh_error(own) is None);
    assert(terms.placed@[mesh]@.len() == vertex_count(own));
    let vertex = corner_vertex(own, triangle, corner);
    lemma_position_lookup(terms.placed@[mesh]@, vertex);
}

/// Each mesh of an accepted scene is in the acceleration structure, with three
/// scalars for each placed vertex, and with indices if and only if the mesh has
/// them: the same ones. Its triangles are counted as far as 32 bits reach.
pub proof fn lemma_every_mesh_is_traced(
    renderer: RendererView,
    scene: Scene,
    terms: SceneTerms,
    mesh: int,
)
    requires
        terms.fit(scene),
        first_error(scene.meshes@) is None,
        0 <= mesh < scene.meshes@.len(),
    ensures
        ({
            let accel = renderer.with_scene(scene, terms).accel;
            let own = scene.meshes@[mesh];
            let traced = accel->0[mesh];
            &&& accel is Some
            &&& accel->0.len() == scene.meshes@.len()
            &&& traced.positions.len() == 3 * terms.placed@[mesh]@.len()
            &&& own.geometry is Inline
            &&& own.geometry->indices is Some <==> traced.indices is Some
            &&& own.geometry->indices matches Some(list) ==> {
                &&& traced.indices->0 == list@
                &&& list@.len() / 3 <= u32::MAX ==> 3 * traced.triangle_count == list@.len()
            }
            &&& own.geometry->indices is None && terms.placed@[mesh]@.len() / 3 <= u32::MAX ==> 3
                * traced.triangle_count == terms.placed@[mesh]@.len()
        }),
{
    lemma_first_error_covers_all(scene.meshes@);
    let own = scene.meshes@[mesh];
    assert(mesh_error(own) is None);
    let placed = terms.placed@[mesh]@;
    assert(placed.len() == vertex_count(own));
    if placed.len() > 0 {
        lemma_position_lookup(placed, 0);
    }
}

/// What a renderer holds of an accepted scene besides the acceleration
/// structure: for each mesh its own material, the scene's own camera and lights,
/// and its clear color. A mesh is marked as indexed if and only if it has
/// indices. The normals of all vertices and the indices of all meshes are there.
pub proof fn lemma_scene_is_held(
    renderer: RendererView,
    scene: Scene,
    terms: SceneTerms,
    mesh: int,
)
    requires
        terms.fit(scene),
        first_error(scene.meshes@) is None,
        0 <= mesh < scene.meshes@.len(),
    ensures
        ({
            let held = renderer.with_scene(scene, terms);
            let own = scene.meshes@[mesh];
            let offset = held.offsets->0[mesh];
            &&& held.has_scene
            &&& held.clear_color == scene.clear_color
            &&& held.camera == Some(camera_uniform(scene.camera, terms.camera))
            &&& held.lights == Some(lights_uniform(scene.lights@, terms.lights@))
            &&& held.materials is Some && held.materials->0.len() == scene.meshes@.len()
            &&& held.materials->0[mesh] == material_uniform(own.material)
            &&& held.offsets is Some && held.offsets->0.len() == scene.meshes@.len()
            &&& held.normals is Some
            &&& held.indices is Some
            &&& offset.is_indexed == 0 || offset.is_indexed == 1
            &&& offset.is_indexed == 1 <==> own.geometry->indices is Some
                && own.geometry->indices->0@.len() > 0
            &&& offset.pad == 0
        }),
{
    lemma_first_error_covers_all(scene.meshes@);
    assert(mesh_error(scene.meshes@[mesh]) is None);
    assert(all_offsets(scene.meshes@, terms.placed@)[mesh] == offset_of(
        scene.meshes@,
        terms.placed@,
        mesh,
    ));
}

/// The normals of a scene are those of its meshes and no others, and so are the
/// indices: one mesh more adds its own to them.
pub proof fn lemma_buffers_grow_mesh_by_mesh(
    meshes: Seq<MeshInstance>,
    placed: Seq<Vec<PlacedVertex>>,
    mesh: MeshInstance,
    vertices: Vec<PlacedVertex>,
)
    requires
        mesh.geometry is Inline,
    ensures
        all_normals(Seq::<Vec<PlacedVertex>>::empty()).len() == 0,
        all_normals(placed.push(vertices)).len() == all_normals(placed).len() + vertices@.len(),
        all_indices(Seq::<MeshInstance>::empty()).len() == 0,
        all_indices(meshes.push(mesh)) == all_indices(meshes) + match mesh.geometry->indices {
            Some(list) => list@,
            None => Seq::empty(),
        },
{
    assert(placed.push(vertices).drop_last() =~= placed);
    assert(meshes.push(mesh).drop_last() =~= meshes);
}

/// A scene without meshes leaves nothing but its clear color.
pub proof fn lemma_empty_scene_clears(renderer: RendererView, scene: Scene, terms: SceneTerms)
    requires
        scene.meshes@.len() == 0,
    ensures
        ({
            let held = renderer.with_scene(scene, terms);
            &&& !held.has_scene
            &&& held.clear_color == scene.clear_color
            &&& held.width == renderer.width
            &&& held.height == renderer.height
            &&& held.accel is None && held.camera is None && held.materials is None
            &&& held.normals is None && held.indices is None && held.offsets is None
            &&& held.lights is None
        }),
{
}

/// A refused scene leaves its clear color and touches nothing else.
pub proof fn lemma_refused_scene_touches_only_the_clear_color(
    renderer: RendererView,
    clear_color: Float3,
)
    ensures
        ({
            let held = renderer.with_clear_color(clear_color);
            &&& held.clear_color == clear_color
            &&& held.with_clear_color(renderer.clear_color) == renderer
            &&& held.width == renderer.width && held.height == renderer.height
            &&& held.accel == renderer.accel && held.camera == renderer.camera
            &&& held.materials == renderer.materials && held.normals == renderer.normals
            &&& held.indices == renderer.indices && held.offsets == renderer.offsets
            &&& held.lights == renderer.lights && held.has_scene == renderer.has_scene
        }),
{
}

/// A new renderer has its size, the clear color (0.05, 0.06, 0.10), and nothing
/// else.
pub proof fn lemma_new_renderer_is_empty(width: u32, height: u32)
    ensures
        ({
            let held = RendererView::fresh(width, height);
            &&& held.width == width
            &&& held.height == height
            &&& held.clear_color.x.bits == 0x3d4c_cccd
            &&& held.clear_color.y.bits == 0x3d75_c28f
            &&& held.clear_color.z.bits == 0x3dcc_cccd
            &&& !held.has_scene
            &&& held.accel is None && held.camera is None && held.materials is None
            &&& held.normals is None && held.indices is None && held.offsets is None
            &&& held.lights is None
        }),
{
}

/// A setup step that fails says which step it was, and passes on why.
pub proof fn lemma_failed_step_is_named(step: SetupStep, reason: String)
    ensures
        step == SetupStep::AcquireDevice ==> step.failure(reason) == RenderError::NoDevice,
        step == SetupStep::CompileLibrary ==> step.failure(reason) == RenderError::CompileFailed(
            reason,
        ),
        step == SetupStep::FindKernel ==> step.failure(reason) == RenderError::KernelNotFound(
            reason,
        ),
        step == SetupStep::CreatePipeline ==> step.failure(reason) == RenderError::PipelineFailed(
            reason,
        ),
{
}

} // verus!
