//! The picture that tests the renderer: one triangle, seen from the front.
use vstd::prelude::*;

use crate::render::assembly::first_error;
use crate::render::mesh::mesh_error;
use crate::render::mesh::triangle_count;
use crate::render::mesh::vertex_count;
use crate::render::RenderError;
use crate::scalar::Float3;
use crate::scalar::Float4;
use crate::scalar::Float4x4;
use crate::scalar::Scalar;
use crate::scene::Camera;
use crate::scene::CameraMode;
use crate::scene::GeometryRef;
use crate::scene::Material;
use crate::scene::MeshInstance;
use crate::scene::Scene;

verus! {

/// The bits of the triangle's corners: position, color, normal and texture
/// coordinates.
pub open spec fn corner_bits() -> Seq<u32> {
    seq![
        // (-0.866, -0.5, 0), (1, 0, 0), (0, 0, 1), (0, 0)
        0xbf5d_b22d,
        0xbf00_0000,
        0,
        0x3f80_0000,
        0,
        0,
        0,
        0,
        0x3f80_0000,
        0,
        0,
        // (0.866, -0.5, 0), (0, 1, 0), (0, 0, 1), (1, 0)
        0x3f5d_b22d,
        0xbf00_0000,
        0,
        0,
        0x3f80_0000,
        0,
        0,
        0,
        0x3f80_0000,
        0x3f80_0000,
        0,
        // (0, 1, 0), (0.3, 0.5, 1), (0, 0, 1), (0.5, 1)
        0,
        0x3f80_0000,
        0,
        0x3e99_999a,
        0x3f00_0000,
        0x3f80_0000,
        0,
        0,
        0x3f80_0000,
        0x3f00_0000,
        0x3f80_0000,
    ]
}

/// The camera of the test picture: two units in front of the origin, looking
/// at it, with a field of view of 60 degrees.
pub open spec fn test_camera() -> Camera {
    let zero = Scalar::zero();
    Camera {
        mode: CameraMode::Perspective,
        pos: Float3 { x: zero, y: zero, z: Scalar { bits: 0x4000_0000 } },
        target: Float3 { x: zero, y: zero, z: zero },
        up: Float3 { x: zero, y: Scalar::one(), z: zero },
        fov_deg: Scalar { bits: 0x4270_0000 },
        near: Scalar { bits: 0x3dcc_cccd },
        far: Scalar { bits: 0x42c8_0000 },
        ortho_size: zero,
    }
}

/// The transform that moves nothing.
pub open spec fn identity() -> Float4x4 {
    let zero = Scalar::zero();
    let one = Scalar::one();
    Float4x4 {
        c0: Float4 { x: one, y: zero, z: zero, w: zero },
        c1: Float4 { x: zero, y: one, z: zero, w: zero },
        c2: Float4 { x: zero, y: zero, z: one, w: zero },
        c3: Float4 { x: zero, y: zero, z: zero, w: one },
    }
}

/// The material of the triangle: unlit, (1.0, 0.4, 0.4).
pub open spec fn test_material() -> Material {
    Material::Unlit {
        color: Float3 {
            x: Scalar::one(),
            y: Scalar { bits: 0x3ecc_cccd },
            z: Scalar { bits: 0x3ecc_cccd },
        },
        vertex_mix: Scalar::zero(),
    }
}

/// The clear color of the test picture: (0.05, 0.06, 0.10).
pub open spec fn test_clear_color() -> Float3 {
    Float3 {
        x: Scalar { bits: 0x3d4c_cccd },
        y: Scalar { bits: 0x3d75_c28f },
        z: Scalar { bits: 0x3dcc_cccd },
    }
}

/// The scene of the test picture. It is accepted, and holds one triangle.
pub fn default_test_scene() -> (scene: Scene)
    ensures
        scene.camera == test_camera(),
        scene.meshes@.len() == 1,
        scene.meshes@[0].geometry is Inline,
        scene.meshes@[0].geometry->vertices@ == corner_bits().map_values(
            |bits: u32| Scalar { bits },
        ),
        scene.meshes@[0].geometry->indices is None,
        scene.meshes@[0].geometry->stride == 11,
        scene.meshes@[0].transform == identity(),
        scene.meshes@[0].material == test_material(),
        scene.lights@.len() == 0,
        scene.environment is None,
        scene.clear_color == test_clear_color(),
        first_error(scene.meshes@) is None,
        triangle_count(scene.meshes@[0]) == 1,
{
    let zero = Scalar::zero();
    let one = Scalar::one();
    let bits: [u32; 33] = [
        0xbf5d_b22d,
        0xbf00_0000,
        0,
        0x3f80_0000,
        0,
        0,
        0,
        0,
        0x3f80_0000,
        0,
        0,
        0x3f5d_b22d,
        0xbf00_0000,
        0,
        0,
        0x3f80_0000,
        0,
        0,
        0,
        0x3f80_0000,
        0x3f80_0000,
        0,
        0,
        0x3f80_0000,
        0,
        0x3e99_999a,
        0x3f00_0000,
        0x3f80_0000,
        0,
        0,
        0x3f80_0000,
        0x3f00_0000,
        0x3f80_0000,
    ];
    assert(bits@ =~= corner_bits());
    let mut vertices: Vec<Scalar> = Vec::new();
    let mut i: usize = 0;
    while i < 33
        invariant
            0 <= i <= 33,
            bits@.len() == 33,
            vertices@.len() == i,
            forall|k: int| 0 <= k < i ==> #[trigger] vertices@[k] == (Scalar { bits: bits@[k] }),
        decreases 33 - i,
    {
        vertices.push(Scalar { bits: bits[i] });
        i = i + 1;
    }
    assert(vertices@ =~= corner_bits().map_values(|bits: u32| Scalar { bits }));
    let mesh = MeshInstance {
        geometry: GeometryRef::Inline { vertices, indices: None, stride: 11 },
        transform: Float4x4 {
            c0: Float4 { x: one, y: zero, z: zero, w: zero },
            c1: Float4 { x: zero, y: one, z: zero, w: zero },
            c2: Float4 { x: zero, y: zero, z: one, w: zero },
            c3: Float4 { x: zero, y: zero, z: zero, w: one },
        },
        material: Material::Unlit {
            color: Float3 {
                x: one,
                y: Scalar { bits: 0x3ecc_cccd },
                z: Scalar { bits: 0x3ecc_cccd },
            },
            vertex_mix: zero,
        },
    };
    let mut meshes: Vec<MeshInstance> = Vec::new();
    meshes.push(mesh);
    proof {
        assert(vertex_count(mesh) == 3);
        assert(mesh_error(mesh) is None);
        assert(first_error(meshes@.drop_last()) is None);
    }
    Scene {
        camera: Camera {
            mode: CameraMode::Perspective,
            pos: Float3 { x: zero, y: zero, z: Scalar { bits: 0x4000_0000 } },
            target: Float3 { x: zero, y: zero, z: zero },
            up: Float3 { x: zero, y: one, z: zero },
            fov_deg: Scalar { bits: 0x4270_0000 },
            near: Scalar { bits: 0x3dcc_cccd },
            far: Scalar { bits: 0x42c8_0000 },
            ortho_size: zero,
        },
        meshes,
        lights: Vec::new(),
        environment: None,
        clear_color: Float3 {
            x: Scalar { bits: 0x3d4c_cccd },
            y: Scalar { bits: 0x3d75_c28f },
            z: Scalar { bits: 0x3dcc_cccd },
        },
    }
}

/// Whether pixels, four bytes each, fill a picture of a size. A row must be
/// countable even where there is none.
pub open spec fn fills_picture(width: u32, height: u32, len: nat) -> bool {
    4 * width <= usize::MAX && 4 * width * height <= len
}

/// Calls `image::RgbaImage::from_raw`, and takes the picture apart again by
/// its `width`, `height` and `into_raw`. Believed of it: it refuses a buffer
/// that the picture does not fit in, and no other, and keeps the size and the
/// buffer as they were given.
#[verifier::external_body]
fn rgba_image(width: u32, height: u32, pixels: Vec<u8>) -> (picture: Option<(u32, u32, Vec<u8>)>)
    ensures
        match picture {
            Some(parts) => {
                &&& fills_picture(width, height, pixels@.len())
                &&& parts.0 == width
                &&& parts.1 == height
                &&& parts.2@ == pixels@
            },
            None => !fills_picture(width, height, pixels@.len()),
        },
{
    match image::RgbaImage::from_raw(width, height, pixels) {
        Some(picture) => Some((picture.width(), picture.height(), picture.into_raw())),
        None => None,
    }
}

/// The picture to be saved: its size and its pixels, of which there must be
/// enough.
#[derive(Debug, PartialEq, Eq)]
pub struct Picture {
    pub width: u32,
    pub height: u32,
    pub pixels: Vec<u8>,
}

/// Makes a picture of the rendered test frame.
pub fn render_test_triangle(width: u32, height: u32, pixels: Vec<u8>) -> (picture: Result<
    Picture,
    RenderError,
>)
    ensures
        match picture {
            Ok(picture) => {
                &&& fills_picture(width, height, pixels@.len())
                &&& picture.width == width
                &&& picture.height == height
                &&& picture.pixels@ == pixels@
            },
            Err(e) => {
                &&& !fills_picture(width, height, pixels@.len())
                &&& e == RenderError::PictureTooShort
            },
        },
{
    match rgba_image(width, height, pixels) {
        Some((width, height, pixels)) => Ok(Picture { width, height, pixels }),
        None => Err(RenderError::PictureTooShort),
    }
}

/// A whole frame always makes a picture.
pub proof fn lemma_frame_makes_picture(width: u32, height: u32)
    requires
        4 * width <= usize::MAX,
    ensures
        fills_picture(width, height, (4 * width * height) as nat),
{
    assert(0 <= 4 * width * height) by (nonlinear_arith);
}

/// Pixels that are too few make no picture, and as many as are needed, or more,
/// make one where a row of it can be counted.
pub proof fn lemma_only_enough_pixels_make_a_picture(width: u32, height: u32, len: nat)
    ensures
        len < 4 * width * height ==> !fills_picture(width, height, len),
        len >= 4 * width * height && 4 * width <= usize::MAX ==> fills_picture(width, height, len),
        4 * width > usize::MAX ==> !fills_picture(width, height, len),
{
}

} // verus!
