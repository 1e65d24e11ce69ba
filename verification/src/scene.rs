//! The scene that an editor describes and the engine renders.
use vstd::prelude::*;

use crate::scalar::Float3;
use crate::scalar::Float4x4;
use crate::scalar::Scalar;

verus! {

/// Everything that a frame shows.
#[derive(Debug, Clone, PartialEq, Eq)]
pub struct Scene {
    pub camera: Camera,
    pub meshes: Vec<MeshInstance>,
    pub lights: Vec<Light>,
    pub environment: Option<Environment>,
    pub clear_color: Float3,
}

/// The viewpoint.
#[derive(Debug, Clone, Copy, PartialEq, Eq, Structural)]
pub struct Camera {
    pub mode: CameraMode,
    pub pos: Float3,
    pub target: Float3,
    pub up: Float3,
    pub fov_deg: Scalar,
    pub near: Scalar,
    pub far: Scalar,
    pub ortho_size: Scalar,
}

/// The camera's projection.
#[derive(Debug, Clone, Copy, PartialEq, Eq, Structural)]
pub enum CameraMode {
    Perspective,
    Orthographic,
}

/// A mesh, where it stands, and what it is made of.
#[derive(Debug, Clone, PartialEq, Eq)]
pub struct MeshInstance {
    pub geometry: GeometryRef,
    pub transform: Float4x4,
    pub material: Material,
}

/// A mesh's geometry: its data, or the hash of data sent before.
#[derive(Debug, Clone, PartialEq, Eq)]
pub enum GeometryRef {
    Inline {
        vertices: Vec<Scalar>,
        indices: Option<Vec<u32>>,
        /// Scalars per vertex: position, color, normal, and what follows.
        stride: u32,
    },
    Cached { hash: String },
}

/// A surface.
#[derive(Debug, Clone, PartialEq, Eq)]
pub enum Material {
    Unlit { color: Float3, vertex_mix: Scalar },
    Phong { color: Float3, shininess: Scalar, ambient: Scalar },
    Pbr { color: Float3, metallic: Scalar, roughness: Scalar },
    Glass { color: Float3, ior: Scalar, absorption: Float3 },
    Mirror { tint: Float3 },
    /// A named shader preset.
    Shader {
        preset: String,
        color: Float3,
        time: Scalar,
        freq: Scalar,
        intensity: Scalar,
        texture_layer: i32,
    },
}

/// A light source.
#[derive(Debug, Clone, Copy, PartialEq, Eq, Structural)]
pub enum Light {
    Directional { direction: Float3, color: Float3, intensity: Scalar },
    Point { position: Float3, color: Float3, intensity: Scalar, range: Scalar },
    Spot {
        position: Float3,
        direction: Float3,
        color: Float3,
        intensity: Scalar,
        range: Scalar,
        inner_angle_deg: Scalar,
        outer_angle_deg: Scalar,
    },
    /// A rectangle that emits light.
    Area {
        position: Float3,
        normal: Float3,
        width: Scalar,
        height: Scalar,
        color: Float3,
        intensity: Scalar,
    },
}

/// What surrounds the scene.
#[derive(Debug, Clone, PartialEq, Eq)]
pub enum Environment {
    /// An environment map that was uploaded under an id.
    Hdri { texture_id: String, exposure: Scalar },
    /// A sky computed from the sun's position.
    ProceduralSky { sun_dir: Float3, sun_intensity: Scalar, turbidity: Scalar },
    /// A gradient from top to bottom.
    Gradient { top: Float3, horizon: Float3, bottom: Float3 },
}

/// The bits of 32.0.
pub const SHININESS: u32 = 0x4200_0000;

/// The bits of 0.15.
pub const AMBIENT: u32 = 0x3e19_999a;

/// The bits of 0.5.
pub const ROUGHNESS: u32 = 0x3f00_0000;

/// A Phong material's shininess where the editor names none: 32.
pub fn default_shininess() -> (value: Scalar)
    ensures
        value.bits == SHININESS,
        value.bits == 0x4200_0000,
{
    Scalar { bits: SHININESS }
}

/// A Phong material's ambient term where the editor names none: 0.15.
pub fn default_ambient() -> (value: Scalar)
    ensures
        value.bits == AMBIENT,
        value.bits == 0x3e19_999a,
{
    Scalar { bits: AMBIENT }
}

/// A PBR material's roughness where the editor names none: 0.5.
pub fn default_roughness() -> (value: Scalar)
    ensures
        value.bits == ROUGHNESS,
        value.bits == 0x3f00_0000,
{
    Scalar { bits: ROUGHNESS }
}

} // verus!
