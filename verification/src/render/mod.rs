//! Rendering: what is uploaded to the GPU, and what fails on the way.
use vstd::prelude::*;

use crate::text::decimal;
use crate::text::decimal_text;
use crate::text::joined;
use vstd::string::StringExecFns;

pub mod assembly;
pub mod layout;
pub mod mesh;
pub mod metal_path;
pub mod metalfx;
pub mod test_picture;
pub mod uniforms;

verus! {

/// Why something could not be rendered.
#[derive(Debug, PartialEq, Eq)]
pub enum RenderError {
    /// No renderer can stream on this platform.
    StreamingUnsupported,
    /// No renderer can produce a frame on this platform.
    FrameUnsupported,
    /// No renderer can produce the test picture on this platform.
    TestRenderUnsupported,
    /// The system has no default device.
    NoDevice,
    /// The kernel source did not compile.
    CompileFailed(String),
    /// The compiled library has no entry point of the expected name.
    KernelNotFound(String),
    /// No pipeline could be made of the kernel.
    PipelineFailed(String),
    /// A mesh refers to geometry by its hash.
    CachedGeometry,
    /// A vertex is too short, or the vertices do not fill whole strides.
    InvalidStride { stride: u32, scalars: usize },
    /// The indices do not make up whole triangles.
    PartialIndexTriangle { count: usize },
    /// Vertices without indices do not make up whole triangles.
    PartialVertexTriangle { count: usize },
    /// Materials were updated before a scene was.
    NoMaterials,
    /// As many materials were sent as there are not meshes.
    MaterialCountMismatch { meshes: usize, materials: usize },
    /// The pixels do not fill the picture.
    PictureTooShort,
    /// A scaler that the system has could not be set up.
    ScalerFailed,
}

impl RenderError {
    /// The text that is logged and sent to the editor.
    pub open spec fn text(self) -> Seq<char> {
        match self {
            RenderError::StreamingUnsupported =>
                "RT engine streaming requires macOS in part 2c; PC Vulkan-RT support lands in §5.6.b"@,
            RenderError::FrameUnsupported => "RT engine streaming requires macOS in part 2c"@,
            RenderError::TestRenderUnsupported =>
                "--render-test currently requires macOS. PC Vulkan-RT path lands in §5.6.b."@,
            RenderError::NoDevice => "MTLCreateSystemDefaultDevice returned null"@,
            RenderError::CompileFailed(reason) => "MSL compile failed: "@ + reason@,
            RenderError::KernelNotFound(reason) =>
                "kernel function 'rt_scene' not found: "@ + reason@,
            RenderError::PipelineFailed(reason) => "compute pipeline create failed: "@ + reason@,
            RenderError::CachedGeometry => "cached geometry refs not supported in part 2e-1"@,
            RenderError::InvalidStride { stride, scalars } => "invalid vertex stride "@
                + decimal_text(stride as nat) + " for "@ + decimal_text(scalars as nat)
                + " floats (need >= 9: pos.xyz + color.rgb + normal.xyz)"@,
            RenderError::PartialIndexTriangle { count } => "index count "@ + decimal_text(
                count as nat,
            ) + " not divisible by 3"@,
            RenderError::PartialVertexTriangle { count } => "non-indexed mesh vertex count "@
                + decimal_text(count as nat) + " not divisible by 3"@,
            RenderError::NoMaterials => "material buffer not yet allocated"@,
            RenderError::MaterialCountMismatch { meshes, materials } =>
                "material count mismatch: scene has "@ + decimal_text(meshes as nat)
                + " mesh(es) but Params sent "@ + decimal_text(materials as nat) + " material(s)"@,
            RenderError::PictureTooShort => "RgbaImage::from_raw failed (buffer size mismatch)"@,
            RenderError::ScalerFailed =>
                "MTLFXTemporalDenoisedScalerDescriptor could not be created"@,
        }
    }

    /// The text that is logged and sent to the editor.
    pub fn message(&self) -> (message: String)
        ensures
            message@ == self.text(),
    {
        match self {
            RenderError::StreamingUnsupported => "RT engine streaming requires macOS in part 2c; PC Vulkan-RT support lands in §5.6.b".to_owned(),
            RenderError::FrameUnsupported => "RT engine streaming requires macOS in part 2c".to_owned(),
            RenderError::TestRenderUnsupported => "--render-test currently requires macOS. PC Vulkan-RT path lands in §5.6.b.".to_owned(),
            RenderError::NoDevice => "MTLCreateSystemDefaultDevice returned null".to_owned(),
            RenderError::CompileFailed(reason) => joined("MSL compile failed: ", reason.as_str()),
            RenderError::KernelNotFound(reason) => joined(
                "kernel function 'rt_scene' not found: ",
                reason.as_str(),
            ),
            RenderError::PipelineFailed(reason) => joined(
                "compute pipeline create failed: ",
                reason.as_str(),
            ),
            RenderError::CachedGeometry => "cached geometry refs not supported in part 2e-1".to_owned(),
            RenderError::InvalidStride { stride, scalars } => joined(
                "invalid vertex stride ",
                decimal(*stride as u64).as_str(),
            ).concat(" for ").concat(decimal(*scalars as u64).as_str()).concat(
                " floats (need >= 9: pos.xyz + color.rgb + normal.xyz)",
            ),
            RenderError::PartialIndexTriangle { count } => joined(
                "index count ",
                decimal(*count as u64).as_str(),
            ).concat(" not divisible by 3"),
            RenderError::PartialVertexTriangle { count } => joined(
                "non-indexed mesh vertex count ",
                decimal(*count as u64).as_str(),
            ).concat(" not divisible by 3"),
            RenderError::NoMaterials => "material buffer not yet allocated".to_owned(),
            RenderError::MaterialCountMismatch { meshes, materials } => joined(
                "material count mismatch: scene has ",
                decimal(*meshes as u64).as_str(),
            ).concat(" mesh(es) but Params sent ").concat(
                decimal(*materials as u64).as_str(),
            ).concat(" material(s)"),
            RenderError::PictureTooShort => "RgbaImage::from_raw failed (buffer size mismatch)".to_owned(),
            RenderError::ScalerFailed => "MTLFXTemporalDenoisedScalerDescriptor could not be created".to_owned(),
        }
    }
}

/// The renderer of a platform without one. It cannot be built.
#[derive(Debug, PartialEq, Eq)]
pub struct Renderer {
    pub width: u32,
    pub height: u32,
}

impl Renderer {
    /// Refuses to build a renderer.
    pub fn new(_w: u32, _h: u32) -> (built: Result<Renderer, RenderError>)
        ensures
            built == Err::<Renderer, RenderError>(RenderError::StreamingUnsupported),
    {
        Err(RenderError::StreamingUnsupported)
    }

    /// Refuses to render.
    pub fn render_frame(&self) -> (frame: Result<Vec<u8>, RenderError>)
        ensures
            frame == Err::<Vec<u8>, RenderError>(RenderError::FrameUnsupported),
    {
        Err(RenderError::FrameUnsupported)
    }
}

/// Refuses to render the test picture.
pub fn render_test_triangle(_width: u32, _height: u32, _output: &str) -> (done: Result<
    (),
    RenderError,
>)
    ensures
        done == Err::<(), RenderError>(RenderError::TestRenderUnsupported),
{
    Err(RenderError::TestRenderUnsupported)
}

/// What a step of the setup says for itself stands behind what failed.
pub proof fn lemma_reasons_are_passed_on(reason: String)
    ensures
        RenderError::CompileFailed(reason).text() == "MSL compile failed: "@ + reason@,
        RenderError::KernelNotFound(reason).text() == "kernel function 'rt_scene' not found: "@
            + reason@,
        RenderError::PipelineFailed(reason).text() == "compute pipeline create failed: "@ + reason@,
{
}

/// The numbers of an error stand in its text, in decimal and in order.
pub proof fn lemma_numbers_are_told(stride: u32, scalars: usize, count: usize, materials: usize)
    ensures
        (RenderError::InvalidStride { stride, scalars }).text() == "invalid vertex stride "@
            + decimal_text(stride as nat) + " for "@ + decimal_text(scalars as nat)
            + " floats (need >= 9: pos.xyz + color.rgb + normal.xyz)"@,
        (RenderError::PartialIndexTriangle { count }).text() == "index count "@ + decimal_text(
            count as nat,
        ) + " not divisible by 3"@,
        (RenderError::PartialVertexTriangle { count }).text()
            == "non-indexed mesh vertex count "@ + decimal_text(count as nat)
            + " not divisible by 3"@,
        (RenderError::MaterialCountMismatch { meshes: count, materials }).text()
            == "material count mismatch: scene has "@ + decimal_text(count as nat)
            + " mesh(es) but Params sent "@ + decimal_text(materials as nat) + " material(s)"@,
{
}

/// What the other errors say.
pub proof fn lemma_fixed_texts()
    ensures
        RenderError::StreamingUnsupported.text()
            == "RT engine streaming requires macOS in part 2c; PC Vulkan-RT support lands in §5.6.b"@,
        RenderError::FrameUnsupported.text() == "RT engine streaming requires macOS in part 2c"@,
        RenderError::TestRenderUnsupported.text()
            == "--render-test currently requires macOS. PC Vulkan-RT path lands in §5.6.b."@,
        RenderError::NoDevice.text() == "MTLCreateSystemDefaultDevice returned null"@,
        RenderError::CachedGeometry.text() == "cached geometry refs not supported in part 2e-1"@,
        RenderError::NoMaterials.text() == "material buffer not yet allocated"@,
        RenderError::PictureTooShort.text()
            == "RgbaImage::from_raw failed (buffer size mismatch)"@,
        RenderError::ScalerFailed.text()
            == "MTLFXTemporalDenoisedScalerDescriptor could not be created"@,
{
}

} // verus!
