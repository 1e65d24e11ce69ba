//! Creating MetalFX's temporal denoiser and upscaler.
//!
//! The class exists only on recent systems, and a device may refuse to make
//! an instance. Both mean that the scaler is not supported, not that something
//! failed: the caller may fall back to another denoiser. A descriptor that
//! cannot be allocated or initialized is a failure.
use vstd::prelude::*;

use crate::render::RenderError;

verus! {

/// A pixel format, by its number in Metal.
#[derive(Debug, Clone, Copy, PartialEq, Eq, Structural)]
pub struct PixelFormat {
    pub raw: u64,
}

/// `MTLPixelFormatRGBA16Float`.
pub const RGBA16_FLOAT: u64 = 115;

/// `MTLPixelFormatR32Float`.
pub const R32_FLOAT: u64 = 55;

/// `MTLPixelFormatRG16Float`.
pub const RG16_FLOAT: u64 = 65;

/// `MTLPixelFormatRGBA8Unorm`.
pub const RGBA8_UNORM: u64 = 70;

/// The sizes and formats that a scaler is created for.
#[derive(Debug, Clone, Copy, PartialEq, Eq, Structural)]
pub struct ScalerConfig {
    pub input_width: u32,
    pub input_height: u32,
    pub output_width: u32,
    pub output_height: u32,
    /// The noisy color.
    pub color_format: PixelFormat,
    /// The denoised color, in high dynamic range.
    pub output_format: PixelFormat,
    pub depth_format: PixelFormat,
    pub motion_format: PixelFormat,
    pub normal_format: PixelFormat,
    pub diffuse_albedo_format: PixelFormat,
}

impl Default for ScalerConfig {
    fn default() -> (config: ScalerConfig)
        ensures
            config == (ScalerConfig {
                input_width: 800,
                input_height: 600,
                output_width: 800,
                output_height: 600,
                color_format: PixelFormat { raw: RGBA16_FLOAT },
                output_format: PixelFormat { raw: RGBA16_FLOAT },
                depth_format: PixelFormat { raw: R32_FLOAT },
                motion_format: PixelFormat { raw: RG16_FLOAT },
                normal_format: PixelFormat { raw: RGBA16_FLOAT },
                diffuse_albedo_format: PixelFormat { raw: RGBA8_UNORM },
            }),
    {
        ScalerConfig {
            input_width: 800,
            input_height: 600,
            output_width: 800,
            output_height: 600,
            color_format: PixelFormat { raw: RGBA16_FLOAT },
            output_format: PixelFormat { raw: RGBA16_FLOAT },
            depth_format: PixelFormat { raw: R32_FLOAT },
            motion_format: PixelFormat { raw: RG16_FLOAT },
            normal_format: PixelFormat { raw: RGBA16_FLOAT },
            diffuse_albedo_format: PixelFormat { raw: RGBA8_UNORM },
        }
    }
}

/// A property of the scaler's descriptor.
#[derive(Debug, Clone, Copy, PartialEq, Eq, Structural)]
pub enum Property {
    InputWidth,
    InputHeight,
    OutputWidth,
    OutputHeight,
    ColorTextureFormat,
    OutputTextureFormat,
    DepthTextureFormat,
    MotionTextureFormat,
    NormalTextureFormat,
    DiffuseAlbedoTextureFormat,
}

/// The properties to be set on the descriptor, in order.
pub open spec fn property_values(config: ScalerConfig) -> Seq<(Property, u64)> {
    seq![
        (Property::InputWidth, config.input_width as u64),
        (Property::InputHeight, config.input_height as u64),
        (Property::OutputWidth, config.output_width as u64),
        (Property::OutputHeight, config.output_height as u64),
        (Property::ColorTextureFormat, config.color_format.raw),
        (Property::OutputTextureFormat, config.output_format.raw),
        (Property::DepthTextureFormat, config.depth_format.raw),
        (Property::MotionTextureFormat, config.motion_format.raw),
        (Property::NormalTextureFormat, config.normal_format.raw),
        (Property::DiffuseAlbedoTextureFormat, config.diffuse_albedo_format.raw),
    ]
}

impl ScalerConfig {
    /// The properties to be set on the descriptor, in order.
    pub fn properties(&self) -> (list: Vec<(Property, u64)>)
        ensures
            list@ == property_values(*self),
    {
        let mut list: Vec<(Property, u64)> = Vec::new();
        list.push((Property::InputWidth, self.input_width as u64));
        list.push((Property::InputHeight, self.input_height as u64));
        list.push((Property::OutputWidth, self.output_width as u64));
        list.push((Property::OutputHeight, self.output_height as u64));
        list.push((Property::ColorTextureFormat, self.color_format.raw));
        list.push((Property::OutputTextureFormat, self.output_format.raw));
        list.push((Property::DepthTextureFormat, self.depth_format.raw));
        list.push((Property::MotionTextureFormat, self.motion_format.raw));
        list.push((Property::NormalTextureFormat, self.normal_format.raw));
        list.push((Property::DiffuseAlbedoTextureFormat, self.diffuse_albedo_format.raw));
        assert(list@ =~= property_values(*self));
        list
    }
}

/// How the creation of a scaler ended.
#[derive(Debug, Clone, Copy, PartialEq, Eq, Structural)]
pub enum ScalerOutcome {
    /// There is a scaler.
    Created,
    /// The system or the device has none.
    Unsupported,
    /// Something went wrong.
    Failed,
}

/// What is to be done next when a scaler is created.
#[derive(Debug, Clone, Copy, PartialEq, Eq, Structural)]
pub enum ScalerStep {
    /// Look up the descriptor's class.
    FindClass,
    /// Allocate a descriptor.
    Allocate,
    /// Initialize it.
    Initialize,
    /// Set its properties.
    Configure,
    /// Have the device make a scaler of it.
    Create,
    /// Release it.
    Release { created: bool },
    /// Nothing: the creation has ended.
    Finished { outcome: ScalerOutcome },
}

impl ScalerStep {
    /// The step behind a step, given whether it yielded an object. The last
    /// two steps and the setting of properties yield none.
    pub open spec fn following(self, found: bool) -> ScalerStep {
        match self {
            ScalerStep::FindClass => if found {
                ScalerStep::Allocate
            } else {
                ScalerStep::Finished { outcome: ScalerOutcome::Unsupported }
            },
            ScalerStep::Allocate => if found {
                ScalerStep::Initialize
            } else {
                ScalerStep::Finished { outcome: ScalerOutcome::Failed }
            },
            ScalerStep::Initialize => if found {
                ScalerStep::Configure
            } else {
                ScalerStep::Finished { outcome: ScalerOutcome::Failed }
            },
            ScalerStep::Configure => ScalerStep::Create,
            ScalerStep::Create => ScalerStep::Release { created: found },
            ScalerStep::Release { created } => ScalerStep::Finished {
                outcome: if created {
                    ScalerOutcome::Created
                } else {
                    ScalerOutcome::Unsupported
                },
            },
            ScalerStep::Finished { outcome } => ScalerStep::Finished { outcome },
        }
    }

    /// Goes on from a step, given whether it yielded an object.
    pub fn after(self, found: bool) -> (next: ScalerStep)
        ensures
            next == self.following(found),
    {
        match self {
            ScalerStep::FindClass => if found {
                ScalerStep::Allocate
            } else {
                ScalerStep::Finished { outcome: ScalerOutcome::Unsupported }
            },
            ScalerStep::Allocate => if found {
                ScalerStep::Initialize
            } else {
                ScalerStep::Finished { outcome: ScalerOutcome::Failed }
            },
            ScalerStep::Initialize => if found {
                ScalerStep::Configure
            } else {
                ScalerStep::Finished { outcome: ScalerOutcome::Failed }
            },
            ScalerStep::Configure => ScalerStep::Create,
            ScalerStep::Create => ScalerStep::Release { created: found },
            ScalerStep::Release { created } => ScalerStep::Finished {
                outcome: if created {
                    ScalerOutcome::Created
                } else {
                    ScalerOutcome::Unsupported
                },
            },
            ScalerStep::Finished { outcome } => ScalerStep::Finished { outcome },
        }
    }
}

/// A scaler that was created: the sizes that it works on.
#[derive(Debug, Clone, Copy, PartialEq, Eq, Structural)]
pub struct TemporalDenoisedScaler {
    pub input_width: u32,
    pub input_height: u32,
    pub output_width: u32,
    pub output_height: u32,
}

impl TemporalDenoisedScaler {
    /// The scaler that a run of steps ended in; none if it is not supported,
    /// an error if something went wrong.
    pub fn try_new(config: &ScalerConfig, outcome: ScalerOutcome) -> (scaler: Result<
        Option<TemporalDenoisedScaler>,
        RenderError,
    >)
        ensures
            match outcome {
                ScalerOutcome::Created => scaler == Ok::<
                    Option<TemporalDenoisedScaler>,
                    RenderError,
                >(
                    Some(
                        TemporalDenoisedScaler {
                            input_width: config.input_width,
                            input_height: config.input_height,
                            output_width: config.output_width,
                            output_height: config.output_height,
                        },
                    ),
                ),
                ScalerOutcome::Unsupported => scaler == Ok::<
                    Option<TemporalDenoisedScaler>,
                    RenderError,
                >(None),
                ScalerOutcome::Failed => scaler == Err::<
                    Option<TemporalDenoisedScaler>,
                    RenderError,
                >(RenderError::ScalerFailed),
            },
    {
        match outcome {
            ScalerOutcome::Created => Ok(
                Some(
                    TemporalDenoisedScaler {
                        input_width: config.input_width,
                        input_height: config.input_height,
                        output_width: config.output_width,
                        output_height: config.output_height,
                    },
                ),
            ),
            ScalerOutcome::Unsupported => Ok(None),
            ScalerOutcome::Failed => Err(RenderError::ScalerFailed),
        }
    }
}

/// The steps taken from a step on, given whether each yields an object.
pub open spec fn steps(from: ScalerStep, found: Seq<bool>) -> Seq<ScalerStep>
    decreases found.len(),
{
    if found.len() == 0 {
        seq![from]
    } else {
        let before = steps(from, found.drop_last());
        before.push(before.last().following(found.last()))
    }
}

/// Creating a scaler ends after at most six steps. It succeeds if and only if
/// the class, the allocation, the initialization and the device each yielded
/// an object. It fails if and only if there is a class, but no descriptor could
/// be allocated and initialized. The descriptor is released if and only if it
/// was initialized, and then just before the end.
pub proof fn lemma_scaler_creation(found: Seq<bool>)
    requires
        found.len() == 6,
    ensures
        ({
            let taken = steps(ScalerStep::FindClass, found);
            &&& taken.len() == 7
            &&& taken[0] == ScalerStep::FindClass
            &&& found[0] ==> taken[1] == ScalerStep::Allocate
            &&& found[0] && found[1] ==> taken[2] == ScalerStep::Initialize
            &&& found[0] && found[1] && found[2] ==> taken[3] == ScalerStep::Configure && taken[4]
                == ScalerStep::Create && taken[5] == (ScalerStep::Release { created: found[4] })
            &&& taken[6] == (ScalerStep::Finished {
                outcome: if found[0] && !(found[1] && found[2]) {
                    ScalerOutcome::Failed
                } else if found[0] && found[4] {
                    ScalerOutcome::Created
                } else {
                    ScalerOutcome::Unsupported
                },
            })
            &&& found[0] && found[1] && found[2] <==> exists|i: int|
                0 <= i < 7 && #[trigger] taken[i] is Release
            &&& forall|i: int|
                0 <= i < 7 && #[trigger] taken[i] is Release ==> i == 5
        }),
{
    let start = ScalerStep::FindClass;
    reveal_with_fuel(steps, 8);
    let f1 = found.drop_last();
    let f2 = f1.drop_last();
    let f3 = f2.drop_last();
    let f4 = f3.drop_last();
    let f5 = f4.drop_last();
    let f6 = f5.drop_last();
    assert(f6.len() == 0);
    assert(steps(start, f6) == seq![start]);
    assert(f5.last() == found[0]);
    assert(f4.last() == found[1]);
    assert(f3.last() == found[2]);
    assert(f2.last() == found[3]);
    assert(f1.last() == found[4]);
    assert(found.last() == found[5]);
    let taken = steps(start, found);
    let s1 = start.following(found[0]);
    let s2 = s1.following(found[1]);
    let s3 = s2.following(found[2]);
    let s4 = s3.following(found[3]);
    let s5 = s4.following(found[4]);
    let s6 = s5.following(found[5]);
    assert(taken =~= seq![start, s1, s2, s3, s4, s5, s6]);
    if found[0] && found[1] && found[2] {
        assert(taken[5] is Release);
    }
}

/// Every property of the descriptor is set once, each to its own value of the
/// configuration.
pub proof fn lemma_each_property_gets_its_value(config: ScalerConfig)
    ensures
        ({
            let list = property_values(config);
            &&& list.len() == 10
            &&& list.contains((Property::InputWidth, config.input_width as u64))
            &&& list.contains((Property::InputHeight, config.input_height as u64))
            &&& list.contains((Property::OutputWidth, config.output_width as u64))
            &&& list.contains((Property::OutputHeight, config.output_height as u64))
            &&& list.contains((Property::ColorTextureFormat, config.color_format.raw))
            &&& list.contains((Property::OutputTextureFormat, config.output_format.raw))
            &&& list.contains((Property::DepthTextureFormat, config.depth_format.raw))
            &&& list.contains((Property::MotionTextureFormat, config.motion_format.raw))
            &&& list.contains((Property::NormalTextureFormat, config.normal_format.raw))
            &&& list.contains(
                (Property::DiffuseAlbedoTextureFormat, config.diffuse_albedo_format.raw),
            )
            &&& forall|i: int, j: int|
                0 <= i < j < 10 ==> #[trigger] list[i].0 != #[trigger] list[j].0
        }),
{
    let list = property_values(config);
    assert(list[0] == (Property::InputWidth, config.input_width as u64));
    assert(list[1] == (Property::InputHeight, config.input_height as u64));
    assert(list[2] == (Property::OutputWidth, config.output_width as u64));
    assert(list[3] == (Property::OutputHeight, config.output_height as u64));
    assert(list[4] == (Property::ColorTextureFormat, config.color_format.raw));
    assert(list[5] == (Property::OutputTextureFormat, config.output_format.raw));
    assert(list[6] == (Property::DepthTextureFormat, config.depth_format.raw));
    assert(list[7] == (Property::MotionTextureFormat, config.motion_format.raw));
    assert(list[8] == (Property::NormalTextureFormat, config.normal_format.raw));
    assert(list[9] == (Property::DiffuseAlbedoTextureFormat, config.diffuse_albedo_format.raw));
}

} // verus!
