use gamma_rt_engine::render::metalfx::{
    PixelFormat, Property, ScalerConfig, ScalerOutcome, ScalerStep, TemporalDenoisedScaler,
};
use gamma_rt_engine::render::RenderError;

fn run(found: [bool; 4]) -> (Vec<ScalerStep>, ScalerOutcome) {
    let mut taken = vec![ScalerStep::FindClass];
    loop {
        let step = *taken.last().unwrap();
        let next = match step {
            ScalerStep::FindClass => step.after(found[0]),
            ScalerStep::Allocate => step.after(found[1]),
            ScalerStep::Initialize => step.after(found[2]),
            ScalerStep::Configure => step.after(true),
            ScalerStep::Create => step.after(found[3]),
            ScalerStep::Release { .. } => step.after(true),
            ScalerStep::Finished { outcome } => return (taken, outcome),
        };
        taken.push(next);
    }
}

#[test]
fn default_configuration() {
    let config = ScalerConfig::default();
    assert_eq!((config.input_width, config.input_height), (800, 600));
    assert_eq!((config.output_width, config.output_height), (800, 600));
    assert_eq!(config.color_format, PixelFormat { raw: 115 });
    assert_eq!(config.output_format, PixelFormat { raw: 115 });
    assert_eq!(config.depth_format, PixelFormat { raw: 55 });
    assert_eq!(config.motion_format, PixelFormat { raw: 65 });
    assert_eq!(config.normal_format, PixelFormat { raw: 115 });
    assert_eq!(config.diffuse_albedo_format, PixelFormat { raw: 70 });
}

#[test]
fn descriptor_properties() {
    let config = ScalerConfig { input_width: 1, input_height: 2, output_width: 3, output_height: 4, ..ScalerConfig::default() };
    assert_eq!(
        config.properties(),
        vec![
            (Property::InputWidth, 1),
            (Property::InputHeight, 2),
            (Property::OutputWidth, 3),
            (Property::OutputHeight, 4),
            (Property::ColorTextureFormat, 115),
            (Property::OutputTextureFormat, 115),
            (Property::DepthTextureFormat, 55),
            (Property::MotionTextureFormat, 65),
            (Property::NormalTextureFormat, 115),
            (Property::DiffuseAlbedoTextureFormat, 70),
        ]
    );
}

#[test]
fn scaler_needs_every_object() {
    for bits in 0..16u32 {
        let found = [bits & 1 != 0, bits & 2 != 0, bits & 4 != 0, bits & 8 != 0];
        let (taken, outcome) = run(found);
        let expected = if bits == 15 {
            ScalerOutcome::Created
        } else if found[0] && !(found[1] && found[2]) {
            ScalerOutcome::Failed
        } else {
            ScalerOutcome::Unsupported
        };
        assert_eq!(outcome, expected);
        let released = taken.iter().filter(|step| matches!(step, ScalerStep::Release { .. })).count();
        assert_eq!(released, if found[0] && found[1] && found[2] { 1 } else { 0 });
    }
}

#[test]
fn how_each_missing_object_ends() {
    assert_eq!(run([false, true, true, true]).1, ScalerOutcome::Unsupported);
    assert_eq!(run([true, false, true, true]).1, ScalerOutcome::Failed);
    assert_eq!(run([true, true, false, true]).1, ScalerOutcome::Failed);
    assert_eq!(run([true, true, true, false]).1, ScalerOutcome::Unsupported);
    assert_eq!(run([true, true, true, true]).1, ScalerOutcome::Created);
}

#[test]
fn created_scaler_has_the_configured_sizes() {
    let config = ScalerConfig { input_width: 1, input_height: 2, output_width: 3, output_height: 4, ..ScalerConfig::default() };
    assert_eq!(
        TemporalDenoisedScaler::try_new(&config, ScalerOutcome::Created),
        Ok(Some(TemporalDenoisedScaler { input_width: 1, input_height: 2, output_width: 3, output_height: 4 }))
    );
    assert_eq!(TemporalDenoisedScaler::try_new(&config, ScalerOutcome::Unsupported), Ok(None));
    assert_eq!(
        TemporalDenoisedScaler::try_new(&config, ScalerOutcome::Failed),
        Err(RenderError::ScalerFailed)
    );
}
