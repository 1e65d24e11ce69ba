use gamma_rt_engine::render::uniforms::{
    build_camera_uniform, build_lights_uniform, material_to_uniform, CameraTerms, LightSlot, LightTerms,
    MIN_RANGE, MIN_ROUGHNESS,
};
use gamma_rt_engine::scalar::{Float3, Float4, Scalar, UInt4};
use gamma_rt_engine::scene::{
    default_ambient, default_roughness, default_shininess, Camera, CameraMode, Light, Material,
};

fn s(value: f32) -> Scalar {
    Scalar::from_bits(value.to_bits())
}

fn f3(x: f32, y: f32, z: f32) -> Float3 {
    Float3 { x: s(x), y: s(y), z: s(z) }
}

fn f4(x: f32, y: f32, z: f32, w: f32) -> Float4 {
    Float4 { x: s(x), y: s(y), z: s(z), w: s(w) }
}

fn tag(x: u32) -> UInt4 {
    UInt4 { x, y: 0, z: 0, w: 0 }
}

fn terms(n: f32) -> LightTerms {
    LightTerms { unit_direction: f3(n, 0.0, 0.0), cos_inner: s(0.9), cos_outer: s(0.8) }
}

fn point(n: f32) -> Light {
    Light::Point { position: f3(n, 2.0, 3.0), color: f3(0.1, 0.2, 0.3), intensity: s(5.0), range: s(7.0) }
}

fn area() -> Light {
    Light::Area {
        position: f3(0.0, 0.0, 0.0),
        normal: f3(0.0, 1.0, 0.0),
        width: s(1.0),
        height: s(1.0),
        color: f3(1.0, 1.0, 1.0),
        intensity: s(1.0),
    }
}

fn empty() -> LightSlot {
    LightSlot {
        pos_or_dir: f4(0.0, 0.0, 0.0, 0.0),
        color: f4(0.0, 0.0, 0.0, 0.0),
        spot_dir: f4(0.0, 0.0, 0.0, 0.0),
        range_cones: f4(0.0, 0.0, 0.0, 0.0),
        flags: tag(0),
    }
}

#[test]
fn scalar_constants() {
    assert_eq!(Scalar::zero(), s(0.0));
    assert_eq!(Scalar::one(), s(1.0));
    assert_eq!(MIN_ROUGHNESS, 0.04f32.to_bits());
    assert_eq!(MIN_RANGE, 0.001f32.to_bits());
    assert_eq!(default_shininess(), s(32.0));
    assert_eq!(default_ambient(), s(0.15));
    assert_eq!(default_roughness(), s(0.5));
}

#[test]
fn at_least_is_the_maximum() {
    let values = [
        0.0f32, -0.0, 0.04, 0.039999, 0.040001, 1.0, -1.0, f32::INFINITY, f32::NEG_INFINITY, f32::NAN, -f32::NAN,
        f32::MIN_POSITIVE, f32::MAX, f32::MIN, 1e-45, -1e-45,
    ];
    for floor in [0.04f32, 0.001, 1e-45, f32::INFINITY] {
        for value in values {
            assert_eq!(s(value).at_least(s(floor)), s(value.max(floor)));
        }
    }
}

#[test]
fn unlit_material() {
    let packed = material_to_uniform(&Material::Unlit { color: f3(0.1, 0.2, 0.3), vertex_mix: s(0.5) });
    assert_eq!(packed.albedo, f4(0.1, 0.2, 0.3, 0.5));
    assert_eq!(packed.params, f4(0.0, 0.0, 0.0, 0.0));
    assert_eq!(packed.flags, tag(0));
}

#[test]
fn phong_material() {
    let packed =
        material_to_uniform(&Material::Phong { color: f3(0.1, 0.2, 0.3), shininess: s(32.0), ambient: s(0.15) });
    assert_eq!(packed.albedo, f4(0.1, 0.2, 0.3, 0.0));
    assert_eq!(packed.params, f4(0.0, 0.0, 32.0, 0.15));
    assert_eq!(packed.flags, tag(1));
}

#[test]
fn pbr_material_keeps_a_least_roughness() {
    let pack = |roughness: f32| {
        material_to_uniform(&Material::Pbr { color: f3(0.1, 0.2, 0.3), metallic: s(0.7), roughness: s(roughness) })
    };
    assert_eq!(pack(0.5).params, f4(0.7, 0.5, 0.0, 0.0));
    assert_eq!(pack(0.0).params, f4(0.7, 0.04, 0.0, 0.0));
    assert_eq!(pack(-1.0).params, f4(0.7, 0.04, 0.0, 0.0));
    assert_eq!(pack(f32::NAN).params, f4(0.7, 0.04, 0.0, 0.0));
    assert_eq!(pack(0.5).flags, tag(2));
}

#[test]
fn mirror_glass_and_shader_materials() {
    let mirror = material_to_uniform(&Material::Mirror { tint: f3(0.1, 0.2, 0.3) });
    assert_eq!((mirror.albedo, mirror.params, mirror.flags), (f4(0.1, 0.2, 0.3, 0.0), f4(0.0, 0.0, 0.0, 0.0), tag(3)));
    let glass =
        material_to_uniform(&Material::Glass { color: f3(0.1, 0.2, 0.3), ior: s(1.5), absorption: f3(9.0, 9.0, 9.0) });
    assert_eq!((glass.albedo, glass.params, glass.flags), (f4(0.1, 0.2, 0.3, 0.0), f4(1.5, 0.0, 0.0, 0.0), tag(4)));
    let shader = material_to_uniform(&Material::Shader {
        preset: "plasma".to_string(),
        color: f3(0.1, 0.2, 0.3),
        time: s(1.0),
        freq: s(2.0),
        intensity: s(3.0),
        texture_layer: -1,
    });
    assert_eq!((shader.albedo, shader.params, shader.flags), (f4(0.1, 0.2, 0.3, 0.0), f4(0.0, 0.0, 0.0, 0.0), tag(0)));
}

#[test]
fn camera_block() {
    let camera = Camera {
        mode: CameraMode::Perspective,
        pos: f3(1.0, 2.0, 3.0),
        target: f3(0.0, 0.0, 0.0),
        up: f3(0.0, 1.0, 0.0),
        fov_deg: s(60.0),
        near: s(0.1),
        far: s(100.0),
        ortho_size: s(0.0),
    };
    let computed = CameraTerms {
        right: f3(4.0, 5.0, 6.0),
        up: f3(7.0, 8.0, 9.0),
        forward: f3(10.0, 11.0, 12.0),
        tan_half_fov: s(0.5),
        aspect: s(1.25),
    };
    let block = build_camera_uniform(&camera, &computed);
    assert_eq!(block.eye, f4(1.0, 2.0, 3.0, 1.0));
    assert_eq!(block.right, f4(4.0, 5.0, 6.0, 0.0));
    assert_eq!(block.up, f4(7.0, 8.0, 9.0, 0.0));
    assert_eq!(block.forward, f4(10.0, 11.0, 12.0, 0.0));
    assert_eq!(block.misc, f4(0.5, 1.25, 0.0, 0.0));
}

#[test]
fn each_kind_of_light() {
    let lights = vec![
        Light::Directional { direction: f3(3.0, 0.0, 0.0), color: f3(0.1, 0.2, 0.3), intensity: s(2.0) },
        point(1.0),
        Light::Spot {
            position: f3(4.0, 5.0, 6.0),
            direction: f3(0.0, -2.0, 0.0),
            color: f3(0.4, 0.5, 0.6),
            intensity: s(3.0),
            range: s(0.0),
            inner_angle_deg: s(20.0),
            outer_angle_deg: s(30.0),
        },
    ];
    let block = build_lights_uniform(&lights, &vec![terms(1.0), terms(2.0), terms(3.0)]);
    assert_eq!(block.meta, tag(3));
    assert_eq!(block.ambient, f4(0.15, 0.17, 0.20, 1.0));
    assert_eq!(
        block.slots[0],
        LightSlot {
            pos_or_dir: f4(1.0, 0.0, 0.0, 0.0),
            color: f4(0.1, 0.2, 0.3, 2.0),
            spot_dir: f4(0.0, 0.0, 0.0, 0.0),
            range_cones: f4(0.0, 0.0, 0.0, 0.0),
            flags: tag(0),
        }
    );
    assert_eq!(
        block.slots[1],
        LightSlot {
            pos_or_dir: f4(1.0, 2.0, 3.0, 0.0),
            color: f4(0.1, 0.2, 0.3, 5.0),
            spot_dir: f4(0.0, 0.0, 0.0, 0.0),
            range_cones: f4(7.0, 0.0, 0.0, 0.0),
            flags: tag(1),
        }
    );
    assert_eq!(
        block.slots[2],
        LightSlot {
            pos_or_dir: f4(4.0, 5.0, 6.0, 0.0),
            color: f4(0.4, 0.5, 0.6, 3.0),
            spot_dir: f4(3.0, 0.0, 0.0, 0.0),
            range_cones: f4(0.001, 0.9, 0.8, 0.0),
            flags: tag(2),
        }
    );
    assert_eq!(block.slots[3], empty());
}

#[test]
fn sun_where_nothing_shines() {
    let direction = glam::Vec3::new(0.3, 1.0, 0.4).normalize();
    for lights in [vec![], vec![area(), area()]] {
        let computed = vec![terms(0.0); lights.len()];
        let block = build_lights_uniform(&lights, &computed);
        assert_eq!(block.meta, tag(1));
        assert_eq!(block.slots[0].pos_or_dir, f4(direction.x, direction.y, direction.z, 0.0));
        assert_eq!(block.slots[0].color, f4(1.0, 0.98, 0.92, 1.0));
        assert_eq!(block.slots[0].flags, tag(0));
        assert_eq!(&block.slots[1..], &[empty(), empty(), empty()]);
    }
}

#[test]
fn area_lights_are_ignored() {
    let with = build_lights_uniform(
        &vec![area(), point(1.0), area(), point(2.0)],
        &vec![terms(0.0), terms(1.0), terms(2.0), terms(3.0)],
    );
    let without = build_lights_uniform(&vec![point(1.0), point(2.0)], &vec![terms(1.0), terms(3.0)]);
    assert_eq!(with, without);
    assert_eq!(with.meta, tag(2));
}

#[test]
fn only_four_lights_count() {
    let many: Vec<Light> = (0..6).map(|n| point(n as f32)).collect();
    let few: Vec<Light> = (0..4).map(|n| point(n as f32)).collect();
    let block = build_lights_uniform(&many, &vec![terms(0.0); 6]);
    assert_eq!(block.meta, tag(4));
    assert_eq!(block, build_lights_uniform(&few, &vec![terms(0.0); 4]));
    assert_eq!(block.slots[3].pos_or_dir, f4(3.0, 2.0, 3.0, 0.0));
}
