//! The uniform blocks that the kernel reads, and how a scene is packed into
//! them.
use vstd::prelude::*;

use crate::scalar::Float3;
use crate::scalar::Float4;
use crate::scalar::Scalar;
use crate::scalar::UInt4;
use crate::scene::Camera;
use crate::scene::Light;
use crate::scene::Material;

verus! {

/// The camera as the kernel reads it: an orthonormal basis and the factors
/// that map a pixel to a ray.
#[derive(Clone, Copy, Debug, PartialEq, Eq, Structural)]
pub struct CameraUniform {
    /// The eye's position, with 1.0 behind it.
    pub eye: Float4,
    pub right: Float4,
    pub up: Float4,
    pub forward: Float4,
    /// x: tangent of half the field of view, y: width over height.
    pub misc: Float4,
}

/// A mesh's material as the kernel reads it.
#[derive(Clone, Copy, Debug, PartialEq, Eq, Structural)]
pub struct MaterialUniform {
    /// xyz: base color, w: share of the vertex color.
    pub albedo: Float4,
    /// x: metallic or index of refraction, y: roughness, z: shininess,
    /// w: ambient.
    pub params: Float4,
    /// x: how the surface is shaded.
    pub flags: UInt4,
}

/// Where a mesh's data begins in the buffers that all meshes share.
#[derive(Clone, Copy, Debug, PartialEq, Eq, Structural)]
pub struct GeomOffset {
    /// Index of the mesh's first normal.
    pub vertex_offset: u32,
    /// Index of the mesh's first index.
    pub index_offset: u32,
    /// 1 if the mesh has indices, 0 if its vertices come in triangles.
    pub is_indexed: u32,
    pub pad: u32,
}

/// A light as the kernel reads it.
#[derive(Clone, Copy, Debug, PartialEq, Eq, Structural)]
pub struct LightSlot {
    /// xyz: the position, or the direction to a directional light.
    pub pos_or_dir: Float4,
    /// xyz: color, w: intensity.
    pub color: Float4,
    /// xyz: the axis of a spot light's cone.
    pub spot_dir: Float4,
    /// x: range, y and z: cosines of the inner and the outer half angle.
    pub range_cones: Float4,
    /// x: 0 for a directional light, 1 for a point light, 2 for a spot light.
    pub flags: UInt4,
}

/// All lights as the kernel reads them.
#[derive(Clone, Copy, Debug, PartialEq, Eq)]
pub struct LightsUniform {
    /// xyz: ambient color, w: ambient intensity.
    pub ambient: Float4,
    /// x: how many slots are in use.
    pub meta: UInt4,
    pub slots: [LightSlot; 4],
}

/// The lights as a value of the specification.
#[verifier::ext_equal]
pub struct LightsView {
    pub ambient: Float4,
    pub meta: UInt4,
    pub slots: Seq<LightSlot>,
}

impl View for LightsUniform {
    type V = LightsView;

    open spec fn view(&self) -> LightsView {
        LightsView { ambient: self.ambient, meta: self.meta, slots: self.slots@ }
    }
}

/// How a surface is shaded.
pub const UNLIT: u32 = 0;

pub const PHONG: u32 = 1;

pub const PBR: u32 = 2;

pub const MIRROR: u32 = 3;

pub const GLASS: u32 = 4;

/// The kinds of light.
pub const DIRECTIONAL: u32 = 0;

pub const POINT: u32 = 1;

pub const SPOT: u32 = 2;

/// How many lights the kernel takes.
pub const MAX_LIGHTS: usize = 4;

/// The bits of 0.04, below which a PBR surface's highlight would degenerate.
pub const MIN_ROUGHNESS: u32 = 0x3d23_d70a;

/// The bits of 0.001, the shortest range of a light.
pub const MIN_RANGE: u32 = 0x3a83_126f;

/// The material block for a material. A shader preset is shown unlit.
pub open spec fn material_uniform(material: Material) -> MaterialUniform {
    let zero = Scalar::zero();
    match material {
        Material::Unlit { color, vertex_mix } => MaterialUniform {
            albedo: color.extend(vertex_mix),
            params: Float4::zero(),
            flags: UInt4::tag(UNLIT),
        },
        Material::Phong { color, shininess, ambient } => MaterialUniform {
            albedo: color.extend(zero),
            params: Float4 { x: zero, y: zero, z: shininess, w: ambient },
            flags: UInt4::tag(PHONG),
        },
        Material::Pbr { color, metallic, roughness } => MaterialUniform {
            albedo: color.extend(zero),
            params: Float4 {
                x: metallic,
                y: roughness.at_least(Scalar { bits: MIN_ROUGHNESS }),
                z: zero,
                w: zero,
            },
            flags: UInt4::tag(PBR),
        },
        Material::Mirror { tint } => MaterialUniform {
            albedo: tint.extend(zero),
            params: Float4::zero(),
            flags: UInt4::tag(MIRROR),
        },
        Material::Glass { color, ior, absorption: _ } => MaterialUniform {
            albedo: color.extend(zero),
            params: Float4 { x: ior, y: zero, z: zero, w: zero },
            flags: UInt4::tag(GLASS),
        },
        Material::Shader { preset: _, color, time: _, freq: _, intensity: _, texture_layer: _ } =>
            MaterialUniform {
                albedo: color.extend(zero),
                params: Float4::zero(),
                flags: UInt4::tag(UNLIT),
            },
    }
}

/// Packs a material.
pub fn material_to_uniform(material: &Material) -> (uniform: MaterialUniform)
    ensures
        uniform == material_uniform(*material),
{
    match material {
        Material::Unlit { color, vertex_mix } => MaterialUniform {
            albedo: color.extend(*vertex_mix),
            params: Float4::zero(),
            flags: UInt4::tag(UNLIT),
        },
        Material::Phong { color, shininess, ambient } => MaterialUniform {
            albedo: color.extend(Scalar::zero()),
            params: Float4 {
                x: Scalar::zero(),
                y: Scalar::zero(),
                z: *shininess,
                w: *ambient,
            },
            flags: UInt4::tag(PHONG),
        },
        Material::Pbr { color, metallic, roughness } => MaterialUniform {
            albedo: color.extend(Scalar::zero()),
            params: Float4 {
                x: *metallic,
                y: roughness.at_least(Scalar { bits: MIN_ROUGHNESS }),
                z: Scalar::zero(),
                w: Scalar::zero(),
            },
            flags: UInt4::tag(PBR),
        },
        Material::Mirror { tint } => MaterialUniform {
            albedo: tint.extend(Scalar::zero()),
            params: Float4::zero(),
            flags: UInt4::tag(MIRROR),
        },
        Material::Glass { color, ior, absorption: _ } => MaterialUniform {
            albedo: color.extend(Scalar::zero()),
            params: Float4 {
                x: *ior,
                y: Scalar::zero(),
                z: Scalar::zero(),
                w: Scalar::zero(),
            },
            flags: UInt4::tag(GLASS),
        },
        Material::Shader { color, .. } => MaterialUniform {
            albedo: color.extend(Scalar::zero()),
            params: Float4::zero(),
            flags: UInt4::tag(UNLIT),
        },
    }
}

/// The camera's computed terms.
#[derive(Clone, Copy, Debug, PartialEq, Eq, Structural)]
pub struct CameraTerms {
    pub right: Float3,
    pub up: Float3,
    pub forward: Float3,
    pub tan_half_fov: Scalar,
    pub aspect: Scalar,
}

/// The camera block for a camera and its computed terms.
pub open spec fn camera_uniform(camera: Camera, terms: CameraTerms) -> CameraUniform {
    let zero = Scalar::zero();
    CameraUniform {
        eye: camera.pos.extend(Scalar::one()),
        right: terms.right.extend(zero),
        up: terms.up.extend(zero),
        forward: terms.forward.extend(zero),
        misc: Float4 { x: terms.tan_half_fov, y: terms.aspect, z: zero, w: zero },
    }
}

/// Packs a camera.
pub fn build_camera_uniform(camera: &Camera, terms: &CameraTerms) -> (uniform: CameraUniform)
    ensures
        uniform == camera_uniform(*camera, *terms),
{
    CameraUniform {
        eye: camera.pos.extend(Scalar::one()),
        right: terms.right.extend(Scalar::zero()),
        up: terms.up.extend(Scalar::zero()),
        forward: terms.forward.extend(Scalar::zero()),
        misc: Float4 {
            x: terms.tan_half_fov,
            y: terms.aspect,
            z: Scalar::zero(),
            w: Scalar::zero(),
        },
    }
}

/// A light's computed terms. Those that its kind does not need are not read.
#[derive(Clone, Copy, Debug, PartialEq, Eq, Structural)]
pub struct LightTerms {
    /// The light's direction, normalized.
    pub unit_direction: Float3,
    /// The cosine of half a spot light's inner angle.
    pub cos_inner: Scalar,
    /// The cosine of half a spot light's outer angle, kept below the inner
    /// one.
    pub cos_outer: Scalar,
}

/// The slot for a light; none for an area light, which does not contribute.
pub open spec fn light_slot(light: Light, terms: LightTerms) -> Option<LightSlot> {
    let zero = Scalar::zero();
    let shortest = Scalar { bits: MIN_RANGE };
    match light {
        Light::Directional { direction: _, color, intensity } => Some(
            LightSlot {
                pos_or_dir: terms.unit_direction.extend(zero),
                color: color.extend(intensity),
                spot_dir: Float4::zero(),
                range_cones: Float4::zero(),
                flags: UInt4::tag(DIRECTIONAL),
            },
        ),
        Light::Point { position, color, intensity, range } => Some(
            LightSlot {
                pos_or_dir: position.extend(zero),
                color: color.extend(intensity),
                spot_dir: Float4::zero(),
                range_cones: Float4 { x: range.at_least(shortest), y: zero, z: zero, w: zero },
                flags: UInt4::tag(POINT),
            },
        ),
        Light::Spot {
            position,
            direction: _,
            color,
            intensity,
            range,
            inner_angle_deg: _,
            outer_angle_deg: _,
        } => Some(
            LightSlot {
                pos_or_dir: position.extend(zero),
                color: color.extend(intensity),
                spot_dir: terms.unit_direction.extend(zero),
                range_cones: Float4 {
                    x: range.at_least(shortest),
                    y: terms.cos_inner,
                    z: terms.cos_outer,
                    w: zero,
                },
                flags: UInt4::tag(SPOT),
            },
        ),
        Light::Area { position: _, normal: _, width: _, height: _, color: _, intensity: _ } => None,
    }
}

/// The slot of a scene without lights: warm white, from the upper right.
pub open spec fn sun_slot() -> LightSlot {
    LightSlot {
        // (0.3, 1.0, 0.4), normalized
        pos_or_dir: Float4 {
            x: Scalar { bits: 0x3e89_624f },
            y: Scalar { bits: 0x3f64_f92e },
            z: Scalar { bits: 0x3eb7_2dbf },
            w: Scalar::zero(),
        },
        // (1.0, 0.98, 0.92), intensity 1.0
        color: Float4 {
            x: Scalar::one(),
            y: Scalar { bits: 0x3f7a_e148 },
            z: Scalar { bits: 0x3f6b_851f },
            w: Scalar::one(),
        },
        spot_dir: Float4::zero(),
        range_cones: Float4::zero(),
        flags: UInt4::tag(DIRECTIONAL),
    }
}

/// The slot of no light.
pub open spec fn empty_slot() -> LightSlot {
    LightSlot {
        pos_or_dir: Float4::zero(),
        color: Float4::zero(),
        spot_dir: Float4::zero(),
        range_cones: Float4::zero(),
        flags: UInt4::tag(0),
    }
}

/// The ambient light: (0.15, 0.17, 0.20), intensity 1.0.
pub open spec fn ambient_light() -> Float4 {
    Float4 {
        x: Scalar { bits: 0x3e19_999a },
        y: Scalar { bits: 0x3e2e_147b },
        z: Scalar { bits: 0x3e4c_cccd },
        w: Scalar::one(),
    }
}

/// The slots of all lights that have one, in order.
pub open spec fn shining(lights: Seq<Light>, terms: Seq<LightTerms>) -> Seq<LightSlot>
    decreases lights.len(),
{
    if lights.len() == 0 {
        Seq::empty()
    } else {
        let before = shining(lights.drop_last(), terms.drop_last());
        match light_slot(lights.last(), terms.last()) {
            Some(slot) => before.push(slot),
            None => before,
        }
    }
}

/// The slots in use: those of the first four lights that have one, or the
/// sun's if no light has one.
pub open spec fn used_slots(lights: Seq<Light>, terms: Seq<LightTerms>) -> Seq<LightSlot> {
    let all = shining(lights, terms);
    if all.len() == 0 {
        seq![sun_slot()]
    } else if all.len() <= MAX_LIGHTS {
        all
    } else {
        all.take(MAX_LIGHTS as int)
    }
}

/// The lights block: the slots in use, and empty ones behind them.
pub open spec fn lights_uniform(lights: Seq<Light>, terms: Seq<LightTerms>) -> LightsView {
    let used = used_slots(lights, terms);
    LightsView {
        ambient: ambient_light(),
        meta: UInt4::tag(used.len() as u32),
        slots: Seq::new(
            MAX_LIGHTS as nat,
            |i: int|
                if i < used.len() {
                    used[i]
                } else {
                    empty_slot()
                },
        ),
    }
}

fn pack_light(light: &Light, terms: &LightTerms) -> (slot: Option<LightSlot>)
    ensures
        slot == light_slot(*light, *terms),
{
    match light {
        Light::Directional { direction: _, color, intensity } => Some(
            LightSlot {
                pos_or_dir: terms.unit_direction.extend(Scalar::zero()),
                color: color.extend(*intensity),
                spot_dir: Float4::zero(),
                range_cones: Float4::zero(),
                flags: UInt4::tag(DIRECTIONAL),
            },
        ),
        Light::Point { position, color, intensity, range } => Some(
            LightSlot {
                pos_or_dir: position.extend(Scalar::zero()),
                color: color.extend(*intensity),
                spot_dir: Float4::zero(),
                range_cones: Float4 {
                    x: range.at_least(Scalar { bits: MIN_RANGE }),
                    y: Scalar::zero(),
                    z: Scalar::zero(),
                    w: Scalar::zero(),
                },
                flags: UInt4::tag(POINT),
            },
        ),
        Light::Spot { position, direction: _, color, intensity, range, .. } => Some(
            LightSlot {
                pos_or_dir: position.extend(Scalar::zero()),
                color: color.extend(*intensity),
                spot_dir: terms.unit_direction.extend(Scalar::zero()),
                range_cones: Float4 {
                    x: range.at_least(Scalar { bits: MIN_RANGE }),
                    y: terms.cos_inner,
                    z: terms.cos_outer,
                    w: Scalar::zero(),
                },
                flags: UInt4::tag(SPOT),
            },
        ),
        Light::Area { .. } => None,
    }
}

fn pack_sun() -> (slot: LightSlot)
    ensures
        slot == sun_slot(),
{
    LightSlot {
        pos_or_dir: Float4 {
            x: Scalar { bits: 0x3e89_624f },
            y: Scalar { bits: 0x3f64_f92e },
            z: Scalar { bits: 0x3eb7_2dbf },
            w: Scalar::zero(),
        },
        color: Float4 {
            x: Scalar::one(),
            y: Scalar { bits: 0x3f7a_e148 },
            z: Scalar { bits: 0x3f6b_851f },
            w: Scalar::one(),
        },
        spot_dir: Float4::zero(),
        range_cones: Float4::zero(),
        flags: UInt4::tag(DIRECTIONAL),
    }
}

fn pack_nothing() -> (slot: LightSlot)
    ensures
        slot == empty_slot(),
{
    LightSlot {
        pos_or_dir: Float4::zero(),
        color: Float4::zero(),
        spot_dir: Float4::zero(),
        range_cones: Float4::zero(),
        flags: UInt4::tag(0),
    }
}

/// Packs the lights, whose computed terms come one for each.
pub fn build_lights_uniform(lights: &Vec<Light>, terms: &Vec<LightTerms>) -> (uniform:
    LightsUniform)
    requires
        terms@.len() == lights@.len(),
    ensures
        uniform@ == lights_uniform(lights@, terms@),
{
    let mut slots: Vec<LightSlot> = Vec::new();
    let mut i: usize = 0;
    while i < lights.len() && slots.len() < MAX_LIGHTS
        invariant
            terms@.len() == lights@.len(),
            0 <= i <= lights@.len(),
            slots@.len() <= MAX_LIGHTS,
            slots@ == shining(lights@.take(i as int), terms@.take(i as int)),
        decreases lights@.len() - i,
    {
        proof {
            assert(lights@.take(i + 1).drop_last() =~= lights@.take(i as int));
            assert(terms@.take(i + 1).drop_last() =~= terms@.take(i as int));
        }
        match pack_light(&lights[i], &terms[i]) {
            Some(slot) => {
                slots.push(slot);
            },
            None => {},
        }
        i = i + 1;
    }
    proof {
        lemma_shining_prefix(lights@, terms@, i as int);
        assert(lights@.take(lights@.len() as int) =~= lights@);
        assert(terms@.take(terms@.len() as int) =~= terms@);
        assert(slots@.len() == MAX_LIGHTS ==> shining(lights@, terms@).take(MAX_LIGHTS as int)
            =~= slots@);
    }
    if slots.len() == 0 {
        slots.push(pack_sun());
    }
    let ghost used = slots@;
    assert(used =~= used_slots(lights@, terms@));
    let count: u32 = slots.len() as u32;
    while slots.len() < MAX_LIGHTS
        invariant
            used.len() <= slots@.len() <= MAX_LIGHTS,
            forall|k: int| 0 <= k < used.len() ==> slots@[k] == used[k],
            forall|k: int| used.len() <= k < slots@.len() ==> slots@[k] == empty_slot(),
        decreases MAX_LIGHTS - slots@.len(),
    {
        slots.push(pack_nothing());
    }
    LightsUniform {
        ambient: Float4 {
            x: Scalar { bits: 0x3e19_999a },
            y: Scalar { bits: 0x3e2e_147b },
            z: Scalar { bits: 0x3e4c_cccd },
            w: Scalar::one(),
        },
        meta: UInt4::tag(count),
        slots: [slots[0], slots[1], slots[2], slots[3]],
    }
}

/// The slots of the first lights come first among all slots.
proof fn lemma_shining_prefix(lights: Seq<Light>, terms: Seq<LightTerms>, n: int)
    requires
        lights.len() == terms.len(),
        0 <= n <= lights.len(),
    ensures
        shining(lights.take(n), terms.take(n)).len() <= shining(lights, terms).len(),
        shining(lights, terms).take(shining(lights.take(n), terms.take(n)).len() as int)
            =~= shining(lights.take(n), terms.take(n)),
    decreases lights.len() - n,
{
    if n == lights.len() {
        assert(lights.take(n) =~= lights);
        assert(terms.take(n) =~= terms);
    } else {
        lemma_shining_prefix(lights, terms, n + 1);
        assert(lights.take(n + 1).drop_last() =~= lights.take(n));
        assert(terms.take(n + 1).drop_last() =~= terms.take(n));
        let shorter = shining(lights.take(n), terms.take(n));
        let longer = shining(lights.take(n + 1), terms.take(n + 1));
        assert(shorter.len() <= longer.len());
        assert(longer.take(shorter.len() as int) =~= shorter);
        assert(shining(lights, terms).take(shorter.len() as int) =~= longer.take(
            shorter.len() as int,
        ));
    }
}

/// Between one and four slots are in use, and those behind them are empty.
pub proof fn lemma_used_slot_count(lights: Seq<Light>, terms: Seq<LightTerms>)
    requires
        lights.len() == terms.len(),
    ensures
        1 <= lights_uniform(lights, terms).meta.x <= MAX_LIGHTS,
        lights_uniform(lights, terms).slots.len() == MAX_LIGHTS,
        forall|i: int|
            lights_uniform(lights, terms).meta.x <= i < MAX_LIGHTS ==> lights_uniform(
                lights,
                terms,
            ).slots[i] == empty_slot(),
{
}

/// An area light leaves the lights block as it is without it.
pub proof fn lemma_area_light_is_ignored(
    lights: Seq<Light>,
    terms: Seq<LightTerms>,
    at: int,
    area: Light,
    area_terms: LightTerms,
)
    requires
        lights.len() == terms.len(),
        0 <= at <= lights.len(),
        area is Area,
    ensures
        lights_uniform(lights.insert(at, area), terms.insert(at, area_terms)) == lights_uniform(
            lights,
            terms,
        ),
{
    lemma_area_light_does_not_shine(lights, terms, at, area, area_terms);
}

proof fn lemma_area_light_does_not_shine(
    lights: Seq<Light>,
    terms: Seq<LightTerms>,
    at: int,
    area: Light,
    area_terms: LightTerms,
)
    requires
        lights.len() == terms.len(),
        0 <= at <= lights.len(),
        area is Area,
    ensures
        shining(lights.insert(at, area), terms.insert(at, area_terms)) == shining(lights, terms),
    decreases lights.len() - at,
{
    let more = lights.insert(at, area);
    let more_terms = terms.insert(at, area_terms);
    if at == lights.len() {
        assert(more.drop_last() =~= lights);
        assert(more_terms.drop_last() =~= terms);
    } else {
        lemma_area_light_does_not_shine(
            lights.drop_last(),
            terms.drop_last(),
            at,
            area,
            area_terms,
        );
        assert(more.drop_last() =~= lights.drop_last().insert(at, area));
        assert(more_terms.drop_last() =~= terms.drop_last().insert(at, area_terms));
    }
}

/// Once four lights have slots, lights behind them change nothing.
pub proof fn lemma_lights_beyond_four_are_ignored(
    lights: Seq<Light>,
    terms: Seq<LightTerms>,
    n: int,
)
    requires
        lights.len() == terms.len(),
        0 <= n <= lights.len(),
        shining(lights.take(n), terms.take(n)).len() >= MAX_LIGHTS,
    ensures
        lights_uniform(lights, terms) == lights_uniform(lights.take(n), terms.take(n)),
{
    lemma_shining_prefix(lights, terms, n);
    let few = shining(lights.take(n), terms.take(n));
    let all = shining(lights, terms);
    assert(all.take(MAX_LIGHTS as int) =~= few.take(MAX_LIGHTS as int)) by {
        assert forall|i: int| 0 <= i < MAX_LIGHTS implies all[i] == few[i] by {
            assert(all.take(few.len() as int)[i] == few[i]);
        }
    }
    assert(used_slots(lights, terms) =~= used_slots(lights.take(n), terms.take(n)));
}

/// A PBR surface's roughness is a number, and not below the least one.
pub proof fn lemma_roughness_is_bounded(color: Float3, metallic: Scalar, roughness: Scalar)
    ensures
        ({
            let packed = material_uniform(Material::Pbr { color, metallic, roughness }).params.y;
            &&& !packed.is_nan()
            &&& packed.order_key() >= (Scalar { bits: MIN_ROUGHNESS }).order_key()
        }),
{
}

/// Whatever its kind, a packed material shows the material's own color, or a
/// mirror's tint, with red, green and blue each in its place.
pub proof fn lemma_material_keeps_its_color(material: Material)
    ensures
        ({
            let own = match material {
                Material::Unlit { color, .. } => color,
                Material::Phong { color, .. } => color,
                Material::Pbr { color, .. } => color,
                Material::Glass { color, .. } => color,
                Material::Mirror { tint } => tint,
                Material::Shader { color, .. } => color,
            };
            let shown = material_uniform(material).albedo;
            &&& shown.x == own.x
            &&& shown.y == own.y
            &&& shown.z == own.z
        }),
{
}

/// The kernel tells the kinds of material apart by their tags. A shader preset
/// passes for an unlit one.
pub proof fn lemma_material_kinds(material: Material)
    ensures
        material_uniform(material).flags.x == 0 <==> material is Unlit || material is Shader,
        material_uniform(material).flags.x == 1 <==> material is Phong,
        material_uniform(material).flags.x == 2 <==> material is Pbr,
        material_uniform(material).flags.x == 3 <==> material is Mirror,
        material_uniform(material).flags.x == 4 <==> material is Glass,
        material_uniform(material).flags.y == 0,
        material_uniform(material).flags.z == 0,
        material_uniform(material).flags.w == 0,
{
}

/// Each parameter of a material reaches the kernel in its own place. A PBR
/// surface keeps its roughness if that is a number from 0.04 up, and gets 0.04
/// otherwise.
pub proof fn lemma_material_keeps_its_parameters(material: Material)
    ensures
        material matches Material::Unlit { vertex_mix, .. } ==> material_uniform(material).albedo.w
            == vertex_mix,
        material matches Material::Phong { shininess, ambient, .. } ==> {
            &&& material_uniform(material).params.z == shininess
            &&& material_uniform(material).params.w == ambient
        },
        material matches Material::Pbr { metallic, roughness, .. } ==> {
            let packed = material_uniform(material).params;
            &&& packed.x == metallic
            &&& 0x3d23_d70a <= roughness.bits <= 0x7f80_0000 ==> packed.y == roughness
            &&& roughness.bits < 0x3d23_d70a || roughness.bits > 0x7f80_0000 ==> packed.y.bits
                == 0x3d23_d70a
        },
        material matches Material::Glass { ior, .. } ==> material_uniform(material).params.x == ior,
{
}

/// Where a material has nothing to say to the kernel, the kernel reads zero.
pub proof fn lemma_material_leaves_the_rest_zero(material: Material)
    ensures
        !(material is Unlit) ==> material_uniform(material).albedo.w.bits == 0,
        !(material is Pbr || material is Glass) ==> material_uniform(material).params.x.bits == 0,
        !(material is Pbr) ==> material_uniform(material).params.y.bits == 0,
        !(material is Phong) ==> material_uniform(material).params.z.bits == 0,
        !(material is Phong) ==> material_uniform(material).params.w.bits == 0,
{
}

/// The camera block holds the camera's own position and each computed term in
/// its place; what is left is 1.0 behind the position, and zero.
pub proof fn lemma_camera_keeps_its_terms(camera: Camera, terms: CameraTerms)
    ensures
        ({
            let block = camera_uniform(camera, terms);
            &&& block.eye.x == camera.pos.x
            &&& block.eye.y == camera.pos.y
            &&& block.eye.z == camera.pos.z
            &&& block.eye.w.bits == 0x3f80_0000
            &&& block.right.x == terms.right.x
            &&& block.right.y == terms.right.y
            &&& block.right.z == terms.right.z
            &&& block.right.w.bits == 0
            &&& block.up.x == terms.up.x
            &&& block.up.y == terms.up.y
            &&& block.up.z == terms.up.z
            &&& block.up.w.bits == 0
            &&& block.forward.x == terms.forward.x
            &&& block.forward.y == terms.forward.y
            &&& block.forward.z == terms.forward.z
            &&& block.forward.w.bits == 0
            &&& block.misc.x == terms.tan_half_fov
            &&& block.misc.y == terms.aspect
            &&& block.misc.z.bits == 0
            &&& block.misc.w.bits == 0
        }),
{
}

/// Every light but an area light has a slot, which shows its own color and
/// intensity and tells its kind.
pub proof fn lemma_slot_keeps_the_glow(light: Light, terms: LightTerms)
    ensures
        light_slot(light, terms) is None <==> light is Area,
        light_slot(light, terms) matches Some(slot) ==> {
            let (own, glow) = match light {
                Light::Directional { color, intensity, .. } => (color, intensity),
                Light::Point { color, intensity, .. } => (color, intensity),
                Light::Spot { color, intensity, .. } => (color, intensity),
                Light::Area { color, intensity, .. } => (color, intensity),
            };
            &&& slot.color.x == own.x
            &&& slot.color.y == own.y
            &&& slot.color.z == own.z
            &&& slot.color.w == glow
            &&& slot.flags.x == 0 <==> light is Directional
            &&& slot.flags.x == 1 <==> light is Point
            &&& slot.flags.x == 2 <==> light is Spot
            &&& slot.flags.y == 0 && slot.flags.z == 0 && slot.flags.w == 0
        },
{
}

/// A point or a spot light stands where it was put; a directional one is known
/// by its normalized direction. A spot light shines along its normalized
/// direction, and no other light has a cone.
pub proof fn lemma_slot_keeps_the_place(light: Light, terms: LightTerms)
    ensures
        light_slot(light, terms) matches Some(slot) ==> {
            let towards = terms.unit_direction;
            let place = match light {
                Light::Point { position, .. } => position,
                Light::Spot { position, .. } => position,
                _ => towards,
            };
            &&& slot.pos_or_dir.x == place.x
            &&& slot.pos_or_dir.y == place.y
            &&& slot.pos_or_dir.z == place.z
            &&& slot.pos_or_dir.w.bits == 0
            &&& light is Spot ==> slot.spot_dir.x == towards.x && slot.spot_dir.y == towards.y
                && slot.spot_dir.z == towards.z
            &&& !(light is Spot) ==> slot.spot_dir.x.bits == 0 && slot.spot_dir.y.bits == 0
                && slot.spot_dir.z.bits == 0
            &&& slot.spot_dir.w.bits == 0
        },
{
}

/// A point or a spot light keeps its own range, bit for bit, if that is a
/// number from 0.001 up; any other range becomes 0.001. Only a spot light has
/// cone angles.
pub proof fn lemma_slot_keeps_the_range(light: Light, terms: LightTerms)
    ensures
        light_slot(light, terms) matches Some(slot) ==> {
            let own = match light {
                Light::Point { range, .. } => range.bits,
                Light::Spot { range, .. } => range.bits,
                _ => 0,
            };
            &&& !(light is Directional) && 0x3a83_126f <= own <= 0x7f80_0000
                ==> slot.range_cones.x.bits == own
            &&& !(light is Directional) && (own < 0x3a83_126f || own > 0x7f80_0000)
                ==> slot.range_cones.x.bits == 0x3a83_126f
            &&& light is Directional ==> slot.range_cones.x.bits == 0
            &&& light is Spot ==> slot.range_cones.y == terms.cos_inner
            &&& light is Spot ==> slot.range_cones.z == terms.cos_outer
            &&& !(light is Spot) ==> slot.range_cones.y.bits == 0 && slot.range_cones.z.bits == 0
            &&& slot.range_cones.w.bits == 0
        },
{
}

/// How many of the lights are no area lights.
pub open spec fn shining_count(lights: Seq<Light>) -> nat
    decreases lights.len(),
{
    if lights.len() == 0 {
        0
    } else if lights.last() is Area {
        shining_count(lights.drop_last())
    } else {
        shining_count(lights.drop_last()) + 1
    }
}

proof fn lemma_shining_len(lights: Seq<Light>, terms: Seq<LightTerms>)
    requires
        lights.len() == terms.len(),
    ensures
        shining(lights, terms).len() == shining_count(lights),
    decreases lights.len(),
{
    if lights.len() > 0 {
        lemma_shining_len(lights.drop_last(), terms.drop_last());
    }
}

/// The block tells how many lights the kernel is to evaluate: all but the area
/// lights, at most four, and one where there would be none.
pub proof fn lemma_lights_are_counted(lights: Seq<Light>, terms: Seq<LightTerms>)
    requires
        lights.len() == terms.len(),
    ensures
        ({
            let meta = lights_uniform(lights, terms).meta;
            &&& shining_count(lights) == 0 ==> meta.x == 1
            &&& 1 <= shining_count(lights) <= 4 ==> meta.x == shining_count(lights)
            &&& shining_count(lights) > 4 ==> meta.x == 4
            &&& meta.y == 0 && meta.z == 0 && meta.w == 0
        }),
{
    lemma_shining_len(lights, terms);
}

/// A light finds its slot behind those of the lights before it, counting no
/// area lights, if four slots are enough for that.
pub proof fn lemma_light_finds_its_slot(lights: Seq<Light>, terms: Seq<LightTerms>, i: int)
    requires
        lights.len() == terms.len(),
        0 <= i < lights.len(),
        !(lights[i] is Area),
        shining_count(lights.take(i)) < 4,
    ensures
        Some(lights_uniform(lights, terms).slots[shining_count(lights.take(i)) as int])
            == light_slot(lights[i], terms[i]),
{
    let earlier = shining(lights.take(i), terms.take(i));
    let further = shining(lights.take(i + 1), terms.take(i + 1));
    lemma_shining_len(lights.take(i), terms.take(i));
    lemma_shining_prefix(lights, terms, i + 1);
    assert(lights.take(i + 1).drop_last() =~= lights.take(i));
    assert(terms.take(i + 1).drop_last() =~= terms.take(i));
    let all = shining(lights, terms);
    assert(further == earlier.push(light_slot(lights[i], terms[i])->0));
    assert(all.take(further.len() as int)[earlier.len() as int] == further[earlier.len() as int]);
    assert(all[earlier.len() as int] == light_slot(lights[i], terms[i])->0);
}

/// Where no light shines, a warm sun does, from the direction (0.3, 1.0, 0.4),
/// in the color (1.0, 0.98, 0.92).
pub proof fn lemma_sun_shines_instead(lights: Seq<Light>, terms: Seq<LightTerms>)
    requires
        lights.len() == terms.len(),
        shining_count(lights) == 0,
    ensures
        ({
            let sun = lights_uniform(lights, terms).slots[0];
            &&& sun.pos_or_dir.x.bits == 0x3e89_624f
            &&& sun.pos_or_dir.y.bits == 0x3f64_f92e
            &&& sun.pos_or_dir.z.bits == 0x3eb7_2dbf
            &&& sun.pos_or_dir.w.bits == 0
            &&& sun.color.x.bits == 0x3f80_0000
            &&& sun.color.y.bits == 0x3f7a_e148
            &&& sun.color.z.bits == 0x3f6b_851f
            &&& sun.color.w.bits == 0x3f80_0000
            &&& sun.spot_dir.x.bits == 0 && sun.spot_dir.y.bits == 0
            &&& sun.spot_dir.z.bits == 0 && sun.spot_dir.w.bits == 0
            &&& sun.range_cones.x.bits == 0 && sun.range_cones.y.bits == 0
            &&& sun.range_cones.z.bits == 0 && sun.range_cones.w.bits == 0
            &&& sun.flags.x == 0 && sun.flags.y == 0 && sun.flags.z == 0 && sun.flags.w == 0
        }),
{
    lemma_shining_len(lights, terms);
}

/// The ambient light is the same whatever the lights are: (0.15, 0.17, 0.20),
/// at full intensity.
pub proof fn lemma_ambient_light_is_fixed(lights: Seq<Light>, terms: Seq<LightTerms>)
    ensures
        lights_uniform(lights, terms).ambient.x.bits == 0x3e19_999a,
        lights_uniform(lights, terms).ambient.y.bits == 0x3e2e_147b,
        lights_uniform(lights, terms).ambient.z.bits == 0x3e4c_cccd,
        lights_uniform(lights, terms).ambient.w.bits == 0x3f80_0000,
{
}

/// A slot that is not in use is all zeros.
pub proof fn lemma_unused_slots_are_zero(lights: Seq<Light>, terms: Seq<LightTerms>, i: int)
    requires
        lights.len() == terms.len(),
        shining_count(lights) <= i < 4,
        1 <= i,
    ensures
        ({
            let slot = lights_uniform(lights, terms).slots[i];
            &&& slot.pos_or_dir.x.bits == 0 && slot.pos_or_dir.y.bits == 0
            &&& slot.pos_or_dir.z.bits == 0 && slot.pos_or_dir.w.bits == 0
            &&& slot.color.x.bits == 0 && slot.color.y.bits == 0
            &&& slot.color.z.bits == 0 && slot.color.w.bits == 0
            &&& slot.spot_dir.x.bits == 0 && slot.spot_dir.y.bits == 0
            &&& slot.spot_dir.z.bits == 0 && slot.spot_dir.w.bits == 0
            &&& slot.range_cones.x.bits == 0 && slot.range_cones.y.bits == 0
            &&& slot.range_cones.z.bits == 0 && slot.range_cones.w.bits == 0
            &&& slot.flags.x == 0 && slot.flags.y == 0 && slot.flags.z == 0 && slot.flags.w == 0
        }),
{
    lemma_shining_len(lights, terms);
}

/// The view of the lights block shows all of it, in order.
pub proof fn lemma_lights_view_shows_all(block: LightsUniform)
    ensures
        block@.ambient == block.ambient,
        block@.meta == block.meta,
        block@.slots == block.slots@,
{
}

} // verus!
