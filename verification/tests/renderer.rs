use gamma_rt_engine::render::layout::{bound_words, list_words};
use gamma_rt_engine::render::mesh::{build_mesh_buffers, check_mesh, mesh_vertices, PlacedVertex, RawVertex};
use gamma_rt_engine::render::metal_path::{
    Dispatch, FrameWork, MetalRenderer, SceneTerms, SetupStep,
};
use gamma_rt_engine::render::test_picture::{default_test_scene, render_test_triangle};
use gamma_rt_engine::render::uniforms::{
    build_camera_uniform, build_lights_uniform, material_to_uniform, CameraTerms, GeomOffset, LightTerms,
};
use gamma_rt_engine::render::{self, RenderError, Renderer};
use gamma_rt_engine::scalar::{Float3, Float4, Float4x4, Scalar};
use gamma_rt_engine::scene::{Camera, CameraMode, GeometryRef, Light, Material, MeshInstance, Scene};

fn s(value: f32) -> Scalar {
    Scalar::from_bits(value.to_bits())
}

fn f3(x: f32, y: f32, z: f32) -> Float3 {
    Float3 { x: s(x), y: s(y), z: s(z) }
}

fn f4(x: f32, y: f32, z: f32, w: f32) -> Float4 {
    Float4 { x: s(x), y: s(y), z: s(z), w: s(w) }
}

fn identity() -> Float4x4 {
    Float4x4 {
        c0: f4(1.0, 0.0, 0.0, 0.0),
        c1: f4(0.0, 1.0, 0.0, 0.0),
        c2: f4(0.0, 0.0, 1.0, 0.0),
        c3: f4(0.0, 0.0, 0.0, 1.0),
    }
}

fn material(n: f32) -> Material {
    Material::Unlit { color: f3(n, n, n), vertex_mix: s(0.0) }
}

/// A mesh of as many vertices, whose scalars are all distinct.
fn mesh(base: f32, vertices: usize, stride: u32, indices: Option<Vec<u32>>) -> MeshInstance {
    let scalars = (0..vertices * stride as usize).map(|k| s(base + k as f32)).collect();
    MeshInstance {
        geometry: GeometryRef::Inline { vertices: scalars, indices, stride },
        transform: identity(),
        material: material(base),
    }
}

fn place(raw: &RawVertex) -> PlacedVertex {
    PlacedVertex { position: raw.position, normal: raw.normal }
}

fn camera() -> Camera {
    Camera {
        mode: CameraMode::Perspective,
        pos: f3(1.0, 2.0, 3.0),
        target: f3(0.0, 0.0, 0.0),
        up: f3(0.0, 1.0, 0.0),
        fov_deg: s(60.0),
        near: s(0.1),
        far: s(100.0),
        ortho_size: s(0.0),
    }
}

fn camera_terms(n: f32) -> CameraTerms {
    CameraTerms { right: f3(n, 0.0, 0.0), up: f3(0.0, n, 0.0), forward: f3(0.0, 0.0, n), tan_half_fov: s(n), aspect: s(n) }
}

fn light_terms() -> LightTerms {
    LightTerms { unit_direction: f3(0.0, 1.0, 0.0), cos_inner: s(0.9), cos_outer: s(0.8) }
}

fn light(n: f32) -> Light {
    Light::Directional { direction: f3(0.0, n, 0.0), color: f3(n, n, n), intensity: s(n) }
}

fn scene(meshes: Vec<MeshInstance>) -> Scene {
    Scene { camera: camera(), meshes, lights: vec![light(1.0)], environment: None, clear_color: f3(0.5, 0.25, 0.125) }
}

fn terms_for(scene: &Scene) -> SceneTerms {
    SceneTerms {
        placed: scene
            .meshes
            .iter()
            .map(|mesh| match mesh_vertices(mesh) {
                Ok(list) => list.iter().map(place).collect(),
                Err(_) => vec![],
            })
            .collect(),
        lights: vec![light_terms(); scene.lights.len()],
        camera: camera_terms(1.0),
    }
}

fn renderer(width: u32, height: u32) -> MetalRenderer {
    MetalRenderer::new(width, height, Ok(())).unwrap()
}

fn cached() -> MeshInstance {
    MeshInstance {
        geometry: GeometryRef::Cached { hash: "abc".to_string() },
        transform: identity(),
        material: material(0.0),
    }
}

#[test]
fn meshes_that_are_refused() {
    let error = |mesh: &MeshInstance| check_mesh(mesh).unwrap_err();
    assert_eq!(error(&cached()), RenderError::CachedGeometry);
    assert_eq!(error(&mesh(0.0, 3, 8, None)), RenderError::InvalidStride { stride: 8, scalars: 24 });
    assert_eq!(error(&mesh(0.0, 0, 0, None)), RenderError::InvalidStride { stride: 0, scalars: 0 });
    let mut ragged = mesh(0.0, 3, 11, None);
    ragged.geometry = GeometryRef::Inline { vertices: vec![s(0.0); 34], indices: None, stride: 11 };
    assert_eq!(error(&ragged), RenderError::InvalidStride { stride: 11, scalars: 34 });
    assert_eq!(error(&mesh(0.0, 4, 11, None)), RenderError::PartialVertexTriangle { count: 4 });
    assert_eq!(error(&mesh(0.0, 4, 11, Some(vec![0, 1]))), RenderError::PartialIndexTriangle { count: 2 });
}

#[test]
fn meshes_that_are_accepted() {
    assert_eq!(check_mesh(&mesh(0.0, 3, 9, None)), Ok(3));
    assert_eq!(check_mesh(&mesh(0.0, 0, 11, None)), Ok(0));
    assert_eq!(check_mesh(&mesh(0.0, 4, 11, Some(vec![0, 1, 2, 2, 3, 0]))), Ok(4));
    assert_eq!(check_mesh(&mesh(0.0, 4, 11, Some(vec![]))), Ok(4));
}

#[test]
fn vertices_are_read_at_their_stride() {
    let list = mesh_vertices(&mesh(100.0, 3, 11, None)).unwrap();
    assert_eq!(list.len(), 3);
    assert_eq!(list[0], RawVertex { position: f3(100.0, 101.0, 102.0), normal: f3(106.0, 107.0, 108.0) });
    assert_eq!(list[2], RawVertex { position: f3(122.0, 123.0, 124.0), normal: f3(128.0, 129.0, 130.0) });
    assert_eq!(mesh_vertices(&cached()).unwrap_err(), RenderError::CachedGeometry);
}

#[test]
fn mesh_without_indices() {
    let triangle = mesh(0.0, 3, 9, None);
    let placed: Vec<PlacedVertex> = mesh_vertices(&triangle).unwrap().iter().map(place).collect();
    let built = build_mesh_buffers(&triangle, &placed).unwrap();
    let positions = [0.0, 1.0, 2.0, 9.0, 10.0, 11.0, 18.0, 19.0, 20.0].map(s).to_vec();
    assert_eq!(built.position_buffer, positions);
    assert_eq!(built.index_buffer, None);
    assert_eq!(built.triangle_count, 1);
    assert_eq!(built.vertex_normals, vec![f4(6.0, 7.0, 8.0, 0.0), f4(15.0, 16.0, 17.0, 0.0), f4(24.0, 25.0, 26.0, 0.0)]);
    assert!(built.indices_for_kernel.is_empty());
    assert_eq!(built.vertex_count, 3);
}

#[test]
fn mesh_with_indices() {
    let quad = mesh(0.0, 4, 9, Some(vec![0, 1, 2, 2, 3, 0]));
    let placed: Vec<PlacedVertex> = mesh_vertices(&quad).unwrap().iter().map(place).collect();
    let built = build_mesh_buffers(&quad, &placed).unwrap();
    assert_eq!(built.index_buffer, Some(vec![0, 1, 2, 2, 3, 0]));
    assert_eq!(built.indices_for_kernel, vec![0, 1, 2, 2, 3, 0]);
    assert_eq!((built.triangle_count, built.vertex_count), (2, 4));
    assert_eq!(build_mesh_buffers(&cached(), &placed).unwrap_err(), RenderError::CachedGeometry);
}

#[test]
fn scene_fills_the_shared_buffers() {
    let shown = scene(vec![
        mesh(0.0, 3, 9, None),
        mesh(100.0, 4, 9, Some(vec![0, 1, 2, 2, 3, 0])),
        mesh(200.0, 6, 11, None),
        mesh(300.0, 3, 9, Some(vec![2, 1, 0])),
    ]);
    let computed = terms_for(&shown);
    let mut target = renderer(4, 2);
    assert_eq!(target.update_scene(&shown, &computed), Ok(()));
    let offset = |vertex_offset, index_offset, is_indexed| GeomOffset { vertex_offset, index_offset, is_indexed, pad: 0 };
    assert_eq!(
        target.geom_offsets().unwrap(),
        &vec![offset(0, 0, 0), offset(3, 0, 1), offset(7, 6, 0), offset(13, 6, 1)]
    );
    assert_eq!(target.vertex_indices().unwrap(), &vec![0, 1, 2, 2, 3, 0, 2, 1, 0]);
    assert_eq!(target.vertex_normals().unwrap().len(), 16);
    assert_eq!(target.accel().unwrap().len(), 4);
    assert_eq!(target.accel().unwrap()[1].triangle_count, 2);
    assert_eq!(target.accel().unwrap()[2].indices, None);
    let packed: Vec<_> = shown.meshes.iter().map(|mesh| material_to_uniform(&mesh.material)).collect();
    assert_eq!(target.materials().unwrap(), &packed);
    assert_eq!(target.camera(), Some(build_camera_uniform(&shown.camera, &computed.camera)));
    assert_eq!(target.lights().unwrap(), &build_lights_uniform(&shown.lights, &computed.lights));
    assert_eq!(target.clear_color(), f3(0.5, 0.25, 0.125));
}

#[test]
fn kernel_finds_own_normals() {
    let shown = scene(vec![
        mesh(0.0, 3, 9, None),
        mesh(100.0, 4, 9, Some(vec![0, 1, 2, 2, 3, 0])),
        mesh(200.0, 6, 11, None),
        mesh(300.0, 3, 9, Some(vec![2, 1, 0])),
    ]);
    let computed = terms_for(&shown);
    let mut target = renderer(4, 2);
    target.update_scene(&shown, &computed).unwrap();
    let normals = target.vertex_normals().unwrap();
    let indices = target.vertex_indices().unwrap();
    for (i, offset) in target.geom_offsets().unwrap().iter().enumerate() {
        let own = match &shown.meshes[i].geometry {
            GeometryRef::Inline { indices, .. } => indices.clone(),
            GeometryRef::Cached { .. } => unreachable!(),
        };
        for corner in 0..target.accel().unwrap()[i].triangle_count as usize * 3 {
            let found = if offset.is_indexed == 1 {
                normals[offset.vertex_offset as usize + indices[offset.index_offset as usize + corner] as usize]
            } else {
                normals[offset.vertex_offset as usize + corner]
            };
            let vertex = own.as_ref().map_or(corner, |list| list[corner] as usize);
            let normal = computed.placed[i][vertex].normal;
            assert_eq!(found, Float4 { x: normal.x, y: normal.y, z: normal.z, w: s(0.0) });
        }
    }
}

#[test]
fn refused_scene_changes_only_the_clear_color() {
    let mut target = renderer(4, 2);
    let shown = scene(vec![mesh(0.0, 3, 9, None)]);
    target.update_scene(&shown, &terms_for(&shown)).unwrap();
    let mut bad = scene(vec![mesh(5.0, 3, 9, None), mesh(0.0, 4, 9, None), cached()]);
    bad.clear_color = f3(1.0, 1.0, 1.0);
    assert_eq!(
        target.update_scene(&bad, &terms_for(&bad)),
        Err(RenderError::PartialVertexTriangle { count: 4 })
    );
    assert_eq!(target.clear_color(), f3(1.0, 1.0, 1.0));
    assert_eq!(target.accel().unwrap().len(), 1);
    assert_eq!(target.materials().unwrap(), &vec![material_to_uniform(&material(0.0))]);
    assert!(matches!(target.render_frame((0, 0, 0)), FrameWork::Dispatch(_)));
}

#[test]
fn empty_scene_drops_everything() {
    let mut target = renderer(2, 1);
    let shown = scene(vec![mesh(0.0, 3, 9, None)]);
    target.update_scene(&shown, &terms_for(&shown)).unwrap();
    let nothing = scene(vec![]);
    assert_eq!(target.update_scene(&nothing, &terms_for(&nothing)), Ok(()));
    assert!(target.accel().is_none() && target.camera().is_none() && target.materials().is_none());
    assert!(target.vertex_normals().is_none() && target.vertex_indices().is_none());
    assert!(target.geom_offsets().is_none() && target.lights().is_none());
    assert_eq!(target.render_frame((1, 2, 3)), FrameWork::Cleared(vec![1, 2, 3, 255, 1, 2, 3, 255]));
    assert_eq!((target.width(), target.height()), (2, 1));
}

#[test]
fn partial_updates() {
    let mut target = renderer(4, 2);
    assert_eq!(target.update_materials(&vec![material(1.0)]), Err(RenderError::NoMaterials));
    assert_eq!(target.update_camera(&camera(), &camera_terms(9.0)), Ok(()));
    assert_eq!(target.update_lights(&vec![light(3.0)], &vec![light_terms()]), Ok(()));
    assert!(target.camera().is_some() && target.lights().is_some() && target.accel().is_none());
    assert!(matches!(target.render_frame((0, 0, 0)), FrameWork::Cleared(_)));

    let shown = scene(vec![mesh(0.0, 3, 9, None), mesh(9.0, 3, 9, None)]);
    let computed = terms_for(&shown);
    target.update_scene(&shown, &computed).unwrap();
    assert_eq!(
        target.update_materials(&vec![material(1.0)]),
        Err(RenderError::MaterialCountMismatch { meshes: 2, materials: 1 })
    );
    assert_eq!(target.update_materials(&vec![material(7.0), material(8.0)]), Ok(()));
    assert_eq!(
        target.materials().unwrap(),
        &vec![material_to_uniform(&material(7.0)), material_to_uniform(&material(8.0))]
    );
    target.update_camera(&camera(), &camera_terms(9.0)).unwrap();
    assert_eq!(target.camera(), Some(build_camera_uniform(&camera(), &camera_terms(9.0))));
    target.update_lights(&vec![light(3.0)], &vec![light_terms()]).unwrap();
    assert_eq!(target.lights().unwrap(), &build_lights_uniform(&vec![light(3.0)], &vec![light_terms()]));
    assert_eq!(target.accel().unwrap().len(), 2);
}

#[test]
fn updating_by_what_is_shown_changes_nothing() {
    let shown = scene(vec![mesh(0.0, 3, 9, None), mesh(9.0, 3, 9, None)]);
    let computed = terms_for(&shown);
    let mut target = renderer(4, 2);
    target.update_scene(&shown, &computed).unwrap();
    let before = format!("{:?}", target);
    target.update_camera(&shown.camera, &computed.camera).unwrap();
    target.update_lights(&shown.lights, &computed.lights).unwrap();
    target.update_materials(&shown.meshes.iter().map(|mesh| mesh.material.clone()).collect()).unwrap();
    assert_eq!(format!("{:?}", target), before);
}

#[test]
fn scene_replaces_everything() {
    let first = scene(vec![mesh(0.0, 3, 9, None), mesh(9.0, 3, 9, None)]);
    let second = scene(vec![mesh(50.0, 6, 9, None)]);
    let mut used = renderer(4, 2);
    used.update_scene(&first, &terms_for(&first)).unwrap();
    used.update_scene(&second, &terms_for(&second)).unwrap();
    let mut new = renderer(4, 2);
    new.update_scene(&second, &terms_for(&second)).unwrap();
    assert_eq!(format!("{:?}", used), format!("{:?}", new));
}

#[test]
fn frames_are_four_bytes_per_pixel() {
    for (width, height) in [(1, 1), (16, 16), (17, 33), (800, 600), (4096, 4096)] {
        let mut target = renderer(width, height);
        match target.render_frame((10, 20, 30)) {
            FrameWork::Cleared(pixels) => {
                assert_eq!(pixels.len(), (width * height * 4) as usize);
                assert_eq!(&pixels[..4], &[10, 20, 30, 255]);
                assert_eq!(&pixels[pixels.len() - 4..], &[10, 20, 30, 255]);
            }
            FrameWork::Dispatch(_) => panic!("no scene yet"),
        }
        let shown = scene(vec![mesh(0.0, 3, 9, None)]);
        target.update_scene(&shown, &terms_for(&shown)).unwrap();
        assert_eq!(
            target.render_frame((10, 20, 30)),
            FrameWork::Dispatch(Dispatch {
                groups_wide: (width as u64 + 15) / 16,
                groups_high: (height as u64 + 15) / 16,
                bytes_per_row: width as u64 * 4,
                frame_bytes: (width * height * 4) as usize,
            })
        );
    }
}

#[test]
fn thread_groups_round_up() {
    let shown = scene(vec![mesh(0.0, 3, 9, None)]);
    let mut target = renderer(17, 16);
    target.update_scene(&shown, &terms_for(&shown)).unwrap();
    assert_eq!(
        target.render_frame((0, 0, 0)),
        FrameWork::Dispatch(Dispatch { groups_wide: 2, groups_high: 1, bytes_per_row: 68, frame_bytes: 1088 })
    );
}

#[test]
fn empty_frame() {
    assert_eq!(renderer(0, 5).render_frame((1, 2, 3)), FrameWork::Cleared(vec![]));
}

#[test]
fn new_renderer_has_a_clear_color_and_no_buffers() {
    let target = renderer(800, 600);
    assert_eq!((target.width(), target.height()), (800, 600));
    assert_eq!(target.clear_color(), f3(0.05, 0.06, 0.10));
    assert!(target.accel().is_none() && target.camera().is_none() && target.lights().is_none());
    assert_eq!(MetalRenderer::new(1, 1, Err(RenderError::NoDevice)).unwrap_err(), RenderError::NoDevice);
}

#[test]
fn device_setup() {
    let why = || Err("why".to_string());
    let mut step = SetupStep::AcquireDevice;
    let expected = [
        RenderError::NoDevice,
        RenderError::CompileFailed("why".to_string()),
        RenderError::KernelNotFound("why".to_string()),
        RenderError::PipelineFailed("why".to_string()),
    ];
    for error in expected {
        assert_eq!(step.after(why()), Err(error));
        step = step.after(Ok(())).unwrap();
    }
    assert_eq!(step, SetupStep::Complete);
}

#[test]
fn blocks_lie_field_behind_field() {
    let packed = material_to_uniform(&Material::Phong { color: f3(1.0, 2.0, 3.0), shininess: s(4.0), ambient: s(5.0) });
    let bits = |value: f32| value.to_bits();
    let expected = [
        bits(1.0), bits(2.0), bits(3.0), 0, 0, 0, bits(4.0), bits(5.0), 1, 0, 0, 0,
    ];
    assert_eq!(list_words(&vec![packed]), expected);
    let two = list_words(&vec![material_to_uniform(&material(9.0)), packed]);
    assert_eq!(two.len(), 24);
    assert_eq!(&two[12..], &expected);
    let offset = GeomOffset { vertex_offset: 1, index_offset: 2, is_indexed: 1, pad: 0 };
    assert_eq!(list_words(&vec![offset]), vec![1, 2, 1, 0]);
    let camera_block = build_camera_uniform(&camera(), &camera_terms(7.0));
    let camera_words = list_words(&vec![camera_block]);
    assert_eq!(camera_words.len(), 20);
    assert_eq!(&camera_words[..4], &[bits(1.0), bits(2.0), bits(3.0), bits(1.0)]);
    assert_eq!(&camera_words[16..], &[bits(7.0), bits(7.0), 0, 0]);
    let lights_block = build_lights_uniform(&vec![light(3.0)], &vec![light_terms()]);
    let light_words = list_words(&vec![lights_block]);
    assert_eq!(light_words.len(), 88);
    assert_eq!(light_words[4], 1);
    assert_eq!(&light_words[8..16], &[0, bits(1.0), 0, 0, bits(3.0), bits(3.0), bits(3.0), bits(3.0)]);
}

#[test]
fn bound_buffers_are_never_empty() {
    assert_eq!(bound_words::<u32>(&vec![]), vec![0]);
    assert_eq!(bound_words::<Float4>(&vec![]), vec![0, 0, 0, 0]);
    assert_eq!(bound_words(&vec![7u32, 8]), vec![7, 8]);
    assert!(list_words::<Scalar>(&vec![]).is_empty());
}

#[test]
fn error_messages() {
    let cases = [
        (
            RenderError::StreamingUnsupported,
            "RT engine streaming requires macOS in part 2c; PC Vulkan-RT support lands in §5.6.b",
        ),
        (RenderError::FrameUnsupported, "RT engine streaming requires macOS in part 2c"),
        (
            RenderError::TestRenderUnsupported,
            "--render-test currently requires macOS. PC Vulkan-RT path lands in §5.6.b.",
        ),
        (RenderError::NoDevice, "MTLCreateSystemDefaultDevice returned null"),
        (RenderError::CompileFailed("x".to_string()), "MSL compile failed: x"),
        (RenderError::KernelNotFound("x".to_string()), "kernel function 'rt_scene' not found: x"),
        (RenderError::PipelineFailed("x".to_string()), "compute pipeline create failed: x"),
        (RenderError::CachedGeometry, "cached geometry refs not supported in part 2e-1"),
        (
            RenderError::InvalidStride { stride: 8, scalars: 1234 },
            "invalid vertex stride 8 for 1234 floats (need >= 9: pos.xyz + color.rgb + normal.xyz)",
        ),
        (RenderError::PartialIndexTriangle { count: 20 }, "index count 20 not divisible by 3"),
        (RenderError::PartialVertexTriangle { count: 10 }, "non-indexed mesh vertex count 10 not divisible by 3"),
        (RenderError::NoMaterials, "material buffer not yet allocated"),
        (
            RenderError::MaterialCountMismatch { meshes: 2, materials: 11 },
            "material count mismatch: scene has 2 mesh(es) but Params sent 11 material(s)",
        ),
        (RenderError::PictureTooShort, "RgbaImage::from_raw failed (buffer size mismatch)"),
        (RenderError::ScalerFailed, "MTLFXTemporalDenoisedScalerDescriptor could not be created"),
    ];
    for (error, text) in cases {
        assert_eq!(error.message(), text);
    }
}

#[test]
fn platform_without_a_renderer() {
    assert_eq!(Renderer::new(800, 600), Err(RenderError::StreamingUnsupported));
    assert_eq!(Renderer { width: 1, height: 1 }.render_frame(), Err(RenderError::FrameUnsupported));
    assert_eq!(render::render_test_triangle(1, 1, "out.png"), Err(RenderError::TestRenderUnsupported));
}

#[test]
fn test_scene_is_one_triangle() {
    let shown = default_test_scene();
    assert_eq!(shown.meshes.len(), 1);
    assert_eq!(check_mesh(&shown.meshes[0]), Ok(3));
    let floats = [
        -0.866f32, -0.5, 0.0, 1.0, 0.0, 0.0, 0.0, 0.0, 1.0, 0.0, 0.0, 0.866, -0.5, 0.0, 0.0, 1.0, 0.0, 0.0, 0.0, 1.0,
        1.0, 0.0, 0.0, 1.0, 0.0, 0.3, 0.5, 1.0, 0.0, 0.0, 1.0, 0.5, 1.0,
    ];
    assert_eq!(
        shown.meshes[0].geometry,
        GeometryRef::Inline { vertices: floats.map(s).to_vec(), indices: None, stride: 11 }
    );
    assert_eq!(shown.meshes[0].transform, identity());
    assert_eq!(shown.meshes[0].material, Material::Unlit { color: f3(1.0, 0.4, 0.4), vertex_mix: s(0.0) });
    assert_eq!(
        shown.camera,
        Camera {
            mode: CameraMode::Perspective,
            pos: f3(0.0, 0.0, 2.0),
            target: f3(0.0, 0.0, 0.0),
            up: f3(0.0, 1.0, 0.0),
            fov_deg: s(60.0),
            near: s(0.1),
            far: s(100.0),
            ortho_size: s(0.0),
        }
    );
    assert!(shown.lights.is_empty() && shown.environment.is_none());
    assert_eq!(shown.clear_color, f3(0.05, 0.06, 0.10));
    let mut target = renderer(8, 8);
    assert_eq!(target.update_scene(&shown, &terms_for(&shown)), Ok(()));
    assert_eq!(target.accel().unwrap()[0].triangle_count, 1);
}

#[test]
fn picture_of_a_frame() {
    let pixels: Vec<u8> = (0..24).collect();
    let picture = render_test_triangle(3, 2, pixels.clone()).unwrap();
    assert_eq!((picture.width, picture.height), (3, 2));
    assert_eq!(picture.pixels, pixels);
    assert_eq!(render_test_triangle(3, 2, vec![0; 23]), Err(RenderError::PictureTooShort));
    assert_eq!(render_test_triangle(3, 2, vec![7; 25]).unwrap().pixels.len(), 25);
    assert!(render_test_triangle(0, 0, vec![]).is_ok());
    assert_eq!(render_test_triangle(u32::MAX, u32::MAX, vec![0; 8]), Err(RenderError::PictureTooShort));
}
