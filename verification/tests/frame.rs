use defren::cmd::{Cmd, GpuState, UniformValue};
use defren::frame::{render_frame, CameraInput, MAX_POINT_LIGHTS};
use defren::gfx::{gfx_setup_gbuffer, gfx_setup_shadow_buffer, GpuObjects};
use defren::mesh::Mesh;
use defren::payload::{Mat4Bits, QuatBits, Vec3Bits, BITS_ONE};
use defren::scene::{LoadedScene, Model, PointLight, SunLight};
use defren::shader::Shader;
use defren::transform::Transform;
use defren::SurfaceSize;

fn lighting_scan() -> Vec<(String, i32)> {
    let mut scan = vec![
        ("gPosition".to_string(), 0),
        ("gNormal".to_string(), 1),
        ("gColorSpec".to_string(), 2),
        ("gOrm".to_string(), 3),
        ("sShadowMap".to_string(), 4),
        ("uProjViewMat".to_string(), 5),
        ("uCamPos".to_string(), 6),
        ("uLightSpaceMat".to_string(), 7),
        ("lightingInfo.vLightDir".to_string(), 8),
        ("lightingInfo.vLightColor".to_string(), 9),
        ("lightingInfo.vFogColor".to_string(), 10),
        ("lightingInfo.iPointLightCount".to_string(), 11),
        ("iNumLights".to_string(), 12),
    ];
    for i in 0..MAX_POINT_LIGHTS {
        scan.push((format!("pointLights[{}].vPos", i), 20 + 2 * i as i32));
        scan.push((format!("pointLights[{}].vColor", i), 21 + 2 * i as i32));
    }
    scan
}

fn setup() -> (GpuObjects, defren::gfx::GBuffer, defren::gfx::ShadowBuffer, Shader, Shader) {
    let mut objs = GpuObjects::new();
    let (sb, _) = gfx_setup_shadow_buffer(&mut objs);
    let (g, _) = gfx_setup_gbuffer(&mut objs, SurfaceSize::new(1280, 720));
    let gbuffer_shader = Shader::new(
        1,
        2,
        3,
        vec![
            ("uProjViewMat".to_string(), 0),
            ("uModelMat".to_string(), 1),
            ("uCamPos".to_string(), 2),
        ],
    );
    let lighting_shader = Shader::new(4, 5, 6, lighting_scan());
    (objs, g, sb, gbuffer_shader, lighting_shader)
}

fn camera() -> CameraInput {
    CameraInput { proj_view: Mat4Bits::identity(), position: Vec3Bits::new(0, 0, 0) }
}

fn white_sun_pointing_down() -> SunLight {
    SunLight { direction: QuatBits::identity(), color: Vec3Bits::one() }
}

fn one_quad_scene() -> LoadedScene {
    let mut scene = LoadedScene::new();
    scene.sun_light = white_sun_pointing_down();
    let vertices = vec![0u32; 12];
    let indices = vec![0u32, 1, 2, 2, 1, 3];
    let mesh = Mesh::new(30, 31, 32, &vertices, &indices, 41, 42, 43, 44);
    scene.models.push(Model { meshes: vec![mesh], transform: Transform::default() });
    scene
}

fn uniform_values(cmds: &[Cmd], program: u32, location: i32) -> Vec<UniformValue> {
    cmds.iter()
        .filter_map(|c| match c {
            Cmd::SetUniform { program: p, location: l, value } if *p == program && *l == location => {
                Some(*value)
            }
            _ => None,
        })
        .collect()
}

#[test]
fn frame_ends_ready_for_the_overlay() {
    let (_objs, g, sb, gsh, lsh) = setup();
    let scene = one_quad_scene();
    let mut state = GpuState::initial(1280, 720);
    state.srgb = true;
    render_frame(
        &mut state,
        SurfaceSize::new(1280, 720),
        &camera(),
        &scene,
        &g,
        &sb,
        &gsh,
        &lsh,
        99,
        &Vec3Bits::zero(),
    );
    assert!(!state.srgb);
    assert!(!state.depth_test);
    assert_eq!(state.bound_framebuffer, 0);
    assert_eq!(state.viewport_width, 1280);
    assert_eq!(state.viewport_height, 720);
}

#[test]
fn light_space_matrix_is_derived_from_the_current_rotation() {
    let (_objs, g, sb, gsh, lsh) = setup();
    let mut scene = one_quad_scene();
    scene.sun_light.direction = QuatBits::new(7, 8, 9, 10);
    let mut state = GpuState::initial(1280, 720);
    let cmds = render_frame(
        &mut state,
        SurfaceSize::new(1280, 720),
        &camera(),
        &scene,
        &g,
        &sb,
        &gsh,
        &lsh,
        99,
        &Vec3Bits::zero(),
    );
    // The lighting pass samples the shadow map through the light-space
    // matrix of this frame's sun rotation (location 7 in the scan above).
    assert_eq!(
        uniform_values(&cmds, 4, 7),
        vec![UniformValue::LightSpace(QuatBits::new(7, 8, 9, 10))]
    );
    // The shadow pass transforms the scene by the same derivation: the
    // g-buffer shader's uProjViewMat is first submitted the light-space
    // value, then the camera matrix for the geometry pass.
    assert_eq!(
        uniform_values(&cmds, 1, 0),
        vec![
            UniformValue::LightSpace(QuatBits::new(7, 8, 9, 10)),
            UniformValue::Mat4(Mat4Bits::identity()),
        ]
    );
}

#[test]
fn point_lights_are_submitted_in_index_order() {
    let (_objs, g, sb, gsh, lsh) = setup();
    let mut scene = one_quad_scene();
    for i in 0..3u32 {
        let mut t = Transform::default();
        t.position = Vec3Bits::new(i, i, i);
        scene.point_lights.push(PointLight {
            transform: t,
            color: Vec3Bits::new(100 + i, 0, 0),
            orig_pos: t.position,
        });
    }
    let mut state = GpuState::initial(1280, 720);
    let cmds = render_frame(
        &mut state,
        SurfaceSize::new(1280, 720),
        &camera(),
        &scene,
        &g,
        &sb,
        &gsh,
        &lsh,
        99,
        &Vec3Bits::zero(),
    );
    // The count reaches the shader, and each light's position/colour pair
    // lands at its own index.
    assert_eq!(uniform_values(&cmds, 4, 11), vec![UniformValue::I32(3)]);
    assert_eq!(uniform_values(&cmds, 4, 12), vec![UniformValue::I32(3)]);
    for i in 0..3 {
        assert_eq!(
            uniform_values(&cmds, 4, 20 + 2 * i as i32),
            vec![UniformValue::Vec3(Vec3Bits::new(i, i, i))]
        );
        assert_eq!(
            uniform_values(&cmds, 4, 21 + 2 * i as i32),
            vec![UniformValue::Vec3(Vec3Bits::new(100 + i, 0, 0))]
        );
    }
}

#[test]
fn light_count_is_clamped_to_the_shader_capacity() {
    let (_objs, g, sb, gsh, lsh) = setup();
    let mut scene = one_quad_scene();
    for i in 0..(MAX_POINT_LIGHTS as u32 + 5) {
        let mut t = Transform::default();
        t.position = Vec3Bits::new(i, 0, 0);
        scene.point_lights.push(PointLight {
            transform: t,
            color: Vec3Bits::one(),
            orig_pos: t.position,
        });
    }
    let mut state = GpuState::initial(1280, 720);
    let cmds = render_frame(
        &mut state,
        SurfaceSize::new(1280, 720),
        &camera(),
        &scene,
        &g,
        &sb,
        &gsh,
        &lsh,
        99,
        &Vec3Bits::zero(),
    );
    assert_eq!(
        uniform_values(&cmds, 4, 11),
        vec![UniformValue::I32(MAX_POINT_LIGHTS as i32)]
    );
}

#[test]
fn directional_only_scene_submits_zero_point_lights() {
    // One white sun pointing straight down, one flat quad, no point lights:
    // the resolve input is the directional light alone — the count is zero
    // and no per-light pair is submitted, so the shader's output depends on
    // the sun colour, the surface response and the fog term only.
    let (_objs, g, sb, gsh, lsh) = setup();
    let scene = one_quad_scene();
    let mut state = GpuState::initial(1280, 720);
    let cmds = render_frame(
        &mut state,
        SurfaceSize::new(1280, 720),
        &camera(),
        &scene,
        &g,
        &sb,
        &gsh,
        &lsh,
        99,
        &Vec3Bits::zero(),
    );
    assert_eq!(uniform_values(&cmds, 4, 11), vec![UniformValue::I32(0)]);
    for i in 0..MAX_POINT_LIGHTS {
        assert!(uniform_values(&cmds, 4, 20 + 2 * i as i32).is_empty());
        assert!(uniform_values(&cmds, 4, 21 + 2 * i as i32).is_empty());
    }
    // The sun reaches the resolve as pure white.
    assert_eq!(
        uniform_values(&cmds, 4, 9),
        vec![UniformValue::Vec3(Vec3Bits {
            x: BITS_ONE,
            y: BITS_ONE,
            z: BITS_ONE
        })]
    );
    assert_eq!(BITS_ONE, f32::to_bits(1.0));
}

fn erase_target_names(c: &Cmd) -> Cmd {
    match *c {
        Cmd::BindFramebuffer(_) => Cmd::BindFramebuffer(0),
        Cmd::SetDrawBuffers { buffers, .. } => Cmd::SetDrawBuffers { fbo: 0, buffers },
        Cmd::BindTexture { unit, .. } => Cmd::BindTexture { unit, texture: 0 },
        other => other,
    }
}

#[test]
fn resize_round_trip_redraws_the_same_frame() {
    // Rendering, resizing to another surface and back, then rendering again
    // with the same scene and camera yields the same frame, apart from
    // which generation of GPU object names backs the g-buffer.
    let (mut objs, mut g, sb, gsh, lsh) = setup();
    let scene = one_quad_scene();
    let surface = SurfaceSize::new(1280, 720);
    let mut state = GpuState::initial(1280, 720);
    let before = render_frame(
        &mut state,
        surface,
        &camera(),
        &scene,
        &g,
        &sb,
        &gsh,
        &lsh,
        99,
        &Vec3Bits::zero(),
    );
    defren::gfx::gfx_resize_gbuffer(&mut objs, &mut g, SurfaceSize::new(1920, 1080));
    defren::gfx::gfx_resize_gbuffer(&mut objs, &mut g, surface);
    let after = render_frame(
        &mut state,
        surface,
        &camera(),
        &scene,
        &g,
        &sb,
        &gsh,
        &lsh,
        99,
        &Vec3Bits::zero(),
    );
    let erased_before: Vec<Cmd> = before.iter().map(erase_target_names).collect();
    let erased_after: Vec<Cmd> = after.iter().map(erase_target_names).collect();
    assert_eq!(erased_before, erased_after);
}
