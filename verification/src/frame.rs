//! The per-frame pass orchestrator.
//!
//! One frame is: shadow pass (depth from the light's view), geometry pass
//! (surface attributes into the g-buffer), lighting resolve (full-screen
//! read of both into the backbuffer), then the hand-off to the overlay.
//! [`render_frame`] emits the whole frame as one command sequence, and its
//! contract pins the sequence down segment by segment.

use vstd::prelude::*;

use crate::SurfaceSize;
use crate::cmd::Cmd;
use crate::cmd::GpuState;
use crate::cmd::UniformValue;
use crate::gfx::GBuffer;
use crate::gfx::ShadowBuffer;
use crate::mesh::gfx_quad_render;
use crate::passes::gfx_prepare_geometry_pass;
use crate::passes::gfx_prepare_imgui_pass;
use crate::passes::gfx_prepare_lighting_pass;
use crate::passes::gfx_prepare_shadow_pass;
use crate::passes::spec_geometry_pass_cmds;
use crate::passes::spec_lighting_pass_cmds;
use crate::passes::spec_shadow_pass_cmds;
use crate::payload::BITS_ZERO;
use crate::payload::Mat4Bits;
use crate::payload::Vec3Bits;
use crate::scene::LoadedScene;
use crate::scene::PointLight;
use crate::scene::spec_scene_render_cmds;
use crate::shader::Shader;
use crate::shader::spec_lookup;

verus! {

/// Most point lights one frame submits: the capacity of the uniform array
/// the lighting shader declares.  The host must never submit more, so the
/// count and the array are clamped to it.
pub const MAX_POINT_LIGHTS: usize = 16;

/// Bit pattern of 100.0f32: the z component of the fixed reference eye the
/// shadow frustum is placed at.
pub const SHADOW_EYE_Z_BITS: u32 = 0x42c8_0000;

/// The fixed reference eye of the shadow pass.
pub open spec fn spec_shadow_eye() -> Vec3Bits {
    Vec3Bits { x: BITS_ZERO, y: BITS_ZERO, z: SHADOW_EYE_Z_BITS }
}

/// What the camera controller hands the pipeline each frame: a
/// projection-view matrix and the world-space eye position.  The pipeline
/// never looks behind this data.
#[derive(Clone, Copy, PartialEq, Eq, Structural, Debug)]
pub struct CameraInput {
    pub proj_view: Mat4Bits,
    pub position: Vec3Bits,
}

/// The uniform name of point light `i`'s position.
pub open spec fn spec_point_light_pos_name(i: int) -> Seq<char> {
    if i == 0 { "pointLights[0].vPos"@ }
    else if i == 1 { "pointLights[1].vPos"@ }
    else if i == 2 { "pointLights[2].vPos"@ }
    else if i == 3 { "pointLights[3].vPos"@ }
    else if i == 4 { "pointLights[4].vPos"@ }
    else if i == 5 { "pointLights[5].vPos"@ }
    else if i == 6 { "pointLights[6].vPos"@ }
    else if i == 7 { "pointLights[7].vPos"@ }
    else if i == 8 { "pointLights[8].vPos"@ }
    else if i == 9 { "pointLights[9].vPos"@ }
    else if i == 10 { "pointLights[10].vPos"@ }
    else if i == 11 { "pointLights[11].vPos"@ }
    else if i == 12 { "pointLights[12].vPos"@ }
    else if i == 13 { "pointLights[13].vPos"@ }
    else if i == 14 { "pointLights[14].vPos"@ }
    else if i == 15 { "pointLights[15].vPos"@ }
    else { ""@ }
}

/// The uniform name of point light `i`'s colour.
pub open spec fn spec_point_light_color_name(i: int) -> Seq<char> {
    if i == 0 { "pointLights[0].vColor"@ }
    else if i == 1 { "pointLights[1].vColor"@ }
    else if i == 2 { "pointLights[2].vColor"@ }
    else if i == 3 { "pointLights[3].vColor"@ }
    else if i == 4 { "pointLights[4].vColor"@ }
    else if i == 5 { "pointLights[5].vColor"@ }
    else if i == 6 { "pointLights[6].vColor"@ }
    else if i == 7 { "pointLights[7].vColor"@ }
    else if i == 8 { "pointLights[8].vColor"@ }
    else if i == 9 { "pointLights[9].vColor"@ }
    else if i == 10 { "pointLights[10].vColor"@ }
    else if i == 11 { "pointLights[11].vColor"@ }
    else if i == 12 { "pointLights[12].vColor"@ }
    else if i == 13 { "pointLights[13].vColor"@ }
    else if i == 14 { "pointLights[14].vColor"@ }
    else if i == 15 { "pointLights[15].vColor"@ }
    else { ""@ }
}

fn point_light_pos_name(i: usize) -> (r: &'static str)
    requires
        i < MAX_POINT_LIGHTS,
    ensures
        r@ == spec_point_light_pos_name(i as int),
{
    match i {
        0 => "pointLights[0].vPos",
        1 => "pointLights[1].vPos",
        2 => "pointLights[2].vPos",
        3 => "pointLights[3].vPos",
        4 => "pointLights[4].vPos",
        5 => "pointLights[5].vPos",
        6 => "pointLights[6].vPos",
        7 => "pointLights[7].vPos",
        8 => "pointLights[8].vPos",
        9 => "pointLights[9].vPos",
        10 => "pointLights[10].vPos",
        11 => "pointLights[11].vPos",
        12 => "pointLights[12].vPos",
        13 => "pointLights[13].vPos",
        14 => "pointLights[14].vPos",
        _ => "pointLights[15].vPos",
    }
}

fn point_light_color_name(i: usize) -> (r: &'static str)
    requires
        i < MAX_POINT_LIGHTS,
    ensures
        r@ == spec_point_light_color_name(i as int),
{
    match i {
        0 => "pointLights[0].vColor",
        1 => "pointLights[1].vColor",
        2 => "pointLights[2].vColor",
        3 => "pointLights[3].vColor",
        4 => "pointLights[4].vColor",
        5 => "pointLights[5].vColor",
        6 => "pointLights[6].vColor",
        7 => "pointLights[7].vColor",
        8 => "pointLights[8].vColor",
        9 => "pointLights[9].vColor",
        10 => "pointLights[10].vColor",
        11 => "pointLights[11].vColor",
        12 => "pointLights[12].vColor",
        13 => "pointLights[13].vColor",
        14 => "pointLights[14].vColor",
        _ => "pointLights[15].vColor",
    }
}

/// How many lights the frame submits: all of them, clamped to the shader's
/// declared capacity.
pub open spec fn spec_submitted_light_count(lights: Seq<PointLight>) -> int {
    if lights.len() <= MAX_POINT_LIGHTS as int {
        lights.len() as int
    } else {
        MAX_POINT_LIGHTS as int
    }
}

/// The position/colour pair submissions for the first `n` point lights, in
/// index order.
pub open spec fn spec_point_light_cmds(shader: Shader, lights: Seq<PointLight>, n: int) -> Seq<
    Cmd,
>
    decreases n,
{
    if n <= 0 {
        Seq::empty()
    } else {
        spec_point_light_cmds(shader, lights, n - 1) + seq![
            Cmd::SetUniform {
                program: shader.program,
                location: spec_lookup(shader.uniforms@, spec_point_light_pos_name(n - 1)),
                value: UniformValue::Vec3(lights[n - 1].transform.position),
            },
            Cmd::SetUniform {
                program: shader.program,
                location: spec_lookup(shader.uniforms@, spec_point_light_color_name(n - 1)),
                value: UniformValue::Vec3(lights[n - 1].color),
            },
        ]
    }
}

/// For a light count within the shader's capacity, every light is submitted:
/// the pair stream holds exactly two commands per light, in index order,
/// position then colour, carrying that light's values.  Zero lights submit
/// no pairs at all.
pub proof fn lemma_point_light_submission(shader: Shader, lights: Seq<PointLight>, n: int)
    requires
        0 <= n <= lights.len(),
        n <= MAX_POINT_LIGHTS as int,
    ensures
        spec_point_light_cmds(shader, lights, n).len() == 2 * n,
        forall|i: int|
            0 <= i < n ==> spec_point_light_cmds(shader, lights, n)[2 * i]
                == (Cmd::SetUniform {
                program: shader.program,
                location: spec_lookup(shader.uniforms@, spec_point_light_pos_name(i)),
                value: UniformValue::Vec3(lights[i].transform.position),
            }),
        forall|i: int|
            0 <= i < n ==> spec_point_light_cmds(shader, lights, n)[2 * i + 1]
                == (Cmd::SetUniform {
                program: shader.program,
                location: spec_lookup(shader.uniforms@, spec_point_light_color_name(i)),
                value: UniformValue::Vec3(lights[i].color),
            }),
    decreases n,
{
    if n > 0 {
        lemma_point_light_submission(shader, lights, n - 1);
    }
}

/// The lighting resolve submission: bind the lighting program, bind the
/// four g-buffer attachments and the shadow map to their fixed units, name
/// those units to the shader, submit the camera, the light-space matrix
/// derived from the current sun rotation, the sun, the fog colour and the
/// clamped point-light array, and draw the full-screen quad.
pub open spec fn spec_lighting_submission_cmds(
    shader: Shader,
    g: GBuffer,
    sb: ShadowBuffer,
    camera: CameraInput,
    sun: crate::scene::SunLight,
    sky: Vec3Bits,
    lights: Seq<PointLight>,
    quad_vao: u32,
) -> Seq<Cmd> {
    let p = shader.program;
    let u = shader.uniforms@;
    let count = spec_submitted_light_count(lights);
    seq![
        Cmd::UseProgram(p),
        Cmd::BindTexture { unit: 0, texture: g.position },
        Cmd::BindTexture { unit: 1, texture: g.normal },
        Cmd::BindTexture { unit: 2, texture: g.albedo_spec },
        Cmd::BindTexture { unit: 3, texture: g.orm },
        Cmd::BindTexture { unit: 4, texture: sb.depth_texture },
        Cmd::SetUniform { program: p, location: spec_lookup(u, "gPosition"@), value: UniformValue::I32(0) },
        Cmd::SetUniform { program: p, location: spec_lookup(u, "gNormal"@), value: UniformValue::I32(1) },
        Cmd::SetUniform { program: p, location: spec_lookup(u, "gColorSpec"@), value: UniformValue::I32(2) },
        Cmd::SetUniform { program: p, location: spec_lookup(u, "gOrm"@), value: UniformValue::I32(3) },
        Cmd::SetUniform { program: p, location: spec_lookup(u, "sShadowMap"@), value: UniformValue::I32(4) },
        Cmd::SetUniform {
            program: p,
            location: spec_lookup(u, "uProjViewMat"@),
            value: UniformValue::Mat4(camera.proj_view),
        },
        Cmd::SetUniform {
            program: p,
            location: spec_lookup(u, "uCamPos"@),
            value: UniformValue::Vec3(camera.position),
        },
        Cmd::SetUniform {
            program: p,
            location: spec_lookup(u, "uLightSpaceMat"@),
            value: UniformValue::LightSpace(sun.direction),
        },
        Cmd::SetUniform {
            program: p,
            location: spec_lookup(u, "lightingInfo.vLightDir"@),
            value: UniformValue::EulerAngles(sun.direction),
        },
        Cmd::SetUniform {
            program: p,
            location: spec_lookup(u, "lightingInfo.vLightColor"@),
            value: UniformValue::Vec3(sun.color),
        },
        Cmd::SetUniform {
            program: p,
            location: spec_lookup(u, "lightingInfo.vFogColor"@),
            value: UniformValue::Vec3(sky),
        },
        Cmd::SetUniform {
            program: p,
            location: spec_lookup(u, "lightingInfo.iPointLightCount"@),
            value: UniformValue::I32(count as i32),
        },
    ] + spec_point_light_cmds(shader, lights, count) + seq![
        Cmd::SetUniform {
            program: p,
            location: spec_lookup(u, "iNumLights"@),
            value: UniformValue::I32(count as i32),
        },
        Cmd::DrawTriangleStrip { vao: quad_vao, vertices: 4 },
    ]
}

/// Emits the lighting resolve submission.
pub fn gfx_render_lighting(
    shader: &Shader,
    g: &GBuffer,
    sb: &ShadowBuffer,
    camera: &CameraInput,
    sun: &crate::scene::SunLight,
    sky: &Vec3Bits,
    lights: &Vec<PointLight>,
    quad_vao: u32,
) -> (cmds: Vec<Cmd>)
    ensures
        cmds@ == spec_lighting_submission_cmds(
            *shader,
            *g,
            *sb,
            *camera,
            *sun,
            *sky,
            lights@,
            quad_vao,
        ),
{
    let mut cmds: Vec<Cmd> = Vec::new();
    cmds.push(shader.bind());
    cmds.push(Cmd::BindTexture { unit: 0, texture: g.position });
    cmds.push(Cmd::BindTexture { unit: 1, texture: g.normal });
    cmds.push(Cmd::BindTexture { unit: 2, texture: g.albedo_spec });
    cmds.push(Cmd::BindTexture { unit: 3, texture: g.orm });
    cmds.push(Cmd::BindTexture { unit: 4, texture: sb.depth_texture });
    cmds.push(shader.set_i32("gPosition", 0));
    cmds.push(shader.set_i32("gNormal", 1));
    cmds.push(shader.set_i32("gColorSpec", 2));
    cmds.push(shader.set_i32("gOrm", 3));
    cmds.push(shader.set_i32("sShadowMap", 4));
    cmds.push(shader.set_mat4("uProjViewMat", &camera.proj_view));
    cmds.push(shader.set_vec3("uCamPos", &camera.position));
    cmds.push(shader.set_value("uLightSpaceMat", UniformValue::LightSpace(sun.direction)));
    cmds.push(shader.set_value("lightingInfo.vLightDir", UniformValue::EulerAngles(sun.direction)));
    cmds.push(shader.set_vec3("lightingInfo.vLightColor", &sun.color));
    cmds.push(shader.set_vec3("lightingInfo.vFogColor", sky));
    let count: usize = if lights.len() <= MAX_POINT_LIGHTS {
        lights.len()
    } else {
        MAX_POINT_LIGHTS
    };
    cmds.push(shader.set_i32("lightingInfo.iPointLightCount", count as i32));
    let ghost head = cmds@;
    let mut i: usize = 0;
    while i < count
        invariant
            i <= count,
            count == spec_submitted_light_count(lights@),
            count <= lights@.len(),
            count <= MAX_POINT_LIGHTS,
            cmds@ == head + spec_point_light_cmds(*shader, lights@, i as int),
        decreases count - i,
    {
        cmds.push(shader.set_vec3(point_light_pos_name(i), &lights[i].transform.position));
        cmds.push(shader.set_vec3(point_light_color_name(i), &lights[i].color));
        proof {
            assert(cmds@ =~= head + spec_point_light_cmds(*shader, lights@, i + 1));
        }
        i = i + 1;
    }
    cmds.push(shader.set_i32("iNumLights", count as i32));
    cmds.push(gfx_quad_render(quad_vao));
    proof {
        assert(cmds@ =~= spec_lighting_submission_cmds(
            *shader,
            *g,
            *sb,
            *camera,
            *sun,
            *sky,
            lights@,
            quad_vao,
        ));
    }
    cmds
}

/// Point-light pair submissions never touch the pass state.
proof fn lemma_point_light_cmds_neutral(shader: Shader, lights: Seq<PointLight>, n: int)
    ensures
        forall|i: int|
            0 <= i < spec_point_light_cmds(shader, lights, n).len() ==> !(
            #[trigger] spec_point_light_cmds(shader, lights, n)[i]).is_state_cmd(),
    decreases n,
{
    if n > 0 {
        lemma_point_light_cmds_neutral(shader, lights, n - 1);
        let a = spec_point_light_cmds(shader, lights, n - 1);
        let b = spec_point_light_cmds(shader, lights, n);
        assert forall|i: int| 0 <= i < b.len() implies !(#[trigger] b[i]).is_state_cmd() by {
            if i < a.len() {
                assert(b[i] == a[i]);
            }
        }
    }
}

/// The lighting resolve submission never touches the pass state.
pub proof fn lemma_lighting_submission_neutral(
    shader: Shader,
    g: GBuffer,
    sb: ShadowBuffer,
    camera: CameraInput,
    sun: crate::scene::SunLight,
    sky: Vec3Bits,
    lights: Seq<PointLight>,
    quad_vao: u32,
)
    ensures
        forall|i: int|
            0 <= i < spec_lighting_submission_cmds(
                shader,
                g,
                sb,
                camera,
                sun,
                sky,
                lights,
                quad_vao,
            ).len() ==> !(#[trigger] spec_lighting_submission_cmds(
                shader,
                g,
                sb,
                camera,
                sun,
                sky,
                lights,
                quad_vao,
            )[i]).is_state_cmd(),
{
    let count = spec_submitted_light_count(lights);
    lemma_point_light_cmds_neutral(shader, lights, count);
    let whole = spec_lighting_submission_cmds(shader, g, sb, camera, sun, sky, lights, quad_vao);
    let mid = spec_point_light_cmds(shader, lights, count);
    assert forall|i: int| 0 <= i < whole.len() implies !(#[trigger] whole[i]).is_state_cmd() by {
        if 18 <= i < 18 + mid.len() {
            assert(whole[i] == mid[i - 18]);
        }
    }
}

/// The state every frame ends in: ready for the overlay — backbuffer
/// bound, depth test off with the default comparison, sRGB conversion off
/// again, the geometry conventions in the untouched fields, and the
/// viewport at the surface size.
pub open spec fn spec_frame_end_state(surface: SurfaceSize) -> GpuState {
    GpuState {
        depth_test: false,
        depth_func: crate::cmd::DepthFunc::Less,
        cull_face: crate::cmd::CullFace::Back,
        clip_depth: crate::cmd::ClipDepth::ZeroToOne,
        srgb: false,
        bound_framebuffer: 0,
        viewport_width: surface.width,
        viewport_height: surface.height,
    }
}

/// One frame, as commands: shadow pass over the scene with the light-space
/// transform derived from the current sun rotation, geometry pass over the
/// same scene with the camera, lighting resolve reading both, and the sRGB
/// hand-off to the overlay.
pub open spec fn spec_frame_cmds(
    surface: SurfaceSize,
    camera: CameraInput,
    scene_sun: crate::scene::SunLight,
    models: Seq<crate::scene::Model>,
    lights: Seq<PointLight>,
    g: GBuffer,
    sb: ShadowBuffer,
    gbuffer_shader: Shader,
    lighting_shader: Shader,
    quad_vao: u32,
    sky: Vec3Bits,
) -> Seq<Cmd> {
    spec_shadow_pass_cmds(sb.fbo) + seq![Cmd::Clear] + spec_scene_render_cmds(
        gbuffer_shader,
        scene_sun,
        UniformValue::LightSpace(scene_sun.direction),
        spec_shadow_eye(),
        models,
        models.len() as int,
    ) + spec_geometry_pass_cmds(g.fbo, surface) + seq![Cmd::Clear] + spec_scene_render_cmds(
        gbuffer_shader,
        scene_sun,
        UniformValue::Mat4(camera.proj_view),
        camera.position,
        models,
        models.len() as int,
    ) + spec_lighting_pass_cmds(sky) + seq![Cmd::Clear] + spec_lighting_submission_cmds(
        lighting_shader,
        g,
        sb,
        camera,
        scene_sun,
        sky,
        lights,
        quad_vao,
    ) + seq![Cmd::SetSrgb(false)]
}

/// Renders one frame: sequences the shadow, geometry and lighting passes
/// over the scene and leaves the state ready for the overlay.  The whole
/// submission is a function of this frame's inputs alone, and the final
/// state does not depend on the state the frame started in.
pub fn render_frame(
    state: &mut GpuState,
    surface: SurfaceSize,
    camera: &CameraInput,
    scene: &LoadedScene,
    g: &GBuffer,
    sb: &ShadowBuffer,
    gbuffer_shader: &Shader,
    lighting_shader: &Shader,
    quad_vao: u32,
    sky: &Vec3Bits,
) -> (cmds: Vec<Cmd>)
    ensures
        cmds@ == spec_frame_cmds(
            surface,
            *camera,
            scene.sun_light,
            scene.models@,
            scene.point_lights@,
            *g,
            *sb,
            *gbuffer_shader,
            *lighting_shader,
            quad_vao,
            *sky,
        ),
        *final(state) == spec_frame_end_state(surface),
{
    // Shadow pass: depth from the light's view, through the light-space
    // transform recomputed from this frame's sun rotation.
    let mut cmds = gfx_prepare_shadow_pass(state, sb.fbo);
    cmds.push(Cmd::Clear);
    let shadow_eye = Vec3Bits { x: BITS_ZERO, y: BITS_ZERO, z: SHADOW_EYE_Z_BITS };
    let mut shadow_scene = scene.render(
        gbuffer_shader,
        &UniformValue::LightSpace(scene.sun_light.direction),
        &shadow_eye,
    );
    cmds.append(&mut shadow_scene);

    // Geometry pass: surface attributes into the g-buffer, independent of
    // the shadow pass.
    let mut geo_prep = gfx_prepare_geometry_pass(state, g.fbo, surface);
    cmds.append(&mut geo_prep);
    cmds.push(Cmd::Clear);
    let mut geo_scene = scene.render(
        gbuffer_shader,
        &UniformValue::Mat4(camera.proj_view),
        &camera.position,
    );
    cmds.append(&mut geo_scene);

    // Lighting resolve: full-screen read of the g-buffer and shadow map
    // into the backbuffer.
    let mut light_prep = gfx_prepare_lighting_pass(state, sky);
    cmds.append(&mut light_prep);
    cmds.push(Cmd::Clear);
    let mut resolve = gfx_render_lighting(
        lighting_shader,
        g,
        sb,
        camera,
        &scene.sun_light,
        sky,
        &scene.point_lights,
        quad_vao,
    );
    cmds.append(&mut resolve);

    // Hand off to the overlay with sRGB conversion disabled again.
    let mut overlay = gfx_prepare_imgui_pass(state);
    cmds.append(&mut overlay);

    proof {
        assert(cmds@ =~= spec_frame_cmds(
            surface,
            *camera,
            scene.sun_light,
            scene.models@,
            scene.point_lights@,
            *g,
            *sb,
            *gbuffer_shader,
            *lighting_shader,
            quad_vao,
            *sky,
        ));
    }
    cmds
}

/// Running a whole frame from any starting state ends in the frame's end
/// state: every pass establishes its own state explicitly, so nothing
/// residual from before the frame survives it.
pub proof fn lemma_frame_cmds_establish_end_state(
    s: GpuState,
    surface: SurfaceSize,
    camera: CameraInput,
    scene_sun: crate::scene::SunLight,
    models: Seq<crate::scene::Model>,
    lights: Seq<PointLight>,
    g: GBuffer,
    sb: ShadowBuffer,
    gbuffer_shader: Shader,
    lighting_shader: Shader,
    quad_vao: u32,
    sky: Vec3Bits,
)
    ensures
        crate::cmd::apply_all(
            s,
            spec_frame_cmds(
                surface,
                camera,
                scene_sun,
                models,
                lights,
                g,
                sb,
                gbuffer_shader,
                lighting_shader,
                quad_vao,
                sky,
            ),
        ) == spec_frame_end_state(surface),
{
    let shadow_pv = UniformValue::LightSpace(scene_sun.direction);
    let geo_pv = UniformValue::Mat4(camera.proj_view);
    let a = spec_shadow_pass_cmds(sb.fbo);
    let c1 = seq![Cmd::Clear];
    let s1 = spec_scene_render_cmds(
        gbuffer_shader,
        scene_sun,
        shadow_pv,
        spec_shadow_eye(),
        models,
        models.len() as int,
    );
    let geo = spec_geometry_pass_cmds(g.fbo, surface);
    let s2 = spec_scene_render_cmds(
        gbuffer_shader,
        scene_sun,
        geo_pv,
        camera.position,
        models,
        models.len() as int,
    );
    let l = spec_lighting_pass_cmds(sky);
    let sub = spec_lighting_submission_cmds(
        lighting_shader,
        g,
        sb,
        camera,
        scene_sun,
        sky,
        lights,
        quad_vao,
    );
    let srgb_off = seq![Cmd::SetSrgb(false)];

    crate::cmd::lemma_apply_all_append(s, a, c1);
    crate::cmd::lemma_apply_all_append(s, a + c1, s1);
    crate::cmd::lemma_apply_all_append(s, a + c1 + s1, geo);
    crate::cmd::lemma_apply_all_append(s, a + c1 + s1 + geo, c1);
    crate::cmd::lemma_apply_all_append(s, a + c1 + s1 + geo + c1, s2);
    crate::cmd::lemma_apply_all_append(s, a + c1 + s1 + geo + c1 + s2, l);
    crate::cmd::lemma_apply_all_append(s, a + c1 + s1 + geo + c1 + s2 + l, c1);
    crate::cmd::lemma_apply_all_append(s, a + c1 + s1 + geo + c1 + s2 + l + c1, sub);
    crate::cmd::lemma_apply_all_append(s, a + c1 + s1 + geo + c1 + s2 + l + c1 + sub, srgb_off);

    crate::passes::lemma_shadow_pass_cmds_apply(s, sb.fbo);
    let st1 = crate::passes::spec_shadow_pass_state(s, sb.fbo);
    assert forall|i: int| 0 <= i < c1.len() implies !(#[trigger] c1[i]).is_state_cmd() by {}
    crate::cmd::lemma_neutral_apply_all(st1, c1);
    crate::scene::lemma_scene_render_cmds_neutral(
        gbuffer_shader,
        scene_sun,
        shadow_pv,
        spec_shadow_eye(),
        models,
        models.len() as int,
    );
    crate::cmd::lemma_neutral_apply_all(st1, s1);
    crate::passes::lemma_geometry_pass_cmds_apply(st1, g.fbo, surface);
    let st2 = crate::passes::spec_geometry_pass_state(st1, g.fbo, surface);
    crate::cmd::lemma_neutral_apply_all(st2, c1);
    crate::scene::lemma_scene_render_cmds_neutral(
        gbuffer_shader,
        scene_sun,
        geo_pv,
        camera.position,
        models,
        models.len() as int,
    );
    crate::cmd::lemma_neutral_apply_all(st2, s2);
    crate::passes::lemma_lighting_pass_cmds_apply(st2, sky);
    let st3 = crate::passes::spec_lighting_pass_state(st2, sky);
    crate::cmd::lemma_neutral_apply_all(st3, c1);
    lemma_lighting_submission_neutral(
        lighting_shader,
        g,
        sb,
        camera,
        scene_sun,
        sky,
        lights,
        quad_vao,
    );
    crate::cmd::lemma_neutral_apply_all(st3, sub);
    assert(crate::cmd::apply_all(st3, srgb_off) == (GpuState { srgb: false, ..st3 })) by {
        reveal_with_fuel(crate::cmd::apply_prefix, 3);
    }
}

/// The light-space matrix is a transient per-frame value, derived from the
/// sun rotation the frame was given: the shadow segment transforms every
/// mesh by it, and the lighting segment submits the same value for shadow
/// sampling.  Frames with different rotations submit different derivations;
/// nothing of a previous frame's matrix is reused.
pub proof fn lemma_light_space_from_current_rotation(
    surface: SurfaceSize,
    camera: CameraInput,
    scene_sun: crate::scene::SunLight,
    models: Seq<crate::scene::Model>,
    lights: Seq<PointLight>,
    g: GBuffer,
    sb: ShadowBuffer,
    gbuffer_shader: Shader,
    lighting_shader: Shader,
    quad_vao: u32,
    sky: Vec3Bits,
)
    ensures
        ({
            let frame = spec_frame_cmds(
                surface,
                camera,
                scene_sun,
                models,
                lights,
                g,
                sb,
                gbuffer_shader,
                lighting_shader,
                quad_vao,
                sky,
            );
            let shadow_scene = spec_scene_render_cmds(
                gbuffer_shader,
                scene_sun,
                UniformValue::LightSpace(scene_sun.direction),
                spec_shadow_eye(),
                models,
                models.len() as int,
            );
            let geo_scene = spec_scene_render_cmds(
                gbuffer_shader,
                scene_sun,
                UniformValue::Mat4(camera.proj_view),
                camera.position,
                models,
                models.len() as int,
            );
            &&& frame.subrange(10, 10 + shadow_scene.len() as int) == shadow_scene
            &&& frame[39 + shadow_scene.len() as int + geo_scene.len() as int] == (Cmd::SetUniform {
                program: lighting_shader.program,
                location: spec_lookup(lighting_shader.uniforms@, "uLightSpaceMat"@),
                value: UniformValue::LightSpace(scene_sun.direction),
            })
        }),
{
    let frame = spec_frame_cmds(
        surface,
        camera,
        scene_sun,
        models,
        lights,
        g,
        sb,
        gbuffer_shader,
        lighting_shader,
        quad_vao,
        sky,
    );
    let shadow_scene = spec_scene_render_cmds(
        gbuffer_shader,
        scene_sun,
        UniformValue::LightSpace(scene_sun.direction),
        spec_shadow_eye(),
        models,
        models.len() as int,
    );
    let geo_scene = spec_scene_render_cmds(
        gbuffer_shader,
        scene_sun,
        UniformValue::Mat4(camera.proj_view),
        camera.position,
        models,
        models.len() as int,
    );
    let sub = spec_lighting_submission_cmds(
        lighting_shader,
        g,
        sb,
        camera,
        scene_sun,
        sky,
        lights,
        quad_vao,
    );
    assert(frame.subrange(10, 10 + shadow_scene.len() as int) =~= shadow_scene);
    assert(frame[39 + shadow_scene.len() as int + geo_scene.len() as int] == sub[13]);
}

/// A command with the object names of the target attachments blanked out:
/// what a frame looks like apart from which generation of GPU objects backs
/// it.
pub open spec fn spec_erase_cmd(c: Cmd) -> Cmd {
    match c {
        Cmd::BindFramebuffer(_) => Cmd::BindFramebuffer(0),
        Cmd::SetDrawBuffers { fbo: _, buffers } => Cmd::SetDrawBuffers { fbo: 0, buffers },
        Cmd::BindTexture { unit, texture: _ } => Cmd::BindTexture { unit, texture: 0 },
        _ => c,
    }
}

/// A command sequence with target object names blanked out.
pub open spec fn spec_erase_cmds(cmds: Seq<Cmd>) -> Seq<Cmd> {
    Seq::new(cmds.len(), |i: int| spec_erase_cmd(cmds[i]))
}

proof fn lemma_erase_append(a: Seq<Cmd>, b: Seq<Cmd>)
    ensures
        spec_erase_cmds(a + b) == spec_erase_cmds(a) + spec_erase_cmds(b),
{
    assert(spec_erase_cmds(a + b) =~= spec_erase_cmds(a) + spec_erase_cmds(b));
}

/// Apart from object names, a frame does not depend on which g-buffer
/// generation backs it: two g-buffers of the same size — as after a resize
/// away and back — yield frames identical up to the blanked names, given
/// the same scene, camera and sky.  The rendered image is a function of the
/// frame's commands with names standing only for the attachments' storage,
/// so such frames draw the same image.
pub proof fn lemma_frame_insensitive_to_gbuffer_names(
    surface: SurfaceSize,
    camera: CameraInput,
    scene_sun: crate::scene::SunLight,
    models: Seq<crate::scene::Model>,
    lights: Seq<PointLight>,
    g1: GBuffer,
    g2: GBuffer,
    sb: ShadowBuffer,
    gbuffer_shader: Shader,
    lighting_shader: Shader,
    quad_vao: u32,
    sky: Vec3Bits,
)
    requires
        g1.size == g2.size,
    ensures
        spec_erase_cmds(
            spec_frame_cmds(
                surface,
                camera,
                scene_sun,
                models,
                lights,
                g1,
                sb,
                gbuffer_shader,
                lighting_shader,
                quad_vao,
                sky,
            ),
        ) == spec_erase_cmds(
            spec_frame_cmds(
                surface,
                camera,
                scene_sun,
                models,
                lights,
                g2,
                sb,
                gbuffer_shader,
                lighting_shader,
                quad_vao,
                sky,
            ),
        ),
{
    let shadow_pv = UniformValue::LightSpace(scene_sun.direction);
    let geo_pv = UniformValue::Mat4(camera.proj_view);
    let a = spec_shadow_pass_cmds(sb.fbo);
    let c1 = seq![Cmd::Clear];
    let s1 = spec_scene_render_cmds(
        gbuffer_shader,
        scene_sun,
        shadow_pv,
        spec_shadow_eye(),
        models,
        models.len() as int,
    );
    let geo_a = spec_geometry_pass_cmds(g1.fbo, surface);
    let geo_b = spec_geometry_pass_cmds(g2.fbo, surface);
    let s2 = spec_scene_render_cmds(
        gbuffer_shader,
        scene_sun,
        geo_pv,
        camera.position,
        models,
        models.len() as int,
    );
    let l = spec_lighting_pass_cmds(sky);
    let sub_a = spec_lighting_submission_cmds(
        lighting_shader,
        g1,
        sb,
        camera,
        scene_sun,
        sky,
        lights,
        quad_vao,
    );
    let sub_b = spec_lighting_submission_cmds(
        lighting_shader,
        g2,
        sb,
        camera,
        scene_sun,
        sky,
        lights,
        quad_vao,
    );
    let srgb_off = seq![Cmd::SetSrgb(false)];

    lemma_erase_append(a, c1);
    lemma_erase_append(a + c1, s1);
    lemma_erase_append(a + c1 + s1, geo_a);
    lemma_erase_append(a + c1 + s1, geo_b);
    lemma_erase_append(a + c1 + s1 + geo_a, c1);
    lemma_erase_append(a + c1 + s1 + geo_b, c1);
    lemma_erase_append(a + c1 + s1 + geo_a + c1, s2);
    lemma_erase_append(a + c1 + s1 + geo_b + c1, s2);
    lemma_erase_append(a + c1 + s1 + geo_a + c1 + s2, l);
    lemma_erase_append(a + c1 + s1 + geo_b + c1 + s2, l);
    lemma_erase_append(a + c1 + s1 + geo_a + c1 + s2 + l, c1);
    lemma_erase_append(a + c1 + s1 + geo_b + c1 + s2 + l, c1);
    lemma_erase_append(a + c1 + s1 + geo_a + c1 + s2 + l + c1, sub_a);
    lemma_erase_append(a + c1 + s1 + geo_b + c1 + s2 + l + c1, sub_b);
    lemma_erase_append(a + c1 + s1 + geo_a + c1 + s2 + l + c1 + sub_a, srgb_off);
    lemma_erase_append(a + c1 + s1 + geo_b + c1 + s2 + l + c1 + sub_b, srgb_off);

    assert(spec_erase_cmds(geo_a) =~= spec_erase_cmds(geo_b));
    assert(spec_erase_cmds(sub_a) =~= spec_erase_cmds(sub_b));
}

/// Resizing the g-buffer away and back leaves a frame identical, up to the
/// blanked object names, to one rendered without any resize, given the same
/// scene and camera: the round trip restores the attachment sizes, and the
/// frame depends on the g-buffer only through its size and names.
pub proof fn lemma_resize_round_trip_redraws_identically(
    oa: crate::gfx::GpuObjects,
    g1: GBuffer,
    other_size: SurfaceSize,
    ob: crate::gfx::GpuObjects,
    g2: GBuffer,
    cb: Seq<Cmd>,
    oc: crate::gfx::GpuObjects,
    g3: GBuffer,
    cc: Seq<Cmd>,
    surface: SurfaceSize,
    camera: CameraInput,
    scene_sun: crate::scene::SunLight,
    models: Seq<crate::scene::Model>,
    lights: Seq<PointLight>,
    sb: ShadowBuffer,
    gbuffer_shader: Shader,
    lighting_shader: Shader,
    quad_vao: u32,
    sky: Vec3Bits,
)
    requires
        crate::gfx::resized_from(oa, g1, other_size, ob, g2, cb),
        crate::gfx::resized_from(ob, g2, g1.size, oc, g3, cc),
    ensures
        spec_erase_cmds(
            spec_frame_cmds(
                surface,
                camera,
                scene_sun,
                models,
                lights,
                g1,
                sb,
                gbuffer_shader,
                lighting_shader,
                quad_vao,
                sky,
            ),
        ) == spec_erase_cmds(
            spec_frame_cmds(
                surface,
                camera,
                scene_sun,
                models,
                lights,
                g3,
                sb,
                gbuffer_shader,
                lighting_shader,
                quad_vao,
                sky,
            ),
        ),
{
    lemma_frame_insensitive_to_gbuffer_names(
        surface,
        camera,
        scene_sun,
        models,
        lights,
        g1,
        g3,
        sb,
        gbuffer_shader,
        lighting_shader,
        quad_vao,
        sky,
    );
}

} // verus!
