use defren::cmd::Cmd;
use defren::gfx::{
    gfx_bind_framebuffer, gfx_clear, gfx_resize, gfx_setup_gbuffer, gfx_setup_shadow_buffer,
    GpuObjects, SHADOW_MAP_SIZE,
};
use defren::SurfaceSize;

#[test]
fn allocator_hands_out_distinct_names() {
    let mut objs = GpuObjects::new();
    let a = objs.gen_name();
    let b = objs.gen_name();
    let c = objs.gen_name();
    assert_eq!(a, 1);
    assert_eq!(b, 2);
    assert_eq!(c, 3);
    assert_eq!(objs.live, vec![1, 2, 3]);
}

#[test]
fn gbuffer_creation_allocates_six_objects() {
    let mut objs = GpuObjects::new();
    let size = SurfaceSize::new(1280, 720);
    let (g, cmds) = gfx_setup_gbuffer(&mut objs, size);
    let ids = vec![g.fbo, g.position, g.normal, g.albedo_spec, g.orm, g.depth_stencil];
    for (i, a) in ids.iter().enumerate() {
        assert!(objs.live.contains(a));
        for (j, b) in ids.iter().enumerate() {
            if i != j {
                assert_ne!(a, b);
            }
        }
    }
    assert_eq!(g.size, size);
    assert_eq!(cmds.len(), 12);
    assert_eq!(cmds[0], Cmd::GenFramebuffer(g.fbo));
    assert_eq!(cmds[1], Cmd::BindFramebuffer(g.fbo));
    match cmds[3] {
        Cmd::AttachColorTexture { fbo, texture, index, width, height, .. } => {
            assert_eq!(fbo, g.fbo);
            assert_eq!(texture, g.position);
            assert_eq!(index, 0);
            assert_eq!(width, 1280);
            assert_eq!(height, 720);
        }
        _ => panic!("expected a colour attachment"),
    }
}

#[test]
fn resize_replaces_the_attachment_set_without_leaks() {
    let mut objs = GpuObjects::new();
    let (mut g, _) = gfx_setup_gbuffer(&mut objs, SurfaceSize::new(1280, 720));
    let old_ids = vec![g.fbo, g.position, g.normal, g.albedo_spec, g.orm, g.depth_stencil];
    let live_before = objs.live.len();
    let cmds = defren::gfx::gfx_resize_gbuffer(&mut objs, &mut g, SurfaceSize::new(1920, 1080));
    // No prior-generation object stays live, and the live count is unchanged:
    // exactly one attachment set exists.
    for id in &old_ids {
        assert!(!objs.live.contains(id));
    }
    assert_eq!(objs.live.len(), live_before);
    assert_eq!(g.size, SurfaceSize::new(1920, 1080));
    // The commands first delete the old set, then build the new one.
    assert_eq!(cmds[0], Cmd::DeleteFramebuffer(old_ids[0]));
    assert_eq!(cmds[5], Cmd::DeleteRenderbuffer(old_ids[5]));
    assert_eq!(cmds[6], Cmd::GenFramebuffer(g.fbo));
    assert_eq!(cmds.len(), 18);
}

#[test]
fn resize_round_trip_restores_the_size() {
    let mut objs = GpuObjects::new();
    let first = SurfaceSize::new(1280, 720);
    let (mut g, _) = gfx_setup_gbuffer(&mut objs, first);
    defren::gfx::gfx_resize_gbuffer(&mut objs, &mut g, SurfaceSize::new(1920, 1080));
    defren::gfx::gfx_resize_gbuffer(&mut objs, &mut g, SurfaceSize::new(1280, 720));
    assert_eq!(g.size, first);
}

#[test]
fn shadow_buffer_is_depth_only_and_fixed_size() {
    let mut objs = GpuObjects::new();
    let (sb, cmds) = gfx_setup_shadow_buffer(&mut objs);
    assert_ne!(sb.fbo, sb.depth_texture);
    assert_eq!(cmds.len(), 4);
    match cmds[3] {
        Cmd::AttachDepthTexture { fbo, texture, size, border } => {
            assert_eq!(fbo, sb.fbo);
            assert_eq!(texture, sb.depth_texture);
            assert_eq!(size, SHADOW_MAP_SIZE);
            assert_eq!(size, 2048);
            // The border reads as the far depth: off-map samples are unshadowed.
            assert_eq!(border, f32::to_bits(1.0));
        }
        _ => panic!("expected a depth attachment"),
    }
}

#[test]
fn small_emitters_match_their_commands() {
    assert_eq!(gfx_bind_framebuffer(0), Cmd::BindFramebuffer(0));
    assert_eq!(gfx_clear(), Cmd::Clear);
    assert_eq!(
        gfx_resize(SurfaceSize::new(640, 480)),
        Cmd::SetViewport { width: 640, height: 480 }
    );
}
