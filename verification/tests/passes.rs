use defren::cmd::{ClipDepth, CullFace, DepthFunc, GpuState};
use defren::passes::{
    depth_test_passes, gfx_prepare_geometry_pass, gfx_prepare_imgui_pass,
    gfx_prepare_lighting_pass, gfx_prepare_shadow_pass, resolve_depth,
};
use defren::payload::Vec3Bits;
use defren::SurfaceSize;

fn arbitrary_state() -> GpuState {
    GpuState {
        depth_test: true,
        depth_func: DepthFunc::Less,
        cull_face: CullFace::Back,
        clip_depth: ClipDepth::ZeroToOne,
        srgb: true,
        bound_framebuffer: 42,
        viewport_width: 7,
        viewport_height: 7,
    }
}

#[test]
fn shadow_pass_establishes_its_row() {
    let mut state = arbitrary_state();
    gfx_prepare_shadow_pass(&mut state, 5);
    assert!(state.depth_test);
    assert_eq!(state.depth_func, DepthFunc::Greater);
    assert_eq!(state.cull_face, CullFace::Front);
    assert_eq!(state.clip_depth, ClipDepth::NegOneToOne);
    assert_eq!(state.bound_framebuffer, 5);
    assert_eq!(state.viewport_width, 2048);
    assert_eq!(state.viewport_height, 2048);
}

#[test]
fn geometry_pass_establishes_its_row() {
    let mut state = arbitrary_state();
    gfx_prepare_geometry_pass(&mut state, 6, SurfaceSize::new(1280, 720));
    assert!(state.depth_test);
    assert_eq!(state.depth_func, DepthFunc::Greater);
    assert_eq!(state.cull_face, CullFace::Back);
    assert_eq!(state.clip_depth, ClipDepth::ZeroToOne);
    assert_eq!(state.bound_framebuffer, 6);
    assert_eq!(state.viewport_width, 1280);
    assert_eq!(state.viewport_height, 720);
}

#[test]
fn lighting_pass_disables_depth_and_enables_srgb() {
    let mut state = arbitrary_state();
    state.srgb = false;
    gfx_prepare_lighting_pass(&mut state, &Vec3Bits::zero());
    assert!(!state.depth_test);
    assert_eq!(state.depth_func, DepthFunc::Less);
    assert!(state.srgb);
    assert_eq!(state.bound_framebuffer, 0);
}

#[test]
fn overlay_handoff_disables_srgb_again() {
    let mut state = arbitrary_state();
    state.srgb = true;
    gfx_prepare_imgui_pass(&mut state);
    assert!(!state.srgb);
}

#[test]
fn passes_do_not_assume_residual_state() {
    // Entering a pass from two very different residual states ends in the
    // same state.
    let mut a = arbitrary_state();
    let mut b = GpuState::initial(1, 1);
    gfx_prepare_geometry_pass(&mut a, 6, SurfaceSize::new(64, 64));
    gfx_prepare_geometry_pass(&mut b, 6, SurfaceSize::new(64, 64));
    b.srgb = a.srgb;
    assert_eq!(a, b);
}

#[test]
fn greater_depth_resolution_keeps_the_larger_value() {
    // Two known depths in both submission orders: the larger stored value —
    // the nearer fragment under the reversed depth convention — survives.
    let near = f32::to_bits(0.75);
    let far = f32::to_bits(0.25);
    assert!(near > far);
    assert_eq!(resolve_depth(DepthFunc::Greater, 0, &vec![far, near]), near);
    assert_eq!(resolve_depth(DepthFunc::Greater, 0, &vec![near, far]), near);
}

#[test]
fn less_depth_resolution_keeps_the_smaller_value() {
    assert_eq!(resolve_depth(DepthFunc::Less, u32::MAX, &vec![9, 3, 7]), 3);
}

#[test]
fn depth_test_follows_the_comparison() {
    assert!(depth_test_passes(DepthFunc::Greater, 5, 4));
    assert!(!depth_test_passes(DepthFunc::Greater, 4, 4));
    assert!(depth_test_passes(DepthFunc::Less, 3, 4));
    assert!(!depth_test_passes(DepthFunc::Less, 4, 4));
}

#[test]
fn empty_pixel_keeps_the_clear_depth() {
    assert_eq!(resolve_depth(DepthFunc::Greater, 0, &vec![]), 0);
}
