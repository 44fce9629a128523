//! Per-pass GPU state: what each pass must establish on entry.
//!
//! State transitions are never implicit.  Each preparation function emits the
//! full state its pass needs, so the state after it is a function of the
//! target alone — nothing residual from the previous pass survives into it —
//! and that independence is stated in each contract over [`apply_all`].
//!
//! | pass     | depth test | depth func | cull  | clip depth | target     |
//! |----------|-----------|------------|-------|------------|------------|
//! | shadow   | on        | greater    | front | [-1, 1]    | shadow fbo |
//! | geometry | on        | greater    | back  | [0, 1]     | g-buffer   |
//! | lighting | off       | less       | —     | [0, 1]     | backbuffer |

use vstd::prelude::*;

use crate::SurfaceSize;
use crate::cmd::Cmd;
use crate::cmd::ClipDepth;
use crate::cmd::CullFace;
use crate::cmd::DepthFunc;
use crate::cmd::DrawBufferSet;
use crate::cmd::GpuState;
use crate::cmd::apply_all;
use crate::cmd::apply_prefix;
use crate::gfx::SHADOW_MAP_SIZE;
use crate::payload::BITS_ZERO;

verus! {

/// The state the shadow pass runs under: depth-tested with a greater
/// comparison against a buffer cleared to zero, front faces culled to reduce
/// peter-panning, the [-1, 1] clip convention, and the shadow framebuffer
/// bound with a depth-only draw-buffer set.  Only the sRGB flag is left as
/// the previous pass had it; the pass writes no colour.
pub open spec fn spec_shadow_pass_state(s0: GpuState, fbo: u32) -> GpuState {
    GpuState {
        depth_test: true,
        depth_func: DepthFunc::Greater,
        cull_face: CullFace::Front,
        clip_depth: ClipDepth::NegOneToOne,
        srgb: s0.srgb,
        bound_framebuffer: fbo,
        viewport_width: SHADOW_MAP_SIZE,
        viewport_height: SHADOW_MAP_SIZE,
    }
}

/// The commands that establish the shadow pass state.
pub open spec fn spec_shadow_pass_cmds(fbo: u32) -> Seq<Cmd> {
    seq![
        Cmd::BindFramebuffer(fbo),
        Cmd::SetDepthTest(true),
        Cmd::SetClipDepth(ClipDepth::NegOneToOne),
        Cmd::SetDepthFunc(DepthFunc::Greater),
        Cmd::SetCullFace(CullFace::Front),
        Cmd::SetViewport { width: SHADOW_MAP_SIZE, height: SHADOW_MAP_SIZE },
        Cmd::SetClearDepth(BITS_ZERO),
        Cmd::SetClearColor { r: BITS_ZERO, g: BITS_ZERO, b: BITS_ZERO, a: BITS_ZERO },
        Cmd::SetDrawBuffers { fbo, buffers: DrawBufferSet::DepthOnly },
    ]
}

/// Enters the shadow pass.  The resulting state does not depend on the state
/// the previous pass left behind.
pub fn gfx_prepare_shadow_pass(state: &mut GpuState, fbo: u32) -> (cmds: Vec<Cmd>)
    ensures
        cmds@ == spec_shadow_pass_cmds(fbo),
        *final(state) == spec_shadow_pass_state(*old(state), fbo),
        forall|s: GpuState| apply_all(s, cmds@) == spec_shadow_pass_state(s, fbo),
{
    let mut cmds: Vec<Cmd> = Vec::new();
    cmds.push(Cmd::BindFramebuffer(fbo));
    cmds.push(Cmd::SetDepthTest(true));
    cmds.push(Cmd::SetClipDepth(ClipDepth::NegOneToOne));
    cmds.push(Cmd::SetDepthFunc(DepthFunc::Greater));
    cmds.push(Cmd::SetCullFace(CullFace::Front));
    cmds.push(Cmd::SetViewport { width: SHADOW_MAP_SIZE, height: SHADOW_MAP_SIZE });
    cmds.push(Cmd::SetClearDepth(BITS_ZERO));
    cmds.push(Cmd::SetClearColor { r: BITS_ZERO, g: BITS_ZERO, b: BITS_ZERO, a: BITS_ZERO });
    cmds.push(Cmd::SetDrawBuffers { fbo, buffers: DrawBufferSet::DepthOnly });
    state.depth_test = true;
    state.clip_depth = ClipDepth::NegOneToOne;
    state.depth_func = DepthFunc::Greater;
    state.cull_face = CullFace::Front;
    state.bound_framebuffer = fbo;
    state.viewport_width = SHADOW_MAP_SIZE;
    state.viewport_height = SHADOW_MAP_SIZE;
    proof {
        assert(cmds@ =~= spec_shadow_pass_cmds(fbo));
        assert forall|s: GpuState| apply_all(s, cmds@) == spec_shadow_pass_state(s, fbo) by {
            reveal_with_fuel(apply_prefix, 11);
        }
    }
    cmds
}

/// The state the geometry pass runs under: depth-tested with a greater
/// comparison against a buffer cleared to zero under the reversed depth
/// convention — the [0, 1] clip range with near mapping close to one, which
/// concentrates floating-point depth precision near the camera — back faces
/// culled, and the g-buffer bound with all four colour attachments
/// receiving draws at the surface's viewport.
pub open spec fn spec_geometry_pass_state(s0: GpuState, fbo: u32, size: SurfaceSize) -> GpuState {
    GpuState {
        depth_test: true,
        depth_func: DepthFunc::Greater,
        cull_face: CullFace::Back,
        clip_depth: ClipDepth::ZeroToOne,
        srgb: s0.srgb,
        bound_framebuffer: fbo,
        viewport_width: size.width,
        viewport_height: size.height,
    }
}

/// The commands that establish the geometry pass state.
pub open spec fn spec_geometry_pass_cmds(fbo: u32, size: SurfaceSize) -> Seq<Cmd> {
    seq![
        Cmd::BindFramebuffer(fbo),
        Cmd::SetDepthTest(true),
        Cmd::SetClipDepth(ClipDepth::ZeroToOne),
        Cmd::SetDepthFunc(DepthFunc::Greater),
        Cmd::SetCullFace(CullFace::Back),
        Cmd::SetViewport { width: size.width, height: size.height },
        Cmd::SetClearDepth(BITS_ZERO),
        Cmd::SetClearColor { r: BITS_ZERO, g: BITS_ZERO, b: BITS_ZERO, a: BITS_ZERO },
        Cmd::SetDrawBuffers { fbo, buffers: DrawBufferSet::ColorAttachments { n: 4 } },
    ]
}

/// Enters the geometry pass.  The resulting state does not depend on the
/// state the previous pass left behind.
pub fn gfx_prepare_geometry_pass(state: &mut GpuState, fbo: u32, size: SurfaceSize) -> (cmds: Vec<
    Cmd,
>)
    ensures
        cmds@ == spec_geometry_pass_cmds(fbo, size),
        *final(state) == spec_geometry_pass_state(*old(state), fbo, size),
        forall|s: GpuState| apply_all(s, cmds@) == spec_geometry_pass_state(s, fbo, size),
{
    let mut cmds: Vec<Cmd> = Vec::new();
    cmds.push(Cmd::BindFramebuffer(fbo));
    cmds.push(Cmd::SetDepthTest(true));
    cmds.push(Cmd::SetClipDepth(ClipDepth::ZeroToOne));
    cmds.push(Cmd::SetDepthFunc(DepthFunc::Greater));
    cmds.push(Cmd::SetCullFace(CullFace::Back));
    cmds.push(Cmd::SetViewport { width: size.width, height: size.height });
    cmds.push(Cmd::SetClearDepth(BITS_ZERO));
    cmds.push(Cmd::SetClearColor { r: BITS_ZERO, g: BITS_ZERO, b: BITS_ZERO, a: BITS_ZERO });
    cmds.push(Cmd::SetDrawBuffers { fbo, buffers: DrawBufferSet::ColorAttachments { n: 4 } });
    state.depth_test = true;
    state.clip_depth = ClipDepth::ZeroToOne;
    state.depth_func = DepthFunc::Greater;
    state.cull_face = CullFace::Back;
    state.bound_framebuffer = fbo;
    state.viewport_width = size.width;
    state.viewport_height = size.height;
    proof {
        assert(cmds@ =~= spec_geometry_pass_cmds(fbo, size));
        assert forall|s: GpuState| apply_all(s, cmds@) == spec_geometry_pass_state(s, fbo, size)
            by {
            reveal_with_fuel(apply_prefix, 11);
        }
    }
    cmds
}

/// The state the lighting resolve runs under: a full-screen pass with the
/// depth test off and the comparison restored to its default, sRGB-correct
/// output conversion on, and the default backbuffer bound.  Culling does not
/// apply to the quad and is left as is.
pub open spec fn spec_lighting_pass_state(s0: GpuState, clear: crate::payload::Vec3Bits) -> GpuState {
    GpuState {
        depth_test: false,
        depth_func: DepthFunc::Less,
        cull_face: s0.cull_face,
        clip_depth: s0.clip_depth,
        srgb: true,
        bound_framebuffer: 0,
        viewport_width: s0.viewport_width,
        viewport_height: s0.viewport_height,
    }
}

/// The commands that establish the lighting pass state; the clear colour is
/// the sky colour the resolve blends fog toward.
pub open spec fn spec_lighting_pass_cmds(clear: crate::payload::Vec3Bits) -> Seq<Cmd> {
    seq![
        Cmd::SetDepthFunc(DepthFunc::Less),
        Cmd::SetDepthTest(false),
        Cmd::SetClearColor {
            r: clear.x,
            g: clear.y,
            b: clear.z,
            a: crate::payload::BITS_ONE,
        },
        Cmd::SetSrgb(true),
        Cmd::BindFramebuffer(0),
    ]
}

/// Enters the lighting resolve pass, clearing to the sky colour.  The
/// resulting test/target state does not depend on the previous pass.
pub fn gfx_prepare_lighting_pass(state: &mut GpuState, sky_color: &crate::payload::Vec3Bits) -> (cmds:
    Vec<Cmd>)
    ensures
        cmds@ == spec_lighting_pass_cmds(*sky_color),
        *final(state) == spec_lighting_pass_state(*old(state), *sky_color),
        forall|s: GpuState| apply_all(s, cmds@) == spec_lighting_pass_state(s, *sky_color),
{
    let mut cmds: Vec<Cmd> = Vec::new();
    cmds.push(Cmd::SetDepthFunc(DepthFunc::Less));
    cmds.push(Cmd::SetDepthTest(false));
    cmds.push(Cmd::SetClearColor {
        r: sky_color.x,
        g: sky_color.y,
        b: sky_color.z,
        a: crate::payload::BITS_ONE,
    });
    cmds.push(Cmd::SetSrgb(true));
    cmds.push(Cmd::BindFramebuffer(0));
    state.depth_func = DepthFunc::Less;
    state.depth_test = false;
    state.srgb = true;
    state.bound_framebuffer = 0;
    proof {
        assert(cmds@ =~= spec_lighting_pass_cmds(*sky_color));
        assert forall|s: GpuState| apply_all(s, cmds@) == spec_lighting_pass_state(s, *sky_color)
            by {
            reveal_with_fuel(apply_prefix, 7);
        }
    }
    cmds
}

/// Leaves the lighting pass for the overlay: sRGB conversion must be off
/// again before a consumer that assumes linear blending draws.
pub fn gfx_prepare_imgui_pass(state: &mut GpuState) -> (cmds: Vec<Cmd>)
    ensures
        cmds@ == seq![Cmd::SetSrgb(false)],
        *final(state) == (GpuState { srgb: false, ..*old(state) }),
        forall|s: GpuState| apply_all(s, cmds@) == (GpuState { srgb: false, ..s }),
{
    let mut cmds: Vec<Cmd> = Vec::new();
    cmds.push(Cmd::SetSrgb(false));
    state.srgb = false;
    proof {
        assert(cmds@ =~= seq![Cmd::SetSrgb(false)]);
        assert forall|s: GpuState| apply_all(s, cmds@) == (GpuState { srgb: false, ..s }) by {
            reveal_with_fuel(apply_prefix, 3);
        }
    }
    cmds
}

/// The shadow preparation commands establish the shadow pass state from any
/// starting state.
pub proof fn lemma_shadow_pass_cmds_apply(s: GpuState, fbo: u32)
    ensures
        apply_all(s, spec_shadow_pass_cmds(fbo)) == spec_shadow_pass_state(s, fbo),
{
    reveal_with_fuel(apply_prefix, 11);
}

/// The geometry preparation commands establish the geometry pass state from
/// any starting state.
pub proof fn lemma_geometry_pass_cmds_apply(s: GpuState, fbo: u32, size: SurfaceSize)
    ensures
        apply_all(s, spec_geometry_pass_cmds(fbo, size)) == spec_geometry_pass_state(s, fbo, size),
{
    reveal_with_fuel(apply_prefix, 11);
}

/// The lighting preparation commands establish the lighting pass state from
/// any starting state.
pub proof fn lemma_lighting_pass_cmds_apply(s: GpuState, clear: crate::payload::Vec3Bits)
    ensures
        apply_all(s, spec_lighting_pass_cmds(clear)) == spec_lighting_pass_state(s, clear),
{
    reveal_with_fuel(apply_prefix, 7);
}

/// Whether a fragment at depth `incoming` replaces the stored depth under
/// the given comparison.
pub open spec fn spec_depth_test(func: DepthFunc, incoming: u32, stored: u32) -> bool {
    match func {
        DepthFunc::Less => incoming < stored,
        DepthFunc::Greater => incoming > stored,
    }
}

/// Runs one depth comparison.
pub fn depth_test_passes(func: DepthFunc, incoming: u32, stored: u32) -> (r: bool)
    ensures
        r == spec_depth_test(func, incoming, stored),
{
    match func {
        DepthFunc::Less => incoming < stored,
        DepthFunc::Greater => incoming > stored,
    }
}

/// The stored depth after the first `n` fragments ran the test, in order,
/// against a buffer cleared to `clear`.
pub open spec fn spec_resolve_prefix(func: DepthFunc, clear: u32, frags: Seq<u32>, n: int) -> u32
    decreases n,
{
    if n <= 0 {
        clear
    } else {
        let prev = spec_resolve_prefix(func, clear, frags, n - 1);
        if spec_depth_test(func, frags[n - 1], prev) {
            frags[n - 1]
        } else {
            prev
        }
    }
}

/// The stored depth after all fragments ran the test.
pub open spec fn spec_resolve_depth(func: DepthFunc, clear: u32, frags: Seq<u32>) -> u32 {
    spec_resolve_prefix(func, clear, frags, frags.len() as int)
}

/// Resolves a pixel's depth: each fragment in submission order runs the
/// depth test against the stored value and replaces it when it passes.
pub fn resolve_depth(func: DepthFunc, clear: u32, frags: &Vec<u32>) -> (r: u32)
    ensures
        r == spec_resolve_depth(func, clear, frags@),
{
    let mut stored = clear;
    let mut i: usize = 0;
    while i < frags.len()
        invariant
            i <= frags@.len(),
            stored == spec_resolve_prefix(func, clear, frags@, i as int),
        decreases frags@.len() - i,
    {
        if depth_test_passes(func, frags[i], stored) {
            stored = frags[i];
        }
        i = i + 1;
    }
    stored
}

/// Under the greater comparison of the shadow and geometry passes, with the
/// buffer cleared to the minimum, the surviving depth is the maximum of the
/// submitted fragment depths whatever order they arrive in — so of two
/// fragments at one pixel, the one whose stored value is larger (the nearer
/// one, under the reversed depth convention) wins.
pub proof fn lemma_greater_resolves_to_max(clear: u32, frags: Seq<u32>)
    ensures
        spec_resolve_depth(DepthFunc::Greater, clear, frags) >= clear,
        forall|i: int|
            0 <= i < frags.len() ==> spec_resolve_depth(DepthFunc::Greater, clear, frags)
                >= #[trigger] frags[i],
        spec_resolve_depth(DepthFunc::Greater, clear, frags) == clear || frags.contains(
            spec_resolve_depth(DepthFunc::Greater, clear, frags),
        ),
{
    lemma_greater_prefix_max(clear, frags, frags.len() as int);
}

/// Both depth-writing passes order fragments consistently with their clip
/// conventions: the geometry pass and the shadow pass run the greater
/// comparison against a buffer cleared to zero, so at every pixel the
/// fragment with the larger depth value survives, whatever order the two
/// passes' draws submit fragments in.
pub proof fn lemma_depth_passes_keep_the_larger_value(
    s0: GpuState,
    g_fbo: u32,
    shadow_fbo: u32,
    size: SurfaceSize,
    frags: Seq<u32>,
)
    ensures
        spec_geometry_pass_state(s0, g_fbo, size).depth_func == DepthFunc::Greater,
        spec_shadow_pass_state(s0, shadow_fbo).depth_func == DepthFunc::Greater,
        spec_geometry_pass_cmds(g_fbo, size).contains(Cmd::SetClearDepth(BITS_ZERO)),
        spec_shadow_pass_cmds(shadow_fbo).contains(Cmd::SetClearDepth(BITS_ZERO)),
        forall|i: int|
            0 <= i < frags.len() ==> spec_resolve_depth(DepthFunc::Greater, BITS_ZERO, frags)
                >= #[trigger] frags[i],
        spec_resolve_depth(DepthFunc::Greater, BITS_ZERO, frags) == BITS_ZERO || frags.contains(
            spec_resolve_depth(DepthFunc::Greater, BITS_ZERO, frags),
        ),
{
    assert(spec_geometry_pass_cmds(g_fbo, size)[6] == Cmd::SetClearDepth(BITS_ZERO));
    assert(spec_shadow_pass_cmds(shadow_fbo)[6] == Cmd::SetClearDepth(BITS_ZERO));
    lemma_greater_resolves_to_max(BITS_ZERO, frags);
}

proof fn lemma_greater_prefix_max(clear: u32, frags: Seq<u32>, n: int)
    requires
        n <= frags.len(),
    ensures
        spec_resolve_prefix(DepthFunc::Greater, clear, frags, n) >= clear,
        forall|i: int|
            0 <= i < n ==> spec_resolve_prefix(DepthFunc::Greater, clear, frags, n)
                >= #[trigger] frags[i],
        spec_resolve_prefix(DepthFunc::Greater, clear, frags, n) == clear || frags.contains(
            spec_resolve_prefix(DepthFunc::Greater, clear, frags, n),
        ),
    decreases n,
{
    if n > 0 {
        lemma_greater_prefix_max(clear, frags, n - 1);
    }
}

} // verus!
