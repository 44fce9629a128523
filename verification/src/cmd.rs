//! The command language the pipeline core speaks to the GPU in.
//!
//! A verified pass emits a sequence of [`Cmd`] values instead of calling the
//! graphics API; an unverified interpreter executes them in order.  The part
//! of the API state that the passes depend on is modelled by [`GpuState`],
//! and [`Cmd::apply`] gives each command its meaning on that state, so a
//! contract can say exactly which state a command sequence establishes.

use vstd::prelude::*;

use crate::payload::Mat4Bits;
use crate::payload::QuatBits;
use crate::payload::Vec3Bits;
use crate::payload::Vec4Bits;
use crate::transform::Transform;

verus! {

/// Depth comparison used while the depth test is enabled.
#[derive(Clone, Copy, PartialEq, Eq, Structural, Debug)]
pub enum DepthFunc {
    /// A fragment passes when its depth is less than the stored depth.
    Less,
    /// A fragment passes when its depth is greater than the stored depth.
    Greater,
}

/// Which faces are culled.
#[derive(Clone, Copy, PartialEq, Eq, Structural, Debug)]
pub enum CullFace {
    Front,
    Back,
}

/// Clip-space depth convention.
#[derive(Clone, Copy, PartialEq, Eq, Structural, Debug)]
pub enum ClipDepth {
    /// Depth runs over [-1, 1] in clip space.
    NegOneToOne,
    /// Depth runs over [0, 1] in clip space.
    ZeroToOne,
}

/// Which attachments of the bound framebuffer receive draws.
#[derive(Clone, Copy, PartialEq, Eq, Structural, Debug)]
pub enum DrawBufferSet {
    /// The first `n` colour attachments.
    ColorAttachments { n: u32 },
    /// The depth attachment alone; no colour is written.
    DepthOnly,
}

/// Internal format of a g-buffer colour attachment.
#[derive(Clone, Copy, PartialEq, Eq, Structural, Debug)]
pub enum AttachmentFormat {
    Rgb16f,
    Rgba16f,
}

/// A value submitted to a shader uniform.
///
/// Derived values carry the data they are derived from; the interpreter
/// evaluates them with floating-point arithmetic when it submits them.
#[derive(Clone, Copy, PartialEq, Eq, Structural, Debug)]
pub enum UniformValue {
    Mat4(Mat4Bits),
    Vec3(Vec3Bits),
    Vec4(Vec4Bits),
    /// A single float, as its bit pattern.
    F32(u32),
    I32(i32),
    U32(u32),
    /// The model matrix of a transform: translation times scale times
    /// rotation, applied in that order.
    ModelMatrix(Transform),
    /// The light-space matrix: the fixed orthographic shadow projection times
    /// the view derived from this directional-light rotation and the fixed
    /// reference eye.
    LightSpace(QuatBits),
    /// The XYZ Euler angles of a rotation.
    EulerAngles(QuatBits),
}

/// One GPU command.
#[derive(Clone, Copy, PartialEq, Eq, Structural, Debug)]
pub enum Cmd {
    /// Makes later draws target this framebuffer; 0 is the default backbuffer.
    BindFramebuffer(u32),
    SetDepthTest(bool),
    SetDepthFunc(DepthFunc),
    SetCullFace(CullFace),
    SetClipDepth(ClipDepth),
    /// Enables or disables sRGB conversion on writes to the target.
    SetSrgb(bool),
    SetViewport { width: u32, height: u32 },
    SetDrawBuffers { fbo: u32, buffers: DrawBufferSet },
    /// Depth value the next clear writes, as a bit pattern.
    SetClearDepth(u32),
    /// Colour the next clear writes, as bit patterns.
    SetClearColor { r: u32, g: u32, b: u32, a: u32 },
    /// Clears colour, depth and stencil of the bound framebuffer.
    Clear,
    UseProgram(u32),
    SetUniform { program: u32, location: i32, value: UniformValue },
    /// Binds a texture to a texture unit.
    BindTexture { unit: u32, texture: u32 },
    /// Draws an indexed mesh from its vertex array.
    DrawIndexed { vao: u32, index_count: u32 },
    /// Draws `vertices` vertices of a triangle strip from a vertex array.
    DrawTriangleStrip { vao: u32, vertices: u32 },
    GenFramebuffer(u32),
    GenTexture(u32),
    GenRenderbuffer(u32),
    /// Allocates storage for a colour attachment of a framebuffer.
    AttachColorTexture {
        fbo: u32,
        texture: u32,
        index: u32,
        format: AttachmentFormat,
        width: u32,
        height: u32,
    },
    /// Allocates a combined depth/stencil renderbuffer for a framebuffer.
    AttachDepthStencil { fbo: u32, rbo: u32, width: u32, height: u32 },
    /// Allocates a depth texture with border-clamped sampling for a
    /// framebuffer; `border` is the bit pattern of the border depth.
    AttachDepthTexture { fbo: u32, texture: u32, size: u32, border: u32 },
    DeleteFramebuffer(u32),
    DeleteTexture(u32),
    DeleteRenderbuffer(u32),
}

/// The slice of GPU state the passes depend on.
#[derive(Clone, Copy, PartialEq, Eq, Structural, Debug)]
pub struct GpuState {
    pub depth_test: bool,
    pub depth_func: DepthFunc,
    pub cull_face: CullFace,
    pub clip_depth: ClipDepth,
    pub srgb: bool,
    pub bound_framebuffer: u32,
    pub viewport_width: u32,
    pub viewport_height: u32,
}

impl GpuState {
    /// The state a fresh context starts in.
    pub open spec fn spec_initial(width: u32, height: u32) -> GpuState {
        GpuState {
            depth_test: false,
            depth_func: DepthFunc::Less,
            cull_face: CullFace::Back,
            clip_depth: ClipDepth::NegOneToOne,
            srgb: false,
            bound_framebuffer: 0,
            viewport_width: width,
            viewport_height: height,
        }
    }

    /// The state a fresh context starts in, with the given viewport.
    pub fn initial(width: u32, height: u32) -> (s: GpuState)
        ensures
            s == GpuState::spec_initial(width, height),
    {
        GpuState {
            depth_test: false,
            depth_func: DepthFunc::Less,
            cull_face: CullFace::Back,
            clip_depth: ClipDepth::NegOneToOne,
            srgb: false,
            bound_framebuffer: 0,
            viewport_width: width,
            viewport_height: height,
        }
    }
}

impl Cmd {
    /// The effect of one command on the modelled GPU state.
    pub open spec fn apply(self, s: GpuState) -> GpuState {
        match self {
            Cmd::BindFramebuffer(f) => GpuState { bound_framebuffer: f, ..s },
            Cmd::SetDepthTest(b) => GpuState { depth_test: b, ..s },
            Cmd::SetDepthFunc(f) => GpuState { depth_func: f, ..s },
            Cmd::SetCullFace(c) => GpuState { cull_face: c, ..s },
            Cmd::SetClipDepth(c) => GpuState { clip_depth: c, ..s },
            Cmd::SetSrgb(b) => GpuState { srgb: b, ..s },
            Cmd::SetViewport { width, height } => GpuState {
                viewport_width: width,
                viewport_height: height,
                ..s
            },
            _ => s,
        }
    }
}

/// The state after the first `n` commands run, in order, from `s`.
pub open spec fn apply_prefix(s: GpuState, cmds: Seq<Cmd>, n: int) -> GpuState
    decreases n,
{
    if n <= 0 {
        s
    } else {
        cmds[n - 1].apply(apply_prefix(s, cmds, n - 1))
    }
}

/// The state after a command sequence runs, in order, from `s`.
pub open spec fn apply_all(s: GpuState, cmds: Seq<Cmd>) -> GpuState {
    apply_prefix(s, cmds, cmds.len() as int)
}

/// A prefix shorter than `a` reads nothing of `b`.
proof fn lemma_apply_prefix_of_append(s: GpuState, a: Seq<Cmd>, b: Seq<Cmd>, n: int)
    requires
        n <= a.len(),
    ensures
        apply_prefix(s, a + b, n) == apply_prefix(s, a, n),
    decreases n,
{
    if n > 0 {
        lemma_apply_prefix_of_append(s, a, b, n - 1);
        assert((a + b)[n - 1] == a[n - 1]);
    }
}

/// Past `a`'s length, a prefix of `a + b` continues with `b` from where `a`
/// left the state.
proof fn lemma_apply_prefix_past_append(s: GpuState, a: Seq<Cmd>, b: Seq<Cmd>, k: int)
    requires
        0 <= k <= b.len(),
    ensures
        apply_prefix(s, a + b, a.len() + k) == apply_prefix(apply_all(s, a), b, k),
    decreases k,
{
    if k == 0 {
        lemma_apply_prefix_of_append(s, a, b, a.len() as int);
    } else {
        lemma_apply_prefix_past_append(s, a, b, k - 1);
        assert((a + b)[a.len() + k - 1] == b[k - 1]);
    }
}

/// Appending commands applies them after the prefix.
pub proof fn lemma_apply_all_append(s: GpuState, a: Seq<Cmd>, b: Seq<Cmd>)
    ensures
        apply_all(s, a + b) == apply_all(apply_all(s, a), b),
{
    lemma_apply_prefix_past_append(s, a, b, b.len() as int);
}

impl Cmd {
    /// Whether this command changes the modelled GPU state at all.
    pub open spec fn is_state_cmd(self) -> bool {
        match self {
            Cmd::BindFramebuffer(_) => true,
            Cmd::SetDepthTest(_) => true,
            Cmd::SetDepthFunc(_) => true,
            Cmd::SetCullFace(_) => true,
            Cmd::SetClipDepth(_) => true,
            Cmd::SetSrgb(_) => true,
            Cmd::SetViewport { .. } => true,
            _ => false,
        }
    }
}

/// A run of commands none of which touches the modelled state — draws,
/// uniform and texture submissions, clears — leaves the state alone.
pub proof fn lemma_neutral_apply_all(s: GpuState, cmds: Seq<Cmd>)
    requires
        forall|i: int| 0 <= i < cmds.len() ==> !(#[trigger] cmds[i]).is_state_cmd(),
    ensures
        apply_all(s, cmds) == s,
{
    lemma_neutral_apply_prefix(s, cmds, cmds.len() as int);
}

proof fn lemma_neutral_apply_prefix(s: GpuState, cmds: Seq<Cmd>, n: int)
    requires
        n <= cmds.len(),
        forall|i: int| 0 <= i < cmds.len() ==> !(#[trigger] cmds[i]).is_state_cmd(),
    ensures
        apply_prefix(s, cmds, n) == s,
    decreases n,
{
    if n > 0 {
        lemma_neutral_apply_prefix(s, cmds, n - 1);
        assert(!cmds[n - 1].is_state_cmd());
    }
}

} // verus!
