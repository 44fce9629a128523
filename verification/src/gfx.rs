//! GPU resource lifecycle: the g-buffer and the shadow buffer.
//!
//! Object names are drawn from a [`GpuObjects`] allocator that tracks which
//! names are live, so contracts can state that a resize tears the previous
//! attachment set down completely — no prior-generation object stays live —
//! and leaves exactly one complete set behind.

use vstd::prelude::*;

use crate::SurfaceSize;
use crate::cmd::AttachmentFormat;
use crate::cmd::Cmd;

verus! {

/// Side length of the fixed-resolution square shadow map, in pixels.
pub const SHADOW_MAP_SIZE: u32 = 2048;

/// Bit pattern of the shadow map's border depth (1.0): a sample outside the
/// map reads the far value, so off-map points are treated as unshadowed.
pub const SHADOW_BORDER_DEPTH: u32 = crate::payload::BITS_ONE;

/// `live` with every occurrence of a name in `ids` removed, order kept.
pub open spec fn remove_names(live: Seq<u32>, ids: Seq<u32>) -> Seq<u32>
    decreases live.len(),
{
    if live.len() == 0 {
        Seq::empty()
    } else {
        let rest = remove_names(live.drop_last(), ids);
        if ids.contains(live.last()) {
            rest
        } else {
            rest.push(live.last())
        }
    }
}

/// Removing names that do not occur leaves the sequence unchanged.
proof fn lemma_remove_names_none(a: Seq<u32>, ids: Seq<u32>)
    requires
        forall|i: int| 0 <= i < a.len() ==> !ids.contains(#[trigger] a[i]),
    ensures
        remove_names(a, ids) == a,
    decreases a.len(),
{
    if a.len() > 0 {
        let d = a.drop_last();
        assert forall|i: int| 0 <= i < d.len() implies !ids.contains(#[trigger] d[i]) by {
            assert(d[i] == a[i]);
        }
        lemma_remove_names_none(d, ids);
        assert(!ids.contains(a.last()));
        assert(remove_names(a, ids) =~= a);
    }
}

/// Removing names that all occur leaves nothing.
proof fn lemma_remove_names_all(b: Seq<u32>, ids: Seq<u32>)
    requires
        forall|i: int| 0 <= i < b.len() ==> ids.contains(#[trigger] b[i]),
    ensures
        remove_names(b, ids) == Seq::<u32>::empty(),
    decreases b.len(),
{
    if b.len() > 0 {
        let d = b.drop_last();
        assert forall|i: int| 0 <= i < d.len() implies ids.contains(#[trigger] d[i]) by {
            assert(d[i] == b[i]);
        }
        lemma_remove_names_all(d, ids);
        assert(ids.contains(b.last()));
    }
}

/// Removal distributes over concatenation.
proof fn lemma_remove_names_append(a: Seq<u32>, b: Seq<u32>, ids: Seq<u32>)
    ensures
        remove_names(a + b, ids) == remove_names(a, ids) + remove_names(b, ids),
    decreases b.len(),
{
    if b.len() == 0 {
        assert(a + b =~= a);
        assert(remove_names(a, ids) + remove_names(b, ids) =~= remove_names(a, ids));
    } else {
        let d = b.drop_last();
        assert((a + b).drop_last() =~= a + d);
        lemma_remove_names_append(a, d, ids);
        assert((a + b).last() == b.last());
        if ids.contains(b.last()) {
            assert(remove_names(a, ids) + remove_names(b, ids) =~= remove_names(a, ids)
                + remove_names(d, ids));
        } else {
            assert(remove_names(a, ids) + remove_names(b, ids) =~= (remove_names(a, ids)
                + remove_names(d, ids)).push(b.last()));
        }
    }
}

/// What removal leaves: only elements of `live` that are not in `ids`, still
/// free of duplicates when `live` was.
pub proof fn lemma_remove_names_props(live: Seq<u32>, ids: Seq<u32>)
    ensures
        forall|i: int|
            0 <= i < remove_names(live, ids).len() ==> live.contains(
                #[trigger] remove_names(live, ids)[i],
            ),
        forall|i: int|
            0 <= i < remove_names(live, ids).len() ==> !ids.contains(
                #[trigger] remove_names(live, ids)[i],
            ),
        (forall|i: int, j: int| 0 <= i < j < live.len() ==> live[i] != live[j])
            ==> (forall|i: int, j: int|
            0 <= i < j < remove_names(live, ids).len() ==> remove_names(live, ids)[i]
                != remove_names(live, ids)[j]),
    decreases live.len(),
{
    if live.len() > 0 {
        let d = live.drop_last();
        let r = remove_names(live, ids);
        let rd = remove_names(d, ids);
        lemma_remove_names_props(d, ids);
        assert forall|i: int| 0 <= i < r.len() implies live.contains(#[trigger] r[i])
            && !ids.contains(r[i]) by {
            if i < rd.len() {
                assert(d.contains(rd[i]));
                let k = choose|k: int| 0 <= k < d.len() && d[k] == rd[i];
                assert(live[k] == d[k]);
            } else {
                assert(r[i] == live.last());
            }
        }
        if forall|i: int, j: int| 0 <= i < j < live.len() ==> live[i] != live[j] {
            assert forall|i: int, j: int| 0 <= i < j < d.len() implies d[i] != d[j] by {
                assert(live[i] == d[i] && live[j] == d[j]);
            }
            assert forall|i: int, j: int| 0 <= i < j < r.len() implies r[i] != r[j] by {
                if j < rd.len() {
                } else if !ids.contains(live.last()) {
                    assert(r[j] == live.last());
                    assert(d.contains(rd[i]));
                    let k = choose|k: int| 0 <= k < d.len() && d[k] == rd[i];
                    assert(live[k] == d[k]);
                    assert(live[k] != live[live.len() - 1]);
                }
            }
        }
    }
}

/// Allocator of GPU object names.
///
/// Names are handed out from a counter and recorded in `live` until they are
/// deleted, so "no object leaked" is a statement about `live`.
pub struct GpuObjects {
    pub next: u32,
    pub live: Vec<u32>,
}

impl GpuObjects {
    /// Every live name was handed out by the counter, and no name is live twice.
    pub open spec fn wf(self) -> bool {
        &&& 0 < self.next
        &&& forall|i: int| 0 <= i < self.live@.len() ==> 0 < #[trigger] self.live@[i] < self.next
        &&& forall|i: int, j: int|
            0 <= i < j < self.live@.len() ==> self.live@[i] != self.live@[j]
    }

    /// A fresh allocator with no live objects; name 0 is reserved for the
    /// default framebuffer and is never handed out.
    pub fn new() -> (o: GpuObjects)
        ensures
            o.wf(),
            o.live@ == Seq::<u32>::empty(),
            o.next == 1,
    {
        GpuObjects { next: 1, live: Vec::new() }
    }

    /// Hands out one fresh name.
    pub fn gen_name(&mut self) -> (id: u32)
        requires
            old(self).wf(),
            old(self).next < 0xffff_ffff,
        ensures
            final(self).wf(),
            id == old(self).next,
            !old(self).live@.contains(id),
            final(self).live@ == old(self).live@.push(id),
            final(self).next == old(self).next + 1,
    {
        let id = self.next;
        self.next = self.next + 1;
        self.live.push(id);
        proof {
            assert forall|i: int| 0 <= i < self.live@.len() implies 0 < #[trigger] self.live@[i]
                < self.next by {
                if i < old(self).live@.len() {
                    assert(self.live@[i] == old(self).live@[i]);
                }
            }
        }
        id
    }

    /// Forgets the given names, keeping every other live name in order.
    fn release(&mut self, ids: &Vec<u32>)
        requires
            old(self).wf(),
        ensures
            final(self).wf(),
            final(self).live@ == remove_names(old(self).live@, ids@),
            final(self).next == old(self).next,
    {
        let ghost old_live = self.live@;
        let mut retained: Vec<u32> = Vec::new();
        let mut i: usize = 0;
        while i < self.live.len()
            invariant
                i <= self.live@.len(),
                self.live@ == old_live,
                retained@ == remove_names(old_live.take(i as int), ids@),
            decreases self.live@.len() - i,
        {
            let id = self.live[i];
            let mut found = false;
            let mut j: usize = 0;
            while j < ids.len()
                invariant
                    j <= ids@.len(),
                    0 <= i < old_live.len(),
                    id == old_live[i as int],
                    found <==> exists|k: int| 0 <= k < j && ids@[k] == id,
                decreases ids@.len() - j,
            {
                if ids[j] == id {
                    found = true;
                }
                j = j + 1;
            }
            if !found {
                retained.push(id);
            }
            proof {
                assert(found <==> ids@.contains(id));
                let t = old_live.take(i + 1);
                assert(t.drop_last() =~= old_live.take(i as int));
                assert(t.last() == id);
                assert(retained@ == remove_names(old_live.take(i + 1), ids@));
            }
            i = i + 1;
        }
        proof {
            assert(old_live.take(old_live.len() as int) =~= old_live);
        }
        self.live = retained;
        proof {
            lemma_remove_names_props(old_live, ids@);
            assert forall|a: int| 0 <= a < self.live@.len() implies 0 < #[trigger] self.live@[a]
                < self.next by {
                assert(old_live.contains(self.live@[a]));
                let k = choose|k: int| 0 <= k < old_live.len() && old_live[k] == self.live@[a];
                assert(0 < old_live[k] < self.next);
            }
        }
    }
}

/// The g-buffer: one framebuffer with four colour attachments and a combined
/// depth/stencil renderbuffer, all sized alike.
#[derive(Clone, Copy, PartialEq, Eq, Structural, Debug)]
pub struct GBuffer {
    pub fbo: u32,
    pub position: u32,
    pub normal: u32,
    pub albedo_spec: u32,
    pub orm: u32,
    pub depth_stencil: u32,
    pub size: SurfaceSize,
}

impl GBuffer {
    /// The object names this attachment set owns, in creation order.
    pub open spec fn ids(self) -> Seq<u32> {
        seq![self.fbo, self.position, self.normal, self.albedo_spec, self.orm, self.depth_stencil]
    }

    /// The names are pairwise distinct and none is the default framebuffer.
    pub open spec fn wf(self) -> bool {
        &&& forall|i: int, j: int| 0 <= i < j < 6 ==> self.ids()[i] != self.ids()[j]
        &&& forall|i: int| 0 <= i < 6 ==> #[trigger] self.ids()[i] != 0
    }

    /// What determines the rendered image, apart from object names: the
    /// attachment layout is fixed, so the size is the whole of it.
    pub open spec fn structure(self) -> SurfaceSize {
        self.size
    }
}

/// Internal format of g-buffer colour attachment `index`: world position,
/// world normal (with a packed extra channel), albedo+specular, and
/// occlusion-roughness-metallic.
pub open spec fn spec_gbuffer_format(index: int) -> AttachmentFormat {
    if index == 0 {
        AttachmentFormat::Rgb16f
    } else {
        AttachmentFormat::Rgba16f
    }
}

/// The command sequence that builds an attachment set: generate and bind the
/// framebuffer, then each colour attachment in index order, then the
/// depth/stencil store.
pub open spec fn spec_gbuffer_cmds(g: GBuffer) -> Seq<Cmd> {
    seq![
        Cmd::GenFramebuffer(g.fbo),
        Cmd::BindFramebuffer(g.fbo),
        Cmd::GenTexture(g.position),
        Cmd::AttachColorTexture {
            fbo: g.fbo,
            texture: g.position,
            index: 0,
            format: spec_gbuffer_format(0),
            width: g.size.width,
            height: g.size.height,
        },
        Cmd::GenTexture(g.normal),
        Cmd::AttachColorTexture {
            fbo: g.fbo,
            texture: g.normal,
            index: 1,
            format: spec_gbuffer_format(1),
            width: g.size.width,
            height: g.size.height,
        },
        Cmd::GenTexture(g.albedo_spec),
        Cmd::AttachColorTexture {
            fbo: g.fbo,
            texture: g.albedo_spec,
            index: 2,
            format: spec_gbuffer_format(2),
            width: g.size.width,
            height: g.size.height,
        },
        Cmd::GenTexture(g.orm),
        Cmd::AttachColorTexture {
            fbo: g.fbo,
            texture: g.orm,
            index: 3,
            format: spec_gbuffer_format(3),
            width: g.size.width,
            height: g.size.height,
        },
        Cmd::GenRenderbuffer(g.depth_stencil),
        Cmd::AttachDepthStencil {
            fbo: g.fbo,
            rbo: g.depth_stencil,
            width: g.size.width,
            height: g.size.height,
        },
    ]
}

/// The commands that tear an attachment set down.
pub open spec fn spec_gbuffer_delete_cmds(g: GBuffer) -> Seq<Cmd> {
    seq![
        Cmd::DeleteFramebuffer(g.fbo),
        Cmd::DeleteTexture(g.position),
        Cmd::DeleteTexture(g.normal),
        Cmd::DeleteTexture(g.albedo_spec),
        Cmd::DeleteTexture(g.orm),
        Cmd::DeleteRenderbuffer(g.depth_stencil),
    ]
}

/// How a fresh attachment set relates to the allocator states around its
/// creation: the set is well formed, sized as asked, made of names that were
/// not live before, and afterwards exactly those names are live in addition.
pub open spec fn created_from(
    o0: GpuObjects,
    size: SurfaceSize,
    o1: GpuObjects,
    g: GBuffer,
    cmds: Seq<Cmd>,
) -> bool {
    &&& g.wf()
    &&& g.size == size
    &&& forall|i: int| 0 <= i < 6 ==> !o0.live@.contains(#[trigger] g.ids()[i])
    &&& forall|i: int| 0 <= i < 6 ==> o0.next <= #[trigger] g.ids()[i]
    &&& o1.live@ == o0.live@ + g.ids()
    &&& cmds == spec_gbuffer_cmds(g)
}

/// How a resized attachment set relates to the states around the resize: the
/// previous generation's names are all deleted — none stays live — and the
/// replacement is a freshly created set sized `new_size`.
pub open spec fn resized_from(
    o0: GpuObjects,
    g0: GBuffer,
    new_size: SurfaceSize,
    o1: GpuObjects,
    g1: GBuffer,
    cmds: Seq<Cmd>,
) -> bool {
    &&& g1.wf()
    &&& g1.size == new_size
    &&& forall|i: int| 0 <= i < 6 ==> !o0.live@.contains(#[trigger] g1.ids()[i])
    &&& o1.live@ == remove_names(o0.live@, g0.ids()) + g1.ids()
    &&& forall|i: int| 0 <= i < 6 ==> !o1.live@.contains(#[trigger] g0.ids()[i])
    &&& cmds == spec_gbuffer_delete_cmds(g0) + spec_gbuffer_cmds(g1)
}

/// Allocates the g-buffer: one framebuffer, four colour textures sized
/// `size` with the fixed formats, and one combined depth/stencil
/// renderbuffer.  Incompleteness of the set on the device is fatal; the
/// interpreter aborts rather than report it back.
pub fn gfx_setup_gbuffer(objs: &mut GpuObjects, size: SurfaceSize) -> (r: (GBuffer, Vec<Cmd>))
    requires
        old(objs).wf(),
        old(objs).next < 0xffff_fff0,
        size.valid(),
    ensures
        final(objs).wf(),
        final(objs).next <= old(objs).next + 6,
        created_from(*old(objs), size, *final(objs), r.0, r.1@),
{
    let ghost o0 = *objs;
    let fbo = objs.gen_name();
    let position = objs.gen_name();
    let normal = objs.gen_name();
    let albedo_spec = objs.gen_name();
    let orm = objs.gen_name();
    let depth_stencil = objs.gen_name();
    let g = GBuffer { fbo, position, normal, albedo_spec, orm, depth_stencil, size };
    proof {
        assert(objs.live@ =~= o0.live@ + g.ids());
        assert forall|i: int| 0 <= i < 6 implies o0.next <= #[trigger] g.ids()[i] by {
            assert(g.ids()[i] == seq![fbo, position, normal, albedo_spec, orm, depth_stencil][i]);
        }
        assert forall|i: int| 0 <= i < 6 implies !o0.live@.contains(#[trigger] g.ids()[i]) by {
            if o0.live@.contains(g.ids()[i]) {
                let k = choose|k: int| 0 <= k < o0.live@.len() && o0.live@[k] == g.ids()[i];
                assert(0 < o0.live@[k] < o0.next);
            }
        }
        assert(g.wf());
    }
    let mut cmds: Vec<Cmd> = Vec::new();
    cmds.push(Cmd::GenFramebuffer(g.fbo));
    cmds.push(Cmd::BindFramebuffer(g.fbo));
    cmds.push(Cmd::GenTexture(g.position));
    cmds.push(Cmd::AttachColorTexture {
        fbo: g.fbo,
        texture: g.position,
        index: 0,
        format: AttachmentFormat::Rgb16f,
        width: size.width,
        height: size.height,
    });
    cmds.push(Cmd::GenTexture(g.normal));
    cmds.push(Cmd::AttachColorTexture {
        fbo: g.fbo,
        texture: g.normal,
        index: 1,
        format: AttachmentFormat::Rgba16f,
        width: size.width,
        height: size.height,
    });
    cmds.push(Cmd::GenTexture(g.albedo_spec));
    cmds.push(Cmd::AttachColorTexture {
        fbo: g.fbo,
        texture: g.albedo_spec,
        index: 2,
        format: AttachmentFormat::Rgba16f,
        width: size.width,
        height: size.height,
    });
    cmds.push(Cmd::GenTexture(g.orm));
    cmds.push(Cmd::AttachColorTexture {
        fbo: g.fbo,
        texture: g.orm,
        index: 3,
        format: AttachmentFormat::Rgba16f,
        width: size.width,
        height: size.height,
    });
    cmds.push(Cmd::GenRenderbuffer(g.depth_stencil));
    cmds.push(Cmd::AttachDepthStencil {
        fbo: g.fbo,
        rbo: g.depth_stencil,
        width: size.width,
        height: size.height,
    });
    proof {
        assert(cmds@ =~= spec_gbuffer_cmds(g));
    }
    (g, cmds)
}

/// Tears the current attachment set down and creates a replacement sized
/// `new_size`.  Runs synchronously between frames: no pass may hold the old
/// names across this call.
pub fn gfx_resize_gbuffer(objs: &mut GpuObjects, g: &mut GBuffer, new_size: SurfaceSize) -> (cmds:
    Vec<Cmd>)
    requires
        old(objs).wf(),
        old(objs).next < 0xffff_fff0,
        old(g).wf(),
        forall|i: int| 0 <= i < 6 ==> old(objs).live@.contains(#[trigger] old(g).ids()[i]),
        new_size.valid(),
    ensures
        final(objs).wf(),
        final(objs).next <= old(objs).next + 6,
        resized_from(*old(objs), *old(g), new_size, *final(objs), *final(g), cmds@),
{
    let ghost o0 = *objs;
    let ghost g0 = *g;
    let mut doomed: Vec<u32> = Vec::new();
    doomed.push(g.fbo);
    doomed.push(g.position);
    doomed.push(g.normal);
    doomed.push(g.albedo_spec);
    doomed.push(g.orm);
    doomed.push(g.depth_stencil);
    proof {
        assert(doomed@ =~= g0.ids());
    }
    let mut cmds: Vec<Cmd> = Vec::new();
    cmds.push(Cmd::DeleteFramebuffer(g.fbo));
    cmds.push(Cmd::DeleteTexture(g.position));
    cmds.push(Cmd::DeleteTexture(g.normal));
    cmds.push(Cmd::DeleteTexture(g.albedo_spec));
    cmds.push(Cmd::DeleteTexture(g.orm));
    cmds.push(Cmd::DeleteRenderbuffer(g.depth_stencil));
    proof {
        assert(cmds@ =~= spec_gbuffer_delete_cmds(g0));
    }
    objs.release(&doomed);
    let ghost o1 = *objs;
    let (fresh, create_cmds) = gfx_setup_gbuffer(objs, new_size);
    *g = fresh;
    let mut i: usize = 0;
    while i < create_cmds.len()
        invariant
            cmds@ == spec_gbuffer_delete_cmds(g0) + create_cmds@.take(i as int),
            i <= create_cmds@.len(),
        decreases create_cmds@.len() - i,
    {
        proof {
            assert(create_cmds@.take(i + 1).drop_last() =~= create_cmds@.take(i as int));
            assert(cmds@.push(create_cmds@[i as int]) =~= spec_gbuffer_delete_cmds(g0)
                + create_cmds@.take(i + 1));
        }
        cmds.push(create_cmds[i]);
        i = i + 1;
    }
    proof {
        assert(create_cmds@.take(create_cmds@.len() as int) =~= create_cmds@);
        lemma_remove_names_props(o0.live@, g0.ids());
        // Old-generation names are below the counter, new ones at or above it.
        assert forall|i: int| 0 <= i < 6 implies #[trigger] g0.ids()[i] < o0.next by {
            let idx = choose|k: int| 0 <= k < o0.live@.len() && o0.live@[k] == g0.ids()[i];
            assert(0 < o0.live@[idx] < o0.next);
        }
        assert forall|i: int| 0 <= i < 6 implies !objs.live@.contains(
            #[trigger] g0.ids()[i],
        ) by {
            let id = g0.ids()[i];
            assert forall|k: int| 0 <= k < objs.live@.len() implies objs.live@[k] != id by {
                if k < o1.live@.len() {
                    assert(o1.live@[k] == remove_names(o0.live@, g0.ids())[k]);
                    assert(!g0.ids().contains(remove_names(o0.live@, g0.ids())[k]));
                } else {
                    assert(objs.live@[k] == g.ids()[k - o1.live@.len()]);
                    assert(o1.next <= g.ids()[k - o1.live@.len()]);
                }
            }
        }
        // The fresh names were not live before the resize either.
        assert forall|i: int| 0 <= i < 6 implies !o0.live@.contains(#[trigger] g.ids()[i]) by {
            if o0.live@.contains(g.ids()[i]) {
                let idx = choose|k: int|
                    0 <= k < o0.live@.len() && o0.live@[k] == g.ids()[i];
                assert(0 < o0.live@[idx] < o0.next);
                assert(o1.next <= g.ids()[i]);
            }
        }
    }
    cmds
}

/// The shadow buffer: a framebuffer whose only attachment is a fixed-size
/// depth texture, sampled with border clamping.
#[derive(Clone, Copy, PartialEq, Eq, Structural, Debug)]
pub struct ShadowBuffer {
    pub fbo: u32,
    pub depth_texture: u32,
}

impl ShadowBuffer {
    pub open spec fn wf(self) -> bool {
        &&& self.fbo != 0
        &&& self.depth_texture != 0
        &&& self.fbo != self.depth_texture
    }
}

/// The commands that build the shadow buffer: a depth-only attachment at the
/// fixed shadow resolution, border-clamped so off-map samples read the far
/// depth.
pub open spec fn spec_shadow_buffer_cmds(s: ShadowBuffer) -> Seq<Cmd> {
    seq![
        Cmd::GenFramebuffer(s.fbo),
        Cmd::BindFramebuffer(s.fbo),
        Cmd::GenTexture(s.depth_texture),
        Cmd::AttachDepthTexture {
            fbo: s.fbo,
            texture: s.depth_texture,
            size: SHADOW_MAP_SIZE,
            border: SHADOW_BORDER_DEPTH,
        },
    ]
}

/// Allocates the depth-only shadow framebuffer at the fixed shadow-map
/// resolution, with no colour attachments.
pub fn gfx_setup_shadow_buffer(objs: &mut GpuObjects) -> (r: (ShadowBuffer, Vec<Cmd>))
    requires
        old(objs).wf(),
        old(objs).next < 0xffff_fff0,
    ensures
        final(objs).wf(),
        final(objs).next <= old(objs).next + 2,
        r.0.wf(),
        !old(objs).live@.contains(r.0.fbo),
        !old(objs).live@.contains(r.0.depth_texture),
        final(objs).live@ == old(objs).live@.push(r.0.fbo).push(r.0.depth_texture),
        r.1@ == spec_shadow_buffer_cmds(r.0),
{
    let fbo = objs.gen_name();
    let depth_texture = objs.gen_name();
    let s = ShadowBuffer { fbo, depth_texture };
    let mut cmds: Vec<Cmd> = Vec::new();
    cmds.push(Cmd::GenFramebuffer(s.fbo));
    cmds.push(Cmd::BindFramebuffer(s.fbo));
    cmds.push(Cmd::GenTexture(s.depth_texture));
    cmds.push(Cmd::AttachDepthTexture {
        fbo: s.fbo,
        texture: s.depth_texture,
        size: SHADOW_MAP_SIZE,
        border: SHADOW_BORDER_DEPTH,
    });
    proof {
        assert(cmds@ =~= spec_shadow_buffer_cmds(s));
    }
    (s, cmds)
}

/// Makes later draws target the given framebuffer; 0 targets the default
/// backbuffer.
pub fn gfx_bind_framebuffer(fbo: u32) -> (c: Cmd)
    ensures
        c == Cmd::BindFramebuffer(fbo),
{
    Cmd::BindFramebuffer(fbo)
}

/// Clears colour, depth and stencil of the bound framebuffer.
pub fn gfx_clear() -> (c: Cmd)
    ensures
        c == Cmd::Clear,
{
    Cmd::Clear
}

/// Matches the viewport to a resized output surface.
pub fn gfx_resize(size: SurfaceSize) -> (c: Cmd)
    ensures
        c == (Cmd::SetViewport { width: size.width, height: size.height }),
{
    Cmd::SetViewport { width: size.width, height: size.height }
}

/// Creating a g-buffer and immediately resizing it leaves exactly one live
/// attachment set — the new one, well formed and sized as the resize asked —
/// and leaks nothing: the live names are precisely those live before the
/// creation plus the new set's.
pub proof fn lemma_create_then_resize_leaves_one_set(
    o0: GpuObjects,
    size1: SurfaceSize,
    o1: GpuObjects,
    g1: GBuffer,
    c1: Seq<Cmd>,
    size2: SurfaceSize,
    o2: GpuObjects,
    g2: GBuffer,
    c2: Seq<Cmd>,
)
    requires
        created_from(o0, size1, o1, g1, c1),
        resized_from(o1, g1, size2, o2, g2, c2),
    ensures
        g2.wf(),
        g2.size == size2,
        forall|i: int| 0 <= i < 6 ==> o2.live@.contains(#[trigger] g2.ids()[i]),
        forall|i: int| 0 <= i < 6 ==> !o2.live@.contains(#[trigger] g1.ids()[i]),
        o2.live@ == o0.live@ + g2.ids(),
{
    assert forall|i: int| 0 <= i < o0.live@.len() implies !g1.ids().contains(
        #[trigger] o0.live@[i],
    ) by {
        if g1.ids().contains(o0.live@[i]) {
            let k = choose|k: int| 0 <= k < 6 && g1.ids()[k] == o0.live@[i];
            assert(!o0.live@.contains(g1.ids()[k]));
        }
    }
    lemma_remove_names_none(o0.live@, g1.ids());
    assert forall|i: int| 0 <= i < g1.ids().len() implies g1.ids().contains(
        #[trigger] g1.ids()[i],
    ) by {}
    lemma_remove_names_all(g1.ids(), g1.ids());
    lemma_remove_names_append(o0.live@, g1.ids(), g1.ids());
    assert(remove_names(o1.live@, g1.ids()) =~= o0.live@);
    assert(o2.live@ == o0.live@ + g2.ids());
    assert forall|i: int| 0 <= i < 6 implies o2.live@.contains(#[trigger] g2.ids()[i]) by {
        assert(o2.live@[o0.live@.len() + i] == g2.ids()[i]);
    }
}

} // verus!
