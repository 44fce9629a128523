//! Meshes: vertex-buffer layout and draw submission.
//!
//! A mesh's attributes arrive as separate position, normal and texture
//! coordinate streams and are interleaved here into the single buffer layout
//! the vertex stage reads: per vertex, three position words, three normal
//! words, two texture-coordinate words.  Uploading the buffer and the index
//! list is the interpreter's job.

use vstd::prelude::*;

use crate::cmd::Cmd;

verus! {

/// The interleaved buffer for the first `n` vertices.
pub open spec fn spec_interleave(v: Seq<u32>, nrm: Seq<u32>, tex: Seq<u32>, n: nat) -> Seq<u32>
    decreases n,
{
    if n == 0 {
        Seq::empty()
    } else {
        let i = (n - 1) as int;
        spec_interleave(v, nrm, tex, (n - 1) as nat) + seq![
            v[3 * i],
            v[3 * i + 1],
            v[3 * i + 2],
            nrm[3 * i],
            nrm[3 * i + 1],
            nrm[3 * i + 2],
            tex[2 * i],
            tex[2 * i + 1],
        ]
    }
}

/// The interleaved buffer holds eight words per vertex.
pub proof fn lemma_interleave_len(v: Seq<u32>, nrm: Seq<u32>, tex: Seq<u32>, n: nat)
    ensures
        spec_interleave(v, nrm, tex, n).len() == 8 * n,
    decreases n,
{
    if n > 0 {
        lemma_interleave_len(v, nrm, tex, (n - 1) as nat);
    }
}

/// Interleaves the attribute streams of `n = vertices.len() / 3` vertices
/// into the single stride-eight buffer the vertex stage reads.
pub fn interleave_vertex_data(vertices: &Vec<u32>, normals: &Vec<u32>, texcoords: &Vec<u32>) -> (r:
    Vec<u32>)
    requires
        normals@.len() >= vertices@.len(),
        2 * (vertices@.len() / 3) <= texcoords@.len(),
    ensures
        r@ == spec_interleave(vertices@, normals@, texcoords@, vertices@.len() / 3),
        r@.len() == 8 * (vertices@.len() / 3),
{
    let n = vertices.len() / 3;
    proof {
        vstd::arithmetic::div_mod::lemma_fundamental_div_mod(vertices@.len() as int, 3);
        assert(3 * (n as int) <= vertices@.len());
    }
    let mut data: Vec<u32> = Vec::new();
    let mut i: usize = 0;
    while i < n
        invariant
            i <= n,
            n == vertices@.len() / 3,
            vertices@.len() <= usize::MAX,
            3 * (n as int) <= vertices@.len(),
            normals@.len() >= vertices@.len(),
            2 * n <= texcoords@.len(),
            data@ == spec_interleave(vertices@, normals@, texcoords@, i as nat),
            data@.len() == 8 * i,
        decreases n - i,
    {
        proof {
            lemma_interleave_len(vertices@, normals@, texcoords@, i as nat);
            assert(3 * (i as int) + 2 < vertices@.len());
            assert(2 * (i as int) + 1 < texcoords@.len());
        }
        data.push(vertices[3 * i]);
        data.push(vertices[3 * i + 1]);
        data.push(vertices[3 * i + 2]);
        data.push(normals[3 * i]);
        data.push(normals[3 * i + 1]);
        data.push(normals[3 * i + 2]);
        data.push(texcoords[2 * i]);
        data.push(texcoords[2 * i + 1]);
        proof {
            assert(data@ =~= spec_interleave(vertices@, normals@, texcoords@, (i + 1) as nat));
        }
        i = i + 1;
    }
    proof {
        lemma_interleave_len(vertices@, normals@, texcoords@, n as nat);
    }
    data
}

/// An uploaded mesh: its buffer names, element counts, and the texture names
/// of its material channels, each bound to a fixed unit at draw time.
#[derive(Clone, Copy, PartialEq, Eq, Structural, Debug)]
pub struct Mesh {
    pub vao: u32,
    pub vbo: u32,
    pub ebo: u32,
    pub vertex_count: u32,
    pub index_count: u32,
    pub diffuse_texture: u32,
    pub normal_texture: u32,
    pub orm_texture: u32,
    pub emissive_texture: u32,
}

impl Mesh {
    /// Records an uploaded mesh; the counts are derived from the attribute
    /// and index streams as the buffer layout dictates.
    pub fn new(
        vao: u32,
        vbo: u32,
        ebo: u32,
        vertices: &Vec<u32>,
        indices: &Vec<u32>,
        diffuse_texture: u32,
        normal_texture: u32,
        orm_texture: u32,
        emissive_texture: u32,
    ) -> (m: Mesh)
        requires
            vertices@.len() / 3 <= u32::MAX,
            indices@.len() <= u32::MAX,
        ensures
            m.vao == vao,
            m.vbo == vbo,
            m.ebo == ebo,
            m.vertex_count == vertices@.len() / 3,
            m.index_count == indices@.len(),
            m.diffuse_texture == diffuse_texture,
            m.normal_texture == normal_texture,
            m.orm_texture == orm_texture,
            m.emissive_texture == emissive_texture,
    {
        Mesh {
            vao,
            vbo,
            ebo,
            vertex_count: (vertices.len() / 3) as u32,
            index_count: indices.len() as u32,
            diffuse_texture,
            normal_texture,
            orm_texture,
            emissive_texture,
        }
    }

    /// Draws the mesh: one indexed draw from its vertex array.
    pub fn render(&self) -> (c: Cmd)
        ensures
            c == (Cmd::DrawIndexed { vao: self.vao, index_count: self.index_count }),
    {
        Cmd::DrawIndexed { vao: self.vao, index_count: self.index_count }
    }
}

/// The full-screen quad's vertex table: four vertices of a triangle strip,
/// each a clip-space corner position (three words) and its texture
/// coordinate (two words), covering the whole viewport.
pub open spec fn spec_quad_vertex_data() -> Seq<i8> {
    seq![
        -1i8, 1i8, 0i8, 0i8, 1i8,
        -1i8, -1i8, 0i8, 0i8, 0i8,
        1i8, 1i8, 0i8, 1i8, 1i8,
        1i8, -1i8, 0i8, 1i8, 0i8,
    ]
}

/// The vertex table the interpreter uploads for the full-screen quad.
pub fn gfx_quad_setup() -> (data: Vec<i8>)
    ensures
        data@ == spec_quad_vertex_data(),
{
    let mut data: Vec<i8> = Vec::new();
    data.push(-1);
    data.push(1);
    data.push(0);
    data.push(0);
    data.push(1);
    data.push(-1);
    data.push(-1);
    data.push(0);
    data.push(0);
    data.push(0);
    data.push(1);
    data.push(1);
    data.push(0);
    data.push(1);
    data.push(1);
    data.push(1);
    data.push(-1);
    data.push(0);
    data.push(1);
    data.push(0);
    proof {
        assert(data@ =~= spec_quad_vertex_data());
    }
    data
}

/// Draws the full-screen quad: two triangles as a four-vertex strip.
pub fn gfx_quad_render(vao: u32) -> (c: Cmd)
    ensures
        c == (Cmd::DrawTriangleStrip { vao, vertices: 4 }),
{
    Cmd::DrawTriangleStrip { vao, vertices: 4 }
}

} // verus!
