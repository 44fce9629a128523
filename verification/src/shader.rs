//! Shader programs and their uniform-location cache.
//!
//! Uniform locations are resolved once, from the driver's scan of the linked
//! program, and reused for the shader's lifetime.  Submitting to a name that
//! was never scanned yields location -1, which the graphics API defines as a
//! silent no-op — an optimised-out uniform is tolerated, not an error.

use vstd::prelude::*;

use crate::cmd::Cmd;
use crate::cmd::UniformValue;
use crate::payload::Mat4Bits;
use crate::payload::Vec3Bits;
use crate::payload::Vec4Bits;

verus! {

/// One scanned uniform: its name and the location the driver reported.
pub struct UniformEntry {
    pub name: String,
    pub location: i32,
}

/// The location cached for `name`, or -1 when the name was never scanned.
pub open spec fn spec_lookup(entries: Seq<UniformEntry>, name: Seq<char>) -> i32
    decreases entries.len(),
{
    if entries.len() == 0 {
        (-1) as i32
    } else if entries[0].name@ == name {
        entries[0].location
    } else {
        spec_lookup(entries.skip(1), name)
    }
}

/// Whether some entry carries `name`.
pub open spec fn spec_contains_name(entries: Seq<UniformEntry>, name: Seq<char>) -> bool {
    exists|i: int| 0 <= i < entries.len() && entries[i].name@ == name
}

/// The cache after scanning `scanned` in order: a name already cached keeps
/// its first location, a new name is appended.
pub open spec fn spec_scan(entries: Seq<UniformEntry>, scanned: Seq<(String, i32)>) -> Seq<
    UniformEntry,
>
    decreases scanned.len(),
{
    if scanned.len() == 0 {
        entries
    } else {
        let next = if spec_contains_name(entries, scanned[0].0@) {
            entries
        } else {
            entries.push(UniformEntry { name: scanned[0].0, location: scanned[0].1 })
        };
        spec_scan(next, scanned.skip(1))
    }
}

/// A compiled and linked shader program with its uniform cache.
pub struct Shader {
    pub program: u32,
    pub vertex: u32,
    pub fragment: u32,
    pub uniforms: Vec<UniformEntry>,
}

impl Shader {
    /// Wraps a linked program and caches its active uniforms from the
    /// driver's scan, first occurrence of each name winning.
    pub fn new(program: u32, vertex: u32, fragment: u32, scanned: Vec<(String, i32)>) -> (s:
        Shader)
        ensures
            s.program == program,
            s.vertex == vertex,
            s.fragment == fragment,
            s.uniforms@ == spec_scan(Seq::<UniformEntry>::empty(), scanned@),
    {
        let mut s = Shader { program, vertex, fragment, uniforms: Vec::new() };
        s.scan_uniforms(scanned);
        s
    }

    /// Folds a driver scan into the cache: each reported name that is not
    /// cached yet is appended with its location; a repeated name is ignored.
    pub fn scan_uniforms(&mut self, scanned: Vec<(String, i32)>)
        ensures
            final(self).program == old(self).program,
            final(self).vertex == old(self).vertex,
            final(self).fragment == old(self).fragment,
            final(self).uniforms@ == spec_scan(old(self).uniforms@, scanned@),
    {
        let ghost all = scanned@;
        proof {
            assert(all.skip(0) =~= all);
        }
        let mut i: usize = 0;
        while i < scanned.len()
            invariant
                i <= all.len(),
                scanned@ == all,
                self.program == old(self).program,
                self.vertex == old(self).vertex,
                self.fragment == old(self).fragment,
                spec_scan(self.uniforms@, all.skip(i as int)) == spec_scan(
                    old(self).uniforms@,
                    all,
                ),
            decreases all.len() - i,
        {
            let ghost pre = self.uniforms@;
            let key: String = scanned[i].0.clone();
            let loc = scanned[i].1;
            let mut found = false;
            let mut j: usize = 0;
            while j < self.uniforms.len()
                invariant
                    j <= self.uniforms@.len(),
                    key == all[i as int].0,
                    0 <= i < all.len(),
                    self.uniforms@ == pre,
                    found <==> exists|k: int| 0 <= k < j && pre[k].name@ == key@,
                decreases self.uniforms@.len() - j,
            {
                if self.uniforms[j].name.eq(&key) {
                    found = true;
                }
                j = j + 1;
            }
            proof {
                assert(found <==> spec_contains_name(pre, all[i as int].0@));
            }
            if !found {
                self.uniforms.push(UniformEntry { name: key, location: loc });
            }
            proof {
                let rest = all.skip(i as int);
                assert(rest[0] == all[i as int]);
                assert(rest.skip(1) =~= all.skip(i + 1));
                if found {
                    assert(spec_scan(pre, rest) == spec_scan(pre, all.skip(i + 1)));
                } else {
                    assert(self.uniforms@ == pre.push(
                        UniformEntry { name: all[i as int].0, location: all[i as int].1 },
                    ));
                    assert(spec_scan(pre, rest) == spec_scan(self.uniforms@, all.skip(i + 1)));
                }
            }
            i = i + 1;
        }
        proof {
            assert(all.skip(all.len() as int) =~= Seq::<(String, i32)>::empty());
        }
    }

    /// The cached location of `name`, or -1 when the shader was never
    /// scanned for it.
    pub fn get_location(&self, name: &str) -> (loc: i32)
        ensures
            loc == spec_lookup(self.uniforms@, name@),
    {
        let key: String = name.to_owned();
        proof {
            assert(self.uniforms@.skip(0) =~= self.uniforms@);
        }
        let mut j: usize = 0;
        while j < self.uniforms.len()
            invariant
                j <= self.uniforms@.len(),
                key@ == name@,
                spec_lookup(self.uniforms@.skip(j as int), name@) == spec_lookup(
                    self.uniforms@,
                    name@,
                ),
            decreases self.uniforms@.len() - j,
        {
            proof {
                let rest = self.uniforms@.skip(j as int);
                assert(rest[0] == self.uniforms@[j as int]);
                assert(rest.skip(1) =~= self.uniforms@.skip(j + 1));
            }
            if self.uniforms[j].name.eq(&key) {
                return self.uniforms[j].location;
            }
            j = j + 1;
        }
        proof {
            assert(self.uniforms@.skip(self.uniforms@.len() as int) =~= Seq::<
                UniformEntry,
            >::empty());
        }
        (-1) as i32
    }

    /// Submits an arbitrary uniform value; unscanned names are no-ops.
    pub fn set_value(&self, name: &str, value: UniformValue) -> (c: Cmd)
        ensures
            c == (Cmd::SetUniform {
                program: self.program,
                location: spec_lookup(self.uniforms@, name@),
                value,
            }),
    {
        let location = self.get_location(name);
        Cmd::SetUniform { program: self.program, location, value }
    }

    /// Makes later draws use this program.
    pub fn bind(&self) -> (c: Cmd)
        ensures
            c == Cmd::UseProgram(self.program),
    {
        Cmd::UseProgram(self.program)
    }

    /// Submits a 4x4 matrix to the named uniform; location -1 — a name that
    /// was never scanned — makes the submission a silent no-op.
    pub fn set_mat4(&self, name: &str, val: &Mat4Bits) -> (c: Cmd)
        ensures
            c == (Cmd::SetUniform {
                program: self.program,
                location: spec_lookup(self.uniforms@, name@),
                value: UniformValue::Mat4(*val),
            }),
    {
        let location = self.get_location(name);
        Cmd::SetUniform { program: self.program, location, value: UniformValue::Mat4(*val) }
    }

    /// Submits a three-component vector; unscanned names are no-ops.
    pub fn set_vec3(&self, name: &str, val: &Vec3Bits) -> (c: Cmd)
        ensures
            c == (Cmd::SetUniform {
                program: self.program,
                location: spec_lookup(self.uniforms@, name@),
                value: UniformValue::Vec3(*val),
            }),
    {
        let location = self.get_location(name);
        Cmd::SetUniform { program: self.program, location, value: UniformValue::Vec3(*val) }
    }

    /// Submits a four-component vector; unscanned names are no-ops.
    pub fn set_vec4(&self, name: &str, val: &Vec4Bits) -> (c: Cmd)
        ensures
            c == (Cmd::SetUniform {
                program: self.program,
                location: spec_lookup(self.uniforms@, name@),
                value: UniformValue::Vec4(*val),
            }),
    {
        let location = self.get_location(name);
        Cmd::SetUniform { program: self.program, location, value: UniformValue::Vec4(*val) }
    }

    /// Submits a float, given as its bit pattern; unscanned names are no-ops.
    pub fn set_f32(&self, name: &str, val: u32) -> (c: Cmd)
        ensures
            c == (Cmd::SetUniform {
                program: self.program,
                location: spec_lookup(self.uniforms@, name@),
                value: UniformValue::F32(val),
            }),
    {
        let location = self.get_location(name);
        Cmd::SetUniform { program: self.program, location, value: UniformValue::F32(val) }
    }

    /// Submits a signed integer; unscanned names are no-ops.
    pub fn set_i32(&self, name: &str, val: i32) -> (c: Cmd)
        ensures
            c == (Cmd::SetUniform {
                program: self.program,
                location: spec_lookup(self.uniforms@, name@),
                value: UniformValue::I32(val),
            }),
    {
        let location = self.get_location(name);
        Cmd::SetUniform { program: self.program, location, value: UniformValue::I32(val) }
    }

    /// Submits an unsigned integer; unscanned names are no-ops.
    pub fn set_u32(&self, name: &str, val: u32) -> (c: Cmd)
        ensures
            c == (Cmd::SetUniform {
                program: self.program,
                location: spec_lookup(self.uniforms@, name@),
                value: UniformValue::U32(val),
            }),
    {
        let location = self.get_location(name);
        Cmd::SetUniform { program: self.program, location, value: UniformValue::U32(val) }
    }
}

} // verus!
