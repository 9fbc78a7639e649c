use vstd::prelude::*;

use crate::values::{Color, Mat3, Mat4, Vec2, Vec3, Vec4};

verus! {

/// A request to the native graphics context, queued in order of issue.
#[allow(inconsistent_fields)]
pub enum GlCall {
    /// Make this program current.
    UseProgram(u32),
    /// Bind texture object `texture` to texture unit `unit`.
    BindTexture { unit: usize, texture: u32 },
    /// Delete a shader stage object.
    DeleteShader(u32),
    /// Delete a program object.
    DeleteProgram(u32),
    /// One integer.
    Uniform1i { location: i32, value: i32 },
    /// One float.
    Uniform1f { location: i32, value: u32 },
    /// Two floats.
    Uniform2f { location: i32, value: Vec2 },
    /// Three floats.
    Uniform3f { location: i32, value: Vec3 },
    /// Four floats.
    Uniform4f { location: i32, value: Vec4 },
    /// Four floats, the color's channels divided by 255.
    Uniform4fColor { location: i32, value: Color },
    /// One 3x3 matrix, no transpose.
    UniformMatrix3f { location: i32, value: Mat3 },
    /// One 4x4 matrix, no transpose.
    UniformMatrix4f { location: i32, value: Mat4 },
    /// `count` integers.
    Uniform1iv { location: i32, count: i32, values: Vec<i32> },
    /// `count` floats.
    Uniform1fv { location: i32, count: i32, values: Vec<u32> },
    /// `count` two-component vectors.
    Uniform2fv { location: i32, count: i32, values: Vec<Vec2> },
    /// `count` three-component vectors.
    Uniform3fv { location: i32, count: i32, values: Vec<Vec3> },
    /// `count` four-component vectors.
    Uniform4fv { location: i32, count: i32, values: Vec<Vec4> },
    /// `count` 4x4 matrices, no transpose.
    UniformMatrix4fv { location: i32, count: i32, values: Vec<Mat4> },
}

/// The context's binding state on the rendering thread: the current program,
/// the texture bound to each unit (0 for none), and the native calls issued
/// and not yet carried out.
pub struct State {
    program: u32,
    units: Vec<u32>,
    calls: Vec<GlCall>,
}

/// The texture bound to `unit` in a unit table, 0 where none was bound.
pub open spec fn texture_at(units: Seq<u32>, unit: int) -> u32 {
    if 0 <= unit < units.len() {
        units[unit]
    } else {
        0
    }
}

/// The calls that making `program` current issues when `current` is current.
pub open spec fn bind_calls(current: u32, program: u32) -> Seq<GlCall> {
    if current == program {
        seq![]
    } else {
        seq![GlCall::UseProgram(program)]
    }
}

/// The calls that binding `texture` to `unit` issues over a unit table.
pub open spec fn texture_calls(units: Seq<u32>, unit: usize, texture: u32) -> Seq<GlCall> {
    if texture_at(units, unit as int) == texture {
        seq![]
    } else {
        seq![GlCall::BindTexture { unit, texture }]
    }
}

impl State {
    /// The program currently in use (0 for none).
    pub closed spec fn spec_program(&self) -> u32 {
        self.program
    }

    /// The texture bound to each unit.
    pub closed spec fn spec_units(&self) -> Seq<u32> {
        self.units@
    }

    /// The native calls queued and not yet carried out.
    pub closed spec fn spec_calls(&self) -> Seq<GlCall> {
        self.calls@
    }

    /// A fresh context: no program, no texture, nothing queued.
    pub fn new() -> (r: State)
        ensures
            r.spec_program() == 0,
            r.spec_units() == Seq::<u32>::empty(),
            r.spec_calls() == Seq::<GlCall>::empty(),
    {
        State { program: 0, units: Vec::new(), calls: Vec::new() }
    }

    /// The program currently in use.
    pub fn program(&self) -> (r: u32)
        ensures
            r == self.spec_program(),
    {
        self.program
    }

    /// The texture bound to `unit`, 0 where none was.
    pub fn texture(&self, unit: usize) -> (r: u32)
        ensures
            r == texture_at(self.spec_units(), unit as int),
    {
        if unit < self.units.len() {
            self.units[unit]
        } else {
            0
        }
    }

    /// Makes `program` current, issuing `UseProgram` only where it was not.
    pub fn set_program(&mut self, program: u32)
        ensures
            final(self).spec_program() == program,
            final(self).spec_units() == old(self).spec_units(),
            final(self).spec_calls() == old(self).spec_calls() + bind_calls(
                old(self).spec_program(),
                program,
            ),
    {
        if self.program != program {
            self.program = program;
            self.calls.push(GlCall::UseProgram(program));
        }
    }

    /// Binds `texture` to `unit`, issuing `BindTexture` only where another
    /// texture was bound there.
    pub fn set_texture(&mut self, unit: usize, texture: u32)
        ensures
            final(self).spec_program() == old(self).spec_program(),
            forall|u: int|
                0 <= u ==> #[trigger] texture_at(final(self).spec_units(), u) == if u == unit {
                    texture
                } else {
                    texture_at(old(self).spec_units(), u)
                },
            final(self).spec_calls() == old(self).spec_calls() + texture_calls(
                old(self).spec_units(),
                unit,
                texture,
            ),
    {
        if self.texture(unit) != texture {
            while self.units.len() <= unit
                invariant
                    self.program == old(self).program,
                    self.calls == old(self).calls,
                    forall|u: int| 0 <= u ==> #[trigger] texture_at(self.units@, u) == texture_at(old(self).units@, u),
                decreases unit + 1 - self.units.len(),
            {
                let ghost prev = self.units@;
                self.units.push(0);
                assert forall|u: int| 0 <= u implies #[trigger] texture_at(self.units@, u) == texture_at(prev, u) by {
                    if u < prev.len() {
                        assert(self.units@[u] == prev[u]);
                    }
                }
            }
            let ghost prev = self.units@;
            self.units.set(unit, texture);
            assert forall|u: int| 0 <= u implies #[trigger] texture_at(self.units@, u) == if u == unit {
                texture
            } else {
                texture_at(old(self).units@, u)
            } by {
                if u < prev.len() {
                    assert(self.units@[u] == prev.update(unit as int, texture)[u]);
                }
                assert(texture_at(prev, u) == texture_at(old(self).units@, u));
            }
            self.calls.push(GlCall::BindTexture { unit, texture });
        }
    }

    /// Queues a native call.
    pub fn issue(&mut self, call: GlCall)
        ensures
            final(self).spec_program() == old(self).spec_program(),
            final(self).spec_units() == old(self).spec_units(),
            final(self).spec_calls() == old(self).spec_calls().push(call),
    {
        self.calls.push(call);
    }

    /// Hands over the queued calls, oldest first, and empties the queue.
    pub fn take_calls(&mut self) -> (r: Vec<GlCall>)
        ensures
            r@ == old(self).spec_calls(),
            final(self).spec_program() == old(self).spec_program(),
            final(self).spec_units() == old(self).spec_units(),
            final(self).spec_calls() == Seq::<GlCall>::empty(),
    {
        let mut r: Vec<GlCall> = Vec::new();
        std::mem::swap(&mut r, &mut self.calls);
        r
    }
}

} // verus!
