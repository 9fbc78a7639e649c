use vstd::prelude::*;
use vstd::string::StringSliceAdditionalSpecFns;

use crate::error::RendererError;
use crate::state::{bind_calls, texture_calls, texture_at, GlCall, State};
use crate::values::{Color, Mat3, Mat4, Vec2, Vec3, Vec4};

verus! {

/// A linked shader program: its native handle, and a scratch buffer reused to
/// form the zero-terminated names of uniform lookups.
pub struct GpuProgram {
    id: u32,
    name_buf: Vec<u8>,
}

/// A uniform's native location, with the handle of the program it was
/// resolved in.
#[derive(Clone, Copy)]
pub struct UniformLocation {
    id: i32,
    program: u32,
}

/// A value for a uniform: exactly one variant, uploaded through the entry
/// point of its own type.
pub enum UniformValue {
    /// A texture sampled through unit `index`; `texture` is the native
    /// texture object.
    Sampler { index: usize, texture: u32 },
    Bool(bool),
    Integer(i32),
    /// A float, as its bit pattern.
    Float(u32),
    Vec2(Vec2),
    Vec3(Vec3),
    Vec4(Vec4),
    Color(Color),
    Mat4(Mat4),
    Mat3(Mat3),
    IntegerArray(Vec<i32>),
    /// Floats, as their bit patterns.
    FloatArray(Vec<u32>),
    Vec2Array(Vec<Vec2>),
    Vec3Array(Vec<Vec3>),
    Vec4Array(Vec<Vec4>),
    Mat4Array(Vec<Mat4>),
}

/// The largest count or texture unit that the context's signed 32-bit
/// parameters can carry.
pub const MAX_COUNT: usize = 0x7fff_ffff;

impl UniformValue {
    /// Whether every count and unit index in the value fits the context's
    /// signed 32-bit parameters.
    pub open spec fn fits(&self) -> bool {
        match *self {
            UniformValue::Sampler { index, .. } => index <= MAX_COUNT,
            UniformValue::IntegerArray(a) => a@.len() <= MAX_COUNT,
            UniformValue::FloatArray(a) => a@.len() <= MAX_COUNT,
            UniformValue::Vec2Array(a) => a@.len() <= MAX_COUNT,
            UniformValue::Vec3Array(a) => a@.len() <= MAX_COUNT,
            UniformValue::Vec4Array(a) => a@.len() <= MAX_COUNT,
            UniformValue::Mat4Array(a) => a@.len() <= MAX_COUNT,
            _ => true,
        }
    }

    /// Executable form of `fits`.
    pub fn is_uploadable(&self) -> (r: bool)
        ensures
            r == self.fits(),
    {
        match self {
            UniformValue::Sampler { index, .. } => *index <= MAX_COUNT,
            UniformValue::IntegerArray(a) => a.len() <= MAX_COUNT,
            UniformValue::FloatArray(a) => a.len() <= MAX_COUNT,
            UniformValue::Vec2Array(a) => a.len() <= MAX_COUNT,
            UniformValue::Vec3Array(a) => a.len() <= MAX_COUNT,
            UniformValue::Vec4Array(a) => a.len() <= MAX_COUNT,
            UniformValue::Mat4Array(a) => a.len() <= MAX_COUNT,
            _ => true,
        }
    }
}

/// Whether `c` is the one upload call for `value` at `location`: a sampler
/// uploads its unit index and a boolean 1 or 0 as one integer; every other
/// variant goes to the entry point of its own type, an array with its length
/// as the count and its elements unchanged.
pub open spec fn is_upload(c: GlCall, location: i32, value: UniformValue) -> bool {
    match value {
        UniformValue::Sampler { index, .. } => c == GlCall::Uniform1i { location, value: index as i32 },
        UniformValue::Bool(b) => c == GlCall::Uniform1i { location, value: if b { 1i32 } else { 0i32 } },
        UniformValue::Integer(v) => c == GlCall::Uniform1i { location, value: v },
        UniformValue::Float(v) => c == GlCall::Uniform1f { location, value: v },
        UniformValue::Vec2(v) => c == GlCall::Uniform2f { location, value: v },
        UniformValue::Vec3(v) => c == GlCall::Uniform3f { location, value: v },
        UniformValue::Vec4(v) => c == GlCall::Uniform4f { location, value: v },
        UniformValue::Color(v) => c == GlCall::Uniform4fColor { location, value: v },
        UniformValue::Mat4(v) => c == GlCall::UniformMatrix4f { location, value: v },
        UniformValue::Mat3(v) => c == GlCall::UniformMatrix3f { location, value: v },
        UniformValue::IntegerArray(a) => match c {
            GlCall::Uniform1iv { location: l, count, values } => l == location && count == a@.len()
                && values@ == a@,
            _ => false,
        },
        UniformValue::FloatArray(a) => match c {
            GlCall::Uniform1fv { location: l, count, values } => l == location && count == a@.len()
                && values@ == a@,
            _ => false,
        },
        UniformValue::Vec2Array(a) => match c {
            GlCall::Uniform2fv { location: l, count, values } => l == location && count == a@.len()
                && values@ == a@,
            _ => false,
        },
        UniformValue::Vec3Array(a) => match c {
            GlCall::Uniform3fv { location: l, count, values } => l == location && count == a@.len()
                && values@ == a@,
            _ => false,
        },
        UniformValue::Vec4Array(a) => match c {
            GlCall::Uniform4fv { location: l, count, values } => l == location && count == a@.len()
                && values@ == a@,
            _ => false,
        },
        UniformValue::Mat4Array(a) => match c {
            GlCall::UniformMatrix4fv { location: l, count, values } => l == location && count
                == a@.len() && values@ == a@,
            _ => false,
        },
    }
}

/// The texture-unit calls that uploading `value` issues over a unit table:
/// a sampler binds its texture to its unit, no other variant binds anything.
pub open spec fn sampler_calls(units: Seq<u32>, value: UniformValue) -> Seq<GlCall> {
    match value {
        UniformValue::Sampler { index, texture } => texture_calls(units, index, texture),
        _ => seq![],
    }
}

/// The unit table after uploading `value`.
pub open spec fn units_after(units: Seq<u32>, value: UniformValue, unit: int) -> u32 {
    match value {
        UniformValue::Sampler { index, texture } => if unit == index {
            texture
        } else {
            texture_at(units, unit)
        },
        _ => texture_at(units, unit),
    }
}

/// Whether `r` is what looking up uniform `name` in program `program` gives
/// when the context reports `reported`: `UniformNotFound(name)` for a
/// negative report, else that location, tied to `program`.
pub open spec fn resolves_to(
    program: u32,
    name: Seq<char>,
    reported: i32,
    r: Result<UniformLocation, RendererError>,
) -> bool {
    &&& reported < 0 <==> r is Err
    &&& r is Err ==> r->Err_0 is UniformNotFound && r->Err_0->UniformNotFound_0@ == name
    &&& r is Ok ==> r->Ok_0.spec_id() == reported && r->Ok_0.spec_program() == program
}

/// Looking the same name up twice in the same program, where the context
/// reports the same location both times, gives the same outcome: two
/// locations with equal ids, or two `UniformNotFound` errors.
pub proof fn lemma_repeat_lookup(
    program: u32,
    name: Seq<char>,
    reported: i32,
    a: Result<UniformLocation, RendererError>,
    b: Result<UniformLocation, RendererError>,
)
    requires
        resolves_to(program, name, reported, a),
        resolves_to(program, name, reported, b),
    ensures
        a is Ok <==> b is Ok,
        a is Ok ==> a->Ok_0.spec_id() == b->Ok_0.spec_id() && a->Ok_0.spec_program()
            == b->Ok_0.spec_program(),
{
}

/// An element-for-element copy of `v`.
fn copy_all<T: Copy>(v: &Vec<T>) -> (r: Vec<T>)
    ensures
        r@ == v@,
{
    let mut r: Vec<T> = Vec::new();
    let mut i: usize = 0;
    while i < v.len()
        invariant
            i <= v@.len(),
            r@ == v@.take(i as int),
        decreases v@.len() - i,
    {
        r.push(v[i]);
        i = i + 1;
        assert(v@.take(i as int) == v@.take(i - 1 as int).push(v@[i - 1]));
    }
    assert(v@.take(i as int) == v@);
    r
}

impl UniformLocation {
    pub closed spec fn spec_id(&self) -> i32 {
        self.id
    }

    /// The handle of the program this location was resolved in.
    pub closed spec fn spec_program(&self) -> u32 {
        self.program
    }

    /// The native location.
    pub fn id(&self) -> (r: i32)
        ensures
            r == self.spec_id(),
    {
        self.id
    }

    /// The handle of the program this location was resolved in.
    pub fn program(&self) -> (r: u32)
        ensures
            r == self.spec_program(),
    {
        self.program
    }
}

impl GpuProgram {
    pub closed spec fn spec_id(&self) -> u32 {
        self.id
    }

    /// The lookup buffer's contents.
    pub closed spec fn spec_name_buf(&self) -> Seq<u8> {
        self.name_buf@
    }

    /// Wraps a linked native program, with an empty lookup buffer.
    pub(crate) fn linked(id: u32) -> (r: GpuProgram)
        ensures
            r.spec_id() == id,
            r.spec_name_buf() == Seq::<u8>::empty(),
    {
        GpuProgram { id, name_buf: Vec::new() }
    }

    /// The native program handle.
    pub fn id(&self) -> (r: u32)
        ensures
            r == self.spec_id(),
    {
        self.id
    }

    /// Forms `name` followed by a zero byte in the lookup buffer, reusing its
    /// storage, for the context's name-to-location query.
    pub fn load_uniform_name(&mut self, name: &str)
        ensures
            final(self).spec_id() == old(self).spec_id(),
            final(self).spec_name_buf() == name.spec_bytes().push(0u8),
    {
        self.name_buf.clear();
        let bytes = name.as_bytes();
        let mut i: usize = 0;
        while i < bytes.len()
            invariant
                i <= bytes@.len(),
                self.id == old(self).id,
                self.name_buf@ == bytes@.take(i as int),
            decreases bytes@.len() - i,
        {
            self.name_buf.push(bytes[i]);
            i = i + 1;
            assert(bytes@.take(i as int) == bytes@.take(i - 1 as int).push(bytes@[i - 1]));
        }
        assert(bytes@.take(i as int) == bytes@);
        self.name_buf.push(0u8);
    }

    /// The lookup buffer, as `load_uniform_name` left it.
    pub fn uniform_name_bytes(&self) -> (r: &[u8])
        ensures
            r@ == self.spec_name_buf(),
    {
        self.name_buf.as_slice()
    }

    /// Turns the location that the context reported for uniform `name` into
    /// a location of this program: a negative report means the program has
    /// no such uniform, and gives `UniformNotFound(name)`.
    pub fn uniform_location(&self, name: &str, reported: i32) -> (r: Result<
        UniformLocation,
        RendererError,
    >)
        ensures
            resolves_to(self.spec_id(), name@, reported, r),
    {
        if reported < 0 {
            Err(RendererError::UniformNotFound(name.to_owned()))
        } else {
            Ok(UniformLocation { id: reported, program: self.id })
        }
    }

    /// Makes this program current.
    pub fn bind(&self, state: &mut State)
        ensures
            final(state).spec_program() == self.spec_id(),
            final(state).spec_units() == old(state).spec_units(),
            final(state).spec_calls() == old(state).spec_calls() + bind_calls(
                old(state).spec_program(),
                self.spec_id(),
            ),
    {
        state.set_program(self.id);
    }

    /// Uploads `value` to `location`: makes this program current, issues the
    /// one upload call of the value's type, and for a sampler then binds its
    /// texture to its unit.
    pub fn set_uniform(&self, state: &mut State, location: UniformLocation, value: &UniformValue)
        requires
            location.spec_program() == self.spec_id(),
            value.fits(),
        ensures
            ({
                let pre = old(state).spec_calls() + bind_calls(
                    old(state).spec_program(),
                    self.spec_id(),
                );
                let post = final(state).spec_calls();
                &&& post.len() == pre.len() + 1 + sampler_calls(old(state).spec_units(), *value).len()
                &&& post.take(pre.len() as int) == pre
                &&& is_upload(post[pre.len() as int], location.spec_id(), *value)
                &&& post.skip(pre.len() + 1int) == sampler_calls(old(state).spec_units(), *value)
            }),
            final(state).spec_program() == self.spec_id(),
            forall|u: int|
                0 <= u ==> #[trigger] texture_at(final(state).spec_units(), u) == units_after(
                    old(state).spec_units(),
                    *value,
                    u,
                ),
    {
        state.set_program(self.id);
        let ghost pre = state.spec_calls();
        let location = location.id;
        let call = match value {
            UniformValue::Sampler { index, .. } => GlCall::Uniform1i { location, value: *index as i32 },
            UniformValue::Bool(b) => GlCall::Uniform1i { location, value: if *b { 1i32 } else { 0i32 } },
            UniformValue::Integer(v) => GlCall::Uniform1i { location, value: *v },
            UniformValue::Float(v) => GlCall::Uniform1f { location, value: *v },
            UniformValue::Vec2(v) => GlCall::Uniform2f { location, value: *v },
            UniformValue::Vec3(v) => GlCall::Uniform3f { location, value: *v },
            UniformValue::Vec4(v) => GlCall::Uniform4f { location, value: *v },
            UniformValue::Color(v) => GlCall::Uniform4fColor { location, value: *v },
            UniformValue::Mat4(v) => GlCall::UniformMatrix4f { location, value: *v },
            UniformValue::Mat3(v) => GlCall::UniformMatrix3f { location, value: *v },
            UniformValue::IntegerArray(a) => GlCall::Uniform1iv {
                location,
                count: a.len() as i32,
                values: copy_all(a),
            },
            UniformValue::FloatArray(a) => GlCall::Uniform1fv {
                location,
                count: a.len() as i32,
                values: copy_all(a),
            },
            UniformValue::Vec2Array(a) => GlCall::Uniform2fv {
                location,
                count: a.len() as i32,
                values: copy_all(a),
            },
            UniformValue::Vec3Array(a) => GlCall::Uniform3fv {
                location,
                count: a.len() as i32,
                values: copy_all(a),
            },
            UniformValue::Vec4Array(a) => GlCall::Uniform4fv {
                location,
                count: a.len() as i32,
                values: copy_all(a),
            },
            UniformValue::Mat4Array(a) => GlCall::UniformMatrix4fv {
                location,
                count: a.len() as i32,
                values: copy_all(a),
            },
        };
        state.issue(call);
        let ghost mid = state.spec_calls();
        if let UniformValue::Sampler { index, texture } = value {
            state.set_texture(*index, *texture);
        }
        assert(state.spec_calls().take(pre.len() as int) == pre);
        assert(state.spec_calls()[pre.len() as int] == mid[pre.len() as int]);
        assert(state.spec_calls().skip(pre.len() + 1int) == sampler_calls(
            old(state).spec_units(),
            *value,
        ));
    }

    /// Deletes the native program. Taking the program by value makes a
    /// second deletion of the same handle impossible.
    pub fn destroy(self, state: &mut State)
        ensures
            final(state).spec_calls() == old(state).spec_calls().push(
                GlCall::DeleteProgram(self.spec_id()),
            ),
            final(state).spec_program() == old(state).spec_program(),
            final(state).spec_units() == old(state).spec_units(),
    {
        state.issue(GlCall::DeleteProgram(self.id));
    }
}

} // verus!
