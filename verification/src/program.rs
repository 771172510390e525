//! The uniform interface of a compiled shader program.

use crate::light_id::LightId;
use vstd::prelude::*;

verus! {

/// One uniform write: the name of the uniform in the shader source and the
/// 32-bit words of its value, in the order in which the program receives them.
#[derive(Debug, PartialEq, Eq)]
pub struct Uniform {
    pub name: String,
    pub data: Vec<u32>,
}

/// What a [`Uniform`] holds.
pub ghost struct UniformView {
    pub name: Seq<char>,
    pub data: Seq<u32>,
}

impl View for Uniform {
    type V = UniformView;

    open spec fn view(&self) -> UniformView {
        UniformView { name: self.name@, data: self.data@ }
    }
}

/// What a [`Program`] holds: the ids of the lights that its source was
/// composed from, by slot, and the uniform writes made so far, oldest first.
pub ghost struct ProgramView {
    pub light_ids: Seq<LightId>,
    pub uniforms: Seq<UniformView>,
}

/// A shader program as the lights see it: uniforms are set by name, and the
/// program remembers which light shape each slot of its source was composed
/// for. The writes are kept in order until they are handed on to the device.
#[derive(Debug, PartialEq, Eq)]
pub struct Program {
    light_ids: Vec<LightId>,
    uniforms: Vec<Uniform>,
}

impl View for Program {
    type V = ProgramView;

    closed spec fn view(&self) -> ProgramView {
        ProgramView {
            light_ids: self.light_ids@,
            uniforms: self.uniforms@.map_values(|u: Uniform| u@),
        }
    }
}

impl Program {
    /// A program whose source was composed from lights with these ids, in
    /// this order, and to which nothing has been bound yet.
    pub fn new(light_ids: Vec<LightId>) -> (program: Program)
        ensures
            program@.light_ids == light_ids@,
            program@.uniforms == Seq::<UniformView>::empty(),
    {
        let program = Program { light_ids, uniforms: Vec::new() };
        assert(program@.uniforms =~= Seq::<UniformView>::empty());
        program
    }

    /// The number of light slots in the program's source.
    pub fn light_count(&self) -> (n: usize)
        ensures
            n == self@.light_ids.len(),
    {
        self.light_ids.len()
    }

    /// The id of the light that slot `slot` was composed for; `None` where
    /// the source has no such slot.
    pub fn light_id(&self, slot: usize) -> (id: Option<LightId>)
        ensures
            id == (if slot < self@.light_ids.len() {
                Some(self@.light_ids[slot as int])
            } else {
                None
            }),
    {
        if slot < self.light_ids.len() {
            Some(self.light_ids[slot])
        } else {
            None
        }
    }

    /// Sets the uniform `name` to `data`. The write is added behind the
    /// earlier ones; the light slots stay as they are.
    pub fn use_uniform(&mut self, name: &str, data: Vec<u32>)
        ensures
            final(self)@.light_ids == old(self)@.light_ids,
            final(self)@.uniforms == old(self)@.uniforms.push(
                UniformView { name: name@, data: data@ },
            ),
    {
        let uniform = Uniform { name: String::from_str(name), data };
        self.uniforms.push(uniform);
        assert(self@.uniforms =~= old(self)@.uniforms.push(uniform@));
    }

    /// The number of uniform writes that wait to be handed on.
    pub fn uniform_count(&self) -> (n: usize)
        ensures
            n == self@.uniforms.len(),
    {
        self.uniforms.len()
    }

    /// The `k`-th uniform write, oldest first; `None` where there are `k`
    /// writes or fewer.
    pub fn uniform(&self, k: usize) -> (uniform: Option<&Uniform>)
        ensures
            k < self@.uniforms.len() <==> uniform is Some,
            uniform matches Some(u) ==> u@ == self@.uniforms[k as int],
    {
        if k < self.uniforms.len() {
            Some(&self.uniforms[k])
        } else {
            None
        }
    }

    /// Hands out the uniform writes, oldest first, and leaves none behind.
    pub fn take_uniforms(&mut self) -> (taken: Vec<Uniform>)
        ensures
            taken@.map_values(|u: Uniform| u@) == old(self)@.uniforms,
            final(self)@.uniforms == Seq::<UniformView>::empty(),
            final(self)@.light_ids == old(self)@.light_ids,
    {
        let mut taken: Vec<Uniform> = Vec::new();
        std::mem::swap(&mut self.uniforms, &mut taken);
        assert(self@.uniforms =~= Seq::<UniformView>::empty());
        taken
    }
}

} // verus!
