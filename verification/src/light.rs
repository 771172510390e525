//! The light capability and the ownership wrappers that forward it.

use crate::error::LightingError;
use crate::light_id::LightId;
use crate::program::Program;
use crate::program::ProgramView;
use std::rc::Rc;
use std::sync::Arc;
use vstd::prelude::*;

verus! {

/// The outcome of asking for a shader fragment, with the text by its view.
pub open spec fn source_view(outcome: Result<String, LightingError>) -> Result<
    Seq<char>,
    LightingError,
> {
    match outcome {
        Ok(text) => Ok(text@),
        Err(e) => Err(e),
    }
}

/// A light source.
///
/// Each operation comes with a relation that says which outcomes the light
/// may give. A light that states nothing admits every outcome; a light with
/// a known fragment, binding or id says so by defining the relation.
pub trait Light {
    /// Whether `outcome` is an answer that this light may give when asked
    /// for its shader fragment in slot `i`.
    open spec fn emits(&self, i: u32, outcome: Result<Seq<char>, LightingError>) -> bool {
        true
    }

    /// The fragment shader source that computes this light's contribution to
    /// the colour of a fragment. It defines a function
    /// `vec3 calculate_lighting{i}(vec3 surface_color, vec3 position, vec3 normal, vec3 view_direction, float metallic, float roughness, float occlusion)`
    /// with the slot number `i` in place of `{i}`, which returns the colour
    /// that this light adds to a surface with the given parameters. The
    /// answer depends on the light's state and on `i` alone.
    fn shader_source(&self, i: u32) -> (outcome: Result<String, LightingError>)
        ensures
            self.emits(i, source_view(outcome)),
    ;

    /// Whether a call for slot `i` on a program in state `before` may leave
    /// it in state `after` and answer `outcome`.
    open spec fn binds(
        &self,
        i: u32,
        before: ProgramView,
        after: ProgramView,
        outcome: Result<(), LightingError>,
    ) -> bool {
        true
    }

    /// Binds the uniforms that the fragment of slot `i` reads. The program
    /// must be the one built from the source in which this light had slot
    /// `i`.
    fn use_uniforms(&self, program: &mut Program, i: u32) -> (outcome: Result<(), LightingError>)
        ensures
            self.binds(i, old(program)@, final(program)@, outcome),
    ;

    /// Whether `id` is an id that this light may report.
    open spec fn has_id(&self, id: LightId) -> bool {
        true
    }

    /// The id of the shape of the source that [`Light::shader_source`]
    /// returns. Lights defined outside the engine report an id without the
    /// reserved bit.
    fn id(&self) -> (id: LightId)
        ensures
            self.has_id(id),
    ;
}

impl<T: Light + ?Sized> Light for &T {
    open spec fn emits(&self, i: u32, outcome: Result<Seq<char>, LightingError>) -> bool {
        (**self).emits(i, outcome)
    }

    fn shader_source(&self, i: u32) -> (outcome: Result<String, LightingError>) {
        (**self).shader_source(i)
    }

    open spec fn binds(
        &self,
        i: u32,
        before: ProgramView,
        after: ProgramView,
        outcome: Result<(), LightingError>,
    ) -> bool {
        (**self).binds(i, before, after, outcome)
    }

    fn use_uniforms(&self, program: &mut Program, i: u32) -> (outcome: Result<(), LightingError>) {
        (**self).use_uniforms(program, i)
    }

    open spec fn has_id(&self, id: LightId) -> bool {
        (**self).has_id(id)
    }

    fn id(&self) -> (id: LightId) {
        (**self).id()
    }
}

impl<T: Light + ?Sized> Light for &mut T {
    open spec fn emits(&self, i: u32, outcome: Result<Seq<char>, LightingError>) -> bool {
        (**self).emits(i, outcome)
    }

    fn shader_source(&self, i: u32) -> (outcome: Result<String, LightingError>) {
        (**self).shader_source(i)
    }

    open spec fn binds(
        &self,
        i: u32,
        before: ProgramView,
        after: ProgramView,
        outcome: Result<(), LightingError>,
    ) -> bool {
        (**self).binds(i, before, after, outcome)
    }

    fn use_uniforms(&self, program: &mut Program, i: u32) -> (outcome: Result<(), LightingError>) {
        (**self).use_uniforms(program, i)
    }

    open spec fn has_id(&self, id: LightId) -> bool {
        (**self).has_id(id)
    }

    fn id(&self) -> (id: LightId) {
        (**self).id()
    }
}

impl<T: Light> Light for Box<T> {
    open spec fn emits(&self, i: u32, outcome: Result<Seq<char>, LightingError>) -> bool {
        (**self).emits(i, outcome)
    }

    fn shader_source(&self, i: u32) -> (outcome: Result<String, LightingError>) {
        (**self).shader_source(i)
    }

    open spec fn binds(
        &self,
        i: u32,
        before: ProgramView,
        after: ProgramView,
        outcome: Result<(), LightingError>,
    ) -> bool {
        (**self).binds(i, before, after, outcome)
    }

    fn use_uniforms(&self, program: &mut Program, i: u32) -> (outcome: Result<(), LightingError>) {
        (**self).use_uniforms(program, i)
    }

    open spec fn has_id(&self, id: LightId) -> bool {
        (**self).has_id(id)
    }

    fn id(&self) -> (id: LightId) {
        (**self).id()
    }
}

impl<T: Light> Light for Rc<T> {
    open spec fn emits(&self, i: u32, outcome: Result<Seq<char>, LightingError>) -> bool {
        (**self).emits(i, outcome)
    }

    fn shader_source(&self, i: u32) -> (outcome: Result<String, LightingError>) {
        (**self).shader_source(i)
    }

    open spec fn binds(
        &self,
        i: u32,
        before: ProgramView,
        after: ProgramView,
        outcome: Result<(), LightingError>,
    ) -> bool {
        (**self).binds(i, before, after, outcome)
    }

    fn use_uniforms(&self, program: &mut Program, i: u32) -> (outcome: Result<(), LightingError>) {
        (**self).use_uniforms(program, i)
    }

    open spec fn has_id(&self, id: LightId) -> bool {
        (**self).has_id(id)
    }

    fn id(&self) -> (id: LightId) {
        (**self).id()
    }
}

impl<T: Light> Light for Arc<T> {
    open spec fn emits(&self, i: u32, outcome: Result<Seq<char>, LightingError>) -> bool {
        (**self).emits(i, outcome)
    }

    fn shader_source(&self, i: u32) -> (outcome: Result<String, LightingError>) {
        (**self).shader_source(i)
    }

    open spec fn binds(
        &self,
        i: u32,
        before: ProgramView,
        after: ProgramView,
        outcome: Result<(), LightingError>,
    ) -> bool {
        (**self).binds(i, before, after, outcome)
    }

    fn use_uniforms(&self, program: &mut Program, i: u32) -> (outcome: Result<(), LightingError>) {
        (**self).use_uniforms(program, i)
    }

    open spec fn has_id(&self, id: LightId) -> bool {
        (**self).has_id(id)
    }

    fn id(&self) -> (id: LightId) {
        (**self).id()
    }
}

} // verus!

verus! {

/// A shared reference to a light admits the outcomes of the light itself, for
/// each of the three operations.
pub proof fn shared_reference_is_transparent<T: Light + ?Sized>(
    light: &T,
    i: u32,
    answer: Result<Seq<char>, LightingError>,
    before: ProgramView,
    after: ProgramView,
    outcome: Result<(), LightingError>,
    id: LightId,
)
    ensures
        <&T as Light>::emits(&light, i, answer) == <T as Light>::emits(light, i, answer),
        <&T as Light>::binds(&light, i, before, after, outcome) == <T as Light>::binds(
            light,
            i,
            before,
            after,
            outcome,
        ),
        <&T as Light>::has_id(&light, id) == <T as Light>::has_id(light, id),
{
}

/// A boxed light admits the outcomes of the light itself, for each of the
/// three operations.
pub proof fn box_is_transparent<T: Light>(
    light: Box<T>,
    i: u32,
    answer: Result<Seq<char>, LightingError>,
    before: ProgramView,
    after: ProgramView,
    outcome: Result<(), LightingError>,
    id: LightId,
)
    ensures
        <Box<T> as Light>::emits(&light, i, answer) == <T as Light>::emits(&*light, i, answer),
        <Box<T> as Light>::binds(&light, i, before, after, outcome) == <T as Light>::binds(
            &*light,
            i,
            before,
            after,
            outcome,
        ),
        <Box<T> as Light>::has_id(&light, id) == <T as Light>::has_id(&*light, id),
{
}

/// A reference-counted light admits the outcomes of the light itself, for
/// each of the three operations.
pub proof fn rc_is_transparent<T: Light>(
    light: Rc<T>,
    i: u32,
    answer: Result<Seq<char>, LightingError>,
    before: ProgramView,
    after: ProgramView,
    outcome: Result<(), LightingError>,
    id: LightId,
)
    ensures
        <Rc<T> as Light>::emits(&light, i, answer) == <T as Light>::emits(&*light, i, answer),
        <Rc<T> as Light>::binds(&light, i, before, after, outcome) == <T as Light>::binds(
            &*light,
            i,
            before,
            after,
            outcome,
        ),
        <Rc<T> as Light>::has_id(&light, id) == <T as Light>::has_id(&*light, id),
{
}

/// An atomically reference-counted light admits the outcomes of the light
/// itself, for each of the three operations.
pub proof fn arc_is_transparent<T: Light>(
    light: Arc<T>,
    i: u32,
    answer: Result<Seq<char>, LightingError>,
    before: ProgramView,
    after: ProgramView,
    outcome: Result<(), LightingError>,
    id: LightId,
)
    ensures
        <Arc<T> as Light>::emits(&light, i, answer) == <T as Light>::emits(&*light, i, answer),
        <Arc<T> as Light>::binds(&light, i, before, after, outcome) == <T as Light>::binds(
            &*light,
            i,
            before,
            after,
            outcome,
        ),
        <Arc<T> as Light>::has_id(&light, id) == <T as Light>::has_id(&*light, id),
{
}

/// Wrappers stay transparent when they are stacked: a light behind two
/// layers, here a shared pointer to a box, admits the outcomes of the light
/// itself, for each of the three operations.
pub proof fn two_layers_are_transparent<T: Light>(
    light: Arc<Box<T>>,
    i: u32,
    answer: Result<Seq<char>, LightingError>,
    before: ProgramView,
    after: ProgramView,
    outcome: Result<(), LightingError>,
    id: LightId,
)
    ensures
        <Arc<Box<T>> as Light>::emits(&light, i, answer) == <T as Light>::emits(
            &**light,
            i,
            answer,
        ),
        <Arc<Box<T>> as Light>::binds(&light, i, before, after, outcome) == <T as Light>::binds(
            &**light,
            i,
            before,
            after,
            outcome,
        ),
        <Arc<Box<T>> as Light>::has_id(&light, id) == <T as Light>::has_id(&**light, id),
{
}

} // verus!
