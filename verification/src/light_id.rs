//! Identifiers of shader-source shapes.

use vstd::prelude::*;

verus! {

/// The bit of a [`LightId`] that marks the lights the engine itself provides.
pub const RESERVED_BIT: u8 = 0x80;

/// Identifies the shape of the shader source that a light produces.
///
/// Two lights whose fragments differ only in the slot number share an id; two
/// lights with structurally different fragments have different ids. Ids are
/// the key under which composed sources and their programs are cached.
#[derive(Clone, Copy, Debug, PartialEq, Eq, Hash, Structural)]
pub struct LightId(pub u8);

impl LightId {
    /// Whether the id lies in the range kept for the engine's own lights.
    pub open spec fn is_reserved(self) -> bool {
        self.0 & RESERVED_BIT != 0
    }

    /// Whether the id lies in the range kept for the engine's own lights,
    /// which is the upper half of the id space.
    pub fn reserved(&self) -> (r: bool)
        ensures
            r == self.is_reserved(),
            r == (self.0 >= RESERVED_BIT),
    {
        let raw: u8 = self.0;
        assert((raw & 0x80 != 0) == (raw >= 0x80)) by (bit_vector);
        raw >= RESERVED_BIT
    }

    /// The id `n` of a light defined outside the engine; `None` where `n`
    /// reaches into the reserved range.
    pub fn user(n: u8) -> (id: Option<LightId>)
        ensures
            id == (if n < RESERVED_BIT {
                Some(LightId(n))
            } else {
                None
            }),
            id matches Some(l) ==> !l.is_reserved(),
    {
        assert((n & 0x80 != 0) == (n >= 0x80)) by (bit_vector);
        if n < RESERVED_BIT {
            Some(LightId(n))
        } else {
            None
        }
    }

    /// The id of the engine's own light number `n`, which is `n` with the
    /// reserved bit set.
    pub fn internal(n: u8) -> (id: LightId)
        ensures
            id == LightId(n | RESERVED_BIT),
            id.is_reserved(),
            n < RESERVED_BIT ==> id.0 == n + RESERVED_BIT,
    {
        assert((n | 0x80) & 0x80 != 0) by (bit_vector);
        assert(n < 0x80 ==> (n | 0x80) - 0x80 == n) by (bit_vector);
        assert((n | 0x80) >= 0x80) by (bit_vector);
        LightId(n | RESERVED_BIT)
    }
}

/// An id handed out by [`LightId::user`] never equals one handed out by
/// [`LightId::internal`].
pub proof fn user_and_internal_ids_differ(user: u8, internal: u8)
    requires
        user < RESERVED_BIT,
    ensures
        LightId(user) != LightId(internal | RESERVED_BIT),
        !LightId(user).is_reserved(),
        LightId(internal | RESERVED_BIT).is_reserved(),
{
    assert(user < 0x80 ==> user != (internal | 0x80) && (user & 0x80 == 0) && ((internal | 0x80)
        & 0x80 != 0)) by (bit_vector);
}

/// Distinct engine light numbers below the reserved bit get distinct ids.
pub proof fn internal_ids_are_distinct(a: u8, b: u8)
    requires
        a < RESERVED_BIT,
        b < RESERVED_BIT,
        a != b,
    ensures
        LightId(a | RESERVED_BIT) != LightId(b | RESERVED_BIT),
{
    assert(a < 0x80 && b < 0x80 && a != b ==> (a | 0x80) != (b | 0x80)) by (bit_vector);
}

} // verus!
