//! The optional-value bridge of the toolkit's foreign interface.
//!
//! The foreign interface carries optional values as a tagged two-variant
//! type of its own rather than as the platform's native optional type. One
//! generic wrapper stands for all the concrete instantiations: default is
//! `Absent`, the payload can be borrowed without ownership transfer, and
//! conversion to and from the native optional type either consumes the
//! source or, for cheaply duplicable payloads, copies it.

use vstd::prelude::*;

verus! {

/// A tagged optional value as it crosses the foreign interface.
pub enum OptionalValue<T> {
    Absent,
    Present(T),
}

/// What the wrapper stands for: the native optional value it carries.
pub open spec fn spec_to_option<T>(v: OptionalValue<T>) -> Option<T> {
    match v {
        OptionalValue::Absent => None,
        OptionalValue::Present(t) => Some(t),
    }
}

/// The wrapper that carries a given native optional value.
pub open spec fn spec_from_option<T>(o: Option<T>) -> OptionalValue<T> {
    match o {
        None => OptionalValue::Absent,
        Some(t) => OptionalValue::Present(t),
    }
}

impl<T> OptionalValue<T> {
    /// Borrows the payload without transferring ownership.
    pub fn as_option(&self) -> (r: Option<&T>)
        ensures
            match r {
                None => self is Absent,
                Some(t) => self is Present && *t == self->0,
            },
    {
        match self {
            OptionalValue::Absent => None,
            OptionalValue::Present(t) => Some(t),
        }
    }

    pub fn is_some(&self) -> (r: bool)
        ensures
            r == (*self is Present),
    {
        match self {
            OptionalValue::Absent => false,
            OptionalValue::Present(_) => true,
        }
    }

    pub fn is_none(&self) -> (r: bool)
        ensures
            r == (*self is Absent),
    {
        !self.is_some()
    }

    /// Value-taking conversion to the native optional type: consumes the
    /// wrapper, so the payload moves out unchanged.
    pub fn into_option(self) -> (r: Option<T>)
        ensures
            r == spec_to_option(self),
    {
        match self {
            OptionalValue::Absent => None,
            OptionalValue::Present(t) => Some(t),
        }
    }

    /// Value-taking conversion from the native optional type.
    pub fn from_option(o: Option<T>) -> (r: Self)
        ensures
            r == spec_from_option(o),
    {
        match o {
            None => OptionalValue::Absent,
            Some(t) => OptionalValue::Present(t),
        }
    }

    /// Stores a payload in place.
    pub fn set_value(&mut self, t: T)
        ensures
            *final(self) == (OptionalValue::Present(t)),
    {
        *self = OptionalValue::Present(t);
    }

    /// Empties the wrapper in place.
    pub fn clear(&mut self)
        ensures
            *final(self) == (OptionalValue::<T>::Absent),
    {
        *self = OptionalValue::Absent;
    }
}

impl<T: Copy> OptionalValue<T> {
    /// Duplicating conversion to the native optional type, for payloads
    /// that are cheap to duplicate: the wrapper stays intact.
    pub fn to_option(&self) -> (r: Option<T>)
        ensures
            r == spec_to_option(*self),
    {
        match self {
            OptionalValue::Absent => None,
            OptionalValue::Present(t) => Some(*t),
        }
    }
}

impl<T> Default for OptionalValue<T> {
    /// An absent value, the default across the foreign interface.
    fn default() -> (r: Self)
        ensures
            r is Absent,
    {
        OptionalValue::Absent
    }
}

/// A wrapper is present or absent, never both and never neither: the two
/// predicates the foreign interface exposes are exact complements.
pub proof fn lemma_present_absent_complementary<T>(v: OptionalValue<T>)
    ensures
        (v is Present) == !(v is Absent),
{
}

/// Wrapping the native empty value yields the absent wrapper, and a round
/// trip through the wrapper hands back exactly the optional value that went
/// in — in particular `spec_from_option(Some(x))` carries `x` unchanged.
pub proof fn lemma_wrap_round_trip<T>(o: Option<T>)
    ensures
        o is None ==> spec_from_option(o) is Absent,
        spec_to_option(spec_from_option(o)) == o,
{
}

/// The opposite round trip also preserves the value: converting a wrapper
/// to the native optional type and wrapping the result again is the
/// identity.
pub proof fn lemma_unwrap_round_trip<T>(v: OptionalValue<T>)
    ensures
        spec_from_option(spec_to_option(v)) == v,
{
}

} // verus!
