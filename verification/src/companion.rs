//! Record types whose fields fall back one by one.

use crate::pair::Fallback;
use vstd::prelude::*;
use vstd::std_specs::convert::FromSpec;

verus! {

/// A record type with a companion type that holds, for every field of the
/// record, the pair of that field's primary and secondary value.
///
/// For a record
/// ```text
/// struct Foo {
///     data1: i32,
///     data2: String,
/// }
/// ```
/// the companion is
/// ```text
/// struct FallbackFoo {
///     data1: Fallback<i32>,
///     data2: Fallback<String>,
/// }
/// ```
/// and it is made from a `Fallback<Foo>` field by field: a record that is
/// present gives each field's value, a record that is absent gives `None`
/// for every field.
pub trait FallbackSpec: Sized {
    /// The specialized fallback type.
    type SpecType: From<Fallback<Self>>;
}

impl<T: FallbackSpec> Fallback<T> {
    /// Gets the specialized fallback object: the companion that the record
    /// type's conversion makes of this pair.
    pub fn spec(self) -> (companion: T::SpecType)
        ensures
            T::SpecType::obeys_from_spec() ==> companion == T::SpecType::from_spec(self),
    {
        T::SpecType::from(self)
    }
}

} // verus!
