//! What holds between the combinators of a pair.

use crate::empty::{ExactLen, StrView};
use crate::pair::Fallback;
use vstd::prelude::*;
use vstd::std_specs::convert::FromSpec;

verus! {

/// Taking a pair apart and making a pair of the two slots again gives the
/// pair back.
pub proof fn lemma_unzip_then_new<T>(pair: Fallback<T>)
    ensures
        Fallback::new(pair@.0, pair@.1) == pair,
{
    Fallback::lemma_spec_new_slots(pair@.0, pair@.1);
    pair.lemma_equal_by_slots(Fallback::new(pair@.0, pair@.1));
}

/// Converting a pair to an `Option` resolves it as `fallback` does.
pub proof fn lemma_conversion_is_fallback<T>(pair: Fallback<T>)
    ensures
        <Option<T> as FromSpec<Fallback<T>>>::obeys_from_spec(),
        <Option<T> as FromSpec<Fallback<T>>>::from_spec(pair) == pair.fallback(),
{
}

/// `fallback` is `and_then` with a function that keeps every value: whatever
/// `and_then` gives for such a function is what `fallback` gives.
pub proof fn lemma_and_then_keeping_all_is_fallback<T, F: FnOnce(T) -> Option<T>>(
    pair: Fallback<T>,
    f: F,
    out: Option<T>,
)
    requires
        forall|value: T, kept: Option<T>|
            call_ensures(f, (value,), kept) ==> kept == Some(value),
        pair.and_then_gives(f, out),
    ensures
        out == pair.fallback(),
{
}

/// With an empty container in the primary slot and one with items in the
/// secondary slot, `and_any` gives the secondary container.
pub proof fn lemma_and_any_skips_empty_primary<T: ExactLen>(pair: Fallback<T>)
    requires
        pair.primary() is Some,
        pair.primary()->0.spec_exact_len() == 0,
        pair.secondary() is Some,
        pair.secondary()->0.spec_exact_len() > 0,
    ensures
        pair.spec_and_any() == pair.secondary(),
{
}

/// With an empty container in both slots, `and_any` gives nothing.
pub proof fn lemma_and_any_of_two_empty<T: ExactLen>(pair: Fallback<T>)
    requires
        pair.primary() is Some,
        pair.primary()->0.spec_exact_len() == 0,
        pair.secondary() is Some,
        pair.secondary()->0.spec_exact_len() == 0,
    ensures
        pair.spec_and_any() is None,
{
}

/// With an empty string in the primary slot and one with characters in the
/// secondary slot, `and_any_str` gives the secondary string.
pub proof fn lemma_and_any_str_skips_empty_primary<T: StrView>(pair: Fallback<T>)
    requires
        pair.primary() is Some,
        pair.primary()->0.spec_str_view().len() == 0,
        pair.secondary() is Some,
        pair.secondary()->0.spec_str_view().len() > 0,
    ensures
        pair.spec_and_any_str() == pair.secondary(),
{
}

} // verus!
