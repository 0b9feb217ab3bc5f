//! The pair itself and the combinators that inspect, transform and resolve it.

use vstd::prelude::*;
use vstd::std_specs::convert::FromSpecImpl;

verus! {

/// Stores two [`Option`]s, the primary value and the one to fall back on.
///
/// The pair is never changed in place: every combinator either borrows it or
/// consumes it and hands back a new pair or a plain [`Option`].
pub struct Fallback<T> {
    data: Option<T>,
    base_data: Option<T>,
}

impl<T> View for Fallback<T> {
    type V = (Option<T>, Option<T>);

    /// The two slots, primary first.
    open spec fn view(&self) -> (Option<T>, Option<T>) {
        (self.primary(), self.secondary())
    }
}

/// Removes one level of `Option`: only a present value inside a present
/// value stays present.
pub open spec fn flattened<U>(slot: Option<Option<U>>) -> Option<U> {
    match slot {
        Some(Some(value)) => Some(value),
        _ => None,
    }
}

impl<T> Fallback<T> {
    /// The primary slot, which wins whenever it is present.
    pub closed spec fn primary(self) -> Option<T> {
        self.data
    }

    /// The secondary slot, which stands in when the primary one yields
    /// nothing.
    pub closed spec fn secondary(self) -> Option<T> {
        self.base_data
    }

    /// The pair that holds `primary` and `secondary`.
    pub closed spec fn spec_new(primary: Option<T>, secondary: Option<T>) -> Self {
        Fallback { data: primary, base_data: secondary }
    }

    /// Whether at least one slot is present.
    pub open spec fn spec_is_some(&self) -> bool {
        self.primary() is Some || self.secondary() is Some
    }

    /// What the pair resolves to: the primary slot if it is present, else the
    /// secondary slot.
    pub open spec fn spec_fallback(self) -> Option<T> {
        match self.primary() {
            Some(value) => Some(value),
            None => self.secondary(),
        }
    }

    /// Whether `f` can turn down the primary value, or there is none, so that
    /// the secondary slot gets its turn.
    pub open spec fn may_fall_through<V, F: FnOnce(T) -> Option<V>>(self, f: F) -> bool {
        self.primary() matches Some(value) ==> call_ensures(f, (value,), None::<V>)
    }

    /// Whether `out` is a result that `and_then` may give for `f`: what `f`
    /// makes of the primary value if that is present, else what it makes of
    /// the secondary value after the primary came to nothing, else nothing.
    pub open spec fn and_then_gives<V, F: FnOnce(T) -> Option<V>>(
        self,
        f: F,
        out: Option<V>,
    ) -> bool {
        ||| out is Some && self.primary() is Some && call_ensures(f, (self.primary()->0,), out)
        ||| self.may_fall_through(f) && self.secondary() is Some && call_ensures(
            f,
            (self.secondary()->0,),
            out,
        )
        ||| self.may_fall_through(f) && self.secondary() is None && out is None
    }

    /// Whether `mapped` holds, slot by slot, what `f` makes of this pair.
    pub open spec fn map_gives<V, F: FnOnce(T) -> V>(self, f: F, mapped: Fallback<V>) -> bool {
        &&& mapped.primary() is Some <==> self.primary() is Some
        &&& mapped.secondary() is Some <==> self.secondary() is Some
        &&& self.primary() is Some ==> call_ensures(
            f,
            (self.primary()->0,),
            mapped.primary()->0,
        )
        &&& self.secondary() is Some ==> call_ensures(
            f,
            (self.secondary()->0,),
            mapped.secondary()->0,
        )
    }

    /// A pair is known by its two slots.
    pub proof fn lemma_equal_by_slots(self, other: Self)
        requires
            self@ == other@,
        ensures
            self == other,
    {
    }

    /// The slots of a freshly made pair are the two values it was made of.
    pub proof fn lemma_spec_new_slots(primary: Option<T>, secondary: Option<T>)
        ensures
            Self::spec_new(primary, secondary).primary() == primary,
            Self::spec_new(primary, secondary).secondary() == secondary,
            Self::spec_new(primary, secondary)@ == (primary, secondary),
    {
    }

    /// Creates a new [`Fallback`]. Any combination of present and absent
    /// values is accepted.
    #[verifier::when_used_as_spec(spec_new)]
    pub fn new(data: Option<T>, base_data: Option<T>) -> (r: Self)
        ensures
            r == Self::spec_new(data, base_data),
            r.primary() == data,
            r.secondary() == base_data,
    {
        Self { data, base_data }
    }

    /// Returns `false` if both `data` and `base_data` are [`None`].
    #[verifier::when_used_as_spec(spec_is_some)]
    pub fn is_some(&self) -> (b: bool)
        ensures
            b == self.spec_is_some(),
            !b <==> self.primary() is None && self.secondary() is None,
    {
        self.data.is_some() || self.base_data.is_some()
    }

    /// Converts from `&Fallback<T>` to `Fallback<&T>`.
    pub fn as_ref(&self) -> (r: Fallback<&T>)
        ensures
            r.primary() is Some <==> self.primary() is Some,
            r.secondary() is Some <==> self.secondary() is Some,
            self.primary() matches Some(value) ==> r.primary() == Some(&value),
            self.secondary() matches Some(value) ==> r.secondary() == Some(&value),
    {
        Fallback::new(self.data.as_ref(), self.base_data.as_ref())
    }

    /// Falls back on the data or on a part of it.
    ///
    /// `f` is tried on the primary value; if there is none, or `f` makes
    /// nothing of it, `f` is tried on the secondary value.
    pub fn and_then<V>(self, mut f: impl FnMut(T) -> Option<V>) -> (out: Option<V>)
        requires
            self.primary() matches Some(value) ==> call_requires(f, (value,)),
            self.secondary() matches Some(value) ==> (self.may_fall_through(f) ==> call_requires(
                f,
                (value,),
            )),
        ensures
            self.and_then_gives(f, out),
            self.primary() is None && self.secondary() is None ==> out is None,
    {
        let first = match self.data {
            Some(value) => f(value),
            None => None,
        };
        if first.is_some() {
            first
        } else {
            match self.base_data {
                Some(value) => f(value),
                None => None,
            }
        }
    }

    /// Falls back on the data as a whole: the primary value if it is
    /// present, else the secondary one.
    #[verifier::when_used_as_spec(spec_fallback)]
    pub fn fallback(self) -> (out: Option<T>)
        ensures
            out == self.spec_fallback(),
            self.primary() is Some ==> out == self.primary(),
            self.primary() is None ==> out == self.secondary(),
    {
        match self.data {
            Some(value) => Some(value),
            None => self.base_data,
        }
    }

    /// Maps to a new [`Fallback`], slot by slot.
    pub fn map<V>(self, mut f: impl FnMut(T) -> V) -> (r: Fallback<V>)
        requires
            self.primary() matches Some(value) ==> call_requires(f, (value,)),
            self.secondary() matches Some(value) ==> call_requires(f, (value,)),
        ensures
            self.map_gives(f, r),
            r.is_some() == self.is_some(),
    {
        let data = match self.data {
            Some(value) => Some(f(value)),
            None => None,
        };
        let base_data = match self.base_data {
            Some(value) => Some(f(value)),
            None => None,
        };
        Fallback::new(data, base_data)
    }

    /// Takes the pair apart into `data` and `base_data`.
    pub fn unzip(self) -> (slots: (Option<T>, Option<T>))
        ensures
            slots == self@,
            slots.0 == self.primary(),
            slots.1 == self.secondary(),
    {
        (self.data, self.base_data)
    }
}

impl<T> Fallback<Option<T>> {
    /// Converts from `Fallback<Option<T>>` to `Fallback<T>`.
    pub fn flatten(self) -> (r: Fallback<T>)
        ensures
            r.primary() == flattened(self.primary()),
            r.secondary() == flattened(self.secondary()),
    {
        let data = match self.data {
            Some(inner) => inner,
            None => None,
        };
        let base_data = match self.base_data {
            Some(inner) => inner,
            None => None,
        };
        Fallback::new(data, base_data)
    }
}

impl<T> From<Fallback<T>> for Option<T> {
    /// Resolves the pair as [`Fallback::fallback`] does.
    fn from(f: Fallback<T>) -> (out: Self) {
        if f.data.is_some() {
            f.data
        } else {
            f.base_data
        }
    }
}

impl<T> FromSpecImpl<Fallback<T>> for Option<T> {
    open spec fn obeys_from_spec() -> bool {
        true
    }

    open spec fn from_spec(f: Fallback<T>) -> Self {
        f.spec_fallback()
    }
}

} // verus!
