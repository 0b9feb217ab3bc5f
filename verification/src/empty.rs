//! Falling back past values that are present but empty: a container without
//! items, a string without characters.

use crate::pair::Fallback;
use std::collections::{BTreeMap, BTreeSet, HashMap, HashSet, VecDeque};
use vstd::prelude::*;

verus! {

/// A container that knows how many items it holds without being walked.
pub trait ExactLen {
    /// The number of items in the container.
    spec fn spec_exact_len(&self) -> nat;

    /// Returns the number of items in the container.
    fn exact_len(&self) -> (len: usize)
        ensures
            len == self.spec_exact_len(),
    ;
}

impl<T> ExactLen for Vec<T> {
    open spec fn spec_exact_len(&self) -> nat {
        self@.len()
    }

    fn exact_len(&self) -> (len: usize) {
        self.len()
    }
}

impl<T> ExactLen for VecDeque<T> {
    open spec fn spec_exact_len(&self) -> nat {
        self@.len()
    }

    fn exact_len(&self) -> (len: usize) {
        self.len()
    }
}

impl<K, V, S> ExactLen for HashMap<K, V, S> {
    open spec fn spec_exact_len(&self) -> nat {
        self.len() as nat
    }

    fn exact_len(&self) -> (len: usize) {
        self.len()
    }
}

impl<K, S> ExactLen for HashSet<K, S> {
    open spec fn spec_exact_len(&self) -> nat {
        self.len() as nat
    }

    fn exact_len(&self) -> (len: usize) {
        self.len()
    }
}

impl<K, V> ExactLen for BTreeMap<K, V> {
    open spec fn spec_exact_len(&self) -> nat {
        self.len() as nat
    }

    fn exact_len(&self) -> (len: usize) {
        self.len()
    }
}

impl<K> ExactLen for BTreeSet<K> {
    open spec fn spec_exact_len(&self) -> nat {
        self.len() as nat
    }

    fn exact_len(&self) -> (len: usize) {
        self.len()
    }
}

impl<T, const N: usize> ExactLen for [T; N] {
    open spec fn spec_exact_len(&self) -> nat {
        N as nat
    }

    fn exact_len(&self) -> (len: usize) {
        N
    }
}

impl<T> ExactLen for Option<T> {
    open spec fn spec_exact_len(&self) -> nat {
        if self is Some {
            1
        } else {
            0
        }
    }

    fn exact_len(&self) -> (len: usize) {
        if self.is_some() {
            1
        } else {
            0
        }
    }
}

/// A value that can be read as a string.
pub trait StrView {
    /// The characters of the string that the value stands for.
    spec fn spec_str_view(&self) -> Seq<char>;

    /// Borrows the value as a string slice.
    fn str_view(&self) -> (s: &str)
        ensures
            s@ == self.spec_str_view(),
    ;
}

impl StrView for str {
    open spec fn spec_str_view(&self) -> Seq<char> {
        self@
    }

    fn str_view(&self) -> (s: &str) {
        self
    }
}

impl StrView for String {
    open spec fn spec_str_view(&self) -> Seq<char> {
        self@
    }

    fn str_view(&self) -> (s: &str) {
        self.as_str()
    }
}

impl<'a, T: StrView + ?Sized> StrView for &'a T {
    open spec fn spec_str_view(&self) -> Seq<char> {
        (**self).spec_str_view()
    }

    fn str_view(&self) -> (s: &str) {
        (**self).str_view()
    }
}

impl<T: StrView + ?Sized> StrView for Box<T> {
    open spec fn spec_str_view(&self) -> Seq<char> {
        (**self).spec_str_view()
    }

    fn str_view(&self) -> (s: &str) {
        (**self).str_view()
    }
}

/// A container if it holds at least one item, else nothing.
pub open spec fn unless_empty<T: ExactLen>(value: T) -> Option<T> {
    if value.spec_exact_len() == 0 {
        None
    } else {
        Some(value)
    }
}

/// A string if it holds at least one character, else nothing.
pub open spec fn unless_empty_str<T: StrView>(value: T) -> Option<T> {
    if value.spec_str_view().len() == 0 {
        None
    } else {
        Some(value)
    }
}

/// Hands the container back unless it is empty.
fn keep_unless_empty<T: ExactLen>(value: T) -> (kept: Option<T>)
    ensures
        kept == unless_empty(value),
{
    if value.exact_len() == 0 {
        None
    } else {
        Some(value)
    }
}

/// Hands the string back unless it is empty.
fn keep_unless_empty_str<T: StrView>(value: T) -> (kept: Option<T>)
    ensures
        kept == unless_empty_str(value),
{
    if value.str_view().is_empty() {
        None
    } else {
        Some(value)
    }
}

impl<T: ExactLen> Fallback<T> {
    /// What the pair resolves to when an empty container counts as absent.
    pub open spec fn spec_and_any(self) -> Option<T> {
        match self.primary() {
            Some(value) if value.spec_exact_len() > 0 => Some(value),
            _ => match self.secondary() {
                Some(value) if value.spec_exact_len() > 0 => Some(value),
                _ => None,
            },
        }
    }

    /// Treats the empty container as [`None`] and falls back.
    pub fn and_any(self) -> (out: Option<T>)
        ensures
            out == self.spec_and_any(),
    {
        self.and_then(keep_unless_empty)
    }
}

impl<T: StrView> Fallback<T> {
    /// What the pair resolves to when an empty string counts as absent.
    pub open spec fn spec_and_any_str(self) -> Option<T> {
        match self.primary() {
            Some(value) if value.spec_str_view().len() > 0 => Some(value),
            _ => match self.secondary() {
                Some(value) if value.spec_str_view().len() > 0 => Some(value),
                _ => None,
            },
        }
    }

    /// Treats the empty string as [`None`] and falls back.
    pub fn and_any_str(self) -> (out: Option<T>)
        ensures
            out == self.spec_and_any_str(),
    {
        self.and_then(keep_unless_empty_str)
    }
}

} // verus!
