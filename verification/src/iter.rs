//! Walking the two sides of a pair in lockstep.

use crate::pair::Fallback;
use vstd::prelude::*;
use vstd::std_specs::iter::IteratorSpec;

verus! {

/// The item at position `i`, if the sequence reaches that far.
pub open spec fn item_at<I>(items: Seq<I>, i: int) -> Option<I> {
    if 0 <= i < items.len() {
        Some(items[i])
    } else {
        None
    }
}

/// The two sequences side by side: one pair for each position that at least
/// one of them reaches, with nothing on the side that has run out.
pub open spec fn lockstep<I>(primary: Seq<I>, secondary: Seq<I>) -> Seq<Fallback<I>> {
    Seq::new(
        if primary.len() >= secondary.len() {
            primary.len()
        } else {
            secondary.len()
        },
        |i: int| Fallback::spec_new(item_at(primary, i), item_at(secondary, i)),
    )
}

/// What is left of a sequence once its first item is gone.
pub open spec fn rest_of<I>(items: Seq<I>) -> Seq<I> {
    if items.len() > 0 {
        items.drop_first()
    } else {
        items
    }
}

/// The lockstep of two sequences, of which at least one has an item, is the
/// pair of their first items followed by the lockstep of what is left.
pub proof fn lemma_lockstep_unfold<I>(primary: Seq<I>, secondary: Seq<I>)
    requires
        primary.len() > 0 || secondary.len() > 0,
    ensures
        lockstep(primary, secondary) == seq![
            Fallback::spec_new(item_at(primary, 0), item_at(secondary, 0)),
        ] + lockstep(rest_of(primary), rest_of(secondary)),
{
    let whole = lockstep(primary, secondary);
    let unfolded = seq![Fallback::spec_new(item_at(primary, 0), item_at(secondary, 0))] + lockstep(
        rest_of(primary),
        rest_of(secondary),
    );
    assert(whole.len() == unfolded.len());
    assert forall|i: int| 0 <= i < whole.len() implies whole[i] == unfolded[i] by {
        if i > 0 {
            assert(item_at(rest_of(primary), i - 1) == item_at(primary, i));
            assert(item_at(rest_of(secondary), i - 1) == item_at(secondary, i));
        }
    }
    assert(whole =~= unfolded);
}

/// The lockstep of two sequences without items has no pairs.
pub proof fn lemma_lockstep_empty<I>(primary: Seq<I>, secondary: Seq<I>)
    requires
        primary.len() == 0,
        secondary.len() == 0,
    ensures
        lockstep(primary, secondary) == Seq::<Fallback<I>>::empty(),
{
    assert(lockstep(primary, secondary) =~= Seq::<Fallback<I>>::empty());
}

/// The two slots of a step's result; both are empty when the walk is over.
pub open spec fn yielded<I>(step: Option<Fallback<I>>) -> (Option<I>, Option<I>) {
    match step {
        Some(pair) => pair@,
        None => (None, None),
    }
}

/// An upper bound on the number of steps that a side will still take part
/// in, for a side that counts down; an absent side takes part in none.
spec fn fuel<A: Iterator>(side: Option<A>) -> nat {
    match side {
        Some(items) => match items.decrease() {
            Some(left) => left + 1,
            None => 0,
        },
        None => 0,
    }
}

/// Whether a side, if present, is an iterator that keeps the iterator laws
/// and counts down to its end.
pub open spec fn lawful<A: Iterator>(side: Option<A>) -> bool {
    side matches Some(items) ==> items.obeys_prophetic_iter_laws() && items.decrease() is Some
}

/// Walks the two sides of a [`Fallback`] in lockstep.
///
/// A side is dropped as soon as it has run out, so it is never asked again.
pub struct FallbackIter<A> {
    data: Option<A>,
    base_data: Option<A>,
}

/// Asks one side for its next item, and drops the side if it has none.
fn advance<A: Iterator>(side: &mut Option<A>) -> (item: Option<A::Item>)
    ensures
        *final(side) is Some <==> item is Some,
        item is Some ==> *old(side) is Some,
        *old(side) matches Some(items) ==> items.obeys_prophetic_iter_laws() ==> {
            &&& item == item_at(items.remaining(), 0)
            &&& *final(side) matches Some(rest) ==> {
                &&& rest.obeys_prophetic_iter_laws()
                &&& rest.remaining() == items.remaining().drop_first()
                &&& items.decrease() is Some ==> rest.decrease() is Some
                    && rest.decrease()->0 < items.decrease()->0
            }
        },
{
    let item = match side {
        Some(items) => items.next(),
        None => None,
    };
    if item.is_none() {
        *side = None;
    }
    item
}

impl<A: Iterator> FallbackIter<A> {
    /// The primary side, while it still has items.
    pub closed spec fn primary(self) -> Option<A> {
        self.data
    }

    /// The secondary side, while it still has items.
    pub closed spec fn secondary(self) -> Option<A> {
        self.base_data
    }

    /// Hands out the next pair: the next item of each side that still has
    /// one. The walk is over when neither side has.
    pub fn next(&mut self) -> (step: Option<Fallback<A::Item>>)
        ensures
            step is None <==> final(self).primary() is None && final(self).secondary() is None,
            step matches Some(pair) ==> pair.is_some(),
            yielded(step).0 is Some <==> final(self).primary() is Some,
            yielded(step).1 is Some <==> final(self).secondary() is Some,
            final(self).primary() is Some ==> old(self).primary() is Some,
            final(self).secondary() is Some ==> old(self).secondary() is Some,
            old(self).primary() matches Some(items) ==> items.obeys_prophetic_iter_laws() ==> {
                &&& yielded(step).0 == item_at(items.remaining(), 0)
                &&& final(self).primary() matches Some(rest) ==> {
                    &&& rest.obeys_prophetic_iter_laws()
                    &&& rest.remaining() == items.remaining().drop_first()
                    &&& items.decrease() is Some ==> rest.decrease() is Some
                        && rest.decrease()->0 < items.decrease()->0
                }
            },
            old(self).secondary() matches Some(items) ==> items.obeys_prophetic_iter_laws() ==> {
                &&& yielded(step).1 == item_at(items.remaining(), 0)
                &&& final(self).secondary() matches Some(rest) ==> {
                    &&& rest.obeys_prophetic_iter_laws()
                    &&& rest.remaining() == items.remaining().drop_first()
                    &&& items.decrease() is Some ==> rest.decrease() is Some
                        && rest.decrease()->0 < items.decrease()->0
                }
            },
    {
        let d = advance(&mut self.data);
        let based = advance(&mut self.base_data);
        if d.is_some() || based.is_some() {
            Some(Fallback::new(d, based))
        } else {
            None
        }
    }

    /// Runs the walk to its end and gathers the pairs it hands out: the two
    /// sides in lockstep, as long as the longer one.
    pub fn collect(self) -> (pairs: Vec<Fallback<A::Item>>)
        requires
            lawful(self.primary()),
            lawful(self.secondary()),
        ensures
            pairs@ == lockstep(
                match self.primary() {
                    Some(items) => items.remaining(),
                    None => Seq::empty(),
                },
                match self.secondary() {
                    Some(items) => items.remaining(),
                    None => Seq::empty(),
                },
            ),
    {
        let mut iter = self;
        let mut pairs: Vec<Fallback<A::Item>> = Vec::new();
        loop
            invariant
                lawful(iter.primary()),
                lawful(iter.secondary()),
                pairs@ + lockstep(
                    match iter.primary() {
                        Some(items) => items.remaining(),
                        None => Seq::empty(),
                    },
                    match iter.secondary() {
                        Some(items) => items.remaining(),
                        None => Seq::empty(),
                    },
                ) == lockstep(
                    match self.primary() {
                        Some(items) => items.remaining(),
                        None => Seq::empty(),
                    },
                    match self.secondary() {
                        Some(items) => items.remaining(),
                        None => Seq::empty(),
                    },
                ),
            decreases fuel(iter.primary()) + fuel(iter.secondary()),
        {
            let ghost before = iter;
            let ghost gathered = pairs@;
            let step = iter.next();
            proof {
                let left = match before.primary() {
                    Some(items) => items.remaining(),
                    None => Seq::empty(),
                };
                let right = match before.secondary() {
                    Some(items) => items.remaining(),
                    None => Seq::empty(),
                };
                let left_after = match iter.primary() {
                    Some(items) => items.remaining(),
                    None => Seq::empty(),
                };
                let right_after = match iter.secondary() {
                    Some(items) => items.remaining(),
                    None => Seq::empty(),
                };
                assert(yielded(step).0 == item_at(left, 0));
                assert(yielded(step).1 == item_at(right, 0));
                assert(left_after =~= rest_of(left));
                assert(right_after =~= rest_of(right));
                if step is Some {
                    let pair = step->0;
                    let head = Fallback::spec_new(item_at(left, 0), item_at(right, 0));
                    Fallback::lemma_spec_new_slots(item_at(left, 0), item_at(right, 0));
                    pair.lemma_equal_by_slots(head);
                    lemma_lockstep_unfold(left, right);
                    assert(gathered.push(pair) + lockstep(left_after, right_after) =~= gathered
                        + lockstep(left, right));
                } else {
                    lemma_lockstep_empty(left, right);
                    assert(gathered + lockstep(left, right) =~= gathered);
                }
            }
            match step {
                Some(pair) => {
                    pairs.push(pair);
                },
                None => {
                    return pairs;
                },
            }
        }
    }
}

impl<A: Iterator> Fallback<A> {
    /// Turns a pair of iterators into an iterator of pairs.
    pub fn into_iter(self) -> (iter: FallbackIter<A>)
        ensures
            iter.primary() == self.primary(),
            iter.secondary() == self.secondary(),
    {
        let (data, base_data) = self.unzip();
        FallbackIter { data, base_data }
    }
}

} // verus!
