//! The payloads of forced values: lists and numbers.

use crate::closure::{Closure, Identity};
use vstd::prelude::*;

verus! {

/// A persistent list. A `Cons` node owns its element and the forced closure
/// of its tail, each in storage of its own.
pub enum List<T: Clone> {
    Cons(Box<T>, Box<Closure<Identity, List<T>>>),
    Nil,
}

impl<T: Clone> View for List<T> {
    type V = Seq<T>;

    /// The elements in the order in which a walk from the head meets them.
    open spec fn view(&self) -> Seq<T>
        decreases self,
    {
        match self {
            List::Cons(head, tail) => seq![**head] + tail.payload.view(),
            List::Nil => Seq::empty(),
        }
    }
}

/// `From<T> for T` of the standard library, the conversion of a type into
/// itself: it hands its argument back.
pub assume_specification<U>[ <U as std::convert::From<U>>::from ](value: U) -> (same: U)
    ensures
        same == value,
;

/// Whether `element` can come of `source` by a clone followed by `into`.
pub open spec fn converted<S: Clone + Into<T>, T>(source: S, element: T) -> bool {
    exists|copy: S| cloned(source, copy) && call_ensures(<S as Into<T>>::into, (copy,), element)
}

/// Whether `elements` holds, place by place and in the same order, a
/// conversion of what `sources` holds.
pub open spec fn converted_in_order<S: Clone + Into<T>, T>(
    sources: Seq<S>,
    elements: Seq<T>,
) -> bool {
    &&& elements.len() == sources.len()
    &&& forall|i: int|
        0 <= i < sources.len() ==> converted::<S, T>(sources[i], #[trigger] elements[i])
}

/// Whether `elements` holds, place by place and in the same order, a clone
/// of what `sources` holds.
pub open spec fn cloned_in_order<T: Clone>(sources: Seq<T>, elements: Seq<T>) -> bool {
    &&& elements.len() == sources.len()
    &&& forall|i: int| 0 <= i < sources.len() ==> cloned(sources[i], #[trigger] elements[i])
}

/// Where nothing but the type's conversion into itself stands between the
/// sources and the elements, the elements are clones of the sources.
pub proof fn lemma_converted_into_itself<T: Clone>(sources: Seq<T>, elements: Seq<T>)
    requires
        converted_in_order::<T, T>(sources, elements),
    ensures
        cloned_in_order(sources, elements),
{
    assert forall|i: int| 0 <= i < sources.len() implies cloned(
        sources[i],
        #[trigger] elements[i],
    ) by {
        assert(converted::<T, T>(sources[i], elements[i]));
    }
}

impl<'a, T: Clone, S: Clone + Into<T>> vstd::std_specs::convert::FromSpecImpl<&'a [S]> for List<T> {
    /// The result rests on `clone` and `into` of the element types, which
    /// need not be functions of their arguments.
    open spec fn obeys_from_spec() -> bool {
        false
    }

    open spec fn from_spec(xs: &'a [S]) -> List<T> {
        List::Nil
    }
}

impl<'a, T: Clone, S: Clone + Into<T>> From<&'a [S]> for List<T> {
    /// Builds the list from its last node to its first: from `Nil`, each
    /// source element, taken from the back, is cloned, converted and put in
    /// front of what was built so far, so that a walk from the head meets the
    /// elements in the order of the slice.
    fn from(xs: &'a [S]) -> (list: List<T>)
        ensures
            converted_in_order::<S, T>(xs@, list@),
            list is Nil <==> xs@.len() == 0,
    {
        let mut list: List<T> = List::Nil;
        let mut i: usize = xs.len();
        while i > 0
            invariant
                i <= xs.len(),
                converted_in_order::<S, T>(xs@.subrange(i as int, xs@.len() as int), list@),
                list is Nil <==> i == xs.len(),
            decreases i,
        {
            i = i - 1;
            let ghost tail = list@;
            let copy = xs[i].clone();
            let element: T = copy.into();
            list = List::Cons(Box::new(element), Box::new(Closure::new(Identity, list)));
            proof {
                let rest = xs@.subrange(i + 1, xs@.len() as int);
                let now = xs@.subrange(i as int, xs@.len() as int);
                assert(list@ =~= seq![element] + tail);
                assert(cloned(xs@[i as int], copy));
                assert(call_ensures(<S as Into<T>>::into, (copy,), element));
                assert(converted::<S, T>(xs@[i as int], element));
                assert forall|j: int| 0 <= j < now.len() implies converted::<S, T>(
                    now[j],
                    #[trigger] list@[j],
                ) by {
                    if 0 < j < now.len() {
                        assert(now[j] == rest[j - 1]);
                        assert(list@[j] == tail[j - 1]);
                    }
                }
            }
        }
        assert(xs@.subrange(0, xs@.len() as int) =~= xs@);
        list
    }
}

/// The bit pattern of an IEEE-754 double, as the host hands a scalar over.
#[derive(Clone, Copy, Debug, PartialEq, Eq, Structural)]
pub struct Bits(pub u64);

/// An IEEE-754 double, held as its 64 bits.
#[derive(Clone, Copy)]
pub struct Number(u64);

impl Number {
    /// The bit pattern of the double.
    pub closed spec fn bits(self) -> Bits {
        Bits(self.0)
    }

    /// The number whose bit pattern is `bits`.
    pub closed spec fn of_bits(bits: Bits) -> Number {
        Number(bits.0)
    }

    /// Unwrapping what was wrapped gives the same bits, whatever they are:
    /// zeros of either sign, infinities, and NaNs with their payloads.
    pub proof fn lemma_wrap_then_unwrap(bits: Bits)
        ensures
            Number::of_bits(bits).bits() == bits,
    {
    }

    /// Wrapping what was unwrapped gives the same number: a number is
    /// nothing but its bits.
    pub proof fn lemma_unwrap_then_wrap(number: Number)
        ensures
            Number::of_bits(number.bits()) == number,
    {
    }
}

impl vstd::std_specs::convert::FromSpecImpl<Bits> for Number {
    open spec fn obeys_from_spec() -> bool {
        true
    }

    open spec fn from_spec(bits: Bits) -> Number {
        Number::of_bits(bits)
    }
}

impl From<Bits> for Number {
    /// Wraps a double. No pattern is treated apart.
    fn from(bits: Bits) -> (number: Number)
        ensures
            number == Number::of_bits(bits),
            number.bits() == bits,
    {
        Number(bits.0)
    }
}

impl vstd::std_specs::convert::FromSpecImpl<Number> for Bits {
    open spec fn obeys_from_spec() -> bool {
        true
    }

    open spec fn from_spec(number: Number) -> Bits {
        number.bits()
    }
}

impl From<Number> for Bits {
    /// Unwraps the double.
    fn from(number: Number) -> (bits: Bits)
        ensures
            bits == number.bits(),
            number == Number::of_bits(bits),
    {
        Bits(number.0)
    }
}

/// A list of numbers converted from bit patterns holds, place by place,
/// the numbers of exactly those patterns: a walk from its head reads the
/// patterns back in the order in which they were given.
pub proof fn lemma_numbers_in_order(patterns: Seq<Bits>, numbers: Seq<Number>)
    requires
        converted_in_order::<Bits, Number>(patterns, numbers),
    ensures
        numbers == patterns.map_values(|bits: Bits| Number::of_bits(bits)),
        numbers.map_values(|number: Number| number.bits()) == patterns,
{
    let wrapped = patterns.map_values(|bits: Bits| Number::of_bits(bits));
    assert forall|i: int| 0 <= i < patterns.len() implies numbers[i] == wrapped[i] by {
        assert(converted::<Bits, Number>(patterns[i], numbers[i]));
    }
    assert(numbers =~= wrapped);
    assert(numbers.map_values(|number: Number| number.bits()) =~= patterns);
}

} // verus!
