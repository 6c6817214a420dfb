//! The uniform shape of every runtime value: an entry paired with a payload.

use crate::algebraic;
use crate::algebraic::{
    cloned_in_order, converted_in_order, lemma_converted_into_itself, Bits,
};
use vstd::prelude::*;

verus! {

/// A record of exactly two fields, the entry first and the payload second.
///
/// A thunk pairs code with its captured environment; a forced value pairs the
/// identity entry with an algebraic value that is already computed.
pub struct Closure<E, P> {
    pub entry: E,
    pub payload: P,
}

impl<E: Clone, P: Clone> Clone for Closure<E, P> {
    /// A closure of a clone of each field.
    fn clone(&self) -> (copy: Self)
        ensures
            cloned(self.entry, copy.entry),
            cloned(self.payload, copy.payload),
    {
        Closure { entry: self.entry.clone(), payload: self.payload.clone() }
    }
}

impl<E: Copy, P: Copy> Copy for Closure<E, P> {}

impl<E, P> Closure<E, P> {
    /// Pairs `entry` and `payload` as they are. Nothing is validated: that the
    /// entry accepts the payload is the business of whoever builds the pair.
    pub fn new(entry: E, payload: P) -> (closure: Self)
        ensures
            closure.entry == entry,
            closure.payload == payload,
    {
        Closure { entry, payload }
    }
}

/// The record of captured variables of a thunk. Its shape belongs to the
/// code that builds thunks; from here it has no size and no content.
pub struct Environment {
    _private: [u8; 0],
}

/// The entry of a forced value. It stands for the identity function: forcing
/// a closure that carries it hands the payload back unchanged. Which of the
/// two closure shapes a value has is told by the entry's type alone.
#[derive(Clone, Copy, Debug, PartialEq, Eq, Structural)]
pub struct Identity;

/// A forced list.
pub type List<T> = Closure<Identity, algebraic::List<T>>;

/// A forced number.
pub type Number = Closure<Identity, algebraic::Number>;

/// A thunk: code that computes from a captured environment.
pub type Thunk<E> = Closure<E, Environment>;

/// What the identity entry does to a list: nothing.
pub fn list_entry<T: Clone>(list: &mut algebraic::List<T>) -> (forced: &mut algebraic::List<T>)
    ensures
        *forced == *old(list),
        *final(list) == *final(forced),
{
    list
}

/// What the identity entry does to a number: nothing.
pub fn number_entry(number: &mut algebraic::Number) -> (forced: &mut algebraic::Number)
    ensures
        *forced == *old(number),
        *final(number) == *final(forced),
{
    number
}

impl<T: Clone> List<T> {
    /// Forces the list. It is forced already, so this hands out its payload
    /// as it stands, as often as it is asked; the closure changes only by
    /// what the caller writes through the reference.
    pub fn eval(&mut self) -> (forced: &mut algebraic::List<T>)
        ensures
            *forced == old(self).payload,
            final(self).payload == *final(forced),
            final(self).entry == old(self).entry,
    {
        list_entry(&mut self.payload)
    }
}

impl Number {
    /// Forces the number. It is forced already, so this hands out its payload
    /// as it stands, as often as it is asked; the closure changes only by
    /// what the caller writes through the reference.
    pub fn eval(&mut self) -> (forced: &mut algebraic::Number)
        ensures
            *forced == old(self).payload,
            final(self).payload == *final(forced),
            final(self).entry == old(self).entry,
    {
        number_entry(&mut self.payload)
    }
}

impl<'a, T: Clone> vstd::std_specs::convert::FromSpecImpl<&'a [T]> for List<T> {
    /// The result rests on `clone` of the element type, which need not be a
    /// function of its argument.
    open spec fn obeys_from_spec() -> bool {
        false
    }

    open spec fn from_spec(xs: &'a [T]) -> Self {
        Closure { entry: Identity, payload: algebraic::List::Nil }
    }
}

impl<'a, T: Clone> From<&'a [T]> for List<T> {
    /// The forced list of the elements of `xs`, in their order.
    fn from(xs: &'a [T]) -> (list: Self)
        ensures
            list.entry == Identity,
            cloned_in_order(xs@, list.payload@),
            list.payload is Nil <==> xs@.len() == 0,
    {
        let payload: algebraic::List<T> = algebraic::List::from(xs);
        proof {
            lemma_converted_into_itself(xs@, payload@);
        }
        Closure::new(Identity, payload)
    }
}

impl vstd::std_specs::convert::FromSpecImpl<Bits> for Number {
    open spec fn obeys_from_spec() -> bool {
        true
    }

    open spec fn from_spec(bits: Bits) -> Self {
        Closure { entry: Identity, payload: algebraic::Number::of_bits(bits) }
    }
}

impl From<Bits> for Number {
    /// The forced number of the double whose pattern is `bits`.
    fn from(bits: Bits) -> (number: Self)
        ensures
            number.entry == Identity,
            number.payload == algebraic::Number::of_bits(bits),
            number.payload.bits() == bits,
    {
        Closure::new(Identity, algebraic::Number::from(bits))
    }
}

/// A forced list made of forced numbers holds exactly those numbers: a
/// walk from its head meets them one by one in the order of the slice.
pub proof fn lemma_forced_numbers_in_order(numbers: Seq<Number>, elements: Seq<Number>)
    requires
        cloned_in_order(numbers, elements),
    ensures
        elements == numbers,
{
    assert forall|i: int| 0 <= i < numbers.len() implies elements[i] == numbers[i] by {
        assert(cloned(numbers[i], elements[i]));
    }
    assert(elements =~= numbers);
}

} // verus!
