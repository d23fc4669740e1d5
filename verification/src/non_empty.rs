//! Sequences that are known to hold at least one element.

use vstd::prelude::*;
use vstd::std_specs::iter::IteratorSpec;

verus! {

/// An owned sequence with at least one element.
#[derive(Debug, PartialEq, Eq, PartialOrd, Ord, Hash)]
pub struct NonEmpty<U> {
    items: Vec<U>,
}

impl<U> View for NonEmpty<U> {
    type V = Seq<U>;

    closed spec fn view(&self) -> Seq<U> {
        self.items@
    }
}

impl<U> NonEmpty<U> {
    #[verifier::type_invariant]
    spec fn holds_an_element(self) -> bool {
        self.items@.len() > 0
    }

    /// A sequence made of the single element `val`.
    pub fn new_single(val: U) -> (r: Self)
        ensures
            r@ == seq![val],
    {
        let mut items = Vec::new();
        items.push(val);
        NonEmpty { items }
    }

    /// The first element.
    pub fn first(&self) -> (r: &U)
        ensures
            self@.len() > 0,
            *r == self@[0],
    {
        proof {
            use_type_invariant(self);
        }
        &self.items[0]
    }

    /// Whether the sequence is empty, which it never is.
    pub fn is_empty() -> (r: bool)
        ensures
            !r,
    {
        false
    }

    /// The first element, for writing.
    pub fn first_mut(&mut self) -> (r: &mut U)
        ensures
            old(self)@.len() > 0,
            *r == old(self)@[0],
            final(self)@ == old(self)@.update(0, *final(r)),
    {
        proof {
            use_type_invariant(&*self);
        }
        &mut self.items[0]
    }

    /// The number of elements.
    pub fn len(&self) -> (r: usize)
        ensures
            r == self@.len(),
            r >= 1,
    {
        proof {
            use_type_invariant(self);
        }
        self.items.len()
    }

    /// An iterator over shared references to the elements, in order.
    pub fn iter(&self) -> (r: std::slice::Iter<'_, U>)
        ensures
            vstd::std_specs::slice::into_iter_elts(r) == self@,
    {
        self.items.as_slice().iter()
    }

    /// The elements as a slice whose entries can be written; the length cannot change.
    pub fn iter_mut(&mut self) -> (r: &mut [U])
        ensures
            r@ == old(self)@,
            final(self)@ == final(r)@,
    {
        proof {
            use_type_invariant(&*self);
        }
        vec_as_mut_slice(&mut self.items)
    }

    /// The elements as a slice.
    pub fn as_slice(&self) -> (r: &[U])
        ensures
            r@ == self@,
    {
        self.items.as_slice()
    }

    /// The element at `index`.
    pub fn get(&self, index: usize) -> (r: &U)
        requires
            index < self@.len(),
        ensures
            *r == self@[index as int],
    {
        &self.items[index]
    }

    /// The vector of the elements.
    pub closed spec fn into_vec_spec(self) -> Vec<U> {
        self.items
    }

    /// The elements, in order, as a vector.
    pub fn into_vec(self) -> (r: Vec<U>)
        ensures
            r == self.into_vec_spec(),
            r@ == self@,
            r@.len() > 0,
    {
        proof {
            use_type_invariant(&self);
        }
        self.items
    }
}

impl<U> core::ops::Deref for NonEmpty<U> {
    type Target = [U];

    fn deref(&self) -> (r: &[U])
        ensures
            r@ == self@,
    {
        self.items.as_slice()
    }
}

impl<U: Clone> Clone for NonEmpty<U> {
    /// A sequence of clones of the elements, in order.
    fn clone(&self) -> (r: Self)
        ensures
            r@.len() == self@.len(),
            forall|i: int| 0 <= i < self@.len() ==> cloned::<U>(self@[i], #[trigger] r@[i]),
    {
        proof {
            use_type_invariant(self);
        }
        let mut items: Vec<U> = Vec::new();
        items.extend_from_slice(self.items.as_slice());
        NonEmpty { items }
    }
}

impl<U> core::ops::Index<usize> for NonEmpty<U> {
    type Output = U;

    fn index(&self, index: usize) -> (r: &U)
        ensures
            *r == self@[index as int],
    {
        &self.items[index]
    }
}

impl<U> vstd::std_specs::core::IndexSpecImpl<usize> for NonEmpty<U> {
    open spec fn index_req(&self, index: &usize) -> bool {
        *index < self@.len()
    }
}

impl<U> AsMut<[U]> for NonEmpty<U> {
    fn as_mut(&mut self) -> (r: &mut [U])
        ensures
            r@ == old(self)@,
            final(self)@ == final(r)@,
    {
        proof {
            use_type_invariant(&*self);
        }
        vec_as_mut_slice(&mut self.items)
    }
}

impl<U> AsRef<[U]> for NonEmpty<U> {
    fn as_ref(&self) -> (r: &[U])
        ensures
            r@ == self@,
    {
        self.items.as_slice()
    }
}

impl<U> From<NonEmpty<U>> for Vec<U> {
    fn from(ne: NonEmpty<U>) -> (r: Vec<U>) {
        ne.items
    }
}

impl<U> vstd::std_specs::convert::FromSpecImpl<NonEmpty<U>> for Vec<U> {
    open spec fn obeys_from_spec() -> bool {
        true
    }

    open spec fn from_spec(ne: NonEmpty<U>) -> Vec<U> {
        ne.into_vec_spec()
    }
}

impl<U> IntoIterator for NonEmpty<U> {
    type Item = U;
    type IntoIter = std::vec::IntoIter<U>;

    fn into_iter(self) -> (r: Self::IntoIter)
        ensures
            r.remaining() == self@,
    {
        broadcast use vstd::std_specs::vec::axiom_spec_into_iter;

        self.items.into_iter()
    }
}

impl<'a, U> IntoIterator for &'a NonEmpty<U> {
    type Item = &'a U;
    type IntoIter = std::slice::Iter<'a, U>;

    fn into_iter(self) -> (r: Self::IntoIter)
        ensures
            vstd::std_specs::slice::into_iter_elts(r) == self@,
    {
        self.items.as_slice().iter()
    }
}

/// The vector of a sequence's elements views as the sequence.
pub proof fn lemma_into_vec_spec_view<U>(ne: NonEmpty<U>)
    ensures
        ne.into_vec_spec()@ == ne@,
{
}

impl<U> core::ops::Deref for MaybeNonEmpty<U> {
    type Target = Option<NonEmpty<U>>;

    fn deref(&self) -> (r: &Option<NonEmpty<U>>)
        ensures
            *r == self.0,
    {
        &self.0
    }
}

impl<U> From<MaybeNonEmpty<U>> for Option<NonEmpty<U>> {
    fn from(m: MaybeNonEmpty<U>) -> (r: Option<NonEmpty<U>>) {
        m.0
    }
}

impl<U> vstd::std_specs::convert::FromSpecImpl<MaybeNonEmpty<U>> for Option<NonEmpty<U>> {
    open spec fn obeys_from_spec() -> bool {
        true
    }

    open spec fn from_spec(m: MaybeNonEmpty<U>) -> Option<NonEmpty<U>> {
        m.0
    }
}

/// Trusted: `Vec::as_mut_slice`, which hands out the whole vector as a slice and cannot
/// panic. The contract claims that the slice holds the vector's elements and that what is
/// written through it is what the vector holds afterwards, which has the same length, since
/// writing through a slice cannot change its length.
#[verifier::external_body]
fn vec_as_mut_slice<T>(v: &mut Vec<T>) -> (r: &mut [T])
    ensures
        r@ == old(v)@,
        final(v)@ == final(r)@,
        final(v)@.len() == old(v)@.len(),
    no_unwind
{
    v.as_mut_slice()
}

/// A sequence that may be empty, kept as `None` when it is and as a `NonEmpty` when not.
#[derive(Debug, Clone, PartialEq, Eq, PartialOrd, Ord, Hash)]
pub struct MaybeNonEmpty<U>(pub Option<NonEmpty<U>>);

impl<U> MaybeNonEmpty<U> {
    /// The wrapped option.
    pub fn into_option(self) -> (r: Option<NonEmpty<U>>)
        ensures
            r == self.0,
    {
        self.0
    }

    /// The wrapped option, borrowed.
    pub fn as_option(&self) -> (r: &Option<NonEmpty<U>>)
        ensures
            *r == self.0,
    {
        &self.0
    }

    /// Collects `items`: `None` when there are none, otherwise all of them in order.
    pub fn from_vec(items: Vec<U>) -> (r: Self)
        ensures
            items@.len() == 0 ==> r.0 is None,
            items@.len() > 0 ==> (r.0 matches Some(ne) && ne@ == items@),
    {
        if items.len() == 0 {
            MaybeNonEmpty(None)
        } else {
            MaybeNonEmpty(Some(NonEmpty { items }))
        }
    }
}

} // verus!
