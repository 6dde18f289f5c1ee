//! The growable array itself.
use vstd::prelude::*;

use crate::growth::{
    grown_capacity, is_growth_step, is_tight_capacity, lemma_append_keeps_tight,
    lemma_tight_capacity_is_least,
};

verus! {

/// A growable array of elements of a type of nonzero size.
///
/// The first `len()` slots of a buffer of `capacity()` slots hold the
/// elements in the order in which they were appended. The slots beyond them
/// are never exposed.
pub struct MyVec<T> {
    items: Vec<T>,
    capacity: usize,
}

impl<T> View for MyVec<T> {
    type V = Seq<T>;

    /// The stored elements, in order of appending.
    closed spec fn view(&self) -> Seq<T> {
        self.items@
    }
}

impl<T> MyVec<T> {
    /// The number of slots of the current buffer.
    pub closed spec fn spec_capacity(&self) -> nat {
        self.capacity as nat
    }

    /// The elements fit the buffer, the capacity is the one that the growth
    /// policy gives for their number, and the buffer's size in bytes stays
    /// within what an allocation may span.
    pub closed spec fn wf(&self) -> bool {
        &&& self.items@.len() <= self.capacity
        &&& is_tight_capacity(self.items@.len(), self.capacity as nat)
        &&& self.capacity * vstd::layout::size_of::<T>() <= isize::MAX
    }

    /// An empty array; nothing is allocated.
    pub fn new() -> (r: Self)
        ensures
            r.wf(),
            r@ == Seq::<T>::empty(),
            r.spec_capacity() == 0,
    {
        MyVec { items: Vec::new(), capacity: 0 }
    }

    /// Adds `item` after the last element. An empty array first allocates
    /// four slots; a full one doubles its capacity, keeping its elements.
    pub fn push(&mut self, item: T)
        requires
            old(self).wf(),
            vstd::layout::size_of::<T>() != 0,
            old(self)@.len() == old(self).spec_capacity() ==> grown_capacity(
                old(self).spec_capacity(),
            ) * vstd::layout::size_of::<T>() <= isize::MAX,
        ensures
            final(self).wf(),
            final(self)@ == old(self)@.push(item),
            final(self).spec_capacity() == if old(self)@.len() < old(self).spec_capacity() {
                old(self).spec_capacity()
            } else {
                grown_capacity(old(self).spec_capacity())
            },
    {
        proof {
            lemma_append_keeps_tight(self.items@.len(), self.capacity as nat);
        }
        if self.capacity == 0 {
            let mut items: Vec<T> = Vec::with_capacity(4);
            items.push(item);
            self.items = items;
            self.capacity = 4;
        } else if self.items.len() < self.capacity {
            self.items.push(item);
        } else {
            proof {
                let size = vstd::layout::size_of::<T>() as int;
                let cap = self.capacity as int;
                assert(2 * cap <= isize::MAX) by (nonlinear_arith)
                    requires
                        2 * cap * size <= isize::MAX,
                        size >= 1,
                        cap >= 0,
                ;
            }
            let new_capacity: usize = self.capacity * 2;
            self.items.reserve(new_capacity - self.items.len());
            self.items.push(item);
            self.capacity = new_capacity;
        }
    }

    /// The element at `index`, or `None` where `index` is not below `len()`.
    pub fn get(&self, index: usize) -> (r: Option<&T>)
        ensures
            index < self@.len() ==> r == Some(&self@[index as int]),
            index >= self@.len() ==> r.is_none(),
    {
        if index >= self.items.len() {
            return None;
        }
        Some(&self.items[index])
    }

    /// The number of slots of the current buffer.
    pub fn capacity(&self) -> (r: usize)
        ensures
            r == self.spec_capacity(),
    {
        self.capacity
    }

    /// The number of stored elements.
    pub fn len(&self) -> (r: usize)
        ensures
            r == self@.len(),
    {
        self.items.len()
    }
}

/// What an array holding `start` holds after `items` are appended one by
/// one, each call of `push` adding one element at the end.
pub open spec fn appended<T>(start: Seq<T>, items: Seq<T>) -> Seq<T>
    decreases items.len(),
{
    if items.len() == 0 {
        start
    } else {
        appended(start, items.drop_last()).push(items.last())
    }
}

/// Appending keeps the elements already stored where they are and puts each
/// appended item at the next position, whatever growth happens on the way.
pub proof fn lemma_appended_positions<T>(start: Seq<T>, items: Seq<T>)
    ensures
        appended(start, items).len() == start.len() + items.len(),
        forall|i: int| 0 <= i < start.len() ==> #[trigger] appended(start, items)[i] == start[i],
        forall|j: int|
            0 <= j < items.len() ==> #[trigger] appended(start, items)[start.len() + j] == items[j],
    decreases items.len(),
{
    if items.len() > 0 {
        lemma_appended_positions(start, items.drop_last());
        assert forall|j: int| 0 <= j < items.len() implies #[trigger] appended(start, items)[start.len()
            + j] == items[j] by {
            if j < items.len() - 1 {
                assert(appended(start, items.drop_last())[start.len() + j] == items.drop_last()[j]);
            }
        }
    }
}

/// After `n` appends to a new array, `len()` is `n`.
pub proof fn lemma_len_counts_appends<T>(items: Seq<T>)
    requires
        items.len() >= 1,
    ensures
        appended(Seq::<T>::empty(), items).len() == items.len(),
{
    lemma_appended_positions(Seq::<T>::empty(), items);
}

/// An array built by `new` and `push` holds no buffer while it is empty;
/// otherwise its capacity is the least of 4, 8, 16, 32, ... that holds its
/// elements.
pub proof fn lemma_capacity_is_least_growth_step<T>(v: &MyVec<T>)
    requires
        v.wf(),
    ensures
        v.spec_capacity() == 0 <==> v@.len() == 0,
        v@.len() > 0 ==> is_growth_step(v.spec_capacity()) && v@.len() <= v.spec_capacity(),
        forall|c: nat|
            v@.len() > 0 && #[trigger] is_growth_step(c) && v@.len() <= c ==> v.spec_capacity()
                <= c,
{
    lemma_tight_capacity_is_least(v@.len(), v.spec_capacity());
}

} // verus!
