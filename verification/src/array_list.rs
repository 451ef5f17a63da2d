use vstd::prelude::*;

use crate::error::ErrorKind;
use crate::model::{capacity_after_add, entry, grown_capacity};

verus! {

/// A growable array. It owns a buffer of `capacity()` slots, of which the
/// first `len()` hold its elements, in order.
pub struct ArrayList<T> {
    items: Vec<T>,
    capacity: usize,
}

impl<T> View for ArrayList<T> {
    type V = Seq<T>;

    /// The elements, in index order.
    closed spec fn view(&self) -> Seq<T> {
        self.items@
    }
}

impl<T> ArrayList<T> {
    /// The number of slots of the buffer.
    pub closed spec fn capacity(&self) -> nat {
        self.capacity as nat
    }

    /// The invariant of the container: the elements fit in the buffer.
    /// `new` establishes it and every operation keeps it.
    pub open spec fn well_formed(&self) -> bool {
        self@.len() <= self.capacity()
    }

    /// An empty container, with no slot allocated.
    pub fn new() -> (list: ArrayList<T>)
        ensures
            list.well_formed(),
            list@ == Seq::<T>::empty(),
            list.capacity() == 0,
    {
        ArrayList { items: Vec::with_capacity(0), capacity: 0 }
    }

    /// The number of elements.
    pub fn len(&self) -> (n: usize)
        ensures
            n == self@.len(),
    {
        self.items.len()
    }

    /// The element at index `i`, or `None` when `i` is not below the length.
    pub fn get(&self, i: usize) -> (r: Option<&T>)
        ensures
            match r {
                Some(item) => entry(self@, i as int) == Some(*item),
                None => entry(self@, i as int) is None,
            },
    {
        self.items.get(i)
    }

    /// Appends `item` behind the last element. A full container first moves
    /// to a buffer of `grown_capacity` slots.
    pub fn add(&mut self, item: T)
        requires
            old(self).well_formed(),
            capacity_after_add(old(self)@.len(), old(self).capacity()) <= usize::MAX,
        ensures
            final(self).well_formed(),
            final(self)@ == old(self)@.push(item),
            final(self).capacity() == capacity_after_add(old(self)@.len(), old(self).capacity()),
    {
        if self.items.len() == self.capacity {
            self.resize();
        }
        self.items.push(item);
    }

    /// Takes the element at `index` out and moves each later element one
    /// index down. An index that is not below the length is refused and
    /// changes nothing.
    pub fn remove(&mut self, index: usize) -> (r: Result<T, ErrorKind>)
        ensures
            old(self).well_formed() ==> final(self).well_formed(),
            index < old(self)@.len() ==> {
                &&& r == Ok::<T, ErrorKind>(old(self)@[index as int])
                &&& final(self)@ == old(self)@.remove(index as int)
                &&& final(self)@.len() == old(self)@.len() - 1
                &&& forall|j: int|
                    0 <= j < index ==> #[trigger] final(self)@[j] == old(self)@[j]
                &&& forall|j: int|
                    index <= j < final(self)@.len()
                        ==> #[trigger] final(self)@[j] == old(self)@[j + 1]
            },
            index >= old(self)@.len() ==> r == Err::<T, ErrorKind>(ErrorKind::IndexOutOfBounds)
                && final(self)@ == old(self)@,
            final(self).capacity() == old(self).capacity(),
    {
        if index < self.items.len() {
            let item = self.items.remove(index);
            Ok(item)
        } else {
            Err(ErrorKind::IndexOutOfBounds)
        }
    }

    /// Puts `item` in place of the element at `index`. An index that is not
    /// below the length is refused and changes nothing.
    pub fn set(&mut self, index: usize, item: T) -> (r: Result<(), ErrorKind>)
        ensures
            old(self).well_formed() ==> final(self).well_formed(),
            index < old(self)@.len() ==> r == Ok::<(), ErrorKind>(())
                && final(self)@ == old(self)@.update(index as int, item),
            index >= old(self)@.len() ==> r == Err::<(), ErrorKind>(ErrorKind::IndexOutOfBounds)
                && final(self)@ == old(self)@,
            final(self).capacity() == old(self).capacity(),
    {
        if index < self.items.len() {
            self.items[index] = item;
            Ok(())
        } else {
            Err(ErrorKind::IndexOutOfBounds)
        }
    }

    /// A growth event: moves every element, in order, into a new buffer of
    /// `grown_capacity` slots, which replaces the old one.
    fn resize(&mut self)
        requires
            old(self).well_formed(),
            grown_capacity(old(self).capacity()) <= usize::MAX,
        ensures
            final(self).well_formed(),
            final(self)@ == old(self)@,
            final(self).capacity() == grown_capacity(old(self).capacity()),
    {
        let new_capacity: usize = if self.capacity == 0 {
            1
        } else {
            self.capacity * 2
        };
        let mut new_items: Vec<T> = Vec::with_capacity(new_capacity);
        new_items.append(&mut self.items);
        self.items = new_items;
        self.capacity = new_capacity;
    }
}

impl<T> Default for ArrayList<T> {
    /// The empty container.
    fn default() -> (list: ArrayList<T>)
        ensures
            list.well_formed(),
            list@ == Seq::<T>::empty(),
            list.capacity() == 0,
    {
        ArrayList::new()
    }
}

} // verus!
