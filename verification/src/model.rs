//! The mathematical model of the container: its contents are a `Seq<T>`,
//! its capacity a natural number that is never below the length.

use vstd::prelude::*;

verus! {

/// The capacity that a growth event moves to: twice the current one, and at
/// least one slot.
pub open spec fn grown_capacity(capacity: nat) -> nat {
    if capacity == 0 {
        1
    } else {
        2 * capacity
    }
}

/// The capacity after one append to a container of `len` elements: it grows
/// exactly when the container is full.
pub open spec fn capacity_after_add(len: nat, capacity: nat) -> nat {
    if len == capacity {
        grown_capacity(capacity)
    } else {
        capacity
    }
}

/// What a read at index `i` yields: the element there, or nothing when `i`
/// is not below the length.
pub open spec fn entry<T>(contents: Seq<T>, i: int) -> Option<T> {
    if 0 <= i < contents.len() {
        Some(contents[i])
    } else {
        None
    }
}

/// The contents after appending the elements of `items` one at a time,
/// first to last.
pub open spec fn add_each<T>(contents: Seq<T>, items: Seq<T>) -> Seq<T>
    decreases items.len(),
{
    if items.len() == 0 {
        contents
    } else {
        add_each(contents.push(items.first()), items.drop_first())
    }
}

/// The capacity after `n` appends to a container of `len` elements.
pub open spec fn capacity_after_adds(len: nat, capacity: nat, n: nat) -> nat
    decreases n,
{
    if n == 0 {
        capacity
    } else {
        capacity_after_adds(len + 1, capacity_after_add(len, capacity), (n - 1) as nat)
    }
}

} // verus!
