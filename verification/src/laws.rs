//! What holds of the operations taken together, proved over the model.

use vstd::prelude::*;

use crate::model::{add_each, capacity_after_add, capacity_after_adds, entry};

verus! {

/// Appending values one at a time keeps what was there and puts the new
/// values behind it in the order in which they were appended.
pub proof fn adds_keep_order<T>(contents: Seq<T>, items: Seq<T>)
    ensures
        add_each(contents, items) == contents + items,
    decreases items.len(),
{
    if items.len() == 0 {
        assert(contents + items =~= contents);
    } else {
        adds_keep_order(contents.push(items.first()), items.drop_first());
        assert(contents.push(items.first()) + items.drop_first() =~= contents + items);
    }
}

/// After `n` appends to an empty container its length is `n`, and a read at
/// each index below `n` yields the value that was appended at that turn.
pub proof fn adds_from_empty<T>(items: Seq<T>)
    ensures
        add_each(Seq::<T>::empty(), items).len() == items.len(),
        forall|i: int|
            0 <= i < items.len() ==> #[trigger] entry(add_each(Seq::<T>::empty(), items), i)
                == Some(items[i]),
{
    adds_keep_order(Seq::<T>::empty(), items);
    assert(Seq::<T>::empty() + items =~= items);
}

/// One append never lowers the capacity and leaves room for the new element.
pub proof fn add_keeps_room(len: nat, capacity: nat)
    requires
        len <= capacity,
    ensures
        capacity <= capacity_after_add(len, capacity),
        len + 1 <= capacity_after_add(len, capacity),
{
}

/// Growth loses and reorders nothing: however many growth events a run of
/// appends sets off, the capacity never falls, it covers the new length, and
/// a read at each index yields the element that was there before the run or,
/// behind those, the appended values in order.
pub proof fn growth_keeps_elements<T>(contents: Seq<T>, capacity: nat, items: Seq<T>)
    requires
        contents.len() <= capacity,
    ensures
        capacity <= capacity_after_adds(contents.len(), capacity, items.len()),
        contents.len() + items.len() <= capacity_after_adds(
            contents.len(),
            capacity,
            items.len(),
        ),
        add_each(contents, items).len() == contents.len() + items.len(),
        forall|i: int|
            0 <= i < contents.len()
                ==> #[trigger] entry(add_each(contents, items), i) == Some(contents[i]),
        forall|i: int|
            0 <= i < items.len() ==> entry(add_each(contents, items), contents.len() + i)
                == Some(#[trigger] items[i]),
{
    adds_keep_order(contents, items);
    capacity_covers_adds(contents.len(), capacity, items.len());
}

/// A run of `n` appends never lowers the capacity and ends with room for all
/// `len + n` elements.
pub proof fn capacity_covers_adds(len: nat, capacity: nat, n: nat)
    requires
        len <= capacity,
    ensures
        capacity <= capacity_after_adds(len, capacity, n),
        len + n <= capacity_after_adds(len, capacity, n),
    decreases n,
{
    if n > 0 {
        add_keeps_room(len, capacity);
        capacity_covers_adds(len + 1, capacity_after_add(len, capacity), (n - 1) as nat);
    }
}

/// A read at an overwritten index yields the new value; reads at the other
/// indices, and the length, are as before.
pub proof fn set_then_get<T>(contents: Seq<T>, index: int, item: T)
    requires
        0 <= index < contents.len(),
    ensures
        entry(contents.update(index, item), index) == Some(item),
        contents.update(index, item).len() == contents.len(),
        forall|j: int|
            j != index
                ==> #[trigger] entry(contents.update(index, item), j) == entry(contents, j),
{
}

/// After a removal at `index`, reads below `index` are as before, and a read
/// at `index` or above yields what stood one index higher.
pub proof fn remove_then_get<T>(contents: Seq<T>, index: int)
    requires
        0 <= index < contents.len(),
    ensures
        contents.remove(index).len() == contents.len() - 1,
        forall|j: int|
            j < index ==> #[trigger] entry(contents.remove(index), j) == entry(contents, j),
        forall|j: int|
            index <= j ==> #[trigger] entry(contents.remove(index), j) == entry(contents, j + 1),
{
}

} // verus!
