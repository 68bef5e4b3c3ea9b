//! Observed state: cells that report every explicit update to an updater.
//!
//! The cells live in a [`Store`]; a [`State`] is a handle that holds the index of
//! one of them. Handles can be cloned freely and all clones hold the same index, so
//! a value stored through one of them is what the others read from the same store.

use std::marker::PhantomData;
use crate::value::share;
use std::rc::Rc;
use vstd::prelude::*;

pub mod updater;

verus! {

/// The registry that owns the cells of every [`State`] created in it.
///
/// The view of a store is the sequence of its cells' current values; a cell is
/// never removed, so the slot of a handle made in a store stays in range of it.
pub struct Store<T> {
    cells: Vec<T>,
}

impl<T> View for Store<T> {
    type V = Seq<T>;

    closed spec fn view(&self) -> Seq<T> {
        self.cells@
    }
}

impl<T> Store<T> {
    /// A store without any cell.
    pub fn new() -> (store: Self)
        ensures
            store@ == Seq::<T>::empty(),
    {
        Store { cells: Vec::new() }
    }

    /// The number of cells created so far.
    pub fn len(&self) -> (count: usize)
        ensures
            count == self@.len(),
    {
        self.cells.len()
    }
}

impl<T> Default for Store<T> {
    fn default() -> (store: Self)
        ensures
            store@ == Seq::<T>::empty(),
    {
        Store::new()
    }
}

/// Whether `updater` may be called with every pair of values.
pub open spec fn accepts_every_update<T, U: Fn(&T, &T)>(updater: U) -> bool {
    forall|old_value: T, new_value: T| call_requires(updater, (&old_value, &new_value))
}

/// A handle to an observed cell: the slot of a value in a [`Store`] together with the
/// updater that is told of every [`State::set`] made through this handle.
///
/// Cloning a handle shares the cell: all clones read and write the same value of
/// the store they are used with.
pub struct State<T, U: Fn(&T, &T) = fn(&T, &T)> {
    slot: usize,
    updater: Rc<U>,
    marker: PhantomData<T>,
}

impl<T, U: Fn(&T, &T)> State<T, U> {
    /// The index this handle holds: the place of its cell among a store's cells.
    pub closed spec fn slot(&self) -> int {
        self.slot as int
    }

    /// The updater this handle currently notifies.
    pub closed spec fn updater(&self) -> U {
        *self.updater
    }

    #[verifier::type_invariant]
    spec fn updater_is_total(self) -> bool {
        accepts_every_update::<T, U>(*self.updater)
    }

    /// Whether this handle's slot is the index of a cell of `store`.
    ///
    /// This is a test on the index alone. A handle keeps no record of the store that
    /// made it: used with another store that has enough cells, it denotes the cell
    /// of that store at the same index.
    pub open spec fn in_range(&self, store: &Store<T>) -> bool {
        0 <= self.slot() < store@.len()
    }

    /// Whether the two handles hold the same slot, and so denote the same cell of
    /// any one store.
    pub open spec fn same_slot_as(&self, other: &Self) -> bool {
        self.slot() == other.slot()
    }

    /// What a read through this handle returns when the cells hold `cells`.
    pub open spec fn read(&self, cells: Seq<T>) -> T {
        cells[self.slot()]
    }

    /// The cells after `new` was stored through this handle.
    pub open spec fn written(&self, cells: Seq<T>, new: T) -> Seq<T> {
        cells.update(self.slot(), new)
    }

    /// Create a state with an inner value and an updater, in a fresh cell of `store`.
    pub fn new(store: &mut Store<T>, inner: T, updater: U) -> (state: Self)
        requires
            accepts_every_update::<T, U>(updater),
        ensures
            final(store)@ == old(store)@.push(inner),
            state.slot() == old(store)@.len(),
            state.updater() == updater,
    {
        let slot = store.cells.len();
        store.cells.push(inner);
        State { slot, updater: Rc::new(updater), marker: PhantomData }
    }

    /// Tells whether this handle's slot is the index of a cell of `store`; it
    /// cannot tell whether `store` is the store the handle was made in.
    pub fn is_in_range(&self, store: &Store<T>) -> (yes: bool)
        ensures
            yes == self.in_range(store),
    {
        self.slot < store.cells.len()
    }

    /// Change the updater of this handle. The previous updater is dropped, not chained;
    /// the cell and the other handles are untouched.
    pub fn subscribe(&mut self, updater: U)
        requires
            accepts_every_update::<T, U>(updater),
        ensures
            final(self).slot() == old(self).slot(),
            final(self).updater() == updater,
    {
        self.updater = Rc::new(updater);
    }

    /// Borrow the inner value.
    pub fn inner<'a>(&self, store: &'a Store<T>) -> (value: &'a T)
        requires
            self.in_range(store),
        ensures
            *value == self.read(store@),
    {
        &store.cells[self.slot]
    }

    /// Mutably borrow the inner value. Writing through the borrow changes the cell
    /// and does not involve the updater.
    pub fn inner_mut<'a>(&self, store: &'a mut Store<T>) -> (value: &'a mut T)
        requires
            self.in_range(old(store)),
        ensures
            *value == self.read(old(store)@),
            final(store)@ == self.written(old(store)@, *final(value)),
    {
        &mut store.cells[self.slot]
    }

    /// Update the inner value, then invoke the updater with the previous and the new value.
    pub fn set(&self, store: &mut Store<T>, new: T)
        requires
            self.in_range(old(store)),
        ensures
            final(store)@ == self.written(old(store)@, new),
            call_ensures(self.updater(), (&self.read(old(store)@), &new), ()),
    {
        proof {
            use_type_invariant(self);
        }
        let mut previous = new;
        std::mem::swap(&mut store.cells[self.slot], &mut previous);
        (self.updater)(&previous, &store.cells[self.slot]);
    }
}

impl<T, U: Fn(&T, &T)> Clone for State<T, U> {
    /// Another handle with the same slot, notifying the same updater.
    fn clone(&self) -> (other: Self)
        ensures
            other.same_slot_as(self),
            other.updater() == self.updater(),
    {
        proof {
            use_type_invariant(self);
        }
        State { slot: self.slot, updater: share(&self.updater), marker: PhantomData }
    }
}

/// A value stored through one handle is what every handle with the same slot, such
/// as a clone of it, reads next from the same cells.
pub proof fn lemma_set_is_seen_through_every_handle<T, U: Fn(&T, &T)>(
    writer: State<T, U>,
    reader: State<T, U>,
    cells: Seq<T>,
    new: T,
)
    requires
        writer.same_slot_as(&reader),
        0 <= writer.slot() < cells.len(),
    ensures
        reader.read(writer.written(cells, new)) == new,
{
}

/// A value stored through one handle leaves the cells at all other slots as they were.
pub proof fn lemma_set_leaves_other_cells<T, U: Fn(&T, &T)>(
    writer: State<T, U>,
    reader: State<T, U>,
    cells: Seq<T>,
    new: T,
)
    requires
        !writer.same_slot_as(&reader),
        0 <= writer.slot() < cells.len(),
        0 <= reader.slot() < cells.len(),
    ensures
        reader.read(writer.written(cells, new)) == reader.read(cells),
{
}

} // verus!
