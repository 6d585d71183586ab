//! A wrapper that never finalizes its value implicitly.
//!
//! `Undroppable<T, S>` owns one value of type `T`. When a wrapper simply goes
//! out of scope, the wrapped value's own finalizer does not run. The value has
//! to be handed back with `into_inner`, finalized on purpose with
//! `Undroppable::drop`, or leaked on purpose with `forget`.
//!
//! The tag `S` is a type-level constant. The operations above, and access to
//! the wrapped value through `Deref` / `DerefMut`, exist only for the
//! instantiation whose tag is `MAGIC`. Using any of them with another tag does
//! not compile. Constructing a wrapper, and letting it go out of scope, works
//! for every tag.
use core::mem::ManuallyDrop;
use core::ops::{Deref, DerefMut};
use vstd::prelude::*;
use vstd::std_specs::manually_drop::ManuallyDropAdditionalFns;

verus! {

/// The one tag under which the wrapped value can be reached: the code point
/// of the umbrella-with-rain-drops character.
pub const MAGIC: u32 = 0x2614;

/// Relies on core::mem::forget: it takes ownership of its argument and never
/// runs its finalizer. Nothing is stated of a result, as there is none.
pub assume_specification<T>[ core::mem::forget::<T> ](t: T);

/// Relies on `DerefMut` for `ManuallyDrop`: the returned reference is the
/// wrapped value itself, so what is written through it is what the
/// `ManuallyDrop` holds afterwards.
pub assume_specification<T: ?Sized>[ <ManuallyDrop<T> as DerefMut>::deref_mut ](
    m: &mut ManuallyDrop<T>,
) -> (r: &mut T)
    ensures
        &*r == old(m).view_ref(),
        &*final(r) == final(m).view_ref(),
;

/// Holds exactly one value of type `T`; the tag `S` takes no space.
pub struct Undroppable<T, const S: u32>(ManuallyDrop<T>);

impl<T, const S: u32> View for Undroppable<T, S> {
    type V = T;

    /// The wrapped value.
    closed spec fn view(&self) -> T {
        self.0@
    }
}

impl<T, const S: u32> Undroppable<T, S> {
    /// Wrap a value. Works for every tag.
    pub fn new(value: T) -> (r: Self)
        ensures
            r@ == value,
    {
        Undroppable(ManuallyDrop::new(value))
    }
}

impl<T> Undroppable<T, MAGIC> {
    /// Finalize the wrapped value now, exactly once; the wrapper is consumed.
    pub fn drop(this: Self) {
        let inner: T = ManuallyDrop::into_inner(this.0);
        // `inner` is finalized here, as it goes out of scope.
    }

    /// Leak the wrapped value on purpose: nothing is finalized.
    pub fn forget(this: Self) {
        core::mem::forget(this);
    }

    /// Move the wrapped value out to the caller.
    pub fn into_inner(this: Self) -> (r: T)
        ensures
            r == this@,
    {
        ManuallyDrop::into_inner(this.0)
    }
}

impl<T> Deref for Undroppable<T, MAGIC> {
    type Target = T;

    /// Read access to the wrapped value.
    fn deref(&self) -> (r: &T)
        ensures
            *r == self@,
    {
        self.0.deref()
    }
}

impl<T> DerefMut for Undroppable<T, MAGIC> {
    /// Write access to the wrapped value: what is written through the
    /// reference is what the wrapper holds afterwards.
    fn deref_mut(&mut self) -> (r: &mut T)
        ensures
            *r == old(self)@,
            *final(r) == final(self)@,
    {
        self.0.deref_mut()
    }
}

/// Round trip: wrapping a value `v` (`new` gives a wrapper whose view is `v`)
/// and then extracting it (`into_inner` gives the view back) yields `v`.
pub proof fn lemma_round_trip<T>(v: T, w: Undroppable<T, MAGIC>, out: T)
    requires
        w@ == v,
        out == w@,
    ensures
        out == v,
{
}

/// Pass-through access reaches the wrapped value itself: once `x` has been
/// written through `deref_mut` (leaving the wrapper `after`), a later `deref`
/// reads `x`, and `into_inner` hands back `x`.
pub proof fn lemma_write_is_seen<T>(after: Undroppable<T, MAGIC>, x: T, read: T, out: T)
    requires
        x == after@,
        read == after@,
        out == after@,
    ensures
        read == x,
        out == x,
{
}

} // verus!
