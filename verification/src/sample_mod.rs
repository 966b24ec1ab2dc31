//! A miniature module in the shape the loader works with, small enough to
//! read at a glance.  A module crate carries items that belong only to its
//! implementation build next to items that belong only to its
//! consumer-facing build; the pairs of functions and enums here stand for
//! the two sides, and the test suite drives them.

use vstd::prelude::*;

verus! {

/// Stands for an item compiled only into a module's implementation build.
pub fn impl_only() {
}

/// Stands for an item compiled only into a module's consumer-facing build.
pub fn not_impl_only() {
}

/// An enum belonging to a module's implementation side.
pub enum ImplEnum {
    Variant1,
    Variant2,
}

impl ImplEnum {
    /// A fixed observation on the implementation-side enum.
    pub fn variant1(&self) -> (r: u32)
        ensures
            r == 23,
    {
        23
    }
}

/// An enum belonging to a module's consumer side.
pub enum NotImplEnum {
    Variant1,
    Variant2,
}

impl NotImplEnum {
    /// A fixed observation on the consumer-side enum.
    pub fn variant1(&self) -> (r: u32)
        ensures
            r == 23,
    {
        23
    }
}

} // verus!
