//! A single-slot container whose value can be replaced by a function of
//! itself.
//!
//! `Cell::update` of the standard library needs a `Copy` type, and
//! `std::mem::take` needs a `Default`. An [`UpdateCell`] needs neither: the
//! value is moved out of the slot, handed to the transformation by value, and
//! what the transformation returns is moved back in. This suits builders and
//! other types whose methods consume `self`.
//!
//! ```text
//! let mut cell = UpdateCell::new(Builder::new());
//! cell.update(|b| b.verbose(true));
//! let builder = cell.into_inner();
//! ```
//!
//! If the transformation unwinds, the value is lost and the slot stays empty;
//! `update` and `into_inner` panic on an empty slot. Verified callers cannot
//! get there: both operations require [`UpdateCell::is_occupied`], which
//! `new` establishes and every `update` that returns re-establishes.

use vstd::prelude::*;

verus! {

/// A slot that owns one value of type `T`.
///
/// The field is an `Option` only so that the value can be moved out for the
/// duration of an update. A slot is `None` only while the transformation
/// runs, or after it has unwound.
pub struct UpdateCell<T> {
    value: Option<T>,
}

impl<T> View for UpdateCell<T> {
    type V = T;

    /// The value that the cell holds. Meaningful for occupied cells only.
    closed spec fn view(&self) -> T {
        self.value->0
    }
}

impl<T> UpdateCell<T> {
    /// The slot is filled.
    pub closed spec fn is_occupied(&self) -> bool {
        self.value is Some
    }

    /// The cell that [`UpdateCell::new`] makes of `val`.
    pub closed spec fn spec_new(val: T) -> Self {
        UpdateCell { value: Some(val) }
    }

    /// The cell that an update leaves behind when the transformation maps
    /// each value `x` to `f(x)`.
    pub open spec fn spec_update(self, f: spec_fn(T) -> T) -> Self {
        Self::spec_new(f(self@))
    }

    /// `func` is deterministic, and `f` says what it returns: whatever `func`
    /// may return for an input `x` is `f(x)`.
    pub open spec fn computes<F: FnOnce(T) -> T>(func: F, f: spec_fn(T) -> T) -> bool {
        forall|x: T, y: T| #[trigger] call_ensures(func, (x,), y) ==> y == f(x)
    }

    /// Creates a cell that owns `val`.
    pub fn new(val: T) -> (cell: Self)
        ensures
            cell == Self::spec_new(val),
            cell.is_occupied(),
            cell@ == val,
    {
        UpdateCell { value: Some(val) }
    }

    /// Replaces the held value by what `func` makes of it.
    ///
    /// The value is moved out of the slot, passed to `func` by value, and the
    /// result is moved back in. `func` is called exactly once, on the value
    /// held before the call, so the new value is one that `func` may return
    /// for it. Where `func` computes a function `f`, the cell is afterwards
    /// the one that [`UpdateCell::spec_update`] describes.
    pub fn update<F: FnOnce(T) -> T>(&mut self, func: F)
        requires
            old(self).is_occupied(),
            call_requires(func, (old(self)@,)),
        ensures
            final(self).is_occupied(),
            call_ensures(func, (old(self)@,), final(self)@),
            forall|f: spec_fn(T) -> T| #[trigger]
                Self::computes(func, f) ==> *final(self) == old(self).spec_update(f),
    {
        let val = self.value.take().unwrap();
        self.value = Some(func(val));
    }

    /// Gives up the cell for the value it holds.
    pub fn into_inner(self) -> (val: T)
        requires
            self.is_occupied(),
        ensures
            val == self@,
    {
        self.value.unwrap()
    }

    /// Round trip: the cell made of `v` is occupied and holds `v`, so
    /// consuming it straight away gives `v` back.
    pub proof fn lemma_round_trip(v: T)
        ensures
            Self::spec_new(v).is_occupied(),
            Self::spec_new(v)@ == v,
    {
    }

    /// The slot is never seen empty: the cell that `new` makes is occupied,
    /// and so is the cell that any update leaves, whatever cell it started
    /// from and whatever the transformation.
    pub proof fn lemma_always_occupied(v: T, cell: Self, f: spec_fn(T) -> T)
        ensures
            Self::spec_new(v).is_occupied(),
            cell.spec_update(f).is_occupied(),
    {
    }

    /// A single update applies the transformation exactly once: the cell made
    /// of `v` and updated by `f` holds `f(v)`.
    pub proof fn lemma_update_applies_once(v: T, f: spec_fn(T) -> T)
        ensures
            Self::spec_new(v).spec_update(f).is_occupied(),
            Self::spec_new(v).spec_update(f)@ == f(v),
    {
    }

    /// Updates compose: updating by `f` and then by `g` leaves the cell that
    /// one update by `g` after `f` leaves, and starting from the cell made of
    /// `v` that cell holds `g(f(v))`.
    pub proof fn lemma_updates_compose(v: T, f: spec_fn(T) -> T, g: spec_fn(T) -> T)
        ensures
            Self::spec_new(v).spec_update(f).spec_update(g)@ == g(f(v)),
            Self::spec_new(v).spec_update(f).spec_update(g) == Self::spec_new(v).spec_update(
                |x: T| g(f(x)),
            ),
    {
    }
}

} // verus!
