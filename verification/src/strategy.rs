//! The strategy handle: a boxed proptest strategy together with the ghost
//! shape of its bounded-recursion construction, and the trusted boundary to
//! proptest and to the type-erased form the registry stores.

use vstd::prelude::*;

use crate::recursive::Shape;

verus! {

#[verifier::external_type_specification]
#[verifier::external_body]
#[verifier::reject_recursive_types(T)]
pub struct ExSBoxedStrategy<T>(proptest::strategy::SBoxedStrategy<T>);

/// A type-erased, reference-counted strategy handle, the form in which the
/// registry stores strategies of many different value types side by side.
#[verifier::external_body]
pub struct RawEntry {
    inner: std::sync::Arc<dyn std::any::Any + Send + Sync>,
}

/// A strategy for values of type `T`, together with the ghost shape of its
/// bounded-recursion construction. Its view is that shape.
#[verifier::reject_recursive_types(T)]
pub struct Strat<T> {
    inner: proptest::strategy::SBoxedStrategy<T>,
    form: Ghost<Shape>,
}

impl<T> View for Strat<T> {
    type V = Shape;

    closed spec fn view(&self) -> Shape {
        self.form@
    }
}

/// Relies on proptest's `SBoxedStrategy::clone`: a reference-counted handle
/// to the same strategy.
#[verifier::external_body]
fn clone_sboxed<T>(s: &proptest::strategy::SBoxedStrategy<T>) -> (r: proptest::strategy::SBoxedStrategy<T>)
    ensures
        r == *s,
{
    s.clone()
}

/// Relies on proptest's `Union::new_weighted` and `Strategy::sboxed`: a
/// strategy that draws from `leaf` with relative weight `leaf_weight` and
/// from `branch` with relative weight `branch_weight`. `Union::new_weighted`
/// does not return on an empty option list, a zero weight, or a weight sum
/// above `u32::MAX`; the `requires` rules those out.
#[verifier::external_body]
fn weighted_union<T: core::fmt::Debug + 'static>(
    leaf_weight: u32,
    leaf: &proptest::strategy::SBoxedStrategy<T>,
    branch_weight: u32,
    branch: &proptest::strategy::SBoxedStrategy<T>,
) -> (r: proptest::strategy::SBoxedStrategy<T>)
    requires
        1 <= leaf_weight,
        1 <= branch_weight,
        leaf_weight as int + branch_weight as int <= u32::MAX as int,
{
    proptest::strategy::Strategy::sboxed(proptest::strategy::Union::new_weighted(vec![
        (leaf_weight, leaf.clone()),
        (branch_weight, branch.clone()),
    ]))
}

/// Relies on `std::sync::Arc::new`, with the unsizing coercion to `dyn Any`:
/// wraps a clone of the strategy as a type-erased, shareable value.
#[verifier::external_body]
fn erase<T: 'static>(s: &proptest::strategy::SBoxedStrategy<T>) -> (r: RawEntry) {
    RawEntry { inner: std::sync::Arc::new(s.clone()) }
}

/// Relies on `std::any::Any::downcast_ref`: hands the strategy back at type
/// `T` exactly when the erased value was made from a strategy for `T`, and
/// nothing otherwise.
#[verifier::external_body]
fn recover<T: 'static>(e: &RawEntry) -> (r: Option<proptest::strategy::SBoxedStrategy<T>>) {
    e.inner.downcast_ref::<proptest::strategy::SBoxedStrategy<T>>().map(|s| s.clone())
}

/// Relies on `std::sync::Arc::clone`: another handle to the same erased
/// strategy.
#[verifier::external_body]
pub(crate) fn raw_dup(e: &RawEntry) -> (r: RawEntry)
    ensures
        r == *e,
{
    RawEntry { inner: std::sync::Arc::clone(&e.inner) }
}

impl<T> Strat<T> {
    /// Wraps a boxed proptest strategy as a handle; its shape is a leaf.
    pub fn from_boxed(inner: proptest::strategy::SBoxedStrategy<T>) -> (r: Strat<T>)
        ensures
            r@ == Shape::Leaf,
    {
        Strat { inner, form: Ghost(Shape::Leaf) }
    }

    /// Hands the boxed proptest strategy back, giving up the handle.
    pub fn into_boxed(self) -> proptest::strategy::SBoxedStrategy<T> {
        self.inner
    }

    /// The same strategy under another ghost shape; used where a layer
    /// accounts a recursion-step result as one step around its argument.
    pub(crate) fn reshaped(self, form: Ghost<Shape>) -> (r: Strat<T>)
        ensures
            r@ == form@,
    {
        Strat { inner: self.inner, form }
    }
}

impl<T: 'static> Strat<T> {
    /// The type-erased form of this strategy, for the registry to store.
    pub(crate) fn to_raw(&self) -> RawEntry {
        erase(&self.inner)
    }

    /// The typed strategy back from its erased form, under the shape it was
    /// stored with; nothing when the erased value came from another type.
    pub(crate) fn from_raw(e: &RawEntry, form: Ghost<Shape>) -> (r: Option<Strat<T>>)
        ensures
            r matches Some(s) ==> s@ == form@,
    {
        match recover::<T>(e) {
            Some(inner) => Some(Strat { inner, form }),
            None => None,
        }
    }
}

impl<T: core::fmt::Debug + 'static> Strat<T> {
    /// The weighted choice of two strategies: the terminal alternative
    /// `leaf` with relative weight `leaf_weight`, the recursive alternative
    /// `branch` with relative weight `branch_weight`.
    pub(crate) fn combine_weighted(
        leaf: &Strat<T>,
        branch: &Strat<T>,
        leaf_weight: u32,
        branch_weight: u32,
    ) -> (r: Strat<T>)
        requires
            1 <= leaf_weight,
            1 <= branch_weight,
            leaf_weight as int + branch_weight as int <= u32::MAX as int,
        ensures
            r@ == (Shape::Choice {
                leaf_weight,
                branch_weight,
                leaf: Box::new(leaf@),
                branch: Box::new(branch@),
            }),
    {
        Strat {
            inner: weighted_union(leaf_weight, &leaf.inner, branch_weight, &branch.inner),
            form: Ghost(Shape::Choice {
                leaf_weight,
                branch_weight,
                leaf: Box::new(leaf@),
                branch: Box::new(branch@),
            }),
        }
    }
}

impl<T> Clone for Strat<T> {
    /// A reference-counted handle to the same strategy, with the same shape.
    fn clone(&self) -> (r: Self)
        ensures
            r@ == self@,
    {
        Strat { inner: clone_sboxed(&self.inner), form: Ghost(self@) }
    }
}

} // verus!
