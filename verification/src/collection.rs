//! The persistent vector that holds the boxes, and what is taken on trust of it.
//!
//! The vector comes from the `im` crate and is opaque to the verifier. Its
//! contents are named by [`boxes_of`]; each operation used on it has one
//! unverified function below whose contract says, over that name, what the
//! operation does.

use vstd::prelude::*;
use crate::test_box::TestBox;

verus! {

/// `im::Vector`, made known so that it can stand in fields and signatures.
/// Nothing inside a value of it is visible to the verifier.
#[verifier::external_type_specification]
#[verifier::external_body]
#[verifier::reject_recursive_types(A)]
pub struct ExVector<A>(im::Vector<A>);

/// The boxes held by a vector, from front to back.
pub uninterp spec fn boxes_of(v: im::Vector<TestBox>) -> Seq<TestBox>;

/// `im::Vector::new`: the result holds nothing.
#[verifier::external_body]
pub(crate) fn empty() -> (v: im::Vector<TestBox>)
    ensures
        boxes_of(v) == Seq::<TestBox>::empty(),
{
    im::Vector::new()
}

/// `im::Vector::clone`: the copy holds the same boxes in the same order.
#[verifier::external_body]
pub(crate) fn duplicate(v: &im::Vector<TestBox>) -> (copy: im::Vector<TestBox>)
    ensures
        boxes_of(copy) == boxes_of(*v),
{
    v.clone()
}

/// `im::Vector::len`: the number of boxes held.
#[verifier::external_body]
pub(crate) fn len(v: &im::Vector<TestBox>) -> (n: usize)
    ensures
        n == boxes_of(*v).len(),
{
    v.len()
}

/// `im::Vector::push_back`: the box is added behind all the others, which
/// stay as they are. The vector must have room for one more.
#[verifier::external_body]
pub(crate) fn push_back(v: &mut im::Vector<TestBox>, value: TestBox)
    requires
        boxes_of(*old(v)).len() < usize::MAX,
    ensures
        boxes_of(*final(v)) == boxes_of(*old(v)).push(value),
{
    v.push_back(value)
}

/// Indexing an `im::Vector` with a `usize`: the box at `index`, which must be
/// in bounds.
#[verifier::external_body]
pub(crate) fn at(v: &im::Vector<TestBox>, index: usize) -> (found: &TestBox)
    requires
        index < boxes_of(*v).len(),
    ensures
        *found == boxes_of(*v)[index as int],
{
    &v[index]
}

/// `im::Vector::set`: the box at `index` is replaced by `value` and handed
/// back; every other position keeps its box. The index must be in bounds.
#[verifier::external_body]
pub(crate) fn set(v: &mut im::Vector<TestBox>, index: usize, value: TestBox) -> (previous: TestBox)
    requires
        index < boxes_of(*old(v)).len(),
    ensures
        previous == boxes_of(*old(v))[index as int],
        boxes_of(*final(v)) == boxes_of(*old(v)).update(index as int, value),
{
    v.set(index, value)
}

} // verus!
