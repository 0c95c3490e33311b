//! Fixed-capacity vectors from `heapless`, as the driver uses them.
//!
//! `heapless::Vec<T, N>` stores at most `N` items inline. Its contents are
//! named per item type below; each wrapper states, over that name, what the
//! `heapless` source does: `new` starts empty, `push` appends while fewer than
//! `N` items are held and otherwise hands the item back unchanged, and
//! `as_slice` exposes the held items in order.

use crate::api::setup::PreparedBinding;
use crate::backend::BackendChannelSpec;
use crate::DRIVER_MAX_CHANNELS;
use vstd::prelude::*;

verus! {

#[verifier::external_type_specification]
#[verifier::external_body]
#[verifier::reject_recursive_types(T)]
pub struct ExHeaplessVec<T, const N: usize>(heapless::Vec<T, N>);

/// Backend channel specs held by a fixed-capacity vector, in push order.
pub uninterp spec fn held_specs(v: heapless::Vec<BackendChannelSpec, DRIVER_MAX_CHANNELS>) -> Seq<BackendChannelSpec>;

/// Prepared bindings held by a fixed-capacity vector, in push order.
pub uninterp spec fn held_bindings(v: heapless::Vec<PreparedBinding, DRIVER_MAX_CHANNELS>) -> Seq<PreparedBinding>;

/// Slot indices held by a fixed-capacity vector, in push order.
pub uninterp spec fn held_indices(v: heapless::Vec<usize, DRIVER_MAX_CHANNELS>) -> Seq<usize>;

/// `heapless::Vec::new`: an empty vector.
#[verifier::external_body]
pub(crate) fn spec_list_new() -> (v: heapless::Vec<BackendChannelSpec, DRIVER_MAX_CHANNELS>)
    ensures
        held_specs(v) == Seq::<BackendChannelSpec>::empty(),
{
    heapless::Vec::new()
}

/// `heapless::Vec::push`: appends below capacity, else hands the item back.
#[verifier::external_body]
pub(crate) fn spec_list_push(v: &mut heapless::Vec<BackendChannelSpec, DRIVER_MAX_CHANNELS>, item: BackendChannelSpec) -> (r: Result<(), BackendChannelSpec>)
    ensures
        held_specs(*old(v)).len() < DRIVER_MAX_CHANNELS ==> r is Ok,
        held_specs(*old(v)).len() < DRIVER_MAX_CHANNELS ==> held_specs(*final(v)) == held_specs(*old(v)).push(item),
        held_specs(*old(v)).len() >= DRIVER_MAX_CHANNELS ==> r is Err,
        held_specs(*old(v)).len() >= DRIVER_MAX_CHANNELS ==> r->Err_0 == item,
        held_specs(*old(v)).len() >= DRIVER_MAX_CHANNELS ==> held_specs(*final(v)) == held_specs(*old(v)),
{
    v.push(item)
}

/// `heapless::Vec::as_slice`: the held items in order.
#[verifier::external_body]
pub(crate) fn spec_list_as_slice(v: &heapless::Vec<BackendChannelSpec, DRIVER_MAX_CHANNELS>) -> (r:
    &[BackendChannelSpec])
    ensures
        r@ == held_specs(*v),
{
    v.as_slice()
}

/// `heapless::Vec::new`: an empty vector.
#[verifier::external_body]
pub(crate) fn binding_list_new() -> (v: heapless::Vec<PreparedBinding, DRIVER_MAX_CHANNELS>)
    ensures
        held_bindings(v) == Seq::<PreparedBinding>::empty(),
{
    heapless::Vec::new()
}

/// `heapless::Vec::push`: appends below capacity, else hands the item back.
#[verifier::external_body]
pub(crate) fn binding_list_push(v: &mut heapless::Vec<PreparedBinding, DRIVER_MAX_CHANNELS>, item: PreparedBinding) -> (r: Result<(), PreparedBinding>)
    ensures
        held_bindings(*old(v)).len() < DRIVER_MAX_CHANNELS ==> r is Ok,
        held_bindings(*old(v)).len() < DRIVER_MAX_CHANNELS ==> held_bindings(*final(v)) == held_bindings(*old(v)).push(item),
        held_bindings(*old(v)).len() >= DRIVER_MAX_CHANNELS ==> r is Err,
        held_bindings(*old(v)).len() >= DRIVER_MAX_CHANNELS ==> r->Err_0 == item,
        held_bindings(*old(v)).len() >= DRIVER_MAX_CHANNELS ==> held_bindings(*final(v)) == held_bindings(*old(v)),
{
    v.push(item)
}

/// `heapless::Vec::as_slice`: the held items in order.
#[verifier::external_body]
pub(crate) fn binding_list_as_slice(v: &heapless::Vec<PreparedBinding, DRIVER_MAX_CHANNELS>) -> (r:
    &[PreparedBinding])
    ensures
        r@ == held_bindings(*v),
{
    v.as_slice()
}

/// `heapless::Vec::new`: an empty vector.
#[verifier::external_body]
pub(crate) fn index_list_new() -> (v: heapless::Vec<usize, DRIVER_MAX_CHANNELS>)
    ensures
        held_indices(v) == Seq::<usize>::empty(),
{
    heapless::Vec::new()
}

/// `heapless::Vec::push`: appends below capacity, else hands the item back.
#[verifier::external_body]
pub(crate) fn index_list_push(v: &mut heapless::Vec<usize, DRIVER_MAX_CHANNELS>, item: usize) -> (r: Result<(), usize>)
    ensures
        held_indices(*old(v)).len() < DRIVER_MAX_CHANNELS ==> r is Ok,
        held_indices(*old(v)).len() < DRIVER_MAX_CHANNELS ==> held_indices(*final(v)) == held_indices(*old(v)).push(item),
        held_indices(*old(v)).len() >= DRIVER_MAX_CHANNELS ==> r is Err,
        held_indices(*old(v)).len() >= DRIVER_MAX_CHANNELS ==> r->Err_0 == item,
        held_indices(*old(v)).len() >= DRIVER_MAX_CHANNELS ==> held_indices(*final(v)) == held_indices(*old(v)),
{
    v.push(item)
}

/// `heapless::Vec::as_slice`: the held items in order.
#[verifier::external_body]
pub(crate) fn index_list_as_slice(v: &heapless::Vec<usize, DRIVER_MAX_CHANNELS>) -> (r: &[usize])
    ensures
        r@ == held_indices(*v),
{
    v.as_slice()
}

} // verus!
