//! The process-wide error callback slot, replaced atomically as a whole.

use vstd::prelude::*;

verus! {

/// The address of the caller's error-reporting function. The embedding
/// program turns it back into a function pointer when it reports an error.
pub type ErrorCallback = usize;

/// The slot of the registered error callback: an `arc_swap::ArcSwap` cell.
///
/// Trusted: the cell's default strategy type cannot be named from outside its
/// crate, so the cell is kept behind this struct and reached only through the
/// three functions below.
#[verifier::external_body]
pub struct CallbackSlot {
    cell: arc_swap::ArcSwap<Option<usize>>,
}

/// The callback the slot holds, if any.
pub uninterp spec fn held(slot: CallbackSlot) -> Option<usize>;

/// Makes a slot that holds `value`.
///
/// Trusted: calls `ArcSwap::from_pointee`, which builds a cell around the
/// given value.
#[verifier::external_body]
pub(crate) fn slot_new(value: Option<usize>) -> (slot: CallbackSlot)
    ensures
        held(slot) == value,
{
    CallbackSlot { cell: arc_swap::ArcSwap::from_pointee(value) }
}

/// Replaces what the slot holds by `value`.
///
/// Trusted: calls `ArcSwapAny::store`, after which loads yield the new value.
#[verifier::external_body]
pub(crate) fn slot_store(slot: &mut CallbackSlot, value: Option<usize>)
    ensures
        held(*final(slot)) == value,
{
    slot.cell.store(std::sync::Arc::new(value))
}

/// Reads what the slot holds.
///
/// Trusted: calls `ArcSwapAny::load`, which yields the value stored last.
#[verifier::external_body]
pub(crate) fn slot_load(slot: &CallbackSlot) -> (value: Option<usize>)
    ensures
        value == held(*slot),
{
    **slot.cell.load()
}

} // verus!
