//! The protected resource cell: one slot for the pin handle, reached only
//! inside a critical section.

use core::cell::RefCell;
use critical_section::Mutex;
use vstd::prelude::*;

use crate::pin::PinHandle;

verus! {

/// `critical_section::Mutex`, carried as an opaque value.
#[verifier::external_type_specification]
#[verifier::external_body]
#[verifier::reject_recursive_types(T)]
pub struct ExMutex<T>(critical_section::Mutex<T>);

/// `core::cell::RefCell`, carried as an opaque value.
#[verifier::external_type_specification]
#[verifier::external_body]
#[verifier::reject_recursive_types(T)]
pub struct ExRefCell<T: ?Sized>(core::cell::RefCell<T>);

/// What a slot holds: nothing, or the pin handle.
pub uninterp spec fn slot_contents(slot: Mutex<RefCell<Option<PinHandle>>>) -> Option<PinHandle>;

/// `critical_section::Mutex::new` around `RefCell::new`, both of which store
/// the value they are given: the new slot holds nothing.
#[verifier::external_body]
fn slot_new() -> (slot: Mutex<RefCell<Option<PinHandle>>>)
    ensures
        slot_contents(slot) is None,
{
    Mutex::new(RefCell::new(None))
}

/// `critical_section::with` and `Mutex::borrow_ref`: the closure runs once,
/// inside the critical section, and copies what the slot holds; the copy is
/// returned and the slot stays as it is. No mutable borrow of the slot
/// outlives `slot_apply`, so `borrow_ref` finds none.
#[verifier::external_body]
fn slot_get(slot: &Mutex<RefCell<Option<PinHandle>>>) -> (held: Option<PinHandle>)
    ensures
        held == slot_contents(*slot),
{
    critical_section::with(|cs| *slot.borrow_ref(cs))
}

/// `critical_section::with` and `Mutex::borrow_ref_mut`: the closure runs
/// once, inside the critical section. It hands the slot's contents to `op`,
/// stores the first part of what `op` returns in the slot, and the second
/// part is returned. The slot is borrowed uniquely, so `borrow_ref_mut`
/// finds no other borrow.
#[verifier::external_body]
fn slot_apply<R, F: FnOnce(Option<PinHandle>) -> (Option<PinHandle>, R)>(
    slot: &mut Mutex<RefCell<Option<PinHandle>>>,
    op: F,
) -> (out: R)
    requires
        op.requires((slot_contents(*old(slot)),)),
    ensures
        op.ensures((slot_contents(*old(slot)),), (slot_contents(*final(slot)), out)),
{
    critical_section::with(
        |cs|
            {
                let mut held = slot.borrow_ref_mut(cs);
                let (next, out) = op(*held);
                *held = next;
                out
            },
    )
}

/// A slot for the pin handle that is read and written only inside a critical
/// section. Its view is what it holds.
pub struct ProtectedCell {
    slot: Mutex<RefCell<Option<PinHandle>>>,
}

impl ProtectedCell {
    /// What the cell holds.
    pub closed spec fn view(&self) -> Option<PinHandle> {
        slot_contents(self.slot)
    }

    /// An empty cell.
    pub fn new() -> (cell: ProtectedCell)
        ensures
            cell@ is None,
    {
        ProtectedCell { slot: slot_new() }
    }

    /// Whether a resource has been published.
    pub fn is_occupied(&self) -> (occupied: bool)
        ensures
            occupied == (self@ is Some),
    {
        slot_get(&self.slot).is_some()
    }

    /// A copy of what the cell holds, taken inside a critical section.
    pub fn snapshot(&self) -> (held: Option<PinHandle>)
        ensures
            held == self@,
    {
        slot_get(&self.slot)
    }

    /// Stores `resource` in the cell and returns what the cell held before.
    pub fn publish(&mut self, resource: PinHandle) -> (previous: Option<PinHandle>)
        ensures
            final(self)@ == Some(resource),
            previous == old(self)@,
    {
        let store = move |held: Option<PinHandle>| -> (r: (Option<PinHandle>, Option<PinHandle>))
            ensures
                r.0 == Some(resource),
                r.1 == held,
            { (Some(resource), held) };
        slot_apply(&mut self.slot, store)
    }

    /// Runs `op` on the published resource inside a critical section, stores
    /// the resource that `op` hands back and returns `op`'s answer.
    pub fn with_exclusive<R, F: FnOnce(PinHandle) -> (PinHandle, R)>(&mut self, op: F) -> (out: R)
        requires
            old(self)@ is Some,
            op.requires((old(self)@.unwrap(),)),
        ensures
            final(self)@ is Some,
            op.ensures((old(self)@.unwrap(),), (final(self)@.unwrap(), out)),
    {
        let on_slot = move |held: Option<PinHandle>| -> (r: (Option<PinHandle>, R))
            requires
                held is Some,
                op.requires((held.unwrap(),)),
            ensures
                r.0 is Some,
                op.ensures((held.unwrap(),), (r.0.unwrap(), r.1)),
            {
                let (pin, out) = op(held.unwrap());
                (Some(pin), out)
            };
        slot_apply(&mut self.slot, on_slot)
    }

    /// As `with_exclusive`, for a cell that may still be empty: an empty cell
    /// is left alone and `None` is returned.
    pub fn try_with_exclusive<R, F: FnOnce(PinHandle) -> (PinHandle, R)>(
        &mut self,
        op: F,
    ) -> (out: Option<R>)
        requires
            old(self)@ matches Some(pin) ==> op.requires((pin,)),
        ensures
            out is Some <==> old(self)@ is Some,
            old(self)@ is None ==> final(self)@ is None,
            out matches Some(answer) ==> final(self)@ is Some && op.ensures(
                (old(self)@.unwrap(),),
                (final(self)@.unwrap(), answer),
            ),
    {
        if self.is_occupied() {
            Some(self.with_exclusive(op))
        } else {
            None
        }
    }
}

} // verus!
