//! A double-buffer container for iterative simulations.
//!
//! The container owns two storage slots of the same element type and a role
//! flag that says which slot is logically "current" (read-only for the step in
//! progress) and which is "next" (being written for the step in progress).
//! Each slot enforces the classic shared/exclusive access rule at run time:
//! any number of shared (read) views, or exactly one exclusive (write) view,
//! never both at once on the same slot. Because the two slots are distinct
//! storage locations, a caller can hold a shared view into the current slot
//! and an exclusive view into the next slot at the same time. Once a step is
//! complete, `switch` exchanges the roles in constant time, without copying.
//!
//! A view is a token bound to the physical slot it was acquired on. A view
//! kept across a `switch` therefore still refers to that physical slot, not
//! to the updated logical role; finishing with all views before switching is
//! the caller's responsibility.

use vstd::prelude::*;

verus! {

/// One storage cell together with its runtime borrow ledger: how many shared
/// views are outstanding, and whether an exclusive view is outstanding.
#[verifier::ext_equal]
struct Slot<T> {
    value: T,
    readers: u64,
    writer: bool,
}

/// The single failure of this container: a requested view would violate the
/// shared/exclusive access rule of one slot. The fields say which physical
/// slot the request fell on and which access mode was requested.
#[derive(Clone, Copy, Debug, PartialEq, Eq, Structural)]
pub struct BorrowConflict {
    /// True if the rejected request fell on the first physical slot.
    pub on_first_slot: bool,
    /// True if the rejected request asked for exclusive (write) access.
    pub requested_exclusive: bool,
}

/// A shared (read-only) view token, bound to one physical slot.
///
/// It is handed out by [`DoubleBuffer::current`] and given back to
/// [`DoubleBuffer::release_read`]; while it is held, the slot it targets
/// refuses exclusive views.
pub struct ReadView {
    on_first: bool,
}

/// An exclusive (read-write) view token, bound to one physical slot.
///
/// It is handed out by [`DoubleBuffer::next`] and given back to
/// [`DoubleBuffer::release_write`]; while it is held, the slot it targets
/// refuses every other view.
pub struct WriteView {
    on_first: bool,
}

impl ReadView {
    /// True if this view is bound to the first physical slot.
    pub closed spec fn targets_first(self) -> bool {
        self.on_first
    }
}

impl WriteView {
    /// True if this view is bound to the first physical slot.
    pub closed spec fn targets_first(self) -> bool {
        self.on_first
    }
}

/// Two storage slots of the same element type, a role flag that selects which
/// one is "current" and which is "next", and a runtime borrow ledger per slot.
#[verifier::ext_equal]
pub struct DoubleBuffer<T> {
    first: Slot<T>,
    second: Slot<T>,
    switched: bool,
}

impl<T> Slot<T> {
    spec fn with_value(self, value: T) -> Self {
        Slot { value, readers: self.readers, writer: self.writer }
    }

    spec fn with_readers(self, readers: u64) -> Self {
        Slot { value: self.value, readers, writer: self.writer }
    }

    spec fn with_writer(self, writer: bool) -> Self {
        Slot { value: self.value, readers: self.readers, writer }
    }
}

impl<T> DoubleBuffer<T> {
    // ----- the mathematical model -----

    /// True once the roles have been flipped an odd number of times: the
    /// second physical slot is then current and the first is next.
    pub closed spec fn is_switched(self) -> bool {
        self.switched
    }

    /// The value stored in one physical slot (`true` selects the first).
    pub closed spec fn slot_value(self, first: bool) -> T {
        if first {
            self.first.value
        } else {
            self.second.value
        }
    }

    /// How many shared views are outstanding on one physical slot.
    pub closed spec fn readers_of(self, first: bool) -> u64 {
        if first {
            self.first.readers
        } else {
            self.second.readers
        }
    }

    /// Whether an exclusive view is outstanding on one physical slot.
    pub closed spec fn writer_of(self, first: bool) -> bool {
        if first {
            self.first.writer
        } else {
            self.second.writer
        }
    }

    /// Which physical slot is logically current.
    pub open spec fn current_is_first(self) -> bool {
        !self.is_switched()
    }

    /// The value the current role exposes.
    pub open spec fn current_value(self) -> T {
        self.slot_value(self.current_is_first())
    }

    /// The value the next role exposes.
    pub open spec fn next_value(self) -> T {
        self.slot_value(!self.current_is_first())
    }

    /// No view of any kind is outstanding on one physical slot.
    pub open spec fn slot_idle(self, first: bool) -> bool {
        self.readers_of(first) == 0 && !self.writer_of(first)
    }

    /// A shared view of one physical slot may be acquired: no exclusive view
    /// is outstanding on it.
    pub open spec fn can_read(self, first: bool) -> bool {
        !self.writer_of(first)
    }

    /// Acquiring a shared view of the current slot will succeed.
    pub open spec fn can_read_current(self) -> bool {
        self.can_read(self.current_is_first())
    }

    /// Acquiring the exclusive view of the next slot will succeed: no view at
    /// all is outstanding on it.
    pub open spec fn can_write_next(self) -> bool {
        self.slot_idle(!self.current_is_first())
    }

    /// The per-slot shared/exclusive discipline: a slot with an outstanding
    /// exclusive view has no outstanding shared views. Construction
    /// establishes this and every operation preserves it.
    pub open spec fn wf(self) -> bool {
        &&& self.writer_of(true) ==> self.readers_of(true) == 0
        &&& self.writer_of(false) ==> self.readers_of(false) == 0
    }

    // ----- the model's transitions, one per mutating operation -----

    spec fn slot(self, first: bool) -> Slot<T> {
        if first {
            self.first
        } else {
            self.second
        }
    }

    spec fn with_slot(self, first: bool, slot: Slot<T>) -> Self {
        if first {
            DoubleBuffer { first: slot, second: self.second, switched: self.switched }
        } else {
            DoubleBuffer { first: self.first, second: slot, switched: self.switched }
        }
    }

    /// This buffer with one physical slot's value replaced.
    pub closed spec fn with_slot_value(self, first: bool, value: T) -> Self {
        self.with_slot(first, self.slot(first).with_value(value))
    }

    /// This buffer with the next role's value replaced: what one write
    /// through the next view leaves behind.
    pub open spec fn with_next_value(self, value: T) -> Self {
        self.with_slot_value(!self.current_is_first(), value)
    }

    /// This buffer with one more shared view recorded on one physical slot.
    pub closed spec fn with_reader_added(self, first: bool) -> Self {
        self.with_slot(first, self.slot(first).with_readers((self.slot(first).readers + 1) as u64))
    }

    /// This buffer with one shared view released from one physical slot.
    pub closed spec fn with_reader_removed(self, first: bool) -> Self {
        self.with_slot(first, self.slot(first).with_readers((self.slot(first).readers - 1) as u64))
    }

    /// This buffer with the exclusive view recorded on one physical slot.
    pub closed spec fn with_writer_set(self, first: bool) -> Self {
        self.with_slot(first, self.slot(first).with_writer(true))
    }

    /// This buffer with the exclusive view released from one physical slot.
    pub closed spec fn with_writer_cleared(self, first: bool) -> Self {
        self.with_slot(first, self.slot(first).with_writer(false))
    }

    /// This buffer with the two roles exchanged: slot contents and borrow
    /// ledgers untouched, only the role flag flipped.
    pub closed spec fn after_switch(self) -> Self {
        DoubleBuffer { first: self.first, second: self.second, switched: !self.switched }
    }

    // ----- construction and the role flip -----

    /// Create a buffer whose current role exposes `current` and whose next
    /// role exposes `next`. No views are outstanding on either slot.
    pub fn new(current: T, next: T) -> (buf: Self)
        ensures
            buf.current_value() == current,
            buf.next_value() == next,
            !buf.is_switched(),
            buf.slot_idle(true),
            buf.slot_idle(false),
            buf.wf(),
    {
        DoubleBuffer {
            first: Slot { value: current, readers: 0, writer: false },
            second: Slot { value: next, readers: 0, writer: false },
            switched: false,
        }
    }

    /// Exchange the "current" and "next" roles, in constant time and without
    /// copying either value. The borrow ledgers are untouched: a view
    /// acquired before the switch stays bound to its physical slot, whose
    /// logical role has now changed.
    pub fn switch(&mut self)
        ensures
            *final(self) == old(self).after_switch(),
            final(self).is_switched() == !old(self).is_switched(),
            final(self).current_value() == old(self).next_value(),
            final(self).next_value() == old(self).current_value(),
            old(self).wf() ==> final(self).wf(),
    {
        self.switched = !self.switched;
    }

    // ----- acquiring and releasing views -----

    /// Acquire a shared (read-only) view into whichever slot is logically
    /// current. It succeeds exactly when no exclusive view is outstanding on
    /// that slot — an outstanding view on the *other* slot never matters —
    /// and otherwise reports the conflict without touching anything.
    pub fn current(&mut self) -> (result: Result<ReadView, BorrowConflict>)
        requires
            old(self).readers_of(old(self).current_is_first()) < u64::MAX,
        ensures
            result is Ok <==> old(self).can_read_current(),
            result matches Ok(view) ==> {
                &&& view.targets_first() == old(self).current_is_first()
                &&& *final(self) == old(self).with_reader_added(old(self).current_is_first())
            },
            result matches Err(conflict) ==> {
                &&& *final(self) == *old(self)
                &&& conflict == (BorrowConflict {
                    on_first_slot: old(self).current_is_first(),
                    requested_exclusive: false,
                })
            },
            old(self).wf() ==> final(self).wf(),
    {
        if !self.switched {
            if self.first.writer {
                Err(BorrowConflict { on_first_slot: true, requested_exclusive: false })
            } else {
                self.first.readers = self.first.readers + 1;
                Ok(ReadView { on_first: true })
            }
        } else {
            if self.second.writer {
                Err(BorrowConflict { on_first_slot: false, requested_exclusive: false })
            } else {
                self.second.readers = self.second.readers + 1;
                Ok(ReadView { on_first: false })
            }
        }
    }

    /// Acquire the exclusive (read-write) view into whichever slot is
    /// logically next. It succeeds exactly when no view of any kind is
    /// outstanding on that slot — an outstanding view on the *other* slot
    /// never matters — and otherwise reports the conflict without touching
    /// anything.
    pub fn next(&mut self) -> (result: Result<WriteView, BorrowConflict>)
        ensures
            result is Ok <==> old(self).can_write_next(),
            result matches Ok(view) ==> {
                &&& view.targets_first() == !old(self).current_is_first()
                &&& *final(self) == old(self).with_writer_set(!old(self).current_is_first())
            },
            result matches Err(conflict) ==> {
                &&& *final(self) == *old(self)
                &&& conflict == (BorrowConflict {
                    on_first_slot: !old(self).current_is_first(),
                    requested_exclusive: true,
                })
            },
            old(self).wf() ==> final(self).wf(),
    {
        if !self.switched {
            if self.second.readers == 0 && !self.second.writer {
                self.second.writer = true;
                Ok(WriteView { on_first: false })
            } else {
                Err(BorrowConflict { on_first_slot: false, requested_exclusive: true })
            }
        } else {
            if self.first.readers == 0 && !self.first.writer {
                self.first.writer = true;
                Ok(WriteView { on_first: true })
            } else {
                Err(BorrowConflict { on_first_slot: true, requested_exclusive: true })
            }
        }
    }

    /// Release a shared view, removing it from its slot's borrow ledger.
    pub fn release_read(&mut self, view: ReadView)
        requires
            old(self).readers_of(view.targets_first()) > 0,
        ensures
            *final(self) == old(self).with_reader_removed(view.targets_first()),
            old(self).wf() ==> final(self).wf(),
    {
        if view.on_first {
            self.first.readers = self.first.readers - 1;
        } else {
            self.second.readers = self.second.readers - 1;
        }
    }

    /// Release an exclusive view, removing it from its slot's borrow ledger.
    pub fn release_write(&mut self, view: WriteView)
        requires
            old(self).writer_of(view.targets_first()),
        ensures
            *final(self) == old(self).with_writer_cleared(view.targets_first()),
            old(self).wf() ==> final(self).wf(),
    {
        if view.on_first {
            self.first.writer = false;
        } else {
            self.second.writer = false;
        }
    }

    // ----- access through a view -----

    /// Read the slot a shared view is bound to. If the roles have not been
    /// flipped since the view was acquired, that is the current value.
    pub fn read<'a>(&'a self, view: &ReadView) -> (value: &'a T)
        ensures
            *value == self.slot_value(view.targets_first()),
            view.targets_first() == self.current_is_first() ==> *value == self.current_value(),
    {
        if view.on_first {
            &self.first.value
        } else {
            &self.second.value
        }
    }

    /// Read the slot an exclusive view is bound to. If the roles have not
    /// been flipped since the view was acquired, that is the next value.
    pub fn peek<'a>(&'a self, view: &WriteView) -> (value: &'a T)
        ensures
            *value == self.slot_value(view.targets_first()),
            view.targets_first() != self.current_is_first() ==> *value == self.next_value(),
    {
        if view.on_first {
            &self.first.value
        } else {
            &self.second.value
        }
    }

    /// Replace the value of the slot an exclusive view is bound to. The
    /// other slot is untouched: if the roles have not been flipped since the
    /// view was acquired, the current value stays exactly as it was.
    pub fn write(&mut self, view: &WriteView, value: T)
        ensures
            *final(self) == old(self).with_slot_value(view.targets_first(), value),
            final(self).slot_value(view.targets_first()) == value,
            view.targets_first() != old(self).current_is_first() ==> {
                &&& final(self).current_value() == old(self).current_value()
                &&& final(self).next_value() == value
            },
            old(self).wf() ==> final(self).wf(),
    {
        if view.on_first {
            self.first.value = value;
        } else {
            self.second.value = value;
        }
    }
}

// ----- laws of the container -----

/// Role isolation: writing `value` through the next view and then switching
/// makes the current role expose exactly `value`, while the new next role
/// holds what was current before — nothing else changes hands. Writes do not
/// disturb the role mapping, so of any sequence of writes before the switch
/// it is the last that the current role then exposes.
pub proof fn lemma_role_isolation<T>(buf: DoubleBuffer<T>, earlier: T, value: T)
    ensures
        buf.with_next_value(value).after_switch().current_value() == value,
        buf.with_next_value(value).after_switch().next_value() == buf.current_value(),
        buf.with_next_value(value).current_is_first() == buf.current_is_first(),
        buf.with_next_value(earlier).with_next_value(value) == buf.with_next_value(value),
{
    assert(buf.with_next_value(earlier).with_next_value(value) =~= buf.with_next_value(value));
}

/// Double switch is identity: flipping the roles twice restores the buffer —
/// role mapping, slot contents and borrow ledgers — exactly as it was.
pub proof fn lemma_double_switch<T>(buf: DoubleBuffer<T>)
    ensures
        buf.after_switch().after_switch() == buf,
        buf.after_switch().is_switched() == !buf.is_switched(),
{
    assert(buf.after_switch().after_switch() =~= buf);
}

/// Independent slot access: the current and next roles name two distinct
/// physical slots, each with its own ledger, so acquiring a shared view of
/// the current slot never blocks the exclusive view of the next slot, and
/// acquiring the exclusive view of the next slot never blocks shared views
/// of the current slot. Holding both at once raises no conflict.
pub proof fn lemma_independent_slot_access<T>(buf: DoubleBuffer<T>)
    requires
        buf.can_read_current(),
        buf.can_write_next(),
    ensures
        buf.with_reader_added(buf.current_is_first()).can_write_next(),
        buf.with_writer_set(!buf.current_is_first()).can_read_current(),
{
}

/// Same-slot conflict detection: while the exclusive view of the next slot
/// is outstanding, a second exclusive request on that slot is refused, and a
/// shared request into that same slot — it becomes the current slot after a
/// switch — is refused as well.
pub proof fn lemma_same_slot_conflict<T>(buf: DoubleBuffer<T>)
    ensures
        !buf.with_writer_set(!buf.current_is_first()).can_write_next(),
        !buf.with_writer_set(!buf.current_is_first()).after_switch().can_read_current(),
{
}

/// No implicit copy: writing through the next view never changes what the
/// current role exposes until `switch` is called.
pub proof fn lemma_no_implicit_copy<T>(buf: DoubleBuffer<T>, value: T)
    ensures
        buf.with_next_value(value).current_value() == buf.current_value(),
{
}

} // verus!
