//! The usable slots of a token, their numbering in the user interface, and the
//! choice of a slot for a new identity.
use vstd::prelude::*;

use crate::error::Error;

verus! {

/// One of the retired key-management slots of a PIV token.
#[derive(Clone, Copy, Debug, PartialEq, Eq, Structural, Hash)]
pub enum RetiredSlotId {
    R1,
    R2,
    R3,
    R4,
    R5,
    R6,
    R7,
    R8,
    R9,
    R10,
    R11,
    R12,
    R13,
    R14,
    R15,
    R16,
    R17,
    R18,
    R19,
    R20,
}

/// The slots in which identities are kept, in the order in which they are
/// numbered and tried.
pub const USABLE_SLOTS: [RetiredSlotId; 20] = [
    RetiredSlotId::R1,
    RetiredSlotId::R2,
    RetiredSlotId::R3,
    RetiredSlotId::R4,
    RetiredSlotId::R5,
    RetiredSlotId::R6,
    RetiredSlotId::R7,
    RetiredSlotId::R8,
    RetiredSlotId::R9,
    RetiredSlotId::R10,
    RetiredSlotId::R11,
    RetiredSlotId::R12,
    RetiredSlotId::R13,
    RetiredSlotId::R14,
    RetiredSlotId::R15,
    RetiredSlotId::R16,
    RetiredSlotId::R17,
    RetiredSlotId::R18,
    RetiredSlotId::R19,
    RetiredSlotId::R20,
];

/// The usable slots as a sequence.
pub open spec fn usable_slots() -> Seq<RetiredSlotId> {
    USABLE_SLOTS@
}

/// The number under which the user interface shows a slot: its position in
/// the list of usable slots, counted from one.
pub open spec fn spec_slot_to_ui(slot: RetiredSlotId) -> int {
    usable_slots().index_of(slot) + 1
}

/// The slot that a number of the user interface stands for.
pub open spec fn spec_ui_to_slot(n: u8) -> Result<RetiredSlotId, Error> {
    if 1 <= n <= usable_slots().len() {
        Ok(usable_slots()[n - 1])
    } else {
        Err(Error::InvalidSlot(n))
    }
}

/// The list of usable slots has twenty entries, holds every slot, and holds
/// none twice.
pub proof fn lemma_usable_slots()
    ensures
        usable_slots().len() == 20,
        forall|slot: RetiredSlotId| usable_slots().contains(slot),
        forall|i: int, j: int|
            0 <= i < 20 && 0 <= j < 20 && usable_slots()[i] == usable_slots()[j] ==> i == j,
{
    assert forall|slot: RetiredSlotId| usable_slots().contains(slot) by {
        let i: int = match slot {
            RetiredSlotId::R1 => 0,
            RetiredSlotId::R2 => 1,
            RetiredSlotId::R3 => 2,
            RetiredSlotId::R4 => 3,
            RetiredSlotId::R5 => 4,
            RetiredSlotId::R6 => 5,
            RetiredSlotId::R7 => 6,
            RetiredSlotId::R8 => 7,
            RetiredSlotId::R9 => 8,
            RetiredSlotId::R10 => 9,
            RetiredSlotId::R11 => 10,
            RetiredSlotId::R12 => 11,
            RetiredSlotId::R13 => 12,
            RetiredSlotId::R14 => 13,
            RetiredSlotId::R15 => 14,
            RetiredSlotId::R16 => 15,
            RetiredSlotId::R17 => 16,
            RetiredSlotId::R18 => 17,
            RetiredSlotId::R19 => 18,
            RetiredSlotId::R20 => 19,
        };
        assert(usable_slots()[i] == slot);
    }
}

/// The position of a slot in the list of usable slots is the one place at
/// which the list holds it.
pub proof fn lemma_position(slot: RetiredSlotId, i: int)
    requires
        0 <= i < 20,
        usable_slots()[i] == slot,
    ensures
        usable_slots().index_of(slot) == i,
{
    lemma_usable_slots();
    let j = usable_slots().index_of(slot);
    assert(0 <= j < 20 && usable_slots()[j] == slot);
}

/// The number under which the user interface shows a slot.
pub fn slot_to_ui(slot: &RetiredSlotId) -> (n: u8)
    ensures
        n == spec_slot_to_ui(*slot),
        1 <= n <= 20,
        usable_slots()[n - 1] == *slot,
        spec_ui_to_slot(n) == Ok::<RetiredSlotId, Error>(*slot),
{
    proof {
        lemma_usable_slots();
    }
    let ghost at: int = usable_slots().index_of(*slot);
    assert(0 <= at < 20 && usable_slots()[at] == *slot);
    let mut i: usize = 0;
    while USABLE_SLOTS[i] != *slot
        invariant
            0 <= i <= at < 20,
            usable_slots()[at] == *slot,
        decreases at - i,
    {
        i += 1;
    }
    proof {
        lemma_position(*slot, i as int);
    }
    (i + 1) as u8
}

/// The slot that a number of the user interface stands for. A number that is
/// not between one and the length of the list of usable slots is refused.
pub fn ui_to_slot(slot: u8) -> (r: Result<RetiredSlotId, Error>)
    ensures
        r == spec_ui_to_slot(slot),
        1 <= slot <= 20 ==> r == Ok::<RetiredSlotId, Error>(usable_slots()[slot - 1]),
        !(1 <= slot <= 20) ==> r == Err::<RetiredSlotId, Error>(Error::InvalidSlot(slot)),
{
    if 1 <= slot && slot as usize <= USABLE_SLOTS.len() {
        Ok(USABLE_SLOTS[slot as usize - 1])
    } else {
        Err(Error::InvalidSlot(slot))
    }
}

/// Numbering a slot and reading the number back gives the slot again.
pub proof fn lemma_ui_round_trip(slot: RetiredSlotId)
    ensures
        1 <= spec_slot_to_ui(slot) <= usable_slots().len(),
        spec_ui_to_slot(spec_slot_to_ui(slot) as u8) == Ok::<RetiredSlotId, Error>(slot),
{
    lemma_usable_slots();
    let at = usable_slots().index_of(slot);
    assert(0 <= at < 20 && usable_slots()[at] == slot);
}

/// Reading a number back and numbering the slot gives the number again.
pub proof fn lemma_slot_round_trip(n: u8)
    requires
        1 <= n <= usable_slots().len(),
    ensures
        spec_ui_to_slot(n) is Ok,
        spec_slot_to_ui(spec_ui_to_slot(n)->Ok_0) == n,
{
    lemma_usable_slots();
    lemma_position(usable_slots()[n - 1], n - 1);
}

/// `slot` holds no key, and every usable slot that is listed before it holds
/// one.
pub open spec fn lowest_free(occupied: Set<RetiredSlotId>, slot: RetiredSlotId) -> bool {
    &&& !occupied.contains(slot)
    &&& forall|j: int|
        0 <= j < usable_slots().index_of(slot) ==> occupied.contains(#[trigger] usable_slots()[j])
}

/// Every usable slot holds a key.
pub open spec fn all_occupied(occupied: Set<RetiredSlotId>) -> bool {
    forall|i: int| 0 <= i < usable_slots().len() ==> occupied.contains(#[trigger] usable_slots()[i])
}

/// The slot for a new identity. A requested slot is taken as it is, unless it
/// holds a key and overwriting was not asked for. Without a request the choice
/// falls on the lowest free slot of the list of usable slots.
pub open spec fn spec_allocate(
    requested: Option<RetiredSlotId>,
    force: bool,
    occupied: Set<RetiredSlotId>,
    serial: u32,
) -> Result<RetiredSlotId, Error> {
    match requested {
        Some(slot) => if !force && occupied.contains(slot) {
            Err(Error::SlotOccupied(slot))
        } else {
            Ok(slot)
        },
        None => if all_occupied(occupied) {
            Err(Error::NoEmptySlots(serial))
        } else {
            Ok(choose|slot: RetiredSlotId| lowest_free(occupied, slot))
        },
    }
}

/// At most one slot is the lowest free one.
pub proof fn lemma_lowest_free_unique(
    occupied: Set<RetiredSlotId>,
    a: RetiredSlotId,
    b: RetiredSlotId,
)
    requires
        lowest_free(occupied, a),
        lowest_free(occupied, b),
    ensures
        a == b,
{
    lemma_usable_slots();
    let i = usable_slots().index_of(a);
    let j = usable_slots().index_of(b);
    assert(0 <= i < 20 && usable_slots()[i] == a);
    assert(0 <= j < 20 && usable_slots()[j] == b);
    if i < j {
        assert(occupied.contains(usable_slots()[i]));
    } else if j < i {
        assert(occupied.contains(usable_slots()[j]));
    }
}

/// Where not every usable slot holds a key, and all before place `from` do,
/// there is a lowest free slot.
proof fn lemma_lowest_free_from(occupied: Set<RetiredSlotId>, from: int) -> (slot: RetiredSlotId)
    requires
        0 <= from <= 20,
        !all_occupied(occupied),
        forall|j: int| 0 <= j < from ==> occupied.contains(#[trigger] usable_slots()[j]),
    ensures
        lowest_free(occupied, slot),
    decreases 20 - from,
{
    lemma_usable_slots();
    if from < 20 && occupied.contains(usable_slots()[from]) {
        lemma_lowest_free_from(occupied, from + 1)
    } else {
        lemma_position(usable_slots()[from], from);
        usable_slots()[from]
    }
}

/// Without a request the lowest free usable slot is chosen, whatever was said
/// of overwriting; the choice fails, with `NoEmptySlots`, exactly when every
/// usable slot holds a key.
pub proof fn lemma_allocate_lowest_free(occupied: Set<RetiredSlotId>, force: bool, serial: u32)
    ensures
        all_occupied(occupied) ==> spec_allocate(None, force, occupied, serial) == Err::<
            RetiredSlotId,
            Error,
        >(Error::NoEmptySlots(serial)),
        !all_occupied(occupied) ==> spec_allocate(None, force, occupied, serial) is Ok
            && lowest_free(occupied, spec_allocate(None, force, occupied, serial)->Ok_0),
{
    if !all_occupied(occupied) {
        lemma_lowest_free_from(occupied, 0);
    }
}

/// A requested slot that holds a key is refused with `SlotOccupied` unless
/// overwriting is asked for; with it, and for a slot that holds no key, the
/// request succeeds with the slot itself.
pub proof fn lemma_allocate_requested(
    slot: RetiredSlotId,
    occupied: Set<RetiredSlotId>,
    serial: u32,
)
    ensures
        spec_allocate(Some(slot), true, occupied, serial) == Ok::<RetiredSlotId, Error>(slot),
        occupied.contains(slot) ==> spec_allocate(Some(slot), false, occupied, serial) == Err::<
            RetiredSlotId,
            Error,
        >(Error::SlotOccupied(slot)),
        !occupied.contains(slot) ==> spec_allocate(Some(slot), false, occupied, serial) == Ok::<
            RetiredSlotId,
            Error,
        >(slot),
{
}

/// Whether a slot is among those that hold a key.
pub fn is_occupied(occupied: &[RetiredSlotId], slot: RetiredSlotId) -> (r: bool)
    ensures
        r == occupied@.to_set().contains(slot),
{
    let mut i: usize = 0;
    while i < occupied.len()
        invariant
            0 <= i <= occupied@.len(),
            forall|j: int| 0 <= j < i ==> occupied@[j] != slot,
        decreases occupied@.len() - i,
    {
        if occupied[i] == slot {
            assert(occupied@.contains(slot));
            return true;
        }
        i += 1;
    }
    assert(!occupied@.contains(slot));
    false
}

/// Chooses the slot for a new identity from the slots that hold a key.
///
/// A requested slot is returned unchanged when overwriting is asked for, or
/// when it holds no key; otherwise the request fails with `SlotOccupied`.
/// Without a request the lowest free usable slot is returned, and
/// `NoEmptySlots` with the serial number of the token when there is none.
pub fn allocate(
    requested: Option<RetiredSlotId>,
    force: bool,
    occupied: &[RetiredSlotId],
    serial: u32,
) -> (r: Result<RetiredSlotId, Error>)
    ensures
        r == spec_allocate(requested, force, occupied@.to_set(), serial),
        requested matches Some(slot) ==> r == if !force && occupied@.contains(slot) {
            Err::<RetiredSlotId, Error>(Error::SlotOccupied(slot))
        } else {
            Ok::<RetiredSlotId, Error>(slot)
        },
        requested is None && all_occupied(occupied@.to_set()) ==> r == Err::<RetiredSlotId, Error>(
            Error::NoEmptySlots(serial),
        ),
        requested is None && !all_occupied(occupied@.to_set()) ==> r is Ok && lowest_free(
            occupied@.to_set(),
            r->Ok_0,
        ),
{
    match requested {
        Some(slot) => {
            if !force && is_occupied(occupied, slot) {
                Err(Error::SlotOccupied(slot))
            } else {
                Ok(slot)
            }
        },
        None => {
            let mut i: usize = 0;
            while i < USABLE_SLOTS.len()
                invariant
                    requested is None,
                    0 <= i <= 20,
                    forall|j: int|
                        0 <= j < i ==> occupied@.to_set().contains(#[trigger] usable_slots()[j]),
                decreases 20 - i,
            {
                let slot = USABLE_SLOTS[i];
                if !is_occupied(occupied, slot) {
                    proof {
                        lemma_position(slot, i as int);
                        assert(lowest_free(occupied@.to_set(), slot));
                        let found = choose|s: RetiredSlotId| lowest_free(occupied@.to_set(), s);
                        lemma_lowest_free_unique(occupied@.to_set(), slot, found);
                    }
                    return Ok(slot);
                }
                i += 1;
            }
            Err(Error::NoEmptySlots(serial))
        },
    }
}

} // verus!
