use vstd::prelude::*;

verus! {

/// The firmware slot the bootloader starts.
#[derive(Debug, Clone, Copy, PartialEq, Eq, Structural)]
pub enum OtaSlot {
    NoSlot,
    SlotA,
    SlotB,
}

/// How far the image in the current slot is trusted.
#[derive(Debug, Clone, Copy, PartialEq, Eq, Structural)]
pub enum OtaState {
    New,
    PendingVerify,
    Valid,
    Invalid,
    Aborted,
    Undefined,
}

impl OtaSlot {
    pub open spec fn spec_next(self) -> OtaSlot {
        match self {
            OtaSlot::NoSlot => OtaSlot::SlotA,
            OtaSlot::SlotA => OtaSlot::SlotB,
            OtaSlot::SlotB => OtaSlot::SlotA,
        }
    }

    /// The slot an update is written to: the other one, or the first when
    /// none has been used yet.
    pub fn next(&self) -> (r: OtaSlot)
        ensures
            r == self.spec_next(),
    {
        match self {
            OtaSlot::NoSlot => OtaSlot::SlotA,
            OtaSlot::SlotA => OtaSlot::SlotB,
            OtaSlot::SlotB => OtaSlot::SlotA,
        }
    }
}

/// The slot and trust state recorded in the firmware metadata partition.
#[derive(Debug, Clone, Copy, PartialEq, Eq, Structural)]
pub struct OtaStatus {
    pub slot: OtaSlot,
    pub state: OtaState,
}

/// The record after boot-time validation: an image in a real slot that is
/// new or awaiting verification becomes valid; anything else is left alone.
pub open spec fn validated(s: OtaStatus) -> OtaStatus {
    if s.slot != OtaSlot::NoSlot && (s.state == OtaState::New || s.state == OtaState::PendingVerify) {
        OtaStatus { slot: s.slot, state: OtaState::Valid }
    } else {
        s
    }
}

/// The state validation writes for a slot and state, if it writes one.
pub fn validation_target(slot: OtaSlot, state: OtaState) -> (r: Option<OtaState>)
    ensures
        r is Some <==> validated(OtaStatus { slot, state }) != (OtaStatus { slot, state }),
        r is Some ==> r->0 == validated(OtaStatus { slot, state }).state,
{
    match (slot, state) {
        (OtaSlot::NoSlot, _) => None,
        (_, OtaState::New) => Some(OtaState::Valid),
        (_, OtaState::PendingVerify) => Some(OtaState::Valid),
        _ => None,
    }
}

/// Validates the running image at boot; returns whether the record changed.
pub fn validate_current_ota_slot(status: &mut OtaStatus) -> (changed: bool)
    ensures
        *final(status) == validated(*old(status)),
        changed == (*final(status) != *old(status)),
{
    match validation_target(status.slot, status.state) {
        Some(state) => {
            status.state = state;
            true
        },
        None => false,
    }
}

/// Selects the slot to boot next, whose image is then new.
pub fn set_next_ota_slot(next_slot: OtaSlot, status: &mut OtaStatus)
    ensures
        *final(status) == (OtaStatus { slot: next_slot, state: OtaState::New }),
{
    status.slot = next_slot;
    status.state = OtaState::New;
}

/// Validation is idempotent: a second run changes nothing; it only ever moves
/// a state to valid, it never touches a record without a slot, and it never
/// moves a valid or invalid state.
pub proof fn lemma_validate_idempotent(s: OtaStatus)
    ensures
        validated(validated(s)) == validated(s),
        validated(s).slot == s.slot,
        validated(s) != s ==> validated(s).state == OtaState::Valid,
        s.slot == OtaSlot::NoSlot ==> validated(s) == s,
        s.state == OtaState::Valid || s.state == OtaState::Invalid ==> validated(s) == s,
{
}

/// Partition type of application images.
pub const PARTITION_TYPE_APP: u8 = 0x00;

/// Partition type of data regions.
pub const PARTITION_TYPE_DATA: u8 = 0x01;

/// Subtype of the data region holding the slot metadata.
pub const SUBTYPE_OTA_DATA: u8 = 0x00;

/// Subtype of the first firmware slot.
pub const SUBTYPE_OTA_0: u8 = 0x10;

/// Subtype of the second firmware slot.
pub const SUBTYPE_OTA_1: u8 = 0x11;

/// One row of the on-flash partition table.
#[derive(Debug, Clone, Copy, PartialEq, Eq, Structural)]
pub struct PartitionEntry {
    pub partition_type: u8,
    pub subtype: u8,
    pub offset: u32,
    pub size: u32,
}

/// The partitions the slot manager needs.
#[derive(Debug, Clone, Copy, PartialEq, Eq, Structural)]
pub enum PartitionKind {
    OtaData,
    Ota0,
    Ota1,
}

impl PartitionKind {
    pub open spec fn spec_type_and_subtype(self) -> (u8, u8) {
        match self {
            PartitionKind::OtaData => (PARTITION_TYPE_DATA, SUBTYPE_OTA_DATA),
            PartitionKind::Ota0 => (PARTITION_TYPE_APP, SUBTYPE_OTA_0),
            PartitionKind::Ota1 => (PARTITION_TYPE_APP, SUBTYPE_OTA_1),
        }
    }

    pub open spec fn spec_matches(self, e: PartitionEntry) -> bool {
        (e.partition_type, e.subtype) == self.spec_type_and_subtype()
    }

    /// Whether a table row is this partition.
    pub fn matches(&self, e: &PartitionEntry) -> (r: bool)
        ensures
            r == self.spec_matches(*e),
    {
        match self {
            PartitionKind::OtaData => e.partition_type == PARTITION_TYPE_DATA && e.subtype
                == SUBTYPE_OTA_DATA,
            PartitionKind::Ota0 => e.partition_type == PARTITION_TYPE_APP && e.subtype
                == SUBTYPE_OTA_0,
            PartitionKind::Ota1 => e.partition_type == PARTITION_TYPE_APP && e.subtype
                == SUBTYPE_OTA_1,
        }
    }
}

#[derive(Debug, Clone, Copy, PartialEq, Eq, Structural)]
pub enum PartitionError {
    /// The table could not be read from flash.
    Unreadable,
    /// The table has no row for the partition.
    NotFound(PartitionKind),
}

/// Where the slot metadata and both firmware slots lie.
#[derive(Debug, Clone, Copy, PartialEq, Eq, Structural)]
pub struct OtaLayout {
    pub ota_data: PartitionEntry,
    pub ota0_offset: u32,
    pub ota1_offset: u32,
}

/// Whether the table has a row for the partition.
pub open spec fn present(table: Seq<PartitionEntry>, kind: PartitionKind) -> bool {
    exists|i: int| 0 <= i < table.len() && kind.spec_matches(#[trigger] table[i])
}

/// Whether `e` is the first row of the table that is the given partition.
pub open spec fn is_first_match(table: Seq<PartitionEntry>, kind: PartitionKind, e: PartitionEntry) -> bool {
    exists|i: int|
        0 <= i < table.len() && table[i] == e && kind.spec_matches(e) && forall|j: int|
            0 <= j < i ==> !kind.spec_matches(#[trigger] table[j])
}

/// Looks a partition up by type and subtype: the first matching row, or a
/// "not found" error naming the partition. No default is ever substituted.
pub fn find_partition(table: &[PartitionEntry], kind: PartitionKind) -> (r: Result<
    PartitionEntry,
    PartitionError,
>)
    ensures
        r is Ok <==> present(table@, kind),
        r is Ok ==> is_first_match(table@, kind, r->Ok_0),
        r is Err ==> r->Err_0 == PartitionError::NotFound(kind),
{
    let mut i: usize = 0;
    while i < table.len()
        invariant
            i <= table@.len(),
            forall|j: int| 0 <= j < i ==> !kind.spec_matches(#[trigger] table@[j]),
        decreases table.len() - i,
    {
        if kind.matches(&table[i]) {
            assert(is_first_match(table@, kind, table@[i as int]));
            return Ok(table[i]);
        }
        i = i + 1;
    }
    Err(PartitionError::NotFound(kind))
}

/// Finds the slot metadata partition and both firmware slots, in that order;
/// the first one missing is reported by name.
pub fn locate_ota(table: &[PartitionEntry]) -> (r: Result<OtaLayout, PartitionError>)
    ensures
        !present(table@, PartitionKind::OtaData) ==> r == Err::<OtaLayout, PartitionError>(
            PartitionError::NotFound(PartitionKind::OtaData),
        ),
        present(table@, PartitionKind::OtaData) && !present(table@, PartitionKind::Ota0) ==> r
            == Err::<OtaLayout, PartitionError>(PartitionError::NotFound(PartitionKind::Ota0)),
        present(table@, PartitionKind::OtaData) && present(table@, PartitionKind::Ota0)
            && !present(table@, PartitionKind::Ota1) ==> r == Err::<OtaLayout, PartitionError>(
            PartitionError::NotFound(PartitionKind::Ota1),
        ),
        present(table@, PartitionKind::OtaData) && present(table@, PartitionKind::Ota0) && present(
            table@,
            PartitionKind::Ota1,
        ) ==> {
            &&& r is Ok
            &&& is_first_match(table@, PartitionKind::OtaData, r->Ok_0.ota_data)
            &&& exists|e: PartitionEntry|
                is_first_match(table@, PartitionKind::Ota0, e) && e.offset == r->Ok_0.ota0_offset
            &&& exists|e: PartitionEntry|
                is_first_match(table@, PartitionKind::Ota1, e) && e.offset == r->Ok_0.ota1_offset
        },
{
    let ota_data = match find_partition(table, PartitionKind::OtaData) {
        Ok(e) => e,
        Err(e) => return Err(e),
    };
    let ota0 = match find_partition(table, PartitionKind::Ota0) {
        Ok(e) => e,
        Err(e) => return Err(e),
    };
    let ota1 = match find_partition(table, PartitionKind::Ota1) {
        Ok(e) => e,
        Err(e) => return Err(e),
    };
    Ok(OtaLayout { ota_data, ota0_offset: ota0.offset, ota1_offset: ota1.offset })
}

/// A lookup of a partition the table lacks fails with the error naming that
/// partition, distinct for each of the three; it never yields a row.
pub proof fn lemma_missing_partition_is_named(
    table: Seq<PartitionEntry>,
    kind: PartitionKind,
    other: PartitionKind,
)
    requires
        !present(table, kind),
        other != kind,
    ensures
        forall|e: PartitionEntry| !is_first_match(table, kind, e),
        PartitionError::NotFound(kind) != PartitionError::NotFound(other),
        PartitionError::NotFound(kind) != PartitionError::Unreadable,
{
    assert forall|e: PartitionEntry| !is_first_match(table, kind, e) by {
        if is_first_match(table, kind, e) {
            let i = choose|i: int|
                0 <= i < table.len() && table[i] == e && kind.spec_matches(e) && forall|j: int|
                    0 <= j < i ==> !kind.spec_matches(#[trigger] table[j]);
            assert(kind.spec_matches(table[i]));
        }
    }
}

} // verus!
