//! The housing item operation packet and the staging marker it carries:
//! which player inventory slot the fixture comes from and which
//! appearance slot it is meant for.
use vstd::prelude::*;

use crate::common::{ContainerType, spec_container_type_id};

verus! {

/// A housing item operation as the client sends it: 24 little-endian
/// 16-bit words.
#[derive(Debug, Clone, Copy)]
pub struct HousingItemOperation {
    pub raw: [u16; 24],
}

/// The little-endian word at `i` of a byte string.
pub open spec fn spec_le_word(bytes: Seq<u8>, i: int) -> u16 {
    (bytes[2 * i] as int + bytes[2 * i + 1] as int * 256) as u16
}

impl HousingItemOperation {
    /// Reads the packet from its 48 bytes; `None` for a shorter input.
    pub fn read_le(bytes: &[u8]) -> (operation: Option<HousingItemOperation>)
        ensures
            bytes@.len() < 48 ==> operation is None,
            bytes@.len() >= 48 ==> (operation matches Some(op) && forall|i: int| 0 <= i < 24 ==> op.raw[i] == spec_le_word(bytes@, i)),
    {
        if bytes.len() < 48 {
            return None;
        }
        let mut raw: [u16; 24] = [0u16; 24];
        let mut i: usize = 0;
        while i < 24
            invariant
                i <= 24,
                bytes@.len() >= 48,
                forall|k: int| 0 <= k < i ==> raw[k] == spec_le_word(bytes@, k),
            decreases 24 - i,
        {
            let word: u16 = bytes[2 * i] as u16 + bytes[2 * i + 1] as u16 * 256;
            raw[i] = word;
            i = i + 1;
        }
        Some(HousingItemOperation { raw })
    }
}

/// Where a staging marker says a fixture comes from and goes to.
#[derive(Debug, Clone, Copy, PartialEq, Eq, Structural)]
pub struct HousingItemOperationHint {
    pub source_container: ContainerType,
    pub source_slot: u16,
    pub target_appearance_slot: u16,
}

/// The marker entry of target slot `t`: words `4 + t` (player bag) and
/// `14 + t` (slot) name a usable source when the bag is 0..3 and the slot
/// is set.
pub open spec fn spec_marker_entry_usable(raw: Seq<u16>, t: int) -> bool {
    raw[4 + t] <= 3 && raw[14 + t] != 0xFFFF
}

/// The first usable marker entry from target slot `t` on, among the ten.
pub open spec fn spec_source_hint_from(raw: Seq<u16>, t: int) -> Option<(u16, u16, u16)>
    decreases 10 - t,
{
    if t >= 10 || t < 0 {
        None
    } else if spec_marker_entry_usable(raw, t) {
        Some((t as u16, raw[4 + t], raw[14 + t]))
    } else {
        spec_source_hint_from(raw, t + 1)
    }
}

/// The player bag with index 0..3.
pub open spec fn spec_player_bag(index: u16) -> Option<ContainerType> {
    if index == 0 {
        Some(ContainerType::Inventory0)
    } else if index == 1 {
        Some(ContainerType::Inventory1)
    } else if index == 2 {
        Some(ContainerType::Inventory2)
    } else if index == 3 {
        Some(ContainerType::Inventory3)
    } else {
        None
    }
}

/// The hint of a marker: its first usable entry, with the bag index as
/// a player bag.
pub open spec fn spec_housing_item_operation_hint(raw: Seq<u16>) -> Option<HousingItemOperationHint> {
    match spec_source_hint_from(raw, 0) {
        Some((target, bag, slot)) => match spec_player_bag(bag) {
            Some(c) => Some(HousingItemOperationHint { source_container: c, source_slot: slot, target_appearance_slot: target }),
            None => None,
        },
        None => None,
    }
}

fn source_hint(action: &HousingItemOperation) -> (hint: Option<(u16, u16, u16)>)
    ensures
        hint == spec_source_hint_from(action.raw@, 0),
{
    let mut t: usize = 0;
    while t < 10
        invariant
            t <= 10,
            spec_source_hint_from(action.raw@, 0) == spec_source_hint_from(action.raw@, t as int),
        decreases 10 - t,
    {
        let container = action.raw[4 + t];
        let slot = action.raw[14 + t];
        if container <= 3 && slot != 0xFFFF {
            return Some((t as u16, container, slot));
        }
        t = t + 1;
    }
    None
}

/// The source and target that a staging marker names, if any entry is
/// usable.
pub fn housing_item_operation_hint(action: &HousingItemOperation) -> (hint: Option<HousingItemOperationHint>)
    ensures
        hint == spec_housing_item_operation_hint(action.raw@),
{
    let (target_appearance_slot, container, source_slot) = match source_hint(action) {
        Some(h) => h,
        None => return None,
    };
    let source_container = if container == 0 {
        ContainerType::Inventory0
    } else if container == 1 {
        ContainerType::Inventory1
    } else if container == 2 {
        ContainerType::Inventory2
    } else if container == 3 {
        ContainerType::Inventory3
    } else {
        return None;
    };
    Some(HousingItemOperationHint { source_container, source_slot, target_appearance_slot })
}

/// A marker's hint comes from its first usable entry: the target is that
/// entry's appearance slot, the source slot is the entry's slot word, and
/// the source is the player bag whose container id is the entry's bag
/// word; without a usable entry there is no hint.
pub proof fn lemma_hint_reads_first_usable_entry(raw: Seq<u16>)
    requires
        raw.len() == 24,
    ensures
        spec_housing_item_operation_hint(raw) matches Some(h) ==> {
            let t = h.target_appearance_slot as int;
            &&& 0 <= t < 10
            &&& raw[4 + t] <= 3 && raw[14 + t] != 0xFFFF
            &&& forall|u: int| 0 <= u < t ==> !spec_marker_entry_usable(raw, u)
            &&& spec_container_type_id(h.source_container) == raw[4 + t]
            &&& h.source_slot == raw[14 + t]
        },
        spec_housing_item_operation_hint(raw) is None ==> forall|u: int| 0 <= u < 10 ==> !spec_marker_entry_usable(raw, u),
{
    lemma_source_hint_from(raw, 0);
}

/// The first usable entry from `t` on, if any, with none before it.
proof fn lemma_source_hint_from(raw: Seq<u16>, t: int)
    requires
        raw.len() == 24,
        0 <= t <= 10,
    ensures
        spec_source_hint_from(raw, t) matches Some(e) ==> {
            &&& t <= e.0 < 10
            &&& spec_marker_entry_usable(raw, e.0 as int)
            &&& e.1 == raw[4 + e.0 as int] && e.2 == raw[14 + e.0 as int]
            &&& forall|u: int| t <= u < e.0 ==> !spec_marker_entry_usable(raw, u)
        },
        spec_source_hint_from(raw, t) is None ==> forall|u: int| t <= u < 10 ==> !spec_marker_entry_usable(raw, u),
    decreases 10 - t,
{
    if t < 10 && !spec_marker_entry_usable(raw, t) {
        lemma_source_hint_from(raw, t + 1);
    }
}

} // verus!
