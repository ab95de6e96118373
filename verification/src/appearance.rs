//! Moving and swapping items between the bags, the furniture containers
//! and the staged appearance (fixture) containers of an estate.
use vstd::prelude::*;

use crate::common::{ContainerType, TerritoryIntendedUse};
use crate::furniture::{
    ItemOperation, ItemOperationKind, housing_appearance_operation_involves_staging,
    housing_appearance_operation_matches_area, spec_operation_involves_staging, spec_operation_matches_area,
};
use crate::context::clamp_u8;
use crate::fixture_json::spec_interior_or_default;
use crate::inventory::Item;
use crate::ipc::HousingInteriorDetails;
use crate::serialization::{housing_interior_details_from_json, spec_interior_details};
use crate::state::AppliedHousingAppearanceItemOperation;
use crate::zone_connection::{ZoneConnection, in_housing_area, spec_by_house_id, spec_in_housing_area, spec_slot_exists, spec_write_slot};

verus! {

/// How an inventory operation on the staged appearance ended.
#[derive(Debug, Clone, Copy, PartialEq, Eq, Structural)]
pub enum HousingAppearanceOperationOutcome {
    /// Neither end is an appearance container: not handled here.
    NotStaging,
    /// Outside a housing area, without edit rights, or an appearance
    /// container of the other area.
    Rejected,
    /// Not a move or an exchange.
    Unsupported,
    /// The source slot does not exist.
    InvalidSource,
    /// The destination slot does not exist.
    InvalidDestination,
    /// The two slots exchanged their items.
    Swapped,
}

/// The slot updates (container, slot, item shown) that confirm an applied
/// appearance edit, and the interior details that follow indoors.
#[derive(Debug)]
pub struct HousingAppearanceItemOperationUpdate {
    pub source: (ContainerType, u16, Item),
    pub target: (ContainerType, u16, Item),
    pub interior_details: Option<HousingInteriorDetails>,
}

impl HousingAppearanceOperationOutcome {
    /// Whether the operation was handled as an appearance operation.
    pub fn handled(&self) -> (handled: bool)
        ensures
            handled == (*self != HousingAppearanceOperationOutcome::NotStaging),
    {
        !matches!(self, HousingAppearanceOperationOutcome::NotStaging)
    }
}

impl ZoneConnection {
    /// Writing a bag or housing slot keeps which slots exist.
    pub proof fn lemma_write_slot_keeps_slots(&self, container: ContainerType, slot: u16, item: Item, c2: ContainerType, s2: u16)
        requires
            self.wf(),
        ensures
            ({
                let (p, h) = spec_write_slot(self.inventory.slots_view(), self.house_inventory.slots_view(), container, slot, item);
                spec_slot_exists(p, h, c2, s2) == spec_slot_exists(self.inventory.slots_view(), self.house_inventory.slots_view(), c2, s2)
            }),
    {
        self.inventory.lemma_set_keeps_slots(container, slot, item, c2, s2);
        self.house_inventory.lemma_set_keeps_slots(container, slot, item, c2, s2);
    }

    /// The outcome of an inventory operation that may touch the staged
    /// appearance: ignored unless an end is an appearance container;
    /// rejected outside housing areas, when the edit gate refuses (its
    /// lookup changes the connection as `spec_edit_outcome` says), or when
    /// an appearance end belongs to the other area; only moves and
    /// exchanges are carried out, between existing slots, by exchanging
    /// the two items.
    pub open spec fn spec_appearance_operation(
        &self,
        action: ItemOperation,
        intended_use: TerritoryIntendedUse,
        after: ZoneConnection,
        outcome: HousingAppearanceOperationOutcome,
    ) -> bool {
        if !spec_operation_involves_staging(action) {
            outcome == HousingAppearanceOperationOutcome::NotStaging && after == *self
        } else if !spec_in_housing_area(intended_use) {
            outcome == HousingAppearanceOperationOutcome::Rejected && after == *self
        } else {
            let (g, s1) = self.spec_edit_outcome(intended_use);
            if g is None || !spec_operation_matches_area(action, intended_use) {
                outcome == HousingAppearanceOperationOutcome::Rejected && after == s1
            } else if !(action.operation_type == ItemOperationKind::Move || action.operation_type == ItemOperationKind::Exchange) {
                outcome == HousingAppearanceOperationOutcome::Unsupported && after == s1
            } else {
                match s1.spec_player_or_housing_item(action.src_storage_id, action.src_container_index) {
                    None => outcome == HousingAppearanceOperationOutcome::InvalidSource && after == s1,
                    Some(src_item) => match s1.spec_player_or_housing_item(action.dst_storage_id, action.dst_container_index) {
                        None => outcome == HousingAppearanceOperationOutcome::InvalidDestination && after == s1,
                        Some(dst_item) => {
                            let (p1, h1) = spec_write_slot(
                                s1.inventory.slots_view(),
                                s1.house_inventory.slots_view(),
                                action.dst_storage_id,
                                action.dst_container_index,
                                src_item,
                            );
                            let (p2, h2) = spec_write_slot(p1, h1, action.src_storage_id, action.src_container_index, dst_item);
                            &&& outcome == HousingAppearanceOperationOutcome::Swapped
                            &&& s1.spec_is_with_slots(after, p2, h2)
                        },
                    },
                }
            }
        }
    }

    /// Carries out an inventory operation on the staged appearance (see
    /// `spec_appearance_operation`).
    pub fn process_housing_appearance_item_operation(
        &mut self,
        action: &ItemOperation,
        intended_use: TerritoryIntendedUse,
    ) -> (outcome: HousingAppearanceOperationOutcome)
        requires
            old(self).wf(),
        ensures
            final(self).wf(),
            old(self).spec_appearance_operation(*action, intended_use, *final(self), outcome),
    {
        if !housing_appearance_operation_involves_staging(action) {
            return HousingAppearanceOperationOutcome::NotStaging;
        }
        if !in_housing_area(intended_use) || !self.can_edit_active_housing_estate(intended_use)
            || !housing_appearance_operation_matches_area(action, intended_use) {
            return HousingAppearanceOperationOutcome::Rejected;
        }
        if !(action.operation_type == ItemOperationKind::Move || action.operation_type == ItemOperationKind::Exchange) {
            return HousingAppearanceOperationOutcome::Unsupported;
        }
        let src_item = match self.get_player_or_housing_item(action.src_storage_id, action.src_container_index) {
            Some(i) => i,
            None => return HousingAppearanceOperationOutcome::InvalidSource,
        };
        let dst_item = match self.get_player_or_housing_item(action.dst_storage_id, action.dst_container_index) {
            Some(i) => i,
            None => return HousingAppearanceOperationOutcome::InvalidDestination,
        };
        let ghost s1 = *self;
        proof {
            s1.lemma_write_slot_keeps_slots(action.dst_storage_id, action.dst_container_index, src_item, action.src_storage_id, action.src_container_index);
        }
        let wrote_destination = self.set_player_or_housing_item(action.dst_storage_id, action.dst_container_index, src_item);
        let wrote_source = self.set_player_or_housing_item(action.src_storage_id, action.src_container_index, dst_item);
        assert(wrote_destination && wrote_source);
        HousingAppearanceOperationOutcome::Swapped
    }

    /// The interior details of the active estate's row, as sent to the
    /// client; `None` without an active estate or its row.
    pub fn send_current_housing_interior_details(&self) -> (details: Option<HousingInteriorDetails>)
        requires
            self.wf(),
        ensures
            details == match self.active_housing_estate {
                None => None,
                Some(a) => match spec_by_house_id(self.database.estates_view(), a.house_id) {
                    None => None,
                    Some(e) => Some(spec_interior_details(
                        spec_interior_or_default(e.interior_json),
                        crate::zoning::spec_stored_light_level(e.light_level),
                        e.is_apartment,
                    )),
                },
            },
    {
        let active = match &self.active_housing_estate {
            Some(a) => a,
            None => return None,
        };
        match self.database.housing_estate_by_house_id(active.house_id) {
            Some(e) => Some(housing_interior_details_from_json(&e.interior_json, clamp_u8(e.light_level), e.is_apartment)),
            None => None,
        }
    }

    /// The slot updates that confirm an applied appearance edit: the
    /// source slot shows the item the target held, the target slot the
    /// item the source held; indoors the interior details follow (see
    /// `send_current_housing_interior_details`).
    pub fn send_housing_appearance_item_operation_update(
        &self,
        operation: AppliedHousingAppearanceItemOperation,
        intended_use: TerritoryIntendedUse,
    ) -> (update: HousingAppearanceItemOperationUpdate)
        requires
            self.wf(),
        ensures
            update.source == (operation.source_container, operation.source_slot, operation.original_target_item),
            update.target == (operation.target_container, operation.target_slot, operation.original_source_item),
            intended_use == TerritoryIntendedUse::HousingIndoor ==> update.interior_details == match self.active_housing_estate {
                None => None,
                Some(a) => match spec_by_house_id(self.database.estates_view(), a.house_id) {
                    None => None,
                    Some(e) => Some(spec_interior_details(
                        spec_interior_or_default(e.interior_json),
                        crate::zoning::spec_stored_light_level(e.light_level),
                        e.is_apartment,
                    )),
                },
            },
            intended_use != TerritoryIntendedUse::HousingIndoor ==> update.interior_details is None,
    {
        let interior_details = if intended_use == TerritoryIntendedUse::HousingIndoor {
            self.send_current_housing_interior_details()
        } else {
            None
        };
        HousingAppearanceItemOperationUpdate {
            source: (operation.source_container, operation.source_slot, operation.original_target_item),
            target: (operation.target_container, operation.target_slot, operation.original_source_item),
            interior_details,
        }
    }
}

} // verus!
