//! The housing selection and staging state that a zone connection keeps.
use vstd::prelude::*;

use crate::common::{ContainerType, HouseId, Position};
use crate::inventory::Item;

verus! {

/// The estate that housing edits are authorized against.
#[derive(Debug, Default, Clone, Copy, PartialEq, Eq, Structural)]
pub struct ActiveHousingEstate {
    pub land_ident: i64,
    pub house_id: HouseId,
    pub indoors: bool,
}

/// A housing ward: its territory, ward index and division.
#[derive(Debug, Default, Clone, Copy, PartialEq, Eq, Structural)]
pub struct ActiveHousingWardContext {
    pub territory_type_id: u16,
    pub ward_index: u8,
    pub division: u8,
}

/// A staged fixture swap between a player bag slot and an appearance slot.
#[derive(Debug, Clone, Copy)]
pub struct PendingHousingAppearanceItemOperation {
    pub source_container: ContainerType,
    pub source_slot: u16,
    pub target_container: ContainerType,
    pub target_slot: u16,
}

/// A fixture swap that was applied, with the items it replaced.
#[derive(Debug, Clone, Copy)]
pub struct AppliedHousingAppearanceItemOperation {
    pub source_container: ContainerType,
    pub source_slot: u16,
    pub target_container: ContainerType,
    pub target_slot: u16,
    pub original_source_item: Item,
    pub original_target_item: Item,
}

/// Which parts of an estate a layout preset covers.
#[derive(Debug, Clone, Copy, PartialEq, Eq, Structural)]
pub enum HousingPresetScope {
    All,
    Interior,
    Exterior,
}

impl HousingPresetScope {
    /// The scope covers the interior.
    pub open spec fn spec_includes_interior(self) -> bool {
        self != HousingPresetScope::Exterior
    }

    /// The scope covers the exterior.
    pub open spec fn spec_includes_exterior(self) -> bool {
        self != HousingPresetScope::Interior
    }

    /// Whether the scope covers the interior.
    pub fn includes_interior(&self) -> (r: bool)
        ensures
            r == self.spec_includes_interior(),
    {
        !matches!(self, HousingPresetScope::Exterior)
    }

    /// Whether the scope covers the exterior.
    pub fn includes_exterior(&self) -> (r: bool)
        ensures
            r == self.spec_includes_exterior(),
    {
        !matches!(self, HousingPresetScope::Interior)
    }
}

/// The last layout preset that was applied, for repeating it.
#[derive(Debug)]
pub struct LastHousingPreset {
    pub path: String,
    pub scope: HousingPresetScope,
}

impl Clone for LastHousingPreset {
    fn clone(&self) -> (copy: LastHousingPreset)
        ensures
            copy == *self,
    {
        LastHousingPreset { path: self.path.clone(), scope: self.scope }
    }
}


/// A placed furniture object as the world addresses it: its flat slot,
/// whether it stands indoors, and (outdoors) its ward and plot.
#[derive(Debug, Clone, Copy, PartialEq, Eq, Structural)]
pub struct HousingFurnitureObjectKey {
    pub slot: u16,
    pub indoors: bool,
    pub ward_index: u8,
    pub plot_index: u8,
}

/// A furniture placement that was stored; the rotation is the bit
/// pattern of a 32-bit float.
#[derive(Debug, Clone, Copy, PartialEq, Eq, Structural)]
pub struct PersistedFurniturePlacement {
    pub container: ContainerType,
    pub slot: u16,
    pub catalog_id: u16,
    pub stain: u8,
    pub position: Position,
    pub indoors: bool,
    pub rotation_bits: u32,
    pub ward_index: u8,
    pub plot_index: u8,
    pub object_slot: u16,
    pub spawned: bool,
}

/// A furniture move within the estate that was stored.
#[derive(Debug, Clone, Copy, PartialEq, Eq, Structural)]
pub struct PersistedFurnitureTranslation {
    pub storage_id: ContainerType,
    pub container_slot: u16,
    pub plot_number: u16,
    pub object_key: HousingFurnitureObjectKey,
}

/// A furniture item taken into the bags or the storeroom.
#[derive(Debug, Clone, Copy, PartialEq, Eq, Structural)]
pub struct PersistedHousingItemMove {
    pub item_id: u32,
    pub src_container: ContainerType,
    pub dst_container: ContainerType,
    pub ack_slot: u16,
    pub removed_from_world: bool,
    pub object_key: Option<HousingFurnitureObjectKey>,
}

} // verus!
