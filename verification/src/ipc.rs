//! The housing packets that the server sends, as plain records.
use vstd::prelude::*;

use crate::common::{HouseId, PlotSize, Position};

verus! {

/// Furniture entries in one furniture list packet.
pub const FURNITURE_COUNT: usize = 100;

/// Entries in one apartment list packet.
pub const APARTMENT_LIST_ENTRY_COUNT: usize = 15;

/// House list flag: the house is locked (no bit set).
pub const HOUSING_FLAG_LOCKED: u8 = 0;

/// House list flag: the house is open to visitors.
pub const HOUSING_FLAG_OPEN: u8 = 0x02;

/// House list flag: a free company owns the house.
pub const HOUSING_FLAG_OWNED_BY_FC: u8 = 0x10;

/// Ward summary flag: the plot is owned.
pub const HOUSING_FLAGS_PLOT_OWNED: u8 = 0x01;

/// Ward summary flag: visitors are allowed.
pub const HOUSING_FLAGS_VISITORS_ALLOWED: u8 = 0x02;

/// Ward summary flag: a house stands on the plot.
pub const HOUSING_FLAGS_HOUSE_BUILT: u8 = 0x04;

/// Ward summary flag: a free company owns the plot.
pub const HOUSING_FLAGS_OWNED_BY_FC: u8 = 0x08;

/// The dye of each exterior part.
#[derive(Debug, Default, Clone, Copy, PartialEq, Eq, Structural)]
pub struct HouseExteriorColors {
    pub roof: u8,
    pub walls: u8,
    pub windows: u8,
    pub door: u8,
    pub roof_fixture: u8,
    pub wall_fixture: u8,
    pub above_door_banner: u8,
    pub fence: u8,
}

/// The exterior parts of a house.
#[derive(Debug, Default, Clone, Copy, PartialEq, Eq, Structural)]
pub struct HouseExterior {
    pub roof_id: u16,
    pub walls_id: u16,
    pub windows_id: u16,
    pub door_id: u16,
    pub roof_fixture_id: u16,
    pub wall_fixture_id: u16,
    pub above_door_banner_id: u16,
    pub fence_id: u16,
    pub colors: HouseExteriorColors,
}

/// The interior style, light and fixtures of a house or apartment.
#[derive(Debug, Default, Clone, Copy, PartialEq, Eq, Structural)]
pub struct HousingInteriorDetails {
    pub window_style: u16,
    pub door_style: u16,
    pub door_stain: u16,
    pub light_level: u8,
    pub ground_walls: u32,
    pub ground_floor: u32,
    pub ground_chandelier: u32,
    pub top_walls: u32,
    pub top_floor: u32,
    pub top_chandelier: u32,
    pub cellar_walls: u32,
    pub cellar_floor: u32,
    pub cellar_chandelier: u32,
    pub unk_interior: u32,
}

/// What stands on a plot.
#[derive(Debug, Clone, Copy, PartialEq, Eq, Structural)]
pub enum HouseStatus {
    Vacant,
    UpForAuction,
    UnderConstruction,
    HouseBuilt,
}

impl Default for HouseStatus {
    fn default() -> (status: HouseStatus)
        ensures
            status == HouseStatus::Vacant,
    {
        HouseStatus::Vacant
    }
}

/// One plot of the house list sent on entering a ward.
#[derive(Debug, Clone, Copy, PartialEq, Eq, Structural)]
pub struct House {
    pub plot_size: PlotSize,
    pub status: HouseStatus,
    pub flags: u8,
    pub exterior: HouseExterior,
}

/// How plots of a ward can be bought.
#[derive(Debug, Clone, Copy, PartialEq, Eq, Structural)]
pub enum PurchaseType {
    Unavailable,
    FirstComeFirstServe,
    Lottery,
}

/// Who may buy plots of a ward.
#[derive(Debug, Clone, Copy, PartialEq, Eq, Structural)]
pub enum TenantType {
    Any,
    FreeCompany,
    Personal,
}

/// Whether a vacant plot can be bought.
#[derive(Debug, Clone, Copy, PartialEq, Eq, Structural)]
pub enum AvailabilityType {
    Unavailable,
    Available,
    InProgress,
}

/// One plot of a ward summary.
#[derive(Debug)]
pub struct HousingWardSummaryItem {
    pub flags: u8,
    pub name: String,
}

/// The summary of a ward: 60 plots, main division first.
#[derive(Debug)]
pub struct HousingWardInfo {
    pub id: HouseId,
    pub house_summaries: Vec<HousingWardSummaryItem>,
    pub purchase_type: PurchaseType,
    pub tenant_type: TenantType,
}

/// An owned estate in the owned housing packet.
#[derive(Debug, Default, Clone, Copy, PartialEq, Eq, Structural)]
pub struct LandData {
    pub id: HouseId,
    pub flags: u32,
    pub unk1: u32,
}

/// One room of the apartment list.
#[derive(Debug)]
pub struct ApartmentListEntry {
    pub resident_zone_id: u16,
    pub visitors_permitted: bool,
    pub resident_name: String,
    pub apartment_description: String,
}

/// The placard of an occupied plot.
#[derive(Debug)]
pub struct HousingOccupiedLandInfo {
    pub id: HouseId,
    pub owner_id: u64,
    pub house_icon: u8,
    pub house_size: PlotSize,
    pub estate_name: String,
    pub estate_greeting: String,
    pub owner_name: String,
    pub fc_tag: String,
}

/// The placard of a vacant plot.
#[derive(Debug)]
pub struct HousingVacantLandInfo {
    pub purchase_type: PurchaseType,
    pub tenant_type: TenantType,
    pub availability_type: AvailabilityType,
    pub unk4: [u8; 20],
}

/// The greeting of an estate.
#[derive(Debug)]
pub struct HousingEstateGreeting {
    pub id: HouseId,
    pub greeting: String,
}

/// A placed piece of furniture in a furniture list; the rotation is the
/// bit pattern of a 32-bit float.
#[derive(Debug, Default, Clone, Copy, PartialEq, Eq, Structural)]
pub struct Furniture {
    pub id: u16,
    pub id2: u16,
    pub stain: u8,
    pub rotation_bits: u32,
    pub position: Position,
}

/// One page of the furniture of an estate.
#[derive(Debug)]
pub struct FurnitureList {
    pub id: HouseId,
    pub index: u8,
    pub count: u8,
    pub unk2: u8,
    pub furniture: Vec<Furniture>,
}

/// Object data of one placed indoor piece of furniture.
#[derive(Debug, Default, Clone, Copy, PartialEq, Eq, Structural)]
pub struct HousingObjectDataValueSet {
    pub furniture_index: u16,
    pub value_count: u8,
}


/// The estates a player owns, by slot.
#[derive(Debug, Clone, Copy, PartialEq, Eq, Structural)]
pub struct OwnedHousing {
    pub free_company_estate: LandData,
    pub personal_estate: LandData,
    pub personal_chambers: LandData,
    pub shared_estate_1: LandData,
    pub shared_estate_2: LandData,
    pub apartment: LandData,
}

/// A page of the apartment list of a ward division.
#[derive(Debug)]
pub struct ApartmentList {
    pub content_id: u64,
    pub flags: u16,
    pub ward_id: u16,
    pub zone_id: u16,
    pub world_id: u16,
    pub list_index: u32,
    pub apartments: Vec<ApartmentListEntry>,
}

} // verus!
