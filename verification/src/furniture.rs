//! Appearance fixtures and furniture slots: which inventory slot holds
//! which fixture, which category of item fits where, and which
//! containers and operations concern the staged appearance edit.
use vstd::prelude::*;

use crate::common::{ContainerType, HouseId, TerritoryIntendedUse};
use crate::context::{clamp_u8, spec_clamp_u8};
use crate::fixture_json::{
    HouseExteriorJson, HouseInteriorJson, HousingJson, spec_exterior_or_default, spec_exterior_with_color,
    spec_exterior_with_field, spec_interior_or_default, spec_interior_with_field, update_exterior_json_color,
    update_exterior_json_field, update_interior_json_field,
};
use crate::gamedata::{HousingGameData, HousingItemRow, spec_item_id_by_additional_data};
use crate::inventory::{HousingInventory, Item, StoreKind, housing_item, spec_housing_item, spec_store_set};
use crate::seq_util::first_match;
use crate::serialization::{
    house_exterior_from_json, housing_interior_details_from_json, spec_house_exterior, spec_interior_details,
};
use crate::context::{is_interior_placed_container, outdoor_house_id_from_estate, spec_outdoor_house_id_from_estate};
use crate::database::{HousingEstate, HousingFurniture};
use crate::fixture_json::{HousingExteriorColorField, HousingExteriorField, HousingInteriorField};
use crate::inventory::{
    indoor_container_for_flat_slot, spec_indoor_container_for_flat_slot, spec_interior_placed_container_index,
    MAX_LARGE_STORAGE,
};
use crate::ipc::{FurnitureList, HouseExterior, HousingInteriorDetails};
use crate::seq_util::{keep, lemma_keep_take};
use crate::serialization::{build_furniture_lists, spec_furniture_from_row, spec_list_rows, spec_sent_list_count, spec_furniture_list_slot_count};

verus! {

/// Item UI category of roofs.
pub const ITEM_UI_CATEGORY_ROOF: u8 = 65;
/// Item UI category of exterior walls.
pub const ITEM_UI_CATEGORY_EXTERIOR_WALL: u8 = 66;
/// Item UI category of windows.
pub const ITEM_UI_CATEGORY_WINDOW: u8 = 67;
/// Item UI category of doors.
pub const ITEM_UI_CATEGORY_DOOR: u8 = 68;
/// Item UI category of roof decorations.
pub const ITEM_UI_CATEGORY_ROOF_DECORATION: u8 = 69;
/// Item UI category of exterior wall decorations.
pub const ITEM_UI_CATEGORY_EXTERIOR_WALL_DECORATION: u8 = 70;
/// Item UI category of placards.
pub const ITEM_UI_CATEGORY_PLACARD: u8 = 71;
/// Item UI category of fences.
pub const ITEM_UI_CATEGORY_FENCE: u8 = 72;
/// Item UI category of interior walls.
pub const ITEM_UI_CATEGORY_INTERIOR_WALL: u8 = 73;
/// Item UI category of flooring.
pub const ITEM_UI_CATEGORY_FLOORING: u8 = 74;
/// Item UI category of ceiling lights.
pub const ITEM_UI_CATEGORY_CEILING_LIGHT: u8 = 75;

/// The fixture that an appearance slot shows.
#[derive(Debug, Clone, Copy, PartialEq, Eq, Structural)]
pub struct HousingAppearanceSlotSpec {
    pub container: ContainerType,
    pub slot: u16,
    pub additional_data: u32,
    pub item_ui_category: u8,
    pub stain: u8,
}

/// The slot has a fixture to show.
pub open spec fn spec_slot_has_fixture(s: HousingAppearanceSlotSpec) -> bool {
    s.additional_data != 0
}

/// The eight exterior appearance slots (1..8): roof, walls, windows,
/// door, roof decoration, wall decoration, placard, fence.
pub open spec fn spec_exterior_slot_candidates(e: HouseExterior) -> Seq<HousingAppearanceSlotSpec> {
    let c = ContainerType::HousingExteriorAppearance;
    seq![
        HousingAppearanceSlotSpec { container: c, slot: 1, additional_data: e.roof_id as u32, item_ui_category: ITEM_UI_CATEGORY_ROOF, stain: e.colors.roof },
        HousingAppearanceSlotSpec { container: c, slot: 2, additional_data: e.walls_id as u32, item_ui_category: ITEM_UI_CATEGORY_EXTERIOR_WALL, stain: e.colors.walls },
        HousingAppearanceSlotSpec { container: c, slot: 3, additional_data: e.windows_id as u32, item_ui_category: ITEM_UI_CATEGORY_WINDOW, stain: e.colors.windows },
        HousingAppearanceSlotSpec { container: c, slot: 4, additional_data: e.door_id as u32, item_ui_category: ITEM_UI_CATEGORY_DOOR, stain: e.colors.door },
        HousingAppearanceSlotSpec { container: c, slot: 5, additional_data: e.roof_fixture_id as u32, item_ui_category: ITEM_UI_CATEGORY_ROOF_DECORATION, stain: e.colors.roof_fixture },
        HousingAppearanceSlotSpec { container: c, slot: 6, additional_data: e.wall_fixture_id as u32, item_ui_category: ITEM_UI_CATEGORY_EXTERIOR_WALL_DECORATION, stain: e.colors.wall_fixture },
        HousingAppearanceSlotSpec { container: c, slot: 7, additional_data: e.above_door_banner_id as u32, item_ui_category: ITEM_UI_CATEGORY_PLACARD, stain: e.colors.above_door_banner },
        HousingAppearanceSlotSpec { container: c, slot: 8, additional_data: e.fence_id as u32, item_ui_category: ITEM_UI_CATEGORY_FENCE, stain: e.colors.fence },
    ]
}

/// The interior appearance slots: walls, floor and light of the ground
/// floor (0..2), then of the upper floor (3..5) and the cellar (6..8) of
/// a house.
pub open spec fn spec_interior_slot_candidates(d: HousingInteriorDetails, is_apartment: bool) -> Seq<HousingAppearanceSlotSpec> {
    let c = ContainerType::HousingInteriorAppearance;
    let ground = seq![
        HousingAppearanceSlotSpec { container: c, slot: 0, additional_data: d.ground_walls, item_ui_category: ITEM_UI_CATEGORY_INTERIOR_WALL, stain: 0 },
        HousingAppearanceSlotSpec { container: c, slot: 1, additional_data: d.ground_floor, item_ui_category: ITEM_UI_CATEGORY_FLOORING, stain: 0 },
        HousingAppearanceSlotSpec { container: c, slot: 2, additional_data: d.ground_chandelier, item_ui_category: ITEM_UI_CATEGORY_CEILING_LIGHT, stain: 0 },
    ];
    if is_apartment {
        ground
    } else {
        ground + seq![
            HousingAppearanceSlotSpec { container: c, slot: 3, additional_data: d.top_walls, item_ui_category: ITEM_UI_CATEGORY_INTERIOR_WALL, stain: 0 },
            HousingAppearanceSlotSpec { container: c, slot: 4, additional_data: d.top_floor, item_ui_category: ITEM_UI_CATEGORY_FLOORING, stain: 0 },
            HousingAppearanceSlotSpec { container: c, slot: 5, additional_data: d.top_chandelier, item_ui_category: ITEM_UI_CATEGORY_CEILING_LIGHT, stain: 0 },
            HousingAppearanceSlotSpec { container: c, slot: 6, additional_data: d.cellar_walls, item_ui_category: ITEM_UI_CATEGORY_INTERIOR_WALL, stain: 0 },
            HousingAppearanceSlotSpec { container: c, slot: 7, additional_data: d.cellar_floor, item_ui_category: ITEM_UI_CATEGORY_FLOORING, stain: 0 },
            HousingAppearanceSlotSpec { container: c, slot: 8, additional_data: d.cellar_chandelier, item_ui_category: ITEM_UI_CATEGORY_CEILING_LIGHT, stain: 0 },
        ]
    }
}

/// The fixture predicate as a value.
pub open spec fn spec_has_fixture_filter() -> spec_fn(HousingAppearanceSlotSpec) -> bool {
    |s: HousingAppearanceSlotSpec| spec_slot_has_fixture(s)
}

fn keep_fixture_slots(candidates: Vec<HousingAppearanceSlotSpec>) -> (specs: Vec<HousingAppearanceSlotSpec>)
    ensures
        specs@ == keep(candidates@, spec_has_fixture_filter()),
{
    let ghost p = spec_has_fixture_filter();
    let mut specs: Vec<HousingAppearanceSlotSpec> = Vec::new();
    let mut i: usize = 0;
    while i < candidates.len()
        invariant
            i <= candidates@.len(),
            p == spec_has_fixture_filter(),
            specs@ == keep(candidates@.take(i as int), p),
        decreases candidates@.len() - i,
    {
        proof { lemma_keep_take(candidates@, p, i as int); }
        if candidates[i].additional_data != 0 {
            specs.push(candidates[i]);
        }
        i = i + 1;
    }
    assert(candidates@.take(i as int) =~= candidates@);
    specs
}

/// The exterior appearance slots that show a fixture, in slot order.
pub fn housing_exterior_appearance_slot_specs(exterior: &HouseExterior) -> (specs: Vec<HousingAppearanceSlotSpec>)
    ensures
        specs@ == keep(spec_exterior_slot_candidates(*exterior), spec_has_fixture_filter()),
{
    let c = ContainerType::HousingExteriorAppearance;
    let e = exterior;
    let candidates = vec![
        HousingAppearanceSlotSpec { container: c, slot: 1, additional_data: e.roof_id as u32, item_ui_category: ITEM_UI_CATEGORY_ROOF, stain: e.colors.roof },
        HousingAppearanceSlotSpec { container: c, slot: 2, additional_data: e.walls_id as u32, item_ui_category: ITEM_UI_CATEGORY_EXTERIOR_WALL, stain: e.colors.walls },
        HousingAppearanceSlotSpec { container: c, slot: 3, additional_data: e.windows_id as u32, item_ui_category: ITEM_UI_CATEGORY_WINDOW, stain: e.colors.windows },
        HousingAppearanceSlotSpec { container: c, slot: 4, additional_data: e.door_id as u32, item_ui_category: ITEM_UI_CATEGORY_DOOR, stain: e.colors.door },
        HousingAppearanceSlotSpec { container: c, slot: 5, additional_data: e.roof_fixture_id as u32, item_ui_category: ITEM_UI_CATEGORY_ROOF_DECORATION, stain: e.colors.roof_fixture },
        HousingAppearanceSlotSpec { container: c, slot: 6, additional_data: e.wall_fixture_id as u32, item_ui_category: ITEM_UI_CATEGORY_EXTERIOR_WALL_DECORATION, stain: e.colors.wall_fixture },
        HousingAppearanceSlotSpec { container: c, slot: 7, additional_data: e.above_door_banner_id as u32, item_ui_category: ITEM_UI_CATEGORY_PLACARD, stain: e.colors.above_door_banner },
        HousingAppearanceSlotSpec { container: c, slot: 8, additional_data: e.fence_id as u32, item_ui_category: ITEM_UI_CATEGORY_FENCE, stain: e.colors.fence },
    ];
    assert(candidates@ =~= spec_exterior_slot_candidates(*exterior));
    keep_fixture_slots(candidates)
}

/// The interior appearance slots that show a fixture, in slot order; an
/// apartment has only the ground floor.
pub fn housing_interior_appearance_slot_specs(interior: &HousingInteriorDetails, is_apartment: bool) -> (specs: Vec<HousingAppearanceSlotSpec>)
    ensures
        specs@ == keep(spec_interior_slot_candidates(*interior, is_apartment), spec_has_fixture_filter()),
{
    let c = ContainerType::HousingInteriorAppearance;
    let d = interior;
    let mut candidates = vec![
        HousingAppearanceSlotSpec { container: c, slot: 0, additional_data: d.ground_walls, item_ui_category: ITEM_UI_CATEGORY_INTERIOR_WALL, stain: 0 },
        HousingAppearanceSlotSpec { container: c, slot: 1, additional_data: d.ground_floor, item_ui_category: ITEM_UI_CATEGORY_FLOORING, stain: 0 },
        HousingAppearanceSlotSpec { container: c, slot: 2, additional_data: d.ground_chandelier, item_ui_category: ITEM_UI_CATEGORY_CEILING_LIGHT, stain: 0 },
    ];
    if !is_apartment {
        candidates.push(HousingAppearanceSlotSpec { container: c, slot: 3, additional_data: d.top_walls, item_ui_category: ITEM_UI_CATEGORY_INTERIOR_WALL, stain: 0 });
        candidates.push(HousingAppearanceSlotSpec { container: c, slot: 4, additional_data: d.top_floor, item_ui_category: ITEM_UI_CATEGORY_FLOORING, stain: 0 });
        candidates.push(HousingAppearanceSlotSpec { container: c, slot: 5, additional_data: d.top_chandelier, item_ui_category: ITEM_UI_CATEGORY_CEILING_LIGHT, stain: 0 });
        candidates.push(HousingAppearanceSlotSpec { container: c, slot: 6, additional_data: d.cellar_walls, item_ui_category: ITEM_UI_CATEGORY_INTERIOR_WALL, stain: 0 });
        candidates.push(HousingAppearanceSlotSpec { container: c, slot: 7, additional_data: d.cellar_floor, item_ui_category: ITEM_UI_CATEGORY_FLOORING, stain: 0 });
        candidates.push(HousingAppearanceSlotSpec { container: c, slot: 8, additional_data: d.cellar_chandelier, item_ui_category: ITEM_UI_CATEGORY_CEILING_LIGHT, stain: 0 });
    }
    assert(candidates@ =~= spec_interior_slot_candidates(*interior, is_apartment));
    keep_fixture_slots(candidates)
}

/// The container slot of a placed-furniture object slot: indoors the
/// interior pages, outdoors the fifty exterior slots.
pub open spec fn spec_placed_container_for_flat_slot(flat_slot: u16, indoors: bool) -> Option<(ContainerType, u16)> {
    if indoors {
        spec_indoor_container_for_flat_slot(flat_slot)
    } else if flat_slot < MAX_LARGE_STORAGE {
        Some((ContainerType::HousingExteriorPlacedItems, flat_slot))
    } else {
        None
    }
}

/// The container slot of a placed-furniture object slot.
pub fn placed_container_for_flat_slot(flat_slot: u16, indoors: bool) -> (location: Option<(ContainerType, u16)>)
    ensures
        location == spec_placed_container_for_flat_slot(flat_slot, indoors),
{
    if indoors {
        return indoor_container_for_flat_slot(flat_slot);
    }
    if flat_slot < MAX_LARGE_STORAGE {
        Some((ContainerType::HousingExteriorPlacedItems, flat_slot))
    } else {
        None
    }
}

/// Taking an item out of a container removes an object from the world
/// only for the placed-furniture containers.
pub open spec fn spec_should_broadcast_housing_item_removal(container: ContainerType) -> bool {
    container == ContainerType::HousingExteriorPlacedItems || spec_interior_placed_container_index(container) is Some
}

/// Whether removing an item from `container` removes a placed object.
pub fn should_broadcast_housing_item_removal(container: ContainerType) -> (r: bool)
    ensures
        r == spec_should_broadcast_housing_item_removal(container),
{
    container == ContainerType::HousingExteriorPlacedItems || is_interior_placed_container(container)
}

/// The appearance containers and their edit copies.
pub open spec fn spec_is_housing_appearance_container(container: ContainerType) -> bool {
    ||| container == ContainerType::HousingExteriorAppearance
    ||| container == ContainerType::HousingExteriorAppearanceEdit
    ||| container == ContainerType::HousingInteriorAppearance
    ||| container == ContainerType::HousingInteriorAppearanceEdit
}

/// Whether `container` is an appearance container.
pub fn is_housing_appearance_container(container: ContainerType) -> (r: bool)
    ensures
        r == spec_is_housing_appearance_container(container),
{
    match container {
        ContainerType::HousingExteriorAppearance | ContainerType::HousingExteriorAppearanceEdit
        | ContainerType::HousingInteriorAppearance | ContainerType::HousingInteriorAppearanceEdit => true,
        _ => false,
    }
}

/// The area an appearance container belongs to.
pub open spec fn spec_appearance_container_intended_use(container: ContainerType) -> Option<TerritoryIntendedUse> {
    match container {
        ContainerType::HousingExteriorAppearance | ContainerType::HousingExteriorAppearanceEdit => Some(TerritoryIntendedUse::HousingOutdoor),
        ContainerType::HousingInteriorAppearance | ContainerType::HousingInteriorAppearanceEdit => Some(TerritoryIntendedUse::HousingIndoor),
        _ => None,
    }
}

/// The area an appearance container belongs to.
pub fn housing_appearance_container_intended_use(container: ContainerType) -> (area: Option<TerritoryIntendedUse>)
    ensures
        area == spec_appearance_container_intended_use(container),
{
    match container {
        ContainerType::HousingExteriorAppearance | ContainerType::HousingExteriorAppearanceEdit => Some(TerritoryIntendedUse::HousingOutdoor),
        ContainerType::HousingInteriorAppearance | ContainerType::HousingInteriorAppearanceEdit => Some(TerritoryIntendedUse::HousingIndoor),
        _ => None,
    }
}

/// What an inventory operation does.
#[derive(Debug, Clone, Copy, PartialEq, Eq, Structural)]
pub enum ItemOperationKind {
    Discard,
    Move,
    Exchange,
    SplitStack,
    Merge,
}

/// An inventory operation requested by the client.
#[derive(Debug, Clone, Copy, PartialEq, Eq, Structural)]
pub struct ItemOperation {
    pub operation_type: ItemOperationKind,
    pub src_storage_id: ContainerType,
    pub src_container_index: u16,
    pub dst_storage_id: ContainerType,
    pub dst_container_index: u16,
}

/// An operation touches the staged appearance when either end is an
/// appearance container.
pub open spec fn spec_operation_involves_staging(action: ItemOperation) -> bool {
    spec_is_housing_appearance_container(action.src_storage_id) || spec_is_housing_appearance_container(action.dst_storage_id)
}

/// Whether an operation touches an appearance container.
pub fn housing_appearance_operation_involves_staging(action: &ItemOperation) -> (r: bool)
    ensures
        r == spec_operation_involves_staging(*action),
{
    is_housing_appearance_container(action.src_storage_id) || is_housing_appearance_container(action.dst_storage_id)
}

/// Every appearance container that an operation touches belongs to
/// `intended_use`.
pub open spec fn spec_operation_matches_area(action: ItemOperation, intended_use: TerritoryIntendedUse) -> bool {
    &&& (spec_appearance_container_intended_use(action.src_storage_id) matches Some(u) ==> u == intended_use)
    &&& (spec_appearance_container_intended_use(action.dst_storage_id) matches Some(u) ==> u == intended_use)
}

/// Whether the appearance containers of an operation belong to the area.
pub fn housing_appearance_operation_matches_area(action: &ItemOperation, intended_use: TerritoryIntendedUse) -> (r: bool)
    ensures
        r == spec_operation_matches_area(*action, intended_use),
{
    let src_ok = match housing_appearance_container_intended_use(action.src_storage_id) {
        Some(u) => u == intended_use,
        None => true,
    };
    let dst_ok = match housing_appearance_container_intended_use(action.dst_storage_id) {
        Some(u) => u == intended_use,
        None => true,
    };
    src_ok && dst_ok
}

/// The slot that a fixture category goes to when the client names none:
/// interior walls, floors and lights on the main floor (the ground
/// floor of an apartment, the upper floor's slots 3..5 of a house);
/// exterior categories to their slots 1..8.
pub open spec fn spec_default_target_slot(item_ui_category: u8, intended_use: TerritoryIntendedUse, is_apartment: bool) -> Option<u16> {
    match intended_use {
        TerritoryIntendedUse::HousingIndoor => {
            let base: u16 = if is_apartment { 0 } else { 3 };
            if item_ui_category == ITEM_UI_CATEGORY_INTERIOR_WALL {
                Some(base)
            } else if item_ui_category == ITEM_UI_CATEGORY_FLOORING {
                Some((base + 1) as u16)
            } else if item_ui_category == ITEM_UI_CATEGORY_CEILING_LIGHT {
                Some((base + 2) as u16)
            } else {
                None
            }
        },
        TerritoryIntendedUse::HousingOutdoor => spec_exterior_slot_for_category(item_ui_category),
        _ => None,
    }
}

/// The exterior slot of a fixture category.
pub open spec fn spec_exterior_slot_for_category(item_ui_category: u8) -> Option<u16> {
    if ITEM_UI_CATEGORY_ROOF <= item_ui_category <= ITEM_UI_CATEGORY_FENCE {
        Some((item_ui_category - ITEM_UI_CATEGORY_ROOF + 1) as u16)
    } else {
        None
    }
}

/// The slot that a fixture category goes to when the client names none.
pub fn default_housing_appearance_target_slot(item_ui_category: u8, intended_use: TerritoryIntendedUse, is_apartment: bool) -> (slot: Option<u16>)
    ensures
        slot == spec_default_target_slot(item_ui_category, intended_use, is_apartment),
{
    match intended_use {
        TerritoryIntendedUse::HousingIndoor => {
            let base: u16 = if is_apartment { 0 } else { 3 };
            if item_ui_category == ITEM_UI_CATEGORY_INTERIOR_WALL {
                Some(base)
            } else if item_ui_category == ITEM_UI_CATEGORY_FLOORING {
                Some(base + 1)
            } else if item_ui_category == ITEM_UI_CATEGORY_CEILING_LIGHT {
                Some(base + 2)
            } else {
                None
            }
        },
        TerritoryIntendedUse::HousingOutdoor => {
            if item_ui_category == ITEM_UI_CATEGORY_ROOF {
                Some(1)
            } else if item_ui_category == ITEM_UI_CATEGORY_EXTERIOR_WALL {
                Some(2)
            } else if item_ui_category == ITEM_UI_CATEGORY_WINDOW {
                Some(3)
            } else if item_ui_category == ITEM_UI_CATEGORY_DOOR {
                Some(4)
            } else if item_ui_category == ITEM_UI_CATEGORY_ROOF_DECORATION {
                Some(5)
            } else if item_ui_category == ITEM_UI_CATEGORY_EXTERIOR_WALL_DECORATION {
                Some(6)
            } else if item_ui_category == ITEM_UI_CATEGORY_PLACARD {
                Some(7)
            } else if item_ui_category == ITEM_UI_CATEGORY_FENCE {
                Some(8)
            } else {
                None
            }
        },
        _ => None,
    }
}

/// The interior fixture stored for an interior appearance slot.
pub open spec fn spec_interior_field_for_slot(slot: u16) -> Option<HousingInteriorField> {
    if slot == 0 {
        Some(HousingInteriorField::GroundWalls)
    } else if slot == 1 {
        Some(HousingInteriorField::GroundFloor)
    } else if slot == 2 {
        Some(HousingInteriorField::GroundChandelier)
    } else if slot == 3 {
        Some(HousingInteriorField::TopWalls)
    } else if slot == 4 {
        Some(HousingInteriorField::TopFloor)
    } else if slot == 5 {
        Some(HousingInteriorField::TopChandelier)
    } else if slot == 6 {
        Some(HousingInteriorField::CellarWalls)
    } else if slot == 7 {
        Some(HousingInteriorField::CellarFloor)
    } else if slot == 8 {
        Some(HousingInteriorField::CellarChandelier)
    } else {
        None
    }
}

/// The interior fixture stored for an interior appearance slot.
pub fn housing_interior_field_for_appearance_slot(slot: u16) -> (field: Option<HousingInteriorField>)
    ensures
        field == spec_interior_field_for_slot(slot),
{
    match slot {
        0 => Some(HousingInteriorField::GroundWalls),
        1 => Some(HousingInteriorField::GroundFloor),
        2 => Some(HousingInteriorField::GroundChandelier),
        3 => Some(HousingInteriorField::TopWalls),
        4 => Some(HousingInteriorField::TopFloor),
        5 => Some(HousingInteriorField::TopChandelier),
        6 => Some(HousingInteriorField::CellarWalls),
        7 => Some(HousingInteriorField::CellarFloor),
        8 => Some(HousingInteriorField::CellarChandelier),
        _ => None,
    }
}

/// The category an interior slot takes: walls, flooring and lights in
/// turn, by the slot modulo three.
pub open spec fn spec_interior_category_for_slot(slot: u16) -> Option<u8> {
    if slot % 3 == 0 {
        Some(ITEM_UI_CATEGORY_INTERIOR_WALL)
    } else if slot % 3 == 1 {
        Some(ITEM_UI_CATEGORY_FLOORING)
    } else {
        Some(ITEM_UI_CATEGORY_CEILING_LIGHT)
    }
}

/// The category an interior slot takes.
pub fn housing_interior_item_ui_category_for_slot(slot: u16) -> (category: Option<u8>)
    ensures
        category == spec_interior_category_for_slot(slot),
{
    let r = slot % 3;
    if r == 0 {
        Some(ITEM_UI_CATEGORY_INTERIOR_WALL)
    } else if r == 1 {
        Some(ITEM_UI_CATEGORY_FLOORING)
    } else {
        Some(ITEM_UI_CATEGORY_CEILING_LIGHT)
    }
}

/// The exterior part stored for an exterior appearance slot.
pub open spec fn spec_exterior_field_for_slot(slot: u16) -> Option<HousingExteriorField> {
    if slot == 1 {
        Some(HousingExteriorField::Roof)
    } else if slot == 2 {
        Some(HousingExteriorField::Walls)
    } else if slot == 3 {
        Some(HousingExteriorField::Windows)
    } else if slot == 4 {
        Some(HousingExteriorField::Door)
    } else if slot == 5 {
        Some(HousingExteriorField::RoofFixture)
    } else if slot == 6 {
        Some(HousingExteriorField::WallFixture)
    } else if slot == 7 {
        Some(HousingExteriorField::AboveDoorBanner)
    } else if slot == 8 {
        Some(HousingExteriorField::Fence)
    } else {
        None
    }
}

/// The exterior part stored for an exterior appearance slot.
pub fn housing_exterior_field_for_appearance_slot(slot: u16) -> (field: Option<HousingExteriorField>)
    ensures
        field == spec_exterior_field_for_slot(slot),
{
    match slot {
        1 => Some(HousingExteriorField::Roof),
        2 => Some(HousingExteriorField::Walls),
        3 => Some(HousingExteriorField::Windows),
        4 => Some(HousingExteriorField::Door),
        5 => Some(HousingExteriorField::RoofFixture),
        6 => Some(HousingExteriorField::WallFixture),
        7 => Some(HousingExteriorField::AboveDoorBanner),
        8 => Some(HousingExteriorField::Fence),
        _ => None,
    }
}

/// The category an exterior slot takes: slots 1..8 take roofs through
/// fences.
pub open spec fn spec_exterior_category_for_slot(slot: u16) -> Option<u8> {
    if 1 <= slot <= 8 {
        Some((ITEM_UI_CATEGORY_ROOF + slot - 1) as u8)
    } else {
        None
    }
}

/// The category an exterior slot takes.
pub fn housing_exterior_item_ui_category_for_slot(slot: u16) -> (category: Option<u8>)
    ensures
        category == spec_exterior_category_for_slot(slot),
{
    match slot {
        1 => Some(ITEM_UI_CATEGORY_ROOF),
        2 => Some(ITEM_UI_CATEGORY_EXTERIOR_WALL),
        3 => Some(ITEM_UI_CATEGORY_WINDOW),
        4 => Some(ITEM_UI_CATEGORY_DOOR),
        5 => Some(ITEM_UI_CATEGORY_ROOF_DECORATION),
        6 => Some(ITEM_UI_CATEGORY_EXTERIOR_WALL_DECORATION),
        7 => Some(ITEM_UI_CATEGORY_PLACARD),
        8 => Some(ITEM_UI_CATEGORY_FENCE),
        _ => None,
    }
}

/// The exterior color stored for an exterior appearance slot.
pub open spec fn spec_exterior_color_field_for_slot(slot: u16) -> Option<HousingExteriorColorField> {
    if slot == 1 {
        Some(HousingExteriorColorField::Roof)
    } else if slot == 2 {
        Some(HousingExteriorColorField::Walls)
    } else if slot == 3 {
        Some(HousingExteriorColorField::Windows)
    } else if slot == 4 {
        Some(HousingExteriorColorField::Door)
    } else if slot == 5 {
        Some(HousingExteriorColorField::RoofFixture)
    } else if slot == 6 {
        Some(HousingExteriorColorField::WallFixture)
    } else if slot == 7 {
        Some(HousingExteriorColorField::AboveDoorBanner)
    } else if slot == 8 {
        Some(HousingExteriorColorField::Fence)
    } else {
        None
    }
}

/// The exterior color stored for an exterior appearance slot.
pub fn housing_exterior_color_field_for_appearance_slot(slot: u16) -> (field: Option<HousingExteriorColorField>)
    ensures
        field == spec_exterior_color_field_for_slot(slot),
{
    match slot {
        1 => Some(HousingExteriorColorField::Roof),
        2 => Some(HousingExteriorColorField::Walls),
        3 => Some(HousingExteriorColorField::Windows),
        4 => Some(HousingExteriorColorField::Door),
        5 => Some(HousingExteriorColorField::RoofFixture),
        6 => Some(HousingExteriorColorField::WallFixture),
        7 => Some(HousingExteriorColorField::AboveDoorBanner),
        8 => Some(HousingExteriorColorField::Fence),
        _ => None,
    }
}

/// The slot a marker names, kept only when it is a real appearance slot
/// of the area whose category is the item's (and, in an apartment, on
/// the ground floor).
pub open spec fn spec_marker_target_slot(item_ui_category: u8, intended_use: TerritoryIntendedUse, is_apartment: bool, marker: Option<u16>) -> Option<u16> {
    match marker {
        None => None,
        Some(t) => if intended_use == TerritoryIntendedUse::HousingIndoor && is_apartment && t > 2 {
            None
        } else {
            let expected = match intended_use {
                TerritoryIntendedUse::HousingIndoor => if spec_interior_field_for_slot(t) is Some {
                    spec_interior_category_for_slot(t)
                } else {
                    None
                },
                TerritoryIntendedUse::HousingOutdoor => if spec_exterior_field_for_slot(t) is Some {
                    spec_exterior_category_for_slot(t)
                } else {
                    None
                },
                _ => None,
            };
            if expected == Some(item_ui_category) { Some(t) } else { None }
        },
    }
}

/// The slot a marker names, if the item fits it.
pub fn housing_appearance_marker_target_slot(
    item_ui_category: u8,
    intended_use: TerritoryIntendedUse,
    is_apartment: bool,
    marker_target_slot: Option<u16>,
) -> (slot: Option<u16>)
    ensures
        slot == spec_marker_target_slot(item_ui_category, intended_use, is_apartment, marker_target_slot),
{
    let target_slot = match marker_target_slot {
        Some(t) => t,
        None => return None,
    };
    if intended_use == TerritoryIntendedUse::HousingIndoor && is_apartment && target_slot > 2 {
        return None;
    }
    let expected = match intended_use {
        TerritoryIntendedUse::HousingIndoor => match housing_interior_field_for_appearance_slot(target_slot) {
            Some(_) => housing_interior_item_ui_category_for_slot(target_slot),
            None => None,
        },
        TerritoryIntendedUse::HousingOutdoor => match housing_exterior_field_for_appearance_slot(target_slot) {
            Some(_) => housing_exterior_item_ui_category_for_slot(target_slot),
            None => None,
        },
        _ => None,
    };
    match expected {
        Some(c) => if c == item_ui_category { Some(target_slot) } else { None },
        None => None,
    }
}

/// The target slot of a staged appearance item: the marker's slot when
/// the client named one, else the category's default slot.
pub open spec fn spec_target_slot(item_ui_category: u8, intended_use: TerritoryIntendedUse, is_apartment: bool, marker: Option<u16>) -> Option<u16> {
    match marker {
        Some(_) => spec_marker_target_slot(item_ui_category, intended_use, is_apartment, marker),
        None => spec_default_target_slot(item_ui_category, intended_use, is_apartment),
    }
}

/// The target slot of a staged appearance item.
pub fn housing_appearance_target_slot(
    item_ui_category: u8,
    intended_use: TerritoryIntendedUse,
    is_apartment: bool,
    marker_target_slot: Option<u16>,
) -> (slot: Option<u16>)
    ensures
        slot == spec_target_slot(item_ui_category, intended_use, is_apartment, marker_target_slot),
{
    match marker_target_slot {
        Some(_) => housing_appearance_marker_target_slot(item_ui_category, intended_use, is_apartment, marker_target_slot),
        None => default_housing_appearance_target_slot(item_ui_category, intended_use, is_apartment),
    }
}

/// The house id that an estate's furniture lists carry: the stored id
/// indoors, the plot's outdoor id outdoors.
pub open spec fn spec_estate_list_house_id(estate: HousingEstate, indoors: bool) -> HouseId {
    if indoors {
        HouseId::spec_from_u64(estate.house_id as u64)
    } else {
        spec_outdoor_house_id_from_estate(estate)
    }
}

/// The furniture lists of an estate, with no slot capacity.
pub fn build_estate_furniture_lists(estate: &HousingEstate, rows: &Vec<HousingFurniture>, indoors: bool) -> (lists: Vec<FurnitureList>)
    ensures
        crate::serialization::spec_is_furniture_lists(lists@, spec_estate_list_house_id(*estate, indoors), rows@, indoors, None),
        lists@.len() == spec_sent_list_count(rows@.len() as int, None),
        forall|i: int| 0 <= i < lists@.len() ==> {
            &&& (#[trigger] lists@[i]).id == spec_estate_list_house_id(*estate, indoors)
            &&& lists@[i].index == i
            &&& lists@[i].count == spec_sent_list_count(rows@.len() as int, None)
            &&& lists@[i].unk2 == spec_furniture_list_slot_count(indoors, None, i)
            &&& lists@[i].furniture@ == spec_list_rows(rows@, None, i).map_values(|row: HousingFurniture| spec_furniture_from_row(row))
        },
{
    let house_id = if indoors {
        HouseId::from_u64(estate.house_id as u64)
    } else {
        outdoor_house_id_from_estate(estate)
    };
    build_furniture_lists(house_id, rows, indoors, None)
}


/// The fixture data and UI category of an item that is an appearance
/// fixture: a non-empty slot whose item row carries fixture data.
pub open spec fn spec_appearance_item_data(rows: Seq<HousingItemRow>, item: Item) -> Option<(u32, u8)> {
    if item.spec_is_empty_slot() {
        None
    } else {
        match first_match(rows, |r: HousingItemRow| r.item_id == item.item_id) {
            Some(r) => if r.additional_data != 0 { Some((r.additional_data, r.item_ui_category)) } else { None },
            None => None,
        }
    }
}

/// The fixture data and UI category of an appearance fixture item.
pub fn housing_appearance_item_data(game_data: &HousingGameData, item: Item) -> (data: Option<(u32, u8)>)
    ensures
        data == spec_appearance_item_data(game_data.rows_view(), item),
{
    if item.is_empty_slot() {
        return None;
    }
    match game_data.get_item_info(item.item_id) {
        Some(row) => if row.additional_data != 0 { Some((row.additional_data, row.item_ui_category)) } else { None },
        None => None,
    }
}

/// The inventory slots after showing one appearance slot: the item whose
/// fixture data and category match goes into the slot, dyed; a fixture
/// without an item changes nothing.
pub open spec fn spec_populate_slot(slots: Seq<Item>, rows: Seq<HousingItemRow>, spec: HousingAppearanceSlotSpec) -> Seq<Item> {
    match spec_item_id_by_additional_data(rows, spec.additional_data, spec.item_ui_category) {
        Some(item_id) => spec_store_set(StoreKind::Housing, slots, spec.container, spec.slot, spec_housing_item(item_id, spec.stain)),
        None => slots,
    }
}

/// The inventory slots after showing appearance slots in order.
pub open spec fn spec_populate_slots(slots: Seq<Item>, rows: Seq<HousingItemRow>, specs: Seq<HousingAppearanceSlotSpec>) -> Seq<Item>
    decreases specs.len(),
{
    if specs.len() == 0 {
        slots
    } else {
        spec_populate_slot(spec_populate_slots(slots, rows, specs.drop_last()), rows, specs.last())
    }
}

/// The appearance slots of an estate: the exterior's, then the
/// interior's, each only where a fixture is stored or defaulted.
pub open spec fn spec_estate_appearance_specs(estate: HousingEstate) -> Seq<HousingAppearanceSlotSpec> {
    let exterior = spec_house_exterior(spec_exterior_or_default(estate.exterior_json));
    let interior = spec_interior_details(spec_interior_or_default(estate.interior_json), spec_clamp_u8(estate.light_level), estate.is_apartment);
    keep(spec_exterior_slot_candidates(exterior), spec_has_fixture_filter())
        + keep(spec_interior_slot_candidates(interior, estate.is_apartment), spec_has_fixture_filter())
}

fn populate_housing_appearance_slot(inventory: &mut HousingInventory, game_data: &HousingGameData, spec: HousingAppearanceSlotSpec)
    requires
        old(inventory).wf(),
    ensures
        final(inventory).wf(),
        final(inventory).slots_view() == spec_populate_slot(old(inventory).slots_view(), game_data.rows_view(), spec),
{
    match game_data.get_item_id_by_additional_data(spec.additional_data, spec.item_ui_category) {
        Some(item_id) => {
            inventory.set_item(spec.container, spec.slot, housing_item(item_id, spec.stain));
        },
        None => {},
    }
}

/// Shows an estate's fixtures in the appearance containers: each
/// exterior and interior fixture as the item that carries it.
pub fn populate_housing_appearance_inventory(inventory: &mut HousingInventory, game_data: &HousingGameData, estate: &HousingEstate)
    requires
        old(inventory).wf(),
    ensures
        final(inventory).wf(),
        final(inventory).slots_view() == spec_populate_slots(old(inventory).slots_view(), game_data.rows_view(), spec_estate_appearance_specs(*estate)),
{
    let exterior = house_exterior_from_json(&estate.exterior_json);
    let light_level = clamp_u8(estate.light_level);
    let interior = housing_interior_details_from_json(&estate.interior_json, light_level, estate.is_apartment);
    let mut specs = housing_exterior_appearance_slot_specs(&exterior);
    let interior_specs = housing_interior_appearance_slot_specs(&interior, estate.is_apartment);
    let mut k: usize = 0;
    let ghost first = specs@;
    while k < interior_specs.len()
        invariant
            k <= interior_specs@.len(),
            specs@ == first + interior_specs@.take(k as int),
        decreases interior_specs@.len() - k,
    {
        specs.push(interior_specs[k]);
        assert(interior_specs@.take(k as int + 1) =~= interior_specs@.take(k as int).push(interior_specs@[k as int]));
        k = k + 1;
    }
    assert(interior_specs@.take(k as int) =~= interior_specs@);
    assert(specs@ == spec_estate_appearance_specs(*estate));
    let ghost start = inventory.slots_view();
    let mut i: usize = 0;
    assert(specs@.take(0) =~= Seq::<HousingAppearanceSlotSpec>::empty());
    while i < specs.len()
        invariant
            i <= specs@.len(),
            inventory.wf(),
            inventory.slots_view() == spec_populate_slots(start, game_data.rows_view(), specs@.take(i as int)),
        decreases specs@.len() - i,
    {
        assert(specs@.take(i as int + 1).drop_last() =~= specs@.take(i as int));
        populate_housing_appearance_slot(inventory, game_data, specs[i]);
        i = i + 1;
    }
    assert(specs@.take(i as int) =~= specs@);
}

/// The interior record after one appearance slot: a fixture of the
/// slot's category is stored in the slot's field; other items change
/// nothing; a malformed record cannot be updated (`None`).
pub open spec fn spec_interior_record_step(
    acc: Option<HousingJson<HouseInteriorJson>>,
    rows: Seq<HousingItemRow>,
    entry: (u16, Item),
) -> Option<HousingJson<HouseInteriorJson>> {
    match acc {
        None => None,
        Some(j) => match spec_interior_field_for_slot(entry.0) {
            None => Some(j),
            Some(field) => match spec_appearance_item_data(rows, entry.1) {
                None => Some(j),
                Some(data) => if spec_interior_category_for_slot(entry.0) != Some(data.1) {
                    Some(j)
                } else {
                    match j {
                        HousingJson::Valid(v) => Some(HousingJson::Valid(spec_interior_with_field(v, field, data.0))),
                        HousingJson::Malformed(_) => None,
                    }
                },
            },
        },
    }
}

/// The interior record after the appearance slots, in order.
pub open spec fn spec_interior_record_from_items(
    json: HousingJson<HouseInteriorJson>,
    rows: Seq<HousingItemRow>,
    items: Seq<(u16, Item)>,
) -> Option<HousingJson<HouseInteriorJson>>
    decreases items.len(),
{
    if items.len() == 0 {
        Some(json)
    } else {
        spec_interior_record_step(spec_interior_record_from_items(json, rows, items.drop_last()), rows, items.last())
    }
}

/// The interior record that the current interior appearance slots
/// describe, starting from the stored one; `None` when a fixture would
/// have to be written into a malformed record.
pub fn interior_json_from_appearance(
    json: &HousingJson<HouseInteriorJson>,
    game_data: &HousingGameData,
    items: &Vec<(u16, Item)>,
) -> (record: Option<HousingJson<HouseInteriorJson>>)
    ensures
        record == spec_interior_record_from_items(*json, game_data.rows_view(), items@),
{
    let mut acc = json.clone();
    let mut i: usize = 0;
    assert(items@.take(0) =~= Seq::<(u16, Item)>::empty());
    while i < items.len()
        invariant
            i <= items@.len(),
            Some(acc) == spec_interior_record_from_items(*json, game_data.rows_view(), items@.take(i as int)),
        decreases items@.len() - i,
    {
        assert(items@.take(i as int + 1).drop_last() =~= items@.take(i as int));
        let (slot, item) = items[i];
        match housing_interior_field_for_appearance_slot(slot) {
            None => {},
            Some(field) => match housing_appearance_item_data(game_data, item) {
                None => {},
                Some((additional_data, category)) => {
                    let expected = housing_interior_item_ui_category_for_slot(slot);
                    if expected == Some(category) {
                        match update_interior_json_field(&acc, field, additional_data) {
                            Ok(updated) => {
                                acc = HousingJson::Valid(updated);
                            },
                            Err(_) => {
                                proof { lemma_interior_record_stays_none(*json, game_data.rows_view(), items@, i as int + 1); }
                                return None;
                            },
                        }
                    }
                },
            },
        }
        i = i + 1;
    }
    assert(items@.take(i as int) =~= items@);
    Some(acc)
}

proof fn lemma_interior_record_stays_none(
    json: HousingJson<HouseInteriorJson>,
    rows: Seq<HousingItemRow>,
    items: Seq<(u16, Item)>,
    k: int,
)
    requires
        0 <= k <= items.len(),
        spec_interior_record_from_items(json, rows, items.take(k)) is None,
    ensures
        spec_interior_record_from_items(json, rows, items) is None,
    decreases items.len() - k,
{
    if k < items.len() {
        assert(items.take(k + 1).drop_last() =~= items.take(k));
        lemma_interior_record_stays_none(json, rows, items, k + 1);
    } else {
        assert(items.take(k) =~= items);
    }
}

/// The exterior record after one appearance slot: a fixture of the
/// slot's category is stored in the slot's part, and its first stain,
/// when set, as the part's color; a malformed record cannot be updated.
pub open spec fn spec_exterior_record_step(
    acc: Option<HousingJson<HouseExteriorJson>>,
    rows: Seq<HousingItemRow>,
    entry: (u16, Item),
) -> Option<HousingJson<HouseExteriorJson>> {
    match acc {
        None => None,
        Some(j) => match spec_exterior_field_for_slot(entry.0) {
            None => Some(j),
            Some(field) => match spec_appearance_item_data(rows, entry.1) {
                None => Some(j),
                Some(data) => if spec_exterior_category_for_slot(entry.0) != Some(data.1) {
                    Some(j)
                } else {
                    match j {
                        HousingJson::Valid(v) => {
                            let with_part = spec_exterior_with_field(v, field, data.0 as u16);
                            if entry.1.stains[0] != 0 {
                                match spec_exterior_color_field_for_slot(entry.0) {
                                    Some(color) => Some(HousingJson::Valid(spec_exterior_with_color(with_part, color, entry.1.stains[0]))),
                                    None => Some(HousingJson::Valid(with_part)),
                                }
                            } else {
                                Some(HousingJson::Valid(with_part))
                            }
                        },
                        HousingJson::Malformed(_) => None,
                    }
                },
            },
        },
    }
}

/// The exterior record after the appearance slots, in order.
pub open spec fn spec_exterior_record_from_items(
    json: HousingJson<HouseExteriorJson>,
    rows: Seq<HousingItemRow>,
    items: Seq<(u16, Item)>,
) -> Option<HousingJson<HouseExteriorJson>>
    decreases items.len(),
{
    if items.len() == 0 {
        Some(json)
    } else {
        spec_exterior_record_step(spec_exterior_record_from_items(json, rows, items.drop_last()), rows, items.last())
    }
}

proof fn lemma_exterior_record_stays_none(
    json: HousingJson<HouseExteriorJson>,
    rows: Seq<HousingItemRow>,
    items: Seq<(u16, Item)>,
    k: int,
)
    requires
        0 <= k <= items.len(),
        spec_exterior_record_from_items(json, rows, items.take(k)) is None,
    ensures
        spec_exterior_record_from_items(json, rows, items) is None,
    decreases items.len() - k,
{
    if k < items.len() {
        assert(items.take(k + 1).drop_last() =~= items.take(k));
        lemma_exterior_record_stays_none(json, rows, items, k + 1);
    } else {
        assert(items.take(k) =~= items);
    }
}

/// The exterior record that the current exterior appearance slots
/// describe, starting from the stored one; `None` when a fixture would
/// have to be written into a malformed record.
pub fn exterior_json_from_appearance(
    json: &HousingJson<HouseExteriorJson>,
    game_data: &HousingGameData,
    items: &Vec<(u16, Item)>,
) -> (record: Option<HousingJson<HouseExteriorJson>>)
    ensures
        record == spec_exterior_record_from_items(*json, game_data.rows_view(), items@),
{
    let mut acc = json.clone();
    let mut i: usize = 0;
    assert(items@.take(0) =~= Seq::<(u16, Item)>::empty());
    while i < items.len()
        invariant
            i <= items@.len(),
            Some(acc) == spec_exterior_record_from_items(*json, game_data.rows_view(), items@.take(i as int)),
        decreases items@.len() - i,
    {
        assert(items@.take(i as int + 1).drop_last() =~= items@.take(i as int));
        let (slot, item) = items[i];
        match housing_exterior_field_for_appearance_slot(slot) {
            None => {},
            Some(field) => match housing_appearance_item_data(game_data, item) {
                None => {},
                Some((additional_data, category)) => {
                    let expected = housing_exterior_item_ui_category_for_slot(slot);
                    if expected == Some(category) {
                        match update_exterior_json_field(&acc, field, additional_data as u16) {
                            Ok(updated) => {
                                let stain = item.first_stain();
                                if stain != 0 {
                                    match housing_exterior_color_field_for_appearance_slot(slot) {
                                        Some(color) => {
                                            let with_part = HousingJson::Valid(updated);
                                            match update_exterior_json_color(&with_part, color, stain) {
                                                Ok(colored) => {
                                                    acc = HousingJson::Valid(colored);
                                                },
                                                Err(_) => {
                                                    acc = with_part;
                                                },
                                            }
                                        },
                                        None => {
                                            acc = HousingJson::Valid(updated);
                                        },
                                    }
                                } else {
                                    acc = HousingJson::Valid(updated);
                                }
                            },
                            Err(_) => {
                                proof { lemma_exterior_record_stays_none(*json, game_data.rows_view(), items@, i as int + 1); }
                                return None;
                            },
                        }
                    }
                },
            },
        }
        i = i + 1;
    }
    assert(items@.take(i as int) =~= items@);
    Some(acc)
}

} // verus!
