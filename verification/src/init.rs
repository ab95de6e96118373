//! Entering a housing zone: what the interior-ready handshake carries,
//! how many slots an interior offers, which furniture rows become world
//! objects, and when the deferred furniture and overlays go out.
use vstd::prelude::*;

use crate::common::{ContainerType, HouseId, PlotSize, Position, TerritoryIntendedUse, spec_container_type_id};
use crate::context::{
    clamp_u16, housing_estate_plot_size, is_interior_placed_container, outdoor_house_id_from_estate, spec_clamp_u16,
    spec_housing_estate_plot_size, spec_outdoor_house_id_from_estate,
};
use crate::database::{FREE_COMPANY_HOUSING_FLAG, HousingEstate, HousingFurniture};
use crate::furniture::build_estate_furniture_lists;
use crate::inventory::{flat_slot_for_container, spec_flat_slot_for_container, spec_interior_placed_container_index};
use crate::ipc::{FurnitureList, HousingObjectDataValueSet};
use crate::seq_util::{keep, lemma_keep_take};
use crate::serialization::{housing_container_type_from_i32, spec_housing_container_from_raw};
use crate::state::ActiveHousingEstate;

verus! {

/// The indoor init must resolve the active estate unless it is already
/// an indoor one.
pub open spec fn spec_indoor_init_needs_resolution(active_estate: Option<ActiveHousingEstate>) -> bool {
    !(active_estate matches Some(a) && a.indoors)
}

/// Whether the indoor init must resolve the active estate.
pub fn housing_indoor_init_needs_resolution(active_estate: Option<&ActiveHousingEstate>) -> (r: bool)
    ensures
        r == spec_indoor_init_needs_resolution(match active_estate { Some(a) => Some(*a), None => None }),
{
    match active_estate {
        Some(a) => !a.indoors,
        None => true,
    }
}

/// Interior placed-furniture slots: 100 in an apartment, 300, 450 or 600
/// in a small, medium or large house.
pub open spec fn spec_interior_placed_slot_capacity(estate: HousingEstate) -> usize {
    if estate.is_apartment {
        100
    } else {
        match spec_housing_estate_plot_size(estate) {
            PlotSize::Small => 300,
            PlotSize::Medium => 450,
            PlotSize::Large => 600,
        }
    }
}

/// Interior placed-furniture slots of an estate.
pub fn housing_interior_placed_slot_capacity_for_estate(estate: &HousingEstate) -> (capacity: usize)
    ensures
        capacity == spec_interior_placed_slot_capacity(*estate),
{
    if estate.is_apartment {
        return 100;
    }
    match housing_estate_plot_size(estate) {
        PlotSize::Small => 300,
        PlotSize::Medium => 450,
        PlotSize::Large => 600,
    }
}

/// Finishing the indoor load waits while the furniture tail is held back.
pub fn should_defer_housing_indoor_finish_loading(intended_use: TerritoryIntendedUse, pending_tail: bool) -> (r: bool)
    ensures
        r == (intended_use == TerritoryIntendedUse::HousingIndoor && pending_tail),
{
    intended_use == TerritoryIntendedUse::HousingIndoor && pending_tail
}

/// Object data and the ready handshake follow the first indoor lists
/// when nothing is held back.
pub fn should_finish_housing_object_data_after_initial_indoor_lists(intended_use: TerritoryIntendedUse, pending_tail: bool) -> (r: bool)
    ensures
        r == (intended_use == TerritoryIntendedUse::HousingIndoor && !pending_tail),
{
    intended_use == TerritoryIntendedUse::HousingIndoor && !pending_tail
}

/// The two 32-bit halves of a value, swapped.
pub open spec fn spec_swap_halves(value: u64) -> u64 {
    (value >> 32u64) | (value << 32u64)
}

/// The primary id of the interior-ready handshake: the packed house id
/// with its halves swapped.
pub fn housing_interior_ready_primary_id(house_id: HouseId) -> (id: u64)
    requires
        house_id.well_formed(),
    ensures
        id == spec_swap_halves(house_id.spec_to_u64()),
{
    let value = house_id.to_u64();
    (value >> 32u64) | (value << 32u64)
}

/// Byte `k` (0..7) of a value in little-endian order.
pub open spec fn spec_le_byte(value: u64, k: u64) -> u8 {
    (value >> (8 * k)) as u8
}

/// The sixteen bytes hashed for the ready cookie: the land id then the
/// house id, each little-endian.
pub open spec fn spec_cookie_bytes(land_ident: u64, house_id: u64) -> Seq<u8> {
    Seq::new(16, |k: int| if k < 8 { spec_le_byte(land_ident, k as u64) } else { spec_le_byte(house_id, (k - 8) as u64) })
}

/// 32-bit FNV-1a over bytes.
pub open spec fn spec_fnv1a(bytes: Seq<u8>) -> u32
    decreases bytes.len(),
{
    if bytes.len() == 0 {
        0x811c_9dc5u32
    } else {
        (spec_fnv1a(bytes.drop_last()) ^ (bytes.last() as u32)).wrapping_mul(0x0100_0193u32)
    }
}

/// The ready cookie of an estate: FNV-1a of its land and house ids,
/// never 0.
pub open spec fn spec_ready_cookie(land_ident: u64, house_id: u64) -> u32 {
    let h = spec_fnv1a(spec_cookie_bytes(land_ident, house_id));
    if h < 1 { 1 } else { h }
}

/// The ready cookie of an estate.
pub fn stable_housing_ready_cookie(land_ident: u64, house_id: u64) -> (cookie: u32)
    ensures
        cookie == spec_ready_cookie(land_ident, house_id),
{
    let ghost bytes = spec_cookie_bytes(land_ident, house_id);
    let mut value: u32 = 0x811c_9dc5;
    let mut k: u64 = 0;
    assert(bytes.take(0) =~= Seq::<u8>::empty());
    while k < 16
        invariant
            k <= 16,
            bytes == spec_cookie_bytes(land_ident, house_id),
            value == spec_fnv1a(bytes.take(k as int)),
        decreases 16 - k,
    {
        let byte: u8 = if k < 8 {
            #[verifier::truncate] ((land_ident >> (8 * k)) as u8)
        } else {
            #[verifier::truncate] ((house_id >> (8 * (k - 8))) as u8)
        };
        assert(bytes[k as int] == byte);
        assert(bytes.take(k as int + 1).drop_last() =~= bytes.take(k as int));
        value = (value ^ (byte as u32)).wrapping_mul(0x0100_0193);
        k = k + 1;
    }
    assert(bytes.take(16) =~= bytes);
    if value < 1 { 1 } else { value }
}

/// The cookie used without an active estate.
pub const DEFAULT_HOUSING_READY_COOKIE: u32 = 0x0185_813a;

/// The mode carried in the low half of the secondary id.
pub const HOUSING_READY_MODE: u32 = 12;

/// The secondary id of the interior-ready handshake: the active estate's
/// cookie (or the default one) in the high half, the mode in the low.
pub open spec fn spec_ready_secondary_id(active_estate: Option<ActiveHousingEstate>) -> u64 {
    let cookie: u32 = match active_estate {
        Some(a) => spec_ready_cookie(a.land_ident as u64, a.house_id.spec_to_u64()),
        None => DEFAULT_HOUSING_READY_COOKIE,
    };
    ((cookie as u64) << 32u64) | (HOUSING_READY_MODE as u64)
}

/// The secondary id of the interior-ready handshake.
pub fn housing_interior_ready_secondary_id(active_estate: Option<&ActiveHousingEstate>) -> (id: u64)
    requires
        active_estate matches Some(a) ==> a.house_id.well_formed(),
    ensures
        id == spec_ready_secondary_id(match active_estate { Some(a) => Some(*a), None => None }),
{
    let cookie = match active_estate {
        Some(a) => stable_housing_ready_cookie(#[verifier::truncate] (a.land_ident as u64), a.house_id.to_u64()),
        None => DEFAULT_HOUSING_READY_COOKIE,
    };
    ((cookie as u64) << 32u64) | (HOUSING_READY_MODE as u64)
}

/// A row placed in one of the interior placed-furniture pages.
pub open spec fn spec_is_interior_placed_row(row: HousingFurniture) -> bool {
    row.placed && (spec_housing_container_from_raw(row.container_type as u16) matches Some(c)
        && spec_interior_placed_container_index(c) is Some)
}

/// Whether a row is placed in one of the interior placed-furniture pages.
pub fn is_interior_placed_furniture_row(row: &HousingFurniture) -> (r: bool)
    ensures
        r == spec_is_interior_placed_row(*row),
{
    if !row.placed {
        return false;
    }
    match housing_container_type_from_i32(row.container_type) {
        Some(c) => is_interior_placed_container(c),
        None => false,
    }
}

/// A row placed in the exterior placed-furniture container.
pub open spec fn spec_is_exterior_placed_row(row: HousingFurniture) -> bool {
    row.placed && row.container_type == spec_container_type_id(ContainerType::HousingExteriorPlacedItems) as i32
}

/// Whether a row is placed in the yard.
pub fn is_exterior_placed_furniture_row(row: &HousingFurniture) -> (r: bool)
    ensures
        r == spec_is_exterior_placed_row(*row),
{
    row.placed && row.container_type == 25001
}

/// The object data value set of an interior row: its flat slot.
pub open spec fn spec_object_data_value_set(row: HousingFurniture) -> Option<HousingObjectDataValueSet> {
    match spec_housing_container_from_raw(row.container_type as u16) {
        None => None,
        Some(c) => match spec_flat_slot_for_container(c, row.slot as u16) {
            Some(f) => Some(HousingObjectDataValueSet { furniture_index: f, value_count: 0 }),
            None => None,
        },
    }
}

/// The object data value sets of the interior placed rows, in row order.
pub open spec fn spec_object_data_value_sets(rows: Seq<HousingFurniture>) -> Seq<HousingObjectDataValueSet>
    decreases rows.len(),
{
    if rows.len() == 0 {
        Seq::empty()
    } else {
        let rest = spec_object_data_value_sets(rows.drop_last());
        let row = rows.last();
        if spec_is_interior_placed_row(row) && spec_object_data_value_set(row) is Some {
            rest.push(spec_object_data_value_set(row).unwrap())
        } else {
            rest
        }
    }
}

/// The object data value sets of the interior placed rows.
pub fn housing_object_data_value_sets_from_rows(rows: &Vec<HousingFurniture>) -> (sets: Vec<HousingObjectDataValueSet>)
    ensures
        sets@ == spec_object_data_value_sets(rows@),
{
    let mut sets: Vec<HousingObjectDataValueSet> = Vec::new();
    let mut i: usize = 0;
    assert(rows@.take(0) =~= Seq::<HousingFurniture>::empty());
    while i < rows.len()
        invariant
            i <= rows@.len(),
            sets@ == spec_object_data_value_sets(rows@.take(i as int)),
        decreases rows@.len() - i,
    {
        assert(rows@.take(i as int + 1).drop_last() =~= rows@.take(i as int));
        let row = &rows[i];
        if is_interior_placed_furniture_row(row) {
            match housing_container_type_from_i32(row.container_type) {
                Some(c) => match flat_slot_for_container(c, #[verifier::truncate] (row.slot as u16)) {
                    Some(f) => sets.push(HousingObjectDataValueSet { furniture_index: f, value_count: 0 }),
                    None => {},
                },
                None => {},
            }
        }
        i = i + 1;
    }
    assert(rows@.take(i as int) =~= rows@);
    sets
}

/// Overlays follow the remodel gate indoors when the tail went out and a
/// sync is pending.
pub fn should_sync_indoor_overlays_after_remodel(intended_use: TerritoryIntendedUse, tail_sent: bool, pending_overlay_sync: bool) -> (r: bool)
    ensures
        r == (intended_use == TerritoryIntendedUse::HousingIndoor && tail_sent && pending_overlay_sync),
{
    intended_use == TerritoryIntendedUse::HousingIndoor && tail_sent && pending_overlay_sync
}

/// Overlays follow loading indoors when nothing is held back and a sync
/// is pending.
pub fn should_sync_indoor_overlays_after_loading(intended_use: TerritoryIntendedUse, pending_tail: bool, pending_overlay_sync: bool) -> (r: bool)
    ensures
        r == (intended_use == TerritoryIntendedUse::HousingIndoor && !pending_tail && pending_overlay_sync),
{
    intended_use == TerritoryIntendedUse::HousingIndoor && !pending_tail && pending_overlay_sync
}

/// Overlays never wait for the end of zoning.
pub fn should_sync_indoor_overlays_on_finish_zoning(intended_use: TerritoryIntendedUse, pending_overlay_sync: bool) -> (r: bool)
    ensures
        !r,
{
    false
}

/// The yard furniture lists of an estate: its placed exterior rows.
pub fn build_outdoor_estate_furniture_lists(estate: &HousingEstate, rows: &Vec<HousingFurniture>) -> (lists: Vec<FurnitureList>)
    ensures
        crate::serialization::spec_is_furniture_lists(
            lists@,
            spec_outdoor_house_id_from_estate(*estate),
            keep(rows@, |r: HousingFurniture| spec_is_exterior_placed_row(r)),
            false,
            None,
        ),
        lists@.len() == crate::serialization::spec_sent_list_count(keep(rows@, |r: HousingFurniture| spec_is_exterior_placed_row(r)).len() as int, None),
        forall|i: int| 0 <= i < lists@.len() ==> {
            &&& (#[trigger] lists@[i]).id == spec_outdoor_house_id_from_estate(*estate)
            &&& lists@[i].index == i
            &&& lists@[i].furniture@ == crate::serialization::spec_list_rows(keep(rows@, |r: HousingFurniture| spec_is_exterior_placed_row(r)), None, i).map_values(
                |row: HousingFurniture| crate::serialization::spec_furniture_from_row(row),
            )
        },
{
    let ghost p = |r: HousingFurniture| spec_is_exterior_placed_row(r);
    let mut exterior_rows: Vec<HousingFurniture> = Vec::new();
    let mut i: usize = 0;
    while i < rows.len()
        invariant
            i <= rows@.len(),
            p == (|r: HousingFurniture| spec_is_exterior_placed_row(r)),
            exterior_rows@ == keep(rows@.take(i as int), p),
        decreases rows@.len() - i,
    {
        proof { lemma_keep_take(rows@, p, i as int); }
        if is_exterior_placed_furniture_row(&rows[i]) {
            exterior_rows.push(rows[i]);
        }
        i = i + 1;
    }
    assert(rows@.take(i as int) =~= rows@);
    build_estate_furniture_lists(estate, &exterior_rows, false)
}

/// A placed furniture object in the world; the rotation is the bit
/// pattern of a 32-bit float.
#[derive(Debug, Clone, Copy, PartialEq, Eq, Structural)]
pub struct HousingFurnitureObject {
    pub slot: u16,
    pub catalog_id: u16,
    pub position: Position,
    pub rotation_bits: u32,
    pub indoors: bool,
    pub ward_index: u8,
    pub plot_index: u8,
}

/// The container is a placed-furniture container of the area.
pub open spec fn spec_placed_container_matches_area(container: ContainerType, indoors: bool) -> bool {
    if indoors {
        spec_interior_placed_container_index(container) is Some
    } else {
        container == ContainerType::HousingExteriorPlacedItems
    }
}

/// Whether a container is a placed-furniture container of the area.
pub fn housing_placed_container_matches_area(container: ContainerType, indoors: bool) -> (r: bool)
    ensures
        r == spec_placed_container_matches_area(container, indoors),
{
    if indoors {
        is_interior_placed_container(container)
    } else {
        container == ContainerType::HousingExteriorPlacedItems
    }
}

/// The world object of a row: a placed row of the area's placed
/// containers, at its flat slot, with its catalog entry clamped.
pub open spec fn spec_furniture_object_in_ward(row: HousingFurniture, indoors: bool, ward_index: u8, plot_index: u8) -> Option<HousingFurnitureObject> {
    if !row.placed {
        None
    } else {
        match spec_housing_container_from_raw(row.container_type as u16) {
            None => None,
            Some(c) => if !spec_placed_container_matches_area(c, indoors) || row.slot < 0 || row.slot > 0xFFFF {
                None
            } else {
                match spec_flat_slot_for_container(c, row.slot as u16) {
                    None => None,
                    Some(slot) => Some(HousingFurnitureObject {
                        slot,
                        catalog_id: spec_clamp_u16(row.catalog_id),
                        position: Position { x_bits: row.pos_x_bits, y_bits: row.pos_y_bits, z_bits: row.pos_z_bits },
                        rotation_bits: row.rotation_bits,
                        indoors,
                        ward_index,
                        plot_index,
                    }),
                }
            },
        }
    }
}

/// The world object of a row in a given ward and plot.
pub fn housing_furniture_object_from_row_in_ward(row: &HousingFurniture, indoors: bool, ward_index: u8, plot_index: u8) -> (object: Option<HousingFurnitureObject>)
    ensures
        object == spec_furniture_object_in_ward(*row, indoors, ward_index, plot_index),
{
    if !row.placed {
        return None;
    }
    let container = match housing_container_type_from_i32(row.container_type) {
        Some(c) => c,
        None => return None,
    };
    if !housing_placed_container_matches_area(container, indoors) {
        return None;
    }
    if row.slot < 0 || row.slot > 0xFFFF {
        return None;
    }
    let slot = match flat_slot_for_container(container, row.slot as u16) {
        Some(s) => s,
        None => return None,
    };
    Some(HousingFurnitureObject {
        slot,
        catalog_id: clamp_u16(row.catalog_id),
        position: Position { x_bits: row.pos_x_bits, y_bits: row.pos_y_bits, z_bits: row.pos_z_bits },
        rotation_bits: row.rotation_bits,
        indoors,
        ward_index,
        plot_index,
    })
}

/// The world object of a row on a plot of ward 0.
pub fn housing_furniture_object_from_row(row: &HousingFurniture, indoors: bool, plot_index: u8) -> (object: Option<HousingFurnitureObject>)
    ensures
        object == spec_furniture_object_in_ward(*row, indoors, 0, plot_index),
{
    housing_furniture_object_from_row_in_ward(row, indoors, 0, plot_index)
}

/// The world objects of rows, in row order.
pub open spec fn spec_furniture_objects(rows: Seq<HousingFurniture>, indoors: bool, ward_index: u8, plot_index: u8) -> Seq<HousingFurnitureObject>
    decreases rows.len(),
{
    if rows.len() == 0 {
        Seq::empty()
    } else {
        let rest = spec_furniture_objects(rows.drop_last(), indoors, ward_index, plot_index);
        match spec_furniture_object_in_ward(rows.last(), indoors, ward_index, plot_index) {
            Some(o) => rest.push(o),
            None => rest,
        }
    }
}

/// The world objects of rows in a given ward and plot.
pub fn housing_furniture_objects_from_rows_in_ward(rows: &Vec<HousingFurniture>, indoors: bool, ward_index: u8, plot_index: u8) -> (objects: Vec<HousingFurnitureObject>)
    ensures
        objects@ == spec_furniture_objects(rows@, indoors, ward_index, plot_index),
{
    let mut objects: Vec<HousingFurnitureObject> = Vec::new();
    let mut i: usize = 0;
    assert(rows@.take(0) =~= Seq::<HousingFurniture>::empty());
    while i < rows.len()
        invariant
            i <= rows@.len(),
            objects@ == spec_furniture_objects(rows@.take(i as int), indoors, ward_index, plot_index),
        decreases rows@.len() - i,
    {
        assert(rows@.take(i as int + 1).drop_last() =~= rows@.take(i as int));
        match housing_furniture_object_from_row_in_ward(&rows[i], indoors, ward_index, plot_index) {
            Some(o) => objects.push(o),
            None => {},
        }
        i = i + 1;
    }
    assert(rows@.take(i as int) =~= rows@);
    objects
}

/// The world objects of rows on a plot of ward 0.
pub fn housing_furniture_objects_from_rows(rows: &Vec<HousingFurniture>, indoors: bool, plot_index: u8) -> (objects: Vec<HousingFurnitureObject>)
    ensures
        objects@ == spec_furniture_objects(rows@, indoors, 0, plot_index),
{
    housing_furniture_objects_from_rows_in_ward(rows, indoors, 0, plot_index)
}

/// The ward and plot that an estate's objects are keyed by: none indoors,
/// the house's client-facing ward and plot outdoors.
pub open spec fn spec_object_scope(estate: HousingEstate, indoors: bool) -> (u8, u8) {
    if indoors {
        (0, 0)
    } else {
        let id = spec_outdoor_house_id_from_estate(estate);
        (id.ward_index, id.unit.apartment_division_plot_index)
    }
}

/// The ward and plot that an estate's objects are keyed by.
pub fn housing_furniture_object_scope_for_estate(estate: &HousingEstate, indoors: bool) -> (scope: (u8, u8))
    ensures
        scope == spec_object_scope(*estate, indoors),
{
    if indoors {
        return (0, 0);
    }
    let id = outdoor_house_id_from_estate(estate);
    (id.ward_index, id.unit.apartment_division_plot_index)
}

/// Personal houses hide the additional chambers door; free company
/// houses show it.
pub open spec fn spec_should_hide_additional_chambers_door(flags: i32) -> bool {
    flags & FREE_COMPANY_HOUSING_FLAG == 0
}

/// Whether the additional chambers door is hidden.
pub fn should_hide_additional_chambers_door(flags: i32) -> (hide: bool)
    ensures
        hide == spec_should_hide_additional_chambers_door(flags),
{
    flags & FREE_COMPANY_HOUSING_FLAG == 0
}

} // verus!
