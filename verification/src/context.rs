//! Which estate and ward housing actions apply to, and who may edit them.
//!
//! Write authority for outdoor edits comes only from a trusted ward context
//! (one the server established for the zone the player stands in) and an
//! estate row at the plot that the client names, owned by the player.
//! Display contexts (ward browsing, placards) never grant it.
use vstd::prelude::*;

use crate::common::{
    ContainerType, HOUSING_PLOTS_PER_DIVISION, HouseId, HouseUnit, PlotSize, Position,
    spec_plot_size_from_repr,
};
use crate::database::{HousingEstate, WorldDatabase, spec_at_location, spec_owned_by, spec_owned_estates};
use crate::inventory::{HousingInventory, empty_item, spec_interior_placed_container_index};
use crate::seq_util::{first_match, keep, lemma_first_match_found, lemma_first_match_skip, lemma_first_match_some, lemma_keep_elements};
use crate::state::{ActiveHousingEstate, ActiveHousingWardContext};

verus! {

/// Apartment interior territories.
pub const APARTMENT_INTERIOR_TERRITORY_TYPE_IDS: [u16; 5] = [608, 609, 610, 655, 999];

/// Indoor furniture lists sent before the client finishes loading.
pub const INDOOR_FURNITURE_LISTS_BEFORE_FINISH_LOADING: usize = 3;

/// A plot of a ward as the client addresses it: `raw_plot_index` counts
/// 0..59 over both divisions, `plot_index` counts 0..29 within one.
#[derive(Debug, Clone, Copy, PartialEq, Eq, Structural)]
pub struct OutdoorHousingLocation {
    pub territory_type_id: u16,
    pub ward_index: u8,
    pub division: u8,
    pub plot_index: u8,
    pub raw_plot_index: u8,
}

/// Where a player appears on entering an interior; the rotation is the
/// bit pattern of a 32-bit float.
#[derive(Debug, Clone, Copy, PartialEq, Eq, Structural)]
pub struct HousingEntryTransform {
    pub position: Position,
    pub rotation_bits: u32,
}

/// `v` clamped into `0..=u16::MAX`.
pub open spec fn spec_clamp_u16(v: i32) -> u16 {
    if v < 0 {
        0
    } else if v > 0xFFFF {
        0xFFFF
    } else {
        v as u16
    }
}

/// `v` clamped into `0..=u8::MAX`.
pub open spec fn spec_clamp_u8(v: i32) -> u8 {
    if v < 0 {
        0
    } else if v > 0xFF {
        0xFF
    } else {
        v as u8
    }
}

/// Clamps a stored number into a `u16`.
pub fn clamp_u16(v: i32) -> (r: u16)
    ensures
        r == spec_clamp_u16(v),
{
    if v < 0 {
        0
    } else if v > 0xFFFF {
        0xFFFF
    } else {
        v as u16
    }
}

/// Clamps a stored number into a `u8`.
pub fn clamp_u8(v: i32) -> (r: u8)
    ensures
        r == spec_clamp_u8(v),
{
    if v < 0 {
        0
    } else if v > 0xFF {
        0xFF
    } else {
        v as u8
    }
}

/// The house id stored in an estate row.
pub open spec fn spec_estate_house_id(estate: HousingEstate) -> HouseId {
    HouseId::spec_from_u64(estate.house_id as u64)
}

/// The active-estate record of an estate row.
pub open spec fn spec_active_housing_estate(estate: HousingEstate, indoors: bool) -> ActiveHousingEstate {
    ActiveHousingEstate { land_ident: estate.land_ident, house_id: spec_estate_house_id(estate), indoors }
}

/// The active-estate record of an estate row, with the stored house id.
pub fn active_housing_estate(estate: &HousingEstate, indoors: bool) -> (active: ActiveHousingEstate)
    ensures
        active == spec_active_housing_estate(*estate, indoors),
        active.house_id.well_formed(),
{
    ActiveHousingEstate {
        land_ident: estate.land_ident,
        house_id: HouseId::from_u64(estate.house_id as u64),
        indoors,
    }
}

/// The territory is an apartment interior.
pub open spec fn spec_apartment_interior_zone_id(zone_id: u16) -> bool {
    zone_id == 608 || zone_id == 609 || zone_id == 610 || zone_id == 655 || zone_id == 999
}

/// Whether a territory is an apartment interior.
pub fn apartment_interior_zone_id(zone_id: u16) -> (r: bool)
    ensures
        r == spec_apartment_interior_zone_id(zone_id),
{
    let ids = APARTMENT_INTERIOR_TERRITORY_TYPE_IDS;
    let mut i: usize = 0;
    while i < 5
        invariant
            i <= 5,
            ids@ == seq![608u16, 609u16, 610u16, 655u16, 999u16],
            forall|k: int| 0 <= k < i ==> ids@[k] != zone_id,
        decreases 5 - i,
    {
        if ids[i] == zone_id {
            return true;
        }
        i = i + 1;
    }
    false
}

/// The plot size of an estate; unknown stored sizes count as large.
pub open spec fn spec_housing_estate_plot_size(estate: HousingEstate) -> PlotSize {
    match spec_plot_size_from_repr(estate.plot_size as u8) {
        Some(s) => s,
        None => PlotSize::Large,
    }
}

/// The plot size of an estate; unknown stored sizes count as large.
pub fn housing_estate_plot_size(estate: &HousingEstate) -> (size: PlotSize)
    ensures
        size == spec_housing_estate_plot_size(*estate),
{
    match PlotSize::from_repr(estate.plot_size as u8) {
        Some(s) => s,
        None => PlotSize::Large,
    }
}

/// The ward of an estate row, each number clamped into its field.
pub open spec fn spec_ward_context_from_estate(estate: HousingEstate) -> ActiveHousingWardContext {
    ActiveHousingWardContext {
        territory_type_id: spec_clamp_u16(estate.territory_type_id),
        ward_index: spec_clamp_u8(estate.ward_index),
        division: spec_clamp_u8(estate.division),
    }
}

/// The ward of an estate row, each number clamped into its field.
pub fn active_housing_ward_context_from_estate(estate: &HousingEstate) -> (context: ActiveHousingWardContext)
    ensures
        context == spec_ward_context_from_estate(*estate),
{
    ActiveHousingWardContext {
        territory_type_id: clamp_u16(estate.territory_type_id),
        ward_index: clamp_u8(estate.ward_index),
        division: clamp_u8(estate.division),
    }
}

/// The ward to display: the display context, else the active context,
/// else the active estate's ward, else the default.
pub open spec fn spec_display_context(
    display_context: Option<ActiveHousingWardContext>,
    active_context: Option<ActiveHousingWardContext>,
    active_estate_context: Option<ActiveHousingWardContext>,
    default_context: ActiveHousingWardContext,
) -> ActiveHousingWardContext {
    match display_context {
        Some(c) => c,
        None => match active_context {
            Some(c) => c,
            None => match active_estate_context {
                Some(c) => c,
                None => default_context,
            },
        },
    }
}

/// The ward to display: the display context, else the active context,
/// else the active estate's ward, else the default.
pub fn display_housing_ward_context_or_default(
    display_context: Option<ActiveHousingWardContext>,
    active_context: Option<ActiveHousingWardContext>,
    active_estate_context: Option<ActiveHousingWardContext>,
    default_context: ActiveHousingWardContext,
) -> (context: ActiveHousingWardContext)
    ensures
        context == spec_display_context(display_context, active_context, active_estate_context, default_context),
{
    match display_context {
        Some(c) => c,
        None => match active_context {
            Some(c) => c,
            None => match active_estate_context {
                Some(c) => c,
                None => default_context,
            },
        },
    }
}

/// The player owns the estate.
pub open spec fn spec_can_edit_housing_estate(estate: HousingEstate, content_id: u64) -> bool {
    estate.owner_content_id == Some(content_id as i64)
}

/// Only the owner may edit an estate.
pub fn can_edit_housing_estate(estate: &HousingEstate, content_id: u64) -> (r: bool)
    ensures
        r == spec_can_edit_housing_estate(*estate, content_id),
{
    estate.owner_content_id == Some(content_id as i64)
}

/// The plot of a house row in client terms, if its numbers are a valid plot.
pub open spec fn spec_outdoor_location_from_estate(estate: HousingEstate) -> Option<OutdoorHousingLocation> {
    if 0 <= estate.territory_type_id <= 0xFFFF && 0 <= estate.ward_index <= 0xFF && 0 <= estate.division <= 1
        && 0 <= estate.plot_index < 30 {
        Some(OutdoorHousingLocation {
            territory_type_id: estate.territory_type_id as u16,
            ward_index: estate.ward_index as u8,
            division: estate.division as u8,
            plot_index: estate.plot_index as u8,
            raw_plot_index: (estate.plot_index + estate.division * 30) as u8,
        })
    } else {
        None
    }
}

/// The plot of a house row in client terms; `None` when a number does not
/// fit its field, the division is past 1 or the plot past 29.
pub fn outdoor_housing_location_from_estate(estate: &HousingEstate) -> (location: Option<OutdoorHousingLocation>)
    ensures
        location == spec_outdoor_location_from_estate(*estate),
{
    if estate.territory_type_id < 0 || estate.territory_type_id > 0xFFFF {
        return None;
    }
    if estate.ward_index < 0 || estate.ward_index > 0xFF {
        return None;
    }
    if estate.division < 0 || estate.division > 0xFF {
        return None;
    }
    if estate.plot_index < 0 || estate.plot_index > 0xFF {
        return None;
    }
    let division = estate.division as u8;
    let plot_index = estate.plot_index as u8;
    if division > 1 || plot_index >= HOUSING_PLOTS_PER_DIVISION {
        return None;
    }
    Some(OutdoorHousingLocation {
        territory_type_id: estate.territory_type_id as u16,
        ward_index: estate.ward_index as u8,
        division,
        plot_index,
        raw_plot_index: plot_index + division * HOUSING_PLOTS_PER_DIVISION,
    })
}

/// The client-facing house id of a house at `location`: the raw land-set
/// entry as plot, no apartment flag, room 0, the ward capped at 63, the
/// stored `unk1`, and the row's world.
pub open spec fn spec_outdoor_house_id_from_estate_location(estate: HousingEstate, location: OutdoorHousingLocation) -> HouseId {
    HouseId {
        unit: HouseUnit { apartment_division_plot_index: location.raw_plot_index, apartment_flag: false },
        unk1: spec_estate_house_id(estate).unk1,
        ward_index: if location.ward_index < 0x3F { location.ward_index } else { 0x3Fu8 },
        room_number: 0,
        territory_type_id: location.territory_type_id,
        world_id: spec_clamp_u16(estate.world_id),
    }
}

/// The client-facing house id of a house at `location`.
pub fn outdoor_house_id_from_estate_location(estate: &HousingEstate, location: OutdoorHousingLocation) -> (id: HouseId)
    ensures
        id == spec_outdoor_house_id_from_estate_location(*estate, location),
{
    let persisted = HouseId::from_u64(estate.house_id as u64);
    HouseId {
        unit: HouseUnit { apartment_division_plot_index: location.raw_plot_index, apartment_flag: false },
        unk1: persisted.unk1,
        ward_index: if location.ward_index < 0x3F { location.ward_index } else { 0x3F },
        room_number: 0,
        territory_type_id: location.territory_type_id,
        world_id: clamp_u16(estate.world_id),
    }
}

/// The client-facing house id of a house row: derived from its plot when
/// that is valid, else the stored id.
pub open spec fn spec_outdoor_house_id_from_estate(estate: HousingEstate) -> HouseId {
    match spec_outdoor_location_from_estate(estate) {
        Some(location) => spec_outdoor_house_id_from_estate_location(estate, location),
        None => spec_estate_house_id(estate),
    }
}

/// The client-facing house id of a house row.
pub fn outdoor_house_id_from_estate(estate: &HousingEstate) -> (id: HouseId)
    ensures
        id == spec_outdoor_house_id_from_estate(*estate),
{
    match outdoor_housing_location_from_estate(estate) {
        Some(location) => outdoor_house_id_from_estate_location(estate, location),
        None => HouseId::from_u64(estate.house_id as u64),
    }
}

/// The authority that a placard gives: only the owner's placard selects
/// the estate (outdoors, with its client-facing id).
pub open spec fn spec_placard_authoritative_estate(estate: HousingEstate, content_id: u64) -> Option<ActiveHousingEstate> {
    if spec_can_edit_housing_estate(estate, content_id) {
        Some(ActiveHousingEstate {
            land_ident: estate.land_ident,
            house_id: spec_outdoor_house_id_from_estate(estate),
            indoors: false,
        })
    } else {
        None
    }
}

/// The authority that a placard gives: only the owner's placard selects
/// the estate.
pub fn placard_authoritative_estate(estate: &HousingEstate, content_id: u64) -> (active: Option<ActiveHousingEstate>)
    ensures
        active == spec_placard_authoritative_estate(*estate, content_id),
{
    if !can_edit_housing_estate(estate, content_id) {
        return None;
    }
    Some(ActiveHousingEstate {
        land_ident: estate.land_ident,
        house_id: outdoor_house_id_from_estate(estate),
        indoors: false,
    })
}

/// The ward that the house list of an outdoor zone shows: the active
/// context if it is for this zone, else the display context, else the
/// default, always with the zone's territory.
pub open spec fn spec_outdoor_init_display_context(
    active_context: Option<ActiveHousingWardContext>,
    display_context: Option<ActiveHousingWardContext>,
    default_context: ActiveHousingWardContext,
    zone_id: u16,
) -> ActiveHousingWardContext {
    let context = match active_context {
        Some(c) => if c.territory_type_id == zone_id {
            c
        } else {
            match display_context {
                Some(d) => d,
                None => default_context,
            }
        },
        None => match display_context {
            Some(d) => d,
            None => default_context,
        },
    };
    ActiveHousingWardContext { territory_type_id: zone_id, ..context }
}

/// The ward that the house list of an outdoor zone shows.
pub fn outdoor_init_display_context(
    active_context: Option<ActiveHousingWardContext>,
    display_context: Option<ActiveHousingWardContext>,
    default_context: ActiveHousingWardContext,
    zone_id: u16,
) -> (context: ActiveHousingWardContext)
    ensures
        context == spec_outdoor_init_display_context(active_context, display_context, default_context, zone_id),
{
    let context = match active_context {
        Some(c) if c.territory_type_id == zone_id => c,
        _ => match display_context {
            Some(d) => d,
            None => default_context,
        },
    };
    ActiveHousingWardContext { territory_type_id: zone_id, ..context }
}

/// The trusted context on outdoor init is the active context alone; the
/// active estate's ward never stands in for it.
pub fn outdoor_init_active_context(
    active_context: Option<ActiveHousingWardContext>,
    active_estate_context: Option<ActiveHousingWardContext>,
) -> (context: Option<ActiveHousingWardContext>)
    ensures
        context == active_context,
{
    active_context
}

/// Browsing a ward leaves the trusted context as it was.
pub fn trusted_housing_ward_context_after_display_update(
    active_context: Option<ActiveHousingWardContext>,
    display_context: ActiveHousingWardContext,
) -> (context: Option<ActiveHousingWardContext>)
    ensures
        context == active_context,
{
    active_context
}

/// Showing a vacant placard leaves the trusted context as it was.
pub fn trusted_housing_ward_context_after_vacant_placard(
    active_context: Option<ActiveHousingWardContext>,
    display_context: ActiveHousingWardContext,
) -> (context: Option<ActiveHousingWardContext>)
    ensures
        context == active_context,
{
    active_context
}

/// The trusted context after entering outdoor zone `zone_id`: the active
/// context if it is for that zone, else none.
pub open spec fn spec_outdoor_init_authoritative_context(
    active_context: Option<ActiveHousingWardContext>,
    zone_id: u16,
) -> Option<ActiveHousingWardContext> {
    match active_context {
        Some(c) => if c.territory_type_id == zone_id {
            Some(c)
        } else {
            None
        },
        None => None,
    }
}

/// The trusted context after entering outdoor zone `zone_id`; a display
/// context never becomes trusted.
pub fn outdoor_init_authoritative_context(
    active_context: Option<ActiveHousingWardContext>,
    display_context: ActiveHousingWardContext,
    zone_id: u16,
) -> (context: Option<ActiveHousingWardContext>)
    ensures
        context == spec_outdoor_init_authoritative_context(active_context, zone_id),
{
    let context = match active_context {
        Some(c) => c,
        None => return None,
    };
    if context.territory_type_id != zone_id {
        return None;
    }
    Some(context)
}

/// The plot that a raw land-set entry names in a ward.
pub open spec fn spec_outdoor_location_from_raw_entry(context: ActiveHousingWardContext, raw_plot_index: u8) -> Option<OutdoorHousingLocation> {
    if raw_plot_index < 30 {
        Some(OutdoorHousingLocation {
            territory_type_id: context.territory_type_id,
            ward_index: context.ward_index,
            division: 0,
            plot_index: raw_plot_index,
            raw_plot_index,
        })
    } else if raw_plot_index < 60 {
        Some(OutdoorHousingLocation {
            territory_type_id: context.territory_type_id,
            ward_index: context.ward_index,
            division: 1,
            plot_index: (raw_plot_index - 30) as u8,
            raw_plot_index,
        })
    } else {
        None
    }
}

/// The plot that a raw land-set entry names in a ward: entries 0..29 are
/// the main division, 30..59 the subdivision, others none.
pub fn outdoor_housing_location_from_raw_entry(context: ActiveHousingWardContext, raw_plot_index: u8) -> (location: Option<OutdoorHousingLocation>)
    ensures
        location == spec_outdoor_location_from_raw_entry(context, raw_plot_index),
{
    let (division, plot_index): (u8, u8) = if raw_plot_index <= 29 {
        (0, raw_plot_index)
    } else if raw_plot_index <= 59 {
        (1, raw_plot_index - HOUSING_PLOTS_PER_DIVISION)
    } else {
        return None;
    };
    Some(OutdoorHousingLocation {
        territory_type_id: context.territory_type_id,
        ward_index: context.ward_index,
        division,
        plot_index,
        raw_plot_index,
    })
}

/// The row is the house at the location (not an apartment, room 0).
pub open spec fn spec_estate_matches_outdoor_location(estate: HousingEstate, location: OutdoorHousingLocation) -> bool {
    &&& estate.territory_type_id == location.territory_type_id as i32
    &&& estate.ward_index == location.ward_index as i32
    &&& estate.division == location.division as i32
    &&& estate.plot_index == location.plot_index as i32
    &&& !estate.is_apartment
    &&& estate.room_number == 0
}

/// Whether the row is the house at the location.
pub fn housing_estate_matches_outdoor_location(estate: &HousingEstate, location: OutdoorHousingLocation) -> (r: bool)
    ensures
        r == spec_estate_matches_outdoor_location(*estate, location),
{
    estate.territory_type_id == location.territory_type_id as i32
        && estate.ward_index == location.ward_index as i32
        && estate.division == location.division as i32
        && estate.plot_index == location.plot_index as i32
        && !estate.is_apartment
        && estate.room_number == 0
}

/// Outdoor edit authority from a row: it must be the house at the
/// location and the player must own it.
pub open spec fn spec_active_estate_for_outdoor_row(estate: HousingEstate, location: OutdoorHousingLocation, content_id: u64) -> Option<ActiveHousingEstate> {
    if spec_estate_matches_outdoor_location(estate, location) && spec_can_edit_housing_estate(estate, content_id) {
        Some(ActiveHousingEstate {
            land_ident: estate.land_ident,
            house_id: spec_outdoor_house_id_from_estate_location(estate, location),
            indoors: false,
        })
    } else {
        None
    }
}

/// Outdoor edit authority from a row at a resolved location.
pub fn active_housing_estate_for_outdoor_row(estate: &HousingEstate, location: OutdoorHousingLocation, content_id: u64) -> (active: Option<ActiveHousingEstate>)
    ensures
        active == spec_active_estate_for_outdoor_row(*estate, location, content_id),
{
    if !housing_estate_matches_outdoor_location(estate, location) {
        return None;
    }
    if !can_edit_housing_estate(estate, content_id) {
        return None;
    }
    Some(ActiveHousingEstate {
        land_ident: estate.land_ident,
        house_id: outdoor_house_id_from_estate_location(estate, location),
        indoors: false,
    })
}

/// Outdoor removal authority: an outdoor, non-apartment active estate
/// whose row (same land) is an owned house.
pub open spec fn spec_active_estate_for_outdoor_removal_row(
    active_estate: Option<ActiveHousingEstate>,
    estate: Option<HousingEstate>,
    content_id: u64,
) -> Option<ActiveHousingEstate> {
    match active_estate {
        None => None,
        Some(a) => if a.indoors || a.house_id.unit.apartment_flag {
            None
        } else {
            match estate {
                None => None,
                Some(e) => if a.land_ident != e.land_ident || e.is_apartment || e.room_number != 0
                    || !spec_can_edit_housing_estate(e, content_id) {
                    None
                } else {
                    Some(ActiveHousingEstate {
                        land_ident: e.land_ident,
                        house_id: spec_outdoor_house_id_from_estate(e),
                        indoors: false,
                    })
                },
            }
        },
    }
}

/// Outdoor removal authority from the active estate and its row.
pub fn active_housing_estate_for_outdoor_removal_row(
    active_estate: Option<&ActiveHousingEstate>,
    estate: Option<&HousingEstate>,
    content_id: u64,
) -> (active: Option<ActiveHousingEstate>)
    ensures
        active == spec_active_estate_for_outdoor_removal_row(
            match active_estate { Some(a) => Some(*a), None => None },
            match estate { Some(e) => Some(*e), None => None },
            content_id,
        ),
{
    let active_estate = match active_estate {
        Some(a) => a,
        None => return None,
    };
    if active_estate.indoors || active_estate.house_id.unit.apartment_flag {
        return None;
    }
    let estate = match estate {
        Some(e) => e,
        None => return None,
    };
    if active_estate.land_ident != estate.land_ident {
        return None;
    }
    if estate.is_apartment || estate.room_number != 0 {
        return None;
    }
    if !can_edit_housing_estate(estate, content_id) {
        return None;
    }
    Some(ActiveHousingEstate {
        land_ident: estate.land_ident,
        house_id: outdoor_house_id_from_estate(estate),
        indoors: false,
    })
}

/// The estate that owner-side commands act on: the active estate's row
/// when the player owns it, else the player's first owned house, else
/// the player's first owned estate.
pub open spec fn spec_selected_or_owned(
    rows: Seq<HousingEstate>,
    active_estate: Option<ActiveHousingEstate>,
    owner: u64,
) -> Option<HousingEstate> {
    let selected = match active_estate {
        Some(a) => match first_match(rows, |e: HousingEstate| e.house_id == a.house_id.spec_to_u64() as i64) {
            Some(e) => if spec_can_edit_housing_estate(e, owner) {
                Some(e)
            } else {
                None
            },
            None => None,
        },
        None => None,
    };
    match selected {
        Some(e) => Some(e),
        None => {
            let owned = spec_owned_estates(rows, owner);
            match first_match(owned, |e: HousingEstate| !e.is_apartment && e.room_number == 0) {
                Some(e) => Some(e),
                None => if owned.len() > 0 {
                    Some(owned[0])
                } else {
                    None
                },
            }
        },
    }
}

/// The first element of `rows` that is a house with room 0.
fn first_house(rows: &Vec<HousingEstate>) -> (found: Option<HousingEstate>)
    ensures
        found == first_match(rows@, |e: HousingEstate| !e.is_apartment && e.room_number == 0),
{
    let ghost p = |e: HousingEstate| !e.is_apartment && e.room_number == 0;
    let mut i: usize = 0;
    assert(rows@.skip(0) =~= rows@);
    while i < rows.len()
        invariant
            i <= rows@.len(),
            p == (|e: HousingEstate| !e.is_apartment && e.room_number == 0),
            first_match(rows@, p) == first_match(rows@.skip(i as int), p),
        decreases rows@.len() - i,
    {
        if !rows[i].is_apartment && rows[i].room_number == 0 {
            proof { lemma_first_match_found(rows@, p, i as int); }
            return Some(rows[i].clone());
        }
        proof { lemma_first_match_skip(rows@, p, i as int); }
        i = i + 1;
    }
    assert(rows@.skip(i as int).len() == 0);
    None
}

/// The estate that owner-side commands act on.
pub fn selected_or_owned_housing_estate(
    database: &WorldDatabase,
    active_estate: Option<&ActiveHousingEstate>,
    owner_content_id: u64,
) -> (estate: Option<HousingEstate>)
    requires
        active_estate matches Some(a) ==> a.house_id.well_formed(),
    ensures
        estate == spec_selected_or_owned(
            database.estates_view(),
            match active_estate { Some(a) => Some(*a), None => None },
            owner_content_id,
        ),
{
    if let Some(a) = active_estate {
        if let Some(e) = database.housing_estate_by_house_id(a.house_id) {
            if can_edit_housing_estate(&e, owner_content_id) {
                return Some(e);
            }
        }
    }
    let owned = database.owned_housing_estates(owner_content_id);
    match first_house(&owned) {
        Some(e) => Some(e),
        None => if owned.len() > 0 {
            Some(owned[0].clone())
        } else {
            None
        },
    }
}

/// The owned apartment room matching a ward context.
pub open spec fn spec_apartment_in_context(e: HousingEstate, context: ActiveHousingWardContext, world_id: u16) -> bool {
    &&& e.is_apartment
    &&& e.room_number > 0
    &&& e.territory_type_id == context.territory_type_id as i32
    &&& e.world_id == world_id as i32
    &&& e.ward_index == context.ward_index as i32
    &&& e.division == context.division as i32
}

/// The estate an indoor zone belongs to: an indoor active estate that the
/// player owns; else, in an apartment interior, the owned apartment of the
/// preferred ward, else any owned apartment; else the selected or owned
/// estate. The result is marked indoors.
pub open spec fn spec_resolve_active_indoor(
    rows: Seq<HousingEstate>,
    active_estate: Option<ActiveHousingEstate>,
    preferred: Option<ActiveHousingWardContext>,
    zone_id: u16,
    world_id: u16,
    owner: u64,
) -> Option<ActiveHousingEstate> {
    match active_estate {
        Some(a) if a.indoors => match first_match(rows, |e: HousingEstate| e.house_id == a.house_id.spec_to_u64() as i64) {
            Some(e) => if spec_can_edit_housing_estate(e, owner) {
                Some(spec_active_housing_estate(e, true))
            } else {
                None
            },
            None => None,
        },
        _ => {
            let owned = spec_owned_estates(rows, owner);
            let by_context = match preferred {
                Some(c) => first_match(owned, |e: HousingEstate| spec_apartment_in_context(e, c, world_id)),
                None => None,
            };
            let apartment = match by_context {
                Some(e) => Some(e),
                None => first_match(owned, |e: HousingEstate| e.is_apartment && e.room_number > 0),
            };
            if spec_apartment_interior_zone_id(zone_id) && apartment is Some {
                Some(spec_active_housing_estate(apartment.unwrap(), true))
            } else {
                match spec_selected_or_owned(rows, active_estate, owner) {
                    Some(e) => Some(spec_active_housing_estate(e, true)),
                    None => None,
                }
            }
        },
    }
}

fn first_apartment_in_context(rows: &Vec<HousingEstate>, context: ActiveHousingWardContext, world_id: u16) -> (found: Option<HousingEstate>)
    ensures
        found == first_match(rows@, |e: HousingEstate| spec_apartment_in_context(e, context, world_id)),
{
    let ghost p = |e: HousingEstate| spec_apartment_in_context(e, context, world_id);
    let mut i: usize = 0;
    assert(rows@.skip(0) =~= rows@);
    while i < rows.len()
        invariant
            i <= rows@.len(),
            p == (|e: HousingEstate| spec_apartment_in_context(e, context, world_id)),
            first_match(rows@, p) == first_match(rows@.skip(i as int), p),
        decreases rows@.len() - i,
    {
        let e = &rows[i];
        if e.is_apartment && e.room_number > 0 && e.territory_type_id == context.territory_type_id as i32
            && e.world_id == world_id as i32 && e.ward_index == context.ward_index as i32
            && e.division == context.division as i32 {
            proof { lemma_first_match_found(rows@, p, i as int); }
            return Some(e.clone());
        }
        proof { lemma_first_match_skip(rows@, p, i as int); }
        i = i + 1;
    }
    assert(rows@.skip(i as int).len() == 0);
    None
}

fn first_apartment(rows: &Vec<HousingEstate>) -> (found: Option<HousingEstate>)
    ensures
        found == first_match(rows@, |e: HousingEstate| e.is_apartment && e.room_number > 0),
{
    let ghost p = |e: HousingEstate| e.is_apartment && e.room_number > 0;
    let mut i: usize = 0;
    assert(rows@.skip(0) =~= rows@);
    while i < rows.len()
        invariant
            i <= rows@.len(),
            p == (|e: HousingEstate| e.is_apartment && e.room_number > 0),
            first_match(rows@, p) == first_match(rows@.skip(i as int), p),
        decreases rows@.len() - i,
    {
        if rows[i].is_apartment && rows[i].room_number > 0 {
            proof { lemma_first_match_found(rows@, p, i as int); }
            return Some(rows[i].clone());
        }
        proof { lemma_first_match_skip(rows@, p, i as int); }
        i = i + 1;
    }
    assert(rows@.skip(i as int).len() == 0);
    None
}

/// The estate an indoor zone belongs to (see `spec_resolve_active_indoor`).
pub fn resolve_active_indoor_housing_estate(
    database: &WorldDatabase,
    active_estate: Option<&ActiveHousingEstate>,
    preferred_apartment_context: Option<ActiveHousingWardContext>,
    zone_id: u16,
    world_id: u16,
    owner_content_id: u64,
) -> (resolved: Option<ActiveHousingEstate>)
    requires
        active_estate matches Some(a) ==> a.house_id.well_formed(),
    ensures
        resolved == spec_resolve_active_indoor(
            database.estates_view(),
            match active_estate { Some(a) => Some(*a), None => None },
            preferred_apartment_context,
            zone_id,
            world_id,
            owner_content_id,
        ),
        resolved matches Some(r) ==> r.indoors && r.house_id.well_formed(),
{
    if let Some(a) = active_estate {
        if a.indoors {
            let estate = match database.housing_estate_by_house_id(a.house_id) {
                Some(e) => e,
                None => return None,
            };
            if !can_edit_housing_estate(&estate, owner_content_id) {
                return None;
            }
            return Some(active_housing_estate(&estate, true));
        }
    }
    if apartment_interior_zone_id(zone_id) {
        let owned = database.owned_housing_estates(owner_content_id);
        let by_context = match preferred_apartment_context {
            Some(c) => first_apartment_in_context(&owned, c, world_id),
            None => None,
        };
        let apartment = match by_context {
            Some(e) => Some(e),
            None => first_apartment(&owned),
        };
        if let Some(apartment) = apartment {
            return Some(active_housing_estate(&apartment, true));
        }
    }
    match selected_or_owned_housing_estate(database, active_estate, owner_content_id) {
        Some(e) => Some(active_housing_estate(&e, true)),
        None => None,
    }
}

/// Outdoor owner gate: an outdoor, non-apartment active estate, a trusted
/// ward context, the plot that the active house id names in that ward, the
/// house row at that plot, owned by the player.
pub open spec fn spec_resolve_outdoor_owner_gate(
    rows: Seq<HousingEstate>,
    context: Option<ActiveHousingWardContext>,
    world_id: u16,
    active_estate: ActiveHousingEstate,
    content_id: u64,
) -> Option<(ActiveHousingEstate, OutdoorHousingLocation)> {
    if active_estate.indoors || active_estate.house_id.unit.apartment_flag {
        None
    } else {
        spec_resolve_outdoor_plot(rows, context, world_id, active_estate.house_id.unit.apartment_division_plot_index, content_id)
    }
}

/// Outdoor plot authority: a trusted ward context, the plot that the raw
/// entry names in it, the house row at that plot, owned by the player.
pub open spec fn spec_resolve_outdoor_plot(
    rows: Seq<HousingEstate>,
    context: Option<ActiveHousingWardContext>,
    world_id: u16,
    raw_plot_index: u8,
    content_id: u64,
) -> Option<(ActiveHousingEstate, OutdoorHousingLocation)> {
    match context {
        None => None,
        Some(c) => match spec_outdoor_location_from_raw_entry(c, raw_plot_index) {
            None => None,
            Some(l) => match first_match(rows, |e: HousingEstate| spec_at_location(e, l.territory_type_id, world_id, l.ward_index, l.division, l.plot_index)) {
                None => None,
                Some(e) => match spec_active_estate_for_outdoor_row(e, l, content_id) {
                    Some(a) => Some((a, l)),
                    None => None,
                },
            },
        },
    }
}

/// Outdoor edit authority for a raw land-set entry.
pub fn resolve_active_housing_estate_for_outdoor_edit(
    database: &WorldDatabase,
    active_housing_ward_context: Option<ActiveHousingWardContext>,
    world_id: u16,
    raw_plot_index: u8,
    content_id: u64,
) -> (resolved: Option<(ActiveHousingEstate, OutdoorHousingLocation)>)
    ensures
        resolved == spec_resolve_outdoor_plot(database.estates_view(), active_housing_ward_context, world_id, raw_plot_index, content_id),
{
    let context = match active_housing_ward_context {
        Some(c) => c,
        None => return None,
    };
    let location = match outdoor_housing_location_from_raw_entry(context, raw_plot_index) {
        Some(l) => l,
        None => return None,
    };
    let estate = match database.housing_estate_by_location(location.territory_type_id, world_id, location.ward_index, location.division, location.plot_index) {
        Some(e) => e,
        None => return None,
    };
    match active_housing_estate_for_outdoor_row(&estate, location, content_id) {
        Some(a) => Some((a, location)),
        None => None,
    }
}

/// Outdoor owner gate for the active estate.
pub fn resolve_active_housing_estate_for_outdoor_owner_gate(
    database: &WorldDatabase,
    active_housing_ward_context: Option<ActiveHousingWardContext>,
    world_id: u16,
    active_estate: &ActiveHousingEstate,
    content_id: u64,
) -> (resolved: Option<(ActiveHousingEstate, OutdoorHousingLocation)>)
    ensures
        resolved == spec_resolve_outdoor_owner_gate(database.estates_view(), active_housing_ward_context, world_id, *active_estate, content_id),
{
    if active_estate.indoors || active_estate.house_id.unit.apartment_flag {
        return None;
    }
    resolve_active_housing_estate_for_outdoor_edit(
        database,
        active_housing_ward_context,
        world_id,
        active_estate.house_id.unit.apartment_division_plot_index,
        content_id,
    )
}

/// Indoor furniture lists sent before the client finishes loading: at
/// most three indoors, all outdoors.
pub open spec fn spec_initial_list_count(indoors: bool, list_count: usize) -> usize {
    if indoors && list_count > 3 {
        3
    } else {
        list_count
    }
}

/// Furniture lists sent before the client finishes loading.
pub fn initial_housing_furniture_list_count(indoors: bool, list_count: usize) -> (count: usize)
    ensures
        count == spec_initial_list_count(indoors, list_count),
{
    if indoors {
        if list_count < INDOOR_FURNITURE_LISTS_BEFORE_FINISH_LOADING {
            list_count
        } else {
            INDOOR_FURNITURE_LISTS_BEFORE_FINISH_LOADING
        }
    } else {
        list_count
    }
}

/// The first furniture list held back until the remodel gate.
pub fn deferred_housing_furniture_list_start_index(indoors: bool, list_count: usize) -> (start: usize)
    ensures
        start == spec_initial_list_count(indoors, list_count),
{
    initial_housing_furniture_list_count(indoors, list_count)
}

/// Whether a container is one of the interior placed-furniture pages.
pub fn is_interior_placed_container(container: ContainerType) -> (r: bool)
    ensures
        r == spec_interior_placed_container_index(container) is Some,
{
    crate::inventory::interior_placed_container_index(container).is_some()
}

/// Where a player appears inside: apartments at the origin facing 0,
/// houses at the entrance (-0.25, -0.39, 5.0) facing 180.
pub open spec fn spec_housing_indoor_entry_transform(is_apartment: bool) -> HousingEntryTransform {
    if is_apartment {
        HousingEntryTransform { position: Position { x_bits: 0, y_bits: 0, z_bits: 0 }, rotation_bits: 0 }
    } else {
        HousingEntryTransform {
            position: Position { x_bits: 0xbe80_0000, y_bits: 0xbec7_ae14, z_bits: 0x40a0_0000 },
            rotation_bits: 0x4334_0000,
        }
    }
}

/// Where a player appears inside an apartment or a house.
pub fn housing_indoor_entry_transform(is_apartment: bool) -> (entry: HousingEntryTransform)
    ensures
        entry == spec_housing_indoor_entry_transform(is_apartment),
{
    if is_apartment {
        return HousingEntryTransform { position: Position { x_bits: 0, y_bits: 0, z_bits: 0 }, rotation_bits: 0 };
    }
    HousingEntryTransform {
        position: Position { x_bits: 0xbe80_0000, y_bits: 0xbec7_ae14, z_bits: 0x40a0_0000 },
        rotation_bits: 0x4334_0000,
    }
}

/// Clears the housing inventory cache, and the active estate when asked.
pub fn clear_housing_reset_cache(
    active_housing_estate: &mut Option<ActiveHousingEstate>,
    house_inventory: &mut HousingInventory,
    clear_active_estate: bool,
)
    ensures
        final(house_inventory).wf(),
        forall|c: ContainerType, s: u16| #[trigger] final(house_inventory).spec_get(c, s) matches Some(i) ==> i == empty_item(),
        *final(active_housing_estate) == if clear_active_estate { None } else { *old(active_housing_estate) },
{
    *house_inventory = HousingInventory::new();
    if clear_active_estate {
        *active_housing_estate = None;
    }
}

/// The client-facing house id of a house row always fits its packed form.
pub proof fn lemma_outdoor_house_id_well_formed(estate: HousingEstate)
    ensures
        spec_outdoor_house_id_from_estate(estate).well_formed(),
{
}

/// An outdoor grant always carries a house id that fits its packed form.
pub proof fn lemma_outdoor_grant_well_formed(
    rows: Seq<HousingEstate>,
    context: Option<ActiveHousingWardContext>,
    world_id: u16,
    raw_plot_index: u8,
    content_id: u64,
)
    ensures
        spec_resolve_outdoor_plot(rows, context, world_id, raw_plot_index, content_id) matches Some(g)
            ==> g.0.house_id.well_formed(),
{
}

/// An indoor resolution always carries a house id that fits its packed
/// form.
pub proof fn lemma_resolved_indoor_well_formed(
    rows: Seq<HousingEstate>,
    active_estate: Option<ActiveHousingEstate>,
    preferred: Option<ActiveHousingWardContext>,
    zone_id: u16,
    world_id: u16,
    owner: u64,
)
    ensures
        spec_resolve_active_indoor(rows, active_estate, preferred, zone_id, world_id, owner) matches Some(a) ==> a.house_id.well_formed(),
{
}

/// The owned estates are rows of the table, each owned by `owner`.
pub proof fn lemma_owned_estates_in_rows(rows: Seq<HousingEstate>, owner: u64)
    ensures
        forall|x: HousingEstate| #[trigger] spec_owned_estates(rows, owner).contains(x) ==> rows.contains(x) && spec_owned_by(x, owner),
{
    let ph = |e: HousingEstate| spec_owned_by(e, owner) && !e.is_apartment;
    let pa = |e: HousingEstate| spec_owned_by(e, owner) && e.is_apartment;
    let h = keep(rows, ph);
    let ap = keep(rows, pa);
    let owned = spec_owned_estates(rows, owner);
    assert(owned == h + ap);
    lemma_keep_elements(rows, ph);
    lemma_keep_elements(rows, pa);
    assert forall|x: HousingEstate| #[trigger] owned.contains(x) implies rows.contains(x) && spec_owned_by(x, owner) by {
        let i = choose|i: int| 0 <= i < owned.len() && owned[i] == x;
        if i < h.len() {
            assert(owned[i] == h[i]);
        } else {
            assert(owned[i] == ap[i - h.len()]);
        }
    }
}

/// The estate that owner commands act on is a row of the table, owned by
/// `owner`.
pub proof fn lemma_selected_or_owned_in_rows(rows: Seq<HousingEstate>, active_estate: Option<ActiveHousingEstate>, owner: u64)
    ensures
        spec_selected_or_owned(rows, active_estate, owner) matches Some(e) ==> rows.contains(e) && spec_owned_by(e, owner),
{
    lemma_owned_estates_in_rows(rows, owner);
    let owned = spec_owned_estates(rows, owner);
    if let Some(a) = active_estate {
        lemma_first_match_some(rows, |e: HousingEstate| e.house_id == a.house_id.spec_to_u64() as i64);
    }
    lemma_first_match_some(owned, |e: HousingEstate| !e.is_apartment && e.room_number == 0);
    if owned.len() > 0 {
        assert(owned.contains(owned[0]));
    }
}

/// Outdoor plot authority is granted only for the land of a row that the
/// player owns.
pub proof fn lemma_outdoor_plot_grant_owned(
    rows: Seq<HousingEstate>,
    context: Option<ActiveHousingWardContext>,
    world_id: u16,
    raw_plot_index: u8,
    content_id: u64,
)
    ensures
        spec_resolve_outdoor_plot(rows, context, world_id, raw_plot_index, content_id) matches Some(g) ==> exists|k: int|
            0 <= k < rows.len() && rows[k].land_ident == g.0.land_ident && spec_owned_by(#[trigger] rows[k], content_id),
{
    if let Some(c) = context {
        if let Some(l) = spec_outdoor_location_from_raw_entry(c, raw_plot_index) {
            lemma_first_match_some(
                rows,
                |e: HousingEstate| spec_at_location(e, l.territory_type_id, world_id, l.ward_index, l.division, l.plot_index),
            );
        }
    }
}

/// Without an active estate, indoor resolution picks the active record of
/// a row of the table.
pub proof fn lemma_resolved_indoor_from_row(
    rows: Seq<HousingEstate>,
    preferred: Option<ActiveHousingWardContext>,
    zone_id: u16,
    world_id: u16,
    owner: u64,
)
    ensures
        spec_resolve_active_indoor(rows, None, preferred, zone_id, world_id, owner) matches Some(a) ==> exists|k: int|
            0 <= k < rows.len() && a == spec_active_housing_estate(#[trigger] rows[k], true),
{
    lemma_owned_estates_in_rows(rows, owner);
    lemma_selected_or_owned_in_rows(rows, None, owner);
    let owned = spec_owned_estates(rows, owner);
    if let Some(c) = preferred {
        lemma_first_match_some(owned, |e: HousingEstate| spec_apartment_in_context(e, c, world_id));
    }
    lemma_first_match_some(owned, |e: HousingEstate| e.is_apartment && e.room_number > 0);
}

} // verus!
