//! Building housing packets from estate and furniture rows.
use vstd::prelude::*;

use crate::common::{
    ContainerType, HouseId, PlotSize, Position, lemma_container_type_id_injective, spec_container_type_id,
    spec_plot_size_from_repr,
};
use crate::context::{clamp_u16, clamp_u8, spec_clamp_u16, spec_clamp_u8, spec_estate_house_id};
use crate::database::{FREE_COMPANY_HOUSING_FLAG, HousingEstate, HousingFurniture};
use crate::fixture_json::{
    HouseExteriorJson, HouseInteriorJson, HousingJson, MINIMAL_INTERIOR_FLOOR, MINIMAL_INTERIOR_LIGHT,
    MINIMAL_INTERIOR_WALL, exterior_json_or_default, interior_json_or_default, spec_exterior_or_default,
    spec_interior_or_default,
};
use crate::inventory::{
    HousingInventory, Item, StoreKind, housing_container_slot_capacity, interior_placed_container,
    interior_storeroom_containers, spec_empty_housing_slots, spec_housing_container_slot_capacity,
    spec_interior_placed_container_index, spec_interior_storeroom_container_index, spec_store_set,
};
use crate::ipc::{
    APARTMENT_LIST_ENTRY_COUNT, ApartmentListEntry, AvailabilityType, FURNITURE_COUNT, Furniture, FurnitureList,
    HOUSING_FLAGS_HOUSE_BUILT, HOUSING_FLAGS_OWNED_BY_FC, HOUSING_FLAGS_PLOT_OWNED, HOUSING_FLAGS_VISITORS_ALLOWED,
    HOUSING_FLAG_LOCKED, HOUSING_FLAG_OPEN, HOUSING_FLAG_OWNED_BY_FC, House, HouseExterior, HouseExteriorColors,
    HouseStatus, HousingEstateGreeting, HousingInteriorDetails, HousingOccupiedLandInfo, HousingVacantLandInfo,
    HousingWardInfo, HousingWardSummaryItem, LandData, PurchaseType, TenantType,
};
use crate::seq_util::{keep, lemma_keep_take};

verus! {

/// The owned-housing entry of an estate: its stored id and land flags.
pub open spec fn spec_estate_land_data(estate: HousingEstate) -> LandData {
    LandData { id: spec_estate_house_id(estate), flags: estate.flags as u32, unk1: 0 }
}

/// The owned-housing entry of an estate.
pub fn estate_land_data(estate: &HousingEstate) -> (land: LandData)
    ensures
        land == spec_estate_land_data(*estate),
{
    LandData { id: HouseId::from_u64(estate.house_id as u64), flags: estate.flags as u32, unk1: 0 }
}

/// The owned-housing slots after routing one more estate: apartments to
/// the apartment entry, free company houses to slot 0, others to slot 1.
pub open spec fn spec_route_owned(acc: (Seq<LandData>, LandData), estate: HousingEstate) -> (Seq<LandData>, LandData) {
    if estate.is_apartment {
        (acc.0, spec_estate_land_data(estate))
    } else if estate.flags & FREE_COMPANY_HOUSING_FLAG != 0 {
        (acc.0.update(0, spec_estate_land_data(estate)), acc.1)
    } else {
        (acc.0.update(1, spec_estate_land_data(estate)), acc.1)
    }
}

/// The owned-housing slots after routing all estates in order (later
/// estates replace earlier ones in the same slot).
pub open spec fn spec_owned_land_data(estates: Seq<HousingEstate>) -> (Seq<LandData>, LandData)
    decreases estates.len(),
{
    if estates.len() == 0 {
        (Seq::new(5, |i: int| LandData { id: HouseId::spec_zero(), flags: 0, unk1: 0 }), LandData { id: HouseId::spec_zero(), flags: 0, unk1: 0 })
    } else {
        spec_route_owned(spec_owned_land_data(estates.drop_last()), estates.last())
    }
}

/// The five owned-estate slots (free company, personal, chambers, two
/// shared) and the apartment entry of the owned housing packet.
pub fn owned_housing_land_data(estates: &Vec<HousingEstate>) -> (owned: (Vec<LandData>, LandData))
    ensures
        owned.0@ == spec_owned_land_data(estates@).0,
        owned.1 == spec_owned_land_data(estates@).1,
        owned.0@.len() == 5,
{
    let mut owned: Vec<LandData> = Vec::new();
    let mut k: usize = 0;
    while k < 5
        invariant
            k <= 5,
            owned@ == Seq::new(k as nat, |i: int| LandData { id: HouseId::spec_zero(), flags: 0, unk1: 0 }),
        decreases 5 - k,
    {
        owned.push(LandData { id: HouseId::zero(), flags: 0, unk1: 0 });
        k = k + 1;
        assert(owned@ =~= Seq::new(k as nat, |i: int| LandData { id: HouseId::spec_zero(), flags: 0, unk1: 0 }));
    }
    let mut apartment = LandData { id: HouseId::zero(), flags: 0, unk1: 0 };
    let mut i: usize = 0;
    assert(estates@.take(0) =~= Seq::<HousingEstate>::empty());
    while i < estates.len()
        invariant
            i <= estates@.len(),
            owned@.len() == 5,
            (owned@, apartment) == spec_owned_land_data(estates@.take(i as int)),
        decreases estates@.len() - i,
    {
        assert(estates@.take(i as int + 1).drop_last() =~= estates@.take(i as int));
        let estate = &estates[i];
        let land_data = estate_land_data(estate);
        if estate.is_apartment {
            apartment = land_data;
        } else if estate.flags & FREE_COMPANY_HOUSING_FLAG != 0 {
            owned.set(0, land_data);
        } else {
            owned.set(1, land_data);
        }
        i = i + 1;
    }
    assert(estates@.take(i as int) =~= estates@);
    (owned, apartment)
}

/// The apartment list order: by room number, then land ident.
pub open spec fn spec_apartment_le(a: HousingEstate, b: HousingEstate) -> bool {
    a.room_number < b.room_number || (a.room_number == b.room_number && a.land_ident <= b.land_ident)
}

/// `x` inserted after every element that does not come after it.
pub open spec fn spec_insert_sorted(sorted: Seq<HousingEstate>, x: HousingEstate) -> Seq<HousingEstate>
    decreases sorted.len(),
{
    if sorted.len() == 0 {
        seq![x]
    } else if spec_apartment_le(sorted.last(), x) {
        sorted.push(x)
    } else {
        spec_insert_sorted(sorted.drop_last(), x).push(sorted.last())
    }
}

/// The rows in apartment list order, equal rows keeping their order.
pub open spec fn spec_sort_apartments(rows: Seq<HousingEstate>) -> Seq<HousingEstate>
    decreases rows.len(),
{
    if rows.len() == 0 {
        Seq::empty()
    } else {
        spec_insert_sorted(spec_sort_apartments(rows.drop_last()), rows.last())
    }
}

/// The rooms listed: apartment rows with a room number.
pub open spec fn spec_is_listed_apartment(e: HousingEstate) -> bool {
    e.is_apartment && e.room_number > 0
}

/// The filter of listed rooms, as a predicate value.
pub open spec fn spec_listed_apartment_filter() -> spec_fn(HousingEstate) -> bool {
    |e: HousingEstate| spec_is_listed_apartment(e)
}

/// The description shown for a room: its greeting, or a default text
/// when the greeting is empty.
pub open spec fn spec_apartment_description(greeting: Seq<char>) -> Seq<char> {
    if greeting.len() == 0 {
        "A local Kawari debug apartment."@
    } else {
        greeting
    }
}

fn insert_sorted(sorted: &mut Vec<HousingEstate>, x: HousingEstate)
    ensures
        final(sorted)@ == spec_insert_sorted(old(sorted)@, x),
    decreases old(sorted)@.len(),
{
    if sorted.len() == 0 {
        sorted.push(x);
        assert(sorted@ =~= seq![x]);
        return;
    }
    let last_index = sorted.len() - 1;
    let last_room = sorted[last_index].room_number;
    let last_land = sorted[last_index].land_ident;
    if last_room < x.room_number || (last_room == x.room_number && last_land <= x.land_ident) {
        sorted.push(x);
    } else {
        let last = sorted.pop().unwrap();
        insert_sorted(sorted, x);
        sorted.push(last);
    }
}

/// The apartment list page starting at `starting_index` (1-based): listed
/// rooms in room order, at most fifteen. Empty greetings read as a
/// default description.
pub fn build_apartment_list_entries(apartments: &Vec<HousingEstate>, starting_index: u32) -> (entries: Vec<ApartmentListEntry>)
    ensures
        ({
            let sorted = spec_sort_apartments(keep(apartments@, spec_listed_apartment_filter()));
            let skip: int = if starting_index == 0 { 0 } else { starting_index - 1 };
            let n: int = if sorted.len() <= skip { 0 } else if sorted.len() - skip < 15 { sorted.len() - skip } else { 15 };
            &&& entries@.len() == n
            &&& forall|k: int| 0 <= k < n ==> {
                let e = #[trigger] sorted[skip + k];
                &&& entries@[k].resident_zone_id == spec_clamp_u16(e.territory_type_id)
                &&& entries@[k].visitors_permitted == (e.flags & (HOUSING_FLAG_OPEN as i32) != 0)
                &&& entries@[k].resident_name == e.owner_name
                &&& entries@[k].apartment_description@ == spec_apartment_description(e.greeting@)
            }
        }),
{
    let ghost p = spec_listed_apartment_filter();
    let mut sorted: Vec<HousingEstate> = Vec::new();
    let mut i: usize = 0;
    assert(apartments@.take(0) =~= Seq::<HousingEstate>::empty());
    while i < apartments.len()
        invariant
            i <= apartments@.len(),
            p == spec_listed_apartment_filter(),
            sorted@ == spec_sort_apartments(keep(apartments@.take(i as int), p)),
        decreases apartments@.len() - i,
    {
        proof { lemma_keep_take(apartments@, p, i as int); }
        let e = &apartments[i];
        if e.is_apartment && e.room_number > 0 {
            let ghost kept = keep(apartments@.take(i as int), p);
            assert(kept.push(apartments@[i as int]).drop_last() =~= kept);
            insert_sorted(&mut sorted, e.clone());
        }
        i = i + 1;
    }
    assert(apartments@.take(i as int) =~= apartments@);
    let skip: usize = if starting_index == 0 { 0 } else { (starting_index - 1) as usize };
    let mut entries: Vec<ApartmentListEntry> = Vec::new();
    let mut k: usize = skip;
    while k < sorted.len() && entries.len() < APARTMENT_LIST_ENTRY_COUNT
        invariant
            skip <= k,
            skip == (if starting_index == 0 { 0 } else { starting_index - 1 }),
            sorted@ == spec_sort_apartments(keep(apartments@, spec_listed_apartment_filter())),
            entries@.len() == k - skip,
            entries@.len() <= 15,
            k <= sorted@.len() || k == skip,
            forall|j: int| 0 <= j < entries@.len() ==> {
                let e = #[trigger] sorted@[skip + j];
                &&& entries@[j].resident_zone_id == spec_clamp_u16(e.territory_type_id)
                &&& entries@[j].visitors_permitted == (e.flags & (HOUSING_FLAG_OPEN as i32) != 0)
                &&& entries@[j].resident_name == e.owner_name
                &&& entries@[j].apartment_description@ == spec_apartment_description(e.greeting@)
            },
        decreases sorted@.len() - k,
    {
        let e = &sorted[k];
        let description = if e.greeting.as_str().is_empty() {
            String::from_str("A local Kawari debug apartment.")
        } else {
            e.greeting.clone()
        };
        let ghost old_entries = entries@;
        entries.push(ApartmentListEntry {
            resident_zone_id: clamp_u16(e.territory_type_id),
            visitors_permitted: e.flags & (HOUSING_FLAG_OPEN as i32) != 0,
            resident_name: e.owner_name.clone(),
            apartment_description: description,
        });
        proof {
            assert forall|j: int| 0 <= j < entries@.len() implies {
                let e = #[trigger] sorted@[skip + j];
                &&& entries@[j].resident_zone_id == spec_clamp_u16(e.territory_type_id)
                &&& entries@[j].visitors_permitted == (e.flags & (HOUSING_FLAG_OPEN as i32) != 0)
                &&& entries@[j].resident_name == e.owner_name
                &&& entries@[j].apartment_description@ == spec_apartment_description(e.greeting@)
            } by {
                if j < old_entries.len() {
                    assert(entries@[j] == old_entries[j]);
                } else {
                    assert(skip + j == k);
                }
            }
        }
        k = k + 1;
    }
    entries
}


/// The stored plot size of an estate as a wire size; unknown sizes read
/// as small.
pub open spec fn spec_wire_plot_size(estate: HousingEstate) -> PlotSize {
    match spec_plot_size_from_repr(estate.plot_size as u8) {
        Some(s) => s,
        None => PlotSize::Small,
    }
}

fn wire_plot_size(estate: &HousingEstate) -> (size: PlotSize)
    ensures
        size == spec_wire_plot_size(*estate),
{
    match PlotSize::from_repr(estate.plot_size as u8) {
        Some(s) => s,
        None => PlotSize::Small,
    }
}

/// The ward-summary flags of stored land flags: plot owned (bit 0),
/// visitors allowed (bit 1), house built (bit 3), free company (bit 4).
pub open spec fn spec_housing_flags_from_land_flags(flags: i32) -> u8 {
    ((if flags & 0x01 != 0 { HOUSING_FLAGS_PLOT_OWNED } else { 0u8 })
        + (if flags & 0x02 != 0 { HOUSING_FLAGS_VISITORS_ALLOWED } else { 0u8 })
        + (if flags & 0x08 != 0 { HOUSING_FLAGS_HOUSE_BUILT } else { 0u8 })
        + (if flags & FREE_COMPANY_HOUSING_FLAG != 0 { HOUSING_FLAGS_OWNED_BY_FC } else { 0u8 })) as u8
}

/// The ward-summary flags of stored land flags.
pub fn housing_flags_from_land_flags(flags: i32) -> (housing_flags: u8)
    ensures
        housing_flags == spec_housing_flags_from_land_flags(flags),
{
    let mut housing_flags: u8 = 0;
    if flags & 0x01 != 0 {
        housing_flags = housing_flags + HOUSING_FLAGS_PLOT_OWNED;
    }
    if flags & 0x02 != 0 {
        housing_flags = housing_flags + HOUSING_FLAGS_VISITORS_ALLOWED;
    }
    if flags & 0x08 != 0 {
        housing_flags = housing_flags + HOUSING_FLAGS_HOUSE_BUILT;
    }
    if flags & FREE_COMPANY_HOUSING_FLAG != 0 {
        housing_flags = housing_flags + HOUSING_FLAGS_OWNED_BY_FC;
    }
    housing_flags
}

/// The placard icon of stored land flags: 2 without a house, 1 for an
/// open house, 0 for a closed one.
pub open spec fn spec_house_icon_from_land_flags(flags: i32) -> u8 {
    if flags & 0x08 == 0 {
        2
    } else if flags & 0x02 != 0 {
        1
    } else {
        0
    }
}

/// The placard icon of stored land flags.
pub fn housing_house_icon_from_land_flags(flags: i32) -> (icon: u8)
    ensures
        icon == spec_house_icon_from_land_flags(flags),
{
    if flags & 0x08 == 0 {
        2
    } else if flags & 0x02 != 0 {
        1
    } else {
        0
    }
}

/// The summary of one plot: its flags and estate name.
pub fn housing_ward_summary_from_estate(estate: &HousingEstate) -> (item: HousingWardSummaryItem)
    ensures
        item.flags == spec_housing_flags_from_land_flags(estate.flags),
        item.name@ == estate.estate_name@,
{
    HousingWardSummaryItem { flags: housing_flags_from_land_flags(estate.flags), name: estate.estate_name.clone() }
}

/// The last estate of `rows` whose plot index is `plot`.
pub open spec fn spec_last_on_plot(rows: Seq<HousingEstate>, plot: int) -> Option<HousingEstate>
    decreases rows.len(),
{
    if rows.len() == 0 {
        None
    } else if rows.last().plot_index == plot {
        Some(rows.last())
    } else {
        spec_last_on_plot(rows.drop_last(), plot)
    }
}

/// The estate shown in slot `slot` of a ward summary: subdivision plots
/// fill slots 30..59 and win over a main-division row in the same slot.
pub open spec fn spec_ward_slot_estate(main: Seq<HousingEstate>, subdivision: Seq<HousingEstate>, slot: int) -> Option<HousingEstate> {
    if slot >= 30 && spec_last_on_plot(subdivision, slot - 30) is Some {
        spec_last_on_plot(subdivision, slot - 30)
    } else {
        spec_last_on_plot(main, slot)
    }
}

/// A summary slot shows `estate`, or is empty.
pub open spec fn spec_summary_shows(item: HousingWardSummaryItem, estate: Option<HousingEstate>) -> bool {
    match estate {
        Some(e) => item.flags == spec_housing_flags_from_land_flags(e.flags) && item.name@ == e.estate_name@,
        None => item.flags == 0 && item.name@.len() == 0,
    }
}

proof fn lemma_last_on_plot_step(rows: Seq<HousingEstate>, k: int, plot: int)
    requires
        0 <= k < rows.len(),
    ensures
        spec_last_on_plot(rows.take(k + 1), plot) == if rows[k].plot_index == plot {
            Some(rows[k])
        } else {
            spec_last_on_plot(rows.take(k), plot)
        },
{
    assert(rows.take(k + 1).drop_last() =~= rows.take(k));
}

/// The ward summary: sixty plot slots, the main division's rows by plot
/// index and the subdivision's rows from slot 30 on.
pub fn build_housing_ward_info(
    territory_type_id: u16,
    world_id: u16,
    ward_index: u8,
    main_estates: &Vec<HousingEstate>,
    subdivision_estates: &Vec<HousingEstate>,
) -> (info: HousingWardInfo)
    ensures
        info.id == (HouseId { ward_index, territory_type_id, world_id, ..HouseId::spec_zero() }),
        info.purchase_type == PurchaseType::Unavailable,
        info.tenant_type == TenantType::Any,
        info.house_summaries@.len() == 60,
        forall|slot: int| 0 <= slot < 60 ==> spec_summary_shows(
            #[trigger] info.house_summaries@[slot],
            spec_ward_slot_estate(main_estates@, subdivision_estates@, slot),
        ),
{
    let mut summaries: Vec<HousingWardSummaryItem> = Vec::new();
    while summaries.len() < 60
        invariant
            summaries@.len() <= 60,
            forall|slot: int| 0 <= slot < summaries@.len() ==> spec_summary_shows(#[trigger] summaries@[slot], None),
        decreases 60 - summaries@.len(),
    {
        summaries.push(HousingWardSummaryItem { flags: 0, name: String::new() });
    }
    let mut i: usize = 0;
    while i < main_estates.len()
        invariant
            i <= main_estates@.len(),
            summaries@.len() == 60,
            forall|slot: int| 0 <= slot < 60 ==> spec_summary_shows(
                #[trigger] summaries@[slot],
                spec_last_on_plot(main_estates@.take(i as int), slot),
            ),
        decreases main_estates@.len() - i,
    {
        let estate = &main_estates[i];
        if estate.plot_index >= 0 && estate.plot_index < 60 {
            summaries.set(estate.plot_index as usize, housing_ward_summary_from_estate(estate));
        }
        proof {
            assert forall|slot: int| 0 <= slot < 60 implies spec_summary_shows(
                #[trigger] summaries@[slot],
                spec_last_on_plot(main_estates@.take(i + 1), slot),
            ) by {
                lemma_last_on_plot_step(main_estates@, i as int, slot);
            }
        }
        i = i + 1;
    }
    assert(main_estates@.take(i as int) =~= main_estates@);
    let mut j: usize = 0;
    while j < subdivision_estates.len()
        invariant
            j <= subdivision_estates@.len(),
            summaries@.len() == 60,
            forall|slot: int| 0 <= slot < 60 ==> spec_summary_shows(
                #[trigger] summaries@[slot],
                spec_ward_slot_estate(main_estates@, subdivision_estates@.take(j as int), slot),
            ),
        decreases subdivision_estates@.len() - j,
    {
        let estate = &subdivision_estates[j];
        if estate.plot_index >= 0 && estate.plot_index < 30 {
            summaries.set(30 + estate.plot_index as usize, housing_ward_summary_from_estate(estate));
        }
        proof {
            assert forall|slot: int| 0 <= slot < 60 implies spec_summary_shows(
                #[trigger] summaries@[slot],
                spec_ward_slot_estate(main_estates@, subdivision_estates@.take(j + 1), slot),
            ) by {
                lemma_last_on_plot_step(subdivision_estates@, j as int, slot - 30);
            }
        }
        j = j + 1;
    }
    assert(subdivision_estates@.take(j as int) =~= subdivision_estates@);
    HousingWardInfo {
        id: HouseId { ward_index, territory_type_id, world_id, ..HouseId::zero() },
        house_summaries: summaries,
        purchase_type: PurchaseType::Unavailable,
        tenant_type: TenantType::Any,
    }
}

/// The placard of an occupied plot.
pub fn housing_occupied_land_info_from_estate(estate: &HousingEstate) -> (info: HousingOccupiedLandInfo)
    ensures
        info.id == HouseId::spec_from_u64(estate.house_id as u64),
        info.owner_id == (match estate.owner_content_id {
            Some(id) => id as u64,
            None => 0u64,
        }),
        info.house_icon == spec_house_icon_from_land_flags(estate.flags),
        info.house_size == spec_wire_plot_size(*estate),
        info.estate_name@ == estate.estate_name@,
        info.estate_greeting@ == estate.greeting@,
        info.owner_name@ == estate.owner_name@,
        info.fc_tag@.len() == 0,
{
    let owner_id: u64 = match estate.owner_content_id {
        Some(id) => id as u64,
        None => 0,
    };
    HousingOccupiedLandInfo {
        id: HouseId::from_u64(estate.house_id as u64),
        owner_id,
        house_icon: housing_house_icon_from_land_flags(estate.flags),
        house_size: wire_plot_size(estate),
        estate_name: estate.estate_name.clone(),
        estate_greeting: estate.greeting.clone(),
        owner_name: estate.owner_name.clone(),
        fc_tag: String::new(),
    }
}

/// The placard of a vacant plot: nothing can be bought, by anyone.
pub fn housing_vacant_land_info() -> (info: HousingVacantLandInfo)
    ensures
        info.purchase_type == PurchaseType::Unavailable,
        info.tenant_type == TenantType::Any,
        info.availability_type == AvailabilityType::Unavailable,
        forall|k: int| 0 <= k < 12 ==> info.unk4[k] == 0,
        forall|k: int| 12 <= k < 20 ==> info.unk4[k] == 0xFF,
{
    HousingVacantLandInfo {
        purchase_type: PurchaseType::Unavailable,
        tenant_type: TenantType::Any,
        availability_type: AvailabilityType::Unavailable,
        unk4: [0, 0, 0, 0, 0, 0, 0, 0, 0, 0, 0, 0, 0xFF, 0xFF, 0xFF, 0xFF, 0xFF, 0xFF, 0xFF, 0xFF],
    }
}

/// The greeting packet of an estate.
pub fn housing_estate_greeting_from_estate(estate: &HousingEstate) -> (greeting: HousingEstateGreeting)
    ensures
        greeting.id == HouseId::spec_from_u64(estate.house_id as u64),
        greeting.greeting@ == estate.greeting@,
{
    HousingEstateGreeting { id: HouseId::from_u64(estate.house_id as u64), greeting: estate.greeting.clone() }
}

/// The plot state of stored land flags.
pub open spec fn spec_house_status_from_land_flags(flags: i32) -> HouseStatus {
    if flags & 0x08 != 0 {
        HouseStatus::HouseBuilt
    } else if flags & 0x01 != 0 {
        HouseStatus::UnderConstruction
    } else {
        HouseStatus::UpForAuction
    }
}

/// The plot state of stored land flags.
pub fn house_status_from_land_flags(flags: i32) -> (status: HouseStatus)
    ensures
        status == spec_house_status_from_land_flags(flags),
{
    if flags & 0x08 != 0 {
        HouseStatus::HouseBuilt
    } else if flags & 0x01 != 0 {
        HouseStatus::UnderConstruction
    } else {
        HouseStatus::UpForAuction
    }
}

/// The house-list flags of stored land flags: locked, plus open and free
/// company bits.
pub open spec fn spec_house_flags_from_land_flags(flags: i32) -> u8 {
    (HOUSING_FLAG_LOCKED + (if flags & 0x02 != 0 { HOUSING_FLAG_OPEN } else { 0u8 })
        + (if flags & FREE_COMPANY_HOUSING_FLAG != 0 { HOUSING_FLAG_OWNED_BY_FC } else { 0u8 })) as u8
}

/// The house-list flags of stored land flags.
pub fn house_flags_from_land_flags(flags: i32) -> (house_flags: u8)
    ensures
        house_flags == spec_house_flags_from_land_flags(flags),
{
    let mut house_flags: u8 = HOUSING_FLAG_LOCKED;
    if flags & 0x02 != 0 {
        house_flags = house_flags + HOUSING_FLAG_OPEN;
    }
    if flags & FREE_COMPANY_HOUSING_FLAG != 0 {
        house_flags = house_flags + HOUSING_FLAG_OWNED_BY_FC;
    }
    house_flags
}

/// The exterior of a local estate without a stored exterior.
pub open spec fn spec_fallback_exterior() -> HouseExterior {
    HouseExterior {
        roof_id: 1081,
        walls_id: 3632,
        windows_id: 2579,
        door_id: 531,
        roof_fixture_id: 0,
        wall_fixture_id: 0,
        above_door_banner_id: 0,
        fence_id: 0,
        colors: HouseExteriorColors {
            roof: 0,
            walls: 0,
            windows: 0,
            door: 0,
            roof_fixture: 0,
            wall_fixture: 0,
            above_door_banner: 0,
            fence: 0,
        },
    }
}

/// The exterior that a stored record describes: each part it sets, and
/// the fallback exterior for the rest.
pub open spec fn spec_house_exterior(j: HouseExteriorJson) -> HouseExterior {
    let f = spec_fallback_exterior();
    let c = match j.colors {
        Some(c) => c,
        None => crate::fixture_json::spec_empty_colors(),
    };
    HouseExterior {
        roof_id: j.roof_id.unwrap_or(f.roof_id),
        walls_id: j.walls_id.unwrap_or(f.walls_id),
        windows_id: j.windows_id.unwrap_or(f.windows_id),
        door_id: j.door_id.unwrap_or(f.door_id),
        roof_fixture_id: j.roof_fixture_id.unwrap_or(f.roof_fixture_id),
        wall_fixture_id: j.wall_fixture_id.unwrap_or(f.wall_fixture_id),
        above_door_banner_id: j.above_door_banner_id.unwrap_or(f.above_door_banner_id),
        fence_id: j.fence_id.unwrap_or(f.fence_id),
        colors: HouseExteriorColors {
            roof: c.roof.unwrap_or(f.colors.roof),
            walls: c.walls.unwrap_or(f.colors.walls),
            windows: c.windows.unwrap_or(f.colors.windows),
            door: c.door.unwrap_or(f.colors.door),
            roof_fixture: c.roof_fixture.unwrap_or(f.colors.roof_fixture),
            wall_fixture: c.wall_fixture.unwrap_or(f.colors.wall_fixture),
            above_door_banner: c.above_door_banner.unwrap_or(f.colors.above_door_banner),
            fence: c.fence.unwrap_or(f.colors.fence),
        },
    }
}

/// The exterior that a stored record describes; a malformed record reads
/// as empty, so the fallback exterior.
pub fn house_exterior_from_json(json: &HousingJson<HouseExteriorJson>) -> (exterior: HouseExterior)
    ensures
        exterior == spec_house_exterior(spec_exterior_or_default(*json)),
{
    let j = exterior_json_or_default(json);
    let c = match j.colors {
        Some(c) => c,
        None => crate::fixture_json::empty_colors(),
    };
    HouseExterior {
        roof_id: j.roof_id.unwrap_or(1081),
        walls_id: j.walls_id.unwrap_or(3632),
        windows_id: j.windows_id.unwrap_or(2579),
        door_id: j.door_id.unwrap_or(531),
        roof_fixture_id: j.roof_fixture_id.unwrap_or(0),
        wall_fixture_id: j.wall_fixture_id.unwrap_or(0),
        above_door_banner_id: j.above_door_banner_id.unwrap_or(0),
        fence_id: j.fence_id.unwrap_or(0),
        colors: HouseExteriorColors {
            roof: c.roof.unwrap_or(0),
            walls: c.walls.unwrap_or(0),
            windows: c.windows.unwrap_or(0),
            door: c.door.unwrap_or(0),
            roof_fixture: c.roof_fixture.unwrap_or(0),
            wall_fixture: c.wall_fixture.unwrap_or(0),
            above_door_banner: c.above_door_banner.unwrap_or(0),
            fence: c.fence.unwrap_or(0),
        },
    }
}

/// The house-list entry of an estate.
pub open spec fn spec_house_from_estate(estate: HousingEstate) -> House {
    House {
        plot_size: spec_wire_plot_size(estate),
        status: spec_house_status_from_land_flags(estate.flags),
        flags: spec_house_flags_from_land_flags(estate.flags),
        exterior: spec_house_exterior(spec_exterior_or_default(estate.exterior_json)),
    }
}

/// The house-list entry of an estate.
pub fn house_from_estate(estate: &HousingEstate) -> (house: House)
    ensures
        house == spec_house_from_estate(*estate),
{
    House {
        plot_size: wire_plot_size(estate),
        status: house_status_from_land_flags(estate.flags),
        flags: house_flags_from_land_flags(estate.flags),
        exterior: house_exterior_from_json(&estate.exterior_json),
    }
}

/// An empty plot of the house list.
pub open spec fn spec_empty_house() -> House {
    House {
        plot_size: PlotSize::Small,
        status: HouseStatus::Vacant,
        flags: 0,
        exterior: HouseExterior {
            roof_id: 0,
            walls_id: 0,
            windows_id: 0,
            door_id: 0,
            roof_fixture_id: 0,
            wall_fixture_id: 0,
            above_door_banner_id: 0,
            fence_id: 0,
            colors: HouseExteriorColors {
                roof: 0,
                walls: 0,
                windows: 0,
                door: 0,
                roof_fixture: 0,
                wall_fixture: 0,
                above_door_banner: 0,
                fence: 0,
            },
        },
    }
}

/// The house list of a ward division: thirty plots, each showing the
/// last estate stored on it, or nothing.
pub fn build_house_list_houses(estates: &Vec<HousingEstate>) -> (houses: Vec<House>)
    ensures
        houses@.len() == 30,
        forall|plot: int| 0 <= plot < 30 ==> #[trigger] houses@[plot] == match spec_last_on_plot(estates@, plot) {
            Some(e) => spec_house_from_estate(e),
            None => spec_empty_house(),
        },
{
    let mut houses: Vec<House> = Vec::new();
    while houses.len() < 30
        invariant
            houses@.len() <= 30,
            forall|plot: int| 0 <= plot < houses@.len() ==> #[trigger] houses@[plot] == spec_empty_house(),
        decreases 30 - houses@.len(),
    {
        houses.push(House {
            plot_size: PlotSize::Small,
            status: HouseStatus::Vacant,
            flags: 0,
            exterior: HouseExterior {
                roof_id: 0,
                walls_id: 0,
                windows_id: 0,
                door_id: 0,
                roof_fixture_id: 0,
                wall_fixture_id: 0,
                above_door_banner_id: 0,
                fence_id: 0,
                colors: HouseExteriorColors {
                    roof: 0,
                    walls: 0,
                    windows: 0,
                    door: 0,
                    roof_fixture: 0,
                    wall_fixture: 0,
                    above_door_banner: 0,
                    fence: 0,
                },
            },
        });
    }
    let mut i: usize = 0;
    while i < estates.len()
        invariant
            i <= estates@.len(),
            houses@.len() == 30,
            forall|plot: int| 0 <= plot < 30 ==> #[trigger] houses@[plot] == match spec_last_on_plot(estates@.take(i as int), plot) {
                Some(e) => spec_house_from_estate(e),
                None => spec_empty_house(),
            },
        decreases estates@.len() - i,
    {
        let estate = &estates[i];
        if estate.plot_index >= 0 && estate.plot_index < 30 {
            houses.set(estate.plot_index as usize, house_from_estate(estate));
        }
        proof {
            assert forall|plot: int| 0 <= plot < 30 implies #[trigger] houses@[plot] == match spec_last_on_plot(estates@.take(i + 1), plot) {
                Some(e) => spec_house_from_estate(e),
                None => spec_empty_house(),
            } by {
                lemma_last_on_plot_step(estates@, i as int, plot);
            }
        }
        i = i + 1;
    }
    assert(estates@.take(i as int) =~= estates@);
    houses
}


/// Containers that furniture rows are stored in: the appearance
/// containers, the exterior placed and storeroom containers and the
/// interior pages.
pub open spec fn spec_is_row_container(c: ContainerType) -> bool {
    ||| spec_interior_placed_container_index(c) is Some
    ||| spec_interior_storeroom_container_index(c) is Some
    ||| c == ContainerType::HousingExteriorAppearance
    ||| c == ContainerType::HousingExteriorPlacedItems
    ||| c == ContainerType::HousingInteriorAppearance
    ||| c == ContainerType::HousingExteriorStoreroom
}

/// The row container whose wire id is `raw`, if any.
pub open spec fn spec_housing_container_from_raw(raw: u16) -> Option<ContainerType> {
    if exists|c: ContainerType| spec_is_row_container(c) && spec_container_type_id(c) == raw {
        Some(choose|c: ContainerType| spec_is_row_container(c) && spec_container_type_id(c) == raw)
    } else {
        None
    }
}

proof fn lemma_container_from_raw(c: ContainerType)
    requires
        spec_is_row_container(c),
    ensures
        spec_housing_container_from_raw(spec_container_type_id(c)) == Some(c),
{
    let raw = spec_container_type_id(c);
    assert(spec_is_row_container(c) && spec_container_type_id(c) == raw);
    let d = choose|d: ContainerType| spec_is_row_container(d) && spec_container_type_id(d) == raw;
    lemma_container_type_id_injective(c, d);
}

/// The row container of a stored container number (its low 16 bits).
pub fn housing_container_type_from_i32(container_type: i32) -> (container: Option<ContainerType>)
    ensures
        container == spec_housing_container_from_raw(container_type as u16),
        container matches Some(c) ==> spec_is_row_container(c) && spec_container_type_id(c) == container_type as u16,
{
    let raw = container_type as u16;
    let found = if raw >= 25003 && raw <= 25014 {
        interior_placed_container(raw - 25003)
    } else if raw >= 27001 && raw <= 27008 {
        let storerooms = interior_storeroom_containers();
        Some(storerooms[(raw - 27001) as usize])
    } else if raw == 25000 {
        Some(ContainerType::HousingExteriorAppearance)
    } else if raw == 25001 {
        Some(ContainerType::HousingExteriorPlacedItems)
    } else if raw == 25002 {
        Some(ContainerType::HousingInteriorAppearance)
    } else if raw == 27000 {
        Some(ContainerType::HousingExteriorStoreroom)
    } else {
        None
    };
    proof {
        match found {
            Some(c) => {
                assert(spec_container_type_id(c) == raw);
                lemma_container_from_raw(c);
            },
            None => {
                assert forall|c: ContainerType| !(spec_is_row_container(c) && spec_container_type_id(c) == raw) by {
                }
            },
        }
    }
    found
}

/// The inventory slots after restoring one furniture row; rows in unknown
/// containers or out-of-range slots change nothing.
pub open spec fn spec_restore_row(slots: Seq<Item>, row: HousingFurniture) -> Seq<Item> {
    match spec_housing_container_from_raw(row.container_type as u16) {
        Some(c) => if 0 <= row.slot < spec_housing_container_slot_capacity(c) {
            spec_store_set(
                StoreKind::Housing,
                slots,
                c,
                row.slot as u16,
                crate::inventory::spec_housing_item(row.item_id as u32, row.stain as u8),
            )
        } else {
            slots
        },
        None => slots,
    }
}

/// The inventory slots restored from rows, in order, starting empty.
pub open spec fn spec_inventory_from_rows(rows: Seq<HousingFurniture>) -> Seq<Item>
    decreases rows.len(),
{
    if rows.len() == 0 {
        spec_empty_housing_slots()
    } else {
        spec_restore_row(spec_inventory_from_rows(rows.drop_last()), rows.last())
    }
}

/// The housing inventory that stored furniture rows describe: each row
/// puts one item (its item id and first stain) into its container slot.
pub fn housing_inventory_from_rows(rows: &Vec<HousingFurniture>) -> (inventory: HousingInventory)
    ensures
        inventory.wf(),
        inventory.slots_view() == spec_inventory_from_rows(rows@),
{
    let mut inventory = HousingInventory::new();
    let mut i: usize = 0;
    assert(rows@.take(0) =~= Seq::<HousingFurniture>::empty());
    while i < rows.len()
        invariant
            i <= rows@.len(),
            inventory.wf(),
            inventory.slots_view() == spec_inventory_from_rows(rows@.take(i as int)),
        decreases rows@.len() - i,
    {
        assert(rows@.take(i as int + 1).drop_last() =~= rows@.take(i as int));
        let row = &rows[i];
        match housing_container_type_from_i32(row.container_type) {
            Some(container) => {
                if row.slot >= 0 && (row.slot as usize) < housing_container_slot_capacity(container) {
                    let item = crate::inventory::housing_item(row.item_id as u32, row.stain as u8);
                    inventory.set_item(container, row.slot as u16, item);
                }
            },
            None => {},
        }
        i = i + 1;
    }
    assert(rows@.take(i as int) =~= rows@);
    inventory
}

/// The furniture-list entry of a row: catalog id and stain clamped into
/// their fields.
pub open spec fn spec_furniture_from_row(row: HousingFurniture) -> Furniture {
    Furniture {
        id: spec_clamp_u16(row.catalog_id),
        id2: 0,
        stain: spec_clamp_u8(row.stain),
        rotation_bits: row.rotation_bits,
        position: Position { x_bits: row.pos_x_bits, y_bits: row.pos_y_bits, z_bits: row.pos_z_bits },
    }
}

/// The furniture-list entry of a row.
pub fn furniture_from_row(row: &HousingFurniture) -> (furniture: Furniture)
    ensures
        furniture == spec_furniture_from_row(*row),
{
    Furniture {
        id: clamp_u16(row.catalog_id),
        id2: 0,
        stain: clamp_u8(row.stain),
        rotation_bits: row.rotation_bits,
        position: Position { x_bits: row.pos_x_bits, y_bits: row.pos_y_bits, z_bits: row.pos_z_bits },
    }
}

/// Rows that fit in the furniture lists at all: 255 lists of 100.
pub const MAX_FURNITURE_LIST_ROWS: usize = 25500;

/// Rows that are sent: at most the slot capacity, and at most what the
/// lists can hold.
pub open spec fn spec_max_send_rows(slot_capacity: Option<usize>) -> int {
    match slot_capacity {
        Some(c) => if c < MAX_FURNITURE_LIST_ROWS { c as int } else { MAX_FURNITURE_LIST_ROWS as int },
        None => MAX_FURNITURE_LIST_ROWS as int,
    }
}

/// Lists needed for the slots: one per hundred slots, at least one; the
/// slots are the capacity, or the rows (at least one) without one.
pub open spec fn spec_furniture_list_count(rows_len: int, slot_capacity: Option<usize>) -> int {
    let total: int = match slot_capacity {
        Some(c) => c as int,
        None => if rows_len < 1 { 1 } else { rows_len },
    };
    let lists = (total + 99) / 100;
    if lists < 1 { 1 } else { lists }
}

/// Lists actually sent: the count fits a `u8`.
pub open spec fn spec_sent_list_count(rows_len: int, slot_capacity: Option<usize>) -> int {
    let n = spec_furniture_list_count(rows_len, slot_capacity);
    if n < 255 { n } else { 255 }
}

/// The interior slot count a list announces: 0 outdoors, 100 without a
/// capacity, else what of the capacity falls in this list.
pub open spec fn spec_furniture_list_slot_count(indoors: bool, slot_capacity: Option<usize>, list_index: int) -> u8 {
    if !indoors {
        0
    } else {
        match slot_capacity {
            None => 100,
            Some(c) => {
                let rest: int = c - list_index * 100;
                if rest <= 0 { 0 } else if rest >= 100 { 100 } else { rest as u8 }
            },
        }
    }
}

/// The interior slot count a list announces.
pub fn furniture_list_slot_count(indoors: bool, slot_capacity: Option<usize>, list_index: usize) -> (count: u8)
    requires
        list_index * 100 <= usize::MAX,
    ensures
        count == spec_furniture_list_slot_count(indoors, slot_capacity, list_index as int),
{
    if !indoors {
        return 0;
    }
    match slot_capacity {
        None => 100,
        Some(c) => {
            let start = list_index * FURNITURE_COUNT;
            let rest = if c > start { c - start } else { 0 };
            if rest >= FURNITURE_COUNT { 100 } else { rest as u8 }
        },
    }
}

/// The rows that list `index` carries: its hundred, cut at the rows sent.
pub open spec fn spec_list_rows(rows: Seq<HousingFurniture>, slot_capacity: Option<usize>, index: int) -> Seq<HousingFurniture> {
    let sent: int = if rows.len() < spec_max_send_rows(slot_capacity) { rows.len() as int } else { spec_max_send_rows(slot_capacity) };
    let start: int = if index * 100 < sent { index * 100 } else { sent };
    let end: int = if index * 100 + 100 < sent { index * 100 + 100 } else { sent };
    rows.subrange(start, end)
}

/// `lists` are the furniture lists of `rows` under `house_id`: one list per
/// hundred slots (at most 255), list `i` carrying rows `100 i ..` as
/// furniture entries.
pub open spec fn spec_is_furniture_lists(
    lists: Seq<FurnitureList>,
    house_id: HouseId,
    rows: Seq<HousingFurniture>,
    indoors: bool,
    slot_capacity: Option<usize>,
) -> bool {
    &&& lists.len() == spec_sent_list_count(rows.len() as int, slot_capacity)
    &&& forall|i: int| 0 <= i < lists.len() ==> {
        &&& (#[trigger] lists[i]).id == house_id
        &&& lists[i].index == i
        &&& lists[i].count == spec_sent_list_count(rows.len() as int, slot_capacity)
        &&& lists[i].unk2 == spec_furniture_list_slot_count(indoors, slot_capacity, i)
        &&& lists[i].furniture@ == spec_list_rows(rows, slot_capacity, i).map_values(
            |row: HousingFurniture| spec_furniture_from_row(row),
        )
    }
}

/// The rows sent in furniture lists: the first ones, up to the capacity
/// and the list limit.
pub open spec fn spec_sent_rows(rows_len: int, slot_capacity: Option<usize>) -> int {
    if rows_len < spec_max_send_rows(slot_capacity) { rows_len } else { spec_max_send_rows(slot_capacity) }
}

/// The furniture entries of `lists`, one list after another.
pub open spec fn spec_list_furniture(lists: Seq<FurnitureList>) -> Seq<Furniture>
    decreases lists.len(),
{
    if lists.len() == 0 {
        Seq::empty()
    } else {
        spec_list_furniture(lists.drop_last()) + lists.last().furniture@
    }
}

/// The first `k` lists carry the sent rows before `100 k`, in order.
proof fn lemma_furniture_list_prefix(
    lists: Seq<FurnitureList>,
    house_id: HouseId,
    rows: Seq<HousingFurniture>,
    indoors: bool,
    slot_capacity: Option<usize>,
    k: int,
)
    requires
        spec_is_furniture_lists(lists, house_id, rows, indoors, slot_capacity),
        0 <= k <= lists.len(),
    ensures
        ({
            let sent = spec_sent_rows(rows.len() as int, slot_capacity);
            spec_list_furniture(lists.take(k)) == rows.subrange(0, if k * 100 < sent { k * 100 } else { sent }).map_values(
                |row: HousingFurniture| spec_furniture_from_row(row),
            )
        }),
    decreases k,
{
    let sent = spec_sent_rows(rows.len() as int, slot_capacity);
    let f = |row: HousingFurniture| spec_furniture_from_row(row);
    if k == 0 {
        assert(lists.take(0) =~= Seq::<FurnitureList>::empty());
        assert(rows.subrange(0, 0).map_values(f) =~= Seq::<Furniture>::empty());
    } else {
        let j = k - 1;
        lemma_furniture_list_prefix(lists, house_id, rows, indoors, slot_capacity, j);
        let lo: int = if j * 100 < sent { j * 100 } else { sent };
        let hi: int = if j * 100 + 100 < sent { j * 100 + 100 } else { sent };
        assert(lists.take(k).drop_last() =~= lists.take(j));
        assert(lists.take(k).last() == lists[j]);
        assert(lists[j].furniture@ == spec_list_rows(rows, slot_capacity, j).map_values(f));
        assert(spec_list_rows(rows, slot_capacity, j) == rows.subrange(lo, hi));
        assert(rows.subrange(0, lo).map_values(f) + rows.subrange(lo, hi).map_values(f) =~= rows.subrange(0, hi).map_values(f));
        assert(k * 100 == j * 100 + 100);
    }
}

/// The lists together carry the sent rows, in order: their entries, one
/// list after another, are the first `spec_sent_rows` rows as furniture.
pub proof fn lemma_furniture_lists_carry_sent_rows(
    lists: Seq<FurnitureList>,
    house_id: HouseId,
    rows: Seq<HousingFurniture>,
    indoors: bool,
    slot_capacity: Option<usize>,
)
    requires
        spec_is_furniture_lists(lists, house_id, rows, indoors, slot_capacity),
    ensures
        spec_list_furniture(lists) == rows.take(spec_sent_rows(rows.len() as int, slot_capacity)).map_values(
            |row: HousingFurniture| spec_furniture_from_row(row),
        ),
{
    let sent = spec_sent_rows(rows.len() as int, slot_capacity);
    let n = lists.len() as int;
    lemma_furniture_list_prefix(lists, house_id, rows, indoors, slot_capacity, n);
    assert(lists.take(n) =~= lists);
    let total: int = match slot_capacity {
        Some(c) => c as int,
        None => if rows.len() < 1 { 1 } else { rows.len() as int },
    };
    let lc = (total + 99) / 100;
    assert(lc * 100 >= total) by (nonlinear_arith)
        requires
            lc == (total + 99) / 100,
            total >= 0,
    ;
    assert(n * 100 >= sent);
    assert(rows.subrange(0, sent) =~= rows.take(sent));
}

/// The furniture lists of an estate: one list per hundred slots (at
/// most 255), list `i` carrying rows `100 i ..` as furniture entries.
/// Every row sent appears, in order: row `r` is entry `r % 100` of list
/// `r / 100`.
pub fn build_furniture_lists(
    house_id: HouseId,
    rows: &Vec<HousingFurniture>,
    indoors: bool,
    slot_capacity: Option<usize>,
) -> (lists: Vec<FurnitureList>)
    ensures
        spec_is_furniture_lists(lists@, house_id, rows@, indoors, slot_capacity),
        lists@.len() == spec_sent_list_count(rows@.len() as int, slot_capacity),
        forall|i: int| 0 <= i < lists@.len() ==> {
            &&& (#[trigger] lists@[i]).id == house_id
            &&& lists@[i].index == i
            &&& lists@[i].count == spec_sent_list_count(rows@.len() as int, slot_capacity)
            &&& lists@[i].unk2 == spec_furniture_list_slot_count(indoors, slot_capacity, i)
            &&& lists@[i].furniture@ == spec_list_rows(rows@, slot_capacity, i).map_values(
                |row: HousingFurniture| spec_furniture_from_row(row),
            )
        },
        forall|r: int| 0 <= r < rows@.len() && r < spec_max_send_rows(slot_capacity) && r < lists@.len() * 100
            ==> lists@[r / 100].furniture@[r % 100] == spec_furniture_from_row(#[trigger] rows@[r]),
        spec_list_furniture(lists@) == rows@.take(spec_sent_rows(rows@.len() as int, slot_capacity)).map_values(
            |row: HousingFurniture| spec_furniture_from_row(row),
        ),
{
    let max_send_rows: usize = match slot_capacity {
        Some(c) => if c < MAX_FURNITURE_LIST_ROWS { c } else { MAX_FURNITURE_LIST_ROWS },
        None => MAX_FURNITURE_LIST_ROWS,
    };
    let total_slots: usize = match slot_capacity {
        Some(c) => c,
        None => if rows.len() < 1 { 1 } else { rows.len() },
    };
    let ceil = total_slots / FURNITURE_COUNT + if total_slots % FURNITURE_COUNT != 0 { 1 } else { 0 };
    let list_count: usize = if ceil < 1 { 1 } else { ceil };
    proof {
        assert(list_count == spec_furniture_list_count(rows@.len() as int, slot_capacity)) by (nonlinear_arith)
            requires
                ceil == total_slots / 100 + if total_slots % 100 != 0 { 1int } else { 0int },
                list_count == if ceil < 1 { 1 } else { ceil },
                total_slots == match slot_capacity {
                    Some(c) => c as int,
                    None => if rows@.len() < 1 { 1 } else { rows@.len() as int },
                },
        {
        }
    }
    let sent_lists: usize = if list_count < 255 { list_count } else { 255 };
    let count: u8 = sent_lists as u8;
    let sent_rows: usize = if rows.len() < max_send_rows { rows.len() } else { max_send_rows };
    let mut lists: Vec<FurnitureList> = Vec::new();
    let mut index: usize = 0;
    while index < sent_lists
        invariant
            index <= sent_lists,
            sent_lists <= 255,
            sent_lists == spec_sent_list_count(rows@.len() as int, slot_capacity),
            count == sent_lists,
            max_send_rows == spec_max_send_rows(slot_capacity),
            sent_rows == if rows@.len() < max_send_rows { rows@.len() as int } else { max_send_rows as int },
            lists@.len() == index,
            forall|i: int| 0 <= i < lists@.len() ==> {
                &&& (#[trigger] lists@[i]).id == house_id
                &&& lists@[i].index == i
                &&& lists@[i].count == spec_sent_list_count(rows@.len() as int, slot_capacity)
                &&& lists@[i].unk2 == spec_furniture_list_slot_count(indoors, slot_capacity, i)
                &&& lists@[i].furniture@ == spec_list_rows(rows@, slot_capacity, i).map_values(
                    |row: HousingFurniture| spec_furniture_from_row(row),
                )
            },
        decreases sent_lists - index,
    {
        let start_raw = index * FURNITURE_COUNT;
        let start = if start_raw < sent_rows { start_raw } else { sent_rows };
        let end = if start_raw + FURNITURE_COUNT < sent_rows { start_raw + FURNITURE_COUNT } else { sent_rows };
        let ghost chunk = rows@.subrange(start as int, end as int);
        let mut furniture: Vec<Furniture> = Vec::new();
        let mut k: usize = start;
        while k < end
            invariant
                start <= k <= end,
                end <= rows@.len(),
                chunk == rows@.subrange(start as int, end as int),
                furniture@ == chunk.take(k - start).map_values(|row: HousingFurniture| spec_furniture_from_row(row)),
            decreases end - k,
        {
            furniture.push(furniture_from_row(&rows[k]));
            k = k + 1;
            assert(furniture@ =~= chunk.take(k - start).map_values(|row: HousingFurniture| spec_furniture_from_row(row)));
        }
        assert(chunk.take(end - start) =~= chunk);
        assert(chunk == spec_list_rows(rows@, slot_capacity, index as int));
        let unk2 = furniture_list_slot_count(indoors, slot_capacity, index);
        lists.push(FurnitureList { id: house_id, index: index as u8, count, unk2, furniture });
        index = index + 1;
    }
    proof {
        assert forall|r: int| 0 <= r < rows@.len() && r < spec_max_send_rows(slot_capacity) && r < lists@.len() * 100
            implies lists@[r / 100].furniture@[r % 100] == spec_furniture_from_row(#[trigger] rows@[r]) by {
            let i = r / 100;
            let k = r % 100;
            assert(r == 100 * i + k && 0 <= k < 100 && 0 <= i) by (nonlinear_arith)
                requires
                    i == r / 100,
                    k == r % 100,
                    0 <= r,
            {
            }
            assert(i < lists@.len()) by (nonlinear_arith)
                requires
                    r == 100 * i + k,
                    0 <= k,
                    r < lists@.len() * 100,
            {
            }
            assert(i * 100 == 100 * i);
        }
    }
    proof {
        lemma_furniture_lists_carry_sent_rows(lists@, house_id, rows@, indoors, slot_capacity);
    }
    lists
}

/// Interior details before a stored record: minimal walls, floors and
/// lights on every floor of a house; only the ground floor of an
/// apartment.
pub open spec fn spec_base_interior_details(light_level: u8, is_apartment: bool) -> HousingInteriorDetails {
    HousingInteriorDetails {
        window_style: 0,
        door_style: 0,
        door_stain: 0,
        light_level,
        ground_walls: MINIMAL_INTERIOR_WALL,
        ground_floor: MINIMAL_INTERIOR_FLOOR,
        ground_chandelier: MINIMAL_INTERIOR_LIGHT,
        top_walls: if is_apartment { 0 } else { MINIMAL_INTERIOR_WALL },
        top_floor: if is_apartment { 0 } else { MINIMAL_INTERIOR_FLOOR },
        top_chandelier: if is_apartment { 0 } else { MINIMAL_INTERIOR_LIGHT },
        cellar_walls: if is_apartment { 0 } else { MINIMAL_INTERIOR_WALL },
        cellar_floor: if is_apartment { 0 } else { MINIMAL_INTERIOR_FLOOR },
        cellar_chandelier: if is_apartment { 0 } else { MINIMAL_INTERIOR_LIGHT },
        unk_interior: if is_apartment { 0 } else { MINIMAL_INTERIOR_LIGHT },
    }
}

/// The interior details of a house with nothing stored.
pub fn housing_interior_details(light_level: u8) -> (details: HousingInteriorDetails)
    ensures
        details == spec_base_interior_details(light_level, false),
{
    HousingInteriorDetails {
        window_style: 0,
        door_style: 0,
        door_stain: 0,
        light_level,
        ground_walls: MINIMAL_INTERIOR_WALL,
        ground_floor: MINIMAL_INTERIOR_FLOOR,
        ground_chandelier: MINIMAL_INTERIOR_LIGHT,
        top_walls: MINIMAL_INTERIOR_WALL,
        top_floor: MINIMAL_INTERIOR_FLOOR,
        top_chandelier: MINIMAL_INTERIOR_LIGHT,
        cellar_walls: MINIMAL_INTERIOR_WALL,
        cellar_floor: MINIMAL_INTERIOR_FLOOR,
        cellar_chandelier: MINIMAL_INTERIOR_LIGHT,
        unk_interior: MINIMAL_INTERIOR_LIGHT,
    }
}

fn apartment_housing_interior_details(light_level: u8) -> (details: HousingInteriorDetails)
    ensures
        details == spec_base_interior_details(light_level, true),
{
    HousingInteriorDetails {
        window_style: 0,
        door_style: 0,
        door_stain: 0,
        light_level,
        ground_walls: MINIMAL_INTERIOR_WALL,
        ground_floor: MINIMAL_INTERIOR_FLOOR,
        ground_chandelier: MINIMAL_INTERIOR_LIGHT,
        top_walls: 0,
        top_floor: 0,
        top_chandelier: 0,
        cellar_walls: 0,
        cellar_floor: 0,
        cellar_chandelier: 0,
        unk_interior: 0,
    }
}

/// Interior details with a stored record laid over the base: each value
/// it sets replaces the base one; an apartment takes only the door,
/// window and ground-floor values.
pub open spec fn spec_interior_details(j: HouseInteriorJson, light_level: u8, is_apartment: bool) -> HousingInteriorDetails {
    let b = spec_base_interior_details(light_level, is_apartment);
    HousingInteriorDetails {
        window_style: j.window_style.unwrap_or(b.window_style),
        door_style: j.door_style.unwrap_or(b.door_style),
        door_stain: j.door_stain.unwrap_or(b.door_stain),
        light_level,
        ground_walls: j.ground_walls.unwrap_or(b.ground_walls),
        ground_floor: j.ground_floor.unwrap_or(b.ground_floor),
        ground_chandelier: j.ground_chandelier.unwrap_or(b.ground_chandelier),
        top_walls: if is_apartment { b.top_walls } else { j.top_walls.unwrap_or(b.top_walls) },
        top_floor: if is_apartment { b.top_floor } else { j.top_floor.unwrap_or(b.top_floor) },
        top_chandelier: if is_apartment { b.top_chandelier } else { j.top_chandelier.unwrap_or(b.top_chandelier) },
        cellar_walls: if is_apartment { b.cellar_walls } else { j.cellar_walls.unwrap_or(b.cellar_walls) },
        cellar_floor: if is_apartment { b.cellar_floor } else { j.cellar_floor.unwrap_or(b.cellar_floor) },
        cellar_chandelier: if is_apartment {
            b.cellar_chandelier
        } else {
            j.cellar_chandelier.unwrap_or(b.cellar_chandelier)
        },
        unk_interior: b.unk_interior,
    }
}

/// The interior details of an estate from its stored record; a malformed
/// record reads as empty.
pub fn housing_interior_details_from_json(
    json: &HousingJson<HouseInteriorJson>,
    light_level: u8,
    is_apartment: bool,
) -> (details: HousingInteriorDetails)
    ensures
        details == spec_interior_details(spec_interior_or_default(*json), light_level, is_apartment),
{
    let mut details = if is_apartment {
        apartment_housing_interior_details(light_level)
    } else {
        housing_interior_details(light_level)
    };
    let interior = interior_json_or_default(json);
    details.window_style = interior.window_style.unwrap_or(details.window_style);
    details.door_style = interior.door_style.unwrap_or(details.door_style);
    details.door_stain = interior.door_stain.unwrap_or(details.door_stain);
    details.ground_walls = interior.ground_walls.unwrap_or(details.ground_walls);
    details.ground_floor = interior.ground_floor.unwrap_or(details.ground_floor);
    details.ground_chandelier = interior.ground_chandelier.unwrap_or(details.ground_chandelier);
    if !is_apartment {
        details.top_walls = interior.top_walls.unwrap_or(details.top_walls);
        details.top_floor = interior.top_floor.unwrap_or(details.top_floor);
        details.top_chandelier = interior.top_chandelier.unwrap_or(details.top_chandelier);
        details.cellar_walls = interior.cellar_walls.unwrap_or(details.cellar_walls);
        details.cellar_floor = interior.cellar_floor.unwrap_or(details.cellar_floor);
        details.cellar_chandelier = interior.cellar_chandelier.unwrap_or(details.cellar_chandelier);
    }
    details
}

/// A furniture-list entry shows its stored row: the row's catalog id,
/// dye, position and rotation, whenever the stored numbers fit the
/// entry's fields.
pub proof fn lemma_furniture_entry_shows_its_row(row: HousingFurniture)
    ensures
        0 <= row.stain <= 255 ==> spec_furniture_from_row(row).stain as int == row.stain,
        0 <= row.catalog_id <= 0xFFFF ==> spec_furniture_from_row(row).id as int == row.catalog_id,
        spec_furniture_from_row(row).position == (Position { x_bits: row.pos_x_bits, y_bits: row.pos_y_bits, z_bits: row.pos_z_bits }),
        spec_furniture_from_row(row).rotation_bits == row.rotation_bits,
{
}

/// Every sent row appears in the furniture lists with its own dye and
/// catalog id: entry `r` of the lists, taken one after another, is row
/// `r`.
pub proof fn lemma_furniture_lists_show_row_dyes(
    lists: Seq<FurnitureList>,
    house_id: HouseId,
    rows: Seq<HousingFurniture>,
    indoors: bool,
    slot_capacity: Option<usize>,
    r: int,
)
    requires
        spec_is_furniture_lists(lists, house_id, rows, indoors, slot_capacity),
        0 <= r < spec_sent_rows(rows.len() as int, slot_capacity),
    ensures
        0 <= rows[r].stain <= 255 ==> spec_list_furniture(lists)[r].stain as int == rows[r].stain,
        0 <= rows[r].catalog_id <= 0xFFFF ==> spec_list_furniture(lists)[r].id as int == rows[r].catalog_id,
{
    lemma_furniture_lists_carry_sent_rows(lists, house_id, rows, indoors, slot_capacity);
    lemma_furniture_entry_shows_its_row(rows[r]);
}

/// The ward-summary flags carry each land flag in its own bit: plot owned
/// (land bit 0x01), visitors allowed (0x02), house built (0x08) and owned
/// by a free company (0x10), and nothing else.
pub proof fn lemma_housing_flags_follow_land_flags(flags: i32)
    ensures
        (spec_housing_flags_from_land_flags(flags) & HOUSING_FLAGS_PLOT_OWNED != 0) == (flags & 0x01 != 0),
        (spec_housing_flags_from_land_flags(flags) & HOUSING_FLAGS_VISITORS_ALLOWED != 0) == (flags & 0x02 != 0),
        (spec_housing_flags_from_land_flags(flags) & HOUSING_FLAGS_HOUSE_BUILT != 0) == (flags & 0x08 != 0),
        (spec_housing_flags_from_land_flags(flags) & HOUSING_FLAGS_OWNED_BY_FC != 0) == (flags & FREE_COMPANY_HOUSING_FLAG != 0),
        spec_housing_flags_from_land_flags(flags) & 0xF0 == 0,
{
    let a: u8 = if flags & 0x01 != 0 { 1 } else { 0 };
    let b: u8 = if flags & 0x02 != 0 { 2 } else { 0 };
    let c: u8 = if flags & 0x08 != 0 { 4 } else { 0 };
    let d: u8 = if flags & 0x10 != 0 { 8 } else { 0 };
    let r = spec_housing_flags_from_land_flags(flags);
    assert(r == (a + b + c + d) as u8);
    assert((r & 1 != 0) == (a == 1) && (r & 2 != 0) == (b == 2) && (r & 4 != 0) == (c == 4) && (r & 8 != 0) == (d == 8)
        && r & 0xF0 == 0) by (bit_vector)
        requires
            a == 0 || a == 1,
            b == 0 || b == 2,
            c == 0 || c == 4,
            d == 0 || d == 8,
            r == (a + b + c + d) as u8,
    ;
}

} // verus!
