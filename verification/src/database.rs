//! The housing tables: estates and their furniture rows, kept in memory,
//! with the queries and updates that the housing code makes.
use vstd::prelude::*;

use crate::common::{
    ContainerType, HOUSING_PLOTS_PER_DIVISION, HouseId, HouseUnit, PlotSize, Position,
    container_type_id, spec_container_type_id, spec_plot_size_repr,
};
use crate::fixture_json::{
    HouseExteriorJson, HouseInteriorJson, HousingJson, empty_exterior, empty_interior,
    spec_empty_exterior, spec_empty_interior,
};
use crate::init::{
    is_exterior_placed_furniture_row, is_interior_placed_furniture_row, spec_is_exterior_placed_row,
    spec_is_interior_placed_row,
};
use crate::seq_util::{
    first_match, keep, lemma_first_match_found, lemma_first_match_none, lemma_first_match_skip, lemma_first_match_some,
    lemma_first_match_absent, lemma_keep_elements, lemma_keep_take,
};

verus! {

/// The ward of the estate that a player gets without choosing one.
pub const DEFAULT_LOCAL_HOUSING_TERRITORY_TYPE_ID: u16 = 339;

/// The ward index of the default local estate.
pub const DEFAULT_LOCAL_HOUSING_WARD_INDEX: u8 = 0;

/// The division of the default local estate.
pub const DEFAULT_LOCAL_HOUSING_DIVISION: u8 = 0;

/// The plot of the default local estate.
pub const DEFAULT_LOCAL_HOUSING_PLOT_INDEX: u8 = 0;

/// Land flags of a new local estate: owned, open to visitors, house built.
pub const DEFAULT_LOCAL_HOUSING_LAND_FLAGS: i32 = 0x0B;

/// Land flag: a free company owns the estate.
pub const FREE_COMPANY_HOUSING_FLAG: i32 = 0x10;

/// The highest apartment room number.
pub const MAX_APARTMENT_ROOM_NUMBER: u16 = 90;

/// The light level of a new estate (the brightest).
pub const DEFAULT_LOCAL_HOUSING_LIGHT_LEVEL: u8 = 5;

/// One estate: a house on a plot or an apartment room.
#[derive(Debug)]
pub struct HousingEstate {
    pub land_ident: i64,
    pub house_id: i64,
    pub territory_type_id: i32,
    pub world_id: i32,
    pub ward_index: i32,
    pub division: i32,
    pub plot_index: i32,
    pub room_number: i32,
    pub is_apartment: bool,
    pub owner_content_id: Option<i64>,
    pub owner_name: String,
    pub plot_size: i32,
    pub flags: i32,
    pub estate_name: String,
    pub greeting: String,
    pub exterior_json: HousingJson<HouseExteriorJson>,
    pub interior_json: HousingJson<HouseInteriorJson>,
    pub light_level: i32,
}

impl Clone for HousingEstate {
    fn clone(&self) -> (copy: HousingEstate)
        ensures
            copy == *self,
    {
        HousingEstate {
            land_ident: self.land_ident,
            house_id: self.house_id,
            territory_type_id: self.territory_type_id,
            world_id: self.world_id,
            ward_index: self.ward_index,
            division: self.division,
            plot_index: self.plot_index,
            room_number: self.room_number,
            is_apartment: self.is_apartment,
            owner_content_id: self.owner_content_id,
            owner_name: self.owner_name.clone(),
            plot_size: self.plot_size,
            flags: self.flags,
            estate_name: self.estate_name.clone(),
            greeting: self.greeting.clone(),
            exterior_json: self.exterior_json.clone(),
            interior_json: self.interior_json.clone(),
            light_level: self.light_level,
        }
    }
}

impl Default for HousingEstate {
    fn default() -> (estate: HousingEstate)
        ensures
            estate.land_ident == 0 && estate.house_id == 0 && estate.territory_type_id == 0
                && estate.world_id == 0 && estate.ward_index == 0 && estate.division == 0
                && estate.plot_index == 0 && estate.room_number == 0 && !estate.is_apartment
                && estate.owner_content_id is None && estate.owner_name@ == Seq::<char>::empty()
                && estate.plot_size == 0 && estate.flags == 0 && estate.estate_name@ == Seq::<
                char,
            >::empty() && estate.greeting@ == Seq::<char>::empty() && estate.exterior_json
                == HousingJson::Valid(spec_empty_exterior()) && estate.interior_json
                == HousingJson::Valid(spec_empty_interior()) && estate.light_level == 0,
    {
        HousingEstate {
            land_ident: 0,
            house_id: 0,
            territory_type_id: 0,
            world_id: 0,
            ward_index: 0,
            division: 0,
            plot_index: 0,
            room_number: 0,
            is_apartment: false,
            owner_content_id: None,
            owner_name: String::new(),
            plot_size: 0,
            flags: 0,
            estate_name: String::new(),
            greeting: String::new(),
            exterior_json: HousingJson::Valid(empty_exterior()),
            interior_json: HousingJson::Valid(empty_interior()),
            light_level: 0,
        }
    }
}

/// One furniture row of an estate: the container slot it occupies and,
/// when placed, where it stands (coordinates and rotation are bit patterns
/// of 32-bit floats).
#[derive(Debug, Default, Clone, Copy, PartialEq, Eq, Structural)]
pub struct HousingFurniture {
    pub land_ident: i64,
    pub container_type: i32,
    pub slot: i32,
    pub item_id: i64,
    pub catalog_id: i32,
    pub stain: i32,
    pub placed: bool,
    pub pos_x_bits: u32,
    pub pos_y_bits: u32,
    pub pos_z_bits: u32,
    pub rotation_bits: u32,
    pub created_by_content_id: Option<i64>,
    pub updated_at: i64,
}

/// What a new estate is made of.
#[derive(Debug)]
pub struct HousingEstateSpec {
    pub owner_content_id: u64,
    pub owner_name: String,
    pub world_id: u16,
    pub territory_type_id: u16,
    pub ward_index: u8,
    pub division: u8,
    pub plot_index: u8,
    pub plot_size: PlotSize,
    pub free_company: bool,
}

/// The estate is owned by `owner`.
pub open spec fn spec_owned_by(e: HousingEstate, owner: u64) -> bool {
    e.owner_content_id == Some(owner as i64)
}

/// The house (not apartment) row at a plot.
pub open spec fn spec_at_location(e: HousingEstate, territory: u16, world: u16, ward: u8, division: u8, plot: u8) -> bool {
    &&& e.territory_type_id == territory as i32
    &&& e.world_id == world as i32
    &&& e.ward_index == ward as i32
    &&& e.division == division as i32
    &&& e.plot_index == plot as i32
    &&& !e.is_apartment
}

/// The apartment rooms of a ward division.
pub open spec fn spec_apartment_in_ward(e: HousingEstate, territory: u16, world: u16, ward: u8, division: u8) -> bool {
    &&& e.territory_type_id == territory as i32
    &&& e.world_id == world as i32
    &&& e.ward_index == ward as i32
    &&& e.division == division as i32
    &&& e.is_apartment
}

/// Houses of a ward division.
pub open spec fn spec_house_in_ward_division(e: HousingEstate, territory: u16, world: u16, ward: u8, division: i32) -> bool {
    &&& e.territory_type_id == territory as i32
    &&& e.world_id == world as i32
    &&& e.ward_index == ward as i32
    &&& e.division == division
    &&& !e.is_apartment
}

/// The estates of an owner: houses first, then apartments, each in the
/// order in which they were stored.
pub open spec fn spec_owned_estates(rows: Seq<HousingEstate>, owner: u64) -> Seq<HousingEstate> {
    keep(rows, |e: HousingEstate| spec_owned_by(e, owner) && !e.is_apartment) + keep(
        rows,
        |e: HousingEstate| spec_owned_by(e, owner) && e.is_apartment,
    )
}

/// The rows after setting a field of every estate with `land_ident`.
pub open spec fn spec_update_estates(
    rows: Seq<HousingEstate>,
    land_ident: i64,
    f: spec_fn(HousingEstate) -> HousingEstate,
) -> Seq<HousingEstate> {
    Seq::new(rows.len(), |i: int| if rows[i].land_ident == land_ident { f(rows[i]) } else { rows[i] })
}

/// Some estate has `land_ident`.
pub open spec fn spec_has_land(rows: Seq<HousingEstate>, land_ident: i64) -> bool {
    exists|i: int| 0 <= i < rows.len() && rows[i].land_ident == land_ident
}

/// No two estate rows share a land.
pub open spec fn spec_unique_lands(rows: Seq<HousingEstate>) -> bool {
    forall|i: int, j: int|
        0 <= i < rows.len() && 0 <= j < rows.len() && i != j ==> #[trigger] rows[i].land_ident != #[trigger] rows[j].land_ident
}

/// No two estate rows share a house id.
pub open spec fn spec_unique_house_ids(rows: Seq<HousingEstate>) -> bool {
    forall|i: int, j: int|
        0 <= i < rows.len() && 0 <= j < rows.len() && i != j ==> #[trigger] rows[i].house_id != #[trigger] rows[j].house_id
}

/// Lands and house ids are keys of the estate table.
pub open spec fn spec_unique_keys(rows: Seq<HousingEstate>) -> bool {
    spec_unique_lands(rows) && spec_unique_house_ids(rows)
}

/// The row holds `key` as its land or its house id.
pub open spec fn spec_holds_key(e: HousingEstate, key: i64) -> bool {
    e.land_ident == key || e.house_id == key
}

/// The land and house id of a new house at a plot.
pub open spec fn spec_local_house_key(territory: u16, world: u16, ward: u8, division: u8, plot: u8) -> i64 {
    spec_local_house_id(territory, world, ward, division, plot).spec_to_u64() as i64
}

/// The land and house id of a new apartment room.
pub open spec fn spec_local_apartment_key(territory: u16, world: u16, ward: u8, division: u8, room: u16) -> i64 {
    spec_local_apartment_id(territory, world, ward, division, room).spec_to_u64() as i64
}

/// The land and house id of a new default local estate.
pub open spec fn spec_default_house_key(world: u16) -> i64 {
    spec_local_house_key(
        DEFAULT_LOCAL_HOUSING_TERRITORY_TYPE_ID,
        world,
        DEFAULT_LOCAL_HOUSING_WARD_INDEX,
        DEFAULT_LOCAL_HOUSING_DIVISION,
        DEFAULT_LOCAL_HOUSING_PLOT_INDEX,
    )
}

/// A row shares the land or the house id of `e`.
pub open spec fn spec_key_taken(rows: Seq<HousingEstate>, e: HousingEstate) -> bool {
    exists|k: int| 0 <= k < rows.len() && ((#[trigger] rows[k]).land_ident == e.land_ident || rows[k].house_id == e.house_id)
}

/// Rows with the same keys, row for row, keep unique keys.
pub proof fn lemma_same_keys_unique(rows: Seq<HousingEstate>, new_rows: Seq<HousingEstate>)
    requires
        spec_unique_keys(rows),
        new_rows.len() == rows.len(),
        forall|k: int| 0 <= k < rows.len() ==> (#[trigger] new_rows[k]).land_ident == rows[k].land_ident
            && new_rows[k].house_id == rows[k].house_id,
    ensures
        spec_unique_keys(new_rows),
{
    assert forall|i: int, j: int| 0 <= i < new_rows.len() && 0 <= j < new_rows.len() && i != j implies
        #[trigger] new_rows[i].land_ident != #[trigger] new_rows[j].land_ident by {
        assert(rows[i].land_ident != rows[j].land_ident);
    }
    assert forall|i: int, j: int| 0 <= i < new_rows.len() && 0 <= j < new_rows.len() && i != j implies
        #[trigger] new_rows[i].house_id != #[trigger] new_rows[j].house_id by {
        assert(rows[i].house_id != rows[j].house_id);
    }
}

/// Keeping some rows keeps the keys unique.
pub proof fn lemma_keep_unique(rows: Seq<HousingEstate>, p: spec_fn(HousingEstate) -> bool)
    requires
        spec_unique_keys(rows),
    ensures
        spec_unique_keys(keep(rows, p)),
    decreases rows.len(),
{
    if rows.len() > 0 {
        let init = rows.drop_last();
        assert forall|i: int, j: int| 0 <= i < init.len() && 0 <= j < init.len() && i != j implies
            #[trigger] init[i].land_ident != #[trigger] init[j].land_ident by {
            assert(rows[i].land_ident != rows[j].land_ident);
        }
        assert forall|i: int, j: int| 0 <= i < init.len() && 0 <= j < init.len() && i != j implies
            #[trigger] init[i].house_id != #[trigger] init[j].house_id by {
            assert(rows[i].house_id != rows[j].house_id);
        }
        lemma_keep_unique(init, p);
        if p(rows.last()) {
            let prev = keep(init, p);
            let r = keep(rows, p);
            lemma_keep_elements(init, p);
            assert(r == prev.push(rows.last()));
            assert forall|i: int| 0 <= i < prev.len() implies #[trigger] prev[i].land_ident != rows.last().land_ident
                && prev[i].house_id != rows.last().house_id by {
                assert(init.contains(prev[i]));
                let j = choose|j: int| 0 <= j < init.len() && init[j] == prev[i];
                assert(rows[j] == init[j]);
                assert(rows[rows.len() - 1] == rows.last());
            }
            assert forall|i: int, j: int| 0 <= i < r.len() && 0 <= j < r.len() && i != j implies
                #[trigger] r[i].land_ident != #[trigger] r[j].land_ident by {
                if i < prev.len() && j < prev.len() {
                    assert(r[i] == prev[i] && r[j] == prev[j]);
                } else if i < prev.len() {
                    assert(r[i] == prev[i] && r[j] == rows.last());
                } else {
                    assert(r[j] == prev[j] && r[i] == rows.last());
                }
            }
            assert forall|i: int, j: int| 0 <= i < r.len() && 0 <= j < r.len() && i != j implies
                #[trigger] r[i].house_id != #[trigger] r[j].house_id by {
                if i < prev.len() && j < prev.len() {
                    assert(r[i] == prev[i] && r[j] == prev[j]);
                } else if i < prev.len() {
                    assert(r[i] == prev[i] && r[j] == rows.last());
                } else {
                    assert(r[j] == prev[j] && r[i] == rows.last());
                }
            }
        }
    }
}

/// Adding a row whose land and house id no row holds keeps the keys
/// unique.
pub proof fn lemma_push_unique(rows: Seq<HousingEstate>, e: HousingEstate)
    requires
        spec_unique_keys(rows),
        forall|k: int| 0 <= k < rows.len() ==> (#[trigger] rows[k]).land_ident != e.land_ident && rows[k].house_id != e.house_id,
    ensures
        spec_unique_keys(rows.push(e)),
{
    let r = rows.push(e);
    assert forall|i: int, j: int| 0 <= i < r.len() && 0 <= j < r.len() && i != j implies
        #[trigger] r[i].land_ident != #[trigger] r[j].land_ident && r[i].house_id != r[j].house_id by {
        if i < rows.len() && j < rows.len() {
            assert(r[i] == rows[i] && r[j] == rows[j]);
        } else if i < rows.len() {
            assert(r[i] == rows[i] && r[j] == e);
        } else {
            assert(r[j] == rows[j] && r[i] == e);
        }
    }
}

/// The id of a new house at a plot; plot and ward numbers are cut to the
/// widths of their fields.
pub open spec fn spec_local_house_id(territory: u16, world: u16, ward: u8, division: u8, plot: u8) -> HouseId {
    HouseId {
        unit: HouseUnit {
            apartment_division_plot_index: ((plot + division * HOUSING_PLOTS_PER_DIVISION) % 128) as u8,
            apartment_flag: false,
        },
        unk1: 0,
        ward_index: (ward % 64) as u8,
        room_number: 0,
        territory_type_id: territory,
        world_id: world,
    }
}

/// The id of a new apartment room; the building is the division's first
/// plot number.
pub open spec fn spec_local_apartment_id(territory: u16, world: u16, ward: u8, division: u8, room: u16) -> HouseId {
    HouseId {
        unit: HouseUnit {
            apartment_division_plot_index: ((division * HOUSING_PLOTS_PER_DIVISION) % 128) as u8,
            apartment_flag: true,
        },
        unk1: 0,
        ward_index: (ward % 64) as u8,
        room_number: room,
        territory_type_id: territory,
        world_id: world,
    }
}

/// A new default local estate (a large personal house on plot 1 of the
/// first ward of the default district) for `owner`.
pub open spec fn spec_is_new_default_estate(e: HousingEstate, owner: u64, world_id: u16) -> bool {
    spec_is_new_local_estate(e, HousingEstateSpec {
        owner_content_id: owner,
        owner_name: e.owner_name,
        world_id,
        territory_type_id: DEFAULT_LOCAL_HOUSING_TERRITORY_TYPE_ID,
        ward_index: DEFAULT_LOCAL_HOUSING_WARD_INDEX,
        division: DEFAULT_LOCAL_HOUSING_DIVISION,
        plot_index: DEFAULT_LOCAL_HOUSING_PLOT_INDEX,
        plot_size: PlotSize::Large,
        free_company: false,
    })
}

/// A house created for `spec`: owned, open, built, keyed by its house id.
pub open spec fn spec_is_new_local_estate(e: HousingEstate, spec: HousingEstateSpec) -> bool {
    let id = spec_local_house_id(spec.territory_type_id, spec.world_id, spec.ward_index, spec.division, spec.plot_index);
    &&& e.land_ident == id.spec_to_u64() as i64
    &&& e.house_id == id.spec_to_u64() as i64
    &&& e.territory_type_id == spec.territory_type_id as i32
    &&& e.world_id == spec.world_id as i32
    &&& e.ward_index == spec.ward_index as i32
    &&& e.division == spec.division as i32
    &&& e.plot_index == spec.plot_index as i32
    &&& e.room_number == 0
    &&& !e.is_apartment
    &&& e.owner_content_id == Some(spec.owner_content_id as i64)
    &&& e.owner_name == spec.owner_name
    &&& e.plot_size == spec_plot_size_repr(spec.plot_size) as i32
    &&& e.flags == DEFAULT_LOCAL_HOUSING_LAND_FLAGS + if spec.free_company { FREE_COMPANY_HOUSING_FLAG } else { 0 }
    &&& e.estate_name@ == "Local Estate"@
    &&& e.greeting@.len() == 0
    &&& e.exterior_json == HousingJson::Valid(spec_empty_exterior())
    &&& e.interior_json == HousingJson::Valid(spec_empty_interior())
    &&& e.light_level == DEFAULT_LOCAL_HOUSING_LIGHT_LEVEL as i32
}

/// An apartment room created for an owner.
pub open spec fn spec_is_new_local_apartment(
    e: HousingEstate,
    owner: u64,
    name: Seq<char>,
    territory: u16,
    world: u16,
    ward: u8,
    division: u8,
    room: u16,
) -> bool {
    let id = spec_local_apartment_id(territory, world, ward, division, room);
    &&& e.land_ident == id.spec_to_u64() as i64
    &&& e.house_id == id.spec_to_u64() as i64
    &&& e.territory_type_id == territory as i32
    &&& e.world_id == world as i32
    &&& e.ward_index == ward as i32
    &&& e.division == division as i32
    &&& e.plot_index == division * HOUSING_PLOTS_PER_DIVISION
    &&& e.room_number == room as i32
    &&& e.is_apartment
    &&& e.owner_content_id == Some(owner as i64)
    &&& e.owner_name@ == name
    &&& e.plot_size == 0
    &&& e.flags == DEFAULT_LOCAL_HOUSING_LAND_FLAGS
    &&& e.estate_name@ == "Local Apartment"@
    &&& e.greeting@.len() == 0
    &&& e.exterior_json == HousingJson::Valid(spec_empty_exterior())
    &&& e.interior_json == HousingJson::Valid(spec_empty_interior())
    &&& e.light_level == DEFAULT_LOCAL_HOUSING_LIGHT_LEVEL as i32
}

/// The apartment room of an owner-independent address.
pub open spec fn spec_apartment_room_at(e: HousingEstate, territory: u16, world: u16, ward: u8, division: u8, room: u16) -> bool {
    spec_apartment_in_ward(e, territory, world, ward, division) && e.room_number == room as i32
}

/// Two estates agree on everything but the fields a text update sets.
pub open spec fn spec_same_but_texts(a: HousingEstate, b: HousingEstate) -> bool {
    &&& a.land_ident == b.land_ident
    &&& a.house_id == b.house_id
    &&& a.territory_type_id == b.territory_type_id
    &&& a.world_id == b.world_id
    &&& a.ward_index == b.ward_index
    &&& a.division == b.division
    &&& a.plot_index == b.plot_index
    &&& a.room_number == b.room_number
    &&& a.is_apartment == b.is_apartment
    &&& a.owner_content_id == b.owner_content_id
    &&& a.owner_name == b.owner_name
    &&& a.plot_size == b.plot_size
    &&& a.flags == b.flags
    &&& a.exterior_json == b.exterior_json
    &&& a.interior_json == b.interior_json
    &&& a.light_level == b.light_level
}

/// The furniture rows after moving those at a slot of an estate to a new
/// position and rotation.
pub open spec fn spec_reposition_rows(
    rows: Seq<HousingFurniture>,
    land_ident: i64,
    c: ContainerType,
    slot: u16,
    position: Position,
    rotation_bits: u32,
) -> Seq<HousingFurniture> {
    Seq::new(rows.len(), |k: int| if spec_furniture_at(rows[k], land_ident, c, slot) {
        HousingFurniture {
            pos_x_bits: position.x_bits,
            pos_y_bits: position.y_bits,
            pos_z_bits: position.z_bits,
            rotation_bits,
            ..rows[k]
        }
    } else {
        rows[k]
    })
}

/// The furniture rows after storing `row`: it replaces the first row of
/// the same estate, container and slot, or is appended.
pub open spec fn spec_upserted_rows(rows: Seq<HousingFurniture>, row: HousingFurniture) -> Seq<HousingFurniture> {
    let same = |f: HousingFurniture| f.land_ident == row.land_ident && f.container_type == row.container_type && f.slot == row.slot;
    match crate::seq_util::first_index(rows, same) {
        Some(k) => rows.update(k, row),
        None => rows.push(row),
    }
}

/// The furniture rows after moving those at a slot of an estate: into
/// another container slot (placed or not) when both are given, else out
/// of the estate.
pub open spec fn spec_moved_rows(
    rows: Seq<HousingFurniture>,
    land_ident: i64,
    container: ContainerType,
    slot: u16,
    dst_container: Option<ContainerType>,
    dst_slot: Option<u16>,
    placed: bool,
) -> Seq<HousingFurniture> {
    match (dst_container, dst_slot) {
        (Some(dc), Some(ds)) => Seq::new(rows.len(), |k: int|
            if spec_furniture_at(rows[k], land_ident, container, slot) {
                HousingFurniture { container_type: spec_container_type_id(dc) as i32, slot: ds as i32, placed, ..rows[k] }
            } else {
                rows[k]
            }),
        _ => keep(rows, |f: HousingFurniture| !spec_furniture_at(f, land_ident, container, slot)),
    }
}

/// Some furniture row stands at a slot of an estate.
pub open spec fn spec_has_furniture_at(rows: Seq<HousingFurniture>, land_ident: i64, c: ContainerType, slot: u16) -> bool {
    exists|k: int| 0 <= k < rows.len() && spec_furniture_at(rows[k], land_ident, c, slot)
}

/// The furniture rows of an estate.
pub open spec fn spec_furniture_of(rows: Seq<HousingFurniture>, land_ident: i64) -> Seq<HousingFurniture> {
    keep(rows, |f: HousingFurniture| f.land_ident == land_ident)
}

/// The row stands in slot `slot` of container `c` of an estate.
pub open spec fn spec_furniture_at(f: HousingFurniture, land_ident: i64, c: ContainerType, slot: u16) -> bool {
    f.land_ident == land_ident && f.container_type == spec_container_type_id(c) as i32 && f.slot == slot as i32
}

/// A placed row of an estate in an area that a replacement covers.
pub open spec fn spec_replaced_row(f: HousingFurniture, land_ident: i64, interior: bool, exterior: bool) -> bool {
    f.land_ident == land_ident && ((interior && spec_is_interior_placed_row(f)) || (exterior && spec_is_exterior_placed_row(f)))
}

/// The housing tables.
#[derive(Debug)]
pub struct WorldDatabase {
    path: String,
    estates: Vec<HousingEstate>,
    furniture: Vec<HousingFurniture>,
}

impl WorldDatabase {
    /// The estate rows in the order they were stored.
    pub closed spec fn estates_view(&self) -> Seq<HousingEstate> {
        self.estates@
    }

    /// The furniture rows in the order they were stored.
    pub closed spec fn furniture_view(&self) -> Seq<HousingFurniture> {
        self.furniture@
    }

    /// The name the tables were opened under.
    pub closed spec fn path_view(&self) -> Seq<char> {
        self.path@
    }

    /// Lands and house ids identify estate rows.
    pub open spec fn wf(&self) -> bool {
        spec_unique_keys(self.estates_view())
    }

    /// Empty tables, named by `path` (the tables are held in memory).
    pub fn new_at(path: &str) -> (db: WorldDatabase)
        ensures
            db.wf(),
            db.estates_view() == Seq::<HousingEstate>::empty(),
            db.furniture_view() == Seq::<HousingFurniture>::empty(),
            db.path_view() == path@,
    {
        WorldDatabase { path: String::from_str(path), estates: Vec::new(), furniture: Vec::new() }
    }

    /// The name that the tables were opened under.
    pub fn path(&self) -> (p: &str)
        ensures
            p@ == self.path_view(),
    {
        self.path.as_str()
    }

    /// Stores `estate` as given, unless a row already has its land or its
    /// house id; returns it either way.
    pub fn insert_housing_estate_for_test(&mut self, estate: HousingEstate) -> (stored: HousingEstate)
        requires
            old(self).wf(),
        ensures
            final(self).wf(),
            stored == estate,
            final(self).estates_view() == if spec_key_taken(old(self).estates_view(), estate) {
                old(self).estates_view()
            } else {
                old(self).estates_view().push(estate)
            },
            final(self).furniture_view() == old(self).furniture_view(),
    {
        let mut i: usize = 0;
        while i < self.estates.len()
            invariant
                i <= self.estates@.len(),
                self.wf(),
                self.estates@ == old(self).estates@,
                self.furniture@ == old(self).furniture@,
                forall|k: int| 0 <= k < i ==> (#[trigger] self.estates@[k]).land_ident != estate.land_ident
                    && self.estates@[k].house_id != estate.house_id,
            decreases self.estates@.len() - i,
        {
            if self.estates[i].land_ident == estate.land_ident || self.estates[i].house_id == estate.house_id {
                assert(spec_key_taken(self.estates@, estate));
                return estate;
            }
            i = i + 1;
        }
        proof { lemma_push_unique(self.estates@, estate); }
        let stored = estate.clone();
        self.estates.push(estate);
        stored
    }

    /// The first estate whose stored house id is `house_id`.
    pub fn housing_estate_by_house_id(&self, house_id: HouseId) -> (estate: Option<HousingEstate>)
        requires
            house_id.well_formed(),
        ensures
            estate == first_match(self.estates_view(), |e: HousingEstate| e.house_id == house_id.spec_to_u64() as i64),
    {
        let value = house_id.to_u64() as i64;
        let ghost p = |e: HousingEstate| e.house_id == house_id.spec_to_u64() as i64;
        let mut i: usize = 0;
        assert(self.estates@.skip(0) =~= self.estates@);
        while i < self.estates.len()
            invariant
                i <= self.estates@.len(),
                value == house_id.spec_to_u64() as i64,
                p == (|e: HousingEstate| e.house_id == house_id.spec_to_u64() as i64),
                first_match(self.estates@, p) == first_match(self.estates@.skip(i as int), p),
            decreases self.estates@.len() - i,
        {
            if self.estates[i].house_id == value {
                proof { lemma_first_match_found(self.estates@, p, i as int); }
                return Some(self.estates[i].clone());
            }
            proof { lemma_first_match_skip(self.estates@, p, i as int); }
            i = i + 1;
        }
        assert(self.estates@.skip(i as int).len() == 0);
        None
    }

    /// The first row that holds `key` as its land or its house id.
    pub fn housing_estate_holding_key(&self, key: i64) -> (estate: Option<HousingEstate>)
        ensures
            estate == first_match(self.estates_view(), |e: HousingEstate| spec_holds_key(e, key)),
            estate is None ==> forall|k: int| 0 <= k < self.estates_view().len() ==> !spec_holds_key(#[trigger] self.estates_view()[k], key),
    {
        let ghost p = |e: HousingEstate| spec_holds_key(e, key);
        proof { lemma_first_match_absent(self.estates@, p); }
        let mut i: usize = 0;
        assert(self.estates@.skip(0) =~= self.estates@);
        while i < self.estates.len()
            invariant
                i <= self.estates@.len(),
                p == (|e: HousingEstate| spec_holds_key(e, key)),
                first_match(self.estates@, p) == first_match(self.estates@.skip(i as int), p),
            decreases self.estates@.len() - i,
        {
            if self.estates[i].land_ident == key || self.estates[i].house_id == key {
                proof { lemma_first_match_found(self.estates@, p, i as int); }
                return Some(self.estates[i].clone());
            }
            proof { lemma_first_match_skip(self.estates@, p, i as int); }
            i = i + 1;
        }
        assert(self.estates@.skip(i as int).len() == 0);
        None
    }

    /// The first house (not apartment) row at a plot.
    pub fn housing_estate_by_location(&self, territory_type_id: u16, world_id: u16, ward_index: u8, division: u8, plot_index: u8) -> (estate: Option<HousingEstate>)
        ensures
            estate == first_match(self.estates_view(), |e: HousingEstate| spec_at_location(e, territory_type_id, world_id, ward_index, division, plot_index)),
    {
        let ghost p = |e: HousingEstate| spec_at_location(e, territory_type_id, world_id, ward_index, division, plot_index);
        let mut i: usize = 0;
        assert(self.estates@.skip(0) =~= self.estates@);
        while i < self.estates.len()
            invariant
                i <= self.estates@.len(),
                p == (|e: HousingEstate| spec_at_location(e, territory_type_id, world_id, ward_index, division, plot_index)),
                first_match(self.estates@, p) == first_match(self.estates@.skip(i as int), p),
            decreases self.estates@.len() - i,
        {
            let e = &self.estates[i];
            if e.territory_type_id == territory_type_id as i32 && e.world_id == world_id as i32
                && e.ward_index == ward_index as i32 && e.division == division as i32
                && e.plot_index == plot_index as i32 && !e.is_apartment {
                proof { lemma_first_match_found(self.estates@, p, i as int); }
                return Some(e.clone());
            }
            proof { lemma_first_match_skip(self.estates@, p, i as int); }
            i = i + 1;
        }
        assert(self.estates@.skip(i as int).len() == 0);
        None
    }

    /// The estates of `owner`: houses first, then apartments, each in the
    /// order in which they were stored.
    pub fn owned_housing_estates(&self, owner_content_id: u64) -> (estates: Vec<HousingEstate>)
        ensures
            estates@ == spec_owned_estates(self.estates_view(), owner_content_id),
    {
        let ghost houses = |e: HousingEstate| spec_owned_by(e, owner_content_id) && !e.is_apartment;
        let ghost apartments = |e: HousingEstate| spec_owned_by(e, owner_content_id) && e.is_apartment;
        let owner = owner_content_id as i64;
        let mut first: Vec<HousingEstate> = Vec::new();
        let mut second: Vec<HousingEstate> = Vec::new();
        let mut i: usize = 0;
        while i < self.estates.len()
            invariant
                i <= self.estates@.len(),
                owner == owner_content_id as i64,
                houses == (|e: HousingEstate| spec_owned_by(e, owner_content_id) && !e.is_apartment),
                apartments == (|e: HousingEstate| spec_owned_by(e, owner_content_id) && e.is_apartment),
                first@ == keep(self.estates@.take(i as int), houses),
                second@ == keep(self.estates@.take(i as int), apartments),
            decreases self.estates@.len() - i,
        {
            proof {
                lemma_keep_take(self.estates@, houses, i as int);
                lemma_keep_take(self.estates@, apartments, i as int);
            }
            let e = &self.estates[i];
            if e.owner_content_id == Some(owner) {
                if e.is_apartment {
                    second.push(e.clone());
                } else {
                    first.push(e.clone());
                }
            }
            i = i + 1;
        }
        assert(self.estates@.take(i as int) =~= self.estates@);
        let mut k: usize = 0;
        let ghost first0 = first@;
        while k < second.len()
            invariant
                k <= second@.len(),
                first@ == first0 + second@.take(k as int),
            decreases second@.len() - k,
        {
            first.push(second[k].clone());
            assert(second@.take(k as int + 1) =~= second@.take(k as int).push(second@[k as int]));
            k = k + 1;
        }
        assert(second@.take(k as int) =~= second@);
        first
    }

    /// The houses of a ward: those of the main division, then those of
    /// the subdivision, each in the order in which they were stored.
    pub fn housing_estates_by_ward_and_divisions(&self, territory_type_id: u16, world_id: u16, ward_index: u8) -> (estates: (Vec<HousingEstate>, Vec<HousingEstate>))
        ensures
            estates.0@ == keep(self.estates_view(), |e: HousingEstate| spec_house_in_ward_division(e, territory_type_id, world_id, ward_index, 0)),
            estates.1@ == keep(self.estates_view(), |e: HousingEstate| spec_house_in_ward_division(e, territory_type_id, world_id, ward_index, 1)),
    {
        let ghost main = |e: HousingEstate| spec_house_in_ward_division(e, territory_type_id, world_id, ward_index, 0);
        let ghost sub = |e: HousingEstate| spec_house_in_ward_division(e, territory_type_id, world_id, ward_index, 1);
        let mut first: Vec<HousingEstate> = Vec::new();
        let mut second: Vec<HousingEstate> = Vec::new();
        let mut i: usize = 0;
        while i < self.estates.len()
            invariant
                i <= self.estates@.len(),
                main == (|e: HousingEstate| spec_house_in_ward_division(e, territory_type_id, world_id, ward_index, 0)),
                sub == (|e: HousingEstate| spec_house_in_ward_division(e, territory_type_id, world_id, ward_index, 1)),
                first@ == keep(self.estates@.take(i as int), main),
                second@ == keep(self.estates@.take(i as int), sub),
            decreases self.estates@.len() - i,
        {
            proof {
                lemma_keep_take(self.estates@, main, i as int);
                lemma_keep_take(self.estates@, sub, i as int);
            }
            let e = &self.estates[i];
            if e.territory_type_id == territory_type_id as i32 && e.world_id == world_id as i32
                && e.ward_index == ward_index as i32 && !e.is_apartment {
                if e.division == 0 {
                    first.push(e.clone());
                } else if e.division == 1 {
                    second.push(e.clone());
                }
            }
            i = i + 1;
        }
        assert(self.estates@.take(i as int) =~= self.estates@);
        (first, second)
    }

    /// The apartment rooms of a ward division, in the order stored.
    pub fn housing_apartments_by_ward(&self, territory_type_id: u16, world_id: u16, ward_index: u8, division: u8) -> (estates: Vec<HousingEstate>)
        ensures
            estates@ == keep(self.estates_view(), |e: HousingEstate| spec_apartment_in_ward(e, territory_type_id, world_id, ward_index, division)),
    {
        let ghost p = |e: HousingEstate| spec_apartment_in_ward(e, territory_type_id, world_id, ward_index, division);
        let mut out: Vec<HousingEstate> = Vec::new();
        let mut i: usize = 0;
        while i < self.estates.len()
            invariant
                i <= self.estates@.len(),
                p == (|e: HousingEstate| spec_apartment_in_ward(e, territory_type_id, world_id, ward_index, division)),
                out@ == keep(self.estates@.take(i as int), p),
            decreases self.estates@.len() - i,
        {
            proof { lemma_keep_take(self.estates@, p, i as int); }
            let e = &self.estates[i];
            if e.territory_type_id == territory_type_id as i32 && e.world_id == world_id as i32
                && e.ward_index == ward_index as i32 && e.division == division as i32 && e.is_apartment {
                out.push(e.clone());
            }
            i = i + 1;
        }
        assert(self.estates@.take(i as int) =~= self.estates@);
        out
    }

    /// The estate at a plot, creating the house described by `spec` when
    /// the plot holds none.
    pub fn ensure_local_estate_with_spec(&mut self, spec: HousingEstateSpec) -> (estate: HousingEstate)
        requires
            old(self).wf(),
        ensures
            final(self).wf(),
            final(self).furniture_view() == old(self).furniture_view(),
            match first_match(old(self).estates_view(), |e: HousingEstate| spec_at_location(e, spec.territory_type_id, spec.world_id, spec.ward_index, spec.division, spec.plot_index)) {
                Some(found) => estate == found && final(self).estates_view() == old(self).estates_view(),
                None => match first_match(
                    old(self).estates_view(),
                    |e: HousingEstate| spec_holds_key(e, spec_local_house_key(spec.territory_type_id, spec.world_id, spec.ward_index, spec.division, spec.plot_index)),
                ) {
                    Some(holder) => estate == holder && final(self).estates_view() == old(self).estates_view(),
                    None => spec_is_new_local_estate(estate, spec) && final(self).estates_view() == old(self).estates_view().push(estate),
                },
            },
    {
        match self.housing_estate_by_location(spec.territory_type_id, spec.world_id, spec.ward_index, spec.division, spec.plot_index) {
            Some(found) => found,
            None => {
                let plot: u16 = (spec.plot_index as u16 + spec.division as u16 * 30) % 128;
                let id = HouseId {
                    unit: HouseUnit { apartment_division_plot_index: plot as u8, apartment_flag: false },
                    unk1: 0,
                    ward_index: spec.ward_index % 64,
                    room_number: 0,
                    territory_type_id: spec.territory_type_id,
                    world_id: spec.world_id,
                };
                assert(id == spec_local_house_id(spec.territory_type_id, spec.world_id, spec.ward_index, spec.division, spec.plot_index));
                let value = #[verifier::truncate] (id.to_u64() as i64);
                match self.housing_estate_holding_key(value) {
                    Some(holder) => return holder,
                    None => {},
                }
                let flags = if spec.free_company {
                    DEFAULT_LOCAL_HOUSING_LAND_FLAGS + FREE_COMPANY_HOUSING_FLAG
                } else {
                    DEFAULT_LOCAL_HOUSING_LAND_FLAGS
                };
                let estate = HousingEstate {
                    land_ident: value,
                    house_id: value,
                    territory_type_id: spec.territory_type_id as i32,
                    world_id: spec.world_id as i32,
                    ward_index: spec.ward_index as i32,
                    division: spec.division as i32,
                    plot_index: spec.plot_index as i32,
                    room_number: 0,
                    is_apartment: false,
                    owner_content_id: Some(#[verifier::truncate] (spec.owner_content_id as i64)),
                    owner_name: spec.owner_name,
                    plot_size: spec.plot_size.repr() as i32,
                    flags,
                    estate_name: String::from_str("Local Estate"),
                    greeting: String::new(),
                    exterior_json: HousingJson::Valid(empty_exterior()),
                    interior_json: HousingJson::Valid(empty_interior()),
                    light_level: DEFAULT_LOCAL_HOUSING_LIGHT_LEVEL as i32,
                };
                proof { lemma_push_unique(self.estates@, estate); }
                let stored = estate.clone();
                self.estates.push(estate);
                stored
            },
        }
    }

    /// The estate at the default plot, creating a large personal house
    /// for `owner_content_id` when the plot holds none.
    pub fn ensure_local_estate(&mut self, owner_content_id: u64, owner_name: &str, world_id: u16) -> (estate: HousingEstate)
        requires
            old(self).wf(),
        ensures
            final(self).wf(),
            final(self).furniture_view() == old(self).furniture_view(),
            match first_match(old(self).estates_view(), |e: HousingEstate| spec_at_location(e, DEFAULT_LOCAL_HOUSING_TERRITORY_TYPE_ID, world_id, DEFAULT_LOCAL_HOUSING_WARD_INDEX, DEFAULT_LOCAL_HOUSING_DIVISION, DEFAULT_LOCAL_HOUSING_PLOT_INDEX)) {
                Some(found) => estate == found && final(self).estates_view() == old(self).estates_view(),
                None => match first_match(old(self).estates_view(), |e: HousingEstate| spec_holds_key(e, spec_default_house_key(world_id))) {
                    Some(holder) => estate == holder && final(self).estates_view() == old(self).estates_view(),
                    None => final(self).estates_view() == old(self).estates_view().push(estate)
                    && estate.owner_name@ == owner_name@
                    && spec_is_new_local_estate(estate, HousingEstateSpec {
                        owner_content_id,
                        owner_name: estate.owner_name,
                        world_id,
                        territory_type_id: DEFAULT_LOCAL_HOUSING_TERRITORY_TYPE_ID,
                        ward_index: DEFAULT_LOCAL_HOUSING_WARD_INDEX,
                        division: DEFAULT_LOCAL_HOUSING_DIVISION,
                        plot_index: DEFAULT_LOCAL_HOUSING_PLOT_INDEX,
                        plot_size: PlotSize::Large,
                        free_company: false,
                    }),
                },
            },
    {
        let name = String::from_str(owner_name);
        self.ensure_local_estate_with_spec(HousingEstateSpec {
            owner_content_id,
            owner_name: name,
            world_id,
            territory_type_id: DEFAULT_LOCAL_HOUSING_TERRITORY_TYPE_ID,
            ward_index: DEFAULT_LOCAL_HOUSING_WARD_INDEX,
            division: DEFAULT_LOCAL_HOUSING_DIVISION,
            plot_index: DEFAULT_LOCAL_HOUSING_PLOT_INDEX,
            plot_size: PlotSize::Large,
            free_company: false,
        })
    }

    /// The apartment room at an address, creating it for the owner when
    /// none is stored; `None` (and no change) for room numbers outside
    /// `1..=90`.
    pub fn ensure_local_apartment(
        &mut self,
        owner_content_id: u64,
        owner_name: &str,
        world_id: u16,
        territory_type_id: u16,
        ward_index: u8,
        division: u8,
        room_number: u16,
    ) -> (estate: Option<HousingEstate>)
        requires
            old(self).wf(),
        ensures
            final(self).wf(),
            final(self).furniture_view() == old(self).furniture_view(),
            room_number == 0 || room_number > MAX_APARTMENT_ROOM_NUMBER ==> estate is None && final(self).estates_view() == old(self).estates_view(),
            1 <= room_number <= MAX_APARTMENT_ROOM_NUMBER ==> match first_match(old(self).estates_view(), |e: HousingEstate| spec_apartment_room_at(e, territory_type_id, world_id, ward_index, division, room_number)) {
                Some(found) => estate == Some(found) && final(self).estates_view() == old(self).estates_view(),
                None => match first_match(
                    old(self).estates_view(),
                    |e: HousingEstate| spec_holds_key(e, spec_local_apartment_key(territory_type_id, world_id, ward_index, division, room_number)),
                ) {
                    Some(holder) => estate == Some(holder) && final(self).estates_view() == old(self).estates_view(),
                    None => estate matches Some(e) && final(self).estates_view() == old(self).estates_view().push(e)
                        && spec_is_new_local_apartment(e, owner_content_id, owner_name@, territory_type_id, world_id, ward_index, division, room_number),
                },
            },
    {
        if room_number == 0 || room_number > MAX_APARTMENT_ROOM_NUMBER {
            return None;
        }
        let ghost p = |e: HousingEstate| spec_apartment_room_at(e, territory_type_id, world_id, ward_index, division, room_number);
        let mut i: usize = 0;
        assert(self.estates@.skip(0) =~= self.estates@);
        while i < self.estates.len()
            invariant
                i <= self.estates@.len(),
                p == (|e: HousingEstate| spec_apartment_room_at(e, territory_type_id, world_id, ward_index, division, room_number)),
                first_match(self.estates@, p) == first_match(self.estates@.skip(i as int), p),
                1 <= room_number <= MAX_APARTMENT_ROOM_NUMBER,
                self.wf(),
                self.estates@ == old(self).estates@,
                self.furniture@ == old(self).furniture@,
            decreases self.estates@.len() - i,
        {
            let e = &self.estates[i];
            if e.territory_type_id == territory_type_id as i32 && e.world_id == world_id as i32
                && e.ward_index == ward_index as i32 && e.division == division as i32 && e.is_apartment
                && e.room_number == room_number as i32 {
                proof { lemma_first_match_found(self.estates@, p, i as int); }
                return Some(e.clone());
            }
            proof { lemma_first_match_skip(self.estates@, p, i as int); }
            i = i + 1;
        }
        assert(self.estates@.skip(i as int).len() == 0);
        let plot: u16 = (division as u16 * 30) % 128;
        let id = HouseId {
            unit: HouseUnit { apartment_division_plot_index: plot as u8, apartment_flag: true },
            unk1: 0,
            ward_index: ward_index % 64,
            room_number,
            territory_type_id,
            world_id,
        };
        assert(id == spec_local_apartment_id(territory_type_id, world_id, ward_index, division, room_number));
        let value = #[verifier::truncate] (id.to_u64() as i64);
        match self.housing_estate_holding_key(value) {
            Some(holder) => return Some(holder),
            None => {},
        }
        let estate = HousingEstate {
            land_ident: value,
            house_id: value,
            territory_type_id: territory_type_id as i32,
            world_id: world_id as i32,
            ward_index: ward_index as i32,
            division: division as i32,
            plot_index: division as i32 * 30,
            room_number: room_number as i32,
            is_apartment: true,
            owner_content_id: Some(#[verifier::truncate] (owner_content_id as i64)),
            owner_name: String::from_str(owner_name),
            plot_size: 0,
            flags: DEFAULT_LOCAL_HOUSING_LAND_FLAGS,
            estate_name: String::from_str("Local Apartment"),
            greeting: String::new(),
            exterior_json: HousingJson::Valid(empty_exterior()),
            interior_json: HousingJson::Valid(empty_interior()),
            light_level: DEFAULT_LOCAL_HOUSING_LIGHT_LEVEL as i32,
        };
        proof { lemma_push_unique(self.estates@, estate); }
        let stored = estate.clone();
        self.estates.push(estate);
        Some(stored)
    }

    /// Sets the light level of the estates with `land_ident`; false when
    /// there is none.
    pub fn update_housing_light_level(&mut self, land_ident: i64, level: u8) -> (updated: bool)
        requires
            old(self).wf(),
        ensures
            final(self).wf(),
            updated == spec_has_land(old(self).estates_view(), land_ident),
            final(self).estates_view() == spec_update_estates(old(self).estates_view(), land_ident, |e: HousingEstate| HousingEstate { light_level: level as i32, ..e }),
            final(self).furniture_view() == old(self).furniture_view(),
    {
        let ghost f = |e: HousingEstate| HousingEstate { light_level: level as i32, ..e };
        let ghost old_rows = self.estates@;
        let mut updated = false;
        let mut i: usize = 0;
        while i < self.estates.len()
            invariant
                i <= self.estates@.len(),
                self.estates@.len() == old_rows.len(),
                f == (|e: HousingEstate| HousingEstate { light_level: level as i32, ..e }),
                forall|k: int| 0 <= k < i ==> self.estates@[k] == (if old_rows[k].land_ident == land_ident { f(old_rows[k]) } else { old_rows[k] }),
                forall|k: int| i <= k < old_rows.len() ==> self.estates@[k] == old_rows[k],
                updated == exists|k: int| 0 <= k < i && old_rows[k].land_ident == land_ident,
                old_rows == old(self).estates@,
                self.furniture@ == old(self).furniture@,
            decreases old_rows.len() - i,
        {
            if self.estates[i].land_ident == land_ident {
                let mut e = self.estates[i].clone();
                e.light_level = level as i32;
                self.estates.set(i, e);
                updated = true;
            }
            i = i + 1;
        }
        assert(self.estates@ =~= spec_update_estates(old_rows, land_ident, f));
        proof { lemma_same_keys_unique(old(self).estates@, self.estates@); }
        updated
    }

    /// Sets the estate name of the estates with `land_ident`; false when
    /// there is none.
    pub fn update_housing_name(&mut self, land_ident: i64, name: &str) -> (updated: bool)
        requires
            old(self).wf(),
        ensures
            final(self).wf(),
            updated == spec_has_land(old(self).estates_view(), land_ident),
            final(self).estates_view().len() == old(self).estates_view().len(),
            forall|k: int| 0 <= k < old(self).estates_view().len() ==> if old(self).estates_view()[k].land_ident == land_ident {
                &&& (#[trigger] final(self).estates_view()[k]).estate_name@ == name@
                &&& final(self).estates_view()[k].greeting == old(self).estates_view()[k].greeting
                &&& spec_same_but_texts(final(self).estates_view()[k], old(self).estates_view()[k])
            } else {
                final(self).estates_view()[k] == old(self).estates_view()[k]
            },
            final(self).furniture_view() == old(self).furniture_view(),
    {
        let ghost old_rows = self.estates@;
        let mut updated = false;
        let mut i: usize = 0;
        while i < self.estates.len()
            invariant
                i <= self.estates@.len(),
                self.estates@.len() == old_rows.len(),
                forall|k: int| 0 <= k < i ==> if old_rows[k].land_ident == land_ident {
                    &&& (#[trigger] self.estates@[k]).estate_name@ == name@
                    &&& self.estates@[k].greeting == old_rows[k].greeting
                    &&& spec_same_but_texts(self.estates@[k], old_rows[k])
                } else {
                    self.estates@[k] == old_rows[k]
                },
                forall|k: int| i <= k < old_rows.len() ==> self.estates@[k] == old_rows[k],
                updated == exists|k: int| 0 <= k < i && old_rows[k].land_ident == land_ident,
                old_rows == old(self).estates@,
                self.furniture@ == old(self).furniture@,
            decreases old_rows.len() - i,
        {
            if self.estates[i].land_ident == land_ident {
                let mut e = self.estates[i].clone();
                e.estate_name = String::from_str(name);
                self.estates.set(i, e);
                updated = true;
            }
            i = i + 1;
        }
        proof { lemma_same_keys_unique(old(self).estates@, self.estates@); }
        updated
    }

    /// Sets the greeting of the estates with `land_ident`; false when
    /// there is none.
    pub fn update_housing_greeting(&mut self, land_ident: i64, greeting: &str) -> (updated: bool)
        requires
            old(self).wf(),
        ensures
            final(self).wf(),
            updated == spec_has_land(old(self).estates_view(), land_ident),
            final(self).estates_view().len() == old(self).estates_view().len(),
            forall|k: int| 0 <= k < old(self).estates_view().len() ==> if old(self).estates_view()[k].land_ident == land_ident {
                &&& (#[trigger] final(self).estates_view()[k]).greeting@ == greeting@
                &&& final(self).estates_view()[k].estate_name == old(self).estates_view()[k].estate_name
                &&& spec_same_but_texts(final(self).estates_view()[k], old(self).estates_view()[k])
            } else {
                final(self).estates_view()[k] == old(self).estates_view()[k]
            },
            final(self).furniture_view() == old(self).furniture_view(),
    {
        let ghost old_rows = self.estates@;
        let mut updated = false;
        let mut i: usize = 0;
        while i < self.estates.len()
            invariant
                i <= self.estates@.len(),
                self.estates@.len() == old_rows.len(),
                forall|k: int| 0 <= k < i ==> if old_rows[k].land_ident == land_ident {
                    &&& (#[trigger] self.estates@[k]).greeting@ == greeting@
                    &&& self.estates@[k].estate_name == old_rows[k].estate_name
                    &&& spec_same_but_texts(self.estates@[k], old_rows[k])
                } else {
                    self.estates@[k] == old_rows[k]
                },
                forall|k: int| i <= k < old_rows.len() ==> self.estates@[k] == old_rows[k],
                updated == exists|k: int| 0 <= k < i && old_rows[k].land_ident == land_ident,
                old_rows == old(self).estates@,
                self.furniture@ == old(self).furniture@,
            decreases old_rows.len() - i,
        {
            if self.estates[i].land_ident == land_ident {
                let mut e = self.estates[i].clone();
                e.greeting = String::from_str(greeting);
                self.estates.set(i, e);
                updated = true;
            }
            i = i + 1;
        }
        proof { lemma_same_keys_unique(old(self).estates@, self.estates@); }
        updated
    }

    /// Stores the interior record of the estates with `land_ident`; false
    /// when there is none.
    pub fn update_housing_interior_json(&mut self, land_ident: i64, interior: HousingJson<HouseInteriorJson>) -> (updated: bool)
        requires
            old(self).wf(),
        ensures
            final(self).wf(),
            updated == spec_has_land(old(self).estates_view(), land_ident),
            final(self).estates_view() == spec_update_estates(old(self).estates_view(), land_ident, |e: HousingEstate| HousingEstate { interior_json: interior, ..e }),
            final(self).furniture_view() == old(self).furniture_view(),
    {
        let ghost f = |e: HousingEstate| HousingEstate { interior_json: interior, ..e };
        let ghost old_rows = self.estates@;
        let mut updated = false;
        let mut i: usize = 0;
        while i < self.estates.len()
            invariant
                i <= self.estates@.len(),
                self.estates@.len() == old_rows.len(),
                f == (|e: HousingEstate| HousingEstate { interior_json: interior, ..e }),
                forall|k: int| 0 <= k < i ==> self.estates@[k] == (if old_rows[k].land_ident == land_ident { f(old_rows[k]) } else { old_rows[k] }),
                forall|k: int| i <= k < old_rows.len() ==> self.estates@[k] == old_rows[k],
                updated == exists|k: int| 0 <= k < i && old_rows[k].land_ident == land_ident,
                old_rows == old(self).estates@,
                self.furniture@ == old(self).furniture@,
            decreases old_rows.len() - i,
        {
            if self.estates[i].land_ident == land_ident {
                let mut e = self.estates[i].clone();
                e.interior_json = interior.clone();
                self.estates.set(i, e);
                updated = true;
            }
            i = i + 1;
        }
        assert(self.estates@ =~= spec_update_estates(old_rows, land_ident, f));
        proof { lemma_same_keys_unique(old(self).estates@, self.estates@); }
        updated
    }

    /// Stores the exterior record of the estates with `land_ident`; false
    /// when there is none.
    pub fn update_housing_exterior_json(&mut self, land_ident: i64, exterior: HousingJson<HouseExteriorJson>) -> (updated: bool)
        requires
            old(self).wf(),
        ensures
            final(self).wf(),
            updated == spec_has_land(old(self).estates_view(), land_ident),
            final(self).estates_view() == spec_update_estates(old(self).estates_view(), land_ident, |e: HousingEstate| HousingEstate { exterior_json: exterior, ..e }),
            final(self).furniture_view() == old(self).furniture_view(),
    {
        let ghost f = |e: HousingEstate| HousingEstate { exterior_json: exterior, ..e };
        let ghost old_rows = self.estates@;
        let mut updated = false;
        let mut i: usize = 0;
        while i < self.estates.len()
            invariant
                i <= self.estates@.len(),
                self.estates@.len() == old_rows.len(),
                f == (|e: HousingEstate| HousingEstate { exterior_json: exterior, ..e }),
                forall|k: int| 0 <= k < i ==> self.estates@[k] == (if old_rows[k].land_ident == land_ident { f(old_rows[k]) } else { old_rows[k] }),
                forall|k: int| i <= k < old_rows.len() ==> self.estates@[k] == old_rows[k],
                updated == exists|k: int| 0 <= k < i && old_rows[k].land_ident == land_ident,
                old_rows == old(self).estates@,
                self.furniture@ == old(self).furniture@,
            decreases old_rows.len() - i,
        {
            if self.estates[i].land_ident == land_ident {
                let mut e = self.estates[i].clone();
                e.exterior_json = exterior.clone();
                self.estates.set(i, e);
                updated = true;
            }
            i = i + 1;
        }
        assert(self.estates@ =~= spec_update_estates(old_rows, land_ident, f));
        proof { lemma_same_keys_unique(old(self).estates@, self.estates@); }
        updated
    }

    /// The furniture rows of an estate, in the order stored.
    pub fn list_all_housing_furniture(&self, land_ident: i64) -> (rows: Vec<HousingFurniture>)
        ensures
            rows@ == spec_furniture_of(self.furniture_view(), land_ident),
    {
        let ghost p = |f: HousingFurniture| f.land_ident == land_ident;
        let mut out: Vec<HousingFurniture> = Vec::new();
        let mut i: usize = 0;
        while i < self.furniture.len()
            invariant
                i <= self.furniture@.len(),
                p == (|f: HousingFurniture| f.land_ident == land_ident),
                out@ == keep(self.furniture@.take(i as int), p),
            decreases self.furniture@.len() - i,
        {
            proof { lemma_keep_take(self.furniture@, p, i as int); }
            if self.furniture[i].land_ident == land_ident {
                out.push(self.furniture[i]);
            }
            i = i + 1;
        }
        assert(self.furniture@.take(i as int) =~= self.furniture@);
        out
    }

    /// The furniture rows of an estate that are placed (or, for `false`,
    /// stored), in the order stored.
    pub fn list_housing_furniture(&self, land_ident: i64, placed: bool) -> (rows: Vec<HousingFurniture>)
        ensures
            rows@ == keep(self.furniture_view(), |f: HousingFurniture| f.land_ident == land_ident && f.placed == placed),
    {
        let ghost p = |f: HousingFurniture| f.land_ident == land_ident && f.placed == placed;
        let mut out: Vec<HousingFurniture> = Vec::new();
        let mut i: usize = 0;
        while i < self.furniture.len()
            invariant
                i <= self.furniture@.len(),
                p == (|f: HousingFurniture| f.land_ident == land_ident && f.placed == placed),
                out@ == keep(self.furniture@.take(i as int), p),
            decreases self.furniture@.len() - i,
        {
            proof { lemma_keep_take(self.furniture@, p, i as int); }
            if self.furniture[i].land_ident == land_ident && self.furniture[i].placed == placed {
                out.push(self.furniture[i]);
            }
            i = i + 1;
        }
        assert(self.furniture@.take(i as int) =~= self.furniture@);
        out
    }

    /// Stores a furniture row: it replaces the first row of the same
    /// estate, container and slot, or is appended.
    pub fn upsert_housing_furniture(&mut self, row: HousingFurniture)
        ensures
            final(self).estates_view() == old(self).estates_view(),
            final(self).furniture_view() == spec_upserted_rows(old(self).furniture_view(), row),
    {
        let ghost same = |f: HousingFurniture| f.land_ident == row.land_ident && f.container_type == row.container_type && f.slot == row.slot;
        let mut i: usize = 0;
        while i < self.furniture.len()
            invariant
                i <= self.furniture@.len(),
                same == (|f: HousingFurniture| f.land_ident == row.land_ident && f.container_type == row.container_type && f.slot == row.slot),
                forall|k: int| 0 <= k < i ==> !same(self.furniture@[k]),
                self.furniture@ == old(self).furniture@,
                self.estates@ == old(self).estates@,
            decreases self.furniture@.len() - i,
        {
            let f = &self.furniture[i];
            if f.land_ident == row.land_ident && f.container_type == row.container_type && f.slot == row.slot {
                proof { crate::seq_util::lemma_first_index_at(self.furniture@, same, i as int); }
                self.furniture.set(i, row);
                return;
            }
            i = i + 1;
        }
        proof { crate::seq_util::lemma_first_index_none(self.furniture@, same); }
        self.furniture.push(row);
    }

    /// Moves the furniture rows at a slot of an estate to a new position
    /// and rotation; false when there is none.
    pub fn update_housing_furniture_position(
        &mut self,
        land_ident: i64,
        container: ContainerType,
        slot: u16,
        position: Position,
        rotation_bits: u32,
    ) -> (updated: bool)
        ensures
            final(self).estates_view() == old(self).estates_view(),
            updated == spec_has_furniture_at(old(self).furniture_view(), land_ident, container, slot),
            final(self).furniture_view() == spec_reposition_rows(old(self).furniture_view(), land_ident, container, slot, position, rotation_bits),
            final(self).furniture_view().len() == old(self).furniture_view().len(),
            forall|k: int| 0 <= k < old(self).furniture_view().len() ==> #[trigger] final(self).furniture_view()[k] == if spec_furniture_at(old(self).furniture_view()[k], land_ident, container, slot) {
                HousingFurniture {
                    pos_x_bits: position.x_bits,
                    pos_y_bits: position.y_bits,
                    pos_z_bits: position.z_bits,
                    rotation_bits,
                    ..old(self).furniture_view()[k]
                }
            } else {
                old(self).furniture_view()[k]
            },
    {
        let raw = container_type_id(container) as i32;
        let ghost old_rows = self.furniture@;
        let mut updated = false;
        let mut i: usize = 0;
        while i < self.furniture.len()
            invariant
                i <= self.furniture@.len(),
                raw == spec_container_type_id(container) as i32,
                self.furniture@.len() == old_rows.len(),
                old_rows == old(self).furniture@,
                self.estates@ == old(self).estates@,
                updated == exists|k: int| 0 <= k < i && spec_furniture_at(old_rows[k], land_ident, container, slot),
                forall|k: int| i <= k < old_rows.len() ==> self.furniture@[k] == old_rows[k],
                forall|k: int| 0 <= k < i ==> #[trigger] self.furniture@[k] == if spec_furniture_at(old_rows[k], land_ident, container, slot) {
                    HousingFurniture {
                        pos_x_bits: position.x_bits,
                        pos_y_bits: position.y_bits,
                        pos_z_bits: position.z_bits,
                        rotation_bits,
                        ..old_rows[k]
                    }
                } else {
                    old_rows[k]
                },
            decreases old_rows.len() - i,
        {
            let f = self.furniture[i];
            if f.land_ident == land_ident && f.container_type == raw && f.slot == slot as i32 {
                self.furniture.set(i, HousingFurniture {
                    pos_x_bits: position.x_bits,
                    pos_y_bits: position.y_bits,
                    pos_z_bits: position.z_bits,
                    rotation_bits,
                    ..f
                });
                updated = true;
            }
            i = i + 1;
        }
        assert(self.furniture@ =~= spec_reposition_rows(old_rows, land_ident, container, slot, position, rotation_bits));
        updated
    }

    /// Moves the furniture rows at a slot of an estate: into another
    /// container slot (placed or not), or out of the estate (removed) when
    /// no destination is given; false when there is no such row.
    pub fn move_housing_furniture_to_container(
        &mut self,
        land_ident: i64,
        container: ContainerType,
        slot: u16,
        dst_container: Option<ContainerType>,
        dst_slot: Option<u16>,
        placed: bool,
    ) -> (moved: bool)
        ensures
            final(self).estates_view() == old(self).estates_view(),
            moved == spec_has_furniture_at(old(self).furniture_view(), land_ident, container, slot),
            final(self).furniture_view() == spec_moved_rows(old(self).furniture_view(), land_ident, container, slot, dst_container, dst_slot, placed),
    {
        let raw = container_type_id(container) as i32;
        let ghost old_rows = self.furniture@;
        let ghost stays = |f: HousingFurniture| !spec_furniture_at(f, land_ident, container, slot);
        let mut moved = false;
        match (dst_container, dst_slot) {
            (Some(dc), Some(ds)) => {
                let dst_raw = container_type_id(dc) as i32;
                let mut i: usize = 0;
                while i < self.furniture.len()
                    invariant
                        i <= self.furniture@.len(),
                        raw == spec_container_type_id(container) as i32,
                        dst_raw == spec_container_type_id(dc) as i32,
                        self.furniture@.len() == old_rows.len(),
                        old_rows == old(self).furniture@,
                        self.estates@ == old(self).estates@,
                        moved == exists|k: int| 0 <= k < i && spec_furniture_at(old_rows[k], land_ident, container, slot),
                        forall|k: int| i <= k < old_rows.len() ==> self.furniture@[k] == old_rows[k],
                        forall|k: int| 0 <= k < i ==> #[trigger] self.furniture@[k] == if spec_furniture_at(old_rows[k], land_ident, container, slot) {
                            HousingFurniture { container_type: spec_container_type_id(dc) as i32, slot: ds as i32, placed, ..old_rows[k] }
                        } else {
                            old_rows[k]
                        },
                    decreases old_rows.len() - i,
                {
                    let f = self.furniture[i];
                    if f.land_ident == land_ident && f.container_type == raw && f.slot == slot as i32 {
                        self.furniture.set(i, HousingFurniture { container_type: dst_raw, slot: ds as i32, placed, ..f });
                        moved = true;
                    }
                    i = i + 1;
                }
                assert(self.furniture@ =~= Seq::new(old_rows.len(), |k: int|
                    if spec_furniture_at(old_rows[k], land_ident, container, slot) {
                        HousingFurniture { container_type: spec_container_type_id(dc) as i32, slot: ds as i32, placed, ..old_rows[k] }
                    } else {
                        old_rows[k]
                    }));
            },
            _ => {
                let mut kept: Vec<HousingFurniture> = Vec::new();
                let mut i: usize = 0;
                while i < self.furniture.len()
                    invariant
                        i <= self.furniture@.len(),
                        raw == spec_container_type_id(container) as i32,
                        old_rows == old(self).furniture@,
                        self.furniture@ == old_rows,
                        self.estates@ == old(self).estates@,
                        stays == (|f: HousingFurniture| !spec_furniture_at(f, land_ident, container, slot)),
                        kept@ == keep(old_rows.take(i as int), stays),
                        moved == exists|k: int| 0 <= k < i && spec_furniture_at(old_rows[k], land_ident, container, slot),
                    decreases old_rows.len() - i,
                {
                    proof { lemma_keep_take(old_rows, stays, i as int); }
                    let f = self.furniture[i];
                    if f.land_ident == land_ident && f.container_type == raw && f.slot == slot as i32 {
                        moved = true;
                    } else {
                        kept.push(f);
                    }
                    i = i + 1;
                }
                assert(old_rows.take(i as int) =~= old_rows);
                self.furniture = kept;
            },
        }
        assert(old_rows == old(self).furniture_view());
        moved
    }

    /// Deletes the furniture rows of an estate and returns how many there
    /// were.
    pub fn delete_housing_furniture_for_estate(&mut self, land_ident: i64) -> (deleted: usize)
        ensures
            final(self).estates_view() == old(self).estates_view(),
            final(self).furniture_view() == keep(old(self).furniture_view(), |f: HousingFurniture| f.land_ident != land_ident),
            deleted == old(self).furniture_view().len() - final(self).furniture_view().len(),
            deleted == spec_furniture_of(old(self).furniture_view(), land_ident).len(),
    {
        let ghost stays = |f: HousingFurniture| f.land_ident != land_ident;
        let ghost goes = |f: HousingFurniture| f.land_ident == land_ident;
        let ghost old_rows = self.furniture@;
        let mut kept: Vec<HousingFurniture> = Vec::new();
        let mut deleted: usize = 0;
        let mut i: usize = 0;
        while i < self.furniture.len()
            invariant
                i <= self.furniture@.len(),
                self.furniture@ == old_rows,
                old_rows == old(self).furniture@,
                self.estates@ == old(self).estates@,
                stays == (|f: HousingFurniture| f.land_ident != land_ident),
                goes == (|f: HousingFurniture| f.land_ident == land_ident),
                kept@ == keep(old_rows.take(i as int), stays),
                deleted == keep(old_rows.take(i as int), goes).len(),
                kept@.len() + deleted == i,
            decreases old_rows.len() - i,
        {
            proof {
                lemma_keep_take(old_rows, stays, i as int);
                lemma_keep_take(old_rows, goes, i as int);
            }
            let f = self.furniture[i];
            if f.land_ident == land_ident {
                deleted = deleted + 1;
            } else {
                kept.push(f);
            }
            i = i + 1;
        }
        assert(old_rows.take(i as int) =~= old_rows);
        self.furniture = kept;
        deleted
    }

    /// Replaces the placed furniture of an estate in the areas asked for:
    /// its placed rows there are deleted, then `rows` are appended in order.
    /// Returns how many rows were deleted.
    pub fn replace_housing_placed_furniture_for_estate(
        &mut self,
        land_ident: i64,
        include_interior: bool,
        include_exterior: bool,
        rows: &Vec<HousingFurniture>,
    ) -> (deleted: usize)
        ensures
            final(self).estates_view() == old(self).estates_view(),
            final(self).furniture_view() == keep(
                old(self).furniture_view(),
                |f: HousingFurniture| !spec_replaced_row(f, land_ident, include_interior, include_exterior),
            ) + rows@,
            deleted == keep(
                old(self).furniture_view(),
                |f: HousingFurniture| spec_replaced_row(f, land_ident, include_interior, include_exterior),
            ).len(),
    {
        let ghost stays = |f: HousingFurniture| !spec_replaced_row(f, land_ident, include_interior, include_exterior);
        let ghost goes = |f: HousingFurniture| spec_replaced_row(f, land_ident, include_interior, include_exterior);
        let ghost old_rows = self.furniture@;
        let mut kept: Vec<HousingFurniture> = Vec::new();
        let mut deleted: usize = 0;
        let mut i: usize = 0;
        while i < self.furniture.len()
            invariant
                i <= self.furniture@.len(),
                self.furniture@ == old_rows,
                old_rows == old(self).furniture@,
                self.estates@ == old(self).estates@,
                stays == (|f: HousingFurniture| !spec_replaced_row(f, land_ident, include_interior, include_exterior)),
                goes == (|f: HousingFurniture| spec_replaced_row(f, land_ident, include_interior, include_exterior)),
                kept@ == keep(old_rows.take(i as int), stays),
                deleted == keep(old_rows.take(i as int), goes).len(),
                kept@.len() + deleted == i,
            decreases old_rows.len() - i,
        {
            proof {
                lemma_keep_take(old_rows, stays, i as int);
                lemma_keep_take(old_rows, goes, i as int);
            }
            let f = self.furniture[i];
            let replaced = f.land_ident == land_ident && ((include_interior && is_interior_placed_furniture_row(&f))
                || (include_exterior && is_exterior_placed_furniture_row(&f)));
            if replaced {
                deleted = deleted + 1;
            } else {
                kept.push(f);
            }
            i = i + 1;
        }
        assert(old_rows.take(i as int) =~= old_rows);
        let ghost base = kept@;
        let mut j: usize = 0;
        while j < rows.len()
            invariant
                j <= rows@.len(),
                kept@ == base + rows@.take(j as int),
            decreases rows@.len() - j,
        {
            kept.push(rows[j]);
            j = j + 1;
            assert(kept@ =~= base + rows@.take(j as int));
        }
        assert(rows@.take(j as int) =~= rows@);
        self.furniture = kept;
        deleted
    }

    /// Deletes the estates with `land_ident` and their furniture; false
    /// (and no change) when there is no such estate.
    pub fn delete_housing_estate_and_furniture(&mut self, land_ident: i64) -> (deleted: bool)
        requires
            old(self).wf(),
        ensures
            final(self).wf(),
            deleted == spec_has_land(old(self).estates_view(), land_ident),
            deleted ==> final(self).estates_view() == keep(old(self).estates_view(), |e: HousingEstate| e.land_ident != land_ident),
            deleted ==> final(self).furniture_view() == keep(old(self).furniture_view(), |f: HousingFurniture| f.land_ident != land_ident),
            !deleted ==> final(self).estates_view() == old(self).estates_view() && final(self).furniture_view() == old(self).furniture_view(),
    {
        let ghost stays = |e: HousingEstate| e.land_ident != land_ident;
        let ghost old_rows = self.estates@;
        let mut kept: Vec<HousingEstate> = Vec::new();
        let mut found = false;
        let mut i: usize = 0;
        while i < self.estates.len()
            invariant
                i <= self.estates@.len(),
                self.estates@ == old_rows,
                old_rows == old(self).estates@,
                self.furniture@ == old(self).furniture@,
                stays == (|e: HousingEstate| e.land_ident != land_ident),
                kept@ == keep(old_rows.take(i as int), stays),
                found == exists|k: int| 0 <= k < i && old_rows[k].land_ident == land_ident,
            decreases old_rows.len() - i,
        {
            proof { lemma_keep_take(old_rows, stays, i as int); }
            if self.estates[i].land_ident == land_ident {
                found = true;
            } else {
                kept.push(self.estates[i].clone());
            }
            i = i + 1;
        }
        assert(old_rows.take(i as int) =~= old_rows);
        if !found {
            return false;
        }
        proof { lemma_keep_unique(old_rows, stays); }
        self.estates = kept;
        self.delete_housing_furniture_for_estate(land_ident);
        true
    }
}

} // verus!
