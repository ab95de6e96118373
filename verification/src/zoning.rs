//! What a connection sends when it enters a yard or an interior, worked
//! out from the connection and the tables: the ward and its houses, the
//! furniture lists and world objects, the interior details, and the
//! handshakes that follow. The connection changes as stated; sending is
//! left to the caller.
use vstd::prelude::*;

use crate::common::{HouseId, TerritoryIntendedUse};
use crate::context::{housing_indoor_entry_transform, spec_housing_indoor_entry_transform};
use crate::entry::HousingZoneChange;
use crate::context::{
    deferred_housing_furniture_list_start_index, initial_housing_furniture_list_count,
    outdoor_init_active_context, outdoor_init_authoritative_context, outdoor_init_display_context,
    spec_outdoor_house_id_from_estate, spec_outdoor_init_authoritative_context,
    spec_outdoor_init_display_context,
};
use crate::database::{HousingEstate, HousingFurniture, spec_furniture_of, spec_house_in_ward_division};
use crate::fixture_json::HousingJson;

use crate::init::{
    HousingFurnitureObject, build_outdoor_estate_furniture_lists,
    housing_furniture_object_scope_for_estate, housing_furniture_objects_from_rows,
    housing_furniture_objects_from_rows_in_ward, housing_indoor_init_needs_resolution,
    housing_interior_placed_slot_capacity_for_estate, housing_interior_ready_primary_id,
    housing_interior_ready_secondary_id, housing_object_data_value_sets_from_rows,
    is_interior_placed_furniture_row, should_finish_housing_object_data_after_initial_indoor_lists,
    should_hide_additional_chambers_door, spec_furniture_objects, spec_indoor_init_needs_resolution,
    spec_interior_placed_slot_capacity, spec_is_exterior_placed_row, spec_is_interior_placed_row,
    spec_object_data_value_sets, spec_object_scope, spec_ready_secondary_id,
    spec_should_hide_additional_chambers_door, spec_swap_halves,
};
use crate::ipc::{FurnitureList, House, HousingInteriorDetails, HousingObjectDataValueSet};
use crate::serialization::{
    build_furniture_lists, build_house_list_houses, housing_interior_details_from_json,
    spec_empty_house, spec_house_from_estate, spec_interior_details, spec_is_furniture_lists,
    spec_last_on_plot,
};
use crate::fixture_json::spec_interior_or_default;
use crate::seq_util::{keep, lemma_keep_take};
use crate::zone_connection::{ZoneConnection, spec_by_house_id};

verus! {

/// What entering a yard shows: the ward, the house list of its main
/// division, the estates of both divisions (main first) with the furniture
/// lists of each, and the placed yard objects of all of them.
#[derive(Debug)]
pub struct HousingOutdoorInit {
    pub ward_index: u8,
    pub houses: Vec<House>,
    pub estates: Vec<HousingEstate>,
    pub furniture_lists: Vec<Vec<FurnitureList>>,
    pub furniture_objects: Vec<HousingFurnitureObject>,
}

/// The placed rows of an estate.
pub open spec fn spec_placed_rows_of(rows: Seq<HousingFurniture>, land_ident: i64) -> Seq<HousingFurniture> {
    keep(rows, |f: HousingFurniture| f.land_ident == land_ident && f.placed == true)
}

/// The yard objects of estates, estate after estate, each from its placed
/// rows, keyed by the estate's ward and plot.
pub open spec fn spec_outdoor_objects(estates: Seq<HousingEstate>, rows: Seq<HousingFurniture>) -> Seq<HousingFurnitureObject>
    decreases estates.len(),
{
    if estates.len() == 0 {
        Seq::empty()
    } else {
        let e = estates.last();
        let scope = spec_object_scope(e, false);
        spec_outdoor_objects(estates.drop_last(), rows) + spec_furniture_objects(
            spec_placed_rows_of(rows, e.land_ident),
            false,
            scope.0,
            scope.1,
        )
    }
}

/// What entering an interior sends: the interior details, the estate's
/// placed interior rows and their furniture lists (the first
/// `initial_list_count` of them before loading finishes), the object data
/// and ready handshake when nothing is held back, and whether the
/// additional chambers door is hidden.
#[derive(Debug)]
pub struct HousingIndoorInit {
    pub house_id: HouseId,
    pub details: HousingInteriorDetails,
    pub furniture_rows: Vec<HousingFurniture>,
    pub lists: Vec<FurnitureList>,
    pub initial_list_count: usize,
    pub value_sets: Option<Vec<HousingObjectDataValueSet>>,
    pub ready_ids: Option<(u64, u64)>,
    pub hide_chambers_door: bool,
}

/// The furniture lists held back at an interior entry, sent after the
/// remodel gate, with the object data and the ready handshake.
#[derive(Debug)]
pub struct DeferredIndoorFurniture {
    pub house_id: HouseId,
    pub lists: Vec<FurnitureList>,
    pub start_index: usize,
    pub value_sets: Vec<HousingObjectDataValueSet>,
    pub ready_ids: (u64, u64),
}

/// The interior placed rows of an estate.
pub open spec fn spec_interior_rows_of(rows: Seq<HousingFurniture>, land_ident: i64) -> Seq<HousingFurniture> {
    keep(spec_furniture_of(rows, land_ident), |r: HousingFurniture| spec_is_interior_placed_row(r))
}

/// The light level a row stores, clamped into a byte.
pub open spec fn spec_stored_light_level(light_level: i32) -> u8 {
    if light_level < 0 { 0 } else if light_level > 0xFF { 0xFF } else { light_level as u8 }
}

impl ZoneConnection {
    /// The ward a yard entry shows (see `spec_outdoor_init_display_context`).
    pub open spec fn spec_outdoor_init_context(&self, zone_id: u16) -> crate::state::ActiveHousingWardContext {
        spec_outdoor_init_display_context(
            self.active_housing_ward_context,
            self.display_housing_ward_context,
            self.spec_default_ward_context(),
            zone_id,
        )
    }

    /// The houses of a division of the ward a yard entry shows.
    pub open spec fn spec_outdoor_division(&self, zone_id: u16, division: i32) -> Seq<HousingEstate> {
        let ward_index = self.spec_outdoor_init_context(zone_id).ward_index;
        keep(
            self.database.estates_view(),
            |e: HousingEstate| spec_house_in_ward_division(e, zone_id, self.world_id, ward_index, division),
        )
    }

    /// Enters yard zone `zone_id`: the shown ward becomes the display
    /// ward, the trusted ward stays only if it is of this zone; returns the
    /// ward's houses, estates, furniture lists and yard objects.
    pub fn send_housing_outdoor_init(&mut self, zone_id: u16) -> (init: HousingOutdoorInit)
        requires
            old(self).wf(),
        ensures
            final(self).wf(),
            *final(self) == (ZoneConnection {
                display_housing_ward_context: Some(old(self).spec_outdoor_init_context(zone_id)),
                active_housing_ward_context: spec_outdoor_init_authoritative_context(old(self).active_housing_ward_context, zone_id),
                ..*old(self)
            }),
            init.ward_index == old(self).spec_outdoor_init_context(zone_id).ward_index,
            init.estates@ == old(self).spec_outdoor_division(zone_id, 0) + old(self).spec_outdoor_division(zone_id, 1),
            init.houses@.len() == 30,
            forall|plot: int| 0 <= plot < 30 ==> #[trigger] init.houses@[plot] == match spec_last_on_plot(old(self).spec_outdoor_division(zone_id, 0), plot) {
                Some(e) => spec_house_from_estate(e),
                None => spec_empty_house(),
            },
            init.furniture_lists@.len() == init.estates@.len(),
            forall|k: int| 0 <= k < init.estates@.len() ==> spec_is_furniture_lists(
                #[trigger] init.furniture_lists@[k]@,
                spec_outdoor_house_id_from_estate(init.estates@[k]),
                keep(
                    spec_placed_rows_of(old(self).database.furniture_view(), init.estates@[k].land_ident),
                    |r: HousingFurniture| spec_is_exterior_placed_row(r),
                ),
                false,
                None,
            ),
            init.furniture_objects@ == spec_outdoor_objects(init.estates@, old(self).database.furniture_view()),
    {
        let active_context = outdoor_init_active_context(self.active_housing_ward_context, self.active_housing_estate_ward_context());
        let default_context = self.default_housing_ward_context();
        let context = outdoor_init_display_context(active_context, self.display_housing_ward_context, default_context, zone_id);
        self.display_housing_ward_context = Some(context);
        let ward_index = context.ward_index;
        self.active_housing_ward_context = outdoor_init_authoritative_context(self.active_housing_ward_context, context, zone_id);
        let (main_estates, subdivision_estates) = self.database.housing_estates_by_ward_and_divisions(zone_id, self.world_id, ward_index);
        let houses = build_house_list_houses(&main_estates);
        let mut estates: Vec<HousingEstate> = Vec::new();
        let mut k: usize = 0;
        while k < main_estates.len()
            invariant
                k <= main_estates@.len(),
                estates@ == main_estates@.take(k as int),
            decreases main_estates@.len() - k,
        {
            estates.push(main_estates[k].clone());
            assert(main_estates@.take(k as int + 1) =~= main_estates@.take(k as int).push(main_estates@[k as int]));
            k = k + 1;
        }
        assert(main_estates@.take(k as int) =~= main_estates@);
        let mut k: usize = 0;
        while k < subdivision_estates.len()
            invariant
                k <= subdivision_estates@.len(),
                estates@ == main_estates@ + subdivision_estates@.take(k as int),
            decreases subdivision_estates@.len() - k,
        {
            estates.push(subdivision_estates[k].clone());
            assert(subdivision_estates@.take(k as int + 1) =~= subdivision_estates@.take(k as int).push(subdivision_estates@[k as int]));
            k = k + 1;
        }
        assert(subdivision_estates@.take(k as int) =~= subdivision_estates@);
        let ghost furniture = self.database.furniture_view();
        let mut furniture_lists: Vec<Vec<FurnitureList>> = Vec::new();
        let mut furniture_objects: Vec<HousingFurnitureObject> = Vec::new();
        let mut i: usize = 0;
        while i < estates.len()
            invariant
                i <= estates@.len(),
                furniture == self.database.furniture_view(),
                furniture_lists@.len() == i,
                forall|k: int| 0 <= k < i ==> spec_is_furniture_lists(
                    #[trigger] furniture_lists@[k]@,
                    spec_outdoor_house_id_from_estate(estates@[k]),
                    keep(spec_placed_rows_of(furniture, estates@[k].land_ident), |r: HousingFurniture| spec_is_exterior_placed_row(r)),
                    false,
                    None,
                ),
                furniture_objects@ == spec_outdoor_objects(estates@.take(i as int), furniture),
            decreases estates@.len() - i,
        {
            let estate = &estates[i];
            let rows = self.database.list_housing_furniture(estate.land_ident, true);
            let lists = build_outdoor_estate_furniture_lists(estate, &rows);
            furniture_lists.push(lists);
            let scope = housing_furniture_object_scope_for_estate(estate, false);
            let objects = housing_furniture_objects_from_rows_in_ward(&rows, false, scope.0, scope.1);
            let mut j: usize = 0;
            let ghost before = furniture_objects@;
            while j < objects.len()
                invariant
                    j <= objects@.len(),
                    furniture_objects@ == before + objects@.take(j as int),
                decreases objects@.len() - j,
            {
                furniture_objects.push(objects[j]);
                assert(objects@.take(j as int + 1) =~= objects@.take(j as int).push(objects@[j as int]));
                j = j + 1;
            }
            assert(objects@.take(j as int) =~= objects@);
            assert(estates@.take(i as int + 1).drop_last() =~= estates@.take(i as int));
            i = i + 1;
        }
        assert(estates@.take(i as int) =~= estates@);
        HousingOutdoorInit { ward_index, houses, estates, furniture_lists, furniture_objects }
    }

    /// The connection with the active estate resolved for an interior
    /// entry when it is not already an indoor one.
    pub open spec fn spec_indoor_resolved(&self, zone_id: u16) -> ZoneConnection {
        if spec_indoor_init_needs_resolution(self.active_housing_estate) {
            ZoneConnection {
                active_housing_estate: self.spec_resolved_estate(TerritoryIntendedUse::HousingIndoor, zone_id),
                ..*self
            }
        } else {
            *self
        }
    }

    /// The outcome of entering interior zone `zone_id`. Without an
    /// active estate (after resolving): no overlay sync is pending and
    /// the empty interior is sent with one empty list. With one: the
    /// housing inventory is rebuilt from the estate's rows and fixtures,
    /// the details come from its row (minimal ones without a row), the
    /// placed interior rows make the lists under the estate's house id
    /// and slot capacity, lists beyond the first three are held back, and
    /// when none are the object data and ready handshake follow.
    pub open spec fn spec_indoor_init(&self, zone_id: u16, after: ZoneConnection, init: HousingIndoorInit) -> bool {
        let s1 = self.spec_indoor_resolved(zone_id);
        match s1.active_housing_estate {
            None => {
                &&& after == (ZoneConnection { pending_housing_indoor_furniture_object_overlay_sync: false, ..s1 })
                &&& init.house_id == HouseId::spec_zero()
                &&& init.details == spec_interior_details(crate::fixture_json::spec_empty_interior(), 0, false)
                &&& init.furniture_rows@ == Seq::<HousingFurniture>::empty()
                &&& spec_is_furniture_lists(init.lists@, HouseId::spec_zero(), Seq::empty(), true, None)
                &&& init.initial_list_count == init.lists@.len()
                &&& init.value_sets is None
                &&& init.ready_ids is None
                &&& !init.hide_chambers_door
            },
            Some(a) => {
                let estate = spec_by_house_id(s1.database.estates_view(), a.house_id);
                let rows = spec_interior_rows_of(s1.database.furniture_view(), a.land_ident);
                let capacity = match estate {
                    Some(e) => Some(spec_interior_placed_slot_capacity(e)),
                    None => None,
                };
                let tail = init.initial_list_count < init.lists@.len();
                &&& s1.spec_is_with_slots(
                    ZoneConnection {
                        pending_housing_indoor_furniture_list_tail: s1.pending_housing_indoor_furniture_list_tail,
                        pending_housing_indoor_finish_loading: s1.pending_housing_indoor_finish_loading,
                        pending_housing_indoor_furniture_object_overlay_sync: s1.pending_housing_indoor_furniture_object_overlay_sync,
                        ..after
                    },
                    s1.inventory.slots_view(),
                    s1.spec_reloaded_slots().unwrap(),
                )
                &&& after.pending_housing_indoor_furniture_list_tail == tail
                &&& !after.pending_housing_indoor_finish_loading
                &&& after.pending_housing_indoor_furniture_object_overlay_sync
                &&& init.house_id == a.house_id
                &&& init.details == match estate {
                    Some(e) => spec_interior_details(
                        spec_interior_or_default(e.interior_json),
                        spec_stored_light_level(e.light_level),
                        e.is_apartment,
                    ),
                    None => spec_interior_details(crate::fixture_json::spec_empty_interior(), 0, false),
                }
                &&& init.furniture_rows@ == rows
                &&& spec_is_furniture_lists(init.lists@, a.house_id, rows, true, capacity)
                &&& init.initial_list_count == crate::context::spec_initial_list_count(true, init.lists@.len() as usize)
                &&& init.value_sets == if tail { None } else { Some(init.value_sets.unwrap()) }
                &&& (!tail ==> init.value_sets.unwrap()@ == spec_object_data_value_sets(rows))
                &&& init.ready_ids == if tail {
                    None
                } else {
                    Some((spec_swap_halves(a.house_id.spec_to_u64()), spec_ready_secondary_id(Some(a))))
                }
                &&& init.hide_chambers_door == match estate {
                    Some(e) => spec_should_hide_additional_chambers_door(e.flags),
                    None => true,
                }
            },
        }
    }

    /// The placed interior rows of an estate, in the order stored.
    fn interior_placed_rows(&self, land_ident: i64) -> (rows: Vec<HousingFurniture>)
        ensures
            rows@ == spec_interior_rows_of(self.database.furniture_view(), land_ident),
    {
        let all_rows = self.database.list_all_housing_furniture(land_ident);
        let ghost p = |r: HousingFurniture| spec_is_interior_placed_row(r);
        let mut rows: Vec<HousingFurniture> = Vec::new();
        let mut i: usize = 0;
        while i < all_rows.len()
            invariant
                i <= all_rows@.len(),
                p == (|r: HousingFurniture| spec_is_interior_placed_row(r)),
                rows@ == keep(all_rows@.take(i as int), p),
            decreases all_rows@.len() - i,
        {
            proof { lemma_keep_take(all_rows@, p, i as int); }
            if is_interior_placed_furniture_row(&all_rows[i]) {
                rows.push(all_rows[i]);
            }
            i = i + 1;
        }
        assert(all_rows@.take(i as int) =~= all_rows@);
        rows
    }

    /// The interior details, slot capacity and door hiding of an entry
    /// into the estate `estate` (minimal details, no capacity and a hidden
    /// door without one).
    fn indoor_init_estate_facts(estate: &Option<HousingEstate>) -> (facts: (HousingInteriorDetails, Option<usize>, bool))
        ensures
            facts.0 == match *estate {
                Some(e) => spec_interior_details(
                    spec_interior_or_default(e.interior_json),
                    spec_stored_light_level(e.light_level),
                    e.is_apartment,
                ),
                None => spec_interior_details(crate::fixture_json::spec_empty_interior(), 0, false),
            },
            facts.1 == match *estate {
                Some(e) => Some(spec_interior_placed_slot_capacity(e)),
                None => None::<usize>,
            },
            facts.2 == match *estate {
                Some(e) => spec_should_hide_additional_chambers_door(e.flags),
                None => true,
            },
    {
        match estate {
            Some(e) => (
                housing_interior_details_from_json(&e.interior_json, crate::context::clamp_u8(e.light_level), e.is_apartment),
                Some(housing_interior_placed_slot_capacity_for_estate(e)),
                should_hide_additional_chambers_door(e.flags),
            ),
            None => (housing_interior_details_from_json(&HousingJson::Valid(crate::fixture_json::empty_interior()), 0, false), None, true),
        }
    }

    /// An interior entry with active estate `active` (see the second case
    /// of `spec_indoor_init`).
    fn prepare_indoor_init_for(&mut self, active: crate::state::ActiveHousingEstate) -> (init: HousingIndoorInit)
        requires
            old(self).wf(),
            old(self).active_housing_estate == Some(active),
        ensures
            final(self).wf(),
            ({
                let s1 = *old(self);
                let estate = spec_by_house_id(s1.database.estates_view(), active.house_id);
                let rows = spec_interior_rows_of(s1.database.furniture_view(), active.land_ident);
                let capacity = match estate {
                    Some(e) => Some(spec_interior_placed_slot_capacity(e)),
                    None => None,
                };
                let tail = init.initial_list_count < init.lists@.len();
                &&& s1.spec_is_with_slots(
                    ZoneConnection {
                        pending_housing_indoor_furniture_list_tail: s1.pending_housing_indoor_furniture_list_tail,
                        pending_housing_indoor_finish_loading: s1.pending_housing_indoor_finish_loading,
                        pending_housing_indoor_furniture_object_overlay_sync: s1.pending_housing_indoor_furniture_object_overlay_sync,
                        ..*final(self)
                    },
                    s1.inventory.slots_view(),
                    s1.spec_reloaded_slots().unwrap(),
                )
                &&& final(self).pending_housing_indoor_furniture_list_tail == tail
                &&& !final(self).pending_housing_indoor_finish_loading
                &&& final(self).pending_housing_indoor_furniture_object_overlay_sync
                &&& init.house_id == active.house_id
                &&& init.details == match estate {
                    Some(e) => spec_interior_details(
                        spec_interior_or_default(e.interior_json),
                        spec_stored_light_level(e.light_level),
                        e.is_apartment,
                    ),
                    None => spec_interior_details(crate::fixture_json::spec_empty_interior(), 0, false),
                }
                &&& init.furniture_rows@ == rows
                &&& spec_is_furniture_lists(init.lists@, active.house_id, rows, true, capacity)
                &&& init.initial_list_count == crate::context::spec_initial_list_count(true, init.lists@.len() as usize)
                &&& init.value_sets == if tail { None } else { Some(init.value_sets.unwrap()) }
                &&& (!tail ==> init.value_sets.unwrap()@ == spec_object_data_value_sets(rows))
                &&& init.ready_ids == if tail {
                    None
                } else {
                    Some((spec_swap_halves(active.house_id.spec_to_u64()), spec_ready_secondary_id(Some(active))))
                }
                &&& init.hide_chambers_door == match estate {
                    Some(e) => spec_should_hide_additional_chambers_door(e.flags),
                    None => true,
                }
            }),
    {
        let estate = self.database.housing_estate_by_house_id(active.house_id);
        let furniture_rows = self.interior_placed_rows(active.land_ident);
        let (details, capacity, hide_chambers_door) = Self::indoor_init_estate_facts(&estate);
        self.reload_active_housing_inventory(TerritoryIntendedUse::HousingIndoor);
        let lists = build_furniture_lists(active.house_id, &furniture_rows, true, capacity);
        let initial_list_count = initial_housing_furniture_list_count(true, lists.len());
        let tail = initial_list_count < lists.len();
        self.pending_housing_indoor_furniture_list_tail = tail;
        self.pending_housing_indoor_finish_loading = false;
        self.pending_housing_indoor_furniture_object_overlay_sync = true;
        let (value_sets, ready_ids) = if should_finish_housing_object_data_after_initial_indoor_lists(TerritoryIntendedUse::HousingIndoor, tail) {
            let sets = housing_object_data_value_sets_from_rows(&furniture_rows);
            let primary = housing_interior_ready_primary_id(active.house_id);
            let secondary = housing_interior_ready_secondary_id(Some(&active));
            (Some(sets), Some((primary, secondary)))
        } else {
            (None, None)
        };
        HousingIndoorInit {
            house_id: active.house_id,
            details,
            furniture_rows,
            lists,
            initial_list_count,
            value_sets,
            ready_ids,
            hide_chambers_door,
        }
    }

    /// Enters interior zone `zone_id` (see `spec_indoor_init`).
    pub fn send_housing_indoor_init(&mut self, zone_id: u16) -> (init: HousingIndoorInit)
        requires
            old(self).wf(),
        ensures
            final(self).wf(),
            old(self).spec_indoor_init(zone_id, *final(self), init),
    {
        if housing_indoor_init_needs_resolution(self.active_housing_estate.as_ref()) {
            self.resolve_active_housing_estate(TerritoryIntendedUse::HousingIndoor, zone_id);
        }
        match self.active_housing_estate {
            Some(active) => self.prepare_indoor_init_for(active),
            None => {
                self.pending_housing_indoor_furniture_object_overlay_sync = false;
                let details = housing_interior_details_from_json(&HousingJson::Valid(crate::fixture_json::empty_interior()), 0, false);
                let furniture_rows: Vec<HousingFurniture> = Vec::new();
                let lists = build_furniture_lists(HouseId::zero(), &furniture_rows, true, None);
                let initial_list_count = lists.len();
                HousingIndoorInit {
                    house_id: HouseId::zero(),
                    details,
                    furniture_rows,
                    lists,
                    initial_list_count,
                    value_sets: None,
                    ready_ids: None,
                    hide_chambers_door: false,
                }
            },
        }
    }

    /// The outcome of sending the held-back interior lists after the
    /// remodel gate: nothing without a held-back tail; else the tail is no
    /// longer pending, the active estate is resolved when it is not an
    /// indoor one, and with an active estate its placed interior rows make
    /// the lists, from the first held-back one, followed by the object
    /// data and the ready handshake.
    pub open spec fn spec_deferred_indoor(&self, after: ZoneConnection, deferred: Option<DeferredIndoorFurniture>) -> bool {
        if !self.pending_housing_indoor_furniture_list_tail {
            deferred is None && after == *self
        } else {
            let s1 = ZoneConnection { pending_housing_indoor_furniture_list_tail: false, ..*self }.spec_indoor_resolved(self.zone_id);
            match s1.active_housing_estate {
                None => deferred is None && after == s1,
                Some(a) => {
                    let estate = spec_by_house_id(s1.database.estates_view(), a.house_id);
                    let rows = spec_interior_rows_of(s1.database.furniture_view(), a.land_ident);
                    let capacity = match estate {
                        Some(e) => Some(spec_interior_placed_slot_capacity(e)),
                        None => None,
                    };
                    &&& after == s1
                    &&& deferred matches Some(d) && {
                        &&& d.house_id == a.house_id
                        &&& spec_is_furniture_lists(d.lists@, a.house_id, rows, true, capacity)
                        &&& d.start_index == crate::context::spec_initial_list_count(true, d.lists@.len() as usize)
                        &&& d.value_sets@ == spec_object_data_value_sets(rows)
                        &&& d.ready_ids == (spec_swap_halves(a.house_id.spec_to_u64()), spec_ready_secondary_id(Some(a)))
                    }
                },
            }
        }
    }

    /// Sends the held-back interior lists after the remodel gate (see
    /// `spec_deferred_indoor`).
    pub fn send_deferred_indoor_furniture_after_remodel(&mut self) -> (deferred: Option<DeferredIndoorFurniture>)
        requires
            old(self).wf(),
        ensures
            final(self).wf(),
            old(self).spec_deferred_indoor(*final(self), deferred),
    {
        if !self.pending_housing_indoor_furniture_list_tail {
            return None;
        }
        self.pending_housing_indoor_furniture_list_tail = false;
        if housing_indoor_init_needs_resolution(self.active_housing_estate.as_ref()) {
            let zone_id = self.zone_id;
            self.resolve_active_housing_estate(TerritoryIntendedUse::HousingIndoor, zone_id);
        }
        let active = match self.active_housing_estate {
            Some(a) => a,
            None => return None,
        };
        let estate = self.database.housing_estate_by_house_id(active.house_id);
        let rows = self.interior_placed_rows(active.land_ident);
        let capacity = match &estate {
            Some(e) => Some(housing_interior_placed_slot_capacity_for_estate(e)),
            None => None,
        };
        let lists = build_furniture_lists(active.house_id, &rows, true, capacity);
        let start_index = deferred_housing_furniture_list_start_index(true, lists.len());
        let value_sets = housing_object_data_value_sets_from_rows(&rows);
        let primary = housing_interior_ready_primary_id(active.house_id);
        let secondary = housing_interior_ready_secondary_id(Some(&active));
        Some(DeferredIndoorFurniture { house_id: active.house_id, lists, start_index, value_sets, ready_ids: (primary, secondary) })
    }

    /// The outcome of syncing the interior's world objects: the active
    /// estate is resolved when it is not an indoor one; with one, the sync
    /// is no longer pending and the objects of all its rows (ward and plot
    /// 0) are returned.
    pub open spec fn spec_indoor_overlays(&self, after: ZoneConnection, objects: Option<Vec<HousingFurnitureObject>>) -> bool {
        let s1 = self.spec_indoor_resolved(self.zone_id);
        match s1.active_housing_estate {
            None => objects is None && after == s1,
            Some(a) => {
                &&& after == (ZoneConnection { pending_housing_indoor_furniture_object_overlay_sync: false, ..s1 })
                &&& objects matches Some(o) && o@ == spec_furniture_objects(
                    spec_furniture_of(s1.database.furniture_view(), a.land_ident),
                    true,
                    0,
                    0,
                )
            },
        }
    }

    /// The interior's world objects to sync (see `spec_indoor_overlays`).
    pub fn sync_pending_housing_indoor_furniture_object_overlays(&mut self) -> (objects: Option<Vec<HousingFurnitureObject>>)
        requires
            old(self).wf(),
        ensures
            final(self).wf(),
            old(self).spec_indoor_overlays(*final(self), objects),
    {
        if housing_indoor_init_needs_resolution(self.active_housing_estate.as_ref()) {
            let zone_id = self.zone_id;
            self.resolve_active_housing_estate(TerritoryIntendedUse::HousingIndoor, zone_id);
        }
        let active = match self.active_housing_estate {
            Some(a) => a,
            None => return None,
        };
        self.pending_housing_indoor_furniture_object_overlay_sync = false;
        let rows = self.database.list_all_housing_furniture(active.land_ident);
        Some(housing_furniture_objects_from_rows(&rows, true, 0))
    }

    /// The interior's world objects to sync once loading finished, when
    /// indoors nothing is held back and a sync is pending (see
    /// `spec_indoor_overlays`); else nothing changes.
    pub fn sync_deferred_indoor_overlays_after_load(&mut self, intended_use: TerritoryIntendedUse) -> (objects: Option<Vec<HousingFurnitureObject>>)
        requires
            old(self).wf(),
        ensures
            final(self).wf(),
            if intended_use == TerritoryIntendedUse::HousingIndoor && !old(self).pending_housing_indoor_furniture_list_tail
                && old(self).pending_housing_indoor_furniture_object_overlay_sync {
                old(self).spec_indoor_overlays(*final(self), objects)
            } else {
                objects is None && *final(self) == *old(self)
            },
    {
        if !crate::init::should_sync_indoor_overlays_after_loading(
            intended_use,
            self.pending_housing_indoor_furniture_list_tail,
            self.pending_housing_indoor_furniture_object_overlay_sync,
        ) {
            return None;
        }
        self.sync_pending_housing_indoor_furniture_object_overlays()
    }

    /// The interior's world objects to sync after the remodel gate sent
    /// the tail, when indoors a sync is pending (see
    /// `spec_indoor_overlays`); else nothing changes.
    pub fn sync_deferred_indoor_overlays_after_remodel(&mut self, intended_use: TerritoryIntendedUse, tail_sent: bool) -> (objects: Option<Vec<HousingFurnitureObject>>)
        requires
            old(self).wf(),
        ensures
            final(self).wf(),
            if intended_use == TerritoryIntendedUse::HousingIndoor && tail_sent
                && old(self).pending_housing_indoor_furniture_object_overlay_sync {
                old(self).spec_indoor_overlays(*final(self), objects)
            } else {
                objects is None && *final(self) == *old(self)
            },
    {
        if !crate::init::should_sync_indoor_overlays_after_remodel(
            intended_use,
            tail_sent,
            self.pending_housing_indoor_furniture_object_overlay_sync,
        ) {
            return None;
        }
        self.sync_pending_housing_indoor_furniture_object_overlays()
    }

    /// Overlays never wait for the end of zoning: nothing to sync and
    /// nothing changes.
    pub fn sync_housing_furniture_object_overlays_after_zone_in(&mut self, intended_use: TerritoryIntendedUse) -> (objects: Option<Vec<HousingFurnitureObject>>)
        requires
            old(self).wf(),
        ensures
            final(self).wf(),
            objects is None,
            *final(self) == *old(self),
    {
        if !crate::init::should_sync_indoor_overlays_on_finish_zoning(
            intended_use,
            self.pending_housing_indoor_furniture_object_overlay_sync,
        ) {
            return None;
        }
        self.sync_pending_housing_indoor_furniture_object_overlays()
    }

    /// The zone change that reloads an interior pattern's territory: to
    /// the house entrance of `territory_type_id`.
    pub fn reload_housing_interior_pattern_territory(&self, territory_type_id: u16) -> (change: HousingZoneChange)
        ensures
            change == (HousingZoneChange {
                territory_type_id,
                position: spec_housing_indoor_entry_transform(false).position,
                rotation_bits: spec_housing_indoor_entry_transform(false).rotation_bits,
            }),
    {
        let entry = housing_indoor_entry_transform(false);
        HousingZoneChange { territory_type_id, position: entry.position, rotation_bits: entry.rotation_bits }
    }
}

} // verus!
