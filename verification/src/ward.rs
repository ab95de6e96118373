//! What a connection shows of wards and plots: owned estates, the
//! apartment list, ward summaries, placards and greetings. Showing
//! something only changes the displayed ward; only the owner's own
//! placard selects an estate.
use vstd::prelude::*;

use crate::common::{HouseId, Position, TerritoryIntendedUse};
use crate::context::{
    housing_indoor_entry_transform, placard_authoritative_estate, spec_active_housing_estate,
    spec_housing_indoor_entry_transform, spec_selected_or_owned, spec_placard_authoritative_estate,
    spec_ward_context_from_estate,
};
use crate::database::{
    DEFAULT_LOCAL_HOUSING_DIVISION, DEFAULT_LOCAL_HOUSING_TERRITORY_TYPE_ID, HousingEstate,
    spec_at_location, spec_default_house_key, spec_has_land, spec_holds_key, spec_is_new_default_estate,
    spec_owned_estates,
    spec_update_estates,
};
use crate::entry::{
    DEFAULT_LOCAL_APARTMENT_INDOOR_TERRITORY_TYPE_ID, HousingZoneChange,
    selected_or_default_local_estate,
};
use crate::ipc::{
    APARTMENT_LIST_ENTRY_COUNT, ApartmentList, ApartmentListEntry, HousingEstateGreeting,
    HousingOccupiedLandInfo, HousingVacantLandInfo, HousingWardInfo, OwnedHousing,
};
use crate::seq_util::first_match;
use crate::serialization::{
    build_apartment_list_entries, build_housing_ward_info, housing_estate_greeting_from_estate,
    housing_occupied_land_info_from_estate, housing_vacant_land_info, owned_housing_land_data,
    spec_owned_land_data,
};
use crate::state::ActiveHousingWardContext;
use crate::zone_connection::{ZoneConnection, spec_by_house_id};

verus! {

/// What a plot's placard shows.
#[derive(Debug)]
pub enum HousingPlacard {
    Occupied(HousingOccupiedLandInfo, HousingEstateGreeting),
    Vacant(HousingVacantLandInfo),
}

impl ZoneConnection {
    /// The owned-estate packet: the player's estates routed to their
    /// slots (see `spec_owned_land_data`).
    pub fn send_owned_housing(&self) -> (packet: OwnedHousing)
        ensures
            ({
                let routed = spec_owned_land_data(spec_owned_estates(self.database.estates_view(), self.content_id));
                &&& packet.free_company_estate == routed.0[0]
                &&& packet.personal_estate == routed.0[1]
                &&& packet.personal_chambers == routed.0[2]
                &&& packet.shared_estate_1 == routed.0[3]
                &&& packet.shared_estate_2 == routed.0[4]
                &&& packet.apartment == routed.1
            }),
    {
        let estates = self.database.owned_housing_estates(self.content_id);
        let (owned, apartment) = owned_housing_land_data(&estates);
        OwnedHousing {
            free_company_estate: owned[0],
            personal_estate: owned[1],
            personal_chambers: owned[2],
            shared_estate_1: owned[3],
            shared_estate_2: owned[4],
            apartment,
        }
    }

    /// A page of the apartment list of the apartment ward: the rooms from
    /// `starting_index` (see `build_apartment_list_entries`), padded with
    /// empty entries to fifteen; the flags mark a list (0x80) and the
    /// subdivision (bit 0).
    pub fn send_apartment_list(&self, starting_index: u32) -> (list: ApartmentList)
        requires
            self.wf(),
        ensures
            ({
                let c = self.spec_apartment_ward_context();
                &&& list.content_id == self.content_id
                &&& list.flags == 0x80u16 + if c.division != 0 { 1u16 } else { 0u16 }
                &&& list.ward_id == c.ward_index as u16
                &&& list.zone_id == c.territory_type_id
                &&& list.world_id == self.world_id
                &&& list.list_index == starting_index
                &&& list.apartments@.len() == APARTMENT_LIST_ENTRY_COUNT
            }),
    {
        let context = self.apartment_ward_context_or_default();
        let rows = self.database.housing_apartments_by_ward(context.territory_type_id, self.world_id, context.ward_index, context.division);
        let mut apartments = build_apartment_list_entries(&rows, starting_index);
        while apartments.len() < APARTMENT_LIST_ENTRY_COUNT
            invariant
                apartments@.len() <= APARTMENT_LIST_ENTRY_COUNT,
            decreases APARTMENT_LIST_ENTRY_COUNT - apartments@.len(),
        {
            apartments.push(ApartmentListEntry {
                resident_zone_id: 0,
                visitors_permitted: false,
                resident_name: String::new(),
                apartment_description: String::new(),
            });
        }
        let flags: u16 = if context.division != 0 { 0x81 } else { 0x80 };
        ApartmentList {
            content_id: self.content_id,
            flags,
            ward_id: context.ward_index as u16,
            zone_id: context.territory_type_id,
            world_id: self.world_id,
            list_index: starting_index,
            apartments,
        }
    }

    /// Browsing a ward: the ward (main division) becomes the displayed
    /// ward and nothing else changes; the summary lists the ward's houses.
    pub fn send_housing_ward_info(&mut self, zone_id: u16, ward_index: u8) -> (info: HousingWardInfo)
        ensures
            *final(self) == (ZoneConnection {
                display_housing_ward_context: Some(ActiveHousingWardContext {
                    territory_type_id: zone_id,
                    ward_index,
                    division: DEFAULT_LOCAL_HOUSING_DIVISION,
                }),
                ..*old(self)
            }),
            info.house_summaries@.len() == 60,
            info.id.territory_type_id == zone_id && info.id.world_id == old(self).world_id && info.id.ward_index == ward_index,
    {
        let (main, subdivision) = self.database.housing_estates_by_ward_and_divisions(zone_id, self.world_id, ward_index);
        self.display_housing_ward_context = Some(ActiveHousingWardContext {
            territory_type_id: zone_id,
            ward_index,
            division: DEFAULT_LOCAL_HOUSING_DIVISION,
        });
        build_housing_ward_info(zone_id, self.world_id, ward_index, &main, &subdivision)
    }

    /// Showing a plot's placard: the plot's ward becomes the displayed
    /// ward; when the plot holds the player's own house, its ward becomes
    /// trusted and displayed and the house (outdoors) active. Any other
    /// placard leaves the trusted ward and the active estate as they were.
    pub fn send_housing_placard_info(&mut self, zone_id: u16, ward_index: u8, division: u8, plot_index: u8) -> (placard: HousingPlacard)
        requires
            old(self).wf(),
        ensures
            final(self).wf(),
            ({
                let row = first_match(old(self).database.estates_view(), |e: HousingEstate| spec_at_location(e, zone_id, old(self).world_id, ward_index, division, plot_index));
                let shown = ZoneConnection {
                    display_housing_ward_context: Some(ActiveHousingWardContext { territory_type_id: zone_id, ward_index, division }),
                    ..*old(self)
                };
                match row {
                    None => placard is Vacant && *final(self) == shown,
                    Some(e) => placard is Occupied && match spec_placard_authoritative_estate(e, old(self).content_id) {
                        Some(a) => *final(self) == (ZoneConnection {
                            active_housing_ward_context: Some(spec_ward_context_from_estate(e)),
                            display_housing_ward_context: Some(spec_ward_context_from_estate(e)),
                            active_housing_estate: Some(a),
                            ..*old(self)
                        }),
                        None => *final(self) == shown,
                    },
                }
            }),
    {
        let estate = self.database.housing_estate_by_location(zone_id, self.world_id, ward_index, division, plot_index);
        self.display_housing_ward_context = Some(ActiveHousingWardContext { territory_type_id: zone_id, ward_index, division });
        match estate {
            Some(e) => {
                match placard_authoritative_estate(&e, self.content_id) {
                    Some(a) => {
                        proof { crate::context::lemma_outdoor_house_id_well_formed(e); }
                        self.set_active_housing_ward_context_from_estate(&e);
                        self.active_housing_estate = Some(a);
                    },
                    None => {},
                }
                HousingPlacard::Occupied(housing_occupied_land_info_from_estate(&e), housing_estate_greeting_from_estate(&e))
            },
            None => HousingPlacard::Vacant(housing_vacant_land_info()),
        }
    }

    /// The greeting of an estate by house id; its ward becomes trusted and
    /// displayed. `None` (and no change) for an unknown house.
    pub fn send_housing_estate_greeting(&mut self, house_id: HouseId) -> (greeting: Option<HousingEstateGreeting>)
        requires
            house_id.well_formed(),
        ensures
            match spec_by_house_id(old(self).database.estates_view(), house_id) {
                None => greeting is None && *final(self) == *old(self),
                Some(e) => greeting matches Some(g) && g.greeting@ == e.greeting@ && *final(self) == (ZoneConnection {
                    active_housing_ward_context: Some(spec_ward_context_from_estate(e)),
                    display_housing_ward_context: Some(spec_ward_context_from_estate(e)),
                    ..*old(self)
                }),
            },
    {
        let estate = match self.database.housing_estate_by_house_id(house_id) {
            Some(e) => e,
            None => return None,
        };
        self.set_active_housing_ward_context_from_estate(&estate);
        Some(housing_estate_greeting_from_estate(&estate))
    }

    /// Stores the light level (capped at 255) of the estate an edit is
    /// authorized against; false when the authorization is refused or no row matches.
    pub fn persist_housing_light_level(&mut self, level: u32, intended_use: TerritoryIntendedUse) -> (stored: bool)
        requires
            old(self).wf(),
        ensures
            final(self).wf(),
            ({
                let (g, s1) = old(self).spec_edit_outcome(intended_use);
                match g {
                    None => !stored && *final(self) == s1,
                    Some(a) => {
                        let capped: u8 = if level > 255 { 255u8 } else { level as u8 };
                        &&& stored == spec_has_land(s1.database.estates_view(), a.land_ident)
                        &&& *final(self) == (ZoneConnection { database: final(self).database, ..s1 })
                        &&& final(self).database.furniture_view() == s1.database.furniture_view()
                        &&& final(self).database.estates_view() == spec_update_estates(
                            s1.database.estates_view(),
                            a.land_ident,
                            |e: HousingEstate| HousingEstate { light_level: capped as i32, ..e },
                        )
                    },
                }
            }),
    {
        let active = match self.active_housing_estate_for_edit(intended_use) {
            Some(a) => a,
            None => return false,
        };
        let capped: u8 = if level > 255 { 255 } else { level as u8 };
        self.database.update_housing_light_level(active.land_ident, capped)
    }

    /// Moves the player to the house entrance of the active estate
    /// (resolving an indoor estate first when there is none); `None` (and
    /// only the resolution) without one.
    pub fn move_to_housing_front_door(&mut self) -> (moved: Option<(Position, u32)>)
        requires
            old(self).wf(),
        ensures
            final(self).wf(),
            ({
                let s = old(self).spec_after_resolve_if_missing(TerritoryIntendedUse::HousingIndoor);
                let entry = spec_housing_indoor_entry_transform(false);
                if s.active_housing_estate is None {
                    moved is None && *final(self) == s
                } else {
                    moved == Some((entry.position, entry.rotation_bits))
                        && *final(self) == (ZoneConnection { position: entry.position, rotation_bits: entry.rotation_bits, ..s })
                }
            }),
    {
        if self.active_housing_estate.is_none() {
            let zone_id = self.zone_id;
            self.resolve_active_housing_estate(TerritoryIntendedUse::HousingIndoor, zone_id);
        }
        if self.active_housing_estate.is_none() {
            return None;
        }
        let entry = housing_indoor_entry_transform(false);
        self.position = entry.position;
        self.rotation_bits = entry.rotation_bits;
        Some((entry.position, entry.rotation_bits))
    }

    /// Reloads the current interior: the selected, owned or default
    /// estate (created when missing) becomes active indoors with its ward
    /// trusted and displayed; apartments reload the apartment interior at
    /// its origin, houses their interior at the entrance.
    pub fn reload_current_housing_interior(&mut self) -> (change: HousingZoneChange)
        requires
            old(self).wf(),
        ensures
            final(self).wf(),
            ({
                let e = final(self).database.estates_view();
                exists|estate: HousingEstate| {
                    let is_apartment = estate.is_apartment && estate.room_number > 0;
                    &&& #[trigger] spec_active_housing_estate(estate, true) == final(self).active_housing_estate.unwrap()
                    &&& final(self).active_housing_estate is Some
                    &&& final(self).active_housing_ward_context == Some(spec_ward_context_from_estate(estate))
                    &&& final(self).display_housing_ward_context == Some(spec_ward_context_from_estate(estate))
                    &&& change == HousingZoneChange {
                        territory_type_id: if is_apartment {
                            DEFAULT_LOCAL_APARTMENT_INDOOR_TERRITORY_TYPE_ID
                        } else {
                            old(self).spec_indoor_territory_for_estate(estate)
                        },
                        position: spec_housing_indoor_entry_transform(is_apartment).position,
                        rotation_bits: spec_housing_indoor_entry_transform(is_apartment).rotation_bits,
                    }
                    &&& match spec_selected_or_owned(old(self).database.estates_view(), old(self).active_housing_estate, old(self).content_id) {
                        Some(s) => estate == s && e == old(self).database.estates_view(),
                        None => match first_match(
                            old(self).database.estates_view(),
                            |x: HousingEstate| spec_at_location(x, DEFAULT_LOCAL_HOUSING_TERRITORY_TYPE_ID, old(self).world_id, 0, 0, 0),
                        ) {
                            Some(found) => estate == found && e == old(self).database.estates_view(),
                            None => match first_match(
                                old(self).database.estates_view(),
                                |x: HousingEstate| spec_holds_key(x, spec_default_house_key(old(self).world_id)),
                            ) {
                                Some(holder) => estate == holder && e == old(self).database.estates_view(),
                                None => e == old(self).database.estates_view().push(estate)
                                    && spec_is_new_default_estate(estate, old(self).content_id, old(self).world_id)
                                    && estate.owner_name@ == old(self).character_name@,
                            },
                        },
                    }
                }
            }),
            final(self).database.furniture_view() == old(self).database.furniture_view(),
            *final(self) == (ZoneConnection {
                database: final(self).database,
                active_housing_estate: final(self).active_housing_estate,
                active_housing_ward_context: final(self).active_housing_ward_context,
                display_housing_ward_context: final(self).display_housing_ward_context,
                ..*old(self)
            }),
    {
        let name = self.character_name.clone();
        let estate = selected_or_default_local_estate(
            &mut self.database,
            self.active_housing_estate.as_ref(),
            self.content_id,
            name.as_str(),
            self.world_id,
        );
        self.set_active_housing_estate_from_row(&estate, true);
        let is_apartment = estate.is_apartment && estate.room_number > 0;
        let entry = housing_indoor_entry_transform(is_apartment);
        let territory_type_id = if is_apartment {
            DEFAULT_LOCAL_APARTMENT_INDOOR_TERRITORY_TYPE_ID
        } else {
            self.housing_indoor_territory_type_id_for_estate(&estate)
        };
        HousingZoneChange { territory_type_id, position: entry.position, rotation_bits: entry.rotation_bits }
    }
}

/// Browsing a ward or showing a placard that is not the player's own
/// changes only the displayed ward; the outdoor write authority (the
/// owner gate and the plot gate for every land-set entry) is the same
/// before and after, whatever ward is displayed.
pub proof fn lemma_display_context_never_authorizes(connection: ZoneConnection, display: Option<ActiveHousingWardContext>, raw_plot_index: u8)
    ensures
        (ZoneConnection { display_housing_ward_context: display, ..connection }).spec_owner_gate() == connection.spec_owner_gate(),
        (ZoneConnection { display_housing_ward_context: display, ..connection }).spec_outdoor_edit_outcome(raw_plot_index).0
            == connection.spec_outdoor_edit_outcome(raw_plot_index).0,
        (ZoneConnection { display_housing_ward_context: display, ..connection }).spec_item_removal_gate() == connection.spec_item_removal_gate(),
{
}

} // verus!
