//! Entering and leaving estates: which estate a player enters, where
//! they appear, and where a login inside a house is moved to.
use vstd::prelude::*;

use crate::common::{Position, TerritoryIntendedUse};
use crate::context::{
    active_housing_estate, clamp_u16, outdoor_housing_location_from_estate, selected_or_owned_housing_estate,
    housing_indoor_entry_transform, spec_active_housing_estate, spec_clamp_u16, spec_housing_indoor_entry_transform,
    spec_outdoor_location_from_estate, spec_selected_or_owned, spec_ward_context_from_estate,
};
use crate::database::{
    DEFAULT_LOCAL_HOUSING_DIVISION, DEFAULT_LOCAL_HOUSING_PLOT_INDEX, DEFAULT_LOCAL_HOUSING_TERRITORY_TYPE_ID,
    DEFAULT_LOCAL_HOUSING_WARD_INDEX, HousingEstate, MAX_APARTMENT_ROOM_NUMBER, WorldDatabase, spec_at_location,
    spec_apartment_room_at, spec_default_house_key, spec_holds_key, spec_is_new_default_estate, spec_is_new_local_apartment,
    spec_local_apartment_key, spec_owned_estates,
};
use crate::seq_util::first_match;
use crate::state::ActiveHousingEstate;
use crate::zone_connection::{ZoneConnection, spec_by_house_id};

verus! {

/// The apartment interior that local apartments load.
pub const DEFAULT_LOCAL_APARTMENT_INDOOR_TERRITORY_TYPE_ID: u16 = 609;

/// A plot entrance: the ward territory, the ward and the raw land-set
/// entry (0..59 over both divisions).
#[derive(Debug, Clone, Copy, PartialEq, Eq, Structural)]
pub struct HousingPlotLocation {
    pub territory_type_id: u16,
    pub ward_index: u8,
    pub raw_plot_index: u8,
}

/// Where a login inside a house is moved to; the rotation is the bit
/// pattern of a 32-bit float.
#[derive(Debug, Clone, Copy, PartialEq, Eq, Structural)]
pub struct HousingLoginExitLocation {
    pub zone_id: u16,
    pub position: Position,
    pub rotation_bits: u32,
    pub plot_location: Option<HousingPlotLocation>,
}

/// A zone change for the server to carry out; the rotation is the bit
/// pattern of a 32-bit float.
#[derive(Debug, Clone, Copy, PartialEq, Eq, Structural)]
pub struct HousingZoneChange {
    pub territory_type_id: u16,
    pub position: Position,
    pub rotation_bits: u32,
}

/// Where leaving a house takes the player.
#[derive(Debug, Clone, Copy, PartialEq, Eq, Structural)]
pub enum HousingExit {
    /// No estate could be found: back to New Gridania.
    Fallback,
    /// To the house's plot entrance.
    ToPlot(HousingPlotLocation, Position, u32),
    /// To the estate's territory, at the given position and rotation.
    ToZone(HousingZoneChange),
}

/// Apartment rooms are numbered 1 to 90.
pub open spec fn spec_valid_apartment_room_number(room_number: u16) -> bool {
    1 <= room_number <= MAX_APARTMENT_ROOM_NUMBER
}

/// Whether an apartment room number exists.
pub fn valid_apartment_room_number(room_number: u16) -> (r: bool)
    ensures
        r == spec_valid_apartment_room_number(room_number),
{
    1 <= room_number && room_number <= MAX_APARTMENT_ROOM_NUMBER
}

/// The estate a player enters: the selected or owned estate, else the
/// default local estate (created when missing).
pub fn selected_or_default_local_estate(
    database: &mut WorldDatabase,
    active_estate: Option<&ActiveHousingEstate>,
    owner_content_id: u64,
    owner_name: &str,
    world_id: u16,
) -> (estate: HousingEstate)
    requires
        old(database).wf(),
        active_estate matches Some(a) ==> a.house_id.well_formed(),
    ensures
        final(database).wf(),
        match spec_selected_or_owned(old(database).estates_view(), match active_estate { Some(a) => Some(*a), None => None }, owner_content_id) {
            Some(e) => estate == e && *final(database) == *old(database),
            None => match first_match(old(database).estates_view(), |e: HousingEstate| spec_at_location(e, DEFAULT_LOCAL_HOUSING_TERRITORY_TYPE_ID, world_id, DEFAULT_LOCAL_HOUSING_WARD_INDEX, DEFAULT_LOCAL_HOUSING_DIVISION, DEFAULT_LOCAL_HOUSING_PLOT_INDEX)) {
                Some(found) => estate == found && final(database).estates_view() == old(database).estates_view(),
                None => match first_match(old(database).estates_view(), |e: HousingEstate| spec_holds_key(e, spec_default_house_key(world_id))) {
                    Some(holder) => estate == holder && final(database).estates_view() == old(database).estates_view(),
                    None => final(database).estates_view() == old(database).estates_view().push(estate)
                        && spec_is_new_default_estate(estate, owner_content_id, world_id) && estate.owner_name@ == owner_name@,
                },
            },
        },
        final(database).furniture_view() == old(database).furniture_view(),
{
    match selected_or_owned_housing_estate(database, active_estate, owner_content_id) {
        Some(e) => e,
        None => database.ensure_local_estate(owner_content_id, owner_name, world_id),
    }
}

/// Leaving a house puts the player at the front door of a large plot:
/// (140.0, 23.5, -0.83).
pub open spec fn spec_exit_fallback_position() -> Position {
    Position { x_bits: 0x430c_0000, y_bits: 0x41bc_0000, z_bits: 0xbf54_7ae1 }
}

/// Where leaving a house puts the player.
pub fn housing_outdoor_exit_fallback_position(estate: &HousingEstate) -> (position: Position)
    ensures
        position == spec_exit_fallback_position(),
{
    Position { x_bits: 0x430c_0000, y_bits: 0x41bc_0000, z_bits: 0xbf54_7ae1 }
}

/// Leaving a house faces the player at rotation 0.0.
pub fn housing_outdoor_exit_fallback_rotation(estate: &HousingEstate) -> (rotation_bits: u32)
    ensures
        rotation_bits == 0,
{
    0
}

/// The plot entrance of a house row: not for apartments, and only when
/// the row's numbers are a valid plot.
pub open spec fn spec_exit_plot_location(estate: HousingEstate) -> Option<HousingPlotLocation> {
    if estate.is_apartment || estate.room_number != 0 {
        None
    } else {
        match spec_outdoor_location_from_estate(estate) {
            Some(l) => Some(HousingPlotLocation { territory_type_id: l.territory_type_id, ward_index: l.ward_index, raw_plot_index: l.raw_plot_index }),
            None => None,
        }
    }
}

/// The plot entrance of a house row.
pub fn housing_outdoor_exit_plot_location(estate: &HousingEstate) -> (location: Option<HousingPlotLocation>)
    ensures
        location == spec_exit_plot_location(*estate),
{
    if estate.is_apartment || estate.room_number != 0 {
        return None;
    }
    match outdoor_housing_location_from_estate(estate) {
        Some(l) => Some(HousingPlotLocation { territory_type_id: l.territory_type_id, ward_index: l.ward_index, raw_plot_index: l.raw_plot_index }),
        None => None,
    }
}

/// Where a login inside a house goes: for an indoor zone and a house (not
/// an apartment), the house's territory at its front door.
pub open spec fn spec_login_exit_location(intended_use: TerritoryIntendedUse, estate: Option<HousingEstate>) -> Option<HousingLoginExitLocation> {
    if intended_use != TerritoryIntendedUse::HousingIndoor {
        None
    } else {
        match estate {
            Some(e) => if e.is_apartment {
                None
            } else {
                Some(HousingLoginExitLocation {
                    zone_id: spec_clamp_u16(e.territory_type_id),
                    position: spec_exit_fallback_position(),
                    rotation_bits: 0,
                    plot_location: spec_exit_plot_location(e),
                })
            },
            None => None,
        }
    }
}

/// Where a login inside a house goes.
pub fn housing_indoor_login_exit_location(intended_use: TerritoryIntendedUse, estate: Option<&HousingEstate>) -> (location: Option<HousingLoginExitLocation>)
    ensures
        location == spec_login_exit_location(intended_use, match estate { Some(e) => Some(*e), None => None }),
{
    if intended_use != TerritoryIntendedUse::HousingIndoor {
        return None;
    }
    let estate = match estate {
        Some(e) => e,
        None => return None,
    };
    if estate.is_apartment {
        return None;
    }
    Some(HousingLoginExitLocation {
        zone_id: clamp_u16(estate.territory_type_id),
        position: housing_outdoor_exit_fallback_position(estate),
        rotation_bits: housing_outdoor_exit_fallback_rotation(estate),
        plot_location: housing_outdoor_exit_plot_location(estate),
    })
}

impl ZoneConnection {
    /// Enters the selected, owned or default local estate: it becomes the
    /// active estate indoors, and the player goes to its interior at the
    /// house entrance.
    pub fn enter_local_house(&mut self) -> (change: HousingZoneChange)
        requires
            old(self).wf(),
        ensures
            final(self).wf(),
            ({
                let e = final(self).database.estates_view();
                exists|estate: HousingEstate| {
                    &&& #[trigger] spec_active_housing_estate(estate, true) == final(self).active_housing_estate.unwrap()
                    &&& final(self).active_housing_estate is Some
                    &&& final(self).active_housing_ward_context == Some(spec_ward_context_from_estate(estate))
                    &&& final(self).display_housing_ward_context == Some(spec_ward_context_from_estate(estate))
                    &&& change == HousingZoneChange {
                        territory_type_id: old(self).spec_indoor_territory_for_estate(estate),
                        position: spec_housing_indoor_entry_transform(false).position,
                        rotation_bits: spec_housing_indoor_entry_transform(false).rotation_bits,
                    }
                    &&& match spec_selected_or_owned(old(self).database.estates_view(), old(self).active_housing_estate, old(self).content_id) {
                        Some(s) => estate == s && e == old(self).database.estates_view(),
                        None => match first_match(old(self).database.estates_view(), |x: HousingEstate| spec_at_location(x, DEFAULT_LOCAL_HOUSING_TERRITORY_TYPE_ID, old(self).world_id, DEFAULT_LOCAL_HOUSING_WARD_INDEX, DEFAULT_LOCAL_HOUSING_DIVISION, DEFAULT_LOCAL_HOUSING_PLOT_INDEX)) {
                            Some(found) => estate == found && e == old(self).database.estates_view(),
                            None => match first_match(
                                old(self).database.estates_view(),
                                |x: HousingEstate| spec_holds_key(x, spec_default_house_key(old(self).world_id)),
                            ) {
                                Some(holder) => estate == holder && e == old(self).database.estates_view(),
                                None => e == old(self).database.estates_view().push(estate)
                                    && spec_is_new_default_estate(estate, old(self).content_id, old(self).world_id)
                                    && estate.owner_name@ == old(self).character_name@,
                            },
                        },
                    }
                }
            }),
            final(self).database.furniture_view() == old(self).database.furniture_view(),
            *final(self) == (ZoneConnection {
                database: final(self).database,
                active_housing_estate: final(self).active_housing_estate,
                active_housing_ward_context: final(self).active_housing_ward_context,
                display_housing_ward_context: final(self).display_housing_ward_context,
                ..*old(self)
            }),
    {
        let name = self.character_name.clone();
        let estate = selected_or_default_local_estate(
            &mut self.database,
            self.active_housing_estate.as_ref(),
            self.content_id,
            name.as_str(),
            self.world_id,
        );
        self.set_active_housing_estate_from_row(&estate, true);
        let entry = housing_indoor_entry_transform(false);
        let territory_type_id = self.housing_indoor_territory_type_id_for_estate(&estate);
        HousingZoneChange { territory_type_id, position: entry.position, rotation_bits: entry.rotation_bits }
    }

    /// Enters a local apartment of the apartment ward: `None` (and no
    /// change) for a room number outside 1..90; else the room (created
    /// when missing) becomes the active estate indoors and the player goes
    /// to the apartment interior.
    pub fn enter_local_apartment(&mut self, room_number: u16) -> (change: Option<HousingZoneChange>)
        requires
            old(self).wf(),
        ensures
            final(self).wf(),
            !spec_valid_apartment_room_number(room_number) ==> change is None && *final(self) == *old(self),
            spec_valid_apartment_room_number(room_number) ==> change == Some(HousingZoneChange {
                territory_type_id: DEFAULT_LOCAL_APARTMENT_INDOOR_TERRITORY_TYPE_ID,
                position: spec_housing_indoor_entry_transform(true).position,
                rotation_bits: spec_housing_indoor_entry_transform(true).rotation_bits,
            }),
            spec_valid_apartment_room_number(room_number) ==> ({
                let c = old(self).spec_apartment_ward_context();
                exists|estate: HousingEstate| {
                    &&& #[trigger] spec_active_housing_estate(estate, true) == final(self).active_housing_estate.unwrap()
                    &&& final(self).active_housing_estate is Some
                    &&& final(self).active_housing_ward_context == Some(spec_ward_context_from_estate(estate))
                    &&& final(self).display_housing_ward_context == Some(spec_ward_context_from_estate(estate))
                    &&& match first_match(old(self).database.estates_view(), |e: HousingEstate| spec_apartment_room_at(e, c.territory_type_id, old(self).world_id, c.ward_index, c.division, room_number)) {
                        Some(found) => estate == found && final(self).database.estates_view() == old(self).database.estates_view(),
                        None => match first_match(
                            old(self).database.estates_view(),
                            |e: HousingEstate| spec_holds_key(e, spec_local_apartment_key(c.territory_type_id, old(self).world_id, c.ward_index, c.division, room_number)),
                        ) {
                            Some(holder) => estate == holder && final(self).database.estates_view() == old(self).database.estates_view(),
                            None => final(self).database.estates_view() == old(self).database.estates_view().push(estate)
                                && spec_is_new_local_apartment(estate, old(self).content_id, old(self).character_name@, c.territory_type_id, old(self).world_id, c.ward_index, c.division, room_number),
                        },
                    }
                }
            }),
            spec_valid_apartment_room_number(room_number) ==> final(self).database.furniture_view() == old(self).database.furniture_view(),
            spec_valid_apartment_room_number(room_number) ==> *final(self) == (ZoneConnection {
                database: final(self).database,
                active_housing_estate: final(self).active_housing_estate,
                active_housing_ward_context: final(self).active_housing_ward_context,
                display_housing_ward_context: final(self).display_housing_ward_context,
                ..*old(self)
            }),
    {
        if !valid_apartment_room_number(room_number) {
            return None;
        }
        let context = self.apartment_ward_context_or_default();
        let name = self.character_name.clone();
        let estate = self.database.ensure_local_apartment(
            self.content_id,
            name.as_str(),
            self.world_id,
            context.territory_type_id,
            context.ward_index,
            context.division,
            room_number,
        );
        let estate = match estate {
            Some(e) => e,
            None => return None,
        };
        self.set_active_housing_estate_from_row(&estate, true);
        let entry = housing_indoor_entry_transform(true);
        Some(HousingZoneChange {
            territory_type_id: DEFAULT_LOCAL_APARTMENT_INDOOR_TERRITORY_TYPE_ID,
            position: entry.position,
            rotation_bits: entry.rotation_bits,
        })
    }

    /// Where leaving a house goes: the active estate's row, else the
    /// player's first owned estate; its plot entrance when it has one,
    /// else its territory at the front door; with no estate, the fallback.
    pub open spec fn spec_exit(&self) -> HousingExit {
        let rows = self.database.estates_view();
        let by_active = match self.active_housing_estate {
            Some(a) => spec_by_house_id(rows, a.house_id),
            None => None,
        };
        let owned = spec_owned_estates(rows, self.content_id);
        let estate = match by_active {
            Some(e) => Some(e),
            None => if owned.len() > 0 { Some(owned[0]) } else { None },
        };
        match estate {
            None => HousingExit::Fallback,
            Some(e) => match spec_exit_plot_location(e) {
                Some(l) => HousingExit::ToPlot(l, spec_exit_fallback_position(), 0),
                None => HousingExit::ToZone(HousingZoneChange {
                    territory_type_id: e.territory_type_id as u16,
                    position: spec_exit_fallback_position(),
                    rotation_bits: 0,
                }),
            },
        }
    }

    /// Where leaving a house goes (see `spec_exit`).
    pub fn exit_local_house(&self) -> (exit: HousingExit)
        requires
            self.wf(),
        ensures
            exit == self.spec_exit(),
    {
        let by_active = match &self.active_housing_estate {
            Some(a) => self.database.housing_estate_by_house_id(a.house_id),
            None => None,
        };
        let estate = match by_active {
            Some(e) => Some(e),
            None => {
                let owned = self.database.owned_housing_estates(self.content_id);
                if owned.len() > 0 { Some(owned[0].clone()) } else { None }
            },
        };
        let estate = match estate {
            Some(e) => e,
            None => return HousingExit::Fallback,
        };
        let position = housing_outdoor_exit_fallback_position(&estate);
        let rotation = housing_outdoor_exit_fallback_rotation(&estate);
        match housing_outdoor_exit_plot_location(&estate) {
            Some(l) => HousingExit::ToPlot(l, position, rotation),
            None => HousingExit::ToZone(HousingZoneChange {
                territory_type_id: #[verifier::truncate] (estate.territory_type_id as u16),
                position,
                rotation_bits: rotation,
            }),
        }
    }

    /// Moves a login inside a house to the house's front door: with an
    /// exit location for the selected or owned estate, that estate becomes
    /// active outdoors and the player's zone, position and rotation are
    /// the exit's; the pending plot entrance is set to the exit's (cleared
    /// otherwise).
    pub fn normalize_housing_indoor_login_location(&mut self, intended_use: TerritoryIntendedUse) -> (moved: bool)
        requires
            old(self).wf(),
        ensures
            final(self).wf(),
            ({
                let estate = spec_selected_or_owned(old(self).database.estates_view(), old(self).active_housing_estate, old(self).content_id);
                match spec_login_exit_location(intended_use, estate) {
                    None => !moved && *final(self) == (ZoneConnection { pending_housing_login_exit_plot_location: None, ..*old(self) }),
                    Some(l) => moved && *final(self) == (ZoneConnection {
                        active_housing_estate: Some(spec_active_housing_estate(estate.unwrap(), false)),
                        active_housing_ward_context: Some(spec_ward_context_from_estate(estate.unwrap())),
                        display_housing_ward_context: Some(spec_ward_context_from_estate(estate.unwrap())),
                        zone_id: l.zone_id,
                        position: l.position,
                        rotation_bits: l.rotation_bits,
                        pending_housing_login_exit_plot_location: l.plot_location,
                        ..*old(self)
                    }),
                }
            }),
    {
        self.pending_housing_login_exit_plot_location = None;
        let estate = self.selected_or_owned_housing_estate();
        let location = match housing_indoor_login_exit_location(intended_use, estate.as_ref()) {
            Some(l) => l,
            None => return false,
        };
        match &estate {
            Some(e) => self.set_active_housing_estate_from_row(e, false),
            None => {},
        }
        self.zone_id = location.zone_id;
        self.position = location.position;
        self.rotation_bits = location.rotation_bits;
        self.pending_housing_login_exit_plot_location = location.plot_location;
        true
    }
}

} // verus!
