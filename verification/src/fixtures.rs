//! Interior patterns: which indoor territory an estate loads, and the
//! pattern requests that change it.
use vstd::prelude::*;

use crate::common::{PlotSize, TerritoryIntendedUse, spec_internal_housing_row, spec_plot_size_repr};
use crate::context::{
    active_housing_estate, clamp_u16, housing_estate_plot_size, selected_or_owned_housing_estate,
    spec_active_housing_estate, spec_clamp_u16, spec_housing_estate_plot_size,
    spec_selected_or_owned, spec_ward_context_from_estate,
};
use crate::database::{HousingEstate, WorldDatabase, spec_has_land, spec_update_estates};
use crate::fixture_json::{
    HouseInteriorJson, HousingJson, housing_interior_renovation_row_id_from_json,
    spec_interior_or_default, update_interior_json_renovation_row_id,
};
use crate::gamedata::{
    spec_indoor_territory_category, spec_renovation_row_for_territory, spec_renovation_territory,
};
use crate::state::ActiveHousingEstate;
use crate::zone_connection::{ZoneConnection, spec_by_house_id};

verus! {

/// The indoor territory of a small, medium or large Simple Style house.
pub open spec fn spec_simple_indoor_territory(plot_size: PlotSize) -> u16 {
    match plot_size {
        PlotSize::Small => 1249,
        PlotSize::Medium => 1250,
        PlotSize::Large => 1251,
    }
}

/// The Simple Style interior of a plot size.
pub fn simple_housing_indoor_territory_type_id(plot_size: PlotSize) -> (territory_type_id: u16)
    ensures
        territory_type_id == spec_simple_indoor_territory(plot_size),
{
    match plot_size {
        PlotSize::Small => 1249,
        PlotSize::Medium => 1250,
        PlotSize::Large => 1251,
    }
}

/// The original interior of a residential district's house of a size.
pub open spec fn spec_district_indoor_territory(outdoor: u16, plot_size: PlotSize) -> Option<u16> {
    let offset: u16 = match plot_size {
        PlotSize::Small => 0,
        PlotSize::Medium => 1,
        PlotSize::Large => 2,
    };
    if outdoor == 339 {
        Some((282 + offset) as u16)
    } else if outdoor == 340 {
        Some((342 + offset) as u16)
    } else if outdoor == 341 {
        Some((345 + offset) as u16)
    } else if outdoor == 641 {
        Some((649 + offset) as u16)
    } else if outdoor == 979 {
        Some((980 + offset) as u16)
    } else {
        None
    }
}

/// The original interior of a residential district's house of a size.
pub fn district_default_indoor_territory_type_id(outdoor_territory_type_id: u16, plot_size: PlotSize) -> (territory_type_id: Option<u16>)
    ensures
        territory_type_id == spec_district_indoor_territory(outdoor_territory_type_id, plot_size),
{
    let offset: u16 = match plot_size {
        PlotSize::Small => 0,
        PlotSize::Medium => 1,
        PlotSize::Large => 2,
    };
    match outdoor_territory_type_id {
        339 => Some(282 + offset),
        340 => Some(342 + offset),
        341 => Some(345 + offset),
        641 => Some(649 + offset),
        979 => Some(980 + offset),
        _ => None,
    }
}

/// The interior an estate enters without a stored pattern: its
/// district's original interior, else the Simple Style one.
pub open spec fn spec_default_indoor_territory(estate: HousingEstate) -> u16 {
    match spec_district_indoor_territory(spec_clamp_u16(estate.territory_type_id), spec_housing_estate_plot_size(estate)) {
        Some(t) => t,
        None => spec_simple_indoor_territory(spec_housing_estate_plot_size(estate)),
    }
}

/// The interior an estate enters without a stored pattern.
pub fn housing_default_indoor_entry_territory_type_id_for_estate(estate: &HousingEstate) -> (territory_type_id: u16)
    ensures
        territory_type_id == spec_default_indoor_territory(*estate),
{
    let outdoor = clamp_u16(estate.territory_type_id);
    let size = housing_estate_plot_size(estate);
    match district_default_indoor_territory_type_id(outdoor, size) {
        Some(t) => t,
        None => simple_housing_indoor_territory_type_id(size),
    }
}

/// The owned house that yard pattern requests fall back to: the selected
/// or owned estate when it is a house.
pub open spec fn spec_owned_outdoor_pattern(rows: Seq<HousingEstate>, active_estate: Option<ActiveHousingEstate>, owner: u64) -> Option<ActiveHousingEstate> {
    match spec_selected_or_owned(rows, active_estate, owner) {
        Some(e) => if !e.is_apartment && e.room_number == 0 {
            Some(spec_active_housing_estate(e, false))
        } else {
            None
        },
        None => None,
    }
}

/// The owned house that yard pattern requests fall back to.
pub fn active_housing_estate_for_owned_outdoor_pattern(
    database: &WorldDatabase,
    active_estate: Option<&ActiveHousingEstate>,
    content_id: u64,
) -> (resolved: Option<ActiveHousingEstate>)
    requires
        active_estate matches Some(a) ==> a.house_id.well_formed(),
    ensures
        resolved == spec_owned_outdoor_pattern(database.estates_view(), match active_estate { Some(a) => Some(*a), None => None }, content_id),
        resolved matches Some(r) ==> r.house_id.well_formed(),
{
    match selected_or_owned_housing_estate(database, active_estate, content_id) {
        Some(e) => if !e.is_apartment && e.room_number == 0 {
            Some(active_housing_estate(&e, false))
        } else {
            None
        },
        None => None,
    }
}

/// Pattern requests come from a yard or an interior.
pub fn housing_interior_pattern_area_allows_request(intended_use: TerritoryIntendedUse) -> (r: bool)
    ensures
        r == (intended_use == TerritoryIntendedUse::HousingOutdoor || intended_use == TerritoryIntendedUse::HousingIndoor),
{
    intended_use == TerritoryIntendedUse::HousingOutdoor || intended_use == TerritoryIntendedUse::HousingIndoor
}

/// Applying a pattern reloads the interior only when it was made inside.
pub fn housing_interior_pattern_apply_should_reload(intended_use: TerritoryIntendedUse) -> (r: bool)
    ensures
        r == (intended_use == TerritoryIntendedUse::HousingIndoor),
{
    intended_use == TerritoryIntendedUse::HousingIndoor
}

impl ZoneConnection {
    /// The yard fallback's outcome: the owned house becomes the active
    /// estate (outdoors) with its ward trusted and displayed.
    pub open spec fn spec_owned_outdoor_pattern_outcome(&self) -> (Option<ActiveHousingEstate>, ZoneConnection) {
        let rows = self.database.estates_view();
        let row = match spec_owned_outdoor_pattern(rows, self.active_housing_estate, self.content_id) {
            Some(a) => spec_by_house_id(rows, a.house_id),
            None => None,
        };
        match row {
            None => (None, *self),
            Some(e) => {
                let s = ZoneConnection {
                    active_housing_estate: Some(spec_active_housing_estate(e, false)),
                    active_housing_ward_context: Some(spec_ward_context_from_estate(e)),
                    display_housing_ward_context: Some(spec_ward_context_from_estate(e)),
                    ..*self
                };
                (s.active_housing_estate, s)
            },
        }
    }

    fn active_housing_estate_for_owned_outdoor_pattern(&mut self) -> (granted: Option<ActiveHousingEstate>)
        requires
            old(self).wf(),
        ensures
            final(self).wf(),
            (granted, *final(self)) == old(self).spec_owned_outdoor_pattern_outcome(),
    {
        let resolved = active_housing_estate_for_owned_outdoor_pattern(&self.database, self.active_housing_estate.as_ref(), self.content_id);
        let estate = match resolved {
            Some(a) => self.database.housing_estate_by_house_id(a.house_id),
            None => None,
        };
        let estate = match estate {
            Some(e) => e,
            None => return None,
        };
        self.set_active_housing_estate_from_row(&estate, false);
        self.active_housing_estate
    }

    /// The estate a pattern request acts on, and the connection after the
    /// lookup: in a yard the owner gate, falling back to the owned house;
    /// inside the edit gate; elsewhere none.
    pub open spec fn spec_interior_pattern_outcome(&self, intended_use: TerritoryIntendedUse) -> (Option<ActiveHousingEstate>, ZoneConnection) {
        match intended_use {
            TerritoryIntendedUse::HousingOutdoor => match self.spec_owner_gate() {
                Some(g) => (Some(g.0), self.spec_after_outdoor_grant(g)),
                None => self.spec_owned_outdoor_pattern_outcome(),
            },
            TerritoryIntendedUse::HousingIndoor => self.spec_edit_outcome(intended_use),
            _ => (None, *self),
        }
    }

    fn active_housing_estate_for_interior_pattern(&mut self, intended_use: TerritoryIntendedUse) -> (granted: Option<ActiveHousingEstate>)
        requires
            old(self).wf(),
        ensures
            final(self).wf(),
            (granted, *final(self)) == old(self).spec_interior_pattern_outcome(intended_use),
            granted matches Some(a) ==> a.house_id.well_formed(),
    {
        match intended_use {
            TerritoryIntendedUse::HousingOutdoor => match self.active_housing_estate_for_outdoor_owner_gate() {
                Some(a) => Some(a),
                None => self.active_housing_estate_for_owned_outdoor_pattern(),
            },
            TerritoryIntendedUse::HousingIndoor => self.active_housing_estate_for_edit(intended_use),
            _ => None,
        }
    }

    /// Whether a pattern request may proceed; the lookup changes the
    /// connection as `spec_interior_pattern_outcome` says.
    pub fn can_use_active_housing_interior_pattern(&mut self, intended_use: TerritoryIntendedUse) -> (allowed: bool)
        requires
            old(self).wf(),
        ensures
            final(self).wf(),
            allowed == old(self).spec_interior_pattern_outcome(intended_use).0 is Some,
            *final(self) == old(self).spec_interior_pattern_outcome(intended_use).1,
    {
        if !housing_interior_pattern_area_allows_request(intended_use) {
            return false;
        }
        self.active_housing_estate_for_interior_pattern(intended_use).is_some()
    }

    /// Whether the interior reloads after a pattern is applied.
    pub fn should_reload_after_housing_interior_pattern_apply(&self, intended_use: TerritoryIntendedUse) -> (r: bool)
        ensures
            r == (intended_use == TerritoryIntendedUse::HousingIndoor),
    {
        housing_interior_pattern_apply_should_reload(intended_use)
    }

    /// The interior an estate enters: its stored pattern's territory when
    /// the pattern is known, else the default interior.
    pub open spec fn spec_indoor_territory_for_estate(&self, estate: HousingEstate) -> u16 {
        match spec_interior_or_default(estate.interior_json).renovation_row_id {
            Some(row) => match spec_renovation_territory(self.gamedata.renovations_view(), row) {
                Some(t) => t,
                None => spec_default_indoor_territory(estate),
            },
            None => spec_default_indoor_territory(estate),
        }
    }

    /// The interior an estate enters.
    pub fn housing_indoor_territory_type_id_for_estate(&self, estate: &HousingEstate) -> (territory_type_id: u16)
        ensures
            territory_type_id == self.spec_indoor_territory_for_estate(*estate),
    {
        match housing_interior_renovation_row_id_from_json(&estate.interior_json) {
            Some(row) => match self.gamedata.get_housing_renovation_territory(row) {
                Some(t) => t,
                None => housing_default_indoor_entry_territory_type_id_for_estate(estate),
            },
            None => housing_default_indoor_entry_territory_type_id_for_estate(estate),
        }
    }

    /// The pattern and size of a house, from game data on this
    /// connection: the stored pattern when its territory has a size; else
    /// the pattern of the current zone, else of the Simple Style interior
    /// of its plot size (a zone without a size category counts as the
    /// plot size).
    pub open spec fn spec_pattern_of(&self, estate: HousingEstate) -> Option<(u16, u8)> {
        let renovations = self.gamedata.renovations_view();
        let categories = self.gamedata.indoor_territories_view();
        let plot_size = spec_housing_estate_plot_size(estate);
        let stored = match spec_interior_or_default(estate.interior_json).renovation_row_id {
            Some(row) => match spec_renovation_territory(renovations, row) {
                Some(t) => match spec_indoor_territory_category(categories, t) {
                    Some(size) => Some((row, size)),
                    None => None,
                },
                None => None,
            },
            None => None,
        };
        match stored {
            Some(p) => Some(p),
            None => {
                let by_zone = if self.zone_id == 0 {
                    None
                } else {
                    match spec_renovation_row_for_territory(renovations, self.zone_id) {
                        Some(row) => Some((row, spec_indoor_territory_category(categories, self.zone_id).unwrap_or(spec_plot_size_repr(plot_size)))),
                        None => None,
                    }
                };
                match by_zone {
                    Some(p) => Some(p),
                    None => {
                        let fallback = spec_simple_indoor_territory(plot_size);
                        match spec_renovation_row_for_territory(renovations, fallback) {
                            Some(row) => Some((row, spec_indoor_territory_category(categories, fallback).unwrap_or(spec_plot_size_repr(plot_size)))),
                            None => None,
                        }
                    },
                }
            },
        }
    }

    /// The current pattern context and the connection after the lookup.
    pub open spec fn spec_pattern_context(&self, intended_use: TerritoryIntendedUse) -> (Option<(u16, u8)>, ZoneConnection) {
        let (g, s) = self.spec_interior_pattern_outcome(intended_use);
        match g {
            None => (None, s),
            Some(a) => match spec_by_house_id(s.database.estates_view(), a.house_id) {
                None => (None, s),
                Some(e) => if e.is_apartment { (None, s) } else { (s.spec_pattern_of(e), s) },
            },
        }
    }

    fn pattern_of(&self, estate: &HousingEstate) -> (pattern: Option<(u16, u8)>)
        ensures
            pattern == self.spec_pattern_of(*estate),
    {
        let plot_size = housing_estate_plot_size(estate);
        match housing_interior_renovation_row_id_from_json(&estate.interior_json) {
            Some(row) => match self.gamedata.get_housing_renovation_territory(row) {
                Some(t) => match self.gamedata.get_housing_indoor_territory_category(t) {
                    Some(size) => return Some((row, size)),
                    None => {},
                },
                None => {},
            },
            None => {},
        }
        if self.zone_id != 0 {
            match self.gamedata.get_housing_renovation_row_id_for_territory(self.zone_id) {
                Some(row) => {
                    let size = match self.gamedata.get_housing_indoor_territory_category(self.zone_id) {
                        Some(c) => c,
                        None => plot_size.repr(),
                    };
                    return Some((row, size));
                },
                None => {},
            }
        }
        let fallback = simple_housing_indoor_territory_type_id(plot_size);
        match self.gamedata.get_housing_renovation_row_id_for_territory(fallback) {
            Some(row) => {
                let size = match self.gamedata.get_housing_indoor_territory_category(fallback) {
                    Some(c) => c,
                    None => plot_size.repr(),
                };
                Some((row, size))
            },
            None => None,
        }
    }

    /// The pattern and size of the house a pattern request acts on (see
    /// `spec_pattern_context`); apartments have none.
    pub fn current_housing_interior_pattern_context(&mut self, intended_use: TerritoryIntendedUse) -> (pattern: Option<(u16, u8)>)
        requires
            old(self).wf(),
        ensures
            final(self).wf(),
            (pattern, *final(self)) == old(self).spec_pattern_context(intended_use),
    {
        let active = match self.active_housing_estate_for_interior_pattern(intended_use) {
            Some(a) => a,
            None => return None,
        };
        let estate = match self.database.housing_estate_by_house_id(active.house_id) {
            Some(e) => e,
            None => return None,
        };
        if estate.is_apartment {
            return None;
        }
        self.pattern_of(&estate)
    }

    /// The outcome of applying a pattern: the row id must fit 16 bits, the
    /// lookup must find a house (not an apartment), the pattern must load
    /// a territory with a size, that size must be the house's current one,
    /// and the stored record must parse; the pattern is then stored and
    /// its territory returned.
    pub open spec fn spec_pattern_applied(&self, intended_use: TerritoryIntendedUse, renovation_row_id: u32, after: ZoneConnection, territory: Option<u16>) -> bool {
        if renovation_row_id > 0xFFFF {
            territory is None && after == *self
        } else {
            let row = renovation_row_id as u16;
            let (g, s1) = self.spec_interior_pattern_outcome(intended_use);
            match g {
                None => territory is None && after == s1,
                Some(a) => match spec_by_house_id(s1.database.estates_view(), a.house_id) {
                    None => territory is None && after == s1,
                    Some(e) => if e.is_apartment {
                        territory is None && after == s1
                    } else {
                        match spec_renovation_territory(s1.gamedata.renovations_view(), row) {
                            None => territory is None && after == s1,
                            Some(t) => match spec_indoor_territory_category(s1.gamedata.indoor_territories_view(), t) {
                                None => territory is None && after == s1,
                                Some(selected) => {
                                    let (context, s2) = s1.spec_pattern_context(intended_use);
                                    let current = match context {
                                        Some(c) => c.1,
                                        None => spec_plot_size_repr(spec_housing_estate_plot_size(e)),
                                    };
                                    if selected != current {
                                        territory is None && after == s2
                                    } else {
                                        match e.interior_json {
                                            HousingJson::Malformed(_) => territory is None && after == s2,
                                            HousingJson::Valid(v) => {
                                                let json = HousingJson::Valid(HouseInteriorJson { renovation_row_id: Some(row), ..v });
                                                &&& after == (ZoneConnection { database: after.database, ..s2 })
                                                &&& after.database.furniture_view() == s2.database.furniture_view()
                                                &&& after.database.estates_view() == spec_update_estates(
                                                    s2.database.estates_view(),
                                                    a.land_ident,
                                                    |x: HousingEstate| HousingEstate { interior_json: json, ..x },
                                                )
                                                &&& territory == if spec_has_land(s2.database.estates_view(), a.land_ident) {
                                                    Some(t)
                                                } else {
                                                    None::<u16>
                                                }
                                            },
                                        }
                                    }
                                },
                            },
                        }
                    },
                },
            }
        }
    }

    /// Applies an interior pattern to the house a pattern request acts on
    /// (see `spec_pattern_applied`).
    pub fn apply_housing_interior_pattern(&mut self, intended_use: TerritoryIntendedUse, renovation_row_id: u32) -> (territory: Option<u16>)
        requires
            old(self).wf(),
        ensures
            final(self).wf(),
            old(self).spec_pattern_applied(intended_use, renovation_row_id, *final(self), territory),
    {
        if renovation_row_id > 0xFFFF {
            return None;
        }
        let row = renovation_row_id as u16;
        let active = match self.active_housing_estate_for_interior_pattern(intended_use) {
            Some(a) => a,
            None => return None,
        };
        let estate = match self.database.housing_estate_by_house_id(active.house_id) {
            Some(e) => e,
            None => return None,
        };
        if estate.is_apartment {
            return None;
        }
        let territory_type_id = match self.gamedata.get_housing_renovation_territory(row) {
            Some(t) => t,
            None => return None,
        };
        let selected_size = match self.gamedata.get_housing_indoor_territory_category(territory_type_id) {
            Some(c) => c,
            None => return None,
        };
        let current_size = match self.current_housing_interior_pattern_context(intended_use) {
            Some((_, size)) => size,
            None => housing_estate_plot_size(&estate).repr(),
        };
        if selected_size != current_size {
            return None;
        }
        let interior = match update_interior_json_renovation_row_id(&estate.interior_json, row) {
            Ok(j) => j,
            Err(_) => return None,
        };
        let updated = self.database.update_housing_interior_json(active.land_ident, HousingJson::Valid(interior));
        if !updated {
            return None;
        }
        Some(territory_type_id)
    }
}

/// The original interiors of the residential districts, by the districts'
/// land-set rows (Mist 339, the Lavender Beds 340, the Goblet 341,
/// Shirogane 641, Empyreum 979): small interiors 282, 342, 345, 649 and
/// 980, with the medium and large ones right after; only the housing
/// districts have one.
pub proof fn lemma_district_interior_follows_district(outdoor: u16, plot_size: PlotSize)
    ensures
        match spec_internal_housing_row(outdoor) {
            Some(row) => spec_district_indoor_territory(outdoor, plot_size) == Some(
                (seq![282u16, 342u16, 345u16, 649u16, 980u16][row as int] + match plot_size {
                    PlotSize::Small => 0u16,
                    PlotSize::Medium => 1u16,
                    PlotSize::Large => 2u16,
                }) as u16,
            ),
            None => spec_district_indoor_territory(outdoor, plot_size) is None,
        },
{
}

} // verus!
