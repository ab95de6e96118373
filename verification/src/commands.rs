//! The housing commands a player's script can run: making local estates
//! and apartments, resetting them, renaming and relighting them, writing
//! fixtures, applying presets and handing out item kits. Each states how
//! the connection and the tables change and what it answers; the answer
//! becomes a notice where the commands are dispatched.
use vstd::prelude::*;

use crate::common::PlotSize;
use crate::context::{spec_active_housing_estate, spec_selected_or_owned, spec_ward_context_from_estate};
use crate::database::{
    HousingEstate, HousingEstateSpec, HousingFurniture, spec_apartment_room_at, spec_at_location,
    spec_default_house_key, spec_has_land, spec_holds_key, spec_is_new_local_apartment, spec_is_new_local_estate,
    spec_local_apartment_key, spec_local_house_key, spec_owned_estates,
    spec_update_estates,
};
use crate::fixture_json::{
    HousingExteriorColorField, HousingExteriorField, HousingInteriorField, HousingJson,
    spec_exterior_with_color, spec_exterior_with_field, spec_interior_with_field,
};
use crate::gamedata::HousingItemRow;
use crate::inventory::{
    Item, StoreKind, housing_item, lemma_added_is_first_free, spec_after_add, spec_first_free,
    spec_housing_item, spec_player_bags,
};
use crate::presets::{
    HousingFixtureUpdateResult, HousingKit, RemakePlaceApplyError, RemakePlacePresetApplied,
    apply_housing_exterior_color_update, apply_housing_exterior_fixture_update,
    apply_housing_interior_fixture_update, housing_kit_items, spec_fixture_write_result,
    spec_housing_kit_items,
};
use crate::remake_place::{RemakePlaceImportRows, RemakePlaceInteriorFixtureUpdates, RemakePlaceLayout};
use crate::seq_util::{first_match, keep};
use crate::state::{HousingPresetScope, LastHousingPreset};
use crate::zone_connection::ZoneConnection;

verus! {

/// Who holds an estate made by a command.
#[derive(Debug, Clone, Copy, PartialEq, Eq, Structural)]
pub enum HousingEstateKind {
    Personal,
    FreeCompany,
}

/// What a reset command removes.
#[derive(Debug, Clone, Copy, PartialEq, Eq, Structural)]
pub enum HousingResetMode {
    /// The furniture of the selected (or owned) estate.
    Furniture,
    /// The selected (or owned) estate with its furniture.
    Estate,
    /// Every estate the player owns, with their furniture.
    All,
}

/// How a reset command ended.
#[derive(Debug)]
pub enum HousingResetOutcome {
    /// No estate was found to reset.
    NoEstate,
    /// The estate named kept its row; this many furniture rows went.
    FurnitureDeleted { estate_name: String, deleted: usize },
    /// The estate named went with its furniture.
    EstateDeleted { estate_name: String },
    /// This many owned estates went.
    AllDeleted { count: usize },
}

/// How a command that writes the selected (or owned) estate ended.
#[derive(Debug, Clone, Copy, PartialEq, Eq, Structural)]
pub enum HousingUpdateOutcome {
    /// No estate is selected or owned.
    NoEstate,
    /// The estate's row was written.
    Updated,
    /// No row has the estate's land any more.
    Missing,
}

/// Why a preset command did nothing or stopped.
#[derive(Debug, Clone, Copy, PartialEq, Eq, Structural)]
pub enum HousingPresetCommandError {
    /// No estate is selected or owned.
    NoEstate,
    /// Storing the preset's interior failed (its furniture was replaced).
    Apply(RemakePlaceApplyError),
}

/// The rows of `rows` without those of the lands in `lands`, taken one
/// land after another; the furniture of a land goes only while an estate
/// row with that land is left.
pub open spec fn spec_delete_lands(
    estates: Seq<HousingEstate>,
    furniture: Seq<HousingFurniture>,
    lands: Seq<i64>,
) -> (Seq<HousingEstate>, Seq<HousingFurniture>)
    decreases lands.len(),
{
    if lands.len() == 0 {
        (estates, furniture)
    } else {
        let (e, f) = spec_delete_lands(estates, furniture, lands.drop_last());
        let land = lands.last();
        if spec_has_land(e, land) {
            (keep(e, |x: HousingEstate| x.land_ident != land), keep(f, |x: HousingFurniture| x.land_ident != land))
        } else {
            (e, f)
        }
    }
}

/// The bags after handing out `items` one after another, and how many
/// found a place: an item with an item row goes, unstained, into the first
/// empty bag slot; one without a row, or with the bags full, is skipped.
pub open spec fn spec_kit_given(bags: Seq<Item>, items: Seq<u32>, rows: Seq<HousingItemRow>) -> (Seq<Item>, nat)
    decreases items.len(),
{
    if items.len() == 0 {
        (bags, 0)
    } else {
        let (b, added) = spec_kit_given(bags, items.drop_last(), rows);
        match first_match(rows, |r: HousingItemRow| r.item_id == items.last()) {
            Some(row) => if spec_first_free(StoreKind::Player, b, spec_player_bags()) is Some {
                (spec_after_add(StoreKind::Player, b, spec_housing_item(row.item_id, 0), spec_player_bags()), added + 1)
            } else {
                (b, added)
            },
            None => (b, added),
        }
    }
}

impl ZoneConnection {
    /// The estate that owner commands act on.
    pub open spec fn spec_command_estate(&self) -> Option<HousingEstate> {
        spec_selected_or_owned(self.database.estates_view(), self.active_housing_estate, self.content_id)
    }

    /// Makes (or finds) the apartment room `room_number` of the apartment
    /// ward and makes its ward the trusted and displayed ward; `None`, with
    /// nothing changed, for room numbers outside `1..=90`.
    pub fn ensure_local_apartment_command(&mut self, room_number: u16) -> (estate: Option<HousingEstate>)
        requires
            old(self).wf(),
        ensures
            final(self).wf(),
            final(self).database.furniture_view() == old(self).database.furniture_view(),
            ({
                let c = old(self).spec_apartment_ward_context();
                match estate {
                    None => {
                        &&& !(1 <= room_number <= 90)
                        &&& *final(self) == (ZoneConnection { database: final(self).database, ..*old(self) })
                        &&& final(self).database.estates_view() == old(self).database.estates_view()
                    },
                    Some(e) => {
                        &&& 1 <= room_number <= 90
                        &&& *final(self) == (ZoneConnection {
                            database: final(self).database,
                            active_housing_ward_context: Some(spec_ward_context_from_estate(e)),
                            display_housing_ward_context: Some(spec_ward_context_from_estate(e)),
                            ..*old(self)
                        })
                        &&& match first_match(
                            old(self).database.estates_view(),
                            |x: HousingEstate| spec_apartment_room_at(x, c.territory_type_id, old(self).world_id, c.ward_index, c.division, room_number),
                        ) {
                            Some(found) => e == found && final(self).database.estates_view() == old(self).database.estates_view(),
                            None => match first_match(
                                old(self).database.estates_view(),
                                |x: HousingEstate| spec_holds_key(x, spec_local_apartment_key(c.territory_type_id, old(self).world_id, c.ward_index, c.division, room_number)),
                            ) {
                                Some(holder) => e == holder && final(self).database.estates_view() == old(self).database.estates_view(),
                                None => final(self).database.estates_view() == old(self).database.estates_view().push(e)
                                && spec_is_new_local_apartment(
                                    e,
                                    old(self).content_id,
                                    old(self).character_name@,
                                    c.territory_type_id,
                                    old(self).world_id,
                                    c.ward_index,
                                    c.division,
                                    room_number,
                                ),
                            },
                        }
                    },
                }
            }),
    {
        let context = self.apartment_ward_context_or_default();
        let estate = self.database.ensure_local_apartment(
            self.content_id,
            self.character_name.as_str(),
            self.world_id,
            context.territory_type_id,
            context.ward_index,
            context.division,
            room_number,
        );
        match &estate {
            Some(e) => self.set_active_housing_ward_context_from_estate(e),
            None => {},
        }
        estate
    }

    /// Makes (or finds) the player's house at the default plot.
    pub fn ensure_local_house_command(&mut self) -> (estate: HousingEstate)
        requires
            old(self).wf(),
        ensures
            final(self).wf(),
            *final(self) == (ZoneConnection { database: final(self).database, ..*old(self) }),
            final(self).database.furniture_view() == old(self).database.furniture_view(),
            match first_match(
                old(self).database.estates_view(),
                |e: HousingEstate| spec_at_location(e, crate::database::DEFAULT_LOCAL_HOUSING_TERRITORY_TYPE_ID, old(self).world_id, 0, 0, 0),
            ) {
                Some(found) => estate == found && final(self).database.estates_view() == old(self).database.estates_view(),
                None => match first_match(old(self).database.estates_view(), |e: HousingEstate| spec_holds_key(e, spec_default_house_key(old(self).world_id))) {
                    Some(holder) => estate == holder && final(self).database.estates_view() == old(self).database.estates_view(),
                    None => final(self).database.estates_view() == old(self).database.estates_view().push(estate)
                        && estate.owner_name@ == old(self).character_name@
                        && spec_is_new_local_estate(estate, HousingEstateSpec {
                            owner_content_id: old(self).content_id,
                            owner_name: estate.owner_name,
                            world_id: old(self).world_id,
                            territory_type_id: crate::database::DEFAULT_LOCAL_HOUSING_TERRITORY_TYPE_ID,
                            ward_index: 0,
                            division: 0,
                            plot_index: 0,
                            plot_size: PlotSize::Large,
                            free_company: false,
                        }),
                },
            },
    {
        self.database.ensure_local_estate(self.content_id, self.character_name.as_str(), self.world_id)
    }

    /// Makes (or finds) a house at a chosen plot, of a chosen kind and
    /// size, and makes it the active (yard) estate with its ward trusted
    /// and displayed.
    pub fn ensure_local_house_with_options_command(
        &mut self,
        kind: HousingEstateKind,
        size: PlotSize,
        territory_type_id: u16,
        ward_index: u8,
        division: u8,
        plot_index: u8,
    ) -> (estate: HousingEstate)
        requires
            old(self).wf(),
        ensures
            final(self).wf(),
            *final(self) == (ZoneConnection {
                database: final(self).database,
                active_housing_estate: Some(spec_active_housing_estate(estate, false)),
                active_housing_ward_context: Some(spec_ward_context_from_estate(estate)),
                display_housing_ward_context: Some(spec_ward_context_from_estate(estate)),
                ..*old(self)
            }),
            final(self).database.furniture_view() == old(self).database.furniture_view(),
            match first_match(
                old(self).database.estates_view(),
                |e: HousingEstate| spec_at_location(e, territory_type_id, old(self).world_id, ward_index, division, plot_index),
            ) {
                Some(found) => estate == found && final(self).database.estates_view() == old(self).database.estates_view(),
                None => match first_match(
                    old(self).database.estates_view(),
                    |e: HousingEstate| spec_holds_key(e, spec_local_house_key(territory_type_id, old(self).world_id, ward_index, division, plot_index)),
                ) {
                    Some(holder) => estate == holder && final(self).database.estates_view() == old(self).database.estates_view(),
                    None => final(self).database.estates_view() == old(self).database.estates_view().push(estate)
                        && estate.owner_name == old(self).character_name
                        && spec_is_new_local_estate(estate, HousingEstateSpec {
                            owner_content_id: old(self).content_id,
                            owner_name: old(self).character_name,
                            world_id: old(self).world_id,
                            territory_type_id,
                            ward_index,
                            division,
                            plot_index,
                            plot_size: size,
                            free_company: kind == HousingEstateKind::FreeCompany,
                        }),
                },
            },
    {
        let estate = self.database.ensure_local_estate_with_spec(HousingEstateSpec {
            owner_content_id: self.content_id,
            owner_name: self.character_name.clone(),
            world_id: self.world_id,
            territory_type_id,
            ward_index,
            division,
            plot_index,
            plot_size: size,
            free_company: kind == HousingEstateKind::FreeCompany,
        });
        proof {
            crate::context::lemma_outdoor_house_id_well_formed(estate);
        }
        self.set_active_housing_estate_from_row(&estate, false);
        estate
    }

    /// The reset's outcome and tables. Furniture: the command estate's
    /// furniture rows go and the housing inventory cache is dropped.
    /// Estate: the command estate's rows and furniture go, and with them the
    /// cache and the active estate; when no row has its land nothing
    /// changes. All: the owned estates go one after another (see
    /// `spec_delete_lands`), with the cache and the active estate. Without
    /// a command estate the first two change nothing.
    pub open spec fn spec_reset(&self, mode: HousingResetMode, after: ZoneConnection, outcome: HousingResetOutcome) -> bool {
        let rows = self.database.estates_view();
        let furniture = self.database.furniture_view();
        let cleared = forall|c, s| #[trigger] after.house_inventory.spec_get(c, s) matches Some(i) ==> i == crate::inventory::empty_item();
        match mode {
            HousingResetMode::Furniture => match self.spec_command_estate() {
                None => outcome is NoEstate && after == *self,
                Some(e) => {
                    let kept = keep(furniture, |f: HousingFurniture| f.land_ident != e.land_ident);
                    &&& outcome == HousingResetOutcome::FurnitureDeleted {
                        estate_name: e.estate_name,
                        deleted: (furniture.len() - kept.len()) as usize,
                    }
                    &&& after == (ZoneConnection { database: after.database, house_inventory: after.house_inventory, ..*self })
                    &&& after.database.estates_view() == rows
                    &&& after.database.furniture_view() == kept
                    &&& cleared
                },
            },
            HousingResetMode::Estate => match self.spec_command_estate() {
                None => outcome is NoEstate && after == *self,
                Some(e) => if !spec_has_land(rows, e.land_ident) {
                    &&& outcome is NoEstate
                    &&& after == (ZoneConnection { database: after.database, ..*self })
                    &&& after.database.estates_view() == rows
                    &&& after.database.furniture_view() == furniture
                } else {
                    &&& outcome == HousingResetOutcome::EstateDeleted { estate_name: e.estate_name }
                    &&& after == (ZoneConnection {
                        database: after.database,
                        house_inventory: after.house_inventory,
                        active_housing_estate: None,
                        ..*self
                    })
                    &&& after.database.estates_view() == keep(rows, |x: HousingEstate| x.land_ident != e.land_ident)
                    &&& after.database.furniture_view() == keep(furniture, |x: HousingFurniture| x.land_ident != e.land_ident)
                    &&& cleared
                },
            },
            HousingResetMode::All => {
                let owned = spec_owned_estates(rows, self.content_id);
                let result = spec_delete_lands(rows, furniture, owned.map_values(|x: HousingEstate| x.land_ident));
                &&& outcome == HousingResetOutcome::AllDeleted { count: owned.len() as usize }
                &&& after == (ZoneConnection {
                    database: after.database,
                    house_inventory: after.house_inventory,
                    active_housing_estate: None,
                    ..*self
                })
                &&& after.database.estates_view() == result.0
                &&& after.database.furniture_view() == result.1
                &&& cleared
            },
        }
    }

    /// Resets housing (see `spec_reset`).
    pub fn reset_housing_command(&mut self, mode: HousingResetMode) -> (outcome: HousingResetOutcome)
        requires
            old(self).wf(),
        ensures
            final(self).wf(),
            old(self).spec_reset(mode, *final(self), outcome),
    {
        match mode {
            HousingResetMode::Furniture => {
                let estate = match self.selected_or_owned_housing_estate() {
                    Some(e) => e,
                    None => return HousingResetOutcome::NoEstate,
                };
                let deleted = self.database.delete_housing_furniture_for_estate(estate.land_ident);
                self.clear_housing_furniture_reset_cache();
                HousingResetOutcome::FurnitureDeleted { estate_name: estate.estate_name, deleted }
            },
            HousingResetMode::Estate => {
                let estate = match self.selected_or_owned_housing_estate() {
                    Some(e) => e,
                    None => return HousingResetOutcome::NoEstate,
                };
                if self.database.delete_housing_estate_and_furniture(estate.land_ident) {
                    self.clear_housing_estate_reset_cache();
                    HousingResetOutcome::EstateDeleted { estate_name: estate.estate_name }
                } else {
                    HousingResetOutcome::NoEstate
                }
            },
            HousingResetMode::All => {
                let estates = self.database.owned_housing_estates(self.content_id);
                let ghost lands = estates@.map_values(|x: HousingEstate| x.land_ident);
                let ghost rows0 = self.database.estates_view();
                let ghost furniture0 = self.database.furniture_view();
                let ghost s0 = *self;
                let mut i: usize = 0;
                while i < estates.len()
                    invariant
                        i <= estates@.len(),
                        lands == estates@.map_values(|x: HousingEstate| x.land_ident),
                        self.wf(),
                        *self == (ZoneConnection { database: self.database, ..s0 }),
                        (self.database.estates_view(), self.database.furniture_view())
                            == spec_delete_lands(rows0, furniture0, lands.take(i as int)),
                    decreases estates@.len() - i,
                {
                    let land = estates[i].land_ident;
                    let ghost before = (self.database.estates_view(), self.database.furniture_view());
                    let deleted = self.database.delete_housing_estate_and_furniture(land);
                    proof {
                        assert(lands.take(i as int + 1).drop_last() =~= lands.take(i as int));
                        assert(lands.take(i as int + 1).last() == land);
                    }
                    i = i + 1;
                }
                assert(lands.take(i as int) =~= lands);
                let count = estates.len();
                self.clear_housing_estate_reset_cache();
                HousingResetOutcome::AllDeleted { count }
            },
        }
    }

    /// The outcome of a write to the command estate's row: none without a
    /// command estate, else updated or missing by whether a row has its
    /// land.
    pub open spec fn spec_update_outcome(&self) -> HousingUpdateOutcome {
        match self.spec_command_estate() {
            None => HousingUpdateOutcome::NoEstate,
            Some(e) => if spec_has_land(self.database.estates_view(), e.land_ident) {
                HousingUpdateOutcome::Updated
            } else {
                HousingUpdateOutcome::Missing
            },
        }
    }

    /// The write touches at most the rows with the command estate's land:
    /// every other estate row and all furniture stay as they were.
    pub open spec fn spec_writes_only_command_estate(&self, after: ZoneConnection) -> bool {
        let rows = self.database.estates_view();
        &&& after.database.furniture_view() == self.database.furniture_view()
        &&& after.database.estates_view().len() == rows.len()
        &&& forall|k: int| 0 <= k < rows.len() && !(self.spec_command_estate() matches Some(e) && rows[k].land_ident == e.land_ident)
            ==> #[trigger] after.database.estates_view()[k] == rows[k]
    }

    /// The outcome of applying a preset to the command estate (see
    /// `spec_preset_applied`), remembering it on success; `NoEstate`, with
    /// nothing changed, without a command estate.
    pub open spec fn spec_preset_command(
        &self,
        layout: RemakePlaceLayout,
        path: String,
        scope: HousingPresetScope,
        after: ZoneConnection,
        result: Result<RemakePlacePresetApplied, HousingPresetCommandError>,
    ) -> bool {
        match self.spec_command_estate() {
            None => result == Err::<RemakePlacePresetApplied, HousingPresetCommandError>(HousingPresetCommandError::NoEstate)
                && after == *self,
            Some(e) => match result {
                Err(HousingPresetCommandError::NoEstate) => false,
                Err(HousingPresetCommandError::Apply(a)) => self.spec_preset_applied(
                    e,
                    layout,
                    scope,
                    after,
                    Err::<RemakePlacePresetApplied, RemakePlaceApplyError>(a),
                ),
                Ok(applied) => {
                    &&& self.spec_preset_applied(
                        e,
                        layout,
                        scope,
                        ZoneConnection { last_housing_preset: self.last_housing_preset, ..after },
                        Ok::<RemakePlacePresetApplied, RemakePlaceApplyError>(applied),
                    )
                    &&& after.last_housing_preset == Some(LastHousingPreset { path, scope })
                },
            },
        }
    }

    /// Renames the command estate.
    pub fn update_housing_name_command(&mut self, name: &str) -> (outcome: HousingUpdateOutcome)
        requires
            old(self).wf(),
        ensures
            final(self).wf(),
            old(self).spec_writes_only_command_estate(*final(self)),
            outcome == old(self).spec_update_outcome(),
            *final(self) == (ZoneConnection { database: final(self).database, ..*old(self) }),
            final(self).database.furniture_view() == old(self).database.furniture_view(),
            final(self).database.estates_view().len() == old(self).database.estates_view().len(),
            forall|k: int| 0 <= k < old(self).database.estates_view().len() ==> {
                let before = old(self).database.estates_view()[k];
                let after = #[trigger] final(self).database.estates_view()[k];
                if old(self).spec_command_estate() matches Some(e) && before.land_ident == e.land_ident {
                    &&& after.estate_name@ == name@
                    &&& after.greeting == before.greeting
                    &&& crate::database::spec_same_but_texts(after, before)
                } else {
                    after == before
                }
            },
    {
        match self.selected_or_owned_housing_estate() {
            None => HousingUpdateOutcome::NoEstate,
            Some(e) => if self.database.update_housing_name(e.land_ident, name) {
                HousingUpdateOutcome::Updated
            } else {
                HousingUpdateOutcome::Missing
            },
        }
    }

    /// Sets the greeting of the command estate.
    pub fn update_housing_greeting_command(&mut self, greeting: &str) -> (outcome: HousingUpdateOutcome)
        requires
            old(self).wf(),
        ensures
            final(self).wf(),
            old(self).spec_writes_only_command_estate(*final(self)),
            outcome == old(self).spec_update_outcome(),
            *final(self) == (ZoneConnection { database: final(self).database, ..*old(self) }),
            final(self).database.furniture_view() == old(self).database.furniture_view(),
            final(self).database.estates_view().len() == old(self).database.estates_view().len(),
            forall|k: int| 0 <= k < old(self).database.estates_view().len() ==> {
                let before = old(self).database.estates_view()[k];
                let after = #[trigger] final(self).database.estates_view()[k];
                if old(self).spec_command_estate() matches Some(e) && before.land_ident == e.land_ident {
                    &&& after.greeting@ == greeting@
                    &&& after.estate_name == before.estate_name
                    &&& crate::database::spec_same_but_texts(after, before)
                } else {
                    after == before
                }
            },
    {
        match self.selected_or_owned_housing_estate() {
            None => HousingUpdateOutcome::NoEstate,
            Some(e) => if self.database.update_housing_greeting(e.land_ident, greeting) {
                HousingUpdateOutcome::Updated
            } else {
                HousingUpdateOutcome::Missing
            },
        }
    }

    /// Sets the light level of the command estate, capped at 5; returns
    /// the level stored with the outcome.
    pub fn update_housing_light_command(&mut self, level: u8) -> (outcome: (HousingUpdateOutcome, u8))
        requires
            old(self).wf(),
        ensures
            final(self).wf(),
            old(self).spec_writes_only_command_estate(*final(self)),
            outcome.0 == old(self).spec_update_outcome(),
            outcome.1 == if level < 5 { level } else { 5 },
            *final(self) == (ZoneConnection { database: final(self).database, ..*old(self) }),
            final(self).database.furniture_view() == old(self).database.furniture_view(),
            final(self).database.estates_view() == match old(self).spec_command_estate() {
                None => old(self).database.estates_view(),
                Some(e) => spec_update_estates(
                    old(self).database.estates_view(),
                    e.land_ident,
                    |x: HousingEstate| HousingEstate { light_level: outcome.1 as i32, ..x },
                ),
            },
    {
        let level = if level < 5 { level } else { 5 };
        match self.selected_or_owned_housing_estate() {
            None => (HousingUpdateOutcome::NoEstate, level),
            Some(e) => if self.database.update_housing_light_level(e.land_ident, level) {
                (HousingUpdateOutcome::Updated, level)
            } else {
                (HousingUpdateOutcome::Missing, level)
            },
        }
    }

    /// Sets one exterior part of the command estate (see
    /// `apply_housing_exterior_fixture_update`); `None`, with nothing
    /// changed, without a command estate.
    pub fn update_housing_exterior_command(&mut self, field: HousingExteriorField, value: u16) -> (outcome: Option<HousingFixtureUpdateResult>)
        requires
            old(self).wf(),
        ensures
            final(self).wf(),
            old(self).spec_writes_only_command_estate(*final(self)),
            *final(self) == (ZoneConnection { database: final(self).database, ..*old(self) }),
            final(self).database.furniture_view() == old(self).database.furniture_view(),
            match old(self).spec_command_estate() {
                None => outcome is None && final(self).database.estates_view() == old(self).database.estates_view(),
                Some(e) => {
                    &&& outcome == Some(spec_fixture_write_result(e.exterior_json is Valid, old(self).database.estates_view(), e.land_ident))
                    &&& final(self).database.estates_view() == match e.exterior_json {
                        HousingJson::Valid(j) => spec_update_estates(
                            old(self).database.estates_view(),
                            e.land_ident,
                            |x: HousingEstate| HousingEstate { exterior_json: HousingJson::Valid(spec_exterior_with_field(j, field, value)), ..x },
                        ),
                        HousingJson::Malformed(_) => old(self).database.estates_view(),
                    }
                },
            },
    {
        match self.selected_or_owned_housing_estate() {
            None => None,
            Some(e) => Some(apply_housing_exterior_fixture_update(&mut self.database, &e, field, value)),
        }
    }

    /// Sets one exterior color of the command estate (see
    /// `apply_housing_exterior_color_update`); `None`, with nothing
    /// changed, without a command estate.
    pub fn update_housing_exterior_color_command(&mut self, field: HousingExteriorColorField, value: u8) -> (outcome: Option<HousingFixtureUpdateResult>)
        requires
            old(self).wf(),
        ensures
            final(self).wf(),
            old(self).spec_writes_only_command_estate(*final(self)),
            *final(self) == (ZoneConnection { database: final(self).database, ..*old(self) }),
            final(self).database.furniture_view() == old(self).database.furniture_view(),
            match old(self).spec_command_estate() {
                None => outcome is None && final(self).database.estates_view() == old(self).database.estates_view(),
                Some(e) => {
                    &&& outcome == Some(spec_fixture_write_result(e.exterior_json is Valid, old(self).database.estates_view(), e.land_ident))
                    &&& final(self).database.estates_view() == match e.exterior_json {
                        HousingJson::Valid(j) => spec_update_estates(
                            old(self).database.estates_view(),
                            e.land_ident,
                            |x: HousingEstate| HousingEstate { exterior_json: HousingJson::Valid(spec_exterior_with_color(j, field, value)), ..x },
                        ),
                        HousingJson::Malformed(_) => old(self).database.estates_view(),
                    }
                },
            },
    {
        match self.selected_or_owned_housing_estate() {
            None => None,
            Some(e) => Some(apply_housing_exterior_color_update(&mut self.database, &e, field, value)),
        }
    }

    /// Sets one interior fixture of the command estate (see
    /// `apply_housing_interior_fixture_update`); `None`, with nothing
    /// changed, without a command estate.
    pub fn update_housing_interior_command(&mut self, field: HousingInteriorField, value: u32) -> (outcome: Option<HousingFixtureUpdateResult>)
        requires
            old(self).wf(),
        ensures
            final(self).wf(),
            old(self).spec_writes_only_command_estate(*final(self)),
            *final(self) == (ZoneConnection { database: final(self).database, ..*old(self) }),
            final(self).database.furniture_view() == old(self).database.furniture_view(),
            match old(self).spec_command_estate() {
                None => outcome is None && final(self).database.estates_view() == old(self).database.estates_view(),
                Some(e) => {
                    &&& outcome == Some(spec_fixture_write_result(e.interior_json is Valid, old(self).database.estates_view(), e.land_ident))
                    &&& final(self).database.estates_view() == match e.interior_json {
                        HousingJson::Valid(j) => spec_update_estates(
                            old(self).database.estates_view(),
                            e.land_ident,
                            |x: HousingEstate| HousingEstate { interior_json: HousingJson::Valid(spec_interior_with_field(j, field, value)), ..x },
                        ),
                        HousingJson::Malformed(_) => old(self).database.estates_view(),
                    }
                },
            },
    {
        match self.selected_or_owned_housing_estate() {
            None => None,
            Some(e) => Some(apply_housing_interior_fixture_update(&mut self.database, &e, field, value)),
        }
    }

    /// Applies a preset to the command estate (see `spec_preset_applied`)
    /// and, when that succeeds, remembers it (its path and scope) for
    /// repeating; without a command estate nothing changes.
    pub fn apply_housing_preset_command(
        &mut self,
        layout: &RemakePlaceLayout,
        path: String,
        scope: HousingPresetScope,
    ) -> (result: Result<RemakePlacePresetApplied, HousingPresetCommandError>)
        requires
            old(self).wf(),
            layout.interior_furniture@.len() + layout.exterior_furniture@.len() <= usize::MAX,
        ensures
            final(self).wf(),
            old(self).spec_preset_command(*layout, path, scope, *final(self), result),
    {
        let estate = match self.selected_or_owned_housing_estate() {
            Some(e) => e,
            None => return Err(HousingPresetCommandError::NoEstate),
        };
        match self.apply_remake_place_preset_to_estate(&estate, layout, scope) {
            Ok(applied) => {
                self.last_housing_preset = Some(LastHousingPreset { path, scope });
                Ok(applied)
            },
            Err(a) => Err(HousingPresetCommandError::Apply(a)),
        }
    }

    /// What a preset would do to the command estate, with nothing stored:
    /// the estate with the rows and fixture updates the preset makes for it
    /// (see `analyze_remake_place_preset_for_estate`); `None` without a
    /// command estate.
    pub fn check_housing_preset_command(
        &self,
        layout: &RemakePlaceLayout,
        scope: HousingPresetScope,
    ) -> (checked: Option<(HousingEstate, RemakePlaceImportRows, RemakePlaceInteriorFixtureUpdates)>)
        requires
            self.wf(),
            layout.interior_furniture@.len() + layout.exterior_furniture@.len() <= usize::MAX,
        ensures
            match self.spec_command_estate() {
                None => checked is None,
                Some(e) => checked matches Some(c) && {
                    &&& c.0 == e
                    &&& crate::remake_place::spec_is_import_rows_of(
                        c.1,
                        layout.interior_furniture@,
                        layout.exterior_furniture@,
                        e.land_ident,
                        Some(self.content_id as i64),
                        self.gamedata.rows_view(),
                        self.gamedata.stains_view(),
                        scope,
                    )
                    &&& (scope.spec_includes_interior() ==> crate::remake_place::spec_is_fixture_updates_of(
                        c.2,
                        layout.interior_fixture@,
                        Self::spec_estate_plot_size(e),
                        self.gamedata.rows_view(),
                    ))
                    &&& (!scope.spec_includes_interior() ==> c.2.renovation_row_id is None && c.2.fixture_updates@.len() == 0)
                },
            },
    {
        let estate = match self.selected_or_owned_housing_estate() {
            Some(e) => e,
            None => return None,
        };
        let (rows, updates) = self.analyze_remake_place_preset_for_estate(&estate, layout, scope);
        Some((estate, rows, updates))
    }

    /// The preset applied last in this session, for repeating it.
    pub fn repeatable_housing_preset(&self) -> (last: Option<LastHousingPreset>)
        ensures
            last == self.last_housing_preset,
    {
        match &self.last_housing_preset {
            Some(p) => Some(p.clone()),
            None => None,
        }
    }

    /// Hands out the items of a kit, one of each, into the first free bag
    /// slots; an item without an item row, or with the bags full, fails.
    /// Returns how many were added and how many failed.
    pub fn give_housing_kit_command(&mut self, kit: HousingKit) -> (counts: (usize, usize))
        requires
            old(self).wf(),
        ensures
            final(self).wf(),
            *final(self) == (ZoneConnection { inventory: final(self).inventory, ..*old(self) }),
            final(self).inventory.slots_view() == spec_kit_given(
                old(self).inventory.slots_view(),
                spec_housing_kit_items(kit),
                old(self).gamedata.rows_view(),
            ).0,
            counts.0 == spec_kit_given(old(self).inventory.slots_view(), spec_housing_kit_items(kit), old(self).gamedata.rows_view()).1,
            counts.0 + counts.1 == spec_housing_kit_items(kit).len(),
    {
        let items = housing_kit_items(kit);
        let ghost s0 = *self;
        let mut added: usize = 0;
        let mut failed: usize = 0;
        let mut i: usize = 0;
        while i < items.len()
            invariant
                i <= items@.len(),
                items@ == spec_housing_kit_items(kit),
                items@.len() <= 7,
                self.wf(),
                *self == (ZoneConnection { inventory: self.inventory, ..s0 }),
                added + failed == i,
                self.inventory.slots_view() == spec_kit_given(s0.inventory.slots_view(), items@.take(i as int), s0.gamedata.rows_view()).0,
                added == spec_kit_given(s0.inventory.slots_view(), items@.take(i as int), s0.gamedata.rows_view()).1,
            decreases items@.len() - i,
        {
            assert(items@.take(i as int + 1).drop_last() =~= items@.take(i as int));
            let item_id = items[i];
            match self.gamedata.get_item_info(item_id) {
                Some(row) => {
                    let item = housing_item(row.item_id, 0);
                    let ghost bags_before = self.inventory.slots_view();
                    let placed = self.inventory.add_in_next_free_slot(item);
                    proof {
                        lemma_added_is_first_free(StoreKind::Player, bags_before, item, spec_player_bags(), placed, self.inventory.slots_view());
                    }
                    match placed {
                        Some(_) => added = added + 1,
                        None => failed = failed + 1,
                    }
                },
                None => failed = failed + 1,
            }
            i = i + 1;
        }
        assert(items@.take(i as int) =~= items@);
        (added, failed)
    }
}

} // verus!
