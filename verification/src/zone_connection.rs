//! A player's connection as far as housing goes: the estate and ward it
//! acts on, the staged appearance edit, the inventories and the tables.
//! Every method states how the connection changes and what it answers.
use vstd::prelude::*;

use crate::common::{ContainerType, HouseId, TerritoryIntendedUse, internal_housing_row, spec_internal_housing_row};
use crate::context::{
    OutdoorHousingLocation, active_housing_estate, active_housing_ward_context_from_estate, can_edit_housing_estate,
    display_housing_ward_context_or_default, outdoor_housing_location_from_raw_entry,
    active_housing_estate_for_outdoor_removal_row, resolve_active_housing_estate_for_outdoor_edit,
    resolve_active_housing_estate_for_outdoor_owner_gate, resolve_active_indoor_housing_estate,
    selected_or_owned_housing_estate, spec_active_estate_for_outdoor_removal_row, spec_active_housing_estate,
    spec_can_edit_housing_estate, spec_display_context, spec_outdoor_location_from_raw_entry,
    spec_resolve_active_indoor, spec_resolve_outdoor_owner_gate, spec_resolve_outdoor_plot, spec_selected_or_owned,
    spec_ward_context_from_estate,
};
use crate::database::{
    DEFAULT_LOCAL_HOUSING_DIVISION, DEFAULT_LOCAL_HOUSING_PLOT_INDEX, DEFAULT_LOCAL_HOUSING_TERRITORY_TYPE_ID,
    DEFAULT_LOCAL_HOUSING_WARD_INDEX, HousingEstate, WorldDatabase, spec_at_location,
};
use crate::database::spec_furniture_of;
use crate::furniture::{
    exterior_json_from_appearance, housing_appearance_container_intended_use, housing_appearance_item_data,
    housing_appearance_target_slot, housing_exterior_item_ui_category_for_slot,
    housing_interior_item_ui_category_for_slot, interior_json_from_appearance, placed_container_for_flat_slot,
    populate_housing_appearance_inventory, spec_appearance_container_intended_use, spec_appearance_item_data,
    spec_estate_appearance_specs, spec_exterior_category_for_slot, spec_exterior_record_from_items,
    spec_interior_category_for_slot, spec_interior_record_from_items, spec_placed_container_for_flat_slot,
    spec_populate_slots, spec_target_slot,
};
use crate::gamedata::{HousingGameData, HousingItemRow};
use crate::common::Position;
use crate::database::{spec_has_furniture_at, spec_has_land, spec_reposition_rows, spec_update_estates};
use crate::entry::HousingPlotLocation;
use crate::state::{AppliedHousingAppearanceItemOperation, HousingFurnitureObjectKey, PersistedFurnitureTranslation};
use crate::housing_item_operation::{HousingItemOperation, housing_item_operation_hint, spec_housing_item_operation_hint};
use crate::inventory::{HousingInventory, Item, PlayerInventory, StoreKind, spec_store_get, spec_store_set};
use crate::serialization::{housing_inventory_from_rows, spec_inventory_from_rows};
use crate::seq_util::first_match;
use crate::state::{ActiveHousingEstate, ActiveHousingWardContext, LastHousingPreset, PendingHousingAppearanceItemOperation};

verus! {

/// The housing side of a player's zone connection.
#[derive(Debug)]
pub struct ZoneConnection {
    pub content_id: u64,
    pub character_name: String,
    pub world_id: u16,
    pub zone_id: u16,
    pub position: Position,
    pub rotation_bits: u32,
    pub pending_housing_login_exit_plot_location: Option<HousingPlotLocation>,
    pub active_housing_estate: Option<ActiveHousingEstate>,
    pub active_housing_ward_context: Option<ActiveHousingWardContext>,
    pub display_housing_ward_context: Option<ActiveHousingWardContext>,
    pub pending_housing_appearance_item_operation: Option<PendingHousingAppearanceItemOperation>,
    pub pending_housing_indoor_furniture_list_tail: bool,
    pub pending_housing_indoor_finish_loading: bool,
    pub pending_housing_indoor_furniture_object_overlay_sync: bool,
    pub last_housing_preset: Option<LastHousingPreset>,
    pub inventory: PlayerInventory,
    pub house_inventory: HousingInventory,
    pub database: WorldDatabase,
    pub gamedata: HousingGameData,
}

/// The rows whose stored house id is `house_id`.
pub open spec fn spec_by_house_id(rows: Seq<HousingEstate>, house_id: HouseId) -> Option<HousingEstate> {
    first_match(rows, |e: HousingEstate| e.house_id == house_id.spec_to_u64() as i64)
}

/// The area is a housing area (a yard or an interior).
pub open spec fn spec_in_housing_area(intended_use: TerritoryIntendedUse) -> bool {
    intended_use == TerritoryIntendedUse::HousingIndoor || intended_use == TerritoryIntendedUse::HousingOutdoor
}

/// Whether the area is a housing area.
pub fn in_housing_area(intended_use: TerritoryIntendedUse) -> (r: bool)
    ensures
        r == spec_in_housing_area(intended_use),
{
    intended_use == TerritoryIntendedUse::HousingIndoor || intended_use == TerritoryIntendedUse::HousingOutdoor
}

/// The ward of a plot location.
pub open spec fn spec_location_context(l: OutdoorHousingLocation) -> ActiveHousingWardContext {
    ActiveHousingWardContext { territory_type_id: l.territory_type_id, ward_index: l.ward_index, division: l.division }
}

impl ZoneConnection {
    /// The inventories hold all their slots and the active estate's house
    /// id fits its packed form.
    pub open spec fn wf(&self) -> bool {
        &&& self.inventory.wf()
        &&& self.house_inventory.wf()
        &&& self.database.wf()
        &&& (self.active_housing_estate matches Some(a) ==> a.house_id.well_formed())
    }

    /// A connection with nothing selected or staged and empty inventories.
    pub fn new(
        content_id: u64,
        character_name: String,
        world_id: u16,
        zone_id: u16,
        database: WorldDatabase,
        gamedata: HousingGameData,
    ) -> (connection: ZoneConnection)
        requires
            database.wf(),
        ensures
            connection.wf(),
            connection.content_id == content_id,
            connection.character_name == character_name,
            connection.world_id == world_id,
            connection.zone_id == zone_id,
            connection.position == (Position { x_bits: 0, y_bits: 0, z_bits: 0 }),
            connection.rotation_bits == 0,
            connection.pending_housing_login_exit_plot_location is None,
            connection.active_housing_estate is None,
            connection.active_housing_ward_context is None,
            connection.display_housing_ward_context is None,
            connection.pending_housing_appearance_item_operation is None,
            !connection.pending_housing_indoor_furniture_list_tail,
            !connection.pending_housing_indoor_finish_loading,
            !connection.pending_housing_indoor_furniture_object_overlay_sync,
            connection.last_housing_preset is None,
            connection.database == database,
            connection.gamedata == gamedata,
    {
        ZoneConnection {
            content_id,
            character_name,
            world_id,
            zone_id,
            position: Position { x_bits: 0, y_bits: 0, z_bits: 0 },
            rotation_bits: 0,
            pending_housing_login_exit_plot_location: None,
            active_housing_estate: None,
            active_housing_ward_context: None,
            display_housing_ward_context: None,
            pending_housing_appearance_item_operation: None,
            pending_housing_indoor_furniture_list_tail: false,
            pending_housing_indoor_finish_loading: false,
            pending_housing_indoor_furniture_object_overlay_sync: false,
            last_housing_preset: None,
            inventory: PlayerInventory::new(),
            house_inventory: HousingInventory::new(),
            database,
            gamedata,
        }
    }

    /// The ward of the active estate's row, if both exist.
    pub open spec fn spec_active_estate_ward_context(&self) -> Option<ActiveHousingWardContext> {
        match self.active_housing_estate {
            None => None,
            Some(a) => match spec_by_house_id(self.database.estates_view(), a.house_id) {
                Some(e) => Some(spec_ward_context_from_estate(e)),
                None => None,
            },
        }
    }

    /// The ward of the active estate's row, if both exist.
    pub fn active_housing_estate_ward_context(&self) -> (context: Option<ActiveHousingWardContext>)
        requires
            self.wf(),
        ensures
            context == self.spec_active_estate_ward_context(),
    {
        let active = match &self.active_housing_estate {
            Some(a) => a,
            None => return None,
        };
        match self.database.housing_estate_by_house_id(active.house_id) {
            Some(e) => Some(active_housing_ward_context_from_estate(&e)),
            None => None,
        }
    }

    /// The ward of the current zone, main division of ward 0.
    pub open spec fn spec_default_ward_context(&self) -> ActiveHousingWardContext {
        ActiveHousingWardContext {
            territory_type_id: self.zone_id,
            ward_index: DEFAULT_LOCAL_HOUSING_WARD_INDEX,
            division: DEFAULT_LOCAL_HOUSING_DIVISION,
        }
    }

    /// The ward of the current zone, main division of ward 0.
    pub fn default_housing_ward_context(&self) -> (context: ActiveHousingWardContext)
        ensures
            context == self.spec_default_ward_context(),
    {
        ActiveHousingWardContext {
            territory_type_id: self.zone_id,
            ward_index: DEFAULT_LOCAL_HOUSING_WARD_INDEX,
            division: DEFAULT_LOCAL_HOUSING_DIVISION,
        }
    }

    /// The ward to display: the display context, else the trusted
    /// context, else the active estate's ward, else the default.
    pub open spec fn spec_display_ward_context(&self) -> ActiveHousingWardContext {
        spec_display_context(
            self.display_housing_ward_context,
            self.active_housing_ward_context,
            self.spec_active_estate_ward_context(),
            self.spec_default_ward_context(),
        )
    }

    /// The ward to display.
    pub fn display_housing_ward_context_or_default(&self) -> (context: ActiveHousingWardContext)
        requires
            self.wf(),
        ensures
            context == self.spec_display_ward_context(),
    {
        display_housing_ward_context_or_default(
            self.display_housing_ward_context,
            self.active_housing_ward_context,
            self.active_housing_estate_ward_context(),
            self.default_housing_ward_context(),
        )
    }

    /// The ward apartments are looked up in: the displayed ward when it is
    /// a residential district, else the default district's first ward.
    pub open spec fn spec_apartment_ward_context(&self) -> ActiveHousingWardContext {
        let context = self.spec_display_ward_context();
        if spec_internal_housing_row(context.territory_type_id) is Some {
            context
        } else {
            ActiveHousingWardContext {
                territory_type_id: DEFAULT_LOCAL_HOUSING_TERRITORY_TYPE_ID,
                ward_index: DEFAULT_LOCAL_HOUSING_WARD_INDEX,
                division: DEFAULT_LOCAL_HOUSING_DIVISION,
            }
        }
    }

    /// The ward apartments are looked up in.
    pub fn apartment_ward_context_or_default(&self) -> (context: ActiveHousingWardContext)
        requires
            self.wf(),
        ensures
            context == self.spec_apartment_ward_context(),
    {
        let context = self.display_housing_ward_context_or_default();
        if internal_housing_row(context.territory_type_id).is_some() {
            return context;
        }
        ActiveHousingWardContext {
            territory_type_id: DEFAULT_LOCAL_HOUSING_TERRITORY_TYPE_ID,
            ward_index: DEFAULT_LOCAL_HOUSING_WARD_INDEX,
            division: DEFAULT_LOCAL_HOUSING_DIVISION,
        }
    }

    /// The estate an area resolves to: indoors the indoor resolution with
    /// the apartment ward preferred; outdoors the default plot's house of
    /// the zone; elsewhere none.
    pub open spec fn spec_resolved_estate(&self, intended_use: TerritoryIntendedUse, zone_id: u16) -> Option<ActiveHousingEstate> {
        match intended_use {
            TerritoryIntendedUse::HousingIndoor => spec_resolve_active_indoor(
                self.database.estates_view(),
                self.active_housing_estate,
                Some(self.spec_apartment_ward_context()),
                zone_id,
                self.world_id,
                self.content_id,
            ),
            TerritoryIntendedUse::HousingOutdoor => match first_match(
                self.database.estates_view(),
                |e: HousingEstate| spec_at_location(
                    e,
                    zone_id,
                    self.world_id,
                    DEFAULT_LOCAL_HOUSING_WARD_INDEX,
                    DEFAULT_LOCAL_HOUSING_DIVISION,
                    DEFAULT_LOCAL_HOUSING_PLOT_INDEX,
                ),
            ) {
                Some(e) => Some(spec_active_housing_estate(e, false)),
                None => None,
            },
            _ => None,
        }
    }

    /// Re-resolves the active estate for an area (see
    /// `spec_resolved_estate`); nothing else changes.
    pub fn resolve_active_housing_estate(&mut self, intended_use: TerritoryIntendedUse, zone_id: u16)
        requires
            old(self).wf(),
        ensures
            final(self).wf(),
            *final(self) == (ZoneConnection {
                active_housing_estate: old(self).spec_resolved_estate(intended_use, zone_id),
                ..*old(self)
            }),
    {
        let resolved = match intended_use {
            TerritoryIntendedUse::HousingIndoor => {
                let preferred = Some(self.apartment_ward_context_or_default());
                resolve_active_indoor_housing_estate(
                    &self.database,
                    self.active_housing_estate.as_ref(),
                    preferred,
                    zone_id,
                    self.world_id,
                    self.content_id,
                )
            },
            TerritoryIntendedUse::HousingOutdoor => {
                match self.database.housing_estate_by_location(
                    zone_id,
                    self.world_id,
                    DEFAULT_LOCAL_HOUSING_WARD_INDEX,
                    DEFAULT_LOCAL_HOUSING_DIVISION,
                    DEFAULT_LOCAL_HOUSING_PLOT_INDEX,
                ) {
                    Some(e) => Some(active_housing_estate(&e, false)),
                    None => None,
                }
            },
            _ => None,
        };
        self.active_housing_estate = resolved;
    }

    /// Makes an estate's ward both the trusted and the displayed ward.
    pub fn set_active_housing_ward_context_from_estate(&mut self, estate: &HousingEstate)
        ensures
            *final(self) == (ZoneConnection {
                active_housing_ward_context: Some(spec_ward_context_from_estate(*estate)),
                display_housing_ward_context: Some(spec_ward_context_from_estate(*estate)),
                ..*old(self)
            }),
    {
        let context = active_housing_ward_context_from_estate(estate);
        self.active_housing_ward_context = Some(context);
        self.display_housing_ward_context = Some(context);
    }

    /// Makes an estate row the active estate, and its ward the trusted
    /// and displayed ward.
    pub fn set_active_housing_estate_from_row(&mut self, estate: &HousingEstate, indoors: bool)
        requires
            old(self).wf(),
        ensures
            final(self).wf(),
            *final(self) == (ZoneConnection {
                active_housing_estate: Some(spec_active_housing_estate(*estate, indoors)),
                active_housing_ward_context: Some(spec_ward_context_from_estate(*estate)),
                display_housing_ward_context: Some(spec_ward_context_from_estate(*estate)),
                ..*old(self)
            }),
    {
        self.active_housing_estate = Some(active_housing_estate(estate, indoors));
        self.set_active_housing_ward_context_from_estate(estate);
    }

    /// The estate that owner commands act on (see `spec_selected_or_owned`).
    pub fn selected_or_owned_housing_estate(&self) -> (estate: Option<HousingEstate>)
        requires
            self.wf(),
        ensures
            estate == spec_selected_or_owned(self.database.estates_view(), self.active_housing_estate, self.content_id),
    {
        selected_or_owned_housing_estate(&self.database, self.active_housing_estate.as_ref(), self.content_id)
    }

    /// The outdoor owner gate's outcome for the connection as it is.
    pub open spec fn spec_owner_gate(&self) -> Option<(ActiveHousingEstate, OutdoorHousingLocation)> {
        match self.active_housing_estate {
            None => None,
            Some(a) => spec_resolve_outdoor_owner_gate(
                self.database.estates_view(),
                self.active_housing_ward_context,
                self.world_id,
                a,
                self.content_id,
            ),
        }
    }

    /// The connection after a granted outdoor authority: the plot's ward
    /// becomes trusted and its estate active.
    pub open spec fn spec_after_outdoor_grant(&self, granted: (ActiveHousingEstate, OutdoorHousingLocation)) -> ZoneConnection {
        ZoneConnection {
            active_housing_ward_context: Some(spec_location_context(granted.1)),
            active_housing_estate: Some(granted.0),
            ..*self
        }
    }

    /// The outdoor owner gate: the active estate must be an outdoor house
    /// at a plot of the trusted ward, owned by the player. When granted,
    /// the plot's ward becomes trusted and the plot's estate active; when
    /// refused, nothing changes.
    pub fn active_housing_estate_for_outdoor_owner_gate(&mut self) -> (granted: Option<ActiveHousingEstate>)
        requires
            old(self).wf(),
        ensures
            final(self).wf(),
            match old(self).spec_owner_gate() {
                Some(g) => granted == Some(g.0) && *final(self) == old(self).spec_after_outdoor_grant(g),
                None => granted is None && *final(self) == *old(self),
            },
    {
        let active = match self.active_housing_estate {
            Some(a) => a,
            None => return None,
        };
        let resolved = resolve_active_housing_estate_for_outdoor_owner_gate(
            &self.database,
            self.active_housing_ward_context,
            self.world_id,
            &active,
            self.content_id,
        );
        let (granted, location) = match resolved {
            Some(r) => r,
            None => return None,
        };
        proof { crate::context::lemma_outdoor_grant_well_formed(self.database.estates_view(), self.active_housing_ward_context, self.world_id, active.house_id.unit.apartment_division_plot_index, self.content_id); }
        self.active_housing_ward_context = Some(ActiveHousingWardContext {
            territory_type_id: location.territory_type_id,
            ward_index: location.ward_index,
            division: location.division,
        });
        self.active_housing_estate = Some(granted);
        Some(granted)
    }

    /// Outdoor edit authority for a raw land-set entry: the plot it names
    /// in the trusted ward must hold a house owned by the player. When
    /// granted, the plot's ward becomes trusted and its estate active;
    /// when refused, nothing changes.
    pub fn active_housing_estate_for_outdoor_edit(&mut self, raw_plot_index: u8) -> (granted: Option<ActiveHousingEstate>)
        requires
            old(self).wf(),
        ensures
            final(self).wf(),
            match spec_resolve_outdoor_plot(old(self).database.estates_view(), old(self).active_housing_ward_context, old(self).world_id, raw_plot_index, old(self).content_id) {
                Some(g) => granted == Some(g.0) && *final(self) == old(self).spec_after_outdoor_grant(g),
                None => granted is None && *final(self) == *old(self),
            },
    {
        let resolved = resolve_active_housing_estate_for_outdoor_edit(
            &self.database,
            self.active_housing_ward_context,
            self.world_id,
            raw_plot_index,
            self.content_id,
        );
        let (granted, location) = match resolved {
            Some(r) => r,
            None => return None,
        };
        proof { crate::context::lemma_outdoor_grant_well_formed(self.database.estates_view(), self.active_housing_ward_context, self.world_id, raw_plot_index, self.content_id); }
        self.active_housing_ward_context = Some(ActiveHousingWardContext {
            territory_type_id: location.territory_type_id,
            ward_index: location.ward_index,
            division: location.division,
        });
        self.active_housing_estate = Some(granted);
        Some(granted)
    }

    /// The outdoor item-removal gate's outcome for the connection as it is.
    pub open spec fn spec_item_removal_gate(&self) -> Option<(ActiveHousingEstate, OutdoorHousingLocation)> {
        match self.active_housing_estate {
            None => None,
            Some(a) => match self.active_housing_ward_context {
                None => None,
                Some(c) => match spec_outdoor_location_from_raw_entry(c, a.house_id.unit.apartment_division_plot_index) {
                    None => None,
                    Some(l) => {
                        let row = first_match(
                            self.database.estates_view(),
                            |e: HousingEstate| spec_at_location(e, l.territory_type_id, self.world_id, l.ward_index, l.division, l.plot_index),
                        );
                        match spec_active_estate_for_outdoor_removal_row(Some(a), row, self.content_id) {
                            Some(g) => Some((g, l)),
                            None => None,
                        }
                    },
                },
            },
        }
    }

    /// Outdoor item-removal authority: the active outdoor house's plot in
    /// the trusted ward must hold the same estate, owned by the player.
    /// When granted, the plot's ward becomes trusted and its estate
    /// active; when refused, nothing changes.
    pub fn active_housing_estate_for_outdoor_item_removal(&mut self) -> (granted: Option<ActiveHousingEstate>)
        requires
            old(self).wf(),
        ensures
            final(self).wf(),
            match old(self).spec_item_removal_gate() {
                Some(g) => granted == Some(g.0) && *final(self) == old(self).spec_after_outdoor_grant(g),
                None => granted is None && *final(self) == *old(self),
            },
    {
        let active = match self.active_housing_estate {
            Some(a) => a,
            None => return None,
        };
        let context = match self.active_housing_ward_context {
            Some(c) => c,
            None => return None,
        };
        let location = match outdoor_housing_location_from_raw_entry(context, active.house_id.unit.apartment_division_plot_index) {
            Some(l) => l,
            None => return None,
        };
        let estate = self.database.housing_estate_by_location(
            location.territory_type_id,
            self.world_id,
            location.ward_index,
            location.division,
            location.plot_index,
        );
        let granted = match active_housing_estate_for_outdoor_removal_row(Some(&active), estate.as_ref(), self.content_id) {
            Some(g) => g,
            None => return None,
        };
        proof { crate::context::lemma_outdoor_house_id_well_formed(estate.unwrap()); }
        self.active_housing_ward_context = Some(ActiveHousingWardContext {
            territory_type_id: location.territory_type_id,
            ward_index: location.ward_index,
            division: location.division,
        });
        self.active_housing_estate = Some(granted);
        Some(granted)
    }

    /// The edit gate's outcome and the connection after it: refused
    /// outside housing areas; the outdoor owner gate in yards; indoors,
    /// the active estate (resolved first when there is none) when its row
    /// exists and the player owns it.
    pub open spec fn spec_edit_outcome(&self, intended_use: TerritoryIntendedUse) -> (Option<ActiveHousingEstate>, ZoneConnection) {
        if !spec_in_housing_area(intended_use) {
            (None, *self)
        } else if intended_use == TerritoryIntendedUse::HousingOutdoor {
            match self.spec_owner_gate() {
                Some(g) => (Some(g.0), self.spec_after_outdoor_grant(g)),
                None => (None, *self),
            }
        } else {
            let s = self.spec_after_resolve_if_missing(intended_use);
            (s.spec_indoor_edit_grant(), s)
        }
    }

    /// The connection with the active estate resolved, if it had none.
    pub open spec fn spec_after_resolve_if_missing(&self, intended_use: TerritoryIntendedUse) -> ZoneConnection {
        if self.active_housing_estate is None {
            ZoneConnection { active_housing_estate: self.spec_resolved_estate(intended_use, self.zone_id), ..*self }
        } else {
            *self
        }
    }

    /// The active estate, when its row exists and the player owns it.
    pub open spec fn spec_indoor_edit_grant(&self) -> Option<ActiveHousingEstate> {
        match self.active_housing_estate {
            None => None,
            Some(a) => match spec_by_house_id(self.database.estates_view(), a.house_id) {
                Some(e) => if spec_can_edit_housing_estate(e, self.content_id) {
                    Some(a)
                } else {
                    None
                },
                None => None,
            },
        }
    }

    /// The estate an edit in `intended_use` is authorized against (see
    /// `spec_edit_outcome`).
    pub fn active_housing_estate_for_edit(&mut self, intended_use: TerritoryIntendedUse) -> (granted: Option<ActiveHousingEstate>)
        requires
            old(self).wf(),
        ensures
            final(self).wf(),
            (granted, *final(self)) == old(self).spec_edit_outcome(intended_use),
    {
        if !in_housing_area(intended_use) {
            return None;
        }
        if intended_use == TerritoryIntendedUse::HousingOutdoor {
            return self.active_housing_estate_for_outdoor_owner_gate();
        }
        if self.active_housing_estate.is_none() {
            let zone_id = self.zone_id;
            self.resolve_active_housing_estate(intended_use, zone_id);
        }
        let active = match self.active_housing_estate {
            Some(a) => a,
            None => return None,
        };
        let estate = match self.database.housing_estate_by_house_id(active.house_id) {
            Some(e) => e,
            None => return None,
        };
        if !can_edit_housing_estate(&estate, self.content_id) {
            return None;
        }
        Some(active)
    }

    /// Whether the player may edit the estate of `intended_use`; the lookup
    /// changes the connection as `spec_edit_outcome` says.
    pub fn can_edit_active_housing_estate(&mut self, intended_use: TerritoryIntendedUse) -> (allowed: bool)
        requires
            old(self).wf(),
        ensures
            final(self).wf(),
            allowed == old(self).spec_edit_outcome(intended_use).0 is Some,
            *final(self) == old(self).spec_edit_outcome(intended_use).1,
    {
        match intended_use {
            TerritoryIntendedUse::HousingOutdoor => self.active_housing_estate_for_outdoor_owner_gate().is_some(),
            _ => self.active_housing_estate_for_edit(intended_use).is_some(),
        }
    }

    /// `after` is this connection with its player and housing slots
    /// replaced by `player` and `house`.
    pub open spec fn spec_is_with_slots(&self, after: ZoneConnection, player: Seq<Item>, house: Seq<Item>) -> bool {
        &&& after == (ZoneConnection { inventory: after.inventory, house_inventory: after.house_inventory, ..*self })
        &&& after.inventory.slots_view() == player
        &&& after.house_inventory.slots_view() == house
    }

    /// The housing slots a reload builds for the active estate: its
    /// furniture rows restored, then its fixtures shown when its row
    /// exists; `None` without an active estate.
    pub open spec fn spec_reloaded_slots(&self) -> Option<Seq<Item>> {
        match self.active_housing_estate {
            None => None,
            Some(a) => {
                let base = spec_inventory_from_rows(spec_furniture_of(self.database.furniture_view(), a.land_ident));
                Some(match spec_by_house_id(self.database.estates_view(), a.house_id) {
                    Some(e) => spec_populate_slots(base, self.gamedata.rows_view(), spec_estate_appearance_specs(e)),
                    None => base,
                })
            },
        }
    }

    /// The connection after a reload: the active estate resolved if it
    /// was missing, and the housing inventory rebuilt when there is one.
    pub open spec fn spec_reloaded(&self, intended_use: TerritoryIntendedUse, after: ZoneConnection) -> bool {
        let s = self.spec_after_resolve_if_missing(intended_use);
        match s.spec_reloaded_slots() {
            None => after == s,
            Some(h) => s.spec_is_with_slots(after, s.inventory.slots_view(), h),
        }
    }

    /// Rebuilds the housing inventory of the active estate (resolving it
    /// first when missing) from its furniture rows and fixtures.
    pub fn reload_active_housing_inventory(&mut self, intended_use: TerritoryIntendedUse)
        requires
            old(self).wf(),
        ensures
            final(self).wf(),
            old(self).spec_reloaded(intended_use, *final(self)),
    {
        if self.active_housing_estate.is_none() {
            let zone_id = self.zone_id;
            self.resolve_active_housing_estate(intended_use, zone_id);
        }
        let active = match self.active_housing_estate {
            Some(a) => a,
            None => return,
        };
        let rows = self.database.list_all_housing_furniture(active.land_ident);
        let estate = self.database.housing_estate_by_house_id(active.house_id);
        let mut house_inventory = housing_inventory_from_rows(&rows);
        match &estate {
            Some(e) => populate_housing_appearance_inventory(&mut house_inventory, &self.gamedata, e),
            None => {},
        }
        self.house_inventory = house_inventory;
    }

    /// The item in a player bag slot, else in a housing slot.
    pub open spec fn spec_player_or_housing_item(&self, container: ContainerType, slot: u16) -> Option<Item> {
        match self.inventory.spec_get(container, slot) {
            Some(i) => Some(i),
            None => self.house_inventory.spec_get(container, slot),
        }
    }

    /// The item in a player bag slot, else in a housing slot.
    pub fn get_player_or_housing_item(&self, container: ContainerType, slot: u16) -> (item: Option<Item>)
        requires
            self.wf(),
        ensures
            item == self.spec_player_or_housing_item(container, slot),
    {
        match self.inventory.get_item(container, slot) {
            Some(i) => Some(i),
            None => self.house_inventory.get_item(container, slot),
        }
    }

    /// Writes an item into a player bag slot if the bags have it, else
    /// into a housing slot if the housing inventory has it; false (and no
    /// change) when neither has the slot.
    pub fn set_player_or_housing_item(&mut self, container: ContainerType, slot: u16, item: Item) -> (written: bool)
        requires
            old(self).wf(),
        ensures
            final(self).wf(),
            written == spec_slot_exists(old(self).inventory.slots_view(), old(self).house_inventory.slots_view(), container, slot),
            old(self).spec_is_with_slots(
                *final(self),
                spec_write_slot(old(self).inventory.slots_view(), old(self).house_inventory.slots_view(), container, slot, item).0,
                spec_write_slot(old(self).inventory.slots_view(), old(self).house_inventory.slots_view(), container, slot, item).1,
            ),
    {
        if self.inventory.get_item(container, slot).is_some() {
            self.inventory.set_item(container, slot, item);
            return true;
        }
        if self.house_inventory.get_item(container, slot).is_some() {
            self.house_inventory.set_item(container, slot, item);
            return true;
        }
        false
    }

    /// The appearance slot a staged fixture goes to, with the connection
    /// after the edit gate: the area's appearance container and the
    /// target slot for the item's category (apartments known from the
    /// active estate's row).
    pub open spec fn spec_appearance_target(
        &self,
        item_ui_category: u8,
        intended_use: TerritoryIntendedUse,
        marker_target_slot: Option<u16>,
    ) -> (Option<(ContainerType, u16)>, ZoneConnection) {
        let (granted, s) = self.spec_edit_outcome(intended_use);
        match granted {
            None => (None, s),
            Some(a) => {
                let is_apartment = intended_use == TerritoryIntendedUse::HousingIndoor
                    && (spec_by_house_id(s.database.estates_view(), a.house_id) matches Some(e) && e.is_apartment);
                let container = match intended_use {
                    TerritoryIntendedUse::HousingIndoor => Some(ContainerType::HousingInteriorAppearance),
                    TerritoryIntendedUse::HousingOutdoor => Some(ContainerType::HousingExteriorAppearance),
                    _ => None,
                };
                match container {
                    None => (None, s),
                    Some(c) => match spec_target_slot(item_ui_category, intended_use, is_apartment, marker_target_slot) {
                        Some(t) => (Some((c, t)), s),
                        None => (None, s),
                    },
                }
            },
        }
    }

    fn housing_appearance_target(
        &mut self,
        item_ui_category: u8,
        intended_use: TerritoryIntendedUse,
        marker_target_slot: Option<u16>,
    ) -> (target: Option<(ContainerType, u16)>)
        requires
            old(self).wf(),
        ensures
            final(self).wf(),
            (target, *final(self)) == old(self).spec_appearance_target(item_ui_category, intended_use, marker_target_slot),
    {
        let granted = if intended_use == TerritoryIntendedUse::HousingOutdoor {
            self.active_housing_estate_for_outdoor_owner_gate()
        } else {
            self.active_housing_estate_for_edit(intended_use)
        };
        let active = match granted {
            Some(a) => a,
            None => return None,
        };
        let is_apartment = if intended_use == TerritoryIntendedUse::HousingIndoor {
            match self.database.housing_estate_by_house_id(active.house_id) {
                Some(e) => e.is_apartment,
                None => false,
            }
        } else {
            false
        };
        let target_container = match intended_use {
            TerritoryIntendedUse::HousingIndoor => ContainerType::HousingInteriorAppearance,
            TerritoryIntendedUse::HousingOutdoor => ContainerType::HousingExteriorAppearance,
            _ => return None,
        };
        match housing_appearance_target_slot(item_ui_category, intended_use, is_apartment, marker_target_slot) {
            Some(t) => Some((target_container, t)),
            None => None,
        }
    }

    /// The connection after a staging marker: with a usable marker in a
    /// housing area the player may edit, a non-empty bag slot holding an
    /// appearance fixture and a target slot for it, the swap is staged;
    /// the gates change the connection as they do.
    pub open spec fn spec_after_marker(&self, action: HousingItemOperation, intended_use: TerritoryIntendedUse) -> ZoneConnection {
        match spec_housing_item_operation_hint(action.raw@) {
            None => *self,
            Some(h) => if !spec_in_housing_area(intended_use) {
                *self
            } else {
                let (g, s1) = self.spec_edit_outcome(intended_use);
                if g is None {
                    s1
                } else {
                    match s1.inventory.spec_get(h.source_container, h.source_slot) {
                        None => s1,
                        Some(item) => if item.spec_is_empty_slot() {
                            s1
                        } else {
                            match spec_appearance_item_data(s1.gamedata.rows_view(), item) {
                                None => s1,
                                Some(d) => {
                                    let (target, s2) = s1.spec_appearance_target(d.1, intended_use, Some(h.target_appearance_slot));
                                    match target {
                                        None => s2,
                                        Some(t) => ZoneConnection {
                                            pending_housing_appearance_item_operation: Some(PendingHousingAppearanceItemOperation {
                                                source_container: h.source_container,
                                                source_slot: h.source_slot,
                                                target_container: t.0,
                                                target_slot: t.1,
                                            }),
                                            ..s2
                                        },
                                    }
                                },
                            }
                        },
                    }
                }
            },
        }
    }

    /// Stages the fixture swap that a marker names (see
    /// `spec_after_marker`); always handled.
    pub fn record_housing_appearance_item_operation_marker(
        &mut self,
        action: &HousingItemOperation,
        intended_use: TerritoryIntendedUse,
    ) -> (handled: bool)
        requires
            old(self).wf(),
        ensures
            final(self).wf(),
            handled,
            *final(self) == old(self).spec_after_marker(*action, intended_use),
    {
        let hint = match housing_item_operation_hint(action) {
            Some(h) => h,
            None => return true,
        };
        if !in_housing_area(intended_use) || !self.can_edit_active_housing_estate(intended_use) {
            return true;
        }
        let source_item = match self.inventory.get_item(hint.source_container, hint.source_slot) {
            Some(i) => i,
            None => return true,
        };
        if source_item.is_empty_slot() {
            return true;
        }
        let category = match housing_appearance_item_data(&self.gamedata, source_item) {
            Some((_, c)) => c,
            None => return true,
        };
        let target = self.housing_appearance_target(category, intended_use, Some(hint.target_appearance_slot));
        let (target_container, target_slot) = match target {
            Some(t) => t,
            None => return true,
        };
        self.pending_housing_appearance_item_operation = Some(PendingHousingAppearanceItemOperation {
            source_container: hint.source_container,
            source_slot: hint.source_slot,
            target_container,
            target_slot,
        });
        true
    }

    /// Drops the staged swap.
    pub fn clear_pending_housing_appearance_item_operation(&mut self)
        ensures
            *final(self) == (ZoneConnection { pending_housing_appearance_item_operation: None, ..*old(self) }),
    {
        self.pending_housing_appearance_item_operation = None;
    }

    /// Whether finishing the indoor load waits: only indoors, while the
    /// tail of the furniture lists is held back.
    pub fn should_defer_housing_indoor_finish_loading(&self, intended_use: TerritoryIntendedUse) -> (defer: bool)
        ensures
            defer == (intended_use == TerritoryIntendedUse::HousingIndoor && self.pending_housing_indoor_furniture_list_tail),
    {
        intended_use == TerritoryIntendedUse::HousingIndoor && self.pending_housing_indoor_furniture_list_tail
    }

    /// Whether an item fits an appearance slot: its fixture category is
    /// the slot's category (interior or exterior by the container).
    pub fn housing_appearance_item_matches_target_slot(&self, item: Item, target_container: ContainerType, target_slot: u16) -> (fits: bool)
        ensures
            fits == spec_item_fits_appearance_slot(self.gamedata.rows_view(), item, target_container, target_slot),
    {
        let expected = match target_container {
            ContainerType::HousingInteriorAppearance | ContainerType::HousingInteriorAppearanceEdit => housing_interior_item_ui_category_for_slot(target_slot),
            ContainerType::HousingExteriorAppearance | ContainerType::HousingExteriorAppearanceEdit => housing_exterior_item_ui_category_for_slot(target_slot),
            _ => None,
        };
        let expected = match expected {
            Some(c) => c,
            None => return false,
        };
        match housing_appearance_item_data(&self.gamedata, item) {
            Some((_, category)) => category == expected,
            None => false,
        }
    }

    /// The outcome of applying the staged swap: the stage is always
    /// dropped; the swap happens only for a target of this area, through
    /// the edit gate, with a non-empty source whose category fits the
    /// target slot; it then exchanges the two items.
    pub open spec fn spec_applied(&self, intended_use: TerritoryIntendedUse, after: ZoneConnection, applied: Option<AppliedHousingAppearanceItemOperation>) -> bool {
        match self.pending_housing_appearance_item_operation {
            None => applied is None && after == *self,
            Some(op) => {
                let s0 = ZoneConnection { pending_housing_appearance_item_operation: None, ..*self };
                if spec_appearance_container_intended_use(op.target_container) != Some(intended_use) || !spec_in_housing_area(intended_use) {
                    applied is None && after == s0
                } else {
                    let (g, s1) = s0.spec_edit_outcome(intended_use);
                    if g is None {
                        applied is None && after == s1
                    } else {
                        match (s1.inventory.spec_get(op.source_container, op.source_slot), s1.house_inventory.spec_get(op.target_container, op.target_slot)) {
                            (Some(src), Some(tgt)) => if src.spec_is_empty_slot() || !spec_item_fits_appearance_slot(s1.gamedata.rows_view(), src, op.target_container, op.target_slot) {
                                applied is None && after == s1
                            } else {
                                let p0 = s1.inventory.slots_view();
                                let h0 = s1.house_inventory.slots_view();
                                let w1 = spec_write_slot(p0, h0, op.source_container, op.source_slot, tgt);
                                let w2 = spec_write_slot(w1.0, w1.1, op.target_container, op.target_slot, src);
                                if !spec_slot_exists(w1.0, w1.1, op.target_container, op.target_slot) {
                                    applied is None && s1.spec_is_with_slots(after, w1.0, w1.1)
                                } else {
                                    &&& applied == Some(AppliedHousingAppearanceItemOperation {
                                        source_container: op.source_container,
                                        source_slot: op.source_slot,
                                        target_container: op.target_container,
                                        target_slot: op.target_slot,
                                        original_source_item: src,
                                        original_target_item: tgt,
                                    })
                                    &&& s1.spec_is_with_slots(after, w2.0, w2.1)
                                }
                            },
                            _ => applied is None && after == s1,
                        }
                    }
                }
            },
        }
    }

    /// Applies the staged fixture swap (see `spec_applied`).
    pub fn apply_pending_housing_appearance_item_operation(&mut self, intended_use: TerritoryIntendedUse) -> (applied: Option<AppliedHousingAppearanceItemOperation>)
        requires
            old(self).wf(),
        ensures
            final(self).wf(),
            old(self).spec_applied(intended_use, *final(self), applied),
    {
        let operation = match self.pending_housing_appearance_item_operation {
            Some(op) => op,
            None => return None,
        };
        self.pending_housing_appearance_item_operation = None;
        let target_use = housing_appearance_container_intended_use(operation.target_container);
        let matches_area = match target_use {
            Some(u) => u == intended_use,
            None => false,
        };
        if !matches_area || !in_housing_area(intended_use) || !self.can_edit_active_housing_estate(intended_use) {
            return None;
        }
        let original_source_item = match self.inventory.get_item(operation.source_container, operation.source_slot) {
            Some(i) => i,
            None => return None,
        };
        let original_target_item = match self.house_inventory.get_item(operation.target_container, operation.target_slot) {
            Some(i) => i,
            None => return None,
        };
        if original_source_item.is_empty_slot() {
            return None;
        }
        if !self.housing_appearance_item_matches_target_slot(original_source_item, operation.target_container, operation.target_slot) {
            return None;
        }
        if !self.set_player_or_housing_item(operation.source_container, operation.source_slot, original_target_item) {
            return None;
        }
        if !self.set_player_or_housing_item(operation.target_container, operation.target_slot, original_source_item) {
            return None;
        }
        Some(AppliedHousingAppearanceItemOperation {
            source_container: operation.source_container,
            source_slot: operation.source_slot,
            target_container: operation.target_container,
            target_slot: operation.target_slot,
            original_source_item,
            original_target_item,
        })
    }

    /// Puts back the items that an applied swap replaced, source first.
    pub fn rollback_housing_appearance_item_operation(&mut self, operation: AppliedHousingAppearanceItemOperation)
        requires
            old(self).wf(),
        ensures
            final(self).wf(),
            ({
                let w1 = spec_write_slot(old(self).inventory.slots_view(), old(self).house_inventory.slots_view(), operation.source_container, operation.source_slot, operation.original_source_item);
                let w2 = spec_write_slot(w1.0, w1.1, operation.target_container, operation.target_slot, operation.original_target_item);
                old(self).spec_is_with_slots(*final(self), w2.0, w2.1)
            }),
    {
        let _ = self.set_player_or_housing_item(operation.source_container, operation.source_slot, operation.original_source_item);
        let _ = self.set_player_or_housing_item(operation.target_container, operation.target_slot, operation.original_target_item);
    }

    /// The outcome of storing or dropping the staged appearance: dropping
    /// reloads the inventory and succeeds; storing passes the edit gate,
    /// needs the estate's row, writes the record that the appearance slots
    /// describe (refused over a malformed record) and reloads when a row
    /// was written.
    pub open spec fn spec_remodeled(&self, apply: bool, intended_use: TerritoryIntendedUse, after: ZoneConnection, stored: bool) -> bool {
        if !apply {
            stored && self.spec_reloaded(intended_use, after)
        } else {
            let (g, s1) = self.spec_edit_outcome(intended_use);
            match g {
                None => !stored && after == s1,
                Some(a) => match spec_by_house_id(s1.database.estates_view(), a.house_id) {
                    None => !stored && after == s1,
                    Some(estate) => {
                        let rows = s1.gamedata.rows_view();
                        let s2 = ZoneConnection { database: after.database, ..s1 };
                        match intended_use {
                            TerritoryIntendedUse::HousingIndoor => match spec_interior_record_from_items(
                                estate.interior_json,
                                rows,
                                s1.house_inventory.spec_occupied(ContainerType::HousingInteriorAppearance),
                            ) {
                                None => !stored && after == s1,
                                Some(json) => {
                                    &&& stored == spec_has_land(s1.database.estates_view(), a.land_ident)
                                    &&& after.database.estates_view() == spec_update_estates(
                                        s1.database.estates_view(),
                                        a.land_ident,
                                        |e: HousingEstate| HousingEstate { interior_json: json, ..e },
                                    )
                                    &&& after.database.furniture_view() == s1.database.furniture_view()
                                    &&& if stored { s2.spec_reloaded(intended_use, after) } else { after == s2 }
                                },
                            },
                            TerritoryIntendedUse::HousingOutdoor => match spec_exterior_record_from_items(
                                estate.exterior_json,
                                rows,
                                s1.house_inventory.spec_occupied(ContainerType::HousingExteriorAppearance),
                            ) {
                                None => !stored && after == s1,
                                Some(json) => {
                                    &&& stored == spec_has_land(s1.database.estates_view(), a.land_ident)
                                    &&& after.database.estates_view() == spec_update_estates(
                                        s1.database.estates_view(),
                                        a.land_ident,
                                        |e: HousingEstate| HousingEstate { exterior_json: json, ..e },
                                    )
                                    &&& after.database.furniture_view() == s1.database.furniture_view()
                                    &&& if stored { s2.spec_reloaded(intended_use, after) } else { after == s2 }
                                },
                            },
                            _ => !stored && after == s1,
                        }
                    },
                },
            }
        }
    }

    /// Stores (or, for `apply == false`, drops) the staged appearance of
    /// the active estate (see `spec_remodeled`).
    pub fn persist_housing_appearance_remodel(&mut self, apply: bool, intended_use: TerritoryIntendedUse) -> (stored: bool)
        requires
            old(self).wf(),
        ensures
            final(self).wf(),
            old(self).spec_remodeled(apply, intended_use, *final(self), stored),
    {
        if !apply {
            self.reload_active_housing_inventory(intended_use);
            return true;
        }
        let granted = if intended_use == TerritoryIntendedUse::HousingOutdoor {
            self.active_housing_estate_for_outdoor_owner_gate()
        } else {
            self.active_housing_estate_for_edit(intended_use)
        };
        let active = match granted {
            Some(a) => a,
            None => return false,
        };
        proof { lemma_granted_well_formed(*old(self), intended_use); }
        let estate = match self.database.housing_estate_by_house_id(active.house_id) {
            Some(e) => e,
            None => return false,
        };
        let ghost s1 = *self;
        let updated = match intended_use {
            TerritoryIntendedUse::HousingIndoor => {
                let items = self.house_inventory.occupied_slots(ContainerType::HousingInteriorAppearance);
                let json = match interior_json_from_appearance(&estate.interior_json, &self.gamedata, &items) {
                    Some(j) => j,
                    None => return false,
                };
                self.database.update_housing_interior_json(active.land_ident, json)
            },
            TerritoryIntendedUse::HousingOutdoor => {
                let items = self.house_inventory.occupied_slots(ContainerType::HousingExteriorAppearance);
                let json = match exterior_json_from_appearance(&estate.exterior_json, &self.gamedata, &items) {
                    Some(j) => j,
                    None => return false,
                };
                self.database.update_housing_exterior_json(active.land_ident, json)
            },
            _ => false,
        };
        if updated {
            self.reload_active_housing_inventory(intended_use);
        }
        updated
    }

    /// The outdoor edit gate's outcome for a raw land-set entry.
    pub open spec fn spec_outdoor_edit_outcome(&self, raw_plot_index: u8) -> (Option<ActiveHousingEstate>, ZoneConnection) {
        match spec_resolve_outdoor_plot(self.database.estates_view(), self.active_housing_ward_context, self.world_id, raw_plot_index, self.content_id) {
            Some(g) => (Some(g.0), self.spec_after_outdoor_grant(g)),
            None => (None, *self),
        }
    }

    /// The outcome of moving placed furniture: the object slot must name
    /// a placed slot of the area, the authorization (the edit gate indoors, the
    /// packet's plot outdoors) must grant the packet's house, and a stored
    /// row must stand in that slot; the rows there take the new position
    /// and rotation.
    pub open spec fn spec_translated(
        &self,
        house_id: HouseId,
        flat_slot: u16,
        position: Position,
        rotation_bits: u32,
        intended_use: TerritoryIntendedUse,
        after: ZoneConnection,
        persisted: Option<PersistedFurnitureTranslation>,
    ) -> bool {
        let indoors = intended_use == TerritoryIntendedUse::HousingIndoor;
        match spec_placed_container_for_flat_slot(flat_slot, indoors) {
            None => persisted is None && after == *self,
            Some(location) => {
                let (g, s1) = if indoors {
                    self.spec_edit_outcome(intended_use)
                } else {
                    self.spec_outdoor_edit_outcome(house_id.unit.apartment_division_plot_index)
                };
                match g {
                    None => persisted is None && after == s1,
                    Some(a) => if a.house_id != house_id {
                        persisted is None && after == s1
                    } else {
                        let found = spec_has_furniture_at(s1.database.furniture_view(), a.land_ident, location.0, location.1);
                        &&& after == (ZoneConnection { database: after.database, ..s1 })
                        &&& after.database.estates_view() == s1.database.estates_view()
                        &&& after.database.furniture_view() == spec_reposition_rows(
                            s1.database.furniture_view(),
                            a.land_ident,
                            location.0,
                            location.1,
                            position,
                            rotation_bits,
                        )
                        &&& persisted == if found {
                            Some(PersistedFurnitureTranslation {
                                storage_id: location.0,
                                container_slot: location.1,
                                plot_number: if !house_id.unit.apartment_flag {
                                    house_id.unit.apartment_division_plot_index as u16
                                } else {
                                    0
                                },
                                object_key: HousingFurnitureObjectKey {
                                    slot: flat_slot,
                                    indoors,
                                    ward_index: if indoors { 0 } else { house_id.ward_index },
                                    plot_index: house_id.unit.apartment_division_plot_index,
                                },
                            })
                        } else {
                            None
                        }
                    },
                }
            },
        }
    }

    /// Stores a furniture move of the active estate (see
    /// `spec_translated`).
    pub fn persist_furniture_translation(
        &mut self,
        house_id: HouseId,
        flat_slot: u16,
        position: Position,
        rotation_bits: u32,
        intended_use: TerritoryIntendedUse,
    ) -> (persisted: Option<PersistedFurnitureTranslation>)
        requires
            old(self).wf(),
        ensures
            final(self).wf(),
            old(self).spec_translated(house_id, flat_slot, position, rotation_bits, intended_use, *final(self), persisted),
    {
        let indoors = intended_use == TerritoryIntendedUse::HousingIndoor;
        let (storage_id, container_slot) = match placed_container_for_flat_slot(flat_slot, indoors) {
            Some(l) => l,
            None => return None,
        };
        let granted = if indoors {
            self.active_housing_estate_for_edit(intended_use)
        } else {
            self.active_housing_estate_for_outdoor_edit(house_id.unit.apartment_division_plot_index)
        };
        let active = match granted {
            Some(a) => a,
            None => return None,
        };
        if active.house_id != house_id {
            return None;
        }
        let updated = self.database.update_housing_furniture_position(active.land_ident, storage_id, container_slot, position, rotation_bits);
        if !updated {
            return None;
        }
        Some(PersistedFurnitureTranslation {
            storage_id,
            container_slot,
            plot_number: if !house_id.unit.apartment_flag {
                house_id.unit.apartment_division_plot_index as u16
            } else {
                0
            },
            object_key: HousingFurnitureObjectKey {
                slot: flat_slot,
                indoors,
                ward_index: if indoors { 0 } else { house_id.ward_index },
                plot_index: house_id.unit.apartment_division_plot_index,
            },
        })
    }
}

/// An item fits an appearance slot when its fixture category is the
/// slot's category.
pub open spec fn spec_item_fits_appearance_slot(rows: Seq<HousingItemRow>, item: Item, container: ContainerType, slot: u16) -> bool {
    let expected = match container {
        ContainerType::HousingInteriorAppearance | ContainerType::HousingInteriorAppearanceEdit => spec_interior_category_for_slot(slot),
        ContainerType::HousingExteriorAppearance | ContainerType::HousingExteriorAppearanceEdit => spec_exterior_category_for_slot(slot),
        _ => None,
    };
    match expected {
        None => false,
        Some(c) => match spec_appearance_item_data(rows, item) {
            Some(d) => d.1 == c,
            None => false,
        },
    }
}

/// A granted edit carries a house id that fits its packed form.
proof fn lemma_granted_well_formed(connection: ZoneConnection, intended_use: TerritoryIntendedUse)
    requires
        connection.wf(),
    ensures
        connection.spec_edit_outcome(intended_use).0 matches Some(a) ==> a.house_id.well_formed(),
        connection.spec_edit_outcome(intended_use).1.wf(),
{
    crate::context::lemma_outdoor_grant_well_formed(
        connection.database.estates_view(),
        connection.active_housing_ward_context,
        connection.world_id,
        match connection.active_housing_estate { Some(a) => a.house_id.unit.apartment_division_plot_index, None => 0 },
        connection.content_id,
    );
    crate::context::lemma_resolved_indoor_well_formed(
        connection.database.estates_view(),
        connection.active_housing_estate,
        Some(connection.spec_apartment_ward_context()),
        connection.zone_id,
        connection.world_id,
        connection.content_id,
    );
}

/// A slot exists in the player bags or the housing inventory.
pub open spec fn spec_slot_exists(player: Seq<Item>, house: Seq<Item>, container: ContainerType, slot: u16) -> bool {
    spec_store_get(StoreKind::Player, player, container, slot) is Some || spec_store_get(StoreKind::Housing, house, container, slot) is Some
}

/// The player and housing slots after writing an item: into the bags
/// when they have the slot, else into the housing inventory when it has
/// it, else nowhere.
pub open spec fn spec_write_slot(player: Seq<Item>, house: Seq<Item>, container: ContainerType, slot: u16, item: Item) -> (Seq<Item>, Seq<Item>) {
    if spec_store_get(StoreKind::Player, player, container, slot) is Some {
        (spec_store_set(StoreKind::Player, player, container, slot, item), house)
    } else if spec_store_get(StoreKind::Housing, house, container, slot) is Some {
        (player, spec_store_set(StoreKind::Housing, house, container, slot, item))
    } else {
        (player, house)
    }
}

} // verus!
