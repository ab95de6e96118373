//! Housing commands that write fixtures and presets: stocking kits, one
//! fixture or color at a time, and applying a ReMakePlace preset to an
//! estate (furniture replaced, then interior fixtures and style stored).
use vstd::prelude::*;

use crate::common::{PlotSize, spec_plot_size_from_repr};
use crate::context::clear_housing_reset_cache;
use crate::database::{
    HousingEstate, HousingFurniture, WorldDatabase, spec_has_land, spec_replaced_row, spec_update_estates,
};
use crate::fixture_json::{
    HouseInteriorJson, HousingExteriorColorField, HousingExteriorField, HousingInteriorField, HousingJson,
    spec_exterior_with_color, spec_exterior_with_field, spec_interior_with_field, update_exterior_json_color,
    update_exterior_json_field, update_interior_json_field, update_interior_json_renovation_row_id,
};
use crate::inventory::empty_item;
use crate::remake_place::{
    RemakePlaceImportRows, RemakePlaceInteriorFixtureUpdates, RemakePlaceLayout, build_remake_place_furniture_rows,
    build_remake_place_interior_fixture_updates, spec_fixture_tally, spec_import_tallies, spec_is_fixture_updates_of,
    spec_is_import_rows_of, FixtureTally,
};
use crate::seq_util::keep;
use crate::state::HousingPresetScope;
use crate::zone_connection::ZoneConnection;

verus! {

/// The item sets that a housing command hands out.
#[derive(Debug, Clone, Copy, PartialEq, Eq, Structural)]
pub enum HousingKit {
    Indoor,
    Outdoor,
    Npc,
}

/// The items of a kit.
pub open spec fn spec_housing_kit_items(kit: HousingKit) -> Seq<u32> {
    match kit {
        HousingKit::Indoor => seq![6514u32, 6607, 6635, 6657, 6674, 6578, 7064],
        HousingKit::Outdoor => seq![6475u32, 6484, 6486, 6490, 7128, 7118, 12113],
        HousingKit::Npc => seq![7064u32, 23846, 9748, 9749],
    }
}

/// The items of a kit, in the order they are handed out.
pub fn housing_kit_items(kit: HousingKit) -> (items: Vec<u32>)
    ensures
        items@ == spec_housing_kit_items(kit),
{
    let items = match kit {
        HousingKit::Indoor => vec![6514u32, 6607, 6635, 6657, 6674, 6578, 7064],
        HousingKit::Outdoor => vec![6475u32, 6484, 6486, 6490, 7128, 7118, 12113],
        HousingKit::Npc => vec![7064u32, 23846, 9748, 9749],
    };
    assert(items@ =~= spec_housing_kit_items(kit));
    items
}

/// The word that names a preset scope in messages.
pub fn housing_preset_scope_label(scope: HousingPresetScope) -> (label: &'static str)
    ensures
        scope == HousingPresetScope::All ==> label@ == "all"@,
        scope == HousingPresetScope::Interior ==> label@ == "interior"@,
        scope == HousingPresetScope::Exterior ==> label@ == "exterior"@,
{
    match scope {
        HousingPresetScope::All => "all",
        HousingPresetScope::Interior => "interior",
        HousingPresetScope::Exterior => "exterior",
    }
}

/// How a single fixture write ended.
#[derive(Debug, Clone, Copy, PartialEq, Eq, Structural)]
pub enum HousingFixtureUpdateResult {
    Updated,
    MissingEstate,
    InvalidStoredJson,
}

/// The outcome of a fixture write: refused without a write when the stored
/// record is malformed, else stored on the estate's rows, and missing when
/// no row has the estate's land.
pub open spec fn spec_fixture_write_result(valid: bool, rows: Seq<HousingEstate>, land_ident: i64) -> HousingFixtureUpdateResult {
    if !valid {
        HousingFixtureUpdateResult::InvalidStoredJson
    } else if spec_has_land(rows, land_ident) {
        HousingFixtureUpdateResult::Updated
    } else {
        HousingFixtureUpdateResult::MissingEstate
    }
}

/// Sets one exterior part of `estate` from its stored record and stores
/// the record; a malformed stored record is left as it is.
pub fn apply_housing_exterior_fixture_update(
    database: &mut WorldDatabase,
    estate: &HousingEstate,
    field: HousingExteriorField,
    value: u16,
) -> (result: HousingFixtureUpdateResult)
    requires
        old(database).wf(),
    ensures
        final(database).wf(),
        result == spec_fixture_write_result(estate.exterior_json is Valid, old(database).estates_view(), estate.land_ident),
        final(database).furniture_view() == old(database).furniture_view(),
        match estate.exterior_json {
            HousingJson::Valid(j) => final(database).estates_view() == spec_update_estates(
                old(database).estates_view(),
                estate.land_ident,
                |e: HousingEstate| HousingEstate { exterior_json: HousingJson::Valid(spec_exterior_with_field(j, field, value)), ..e },
            ),
            HousingJson::Malformed(_) => final(database).estates_view() == old(database).estates_view(),
        },
{
    match update_exterior_json_field(&estate.exterior_json, field, value) {
        Ok(exterior_json) => {
            if database.update_housing_exterior_json(estate.land_ident, HousingJson::Valid(exterior_json)) {
                HousingFixtureUpdateResult::Updated
            } else {
                HousingFixtureUpdateResult::MissingEstate
            }
        },
        Err(_) => HousingFixtureUpdateResult::InvalidStoredJson,
    }
}

/// Sets one exterior color of `estate` from its stored record and stores
/// the record; a malformed stored record is left as it is.
pub fn apply_housing_exterior_color_update(
    database: &mut WorldDatabase,
    estate: &HousingEstate,
    field: HousingExteriorColorField,
    value: u8,
) -> (result: HousingFixtureUpdateResult)
    requires
        old(database).wf(),
    ensures
        final(database).wf(),
        result == spec_fixture_write_result(estate.exterior_json is Valid, old(database).estates_view(), estate.land_ident),
        final(database).furniture_view() == old(database).furniture_view(),
        match estate.exterior_json {
            HousingJson::Valid(j) => final(database).estates_view() == spec_update_estates(
                old(database).estates_view(),
                estate.land_ident,
                |e: HousingEstate| HousingEstate { exterior_json: HousingJson::Valid(spec_exterior_with_color(j, field, value)), ..e },
            ),
            HousingJson::Malformed(_) => final(database).estates_view() == old(database).estates_view(),
        },
{
    match update_exterior_json_color(&estate.exterior_json, field, value) {
        Ok(exterior_json) => {
            if database.update_housing_exterior_json(estate.land_ident, HousingJson::Valid(exterior_json)) {
                HousingFixtureUpdateResult::Updated
            } else {
                HousingFixtureUpdateResult::MissingEstate
            }
        },
        Err(_) => HousingFixtureUpdateResult::InvalidStoredJson,
    }
}

/// Sets one interior fixture of `estate` from its stored record and stores
/// the record; a malformed stored record is left as it is.
pub fn apply_housing_interior_fixture_update(
    database: &mut WorldDatabase,
    estate: &HousingEstate,
    field: HousingInteriorField,
    value: u32,
) -> (result: HousingFixtureUpdateResult)
    requires
        old(database).wf(),
    ensures
        final(database).wf(),
        result == spec_fixture_write_result(estate.interior_json is Valid, old(database).estates_view(), estate.land_ident),
        final(database).furniture_view() == old(database).furniture_view(),
        match estate.interior_json {
            HousingJson::Valid(j) => final(database).estates_view() == spec_update_estates(
                old(database).estates_view(),
                estate.land_ident,
                |e: HousingEstate| HousingEstate { interior_json: HousingJson::Valid(spec_interior_with_field(j, field, value)), ..e },
            ),
            HousingJson::Malformed(_) => final(database).estates_view() == old(database).estates_view(),
        },
{
    match update_interior_json_field(&estate.interior_json, field, value) {
        Ok(interior_json) => {
            if database.update_housing_interior_json(estate.land_ident, HousingJson::Valid(interior_json)) {
                HousingFixtureUpdateResult::Updated
            } else {
                HousingFixtureUpdateResult::MissingEstate
            }
        },
        Err(_) => HousingFixtureUpdateResult::InvalidStoredJson,
    }
}

/// Why storing a preset's interior fixtures failed (its furniture is
/// replaced by then).
#[derive(Debug, Clone, Copy, PartialEq, Eq, Structural)]
pub enum RemakePlaceApplyError {
    /// The stored interior record is malformed and the preset sets a style.
    InteriorStyle,
    /// The stored interior record is malformed; the first fixture it sets.
    InteriorFixture(HousingInteriorField),
    /// No estate row has the estate's land.
    PersistInterior,
}

/// The interior record after a preset's fixture updates, in order.
pub open spec fn spec_apply_fixture_updates(j: HouseInteriorJson, updates: Seq<(HousingInteriorField, u32)>) -> HouseInteriorJson
    decreases updates.len(),
{
    if updates.len() == 0 {
        j
    } else {
        let last = updates.last();
        spec_interior_with_field(spec_apply_fixture_updates(j, updates.drop_last()), last.0, last.1)
    }
}

/// The interior record after a preset: its style, then its fixtures.
pub open spec fn spec_preset_interior(
    j: HouseInteriorJson,
    renovation_row_id: Option<u16>,
    updates: Seq<(HousingInteriorField, u32)>,
) -> HouseInteriorJson {
    let styled = match renovation_row_id {
        Some(r) => HouseInteriorJson { renovation_row_id: Some(r), ..j },
        None => j,
    };
    spec_apply_fixture_updates(styled, updates)
}

/// A preset writes the interior record: its scope covers the interior and
/// it sets a style or a fixture.
pub open spec fn spec_preset_touches_interior(
    scope: HousingPresetScope,
    renovation_row_id: Option<u16>,
    updates: Seq<(HousingInteriorField, u32)>,
) -> bool {
    scope.spec_includes_interior() && (renovation_row_id is Some || updates.len() > 0)
}

/// The error of a preset whose interior write is refused on a malformed
/// stored record: the style when it sets one, else its first fixture.
pub open spec fn spec_malformed_interior_error(
    renovation_row_id: Option<u16>,
    updates: Seq<(HousingInteriorField, u32)>,
) -> RemakePlaceApplyError {
    if renovation_row_id is Some {
        RemakePlaceApplyError::InteriorStyle
    } else {
        RemakePlaceApplyError::InteriorFixture(updates[0].0)
    }
}

/// The tables after a preset is stored on `estate`, and the answer: the
/// placed rows of the scope's areas are replaced by `rows`; then, when the
/// preset writes the interior, the interior record is refused if malformed,
/// else stored with the preset's style and fixtures, and missing when no
/// row has the estate's land. The answer counts the replaced rows.
#[verifier::opaque]
pub open spec fn spec_preset_stored(
    old_estates: Seq<HousingEstate>,
    old_furniture: Seq<HousingFurniture>,
    estate: HousingEstate,
    scope: HousingPresetScope,
    rows: Seq<HousingFurniture>,
    renovation_row_id: Option<u16>,
    updates: Seq<(HousingInteriorField, u32)>,
    result: Result<usize, RemakePlaceApplyError>,
    new_estates: Seq<HousingEstate>,
    new_furniture: Seq<HousingFurniture>,
) -> bool {
    let interior = scope.spec_includes_interior();
    let exterior = scope.spec_includes_exterior();
    let deleted = keep(old_furniture, |f: HousingFurniture| spec_replaced_row(f, estate.land_ident, interior, exterior)).len();
    &&& new_furniture == keep(old_furniture, |f: HousingFurniture| !spec_replaced_row(f, estate.land_ident, interior, exterior)) + rows
    &&& if !spec_preset_touches_interior(scope, renovation_row_id, updates) {
        &&& result == Ok::<usize, RemakePlaceApplyError>(deleted as usize)
        &&& new_estates == old_estates
    } else {
        match estate.interior_json {
            HousingJson::Malformed(_) => {
                &&& result == Err::<usize, RemakePlaceApplyError>(spec_malformed_interior_error(renovation_row_id, updates))
                &&& new_estates == old_estates
            },
            HousingJson::Valid(j) => {
                &&& new_estates == spec_update_estates(
                    old_estates,
                    estate.land_ident,
                    |e: HousingEstate| HousingEstate {
                        interior_json: HousingJson::Valid(spec_preset_interior(j, renovation_row_id, updates)),
                        ..e
                    },
                )
                &&& result == if spec_has_land(old_estates, estate.land_ident) {
                    Ok::<usize, RemakePlaceApplyError>(deleted as usize)
                } else {
                    Err::<usize, RemakePlaceApplyError>(RemakePlaceApplyError::PersistInterior)
                }
            },
        }
    }
}

/// Stores a preset on an estate: its placed furniture in the scope's areas
/// is replaced by `import_rows`, then, when the preset writes the interior,
/// the interior record with its style and fixtures is stored. Returns how
/// many furniture rows were replaced.
pub fn apply_remake_place_import(
    database: &mut WorldDatabase,
    estate: &HousingEstate,
    scope: HousingPresetScope,
    import_rows: &RemakePlaceImportRows,
    fixture_updates: &RemakePlaceInteriorFixtureUpdates,
) -> (result: Result<usize, RemakePlaceApplyError>)
    requires
        old(database).wf(),
    ensures
        final(database).wf(),
        spec_preset_stored(
            old(database).estates_view(),
            old(database).furniture_view(),
            *estate,
            scope,
            import_rows.rows@,
            fixture_updates.renovation_row_id,
            fixture_updates.fixture_updates@,
            result,
            final(database).estates_view(),
            final(database).furniture_view(),
        ),
{
    reveal(spec_preset_stored);
    let deleted = database.replace_housing_placed_furniture_for_estate(
        estate.land_ident,
        scope.includes_interior(),
        scope.includes_exterior(),
        &import_rows.rows,
    );
    if !(scope.includes_interior() && (fixture_updates.renovation_row_id.is_some()
        || fixture_updates.fixture_updates.len() > 0)) {
        return Ok(deleted);
    }
    let base = match &estate.interior_json {
        HousingJson::Valid(j) => *j,
        HousingJson::Malformed(_) => {
            if fixture_updates.renovation_row_id.is_some() {
                return Err(RemakePlaceApplyError::InteriorStyle);
            }
            return Err(RemakePlaceApplyError::InteriorFixture(fixture_updates.fixture_updates[0].0));
        },
    };
    let mut interior = base;
    if let Some(renovation_row_id) = fixture_updates.renovation_row_id {
        interior = match update_interior_json_renovation_row_id(&HousingJson::Valid(interior), renovation_row_id) {
            Ok(j) => j,
            Err(_) => return Err(RemakePlaceApplyError::InteriorStyle),
        };
    }
    let ghost styled = interior;
    let updates = &fixture_updates.fixture_updates;
    let mut i: usize = 0;
    while i < updates.len()
        invariant
            i <= updates@.len(),
            interior == spec_apply_fixture_updates(styled, updates@.take(i as int)),
        decreases updates@.len() - i,
    {
        let (field, value) = updates[i];
        interior = match update_interior_json_field(&HousingJson::Valid(interior), field, value) {
            Ok(j) => j,
            Err(_) => return Err(RemakePlaceApplyError::InteriorFixture(field)),
        };
        proof {
            assert(updates@.take(i as int + 1).drop_last() =~= updates@.take(i as int));
        }
        i = i + 1;
    }
    assert(updates@.take(i as int) =~= updates@);
    if !database.update_housing_interior_json(estate.land_ident, HousingJson::Valid(interior)) {
        return Err(RemakePlaceApplyError::PersistInterior);
    }
    Ok(deleted)
}

/// What applying a preset reports: its counts and how many rows it
/// replaced.
#[derive(Debug)]
pub struct RemakePlacePresetApplied {
    pub import_rows: RemakePlaceImportRows,
    pub fixture_updates: RemakePlaceInteriorFixtureUpdates,
    pub replaced: usize,
}

impl ZoneConnection {
    /// Drops the cached housing inventory (after furniture changed).
    pub fn clear_housing_furniture_reset_cache(&mut self)
        ensures
            final(self).house_inventory.wf(),
            forall|c, s| #[trigger] final(self).house_inventory.spec_get(c, s) matches Some(i) ==> i == empty_item(),
            *final(self) == (ZoneConnection { house_inventory: final(self).house_inventory, ..*old(self) }),
    {
        clear_housing_reset_cache(&mut self.active_housing_estate, &mut self.house_inventory, false);
    }

    /// Drops the cached housing inventory and the active estate (after an
    /// estate changed hands or went away).
    pub fn clear_housing_estate_reset_cache(&mut self)
        ensures
            final(self).house_inventory.wf(),
            forall|c, s| #[trigger] final(self).house_inventory.spec_get(c, s) matches Some(i) ==> i == empty_item(),
            *final(self) == (ZoneConnection {
                house_inventory: final(self).house_inventory,
                active_housing_estate: None,
                ..*old(self)
            }),
    {
        clear_housing_reset_cache(&mut self.active_housing_estate, &mut self.house_inventory, true);
    }

    /// The plot size of an estate row, large when the stored value names
    /// none.
    pub open spec fn spec_estate_plot_size(estate: HousingEstate) -> PlotSize {
        match spec_plot_size_from_repr(estate.plot_size as u8) {
            Some(p) => p,
            None => PlotSize::Large,
        }
    }

    /// The rows and fixture updates that a preset makes for an estate:
    /// rows created by this character, fixtures only when the scope covers
    /// the interior.
    pub fn analyze_remake_place_preset_for_estate(
        &self,
        estate: &HousingEstate,
        layout: &RemakePlaceLayout,
        scope: HousingPresetScope,
    ) -> (analysis: (RemakePlaceImportRows, RemakePlaceInteriorFixtureUpdates))
        requires
            layout.interior_furniture@.len() + layout.exterior_furniture@.len() <= usize::MAX,
        ensures
            spec_is_import_rows_of(
                analysis.0,
                layout.interior_furniture@,
                layout.exterior_furniture@,
                estate.land_ident,
                Some(self.content_id as i64),
                self.gamedata.rows_view(),
                self.gamedata.stains_view(),
                scope,
            ),
            scope.spec_includes_interior() ==> spec_is_fixture_updates_of(
                analysis.1,
                layout.interior_fixture@,
                Self::spec_estate_plot_size(*estate),
                self.gamedata.rows_view(),
            ),
            !scope.spec_includes_interior() ==> analysis.1.renovation_row_id is None && analysis.1.fixture_updates@.len() == 0
                && analysis.1.skipped_missing_item_id == 0 && analysis.1.skipped_missing_item_data == 0
                && analysis.1.skipped_wrong_category == 0,
    {
        let created_by_content_id = Some(self.content_id as i64);
        let plot_size = match PlotSize::from_repr(estate.plot_size as u8) {
            Some(p) => p,
            None => PlotSize::Large,
        };
        let import_rows = build_remake_place_furniture_rows(layout, estate.land_ident, created_by_content_id, &self.gamedata, scope);
        let fixture_updates = if scope.includes_interior() {
            build_remake_place_interior_fixture_updates(layout, plot_size, &self.gamedata)
        } else {
            RemakePlaceInteriorFixtureUpdates {
                renovation_row_id: None,
                fixture_updates: Vec::new(),
                skipped_missing_item_id: 0,
                skipped_missing_item_data: 0,
                skipped_wrong_category: 0,
            }
        };
        (import_rows, fixture_updates)
    }

    /// The connection after applying a preset to an estate, and the
    /// answer: the rows and fixture updates the preset makes for the estate
    /// (created by this character) are stored (see `spec_preset_stored`);
    /// when that succeeds the cached housing inventory is dropped and the
    /// answer carries the counts.
    pub open spec fn spec_preset_applied(
        &self,
        estate: HousingEstate,
        layout: RemakePlaceLayout,
        scope: HousingPresetScope,
        after: ZoneConnection,
        result: Result<RemakePlacePresetApplied, RemakePlaceApplyError>,
    ) -> bool {
        let (_, outer) = spec_import_tallies(
            layout.interior_furniture@,
            layout.exterior_furniture@,
            estate.land_ident,
            Some(self.content_id as i64),
            self.gamedata.rows_view(),
            self.gamedata.stains_view(),
            scope,
        );
        let t: FixtureTally = if scope.spec_includes_interior() {
            spec_fixture_tally(layout.interior_fixture@, Self::spec_estate_plot_size(estate), self.gamedata.rows_view())
        } else {
            (None, Seq::empty(), 0, 0, 0)
        };
        &&& spec_preset_stored(
            self.database.estates_view(),
            self.database.furniture_view(),
            estate,
            scope,
            outer.0,
            t.0,
            t.1,
            match result {
                Ok(a) => Ok::<usize, RemakePlaceApplyError>(a.replaced),
                Err(e) => Err::<usize, RemakePlaceApplyError>(e),
            },
            after.database.estates_view(),
            after.database.furniture_view(),
        )
        &&& (result matches Ok(a) ==> spec_is_import_rows_of(
            a.import_rows,
            layout.interior_furniture@,
            layout.exterior_furniture@,
            estate.land_ident,
            Some(self.content_id as i64),
            self.gamedata.rows_view(),
            self.gamedata.stains_view(),
            scope,
        ))
        &&& (result matches Ok(a) ==> (scope.spec_includes_interior() ==> spec_is_fixture_updates_of(
            a.fixture_updates,
            layout.interior_fixture@,
            Self::spec_estate_plot_size(estate),
            self.gamedata.rows_view(),
        )))
        &&& (result is Ok ==> forall|c, s| #[trigger] after.house_inventory.spec_get(c, s) matches Some(i) ==> i == empty_item())
        &&& (result is Err ==> after.house_inventory == self.house_inventory)
        &&& after == (ZoneConnection { database: after.database, house_inventory: after.house_inventory, ..*self })
    }

    /// Applies a preset to an estate: makes its rows (created by this
    /// character) and fixture updates, stores them (see
    /// `spec_preset_stored`) and, when that succeeds, drops the cached
    /// housing inventory. Returns the counts and how many rows were
    /// replaced.
    pub fn apply_remake_place_preset_to_estate(
        &mut self,
        estate: &HousingEstate,
        layout: &RemakePlaceLayout,
        scope: HousingPresetScope,
    ) -> (result: Result<RemakePlacePresetApplied, RemakePlaceApplyError>)
        requires
            old(self).wf(),
            layout.interior_furniture@.len() + layout.exterior_furniture@.len() <= usize::MAX,
        ensures
            final(self).wf(),
            old(self).spec_preset_applied(*estate, *layout, scope, *final(self), result),
    {
        let (import_rows, fixture_updates) = self.analyze_remake_place_preset_for_estate(estate, layout, scope);
        let ghost tallies = spec_import_tallies(
            layout.interior_furniture@,
            layout.exterior_furniture@,
            estate.land_ident,
            Some(self.content_id as i64),
            self.gamedata.rows_view(),
            self.gamedata.stains_view(),
            scope,
        );
        let ghost t: FixtureTally = if scope.spec_includes_interior() {
            spec_fixture_tally(layout.interior_fixture@, Self::spec_estate_plot_size(*estate), self.gamedata.rows_view())
        } else {
            (None, Seq::empty(), 0, 0, 0)
        };
        assert(import_rows.rows@ == tallies.1.0);
        assert(fixture_updates.renovation_row_id == t.0 && fixture_updates.fixture_updates@ == t.1);
        let replaced = match apply_remake_place_import(&mut self.database, estate, scope, &import_rows, &fixture_updates) {
            Ok(n) => n,
            Err(e) => return Err(e),
        };
        self.clear_housing_furniture_reset_cache();
        Ok(RemakePlacePresetApplied { import_rows, fixture_updates, replaced })
    }
}

} // verus!
