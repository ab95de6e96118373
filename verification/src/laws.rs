//! Properties of the housing rules as a whole: what never grants outdoor
//! write authority, what one call undoes, what a fixture write keeps, what
//! a full reset leaves and what a preset import never touches.
use vstd::prelude::*;

use crate::commands::{HousingPresetCommandError, HousingResetMode, HousingResetOutcome, spec_delete_lands};
use crate::common::{ContainerType, TerritoryIntendedUse, lemma_house_id_to_from};
use crate::context::{
    lemma_outdoor_plot_grant_owned, lemma_resolved_indoor_from_row, lemma_selected_or_owned_in_rows,
    spec_outdoor_init_authoritative_context, spec_resolve_outdoor_owner_gate, spec_resolve_outdoor_plot,
};
use crate::database::{
    HousingEstate, HousingFurniture, spec_has_land, spec_owned_by, spec_owned_estates, spec_replaced_row, spec_unique_house_ids,
    spec_unique_lands,
};
use crate::fixture_json::{HouseInteriorJson, HousingInteriorField, spec_interior_with_field};
use crate::inventory::{Item, StoreKind, lemma_store_span_bounds, spec_store_get, spec_store_set, spec_store_size};
use crate::presets::{RemakePlaceApplyError, RemakePlacePresetApplied, spec_preset_stored};
use crate::seq_util::{keep, lemma_first_match_some, lemma_keep_contains, lemma_keep_elements};
use crate::remake_place::RemakePlaceLayout;
use crate::state::{ActiveHousingEstate, ActiveHousingWardContext, AppliedHousingAppearanceItemOperation, HousingPresetScope};
use crate::zone_connection::{ZoneConnection, spec_by_house_id, spec_in_housing_area, spec_write_slot};

verus! {

/// Without a trusted ward context nothing grants outdoor write authority:
/// neither the plot check for any land-set entry nor the owner check for
/// any active estate.
pub proof fn lemma_no_trusted_ward_no_outdoor_authority(
    rows: Seq<HousingEstate>,
    world_id: u16,
    raw_plot_index: u8,
    active_estate: ActiveHousingEstate,
    content_id: u64,
)
    ensures
        spec_resolve_outdoor_plot(rows, None, world_id, raw_plot_index, content_id) is None,
        spec_resolve_outdoor_owner_gate(rows, None, world_id, active_estate, content_id) is None,
{
}

/// Entering a yard never widens outdoor write authority: the trusted ward
/// afterwards is the one trusted before (when it is of the zone entered)
/// or none, whatever ward is displayed.
pub proof fn lemma_outdoor_init_never_widens_authority(active_context: Option<ActiveHousingWardContext>, zone_id: u16)
    ensures
        spec_outdoor_init_authoritative_context(active_context, zone_id) is None
            || spec_outdoor_init_authoritative_context(active_context, zone_id) == active_context,
        spec_outdoor_init_authoritative_context(active_context, zone_id) matches Some(c) ==> c.territory_type_id == zone_id,
{
}

/// The value a record stores for an interior field.
pub open spec fn spec_interior_field(j: HouseInteriorJson, field: HousingInteriorField) -> Option<u32> {
    match field {
        HousingInteriorField::WindowStyle => match j.window_style { Some(v) => Some(v as u32), None => None },
        HousingInteriorField::DoorStyle => match j.door_style { Some(v) => Some(v as u32), None => None },
        HousingInteriorField::DoorStain => match j.door_stain { Some(v) => Some(v as u32), None => None },
        HousingInteriorField::GroundWalls => j.ground_walls,
        HousingInteriorField::GroundFloor => j.ground_floor,
        HousingInteriorField::GroundChandelier => j.ground_chandelier,
        HousingInteriorField::TopWalls => j.top_walls,
        HousingInteriorField::TopFloor => j.top_floor,
        HousingInteriorField::TopChandelier => j.top_chandelier,
        HousingInteriorField::CellarWalls => j.cellar_walls,
        HousingInteriorField::CellarFloor => j.cellar_floor,
        HousingInteriorField::CellarChandelier => j.cellar_chandelier,
    }
}

/// Writing one interior fixture keeps every other field and the interior
/// pattern, and the written field reads back the value (the window and
/// door fields keep its low 16 bits).
pub proof fn lemma_interior_write_keeps_other_fields(
    j: HouseInteriorJson,
    field: HousingInteriorField,
    value: u32,
    other: HousingInteriorField,
)
    ensures
        other != field ==> spec_interior_field(spec_interior_with_field(j, field, value), other) == spec_interior_field(j, other),
        spec_interior_with_field(j, field, value).renovation_row_id == j.renovation_row_id,
        spec_interior_field(spec_interior_with_field(j, field, value), field) == Some(
            if field == HousingInteriorField::WindowStyle || field == HousingInteriorField::DoorStyle
                || field == HousingInteriorField::DoorStain {
                (value as u16) as u32
            } else {
                value
            },
        ),
{
}

/// Exchanging a bag item with a housing item and writing both back
/// restores both stores.
proof fn lemma_swap_then_restore(
    p0: Seq<Item>,
    h0: Seq<Item>,
    sc: ContainerType,
    ss: u16,
    tc: ContainerType,
    ts: u16,
    src: Item,
    tgt: Item,
)
    requires
        spec_store_get(StoreKind::Player, p0, sc, ss) == Some(src),
        spec_store_get(StoreKind::Housing, h0, tc, ts) == Some(tgt),
        spec_store_get(StoreKind::Player, p0, tc, ts) is None,
        p0.len() == spec_store_size(StoreKind::Player),
        h0.len() == spec_store_size(StoreKind::Housing),
    ensures
        ({
            let w1 = spec_write_slot(p0, h0, sc, ss, tgt);
            let w2 = spec_write_slot(w1.0, w1.1, tc, ts, src);
            let r1 = spec_write_slot(w2.0, w2.1, sc, ss, src);
            let r2 = spec_write_slot(r1.0, r1.1, tc, ts, tgt);
            r2 == (p0, h0)
        }),
{
    lemma_store_span_bounds(StoreKind::Player, sc);
    lemma_store_span_bounds(StoreKind::Housing, tc);
    let p1 = spec_store_set(StoreKind::Player, p0, sc, ss, tgt);
    let h2 = spec_store_set(StoreKind::Housing, h0, tc, ts, src);
    assert(spec_store_get(StoreKind::Player, p1, tc, ts) is None);
    assert(spec_store_get(StoreKind::Player, p1, sc, ss) is Some);
    assert(spec_store_set(StoreKind::Player, p1, sc, ss, src) =~= p0);
    assert(spec_store_get(StoreKind::Player, p0, tc, ts) is None);
    assert(spec_store_set(StoreKind::Housing, h2, tc, ts, tgt) =~= h0);
}

/// Rolling back an applied staged fixture swap puts every bag and housing
/// slot back as it was before the swap.
#[verifier::rlimit(50)]
pub proof fn lemma_rollback_undoes_applied_swap(
    connection: ZoneConnection,
    intended_use: TerritoryIntendedUse,
    after: ZoneConnection,
    applied: AppliedHousingAppearanceItemOperation,
    restored: ZoneConnection,
)
    requires
        connection.wf(),
        connection.spec_applied(intended_use, after, Some(applied)),
        ({
            let w1 = spec_write_slot(
                after.inventory.slots_view(),
                after.house_inventory.slots_view(),
                applied.source_container,
                applied.source_slot,
                applied.original_source_item,
            );
            let w2 = spec_write_slot(w1.0, w1.1, applied.target_container, applied.target_slot, applied.original_target_item);
            after.spec_is_with_slots(restored, w2.0, w2.1)
        }),
    ensures
        restored.inventory.slots_view() == connection.inventory.slots_view(),
        restored.house_inventory.slots_view() == connection.house_inventory.slots_view(),
{
    let op = connection.pending_housing_appearance_item_operation.unwrap();
    let s0 = ZoneConnection { pending_housing_appearance_item_operation: None, ..connection };
    let s1 = s0.spec_edit_outcome(intended_use).1;
    assert(s1.inventory == connection.inventory && s1.house_inventory == connection.house_inventory);
    let p0 = s1.inventory.slots_view();
    let h0 = s1.house_inventory.slots_view();
    assert(spec_store_get(StoreKind::Player, p0, applied.target_container, applied.target_slot) is None);
    connection.inventory.lemma_slots_len();
    connection.house_inventory.lemma_slots_len();
    lemma_swap_then_restore(
        p0,
        h0,
        applied.source_container,
        applied.source_slot,
        applied.target_container,
        applied.target_slot,
        applied.original_source_item,
        applied.original_target_item,
    );
}

/// What deleting lands one after another leaves: estates and furniture of
/// the original rows only; no estate of a deleted land; every estate and
/// piece of furniture of another land; and no furniture of a deleted land
/// that had an estate.
proof fn lemma_delete_lands_leaves(estates: Seq<HousingEstate>, furniture: Seq<HousingFurniture>, lands: Seq<i64>)
    ensures
        ({
            let (e, f) = spec_delete_lands(estates, furniture, lands);
            &&& forall|k: int| 0 <= k < e.len() ==> estates.contains(#[trigger] e[k]) && !lands.contains(e[k].land_ident)
            &&& forall|x: HousingEstate| estates.contains(x) && !lands.contains(x.land_ident) ==> #[trigger] e.contains(x)
            &&& forall|k: int| 0 <= k < f.len() ==> furniture.contains(#[trigger] f[k])
            &&& forall|y: HousingFurniture| furniture.contains(y) && !lands.contains(y.land_ident) ==> #[trigger] f.contains(y)
            &&& forall|k: int, j: int| 0 <= k < f.len() && 0 <= j < estates.len() && lands.contains(estates[j].land_ident)
                ==> #[trigger] f[k].land_ident != #[trigger] estates[j].land_ident
        }),
    decreases lands.len(),
{
    if lands.len() > 0 {
        let rest = lands.drop_last();
        let land = lands.last();
        lemma_delete_lands_leaves(estates, furniture, rest);
        let (e0, f0) = spec_delete_lands(estates, furniture, rest);
        let (e, f) = spec_delete_lands(estates, furniture, lands);
        assert forall|x: i64| lands.contains(x) implies rest.contains(x) || x == land by {
            let i = choose|i: int| 0 <= i < lands.len() && lands[i] == x;
            if i < lands.len() - 1 {
                assert(rest[i] == x);
            }
        }
        assert forall|x: i64| rest.contains(x) implies lands.contains(x) by {
            let i = choose|i: int| 0 <= i < rest.len() && rest[i] == x;
            assert(lands[i] == x);
        }
        assert(lands[lands.len() - 1] == land);
        if spec_has_land(e0, land) {
            let pe = |x: HousingEstate| x.land_ident != land;
            let pf = |x: HousingFurniture| x.land_ident != land;
            assert(e == keep(e0, pe));
            assert(f == keep(f0, pf));
            lemma_keep_elements(e0, pe);
            lemma_keep_elements(f0, pf);
            assert forall|k: int| 0 <= k < e.len() implies estates.contains(#[trigger] e[k]) && !lands.contains(e[k].land_ident) by {
                let j = choose|j: int| 0 <= j < e0.len() && e0[j] == e[k];
                assert(estates.contains(e0[j]));
            }
            assert forall|x: HousingEstate| estates.contains(x) && !lands.contains(x.land_ident) implies #[trigger] e.contains(x) by {
                assert(e0.contains(x));
                lemma_keep_contains(e0, pe, x);
            }
            assert forall|k: int| 0 <= k < f.len() implies furniture.contains(#[trigger] f[k]) by {
                let j = choose|j: int| 0 <= j < f0.len() && f0[j] == f[k];
                assert(furniture.contains(f0[j]));
            }
            assert forall|y: HousingFurniture| furniture.contains(y) && !lands.contains(y.land_ident) implies #[trigger] f.contains(y) by {
                assert(f0.contains(y));
                lemma_keep_contains(f0, pf, y);
            }
            assert forall|k: int, j: int| 0 <= k < f.len() && 0 <= j < estates.len() && lands.contains(estates[j].land_ident)
                implies #[trigger] f[k].land_ident != #[trigger] estates[j].land_ident by {
                let i = choose|i: int| 0 <= i < f0.len() && f0[i] == f[k];
                assert(pf(f[k]));
                if estates[j].land_ident != land {
                    assert(rest.contains(estates[j].land_ident));
                    assert(f0[i].land_ident != estates[j].land_ident);
                }
            }
        } else {
            assert(e == e0 && f == f0);
            assert forall|k: int, j: int| 0 <= k < f.len() && 0 <= j < estates.len() && lands.contains(estates[j].land_ident)
                implies #[trigger] f[k].land_ident != #[trigger] estates[j].land_ident by {
                if !rest.contains(estates[j].land_ident) {
                    assert(estates.contains(estates[j]));
                    assert(e0.contains(estates[j]));
                    let i = choose|i: int| 0 <= i < e0.len() && e0[i] == estates[j];
                    assert(e0[i].land_ident == land);
                }
            }
            assert forall|k: int| 0 <= k < e.len() implies estates.contains(#[trigger] e[k]) && !lands.contains(e[k].land_ident) by {
                if e[k].land_ident == land {
                    assert(e0[k].land_ident == land);
                }
            }
        }
    }
}

/// Resetting all of a player's housing leaves them owning no estate and
/// no furniture of an estate they owned, and keeps every estate and every
/// piece of furniture of a land they did not own.
pub proof fn lemma_reset_all_leaves_nothing_owned(before: ZoneConnection, after: ZoneConnection, outcome: HousingResetOutcome)
    requires
        before.spec_reset(HousingResetMode::All, after, outcome),
    ensures
        ({
            let rows = before.database.estates_view();
            let owner = before.content_id;
            let owned_land = |l: i64| exists|j: int| 0 <= j < rows.len() && spec_owned_by(rows[j], owner) && rows[j].land_ident == l;
            &&& forall|k: int| 0 <= k < after.database.estates_view().len()
                ==> !spec_owned_by(#[trigger] after.database.estates_view()[k], owner)
            &&& forall|k: int| 0 <= k < after.database.furniture_view().len()
                ==> !owned_land(#[trigger] after.database.furniture_view()[k].land_ident)
            &&& forall|x: HousingEstate| rows.contains(x) && !owned_land(x.land_ident)
                ==> #[trigger] after.database.estates_view().contains(x)
            &&& forall|y: HousingFurniture| before.database.furniture_view().contains(y) && !owned_land(y.land_ident)
                ==> #[trigger] after.database.furniture_view().contains(y)
        }),
{
    let rows = before.database.estates_view();
    let furniture = before.database.furniture_view();
    let owner = before.content_id;
    let owned = spec_owned_estates(rows, owner);
    let lands = owned.map_values(|x: HousingEstate| x.land_ident);
    lemma_delete_lands_leaves(rows, furniture, lands);
    let houses = keep(rows, |e: HousingEstate| spec_owned_by(e, owner) && !e.is_apartment);
    let apartments = keep(rows, |e: HousingEstate| spec_owned_by(e, owner) && e.is_apartment);
    lemma_keep_elements(rows, |e: HousingEstate| spec_owned_by(e, owner) && !e.is_apartment);
    lemma_keep_elements(rows, |e: HousingEstate| spec_owned_by(e, owner) && e.is_apartment);
    assert forall|j: int| 0 <= j < rows.len() && spec_owned_by(rows[j], owner) implies lands.contains(#[trigger] rows[j].land_ident) by {
        assert(rows.contains(rows[j]));
        if rows[j].is_apartment {
            lemma_keep_contains(rows, |e: HousingEstate| spec_owned_by(e, owner) && e.is_apartment, rows[j]);
            let i = choose|i: int| 0 <= i < apartments.len() && apartments[i] == rows[j];
            assert(owned[houses.len() + i] == rows[j]);
            assert(lands[houses.len() + i] == rows[j].land_ident);
        } else {
            lemma_keep_contains(rows, |e: HousingEstate| spec_owned_by(e, owner) && !e.is_apartment, rows[j]);
            let i = choose|i: int| 0 <= i < houses.len() && houses[i] == rows[j];
            assert(owned[i] == rows[j]);
            assert(lands[i] == rows[j].land_ident);
        }
    }
    assert forall|l: i64| lands.contains(l) implies exists|j: int| 0 <= j < rows.len() && spec_owned_by(rows[j], owner) && rows[j].land_ident == l by {
        let i = choose|i: int| 0 <= i < lands.len() && lands[i] == l;
        let x = owned[i];
        if i < houses.len() {
            assert(x == houses[i]);
        } else {
            assert(x == apartments[i - houses.len()]);
        }
        let j = choose|j: int| 0 <= j < rows.len() && rows[j] == x;
        assert(spec_owned_by(rows[j], owner) && rows[j].land_ident == l);
    }
    let e = after.database.estates_view();
    let f = after.database.furniture_view();
    assert forall|k: int| 0 <= k < e.len() implies !spec_owned_by(#[trigger] e[k], owner) by {
        let j = choose|j: int| 0 <= j < rows.len() && rows[j] == e[k];
        if spec_owned_by(e[k], owner) {
            assert(lands.contains(rows[j].land_ident));
        }
    }
    assert forall|k: int| 0 <= k < f.len() implies !(exists|j: int| 0 <= j < rows.len() && spec_owned_by(rows[j], owner) && rows[j].land_ident == #[trigger] f[k].land_ident) by {
        if exists|j: int| 0 <= j < rows.len() && spec_owned_by(rows[j], owner) && rows[j].land_ident == f[k].land_ident {
            let j = choose|j: int| 0 <= j < rows.len() && spec_owned_by(rows[j], owner) && rows[j].land_ident == f[k].land_ident;
            assert(lands.contains(rows[j].land_ident));
            assert(f[k].land_ident != rows[j].land_ident);
        }
    }
}

/// Storing a preset on an estate, whatever its answer, keeps every
/// furniture row of another land and every stored (unplaced) row, adds the
/// preset's rows, keeps every other estate's record as it was, and of the
/// estate's own record changes at most the interior.
pub proof fn lemma_preset_keeps_other_estates(
    old_estates: Seq<HousingEstate>,
    old_furniture: Seq<HousingFurniture>,
    estate: HousingEstate,
    scope: HousingPresetScope,
    rows: Seq<HousingFurniture>,
    renovation_row_id: Option<u16>,
    updates: Seq<(HousingInteriorField, u32)>,
    result: Result<usize, RemakePlaceApplyError>,
    new_estates: Seq<HousingEstate>,
    new_furniture: Seq<HousingFurniture>,
)
    requires
        spec_preset_stored(
            old_estates,
            old_furniture,
            estate,
            scope,
            rows,
            renovation_row_id,
            updates,
            result,
            new_estates,
            new_furniture,
        ),
    ensures
        forall|y: HousingFurniture| old_furniture.contains(y) && (y.land_ident != estate.land_ident || !y.placed)
            ==> #[trigger] new_furniture.contains(y),
        forall|y: HousingFurniture| rows.contains(y) ==> #[trigger] new_furniture.contains(y),
        new_estates.len() == old_estates.len(),
        forall|k: int| 0 <= k < old_estates.len() && old_estates[k].land_ident != estate.land_ident
            ==> #[trigger] new_estates[k] == old_estates[k],
        forall|k: int| 0 <= k < old_estates.len()
            ==> #[trigger] new_estates[k] == (HousingEstate { interior_json: new_estates[k].interior_json, ..old_estates[k] }),
{
    reveal(spec_preset_stored);
    let interior = scope.spec_includes_interior();
    let exterior = scope.spec_includes_exterior();
    let stays = |f: HousingFurniture| !spec_replaced_row(f, estate.land_ident, interior, exterior);
    let kept = keep(old_furniture, stays);
    assert(new_furniture == kept + rows);
    assert forall|y: HousingFurniture| old_furniture.contains(y) && (y.land_ident != estate.land_ident || !y.placed)
        implies #[trigger] new_furniture.contains(y) by {
        lemma_keep_contains(old_furniture, stays, y);
        let i = choose|i: int| 0 <= i < kept.len() && kept[i] == y;
        assert(new_furniture[i] == y);
    }
    assert forall|y: HousingFurniture| rows.contains(y) implies #[trigger] new_furniture.contains(y) by {
        let i = choose|i: int| 0 <= i < rows.len() && rows[i] == y;
        assert(new_furniture[kept.len() + i] == y);
    }
}

/// The active estate names the land and the house id of one row.
pub open spec fn spec_carries_row(rows: Seq<HousingEstate>, a: ActiveHousingEstate) -> bool {
    exists|k: int| 0 <= k < rows.len() && rows[k].land_ident == a.land_ident && #[trigger] rows[k].house_id == a.house_id.spec_to_u64() as i64
}

/// The active record of a row names that row.
proof fn lemma_active_record_carries_row(rows: Seq<HousingEstate>, k: int)
    requires
        0 <= k < rows.len(),
    ensures
        spec_carries_row(rows, crate::context::spec_active_housing_estate(rows[k], true)),
{
    let v = rows[k].house_id;
    lemma_house_id_to_from(v as u64);
    assert((v as u64) as i64 == v) by (bit_vector);
}

/// When the active estate names one row and house ids are unique, the row
/// found by its house id has its land.
proof fn lemma_found_by_house_id_has_land(rows: Seq<HousingEstate>, a: ActiveHousingEstate)
    requires
        spec_unique_house_ids(rows),
        spec_carries_row(rows, a),
    ensures
        spec_by_house_id(rows, a.house_id) matches Some(e) ==> e.land_ident == a.land_ident,
{
    let p = |e: HousingEstate| e.house_id == a.house_id.spec_to_u64() as i64;
    lemma_first_match_some(rows, p);
    if let Some(e) = spec_by_house_id(rows, a.house_id) {
        let i = choose|i: int| 0 <= i < rows.len() && rows[i] == e;
        let k = choose|k: int| 0 <= k < rows.len() && rows[k].land_ident == a.land_ident && #[trigger] rows[k].house_id == a.house_id.spec_to_u64() as i64;
        if i != k {
            assert(rows[i].house_id != rows[k].house_id);
        }
    }
}

/// Storing a remodel writes only estate rows that the player owns: where
/// the active estate names one row,
/// every row of another owner stays as it was, the furniture stays, no
/// store happens outside a housing area, and a store means the player owns
/// a row.
pub proof fn lemma_remodel_writes_only_owned_estates(
    before: ZoneConnection,
    apply: bool,
    intended_use: TerritoryIntendedUse,
    after: ZoneConnection,
    stored: bool,
)
    requires
        before.spec_remodeled(apply, intended_use, after, stored),
        before.database.wf(),
        before.active_housing_estate matches Some(a) ==> spec_carries_row(before.database.estates_view(), a),
    ensures
        after.database.furniture_view() == before.database.furniture_view(),
        after.database.estates_view().len() == before.database.estates_view().len(),
        forall|k: int| 0 <= k < before.database.estates_view().len() && !spec_owned_by(before.database.estates_view()[k], before.content_id)
            ==> #[trigger] after.database.estates_view()[k] == before.database.estates_view()[k],
        apply && !spec_in_housing_area(intended_use) ==> !stored,
        apply && stored ==> exists|k: int| 0 <= k < before.database.estates_view().len()
            && spec_owned_by(#[trigger] before.database.estates_view()[k], before.content_id),
{
    let rows = before.database.estates_view();
    let c = before.content_id;
    if apply {
        let (g, s1) = before.spec_edit_outcome(intended_use);
        assert(s1.database == before.database);
        if let Some(a) = g {
            // Every row with the granted land is owned by the player.
            if intended_use == TerritoryIntendedUse::HousingOutdoor {
                let act = before.active_housing_estate.unwrap();
                lemma_outdoor_plot_grant_owned(
                    rows,
                    before.active_housing_ward_context,
                    before.world_id,
                    act.house_id.unit.apartment_division_plot_index,
                    c,
                );
            } else {
                let s = before.spec_after_resolve_if_missing(intended_use);
                let act = s.active_housing_estate.unwrap();
                if before.active_housing_estate is None {
                    lemma_resolved_indoor_from_row(rows, Some(before.spec_apartment_ward_context()), before.zone_id, before.world_id, c);
                    let k = choose|k: int| 0 <= k < rows.len() && act == crate::context::spec_active_housing_estate(#[trigger] rows[k], true);
                    lemma_active_record_carries_row(rows, k);
                }
                lemma_found_by_house_id_has_land(rows, act);
                let e = spec_by_house_id(rows, act.house_id).unwrap();
                lemma_first_match_some(rows, |x: HousingEstate| x.house_id == act.house_id.spec_to_u64() as i64);
                assert(spec_owned_by(e, c));
                let i = choose|i: int| 0 <= i < rows.len() && rows[i] == e;
                assert(rows[i].land_ident == a.land_ident && spec_owned_by(rows[i], c));
            }
            assert(exists|i: int| 0 <= i < rows.len() && rows[i].land_ident == a.land_ident && spec_owned_by(#[trigger] rows[i], c));
            assert forall|k: int| 0 <= k < rows.len() && rows[k].land_ident == a.land_ident implies spec_owned_by(#[trigger] rows[k], c) by {
                let i = choose|i: int| 0 <= i < rows.len() && rows[i].land_ident == a.land_ident && spec_owned_by(#[trigger] rows[i], c);
                if i != k {
                    assert(rows[i].land_ident != rows[k].land_ident);
                }
            }
        }
    }
}

/// Some estate row of another owner than `owner` has land `land`.
pub open spec fn spec_foreign_land(rows: Seq<HousingEstate>, land: i64, owner: u64) -> bool {
    exists|j: int| 0 <= j < rows.len() && #[trigger] rows[j].land_ident == land && !spec_owned_by(rows[j], owner)
}

/// Every estate row of another owner than `owner`, and every furniture row
/// of such an estate's land, is still in the tables.
pub open spec fn spec_keeps_foreign_housing(
    estates: Seq<HousingEstate>,
    furniture: Seq<HousingFurniture>,
    new_estates: Seq<HousingEstate>,
    new_furniture: Seq<HousingFurniture>,
    owner: u64,
) -> bool {
    &&& forall|x: HousingEstate| estates.contains(x) && !spec_owned_by(x, owner) ==> #[trigger] new_estates.contains(x)
    &&& forall|y: HousingFurniture| furniture.contains(y) && spec_foreign_land(estates, y.land_ident, owner)
        ==> #[trigger] new_furniture.contains(y)
}

/// With unique lands, the land of an owned row is no other owner's land.
proof fn lemma_owned_land_not_foreign(rows: Seq<HousingEstate>, e: HousingEstate, owner: u64)
    requires
        spec_unique_lands(rows),
        rows.contains(e),
        spec_owned_by(e, owner),
    ensures
        !spec_foreign_land(rows, e.land_ident, owner),
        forall|x: HousingEstate| rows.contains(x) && !spec_owned_by(x, owner) ==> x.land_ident != e.land_ident,
{
    let i = choose|i: int| 0 <= i < rows.len() && rows[i] == e;
    if spec_foreign_land(rows, e.land_ident, owner) {
        let j = choose|j: int| 0 <= j < rows.len() && #[trigger] rows[j].land_ident == e.land_ident && !spec_owned_by(rows[j], owner);
        assert(rows[i].land_ident == rows[j].land_ident);
    }
    assert forall|x: HousingEstate| rows.contains(x) && !spec_owned_by(x, owner) implies x.land_ident != e.land_ident by {
        let j = choose|j: int| 0 <= j < rows.len() && rows[j] == x;
        if x.land_ident == e.land_ident {
            assert(rows[i].land_ident == rows[j].land_ident);
        }
    }
}

/// A write to the command estate's rows keeps every other owner's estate
/// and furniture.
pub proof fn lemma_command_write_keeps_foreign_housing(before: ZoneConnection, after: ZoneConnection)
    requires
        before.database.wf(),
        before.spec_writes_only_command_estate(after),
    ensures
        spec_keeps_foreign_housing(
            before.database.estates_view(),
            before.database.furniture_view(),
            after.database.estates_view(),
            after.database.furniture_view(),
            before.content_id,
        ),
{
    let rows = before.database.estates_view();
    let c = before.content_id;
    lemma_selected_or_owned_in_rows(rows, before.active_housing_estate, c);
    if let Some(e) = before.spec_command_estate() {
        lemma_owned_land_not_foreign(rows, e, c);
    }
    assert forall|x: HousingEstate| rows.contains(x) && !spec_owned_by(x, c) implies #[trigger] after.database.estates_view().contains(x) by {
        let k = choose|k: int| 0 <= k < rows.len() && rows[k] == x;
        assert(after.database.estates_view()[k] == rows[k]);
    }
}

/// A reset, of any mode, keeps every other owner's estate and furniture.
pub proof fn lemma_reset_keeps_foreign_housing(
    before: ZoneConnection,
    mode: HousingResetMode,
    after: ZoneConnection,
    outcome: HousingResetOutcome,
)
    requires
        before.database.wf(),
        before.spec_reset(mode, after, outcome),
    ensures
        spec_keeps_foreign_housing(
            before.database.estates_view(),
            before.database.furniture_view(),
            after.database.estates_view(),
            after.database.furniture_view(),
            before.content_id,
        ),
{
    let rows = before.database.estates_view();
    let furniture = before.database.furniture_view();
    let c = before.content_id;
    lemma_selected_or_owned_in_rows(rows, before.active_housing_estate, c);
    match mode {
        HousingResetMode::All => {
            lemma_reset_all_leaves_nothing_owned(before, after, outcome);
            let owned_land = |l: i64| exists|j: int| 0 <= j < rows.len() && spec_owned_by(rows[j], c) && rows[j].land_ident == l;
            assert forall|x: HousingEstate| rows.contains(x) && !spec_owned_by(x, c) implies #[trigger] after.database.estates_view().contains(x) by {
                let i = choose|i: int| 0 <= i < rows.len() && rows[i] == x;
                if owned_land(x.land_ident) {
                    let j = choose|j: int| 0 <= j < rows.len() && spec_owned_by(rows[j], c) && rows[j].land_ident == x.land_ident;
                    assert(rows[i].land_ident == rows[j].land_ident);
                }
            }
            assert forall|y: HousingFurniture| furniture.contains(y) && spec_foreign_land(rows, y.land_ident, c)
                implies #[trigger] after.database.furniture_view().contains(y) by {
                let i = choose|i: int| 0 <= i < rows.len() && #[trigger] rows[i].land_ident == y.land_ident && !spec_owned_by(rows[i], c);
                if owned_land(y.land_ident) {
                    let j = choose|j: int| 0 <= j < rows.len() && spec_owned_by(rows[j], c) && rows[j].land_ident == y.land_ident;
                    assert(rows[i].land_ident == rows[j].land_ident);
                }
            }
        },
        _ => {
            if let Some(e) = before.spec_command_estate() {
                lemma_owned_land_not_foreign(rows, e, c);
                let pe = |x: HousingEstate| x.land_ident != e.land_ident;
                let pf = |x: HousingFurniture| x.land_ident != e.land_ident;
                assert forall|x: HousingEstate| rows.contains(x) && !spec_owned_by(x, c) implies #[trigger] after.database.estates_view().contains(x) by {
                    if mode == HousingResetMode::Estate && spec_has_land(rows, e.land_ident) {
                        lemma_keep_contains(rows, pe, x);
                    }
                }
                assert forall|y: HousingFurniture| furniture.contains(y) && spec_foreign_land(rows, y.land_ident, c)
                    implies #[trigger] after.database.furniture_view().contains(y) by {
                    if mode == HousingResetMode::Furniture || spec_has_land(rows, e.land_ident) {
                        lemma_keep_contains(furniture, pf, y);
                    }
                }
            }
        },
    }
}

/// Applying a preset through the preset command keeps every other owner's
/// estate and furniture, whatever its answer.
pub proof fn lemma_preset_command_keeps_foreign_housing(
    before: ZoneConnection,
    layout: RemakePlaceLayout,
    path: String,
    scope: HousingPresetScope,
    after: ZoneConnection,
    result: Result<RemakePlacePresetApplied, HousingPresetCommandError>,
)
    requires
        before.database.wf(),
        before.spec_preset_command(layout, path, scope, after, result),
    ensures
        spec_keeps_foreign_housing(
            before.database.estates_view(),
            before.database.furniture_view(),
            after.database.estates_view(),
            after.database.furniture_view(),
            before.content_id,
        ),
{
    let rows = before.database.estates_view();
    let furniture = before.database.furniture_view();
    let c = before.content_id;
    lemma_selected_or_owned_in_rows(rows, before.active_housing_estate, c);
    if let Some(e) = before.spec_command_estate() {
        lemma_owned_land_not_foreign(rows, e, c);
        let (_, outer) = crate::remake_place::spec_import_tallies(
            layout.interior_furniture@,
            layout.exterior_furniture@,
            e.land_ident,
            Some(c as i64),
            before.gamedata.rows_view(),
            before.gamedata.stains_view(),
            scope,
        );
        let t: crate::remake_place::FixtureTally = if scope.spec_includes_interior() {
            crate::remake_place::spec_fixture_tally(
                layout.interior_fixture@,
                ZoneConnection::spec_estate_plot_size(e),
                before.gamedata.rows_view(),
            )
        } else {
            (None, Seq::empty(), 0, 0, 0)
        };
        let r = match result {
            Ok(a) => Ok::<usize, RemakePlaceApplyError>(a.replaced),
            Err(HousingPresetCommandError::Apply(a)) => Err::<usize, RemakePlaceApplyError>(a),
            Err(HousingPresetCommandError::NoEstate) => Err::<usize, RemakePlaceApplyError>(RemakePlaceApplyError::PersistInterior),
        };
        lemma_preset_keeps_other_estates(
            rows,
            furniture,
            e,
            scope,
            outer.0,
            t.0,
            t.1,
            r,
            after.database.estates_view(),
            after.database.furniture_view(),
        );
        assert forall|x: HousingEstate| rows.contains(x) && !spec_owned_by(x, c) implies #[trigger] after.database.estates_view().contains(x) by {
            let k = choose|k: int| 0 <= k < rows.len() && rows[k] == x;
            assert(after.database.estates_view()[k] == rows[k]);
        }
    }
}

/// Keeping other owners' housing composes: over any run of steps that
/// each keep it, the last tables still hold every estate of another owner
/// of the first tables, and every furniture row of such an estate's land.
pub proof fn lemma_keeps_foreign_housing_over_steps(
    tables: Seq<(Seq<HousingEstate>, Seq<HousingFurniture>)>,
    owner: u64,
)
    requires
        tables.len() > 0,
        forall|i: int| 0 <= i < tables.len() - 1 ==> spec_keeps_foreign_housing(
            #[trigger] tables[i].0,
            tables[i].1,
            tables[i + 1].0,
            tables[i + 1].1,
            owner,
        ),
    ensures
        spec_keeps_foreign_housing(tables[0].0, tables[0].1, tables.last().0, tables.last().1, owner),
    decreases tables.len(),
{
    if tables.len() > 1 {
        let rest = tables.drop_last();
        assert forall|i: int| 0 <= i < rest.len() - 1 implies spec_keeps_foreign_housing(
            #[trigger] rest[i].0,
            rest[i].1,
            rest[i + 1].0,
            rest[i + 1].1,
            owner,
        ) by {
            assert(rest[i] == tables[i] && rest[i + 1] == tables[i + 1]);
            assert(spec_keeps_foreign_housing(tables[i].0, tables[i].1, tables[i + 1].0, tables[i + 1].1, owner));
        }
        lemma_keeps_foreign_housing_over_steps(rest, owner);
        let n = tables.len() - 1;
        assert(rest.last() == tables[n - 1]);
        assert(spec_keeps_foreign_housing(tables[n - 1].0, tables[n - 1].1, tables[n].0, tables[n].1, owner));
        let (e0, f0) = tables[0];
        let (e1, f1) = tables[n - 1];
        let (e2, f2) = tables[n];
        assert forall|y: HousingFurniture| f0.contains(y) && spec_foreign_land(e0, y.land_ident, owner) implies #[trigger] f2.contains(y) by {
            let j = choose|j: int| 0 <= j < e0.len() && #[trigger] e0[j].land_ident == y.land_ident && !spec_owned_by(e0[j], owner);
            assert(e0.contains(e0[j]));
            assert(e1.contains(e0[j]));
            let k = choose|k: int| 0 <= k < e1.len() && e1[k] == e0[j];
            assert(spec_foreign_land(e1, y.land_ident, owner));
            assert(f1.contains(y));
        }
    }
}

} // verus!
