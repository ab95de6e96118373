use kawari_housing::appearance::HousingAppearanceOperationOutcome;
use kawari_housing::commands::{HousingEstateKind, HousingPresetCommandError, HousingResetMode, HousingResetOutcome, HousingUpdateOutcome};
use kawari_housing::common::{container_type_id, ContainerType, HouseId, PlotSize, Position, TerritoryIntendedUse};
use kawari_housing::context::active_housing_estate;
use kawari_housing::database::{HousingEstate, HousingEstateSpec, HousingFurniture, WorldDatabase};
use kawari_housing::fixture_json::{
    HouseInteriorJson, HousingExteriorColorField, HousingExteriorField, HousingInteriorField, HousingJson,
};
use kawari_housing::furniture::{ItemOperation, ItemOperationKind, ITEM_UI_CATEGORY_FLOORING};
use kawari_housing::gamedata::{HousingGameData, HousingItemRow};
use kawari_housing::inventory::{housing_item, Item};
use kawari_housing::presets::{
    apply_housing_exterior_color_update, apply_housing_exterior_fixture_update, apply_housing_interior_fixture_update,
    apply_remake_place_import, housing_kit_items, housing_preset_scope_label, HousingFixtureUpdateResult, HousingKit,
    RemakePlaceApplyError,
};
use kawari_housing::remake_place::{
    RemakePlaceFurnitureEntry, RemakePlaceImportRows, RemakePlaceInteriorFixture, RemakePlaceInteriorFixtureUpdates,
    RemakePlaceLayout,
};
use kawari_housing::state::{HousingPresetScope, PendingHousingAppearanceItemOperation};
use kawari_housing::zone_connection::ZoneConnection;

const OWNER: u64 = 100;
const WORLD: u16 = 21;

fn catalog_row(item_id: u32, furniture_catalog_id: u16) -> HousingItemRow {
    HousingItemRow { item_id, additional_data: 0, item_ui_category: 0, furniture_catalog_id }
}

fn connection_with(items: Vec<HousingItemRow>) -> (ZoneConnection, HousingEstate) {
    let mut database = WorldDatabase::new_at(":memory:");
    let estate = database.ensure_local_estate(OWNER, "Tester", WORLD);
    let gamedata = HousingGameData::new(items, vec![], vec![], vec![]);
    let mut connection = ZoneConnection::new(OWNER, "Tester".to_string(), WORLD, 1251, database, gamedata);
    connection.active_housing_estate = Some(active_housing_estate(&estate, true));
    (connection, estate)
}

fn raw(c: ContainerType) -> i32 {
    container_type_id(c) as i32
}

#[test]
fn placing_furniture_moves_the_bag_item_into_the_first_placed_slot_and_stores_its_row() {
    let (mut connection, estate) = connection_with(vec![catalog_row(5000, 77)]);
    assert!(connection.inventory.set_item(ContainerType::Inventory0, 0, housing_item(5000, 3)));
    let position = Position { x_bits: 1.0f32.to_bits(), y_bits: 2.0f32.to_bits(), z_bits: 3.0f32.to_bits() };

    let placed = connection
        .persist_furniture_placement(ContainerType::Inventory0, 0, position, 0.5f32.to_bits(), true, 0, TerritoryIntendedUse::HousingIndoor)
        .expect("the owner may place furniture");

    assert_eq!(placed.container, ContainerType::HousingInteriorPlacedItems1);
    assert_eq!(placed.slot, 0);
    assert_eq!(placed.catalog_id, 77);
    assert_eq!(placed.stain, 3);
    assert_eq!(placed.object_slot, 0);
    assert!(placed.indoors);
    assert!(placed.spawned);
    assert!(connection.inventory.get_item(ContainerType::Inventory0, 0).unwrap().is_empty_slot());
    let in_house = connection.house_inventory.get_item(ContainerType::HousingInteriorPlacedItems1, 0).unwrap();
    assert_eq!(in_house.item_id, 5000);

    let rows = connection.database.list_all_housing_furniture(estate.land_ident);
    assert_eq!(rows.len(), 1);
    assert_eq!(rows[0].container_type, raw(ContainerType::HousingInteriorPlacedItems1));
    assert_eq!(rows[0].slot, 0);
    assert_eq!(rows[0].item_id, 5000);
    assert_eq!(rows[0].catalog_id, 77);
    assert_eq!(rows[0].stain, 3);
    assert!(rows[0].placed);
    assert_eq!(rows[0].pos_y_bits, 2.0f32.to_bits());
    assert_eq!(rows[0].created_by_content_id, Some(OWNER as i64));
}

#[test]
fn placing_from_an_empty_slot_or_without_rights_changes_nothing() {
    let (mut connection, estate) = connection_with(vec![catalog_row(5000, 77)]);
    assert!(connection
        .persist_furniture_placement(ContainerType::Inventory0, 0, Position::default(), 0, true, 0, TerritoryIntendedUse::HousingIndoor)
        .is_none());

    let mut stranger = ZoneConnection::new(
        200,
        "Stranger".to_string(),
        WORLD,
        1251,
        WorldDatabase::new_at(":memory:"),
        HousingGameData::new(vec![catalog_row(5000, 77)], vec![], vec![], vec![]),
    );
    stranger.database.insert_housing_estate_for_test(estate.clone());
    stranger.active_housing_estate = Some(active_housing_estate(&estate, true));
    assert!(stranger.inventory.set_item(ContainerType::Inventory0, 0, housing_item(5000, 0)));
    assert!(stranger
        .persist_furniture_placement(ContainerType::Inventory0, 0, Position::default(), 0, true, 0, TerritoryIntendedUse::HousingIndoor)
        .is_none());
    assert_eq!(stranger.inventory.get_item(ContainerType::Inventory0, 0).unwrap().item_id, 5000);
    assert!(stranger.database.list_all_housing_furniture(estate.land_ident).is_empty());
}

#[test]
fn storing_furniture_goes_to_the_storeroom_pages_unplaced() {
    let (mut connection, estate) = connection_with(vec![catalog_row(5000, 77)]);
    assert!(connection.inventory.set_item(ContainerType::Inventory1, 4, housing_item(5000, 0)));

    let stored = connection
        .persist_furniture_placement(ContainerType::Inventory1, 4, Position::default(), 0, false, 0, TerritoryIntendedUse::HousingIndoor)
        .unwrap();

    assert_eq!(stored.container, ContainerType::HousingInteriorStoreroom1);
    assert_eq!(stored.object_slot, 0);
    assert!(!stored.spawned);
    let rows = connection.database.list_all_housing_furniture(estate.land_ident);
    assert_eq!(rows[0].container_type, raw(ContainerType::HousingInteriorStoreroom1));
    assert!(!rows[0].placed);
}

#[test]
fn taking_placed_furniture_back_into_the_bags_removes_its_row() {
    let (mut connection, estate) = connection_with(vec![catalog_row(5000, 77)]);
    assert!(connection.inventory.set_item(ContainerType::Inventory0, 0, housing_item(5000, 3)));
    connection
        .persist_furniture_placement(ContainerType::Inventory0, 0, Position::default(), 0, true, 0, TerritoryIntendedUse::HousingIndoor)
        .unwrap();

    let moved = connection
        .persist_housing_item_move_to_inventory(false, ContainerType::HousingInteriorPlacedItems1, 0, TerritoryIntendedUse::HousingIndoor)
        .expect("the owner may take furniture back");

    assert_eq!(moved.item_id, 5000);
    assert_eq!(moved.src_container, ContainerType::HousingInteriorPlacedItems1);
    assert_eq!(moved.dst_container, ContainerType::Inventory0);
    assert_eq!(moved.ack_slot, 0);
    assert!(moved.removed_from_world);
    let key = moved.object_key.unwrap();
    assert_eq!(key.slot, 0);
    assert!(key.indoors);
    assert_eq!(connection.inventory.get_item(ContainerType::Inventory0, 0).unwrap().item_id, 5000);
    assert!(connection.house_inventory.get_item(ContainerType::HousingInteriorPlacedItems1, 0).unwrap().is_empty_slot());
    assert!(connection.database.list_all_housing_furniture(estate.land_ident).is_empty());
}

#[test]
fn moving_placed_furniture_to_the_storeroom_keeps_its_row_unplaced() {
    let (mut connection, estate) = connection_with(vec![catalog_row(5000, 77)]);
    assert!(connection.inventory.set_item(ContainerType::Inventory0, 0, housing_item(5000, 3)));
    connection
        .persist_furniture_placement(ContainerType::Inventory0, 0, Position::default(), 0, true, 0, TerritoryIntendedUse::HousingIndoor)
        .unwrap();

    let moved = connection
        .persist_housing_item_move_to_inventory(true, ContainerType::HousingInteriorPlacedItems1, 0, TerritoryIntendedUse::HousingIndoor)
        .unwrap();

    assert_eq!(moved.dst_container, ContainerType::HousingInteriorStoreroom1);
    let rows = connection.database.list_all_housing_furniture(estate.land_ident);
    assert_eq!(rows.len(), 1);
    assert_eq!(rows[0].container_type, raw(ContainerType::HousingInteriorStoreroom1));
    assert_eq!(rows[0].slot, 0);
    assert!(!rows[0].placed);
    assert!(connection.database.list_housing_furniture(estate.land_ident, true).is_empty());
}

#[test]
fn moving_from_an_empty_housing_slot_is_refused() {
    let (mut connection, _) = connection_with(vec![]);
    assert!(connection
        .persist_housing_item_move_to_inventory(false, ContainerType::HousingInteriorPlacedItems1, 0, TerritoryIntendedUse::HousingIndoor)
        .is_none());
}

#[test]
fn appearance_operations_swap_a_bag_item_with_a_fixture_slot() {
    let (mut connection, _) = connection_with(vec![]);
    assert!(connection.inventory.set_item(ContainerType::Inventory0, 2, housing_item(7000, 0)));
    let action = ItemOperation {
        operation_type: ItemOperationKind::Move,
        src_storage_id: ContainerType::Inventory0,
        src_container_index: 2,
        dst_storage_id: ContainerType::HousingInteriorAppearance,
        dst_container_index: 4,
    };

    let outcome = connection.process_housing_appearance_item_operation(&action, TerritoryIntendedUse::HousingIndoor);

    assert_eq!(outcome, HousingAppearanceOperationOutcome::Swapped);
    assert!(outcome.handled());
    assert_eq!(connection.house_inventory.get_item(ContainerType::HousingInteriorAppearance, 4).unwrap().item_id, 7000);
    assert!(connection.inventory.get_item(ContainerType::Inventory0, 2).unwrap().is_empty_slot());

    let outside = connection.process_housing_appearance_item_operation(&action, TerritoryIntendedUse::HousingOutdoor);
    assert_eq!(outside, HousingAppearanceOperationOutcome::Rejected);

    let discard = ItemOperation { operation_type: ItemOperationKind::Discard, ..action };
    assert_eq!(
        connection.process_housing_appearance_item_operation(&discard, TerritoryIntendedUse::HousingIndoor),
        HousingAppearanceOperationOutcome::Unsupported
    );

    let bags_only = ItemOperation { dst_storage_id: ContainerType::Inventory1, ..action };
    let ignored = connection.process_housing_appearance_item_operation(&bags_only, TerritoryIntendedUse::HousingIndoor);
    assert_eq!(ignored, HousingAppearanceOperationOutcome::NotStaging);
    assert!(!ignored.handled());
}

#[test]
fn rolling_back_an_applied_fixture_swap_restores_both_slots() {
    let mut floor = catalog_row(7100, 0);
    floor.additional_data = 4242;
    floor.item_ui_category = ITEM_UI_CATEGORY_FLOORING;
    let (mut connection, _) = connection_with(vec![floor]);
    assert!(connection.inventory.set_item(ContainerType::Inventory0, 1, housing_item(7100, 0)));
    connection.pending_housing_appearance_item_operation = Some(PendingHousingAppearanceItemOperation {
        source_container: ContainerType::Inventory0,
        source_slot: 1,
        target_container: ContainerType::HousingInteriorAppearance,
        target_slot: 4,
    });
    let before_target = connection.house_inventory.get_item(ContainerType::HousingInteriorAppearance, 4).unwrap();

    let applied = connection
        .apply_pending_housing_appearance_item_operation(TerritoryIntendedUse::HousingIndoor)
        .expect("a flooring item fits the main floor's floor slot");
    assert_eq!(connection.house_inventory.get_item(ContainerType::HousingInteriorAppearance, 4).unwrap().item_id, 7100);

    connection.rollback_housing_appearance_item_operation(applied);

    assert_eq!(connection.inventory.get_item(ContainerType::Inventory0, 1).unwrap().item_id, 7100);
    let restored = connection.house_inventory.get_item(ContainerType::HousingInteriorAppearance, 4).unwrap();
    assert_eq!(restored.item_id, before_target.item_id);
    assert_eq!(restored.quantity, before_target.quantity);
}

#[test]
fn estate_commands_act_on_the_owned_estate() {
    let (mut connection, estate) = connection_with(vec![]);

    assert_eq!(connection.update_housing_name_command("Renamed"), HousingUpdateOutcome::Updated);
    assert_eq!(connection.update_housing_greeting_command("Hello there"), HousingUpdateOutcome::Updated);
    assert_eq!(connection.update_housing_light_command(9), (HousingUpdateOutcome::Updated, 5));
    let row = connection.database.housing_estate_by_house_id(HouseId::from_u64(estate.house_id as u64)).unwrap();
    assert_eq!(row.estate_name, "Renamed");
    assert_eq!(row.greeting, "Hello there");
    assert_eq!(row.light_level, 5);

    assert_eq!(
        connection.update_housing_interior_command(HousingInteriorField::GroundFloor, 65591),
        Some(kawari_housing::presets::HousingFixtureUpdateResult::Updated)
    );
    let row = connection.database.housing_estate_by_house_id(HouseId::from_u64(estate.house_id as u64)).unwrap();
    match row.interior_json {
        HousingJson::Valid(j) => assert_eq!(j.ground_floor, Some(65591)),
        HousingJson::Malformed(_) => panic!("the interior record should stay readable"),
    }
}

#[test]
fn estate_commands_without_an_estate_report_it() {
    let mut connection = ZoneConnection::new(
        300,
        "Nobody".to_string(),
        WORLD,
        1251,
        WorldDatabase::new_at(":memory:"),
        HousingGameData::new(vec![], vec![], vec![], vec![]),
    );
    assert_eq!(connection.update_housing_name_command("Renamed"), HousingUpdateOutcome::NoEstate);
    assert_eq!(connection.update_housing_light_command(2), (HousingUpdateOutcome::NoEstate, 2));
    assert_eq!(connection.update_housing_interior_command(HousingInteriorField::GroundFloor, 1), None);
    assert!(matches!(connection.reset_housing_command(HousingResetMode::Furniture), HousingResetOutcome::NoEstate));
    assert!(matches!(connection.reset_housing_command(HousingResetMode::Estate), HousingResetOutcome::NoEstate));
    let layout = RemakePlaceLayout { interior_fixture: vec![], interior_furniture: vec![], exterior_furniture: vec![] };
    assert_eq!(
        connection.apply_housing_preset_command(&layout, "preset.json".to_string(), HousingPresetScope::All).err(),
        Some(HousingPresetCommandError::NoEstate)
    );
    assert!(connection.check_housing_preset_command(&layout, HousingPresetScope::All).is_none());
}

#[test]
fn reset_commands_delete_furniture_estates_and_all_owned_estates() {
    let (mut connection, estate) = connection_with(vec![catalog_row(5000, 77)]);
    assert!(connection.inventory.set_item(ContainerType::Inventory0, 0, housing_item(5000, 0)));
    connection
        .persist_furniture_placement(ContainerType::Inventory0, 0, Position::default(), 0, true, 0, TerritoryIntendedUse::HousingIndoor)
        .unwrap();

    match connection.reset_housing_command(HousingResetMode::Furniture) {
        HousingResetOutcome::FurnitureDeleted { estate_name, deleted } => {
            assert_eq!(estate_name, "Local Estate");
            assert_eq!(deleted, 1);
        },
        other => panic!("unexpected outcome {other:?}"),
    }
    assert!(connection.database.list_all_housing_furniture(estate.land_ident).is_empty());

    connection.ensure_local_house_with_options_command(HousingEstateKind::FreeCompany, PlotSize::Medium, 341, 2, 0, 12);
    assert_eq!(connection.database.owned_housing_estates(OWNER).len(), 2);

    match connection.reset_housing_command(HousingResetMode::Estate) {
        HousingResetOutcome::EstateDeleted { .. } => {},
        other => panic!("unexpected outcome {other:?}"),
    }
    assert!(connection.active_housing_estate.is_none());
    assert_eq!(connection.database.owned_housing_estates(OWNER).len(), 1);

    match connection.reset_housing_command(HousingResetMode::All) {
        HousingResetOutcome::AllDeleted { count } => assert_eq!(count, 1),
        other => panic!("unexpected outcome {other:?}"),
    }
    assert!(connection.database.owned_housing_estates(OWNER).is_empty());
}

#[test]
fn apartment_commands_reject_rooms_outside_one_to_ninety() {
    let (mut connection, _) = connection_with(vec![]);
    assert!(connection.ensure_local_apartment_command(0).is_none());
    assert!(connection.ensure_local_apartment_command(91).is_none());
    let room = connection.ensure_local_apartment_command(7).expect("room 7 exists");
    assert!(room.is_apartment);
    assert_eq!(room.room_number, 7);
    assert!(connection.active_housing_ward_context.is_some());
}

#[test]
fn housing_kits_hand_out_known_items_into_the_bags() {
    let items = housing_kit_items(HousingKit::Indoor);
    assert_eq!(items, vec![6514, 6607, 6635, 6657, 6674, 6578, 7064]);
    assert_eq!(housing_kit_items(HousingKit::Outdoor), vec![6475, 6484, 6486, 6490, 7128, 7118, 12113]);
    assert_eq!(housing_kit_items(HousingKit::Npc), vec![7064, 23846, 9748, 9749]);

    let rows = items.iter().map(|id| catalog_row(*id, 1)).collect();
    let (mut connection, _) = connection_with(rows);
    assert_eq!(connection.give_housing_kit_command(HousingKit::Indoor), (7, 0));
    assert_eq!(connection.inventory.get_item(ContainerType::Inventory0, 0).unwrap().item_id, 6514);
    assert_eq!(connection.inventory.get_item(ContainerType::Inventory0, 6).unwrap().item_id, 7064);

    assert_eq!(connection.give_housing_kit_command(HousingKit::Npc), (1, 3));
}

#[test]
fn preset_scope_labels_name_the_scope() {
    assert_eq!(housing_preset_scope_label(HousingPresetScope::All), "all");
    assert_eq!(housing_preset_scope_label(HousingPresetScope::Interior), "interior");
    assert_eq!(housing_preset_scope_label(HousingPresetScope::Exterior), "exterior");
}

fn yard_piece(item_id: u32) -> RemakePlaceFurnitureEntry {
    RemakePlaceFurnitureEntry { item_id, position: Position::default(), rotation_bits: 0, color: String::new() }
}

#[test]
fn applying_a_preset_replaces_placed_furniture_and_remembers_it() {
    let (mut connection, estate) = connection_with(vec![catalog_row(5000, 77), catalog_row(6000, 88)]);
    assert!(connection.inventory.set_item(ContainerType::Inventory0, 0, housing_item(5000, 0)));
    connection
        .persist_furniture_placement(ContainerType::Inventory0, 0, Position::default(), 0, true, 0, TerritoryIntendedUse::HousingIndoor)
        .unwrap();
    let layout = RemakePlaceLayout {
        interior_fixture: vec![],
        interior_furniture: vec![yard_piece(6000), yard_piece(6000)],
        exterior_furniture: vec![yard_piece(5000)],
    };

    let checked = connection.check_housing_preset_command(&layout, HousingPresetScope::Interior).unwrap();
    assert_eq!(checked.1.indoor_imported, 2);
    assert_eq!(checked.1.outdoor_imported, 0);
    assert_eq!(connection.database.list_all_housing_furniture(estate.land_ident).len(), 1);

    let applied = connection
        .apply_housing_preset_command(&layout, "Cafe/cafe.json".to_string(), HousingPresetScope::Interior)
        .expect("the preset applies");

    assert_eq!(applied.replaced, 1);
    assert_eq!(applied.import_rows.indoor_imported, 2);
    let rows = connection.database.list_all_housing_furniture(estate.land_ident);
    assert_eq!(rows.len(), 2);
    assert!(rows.iter().all(|row| row.item_id == 6000 && row.catalog_id == 88 && row.placed));
    let last = connection.repeatable_housing_preset().unwrap();
    assert_eq!(last.path, "Cafe/cafe.json");
    assert_eq!(last.scope, HousingPresetScope::Interior);
}

fn no_rows() -> RemakePlaceImportRows {
    RemakePlaceImportRows {
        rows: vec![],
        indoor_imported: 0,
        outdoor_imported: 0,
        skipped_missing_item_id: 0,
        skipped_missing_catalog: 0,
        skipped_capacity: 0,
    }
}

fn updates(renovation_row_id: Option<u16>, fixture_updates: Vec<(HousingInteriorField, u32)>) -> RemakePlaceInteriorFixtureUpdates {
    RemakePlaceInteriorFixtureUpdates {
        renovation_row_id,
        fixture_updates,
        skipped_missing_item_id: 0,
        skipped_missing_item_data: 0,
        skipped_wrong_category: 0,
    }
}

#[test]
fn preset_interior_writes_report_each_failure() {
    let mut database = WorldDatabase::new_at(":memory:");
    let mut estate = database.ensure_local_estate(OWNER, "Tester", WORLD);
    let scope = HousingPresetScope::All;

    assert_eq!(apply_remake_place_import(&mut database, &estate, scope, &no_rows(), &updates(None, vec![])), Ok(0));

    let stored = apply_remake_place_import(
        &mut database,
        &estate,
        scope,
        &no_rows(),
        &updates(Some(18), vec![(HousingInteriorField::GroundWalls, 66111)]),
    );
    assert_eq!(stored, Ok(0));
    let row = database.housing_estate_by_house_id(HouseId::from_u64(estate.house_id as u64)).unwrap();
    match row.interior_json {
        HousingJson::Valid(j) => {
            assert_eq!(j.renovation_row_id, Some(18));
            assert_eq!(j.ground_walls, Some(66111));
        },
        HousingJson::Malformed(_) => panic!("the interior record should be readable"),
    }

    estate.interior_json = HousingJson::<HouseInteriorJson>::Malformed("{".to_string());
    assert_eq!(
        apply_remake_place_import(&mut database, &estate, scope, &no_rows(), &updates(Some(18), vec![])),
        Err(RemakePlaceApplyError::InteriorStyle)
    );
    assert_eq!(
        apply_remake_place_import(
            &mut database,
            &estate,
            scope,
            &no_rows(),
            &updates(None, vec![(HousingInteriorField::TopFloor, 1)]),
        ),
        Err(RemakePlaceApplyError::InteriorFixture(HousingInteriorField::TopFloor))
    );
    assert_eq!(
        apply_remake_place_import(&mut database, &estate, HousingPresetScope::Exterior, &no_rows(), &updates(Some(18), vec![])),
        Ok(0)
    );

    let missing = HousingEstate { land_ident: 4242, ..Default::default() };
    assert_eq!(
        apply_remake_place_import(&mut database, &missing, scope, &no_rows(), &updates(Some(18), vec![])),
        Err(RemakePlaceApplyError::PersistInterior)
    );
}

#[test]
fn replacing_placed_furniture_keeps_stored_rows_and_other_estates() {
    let mut database = WorldDatabase::new_at(":memory:");
    let row = |land_ident: i64, container: ContainerType, slot: i32, placed: bool| HousingFurniture {
        land_ident,
        container_type: raw(container),
        slot,
        item_id: 1,
        placed,
        ..Default::default()
    };
    database.upsert_housing_furniture(row(1, ContainerType::HousingInteriorPlacedItems1, 0, true));
    database.upsert_housing_furniture(row(1, ContainerType::HousingInteriorStoreroom1, 0, false));
    database.upsert_housing_furniture(row(1, ContainerType::HousingExteriorPlacedItems, 0, true));
    database.upsert_housing_furniture(row(2, ContainerType::HousingInteriorPlacedItems1, 0, true));

    let new_rows = vec![row(1, ContainerType::HousingInteriorPlacedItems1, 5, true)];
    let deleted = database.replace_housing_placed_furniture_for_estate(1, true, false, &new_rows);

    assert_eq!(deleted, 1);
    let rows = database.list_all_housing_furniture(1);
    assert_eq!(rows.len(), 3);
    assert_eq!(rows[2].slot, 5);
    assert_eq!(database.list_all_housing_furniture(2).len(), 1);
}

#[test]
fn zone_connection_items_start_empty() {
    let (connection, _) = connection_with(vec![]);
    let item: Item = connection.inventory.get_item(ContainerType::Inventory3, 34).unwrap();
    assert!(item.is_empty_slot());
    assert!(connection.inventory.get_item(ContainerType::Inventory3, 35).is_none());
}

#[test]
fn appearance_operations_on_missing_slots_report_which_side() {
    let (mut connection, _) = connection_with(vec![]);
    assert!(connection.inventory.set_item(ContainerType::Inventory0, 2, housing_item(7000, 0)));
    let action = ItemOperation {
        operation_type: ItemOperationKind::Move,
        src_storage_id: ContainerType::Inventory0,
        src_container_index: 999,
        dst_storage_id: ContainerType::HousingInteriorAppearance,
        dst_container_index: 4,
    };
    assert_eq!(
        connection.process_housing_appearance_item_operation(&action, TerritoryIntendedUse::HousingIndoor),
        HousingAppearanceOperationOutcome::InvalidSource
    );

    let far_target = ItemOperation { src_container_index: 2, dst_container_index: 999, ..action };
    assert_eq!(
        connection.process_housing_appearance_item_operation(&far_target, TerritoryIntendedUse::HousingIndoor),
        HousingAppearanceOperationOutcome::InvalidDestination
    );
    assert_eq!(connection.inventory.get_item(ContainerType::Inventory0, 2).unwrap().item_id, 7000);
}

#[test]
fn fixture_writes_for_an_estate_without_a_row_report_it_missing() {
    let (mut connection, estate) = connection_with(vec![]);
    let mut gone = estate.clone();
    gone.land_ident += 1;

    assert_eq!(
        apply_housing_exterior_fixture_update(&mut connection.database, &gone, HousingExteriorField::Roof, 9),
        HousingFixtureUpdateResult::MissingEstate
    );
    assert_eq!(
        apply_housing_exterior_color_update(&mut connection.database, &gone, HousingExteriorColorField::Roof, 9),
        HousingFixtureUpdateResult::MissingEstate
    );
    assert_eq!(
        apply_housing_interior_fixture_update(&mut connection.database, &gone, HousingInteriorField::GroundFloor, 9),
        HousingFixtureUpdateResult::MissingEstate
    );
    assert!(matches!(connection.database.housing_estate_by_house_id(HouseId::from_u64(estate.house_id as u64)).unwrap().interior_json, HousingJson::Valid(_)));
}

#[test]
fn a_preset_style_on_a_malformed_interior_stops_the_preset_command() {
    let (mut connection, estate) = connection_with(vec![]);
    assert!(connection.database.update_housing_interior_json(estate.land_ident, HousingJson::Malformed("{".to_string())));
    let layout = RemakePlaceLayout {
        interior_fixture: vec![RemakePlaceInteriorFixture {
            level: String::new(),
            fixture_type: "District".to_string(),
            name: "Mist".to_string(),
            item_id: 0,
        }],
        interior_furniture: vec![],
        exterior_furniture: vec![],
    };

    let result = connection.apply_housing_preset_command(&layout, "mist.json".to_string(), HousingPresetScope::Interior);

    assert_eq!(result.unwrap_err(), HousingPresetCommandError::Apply(RemakePlaceApplyError::InteriorStyle));
    assert!(connection.repeatable_housing_preset().is_none());
}

fn neighbour_estate(connection: &mut ZoneConnection) -> HousingEstate {
    let neighbour = connection.database.ensure_local_estate_with_spec(HousingEstateSpec {
        owner_content_id: 999,
        owner_name: "Neighbour".to_string(),
        world_id: WORLD,
        territory_type_id: 339,
        ward_index: 0,
        division: 0,
        plot_index: 1,
        plot_size: PlotSize::Small,
        free_company: false,
    });
    connection.database.upsert_housing_furniture(HousingFurniture {
        land_ident: neighbour.land_ident,
        container_type: raw(ContainerType::HousingInteriorPlacedItems1),
        slot: 0,
        item_id: 5000,
        catalog_id: 77,
        placed: true,
        ..Default::default()
    });
    neighbour
}

fn assert_neighbour_untouched(connection: &ZoneConnection, neighbour: &HousingEstate) {
    let stored = connection.database.housing_estate_by_location(339, WORLD, 0, 0, 1).unwrap();
    assert_eq!(format!("{stored:?}"), format!("{neighbour:?}"));
    assert_eq!(connection.database.list_all_housing_furniture(neighbour.land_ident).len(), 1);
}

#[test]
fn housing_commands_leave_another_owners_estate_alone() {
    let (mut connection, _) = connection_with(vec![catalog_row(6000, 88)]);
    let neighbour = neighbour_estate(&mut connection);

    assert_eq!(connection.update_housing_name_command("Mine"), HousingUpdateOutcome::Updated);
    assert_eq!(connection.update_housing_light_command(2).0, HousingUpdateOutcome::Updated);
    assert_eq!(
        connection.update_housing_interior_command(HousingInteriorField::GroundFloor, 4242),
        Some(HousingFixtureUpdateResult::Updated)
    );
    let layout = RemakePlaceLayout { interior_fixture: vec![], interior_furniture: vec![yard_piece(6000)], exterior_furniture: vec![] };
    assert!(connection.apply_housing_preset_command(&layout, "p.json".to_string(), HousingPresetScope::All).is_ok());
    assert_neighbour_untouched(&connection, &neighbour);

    match connection.reset_housing_command(HousingResetMode::All) {
        HousingResetOutcome::AllDeleted { count } => assert_eq!(count, 1),
        other => panic!("unexpected outcome {other:?}"),
    }
    assert_neighbour_untouched(&connection, &neighbour);
}

#[test]
fn a_remodel_stores_only_the_players_own_interior() {
    let mut floor = catalog_row(7100, 0);
    floor.additional_data = 4242;
    floor.item_ui_category = ITEM_UI_CATEGORY_FLOORING;
    let (mut connection, estate) = connection_with(vec![floor]);
    let neighbour = neighbour_estate(&mut connection);
    assert!(connection.house_inventory.set_item(ContainerType::HousingInteriorAppearance, 4, housing_item(7100, 0)));

    assert!(connection.persist_housing_appearance_remodel(true, TerritoryIntendedUse::HousingIndoor));
    let mine = connection.database.housing_estate_by_location(339, WORLD, 0, 0, 0).unwrap();
    assert_eq!(mine.land_ident, estate.land_ident);
    assert!(matches!(mine.interior_json, HousingJson::Valid(j) if j.top_floor == Some(4242)));
    assert_neighbour_untouched(&connection, &neighbour);

    assert!(!connection.persist_housing_appearance_remodel(true, TerritoryIntendedUse::Town));
}
