use kawari_housing::common::{container_type_id, ContainerType, HouseId, PlotSize, Position};
use kawari_housing::database::{HousingEstate, WorldDatabase};
use kawari_housing::fixture_json::{
    HouseExteriorJson, HouseInteriorJson, HousingExteriorColorField, HousingExteriorField, HousingInteriorField,
    HousingJson,
};
use kawari_housing::gamedata::{HousingGameData, HousingItemRow, HousingStainRow};
use kawari_housing::presets::{
    apply_housing_exterior_color_update, apply_housing_exterior_fixture_update, apply_housing_interior_fixture_update,
    HousingFixtureUpdateResult,
};
use kawari_housing::remake_place::{
    build_remake_place_furniture_rows, build_remake_place_interior_fixture_updates, RemakePlaceFurnitureEntry,
    RemakePlaceInteriorFixture, RemakePlaceLayout, REMAKE_PLACE_ITEM_UI_CATEGORY_CEILING_LIGHT,
    REMAKE_PLACE_ITEM_UI_CATEGORY_FLOORING, REMAKE_PLACE_ITEM_UI_CATEGORY_INTERIOR_WALL,
};
use kawari_housing::state::HousingPresetScope;

fn raw(c: ContainerType) -> i32 {
    container_type_id(c) as i32
}

fn catalog_row(item_id: u32, furniture_catalog_id: u16) -> HousingItemRow {
    HousingItemRow { item_id, additional_data: 0, item_ui_category: 0, furniture_catalog_id }
}

fn fixture_row(item_id: u32, additional_data: u32, item_ui_category: u8) -> HousingItemRow {
    HousingItemRow { item_id, additional_data, item_ui_category, furniture_catalog_id: 0 }
}

fn game_data(items: Vec<HousingItemRow>, stains: Vec<HousingStainRow>) -> HousingGameData {
    HousingGameData::new(items, vec![], vec![], stains)
}

fn piece(item_id: u32, position: (f32, f32, f32), rotation: f32, color: &str) -> RemakePlaceFurnitureEntry {
    RemakePlaceFurnitureEntry {
        item_id,
        position: Position { x_bits: position.0.to_bits(), y_bits: position.1.to_bits(), z_bits: position.2.to_bits() },
        rotation_bits: rotation.to_bits(),
        color: color.to_string(),
    }
}

fn fixture(level: &str, fixture_type: &str, name: &str, item_id: u32) -> RemakePlaceInteriorFixture {
    RemakePlaceInteriorFixture {
        level: level.to_string(),
        fixture_type: fixture_type.to_string(),
        name: name.to_string(),
        item_id,
    }
}

fn close(bits: u32, expected: f32) -> bool {
    (f32::from_bits(bits) - expected).abs() < 0.0001
}

/// The pieces of the layout with the parent's attachment after it, their
/// positions already in world terms (divided by the scale, y and z
/// exchanged) and their rotations turned into an angle about the vertical.
#[test]
fn builds_rows_from_remake_place_layout_using_plugin_transform_rules() {
    let layout = RemakePlaceLayout {
        interior_fixture: vec![],
        interior_furniture: vec![
            piece(1001, (1.5, -3.5, 2.5), -std::f32::consts::FRAC_PI_2, ""),
            piece(1002, (4.0, 6.0, 5.0), 0.0, ""),
        ],
        exterior_furniture: vec![piece(2001, (1.0, 3.0, 2.0), std::f32::consts::FRAC_PI_4, "")],
    };
    let data = game_data(vec![catalog_row(1001, 1), catalog_row(1002, 2), catalog_row(2001, 1001)], vec![]);

    let result = build_remake_place_furniture_rows(&layout, 1234, Some(5678), &data, HousingPresetScope::All);

    assert_eq!(result.rows.len(), 3);
    assert_eq!(result.indoor_imported, 2);
    assert_eq!(result.outdoor_imported, 1);
    assert_eq!(result.skipped_missing_catalog, 0);
    assert_eq!(result.skipped_capacity, 0);

    let first = &result.rows[0];
    assert_eq!(first.land_ident, 1234);
    assert_eq!(first.container_type, raw(ContainerType::HousingInteriorPlacedItems1));
    assert_eq!(first.slot, 0);
    assert_eq!(first.item_id, 1001);
    assert_eq!(first.catalog_id, 1);
    assert_eq!(first.created_by_content_id, Some(5678));
    assert!(close(first.pos_x_bits, 1.5));
    assert!(close(first.pos_y_bits, -3.5));
    assert!(close(first.pos_z_bits, 2.5));
    assert!(close(first.rotation_bits, -std::f32::consts::FRAC_PI_2));

    let child = &result.rows[1];
    assert_eq!(child.item_id, 1002);
    assert_eq!(child.slot, 1);
    assert!(close(child.pos_x_bits, 4.0));
    assert!(close(child.pos_y_bits, 6.0));
    assert!(close(child.pos_z_bits, 5.0));
    assert!(close(child.rotation_bits, 0.0));

    let yard = &result.rows[2];
    assert_eq!(yard.container_type, raw(ContainerType::HousingExteriorPlacedItems));
    assert_eq!(yard.slot, 0);
    assert_eq!(yard.item_id, 2001);
    assert_eq!(yard.catalog_id, 1001);
    assert!(close(yard.pos_x_bits, 1.0));
    assert!(close(yard.pos_y_bits, 3.0));
    assert!(close(yard.pos_z_bits, 2.0));
    assert!(close(yard.rotation_bits, std::f32::consts::FRAC_PI_4));
}

#[test]
fn imports_remake_place_color_properties_as_housing_stains() {
    let layout = RemakePlaceLayout {
        interior_fixture: vec![],
        interior_furniture: vec![
            piece(1001, (0.0, 0.0, 0.0), 0.0, "112233FF"),
            piece(1002, (0.0, 0.0, 0.0), 0.0, "445566"),
            piece(1003, (0.0, 0.0, 0.0), 0.0, "not-a-color"),
        ],
        exterior_furniture: vec![],
    };
    let data = game_data(
        vec![catalog_row(1001, 1), catalog_row(1002, 2), catalog_row(1003, 3)],
        vec![
            HousingStainRow { stain_id: 42, red: 0x11, green: 0x22, blue: 0x33 },
            HousingStainRow { stain_id: 77, red: 0x44, green: 0x55, blue: 0x66 },
        ],
    );

    let result = build_remake_place_furniture_rows(&layout, 1234, Some(5678), &data, HousingPresetScope::Interior);

    assert_eq!(result.rows.len(), 3);
    assert_eq!(result.rows[0].stain, 42);
    assert_eq!(result.rows[1].stain, 77);
    assert_eq!(result.rows[2].stain, 0);
}

#[test]
fn imports_remake_place_interior_fixtures_and_style() {
    let layout = RemakePlaceLayout {
        interior_fixture: vec![
            fixture("", "District", "Minimalist", 0),
            fixture("Basement", "Floor", "Basement Floor", 10),
            fixture("Basement", "Wall", "Basement Wall", 11),
            fixture("Ground Floor", "Light", "Ground Light", 12),
            fixture("Upper Floor", "Wall", "Upper Wall", 13),
            fixture("Ground Floor", "Floor", "Wrong Category", 14),
        ],
        interior_furniture: vec![],
        exterior_furniture: vec![],
    };
    let data = game_data(
        vec![
            fixture_row(10, 110, REMAKE_PLACE_ITEM_UI_CATEGORY_FLOORING),
            fixture_row(11, 111, REMAKE_PLACE_ITEM_UI_CATEGORY_INTERIOR_WALL),
            fixture_row(12, 112, REMAKE_PLACE_ITEM_UI_CATEGORY_CEILING_LIGHT),
            fixture_row(13, 113, REMAKE_PLACE_ITEM_UI_CATEGORY_INTERIOR_WALL),
            fixture_row(14, 114, REMAKE_PLACE_ITEM_UI_CATEGORY_INTERIOR_WALL),
        ],
        vec![],
    );

    let result = build_remake_place_interior_fixture_updates(&layout, PlotSize::Large, &data);

    assert_eq!(result.renovation_row_id, Some(18));
    assert_eq!(result.fixture_updates.len(), 4);
    assert!(result.fixture_updates.contains(&(HousingInteriorField::CellarFloor, 110)));
    assert!(result.fixture_updates.contains(&(HousingInteriorField::CellarWalls, 111)));
    assert!(result.fixture_updates.contains(&(HousingInteriorField::GroundChandelier, 112)));
    assert!(result.fixture_updates.contains(&(HousingInteriorField::TopWalls, 113)));
    assert_eq!(result.skipped_missing_item_id, 0);
    assert_eq!(result.skipped_missing_item_data, 0);
    assert_eq!(result.skipped_wrong_category, 1);
}

#[test]
fn skips_missing_catalogs_and_rows_beyond_supported_slots() {
    let layout = RemakePlaceLayout {
        interior_fixture: vec![],
        interior_furniture: (1..=602u32).map(|item_id| piece(item_id, (0.0, 0.0, 0.0), 0.0, "")).collect(),
        exterior_furniture: vec![],
    };
    let rows = (1..=602u32).filter(|item_id| *item_id != 2).map(|item_id| catalog_row(item_id, item_id as u16)).collect();
    let data = game_data(rows, vec![]);

    let result = build_remake_place_furniture_rows(&layout, 1234, None, &data, HousingPresetScope::All);

    assert_eq!(result.rows.len(), 600);
    assert_eq!(result.indoor_imported, 600);
    assert_eq!(result.skipped_missing_catalog, 1);
    assert_eq!(result.skipped_capacity, 1);
    assert_eq!(result.rows.last().map(|row| row.container_type), Some(raw(ContainerType::HousingInteriorPlacedItems12)));
    assert_eq!(result.rows.last().map(|row| row.slot), Some(49));
}

enum MalformedTask {
    Exterior(HousingExteriorField, u16),
    ExteriorColor(HousingExteriorColorField, u8),
    Interior(HousingInteriorField, u32),
}

fn run_malformed_update_task(task: MalformedTask, target_field_json: &str) {
    let mut database = WorldDatabase::new_at(":memory:");
    let estate = database.ensure_local_estate(100, "Tester", 67);
    let before = database
        .housing_estate_by_house_id(HouseId::from_u64(estate.house_id as u64))
        .expect("ensured house should exist");
    let expected_json_is_valid = match &task {
        MalformedTask::Exterior(..) | MalformedTask::ExteriorColor(..) => {
            matches!(before.exterior_json, HousingJson::Valid(_))
        },
        MalformedTask::Interior(..) => matches!(before.interior_json, HousingJson::Valid(_)),
    };
    assert!(expected_json_is_valid, "seeded fixture should be malformed JSON");

    let malformed_seeded = match &task {
        MalformedTask::Exterior(..) | MalformedTask::ExteriorColor(..) => database.update_housing_exterior_json(
            estate.land_ident,
            HousingJson::<HouseExteriorJson>::Malformed(target_field_json.to_string()),
        ),
        MalformedTask::Interior(..) => database.update_housing_interior_json(
            estate.land_ident,
            HousingJson::<HouseInteriorJson>::Malformed(target_field_json.to_string()),
        ),
    };
    assert!(malformed_seeded);
    let selected: HousingEstate = database
        .owned_housing_estates(100)
        .into_iter()
        .find(|estate| estate.owner_content_id == Some(100))
        .expect("owned estate should still be available");
    let outcome = match task {
        MalformedTask::Exterior(field, value) => {
            apply_housing_exterior_fixture_update(&mut database, &selected, field, value)
        },
        MalformedTask::ExteriorColor(field, value) => {
            apply_housing_exterior_color_update(&mut database, &selected, field, value)
        },
        MalformedTask::Interior(field, value) => apply_housing_interior_fixture_update(&mut database, &selected, field, value),
    };
    assert_eq!(outcome, HousingFixtureUpdateResult::InvalidStoredJson);

    let updated_estate = database.housing_estate_by_house_id(HouseId::from_u64(estate.house_id as u64)).unwrap();
    let stored_text = match task {
        MalformedTask::Exterior(..) | MalformedTask::ExteriorColor(..) => match updated_estate.exterior_json {
            HousingJson::Malformed(text) => text,
            HousingJson::Valid(_) => panic!("the malformed exterior was overwritten"),
        },
        MalformedTask::Interior(..) => match updated_estate.interior_json {
            HousingJson::Malformed(text) => text,
            HousingJson::Valid(_) => panic!("the malformed interior was overwritten"),
        },
    };
    assert_eq!(stored_text, target_field_json);
}

#[test]
fn update_housing_exterior_no_overwrite_when_json_is_malformed() {
    run_malformed_update_task(MalformedTask::Exterior(HousingExteriorField::Roof, 9), "{");
}

#[test]
fn update_housing_exterior_color_no_overwrite_when_json_is_malformed() {
    run_malformed_update_task(MalformedTask::ExteriorColor(HousingExteriorColorField::Roof, 3), "{");
}

#[test]
fn update_housing_interior_no_overwrite_when_json_is_malformed() {
    run_malformed_update_task(MalformedTask::Interior(HousingInteriorField::WindowStyle, 123), "{");
}
