use kawari_housing::common::{
    container_type_id, ContainerType, HouseId, HouseUnit, PlotSize, Position, TerritoryIntendedUse,
    HOUSING_PLOTS_PER_DIVISION,
};
use kawari_housing::context::{
    active_housing_estate, active_housing_estate_for_outdoor_removal_row, active_housing_estate_for_outdoor_row,
    active_housing_ward_context_from_estate, can_edit_housing_estate, clear_housing_reset_cache,
    display_housing_ward_context_or_default, housing_indoor_entry_transform, outdoor_house_id_from_estate,
    outdoor_housing_location_from_raw_entry, outdoor_init_active_context, outdoor_init_authoritative_context,
    outdoor_init_display_context, placard_authoritative_estate, resolve_active_housing_estate_for_outdoor_edit,
    resolve_active_housing_estate_for_outdoor_owner_gate, resolve_active_indoor_housing_estate,
    selected_or_owned_housing_estate, trusted_housing_ward_context_after_display_update,
    trusted_housing_ward_context_after_vacant_placard, OutdoorHousingLocation,
};
use kawari_housing::database::{
    HousingEstate, HousingEstateSpec, HousingFurniture, WorldDatabase, DEFAULT_LOCAL_HOUSING_DIVISION,
    DEFAULT_LOCAL_HOUSING_LAND_FLAGS, DEFAULT_LOCAL_HOUSING_PLOT_INDEX, DEFAULT_LOCAL_HOUSING_WARD_INDEX,
    FREE_COMPANY_HOUSING_FLAG,
};
use kawari_housing::fixture_json::{
    housing_interior_renovation_row_id_from_json, update_exterior_json_color, update_exterior_json_field,
    update_interior_json_field, update_interior_json_renovation_row_id, HouseExteriorColorsJson, HouseExteriorJson,
    HouseInteriorJson, HousingExteriorColorField, HousingExteriorField, HousingInteriorField, HousingJson,
    MINIMAL_INTERIOR_FLOOR, MINIMAL_INTERIOR_LIGHT, MINIMAL_INTERIOR_WALL,
};
use kawari_housing::fixtures::{
    active_housing_estate_for_owned_outdoor_pattern, district_default_indoor_territory_type_id,
    housing_default_indoor_entry_territory_type_id_for_estate, housing_interior_pattern_apply_should_reload,
    housing_interior_pattern_area_allows_request, simple_housing_indoor_territory_type_id,
};
use kawari_housing::furniture::{
    default_housing_appearance_target_slot, housing_appearance_marker_target_slot,
    housing_exterior_appearance_slot_specs, housing_exterior_color_field_for_appearance_slot,
    housing_exterior_field_for_appearance_slot, housing_exterior_item_ui_category_for_slot,
    housing_interior_appearance_slot_specs, housing_interior_field_for_appearance_slot,
    housing_interior_item_ui_category_for_slot, placed_container_for_flat_slot, should_broadcast_housing_item_removal,
    ITEM_UI_CATEGORY_CEILING_LIGHT, ITEM_UI_CATEGORY_DOOR, ITEM_UI_CATEGORY_EXTERIOR_WALL,
    ITEM_UI_CATEGORY_EXTERIOR_WALL_DECORATION, ITEM_UI_CATEGORY_FENCE, ITEM_UI_CATEGORY_FLOORING,
    ITEM_UI_CATEGORY_INTERIOR_WALL, ITEM_UI_CATEGORY_PLACARD, ITEM_UI_CATEGORY_ROOF, ITEM_UI_CATEGORY_ROOF_DECORATION,
    ITEM_UI_CATEGORY_WINDOW,
};
use kawari_housing::init::{
    build_outdoor_estate_furniture_lists, housing_furniture_object_from_row, housing_furniture_objects_from_rows,
    housing_indoor_init_needs_resolution, housing_interior_ready_primary_id, housing_object_data_value_sets_from_rows,
    is_interior_placed_furniture_row, should_defer_housing_indoor_finish_loading, should_hide_additional_chambers_door,
    should_sync_indoor_overlays_after_loading, should_sync_indoor_overlays_after_remodel,
    should_sync_indoor_overlays_on_finish_zoning,
};
use kawari_housing::inventory::{HousingInventory, Item};
use kawari_housing::ipc::{HouseExterior, HouseExteriorColors};
use kawari_housing::serialization::{housing_interior_details, housing_interior_details_from_json};
use kawari_housing::state::{ActiveHousingEstate, ActiveHousingWardContext};

fn house_id(plot_index: u8, room_number: u16, is_apartment: bool) -> HouseId {
    HouseId {
        unit: HouseUnit { apartment_division_plot_index: plot_index, apartment_flag: is_apartment },
        unk1: 0,
        ward_index: 2,
        room_number,
        territory_type_id: 340,
        world_id: 21,
    }
}

fn estate(id: HouseId, flags: i32, is_apartment: bool) -> HousingEstate {
    HousingEstate { house_id: id.to_u64() as i64, flags, is_apartment, ..Default::default() }
}

fn position(x: f32, y: f32, z: f32) -> Position {
    Position { x_bits: x.to_bits(), y_bits: y.to_bits(), z_bits: z.to_bits() }
}

fn furniture_row(catalog_id: i32, position: Position, rotation: f32) -> HousingFurniture {
    HousingFurniture {
        catalog_id,
        pos_x_bits: position.x_bits,
        pos_y_bits: position.y_bits,
        pos_z_bits: position.z_bits,
        rotation_bits: rotation.to_bits(),
        placed: true,
        ..Default::default()
    }
}

fn ward_estate(plot_index: i32, division: i32, flags: i32) -> HousingEstate {
    HousingEstate {
        house_id: house_id(plot_index as u8, 0, false).to_u64() as i64,
        territory_type_id: 340,
        world_id: 21,
        ward_index: 2,
        division,
        plot_index,
        owner_content_id: Some(12345),
        owner_name: "Local Owner".to_string(),
        plot_size: PlotSize::Large.repr() as i32,
        flags,
        estate_name: "Local Estate".to_string(),
        greeting: "Welcome from the DB.".to_string(),
        exterior_json: HousingJson::Valid(HouseExteriorJson::default()),
        ..Default::default()
    }
}

fn raw(c: ContainerType) -> i32 {
    container_type_id(c) as i32
}

fn memory_database() -> WorldDatabase {
    WorldDatabase::new_at(":memory:")
}

#[test]
fn housing_interior_ready_primary_id_matches_retail_halves() {
    let id = HouseId::from_u64(0x003d_0153_0014_0001);

    assert_eq!(housing_interior_ready_primary_id(id), 0x0014_0001_003d_0153);
}

#[test]
fn finish_loading_defers_only_for_pending_indoor_tail() {
    assert!(should_defer_housing_indoor_finish_loading(TerritoryIntendedUse::HousingIndoor, true));
    assert!(!should_defer_housing_indoor_finish_loading(TerritoryIntendedUse::HousingIndoor, false));
    assert!(!should_defer_housing_indoor_finish_loading(TerritoryIntendedUse::HousingOutdoor, true));
}

#[test]
fn housing_object_data_value_sets_use_flat_indoor_furniture_slots() {
    let mut first = furniture_row(111, Position::default(), 0.0);
    first.container_type = raw(ContainerType::HousingInteriorPlacedItems1);
    first.slot = 4;

    let mut second_page = furniture_row(222, Position::default(), 0.0);
    second_page.container_type = raw(ContainerType::HousingInteriorPlacedItems2);
    second_page.slot = 2;

    let value_sets = housing_object_data_value_sets_from_rows(&vec![first, second_page]);

    assert_eq!(value_sets.len(), 2);
    assert_eq!(value_sets[0].furniture_index, 4);
    assert_eq!(value_sets[1].furniture_index, 52);
    assert!(value_sets.iter().all(|value_set| value_set.value_count == 0));
}

#[test]
fn indoor_furniture_object_overlays_sync_before_finish_zoning() {
    assert!(should_sync_indoor_overlays_after_remodel(TerritoryIntendedUse::HousingIndoor, true, true));
    assert!(!should_sync_indoor_overlays_after_remodel(TerritoryIntendedUse::HousingIndoor, false, true));
    assert!(!should_sync_indoor_overlays_after_remodel(TerritoryIntendedUse::HousingIndoor, true, false));
    assert!(should_sync_indoor_overlays_after_loading(TerritoryIntendedUse::HousingIndoor, false, true));
    assert!(!should_sync_indoor_overlays_after_loading(TerritoryIntendedUse::HousingIndoor, true, true));
    assert!(!should_sync_indoor_overlays_after_remodel(TerritoryIntendedUse::HousingOutdoor, true, true));
    assert!(!should_sync_indoor_overlays_on_finish_zoning(TerritoryIntendedUse::HousingIndoor, false));
    assert!(!should_sync_indoor_overlays_on_finish_zoning(TerritoryIntendedUse::HousingIndoor, true));
    assert!(!should_sync_indoor_overlays_on_finish_zoning(TerritoryIntendedUse::HousingOutdoor, true));
}

#[test]
fn outdoor_furniture_object_overlays_do_not_use_indoor_loading_gate() {
    assert!(!should_sync_indoor_overlays_after_loading(TerritoryIntendedUse::HousingOutdoor, false, true));
    assert!(!should_sync_indoor_overlays_on_finish_zoning(TerritoryIntendedUse::HousingIndoor, false));
}

#[test]
fn interior_placed_furniture_row_filter_rejects_exterior_and_storeroom_rows() {
    let mut indoor = furniture_row(111, Position::default(), 0.0);
    indoor.container_type = raw(ContainerType::HousingInteriorPlacedItems1);
    assert!(is_interior_placed_furniture_row(&indoor));

    let mut last_indoor_page = furniture_row(222, Position::default(), 0.0);
    last_indoor_page.container_type = raw(ContainerType::HousingInteriorPlacedItems12);
    assert!(is_interior_placed_furniture_row(&last_indoor_page));

    let mut exterior = furniture_row(333, Position::default(), 0.0);
    exterior.container_type = raw(ContainerType::HousingExteriorPlacedItems);
    assert!(!is_interior_placed_furniture_row(&exterior));

    let mut storeroom = furniture_row(444, Position::default(), 0.0);
    storeroom.container_type = raw(ContainerType::HousingInteriorStoreroom1);
    assert!(!is_interior_placed_furniture_row(&storeroom));

    let mut unplaced_indoor = indoor;
    unplaced_indoor.placed = false;
    assert!(!is_interior_placed_furniture_row(&unplaced_indoor));
}

#[test]
fn housing_furniture_object_from_row_rejects_rows_from_the_other_area() {
    let mut exterior = furniture_row(321, Position::default(), 0.5);
    exterior.container_type = raw(ContainerType::HousingExteriorPlacedItems);
    exterior.slot = 5;

    assert!(housing_furniture_object_from_row(&exterior, false, 5).is_some());
    assert!(housing_furniture_object_from_row(&exterior, true, 0).is_none());

    let mut interior = furniture_row(654, Position::default(), 1.0);
    interior.container_type = raw(ContainerType::HousingInteriorPlacedItems1);
    interior.slot = 3;

    assert!(housing_furniture_object_from_row(&interior, true, 0).is_some());
    assert!(housing_furniture_object_from_row(&interior, false, 5).is_none());
}

#[test]
fn housing_furniture_objects_from_rows_keeps_only_matching_placed_area() {
    let mut interior = furniture_row(654, Position::default(), 1.0);
    interior.container_type = raw(ContainerType::HousingInteriorPlacedItems1);
    interior.slot = 3;

    let mut exterior = furniture_row(321, Position::default(), 0.5);
    exterior.container_type = raw(ContainerType::HousingExteriorPlacedItems);
    exterior.slot = 5;

    let mut storeroom = furniture_row(111, Position::default(), 0.0);
    storeroom.container_type = raw(ContainerType::HousingInteriorStoreroom1);
    storeroom.slot = 8;

    let mut unplaced = interior.clone();
    unplaced.placed = false;

    let rows = vec![interior, exterior, storeroom, unplaced];
    let indoor_objects = housing_furniture_objects_from_rows(&rows, true, 0);
    let outdoor_objects = housing_furniture_objects_from_rows(&rows, false, 5);

    assert_eq!(indoor_objects.len(), 1);
    assert_eq!(indoor_objects[0].slot, 3);
    assert!(indoor_objects[0].indoors);
    assert_eq!(outdoor_objects.len(), 1);
    assert_eq!(outdoor_objects[0].slot, 5);
    assert!(!outdoor_objects[0].indoors);
    assert_eq!(outdoor_objects[0].plot_index, 5);
}

#[test]
fn housing_exterior_appearance_slots_follow_sapphire_order() {
    let exterior = HouseExterior {
        roof_id: 11,
        walls_id: 12,
        windows_id: 13,
        door_id: 14,
        roof_fixture_id: 15,
        wall_fixture_id: 16,
        above_door_banner_id: 17,
        fence_id: 18,
        colors: HouseExteriorColors {
            roof: 1,
            walls: 2,
            windows: 3,
            door: 4,
            roof_fixture: 5,
            wall_fixture: 6,
            above_door_banner: 7,
            fence: 8,
        },
    };

    let specs = housing_exterior_appearance_slot_specs(&exterior);

    assert_eq!(specs.len(), 8);
    assert_eq!(specs[0].slot, 1);
    assert_eq!(specs[0].additional_data, 11);
    assert_eq!(specs[0].item_ui_category, ITEM_UI_CATEGORY_ROOF);
    assert_eq!(specs[0].stain, 1);
    assert_eq!(specs[7].slot, 8);
    assert_eq!(specs[7].additional_data, 18);
    assert_eq!(specs[7].item_ui_category, ITEM_UI_CATEGORY_FENCE);
    assert_eq!(specs[7].stain, 8);
}

#[test]
fn housing_interior_appearance_slots_follow_sapphire_order() {
    let details = housing_interior_details(2);

    let house_specs = housing_interior_appearance_slot_specs(&details, false);
    let apartment_specs = housing_interior_appearance_slot_specs(&details, true);

    assert_eq!(house_specs.len(), 9);
    assert_eq!(house_specs[0].slot, 0);
    assert_eq!(house_specs[0].additional_data, MINIMAL_INTERIOR_WALL);
    assert_eq!(house_specs[0].item_ui_category, ITEM_UI_CATEGORY_INTERIOR_WALL);
    assert_eq!(house_specs[1].slot, 1);
    assert_eq!(house_specs[1].item_ui_category, ITEM_UI_CATEGORY_FLOORING);
    assert_eq!(house_specs[2].slot, 2);
    assert_eq!(house_specs[2].item_ui_category, ITEM_UI_CATEGORY_CEILING_LIGHT);
    assert_eq!(house_specs[8].slot, 8);
    assert_eq!(house_specs[8].additional_data, MINIMAL_INTERIOR_LIGHT);
    assert_eq!(apartment_specs.len(), 3);
}

#[test]
fn housing_interior_appearance_slots_map_to_fields_and_categories() {
    let expected = [
        (HousingInteriorField::GroundWalls, ITEM_UI_CATEGORY_INTERIOR_WALL),
        (HousingInteriorField::GroundFloor, ITEM_UI_CATEGORY_FLOORING),
        (HousingInteriorField::GroundChandelier, ITEM_UI_CATEGORY_CEILING_LIGHT),
        (HousingInteriorField::TopWalls, ITEM_UI_CATEGORY_INTERIOR_WALL),
        (HousingInteriorField::TopFloor, ITEM_UI_CATEGORY_FLOORING),
        (HousingInteriorField::TopChandelier, ITEM_UI_CATEGORY_CEILING_LIGHT),
        (HousingInteriorField::CellarWalls, ITEM_UI_CATEGORY_INTERIOR_WALL),
        (HousingInteriorField::CellarFloor, ITEM_UI_CATEGORY_FLOORING),
        (HousingInteriorField::CellarChandelier, ITEM_UI_CATEGORY_CEILING_LIGHT),
    ];

    for (slot, (field, category)) in expected.into_iter().enumerate() {
        let slot = slot as u16;
        assert_eq!(housing_interior_field_for_appearance_slot(slot), Some(field));
        assert_eq!(housing_interior_item_ui_category_for_slot(slot), Some(category));
    }

    assert_eq!(housing_interior_field_for_appearance_slot(9), None);
}

#[test]
fn default_house_interior_appearance_target_uses_main_floor_slots() {
    assert_eq!(
        default_housing_appearance_target_slot(ITEM_UI_CATEGORY_INTERIOR_WALL, TerritoryIntendedUse::HousingIndoor, false),
        Some(3)
    );
    assert_eq!(
        default_housing_appearance_target_slot(ITEM_UI_CATEGORY_FLOORING, TerritoryIntendedUse::HousingIndoor, false),
        Some(4)
    );
    assert_eq!(
        default_housing_appearance_target_slot(ITEM_UI_CATEGORY_CEILING_LIGHT, TerritoryIntendedUse::HousingIndoor, false),
        Some(5)
    );
}

#[test]
fn housing_marker_target_slot_overrides_house_interior_fallback() {
    assert_eq!(
        housing_appearance_marker_target_slot(ITEM_UI_CATEGORY_CEILING_LIGHT, TerritoryIntendedUse::HousingIndoor, false, Some(2)),
        Some(2)
    );
}

#[test]
fn housing_marker_target_slot_rejects_category_mismatch() {
    assert_eq!(
        housing_appearance_marker_target_slot(ITEM_UI_CATEGORY_CEILING_LIGHT, TerritoryIntendedUse::HousingIndoor, false, Some(1)),
        None
    );
}

#[test]
fn housing_marker_target_slot_rejects_apartment_upper_floor_slot() {
    assert_eq!(
        housing_appearance_marker_target_slot(ITEM_UI_CATEGORY_CEILING_LIGHT, TerritoryIntendedUse::HousingIndoor, true, Some(5)),
        None
    );
}

#[test]
fn default_apartment_interior_appearance_target_uses_only_floor_slots() {
    assert_eq!(
        default_housing_appearance_target_slot(ITEM_UI_CATEGORY_INTERIOR_WALL, TerritoryIntendedUse::HousingIndoor, true),
        Some(0)
    );
    assert_eq!(
        default_housing_appearance_target_slot(ITEM_UI_CATEGORY_FLOORING, TerritoryIntendedUse::HousingIndoor, true),
        Some(1)
    );
    assert_eq!(
        default_housing_appearance_target_slot(ITEM_UI_CATEGORY_CEILING_LIGHT, TerritoryIntendedUse::HousingIndoor, true),
        Some(2)
    );
}

#[test]
fn housing_exterior_appearance_slots_map_to_fields_categories_and_colors() {
    let expected = [
        (1, HousingExteriorField::Roof, ITEM_UI_CATEGORY_ROOF, HousingExteriorColorField::Roof),
        (2, HousingExteriorField::Walls, ITEM_UI_CATEGORY_EXTERIOR_WALL, HousingExteriorColorField::Walls),
        (3, HousingExteriorField::Windows, ITEM_UI_CATEGORY_WINDOW, HousingExteriorColorField::Windows),
        (4, HousingExteriorField::Door, ITEM_UI_CATEGORY_DOOR, HousingExteriorColorField::Door),
        (5, HousingExteriorField::RoofFixture, ITEM_UI_CATEGORY_ROOF_DECORATION, HousingExteriorColorField::RoofFixture),
        (
            6,
            HousingExteriorField::WallFixture,
            ITEM_UI_CATEGORY_EXTERIOR_WALL_DECORATION,
            HousingExteriorColorField::WallFixture,
        ),
        (7, HousingExteriorField::AboveDoorBanner, ITEM_UI_CATEGORY_PLACARD, HousingExteriorColorField::AboveDoorBanner),
        (8, HousingExteriorField::Fence, ITEM_UI_CATEGORY_FENCE, HousingExteriorColorField::Fence),
    ];

    for (slot, field, category, color_field) in expected {
        assert_eq!(housing_exterior_field_for_appearance_slot(slot), Some(field));
        assert_eq!(housing_exterior_item_ui_category_for_slot(slot), Some(category));
        assert_eq!(housing_exterior_color_field_for_appearance_slot(slot), Some(color_field));
    }

    assert_eq!(housing_exterior_field_for_appearance_slot(0), None);
}

#[test]
fn housing_reset_cache_helper_clears_inventory_and_active_selection_when_requested() {
    let mut active_estate = Some(active_housing_estate(
        &HousingEstate { land_ident: 1005, house_id: house_id(5, 0, false).to_u64() as i64, ..Default::default() },
        false,
    ));
    let mut inventory = HousingInventory::new();
    assert!(inventory.set_item(
        ContainerType::HousingInteriorPlacedItems1,
        0,
        Item { quantity: 1, item_id: 1000, ..Default::default() },
    ));

    clear_housing_reset_cache(&mut active_estate, &mut inventory, true);

    assert!(active_estate.is_none());
    assert!(inventory.get_item(ContainerType::HousingInteriorPlacedItems1, 0).unwrap().is_empty_slot());
}

#[test]
fn placed_container_for_flat_slot_maps_indoor_pages() {
    assert_eq!(placed_container_for_flat_slot(50, true), Some((ContainerType::HousingInteriorPlacedItems2, 0)));
}

#[test]
fn placed_container_for_flat_slot_maps_outdoor_slots() {
    assert_eq!(placed_container_for_flat_slot(0, false), Some((ContainerType::HousingExteriorPlacedItems, 0)));
    assert_eq!(placed_container_for_flat_slot(49, false), Some((ContainerType::HousingExteriorPlacedItems, 49)));
}

#[test]
fn placed_container_for_flat_slot_rejects_out_of_range_slots() {
    assert_eq!(placed_container_for_flat_slot(600, true), None);
    assert_eq!(placed_container_for_flat_slot(50, false), None);
}

#[test]
fn housing_indoor_entry_transform_keeps_house_and_apartment_defaults_separate() {
    let house = housing_indoor_entry_transform(false);
    let apartment = housing_indoor_entry_transform(true);

    assert_eq!(house.position, position(-0.25, -0.39, 5.0));
    assert_eq!(f32::from_bits(house.rotation_bits), 180.0);
    assert_eq!(apartment.position, position(0.0, 0.0, 0.0));
    assert_eq!(f32::from_bits(apartment.rotation_bits), 0.0);
}

#[test]
fn interior_pattern_requests_are_allowed_from_house_yard() {
    assert!(housing_interior_pattern_area_allows_request(TerritoryIntendedUse::HousingOutdoor));
    assert!(housing_interior_pattern_area_allows_request(TerritoryIntendedUse::HousingIndoor));
    assert!(!housing_interior_pattern_area_allows_request(TerritoryIntendedUse::Inn));
}

#[test]
fn interior_pattern_apply_only_reloads_when_started_inside() {
    assert!(!housing_interior_pattern_apply_should_reload(TerritoryIntendedUse::HousingOutdoor));
    assert!(housing_interior_pattern_apply_should_reload(TerritoryIntendedUse::HousingIndoor));
}

#[test]
fn outdoor_interior_pattern_can_use_owned_house_without_active_ward_context() {
    let mut database = memory_database();
    let mut owned_estate = ward_estate(5, 0, DEFAULT_LOCAL_HOUSING_LAND_FLAGS);
    owned_estate.owner_content_id = Some(100);
    owned_estate.land_ident = 55;
    database.insert_housing_estate_for_test(owned_estate.clone());

    let resolved = active_housing_estate_for_owned_outdoor_pattern(&database, None, 100).unwrap();

    assert_eq!(resolved.land_ident, owned_estate.land_ident);
    assert_eq!(resolved.house_id, HouseId::from_u64(owned_estate.house_id as u64));
    assert!(!resolved.indoors);
}

#[test]
fn housing_indoor_init_resolves_when_active_estate_is_missing_or_outdoor() {
    let estate = ward_estate(5, 0, DEFAULT_LOCAL_HOUSING_LAND_FLAGS);
    let outdoor = active_housing_estate(&estate, false);
    let indoor = active_housing_estate(&estate, true);

    assert!(housing_indoor_init_needs_resolution(None));
    assert!(housing_indoor_init_needs_resolution(Some(&outdoor)));
    assert!(!housing_indoor_init_needs_resolution(Some(&indoor)));
}

#[test]
fn minimal_housing_interior_details_use_plain_white_large_preset() {
    let details = housing_interior_details(3);

    assert_eq!(details.light_level, 3);
    assert_eq!(details.ground_walls, 66111);
    assert_eq!(details.ground_floor, 65591);
    assert_eq!(details.ground_chandelier, 65848);
    assert_eq!(details.top_walls, 66111);
    assert_eq!(details.top_floor, 65591);
    assert_eq!(details.top_chandelier, 65848);
    assert_eq!(details.cellar_walls, 66111);
    assert_eq!(details.cellar_floor, 65591);
    assert_eq!(details.cellar_chandelier, 65848);
    assert_eq!(details.unk_interior, 65848);
}

fn full_interior_json(base: u32, window_style: u16, door_style: u16, door_stain: u16) -> HouseInteriorJson {
    HouseInteriorJson {
        renovation_row_id: None,
        window_style: Some(window_style),
        door_style: Some(door_style),
        door_stain: Some(door_stain),
        ground_walls: Some(base),
        ground_floor: Some(base + 1),
        ground_chandelier: Some(base + 2),
        top_walls: Some(2 * base),
        top_floor: Some(2 * base + 1),
        top_chandelier: Some(2 * base + 2),
        cellar_walls: Some(3 * base),
        cellar_floor: Some(3 * base + 1),
        cellar_chandelier: Some(3 * base + 2),
    }
}

#[test]
fn housing_interior_details_uses_interior_json_over_minimal_defaults() {
    let json = HousingJson::Valid(full_interior_json(10, 1, 2, 3));

    let details = housing_interior_details_from_json(&json, 4, false);

    assert_eq!(details.window_style, 1);
    assert_eq!(details.door_style, 2);
    assert_eq!(details.door_stain, 3);
    assert_eq!(details.light_level, 4);
    assert_eq!(details.ground_walls, 10);
    assert_eq!(details.ground_floor, 11);
    assert_eq!(details.ground_chandelier, 12);
    assert_eq!(details.top_walls, 20);
    assert_eq!(details.top_floor, 21);
    assert_eq!(details.top_chandelier, 22);
    assert_eq!(details.cellar_walls, 30);
    assert_eq!(details.cellar_floor, 31);
    assert_eq!(details.cellar_chandelier, 32);
}

#[test]
fn invalid_housing_interior_json_falls_back_to_minimal_defaults() {
    let details = housing_interior_details_from_json(&HousingJson::Malformed("{".to_string()), 2, false);

    assert_eq!(details.light_level, 2);
    assert_eq!(details.ground_walls, MINIMAL_INTERIOR_WALL);
    assert_eq!(details.ground_floor, MINIMAL_INTERIOR_FLOOR);
    assert_eq!(details.ground_chandelier, MINIMAL_INTERIOR_LIGHT);
    assert_eq!(details.top_walls, MINIMAL_INTERIOR_WALL);
    assert_eq!(details.top_floor, MINIMAL_INTERIOR_FLOOR);
    assert_eq!(details.top_chandelier, MINIMAL_INTERIOR_LIGHT);
    assert_eq!(details.cellar_walls, MINIMAL_INTERIOR_WALL);
    assert_eq!(details.cellar_floor, MINIMAL_INTERIOR_FLOOR);
    assert_eq!(details.cellar_chandelier, MINIMAL_INTERIOR_LIGHT);
    assert_eq!(details.unk_interior, MINIMAL_INTERIOR_LIGHT);
}

#[test]
fn apartment_interior_json_does_not_populate_top_or_cellar_floors() {
    let json = HousingJson::Valid(full_interior_json(100, 7, 8, 9));

    let details = housing_interior_details_from_json(&json, 1, true);

    assert_eq!(details.window_style, 7);
    assert_eq!(details.door_style, 8);
    assert_eq!(details.door_stain, 9);
    assert_eq!(details.light_level, 1);
    assert_eq!(details.ground_walls, 100);
    assert_eq!(details.ground_floor, 101);
    assert_eq!(details.ground_chandelier, 102);
    assert_eq!(details.top_walls, 0);
    assert_eq!(details.top_floor, 0);
    assert_eq!(details.top_chandelier, 0);
    assert_eq!(details.cellar_walls, 0);
    assert_eq!(details.cellar_floor, 0);
    assert_eq!(details.cellar_chandelier, 0);
    assert_eq!(details.unk_interior, 0);
}

#[test]
fn update_exterior_json_color_preserves_existing_fields() {
    let existing = HousingJson::Valid(HouseExteriorJson {
        roof_id: Some(12),
        colors: Some(HouseExteriorColorsJson { roof: Some(3), walls: Some(4), ..Default::default() }),
        ..Default::default()
    });

    let exterior = update_exterior_json_color(&existing, HousingExteriorColorField::Walls, 9).unwrap();

    assert_eq!(exterior.roof_id, Some(12));
    assert_eq!(exterior.colors.as_ref().and_then(|colors| colors.roof), Some(3));
    assert_eq!(exterior.colors.and_then(|colors| colors.walls), Some(9));
}

#[test]
fn update_interior_json_field_preserves_existing_fields() {
    let existing = HousingJson::Valid(HouseInteriorJson {
        window_style: Some(1),
        ground_floor: Some(65591),
        ..Default::default()
    });

    let interior = update_interior_json_field(&existing, HousingInteriorField::GroundWalls, 66111).unwrap();

    assert_eq!(interior.window_style, Some(1));
    assert_eq!(interior.ground_floor, Some(65591));
    assert_eq!(interior.ground_walls, Some(66111));
}

#[test]
fn update_interior_json_renovation_row_id_preserves_fixture_fields() {
    let existing = HousingJson::Valid(HouseInteriorJson {
        window_style: Some(1),
        ground_floor: Some(65591),
        ground_walls: Some(66111),
        ..Default::default()
    });

    let interior = update_interior_json_renovation_row_id(&existing, 18).unwrap();

    assert_eq!(interior.renovation_row_id, Some(18));
    assert_eq!(interior.window_style, Some(1));
    assert_eq!(interior.ground_floor, Some(65591));
    assert_eq!(interior.ground_walls, Some(66111));
    assert_eq!(housing_interior_renovation_row_id_from_json(&HousingJson::Valid(interior)), Some(18));
}

#[test]
fn invalid_exterior_json_mutation_returns_error_and_keeps_existing_string() {
    let existing_json = "{";
    let existing = HousingJson::<HouseExteriorJson>::Malformed(existing_json.to_string());
    let outcome = update_exterior_json_field(&existing, HousingExteriorField::Roof, 9);

    assert!(outcome.is_err(), "malformed exterior json must not be treated as a writable default");

    let persisted = match outcome {
        Ok(json) => HousingJson::Valid(json),
        Err(_) => existing.clone(),
    };
    match persisted {
        HousingJson::Malformed(text) => assert_eq!(text, existing_json),
        HousingJson::Valid(_) => panic!("a malformed record was replaced"),
    }
}

#[test]
fn invalid_interior_json_mutation_returns_error_and_keeps_existing_string() {
    let existing_json = "{";
    let existing = HousingJson::<HouseInteriorJson>::Malformed(existing_json.to_string());
    let outcome = update_interior_json_field(&existing, HousingInteriorField::GroundWalls, 66111);

    assert!(outcome.is_err(), "malformed interior json must not be treated as a writable default");

    let persisted = match outcome {
        Ok(json) => HousingJson::Valid(json),
        Err(_) => existing.clone(),
    };
    match persisted {
        HousingJson::Malformed(text) => assert_eq!(text, existing_json),
        HousingJson::Valid(_) => panic!("a malformed record was replaced"),
    }
}

#[test]
fn additional_chambers_door_is_hidden_for_personal_estates_only() {
    assert!(should_hide_additional_chambers_door(0x0B));
    assert!(!should_hide_additional_chambers_door(0x1B));
}

#[test]
fn housing_edit_permission_requires_matching_owner() {
    let mut estate = estate(house_id(5, 0, false), 0x0B, false);
    estate.owner_content_id = Some(100);

    assert!(can_edit_housing_estate(&estate, 100));
    assert!(!can_edit_housing_estate(&estate, 200));

    estate.owner_content_id = None;
    assert!(!can_edit_housing_estate(&estate, 100));
}

#[test]
fn outdoor_housing_location_from_raw_entry_normalizes_land_set_entries() {
    let context = ActiveHousingWardContext { territory_type_id: 340, ward_index: 2, division: 0 };

    assert_eq!(
        outdoor_housing_location_from_raw_entry(context, 5),
        Some(OutdoorHousingLocation { territory_type_id: 340, ward_index: 2, division: 0, plot_index: 5, raw_plot_index: 5 })
    );
    assert_eq!(
        outdoor_housing_location_from_raw_entry(context, 35),
        Some(OutdoorHousingLocation { territory_type_id: 340, ward_index: 2, division: 1, plot_index: 5, raw_plot_index: 35 })
    );
    assert_eq!(outdoor_housing_location_from_raw_entry(context, 60), None);
    assert_eq!(outdoor_housing_location_from_raw_entry(context, 0xFF), None);
}

#[test]
fn outdoor_edit_row_requires_resolved_location_and_owner() {
    let main_location =
        OutdoorHousingLocation { territory_type_id: 340, ward_index: 2, division: 0, plot_index: 5, raw_plot_index: 5 };
    let subdivision_location = OutdoorHousingLocation { division: 1, raw_plot_index: 35, ..main_location };
    let mut main_estate = ward_estate(5, 0, 0x0B);
    main_estate.owner_content_id = Some(100);
    let mut subdivision_estate = ward_estate(5, 1, 0x0B);
    subdivision_estate.owner_content_id = Some(100);

    let active = active_housing_estate_for_outdoor_row(&main_estate, main_location, 100).unwrap();
    assert_eq!(active.land_ident, main_estate.land_ident);
    assert_eq!(active.house_id, HouseId::from_u64(main_estate.house_id as u64));
    assert!(!active.indoors);

    assert!(
        active_housing_estate_for_outdoor_row(&main_estate, main_location, 200).is_none(),
        "wrong owner must not edit the resolved outdoor estate"
    );
    assert!(
        active_housing_estate_for_outdoor_row(&main_estate, subdivision_location, 100).is_none(),
        "main-division estates must not satisfy subdivision packet entries"
    );
    assert!(active_housing_estate_for_outdoor_row(&subdivision_estate, subdivision_location, 100).is_some());
}

#[test]
fn outdoor_edit_row_normalizes_subdivision_house_id_to_raw_landset_entry() {
    let subdivision_location =
        OutdoorHousingLocation { territory_type_id: 340, ward_index: 2, division: 1, plot_index: 5, raw_plot_index: 35 };
    let mut subdivision_estate = ward_estate(5, 1, 0x0B);
    subdivision_estate.owner_content_id = Some(100);
    subdivision_estate.house_id = house_id(5, 0, false).to_u64() as i64;

    let active = active_housing_estate_for_outdoor_row(&subdivision_estate, subdivision_location, 100).unwrap();

    assert_eq!(active.house_id, house_id(35, 0, false));
    assert!(!active.indoors);
}

#[test]
fn outdoor_edit_resolution_requires_active_ward_context_even_with_owned_default_estate() {
    let mut estate = ward_estate(
        DEFAULT_LOCAL_HOUSING_PLOT_INDEX as i32,
        DEFAULT_LOCAL_HOUSING_DIVISION as i32,
        DEFAULT_LOCAL_HOUSING_LAND_FLAGS,
    );
    estate.ward_index = DEFAULT_LOCAL_HOUSING_WARD_INDEX as i32;
    estate.owner_content_id = Some(100);

    let mut database = memory_database();
    database.insert_housing_estate_for_test(estate);

    assert!(
        resolve_active_housing_estate_for_outdoor_edit(&database, None, 21, DEFAULT_LOCAL_HOUSING_PLOT_INDEX, 100)
            .is_none(),
        "outdoor placement/edit must not fabricate default local ward context for authoritative writes"
    );
}

#[test]
fn ward_browse_context_is_display_only_and_does_not_authorize_outdoor_writes() {
    let mut estate = ward_estate(5, 0, DEFAULT_LOCAL_HOUSING_LAND_FLAGS);
    estate.owner_content_id = Some(100);

    let mut database = memory_database();
    database.insert_housing_estate_for_test(estate);

    let browse_context = ActiveHousingWardContext { territory_type_id: 340, ward_index: 2, division: 0 };
    let default_context = ActiveHousingWardContext {
        territory_type_id: 999,
        ward_index: DEFAULT_LOCAL_HOUSING_WARD_INDEX,
        division: DEFAULT_LOCAL_HOUSING_DIVISION,
    };

    assert_eq!(
        display_housing_ward_context_or_default(Some(browse_context), None, None, default_context),
        browse_context,
        "Lua/display lookups should keep the browsed ward context"
    );
    assert!(
        trusted_housing_ward_context_after_display_update(None, browse_context).is_none(),
        "ward browsing must not create outdoor write authority"
    );
    assert!(
        resolve_active_housing_estate_for_outdoor_owner_gate(
            &database,
            trusted_housing_ward_context_after_display_update(None, browse_context),
            21,
            &ActiveHousingEstate {
                land_ident: house_id(5, 0, false).to_u64() as i64,
                house_id: house_id(5, 0, false),
                indoors: false,
            },
            100,
        )
        .is_none(),
        "owner gate must ignore display-only ward context"
    );
    assert!(
        resolve_active_housing_estate_for_outdoor_edit(
            &database,
            trusted_housing_ward_context_after_display_update(None, browse_context),
            21,
            5,
            100,
        )
        .is_none(),
        "outdoor placement/edit must ignore display-only ward context"
    );
}

#[test]
fn vacant_placard_context_is_display_only_and_does_not_authorize_outdoor_writes() {
    let mut estate = ward_estate(5, 0, DEFAULT_LOCAL_HOUSING_LAND_FLAGS);
    estate.owner_content_id = Some(100);

    let mut database = memory_database();
    database.insert_housing_estate_for_test(estate);

    let vacant_placard_context = ActiveHousingWardContext { territory_type_id: 340, ward_index: 2, division: 0 };

    assert!(
        trusted_housing_ward_context_after_vacant_placard(None, vacant_placard_context).is_none(),
        "vacant placard display must not create outdoor write authority"
    );
    assert!(
        resolve_active_housing_estate_for_outdoor_edit(
            &database,
            trusted_housing_ward_context_after_vacant_placard(None, vacant_placard_context),
            21,
            5,
            100,
        )
        .is_none(),
        "outdoor placement/edit must ignore vacant placard display context"
    );
}

#[test]
fn non_owner_occupied_placard_selection_is_display_only_and_preserves_exit_target() {
    let mut owned_estate = ward_estate(5, 0, DEFAULT_LOCAL_HOUSING_LAND_FLAGS);
    owned_estate.owner_content_id = Some(100);
    owned_estate.land_ident = 55;

    let mut browsed_estate = ward_estate(6, 0, DEFAULT_LOCAL_HOUSING_LAND_FLAGS);
    browsed_estate.owner_content_id = Some(200);
    browsed_estate.land_ident = 66;

    let existing_active_estate = active_housing_estate(&owned_estate, true);

    assert!(
        placard_authoritative_estate(&browsed_estate, 100).is_none(),
        "non-owner occupied placards must remain display-only"
    );
    assert_eq!(
        existing_active_estate.house_id,
        HouseId::from_u64(owned_estate.house_id as u64),
        "exit resolution should keep targeting the pre-existing authoritative estate"
    );
}

#[test]
fn owner_occupied_placard_selection_promotes_authoritative_context() {
    let mut estate = ward_estate(6, 0, DEFAULT_LOCAL_HOUSING_LAND_FLAGS);
    estate.owner_content_id = Some(100);
    estate.land_ident = 66;

    let active = placard_authoritative_estate(&estate, 100).expect("owner occupied placard should establish authority");

    assert_eq!(active.land_ident, estate.land_ident);
    assert_eq!(
        active.house_id,
        outdoor_house_id_from_estate(&estate),
        "placard authority should use the outdoor placard house id"
    );
    assert!(!active.indoors);
}

#[test]
fn outdoor_init_does_not_promote_default_context_to_authoritative_edit_context() {
    let mut estate = ward_estate(
        DEFAULT_LOCAL_HOUSING_PLOT_INDEX as i32,
        DEFAULT_LOCAL_HOUSING_DIVISION as i32,
        DEFAULT_LOCAL_HOUSING_LAND_FLAGS,
    );
    estate.territory_type_id = 340;
    estate.world_id = 21;
    estate.ward_index = DEFAULT_LOCAL_HOUSING_WARD_INDEX as i32;
    estate.owner_content_id = Some(100);

    let mut database = memory_database();
    database.insert_housing_estate_for_test(estate.clone());

    let display_context = ActiveHousingWardContext {
        territory_type_id: 340,
        ward_index: DEFAULT_LOCAL_HOUSING_WARD_INDEX,
        division: DEFAULT_LOCAL_HOUSING_DIVISION,
    };
    let active_estate = active_housing_estate(&estate, false);
    let authoritative_context = outdoor_init_authoritative_context(None, display_context, 340);

    assert!(authoritative_context.is_none(), "outdoor init must not turn a default local context into edit authority");
    assert!(
        resolve_active_housing_estate_for_outdoor_owner_gate(&database, authoritative_context, 21, &active_estate, 100)
            .is_none(),
        "owner gate must reject bootstrap estate without a real active ward context"
    );
    assert!(
        resolve_active_housing_estate_for_outdoor_edit(
            &database,
            authoritative_context,
            21,
            DEFAULT_LOCAL_HOUSING_PLOT_INDEX,
            100,
        )
        .is_none(),
        "outdoor edit must reject bootstrap estate without a real active ward context"
    );

    let explicit_context = outdoor_init_authoritative_context(Some(display_context), display_context, 340);

    assert!(
        resolve_active_housing_estate_for_outdoor_owner_gate(&database, explicit_context, 21, &active_estate, 100)
            .is_some(),
        "a trusted explicit outdoor context should still authorize the owner gate"
    );
    assert!(
        resolve_active_housing_estate_for_outdoor_edit(&database, explicit_context, 21, DEFAULT_LOCAL_HOUSING_PLOT_INDEX, 100)
            .is_some(),
        "a trusted explicit outdoor context should still authorize plot edits"
    );
}

#[test]
fn outdoor_init_display_prefers_matching_active_context_over_stale_display_context() {
    let active_context = ActiveHousingWardContext { territory_type_id: 340, ward_index: 2, division: 0 };
    let stale_display_context = ActiveHousingWardContext { territory_type_id: 341, ward_index: 9, division: 1 };
    let default_context = ActiveHousingWardContext {
        territory_type_id: 340,
        ward_index: DEFAULT_LOCAL_HOUSING_WARD_INDEX,
        division: DEFAULT_LOCAL_HOUSING_DIVISION,
    };

    assert_eq!(
        outdoor_init_display_context(Some(active_context), Some(stale_display_context), default_context, 340),
        active_context,
        "outdoor init HouseList selection should trust active context for the entered zone"
    );
}

#[test]
fn outdoor_init_display_can_use_display_context_without_active_context() {
    let display_context = ActiveHousingWardContext { territory_type_id: 341, ward_index: 9, division: 1 };
    let default_context = ActiveHousingWardContext {
        territory_type_id: 340,
        ward_index: DEFAULT_LOCAL_HOUSING_WARD_INDEX,
        division: DEFAULT_LOCAL_HOUSING_DIVISION,
    };

    assert_eq!(
        outdoor_init_display_context(None, Some(display_context), default_context, 340),
        ActiveHousingWardContext { territory_type_id: 340, ..display_context },
        "display context should still select the HouseList ward when no trusted active context exists"
    );
}

#[test]
fn outdoor_init_display_ignores_bootstrap_active_estate_context_without_authority() {
    let mut estate = ward_estate(
        DEFAULT_LOCAL_HOUSING_PLOT_INDEX as i32,
        DEFAULT_LOCAL_HOUSING_DIVISION as i32,
        DEFAULT_LOCAL_HOUSING_LAND_FLAGS,
    );
    estate.territory_type_id = 340;
    estate.world_id = 21;
    estate.ward_index = DEFAULT_LOCAL_HOUSING_WARD_INDEX as i32;
    estate.owner_content_id = Some(100);

    let mut database = memory_database();
    database.insert_housing_estate_for_test(estate.clone());

    let bootstrap_context = active_housing_ward_context_from_estate(&estate);
    let display_context =
        ActiveHousingWardContext { territory_type_id: 340, ward_index: 9, division: DEFAULT_LOCAL_HOUSING_DIVISION };
    let default_context = ActiveHousingWardContext {
        territory_type_id: 340,
        ward_index: DEFAULT_LOCAL_HOUSING_WARD_INDEX,
        division: DEFAULT_LOCAL_HOUSING_DIVISION,
    };

    assert_eq!(
        outdoor_init_display_context(Some(bootstrap_context), Some(display_context), default_context, 340),
        bootstrap_context,
        "the old call shape would trust the bootstrap local estate context"
    );

    let active_context = outdoor_init_active_context(None, Some(bootstrap_context));
    let selected_context = outdoor_init_display_context(active_context, Some(display_context), default_context, 340);

    assert_eq!(
        selected_context, display_context,
        "outdoor init HouseList selection must use display context when there is no trusted active context"
    );

    let authoritative_context = outdoor_init_authoritative_context(None, selected_context, 340);
    let active_estate = active_housing_estate(&estate, false);

    assert!(authoritative_context.is_none(), "outdoor init display selection must not create outdoor write authority");
    assert!(
        resolve_active_housing_estate_for_outdoor_owner_gate(&database, authoritative_context, 21, &active_estate, 100)
            .is_none(),
        "owner gate must reject bootstrap estate without a real active ward context"
    );
    assert!(
        resolve_active_housing_estate_for_outdoor_edit(
            &database,
            authoritative_context,
            21,
            DEFAULT_LOCAL_HOUSING_PLOT_INDEX,
            100,
        )
        .is_none(),
        "outdoor edit must reject bootstrap estate without a real active ward context"
    );
}

#[test]
fn outdoor_init_clears_stale_active_context_when_entering_different_housing_zone() {
    let stale_context = ActiveHousingWardContext { territory_type_id: 340, ward_index: 2, division: 0 };
    let display_context = ActiveHousingWardContext {
        territory_type_id: 341,
        ward_index: DEFAULT_LOCAL_HOUSING_WARD_INDEX,
        division: DEFAULT_LOCAL_HOUSING_DIVISION,
    };

    assert!(
        outdoor_init_authoritative_context(Some(stale_context), display_context, 341).is_none(),
        "stale active housing context from another outdoor zone must not survive transition"
    );
    assert_eq!(
        display_housing_ward_context_or_default(Some(display_context), None, None, stale_context),
        display_context,
        "display context can still select the HouseList ward after stale authority is cleared"
    );
}

#[test]
fn outdoor_edit_rejects_stale_context() {
    let mut estate = ward_estate(5, 1, DEFAULT_LOCAL_HOUSING_LAND_FLAGS);
    estate.ward_index = DEFAULT_LOCAL_HOUSING_WARD_INDEX as i32;
    estate.owner_content_id = Some(100);

    let mut database = memory_database();
    database.insert_housing_estate_for_test(estate);

    assert!(
        resolve_active_housing_estate_for_outdoor_edit(&database, None, 21, 35, 100).is_none(),
        "outdoor translation/edit must reject stale ward context for raw subdivision plot ids"
    );
}

#[test]
fn outdoor_owner_gate_allows_subdivision_raw_house_id_with_stale_db_house_id() {
    let stale_house_id = house_id(5, 0, false);
    let raw_subdivision_house_id = house_id(35, 0, false);
    let mut subdivision_estate = ward_estate(5, 1, 0x0B);
    subdivision_estate.owner_content_id = Some(100);
    subdivision_estate.house_id = stale_house_id.to_u64() as i64;
    subdivision_estate.land_ident = stale_house_id.to_u64() as i64;

    let mut database = memory_database();
    database.insert_housing_estate_for_test(subdivision_estate.clone());
    assert!(
        database.housing_estate_by_house_id(raw_subdivision_house_id).is_none(),
        "regression setup must fail if the owner lookup finds the DB row by raw active HouseId"
    );
    assert!(
        database.housing_estate_by_location(340, 21, 2, 1, 5).is_some(),
        "regression setup must be resolvable by outdoor location"
    );

    let active_estate =
        ActiveHousingEstate { land_ident: subdivision_estate.land_ident, house_id: raw_subdivision_house_id, indoors: false };
    let active_ward_context = ActiveHousingWardContext { territory_type_id: 340, ward_index: 2, division: 1 };
    let (resolved, location) =
        resolve_active_housing_estate_for_outdoor_owner_gate(&database, Some(active_ward_context), 21, &active_estate, 100)
            .expect("subdivision outdoor owner gate should resolve by location, not raw active HouseId");

    assert_eq!(resolved.land_ident, subdivision_estate.land_ident);
    assert_eq!(resolved.house_id, raw_subdivision_house_id);
    assert!(!resolved.indoors);
    assert_eq!(location.division, 1);
    assert_eq!(location.plot_index, 5);
    assert_eq!(location.raw_plot_index, 35);
}

#[test]
fn build_outdoor_estate_furniture_lists_uses_estate_house_id_and_exterior_placed_rows() {
    let estate = ward_estate(5, 0, 0x0B);
    let position = position(1.0, 2.0, 3.0);
    let rows = vec![
        HousingFurniture {
            container_type: raw(ContainerType::HousingExteriorPlacedItems),
            catalog_id: 321,
            pos_x_bits: position.x_bits,
            pos_y_bits: position.y_bits,
            pos_z_bits: position.z_bits,
            rotation_bits: 0.5f32.to_bits(),
            placed: true,
            ..Default::default()
        },
        HousingFurniture {
            container_type: raw(ContainerType::HousingInteriorPlacedItems1),
            catalog_id: 654,
            placed: true,
            ..Default::default()
        },
        HousingFurniture {
            container_type: raw(ContainerType::HousingExteriorPlacedItems),
            catalog_id: 999,
            placed: false,
            ..Default::default()
        },
    ];

    let lists = build_outdoor_estate_furniture_lists(&estate, &rows);

    assert_eq!(lists.len(), 1);
    assert_eq!(lists[0].id, HouseId::from_u64(estate.house_id as u64));
    assert_eq!(lists[0].unk2, 0);
    assert_eq!(lists[0].furniture.len(), 1);
    assert_eq!(lists[0].furniture[0].id, 321);
    assert_eq!(lists[0].furniture[0].position, position);
    assert_eq!(f32::from_bits(lists[0].furniture[0].rotation_bits), 0.5);
}

#[test]
fn outdoor_furniture_lists_normalize_subdivision_house_id() {
    let mut estate = ward_estate(5, 1, 0x0B);
    estate.house_id = house_id(5, 0, false).to_u64() as i64;
    let rows = vec![HousingFurniture {
        container_type: raw(ContainerType::HousingExteriorPlacedItems),
        catalog_id: 321,
        placed: true,
        ..Default::default()
    }];

    let lists = build_outdoor_estate_furniture_lists(&estate, &rows);

    assert_eq!(lists.len(), 1);
    assert_eq!(lists[0].id, house_id(35, 0, false));
}

fn owned_row(id: HouseId, territory_type_id: i32, division: i32, plot_index: i32, is_apartment: bool, owner_name: &str, estate_name: &str) -> HousingEstate {
    HousingEstate {
        land_ident: id.to_u64() as i64,
        house_id: id.to_u64() as i64,
        territory_type_id,
        world_id: 21,
        ward_index: 2,
        division,
        plot_index,
        room_number: id.room_number as i32,
        is_apartment,
        owner_content_id: Some(100),
        owner_name: owner_name.to_string(),
        estate_name: estate_name.to_string(),
        ..Default::default()
    }
}

#[test]
fn resolve_active_indoor_housing_estate_preserves_active_apartment_over_owned_house() {
    let mut database = memory_database();
    let apartment = database.insert_housing_estate_for_test(owned_row(house_id(0, 9, true), 340, 0, 0, true, "Apartment Owner", "Apartment"));
    let _house = database.insert_housing_estate_for_test(owned_row(house_id(5, 0, false), 340, 0, 5, false, "House Owner", "House"));
    let active_apartment = ActiveHousingEstate {
        land_ident: apartment.land_ident,
        house_id: HouseId::from_u64(apartment.house_id as u64),
        indoors: true,
    };

    let resolved = resolve_active_indoor_housing_estate(&database, Some(&active_apartment), None, 609, 21, 100)
        .expect("active apartment should resolve");

    assert_eq!(resolved.land_ident, apartment.land_ident);
    assert!(resolved.house_id.unit.apartment_flag);
    assert_eq!(resolved.house_id.room_number, 9);
    assert!(resolved.indoors);
}

#[test]
fn resolve_active_indoor_housing_estate_prefers_owned_apartment_for_apartment_interiors_without_active_estate() {
    let mut database = memory_database();
    let apartment = database.insert_housing_estate_for_test(owned_row(house_id(0, 4, true), 340, 0, 0, true, "Apartment Owner", "Apartment"));
    let house = database.insert_housing_estate_for_test(owned_row(house_id(5, 0, false), 341, 0, 5, false, "House Owner", "House"));

    let resolved = resolve_active_indoor_housing_estate(&database, None, None, 609, 21, 100)
        .expect("apartment interior fallback should resolve an owned apartment");

    assert_eq!(resolved.land_ident, apartment.land_ident);
    assert_ne!(resolved.land_ident, house.land_ident);
    assert!(resolved.house_id.unit.apartment_flag);
    assert_eq!(resolved.house_id.room_number, 4);
    assert!(resolved.indoors);
}

#[test]
fn resolve_indoor_estate_prefers_matching_subdivision_apartment() {
    let mut database = memory_database();
    let main_division_apartment = database.insert_housing_estate_for_test(owned_row(
        house_id(0, 1, true),
        340,
        0,
        0,
        true,
        "Apartment Owner",
        "Main Division Apartment",
    ));
    let subdivision_apartment = database.insert_housing_estate_for_test(owned_row(
        house_id(HOUSING_PLOTS_PER_DIVISION, 1, true),
        340,
        1,
        HOUSING_PLOTS_PER_DIVISION as i32,
        true,
        "Apartment Owner",
        "Subdivision Apartment",
    ));

    let resolved = resolve_active_indoor_housing_estate(
        &database,
        None,
        Some(ActiveHousingWardContext { territory_type_id: 340, ward_index: 2, division: 1 }),
        609,
        21,
        100,
    )
    .expect("subdivision apartment interior fallback should resolve the subdivision apartment");

    assert_eq!(resolved.land_ident, subdivision_apartment.land_ident);
    assert_ne!(resolved.land_ident, main_division_apartment.land_ident);
    assert!(resolved.house_id.unit.apartment_flag);
    assert_eq!(resolved.house_id.room_number, 1);
    assert!(resolved.indoors);
}

#[test]
fn resolve_active_indoor_housing_estate_keeps_house_first_for_non_apartment_interiors_without_active_estate() {
    let mut database = memory_database();
    let apartment = database.insert_housing_estate_for_test(owned_row(house_id(0, 4, true), 340, 0, 0, true, "Apartment Owner", "Apartment"));
    let house = database.insert_housing_estate_for_test(owned_row(house_id(5, 0, false), 341, 0, 5, false, "House Owner", "House"));

    let resolved = resolve_active_indoor_housing_estate(&database, None, None, 1251, 21, 100)
        .expect("house interior fallback should resolve the owned house");

    assert_eq!(resolved.land_ident, house.land_ident);
    assert_ne!(resolved.land_ident, apartment.land_ident);
    assert!(!resolved.house_id.unit.apartment_flag);
    assert!(resolved.indoors);
}

#[test]
fn outdoor_item_removal_requires_active_outdoor_owner_estate() {
    let mut estate = ward_estate(5, 0, 0x0B);
    estate.land_ident = 55;
    estate.owner_content_id = Some(100);
    let active = ActiveHousingEstate { land_ident: estate.land_ident, house_id: house_id(5, 0, false), indoors: false };
    let indoor_active = ActiveHousingEstate { indoors: true, ..active.clone() };

    assert!(
        active_housing_estate_for_outdoor_removal_row(None, Some(&estate), 100).is_none(),
        "outdoor removal must not resolve a fixed plot without active outdoor estate context"
    );
    assert!(
        active_housing_estate_for_outdoor_removal_row(Some(&indoor_active), Some(&estate), 100).is_none(),
        "indoor active estates must not authorize outdoor removals"
    );
    assert!(
        active_housing_estate_for_outdoor_removal_row(Some(&active), Some(&estate), 200).is_none(),
        "non-owners must not remove outdoor furniture"
    );
    assert!(
        active_housing_estate_for_outdoor_removal_row(Some(&active), None, 100).is_none(),
        "missing DB estate row must reject outdoor removal"
    );

    let resolved = active_housing_estate_for_outdoor_removal_row(Some(&active), Some(&estate), 100).unwrap();

    assert_eq!(resolved.land_ident, estate.land_ident);
    assert_eq!(resolved.house_id, house_id(5, 0, false));
    assert!(!resolved.indoors);
}

#[test]
fn housing_item_removal_broadcast_is_only_needed_for_placed_containers() {
    assert!(should_broadcast_housing_item_removal(ContainerType::HousingExteriorPlacedItems));
    assert!(should_broadcast_housing_item_removal(ContainerType::HousingInteriorPlacedItems1));
    assert!(should_broadcast_housing_item_removal(ContainerType::HousingInteriorPlacedItems12));
    assert!(!should_broadcast_housing_item_removal(ContainerType::HousingExteriorStoreroom));
    assert!(!should_broadcast_housing_item_removal(ContainerType::HousingInteriorStoreroom1));
}

fn fc_spec(owner_content_id: u64, owner_name: &str, free_company: bool) -> HousingEstateSpec {
    HousingEstateSpec {
        owner_content_id,
        owner_name: owner_name.to_string(),
        world_id: 67,
        territory_type_id: 341,
        ward_index: 2,
        division: 0,
        plot_index: 12,
        plot_size: PlotSize::Medium,
        free_company,
    }
}

#[test]
fn selected_or_owned_housing_estate_prefers_active_parameterized_estate() {
    let mut database = memory_database();
    let default_estate = database.ensure_local_estate(100, "Tester", 67);
    let selected_estate = database.ensure_local_estate_with_spec(fc_spec(100, "Tester FC", true));
    let active_estate = active_housing_estate(&selected_estate, false);

    let resolved = selected_or_owned_housing_estate(&database, Some(&active_estate), 100).unwrap();

    assert_eq!(resolved.land_ident, selected_estate.land_ident);
    assert_ne!(resolved.land_ident, default_estate.land_ident);
    assert_eq!(active_estate.house_id.territory_type_id, 341);
    assert_eq!(active_estate.house_id.ward_index, 2);
    assert_eq!(active_estate.house_id.unit.apartment_division_plot_index, 12);
    assert_eq!(resolved.plot_size, PlotSize::Medium.repr() as i32);
    assert_eq!(resolved.flags & FREE_COMPANY_HOUSING_FLAG, FREE_COMPANY_HOUSING_FLAG);
}

#[test]
fn selected_or_owned_housing_estate_ignores_foreign_active_estate_and_returns_owned_estate() {
    let mut database = memory_database();
    let owned_estate = database.ensure_local_estate(100, "Tester", 67);
    let foreign_estate = database.ensure_local_estate_with_spec(fc_spec(200, "Other Owner", false));
    let active_estate = active_housing_estate(&foreign_estate, false);

    let resolved = selected_or_owned_housing_estate(&database, Some(&active_estate), 100).unwrap();

    assert_eq!(resolved.land_ident, owned_estate.land_ident);
    assert_ne!(resolved.land_ident, foreign_estate.land_ident);
    assert_eq!(resolved.owner_content_id, Some(100));
}

fn id_at(plot: u8, apartment: bool, room: u16, territory: u16) -> HouseId {
    HouseId {
        unit: HouseUnit { apartment_division_plot_index: plot, apartment_flag: apartment },
        unk1: 0,
        ward_index: 2,
        room_number: room,
        territory_type_id: territory,
        world_id: 21,
    }
}

#[test]
fn selected_or_owned_housing_estate_prefers_house_over_apartment_without_active_estate() {
    let mut database = memory_database();
    let apartment_house_id = id_at(4, true, 12, 340);
    let house_house_id = id_at(5, false, 0, 341);

    let apartment_estate = database.insert_housing_estate_for_test(HousingEstate {
        land_ident: apartment_house_id.to_u64() as i64,
        house_id: apartment_house_id.to_u64() as i64,
        territory_type_id: apartment_house_id.territory_type_id as i32,
        world_id: apartment_house_id.world_id as i32,
        ward_index: apartment_house_id.ward_index as i32,
        division: 0,
        plot_index: 4,
        room_number: apartment_house_id.room_number as i32,
        is_apartment: true,
        owner_content_id: Some(100),
        owner_name: "Apartment Owner".to_string(),
        estate_name: "Apartment".to_string(),
        ..Default::default()
    });
    let house_estate = database.insert_housing_estate_for_test(HousingEstate {
        land_ident: house_house_id.to_u64() as i64,
        house_id: house_house_id.to_u64() as i64,
        territory_type_id: house_house_id.territory_type_id as i32,
        world_id: house_house_id.world_id as i32,
        ward_index: house_house_id.ward_index as i32,
        division: 0,
        plot_index: 5,
        room_number: house_house_id.room_number as i32,
        is_apartment: false,
        owner_content_id: Some(100),
        owner_name: "House Owner".to_string(),
        estate_name: "House".to_string(),
        ..Default::default()
    });

    let resolved = selected_or_owned_housing_estate(&database, None, 100).unwrap();

    assert_eq!(resolved.land_ident, house_estate.land_ident);
    assert_ne!(resolved.land_ident, apartment_estate.land_ident);
    assert!(!resolved.is_apartment);
}

#[test]
fn selected_or_owned_housing_estate_prefers_ordered_non_apartment_rows_before_apartments() {
    let mut database = memory_database();
    let mut build_estate =
        |house_id: HouseId, is_apartment: bool, name: &str, plot_index: i32, room_number: i32, territory_type_id: i32| -> HousingEstate {
            database.insert_housing_estate_for_test(HousingEstate {
                land_ident: house_id.to_u64() as i64,
                house_id: house_id.to_u64() as i64,
                territory_type_id,
                world_id: house_id.world_id as i32,
                ward_index: house_id.ward_index as i32,
                division: 0,
                plot_index,
                room_number,
                is_apartment,
                owner_content_id: Some(100),
                owner_name: "House Owner".to_string(),
                estate_name: name.to_string(),
                ..Default::default()
            })
        };

    let apartment = build_estate(id_at(3, true, 2, 340), true, "Apartment", 3, 2, 340);
    let earlier_non_apartment = build_estate(id_at(1, false, 0, 340), false, "House 1/0", 1, 0, 340);
    let same_plot_roomed = build_estate(id_at(2, false, 3, 340), false, "House 2/3", 2, 3, 340);
    let higher_plot = build_estate(id_at(4, false, 0, 340), false, "House 4/0", 4, 0, 340);

    let foreign_id = id_at(1, false, 0, 341);
    let other_territory_non_owner = database.insert_housing_estate_for_test(HousingEstate {
        land_ident: foreign_id.to_u64() as i64,
        house_id: foreign_id.to_u64() as i64,
        territory_type_id: 341,
        world_id: 21,
        ward_index: 2,
        division: 0,
        plot_index: 1,
        room_number: 0,
        is_apartment: false,
        owner_content_id: Some(200),
        owner_name: "Other Owner".to_string(),
        estate_name: "Foreign".to_string(),
        ..Default::default()
    });

    let _ = other_territory_non_owner;

    let ordered_owned = database.owned_housing_estates(100);
    assert_eq!(ordered_owned[0].land_ident, earlier_non_apartment.land_ident);
    assert_eq!(ordered_owned[1].land_ident, same_plot_roomed.land_ident);
    assert_eq!(ordered_owned[2].land_ident, higher_plot.land_ident);
    assert_eq!(ordered_owned[3].land_ident, apartment.land_ident);

    let selected = selected_or_owned_housing_estate(&database, None, 100).unwrap();

    assert!(!selected.is_apartment);
    assert_eq!(selected.land_ident, earlier_non_apartment.land_ident);
}

#[test]
fn mutator_selection_updates_active_estate_when_multiple_estates_exist() {
    let mut database = memory_database();
    let default_estate = database.ensure_local_estate(100, "Tester", 67);
    let selected_estate = database.ensure_local_estate_with_spec(fc_spec(100, "Tester FC", true));
    let active_estate = active_housing_estate(&selected_estate, false);

    let target = selected_or_owned_housing_estate(&database, Some(&active_estate), 100).unwrap();
    assert!(database.update_housing_name(target.land_ident, "Selected Estate Name"));
    assert!(database.update_housing_greeting(target.land_ident, "Selected estate greeting."));

    let updated_selected =
        database.housing_estate_by_house_id(HouseId::from_u64(selected_estate.house_id as u64)).unwrap();
    let updated_default = database.housing_estate_by_house_id(HouseId::from_u64(default_estate.house_id as u64)).unwrap();

    assert_eq!(updated_selected.estate_name, "Selected Estate Name");
    assert_eq!(updated_selected.greeting, "Selected estate greeting.");
    assert_ne!(updated_default.estate_name, "Selected Estate Name");
    assert_ne!(updated_default.greeting, "Selected estate greeting.");
}

#[test]
fn mutator_selection_ignores_foreign_active_estate_when_updating_owned_estate() {
    let mut database = memory_database();
    let owned_estate = database.ensure_local_estate(100, "Tester", 67);
    let foreign_estate = database.ensure_local_estate_with_spec(fc_spec(200, "Other Owner", false));
    let active_estate = active_housing_estate(&foreign_estate, false);

    let target = selected_or_owned_housing_estate(&database, Some(&active_estate), 100).unwrap();
    assert!(database.update_housing_name(target.land_ident, "Owned Estate Name"));
    assert!(database.update_housing_greeting(target.land_ident, "Owned estate greeting."));

    let updated_owned = database.housing_estate_by_house_id(HouseId::from_u64(owned_estate.house_id as u64)).unwrap();
    let updated_foreign = database.housing_estate_by_house_id(HouseId::from_u64(foreign_estate.house_id as u64)).unwrap();

    assert_eq!(updated_owned.estate_name, "Owned Estate Name");
    assert_eq!(updated_owned.greeting, "Owned estate greeting.");
    assert_ne!(updated_foreign.estate_name, "Owned Estate Name");
    assert_ne!(updated_foreign.greeting, "Owned estate greeting.");
}

#[test]
fn local_house_simple_interior_territory_matches_plot_size() {
    assert_eq!(simple_housing_indoor_territory_type_id(PlotSize::Small), 1249);
    assert_eq!(simple_housing_indoor_territory_type_id(PlotSize::Medium), 1250);
    assert_eq!(simple_housing_indoor_territory_type_id(PlotSize::Large), 1251);
}

#[test]
fn original_house_interior_territory_matches_retail_district_and_plot_size() {
    assert_eq!(district_default_indoor_territory_type_id(340, PlotSize::Large), Some(344));
    assert_eq!(district_default_indoor_territory_type_id(340, PlotSize::Medium), Some(343));
    assert_eq!(district_default_indoor_territory_type_id(340, PlotSize::Small), Some(342));
}

#[test]
fn default_house_entry_territory_uses_original_district_when_no_pattern_is_saved() {
    let estate = ward_estate(5, 0, DEFAULT_LOCAL_HOUSING_LAND_FLAGS);

    assert_eq!(housing_default_indoor_entry_territory_type_id_for_estate(&estate), 344);
}

#[test]
fn persisted_simple_interior_pattern_row_keeps_simple_territory() {
    let mut estate = ward_estate(5, 0, DEFAULT_LOCAL_HOUSING_LAND_FLAGS);
    estate.plot_size = PlotSize::Large.repr() as i32;
    estate.interior_json = HousingJson::Valid(
        update_interior_json_renovation_row_id(&HousingJson::Valid(HouseInteriorJson::default()), 18)
            .expect("interior pattern row should serialize"),
    );

    assert_eq!(housing_interior_renovation_row_id_from_json(&estate.interior_json), Some(18));
}
