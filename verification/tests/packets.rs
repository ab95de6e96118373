use kawari_housing::common::{container_type_id, ContainerType, HouseId, HouseUnit, PlotSize, Position};
use kawari_housing::context::{deferred_housing_furniture_list_start_index, initial_housing_furniture_list_count};
use kawari_housing::database::{
    HousingEstate, HousingFurniture, DEFAULT_LOCAL_HOUSING_LAND_FLAGS, FREE_COMPANY_HOUSING_FLAG,
};
use kawari_housing::fixture_json::{HouseExteriorColorsJson, HouseExteriorJson, HousingJson};
use kawari_housing::inventory::housing_container_slot_capacity;
use kawari_housing::ipc::{
    AvailabilityType, HouseStatus, PurchaseType, TenantType, HOUSING_FLAGS_HOUSE_BUILT, HOUSING_FLAGS_PLOT_OWNED,
    HOUSING_FLAGS_VISITORS_ALLOWED, HOUSING_FLAG_OPEN, HOUSING_FLAG_OWNED_BY_FC,
};
use kawari_housing::serialization::{
    build_apartment_list_entries, build_furniture_lists, build_house_list_houses, build_housing_ward_info,
    estate_land_data, housing_estate_greeting_from_estate, housing_inventory_from_rows,
    housing_occupied_land_info_from_estate, housing_vacant_land_info, owned_housing_land_data,
};

fn house_id(plot_index: u8, room_number: u16, is_apartment: bool) -> HouseId {
    HouseId {
        unit: HouseUnit { apartment_division_plot_index: plot_index, apartment_flag: is_apartment },
        unk1: 0,
        ward_index: 2,
        room_number,
        territory_type_id: 340,
        world_id: 21,
    }
}

fn estate(id: HouseId, flags: i32, is_apartment: bool) -> HousingEstate {
    HousingEstate { house_id: id.to_u64() as i64, flags, is_apartment, ..Default::default() }
}

fn position(x: f32, y: f32, z: f32) -> Position {
    Position { x_bits: x.to_bits(), y_bits: y.to_bits(), z_bits: z.to_bits() }
}

fn furniture_row(catalog_id: i32, position: Position, rotation: f32) -> HousingFurniture {
    HousingFurniture {
        catalog_id,
        pos_x_bits: position.x_bits,
        pos_y_bits: position.y_bits,
        pos_z_bits: position.z_bits,
        rotation_bits: rotation.to_bits(),
        placed: true,
        ..Default::default()
    }
}

fn estate_row_for_plot(plot_index: i32, flags: i32, plot_size: PlotSize) -> HousingEstate {
    HousingEstate {
        house_id: house_id(plot_index as u8, 0, false).to_u64() as i64,
        flags,
        plot_index,
        plot_size: plot_size.repr() as i32,
        exterior_json: HousingJson::Valid(HouseExteriorJson::default()),
        ..Default::default()
    }
}

fn ward_estate(plot_index: i32, division: i32, flags: i32) -> HousingEstate {
    HousingEstate {
        house_id: house_id(plot_index as u8, 0, false).to_u64() as i64,
        territory_type_id: 340,
        world_id: 21,
        ward_index: 2,
        division,
        plot_index,
        owner_content_id: Some(12345),
        owner_name: "Local Owner".to_string(),
        plot_size: PlotSize::Large.repr() as i32,
        flags,
        estate_name: "Local Estate".to_string(),
        greeting: "Welcome from the DB.".to_string(),
        exterior_json: HousingJson::Valid(HouseExteriorJson::default()),
        ..Default::default()
    }
}

fn raw(c: ContainerType) -> i32 {
    container_type_id(c) as i32
}

#[test]
fn build_housing_ward_info_marks_personal_large_plot_owned() {
    let ward_info = build_housing_ward_info(340, 21, 2, &vec![ward_estate(5, 0, 0x0B)], &vec![]);

    assert_eq!(ward_info.id.territory_type_id, 340);
    assert_eq!(ward_info.id.world_id, 21);
    assert_eq!(ward_info.id.ward_index, 2);
    assert_eq!(ward_info.house_summaries.len(), 60);
    assert_eq!(ward_info.purchase_type, PurchaseType::Unavailable);
    assert_eq!(ward_info.tenant_type, TenantType::Any);

    let summary = &ward_info.house_summaries[5];
    assert_eq!(summary.name, "Local Estate");
    assert_eq!(summary.flags, HOUSING_FLAGS_PLOT_OWNED | HOUSING_FLAGS_VISITORS_ALLOWED | HOUSING_FLAGS_HOUSE_BUILT);
    assert_eq!(
        ward_info.house_summaries[35].flags, 0,
        "subdivision slot remains vacant when no subdivision estate exists"
    );
}

#[test]
fn occupied_land_info_uses_character_owner_without_fc_tag() {
    let land_info = housing_occupied_land_info_from_estate(&ward_estate(5, 0, 0x0B));

    assert_eq!(land_info.owner_id, 12345);
    assert_eq!(land_info.owner_name, "Local Owner");
    assert_eq!(land_info.fc_tag, "");
    assert_eq!(land_info.house_size, PlotSize::Large);
    assert_eq!(land_info.house_icon, 1);
    assert_eq!(land_info.estate_name, "Local Estate");
    assert_eq!(land_info.estate_greeting, "Welcome from the DB.");
}

#[test]
fn vacant_land_info_is_unavailable_for_local_server() {
    let land_info = housing_vacant_land_info();

    assert_eq!(land_info.purchase_type, PurchaseType::Unavailable);
    assert_eq!(land_info.availability_type, AvailabilityType::Unavailable);
    assert_eq!(land_info.tenant_type, TenantType::Any);
    assert_eq!(&land_info.unk4[..12], &[0; 12]);
    assert_eq!(&land_info.unk4[12..], &[0xFF; 8]);
}

#[test]
fn estate_greeting_uses_db_greeting() {
    let estate = ward_estate(5, 0, 0x0B);

    let greeting = housing_estate_greeting_from_estate(&estate);

    assert_eq!(greeting.id, HouseId::from_u64(estate.house_id as u64));
    assert_eq!(greeting.greeting, "Welcome from the DB.");
}

#[test]
fn estate_land_data_uses_packed_house_id_and_flags() {
    let id = house_id(4, 0, false);

    let land_data = estate_land_data(&estate(id, 1, false));

    assert_eq!(land_data.id, id);
    assert_eq!(land_data.flags, 1);
}

#[test]
fn owned_housing_land_data_routes_retail_owned_housing_slots() {
    let owned_house_id = house_id(4, 0, false);
    let fc_house_id = house_id(6, 0, false);
    let apartment_id = house_id(0, 1, true);
    let mut fc_estate = estate(fc_house_id, 1, false);
    fc_estate.flags |= FREE_COMPANY_HOUSING_FLAG;

    let (owned, apartment) =
        owned_housing_land_data(&vec![estate(owned_house_id, 1, false), fc_estate, estate(apartment_id, 19, true)]);

    assert_eq!(owned[0].id, fc_house_id);
    assert_eq!(owned[1].id, owned_house_id);
    assert_eq!(owned[2].id, HouseId::default());
    assert_eq!(owned[3].id, HouseId::default());
    assert_eq!(owned[4].id, HouseId::default());
    assert_eq!(apartment.id, apartment_id);
}

#[test]
fn build_apartment_list_entries_uses_db_residents() {
    let room_2 = HousingEstate {
        territory_type_id: 340,
        world_id: 21,
        ward_index: 2,
        division: 0,
        plot_index: 0,
        room_number: 2,
        is_apartment: true,
        owner_name: "Room Two".to_string(),
        greeting: "Second room greeting".to_string(),
        flags: DEFAULT_LOCAL_HOUSING_LAND_FLAGS,
        ..Default::default()
    };
    let room_3 = HousingEstate {
        territory_type_id: 341,
        world_id: 21,
        ward_index: 2,
        division: 0,
        plot_index: 0,
        room_number: 3,
        is_apartment: true,
        owner_name: "Room Three".to_string(),
        greeting: "Third room greeting".to_string(),
        flags: DEFAULT_LOCAL_HOUSING_LAND_FLAGS,
        ..Default::default()
    };

    let entries = build_apartment_list_entries(&vec![room_2, room_3], 1);

    assert_eq!(entries.len(), 2);
    assert_eq!(entries[0].resident_name, "Room Two");
    assert_eq!(entries[0].resident_zone_id, 340);
    assert_eq!(entries[0].apartment_description, "Second room greeting");
    assert!(entries[0].visitors_permitted);
    assert_eq!(entries[1].resident_name, "Room Three");
    assert_eq!(entries[1].resident_zone_id, 341);
}

#[test]
fn build_furniture_lists_empty_indoor_sends_one_empty_list() {
    let id = house_id(4, 0, false);

    let lists = build_furniture_lists(id, &vec![], true, None);

    assert_eq!(lists.len(), 1);
    assert_eq!(lists[0].id, id);
    assert_eq!(lists[0].count, 1);
    assert_eq!(lists[0].index, 0);
    assert_eq!(lists[0].unk2, 100);
    assert!(lists[0].furniture.is_empty());
}

#[test]
fn build_furniture_lists_maps_single_furniture_row() {
    let id = house_id(4, 0, false);
    let position = position(1.0, 2.0, 3.0);

    let lists = build_furniture_lists(id, &vec![furniture_row(123, position, 1.25)], true, None);

    assert_eq!(lists.len(), 1);
    assert_eq!(lists[0].furniture.len(), 1);
    assert_eq!(lists[0].furniture[0].id, 123);
    assert_eq!(lists[0].furniture[0].position, position);
    assert_eq!(f32::from_bits(lists[0].furniture[0].rotation_bits), 1.25);
}

#[test]
fn build_furniture_lists_chunks_after_one_hundred_rows() {
    let id = house_id(4, 0, false);
    let rows = vec![furniture_row(123, Position::default(), 0.0); 101];

    let lists = build_furniture_lists(id, &rows, true, None);

    assert_eq!(lists.len(), 2);
    assert_eq!(lists[0].count, 2);
    assert_eq!(lists[0].index, 0);
    assert_eq!(lists[0].furniture.len(), 100);
    assert_eq!(lists[1].count, 2);
    assert_eq!(lists[1].index, 1);
    assert_eq!(lists[1].furniture.len(), 1);
}

#[test]
fn build_furniture_lists_uses_indoor_slot_capacity() {
    let id = house_id(4, 0, false);
    let rows = vec![furniture_row(123, Position::default(), 0.0); 300];

    let lists = build_furniture_lists(id, &rows, true, Some(450));

    assert_eq!(lists.len(), 5);
    assert!(lists.iter().all(|list| list.count == 5));
    assert_eq!(lists[0].unk2, 100);
    assert_eq!(lists[3].unk2, 100);
    assert_eq!(lists[4].unk2, 50);
    assert_eq!(lists[0].furniture.len(), 100);
    assert_eq!(lists[1].furniture.len(), 100);
    assert_eq!(lists[2].furniture.len(), 100);
    assert_eq!(lists[3].furniture.len(), 0);
    assert_eq!(lists[4].furniture.len(), 0);
}

#[test]
fn build_furniture_lists_large_capacity_matches_six_hundred_slots() {
    let id = house_id(4, 0, false);
    let rows = vec![furniture_row(123, Position::default(), 0.0); 598];

    let lists = build_furniture_lists(id, &rows, true, Some(600));

    assert_eq!(lists.len(), 6);
    assert!(lists.iter().all(|list| list.count == 6));
    assert!(lists.iter().all(|list| list.unk2 == 100));
    assert_eq!(lists[0].furniture.len(), 100);
    assert_eq!(lists[5].furniture.len(), 98);
}

#[test]
fn indoor_furniture_list_tail_is_deferred_until_remodel_gate() {
    assert_eq!(initial_housing_furniture_list_count(true, 6), 3);
    assert_eq!(deferred_housing_furniture_list_start_index(true, 6), 3);
    assert_eq!(initial_housing_furniture_list_count(true, 3), 3);
    assert_eq!(deferred_housing_furniture_list_start_index(true, 3), 3);
    assert_eq!(initial_housing_furniture_list_count(false, 8), 8);
    assert_eq!(deferred_housing_furniture_list_start_index(false, 8), 8);
}

#[test]
fn build_furniture_lists_marks_outdoor_lists() {
    let id = house_id(4, 0, false);

    let lists = build_furniture_lists(id, &vec![], false, None);

    assert_eq!(lists[0].unk2, 0);
}

#[test]
fn build_house_list_houses_maps_db_row_to_plot_slot() {
    let houses = build_house_list_houses(&vec![estate_row_for_plot(5, 0x0B, PlotSize::Large)]);

    assert_eq!(houses[5].plot_size, PlotSize::Large);
    assert_eq!(houses[5].status, HouseStatus::HouseBuilt);
    assert_eq!(houses[5].flags, HOUSING_FLAG_OPEN);
    assert_eq!(houses[5].exterior.roof_id, 1081);
    assert_eq!(houses[5].exterior.walls_id, 3632);
    assert_eq!(houses[5].exterior.windows_id, 2579);
    assert_eq!(houses[5].exterior.door_id, 531);
}

#[test]
fn build_house_list_houses_parses_exterior_json() {
    let mut estate = estate_row_for_plot(2, 0x1B, PlotSize::Medium);
    estate.exterior_json = HousingJson::Valid(HouseExteriorJson {
        roof_id: Some(1),
        walls_id: Some(2),
        windows_id: Some(3),
        door_id: Some(4),
        roof_fixture_id: Some(5),
        wall_fixture_id: Some(6),
        above_door_banner_id: Some(7),
        fence_id: Some(8),
        colors: Some(HouseExteriorColorsJson {
            roof: Some(9),
            walls: Some(10),
            windows: Some(11),
            door: Some(12),
            roof_fixture: Some(13),
            wall_fixture: Some(14),
            above_door_banner: Some(15),
            fence: Some(16),
        }),
    });

    let houses = build_house_list_houses(&vec![estate]);

    assert_eq!(houses[2].plot_size, PlotSize::Medium);
    assert_eq!(houses[2].status, HouseStatus::HouseBuilt);
    assert_eq!(houses[2].flags, HOUSING_FLAG_OPEN | HOUSING_FLAG_OWNED_BY_FC);
    assert_eq!(houses[2].exterior.roof_id, 1);
    assert_eq!(houses[2].exterior.walls_id, 2);
    assert_eq!(houses[2].exterior.windows_id, 3);
    assert_eq!(houses[2].exterior.door_id, 4);
    assert_eq!(houses[2].exterior.roof_fixture_id, 5);
    assert_eq!(houses[2].exterior.wall_fixture_id, 6);
    assert_eq!(houses[2].exterior.above_door_banner_id, 7);
    assert_eq!(houses[2].exterior.fence_id, 8);
    assert_eq!(houses[2].exterior.colors.roof, 9);
    assert_eq!(houses[2].exterior.colors.walls, 10);
    assert_eq!(houses[2].exterior.colors.windows, 11);
    assert_eq!(houses[2].exterior.colors.door, 12);
    assert_eq!(houses[2].exterior.colors.roof_fixture, 13);
    assert_eq!(houses[2].exterior.colors.wall_fixture, 14);
    assert_eq!(houses[2].exterior.colors.above_door_banner, 15);
    assert_eq!(houses[2].exterior.colors.fence, 16);
}

#[test]
fn build_house_list_houses_leaves_empty_slots_default() {
    let houses = build_house_list_houses(&vec![]);
    assert_eq!(houses[11].plot_size, PlotSize::default());
    assert_eq!(houses[11].status, HouseStatus::default());
    assert_eq!(houses[11].flags, 0);
    assert_eq!(houses[11].exterior.roof_id, 0);

    let houses = build_house_list_houses(&vec![estate_row_for_plot(11, 0x0B, PlotSize::Large)]);
    assert_eq!(houses[11].plot_size, PlotSize::Large);
    assert_eq!(houses[11].flags, HOUSING_FLAG_OPEN);
}

#[test]
fn housing_inventory_from_rows_restores_placed_and_storeroom_items() {
    let rows = vec![
        HousingFurniture {
            container_type: raw(ContainerType::HousingInteriorPlacedItems1),
            slot: 0,
            item_id: 1000,
            stain: 7,
            placed: true,
            ..Default::default()
        },
        HousingFurniture {
            container_type: raw(ContainerType::HousingInteriorStoreroom1),
            slot: 1,
            item_id: 1001,
            stain: 8,
            placed: false,
            ..Default::default()
        },
    ];

    let inventory = housing_inventory_from_rows(&rows);

    let placed = inventory.get_item(ContainerType::HousingInteriorPlacedItems1, 0).unwrap();
    assert_eq!(placed.item_id, 1000);
    assert_eq!(placed.quantity, 1);
    assert_eq!(placed.stains[0], 7);

    let stored = inventory.get_item(ContainerType::HousingInteriorStoreroom1, 1).unwrap();
    assert_eq!(stored.item_id, 1001);
    assert_eq!(stored.quantity, 1);
    assert_eq!(stored.stains[0], 8);
}

#[test]
fn housing_inventory_from_rows_ignores_invalid_storage_rows() {
    let rows = vec![
        HousingFurniture {
            container_type: raw(ContainerType::Inventory0),
            slot: 0,
            item_id: 1000,
            ..Default::default()
        },
        HousingFurniture {
            container_type: raw(ContainerType::HousingInteriorPlacedItems1),
            slot: housing_container_slot_capacity(ContainerType::HousingInteriorPlacedItems1) as i32,
            item_id: 1001,
            ..Default::default()
        },
    ];

    let inventory = housing_inventory_from_rows(&rows);

    assert!(inventory.get_item(ContainerType::HousingInteriorPlacedItems1, 0).unwrap().is_empty_slot());
}
