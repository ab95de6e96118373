use kawari_housing::common::{container_type_id, ContainerType, HouseId, PlotSize, Position, TerritoryIntendedUse};
use kawari_housing::serialization::build_furniture_lists;
use kawari_housing::context::active_housing_estate;
use kawari_housing::database::{HousingEstateSpec, HousingFurniture, WorldDatabase};
use kawari_housing::gamedata::HousingGameData;
use kawari_housing::ipc::HouseStatus;
use kawari_housing::preset_text::{decode_text_file_bytes, decode_utf16_bytes, PresetTextError};
use kawari_housing::zone_connection::ZoneConnection;

const OWNER: u64 = 100;
const WORLD: u16 = 21;

fn raw(c: ContainerType) -> i32 {
    container_type_id(c) as i32
}

fn utf16_file(text: &str, little_endian: bool) -> Vec<u8> {
    let mut bytes = if little_endian { vec![0xFF, 0xFE] } else { vec![0xFE, 0xFF] };
    for word in text.encode_utf16() {
        if little_endian {
            bytes.extend_from_slice(&word.to_le_bytes());
        } else {
            bytes.extend_from_slice(&word.to_be_bytes());
        }
    }
    bytes
}

#[test]
fn plain_utf8_text_is_read_as_it_stands() {
    assert_eq!(decode_text_file_bytes(b"{\"a\":1}").unwrap(), "{\"a\":1}");
    assert_eq!(decode_text_file_bytes(b"").unwrap(), "");
}

#[test]
fn a_utf8_byte_order_mark_is_dropped() {
    let bytes = [0xEF, 0xBB, 0xBF, b'h', b'i'];
    assert_eq!(decode_text_file_bytes(&bytes).unwrap(), "hi");
}

#[test]
fn utf16_text_of_either_byte_order_is_decoded() {
    let json = r#"{"interiorFurniture":[{"itemId":1001}]}"#;
    assert_eq!(decode_text_file_bytes(&utf16_file(json, true)).unwrap(), json);
    assert_eq!(decode_text_file_bytes(&utf16_file("Ünïcødé ✓", false)).unwrap(), "Ünïcødé ✓");
}

#[test]
fn utf16_words_follow_the_byte_order() {
    assert_eq!(decode_utf16_bytes(&[0x41, 0x00, 0x42, 0x00], true).unwrap(), "AB");
    assert_eq!(decode_utf16_bytes(&[0x00, 0x41, 0x00, 0x42], false).unwrap(), "AB");
    assert_eq!(decode_utf16_bytes(&[], true).unwrap(), "");
}

#[test]
fn broken_text_reports_why() {
    assert_eq!(decode_text_file_bytes(&[0xFF, 0xFE, 0x41]), Err(PresetTextError::OddUtf16Length));
    assert_eq!(decode_text_file_bytes(&[0xFF, 0xFE, 0x00, 0xD8]), Err(PresetTextError::InvalidUtf16));
    assert_eq!(decode_text_file_bytes(&[0xC3, 0x28]), Err(PresetTextError::InvalidUtf8));
    assert_eq!(decode_text_file_bytes(&[0xEF, 0xBB, 0xBF, 0xFF]), Err(PresetTextError::InvalidUtf8));
}

fn yard_connection() -> (ZoneConnection, i64) {
    let mut database = WorldDatabase::new_at(":memory:");
    let estate = database.ensure_local_estate(OWNER, "Tester", WORLD);
    let position = Position { x_bits: 4.0f32.to_bits(), y_bits: 0.0f32.to_bits(), z_bits: 8.0f32.to_bits() };
    database.upsert_housing_furniture(HousingFurniture {
        land_ident: estate.land_ident,
        container_type: raw(ContainerType::HousingExteriorPlacedItems),
        slot: 2,
        item_id: 7000,
        catalog_id: 44,
        pos_x_bits: position.x_bits,
        pos_y_bits: position.y_bits,
        pos_z_bits: position.z_bits,
        placed: true,
        ..Default::default()
    });
    database.upsert_housing_furniture(HousingFurniture {
        land_ident: estate.land_ident,
        container_type: raw(ContainerType::HousingInteriorPlacedItems1),
        slot: 0,
        item_id: 7100,
        catalog_id: 55,
        placed: true,
        ..Default::default()
    });
    let gamedata = HousingGameData::new(vec![], vec![], vec![], vec![]);
    let connection = ZoneConnection::new(OWNER, "Tester".to_string(), WORLD, 339, database, gamedata);
    (connection, estate.land_ident)
}

#[test]
fn entering_the_yard_zone_lists_its_ward_and_yard_furniture() {
    let (mut connection, _) = yard_connection();

    let init = connection.send_housing_outdoor_init(339);

    assert_eq!(init.ward_index, 0);
    assert_eq!(init.houses.len(), 30);
    assert_eq!(init.houses[0].plot_size, PlotSize::Large);
    assert_eq!(init.houses[0].status, HouseStatus::HouseBuilt);
    assert_eq!(init.houses[1].status, HouseStatus::default());
    assert_eq!(init.estates.len(), 1);
    assert_eq!(init.furniture_lists.len(), 1);
    assert!(!init.furniture_lists[0].is_empty());
    assert!(init.furniture_lists[0].iter().any(|list| list.furniture.iter().any(|f| f.position.x_bits == 4.0f32.to_bits())));
    assert_eq!(init.furniture_objects.len(), 1);
    assert_eq!(init.furniture_objects[0].catalog_id, 44);
    assert_eq!(init.furniture_objects[0].slot, 2);
    assert!(!init.furniture_objects[0].indoors);
    assert!(connection.display_housing_ward_context.is_some());
}

#[test]
fn entering_the_interior_lists_its_placed_furniture() {
    let (mut connection, land_ident) = yard_connection();
    let estate = connection.database.housing_estate_by_location(339, WORLD, 0, 0, 0).unwrap();
    connection.active_housing_estate = Some(active_housing_estate(&estate, true));

    let init = connection.send_housing_indoor_init(339);

    assert_eq!(init.furniture_rows.len(), 1);
    assert_eq!(init.furniture_rows[0].land_ident, land_ident);
    assert_eq!(init.furniture_rows[0].catalog_id, 55);
    assert_eq!(init.lists.len(), 6);
    assert_eq!(init.initial_list_count, 3);
    assert!(init.value_sets.is_none());
    assert!(init.ready_ids.is_none());
    assert!(connection.pending_housing_indoor_furniture_list_tail);
    assert!(connection.pending_housing_indoor_furniture_object_overlay_sync);
    assert!(connection.sync_deferred_indoor_overlays_after_load(TerritoryIntendedUse::HousingIndoor).is_none());

    let deferred = connection.send_deferred_indoor_furniture_after_remodel().unwrap();
    assert_eq!(deferred.start_index, 3);
    assert_eq!(deferred.lists.len(), 6);
    assert_eq!(deferred.value_sets.len(), 1);
    assert!(!connection.pending_housing_indoor_furniture_list_tail);
    assert!(connection.send_deferred_indoor_furniture_after_remodel().is_none());

    let objects = connection.sync_deferred_indoor_overlays_after_remodel(TerritoryIntendedUse::HousingIndoor, true).unwrap();
    assert_eq!(objects.len(), 1);
    assert_eq!(objects[0].catalog_id, 55);
    assert!(objects[0].indoors);
    assert!(!connection.pending_housing_indoor_furniture_object_overlay_sync);
}

#[test]
fn entering_an_interior_without_an_estate_sends_an_empty_house() {
    let mut database = WorldDatabase::new_at(":memory:");
    let _ = database.ensure_local_estate(OWNER, "Tester", WORLD);
    let gamedata = HousingGameData::new(vec![], vec![], vec![], vec![]);
    let mut connection = ZoneConnection::new(999, "Guest".to_string(), WORLD, 1, database, gamedata);

    let init = connection.send_housing_indoor_init(1);

    assert!(init.furniture_rows.is_empty());
    assert!(init.value_sets.is_none());
    assert!(init.ready_ids.is_none());
    assert!(!connection.pending_housing_indoor_furniture_object_overlay_sync);
}

#[test]
fn parses_utf16_le_remake_place_preset_files() {
    let json = r#"{"interiorFurniture":[{"itemId":1001}]}"#;
    let mut bytes = vec![0xFF, 0xFE];
    for word in json.encode_utf16() {
        bytes.extend_from_slice(&word.to_le_bytes());
    }

    let text = decode_text_file_bytes(&bytes).unwrap();
    let layout: serde_json::Value = serde_json::from_str(&text).unwrap();

    let furniture = layout["interiorFurniture"].as_array().unwrap();
    assert_eq!(furniture.len(), 1);
    assert_eq!(furniture[0]["itemId"].as_u64(), Some(1001));
}

#[test]
fn furniture_lists_together_carry_the_sent_rows_in_order() {
    let rows: Vec<HousingFurniture> = (0..250)
        .map(|i| HousingFurniture { catalog_id: 1000 + i, placed: true, ..Default::default() })
        .collect();

    let lists = build_furniture_lists(HouseId::zero(), &rows, true, Some(200));

    let carried: Vec<u16> = lists.iter().flat_map(|list| list.furniture.iter().map(|f| f.id)).collect();
    let expected: Vec<u16> = (0..200).map(|i| 1000 + i as u16).collect();
    assert_eq!(carried, expected);
}

#[test]
fn estate_rows_keep_their_land_and_house_id_unique() {
    let mut database = WorldDatabase::new_at(":memory:");
    let first = database.ensure_local_estate(OWNER, "Tester", WORLD);
    let again = database.insert_housing_estate_for_test(first.clone());
    assert_eq!(again.land_ident, first.land_ident);
    assert_eq!(database.owned_housing_estates(OWNER).len(), 1);

    // Ward 64 packs to the same id as ward 0: the row holding it is returned.
    let wrapped = database.ensure_local_estate_with_spec(HousingEstateSpec {
        owner_content_id: 999,
        owner_name: "Other".to_string(),
        world_id: WORLD,
        territory_type_id: 339,
        ward_index: 64,
        division: 0,
        plot_index: 0,
        plot_size: PlotSize::Small,
        free_company: false,
    });
    assert_eq!(wrapped.land_ident, first.land_ident);
    assert_eq!(wrapped.owner_content_id, Some(OWNER as i64));
    assert!(database.owned_housing_estates(999).is_empty());
}
