use kawari_housing::common::{ContainerType, HouseId, HouseUnit, PlotSize, Position, TerritoryIntendedUse};
use kawari_housing::context::active_housing_estate;
use kawari_housing::database::{HousingEstate, HousingEstateSpec, WorldDatabase, DEFAULT_LOCAL_HOUSING_LAND_FLAGS};
use kawari_housing::entry::{
    housing_indoor_login_exit_location, housing_outdoor_exit_fallback_position, housing_outdoor_exit_fallback_rotation,
    housing_outdoor_exit_plot_location, selected_or_default_local_estate, HousingPlotLocation,
};
use kawari_housing::fixture_json::{HouseExteriorJson, HousingJson};
use kawari_housing::housing_item_operation::{housing_item_operation_hint, HousingItemOperation};

fn house_id(plot_index: u8, room_number: u16, is_apartment: bool) -> HouseId {
    HouseId {
        unit: HouseUnit { apartment_division_plot_index: plot_index, apartment_flag: is_apartment },
        unk1: 0,
        ward_index: 2,
        room_number,
        territory_type_id: 340,
        world_id: 21,
    }
}

fn estate(id: HouseId, flags: i32, is_apartment: bool) -> HousingEstate {
    HousingEstate { house_id: id.to_u64() as i64, flags, is_apartment, ..Default::default() }
}

fn position(x: f32, y: f32, z: f32) -> Position {
    Position { x_bits: x.to_bits(), y_bits: y.to_bits(), z_bits: z.to_bits() }
}

fn ward_estate(plot_index: i32, division: i32, flags: i32) -> HousingEstate {
    HousingEstate {
        house_id: house_id(plot_index as u8, 0, false).to_u64() as i64,
        territory_type_id: 340,
        world_id: 21,
        ward_index: 2,
        division,
        plot_index,
        owner_content_id: Some(12345),
        owner_name: "Local Owner".to_string(),
        plot_size: PlotSize::Large.repr() as i32,
        flags,
        estate_name: "Local Estate".to_string(),
        greeting: "Welcome from the DB.".to_string(),
        exterior_json: HousingJson::Valid(HouseExteriorJson::default()),
        ..Default::default()
    }
}

#[test]
fn housing_outdoor_exit_fallback_position_matches_large_plot_front_door() {
    let position = housing_outdoor_exit_fallback_position(&estate(house_id(5, 0, false), 0x0B, false));

    assert_eq!(position, self::position(140.0, 23.5, -0.83));
}

#[test]
fn housing_outdoor_exit_fallback_rotation_matches_large_plot_front_door() {
    let rotation = housing_outdoor_exit_fallback_rotation(&estate(house_id(5, 0, false), 0x0B, false));

    assert_eq!(f32::from_bits(rotation), 0.0);
}

#[test]
fn housing_outdoor_exit_plot_location_uses_estate_raw_landset_entry() {
    let main = ward_estate(5, 0, DEFAULT_LOCAL_HOUSING_LAND_FLAGS);
    let subdivision = ward_estate(5, 1, DEFAULT_LOCAL_HOUSING_LAND_FLAGS);

    let main_location =
        housing_outdoor_exit_plot_location(&main).expect("main division estate should resolve to a plot entrance request");
    let subdivision_location = housing_outdoor_exit_plot_location(&subdivision)
        .expect("subdivision estate should resolve to a plot entrance request");

    assert_eq!(main_location.territory_type_id, 340);
    assert_eq!(main_location.raw_plot_index, 5);
    assert_eq!(subdivision_location.territory_type_id, 340);
    assert_eq!(subdivision_location.raw_plot_index, 35);
}

#[test]
fn housing_outdoor_exit_plot_location_rejects_apartments_and_invalid_plots() {
    let mut apartment = ward_estate(0, 0, DEFAULT_LOCAL_HOUSING_LAND_FLAGS);
    apartment.is_apartment = true;
    apartment.room_number = 1;

    let invalid_division = ward_estate(5, 2, DEFAULT_LOCAL_HOUSING_LAND_FLAGS);
    let invalid_plot = ward_estate(30, 0, DEFAULT_LOCAL_HOUSING_LAND_FLAGS);

    assert_eq!(housing_outdoor_exit_plot_location(&apartment), None);
    assert_eq!(housing_outdoor_exit_plot_location(&invalid_division), None);
    assert_eq!(housing_outdoor_exit_plot_location(&invalid_plot), None);
}

#[test]
fn housing_indoor_login_exit_location_moves_house_to_outdoor_front_door() {
    let house = ward_estate(5, 0, DEFAULT_LOCAL_HOUSING_LAND_FLAGS);

    let location = housing_indoor_login_exit_location(TerritoryIntendedUse::HousingIndoor, Some(&house))
        .expect("housing indoor login should be normalized to the outside of the house");

    assert_eq!(location.zone_id, 340);
    assert_eq!(location.position, position(140.0, 23.5, -0.83));
    assert_eq!(f32::from_bits(location.rotation_bits), 0.0);
    assert_eq!(
        location.plot_location,
        Some(HousingPlotLocation { territory_type_id: 340, ward_index: 2, raw_plot_index: 5 })
    );
}

#[test]
fn housing_indoor_login_exit_location_preserves_subdivision_raw_plot_location() {
    let house = ward_estate(5, 1, DEFAULT_LOCAL_HOUSING_LAND_FLAGS);

    let location = housing_indoor_login_exit_location(TerritoryIntendedUse::HousingIndoor, Some(&house))
        .expect("housing indoor login should be normalized to the outside of the house");

    assert_eq!(location.zone_id, 340);
    assert_eq!(location.position, position(140.0, 23.5, -0.83));
    assert_eq!(f32::from_bits(location.rotation_bits), 0.0);
    assert_eq!(
        location.plot_location,
        Some(HousingPlotLocation { territory_type_id: 340, ward_index: 2, raw_plot_index: 35 })
    );
}

#[test]
fn housing_indoor_login_exit_location_leaves_non_housing_indoor_zone_alone() {
    let house = estate(house_id(5, 0, false), 0x0B, false);

    assert_eq!(housing_indoor_login_exit_location(TerritoryIntendedUse::HousingOutdoor, Some(&house)), None);
}

fn fc_spec(owner_content_id: u64, owner_name: &str, free_company: bool) -> HousingEstateSpec {
    HousingEstateSpec {
        owner_content_id,
        owner_name: owner_name.to_string(),
        world_id: 67,
        territory_type_id: 341,
        ward_index: 2,
        division: 0,
        plot_index: 12,
        plot_size: PlotSize::Medium,
        free_company,
    }
}

#[test]
fn selected_or_default_local_estate_enters_active_parameterized_estate() {
    let mut database = WorldDatabase::new_at(":memory:");
    let default_estate = database.ensure_local_estate(100, "Tester", 67);
    let selected_estate = database.ensure_local_estate_with_spec(fc_spec(100, "Tester FC", true));
    let active_estate = active_housing_estate(&selected_estate, false);

    let resolved = selected_or_default_local_estate(&mut database, Some(&active_estate), 100, "Tester", 67);

    assert_eq!(resolved.land_ident, selected_estate.land_ident);
    assert_ne!(resolved.land_ident, default_estate.land_ident);
    assert_eq!(database.owned_housing_estates(100).len(), 2);
}

#[test]
fn selected_or_default_local_estate_creates_default_when_only_active_estate_is_foreign() {
    let mut database = WorldDatabase::new_at(":memory:");
    let foreign_estate = database.ensure_local_estate_with_spec(fc_spec(200, "Other Owner", false));
    let active_estate = active_housing_estate(&foreign_estate, false);

    let resolved = selected_or_default_local_estate(&mut database, Some(&active_estate), 100, "Tester", 67);

    assert_ne!(resolved.land_ident, foreign_estate.land_ident);
    assert_eq!(resolved.owner_content_id, Some(100));
    assert_eq!(database.owned_housing_estates(100).len(), 1);
    assert_eq!(database.owned_housing_estates(200).len(), 1);
}

#[test]
fn housing_item_operation_hint_reads_retail_marker_source_and_target() {
    let bytes = [
        0x00, 0x00, 0x00, 0x00, 0x00, 0x00, 0x00, 0x00, 0x0F, 0x27, 0x0F, 0x27, 0x0F, 0x27, 0x0F, 0x27, 0x0F, 0x27, 0x00,
        0x00, 0x0F, 0x27, 0x0F, 0x27, 0x0F, 0x27, 0x0F, 0x27, 0xFF, 0xFF, 0xFF, 0xFF, 0xFF, 0xFF, 0xFF, 0xFF, 0xFF, 0xFF,
        0x02, 0x00, 0xFF, 0xFF, 0xFF, 0xFF, 0xFF, 0xFF, 0xFF, 0xFF,
    ];

    let operation = HousingItemOperation::read_le(&bytes).unwrap();
    let hint = housing_item_operation_hint(&operation).unwrap();

    assert_eq!(hint.source_container, ContainerType::Inventory0);
    assert_eq!(hint.source_slot, 2);
    assert_eq!(hint.target_appearance_slot, 5);
}

#[test]
fn housing_item_operation_hint_reads_shifted_local_marker_source_and_target() {
    let operation = HousingItemOperation {
        raw: [
            0, 0, 0, 0, 9999, 9999, 0, 9999, 9999, 9999, 9999, 9999, 9999, 9999, 65535, 65535, 0, 65535, 65535, 65535,
            65535, 65535, 65535, 65535,
        ],
    };

    let hint = housing_item_operation_hint(&operation).unwrap();

    assert_eq!(hint.source_container, ContainerType::Inventory0);
    assert_eq!(hint.source_slot, 0);
    assert_eq!(hint.target_appearance_slot, 2);
}

#[test]
fn housing_item_operation_hint_ignores_markers_without_usable_slot() {
    let operation = HousingItemOperation {
        raw: [
            0, 0, 0, 0, 0, 9999, 9999, 9999, 9999, 9999, 9999, 9999, 9999, 9999, 65535, 65535, 65535, 65535, 65535, 65535,
            65535, 65535, 65535, 65535,
        ],
    };

    assert!(housing_item_operation_hint(&operation).is_none());
}
