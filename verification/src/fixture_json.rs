//! The fixture records that an estate stores as JSON (exterior parts and
//! colors, interior walls, floors and lights), and their updates.
//!
//! The stored text is parsed outside the library into a `HousingJson`:
//! blank text is the empty record, text that does not parse is kept as
//! `Malformed`. Reading a malformed record gives the defaults; updating it
//! is refused, so that malformed text is never overwritten.
use vstd::prelude::*;

verus! {

/// Pure White Interior Wall (item additional data).
pub const MINIMAL_INTERIOR_WALL: u32 = 66111;

/// Light Wood Flooring (item additional data).
pub const MINIMAL_INTERIOR_FLOOR: u32 = 65591;

/// Flat Ceiling Lamp (item additional data).
pub const MINIMAL_INTERIOR_LIGHT: u32 = 65848;

/// A stored fixture record: parsed, or the text that did not parse.
#[derive(Debug)]
pub enum HousingJson<T> {
    Valid(T),
    Malformed(String),
}

impl<T: Copy> Clone for HousingJson<T> {
    fn clone(&self) -> (copy: HousingJson<T>)
        ensures
            copy == *self,
    {
        match self {
            HousingJson::Valid(v) => HousingJson::Valid(*v),
            HousingJson::Malformed(text) => HousingJson::Malformed(text.clone()),
        }
    }
}

/// The stored record did not parse, so it cannot be updated.
#[derive(Debug, Clone, Copy, PartialEq, Eq, Structural)]
pub struct HousingJsonError;

/// The exterior part that an exterior update sets.
#[derive(Debug, Clone, Copy, PartialEq, Eq, Structural)]
pub enum HousingExteriorField {
    Roof,
    Walls,
    Windows,
    Door,
    RoofFixture,
    WallFixture,
    AboveDoorBanner,
    Fence,
}

/// The exterior part whose color an exterior color update sets.
#[derive(Debug, Clone, Copy, PartialEq, Eq, Structural)]
pub enum HousingExteriorColorField {
    Roof,
    Walls,
    Windows,
    Door,
    RoofFixture,
    WallFixture,
    AboveDoorBanner,
    Fence,
}

/// The interior fixture that an interior update sets.
#[derive(Debug, Clone, Copy, PartialEq, Eq, Structural)]
pub enum HousingInteriorField {
    WindowStyle,
    DoorStyle,
    DoorStain,
    GroundWalls,
    GroundFloor,
    GroundChandelier,
    TopWalls,
    TopFloor,
    TopChandelier,
    CellarWalls,
    CellarFloor,
    CellarChandelier,
}

/// Stored exterior colors; absent ones fall back to the defaults.
#[derive(Debug, Default, Clone, Copy, PartialEq, Eq, Structural)]
pub struct HouseExteriorColorsJson {
    pub roof: Option<u8>,
    pub walls: Option<u8>,
    pub windows: Option<u8>,
    pub door: Option<u8>,
    pub roof_fixture: Option<u8>,
    pub wall_fixture: Option<u8>,
    pub above_door_banner: Option<u8>,
    pub fence: Option<u8>,
}

/// Stored exterior parts; absent ones fall back to the defaults.
#[derive(Debug, Default, Clone, Copy, PartialEq, Eq, Structural)]
pub struct HouseExteriorJson {
    pub roof_id: Option<u16>,
    pub walls_id: Option<u16>,
    pub windows_id: Option<u16>,
    pub door_id: Option<u16>,
    pub roof_fixture_id: Option<u16>,
    pub wall_fixture_id: Option<u16>,
    pub above_door_banner_id: Option<u16>,
    pub fence_id: Option<u16>,
    pub colors: Option<HouseExteriorColorsJson>,
}

/// Stored interior style and fixtures; absent ones fall back to the defaults.
#[derive(Debug, Default, Clone, Copy, PartialEq, Eq, Structural)]
pub struct HouseInteriorJson {
    pub renovation_row_id: Option<u16>,
    pub window_style: Option<u16>,
    pub door_style: Option<u16>,
    pub door_stain: Option<u16>,
    pub ground_walls: Option<u32>,
    pub ground_floor: Option<u32>,
    pub ground_chandelier: Option<u32>,
    pub top_walls: Option<u32>,
    pub top_floor: Option<u32>,
    pub top_chandelier: Option<u32>,
    pub cellar_walls: Option<u32>,
    pub cellar_floor: Option<u32>,
    pub cellar_chandelier: Option<u32>,
}

/// The record with no stored value.
pub open spec fn spec_empty_colors() -> HouseExteriorColorsJson {
    HouseExteriorColorsJson {
        roof: None,
        walls: None,
        windows: None,
        door: None,
        roof_fixture: None,
        wall_fixture: None,
        above_door_banner: None,
        fence: None,
    }
}

/// The record with no stored value.
pub open spec fn spec_empty_exterior() -> HouseExteriorJson {
    HouseExteriorJson {
        roof_id: None,
        walls_id: None,
        windows_id: None,
        door_id: None,
        roof_fixture_id: None,
        wall_fixture_id: None,
        above_door_banner_id: None,
        fence_id: None,
        colors: None,
    }
}

/// The record with no stored value.
pub open spec fn spec_empty_interior() -> HouseInteriorJson {
    HouseInteriorJson {
        renovation_row_id: None,
        window_style: None,
        door_style: None,
        door_stain: None,
        ground_walls: None,
        ground_floor: None,
        ground_chandelier: None,
        top_walls: None,
        top_floor: None,
        top_chandelier: None,
        cellar_walls: None,
        cellar_floor: None,
        cellar_chandelier: None,
    }
}

/// A color record with nothing stored.
pub fn empty_colors() -> (c: HouseExteriorColorsJson)
    ensures
        c == spec_empty_colors(),
{
    HouseExteriorColorsJson {
        roof: None,
        walls: None,
        windows: None,
        door: None,
        roof_fixture: None,
        wall_fixture: None,
        above_door_banner: None,
        fence: None,
    }
}

/// An exterior record with nothing stored.
pub fn empty_exterior() -> (j: HouseExteriorJson)
    ensures
        j == spec_empty_exterior(),
{
    HouseExteriorJson {
        roof_id: None,
        walls_id: None,
        windows_id: None,
        door_id: None,
        roof_fixture_id: None,
        wall_fixture_id: None,
        above_door_banner_id: None,
        fence_id: None,
        colors: None,
    }
}

/// An interior record with nothing stored.
pub fn empty_interior() -> (j: HouseInteriorJson)
    ensures
        j == spec_empty_interior(),
{
    HouseInteriorJson {
        renovation_row_id: None,
        window_style: None,
        door_style: None,
        door_stain: None,
        ground_walls: None,
        ground_floor: None,
        ground_chandelier: None,
        top_walls: None,
        top_floor: None,
        top_chandelier: None,
        cellar_walls: None,
        cellar_floor: None,
        cellar_chandelier: None,
    }
}

/// The record as read: a malformed one reads as empty.
pub open spec fn spec_exterior_or_default(json: HousingJson<HouseExteriorJson>) -> HouseExteriorJson {
    match json {
        HousingJson::Valid(v) => v,
        HousingJson::Malformed(_) => spec_empty_exterior(),
    }
}

/// The record as read: a malformed one reads as empty.
pub open spec fn spec_interior_or_default(json: HousingJson<HouseInteriorJson>) -> HouseInteriorJson {
    match json {
        HousingJson::Valid(v) => v,
        HousingJson::Malformed(_) => spec_empty_interior(),
    }
}

/// Reads an exterior record, taking a malformed one as empty.
pub fn exterior_json_or_default(json: &HousingJson<HouseExteriorJson>) -> (j: HouseExteriorJson)
    ensures
        j == spec_exterior_or_default(*json),
{
    match json {
        HousingJson::Valid(v) => *v,
        HousingJson::Malformed(_) => empty_exterior(),
    }
}

/// Reads an interior record, taking a malformed one as empty.
pub fn interior_json_or_default(json: &HousingJson<HouseInteriorJson>) -> (j: HouseInteriorJson)
    ensures
        j == spec_interior_or_default(*json),
{
    match json {
        HousingJson::Valid(v) => *v,
        HousingJson::Malformed(_) => empty_interior(),
    }
}

/// The exterior record with one part set.
pub open spec fn spec_exterior_with_field(j: HouseExteriorJson, field: HousingExteriorField, value: u16) -> HouseExteriorJson {
    match field {
        HousingExteriorField::Roof => HouseExteriorJson { roof_id: Some(value), ..j },
        HousingExteriorField::Walls => HouseExteriorJson { walls_id: Some(value), ..j },
        HousingExteriorField::Windows => HouseExteriorJson { windows_id: Some(value), ..j },
        HousingExteriorField::Door => HouseExteriorJson { door_id: Some(value), ..j },
        HousingExteriorField::RoofFixture => HouseExteriorJson { roof_fixture_id: Some(value), ..j },
        HousingExteriorField::WallFixture => HouseExteriorJson { wall_fixture_id: Some(value), ..j },
        HousingExteriorField::AboveDoorBanner => HouseExteriorJson { above_door_banner_id: Some(value), ..j },
        HousingExteriorField::Fence => HouseExteriorJson { fence_id: Some(value), ..j },
    }
}

/// The colors with one color set.
pub open spec fn spec_colors_with_field(c: HouseExteriorColorsJson, field: HousingExteriorColorField, value: u8) -> HouseExteriorColorsJson {
    match field {
        HousingExteriorColorField::Roof => HouseExteriorColorsJson { roof: Some(value), ..c },
        HousingExteriorColorField::Walls => HouseExteriorColorsJson { walls: Some(value), ..c },
        HousingExteriorColorField::Windows => HouseExteriorColorsJson { windows: Some(value), ..c },
        HousingExteriorColorField::Door => HouseExteriorColorsJson { door: Some(value), ..c },
        HousingExteriorColorField::RoofFixture => HouseExteriorColorsJson { roof_fixture: Some(value), ..c },
        HousingExteriorColorField::WallFixture => HouseExteriorColorsJson { wall_fixture: Some(value), ..c },
        HousingExteriorColorField::AboveDoorBanner => HouseExteriorColorsJson { above_door_banner: Some(value), ..c },
        HousingExteriorColorField::Fence => HouseExteriorColorsJson { fence: Some(value), ..c },
    }
}

/// The exterior record with one color set (colors start empty if absent).
pub open spec fn spec_exterior_with_color(j: HouseExteriorJson, field: HousingExteriorColorField, value: u8) -> HouseExteriorJson {
    let colors = match j.colors {
        Some(c) => c,
        None => spec_empty_colors(),
    };
    HouseExteriorJson { colors: Some(spec_colors_with_field(colors, field, value)), ..j }
}

/// The interior record with one fixture set. Style fields keep the low
/// 16 bits of the value.
pub open spec fn spec_interior_with_field(j: HouseInteriorJson, field: HousingInteriorField, value: u32) -> HouseInteriorJson {
    match field {
        HousingInteriorField::WindowStyle => HouseInteriorJson { window_style: Some(value as u16), ..j },
        HousingInteriorField::DoorStyle => HouseInteriorJson { door_style: Some(value as u16), ..j },
        HousingInteriorField::DoorStain => HouseInteriorJson { door_stain: Some(value as u16), ..j },
        HousingInteriorField::GroundWalls => HouseInteriorJson { ground_walls: Some(value), ..j },
        HousingInteriorField::GroundFloor => HouseInteriorJson { ground_floor: Some(value), ..j },
        HousingInteriorField::GroundChandelier => HouseInteriorJson { ground_chandelier: Some(value), ..j },
        HousingInteriorField::TopWalls => HouseInteriorJson { top_walls: Some(value), ..j },
        HousingInteriorField::TopFloor => HouseInteriorJson { top_floor: Some(value), ..j },
        HousingInteriorField::TopChandelier => HouseInteriorJson { top_chandelier: Some(value), ..j },
        HousingInteriorField::CellarWalls => HouseInteriorJson { cellar_walls: Some(value), ..j },
        HousingInteriorField::CellarFloor => HouseInteriorJson { cellar_floor: Some(value), ..j },
        HousingInteriorField::CellarChandelier => HouseInteriorJson { cellar_chandelier: Some(value), ..j },
    }
}

/// Sets one exterior part; refused when the stored record is malformed.
pub fn update_exterior_json_field(
    existing_json: &HousingJson<HouseExteriorJson>,
    field: HousingExteriorField,
    value: u16,
) -> (updated: Result<HouseExteriorJson, HousingJsonError>)
    ensures
        match *existing_json {
            HousingJson::Valid(j) => updated == Ok::<HouseExteriorJson, HousingJsonError>(spec_exterior_with_field(j, field, value)),
            HousingJson::Malformed(_) => updated is Err,
        },
{
    let mut j = match existing_json {
        HousingJson::Valid(v) => *v,
        HousingJson::Malformed(_) => return Err(HousingJsonError),
    };
    match field {
        HousingExteriorField::Roof => j.roof_id = Some(value),
        HousingExteriorField::Walls => j.walls_id = Some(value),
        HousingExteriorField::Windows => j.windows_id = Some(value),
        HousingExteriorField::Door => j.door_id = Some(value),
        HousingExteriorField::RoofFixture => j.roof_fixture_id = Some(value),
        HousingExteriorField::WallFixture => j.wall_fixture_id = Some(value),
        HousingExteriorField::AboveDoorBanner => j.above_door_banner_id = Some(value),
        HousingExteriorField::Fence => j.fence_id = Some(value),
    }
    Ok(j)
}

/// Sets one exterior color; refused when the stored record is malformed.
pub fn update_exterior_json_color(
    existing_json: &HousingJson<HouseExteriorJson>,
    field: HousingExteriorColorField,
    value: u8,
) -> (updated: Result<HouseExteriorJson, HousingJsonError>)
    ensures
        match *existing_json {
            HousingJson::Valid(j) => updated == Ok::<HouseExteriorJson, HousingJsonError>(spec_exterior_with_color(j, field, value)),
            HousingJson::Malformed(_) => updated is Err,
        },
{
    let mut j = match existing_json {
        HousingJson::Valid(v) => *v,
        HousingJson::Malformed(_) => return Err(HousingJsonError),
    };
    let mut colors = match j.colors {
        Some(c) => c,
        None => HouseExteriorColorsJson {
            roof: None,
            walls: None,
            windows: None,
            door: None,
            roof_fixture: None,
            wall_fixture: None,
            above_door_banner: None,
            fence: None,
        },
    };
    match field {
        HousingExteriorColorField::Roof => colors.roof = Some(value),
        HousingExteriorColorField::Walls => colors.walls = Some(value),
        HousingExteriorColorField::Windows => colors.windows = Some(value),
        HousingExteriorColorField::Door => colors.door = Some(value),
        HousingExteriorColorField::RoofFixture => colors.roof_fixture = Some(value),
        HousingExteriorColorField::WallFixture => colors.wall_fixture = Some(value),
        HousingExteriorColorField::AboveDoorBanner => colors.above_door_banner = Some(value),
        HousingExteriorColorField::Fence => colors.fence = Some(value),
    }
    j.colors = Some(colors);
    Ok(j)
}

/// Sets one interior fixture; refused when the stored record is malformed.
pub fn update_interior_json_field(
    existing_json: &HousingJson<HouseInteriorJson>,
    field: HousingInteriorField,
    value: u32,
) -> (updated: Result<HouseInteriorJson, HousingJsonError>)
    ensures
        match *existing_json {
            HousingJson::Valid(j) => updated == Ok::<HouseInteriorJson, HousingJsonError>(spec_interior_with_field(j, field, value)),
            HousingJson::Malformed(_) => updated is Err,
        },
{
    let mut j = match existing_json {
        HousingJson::Valid(v) => *v,
        HousingJson::Malformed(_) => return Err(HousingJsonError),
    };
    match field {
        HousingInteriorField::WindowStyle => j.window_style = Some(value as u16),
        HousingInteriorField::DoorStyle => j.door_style = Some(value as u16),
        HousingInteriorField::DoorStain => j.door_stain = Some(value as u16),
        HousingInteriorField::GroundWalls => j.ground_walls = Some(value),
        HousingInteriorField::GroundFloor => j.ground_floor = Some(value),
        HousingInteriorField::GroundChandelier => j.ground_chandelier = Some(value),
        HousingInteriorField::TopWalls => j.top_walls = Some(value),
        HousingInteriorField::TopFloor => j.top_floor = Some(value),
        HousingInteriorField::TopChandelier => j.top_chandelier = Some(value),
        HousingInteriorField::CellarWalls => j.cellar_walls = Some(value),
        HousingInteriorField::CellarFloor => j.cellar_floor = Some(value),
        HousingInteriorField::CellarChandelier => j.cellar_chandelier = Some(value),
    }
    Ok(j)
}

/// The interior pattern (HousingRenovation row) that a record stores.
pub fn housing_interior_renovation_row_id_from_json(json: &HousingJson<HouseInteriorJson>) -> (row: Option<u16>)
    ensures
        row == spec_interior_or_default(*json).renovation_row_id,
{
    interior_json_or_default(json).renovation_row_id
}

/// Stores an interior pattern; refused when the stored record is malformed.
pub fn update_interior_json_renovation_row_id(
    existing_json: &HousingJson<HouseInteriorJson>,
    renovation_row_id: u16,
) -> (updated: Result<HouseInteriorJson, HousingJsonError>)
    ensures
        match *existing_json {
            HousingJson::Valid(j) => updated == Ok::<HouseInteriorJson, HousingJsonError>(HouseInteriorJson { renovation_row_id: Some(renovation_row_id), ..j }),
            HousingJson::Malformed(_) => updated is Err,
        },
{
    let mut j = match existing_json {
        HousingJson::Valid(v) => *v,
        HousingJson::Malformed(_) => return Err(HousingJsonError),
    };
    j.renovation_row_id = Some(renovation_row_id);
    Ok(j)
}

} // verus!
