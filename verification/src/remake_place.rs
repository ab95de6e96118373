//! ReMakePlace presets: the pieces of a preset become furniture rows of
//! an estate, in placed slots in order, and its interior fixtures and
//! district style become fixture updates.
use vstd::prelude::*;
use vstd::string::StringSliceAdditionalSpecFns;

use crate::common::{ContainerType, PlotSize, Position, spec_container_type_id, spec_internal_housing_row};
use crate::database::HousingFurniture;
use crate::fixture_json::HousingInteriorField;
use crate::gamedata::{HousingGameData, HousingItemRow, HousingStainRow, spec_closest_stain, spec_furniture_catalog_id};
use crate::inventory::{indoor_container_for_flat_slot, spec_indoor_container_for_flat_slot};
use crate::common::container_type_id;
use crate::seq_util::{first_index, first_match, lemma_first_index_at, lemma_first_index_none};
use crate::state::HousingPresetScope;

verus! {

/// Item UI category of interior walls.
pub const REMAKE_PLACE_ITEM_UI_CATEGORY_INTERIOR_WALL: u8 = 73;
/// Item UI category of flooring.
pub const REMAKE_PLACE_ITEM_UI_CATEGORY_FLOORING: u8 = 74;
/// Item UI category of ceiling lights.
pub const REMAKE_PLACE_ITEM_UI_CATEGORY_CEILING_LIGHT: u8 = 75;
/// Placed slots of an interior: twelve pages of fifty.
pub const INTERIOR_PLACED_CAPACITY: usize = 600;
/// Placed slots of a yard.
pub const EXTERIOR_PLACED_CAPACITY: usize = 50;

/// One piece of a preset, with attachments following their parent, its
/// position and rotation already in world terms (bit patterns of 32-bit
/// floats), and the text of its color property (empty without one).
#[derive(Debug)]
pub struct RemakePlaceFurnitureEntry {
    pub item_id: u32,
    pub position: Position,
    pub rotation_bits: u32,
    pub color: String,
}

/// One interior fixture of a preset.
#[derive(Debug)]
pub struct RemakePlaceInteriorFixture {
    pub level: String,
    pub fixture_type: String,
    pub name: String,
    pub item_id: u32,
}

/// A preset: interior fixtures, interior pieces and yard pieces.
#[derive(Debug)]
pub struct RemakePlaceLayout {
    pub interior_fixture: Vec<RemakePlaceInteriorFixture>,
    pub interior_furniture: Vec<RemakePlaceFurnitureEntry>,
    pub exterior_furniture: Vec<RemakePlaceFurnitureEntry>,
}

/// The rows a preset makes and what it skipped.
#[derive(Debug)]
pub struct RemakePlaceImportRows {
    pub rows: Vec<HousingFurniture>,
    pub indoor_imported: usize,
    pub outdoor_imported: usize,
    pub skipped_missing_item_id: usize,
    pub skipped_missing_catalog: usize,
    pub skipped_capacity: usize,
}

/// The fixture updates a preset makes and what it skipped.
#[derive(Debug)]
pub struct RemakePlaceInteriorFixtureUpdates {
    pub renovation_row_id: Option<u16>,
    pub fixture_updates: Vec<(HousingInteriorField, u32)>,
    pub skipped_missing_item_id: usize,
    pub skipped_missing_item_data: usize,
    pub skipped_wrong_category: usize,
}

/// The UTF-8 bytes of a text.
pub open spec fn spec_text_bytes(text: Seq<char>) -> Seq<u8> {
    vstd::utf8::encode_utf8(text)
}

/// An ASCII letter or digit.
pub open spec fn spec_is_ascii_alnum(b: u8) -> bool {
    (48 <= b <= 57) || (65 <= b <= 90) || (97 <= b <= 122)
}

/// An ASCII byte in lower case.
pub open spec fn spec_ascii_lower(b: u8) -> u8 {
    if 65 <= b <= 90 { (b + 32) as u8 } else { b }
}

/// The token of a text: its ASCII letters and digits, lower-cased (no
/// other character of a UTF-8 text encodes to one).
pub open spec fn spec_token(bytes: Seq<u8>) -> Seq<u8>
    decreases bytes.len(),
{
    if bytes.len() == 0 {
        Seq::empty()
    } else if spec_is_ascii_alnum(bytes.last()) {
        spec_token(bytes.drop_last()).push(spec_ascii_lower(bytes.last()))
    } else {
        spec_token(bytes.drop_last())
    }
}

/// The token of a text.
pub fn normalize_remake_place_fixture_token(value: &str) -> (token: Vec<u8>)
    ensures
        token@ == spec_token(value.spec_bytes()),
{
    let bytes = value.as_bytes();
    let mut token: Vec<u8> = Vec::new();
    let mut i: usize = 0;
    assert(bytes@.take(0) =~= Seq::<u8>::empty());
    while i < bytes.len()
        invariant
            i <= bytes@.len(),
            bytes@ == value.spec_bytes(),
            token@ == spec_token(bytes@.take(i as int)),
        decreases bytes@.len() - i,
    {
        assert(bytes@.take(i as int + 1).drop_last() =~= bytes@.take(i as int));
        let b = bytes[i];
        if (48 <= b && b <= 57) || (65 <= b && b <= 90) || (97 <= b && b <= 122) {
            let lower = if 65 <= b && b <= 90 { b + 32 } else { b };
            token.push(lower);
        }
        i = i + 1;
    }
    assert(bytes@.take(i as int) =~= bytes@);
    token
}

fn token_is(token: &Vec<u8>, literal: &str) -> (r: bool)
    ensures
        r == (token@ == literal.spec_bytes()),
{
    let lit = literal.as_bytes();
    if token.len() != lit.len() {
        return false;
    }
    let mut i: usize = 0;
    while i < token.len()
        invariant
            i <= token@.len(),
            token@.len() == lit@.len(),
            lit@ == literal.spec_bytes(),
            forall|k: int| 0 <= k < i ==> token@[k] == lit@[k],
        decreases token@.len() - i,
    {
        if token[i] != lit[i] {
            return false;
        }
        i = i + 1;
    }
    assert(token@ =~= lit@);
    true
}

/// `needle` occurs in `hay`.
pub open spec fn spec_contains(hay: Seq<u8>, needle: Seq<u8>) -> bool {
    exists|i: int| 0 <= i && i + needle.len() <= hay.len() && #[trigger] hay.subrange(i, i + needle.len()) == needle
}

fn token_contains(token: &Vec<u8>, literal: &str) -> (r: bool)
    ensures
        r == spec_contains(token@, literal.spec_bytes()),
{
    let lit = literal.as_bytes();
    if lit.len() > token.len() {
        proof {
            assert forall|i: int| !(0 <= i && i + lit@.len() <= token@.len() && #[trigger] token@.subrange(i, i + lit@.len()) == lit@) by {}
        }
        return false;
    }
    let mut i: usize = 0;
    while i <= token.len() - lit.len()
        invariant
            lit.len() <= token.len(),
            i <= token@.len() - lit@.len() + 1,
            lit@ == literal.spec_bytes(),
            forall|j: int| 0 <= j < i ==> #[trigger] token@.subrange(j, j + lit@.len()) != lit@,
        decreases token@.len() - i,
    {
        let mut k: usize = 0;
        let mut same = true;
        while k < lit.len()
            invariant
                k <= lit@.len(),
                i + lit@.len() <= token@.len(),
                lit@.len() == lit.len(),
                token@.len() == token.len(),
                same == forall|m: int| 0 <= m < k ==> token@[i + m] == lit@[m],
            decreases lit@.len() - k,
        {
            assert(i + k < token@.len());
            if token[i + k] != lit[k] {
                same = false;
            }
            k = k + 1;
        }
        if same {
            assert(token@.subrange(i as int, i + lit@.len()) =~= lit@);
            return true;
        }
        assert(token@.subrange(i as int, i + lit@.len())[(choose|m: int| 0 <= m < lit@.len() && token@[i + m] != lit@[m])] != lit@[(choose|m: int| 0 <= m < lit@.len() && token@[i + m] != lit@[m])]);
        i = i + 1;
    }
    proof {
        assert forall|j: int| !(0 <= j && j + lit@.len() <= token@.len() && #[trigger] token@.subrange(j, j + lit@.len()) == lit@) by {
            if 0 <= j && j + lit@.len() <= token@.len() {
                assert(j < i);
            }
        }
    }
    false
}

/// The floor a level token names: 0 ground, 1 upper, 2 cellar.
pub open spec fn spec_level_floor(level: Seq<u8>) -> Option<int> {
    if level == "groundfloor".spec_bytes() || level == "ground".spec_bytes() || level == "firstfloor".spec_bytes()
        || level == "1stfloor".spec_bytes() {
        Some(0)
    } else if level == "upperfloor".spec_bytes() || level == "topfloor".spec_bytes() || level == "secondfloor".spec_bytes()
        || level == "2ndfloor".spec_bytes() {
        Some(1)
    } else if level == "basement".spec_bytes() || level == "cellar".spec_bytes() {
        Some(2)
    } else {
        None
    }
}

/// The part a type token names: 0 wall, 1 floor, 2 light.
pub open spec fn spec_fixture_part(fixture_type: Seq<u8>) -> Option<int> {
    if fixture_type == "wall".spec_bytes() {
        Some(0)
    } else if fixture_type == "floor".spec_bytes() {
        Some(1)
    } else if fixture_type == "light".spec_bytes() || fixture_type == "ceilinglight".spec_bytes() {
        Some(2)
    } else {
        None
    }
}

/// The interior field of a floor and a part.
pub open spec fn spec_field_of(floor: int, part: int) -> HousingInteriorField {
    if floor == 0 {
        if part == 0 { HousingInteriorField::GroundWalls } else if part == 1 { HousingInteriorField::GroundFloor } else { HousingInteriorField::GroundChandelier }
    } else if floor == 1 {
        if part == 0 { HousingInteriorField::TopWalls } else if part == 1 { HousingInteriorField::TopFloor } else { HousingInteriorField::TopChandelier }
    } else {
        if part == 0 { HousingInteriorField::CellarWalls } else if part == 1 { HousingInteriorField::CellarFloor } else { HousingInteriorField::CellarChandelier }
    }
}

/// The interior field a fixture's level and type tokens name.
pub open spec fn spec_fixture_field(level: Seq<u8>, fixture_type: Seq<u8>) -> Option<HousingInteriorField> {
    match (spec_level_floor(level), spec_fixture_part(fixture_type)) {
        (Some(f), Some(p)) => Some(spec_field_of(f, p)),
        _ => None,
    }
}

/// The interior field a fixture's level and type name (ground, upper or
/// cellar floor; wall, floor or light), if any.
pub fn remake_place_interior_fixture_field(level: &str, fixture_type: &str) -> (field: Option<HousingInteriorField>)
    ensures
        field == spec_fixture_field(spec_token(level.spec_bytes()), spec_token(fixture_type.spec_bytes())),
{
    let level = normalize_remake_place_fixture_token(level);
    let kind = normalize_remake_place_fixture_token(fixture_type);
    let floor: u8 = if token_is(&level, "groundfloor") || token_is(&level, "ground") || token_is(&level, "firstfloor")
        || token_is(&level, "1stfloor") {
        0
    } else if token_is(&level, "upperfloor") || token_is(&level, "topfloor") || token_is(&level, "secondfloor")
        || token_is(&level, "2ndfloor") {
        1
    } else if token_is(&level, "basement") || token_is(&level, "cellar") {
        2
    } else {
        return None;
    };
    let part: u8 = if token_is(&kind, "wall") {
        0
    } else if token_is(&kind, "floor") {
        1
    } else if token_is(&kind, "light") || token_is(&kind, "ceilinglight") {
        2
    } else {
        return None;
    };
    let field = if floor == 0 {
        if part == 0 { HousingInteriorField::GroundWalls } else if part == 1 { HousingInteriorField::GroundFloor } else { HousingInteriorField::GroundChandelier }
    } else if floor == 1 {
        if part == 0 { HousingInteriorField::TopWalls } else if part == 1 { HousingInteriorField::TopFloor } else { HousingInteriorField::TopChandelier }
    } else {
        if part == 0 { HousingInteriorField::CellarWalls } else if part == 1 { HousingInteriorField::CellarFloor } else { HousingInteriorField::CellarChandelier }
    };
    Some(field)
}

/// The category a fixture field takes: walls, flooring or lights.
pub open spec fn spec_expected_category(field: HousingInteriorField) -> Option<u8> {
    match field {
        HousingInteriorField::GroundWalls | HousingInteriorField::TopWalls | HousingInteriorField::CellarWalls => Some(REMAKE_PLACE_ITEM_UI_CATEGORY_INTERIOR_WALL),
        HousingInteriorField::GroundFloor | HousingInteriorField::TopFloor | HousingInteriorField::CellarFloor => Some(REMAKE_PLACE_ITEM_UI_CATEGORY_FLOORING),
        HousingInteriorField::GroundChandelier | HousingInteriorField::TopChandelier | HousingInteriorField::CellarChandelier => Some(REMAKE_PLACE_ITEM_UI_CATEGORY_CEILING_LIGHT),
        _ => None,
    }
}

/// The category a fixture field takes.
pub fn remake_place_expected_item_ui_category(field: HousingInteriorField) -> (category: Option<u8>)
    ensures
        category == spec_expected_category(field),
{
    match field {
        HousingInteriorField::GroundWalls | HousingInteriorField::TopWalls | HousingInteriorField::CellarWalls => Some(REMAKE_PLACE_ITEM_UI_CATEGORY_INTERIOR_WALL),
        HousingInteriorField::GroundFloor | HousingInteriorField::TopFloor | HousingInteriorField::CellarFloor => Some(REMAKE_PLACE_ITEM_UI_CATEGORY_FLOORING),
        HousingInteriorField::GroundChandelier | HousingInteriorField::TopChandelier | HousingInteriorField::CellarChandelier => Some(REMAKE_PLACE_ITEM_UI_CATEGORY_CEILING_LIGHT),
        _ => None,
    }
}

/// A plot size's offset among a style's three patterns.
pub open spec fn spec_plot_size_index(plot_size: PlotSize) -> u16 {
    match plot_size {
        PlotSize::Small => 0,
        PlotSize::Medium => 1,
        PlotSize::Large => 2,
    }
}

/// A plot size's offset among a style's three patterns.
pub fn plot_size_index(plot_size: PlotSize) -> (index: u16)
    ensures
        index == spec_plot_size_index(plot_size),
{
    match plot_size {
        PlotSize::Small => 0,
        PlotSize::Medium => 1,
        PlotSize::Large => 2,
    }
}

/// The pattern a district style name picks for a plot size: the first
/// style that the name's token contains, in the order dark minimalist,
/// minimalist, Empyreum, Shirogane, the Goblet, the Lavender Beds, Mist.
pub open spec fn spec_renovation_row_id(name: Seq<u8>, plot_size: PlotSize) -> Option<u16> {
    let base: Option<u16> = if spec_contains(name, "minimalistdark".spec_bytes()) || spec_contains(name, "simpledark".spec_bytes()) {
        Some(19u16)
    } else if spec_contains(name, "minimalist".spec_bytes()) || spec_contains(name, "simple".spec_bytes()) {
        Some(16u16)
    } else if spec_contains(name, "empyreum".spec_bytes()) {
        Some(13u16)
    } else if spec_contains(name, "shirogane".spec_bytes()) {
        Some(10u16)
    } else if spec_contains(name, "goblet".spec_bytes()) {
        Some(7u16)
    } else if spec_contains(name, "lavender".spec_bytes()) {
        Some(4u16)
    } else if spec_contains(name, "mist".spec_bytes()) {
        Some(1u16)
    } else {
        None
    };
    match base {
        Some(b) => Some((b + spec_plot_size_index(plot_size)) as u16),
        None => None,
    }
}

/// The pattern a district style name picks for a plot size.
pub fn remake_place_renovation_row_id(name: &str, plot_size: PlotSize) -> (row_id: Option<u16>)
    ensures
        row_id == spec_renovation_row_id(spec_token(name.spec_bytes()), plot_size),
{
    let token = normalize_remake_place_fixture_token(name);
    let base: u16 = if token_contains(&token, "minimalistdark") || token_contains(&token, "simpledark") {
        19
    } else if token_contains(&token, "minimalist") || token_contains(&token, "simple") {
        16
    } else if token_contains(&token, "empyreum") {
        13
    } else if token_contains(&token, "shirogane") {
        10
    } else if token_contains(&token, "goblet") {
        7
    } else if token_contains(&token, "lavender") {
        4
    } else if token_contains(&token, "mist") {
        1
    } else {
        return None;
    };
    Some(base + plot_size_index(plot_size))
}

/// The updates entries of a field, as a predicate value.
pub open spec fn spec_field_is(field: HousingInteriorField) -> spec_fn((HousingInteriorField, u32)) -> bool {
    |u: (HousingInteriorField, u32)| u.0 == field
}

/// The updates after setting a field: its first entry takes the value,
/// or the field is appended.
pub open spec fn spec_upsert(updates: Seq<(HousingInteriorField, u32)>, field: HousingInteriorField, value: u32) -> Seq<(HousingInteriorField, u32)> {
    match first_index(updates, spec_field_is(field)) {
        Some(k) => updates.update(k, (field, value)),
        None => updates.push((field, value)),
    }
}

/// Sets a field's value among the updates (see `spec_upsert`).
pub fn upsert_fixture_update(updates: &mut Vec<(HousingInteriorField, u32)>, field: HousingInteriorField, value: u32)
    ensures
        final(updates)@ == spec_upsert(old(updates)@, field, value),
{
    let ghost same = spec_field_is(field);
    let mut i: usize = 0;
    while i < updates.len()
        invariant
            i <= updates@.len(),
            updates@ == old(updates)@,
            same == spec_field_is(field),
            forall|k: int| 0 <= k < i ==> !same(#[trigger] updates@[k]),
        decreases updates@.len() - i,
    {
        if updates[i].0 == field {
            proof { lemma_first_index_at(updates@, same, i as int); }
            updates.set(i, (field, value));
            return;
        }
        i = i + 1;
    }
    proof { lemma_first_index_none(updates@, same); }
    updates.push((field, value));
}

/// The fixture data and category of an item, by its first row.
pub open spec fn spec_item_data(rows: Seq<HousingItemRow>, item_id: u32) -> Option<(u32, u8)> {
    match first_match(rows, |r: HousingItemRow| r.item_id == item_id) {
        Some(r) => Some((r.additional_data, r.item_ui_category)),
        None => None,
    }
}

/// The fixture tally: style, updates and skip counts.
pub type FixtureTally = (Option<u16>, Seq<(HousingInteriorField, u32)>, int, int, int);

/// The tally after one fixture: a district fixture sets the style when
/// its name names one; a fixture naming a field needs an item, item data
/// and the field's category, and then sets the field.
pub open spec fn spec_fixture_step(acc: FixtureTally, fixture: RemakePlaceInteriorFixture, plot_size: PlotSize, rows: Seq<HousingItemRow>) -> FixtureTally {
    let kind = spec_token(spec_text_bytes(fixture.fixture_type@));
    if kind == "district".spec_bytes() {
        match spec_renovation_row_id(spec_token(spec_text_bytes(fixture.name@)), plot_size) {
            Some(r) => (Some(r), acc.1, acc.2, acc.3, acc.4),
            None => acc,
        }
    } else {
        match spec_fixture_field(spec_token(spec_text_bytes(fixture.level@)), kind) {
            None => acc,
            Some(field) => if fixture.item_id == 0 {
                (acc.0, acc.1, acc.2 + 1, acc.3, acc.4)
            } else {
                match spec_item_data(rows, fixture.item_id) {
                    None => (acc.0, acc.1, acc.2, acc.3 + 1, acc.4),
                    Some(d) => if spec_expected_category(field) != Some(d.1) {
                        (acc.0, acc.1, acc.2, acc.3, acc.4 + 1)
                    } else {
                        (acc.0, spec_upsert(acc.1, field, d.0), acc.2, acc.3, acc.4)
                    },
                }
            },
        }
    }
}

/// The tally after the fixtures, in order.
pub open spec fn spec_fixture_tally(fixtures: Seq<RemakePlaceInteriorFixture>, plot_size: PlotSize, rows: Seq<HousingItemRow>) -> FixtureTally
    decreases fixtures.len(),
{
    if fixtures.len() == 0 {
        (None, Seq::empty(), 0, 0, 0)
    } else {
        spec_fixture_step(spec_fixture_tally(fixtures.drop_last(), plot_size, rows), fixtures.last(), plot_size, rows)
    }
}

/// `updates` are the fixture updates of `fixtures` (see `spec_fixture_step`).
pub open spec fn spec_is_fixture_updates_of(
    updates: RemakePlaceInteriorFixtureUpdates,
    fixtures: Seq<RemakePlaceInteriorFixture>,
    plot_size: PlotSize,
    rows: Seq<HousingItemRow>,
) -> bool {
    let t = spec_fixture_tally(fixtures, plot_size, rows);
    &&& updates.renovation_row_id == t.0
    &&& updates.fixture_updates@ == t.1
    &&& updates.skipped_missing_item_id == t.2
    &&& updates.skipped_missing_item_data == t.3
    &&& updates.skipped_wrong_category == t.4
}

/// The fixture updates of a preset (see `spec_fixture_step`).
pub fn build_remake_place_interior_fixture_updates(
    layout: &RemakePlaceLayout,
    plot_size: PlotSize,
    game_data: &HousingGameData,
) -> (updates: RemakePlaceInteriorFixtureUpdates)
    ensures
        spec_is_fixture_updates_of(updates, layout.interior_fixture@, plot_size, game_data.rows_view()),
{
    let fixtures = &layout.interior_fixture;
    let mut result = RemakePlaceInteriorFixtureUpdates {
        renovation_row_id: None,
        fixture_updates: Vec::new(),
        skipped_missing_item_id: 0,
        skipped_missing_item_data: 0,
        skipped_wrong_category: 0,
    };
    let mut i: usize = 0;
    assert(fixtures@.take(0) =~= Seq::<RemakePlaceInteriorFixture>::empty());
    while i < fixtures.len()
        invariant
            i <= fixtures@.len(),
            result.skipped_missing_item_id + result.skipped_missing_item_data + result.skipped_wrong_category <= i,
            ({
                let t = spec_fixture_tally(fixtures@.take(i as int), plot_size, game_data.rows_view());
                &&& result.renovation_row_id == t.0
                &&& result.fixture_updates@ == t.1
                &&& result.skipped_missing_item_id == t.2
                &&& result.skipped_missing_item_data == t.3
                &&& result.skipped_wrong_category == t.4
            }),
        decreases fixtures@.len() - i,
    {
        assert(fixtures@.take(i as int + 1).drop_last() =~= fixtures@.take(i as int));
        let fixture = &fixtures[i];
        let kind = normalize_remake_place_fixture_token(fixture.fixture_type.as_str());
        if token_is(&kind, "district") {
            match remake_place_renovation_row_id(fixture.name.as_str(), plot_size) {
                Some(r) => {
                    result.renovation_row_id = Some(r);
                },
                None => {},
            }
        } else {
            match remake_place_interior_fixture_field(fixture.level.as_str(), fixture.fixture_type.as_str()) {
                None => {},
                Some(field) => {
                    if fixture.item_id == 0 {
                        result.skipped_missing_item_id = result.skipped_missing_item_id + 1;
                    } else {
                        match game_data.get_item_info(fixture.item_id) {
                            None => {
                                result.skipped_missing_item_data = result.skipped_missing_item_data + 1;
                            },
                            Some(row) => {
                                if remake_place_expected_item_ui_category(field) != Some(row.item_ui_category) {
                                    result.skipped_wrong_category = result.skipped_wrong_category + 1;
                                } else {
                                    upsert_fixture_update(&mut result.fixture_updates, field, row.additional_data);
                                }
                            },
                        }
                    }
                },
            }
        }
        i = i + 1;
    }
    assert(fixtures@.take(i as int) =~= fixtures@);
    result
}

/// The value of an ASCII hex digit.
pub open spec fn spec_hex_value(b: u8) -> Option<u8> {
    if 48 <= b <= 57 {
        Some((b - 48) as u8)
    } else if 97 <= b <= 102 {
        Some((b - 87) as u8)
    } else if 65 <= b <= 70 {
        Some((b - 55) as u8)
    } else {
        None
    }
}

fn hex_value(b: u8) -> (v: Option<u8>)
    ensures
        v == spec_hex_value(b),
{
    if 48 <= b && b <= 57 {
        Some(b - 48)
    } else if 97 <= b && b <= 102 {
        Some(b - 87)
    } else if 65 <= b && b <= 70 {
        Some(b - 55)
    } else {
        None
    }
}

/// The color that a color text starts with: six hex digits, two per
/// channel (whatever follows, such as alpha, is ignored).
pub open spec fn spec_rgb(bytes: Seq<u8>) -> Option<Seq<u8>> {
    if bytes.len() < 6 {
        None
    } else if forall|k: int| 0 <= k < 6 ==> (#[trigger] spec_hex_value(bytes[k])) is Some {
        Some(seq![
            (spec_hex_value(bytes[0]).unwrap() * 16 + spec_hex_value(bytes[1]).unwrap()) as u8,
            (spec_hex_value(bytes[2]).unwrap() * 16 + spec_hex_value(bytes[3]).unwrap()) as u8,
            (spec_hex_value(bytes[4]).unwrap() * 16 + spec_hex_value(bytes[5]).unwrap()) as u8,
        ])
    } else {
        None
    }
}

/// The color that a color text starts with (see `spec_rgb`).
pub fn parse_remake_place_rgb(color: &str) -> (rgb: Option<[u8; 3]>)
    ensures
        match spec_rgb(color.spec_bytes()) {
            Some(c) => rgb matches Some(r) && r@ == c,
            None => rgb is None,
        },
{
    let bytes = color.as_bytes();
    if bytes.len() < 6 {
        return None;
    }
    let mut digits: Vec<u8> = Vec::new();
    let mut k: usize = 0;
    while k < 6
        invariant
            k <= 6,
            bytes@.len() >= 6,
            bytes@ == color.spec_bytes(),
            digits@.len() == k,
            forall|j: int| 0 <= j < k ==> spec_hex_value(bytes@[j]) == Some(#[trigger] digits@[j]),
        decreases 6 - k,
    {
        match hex_value(bytes[k]) {
            Some(v) => digits.push(v),
            None => return None,
        }
        k = k + 1;
    }
    let r = digits[0] * 16 + digits[1];
    let g = digits[2] * 16 + digits[3];
    let b = digits[4] * 16 + digits[5];
    let rgb = [r, g, b];
    assert(rgb@ =~= spec_rgb(color.spec_bytes()).unwrap());
    Some(rgb)
}

/// The import tally: rows, pieces imported in this area, skips for a
/// missing item, a missing catalog entry and capacity, and the next
/// placed slot of this area.
pub type ImportTally = (Seq<HousingFurniture>, int, int, int, int, int);

/// The stain of a piece: the dye nearest its color, 0 without a color or
/// dyes.
pub open spec fn spec_piece_stain(color: Seq<char>, stains: Seq<HousingStainRow>) -> u8 {
    match spec_rgb(spec_text_bytes(color)) {
        Some(rgb) => match spec_closest_stain(stains, rgb) {
            Some(r) => r.stain_id,
            None => 0,
        },
        None => 0,
    }
}

/// The container slot of an area's placed slot.
pub open spec fn spec_placed_slot(flat: int, indoors: bool) -> Option<(ContainerType, u16)> {
    if indoors {
        spec_indoor_container_for_flat_slot(flat as u16)
    } else {
        Some((ContainerType::HousingExteriorPlacedItems, flat as u16))
    }
}

/// The tally after one piece: it needs an item, a catalog entry and a
/// free placed slot of the area, and then becomes a placed row in the
/// next slot.
pub open spec fn spec_import_step(
    acc: ImportTally,
    entry: RemakePlaceFurnitureEntry,
    land_ident: i64,
    created_by_content_id: Option<i64>,
    rows: Seq<HousingItemRow>,
    stains: Seq<HousingStainRow>,
    indoors: bool,
) -> ImportTally {
    let capacity: int = if indoors { INTERIOR_PLACED_CAPACITY as int } else { EXTERIOR_PLACED_CAPACITY as int };
    if entry.item_id == 0 {
        (acc.0, acc.1, acc.2 + 1, acc.3, acc.4, acc.5)
    } else {
        match spec_furniture_catalog_id(rows, entry.item_id) {
            None => (acc.0, acc.1, acc.2, acc.3 + 1, acc.4, acc.5),
            Some(catalog_id) => if acc.5 >= capacity {
                (acc.0, acc.1, acc.2, acc.3, acc.4 + 1, acc.5)
            } else {
                match spec_placed_slot(acc.5, indoors) {
                    None => acc,
                    Some(location) => {
                        let row = HousingFurniture {
                            land_ident,
                            container_type: spec_container_type_id(location.0) as i32,
                            slot: location.1 as i32,
                            item_id: entry.item_id as i64,
                            catalog_id: catalog_id as i32,
                            stain: spec_piece_stain(entry.color@, stains) as i32,
                            placed: true,
                            pos_x_bits: entry.position.x_bits,
                            pos_y_bits: entry.position.y_bits,
                            pos_z_bits: entry.position.z_bits,
                            rotation_bits: entry.rotation_bits,
                            created_by_content_id,
                            updated_at: 0,
                        };
                        (acc.0.push(row), acc.1 + 1, acc.2, acc.3, acc.4, acc.5 + 1)
                    },
                }
            },
        }
    }
}

/// The tally after the pieces of an area, in order.
pub open spec fn spec_import_fold(
    start: ImportTally,
    entries: Seq<RemakePlaceFurnitureEntry>,
    land_ident: i64,
    created_by_content_id: Option<i64>,
    rows: Seq<HousingItemRow>,
    stains: Seq<HousingStainRow>,
    indoors: bool,
) -> ImportTally
    decreases entries.len(),
{
    if entries.len() == 0 {
        start
    } else {
        spec_import_step(
            spec_import_fold(start, entries.drop_last(), land_ident, created_by_content_id, rows, stains, indoors),
            entries.last(),
            land_ident,
            created_by_content_id,
            rows,
            stains,
            indoors,
        )
    }
}

fn import_area(
    result: &mut RemakePlaceImportRows,
    entries: &Vec<RemakePlaceFurnitureEntry>,
    land_ident: i64,
    created_by_content_id: Option<i64>,
    game_data: &HousingGameData,
    indoors: bool,
) -> (imported: usize)
    requires
        old(result).skipped_missing_item_id + old(result).skipped_missing_catalog + old(result).skipped_capacity + old(result).rows@.len() + entries@.len() <= usize::MAX,
    ensures
        ({
            let t = spec_import_fold(
                (old(result).rows@, 0, old(result).skipped_missing_item_id as int, old(result).skipped_missing_catalog as int, old(result).skipped_capacity as int, 0),
                entries@,
                land_ident,
                created_by_content_id,
                game_data.rows_view(),
                game_data.stains_view(),
                indoors,
            );
            &&& final(result).rows@ == t.0
            &&& imported == t.1
            &&& final(result).skipped_missing_item_id == t.2
            &&& final(result).skipped_missing_catalog == t.3
            &&& final(result).skipped_capacity == t.4
            &&& final(result).indoor_imported == old(result).indoor_imported
            &&& final(result).outdoor_imported == old(result).outdoor_imported
            &&& final(result).rows@.len() + final(result).skipped_missing_item_id + final(result).skipped_missing_catalog + final(result).skipped_capacity
                <= old(result).rows@.len() + old(result).skipped_missing_item_id + old(result).skipped_missing_catalog + old(result).skipped_capacity + entries@.len()
        }),
{
    let capacity: usize = if indoors { INTERIOR_PLACED_CAPACITY } else { EXTERIOR_PLACED_CAPACITY };
    let ghost start = (old(result).rows@, 0int, old(result).skipped_missing_item_id as int, old(result).skipped_missing_catalog as int, old(result).skipped_capacity as int, 0int);
    let ghost base = old(result).rows@.len() + old(result).skipped_missing_item_id + old(result).skipped_missing_catalog + old(result).skipped_capacity;
    let mut imported: usize = 0;
    let mut flat: usize = 0;
    let mut i: usize = 0;
    assert(entries@.take(0) =~= Seq::<RemakePlaceFurnitureEntry>::empty());
    while i < entries.len()
        invariant
            i <= entries@.len(),
            base + entries@.len() <= usize::MAX,
            result.rows@.len() + result.skipped_missing_item_id + result.skipped_missing_catalog + result.skipped_capacity <= base + i,
            imported <= i,
            flat <= i,
            flat <= capacity,
            capacity == if indoors { INTERIOR_PLACED_CAPACITY } else { EXTERIOR_PLACED_CAPACITY },
            result.indoor_imported == old(result).indoor_imported,
            result.outdoor_imported == old(result).outdoor_imported,
            ({
                let t = spec_import_fold(start, entries@.take(i as int), land_ident, created_by_content_id, game_data.rows_view(), game_data.stains_view(), indoors);
                &&& result.rows@ == t.0
                &&& imported == t.1
                &&& result.skipped_missing_item_id == t.2
                &&& result.skipped_missing_catalog == t.3
                &&& result.skipped_capacity == t.4
                &&& flat == t.5
            }),
        decreases entries@.len() - i,
    {
        assert(entries@.take(i as int + 1).drop_last() =~= entries@.take(i as int));
        let entry = &entries[i];
        if entry.item_id == 0 {
            result.skipped_missing_item_id = result.skipped_missing_item_id + 1;
        } else {
            match game_data.get_furniture_catalog_id(entry.item_id) {
                None => {
                    result.skipped_missing_catalog = result.skipped_missing_catalog + 1;
                },
                Some(catalog_id) => {
                    if flat >= capacity {
                        result.skipped_capacity = result.skipped_capacity + 1;
                    } else {
                        let location = if indoors {
                            indoor_container_for_flat_slot(flat as u16)
                        } else {
                            Some((ContainerType::HousingExteriorPlacedItems, flat as u16))
                        };
                        match location {
                            None => {},
                            Some((container, slot)) => {
                                let stain: u8 = match parse_remake_place_rgb(entry.color.as_str()) {
                                    Some(rgb) => match game_data.get_closest_housing_stain(rgb) {
                                        Some(s) => s,
                                        None => 0,
                                    },
                                    None => 0,
                                };
                                result.rows.push(HousingFurniture {
                                    land_ident,
                                    container_type: container_type_id(container) as i32,
                                    slot: slot as i32,
                                    item_id: entry.item_id as i64,
                                    catalog_id: catalog_id as i32,
                                    stain: stain as i32,
                                    placed: true,
                                    pos_x_bits: entry.position.x_bits,
                                    pos_y_bits: entry.position.y_bits,
                                    pos_z_bits: entry.position.z_bits,
                                    rotation_bits: entry.rotation_bits,
                                    created_by_content_id,
                                    updated_at: 0,
                                });
                                imported = imported + 1;
                                flat = flat + 1;
                            },
                        }
                    }
                },
            }
        }
        i = i + 1;
    }
    assert(entries@.take(i as int) =~= entries@);
    imported
}

/// The tallies of a preset's interior pieces (when the scope covers the
/// interior, folded from an empty tally) and of all its pieces (the yard
/// pieces, when it covers the exterior, folded on with a fresh count).
pub open spec fn spec_import_tallies(
    interior: Seq<RemakePlaceFurnitureEntry>,
    exterior: Seq<RemakePlaceFurnitureEntry>,
    land_ident: i64,
    created_by_content_id: Option<i64>,
    rows: Seq<HousingItemRow>,
    stains: Seq<HousingStainRow>,
    scope: HousingPresetScope,
) -> (ImportTally, ImportTally) {
    let empty: ImportTally = (Seq::empty(), 0, 0, 0, 0, 0);
    let inner = if scope.spec_includes_interior() {
        spec_import_fold(empty, interior, land_ident, created_by_content_id, rows, stains, true)
    } else {
        empty
    };
    let outer_start: ImportTally = (inner.0, 0, inner.2, inner.3, inner.4, 0);
    let outer = if scope.spec_includes_exterior() {
        spec_import_fold(outer_start, exterior, land_ident, created_by_content_id, rows, stains, false)
    } else {
        outer_start
    };
    (inner, outer)
}

/// `result` holds the rows that the pieces of a preset make for an estate:
/// the interior pieces (when the scope covers the interior) folded from an
/// empty tally, then the yard pieces (when it covers the exterior) folded
/// on, with the skips counted over both.
pub open spec fn spec_is_import_rows_of(
    result: RemakePlaceImportRows,
    interior: Seq<RemakePlaceFurnitureEntry>,
    exterior: Seq<RemakePlaceFurnitureEntry>,
    land_ident: i64,
    created_by_content_id: Option<i64>,
    rows: Seq<HousingItemRow>,
    stains: Seq<HousingStainRow>,
    scope: HousingPresetScope,
) -> bool {
    let (inner, outer) = spec_import_tallies(interior, exterior, land_ident, created_by_content_id, rows, stains, scope);
    &&& result.rows@ == outer.0
    &&& result.indoor_imported == inner.1
    &&& result.outdoor_imported == outer.1
    &&& result.skipped_missing_item_id == outer.2
    &&& result.skipped_missing_catalog == outer.3
    &&& result.skipped_capacity == outer.4
}

/// The rows a preset makes for an estate: the interior pieces (when the
/// scope covers the interior) in interior placed slots from the first,
/// then the yard pieces (when it covers the exterior) in yard slots from
/// the first; skips are counted over both.
pub fn build_remake_place_furniture_rows(
    layout: &RemakePlaceLayout,
    land_ident: i64,
    created_by_content_id: Option<i64>,
    game_data: &HousingGameData,
    scope: HousingPresetScope,
) -> (result: RemakePlaceImportRows)
    requires
        layout.interior_furniture@.len() + layout.exterior_furniture@.len() <= usize::MAX,
    ensures
        spec_is_import_rows_of(
            result,
            layout.interior_furniture@,
            layout.exterior_furniture@,
            land_ident,
            created_by_content_id,
            game_data.rows_view(),
            game_data.stains_view(),
            scope,
        ),
{
    let mut result = RemakePlaceImportRows {
        rows: Vec::new(),
        indoor_imported: 0,
        outdoor_imported: 0,
        skipped_missing_item_id: 0,
        skipped_missing_catalog: 0,
        skipped_capacity: 0,
    };
    if scope.includes_interior() {
        let imported = import_area(&mut result, &layout.interior_furniture, land_ident, created_by_content_id, game_data, true);
        result.indoor_imported = imported;
    }
    if scope.includes_exterior() {
        let imported = import_area(&mut result, &layout.exterior_furniture, land_ident, created_by_content_id, game_data, false);
        result.outdoor_imported = imported;
    }
    result
}

/// A style row id is three rows per residential district, small, medium
/// and large, in the order of the districts' land-set rows (Mist 339, the
/// Lavender Beds 340, the Goblet 341, Shirogane 641, Empyreum 979),
/// followed by the minimalist and dark minimalist styles: a name that
/// names only one district picks that district's row for the plot size,
/// and every row id found says the plot size it is for.
pub proof fn lemma_renovation_row_follows_district(name: Seq<u8>, plot_size: PlotSize)
    ensures
        spec_renovation_row_id(name, plot_size) matches Some(r) ==> 1 <= r <= 21 && (r - 1) % 3 == spec_plot_size_index(plot_size),
        ({
            let idx = spec_plot_size_index(plot_size);
            let earlier = spec_contains(name, "minimalistdark".spec_bytes()) || spec_contains(name, "simpledark".spec_bytes())
                || spec_contains(name, "minimalist".spec_bytes()) || spec_contains(name, "simple".spec_bytes());
            let district_row = |district: u16| (1 + 3 * spec_internal_housing_row(district).unwrap() + idx) as u16;
            let dark = spec_contains(name, "minimalistdark".spec_bytes()) || spec_contains(name, "simpledark".spec_bytes());
            &&& dark ==> spec_renovation_row_id(name, plot_size) == Some((district_row(979) + 6) as u16)
            &&& !dark && earlier ==> spec_renovation_row_id(name, plot_size) == Some((district_row(979) + 3) as u16)
            &&& !earlier && spec_contains(name, "empyreum".spec_bytes())
                ==> spec_renovation_row_id(name, plot_size) == Some(district_row(979))
            &&& !earlier && !spec_contains(name, "empyreum".spec_bytes()) && spec_contains(name, "shirogane".spec_bytes())
                ==> spec_renovation_row_id(name, plot_size) == Some(district_row(641))
            &&& !earlier && !spec_contains(name, "empyreum".spec_bytes()) && !spec_contains(name, "shirogane".spec_bytes())
                && spec_contains(name, "goblet".spec_bytes())
                ==> spec_renovation_row_id(name, plot_size) == Some(district_row(341))
            &&& !earlier && !spec_contains(name, "empyreum".spec_bytes()) && !spec_contains(name, "shirogane".spec_bytes())
                && !spec_contains(name, "goblet".spec_bytes()) && spec_contains(name, "lavender".spec_bytes())
                ==> spec_renovation_row_id(name, plot_size) == Some(district_row(340))
            &&& !earlier && !spec_contains(name, "empyreum".spec_bytes()) && !spec_contains(name, "shirogane".spec_bytes())
                && !spec_contains(name, "goblet".spec_bytes()) && !spec_contains(name, "lavender".spec_bytes())
                && spec_contains(name, "mist".spec_bytes())
                ==> spec_renovation_row_id(name, plot_size) == Some(district_row(339))
        }),
{
}

} // verus!
