//! The item sheet rows that the housing code reads: each item's
//! fixture data, UI category and furniture catalog entry.
use vstd::prelude::*;

use crate::seq_util::{first_match, lemma_first_match_found, lemma_first_match_skip};

verus! {

/// One item of the item sheet, as far as housing reads it.
#[derive(Debug, Clone, Copy, PartialEq, Eq, Structural)]
pub struct HousingItemRow {
    pub item_id: u32,
    pub additional_data: u32,
    pub item_ui_category: u8,
    pub furniture_catalog_id: u16,
}

/// One interior pattern: a HousingRenovation row and the indoor
/// territory it loads.
#[derive(Debug, Clone, Copy, PartialEq, Eq, Structural)]
pub struct HousingRenovationRow {
    pub row_id: u16,
    pub territory_type_id: u16,
}

/// The size category of an indoor housing territory.
#[derive(Debug, Clone, Copy, PartialEq, Eq, Structural)]
pub struct HousingIndoorTerritoryRow {
    pub territory_type_id: u16,
    pub category: u8,
}

/// A dye and its color.
#[derive(Debug, Clone, Copy, PartialEq, Eq, Structural)]
pub struct HousingStainRow {
    pub stain_id: u8,
    pub red: u8,
    pub green: u8,
    pub blue: u8,
}

/// The item rows, looked up by item id, by fixture data and category,
/// and for furniture catalog entries; the interior patterns and the size
/// categories of indoor territories.
#[derive(Debug)]
pub struct HousingGameData {
    items: Vec<HousingItemRow>,
    renovations: Vec<HousingRenovationRow>,
    indoor_territories: Vec<HousingIndoorTerritoryRow>,
    stains: Vec<HousingStainRow>,
}

impl HousingGameData {
    /// The rows in sheet order.
    pub closed spec fn rows_view(&self) -> Seq<HousingItemRow> {
        self.items@
    }

    /// The interior patterns in sheet order.
    pub closed spec fn renovations_view(&self) -> Seq<HousingRenovationRow> {
        self.renovations@
    }

    /// The indoor territory categories in sheet order.
    pub closed spec fn indoor_territories_view(&self) -> Seq<HousingIndoorTerritoryRow> {
        self.indoor_territories@
    }

    /// The dyes in sheet order.
    pub closed spec fn stains_view(&self) -> Seq<HousingStainRow> {
        self.stains@
    }

    /// Tables of the given rows.
    pub fn new(
        items: Vec<HousingItemRow>,
        renovations: Vec<HousingRenovationRow>,
        indoor_territories: Vec<HousingIndoorTerritoryRow>,
        stains: Vec<HousingStainRow>,
    ) -> (data: HousingGameData)
        ensures
            data.rows_view() == items@,
            data.renovations_view() == renovations@,
            data.indoor_territories_view() == indoor_territories@,
            data.stains_view() == stains@,
    {
        HousingGameData { items, renovations, indoor_territories, stains }
    }

    /// The dye whose color is nearest to `rgb` (squared distance, the
    /// earliest of equals); `None` without dyes.
    pub fn get_closest_housing_stain(&self, rgb: [u8; 3]) -> (stain_id: Option<u8>)
        ensures
            stain_id == match spec_closest_stain(self.stains_view(), rgb@) {
                Some(r) => Some(r.stain_id),
                None => None,
            },
    {
        let mut best: Option<HousingStainRow> = None;
        let mut best_distance: u32 = 0;
        let mut i: usize = 0;
        assert(self.stains@.take(0) =~= Seq::<HousingStainRow>::empty());
        while i < self.stains.len()
            invariant
                i <= self.stains@.len(),
                rgb@.len() == 3,
                best == spec_closest_stain(self.stains@.take(i as int), rgb@),
                best matches Some(b) ==> best_distance == spec_color_distance(b, rgb@),
            decreases self.stains@.len() - i,
        {
            assert(self.stains@.take(i as int + 1).drop_last() =~= self.stains@.take(i as int));
            let row = self.stains[i];
            let d = color_distance(row, rgb);
            match best {
                None => {
                    best = Some(row);
                    best_distance = d;
                },
                Some(_) => if d < best_distance {
                    best = Some(row);
                    best_distance = d;
                },
            }
            i = i + 1;
        }
        assert(self.stains@.take(i as int) =~= self.stains@);
        match best {
            Some(r) => Some(r.stain_id),
            None => None,
        }
    }

    /// The territory that an interior pattern loads.
    pub fn get_housing_renovation_territory(&self, row_id: u16) -> (territory_type_id: Option<u16>)
        ensures
            territory_type_id == spec_renovation_territory(self.renovations_view(), row_id),
    {
        let ghost p = |r: HousingRenovationRow| r.row_id == row_id;
        let mut i: usize = 0;
        assert(self.renovations@.skip(0) =~= self.renovations@);
        while i < self.renovations.len()
            invariant
                i <= self.renovations@.len(),
                p == (|r: HousingRenovationRow| r.row_id == row_id),
                first_match(self.renovations@, p) == first_match(self.renovations@.skip(i as int), p),
            decreases self.renovations@.len() - i,
        {
            if self.renovations[i].row_id == row_id {
                proof { lemma_first_match_found(self.renovations@, p, i as int); }
                return Some(self.renovations[i].territory_type_id);
            }
            proof { lemma_first_match_skip(self.renovations@, p, i as int); }
            i = i + 1;
        }
        assert(self.renovations@.skip(i as int).len() == 0);
        None
    }

    /// The first interior pattern that loads a territory.
    pub fn get_housing_renovation_row_id_for_territory(&self, territory_type_id: u16) -> (row_id: Option<u16>)
        ensures
            row_id == spec_renovation_row_for_territory(self.renovations_view(), territory_type_id),
    {
        let ghost p = |r: HousingRenovationRow| r.territory_type_id == territory_type_id;
        let mut i: usize = 0;
        assert(self.renovations@.skip(0) =~= self.renovations@);
        while i < self.renovations.len()
            invariant
                i <= self.renovations@.len(),
                p == (|r: HousingRenovationRow| r.territory_type_id == territory_type_id),
                first_match(self.renovations@, p) == first_match(self.renovations@.skip(i as int), p),
            decreases self.renovations@.len() - i,
        {
            if self.renovations[i].territory_type_id == territory_type_id {
                proof { lemma_first_match_found(self.renovations@, p, i as int); }
                return Some(self.renovations[i].row_id);
            }
            proof { lemma_first_match_skip(self.renovations@, p, i as int); }
            i = i + 1;
        }
        assert(self.renovations@.skip(i as int).len() == 0);
        None
    }

    /// The size category of an indoor territory.
    pub fn get_housing_indoor_territory_category(&self, territory_type_id: u16) -> (category: Option<u8>)
        ensures
            category == spec_indoor_territory_category(self.indoor_territories_view(), territory_type_id),
    {
        let ghost p = |r: HousingIndoorTerritoryRow| r.territory_type_id == territory_type_id;
        let mut i: usize = 0;
        assert(self.indoor_territories@.skip(0) =~= self.indoor_territories@);
        while i < self.indoor_territories.len()
            invariant
                i <= self.indoor_territories@.len(),
                p == (|r: HousingIndoorTerritoryRow| r.territory_type_id == territory_type_id),
                first_match(self.indoor_territories@, p) == first_match(self.indoor_territories@.skip(i as int), p),
            decreases self.indoor_territories@.len() - i,
        {
            if self.indoor_territories[i].territory_type_id == territory_type_id {
                proof { lemma_first_match_found(self.indoor_territories@, p, i as int); }
                return Some(self.indoor_territories[i].category);
            }
            proof { lemma_first_match_skip(self.indoor_territories@, p, i as int); }
            i = i + 1;
        }
        assert(self.indoor_territories@.skip(i as int).len() == 0);
        None
    }

    /// The first row of an item.
    pub fn get_item_info(&self, item_id: u32) -> (row: Option<HousingItemRow>)
        ensures
            row == first_match(self.rows_view(), |r: HousingItemRow| r.item_id == item_id),
    {
        let ghost p = |r: HousingItemRow| r.item_id == item_id;
        let mut i: usize = 0;
        assert(self.items@.skip(0) =~= self.items@);
        while i < self.items.len()
            invariant
                i <= self.items@.len(),
                p == (|r: HousingItemRow| r.item_id == item_id),
                first_match(self.items@, p) == first_match(self.items@.skip(i as int), p),
            decreases self.items@.len() - i,
        {
            if self.items[i].item_id == item_id {
                proof { lemma_first_match_found(self.items@, p, i as int); }
                return Some(self.items[i]);
            }
            proof { lemma_first_match_skip(self.items@, p, i as int); }
            i = i + 1;
        }
        assert(self.items@.skip(i as int).len() == 0);
        None
    }

    /// The first item whose fixture data and UI category are the given
    /// ones.
    pub fn get_item_id_by_additional_data(&self, additional_data: u32, item_ui_category: u8) -> (item_id: Option<u32>)
        ensures
            item_id == spec_item_id_by_additional_data(self.rows_view(), additional_data, item_ui_category),
    {
        let ghost p = |r: HousingItemRow| r.additional_data == additional_data && r.item_ui_category == item_ui_category;
        let mut i: usize = 0;
        assert(self.items@.skip(0) =~= self.items@);
        while i < self.items.len()
            invariant
                i <= self.items@.len(),
                p == (|r: HousingItemRow| r.additional_data == additional_data && r.item_ui_category == item_ui_category),
                first_match(self.items@, p) == first_match(self.items@.skip(i as int), p),
            decreases self.items@.len() - i,
        {
            if self.items[i].additional_data == additional_data && self.items[i].item_ui_category == item_ui_category {
                proof { lemma_first_match_found(self.items@, p, i as int); }
                return Some(self.items[i].item_id);
            }
            proof { lemma_first_match_skip(self.items@, p, i as int); }
            i = i + 1;
        }
        assert(self.items@.skip(i as int).len() == 0);
        None
    }

    /// The furniture catalog entry of an item; `None` for unknown items
    /// and items without one.
    pub fn get_furniture_catalog_id(&self, item_id: u32) -> (catalog_id: Option<u16>)
        ensures
            catalog_id == spec_furniture_catalog_id(self.rows_view(), item_id),
    {
        match self.get_item_info(item_id) {
            Some(row) => if row.furniture_catalog_id != 0 { Some(row.furniture_catalog_id) } else { None },
            None => None,
        }
    }
}

/// The first item with the given fixture data and UI category.
pub open spec fn spec_item_id_by_additional_data(rows: Seq<HousingItemRow>, additional_data: u32, item_ui_category: u8) -> Option<u32> {
    match first_match(rows, |r: HousingItemRow| r.additional_data == additional_data && r.item_ui_category == item_ui_category) {
        Some(r) => Some(r.item_id),
        None => None,
    }
}

/// The furniture catalog entry of an item, when it has one.
pub open spec fn spec_furniture_catalog_id(rows: Seq<HousingItemRow>, item_id: u32) -> Option<u16> {
    match first_match(rows, |r: HousingItemRow| r.item_id == item_id) {
        Some(r) => if r.furniture_catalog_id != 0 { Some(r.furniture_catalog_id) } else { None },
        None => None,
    }
}


/// The territory of the first pattern with this row id.
pub open spec fn spec_renovation_territory(rows: Seq<HousingRenovationRow>, row_id: u16) -> Option<u16> {
    match first_match(rows, |r: HousingRenovationRow| r.row_id == row_id) {
        Some(r) => Some(r.territory_type_id),
        None => None,
    }
}

/// The row id of the first pattern loading this territory.
pub open spec fn spec_renovation_row_for_territory(rows: Seq<HousingRenovationRow>, territory_type_id: u16) -> Option<u16> {
    match first_match(rows, |r: HousingRenovationRow| r.territory_type_id == territory_type_id) {
        Some(r) => Some(r.row_id),
        None => None,
    }
}

/// The category of the first row of this territory.
pub open spec fn spec_indoor_territory_category(rows: Seq<HousingIndoorTerritoryRow>, territory_type_id: u16) -> Option<u8> {
    match first_match(rows, |r: HousingIndoorTerritoryRow| r.territory_type_id == territory_type_id) {
        Some(r) => Some(r.category),
        None => None,
    }
}


/// The squared distance between a dye's color and a color.
pub open spec fn spec_color_distance(row: HousingStainRow, rgb: Seq<u8>) -> u32 {
    let dr = row.red as int - rgb[0] as int;
    let dg = row.green as int - rgb[1] as int;
    let db = row.blue as int - rgb[2] as int;
    (dr * dr + dg * dg + db * db) as u32
}

fn color_distance(row: HousingStainRow, rgb: [u8; 3]) -> (d: u32)
    ensures
        d == spec_color_distance(row, rgb@),
{
    let dr: i32 = row.red as i32 - rgb[0] as i32;
    let dg: i32 = row.green as i32 - rgb[1] as i32;
    let db: i32 = row.blue as i32 - rgb[2] as i32;
    assert(0 <= dr * dr <= 65025 && 0 <= dg * dg <= 65025 && 0 <= db * db <= 65025) by (nonlinear_arith)
        requires
            -255 <= dr <= 255,
            -255 <= dg <= 255,
            -255 <= db <= 255,
    {
    }
    (dr * dr + dg * dg + db * db) as u32
}

/// The dye nearest to a color among rows: the earliest of the nearest.
pub open spec fn spec_closest_stain(rows: Seq<HousingStainRow>, rgb: Seq<u8>) -> Option<HousingStainRow>
    decreases rows.len(),
{
    if rows.len() == 0 {
        None
    } else {
        match spec_closest_stain(rows.drop_last(), rgb) {
            None => Some(rows.last()),
            Some(b) => if spec_color_distance(rows.last(), rgb) < spec_color_distance(b, rgb) {
                Some(rows.last())
            } else {
                Some(b)
            },
        }
    }
}

} // verus!
