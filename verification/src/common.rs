//! Identifiers shared by the housing code: packed house ids, inventory
//! container kinds, territory uses, plot sizes and positions.
use vstd::prelude::*;

verus! {

/// Plots per ward division; raw land-set entries 30..59 are the subdivision.
pub const HOUSING_PLOTS_PER_DIVISION: u8 = 30;

/// The plot (or apartment building) part of a house id.
#[derive(Debug, Clone, Copy, Default, PartialEq, Eq, Structural)]
pub struct HouseUnit {
    pub apartment_division_plot_index: u8,
    pub apartment_flag: bool,
}

/// A house id as the client packs it into 64 bits.
///
/// Layout, from the low bits: plot index (7 bits) and apartment flag
/// (1 bit), `unk1` (8 bits), ward index (6 bits), room number (10 bits),
/// territory type id (16 bits), world id (16 bits).
#[derive(Debug, Clone, Copy, Default, PartialEq, Eq, Structural)]
pub struct HouseId {
    pub unit: HouseUnit,
    pub unk1: u8,
    pub ward_index: u8,
    pub room_number: u16,
    pub territory_type_id: u16,
    pub world_id: u16,
}

impl HouseId {
    /// The id with every field zero.
    pub open spec fn spec_zero() -> HouseId {
        HouseId {
            unit: HouseUnit { apartment_division_plot_index: 0, apartment_flag: false },
            unk1: 0,
            ward_index: 0,
            room_number: 0,
            territory_type_id: 0,
            world_id: 0,
        }
    }

    /// The id with every field zero.
    pub fn zero() -> (id: HouseId)
        ensures
            id == HouseId::spec_zero(),
    {
        HouseId {
            unit: HouseUnit { apartment_division_plot_index: 0, apartment_flag: false },
            unk1: 0,
            ward_index: 0,
            room_number: 0,
            territory_type_id: 0,
            world_id: 0,
        }
    }

    /// The fields fit their widths in the packed form.
    pub open spec fn well_formed(self) -> bool {
        &&& self.unit.apartment_division_plot_index < 128
        &&& self.ward_index < 64
        &&& self.room_number < 1024
    }

    /// The packed value of a well-formed id.
    pub open spec fn spec_to_u64(self) -> u64 {
        (self.unit.apartment_division_plot_index as u64 + (if self.unit.apartment_flag {
            128u64
        } else {
            0u64
        }) + self.unk1 as u64 * 0x100 + self.ward_index as u64 * 0x1_0000
            + self.room_number as u64 * 0x40_0000 + self.territory_type_id as u64 * 0x1_0000_0000
            + self.world_id as u64 * 0x1_0000_0000_0000) as u64
    }

    /// The id that a packed value stands for.
    pub open spec fn spec_from_u64(value: u64) -> HouseId {
        HouseId {
            unit: HouseUnit {
                apartment_division_plot_index: (value % 128) as u8,
                apartment_flag: (value / 128) % 2 == 1,
            },
            unk1: ((value / 0x100) % 0x100) as u8,
            ward_index: ((value / 0x1_0000) % 64) as u8,
            room_number: ((value / 0x40_0000) % 1024) as u16,
            territory_type_id: ((value / 0x1_0000_0000) % 0x1_0000) as u16,
            world_id: (value / 0x1_0000_0000_0000) as u16,
        }
    }

    /// Packs the id; the fields must fit their widths.
    pub fn to_u64(&self) -> (value: u64)
        requires
            self.well_formed(),
        ensures
            value == self.spec_to_u64(),
    {
        let plot = self.unit.apartment_division_plot_index as u64;
        let flag: u64 = if self.unit.apartment_flag {
            128
        } else {
            0
        };
        let unk1 = self.unk1 as u64;
        let ward = self.ward_index as u64;
        let room = self.room_number as u64;
        let territory = self.territory_type_id as u64;
        let world = self.world_id as u64;
        assert(plot + flag + unk1 * 0x100 + ward * 0x1_0000 + room * 0x40_0000 + territory
            * 0x1_0000_0000 + world * 0x1_0000_0000_0000 <= u64::MAX) by (nonlinear_arith)
            requires
                plot < 128,
                flag <= 128,
                unk1 < 256,
                ward < 64,
                room < 1024,
                territory < 0x1_0000,
                world < 0x1_0000,
        ;
        plot + flag + unk1 * 0x100 + ward * 0x1_0000 + room * 0x40_0000 + territory * 0x1_0000_0000
            + world * 0x1_0000_0000_0000
    }

    /// Unpacks a value into its fields.
    pub fn from_u64(value: u64) -> (id: HouseId)
        ensures
            id == HouseId::spec_from_u64(value),
            id.well_formed(),
    {
        HouseId {
            unit: HouseUnit {
                apartment_division_plot_index: (value % 128) as u8,
                apartment_flag: (value / 128) % 2 == 1,
            },
            unk1: ((value / 0x100) % 0x100) as u8,
            ward_index: ((value / 0x1_0000) % 64) as u8,
            room_number: ((value / 0x40_0000) % 1024) as u16,
            territory_type_id: ((value / 0x1_0000_0000) % 0x1_0000) as u16,
            world_id: (value / 0x1_0000_0000_0000) as u16,
        }
    }
}

/// Unpacking a packed well-formed id gives the id back.
pub proof fn lemma_house_id_from_to(id: HouseId)
    requires
        id.well_formed(),
    ensures
        HouseId::spec_from_u64(id.spec_to_u64()) == id,
{
    let p = id.unit.apartment_division_plot_index as u64;
    let f: u64 = if id.unit.apartment_flag {
        1
    } else {
        0
    };
    let u = id.unk1 as u64;
    let w = id.ward_index as u64;
    let r = id.room_number as u64;
    let t = id.territory_type_id as u64;
    let o = id.world_id as u64;
    let v = id.spec_to_u64();
    assert(v == p + f * 128 + u * 0x100 + w * 0x1_0000 + r * 0x40_0000 + t * 0x1_0000_0000 + o
        * 0x1_0000_0000_0000);
    assert(v % 128 == p && (v / 128) % 2 == f && (v / 0x100) % 0x100 == u && (v / 0x1_0000) % 64
        == w && (v / 0x40_0000) % 1024 == r && (v / 0x1_0000_0000) % 0x1_0000 == t && v
        / 0x1_0000_0000_0000 == o) by (bit_vector)
        requires
            p < 128,
            f < 2,
            u < 256,
            w < 64,
            r < 1024,
            t < 0x1_0000,
            o < 0x1_0000,
            v == p + f * 128 + u * 0x100 + w * 0x1_0000 + r * 0x40_0000 + t * 0x1_0000_0000 + o
                * 0x1_0000_0000_0000,
    ;
}

/// Packing the id that a value stands for gives the value back.
pub proof fn lemma_house_id_to_from(value: u64)
    ensures
        HouseId::spec_from_u64(value).well_formed(),
        HouseId::spec_from_u64(value).spec_to_u64() == value,
{
    let id = HouseId::spec_from_u64(value);
    let f: u64 = if id.unit.apartment_flag {
        1
    } else {
        0
    };
    assert(f == (value / 128) % 2);
    assert(value == (value % 128) + ((value / 128) % 2) * 128 + ((value / 0x100) % 0x100) * 0x100
        + ((value / 0x1_0000) % 64) * 0x1_0000 + ((value / 0x40_0000) % 1024) * 0x40_0000 + ((value
        / 0x1_0000_0000) % 0x1_0000) * 0x1_0000_0000 + (value / 0x1_0000_0000_0000)
        * 0x1_0000_0000_0000) by (bit_vector);
}

/// Inventory containers that the housing code reads and writes.
#[derive(Debug, Clone, Copy, PartialEq, Eq, Structural)]
pub enum ContainerType {
    Inventory0,
    Inventory1,
    Inventory2,
    Inventory3,
    HousingExteriorAppearance,
    HousingExteriorAppearanceEdit,
    HousingExteriorPlacedItems,
    HousingExteriorStoreroom,
    HousingInteriorAppearance,
    HousingInteriorAppearanceEdit,
    HousingInteriorPlacedItems1,
    HousingInteriorPlacedItems2,
    HousingInteriorPlacedItems3,
    HousingInteriorPlacedItems4,
    HousingInteriorPlacedItems5,
    HousingInteriorPlacedItems6,
    HousingInteriorPlacedItems7,
    HousingInteriorPlacedItems8,
    HousingInteriorPlacedItems9,
    HousingInteriorPlacedItems10,
    HousingInteriorPlacedItems11,
    HousingInteriorPlacedItems12,
    HousingInteriorStoreroom1,
    HousingInteriorStoreroom2,
    HousingInteriorStoreroom3,
    HousingInteriorStoreroom4,
    HousingInteriorStoreroom5,
    HousingInteriorStoreroom6,
    HousingInteriorStoreroom7,
    HousingInteriorStoreroom8,
}

/// The wire id of each container.
pub open spec fn spec_container_type_id(c: ContainerType) -> u16 {
    match c {
        ContainerType::Inventory0 => 0,
        ContainerType::Inventory1 => 1,
        ContainerType::Inventory2 => 2,
        ContainerType::Inventory3 => 3,
        ContainerType::HousingExteriorAppearance => 25000,
        ContainerType::HousingExteriorPlacedItems => 25001,
        ContainerType::HousingInteriorAppearance => 25002,
        ContainerType::HousingInteriorPlacedItems1 => 25003,
        ContainerType::HousingInteriorPlacedItems2 => 25004,
        ContainerType::HousingInteriorPlacedItems3 => 25005,
        ContainerType::HousingInteriorPlacedItems4 => 25006,
        ContainerType::HousingInteriorPlacedItems5 => 25007,
        ContainerType::HousingInteriorPlacedItems6 => 25008,
        ContainerType::HousingInteriorPlacedItems7 => 25009,
        ContainerType::HousingInteriorPlacedItems8 => 25010,
        ContainerType::HousingInteriorPlacedItems9 => 25011,
        ContainerType::HousingInteriorPlacedItems10 => 25012,
        ContainerType::HousingInteriorPlacedItems11 => 25013,
        ContainerType::HousingInteriorPlacedItems12 => 25014,
        ContainerType::HousingExteriorAppearanceEdit => 25500,
        ContainerType::HousingInteriorAppearanceEdit => 25502,
        ContainerType::HousingExteriorStoreroom => 27000,
        ContainerType::HousingInteriorStoreroom1 => 27001,
        ContainerType::HousingInteriorStoreroom2 => 27002,
        ContainerType::HousingInteriorStoreroom3 => 27003,
        ContainerType::HousingInteriorStoreroom4 => 27004,
        ContainerType::HousingInteriorStoreroom5 => 27005,
        ContainerType::HousingInteriorStoreroom6 => 27006,
        ContainerType::HousingInteriorStoreroom7 => 27007,
        ContainerType::HousingInteriorStoreroom8 => 27008,
    }
}

/// The wire id of a container.
pub fn container_type_id(c: ContainerType) -> (id: u16)
    ensures
        id == spec_container_type_id(c),
{
    match c {
        ContainerType::Inventory0 => 0,
        ContainerType::Inventory1 => 1,
        ContainerType::Inventory2 => 2,
        ContainerType::Inventory3 => 3,
        ContainerType::HousingExteriorAppearance => 25000,
        ContainerType::HousingExteriorPlacedItems => 25001,
        ContainerType::HousingInteriorAppearance => 25002,
        ContainerType::HousingInteriorPlacedItems1 => 25003,
        ContainerType::HousingInteriorPlacedItems2 => 25004,
        ContainerType::HousingInteriorPlacedItems3 => 25005,
        ContainerType::HousingInteriorPlacedItems4 => 25006,
        ContainerType::HousingInteriorPlacedItems5 => 25007,
        ContainerType::HousingInteriorPlacedItems6 => 25008,
        ContainerType::HousingInteriorPlacedItems7 => 25009,
        ContainerType::HousingInteriorPlacedItems8 => 25010,
        ContainerType::HousingInteriorPlacedItems9 => 25011,
        ContainerType::HousingInteriorPlacedItems10 => 25012,
        ContainerType::HousingInteriorPlacedItems11 => 25013,
        ContainerType::HousingInteriorPlacedItems12 => 25014,
        ContainerType::HousingExteriorAppearanceEdit => 25500,
        ContainerType::HousingInteriorAppearanceEdit => 25502,
        ContainerType::HousingExteriorStoreroom => 27000,
        ContainerType::HousingInteriorStoreroom1 => 27001,
        ContainerType::HousingInteriorStoreroom2 => 27002,
        ContainerType::HousingInteriorStoreroom3 => 27003,
        ContainerType::HousingInteriorStoreroom4 => 27004,
        ContainerType::HousingInteriorStoreroom5 => 27005,
        ContainerType::HousingInteriorStoreroom6 => 27006,
        ContainerType::HousingInteriorStoreroom7 => 27007,
        ContainerType::HousingInteriorStoreroom8 => 27008,
    }
}

/// Distinct containers have distinct wire ids.
pub proof fn lemma_container_type_id_injective(a: ContainerType, b: ContainerType)
    ensures
        spec_container_type_id(a) == spec_container_type_id(b) ==> a == b,
{
}

/// What a territory is used for, as far as the housing code tells them apart.
#[derive(Debug, Clone, Copy, PartialEq, Eq, Structural)]
pub enum TerritoryIntendedUse {
    Town,
    OpenWorld,
    Inn,
    HousingOutdoor,
    HousingIndoor,
    Other,
}

/// The size of a housing plot.
#[derive(Debug, Clone, Copy, PartialEq, Eq, Structural)]
pub enum PlotSize {
    Small,
    Medium,
    Large,
}

/// The size stored under `value`, if any: 0 small, 1 medium, 2 large.
pub open spec fn spec_plot_size_from_repr(value: u8) -> Option<PlotSize> {
    if value == 0 {
        Some(PlotSize::Small)
    } else if value == 1 {
        Some(PlotSize::Medium)
    } else if value == 2 {
        Some(PlotSize::Large)
    } else {
        None
    }
}

/// The stored number of a plot size.
pub open spec fn spec_plot_size_repr(size: PlotSize) -> u8 {
    match size {
        PlotSize::Small => 0,
        PlotSize::Medium => 1,
        PlotSize::Large => 2,
    }
}

impl PlotSize {
    /// The size stored under `value`, if any.
    pub fn from_repr(value: u8) -> (size: Option<PlotSize>)
        ensures
            size == spec_plot_size_from_repr(value),
    {
        if value == 0 {
            Some(PlotSize::Small)
        } else if value == 1 {
            Some(PlotSize::Medium)
        } else if value == 2 {
            Some(PlotSize::Large)
        } else {
            None
        }
    }

    /// The stored number of the size.
    pub fn repr(&self) -> (value: u8)
        ensures
            value == spec_plot_size_repr(*self),
            spec_plot_size_from_repr(value) == Some(*self),
    {
        match self {
            PlotSize::Small => 0,
            PlotSize::Medium => 1,
            PlotSize::Large => 2,
        }
    }
}

impl Default for PlotSize {
    fn default() -> (size: PlotSize)
        ensures
            size == PlotSize::Small,
    {
        PlotSize::Small
    }
}

/// A position in a territory. Each coordinate is the bit pattern of a
/// 32-bit float (`f32::to_bits`); the housing code only carries positions.
#[derive(Debug, Clone, Copy, Default, PartialEq, Eq, Structural)]
pub struct Position {
    pub x_bits: u32,
    pub y_bits: u32,
    pub z_bits: u32,
}

/// The outdoor territories that hold housing wards, with their land-set row.
pub open spec fn spec_internal_housing_row(territory_type_id: u16) -> Option<u8> {
    if territory_type_id == 339 {
        Some(0u8)
    } else if territory_type_id == 340 {
        Some(1u8)
    } else if territory_type_id == 341 {
        Some(2u8)
    } else if territory_type_id == 641 {
        Some(3u8)
    } else if territory_type_id == 979 {
        Some(4u8)
    } else {
        None
    }
}

/// The land-set row of a housing district territory (Mist, the Lavender
/// Beds, the Goblet, Shirogane, Empyreum), `None` for other territories.
pub fn internal_housing_row(territory_type_id: u16) -> (row: Option<u8>)
    ensures
        row == spec_internal_housing_row(territory_type_id),
{
    if territory_type_id == 339 {
        Some(0)
    } else if territory_type_id == 340 {
        Some(1)
    } else if territory_type_id == 341 {
        Some(2)
    } else if territory_type_id == 641 {
        Some(3)
    } else if territory_type_id == 979 {
        Some(4)
    } else {
        None
    }
}

} // verus!
