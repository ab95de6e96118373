//! Items, the player's bags and the housing containers, with the mapping
//! between placed-furniture containers and flat furniture slots.
use vstd::prelude::*;

use crate::common::{ContainerType, TerritoryIntendedUse};

verus! {

/// Slots in one interior placed-furniture or storeroom page.
pub const MAX_HOUSING_INTERIOR_STORAGE: u16 = 50;

/// Interior placed-furniture pages.
pub const HOUSING_INTERIOR_PLACED_PAGE_COUNT: u16 = 12;

/// Interior storeroom pages.
pub const HOUSING_INTERIOR_STOREROOM_PAGE_COUNT: u16 = 8;

/// Slots of the exterior placed-furniture and storeroom containers.
pub const MAX_LARGE_STORAGE: u16 = 50;

/// Slots of an appearance (fixture) container.
pub const HOUSING_APPEARANCE_SLOTS: u16 = 9;

/// Slots of one player bag.
pub const PLAYER_BAG_SLOTS: u16 = 35;

/// The condition of a new item.
pub const ITEM_CONDITION_MAX: u16 = 30000;

/// Total slots held by a housing inventory.
pub const HOUSING_INVENTORY_SLOTS: usize = 1136;

/// An item stack in one inventory slot.
#[derive(Debug, Clone, Copy)]
pub struct Item {
    pub quantity: u32,
    pub item_id: u32,
    pub condition: u16,
    pub stains: [u8; 2],
}

/// The empty slot.
pub open spec fn empty_item() -> Item {
    Item { quantity: 0, item_id: 0, condition: 0, stains: [0u8, 0u8] }
}

impl Default for Item {
    fn default() -> (item: Item)
        ensures
            item == empty_item(),
    {
        Item { quantity: 0, item_id: 0, condition: 0, stains: [0, 0] }
    }
}

impl Item {
    /// A slot is empty when it holds no quantity.
    pub open spec fn spec_is_empty_slot(&self) -> bool {
        self.quantity == 0
    }

    /// Whether the slot holds nothing.
    pub fn is_empty_slot(&self) -> (empty: bool)
        ensures
            empty == self.spec_is_empty_slot(),
    {
        self.quantity == 0
    }

    /// The first stain of the item.
    pub fn first_stain(&self) -> (stain: u8)
        ensures
            stain == self.stains[0],
    {
        self.stains[0]
    }
}

/// A single item of `item_id` at full condition with a first stain.
pub open spec fn spec_housing_item(item_id: u32, stain: u8) -> Item {
    Item { quantity: 1, item_id, condition: ITEM_CONDITION_MAX, stains: [stain, 0u8] }
}

/// One item of `item_id` at full condition, dyed with `stain`.
pub fn housing_item(item_id: u32, stain: u8) -> (item: Item)
    ensures
        item == spec_housing_item(item_id, stain),
{
    Item { quantity: 1, item_id, condition: ITEM_CONDITION_MAX, stains: [stain, 0] }
}

/// The page (0-based) of an interior placed-furniture container.
pub open spec fn spec_interior_placed_container_index(c: ContainerType) -> Option<u16> {
    match c {
        ContainerType::HousingInteriorPlacedItems1 => Some(0u16),
        ContainerType::HousingInteriorPlacedItems2 => Some(1u16),
        ContainerType::HousingInteriorPlacedItems3 => Some(2u16),
        ContainerType::HousingInteriorPlacedItems4 => Some(3u16),
        ContainerType::HousingInteriorPlacedItems5 => Some(4u16),
        ContainerType::HousingInteriorPlacedItems6 => Some(5u16),
        ContainerType::HousingInteriorPlacedItems7 => Some(6u16),
        ContainerType::HousingInteriorPlacedItems8 => Some(7u16),
        ContainerType::HousingInteriorPlacedItems9 => Some(8u16),
        ContainerType::HousingInteriorPlacedItems10 => Some(9u16),
        ContainerType::HousingInteriorPlacedItems11 => Some(10u16),
        ContainerType::HousingInteriorPlacedItems12 => Some(11u16),
        _ => None,
    }
}

/// The interior placed-furniture container of a page.
pub open spec fn spec_interior_placed_container(page: u16) -> Option<ContainerType> {
    if page == 0 {
        Some(ContainerType::HousingInteriorPlacedItems1)
    } else if page == 1 {
        Some(ContainerType::HousingInteriorPlacedItems2)
    } else if page == 2 {
        Some(ContainerType::HousingInteriorPlacedItems3)
    } else if page == 3 {
        Some(ContainerType::HousingInteriorPlacedItems4)
    } else if page == 4 {
        Some(ContainerType::HousingInteriorPlacedItems5)
    } else if page == 5 {
        Some(ContainerType::HousingInteriorPlacedItems6)
    } else if page == 6 {
        Some(ContainerType::HousingInteriorPlacedItems7)
    } else if page == 7 {
        Some(ContainerType::HousingInteriorPlacedItems8)
    } else if page == 8 {
        Some(ContainerType::HousingInteriorPlacedItems9)
    } else if page == 9 {
        Some(ContainerType::HousingInteriorPlacedItems10)
    } else if page == 10 {
        Some(ContainerType::HousingInteriorPlacedItems11)
    } else if page == 11 {
        Some(ContainerType::HousingInteriorPlacedItems12)
    } else {
        None
    }
}

/// The page of an interior placed-furniture container, `None` for others.
pub fn interior_placed_container_index(c: ContainerType) -> (page: Option<u16>)
    ensures
        page == spec_interior_placed_container_index(c),
        page matches Some(p) ==> p < HOUSING_INTERIOR_PLACED_PAGE_COUNT
            && spec_interior_placed_container(p) == Some(c),
{
    match c {
        ContainerType::HousingInteriorPlacedItems1 => Some(0),
        ContainerType::HousingInteriorPlacedItems2 => Some(1),
        ContainerType::HousingInteriorPlacedItems3 => Some(2),
        ContainerType::HousingInteriorPlacedItems4 => Some(3),
        ContainerType::HousingInteriorPlacedItems5 => Some(4),
        ContainerType::HousingInteriorPlacedItems6 => Some(5),
        ContainerType::HousingInteriorPlacedItems7 => Some(6),
        ContainerType::HousingInteriorPlacedItems8 => Some(7),
        ContainerType::HousingInteriorPlacedItems9 => Some(8),
        ContainerType::HousingInteriorPlacedItems10 => Some(9),
        ContainerType::HousingInteriorPlacedItems11 => Some(10),
        ContainerType::HousingInteriorPlacedItems12 => Some(11),
        _ => None,
    }
}

/// The interior placed-furniture container of a page, `None` past the last.
pub fn interior_placed_container(page: u16) -> (c: Option<ContainerType>)
    ensures
        c == spec_interior_placed_container(page),
        c matches Some(x) ==> spec_interior_placed_container_index(x) == Some(page),
        c is Some <==> page < HOUSING_INTERIOR_PLACED_PAGE_COUNT,
{
    if page == 0 {
        Some(ContainerType::HousingInteriorPlacedItems1)
    } else if page == 1 {
        Some(ContainerType::HousingInteriorPlacedItems2)
    } else if page == 2 {
        Some(ContainerType::HousingInteriorPlacedItems3)
    } else if page == 3 {
        Some(ContainerType::HousingInteriorPlacedItems4)
    } else if page == 4 {
        Some(ContainerType::HousingInteriorPlacedItems5)
    } else if page == 5 {
        Some(ContainerType::HousingInteriorPlacedItems6)
    } else if page == 6 {
        Some(ContainerType::HousingInteriorPlacedItems7)
    } else if page == 7 {
        Some(ContainerType::HousingInteriorPlacedItems8)
    } else if page == 8 {
        Some(ContainerType::HousingInteriorPlacedItems9)
    } else if page == 9 {
        Some(ContainerType::HousingInteriorPlacedItems10)
    } else if page == 10 {
        Some(ContainerType::HousingInteriorPlacedItems11)
    } else if page == 11 {
        Some(ContainerType::HousingInteriorPlacedItems12)
    } else {
        None
    }
}

/// The page (0-based) of an interior storeroom container.
pub open spec fn spec_interior_storeroom_container_index(c: ContainerType) -> Option<u16> {
    match c {
        ContainerType::HousingInteriorStoreroom1 => Some(0u16),
        ContainerType::HousingInteriorStoreroom2 => Some(1u16),
        ContainerType::HousingInteriorStoreroom3 => Some(2u16),
        ContainerType::HousingInteriorStoreroom4 => Some(3u16),
        ContainerType::HousingInteriorStoreroom5 => Some(4u16),
        ContainerType::HousingInteriorStoreroom6 => Some(5u16),
        ContainerType::HousingInteriorStoreroom7 => Some(6u16),
        ContainerType::HousingInteriorStoreroom8 => Some(7u16),
        _ => None,
    }
}

/// The page of an interior storeroom container, `None` for others.
pub fn interior_storeroom_container_index(c: ContainerType) -> (page: Option<u16>)
    ensures
        page == spec_interior_storeroom_container_index(c),
{
    match c {
        ContainerType::HousingInteriorStoreroom1 => Some(0),
        ContainerType::HousingInteriorStoreroom2 => Some(1),
        ContainerType::HousingInteriorStoreroom3 => Some(2),
        ContainerType::HousingInteriorStoreroom4 => Some(3),
        ContainerType::HousingInteriorStoreroom5 => Some(4),
        ContainerType::HousingInteriorStoreroom6 => Some(5),
        ContainerType::HousingInteriorStoreroom7 => Some(6),
        ContainerType::HousingInteriorStoreroom8 => Some(7),
        _ => None,
    }
}

/// Where a housing container starts in the flat slot array, and its size.
pub open spec fn spec_housing_container_span(c: ContainerType) -> Option<(int, int)> {
    match c {
        ContainerType::HousingExteriorAppearance => Some((0int, 9int)),
        ContainerType::HousingExteriorAppearanceEdit => Some((9int, 9int)),
        ContainerType::HousingInteriorAppearance => Some((18int, 9int)),
        ContainerType::HousingInteriorAppearanceEdit => Some((27int, 9int)),
        ContainerType::HousingExteriorPlacedItems => Some((36int, 50int)),
        ContainerType::HousingExteriorStoreroom => Some((86int, 50int)),
        _ => match spec_interior_placed_container_index(c) {
            Some(p) => Some((136 + 50 * p, 50int)),
            None => match spec_interior_storeroom_container_index(c) {
                Some(p) => Some((736 + 50 * p, 50int)),
                None => None,
            },
        },
    }
}

/// Where a housing container starts in the flat slot array, and its size.
pub fn housing_container_span(c: ContainerType) -> (span: Option<(usize, usize)>)
    ensures
        span matches Some(s) ==> spec_housing_container_span(c) == Some((s.0 as int, s.1 as int)),
        span is None ==> spec_housing_container_span(c) is None,
        span matches Some(s) ==> s.0 + s.1 <= HOUSING_INVENTORY_SLOTS,
{
    match c {
        ContainerType::HousingExteriorAppearance => Some((0, 9)),
        ContainerType::HousingExteriorAppearanceEdit => Some((9, 9)),
        ContainerType::HousingInteriorAppearance => Some((18, 9)),
        ContainerType::HousingInteriorAppearanceEdit => Some((27, 9)),
        ContainerType::HousingExteriorPlacedItems => Some((36, 50)),
        ContainerType::HousingExteriorStoreroom => Some((86, 50)),
        _ => match interior_placed_container_index(c) {
            Some(p) => Some((136 + 50 * p as usize, 50)),
            None => match interior_storeroom_container_index(c) {
                Some(p) => {
                    assert(p < 8);
                    Some((736 + 50 * p as usize, 50))
                },
                None => None,
            },
        },
    }
}

/// Slots of a housing container, 0 for containers that are not housing ones.
pub open spec fn spec_housing_container_slot_capacity(c: ContainerType) -> int {
    match spec_housing_container_span(c) {
        Some(s) => s.1,
        None => 0,
    }
}

/// Slots of a housing container, 0 for containers that are not housing ones.
pub fn housing_container_slot_capacity(c: ContainerType) -> (capacity: usize)
    ensures
        capacity == spec_housing_container_slot_capacity(c),
{
    match housing_container_span(c) {
        Some(s) => s.1,
        None => 0,
    }
}

/// The interior placed-furniture containers in page order.
pub fn interior_placed_containers() -> (containers: Vec<ContainerType>)
    ensures
        containers@.len() == HOUSING_INTERIOR_PLACED_PAGE_COUNT,
        forall|p: int|
            0 <= p < containers@.len() ==> spec_interior_placed_container(p as u16) == Some(
                #[trigger] containers@[p],
            ),
{
    let mut containers = Vec::new();
    let mut page: u16 = 0;
    while page < HOUSING_INTERIOR_PLACED_PAGE_COUNT
        invariant
            page <= HOUSING_INTERIOR_PLACED_PAGE_COUNT,
            containers@.len() == page,
            forall|p: int|
                0 <= p < containers@.len() ==> spec_interior_placed_container(p as u16) == Some(
                    #[trigger] containers@[p],
                ),
        decreases HOUSING_INTERIOR_PLACED_PAGE_COUNT - page,
    {
        match interior_placed_container(page) {
            Some(c) => containers.push(c),
            None => {},
        }
        page = page + 1;
    }
    containers
}

/// The interior storeroom containers in page order.
pub fn interior_storeroom_containers() -> (containers: Vec<ContainerType>)
    ensures
        containers@ == seq![
            ContainerType::HousingInteriorStoreroom1,
            ContainerType::HousingInteriorStoreroom2,
            ContainerType::HousingInteriorStoreroom3,
            ContainerType::HousingInteriorStoreroom4,
            ContainerType::HousingInteriorStoreroom5,
            ContainerType::HousingInteriorStoreroom6,
            ContainerType::HousingInteriorStoreroom7,
            ContainerType::HousingInteriorStoreroom8,
        ],
{
    vec![
        ContainerType::HousingInteriorStoreroom1,
        ContainerType::HousingInteriorStoreroom2,
        ContainerType::HousingInteriorStoreroom3,
        ContainerType::HousingInteriorStoreroom4,
        ContainerType::HousingInteriorStoreroom5,
        ContainerType::HousingInteriorStoreroom6,
        ContainerType::HousingInteriorStoreroom7,
        ContainerType::HousingInteriorStoreroom8,
    ]
}

/// The flat furniture slot of a placed-furniture slot: interior page `p`
/// slot `s` is `50 p + s`; exterior slot `s` is `s`.
pub open spec fn spec_flat_slot_for_container(c: ContainerType, slot: u16) -> Option<u16> {
    if c == ContainerType::HousingExteriorPlacedItems {
        if slot < MAX_LARGE_STORAGE {
            Some(slot)
        } else {
            None
        }
    } else {
        match spec_interior_placed_container_index(c) {
            Some(p) => if slot < MAX_HOUSING_INTERIOR_STORAGE {
                Some((p * MAX_HOUSING_INTERIOR_STORAGE + slot) as u16)
            } else {
                None
            },
            None => None,
        }
    }
}

/// The flat furniture slot of a placed-furniture container slot, `None`
/// for other containers and out-of-range slots.
pub fn flat_slot_for_container(c: ContainerType, slot: u16) -> (flat: Option<u16>)
    ensures
        flat == spec_flat_slot_for_container(c, slot),
{
    if c == ContainerType::HousingExteriorPlacedItems {
        if slot < MAX_LARGE_STORAGE {
            Some(slot)
        } else {
            None
        }
    } else {
        match interior_placed_container_index(c) {
            Some(p) => if slot < MAX_HOUSING_INTERIOR_STORAGE {
                Some(p * MAX_HOUSING_INTERIOR_STORAGE + slot)
            } else {
                None
            },
            None => None,
        }
    }
}

/// The interior placed-furniture page and slot of a flat slot.
pub open spec fn spec_indoor_container_for_flat_slot(flat: u16) -> Option<(ContainerType, u16)> {
    match spec_interior_placed_container(flat / MAX_HOUSING_INTERIOR_STORAGE) {
        Some(c) => Some((c, flat % MAX_HOUSING_INTERIOR_STORAGE)),
        None => None,
    }
}

/// The interior placed-furniture page and slot of a flat slot, `None` past
/// the twelfth page.
pub fn indoor_container_for_flat_slot(flat: u16) -> (location: Option<(ContainerType, u16)>)
    ensures
        location == spec_indoor_container_for_flat_slot(flat),
        location is Some <==> flat < HOUSING_INTERIOR_PLACED_PAGE_COUNT * MAX_HOUSING_INTERIOR_STORAGE,
{
    match interior_placed_container(flat / MAX_HOUSING_INTERIOR_STORAGE) {
        Some(c) => Some((c, flat % MAX_HOUSING_INTERIOR_STORAGE)),
        None => None,
    }
}

/// Flat slots and interior pages are two views of one thing: a flat slot
/// maps to a page slot that maps back to it, and each interior page slot
/// maps to a flat slot that maps back to it.
pub proof fn lemma_flat_slot_round_trip(flat: u16, c: ContainerType, slot: u16)
    ensures
        spec_indoor_container_for_flat_slot(flat) matches Some(loc) ==> spec_flat_slot_for_container(
            loc.0,
            loc.1,
        ) == Some(flat),
        (spec_interior_placed_container_index(c) is Some && slot < MAX_HOUSING_INTERIOR_STORAGE)
            ==> (spec_flat_slot_for_container(c, slot) matches Some(f)
            && spec_indoor_container_for_flat_slot(f) == Some((c, slot))),
{
    if let Some(p) = spec_interior_placed_container_index(c) {
        if slot < MAX_HOUSING_INTERIOR_STORAGE {
            let f = (p * 50 + slot) as u16;
            assert(p < 12);
            assert(f / 50 == p && f % 50 == slot) by (nonlinear_arith)
                requires
                    f == p * 50 + slot,
                    slot < 50,
                    p < 12,
            ;
        }
    }
    if let Some(loc) = spec_indoor_container_for_flat_slot(flat) {
        assert(flat / 50 < 12);
        assert((flat / 50) * 50 + flat % 50 == flat) by (nonlinear_arith);
    }
}


/// The two kinds of slot store: the player's bags and a housing inventory.
#[derive(Debug, Clone, Copy, PartialEq, Eq, Structural)]
pub enum StoreKind {
    Player,
    Housing,
}

/// Total slots of a store.
pub open spec fn spec_store_size(kind: StoreKind) -> int {
    match kind {
        StoreKind::Player => 140,
        StoreKind::Housing => 1136,
    }
}

/// Where a container starts in a store's flat slot array, and its size.
pub open spec fn spec_store_span(kind: StoreKind, c: ContainerType) -> Option<(int, int)> {
    match kind {
        StoreKind::Player => match c {
            ContainerType::Inventory0 => Some((0int, 35int)),
            ContainerType::Inventory1 => Some((35int, 35int)),
            ContainerType::Inventory2 => Some((70int, 35int)),
            ContainerType::Inventory3 => Some((105int, 35int)),
            _ => None,
        },
        StoreKind::Housing => spec_housing_container_span(c),
    }
}

fn store_span(kind: StoreKind, c: ContainerType) -> (span: Option<(usize, usize)>)
    ensures
        span matches Some(s) ==> spec_store_span(kind, c) == Some((s.0 as int, s.1 as int)),
        span is None ==> spec_store_span(kind, c) is None,
        span matches Some(s) ==> s.0 + s.1 <= spec_store_size(kind),
{
    match kind {
        StoreKind::Player => match c {
            ContainerType::Inventory0 => Some((0, 35)),
            ContainerType::Inventory1 => Some((35, 35)),
            ContainerType::Inventory2 => Some((70, 35)),
            ContainerType::Inventory3 => Some((105, 35)),
            _ => None,
        },
        StoreKind::Housing => housing_container_span(c),
    }
}

/// Slots of a container in a store (0 when the store has no such container).
pub open spec fn spec_store_capacity(kind: StoreKind, c: ContainerType) -> int {
    match spec_store_span(kind, c) {
        Some(s) => s.1,
        None => 0,
    }
}

/// The item in slot `slot` of container `c`, if the store has that slot.
pub open spec fn spec_store_get(kind: StoreKind, slots: Seq<Item>, c: ContainerType, slot: u16) -> Option<Item> {
    match spec_store_span(kind, c) {
        Some(s) => if (slot as int) < s.1 {
            Some(slots[s.0 + slot])
        } else {
            None
        },
        None => None,
    }
}

/// The store after writing `item` into slot `slot` of container `c`.
pub open spec fn spec_store_set(kind: StoreKind, slots: Seq<Item>, c: ContainerType, slot: u16, item: Item) -> Seq<Item> {
    match spec_store_span(kind, c) {
        Some(s) => if (slot as int) < s.1 {
            slots.update(s.0 + slot, item)
        } else {
            slots
        },
        None => slots,
    }
}

/// Every slot of container `c` holds an item.
pub open spec fn spec_container_full(kind: StoreKind, slots: Seq<Item>, c: ContainerType) -> bool {
    forall|s: u16|
        (s as int) < spec_store_capacity(kind, c) ==> !(#[trigger] spec_store_get(kind, slots, c, s)).unwrap().spec_is_empty_slot()
}

/// Every container lies inside its store.
pub proof fn lemma_store_span_bounds(kind: StoreKind, c: ContainerType)
    ensures
        spec_store_span(kind, c) matches Some(s) ==> 0 <= s.0 && s.0 + s.1 <= spec_store_size(kind),
{
}

fn store_get(kind: StoreKind, slots: &Vec<Item>, c: ContainerType, slot: u16) -> (item: Option<Item>)
    requires
        slots@.len() == spec_store_size(kind),
    ensures
        item == spec_store_get(kind, slots@, c, slot),
{
    match store_span(kind, c) {
        Some(s) => if (slot as usize) < s.1 {
            Some(slots[s.0 + slot as usize])
        } else {
            None
        },
        None => None,
    }
}

fn store_set(kind: StoreKind, slots: &mut Vec<Item>, c: ContainerType, slot: u16, item: Item) -> (written: bool)
    requires
        old(slots)@.len() == spec_store_size(kind),
    ensures
        written == spec_store_get(kind, old(slots)@, c, slot) is Some,
        final(slots)@ == spec_store_set(kind, old(slots)@, c, slot, item),
        final(slots)@.len() == spec_store_size(kind),
{
    match store_span(kind, c) {
        Some(s) => if (slot as usize) < s.1 {
            slots.set(s.0 + slot as usize, item);
            true
        } else {
            false
        },
        None => false,
    }
}

/// Reading a slot after writing one: the written slot holds the item,
/// every other slot is unchanged.
pub proof fn lemma_store_get_set(
    kind: StoreKind,
    slots: Seq<Item>,
    c: ContainerType,
    slot: u16,
    item: Item,
    c2: ContainerType,
    slot2: u16,
)
    requires
        slots.len() == spec_store_size(kind),
    ensures
        spec_store_get(kind, spec_store_set(kind, slots, c, slot, item), c2, slot2) == if c2 == c
            && slot2 == slot && spec_store_get(kind, slots, c, slot) is Some {
            Some(item)
        } else {
            spec_store_get(kind, slots, c2, slot2)
        },
{
    crate::common::lemma_container_type_id_injective(c, c2);
}

/// `after` is `before` with `item` in `placed`, the first empty slot of the
/// `desired` containers (scanned in order, each from slot 0); or, with no
/// `placed`, every desired container is full and nothing changed.
pub open spec fn spec_added_in_empty_slot(
    kind: StoreKind,
    before: Seq<Item>,
    item: Item,
    desired: Seq<ContainerType>,
    placed: Option<(ContainerType, u16)>,
    after: Seq<Item>,
) -> bool {
    match placed {
        Some(p) => {
            &&& spec_store_get(kind, before, p.0, p.1) matches Some(prev) && prev.spec_is_empty_slot()
            &&& after == spec_store_set(kind, before, p.0, p.1, item)
            &&& exists|k: int| 0 <= k < desired.len() && desired[k] == p.0
                && (forall|j: int| 0 <= j < k ==> spec_container_full(kind, before, #[trigger] desired[j]))
                && (forall|s: u16| s < p.1 ==> !(#[trigger] spec_store_get(kind, before, p.0, s)).unwrap().spec_is_empty_slot())
        },
        None => {
            &&& after == before
            &&& forall|j: int| 0 <= j < desired.len() ==> spec_container_full(kind, before, #[trigger] desired[j])
        },
    }
}

/// `p` is the first empty slot of the `desired` containers, scanned in
/// order, each from slot 0.
pub open spec fn spec_is_first_free(kind: StoreKind, before: Seq<Item>, desired: Seq<ContainerType>, p: (ContainerType, u16)) -> bool {
    &&& spec_store_get(kind, before, p.0, p.1) matches Some(prev) && prev.spec_is_empty_slot()
    &&& exists|k: int| 0 <= k < desired.len() && desired[k] == p.0
        && (forall|j: int| 0 <= j < k ==> spec_container_full(kind, before, #[trigger] desired[j]))
    &&& forall|s: u16| s < p.1 ==> !(#[trigger] spec_store_get(kind, before, p.0, s)).unwrap().spec_is_empty_slot()
}

/// The first empty slot of the `desired` containers, if any.
pub open spec fn spec_first_free(kind: StoreKind, before: Seq<Item>, desired: Seq<ContainerType>) -> Option<(ContainerType, u16)> {
    if exists|p: (ContainerType, u16)| spec_is_first_free(kind, before, desired, p) {
        Some(choose|p: (ContainerType, u16)| spec_is_first_free(kind, before, desired, p))
    } else {
        None
    }
}

/// The store after adding `item` to the first empty slot of the `desired`
/// containers; unchanged when they are full.
pub open spec fn spec_after_add(kind: StoreKind, before: Seq<Item>, item: Item, desired: Seq<ContainerType>) -> Seq<Item> {
    match spec_first_free(kind, before, desired) {
        Some(p) => spec_store_set(kind, before, p.0, p.1, item),
        None => before,
    }
}

/// There is at most one first empty slot.
pub proof fn lemma_first_free_unique(
    kind: StoreKind,
    before: Seq<Item>,
    desired: Seq<ContainerType>,
    p: (ContainerType, u16),
    q: (ContainerType, u16),
)
    requires
        spec_is_first_free(kind, before, desired, p),
        spec_is_first_free(kind, before, desired, q),
    ensures
        p == q,
{
    let kp = choose|k: int| 0 <= k < desired.len() && desired[k] == p.0
        && (forall|j: int| 0 <= j < k ==> spec_container_full(kind, before, #[trigger] desired[j]));
    let kq = choose|k: int| 0 <= k < desired.len() && desired[k] == q.0
        && (forall|j: int| 0 <= j < k ==> spec_container_full(kind, before, #[trigger] desired[j]));
    if kp < kq {
        assert(spec_container_full(kind, before, desired[kp]));
        assert(!spec_store_get(kind, before, p.0, p.1).unwrap().spec_is_empty_slot());
    } else if kq < kp {
        assert(spec_container_full(kind, before, desired[kq]));
        assert(!spec_store_get(kind, before, q.0, q.1).unwrap().spec_is_empty_slot());
    } else {
        assert(p.0 == q.0);
        if p.1 < q.1 {
            assert(!spec_store_get(kind, before, q.0, p.1).unwrap().spec_is_empty_slot());
        } else if q.1 < p.1 {
            assert(!spec_store_get(kind, before, p.0, q.1).unwrap().spec_is_empty_slot());
        }
    }
}

/// An addition to the first empty slot placed the item in `spec_first_free`
/// and left `spec_after_add`.
pub proof fn lemma_added_is_first_free(
    kind: StoreKind,
    before: Seq<Item>,
    item: Item,
    desired: Seq<ContainerType>,
    placed: Option<(ContainerType, u16)>,
    after: Seq<Item>,
)
    requires
        spec_added_in_empty_slot(kind, before, item, desired, placed, after),
    ensures
        placed == spec_first_free(kind, before, desired),
        after == spec_after_add(kind, before, item, desired),
{
    match placed {
        Some(p) => {
            assert(spec_is_first_free(kind, before, desired, p));
            let q = choose|q: (ContainerType, u16)| spec_is_first_free(kind, before, desired, q);
            lemma_first_free_unique(kind, before, desired, p, q);
        },
        None => {
            if exists|q: (ContainerType, u16)| spec_is_first_free(kind, before, desired, q) {
                let q = choose|q: (ContainerType, u16)| spec_is_first_free(kind, before, desired, q);
                let k = choose|k: int| 0 <= k < desired.len() && desired[k] == q.0
                    && (forall|j: int| 0 <= j < k ==> spec_container_full(kind, before, #[trigger] desired[j]));
                assert(spec_container_full(kind, before, desired[k]));
                assert(!spec_store_get(kind, before, q.0, q.1).unwrap().spec_is_empty_slot());
            }
        },
    }
}

/// The first empty slot, scanning the containers of `desired` in order and
/// each container from slot 0, receives `item`.
fn store_add_in_empty_slot(kind: StoreKind, slots: &mut Vec<Item>, item: Item, desired: &Vec<ContainerType>) -> (placed: Option<(ContainerType, u16)>)
    requires
        old(slots)@.len() == spec_store_size(kind),
    ensures
        final(slots)@.len() == spec_store_size(kind),
        placed matches Some(p) ==> {
            &&& spec_store_get(kind, old(slots)@, p.0, p.1) matches Some(prev) && prev.spec_is_empty_slot()
            &&& final(slots)@ == spec_store_set(kind, old(slots)@, p.0, p.1, item)
            &&& exists|k: int| 0 <= k < desired@.len() && desired@[k] == p.0
                && (forall|j: int| 0 <= j < k ==> spec_container_full(kind, old(slots)@, #[trigger] desired@[j]))
                && (forall|s: u16| s < p.1 ==> !(#[trigger] spec_store_get(kind, old(slots)@, p.0, s)).unwrap().spec_is_empty_slot())
        },
        placed is None ==> {
            &&& final(slots)@ == old(slots)@
            &&& forall|j: int| 0 <= j < desired@.len() ==> spec_container_full(kind, old(slots)@, #[trigger] desired@[j])
        },
{
    let mut k: usize = 0;
    while k < desired.len()
        invariant
            slots@.len() == spec_store_size(kind),
            slots@ == old(slots)@,
            k <= desired@.len(),
            forall|j: int| 0 <= j < k ==> spec_container_full(kind, old(slots)@, #[trigger] desired@[j]),
        decreases desired@.len() - k,
    {
        let c = desired[k];
        match store_span(kind, c) {
            Some(span) => {
                let mut s: usize = 0;
                while s < span.1
                    invariant
                        slots@.len() == spec_store_size(kind),
                        slots@ == old(slots)@,
                        k < desired@.len(),
                        c == desired@[k as int],
                        spec_store_span(kind, c) == Some((span.0 as int, span.1 as int)),
                        span.0 + span.1 <= spec_store_size(kind),
                        span.1 <= 50,
                        s <= span.1,
                        forall|j: int| 0 <= j < k ==> spec_container_full(kind, old(slots)@, #[trigger] desired@[j]),
                        forall|t: u16| t < s ==> !(#[trigger] spec_store_get(kind, old(slots)@, c, t)).unwrap().spec_is_empty_slot(),
                    decreases span.1 - s,
                {
                    if slots[span.0 + s].quantity == 0 {
                        let slot = s as u16;
                        slots.set(span.0 + s, item);
                        return Some((c, slot));
                    }
                    s = s + 1;
                }
                assert(spec_container_full(kind, old(slots)@, c)) by {
                    assert forall|t: u16| (t as int) < spec_store_capacity(kind, c) implies
                        !(#[trigger] spec_store_get(kind, old(slots)@, c, t)).unwrap().spec_is_empty_slot() by {
                        assert(t < s);
                    }
                }
            },
            None => {},
        }
        k = k + 1;
    }
    None
}

/// The player's bags in the order they fill.
pub open spec fn spec_player_bags() -> Seq<ContainerType> {
    seq![ContainerType::Inventory0, ContainerType::Inventory1, ContainerType::Inventory2, ContainerType::Inventory3]
}

/// The housing containers that take furniture in an area: indoors the
/// storeroom pages or the placed pages, outdoors the yard storeroom or the
/// yard; nothing elsewhere.
pub open spec fn spec_desired_housing_pages(intended_use: TerritoryIntendedUse, storeroom: bool) -> Seq<ContainerType> {
    match intended_use {
        TerritoryIntendedUse::HousingIndoor => if storeroom {
            seq![
                ContainerType::HousingInteriorStoreroom1,
                ContainerType::HousingInteriorStoreroom2,
                ContainerType::HousingInteriorStoreroom3,
                ContainerType::HousingInteriorStoreroom4,
                ContainerType::HousingInteriorStoreroom5,
                ContainerType::HousingInteriorStoreroom6,
                ContainerType::HousingInteriorStoreroom7,
                ContainerType::HousingInteriorStoreroom8,
            ]
        } else {
            seq![
                ContainerType::HousingInteriorPlacedItems1,
                ContainerType::HousingInteriorPlacedItems2,
                ContainerType::HousingInteriorPlacedItems3,
                ContainerType::HousingInteriorPlacedItems4,
                ContainerType::HousingInteriorPlacedItems5,
                ContainerType::HousingInteriorPlacedItems6,
                ContainerType::HousingInteriorPlacedItems7,
                ContainerType::HousingInteriorPlacedItems8,
                ContainerType::HousingInteriorPlacedItems9,
                ContainerType::HousingInteriorPlacedItems10,
                ContainerType::HousingInteriorPlacedItems11,
                ContainerType::HousingInteriorPlacedItems12,
            ]
        },
        TerritoryIntendedUse::HousingOutdoor => if storeroom {
            seq![ContainerType::HousingExteriorStoreroom]
        } else {
            seq![ContainerType::HousingExteriorPlacedItems]
        },
        _ => Seq::empty(),
    }
}

/// The housing containers that take furniture in an area (see
/// `spec_desired_housing_pages`).
pub fn desired_housing_pages(intended_use: TerritoryIntendedUse, storeroom: bool) -> (pages: Vec<ContainerType>)
    ensures
        pages@ == spec_desired_housing_pages(intended_use, storeroom),
{
    let pages = match intended_use {
        TerritoryIntendedUse::HousingIndoor => if storeroom {
            interior_storeroom_containers()
        } else {
            vec![
                ContainerType::HousingInteriorPlacedItems1,
                ContainerType::HousingInteriorPlacedItems2,
                ContainerType::HousingInteriorPlacedItems3,
                ContainerType::HousingInteriorPlacedItems4,
                ContainerType::HousingInteriorPlacedItems5,
                ContainerType::HousingInteriorPlacedItems6,
                ContainerType::HousingInteriorPlacedItems7,
                ContainerType::HousingInteriorPlacedItems8,
                ContainerType::HousingInteriorPlacedItems9,
                ContainerType::HousingInteriorPlacedItems10,
                ContainerType::HousingInteriorPlacedItems11,
                ContainerType::HousingInteriorPlacedItems12,
            ]
        },
        TerritoryIntendedUse::HousingOutdoor => if storeroom {
            vec![ContainerType::HousingExteriorStoreroom]
        } else {
            vec![ContainerType::HousingExteriorPlacedItems]
        },
        _ => Vec::new(),
    };
    assert(pages@ =~= spec_desired_housing_pages(intended_use, storeroom));
    pages
}

/// The slots of an empty housing inventory.
pub open spec fn spec_empty_housing_slots() -> Seq<Item> {
    Seq::new(HOUSING_INVENTORY_SLOTS as nat, |i: int| empty_item())
}

/// The rooms, yard and fixtures of one estate: the appearance containers,
/// the exterior placed-furniture and storeroom containers, twelve interior
/// placed-furniture pages and eight interior storeroom pages.
#[derive(Debug)]
pub struct HousingInventory {
    slots: Vec<Item>,
}

impl HousingInventory {
    /// The slots, container after container.
    pub closed spec fn slots_view(&self) -> Seq<Item> {
        self.slots@
    }

    /// The inventory holds every slot of every housing container.
    pub closed spec fn wf(&self) -> bool {
        self.slots@.len() == spec_store_size(StoreKind::Housing)
    }

    /// The item in slot `slot` of container `c`, if that slot exists.
    pub open spec fn spec_get(&self, c: ContainerType, slot: u16) -> Option<Item> {
        spec_store_get(StoreKind::Housing, self.slots_view(), c, slot)
    }

    /// An inventory with every slot empty.
    pub fn new() -> (inventory: HousingInventory)
        ensures
            inventory.wf(),
            inventory.slots_view() == spec_empty_housing_slots(),
            forall|c: ContainerType, s: u16| #[trigger] inventory.spec_get(c, s) matches Some(i) ==> i == empty_item(),
            forall|c: ContainerType, s: u16| (#[trigger] inventory.spec_get(c, s)) is Some <==> (s as int) < spec_housing_container_slot_capacity(c),
    {
        let mut slots: Vec<Item> = Vec::new();
        while slots.len() < HOUSING_INVENTORY_SLOTS
            invariant
                slots@.len() <= HOUSING_INVENTORY_SLOTS,
                forall|i: int| 0 <= i < slots@.len() ==> slots@[i] == empty_item(),
            decreases HOUSING_INVENTORY_SLOTS - slots@.len(),
        {
            slots.push(Item::default());
        }
        assert(slots@ =~= spec_empty_housing_slots());
        HousingInventory { slots }
    }

    /// The item in a slot, `None` when the container or slot does not exist.
    pub fn get_item(&self, c: ContainerType, slot: u16) -> (item: Option<Item>)
        requires
            self.wf(),
        ensures
            item == self.spec_get(c, slot),
    {
        store_get(StoreKind::Housing, &self.slots, c, slot)
    }

    /// Writes `item` into a slot; false (and no change) when it does not exist.
    pub fn set_item(&mut self, c: ContainerType, slot: u16, item: Item) -> (written: bool)
        requires
            old(self).wf(),
        ensures
            final(self).wf(),
            written == old(self).spec_get(c, slot) is Some,
            final(self).slots_view() == spec_store_set(StoreKind::Housing, old(self).slots_view(), c, slot, item),
            forall|c2: ContainerType, s2: u16| #[trigger] final(self).spec_get(c2, s2) == if c2 == c && s2 == slot && written {
                Some(item)
            } else {
                old(self).spec_get(c2, s2)
            },
    {
        let written = store_set(StoreKind::Housing, &mut self.slots, c, slot, item);
        proof {
            assert forall|c2: ContainerType, s2: u16| #[trigger] self.spec_get(c2, s2) == if c2 == c && s2 == slot && written {
                Some(item)
            } else {
                old(self).spec_get(c2, s2)
            } by {
                lemma_store_get_set(StoreKind::Housing, old(self).slots_view(), c, slot, item, c2, s2);
            }
        }
        written
    }

    /// A well-formed housing inventory holds every housing slot.
    pub proof fn lemma_slots_len(&self)
        requires
            self.wf(),
        ensures
            self.slots_view().len() == spec_store_size(StoreKind::Housing),
    {
    }

    /// Writing a slot keeps which slots exist.
    pub proof fn lemma_set_keeps_slots(&self, c: ContainerType, slot: u16, item: Item, c2: ContainerType, slot2: u16)
        requires
            self.wf(),
        ensures
            spec_store_get(StoreKind::Housing, spec_store_set(StoreKind::Housing, self.slots_view(), c, slot, item), c2, slot2) is Some
                <==> self.spec_get(c2, slot2) is Some,
    {
        lemma_store_get_set(StoreKind::Housing, self.slots_view(), c, slot, item, c2, slot2);
    }

    /// Puts `item` into the first empty slot of the `desired` containers,
    /// scanned in order and each from slot 0.
    pub fn add_in_empty_slot(&mut self, item: Item, desired: &Vec<ContainerType>) -> (placed: Option<(ContainerType, u16)>)
        requires
            old(self).wf(),
        ensures
            final(self).wf(),
            spec_added_in_empty_slot(StoreKind::Housing, old(self).slots_view(), item, desired@, placed, final(self).slots_view()),
    {
        store_add_in_empty_slot(StoreKind::Housing, &mut self.slots, item, desired)
    }

    /// The non-empty slots of container `c`, with their slot numbers, in
    /// slot order.
    pub open spec fn spec_occupied(&self, c: ContainerType) -> Seq<(u16, Item)> {
        crate::seq_util::keep(
            Seq::new(spec_housing_container_slot_capacity(c) as nat, |s: int| (s as u16, self.spec_get(c, s as u16).unwrap())),
            |e: (u16, Item)| !e.1.spec_is_empty_slot(),
        )
    }

    /// The non-empty slots of container `c`, with their slot numbers, in
    /// slot order.
    pub fn occupied_slots(&self, c: ContainerType) -> (items: Vec<(u16, Item)>)
        requires
            self.wf(),
        ensures
            items@ == self.spec_occupied(c),
    {
        let ghost entries = Seq::new(spec_housing_container_slot_capacity(c) as nat, |s: int| (s as u16, self.spec_get(c, s as u16).unwrap()));
        let ghost pred = |e: (u16, Item)| !e.1.spec_is_empty_slot();
        let mut items: Vec<(u16, Item)> = Vec::new();
        let capacity = housing_container_slot_capacity(c);
        let mut s: usize = 0;
        assert(entries.take(0) =~= Seq::<(u16, Item)>::empty());
        while s < capacity
            invariant
                self.wf(),
                capacity == spec_housing_container_slot_capacity(c),
                capacity <= 50,
                s <= capacity,
                entries == Seq::new(spec_housing_container_slot_capacity(c) as nat, |s: int| (s as u16, self.spec_get(c, s as u16).unwrap())),
                pred == (|e: (u16, Item)| !e.1.spec_is_empty_slot()),
                items@ == crate::seq_util::keep(entries.take(s as int), pred),
            decreases capacity - s,
        {
            let item = self.get_item(c, s as u16).unwrap();
            proof {
                crate::seq_util::lemma_keep_take(entries, pred, s as int);
                assert(entries[s as int] == (s as u16, item));
            }
            if !item.is_empty_slot() {
                items.push((s as u16, item));
            }
            s = s + 1;
        }
        assert(entries.take(capacity as int) =~= entries);
        items
    }
}

/// The player's four bags of 35 slots.
#[derive(Debug)]
pub struct PlayerInventory {
    slots: Vec<Item>,
}

impl PlayerInventory {
    /// The slots, bag after bag.
    pub closed spec fn slots_view(&self) -> Seq<Item> {
        self.slots@
    }

    /// The inventory holds every slot of the four bags.
    pub closed spec fn wf(&self) -> bool {
        self.slots@.len() == spec_store_size(StoreKind::Player)
    }

    /// The item in slot `slot` of bag `c`, if that slot exists.
    pub open spec fn spec_get(&self, c: ContainerType, slot: u16) -> Option<Item> {
        spec_store_get(StoreKind::Player, self.slots_view(), c, slot)
    }

    /// Four empty bags.
    pub fn new() -> (inventory: PlayerInventory)
        ensures
            inventory.wf(),
            forall|c: ContainerType, s: u16| #[trigger] inventory.spec_get(c, s) matches Some(i) ==> i == empty_item(),
    {
        let mut slots: Vec<Item> = Vec::new();
        while slots.len() < 140
            invariant
                slots@.len() <= 140,
                forall|i: int| 0 <= i < slots@.len() ==> slots@[i] == empty_item(),
            decreases 140 - slots@.len(),
        {
            slots.push(Item::default());
        }
        PlayerInventory { slots }
    }

    /// The item in a bag slot, `None` when the bag or slot does not exist.
    pub fn get_item(&self, c: ContainerType, slot: u16) -> (item: Option<Item>)
        requires
            self.wf(),
        ensures
            item == self.spec_get(c, slot),
    {
        store_get(StoreKind::Player, &self.slots, c, slot)
    }

    /// Writes `item` into a bag slot; false (and no change) when it does not exist.
    pub fn set_item(&mut self, c: ContainerType, slot: u16, item: Item) -> (written: bool)
        requires
            old(self).wf(),
        ensures
            final(self).wf(),
            written == old(self).spec_get(c, slot) is Some,
            final(self).slots_view() == spec_store_set(StoreKind::Player, old(self).slots_view(), c, slot, item),
            forall|c2: ContainerType, s2: u16| #[trigger] final(self).spec_get(c2, s2) == if c2 == c && s2 == slot && written {
                Some(item)
            } else {
                old(self).spec_get(c2, s2)
            },
    {
        let written = store_set(StoreKind::Player, &mut self.slots, c, slot, item);
        proof {
            assert forall|c2: ContainerType, s2: u16| #[trigger] self.spec_get(c2, s2) == if c2 == c && s2 == slot && written {
                Some(item)
            } else {
                old(self).spec_get(c2, s2)
            } by {
                lemma_store_get_set(StoreKind::Player, old(self).slots_view(), c, slot, item, c2, s2);
            }
        }
        written
    }

    /// Well-formed bags hold every bag slot.
    pub proof fn lemma_slots_len(&self)
        requires
            self.wf(),
        ensures
            self.slots_view().len() == spec_store_size(StoreKind::Player),
    {
    }

    /// Writing a slot keeps which slots exist.
    pub proof fn lemma_set_keeps_slots(&self, c: ContainerType, slot: u16, item: Item, c2: ContainerType, slot2: u16)
        requires
            self.wf(),
        ensures
            spec_store_get(StoreKind::Player, spec_store_set(StoreKind::Player, self.slots_view(), c, slot, item), c2, slot2) is Some
                <==> self.spec_get(c2, slot2) is Some,
    {
        lemma_store_get_set(StoreKind::Player, self.slots_view(), c, slot, item, c2, slot2);
    }

    /// Puts `item` into the first empty bag slot, bags 0 to 3 in order.
    pub fn add_in_next_free_slot(&mut self, item: Item) -> (placed: Option<(ContainerType, u16)>)
        requires
            old(self).wf(),
        ensures
            final(self).wf(),
            spec_added_in_empty_slot(StoreKind::Player, old(self).slots_view(), item, spec_player_bags(), placed, final(self).slots_view()),
    {
        let bags = vec![
            ContainerType::Inventory0,
            ContainerType::Inventory1,
            ContainerType::Inventory2,
            ContainerType::Inventory3,
        ];
        assert(bags@ == spec_player_bags());
        store_add_in_empty_slot(StoreKind::Player, &mut self.slots, item, &bags)
    }
}

} // verus!
