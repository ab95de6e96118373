//! Placing furniture from the bags or the storeroom into an estate, and
//! taking it back into the bags or the storeroom: the authorization, the
//! inventory slots that change, and the furniture row that is stored.
use vstd::prelude::*;

use crate::common::{ContainerType, Position, TerritoryIntendedUse, container_type_id, spec_container_type_id};
use crate::database::{HousingFurniture, spec_moved_rows, spec_upserted_rows};
use crate::furniture::{should_broadcast_housing_item_removal, spec_should_broadcast_housing_item_removal};
use crate::gamedata::spec_furniture_catalog_id;
use crate::inventory::{
    Item, StoreKind, desired_housing_pages, empty_item, flat_slot_for_container, lemma_added_is_first_free,
    spec_after_add, spec_desired_housing_pages, spec_first_free, spec_flat_slot_for_container, spec_player_bags,
    spec_store_set,
};
use crate::state::{ActiveHousingEstate, HousingFurnitureObjectKey, PersistedFurniturePlacement, PersistedHousingItemMove};
use crate::zone_connection::{ZoneConnection, spec_write_slot};

verus! {

/// The furniture row that a placement stores.
pub open spec fn spec_placement_row(
    active: ActiveHousingEstate,
    item: Item,
    catalog_id: u16,
    destination: (ContainerType, u16),
    spawn_furniture: bool,
    position: Position,
    rotation_bits: u32,
    content_id: u64,
) -> HousingFurniture {
    HousingFurniture {
        land_ident: active.land_ident,
        container_type: spec_container_type_id(destination.0) as i32,
        slot: destination.1 as i32,
        item_id: item.item_id as i64,
        catalog_id: catalog_id as i32,
        stain: item.stains[0] as i32,
        placed: spawn_furniture,
        pos_x_bits: position.x_bits,
        pos_y_bits: position.y_bits,
        pos_z_bits: position.z_bits,
        rotation_bits,
        created_by_content_id: Some(content_id as i64),
        updated_at: 0,
    }
}

/// The object key of a furniture slot in the world.
pub open spec fn spec_object_key(active: ActiveHousingEstate, flat_slot: u16, intended_use: TerritoryIntendedUse, plot_index: u8) -> HousingFurnitureObjectKey {
    let indoors = intended_use == TerritoryIntendedUse::HousingIndoor;
    HousingFurnitureObjectKey {
        slot: flat_slot,
        indoors,
        ward_index: if indoors { 0 } else { active.house_id.ward_index },
        plot_index,
    }
}

impl ZoneConnection {
    /// The edit gate of a placement: the packet's plot outdoors, the edit
    /// gate elsewhere.
    pub open spec fn spec_placement_gate(&self, plot_index: u8, intended_use: TerritoryIntendedUse) -> (Option<ActiveHousingEstate>, ZoneConnection) {
        if intended_use == TerritoryIntendedUse::HousingOutdoor {
            self.spec_outdoor_edit_outcome(plot_index)
        } else {
            self.spec_edit_outcome(intended_use)
        }
    }

    /// What a granted placement of `item` stores once the housing
    /// inventory took it (`placed`, giving housing slots `house1`): with no
    /// free slot nothing more happens; a spawned item must land in a
    /// placed slot with an object slot, else the placement stops there (the
    /// housing slot keeps the item). Then the source slot is emptied and
    /// the furniture row is stored.
    pub open spec fn spec_placement_stored(
        &self,
        active: ActiveHousingEstate,
        item: Item,
        placed: Option<(ContainerType, u16)>,
        house1: Seq<Item>,
        container: ContainerType,
        slot: u16,
        position: Position,
        rotation_bits: u32,
        spawn_furniture: bool,
        plot_index: u8,
        intended_use: TerritoryIntendedUse,
        after: ZoneConnection,
        persisted: Option<PersistedFurniturePlacement>,
    ) -> bool {
        let catalog_id = match spec_furniture_catalog_id(self.gamedata.rows_view(), item.item_id) {
            Some(c) => c,
            None => 0u16,
        };
        let player0 = self.inventory.slots_view();
        match placed {
            None => persisted is None && self.spec_is_with_slots(after, player0, house1),
            Some(p) => {
                let object_slot = spec_flat_slot_for_container(p.0, p.1);
                if spawn_furniture && object_slot is None {
                    persisted is None && self.spec_is_with_slots(after, player0, house1)
                } else {
                    let (player2, house2) = spec_write_slot(player0, house1, container, slot, empty_item());
                    let row = spec_placement_row(active, item, catalog_id, p, spawn_furniture, position, rotation_bits, self.content_id);
                    &&& after == (ZoneConnection {
                        inventory: after.inventory,
                        house_inventory: after.house_inventory,
                        database: after.database,
                        ..*self
                    })
                    &&& after.inventory.slots_view() == player2
                    &&& after.house_inventory.slots_view() == house2
                    &&& after.database.estates_view() == self.database.estates_view()
                    &&& after.database.furniture_view() == spec_upserted_rows(self.database.furniture_view(), row)
                    &&& persisted == Some(PersistedFurniturePlacement {
                        container: p.0,
                        slot: p.1,
                        catalog_id,
                        stain: item.stains[0],
                        position,
                        indoors: intended_use == TerritoryIntendedUse::HousingIndoor,
                        rotation_bits,
                        ward_index: if intended_use == TerritoryIntendedUse::HousingIndoor {
                            0
                        } else {
                            active.house_id.ward_index
                        },
                        plot_index,
                        object_slot: if spawn_furniture { object_slot.unwrap() } else { 0 },
                        spawned: spawn_furniture,
                    })
                }
            },
        }
    }

    /// The outcome of placing the item of a bag or housing slot into the
    /// estate: the authorization must grant an estate and the source slot must hold
    /// an item; the item goes into the first empty slot of the area's
    /// placed containers (storeroom containers when not spawned), and the
    /// rest is `spec_placement_stored`.
    pub open spec fn spec_placed(
        &self,
        container: ContainerType,
        slot: u16,
        position: Position,
        rotation_bits: u32,
        spawn_furniture: bool,
        plot_index: u8,
        intended_use: TerritoryIntendedUse,
        after: ZoneConnection,
        persisted: Option<PersistedFurniturePlacement>,
    ) -> bool {
        let (g, s1) = self.spec_placement_gate(plot_index, intended_use);
        match g {
            None => persisted is None && after == s1,
            Some(a) => match s1.spec_player_or_housing_item(container, slot) {
                None => persisted is None && after == s1,
                Some(item) => if item.spec_is_empty_slot() {
                    persisted is None && after == s1
                } else {
                    let desired = spec_desired_housing_pages(intended_use, !spawn_furniture);
                    let house0 = s1.house_inventory.slots_view();
                    s1.spec_placement_stored(
                        a,
                        item,
                        spec_first_free(StoreKind::Housing, house0, desired),
                        spec_after_add(StoreKind::Housing, house0, item, desired),
                        container,
                        slot,
                        position,
                        rotation_bits,
                        spawn_furniture,
                        plot_index,
                        intended_use,
                        after,
                        persisted,
                    )
                }
            },
        }
    }

    /// Stores a granted placement of the item in a bag or housing slot
    /// (see `spec_placement_stored`).
    fn store_furniture_placement(
        &mut self,
        active: ActiveHousingEstate,
        item: Item,
        container: ContainerType,
        slot: u16,
        position: Position,
        rotation_bits: u32,
        spawn_furniture: bool,
        plot_index: u8,
        intended_use: TerritoryIntendedUse,
    ) -> (persisted: Option<PersistedFurniturePlacement>)
        requires
            old(self).wf(),
            old(self).spec_player_or_housing_item(container, slot) == Some(item),
        ensures
            final(self).wf(),
            ({
                let desired = spec_desired_housing_pages(intended_use, !spawn_furniture);
                let house0 = old(self).house_inventory.slots_view();
                old(self).spec_placement_stored(
                    active,
                    item,
                    spec_first_free(StoreKind::Housing, house0, desired),
                    spec_after_add(StoreKind::Housing, house0, item, desired),
                    container,
                    slot,
                    position,
                    rotation_bits,
                    spawn_furniture,
                    plot_index,
                    intended_use,
                    *final(self),
                    persisted,
                )
            }),
    {
        let ghost s1 = *self;
        let catalog_id = match self.gamedata.get_furniture_catalog_id(item.item_id) {
            Some(c) => c,
            None => 0,
        };
        let desired = desired_housing_pages(intended_use, !spawn_furniture);
        let placed = self.house_inventory.add_in_empty_slot(item, &desired);
        let ghost house1 = self.house_inventory.slots_view();
        proof {
            lemma_added_is_first_free(StoreKind::Housing, s1.house_inventory.slots_view(), item, desired@, placed, house1);
        }
        let destination = match placed {
            Some(p) => p,
            None => {
                assert(s1.spec_placement_stored(
                    active, item, placed, house1, container, slot, position, rotation_bits, spawn_furniture,
                    plot_index, intended_use, *self, None,
                ));
                return None;
            },
        };
        let object_slot = if spawn_furniture {
            match flat_slot_for_container(destination.0, destination.1) {
                Some(f) => f,
                None => {
                    assert(s1.spec_placement_stored(
                        active, item, placed, house1, container, slot, position, rotation_bits, spawn_furniture,
                        plot_index, intended_use, *self, None,
                    ));
                    return None;
                },
            }
        } else {
            0
        };
        proof {
            s1.house_inventory.lemma_set_keeps_slots(destination.0, destination.1, item, container, slot);
        }
        let written = self.set_player_or_housing_item(container, slot, Item::default());
        assert(written);
        let row = HousingFurniture {
            land_ident: active.land_ident,
            container_type: container_type_id(destination.0) as i32,
            slot: destination.1 as i32,
            item_id: item.item_id as i64,
            catalog_id: catalog_id as i32,
            stain: item.stains[0] as i32,
            placed: spawn_furniture,
            pos_x_bits: position.x_bits,
            pos_y_bits: position.y_bits,
            pos_z_bits: position.z_bits,
            rotation_bits,
            created_by_content_id: Some(self.content_id as i64),
            updated_at: 0,
        };
        self.database.upsert_housing_furniture(row);
        let persisted = Some(PersistedFurniturePlacement {
            container: destination.0,
            slot: destination.1,
            catalog_id,
            stain: item.stains[0],
            position,
            indoors: intended_use == TerritoryIntendedUse::HousingIndoor,
            rotation_bits,
            ward_index: if intended_use == TerritoryIntendedUse::HousingIndoor {
                0
            } else {
                active.house_id.ward_index
            },
            plot_index,
            object_slot,
            spawned: spawn_furniture,
        });
        assert(s1.spec_placement_stored(
            active, item, placed, house1, container, slot, position, rotation_bits, spawn_furniture,
            plot_index, intended_use, *self, persisted,
        ));
        persisted
    }

    /// Places furniture from a bag or housing slot into the estate (see
    /// `spec_placed`).
    pub fn persist_furniture_placement(
        &mut self,
        container: ContainerType,
        slot: u16,
        position: Position,
        rotation_bits: u32,
        spawn_furniture: bool,
        plot_index: u8,
        intended_use: TerritoryIntendedUse,
    ) -> (persisted: Option<PersistedFurniturePlacement>)
        requires
            old(self).wf(),
        ensures
            final(self).wf(),
            old(self).spec_placed(container, slot, position, rotation_bits, spawn_furniture, plot_index, intended_use, *final(self), persisted),
    {
        let granted = if intended_use == TerritoryIntendedUse::HousingOutdoor {
            self.active_housing_estate_for_outdoor_edit(plot_index)
        } else {
            self.active_housing_estate_for_edit(intended_use)
        };
        let active = match granted {
            Some(a) => a,
            None => return None,
        };
        let item = match self.get_player_or_housing_item(container, slot) {
            Some(item) => if !item.is_empty_slot() {
                item
            } else {
                return None;
            },
            None => return None,
        };
        self.store_furniture_placement(active, item, container, slot, position, rotation_bits, spawn_furniture, plot_index, intended_use)
    }

    /// The item-removal gate of a housing item move: the outdoor removal
    /// gate in yards, the edit gate elsewhere.
    pub open spec fn spec_item_move_gate(&self, intended_use: TerritoryIntendedUse) -> (Option<ActiveHousingEstate>, ZoneConnection) {
        if intended_use == TerritoryIntendedUse::HousingOutdoor {
            match self.spec_item_removal_gate() {
                Some(g) => (Some(g.0), self.spec_after_outdoor_grant(g)),
                None => (None, *self),
            }
        } else {
            self.spec_edit_outcome(intended_use)
        }
    }

    /// Taking `item` into the bags (or, with `to_storeroom`, the storeroom
    /// containers of the area): the first empty slot there, and the bags
    /// and housing slots afterwards.
    pub open spec fn spec_item_move_taken(
        &self,
        item: Item,
        to_storeroom: bool,
        intended_use: TerritoryIntendedUse,
    ) -> (Option<(ContainerType, u16)>, Seq<Item>, Seq<Item>) {
        let player0 = self.inventory.slots_view();
        let house0 = self.house_inventory.slots_view();
        if to_storeroom {
            let desired = spec_desired_housing_pages(intended_use, true);
            (spec_first_free(StoreKind::Housing, house0, desired), player0, spec_after_add(StoreKind::Housing, house0, item, desired))
        } else {
            (spec_first_free(StoreKind::Player, player0, spec_player_bags()), spec_after_add(StoreKind::Player, player0, item, spec_player_bags()), house0)
        }
    }

    /// What a granted move of the item in housing slot `slot` of
    /// `storage_id` stores once its destination took it (`placed`, giving
    /// slots `player1` and `house1`): with no free slot nothing more
    /// happens (the slots stay as they were); else the source slot is
    /// emptied and the furniture row at the source moves to the storeroom
    /// slot (not placed) or, into the bags, leaves the estate.
    pub open spec fn spec_item_move_stored(
        &self,
        active: ActiveHousingEstate,
        item: Item,
        placed: Option<(ContainerType, u16)>,
        player1: Seq<Item>,
        house1: Seq<Item>,
        to_storeroom: bool,
        storage_id: ContainerType,
        slot: u16,
        intended_use: TerritoryIntendedUse,
        after: ZoneConnection,
        persisted: Option<PersistedHousingItemMove>,
    ) -> bool {
        match placed {
            None => persisted is None && self.spec_is_with_slots(after, player1, house1),
            Some(p) => {
                let removed_from_world = spec_should_broadcast_housing_item_removal(storage_id);
                let object_key = if removed_from_world {
                    match spec_flat_slot_for_container(storage_id, slot) {
                        Some(f) => Some(spec_object_key(active, f, intended_use, active.house_id.unit.apartment_division_plot_index)),
                        None => None,
                    }
                } else {
                    None
                };
                let rows = if to_storeroom {
                    spec_moved_rows(self.database.furniture_view(), active.land_ident, storage_id, slot, Some(p.0), Some(p.1), false)
                } else {
                    spec_moved_rows(self.database.furniture_view(), active.land_ident, storage_id, slot, None, None, false)
                };
                &&& after == (ZoneConnection {
                    inventory: after.inventory,
                    house_inventory: after.house_inventory,
                    database: after.database,
                    ..*self
                })
                &&& after.inventory.slots_view() == player1
                &&& after.house_inventory.slots_view() == spec_store_set(StoreKind::Housing, house1, storage_id, slot, empty_item())
                &&& after.database.estates_view() == self.database.estates_view()
                &&& after.database.furniture_view() == rows
                &&& persisted == Some(PersistedHousingItemMove {
                    item_id: item.item_id,
                    src_container: storage_id,
                    dst_container: p.0,
                    ack_slot: slot,
                    removed_from_world,
                    object_key,
                })
            },
        }
    }

    /// The outcome of taking a housing item into the bags or the
    /// storeroom: the authorization must grant an estate and the housing slot must
    /// hold an item; the rest is `spec_item_move_taken` and
    /// `spec_item_move_stored`.
    pub open spec fn spec_item_moved(
        &self,
        to_storeroom: bool,
        storage_id: ContainerType,
        slot: u16,
        intended_use: TerritoryIntendedUse,
        after: ZoneConnection,
        persisted: Option<PersistedHousingItemMove>,
    ) -> bool {
        let (g, s1) = self.spec_item_move_gate(intended_use);
        match g {
            None => persisted is None && after == s1,
            Some(a) => match s1.house_inventory.spec_get(storage_id, slot) {
                None => persisted is None && after == s1,
                Some(item) => if item.spec_is_empty_slot() {
                    persisted is None && after == s1
                } else {
                    let (placed, player1, house1) = s1.spec_item_move_taken(item, to_storeroom, intended_use);
                    s1.spec_item_move_stored(
                        a, item, placed, player1, house1, to_storeroom, storage_id, slot, intended_use, after, persisted,
                    )
                }
            },
        }
    }

    /// Stores a granted move of a housing item (see
    /// `spec_item_move_taken` and `spec_item_move_stored`).
    fn store_housing_item_move(
        &mut self,
        active: ActiveHousingEstate,
        item: Item,
        to_storeroom: bool,
        storage_id: ContainerType,
        slot: u16,
        intended_use: TerritoryIntendedUse,
    ) -> (persisted: Option<PersistedHousingItemMove>)
        requires
            old(self).wf(),
            old(self).house_inventory.spec_get(storage_id, slot) == Some(item),
            !item.spec_is_empty_slot(),
        ensures
            final(self).wf(),
            ({
                let (placed, player1, house1) = old(self).spec_item_move_taken(item, to_storeroom, intended_use);
                old(self).spec_item_move_stored(
                    active, item, placed, player1, house1, to_storeroom, storage_id, slot, intended_use, *final(self), persisted,
                )
            }),
    {
        let ghost s1 = *self;
        let removed_from_world = should_broadcast_housing_item_removal(storage_id);
        let object_key = if removed_from_world {
            match flat_slot_for_container(storage_id, slot) {
                Some(flat_slot) => {
                    let indoors = intended_use == TerritoryIntendedUse::HousingIndoor;
                    Some(HousingFurnitureObjectKey {
                        slot: flat_slot,
                        indoors,
                        ward_index: if indoors { 0 } else { active.house_id.ward_index },
                        plot_index: active.house_id.unit.apartment_division_plot_index,
                    })
                },
                None => None,
            }
        } else {
            None
        };
        let placed = if !to_storeroom {
            self.inventory.add_in_next_free_slot(item)
        } else {
            let desired = desired_housing_pages(intended_use, true);
            self.house_inventory.add_in_empty_slot(item, &desired)
        };
        let ghost player1 = self.inventory.slots_view();
        let ghost house1 = self.house_inventory.slots_view();
        proof {
            if to_storeroom {
                lemma_added_is_first_free(
                    StoreKind::Housing,
                    s1.house_inventory.slots_view(),
                    item,
                    spec_desired_housing_pages(intended_use, true),
                    placed,
                    house1,
                );
            } else {
                lemma_added_is_first_free(StoreKind::Player, s1.inventory.slots_view(), item, spec_player_bags(), placed, player1);
            }
        }
        assert(s1.spec_item_move_taken(item, to_storeroom, intended_use) == (placed, player1, house1));
        let destination = match placed {
            Some(p) => p,
            None => {
                assert(s1.spec_item_move_stored(
                    active, item, placed, player1, house1, to_storeroom, storage_id, slot, intended_use, *self, None,
                ));
                return None;
            },
        };
        proof {
            if to_storeroom {
                s1.house_inventory.lemma_set_keeps_slots(destination.0, destination.1, item, storage_id, slot);
            }
        }
        let written = self.house_inventory.set_item(storage_id, slot, Item::default());
        assert(written);
        if to_storeroom {
            self.database.move_housing_furniture_to_container(
                active.land_ident,
                storage_id,
                slot,
                Some(destination.0),
                Some(destination.1),
                false,
            );
        } else {
            self.database.move_housing_furniture_to_container(active.land_ident, storage_id, slot, None, None, false);
        }
        let persisted = Some(PersistedHousingItemMove {
            item_id: item.item_id,
            src_container: storage_id,
            dst_container: destination.0,
            ack_slot: slot,
            removed_from_world,
            object_key,
        });
        assert(s1.spec_item_move_stored(
            active, item, placed, player1, house1, to_storeroom, storage_id, slot, intended_use, *self, persisted,
        ));
        persisted
    }

    /// Takes a housing item into the bags or the storeroom (see
    /// `spec_item_moved`).
    pub fn persist_housing_item_move_to_inventory(
        &mut self,
        to_storeroom: bool,
        storage_id: ContainerType,
        slot: u16,
        intended_use: TerritoryIntendedUse,
    ) -> (persisted: Option<PersistedHousingItemMove>)
        requires
            old(self).wf(),
        ensures
            final(self).wf(),
            old(self).spec_item_moved(to_storeroom, storage_id, slot, intended_use, *final(self), persisted),
    {
        let granted = if intended_use == TerritoryIntendedUse::HousingOutdoor {
            self.active_housing_estate_for_outdoor_item_removal()
        } else {
            self.active_housing_estate_for_edit(intended_use)
        };
        let active = match granted {
            Some(a) => a,
            None => return None,
        };
        let item = match self.house_inventory.get_item(storage_id, slot) {
            Some(item) => if !item.is_empty_slot() {
                item
            } else {
                return None;
            },
            None => return None,
        };
        self.store_housing_item_move(active, item, to_storeroom, storage_id, slot, intended_use)
    }
}

} // verus!
