use vstd::prelude::*;
use crate::gold::GoldPouch;
use crate::inventory::{Inventory, spec_can_merge, spec_move_outcome};
use crate::item::{
    Item, ItemTypeData, RefBiologicalType, RefItemData, get_gold_ref_id,
    item_fits_into_equipment_slot, spec_gold_ref_id, spec_item_fits_into_equipment_slot,
};
use crate::messages::ServerPacket;
use crate::objects::{ObjectItem, ObjectType, Race};
use crate::position::{GlobalLocation, Position};
use crate::protocol::{
    CharacterEquipItem, CharacterUnequipItem, InventoryOperationError, InventoryOperationRequest,
    InventoryOperationResponseData, InventoryOperationResult,
};

verus! {

/// A request to spawn a dropped-item object into the world.
#[derive(Copy, Clone, Eq, PartialEq, Structural, Debug)]
pub struct SpawnDrop {
    pub item: Item,
    pub location: GlobalLocation,
    pub owner: Option<u32>,
}

impl SpawnDrop {
    pub fn new(item: Item, location: GlobalLocation, owner: Option<u32>) -> (r: Self)
        ensures
            r == (SpawnDrop { item, location, owner }),
    {
        SpawnDrop { item, location, owner }
    }
}

/// The reference data of a pile of gold of the given size.
pub open spec fn spec_gold_ref_data(amount: u32) -> RefItemData {
    RefItemData {
        ref_id: spec_gold_ref_id(amount),
        object_type: ObjectType::Item(ObjectItem::Gold),
        price: 0u64,
        max_stack_size: 1u16,
        range: 0u16,
        required_level: None,
        biological_type: RefBiologicalType::Both,
        physical_attack_power_lower: 0u32,
        physical_attack_power_upper: 0u32,
        magical_attack_power_lower: 0u32,
        magical_attack_power_upper: 0u32,
        critical: 0u32,
        physical_reinforce_lower: 0u32,
        physical_reinforce_upper: 0u32,
        magical_reinforce_lower: 0u32,
        magical_reinforce_upper: 0u32,
        attack_rate: 0u32,
    }
}

/// The ground item that stands for `amount` dropped coins.
pub open spec fn spec_gold_item(amount: u32) -> Item {
    Item {
        reference: spec_gold_ref_data(amount),
        variance: None,
        type_data: ItemTypeData::Gold { amount },
    }
}

pub fn gold_item(amount: u32) -> (r: Item)
    ensures
        r == spec_gold_item(amount),
{
    Item {
        reference: RefItemData {
            ref_id: get_gold_ref_id(amount),
            object_type: ObjectType::Item(ObjectItem::Gold),
            price: 0,
            max_stack_size: 1,
            range: 0,
            required_level: None,
            biological_type: RefBiologicalType::Both,
            physical_attack_power_lower: 0,
            physical_attack_power_upper: 0,
            magical_attack_power_lower: 0,
            magical_attack_power_upper: 0,
            critical: 0,
            physical_reinforce_lower: 0,
            physical_reinforce_upper: 0,
            magical_reinforce_lower: 0,
            magical_reinforce_upper: 0,
            attack_rate: 0,
        },
        variance: None,
        type_data: ItemTypeData::Gold { amount },
    }
}

/// What a gold drop produces.
pub struct GoldDropOutcome {
    pub accepted: bool,
    pub drop: Option<SpawnDrop>,
    pub messages: Vec<ServerPacket>,
}

pub open spec fn spec_msg_inventory_error(e: InventoryOperationError) -> ServerPacket {
    ServerPacket::InventoryOperationResult(InventoryOperationResult::Error(e))
}

pub open spec fn spec_msg_move_success(source: u8, target: u8, amount: u16) -> ServerPacket {
    ServerPacket::InventoryOperationResult(
        InventoryOperationResult::Success(
            InventoryOperationResponseData::MoveItem { source, target, amount },
        ),
    )
}

pub open spec fn spec_msg_equip(uid: u32, slot: u8, item_ref: u32) -> ServerPacket {
    ServerPacket::CharacterEquipItem(CharacterEquipItem { entity: uid, slot, item_ref })
}

pub open spec fn spec_msg_unequip(uid: u32, slot: u8, item_ref: u32) -> ServerPacket {
    ServerPacket::CharacterUnequipItem(CharacterUnequipItem { entity: uid, slot, item_ref })
}

/// Validate and apply a gold drop of `amount` coins against a balance of
/// `balance`, at `location`: the new balance, the spawned ground object, and
/// the messages for the client.
pub open spec fn spec_gold_drop(balance: u64, amount: u64, location: GlobalLocation) -> (
    u64,
    Option<SpawnDrop>,
    Seq<ServerPacket>,
) {
    if amount > balance {
        (
            balance,
            None,
            seq![spec_msg_inventory_error(InventoryOperationError::NotEnoughGold)],
        )
    } else if amount == 0 {
        (balance, None, Seq::<ServerPacket>::empty())
    } else {
        (
            (balance - amount) as u64,
            Some(
                SpawnDrop {
                    item: spec_gold_item(amount as u32),
                    location,
                    owner: None,
                },
            ),
            seq![
                ServerPacket::InventoryOperationResult(
                    InventoryOperationResult::Success(
                        InventoryOperationResponseData::DropGold { amount },
                    ),
                ),
            ],
        )
    }
}

/// Validate and apply a request to drop gold on the ground.
///
/// The balance after an accepted drop equals the balance before it minus the
/// dropped amount, and no drop object is created for a zero amount or an
/// amount above the balance.
pub fn handle_player_drop_gold(amount: u64, gold: &mut GoldPouch, position: &Position) -> (r:
    GoldDropOutcome)
    requires
        position.wf(),
    ensures
        (final(gold).spec_amount(), r.drop, r.messages@) == spec_gold_drop(
            old(gold).spec_amount(),
            amount,
            position.spec_location(),
        ),
        r.accepted <==> (0 < amount <= old(gold).spec_amount()),
        r.accepted ==> final(gold).spec_amount() == old(gold).spec_amount() - amount,
        !r.accepted ==> final(gold).spec_amount() == old(gold).spec_amount(),
        r.accepted <==> r.drop is Some,
{
    if amount > gold.amount() {
        let mut messages: Vec<ServerPacket> = Vec::new();
        messages.push(
            ServerPacket::InventoryOperationResult(
                InventoryOperationResult::Error(InventoryOperationError::NotEnoughGold),
            ),
        );
        proof {
            assert(messages@ =~= seq![
                spec_msg_inventory_error(InventoryOperationError::NotEnoughGold),
            ]);
        }
        return GoldDropOutcome { accepted: false, drop: None, messages };
    }
    if amount == 0 {
        let messages: Vec<ServerPacket> = Vec::new();
        proof {
            assert(messages@ =~= Seq::<ServerPacket>::empty());
        }
        return GoldDropOutcome { accepted: false, drop: None, messages };
    }
    gold.spend(amount);
    let coins = #[verifier::truncate] (amount as u32);
    let item = gold_item(coins);
    let drop = SpawnDrop::new(item, position.location(), None);
    let mut messages: Vec<ServerPacket> = Vec::new();
    messages.push(
        ServerPacket::InventoryOperationResult(
            InventoryOperationResult::Success(
                InventoryOperationResponseData::DropGold { amount },
            ),
        ),
    );
    proof {
        assert(messages@ =~= spec_gold_drop(
            old(gold).spec_amount(),
            amount,
            position.spec_location(),
        ).2);
    }
    GoldDropOutcome { accepted: true, drop: Some(drop), messages }
}

/// The item in slot `i`, an empty slot when `i` is out of range.
pub open spec fn spec_slot_at(v: Seq<Option<Item>>, i: int) -> Option<Item> {
    if 0 <= i < v.len() {
        v[i]
    } else {
        None
    }
}

/// The result of one slot-move request on the slot sequence `v`: the new
/// slot sequence and the outbound messages, with the equip rule enforced on
/// moves that touch an equipment slot.
pub open spec fn spec_movement_result(
    v: Seq<Option<Item>>,
    source: u8,
    target: u8,
    amount: u16,
    level: u8,
    race: Race,
    uid: u32,
) -> (Seq<Option<Item>>, Seq<ServerPacket>) {
    if source >= v.len() || v[source as int] is None {
        (v, seq![spec_msg_inventory_error(InventoryOperationError::InvalidTarget)])
    } else {
        let src = v[source as int]->Some_0;
        let source_is_equipment = Inventory::spec_is_equipment_slot(source);
        let target_is_equipment = Inventory::spec_is_equipment_slot(target);
        let effective = if amount > 1 {
            amount
        } else {
            1u16
        };
        if !source_is_equipment && target_is_equipment {
            // equip: one unit moves into the equipment slot
            if spec_item_fits_into_equipment_slot(&src, target, level, race) {
                let moved = spec_move_outcome(v, source as int, target as int, 1);
                match moved.1 {
                    Ok(n) => {
                        let base = seq![spec_msg_move_success(source, target, n)];
                        let with_unequip = if spec_slot_at(v, target as int) is Some {
                            base.push(
                                spec_msg_unequip(
                                    uid,
                                    target,
                                    spec_slot_at(v, target as int)->Some_0.reference.ref_id,
                                ),
                            )
                        } else {
                            base
                        };
                        (moved.0, with_unequip.push(spec_msg_equip(uid, target, src.reference.ref_id)))
                    },
                    Err(_) => (moved.0, Seq::<ServerPacket>::empty()),
                }
            } else {
                (v, seq![spec_msg_inventory_error(InventoryOperationError::Indisposable)])
            }
        } else if source_is_equipment && !target_is_equipment {
            // unequip, possibly swapping another fitting item in
            match spec_slot_at(v, target as int) {
                Some(swapped_in) => if spec_item_fits_into_equipment_slot(
                    &swapped_in,
                    source,
                    level,
                    race,
                ) {
                    let moved = spec_move_outcome(v, source as int, target as int, effective);
                    match moved.1 {
                        Ok(n) => (
                            moved.0,
                            seq![
                                spec_msg_move_success(source, target, n),
                                spec_msg_unequip(uid, source, src.reference.ref_id),
                                spec_msg_equip(uid, source, swapped_in.reference.ref_id),
                            ],
                        ),
                        Err(_) => (moved.0, Seq::<ServerPacket>::empty()),
                    }
                } else {
                    (v, seq![spec_msg_inventory_error(InventoryOperationError::Indisposable)])
                },
                None => {
                    let moved = spec_move_outcome(v, source as int, target as int, effective);
                    match moved.1 {
                        Ok(n) => (
                            moved.0,
                            seq![
                                spec_msg_move_success(source, target, n),
                                spec_msg_unequip(uid, source, src.reference.ref_id),
                            ],
                        ),
                        Err(_) => (moved.0, Seq::<ServerPacket>::empty()),
                    }
                },
            }
        } else if !source_is_equipment && !target_is_equipment {
            // plain storage move
            let moved = spec_move_outcome(v, source as int, target as int, effective);
            match moved.1 {
                Ok(n) => (moved.0, seq![spec_msg_move_success(source, target, n)]),
                Err(_) => (moved.0, Seq::<ServerPacket>::empty()),
            }
        } else {
            // equipment-to-equipment rearrangement is validated but not applied
            if spec_item_fits_into_equipment_slot(&src, target, level, race) {
                (v, Seq::<ServerPacket>::empty())
            } else {
                (v, seq![spec_msg_inventory_error(InventoryOperationError::Indisposable)])
            }
        }
    }
}

/// Validate and apply one slot-move request, producing the messages the
/// client is owed: the move result, and the equip/unequip notifications for
/// the equipment slots whose occupancy changed.
pub fn handle_inventory_movement(
    inventory: &mut Inventory,
    source: u8,
    target: u8,
    amount: u16,
    level: u8,
    race: Race,
    uid: u32,
) -> (msgs: Vec<ServerPacket>)
    requires
        old(inventory).wf(),
    ensures
        final(inventory).wf(),
        final(inventory)@ =~= spec_movement_result(
            old(inventory)@,
            source,
            target,
            amount,
            level,
            race,
            uid,
        ).0,
        msgs@ =~= spec_movement_result(
            old(inventory)@,
            source,
            target,
            amount,
            level,
            race,
            uid,
        ).1,
{
    let mut msgs: Vec<ServerPacket> = Vec::new();
    let source_item = match inventory.get_item_at(source) {
        Some(item) => *item,
        None => {
            msgs.push(
                ServerPacket::InventoryOperationResult(
                    InventoryOperationResult::Error(InventoryOperationError::InvalidTarget),
                ),
            );
            return msgs;
        },
    };
    let effective = if amount > 1 {
        amount
    } else {
        1
    };
    let ghost expected = spec_movement_result(old(inventory)@, source, target, amount, level, race, uid);
    let source_is_equipment = Inventory::is_equipment_slot(source);
    let target_is_equipment = Inventory::is_equipment_slot(target);
    if !source_is_equipment && target_is_equipment {
        if item_fits_into_equipment_slot(&source_item, target, level, race) {
            let old_target = match inventory.get_item_at(target) {
                Some(item) => Some(*item),
                None => None,
            };
            match inventory.move_item(source, target, 1) {
                Ok(n) => {
                    msgs.push(
                        ServerPacket::InventoryOperationResult(
                            InventoryOperationResult::Success(
                                InventoryOperationResponseData::MoveItem {
                                    source,
                                    target,
                                    amount: n,
                                },
                            ),
                        ),
                    );
                    if let Some(old_item) = old_target {
                        msgs.push(
                            ServerPacket::CharacterUnequipItem(
                                CharacterUnequipItem {
                                    entity: uid,
                                    slot: target,
                                    item_ref: old_item.reference.ref_id,
                                },
                            ),
                        );
                    }
                    msgs.push(
                        ServerPacket::CharacterEquipItem(
                            CharacterEquipItem {
                                entity: uid,
                                slot: target,
                                item_ref: source_item.reference.ref_id,
                            },
                        ),
                    );
                },
                Err(_) => {},
            }
        } else {
            msgs.push(
                ServerPacket::InventoryOperationResult(
                    InventoryOperationResult::Error(InventoryOperationError::Indisposable),
                ),
            );
        }
        proof { assert(msgs@ =~= expected.1); }
    } else if source_is_equipment && !target_is_equipment {
        let old_target = match inventory.get_item_at(target) {
            Some(item) => Some(*item),
            None => None,
        };
        match old_target {
            Some(swapped_in) => {
                if item_fits_into_equipment_slot(&swapped_in, source, level, race) {
                    match inventory.move_item(source, target, effective) {
                        Ok(n) => {
                            msgs.push(
                                ServerPacket::InventoryOperationResult(
                                    InventoryOperationResult::Success(
                                        InventoryOperationResponseData::MoveItem {
                                            source,
                                            target,
                                            amount: n,
                                        },
                                    ),
                                ),
                            );
                            msgs.push(
                                ServerPacket::CharacterUnequipItem(
                                    CharacterUnequipItem {
                                        entity: uid,
                                        slot: source,
                                        item_ref: source_item.reference.ref_id,
                                    },
                                ),
                            );
                            msgs.push(
                                ServerPacket::CharacterEquipItem(
                                    CharacterEquipItem {
                                        entity: uid,
                                        slot: source,
                                        item_ref: swapped_in.reference.ref_id,
                                    },
                                ),
                            );
                        },
                        Err(_) => {},
                    }
                } else {
                    msgs.push(
                        ServerPacket::InventoryOperationResult(
                            InventoryOperationResult::Error(InventoryOperationError::Indisposable),
                        ),
                    );
                }
            },
            None => {
                match inventory.move_item(source, target, effective) {
                    Ok(n) => {
                        msgs.push(
                            ServerPacket::InventoryOperationResult(
                                InventoryOperationResult::Success(
                                    InventoryOperationResponseData::MoveItem {
                                        source,
                                        target,
                                        amount: n,
                                    },
                                ),
                            ),
                        );
                        msgs.push(
                            ServerPacket::CharacterUnequipItem(
                                CharacterUnequipItem {
                                    entity: uid,
                                    slot: source,
                                    item_ref: source_item.reference.ref_id,
                                },
                            ),
                        );
                    },
                    Err(_) => {},
                }
            },
        }
        proof { assert(msgs@ =~= expected.1); }
    } else if !source_is_equipment && !target_is_equipment {
        match inventory.move_item(source, target, effective) {
            Ok(n) => {
                msgs.push(
                    ServerPacket::InventoryOperationResult(
                        InventoryOperationResult::Success(
                            InventoryOperationResponseData::MoveItem {
                                source,
                                target,
                                amount: n,
                            },
                        ),
                    ),
                );
            },
            Err(_) => {},
        }
        proof { assert(msgs@ =~= expected.1); }
    } else {
        if item_fits_into_equipment_slot(&source_item, target, level, race) {
            // rearranging between equipment slots is accepted without effect
        } else {
            msgs.push(
                ServerPacket::InventoryOperationResult(
                    InventoryOperationResult::Error(InventoryOperationError::Indisposable),
                ),
            );
        }
        proof { assert(msgs@ =~= expected.1); }
    }
    msgs
}

/// Law: a move from a storage slot into an equipment slot succeeds if and
/// only if the item's type matches the slot, its required level does not
/// exceed the actor's level, and its family matches the actor's race; on
/// success the client is owed the move result, the equip notification for
/// the slot, and an unequip notification exactly when the slot was occupied.
/// (A target stack of the same expendable kind that is already full is left
/// out: such a merge is refused by the slot map itself.)
pub proof fn lemma_equip_move_exact(
    v: Seq<Option<Item>>,
    source: u8,
    target: u8,
    amount: u16,
    level: u8,
    race: Race,
    uid: u32,
)
    requires
        source < v.len(),
        target < v.len(),
        source != target,
        !Inventory::spec_is_equipment_slot(source),
        Inventory::spec_is_equipment_slot(target),
        v[source as int] is Some,
        crate::inventory::opt_item_wf(v[source as int]),
        crate::inventory::opt_item_wf(v[target as int]),
        v[target as int] matches Some(dst) ==> !(spec_can_merge(v[source as int]->Some_0, dst)
            && dst.reference.max_stack_size <= dst.type_data->Expendable_stack_size),
    ensures
        ({
            let src = v[source as int]->Some_0;
            let fits = spec_item_fits_into_equipment_slot(&src, target, level, race);
            let outcome = spec_movement_result(v, source, target, amount, level, race, uid);
            &&& fits ==> {
                &&& outcome.0[target as int] is Some
                &&& outcome.0[target as int]->Some_0.reference.ref_id == src.reference.ref_id
                &&& outcome.1.len() == (if v[target as int] is Some {
                    3int
                } else {
                    2int
                })
                &&& outcome.1[0] == spec_msg_move_success(source, target, 1)
                &&& v[target as int] matches Some(old_item) ==> outcome.1[1] == spec_msg_unequip(
                    uid,
                    target,
                    old_item.reference.ref_id,
                )
                &&& outcome.1.last() == spec_msg_equip(uid, target, src.reference.ref_id)
            }
            &&& !fits ==> {
                &&& outcome.0 == v
                &&& outcome.1 =~= seq![
                    spec_msg_inventory_error(InventoryOperationError::Indisposable),
                ]
            }
        }),
{
    let src = v[source as int]->Some_0;
    if spec_item_fits_into_equipment_slot(&src, target, level, race) {
        let moved = spec_move_outcome(v, source as int, target as int, 1);
        match v[target as int] {
            None => {
                match src.type_data {
                    ItemTypeData::Expendable { stack_size } => {
                        if 1 < stack_size {
                            assert(moved.1 == Ok::<u16, crate::inventory::MoveError>(1u16));
                        } else {
                            assert(stack_size == 1);
                            assert(moved.1 == Ok::<u16, crate::inventory::MoveError>(1u16));
                        }
                    },
                    _ => {
                        assert(moved.1 == Ok::<u16, crate::inventory::MoveError>(1u16));
                    },
                }
            },
            Some(dst) => {
                if spec_can_merge(src, dst) {
                    let dst_stack = dst.type_data->Expendable_stack_size;
                    let space = dst.reference.max_stack_size - dst_stack;
                    assert(space > 0);
                    let src_stack = src.type_data->Expendable_stack_size;
                    assert(src_stack >= 1);
                    assert(moved.1 == Ok::<u16, crate::inventory::MoveError>(1u16));
                    assert(moved.0[target as int] == Some(
                        crate::inventory::spec_with_stack(dst, (dst_stack + 1) as u16),
                    ));
                } else {
                    assert(moved.1 == Ok::<u16, crate::inventory::MoveError>(1u16));
                }
            },
        }
    }
}

/// The per-actor outcome of one inventory request.
pub struct InventoryInputOutcome {
    pub messages: Vec<ServerPacket>,
    pub drop: Option<SpawnDrop>,
}

/// Dispatch one client inventory request: gold drops and slot moves are
/// validated and applied; pickup and item-drop requests are resolved by the
/// pickup pipeline and create no inventory change here.
pub fn handle_inventory_input(
    request: &InventoryOperationRequest,
    inventory: &mut Inventory,
    gold: &mut GoldPouch,
    position: &Position,
    level: u8,
    race: Race,
    uid: u32,
) -> (r: InventoryInputOutcome)
    requires
        old(inventory).wf(),
        position.wf(),
    ensures
        final(inventory).wf(),
        match *request {
            InventoryOperationRequest::DropGold { amount } => {
                &&& (final(gold).spec_amount(), r.drop, r.messages@) == spec_gold_drop(
                    old(gold).spec_amount(),
                    amount,
                    position.spec_location(),
                )
                &&& final(inventory)@ == old(inventory)@
            },
            InventoryOperationRequest::Move { source, target, amount } => {
                &&& final(inventory)@ =~= spec_movement_result(
                    old(inventory)@,
                    source,
                    target,
                    amount,
                    level,
                    race,
                    uid,
                ).0
                &&& r.messages@ =~= spec_movement_result(
                    old(inventory)@,
                    source,
                    target,
                    amount,
                    level,
                    race,
                    uid,
                ).1
                &&& r.drop is None
                &&& *final(gold) == *old(gold)
            },
            _ => {
                &&& final(inventory)@ == old(inventory)@
                &&& *final(gold) == *old(gold)
                &&& r.messages@ == Seq::<ServerPacket>::empty()
                &&& r.drop is None
            },
        },
{
    match *request {
        InventoryOperationRequest::DropGold { amount } => {
            let outcome = handle_player_drop_gold(amount, gold, position);
            InventoryInputOutcome { messages: outcome.messages, drop: outcome.drop }
        },
        InventoryOperationRequest::Move { source, target, amount } => {
            let msgs = handle_inventory_movement(
                inventory,
                source,
                target,
                amount,
                level,
                race,
                uid,
            );
            InventoryInputOutcome { messages: msgs, drop: None }
        },
        _ => {
            InventoryInputOutcome { messages: Vec::new(), drop: None }
        },
    }
}

} // verus!
