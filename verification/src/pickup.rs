use vstd::prelude::*;
use crate::gold::GoldPouch;
use crate::inventory::{Inventory, item_wf};
use crate::item::{Item, ItemTypeData};
use crate::messages::ServerPacket;
use crate::protocol::{
    DoActionResponseCode, InventoryItemBindingData, InventoryItemContentData,
    InventoryOperationError, InventoryOperationResponseData, InventoryOperationResult,
    PerformActionError, PerformActionResponse,
};
use crate::store::{DroppedItem, PickupState};

verus! {

/// The fixed claim-animation cooldown in milliseconds.
pub const PICKUP_COOLDOWN_MS: u32 = 1000;

/// What one pickup tick produced.
pub struct PickupOutcome {
    pub messages: Vec<ServerPacket>,
    /// The pickup ended (completed or aborted); the component is to be
    /// removed and the actor returns to idle.
    pub remove_pickup: bool,
    /// The ground item was claimed this tick; it is to be removed from the
    /// world now, before the grant is known to succeed.
    pub claim_target: bool,
}

pub open spec fn spec_msg_stop(error: PerformActionError) -> ServerPacket {
    ServerPacket::PerformActionResponse(PerformActionResponse::Stop(error))
}

pub open spec fn spec_msg_do_success() -> ServerPacket {
    ServerPacket::PerformActionResponse(PerformActionResponse::Do(DoActionResponseCode::Success))
}

/// The granted item went into the first free storage slot, with one gain
/// message owed; with no free slot the inventory is unchanged and the one
/// message owed is the typed full-inventory rejection (stated separately).
pub open spec fn spec_granted_or_kept(
    before: Seq<Option<Item>>,
    after: Seq<Option<Item>>,
    item: Item,
    gain_messages: Seq<ServerPacket>,
) -> bool {
    if exists|i: int|
        crate::inventory::FIRST_STORAGE_SLOT <= i < before.len() && before[i] is None {
        exists|slot: int|
            {
                &&& crate::inventory::FIRST_STORAGE_SLOT <= slot < before.len()
                &&& before[slot] is None
                &&& forall|j: int|
                    crate::inventory::FIRST_STORAGE_SLOT <= j < slot ==> before[j] is Some
                &&& after =~= before.update(slot, Some(item))
                &&& gain_messages.len() == 1
            }
    } else {
        after =~= before && gain_messages.len() == 1
    }
}

/// The message granting `item` names the slot that now holds it, the item's
/// static id, and the kind-specific payload.
pub open spec fn spec_gain_message_exact(
    msg: ServerPacket,
    item: Item,
    after: Seq<Option<Item>>,
) -> bool {
    &&& msg matches ServerPacket::InventoryOperationResult(
        InventoryOperationResult::Success(
            InventoryOperationResponseData::GainItem { slot, ref_id, content },
        ),
    )
    &&& msg matches ServerPacket::InventoryOperationResult(
        InventoryOperationResult::Success(
            InventoryOperationResponseData::GainItem { slot, ref_id, content: _ },
        ),
    ) && ref_id == item.reference.ref_id && slot < after.len() && after[slot as int] == Some(item)
}

/// One tick of an in-progress pickup.
///
/// While the claim cooldown runs, it counts down; on expiry the actor is
/// told the action completed and returns to idle. Before the claim, the
/// target is resolved: a ground item that no longer exists aborts the pickup
/// with an invalid-target rejection and changes nothing else — in
/// particular, it cannot affect any other actor's in-progress claim. A
/// resolved item is claimed at once (removed from the world) and granted:
/// gold fills the pouch, anything else goes to the first free storage slot,
/// and a full inventory yields a typed rejection while the claim stands.
pub fn pickup_tick(
    pickup: &mut PickupState,
    delta_ms: u32,
    target_drop: Option<&DroppedItem>,
    inventory: &mut Inventory,
    gold: &mut GoldPouch,
) -> (r: PickupOutcome)
    requires
        old(inventory).wf(),
        old(inventory)@.len() <= u8::MAX,
        match target_drop {
            Some(d) => item_wf(d.item) && (d.item.type_data matches ItemTypeData::Gold { amount }
                ==> old(gold).spec_amount() + amount <= u64::MAX),
            None => true,
        },
    ensures
        final(inventory).wf(),
        final(inventory)@.len() == old(inventory)@.len(),
        match old(pickup).cooldown {
            Some(c) => {
                // the claim was already made: only the cooldown moves
                &&& final(inventory)@ == old(inventory)@
                &&& *final(gold) == *old(gold)
                &&& !r.claim_target
                &&& if c <= delta_ms {
                    r.remove_pickup && r.messages@ =~= seq![
                        spec_msg_stop(PerformActionError::Completed),
                    ]
                } else {
                    !r.remove_pickup && final(pickup).cooldown == Some((c - delta_ms) as u32)
                        && r.messages@.len() == 0
                }
            },
            None => match target_drop {
                None => {
                    // the ground item is gone: abort, touch nothing else
                    &&& final(inventory)@ == old(inventory)@
                    &&& *final(gold) == *old(gold)
                    &&& r.remove_pickup
                    &&& !r.claim_target
                    &&& r.messages@ =~= seq![spec_msg_stop(PerformActionError::InvalidTarget)]
                },
                Some(d) => {
                    &&& r.claim_target
                    &&& !r.remove_pickup
                    &&& final(pickup).cooldown == Some(PICKUP_COOLDOWN_MS)
                    &&& match d.item.type_data {
                        ItemTypeData::Gold { amount } => {
                            &&& final(gold).spec_amount() == old(gold).spec_amount() + amount
                            &&& final(inventory)@ == old(inventory)@
                            &&& r.messages@ =~= seq![spec_msg_do_success()]
                        },
                        ItemTypeData::Equipment { upgrade_level } => {
                            &&& *final(gold) == *old(gold)
                            &&& spec_granted_or_kept(
                                old(inventory)@,
                                final(inventory)@,
                                d.item,
                                r.messages@,
                            )
                            &&& r.messages@.len() == 1
                            &&& (final(inventory)@ != old(inventory)@ ==> spec_gain_message_exact(
                                r.messages@[0],
                                d.item,
                                final(inventory)@,
                            ))
                            &&& (final(inventory)@ == old(inventory)@ ==> r.messages@[0]
                                == ServerPacket::InventoryOperationResult(
                                InventoryOperationResult::Error(
                                    InventoryOperationError::InventoryFull,
                                ),
                            ))
                        },
                        ItemTypeData::Expendable { stack_size } => {
                            &&& *final(gold) == *old(gold)
                            &&& spec_granted_or_kept(
                                old(inventory)@,
                                final(inventory)@,
                                d.item,
                                r.messages@.take(r.messages@.len() - 1),
                            )
                            &&& r.messages@.len() == 2
                            &&& r.messages@.last() == spec_msg_stop(PerformActionError::Completed)
                            &&& (final(inventory)@ != old(inventory)@ ==> spec_gain_message_exact(
                                r.messages@[0],
                                d.item,
                                final(inventory)@,
                            ))
                            &&& (final(inventory)@ == old(inventory)@ ==> r.messages@[0]
                                == ServerPacket::InventoryOperationResult(
                                InventoryOperationResult::Error(
                                    InventoryOperationError::InventoryFull,
                                ),
                            ))
                        },
                    }
                },
            },
        },
{
    if let Some(cooldown) = pickup.cooldown {
        if cooldown <= delta_ms {
            let mut messages: Vec<ServerPacket> = Vec::new();
            messages.push(
                ServerPacket::PerformActionResponse(
                    PerformActionResponse::Stop(PerformActionError::Completed),
                ),
            );
            return PickupOutcome { messages, remove_pickup: true, claim_target: false };
        }
        pickup.cooldown = Some(cooldown - delta_ms);
        return PickupOutcome { messages: Vec::new(), remove_pickup: false, claim_target: false };
    }
    let dropped = match target_drop {
        Some(d) => d,
        None => {
            let mut messages: Vec<ServerPacket> = Vec::new();
            messages.push(
                ServerPacket::PerformActionResponse(
                    PerformActionResponse::Stop(PerformActionError::InvalidTarget),
                ),
            );
            return PickupOutcome { messages, remove_pickup: true, claim_target: false };
        },
    };
    pickup.cooldown = Some(PICKUP_COOLDOWN_MS);
    let mut messages: Vec<ServerPacket> = Vec::new();
    match dropped.item.type_data {
        ItemTypeData::Gold { amount } => {
            gold.gain(amount as u64);
            messages.push(
                ServerPacket::PerformActionResponse(
                    PerformActionResponse::Do(DoActionResponseCode::Success),
                ),
            );
        },
        ItemTypeData::Equipment { upgrade_level } => {
            let variance = match dropped.item.variance {
                Some(v) => v,
                None => 0,
            };
            match inventory.add_item(dropped.item) {
                Some(slot) => {
                    messages.push(
                        ServerPacket::InventoryOperationResult(
                            InventoryOperationResult::Success(
                                InventoryOperationResponseData::GainItem {
                                    slot,
                                    ref_id: dropped.item.reference.ref_id,
                                    content: InventoryItemContentData::Equipment {
                                        plus_level: upgrade_level,
                                        variance,
                                        durability: 1,
                                        magic: Vec::new(),
                                        bindings_1: InventoryItemBindingData { kind: 1, value: 0 },
                                        bindings_2: InventoryItemBindingData { kind: 2, value: 0 },
                                        bindings_3: InventoryItemBindingData { kind: 3, value: 0 },
                                        bindings_4: InventoryItemBindingData { kind: 4, value: 0 },
                                    },
                                },
                            ),
                        ),
                    );
                },
                None => {
                    messages.push(
                        ServerPacket::InventoryOperationResult(
                            InventoryOperationResult::Error(
                                InventoryOperationError::InventoryFull,
                            ),
                        ),
                    );
                },
            }
        },
        ItemTypeData::Expendable { stack_size } => {
            match inventory.add_item(dropped.item) {
                Some(slot) => {
                    messages.push(
                        ServerPacket::InventoryOperationResult(
                            InventoryOperationResult::Success(
                                InventoryOperationResponseData::GainItem {
                                    slot,
                                    ref_id: dropped.item.reference.ref_id,
                                    content: InventoryItemContentData::Expendable { stack_size },
                                },
                            ),
                        ),
                    );
                },
                None => {
                    messages.push(
                        ServerPacket::InventoryOperationResult(
                            InventoryOperationResult::Error(
                                InventoryOperationError::InventoryFull,
                            ),
                        ),
                    );
                },
            }
            messages.push(
                ServerPacket::PerformActionResponse(
                    PerformActionResponse::Stop(PerformActionError::Completed),
                ),
            );
        },
    }
    PickupOutcome { messages, remove_pickup: false, claim_target: true }
}

} // verus!
