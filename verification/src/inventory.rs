use vstd::prelude::*;
use crate::item::{Item, ItemTypeData};

verus! {

/// Slot indices below this bound are equipment slots; general storage starts
/// here.
pub const FIRST_STORAGE_SLOT: u8 = 13;

/// Why a slot move was refused.
#[derive(Copy, Clone, Eq, PartialEq, Structural, Debug)]
pub enum MoveError {
    /// The slots are out of range, equal, or the amount is zero.
    Impossible,
    /// The source slot holds no item.
    ItemDoesNotExist,
    /// The target stack has no room left.
    NotStackable,
}

/// A well-formed item: an expendable stack holds at least one unit and no
/// more than its reference data allows.
pub open spec fn item_wf(item: Item) -> bool {
    match item.type_data {
        ItemTypeData::Expendable { stack_size } => 1 <= stack_size
            <= item.reference.max_stack_size,
        _ => true,
    }
}

pub open spec fn opt_item_wf(o: Option<Item>) -> bool {
    match o {
        Some(item) => item_wf(item),
        None => true,
    }
}

/// Replace the stack size of an expendable item.
pub open spec fn spec_with_stack(item: Item, stack: u16) -> Item {
    Item { type_data: ItemTypeData::Expendable { stack_size: stack }, ..item }
}

/// Whether two occupied slots can merge: both expendable, same item kind.
pub open spec fn spec_can_merge(src: Item, dst: Item) -> bool {
    &&& src.reference.ref_id == dst.reference.ref_id
    &&& src.type_data is Expendable
    &&& dst.type_data is Expendable
}

/// The result of a slot move on the slot sequence `v`: the new slot sequence
/// and the moved amount, or the typed error. No slot changes on an error.
pub open spec fn spec_move_outcome(
    v: Seq<Option<Item>>,
    source: int,
    target: int,
    amount: u16,
) -> (Seq<Option<Item>>, Result<u16, MoveError>) {
    if source < 0 || source >= v.len() || target < 0 || target >= v.len() || source == target
        || amount == 0 {
        (v, Err(MoveError::Impossible))
    } else if v[source] is None {
        (v, Err(MoveError::ItemDoesNotExist))
    } else {
        let src = v[source]->Some_0;
        match v[target] {
            None => match src.type_data {
                ItemTypeData::Expendable { stack_size } => if amount < stack_size {
                    // split the stack
                    (
                        v.update(source, Some(spec_with_stack(src, (stack_size - amount) as u16)))
                            .update(target, Some(spec_with_stack(src, amount))),
                        Ok(amount),
                    )
                } else {
                    (v.update(source, None).update(target, Some(src)), Ok(stack_size))
                },
                _ => (v.update(source, None).update(target, Some(src)), Ok(1u16)),
            },
            Some(dst) => if spec_can_merge(src, dst) {
                let src_stack = src.type_data->Expendable_stack_size;
                let dst_stack = dst.type_data->Expendable_stack_size;
                let space = dst.reference.max_stack_size - dst_stack;
                if space <= 0 {
                    (v, Err(MoveError::NotStackable))
                } else {
                    let moved = vstd::math::min(
                        amount as int,
                        vstd::math::min(src_stack as int, space),
                    );
                    let new_source = if moved == src_stack {
                        None
                    } else {
                        Some(spec_with_stack(src, (src_stack - moved) as u16))
                    };
                    (
                        v.update(source, new_source).update(
                            target,
                            Some(spec_with_stack(dst, (dst_stack + moved) as u16)),
                        ),
                        Ok(moved as u16),
                    )
                }
            } else {
                // swap the two items
                (v.update(source, Some(dst)).update(target, Some(src)), Ok(1u16))
            },
        }
    }
}

/// A fixed-size ordered slot map; the slots below `FIRST_STORAGE_SLOT` are
/// the equipment slots.
#[derive(Clone, Eq, PartialEq, Debug)]
pub struct Inventory {
    slots: Vec<Option<Item>>,
}

impl View for Inventory {
    type V = Seq<Option<Item>>;

    closed spec fn view(&self) -> Seq<Option<Item>> {
        self.slots@
    }
}

impl Inventory {
    /// Every held item is well-formed.
    pub open spec fn wf(&self) -> bool {
        forall|i: int| 0 <= i < self@.len() ==> opt_item_wf(#[trigger] self@[i])
    }

    pub fn new(size: u8) -> (r: Inventory)
        requires
            size >= FIRST_STORAGE_SLOT,
        ensures
            r@.len() == size,
            forall|i: int| 0 <= i < size ==> r@[i] is None,
            r.wf(),
    {
        let mut slots: Vec<Option<Item>> = Vec::new();
        let mut i: u8 = 0;
        while i < size
            invariant
                i <= size,
                slots@.len() == i,
                forall|j: int| 0 <= j < i ==> slots@[j] is None,
            decreases size - i,
        {
            slots.push(None);
            i = i + 1;
        }
        Inventory { slots }
    }

    pub fn size(&self) -> (r: usize)
        ensures
            r == self@.len(),
    {
        self.slots.len()
    }

    /// Whether a slot index denotes an equipment slot.
    pub open spec fn spec_is_equipment_slot(slot: u8) -> bool {
        slot < FIRST_STORAGE_SLOT
    }

    pub fn is_equipment_slot(slot: u8) -> (r: bool)
        ensures
            r == Self::spec_is_equipment_slot(slot),
    {
        slot < FIRST_STORAGE_SLOT
    }

    pub fn get_item_at(&self, slot: u8) -> (r: Option<&Item>)
        ensures
            match r {
                Some(item) => slot < self@.len() && self@[slot as int] == Some(*item),
                None => slot >= self@.len() || self@[slot as int] is None,
            },
    {
        if (slot as usize) < self.slots.len() {
            self.slots[slot as usize].as_ref()
        } else {
            None
        }
    }

    /// Place an item into a slot directly; establishes nothing about fit
    /// rules and is meant for spawn-time setup.
    pub fn put_item_at(&mut self, slot: u8, item: Item)
        requires
            slot < old(self)@.len(),
            item_wf(item),
        ensures
            final(self)@ == old(self)@.update(slot as int, Some(item)),
            old(self).wf() ==> final(self).wf(),
    {
        self.slots[slot as usize] = Some(item);
        assert(forall|i: int|
            0 <= i < self@.len() && i != slot as int ==> self@[i] == old(self)@[i]);
    }

    /// Insert an item into the first free general-storage slot, if any.
    pub fn add_item(&mut self, item: Item) -> (r: Option<u8>)
        requires
            item_wf(item),
            old(self)@.len() <= u8::MAX,
        ensures
            match r {
                Some(slot) => {
                    &&& FIRST_STORAGE_SLOT <= slot < old(self)@.len()
                    &&& old(self)@[slot as int] is None
                    &&& forall|i: int|
                        FIRST_STORAGE_SLOT <= i < slot ==> old(self)@[i] is Some
                    &&& final(self)@ == old(self)@.update(slot as int, Some(item))
                },
                None => {
                    &&& final(self)@ == old(self)@
                    &&& forall|i: int|
                        FIRST_STORAGE_SLOT <= i < old(self)@.len() ==> old(self)@[i] is Some
                },
            },
            old(self).wf() ==> final(self).wf(),
    {
        let mut slot: u8 = FIRST_STORAGE_SLOT;
        while (slot as usize) < self.slots.len()
            invariant
                self@ == old(self)@,
                item_wf(item),
                FIRST_STORAGE_SLOT <= slot,
                self@.len() <= u8::MAX,
                forall|i: int| FIRST_STORAGE_SLOT <= i < slot ==> self@[i] is Some,
            decreases self@.len() - slot,
        {
            if self.slots[slot as usize].is_none() {
                self.slots[slot as usize] = Some(item);
                proof {
                    if old(self).wf() {
                        assert forall|i: int| 0 <= i < self@.len() implies opt_item_wf(
                            #[trigger] self@[i],
                        ) by {
                            if i != slot as int {
                                assert(opt_item_wf(old(self)@[i]));
                            }
                        }
                    }
                }
                return Some(slot);
            }
            slot = slot + 1;
        }
        None
    }

    /// Move `amount` units from the source slot to the target slot: a whole
    /// move into an empty slot, a stack split, a merge into a matching stack,
    /// or a swap of two unrelated items. Nothing changes on an error.
    pub fn move_item(&mut self, source: u8, target: u8, amount: u16) -> (r: Result<
        u16,
        MoveError,
    >)
        requires
            old(self).wf(),
        ensures
            (final(self)@, r) == spec_move_outcome(
                old(self)@,
                source as int,
                target as int,
                amount,
            ),
            final(self).wf(),
    {
        let len = self.slots.len();
        if source as usize >= len || target as usize >= len || source == target || amount == 0 {
            return Err(MoveError::Impossible);
        }
        let source_item = match &self.slots[source as usize] {
            Some(item) => item.clone(),
            None => {
                return Err(MoveError::ItemDoesNotExist);
            },
        };
        assert(opt_item_wf(self@[source as int]));
        assert(opt_item_wf(self@[target as int]));
        match &self.slots[target as usize] {
            None => {
                match source_item.type_data {
                    ItemTypeData::Expendable { stack_size } => {
                        if amount < stack_size {
                            let mut remainder = source_item.clone();
                            remainder.type_data = ItemTypeData::Expendable {
                                stack_size: stack_size - amount,
                            };
                            let mut split = source_item.clone();
                            split.type_data = ItemTypeData::Expendable { stack_size: amount };
                            self.slots[source as usize] = Some(remainder);
                            self.slots[target as usize] = Some(split);
                            Ok(amount)
                        } else {
                            self.slots[source as usize] = None;
                            self.slots[target as usize] = Some(source_item);
                            Ok(stack_size)
                        }
                    },
                    _ => {
                        self.slots[source as usize] = None;
                        self.slots[target as usize] = Some(source_item);
                        Ok(1)
                    },
                }
            },
            Some(target_item) => {
                let target_item = target_item.clone();
                let can_merge = source_item.reference.ref_id == target_item.reference.ref_id
                    && matches!(source_item.type_data, ItemTypeData::Expendable { .. })
                    && matches!(target_item.type_data, ItemTypeData::Expendable { .. });
                if can_merge {
                    let src_stack = match source_item.type_data {
                        ItemTypeData::Expendable { stack_size } => stack_size,
                        _ => 1,
                    };
                    let dst_stack = match target_item.type_data {
                        ItemTypeData::Expendable { stack_size } => stack_size,
                        _ => 1,
                    };
                    let space = target_item.reference.max_stack_size - dst_stack;
                    if space == 0 {
                        return Err(MoveError::NotStackable);
                    }
                    let mut moved = amount;
                    if src_stack < moved {
                        moved = src_stack;
                    }
                    if space < moved {
                        moved = space;
                    }
                    if moved == src_stack {
                        self.slots[source as usize] = None;
                    } else {
                        let mut remainder = source_item.clone();
                        remainder.type_data = ItemTypeData::Expendable {
                            stack_size: src_stack - moved,
                        };
                        self.slots[source as usize] = Some(remainder);
                    }
                    let mut merged = target_item.clone();
                    merged.type_data = ItemTypeData::Expendable { stack_size: dst_stack + moved };
                    self.slots[target as usize] = Some(merged);
                    Ok(moved)
                } else {
                    self.slots[source as usize] = Some(target_item);
                    self.slots[target as usize] = Some(source_item);
                    Ok(1)
                }
            },
        }
    }
}

} // verus!
