//! A fixed set of four slots that hold the block records fetched last.
use vstd::prelude::*;
use serde_json::Value;
use crate::json::{is_json_null, json_null_ref};

verus! {

/// What the cache's form shows: the block number to fetch and the slot that
/// the fetched record goes to.
pub struct BlockCacheUiState {
    pub block_number: u64,
    pub cache_index: u8,
}

/// Four slots, numbered 1 to 4, each holding the last JSON value written to
/// it; a slot never written holds `null`.
pub struct BlockCache {
    block_1: Value,
    block_2: Value,
    block_3: Value,
    block_4: Value,
    state: BlockCacheUiState,
}

/// Slot numbers run from 1 to 4.
pub open spec fn valid_slot(slot: u8) -> bool {
    1 <= slot <= 4
}

/// The slots after `v` is written to slot `slot`.
pub open spec fn slots_after_set(slots: Seq<Value>, slot: u8, v: Value) -> Seq<Value> {
    if valid_slot(slot) {
        slots.update(slot - 1, v)
    } else {
        slots
    }
}

impl View for BlockCache {
    type V = Seq<Value>;

    /// The four slots in order: slot `n` is at index `n - 1`.
    closed spec fn view(&self) -> Seq<Value> {
        seq![self.block_1, self.block_2, self.block_3, self.block_4]
    }
}

impl BlockCacheUiState {
    pub fn new() -> (r: BlockCacheUiState)
        ensures
            r.block_number == 0,
            r.cache_index == 0,
    {
        BlockCacheUiState { block_number: 0, cache_index: 0 }
    }
}

impl BlockCache {
    pub closed spec fn spec_ui_state(&self) -> BlockCacheUiState {
        self.state
    }

    /// A cache whose four slots hold `null`.
    pub fn new() -> (r: BlockCache)
        ensures
            r@.len() == 4,
            forall|i: int| 0 <= i < 4 ==> is_json_null(#[trigger] r@[i]),
            r.spec_ui_state().block_number == 0,
            r.spec_ui_state().cache_index == 0,
    {
        BlockCache {
            block_1: json_null_ref().clone(),
            block_2: json_null_ref().clone(),
            block_3: json_null_ref().clone(),
            block_4: json_null_ref().clone(),
            state: BlockCacheUiState::new(),
        }
    }

    /// Writes `value` to slot `block`; a slot number outside 1 to 4 changes
    /// nothing.
    pub fn set(&mut self, block: u8, value: Value)
        ensures
            final(self)@.len() == 4,
            final(self)@ == slots_after_set(old(self)@, block, value),
            final(self).spec_ui_state() == old(self).spec_ui_state(),
    {
        match block {
            1 => self.block_1 = value,
            2 => self.block_2 = value,
            3 => self.block_3 = value,
            4 => self.block_4 = value,
            _ => {},
        }
        proof {
            if valid_slot(block) {
                assert(self@ =~= old(self)@.update(block - 1, value));
            } else {
                assert(self@ =~= old(self)@);
            }
        }
    }

    /// The value last written to slot `block`; `null` for a slot number
    /// outside 1 to 4.
    pub fn get(&self, block: u8) -> (r: &Value)
        ensures
            self@.len() == 4,
            valid_slot(block) ==> *r == self@[block - 1],
            !valid_slot(block) ==> is_json_null(*r),
    {
        match block {
            1 => &self.block_1,
            2 => &self.block_2,
            3 => &self.block_3,
            4 => &self.block_4,
            _ => json_null_ref(),
        }
    }

    /// The form's state.
    pub fn ui_state(&self) -> (r: &BlockCacheUiState)
        ensures
            *r == self.spec_ui_state(),
    {
        &self.state
    }

    /// The form's state, to be edited in place; the slots stay.
    pub fn ui_state_mut(&mut self) -> (r: &mut BlockCacheUiState)
        ensures
            *r == old(self).spec_ui_state(),
            final(self).spec_ui_state() == *final(r),
            final(self)@ == old(self)@,
    {
        &mut self.state
    }
}

/// Every cache has four slots.
pub proof fn lemma_four_slots(c: BlockCache)
    ensures
        c@.len() == 4,
{
}

/// A slot written and then read gives back what was written, and the other
/// slots keep their values; writing to a slot number outside 1 to 4 changes
/// no slot (and reading one gives `null`, as `get` states).
pub proof fn lemma_get_after_set(c: BlockCache, slot: u8, v: Value)
    ensures
        slots_after_set(c@, slot, v).len() == 4,
        valid_slot(slot) ==> slots_after_set(c@, slot, v)[slot - 1] == v,
        forall|other: u8|
            valid_slot(other) && other != slot ==> #[trigger] slots_after_set(c@, slot, v)[other - 1]
                == c@[other - 1],
        !valid_slot(slot) ==> slots_after_set(c@, slot, v) == c@,
{
}

} // verus!
