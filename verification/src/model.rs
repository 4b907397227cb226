//! A player entity in the game's memory, and the fields the overlay reads
//! from it.
use vstd::prelude::*;
use crate::memory::MemorySnapshot;
use crate::offset;
use crate::text::{c_string_bytes, c_string_text};
use vstd::utf8::{decode_utf8, encode_utf8, valid_utf8};

verus! {

/// Longest player name the game stores, in bytes.
pub const NAME_LEN: usize = 16;

/// A player entity: the game process it lives in and the address of its
/// record there.
pub struct Entity {
    pub process_handle: isize,
    pub base_addr: usize,
}

impl Entity {
    /// The address of the field at `offset` within the entity's record.
    pub fn field_address(&self, offset: u32) -> (address: usize)
        requires
            self.base_addr + offset <= usize::MAX,
        ensures
            address == self.base_addr + offset,
    {
        self.base_addr + offset as usize
    }

    /// The entity's health, read from `memory` (0 where `memory` does not
    /// hold the field).
    pub fn health(&self, memory: &MemorySnapshot) -> (health: i32)
        requires
            self.base_addr + offset::ENTITY_HEALTH <= usize::MAX,
        ensures
            health == memory.spec_read_i32(self.base_addr + offset::ENTITY_HEALTH),
    {
        memory.read_i32(self.field_address(offset::ENTITY_HEALTH))
    }

    /// The entity's team number, read from `memory` (0 where `memory` does
    /// not hold the field).
    pub fn team(&self, memory: &MemorySnapshot) -> (team: i32)
        requires
            self.base_addr + offset::ENTITY_TEAM <= usize::MAX,
        ensures
            team == memory.spec_read_i32(self.base_addr + offset::ENTITY_TEAM),
    {
        memory.read_i32(self.field_address(offset::ENTITY_TEAM))
    }

    /// The frame in which the entity was last visible, read from `memory`
    /// (0 where `memory` does not hold the field).
    pub fn last_visible_frame(&self, memory: &MemorySnapshot) -> (frame: u32)
        requires
            self.base_addr + offset::ENTITY_LAST_VIS_FRAME <= usize::MAX,
        ensures
            frame == memory.spec_read_u32(self.base_addr + offset::ENTITY_LAST_VIS_FRAME),
    {
        memory.read_u32(self.field_address(offset::ENTITY_LAST_VIS_FRAME))
    }

    /// The entity's name: the 16-byte name buffer read from `memory`, up to
    /// its first NUL, decoded leniently as UTF-8 (empty where `memory` does
    /// not hold the buffer).
    pub fn name(&self, memory: &MemorySnapshot) -> (name: String)
        requires
            self.base_addr + offset::ENTITY_NAME <= usize::MAX,
        ensures
            name@ == c_string_text(
                memory.spec_read_bytes(self.base_addr + offset::ENTITY_NAME, NAME_LEN as nat),
            ),
            valid_utf8(c_string_bytes(memory.spec_read_bytes(self.base_addr + offset::ENTITY_NAME, NAME_LEN as nat)))
                ==> name@ == decode_utf8(
                    c_string_bytes(memory.spec_read_bytes(self.base_addr + offset::ENTITY_NAME, NAME_LEN as nat)),
                ) && encode_utf8(name@) == c_string_bytes(
                    memory.spec_read_bytes(self.base_addr + offset::ENTITY_NAME, NAME_LEN as nat),
                ),
            name@.len() <= NAME_LEN,
            encode_utf8(name@).len() <= 3 * NAME_LEN,
            forall|j: int| 0 <= j < name@.len() ==> name@[j] != '\0',
    {
        memory.read_string(self.field_address(offset::ENTITY_NAME), NAME_LEN)
    }
}

} // verus!
