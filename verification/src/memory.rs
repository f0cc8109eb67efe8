//! The memory: one buffer, seen as a text segment of instruction slots
//! followed by a data segment of bytes.

use vstd::prelude::*;
use crate::op::OP_SIZE;

verus! {

/// Size of the whole buffer in bytes.
pub const MEM_SIZE: usize = 1024;

/// Size of the text segment: the first quarter of the buffer.
pub const TEXT_SIZE: usize = MEM_SIZE / 4;

/// Size of the data segment: the rest of the buffer.
pub const DATA_SIZE: usize = MEM_SIZE - TEXT_SIZE;

/// Number of instruction slots in the text segment.
pub const TEXT_SLOTS: usize = TEXT_SIZE / OP_SIZE;

/// The buffer in which every byte is zero.
pub open spec fn zeroed_memory() -> Seq<u8> {
    Seq::new(MEM_SIZE as nat, |i: int| 0u8)
}

/// The four bytes of text slot `index`.
pub open spec fn text_slot(mem: Seq<u8>, index: int) -> Seq<u8> {
    mem.subrange(index * OP_SIZE, index * OP_SIZE + OP_SIZE)
}

/// The byte at `offset` of the data segment.
pub open spec fn data_byte(mem: Seq<u8>, offset: int) -> u8 {
    mem[TEXT_SIZE + offset]
}

/// `mem` with text slot `index` holding `bytes`.
pub open spec fn with_text_slot(mem: Seq<u8>, index: int, bytes: Seq<u8>) -> Seq<u8> {
    Seq::new(
        mem.len(),
        |i: int|
            if index * OP_SIZE <= i < index * OP_SIZE + OP_SIZE {
                bytes[i - index * OP_SIZE]
            } else {
                mem[i]
            },
    )
}

/// `mem` with the data byte at `offset` holding `value`.
pub open spec fn with_data_byte(mem: Seq<u8>, offset: int, value: u8) -> Seq<u8> {
    mem.update(TEXT_SIZE + offset, value)
}

/// Whether buffer position `i` lies in the text segment.
pub open spec fn in_text(i: int) -> bool {
    0 <= i < TEXT_SIZE
}

/// Whether buffer position `i` lies in the data segment.
pub open spec fn in_data(i: int) -> bool {
    TEXT_SIZE <= i < TEXT_SIZE + DATA_SIZE
}

/// The two segments do not overlap and together cover the buffer: every
/// position of the buffer lies in exactly one of them.
pub proof fn lemma_segments_partition(i: int)
    ensures
        TEXT_SIZE + DATA_SIZE == MEM_SIZE,
        TEXT_SLOTS * OP_SIZE == TEXT_SIZE,
        0 <= i < MEM_SIZE <==> in_text(i) || in_data(i),
        !(in_text(i) && in_data(i)),
{
}

/// A text slot holds what was last written to it.
pub proof fn lemma_text_slot_written(mem: Seq<u8>, index: int, bytes: Seq<u8>)
    requires
        mem.len() == MEM_SIZE,
        0 <= index < TEXT_SLOTS,
        bytes.len() == OP_SIZE,
    ensures
        text_slot(with_text_slot(mem, index, bytes), index) == bytes,
{
    assert(text_slot(with_text_slot(mem, index, bytes), index) =~= bytes);
}

/// Writing a text slot changes no other text slot.
pub proof fn lemma_text_write_keeps_other_slots(
    mem: Seq<u8>,
    index: int,
    bytes: Seq<u8>,
    other: int,
)
    requires
        mem.len() == MEM_SIZE,
        0 <= index < TEXT_SLOTS,
        0 <= other < TEXT_SLOTS,
        other != index,
        bytes.len() == OP_SIZE,
    ensures
        text_slot(with_text_slot(mem, index, bytes), other) == text_slot(mem, other),
{
    assert(text_slot(with_text_slot(mem, index, bytes), other) =~= text_slot(mem, other));
}

/// A write to the text segment is never seen by a read of the data segment.
pub proof fn lemma_text_write_keeps_data(mem: Seq<u8>, index: int, bytes: Seq<u8>, offset: int)
    requires
        mem.len() == MEM_SIZE,
        0 <= index < TEXT_SLOTS,
        bytes.len() == OP_SIZE,
        0 <= offset < DATA_SIZE,
    ensures
        data_byte(with_text_slot(mem, index, bytes), offset) == data_byte(mem, offset),
{
}

/// A write to the data segment is never seen by a read of the text segment.
pub proof fn lemma_data_write_keeps_text(mem: Seq<u8>, offset: int, value: u8, index: int)
    requires
        mem.len() == MEM_SIZE,
        0 <= offset < DATA_SIZE,
        0 <= index < TEXT_SLOTS,
    ensures
        text_slot(with_data_byte(mem, offset, value), index) == text_slot(mem, index),
{
    assert(text_slot(with_data_byte(mem, offset, value), index) =~= text_slot(mem, index));
}

/// A data byte holds what was last written to it, and a write changes no
/// other data byte.
pub proof fn lemma_data_byte_written(mem: Seq<u8>, offset: int, value: u8, other: int)
    requires
        mem.len() == MEM_SIZE,
        0 <= offset < DATA_SIZE,
        0 <= other < DATA_SIZE,
    ensures
        data_byte(with_data_byte(mem, offset, value), offset) == value,
        other != offset ==> data_byte(with_data_byte(mem, offset, value), other) == data_byte(
            mem,
            other,
        ),
{
}

/// The machine's memory.
#[derive(Debug)]
pub struct Memory {
    pub bytes: [u8; MEM_SIZE],
}

impl View for Memory {
    type V = Seq<u8>;

    /// The buffer's bytes, text segment first.
    open spec fn view(&self) -> Seq<u8> {
        self.bytes@
    }
}

impl Default for Memory {
    fn default() -> (m: Self)
        ensures
            m@ == zeroed_memory(),
    {
        let m = Memory { bytes: [0u8; MEM_SIZE] };
        assert(m@ =~= zeroed_memory());
        m
    }
}

impl Memory {
    /// Zeroes the whole buffer, text and data alike.
    pub fn clear(&mut self)
        ensures
            final(self)@ == zeroed_memory(),
    {
        self.bytes = [0u8; MEM_SIZE];
        assert(self@ =~= zeroed_memory());
    }

    /// The four bytes of text slot `index`.
    pub fn read_instruction_slot(&self, index: usize) -> (slot: [u8; OP_SIZE])
        requires
            index < TEXT_SLOTS,
        ensures
            slot@ == text_slot(self@, index as int),
    {
        let base: usize = index * OP_SIZE;
        let slot: [u8; OP_SIZE] = [
            self.bytes[base],
            self.bytes[base + 1],
            self.bytes[base + 2],
            self.bytes[base + 3],
        ];
        assert(slot@ =~= text_slot(self@, index as int));
        slot
    }

    /// Stores four bytes in text slot `index`; every other byte stays.
    pub fn write_instruction_slot(&mut self, index: usize, slot: [u8; OP_SIZE])
        requires
            index < TEXT_SLOTS,
        ensures
            final(self)@ == with_text_slot(old(self)@, index as int, slot@),
    {
        let base: usize = index * OP_SIZE;
        self.bytes[base] = slot[0];
        self.bytes[base + 1] = slot[1];
        self.bytes[base + 2] = slot[2];
        self.bytes[base + 3] = slot[3];
        assert(self@ =~= with_text_slot(old(self)@, index as int, slot@));
    }

    /// The byte at `offset` of the data segment.
    pub fn read_data_byte(&self, offset: u16) -> (value: u8)
        requires
            offset < DATA_SIZE,
        ensures
            value == data_byte(self@, offset as int),
    {
        self.bytes[TEXT_SIZE + offset as usize]
    }

    /// Stores `value` at `offset` of the data segment; every other byte
    /// stays.
    pub fn write_data_byte(&mut self, offset: u16, value: u8)
        requires
            offset < DATA_SIZE,
        ensures
            final(self)@ == with_data_byte(old(self)@, offset as int, value),
    {
        self.bytes[TEXT_SIZE + offset as usize] = value;
        assert(self@ =~= with_data_byte(old(self)@, offset as int, value));
    }
}

} // verus!
