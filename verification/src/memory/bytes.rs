//! Little-endian words in byte sequences.
use vstd::prelude::*;

verus! {

/// The little-endian value of the `width` bytes of `mem` that start at
/// `offset`, for a width of 1, 2 or 4.
pub open spec fn read_le(mem: Seq<u8>, offset: int, width: u8) -> u32 {
    if width == 1 {
        mem[offset] as u32
    } else if width == 2 {
        (mem[offset] + mem[offset + 1] * 0x100) as u32
    } else {
        (mem[offset] + mem[offset + 1] * 0x100 + mem[offset + 2] * 0x1_0000 + mem[offset + 3]
            * 0x100_0000) as u32
    }
}

/// `mem` with the low `width` bytes of `val` written little-endian at
/// `offset`, for a width of 1, 2 or 4.
pub open spec fn write_le(mem: Seq<u8>, offset: int, width: u8, val: u32) -> Seq<u8> {
    if width == 1 {
        mem.update(offset, (val % 0x100) as u8)
    } else if width == 2 {
        mem.update(offset, (val % 0x100) as u8).update(offset + 1, (val / 0x100 % 0x100) as u8)
    } else {
        mem.update(offset, (val % 0x100) as u8).update(
            offset + 1,
            (val / 0x100 % 0x100) as u8,
        ).update(offset + 2, (val / 0x1_0000 % 0x100) as u8).update(
            offset + 3,
            (val / 0x100_0000) as u8,
        )
    }
}

/// The part of `val` that an access of `width` bytes carries.
pub open spec fn truncate(val: u32, width: u8) -> u32 {
    if width == 1 {
        val % 0x100
    } else if width == 2 {
        val % 0x1_0000
    } else {
        val
    }
}

/// Reading back what was just written gives the bytes written.
pub proof fn lemma_read_after_write(mem: Seq<u8>, offset: int, width: u8, val: u32)
    requires
        width == 1 || width == 2 || width == 4,
        0 <= offset,
        offset + width <= mem.len(),
    ensures
        read_le(write_le(mem, offset, width, val), offset, width) == truncate(val, width),
        write_le(mem, offset, width, val).len() == mem.len(),
{
}

/// A write leaves every access that does not overlap it as it was.
pub proof fn lemma_read_elsewhere(
    mem: Seq<u8>,
    offset: int,
    width: u8,
    val: u32,
    other: int,
    other_width: u8,
)
    requires
        width == 1 || width == 2 || width == 4,
        other_width == 1 || other_width == 2 || other_width == 4,
        0 <= offset,
        offset + width <= mem.len(),
        0 <= other,
        other + other_width <= mem.len(),
        other + other_width <= offset || offset + width <= other,
    ensures
        read_le(write_le(mem, offset, width, val), other, other_width) == read_le(
            mem,
            other,
            other_width,
        ),
{
}

/// Read `width` bytes of `mem` at `offset` as a little-endian value.
pub fn load_le(mem: &Vec<u8>, offset: usize, width: u8) -> (r: u32)
    requires
        width == 1 || width == 2 || width == 4,
        offset + width <= mem.len(),
    ensures
        r == read_le(mem@, offset as int, width),
{
    if width == 1 {
        mem[offset] as u32
    } else if width == 2 {
        mem[offset] as u32 + mem[offset + 1] as u32 * 0x100
    } else {
        mem[offset] as u32 + mem[offset + 1] as u32 * 0x100 + mem[offset + 2] as u32 * 0x1_0000
            + mem[offset + 3] as u32 * 0x100_0000
    }
}

/// Write the low `width` bytes of `val` into `mem` at `offset`,
/// little-endian.
pub fn store_le(mem: &mut Vec<u8>, offset: usize, width: u8, val: u32)
    requires
        width == 1 || width == 2 || width == 4,
        offset + width <= old(mem).len(),
    ensures
        final(mem)@ == write_le(old(mem)@, offset as int, width, val),
        final(mem).len() == old(mem).len(),
{
    mem[offset] = (val % 0x100) as u8;
    if width >= 2 {
        mem[offset + 1] = (val / 0x100 % 0x100) as u8;
    }
    if width == 4 {
        mem[offset + 2] = (val / 0x1_0000 % 0x100) as u8;
        mem[offset + 3] = (val / 0x100_0000) as u8;
    }
}

/// What a read of `width` bytes at `offset` gives in a memory of
/// `mem.len()` bytes: nothing when it would leave the memory.
pub open spec fn read_checked(mem: Seq<u8>, offset: u32, width: u8) -> Option<u32> {
    if offset + width <= mem.len() {
        Some(read_le(mem, offset as int, width))
    } else {
        None
    }
}

/// What a write of `width` bytes at `offset` leaves of a memory: nothing
/// when it would leave the memory.
pub open spec fn write_checked(mem: Seq<u8>, offset: u32, width: u8, val: u32) -> Option<Seq<u8>> {
    if offset + width <= mem.len() {
        Some(write_le(mem, offset as int, width, val))
    } else {
        None
    }
}

/// Read `width` bytes at `offset`, or nothing when the access would leave
/// the memory.
pub fn load_checked(mem: &Vec<u8>, offset: u32, width: u8) -> (r: Option<u32>)
    requires
        width == 1 || width == 2 || width == 4,
    ensures
        r == read_checked(mem@, offset, width),
{
    let len = mem.len();
    if len >= width as usize && offset as usize <= len - width as usize {
        Some(load_le(mem, offset as usize, width))
    } else {
        None
    }
}

/// Write `width` bytes at `offset` and report success, or leave the memory
/// alone when the access would leave it.
pub fn store_checked(mem: &mut Vec<u8>, offset: u32, width: u8, val: u32) -> (done: bool)
    requires
        width == 1 || width == 2 || width == 4,
    ensures
        done == write_checked(old(mem)@, offset, width, val).is_some(),
        done ==> final(mem)@ == write_checked(old(mem)@, offset, width, val).unwrap(),
        !done ==> final(mem)@ == old(mem)@,
        final(mem).len() == old(mem).len(),
{
    let len = mem.len();
    if len >= width as usize && offset as usize <= len - width as usize {
        store_le(mem, offset as usize, width, val);
        true
    } else {
        false
    }
}

} // verus!
