//! Work RAM.
use vstd::prelude::*;
use crate::memory::bytes::{load_checked, read_checked, store_checked, write_checked};

verus! {

/// Size of the RAM of the device in bytes.
pub const RAM_SIZE: usize = 2048;

/// The work RAM: 2 KiB on the device.
pub struct Ram {
    data: Vec<u8>,
}

impl View for Ram {
    type V = Seq<u8>;

    closed spec fn view(&self) -> Seq<u8> {
        self.data@
    }
}

impl Ram {
    /// The RAM of the device, filled with zeroes.
    pub fn new() -> (r: Ram)
        ensures
            r@.len() == RAM_SIZE,
            forall|i: int| 0 <= i < RAM_SIZE ==> r@[i] == 0,
    {
        Ram::with_size(RAM_SIZE)
    }

    /// A RAM of `size` bytes, filled with zeroes.
    pub fn with_size(size: usize) -> (r: Ram)
        ensures
            r@.len() == size,
            forall|i: int| 0 <= i < size ==> r@[i] == 0,
    {
        let mut data: Vec<u8> = Vec::new();
        let mut i: usize = 0;
        while i < size
            invariant
                i <= size,
                data@.len() == i,
                forall|k: int| 0 <= k < i ==> data@[k] == 0,
            decreases size - i,
        {
            data.push(0);
            i = i + 1;
        }
        Ram { data }
    }

    /// Read `width` bytes at `offset`; nothing beyond the end of the RAM.
    pub fn load(&self, offset: u32, width: u8) -> (r: Option<u32>)
        requires
            width == 1 || width == 2 || width == 4,
        ensures
            r == read_checked(self@, offset, width),
    {
        load_checked(&self.data, offset, width)
    }

    /// Write the low `width` bytes of `val` at `offset` and report success;
    /// nothing is written beyond the end of the RAM.
    pub fn store(&mut self, offset: u32, width: u8, val: u32) -> (done: bool)
        requires
            width == 1 || width == 2 || width == 4,
        ensures
            done == write_checked(old(self)@, offset, width, val).is_some(),
            done ==> final(self)@ == write_checked(old(self)@, offset, width, val).unwrap(),
            !done ==> final(self)@ == old(self)@,
            final(self)@.len() == old(self)@.len(),
    {
        store_checked(&mut self.data, offset, width, val)
    }
}

} // verus!
