//! Boot ROM.
use vstd::prelude::*;
use crate::memory::bytes::{load_checked, read_checked};

verus! {

/// Size of the boot ROM in bytes.
pub const BIOS_SIZE: usize = 16384;

/// The 16 KiB boot ROM.
pub struct Bios {
    data: Vec<u8>,
}

impl View for Bios {
    type V = Seq<u8>;

    closed spec fn view(&self) -> Seq<u8> {
        self.data@
    }
}

impl Bios {
    /// The ROM holds `BIOS_SIZE` bytes.
    pub open spec fn wf(&self) -> bool {
        self@.len() == BIOS_SIZE
    }

    /// Wrap a ROM image. Returns `None` unless the image has exactly
    /// `BIOS_SIZE` bytes.
    pub fn new(image: Vec<u8>) -> (r: Option<Bios>)
        ensures
            r.is_some() <==> image@.len() == BIOS_SIZE,
            r.is_some() ==> r.unwrap()@ == image@ && r.unwrap().wf(),
    {
        if image.len() == BIOS_SIZE {
            Some(Bios { data: image })
        } else {
            None
        }
    }

    /// Read `width` bytes at `offset`; nothing beyond the end of the ROM.
    pub fn load(&self, offset: u32, width: u8) -> (r: Option<u32>)
        requires
            width == 1 || width == 2 || width == 4,
        ensures
            r == read_checked(self@, offset, width),
    {
        load_checked(&self.data, offset, width)
    }
}

} // verus!
