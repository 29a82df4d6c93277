//! Flash memory and its controller.
use vstd::prelude::*;
use crate::bits::{bit, test_bit};
use crate::memory::bytes::{load_checked, read_checked, store_checked, write_checked};

verus! {

/// Size of the flash memory in bytes.
pub const FLASH_SIZE: usize = 131072;

/// Size of one bank of the flash memory in bytes.
pub const BANK_SIZE: u32 = 8192;

/// Number of banks.
pub const BANKS: usize = 16;

/// Offsets of the controller's registers: control, status, bank enable
/// flags, and the first of the sixteen bank value registers.
pub const F_CTRL: u32 = 0x000;

pub const F_STAT: u32 = 0x004;

pub const F_BANK_FLG: u32 = 0x008;

pub const F_BANK_VAL: u32 = 0x100;

/// What the flash holds: its bytes and the controller's registers.
pub struct FlashState {
    /// The bytes of the sixteen banks, one bank after the other.
    pub data: Seq<u8>,
    /// Control register; bit 0 maps the RAM at address 0 in place of the
    /// boot ROM.
    pub ctrl: u32,
    /// One enable bit per bank.
    pub bank_flags: u32,
    /// For each bank, the number of the virtual bank that it backs.
    pub bank_vals: Seq<u32>,
}

/// True when `offset` is the offset of one of the bank value registers.
pub open spec fn is_bank_val(offset: u32) -> bool {
    F_BANK_VAL <= offset < F_BANK_VAL + 4 * BANKS && offset % 4 == 0
}

/// The bank whose value register is at `offset`.
pub open spec fn bank_val_index(offset: u32) -> int {
    (offset - F_BANK_VAL) / 4
}

impl FlashState {
    /// The flash has its size and one value for each bank.
    pub open spec fn wf(self) -> bool {
        self.data.len() == FLASH_SIZE && self.bank_vals.len() == BANKS
    }

    /// True while the boot ROM is mapped at address 0.
    pub open spec fn bios_at_0(self) -> bool {
        self.ctrl % 2 == 0
    }

    /// The flash after a reset: the boot ROM is mapped at address 0 again.
    pub open spec fn reset(self) -> FlashState {
        FlashState { ctrl: 0, ..self }
    }

    /// True when bank `p` is enabled and backs virtual bank `vbank`.
    pub open spec fn backs(self, p: int, vbank: u32) -> bool {
        bit(self.bank_flags, p as u32) && self.bank_vals[p] % 16 == vbank
    }

    /// The first bank from `from` on that backs virtual bank `vbank`.
    pub open spec fn find_bank(self, vbank: u32, from: int) -> Option<int>
        decreases BANKS - from,
    {
        if from < 0 || from >= BANKS {
            None
        } else if self.backs(from, vbank) {
            Some(from)
        } else {
            self.find_bank(vbank, from + 1)
        }
    }

    /// A read through the virtual mapping: the address selects a virtual
    /// bank, and the first enabled bank that backs it gives the bytes.
    pub open spec fn load_virtual(self, offset: u32, width: u8) -> Option<u32> {
        match self.find_bank(offset / BANK_SIZE, 0) {
            Some(p) => read_checked(
                self.data,
                (p * BANK_SIZE + offset % BANK_SIZE) as u32,
                width,
            ),
            None => None,
        }
    }

    /// A read of the bytes themselves.
    pub open spec fn load_raw(self, offset: u32, width: u8) -> Option<u32> {
        read_checked(self.data, offset, width)
    }

    /// A write of the bytes themselves.
    pub open spec fn store_raw(self, offset: u32, width: u8, val: u32) -> Option<FlashState> {
        match write_checked(self.data, offset, width, val) {
            Some(data) => Some(FlashState { data, ..self }),
            None => None,
        }
    }

    /// A read of the controller register at `offset`.
    pub open spec fn load_config(self, offset: u32) -> Option<u32> {
        if offset == F_CTRL {
            Some(self.ctrl)
        } else if offset == F_STAT {
            Some(0)
        } else if offset == F_BANK_FLG {
            Some(self.bank_flags)
        } else if is_bank_val(offset) {
            Some(self.bank_vals[bank_val_index(offset)])
        } else {
            None
        }
    }

    /// A write of `val` to the controller register at `offset`.
    pub open spec fn store_config(self, offset: u32, val: u32) -> Option<FlashState> {
        if offset == F_CTRL {
            Some(FlashState { ctrl: val, ..self })
        } else if offset == F_BANK_FLG {
            Some(FlashState { bank_flags: val % 0x1_0000, ..self })
        } else if is_bank_val(offset) {
            Some(
                FlashState {
                    bank_vals: self.bank_vals.update(bank_val_index(offset), val),
                    ..self
                },
            )
        } else {
            None
        }
    }
}

/// The flash memory: 128 KiB in sixteen banks, and a controller that maps
/// banks into a virtual address space and selects what answers at address
/// 0.
pub struct Flash {
    data: Vec<u8>,
    ctrl: u32,
    bank_flags: u32,
    bank_vals: Vec<u32>,
}

impl View for Flash {
    type V = FlashState;

    closed spec fn view(&self) -> FlashState {
        FlashState {
            data: self.data@,
            ctrl: self.ctrl,
            bank_flags: self.bank_flags,
            bank_vals: self.bank_vals@,
        }
    }
}

impl Flash {
    /// Wrap a flash image. Returns `None` unless the image has exactly
    /// `FLASH_SIZE` bytes. The boot ROM is mapped at address 0 and no bank
    /// is enabled.
    pub fn new(image: Vec<u8>) -> (r: Option<Flash>)
        ensures
            r.is_some() <==> image@.len() == FLASH_SIZE,
            r.is_some() ==> {
                let f = r.unwrap()@;
                &&& f.wf()
                &&& f.data == image@
                &&& f.ctrl == 0
                &&& f.bank_flags == 0
                &&& forall|p: int| 0 <= p < BANKS ==> f.bank_vals[p] == 0
            },
    {
        if image.len() != FLASH_SIZE {
            return None;
        }
        let mut bank_vals: Vec<u32> = Vec::new();
        let mut p: usize = 0;
        while p < BANKS
            invariant
                p <= BANKS,
                bank_vals@.len() == p,
                forall|k: int| 0 <= k < p ==> bank_vals@[k] == 0,
            decreases BANKS - p,
        {
            bank_vals.push(0);
            p = p + 1;
        }
        Some(Flash { data: image, ctrl: 0, bank_flags: 0, bank_vals })
    }

    /// Map the boot ROM at address 0 again.
    pub fn reset(&mut self)
        ensures
            final(self)@ == old(self)@.reset(),
    {
        self.ctrl = 0;
    }

    /// True while the boot ROM is mapped at address 0.
    pub fn bios_at_0(&self) -> (r: bool)
        ensures
            r == self@.bios_at_0(),
    {
        self.ctrl % 2 == 0
    }

    /// Read `width` bytes through the virtual mapping.
    pub fn load_virtual(&self, offset: u32, width: u8) -> (r: Option<u32>)
        requires
            self@.wf(),
            width == 1 || width == 2 || width == 4,
        ensures
            r == self@.load_virtual(offset, width),
    {
        let vbank = offset / BANK_SIZE;
        let mut p: usize = 0;
        while p < BANKS
            invariant
                p <= BANKS,
                self@.wf(),
                width == 1 || width == 2 || width == 4,
                vbank == offset / BANK_SIZE,
                self@.find_bank(vbank, 0) == self@.find_bank(vbank, p as int),
            decreases BANKS - p,
        {
            if test_bit(self.bank_flags, p as u32) && self.bank_vals[p] % 16 == vbank {
                return load_checked(&self.data, p as u32 * BANK_SIZE + offset % BANK_SIZE, width);
            }
            p = p + 1;
        }
        None
    }

    /// Read `width` bytes of the flash itself.
    pub fn load_raw(&self, offset: u32, width: u8) -> (r: Option<u32>)
        requires
            width == 1 || width == 2 || width == 4,
        ensures
            r == self@.load_raw(offset, width),
    {
        load_checked(&self.data, offset, width)
    }

    /// Write `width` bytes of the flash itself and report success.
    pub fn store_raw(&mut self, offset: u32, width: u8, val: u32) -> (done: bool)
        requires
            width == 1 || width == 2 || width == 4,
        ensures
            done == old(self)@.store_raw(offset, width, val).is_some(),
            done ==> final(self)@ == old(self)@.store_raw(offset, width, val).unwrap(),
            !done ==> final(self)@ == old(self)@,
            old(self)@.wf() ==> final(self)@.wf(),
    {
        store_checked(&mut self.data, offset, width, val)
    }

    /// Read the controller register at `offset`.
    pub fn load_config(&self, offset: u32) -> (r: Option<u32>)
        requires
            self@.wf(),
        ensures
            r == self@.load_config(offset),
    {
        if offset == F_CTRL {
            Some(self.ctrl)
        } else if offset == F_STAT {
            Some(0)
        } else if offset == F_BANK_FLG {
            Some(self.bank_flags)
        } else if F_BANK_VAL <= offset && offset < F_BANK_VAL + 64 && offset % 4 == 0 {
            Some(self.bank_vals[((offset - F_BANK_VAL) / 4) as usize])
        } else {
            None
        }
    }

    /// Write `val` to the controller register at `offset` and report
    /// whether there is one.
    pub fn store_config(&mut self, offset: u32, val: u32) -> (done: bool)
        requires
            old(self)@.wf(),
        ensures
            done == old(self)@.store_config(offset, val).is_some(),
            done ==> final(self)@ == old(self)@.store_config(offset, val).unwrap(),
            !done ==> final(self)@ == old(self)@,
            final(self)@.wf(),
    {
        if offset == F_CTRL {
            self.ctrl = val;
            true
        } else if offset == F_BANK_FLG {
            self.bank_flags = val % 0x1_0000;
            true
        } else if F_BANK_VAL <= offset && offset < F_BANK_VAL + 64 && offset % 4 == 0 {
            self.bank_vals[((offset - F_BANK_VAL) / 4) as usize] = val;
            true
        } else {
            false
        }
    }
}

} // verus!
