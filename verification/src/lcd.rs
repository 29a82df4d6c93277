//! Display controller.
use vstd::prelude::*;

verus! {

/// Rows of the display; each row is one word of 32 pixels.
pub const LCD_ROWS: usize = 32;

/// Offsets of the controller's registers and of the first row.
pub const LCD_MODE: u32 = 0x000;

pub const LCD_CAL: u32 = 0x004;

pub const LCD_VRAM: u32 = 0x100;

/// What the display controller holds.
pub struct LcdState {
    pub mode: u32,
    pub cal: u32,
    /// One word per row, the top row first.
    pub vram: Seq<u32>,
}

/// True when `offset` is the offset of a row.
pub open spec fn is_row(offset: u32) -> bool {
    LCD_VRAM <= offset < LCD_VRAM + 4 * LCD_ROWS && offset % 4 == 0
}

/// The row at `offset`.
pub open spec fn row_index(offset: u32) -> int {
    (offset - LCD_VRAM) / 4
}

impl LcdState {
    /// The frame buffer has its 32 rows.
    pub open spec fn wf(self) -> bool {
        self.vram.len() == LCD_ROWS
    }

    /// What a read of the register or row at `offset` gives.
    pub open spec fn load(self, offset: u32) -> Option<u32> {
        if offset == LCD_MODE {
            Some(self.mode)
        } else if offset == LCD_CAL {
            Some(self.cal)
        } else if is_row(offset) {
            Some(self.vram[row_index(offset)])
        } else {
            None
        }
    }

    /// The controller after a write of `val` at `offset`.
    pub open spec fn store(self, offset: u32, val: u32) -> Option<LcdState> {
        if offset == LCD_MODE {
            Some(LcdState { mode: val, ..self })
        } else if offset == LCD_CAL {
            Some(LcdState { cal: val, ..self })
        } else if is_row(offset) {
            Some(LcdState { vram: self.vram.update(row_index(offset), val), ..self })
        } else {
            None
        }
    }
}

/// The display controller: two registers and a frame buffer of 32 rows
/// of 32 pixels.
pub struct Lcd {
    mode: u32,
    cal: u32,
    vram: Vec<u32>,
}

impl View for Lcd {
    type V = LcdState;

    closed spec fn view(&self) -> LcdState {
        LcdState { mode: self.mode, cal: self.cal, vram: self.vram@ }
    }
}

impl Lcd {
    /// A controller with cleared registers and a blank frame buffer.
    pub fn new() -> (r: Lcd)
        ensures
            r@.wf(),
            r@.mode == 0,
            r@.cal == 0,
            forall|i: int| 0 <= i < LCD_ROWS ==> r@.vram[i] == 0,
    {
        let mut vram: Vec<u32> = Vec::new();
        let mut i: usize = 0;
        while i < LCD_ROWS
            invariant
                i <= LCD_ROWS,
                vram@.len() == i,
                forall|k: int| 0 <= k < i ==> vram@[k] == 0,
            decreases LCD_ROWS - i,
        {
            vram.push(0);
            i = i + 1;
        }
        Lcd { mode: 0, cal: 0, vram }
    }

    /// The pixels of row `row`, bit 0 first.
    pub fn row(&self, row: usize) -> (r: u32)
        requires
            self@.wf(),
            row < LCD_ROWS,
        ensures
            r == self@.vram[row as int],
    {
        self.vram[row]
    }

    /// Read the register or row at `offset`.
    pub fn load(&self, offset: u32) -> (r: Option<u32>)
        requires
            self@.wf(),
        ensures
            r == self@.load(offset),
    {
        if offset == LCD_MODE {
            Some(self.mode)
        } else if offset == LCD_CAL {
            Some(self.cal)
        } else if LCD_VRAM <= offset && offset < LCD_VRAM + 128 && offset % 4 == 0 {
            Some(self.vram[((offset - LCD_VRAM) / 4) as usize])
        } else {
            None
        }
    }

    /// Write `val` at `offset` and report whether anything is there.
    pub fn store(&mut self, offset: u32, val: u32) -> (done: bool)
        requires
            old(self)@.wf(),
        ensures
            done == old(self)@.store(offset, val).is_some(),
            done ==> final(self)@ == old(self)@.store(offset, val).unwrap(),
            !done ==> final(self)@ == old(self)@,
            final(self)@.wf(),
    {
        if offset == LCD_MODE {
            self.mode = val;
            true
        } else if offset == LCD_CAL {
            self.cal = val;
            true
        } else if LCD_VRAM <= offset && offset < LCD_VRAM + 128 && offset % 4 == 0 {
            self.vram[((offset - LCD_VRAM) / 4) as usize] = val;
            true
        } else {
            false
        }
    }
}

} // verus!
