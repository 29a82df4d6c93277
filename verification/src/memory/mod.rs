//! The bus: address decoding over the memories and the memory-mapped
//! devices.
use vstd::prelude::*;
use crate::dac::Dac;
use crate::interrupt::{Interrupt, IrqController};
use crate::irda::Irda;
use crate::lcd::{Lcd, LcdState};
use crate::memory::bios::{Bios, BIOS_SIZE};
use crate::memory::bytes::{
    lemma_read_after_write, lemma_read_elsewhere, read_checked, truncate, write_checked,
};
use crate::memory::flash::{Flash, FlashState};
use crate::memory::ram::{Ram, RAM_SIZE};
use crate::rtc::{Rtc, RtcState, RTC_ADJUST, RTC_DATE, RTC_MODE, RTC_TIME};
use crate::timer::Timer;

pub mod bios;
pub mod bytes;
pub mod flash;
pub mod ram;

verus! {

/// Why the bus refused an access.
#[derive(Copy, Clone, PartialEq, Eq, Debug, Structural)]
pub enum BusError {
    /// The address is not a multiple of the access width.
    Misaligned { addr: u32, width: u8 },
    /// Nothing answers at this address.
    Unhandled { addr: u32 },
}

/// Trait representing the attributes of a memory access
pub trait Addressable {
    /// The size of the access in bytes, for contracts.
    spec fn width() -> u8;

    /// Retrieve the size of the access in bytes
    fn size() -> (r: u8)
        ensures
            r == Self::width(),
            r == 1 || r == 2 || r == 4,
    ;
}

/// Marker for Byte (8bit) access
pub struct Byte;

impl Addressable for Byte {
    open spec fn width() -> u8 {
        1
    }

    fn size() -> (r: u8) {
        1
    }
}

/// Marker for HalfWord (16bit) access
pub struct HalfWord;

impl Addressable for HalfWord {
    open spec fn width() -> u8 {
        2
    }

    fn size() -> (r: u8) {
        2
    }
}

/// Marker for Word (32bit) access
pub struct Word;

impl Addressable for Word {
    open spec fn width() -> u8 {
        4
    }

    fn size() -> (r: u8) {
        4
    }
}

/// Size of one region of the address space: the top byte of an address
/// selects the region, the rest is the offset within it.
pub const REGION_SIZE: u32 = 0x100_0000;

/// What the bus holds: the memories and the state of every device.
pub struct BusState {
    pub bios: Seq<u8>,
    pub flash: FlashState,
    pub ram: Seq<u8>,
    pub irq_controller: IrqController,
    pub timer0: Timer,
    pub timer1: Timer,
    pub timer2: Timer,
    pub rtc: RtcState,
    pub lcd: LcdState,
    pub dac: Dac,
    pub irda: Irda,
    /// The CPU clock is the master clock shifted right by this, 0 to 7.
    pub cpu_clk_div: u8,
    /// Master clock ticks counted since the counter was last set.
    pub frame_ticks: u32,
    pub iop_ctrl: u8,
}

impl BusState {
    /// The memories and the devices are well formed, and the clock
    /// divider is one of the eight.
    pub open spec fn wf(self) -> bool {
        &&& self.bios.len() == BIOS_SIZE
        &&& self.flash.wf()
        &&& self.timer0.wf()
        &&& self.timer1.wf()
        &&& self.timer2.wf()
        &&& self.rtc.wf()
        &&& self.lcd.wf()
        &&& self.cpu_clk_div <= 7
    }

    /// The timer with number `i`.
    pub open spec fn timer(self, i: int) -> Timer {
        if i == 0 {
            self.timer0
        } else if i == 1 {
            self.timer1
        } else {
            self.timer2
        }
    }

    /// The bus with `t` in place of the timer with number `i`.
    pub open spec fn with_timer(self, i: int, t: Timer) -> BusState {
        if i == 0 {
            BusState { timer0: t, ..self }
        } else if i == 1 {
            BusState { timer1: t, ..self }
        } else {
            BusState { timer2: t, ..self }
        }
    }

    /// What an aligned read of `width` bytes at `addr` gives, or nothing
    /// where nothing answers. The top byte of the address selects the
    /// region:
    /// 0x00 boot ROM or RAM, as the flash controller says; 0x02 flash
    /// through its virtual mapping; 0x04 boot ROM; 0x06 flash controller;
    /// 0x08 flash; 0x0a interrupt controller and timers (the timer is
    /// selected by bits 8 and 9 of the offset); 0x0b clock control and
    /// real-time clock; 0x0c infrared port; 0x0d display, converter and
    /// miscellaneous registers.
    #[verifier::opaque]
    pub open spec fn read(self, width: u8, addr: u32) -> Option<u32> {
        let region = addr / REGION_SIZE;
        let offset = addr % REGION_SIZE;
        if region == 0x00 {
            if self.flash.bios_at_0() {
                read_checked(self.bios, offset, width)
            } else {
                read_checked(self.ram, offset, width)
            }
        } else if region == 0x02 {
            self.flash.load_virtual(offset, width)
        } else if region == 0x04 {
            read_checked(self.bios, offset, width)
        } else if region == 0x06 {
            self.flash.load_config(offset)
        } else if region == 0x08 {
            self.flash.load_raw(offset, width)
        } else if region == 0x0a {
            if offset <= 0x10 {
                self.irq_controller.load_spec(offset)
            } else if 0x80_0000 <= offset <= 0x80_0028 {
                self.timer((offset / 0x100 % 4) as int).load_spec(offset % 0x10)
            } else {
                None
            }
        } else if region == 0x0b {
            if offset == 0 {
                Some((0x10 + (7 - self.cpu_clk_div)) as u32)
            } else if 0x80_0000 <= offset <= 0x80_000c {
                if offset % 0x10 == RTC_TIME {
                    Some(self.rtc.time())
                } else if offset % 0x10 == RTC_DATE {
                    Some(self.rtc.date())
                } else {
                    None
                }
            } else {
                None
            }
        } else if region == 0x0c {
            if offset == 0x80_0000 {
                self.irda.load_spec(0)
            } else if offset == 0x80_0004 {
                self.irda.load_spec(4)
            } else {
                None
            }
        } else if region == 0x0d {
            if offset <= 0x1ff {
                self.lcd.load(offset)
            } else if offset == 0x80_0000 {
                Some(self.iop_ctrl as u32)
            } else if offset == 0x80_0004 || offset == 0x80_000c || offset == 0x80_0020 {
                Some(0)
            } else if offset == 0x80_0010 {
                self.dac.load_spec(0)
            } else if offset == 0x80_0014 {
                self.dac.load_spec(4)
            } else {
                None
            }
        } else {
            None
        }
    }

    /// What a load of `width` bytes at `addr` gives: an error for an
    /// address that is not a multiple of the width or that nothing
    /// answers at.
    pub open spec fn load(self, width: u8, addr: u32) -> Result<u32, BusError> {
        if addr % (width as u32) != 0 {
            Err(BusError::Misaligned { addr, width })
        } else {
            match self.read(width, addr) {
                Some(val) => Ok(val),
                None => Err(BusError::Unhandled { addr }),
            }
        }
    }

    /// The bus after an aligned write of `width` bytes of `val` at `addr`,
    /// or nothing where nothing accepts it. Writes to region 0 are
    /// dropped while the boot ROM is mapped there; the two unlock
    /// addresses of the flash and the registers of the serial port, of the
    /// I/O processor and of the battery control accept any value and keep
    /// none, but for the I/O processor's control register, which keeps the
    /// low byte. In region 0x0a bits 4 and 5 of the offset select the
    /// timer.
    #[verifier::opaque]
    pub open spec fn write(self, width: u8, addr: u32, val: u32) -> Option<BusState> {
        let region = addr / REGION_SIZE;
        let offset = addr % REGION_SIZE;
        if region == 0x00 {
            if self.flash.bios_at_0() {
                Some(self)
            } else {
                match write_checked(self.ram, offset, width, val) {
                    Some(ram) => Some(BusState { ram, ..self }),
                    None => None,
                }
            }
        } else if region == 0x06 {
            match self.flash.store_config(offset, val) {
                Some(flash) => Some(BusState { flash, ..self }),
                None => None,
            }
        } else if region == 0x08 {
            if offset == 0x2a54 || offset == 0x55aa {
                Some(self)
            } else {
                match self.flash.store_raw(offset, width, val) {
                    Some(flash) => Some(BusState { flash, ..self }),
                    None => None,
                }
            }
        } else if region == 0x0a {
            if offset <= 0x10 {
                match self.irq_controller.store_spec(offset, val) {
                    Some(irq_controller) => Some(BusState { irq_controller, ..self }),
                    None => None,
                }
            } else if 0x80_0000 <= offset <= 0x80_0028 {
                let i = (offset / 0x10 % 4) as int;
                match self.timer(i).store_spec(offset % 0x10, val) {
                    Some(t) => Some(self.with_timer(i, t)),
                    None => None,
                }
            } else {
                None
            }
        } else if region == 0x0b {
            if offset == 0 {
                Some(BusState { cpu_clk_div: (7 - val % 8) as u8, ..self })
            } else if 0x80_0000 <= offset <= 0x80_000c {
                if offset % 0x10 == RTC_MODE {
                    Some(BusState { rtc: self.rtc.set_mode(val), ..self })
                } else if offset % 0x10 == RTC_ADJUST && self.rtc.can_adjust() {
                    Some(BusState { rtc: self.rtc.set_adjust(), ..self })
                } else {
                    None
                }
            } else {
                None
            }
        } else if region == 0x0c {
            if offset == 0x00 || offset == 0x08 || offset == 0x10 || offset == 0x18 {
                Some(self)
            } else if offset == 0x80_0000 {
                match self.irda.store_spec(0, val) {
                    Some(irda) => Some(BusState { irda, ..self }),
                    None => None,
                }
            } else if offset == 0x80_0004 {
                match self.irda.store_spec(4, val) {
                    Some(irda) => Some(BusState { irda, ..self }),
                    None => None,
                }
            } else {
                None
            }
        } else if region == 0x0d {
            if offset <= 0x1ff {
                match self.lcd.store(offset, val) {
                    Some(lcd) => Some(BusState { lcd, ..self }),
                    None => None,
                }
            } else if offset == 0x80_0000 {
                Some(BusState { iop_ctrl: (val % 0x100) as u8, ..self })
            } else if offset == 0x80_0004 || offset == 0x80_0008 || offset == 0x80_0020 {
                Some(self)
            } else if offset == 0x80_0010 {
                match self.dac.store_spec(0, val) {
                    Some(dac) => Some(BusState { dac, ..self }),
                    None => None,
                }
            } else if offset == 0x80_0014 {
                match self.dac.store_spec(4, val) {
                    Some(dac) => Some(BusState { dac, ..self }),
                    None => None,
                }
            } else {
                None
            }
        } else {
            None
        }
    }

    /// The bus after a store of `width` bytes of `val` at `addr`: an error
    /// for an address that is not a multiple of the width or that nothing
    /// accepts a write at.
    pub open spec fn store(self, width: u8, addr: u32, val: u32) -> Result<BusState, BusError> {
        if addr % (width as u32) != 0 {
            Err(BusError::Misaligned { addr, width })
        } else {
            match self.write(width, addr, val) {
                Some(bus) => Ok(bus),
                None => Err(BusError::Unhandled { addr }),
            }
        }
    }

    /// True for the addresses at which a memory keeps what is stored: the
    /// RAM while it is mapped at address 0, and the flash but for its two
    /// unlock addresses.
    pub open spec fn is_memory(self, addr: u32) -> bool {
        let region = addr / REGION_SIZE;
        let offset = addr % REGION_SIZE;
        (region == 0x00 && !self.flash.bios_at_0()) || (region == 0x08 && offset != 0x2a54
            && offset != 0x55aa)
    }

    /// Master clock ticks in `cpu_ticks` ticks of the CPU clock.
    pub open spec fn master_ticks(self, cpu_ticks: u32) -> u32 {
        cpu_ticks << (self.cpu_clk_div as u32)
    }

    /// The bus after `cpu_ticks` ticks of the CPU clock: the real-time
    /// clock runs on the master clock, the timers on the CPU clock, and
    /// the frame counter counts master clock ticks.
    pub open spec fn tick(self, cpu_ticks: u32) -> BusState {
        let master = self.master_ticks(cpu_ticks);
        let (rtc, irq0) = self.rtc.tick(self.irq_controller, master);
        let irq1 = irq0.set_raw_interrupt_spec(self.timer0.irq, self.timer0.expires(cpu_ticks));
        let irq2 = irq1.set_raw_interrupt_spec(self.timer1.irq, self.timer1.expires(cpu_ticks));
        let irq3 = irq2.set_raw_interrupt_spec(self.timer2.irq, self.timer2.expires(cpu_ticks));
        BusState {
            rtc,
            irq_controller: irq3,
            timer0: self.timer0.tick_spec(cpu_ticks),
            timer1: self.timer1.tick_spec(cpu_ticks),
            timer2: self.timer2.tick_spec(cpu_ticks),
            frame_ticks: (self.frame_ticks + master) as u32,
            ..self
        }
    }
}

/// The bus of the machine: it owns the memories and the devices and
/// routes every access to the one that answers at the address.
pub struct Interconnect {
    bios: Bios,
    flash: Flash,
    ram: Ram,
    irq_controller: IrqController,
    timer0: Timer,
    timer1: Timer,
    timer2: Timer,
    rtc: Rtc,
    lcd: Lcd,
    dac: Dac,
    irda: Irda,
    cpu_clk_div: u8,
    frame_ticks: u32,
    iop_ctrl: u8,
}

impl View for Interconnect {
    type V = BusState;

    closed spec fn view(&self) -> BusState {
        BusState {
            bios: self.bios@,
            flash: self.flash@,
            ram: self.ram@,
            irq_controller: self.irq_controller,
            timer0: self.timer0,
            timer1: self.timer1,
            timer2: self.timer2,
            rtc: self.rtc@,
            lcd: self.lcd@,
            dac: self.dac,
            irda: self.irda,
            cpu_clk_div: self.cpu_clk_div,
            frame_ticks: self.frame_ticks,
            iop_ctrl: self.iop_ctrl,
        }
    }
}

impl Interconnect {
    /// A bus around the given boot ROM, flash and converter, with cleared
    /// RAM, devices in their initial state and the slowest CPU clock.
    pub fn new(bios: Bios, flash: Flash, dac: Dac) -> (r: Interconnect)
        requires
            bios.wf(),
            flash@.wf(),
        ensures
            r@.wf(),
            r@.bios == bios@,
            r@.flash == flash@,
            r@.dac == dac,
            r@.ram.len() == RAM_SIZE,
            forall|i: int| 0 <= i < RAM_SIZE ==> r@.ram[i] == 0,
            r@.irq_controller == (IrqController { raw: 0, latch: 0, mask: 0 }),
            r@.timer0 == (Timer {
                irq: Interrupt::Timer0,
                reload: 0,
                counter: 0,
                mode: 0,
                prescaler: 0,
            }),
            r@.timer1 == (Timer {
                irq: Interrupt::Timer1,
                reload: 0,
                counter: 0,
                mode: 0,
                prescaler: 0,
            }),
            r@.timer2 == (Timer {
                irq: Interrupt::Timer2,
                reload: 0,
                counter: 0,
                mode: 0,
                prescaler: 0,
            }),
            r@.rtc.month_known(),
            r@.irda == (Irda { mode: 0, data: 0 }),
            r@.cpu_clk_div == 7,
            r@.frame_ticks == 0,
            r@.iop_ctrl == 0,
    {
        Interconnect {
            bios,
            flash,
            ram: Ram::new(),
            irq_controller: IrqController::new(),
            timer0: Timer::new(Interrupt::Timer0),
            timer1: Timer::new(Interrupt::Timer1),
            timer2: Timer::new(Interrupt::Timer2),
            rtc: Rtc::new(),
            lcd: Lcd::new(),
            dac,
            irda: Irda::new(),
            cpu_clk_div: 7,
            frame_ticks: 0,
            iop_ctrl: 0,
        }
    }

    /// Reset the flash controller: the boot ROM answers at address 0
    /// again.
    pub fn reset(&mut self)
        ensures
            final(self)@ == (BusState { flash: old(self)@.flash.reset(), ..old(self)@ }),
    {
        self.flash.reset();
    }

    /// True when an unmasked interrupt is latched.
    pub fn irq_pending(&self) -> (r: bool)
        ensures
            r == self@.irq_controller.irq_pending_spec(),
    {
        self.irq_controller.irq_pending()
    }

    /// Master clock ticks counted since the counter was last set.
    pub fn frame_ticks(&self) -> (r: u32)
        ensures
            r == self@.frame_ticks,
    {
        self.frame_ticks
    }

    /// Set the count of master clock ticks.
    pub fn set_frame_ticks(&mut self, ticks: u32)
        ensures
            final(self)@ == (BusState { frame_ticks: ticks, ..old(self)@ }),
    {
        self.frame_ticks = ticks
    }

    /// The display controller.
    pub fn lcd(&self) -> (r: &Lcd)
        ensures
            r@ == self@.lcd,
    {
        &self.lcd
    }

    /// The interrupt controller.
    pub fn irq_controller(&self) -> (r: &IrqController)
        ensures
            *r == self@.irq_controller,
    {
        &self.irq_controller
    }

    /// The interrupt controller, to drive its lines.
    pub fn irq_controller_mut(&mut self) -> (r: &mut IrqController)
        ensures
            *r == old(self)@.irq_controller,
            final(self)@ == (BusState { irq_controller: *final(r), ..old(self)@ }),
    {
        &mut self.irq_controller
    }

    /// The real-time clock, to set it.
    pub fn rtc_mut(&mut self) -> (r: &mut Rtc)
        ensures
            r@ == old(self)@.rtc,
            final(self)@ == (BusState { rtc: final(r)@, ..old(self)@ }),
    {
        &mut self.rtc
    }

    /// The flash memory.
    pub fn flash(&self) -> (r: &Flash)
        ensures
            r@ == self@.flash,
    {
        &self.flash
    }

    /// The flash memory, to change it.
    pub fn flash_mut(&mut self) -> (r: &mut Flash)
        ensures
            r@ == old(self)@.flash,
            final(self)@ == (BusState { flash: final(r)@, ..old(self)@ }),
    {
        &mut self.flash
    }

    /// The converter, to change it.
    pub fn dac_mut(&mut self) -> (r: &mut Dac)
        ensures
            *r == old(self)@.dac,
            final(self)@ == (BusState { dac: *final(r), ..old(self)@ }),
    {
        &mut self.dac
    }

    /// Replace the RAM, by one of another size if need be.
    pub fn set_ram(&mut self, ram: Ram)
        ensures
            final(self)@ == (BusState { ram: ram@, ..old(self)@ }),
    {
        self.ram = ram;
    }

    /// Replace the boot ROM.
    pub fn set_bios(&mut self, bios: Bios)
        ensures
            final(self)@ == (BusState { bios: bios@, ..old(self)@ }),
    {
        self.bios = bios;
    }

    /// Advance every clocked device by `cpu_ticks` ticks of the CPU clock.
    pub fn tick(&mut self, cpu_ticks: u32)
        requires
            old(self)@.wf(),
            old(self)@.rtc.month_known(),
            old(self)@.frame_ticks + old(self)@.master_ticks(cpu_ticks) <= u32::MAX,
        ensures
            final(self)@ == old(self)@.tick(cpu_ticks),
            final(self)@.wf(),
            final(self)@.rtc.month_known(),
    {
        let master_ticks = cpu_ticks << (self.cpu_clk_div as u32);
        self.rtc.tick(&mut self.irq_controller, master_ticks);
        self.timer0.tick(&mut self.irq_controller, cpu_ticks);
        self.timer1.tick(&mut self.irq_controller, cpu_ticks);
        self.timer2.tick(&mut self.irq_controller, cpu_ticks);
        self.frame_ticks += master_ticks;
    }

    /// Read `A::size()` bytes at `addr`.
    pub fn load<A: Addressable>(&self, addr: u32) -> (r: Result<u32, BusError>)
        requires
            self@.wf(),
        ensures
            r == self@.load(A::width(), addr),
    {
        proof {
            reveal(BusState::read);
        }
        let width = A::size();
        let region = addr / REGION_SIZE;
        let offset = addr % REGION_SIZE;
        if addr % (width as u32) != 0 {
            return Err(BusError::Misaligned { addr, width });
        }
        let val = if region == 0x00 {
            if self.flash.bios_at_0() {
                self.bios.load(offset, width)
            } else {
                self.ram.load(offset, width)
            }
        } else if region == 0x02 {
            self.flash.load_virtual(offset, width)
        } else if region == 0x04 {
            self.bios.load(offset, width)
        } else if region == 0x06 {
            self.flash.load_config(offset)
        } else if region == 0x08 {
            self.flash.load_raw(offset, width)
        } else if region == 0x0a {
            if offset <= 0x10 {
                self.irq_controller.load(offset)
            } else if 0x80_0000 <= offset && offset <= 0x80_0028 {
                let timer = offset / 0x100 % 4;
                if timer == 0 {
                    self.timer0.load(offset % 0x10)
                } else if timer == 1 {
                    self.timer1.load(offset % 0x10)
                } else {
                    self.timer2.load(offset % 0x10)
                }
            } else {
                None
            }
        } else if region == 0x0b {
            if offset == 0 {
                let div = 7 - self.cpu_clk_div;
                // Reply that the clock is ready
                Some(0x10 + div as u32)
            } else if 0x80_0000 <= offset && offset <= 0x80_000c {
                let reg = offset % 0x10;
                if reg == RTC_TIME || reg == RTC_DATE {
                    Some(self.rtc.load::<A>(reg))
                } else {
                    None
                }
            } else {
                None
            }
        } else if region == 0x0c {
            if offset == 0x80_0000 {
                self.irda.load(0)
            } else if offset == 0x80_0004 {
                self.irda.load(4)
            } else {
                None
            }
        } else if region == 0x0d {
            if offset <= 0x1ff {
                self.lcd.load(offset)
            } else if offset == 0x80_0000 {
                Some(self.iop_ctrl as u32)
            } else if offset == 0x80_0004 || offset == 0x80_000c || offset == 0x80_0020 {
                Some(0)
            } else if offset == 0x80_0010 {
                self.dac.load(0)
            } else if offset == 0x80_0014 {
                self.dac.load(4)
            } else {
                None
            }
        } else {
            None
        };
        match val {
            Some(val) => Ok(val),
            None => Err(BusError::Unhandled { addr }),
        }
    }

    /// Write the low `A::size()` bytes of `val` at `addr`. A refused store
    /// changes nothing.
    pub fn store<A: Addressable>(&mut self, addr: u32, val: u32) -> (r: Result<(), BusError>)
        requires
            old(self)@.wf(),
        ensures
            match old(self)@.store(A::width(), addr, val) {
                Ok(bus) => r.is_ok() && final(self)@ == bus,
                Err(e) => r == Err::<(), BusError>(e) && final(self)@ == old(self)@,
            },
            final(self)@.wf(),
    {
        proof {
            reveal(BusState::write);
        }
        let width = A::size();
        let region = addr / REGION_SIZE;
        let offset = addr % REGION_SIZE;
        if addr % (width as u32) != 0 {
            return Err(BusError::Misaligned { addr, width });
        }
        let done = if region == 0x00 {
            if !self.flash.bios_at_0() {
                self.ram.store(offset, width, val)
            } else {
                true
            }
        } else if region == 0x06 {
            self.flash.store_config(offset, val)
        } else if region == 0x08 {
            if offset == 0x2a54 || offset == 0x55aa {
                // Unlock keys of the flash
                true
            } else {
                self.flash.store_raw(offset, width, val)
            }
        } else if region == 0x0a {
            if offset <= 0x10 {
                self.irq_controller.store(offset, val)
            } else if 0x80_0000 <= offset && offset <= 0x80_0028 {
                let timer = offset / 0x10 % 4;
                if timer == 0 {
                    self.timer0.store(offset % 0x10, val)
                } else if timer == 1 {
                    self.timer1.store(offset % 0x10, val)
                } else {
                    self.timer2.store(offset % 0x10, val)
                }
            } else {
                false
            }
        } else if region == 0x0b {
            if offset == 0 {
                self.cpu_clk_div = 7 - (val % 8) as u8;
                true
            } else if 0x80_0000 <= offset && offset <= 0x80_000c {
                let reg = offset % 0x10;
                if self.rtc.accepts_store(reg) {
                    self.rtc.store::<A>(reg, val);
                    true
                } else {
                    false
                }
            } else {
                false
            }
        } else if region == 0x0c {
            if offset == 0x00 || offset == 0x08 || offset == 0x10 || offset == 0x18 {
                // Serial port: mode, data and the two control registers
                true
            } else if offset == 0x80_0000 {
                self.irda.store(0, val)
            } else if offset == 0x80_0004 {
                self.irda.store(4, val)
            } else {
                false
            }
        } else if region == 0x0d {
            if offset <= 0x1ff {
                self.lcd.store(offset, val)
            } else if offset == 0x80_0000 {
                self.iop_ctrl = (val % 0x100) as u8;
                true
            } else if offset == 0x80_0004 || offset == 0x80_0008 || offset == 0x80_0020 {
                // I/O processor stop and start, battery control
                true
            } else if offset == 0x80_0010 {
                self.dac.store(0, val)
            } else if offset == 0x80_0014 {
                self.dac.store(4, val)
            } else {
                false
            }
        } else {
            false
        };
        if done {
            Ok(())
        } else {
            Err(BusError::Unhandled { addr })
        }
    }
}

/// A load from a memory gives what was last stored there: the low byte
/// or halfword of the value for a narrow store, the value itself for a
/// word.
pub proof fn lemma_load_after_store(bus: BusState, width: u8, addr: u32, val: u32)
    requires
        width == 1 || width == 2 || width == 4,
        bus.is_memory(addr),
        bus.store(width, addr, val) is Ok,
    ensures
        bus.store(width, addr, val)->Ok_0.load(width, addr) == Ok::<u32, BusError>(
            truncate(val, width),
        ),
{
    reveal(BusState::read);
    reveal(BusState::write);
    let offset = addr % REGION_SIZE;
    if addr / REGION_SIZE == 0 {
        lemma_read_after_write(bus.ram, offset as int, width, val);
    } else {
        lemma_read_after_write(bus.flash.data, offset as int, width, val);
    }
}

/// True when the word at `addr` lies in the RAM and the RAM is mapped at
/// address 0.
pub open spec fn word_in_ram(bus: BusState, addr: u32) -> bool {
    &&& addr % 4 == 0
    &&& addr / REGION_SIZE == 0
    &&& !bus.flash.bios_at_0()
    &&& addr % REGION_SIZE + 4 <= bus.ram.len()
}

/// While the RAM is mapped at address 0, region 0 reads from it.
pub proof fn lemma_read_in_region_0(bus: BusState, width: u8, addr: u32)
    requires
        addr / REGION_SIZE == 0,
        !bus.flash.bios_at_0(),
    ensures
        bus.read(width, addr) == read_checked(bus.ram, addr % REGION_SIZE, width),
{
    reveal(BusState::read);
}

/// While the RAM is mapped at address 0, region 0 writes to it and to
/// nothing else.
pub proof fn lemma_write_in_region_0(bus: BusState, width: u8, addr: u32, val: u32)
    requires
        addr / REGION_SIZE == 0,
        !bus.flash.bios_at_0(),
    ensures
        bus.write(width, addr, val) == match write_checked(
            bus.ram,
            addr % REGION_SIZE,
            width,
            val,
        ) {
            Some(ram) => Some(BusState { ram, ..bus }),
            None => None,
        },
{
    reveal(BusState::write);
}

/// A store of a word in the RAM is accepted and changes the RAM only; the
/// word then reads back, and every other word of the RAM reads as before.
pub proof fn lemma_store_in_ram(bus: BusState, addr: u32, val: u32, other: u32)
    requires
        word_in_ram(bus, addr),
    ensures
        bus.store(4, addr, val) is Ok,
        ({
            let after = bus.store(4, addr, val)->Ok_0;
            &&& after == (BusState { ram: after.ram, ..bus })
            &&& after.ram.len() == bus.ram.len()
            &&& after.load(4, addr) == Ok::<u32, BusError>(val)
            &&& word_in_ram(bus, other) && other != addr ==> after.load(4, other) == bus.load(
                4,
                other,
            )
        }),
{
    let offset = (addr % REGION_SIZE) as int;
    lemma_write_in_region_0(bus, 4, addr, val);
    let after = bus.store(4, addr, val)->Ok_0;
    lemma_read_in_region_0(after, 4, addr);
    lemma_read_after_write(bus.ram, offset, 4, val);
    if word_in_ram(bus, other) && other != addr {
        assert(addr % REGION_SIZE == addr && other % REGION_SIZE == other);
        assert(addr == 4 * (addr / 4) && other == 4 * (other / 4));
        assert(other + 4 <= addr || addr + 4 <= other);
        lemma_read_in_region_0(after, 4, other);
        lemma_read_in_region_0(bus, 4, other);
        lemma_read_elsewhere(bus.ram, offset, 4, val, (other % REGION_SIZE) as int, 4);
    }
}

/// A load of a word in the RAM is accepted.
pub proof fn lemma_load_in_ram(bus: BusState, addr: u32)
    requires
        word_in_ram(bus, addr),
    ensures
        bus.load(4, addr) is Ok,
{
    lemma_read_in_region_0(bus, 4, addr);
}

} // verus!
