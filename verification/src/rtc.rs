//! Real-time clock: calendar counters kept as packed BCD digits.
use vstd::prelude::*;
use crate::interrupt::{Interrupt, IrqController};
use crate::memory::Addressable;
use crate::MASTER_CLOCK_HZ;

verus! {

/// Master clock ticks between two toggles of the 2 Hz clock signal.
pub const MASTER_DIVIDER: u32 = MASTER_CLOCK_HZ / 2;

/// Offsets of the clock's registers.
pub const RTC_MODE: u32 = 0x0;

pub const RTC_ADJUST: u32 = 0x4;

pub const RTC_TIME: u32 = 0x8;

pub const RTC_DATE: u32 = 0xc;

/// The packed digits that follow `b`, for a `b` below 0x99: the low
/// digit counts up to 9, then the high digit takes the carry.
pub open spec fn bcd_next(b: u8) -> u8 {
    if b % 16 < 9 {
        (b + 1) as u8
    } else {
        ((b / 16) * 16 + 0x10) as u8
    }
}

/// A counter that steps from `b` and wraps from `max` to `min`: the new
/// digits, and whether it wrapped.
pub open spec fn bcd_step(b: u8, max: u8, min: u8) -> (u8, bool) {
    if b < max {
        (bcd_next(b), false)
    } else {
        (min, true)
    }
}

/// The last day of `month`, in packed digits, for the twelve months; the
/// clock knows no leap years.
pub open spec fn days_in_month(month: u8) -> u8 {
    if month == 0x02 {
        0x28
    } else if month == 0x04 || month == 0x06 || month == 0x09 || month == 0x11 {
        0x30
    } else {
        0x31
    }
}

/// What the clock holds: every counter as packed digits.
#[derive(Copy, Clone, PartialEq, Eq, Debug, Structural)]
pub struct RtcState {
    /// True if the clock is paused.
    pub paused: bool,
    /// Master clock ticks left until the clock signal toggles.
    pub divider: u32,
    /// Seconds, 00 to 59.
    pub seconds: u8,
    /// Minutes, 00 to 59.
    pub minutes: u8,
    /// Hours, 00 to 23.
    pub hours: u8,
    /// Day of the week, 01 (Sunday) to 07 (Saturday).
    pub week_day: u8,
    /// Day of the month, 01 to 31.
    pub day: u8,
    /// Month, 01 to 12 in normal running.
    pub month: u8,
    /// Year, 00 to 99.
    pub year: u8,
    /// The counter that a write to the adjust register steps.
    pub adjust: u8,
    /// True when the next write to the adjust register is ignored.
    pub skip: bool,
}

impl RtcState {
    /// Every counter holds packed digits within the range that the
    /// setters and the adjust register allow.
    pub open spec fn wf(self) -> bool {
        &&& self.divider <= MASTER_DIVIDER
        &&& is_bcd(self.seconds) && self.seconds <= 0x59
        &&& is_bcd(self.minutes) && self.minutes <= 0x59
        &&& is_bcd(self.hours) && self.hours <= 0x23
        &&& is_bcd(self.week_day) && 0x01 <= self.week_day <= 0x07
        &&& is_bcd(self.day) && 0x01 <= self.day <= 0x31
        &&& is_bcd(self.month) && 0x01 <= self.month <= 0x31
        &&& is_bcd(self.year)
        &&& self.adjust <= 7
    }

    /// The month is one of the twelve.
    pub open spec fn month_known(self) -> bool {
        0x01 <= self.month <= 0x12
    }

    /// The time register: seconds, minutes, hours and week day, one byte
    /// each from the low byte up.
    pub open spec fn time(self) -> u32 {
        (self.seconds + self.minutes * 0x100 + self.hours * 0x1_0000 + self.week_day
            * 0x100_0000) as u32
    }

    /// The date register: day, month and year, one byte each from the low
    /// byte up.
    pub open spec fn date(self) -> u32 {
        (self.day + self.month * 0x100 + self.year * 0x1_0000) as u32
    }

    /// The clock after a write of `val` to the mode register: bit 0 pauses
    /// the clock, bits 1 to 3 select the counter to adjust.
    pub open spec fn set_mode(self, val: u32) -> RtcState {
        RtcState { paused: val % 2 == 1, adjust: (val / 2 % 8) as u8, ..self }
    }

    /// True when the adjust register names a counter.
    pub open spec fn can_adjust(self) -> bool {
        self.skip || self.adjust <= 6
    }

    /// The clock after a write to the adjust register: every second write
    /// is ignored, the others step the selected counter, which wraps at
    /// the end of its range.
    pub open spec fn set_adjust(self) -> RtcState {
        if self.skip {
            RtcState { skip: false, ..self }
        } else if self.adjust == 0 {
            RtcState { seconds: bcd_step(self.seconds, 0x59, 0x00).0, skip: true, ..self }
        } else if self.adjust == 1 {
            RtcState { minutes: bcd_step(self.minutes, 0x59, 0x00).0, skip: true, ..self }
        } else if self.adjust == 2 {
            RtcState { hours: bcd_step(self.hours, 0x23, 0x00).0, skip: true, ..self }
        } else if self.adjust == 3 {
            RtcState { week_day: bcd_step(self.week_day, 0x07, 0x01).0, skip: true, ..self }
        } else if self.adjust == 4 {
            RtcState { day: bcd_step(self.day, 0x31, 0x01).0, skip: true, ..self }
        } else if self.adjust == 5 {
            RtcState { month: bcd_step(self.month, 0x31, 0x01).0, skip: true, ..self }
        } else {
            RtcState { year: bcd_step(self.year, 0x99, 0x00).0, skip: true, ..self }
        }
    }

    /// The clock one day later: the week day and the day step, and the
    /// month and the year take the carries.
    pub open spec fn day_elapsed(self) -> RtcState {
        let week_day = bcd_step(self.week_day, 0x07, 0x01).0;
        let (day, day_wrapped) = bcd_step(self.day, days_in_month(self.month), 0x01);
        let (month, month_wrapped) = bcd_step(self.month, 0x12, 0x01);
        let year = bcd_step(self.year, 0x99, 0x00).0;
        if !day_wrapped {
            RtcState { week_day, day, ..self }
        } else if !month_wrapped {
            RtcState { week_day, day, month, ..self }
        } else {
            RtcState { week_day, day, month, year, ..self }
        }
    }

    /// The clock one second later.
    pub open spec fn second_elapsed(self) -> RtcState {
        let (seconds, seconds_wrapped) = bcd_step(self.seconds, 0x59, 0x00);
        let (minutes, minutes_wrapped) = bcd_step(self.minutes, 0x59, 0x00);
        let (hours, hours_wrapped) = bcd_step(self.hours, 0x23, 0x00);
        if !seconds_wrapped {
            RtcState { seconds, ..self }
        } else if !minutes_wrapped {
            RtcState { seconds, minutes, ..self }
        } else if !hours_wrapped {
            RtcState { seconds, minutes, hours, ..self }
        } else {
            (RtcState { seconds, minutes, hours, ..self }).day_elapsed()
        }
    }

    /// The clock and the interrupt controller after `ticks` ticks of the
    /// master clock. Each time the divider runs out the clock signal
    /// toggles; a second elapses on each rising edge unless the clock is
    /// paused.
    pub open spec fn tick(self, irq: IrqController, ticks: u32) -> (RtcState, IrqController)
        decreases ticks, (if self.divider == 0 { 1nat } else { 0nat }),
    {
        if ticks == 0 {
            (self, irq)
        } else if self.divider >= ticks {
            (RtcState { divider: (self.divider - ticks) as u32, ..self }, irq)
        } else {
            let rest = (ticks - self.divider) as u32;
            let level = !irq.raw_interrupt_spec(Interrupt::Rtc);
            let rtc = if level && !self.paused {
                self.second_elapsed()
            } else {
                self
            };
            (RtcState { divider: MASTER_DIVIDER, ..rtc }).tick(
                irq.set_raw_interrupt_spec(Interrupt::Rtc, level),
                rest,
            )
        }
    }
}

/// Stepping packed digits below `max` gives packed digits that spell the
/// next number and do not pass `max`.
pub proof fn lemma_bcd_next(b: u8, max: u8)
    requires
        is_bcd(b),
        is_bcd(max),
        b < max,
    ensures
        is_bcd(bcd_next(b)),
        bcd_value(bcd_next(b)) == bcd_value(b) + 1,
        b < bcd_next(b) <= max,
{
}

/// A day later the clock is still well formed and its month is still one
/// of the twelve.
pub proof fn lemma_day_elapsed_wf(s: RtcState)
    requires
        s.wf(),
        s.month_known(),
    ensures
        s.day_elapsed().wf(),
        s.day_elapsed().month_known(),
        s.day_elapsed().divider == s.divider,
        s.day_elapsed().paused == s.paused,
{
    if s.week_day < 0x07 {
        lemma_bcd_next(s.week_day, 0x07);
    }
    if s.day < days_in_month(s.month) {
        lemma_bcd_next(s.day, days_in_month(s.month));
    }
    if s.month < 0x12 {
        lemma_bcd_next(s.month, 0x12);
    }
    if s.year < 0x99 {
        lemma_bcd_next(s.year, 0x99);
    }
}

/// A second later the clock is still well formed and its month is still
/// one of the twelve.
pub proof fn lemma_second_elapsed_wf(s: RtcState)
    requires
        s.wf(),
        s.month_known(),
    ensures
        s.second_elapsed().wf(),
        s.second_elapsed().month_known(),
        s.second_elapsed().divider == s.divider,
        s.second_elapsed().paused == s.paused,
{
    if s.seconds < 0x59 {
        lemma_bcd_next(s.seconds, 0x59);
    }
    if s.minutes < 0x59 {
        lemma_bcd_next(s.minutes, 0x59);
    }
    if s.hours < 0x23 {
        lemma_bcd_next(s.hours, 0x23);
    }
    lemma_day_elapsed_wf(RtcState { seconds: 0, minutes: 0, hours: 0, ..s });
}

/// True when `b` holds two decimal digits, one per nibble.
pub open spec fn is_bcd(b: u8) -> bool {
    b / 16 <= 9 && b % 16 <= 9
}

/// The number that the packed digits of `b` spell.
pub open spec fn bcd_value(b: u8) -> nat {
    ((b / 16) * 10 + b % 16) as nat
}

/// A single packed BCD value in the range 0-99 (2 digits, 4 bits per
/// digit).
#[derive(Copy, Clone, PartialEq, Eq, PartialOrd, Ord, Debug, Structural)]
pub struct Bcd(u8);

impl Bcd {
    /// The packed digits, for use in contracts.
    pub closed spec fn raw(self) -> u8 {
        self.0
    }

    /// Both nibbles are decimal digits.
    pub open spec fn wf(self) -> bool {
        is_bcd(self.raw())
    }

    /// The number in 0..=99 that this value stands for.
    pub open spec fn value(self) -> nat {
        bcd_value(self.raw())
    }

    #[verifier::type_invariant]
    closed spec fn inv(self) -> bool {
        is_bcd(self.0)
    }

    /// Build a `Bcd` from an `u8` in BCD format. Returns `None` if
    /// the value provided is not valid BCD.
    pub fn from_bcd(b: u8) -> (r: Option<Bcd>)
        ensures
            r.is_some() <==> is_bcd(b),
            r.is_some() ==> r.unwrap().raw() == b && r.unwrap().wf(),
    {
        if b / 16 <= 9 && b % 16 <= 9 {
            Some(Bcd(b))
        } else {
            None
        }
    }

    /// Build a `Bcd` from a binary `u8`. Returns `None` if the value
    /// is greater than 99.
    pub fn from_binary(b: u8) -> (r: Option<Bcd>)
        ensures
            r.is_some() <==> b <= 99,
            r.is_some() ==> r.unwrap().wf() && r.unwrap().value() == b,
    {
        if b > 99 {
            None
        } else {
            Some(Bcd((b / 10) * 16 + b % 10))
        }
    }

    /// Return a BCD equal to 0
    pub fn zero() -> (r: Bcd)
        ensures
            r.raw() == 0,
            r.wf(),
    {
        Bcd(0)
    }

    /// Return a BCD equal to 1
    pub fn one() -> (r: Bcd)
        ensures
            r.raw() == 1,
            r.wf(),
    {
        Bcd(1)
    }

    /// Returns the BCD as an u8
    pub fn bcd(self) -> (r: u8)
        ensures
            r == self.raw(),
            is_bcd(r),
    {
        proof {
            use_type_invariant(&self);
        }
        self.0
    }

    /// Returns the BCD value plus one or None if the value is 99.
    pub fn next(self) -> (r: Option<Bcd>)
        ensures
            r.is_some() <==> self.value() < 99,
            r.is_some() <==> self.raw() < 0x99,
            r.is_some() ==> r.unwrap().wf() && r.unwrap().value() == self.value() + 1,
            r.is_some() ==> r.unwrap().raw() == bcd_next(self.raw()),
    {
        proof {
            use_type_invariant(&self);
        }
        let b: u8 = self.0;
        if b % 16 < 9 {
            Some(Bcd(b + 1))
        } else if b < 0x99 {
            Some(Bcd((b / 16) * 16 + 0x10))
        } else {
            None
        }
    }
}

/// Ticks add up: the clock after `a` ticks and then `b` more is the clock
/// after `a + b` ticks.
pub proof fn law_ticks_add_up(s: RtcState, irq: IrqController, a: u32, b: u32)
    requires
        a + b <= u32::MAX,
    ensures
        ({
            let (s1, irq1) = s.tick(irq, a);
            s1.tick(irq1, b) == s.tick(irq, (a + b) as u32)
        }),
    decreases a, (if s.divider == 0 { 1nat } else { 0nat }),
{
    if a == 0 {
    } else if s.divider >= a {
        let waited = RtcState { divider: (s.divider - a) as u32, ..s };
        if b > 0 && waited.divider < b {
            assert(waited.second_elapsed() == (RtcState {
                divider: waited.divider,
                ..s.second_elapsed()
            }));
        }
    } else {
        let level = !irq.raw_interrupt_spec(Interrupt::Rtc);
        let rtc = if level && !s.paused {
            s.second_elapsed()
        } else {
            s
        };
        law_ticks_add_up(
            RtcState { divider: MASTER_DIVIDER, ..rtc },
            irq.set_raw_interrupt_spec(Interrupt::Rtc, level),
            (a - s.divider) as u32,
            b,
        );
    }
}

/// Step `bcd` towards `max`, or wrap to `min` once `max` is reached; the
/// flag tells whether it wrapped.
fn inc_overflow(bcd: Bcd, max: u8, min: Bcd) -> (r: (Bcd, bool))
    requires
        is_bcd(max),
    ensures
        (r.0.raw(), r.1) == bcd_step(bcd.raw(), max, min.raw()),
{
    if bcd.bcd() < max {
        match bcd.next() {
            Some(next) => (next, false),
            None => (min, true),
        }
    } else {
        (min, true)
    }
}

/// The real-time clock.
pub struct Rtc {
    /// True if the RTC is paused
    paused: bool,
    /// Master clock divider counter to get a 2Hz signal
    divider: u32,
    /// Current seconds: [00...59]
    seconds: Bcd,
    /// Current minutes: [00...59]
    minutes: Bcd,
    /// Current hours: [00...23]
    hours: Bcd,
    /// Week day; [01...07] (01 is Sunday, 02 Monday ... 07 Saturday)
    week_day: Bcd,
    /// Day of the month: [01...31]
    day: Bcd,
    /// Month: [01..12]
    month: Bcd,
    /// Year: [00..99]
    year: Bcd,
    /// Counter selected for the adjust register, see `set_adjust`
    adjust: u8,
    /// The firmware always writes the adjust register twice in a row:
    /// every second write is ignored, so that odd values can be reached.
    skip: bool,
}

impl View for Rtc {
    type V = RtcState;

    closed spec fn view(&self) -> RtcState {
        RtcState {
            paused: self.paused,
            divider: self.divider,
            seconds: self.seconds.raw(),
            minutes: self.minutes.raw(),
            hours: self.hours.raw(),
            week_day: self.week_day.raw(),
            day: self.day.raw(),
            month: self.month.raw(),
            year: self.year.raw(),
            adjust: self.adjust,
            skip: self.skip,
        }
    }
}

impl Rtc {
    /// A running clock set to Sunday, January 1st of year 99, midnight.
    pub fn new() -> (r: Rtc)
        ensures
            r@ == (RtcState {
                paused: false,
                divider: MASTER_DIVIDER,
                seconds: 0,
                minutes: 0,
                hours: 0,
                week_day: 1,
                day: 1,
                month: 1,
                year: 0x99,
                adjust: 0,
                skip: false,
            }),
            r@.wf(),
            r@.month_known(),
    {
        let year = match Bcd::from_bcd(0x99) {
            Some(y) => y,
            None => Bcd::zero(),
        };
        Rtc {
            paused: false,
            divider: MASTER_DIVIDER,
            seconds: Bcd::zero(),
            minutes: Bcd::zero(),
            hours: Bcd::zero(),
            week_day: Bcd::one(),
            day: Bcd::one(),
            month: Bcd::one(),
            year,
            adjust: 0,
            skip: false,
        }
    }

    /// Everything that the clock holds, as plain values.
    pub fn state(&self) -> (r: RtcState)
        ensures
            r == self@,
    {
        RtcState {
            paused: self.paused,
            divider: self.divider,
            seconds: self.seconds.bcd(),
            minutes: self.minutes.bcd(),
            hours: self.hours.bcd(),
            week_day: self.week_day.bcd(),
            day: self.day.bcd(),
            month: self.month.bcd(),
            year: self.year.bcd(),
            adjust: self.adjust,
            skip: self.skip,
        }
    }

    /// A clock that holds `state`. Returns `None` unless every counter of
    /// `state` holds packed digits within its range.
    pub fn from_state(state: RtcState) -> (r: Option<Rtc>)
        ensures
            r.is_some() <==> state.wf(),
            r.is_some() ==> r.unwrap()@ == state,
    {
        let in_range = state.divider <= MASTER_DIVIDER && state.seconds <= 0x59 && state.minutes
            <= 0x59 && state.hours <= 0x23 && 0x01 <= state.week_day && state.week_day <= 0x07
            && 0x01 <= state.day && state.day <= 0x31 && 0x01 <= state.month && state.month
            <= 0x31 && state.adjust <= 7;
        if !in_range {
            return None;
        }
        match (
            Bcd::from_bcd(state.seconds),
            Bcd::from_bcd(state.minutes),
            Bcd::from_bcd(state.hours),
            Bcd::from_bcd(state.week_day),
            Bcd::from_bcd(state.day),
            Bcd::from_bcd(state.month),
            Bcd::from_bcd(state.year),
        ) {
            (
                Some(seconds),
                Some(minutes),
                Some(hours),
                Some(week_day),
                Some(day),
                Some(month),
                Some(year),
            ) => Some(
                Rtc {
                    paused: state.paused,
                    divider: state.divider,
                    seconds,
                    minutes,
                    hours,
                    week_day,
                    day,
                    month,
                    year,
                    adjust: state.adjust,
                    skip: state.skip,
                },
            ),
            _ => None,
        }
    }

    /// Advance the clock by `master_ticks` ticks of the master clock and
    /// drive the clock's interrupt line.
    pub fn tick(&mut self, irq: &mut IrqController, master_ticks: u32)
        requires
            old(self)@.wf(),
            old(self)@.month_known(),
        ensures
            (final(self)@, *final(irq)) == old(self)@.tick(*old(irq), master_ticks),
            final(self)@.wf(),
            final(self)@.month_known(),
    {
        let mut left = master_ticks;
        while left > 0
            invariant
                self@.wf(),
                self@.month_known(),
                self@.tick(*irq, left) == old(self)@.tick(*old(irq), master_ticks),
            decreases left, (if self@.divider == 0 { 1nat } else { 0nat }),
        {
            if self.divider >= left {
                self.divider -= left;
                left = 0;
            } else {
                left -= self.divider;
                // We exhausted the divider, toggle the RTC signal
                let level = !irq.raw_interrupt(Interrupt::Rtc);
                if level {
                    if !self.paused {
                        self.second_elapsed();
                    }
                }
                self.divider = MASTER_DIVIDER;
                irq.set_raw_interrupt(Interrupt::Rtc, level);
            }
        }
    }

    /// True when a write to the register at `offset` can be carried out:
    /// the register exists, and the adjust register names a counter.
    pub fn accepts_store(&self, offset: u32) -> (r: bool)
        ensures
            r == (offset == RTC_MODE || (offset == RTC_ADJUST && self@.can_adjust())),
    {
        offset == RTC_MODE || (offset == RTC_ADJUST && (self.skip || self.adjust <= 6))
    }

    /// Write `val` to the mode register (offset 0) or step the counter
    /// that the adjust register (offset 4) stands for.
    pub fn store<A: Addressable>(&mut self, offset: u32, val: u32)
        requires
            old(self)@.wf(),
            offset == RTC_MODE || (offset == RTC_ADJUST && old(self)@.can_adjust()),
        ensures
            offset == RTC_MODE ==> final(self)@ == old(self)@.set_mode(val),
            offset == RTC_ADJUST ==> final(self)@ == old(self)@.set_adjust(),
            final(self)@.wf(),
    {
        if offset == RTC_MODE {
            self.set_mode(val)
        } else {
            self.set_adjust(val)
        }
    }

    /// Read the time register (offset 8) or the date register (offset
    /// 0xc).
    pub fn load<A: Addressable>(&self, offset: u32) -> (r: u32)
        requires
            offset == RTC_TIME || offset == RTC_DATE,
        ensures
            offset == RTC_TIME ==> r == self@.time(),
            offset == RTC_DATE ==> r == self@.date(),
    {
        if offset == RTC_TIME {
            self.time()
        } else {
            self.date()
        }
    }

    /// Set the seconds, 00 to 59.
    pub fn set_seconds(&mut self, bcd: Bcd)
        requires
            bcd.raw() <= 0x59,
            bcd.wf(),
        ensures
            final(self)@ == (RtcState { seconds: bcd.raw(), ..old(self)@ }),
    {
        self.seconds = bcd;
    }

    /// Set the minutes, 00 to 59.
    pub fn set_minutes(&mut self, bcd: Bcd)
        requires
            bcd.raw() <= 0x59,
            bcd.wf(),
        ensures
            final(self)@ == (RtcState { minutes: bcd.raw(), ..old(self)@ }),
    {
        self.minutes = bcd;
    }

    /// Set the hours, 00 to 23.
    pub fn set_hours(&mut self, bcd: Bcd)
        requires
            bcd.raw() <= 0x23,
            bcd.wf(),
        ensures
            final(self)@ == (RtcState { hours: bcd.raw(), ..old(self)@ }),
    {
        self.hours = bcd;
    }

    /// Set the day of the week, 01 to 07.
    pub fn set_week_day(&mut self, bcd: Bcd)
        requires
            0x01 <= bcd.raw() <= 0x07,
            bcd.wf(),
        ensures
            final(self)@ == (RtcState { week_day: bcd.raw(), ..old(self)@ }),
    {
        self.week_day = bcd;
    }

    /// Set the day of the month, 01 to 31.
    pub fn set_day(&mut self, bcd: Bcd)
        requires
            0x01 <= bcd.raw() <= 0x31,
            bcd.wf(),
        ensures
            final(self)@ == (RtcState { day: bcd.raw(), ..old(self)@ }),
    {
        self.day = bcd;
    }

    /// Set the month, 01 to 12.
    pub fn set_month(&mut self, bcd: Bcd)
        requires
            0x01 <= bcd.raw() <= 0x12,
            bcd.wf(),
        ensures
            final(self)@ == (RtcState { month: bcd.raw(), ..old(self)@ }),
    {
        self.month = bcd;
    }

    /// Set the year, 00 to 99.
    pub fn set_year(&mut self, bcd: Bcd)
        requires
            bcd.wf(),
        ensures
            final(self)@ == (RtcState { year: bcd.raw(), ..old(self)@ }),
    {
        self.year = bcd;
    }

    /// The time register.
    fn time(&self) -> (r: u32)
        ensures
            r == self@.time(),
    {
        let seconds = self.seconds.bcd() as u32;
        let minutes = self.minutes.bcd() as u32;
        let hours = self.hours.bcd() as u32;
        let week_day = self.week_day.bcd() as u32;
        seconds + minutes * 0x100 + hours * 0x1_0000 + week_day * 0x100_0000
    }

    /// The date register.
    fn date(&self) -> (r: u32)
        ensures
            r == self@.date(),
    {
        let day = self.day.bcd() as u32;
        let month = self.month.bcd() as u32;
        let year = self.year.bcd() as u32;
        day + month * 0x100 + year * 0x1_0000
    }

    fn set_mode(&mut self, val: u32)
        ensures
            final(self)@ == old(self)@.set_mode(val),
    {
        self.paused = val % 2 == 1;
        self.adjust = (val / 2 % 8) as u8;
    }

    fn set_adjust(&mut self, _val: u32)
        requires
            old(self)@.wf(),
            old(self)@.can_adjust(),
        ensures
            final(self)@ == old(self)@.set_adjust(),
            final(self)@.wf(),
    {
        if self.skip {
            self.skip = false;
            return ;
        }
        proof {
            let s = self@;
            if s.seconds < 0x59 {
                lemma_bcd_next(s.seconds, 0x59);
            }
            if s.minutes < 0x59 {
                lemma_bcd_next(s.minutes, 0x59);
            }
            if s.hours < 0x23 {
                lemma_bcd_next(s.hours, 0x23);
            }
            if s.week_day < 0x07 {
                lemma_bcd_next(s.week_day, 0x07);
            }
            if s.day < 0x31 {
                lemma_bcd_next(s.day, 0x31);
            }
            if s.month < 0x31 {
                lemma_bcd_next(s.month, 0x31);
            }
            if s.year < 0x99 {
                lemma_bcd_next(s.year, 0x99);
            }
        }
        if self.adjust == 0 {
            self.seconds = inc_overflow(self.seconds, 0x59, Bcd::zero()).0;
        } else if self.adjust == 1 {
            self.minutes = inc_overflow(self.minutes, 0x59, Bcd::zero()).0;
        } else if self.adjust == 2 {
            self.hours = inc_overflow(self.hours, 0x23, Bcd::zero()).0;
        } else if self.adjust == 3 {
            self.week_day = inc_overflow(self.week_day, 0x07, Bcd::one()).0;
        } else if self.adjust == 4 {
            self.day = inc_overflow(self.day, 0x31, Bcd::one()).0;
        } else if self.adjust == 5 {
            self.month = inc_overflow(self.month, 0x31, Bcd::one()).0;
        } else {
            self.year = inc_overflow(self.year, 0x99, Bcd::zero()).0;
        }
        self.skip = true;
    }

    fn second_elapsed(&mut self)
        requires
            old(self)@.wf(),
            old(self)@.month_known(),
        ensures
            final(self)@ == old(self)@.second_elapsed(),
            final(self)@.wf(),
            final(self)@.month_known(),
    {
        proof {
            lemma_second_elapsed_wf(self@);
        }
        let (seconds, wrapped) = inc_overflow(self.seconds, 0x59, Bcd::zero());
        self.seconds = seconds;
        if wrapped {
            let (minutes, wrapped) = inc_overflow(self.minutes, 0x59, Bcd::zero());
            self.minutes = minutes;
            if wrapped {
                let (hours, wrapped) = inc_overflow(self.hours, 0x23, Bcd::zero());
                self.hours = hours;
                if wrapped {
                    self.day_elapsed();
                }
            }
        }
    }

    fn day_elapsed(&mut self)
        requires
            old(self)@.month_known(),
        ensures
            final(self)@ == old(self)@.day_elapsed(),
    {
        self.week_day = inc_overflow(self.week_day, 0x07, Bcd::one()).0;
        let month = self.month.bcd();
        let days_in_month: u8 = if month == 0x02 {
            0x28
        } else if month == 0x04 || month == 0x06 || month == 0x09 || month == 0x11 {
            0x30
        } else {
            0x31
        };
        let (day, wrapped) = inc_overflow(self.day, days_in_month, Bcd::one());
        self.day = day;
        if wrapped {
            let (month, wrapped) = inc_overflow(self.month, 0x12, Bcd::one());
            self.month = month;
            if wrapped {
                self.year = inc_overflow(self.year, 0x99, Bcd::zero()).0;
            }
        }
    }
}

} // verus!
