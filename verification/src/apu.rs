//! The audio processing unit: two pulse channels, a triangle channel, a noise
//! channel, a delta modulation channel and the frame sequencer that clocks them.
//! Mixing the channel levels into samples is floating-point work and is done by the
//! caller from the levels that each CPU cycle reports.
use vstd::prelude::*;
use crate::bitmisc::{lemma_u8_bits, lemma_u16_compose};
use vstd::array::spec_array_update;
use vstd::wrapping::u16_specs;

pub mod timer;

verus! {

// ---------------------------------------------------------------------------------------
// Lookup tables
// ---------------------------------------------------------------------------------------

/// The length counter load values, by the 5-bit index written to a channel.
pub open spec fn length_table(i: u8) -> u8 {
    match i {
        0 => 0x0A, 1 => 0xFE, 2 => 0x14, 3 => 0x02, 4 => 0x28, 5 => 0x04, 6 => 0x50, 7 => 0x06,
        8 => 0xA0, 9 => 0x08, 10 => 0x3C, 11 => 0x0A, 12 => 0x0E, 13 => 0x0C, 14 => 0x1A, 15 => 0x0E,
        16 => 0x0C, 17 => 0x10, 18 => 0x18, 19 => 0x12, 20 => 0x30, 21 => 0x14, 22 => 0x60, 23 => 0x16,
        24 => 0xC0, 25 => 0x18, 26 => 0x48, 27 => 0x1A, 28 => 0x10, 29 => 0x1C, 30 => 0x20, _ => 0x1E,
    }
}

fn length_table_lookup(i: u8) -> (r: u8)
    requires
        i < 32,
    ensures
        r == length_table(i),
        r <= 0xFE,
{
    match i {
        0 => 0x0A, 1 => 0xFE, 2 => 0x14, 3 => 0x02, 4 => 0x28, 5 => 0x04, 6 => 0x50, 7 => 0x06,
        8 => 0xA0, 9 => 0x08, 10 => 0x3C, 11 => 0x0A, 12 => 0x0E, 13 => 0x0C, 14 => 0x1A, 15 => 0x0E,
        16 => 0x0C, 17 => 0x10, 18 => 0x18, 19 => 0x12, 20 => 0x30, 21 => 0x14, 22 => 0x60, 23 => 0x16,
        24 => 0xC0, 25 => 0x18, 26 => 0x48, 27 => 0x1A, 28 => 0x10, 29 => 0x1C, 30 => 0x20, _ => 0x1E,
    }
}

/// The four pulse duty patterns: 12.5%, 25%, 50% and 25% negated.
pub open spec fn pulse_sequence(duty: u8, index: int) -> u8 {
    if duty == 0 {
        if index == 7 { 1 } else { 0 }
    } else if duty == 1 {
        if index >= 6 { 1 } else { 0 }
    } else if duty == 2 {
        if index >= 4 { 1 } else { 0 }
    } else {
        if index < 6 { 1 } else { 0 }
    }
}

fn pulse_sequence_lookup(duty: u8, index: usize) -> (r: u8)
    requires
        duty < 4,
        index < 8,
    ensures
        r == pulse_sequence(duty, index as int),
{
    if duty == 0 {
        if index == 7 { 1 } else { 0 }
    } else if duty == 1 {
        if index >= 6 { 1 } else { 0 }
    } else if duty == 2 {
        if index >= 4 { 1 } else { 0 }
    } else {
        if index < 6 { 1 } else { 0 }
    }
}

/// The triangle wave: 15 down to 0, then 0 up to 15.
pub open spec fn triangle_sequence(index: int) -> u8 {
    if index < 16 { (15 - index) as u8 } else { (index - 16) as u8 }
}

fn triangle_sequence_lookup(index: usize) -> (r: u8)
    requires
        index < 32,
    ensures
        r == triangle_sequence(index as int),
        r <= 15,
{
    if index < 16 { (15 - index) as u8 } else { (index - 16) as u8 }
}

/// The delta modulation rates (NTSC), in CPU cycles.
pub open spec fn rate_ntsc(i: usize) -> u16 {
    match i {
        0 => 428, 1 => 380, 2 => 340, 3 => 320, 4 => 286, 5 => 254, 6 => 226, 7 => 214,
        8 => 190, 9 => 160, 10 => 142, 11 => 128, 12 => 106, 13 => 84, 14 => 72, _ => 54,
    }
}

fn rate_ntsc_lookup(i: usize) -> (r: u16)
    requires
        i < 16,
    ensures
        r == rate_ntsc(i),
        r <= 428,
{
    match i {
        0 => 428, 1 => 380, 2 => 340, 3 => 320, 4 => 286, 5 => 254, 6 => 226, 7 => 214,
        8 => 190, 9 => 160, 10 => 142, 11 => 128, 12 => 106, 13 => 84, 14 => 72, _ => 54,
    }
}

/// The noise channel timer periods (NTSC).
pub open spec fn noise_period_ntsc(i: u8) -> u16 {
    match i {
        0 => 4, 1 => 8, 2 => 16, 3 => 32, 4 => 64, 5 => 96, 6 => 128, 7 => 160,
        8 => 202, 9 => 254, 10 => 380, 11 => 508, 12 => 762, 13 => 1016, 14 => 2034, _ => 4068,
    }
}

fn noise_period_lookup(i: u8) -> (r: u16)
    requires
        i < 16,
    ensures
        r == noise_period_ntsc(i),
        r <= 4068,
{
    match i {
        0 => 4, 1 => 8, 2 => 16, 3 => 32, 4 => 64, 5 => 96, 6 => 128, 7 => 160,
        8 => 202, 9 => 254, 10 => 380, 11 => 508, 12 => 762, 13 => 1016, 14 => 2034, _ => 4068,
    }
}

// ---------------------------------------------------------------------------------------
// Envelope
// ---------------------------------------------------------------------------------------

/// The volume envelope of the pulse and noise channels.
#[derive(Clone, Copy, Debug, PartialEq, Eq, Structural)]
pub struct Envelope {
    pub decay: u8,
    pub divider: u8,
    pub reload_flag: bool,
    pub loop_flag: bool,
    pub period: u8,
    pub constant_volume_flag: bool,
}

impl Envelope {
    /// The envelope's volumes are 4-bit values.
    pub open spec fn wf(self) -> bool {
        self.decay <= 15 && self.period <= 15
    }

    pub open spec fn reloaded(self, loop_flag: bool, constant_volume_flag: bool, period: u8) -> Self {
        Envelope { loop_flag, constant_volume_flag, period, reload_flag: true, ..self }
    }

    pub open spec fn ticked(self) -> Self {
        if self.reload_flag {
            Envelope { divider: (self.period + 1) as u8, decay: 15, reload_flag: false, ..self }
        } else if self.divider == 0 {
            let decay: u8 = if self.decay > 0 {
                (self.decay - 1) as u8
            } else if self.loop_flag {
                15
            } else {
                self.decay
            };
            Envelope { divider: (self.period + 1) as u8, decay, ..self }
        } else {
            Envelope { divider: (self.divider - 1) as u8, ..self }
        }
    }

    pub open spec fn level(self) -> u8 {
        if self.constant_volume_flag { self.period } else { self.decay }
    }

    pub open spec fn new_spec() -> Self {
        Envelope {
            decay: 0,
            divider: 0,
            reload_flag: false,
            loop_flag: false,
            period: 0,
            constant_volume_flag: false,
        }
    }

    pub fn new() -> (e: Self)
        ensures
            e == (Envelope {
                decay: 0,
                divider: 0,
                reload_flag: false,
                loop_flag: false,
                period: 0,
                constant_volume_flag: false,
            }),
            e.wf(),
    {
        Envelope {
            decay: 0,
            divider: 0,
            reload_flag: false,
            loop_flag: false,
            constant_volume_flag: false,
            period: 0,
        }
    }

    pub fn reload(&mut self, loop_flag: bool, constant_volume_flag: bool, period: u8)
        ensures
            *final(self) == old(self).reloaded(loop_flag, constant_volume_flag, period),
    {
        self.loop_flag = loop_flag;
        self.constant_volume_flag = constant_volume_flag;
        self.period = period;
        self.reload_flag = true;
    }

    pub fn tick(&mut self)
        requires
            old(self).period < 255,
        ensures
            *final(self) == old(self).ticked(),
    {
        if self.reload_flag {
            self.divider = self.period + 1;
            self.decay = 15;
            self.reload_flag = false;
        } else if self.divider == 0 {
            self.divider = self.period + 1;
            if self.decay > 0 {
                self.decay = self.decay - 1;
            } else if self.decay == 0 && self.loop_flag == true {
                self.decay = 15;
            }
        } else {
            self.divider = self.divider - 1;
        }
    }

    pub fn output(&self) -> (r: u8)
        ensures
            r == self.level(),
    {
        if self.constant_volume_flag == true {
            self.period
        } else {
            self.decay
        }
    }
}

/// The envelope keeps its volumes in 4 bits, whatever it is clocked or reloaded with
/// (a reload with a 4-bit period).
pub proof fn lemma_envelope_stays_4_bit(e: Envelope, loop_flag: bool, constant_volume_flag: bool, period: u8)
    requires
        e.wf(),
        period <= 15,
    ensures
        e.ticked().wf(),
        e.reloaded(loop_flag, constant_volume_flag, period).wf(),
        e.level() <= 15,
{
}

// ---------------------------------------------------------------------------------------
// Length counter
// ---------------------------------------------------------------------------------------

/// Silences a channel after a programmed number of half frames.
#[derive(Clone, Copy, Debug, PartialEq, Eq, Structural)]
pub struct LengthCounter {
    pub divider: u8,
    pub enable: bool,
    pub halt_flag: bool,
}

impl LengthCounter {
    pub open spec fn with_halt(self, halt_flag: bool) -> Self {
        LengthCounter { halt_flag, ..self }
    }

    pub open spec fn ticked(self) -> Self {
        if self.divider > 0 && !self.halt_flag {
            LengthCounter { divider: (self.divider - 1) as u8, ..self }
        } else {
            self
        }
    }

    pub open spec fn turned_off(self) -> Self {
        LengthCounter { divider: 0, enable: false, ..self }
    }

    pub open spec fn turned_on(self) -> Self {
        LengthCounter { enable: true, ..self }
    }

    pub open spec fn reloaded(self, index: u8) -> Self {
        if self.enable {
            LengthCounter { divider: (length_table(index) + 1) as u8, ..self }
        } else {
            self
        }
    }

    pub open spec fn switched(self, enable: bool) -> Self {
        if enable { self.turned_on() } else { self.turned_off() }
    }

    pub fn new() -> (l: Self)
        ensures
            l == (LengthCounter { divider: 0, enable: false, halt_flag: false }),
    {
        LengthCounter { divider: 0, enable: false, halt_flag: false }
    }

    pub fn set_halt(&mut self, halt_flag: bool)
        ensures
            *final(self) == old(self).with_halt(halt_flag),
    {
        self.halt_flag = halt_flag;
    }

    pub fn tick(&mut self)
        ensures
            *final(self) == old(self).ticked(),
    {
        if self.divider > 0 && !self.halt_flag {
            self.divider = self.divider - 1;
        }
    }

    pub fn turn_off(&mut self)
        ensures
            *final(self) == old(self).turned_off(),
    {
        self.divider = 0;
        self.enable = false;
    }

    pub fn turn_on(&mut self)
        ensures
            *final(self) == old(self).turned_on(),
    {
        self.enable = true;
    }

    pub fn reload(&mut self, index: u8)
        requires
            index < 32,
        ensures
            *final(self) == old(self).reloaded(index),
    {
        if self.enable {
            self.divider = length_table_lookup(index) + 1;
        }
    }

    pub fn output(&self) -> (r: u8)
        ensures
            r == self.divider,
    {
        self.divider
    }

    /// Switches the counter on or off, as the status register does.
    fn switch(&mut self, enable: bool)
        ensures
            *final(self) == old(self).switched(enable),
    {
        if enable {
            self.turn_on();
        } else {
            self.turn_off();
        }
    }
}

/// A length counter that is switched off reads zero, and stays at zero through
/// reloads and clocks until it is switched on again.
pub proof fn lemma_length_counter_off_is_silent(l: LengthCounter, index: u8)
    ensures
        l.turned_off().divider == 0,
        l.turned_off().reloaded(index).divider == 0,
        l.turned_off().ticked().divider == 0,
{
}

/// What can happen to a length counter short of switching it on: a reload from register
/// 3, a half-frame clock, or a new halt flag.
pub enum LengthEvent {
    Reload(u8),
    Tick,
    Halt(bool),
}

/// The counter after the events `evs`, in order.
pub open spec fn after_events(l: LengthCounter, evs: Seq<LengthEvent>) -> LengthCounter
    decreases evs.len(),
{
    if evs.len() == 0 {
        l
    } else {
        let l1 = match evs[0] {
            LengthEvent::Reload(i) => l.reloaded(i),
            LengthEvent::Tick => l.ticked(),
            LengthEvent::Halt(h) => l.with_halt(h),
        };
        after_events(l1, evs.drop_first())
    }
}

/// A length counter switched off stays off and reads zero through any sequence of
/// reloads, clocks and halt changes, until it is switched on again.
pub proof fn lemma_length_counter_stays_off(l: LengthCounter, evs: Seq<LengthEvent>)
    ensures
        after_events(l.turned_off(), evs).divider == 0,
        !after_events(l.turned_off(), evs).enable,
    decreases evs.len(),
{
    if evs.len() > 0 {
        let l0 = l.turned_off();
        let l1 = match evs[0] {
            LengthEvent::Reload(i) => l0.reloaded(i),
            LengthEvent::Tick => l0.ticked(),
            LengthEvent::Halt(h) => l0.with_halt(h),
        };
        assert(l1 == l1.turned_off());
        lemma_length_counter_stays_off(l1, evs.drop_first());
    }
}

// ---------------------------------------------------------------------------------------
// Pulse channel
// ---------------------------------------------------------------------------------------

/// A square wave channel with a sweep unit.
#[derive(Clone, Copy, Debug)]
pub struct PulseChannel {
    pub register: [u8; 4],
    pub envelope: Envelope,
    pub timer: timer::State,
    pub length_counter: LengthCounter,
    pub is_first_channel: bool,
    pub sequence_index: usize,
    pub sweep_divider: u8,
    pub sweep_reload_flag: bool,
}

/// The 11-bit timer period held in the low bits of register 3 and register 2.
pub open spec fn timer_period_of(r2: u8, r3: u8) -> u16 {
    ((r3 % 8) * 256 + r2) as u16
}

impl PulseChannel {
    /// The envelope holds the loop flag, constant-volume flag and period of register 0.
    pub open spec fn wf(self) -> bool {
        &&& self.sequence_index < 8
        &&& self.envelope.wf()
        &&& self.envelope.loop_flag == self.envelope_loop_flag()
        &&& self.envelope.constant_volume_flag == self.constant_volume_flag()
        &&& self.envelope.period == self.envelope_period()
    }

    pub open spec fn duty(self) -> u8 {
        self.register[0] / 64
    }

    pub open spec fn envelope_loop_flag(self) -> bool {
        self.register[0] / 32 % 2 == 1
    }

    pub open spec fn constant_volume_flag(self) -> bool {
        self.register[0] / 16 % 2 == 1
    }

    pub open spec fn envelope_period(self) -> u8 {
        self.register[0] % 16
    }

    pub open spec fn sweep_enabled(self) -> bool {
        self.register[1] >= 128
    }

    pub open spec fn sweep_period(self) -> u8 {
        self.register[1] / 16 % 8
    }

    pub open spec fn sweep_negate(self) -> bool {
        self.register[1] / 8 % 2 == 1
    }

    pub open spec fn sweep_shift(self) -> u8 {
        self.register[1] % 8
    }

    pub open spec fn timer_period(self) -> u16 {
        timer_period_of(self.register[2], self.register[3])
    }

    pub open spec fn length_index(self) -> u8 {
        self.register[3] / 8
    }

    /// The period that the sweep unit aims at: the timer period plus or minus the
    /// timer period shifted right by the sweep shift; the first channel subtracts one
    /// more (ones' complement), all in 16-bit wrapping arithmetic.
    pub open spec fn sweep_target(self) -> u16 {
        let old_timer = self.timer_period();
        let change = old_timer >> self.sweep_shift();
        if self.sweep_negate() {
            if self.is_first_channel {
                u16_specs::wrapping_sub(u16_specs::wrapping_sub(old_timer, change), 1)
            } else {
                u16_specs::wrapping_sub(old_timer, change)
            }
        } else {
            u16_specs::wrapping_add(old_timer, change)
        }
    }

    pub open spec fn enabled(self) -> bool {
        self.length_counter.divider != 0
    }

    pub open spec fn sequence_level(self) -> u8 {
        pulse_sequence(self.duty(), self.sequence_index as int)
    }

    pub open spec fn silent(self) -> bool {
        !self.enabled() || self.sequence_level() == 0 || (self.sweep_target() > 0x7FF
            && self.sweep_enabled())
    }

    pub open spec fn level(self) -> u8 {
        if self.silent() { 0 } else { self.envelope.level() }
    }

    pub open spec fn register_written(self, addr: u16, value: u8) -> Self {
        let sel = (addr % 4) as int;
        let c = PulseChannel { register: spec_array_update(self.register, sel, value), ..self };
        if sel == 0 {
            PulseChannel {
                envelope: c.envelope.reloaded(
                    c.envelope_loop_flag(),
                    c.constant_volume_flag(),
                    c.envelope_period(),
                ),
                length_counter: c.length_counter.with_halt(c.envelope_loop_flag()),
                ..c
            }
        } else if sel == 1 {
            PulseChannel { sweep_reload_flag: true, ..c }
        } else if sel == 3 {
            PulseChannel {
                length_counter: c.length_counter.reloaded(c.length_index()),
                sequence_index: 0,
                ..c
            }
        } else {
            c
        }
    }

    pub open spec fn sequencer_clocked(self) -> Self {
        PulseChannel {
            sequence_index: if self.sequence_index == 0 { 7 } else { (self.sequence_index - 1) as usize },
            ..self
        }
    }

    pub open spec fn ticked(self) -> Self {
        let t = PulseChannel { timer: self.timer.stepped(self.timer_period()), ..self };
        if self.timer.divider == 0 { t.sequencer_clocked() } else { t }
    }

    pub open spec fn timer_set_to(self, period: u16) -> Self {
        let r = spec_array_update(self.register, 2, (period % 256) as u8);
        PulseChannel {
            register: spec_array_update(r, 3, ((self.register[3] / 8) * 8 + (period / 256) % 8) as u8),
            ..self
        }
    }

    pub open spec fn sweep_ticked(self) -> Self {
        let target = self.sweep_target();
        let muting = self.timer_period() < 8 || target > 0x7FF;
        let c = if self.sweep_divider == 0 && self.sweep_enabled() && !muting {
            self.timer_set_to(target)
        } else {
            self
        };
        if self.sweep_divider == 0 || self.sweep_reload_flag {
            PulseChannel {
                sweep_divider: (c.sweep_period() + 1) as u8,
                sweep_reload_flag: false,
                ..c
            }
        } else {
            PulseChannel { sweep_divider: (self.sweep_divider - 1) as u8, ..c }
        }
    }

    pub open spec fn quarter_clocked(self) -> Self {
        PulseChannel { envelope: self.envelope.ticked(), ..self }
    }

    pub open spec fn half_clocked(self) -> Self {
        let s = self.sweep_ticked();
        PulseChannel { length_counter: s.length_counter.ticked(), ..s }
    }

    pub open spec fn switched(self, enable: bool) -> Self {
        PulseChannel { length_counter: self.length_counter.switched(enable), ..self }
    }

    pub fn new(is_first_channel: bool) -> (c: Self)
        ensures
            c.register@ == seq![0u8, 0, 0, 0],
            c.envelope == Envelope::new_spec(),
            c.timer.divider == 0,
            c.length_counter == (LengthCounter { divider: 0, enable: false, halt_flag: false }),
            c.is_first_channel == is_first_channel,
            c.sequence_index == 0,
            c.sweep_divider == 0,
            !c.sweep_reload_flag,
            c.wf(),
    {
        let c = PulseChannel {
            register: [0, 0, 0, 0],
            envelope: Envelope::new(),
            timer: timer::State::new(),
            length_counter: LengthCounter::new(),
            is_first_channel,
            sequence_index: 0,
            sweep_divider: 0,
            sweep_reload_flag: false,
        };
        assert(c.register@ =~= seq![0u8, 0, 0, 0]);
        c
    }

    pub fn reg_duty(&self) -> (r: u8)
        ensures
            r == self.duty(),
            r < 4,
    {
        proof { lemma_u8_bits(self.register[0]); }
        self.register[0] >> 6
    }

    /// Tests the invariant.
    pub fn is_wf(&self) -> (r: bool)
        ensures
            r == self.wf(),
    {
        self.sequence_index < 8 && self.envelope.decay <= 15 && self.envelope.period <= 15
            && self.envelope.loop_flag == self.reg_envelope_loop_flag()
            && self.envelope.constant_volume_flag == self.reg_constant_volume_flag()
            && self.envelope.period == self.reg_envelope_period()
    }

    pub fn reg_envelope_loop_flag(&self) -> (r: bool)
        ensures
            r == self.envelope_loop_flag(),
    {
        proof { lemma_u8_bits(self.register[0]); }
        self.register[0] & 0b0010_0000 != 0
    }

    pub fn reg_constant_volume_flag(&self) -> (r: bool)
        ensures
            r == self.constant_volume_flag(),
    {
        proof { lemma_u8_bits(self.register[0]); }
        self.register[0] & 0b0001_0000 != 0
    }

    pub fn reg_envelope_period(&self) -> (r: u8)
        ensures
            r == self.envelope_period(),
            r <= 15,
    {
        proof { lemma_u8_bits(self.register[0]); }
        self.register[0] & 0b0000_1111
    }

    pub fn reg_sweep_enabled(&self) -> (r: bool)
        ensures
            r == self.sweep_enabled(),
    {
        proof { lemma_u8_bits(self.register[1]); }
        self.register[1] & 0b1000_0000 != 0
    }

    pub fn reg_sweep_period(&self) -> (r: u8)
        ensures
            r == self.sweep_period(),
            r < 8,
    {
        proof { lemma_u8_bits(self.register[1]); lemma_u8_bits(self.register[1] & 0b0111_0000); }
        (self.register[1] & 0b0111_0000) >> 4
    }

    pub fn reg_sweep_negate(&self) -> (r: bool)
        ensures
            r == self.sweep_negate(),
    {
        proof { lemma_u8_bits(self.register[1]); }
        self.register[1] & 0b0000_1000 != 0
    }

    pub fn reg_sweep_shift(&self) -> (r: u8)
        ensures
            r == self.sweep_shift(),
            r < 8,
    {
        proof { lemma_u8_bits(self.register[1]); }
        self.register[1] & 0b0000_0111
    }

    pub fn reg_timer(&self) -> (r: u16)
        ensures
            r == self.timer_period(),
            r <= 0x7FF,
    {
        proof {
            lemma_u8_bits(self.register[3]);
            lemma_u16_compose((self.register[3] % 8) as u16, self.register[2] as u16);
        }
        (((self.register[3] & 0b0000_0111) as u16) << 8) | (self.register[2] as u16)
    }

    pub fn reg_length_index(&self) -> (r: u8)
        ensures
            r == self.length_index(),
            r < 32,
    {
        proof { lemma_u8_bits(self.register[3]); }
        self.register[3] >> 3
    }

    pub fn set_register(&mut self, addr: u16, value: u8)
        requires
            old(self).wf(),
        ensures
            *final(self) == old(self).register_written(addr, value),
            final(self).wf(),
    {
        let selector = (addr & 0b11) as usize;
        assert(selector == addr % 4) by (bit_vector)
            requires
                selector == (addr & 0b11) as usize,
        ;
        self.register[selector] = value;
        if selector == 0 {
            let l = self.reg_envelope_loop_flag();
            let c = self.reg_constant_volume_flag();
            let p = self.reg_envelope_period();
            self.envelope.reload(l, c, p);
            self.length_counter.set_halt(l);
        } else if selector == 1 {
            self.sweep_reload_flag = true;
        } else if selector == 3 {
            let i = self.reg_length_index();
            self.length_counter.reload(i);
            self.sequence_index = 0;
        }
    }

    pub fn set_enabled(&mut self, enable: bool)
        ensures
            *final(self) == old(self).switched(enable),
    {
        self.length_counter.switch(enable);
    }

    pub fn is_enabled(&self) -> (r: bool)
        ensures
            r == self.enabled(),
    {
        self.length_counter.output() != 0
    }

    pub fn on_quarter_frame_clock(&mut self)
        requires
            old(self).wf(),
        ensures
            *final(self) == old(self).quarter_clocked(),
            final(self).wf(),
    {
        self.envelope.tick();
    }

    pub fn on_half_frame_clock(&mut self)
        requires
            old(self).wf(),
        ensures
            *final(self) == old(self).half_clocked(),
            final(self).wf(),
    {
        self.sweep_tick();
        self.length_counter.tick();
    }

    pub fn output(&self) -> (r: u8)
        requires
            self.wf(),
        ensures
            r == self.level(),
            !self.silent() ==> r == if self.constant_volume_flag() { self.envelope_period() } else { self.envelope.decay },
    {
        let output = self.envelope.output();
        if self.is_silent() {
            0
        } else {
            output
        }
    }

    pub fn tick(&mut self)
        requires
            old(self).wf(),
        ensures
            *final(self) == old(self).ticked(),
            final(self).wf(),
    {
        let period = self.reg_timer();
        if self.timer.step(period) {
            self.on_timer_clock();
        }
    }

    fn on_timer_clock(&mut self)
        ensures
            *final(self) == old(self).sequencer_clocked(),
    {
        if self.sequence_index == 0 {
            self.sequence_index = 7;
        } else {
            self.sequence_index = self.sequence_index - 1;
        }
    }

    pub fn is_silent(&self) -> (r: bool)
        requires
            self.wf(),
        ensures
            r == self.silent(),
    {
        !self.is_enabled() || self.sequence_output() == 0 || (self.sweep_target_period() > 0x7FF
            && self.reg_sweep_enabled())
    }

    pub fn set_reg_timer(&mut self, period: u16)
        ensures
            *final(self) == old(self).timer_set_to(period),
    {
        let lo: u8 = period as u8;
        let hi: u8 = ((period >> 8) & 0b0000_0111) as u8;
        let r3: u8 = self.register[3];
        let new_r3: u8 = r3 & 0b1111_1000 | hi;
        assert(lo == period % 256 && hi == (period / 256) % 8) by (bit_vector)
            requires
                lo == period as u8,
                hi == ((period >> 8) & 0b0000_0111) as u8,
        ;
        assert(new_r3 == (r3 / 8) * 8 + hi) by (bit_vector)
            requires
                hi < 8,
                new_r3 == r3 & 0b1111_1000 | hi,
        ;
        self.register[2] = lo;
        self.register[3] = new_r3;
    }

    pub fn sweep_target_period(&self) -> (r: u16)
        ensures
            r == self.sweep_target(),
    {
        let old_timer = self.reg_timer();
        let change = old_timer >> self.reg_sweep_shift();
        if self.reg_sweep_negate() {
            if self.is_first_channel {
                old_timer.wrapping_sub(change).wrapping_sub(1)
            } else {
                old_timer.wrapping_sub(change)
            }
        } else {
            old_timer.wrapping_add(change)
        }
    }

    pub fn sweep_tick(&mut self)
        ensures
            *final(self) == old(self).sweep_ticked(),
    {
        let target_period = self.sweep_target_period();
        let muting = self.reg_timer() < 8 || target_period > 0x7FF;
        if self.sweep_divider == 0 && self.reg_sweep_enabled() && !muting {
            self.set_reg_timer(target_period);
        }
        if self.sweep_divider == 0 || self.sweep_reload_flag == true {
            self.sweep_divider = self.reg_sweep_period() + 1;
            self.sweep_reload_flag = false;
        } else {
            self.sweep_divider = self.sweep_divider - 1;
        }
    }

    pub fn sequence_output(&self) -> (r: u8)
        requires
            self.wf(),
        ensures
            r == self.sequence_level(),
    {
        let duty = self.reg_duty();
        pulse_sequence_lookup(duty, self.sequence_index)
    }
}

/// Setting the timer period through the sweep unit stores its low 11 bits, and the
/// rest of register 3 is kept.
pub proof fn lemma_pulse_timer_roundtrip(c: PulseChannel, period: u16)
    ensures
        c.timer_set_to(period).timer_period() == period % 0x800,
        c.timer_set_to(period).length_index() == c.length_index(),
{
    let r3 = ((c.register[3] / 8) * 8 + (period / 256) % 8) as u8;
    assert(c.timer_set_to(period).register[3] == r3);
}

/// Writing the low timer byte to register 2 and then register 3 sets the timer period to
/// the low three bits of the second value over the first, and the length index to the
/// second value's top five bits.
pub proof fn lemma_pulse_timer_writes(c: PulseChannel, lo: u8, hi: u8)
    ensures
        c.register_written(2, lo).register_written(3, hi).timer_period() == (hi % 8) as u16 * 256 + lo as u16,
        c.register_written(2, lo).register_written(3, hi).timer_period() <= 0x7FF,
        c.register_written(2, lo).register_written(3, hi).length_index() == hi / 8,
{
    let c1 = c.register_written(2, lo);
    assert(c1.register[2] == lo);
    let c2 = c1.register_written(3, hi);
    assert(c2.register[2] == lo);
    assert(c2.register[3] == hi);
}

/// A pulse channel that has been disabled is silent until it is enabled again and its
/// length counter reloaded.
pub proof fn lemma_pulse_disabled_is_silent(c: PulseChannel)
    ensures
        !c.switched(false).enabled(),
        c.switched(false).level() == 0,
{
}

// ---------------------------------------------------------------------------------------
// Triangle channel
// ---------------------------------------------------------------------------------------

/// The triangle wave channel with its linear counter.
#[derive(Clone, Copy, Debug)]
pub struct TriangleChannel {
    pub register: [u8; 4],
    pub timer: timer::State,
    pub length_counter: LengthCounter,
    pub linear_counter_divider: u8,
    pub linear_counter_reload_flag: bool,
    pub sequence_index: usize,
}

impl TriangleChannel {
    pub open spec fn wf(self) -> bool {
        self.sequence_index < 32
    }

    pub open spec fn control_flag(self) -> bool {
        self.register[0] >= 128
    }

    pub open spec fn linear_counter_load(self) -> u8 {
        self.register[0] % 128
    }

    pub open spec fn timer_period(self) -> u16 {
        timer_period_of(self.register[2], self.register[3])
    }

    pub open spec fn length_index(self) -> u8 {
        self.register[3] / 8
    }

    pub open spec fn enabled(self) -> bool {
        self.length_counter.divider > 0
    }

    pub open spec fn level(self) -> u8 {
        if self.timer_period() < 2 { 7 } else { triangle_sequence(self.sequence_index as int) }
    }

    pub open spec fn register_written(self, addr: u16, value: u8) -> Self {
        let sel = (addr % 4) as int;
        let c = TriangleChannel { register: spec_array_update(self.register, sel, value), ..self };
        if sel == 0 {
            TriangleChannel { length_counter: c.length_counter.with_halt(c.control_flag()), ..c }
        } else if sel == 3 {
            TriangleChannel {
                linear_counter_reload_flag: true,
                length_counter: c.length_counter.reloaded(c.length_index()),
                ..c
            }
        } else {
            c
        }
    }

    pub open spec fn sequencer_clocked(self) -> Self {
        if self.length_counter.divider > 0 && self.linear_counter_divider > 0 {
            TriangleChannel {
                sequence_index: if self.sequence_index + 1 >= 32 { 0 } else { (self.sequence_index + 1) as usize },
                ..self
            }
        } else {
            self
        }
    }

    pub open spec fn ticked(self) -> Self {
        let t = TriangleChannel { timer: self.timer.stepped(self.timer_period()), ..self };
        if self.timer.divider == 0 { t.sequencer_clocked() } else { t }
    }

    pub open spec fn quarter_clocked(self) -> Self {
        let d: u8 = if self.linear_counter_reload_flag {
            self.linear_counter_load()
        } else if self.linear_counter_divider > 0 {
            (self.linear_counter_divider - 1) as u8
        } else {
            self.linear_counter_divider
        };
        TriangleChannel {
            linear_counter_divider: d,
            linear_counter_reload_flag: if !self.control_flag() { false } else { self.linear_counter_reload_flag },
            ..self
        }
    }

    pub open spec fn half_clocked(self) -> Self {
        TriangleChannel { length_counter: self.length_counter.ticked(), ..self }
    }

    pub open spec fn switched(self, enable: bool) -> Self {
        TriangleChannel { length_counter: self.length_counter.switched(enable), ..self }
    }

    pub fn new() -> (c: Self)
        ensures
            c.register@ == seq![0u8, 0, 0, 0],
            c.timer.divider == 0,
            c.length_counter == (LengthCounter { divider: 0, enable: false, halt_flag: false }),
            c.linear_counter_divider == 0,
            !c.linear_counter_reload_flag,
            c.sequence_index == 0,
            c.wf(),
    {
        let c = TriangleChannel {
            register: [0, 0, 0, 0],
            timer: timer::State::new(),
            length_counter: LengthCounter::new(),
            linear_counter_divider: 0,
            linear_counter_reload_flag: false,
            sequence_index: 0,
        };
        assert(c.register@ =~= seq![0u8, 0, 0, 0]);
        c
    }

    pub fn reg_control_flag(&self) -> (r: bool)
        ensures
            r == self.control_flag(),
    {
        proof { lemma_u8_bits(self.register[0]); }
        self.register[0] & 0b1000_0000 != 0
    }

    pub fn reg_linear_counter(&self) -> (r: u8)
        ensures
            r == self.linear_counter_load(),
    {
        proof { lemma_u8_bits(self.register[0]); }
        self.register[0] & 0b0111_1111
    }

    pub fn reg_timer(&self) -> (r: u16)
        ensures
            r == self.timer_period(),
            r <= 0x7FF,
    {
        proof {
            lemma_u8_bits(self.register[3]);
            lemma_u16_compose((self.register[3] % 8) as u16, self.register[2] as u16);
        }
        (((self.register[3] & 0b0000_0111) as u16) << 8) | (self.register[2] as u16)
    }

    pub fn reg_length_index(&self) -> (r: u8)
        ensures
            r == self.length_index(),
            r < 32,
    {
        proof { lemma_u8_bits(self.register[3]); }
        self.register[3] >> 3
    }

    pub fn set_register(&mut self, addr: u16, value: u8)
        ensures
            *final(self) == old(self).register_written(addr, value),
    {
        let selector = (addr % 4) as usize;
        self.register[selector] = value;
        if selector == 0 {
            let f = self.reg_control_flag();
            self.length_counter.set_halt(f);
        } else if selector == 3 {
            self.linear_counter_reload_flag = true;
            let i = self.reg_length_index();
            self.length_counter.reload(i);
        }
    }

    pub fn set_enabled(&mut self, enable: bool)
        ensures
            *final(self) == old(self).switched(enable),
    {
        self.length_counter.switch(enable);
    }

    pub fn on_quarter_frame_clock(&mut self)
        ensures
            *final(self) == old(self).quarter_clocked(),
    {
        self.linear_counter_tick();
    }

    pub fn on_half_frame_clock(&mut self)
        ensures
            *final(self) == old(self).half_clocked(),
    {
        self.length_counter.tick();
    }

    pub fn output(&self) -> (r: u8)
        requires
            self.wf(),
        ensures
            r == self.level(),
            r <= 15,
    {
        if self.reg_timer() < 2 {
            7
        } else {
            self.sequence_output()
        }
    }

    pub fn is_enabled(&self) -> (r: bool)
        ensures
            r == self.enabled(),
    {
        self.length_counter.output() > 0
    }

    pub fn tick(&mut self)
        requires
            old(self).wf(),
        ensures
            *final(self) == old(self).ticked(),
            final(self).wf(),
    {
        let period = self.reg_timer();
        if self.timer.step(period) {
            self.on_timer_clock();
        }
    }

    fn on_timer_clock(&mut self)
        requires
            old(self).wf(),
        ensures
            *final(self) == old(self).sequencer_clocked(),
    {
        if self.length_counter.output() > 0 && self.linear_counter_divider > 0 {
            self.sequence_index = self.sequence_index + 1;
            if self.sequence_index >= 32 {
                self.sequence_index = 0;
            }
        }
    }

    pub fn sequence_output(&self) -> (r: u8)
        requires
            self.wf(),
        ensures
            r == triangle_sequence(self.sequence_index as int),
            r <= 15,
    {
        triangle_sequence_lookup(self.sequence_index)
    }

    pub fn linear_counter_tick(&mut self)
        ensures
            *final(self) == old(self).quarter_clocked(),
    {
        if self.linear_counter_reload_flag {
            self.linear_counter_divider = self.reg_linear_counter();
        } else if self.linear_counter_divider > 0 {
            self.linear_counter_divider = self.linear_counter_divider - 1;
        }
        if !self.reg_control_flag() {
            self.linear_counter_reload_flag = false;
        }
    }
}

// ---------------------------------------------------------------------------------------
// Noise channel
// ---------------------------------------------------------------------------------------

/// The pseudo-random noise channel.
#[derive(Clone, Copy, Debug)]
pub struct NoiseChannel {
    pub register: [u8; 4],
    pub timer: timer::State,
    pub envelope: Envelope,
    pub length_counter: LengthCounter,
    pub feedback_register: u16,
}

/// One step of the 15-bit linear feedback shift register: shift right, and feed the
/// exclusive or of bit 0 with bit 6 (loop mode) or bit 1 into bit 14.
pub open spec fn lfsr_step(fr: u16, loop_mode: bool) -> u16 {
    let bit_a = fr & 1;
    let bit_b = if loop_mode { (fr >> 6u16) & 1 } else { (fr >> 1u16) & 1 };
    (fr >> 1u16) | ((bit_a ^ bit_b) << 14u16)
}

impl NoiseChannel {
    /// The envelope holds the loop flag, constant-volume flag and period of register 0.
    pub open spec fn wf(self) -> bool {
        &&& self.envelope.wf()
        &&& self.envelope.loop_flag == self.envelope_loop_flag()
        &&& self.envelope.constant_volume_flag == self.constant_volume_flag()
        &&& self.envelope.period == self.envelope_period()
    }

    pub open spec fn envelope_loop_flag(self) -> bool {
        self.register[0] / 32 % 2 == 1
    }

    pub open spec fn constant_volume_flag(self) -> bool {
        self.register[0] / 16 % 2 == 1
    }

    pub open spec fn envelope_period(self) -> u8 {
        self.register[0] % 16
    }

    pub open spec fn loop_noise_flag(self) -> bool {
        self.register[2] >= 128
    }

    pub open spec fn noise_period_index(self) -> u8 {
        self.register[2] % 16
    }

    pub open spec fn length_index(self) -> u8 {
        self.register[3] / 8
    }

    pub open spec fn enabled(self) -> bool {
        self.length_counter.divider > 0
    }

    pub open spec fn silent(self) -> bool {
        !self.enabled() || self.feedback_register % 2 == 1
    }

    pub open spec fn level(self) -> u8 {
        if self.silent() { 0 } else { self.envelope.level() }
    }

    pub open spec fn register_written(self, addr: u16, value: u8) -> Self {
        let sel = (addr % 4) as int;
        let c = NoiseChannel { register: spec_array_update(self.register, sel, value), ..self };
        if sel == 0 {
            NoiseChannel {
                envelope: c.envelope.reloaded(
                    c.envelope_loop_flag(),
                    c.constant_volume_flag(),
                    c.envelope_period(),
                ),
                length_counter: c.length_counter.with_halt(c.envelope_loop_flag()),
                ..c
            }
        } else if sel == 3 {
            NoiseChannel { length_counter: c.length_counter.reloaded(c.length_index()), ..c }
        } else {
            c
        }
    }

    pub open spec fn ticked(self) -> Self {
        let t = NoiseChannel {
            timer: self.timer.stepped(noise_period_ntsc(self.noise_period_index())),
            ..self
        };
        if self.timer.divider == 0 {
            NoiseChannel {
                feedback_register: lfsr_step(self.feedback_register, self.loop_noise_flag()),
                ..t
            }
        } else {
            t
        }
    }

    pub open spec fn quarter_clocked(self) -> Self {
        NoiseChannel { envelope: self.envelope.ticked(), ..self }
    }

    pub open spec fn half_clocked(self) -> Self {
        NoiseChannel { length_counter: self.length_counter.ticked(), ..self }
    }

    pub open spec fn switched(self, enable: bool) -> Self {
        NoiseChannel { length_counter: self.length_counter.switched(enable), ..self }
    }

    pub fn new() -> (c: Self)
        ensures
            c.register@ == seq![0u8, 0, 0, 0],
            c.timer.divider == 0,
            c.envelope == Envelope::new_spec(),
            c.length_counter == (LengthCounter { divider: 0, enable: false, halt_flag: false }),
            c.feedback_register == 1,
            c.wf(),
    {
        let c = NoiseChannel {
            register: [0, 0, 0, 0],
            timer: timer::State::new(),
            envelope: Envelope::new(),
            length_counter: LengthCounter::new(),
            feedback_register: 0b0000_0001,
        };
        assert(c.register@ =~= seq![0u8, 0, 0, 0]);
        c
    }

    /// Tests the invariant.
    pub fn is_wf(&self) -> (r: bool)
        ensures
            r == self.wf(),
    {
        self.envelope.decay <= 15 && self.envelope.period <= 15
            && self.envelope.loop_flag == self.reg_envelope_loop_flag()
            && self.envelope.constant_volume_flag == self.reg_constant_volume_flag()
            && self.envelope.period == self.reg_envelope_period()
    }

    pub fn reg_envelope_loop_flag(&self) -> (r: bool)
        ensures
            r == self.envelope_loop_flag(),
    {
        proof { lemma_u8_bits(self.register[0]); }
        self.register[0] & 0b0010_0000 != 0
    }

    pub fn reg_constant_volume_flag(&self) -> (r: bool)
        ensures
            r == self.constant_volume_flag(),
    {
        proof { lemma_u8_bits(self.register[0]); }
        self.register[0] & 0b0001_0000 != 0
    }

    pub fn reg_envelope_period(&self) -> (r: u8)
        ensures
            r == self.envelope_period(),
            r <= 15,
    {
        proof { lemma_u8_bits(self.register[0]); }
        self.register[0] & 0b0000_1111
    }

    pub fn reg_loop_noise_flag(&self) -> (r: bool)
        ensures
            r == self.loop_noise_flag(),
    {
        proof { lemma_u8_bits(self.register[2]); }
        self.register[2] & 0b1000_0000 != 0
    }

    pub fn reg_noise_period_index(&self) -> (r: u8)
        ensures
            r == self.noise_period_index(),
            r < 16,
    {
        proof { lemma_u8_bits(self.register[2]); }
        self.register[2] & 0b0000_1111
    }

    pub fn reg_length_index(&self) -> (r: u8)
        ensures
            r == self.length_index(),
            r < 32,
    {
        proof { lemma_u8_bits(self.register[3]); }
        self.register[3] >> 3
    }

    pub fn set_register(&mut self, addr: u16, value: u8)
        requires
            old(self).wf(),
        ensures
            *final(self) == old(self).register_written(addr, value),
            final(self).wf(),
    {
        let selector = (addr % 4) as usize;
        self.register[selector] = value;
        if selector == 0 {
            let l = self.reg_envelope_loop_flag();
            let c = self.reg_constant_volume_flag();
            let p = self.reg_envelope_period();
            self.envelope.reload(l, c, p);
            self.length_counter.set_halt(l);
        } else if selector == 3 {
            let i = self.reg_length_index();
            self.length_counter.reload(i);
        }
    }

    pub fn is_silent(&self) -> (r: bool)
        ensures
            r == self.silent(),
    {
        !self.is_enabled() || (self.feedback_register % 2) == 1
    }

    pub fn set_enabled(&mut self, enable: bool)
        ensures
            *final(self) == old(self).switched(enable),
    {
        self.length_counter.switch(enable);
    }

    pub fn is_enabled(&self) -> (r: bool)
        ensures
            r == self.enabled(),
    {
        self.length_counter.output() > 0
    }

    pub fn on_quarter_frame_clock(&mut self)
        requires
            old(self).wf(),
        ensures
            *final(self) == old(self).quarter_clocked(),
            final(self).wf(),
    {
        self.envelope.tick();
    }

    pub fn on_half_frame_clock(&mut self)
        ensures
            *final(self) == old(self).half_clocked(),
    {
        self.length_counter.tick();
    }

    pub fn output(&self) -> (r: u8)
        ensures
            r == self.level(),
            self.wf() && !self.silent() ==> r == if self.constant_volume_flag() { self.envelope_period() }
                else { self.envelope.decay },
    {
        if self.is_silent() {
            0
        } else {
            self.envelope.output()
        }
    }

    pub fn tick(&mut self)
        ensures
            *final(self) == old(self).ticked(),
    {
        let index = self.reg_noise_period_index();
        let period = noise_period_lookup(index);
        if self.timer.step(period) {
            self.on_timer_clock();
        }
    }

    fn on_timer_clock(&mut self)
        ensures
            *final(self) == (NoiseChannel {
                feedback_register: lfsr_step(old(self).feedback_register, old(self).loop_noise_flag()),
                ..*old(self)
            }),
    {
        let fr = self.feedback_register;
        let bit_a = fr & 1;
        let bit_b = if self.reg_loop_noise_flag() {
            (fr >> 6) & 1
        } else {
            (fr >> 1) & 1
        };
        self.feedback_register = (fr >> 1) | ((bit_a ^ bit_b) << 14);
    }
}

/// The noise shift register is 15 bits wide and, started from a non-zero value, never
/// reaches zero: the channel cannot lock up.
pub proof fn lemma_lfsr_never_zero(fr: u16, loop_mode: bool)
    requires
        0 < fr < 0x8000,
    ensures
        0 < lfsr_step(fr, loop_mode) < 0x8000,
{
    let bit_a = fr & 1;
    let bit_b6 = (fr >> 6u16) & 1;
    let bit_b1 = (fr >> 1u16) & 1;
    assert(0 < (fr >> 1u16) | ((bit_a ^ bit_b6) << 14u16) < 0x8000
        && 0 < (fr >> 1u16) | ((bit_a ^ bit_b1) << 14u16) < 0x8000) by (bit_vector)
        requires
            0 < fr < 0x8000,
            bit_a == fr & 1,
            bit_b6 == (fr >> 6u16) & 1,
            bit_b1 == (fr >> 1u16) & 1,
    ;
}

// ---------------------------------------------------------------------------------------
// Delta modulation channel
// ---------------------------------------------------------------------------------------

/// The delta modulation channel, which plays 1-bit delta samples fetched by DMA.
#[derive(Clone, Copy, Debug)]
pub struct DeltaModulationChannel {
    pub register: [u8; 4],
    pub enable: bool,
    pub timer: timer::State,
    pub sample_current_address: u16,
    pub sample_remaining_bytes: u8,
    pub sample_buffer: Option<u8>,
    pub sample_shifter: u8,
    pub sample_shifter_remaining_bits: u8,
    pub output: u8,
    pub silence_flag: bool,
    pub interrupt_flag: bool,
}

impl DeltaModulationChannel {
    /// The output level is a 7-bit value and at most 8 sample bits are pending.
    pub open spec fn wf(self) -> bool {
        &&& self.output <= 127
        &&& self.sample_shifter_remaining_bits <= 8
    }

    pub open spec fn irq_enabled(self) -> bool {
        self.register[0] >= 128
    }

    pub open spec fn loop_flag(self) -> bool {
        self.register[0] / 64 % 2 == 1
    }

    pub open spec fn rate_index(self) -> usize {
        (self.register[0] % 16) as usize
    }

    pub open spec fn direct_load(self) -> u8 {
        self.register[1] % 128
    }

    pub open spec fn sample_address(self) -> u8 {
        self.register[2]
    }

    pub open spec fn sample_length(self) -> u8 {
        self.register[3]
    }

    /// Restarting the sample reader computes `sample_length * 16 + 1` in 8 bits, which
    /// overflows when the length register is 16 or more.
    pub open spec fn restart_overflows(self) -> bool {
        self.register[3] >= 16
    }

    /// Enabling the channel restarts the sample reader when no bytes remain.
    pub open spec fn enable_overflows(self, enable: bool) -> bool {
        enable && self.sample_remaining_bytes == 0 && self.restart_overflows()
    }

    /// A DMA transfer that takes the last byte of a looping sample restarts the reader.
    pub open spec fn transfer_overflows(self) -> bool {
        self.sample_remaining_bytes == 1 && self.loop_flag() && self.restart_overflows()
    }

    pub open spec fn enabled(self) -> bool {
        self.sample_remaining_bytes != 0
    }

    pub open spec fn level(self) -> u8 {
        if self.enable { self.output } else { 0 }
    }

    pub open spec fn wants_dma(self) -> bool {
        self.sample_buffer is None && self.sample_remaining_bytes > 0
    }

    pub open spec fn register_written(self, addr: u16, value: u8) -> Self {
        let sel = (addr % 4) as int;
        let c = DeltaModulationChannel { register: spec_array_update(self.register, sel, value), ..self };
        if sel == 0 {
            if !c.irq_enabled() { DeltaModulationChannel { interrupt_flag: false, ..c } } else { c }
        } else if sel == 1 {
            DeltaModulationChannel { output: c.direct_load(), ..c }
        } else {
            c
        }
    }

    pub open spec fn reader_restarted(self) -> Self {
        DeltaModulationChannel {
            sample_current_address: (self.sample_address() * 64 + 0xC000) as u16,
            sample_remaining_bytes: (self.sample_length() * 16 + 1) as u8,
            ..self
        }
    }

    pub open spec fn switched(self, enable: bool) -> Self {
        let c = DeltaModulationChannel { enable, interrupt_flag: false, ..self };
        if enable && self.sample_remaining_bytes == 0 {
            c.reader_restarted()
        } else {
            DeltaModulationChannel { sample_remaining_bytes: 0, ..c }
        }
    }

    pub open spec fn dma_transferred(self, value: u8) -> Self {
        let c = DeltaModulationChannel {
            sample_buffer: Some(value),
            sample_current_address: if self.sample_current_address == 0xFFFF {
                0x8000
            } else {
                (self.sample_current_address + 1) as u16
            },
            ..self
        };
        if c.sample_remaining_bytes > 0 {
            let d = DeltaModulationChannel {
                sample_remaining_bytes: (c.sample_remaining_bytes - 1) as u8,
                ..c
            };
            if d.sample_remaining_bytes == 0 && d.loop_flag() {
                d.reader_restarted()
            } else if d.sample_remaining_bytes == 0 && d.irq_enabled() {
                DeltaModulationChannel { interrupt_flag: true, ..d }
            } else {
                d
            }
        } else {
            c
        }
    }

    pub open spec fn output_clocked(self) -> Self {
        if self.sample_shifter_remaining_bits > 0 && !self.silence_flag {
            let bit = self.sample_shifter % 2;
            DeltaModulationChannel {
                output: if bit == 1 && self.output <= 125 {
                    (self.output + 2) as u8
                } else if bit == 0 && self.output >= 2 {
                    (self.output - 2) as u8
                } else {
                    self.output
                },
                sample_shifter: self.sample_shifter / 2,
                sample_shifter_remaining_bits: (self.sample_shifter_remaining_bits - 1) as u8,
                ..self
            }
        } else {
            match self.sample_buffer {
                Some(sample) => DeltaModulationChannel {
                    sample_shifter_remaining_bits: 8,
                    sample_buffer: None,
                    silence_flag: false,
                    sample_shifter: sample,
                    ..self
                },
                None => DeltaModulationChannel {
                    sample_shifter_remaining_bits: 8,
                    silence_flag: true,
                    ..self
                },
            }
        }
    }

    pub open spec fn ticked(self) -> Self {
        let t = DeltaModulationChannel {
            timer: self.timer.stepped(rate_ntsc(self.rate_index())),
            ..self
        };
        if self.timer.divider == 0 { t.output_clocked() } else { t }
    }

    pub fn new() -> (c: Self)
        ensures
            c.register@ == seq![0u8, 0, 0, 0],
            !c.enable,
            c.timer.divider == 0,
            c.sample_current_address == 0,
            c.sample_remaining_bytes == 0,
            c.sample_shifter_remaining_bits == 0,
            c.sample_buffer is None,
            c.sample_shifter == 0,
            c.output == 0,
            !c.silence_flag,
            !c.interrupt_flag,
            c.wf(),
    {
        let c = DeltaModulationChannel {
            register: [0, 0, 0, 0],
            enable: false,
            timer: timer::State::new(),
            sample_current_address: 0,
            sample_remaining_bytes: 0,
            sample_shifter_remaining_bits: 0,
            sample_buffer: None,
            sample_shifter: 0,
            output: 0,
            silence_flag: false,
            interrupt_flag: false,
        };
        assert(c.register@ =~= seq![0u8, 0, 0, 0]);
        c
    }

    pub fn reg_irq_enabled(&self) -> (r: bool)
        ensures
            r == self.irq_enabled(),
    {
        proof { lemma_u8_bits(self.register[0]); }
        self.register[0] & 0b1000_0000 != 0
    }

    pub fn reg_loop_flag(&self) -> (r: bool)
        ensures
            r == self.loop_flag(),
    {
        proof { lemma_u8_bits(self.register[0]); }
        self.register[0] & 0b0100_0000 != 0
    }

    pub fn reg_rate_index(&self) -> (r: usize)
        ensures
            r == self.rate_index(),
            r < 16,
    {
        proof { lemma_u8_bits(self.register[0]); }
        (self.register[0] & 0b0000_1111) as usize
    }

    pub fn reg_direct_load(&self) -> (r: u8)
        ensures
            r == self.direct_load(),
            r <= 127,
    {
        proof { lemma_u8_bits(self.register[1]); }
        self.register[1] & 0b0111_1111
    }

    pub fn reg_sample_address(&self) -> (r: u8)
        ensures
            r == self.sample_address(),
    {
        self.register[2]
    }

    pub fn reg_sample_length(&self) -> (r: u8)
        ensures
            r == self.sample_length(),
    {
        self.register[3]
    }

    /// Tells whether enabling the channel now would overflow (see `enable_overflows`).
    pub fn would_overflow_on_enable(&self, enable: bool) -> (r: bool)
        ensures
            r == self.enable_overflows(enable),
    {
        enable && self.sample_remaining_bytes == 0 && self.register[3] >= 16
    }

    /// Tells whether a DMA transfer now would overflow (see `transfer_overflows`).
    pub fn would_overflow_on_transfer(&self) -> (r: bool)
        ensures
            r == self.transfer_overflows(),
    {
        self.sample_remaining_bytes == 1 && self.reg_loop_flag() && self.register[3] >= 16
    }

    pub fn set_register(&mut self, addr: u16, value: u8)
        requires
            old(self).wf(),
        ensures
            *final(self) == old(self).register_written(addr, value),
            final(self).wf(),
    {
        let selector = (addr % 4) as usize;
        self.register[selector] = value;
        if selector == 0 {
            if !self.reg_irq_enabled() {
                self.interrupt_flag = false;
            }
        } else if selector == 1 {
            self.output = self.reg_direct_load();
        }
    }

    pub fn set_enabled(&mut self, enable: bool)
        requires
            !old(self).enable_overflows(enable),
        ensures
            *final(self) == old(self).switched(enable),
    {
        self.enable = enable;
        self.interrupt_flag = false;
        if enable && self.sample_remaining_bytes == 0 {
            self.sample_reader_init();
        } else {
            self.sample_remaining_bytes = 0;
        }
    }

    pub fn is_enabled(&self) -> (r: bool)
        ensures
            r == self.enabled(),
    {
        self.sample_remaining_bytes != 0
    }

    pub fn output(&self) -> (r: u8)
        ensures
            r == self.level(),
    {
        if self.enable {
            self.output
        } else {
            0
        }
    }

    pub fn on_dma_data_transfer(&mut self, value: u8)
        requires
            !old(self).transfer_overflows(),
        ensures
            *final(self) == old(self).dma_transferred(value),
    {
        self.sample_buffer = Some(value);
        if self.sample_current_address == 0xFFFF {
            self.sample_current_address = 0x8000;
        } else {
            self.sample_current_address = self.sample_current_address + 1;
        }
        if self.sample_remaining_bytes > 0 {
            self.sample_remaining_bytes = self.sample_remaining_bytes - 1;
            if self.sample_remaining_bytes == 0 && self.reg_loop_flag() {
                self.sample_reader_init();
            } else if self.sample_remaining_bytes == 0 && self.reg_irq_enabled() {
                self.interrupt_flag = true;
            }
        }
    }

    pub fn should_activate_dma(&self) -> (r: bool)
        ensures
            r == self.wants_dma(),
    {
        if self.sample_buffer.is_none() && self.sample_remaining_bytes > 0 {
            true
        } else {
            false
        }
    }

    pub fn tick(&mut self)
        requires
            old(self).wf(),
        ensures
            *final(self) == old(self).ticked(),
            final(self).wf(),
    {
        // The period is the rate table entry itself (`>> 1 - 1` is a shift by zero).
        let period = rate_ntsc_lookup(self.reg_rate_index());
        if self.timer.step(period) {
            self.on_timer_clock();
        }
    }

    fn on_timer_clock(&mut self)
        requires
            old(self).wf(),
        ensures
            *final(self) == old(self).output_clocked(),
            final(self).wf(),
    {
        if self.sample_shifter_remaining_bits > 0 && !self.silence_flag {
            let bit = self.sample_shifter % 2;
            if bit == 1 && self.output <= 125 {
                self.output = self.output + 2;
            } else if bit == 0 && self.output >= 2 {
                self.output = self.output - 2;
            }
            self.sample_shifter = self.sample_shifter / 2;
            self.sample_shifter_remaining_bits = self.sample_shifter_remaining_bits - 1;
        } else {
            self.sample_shifter_remaining_bits = 8;
            if let Some(sample) = self.sample_buffer.take() {
                self.silence_flag = false;
                self.sample_shifter = sample;
            } else {
                self.silence_flag = true;
            }
        }
    }

    pub fn sample_reader_init(&mut self)
        requires
            !old(self).restart_overflows(),
        ensures
            *final(self) == old(self).reader_restarted(),
    {
        self.sample_current_address = (self.reg_sample_address() as u16 * 64) + 0xC000;
        self.sample_remaining_bytes = self.reg_sample_length() * 16 + 1;
    }
}

/// Samples are fetched from $C000 upwards in steps of 64 bytes, and a sample of
/// length register `l` is `16 * l + 1` bytes long.
pub proof fn lemma_dmc_sample_window(c: DeltaModulationChannel)
    requires
        !c.restart_overflows(),
    ensures
        c.reader_restarted().sample_current_address >= 0xC000,
        c.reader_restarted().sample_remaining_bytes == 16 * c.register[3] + 1,
        c.reader_restarted().enabled(),
{
}

// ---------------------------------------------------------------------------------------
// Frame sequencer
// ---------------------------------------------------------------------------------------

/// The frame counter register ($4017).
#[derive(Clone, Copy, Debug, PartialEq, Eq, Structural)]
pub struct FrameRegister(pub u8);

impl FrameRegister {
    pub open spec fn five_step(self) -> bool {
        self.0 >= 128
    }

    pub open spec fn interrupt_inhibit(self) -> bool {
        self.0 / 64 % 2 == 1
    }

    pub fn new() -> (f: Self)
        ensures
            f.0 == 0,
    {
        FrameRegister(0)
    }

    pub fn is_5_step(&self) -> (r: bool)
        ensures
            r == self.five_step(),
    {
        proof { lemma_u8_bits(self.0); }
        self.0 & 0b1000_0000 != 0
    }

    pub fn interrupt_inhibit_flag(&self) -> (r: bool)
        ensures
            r == self.interrupt_inhibit(),
    {
        proof { lemma_u8_bits(self.0); }
        self.0 & 0b0100_0000 != 0
    }

    pub fn set_value(&mut self, value: u8)
        ensures
            final(self).0 == value,
    {
        self.0 = value;
    }
}

/// The output levels of the five channels at one CPU cycle.
#[derive(Clone, Copy, Debug, PartialEq, Eq, Structural)]
pub struct ChannelLevels {
    pub pulse1: u8,
    pub pulse2: u8,
    pub triangle: u8,
    pub noise: u8,
    pub dmc: u8,
}

/// What one CPU cycle of the APU asks of the rest of the machine.
#[derive(Clone, Copy, Debug)]
pub struct ApuTick {
    /// The address from which the delta modulation channel wants a sample byte.
    pub dma_request: Option<u16>,
    /// The channel levels that the mixer samples at this cycle.
    pub levels: ChannelLevels,
    /// The state of the APU's interrupt line after the cycle.
    pub irq: bool,
}

/// The whole APU.
#[derive(Clone, Copy, Debug)]
pub struct State {
    pub pulse1: PulseChannel,
    pub pulse2: PulseChannel,
    pub triangle: TriangleChannel,
    pub noise: NoiseChannel,
    pub dmc: DeltaModulationChannel,
    pub frame: FrameRegister,
    pub frame_counter_timer: usize,
    pub timer_reset_flag: bool,
    pub timer_reset_countdown: usize,
    pub frame_interrupt_flag: bool,
}

impl TriangleChannel {
    /// Tests the invariant.
    pub fn is_wf(&self) -> (r: bool)
        ensures
            r == self.wf(),
    {
        self.sequence_index < 32
    }
}

impl DeltaModulationChannel {
    /// Tests the invariant.
    pub fn is_wf(&self) -> (r: bool)
        ensures
            r == self.wf(),
    {
        self.output <= 127 && self.sample_shifter_remaining_bits <= 8
    }
}

impl State {
    /// Tests the invariant.
    pub fn is_wf(&self) -> (r: bool)
        ensures
            r == self.wf(),
    {
        self.pulse1.is_wf() && self.pulse2.is_wf() && self.triangle.is_wf() && self.noise.is_wf() && self.dmc.is_wf()
    }

    pub open spec fn wf(self) -> bool {
        &&& self.pulse1.wf()
        &&& self.pulse2.wf()
        &&& self.triangle.wf()
        &&& self.noise.wf()
        &&& self.dmc.wf()
    }

    pub open spec fn irq_line(self) -> bool {
        self.frame_interrupt_flag || self.dmc.interrupt_flag
    }

    pub open spec fn current_levels(self) -> ChannelLevels {
        ChannelLevels {
            pulse1: self.pulse1.level(),
            pulse2: self.pulse2.level(),
            triangle: self.triangle.level(),
            noise: self.noise.level(),
            dmc: self.dmc.level(),
        }
    }

    pub open spec fn frame_interrupt_set(self, enable: bool) -> Self {
        if enable && !self.frame.interrupt_inhibit() {
            State { frame_interrupt_flag: true, ..self }
        } else if !enable {
            State { frame_interrupt_flag: false, ..self }
        } else {
            self
        }
    }

    pub open spec fn quarter_clocked(self) -> Self {
        State {
            pulse1: self.pulse1.quarter_clocked(),
            pulse2: self.pulse2.quarter_clocked(),
            triangle: self.triangle.quarter_clocked(),
            noise: self.noise.quarter_clocked(),
            ..self
        }
    }

    pub open spec fn half_clocked(self) -> Self {
        State {
            pulse1: self.pulse1.half_clocked(),
            pulse2: self.pulse2.half_clocked(),
            triangle: self.triangle.half_clocked(),
            noise: self.noise.half_clocked(),
            ..self
        }
    }

    /// The channel timers after one CPU cycle: the triangle every cycle, the others on
    /// even cycles.
    pub open spec fn channels_ticked(self, odd_cycle: bool) -> Self {
        let t = State { triangle: self.triangle.ticked(), ..self };
        if !odd_cycle {
            State {
                pulse1: t.pulse1.ticked(),
                pulse2: t.pulse2.ticked(),
                noise: t.noise.ticked(),
                dmc: t.dmc.ticked(),
                ..t
            }
        } else {
            t
        }
    }

    /// The frame sequencer after one CPU cycle (NTSC timing).
    pub open spec fn sequencer_stepped(self) -> Self {
        let s1 = if self.timer_reset_flag {
            if self.timer_reset_countdown == 0 {
                State { timer_reset_flag: false, frame_counter_timer: 1, ..self }
            } else {
                State { timer_reset_countdown: (self.timer_reset_countdown - 1) as usize, ..self }
            }
        } else {
            self
        };
        let t = s1.frame_counter_timer;
        let five = s1.frame.five_step();
        let s2 = if t == 7457 {
            s1.quarter_clocked()
        } else if t == 14913 {
            s1.quarter_clocked().half_clocked()
        } else if t == 22371 {
            s1.quarter_clocked()
        } else if t == 29828 {
            if !five { s1.frame_interrupt_set(true) } else { s1 }
        } else if t == 29829 {
            if !five { s1.quarter_clocked().half_clocked().frame_interrupt_set(true) } else { s1 }
        } else if t == 29830 {
            if !five { State { frame_counter_timer: 0, ..s1 }.frame_interrupt_set(true) } else { s1 }
        } else if t == 37281 {
            if five { s1.quarter_clocked().half_clocked() } else { s1 }
        } else if t == 37282 {
            if five { State { frame_counter_timer: 0, ..s1 } } else { s1 }
        } else {
            s1
        };
        State { frame_counter_timer: (s2.frame_counter_timer + 1) as usize, ..s2 }
    }

    pub open spec fn dma_request_after(self, odd_cycle: bool) -> Option<u16> {
        let t = self.channels_ticked(odd_cycle);
        if !odd_cycle && t.dmc.wants_dma() { Some(t.dmc.sample_current_address) } else { None }
    }

    pub open spec fn status_value(self) -> u8 {
        0u8 | (if self.pulse1.enabled() { 0b0000_0001u8 } else { 0 })
            | (if self.pulse2.enabled() { 0b0000_0010u8 } else { 0 })
            | (if self.triangle.enabled() { 0b0000_0100u8 } else { 0 })
            | (if self.noise.enabled() { 0b0000_1000u8 } else { 0 })
            | (if self.dmc.enabled() { 0b0001_0000u8 } else { 0 })
            | (if self.frame_interrupt_flag { 0b0100_0000u8 } else { 0 })
            | (if self.dmc.interrupt_flag { 0b1000_0000u8 } else { 0 })
    }

    pub open spec fn status_written(self, value: u8) -> Self {
        State {
            pulse1: self.pulse1.switched(value % 2 == 1),
            pulse2: self.pulse2.switched(value / 2 % 2 == 1),
            triangle: self.triangle.switched(value / 4 % 2 == 1),
            noise: self.noise.switched(value / 8 % 2 == 1),
            dmc: self.dmc.switched(value / 16 % 2 == 1),
            ..self
        }
    }

    pub open spec fn frame_written(self, value: u8, odd_cycle: bool) -> Self {
        let s0 = State { frame: FrameRegister(value), ..self };
        let s1 = if s0.frame.interrupt_inhibit() { s0.frame_interrupt_set(false) } else { s0 };
        let s2 = State {
            timer_reset_flag: true,
            timer_reset_countdown: if odd_cycle { 3 } else { 4 },
            ..s1
        };
        if s2.frame.five_step() { s2.quarter_clocked().half_clocked() } else { s2 }
    }

    pub fn new() -> (s: Self)
        ensures
            s.wf(),
            s.pulse1.is_first_channel,
            !s.pulse2.is_first_channel,
            s.frame.0 == 0,
            s.frame_counter_timer == 0,
            !s.timer_reset_flag,
            s.timer_reset_countdown == 0,
            !s.frame_interrupt_flag,
            s.dmc.output == 0,
            s.noise.feedback_register == 1,
    {
        State {
            pulse1: PulseChannel::new(true),
            pulse2: PulseChannel::new(false),
            triangle: TriangleChannel::new(),
            noise: NoiseChannel::new(),
            dmc: DeltaModulationChannel::new(),
            frame: FrameRegister::new(),
            frame_counter_timer: 0,
            timer_reset_flag: false,
            timer_reset_countdown: 0,
            frame_interrupt_flag: false,
        }
    }

    /// The current levels of the five channels, which the mixer combines.
    pub fn levels(&self) -> (l: ChannelLevels)
        requires
            self.wf(),
        ensures
            l == self.current_levels(),
    {
        ChannelLevels {
            pulse1: self.pulse1.output(),
            pulse2: self.pulse2.output(),
            triangle: self.triangle.output(),
            noise: self.noise.output(),
            dmc: self.dmc.output(),
        }
    }

    /// One CPU cycle: clocks the channel timers, reports the levels that the mixer
    /// samples at this cycle and a sample fetch that the delta modulation channel
    /// wants, then steps the frame sequencer and reports the interrupt line.
    pub fn on_cpu_tick(&mut self, odd_cycle: bool) -> (r: ApuTick)
        requires
            old(self).wf(),
            old(self).frame_counter_timer < usize::MAX,
        ensures
            final(self).wf(),
            *final(self) == old(self).channels_ticked(odd_cycle).sequencer_stepped(),
            r.dma_request == old(self).dma_request_after(odd_cycle),
            r.levels == old(self).channels_ticked(odd_cycle).current_levels(),
            r.irq == final(self).irq_line(),
    {
        self.triangle.tick();
        let mut dma_request: Option<u16> = None;
        if !odd_cycle {
            self.pulse1.tick();
            self.pulse2.tick();
            self.noise.tick();
            self.dmc.tick();
            if self.dmc.should_activate_dma() {
                dma_request = Some(self.dmc.sample_current_address);
            }
        }
        let levels = self.levels();
        self.step_sequencer();
        ApuTick { dma_request, levels, irq: self.update_irq_line() }
    }

    fn step_sequencer(&mut self)
        requires
            old(self).wf(),
            old(self).frame_counter_timer < usize::MAX,
        ensures
            final(self).wf(),
            *final(self) == old(self).sequencer_stepped(),
    {
        if self.timer_reset_flag {
            if self.timer_reset_countdown == 0 {
                self.timer_reset_flag = false;
                self.frame_counter_timer = 1;
            } else {
                self.timer_reset_countdown = self.timer_reset_countdown - 1;
            }
        }
        let t = self.frame_counter_timer;
        if t == 7457 {
            self.quarter_frame_clock();
        } else if t == 14913 {
            self.quarter_frame_clock();
            self.half_frame_clock();
        } else if t == 22371 {
            self.quarter_frame_clock();
        } else if t == 29828 {
            if !self.frame.is_5_step() {
                self.set_frame_interrupt(true);
            }
        } else if t == 29829 {
            if !self.frame.is_5_step() {
                self.quarter_frame_clock();
                self.half_frame_clock();
                self.set_frame_interrupt(true);
            }
        } else if t == 29830 {
            if !self.frame.is_5_step() {
                self.frame_counter_timer = 0;
                self.set_frame_interrupt(true);
            }
        } else if t == 37281 {
            if self.frame.is_5_step() {
                self.quarter_frame_clock();
                self.half_frame_clock();
            }
        } else if t == 37282 {
            if self.frame.is_5_step() {
                self.frame_counter_timer = 0;
            }
        }
        self.frame_counter_timer = self.frame_counter_timer + 1;
    }

    pub fn set_pulse1(&mut self, addr: u16, value: u8)
        requires
            old(self).wf(),
        ensures
            final(self).wf(),
            *final(self) == (State { pulse1: old(self).pulse1.register_written(addr, value), ..*old(self) }),
    {
        self.pulse1.set_register(addr, value);
    }

    pub fn set_pulse2(&mut self, addr: u16, value: u8)
        requires
            old(self).wf(),
        ensures
            final(self).wf(),
            *final(self) == (State { pulse2: old(self).pulse2.register_written(addr, value), ..*old(self) }),
    {
        self.pulse2.set_register(addr, value);
    }

    pub fn set_triangle(&mut self, addr: u16, value: u8)
        requires
            old(self).wf(),
        ensures
            final(self).wf(),
            *final(self) == (State { triangle: old(self).triangle.register_written(addr, value), ..*old(self) }),
    {
        self.triangle.set_register(addr, value);
    }

    pub fn set_noise(&mut self, addr: u16, value: u8)
        requires
            old(self).wf(),
        ensures
            final(self).wf(),
            *final(self) == (State { noise: old(self).noise.register_written(addr, value), ..*old(self) }),
    {
        self.noise.set_register(addr, value);
    }

    pub fn set_dmc(&mut self, addr: u16, value: u8)
        requires
            old(self).wf(),
        ensures
            final(self).wf(),
            *final(self) == (State { dmc: old(self).dmc.register_written(addr, value), ..*old(self) }),
    {
        self.dmc.set_register(addr, value);
    }

    /// A write to the frame counter register. When the interrupt inhibit bit is set the
    /// interrupt line is updated and its new state returned.
    pub fn set_frame(&mut self, value: u8, odd_cycle: bool) -> (irq: Option<bool>)
        requires
            old(self).wf(),
        ensures
            final(self).wf(),
            *final(self) == old(self).frame_written(value, odd_cycle),
            irq == (if FrameRegister(value).interrupt_inhibit() {
                Some(old(self).frame_written(value, odd_cycle).irq_line())
            } else {
                None
            }),
    {
        self.frame.set_value(value);
        let mut irq: Option<bool> = None;
        if self.frame.interrupt_inhibit_flag() {
            self.set_frame_interrupt(false);
            irq = Some(self.update_irq_line());
        }
        self.timer_reset_flag = true;
        self.timer_reset_countdown = if odd_cycle {
            3
        } else {
            4
        };
        if self.frame.is_5_step() {
            self.quarter_frame_clock();
            self.half_frame_clock();
        }
        irq
    }

    /// A write to the status register ($4015): enables or disables each channel.
    /// Returns the interrupt line.
    pub fn write_state_register(&mut self, value: u8) -> (irq: bool)
        requires
            old(self).wf(),
            !old(self).dmc.enable_overflows(value / 16 % 2 == 1),
        ensures
            final(self).wf(),
            *final(self) == old(self).status_written(value),
            irq == final(self).irq_line(),
    {
        proof { lemma_u8_bits(value); }
        self.pulse1.set_enabled(value & 0b0000_0001 != 0);
        self.pulse2.set_enabled(value & 0b0000_0010 != 0);
        self.triangle.set_enabled(value & 0b0000_0100 != 0);
        self.noise.set_enabled(value & 0b0000_1000 != 0);
        self.dmc.set_enabled(value & 0b0001_0000 != 0);
        self.update_irq_line()
    }

    /// A read of the status register ($4015): reports which channels are playing and the
    /// interrupt flags, and acknowledges the frame interrupt. Returns the value read and
    /// the interrupt line.
    pub fn read_state_register(&mut self) -> (r: (u8, bool))
        ensures
            r.0 == old(self).status_value(),
            *final(self) == (State { frame_interrupt_flag: false, ..*old(self) }),
            r.1 == final(self).irq_line(),
    {
        let mut value: u8 = 0;
        value |= if self.pulse1.is_enabled() { 0b0000_0001 } else { 0 };
        value |= if self.pulse2.is_enabled() { 0b0000_0010 } else { 0 };
        value |= if self.triangle.is_enabled() { 0b0000_0100 } else { 0 };
        value |= if self.noise.is_enabled() { 0b0000_1000 } else { 0 };
        value |= if self.dmc.is_enabled() { 0b0001_0000 } else { 0 };
        value |= if self.frame_interrupt_flag { 0b0100_0000 } else { 0 };
        value |= if self.dmc.interrupt_flag { 0b1000_0000 } else { 0 };
        self.set_frame_interrupt(false);
        let irq = self.update_irq_line();
        (value, irq)
    }

    pub fn on_dma_finish(&mut self, value: u8)
        requires
            old(self).wf(),
            !old(self).dmc.transfer_overflows(),
        ensures
            final(self).wf(),
            *final(self) == (State { dmc: old(self).dmc.dma_transferred(value), ..*old(self) }),
    {
        self.dmc.on_dma_data_transfer(value);
    }

    fn update_irq_line(&self) -> (r: bool)
        ensures
            r == self.irq_line(),
    {
        self.frame_interrupt_flag || self.dmc.interrupt_flag
    }

    fn set_frame_interrupt(&mut self, enable: bool)
        ensures
            *final(self) == old(self).frame_interrupt_set(enable),
    {
        if enable && !self.frame.interrupt_inhibit_flag() {
            self.frame_interrupt_flag = true;
        } else if !enable {
            self.frame_interrupt_flag = false;
        }
    }

    fn quarter_frame_clock(&mut self)
        requires
            old(self).wf(),
        ensures
            final(self).wf(),
            *final(self) == old(self).quarter_clocked(),
    {
        self.pulse1.on_quarter_frame_clock();
        self.pulse2.on_quarter_frame_clock();
        self.triangle.on_quarter_frame_clock();
        self.noise.on_quarter_frame_clock();
    }

    fn half_frame_clock(&mut self)
        requires
            old(self).wf(),
        ensures
            final(self).wf(),
            *final(self) == old(self).half_clocked(),
    {
        self.pulse1.on_half_frame_clock();
        self.pulse2.on_half_frame_clock();
        self.triangle.on_half_frame_clock();
        self.noise.on_half_frame_clock();
    }
}

/// Reading the status register acknowledges the frame interrupt: a second read reports
/// bit 6 clear, and the interrupt line then only follows the DMC interrupt.
pub proof fn lemma_status_read_acknowledges(s: State)
    ensures
        (State { frame_interrupt_flag: false, ..s }).status_value() & 0b0100_0000 == 0,
        (State { frame_interrupt_flag: false, ..s }).irq_line() == s.dmc.interrupt_flag,
{
    let t = State { frame_interrupt_flag: false, ..s };
    let a: u8 = if t.pulse1.enabled() { 1 } else { 0 };
    let b: u8 = if t.pulse2.enabled() { 2 } else { 0 };
    let c: u8 = if t.triangle.enabled() { 4 } else { 0 };
    let d: u8 = if t.noise.enabled() { 8 } else { 0 };
    let e: u8 = if t.dmc.enabled() { 16 } else { 0 };
    let g: u8 = if t.dmc.interrupt_flag { 128 } else { 0 };
    assert((0u8 | a | b | c | d | e | 0u8 | g) & 0b0100_0000 == 0) by (bit_vector)
        requires
            a == 0 || a == 1, b == 0 || b == 2, c == 0 || c == 4, d == 0 || d == 8,
            e == 0 || e == 16, g == 0 || g == 128,
    ;
}

/// Writing zero to the status register silences every channel.
pub proof fn lemma_status_zero_silences(s: State)
    requires
        s.wf(),
    ensures
        !s.status_written(0).pulse1.enabled(),
        !s.status_written(0).pulse2.enabled(),
        !s.status_written(0).triangle.enabled(),
        !s.status_written(0).noise.enabled(),
        !s.status_written(0).dmc.enabled(),
        s.status_written(0).current_levels().pulse1 == 0,
        s.status_written(0).current_levels().pulse2 == 0,
        s.status_written(0).current_levels().noise == 0,
        s.status_written(0).current_levels().dmc == 0,
{
}

/// A delta modulation channel with no sample bytes left asks for no sample fetch, and
/// a cycle of the APU leaves it with none.
pub proof fn lemma_dmc_idle_stays(s: State, odd_cycle: bool)
    requires
        s.dmc.sample_remaining_bytes == 0,
    ensures
        s.channels_ticked(odd_cycle).sequencer_stepped().dmc.sample_remaining_bytes == 0,
        s.dma_request_after(odd_cycle).is_none(),
{
    let t = s.channels_ticked(odd_cycle);
    assert(t.dmc.sample_remaining_bytes == 0);
    assert(t.sequencer_stepped().dmc == t.dmc);
}

} // verus!
