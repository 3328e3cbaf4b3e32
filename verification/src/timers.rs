//! Game Boy timer block: the internal divider counter, TIMA/TMA/TAC and the
//! overflow-reload pipeline, driven against the bus IO registers.
use vstd::prelude::*;
use crate::bus::{if_store, BusScalar, BusView};

verus! {

/// Phase of the TIMA overflow/reload pipeline.
#[derive(Clone, Copy, Debug, PartialEq, Eq)]
pub enum TimaState {
    /// Counting normally.
    Running,
    /// TIMA overflowed; reload from TMA after the delay.
    OverflowPending,
    /// TMA was just copied into TIMA; writes to TIMA are ignored this cycle.
    Reloading,
}

/// Game Boy timer block (DIV + TIMA/TMA/TAC).
#[derive(Clone, Copy, Debug, PartialEq, Eq)]
pub struct Timers {
    /// Internal 16-bit divider; DIV is its high byte.
    pub div_counter: u16,
    /// Current level of the timer input (selected divider bit AND enable).
    pub timer_input: bool,
    /// Overflow pipeline state.
    pub tima_state: TimaState,
    /// Value TIMA is reloaded with after an overflow.
    pub pending_reload_value: u8,
    /// Cycles left before the reload happens.
    pub reload_delay: u8,
}

/// Index of the divider bit that clocks TIMA for a TAC value.
pub open spec fn timer_bit_index(tac: u8) -> u16 {
    if tac & 0x03 == 0 {
        9
    } else if tac & 0x03 == 1 {
        3
    } else if tac & 0x03 == 2 {
        5
    } else {
        7
    }
}

/// Mask of the divider bit that clocks TIMA for a TAC value.
pub open spec fn tac_trigger_mask(tac: u8) -> u16 {
    if tac & 0x03 == 0 {
        0x200
    } else if tac & 0x03 == 1 {
        0x08
    } else if tac & 0x03 == 2 {
        0x20
    } else {
        0x80
    }
}

/// Timer input level: timer enabled and the selected divider bit set.
pub open spec fn timer_input_spec(div_counter: u16, tac: u8) -> bool {
    tac & 0x04 != 0 && (div_counter >> timer_bit_index(tac)) & 1 != 0
}

/// TAC as read by the timer (unused bits high).
pub open spec fn tac_of(b: BusView) -> u8 {
    b.io[0x07] | 0xF8
}

/// Timers at power-on / reset.
pub open spec fn timers_initial() -> Timers {
    Timers {
        div_counter: 8,
        timer_input: false,
        tima_state: TimaState::Running,
        pending_reload_value: 0,
        reload_delay: 0,
    }
}

/// One TIMA increment; on overflow TIMA becomes 0 and a reload from TMA is scheduled.
pub open spec fn increment_tima_view(t: Timers, b: BusView) -> (Timers, BusView) {
    let tima = b.io[0x05];
    if tima == 0xFF {
        (
            Timers {
                pending_reload_value: b.io[0x06],
                reload_delay: 4,
                tima_state: TimaState::OverflowPending,
                ..t
            },
            BusView { io: b.io.update(0x05, 0), ..b },
        )
    } else {
        (t, BusView { io: b.io.update(0x05, (tima + 1) as u8), ..b })
    }
}

/// Reload pipeline progress over `cycles` cycles (at most 4).
pub open spec fn advance_tima_view(t: Timers, b: BusView, cycles: u32) -> (Timers, BusView) {
    match t.tima_state {
        TimaState::Running => (t, b),
        TimaState::OverflowPending => {
            let delay: u8 = if t.reload_delay > 0 {
                if t.reload_delay >= cycles {
                    (t.reload_delay - cycles) as u8
                } else {
                    0
                }
            } else {
                t.reload_delay
            };
            if delay == 0 {
                let io1 = b.io.update(0x05, t.pending_reload_value);
                (
                    Timers { reload_delay: delay, tima_state: TimaState::Reloading, ..t },
                    BusView { io: io1.update(0x0F, if_store(io1[0x0F] | 0x04)), ..b },
                )
            } else {
                (Timers { reload_delay: delay, ..t }, b)
            }
        },
        TimaState::Reloading => (Timers { tima_state: TimaState::Running, ..t }, b),
    }
}

/// Divider advanced by `delta`; a falling edge of the selected bit clocks TIMA.
pub open spec fn apply_div_view(t: Timers, b: BusView, delta: u16) -> (Timers, BusView) {
    if delta == 0 {
        (t, b)
    } else {
        let old = t.div_counter;
        let new = ((old + delta) % 65536) as u16;
        let b1 = BusView { io: b.io.update(0x04, (new >> 8u16) as u8), ..b };
        let t1 = Timers { div_counter: new, ..t };
        let tac = tac_of(b1);
        let (t2, b2) = if tac & 0x04 != 0 && (old & !new) & tac_trigger_mask(tac) != 0 {
            increment_tima_view(t1, b1)
        } else {
            (t1, b1)
        };
        (Timers { timer_input: timer_input_spec(new, tac), ..t2 }, b2)
    }
}

/// A pending DIV write: the divider restarts, possibly clocking TIMA on the falling edge.
pub open spec fn process_div_reset_view(t: Timers, b: BusView) -> (Timers, BusView) {
    if b.timer_div_reset {
        let prev_input = t.timer_input;
        let b0 = BusView { timer_div_reset: false, io: b.io.update(0x04, 0), ..b };
        let t0 = Timers { div_counter: 0, ..t };
        let new_input = timer_input_spec(0, tac_of(b0));
        let (t2, b2) = if prev_input && !new_input {
            increment_tima_view(t0, b0)
        } else {
            (t0, b0)
        };
        (Timers { timer_input: new_input, ..t2 }, b2)
    } else {
        (t, b)
    }
}

/// A pending TIMA write, honouring the reload pipeline.
pub open spec fn process_tima_write_view(t: Timers, b: BusView) -> (Timers, BusView) {
    match b.timer_tima_write {
        Some(v) => {
            let b0 = BusView { timer_tima_write: None, ..b };
            match t.tima_state {
                TimaState::Running => (t, BusView { io: b0.io.update(0x05, v), ..b0 }),
                TimaState::OverflowPending => (
                    Timers { tima_state: TimaState::Running, reload_delay: 0, ..t },
                    BusView { io: b0.io.update(0x05, v), ..b0 },
                ),
                TimaState::Reloading => (
                    t,
                    BusView { io: b0.io.update(0x05, t.pending_reload_value), ..b0 },
                ),
            }
        },
        None => (t, b),
    }
}

/// A pending TMA write: new reload value, copied to TIMA while reloading.
pub open spec fn process_tma_write_view(t: Timers, b: BusView) -> (Timers, BusView) {
    match b.timer_tma_write {
        Some(v) => {
            let b0 = BusView { timer_tma_write: None, ..b };
            let t0 = Timers { pending_reload_value: v, ..t };
            if t.tima_state == TimaState::Reloading {
                (t0, BusView { io: b0.io.update(0x05, v), ..b0 })
            } else {
                (t0, b0)
            }
        },
        None => (t, b),
    }
}

/// A pending TAC write: a falling edge of the timer input clocks TIMA.
pub open spec fn process_tac_write_view(t: Timers, b: BusView) -> (Timers, BusView) {
    match b.timer_tac_write {
        Some((old_tac, new_tac)) => {
            let b0 = BusView { timer_tac_write: None, ..b };
            let (t1, b1) = if old_tac & 0x04 != 0 && t.div_counter & tac_trigger_mask(old_tac) != 0
                && (new_tac & 0x04 == 0 || t.div_counter & tac_trigger_mask(new_tac) == 0) {
                increment_tima_view(t, b0)
            } else {
                (t, b0)
            };
            (Timers { timer_input: timer_input_spec(t1.div_counter, new_tac), ..t1 }, b1)
        },
        None => (t, b),
    }
}

/// All latched register writes applied, in hardware order: DIV, TIMA, TMA, TAC.
pub open spec fn process_writes_view(t: Timers, b: BusView) -> (Timers, BusView) {
    let (t1, b1) = process_div_reset_view(t, b);
    let (t2, b2) = process_tima_write_view(t1, b1);
    let (t3, b3) = process_tma_write_view(t2, b2);
    process_tac_write_view(t3, b3)
}

/// Timer block run for `remaining` cycles in steps of at most 4.
pub open spec fn run_timers_view(t: Timers, b: BusView, remaining: nat) -> (Timers, BusView)
    decreases remaining,
{
    if remaining == 0 {
        (t, b)
    } else {
        let step: u32 = if remaining < 4 {
            remaining as u32
        } else {
            4
        };
        let (t1, b1) = advance_tima_view(t, b, step);
        let (t2, b2) = apply_div_view(t1, b1, step as u16);
        run_timers_view(t2, b2, (remaining - step) as nat)
    }
}

/// Effect of `Timers::step`: latched writes, then `cycles` cycles of counting.
pub open spec fn timers_step_view(t: Timers, b: BusView, cycles: u32) -> (Timers, BusView) {
    let (t1, b1) = process_writes_view(t, b);
    run_timers_view(t1, b1, cycles as nat)
}

/// The register surface the timers read and write.
pub trait TimerIo {
    /// Reads the divider register.
    fn read_div(&self) -> u8;
    /// Writes the divider register.
    fn write_div(&mut self, value: u8);
    /// Returns whether the divider was reset since the last poll.
    fn take_div_reset(&mut self) -> bool;
    /// Returns the most recent TIMA write value if one occurred.
    fn take_tima_write(&mut self) -> Option<u8>;
    /// Returns the most recent TMA write value if one occurred.
    fn take_tma_write(&mut self) -> Option<u8>;
    /// Returns the most recent TAC write value if one occurred.
    fn take_tac_write(&mut self) -> Option<(u8, u8)>;
    /// Reads the TIMA counter.
    fn read_tima(&self) -> u8;
    /// Writes the TIMA counter.
    fn write_tima(&mut self, value: u8);
    /// Reads the timer modulo.
    fn read_tma(&self) -> u8;
    /// Reads the timer control register.
    fn read_tac(&self) -> u8;
    /// Reads the interrupt flag register.
    fn read_if(&self) -> u8;
    /// Writes the interrupt flag register.
    fn write_if(&mut self, value: u8);
}

impl TimerIo for BusScalar {
    fn read_div(&self) -> (r: u8)
        ensures
            r == self@.io[0x04],
    {
        self.io.div()
    }

    fn write_div(&mut self, value: u8)
        ensures
            final(self)@ == (BusView { io: old(self)@.io.update(0x04, value), ..old(self)@ }),
    {
        self.io.set_div(value);
    }

    fn take_div_reset(&mut self) -> (r: bool)
        ensures
            r == old(self)@.timer_div_reset,
            final(self)@ == (BusView { timer_div_reset: false, ..old(self)@ }),
    {
        let pending = self.timer_div_reset;
        if pending {
            self.timer_div_reset = false;
        }
        pending
    }

    fn take_tima_write(&mut self) -> (r: Option<u8>)
        ensures
            r == old(self)@.timer_tima_write,
            final(self)@ == (BusView { timer_tima_write: None, ..old(self)@ }),
    {
        self.timer_tima_write.take()
    }

    fn take_tma_write(&mut self) -> (r: Option<u8>)
        ensures
            r == old(self)@.timer_tma_write,
            final(self)@ == (BusView { timer_tma_write: None, ..old(self)@ }),
    {
        self.timer_tma_write.take()
    }

    fn take_tac_write(&mut self) -> (r: Option<(u8, u8)>)
        ensures
            r == old(self)@.timer_tac_write,
            final(self)@ == (BusView { timer_tac_write: None, ..old(self)@ }),
    {
        self.timer_tac_write.take()
    }

    fn read_tima(&self) -> (r: u8)
        ensures
            r == self@.io[0x05],
    {
        self.io.tima()
    }

    fn write_tima(&mut self, value: u8)
        ensures
            final(self)@ == (BusView { io: old(self)@.io.update(0x05, value), ..old(self)@ }),
    {
        self.io.set_tima(value);
    }

    fn read_tma(&self) -> (r: u8)
        ensures
            r == self@.io[0x06],
    {
        self.io.tma()
    }

    fn read_tac(&self) -> (r: u8)
        ensures
            r == tac_of(self@),
    {
        self.io.tac()
    }

    fn read_if(&self) -> (r: u8)
        ensures
            r == self@.io[0x0F],
    {
        self.io.if_reg()
    }

    fn write_if(&mut self, value: u8)
        ensures
            final(self)@ == (BusView {
                io: old(self)@.io.update(0x0F, if_store(value)),
                ..old(self)@
            }),
    {
        self.io.set_if(value);
    }
}

impl Default for Timers {
    fn default() -> (r: Self)
        ensures
            r == (Timers {
                div_counter: 0,
                timer_input: false,
                tima_state: TimaState::Running,
                pending_reload_value: 0,
                reload_delay: 0,
            }),
    {
        Timers {
            div_counter: 0,
            timer_input: false,
            tima_state: TimaState::Running,
            pending_reload_value: 0,
            reload_delay: 0,
        }
    }
}

impl Timers {
    /// Creates a fresh timer instance.
    pub fn new() -> (r: Self)
        ensures
            r == timers_initial(),
    {
        Timers {
            div_counter: 8,
            timer_input: false,
            tima_state: TimaState::Running,
            pending_reload_value: 0,
            reload_delay: 0,
        }
    }

    /// Resets counters to their initial values.
    pub fn reset(&mut self)
        ensures
            *final(self) == timers_initial(),
    {
        self.div_counter = 8;
        self.timer_input = false;
        self.tima_state = TimaState::Running;
        self.pending_reload_value = 0;
        self.reload_delay = 0;
    }

    /// Sets the divider to the post-boot value `0x03xx` (low byte `sync_low`),
    /// publishes DIV and latches TMA as the reload value.
    pub fn initialize_post_boot(&mut self, io: &mut BusScalar, sync_low: u8)
        ensures
            final(self).div_counter == 0x0300 + sync_low,
            final(self).timer_input == timer_input_spec(
                (0x0300 + sync_low) as u16,
                tac_of(old(io)@),
            ),
            final(self).tima_state == TimaState::Running,
            final(self).pending_reload_value == old(io)@.io[0x06],
            final(self).reload_delay == 0,
            final(io)@ == (BusView { io: old(io)@.io.update(0x04, 0x03), ..old(io)@ }),
    {
        self.div_counter = 0x0300u16 + sync_low as u16;
        let tac = io.read_tac();
        self.timer_input = self.compute_timer_input(tac);
        self.tima_state = TimaState::Running;
        proof {
            crate::bits::lemma_word_bytes();
        }
        io.write_div((self.div_counter >> 8u16) as u8);
        self.pending_reload_value = io.read_tma();
        self.reload_delay = 0;
    }

    /// Returns `(divider, timer input, overflow pending, pipeline state number)`.
    pub fn debug_state(&self) -> (r: (u16, bool, bool, u8))
        ensures
            r == (
                self.div_counter,
                self.timer_input,
                self.tima_state == TimaState::OverflowPending,
                match self.tima_state {
                    TimaState::Running => 0u8,
                    TimaState::OverflowPending => 1u8,
                    TimaState::Reloading => 2u8,
                },
            ),
    {
        (
            self.div_counter,
            self.timer_input,
            matches!(self.tima_state, TimaState::OverflowPending),
            match self.tima_state {
                TimaState::Running => 0,
                TimaState::OverflowPending => 1,
                TimaState::Reloading => 2,
            },
        )
    }

    /// Sets the divider high byte, keeping the bootstrap low-phase approximation `sync_low`.
    pub fn sync_div_from_high_byte(&mut self, high: u8, sync_low: u8)
        ensures
            *final(self) == (Timers { div_counter: (high * 256 + sync_low) as u16, ..*old(self) }),
    {
        proof {
            crate::bits::lemma_word_bytes();
        }
        self.div_counter = ((high as u16) << 8u16) | (sync_low as u16);
    }

    /// Steps the timer block by `cycles`.
    pub fn step(&mut self, cycles: u32, io: &mut BusScalar)
        ensures
            (*final(self), final(io)@) == timers_step_view(*old(self), old(io)@, cycles),
            final(io)@.rom == old(io)@.rom,
    {
        self.process_register_writes(io);
        let ghost t1 = *self;
        let ghost b1 = io@;
        let mut remaining = cycles;
        while remaining > 0
            invariant
                run_timers_view(*self, io@, remaining as nat) == run_timers_view(
                    t1,
                    b1,
                    cycles as nat,
                ),
                io@.rom == b1.rom,
            decreases remaining,
        {
            let step = if remaining < 4 { remaining } else { 4 };
            self.advance_tima_state(step, io);
            self.apply_div_increment(step as u16, io);
            remaining = remaining.saturating_sub(step);
        }
    }

    fn process_register_writes(&mut self, io: &mut BusScalar)
        ensures
            (*final(self), final(io)@) == process_writes_view(*old(self), old(io)@),
            final(io)@.rom == old(io)@.rom,
    {
        self.process_div_reset(io);
        self.process_tima_write(io);
        self.process_tma_write(io);
        self.process_tac_write(io);
    }

    fn process_div_reset(&mut self, io: &mut BusScalar)
        ensures
            (*final(self), final(io)@) == process_div_reset_view(*old(self), old(io)@),
    {
        if io.take_div_reset() {
            let prev_input = self.timer_input;
            self.div_counter = 0;
            io.write_div(0);
            let tac = io.read_tac();
            let new_input = self.compute_timer_input(tac);
            if prev_input && !new_input {
                self.increment_tima(io);
            }
            self.timer_input = new_input;
        }
    }

    fn process_tima_write(&mut self, io: &mut BusScalar)
        ensures
            (*final(self), final(io)@) == process_tima_write_view(*old(self), old(io)@),
    {
        if let Some(value) = io.take_tima_write() {
            match self.tima_state {
                TimaState::Running => {
                    io.write_tima(value);
                },
                TimaState::OverflowPending => {
                    io.write_tima(value);
                    self.tima_state = TimaState::Running;
                    self.reload_delay = 0;
                },
                TimaState::Reloading => {
                    io.write_tima(self.pending_reload_value);
                },
            }
        }
    }

    fn process_tma_write(&mut self, io: &mut BusScalar)
        ensures
            (*final(self), final(io)@) == process_tma_write_view(*old(self), old(io)@),
    {
        if let Some(value) = io.take_tma_write() {
            self.pending_reload_value = value;
            if matches!(self.tima_state, TimaState::Reloading) {
                io.write_tima(value);
            }
        }
    }

    fn process_tac_write(&mut self, io: &mut BusScalar)
        ensures
            (*final(self), final(io)@) == process_tac_write_view(*old(self), old(io)@),
    {
        if let Some((old_tac, new_tac)) = io.take_tac_write() {
            if old_tac & 0x04 != 0 {
                let old_mask = Self::tac_trigger_bit(old_tac);
                let new_mask = Self::tac_trigger_bit(new_tac);
                if self.div_counter & old_mask != 0 && (new_tac & 0x04 == 0 || self.div_counter
                    & new_mask == 0) {
                    self.increment_tima(io);
                }
            }
            self.timer_input = self.compute_timer_input(new_tac);
        }
    }

    fn compute_timer_input(&self, tac: u8) -> (r: bool)
        ensures
            r == timer_input_spec(self.div_counter, tac),
    {
        if tac & 0x04 == 0 {
            return false;
        }
        let bit: u16 = if tac & 0x03 == 0 {
            9
        } else if tac & 0x03 == 1 {
            3
        } else if tac & 0x03 == 2 {
            5
        } else {
            7
        };
        ((self.div_counter >> bit) & 0x01) != 0
    }

    fn increment_tima(&mut self, io: &mut BusScalar)
        ensures
            (*final(self), final(io)@) == increment_tima_view(*old(self), old(io)@),
    {
        let tima = io.read_tima();
        if tima == 0xFF {
            io.write_tima(0);
            self.pending_reload_value = io.read_tma();
            self.reload_delay = 4;
            self.tima_state = TimaState::OverflowPending;
        } else {
            io.write_tima(tima + 1);
        }
    }

    fn advance_tima_state(&mut self, cycles: u32, io: &mut BusScalar)
        requires
            cycles <= 4,
        ensures
            (*final(self), final(io)@) == advance_tima_view(*old(self), old(io)@, cycles),
    {
        match self.tima_state {
            TimaState::Running => {},
            TimaState::OverflowPending => {
                if self.reload_delay > 0 {
                    self.reload_delay = self.reload_delay.saturating_sub(cycles as u8);
                }
                if self.reload_delay == 0 {
                    io.write_tima(self.pending_reload_value);
                    let mut if_reg = io.read_if();
                    if_reg = if_reg | 0x04;
                    io.write_if(if_reg);
                    self.tima_state = TimaState::Reloading;
                }
            },
            TimaState::Reloading => {
                self.tima_state = TimaState::Running;
            },
        }
    }

    fn tac_trigger_bit(tac: u8) -> (r: u16)
        ensures
            r == tac_trigger_mask(tac),
    {
        if tac & 0x03 == 0 {
            0x200
        } else if tac & 0x03 == 1 {
            0x08
        } else if tac & 0x03 == 2 {
            0x20
        } else {
            0x80
        }
    }

    fn apply_div_increment(&mut self, delta: u16, io: &mut BusScalar)
        ensures
            (*final(self), final(io)@) == apply_div_view(*old(self), old(io)@, delta),
    {
        if delta == 0 {
            return ;
        }
        let old = self.div_counter;
        let new = old.wrapping_add(delta);
        self.div_counter = new;
        io.write_div((self.div_counter >> 8u16) as u8);
        let triggers = old & !new;
        let tac = io.read_tac();
        if tac & 0x04 != 0 {
            let mask = Self::tac_trigger_bit(tac);
            if triggers & mask != 0 {
                self.increment_tima(io);
            }
        }
        self.timer_input = self.compute_timer_input(tac);
    }
}

} // verus!
