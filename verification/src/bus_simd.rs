//! Lane-multiplexed bus: one scalar bus per lane, kept in lockstep. Memory
//! accesses go lane by lane; register reads come from the first (canonical)
//! lane and register writes go to every lane.
use vstd::prelude::*;
use crate::bus::{
    advance_serial_view, if_store, io_write_spec, load_rom_view, set_inputs_view,
    BusScalar, BusView, InterruptCtrl, IoRegs, SerialIo,
};
use crate::mmu::{read8_scalar, read8_view, write8_scalar, write8_view};
use crate::service_abi::copy_bytes;
use crate::timers::{tac_of, TimerIo};

verus! {

/// Bus that keeps one scalar bus per lane.
pub struct BusSimd<const LANES: usize> {
    lanes: Vec<BusScalar>,
}

/// The first latched value among the lanes, in lane order.
pub open spec fn first_latched<T>(s: Seq<Option<T>>) -> Option<T>
    decreases s.len(),
{
    if s.len() == 0 {
        None
    } else {
        let earlier = first_latched(s.drop_last());
        if earlier is Some {
            earlier
        } else {
            s.last()
        }
    }
}

impl<const LANES: usize> View for BusSimd<LANES> {
    type V = Seq<BusView>;

    closed spec fn view(&self) -> Seq<BusView> {
        self.lanes@.map_values(|b: BusScalar| b@)
    }
}

impl<const LANES: usize> BusSimd<LANES> {
    /// One bus per lane, at least one lane.
    #[verifier::type_invariant]
    spec fn inv(self) -> bool {
        &&& LANES > 0
        &&& self.lanes@.len() == LANES
    }

    /// Creates a bus whose lanes each hold a copy of `rom`.
    pub fn new(rom: Vec<u8>) -> (r: Self)
        requires
            LANES > 0,
        ensures
            r@ == Seq::new(LANES as nat, |i: int| BusScalar::new_view(rom@)),
    {
        let mut lanes: Vec<BusScalar> = Vec::new();
        let mut i: usize = 0;
        while i < LANES
            invariant
                i <= LANES,
                lanes@.len() == i,
                forall|k: int| 0 <= k < i ==> (#[trigger] lanes@[k])@ == BusScalar::new_view(rom@),
            decreases LANES - i,
        {
            let lane = BusScalar::new(copy_bytes(rom.as_slice()), None);
            assert(lane@ == BusScalar::new_view(rom@));
            lanes.push(lane);
            i = i + 1;
        }
        let r = BusSimd { lanes };
        assert(r@ =~= Seq::new(LANES as nat, |i: int| BusScalar::new_view(rom@)));
        r
    }

    /// Number of lanes.
    pub fn lane_count(&self) -> (r: usize)
        ensures
            r == LANES,
            self@.len() == LANES,
            LANES > 0,
    {
        proof {
            use_type_invariant(self);
        }
        LANES
    }

    /// Replaces the ROM contents of every lane.
    pub fn load_rom(&mut self, rom: Vec<u8>)
        ensures
            final(self)@ == old(self)@.map_values(|b: BusView| load_rom_view(b, rom@)),
    {
        proof {
            use_type_invariant(&*self);
        }
        let ghost start = self@;
        let mut i: usize = 0;
        while i < self.lanes.len()
            invariant
                LANES > 0,
                self.lanes@.len() == LANES,
                i <= self@.len(),
                start.len() == self@.len(),
                forall|k: int| 0 <= k < i ==> self@[k] == load_rom_view(#[trigger] start[k], rom@),
                forall|k: int| i <= k < self@.len() ==> #[trigger] self@[k] == start[k],
            decreases self@.len() - i,
        {
            let ghost before = self@;
            self.lanes[i].load_rom(copy_bytes(rom.as_slice()));
            assert(self@ =~= before.update(i as int, load_rom_view(before[i as int], rom@)));
            i = i + 1;
        }
        assert(self@ =~= start.map_values(|b: BusView| load_rom_view(b, rom@)));
    }

    /// Borrows one lane.
    pub fn lane(&self, lane: usize) -> (r: &BusScalar)
        requires
            lane < LANES,
        ensures
            r@ == self@[lane as int],
    {
        proof {
            use_type_invariant(self);
        }
        &self.lanes[lane]
    }

    /// Borrows one lane mutably.
    pub fn lane_mut(&mut self, lane: usize) -> (r: &mut BusScalar)
        requires
            lane < LANES,
        ensures
            r@ == old(self)@[lane as int],
            final(self)@ == old(self)@.update(lane as int, final(r)@),
    {
        proof {
            use_type_invariant(&*self);
        }
        &mut self.lanes[lane]
    }

    /// Applies joypad inputs to every lane.
    pub fn set_inputs(&mut self, joypad: u8)
        ensures
            final(self)@ == old(self)@.map_values(|b: BusView| set_inputs_view(b, joypad)),
    {
        proof {
            use_type_invariant(&*self);
        }
        let ghost start = self@;
        let mut i: usize = 0;
        while i < self.lanes.len()
            invariant
                LANES > 0,
                self.lanes@.len() == LANES,
                i <= self@.len(),
                start.len() == self@.len(),
                forall|k: int| 0 <= k < i ==> self@[k] == set_inputs_view(#[trigger] start[k], joypad),
                forall|k: int| i <= k < self@.len() ==> #[trigger] self@[k] == start[k],
            decreases self@.len() - i,
        {
            let ghost before = self@;
            self.lanes[i].set_inputs(joypad);
            assert(self@ =~= before.update(i as int, set_inputs_view(before[i as int], joypad)));
            i = i + 1;
        }
        assert(self@ =~= start.map_values(|b: BusView| set_inputs_view(b, joypad)));
    }

    /// Reads one byte per lane, each lane at its own address.
    pub fn read8(&mut self, addrs: &[u16]) -> (r: Vec<u8>)
        requires
            addrs@.len() == LANES,
        ensures
            final(self)@ == old(self)@,
            r@.len() == LANES,
            forall|k: int| 0 <= k < LANES ==> #[trigger] r@[k] == read8_view(old(self)@[k], addrs@[k]),
    {
        proof {
            use_type_invariant(&*self);
        }
        let ghost start = self@;
        let mut out: Vec<u8> = Vec::new();
        let mut i: usize = 0;
        while i < self.lanes.len()
            invariant
                LANES > 0,
                self.lanes@.len() == LANES,
                self@ == start,
                addrs@.len() == LANES,
                i <= self@.len(),
                out@.len() == i,
                forall|k: int| 0 <= k < i ==> #[trigger] out@[k] == read8_view(start[k], addrs@[k]),
            decreases self@.len() - i,
        {
            let byte = read8_scalar(&mut self.lanes[i], addrs[i]);
            out.push(byte);
            i = i + 1;
            assert(self@ =~= start);
        }
        out
    }

    /// Writes one byte per lane, each lane at its own address.
    pub fn write8(&mut self, addrs: &[u16], values: &[u8])
        requires
            addrs@.len() == LANES,
            values@.len() == LANES,
        ensures
            final(self)@.len() == LANES,
            forall|k: int|
                0 <= k < LANES ==> #[trigger] final(self)@[k] == write8_view(
                    old(self)@[k],
                    addrs@[k],
                    values@[k],
                ),
    {
        proof {
            use_type_invariant(&*self);
        }
        let ghost start = self@;
        let mut i: usize = 0;
        while i < self.lanes.len()
            invariant
                LANES > 0,
                self.lanes@.len() == LANES,
                addrs@.len() == LANES,
                values@.len() == LANES,
                i <= self@.len(),
                start.len() == self@.len(),
                forall|k: int|
                    0 <= k < i ==> self@[k] == write8_view(#[trigger] start[k], addrs@[k], values@[k]),
                forall|k: int| i <= k < self@.len() ==> #[trigger] self@[k] == start[k],
            decreases self@.len() - i,
        {
            let ghost before = self@;
            write8_scalar(&mut self.lanes[i], addrs[i], values[i]);
            assert(self@ =~= before.update(
                i as int,
                write8_view(before[i as int], addrs@[i as int], values@[i as int]),
            ));
            i = i + 1;
        }
    }

    /// The lane whose registers stand for all lanes.
    pub(crate) fn canonical_lane(&self) -> (r: &BusScalar)
        ensures
            r@ == self@[0],
    {
        proof {
            use_type_invariant(self);
        }
        &self.lanes[0]
    }
}

impl<const LANES: usize> InterruptCtrl for BusSimd<LANES> {
    fn read_ie(&self) -> (r: u8)
        ensures
            r == self@[0].ie,
    {
        proof {
            use_type_invariant(self);
        }
        self.lanes[0].ie
    }
}

impl<const LANES: usize> SerialIo for BusSimd<LANES> {
    fn step_serial(&mut self, cycles: u32)
        ensures
            final(self)@ == old(self)@.map_values(|b: BusView| advance_serial_view(b, cycles as nat)),
    {
        proof {
            use_type_invariant(&*self);
        }
        let ghost start = self@;
        let mut i: usize = 0;
        while i < self.lanes.len()
            invariant
                LANES > 0,
                self.lanes@.len() == LANES,
                i <= self@.len(),
                start.len() == self@.len(),
                self.lanes@.len() == start.len(),
                forall|k: int|
                    0 <= k < i ==> self@[k] == advance_serial_view(#[trigger] start[k], cycles as nat),
                forall|k: int| i <= k < self@.len() ==> #[trigger] self@[k] == start[k],
            decreases self@.len() - i,
        {
            let ghost before = self@;
            self.lanes[i].step_serial(cycles);
            assert(self@ =~= before.update(i as int, advance_serial_view(before[i as int], cycles as nat)));
            i = i + 1;
        }
        assert(self@ =~= start.map_values(|b: BusView| advance_serial_view(b, cycles as nat)));
    }
}

/// Every lane with `f` applied to its bus state.
pub open spec fn each_lane(lanes: Seq<BusView>, f: spec_fn(BusView) -> BusView) -> Seq<BusView> {
    lanes.map_values(f)
}

impl<const LANES: usize> BusSimd<LANES> {
    /// Applies a register write to every lane.
    pub(crate) fn write_all_io(&mut self, idx: usize, value: u8)
        requires
            idx < 0x80,
        ensures
            final(self)@ == old(self)@.map_values(
                |b: BusView| BusView { io: io_write_spec(b.io, idx as int, value), ..b },
            ),
    {
        proof {
            use_type_invariant(&*self);
        }
        let ghost start = self@;
        let mut i: usize = 0;
        while i < self.lanes.len()
            invariant
                LANES > 0,
                self.lanes@.len() == LANES,
                idx < 0x80,
                i <= self@.len(),
                start.len() == self@.len(),
                self.lanes@.len() == start.len(),
                forall|k: int|
                    0 <= k < i ==> self@[k] == (BusView {
                        io: io_write_spec((#[trigger] start[k]).io, idx as int, value),
                        ..start[k]
                    }),
                forall|k: int| i <= k < self@.len() ==> #[trigger] self@[k] == start[k],
            decreases self@.len() - i,
        {
            let ghost before = self@;
            crate::ppu_stub::PpuIo::write_io(&mut self.lanes[i], idx, value);
            assert(self@ =~= before.update(
                i as int,
                BusView { io: io_write_spec(before[i as int].io, idx as int, value), ..before[i as int] },
            ));
            i = i + 1;
        }
        assert(self@ =~= start.map_values(
            |b: BusView| BusView { io: io_write_spec(b.io, idx as int, value), ..b },
        ));
    }
}

impl<const LANES: usize> TimerIo for BusSimd<LANES> {
    fn read_div(&self) -> (r: u8)
        ensures
            r == self@[0].io[0x04],
    {
        proof {
            use_type_invariant(self);
        }
        self.lanes[0].read_div()
    }

    fn write_div(&mut self, value: u8)
        ensures
            final(self)@ == old(self)@.map_values(
                |b: BusView| BusView { io: b.io.update(0x04, value), ..b },
            ),
    {
        self.write_all_io(IoRegs::DIV, value);
        proof {
            assert(self@ =~= old(self)@.map_values(
                |b: BusView| BusView { io: b.io.update(0x04, value), ..b },
            ));
        }
    }

    fn take_div_reset(&mut self) -> (r: bool)
        ensures
            r == (exists|k: int| 0 <= k < old(self)@.len() && (#[trigger] old(self)@[k]).timer_div_reset),
            final(self)@ == old(self)@.map_values(|b: BusView| BusView { timer_div_reset: false, ..b }),
    {
        proof {
            use_type_invariant(&*self);
        }
        let ghost start = self@;
        let mut any = false;
        let mut i: usize = 0;
        while i < self.lanes.len()
            invariant
                LANES > 0,
                self.lanes@.len() == LANES,
                i <= self@.len(),
                start.len() == self@.len(),
                self.lanes@.len() == start.len(),
                any == (exists|k: int| 0 <= k < i && (#[trigger] start[k]).timer_div_reset),
                forall|k: int|
                    0 <= k < i ==> self@[k] == (BusView { timer_div_reset: false, ..#[trigger] start[k] }),
                forall|k: int| i <= k < self@.len() ==> #[trigger] self@[k] == start[k],
            decreases self@.len() - i,
        {
            let ghost before = self@;
            let lane_reset = self.lanes[i].take_div_reset();
            assert(self@ =~= before.update(i as int, BusView { timer_div_reset: false, ..before[i as int] }));
            assert(lane_reset == start[i as int].timer_div_reset);
            any = any || lane_reset;
            i = i + 1;
        }
        assert(self@ =~= start.map_values(|b: BusView| BusView { timer_div_reset: false, ..b }));
        any
    }

    fn take_tima_write(&mut self) -> (r: Option<u8>)
        ensures
            r == first_latched(old(self)@.map_values(|b: BusView| b.timer_tima_write)),
            final(self)@ == old(self)@.map_values(|b: BusView| BusView { timer_tima_write: None, ..b }),
    {
        proof {
            use_type_invariant(&*self);
        }
        let ghost start = self@;
        let mut value: Option<u8> = None;
        let mut i: usize = 0;
        while i < self.lanes.len()
            invariant
                LANES > 0,
                self.lanes@.len() == LANES,
                i <= self@.len(),
                start.len() == self@.len(),
                self.lanes@.len() == start.len(),
                value == first_latched(start.take(i as int).map_values(|b: BusView| b.timer_tima_write)),
                forall|k: int| 0 <= k < i ==> self@[k] == (BusView { timer_tima_write: None, ..#[trigger] start[k] }),
                forall|k: int| i <= k < self@.len() ==> #[trigger] self@[k] == start[k],
            decreases self@.len() - i,
        {
            let ghost before = self@;
            let lane_value = self.lanes[i].take_tima_write();
            assert(self@ =~= before.update(i as int, BusView { timer_tima_write: None, ..before[i as int] }));
            assert(start.take(i + 1).map_values(|b: BusView| b.timer_tima_write).drop_last() =~= start.take(
                i as int,
            ).map_values(|b: BusView| b.timer_tima_write));
            if value.is_none() && lane_value.is_some() {
                value = lane_value;
            }
            i = i + 1;
        }
        assert(start.take(i as int) =~= start);
        assert(self@ =~= start.map_values(|b: BusView| BusView { timer_tima_write: None, ..b }));
        value
    }

    fn take_tma_write(&mut self) -> (r: Option<u8>)
        ensures
            r == first_latched(old(self)@.map_values(|b: BusView| b.timer_tma_write)),
            final(self)@ == old(self)@.map_values(|b: BusView| BusView { timer_tma_write: None, ..b }),
    {
        proof {
            use_type_invariant(&*self);
        }
        let ghost start = self@;
        let mut value: Option<u8> = None;
        let mut i: usize = 0;
        while i < self.lanes.len()
            invariant
                LANES > 0,
                self.lanes@.len() == LANES,
                i <= self@.len(),
                start.len() == self@.len(),
                self.lanes@.len() == start.len(),
                value == first_latched(start.take(i as int).map_values(|b: BusView| b.timer_tma_write)),
                forall|k: int| 0 <= k < i ==> self@[k] == (BusView { timer_tma_write: None, ..#[trigger] start[k] }),
                forall|k: int| i <= k < self@.len() ==> #[trigger] self@[k] == start[k],
            decreases self@.len() - i,
        {
            let ghost before = self@;
            let lane_value = self.lanes[i].take_tma_write();
            assert(self@ =~= before.update(i as int, BusView { timer_tma_write: None, ..before[i as int] }));
            assert(start.take(i + 1).map_values(|b: BusView| b.timer_tma_write).drop_last() =~= start.take(
                i as int,
            ).map_values(|b: BusView| b.timer_tma_write));
            if value.is_none() && lane_value.is_some() {
                value = lane_value;
            }
            i = i + 1;
        }
        assert(start.take(i as int) =~= start);
        assert(self@ =~= start.map_values(|b: BusView| BusView { timer_tma_write: None, ..b }));
        value
    }

    fn take_tac_write(&mut self) -> (r: Option<(u8, u8)>)
        ensures
            r == first_latched(old(self)@.map_values(|b: BusView| b.timer_tac_write)),
            final(self)@ == old(self)@.map_values(|b: BusView| BusView { timer_tac_write: None, ..b }),
    {
        proof {
            use_type_invariant(&*self);
        }
        let ghost start = self@;
        let mut value: Option<(u8, u8)> = None;
        let mut i: usize = 0;
        while i < self.lanes.len()
            invariant
                LANES > 0,
                self.lanes@.len() == LANES,
                i <= self@.len(),
                start.len() == self@.len(),
                self.lanes@.len() == start.len(),
                value == first_latched(start.take(i as int).map_values(|b: BusView| b.timer_tac_write)),
                forall|k: int| 0 <= k < i ==> self@[k] == (BusView { timer_tac_write: None, ..#[trigger] start[k] }),
                forall|k: int| i <= k < self@.len() ==> #[trigger] self@[k] == start[k],
            decreases self@.len() - i,
        {
            let ghost before = self@;
            let lane_value = self.lanes[i].take_tac_write();
            assert(self@ =~= before.update(i as int, BusView { timer_tac_write: None, ..before[i as int] }));
            assert(start.take(i + 1).map_values(|b: BusView| b.timer_tac_write).drop_last() =~= start.take(
                i as int,
            ).map_values(|b: BusView| b.timer_tac_write));
            if value.is_none() && lane_value.is_some() {
                value = lane_value;
            }
            i = i + 1;
        }
        assert(start.take(i as int) =~= start);
        assert(self@ =~= start.map_values(|b: BusView| BusView { timer_tac_write: None, ..b }));
        value
    }

    fn read_tima(&self) -> (r: u8)
        ensures
            r == self@[0].io[0x05],
    {
        proof {
            use_type_invariant(self);
        }
        self.lanes[0].read_tima()
    }

    fn write_tima(&mut self, value: u8)
        ensures
            final(self)@ == old(self)@.map_values(
                |b: BusView| BusView { io: b.io.update(0x05, value), ..b },
            ),
    {
        self.write_all_io(IoRegs::TIMA, value);
        proof {
            assert(self@ =~= old(self)@.map_values(
                |b: BusView| BusView { io: b.io.update(0x05, value), ..b },
            ));
        }
    }

    fn read_tma(&self) -> (r: u8)
        ensures
            r == self@[0].io[0x06],
    {
        proof {
            use_type_invariant(self);
        }
        self.lanes[0].read_tma()
    }

    fn read_tac(&self) -> (r: u8)
        ensures
            r == tac_of(self@[0]),
    {
        proof {
            use_type_invariant(self);
        }
        self.lanes[0].read_tac()
    }

    fn read_if(&self) -> (r: u8)
        ensures
            r == self@[0].io[0x0F],
    {
        proof {
            use_type_invariant(self);
        }
        TimerIo::read_if(&self.lanes[0])
    }

    fn write_if(&mut self, value: u8)
        ensures
            final(self)@ == old(self)@.map_values(
                |b: BusView| BusView { io: b.io.update(0x0F, if_store(value)), ..b },
            ),
    {
        proof {
            use_type_invariant(&*self);
        }
        let ghost start = self@;
        let mut i: usize = 0;
        while i < self.lanes.len()
            invariant
                LANES > 0,
                self.lanes@.len() == LANES,
                i <= self@.len(),
                start.len() == self@.len(),
                self.lanes@.len() == start.len(),
                forall|k: int|
                    0 <= k < i ==> self@[k] == (BusView {
                        io: (#[trigger] start[k]).io.update(0x0F, if_store(value)),
                        ..start[k]
                    }),
                forall|k: int| i <= k < self@.len() ==> #[trigger] self@[k] == start[k],
            decreases self@.len() - i,
        {
            let ghost before = self@;
            TimerIo::write_if(&mut self.lanes[i], value);
            assert(self@ =~= before.update(
                i as int,
                BusView { io: before[i as int].io.update(0x0F, if_store(value)), ..before[i as int] },
            ));
            i = i + 1;
        }
        assert(self@ =~= start.map_values(
            |b: BusView| BusView { io: b.io.update(0x0F, if_store(value)), ..b },
        ));
    }
}

/// All lanes hold the same bus state.
pub open spec fn lockstep(lanes: Seq<BusView>) -> bool {
    forall|i: int, j: int| 0 <= i < lanes.len() && 0 <= j < lanes.len() ==> lanes[i] == lanes[j]
}

/// Lanes in lockstep stay in lockstep under every operation that acts on all
/// lanes alike: ROM loads, joypad inputs, serial stepping and the register
/// writes of the timers and the interrupt flag; so a register read from the
/// first lane stands for every lane.
pub proof fn lemma_lockstep_kept(lanes: Seq<BusView>, rom: Seq<u8>, joypad: u8, cycles: nat, value: u8)
    requires
        lockstep(lanes),
    ensures
        lockstep(lanes.map_values(|b: BusView| load_rom_view(b, rom))),
        lockstep(lanes.map_values(|b: BusView| set_inputs_view(b, joypad))),
        lockstep(lanes.map_values(|b: BusView| advance_serial_view(b, cycles))),
        lockstep(lanes.map_values(|b: BusView| BusView { io: b.io.update(0x04, value), ..b })),
        lockstep(lanes.map_values(|b: BusView| BusView { io: b.io.update(0x05, value), ..b })),
        lockstep(lanes.map_values(|b: BusView| BusView { io: b.io.update(0x0F, if_store(value)), ..b })),
        lockstep(lanes.map_values(|b: BusView| BusView { timer_div_reset: false, ..b })),
        lockstep(lanes.map_values(|b: BusView| BusView { timer_tima_write: None, ..b })),
{
}

} // verus!
