//! The cycle-driven scheduler: steps the processor, injects the periodic
//! hardware interrupt, refreshes the IO clock latch, and hands the bus to
//! the vector processor for a frame whenever the program raises the
//! begin-frame trigger. The two interpreters are mutually exclusive in
//! time: the processor's cycle counter stands still while a frame renders.

use vstd::prelude::*;
use vstd::arithmetic::div_mod::{lemma_fundamental_div_mod, lemma_mod_bound};

use crate::cpu::{spec_nmi, spec_step, Cpu};
use crate::dvg::{spec_dvg_run, spec_frame_prep, Dvg, DvgEvent, DvgState};
use crate::fault::Fault;
use crate::memory::{MappedIO, Memory, MemSnapshot};

verus! {

/// Cycles between periodic hardware interrupts.
pub const NMI_CYCLES: u64 = 6000;

/// Cycles per tick of the IO clock latch.
pub const CLOCK_CYCLES: u64 = 500;

/// The step budget handed to the vector processor for one frame. A
/// conforming display list halts within a few thousand steps; one that
/// exhausts this budget is looping and is reported as a frame overrun.
pub const FRAME_STEP_BUDGET: u64 = 1000000;

/// A generous ceiling on cycle targets: the counter needs headroom for one
/// instruction and one interrupt, and no run approaches this bound.
pub const CYCLE_CEILING: u64 = 0x1000_0000_0000_0000;

/// One whole scheduler run toward a cycle target, with `fuel` iterations
/// left. Each iteration is one processor step, then the periodic interrupt
/// if the counter has crossed its pending cycle (which moves one interval
/// ahead), then one whole vector-processor frame if the begin-frame trigger
/// is up. The run ends when the counter reaches the target — or, fuel
/// exhausted, where it stands; every legal instruction costs at least two
/// cycles, so a fuel of `target + 14 - cycle` always suffices (see
/// `spec_sched_fuel`). Frame events accumulate in order; a fault from
/// either interpreter ends the run with that fault.
pub open spec fn spec_sched_run(
    cpu: Cpu,
    next_nmi: u64,
    m: MemSnapshot,
    d: DvgState,
    target: u64,
    fuel: nat,
) -> Result<(Cpu, u64, MemSnapshot, DvgState, Seq<DvgEvent>), Fault>
    decreases fuel,
{
    if cpu.cycle >= target || fuel == 0 {
        Ok((cpu, next_nmi, m, d, Seq::empty()))
    } else {
        match spec_step(cpu, m) {
            Err(f) => Err(f),
            Ok(t1) => {
                let stepped = if t1.0.cycle >= next_nmi {
                    let t2 = spec_nmi(t1.0, t1.1);
                    (t2.0, t2.1, (next_nmi + NMI_CYCLES) as u64)
                } else {
                    (t1.0, t1.1, next_nmi)
                };
                if stepped.1.io.godvg != 0 {
                    match spec_dvg_run(
                        DvgState::reset(),
                        spec_frame_prep(stepped.1),
                        FRAME_STEP_BUDGET as nat,
                    ) {
                        Err(f) => Err(f),
                        Ok(fr) => match spec_sched_run(
                            stepped.0,
                            stepped.2,
                            fr.1,
                            fr.0,
                            target,
                            (fuel - 1) as nat,
                        ) {
                            Err(f) => Err(f),
                            Ok(rest) => Ok((rest.0, rest.1, rest.2, rest.3, fr.2 + rest.4)),
                        },
                    }
                } else {
                    match spec_sched_run(stepped.0, stepped.2, stepped.1, d, target, (fuel
                        - 1) as nat) {
                        Err(f) => Err(f),
                        Ok(rest) => Ok(rest),
                    }
                }
            },
        }
    }
}

/// Fuel that provably suffices for a run toward `target`: the counter
/// grows by at least two cycles per iteration and overshoots by at most
/// thirteen.
pub open spec fn spec_sched_fuel(cpu: Cpu, target: u64) -> nat {
    if cpu.cycle < target {
        (target + 14 - cpu.cycle) as nat
    } else {
        0
    }
}

/// The scheduler's own state: the cycle count at which the next periodic
/// hardware interrupt fires.
pub struct Scheduler {
    pub next_nmi: u64,
}

impl Scheduler {
    /// A scheduler with the first interrupt one full interval ahead.
    pub fn new() -> (s: Scheduler)
        ensures
            s.next_nmi == NMI_CYCLES,
    {
        Scheduler { next_nmi: NMI_CYCLES }
    }

    /// The step-budget interface: steps the processor until its cycle
    /// counter reaches `target`, exactly `spec_sched_run` from the entry
    /// state. After every instruction, an interrupt is injected if the
    /// counter has crossed the pending interrupt's cycle (advancing it by
    /// one interval), and a raised begin-frame trigger hands the bus to the
    /// vector processor for exactly one frame, whose beam events are
    /// appended to `out`. Faults from either interpreter end the run
    /// immediately, exactly where the run specification places them. The
    /// pending interrupt always stays ahead of the counter.
    pub fn run_until(
        &mut self,
        cpu: &mut Cpu,
        dvg: &mut Dvg,
        memory: &mut Memory,
        out: &mut Vec<DvgEvent>,
        target: u64,
    ) -> (r: Result<(), Fault>)
        requires
            old(memory).wf(),
            old(dvg).wf(),
            old(cpu).cycle < old(self).next_nmi,
            target <= CYCLE_CEILING,
            old(self).next_nmi <= CYCLE_CEILING,
        ensures
            final(memory).wf(),
            final(dvg).wf(),
            final(cpu).cycle >= old(cpu).cycle,
            final(self).next_nmi >= old(self).next_nmi,
            final(cpu).cycle < final(self).next_nmi,
            r is Ok ==> final(cpu).cycle >= target,
            old(out)@.is_prefix_of(final(out)@),
            ({
                let outcome = spec_sched_run(
                    *old(cpu),
                    old(self).next_nmi,
                    old(memory)@,
                    old(dvg)@,
                    target,
                    spec_sched_fuel(*old(cpu), target),
                );
                match outcome {
                    Ok(t) => r is Ok && *final(cpu) == t.0 && final(self).next_nmi == t.1
                        && final(memory)@ == t.2 && final(dvg)@ == t.3
                        && final(out)@ == old(out)@ + t.4,
                    Err(f) => r == Err::<(), Fault>(f),
                }
            }),
    {
        let ghost cpu0 = *cpu;
        let ghost nmi0 = self.next_nmi;
        let ghost mm0 = memory@;
        let ghost dd0 = dvg@;
        let ghost out0 = out@;
        let ghost fuel0 = spec_sched_fuel(cpu0, target);
        let ghost mut fuel_left = fuel0;
        proof {
            assert(out0.subrange(0, out0.len() as int) =~= out0);
            if spec_sched_run(cpu0, nmi0, mm0, dd0, target, fuel0) is Ok {
                let t = spec_sched_run(cpu0, nmi0, mm0, dd0, target, fuel0)->Ok_0;
                assert(out0.skip(out0.len() as int) + t.4 =~= t.4);
            }
        }
        #[verifier::loop_isolation(false)]
        while cpu.cycle < target
            invariant
                memory.wf(),
                dvg.wf(),
                cpu.cycle >= cpu0.cycle,
                cpu.cycle < self.next_nmi,
                self.next_nmi >= nmi0,
                self.next_nmi <= nmi0 || self.next_nmi <= target + 6006,
                cpu.cycle <= target + 13 || cpu.cycle == cpu0.cycle,
                out0.is_prefix_of(out@),
                cpu.cycle < target ==> cpu.cycle + fuel_left >= target + 14,
                ({
                    let emitted = out@.skip(out0.len() as int);
                    match spec_sched_run(*cpu, self.next_nmi, memory@, dvg@, target, fuel_left) {
                        Ok(t) => spec_sched_run(cpu0, nmi0, mm0, dd0, target, fuel0) == Ok::<
                            (Cpu, u64, MemSnapshot, DvgState, Seq<DvgEvent>),
                            Fault,
                        >((t.0, t.1, t.2, t.3, emitted + t.4)),
                        Err(f) => spec_sched_run(cpu0, nmi0, mm0, dd0, target, fuel0) == Err::<
                            (Cpu, u64, MemSnapshot, DvgState, Seq<DvgEvent>),
                            Fault,
                        >(f),
                    }
                }),
            decreases target + 14 - cpu.cycle,
        {
            let ghost pre_fuel = fuel_left;
            let ghost pre_out = out@;
            proof {
                assert(pre_fuel >= 14);
            }
            match cpu.execute_instruction(memory) {
                Err(f) => {
                    return Err(f);
                },
                Ok(_) => {},
            }
            if cpu.cycle >= self.next_nmi {
                cpu.initiate_nmi(memory);
                self.next_nmi = self.next_nmi + NMI_CYCLES;
            }
            let ghost mut frame_events = Seq::<DvgEvent>::empty();
            if memory.io_godvg() != 0 {
                let ghost mid_mem = memory@;
                match dvg.render(memory, out, FRAME_STEP_BUDGET) {
                    Err(f) => {
                        return Err(f);
                    },
                    Ok(()) => {},
                }
                proof {
                    frame_events = spec_dvg_run(
                        DvgState::reset(),
                        spec_frame_prep(mid_mem),
                        FRAME_STEP_BUDGET as nat,
                    )->Ok_0.2;
                }
            }
            proof {
                fuel_left = (pre_fuel - 1) as nat;
                let k = out0.len() as int;
                assert(out@ =~= pre_out + frame_events);
                assert(out@.subrange(0, k) =~= out0);
                assert(out0.is_prefix_of(out@));
                assert(out@.skip(k) =~= pre_out.skip(k) + frame_events);
                if spec_sched_run(*cpu, self.next_nmi, memory@, dvg@, target, fuel_left) is Ok {
                    let rest = spec_sched_run(
                        *cpu,
                        self.next_nmi,
                        memory@,
                        dvg@,
                        target,
                        fuel_left,
                    )->Ok_0;
                    assert((pre_out.skip(k) + frame_events) + rest.4 =~= pre_out.skip(k) + (
                    frame_events + rest.4));
                }
            }
        }
        proof {
            assert(out@ =~= out0 + out@.skip(out0.len() as int));
            assert(out@.skip(out0.len() as int) + Seq::<DvgEvent>::empty() =~= out@.skip(
                out0.len() as int,
            ));
        }
        Ok(())
    }

    /// The cycle count at which the next clock-latch tick falls: the next
    /// multiple of the clock interval strictly above the counter.
    pub fn next_tick(cycle: u64) -> (r: u64)
        requires
            cycle <= CYCLE_CEILING,
        ensures
            r == (cycle / CLOCK_CYCLES + 1) * CLOCK_CYCLES,
            cycle < r <= cycle + CLOCK_CYCLES,
    {
        proof {
            lemma_fundamental_div_mod(cycle as int, CLOCK_CYCLES as int);
            lemma_mod_bound(cycle as int, CLOCK_CYCLES as int);
        }
        (cycle / CLOCK_CYCLES + 1) * CLOCK_CYCLES
    }

    /// Writes the low eight bits of the elapsed clock-interval count into
    /// the clock latch the program polls.
    pub fn update_clock_latch(cpu: &Cpu, memory: &mut Memory)
        requires
            old(memory).wf(),
        ensures
            final(memory).wf(),
            final(memory)@ == (MemSnapshot {
                io: MappedIO {
                    clck3khz: ((cpu.cycle / CLOCK_CYCLES) % 0x100) as u8,
                    ..old(memory)@.io
                },
                ..old(memory)@
            }),
    {
        memory.set_io_clock(((cpu.cycle / CLOCK_CYCLES) % 0x100) as u8);
    }
}

} // verus!
