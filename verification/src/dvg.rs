//! The vector-display coprocessor: an independent interpreter over a
//! display list of 16-bit words held in display-list RAM. Each frame it is
//! reset and run to its halt instruction, turning the list into a sequence
//! of beam events — cursor moves, line segments and points — for a
//! rendering collaborator to present.

use vstd::prelude::*;
use vstd::arithmetic::div_mod::{lemma_basic_div, lemma_mod_multiples_vanish, lemma_small_mod};
use vstd::arithmetic::power2::{pow2, lemma_pow2_adds, lemma_pow2_strictly_increases, lemma2_to64};
use vstd::arithmetic::mul::{lemma_mul_is_associative, lemma_mul_upper_bound};
use vstd::bits::{lemma_u16_shr_is_div, lemma_u32_shl_is_mul};

use crate::cpu::spec_read_word;
use crate::fault::Fault;
use crate::memory::{MappedIO, Memory, MemSnapshot};
use crate::nums::{add16, hi_byte, lo_byte, split_hi, split_lo, wrapping_add16};

verus! {

/// The coprocessor's instruction set, selected by the top four bits of the
/// first word; every value from 0x0 through 0x9 is a draw-vector
/// instruction, the rest are singletons.
#[allow(non_camel_case_types)]
#[derive(Copy, Clone, Debug, PartialEq, Eq, Structural)]
pub enum VectorOp {
    VCTR,
    LABS,
    HALT,
    JSRL,
    RTSL,
    JMPL,
    SVEC,
}

/// One beam event of a frame, in the fixed 0–1023 logical coordinate
/// space. A zero-intensity vector only moves the cursor; a positive one
/// draws a segment, or a point when its endpoints coincide.
#[derive(Copy, Clone, Debug, PartialEq, Eq, Structural)]
pub enum DvgEvent {
    MoveTo { x: i16, y: i16 },
    Line { x0: i16, y0: i16, x1: i16, y1: i16, intensity: u8 },
    Dot { x: i16, y: i16, intensity: u8 },
}

/// The mathematical image of the coprocessor's state: program counter
/// (word-indexed into display-list RAM), signed cursor, signed global scale
/// factor, and the four-entry call stack.
pub struct DvgState {
    pub pc: u16,
    pub x: i16,
    pub y: i16,
    pub sf: i16,
    pub stack: Seq<u16>,
    pub sp: int,
}

impl DvgState {
    /// The stack never exceeds its four slots, and the scale factor only
    /// ever takes the values a scale-load instruction can produce.
    pub open spec fn wf(self) -> bool {
        &&& self.stack.len() == 4
        &&& 0 <= self.sp <= 4
        &&& -7 <= self.sf <= 8
    }

    /// The state every frame starts from.
    pub open spec fn reset() -> DvgState {
        DvgState { pc: 1, x: 0, y: 0, sf: 0, stack: seq![0u16, 0u16, 0u16, 0u16], sp: 0 }
    }
}

/// A value reduced into the signed 16-bit range the way two's-complement
/// hardware wraps it.
pub open spec fn wrap_i16(v: int) -> i16 {
    let r = v % 0x10000;
    if r >= 0x8000 {
        (r - 0x10000) as i16
    } else {
        r as i16
    }
}

proof fn lemma_mod_rep(v: int, k: int)
    requires
        0 <= v + k * 0x10000 < 0x10000,
    ensures
        v % 0x10000 == v + k * 0x10000,
{
    lemma_mod_multiples_vanish(k, v, 0x10000);
    lemma_small_mod((v + k * 0x10000) as nat, 0x10000nat);
}

fn wrap_to_i16(v: i32) -> (r: i16)
    requires
        -0x18000 <= v <= 0x17FFF,
    ensures
        r == wrap_i16(v as int),
{
    proof {
        if v + 0x20000 < 0x10000 {
            lemma_mod_rep(v as int, 2);
        } else if 0 <= v + 0x10000 && v + 0x10000 < 0x10000 {
            lemma_mod_rep(v as int, 1);
        } else if 0 <= v && v < 0x10000 {
            lemma_mod_rep(v as int, 0);
        } else {
            lemma_mod_rep(v as int, -1);
        }
    }
    if v < -0x8000 {
        (v + 0x10000) as i16
    } else if v > 0x7FFF {
        (v - 0x10000) as i16
    } else {
        v as i16
    }
}

/// A vector magnitude scaled by the shift amount `s`: shifted right for
/// non-negative `s`, left (with the high bits falling off a 16-bit word)
/// for negative `s`.
pub open spec fn spec_shift(a: u16, s: int) -> u16 {
    if s >= 0 {
        (a as int / pow2(s as nat) as int) as u16
    } else {
        ((a as int * pow2((-s) as nat) as int) % 0x10000) as u16
    }
}

fn shift_scaled(a: u16, s: i16) -> (r: u16)
    ensures
        r == spec_shift(a, s as int),
{
    if s >= 16 {
        proof {
            lemma2_to64();
            if (s as nat) > 16 {
                lemma_pow2_strictly_increases(16, s as nat);
            }
            lemma_basic_div(a as int, pow2(s as nat) as int);
        }
        0
    } else if s >= 0 {
        proof {
            lemma_u16_shr_is_div(a, s as u16);
        }
        a >> (s as u16)
    } else if s <= -16 {
        proof {
            let k = (-(s as int)) as nat;
            lemma2_to64();
            lemma_pow2_adds((k - 16) as nat, 16);
            lemma_mul_is_associative(a as int, pow2((k - 16) as nat) as int, pow2(16) as int);
            lemma_mod_multiples_vanish(a as int * pow2((k - 16) as nat) as int, 0, 0x10000);
            lemma_small_mod(0nat, 0x10000nat);
        }
        0
    } else {
        let k: u32 = (-(s as i32)) as u32;
        proof {
            lemma2_to64();
            if (k as nat) < 15 {
                lemma_pow2_strictly_increases(k as nat, 15);
            }
            lemma_mul_upper_bound(a as int, 0xFFFF, pow2(k as nat) as int, 0x8000);
            lemma_u32_shl_is_mul(a as u32, k);
        }
        (((a as u32) << k) % 0x10000) as u16
    }
}

/// The instruction named by a display-list word's top four bits.
pub open spec fn spec_vector_op(w: u16) -> VectorOp {
    let nib = w / 0x1000;
    if nib == 0xA {
        VectorOp::LABS
    } else if nib == 0xB {
        VectorOp::HALT
    } else if nib == 0xC {
        VectorOp::JSRL
    } else if nib == 0xD {
        VectorOp::RTSL
    } else if nib == 0xE {
        VectorOp::JMPL
    } else if nib == 0xF {
        VectorOp::SVEC
    } else {
        VectorOp::VCTR
    }
}

fn vector_op_of(w: u16) -> (r: VectorOp)
    ensures
        r == spec_vector_op(w),
{
    let nib = w / 0x1000;
    if nib == 0xA {
        VectorOp::LABS
    } else if nib == 0xB {
        VectorOp::HALT
    } else if nib == 0xC {
        VectorOp::JSRL
    } else if nib == 0xD {
        VectorOp::RTSL
    } else if nib == 0xE {
        VectorOp::JMPL
    } else if nib == 0xF {
        VectorOp::SVEC
    } else {
        VectorOp::VCTR
    }
}

/// The bus address of a display-list word: word-indexed from the base of
/// display-list RAM, wrapping with the address space.
pub open spec fn dvg_addr(pc: u16) -> u16 {
    ((pc * 2 + 0x4000) % 0x10000) as u16
}

fn dvg_addr_of(pc: u16) -> (a: u16)
    ensures
        a == dvg_addr(pc),
{
    ((pc as u32 * 2 + 0x4000) % 0x10000) as u16
}

/// What the beam does when a vector instruction lands the cursor at
/// `(x1, y1)` with intensity `z`: a bare cursor move for zero intensity,
/// one point for a zero-length draw, one segment otherwise.
pub open spec fn spec_beam_events(x0: i16, y0: i16, x1: i16, y1: i16, z: u8) -> Seq<DvgEvent> {
    if z == 0 {
        seq![DvgEvent::MoveTo { x: x1, y: y1 }]
    } else if x1 == x0 && y1 == y0 {
        seq![DvgEvent::Dot { x: x1, y: y1, intensity: z }]
    } else {
        seq![DvgEvent::Line { x0, y0, x1, y1, intensity: z }]
    }
}

/// One fetch-decode-execute step of the coprocessor: the next state, the
/// bus (touched only by the halt instruction, which clears the
/// frame-in-progress flag), and the beam events emitted. A fifth nested
/// call or a return from an empty stack is a stack fault.
#[verifier::opaque]
pub open spec fn spec_dvg_step(d: DvgState, m: MemSnapshot) -> Result<
    (DvgState, MemSnapshot, Seq<DvgEvent>),
    Fault,
> {
    let w1 = spec_read_word(m, dvg_addr(d.pc));
    let pc1 = add16(d.pc, 1);
    match spec_vector_op(w1) {
        VectorOp::VCTR => {
            let w2 = spec_read_word(m, dvg_addr(pc1));
            let pc2 = add16(pc1, 1);
            let ys = (w1 / 0x400) % 2 == 1;
            let dy = w1 % 0x400;
            let z = (w2 / 0x1000) as u8;
            let xs = (w2 / 0x400) % 2 == 1;
            let dx = w2 % 0x400;
            let sbits = 9 - w1 / 0x1000 + d.sf;
            let x = if xs {
                wrap_i16(d.x - spec_shift(dx, sbits))
            } else {
                wrap_i16(d.x + spec_shift(dx, sbits))
            };
            let y = if ys {
                wrap_i16(d.y - spec_shift(dy, sbits))
            } else {
                wrap_i16(d.y + spec_shift(dy, sbits))
            };
            Ok((DvgState { pc: pc2, x, y, ..d }, m, spec_beam_events(d.x, d.y, x, y, z)))
        },
        VectorOp::LABS => {
            let w2 = spec_read_word(m, dvg_addr(pc1));
            let pc2 = add16(pc1, 1);
            let ys = (w1 / 0x400) % 2 == 1;
            let yv = w1 % 0x400;
            let xs = (w2 / 0x400) % 2 == 1;
            let xv = w2 % 0x400;
            let sfn = w2 / 0x1000;
            let sf: i16 = if sfn < 8 {
                (0 - sfn) as i16
            } else {
                (16 - sfn) as i16
            };
            let y: i16 = if ys {
                (yv - 0x400) as i16
            } else {
                yv as i16
            };
            let x: i16 = if xs {
                (xv - 0x400) as i16
            } else {
                xv as i16
            };
            Ok((
                DvgState { pc: pc2, x, y, sf, ..d },
                m,
                seq![DvgEvent::MoveTo { x, y }],
            ))
        },
        VectorOp::HALT => Ok((
            DvgState { pc: pc1, ..d },
            MemSnapshot { io: MappedIO { halt: 0, ..m.io }, ..m },
            Seq::empty(),
        )),
        VectorOp::JSRL => {
            if d.sp > 3 {
                Err(Fault::VectorStackOverflow)
            } else {
                Ok((
                    DvgState {
                        pc: (w1 % 0x1000) as u16,
                        stack: d.stack.update(d.sp, pc1),
                        sp: d.sp + 1,
                        ..d
                    },
                    m,
                    Seq::empty(),
                ))
            }
        },
        VectorOp::RTSL => {
            if d.sp == 0 {
                Err(Fault::VectorStackUnderflow)
            } else {
                Ok((DvgState { pc: d.stack[d.sp - 1], sp: d.sp - 1, ..d }, m, Seq::empty()))
            }
        },
        VectorOp::JMPL => Ok((DvgState { pc: (w1 % 0x1000) as u16, ..d }, m, Seq::empty())),
        VectorOp::SVEC => {
            let sf2 = (w1 / 0x800) % 2 + 2 * ((w1 / 8) % 2);
            let ys = (w1 / 0x400) % 2 == 1;
            let dy = ((w1 / 0x100) % 4) * 0x100;
            let xs = (w1 / 4) % 2 == 1;
            let dx = (w1 % 4) * 0x100;
            let z = ((w1 / 0x10) % 0x10) as u8;
            let sbits = 7 - sf2 + d.sf;
            let x = if xs {
                wrap_i16(d.x - spec_shift(dx as u16, sbits))
            } else {
                wrap_i16(d.x + spec_shift(dx as u16, sbits))
            };
            let y = if ys {
                wrap_i16(d.y - spec_shift(dy as u16, sbits))
            } else {
                wrap_i16(d.y + spec_shift(dy as u16, sbits))
            };
            Ok((DvgState { pc: pc1, x, y, ..d }, m, spec_beam_events(d.x, d.y, x, y, z)))
        },
    }
}

/// A frame run with `fuel` steps left: stop when the frame-in-progress
/// flag has been cleared, fault if the fuel runs out first, otherwise one
/// step and recurse, accumulating the beam events in order.
pub open spec fn spec_dvg_run(d: DvgState, m: MemSnapshot, fuel: nat) -> Result<
    (DvgState, MemSnapshot, Seq<DvgEvent>),
    Fault,
>
    decreases fuel,
{
    if m.io.halt == 0 {
        Ok((d, m, Seq::empty()))
    } else if fuel == 0 {
        Err(Fault::FrameOverrun)
    } else {
        match spec_dvg_step(d, m) {
            Err(f) => Err(f),
            Ok(t) => match spec_dvg_run(t.0, t.1, (fuel - 1) as nat) {
                Err(f) => Err(f),
                Ok(u) => Ok((u.0, u.1, t.2 + u.2)),
            },
        }
    }
}

/// A draw-vector instruction always succeeds, never touches the bus, and
/// emits exactly one beam event: with intensity zero it only moves the
/// cursor; with positive intensity it draws one primitive — a segment to
/// the computed endpoint, or a point when the cursor does not move — with
/// that intensity.
pub proof fn lemma_vctr_beam(d: DvgState, m: MemSnapshot)
    requires
        spec_vector_op(spec_read_word(m, dvg_addr(d.pc))) == VectorOp::VCTR,
    ensures
        spec_dvg_step(d, m) is Ok,
        ({
            let t = spec_dvg_step(d, m)->Ok_0;
            let z = (spec_read_word(m, dvg_addr(add16(d.pc, 1))) / 0x1000) as u8;
            &&& t.1 == m
            &&& t.2.len() == 1
            &&& (z == 0 ==> t.2[0] == (DvgEvent::MoveTo { x: t.0.x, y: t.0.y }))
            &&& (z != 0 && (t.0.x != d.x || t.0.y != d.y) ==> t.2[0] == (DvgEvent::Line {
                x0: d.x,
                y0: d.y,
                x1: t.0.x,
                y1: t.0.y,
                intensity: z,
            }))
            &&& (z != 0 && t.0.x == d.x && t.0.y == d.y ==> t.2[0] == (DvgEvent::Dot {
                x: t.0.x,
                y: t.0.y,
                intensity: z,
            }))
        }),
{
    reveal(spec_dvg_step);
}

/// A subroutine call followed by the return it jumps to restores the
/// program counter to the word after the call, leaves the stack depth,
/// cursor and scale as they were, emits nothing, and never touches the
/// bus — provided the four-entry stack has room for the call.
pub proof fn lemma_call_return(d: DvgState, m: MemSnapshot)
    requires
        d.wf(),
        d.sp < 4,
        spec_vector_op(spec_read_word(m, dvg_addr(d.pc))) == VectorOp::JSRL,
        spec_vector_op(
            spec_read_word(
                m,
                dvg_addr((spec_read_word(m, dvg_addr(d.pc)) % 0x1000) as u16),
            ),
        ) == VectorOp::RTSL,
    ensures
        spec_dvg_step(d, m) is Ok,
        spec_dvg_step(spec_dvg_step(d, m)->Ok_0.0, m) is Ok,
        ({
            let t1 = spec_dvg_step(d, m)->Ok_0;
            let t2 = spec_dvg_step(t1.0, m)->Ok_0;
            &&& t1.0.pc == spec_read_word(m, dvg_addr(d.pc)) % 0x1000
            &&& t1.1 == m
            &&& t1.2 == Seq::<DvgEvent>::empty()
            &&& t2.0.pc == add16(d.pc, 1)
            &&& t2.0.sp == d.sp
            &&& t2.0.x == d.x
            &&& t2.0.y == d.y
            &&& t2.0.sf == d.sf
            &&& t2.1 == m
            &&& t2.2 == Seq::<DvgEvent>::empty()
        }),
{
    reveal(spec_dvg_step);
}

/// A fifth nested call — the stack already holding its four return
/// addresses — is a stack fault.
pub proof fn lemma_call_overflow(d: DvgState, m: MemSnapshot)
    requires
        d.sp > 3,
        spec_vector_op(spec_read_word(m, dvg_addr(d.pc))) == VectorOp::JSRL,
    ensures
        spec_dvg_step(d, m) == Err::<(DvgState, MemSnapshot, Seq<DvgEvent>), Fault>(
            Fault::VectorStackOverflow,
        ),
{
    reveal(spec_dvg_step);
}

/// A return with an empty call stack is a stack fault.
pub proof fn lemma_return_underflow(d: DvgState, m: MemSnapshot)
    requires
        d.sp == 0,
        spec_vector_op(spec_read_word(m, dvg_addr(d.pc))) == VectorOp::RTSL,
    ensures
        spec_dvg_step(d, m) == Err::<(DvgState, MemSnapshot, Seq<DvgEvent>), Fault>(
            Fault::VectorStackUnderflow,
        ),
{
    reveal(spec_dvg_step);
}

/// The bus as the scheduler hands it to the coprocessor: frame in
/// progress, the begin-frame trigger acknowledged.
pub open spec fn spec_frame_prep(m: MemSnapshot) -> MemSnapshot {
    MemSnapshot { io: MappedIO { halt: 0xFF, godvg: 0, ..m.io }, ..m }
}

/// A signed coordinate as the wire carries it: its two's-complement 16-bit
/// image.
pub open spec fn spec_u16_of_i16(v: i16) -> u16 {
    if v < 0 {
        (v + 0x10000) as u16
    } else {
        v as u16
    }
}

/// The five-byte command a serial vector display receives for one beam
/// event: intensity, then the X and Y coordinates big-endian. Events that
/// fall in the fixed on-screen text regions, and full-intensity events, are
/// filtered out, matching what that output device can usefully show.
pub open spec fn spec_serial_packet(x: i16, y: i16, z: u16) -> Option<Seq<u8>> {
    if y > 850 && y < 1000 {
        None
    } else if x > 150 && y > 835 && x < 220 && y < 870 {
        None
    } else if x > 395 && y > 785 && x < 640 && y < 825 {
        None
    } else if x > 395 && y > 120 && x < 585 && y < 145 {
        None
    } else if z == 15 {
        None
    } else {
        let a = spec_u16_of_i16(x);
        let b = spec_u16_of_i16(y);
        Some(seq![(z % 0x100) as u8, hi_byte(a), lo_byte(a), hi_byte(b), lo_byte(b)])
    }
}

/// Builds the serial command bytes for one beam position, or nothing when
/// the event is filtered; a serial front end writes the bytes verbatim.
pub fn serial_packet(x: i16, y: i16, z: u16) -> (r: Option<Vec<u8>>)
    ensures
        match spec_serial_packet(x, y, z) {
            None => r is None,
            Some(s) => r matches Some(v) && v@ == s,
        },
{
    if y > 850 && y < 1000 {
        return None;
    }
    if x > 150 && y > 835 && x < 220 && y < 870 {
        return None;
    }
    if x > 395 && y > 785 && x < 640 && y < 825 {
        return None;
    }
    if x > 395 && y > 120 && x < 585 && y < 145 {
        return None;
    }
    if z == 15 {
        return None;
    }
    let a: u16 = if x < 0 {
        (x as i32 + 0x10000) as u16
    } else {
        x as u16
    };
    let b: u16 = if y < 0 {
        (y as i32 + 0x10000) as u16
    } else {
        y as u16
    };
    let mut v: Vec<u8> = Vec::new();
    v.push((z % 0x100) as u8);
    v.push(split_hi(a));
    v.push(split_lo(a));
    v.push(split_hi(b));
    v.push(split_lo(b));
    proof {
        assert(v@ =~= seq![
            (z % 0x100) as u8,
            hi_byte(spec_u16_of_i16(x)),
            lo_byte(spec_u16_of_i16(x)),
            hi_byte(spec_u16_of_i16(y)),
            lo_byte(spec_u16_of_i16(y)),
        ]);
    }
    Some(v)
}

/// The vector-display coprocessor itself.
pub struct Dvg {
    pc: u16,
    x: i16,
    y: i16,
    sf: i16,
    stack: Vec<u16>,
    sp: usize,
}

impl View for Dvg {
    type V = DvgState;

    closed spec fn view(&self) -> DvgState {
        DvgState {
            pc: self.pc,
            x: self.x,
            y: self.y,
            sf: self.sf,
            stack: self.stack@,
            sp: self.sp as int,
        }
    }
}

impl Dvg {
    pub open spec fn wf(self) -> bool {
        self@.wf()
    }

    /// A coprocessor at power-up; `render` resets it before every frame.
    pub fn new() -> (d: Dvg)
        ensures
            d.wf(),
            d@ == (DvgState { pc: 0, x: 0, y: 0, sf: 0, stack: seq![0u16, 0u16, 0u16, 0u16], sp: 0 }),
    {
        let mut stack: Vec<u16> = Vec::new();
        stack.push(0);
        stack.push(0);
        stack.push(0);
        stack.push(0);
        let d = Dvg { pc: 0, x: 0, y: 0, sf: 0, stack, sp: 0 };
        proof {
            assert(d@.stack =~= seq![0u16, 0u16, 0u16, 0u16]);
        }
        d
    }

    fn reset(&mut self)
        ensures
            final(self)@ == DvgState::reset(),
    {
        self.pc = 1;
        self.x = 0;
        self.y = 0;
        self.sf = 0;
        let mut stack: Vec<u16> = Vec::new();
        stack.push(0);
        stack.push(0);
        stack.push(0);
        stack.push(0);
        self.stack = stack;
        self.sp = 0;
        proof {
            assert(self@.stack =~= seq![0u16, 0u16, 0u16, 0u16]);
        }
    }

    /// The display-list word at word index `pc`.
    fn read_word_at(memory: &Memory, pc: u16) -> (w: u16)
        requires
            memory.wf(),
        ensures
            w == spec_read_word(memory@, dvg_addr(pc)),
    {
        let addr = dvg_addr_of(pc);
        let lo = memory.get_byte(addr);
        let hi = memory.get_byte(wrapping_add16(addr, 1));
        lo as u16 + hi as u16 * 0x100
    }

    /// Moves the cursor to `(x, y)`, recording the beam event this implies.
    fn emit_beam(&mut self, out: &mut Vec<DvgEvent>, x: i16, y: i16, z: u8)
        ensures
            final(self)@ == (DvgState { x, y, ..old(self)@ }),
            final(out)@ == old(out)@ + spec_beam_events(old(self)@.x, old(self)@.y, x, y, z),
    {
        if z == 0 {
            out.push(DvgEvent::MoveTo { x, y });
        } else if x == self.x && y == self.y {
            out.push(DvgEvent::Dot { x, y, intensity: z });
        } else {
            out.push(DvgEvent::Line { x0: self.x, y0: self.y, x1: x, y1: y, intensity: z });
        }
        self.x = x;
        self.y = y;
        proof {
            assert(out@ =~= old(out)@ + spec_beam_events(old(self)@.x, old(self)@.y, x, y, z));
        }
    }

    /// One coprocessor step, exactly `spec_dvg_step`: decodes the word at
    /// the program counter, updates cursor, scale, stack and counter, emits
    /// this instruction's beam events, and clears the frame-in-progress
    /// flag on a halt. A stack fault leaves everything untouched.
    fn execute_instruction(&mut self, memory: &mut Memory, out: &mut Vec<DvgEvent>) -> (r: Result<
        (),
        Fault,
    >)
        requires
            old(self).wf(),
            old(memory).wf(),
        ensures
            final(self).wf(),
            final(memory).wf(),
            match spec_dvg_step(old(self)@, old(memory)@) {
                Ok(t) => r is Ok && final(self)@ == t.0 && final(memory)@ == t.1
                    && final(out)@ == old(out)@ + t.2,
                Err(f) => r == Err::<(), Fault>(f) && final(self)@ == old(self)@
                    && final(memory)@ == old(memory)@ && final(out)@ == old(out)@,
            },
    {
        proof {
            reveal(spec_dvg_step);
        }
        let w1 = Dvg::read_word_at(memory, self.pc);
        let pc1 = wrapping_add16(self.pc, 1);
        match vector_op_of(w1) {
            VectorOp::VCTR => {
                let w2 = Dvg::read_word_at(memory, pc1);
                let pc2 = wrapping_add16(pc1, 1);
                let ys = (w1 / 0x400) % 2 == 1;
                let dy = w1 % 0x400;
                let z = (w2 / 0x1000) as u8;
                let xs = (w2 / 0x400) % 2 == 1;
                let dx = w2 % 0x400;
                let sbits: i16 = 9 - (w1 / 0x1000) as i16 + self.sf;
                let mx = shift_scaled(dx, sbits);
                let my = shift_scaled(dy, sbits);
                let x = if xs {
                    wrap_to_i16(self.x as i32 - mx as i32)
                } else {
                    wrap_to_i16(self.x as i32 + mx as i32)
                };
                let y = if ys {
                    wrap_to_i16(self.y as i32 - my as i32)
                } else {
                    wrap_to_i16(self.y as i32 + my as i32)
                };
                self.emit_beam(out, x, y, z);
                self.pc = pc2;
                Ok(())
            },
            VectorOp::LABS => {
                let w2 = Dvg::read_word_at(memory, pc1);
                let pc2 = wrapping_add16(pc1, 1);
                let ys = (w1 / 0x400) % 2 == 1;
                let yv = w1 % 0x400;
                let xs = (w2 / 0x400) % 2 == 1;
                let xv = w2 % 0x400;
                let sfn = w2 / 0x1000;
                self.sf = if sfn < 8 {
                    0 - (sfn as i16)
                } else {
                    16 - (sfn as i16)
                };
                self.y = if ys {
                    (yv as i32 - 0x400) as i16
                } else {
                    yv as i16
                };
                self.x = if xs {
                    (xv as i32 - 0x400) as i16
                } else {
                    xv as i16
                };
                out.push(DvgEvent::MoveTo { x: self.x, y: self.y });
                self.pc = pc2;
                proof {
                    assert(out@ =~= old(out)@ + seq![
                        DvgEvent::MoveTo { x: self@.x, y: self@.y },
                    ]);
                }
                Ok(())
            },
            VectorOp::HALT => {
                memory.set_io_halt(0);
                self.pc = pc1;
                proof {
                    assert(out@ =~= old(out)@ + Seq::<DvgEvent>::empty());
                }
                Ok(())
            },
            VectorOp::JSRL => {
                if self.sp > 3 {
                    return Err(Fault::VectorStackOverflow);
                }
                let addr = w1 % 0x1000;
                self.stack[self.sp] = pc1;
                self.sp = self.sp + 1;
                self.pc = addr;
                proof {
                    assert(out@ =~= old(out)@ + Seq::<DvgEvent>::empty());
                }
                Ok(())
            },
            VectorOp::RTSL => {
                if self.sp == 0 {
                    return Err(Fault::VectorStackUnderflow);
                }
                self.sp = self.sp - 1;
                self.pc = self.stack[self.sp];
                proof {
                    assert(out@ =~= old(out)@ + Seq::<DvgEvent>::empty());
                }
                Ok(())
            },
            VectorOp::JMPL => {
                self.pc = w1 % 0x1000;
                proof {
                    assert(out@ =~= old(out)@ + Seq::<DvgEvent>::empty());
                }
                Ok(())
            },
            VectorOp::SVEC => {
                let sf2: u16 = (w1 / 0x800) % 2 + 2 * ((w1 / 8) % 2);
                let ys = (w1 / 0x400) % 2 == 1;
                let dy: u16 = ((w1 / 0x100) % 4) * 0x100;
                let xs = (w1 / 4) % 2 == 1;
                let dx: u16 = (w1 % 4) * 0x100;
                let z = ((w1 / 0x10) % 0x10) as u8;
                let sbits: i16 = 7 - (sf2 as i16) + self.sf;
                let mx = shift_scaled(dx, sbits);
                let my = shift_scaled(dy, sbits);
                let x = if xs {
                    wrap_to_i16(self.x as i32 - mx as i32)
                } else {
                    wrap_to_i16(self.x as i32 + mx as i32)
                };
                let y = if ys {
                    wrap_to_i16(self.y as i32 - my as i32)
                } else {
                    wrap_to_i16(self.y as i32 + my as i32)
                };
                self.emit_beam(out, x, y, z);
                self.pc = pc1;
                Ok(())
            },
        }
    }

    /// One whole frame: raises the frame-in-progress flag, acknowledges the
    /// begin-frame trigger, resets the coprocessor, and interprets the
    /// display list until its halt instruction clears the flag — exactly
    /// `spec_dvg_run` from the reset state. `max_steps` bounds the run so
    /// that a display list that never halts is reported as a frame-overrun
    /// fault instead of hanging the machine.
    #[verifier::rlimit(100)]
    pub fn render(&mut self, memory: &mut Memory, out: &mut Vec<DvgEvent>, max_steps: u64) -> (r:
        Result<(), Fault>)
        requires
            old(self).wf(),
            old(memory).wf(),
        ensures
            final(self).wf(),
            final(memory).wf(),
            match spec_dvg_run(DvgState::reset(), spec_frame_prep(old(memory)@), max_steps as nat) {
                Ok(t) => r is Ok && final(self)@ == t.0 && final(memory)@ == t.1
                    && final(out)@ == old(out)@ + t.2,
                Err(f) => r == Err::<(), Fault>(f),
            },
            old(out)@.is_prefix_of(final(out)@),
    {
        memory.set_io_halt(0xFF);
        memory.set_io_godvg(0);
        self.reset();
        let ghost d0 = self@;
        let ghost m0 = memory@;
        let ghost out0 = out@;
        proof {
            assert(m0 == spec_frame_prep(old(memory)@));
            assert(out0 == old(out)@);
        }
        let mut steps_left: u64 = max_steps;
        #[verifier::loop_isolation(false)]
        while memory.io_halt() != 0
            invariant
                self.wf(),
                memory.wf(),
                out0.is_prefix_of(out@),
                ({
                    let emitted = out@.skip(out0.len() as int);
                    match spec_dvg_run(self@, memory@, steps_left as nat) {
                        Ok(t) => spec_dvg_run(d0, m0, max_steps as nat) == Ok::<
                            (DvgState, MemSnapshot, Seq<DvgEvent>),
                            Fault,
                        >((t.0, t.1, emitted + t.2)),
                        Err(f) => spec_dvg_run(d0, m0, max_steps as nat) == Err::<
                            (DvgState, MemSnapshot, Seq<DvgEvent>),
                            Fault,
                        >(f),
                    }
                }),
            decreases steps_left,
        {
            if steps_left == 0 {
                return Err(Fault::FrameOverrun);
            }
            let ghost prev_self = self@;
            let ghost prev_mem = memory@;
            let ghost prev_out = out@;
            let ghost prev_fuel = steps_left as nat;
            match self.execute_instruction(memory, out) {
                Err(f) => {
                    return Err(f);
                },
                Ok(()) => {},
            }
            steps_left = steps_left - 1;
            proof {
                let k = out0.len() as int;
                let pl = prev_out.len() as int;
                let step_events = spec_dvg_step(prev_self, prev_mem)->Ok_0.2;
                assert(out@ == prev_out + step_events);
                assert(out@.subrange(0, k) =~= out0);
                assert(out0.is_prefix_of(out@));
                assert(out@.skip(k) =~= prev_out.skip(k) + step_events);
                assert(spec_dvg_run(prev_self, prev_mem, prev_fuel) == (match spec_dvg_run(
                    self@,
                    memory@,
                    steps_left as nat,
                ) {
                    Err(f) => Err::<(DvgState, MemSnapshot, Seq<DvgEvent>), Fault>(f),
                    Ok(u) => Ok::<(DvgState, MemSnapshot, Seq<DvgEvent>), Fault>(
                        (u.0, u.1, step_events + u.2),
                    ),
                }));
                if spec_dvg_run(self@, memory@, steps_left as nat) is Ok {
                    let u = spec_dvg_run(self@, memory@, steps_left as nat)->Ok_0;
                    assert((prev_out.skip(k) + step_events) + u.2 =~= prev_out.skip(k) + (
                    step_events + u.2));
                }
            }
        }
        proof {
            assert(out@ =~= out0 + out@.skip(out0.len() as int));
            assert(out@.skip(out0.len() as int) + Seq::<DvgEvent>::empty() =~= out@.skip(
                out0.len() as int,
            ));
        }
        Ok(())
    }
}

} // verus!
