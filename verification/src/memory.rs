//! The shared memory/IO bus: four fixed byte regions and a bank of named IO
//! latches, addressed through one 16-bit space with incomplete decoding.
//! Every address is masked to its low 15 bits before dispatch, so each
//! location is mirrored once in the upper half of the address space.

use vstd::prelude::*;

use crate::fault::Fault;

verus! {

/// The memory-mapped IO latches. Reads and writes of single fixed bus
/// addresses land here instead of in a byte region; see `spec_read` and
/// `spec_write` for the address map. `0x00` means inactive and `0xFF`
/// active for the switch latches.
#[derive(Copy, Clone, Debug, PartialEq, Eq, Structural)]
pub struct MappedIO {
    /// Free-running tick counter the scheduler refreshes (read at 0x2001).
    pub clck3khz: u8,
    /// Frame-in-progress flag: non-zero while the vector processor owns the
    /// bus, cleared by its halt instruction (read at 0x2002).
    pub halt: u8,
    /// Hyperspace switch (read at 0x2003).
    pub swhyper: u8,
    /// Fire switch (read at 0x2004).
    pub swfire: u8,
    /// Player-start switch (read at 0x2403).
    pub sw1start: u8,
    /// Thrust switch (read at 0x2405).
    pub swthrust: u8,
    /// Rotate-right switch (read at 0x2406).
    pub swrotrght: u8,
    /// Rotate-left switch (read at 0x2407).
    pub swrotleft: u8,
    /// "Begin frame" trigger the program writes to start the vector
    /// processor (written at 0x3000).
    pub godvg: u8,
    /// Explosion sound trigger (written at 0x3600).
    pub sndexp: u8,
    /// Thump sound trigger (written at 0x3A00).
    pub sndthump: u8,
    /// Saucer-present sound trigger (written at 0x3C00).
    pub sndsaucr: u8,
    /// Saucer-fire sound trigger (written at 0x3C01).
    pub sndsfire: u8,
    /// Saucer-select signal (written at 0x3C02).
    pub sndselsau: u8,
    /// Thrust sound trigger (written at 0x3C03).
    pub sndthrust: u8,
    /// Player-fire sound trigger (written at 0x3C04).
    pub sndfire: u8,
    /// Extra-life sound trigger (written at 0x3C05).
    pub sndbonus: u8,
    /// Sound-reset latch; present on the bus but never written by the
    /// program image this machine runs.
    pub sndreset: u8,
}

impl MappedIO {
    /// Every latch as it powers up: inactive.
    pub open spec fn spec_zeroed() -> MappedIO {
        MappedIO {
            clck3khz: 0,
            halt: 0,
            swhyper: 0,
            swfire: 0,
            sw1start: 0,
            swthrust: 0,
            swrotrght: 0,
            swrotleft: 0,
            godvg: 0,
            sndexp: 0,
            sndthump: 0,
            sndsaucr: 0,
            sndsfire: 0,
            sndselsau: 0,
            sndthrust: 0,
            sndfire: 0,
            sndbonus: 0,
            sndreset: 0,
        }
    }

    fn new() -> (io: MappedIO)
        ensures
            io == MappedIO::spec_zeroed(),
    {
        MappedIO {
            clck3khz: 0,
            halt: 0,
            swhyper: 0,
            swfire: 0,
            sw1start: 0,
            swthrust: 0,
            swrotrght: 0,
            swrotleft: 0,
            godvg: 0,
            sndexp: 0,
            sndthump: 0,
            sndsaucr: 0,
            sndsfire: 0,
            sndselsau: 0,
            sndthrust: 0,
            sndfire: 0,
            sndbonus: 0,
            sndreset: 0,
        }
    }
}

/// One of the input switches a front end can drive.
#[derive(Copy, Clone, Debug, PartialEq, Eq, Structural)]
pub enum Switch {
    Start,
    Fire,
    RotLeft,
    RotRight,
    Thrust,
    Hyper,
}

/// The mathematical image of the bus: each byte region as a sequence, plus
/// the IO latches. All contracts on `Memory` are stated over this snapshot.
pub struct MemSnapshot {
    pub game_ram: Seq<u8>,
    pub dvg_ram: Seq<u8>,
    pub dvg_rom: Seq<u8>,
    pub game_rom: Seq<u8>,
    pub io: MappedIO,
}

impl MemSnapshot {
    /// Region sizes are fixed by the hardware and never change at runtime.
    pub open spec fn wf(self) -> bool {
        &&& self.game_ram.len() == 0x400
        &&& self.dvg_ram.len() == 0x1000
        &&& self.dvg_rom.len() == 0x800
        &&& self.game_rom.len() == 0x1800
    }
}

/// An address as the bus sees it: only the low 15 bits take part in
/// decoding, so `a` and `a | 0x8000` name the same location.
pub open spec fn masked(addr: u16) -> u16 {
    addr & 0x7FFF
}

pub proof fn lemma_masked_bound(addr: u16)
    ensures
        masked(addr) < 0x8000,
{
    assert(addr & 0x7FFF < 0x8000) by (bit_vector);
}

/// Masking is the identity on the lower half of the address space.
pub proof fn lemma_masked_low(addr: u16)
    ensures
        addr < 0x8000 ==> masked(addr) == addr,
{
    assert(addr < 0x8000 ==> addr & 0x7FFF == addr) by (bit_vector);
}

/// What a read of `addr` observes: dispatch of the masked address over the
/// four regions and the readable IO latches; every unmapped address reads
/// as zero. Total over the whole 16-bit space by construction.
pub open spec fn spec_read(m: MemSnapshot, addr: u16) -> u8 {
    let a = masked(addr) as int;
    if a < 0x400 {
        m.game_ram[a]
    } else if 0x4000 <= a && a < 0x5000 {
        m.dvg_ram[a - 0x4000]
    } else if 0x5000 <= a && a < 0x5800 {
        m.dvg_rom[a - 0x5000]
    } else if 0x6800 <= a && a < 0x8000 {
        m.game_rom[a - 0x6800]
    } else if a == 0x2001 {
        m.io.clck3khz
    } else if a == 0x2002 {
        m.io.halt
    } else if a == 0x2003 {
        m.io.swhyper
    } else if a == 0x2004 {
        m.io.swfire
    } else if a == 0x2403 {
        m.io.sw1start
    } else if a == 0x2405 {
        m.io.swthrust
    } else if a == 0x2406 {
        m.io.swrotrght
    } else if a == 0x2407 {
        m.io.swrotleft
    } else {
        0
    }
}

/// What a write of `byte` to `addr` leaves behind: the RAM regions and the
/// writable IO latches accept the byte, the ROM regions and every unmapped
/// address silently ignore it. No write ever faults.
pub open spec fn spec_write(m: MemSnapshot, addr: u16, byte: u8) -> MemSnapshot {
    let a = masked(addr) as int;
    if a < 0x400 {
        MemSnapshot { game_ram: m.game_ram.update(a, byte), ..m }
    } else if 0x4000 <= a && a < 0x5000 {
        MemSnapshot { dvg_ram: m.dvg_ram.update(a - 0x4000, byte), ..m }
    } else if a == 0x2001 {
        MemSnapshot { io: MappedIO { clck3khz: byte, ..m.io }, ..m }
    } else if a == 0x3000 {
        MemSnapshot { io: MappedIO { godvg: byte, ..m.io }, ..m }
    } else if a == 0x3600 {
        MemSnapshot { io: MappedIO { sndexp: byte, ..m.io }, ..m }
    } else if a == 0x3A00 {
        MemSnapshot { io: MappedIO { sndthump: byte, ..m.io }, ..m }
    } else if a == 0x3C00 {
        MemSnapshot { io: MappedIO { sndsaucr: byte, ..m.io }, ..m }
    } else if a == 0x3C01 {
        MemSnapshot { io: MappedIO { sndsfire: byte, ..m.io }, ..m }
    } else if a == 0x3C02 {
        MemSnapshot { io: MappedIO { sndselsau: byte, ..m.io }, ..m }
    } else if a == 0x3C03 {
        MemSnapshot { io: MappedIO { sndthrust: byte, ..m.io }, ..m }
    } else if a == 0x3C04 {
        MemSnapshot { io: MappedIO { sndfire: byte, ..m.io }, ..m }
    } else if a == 0x3C05 {
        MemSnapshot { io: MappedIO { sndbonus: byte, ..m.io }, ..m }
    } else {
        m
    }
}

/// The switch latch that `switch` drives, set to `0xFF` when active and
/// `0x00` when released.
pub open spec fn spec_with_switch(io: MappedIO, switch: Switch, active: bool) -> MappedIO {
    let v: u8 = if active { 0xFF } else { 0 };
    match switch {
        Switch::Start => MappedIO { sw1start: v, ..io },
        Switch::Fire => MappedIO { swfire: v, ..io },
        Switch::RotLeft => MappedIO { swrotleft: v, ..io },
        Switch::RotRight => MappedIO { swrotrght: v, ..io },
        Switch::Thrust => MappedIO { swthrust: v, ..io },
        Switch::Hyper => MappedIO { swhyper: v, ..io },
    }
}

/// A write to `addr` and a read of any address with the same low 15 bits
/// observe the same stored byte: the bus decodes 15 bits, so the upper half
/// of the address space mirrors the lower half.
pub proof fn lemma_address_mirroring(m: MemSnapshot, addr: u16, byte: u8)
    ensures
        spec_read(m, addr) == spec_read(m, addr | 0x8000),
        spec_write(m, addr, byte) == spec_write(m, addr | 0x8000, byte),
{
    assert(addr & 0x7FFF == (addr | 0x8000) & 0x7FFF) by (bit_vector);
}

/// The addressable storage of the machine: working RAM, display-list RAM,
/// the two ROM regions and the IO latch bank, behind a single
/// `read`/`write` pair with 15-bit address decoding.
pub struct Memory {
    game_ram: Vec<u8>,
    dvg_ram: Vec<u8>,
    dvg_rom: Vec<u8>,
    game_rom: Vec<u8>,
    pub mapped_io: MappedIO,
}

impl View for Memory {
    type V = MemSnapshot;

    closed spec fn view(&self) -> MemSnapshot {
        MemSnapshot {
            game_ram: self.game_ram@,
            dvg_ram: self.dvg_ram@,
            dvg_rom: self.dvg_rom@,
            game_rom: self.game_rom@,
            io: self.mapped_io,
        }
    }
}

/// A byte vector of length `n` holding zeroes everywhere.
fn zeroed_bytes(n: usize) -> (v: Vec<u8>)
    ensures
        v@.len() == n,
        forall|i: int| 0 <= i < n ==> v@[i] == 0u8,
{
    let mut v: Vec<u8> = Vec::new();
    while v.len() < n
        invariant
            v@.len() <= n,
            forall|i: int| 0 <= i < v@.len() ==> v@[i] == 0u8,
        decreases n - v@.len(),
    {
        v.push(0u8);
    }
    v
}

impl Memory {
    pub open spec fn wf(self) -> bool {
        self@.wf()
    }

    /// A bus at power-up: both RAM regions cleared, the ROM regions empty of
    /// their image (all zero) until `load_rom_image` installs one, and every
    /// IO latch inactive.
    pub fn new() -> (m: Memory)
        ensures
            m.wf(),
            m@.game_ram =~= Seq::new(0x400, |i: int| 0u8),
            m@.dvg_ram =~= Seq::new(0x1000, |i: int| 0u8),
            m@.dvg_rom =~= Seq::new(0x800, |i: int| 0u8),
            m@.game_rom =~= Seq::new(0x1800, |i: int| 0u8),
            m@.io == MappedIO::spec_zeroed(),
    {
        let m = Memory {
            game_ram: zeroed_bytes(0x400),
            dvg_ram: zeroed_bytes(0x1000),
            dvg_rom: zeroed_bytes(0x800),
            game_rom: zeroed_bytes(0x1800),
            mapped_io: MappedIO::new(),
        };
        proof {
            assert(m@.game_ram =~= Seq::new(0x400, |i: int| 0u8));
            assert(m@.dvg_ram =~= Seq::new(0x1000, |i: int| 0u8));
            assert(m@.dvg_rom =~= Seq::new(0x800, |i: int| 0u8));
            assert(m@.game_rom =~= Seq::new(0x1800, |i: int| 0u8));
        }
        m
    }

    /// Installs a program image: exactly the display-processor ROM bytes
    /// (2048) followed by the program ROM bytes (6144). An image of any
    /// other size is rejected whole and the bus is left untouched.
    pub fn load_rom_image(&mut self, image: &Vec<u8>) -> (r: Result<(), Fault>)
        requires
            old(self).wf(),
        ensures
            final(self).wf(),
            image@.len() == 0x2000 ==> {
                &&& r is Ok
                &&& final(self)@ == (MemSnapshot {
                    dvg_rom: image@.subrange(0, 0x800),
                    game_rom: image@.subrange(0x800, 0x2000),
                    ..old(self)@
                })
            },
            image@.len() != 0x2000 ==> {
                &&& r == Err::<(), Fault>(Fault::AssetLoad { size: image@.len() as usize })
                &&& *final(self) == *old(self)
            },
    {
        if image.len() != 0x2000 {
            return Err(Fault::AssetLoad { size: image.len() });
        }
        let mut i: usize = 0;
        #[verifier::loop_isolation(false)]
        while i < 0x800
            invariant
                0x800 <= i ==> i == 0x800,
                self.dvg_rom@.len() == 0x800,
                forall|j: int| 0 <= j < i ==> self.dvg_rom@[j] == image@[j],
                self.game_ram == old(self).game_ram,
                self.dvg_ram == old(self).dvg_ram,
                self.game_rom == old(self).game_rom,
                self.mapped_io == old(self).mapped_io,
            decreases 0x800 - i,
        {
            self.dvg_rom[i] = image[i];
            i = i + 1;
        }
        let mut i: usize = 0;
        #[verifier::loop_isolation(false)]
        while i < 0x1800
            invariant
                0x1800 <= i ==> i == 0x1800,
                self.game_rom@.len() == 0x1800,
                forall|j: int| 0 <= j < i ==> self.game_rom@[j] == image@[0x800 + j],
                self.game_ram == old(self).game_ram,
                self.dvg_ram == old(self).dvg_ram,
                self.dvg_rom@ =~= image@.subrange(0, 0x800),
                self.mapped_io == old(self).mapped_io,
            decreases 0x1800 - i,
        {
            self.game_rom[i] = image[0x800 + i];
            i = i + 1;
        }
        proof {
            assert(self.game_rom@ =~= image@.subrange(0x800, 0x2000));
        }
        Ok(())
    }

    /// One bus read. Total: every address, mapped or not, yields a byte.
    pub fn get_byte(&self, addr: u16) -> (b: u8)
        requires
            self.wf(),
        ensures
            b == spec_read(self@, addr),
    {
        proof {
            lemma_masked_bound(addr);
        }
        let a = (addr & 0x7FFF) as usize;
        if a < 0x400 {
            self.game_ram[a]
        } else if a >= 0x4000 && a < 0x5000 {
            self.dvg_ram[a - 0x4000]
        } else if a >= 0x5000 && a < 0x5800 {
            self.dvg_rom[a - 0x5000]
        } else if a >= 0x6800 {
            self.game_rom[a - 0x6800]
        } else if a == 0x2001 {
            self.mapped_io.clck3khz
        } else if a == 0x2002 {
            self.mapped_io.halt
        } else if a == 0x2003 {
            self.mapped_io.swhyper
        } else if a == 0x2004 {
            self.mapped_io.swfire
        } else if a == 0x2403 {
            self.mapped_io.sw1start
        } else if a == 0x2405 {
            self.mapped_io.swthrust
        } else if a == 0x2406 {
            self.mapped_io.swrotrght
        } else if a == 0x2407 {
            self.mapped_io.swrotleft
        } else {
            0
        }
    }

    /// One bus write. Total: ROM ranges and unmapped addresses absorb the
    /// byte silently, exactly as the hardware does.
    pub fn set_byte(&mut self, addr: u16, byte: u8)
        requires
            old(self).wf(),
        ensures
            final(self).wf(),
            final(self)@ == spec_write(old(self)@, addr, byte),
    {
        proof {
            lemma_masked_bound(addr);
        }
        let a = (addr & 0x7FFF) as usize;
        if a < 0x400 {
            self.game_ram[a] = byte;
        } else if a >= 0x4000 && a < 0x5000 {
            self.dvg_ram[a - 0x4000] = byte;
        } else if a == 0x2001 {
            self.mapped_io.clck3khz = byte;
        } else if a == 0x3000 {
            self.mapped_io.godvg = byte;
        } else if a == 0x3600 {
            self.mapped_io.sndexp = byte;
        } else if a == 0x3A00 {
            self.mapped_io.sndthump = byte;
        } else if a == 0x3C00 {
            self.mapped_io.sndsaucr = byte;
        } else if a == 0x3C01 {
            self.mapped_io.sndsfire = byte;
        } else if a == 0x3C02 {
            self.mapped_io.sndselsau = byte;
        } else if a == 0x3C03 {
            self.mapped_io.sndthrust = byte;
        } else if a == 0x3C04 {
            self.mapped_io.sndfire = byte;
        } else if a == 0x3C05 {
            self.mapped_io.sndbonus = byte;
        }
    }

    /// The frame-in-progress flag, as the scheduler and the vector
    /// processor coordinate through it.
    pub fn io_halt(&self) -> (v: u8)
        ensures
            v == self@.io.halt,
    {
        self.mapped_io.halt
    }

    /// The "begin frame" trigger the program raises to start the vector
    /// processor.
    pub fn io_godvg(&self) -> (v: u8)
        ensures
            v == self@.io.godvg,
    {
        self.mapped_io.godvg
    }

    pub fn set_io_halt(&mut self, v: u8)
        ensures
            final(self)@ == (MemSnapshot {
                io: MappedIO { halt: v, ..old(self)@.io },
                ..old(self)@
            }),
    {
        self.mapped_io.halt = v;
    }

    pub fn set_io_godvg(&mut self, v: u8)
        ensures
            final(self)@ == (MemSnapshot {
                io: MappedIO { godvg: v, ..old(self)@.io },
                ..old(self)@
            }),
    {
        self.mapped_io.godvg = v;
    }

    /// Refreshes the free-running clock latch the program polls.
    pub fn set_io_clock(&mut self, v: u8)
        ensures
            final(self)@ == (MemSnapshot {
                io: MappedIO { clck3khz: v, ..old(self)@.io },
                ..old(self)@
            }),
    {
        self.mapped_io.clck3khz = v;
    }

    /// Drives one input switch latch: active reads as `0xFF`, released as
    /// `0x00`, at the switch's fixed bus address.
    pub fn set_switch(&mut self, switch: Switch, active: bool)
        ensures
            final(self)@ == (MemSnapshot {
                io: spec_with_switch(old(self)@.io, switch, active),
                ..old(self)@
            }),
    {
        let v: u8 = if active { 0xFF } else { 0 };
        match switch {
            Switch::Start => self.mapped_io.sw1start = v,
            Switch::Fire => self.mapped_io.swfire = v,
            Switch::RotLeft => self.mapped_io.swrotleft = v,
            Switch::RotRight => self.mapped_io.swrotrght = v,
            Switch::Thrust => self.mapped_io.swthrust = v,
            Switch::Hyper => self.mapped_io.swhyper = v,
        }
    }
}

} // verus!
