use asteroids_core::cpu::Cpu;
use asteroids_core::fault::Fault;
use asteroids_core::dvg::{Dvg, DvgEvent};
use asteroids_core::memory::{MappedIO, Memory};
use asteroids_core::sched::Scheduler;
use asteroids_core::sound::SoundDirector;

// An image whose program ROM is filled with `fill`, with the reset vector
// pointing at the base of program ROM and both interrupt vectors at `0x6900`.
fn image_with_program(program: &[u8], fill: u8) -> Vec<u8> {
    let mut image = vec![0u8; 0x2000];
    for i in 0x800..0x2000 {
        image[i] = fill;
    }
    for (i, &b) in program.iter().enumerate() {
        image[0x800 + i] = b;
    }
    image[0x800 + 0x17FC] = 0x00; // reset vector: 0x6800
    image[0x800 + 0x17FD] = 0x68;
    image[0x800 + 0x17FA] = 0x00; // hardware-interrupt vector: 0x6900
    image[0x800 + 0x17FB] = 0x69;
    image[0x800 + 0x17FE] = 0x00; // software-interrupt vector: 0x6900
    image[0x800 + 0x17FF] = 0x69;
    image
}

#[test]
fn synthetic_program_stores_and_interrupts() {
    // load-accumulator-immediate 0x42; store-accumulator-zeropage 0x10;
    // software-interrupt
    let mut m = Memory::new();
    let image = image_with_program(&[0xA9, 0x42, 0x85, 0x10, 0x00], 0xEA);
    m.load_rom_image(&image).unwrap();
    let mut cpu = Cpu::new();
    cpu.reset(&m);
    assert_eq!(cpu.pc, 0x6800);
    assert_eq!(cpu.cycle, 6);
    cpu.execute_instruction(&mut m).unwrap();
    cpu.execute_instruction(&mut m).unwrap();
    assert_eq!(m.get_byte(0x0010), 0x42);
    assert_eq!(cpu.cycle, 6 + 2 + 3);
    cpu.execute_instruction(&mut m).unwrap(); // the interrupt entry
    assert_eq!(cpu.cycle, 6 + 2 + 3 + 7);
    assert_eq!(cpu.pc, 0x6900);
}

#[test]
fn scheduler_reaches_its_cycle_target() {
    let mut m = Memory::new();
    let image = image_with_program(&[], 0xEA); // nothing but no-ops
    m.load_rom_image(&image).unwrap();
    let mut cpu = Cpu::new();
    cpu.reset(&m);
    let mut dvg = Dvg::new();
    let mut sched = Scheduler::new();
    let mut out: Vec<DvgEvent> = Vec::new();
    sched.run_until(&mut cpu, &mut dvg, &mut m, &mut out, 100).unwrap();
    assert!(cpu.cycle >= 100);
    assert!(cpu.cycle < 100 + 7);
    assert!(out.is_empty());
}

#[test]
fn scheduler_injects_the_periodic_interrupt() {
    let mut m = Memory::new();
    let image = image_with_program(&[], 0xEA);
    m.load_rom_image(&image).unwrap();
    let mut cpu = Cpu::new();
    cpu.reset(&m);
    let mut dvg = Dvg::new();
    let mut sched = Scheduler::new();
    let mut out: Vec<DvgEvent> = Vec::new();
    sched.run_until(&mut cpu, &mut dvg, &mut m, &mut out, 6010).unwrap();
    // one interrupt has fired: three bytes pushed, interrupts disabled,
    // control at the interrupt vector's handler (also no-ops)
    assert_eq!(cpu.s, 0xFD - 3);
    assert_ne!(cpu.p & 0b100, 0);
    assert_eq!(sched.next_nmi, 12000);
}

#[test]
fn begin_frame_trigger_hands_the_bus_to_the_vector_processor() {
    let mut m = Memory::new();
    // load-accumulator-immediate 0xFF; store-accumulator absolute 0x3000
    // (the begin-frame trigger); then no-ops
    let image = image_with_program(&[0xA9, 0xFF, 0x8D, 0x00, 0x30], 0xEA);
    m.load_rom_image(&image).unwrap();
    // the display list: one dot, then halt
    m.set_byte(0x4002, 0x00);
    m.set_byte(0x4003, 0x90);
    m.set_byte(0x4004, 0x00);
    m.set_byte(0x4005, 0x50);
    m.set_byte(0x4006, 0x00);
    m.set_byte(0x4007, 0xB0);
    let mut cpu = Cpu::new();
    cpu.reset(&m);
    let mut dvg = Dvg::new();
    let mut sched = Scheduler::new();
    let mut out: Vec<DvgEvent> = Vec::new();
    sched.run_until(&mut cpu, &mut dvg, &mut m, &mut out, 50).unwrap();
    assert_eq!(out, vec![DvgEvent::Dot { x: 0, y: 0, intensity: 5 }]);
    assert_eq!(m.mapped_io.godvg, 0);
    assert_eq!(m.mapped_io.halt, 0);
}

#[test]
fn scheduler_surfaces_interpreter_faults() {
    let mut m = Memory::new();
    // two no-ops, then an illegal opcode
    let image = image_with_program(&[0xEA, 0xEA, 0x02], 0xEA);
    m.load_rom_image(&image).unwrap();
    let mut cpu = Cpu::new();
    cpu.reset(&m);
    let mut dvg = Dvg::new();
    let mut sched = Scheduler::new();
    let mut out: Vec<DvgEvent> = Vec::new();
    let r = sched.run_until(&mut cpu, &mut dvg, &mut m, &mut out, 100);
    assert_eq!(r, Err(Fault::Decode { address: 0x6802, opcode: 0x02 }));
    assert_eq!(cpu.cycle, 6 + 2 + 2); // the two no-ops ran, nothing more
}

#[test]
fn clock_latch_follows_the_cycle_counter() {
    let mut m = Memory::new();
    let mut cpu = Cpu::new();
    cpu.cycle = 1234;
    Scheduler::update_clock_latch(&cpu, &mut m);
    assert_eq!(m.mapped_io.clck3khz, 2);
    assert_eq!(m.get_byte(0x2001), 2);
    cpu.cycle = 500 * 256 + 500; // the latch keeps only the low eight bits
    Scheduler::update_clock_latch(&cpu, &mut m);
    assert_eq!(m.mapped_io.clck3khz, 1);
}

#[test]
fn next_tick_is_the_next_clock_multiple() {
    assert_eq!(Scheduler::next_tick(0), 500);
    assert_eq!(Scheduler::next_tick(499), 500);
    assert_eq!(Scheduler::next_tick(500), 1000);
    assert_eq!(Scheduler::next_tick(1234), 1500);
}

fn quiet_io() -> MappedIO {
    let m = Memory::new();
    m.mapped_io
}

#[test]
fn sound_effects_start_on_rising_signals() {
    let mut d = SoundDirector::new();
    let mut io = quiet_io();
    io.sndfire = 0x80;
    let a = d.update(&io);
    assert!(a.play_ship_fire);
    // the signal holds: no retrigger
    let a = d.update(&io);
    assert!(!a.play_ship_fire);
    // it falls and rises again: retrigger
    io.sndfire = 0;
    d.update(&io);
    io.sndfire = 0x80;
    let a = d.update(&io);
    assert!(a.play_ship_fire);
}

#[test]
fn explosion_signal_masks_to_its_low_bits() {
    let mut d = SoundDirector::new();
    let mut io = quiet_io();
    io.sndexp = 0xC0; // only the low six bits count: still silent
    let a = d.update(&io);
    assert!(!a.play_explosion);
    io.sndexp = 0xC1;
    let a = d.update(&io);
    assert!(a.play_explosion);
}

#[test]
fn saucer_select_picks_the_voice() {
    let mut d = SoundDirector::new();
    let mut io = quiet_io();
    io.sndsaucr = 0xFF;
    io.sndselsau = 160;
    let a = d.update(&io);
    assert!(a.start_large_saucer && !a.start_small_saucer && !a.stop_saucer);
    io.sndsaucr = 0;
    let a = d.update(&io);
    assert!(a.stop_saucer);
    io.sndsaucr = 0xFF;
    io.sndselsau = 0;
    let a = d.update(&io);
    assert!(a.start_small_saucer && !a.start_large_saucer);
}

#[test]
fn thump_pitch_follows_the_signal_value() {
    let mut d = SoundDirector::new();
    let mut io = quiet_io();
    io.sndthump = 16;
    let a = d.update(&io);
    assert!(a.play_thump_low && !a.play_thump_high);
    io.sndthump = 0;
    d.update(&io);
    io.sndthump = 12;
    let a = d.update(&io);
    assert!(a.play_thump_high && !a.play_thump_low);
}

#[test]
fn thrust_is_continuous_between_edges() {
    let mut d = SoundDirector::new();
    let mut io = quiet_io();
    io.sndthrust = 0xFF;
    let a = d.update(&io);
    assert!(a.start_thrust && !a.stop_thrust);
    let a = d.update(&io);
    assert!(!a.start_thrust && !a.stop_thrust);
    io.sndthrust = 0;
    let a = d.update(&io);
    assert!(a.stop_thrust);
}

#[test]
fn extra_life_holds_off_before_replaying() {
    let mut d = SoundDirector::new();
    let mut io = quiet_io();
    io.sndbonus = 0xFF;
    let a = d.update(&io);
    assert!(a.play_extra_life);
    let a = d.update(&io);
    assert!(!a.play_extra_life);
    assert_eq!(d.extra_life_countdown, 9998);
}
