use asteroids_core::cpu::Cpu;
use asteroids_core::fault::Fault;
use asteroids_core::memory::Memory;

fn machine_with_program(program: &[u8]) -> (Cpu, Memory) {
    let mut m = Memory::new();
    let mut a: u16 = 0;
    for &b in program {
        m.set_byte(a, b);
        a += 1;
    }
    (Cpu::new(), m)
}

// The 151 documented opcodes; every other byte value must raise a decode
// fault.
fn legal_opcodes() -> Vec<u8> {
    vec![
        0x00, 0x01, 0x05, 0x06, 0x08, 0x09, 0x0A, 0x0D, 0x0E, 0x10, 0x11, 0x15, 0x16, 0x18, 0x19,
        0x1D, 0x1E, 0x20, 0x21, 0x24, 0x25, 0x26, 0x28, 0x29, 0x2A, 0x2C, 0x2D, 0x2E, 0x30, 0x31,
        0x35, 0x36, 0x38, 0x39, 0x3D, 0x3E, 0x40, 0x41, 0x45, 0x46, 0x48, 0x49, 0x4A, 0x4C, 0x4D,
        0x4E, 0x50, 0x51, 0x55, 0x56, 0x58, 0x59, 0x5D, 0x5E, 0x60, 0x61, 0x65, 0x66, 0x68, 0x69,
        0x6A, 0x6C, 0x6D, 0x6E, 0x70, 0x71, 0x75, 0x76, 0x78, 0x79, 0x7D, 0x7E, 0x81, 0x84, 0x85,
        0x86, 0x88, 0x8A, 0x8C, 0x8D, 0x8E, 0x90, 0x91, 0x94, 0x95, 0x96, 0x98, 0x99, 0x9A, 0x9D,
        0xA0, 0xA1, 0xA2, 0xA4, 0xA5, 0xA6, 0xA8, 0xA9, 0xAA, 0xAC, 0xAD, 0xAE, 0xB0, 0xB1, 0xB4,
        0xB5, 0xB6, 0xB8, 0xB9, 0xBA, 0xBC, 0xBD, 0xBE, 0xC0, 0xC1, 0xC4, 0xC5, 0xC6, 0xC8, 0xC9,
        0xCA, 0xCC, 0xCD, 0xCE, 0xD0, 0xD1, 0xD5, 0xD6, 0xD8, 0xD9, 0xDD, 0xDE, 0xE0, 0xE1, 0xE4,
        0xE5, 0xE6, 0xE8, 0xE9, 0xEA, 0xEC, 0xED, 0xEE, 0xF0, 0xF1, 0xF5, 0xF6, 0xF8, 0xF9, 0xFD,
        0xFE,
    ]
}

#[test]
fn decode_is_total_over_the_legal_matrix() {
    let legal = legal_opcodes();
    assert_eq!(legal.len(), 151);
    for op in 0..=255u8 {
        let (mut cpu, mut m) = machine_with_program(&[op, 0, 0]);
        let r = cpu.execute_instruction(&mut m);
        if legal.contains(&op) {
            assert!(r.is_ok(), "legal opcode {:#04x} was rejected", op);
        } else {
            assert_eq!(
                r,
                Err(Fault::Decode { address: 0, opcode: op }),
                "illegal opcode {:#04x} was accepted",
                op
            );
        }
    }
}

#[test]
fn known_illegal_combinations_fault() {
    // a fixed table of instruction/mode pairs the hardware never wired up
    let illegal: [u8; 12] = [
        0x89, // store-accumulator with immediate addressing
        0x44, // jump with zero-page addressing
        0x80, // store-Y with immediate addressing
        0x9C, // store-Y absolute-indexed
        0x9E, // store-X absolute-indexed-X
        0x02, // shift with immediate addressing
        0x12, // shift in an unwired mode row
        0xD2, // decrement in an unwired mode row
        0x34, // bit test zero-page-indexed
        0xD4, // compare-Y zero-page-indexed
        0xFC, // compare-X absolute-indexed
        0xFF, // no group at all
    ];
    for &op in illegal.iter() {
        let (mut cpu, mut m) = machine_with_program(&[op, 0, 0]);
        assert_eq!(cpu.execute_instruction(&mut m), Err(Fault::Decode { address: 0, opcode: op }));
    }
}

#[test]
fn load_accumulator_immediate_costs_two_cycles() {
    let (mut cpu, mut m) = machine_with_program(&[0xA9, 0x42]);
    cpu.execute_instruction(&mut m).unwrap();
    assert_eq!(cpu.a, 0x42);
    assert_eq!(cpu.cycle, 2);
    assert_eq!(cpu.pc, 2);
}

#[test]
fn absolute_indexed_load_pays_for_a_page_crossing() {
    // base 0x00FF with index 1 crosses into the next page: 4 + 1 cycles
    let (mut cpu, mut m) = machine_with_program(&[0xBD, 0xFF, 0x00]);
    cpu.x = 1;
    cpu.execute_instruction(&mut m).unwrap();
    assert_eq!(cpu.cycle, 5);
    // base 0x0010 with index 1 stays in the page: 4 cycles
    let (mut cpu, mut m) = machine_with_program(&[0xBD, 0x10, 0x00]);
    cpu.x = 1;
    cpu.execute_instruction(&mut m).unwrap();
    assert_eq!(cpu.cycle, 4);
}

#[test]
fn push_then_pull_status_restores_every_bit() {
    let (mut cpu, mut m) = machine_with_program(&[0x08, 0x28]);
    cpu.p = 0b1101_0110; // break and unused bits included
    cpu.s = 0xFD;
    cpu.execute_instruction(&mut m).unwrap();
    assert_eq!(cpu.s, 0xFC);
    cpu.execute_instruction(&mut m).unwrap();
    assert_eq!(cpu.p, 0b1101_0110);
    assert_eq!(cpu.s, 0xFD);
    assert_eq!(cpu.cycle, 3 + 4);
}

#[test]
fn software_interrupt_then_return_restores_counter_and_flags() {
    let mut m = Memory::new();
    let mut image = vec![0u8; 0x2000];
    // software-interrupt vector at 0xFFFE -> handler at 0x0200
    image[0x800 + 0x17FE] = 0x00;
    image[0x800 + 0x17FF] = 0x02;
    m.load_rom_image(&image).unwrap();
    m.set_byte(0x0000, 0x00); // the software interrupt itself
    m.set_byte(0x0200, 0x40); // the handler returns immediately
    let mut cpu = Cpu::new();
    cpu.p = 0b0011_0001; // break flag already set, as the pushed copy has it
    cpu.s = 0xFD;
    cpu.execute_instruction(&mut m).unwrap();
    assert_eq!(cpu.pc, 0x0200);
    assert_eq!(cpu.s, 0xFA);
    assert!(cpu.p & 0b100 != 0); // interrupts disabled on entry
    assert_eq!(cpu.cycle, 7);
    cpu.execute_instruction(&mut m).unwrap();
    assert_eq!(cpu.pc, 0x0002); // past the two-byte interrupt instruction
    assert_eq!(cpu.p, 0b0011_0001);
    assert_eq!(cpu.s, 0xFD);
    assert_eq!(cpu.cycle, 7 + 6);
}

#[test]
fn binary_add_sets_overflow_on_sign_crossing() {
    let (mut cpu, mut m) = machine_with_program(&[0x69, 0x50]);
    cpu.a = 0x50;
    cpu.execute_instruction(&mut m).unwrap();
    assert_eq!(cpu.a, 0xA0);
    assert_ne!(cpu.p & 0x40, 0, "overflow must be set");
    assert_eq!(cpu.p & 0x01, 0, "carry must be clear");
    assert_ne!(cpu.p & 0x80, 0, "negative must be set");
    assert_eq!(cpu.p & 0x02, 0, "zero must be clear");
}

#[test]
fn decimal_add_carries_between_digits() {
    // 0x19 + 0x03 in decimal mode is 0x22
    let (mut cpu, mut m) = machine_with_program(&[0x69, 0x03]);
    cpu.a = 0x19;
    cpu.p = 0b0000_1000;
    cpu.execute_instruction(&mut m).unwrap();
    assert_eq!(cpu.a, 0x22);
    assert_eq!(cpu.p & 0x01, 0);
}

#[test]
fn binary_subtract_borrows_through_carry() {
    // 0x50 - 0x20 with carry set (no borrow pending): 0x30, carry stays set
    let (mut cpu, mut m) = machine_with_program(&[0xE9, 0x20]);
    cpu.a = 0x50;
    cpu.p = 0x01;
    cpu.execute_instruction(&mut m).unwrap();
    assert_eq!(cpu.a, 0x30);
    assert_ne!(cpu.p & 0x01, 0);
    // 0x20 - 0x50: wraps, carry cleared to signal the borrow
    let (mut cpu, mut m) = machine_with_program(&[0xE9, 0x50]);
    cpu.a = 0x20;
    cpu.p = 0x01;
    cpu.execute_instruction(&mut m).unwrap();
    assert_eq!(cpu.a, 0xD0);
    assert_eq!(cpu.p & 0x01, 0);
}

#[test]
fn branch_not_taken_costs_two_cycles() {
    let (mut cpu, mut m) = machine_with_program(&[0xF0, 0x10]);
    cpu.execute_instruction(&mut m).unwrap(); // zero flag clear: not taken
    assert_eq!(cpu.pc, 2);
    assert_eq!(cpu.cycle, 2);
}

#[test]
fn branch_taken_in_page_costs_three_cycles() {
    let (mut cpu, mut m) = machine_with_program(&[0xF0, 0x10]);
    cpu.p = 0x02;
    cpu.execute_instruction(&mut m).unwrap();
    assert_eq!(cpu.pc, 0x12);
    assert_eq!(cpu.cycle, 3);
}

#[test]
fn branch_taken_across_pages_costs_four_cycles() {
    let mut m = Memory::new();
    m.set_byte(0x00F0, 0xF0);
    m.set_byte(0x00F1, 0x20); // target 0x0112, past the page of 0x00F2
    let mut cpu = Cpu::new();
    cpu.pc = 0x00F0;
    cpu.p = 0x02;
    cpu.execute_instruction(&mut m).unwrap();
    assert_eq!(cpu.pc, 0x0112);
    assert_eq!(cpu.cycle, 4);
}

#[test]
fn backward_branch_lands_before_the_instruction() {
    let mut m = Memory::new();
    m.set_byte(0x0010, 0xD0);
    m.set_byte(0x0011, 0xFC); // -4 from the following instruction
    let mut cpu = Cpu::new();
    cpu.pc = 0x0010;
    cpu.execute_instruction(&mut m).unwrap(); // zero clear: taken
    assert_eq!(cpu.pc, 0x000E);
}

#[test]
fn subroutine_call_and_return_round_trip() {
    let mut m = Memory::new();
    m.set_byte(0x0000, 0x20); // call 0x0040
    m.set_byte(0x0001, 0x40);
    m.set_byte(0x0002, 0x00);
    m.set_byte(0x0040, 0x60); // return
    let mut cpu = Cpu::new();
    cpu.s = 0xFD;
    cpu.execute_instruction(&mut m).unwrap();
    assert_eq!(cpu.pc, 0x0040);
    assert_eq!(cpu.cycle, 6);
    cpu.execute_instruction(&mut m).unwrap();
    assert_eq!(cpu.pc, 0x0003);
    assert_eq!(cpu.s, 0xFD);
    assert_eq!(cpu.cycle, 12);
}

#[test]
fn stack_pointer_wraps_without_fault() {
    let (mut cpu, mut m) = machine_with_program(&[0x48, 0x48]);
    cpu.s = 0x00;
    cpu.a = 7;
    cpu.execute_instruction(&mut m).unwrap();
    assert_eq!(cpu.s, 0xFF);
    cpu.execute_instruction(&mut m).unwrap();
    assert_eq!(cpu.s, 0xFE);
    assert_eq!(m.get_byte(0x0100), 7);
    assert_eq!(m.get_byte(0x01FF), 7);
}

#[test]
fn shifts_move_bits_through_carry() {
    // accumulator shift left: bit 7 leaves through carry
    let (mut cpu, mut m) = machine_with_program(&[0x0A]);
    cpu.a = 0x81;
    cpu.execute_instruction(&mut m).unwrap();
    assert_eq!(cpu.a, 0x02);
    assert_ne!(cpu.p & 0x01, 0);
    assert_eq!(cpu.cycle, 2);
    // rotate right pulls the old carry into bit 7
    let (mut cpu, mut m) = machine_with_program(&[0x6A]);
    cpu.a = 0x01;
    cpu.p = 0x01;
    cpu.execute_instruction(&mut m).unwrap();
    assert_eq!(cpu.a, 0x80);
    assert_ne!(cpu.p & 0x01, 0);
}

#[test]
fn zero_page_indexed_wraps_within_the_page() {
    let mut m = Memory::new();
    m.set_byte(0x0000, 0xB5); // load-accumulator zero-page,X
    m.set_byte(0x0001, 0xF0);
    m.set_byte(0x0010, 0x5A); // (0xF0 + 0x20) wraps to 0x10
    let mut cpu = Cpu::new();
    cpu.x = 0x20;
    cpu.execute_instruction(&mut m).unwrap();
    assert_eq!(cpu.a, 0x5A);
}

#[test]
fn indexed_indirect_dereferences_a_zero_page_pointer() {
    let mut m = Memory::new();
    m.set_byte(0x0000, 0xA1); // load-accumulator (zp,X)
    m.set_byte(0x0001, 0x20);
    m.set_byte(0x0024, 0x80); // pointer at 0x20 + 4
    m.set_byte(0x0025, 0x00);
    m.set_byte(0x0080, 0x77);
    let mut cpu = Cpu::new();
    cpu.x = 4;
    cpu.execute_instruction(&mut m).unwrap();
    assert_eq!(cpu.a, 0x77);
    assert_eq!(cpu.cycle, 6);
}

#[test]
fn indirect_indexed_adds_the_index_after_the_dereference() {
    let mut m = Memory::new();
    m.set_byte(0x0000, 0xB1); // load-accumulator (zp),Y
    m.set_byte(0x0001, 0x20);
    m.set_byte(0x0020, 0x80);
    m.set_byte(0x0021, 0x00);
    m.set_byte(0x0085, 0x66);
    let mut cpu = Cpu::new();
    cpu.y = 5;
    cpu.execute_instruction(&mut m).unwrap();
    assert_eq!(cpu.a, 0x66);
    assert_eq!(cpu.cycle, 5);
}

#[test]
fn compare_sets_carry_zero_and_negative() {
    let (mut cpu, mut m) = machine_with_program(&[0xC9, 0x30]);
    cpu.a = 0x30;
    cpu.execute_instruction(&mut m).unwrap();
    assert_ne!(cpu.p & 0x01, 0);
    assert_ne!(cpu.p & 0x02, 0);
    let (mut cpu, mut m) = machine_with_program(&[0xC9, 0x40]);
    cpu.a = 0x30;
    cpu.execute_instruction(&mut m).unwrap();
    assert_eq!(cpu.p & 0x01, 0);
    assert_ne!(cpu.p & 0x80, 0);
}

#[test]
fn reset_loads_the_reset_vector() {
    let mut m = Memory::new();
    let mut image = vec![0u8; 0x2000];
    image[0x800 + 0x17FC] = 0x34; // reset vector 0xFFFC -> 0x6834
    image[0x800 + 0x17FD] = 0x68;
    m.load_rom_image(&image).unwrap();
    let mut cpu = Cpu::new();
    cpu.reset(&m);
    assert_eq!(cpu.pc, 0x6834);
    assert_eq!(cpu.p, 0b100);
    assert_eq!(cpu.s, 0xFD);
    assert_eq!(cpu.cycle, 6);
}

#[test]
fn hardware_interrupt_pushes_state_and_takes_its_vector() {
    let mut m = Memory::new();
    let mut image = vec![0u8; 0x2000];
    image[0x800 + 0x17FA] = 0x00; // interrupt vector 0xFFFA -> 0x6800
    image[0x800 + 0x17FB] = 0x68;
    m.load_rom_image(&image).unwrap();
    let mut cpu = Cpu::new();
    cpu.pc = 0x1234;
    cpu.p = 0xB0;
    cpu.s = 0xFD;
    cpu.cycle = 100;
    cpu.initiate_nmi(&mut m);
    assert_eq!(cpu.pc, 0x6800);
    assert_eq!(cpu.cycle, 107);
    assert_eq!(cpu.s, 0xFA);
    assert_ne!(cpu.p & 0b100, 0);
    assert_eq!(m.get_byte(0x01FD), 0x12);
    assert_eq!(m.get_byte(0x01FC), 0x34);
    assert_eq!(m.get_byte(0x01FB), 0xB0);
}
