use asteroids_core::dvg::{serial_packet, Dvg, DvgEvent};
use asteroids_core::fault::Fault;
use asteroids_core::memory::Memory;

// Writes one display-list word at word index `pc` (the list is word-indexed
// from the base of display-list RAM).
fn put_word(m: &mut Memory, pc: u16, w: u16) {
    let addr = pc * 2 + 0x4000;
    m.set_byte(addr, (w % 0x100) as u8);
    m.set_byte(addr + 1, (w / 0x100) as u8);
}

fn run_frame(m: &mut Memory) -> Result<Vec<DvgEvent>, Fault> {
    let mut dvg = Dvg::new();
    let mut out: Vec<DvgEvent> = Vec::new();
    dvg.render(m, &mut out, 100_000).map(|_| out)
}

#[test]
fn zero_intensity_vector_moves_without_drawing() {
    let mut m = Memory::new();
    // scale nibble 9 leaves the ten-bit magnitude unshifted
    put_word(&mut m, 1, 0x9040); // delta-Y +0x40, first word
    put_word(&mut m, 2, 0x0020); // intensity 0, delta-X +0x20
    put_word(&mut m, 3, 0xB000); // halt
    let events = run_frame(&mut m).unwrap();
    assert_eq!(events, vec![DvgEvent::MoveTo { x: 0x20, y: 0x40 }]);
    assert_eq!(m.mapped_io.halt, 0);
}

#[test]
fn positive_intensity_vector_emits_exactly_one_segment() {
    let mut m = Memory::new();
    put_word(&mut m, 1, 0x9040);
    put_word(&mut m, 2, 0xB020); // intensity 11
    put_word(&mut m, 3, 0xB000);
    let events = run_frame(&mut m).unwrap();
    assert_eq!(
        events,
        vec![DvgEvent::Line { x0: 0, y0: 0, x1: 0x20, y1: 0x40, intensity: 11 }]
    );
}

#[test]
fn zero_length_draw_is_a_point() {
    let mut m = Memory::new();
    put_word(&mut m, 1, 0x9000); // no movement
    put_word(&mut m, 2, 0x5000); // intensity 5
    put_word(&mut m, 3, 0xB000);
    let events = run_frame(&mut m).unwrap();
    assert_eq!(events, vec![DvgEvent::Dot { x: 0, y: 0, intensity: 5 }]);
}

#[test]
fn vector_sign_bits_move_the_cursor_negative() {
    let mut m = Memory::new();
    put_word(&mut m, 1, 0x9440); // delta-Y 0x40, Y sign set
    put_word(&mut m, 2, 0x0420); // delta-X 0x20, X sign set, intensity 0
    put_word(&mut m, 3, 0xB000);
    let events = run_frame(&mut m).unwrap();
    assert_eq!(events, vec![DvgEvent::MoveTo { x: -0x20, y: -0x40 }]);
}

#[test]
fn vector_magnitude_shifts_with_the_opcode_nibble() {
    let mut m = Memory::new();
    // top nibble 7: shift amount 9 - 7 = 2, so 0x100 scales to 0x40
    put_word(&mut m, 1, 0x7100);
    put_word(&mut m, 2, 0x0100);
    put_word(&mut m, 3, 0xB000);
    let events = run_frame(&mut m).unwrap();
    assert_eq!(events, vec![DvgEvent::MoveTo { x: 0x40, y: 0x40 }]);
}

#[test]
fn absolute_load_sets_cursor_and_scale() {
    let mut m = Memory::new();
    put_word(&mut m, 1, 0xA040); // LABS: Y = +0x40
    put_word(&mut m, 2, 0x1420); // scale nibble 1, X sign set: X = 0x20 - 0x400
    // a unit vector afterwards shows the loaded global scale: 9 - 9 + (-1) = 0
    put_word(&mut m, 3, 0x9100); // delta-Y 0x100 shifted by 9 - 9 - 1: doubled
    put_word(&mut m, 4, 0x0000);
    put_word(&mut m, 5, 0xB000);
    let events = run_frame(&mut m).unwrap();
    assert_eq!(events[0], DvgEvent::MoveTo { x: 0x20 - 0x400, y: 0x40 });
    // negative shift amounts shift left: 0x100 << 1 = 0x200
    assert_eq!(events[1], DvgEvent::MoveTo { x: 0x20 - 0x400, y: 0x40 + 0x200 });
}

#[test]
fn compact_vector_packs_deltas_and_intensity() {
    let mut m = Memory::new();
    // SVEC: local scale 0, Y bits 0b01 -> delta-Y 0x100, X bits 0b01 ->
    // delta-X 0x100, intensity 3; shift 7 - 0 + 0 = 7: 0x100 >> 7 = 2
    put_word(&mut m, 1, 0xF131);
    put_word(&mut m, 2, 0xB000);
    let events = run_frame(&mut m).unwrap();
    assert_eq!(
        events,
        vec![DvgEvent::Line { x0: 0, y0: 0, x1: 2, y1: 2, intensity: 3 }]
    );
}

#[test]
fn call_then_return_resumes_after_the_call() {
    let mut m = Memory::new();
    put_word(&mut m, 1, 0xC100); // call word 0x100
    put_word(&mut m, 2, 0xB000); // halt, after the return
    put_word(&mut m, 0x100, 0xD000); // return
    let events = run_frame(&mut m).unwrap();
    assert_eq!(events, vec![]);
    assert_eq!(m.mapped_io.halt, 0);
}

#[test]
fn jumps_do_not_touch_the_stack() {
    let mut m = Memory::new();
    put_word(&mut m, 1, 0xE100); // jump to word 0x100
    put_word(&mut m, 0x100, 0xD000); // a return there underflows
    assert_eq!(run_frame(&mut m), Err(Fault::VectorStackUnderflow));
}

#[test]
fn fifth_nested_call_overflows_the_stack() {
    let mut m = Memory::new();
    put_word(&mut m, 1, 0xC001); // calls itself: each call pushes one entry
    assert_eq!(run_frame(&mut m), Err(Fault::VectorStackOverflow));
}

#[test]
fn return_with_empty_stack_underflows() {
    let mut m = Memory::new();
    put_word(&mut m, 1, 0xD000);
    assert_eq!(run_frame(&mut m), Err(Fault::VectorStackUnderflow));
}

#[test]
fn runaway_display_list_is_a_frame_overrun() {
    let mut m = Memory::new();
    put_word(&mut m, 1, 0xE001); // jump to itself forever
    assert_eq!(run_frame(&mut m), Err(Fault::FrameOverrun));
}

#[test]
fn render_clears_the_begin_frame_trigger() {
    let mut m = Memory::new();
    m.set_byte(0x3000, 0xFF);
    put_word(&mut m, 1, 0xB000);
    run_frame(&mut m).unwrap();
    assert_eq!(m.mapped_io.godvg, 0);
    assert_eq!(m.mapped_io.halt, 0);
}

#[test]
fn serial_packet_packs_intensity_then_coordinates() {
    let p = serial_packet(0x0123, 0x0045, 7).unwrap();
    assert_eq!(p, vec![7, 0x01, 0x23, 0x00, 0x45]);
}

#[test]
fn serial_packet_uses_twos_complement_for_negatives() {
    let p = serial_packet(-1, -0x400, 0).unwrap();
    assert_eq!(p, vec![0, 0xFF, 0xFF, 0xFC, 0x00]);
}

#[test]
fn serial_packet_filters_text_regions_and_full_intensity() {
    assert_eq!(serial_packet(500, 900, 4), None); // upper text band
    assert_eq!(serial_packet(180, 850, 4), None); // lives counter
    assert_eq!(serial_packet(500, 800, 4), None); // press-start banner
    assert_eq!(serial_packet(500, 130, 4), None); // copyright line
    assert_eq!(serial_packet(500, 500, 15), None); // full intensity
    assert!(serial_packet(500, 500, 4).is_some());
}
