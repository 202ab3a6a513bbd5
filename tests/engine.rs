use chip8::cpu::Res;
use chip8::error::Error;
use chip8::instr::{decode, Instr};
use chip8::keypad::{Key, NO_KEY};
use chip8::machine::Chip8;
use chip8::memory::{fontaddr, Ram};
use chip8::screen::{bitarray, Screen};
use chip8::timer::DelayTimer;

fn machine(prog: &[u8]) -> Chip8 {
    let mut c = Chip8::new();
    c.load(prog).unwrap();
    c
}

fn steps(c: &mut Chip8, n: usize) {
    for _ in 0..n {
        c.tick(None).unwrap();
    }
}

#[test]
fn load_then_skip_scenario() {
    // V10 = 2; skip if V10 == 2; two fillers; jump.
    let mut c = machine(&[0x6A, 0x02, 0x3A, 0x02, 0x60, 0x01, 0x61, 0x01, 0x12, 0x00]);
    c.tick(None).unwrap();
    assert_eq!(c.cpu.reg(0xA), 2);
    assert_eq!(c.cpu.pc, 0x202);
    c.tick(None).unwrap();
    assert_eq!(c.cpu.pc, 0x206);
    c.tick(None).unwrap();
    assert_eq!(c.cpu.reg(0x0), 0);
    assert_eq!(c.cpu.reg(0x1), 1);
    c.tick(None).unwrap();
    assert_eq!(c.cpu.pc, 0x200);
}

#[test]
fn bcd_of_255() {
    let mut c = machine(&[0x6A, 0xFF, 0xA3, 0x00, 0xFA, 0x33]);
    steps(&mut c, 3);
    assert_eq!(c.ram.read(0x300), 2);
    assert_eq!(c.ram.read(0x301), 5);
    assert_eq!(c.ram.read(0x302), 5);
}

#[test]
fn bcd_of_small_values() {
    let mut c = machine(&[0x6A, 0x07, 0xA3, 0x00, 0xFA, 0x33]);
    steps(&mut c, 3);
    assert_eq!((c.ram.read(0x300), c.ram.read(0x301), c.ram.read(0x302)), (0, 0, 7));
}

#[test]
fn add_immediate_wraps_without_flag() {
    let mut c = machine(&[0x60, 0xFF, 0x6F, 0x00, 0x70, 0x02]);
    steps(&mut c, 3);
    assert_eq!(c.cpu.reg(0x0), 1);
    assert_eq!(c.cpu.reg(0xF), 0);
}

#[test]
fn add_registers_sets_carry_at_boundary() {
    let mut c = machine(&[0x60, 0xFF, 0x61, 0x01, 0x80, 0x14]);
    steps(&mut c, 3);
    assert_eq!(c.cpu.reg(0x0), 0x00);
    assert_eq!(c.cpu.reg(0xF), 1);

    let mut d = machine(&[0x60, 0xFE, 0x61, 0x01, 0x80, 0x14]);
    steps(&mut d, 3);
    assert_eq!(d.cpu.reg(0x0), 0xFF);
    assert_eq!(d.cpu.reg(0xF), 0);
}

#[test]
fn subtract_flags_not_borrow() {
    // 0x00 - 0xFF borrows.
    let mut c = machine(&[0x60, 0x00, 0x61, 0xFF, 0x80, 0x15]);
    steps(&mut c, 3);
    assert_eq!(c.cpu.reg(0x0), 0x01);
    assert_eq!(c.cpu.reg(0xF), 0);
    // 0xFF - 0xFF does not.
    let mut d = machine(&[0x60, 0xFF, 0x61, 0xFF, 0x80, 0x15]);
    steps(&mut d, 3);
    assert_eq!(d.cpu.reg(0x0), 0x00);
    assert_eq!(d.cpu.reg(0xF), 1);
    // SUBN: V0 = V1 - V0 = 0xFF - 0x00.
    let mut e = machine(&[0x60, 0x00, 0x61, 0xFF, 0x80, 0x17]);
    steps(&mut e, 3);
    assert_eq!(e.cpu.reg(0x0), 0xFF);
    assert_eq!(e.cpu.reg(0xF), 1);
    // SUBN: V0 = V1 - V0 = 0x00 - 0xFF.
    let mut f = machine(&[0x60, 0xFF, 0x61, 0x00, 0x80, 0x17]);
    steps(&mut f, 3);
    assert_eq!(f.cpu.reg(0x0), 0x01);
    assert_eq!(f.cpu.reg(0xF), 0);
}

#[test]
fn shifts_move_bit_into_flag() {
    let mut c = machine(&[0x60, 0x81, 0x80, 0x06]);
    steps(&mut c, 2);
    assert_eq!(c.cpu.reg(0x0), 0x40);
    assert_eq!(c.cpu.reg(0xF), 1);
    let mut d = machine(&[0x60, 0x81, 0x80, 0x0E]);
    steps(&mut d, 2);
    assert_eq!(d.cpu.reg(0x0), 0x02);
    assert_eq!(d.cpu.reg(0xF), 1);
    let mut e = machine(&[0x60, 0x7E, 0x80, 0x0E]);
    steps(&mut e, 2);
    assert_eq!(e.cpu.reg(0x0), 0xFC);
    assert_eq!(e.cpu.reg(0xF), 0);
}

#[test]
fn bitwise_operations() {
    let mut c = machine(&[0x60, 0xF0, 0x61, 0x3C, 0x82, 0x00, 0x82, 0x11, 0x83, 0x00, 0x83, 0x12, 0x84, 0x00, 0x84, 0x13]);
    steps(&mut c, 8);
    assert_eq!(c.cpu.reg(0x2), 0xFC);
    assert_eq!(c.cpu.reg(0x3), 0x30);
    assert_eq!(c.cpu.reg(0x4), 0xCC);
}

#[test]
fn call_then_return_restores_stack_pointer() {
    // 0x200: CALL 0x206; 0x202: LD V0, 7; ... 0x206: RET
    let mut c = machine(&[0x22, 0x06, 0x60, 0x07, 0x00, 0x00, 0x00, 0xEE]);
    assert_eq!(c.cpu.sp(), 0);
    c.tick(None).unwrap();
    assert_eq!(c.cpu.sp(), 1);
    assert_eq!(c.cpu.pc, 0x206);
    c.tick(None).unwrap();
    assert_eq!(c.cpu.sp(), 0);
    assert_eq!(c.cpu.pc, 0x202);
    c.tick(None).unwrap();
    assert_eq!(c.cpu.reg(0x0), 7);
}

#[test]
fn font_glyph_addresses() {
    for d in 0u8..16 {
        assert_eq!(fontaddr(d), d as u16 * 5);
    }
    let mut c = machine(&[0x6A, 0x0B, 0xFA, 0x29]);
    steps(&mut c, 2);
    assert_eq!(c.cpu.index(), 55);
    assert_eq!(c.ram.read(55), 0xE0);
}

#[test]
fn load_puts_font_and_program() {
    let mut r = Ram::new();
    r.load(&[0xAB, 0xCD]).unwrap();
    assert_eq!(r.read(0), 0xF0);
    assert_eq!(r.read(79), 0x80);
    assert_eq!(r.read(0x200), 0xAB);
    assert_eq!(r.read(0x201), 0xCD);
    assert_eq!(r.read(0x202), 0);
    assert_eq!(r.read_block(5, 5), vec![0x20, 0x60, 0x20, 0x20, 0x70]);
}

#[test]
fn load_largest_program() {
    let rom = vec![0x11u8; 0xDFF];
    let mut r = Ram::new();
    assert!(r.load(&rom).is_ok());
    assert_eq!(r.read(0xFFE), 0x11);
}

#[test]
fn load_refuses_oversized_program() {
    let rom = vec![0x11u8; 0xE00];
    let mut r = Ram::new();
    assert!(matches!(r.load(&rom), Err(Error::RomTooLarge(0xE00))));
    assert_eq!(r.read(0), 0);
    assert_eq!(r.read(0x200), 0);
}

#[test]
fn draw_twice_collides_second_time() {
    // V0 = 0, I = glyph 0, draw at (V0, V0) twice.
    let mut c = machine(&[0x60, 0x00, 0xF0, 0x29, 0xD0, 0x05, 0xD0, 0x05]);
    steps(&mut c, 3);
    assert_eq!(c.cpu.reg(0xF), 0);
    assert!(c.screen.pixel(0, 0));
    assert!(!c.screen.pixel(4, 0));
    steps(&mut c, 1);
    assert_eq!(c.cpu.reg(0xF), 1);
    assert!(!c.screen.pixel(0, 0));
}

#[test]
fn draw_drops_pixels_off_screen() {
    let mut s = Screen::new();
    let hit = s.draw(60, 31, &vec![0xFF, 0xFF]);
    assert_eq!(hit, 0);
    assert!(s.pixel(60, 31));
    assert!(s.pixel(63, 31));
    assert!(!s.pixel(0, 31));
    assert!(!s.pixel(60, 0));
    s.clear();
    assert!(!s.pixel(60, 31));
}

#[test]
fn clear_instruction_darkens_display() {
    let mut c = machine(&[0xF0, 0x29, 0xD0, 0x05, 0x00, 0xE0]);
    steps(&mut c, 2);
    assert!(c.screen.pixel(0, 0));
    steps(&mut c, 1);
    assert!(!c.screen.pixel(0, 0));
}

#[test]
fn delay_timer_drains_to_zero() {
    let t = DelayTimer::new();
    t.set(10);
    for _ in 0..10 {
        assert!(t.tick());
    }
    assert_eq!(t.get(), 0);
    assert!(t.tick());
    assert_eq!(t.get(), 0);
    assert_eq!(DelayTimer::decrement(0), 0);
    assert_eq!(DelayTimer::decrement(10), 9);
}

#[test]
fn timer_instructions_read_and_write() {
    let mut c = machine(&[0x60, 0x2A, 0xF0, 0x15, 0xF1, 0x07]);
    steps(&mut c, 2);
    assert_eq!(c.cpu.dt.get(), 0x2A);
    let shared = c.cpu.dt.share();
    shared.set(0x11);
    steps(&mut c, 1);
    assert_eq!(c.cpu.reg(0x1), 0x11);
}

#[test]
fn random_masked_by_immediate() {
    let mut c = machine(&[0xC0, 0x00, 0xC1, 0x0F]);
    steps(&mut c, 2);
    assert_eq!(c.cpu.reg(0x0), 0);
    assert!(c.cpu.reg(0x1) <= 0x0F);
}

#[test]
fn wait_for_key_repeats_until_pressed() {
    let mut c = machine(&[0xF3, 0x0A]);
    c.tick(None).unwrap();
    assert_eq!(c.cpu.pc, 0x200);
    c.tick(Some(Key(0x7))).unwrap();
    assert_eq!(c.cpu.pc, 0x202);
    assert_eq!(c.cpu.reg(0x3), 0x7);
    assert_eq!(c.cpu.key(), None);
}

#[test]
fn skip_if_key_consumes_it() {
    // V0 = 5; SKP V0; filler; SKNP V0
    let mut c = machine(&[0x60, 0x05, 0xE0, 0x9E, 0x00, 0x00, 0xE0, 0xA1]);
    c.tick(None).unwrap();
    c.tick(Some(Key(5))).unwrap();
    assert_eq!(c.cpu.pc, 0x206);
    assert_eq!(c.cpu.key(), None);
    c.tick(None).unwrap();
    assert_eq!(c.cpu.pc, 0x20A);
}

#[test]
fn key_other_than_register_stays_pending() {
    let mut c = machine(&[0x60, 0x05, 0xE0, 0x9E]);
    c.tick(None).unwrap();
    c.tick(Some(Key(4))).unwrap();
    assert_eq!(c.cpu.pc, 0x204);
    assert_eq!(c.cpu.key(), Some(Key(4)));
}

#[test]
fn index_and_block_copies() {
    // V0..V2 = 1,2,3; I = 0x300; store V0..V2; I += V2; V0..V2 = 0; I = 0x300; load V0..V2.
    let mut c = machine(&[
        0x60, 0x01, 0x61, 0x02, 0x62, 0x03, 0xA3, 0x00, 0xF2, 0x55, 0xF2, 0x1E, 0x60, 0x00, 0x61,
        0x00, 0x62, 0x00, 0xA3, 0x00, 0xF1, 0x65,
    ]);
    steps(&mut c, 6);
    assert_eq!((c.ram.read(0x300), c.ram.read(0x301), c.ram.read(0x302)), (1, 2, 3));
    assert_eq!(c.cpu.index(), 0x303);
    steps(&mut c, 5);
    assert_eq!((c.cpu.reg(0), c.cpu.reg(1), c.cpu.reg(2)), (1, 2, 0));
}

#[test]
fn jump_with_offset() {
    let mut c = machine(&[0x60, 0x04, 0xB3, 0x00]);
    steps(&mut c, 2);
    assert_eq!(c.cpu.pc, 0x304);
}

#[test]
fn return_on_empty_stack_faults() {
    let mut c = machine(&[0x00, 0xEE]);
    assert!(matches!(c.tick(None), Err(Error::StackUnderflow)));
    assert_eq!(c.cpu.pc, 0x200);
}

#[test]
fn seventeenth_call_faults() {
    let mut c = machine(&[0x22, 0x00]);
    steps(&mut c, 16);
    assert_eq!(c.cpu.sp(), 16);
    assert!(matches!(c.tick(None), Err(Error::StackOverflow)));
    assert_eq!(c.cpu.sp(), 16);
}

#[test]
fn unknown_opcode_faults() {
    let mut c = machine(&[0x50, 0x01]);
    assert!(matches!(c.tick(None), Err(Error::UnknownOpcode(0x5001))));
}

#[test]
fn draw_past_memory_faults() {
    let mut c = machine(&[0xAF, 0xFF, 0xD0, 0x02]);
    steps(&mut c, 1);
    assert!(matches!(c.tick(None), Err(Error::Addressing(0xFFF))));
}

#[test]
fn fetch_at_top_of_memory_faults() {
    let mut c = machine(&[0x1F, 0xFE]);
    steps(&mut c, 1);
    assert!(matches!(c.tick(None), Err(Error::Addressing(0xFFE))));
}

#[test]
fn run_stops_at_top_of_memory() {
    let mut c = machine(&[0x1F, 0xFE]);
    assert_eq!(c.run(100).unwrap(), 1);
    assert_eq!(c.cpu.pc, 0xFFE);
}

#[test]
fn run_stops_after_budget() {
    let mut c = machine(&[0x12, 0x00]);
    assert_eq!(c.run(5).unwrap(), 5);
}

#[test]
fn run_reports_fault() {
    let mut c = machine(&[0x00, 0xEE]);
    assert!(matches!(c.run(5), Err(Error::StackUnderflow)));
}

#[test]
fn decode_table() {
    assert_eq!(decode(0x00, 0xE0), Some(Instr::Cls));
    assert_eq!(decode(0x00, 0xEE), Some(Instr::Ret));
    assert_eq!(decode(0x01, 0x23), Some(Instr::Sys(0x123)));
    assert_eq!(decode(0x2A, 0xBC), Some(Instr::Call(0xABC)));
    assert_eq!(decode(0x7A, 0x05), Some(Instr::AddByte(0xA, 0x05)));
    assert_eq!(decode(0x8A, 0xBE), Some(Instr::Shl(0xA, 0xB)));
    assert_eq!(decode(0x8A, 0xB8), None);
    assert_eq!(decode(0xD1, 0x2F), Some(Instr::Drw(1, 2, 0xF)));
    assert_eq!(decode(0xF3, 0x65), Some(Instr::LdVxI(3)));
    assert_eq!(decode(0xF3, 0x66), None);
    assert_eq!(decode(0xE1, 0x9F), None);
}

#[test]
fn keyboard_mapping() {
    assert_eq!(Key::from('1'), Key(0x1));
    assert_eq!(Key::from('4'), Key(0xC));
    assert_eq!(Key::from('q'), Key(0x4));
    assert_eq!(Key::from('x'), Key(0x0));
    assert_eq!(Key::from('v'), Key(0xF));
    assert_eq!(Key::from('y'), Key(NO_KEY));
}

#[test]
fn outcome_kinds() {
    assert_ne!(Res::Next, Res::Skip);
    assert_eq!(Res::Jump(2), Res::Jump(2));
}

#[test]
fn bitarray_msb_first() {
    assert_eq!(bitarray(0xA1), vec![1, 0, 1, 0, 0, 0, 0, 1]);
    assert_eq!(bitarray(0x00), vec![0; 8]);
    assert_eq!(bitarray(0xFF), vec![1; 8]);
}

#[test]
fn run_at_guard_does_nothing() {
    let mut c = machine(&[0x1F, 0xFE]);
    steps(&mut c, 1);
    assert_eq!(c.run(5).unwrap(), 0);
    assert_eq!(c.cpu.pc, 0xFFE);
    assert_eq!(c.cpu.sp(), 0);
}
