use chip8::machine::FLAG_REGISTER;
use chip8::{Machine, Screen};

fn pixel(m: &Machine, col: usize, row: usize) -> bool {
    m.screen().display[row * 64 + col]
}

#[test]
fn new_screen_is_blank() {
    let s = Screen::new();
    assert!(s.display.iter().all(|p| !p));
}

#[test]
fn blit_toggles_and_reports_collision() {
    let mut s = Screen::new();
    assert!(!s.update_screen_state(0, 0, vec![0b1000_0001]));
    assert!(s.display[0]);
    assert!(s.display[7]);
    assert!(!s.display[1]);
    assert!(s.update_screen_state(7, 0, vec![0b1000_0000]));
    assert!(!s.display[7]);
    assert!(!s.update_screen_state(1, 0, vec![0b1000_0000]));
    assert!(s.display[1]);
}

#[test]
fn clear_screen_turns_every_pixel_off() {
    let mut s = Screen::new();
    s.update_screen_state(10, 10, vec![0xFF, 0xFF, 0xFF]);
    s.clear_screen();
    assert!(s.display.iter().all(|p| !p));
}

#[test]
fn sprite_is_clipped_at_the_edges_and_start_wraps() {
    let mut s = Screen::new();
    s.update_screen_state(60, 31, vec![0xFF, 0xFF]);
    let lit: usize = s.display.iter().filter(|p| **p).count();
    assert_eq!(lit, 4);
    assert!(s.display[31 * 64 + 63]);
    assert!(!s.display[0]);
    let mut s = Screen::new();
    s.update_screen_state(64 + 2, 32 + 1, vec![0x80]);
    assert!(s.display[64 + 2]);
}

#[test]
fn draw_twice_restores_display() {
    let mut m = Machine::new();
    m.copy_to_ram(&[0x3C, 0xC3, 0xFF], 0x300).unwrap();
    m.op_annn_movi(0x300);
    m.op_6xnn_mov(1, 10);
    m.op_6xnn_mov(2, 5);
    // Something already on the display where the sprite goes.
    m.op_6xnn_mov(3, 12);
    m.op_dxyn_drw(3, 2, 1).unwrap();
    let before = m.screen().display;
    m.op_dxyn_drw(1, 2, 3).unwrap();
    assert_eq!(m.read_general_purpouse_registers(FLAG_REGISTER), 1);
    assert_ne!(m.screen().display, before);
    m.op_dxyn_drw(1, 2, 3).unwrap();
    assert_eq!(m.screen().display, before);
    assert_eq!(m.read_general_purpouse_registers(FLAG_REGISTER), 1);
}

#[test]
fn draw_on_blank_display_has_no_collision_then_erases_with_one() {
    let mut m = Machine::new();
    m.op_6xnn_mov(0, 0xE);
    m.op_fx29(0);
    m.op_dxyn_drw(1, 2, 5).unwrap();
    assert_eq!(m.read_general_purpouse_registers(FLAG_REGISTER), 0);
    // Glyph E: F0 80 F0 80 F0
    assert!(pixel(&m, 0, 0) && pixel(&m, 3, 0) && !pixel(&m, 4, 0));
    assert!(pixel(&m, 0, 1) && !pixel(&m, 1, 1));
    m.op_dxyn_drw(1, 2, 5).unwrap();
    assert_eq!(m.read_general_purpouse_registers(FLAG_REGISTER), 1);
    assert!(m.screen().display.iter().all(|p| !p));
}

#[test]
fn draw_with_zero_rows_draws_nothing() {
    let mut m = Machine::new();
    m.op_6xnn_mov(15, 1);
    m.op_dxyn_drw(1, 2, 0).unwrap();
    assert_eq!(m.read_general_purpouse_registers(FLAG_REGISTER), 0);
    assert!(m.screen().display.iter().all(|p| !p));
}

#[test]
fn draw_past_end_of_memory_fails() {
    let mut m = Machine::new();
    m.op_annn_movi(0xFFE);
    m.op_6xnn_mov(15, 7);
    assert!(m.op_dxyn_drw(1, 2, 3).is_err());
    assert_eq!(m.read_general_purpouse_registers(FLAG_REGISTER), 7);
    assert!(m.screen().display.iter().all(|p| !p));
}
