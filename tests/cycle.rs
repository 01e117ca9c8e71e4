use chip8::machine::{FLAG_REGISTER, FONT_START, PROGRAM_START, RAM_SIZE};
use chip8::{Machine, MachineError, Rom};

fn program(words: &[u16]) -> Vec<u8> {
    let mut bytes = Vec::new();
    for w in words {
        bytes.push((w >> 8) as u8);
        bytes.push((w & 0xFF) as u8);
    }
    bytes
}

fn loaded(words: &[u16]) -> Machine {
    Rom::load(&program(words), Machine::new()).expect("program fits")
}

fn run(machine: &mut Machine, cycles: usize) {
    for _ in 0..cycles {
        machine.exec(0).expect("cycle succeeds");
    }
}

#[test]
fn new_machine_starts_at_program_start_with_font() {
    let m = Machine::new();
    assert_eq!(m.read_program_counter(), 0x200);
    assert_eq!(m.read_index_register(), 0);
    for i in 0..16 {
        assert_eq!(m.read_general_purpouse_registers(i), 0);
    }
    assert_eq!(m.read_ram(FONT_START), 0xF0);
    assert_eq!(m.read_ram(FONT_START + 5), 0x20);
    assert_eq!(m.read_ram(FONT_START + 79), 0x80);
    assert_eq!(m.read_ram(FONT_START + 80), 0);
    assert_eq!(m.read_ram(0x200), 0);
    assert!(m.screen().display.iter().all(|p| !p));
    assert_eq!(m.read_pressed_keys(), [false; 16]);
}

#[test]
fn add_program_runs_three_cycles() {
    let mut m = loaded(&[0x6005, 0x6103, 0x8014]);
    run(&mut m, 3);
    assert_eq!(m.read_general_purpouse_registers(0), 8);
    assert_eq!(m.read_general_purpouse_registers(1), 3);
    assert_eq!(m.read_general_purpouse_registers(FLAG_REGISTER), 0);
    assert_eq!(m.read_program_counter(), 0x206);
}

#[test]
fn cls_on_full_display_clears_it() {
    // Fill the whole display with 8 x 16 solid sprites, then clear it.
    let mut m = loaded(&[0x00E0]);
    let solid = [0xFFu8; 16];
    m.copy_to_ram(&solid, 0x300).unwrap();
    m.op_annn_movi(0x300);
    for row in 0..2u8 {
        for col in 0..8u8 {
            m.op_6xnn_mov(0, col * 8);
            m.op_6xnn_mov(1, row * 16);
            m.op_dxyn_drw(0, 1, 15).unwrap();
            m.op_6xnn_mov(1, row * 16 + 15);
            m.op_dxyn_drw(0, 1, 1).unwrap();
        }
    }
    assert!(m.screen().display.iter().all(|p| *p));
    run(&mut m, 1);
    assert!(m.screen().display.iter().all(|p| !p));
    assert_eq!(m.read_program_counter(), 0x202);
}

#[test]
fn unknown_word_is_reported_and_changes_nothing() {
    let mut m = loaded(&[0x6007, 0xFFFF]);
    run(&mut m, 1);
    let r = m.exec(0);
    assert_eq!(r, Err(MachineError::UnknownInstruction { word: 0xFFFF, address: 0x202 }));
    assert_eq!(m.read_program_counter(), 0x202);
    assert_eq!(m.read_general_purpouse_registers(0), 7);
}

#[test]
fn unknown_words_in_each_family() {
    for word in [0x5121u16, 0x8128, 0x812F, 0x9121, 0xE100, 0xF1FF, 0xF100] {
        let mut m = loaded(&[word]);
        assert_eq!(
            m.exec(0),
            Err(MachineError::UnknownInstruction { word, address: PROGRAM_START })
        );
    }
}

#[test]
fn fetch_past_end_of_memory_fails() {
    let mut m = Machine::new();
    m.write_to_program_counter(0x0FFF);
    assert_eq!(m.exec(0), Err(MachineError::MemoryOutOfBounds { address: 0x0FFF }));
    assert_eq!(m.read_program_counter(), 0x0FFF);
    m.write_to_program_counter(0x0FFE);
    // 0x0FFE holds 0x0000, a SYS instruction, which does nothing.
    assert_eq!(m.exec(0), Ok(()));
    assert_eq!(m.read_program_counter(), 0x1000);
}

#[test]
fn jump_call_and_return() {
    // 0x200: CALL 0x208; 0x202: LD V2, 0x22; 0x204: JP 0x204 (loop)
    // 0x206: (unused); 0x208: LD V1, 0x11; 0x20A: RET
    let mut m = loaded(&[0x2208, 0x6222, 0x1204, 0x0000, 0x6111, 0x00EE]);
    run(&mut m, 1);
    assert_eq!(m.read_program_counter(), 0x208);
    run(&mut m, 2);
    assert_eq!(m.read_general_purpouse_registers(1), 0x11);
    assert_eq!(m.read_program_counter(), 0x202);
    run(&mut m, 2);
    assert_eq!(m.read_general_purpouse_registers(2), 0x22);
    assert_eq!(m.read_program_counter(), 0x204);
    run(&mut m, 1);
    assert_eq!(m.read_program_counter(), 0x204);
}

#[test]
fn return_on_empty_stack_fails() {
    let mut m = loaded(&[0x00EE]);
    assert_eq!(m.exec(0), Err(MachineError::StackUnderflow));
    assert_eq!(m.read_program_counter(), 0x200);
    assert_eq!(m.pop_from_stack(), Err(MachineError::StackUnderflow));
}

#[test]
fn seventeenth_call_overflows_the_stack() {
    // CALL 0x200 calls itself forever.
    let mut m = loaded(&[0x2200]);
    run(&mut m, 16);
    assert_eq!(m.exec(0), Err(MachineError::StackOverflow));
    assert_eq!(m.read_program_counter(), 0x200);
    assert_eq!(m.pop_from_stack(), Ok(0x202));
}

#[test]
fn stack_is_last_in_first_out() {
    let mut m = Machine::new();
    m.push_to_stack(1).unwrap();
    m.push_to_stack(2).unwrap();
    assert_eq!(m.pop_from_stack(), Ok(2));
    assert_eq!(m.pop_from_stack(), Ok(1));
    assert_eq!(m.pop_from_stack(), Err(MachineError::StackUnderflow));
}

#[test]
fn skips_advance_by_one_instruction() {
    let mut m = loaded(&[0x3000, 0xFFFF, 0x4001, 0xFFFF, 0x5010, 0xFFFF, 0x9010, 0x6001, 0x9010, 0xFFFF, 0x6505]);
    run(&mut m, 4);
    // SE V0, 0 skipped; SNE V0, 1 skipped; SE V0, V1 skipped; SNE V0, V1 did not skip.
    assert_eq!(m.read_program_counter(), 0x20E);
    run(&mut m, 2);
    // LD V0, 1 then SNE V0, V1 skips.
    assert_eq!(m.read_program_counter(), 0x214);
    run(&mut m, 1);
    assert_eq!(m.read_general_purpouse_registers(5), 5);
}

#[test]
fn jump_plus_v0() {
    let mut m = loaded(&[0x6010, 0xB300]);
    run(&mut m, 2);
    assert_eq!(m.read_program_counter(), 0x310);
}

#[test]
fn random_byte_is_masked() {
    let mut m = loaded(&[0xC30F]);
    m.exec(0xAB).unwrap();
    assert_eq!(m.read_general_purpouse_registers(3), 0x0B);
}

#[test]
fn wait_key_repeats_until_a_key_is_held() {
    let mut m = loaded(&[0xF40A]);
    run(&mut m, 3);
    assert_eq!(m.read_program_counter(), 0x200);
    m.set_pressed_keys(9);
    m.set_pressed_keys(5);
    run(&mut m, 1);
    assert_eq!(m.read_general_purpouse_registers(4), 5);
    assert_eq!(m.read_program_counter(), 0x202);
}

#[test]
fn skip_on_key() {
    let mut m = Machine::new();
    m.op_6xnn_mov(0, 7);
    m.op_ex9e_skprs(0);
    assert_eq!(m.read_program_counter(), 0x200);
    m.op_exa1_sknprs(0);
    assert_eq!(m.read_program_counter(), 0x202);
    m.set_pressed_keys(7);
    m.op_ex9e_skprs(0);
    assert_eq!(m.read_program_counter(), 0x204);
    m.op_exa1_sknprs(0);
    assert_eq!(m.read_program_counter(), 0x204);
    m.unset_pressed_keys(7);
    m.op_ex9e_skprs(0);
    assert_eq!(m.read_program_counter(), 0x204);
}

#[test]
fn keys_above_fifteen_are_never_held() {
    let mut m = Machine::new();
    for k in 0..16 {
        m.set_pressed_keys(k);
    }
    m.op_6xnn_mov(0, 16);
    m.op_ex9e_skprs(0);
    assert_eq!(m.read_program_counter(), 0x200);
    m.op_exa1_sknprs(0);
    assert_eq!(m.read_program_counter(), 0x202);
}

#[test]
fn timers() {
    let mut m = loaded(&[0x6A03, 0xFA15, 0xFA18, 0xFB07]);
    run(&mut m, 3);
    assert_eq!(m.read_delay_timer(), 3);
    assert_eq!(m.read_sound_timer(), 3);
    m.decrement_delay_timer();
    m.decrement_sound_timer();
    m.decrement_sound_timer();
    m.decrement_sound_timer();
    m.decrement_sound_timer();
    assert_eq!(m.read_delay_timer(), 2);
    assert_eq!(m.read_sound_timer(), 0);
    run(&mut m, 1);
    assert_eq!(m.read_general_purpouse_registers(0xB), 2);
}

#[test]
fn load_program_copies_bytes_at_program_start() {
    let m = Rom::load(&[0x12, 0x34, 0x56], Machine::new()).unwrap();
    assert_eq!(m.read_ram(0x200), 0x12);
    assert_eq!(m.read_ram(0x201), 0x34);
    assert_eq!(m.read_ram(0x202), 0x56);
    assert_eq!(m.read_ram(0x203), 0);
}

#[test]
fn largest_program_fits_and_one_more_byte_does_not() {
    let largest = vec![0xAAu8; RAM_SIZE - 0x200];
    let m = Rom::load(&largest, Machine::new()).unwrap();
    assert_eq!(m.read_ram(0x0FFF), 0xAA);
    let too_large = vec![0xAAu8; RAM_SIZE - 0x200 + 1];
    assert_eq!(
        Rom::load(&too_large, Machine::new()).err(),
        Some(MachineError::ProgramTooLarge { start_address: 0x200, length: RAM_SIZE - 0x200 + 1 })
    );
}

#[test]
fn copy_to_ram_past_the_end_changes_nothing() {
    let mut m = Machine::new();
    assert_eq!(
        m.copy_to_ram(&[1, 2, 3], 0x0FFE),
        Err(MachineError::MemoryOutOfBounds { address: 0x0FFE })
    );
    assert_eq!(m.read_ram(0x0FFE), 0);
    assert_eq!(m.copy_to_ram(&[1, 2], 0x0FFE), Ok(()));
    assert_eq!(m.read_ram(0x0FFF), 2);
}
