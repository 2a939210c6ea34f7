use chip8::emulator::{Emulator, StepResult, Variant};

fn machine() -> Emulator {
    Emulator::new(Variant::SuperChip, 1)
}

fn lit_cells(em: &Emulator) -> Vec<(usize, usize)> {
    let mut lit = Vec::new();
    for row in 0..32 {
        for col in 0..64 {
            if em.pixel(row, col) {
                lit.push((row, col));
            }
        }
    }
    lit
}

#[test]
fn draw_sets_pixels_and_reports_no_collision_on_blank_screen() {
    let mut em = machine();
    em.i_register = 0x400;
    em.memory[0x400] = 0b1010_0000;
    em.registers[0] = 4; // x
    em.registers[1] = 2; // y
    let collision = em.draw_sprite(0, 1, 1);
    assert!(!collision);
    assert!(em.pixel(2, 4));
    assert!(!em.pixel(2, 5));
    assert!(em.pixel(2, 6));
    assert_eq!(lit_cells(&em).len(), 2);
}

#[test]
fn drawing_twice_restores_the_display_and_collides() {
    let mut em = machine();
    em.i_register = 0x400;
    em.memory[0x400] = 0xFF;
    em.memory[0x401] = 0x81;
    em.registers[0] = 10;
    em.registers[1] = 20;
    let first = em.draw_sprite(0, 1, 2);
    assert!(!first);
    assert!(!lit_cells(&em).is_empty());
    let second = em.draw_sprite(0, 1, 2);
    assert!(second);
    assert!(lit_cells(&em).is_empty());
}

#[test]
fn draw_wraps_around_both_edges() {
    let mut em = machine();
    em.i_register = 0x400;
    for i in 0..4 {
        em.memory[0x400 + i] = 0xFF;
    }
    em.registers[0] = 60;
    em.registers[1] = 30;
    let collision = em.draw_sprite(0, 1, 4);
    assert!(!collision);
    let mut expected = Vec::new();
    for &row in &[30usize, 31, 0, 1] {
        for &col in &[60usize, 61, 62, 63, 0, 1, 2, 3] {
            expected.push((row, col));
        }
    }
    let lit = lit_cells(&em);
    assert_eq!(lit.len(), 32);
    for cell in expected {
        assert!(lit.contains(&cell));
    }
}

#[test]
fn draw_collision_flag_reaches_the_flag_register() {
    let mut em = machine();
    em.i_register = 0x400;
    em.memory[0x400] = 0x80;
    em.registers[0] = 0;
    em.registers[1] = 0;
    // D011: draw a 1-row sprite at (V0, V1).
    em.memory[0x200] = 0xD0;
    em.memory[0x201] = 0x11;
    let r = em.execute_instruction();
    assert_eq!(r, StepResult::Executed);
    assert_eq!(em.registers[15], 0);
    assert!(em.pixel(0, 0));
    em.memory[0x202] = 0xD0;
    em.memory[0x203] = 0x11;
    let r2 = em.execute_instruction();
    assert_eq!(r2, StepResult::Executed);
    assert_eq!(em.registers[15], 1);
    assert!(!em.pixel(0, 0));
}

#[test]
fn clear_screen_blanks_every_cell() {
    let mut em = machine();
    em.i_register = 0x400;
    em.memory[0x400] = 0xFF;
    em.registers[0] = 3;
    em.registers[1] = 3;
    em.draw_sprite(0, 1, 1);
    assert!(!lit_cells(&em).is_empty());
    // 00E0 through the decoder.
    em.memory[0x200] = 0x00;
    em.memory[0x201] = 0xE0;
    let r = em.execute_instruction();
    assert_eq!(r, StepResult::Executed);
    assert!(lit_cells(&em).is_empty());
}

#[test]
fn zero_height_draw_touches_nothing_and_never_collides() {
    let mut em = machine();
    em.i_register = 0x400;
    em.memory[0x400] = 0xFF;
    em.registers[0] = 0;
    em.registers[1] = 0;
    let collision = em.draw_sprite(0, 1, 0);
    assert!(!collision);
    assert!(lit_cells(&em).is_empty());
}
