use chip8::emulator::{Emulator, ProgramFault, StepResult, Variant};

fn machine(variant: Variant) -> Emulator {
    Emulator::new(variant, 1)
}

/// Write one instruction word at the program counter and execute it.
fn exec_word(em: &mut Emulator, word: u16) -> StepResult {
    let pc = em.program_counter as usize;
    em.memory[pc] = (word >> 8) as u8;
    em.memory[pc + 1] = (word & 0xFF) as u8;
    em.execute_instruction()
}

#[test]
fn add_with_carry_overflows_and_sets_flag() {
    let mut em = machine(Variant::SuperChip);
    em.registers[0] = 0xFF;
    em.registers[1] = 0x01;
    let r = exec_word(&mut em, 0x8014);
    assert_eq!(r, StepResult::Executed);
    assert_eq!(em.registers[0], 0x00);
    assert_eq!(em.registers[15], 1);
    assert_eq!(em.program_counter, 0x202);
}

#[test]
fn add_with_carry_no_overflow_clears_flag() {
    let mut em = machine(Variant::SuperChip);
    em.registers[0] = 0x12;
    em.registers[1] = 0x34;
    em.registers[15] = 1;
    exec_word(&mut em, 0x8014);
    assert_eq!(em.registers[0], 0x46);
    assert_eq!(em.registers[15], 0);
}

#[test]
fn subtract_without_borrow_sets_flag() {
    let mut em = machine(Variant::SuperChip);
    em.registers[2] = 0x0A;
    em.registers[3] = 0x05;
    exec_word(&mut em, 0x8235);
    assert_eq!(em.registers[2], 0x05);
    assert_eq!(em.registers[15], 1);
}

#[test]
fn subtract_with_borrow_clears_flag() {
    let mut em = machine(Variant::SuperChip);
    em.registers[2] = 0x05;
    em.registers[3] = 0x0A;
    exec_word(&mut em, 0x8235);
    assert_eq!(em.registers[2], 0xFB);
    assert_eq!(em.registers[15], 0);
}

#[test]
fn reverse_subtract_swaps_operands() {
    let mut em = machine(Variant::SuperChip);
    em.registers[2] = 0x05;
    em.registers[3] = 0x0A;
    exec_word(&mut em, 0x8237);
    assert_eq!(em.registers[2], 0x05);
    assert_eq!(em.registers[15], 1);
}

#[test]
fn shift_left_places_high_bit_in_flag() {
    let mut em = machine(Variant::SuperChip);
    em.registers[4] = 0b1000_0001;
    exec_word(&mut em, 0x845E);
    assert_eq!(em.registers[4], 0b0000_0010);
    assert_eq!(em.registers[15], 1);
}

#[test]
fn shift_right_places_low_bit_in_flag() {
    let mut em = machine(Variant::SuperChip);
    em.registers[4] = 0b0000_0011;
    exec_word(&mut em, 0x8456);
    assert_eq!(em.registers[4], 0b0000_0001);
    assert_eq!(em.registers[15], 1);
}

#[test]
fn base_architecture_shifts_copy_source_register() {
    let mut em = machine(Variant::CosmacVip);
    em.registers[4] = 0x00;
    em.registers[5] = 0b0000_0010;
    exec_word(&mut em, 0x8456);
    assert_eq!(em.registers[4], 0b0000_0001);
    assert_eq!(em.registers[15], 0);
}

#[test]
fn logic_ops_reset_flag_only_on_base_architecture() {
    let mut em = machine(Variant::CosmacVip);
    em.registers[0] = 0x0F;
    em.registers[1] = 0xF0;
    em.registers[15] = 7;
    exec_word(&mut em, 0x8011);
    assert_eq!(em.registers[0], 0xFF);
    assert_eq!(em.registers[15], 0);

    let mut em2 = machine(Variant::SuperChip);
    em2.registers[0] = 0x0F;
    em2.registers[1] = 0xF0;
    em2.registers[15] = 7;
    exec_word(&mut em2, 0x8011);
    assert_eq!(em2.registers[0], 0xFF);
    assert_eq!(em2.registers[15], 7);
}

#[test]
fn load_and_add_immediate_wrap() {
    let mut em = machine(Variant::SuperChip);
    exec_word(&mut em, 0x60FE);
    assert_eq!(em.registers[0], 0xFE);
    exec_word(&mut em, 0x7005);
    assert_eq!(em.registers[0], 0x03);
    assert_eq!(em.registers[15], 0);
}

#[test]
fn skip_if_equal_immediate_advances_twice() {
    let mut em = machine(Variant::SuperChip);
    em.registers[1] = 0x42;
    exec_word(&mut em, 0x3142);
    assert_eq!(em.program_counter, 0x204);
    let mut em2 = machine(Variant::SuperChip);
    em2.registers[1] = 0x41;
    exec_word(&mut em2, 0x3142);
    assert_eq!(em2.program_counter, 0x202);
}

#[test]
fn skip_if_registers_equal_and_differ() {
    let mut em = machine(Variant::SuperChip);
    em.registers[1] = 9;
    em.registers[2] = 9;
    exec_word(&mut em, 0x5120);
    assert_eq!(em.program_counter, 0x204);
    exec_word(&mut em, 0x9120);
    assert_eq!(em.program_counter, 0x206);
}

#[test]
fn jump_and_indexed_jump() {
    let mut em = machine(Variant::SuperChip);
    let r = exec_word(&mut em, 0x1234);
    assert_eq!(r, StepResult::Executed);
    assert_eq!(em.program_counter, 0x234);

    let mut em2 = machine(Variant::SuperChip);
    em2.registers[0] = 0x10;
    exec_word(&mut em2, 0xB300);
    assert_eq!(em2.program_counter, 0x310);
}

#[test]
fn call_and_return_use_the_stack() {
    let mut em = machine(Variant::SuperChip);
    exec_word(&mut em, 0x2400);
    assert_eq!(em.program_counter, 0x400);
    assert_eq!(em.stack, vec![0x202]);
    let r = exec_word(&mut em, 0x00EE);
    assert_eq!(r, StepResult::Executed);
    assert_eq!(em.program_counter, 0x202);
    assert!(em.stack.is_empty());
}

#[test]
fn return_on_empty_stack_is_a_fault() {
    let mut em = machine(Variant::SuperChip);
    let r = exec_word(&mut em, 0x00EE);
    assert_eq!(
        r,
        StepResult::Fault { fault: ProgramFault::StackUnderflow }
    );
    assert_eq!(em.program_counter, 0x200);
}

#[test]
fn call_past_capacity_is_a_fault() {
    let mut em = machine(Variant::SuperChip);
    for _ in 0..16 {
        let r = exec_word(&mut em, 0x2200);
        assert_eq!(r, StepResult::Executed);
    }
    assert_eq!(em.stack.len(), 16);
    let r = exec_word(&mut em, 0x2200);
    assert_eq!(r, StepResult::Fault { fault: ProgramFault::StackOverflow });
}

#[test]
fn fetch_outside_memory_ends_the_program() {
    let mut em = machine(Variant::SuperChip);
    em.program_counter = 4095;
    let r = em.execute_instruction();
    assert_eq!(r, StepResult::Fault { fault: ProgramFault::OutOfBounds });
    assert_eq!(em.program_counter, 4095);
}

#[test]
fn unknown_opcode_is_a_reported_no_op() {
    let mut em = machine(Variant::SuperChip);
    em.registers[3] = 9;
    let r = exec_word(&mut em, 0x83F8);
    assert_eq!(r, StepResult::UnknownOpcode { word: 0x83F8 });
    assert_eq!(em.registers[3], 9);
    assert_eq!(em.program_counter, 0x202);
}

#[test]
fn set_index_and_add_index_wrap() {
    let mut em = machine(Variant::SuperChip);
    exec_word(&mut em, 0xA123);
    assert_eq!(em.i_register, 0x123);
    em.i_register = 0xFFFF;
    em.registers[2] = 3;
    exec_word(&mut em, 0xF21E);
    assert_eq!(em.i_register, 2);
}

#[test]
fn font_character_masks_only_on_base_architecture() {
    let mut em = machine(Variant::CosmacVip);
    em.registers[6] = 0x12;
    exec_word(&mut em, 0xF629);
    assert_eq!(em.i_register, 10);

    let mut em2 = machine(Variant::SuperChip);
    em2.registers[6] = 0x12;
    exec_word(&mut em2, 0xF629);
    assert_eq!(em2.i_register, 90);
}

#[test]
fn binary_coded_decimal_splits_digits() {
    let mut em = machine(Variant::SuperChip);
    em.registers[7] = 156;
    em.i_register = 0x300;
    exec_word(&mut em, 0xF733);
    assert_eq!(em.memory[0x300], 1);
    assert_eq!(em.memory[0x301], 5);
    assert_eq!(em.memory[0x302], 6);
}

#[test]
fn bulk_store_advances_index_only_on_base_architecture() {
    let mut em = machine(Variant::CosmacVip);
    for i in 0..4 {
        em.registers[i] = 10 + i as u8;
    }
    em.i_register = 0x300;
    exec_word(&mut em, 0xF355);
    assert_eq!(&em.memory[0x300..0x304], &[10, 11, 12, 13]);
    assert_eq!(em.i_register, 0x304);

    let mut em2 = machine(Variant::SuperChip);
    for i in 0..4 {
        em2.registers[i] = 10 + i as u8;
    }
    em2.i_register = 0x300;
    exec_word(&mut em2, 0xF355);
    assert_eq!(&em2.memory[0x300..0x304], &[10, 11, 12, 13]);
    assert_eq!(em2.i_register, 0x300);
}

#[test]
fn bulk_load_reads_memory_and_advances_index_on_base_architecture() {
    let mut em = machine(Variant::CosmacVip);
    em.i_register = 0x340;
    em.memory[0x340] = 4;
    em.memory[0x341] = 5;
    em.memory[0x342] = 6;
    exec_word(&mut em, 0xF265);
    assert_eq!(&em.registers[0..3], &[4, 5, 6]);
    assert_eq!(em.i_register, 0x343);

    let mut em2 = machine(Variant::SuperChip);
    em2.i_register = 0x340;
    em2.memory[0x340] = 4;
    exec_word(&mut em2, 0xF065);
    assert_eq!(em2.registers[0], 4);
    assert_eq!(em2.i_register, 0x340);
}

#[test]
fn delay_and_sound_timers_copy_registers() {
    let mut em = machine(Variant::SuperChip);
    em.registers[1] = 42;
    exec_word(&mut em, 0xF115);
    assert_eq!(em.delay_timer, 42);
    em.registers[2] = 7;
    exec_word(&mut em, 0xF218);
    assert_eq!(em.sound_timer, 7);
    exec_word(&mut em, 0xF307);
    assert_eq!(em.registers[3], 42);
}

#[test]
fn random_masks_with_immediate_and_is_seed_deterministic() {
    let mut em = machine(Variant::SuperChip);
    exec_word(&mut em, 0xC500);
    assert_eq!(em.registers[5], 0);

    let mut a = Emulator::new(Variant::SuperChip, 77);
    let mut b = Emulator::new(Variant::SuperChip, 77);
    let ra = exec_word(&mut a, 0xC6FF);
    let rb = exec_word(&mut b, 0xC6FF);
    assert_eq!(ra, StepResult::Executed);
    assert_eq!(rb, StepResult::Executed);
    assert_eq!(a.registers[6], b.registers[6]);
}

#[test]
fn key_skips_test_the_key_selected_by_the_register() {
    let mut em = machine(Variant::SuperChip);
    em.registers[0] = 0x05;
    em.set_key(5, true);
    exec_word(&mut em, 0xE09E);
    assert_eq!(em.program_counter, 0x204);
    exec_word(&mut em, 0xE0A1);
    assert_eq!(em.program_counter, 0x206);
    em.set_key(5, false);
    exec_word(&mut em, 0xE0A1);
    assert_eq!(em.program_counter, 0x20A);
}

#[test]
fn wait_key_blocks_until_a_key_and_stores_its_index() {
    let mut em = machine(Variant::SuperChip);
    let r = exec_word(&mut em, 0xF30A);
    assert_eq!(r, StepResult::WaitingForKey);
    assert_eq!(em.program_counter, 0x200);
    assert_eq!(em.registers[3], 0);

    // The key vector stays externally writable while the caller polls.
    em.set_key(9, true);
    let r2 = em.execute_instruction();
    assert_eq!(r2, StepResult::Executed);
    assert_eq!(em.registers[3], 9);
    assert_eq!(em.program_counter, 0x202);
}

#[test]
fn wait_key_stores_the_lowest_pressed_key() {
    let mut em = machine(Variant::SuperChip);
    em.set_key(11, true);
    em.set_key(4, true);
    let r = exec_word(&mut em, 0xF00A);
    assert_eq!(r, StepResult::Executed);
    assert_eq!(em.registers[0], 4);
}
