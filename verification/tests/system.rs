use chip8::control::{batch_sleep_ms, run_control, toggle_pause, RunControl, BATCH_MILLIS};
use chip8::decode::{decode, Instruction};
use chip8::emulator::{Emulator, Variant};
use chip8::loader::{calculate_hash, map_hash_to_variant, ConfigError, GLYPHS};
use chip8::timer::timer_tick;
use chip8::Status;

#[test]
fn new_machine_starts_zeroed_at_the_load_offset() {
    let em = Emulator::new(Variant::CosmacVip, 0);
    assert_eq!(em.program_counter, 0x200);
    assert_eq!(em.i_register, 0);
    assert!(em.stack.is_empty());
    assert!(em.registers.iter().all(|&v| v == 0));
    assert!(em.memory.iter().all(|&v| v == 0));
    assert!(em.keys.iter().all(|&k| !k));
    assert_eq!(em.delay_timer, 0);
    assert_eq!(em.sound_timer, 0);
    assert_eq!(em.variant, Variant::CosmacVip);
}

#[test]
fn load_program_places_glyphs_and_image() {
    let mut em = Emulator::new(Variant::CosmacVip, 0);
    let image = vec![0x12, 0x34, 0x56];
    assert!(em.load_program(&image).is_ok());
    assert_eq!(&em.memory[0..80], &GLYPHS[..]);
    assert!(em.memory[80..0x200].iter().all(|&v| v == 0));
    assert_eq!(&em.memory[0x200..0x203], &[0x12, 0x34, 0x56]);
    assert!(em.memory[0x203..].iter().all(|&v| v == 0));
}

#[test]
fn load_program_rejects_an_oversized_image() {
    let mut em = Emulator::new(Variant::CosmacVip, 0);
    let image = vec![0u8; 3585];
    assert_eq!(em.load_program(&image), Err(ConfigError::ImageTooLarge));
    assert!(em.memory.iter().all(|&v| v == 0));
    let exact = vec![0u8; 3584];
    assert!(em.load_program(&exact).is_ok());
}

#[test]
fn hash_of_an_empty_image_is_zero() {
    let mut em = Emulator::new(Variant::CosmacVip, 0);
    em.load_program(&Vec::new()).unwrap();
    assert_eq!(calculate_hash(&em.memory), 0);
}

#[test]
fn hash_ors_shifted_bytes_and_xors_blocks() {
    let mut em = Emulator::new(Variant::CosmacVip, 0);
    // Block 0: bytes 0 and 4 both land at shift 0, byte 1 at shift 8.
    // Block 1: byte 8 lands at shift 0.
    let image = vec![0x01, 0x02, 0, 0, 0x04, 0, 0, 0, 0x10];
    em.load_program(&image).unwrap();
    let word0: u64 = 0x01 | (0x02 << 8) | 0x04;
    let word1: u64 = 0x10;
    assert_eq!(calculate_hash(&em.memory), word0 ^ word1);
}

#[test]
fn known_digest_selects_the_extended_dialect() {
    let mut em = Emulator::new(Variant::CosmacVip, 0);
    // Little-endian-by-shift bytes of 0x2d0e7c46 in block 0.
    let image = vec![0x46, 0x7C, 0x0E, 0x2D];
    em.load_program(&image).unwrap();
    assert_eq!(calculate_hash(&em.memory), 0x2d0e7c46);
    assert_eq!(map_hash_to_variant(&em.memory), Variant::SuperChip);
}

#[test]
fn unknown_digest_selects_the_base_dialect() {
    let mut em = Emulator::new(Variant::CosmacVip, 0);
    em.load_program(&vec![0x99, 0x99]).unwrap();
    assert_eq!(map_hash_to_variant(&em.memory), Variant::CosmacVip);
}

#[test]
fn decode_classifies_representative_words() {
    assert_eq!(decode(0x00E0), Instruction::ClearScreen);
    assert_eq!(decode(0x00EE), Instruction::Return);
    assert_eq!(decode(0x1ABC), Instruction::Jump { nnn: 0xABC });
    assert_eq!(decode(0x2ABC), Instruction::Call { nnn: 0xABC });
    assert_eq!(decode(0x3A7F), Instruction::SkipEqImm { x: 0xA, kk: 0x7F });
    assert_eq!(decode(0x8124), Instruction::AddCarry { x: 1, y: 2 });
    assert_eq!(decode(0x8AB6), Instruction::ShiftRight { x: 0xA, y: 0xB });
    assert_eq!(decode(0xD123), Instruction::Draw { x: 1, y: 2, n: 3 });
    assert_eq!(decode(0xE59E), Instruction::SkipKey { x: 5 });
    assert_eq!(decode(0xF70A), Instruction::WaitKey { x: 7 });
    assert_eq!(decode(0xF533), Instruction::StoreDigits { x: 5 });
    assert_eq!(decode(0x8129), Instruction::Unknown { word: 0x8129 });
    assert_eq!(decode(0x0123), Instruction::Unknown { word: 0x0123 });
    assert_eq!(decode(0xFF99), Instruction::Unknown { word: 0xFF99 });
}

#[test]
fn timer_counts_down_only_while_running() {
    let mut v: u8 = 5;
    for expected in [4, 3, 2, 1, 0] {
        let (nv, keep) = timer_tick(&Status::Running, v);
        assert!(keep);
        assert_eq!(nv, expected);
        v = nv;
    }
    // Clamped at zero, never negative.
    let (nv, keep) = timer_tick(&Status::Running, 0);
    assert!(keep);
    assert_eq!(nv, 0);
}

#[test]
fn paused_and_starting_hold_the_timer_steady() {
    for _ in 0..10 {
        let (nv, keep) = timer_tick(&Status::Paused, 9);
        assert!(keep);
        assert_eq!(nv, 9);
    }
    let (nv, keep) = timer_tick(&Status::Starting, 9);
    assert!(keep);
    assert_eq!(nv, 9);
}

#[test]
fn stopped_commands_timer_exit_and_holds_the_counter() {
    let (nv, keep) = timer_tick(&Status::Stopped, 9);
    assert!(!keep);
    assert_eq!(nv, 9);
}

#[test]
fn run_control_maps_each_status() {
    assert_eq!(run_control(&Status::Running), RunControl::Proceed);
    assert_eq!(run_control(&Status::Stopped), RunControl::Terminate);
    assert_eq!(run_control(&Status::Paused), RunControl::Idle);
    assert_eq!(run_control(&Status::Starting), RunControl::Idle);
}

#[test]
fn pause_toggles_between_running_and_paused_only() {
    assert_eq!(toggle_pause(&Status::Running), Status::Paused);
    assert_eq!(toggle_pause(&Status::Paused), Status::Running);
    assert_eq!(toggle_pause(&Status::Starting), Status::Starting);
    assert_eq!(toggle_pause(&Status::Stopped), Status::Stopped);
}

#[test]
fn batch_sleep_fills_the_remainder_of_the_batch_budget() {
    assert_eq!(BATCH_MILLIS, 26);
    assert_eq!(batch_sleep_ms(0), 26);
    assert_eq!(batch_sleep_ms(20), 6);
    assert_eq!(batch_sleep_ms(26), 0);
    assert_eq!(batch_sleep_ms(100), 0);
}

#[test]
fn set_key_changes_only_the_requested_key() {
    let mut em = Emulator::new(Variant::CosmacVip, 0);
    em.set_key(3, true);
    for k in 0..16 {
        assert_eq!(em.keys[k], k == 3);
    }
    em.set_key(3, false);
    assert!(em.keys.iter().all(|&k| !k));
}
