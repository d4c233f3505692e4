use lrchip8::chip8::Chip8;
use lrchip8::decode::{
    dec_addr, dec_byte, dec_family, dec_nibble, dec_x, dec_y, join_bytes, split_word,
};
use lrchip8::machine::{Fault, Progress, FONT_SET};
use lrchip8::rng::masked_byte;
use oorandom::Rand32;

fn loaded(rom16: &[u16]) -> Chip8 {
    let mut chip8 = Chip8::init(0);
    chip8.load16(rom16).unwrap();
    chip8
}

fn run(chip8: &mut Chip8, ticks: usize) {
    for _ in 0..ticks {
        assert_eq!(chip8.tick(), Ok(Progress::Completed));
    }
}

fn keys_down(down: &[usize]) -> [bool; 16] {
    let mut keys = [false; 16];
    for &k in down {
        keys[k] = true;
    }
    keys
}

#[test]
fn decode_fields() {
    assert_eq!(dec_family(0xD123), 0xD);
    assert_eq!(dec_x(0xD123), 1);
    assert_eq!(dec_y(0xD123), 2);
    assert_eq!(dec_nibble(0xD123), 3);
    assert_eq!(dec_byte(0xD123), 0x23);
    assert_eq!(dec_addr(0xD123), 0x123);
    assert_eq!(dec_x(0xFFFF), 15);
    assert_eq!(dec_addr(0xFFFF), 0xFFF);
    assert_eq!(dec_family(0x0FFF), 0);
}

#[test]
fn words_and_bytes() {
    assert_eq!(join_bytes(0x12, 0x34), 0x1234);
    assert_eq!(join_bytes(0xFF, 0x00), 0xFF00);
    assert_eq!(split_word(0x1234), (0x12, 0x34));
    assert_eq!(split_word(0x00FF), (0x00, 0xFF));
}

#[test]
fn fresh_machine_holds_the_font_and_nothing_else() {
    let chip8 = Chip8::init(7);
    assert_eq!(&chip8.memory()[..80], &FONT_SET[..]);
    assert_eq!(&chip8.memory()[..5], &[0xF0, 0x90, 0x90, 0x90, 0xF0]);
    assert_eq!(&chip8.memory()[75..80], &[0xF0, 0x80, 0xF0, 0x80, 0x80]);
    assert!(chip8.memory()[80..].iter().all(|&b| b == 0));
    assert_eq!(chip8.memory().len(), 4096);
    assert_eq!(chip8.registers(), [0u8; 16]);
    assert_eq!(chip8.stack(), [0u16; 16]);
    assert_eq!(chip8.video().len(), 2048);
    assert!(chip8.video().iter().all(|&b| b == 0));
    assert_eq!(chip8.video_cols(), 64);
    assert_eq!(chip8.video_rows(), 32);
    assert_eq!(chip8.index(), 0);
    assert_eq!(chip8.pc(), 0);
    assert_eq!(chip8.sp(), 0);
    assert_eq!(chip8.delay_timer(), 0);
    assert_eq!(chip8.sound_timer(), 0);
    assert!(!chip8.audio());
    assert!(!chip8.is_legacy());
    assert!(Chip8::init_with(7, true).is_legacy());
}

#[test]
fn fresh_machine_is_seeded() {
    assert_eq!(Chip8::init(0).rng_state(), Rand32::new(0).state());
    assert_eq!(Chip8::init(12345).rng_state(), Rand32::new(12345).state());
    assert_ne!(Chip8::init(12345).rng_state(), (12345, 12345));
}

#[test]
fn load_copies_the_program_and_sets_pc() {
    let mut chip8 = Chip8::init(0);
    assert_eq!(chip8.load(&[1, 2, 3]), Ok(()));
    assert_eq!(chip8.pc(), 0x200);
    assert_eq!(&chip8.memory()[0x1FF..0x204], &[0, 1, 2, 3, 0]);
    assert_eq!(&chip8.memory()[..80], &FONT_SET[..]);
}

#[test]
fn load_fills_memory_to_the_end() {
    let mut chip8 = Chip8::init(0);
    let rom = vec![0xAB; 4096 - 0x200];
    assert_eq!(chip8.load(&rom), Ok(()));
    assert_eq!(chip8.memory()[0xFFF], 0xAB);
    assert_eq!(chip8.memory()[0x1FF], 0);
}

#[test]
fn load_refuses_a_program_that_does_not_fit() {
    let mut chip8 = Chip8::init(0);
    let rom = vec![0xAB; 4096 - 0x200 + 1];
    assert_eq!(chip8.load(&rom), Err(Fault::ProgramTooLarge));
    assert_eq!(chip8.pc(), 0);
    assert!(chip8.memory()[0x200..].iter().all(|&b| b == 0));
}

#[test]
fn load16_stores_words_big_endian() {
    let mut chip8 = Chip8::init(0);
    assert_eq!(chip8.load16(&[0x1234, 0xABCD]), Ok(()));
    assert_eq!(&chip8.memory()[0x200..0x205], &[0x12, 0x34, 0xAB, 0xCD, 0]);
    assert_eq!(chip8.pc(), 0x200);
}

#[test]
fn load16_refuses_a_program_that_does_not_fit() {
    let mut chip8 = Chip8::init(0);
    assert_eq!(chip8.load16(&vec![0xFFFF; 1792]), Ok(()));
    let mut chip8 = Chip8::init(0);
    assert_eq!(chip8.load16(&vec![0xFFFF; 1793]), Err(Fault::ProgramTooLarge));
    assert!(chip8.memory()[0x200..].iter().all(|&b| b == 0));
}

#[test]
fn random_bytes_come_from_the_generator() {
    let mut expected = Rand32::new(99);
    let mut chip8 = Chip8::init(99);
    chip8.load16(&[0xC0FF, 0xC1FF, 0xC20F, 0xC300]).unwrap();
    run(&mut chip8, 4);
    let a = expected.rand_range(0..256) as u8;
    let b = expected.rand_range(0..256) as u8;
    let c = expected.rand_range(0..256) as u8;
    let _ = expected.rand_range(0..256);
    assert_eq!(chip8.registers()[0], a);
    assert_eq!(chip8.registers()[1], b);
    assert_eq!(chip8.registers()[2], c & 0x0F);
    assert_eq!(chip8.registers()[3], 0);
    assert_eq!(chip8.rng_state(), expected.state());
    assert_ne!(chip8.rng_state(), Rand32::new(99).state());
}

#[test]
fn random_mask() {
    assert_eq!(masked_byte(0xAB, 0xF0), 0xA0);
    assert_eq!(masked_byte(0xFF, 0x00), 0x00);
    assert_eq!(masked_byte(0x5A, 0xFF), 0x5A);
}

#[test]
fn write_keys_replaces_the_snapshot() {
    let mut chip8 = loaded(&[0x6005, 0xE09E, 0x0000, 0xE09E, 0xE0A1]);
    let mut snapshot = [false; 17];
    snapshot[5] = true;
    snapshot[16] = true;
    chip8.write_keys(&snapshot);
    run(&mut chip8, 2);
    assert_eq!(chip8.pc(), 0x206);
    chip8.write_keys(&keys_down(&[4, 6]));
    run(&mut chip8, 1);
    assert_eq!(chip8.pc(), 0x208);
    run(&mut chip8, 1);
    assert_eq!(chip8.pc(), 0x20C);
}

#[test]
fn key_test_on_a_register_that_names_no_key_is_a_fault() {
    let mut chip8 = loaded(&[0x6010, 0xE09E]);
    run(&mut chip8, 1);
    assert_eq!(chip8.tick(), Err(Fault::KeyOutOfRange));
    assert_eq!(chip8.pc(), 0x202);
    let mut chip8 = loaded(&[0x60FF, 0xE0A1]);
    run(&mut chip8, 1);
    assert_eq!(chip8.tick(), Err(Fault::KeyOutOfRange));
}

#[test]
fn key_wait_with_no_key_down_never_advances() {
    let mut chip8 = loaded(&[0xF30A]);
    for _ in 0..50 {
        assert_eq!(chip8.tick(), Ok(Progress::Retry));
        assert_eq!(chip8.pc(), 0x200);
        chip8.write_keys(&[false; 16]);
    }
    assert_eq!(chip8.registers()[3], 0);
}

#[test]
fn key_wait_completes_on_release() {
    let mut chip8 = loaded(&[0xF30A, 0x6001]);
    assert_eq!(chip8.tick(), Ok(Progress::Retry));
    chip8.write_keys(&keys_down(&[9, 0xB]));
    assert_eq!(chip8.tick(), Ok(Progress::Retry));
    assert_eq!(chip8.pc(), 0x200);
    assert_eq!(chip8.tick(), Ok(Progress::Retry));
    assert_eq!(chip8.pc(), 0x200);
    chip8.write_keys(&keys_down(&[0xB]));
    assert_eq!(chip8.tick(), Ok(Progress::Completed));
    assert_eq!(chip8.registers()[3], 9);
    assert_eq!(chip8.pc(), 0x202);
    assert_eq!(chip8.tick(), Ok(Progress::Completed));
    assert_eq!(chip8.pc(), 0x204);
    assert_eq!(chip8.registers()[0], 1);
}

#[test]
fn key_wait_holds_on_to_the_latched_key() {
    let mut chip8 = loaded(&[0xF00A, 0xF10A]);
    chip8.write_keys(&keys_down(&[7]));
    assert_eq!(chip8.tick(), Ok(Progress::Retry));
    chip8.write_keys(&keys_down(&[2, 7]));
    assert_eq!(chip8.tick(), Ok(Progress::Retry));
    chip8.write_keys(&keys_down(&[2]));
    assert_eq!(chip8.tick(), Ok(Progress::Completed));
    assert_eq!(chip8.registers()[0], 7);
    assert_eq!(chip8.tick(), Ok(Progress::Retry));
    chip8.write_keys(&[false; 16]);
    assert_eq!(chip8.tick(), Ok(Progress::Completed));
    assert_eq!(chip8.registers()[1], 2);
    assert_eq!(chip8.pc(), 0x204);
}

#[test]
fn draw_waits_for_the_frame_signal() {
    let mut chip8 = loaded(&[0xD001]);
    for _ in 0..3 {
        assert_eq!(chip8.tick(), Ok(Progress::Retry));
        assert_eq!(chip8.pc(), 0x200);
    }
    assert!(chip8.video().iter().all(|&b| b == 0));
    chip8.set_vblank(true);
    assert_eq!(chip8.tick(), Ok(Progress::Completed));
    assert_eq!(chip8.pc(), 0x202);
    assert_eq!(&chip8.video()[..8], &[1, 1, 1, 1, 0, 0, 0, 0]);
}

#[test]
fn draw_single_pixel_sets_then_clears() {
    let mut chip8 = loaded(&[0x6080, 0xA300, 0xF055, 0x600A, 0x6105, 0xD011, 0xD011]);
    chip8.set_vblank(true);
    run(&mut chip8, 6);
    assert_eq!(chip8.video()[5 * 64 + 10], 1);
    assert_eq!(chip8.registers()[0xF], 0);
    run(&mut chip8, 1);
    assert_eq!(chip8.video()[5 * 64 + 10], 0);
    assert_eq!(chip8.registers()[0xF], 1);
    assert!(chip8.video().iter().all(|&b| b == 0));
}

#[test]
fn draw_on_an_unset_cell_sets_it_without_collision() {
    let mut chip8 = loaded(&[0x6080, 0xA300, 0xF055, 0x600A, 0x6105, 0x6F09, 0xD011]);
    chip8.set_vblank(true);
    run(&mut chip8, 7);
    let cell = 5 * 64 + 10;
    assert_eq!(chip8.video()[cell], 1);
    assert_eq!(chip8.video().iter().filter(|&&b| b == 1).count(), 1);
    assert_eq!(chip8.registers()[0xF], 0);
}

#[test]
fn draw_on_a_set_cell_clears_it_with_collision() {
    let mut chip8 = loaded(&[0x6080, 0xA300, 0xF055, 0x600A, 0x6105, 0xD011]);
    chip8.set_vblank(true);
    chip8.set_pixel(5 * 64 + 10, true);
    chip8.set_pixel(5 * 64 + 11, true);
    run(&mut chip8, 6);
    assert_eq!(chip8.video()[5 * 64 + 10], 0);
    assert_eq!(chip8.video()[5 * 64 + 11], 1);
    assert_eq!(chip8.video().iter().filter(|&&b| b == 1).count(), 1);
    assert_eq!(chip8.registers()[0xF], 1);
}

#[test]
fn draw_twice_restores_the_framebuffer() {
    let mut chip8 = loaded(&[0x6003, 0x6102, 0xA005, 0xD015, 0xD015]);
    chip8.set_vblank(true);
    run(&mut chip8, 4);
    // The glyph of digit 1: 0x20, 0x60, 0x20, 0x20, 0x70.
    let lit: Vec<usize> =
        chip8.video().iter().enumerate().filter(|(_, &b)| b == 1).map(|(p, _)| p).collect();
    assert_eq!(
        lit,
        vec![
            2 * 64 + 5,
            3 * 64 + 4,
            3 * 64 + 5,
            4 * 64 + 5,
            5 * 64 + 5,
            6 * 64 + 4,
            6 * 64 + 5,
            6 * 64 + 6
        ]
    );
    assert_eq!(chip8.registers()[0xF], 0);
    run(&mut chip8, 1);
    assert!(chip8.video().iter().all(|&b| b == 0));
    assert_eq!(chip8.registers()[0xF], 1);
}

#[test]
fn draw_wraps_the_position_and_clips_the_sprite() {
    // Position (62 + 64, 30 + 32) wraps to (62, 30); the glyph of digit 0,
    // five rows of 0xF0 0x90 0x90 0x90 0xF0, keeps two rows and two columns.
    let mut chip8 = loaded(&[0x607E, 0x613E, 0xA000, 0xD015]);
    chip8.set_vblank(true);
    run(&mut chip8, 4);
    let lit: Vec<usize> =
        chip8.video().iter().enumerate().filter(|(_, &b)| b == 1).map(|(p, _)| p).collect();
    assert_eq!(lit, vec![30 * 64 + 62, 30 * 64 + 63, 31 * 64 + 62]);
    assert_eq!(chip8.registers()[0xF], 0);
}

#[test]
fn draw_of_no_rows_clears_the_flag() {
    let mut chip8 = loaded(&[0x6F01, 0xD000]);
    chip8.set_vblank(true);
    chip8.set_index(0xFFFF);
    run(&mut chip8, 2);
    assert_eq!(chip8.registers()[0xF], 0);
    assert!(chip8.video().iter().all(|&b| b == 0));
}

#[test]
fn draw_that_reads_past_memory_is_a_fault() {
    let mut chip8 = loaded(&[0x6F01, 0xD002, 0xD001]);
    chip8.set_vblank(true);
    chip8.set_index(0xFFF);
    run(&mut chip8, 1);
    assert_eq!(chip8.tick(), Err(Fault::AddressOutOfRange));
    assert_eq!(chip8.pc(), 0x202);
    assert_eq!(chip8.registers()[0xF], 1);
    chip8.load(&[0x6F, 0x01, 0xD0, 0x01]).unwrap();
    run(&mut chip8, 2);
    assert_eq!(chip8.registers()[0xF], 0);
}

#[test]
fn draw_clipped_rows_are_not_read() {
    // Row 31 leaves room for one sprite row: only one byte is read.
    let mut chip8 = loaded(&[0x611F, 0xD01F]);
    chip8.set_vblank(true);
    chip8.set_index(0xFFF);
    run(&mut chip8, 2);
    assert!(chip8.video().iter().all(|&b| b == 0));
}

#[test]
fn a_draw_is_masked_and_moves_the_generator() {
    let mut chip8 = Chip8::init(0);
    chip8.take_draw(4, 0x0F, (0xAB, 11, 22));
    assert_eq!(chip8.registers()[4], 0x0B);
    assert_eq!(chip8.rng_state(), (11, 22));
    chip8.take_draw(4, 0xFF, (0x1CD, 33, 44));
    assert_eq!(chip8.registers()[4], 0xCD);
    assert_eq!(chip8.rng_state(), (33, 44));
}
