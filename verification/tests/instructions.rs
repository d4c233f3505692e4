use lrchip8::chip8::Chip8;
use lrchip8::machine::{Fault, Progress};

fn load_chip8(rom16: &[u16]) -> Chip8 {
    let mut chip8 = Chip8::init(0);

    chip8.load16(rom16).unwrap();

    chip8
}

fn load_legacy(rom16: &[u16]) -> Chip8 {
    let mut chip8 = Chip8::init_with(0, true);

    chip8.load16(rom16).unwrap();

    chip8
}

fn run(chip8: &mut Chip8, ticks: usize) {
    for _ in 0..ticks {
        assert_eq!(chip8.tick(), Ok(Progress::Completed));
    }
}

#[test]
fn test_op_00e0() {
    let mut chip8 = load_chip8(&[0x00E0]);
    chip8.set_pixel(0, true);
    chip8.set_pixel(100, true);
    chip8.set_pixel(1000, true);

    chip8.tick().unwrap();

    assert!(chip8.video().iter().all(|&b| b == 0));
}

#[test]
fn test_op_00ee() {
    let mut chip8 = load_chip8(&[0x6012, 0x2206, 0x00E0, 0x6110, 0x6111, 0x6112, 0x00EE]);
    chip8.set_pixel(0, true);
    chip8.set_pixel(100, true);
    chip8.set_pixel(1000, true);

    chip8.tick().unwrap();
    assert_eq!(chip8.registers()[0], 0x12);

    chip8.tick().unwrap();
    assert_eq!(chip8.stack()[0], 0x204);
    assert_eq!(chip8.sp(), 1);

    chip8.tick().unwrap();
    assert_eq!(chip8.registers()[1], 0x10);

    chip8.tick().unwrap();
    assert_eq!(chip8.registers()[1], 0x11);

    chip8.tick().unwrap();
    assert_eq!(chip8.registers()[1], 0x12);

    chip8.tick().unwrap();
    assert_eq!(chip8.pc(), 0x204);
    assert_eq!(chip8.sp(), 0);

    chip8.tick().unwrap();
    assert!(chip8.video().iter().all(|&b| b == 0));
}

#[test]
fn test_op_fx33_1() {
    let mut chip8 = load_chip8(&[0xF033]);
    chip8.set_register(0, 123);
    chip8.set_index(0x300);

    chip8.tick().unwrap();

    assert_eq!(chip8.memory()[0x300], 1);
    assert_eq!(chip8.memory()[0x301], 2);
    assert_eq!(chip8.memory()[0x302], 3);
}

#[test]
fn test_op_fx33_2() {
    let mut chip8 = load_chip8(&[0xF033]);
    chip8.set_register(0, 000);
    chip8.set_index(0x300);

    chip8.tick().unwrap();

    assert_eq!(chip8.memory()[0x300], 0);
    assert_eq!(chip8.memory()[0x301], 0);
    assert_eq!(chip8.memory()[0x302], 0);
}

#[test]
fn test_op_fx33_3() {
    let mut chip8 = load_chip8(&[0xF033]);

    chip8.set_register(0, 255);
    chip8.set_index(0x300);

    chip8.tick().unwrap();

    assert_eq!(chip8.memory()[0x300], 2);
    assert_eq!(chip8.memory()[0x301], 5);
    assert_eq!(chip8.memory()[0x302], 5);
}

#[test]
fn test_op_fx29_1() {
    let mut chip8 = load_chip8(&[0x6000, 0xF029]);

    chip8.tick().unwrap();
    chip8.tick().unwrap();
    assert_eq!(chip8.index(), 0x0000);
}

#[test]
fn test_op_fx29_2() {
    let mut chip8 = load_chip8(&[0x6001, 0xF029]);

    chip8.tick().unwrap();
    chip8.tick().unwrap();
    assert_eq!(chip8.index(), 0x0000 + 5);
}

#[test]
fn test_op_fx55() {
    let rom16 = [
        0xA3E8, 0x6000, 0x6101, 0x6202, 0x6303, 0x6404, 0x6505, 0x6606, 0x6707, 0x6808, 0x6909,
        0x6A0A, 0x6B0B, 0x6C0C, 0x6D0D, 0x6E0E, 0x6F0F, 0xFF55, 0xA3E8,
    ];
    let mut chip8 = load_chip8(&rom16);

    for _ in 0..rom16.len() {
        chip8.tick().unwrap();
    }

    assert_eq!(
        chip8.registers(),
        [0, 1, 2, 3, 4, 5, 6, 7, 8, 9, 0xA, 0xB, 0xC, 0xD, 0xE, 0xF]
    );

    let i = chip8.index() as usize;
    let mem = &chip8.memory()[i..(i + 16)];

    assert_eq!(chip8.registers(), mem);
}

#[test]
fn test_op_fx65() {
    let rom16 = [
        0xA3E8, 0x6000, 0x6101, 0x6202, 0x6303, 0x6404, 0x6505, 0x6606, 0x6707, 0x6808, 0x6909,
        0x6A0A, 0x6B0B, 0x6C0C, 0x6D0D, 0x6E0E, 0x6F0F, 0xFF55, 0x6000, 0x6100, 0x6200, 0x6300,
        0x6400, 0x6500, 0x6600, 0x6700, 0x6800, 0x6900, 0x6A00, 0x6B00, 0x6C00, 0x6D00, 0x6E00,
        0x6F00, 0xA3E8, 0xFF65,
    ];
    let mut chip8 = load_chip8(&rom16);

    for _ in 0..rom16.len() {
        chip8.tick().unwrap();
    }

    assert_eq!(
        chip8.registers(),
        [0, 1, 2, 3, 4, 5, 6, 7, 8, 9, 0xA, 0xB, 0xC, 0xD, 0xE, 0xF]
    );
}

#[test]
fn clear_screen_touches_only_the_framebuffer() {
    let mut chip8 = load_chip8(&[0x00E0]);
    for pos in 0..2048 {
        chip8.set_pixel(pos, true);
    }
    chip8.set_register(3, 7);

    assert_eq!(chip8.tick(), Ok(Progress::Completed));

    assert!(chip8.video().iter().all(|&b| b == 0));
    assert_eq!(chip8.registers()[3], 7);
    assert_eq!(chip8.pc(), 0x202);
}

#[test]
fn call_then_return_restores_pc_and_depth() {
    let mut chip8 = load_chip8(&[0x2204, 0x0000, 0x00EE]);

    assert_eq!(chip8.tick(), Ok(Progress::Completed));
    assert_eq!(chip8.pc(), 0x204);
    assert_eq!(chip8.sp(), 1);
    assert_eq!(chip8.stack()[0], 0x202);

    assert_eq!(chip8.tick(), Ok(Progress::Completed));
    assert_eq!(chip8.pc(), 0x202);
    assert_eq!(chip8.sp(), 0);
}

#[test]
fn jump_sets_pc() {
    let mut chip8 = load_chip8(&[0x1ABC]);
    run(&mut chip8, 1);
    assert_eq!(chip8.pc(), 0xABC);
}

#[test]
fn jump_with_offset_adds_v0() {
    let mut chip8 = load_chip8(&[0x60FF, 0xBFFF]);
    run(&mut chip8, 2);
    assert_eq!(chip8.pc(), 0xFFF + 0xFF);
}

#[test]
fn skips_on_immediate() {
    let mut chip8 = load_chip8(&[0x6A42, 0x3A42, 0x0000, 0x3A43, 0x4A43, 0x0000, 0x4A42]);
    run(&mut chip8, 2);
    assert_eq!(chip8.pc(), 0x206);
    run(&mut chip8, 1);
    assert_eq!(chip8.pc(), 0x208);
    run(&mut chip8, 1);
    assert_eq!(chip8.pc(), 0x20C);
    run(&mut chip8, 1);
    assert_eq!(chip8.pc(), 0x20E);
}

#[test]
fn skips_on_registers() {
    let mut chip8 = load_chip8(&[0x6105, 0x6205, 0x5120, 0x0000, 0x9120, 0x6206, 0x9120, 0x0000, 0x5120]);
    run(&mut chip8, 3);
    assert_eq!(chip8.pc(), 0x208);
    run(&mut chip8, 1);
    assert_eq!(chip8.pc(), 0x20A);
    run(&mut chip8, 2);
    assert_eq!(chip8.pc(), 0x210);
    run(&mut chip8, 1);
    assert_eq!(chip8.pc(), 0x212);
}

#[test]
fn load_and_add_immediate_wrap() {
    let mut chip8 = load_chip8(&[0x65F0, 0x7520, 0x7501]);
    run(&mut chip8, 1);
    assert_eq!(chip8.registers()[5], 0xF0);
    run(&mut chip8, 1);
    assert_eq!(chip8.registers()[5], 0x10);
    assert_eq!(chip8.registers()[0xF], 0);
    run(&mut chip8, 1);
    assert_eq!(chip8.registers()[5], 0x11);
}

#[test]
fn move_or_and_xor() {
    let mut chip8 = load_chip8(&[0x61CA, 0x62A5, 0x8320, 0x8311, 0x8410, 0x8422, 0x8510, 0x8523]);
    run(&mut chip8, 8);
    assert_eq!(chip8.registers()[3], 0xA5 | 0xCA);
    assert_eq!(chip8.registers()[4], 0xCA & 0xA5);
    assert_eq!(chip8.registers()[5], 0xCA ^ 0xA5);
    assert_eq!(chip8.registers()[1], 0xCA);
    assert_eq!(chip8.registers()[2], 0xA5);
}

#[test]
fn add_with_carry() {
    let mut chip8 = load_chip8(&[0x60FA, 0x610A, 0x8014, 0x620A, 0x6314, 0x8234]);
    run(&mut chip8, 3);
    assert_eq!(chip8.registers()[0], 4);
    assert_eq!(chip8.registers()[0xF], 1);
    run(&mut chip8, 3);
    assert_eq!(chip8.registers()[2], 30);
    assert_eq!(chip8.registers()[0xF], 0);
}

#[test]
fn add_into_the_flag_register_keeps_the_carry() {
    let mut chip8 = load_chip8(&[0x6FF0, 0x6120, 0x8F14]);
    run(&mut chip8, 3);
    assert_eq!(chip8.registers()[0xF], 1);
}

#[test]
fn sub_flag_is_not_borrow() {
    let mut chip8 = load_chip8(&[0x600A, 0x6103, 0x8015, 0x6203, 0x630A, 0x8235, 0x6407, 0x6507, 0x8455]);
    run(&mut chip8, 3);
    assert_eq!(chip8.registers()[0], 7);
    assert_eq!(chip8.registers()[0xF], 1);
    run(&mut chip8, 3);
    assert_eq!(chip8.registers()[2], 249);
    assert_eq!(chip8.registers()[0xF], 0);
    run(&mut chip8, 3);
    assert_eq!(chip8.registers()[4], 0);
    assert_eq!(chip8.registers()[0xF], 1);
}

#[test]
fn sub_reversed_flag_is_not_borrow() {
    let mut chip8 = load_chip8(&[0x6003, 0x610A, 0x8017, 0x620A, 0x6303, 0x8237]);
    run(&mut chip8, 3);
    assert_eq!(chip8.registers()[0], 7);
    assert_eq!(chip8.registers()[0xF], 1);
    run(&mut chip8, 3);
    assert_eq!(chip8.registers()[2], 249);
    assert_eq!(chip8.registers()[0xF], 0);
}

#[test]
fn shifts_in_place() {
    let mut chip8 = load_chip8(&[0x6005, 0x61FF, 0x8016, 0x6281, 0x821E, 0x6304, 0x8316, 0x6440, 0x841E]);
    run(&mut chip8, 3);
    assert_eq!(chip8.registers()[0], 2);
    assert_eq!(chip8.registers()[0xF], 1);
    run(&mut chip8, 2);
    assert_eq!(chip8.registers()[2], 0x02);
    assert_eq!(chip8.registers()[0xF], 1);
    run(&mut chip8, 2);
    assert_eq!(chip8.registers()[3], 2);
    assert_eq!(chip8.registers()[0xF], 0);
    run(&mut chip8, 2);
    assert_eq!(chip8.registers()[4], 0x80);
    assert_eq!(chip8.registers()[0xF], 0);
}

#[test]
fn shifts_from_second_operand_in_legacy_family() {
    let mut chip8 = load_legacy(&[0x6005, 0x61FE, 0x8016, 0x6281, 0x6303, 0x823E]);
    run(&mut chip8, 3);
    assert_eq!(chip8.registers()[0], 0x7F);
    assert_eq!(chip8.registers()[1], 0xFE);
    assert_eq!(chip8.registers()[0xF], 0);
    run(&mut chip8, 3);
    assert_eq!(chip8.registers()[2], 6);
    assert_eq!(chip8.registers()[0xF], 0);
}

#[test]
fn set_and_add_index() {
    let mut chip8 = load_chip8(&[0xA123, 0x60FF, 0xF01E]);
    run(&mut chip8, 3);
    assert_eq!(chip8.index(), 0x123 + 0xFF);
}

#[test]
fn add_index_wraps_and_leaves_the_flag() {
    let mut chip8 = load_chip8(&[0x6F07, 0x6002, 0xF01E]);
    chip8.set_index(0xFFFF);
    run(&mut chip8, 3);
    assert_eq!(chip8.index(), 1);
    assert_eq!(chip8.registers()[0xF], 7);
}

#[test]
fn glyph_address_is_five_times_the_digit() {
    for d in 0..16u16 {
        let mut chip8 = load_chip8(&[0x6000 | d, 0xF029]);
        run(&mut chip8, 2);
        assert_eq!(chip8.index(), d * 5);
    }
}

#[test]
fn bcd_digits_spell_the_value() {
    for n in 0..=255u8 {
        let mut chip8 = load_chip8(&[0xF333]);
        chip8.set_register(3, n);
        chip8.set_index(0x400);
        run(&mut chip8, 1);
        let mem = chip8.memory();
        assert!(mem[0x400] <= 9 && mem[0x401] <= 9 && mem[0x402] <= 9);
        assert_eq!(mem[0x400] as u16 * 100 + mem[0x401] as u16 * 10 + mem[0x402] as u16, n as u16);
    }
}

#[test]
fn timers_are_set_and_read() {
    let mut chip8 = load_chip8(&[0x6003, 0xF015, 0xF018, 0xF107]);
    run(&mut chip8, 3);
    assert_eq!(chip8.delay_timer(), 3);
    assert_eq!(chip8.sound_timer(), 3);
    assert!(chip8.audio());
    chip8.update_timers();
    run(&mut chip8, 1);
    assert_eq!(chip8.registers()[1], 2);
}

#[test]
fn timers_stop_at_zero() {
    let mut chip8 = load_chip8(&[0x6002, 0xF015, 0x6001, 0xF018]);
    run(&mut chip8, 4);
    chip8.update_timers();
    assert_eq!(chip8.delay_timer(), 1);
    assert_eq!(chip8.sound_timer(), 0);
    assert!(!chip8.audio());
    chip8.update_timers();
    chip8.update_timers();
    assert_eq!(chip8.delay_timer(), 0);
    assert_eq!(chip8.sound_timer(), 0);
}

#[test]
fn bulk_store_keeps_index_and_other_memory() {
    let mut chip8 = load_chip8(&[0x6011, 0x6122, 0x6233, 0xA300, 0xF155]);
    run(&mut chip8, 5);
    assert_eq!(&chip8.memory()[0x300..0x303], &[0x11, 0x22, 0x00]);
    assert_eq!(chip8.index(), 0x300);
}

#[test]
fn bulk_round_trip_index_preserving() {
    let mut rom: Vec<u16> = vec![0xA3E8];
    for k in 0..16u16 {
        rom.push(0x6000 | (k << 8) | k);
    }
    rom.push(0xFF55);
    for k in 0..16u16 {
        rom.push(0x6000 | (k << 8));
    }
    rom.push(0xFF65);
    let mut chip8 = load_chip8(&rom);
    run(&mut chip8, 18);
    assert_eq!(chip8.index(), 0x3E8);
    run(&mut chip8, 16);
    assert_eq!(chip8.registers(), [0u8; 16]);
    run(&mut chip8, 1);
    assert_eq!(chip8.registers(), [0, 1, 2, 3, 4, 5, 6, 7, 8, 9, 10, 11, 12, 13, 14, 15]);
    assert_eq!(chip8.index(), 0x3E8);
}

#[test]
fn bulk_round_trip_index_advancing() {
    let mut rom: Vec<u16> = vec![0xA3E8];
    for k in 0..16u16 {
        rom.push(0x6000 | (k << 8) | k);
    }
    rom.push(0xFF55);
    for k in 0..16u16 {
        rom.push(0x6000 | (k << 8));
    }
    rom.push(0xA3E8);
    rom.push(0xFF65);
    let mut chip8 = load_legacy(&rom);
    run(&mut chip8, 18);
    assert_eq!(chip8.index(), 0x3E8 + 16);
    run(&mut chip8, 18);
    assert_eq!(chip8.registers(), [0, 1, 2, 3, 4, 5, 6, 7, 8, 9, 10, 11, 12, 13, 14, 15]);
    assert_eq!(chip8.index(), 0x3E8 + 16);
}

#[test]
fn bulk_load_of_a_prefix_leaves_the_rest() {
    let mut chip8 = load_chip8(&[0x6A77, 0xA000, 0xF165]);
    run(&mut chip8, 3);
    assert_eq!(chip8.registers()[0], 0xF0);
    assert_eq!(chip8.registers()[1], 0x90);
    assert_eq!(chip8.registers()[2], 0);
    assert_eq!(chip8.registers()[0xA], 0x77);
}

#[test]
fn machine_routine_is_ignored() {
    let mut chip8 = load_chip8(&[0x0123]);
    assert_eq!(chip8.tick(), Ok(Progress::Ignored));
    assert_eq!(chip8.pc(), 0x202);
}

#[test]
fn unknown_instructions_are_faults() {
    for opcode in [0x8008u16, 0x812F, 0xE000, 0xE19F, 0xF000, 0xF1FF, 0xF166] {
        let mut chip8 = load_chip8(&[opcode]);
        assert_eq!(chip8.tick(), Err(Fault::UnknownInstruction(opcode)));
        assert_eq!(chip8.pc(), 0x200);
    }
}

#[test]
fn return_on_empty_stack_is_a_fault() {
    let mut chip8 = load_chip8(&[0x00EE]);
    assert_eq!(chip8.tick(), Err(Fault::StackUnderflow));
    assert_eq!(chip8.pc(), 0x200);
    assert_eq!(chip8.sp(), 0);
}

#[test]
fn seventeenth_nested_call_is_a_fault() {
    let mut chip8 = load_chip8(&[0x2200]);
    run(&mut chip8, 16);
    assert_eq!(chip8.sp(), 16);
    assert_eq!(chip8.tick(), Err(Fault::StackOverflow));
    assert_eq!(chip8.sp(), 16);
    assert_eq!(chip8.pc(), 0x200);
    assert_eq!(chip8.stack(), [0x202u16; 16]);
}

#[test]
fn fetch_past_memory_is_a_fault() {
    let mut chip8 = load_chip8(&[0x1FFF]);
    run(&mut chip8, 1);
    assert_eq!(chip8.tick(), Err(Fault::AddressOutOfRange));
    assert_eq!(chip8.pc(), 0xFFF);
}

#[test]
fn last_instruction_in_memory_runs() {
    let mut chip8 = load_chip8(&[0x1FFE]);
    run(&mut chip8, 1);
    assert_eq!(chip8.tick(), Ok(Progress::Ignored));
    assert_eq!(chip8.pc(), 0x1000);
    assert_eq!(chip8.tick(), Err(Fault::AddressOutOfRange));
}

#[test]
fn stores_past_memory_are_faults() {
    let mut chip8 = load_chip8(&[0xF033, 0xF155, 0xF165, 0xF055]);
    chip8.set_index(0xFFE);
    assert_eq!(chip8.tick(), Err(Fault::AddressOutOfRange));
    chip8.set_index(0xFFD);
    run(&mut chip8, 1);
    chip8.set_index(0xFFF);
    assert_eq!(chip8.tick(), Err(Fault::AddressOutOfRange));
    assert_eq!(chip8.pc(), 0x202);
    chip8.set_index(0xFFE);
    run(&mut chip8, 1);
    chip8.set_index(0xFFF);
    assert_eq!(chip8.tick(), Err(Fault::AddressOutOfRange));
    chip8.set_index(0xFFE);
    run(&mut chip8, 1);
    chip8.set_index(0xFFF);
    run(&mut chip8, 1);
    assert_eq!(chip8.tick(), Ok(Progress::Ignored));
}
