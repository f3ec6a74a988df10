use chip8::Chip8;
use chip8::Fault;
use rand::rngs::SmallRng;
use rand::SeedableRng;

/// The conventional font glyph table: sixteen 5-byte glyphs for 0..F.
const FONT: [u8; 80] = [
    0xF0, 0x90, 0x90, 0x90, 0xF0, // 0
    0x20, 0x60, 0x20, 0x20, 0x70, // 1
    0xF0, 0x10, 0xF0, 0x80, 0xF0, // 2
    0xF0, 0x10, 0xF0, 0x10, 0xF0, // 3
    0x90, 0x90, 0xF0, 0x10, 0x10, // 4
    0xF0, 0x80, 0xF0, 0x10, 0xF0, // 5
    0xF0, 0x80, 0xF0, 0x90, 0xF0, // 6
    0xF0, 0x10, 0x20, 0x40, 0x40, // 7
    0xF0, 0x90, 0xF0, 0x90, 0xF0, // 8
    0xF0, 0x90, 0xF0, 0x10, 0xF0, // 9
    0xF0, 0x90, 0xF0, 0x90, 0x90, // A
    0xE0, 0x90, 0xE0, 0x90, 0xE0, // B
    0xF0, 0x80, 0x80, 0x80, 0xF0, // C
    0xE0, 0x90, 0x90, 0x90, 0xE0, // D
    0xF0, 0x80, 0xF0, 0x80, 0x80, // E
    0xF0, 0x80, 0xF0, 0x80, 0x80, // F
];

fn fixture() -> Chip8 {
    let mut chip8 = Chip8::new(SmallRng::seed_from_u64(7), false);
    chip8.load_font(&FONT);
    chip8
}

#[test]
fn fresh_machine_is_zeroed() {
    let chip8 = Chip8::new(SmallRng::seed_from_u64(0), true);
    assert_eq!(chip8.get_program_counter(), 0x200);
    assert_eq!(chip8.get_index(), 0);
    assert_eq!(chip8.get_stack_pointer(), 0);
    assert_eq!(chip8.get_stack(), [0u16; 16]);
    assert_eq!(chip8.get_registers(), [0u8; 16]);
    assert_eq!(chip8.get_delay_timer(), 0);
    assert_eq!(chip8.get_sound_timer(), 0);
    assert_eq!(chip8.get_scale(), (1, 1));
    assert_eq!(chip8.get_padding(), 0);
    assert!(!chip8.get_pixel(0, 0));
}

#[test]
fn load_program_splits_words_big_endian() {
    let mut chip8 = fixture();
    chip8.load_program(&[0x1234, 0xabcd]);
    let mem = chip8.get_program_memory();
    assert_eq!(mem[0], 0x12);
    assert_eq!(mem[1], 0x34);
    assert_eq!(mem[2], 0xab);
    assert_eq!(mem[3], 0xcd);
}

#[test]
fn get_current_op_decodes_nibbles() {
    let mut chip8 = fixture();
    chip8.load_program(&[0x6a12]);
    assert_eq!(chip8.get_current_op(), (0x6, 0xa, 0x1, 0x2));
}

#[test]
fn reset_clears_state_but_keeps_display_hints() {
    let mut chip8 = fixture();
    chip8.load_program(&[0x6aff, 0xa123]);
    assert!(chip8.tick().is_ok());
    assert!(chip8.tick().is_ok());
    chip8.set_scale((2, 3));
    chip8.set_padding(4);
    chip8.reset();
    assert_eq!(chip8.get_program_counter(), 0x200);
    assert_eq!(chip8.get_index(), 0);
    assert_eq!(chip8.get_registers(), [0u8; 16]);
    assert_eq!(chip8.get_stack_pointer(), 0);
    assert_eq!(chip8.get_program_memory()[0], 0);
    assert_eq!(chip8.get_scale(), (2, 3));
    assert_eq!(chip8.get_padding(), 4);
}

#[test]
fn call_and_return_round_trip() {
    let mut chip8 = fixture();
    chip8.load_program(&[0x2204, 0x6001, 0x00ee]);
    assert!(chip8.tick().is_ok());
    assert_eq!(chip8.get_program_counter(), 0x204);
    assert_eq!(chip8.get_stack_pointer(), 1);
    assert_eq!(chip8.get_stack()[0], 0x202);
    assert!(chip8.tick().is_ok());
    assert_eq!(chip8.get_program_counter(), 0x202);
    assert_eq!(chip8.get_stack_pointer(), 0);
}

#[test]
fn return_on_empty_stack_is_fatal() {
    let mut chip8 = fixture();
    chip8.load_program(&[0x00ee]);
    assert_eq!(chip8.tick(), Err(Fault::StackUnderflow));
    assert_eq!(chip8.get_program_counter(), 0x200);
    assert_eq!(chip8.get_stack_pointer(), 0);
}

#[test]
fn call_beyond_capacity_is_fatal() {
    let mut chip8 = fixture();
    chip8.load_program(&[0x2200]);
    for _ in 0..16 {
        assert!(chip8.tick().is_ok());
    }
    assert_eq!(chip8.get_stack_pointer(), 16);
    assert_eq!(chip8.tick(), Err(Fault::StackOverflow));
    assert_eq!(chip8.get_stack_pointer(), 16);
    assert_eq!(chip8.get_program_counter(), 0x200);
}

#[test]
fn fetch_outside_memory_is_fatal() {
    let mut chip8 = fixture();
    chip8.load_program(&[0x1fff]);
    assert!(chip8.tick().is_ok());
    assert_eq!(chip8.get_program_counter(), 0xfff);
    assert_eq!(chip8.tick(), Err(Fault::MemoryOutOfBounds));
    assert_eq!(chip8.get_program_counter(), 0xfff);
}

#[test]
fn draw_reading_past_memory_is_fatal() {
    let mut chip8 = fixture();
    chip8.load_program(&[0xd012]);
    chip8.set_index(0xfff);
    assert_eq!(chip8.tick(), Err(Fault::MemoryOutOfBounds));
    assert_eq!(chip8.get_program_counter(), 0x200);
}

#[test]
fn register_store_past_memory_is_fatal() {
    let mut chip8 = fixture();
    chip8.load_program(&[0xff55]);
    chip8.set_index(0xff8);
    assert_eq!(chip8.tick(), Err(Fault::MemoryOutOfBounds));
}

#[test]
fn register_load_past_memory_is_fatal() {
    let mut chip8 = fixture();
    chip8.load_program(&[0xff65]);
    chip8.set_index(0xff8);
    assert_eq!(chip8.tick(), Err(Fault::MemoryOutOfBounds));
}

#[test]
fn bcd_store_past_memory_is_fatal() {
    let mut chip8 = fixture();
    chip8.load_program(&[0xf033]);
    chip8.set_index(0xffe);
    assert_eq!(chip8.tick(), Err(Fault::MemoryOutOfBounds));
}

#[test]
fn unknown_opcodes_are_no_ops_that_advance() {
    let mut chip8 = fixture();
    chip8.load_program(&[0x0123, 0x8019, 0xe000, 0xf0ff]);
    for step in 1..=4u16 {
        assert!(chip8.tick().is_ok());
        assert_eq!(chip8.get_program_counter(), 0x200 + 2 * step);
    }
    assert_eq!(chip8.get_registers(), [0u8; 16]);
    assert_eq!(chip8.get_stack_pointer(), 0);
}

#[test]
fn add_register_sets_carry() {
    let mut chip8 = fixture();
    chip8.load_program(&[0x8014, 0x8234]);
    chip8.write_register(0x0, 200);
    chip8.write_register(0x1, 100);
    chip8.write_register(0x2, 1);
    chip8.write_register(0x3, 2);
    assert!(chip8.tick().is_ok());
    assert_eq!(chip8.get_registers()[0x0], 44);
    assert_eq!(chip8.get_registers()[0xf], 1);
    assert!(chip8.tick().is_ok());
    assert_eq!(chip8.get_registers()[0x2], 3);
    assert_eq!(chip8.get_registers()[0xf], 0);
}

#[test]
fn sub_sets_no_borrow_flag() {
    let mut chip8 = fixture();
    chip8.load_program(&[0x8015, 0x8235]);
    chip8.write_register(0x0, 5);
    chip8.write_register(0x1, 10);
    chip8.write_register(0x2, 10);
    chip8.write_register(0x3, 5);
    assert!(chip8.tick().is_ok());
    assert_eq!(chip8.get_registers()[0x0], 251);
    assert_eq!(chip8.get_registers()[0xf], 0);
    assert!(chip8.tick().is_ok());
    assert_eq!(chip8.get_registers()[0x2], 5);
    assert_eq!(chip8.get_registers()[0xf], 1);
}

#[test]
fn subn_stores_reversed_difference_in_vx() {
    let mut chip8 = fixture();
    chip8.load_program(&[0x8017]);
    chip8.write_register(0x0, 5);
    chip8.write_register(0x1, 10);
    assert!(chip8.tick().is_ok());
    assert_eq!(chip8.get_registers()[0x0], 5);
    assert_eq!(chip8.get_registers()[0xf], 1);
}

#[test]
fn bitwise_ops_combine_registers() {
    let mut chip8 = fixture();
    chip8.load_program(&[0x8011, 0x8232, 0x8453, 0x8670]);
    chip8.write_register(0x0, 0b1100);
    chip8.write_register(0x1, 0b1010);
    chip8.write_register(0x2, 0b1100);
    chip8.write_register(0x3, 0b1010);
    chip8.write_register(0x4, 0b1100);
    chip8.write_register(0x5, 0b1010);
    chip8.write_register(0x7, 42);
    assert!(chip8.tick().is_ok());
    assert_eq!(chip8.get_registers()[0x0], 0b1110);
    assert!(chip8.tick().is_ok());
    assert_eq!(chip8.get_registers()[0x2], 0b1000);
    assert!(chip8.tick().is_ok());
    assert_eq!(chip8.get_registers()[0x4], 0b0110);
    assert!(chip8.tick().is_ok());
    assert_eq!(chip8.get_registers()[0x6], 42);
}

#[test]
fn shifts_move_the_edge_bit_into_vf() {
    let mut chip8 = fixture();
    chip8.load_program(&[0x8016, 0x821e]);
    chip8.write_register(0x0, 5);
    chip8.write_register(0x2, 0x81);
    assert!(chip8.tick().is_ok());
    assert_eq!(chip8.get_registers()[0x0], 2);
    assert_eq!(chip8.get_registers()[0xf], 1);
    assert!(chip8.tick().is_ok());
    assert_eq!(chip8.get_registers()[0x2], 0x02);
    assert_eq!(chip8.get_registers()[0xf], 1);
}

#[test]
fn skip_if_registers_differ() {
    let mut chip8 = fixture();
    chip8.load_program(&[0x9010]);
    chip8.write_register(0x0, 1);
    chip8.write_register(0x1, 2);
    assert!(chip8.tick().is_ok());
    assert_eq!(chip8.get_program_counter(), 0x204);
}

#[test]
fn set_index_and_jump_with_offset() {
    let mut chip8 = fixture();
    chip8.load_program(&[0xa123, 0xb300]);
    chip8.write_register(0x0, 4);
    assert!(chip8.tick().is_ok());
    assert_eq!(chip8.get_index(), 0x123);
    assert!(chip8.tick().is_ok());
    assert_eq!(chip8.get_program_counter(), 0x304);
}

#[test]
fn random_byte_is_masked() {
    let mut chip8 = fixture();
    chip8.load_program(&[0xc000, 0xc50f]);
    assert!(chip8.tick().is_ok());
    assert_eq!(chip8.get_registers()[0x0], 0);
    assert!(chip8.tick().is_ok());
    assert!(chip8.get_registers()[0x5] <= 0x0f);
    assert_eq!(chip8.get_program_counter(), 0x204);
}

#[test]
fn draw_wraps_origin_and_cancels_on_redraw() {
    let mut chip8 = fixture();
    // Draw the glyph "0" (5 rows at the base of the font table) with its
    // origin column given by V0 = 70, which wraps to column 6.
    chip8.load_program(&[0xd015, 0xd015]);
    chip8.write_register(0x0, 70);
    chip8.write_register(0x1, 0);
    chip8.set_index(0x50);
    assert!(chip8.tick().is_ok());
    assert!(chip8.get_pixel(6, 0));
    assert!(chip8.get_pixel(7, 0));
    assert!(chip8.get_pixel(8, 0));
    assert!(chip8.get_pixel(9, 0));
    assert!(!chip8.get_pixel(10, 0));
    assert!(chip8.get_pixel(6, 1));
    assert!(!chip8.get_pixel(7, 1));
    assert!(chip8.get_pixel(9, 1));
    assert!(!chip8.get_pixel(5, 0));
    assert_eq!(chip8.get_registers()[0xf], 0);
    // The identical second draw XORs every pixel back off and reports
    // the collision.
    assert!(chip8.tick().is_ok());
    assert_eq!(chip8.get_registers()[0xf], 1);
    for x in 0..16u8 {
        for y in 0..6u8 {
            assert!(!chip8.get_pixel(x, y));
        }
    }
}

#[test]
fn draw_clips_at_screen_edges() {
    let mut chip8 = fixture();
    // Glyph at column 60: columns 60..63 remain, 64..67 are clipped.
    chip8.load_program(&[0xd015]);
    chip8.write_register(0x0, 60);
    chip8.write_register(0x1, 30);
    chip8.set_index(0x50);
    assert!(chip8.tick().is_ok());
    assert!(chip8.get_pixel(60, 30));
    assert!(chip8.get_pixel(63, 30));
    assert!(chip8.get_pixel(60, 31));
    assert!(!chip8.get_pixel(0, 30));
    assert!(!chip8.get_pixel(60, 0));
}

#[test]
fn clear_screen_blanks_every_pixel() {
    let mut chip8 = fixture();
    chip8.load_program(&[0xd015, 0x00e0]);
    chip8.set_index(0x50);
    assert!(chip8.tick().is_ok());
    assert!(chip8.get_pixel(0, 0));
    assert!(chip8.tick().is_ok());
    assert_eq!(chip8.get_program_counter(), 0x204);
    for x in 0..8u8 {
        for y in 0..5u8 {
            assert!(!chip8.get_pixel(x, y));
        }
    }
}

#[test]
fn skip_if_key_pressed_consults_snapshot() {
    let mut chip8 = fixture();
    chip8.load_program(&[0xe09e]);
    chip8.write_register(0x0, 0x14);
    chip8.set_keys(1 << 4);
    assert!(chip8.tick().is_ok());
    assert_eq!(chip8.get_program_counter(), 0x204);
}

#[test]
fn skip_if_key_not_pressed_consults_snapshot() {
    let mut chip8 = fixture();
    chip8.load_program(&[0xe0a1, 0xe1a1]);
    chip8.write_register(0x0, 4);
    chip8.write_register(0x1, 3);
    chip8.set_keys(1 << 4);
    assert!(chip8.tick().is_ok());
    assert_eq!(chip8.get_program_counter(), 0x202);
    assert!(chip8.tick().is_ok());
    assert_eq!(chip8.get_program_counter(), 0x206);
}

#[test]
fn key_wait_spins_until_a_key_arrives() {
    let mut chip8 = fixture();
    chip8.load_program(&[0xf30a]);
    assert!(chip8.tick().is_ok());
    assert_eq!(chip8.get_program_counter(), 0x200);
    assert!(chip8.tick().is_ok());
    assert_eq!(chip8.get_program_counter(), 0x200);
    chip8.set_keys(0b0100);
    assert!(chip8.tick().is_ok());
    assert_eq!(chip8.get_registers()[0x3], 2);
    assert_eq!(chip8.get_program_counter(), 0x202);
}

#[test]
fn timers_load_read_and_saturate() {
    let mut chip8 = fixture();
    chip8.load_program(&[0xf015, 0xf118, 0xf207]);
    chip8.write_register(0x0, 5);
    chip8.write_register(0x1, 2);
    assert!(chip8.tick().is_ok());
    assert!(chip8.tick().is_ok());
    assert_eq!(chip8.get_delay_timer(), 5);
    assert_eq!(chip8.get_sound_timer(), 2);
    chip8.decrement_timers();
    chip8.decrement_timers();
    chip8.decrement_timers();
    assert_eq!(chip8.get_delay_timer(), 2);
    assert_eq!(chip8.get_sound_timer(), 0);
    assert!(chip8.tick().is_ok());
    assert_eq!(chip8.get_registers()[0x2], 2);
}

#[test]
fn add_to_index_wraps_in_sixteen_bits() {
    let mut chip8 = fixture();
    chip8.load_program(&[0xf01e, 0xf11e]);
    chip8.write_register(0x0, 5);
    chip8.write_register(0x1, 2);
    chip8.set_index(10);
    assert!(chip8.tick().is_ok());
    assert_eq!(chip8.get_index(), 15);
    chip8.set_index(0xffff);
    assert!(chip8.tick().is_ok());
    assert_eq!(chip8.get_index(), 1);
}

#[test]
fn font_glyph_lookup_points_into_the_table() {
    let mut chip8 = fixture();
    chip8.load_program(&[0xf729]);
    chip8.write_register(0x7, 0x0b);
    assert!(chip8.tick().is_ok());
    assert_eq!(chip8.get_index(), 0x50 + 5 * 0x0b);
}

#[test]
fn bcd_writes_three_decimal_digits() {
    let mut chip8 = fixture();
    chip8.load_program(&[0xf533]);
    chip8.write_register(0x5, 146);
    chip8.set_index(0x300);
    assert!(chip8.tick().is_ok());
    let mem = chip8.get_program_memory();
    assert_eq!(mem[0x100], 1);
    assert_eq!(mem[0x101], 4);
    assert_eq!(mem[0x102], 6);
    assert_eq!(chip8.get_program_counter(), 0x202);
}

#[test]
fn store_past_program_end_writes_sixteen_bytes() {
    let mut chip8 = fixture();
    chip8.load_program(&[0xff55]);
    chip8.set_index(0x400);
    for x in 0..16u8 {
        chip8.write_register(x, 0xff);
    }
    assert!(chip8.tick().is_ok());
    assert_eq!(chip8.get_program_counter(), 0x202);
    let mem = chip8.get_program_memory();
    for k in 0..16usize {
        assert_eq!(mem[0x200 + k], 0xff);
    }
    assert_eq!(mem[0x210], 0);
}
