use chip8::Chip8;
use rand::rngs::SmallRng;
use rand::SeedableRng;

/// The conventional font glyph table: sixteen 5-byte glyphs for 0..F.
const DEFAULT_FONT: [u8; 80] = [
    0xF0, 0x90, 0x90, 0x90, 0xF0, // 0
    0x20, 0x60, 0x20, 0x20, 0x70, // 1
    0xF0, 0x10, 0xF0, 0x80, 0xF0, // 2
    0xF0, 0x10, 0xF0, 0x10, 0xF0, // 3
    0x90, 0x90, 0xF0, 0x10, 0x10, // 4
    0xF0, 0x80, 0xF0, 0x10, 0xF0, // 5
    0xF0, 0x80, 0xF0, 0x90, 0xF0, // 6
    0xF0, 0x10, 0x20, 0x40, 0x40, // 7
    0xF0, 0x90, 0xF0, 0x90, 0xF0, // 8
    0xF0, 0x90, 0xF0, 0x10, 0xF0, // 9
    0xF0, 0x90, 0xF0, 0x90, 0x90, // A
    0xE0, 0x90, 0xE0, 0x90, 0xE0, // B
    0xF0, 0x80, 0x80, 0x80, 0xF0, // C
    0xE0, 0x90, 0x90, 0x90, 0xE0, // D
    0xF0, 0x80, 0xF0, 0x80, 0x80, // E
    0xF0, 0x80, 0xF0, 0x80, 0x80, // F
];

fn get_fixture_no_keypad() -> Chip8 {
    let mut chip8 = Chip8::new(SmallRng::seed_from_u64(0), false);
    chip8.load_font(&DEFAULT_FONT);
    chip8
}

#[test]
fn _1nnn() {
    let mut chip8 = get_fixture_no_keypad();
    chip8.load_program(&[0x1202, 0x1fff]);
    assert!(chip8.tick().is_ok());
    assert_eq!(chip8.get_program_counter(), 0x202);
    assert!(chip8.tick().is_ok());
    assert_eq!(chip8.get_program_counter(), 0xfff);
}

#[test]
fn _2nnn() {}

#[test]
fn _3xnn_true() {
    let mut chip8 = get_fixture_no_keypad();
    chip8.load_program(&[0x30ff]);
    chip8.write_register(0x0, 0xff);
    assert!(chip8.tick().is_ok());
    assert_eq!(chip8.get_program_counter(), 0x204);
}

#[test]
fn _3xnn_false() {
    let mut chip8 = get_fixture_no_keypad();
    chip8.load_program(&[0x3000]);
    chip8.write_register(0x0, 0xff);
    assert!(chip8.tick().is_ok());
    assert_eq!(chip8.get_program_counter(), 0x202);
}

#[test]
fn _4xnn_true() {
    let mut chip8 = get_fixture_no_keypad();
    chip8.load_program(&[0x4000]);
    chip8.write_register(0x0, 0xff);
    assert!(chip8.tick().is_ok());
    assert_eq!(chip8.get_program_counter(), 0x204);
}

#[test]
fn _4xnn_false() {
    let mut chip8 = get_fixture_no_keypad();
    chip8.load_program(&[0x40ff]);
    chip8.write_register(0x0, 0xff);
    assert!(chip8.tick().is_ok());
    assert_eq!(chip8.get_program_counter(), 0x202);
}

#[test]
fn _5xy0_true() {
    let mut chip8 = get_fixture_no_keypad();
    chip8.load_program(&[0x5010]);
    chip8.write_register(0x0, 0xff);
    chip8.write_register(0x1, 0xff);
    assert!(chip8.tick().is_ok());
    assert_eq!(chip8.get_program_counter(), 0x204);
}

#[test]
fn _5xy0_false() {
    let mut chip8 = get_fixture_no_keypad();
    chip8.load_program(&[0x5010]);
    chip8.write_register(0x0, 0x00);
    chip8.write_register(0x1, 0xff);
    assert!(chip8.tick().is_ok());
    assert_eq!(chip8.get_program_counter(), 0x202);
}

#[test]
fn _6xnn() {
    let mut chip8 = get_fixture_no_keypad();
    chip8.load_program(&[0x600a]);
    assert!(chip8.tick().is_ok());
    assert_eq!(chip8.get_registers()[0x0], 0xa);
    assert_eq!(chip8.get_program_counter(), 0x202);
}

#[test]
fn _7xnn() {
    let mut chip8 = get_fixture_no_keypad();
    chip8.load_program(&[0x7009]);
    chip8.write_register(0x0, 0x01);
    assert!(chip8.tick().is_ok());
    assert_eq!(chip8.get_registers()[0x0], 0xa);
    assert_eq!(chip8.get_program_counter(), 0x202);
}

#[test]
fn _7xnn_overflow() {
    let mut chip8 = get_fixture_no_keypad();
    chip8.load_program(&[0x7001]);
    chip8.write_register(0x0, 0xff);
    assert!(chip8.tick().is_ok());
    assert_eq!(chip8.get_registers()[0x0], 0x00);
    assert_eq!(chip8.get_program_counter(), 0x202);
}

#[test]
fn _fx55() {
    let mut chip8 = get_fixture_no_keypad();
    chip8.load_program(&[0xff55]);
    chip8.set_index(0x203);
    chip8.write_register(0x00, 0xff);
    chip8.write_register(0x01, 0xff);
    chip8.write_register(0x02, 0xff);
    chip8.write_register(0x03, 0xff);
    chip8.write_register(0x04, 0xff);
    chip8.write_register(0x05, 0xff);
    chip8.write_register(0x06, 0xff);
    chip8.write_register(0x07, 0xff);
    chip8.write_register(0x08, 0xff);
    chip8.write_register(0x09, 0xff);
    chip8.write_register(0x0a, 0xff);
    chip8.write_register(0x0b, 0xff);
    chip8.write_register(0x0c, 0xff);
    chip8.write_register(0x0d, 0xff);
    chip8.write_register(0x0e, 0xff);
    chip8.write_register(0x0f, 0xff);
    assert!(chip8.tick().is_ok());
    assert_eq!(chip8.get_program_counter(), 0x202);
    assert_eq!(chip8.get_program_memory()[0x03], 0xff);
    assert_eq!(chip8.get_program_memory()[0x12], 0xff);
}

#[test]
fn _fx65() {
    let mut chip8 = get_fixture_no_keypad();
    chip8.load_program(&[
        0xff65, 0x00ff, 0xffff, 0xffff, 0xffff, 0xffff, 0xffff, 0xffff, 0xffff, 0xff00,
    ]);
    chip8.set_index(0x203);
    assert!(chip8.tick().is_ok());
    assert_eq!(chip8.get_program_counter(), 0x202);
    assert_eq!(chip8.get_registers()[0x0], 0xff);
    assert_eq!(chip8.get_registers()[0xf], 0xff);
}
