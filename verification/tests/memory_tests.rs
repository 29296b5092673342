use emulator::memory::{
    Memory, GRAPHIC_MEMORY_SIZE, GRAPHIC_MEMORY_START, MEMORY_SIZE, SCREEN_HEIGHT, SCREEN_WIDTH,
};

#[test]
fn memory_starts_cleared() {
    let memory = Memory::new();
    assert_eq!(memory.read(0), 0);
    assert_eq!(memory.read(0x2400), 0);
    assert_eq!(memory.read(MEMORY_SIZE - 1), 0);
}

#[test]
fn write_changes_one_byte() {
    let mut memory = Memory::new();
    memory.write(0x1234, 0xab);
    assert_eq!(memory.read(0x1234), 0xab);
    assert_eq!(memory.read(0x1233), 0);
    assert_eq!(memory.read(0x1235), 0);
    memory.write(0xffff, 0x01);
    assert_eq!(memory.read(0xffff), 0x01);
}

#[test]
fn to_word_takes_the_low_byte_first() {
    assert_eq!(Memory::to_word(0x34, 0x12), 0x1234);
    assert_eq!(Memory::to_word(0xff, 0xff), 0xffff);
    assert_eq!(Memory::to_word(0x00, 0x00), 0);
    assert_eq!(Memory::to_word(0x01, 0x00), 1);
    assert_eq!(Memory::to_word(0x00, 0x01), 0x100);
}

#[test]
fn words_address_by_two_bytes() {
    let mut memory = Memory::new();
    memory.write_word(0x01, 0x24, 0x5a);
    assert_eq!(memory.read(0x2401), 0x5a);
    assert_eq!(memory.read_word(0x01, 0x24), 0x5a);
    assert_eq!(memory.read_word(0x24, 0x01), 0);
}

#[test]
fn load_copies_the_image_as_it_is() {
    let mut memory = Memory::new();
    memory.write(0x0ff, 0x11);
    memory.write(0x104, 0x22);
    memory.load(&[0xde, 0xad, 0xbe, 0xef], 0x100);
    assert_eq!(memory.read(0x0ff), 0x11);
    assert_eq!(memory.read(0x100), 0xde);
    assert_eq!(memory.read(0x101), 0xad);
    assert_eq!(memory.read(0x102), 0xbe);
    assert_eq!(memory.read(0x103), 0xef);
    assert_eq!(memory.read(0x104), 0x22);
}

#[test]
fn load_reaches_the_last_address() {
    let mut memory = Memory::new();
    memory.load(&[1, 2], MEMORY_SIZE - 2);
    assert_eq!(memory.read(MEMORY_SIZE - 2), 1);
    assert_eq!(memory.read(MEMORY_SIZE - 1), 2);
    memory.load(&[], MEMORY_SIZE);
    assert_eq!(memory.read(MEMORY_SIZE - 1), 2);
}

#[test]
fn graphic_memory_is_the_video_window() {
    assert_eq!(SCREEN_WIDTH, 0x20);
    assert_eq!(SCREEN_HEIGHT, 0xe0);
    assert_eq!(GRAPHIC_MEMORY_SIZE, 7168);
    assert_eq!(GRAPHIC_MEMORY_START, 0x2400);
    let mut memory = Memory::new();
    memory.write(0x23ff, 0x01);
    memory.write(0x2400, 0x02);
    memory.write(0x2400 + 7167, 0x03);
    memory.write(0x2400 + 7168, 0x04);
    let window = memory.graphic_memory();
    assert_eq!(window.len(), 7168);
    assert_eq!(window[0], 0x02);
    assert_eq!(window[1], 0x00);
    assert_eq!(window[7167], 0x03);
}
