use gameboy_core::graphics::{BGWindow, Color, Display, ScanLine, TileLine};
use gameboy_core::memory::{Memory, MemoryMap, SCX, SCY};

fn shade(index: usize) -> Color {
    match index {
        0 => Color::C0,
        1 => Color::C1,
        2 => Color::C2,
        _ => Color::C3,
    }
}

fn expected_background(memory: &MemoryMap, x: usize, y: usize) -> Color {
    let control = memory.read(0xFF40);
    let column = (memory.read(0xFF43) as usize + x) % 256;
    let row = (memory.read(0xFF42) as usize + y) % 256;
    let map = if control & 0b0000_1000 != 0 { 0x9C00 } else { 0x9800 };
    let id = memory.read((map + (row / 8) * 32 + column / 8) as u16) as usize;
    let block = if id < 128 && control & 0b0001_0000 != 0 { 0x8000 } else { 0x8800 };
    let low = memory.read((block + id + 2 * (row % 8)) as u16);
    let high = memory.read((block + id + 2 * (row % 8) + 1) as u16);
    let bit = 7 - column % 8;
    shade((((high >> bit) & 1) * 2 + ((low >> bit) & 1)) as usize)
}

fn assert_shows_background(display: &Display, memory: &MemoryMap) {
    for y in 0..144 {
        for x in 0..160 {
            assert_eq!(
                display.lines[y].pixels[x],
                expected_background(memory, x, y),
                "pixel ({}, {})",
                x,
                y
            );
        }
    }
}

fn busy_memory() -> MemoryMap {
    let mut memory = MemoryMap::new();
    let mut state: u32 = 0x2545_F491;
    for address in 0x8000..=0x9FFFu16 {
        state = state.wrapping_mul(1_664_525).wrapping_add(1_013_904_223);
        memory.write(address, (state >> 24) as u8);
    }
    memory
}

#[test]
fn new_display_is_blank() {
    let display = Display::new();
    for y in 0..144 {
        for x in 0..160 {
            assert_eq!(display.lines[y].pixels[x], Color::C0);
        }
    }
    let line = ScanLine::new();
    assert!(line.pixels.iter().all(|p| *p == Color::C0));
    let line = ScanLine::default();
    assert!(line.pixels.iter().all(|p| *p == Color::C0));
    let display = Display::default();
    assert!(display.lines.iter().all(|l| l.pixels.iter().all(|p| *p == Color::C0)));
}

#[test]
fn set_writes_one_pixel() {
    let mut display = Display::new();
    display.set(Color::C2, 159, 143);
    display.set(Color::C3, 0, 0);
    display.set(Color::C1, 17, 5);
    for y in 0..144 {
        for x in 0..160 {
            let expected = match (x, y) {
                (159, 143) => Color::C2,
                (0, 0) => Color::C3,
                (17, 5) => Color::C1,
                _ => Color::C0,
            };
            assert_eq!(display.lines[y].pixels[x], expected);
        }
    }
    display.set(Color::C0, 17, 5);
    assert_eq!(display.lines[5].pixels[17], Color::C0);
}

#[test]
fn test_pattern_cycles_through_the_shades() {
    let mut display = Display::new();
    display.test_pattern();
    for y in 0..144 {
        for x in 0..160 {
            assert_eq!(display.lines[y].pixels[x], shade((y * 160 + x) % 4));
        }
    }
    assert_eq!(display.lines[0].pixels[0], Color::C0);
    assert_eq!(display.lines[0].pixels[1], Color::C1);
    assert_eq!(display.lines[0].pixels[2], Color::C2);
    assert_eq!(display.lines[0].pixels[3], Color::C3);
    assert_eq!(display.lines[0].pixels[4], Color::C0);
    assert_eq!(display.lines[143].pixels[159], Color::C3);
    let mut again = display.clone();
    again.test_pattern();
    assert_eq!(again.lines[77].pixels[78], Color::C2);
}

#[test]
fn scroll_window_wraps_around_the_plane() {
    let mut window = BGWindow::new();
    window.update(SCX { scroll_x: 10 }, SCY { scroll_y: 250 });
    assert_eq!(window.get(), (137, 169));
}

#[test]
fn scroll_window_without_wrap() {
    let window = BGWindow::new();
    assert_eq!(window.get(), (143, 159));
    for (scroll_x, scroll_y, corner) in
        [(96u8, 112u8, (255u8, 255u8)), (97, 113, (0, 0)), (255, 255, (142, 158))]
    {
        let mut window = BGWindow::new();
        window.update(SCX { scroll_x }, SCY { scroll_y });
        assert_eq!(window.get(), corner);
    }
}

#[test]
fn update_of_blank_memory_gives_a_blank_frame() {
    let mut display = Display::new();
    display.test_pattern();
    display.update(&MemoryMap::new());
    for y in 0..144 {
        for x in 0..160 {
            assert_eq!(display.lines[y].pixels[x], Color::C0);
        }
    }
}

#[test]
fn update_draws_the_tile_that_the_map_names() {
    let mut memory = MemoryMap::new();
    memory.write(0xFF40, 0b0001_0000);
    let bytes: [u8; 16] = [
        0x3C, 0x7E, 0x42, 0x42, 0x42, 0x42, 0x42, 0x42, 0x7E, 0x5E, 0x7E, 0x0A, 0x7C, 0x56, 0x38,
        0x7C,
    ];
    for k in 0..16u16 {
        memory.write(0x8000 + 64 + k, bytes[k as usize]);
    }
    memory.write(0x9800 + 32 + 2, 64);
    let mut display = Display::new();
    display.update(&memory);
    for row in 0..8usize {
        let line = TileLine::new(bytes[2 * row], bytes[2 * row + 1]);
        for column in 0..8usize {
            assert_eq!(display.lines[8 + row].pixels[16 + column], line.pixel(column));
        }
    }
    assert_eq!(display.lines[8].pixels[16], Color::C0);
    assert_eq!(display.lines[8].pixels[17], Color::C2);
    assert_eq!(display.lines[8].pixels[18], Color::C3);
    assert_eq!(display.lines[12].pixels[18], Color::C1);
    assert_shows_background(&display, &memory);
}

#[test]
fn update_follows_the_scroll_registers() {
    let mut memory = MemoryMap::new();
    memory.write(0xFF40, 0b0001_0000);
    memory.write(0x8000 + 1, 0b1000_0000);
    memory.write(0x9800, 1);
    memory.write(0xFF43, 250);
    memory.write(0xFF42, 253);
    let mut display = Display::new();
    display.update(&memory);
    assert_eq!(display.lines[3].pixels[6], Color::C1);
    assert_eq!(display.lines[3].pixels[5], Color::C0);
    assert_eq!(display.lines[3].pixels[7], Color::C0);
    assert_eq!(display.lines[2].pixels[6], Color::C0);
    assert_eq!(display.lines[4].pixels[6], Color::C0);
    assert_shows_background(&display, &memory);
}

#[test]
fn update_takes_the_map_that_bit_three_selects() {
    let mut memory = MemoryMap::new();
    memory.write(0x8800 + 7, 0xFF);
    memory.write(0x8800 + 8, 0xFF);
    memory.write(0x9C00, 7);
    let mut display = Display::new();
    display.update(&memory);
    assert_eq!(display.lines[0].pixels[0], expected_background(&memory, 0, 0));
    let first = display.lines[0].pixels[0];
    memory.write(0xFF40, 0b0000_1000);
    display.update(&memory);
    assert_eq!(display.lines[0].pixels[0], Color::C3);
    assert_ne!(first, Color::C3);
    assert_shows_background(&display, &memory);
}

#[test]
fn update_matches_the_background_for_any_memory() {
    let mut memory = busy_memory();
    let mut display = Display::new();
    for (control, scroll_x, scroll_y) in
        [(0x00u8, 0u8, 0u8), (0x10, 3, 5), (0x08, 200, 130), (0x18, 255, 255), (0xE7, 97, 113)]
    {
        memory.write(0xFF40, control);
        memory.write(0xFF43, scroll_x);
        memory.write(0xFF42, scroll_y);
        display.update(&memory);
        assert_shows_background(&display, &memory);
    }
}
