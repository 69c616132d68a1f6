use chip16::machine::MEMORY;
use chip16::sprite::draw_sprite;
use chip16::sprite::plot;
use chip16::Color;
use chip16::Framebuffer;
use chip16::Sprite;
use chip16::State;
use chip16::CHIP16;

const WHITE: u32 = 0xFFFF_FFFF;

fn memory_with(addr: usize, data: &[u8]) -> Box<[u8; MEMORY]> {
    let mut memory = Box::new([0u8; MEMORY]);
    memory[addr..addr + data.len()].copy_from_slice(data);
    memory
}

fn lit(screen: &Framebuffer) -> Vec<(usize, usize)> {
    let mut out = Vec::new();
    for (k, cell) in screen.as_slice().iter().enumerate() {
        if *cell == WHITE {
            out.push((k % 320, k / 320));
        }
    }
    out
}

#[test]
fn framebuffer_starts_dark() {
    let screen = Framebuffer::new();
    assert_eq!(screen.len(), 320 * 240);
    assert_eq!(screen.as_slice().len(), 76_800);
    assert!(screen.as_slice().iter().all(|cell| *cell == 0));
    assert_eq!(screen.pixel(0, 0), Some(0));
    assert_eq!(screen.pixel(319, 239), Some(0));
    assert_eq!(screen.pixel(320, 0), None);
    assert_eq!(screen.pixel(0, 240), None);
}

#[test]
fn framebuffer_is_row_major() {
    let mut screen = Framebuffer::new();
    screen.set(320 * 2 + 5, 42);
    assert_eq!(screen.get(645), 42);
    assert_eq!(screen.pixel(5, 2), Some(42));
    assert_eq!(screen.pixel(2, 5), Some(0));
}

#[test]
fn palette_indices_and_packed_values() {
    assert_eq!(Color::from(0u8), Color::Transparent);
    assert_eq!(Color::from(1u8), Color::Black);
    assert_eq!(Color::from(8u8), Color::Yelow);
    assert_eq!(Color::from(15u8), Color::White);
    assert_eq!(Color::from(16u8), Color::Transparent);
    assert_eq!(Color::from(255u8), Color::Transparent);
    for index in 0u8..16 {
        assert_eq!(Color::from(index).index(), index);
    }
    assert_eq!(u32::from(Color::White), WHITE);
    assert_eq!(u32::from(Color::Transparent), 0);
    assert_eq!(u32::from(Color::Red), 0);
    let packed: u32 = Color::White.into();
    assert_eq!(packed, WHITE);
}

#[test]
fn plot_clips_and_skips_transparent() {
    let mut screen = Framebuffer::new();
    assert!(!plot(&mut screen, 3, 4, 15, 0));
    assert_eq!(lit(&screen), vec![(3, 4)]);
    assert!(plot(&mut screen, 3, 4, 15, 0));
    assert!(!plot(&mut screen, 3, 4, 0, 0));
    assert_eq!(screen.pixel(3, 4), Some(WHITE));
    assert!(!plot(&mut screen, -1, 4, 15, 0));
    assert!(!plot(&mut screen, 320, 4, 15, 0));
    assert!(!plot(&mut screen, 3, -1, 15, 0));
    assert!(!plot(&mut screen, 3, 240, 15, 0));
    assert_eq!(lit(&screen), vec![(3, 4)]);
    // An opaque dark pixel overwrites the cell.
    assert!(plot(&mut screen, 3, 4, 3, 0));
    assert_eq!(screen.pixel(3, 4), Some(0));
}

#[test]
fn sprite_nibbles_go_left_then_right() {
    let memory = memory_with(0x200, &[0xF0, 0x0F, 0xFF, 0x00]);
    let sprite = Sprite { addr: 0x200, width: 2, height: 2, x: 10, y: 20 };
    let mut screen = Framebuffer::new();
    let hit = draw_sprite(&memory, sprite, 0, &mut screen);
    assert!(!hit);
    assert_eq!(lit(&screen), vec![(10, 20), (13, 20), (10, 21), (11, 21)]);
}

#[test]
fn transparent_sprite_changes_nothing() {
    let memory = memory_with(0x200, &[0; 64]);
    let sprite = Sprite { addr: 0x200, width: 8, height: 8, x: 100, y: 100 };
    let mut screen = Framebuffer::new();
    screen.fill(0xABCD_EF01);
    screen.set(320 * 100 + 100, 5);
    let before = screen.as_slice().to_vec();
    let hit = draw_sprite(&memory, sprite, 0, &mut screen);
    assert!(!hit);
    assert_eq!(screen.as_slice(), &before[..]);
}

#[test]
fn transparent_pixels_keep_what_is_under_them() {
    let memory = memory_with(0x10, &[0x0F]);
    let sprite = Sprite { addr: 0x10, width: 1, height: 1, x: 0, y: 0 };
    let mut screen = Framebuffer::new();
    screen.fill(9);
    draw_sprite(&memory, sprite, 9, &mut screen);
    assert_eq!(screen.pixel(0, 0), Some(9));
    assert_eq!(screen.pixel(1, 0), Some(WHITE));
    assert_eq!(screen.pixel(2, 0), Some(9));
}

#[test]
fn sprite_is_clipped_on_the_right() {
    let memory = memory_with(0x200, &[0xFF, 0xFF]);
    let sprite = Sprite { addr: 0x200, width: 2, height: 1, x: 317, y: 10 };
    let mut screen = Framebuffer::new();
    draw_sprite(&memory, sprite, 0, &mut screen);
    assert_eq!(lit(&screen), vec![(317, 10), (318, 10), (319, 10)]);
    assert_eq!(screen.pixel(0, 11), Some(0));
}

#[test]
fn sprite_is_clipped_on_the_left_and_top() {
    let memory = memory_with(0x200, &[0xFF, 0xFF, 0xFF, 0xFF]);
    let sprite = Sprite { addr: 0x200, width: 2, height: 2, x: -3, y: -1 };
    let mut screen = Framebuffer::new();
    draw_sprite(&memory, sprite, 0, &mut screen);
    assert_eq!(lit(&screen), vec![(0, 0)]);
}

#[test]
fn sprite_is_clipped_at_the_bottom() {
    let memory = memory_with(0x200, &[0xF0, 0xF0, 0xF0]);
    let sprite = Sprite { addr: 0x200, width: 1, height: 3, x: 4, y: 238 };
    let mut screen = Framebuffer::new();
    draw_sprite(&memory, sprite, 0, &mut screen);
    assert_eq!(lit(&screen), vec![(4, 238), (4, 239)]);
}

#[test]
fn sprite_far_off_the_display_draws_nothing() {
    let memory = memory_with(0x200, &[0xFF; 16]);
    let mut screen = Framebuffer::new();
    for (x, y) in [(i16::MIN, 0), (i16::MAX, 0), (0, i16::MIN), (0, i16::MAX), (-8, 0), (320, 239)] {
        let sprite = Sprite { addr: 0x200, width: 4, height: 4, x, y };
        assert!(!draw_sprite(&memory, sprite, 0, &mut screen));
    }
    assert!(lit(&screen).is_empty());
}

#[test]
fn empty_sprite_draws_nothing() {
    let memory = memory_with(0x200, &[0xFF; 16]);
    let mut screen = Framebuffer::new();
    assert!(!draw_sprite(&memory, Sprite { addr: 0x200, width: 0, height: 4, x: 0, y: 0 }, 0, &mut screen));
    assert!(!draw_sprite(&memory, Sprite { addr: 0x200, width: 4, height: 0, x: 0, y: 0 }, 0, &mut screen));
    assert!(lit(&screen).is_empty());
}

#[test]
fn sprite_data_wraps_around_memory() {
    // Two bytes at the last cell and, after the wrap, at cell 1: the
    // address 0xFFFF in between names cell 0 again.
    let mut memory = memory_with(0, &[0x0F, 0xF0]);
    memory[0xFFFE] = 0xFF;
    let sprite = Sprite { addr: 0xFFFE, width: 4, height: 1, x: 0, y: 0 };
    let mut screen = Framebuffer::new();
    draw_sprite(&memory, sprite, 0, &mut screen);
    // cells: 0xFFFE -> FF, 0xFFFF -> cell 0 -> 0F, 0x0000 -> cell 0 -> 0F, 0x0001 -> F0
    assert_eq!(lit(&screen), vec![(0, 0), (1, 0), (3, 0), (5, 0), (6, 0)]);
}

#[test]
fn collision_needs_an_opaque_pixel_on_a_foreign_cell() {
    let memory = memory_with(0x200, &[0xF0]);
    let sprite = Sprite { addr: 0x200, width: 1, height: 1, x: 50, y: 50 };
    let mut screen = Framebuffer::new();

    // Only the transparent pixel is over the foreign cell.
    screen.set(320 * 50 + 51, 77);
    assert!(!draw_sprite(&memory, sprite, 0, &mut screen));
    // Now the opaque pixel is over what the first draw left.
    assert!(draw_sprite(&memory, sprite, 0, &mut screen));
    // A cell that shows the background is no collision.
    assert!(!draw_sprite(&memory, sprite, WHITE, &mut screen));
    // A foreign cell off the sprite is none either.
    let away = Sprite { addr: 0x200, width: 1, height: 1, x: 60, y: 50 };
    assert!(!draw_sprite(&memory, away, 0, &mut screen));
}

#[test]
fn drw_draws_and_reports_collision_in_carry() {
    let mut payload = vec![
        0x04, 0x00, 0x01, 0x02, // SPR 1 x 2
        0x20, 0x00, 0x3F, 0x01, // LDI R0, 319
        0x20, 0x01, 0xEF, 0x00, // LDI R1, 239
        0x05, 0x10, 0x00, 0x01, // DRW R0, R1, 0x0100
        0x05, 0x10, 0x00, 0x01, // DRW R0, R1, 0x0100
    ];
    payload.resize(0x100, 0);
    payload.extend_from_slice(&[0xFF, 0xFF]);
    let mut image = vec![b'C', b'H', b'1', b'6', 0, 0];
    image.extend_from_slice(&(payload.len() as u32).to_le_bytes());
    image.extend_from_slice(&[0, 0, 0, 0, 0, 0]);
    image.extend_from_slice(&payload);
    let mut machine = match CHIP16::load(&image) {
        Ok(machine) => machine,
        Err(fault) => panic!("load failed: {:?}", fault),
    };
    let mut screen = Framebuffer::new();
    for _ in 0..4 {
        assert_eq!(machine.cycle(&mut screen), Ok(State::Continue));
    }
    assert_eq!(lit(&screen), vec![(319, 239)]);
    assert!(!machine.flags().carry);
    assert_eq!(machine.pc(), 16);
    assert_eq!(machine.cycle(&mut screen), Ok(State::Continue));
    assert!(machine.flags().carry);
    assert!(!machine.flags().zero);
    assert_eq!(lit(&screen), vec![(319, 239)]);
}

#[test]
fn drw_keeps_the_other_flags() {
    let mut payload = vec![
        0x20, 0x00, 0x01, 0x00, // LDI R0, 1
        0x50, 0x00, 0x02, 0x00, // SUB R0, 2: carry and negative
        0x04, 0x00, 0x01, 0x01, // SPR 1 x 1
        0x05, 0x11, 0x00, 0x01, // DRW R1, R1, 0x0100
    ];
    payload.resize(0x100, 0);
    payload.push(0xFF);
    let mut image = vec![b'C', b'H', b'1', b'6', 0, 0];
    image.extend_from_slice(&(payload.len() as u32).to_le_bytes());
    image.extend_from_slice(&[0, 0, 0, 0, 0, 0]);
    image.extend_from_slice(&payload);
    let mut machine = match CHIP16::load(&image) {
        Ok(machine) => machine,
        Err(fault) => panic!("load failed: {:?}", fault),
    };
    let mut screen = Framebuffer::new();
    for _ in 0..2 {
        assert_eq!(machine.cycle(&mut screen), Ok(State::Continue));
    }
    assert!(machine.flags().carry);
    assert!(machine.flags().negative);
    for _ in 0..2 {
        assert_eq!(machine.cycle(&mut screen), Ok(State::Continue));
    }
    assert!(!machine.flags().carry);
    assert!(machine.flags().negative);
    assert_eq!(lit(&screen), vec![(0, 0), (1, 0)]);
}
