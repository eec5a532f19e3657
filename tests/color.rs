use ransid::{Block, Color};

#[test]
fn standard_palette_entries() {
    assert_eq!(Color::Ansi(0).as_rgb(), 0xFF00_0000);
    assert_eq!(Color::Ansi(1).as_rgb(), 0xFF80_0000);
    assert_eq!(Color::Ansi(7).as_rgb(), 0xFFC0_C0C0);
    assert_eq!(Color::Ansi(8).as_rgb(), 0xFF80_8080);
    assert_eq!(Color::Ansi(12).as_rgb(), 0xFF00_00FF);
    assert_eq!(Color::Ansi(15).as_rgb(), 0xFFFF_FFFF);
}

#[test]
fn color_cube_entries() {
    assert_eq!(Color::Ansi(16).as_rgb(), 0xFF00_0000);
    assert_eq!(Color::Ansi(21).as_rgb(), 0xFF00_00F0);
    assert_eq!(Color::Ansi(196).as_rgb(), 0xFFF0_0000);
    // 16 + 36 + 6 + 1: one step in each channel
    assert_eq!(Color::Ansi(59).as_rgb(), 0xFF50_5050);
    assert_eq!(Color::Ansi(231).as_rgb(), 0xFFF0_F0F0);
}

#[test]
fn grayscale_ramp_entries() {
    assert_eq!(Color::Ansi(232).as_rgb(), 0xFF08_0808);
    assert_eq!(Color::Ansi(244).as_rgb(), 0xFF80_8080);
    assert_eq!(Color::Ansi(255).as_rgb(), 0xFFEE_EEEE);
}

#[test]
fn true_color_packs_channels() {
    assert_eq!(Color::TrueColor(0x12, 0x34, 0x56).as_rgb(), 0xFF12_3456);
    assert_eq!(Color::TrueColor(0, 0, 0).as_rgb(), 0xFF00_0000);
}

#[test]
fn every_index_is_opaque_and_stable() {
    for i in 0..=255u8 {
        let a = Color::Ansi(i).as_rgb();
        assert_eq!(a >> 24, 0xFF, "index {}", i);
        assert_eq!(a, Color::Ansi(i).as_rgb());
    }
}

#[test]
fn blank_block() {
    let b = Block::new();
    assert_eq!(b.c, ' ');
    assert_eq!(b.fg, Color::Ansi(7));
    assert_eq!(b.bg, Color::Ansi(0));
    assert!(!b.bold);
    assert!(!b.underlined);
}
