use stm32f7_discovery::lcd::Color;

#[test]
fn color_rgb_is_opaque() {
    let c = Color::rgb(0x12, 0x34, 0x56);
    assert_eq!((c.red, c.green, c.blue, c.alpha), (0x12, 0x34, 0x56, 255));
}

#[test]
fn color_rgba_keeps_channels() {
    let c = Color::rgba(1, 2, 3, 4);
    assert_eq!((c.red, c.green, c.blue, c.alpha), (1, 2, 3, 4));
}

#[test]
fn color_to_rgb_packs_channels() {
    assert_eq!(Color::rgba(0x12, 0x34, 0x56, 0x78).to_rgb(), 0x12_34_56);
    assert_eq!(Color::rgba(0x12, 0x34, 0x56, 0x78).to_rgb888(), 0x12_34_56);
}

#[test]
fn color_from_hex_unpacks_channels() {
    let c = Color::from_hex(0xab_cd_ef);
    assert_eq!((c.red, c.green, c.blue, c.alpha), (0xab, 0xcd, 0xef, 255));
    let d = Color::from_rgb888(0x01_02_03);
    assert_eq!((d.red, d.green, d.blue, d.alpha), (1, 2, 3, 255));
}

#[test]
fn color_argb8888_round_trip() {
    let c = Color::rgba(0x12, 0x34, 0x56, 0x78);
    assert_eq!(c.to_argb8888(), 0x78_12_34_56);
    assert_eq!(Color::from_argb8888(0x78_12_34_56), c);
    for v in [0u32, 1, 0xffff_ffff, 0x8000_0001, 0x1234_5678] {
        assert_eq!(Color::from_argb8888(v).to_argb8888(), v);
    }
}

#[test]
fn color_argb1555_encoding() {
    let c = Color::rgba(0xff, 0x80, 0x08, 0x80);
    // alpha bit, red 11111, green 10000, blue 00001
    assert_eq!(c.to_argb1555(), 0b1_11111_10000_00001);
    let back = Color::from_argb1555(0b1_11111_10000_00001);
    assert_eq!((back.alpha, back.red, back.green, back.blue), (0x80, 0xf8, 0x80, 0x08));
}

#[test]
fn color_argb1555_round_trip_on_values() {
    for v in [0u16, 1, 0x7fff, 0x8000, 0xffff, 0x1234, 0xabcd] {
        assert_eq!(Color::from_argb1555(v).to_argb1555(), v);
    }
}

#[test]
fn color_argb1555_truncates_low_bits() {
    let c = Color::rgba(0x17, 0x2f, 0x33, 0x7f);
    let back = Color::from_argb1555(c.to_argb1555());
    assert_eq!((back.red, back.green, back.blue, back.alpha), (0x10, 0x28, 0x30, 0x00));
}
