use stm32f7_discovery::lcd::init::{frame_buffer_geometry, timing};
use stm32f7_discovery::lcd::stdout::{can_print, init, is_initialized, print, try_print, Stdout};
use stm32f7_discovery::lcd::{
    all_writable, AudioWriter, Color, FramebufferAl88, FramebufferArgb8888, Layer, HEIGHT, LAYER_1_LENGTH,
    LAYER_2_LENGTH, WIDTH,
};

fn layer_1() -> Layer<FramebufferArgb8888> {
    Layer::new(FramebufferArgb8888::new(vec![0x55; LAYER_1_LENGTH]))
}

fn layer_2() -> Layer<FramebufferAl88> {
    Layer::new(FramebufferAl88::new(vec![0x55; LAYER_2_LENGTH]))
}

fn argb(layer: &Layer<FramebufferArgb8888>, x: usize, y: usize) -> [u8; 4] {
    let m = layer.framebuffer().as_slice();
    let i = (y * WIDTH + x) * 4;
    [m[i], m[i + 1], m[i + 2], m[i + 3]]
}

fn al(layer: &Layer<FramebufferAl88>, x: usize, y: usize) -> [u8; 2] {
    let m = layer.framebuffer().as_slice();
    let i = (y * WIDTH + x) * 2;
    [m[i], m[i + 1]]
}

#[test]
fn lcd_clear_makes_everything_transparent() {
    let mut layer = layer_1();
    layer.clear();
    assert!(layer.framebuffer().as_slice().iter().all(|b| *b == 0));
    let mut layer = layer_2();
    layer.clear();
    assert!(layer.framebuffer().as_slice().iter().all(|b| *b == 0));
}

#[test]
fn lcd_points() {
    let mut layer = layer_1();
    layer.print_point_at(3, 2);
    assert_eq!(argb(&layer, 3, 2), [255, 255, 255, 255]);
    assert_eq!(argb(&layer, 4, 2), [0x55; 4]);
    layer.print_point_color_at(WIDTH - 1, HEIGHT - 1, Color::rgba(1, 2, 3, 4));
    assert_eq!(argb(&layer, WIDTH - 1, HEIGHT - 1), [4, 1, 2, 3]);
    let mut layer = layer_2();
    layer.print_point_color_at(0, 0, Color::rgba(9, 8, 7, 6));
    assert_eq!(al(&layer, 0, 0), [6, 9]);
}

#[test]
fn lcd_stripes() {
    let mut layer = layer_1();
    layer.horizontal_stripes();
    assert_eq!(argb(&layer, 0, 0), [255, 0xff, 0xff, 0xff]);
    assert_eq!(argb(&layer, 100, 15), [255, 0xcc, 0xcc, 0xcc]);
    assert_eq!(argb(&layer, 5, 65), [255, 0xff, 0x00, 0x00]);
    assert_eq!(argb(&layer, 5, 80), [255, 0xff, 0xff, 0xff]);
    layer.vertical_stripes();
    assert_eq!(argb(&layer, 0, 100), [255, 0xcc, 0xcc, 0xcc]);
    assert_eq!(argb(&layer, 79, 3), [255, 0xff, 0xff, 0xff]);
    assert_eq!(argb(&layer, 80, 3), [255, 0xcc, 0xcc, 0xcc]);
}

#[test]
fn lcd_audio_writer_columns() {
    let mut layer = layer_1();
    layer.clear();
    let mut audio = AudioWriter::new();
    // level of a sample: ((v + 0x8000) % 0x10000) / 241; v = 0 gives 135
    audio.set_next_col(&mut layer, 0, 0);
    // rows 0 to 135 of column 0 are red and green (from the previous level 0)
    assert_eq!(argb(&layer, 0, 0), [0xff, 0xff, 0xff, 0]);
    assert_eq!(argb(&layer, 0, 135), [0xff, 0xff, 0xff, 0]);
    assert_eq!(argb(&layer, 0, 136), [0, 0, 0, 0]);
    audio.set_next_col(&mut layer, 0x7fff, 0);
    // red from 135 up to 271, green stays at 135 only
    assert_eq!(argb(&layer, 1, 200), [0xff, 0xff, 0, 0]);
    assert_eq!(argb(&layer, 1, 135), [0xff, 0xff, 0xff, 0]);
    assert_eq!(argb(&layer, 1, 100), [0, 0, 0, 0]);
}

#[test]
fn lcd_audio_writer_pixels() {
    let mut layer = layer_2();
    let mut audio = AudioWriter::new();
    for _ in 0..(WIDTH + 1) {
        audio.set_next_pixel(&mut layer, Color::rgba(7, 0, 0, 1));
    }
    assert_eq!(al(&layer, WIDTH - 1, 0), [1, 7]);
    assert_eq!(al(&layer, 0, 1), [1, 7]);
    assert_eq!(al(&layer, 1, 1), [0x55, 0x55]);
}

#[test]
fn lcd_text_writer_draws_glyphs() {
    let mut layer = layer_1();
    layer.clear();
    {
        let mut w = layer.text_writer();
        w.write_str("I\nA");
        assert_eq!((w.x_pos, w.y_pos), (8, 8));
    }
    // the glyph of 'I' in font8x8: row 0 is 0x1E (columns 1 to 4)
    assert_eq!(argb(&layer, 0, 0)[0], 0);
    assert_eq!(argb(&layer, 1, 0), [255, 255, 255, 255]);
    assert_eq!(argb(&layer, 4, 0), [255, 255, 255, 255]);
    assert_eq!(argb(&layer, 5, 0)[0], 0);
    // 'A' starts the second line: row 0 of its glyph is 0x0C
    assert_eq!(argb(&layer, 2, 8), [255, 255, 255, 255]);
    assert_eq!(argb(&layer, 0, 8)[0], 0);
}

#[test]
fn lcd_text_writer_wraps_and_clears() {
    let mut layer = layer_2();
    let mut w = layer.text_writer();
    let line = "#".repeat(WIDTH / 8);
    w.write_str(&line);
    assert_eq!((w.x_pos, w.y_pos), (WIDTH, 0));
    w.write_str("#");
    assert_eq!((w.x_pos, w.y_pos), (8, 8));
    w.write_str("\r");
    assert_eq!(w.x_pos, 0);
    w.y_pos = HEIGHT;
    w.write_str("#");
    assert_eq!((w.x_pos, w.y_pos), (8, 0));
    w.clear();
    assert_eq!((w.x_pos, w.y_pos), (0, 0));
}

#[test]
fn lcd_stdout() {
    let mut layer = layer_2();
    let mut other_layer = layer_2();
    let mut out = Stdout::new();
    assert!(!is_initialized(&out));
    init(&mut out, &mut layer);
    assert!(is_initialized(&out));
    print(&mut out, "ok\n");
    // once initialized it stays so, through prints and a second init
    assert!(is_initialized(&out));
    init(&mut out, &mut other_layer);
    assert!(is_initialized(&out));
    drop(out);
    assert_eq!(al(&layer, 1, 0)[1], 255);
}

#[test]
fn lcd_controller_timing() {
    let t = timing();
    assert_eq!((t.hsw, t.vsh), (40, 9));
    assert_eq!((t.ahbp, t.avbp), (53, 11));
    assert_eq!((t.aaw, t.aah), (533, 283));
    assert_eq!((t.total_width, t.total_height), (565, 285));
    assert_eq!((t.window_h_start, t.window_h_stop), (54, 533));
    assert_eq!((t.window_v_start, t.window_v_stop), (12, 283));
    assert_eq!(frame_buffer_geometry(4), (1920, 1923, 272));
    assert_eq!(frame_buffer_geometry(2), (960, 963, 272));
}

#[test]
fn lcd_text_writer_fits() {
    let mut layer = layer_2();
    let mut w = layer.text_writer();
    assert!(w.fits("Hello\r\n"));
    // a cursor off the character grid: glyphs are drawn where it points
    w.x_pos = 3;
    w.y_pos = 5;
    assert!(w.fits("ab"));
    w.write_str("ab");
    assert_eq!((w.x_pos, w.y_pos), (19, 5));
    // from column 19 on, the 58th glyph would cross the right edge
    assert!(w.fits(&"#".repeat(57)));
    assert!(!w.fits(&"#".repeat(58)));
    // near the bottom edge a glyph does not fit either
    w.x_pos = 0;
    w.y_pos = HEIGHT - 4;
    assert!(!w.fits("#"));
    assert!(w.fits("\n\r"));
    // below the bottom edge the screen is cleared first
    w.y_pos = HEIGHT;
    assert!(w.fits("#"));
    // at the right edge the glyph wraps to the next line
    w.x_pos = WIDTH;
    w.y_pos = 0;
    assert!(w.fits("#"));
}

#[test]
fn lcd_stdout_can_print() {
    let mut layer = layer_2();
    let mut out = Stdout::new();
    assert!(!can_print(&out, "a"));
    init(&mut out, &mut layer);
    assert!(can_print(&out, "a\n"));
    print(&mut out, "a\n");
    assert!(can_print(&out, &"#".repeat(60)));
}

#[test]
fn lcd_checked_writes() {
    assert!(all_writable("ab ~\r\n"));
    assert!(!all_writable("a\u{e9}"));
    let mut layer = layer_2();
    {
        let mut w = layer.text_writer();
        // an unprintable character: nothing is written
        assert!(!w.try_write_str("x\u{7f}"));
        assert_eq!((w.x_pos, w.y_pos), (0, 0));
        assert!(w.try_write_str("ok"));
        assert_eq!((w.x_pos, w.y_pos), (16, 0));
    }
    let mut out = Stdout::new();
    // not initialized: nothing is printed
    assert!(!try_print(&mut out, "a"));
    assert!(!is_initialized(&out));
    init(&mut out, &mut layer);
    assert!(try_print(&mut out, "a\n"));
    assert!(!try_print(&mut out, "\t"));
}
