use mono_text::draw_target::{CommandLog, DrawCommand, LogFull};
use mono_text::font::MonoFont;
use mono_text::geometry::{Pixel, Point, Rectangle, Size};
use mono_text::mono_text_style::{MonoTextStyle, MonoTextStyleBuilder};
use mono_text::text::{Baseline, DecorationColor};

// Colors are the characters that a display pattern shows for them.
const WHITE: char = 'W';
const RED: char = 'R';
const GREEN: char = 'G';
const YELLOW: char = 'Y';
const ON: char = '#';
const OFF: char = '.';

const GLYPHS: &[(char, [&str; 9])] = &[
    (
        'A',
        ["      ", "  #   ", " # #  ", "#   # ", "##### ", "#   # ", "#   # ", "      ", "      "],
    ),
    (
        'B',
        ["      ", "####  ", "#   # ", "####  ", "#   # ", "#   # ", "####  ", "      ", "      "],
    ),
    (
        'C',
        ["      ", "  ##  ", " #  # ", " #    ", " #    ", " #  # ", "  ##  ", "      ", "      "],
    ),
    (
        '#',
        ["      ", " # #  ", " # #  ", "##### ", " # #  ", "##### ", " # #  ", " # #  ", "      "],
    ),
    (
        '?',
        ["      ", " ###  ", "#   # ", "   #  ", "  #   ", "  #   ", "      ", "  #   ", "      "],
    ),
];

/// The image of a 6x9 font for the printable ASCII characters, 16 glyphs per
/// row; the glyphs that no test draws are left blank.
fn font_image() -> Vec<u8> {
    let image_width = 6 * 16;
    let mut image = vec![0u8; image_width / 8 * 9 * 6];
    for (c, rows) in GLYPHS {
        let g = *c as usize - ' ' as usize;
        for (y, row) in rows.iter().enumerate() {
            for (x, p) in row.chars().enumerate() {
                if p == '#' {
                    let bit = ((g / 16) * 9 + y) * image_width + (g % 16) * 6 + x;
                    image[bit / 8] |= 0x80 >> (bit % 8);
                }
            }
        }
    }
    image
}

fn font_6x9(image: &[u8]) -> MonoFont<'_> {
    MonoFont {
        image,
        image_width: 6 * 16,
        character_size: Size::new(6, 9),
        character_spacing: 0,
        baseline: Some(6),
        underline_offset: 6 + 2,
        underline_height: 1,
        strikethrough_offset: 4,
        strikethrough_height: 1,
        first_char: ' ' as u32,
        glyph_count: 95,
        replacement_glyph: '?' as u32 - ' ' as u32,
    }
}

fn font_10x20(image: &[u8]) -> MonoFont<'_> {
    MonoFont {
        character_size: Size::new(10, 20),
        baseline: Some(15),
        underline_offset: 17,
        strikethrough_offset: 10,
        image_width: 10 * 16,
        ..font_6x9(image)
    }
}

fn spaced_font(image: &[u8]) -> MonoFont<'_> {
    MonoFont {
        character_spacing: 5,
        baseline: None,
        underline_offset: 9,
        ..font_6x9(image)
    }
}

/// A 64x64 display: it records the calls it receives in a `CommandLog`, and
/// shows them by replaying them onto its pixels, refusing, unless allowed,
/// to draw a pixel twice.
struct MockDisplay {
    log: CommandLog<char>,
    pixels: Vec<Option<char>>,
    allow_overdraw: bool,
}

const DISPLAY_SIZE: i32 = 64;

impl MockDisplay {
    fn new() -> Self {
        MockDisplay {
            log: CommandLog::new(usize::MAX),
            pixels: vec![None; (DISPLAY_SIZE * DISPLAY_SIZE) as usize],
            allow_overdraw: false,
        }
    }

    /// The sink to draw on.
    fn target(&mut self) -> &mut CommandLog<char> {
        &mut self.log
    }

    fn set_allow_overdraw(&mut self, allow: bool) {
        self.allow_overdraw = allow;
    }

    /// Fills every pixel with `color` before anything is drawn.
    fn fill_with(&mut self, color: char) {
        self.pixels = vec![Some(color); (DISPLAY_SIZE * DISPLAY_SIZE) as usize];
    }

    fn set(&self, pixels: &mut [Option<char>], drawn: &mut [bool], p: Point, color: char) {
        assert!(
            p.x >= 0 && p.y >= 0 && p.x < DISPLAY_SIZE && p.y < DISPLAY_SIZE,
            "pixel outside the display: {:?}",
            p
        );
        let i = (p.y * DISPLAY_SIZE + p.x) as usize;
        assert!(self.allow_overdraw || !drawn[i], "pixel drawn twice: {:?}", p);
        drawn[i] = true;
        pixels[i] = Some(color);
    }

    /// The pixels after replaying every recorded call.
    fn rendered(&self) -> Vec<Option<char>> {
        let mut pixels = self.pixels.clone();
        let mut drawn = vec![false; pixels.len()];
        for command in &self.log.commands {
            match command {
                DrawCommand::FillSolid(area, color) => {
                    for dy in 0..area.size.height as i32 {
                        for dx in 0..area.size.width as i32 {
                            let p = Point::new(area.top_left.x + dx, area.top_left.y + dy);
                            self.set(&mut pixels, &mut drawn, p, *color);
                        }
                    }
                }
                DrawCommand::FillContiguous(area, colors) => {
                    assert_eq!(colors.len(), (area.size.width * area.size.height) as usize);
                    for (i, color) in colors.iter().enumerate() {
                        let dx = (i % area.size.width as usize) as i32;
                        let dy = (i / area.size.width as usize) as i32;
                        let p = Point::new(area.top_left.x + dx, area.top_left.y + dy);
                        self.set(&mut pixels, &mut drawn, p, *color);
                    }
                }
                DrawCommand::DrawPixels(list) => {
                    for Pixel(p, color) in list {
                        self.set(&mut pixels, &mut drawn, *p, *color);
                    }
                }
            }
        }
        pixels
    }

    fn assert_pattern(&self, pattern: &[&str]) {
        let pixels = self.rendered();
        for y in 0..DISPLAY_SIZE {
            for x in 0..DISPLAY_SIZE {
                let expected = pattern
                    .get(y as usize)
                    .and_then(|row| row.chars().nth(x as usize))
                    .filter(|c| *c != ' ');
                let got = pixels[(y * DISPLAY_SIZE + x) as usize];
                assert_eq!(got, expected, "pixel ({}, {})", x, y);
            }
        }
    }

    fn assert_eq(&self, other: &MockDisplay) {
        assert!(self.rendered() == other.rendered(), "the displays differ");
    }
}

/// The names of the sink calls that `log` recorded.
fn call_names(log: &CommandLog<char>) -> Vec<&'static str> {
    log.commands
        .iter()
        .map(|c| match c {
            DrawCommand::FillSolid(..) => "fill_solid",
            DrawCommand::FillContiguous(..) => "fill_contiguous",
            DrawCommand::DrawPixels(..) => "draw_iter",
        })
        .collect()
}

fn draw_text(style: &MonoTextStyle<char, MonoFont<'_>>, text: &str, position: Point, baseline: Baseline) -> MockDisplay {
    let mut display = MockDisplay::new();
    style.draw_string(text, position, baseline, display.target()).unwrap();
    display
}

#[test]
fn builder_default() {
    let image = font_image();
    assert_eq!(
        MonoTextStyleBuilder::<char, _>::new()
            .font(font_10x20(&image))
            .build(),
        MonoTextStyle {
            font: font_10x20(&image),
            text_color: None,
            background_color: None,
            underline_color: DecorationColor::Disabled,
            strikethrough_color: DecorationColor::Disabled,
        }
    );
}

#[test]
fn builder_text_color() {
    let image = font_image();
    assert_eq!(
        MonoTextStyleBuilder::new()
            .font(font_10x20(&image))
            .text_color(ON)
            .build(),
        MonoTextStyle::new(font_10x20(&image), ON)
    );
}

#[test]
fn builder_background_color() {
    let image = font_image();
    assert_eq!(
        MonoTextStyleBuilder::new()
            .font(font_10x20(&image))
            .background_color(ON)
            .build(),
        {
            let mut style = MonoTextStyleBuilder::new().font(font_10x20(&image)).build();

            style.text_color = None;
            style.background_color = Some(ON);

            style
        }
    );
}

#[test]
fn underline_text_color() {
    let image = font_image();
    let style = MonoTextStyleBuilder::new()
        .font(font_6x9(&image))
        .text_color(WHITE)
        .underline()
        .build();

    let display = draw_text(&style, "ABC", Point::new(0, 6), Baseline::Alphabetic);

    display.assert_pattern(&[
        "                  ",
        "  W   WWWW    WW  ",
        " W W  W   W  W  W ",
        "W   W WWWW   W    ",
        "WWWWW W   W  W    ",
        "W   W W   W  W  W ",
        "W   W WWWW    WW  ",
        "                  ",
        "WWWWWWWWWWWWWWWWWW",
    ]);
}

#[test]
fn underline_text_color_with_alignment() {
    let image = font_image();
    let style = MonoTextStyleBuilder::new()
        .font(font_6x9(&image))
        .text_color(WHITE)
        .underline()
        .build();

    let display = draw_text(&style, "ABC", Point::new(0, 6), Baseline::Middle);

    display.assert_pattern(&[
        "                  ",
        "                  ",
        "                  ",
        "  W   WWWW    WW  ",
        " W W  W   W  W  W ",
        "W   W WWWW   W    ",
        "WWWWW W   W  W    ",
        "W   W W   W  W  W ",
        "W   W WWWW    WW  ",
        "                  ",
        "WWWWWWWWWWWWWWWWWW",
    ]);
}

#[test]
fn underline_custom_color() {
    let image = font_image();
    let style = MonoTextStyleBuilder::new()
        .font(font_6x9(&image))
        .text_color(WHITE)
        .underline_with_color(RED)
        .build();

    let display = draw_text(&style, "ABC", Point::new(0, 6), Baseline::Alphabetic);

    display.assert_pattern(&[
        "                  ",
        "  W   WWWW    WW  ",
        " W W  W   W  W  W ",
        "W   W WWWW   W    ",
        "WWWWW W   W  W    ",
        "W   W W   W  W  W ",
        "W   W WWWW    WW  ",
        "                  ",
        "RRRRRRRRRRRRRRRRRR",
    ]);
}

#[test]
fn strikethrough_text_color() {
    let image = font_image();
    let style = MonoTextStyleBuilder::new()
        .font(font_6x9(&image))
        .text_color(WHITE)
        .strikethrough()
        .build();

    let mut display = MockDisplay::new();
    display.set_allow_overdraw(true);
    style
        .draw_string("ABC", Point::new(0, 6), Baseline::Alphabetic, display.target())
        .unwrap();

    display.assert_pattern(&[
        "                  ",
        "  W   WWWW    WW  ",
        " W W  W   W  W  W ",
        "W   W WWWW   W    ",
        "WWWWWWWWWWWWWWWWWW",
        "W   W W   W  W  W ",
        "W   W WWWW    WW  ",
    ]);
}

#[test]
fn strikethrough_custom_color() {
    let image = font_image();
    let style = MonoTextStyleBuilder::new()
        .font(font_6x9(&image))
        .text_color(WHITE)
        .strikethrough_with_color(RED)
        .build();

    let mut display = MockDisplay::new();
    display.set_allow_overdraw(true);
    style
        .draw_string("ABC", Point::new(0, 6), Baseline::Alphabetic, display.target())
        .unwrap();

    display.assert_pattern(&[
        "                  ",
        "  W   WWWW    WW  ",
        " W W  W   W  W  W ",
        "W   W WWWW   W    ",
        "RRRRRRRRRRRRRRRRRR",
        "W   W W   W  W  W ",
        "W   W WWWW    WW  ",
    ]);
}

#[test]
fn whitespace_background() {
    let image = font_image();
    let style = MonoTextStyleBuilder::new()
        .font(font_6x9(&image))
        .text_color(YELLOW)
        .background_color(WHITE)
        .build();

    let mut display = MockDisplay::new();
    style
        .draw_whitespace(4, Point::zero(), Baseline::Top, display.target())
        .unwrap();

    display.assert_pattern(&[
        "WWWW", //
        "WWWW", //
        "WWWW", //
        "WWWW", //
        "WWWW", //
        "WWWW", //
        "WWWW", //
        "WWWW", //
        "WWWW", //
    ]);
}

#[test]
fn whitespace_decorations() {
    let image = font_image();
    let style = MonoTextStyleBuilder::new()
        .font(font_6x9(&image))
        .text_color(YELLOW)
        .underline_with_color(GREEN)
        .strikethrough_with_color(RED)
        .build();

    let mut display = MockDisplay::new();
    style
        .draw_whitespace(3, Point::zero(), Baseline::Top, display.target())
        .unwrap();

    display.assert_pattern(&[
        "   ", //
        "   ", //
        "   ", //
        "   ", //
        "RRR", //
        "   ", //
        "   ", //
        "   ", //
        "GGG", //
    ]);
}

#[test]
fn whitespace_background_and_decorations() {
    let image = font_image();
    let style = MonoTextStyleBuilder::new()
        .font(font_6x9(&image))
        .text_color(YELLOW)
        .background_color(WHITE)
        .underline_with_color(GREEN)
        .strikethrough_with_color(RED)
        .build();

    let mut display = MockDisplay::new();
    display.set_allow_overdraw(true);

    style
        .draw_whitespace(8, Point::zero(), Baseline::Top, display.target())
        .unwrap();

    display.assert_pattern(&[
        "WWWWWWWW", //
        "WWWWWWWW", //
        "WWWWWWWW", //
        "WWWWWWWW", //
        "RRRRRRRR", //
        "WWWWWWWW", //
        "WWWWWWWW", //
        "WWWWWWWW", //
        "GGGGGGGG", //
    ]);
}

#[test]
fn character_spacing() {
    let image = font_image();
    let style = MonoTextStyle::new(spaced_font(&image), ON);
    let display = draw_text(&style, "##", Point::zero(), Baseline::Top);

    display.assert_pattern(&[
        "                 ",
        " # #        # #  ",
        " # #        # #  ",
        "#####      ##### ",
        " # #        # #  ",
        "#####      ##### ",
        " # #        # #  ",
        " # #        # #  ",
    ]);
}

#[test]
fn character_spacing_with_background() {
    let image = font_image();
    let style = MonoTextStyleBuilder::new()
        .font(spaced_font(&image))
        .text_color(ON)
        .background_color(OFF)
        .build();

    let display = draw_text(&style, "##", Point::zero(), Baseline::Top);

    display.assert_pattern(&[
        ".................",
        ".#.#........#.#..",
        ".#.#........#.#..",
        "#####......#####.",
        ".#.#........#.#..",
        "#####......#####.",
        ".#.#........#.#..",
        ".#.#........#.#..",
        ".................",
    ]);
}

#[test]
fn character_spacing_decorations() {
    let image = font_image();
    let style = MonoTextStyleBuilder::new()
        .font(spaced_font(&image))
        .text_color(WHITE)
        .underline_with_color(GREEN)
        .strikethrough_with_color(RED)
        .build();

    let mut display = MockDisplay::new();
    display.set_allow_overdraw(true);
    style
        .draw_string("##", Point::zero(), Baseline::Top, display.target())
        .unwrap();

    display.assert_pattern(&[
        "                 ",
        " W W        W W  ",
        " W W        W W  ",
        "WWWWW      WWWWW ",
        "RRRRRRRRRRRRRRRRR",
        "WWWWW      WWWWW ",
        " W W        W W  ",
        " W W        W W  ",
        "                 ",
        "GGGGGGGGGGGGGGGGG",
    ]);
}

#[test]
fn character_spacing_dimensions() {
    let image = font_image();
    let style = MonoTextStyleBuilder::new()
        .font(spaced_font(&image))
        .text_color(ON)
        .build();

    assert_eq!(
        style.measure_string("#", Point::zero(), Baseline::Top).bounding_box,
        Rectangle::new(Point::zero(), Size::new(6, 9)),
    );

    assert_eq!(
        style.measure_string("##", Point::zero(), Baseline::Top).bounding_box,
        Rectangle::new(Point::zero(), Size::new(6 * 2 + 5, 9)),
    );
    assert_eq!(
        style.measure_string("###", Point::zero(), Baseline::Top).bounding_box,
        Rectangle::new(Point::zero(), Size::new(6 * 3 + 5 * 2, 9)),
    );
}

#[test]
fn underlined_character_dimensions() {
    let image = font_image();
    let style = MonoTextStyleBuilder::new()
        .font(spaced_font(&image))
        .text_color(ON)
        .underline()
        .build();

    assert_eq!(
        style.measure_string("#", Point::zero(), Baseline::Top).bounding_box,
        Rectangle::new(Point::zero(), Size::new(6, 10)),
    );
}

#[test]
fn control_characters() {
    let image = font_image();
    let style = MonoTextStyle::new(font_6x9(&image), ON);

    let display = draw_text(&style, "A\t\n\rB", Point::zero(), Baseline::Top);
    let expected = draw_text(&style, "A???B", Point::zero(), Baseline::Top);

    display.assert_eq(&expected);
}

#[test]
fn character_style() {
    let image = font_image();
    let mut style = MonoTextStyle::new(font_6x9(&image), ON);
    style.set_text_color(None);
    style.set_background_color(Some(ON));
    style.set_underline_color(DecorationColor::TextColor);
    style.set_strikethrough_color(DecorationColor::Custom(ON));

    assert_eq!(
        style,
        MonoTextStyle {
            text_color: None,
            background_color: Some(ON),
            underline_color: DecorationColor::TextColor,
            strikethrough_color: DecorationColor::Custom(ON),
            font: font_6x9(&image),
        }
    );
}

const BASELINES: [Baseline; 4] = [
    Baseline::Top,
    Baseline::Middle,
    Baseline::Alphabetic,
    Baseline::Bottom,
];

#[test]
fn draw_string_return_value() {
    let image = font_image();
    let style = MonoTextStyle::new(font_6x9(&image), ON);
    let start = Point::new(10, 20);
    let expected_next = Point::new(start.x + 2 * 6, start.y);

    for baseline in BASELINES.iter() {
        let mut display = MockDisplay::new();
        let next = style
            .draw_string("AB", start, *baseline, display.target())
            .unwrap();

        assert_eq!(
            next, expected_next,
            "Unexpected next point for {:?}: {:?} (expected {:?})",
            baseline, next, expected_next
        );
    }
}

#[test]
fn draw_whitespace_return_value() {
    let image = font_image();
    let style = MonoTextStyle::new(font_6x9(&image), ON);
    let start = Point::new(10, 20);
    let expected_next = Point::new(start.x + 15, start.y);

    for baseline in BASELINES.iter() {
        let mut display = MockDisplay::new();
        let next = style
            .draw_whitespace(15, start, *baseline, display.target())
            .unwrap();

        assert_eq!(
            next, expected_next,
            "Unexpected next point for {:?}: {:?} (expected {:?})",
            baseline, next, expected_next
        );
    }
}

fn on_bits(font: &MonoFont<'_>, c: char) -> usize {
    font.raster(c).iter().filter(|on| **on).count()
}

#[test]
fn raster_gives_one_sample_per_pixel() {
    let image = font_image();
    let font = font_6x9(&image);
    let samples = font.raster('A');
    assert_eq!(samples.len(), 6 * 9);
    assert_eq!(on_bits(&font, 'A'), 14);
    // Row 1 of 'A' has a single pixel in column 2.
    assert_eq!(&samples[6..12], &[false, false, true, false, false, false]);
    assert_eq!(font.glyph_offset('A'), 33);
    assert_eq!(font.glyph_offset('\t'), 31);
    assert_eq!(font.glyph_offset('\u{e9}'), 31);
    assert_eq!(font.raster('\n'), font.raster('?'));
}

#[test]
fn opaque_text_fills_each_cell_once() {
    let image = font_image();
    let style = MonoTextStyleBuilder::new()
        .font(font_6x9(&image))
        .text_color(WHITE)
        .background_color(OFF)
        .build();
    let mut recorder = CommandLog::new(usize::MAX);
    style
        .draw_string("ABC", Point::zero(), Baseline::Top, &mut recorder)
        .unwrap();
    assert_eq!(call_names(&recorder), vec!["fill_contiguous"; 3]);

    let (commands, _) = style.string_commands("AB", Point::new(3, 4), Baseline::Top);
    assert_eq!(commands.len(), 2);
    for (k, command) in commands.iter().enumerate() {
        match command {
            DrawCommand::FillContiguous(area, colors) => {
                assert_eq!(
                    *area,
                    Rectangle::new(Point::new(3 + 6 * k as i32, 4), Size::new(6, 9))
                );
                assert_eq!(colors.len(), 54);
            }
            other => panic!("unexpected command {:?}", other),
        }
    }
}

#[test]
fn text_only_draws_exactly_the_on_bits() {
    let image = font_image();
    let font = font_6x9(&image);
    let style = MonoTextStyle::new(font, WHITE);

    let mut display = MockDisplay::new();
    display.fill_with('S');
    let next = style
        .draw_string("AB", Point::new(10, 20), Baseline::Top, display.target())
        .unwrap();
    assert_eq!(next, Point::new(22, 20));

    let a = font.raster('A');
    let b = font.raster('B');
    let pixels = display.rendered();
    for y in 0..DISPLAY_SIZE {
        for x in 0..DISPLAY_SIZE {
            let (dx, dy) = (x - 10, y - 20);
            let on = if (0..9).contains(&dy) && (0..6).contains(&dx) {
                a[(dy * 6 + dx) as usize]
            } else if (0..9).contains(&dy) && (6..12).contains(&dx) {
                b[(dy * 6 + dx - 6) as usize]
            } else {
                false
            };
            let expected = if on { WHITE } else { 'S' };
            let got = pixels[(y * DISPLAY_SIZE + x) as usize];
            assert_eq!(got, Some(expected), "pixel ({}, {})", x, y);
        }
    }

    let (commands, _) = style.string_commands("A", Point::zero(), Baseline::Top);
    match &commands[..] {
        [DrawCommand::DrawPixels(pixels)] => {
            assert_eq!(pixels.len(), on_bits(&font, 'A'));
            assert!(pixels.contains(&Pixel(Point::new(2, 1), WHITE)));
        }
        other => panic!("unexpected commands {:?}", other),
    }
}

#[test]
fn background_only_draws_exactly_the_off_bits() {
    let image = font_image();
    let font = font_6x9(&image);
    let style = MonoTextStyleBuilder::new().font(font).background_color(OFF).build();

    let display = draw_text(&style, "A", Point::zero(), Baseline::Top);
    display.assert_pattern(&[
        "......",
        ".. ...",
        ". . ..",
        " ... .",
        "     .",
        " ... .",
        " ... .",
        "......",
        "......",
    ]);

    let (commands, _) = style.string_commands("A", Point::zero(), Baseline::Top);
    match &commands[..] {
        [DrawCommand::DrawPixels(pixels)] => assert_eq!(pixels.len(), 54 - 14),
        other => panic!("unexpected commands {:?}", other),
    }
}

#[test]
fn no_colors_draw_nothing() {
    let image = font_image();
    let style = MonoTextStyleBuilder::<char, _>::new().font(font_6x9(&image)).build();
    let mut recorder = CommandLog::new(usize::MAX);
    let next = style
        .draw_string("ABC", Point::new(1, 2), Baseline::Bottom, &mut recorder)
        .unwrap();
    assert!(call_names(&recorder).is_empty());
    assert_eq!(next, Point::new(19, 2));
}

#[test]
fn measure_string_width() {
    let image = font_image();
    let plain = MonoTextStyle::new(font_6x9(&image), ON);
    let spaced = MonoTextStyle::new(spaced_font(&image), ON);

    let empty = spaced.measure_string("", Point::new(5, 7), Baseline::Top);
    assert_eq!(empty.bounding_box, Rectangle::new(Point::new(5, 7), Size::new(0, 9)));
    assert_eq!(empty.next_position, Point::new(5, 7));

    assert_eq!(plain.measure_string("AB", Point::zero(), Baseline::Top).bounding_box.size.width, 12);
    assert_eq!(spaced.measure_string("##", Point::zero(), Baseline::Top).bounding_box.size.width, 17);
    assert_eq!(spaced.measure_string("ABCD", Point::zero(), Baseline::Top).bounding_box.size.width, 4 * 11 - 5);
    // Characters are counted, not bytes.
    assert_eq!(spaced.measure_string("\u{e9}\u{e9}", Point::zero(), Baseline::Top).bounding_box.size.width, 17);

    let metrics = spaced.measure_string("##", Point::new(10, 20), Baseline::Bottom);
    assert_eq!(metrics.bounding_box.top_left, Point::new(10, 12));
    assert_eq!(metrics.next_position, Point::new(27, 20));
}

#[test]
fn measure_string_underline_band() {
    let image = font_image();
    let style = MonoTextStyleBuilder::<char, _>::new()
        .font(font_6x9(&image))
        .underline()
        .build();
    // The band of the 6x9 font ends at row 9, inside the cell.
    assert_eq!(style.measure_string("A", Point::zero(), Baseline::Top).bounding_box.size.height, 9);

    let tall = MonoFont { underline_offset: 12, underline_height: 2, ..font_6x9(&image) };
    let style = MonoTextStyleBuilder::<char, _>::new().font(tall).underline().build();
    assert_eq!(style.measure_string("A", Point::zero(), Baseline::Top).bounding_box.size.height, 14);
    let style = MonoTextStyleBuilder::<char, _>::new().font(tall).build();
    assert_eq!(style.measure_string("A", Point::zero(), Baseline::Top).bounding_box.size.height, 9);
}

#[test]
fn baselines_shift_the_line() {
    let image = font_image();
    let style = MonoTextStyle::new(font_6x9(&image), ON);
    let tops = [(Baseline::Top, 20), (Baseline::Middle, 16), (Baseline::Alphabetic, 14), (Baseline::Bottom, 12)];
    for (baseline, top) in tops.iter() {
        let metrics = style.measure_string("A", Point::new(10, 20), *baseline);
        assert_eq!(metrics.bounding_box.top_left, Point::new(10, *top));
    }
    // Without an explicit baseline, the alphabetic baseline is the bottom row.
    let spaced = MonoTextStyle::new(spaced_font(&image), ON);
    let metrics = spaced.measure_string("A", Point::new(10, 20), Baseline::Alphabetic);
    assert_eq!(metrics.bounding_box.top_left, Point::new(10, 12));
    assert_eq!(style.line_height(), 9);
}

#[test]
fn next_position_keeps_the_row() {
    let image = font_image();
    let style = MonoTextStyleBuilder::new()
        .font(spaced_font(&image))
        .text_color(WHITE)
        .background_color(OFF)
        .underline()
        .build();
    for baseline in BASELINES.iter() {
        let mut display = MockDisplay::new();
        display.set_allow_overdraw(true);
        let next = style
            .draw_string("AB", Point::new(3, 30), *baseline, display.target())
            .unwrap();
        assert_eq!(next, Point::new(3 + 17, 30));
        let next = style
            .draw_whitespace(7, next, *baseline, display.target())
            .unwrap();
        assert_eq!(next, Point::new(27, 30));
    }
}

#[test]
fn is_transparent_follows_resolved_colors() {
    let image = font_image();
    let builder = MonoTextStyleBuilder::<char, _>::new().font(font_6x9(&image));
    assert!(builder.build().is_transparent());
    assert!(!builder.text_color(ON).build().is_transparent());
    assert!(!builder.background_color(ON).build().is_transparent());
    assert!(builder.underline().strikethrough().build().is_transparent());
    assert!(!builder.underline_with_color(ON).build().is_transparent());
    assert!(!builder.strikethrough_with_color(ON).build().is_transparent());
    assert!(!builder.underline().text_color(ON).build().is_transparent());
}

#[test]
fn follow_text_underline_without_text_color_draws_nothing() {
    let image = font_image();
    let style = MonoTextStyleBuilder::<char, _>::new()
        .font(font_6x9(&image))
        .underline()
        .strikethrough()
        .build();
    let mut recorder = CommandLog::new(usize::MAX);
    style
        .draw_string("AB", Point::zero(), Baseline::Top, &mut recorder)
        .unwrap();
    style
        .draw_whitespace(5, Point::zero(), Baseline::Top, &mut recorder)
        .unwrap();
    assert!(call_names(&recorder).is_empty());

    let mut style = style;
    style.set_text_color(Some(WHITE));
    let (commands, _) = style.whitespace_commands(5, Point::zero(), Baseline::Top);
    assert_eq!(
        commands,
        vec![
            DrawCommand::FillSolid(Rectangle::new(Point::new(0, 4), Size::new(5, 1)), WHITE),
            DrawCommand::FillSolid(Rectangle::new(Point::new(0, 8), Size::new(5, 1)), WHITE),
        ]
    );
}

#[test]
fn whitespace_fills_whole_rows() {
    let image = font_image();
    let style = MonoTextStyleBuilder::new()
        .font(font_6x9(&image))
        .background_color(WHITE)
        .build();
    let mut display = MockDisplay::new();
    let next = style
        .draw_whitespace(4, Point::zero(), Baseline::Top, display.target())
        .unwrap();
    assert_eq!(next, Point::new(4, 0));
    display.assert_pattern(&["WWWW"; 9]);
}

#[test]
fn zero_width_whitespace_calls_nothing() {
    let image = font_image();
    let style = MonoTextStyleBuilder::new()
        .font(font_6x9(&image))
        .background_color(WHITE)
        .underline_with_color(RED)
        .build();
    // A sink that fails on every call is never called.
    let mut recorder = CommandLog::new(0);
    let next = style.draw_whitespace(0, Point::new(4, 5), Baseline::Top, &mut recorder);
    assert!(call_names(&recorder).is_empty());
    assert_eq!(next, Ok(Point::new(4, 5)));
}

#[test]
fn spacing_gap_is_filled_once() {
    let image = font_image();
    let style = MonoTextStyleBuilder::new()
        .font(spaced_font(&image))
        .text_color(ON)
        .background_color(OFF)
        .build();
    let (commands, next) = style.string_commands("##", Point::zero(), Baseline::Top);
    assert_eq!(next, Point::new(17, 0));
    let gaps: Vec<&DrawCommand<char>> = commands
        .iter()
        .filter(|c| matches!(c, DrawCommand::FillSolid(..)))
        .collect();
    assert_eq!(
        gaps,
        vec![&DrawCommand::FillSolid(Rectangle::new(Point::new(6, 0), Size::new(5, 9)), OFF)]
    );
    assert_eq!(style.measure_string("##", Point::zero(), Baseline::Top).bounding_box.size.width, 17);

    // Without a background the gap is skipped, not filled.
    let transparent = MonoTextStyle::new(spaced_font(&image), ON);
    let mut recorder = CommandLog::new(usize::MAX);
    transparent
        .draw_string("##", Point::zero(), Baseline::Top, &mut recorder)
        .unwrap();
    assert_eq!(call_names(&recorder), vec!["draw_iter"; 2]);
}

#[test]
fn empty_text_draws_zero_width_decorations() {
    let image = font_image();
    let style = MonoTextStyleBuilder::new()
        .font(font_6x9(&image))
        .text_color(WHITE)
        .underline_with_color(RED)
        .build();
    let (commands, next) = style.string_commands("", Point::new(2, 3), Baseline::Top);
    assert_eq!(next, Point::new(2, 3));
    assert_eq!(
        commands,
        vec![DrawCommand::FillSolid(Rectangle::new(Point::new(2, 11), Size::new(0, 1)), RED)]
    );
}

#[test]
fn sink_failure_stops_drawing() {
    let image = font_image();
    let style = MonoTextStyleBuilder::new()
        .font(font_6x9(&image))
        .text_color(WHITE)
        .background_color(OFF)
        .underline()
        .build();
    let mut recorder = CommandLog::new(1);
    let r = style.draw_string("ABC", Point::zero(), Baseline::Top, &mut recorder);
    assert_eq!(r, Err(LogFull));
    assert_eq!(call_names(&recorder), vec!["fill_contiguous"]);

    let mut recorder = CommandLog::new(0);
    let r = style.draw_whitespace(3, Point::zero(), Baseline::Top, &mut recorder);
    assert_eq!(r, Err(LogFull));
    assert!(call_names(&recorder).is_empty());
}

#[test]
fn positions_saturate() {
    let image = font_image();
    let style = MonoTextStyle::new(font_6x9(&image), ON);
    let mut recorder = CommandLog::new(usize::MAX);
    let next = style
        .draw_whitespace(u32::MAX, Point::new(i32::MAX - 1, 0), Baseline::Top, &mut recorder)
        .unwrap();
    assert_eq!(next, Point::new(i32::MAX, 0));
    let metrics = style.measure_string("AB", Point::new(0, i32::MIN), Baseline::Bottom);
    assert_eq!(metrics.bounding_box.top_left, Point::new(0, i32::MIN));
    assert_eq!(metrics.next_position, Point::new(12, i32::MIN));
}

#[test]
fn builder_from_existing_style() {
    let image = font_image();
    let style = MonoTextStyleBuilder::new()
        .font(font_6x9(&image))
        .text_color(WHITE)
        .strikethrough_with_color(RED)
        .build();
    assert_eq!(MonoTextStyleBuilder::from(&style).build(), style);
    let larger = MonoTextStyleBuilder::from(&style).font(font_10x20(&image)).build();
    assert_eq!(larger.font, font_10x20(&image));
    assert_eq!(larger.strikethrough_color, DecorationColor::Custom(RED));
    assert_eq!(larger.line_height(), 20);
}

#[test]
fn transparent_style_succeeds_without_calls() {
    let image = font_image();
    let style = MonoTextStyleBuilder::<char, _>::new()
        .font(font_6x9(&image))
        .underline()
        .build();
    assert!(style.is_transparent());
    let mut recorder = CommandLog::new(0);
    let next = style.draw_string("ABC", Point::new(1, 2), Baseline::Middle, &mut recorder);
    assert_eq!(next, Ok(Point::new(19, 2)));
    let next = style.draw_whitespace(9, Point::new(1, 2), Baseline::Bottom, &mut recorder);
    assert_eq!(next, Ok(Point::new(10, 2)));
    assert!(call_names(&recorder).is_empty());
}

#[test]
fn draw_string_streams_each_character() {
    let image = font_image();
    let style = MonoTextStyleBuilder::new()
        .font(spaced_font(&image))
        .text_color(ON)
        .background_color(OFF)
        .strikethrough()
        .build();
    let mut recorder = CommandLog::new(usize::MAX);
    style
        .draw_string("AB", Point::zero(), Baseline::Top, &mut recorder)
        .unwrap();
    assert_eq!(
        call_names(&recorder),
        vec!["fill_contiguous", "fill_solid", "fill_contiguous", "fill_solid"]
    );
    // Failing on the gap stops before the second glyph.
    let mut recorder = CommandLog::new(1);
    let r = style.draw_string("AB", Point::zero(), Baseline::Top, &mut recorder);
    assert_eq!(r, Err(LogFull));
    assert_eq!(call_names(&recorder), vec!["fill_contiguous"]);
}

#[test]
fn draw_string_hands_the_sink_its_plan() {
    let image = font_image();
    let style = MonoTextStyleBuilder::new()
        .font(spaced_font(&image))
        .background_color(OFF)
        .underline_with_color(RED)
        .strikethrough_with_color(GREEN)
        .build();
    let (plan, end) = style.string_commands("A#?", Point::new(2, 30), Baseline::Alphabetic);
    let mut log = CommandLog::new(usize::MAX);
    let next = style.draw_string("A#?", Point::new(2, 30), Baseline::Alphabetic, &mut log);
    assert_eq!(next, Ok(end));
    assert_eq!(log.commands, plan);
    assert_eq!(
        call_names(&log),
        vec!["draw_iter", "fill_solid", "draw_iter", "fill_solid", "draw_iter", "fill_solid", "fill_solid"]
    );

    // A log that fills up keeps exactly the calls made before the failure.
    for capacity in 0..plan.len() {
        let mut log = CommandLog::new(capacity);
        let r = style.draw_string("A#?", Point::new(2, 30), Baseline::Alphabetic, &mut log);
        assert_eq!(r, Err(LogFull));
        assert_eq!(&log.commands[..], &plan[..capacity]);
    }
}

#[test]
fn whitespace_failure_stops_before_decorations() {
    let image = font_image();
    let style = MonoTextStyleBuilder::new()
        .font(font_6x9(&image))
        .background_color(WHITE)
        .strikethrough_with_color(RED)
        .underline_with_color(GREEN)
        .build();
    let (plan, _) = style.whitespace_commands(3, Point::zero(), Baseline::Top);
    assert_eq!(plan.len(), 3);
    let mut log = CommandLog::new(1);
    let r = style.draw_whitespace(3, Point::zero(), Baseline::Top, &mut log);
    assert_eq!(r, Err(LogFull));
    assert_eq!(&log.commands[..], &plan[..1]);
}
