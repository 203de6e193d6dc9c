//! Text styles for monospaced fonts: what to draw for a string, where the
//! next text goes, and the builder that makes a style.
use vstd::prelude::*;

use crate::draw_target::{
    issue_all, issue_optional, ops_of, opt_ops, push_command, DrawCommand, DrawOp, DrawTarget,
};
use crate::font::MonoFont;
use crate::lemmas::{lemma_string_ops_prefix, lemma_take_of_prefix, lemma_transparent_draws_nothing};
use crate::geometry::{clamp_i32, clamp_u32, sat_i32, sat_u32, Pixel, Point, Rectangle, Size};
use crate::text::{Baseline, DecorationColor, TextMetrics};

verus! {

/// Style properties for text drawn in a monospaced font.
///
/// A style with no text color, no background color and no decoration that
/// resolves to a color draws nothing.
#[derive(Copy, Clone, Eq, PartialEq, Ord, PartialOrd, Hash, Debug)]
pub struct MonoTextStyle<C, F> {
    /// Text color.
    pub text_color: Option<C>,
    /// Background color.
    pub background_color: Option<C>,
    /// Underline color.
    pub underline_color: DecorationColor<C>,
    /// Strikethrough color.
    pub strikethrough_color: DecorationColor<C>,
    /// Font.
    pub font: F,
}

impl<C: Copy, F> MonoTextStyle<C, F> {
    /// The color a decoration is drawn in, if it is drawn.
    pub open spec fn resolved(self, color: DecorationColor<C>) -> Option<C> {
        match color {
            DecorationColor::Disabled => None,
            DecorationColor::TextColor => self.text_color,
            DecorationColor::Custom(c) => Some(c),
        }
    }

    /// Whether nothing that the style draws has a color.
    pub open spec fn transparent(self) -> bool {
        &&& self.text_color is None
        &&& self.background_color is None
        &&& self.resolved(self.underline_color) is None
        &&& self.resolved(self.strikethrough_color) is None
    }

    /// Returns `true` if the style is transparent: drawing with it draws no
    /// pixels.
    pub fn is_transparent(&self) -> (r: bool)
        ensures
            r == self.transparent(),
    {
        self.text_color.is_none() && self.background_color.is_none()
            && self.resolve_decoration_color(self.underline_color).is_none()
            && self.resolve_decoration_color(self.strikethrough_color).is_none()
    }

    /// Resolves a decoration color against the current text color.
    fn resolve_decoration_color(&self, color: DecorationColor<C>) -> (r: Option<C>)
        ensures
            r == self.resolved(color),
    {
        match color {
            DecorationColor::Disabled => None,
            DecorationColor::TextColor => self.text_color,
            DecorationColor::Custom(c) => Some(c),
        }
    }

    /// Sets the text color.
    pub fn set_text_color(&mut self, text_color: Option<C>)
        ensures
            *final(self) == (MonoTextStyle { text_color, ..*old(self) }),
    {
        self.text_color = text_color;
    }

    /// Sets the background color.
    pub fn set_background_color(&mut self, background_color: Option<C>)
        ensures
            *final(self) == (MonoTextStyle { background_color, ..*old(self) }),
    {
        self.background_color = background_color;
    }

    /// Sets the underline color.
    pub fn set_underline_color(&mut self, underline_color: DecorationColor<C>)
        ensures
            *final(self) == (MonoTextStyle { underline_color, ..*old(self) }),
    {
        self.underline_color = underline_color;
    }

    /// Sets the strikethrough color.
    pub fn set_strikethrough_color(&mut self, strikethrough_color: DecorationColor<C>)
        ensures
            *final(self) == (MonoTextStyle { strikethrough_color, ..*old(self) }),
    {
        self.strikethrough_color = strikethrough_color;
    }
}

impl<'a, C: Copy> MonoTextStyle<C, MonoFont<'a>> {
    /// Creates a style that draws text in `text_color` on a transparent
    /// background.
    pub fn new(font: MonoFont<'a>, text_color: C) -> (r: Self)
        ensures
            r == (MonoTextStyle {
                text_color: Some(text_color),
                background_color: None,
                underline_color: DecorationColor::Disabled,
                strikethrough_color: DecorationColor::Disabled,
                font,
            }),
    {
        MonoTextStyleBuilder::new().font(font).text_color(text_color).build()
    }

    /// The width of a cell plus the gap that follows it.
    pub open spec fn pitch(self) -> int {
        self.font.character_size.width + self.font.character_spacing
    }

    /// The width of `n` glyph cells with the gaps between them.
    pub open spec fn text_advance(self, n: int) -> int {
        if n <= 0 {
            0
        } else {
            n * self.pitch() - self.font.character_spacing
        }
    }

    /// The distance from the top of a cell down to the row that `baseline`
    /// names.
    pub open spec fn baseline_shift(self, baseline: Baseline) -> i32 {
        let h = self.font.character_size.height as int;
        let below = if h == 0 {
            0
        } else {
            h - 1
        };
        let bottom = sat_i32(below);
        match baseline {
            Baseline::Top => 0,
            Baseline::Bottom => bottom,
            Baseline::Middle => sat_i32(below / 2),
            Baseline::Alphabetic => match self.font.baseline {
                Some(b) => b,
                None => bottom,
            },
        }
    }

    /// The top-left corner of the line of text anchored at `position`.
    pub open spec fn line_top(self, position: Point, baseline: Baseline) -> Point {
        Point { x: position.x, y: sat_i32(position.y - self.baseline_shift(baseline)) }
    }

    /// The left edge of the `k`-th glyph cell of a line starting at `top`.
    pub open spec fn glyph_x(self, top: Point, k: int) -> i32 {
        sat_i32(top.x + k * self.pitch())
    }

    /// Where sample `i` of a glyph cell at `origin` lands.
    pub open spec fn sample_point(self, origin: Point, i: int) -> Point {
        let w = self.font.character_size.width as int;
        Point { x: sat_i32(origin.x + i % w), y: sat_i32(origin.y + i / w) }
    }

    /// The pixels, in `color`, of the first `k` samples that equal `want`.
    pub open spec fn select_pixels(
        self,
        samples: Seq<bool>,
        want: bool,
        origin: Point,
        color: C,
        k: nat,
    ) -> Seq<Pixel<C>>
        decreases k,
    {
        if k == 0 {
            Seq::empty()
        } else {
            let prev = self.select_pixels(samples, want, origin, color, (k - 1) as nat);
            if samples[k - 1] == want {
                prev.push(Pixel(self.sample_point(origin, k - 1), color))
            } else {
                prev
            }
        }
    }

    /// The colors of a glyph drawn opaque: text color where it is on,
    /// background color where it is off.
    pub open spec fn opaque_colors(samples: Seq<bool>, text: C, background: C) -> Seq<C> {
        samples.map_values(|on: bool| if on { text } else { background })
    }

    /// What drawing the glyph for `c` with its cell at `origin` does.
    pub open spec fn glyph_ops(self, c: char, origin: Point) -> Seq<DrawOp<C>> {
        let samples = self.font.glyph_samples(c);
        match (self.text_color, self.background_color) {
            (Some(t), Some(b)) => seq![
                DrawOp::FillContiguous(
                    Rectangle { top_left: origin, size: self.font.character_size },
                    Self::opaque_colors(samples, t, b),
                ),
            ],
            (Some(t), None) => seq![
                DrawOp::DrawPixels(self.select_pixels(samples, true, origin, t, samples.len())),
            ],
            (None, Some(b)) => seq![
                DrawOp::DrawPixels(self.select_pixels(samples, false, origin, b, samples.len())),
            ],
            (None, None) => Seq::empty(),
        }
    }

    /// What filling the gap before the `k`-th glyph of a line at `top` does.
    pub open spec fn gap_ops(self, top: Point, k: int) -> Seq<DrawOp<C>> {
        let s = self.font.character_spacing;
        if k > 0 && s > 0 && self.background_color is Some {
            seq![
                DrawOp::FillSolid(
                    Rectangle {
                        top_left: Point { x: sat_i32(top.x + k * self.pitch() - s), y: top.y },
                        size: Size { width: s, height: self.font.character_size.height },
                    },
                    self.background_color->Some_0,
                ),
            ]
        } else {
            Seq::empty()
        }
    }

    /// What drawing `c` as the `k`-th character of a line at `top` does.
    pub open spec fn char_ops(self, c: char, k: int, top: Point) -> Seq<DrawOp<C>> {
        self.gap_ops(top, k) + self.glyph_ops(c, Point { x: self.glyph_x(top, k), y: top.y })
    }

    /// What drawing the characters `chars` on a line at `top` does.
    pub open spec fn chars_ops(self, chars: Seq<char>, top: Point) -> Seq<DrawOp<C>>
        decreases chars.len(),
    {
        if chars.len() == 0 {
            Seq::empty()
        } else {
            self.chars_ops(chars.drop_last(), top) + self.char_ops(
                chars.last(),
                chars.len() - 1,
                top,
            )
        }
    }

    /// What drawing one decoration `width` wide on a line at `top` does.
    pub open spec fn decoration_ops(
        self,
        color: DecorationColor<C>,
        offset: i32,
        height: u32,
        width: u32,
        top: Point,
    ) -> Seq<DrawOp<C>> {
        match self.resolved(color) {
            Some(c) => seq![
                DrawOp::FillSolid(
                    Rectangle {
                        top_left: Point { x: top.x, y: sat_i32(top.y + offset) },
                        size: Size { width, height },
                    },
                    c,
                ),
            ],
            None => Seq::empty(),
        }
    }

    /// What drawing the strikethrough and then the underline does.
    pub open spec fn decorations_ops(self, width: u32, top: Point) -> Seq<DrawOp<C>> {
        self.decoration_ops(
            self.strikethrough_color,
            self.font.strikethrough_offset,
            self.font.strikethrough_height,
            width,
            top,
        ) + self.decoration_ops(
            self.underline_color,
            self.font.underline_offset,
            self.font.underline_height,
            width,
            top,
        )
    }

    /// What drawing `text` anchored at `position` does.
    pub open spec fn string_ops(
        self,
        text: Seq<char>,
        position: Point,
        baseline: Baseline,
    ) -> Seq<DrawOp<C>> {
        let top = self.line_top(position, baseline);
        self.chars_ops(text, top) + self.decorations_ops(
            sat_u32(self.text_advance(text.len() as int)),
            top,
        )
    }

    /// Where the text after `n` characters anchored at `position` goes.
    pub open spec fn string_end(self, n: int, position: Point) -> Point {
        Point { x: sat_i32(position.x + self.text_advance(n)), y: position.y }
    }

    /// What drawing `width` pixels of whitespace anchored at `position` does.
    pub open spec fn whitespace_ops(
        self,
        width: u32,
        position: Point,
        baseline: Baseline,
    ) -> Seq<DrawOp<C>> {
        let top = self.line_top(position, baseline);
        if width == 0 {
            Seq::empty()
        } else {
            let background = match self.background_color {
                Some(b) => seq![
                    DrawOp::FillSolid(
                        Rectangle {
                            top_left: top,
                            size: Size { width, height: self.font.character_size.height },
                        },
                        b,
                    ),
                ],
                None => Seq::empty(),
            };
            background + self.decorations_ops(width, top)
        }
    }

    /// The height of the box that a measurement reports.
    pub open spec fn measured_height(self) -> u32 {
        let h = self.font.character_size.height;
        let band = sat_u32(self.font.underline_offset + self.font.underline_height);
        if self.underline_color.enabled() && band > h {
            band
        } else {
            h
        }
    }
}

impl<'a, C: Copy> MonoTextStyle<C, MonoFont<'a>> {
    /// Returns the vertical offset between the anchor and the top of the line.
    fn baseline_offset(&self, baseline: Baseline) -> (r: i32)
        ensures
            r == self.baseline_shift(baseline),
    {
        let h = self.font.character_size.height;
        let below: u32 = if h == 0 {
            0
        } else {
            h - 1
        };
        match baseline {
            Baseline::Top => 0,
            Baseline::Bottom => clamp_i32(below as i128),
            Baseline::Middle => clamp_i32((below / 2) as i128),
            Baseline::Alphabetic => match self.font.baseline {
                Some(b) => b,
                None => clamp_i32(below as i128),
            },
        }
    }

    /// Returns the top-left corner of the line anchored at `position`.
    fn top_of_line(&self, position: Point, baseline: Baseline) -> (r: Point)
        ensures
            r == self.line_top(position, baseline),
    {
        let shift = self.baseline_offset(baseline);
        Point::new(position.x, clamp_i32(position.y as i128 - shift as i128))
    }

    /// Returns the width of `n` cells with the gaps between them.
    fn advance(&self, n: usize) -> (r: i128)
        ensures
            r == self.text_advance(n as int),
            0 <= r <= 0x1_0000_0000_0000_0000 * 0x2_0000_0000,
    {
        if n == 0 {
            0
        } else {
            let pitch: i128 = self.font.character_size.width as i128
                + self.font.character_spacing as i128;
            assert(n * pitch <= 0x1_0000_0000_0000_0000 * 0x2_0000_0000) by (nonlinear_arith)
                requires
                    n < 0x1_0000_0000_0000_0000,
                    0 <= pitch <= 0x2_0000_0000,
            ;
            assert(n * pitch >= pitch) by (nonlinear_arith)
                requires
                    n >= 1,
                    pitch >= 0,
            ;
            n as i128 * pitch - self.font.character_spacing as i128
        }
    }

    /// Returns the left edge of the `k`-th cell of the line at `top`.
    fn cell_x(&self, top: Point, k: usize) -> (r: i32)
        ensures
            r == self.glyph_x(top, k as int),
    {
        let pitch: i128 = self.font.character_size.width as i128
            + self.font.character_spacing as i128;
        assert(k * pitch <= 0x1_0000_0000_0000_0000 * 0x2_0000_0000) by (nonlinear_arith)
            requires
                k < 0x1_0000_0000_0000_0000,
                0 <= pitch <= 0x2_0000_0000,
        ;
        assert(k * pitch >= 0) by (nonlinear_arith)
            requires
                k >= 0,
                pitch >= 0,
        ;
        clamp_i32(top.x as i128 + k as i128 * pitch)
    }

    /// Returns where sample `i` of a cell at `origin` lands.
    fn sample_position(&self, origin: Point, i: usize) -> (r: Point)
        requires
            self.font.wf(),
        ensures
            r == self.sample_point(origin, i as int),
    {
        let w: u64 = self.font.character_size.width as u64;
        let x: u64 = i as u64 % w;
        let y: u64 = i as u64 / w;
        Point::new(clamp_i32(origin.x as i128 + x as i128), clamp_i32(origin.y as i128 + y as i128))
    }

    /// Returns, in `color`, the pixels of the samples that equal `want`.
    fn pick_pixels(&self, samples: &Vec<bool>, want: bool, origin: Point, color: C) -> (r: Vec<
        Pixel<C>,
    >)
        requires
            self.font.wf(),
        ensures
            r@ == self.select_pixels(samples@, want, origin, color, samples@.len()),
    {
        let mut out: Vec<Pixel<C>> = Vec::new();
        let mut i: usize = 0;
        while i < samples.len()
            invariant
                self.font.wf(),
                i <= samples@.len(),
                out@ == self.select_pixels(samples@, want, origin, color, i as nat),
            decreases samples@.len() - i,
        {
            if samples[i] == want {
                let p = self.sample_position(origin, i);
                out.push(Pixel(p, color));
            }
            i = i + 1;
        }
        out
    }

    /// Returns the colors of a glyph drawn opaque.
    fn opaque_glyph_colors(samples: &Vec<bool>, text: C, background: C) -> (r: Vec<C>)
        ensures
            r@ == Self::opaque_colors(samples@, text, background),
    {
        let mut out: Vec<C> = Vec::new();
        let mut i: usize = 0;
        while i < samples.len()
            invariant
                i <= samples@.len(),
                out@.len() == i,
                forall|j: int|
                    0 <= j < i ==> out@[j] == (if samples@[j] {
                        text
                    } else {
                        background
                    }),
            decreases samples@.len() - i,
        {
            if samples[i] {
                out.push(text);
            } else {
                out.push(background);
            }
            i = i + 1;
        }
        assert(out@ =~= Self::opaque_colors(samples@, text, background));
        out
    }

    /// Returns the command that draws the glyph for `c` in the cell at
    /// `origin`, choosing the call by the colors that are set.
    fn glyph_command(&self, c: char, origin: Point) -> (r: Option<DrawCommand<C>>)
        requires
            self.font.wf(),
        ensures
            opt_ops(r) == self.glyph_ops(c, origin),
    {
        match (self.text_color, self.background_color) {
            (Some(t), Some(b)) => {
                let samples = self.font.raster(c);
                let colors = Self::opaque_glyph_colors(&samples, t, b);
                let area = Rectangle::new(origin, self.font.character_size);
                let r = Some(DrawCommand::FillContiguous(area, colors));
                assert(opt_ops(r) =~= self.glyph_ops(c, origin));
                r
            },
            (Some(t), None) => {
                let samples = self.font.raster(c);
                let r = Some(DrawCommand::DrawPixels(self.pick_pixels(&samples, true, origin, t)));
                assert(opt_ops(r) =~= self.glyph_ops(c, origin));
                r
            },
            (None, Some(b)) => {
                let samples = self.font.raster(c);
                let r = Some(DrawCommand::DrawPixels(self.pick_pixels(&samples, false, origin, b)));
                assert(opt_ops(r) =~= self.glyph_ops(c, origin));
                r
            },
            (None, None) => None,
        }
    }

    /// Returns the command that fills the gap before the `k`-th cell.
    fn gap_command(&self, top: Point, k: usize) -> (r: Option<DrawCommand<C>>)
        ensures
            opt_ops(r) == self.gap_ops(top, k as int),
    {
        let s = self.font.character_spacing;
        if k > 0 && s > 0 {
            match self.background_color {
                Some(b) => {
                    let pitch: i128 = self.font.character_size.width as i128 + s as i128;
                    assert(k * pitch <= 0x1_0000_0000_0000_0000 * 0x2_0000_0000)
                        by (nonlinear_arith)
                        requires
                            k < 0x1_0000_0000_0000_0000,
                            0 <= pitch <= 0x2_0000_0000,
                    ;
                    assert(k * pitch >= 0) by (nonlinear_arith)
                        requires
                            k >= 0,
                            pitch >= 0,
                    ;
                    let gx = clamp_i32(top.x as i128 + k as i128 * pitch - s as i128);
                    let area = Rectangle::new(
                        Point::new(gx, top.y),
                        Size::new(s, self.font.character_size.height),
                    );
                    let r = Some(DrawCommand::FillSolid(area, b));
                    assert(opt_ops(r) =~= self.gap_ops(top, k as int));
                    r
                },
                None => None,
            }
        } else {
            None
        }
    }

    /// Returns the command that draws one decoration, if it resolves to a
    /// color.
    fn decoration_command(
        &self,
        color: DecorationColor<C>,
        offset: i32,
        height: u32,
        width: u32,
        top: Point,
    ) -> (r: Option<DrawCommand<C>>)
        ensures
            opt_ops(r) == self.decoration_ops(color, offset, height, width, top),
    {
        match self.resolve_decoration_color(color) {
            Some(c) => {
                let y = clamp_i32(top.y as i128 + offset as i128);
                let area = Rectangle::new(Point::new(top.x, y), Size::new(width, height));
                let r = Some(DrawCommand::FillSolid(area, c));
                assert(opt_ops(r) =~= self.decoration_ops(color, offset, height, width, top));
                r
            },
            None => None,
        }
    }

    /// Appends the strikethrough and then the underline.
    fn push_decorations(&self, cmds: &mut Vec<DrawCommand<C>>, width: u32, top: Point)
        ensures
            ops_of(final(cmds)@) == ops_of(old(cmds)@) + self.decorations_ops(width, top),
    {
        let strike = self.decoration_command(
            self.strikethrough_color,
            self.font.strikethrough_offset,
            self.font.strikethrough_height,
            width,
            top,
        );
        push_command(cmds, strike);
        let under = self.decoration_command(
            self.underline_color,
            self.font.underline_offset,
            self.font.underline_height,
            width,
            top,
        );
        push_command(cmds, under);
        assert(ops_of(cmds@) =~= ops_of(old(cmds)@) + self.decorations_ops(width, top));
    }
}

impl<'a, C: Copy> MonoTextStyle<C, MonoFont<'a>> {
    /// Returns the sink calls that draw `text` anchored at `position`, in
    /// order, and where the next text goes.
    ///
    /// For each character: the gap before it, filled with the background
    /// color when that is set and the font has spacing, then its glyph. After
    /// the characters: the strikethrough, then the underline, across the
    /// whole text.
    pub fn string_commands(&self, text: &str, position: Point, baseline: Baseline) -> (r: (
        Vec<DrawCommand<C>>,
        Point,
    ))
        requires
            self.font.wf(),
        ensures
            ops_of(r.0@) == self.string_ops(text@, position, baseline),
            r.1 == self.string_end(text@.len() as int, position),
    {
        let top = self.top_of_line(position, baseline);
        let n = text.unicode_len();
        let mut cmds: Vec<DrawCommand<C>> = Vec::new();
        let mut k: usize = 0;
        while k < n
            invariant
                self.font.wf(),
                n == text@.len(),
                k <= n,
                top == self.line_top(position, baseline),
                ops_of(cmds@) == self.chars_ops(text@.take(k as int), top),
            decreases n - k,
        {
            let c = text.get_char(k);
            let gap = self.gap_command(top, k);
            push_command(&mut cmds, gap);
            let origin = Point::new(self.cell_x(top, k), top.y);
            let glyph = self.glyph_command(c, origin);
            push_command(&mut cmds, glyph);
            proof {
                let next = text@.take(k + 1);
                assert(next.drop_last() =~= text@.take(k as int));
                assert(next.last() == c);
                assert(ops_of(cmds@) =~= self.chars_ops(next, top));
            }
            k = k + 1;
        }
        assert(text@.take(n as int) =~= text@);
        let adv = self.advance(n);
        self.push_decorations(&mut cmds, clamp_u32(adv), top);
        let end = Point::new(clamp_i32(position.x as i128 + adv), position.y);
        (cmds, end)
    }

    /// Draws `text` anchored at `position` and returns where the next text
    /// goes: after the last cell, on the anchor's own row.
    ///
    /// The sink gets exactly the calls of `string_ops`, in order: each
    /// character's gap and glyph go out before the next character is looked
    /// at, and the decorations come last, so nothing is collected for the
    /// whole text. The first failure of the sink stops the drawing and is
    /// returned; the calls before it stay drawn and no later call is made.
    /// When the text needs no sink call, as with a transparent style, it
    /// makes none and succeeds.
    pub fn draw_string<D: DrawTarget<C>>(
        &self,
        text: &str,
        position: Point,
        baseline: Baseline,
        target: &mut D,
    ) -> (r: Result<Point, D::Error>)
        requires
            self.font.wf(),
        ensures
            r is Ok ==> r->Ok_0 == self.string_end(text@.len() as int, position),
            r is Ok ==> r->Ok_0.y == position.y,
            r is Ok ==> final(target).drawn() == old(target).drawn() + self.string_ops(
                text@,
                position,
                baseline,
            ),
            r is Err ==> exists|k: int|
                0 <= k < self.string_ops(text@, position, baseline).len() && final(target).drawn()
                    == old(target).drawn() + #[trigger] self.string_ops(
                    text@,
                    position,
                    baseline,
                ).take(k),
            self.string_ops(text@, position, baseline).len() == 0 ==> r is Ok,
            self.transparent() ==> r is Ok,
            self.transparent() ==> final(target).drawn() == old(target).drawn(),
    {
        let ghost start = target.drawn();
        let ghost ops = self.string_ops(text@, position, baseline);
        let top = self.top_of_line(position, baseline);
        proof {
            if self.transparent() {
                lemma_transparent_draws_nothing(*self, text@, 0, position, baseline);
            }
            assert(text@.take(0) =~= Seq::<char>::empty());
            assert(start + self.chars_ops(text@.take(0), top) =~= start);
        }
        let n = text.unicode_len();
        let mut k: usize = 0;
        while k < n
            invariant
                self.font.wf(),
                n == text@.len(),
                k <= n,
                top == self.line_top(position, baseline),
                start == old(target).drawn(),
                ops == self.string_ops(text@, position, baseline),
                self.transparent() ==> ops.len() == 0,
                target.drawn() == start + self.chars_ops(text@.take(k as int), top),
            decreases n - k,
        {
            let c = text.get_char(k);
            let ghost done = self.chars_ops(text@.take(k as int), top);
            proof {
                lemma_string_ops_prefix(*self, text@, position, baseline, k as int);
            }
            let gap = self.gap_command(top, k);
            let ghost gap_ops = self.gap_ops(top, k as int);
            match issue_optional(gap, target) {
                Ok(()) => {},
                Err(e) => {
                    proof {
                        let glyph_ops = self.glyph_ops(
                            c,
                            Point { x: self.glyph_x(top, k as int), y: top.y },
                        );
                        assert(done + gap_ops + glyph_ops =~= done + (gap_ops + glyph_ops));
                        lemma_take_of_prefix(ops, done, gap_ops + glyph_ops);
                        assert(target.drawn() == start + ops.take(done.len() as int));
                    }
                    return Err(e);
                },
            }
            let origin = Point::new(self.cell_x(top, k), top.y);
            let glyph = self.glyph_command(c, origin);
            let ghost glyph_ops = self.glyph_ops(c, origin);
            match issue_optional(glyph, target) {
                Ok(()) => {},
                Err(e) => {
                    proof {
                        assert(done + gap_ops + glyph_ops =~= (done + gap_ops) + glyph_ops);
                        lemma_take_of_prefix(ops, done + gap_ops, glyph_ops);
                        assert(target.drawn() =~= start + (done + gap_ops));
                        assert(target.drawn() == start + ops.take((done + gap_ops).len() as int));
                    }
                    return Err(e);
                },
            }
            proof {
                assert(target.drawn() =~= start + (done + gap_ops + glyph_ops));
            }
            k = k + 1;
        }
        let ghost chars = self.chars_ops(text@, top);
        proof {
            assert(text@.take(n as int) =~= text@);
        }
        let adv = self.advance(n);
        let width = clamp_u32(adv);
        let strike = self.decoration_command(
            self.strikethrough_color,
            self.font.strikethrough_offset,
            self.font.strikethrough_height,
            width,
            top,
        );
        let ghost strike_ops = opt_ops(strike);
        let under = self.decoration_command(
            self.underline_color,
            self.font.underline_offset,
            self.font.underline_height,
            width,
            top,
        );
        let ghost under_ops = opt_ops(under);
        proof {
            assert(ops =~= chars + strike_ops + under_ops);
            assert(ops.take(ops.len() as int) =~= ops);
        }
        match issue_optional(strike, target) {
            Ok(()) => {},
            Err(e) => {
                proof {
                    lemma_take_of_prefix(ops, chars, strike_ops + under_ops);
                }
                return Err(e);
            },
        }
        match issue_optional(under, target) {
            Ok(()) => {},
            Err(e) => {
                proof {
                    lemma_take_of_prefix(ops, chars + strike_ops, under_ops);
                    assert(target.drawn() =~= start + (chars + strike_ops));
                }
                return Err(e);
            },
        }
        proof {
            assert(target.drawn() =~= start + ops);
        }
        Ok(Point::new(clamp_i32(position.x as i128 + adv), position.y))
    }

    /// Returns the sink calls that draw `width` pixels of whitespace anchored
    /// at `position`, and where the next text goes.
    pub fn whitespace_commands(&self, width: u32, position: Point, baseline: Baseline) -> (r: (
        Vec<DrawCommand<C>>,
        Point,
    ))
        ensures
            ops_of(r.0@) == self.whitespace_ops(width, position, baseline),
            r.1 == (Point { x: sat_i32(position.x + width), y: position.y }),
    {
        let top = self.top_of_line(position, baseline);
        let mut cmds: Vec<DrawCommand<C>> = Vec::new();
        if width > 0 {
            let background = match self.background_color {
                Some(b) => Some(
                    DrawCommand::FillSolid(
                        Rectangle::new(top, Size::new(width, self.font.character_size.height)),
                        b,
                    ),
                ),
                None => None,
            };
            push_command(&mut cmds, background);
            self.push_decorations(&mut cmds, width, top);
            assert(ops_of(cmds@) =~= self.whitespace_ops(width, position, baseline));
        } else {
            assert(ops_of(cmds@) =~= self.whitespace_ops(width, position, baseline));
        }
        let end = Point::new(clamp_i32(position.x as i128 + width as i128), position.y);
        (cmds, end)
    }

    /// Draws `width` pixels of whitespace anchored at `position`: the
    /// background and the decorations, no glyph. Returns where the next text
    /// goes, on the anchor's own row. The sink gets exactly the calls of
    /// `whitespace_ops`, in order; the first failure stops the drawing and is
    /// returned. Zero width calls nothing and returns the anchor; a style that
    /// needs no sink call makes none and succeeds.
    pub fn draw_whitespace<D: DrawTarget<C>>(
        &self,
        width: u32,
        position: Point,
        baseline: Baseline,
        target: &mut D,
    ) -> (r: Result<Point, D::Error>)
        ensures
            r is Ok ==> r->Ok_0 == (Point { x: sat_i32(position.x + width), y: position.y }),
            r is Ok ==> r->Ok_0.y == position.y,
            width == 0 ==> r == Ok::<Point, D::Error>(position),
            r is Ok ==> final(target).drawn() == old(target).drawn() + self.whitespace_ops(
                width,
                position,
                baseline,
            ),
            r is Err ==> exists|k: int|
                0 <= k < self.whitespace_ops(width, position, baseline).len()
                    && final(target).drawn() == old(target).drawn() + #[trigger] self.whitespace_ops(
                    width,
                    position,
                    baseline,
                ).take(k),
            self.whitespace_ops(width, position, baseline).len() == 0 ==> r is Ok,
            self.transparent() ==> r is Ok,
            self.transparent() ==> final(target).drawn() == old(target).drawn(),
    {
        proof {
            if self.transparent() {
                lemma_transparent_draws_nothing(*self, Seq::empty(), width, position, baseline);
            }
        }
        let (cmds, next) = self.whitespace_commands(width, position, baseline);
        let ghost ops = self.whitespace_ops(width, position, baseline);
        assert(ops_of(cmds@).len() == cmds@.len());
        let r = issue_all(&cmds, target);
        proof {
            if r is Err {
                let k = choose|k: int|
                    0 <= k < cmds@.len() && target.drawn() == old(target).drawn() + ops_of(
                        #[trigger] cmds@.take(k),
                    );
                assert(ops_of(cmds@.take(k)) =~= ops.take(k));
            }
            if self.transparent() {
                assert(old(target).drawn() + ops =~= old(target).drawn());
            }
        }
        match r {
            Ok(()) => Ok(next),
            Err(e) => Err(e),
        }
    }

    /// Measures `text` anchored at `position` without drawing it.
    ///
    /// The box is as wide as the cells and the gaps between them, and as high
    /// as a cell, or down to the bottom of the underline band when the
    /// underline is enabled and reaches further.
    pub fn measure_string(&self, text: &str, position: Point, baseline: Baseline) -> (r:
        TextMetrics)
        ensures
            r.bounding_box == (Rectangle {
                top_left: self.line_top(position, baseline),
                size: Size {
                    width: sat_u32(self.text_advance(text@.len() as int)),
                    height: self.measured_height(),
                },
            }),
            r.next_position == (Point {
                x: sat_i32(position.x + sat_u32(self.text_advance(text@.len() as int))),
                y: position.y,
            }),
    {
        let top = self.top_of_line(position, baseline);
        let n = text.unicode_len();
        let width = clamp_u32(self.advance(n));
        let h = self.font.character_size.height;
        let band = clamp_u32(
            self.font.underline_offset as i128 + self.font.underline_height as i128,
        );
        let height = if !self.underline_color.is_none() && band > h {
            band
        } else {
            h
        };
        TextMetrics {
            bounding_box: Rectangle::new(top, Size::new(width, height)),
            next_position: Point::new(clamp_i32(position.x as i128 + width as i128), position.y),
        }
    }

    /// Returns the height of a line: the height of a cell.
    pub fn line_height(&self) -> (r: u32)
        ensures
            r == self.font.character_size.height,
    {
        self.font.character_size.height
    }
}

/// Builds a [`MonoTextStyle`].
///
/// A builder starts without a font, and only a builder that has been given a
/// font can build a style.
#[derive(Copy, Clone, Eq, PartialEq, Ord, PartialOrd, Hash, Debug)]
pub struct MonoTextStyleBuilder<C, F> {
    style: MonoTextStyle<C, F>,
}

impl<C, F> View for MonoTextStyleBuilder<C, F> {
    type V = MonoTextStyle<C, F>;

    /// The style that the builder holds so far.
    closed spec fn view(&self) -> MonoTextStyle<C, F> {
        self.style
    }
}

/// Marks a builder that has not been given a font yet.
#[derive(Debug, Copy, Clone, Ord, PartialOrd, Eq, PartialEq, Hash)]
pub struct UndefinedFont;

impl<C: Copy> MonoTextStyleBuilder<C, UndefinedFont> {
    /// Creates a builder with no colors, no decorations and no font.
    pub fn new() -> (r: Self)
        ensures
            r@ == (MonoTextStyle::<C, UndefinedFont> {
                text_color: None,
                background_color: None,
                underline_color: DecorationColor::Disabled,
                strikethrough_color: DecorationColor::Disabled,
                font: UndefinedFont,
            }),
    {
        MonoTextStyleBuilder {
            style: MonoTextStyle {
                font: UndefinedFont,
                background_color: None,
                text_color: None,
                underline_color: DecorationColor::Disabled,
                strikethrough_color: DecorationColor::Disabled,
            },
        }
    }
}

impl<C: Copy, F> MonoTextStyleBuilder<C, F> {
    /// Sets the font, keeping the colors and decorations.
    pub fn font<Font>(self, font: Font) -> (r: MonoTextStyleBuilder<C, Font>)
        ensures
            r@ == (MonoTextStyle {
                text_color: self@.text_color,
                background_color: self@.background_color,
                underline_color: self@.underline_color,
                strikethrough_color: self@.strikethrough_color,
                font,
            }),
    {
        let style = MonoTextStyle {
            font,
            background_color: self.style.background_color,
            text_color: self.style.text_color,
            underline_color: self.style.underline_color,
            strikethrough_color: self.style.strikethrough_color,
        };
        MonoTextStyleBuilder { style }
    }

    /// Enables the underline in the text color.
    pub fn underline(self) -> (r: Self)
        ensures
            r@ == (MonoTextStyle { underline_color: DecorationColor::TextColor, ..self@ }),
    {
        let mut b = self;
        b.style.underline_color = DecorationColor::TextColor;
        b
    }

    /// Enables the strikethrough in the text color.
    pub fn strikethrough(self) -> (r: Self)
        ensures
            r@ == (MonoTextStyle { strikethrough_color: DecorationColor::TextColor, ..self@ }),
    {
        let mut b = self;
        b.style.strikethrough_color = DecorationColor::TextColor;
        b
    }

    /// Sets the text color.
    pub fn text_color(self, text_color: C) -> (r: Self)
        ensures
            r@ == (MonoTextStyle { text_color: Some(text_color), ..self@ }),
    {
        let mut b = self;
        b.style.text_color = Some(text_color);
        b
    }

    /// Sets the background color.
    pub fn background_color(self, background_color: C) -> (r: Self)
        ensures
            r@ == (MonoTextStyle { background_color: Some(background_color), ..self@ }),
    {
        let mut b = self;
        b.style.background_color = Some(background_color);
        b
    }

    /// Enables the underline in the given color.
    pub fn underline_with_color(self, underline_color: C) -> (r: Self)
        ensures
            r@ == (MonoTextStyle {
                underline_color: DecorationColor::Custom(underline_color),
                ..self@
            }),
    {
        let mut b = self;
        b.style.underline_color = DecorationColor::Custom(underline_color);
        b
    }

    /// Enables the strikethrough in the given color.
    pub fn strikethrough_with_color(self, strikethrough_color: C) -> (r: Self)
        ensures
            r@ == (MonoTextStyle {
                strikethrough_color: DecorationColor::Custom(strikethrough_color),
                ..self@
            }),
    {
        let mut b = self;
        b.style.strikethrough_color = DecorationColor::Custom(strikethrough_color);
        b
    }
}

impl<'a, C: Copy> MonoTextStyleBuilder<C, MonoFont<'a>> {
    /// Builds the style. Only a builder that was given a font has this.
    pub fn build(self) -> (r: MonoTextStyle<C, MonoFont<'a>>)
        ensures
            r == self@,
    {
        self.style
    }
}

impl<'a, 'b, C: Copy> From<&'b MonoTextStyle<C, MonoFont<'a>>> for MonoTextStyleBuilder<C, MonoFont<'a>> {
    /// Starts a builder from an existing style, to modify it.
    fn from(style: &'b MonoTextStyle<C, MonoFont<'a>>) -> (r: Self)
        ensures
            r@ == *style,
    {
        MonoTextStyleBuilder { style: *style }
    }
}

impl<'a, 'b, C: Copy> vstd::std_specs::convert::FromSpecImpl<&'b MonoTextStyle<C, MonoFont<'a>>> for MonoTextStyleBuilder<C, MonoFont<'a>> {
    open spec fn obeys_from_spec() -> bool {
        true
    }

    closed spec fn from_spec(style: &'b MonoTextStyle<C, MonoFont<'a>>) -> Self {
        MonoTextStyleBuilder { style: *style }
    }
}

} // verus!
