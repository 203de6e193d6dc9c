//! Facts about what the styles draw, stated over the meaning of the sink
//! calls and proved.
use vstd::prelude::*;

use crate::draw_target::DrawOp;
use crate::font::MonoFont;
use crate::geometry::{sat_i32, sat_u32, Pixel, Point, Rectangle};
use crate::mono_text_style::MonoTextStyle;
use crate::text::Baseline;

verus! {

/// The contiguous fills among `ops`, in order: each one's area and colors.
pub open spec fn contiguous_fills<C>(ops: Seq<DrawOp<C>>) -> Seq<(Rectangle, Seq<C>)>
    decreases ops.len(),
{
    if ops.len() == 0 {
        Seq::empty()
    } else {
        let prev = contiguous_fills(ops.drop_last());
        match ops.last() {
            DrawOp::FillContiguous(area, colors) => prev.push((area, colors)),
            _ => prev,
        }
    }
}

/// Collecting the contiguous fills distributes over concatenation.
pub proof fn lemma_contiguous_fills_append<C>(a: Seq<DrawOp<C>>, b: Seq<DrawOp<C>>)
    ensures
        contiguous_fills(a + b) == contiguous_fills(a) + contiguous_fills(b),
    decreases b.len(),
{
    if b.len() == 0 {
        assert(a + b =~= a);
        assert(contiguous_fills(b) =~= Seq::<(Rectangle, Seq<C>)>::empty());
        assert(contiguous_fills(a) + contiguous_fills(b) =~= contiguous_fills(a));
    } else {
        assert((a + b).drop_last() =~= a + b.drop_last());
        assert((a + b).last() == b.last());
        lemma_contiguous_fills_append(a, b.drop_last());
        match b.last() {
            DrawOp::FillContiguous(area, colors) => {
                assert(contiguous_fills(a) + contiguous_fills(b) =~= (contiguous_fills(a)
                    + contiguous_fills(b.drop_last())).push((area, colors)));
            },
            _ => {},
        }
    }
}

proof fn lemma_contiguous_fills_single<C>(op: DrawOp<C>)
    ensures
        contiguous_fills(seq![op]) == (match op {
            DrawOp::FillContiguous(area, colors) => seq![(area, colors)],
            _ => Seq::<(Rectangle, Seq<C>)>::empty(),
        }),
{
    assert(seq![op].drop_last() =~= Seq::<DrawOp<C>>::empty());
    assert(contiguous_fills(Seq::<DrawOp<C>>::empty()) == Seq::<(Rectangle, Seq<C>)>::empty());
    assert(seq![op].last() == op);
    match op {
        DrawOp::FillContiguous(area, colors) => {
            assert(Seq::<(Rectangle, Seq<C>)>::empty().push((area, colors)) =~= seq![(area, colors)]);
        },
        _ => {},
    }
}

/// The cell of the `k`-th character of a line at `top`.
pub open spec fn glyph_cell<'a, C: Copy>(
    style: MonoTextStyle<C, MonoFont<'a>>,
    top: Point,
    k: int,
) -> Rectangle {
    Rectangle {
        top_left: Point { x: style.glyph_x(top, k), y: top.y },
        size: style.font.character_size,
    }
}

/// The contiguous fill of the `k`-th character of `chars` on a line at
/// `top`, drawn opaque: its cell, and its samples with text color for on and
/// background color for off.
pub open spec fn opaque_fill<'a, C: Copy>(
    style: MonoTextStyle<C, MonoFont<'a>>,
    chars: Seq<char>,
    top: Point,
    k: int,
) -> (Rectangle, Seq<C>) {
    (
        glyph_cell(style, top, k),
        MonoTextStyle::<C, MonoFont<'a>>::opaque_colors(
            style.font.glyph_samples(chars[k]),
            style.text_color->Some_0,
            style.background_color->Some_0,
        ),
    )
}

proof fn lemma_opaque_chars<'a, C: Copy>(
    style: MonoTextStyle<C, MonoFont<'a>>,
    chars: Seq<char>,
    top: Point,
)
    requires
        style.text_color is Some,
        style.background_color is Some,
    ensures
        contiguous_fills(style.chars_ops(chars, top)) == Seq::new(
            chars.len(),
            |k: int| opaque_fill(style, chars, top, k),
        ),
    decreases chars.len(),
{
    if chars.len() > 0 {
        let k = chars.len() - 1;
        lemma_opaque_chars(style, chars.drop_last(), top);
        let gap = style.gap_ops(top, k);
        let glyph = style.glyph_ops(chars.last(), Point { x: style.glyph_x(top, k), y: top.y });
        lemma_contiguous_fills_append(style.chars_ops(chars.drop_last(), top), gap + glyph);
        lemma_contiguous_fills_append(gap, glyph);
        if gap.len() > 0 {
            lemma_contiguous_fills_single(gap[0]);
            assert(gap =~= seq![gap[0]]);
        } else {
            assert(contiguous_fills(gap) == Seq::<(Rectangle, Seq<C>)>::empty());
        }
        lemma_contiguous_fills_single(glyph[0]);
        assert(glyph =~= seq![glyph[0]]);
        assert(contiguous_fills(gap) + contiguous_fills(glyph) =~= seq![opaque_fill(style, chars, top, k)]);
        assert(contiguous_fills(style.chars_ops(chars.drop_last(), top)).push(
            opaque_fill(style, chars, top, k),
        ) =~= Seq::new(chars.len(), |k: int| opaque_fill(style, chars, top, k)));
        assert(style.chars_ops(chars, top) == style.chars_ops(chars.drop_last(), top) + (gap
            + glyph));
    } else {
        assert(contiguous_fills(style.chars_ops(chars, top)) =~= Seq::new(
            chars.len(),
            |k: int| opaque_fill(style, chars, top, k),
        ));
    }
}

proof fn lemma_decorations_not_contiguous<'a, C: Copy>(
    style: MonoTextStyle<C, MonoFont<'a>>,
    width: u32,
    top: Point,
)
    ensures
        contiguous_fills(style.decorations_ops(width, top)) == Seq::<(Rectangle, Seq<C>)>::empty(),
{
    let ops = style.decorations_ops(width, top);
    let strike = style.decoration_ops(
        style.strikethrough_color,
        style.font.strikethrough_offset,
        style.font.strikethrough_height,
        width,
        top,
    );
    let under = style.decoration_ops(
        style.underline_color,
        style.font.underline_offset,
        style.font.underline_height,
        width,
        top,
    );
    lemma_contiguous_fills_append(strike, under);
    if strike.len() > 0 {
        lemma_contiguous_fills_single(strike[0]);
        assert(strike =~= seq![strike[0]]);
    } else {
        assert(contiguous_fills(strike) == Seq::<(Rectangle, Seq<C>)>::empty());
    }
    if under.len() > 0 {
        lemma_contiguous_fills_single(under[0]);
        assert(under =~= seq![under[0]]);
    } else {
        assert(contiguous_fills(under) == Seq::<(Rectangle, Seq<C>)>::empty());
    }
    assert(contiguous_fills(ops) =~= Seq::<(Rectangle, Seq<C>)>::empty());
}

/// With both a text and a background color, drawing a string fills each
/// character's whole cell with exactly one contiguous fill, in order, in the
/// text color where the glyph is on and the background color where it is
/// off; it makes no other contiguous fill and no sparse pixel draw.
pub proof fn lemma_opaque_text_one_fill_per_char<'a, C: Copy>(
    style: MonoTextStyle<C, MonoFont<'a>>,
    text: Seq<char>,
    position: Point,
    baseline: Baseline,
)
    requires
        style.text_color is Some,
        style.background_color is Some,
    ensures
        contiguous_fills(style.string_ops(text, position, baseline)) == Seq::new(
            text.len(),
            |k: int| opaque_fill(style, text, style.line_top(position, baseline), k),
        ),
        forall|i: int|
            0 <= i < style.string_ops(text, position, baseline).len() ==> !(
            #[trigger] style.string_ops(text, position, baseline)[i] is DrawPixels),
{
    lemma_opaque_no_pixel_draws(style, text, style.line_top(position, baseline));
    let top = style.line_top(position, baseline);
    let width = sat_u32(style.text_advance(text.len() as int));
    lemma_opaque_chars(style, text, top);
    lemma_decorations_not_contiguous(style, width, top);
    lemma_contiguous_fills_append(style.chars_ops(text, top), style.decorations_ops(width, top));
    assert(contiguous_fills(style.string_ops(text, position, baseline)) =~= contiguous_fills(
        style.chars_ops(text, top),
    ));
}

/// Whether `pixel` is, in `color`, the pixel of one of the first `k`
/// samples that equal `want`.
pub open spec fn from_sample<'a, C: Copy>(
    style: MonoTextStyle<C, MonoFont<'a>>,
    pixel: Pixel<C>,
    samples: Seq<bool>,
    want: bool,
    origin: Point,
    color: C,
    k: int,
) -> bool {
    exists|i: int|
        0 <= i < k && samples[i] == want && pixel == Pixel(
            #[trigger] style.sample_point(origin, i),
            color,
        )
}

/// Whether `pixels` are exactly the pixels, in `color`, of the first `k`
/// samples that equal `want`, each at its sample's position.
pub open spec fn picks_exactly<'a, C: Copy>(
    style: MonoTextStyle<C, MonoFont<'a>>,
    pixels: Seq<Pixel<C>>,
    samples: Seq<bool>,
    want: bool,
    origin: Point,
    color: C,
    k: int,
) -> bool {
    &&& forall|j: int|
        0 <= j < pixels.len() ==> #[trigger] from_sample(
            style,
            pixels[j],
            samples,
            want,
            origin,
            color,
            k,
        )
    &&& forall|i: int|
        #![trigger samples[i]]
        0 <= i < k && samples[i] == want ==> exists|j: int|
            0 <= j < pixels.len() && #[trigger] pixels[j] == Pixel(
                style.sample_point(origin, i),
                color,
            )
}

/// The sample that the `j`-th picked pixel comes from.
proof fn lemma_picked_from<'a, C: Copy>(
    style: MonoTextStyle<C, MonoFont<'a>>,
    samples: Seq<bool>,
    want: bool,
    origin: Point,
    color: C,
    k: nat,
    j: int,
) -> (i: int)
    requires
        k <= samples.len(),
        0 <= j < style.select_pixels(samples, want, origin, color, k).len(),
    ensures
        0 <= i < k,
        samples[i] == want,
        style.select_pixels(samples, want, origin, color, k)[j] == Pixel(
            style.sample_point(origin, i),
            color,
        ),
    decreases k,
{
    let prev = style.select_pixels(samples, want, origin, color, (k - 1) as nat);
    if j < prev.len() {
        lemma_picked_from(style, samples, want, origin, color, (k - 1) as nat, j)
    } else {
        k - 1
    }
}

/// The place among the picked pixels of sample `i`, which equals `want`.
proof fn lemma_picked_at<'a, C: Copy>(
    style: MonoTextStyle<C, MonoFont<'a>>,
    samples: Seq<bool>,
    want: bool,
    origin: Point,
    color: C,
    k: nat,
    i: int,
) -> (j: int)
    requires
        k <= samples.len(),
        0 <= i < k,
        samples[i] == want,
    ensures
        0 <= j < style.select_pixels(samples, want, origin, color, k).len(),
        style.select_pixels(samples, want, origin, color, k)[j] == Pixel(
            style.sample_point(origin, i),
            color,
        ),
    decreases k,
{
    let prev = style.select_pixels(samples, want, origin, color, (k - 1) as nat);
    if i < k - 1 {
        lemma_picked_at(style, samples, want, origin, color, (k - 1) as nat, i)
    } else {
        prev.len() as int
    }
}

/// The pixels picked from the first `k` samples are exactly those of the
/// samples that equal `want`.
pub proof fn lemma_select_pixels<'a, C: Copy>(
    style: MonoTextStyle<C, MonoFont<'a>>,
    samples: Seq<bool>,
    want: bool,
    origin: Point,
    color: C,
    k: nat,
)
    requires
        k <= samples.len(),
    ensures
        picks_exactly(
            style,
            style.select_pixels(samples, want, origin, color, k),
            samples,
            want,
            origin,
            color,
            k as int,
        ),
{
    let cur = style.select_pixels(samples, want, origin, color, k);
    assert forall|j: int| 0 <= j < cur.len() implies #[trigger] from_sample(
        style,
        cur[j],
        samples,
        want,
        origin,
        color,
        k as int,
    ) by {
        let i = lemma_picked_from(style, samples, want, origin, color, k, j);
    }
    assert forall|i: int| #![trigger samples[i]] 0 <= i < k && samples[i] == want implies exists|j: int|
        0 <= j < cur.len() && #[trigger] cur[j] == Pixel(style.sample_point(origin, i), color) by {
        let j = lemma_picked_at(style, samples, want, origin, color, k, i);
    }
}

/// With a text color and no background color, a glyph is drawn as one
/// sparse draw whose pixels are exactly its on-bits, in the text color: no
/// off-bit is drawn.
pub proof fn lemma_text_only_draws_on_bits<'a, C: Copy>(
    style: MonoTextStyle<C, MonoFont<'a>>,
    c: char,
    origin: Point,
)
    requires
        style.text_color is Some,
        style.background_color is None,
    ensures
        exists|pixels: Seq<Pixel<C>>|
            {
                &&& #[trigger] style.glyph_ops(c, origin) == seq![DrawOp::DrawPixels(pixels)]
                &&& picks_exactly(
                    style,
                    pixels,
                    style.font.glyph_samples(c),
                    true,
                    origin,
                    style.text_color->Some_0,
                    style.font.cell_area() as int,
                )
            },
{
    let samples = style.font.glyph_samples(c);
    let t = style.text_color->Some_0;
    let pixels = style.select_pixels(samples, true, origin, t, samples.len());
    lemma_select_pixels(style, samples, true, origin, t, samples.len());
    assert(style.glyph_ops(c, origin) == seq![DrawOp::DrawPixels(pixels)]);
}

/// An underline that follows the text color draws nothing while no text
/// color is set.
pub proof fn lemma_follow_text_underline_without_text_color<'a, C: Copy>(
    style: MonoTextStyle<C, MonoFont<'a>>,
    width: u32,
    top: Point,
)
    requires
        style.text_color is None,
        style.underline_color is TextColor,
    ensures
        style.decoration_ops(
            style.underline_color,
            style.font.underline_offset,
            style.font.underline_height,
            width,
            top,
        ) == Seq::<DrawOp<C>>::empty(),
{
}

proof fn lemma_same_glyphs_chars<'a, C: Copy>(
    style: MonoTextStyle<C, MonoFont<'a>>,
    a: Seq<char>,
    b: Seq<char>,
    top: Point,
)
    requires
        a.len() == b.len(),
        forall|k: int| 0 <= k < a.len() ==> style.font.glyph_index(a[k]) == style.font.glyph_index(b[k]),
    ensures
        style.chars_ops(a, top) == style.chars_ops(b, top),
    decreases a.len(),
{
    if a.len() > 0 {
        let k = a.len() - 1;
        lemma_same_glyphs_chars(style, a.drop_last(), b.drop_last(), top);
        assert(style.font.glyph_samples(a.last()) =~= style.font.glyph_samples(b.last()));
    }
}

/// Two strings whose characters map, one for one, to the same glyphs draw
/// exactly the same: in particular, characters that the font does not hold
/// draw as its replacement glyph does.
pub proof fn lemma_same_glyphs_same_drawing<'a, C: Copy>(
    style: MonoTextStyle<C, MonoFont<'a>>,
    a: Seq<char>,
    b: Seq<char>,
    position: Point,
    baseline: Baseline,
)
    requires
        a.len() == b.len(),
        forall|k: int| 0 <= k < a.len() ==> style.font.glyph_index(a[k]) == style.font.glyph_index(b[k]),
    ensures
        style.string_ops(a, position, baseline) == style.string_ops(b, position, baseline),
{
    lemma_same_glyphs_chars(style, a, b, style.line_top(position, baseline));
}

/// Drawing a string ends where measuring it says the next text goes.
pub proof fn lemma_draw_ends_at_measured_position<'a, C: Copy>(
    style: MonoTextStyle<C, MonoFont<'a>>,
    n: nat,
    position: Point,
)
    ensures
        style.string_end(n as int, position) == (Point {
            x: sat_i32(position.x + sat_u32(style.text_advance(n as int))),
            y: position.y,
        }),
{
    if n > 0 {
        assert(n * style.pitch() >= style.pitch()) by (nonlinear_arith)
            requires
                n >= 1,
                style.pitch() >= 0,
        ;
    }
}

/// A transparent style needs no sink call, for any text or whitespace.
pub proof fn lemma_transparent_draws_nothing<'a, C: Copy>(
    style: MonoTextStyle<C, MonoFont<'a>>,
    text: Seq<char>,
    width: u32,
    position: Point,
    baseline: Baseline,
)
    requires
        style.transparent(),
    ensures
        style.string_ops(text, position, baseline) == Seq::<DrawOp<C>>::empty(),
        style.whitespace_ops(width, position, baseline) == Seq::<DrawOp<C>>::empty(),
{
    let top = style.line_top(position, baseline);
    lemma_transparent_chars(style, text, top);
    assert(style.string_ops(text, position, baseline) =~= Seq::<DrawOp<C>>::empty());
    assert(style.whitespace_ops(width, position, baseline) =~= Seq::<DrawOp<C>>::empty());
}

proof fn lemma_transparent_chars<'a, C: Copy>(
    style: MonoTextStyle<C, MonoFont<'a>>,
    chars: Seq<char>,
    top: Point,
)
    requires
        style.transparent(),
    ensures
        style.chars_ops(chars, top) == Seq::<DrawOp<C>>::empty(),
    decreases chars.len(),
{
    if chars.len() > 0 {
        lemma_transparent_chars(style, chars.drop_last(), top);
        assert(style.chars_ops(chars, top) =~= Seq::<DrawOp<C>>::empty());
    }
}

proof fn lemma_opaque_no_pixel_draws<'a, C: Copy>(
    style: MonoTextStyle<C, MonoFont<'a>>,
    chars: Seq<char>,
    top: Point,
)
    requires
        style.text_color is Some,
        style.background_color is Some,
    ensures
        forall|i: int|
            0 <= i < style.chars_ops(chars, top).len() ==> !(#[trigger] style.chars_ops(
                chars,
                top,
            )[i] is DrawPixels),
    decreases chars.len(),
{
    if chars.len() > 0 {
        lemma_opaque_no_pixel_draws(style, chars.drop_last(), top);
    }
}

/// The pixels of the `k`-th character of `chars` on a line at `top`, drawn
/// in the text color alone.
pub open spec fn text_pixels<'a, C: Copy>(
    style: MonoTextStyle<C, MonoFont<'a>>,
    chars: Seq<char>,
    top: Point,
    k: int,
) -> Seq<Pixel<C>> {
    let samples = style.font.glyph_samples(chars[k]);
    style.select_pixels(
        samples,
        true,
        Point { x: style.glyph_x(top, k), y: top.y },
        style.text_color->Some_0,
        samples.len(),
    )
}

proof fn lemma_text_only_chars<'a, C: Copy>(
    style: MonoTextStyle<C, MonoFont<'a>>,
    chars: Seq<char>,
    top: Point,
)
    requires
        style.text_color is Some,
        style.background_color is None,
    ensures
        style.chars_ops(chars, top) == Seq::new(
            chars.len(),
            |k: int| DrawOp::DrawPixels(text_pixels(style, chars, top, k)),
        ),
    decreases chars.len(),
{
    if chars.len() > 0 {
        lemma_text_only_chars(style, chars.drop_last(), top);
        assert(style.chars_ops(chars, top) =~= Seq::new(
            chars.len(),
            |k: int| DrawOp::DrawPixels(text_pixels(style, chars, top, k)),
        ));
    } else {
        assert(style.chars_ops(chars, top) =~= Seq::new(
            chars.len(),
            |k: int| DrawOp::DrawPixels(text_pixels(style, chars, top, k)),
        ));
    }
}

/// With a text color and no background color, drawing a string makes one
/// sparse pixel draw per character, in order, whose pixels are exactly that
/// glyph's on-bits in the text color, each at its place in the character's
/// cell; no off-bit is drawn. After them come only the solid fills of the
/// decorations.
pub proof fn lemma_text_only_string_draws_on_bits<'a, C: Copy>(
    style: MonoTextStyle<C, MonoFont<'a>>,
    text: Seq<char>,
    position: Point,
    baseline: Baseline,
)
    requires
        style.text_color is Some,
        style.background_color is None,
    ensures
        ({
            let ops = style.string_ops(text, position, baseline);
            let top = style.line_top(position, baseline);
            &&& text.len() <= ops.len()
            &&& forall|k: int|
                0 <= k < text.len() ==> #[trigger] ops[k] == DrawOp::DrawPixels(
                    text_pixels(style, text, top, k),
                )
            &&& forall|k: int|
                0 <= k < text.len() ==> picks_exactly(
                    style,
                    #[trigger] text_pixels(style, text, top, k),
                    style.font.glyph_samples(text[k]),
                    true,
                    Point { x: style.glyph_x(top, k), y: top.y },
                    style.text_color->Some_0,
                    style.font.cell_area() as int,
                )
            &&& forall|i: int| text.len() <= i < ops.len() ==> (#[trigger] ops[i] is FillSolid)
        }),
{
    let top = style.line_top(position, baseline);
    lemma_text_only_chars(style, text, top);
    assert forall|k: int| 0 <= k < text.len() implies picks_exactly(
        style,
        #[trigger] text_pixels(style, text, top, k),
        style.font.glyph_samples(text[k]),
        true,
        Point { x: style.glyph_x(top, k), y: top.y },
        style.text_color->Some_0,
        style.font.cell_area() as int,
    ) by {
        let samples = style.font.glyph_samples(text[k]);
        lemma_select_pixels(
            style,
            samples,
            true,
            Point { x: style.glyph_x(top, k), y: top.y },
            style.text_color->Some_0,
            samples.len(),
        );
    }
}

/// `text` with each tab, line feed and carriage return replaced by `?`.
pub open spec fn controls_as_question_marks(text: Seq<char>) -> Seq<char> {
    text.map_values(|c: char| if c == '\t' || c == '\n' || c == '\r' { '?' } else { c })
}

/// In a font whose characters start after the carriage return and whose
/// replacement glyph is that of `?`, tabs, line feeds and carriage returns
/// draw exactly as `?` does.
pub proof fn lemma_controls_draw_as_question_mark<'a, C: Copy>(
    style: MonoTextStyle<C, MonoFont<'a>>,
    text: Seq<char>,
    position: Point,
    baseline: Baseline,
)
    requires
        style.font.first_char > '\r' as u32,
        style.font.glyph_index('?') == style.font.replacement_glyph,
    ensures
        style.string_ops(text, position, baseline) == style.string_ops(
            controls_as_question_marks(text),
            position,
            baseline,
        ),
{
    let other = controls_as_question_marks(text);
    assert forall|k: int| 0 <= k < text.len() implies style.font.glyph_index(text[k])
        == style.font.glyph_index(other[k]) by {
        assert('\t' as u32 == 9 && '\n' as u32 == 10 && '\r' as u32 == 13);
    }
    lemma_same_glyphs_same_drawing(style, text, other, position, baseline);
}

/// A prefix of a prefix is a prefix.
pub proof fn lemma_take_of_prefix<T>(whole: Seq<T>, pre: Seq<T>, more: Seq<T>)
    requires
        pre.len() + more.len() <= whole.len(),
        whole.take((pre.len() + more.len()) as int) == pre + more,
    ensures
        whole.take(pre.len() as int) == pre,
{
    assert forall|i: int| 0 <= i < pre.len() implies whole.take(pre.len() as int)[i] == pre[i] by {
        assert(whole.take((pre.len() + more.len()) as int)[i] == (pre + more)[i]);
    }
    assert(whole.take(pre.len() as int) =~= pre);
}

/// What drawing the first `k` characters does comes first in what drawing
/// them all does.
pub proof fn lemma_chars_ops_prefix<'a, C: Copy>(
    style: MonoTextStyle<C, MonoFont<'a>>,
    text: Seq<char>,
    top: Point,
    k: int,
)
    requires
        0 <= k <= text.len(),
    ensures
        style.chars_ops(text.take(k), top).len() <= style.chars_ops(text, top).len(),
        style.chars_ops(text, top).take(style.chars_ops(text.take(k), top).len() as int)
            == style.chars_ops(text.take(k), top),
    decreases text.len(),
{
    let all = style.chars_ops(text, top);
    let pre = style.chars_ops(text.take(k), top);
    if k == text.len() {
        assert(text.take(k) =~= text);
        assert(all.take(all.len() as int) =~= all);
    } else {
        lemma_chars_ops_prefix(style, text.drop_last(), top, k);
        assert(text.drop_last().take(k) =~= text.take(k));
        let head = style.chars_ops(text.drop_last(), top);
        let tail = style.char_ops(text.last(), text.len() - 1, top);
        assert(all == head + tail);
        assert(all.take(all.len() as int) =~= head + tail);
        lemma_take_of_prefix(all, head, tail);
        let rest = head.subrange(pre.len() as int, head.len() as int);
        assert(head.take(pre.len() as int) == pre);
        assert(pre + rest =~= head);
        lemma_take_of_prefix(all, pre, rest);
    }
}

/// The characters drawn up to and including the `k`-th come first in what
/// drawing the whole string does.
pub proof fn lemma_string_ops_prefix<'a, C: Copy>(
    style: MonoTextStyle<C, MonoFont<'a>>,
    text: Seq<char>,
    position: Point,
    baseline: Baseline,
    k: int,
)
    requires
        0 <= k < text.len(),
    ensures
        ({
            let top = style.line_top(position, baseline);
            let ops = style.string_ops(text, position, baseline);
            let upto = style.chars_ops(text.take(k), top) + style.gap_ops(top, k)
                + style.glyph_ops(text[k], Point { x: style.glyph_x(top, k), y: top.y });
            &&& upto == style.chars_ops(text.take(k + 1), top)
            &&& upto.len() <= ops.len()
            &&& ops.take(upto.len() as int) == upto
        }),
{
    let top = style.line_top(position, baseline);
    let ops = style.string_ops(text, position, baseline);
    let chars = style.chars_ops(text, top);
    let deco = style.decorations_ops(sat_u32(style.text_advance(text.len() as int)), top);
    assert(text.take(k + 1).drop_last() =~= text.take(k));
    assert(text.take(k + 1).last() == text[k]);
    lemma_chars_ops_prefix(style, text, top, k + 1);
    let upto = style.chars_ops(text.take(k + 1), top);
    assert(upto == style.chars_ops(text.take(k), top) + (style.gap_ops(top, k) + style.glyph_ops(
        text[k],
        Point { x: style.glyph_x(top, k), y: top.y },
    )));
    assert(ops == chars + deco);
    assert(ops.take(ops.len() as int) =~= chars + deco);
    lemma_take_of_prefix(ops, chars, deco);
    let rest = chars.subrange(upto.len() as int, chars.len() as int);
    assert(upto + rest =~= chars);
    lemma_take_of_prefix(ops, upto, rest);
}

} // verus!
