//! Bitmap-font text widgets.
//!
//! A [`Font`] is a glyph atlas: one texture subdivided into a grid of
//! equally sized cells, addressed by character code.  Text widgets do not
//! touch a canvas themselves; every `draw` method appends [`Blit`] commands
//! (copy one source cell of the atlas texture to a destination position) to
//! an output list, and the embedding program performs them.
//!
//! Character codes 32 through 95 (space through underscore: space,
//! punctuation, digits and upper-case letters) are representable; any other
//! character is silently skipped when drawing, by design.

use vstd::prelude::*;
use vstd::string::StrSliceExecFns;

verus! {

/// Lowest representable character code (space).
pub const MIN_GLYPH_CODE: u32 = 32;

/// Highest representable character code (underscore).
pub const MAX_GLYPH_CODE: u32 = 95;

/// One copy command: blit the `w x h` region of texture `tex` at
/// `(src_x, src_y)` to the screen position `(dst_x, dst_y)`.
///
/// Destination coordinates are wide enough that cursor arithmetic in the
/// widgets can never overflow; clamping to the real canvas is the
/// renderer's concern.
#[derive(Clone, Copy, Debug, PartialEq, Eq, Structural)]
pub struct Blit {
    pub tex: usize,
    pub src_x: u32,
    pub src_y: u32,
    pub w: u32,
    pub h: u32,
    pub dst_x: i64,
    pub dst_y: i64,
}

/// A bitmap font: a texture holding a fixed grid of glyph cells.
///
/// The texture itself stays with the renderer; the font refers to it by
/// the handle `tex` and only knows the grid geometry.
#[derive(Clone, Copy, Debug)]
pub struct Font {
    /// Width of a single character cell.
    pub width: u32,
    /// Height of a single character cell.
    pub height: u32,
    /// Number of cell rows in the atlas.
    pub rows: u32,
    /// Number of cell columns in the atlas.
    pub cols: u32,
    /// Renderer handle of the image holding the glyph pixel data.
    pub tex: usize,
}

/// Is `c` a representable character code?
pub open spec fn glyph_in_range(c: int) -> bool {
    MIN_GLYPH_CODE <= c <= MAX_GLYPH_CODE
}

impl Font {
    /// Well formed: non-degenerate cells, enough cells for every
    /// representable code, and source-rectangle arithmetic that stays in
    /// bounds of the image.
    pub open spec fn wf(&self) -> bool {
        &&& self.width >= 1
        &&& self.height >= 1
        &&& self.cols >= 1
        &&& (self.rows as int) * (self.cols as int) >= 64
        &&& (self.cols as int) * (self.width as int) <= u32::MAX
        &&& (self.rows as int) * (self.height as int) <= u32::MAX
    }

    /// Cell row of a representable code: glyph index over atlas columns.
    pub open spec fn glyph_row(&self, c: int) -> int {
        (c - 32) / (self.cols as int)
    }

    /// Cell column of a representable code: glyph index modulo atlas
    /// columns.
    pub open spec fn glyph_col(&self, c: int) -> int {
        (c - 32) % (self.cols as int)
    }

    /// The one blit that draws the glyph of code `c` at `(x, y)`.
    pub open spec fn glyph_blit(&self, x: int, y: int, c: int) -> Blit {
        Blit {
            tex: self.tex,
            src_x: (self.glyph_col(c) * self.width) as u32,
            src_y: (self.glyph_row(c) * self.height) as u32,
            w: self.width,
            h: self.height,
            dst_x: x as i64,
            dst_y: y as i64,
        }
    }

    /// Derive a font from an image of the given pixel size and the size of
    /// one character cell.  Returns `None` when the cells are degenerate or
    /// the image does not hold enough cells for every representable code.
    pub fn new(
        tex: usize,
        width: u32,
        height: u32,
        image_width: u32,
        image_height: u32,
    ) -> (r: Option<Font>)
        ensures
            match r {
                Some(f) => {
                    &&& f.wf()
                    &&& f.tex == tex
                    &&& f.width == width
                    &&& f.height == height
                    &&& f.rows as int == image_height as int / height as int
                    &&& f.cols as int == image_width as int / width as int
                },
                None => {
                    width == 0 || height == 0 || (image_height as int / height as int)
                        * (image_width as int / width as int) < 64
                },
            },
    {
        if width == 0 || height == 0 {
            return None;
        }
        let rows: u32 = image_height / height;
        let cols: u32 = image_width / width;
        proof {
            assert(rows as int * cols as int <= u64::MAX) by (nonlinear_arith)
                requires
                    0 <= rows <= u32::MAX,
                    0 <= cols <= u32::MAX,
            ;
        }
        if (rows as u64) * (cols as u64) < 64 {
            return None;
        }
        proof {
            assert(cols >= 1 && rows >= 1) by (nonlinear_arith)
                requires
                    rows as int * cols as int >= 64,
                    rows >= 0,
                    cols >= 0,
            ;
            vstd::arithmetic::div_mod::lemma_fundamental_div_mod(
                image_width as int,
                width as int,
            );
            vstd::arithmetic::div_mod::lemma_mod_bound(image_width as int, width as int);
            vstd::arithmetic::div_mod::lemma_fundamental_div_mod(
                image_height as int,
                height as int,
            );
            vstd::arithmetic::div_mod::lemma_mod_bound(
                image_height as int,
                height as int,
            );
            assert(width as int * (image_width as int / width as int)
                <= image_width as int);
            assert(cols as int * width as int <= u32::MAX);
            assert(height as int * (image_height as int / height as int)
                <= image_height as int);
            assert(rows as int * height as int <= u32::MAX);
        }
        Some(Font { width, height, rows, cols, tex })
    }

    /// Append the blit drawing character `c` at `(x, y)`, or nothing when
    /// the code of `c` is not representable in the atlas.
    pub fn draw_char(&self, x: i64, y: i64, c: char, out: &mut Vec<Blit>)
        requires
            self.wf(),
        ensures
            glyph_in_range(c as int) ==> final(out)@ == old(out)@.push(
                self.glyph_blit(x as int, y as int, c as int),
            ),
            !glyph_in_range(c as int) ==> final(out)@ == old(out)@,
    {
        let code = c as u32;
        if code < MIN_GLYPH_CODE || code > MAX_GLYPH_CODE {
            // Outside of the character range: draw nothing.
            return;
        }
        let index: u32 = code - 32;
        let row: u32 = index / self.cols;
        let col: u32 = index % self.cols;
        proof {
            vstd::arithmetic::div_mod::lemma_mod_bound(index as int, self.cols as int);
            assert(row as int * self.height as int <= u32::MAX && col as int
                * self.width as int <= u32::MAX) by (nonlinear_arith)
                requires
                    row == index as int / self.cols as int,
                    col == index as int % self.cols as int,
                    0 <= index < 64,
                    self.cols >= 1,
                    0 <= col < self.cols,
                    self.rows as int * self.cols as int >= 64,
                    self.cols as int * self.width as int <= u32::MAX,
                    self.rows as int * self.height as int <= u32::MAX,
                    self.width >= 1,
                    self.height >= 1,
            ;
        }
        let source_x: u32 = col * self.width;
        let source_y: u32 = row * self.height;
        out.push(
            Blit {
                tex: self.tex,
                src_x: source_x,
                src_y: source_y,
                w: self.width,
                h: self.height,
                dst_x: x,
                dst_y: y,
            },
        );
    }
}

/// The blits that draw the characters of `s` left to right starting at
/// `(x, y)`, advancing by one cell width per character and skipping codes
/// the atlas cannot represent.
pub open spec fn text_blits(f: Font, x: int, y: int, s: Seq<char>) -> Seq<Blit>
    decreases s.len(),
{
    if s.len() == 0 {
        Seq::empty()
    } else {
        let head = if glyph_in_range(s[0] as int) {
            seq![f.glyph_blit(x, y, s[0] as int)]
        } else {
            Seq::empty()
        };
        head + text_blits(f, x + f.width, y, s.drop_first())
    }
}

/// Appending one character appends its (possibly empty) blit at the end of
/// the line.
proof fn lemma_text_blits_push(f: Font, x: int, y: int, s: Seq<char>, c: char)
    ensures
        text_blits(f, x, y, s.push(c)) == text_blits(f, x, y, s) + (if glyph_in_range(
            c as int,
        ) {
            seq![f.glyph_blit(x + s.len() * f.width, y, c as int)]
        } else {
            Seq::<Blit>::empty()
        }),
    decreases s.len(),
{
    reveal_with_fuel(text_blits, 3);
    let tail = if glyph_in_range(c as int) {
        seq![f.glyph_blit(x + s.len() * f.width, y, c as int)]
    } else {
        Seq::<Blit>::empty()
    };
    if s.len() == 0 {
        assert(s.push(c)[0] == c);
        assert(s.push(c).drop_first() =~= Seq::<char>::empty());
        assert(text_blits(f, x, y, s.push(c)) =~= text_blits(f, x, y, s) + tail);
    } else {
        lemma_text_blits_push(f, x + f.width, y, s.drop_first(), c);
        assert(s.push(c).drop_first() =~= s.drop_first().push(c));
        assert(s.push(c)[0] == s[0]);
        assert(x + f.width + s.drop_first().len() * f.width == x + s.len() * f.width)
            by (nonlinear_arith)
            requires
                s.len() >= 1,
                s.drop_first().len() == s.len() - 1,
        ;
        let head = if glyph_in_range(s[0] as int) {
            seq![f.glyph_blit(x, y, s[0] as int)]
        } else {
            Seq::<Blit>::empty()
        };
        assert(text_blits(f, x, y, s.push(c)) =~= head + text_blits(
            f,
            x + f.width,
            y,
            s.drop_first(),
        ) + tail);
        assert(text_blits(f, x, y, s) + tail =~= head + text_blits(
            f,
            x + f.width,
            y,
            s.drop_first(),
        ) + tail);
    }
}

/// A text label: a string, a screen position and the bounding box it
/// occupies under its attached font.
pub struct StaticText {
    pub x: i64,
    pub y: i64,
    pub width: u32,
    pub height: u32,
    pub text: String,
    pub font: Option<Font>,
}

impl StaticText {
    /// Well formed: with a font attached the bounding box is exactly one
    /// cell per character; without one it is empty.
    pub open spec fn wf(&self) -> bool {
        match self.font {
            Some(f) => {
                &&& f.wf()
                &&& self.width as int == (f.width as int) * self.text@.len()
                &&& self.height == f.height
            },
            None => self.width == 0 && self.height == 0,
        }
    }

    /// The blits that draw this label with its top-left corner at
    /// `(x, y)`; none when no font is attached.
    pub open spec fn blits_at(&self, x: int, y: int) -> Seq<Blit> {
        match self.font {
            Some(f) => text_blits(f, x, y, self.text@),
            None => Seq::empty(),
        }
    }

    pub fn new(x: i64, y: i64, text: String) -> (r: StaticText)
        ensures
            r.wf(),
            r.x == x,
            r.y == y,
            r.width == 0,
            r.height == 0,
            r.text == text,
            r.font is None,
    {
        StaticText { x, y, width: 0, height: 0, text, font: None }
    }

    /// Shift the label left by half its width, horizontally centering it
    /// on its current `x`.  Valid once per desired centering: a second
    /// call shifts again.  Without a font this is a no-op.
    pub fn center(&mut self)
        requires
            old(self).wf(),
            old(self).x - old(self).width as int / 2 >= i64::MIN,
        ensures
            *final(self) == (StaticText {
                x: if old(self).font is Some {
                    (old(self).x - old(self).width as int / 2) as i64
                } else {
                    old(self).x
                },
                ..*old(self)
            }),
    {
        if self.font.is_some() {
            self.x = self.x - ((self.width / 2) as i64);
        }
    }

    /// Append the blits of this label drawn at `(x, y)`.
    fn draw_at(&self, x: i64, y: i64, out: &mut Vec<Blit>)
        requires
            self.wf(),
            x <= i64::MAX - self.width,
        ensures
            final(out)@ == old(out)@ + self.blits_at(x as int, y as int),
    {
        let font = match &self.font {
            Some(f) => f,
            None => {
                assert(out@ =~= old(out)@ + self.blits_at(x as int, y as int));
                return ;
            },
        };
        let n: usize = self.text.as_str().unicode_len();
        let mut x2: i64 = x;
        let mut i: usize = 0;
        proof {
            assert(self.text@.take(0) =~= Seq::<char>::empty());
            assert(out@ =~= out@ + text_blits(*font, x as int, y as int, self.text@.take(0)));
        }
        while i < n
            invariant
                self.wf(),
                self.font == Some(*font),
                n == self.text@.len(),
                0 <= i <= n,
                x2 == x + i * font.width,
                x + self.width <= i64::MAX,
                self.width as int == (font.width as int) * n,
                out@ == old(out)@ + text_blits(*font, x as int, y as int, self.text@.take(i as int)),
            decreases n - i,
        {
            let c = self.text.as_str().get_char(i);
            proof {
                assert((i + 1) * font.width <= n * font.width && i * font.width >= 0
                    && (i + 1) * font.width == i * font.width + font.width)
                    by (nonlinear_arith)
                    requires
                        0 <= i < n,
                        font.width >= 1,
                ;
                assert(x2 + font.width <= i64::MAX) by (nonlinear_arith)
                    requires
                        x2 == x + i * font.width,
                        0 <= i < n,
                        self.width as int == (font.width as int) * n,
                        x + self.width <= i64::MAX,
                        font.width >= 1,
                ;
                lemma_text_blits_push(
                    *font,
                    x as int,
                    y as int,
                    self.text@.take(i as int),
                    c,
                );
                assert(self.text@.take(i + 1) =~= self.text@.take(i as int).push(c));
            }
            font.draw_char(x2, y, c, out);
            x2 = x2 + (font.width as i64);
            i = i + 1;
        }
        proof {
            assert(self.text@.take(n as int) =~= self.text@);
        }
    }

    /// Append the blits of this label at its own position.
    pub fn draw(&self, out: &mut Vec<Blit>)
        requires
            self.wf(),
            self.x <= i64::MAX - self.width,
        ensures
            final(out)@ == old(out)@ + self.blits_at(self.x as int, self.y as int),
    {
        self.draw_at(self.x, self.y, out);
    }

    /// Append the blits of this label displaced by `(dx, dy)`.
    pub fn draw_offset(&self, dx: i64, dy: i64, out: &mut Vec<Blit>)
        requires
            self.wf(),
            i64::MIN <= self.x + dx,
            self.x + dx <= i64::MAX - self.width,
            i64::MIN <= self.y + dy <= i64::MAX,
        ensures
            final(out)@ == old(out)@ + self.blits_at(self.x + dx, self.y + dy),
    {
        let newx = self.x + dx;
        let newy = self.y + dy;
        self.draw_at(newx, newy, out);
    }

    /// Replace the text and synchronously recompute the bounding box.
    pub fn set_text(&mut self, new_text: String)
        requires
            old(self).wf(),
            match old(self).font {
                Some(f) => (f.width as int) * new_text@.len() <= u32::MAX,
                None => true,
            },
        ensures
            final(self).wf(),
            *final(self) == (StaticText {
                width: final(self).width,
                text: new_text,
                ..*old(self)
            }),
            match old(self).font {
                Some(f) => final(self).width as int == (f.width as int)
                    * new_text@.len(),
                None => final(self).width == 0,
            },
    {
        self.text = new_text;
        self.adapt_width_and_height();
    }

    /// Attach or replace the shared font and synchronously recompute the
    /// bounding box.
    pub fn set_font(&mut self, font: &Font)
        requires
            old(self).wf(),
            font.wf(),
            (font.width as int) * old(self).text@.len() <= u32::MAX,
        ensures
            final(self).wf(),
            *final(self) == (StaticText {
                width: final(self).width,
                height: font.height,
                font: Some(*font),
                ..*old(self)
            }),
            final(self).width as int == (font.width as int) * old(self).text@.len(),
    {
        self.font = Some(*font);
        self.adapt_width_and_height();
    }

    fn adapt_width_and_height(&mut self)
        requires
            match old(self).font {
                Some(f) => f.wf() && (f.width as int) * old(self).text@.len()
                    <= u32::MAX,
                None => old(self).width == 0 && old(self).height == 0,
            },
        ensures
            final(self).wf(),
            *final(self) == (StaticText {
                width: final(self).width,
                height: final(self).height,
                ..*old(self)
            }),
    {
        if let Some(f) = &self.font {
            let n: usize = self.text.as_str().unicode_len();
            let w: u64 = (f.width as u64) * (n as u64);
            self.width = w as u32;
            self.height = f.height;
        }
    }

    pub fn get_width(&self) -> (r: u32)
        ensures
            r == self.width,
    {
        self.width
    }

    pub fn set_x(&mut self, x: i64)
        ensures
            *final(self) == (StaticText { x, ..*old(self) }),
    {
        self.x = x;
    }
}

/// Vertical wave displacement of a glyph, in pixels: the amplitude scaled
/// by the sine (in thousandths) of the accumulated angle `d` (in degrees,
/// reduced to one turn).  Division rounds the magnitude towards zero.
pub open spec fn wave_disp(amplitude: u32, d: int) -> int
    recommends
        d >= 0,
{
    let s = crate::trig::spec_sine_mille(d % (crate::trig::FULL_TURN as int));
    if s >= 0 {
        amplitude * s / 1000
    } else {
        -((amplitude * (-s)) / 1000)
    }
}

/// The displacement of the glyph at angle `d` degrees, `d < 360`.
fn wave_displacement(amplitude: u32, d: u32) -> (r: i64)
    requires
        d < crate::trig::FULL_TURN,
    ensures
        r == wave_disp(amplitude, d as int),
        -(amplitude as int) <= r <= amplitude as int,
{
    proof {
        vstd::arithmetic::div_mod::lemma_small_mod(
            d as nat,
            crate::trig::FULL_TURN as nat,
        );
    }
    let s: i32 = crate::trig::sine_mille(d);
    let magnitude: u32 = if s >= 0 {
        s as u32
    } else {
        (-s) as u32
    };
    proof {
        assert(amplitude as int * magnitude as int <= 0xffff_ffff * 1000)
            by (nonlinear_arith)
            requires
                0 <= amplitude <= u32::MAX,
                0 <= magnitude <= 1000,
        ;
        assert(amplitude as int * magnitude as int <= amplitude as int * 1000)
            by (nonlinear_arith)
            requires
                0 <= amplitude,
                0 <= magnitude <= 1000,
        ;
        vstd::arithmetic::div_mod::lemma_div_is_ordered(
            amplitude as int * magnitude as int,
            amplitude as int * 1000,
            1000,
        );
        vstd::arithmetic::div_mod::lemma_div_by_multiple(amplitude as int, 1000);
    }
    let m: u64 = (amplitude as u64) * (magnitude as u64);
    let d0: i64 = (m / 1000) as i64;
    if s >= 0 {
        d0
    } else {
        -d0
    }
}

/// The blits that draw `s` as a vertical wave: the glyph at index `i`
/// keeps its horizontal cursor position and is displaced vertically by
/// the sine of `d + i * shift` degrees.
pub open spec fn wave_blits(
    f: Font,
    amplitude: u32,
    x: int,
    y: int,
    d: int,
    shift: int,
    s: Seq<char>,
) -> Seq<Blit>
    decreases s.len(),
{
    if s.len() == 0 {
        Seq::empty()
    } else {
        let head = if glyph_in_range(s[0] as int) {
            seq![f.glyph_blit(x, y + wave_disp(amplitude, d), s[0] as int)]
        } else {
            Seq::empty()
        };
        head + wave_blits(f, amplitude, x + f.width, y, d + shift, shift, s.drop_first())
    }
}

/// Appending one character appends its (possibly empty) wave blit.
proof fn lemma_wave_blits_push(
    f: Font,
    amplitude: u32,
    x: int,
    y: int,
    d: int,
    shift: int,
    s: Seq<char>,
    c: char,
)
    ensures
        wave_blits(f, amplitude, x, y, d, shift, s.push(c)) == wave_blits(
            f,
            amplitude,
            x,
            y,
            d,
            shift,
            s,
        ) + (if glyph_in_range(c as int) {
            seq![
                f.glyph_blit(
                    x + s.len() * f.width,
                    y + wave_disp(amplitude, d + s.len() * shift),
                    c as int,
                ),
            ]
        } else {
            Seq::<Blit>::empty()
        }),
    decreases s.len(),
{
    reveal_with_fuel(wave_blits, 3);
    let tail = if glyph_in_range(c as int) {
        seq![
            f.glyph_blit(
                x + s.len() * f.width,
                y + wave_disp(amplitude, d + s.len() * shift),
                c as int,
            ),
        ]
    } else {
        Seq::<Blit>::empty()
    };
    if s.len() == 0 {
        assert(s.push(c)[0] == c);
        assert(s.push(c).drop_first() =~= Seq::<char>::empty());
        assert(wave_blits(f, amplitude, x, y, d, shift, s.push(c)) =~= wave_blits(
            f,
            amplitude,
            x,
            y,
            d,
            shift,
            s,
        ) + tail);
    } else {
        lemma_wave_blits_push(
            f,
            amplitude,
            x + f.width,
            y,
            d + shift,
            shift,
            s.drop_first(),
            c,
        );
        assert(s.push(c).drop_first() =~= s.drop_first().push(c));
        assert(s.push(c)[0] == s[0]);
        assert(x + f.width + s.drop_first().len() * f.width == x + s.len() * f.width
            && d + shift + s.drop_first().len() * shift == d + s.len() * shift)
            by (nonlinear_arith)
            requires
                s.len() >= 1,
                s.drop_first().len() == s.len() - 1,
        ;
        let head = if glyph_in_range(s[0] as int) {
            seq![f.glyph_blit(x, y + wave_disp(amplitude, d), s[0] as int)]
        } else {
            Seq::<Blit>::empty()
        };
        assert(wave_blits(f, amplitude, x, y, d, shift, s.push(c)) =~= head + wave_blits(
            f,
            amplitude,
            x + f.width,
            y,
            d + shift,
            shift,
            s.drop_first(),
        ) + tail);
        assert(wave_blits(f, amplitude, x, y, d, shift, s) + tail =~= head + wave_blits(
            f,
            amplitude,
            x + f.width,
            y,
            d + shift,
            shift,
            s.drop_first(),
        ) + tail);
    }
}

/// A text label whose glyphs ride a vertical sine wave while the widget is
/// active.
///
/// The animation state is held in whole degrees: `phase` is the wave phase
/// in `[0, 360)`, `speed` the phase advance per update tick, and `shift`
/// the extra phase of each following glyph along the string.
pub struct WaveText {
    pub base: StaticText,
    /// Peak vertical displacement, in pixels.
    pub amplitude: u32,
    /// Current phase, in degrees within one turn.
    pub phase: u32,
    /// Phase advance per update tick, in degrees (at most one turn).
    pub speed: u32,
    /// Phase shift between neighbouring glyphs, in degrees.
    pub shift: u32,
    pub active: bool,
}

/// The phase one update tick later: advance and wrap by subtracting one
/// full turn on overflow, preserving the position inside the turn.
pub open spec fn next_phase(phase: int, speed: int) -> int {
    if phase + speed >= crate::trig::FULL_TURN {
        phase + speed - crate::trig::FULL_TURN
    } else {
        phase + speed
    }
}

impl WaveText {
    /// Well formed: the phase stays inside one turn, and one tick or one
    /// glyph shift advances by at most one turn, so a single wrap
    /// suffices.
    pub open spec fn wf(&self) -> bool {
        &&& self.base.wf()
        &&& self.phase < crate::trig::FULL_TURN
        &&& self.speed <= crate::trig::FULL_TURN
        &&& self.shift < crate::trig::FULL_TURN
    }

    /// The blits this widget draws: a wave of glyphs while active, the
    /// plain label at its base position while inactive, nothing without a
    /// font.
    pub open spec fn blits(&self) -> Seq<Blit> {
        match self.base.font {
            Some(f) => if self.active {
                wave_blits(
                    f,
                    self.amplitude,
                    self.base.x as int,
                    self.base.y as int,
                    self.phase as int,
                    self.shift as int,
                    self.base.text@,
                )
            } else {
                text_blits(f, self.base.x as int, self.base.y as int, self.base.text@)
            },
            None => Seq::empty(),
        }
    }

    pub fn new(
        x: i64,
        y: i64,
        amplitude: u32,
        speed: u32,
        shift: u32,
        text: String,
    ) -> (r: WaveText)
        requires
            speed <= crate::trig::FULL_TURN,
            shift < crate::trig::FULL_TURN,
        ensures
            r.wf(),
            r.base.x == x,
            r.base.y == y,
            r.base.text == text,
            r.base.font is None,
            r.amplitude == amplitude,
            r.phase == 0,
            r.speed == speed,
            r.shift == shift,
            r.active,
    {
        WaveText {
            base: StaticText::new(x, y, text),
            amplitude,
            phase: 0,
            speed,
            shift,
            active: true,
        }
    }

    pub fn center(&mut self)
        requires
            old(self).wf(),
            old(self).base.x - old(self).base.width as int / 2 >= i64::MIN,
        ensures
            final(self).wf(),
            *final(self) == (WaveText {
                base: final(self).base,
                ..*old(self)
            }),
            final(self).base == (StaticText {
                x: if old(self).base.font is Some {
                    (old(self).base.x - old(self).base.width as int / 2) as i64
                } else {
                    old(self).base.x
                },
                ..old(self).base
            }),
    {
        self.base.center();
    }

    /// Advance the wave by one tick while active.  The phase always stays
    /// inside `[0, 360)`: on overflow one full turn is subtracted, never
    /// more taken away, so the position inside the turn is preserved.
    pub fn update(&mut self)
        requires
            old(self).wf(),
        ensures
            final(self).wf(),
            *final(self) == (WaveText { phase: final(self).phase, ..*old(self) }),
            final(self).phase as int == if old(self).active {
                next_phase(old(self).phase as int, old(self).speed as int)
            } else {
                old(self).phase as int
            },
            0 <= final(self).phase < crate::trig::FULL_TURN,
    {
        if self.active {
            self.phase = self.phase + self.speed;
            if self.phase >= crate::trig::FULL_TURN {
                self.phase = self.phase - crate::trig::FULL_TURN;
            }
        }
    }

    /// Append the blits of this widget: displaced glyphs while active,
    /// the plain label otherwise.
    pub fn draw(&self, out: &mut Vec<Blit>)
        requires
            self.wf(),
            self.base.x <= i64::MAX - self.base.width,
            i64::MIN + self.amplitude <= self.base.y,
            self.base.y <= i64::MAX - self.amplitude,
        ensures
            final(out)@ == old(out)@ + self.blits(),
    {
        let font = match &self.base.font {
            Some(f) => f,
            None => {
                assert(out@ =~= old(out)@ + self.blits());
                return ;
            },
        };
        if !self.active {
            self.base.draw(out);
            return ;
        }
        let n: usize = self.base.text.as_str().unicode_len();
        let mut x2: i64 = self.base.x;
        let mut ang: u32 = self.phase;
        let mut i: usize = 0;
        proof {
            assert(self.base.text@.take(0) =~= Seq::<char>::empty());
            assert(out@ =~= out@ + wave_blits(
                *font,
                self.amplitude,
                self.base.x as int,
                self.base.y as int,
                self.phase as int,
                self.shift as int,
                self.base.text@.take(0),
            ));
            vstd::arithmetic::div_mod::lemma_small_mod(
                self.phase as nat,
                crate::trig::FULL_TURN as nat,
            );
        }
        while i < n
            invariant
                self.wf(),
                self.base.font == Some(*font),
                self.active,
                n == self.base.text@.len(),
                0 <= i <= n,
                x2 == self.base.x + i * font.width,
                self.base.x + self.base.width <= i64::MAX,
                i64::MIN + self.amplitude <= self.base.y <= i64::MAX - self.amplitude,
                self.base.width as int == (font.width as int) * n,
                ang < crate::trig::FULL_TURN,
                ang as int == (self.phase + i * self.shift) % (crate::trig::FULL_TURN
                    as int),
                out@ == old(out)@ + wave_blits(
                    *font,
                    self.amplitude,
                    self.base.x as int,
                    self.base.y as int,
                    self.phase as int,
                    self.shift as int,
                    self.base.text@.take(i as int),
                ),
            decreases n - i,
        {
            let c = self.base.text.as_str().get_char(i);
            let disp: i64 = wave_displacement(self.amplitude, ang);
            proof {
                assert((i + 1) * font.width <= n * font.width && i * font.width >= 0
                    && (i + 1) * font.width == i * font.width + font.width)
                    by (nonlinear_arith)
                    requires
                        0 <= i < n,
                        font.width >= 1,
                ;
                assert(x2 + font.width <= i64::MAX) by (nonlinear_arith)
                    requires
                        x2 == self.base.x + i * font.width,
                        0 <= i < n,
                        self.base.width as int == (font.width as int) * n,
                        self.base.x + self.base.width <= i64::MAX,
                        font.width >= 1,
                ;
                vstd::arithmetic::div_mod::lemma_small_mod(
                    ang as nat,
                    crate::trig::FULL_TURN as nat,
                );
                assert(disp == wave_disp(self.amplitude, self.phase + i * self.shift));
                lemma_wave_blits_push(
                    *font,
                    self.amplitude,
                    self.base.x as int,
                    self.base.y as int,
                    self.phase as int,
                    self.shift as int,
                    self.base.text@.take(i as int),
                    c,
                );
                assert(self.base.text@.take(i + 1) =~= self.base.text@.take(
                    i as int,
                ).push(c));
            }
            font.draw_char(x2, self.base.y + disp, c, out);
            x2 = x2 + (font.width as i64);
            proof {
                let turn = crate::trig::FULL_TURN as int;
                assert((ang + self.shift) % turn == (self.phase + (i + 1) * self.shift)
                    % turn) by {
                    assert(i * self.shift + self.shift == (i + 1) * self.shift)
                        by (nonlinear_arith);
                    vstd::arithmetic::div_mod::lemma_add_mod_noop(
                        self.phase + i * self.shift,
                        self.shift as int,
                        turn,
                    );
                    vstd::arithmetic::div_mod::lemma_small_mod(
                        self.shift as nat,
                        crate::trig::FULL_TURN as nat,
                    );
                    vstd::arithmetic::div_mod::lemma_add_mod_noop(
                        ang as int,
                        self.shift as int,
                        turn,
                    );
                    vstd::arithmetic::div_mod::lemma_small_mod(
                        ang as nat,
                        crate::trig::FULL_TURN as nat,
                    );
                }
                if ang + self.shift >= crate::trig::FULL_TURN {
                    vstd::arithmetic::div_mod::lemma_mod_sub_multiples_vanish(
                        ang + self.shift,
                        turn,
                    );
                    vstd::arithmetic::div_mod::lemma_small_mod(
                        (ang + self.shift - crate::trig::FULL_TURN) as nat,
                        crate::trig::FULL_TURN as nat,
                    );
                } else {
                    vstd::arithmetic::div_mod::lemma_small_mod(
                        (ang + self.shift) as nat,
                        crate::trig::FULL_TURN as nat,
                    );
                }
            }
            ang = ang + self.shift;
            if ang >= crate::trig::FULL_TURN {
                ang = ang - crate::trig::FULL_TURN;
            }
            i = i + 1;
        }
        proof {
            assert(self.base.text@.take(n as int) =~= self.base.text@);
        }
    }

    pub fn set_text(&mut self, new_text: String)
        requires
            old(self).wf(),
            match old(self).base.font {
                Some(f) => (f.width as int) * new_text@.len() <= u32::MAX,
                None => true,
            },
        ensures
            final(self).wf(),
            *final(self) == (WaveText { base: final(self).base, ..*old(self) }),
            final(self).base.text == new_text,
            final(self).base == (StaticText {
                width: final(self).base.width,
                text: new_text,
                ..old(self).base
            }),
    {
        self.base.set_text(new_text);
    }

    /// Toggle the animation.  Deactivating freezes the visual at the
    /// un-displaced base position, by design: drawing branches entirely on
    /// the flag.
    pub fn set_active(&mut self, active: bool)
        ensures
            *final(self) == (WaveText { active, ..*old(self) }),
    {
        self.active = active;
    }

    pub fn set_font(&mut self, font: &Font)
        requires
            old(self).wf(),
            font.wf(),
            (font.width as int) * old(self).base.text@.len() <= u32::MAX,
        ensures
            final(self).wf(),
            *final(self) == (WaveText { base: final(self).base, ..*old(self) }),
            final(self).base == (StaticText {
                width: final(self).base.width,
                height: font.height,
                font: Some(*font),
                ..old(self).base
            }),
            final(self).base.width as int == (font.width as int)
                * old(self).base.text@.len(),
    {
        self.base.set_font(font);
    }
}

/// The blits that draw `s` as a horizontal wave: the glyph at index `i`
/// keeps its vertical position and is displaced horizontally by the sine
/// of `d + i * shift` degrees.
pub open spec fn wave_h_blits(
    f: Font,
    amplitude: u32,
    x: int,
    y: int,
    d: int,
    shift: int,
    s: Seq<char>,
) -> Seq<Blit>
    decreases s.len(),
{
    if s.len() == 0 {
        Seq::empty()
    } else {
        let head = if glyph_in_range(s[0] as int) {
            seq![f.glyph_blit(x + wave_disp(amplitude, d), y, s[0] as int)]
        } else {
            Seq::empty()
        };
        head + wave_h_blits(f, amplitude, x + f.width, y, d + shift, shift, s.drop_first())
    }
}

/// Appending one character appends its (possibly empty) horizontal-wave
/// blit.
proof fn lemma_wave_h_blits_push(
    f: Font,
    amplitude: u32,
    x: int,
    y: int,
    d: int,
    shift: int,
    s: Seq<char>,
    c: char,
)
    ensures
        wave_h_blits(f, amplitude, x, y, d, shift, s.push(c)) == wave_h_blits(
            f,
            amplitude,
            x,
            y,
            d,
            shift,
            s,
        ) + (if glyph_in_range(c as int) {
            seq![
                f.glyph_blit(
                    x + s.len() * f.width + wave_disp(amplitude, d + s.len() * shift),
                    y,
                    c as int,
                ),
            ]
        } else {
            Seq::<Blit>::empty()
        }),
    decreases s.len(),
{
    reveal_with_fuel(wave_h_blits, 3);
    let tail = if glyph_in_range(c as int) {
        seq![
            f.glyph_blit(
                x + s.len() * f.width + wave_disp(amplitude, d + s.len() * shift),
                y,
                c as int,
            ),
        ]
    } else {
        Seq::<Blit>::empty()
    };
    if s.len() == 0 {
        assert(s.push(c)[0] == c);
        assert(s.push(c).drop_first() =~= Seq::<char>::empty());
        assert(wave_h_blits(f, amplitude, x, y, d, shift, s.push(c)) =~= wave_h_blits(
            f,
            amplitude,
            x,
            y,
            d,
            shift,
            s,
        ) + tail);
    } else {
        lemma_wave_h_blits_push(
            f,
            amplitude,
            x + f.width,
            y,
            d + shift,
            shift,
            s.drop_first(),
            c,
        );
        assert(s.push(c).drop_first() =~= s.drop_first().push(c));
        assert(s.push(c)[0] == s[0]);
        assert(x + f.width + s.drop_first().len() * f.width == x + s.len() * f.width
            && d + shift + s.drop_first().len() * shift == d + s.len() * shift)
            by (nonlinear_arith)
            requires
                s.len() >= 1,
                s.drop_first().len() == s.len() - 1,
        ;
        let head = if glyph_in_range(s[0] as int) {
            seq![f.glyph_blit(x + wave_disp(amplitude, d), y, s[0] as int)]
        } else {
            Seq::<Blit>::empty()
        };
        assert(wave_h_blits(f, amplitude, x, y, d, shift, s.push(c)) =~= head
            + wave_h_blits(f, amplitude, x + f.width, y, d + shift, shift, s.drop_first())
            + tail);
        assert(wave_h_blits(f, amplitude, x, y, d, shift, s) + tail =~= head
            + wave_h_blits(f, amplitude, x + f.width, y, d + shift, shift, s.drop_first())
            + tail);
    }
}

/// A wave text whose glyphs ride the sine wave horizontally instead of
/// vertically.
pub struct WaveHText {
    pub base: WaveText,
}

impl WaveHText {
    pub open spec fn wf(&self) -> bool {
        self.base.wf()
    }

    /// The blits this widget draws: a horizontal wave of glyphs while
    /// active, the plain label while inactive, nothing without a font.
    pub open spec fn blits(&self) -> Seq<Blit> {
        match self.base.base.font {
            Some(f) => if self.base.active {
                wave_h_blits(
                    f,
                    self.base.amplitude,
                    self.base.base.x as int,
                    self.base.base.y as int,
                    self.base.phase as int,
                    self.base.shift as int,
                    self.base.base.text@,
                )
            } else {
                text_blits(
                    f,
                    self.base.base.x as int,
                    self.base.base.y as int,
                    self.base.base.text@,
                )
            },
            None => Seq::empty(),
        }
    }

    pub fn new(
        x: i64,
        y: i64,
        amplitude: u32,
        speed: u32,
        shift: u32,
        text: String,
    ) -> (r: WaveHText)
        requires
            speed <= crate::trig::FULL_TURN,
            shift < crate::trig::FULL_TURN,
        ensures
            r.wf(),
            r.base.base.x == x,
            r.base.base.y == y,
            r.base.base.text == text,
            r.base.base.font is None,
            r.base.amplitude == amplitude,
            r.base.phase == 0,
            r.base.speed == speed,
            r.base.shift == shift,
            r.base.active,
    {
        WaveHText { base: WaveText::new(x, y, amplitude, speed, shift, text) }
    }

    pub fn update(&mut self)
        requires
            old(self).wf(),
        ensures
            final(self).wf(),
            final(self).base == (WaveText {
                phase: final(self).base.phase,
                ..old(self).base
            }),
            final(self).base.phase as int == if old(self).base.active {
                next_phase(old(self).base.phase as int, old(self).base.speed as int)
            } else {
                old(self).base.phase as int
            },
            0 <= final(self).base.phase < crate::trig::FULL_TURN,
    {
        self.base.update();
    }

    /// Append the blits of this widget: horizontally displaced glyphs
    /// while active, the plain label otherwise.
    pub fn draw(&self, out: &mut Vec<Blit>)
        requires
            self.wf(),
            i64::MIN + self.base.amplitude <= self.base.base.x,
            self.base.base.x + self.base.base.width <= i64::MAX - self.base.amplitude,
        ensures
            final(out)@ == old(out)@ + self.blits(),
    {
        let font = match &self.base.base.font {
            Some(f) => f,
            None => {
                assert(out@ =~= old(out)@ + self.blits());
                return ;
            },
        };
        if !self.base.active {
            self.base.base.draw(out);
            return ;
        }
        let n: usize = self.base.base.text.as_str().unicode_len();
        let mut x2: i64 = self.base.base.x;
        let mut ang: u32 = self.base.phase;
        let mut i: usize = 0;
        proof {
            assert(self.base.base.text@.take(0) =~= Seq::<char>::empty());
            assert(out@ =~= out@ + wave_h_blits(
                *font,
                self.base.amplitude,
                self.base.base.x as int,
                self.base.base.y as int,
                self.base.phase as int,
                self.base.shift as int,
                self.base.base.text@.take(0),
            ));
        }
        while i < n
            invariant
                self.wf(),
                self.base.base.font == Some(*font),
                self.base.active,
                n == self.base.base.text@.len(),
                0 <= i <= n,
                x2 == self.base.base.x + i * font.width,
                i64::MIN + self.base.amplitude <= self.base.base.x,
                self.base.base.x + self.base.base.width <= i64::MAX
                    - self.base.amplitude,
                self.base.base.width as int == (font.width as int) * n,
                ang < crate::trig::FULL_TURN,
                ang as int == (self.base.phase + i * self.base.shift) % (
                crate::trig::FULL_TURN as int),
                out@ == old(out)@ + wave_h_blits(
                    *font,
                    self.base.amplitude,
                    self.base.base.x as int,
                    self.base.base.y as int,
                    self.base.phase as int,
                    self.base.shift as int,
                    self.base.base.text@.take(i as int),
                ),
            decreases n - i,
        {
            let c = self.base.base.text.as_str().get_char(i);
            let disp: i64 = wave_displacement(self.base.amplitude, ang);
            proof {
                assert((i + 1) * font.width <= n * font.width && i * font.width >= 0
                    && (i + 1) * font.width == i * font.width + font.width)
                    by (nonlinear_arith)
                    requires
                        0 <= i < n,
                        font.width >= 1,
                ;
                assert(x2 + font.width <= i64::MAX - self.base.amplitude)
                    by (nonlinear_arith)
                    requires
                        x2 == self.base.base.x + i * font.width,
                        0 <= i < n,
                        self.base.base.width as int == (font.width as int) * n,
                        self.base.base.x + self.base.base.width <= i64::MAX
                            - self.base.amplitude,
                        font.width >= 1,
                ;
                vstd::arithmetic::div_mod::lemma_small_mod(
                    ang as nat,
                    crate::trig::FULL_TURN as nat,
                );
                assert(disp == wave_disp(
                    self.base.amplitude,
                    self.base.phase + i * self.base.shift,
                ));
                lemma_wave_h_blits_push(
                    *font,
                    self.base.amplitude,
                    self.base.base.x as int,
                    self.base.base.y as int,
                    self.base.phase as int,
                    self.base.shift as int,
                    self.base.base.text@.take(i as int),
                    c,
                );
                assert(self.base.base.text@.take(i + 1) =~= self.base.base.text@.take(
                    i as int,
                ).push(c));
            }
            font.draw_char(x2 + disp, self.base.base.y, c, out);
            x2 = x2 + (font.width as i64);
            proof {
                let turn = crate::trig::FULL_TURN as int;
                assert((ang + self.base.shift) % turn == (self.base.phase + (i + 1)
                    * self.base.shift) % turn) by {
                    assert(i * self.base.shift + self.base.shift == (i + 1)
                        * self.base.shift) by (nonlinear_arith);
                    vstd::arithmetic::div_mod::lemma_add_mod_noop(
                        self.base.phase + i * self.base.shift,
                        self.base.shift as int,
                        turn,
                    );
                    vstd::arithmetic::div_mod::lemma_small_mod(
                        self.base.shift as nat,
                        crate::trig::FULL_TURN as nat,
                    );
                    vstd::arithmetic::div_mod::lemma_add_mod_noop(
                        ang as int,
                        self.base.shift as int,
                        turn,
                    );
                    vstd::arithmetic::div_mod::lemma_small_mod(
                        ang as nat,
                        crate::trig::FULL_TURN as nat,
                    );
                }
                if ang + self.base.shift >= crate::trig::FULL_TURN {
                    vstd::arithmetic::div_mod::lemma_mod_sub_multiples_vanish(
                        ang + self.base.shift,
                        turn,
                    );
                    vstd::arithmetic::div_mod::lemma_small_mod(
                        (ang + self.base.shift - crate::trig::FULL_TURN) as nat,
                        crate::trig::FULL_TURN as nat,
                    );
                } else {
                    vstd::arithmetic::div_mod::lemma_small_mod(
                        (ang + self.base.shift) as nat,
                        crate::trig::FULL_TURN as nat,
                    );
                }
            }
            ang = ang + self.base.shift;
            if ang >= crate::trig::FULL_TURN {
                ang = ang - crate::trig::FULL_TURN;
            }
            i = i + 1;
        }
        proof {
            assert(self.base.base.text@.take(n as int) =~= self.base.base.text@);
        }
    }

    pub fn set_text(&mut self, new_text: String)
        requires
            old(self).wf(),
            match old(self).base.base.font {
                Some(f) => (f.width as int) * new_text@.len() <= u32::MAX,
                None => true,
            },
        ensures
            final(self).wf(),
            final(self).base == (WaveText {
                base: final(self).base.base,
                ..old(self).base
            }),
            final(self).base.base == (StaticText {
                width: final(self).base.base.width,
                text: new_text,
                ..old(self).base.base
            }),
    {
        self.base.set_text(new_text);
    }

    pub fn set_active(&mut self, active: bool)
        ensures
            final(self).base == (WaveText { active, ..old(self).base }),
    {
        self.base.set_active(active);
    }

    pub fn set_font(&mut self, font: &Font)
        requires
            old(self).wf(),
            font.wf(),
            (font.width as int) * old(self).base.base.text@.len() <= u32::MAX,
        ensures
            final(self).wf(),
            final(self).base == (WaveText {
                base: final(self).base.base,
                ..old(self).base
            }),
            final(self).base.base == (StaticText {
                width: final(self).base.base.width,
                height: font.height,
                font: Some(*font),
                ..old(self).base.base
            }),
            final(self).base.base.width as int == (font.width as int)
                * old(self).base.base.text@.len(),
    {
        self.base.set_font(font);
    }
}

/// Marker breathing period: from a fresh activation (offset zero),
/// `max_offset` consecutive active updates return the offset to zero,
/// each update stepping it as [`SelectableText::update`] ensures.
pub proof fn lemma_breathing_full_cycle(max_offset: nat)
    requires
        max_offset >= 1,
    ensures
        crate::cycle::cyclic_iter(0, max_offset, max_offset) == 0,
{
    crate::cycle::lemma_cyclic_full_cycle(0, max_offset);
}

/// A text label flanked by two marker glyphs that breathe outward and
/// inward while the label is the active menu selection.
///
/// The markers rest `max_offset` pixels outside the label (left marker to
/// the left of the text, right marker to its right) and are drawn pulled
/// back towards their resting position by the current `offset`, which
/// advances one pixel per update tick and wraps to zero at `max_offset`:
/// a sawtooth breathing animation.
pub struct SelectableText {
    pub base: StaticText,
    pub left_marker: StaticText,
    pub right_marker: StaticText,
    pub active: bool,
    pub offset: u32,
    pub max_offset: u32,
}

impl SelectableText {
    /// Well formed: the three labels are well formed, the markers carry
    /// the fixed arrow texts, share the base's font and line, and the
    /// breathing offset stays below its bound.
    pub open spec fn wf(&self) -> bool {
        &&& self.base.wf()
        &&& self.left_marker.wf()
        &&& self.right_marker.wf()
        &&& self.offset < self.max_offset
        &&& self.left_marker.text@ == "->"@
        &&& self.right_marker.text@ == "<-"@
        &&& self.left_marker.font == self.base.font
        &&& self.right_marker.font == self.base.font
        &&& self.left_marker.y == self.base.y
        &&& self.right_marker.y == self.base.y
    }

    /// The markers rest just outside the label, the gap widened by
    /// `max_offset` on either side.
    pub open spec fn markers_synced(&self) -> bool {
        &&& self.left_marker.x as int == self.base.x - self.left_marker.width
            - self.max_offset
        &&& self.right_marker.x as int == self.base.x + self.base.width
            + self.max_offset
    }

    /// The blits this widget draws: the label itself, and while active
    /// both markers displaced towards the label by the current offset.
    pub open spec fn blits(&self) -> Seq<Blit> {
        self.base.blits_at(self.base.x as int, self.base.y as int) + if self.active {
            self.left_marker.blits_at(
                self.left_marker.x - self.offset,
                self.left_marker.y as int,
            ) + self.right_marker.blits_at(
                self.right_marker.x + self.offset,
                self.right_marker.y as int,
            )
        } else {
            Seq::empty()
        }
    }

    pub fn new(x: i64, y: i64, max_offset: u32, text: String) -> (r: SelectableText)
        requires
            max_offset >= 1,
        ensures
            r.wf(),
            r.base.x == x,
            r.base.y == y,
            r.base.text == text,
            r.base.font is None,
            r.left_marker.font is None,
            r.right_marker.font is None,
            r.left_marker.x == 0,
            r.right_marker.x == 0,
            r.left_marker.y == y,
            r.right_marker.y == y,
            r.base.width == 0,
            r.left_marker.width == 0,
            r.right_marker.width == 0,
            !r.active,
            r.offset == 0,
            r.max_offset == max_offset,
    {
        let base = StaticText::new(x, y, text);
        let left_marker = StaticText::new(0, y, String::from_str("->"));
        let right_marker = StaticText::new(0, y, String::from_str("<-"));
        SelectableText {
            base,
            left_marker,
            right_marker,
            active: false,
            offset: 0,
            max_offset,
        }
    }

    /// Horizontally center the label on its current `x` and re-derive the
    /// marker resting positions.
    pub fn center(&mut self)
        requires
            old(self).wf(),
            old(self).base.x - old(self).base.width as int / 2 >= i64::MIN,
            ({
                let nx = if old(self).base.font is Some {
                    old(self).base.x - old(self).base.width as int / 2
                } else {
                    old(self).base.x as int
                };
                nx - old(self).left_marker.width - old(self).max_offset >= i64::MIN
                    && nx + old(self).base.width + old(self).max_offset <= i64::MAX
            }),
        ensures
            final(self).wf(),
            final(self).markers_synced(),
            *final(self) == (SelectableText {
                base: final(self).base,
                left_marker: final(self).left_marker,
                right_marker: final(self).right_marker,
                ..*old(self)
            }),
            final(self).base == (StaticText {
                x: if old(self).base.font is Some {
                    (old(self).base.x - old(self).base.width as int / 2) as i64
                } else {
                    old(self).base.x
                },
                ..old(self).base
            }),
            final(self).left_marker == (StaticText {
                x: final(self).left_marker.x,
                ..old(self).left_marker
            }),
            final(self).right_marker == (StaticText {
                x: final(self).right_marker.x,
                ..old(self).right_marker
            }),
    {
        self.base.center();
        self.update_marker_pos();
    }

    /// Append the blits of this widget: the label, and while active the
    /// two breathing markers.
    pub fn draw(&self, out: &mut Vec<Blit>)
        requires
            self.wf(),
            self.base.x <= i64::MAX - self.base.width,
            self.active ==> i64::MIN <= self.left_marker.x - self.offset,
            self.active ==> self.left_marker.x - self.offset <= i64::MAX
                - self.left_marker.width,
            self.active ==> i64::MIN <= self.right_marker.x + self.offset,
            self.active ==> self.right_marker.x + self.offset <= i64::MAX
                - self.right_marker.width,
        ensures
            final(out)@ == old(out)@ + self.blits(),
    {
        self.base.draw(out);
        if self.active {
            self.left_marker.draw_offset(-(self.offset as i64), 0, out);
            self.right_marker.draw_offset(self.offset as i64, 0, out);
        }
        proof {
            assert(out@ =~= old(out)@ + self.blits());
        }
    }

    /// Advance the breathing animation by one tick while active: the
    /// offset grows by one pixel and wraps to zero at `max_offset`.  While
    /// inactive the offset is frozen, not reset, so reactivating resumes
    /// the cycle where it stopped.
    pub fn update(&mut self)
        requires
            old(self).wf(),
        ensures
            final(self).wf(),
            *final(self) == (SelectableText {
                offset: final(self).offset,
                ..*old(self)
            }),
            old(self).active ==> final(self).offset == crate::cycle::cyclic_next(
                old(self).offset as nat,
                old(self).max_offset as nat,
            ),
            !old(self).active ==> final(self).offset == old(self).offset,
    {
        if self.active {
            self.offset = self.offset + 1;
            if self.offset >= self.max_offset {
                self.offset = 0;
            }
        }
    }

    /// Replace the label text, recompute its bounding box and re-derive
    /// the marker resting positions, which depend on the label width.
    pub fn set_text(&mut self, new_text: String)
        requires
            old(self).wf(),
            match old(self).base.font {
                Some(f) => (f.width as int) * new_text@.len() <= u32::MAX,
                None => true,
            },
            ({
                let nw: int = match old(self).base.font {
                    Some(f) => (f.width as int) * new_text@.len(),
                    None => 0,
                };
                old(self).base.x - old(self).left_marker.width - old(self).max_offset
                    >= i64::MIN && old(self).base.x + nw + old(self).max_offset
                    <= i64::MAX
            }),
        ensures
            final(self).wf(),
            final(self).markers_synced(),
            *final(self) == (SelectableText {
                base: final(self).base,
                left_marker: final(self).left_marker,
                right_marker: final(self).right_marker,
                ..*old(self)
            }),
            final(self).base == (StaticText {
                width: final(self).base.width,
                text: new_text,
                ..old(self).base
            }),
            final(self).left_marker == (StaticText {
                x: final(self).left_marker.x,
                ..old(self).left_marker
            }),
            final(self).right_marker == (StaticText {
                x: final(self).right_marker.x,
                ..old(self).right_marker
            }),
    {
        self.base.set_text(new_text);
        self.update_marker_pos();
    }

    /// Toggle marker visibility and animation.  The offset is not reset:
    /// see [`SelectableText::update`].
    pub fn set_active(&mut self, active: bool)
        ensures
            *final(self) == (SelectableText { active, ..*old(self) }),
    {
        self.active = active;
    }

    /// Attach the font to the label and both markers, recompute all three
    /// bounding boxes and re-derive the marker resting positions.
    pub fn set_font(&mut self, font: &Font)
        requires
            old(self).wf(),
            font.wf(),
            (font.width as int) * old(self).base.text@.len() <= u32::MAX,
            (font.width as int) * 2 <= u32::MAX,
            old(self).base.x - (font.width as int) * 2 - old(self).max_offset
                >= i64::MIN,
            old(self).base.x + (font.width as int) * old(self).base.text@.len()
                + old(self).max_offset <= i64::MAX,
        ensures
            final(self).wf(),
            final(self).markers_synced(),
            *final(self) == (SelectableText {
                base: final(self).base,
                left_marker: final(self).left_marker,
                right_marker: final(self).right_marker,
                ..*old(self)
            }),
            final(self).base == (StaticText {
                width: final(self).base.width,
                height: font.height,
                font: Some(*font),
                ..old(self).base
            }),
            final(self).base.width as int == (font.width as int)
                * old(self).base.text@.len(),
            final(self).left_marker.font == Some(*font),
            final(self).right_marker.font == Some(*font),
            final(self).left_marker.text == old(self).left_marker.text,
            final(self).right_marker.text == old(self).right_marker.text,
    {
        proof {
            reveal_strlit("->");
            reveal_strlit("<-");
        }
        self.base.set_font(font);
        self.left_marker.set_font(font);
        self.right_marker.set_font(font);
        self.update_marker_pos();
    }

    /// The markers rest just outside the label: the gap on either side is
    /// widened by `max_offset`, so the breathing animation orbits outward
    /// and snaps back.
    fn update_marker_pos(&mut self)
        requires
            old(self).base.x - old(self).left_marker.width - old(self).max_offset
                >= i64::MIN,
            old(self).base.x + old(self).base.width + old(self).max_offset
                <= i64::MAX,
        ensures
            final(self).markers_synced(),
            *final(self) == (SelectableText {
                left_marker: final(self).left_marker,
                right_marker: final(self).right_marker,
                ..*old(self)
            }),
            final(self).left_marker == (StaticText {
                x: final(self).left_marker.x,
                ..old(self).left_marker
            }),
            final(self).right_marker == (StaticText {
                x: final(self).right_marker.x,
                ..old(self).right_marker
            }),
    {
        self.left_marker.x = self.base.x - (self.left_marker.width as i64) - (
        self.max_offset as i64);
        self.right_marker.x = self.base.x + (self.base.width as i64) + (
        self.max_offset as i64);
    }

    /// Move the label to `x` and re-derive the marker resting positions.
    pub fn set_x(&mut self, x: i64)
        requires
            old(self).wf(),
            x - old(self).left_marker.width - old(self).max_offset >= i64::MIN,
            x + old(self).base.width + old(self).max_offset <= i64::MAX,
        ensures
            final(self).wf(),
            final(self).markers_synced(),
            *final(self) == (SelectableText {
                base: final(self).base,
                left_marker: final(self).left_marker,
                right_marker: final(self).right_marker,
                ..*old(self)
            }),
            final(self).base == (StaticText { x, ..old(self).base }),
            final(self).left_marker == (StaticText {
                x: final(self).left_marker.x,
                ..old(self).left_marker
            }),
            final(self).right_marker == (StaticText {
                x: final(self).right_marker.x,
                ..old(self).right_marker
            }),
    {
        self.base.set_x(x);
        self.update_marker_pos();
    }
}

} // verus!
