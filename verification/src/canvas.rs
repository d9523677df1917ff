//! The pixel canvas and its serialization to the plain-text PPM (P3)
//! image format: a three-line header, then one line of space-separated
//! channel values per canvas row, wrapped at 70 characters.

use vstd::prelude::*;

verus! {

use vstd::string::StrSliceExecFns;
use vstd::string::StringExecFns;
use crate::color::Color;
use crate::fixed::rtn;

/// The maximum length of an output line in the serialized image.
pub const MAX_LINE_LEN: usize = 70;

/// A color quantized to one byte per channel, as written to the image.
#[derive(Clone, Copy, Debug, PartialEq, Eq, Structural)]
pub struct ColorU8 {
    pub red: u8,
    pub green: u8,
    pub blue: u8,
}

/// Failure of a bounds-checked canvas access, reporting the offending
/// coordinates and the canvas bounds.
#[derive(Clone, Copy, Debug, PartialEq, Eq, Structural)]
pub enum CanvasError {
    OutOfBounds { x: usize, y: usize, width: usize, height: usize },
}

/// A scalar clamped to the intensity range [0, 1].
pub open spec fn clamp01(c: int) -> int {
    if c <= 0 {
        0
    } else if c >= crate::UNIT {
        crate::UNIT as int
    } else {
        c
    }
}

/// The byte a channel scalar serializes to: the clamped intensity scaled
/// to 255 and rounded to the nearest integer.
pub open spec fn channel_spec(c: int) -> int {
    rtn(255 * clamp01(c), crate::UNIT as int)
}

/// Clamps a channel scalar and scales it to a byte.
fn channel_byte(c: i64) -> (r: u8)
    ensures
        r as int == channel_spec(c as int),
{
    let clamped: i64 = if c <= 0 {
        0
    } else if c >= crate::UNIT {
        crate::UNIT
    } else {
        c
    };
    let n: i128 = 255i128 * clamped as i128;
    let u: i128 = crate::UNIT as i128;
    let q: i128 = n / u;
    let rem: i128 = n % u;
    proof {
        lemma_channel_round(clamped as int, q as int, rem as int);
    }
    if rem >= u - rem {
        (q + 1) as u8
    } else {
        q as u8
    }
}

/// Rounding a clamped channel gives the floor of the scaled value, plus
/// one when the remainder reaches half the unit; the result is a byte.
proof fn lemma_channel_round(c: int, q: int, rem: int)
    requires
        0 <= c <= crate::UNIT,
        q == 255 * c / (crate::UNIT as int),
        rem == 255 * c % (crate::UNIT as int),
    ensures
        rtn(255 * c, crate::UNIT as int) == q + if 2 * rem >= crate::UNIT {
            1int
        } else {
            0int
        },
        0 <= rtn(255 * c, crate::UNIT as int) <= 255,
{
    let u = crate::UNIT as int;
    assert(0 <= 255 * c <= 255 * u) by (nonlinear_arith)
        requires
            0 <= c <= u,
        ;
    crate::fixed::lemma_rtn_decompose(255 * c, u);
    vstd::arithmetic::div_mod::lemma_fundamental_div_mod(255 * c, u);
    assert(q <= 255) by (nonlinear_arith)
        requires
            255 * c == u * q + rem,
            0 <= rem < u,
            255 * c <= 255 * u,
            u > 0,
    ;
    if q == 255 {
        assert(rem == 0) by (nonlinear_arith)
            requires
                255 * c == u * 255 + rem,
                0 <= rem,
                255 * c <= 255 * u,
        ;
    }
    assert(q >= 0) by (nonlinear_arith)
        requires
            255 * c == u * q + rem,
            0 <= rem < u,
            255 * c >= 0,
            u > 0,
    ;
}

/// The decimal digits of `n`, most significant first.
pub open spec fn dec_seq(n: nat) -> Seq<char>
    decreases n,
{
    if n < 10 {
        seq![digit_char(n as int)]
    } else {
        dec_seq(n / 10) + seq![digit_char((n % 10) as int)]
    }
}

/// The character of a single decimal digit.
pub open spec fn digit_char(d: int) -> char {
    if d == 0 {
        '0'
    } else if d == 1 {
        '1'
    } else if d == 2 {
        '2'
    } else if d == 3 {
        '3'
    } else if d == 4 {
        '4'
    } else if d == 5 {
        '5'
    } else if d == 6 {
        '6'
    } else if d == 7 {
        '7'
    } else if d == 8 {
        '8'
    } else {
        '9'
    }
}

/// The one-character string of a single decimal digit.
fn digit_str(d: usize) -> (r: &'static str)
    requires
        d < 10,
    ensures
        r@ == seq![digit_char(d as int)],
{
    proof {
        reveal_strlit("0");
        reveal_strlit("1");
        reveal_strlit("2");
        reveal_strlit("3");
        reveal_strlit("4");
        reveal_strlit("5");
        reveal_strlit("6");
        reveal_strlit("7");
        reveal_strlit("8");
        reveal_strlit("9");
    }
    let r: &'static str = if d == 0 {
        "0"
    } else if d == 1 {
        "1"
    } else if d == 2 {
        "2"
    } else if d == 3 {
        "3"
    } else if d == 4 {
        "4"
    } else if d == 5 {
        "5"
    } else if d == 6 {
        "6"
    } else if d == 7 {
        "7"
    } else if d == 8 {
        "8"
    } else {
        "9"
    };
    proof {
        assert(r@ =~= seq![digit_char(d as int)]);
    }
    r
}

/// Writes `n` in decimal.
pub fn usize_to_string(n: usize) -> (r: String)
    ensures
        r@ == dec_seq(n as nat),
    decreases n,
{
    if n < 10 {
        String::from_str(digit_str(n))
    } else {
        let mut prefix: String = usize_to_string(n / 10);
        prefix.append(digit_str(n % 10));
        prefix
    }
}

impl ColorU8 {
    /// Creates the byte color with the given channels.
    pub fn new(red: u8, green: u8, blue: u8) -> (r: ColorU8)
        ensures
            r == (ColorU8 { red, green, blue }),
    {
        ColorU8 { red, green, blue }
    }

    /// Quantizes a scalar color: each channel is clamped to [0, 1] and
    /// scaled to a byte.
    pub fn from_color(value: &Color) -> (r: ColorU8)
        ensures
            r.red as int == channel_spec(value.red as int),
            r.green as int == channel_spec(value.green as int),
            r.blue as int == channel_spec(value.blue as int),
    {
        ColorU8 {
            red: channel_byte(value.red),
            green: channel_byte(value.green),
            blue: channel_byte(value.blue),
        }
    }

    /// The channels as text: `"R G B"`.
    pub open spec fn triplet_spec(self) -> Seq<char> {
        dec_seq(self.red as nat) + seq![' '] + dec_seq(self.green as nat) + seq![' ']
            + dec_seq(self.blue as nat)
    }

    /// Writes the channels as the space-separated triplet `"R G B"`.
    pub fn to_triplet_string(&self) -> (r: String)
        ensures
            r@ == self.triplet_spec(),
    {
        proof {
            reveal_strlit(" ");
        }
        let mut s: String = usize_to_string(self.red as usize);
        s.append(" ");
        let g: String = usize_to_string(self.green as usize);
        s.append(g.as_str());
        s.append(" ");
        let b: String = usize_to_string(self.blue as usize);
        s.append(b.as_str());
        proof {
            assert(s@ =~= self.triplet_spec());
        }
        s
    }
}

/// The position of the space the current line breaks at: the largest
/// index in `(start, j]` holding a space, or `start` when there is none.
pub open spec fn find_space(s: Seq<char>, start: int, j: int) -> int
    decreases j - start,
{
    if j <= start {
        start
    } else if s[j] == ' ' {
        j
    } else {
        find_space(s, start, j - 1)
    }
}

/// The greedy wrapping of `s` from position `start` on: each line takes
/// at most `max` characters, breaking at the last space that fits; a
/// leading block of more than `max` characters without a space ends the
/// output.
pub open spec fn wrap_from(s: Seq<char>, max: int, start: int) -> Seq<char>
    recommends
        0 <= start <= s.len(),
        max >= 0,
    decreases s.len() - start,
{
    if start + max >= s.len() {
        s.subrange(start, s.len() as int)
    } else {
        let b = find_space(s, start, start + max);
        if b <= start {
            Seq::empty()
        } else if b >= s.len() {
            Seq::empty()  // unreachable when start + max < s.len()
        } else {
            s.subrange(start, b) + seq!['\n'] + wrap_from(s, max, b + 1)
        }
    }
}

/// A break position lies between `start` and the scanned bound, and
/// holds a space unless it is `start` itself.
proof fn lemma_find_space_range(s: Seq<char>, start: int, j: int)
    requires
        start <= j,
    ensures
        start <= find_space(s, start, j) <= j,
        find_space(s, start, j) > start ==> s[find_space(s, start, j)] == ' ',
    decreases j - start,
{
    if j > start && s[j] != ' ' {
        lemma_find_space_range(s, start, j - 1);
    }
}

/// Wraps `s` greedily: lines of at most `max_len` characters, broken at
/// the last space that fits.  A line's worth of characters without any
/// space ends the output, as does the end of the input.
pub fn wrap_string(s: &str, max_len: usize) -> (r: String)
    ensures
        r@ == wrap_from(s@, max_len as int, 0),
{
    let len: usize = s.unicode_len();
    let mut result: String = String::new();
    let mut line_start: usize = 0;
    loop
        invariant
            len == s@.len(),
            0 <= line_start <= len,
            wrap_from(s@, max_len as int, 0) == result@ + wrap_from(
                s@,
                max_len as int,
                line_start as int,
            ),
        decreases len - line_start,
    {
        if max_len >= len - line_start {
            let rest: &str = s.substring_char(line_start, len);
            result.append(rest);
            proof {
                assert(result@ =~= wrap_from(s@, max_len as int, 0));
            }
            return result;
        }
        let line_cap: usize = line_start + max_len;
        let mut line_end: usize = line_cap;
        while line_end > line_start && s.get_char(line_end) != ' '
            invariant
                len == s@.len(),
                line_start <= line_end <= line_cap < len,
                find_space(s@, line_start as int, line_cap as int) == find_space(
                    s@,
                    line_start as int,
                    line_end as int,
                ),
            decreases line_end,
        {
            line_end = line_end - 1;
        }
        proof {
            lemma_find_space_range(s@, line_start as int, line_end as int);
        }
        if line_end == line_start {
            proof {
                assert(find_space(s@, line_start as int, line_start as int) == line_start as int);
                assert(result@ =~= wrap_from(s@, max_len as int, 0));
            }
            return result;
        }
        let chunk: &str = s.substring_char(line_start, line_end);
        result.append(chunk);
        result.append("\n");
        proof {
            reveal_strlit("\n");
            assert(find_space(s@, line_start as int, line_end as int) == line_end as int);
            assert(wrap_from(s@, max_len as int, line_start as int) == s@.subrange(
                line_start as int,
                line_end as int,
            ) + seq!['\n'] + wrap_from(s@, max_len as int, line_end as int + 1));
            assert(wrap_from(s@, max_len as int, 0) =~= result@ + wrap_from(
                s@,
                max_len as int,
                line_end as int + 1,
            ));
        }
        line_start = line_end + 1;
    }
}

/// A 2D grid of colors with bounds-checked pixel access, serializable to
/// the PPM text format.  Pixels are stored row-major.
pub struct Canvas {
    pub width: usize,
    pub height: usize,
    pub pixels: Vec<Color>,
}

impl Canvas {
    /// The pixel buffer covers the grid exactly.
    pub open spec fn wf(self) -> bool {
        self.pixels@.len() == self.width * self.height
    }

    /// The pixel at `(x, y)`.
    pub open spec fn pixel(self, x: int, y: int) -> Color {
        self.pixels@[y * self.width + x]
    }

    /// Creates a canvas with every pixel black.
    pub fn new(width: usize, height: usize) -> (r: Canvas)
        requires
            width * height <= usize::MAX,
        ensures
            r.width == width,
            r.height == height,
            r.wf(),
            forall|i: int|
                0 <= i < width * height ==> r.pixels@[i] == (Color {
                    red: 0i64,
                    green: 0i64,
                    blue: 0i64,
                }),
    {
        proof {
            vstd::arithmetic::mul::lemma_mul_nonnegative(width as int, height as int);
        }
        let n: usize = width * height;
        let pixels: Vec<Color> = vec![Color { red: 0, green: 0, blue: 0 }; n];
        Canvas { width, height, pixels }
    }

    /// The number of pixels.
    pub fn size(&self) -> (r: usize)
        requires
            self.wf(),
        ensures
            r == self.width * self.height,
    {
        let _buffer_len: usize = self.pixels.len();
        self.width * self.height
    }

    /// The color at `(x, y)` (0-indexed), or `None` when either
    /// coordinate is out of range.
    pub fn get_color_at(&self, x: usize, y: usize) -> (r: Option<Color>)
        requires
            self.wf(),
        ensures
            r == if x < self.width && y < self.height {
                Some(self.pixel(x as int, y as int))
            } else {
                Option::<Color>::None
            },
    {
        if x >= self.width || y >= self.height {
            return None;
        }
        let _buffer_len: usize = self.pixels.len();
        proof {
            lemma_row_major_index(self.width as int, self.height as int, x as int, y as int);
        }
        Some(self.pixels[y * self.width + x])
    }

    /// Overwrites the pixel at `(x, y)` (0-indexed), or reports the
    /// coordinates and bounds when either coordinate is out of range.
    pub fn set_pixel_at(&mut self, x: usize, y: usize, color: &Color) -> (r: Result<
        (),
        CanvasError,
    >)
        requires
            old(self).wf(),
        ensures
            final(self).wf(),
            final(self).width == old(self).width,
            final(self).height == old(self).height,
            r is Ok <==> x < old(self).width && y < old(self).height,
            x < old(self).width && y < old(self).height ==> final(self).pixels@ == old(
                self,
            ).pixels@.update(y * old(self).width + x, *color),
            !(x < old(self).width && y < old(self).height) ==> {
                &&& final(self).pixels@ == old(self).pixels@
                &&& r == Result::<(), CanvasError>::Err(
                    CanvasError::OutOfBounds {
                        x,
                        y,
                        width: old(self).width,
                        height: old(self).height,
                    },
                )
            },
    {
        if x >= self.width || y >= self.height {
            return Err(
                CanvasError::OutOfBounds { x, y, width: self.width, height: self.height },
            );
        }
        let _buffer_len: usize = self.pixels.len();
        proof {
            lemma_row_major_index(self.width as int, self.height as int, x as int, y as int);
        }
        let idx: usize = y * self.width + x;
        self.pixels[idx] = *color;
        Ok(())
    }

    /// The text of row `y`: the triplets of its first `n` pixels,
    /// space-separated.
    pub open spec fn row_prefix_spec(self, y: int, n: int) -> Seq<char>
        decreases n,
    {
        if n <= 0 {
            Seq::empty()
        } else if n == 1 {
            self.pixel_triplet(0, y)
        } else {
            self.row_prefix_spec(y, n - 1) + seq![' '] + self.pixel_triplet(n - 1, y)
        }
    }

    /// The serialized triplet of the pixel at `(x, y)`.
    pub open spec fn pixel_triplet(self, x: int, y: int) -> Seq<char> {
        let c = self.pixel(x, y);
        (ColorU8 {
            red: channel_spec(c.red as int) as u8,
            green: channel_spec(c.green as int) as u8,
            blue: channel_spec(c.blue as int) as u8,
        }).triplet_spec()
    }

    /// The first `m` serialized rows, each wrapped and newline-ended.
    pub open spec fn rows_spec(self, m: int) -> Seq<char>
        decreases m,
    {
        if m <= 0 {
            Seq::empty()
        } else {
            self.rows_spec(m - 1) + wrap_from(
                self.row_prefix_spec(m - 1, self.width as int),
                MAX_LINE_LEN as int,
                0,
            ) + seq!['\n']
        }
    }

    /// The three header lines: the magic `P3`, the dimensions, and the
    /// maximum channel value 255.
    pub open spec fn header_spec(self) -> Seq<char> {
        seq!['P', '3', '\n'] + dec_seq(self.width as nat) + seq![' '] + dec_seq(
            self.height as nat,
        ) + seq!['\n', '2', '5', '5', '\n']
    }

    /// The full serialized image: header, then every row.
    pub open spec fn ppm_spec(self) -> Seq<char> {
        self.header_spec() + self.rows_spec(self.height as int)
    }

    /// Serializes the canvas to the PPM text format: the three header
    /// lines, then one line per row of space-separated channel triplets,
    /// wrapped at `MAX_LINE_LEN` characters, ending with a newline.
    pub fn to_ppm(&self) -> (r: String)
        requires
            self.wf(),
        ensures
            r@ == self.ppm_spec(),
    {
        proof {
            reveal_strlit("P3\n");
            reveal_strlit(" ");
            reveal_strlit("\n255\n");
            reveal_strlit("\n");
        }
        let mut ppm: String = String::from_str("P3\n");
        let w: String = usize_to_string(self.width);
        ppm.append(w.as_str());
        ppm.append(" ");
        let h: String = usize_to_string(self.height);
        ppm.append(h.as_str());
        ppm.append("\n255\n");
        proof {
            assert(ppm@ =~= self.header_spec());
        }
        let mut y: usize = 0;
        while y < self.height
            invariant
                self.wf(),
                0 <= y <= self.height,
                ppm@ == self.header_spec() + self.rows_spec(y as int),
            decreases self.height - y,
        {
            let line: String = self.row_string(y);
            let wrapped: String = wrap_string(line.as_str(), MAX_LINE_LEN);
            ppm.append(wrapped.as_str());
            ppm.append("\n");
            proof {
                reveal_strlit("\n");
                assert(ppm@ =~= self.header_spec() + self.rows_spec(y as int + 1));
            }
            y = y + 1;
        }
        ppm
    }

    /// Builds the unwrapped text of row `y`: the triplets of all pixels
    /// of the row, space-separated.
    fn row_string(&self, y: usize) -> (r: String)
        requires
            self.wf(),
            y < self.height,
        ensures
            r@ == self.row_prefix_spec(y as int, self.width as int),
    {
        let mut line: String = String::new();
        let mut x: usize = 0;
        while x < self.width
            invariant
                self.wf(),
                y < self.height,
                0 <= x <= self.width,
                line@ == self.row_prefix_spec(y as int, x as int),
            decreases self.width - x,
        {
            proof {
                reveal_strlit(" ");
            }
            if x > 0 {
                line.append(" ");
            }
            let color: Option<Color> = self.get_color_at(x, y);
            let c: Color = match color {
                Some(c) => c,
                None => Color { red: 0, green: 0, blue: 0 },
            };
            let trip: String = ColorU8::from_color(&c).to_triplet_string();
            line.append(trip.as_str());
            proof {
                assert(line@ =~= self.row_prefix_spec(y as int, x as int + 1));
            }
            x = x + 1;
        }
        line
    }
}

/// A row-major index lies inside the pixel buffer.
proof fn lemma_row_major_index(w: int, h: int, x: int, y: int)
    by (nonlinear_arith)
    requires
        0 <= x < w,
        0 <= y < h,
    ensures
        0 <= y * w + x < w * h,
{
}

} // verus!
