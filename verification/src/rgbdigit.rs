//! Seven-segment RGB digit engine: the segment encoder, the digit-cell
//! buffer, and numeric views that render formatted values into the buffer.
//!
//! Digit layout (segment index = bit index of the mask):
//!
//! ```text
//!  0000
//! 5    1
//! 5    1
//!  6666
//! 4    2
//! 4    2
//!  3333   7 (decimal point)
//! ```

use vstd::prelude::*;

verus! {

/// Canonical seven-segment patterns for the digits 0 to 9.
pub const ZERO: u8 = 0b00111111;
pub const ONE: u8 = 0b00000110;
pub const TWO: u8 = 0b01011011;
pub const THREE: u8 = 0b01001111;
pub const FOUR: u8 = 0b01100110;
pub const FIVE: u8 = 0b01101101;
pub const SIX: u8 = 0b01111101;
pub const SEVEN: u8 = 0b00000111;
pub const EIGHT: u8 = 0b01111111;
pub const NINE: u8 = 0b01101111;

/// The minus sign lights only the middle segment.
pub const MINUS: u8 = 0b01000000;

/// The decimal-point segment is the reserved eighth bit.
pub const DECIMAL_POINT: u8 = 0b10000000;

/// A displayable character of one digit cell.
#[derive(Clone, Copy, Debug, PartialEq, Eq, Structural)]
pub enum SevenSegmentChar {
    /// A decimal digit; only 0 to 9 are displayable.
    Number(u8),
    Minus,
    Blank,
}

impl SevenSegmentChar {
    /// A displayable character: a number holds a single decimal digit.
    pub open spec fn wf(&self) -> bool {
        match *self {
            SevenSegmentChar::Number(n) => n <= 9,
            _ => true,
        }
    }
}

/// The value of bit `i` of a byte, as a power of two.
pub open spec fn bit_weight(i: int) -> int {
    if i == 0 {
        1
    } else if i == 1 {
        2
    } else if i == 2 {
        4
    } else if i == 3 {
        8
    } else if i == 4 {
        16
    } else if i == 5 {
        32
    } else if i == 6 {
        64
    } else {
        128
    }
}

/// Whether bit `i` of `mask` is set, i.e. whether segment `i` is lit.
pub open spec fn segment_active(mask: u8, i: int) -> bool {
    (mask as int / bit_weight(i)) % 2 == 1
}

/// The seven-segment pattern of a character, without the decimal point.
pub open spec fn spec_base_mask(c: SevenSegmentChar) -> u8 {
    match c {
        SevenSegmentChar::Number(n) => if n == 0 {
            ZERO
        } else if n == 1 {
            ONE
        } else if n == 2 {
            TWO
        } else if n == 3 {
            THREE
        } else if n == 4 {
            FOUR
        } else if n == 5 {
            FIVE
        } else if n == 6 {
            SIX
        } else if n == 7 {
            SEVEN
        } else if n == 8 {
            EIGHT
        } else if n == 9 {
            NINE
        } else {
            0
        },
        SevenSegmentChar::Minus => MINUS,
        SevenSegmentChar::Blank => 0,
    }
}

/// The full segment mask of a character: its seven-segment pattern, plus the
/// reserved decimal-point bit when `decimal` is requested.
pub open spec fn spec_segment_mask(c: SevenSegmentChar, decimal: bool) -> u8 {
    if decimal {
        (spec_base_mask(c) + DECIMAL_POINT) as u8
    } else {
        spec_base_mask(c)
    }
}

/// How many of the seven character segments of `mask` are lit (the
/// decimal-point bit is not counted).
pub open spec fn lit_segment_count(mask: u8) -> int {
    (if segment_active(mask, 0) {
        1int
    } else {
        0
    }) + (if segment_active(mask, 1) {
        1int
    } else {
        0
    }) + (if segment_active(mask, 2) {
        1int
    } else {
        0
    }) + (if segment_active(mask, 3) {
        1int
    } else {
        0
    }) + (if segment_active(mask, 4) {
        1int
    } else {
        0
    }) + (if segment_active(mask, 5) {
        1int
    } else {
        0
    }) + (if segment_active(mask, 6) {
        1int
    } else {
        0
    })
}

/// Maps a displayable character and a decimal-point flag to its segment
/// activation mask. Pure: the mask is a function of the arguments alone.
pub fn encode(c: &SevenSegmentChar, decimal: bool) -> (mask: u8)
    requires
        c.wf(),
    ensures
        mask == spec_segment_mask(*c, decimal),
{
    let base: u8 = match c {
        SevenSegmentChar::Number(value) => match value {
            0 => ZERO,
            1 => ONE,
            2 => TWO,
            3 => THREE,
            4 => FOUR,
            5 => FIVE,
            6 => SIX,
            7 => SEVEN,
            8 => EIGHT,
            9 => NINE,
            _ => 0,
        },
        SevenSegmentChar::Minus => MINUS,
        SevenSegmentChar::Blank => 0,
    };
    if decimal {
        base + DECIMAL_POINT
    } else {
        base
    }
}

/// The encoder lights at most the seven character segments of a cell, a
/// blank lights none, and the reserved decimal-point bit is set exactly when
/// requested. Being a function of its arguments alone, the mask is the same
/// on every call with the same arguments.
#[verifier::rlimit(50)]
pub proof fn lemma_encode_mask_bounds(c: SevenSegmentChar, decimal: bool)
    requires
        c.wf(),
    ensures
        lit_segment_count(spec_segment_mask(c, decimal)) <= 7,
        c is Blank ==> lit_segment_count(spec_segment_mask(c, decimal)) == 0,
        segment_active(spec_segment_mask(c, decimal), 7) == decimal,
{
    let m = spec_segment_mask(c, decimal);
    assert(lit_segment_count(m) <= 7);
    if c is Blank {
        assert(spec_base_mask(c) == 0);
        assert(m == 0 || m == 128);
        assert(lit_segment_count(0u8) == 0);
        assert(lit_segment_count(128u8) == 0) by {
            assert(bit_weight(0) == 1 && bit_weight(1) == 2 && bit_weight(2) == 4 && bit_weight(3)
                == 8 && bit_weight(4) == 16 && bit_weight(5) == 32 && bit_weight(6) == 64);
            assert(128int / 1 == 128 && 128int / 2 == 64 && 128int / 4 == 32 && 128int / 8 == 16
                && 128int / 16 == 8 && 128int / 32 == 4 && 128int / 64 == 2);
            assert(!segment_active(128u8, 0));
            assert(!segment_active(128u8, 1));
            assert(!segment_active(128u8, 2));
            assert(!segment_active(128u8, 3));
            assert(!segment_active(128u8, 4));
            assert(!segment_active(128u8, 5));
            assert(!segment_active(128u8, 6));
        }
    }
}

/// The red, green or blue channel of a color triple.
pub open spec fn color_channel(color: (u8, u8, u8), k: int) -> u8 {
    if k == 0 {
        color.0
    } else if k == 1 {
        color.1
    } else {
        color.2
    }
}

/// The per-LED color buffer of one cell showing `mask` in `color`:
/// byte `j` drives channel `j % 3` of segment `j / 3`, and carries the color
/// exactly on lit segments.
pub open spec fn spec_cell(mask: u8, color: (u8, u8, u8)) -> Seq<u8> {
    Seq::new(24, |j: int| if segment_active(mask, j / 3) {
        color_channel(color, j % 3)
    } else {
        0u8
    })
}

/// A dark cell: every LED off.
pub open spec fn all_off() -> Seq<u8> {
    Seq::new(24, |j: int| 0u8)
}

fn bit_weight_exec(i: usize) -> (w: u8)
    requires
        i < 8,
    ensures
        w as int == bit_weight(i as int),
{
    match i {
        0 => 1,
        1 => 2,
        2 => 4,
        3 => 8,
        4 => 16,
        5 => 32,
        6 => 64,
        _ => 128,
    }
}

fn bit_of(mask: u8, i: usize) -> (b: bool)
    requires
        i < 8,
    ensures
        b == segment_active(mask, i as int),
{
    let w = bit_weight_exec(i);
    (mask / w) % 2 == 1
}

/// One digit cell: a fixed-size color buffer of eight segment LED groups,
/// three channels each, in red, green, blue order.
pub struct SevenSegmentDisplay {
    state_rgb: Vec<u8>,
}

impl View for SevenSegmentDisplay {
    type V = Seq<u8>;

    closed spec fn view(&self) -> Seq<u8> {
        self.state_rgb@
    }
}

impl SevenSegmentDisplay {
    /// A fresh cell with every LED off.
    pub fn off() -> (cell: Self)
        ensures
            cell@ == all_off(),
    {
        let mut state_rgb: Vec<u8> = Vec::new();
        let mut j: usize = 0;
        while j < 24
            invariant
                j <= 24,
                state_rgb@.len() == j,
                forall|k: int| 0 <= k < j ==> state_rgb@[k] == 0u8,
            decreases 24 - j,
        {
            state_rgb.push(0);
            j = j + 1;
        }
        let cell = SevenSegmentDisplay { state_rgb };
        assert(cell@ =~= all_off());
        cell
    }

    /// Overwrites the whole cell so that exactly the segments of `mask` carry
    /// `color` and every other LED is off.
    pub fn set_mask(&mut self, mask: u8, color: (u8, u8, u8))
        ensures
            final(self)@ == spec_cell(mask, color),
    {
        let mut led_colors: Vec<u8> = Vec::new();
        let mut j: usize = 0;
        while j < 24
            invariant
                j <= 24,
                led_colors@.len() == j,
                forall|k: int| 0 <= k < j ==> led_colors@[k] == spec_cell(mask, color)[k],
            decreases 24 - j,
        {
            let lit = bit_of(mask, j / 3);
            let channel: u8 = if !lit {
                0
            } else {
                match j % 3 {
                    0 => color.0,
                    1 => color.1,
                    _ => color.2,
                }
            };
            led_colors.push(channel);
            j = j + 1;
        }
        self.state_rgb = led_colors;
        assert(final(self)@ =~= spec_cell(mask, color));
    }

    /// Renders one character into the cell: encodes it and applies the
    /// caller's color to every lit segment.
    pub fn set_digit(&mut self, c: &SevenSegmentChar, color: (u8, u8, u8), decimal: bool)
        requires
            c.wf(),
        ensures
            final(self)@ == spec_cell(spec_segment_mask(*c, decimal), color),
    {
        let mask = encode(c, decimal);
        self.set_mask(mask, color);
    }
}

/// The ordered sequence of digit cells of the physical display.
pub struct SevenSegmentDisplayString {
    digits: Vec<SevenSegmentDisplay>,
}

impl View for SevenSegmentDisplayString {
    type V = Seq<Seq<u8>>;

    closed spec fn view(&self) -> Seq<Seq<u8>> {
        self.digits@.map_values(|d: SevenSegmentDisplay| d@)
    }
}

impl SevenSegmentDisplayString {
    /// Allocates `display_count` cells, all initially dark.
    pub fn new(display_count: usize) -> (r: Self)
        ensures
            r@.len() == display_count,
            forall|i: int| 0 <= i < display_count ==> r@[i] == all_off(),
    {
        let mut digits: Vec<SevenSegmentDisplay> = Vec::new();
        let mut i: usize = 0;
        while i < display_count
            invariant
                i <= display_count,
                digits@.len() == i,
                forall|k: int| 0 <= k < i ==> #[trigger] digits@[k]@ == all_off(),
            decreases display_count - i,
        {
            digits.push(SevenSegmentDisplay::off());
            i = i + 1;
        }
        let r = SevenSegmentDisplayString { digits };
        assert forall|k: int| 0 <= k < display_count implies r@[k] == all_off() by {
            assert(r@[k] == r.digits@[k]@);
        }
        r
    }

    /// The number of digit cells.
    pub fn len(&self) -> (n: usize)
        ensures
            n == self@.len(),
    {
        self.digits.len()
    }

    /// Renders one character into the cell at `idx`.
    pub fn set_cell(&mut self, idx: usize, c: &SevenSegmentChar, color: (u8, u8, u8), decimal: bool)
        requires
            idx < old(self)@.len(),
            c.wf(),
        ensures
            final(self)@ == old(self)@.update(
                idx as int,
                spec_cell(spec_segment_mask(*c, decimal), color),
            ),
    {
        let mut cell = SevenSegmentDisplay::off();
        cell.set_digit(c, color, decimal);
        self.digits.set(idx, cell);
        assert(final(self)@ =~= old(self)@.update(
            idx as int,
            spec_cell(spec_segment_mask(*c, decimal), color),
        ));
    }

    /// Sets every cell identically; used for the startup and blink animation
    /// and for a full clear.
    pub fn set_all(&mut self, c: &SevenSegmentChar, color: (u8, u8, u8), decimal: bool)
        requires
            c.wf(),
        ensures
            final(self)@.len() == old(self)@.len(),
            forall|i: int|
                0 <= i < final(self)@.len() ==> final(self)@[i] == spec_cell(
                    spec_segment_mask(*c, decimal),
                    color,
                ),
    {
        let mask = encode(c, decimal);
        self.set_all_mask(mask, color);
    }

    /// Sets every cell to a raw segment mask; used for the alert glyph.
    pub fn set_all_mask(&mut self, mask: u8, color: (u8, u8, u8))
        ensures
            final(self)@.len() == old(self)@.len(),
            forall|i: int|
                0 <= i < final(self)@.len() ==> final(self)@[i] == spec_cell(mask, color),
    {
        let n = self.digits.len();
        let mut i: usize = 0;
        while i < n
            invariant
                i <= n,
                self.digits@.len() == n,
                forall|k: int| 0 <= k < i ==> #[trigger] self.digits@[k]@ == spec_cell(mask, color),
            decreases n - i,
        {
            let mut cell = SevenSegmentDisplay::off();
            cell.set_mask(mask, color);
            self.digits.set(i, cell);
            i = i + 1;
        }
        assert forall|k: int| 0 <= k < n implies self@[k] == spec_cell(mask, color) by {
            assert(self@[k] == self.digits@[k]@);
        }
    }

    /// Every cell holds one color byte per channel of its eight LED groups.
    pub open spec fn wf(&self) -> bool {
        forall|i: int| 0 <= i < self@.len() ==> (#[trigger] self@[i]).len() == 24
    }

    /// Serializes the whole current state: every cell's color buffer in cell
    /// order, encoded for the SPI wire. The caller hands the returned frame
    /// to the hardware sink; a partial frame is never produced.
    pub fn flush(&self) -> (out: Vec<u8>)
        requires
            self.wf(),
        ensures
            out@ == spec_spi_frame(self@),
    {
        let n = self.digits.len();
        let mut out: Vec<u8> = Vec::new();
        let mut i: usize = 0;
        while i < n
            invariant
                i <= n,
                self.digits@.len() == n,
                self.wf(),
                out@ == spec_spi_frame_up_to(self@, i as int),
            decreases n - i,
        {
            let cell = &self.digits[i];
            assert(cell@ == self@[i as int]);
            let mut s: usize = 0;
            while s < 8
                invariant
                    s <= 8,
                    cell@ == self@[i as int],
                    0 <= i < self@.len(),
                    self.wf(),
                    out@ == spec_spi_frame_up_to(self@, i as int) + spec_spi_pixels(
                        cell@,
                        s as int,
                    ),
                decreases 8 - s,
            {
                let mut pixel = encode_rgb_pixel(
                    cell.state_rgb[3 * s],
                    cell.state_rgb[3 * s + 1],
                    cell.state_rgb[3 * s + 2],
                );
                out.append(&mut pixel);
                proof {
                    assert(out@ =~= spec_spi_frame_up_to(self@, i as int) + spec_spi_pixels(
                        cell@,
                        s + 1,
                    ));
                }
                s = s + 1;
            }
            proof {
                assert(out@ =~= spec_spi_frame_up_to(self@, i + 1));
            }
            i = i + 1;
        }
        out
    }

    /// Returns a numeric view bound to the given ordered cell indices; views
    /// may overlap, and a fresh view has no pending value and a dark color.
    pub fn derive_numeric_display(&self, display_indices: &[usize]) -> (v: NumericDisplay)
        requires
            forall|k: int|
                0 <= k < display_indices@.len() ==> (#[trigger] display_indices@[k]) < self@.len(),
        ensures
            v.indices() == display_indices@,
            v.pending() is None,
            v.color() == (0u8, 0u8, 0u8),
    {
        NumericDisplay {
            digits: vstd::slice::slice_to_vec(display_indices),
            value: None,
            color_rgb: (0, 0, 0),
        }
    }
}

/// The two SPI wire bytes that encode one logical data bit.
pub open spec fn spi_bit_bytes(on: bool) -> Seq<u8> {
    if on {
        seq![0xFFu8, 0x80u8]
    } else {
        seq![0xF8u8, 0x00u8]
    }
}

/// Data bit `k` of one pixel on the wire: the bits of the green, red and
/// blue channels in that order, each most significant bit first.
pub open spec fn grb_bit(r: u8, g: u8, b: u8, k: int) -> bool {
    let channel = if k / 8 == 0 {
        g
    } else if k / 8 == 1 {
        r
    } else {
        b
    };
    segment_active(channel, 7 - (k % 8))
}

/// The 48 SPI bytes that carry one RGB pixel: each of its 24 data bits
/// becomes two fixed wire bytes.
pub open spec fn spec_spi_pixel(r: u8, g: u8, b: u8) -> Seq<u8> {
    Seq::new(48, |j: int| spi_bit_bytes(grb_bit(r, g, b, j / 2))[j % 2])
}

/// Relies on `ws2818_rgb_led_spi_driver::encoding::encode_rgb`: each of the
/// 24 G,R,B color bits, most significant first, is encoded as two fixed SPI
/// bytes (`0xFF, 0x80` for a one, `0xF8, 0x00` for a zero), 48 bytes in all.
#[verifier::external_body]
fn encode_rgb_pixel(r: u8, g: u8, b: u8) -> (out: Vec<u8>)
    ensures
        out@ == spec_spi_pixel(r, g, b),
{
    ws2818_rgb_led_spi_driver::encoding::encode_rgb(r, g, b).to_vec()
}

/// The SPI bytes of the first `count` LED triples of one cell's color
/// buffer, in order.
pub open spec fn spec_spi_pixels(cell: Seq<u8>, count: int) -> Seq<u8>
    decreases count,
{
    if count <= 0 {
        Seq::empty()
    } else {
        spec_spi_pixels(cell, count - 1) + spec_spi_pixel(
            cell[3 * (count - 1)],
            cell[3 * (count - 1) + 1],
            cell[3 * (count - 1) + 2],
        )
    }
}

/// The SPI bytes of one whole cell: its eight LED triples encoded in order.
pub open spec fn spec_spi_cell(cell: Seq<u8>) -> Seq<u8> {
    spec_spi_pixels(cell, 8)
}

/// The SPI bytes of the first `n` cells, in cell order.
pub open spec fn spec_spi_frame_up_to(cells: Seq<Seq<u8>>, n: int) -> Seq<u8>
    decreases n,
{
    if n <= 0 {
        Seq::empty()
    } else {
        spec_spi_frame_up_to(cells, n - 1) + spec_spi_cell(cells[n - 1])
    }
}

/// The SPI frame that shows the whole buffer: every cell's color buffer in
/// cell order, each LED triple encoded to its 48 wire bytes.
pub open spec fn spec_spi_frame(cells: Seq<Seq<u8>>) -> Seq<u8> {
    spec_spi_frame_up_to(cells, cells.len() as int)
}

/// A failure to render a pending value into a view's cells.
#[derive(Clone, Copy, Debug, PartialEq, Eq, Structural)]
pub enum RenderError {
    /// The parsed characters exceed the view's assigned cell count.
    InsufficientDigits,
    /// The pending value holds a character other than a digit, `-`, space,
    /// or a `.` following one of those.
    UnsupportedChar,
}

/// The displayable character denoted by one input character, if any.
pub open spec fn char_to_seg(c: char) -> Option<SevenSegmentChar> {
    if 48 <= c as int && c as int <= 57 {
        Some(SevenSegmentChar::Number((c as int - 48) as u8))
    } else if c == '-' {
        Some(SevenSegmentChar::Minus)
    } else if c == ' ' {
        Some(SevenSegmentChar::Blank)
    } else {
        None
    }
}

/// Parses a value left to right into per-cell characters. A `.` immediately
/// after a character sets that character's decimal-point flag and occupies no
/// cell of its own; any character outside digits, `-` and space (including a
/// `.` in any other position) fails the parse.
pub open spec fn spec_parse(s: Seq<char>) -> Option<Seq<(SevenSegmentChar, bool)>>
    decreases s.len(),
{
    if s.len() == 0 {
        Some(Seq::empty())
    } else {
        match char_to_seg(s[0]) {
            Option::None => None,
            Option::Some(g) => {
                let dec = s.len() > 1 && s[1] == '.';
                let rest = if dec {
                    s.skip(2)
                } else {
                    s.skip(1)
                };
                match spec_parse(rest) {
                    Option::None => None,
                    Option::Some(t) => Some(seq![(g, dec)] + t),
                }
            },
        }
    }
}

/// `n` blank cells, no decimal points: what a cleared view renders.
pub open spec fn spec_blanks(n: nat) -> Seq<(SevenSegmentChar, bool)> {
    Seq::new(n, |i: int| (SevenSegmentChar::Blank, false))
}

/// The position of the last write that lands on cell `d` when the characters
/// are written to the cells named by `idxs` in order.
pub open spec fn last_write(idxs: Seq<usize>, d: int) -> Option<int>
    decreases idxs.len(),
{
    if idxs.len() == 0 {
        None
    } else if idxs[idxs.len() - 1] == d {
        Some(idxs.len() - 1)
    } else {
        last_write(idxs.drop_last(), d)
    }
}

/// The buffer contents after writing character `cs[k]` in `color` to cell
/// `idxs[k]`, for each `k` in order; on overlapping indices the later write
/// wins, and cells named by no index keep their contents.
pub open spec fn spec_apply(
    cells: Seq<Seq<u8>>,
    idxs: Seq<usize>,
    cs: Seq<(SevenSegmentChar, bool)>,
    color: (u8, u8, u8),
) -> Seq<Seq<u8>> {
    Seq::new(cells.len(), |d: int| match last_write(idxs.take(cs.len() as int), d) {
        Option::Some(k) => spec_cell(spec_segment_mask(cs[k].0, cs[k].1), color),
        Option::None => cells[d],
    })
}

fn classify(c: char) -> (r: Option<SevenSegmentChar>)
    ensures
        r == char_to_seg(c),
        r matches Some(g) ==> g.wf(),
{
    let code = c as u32;
    if 48 <= code && code <= 57 {
        Some(SevenSegmentChar::Number((code - 48) as u8))
    } else if c == '-' {
        Some(SevenSegmentChar::Minus)
    } else if c == ' ' {
        Some(SevenSegmentChar::Blank)
    } else {
        None
    }
}

pub(crate) fn parse_value(s: &str) -> (r: Result<Vec<(SevenSegmentChar, bool)>, RenderError>)
    ensures
        match r {
            Result::Ok(v) => {
                &&& spec_parse(s@) == Some(v@)
                &&& forall|k: int| 0 <= k < v@.len() ==> (#[trigger] v@[k]).0.wf()
            },
            Result::Err(e) => e == RenderError::UnsupportedChar && spec_parse(s@) is None,
        },
{
    let n = s.unicode_len();
    let mut i: usize = 0;
    let mut out: Vec<(SevenSegmentChar, bool)> = Vec::new();
    proof {
        assert(s@.skip(0) =~= s@);
        if let Some(t) = spec_parse(s@) {
            assert(Seq::<(SevenSegmentChar, bool)>::empty() + t =~= t);
        }
    }
    while i < n
        invariant
            i <= n,
            n == s@.len(),
            spec_parse(s@) == (match spec_parse(s@.skip(i as int)) {
                Option::None => None::<Seq<(SevenSegmentChar, bool)>>,
                Option::Some(t) => Some(out@ + t),
            }),
            forall|k: int| 0 <= k < out@.len() ==> (#[trigger] out@[k]).0.wf(),
        decreases n - i,
    {
        let c = s.get_char(i);
        assert(s@.skip(i as int)[0] == c);
        let g = match classify(c) {
            Some(g) => g,
            None => {
                return Err(RenderError::UnsupportedChar);
            },
        };
        let dec = i + 1 < n && s.get_char(i + 1) == '.';
        assert(dec == (s@.skip(i as int).len() > 1 && s@.skip(i as int)[1] == '.'));
        let step: usize = if dec {
            2
        } else {
            1
        };
        proof {
            assert(s@.skip(i as int).skip(step as int) =~= s@.skip(i + step));
            if let Some(t) = spec_parse(s@.skip(i + step)) {
                assert(out@ + (seq![(g, dec)] + t) =~= (out@ + seq![(g, dec)]) + t);
            }
        }
        out.push((g, dec));
        i = i + step;
    }
    proof {
        assert(s@.skip(n as int) =~= Seq::<char>::empty());
        assert(out@ + Seq::<(SevenSegmentChar, bool)>::empty() =~= out@);
    }
    Ok(out)
}

/// A non-owning numeric view: an ordered list of cell indices into one
/// digit buffer, a pending formatted value, and a draw color.
pub struct NumericDisplay {
    digits: Vec<usize>,
    value: Option<String>,
    color_rgb: (u8, u8, u8),
}

impl NumericDisplay {
    /// The buffer cells the view is bound to, in render order.
    pub closed spec fn indices(&self) -> Seq<usize> {
        self.digits@
    }

    /// The pending formatted value, if one is set.
    pub closed spec fn pending(&self) -> Option<Seq<char>> {
        match self.value {
            Option::Some(ref s) => Some(s@),
            Option::None => None,
        }
    }

    /// The draw color for the next write.
    pub closed spec fn color(&self) -> (u8, u8, u8) {
        self.color_rgb
    }

    /// What the view will write: its parsed pending value, or one blank per
    /// assigned cell when no value is pending.
    pub open spec fn render_chars(&self) -> Option<Seq<(SevenSegmentChar, bool)>> {
        match self.pending() {
            Option::None => Some(spec_blanks(self.indices().len())),
            Option::Some(s) => spec_parse(s),
        }
    }

    /// Clears the pending value; the next write blanks the assigned cells.
    pub fn clear(&mut self)
        ensures
            final(self).pending() is None,
            final(self).indices() == old(self).indices(),
            final(self).color() == old(self).color(),
    {
        self.value = None;
    }

    /// Sets the draw color for the next write.
    pub fn set_color(&mut self, color_rgb: (u8, u8, u8))
        ensures
            final(self).color() == color_rgb,
            final(self).indices() == old(self).indices(),
            final(self).pending() == old(self).pending(),
    {
        self.color_rgb = color_rgb;
    }

    /// Sets the pending formatted value; no hardware effect until a write.
    pub fn set_value(&mut self, value: String)
        ensures
            final(self).pending() == Some(value@),
            final(self).indices() == old(self).indices(),
            final(self).color() == old(self).color(),
    {
        self.value = Some(value);
    }

    /// Renders the pending value across the assigned cells of `display`:
    /// all or nothing. On a parse failure or when the parsed characters
    /// exceed the assigned cells, no cell changes; on success each parsed
    /// character is encoded into its cell in the view's color, and cells
    /// after the last parsed character keep their contents.
    pub fn write(&self, display: &mut SevenSegmentDisplayString) -> (r: Result<(), RenderError>)
        requires
            forall|k: int|
                0 <= k < self.indices().len() ==> (#[trigger] self.indices()[k])
                    < old(display)@.len(),
        ensures
            final(display)@.len() == old(display)@.len(),
            match self.render_chars() {
                Option::None => {
                    &&& r == Result::<(), RenderError>::Err(RenderError::UnsupportedChar)
                    &&& final(display)@ == old(display)@
                },
                Option::Some(cs) => if cs.len() > self.indices().len() {
                    &&& r == Result::<(), RenderError>::Err(RenderError::InsufficientDigits)
                    &&& final(display)@ == old(display)@
                } else {
                    &&& r == Result::<(), RenderError>::Ok(())
                    &&& final(display)@ == spec_apply(
                        old(display)@,
                        self.indices(),
                        cs,
                        self.color(),
                    )
                },
            },
    {
        let chars: Vec<(SevenSegmentChar, bool)> = match &self.value {
            None => {
                let mut blanks: Vec<(SevenSegmentChar, bool)> = Vec::new();
                let mut j: usize = 0;
                let n = self.digits.len();
                while j < n
                    invariant
                        j <= n,
                        blanks@.len() == j,
                        forall|k: int|
                            0 <= k < j ==> #[trigger] blanks@[k] == (
                            SevenSegmentChar::Blank,
                            false,
                            ),
                    decreases n - j,
                {
                    blanks.push((SevenSegmentChar::Blank, false));
                    j = j + 1;
                }
                assert(blanks@ =~= spec_blanks(self.indices().len()));
                blanks
            },
            Some(value) => {
                match parse_value(value.as_str()) {
                    Ok(cs) => cs,
                    Err(e) => {
                        return Err(e);
                    },
                }
            },
        };
        if chars.len() > self.digits.len() {
            return Err(RenderError::InsufficientDigits);
        }
        let ghost cs = chars@;
        let ghost start = display@;
        proof {
            assert(start == old(display)@);
            assert forall|k: int| 0 <= k < self.digits@.len() implies #[trigger] self.digits@[k]
                < start.len() by {
                assert(self.indices()[k] < old(display)@.len());
            }
        }
        let mut idx: usize = 0;
        while idx < chars.len()
            invariant
                idx <= cs.len(),
                cs.len() <= self.digits@.len(),
                chars@ == cs,
                display@.len() == start.len(),
                forall|k: int| 0 <= k < cs.len() ==> (#[trigger] cs[k]).0.wf(),
                forall|k: int|
                    0 <= k < self.digits@.len() ==> (#[trigger] self.digits@[k]) < start.len(),
                forall|d: int|
                    0 <= d < start.len() ==> #[trigger] display@[d] == (match last_write(
                        self.digits@.take(idx as int),
                        d,
                    ) {
                        Option::Some(k) => spec_cell(
                            spec_segment_mask(cs[k].0, cs[k].1),
                            self.color_rgb,
                        ),
                        Option::None => start[d],
                    }),
            decreases chars.len() - idx,
        {
            let (c, dec) = chars[idx];
            let cell_index = self.digits[idx];
            display.set_cell(cell_index, &c, self.color_rgb, dec);
            proof {
                assert(self.digits@.take(idx + 1).drop_last() =~= self.digits@.take(idx as int));
                assert forall|d: int| 0 <= d < start.len() implies #[trigger] display@[d] == (
                match last_write(self.digits@.take(idx + 1), d) {
                    Option::Some(k) => spec_cell(
                        spec_segment_mask(cs[k].0, cs[k].1),
                        self.color_rgb,
                    ),
                    Option::None => start[d],
                }) by {
                    let t = self.digits@.take(idx + 1);
                    assert(t[t.len() - 1] == self.digits@[idx as int]);
                }
            }
            idx = idx + 1;
        }
        proof {
            assert(final(display)@ =~= spec_apply(start, self.digits@, cs, self.color_rgb));
        }
        Ok(())
    }
}

/// Writing the same pending characters in the same color through the same
/// view twice leaves the buffer exactly as one write does: a view's write is
/// idempotent.
pub proof fn lemma_write_idempotent(
    cells: Seq<Seq<u8>>,
    idxs: Seq<usize>,
    cs: Seq<(SevenSegmentChar, bool)>,
    color: (u8, u8, u8),
)
    ensures
        spec_apply(spec_apply(cells, idxs, cs, color), idxs, cs, color) == spec_apply(
            cells,
            idxs,
            cs,
            color,
        ),
{
    assert(spec_apply(spec_apply(cells, idxs, cs, color), idxs, cs, color) =~= spec_apply(
        cells,
        idxs,
        cs,
        color,
    ));
}

} // verus!
