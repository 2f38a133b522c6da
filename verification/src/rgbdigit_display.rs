//! The RGB digit renderer: owns the digit buffer and one numeric view per
//! telemetry field, formats each field of a reading, and produces the SPI
//! frames that the hardware sink writes.

use vstd::prelude::*;
use crate::error::SolarMonitorError;
use crate::rgbdigit::{
    NumericDisplay, RenderError, SevenSegmentChar, SevenSegmentDisplayString, all_off, char_to_seg,
    parse_value, spec_apply, spec_cell, spec_parse, spec_segment_mask, spec_spi_frame,
};
use crate::solar_status::SolarStatus;

verus! {

/// An `E`-like pattern (top, bottom, both left bars and the middle segment)
/// shown on every cell as the error indication.
pub const ALERT_GLYPH: u8 = 0b01111001;

/// A decimal digit as a character.
pub open spec fn digit_char(d: int) -> char {
    if d == 0 {
        '0'
    } else if d == 1 {
        '1'
    } else if d == 2 {
        '2'
    } else if d == 3 {
        '3'
    } else if d == 4 {
        '4'
    } else if d == 5 {
        '5'
    } else if d == 6 {
        '6'
    } else if d == 7 {
        '7'
    } else if d == 8 {
        '8'
    } else {
        '9'
    }
}

/// The decimal numeral of a non-negative integer, most significant digit
/// first, without leading zeros (a lone zero for 0).
pub open spec fn spec_digits(n: int) -> Seq<char>
    decreases n,
{
    if n <= 9 {
        seq![digit_char(n)]
    } else {
        spec_digits(n / 10) + seq![digit_char(n % 10)]
    }
}

/// The magnitude of an integer.
pub open spec fn abs_int(w: int) -> int {
    if w < 0 {
        -w
    } else {
        w
    }
}

/// The kilowatt text of a wattage: its magnitude rounded to the nearest
/// tenth of a kilowatt (half rounds away from zero), one decimal place, and
/// a leading minus for negative values.
pub open spec fn spec_kilowatt_text(watts: int) -> Seq<char> {
    let tenths = (abs_int(watts) + 50) / 100;
    let unsigned = spec_digits(tenths / 10) + seq!['.'] + seq![digit_char(tenths % 10)];
    if watts < 0 {
        seq!['-'] + unsigned
    } else {
        unsigned
    }
}

/// The displayed battery percentage: the level in hundredths of a percent,
/// clamped to the two digits the display can show, rounded to the nearest
/// whole percent (half rounds up).
pub open spec fn spec_clamped_percent(centi: int) -> int {
    let c = if centi < 0 {
        0
    } else if centi > 9900 {
        9900
    } else {
        centi
    };
    (c + 50) / 100
}

/// The battery-level text: the clamped whole percent as a numeral.
pub open spec fn spec_percent_text(centi: int) -> Seq<char> {
    spec_digits(spec_clamped_percent(centi))
}

/// The displayed battery percentage is clamped to 0 through 99 before it is
/// rendered, whatever level normalization produced.
pub proof fn lemma_displayed_percent_in_range(centi: int)
    ensures
        0 <= spec_clamped_percent(centi) <= 99,
{
}

fn digit_str(d: u64) -> (s: &'static str)
    requires
        d <= 9,
    ensures
        s@ == seq![digit_char(d as int)],
{
    match d {
        0 => {
            proof {
                reveal_strlit("0");
                assert("0"@ =~= seq![digit_char(0)]);
            }
            "0"
        },
        1 => {
            proof {
                reveal_strlit("1");
                assert("1"@ =~= seq![digit_char(1)]);
            }
            "1"
        },
        2 => {
            proof {
                reveal_strlit("2");
                assert("2"@ =~= seq![digit_char(2)]);
            }
            "2"
        },
        3 => {
            proof {
                reveal_strlit("3");
                assert("3"@ =~= seq![digit_char(3)]);
            }
            "3"
        },
        4 => {
            proof {
                reveal_strlit("4");
                assert("4"@ =~= seq![digit_char(4)]);
            }
            "4"
        },
        5 => {
            proof {
                reveal_strlit("5");
                assert("5"@ =~= seq![digit_char(5)]);
            }
            "5"
        },
        6 => {
            proof {
                reveal_strlit("6");
                assert("6"@ =~= seq![digit_char(6)]);
            }
            "6"
        },
        7 => {
            proof {
                reveal_strlit("7");
                assert("7"@ =~= seq![digit_char(7)]);
            }
            "7"
        },
        8 => {
            proof {
                reveal_strlit("8");
                assert("8"@ =~= seq![digit_char(8)]);
            }
            "8"
        },
        _ => {
            proof {
                reveal_strlit("9");
                assert("9"@ =~= seq![digit_char(9)]);
            }
            "9"
        },
    }
}

/// The decimal numeral of `n`, digit by digit.
pub fn format_number(n: u64) -> (s: String)
    ensures
        s@ == spec_digits(n as int),
    decreases n,
{
    if n <= 9 {
        let s = String::from_str(digit_str(n));
        assert(s@ =~= spec_digits(n as int));
        s
    } else {
        let mut s = format_number(n / 10);
        s.append(digit_str(n % 10));
        assert(s@ =~= spec_digits(n as int));
        s
    }
}

/// The magnitude of a wattage, widened so that the extreme negative value
/// has one too.
fn abs_magnitude(watts: i32) -> (m: u64)
    ensures
        m as int == abs_int(watts as int),
{
    if watts < 0 {
        (-(watts as i64)) as u64
    } else {
        watts as u64
    }
}

/// The kilowatt text of a magnitude of `mag` watts, without a sign.
pub fn format_kilowatts_magnitude(mag: u64) -> (s: String)
    requires
        mag + 50 <= u64::MAX,
    ensures
        s@ == spec_kilowatt_text(mag as int),
{
    let tenths: u64 = (mag + 50) / 100;
    let mut s = format_number(tenths / 10);
    proof {
        reveal_strlit(".");
        assert("."@ =~= seq!['.']);
    }
    s.append(".");
    s.append(digit_str(tenths % 10));
    assert(s@ =~= spec_kilowatt_text(mag as int));
    s
}

/// The kilowatt text of `watts`, as the views display a power field.
pub fn format_kilowatts(watts: i32) -> (s: String)
    ensures
        s@ == spec_kilowatt_text(watts as int),
{
    let mag = abs_magnitude(watts);
    let unsigned = format_kilowatts_magnitude(mag);
    if watts < 0 {
        proof {
            reveal_strlit("-");
            assert("-"@ =~= seq!['-']);
        }
        let mut s = String::from_str("-");
        s.append(unsigned.as_str());
        assert(s@ =~= spec_kilowatt_text(watts as int));
        s
    } else {
        assert(unsigned@ =~= spec_kilowatt_text(watts as int));
        unsigned
    }
}

/// The battery-level text of a level in hundredths of a percent.
pub fn format_percentage(centi: i64) -> (s: String)
    ensures
        s@ == spec_percent_text(centi as int),
{
    let clamped: i64 = if centi < 0 {
        0
    } else if centi > 9900 {
        9900
    } else {
        centi
    };
    let percent: u64 = ((clamped + 50) / 100) as u64;
    format_number(percent)
}

/// Whether a digit character denotes it.
pub open spec fn is_digit_char(c: char) -> bool {
    48 <= c as int <= 57
}

/// A numeral consists of digit characters alone.
pub proof fn lemma_spec_digits_are_digits(n: int)
    requires
        n >= 0,
    ensures
        forall|k: int| 0 <= k < spec_digits(n).len() ==> is_digit_char(#[trigger] spec_digits(n)[k]),
    decreases n,
{
    if n <= 9 {
        assert(is_digit_char(digit_char(n)));
        assert(spec_digits(n)[0] == digit_char(n));
    } else {
        lemma_spec_digits_are_digits(n / 10);
        assert forall|k: int| 0 <= k < spec_digits(n).len() implies is_digit_char(
            #[trigger] spec_digits(n)[k],
        ) by {
            let head = spec_digits(n / 10);
            if k < head.len() {
                assert(spec_digits(n)[k] == head[k]);
            } else {
                assert(spec_digits(n)[k] == digit_char(n % 10));
            }
        }
    }
}

/// A string of digit characters alone parses into one displayable character
/// per input character, none carrying a decimal point.
pub proof fn lemma_parse_digits(s: Seq<char>)
    requires
        forall|k: int| 0 <= k < s.len() ==> is_digit_char(#[trigger] s[k]),
    ensures
        spec_parse(s) matches Some(cs) && cs.len() == s.len() && (forall|k: int|
            0 <= k < s.len() ==> (#[trigger] cs[k]).1 == false),
    decreases s.len(),
{
    if s.len() > 0 {
        assert(char_to_seg(s[0]) is Some);
        assert(s.len() > 1 ==> s[1] != '.');
        lemma_parse_digits(s.skip(1));
    }
}

/// Round trip of a formatted integer through a view: the numeral of a
/// non-negative integer parses back into exactly one displayable character
/// per digit, so by the contract of `NumericDisplay::write` a view renders it
/// successfully exactly when its digit count is at most the view's cell
/// count, and on the insufficient-digits failure the buffer is unchanged.
pub proof fn lemma_digit_round_trip(v: NumericDisplay, n: int)
    requires
        n >= 0,
        v.pending() == Some(spec_digits(n)),
    ensures
        v.render_chars() matches Some(cs) && cs.len() == spec_digits(n).len(),
{
    lemma_spec_digits_are_digits(n);
    lemma_parse_digits(spec_digits(n));
}

/// The text one view of a reading displays.
pub open spec fn solar_text(st: SolarStatus) -> Seq<char> {
    spec_kilowatt_text(
        if st.solar_power_watts < 0 {
            0
        } else {
            st.solar_power_watts as int
        },
    )
}

pub open spec fn house_text(st: SolarStatus) -> Seq<char> {
    spec_kilowatt_text(st.house_power_watts as int)
}

pub open spec fn battery_text(st: SolarStatus) -> Seq<char> {
    spec_kilowatt_text(abs_int(st.battery_power_watts as int))
}

pub open spec fn grid_text(st: SolarStatus) -> Seq<char> {
    spec_kilowatt_text(abs_int(st.grid_power_watts as int))
}

pub open spec fn level_text(st: SolarStatus) -> Seq<char> {
    spec_percent_text(st.battery_level_centipercent as int)
}

/// The battery view's color: warm while the battery charges or idles within
/// the dead zone, green once it discharges more than the 100 W epsilon.
pub open spec fn battery_color(st: SolarStatus) -> (u8, u8, u8) {
    if st.battery_power_watts > -100 {
        (100u8, 40u8, 10u8)
    } else {
        (30u8, 70u8, 20u8)
    }
}

/// The grid view's color: red while importing more than the 100 W epsilon,
/// neutral otherwise (idle or exporting).
pub open spec fn grid_color(st: SolarStatus) -> (u8, u8, u8) {
    if st.grid_power_watts > 100 {
        (50u8, 0u8, 0u8)
    } else {
        (30u8, 30u8, 30u8)
    }
}

/// Whether a text parses and fits a view of `cells` cells.
pub open spec fn view_fits(text: Seq<char>, cells: int) -> bool {
    match spec_parse(text) {
        Option::Some(cs) => cs.len() <= cells,
        Option::None => false,
    }
}

/// Whether every field of a reading fits its two-cell view.
pub open spec fn spec_status_fits(st: SolarStatus) -> bool {
    &&& view_fits(solar_text(st), 2)
    &&& view_fits(house_text(st), 2)
    &&& view_fits(battery_text(st), 2)
    &&& view_fits(grid_text(st), 2)
    &&& view_fits(level_text(st), 2)
}

/// What a text parses to, empty when it does not parse.
pub open spec fn parsed_chars(text: Seq<char>) -> Seq<(SevenSegmentChar, bool)> {
    match spec_parse(text) {
        Option::Some(cs) => cs,
        Option::None => Seq::empty(),
    }
}

/// The buffer contents after a reading is rendered: each field's text
/// written over its view's cells in render order.
pub open spec fn spec_show(cells: Seq<Seq<u8>>, st: SolarStatus) -> Seq<Seq<u8>> {
    let c1 = spec_apply(cells, seq![4usize, 5], parsed_chars(solar_text(st)), (100u8, 100u8, 0u8));
    let c2 = spec_apply(c1, seq![6usize, 7], parsed_chars(house_text(st)), (30u8, 10u8, 80u8));
    let c3 = spec_apply(c2, seq![0usize, 1], parsed_chars(battery_text(st)), battery_color(st));
    let c4 = spec_apply(c3, seq![2usize, 3], parsed_chars(grid_text(st)), grid_color(st));
    spec_apply(c4, seq![8usize, 9], parsed_chars(level_text(st)), (100u8, 0u8, 100u8))
}

/// Writing through a view keeps every cell's size.
proof fn lemma_apply_keeps_cell_size(
    cells: Seq<Seq<u8>>,
    idxs: Seq<usize>,
    cs: Seq<(SevenSegmentChar, bool)>,
    color: (u8, u8, u8),
)
    requires
        forall|i: int| 0 <= i < cells.len() ==> (#[trigger] cells[i]).len() == 24,
    ensures
        forall|i: int|
            0 <= i < spec_apply(cells, idxs, cs, color).len() ==> (#[trigger] spec_apply(
                cells,
                idxs,
                cs,
                color,
            )[i]).len() == 24,
{
}

/// Checks that a formatted value will render into a view of `cells` cells.
fn fits(text: &String, cells: usize) -> (b: bool)
    ensures
        b == view_fits(text@, cells as int),
{
    match parse_value(text.as_str()) {
        Ok(cs) => cs.len() <= cells,
        Err(_) => false,
    }
}

/// The digit renderer: the buffer of ten cells and the five per-field views.
pub struct RgbDigitDisplay {
    pub display: SevenSegmentDisplayString,
    pub solar_generation_status: NumericDisplay,
    pub house_consumption_status: NumericDisplay,
    pub battery_status: NumericDisplay,
    pub grid_status: NumericDisplay,
    pub battery_level: NumericDisplay,
}

impl RgbDigitDisplay {
    /// The renderer owns ten well-sized cells and each view is bound to its
    /// fixed pair of cells.
    pub open spec fn wf(&self) -> bool {
        &&& self.display@.len() == 10
        &&& self.display.wf()
        &&& self.solar_generation_status.indices() == seq![4usize, 5usize]
        &&& self.house_consumption_status.indices() == seq![6usize, 7usize]
        &&& self.battery_status.indices() == seq![0usize, 1usize]
        &&& self.grid_status.indices() == seq![2usize, 3usize]
        &&& self.battery_level.indices() == seq![8usize, 9usize]
    }

    /// Builds the renderer: a dark ten-cell buffer, one two-cell view per
    /// telemetry field.
    pub fn new() -> (r: Self)
        ensures
            r.wf(),
            forall|i: int| 0 <= i < 10 ==> r.display@[i] == all_off(),
    {
        let display = SevenSegmentDisplayString::new(10);
        let solar_idx: [usize; 2] = [4, 5];
        let house_idx: [usize; 2] = [6, 7];
        let battery_idx: [usize; 2] = [0, 1];
        let grid_idx: [usize; 2] = [2, 3];
        let level_idx: [usize; 2] = [8, 9];
        let solar_generation_status = display.derive_numeric_display(solar_idx.as_slice());
        let house_consumption_status = display.derive_numeric_display(house_idx.as_slice());
        let battery_status = display.derive_numeric_display(battery_idx.as_slice());
        let grid_status = display.derive_numeric_display(grid_idx.as_slice());
        let battery_level = display.derive_numeric_display(level_idx.as_slice());
        let r = RgbDigitDisplay {
            display,
            solar_generation_status,
            house_consumption_status,
            battery_status,
            grid_status,
            battery_level,
        };
        assert(r.solar_generation_status.indices() =~= seq![4usize, 5usize]);
        assert(r.house_consumption_status.indices() =~= seq![6usize, 7usize]);
        assert(r.battery_status.indices() =~= seq![0usize, 1usize]);
        assert(r.grid_status.indices() =~= seq![2usize, 3usize]);
        assert(r.battery_level.indices() =~= seq![8usize, 9usize]);
        r
    }

    /// Renders a reading: formats each field, and only if every field fits
    /// its view writes all five views and returns the frame to flush. On an
    /// oversized field nothing changes and no frame is produced, so the
    /// hardware keeps its previous picture.
    pub fn show_status(&mut self, status: &SolarStatus) -> (r: Result<Vec<u8>, SolarMonitorError>)
        requires
            old(self).wf(),
        ensures
            final(self).wf(),
            r is Ok <==> spec_status_fits(*status),
            match r {
                Result::Ok(frame) => {
                    &&& final(self).display@ == spec_show(old(self).display@, *status)
                    &&& frame@ == spec_spi_frame(spec_show(old(self).display@, *status))
                },
                Result::Err(e) => {
                    &&& e == SolarMonitorError::DISPLAY(RenderError::InsufficientDigits)
                    &&& *final(self) == *old(self)
                },
            },
    {
        let solar_value = format_kilowatts(
            if status.solar_power_watts < 0 {
                0
            } else {
                status.solar_power_watts
            },
        );
        let house_value = format_kilowatts(status.house_power_watts);
        let battery_value = format_kilowatts_magnitude(abs_magnitude(status.battery_power_watts));
        let grid_value = format_kilowatts_magnitude(abs_magnitude(status.grid_power_watts));
        let level_value = format_percentage(status.battery_level_centipercent);
        if !(fits(&solar_value, 2) && fits(&house_value, 2) && fits(&battery_value, 2) && fits(
            &grid_value,
            2,
        ) && fits(&level_value, 2)) {
            return Err(SolarMonitorError::DISPLAY(RenderError::InsufficientDigits));
        }
        self.solar_generation_status.set_value(solar_value);
        self.solar_generation_status.set_color((100, 100, 0));
        let _ = self.solar_generation_status.write(&mut self.display);
        self.house_consumption_status.set_value(house_value);
        self.house_consumption_status.set_color((30, 10, 80));
        let _ = self.house_consumption_status.write(&mut self.display);
        self.battery_status.set_value(battery_value);
        if status.battery_power_watts > -100 {
            self.battery_status.set_color((100, 40, 10));
        } else {
            self.battery_status.set_color((30, 70, 20));
        }
        let _ = self.battery_status.write(&mut self.display);
        self.grid_status.set_value(grid_value);
        if status.grid_power_watts > 100 {
            self.grid_status.set_color((50, 0, 0));
        } else {
            self.grid_status.set_color((30, 30, 30));
        }
        let _ = self.grid_status.write(&mut self.display);
        self.battery_level.set_value(level_value);
        self.battery_level.set_color((100, 0, 100));
        let _ = self.battery_level.write(&mut self.display);
        assert(self.display@ == spec_show(old(self).display@, *status));
        assert(self.display.wf()) by {
            lemma_show_keeps_cell_size(old(self).display@, *status);
        }
        let frame = self.display.flush();
        Ok(frame)
    }

    /// Sets every cell to one mask and color and serializes the result.
    fn uniform_frame(&mut self, mask: u8, color: (u8, u8, u8)) -> (frame: Vec<u8>)
        requires
            old(self).wf(),
        ensures
            final(self).wf(),
            final(self).display@.len() == 10,
            forall|i: int| 0 <= i < 10 ==> final(self).display@[i] == spec_cell(mask, color),
            frame@ == spec_spi_frame(final(self).display@),
            final(self).solar_generation_status == old(self).solar_generation_status,
            final(self).house_consumption_status == old(self).house_consumption_status,
            final(self).battery_status == old(self).battery_status,
            final(self).grid_status == old(self).grid_status,
            final(self).battery_level == old(self).battery_level,
    {
        self.display.set_all_mask(mask, color);
        self.display.flush()
    }

    /// The startup picture: every cell dark but for a blue decimal point.
    pub fn startup(&mut self) -> (frame: Vec<u8>)
        requires
            old(self).wf(),
        ensures
            final(self).wf(),
            final(self).display@.len() == 10,
            forall|i: int|
                0 <= i < 10 ==> final(self).display@[i] == spec_cell(
                    spec_segment_mask(SevenSegmentChar::Blank, true),
                    (0u8, 0u8, 100u8),
                ),
            frame@ == spec_spi_frame(final(self).display@),
            final(self).solar_generation_status == old(self).solar_generation_status,
            final(self).house_consumption_status == old(self).house_consumption_status,
            final(self).battery_status == old(self).battery_status,
            final(self).grid_status == old(self).grid_status,
            final(self).battery_level == old(self).battery_level,
    {
        let mask = crate::rgbdigit::encode(&SevenSegmentChar::Blank, true);
        self.uniform_frame(mask, (0, 0, 100))
    }

    /// A full clear: every cell entirely dark; the frame blanks the display.
    pub fn clear(&mut self) -> (frame: Vec<u8>)
        requires
            old(self).wf(),
        ensures
            final(self).wf(),
            final(self).display@.len() == 10,
            forall|i: int| 0 <= i < 10 ==> final(self).display@[i] == all_off(),
            frame@ == spec_spi_frame(final(self).display@),
            final(self).solar_generation_status == old(self).solar_generation_status,
            final(self).house_consumption_status == old(self).house_consumption_status,
            final(self).battery_status == old(self).battery_status,
            final(self).grid_status == old(self).grid_status,
            final(self).battery_level == old(self).battery_level,
    {
        let frame = self.uniform_frame(0, (0, 0, 0));
        assert(spec_cell(0u8, (0u8, 0u8, 0u8)) =~= all_off());
        frame
    }

    /// A deliberate stop blanks the whole display.
    pub fn shutdown(&mut self) -> (frame: Vec<u8>)
        requires
            old(self).wf(),
        ensures
            final(self).wf(),
            final(self).display@.len() == 10,
            forall|i: int| 0 <= i < 10 ==> final(self).display@[i] == all_off(),
            frame@ == spec_spi_frame(final(self).display@),
            final(self).solar_generation_status == old(self).solar_generation_status,
            final(self).house_consumption_status == old(self).house_consumption_status,
            final(self).battery_status == old(self).battery_status,
            final(self).grid_status == old(self).grid_status,
            final(self).battery_level == old(self).battery_level,
    {
        self.clear()
    }

    /// The error indication: every cell shows the alert glyph in red.
    pub fn show_error(&mut self) -> (frame: Vec<u8>)
        requires
            old(self).wf(),
        ensures
            final(self).wf(),
            final(self).display@.len() == 10,
            forall|i: int|
                0 <= i < 10 ==> final(self).display@[i] == spec_cell(ALERT_GLYPH, (255u8, 0u8, 0u8)),
            frame@ == spec_spi_frame(final(self).display@),
    {
        self.uniform_frame(ALERT_GLYPH, (255, 0, 0))
    }

    /// One phase of the startup blink animation: all cells lit white with
    /// their decimal points, or all cells dark.
    pub fn blink_frame(&mut self, bright: bool) -> (frame: Vec<u8>)
        requires
            old(self).wf(),
        ensures
            final(self).wf(),
            final(self).display@.len() == 10,
            forall|i: int|
                0 <= i < 10 ==> final(self).display@[i] == (if bright {
                    spec_cell(
                        spec_segment_mask(SevenSegmentChar::Blank, true),
                        (100u8, 100u8, 100u8),
                    )
                } else {
                    all_off()
                }),
            frame@ == spec_spi_frame(final(self).display@),
            final(self).solar_generation_status == old(self).solar_generation_status,
            final(self).house_consumption_status == old(self).house_consumption_status,
            final(self).battery_status == old(self).battery_status,
            final(self).grid_status == old(self).grid_status,
            final(self).battery_level == old(self).battery_level,
    {
        if bright {
            let mask = crate::rgbdigit::encode(&SevenSegmentChar::Blank, true);
            self.uniform_frame(mask, (100, 100, 100))
        } else {
            let frame = self.uniform_frame(0, (0, 0, 0));
            assert(spec_cell(0u8, (0u8, 0u8, 0u8)) =~= all_off());
            frame
        }
    }
}

/// Rendering a reading keeps every cell's size.
proof fn lemma_show_keeps_cell_size(cells: Seq<Seq<u8>>, st: SolarStatus)
    requires
        forall|i: int| 0 <= i < cells.len() ==> (#[trigger] cells[i]).len() == 24,
    ensures
        forall|i: int|
            0 <= i < spec_show(cells, st).len() ==> (#[trigger] spec_show(cells, st)[i]).len()
                == 24,
{
    let c1 = spec_apply(cells, seq![4usize, 5], parsed_chars(solar_text(st)), (100u8, 100u8, 0u8));
    let c2 = spec_apply(c1, seq![6usize, 7], parsed_chars(house_text(st)), (30u8, 10u8, 80u8));
    let c3 = spec_apply(c2, seq![0usize, 1], parsed_chars(battery_text(st)), battery_color(st));
    let c4 = spec_apply(c3, seq![2usize, 3], parsed_chars(grid_text(st)), grid_color(st));
    lemma_apply_keeps_cell_size(
        cells,
        seq![4usize, 5],
        parsed_chars(solar_text(st)),
        (100u8, 100u8, 0u8),
    );
    lemma_apply_keeps_cell_size(c1, seq![6usize, 7], parsed_chars(house_text(st)), (30u8, 10u8, 80u8));
    lemma_apply_keeps_cell_size(c2, seq![0usize, 1], parsed_chars(battery_text(st)), battery_color(st));
    lemma_apply_keeps_cell_size(c3, seq![2usize, 3], parsed_chars(grid_text(st)), grid_color(st));
    lemma_apply_keeps_cell_size(c4, seq![8usize, 9], parsed_chars(level_text(st)), (100u8, 0u8, 100u8));
}

} // verus!
