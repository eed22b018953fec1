//! Display frames and the pixel statistics the frame heuristics are built
//! from: counts of pixels that pass a test, counts of rows with enough such
//! pixels, the span between the first and last such row, the number of
//! distinct colours seen (up to a cap) and the size of the most common
//! colour bucket.
use vstd::prelude::*;

verus! {

/// A frame of 0x00RRGGBB pixels, row after row.
#[derive(Debug, PartialEq, Eq)]
pub struct NativeDisplayFrame {
    pub width: usize,
    pub height: usize,
    pub pixels: Vec<u32>,
}

impl Clone for NativeDisplayFrame {
    fn clone(&self) -> (r: Self)
        ensures
            r.width == self.width,
            r.height == self.height,
            r.pixels@ == self.pixels@,
    {
        NativeDisplayFrame { width: self.width, height: self.height, pixels: self.pixels.clone() }
    }
}

/// The mathematical view of a frame: its size and its pixels.
pub struct FrameView {
    pub width: usize,
    pub height: usize,
    pub pixels: Seq<u32>,
}

impl View for NativeDisplayFrame {
    type V = FrameView;

    open spec fn view(&self) -> FrameView {
        FrameView { width: self.width, height: self.height, pixels: self.pixels@ }
    }
}

impl FrameView {
    /// Every pixel of the `width` by `height` grid is present (and the
    /// pixels fit in memory).
    pub open spec fn complete(self) -> bool {
        self.width * self.height <= self.pixels.len() <= usize::MAX
    }

    /// The raw pixel at column `x` of row `y`.
    pub open spec fn raw(self, x: int, y: int) -> u32 {
        self.pixels[y * self.width + x]
    }

    /// The colour at column `x` of row `y`, without the top byte.
    pub open spec fn rgb(self, x: int, y: int) -> u32 {
        self.raw(x, y) & 0x00ff_ffffu32
    }
}

impl NativeDisplayFrame {
    /// The frame holds a complete grid; a frame whose size does not fit in
    /// a machine word is taken as incomplete.
    pub fn is_complete(&self) -> (r: bool)
        ensures
            r == self@.complete(),
    {
        match self.width.checked_mul(self.height) {
            Some(total) => self.pixels.len() >= total,
            None => false,
        }
    }
}

pub open spec fn red(c: u32) -> u32 {
    (c >> 16u32) & 0xffu32
}

pub open spec fn green(c: u32) -> u32 {
    (c >> 8u32) & 0xffu32
}

pub open spec fn blue(c: u32) -> u32 {
    c & 0xffu32
}

pub open spec fn max3(a: u32, b: u32, c: u32) -> u32 {
    if a >= b && a >= c {
        a
    } else if b >= c {
        b
    } else {
        c
    }
}

pub open spec fn min3(a: u32, b: u32, c: u32) -> u32 {
    if a <= b && a <= c {
        a
    } else if b <= c {
        b
    } else {
        c
    }
}

pub open spec fn max_channel(c: u32) -> u32 {
    max3(red(c), green(c), blue(c))
}

pub open spec fn min_channel(c: u32) -> u32 {
    min3(red(c), green(c), blue(c))
}

/// Perceived brightness, 0 to 255.
pub open spec fn luma(c: u32) -> int {
    (red(c) * 30 + green(c) * 59 + blue(c) * 11) / 100
}

/// The colour bucket: the top four bits of each channel.
pub open spec fn bucket(c: u32) -> int {
    (red(c) / 16) * 256 + (green(c) / 16) * 16 + blue(c) / 16
}

pub proof fn lemma_channels(c: u32)
    ensures
        red(c) <= 255,
        green(c) <= 255,
        blue(c) <= 255,
        red(c & 0x00ff_ffffu32) == red(c),
        green(c & 0x00ff_ffffu32) == green(c),
        blue(c & 0x00ff_ffffu32) == blue(c),
{
    assert((c >> 16u32) & 0xffu32 <= 255 && (c >> 8u32) & 0xffu32 <= 255 && c & 0xffu32 <= 255
        && ((c & 0x00ff_ffffu32) >> 16u32) & 0xffu32 == (c >> 16u32) & 0xffu32 && ((c
        & 0x00ff_ffffu32) >> 8u32) & 0xffu32 == (c >> 8u32) & 0xffu32 && (c & 0x00ff_ffffu32)
        & 0xffu32 == c & 0xffu32) by (bit_vector);
}

/// The channels of a colour: red, green, blue, their maximum and minimum,
/// the luma and the bucket.
pub struct Channels {
    pub red: u32,
    pub green: u32,
    pub blue: u32,
    pub max: u32,
    pub min: u32,
    pub luma: u32,
    pub bucket: usize,
}

pub fn channels(c: u32) -> (r: Channels)
    ensures
        r.red == red(c),
        r.green == green(c),
        r.blue == blue(c),
        r.max == max_channel(c),
        r.min == min_channel(c),
        r.luma == luma(c),
        r.bucket == bucket(c),
        r.red <= 255,
        r.green <= 255,
        r.blue <= 255,
        r.bucket < 4096,
{
    proof {
        lemma_channels(c);
    }
    let red = (c >> 16) & 0xff;
    let green = (c >> 8) & 0xff;
    let blue = c & 0xff;
    let max = if red >= green && red >= blue {
        red
    } else if green >= blue {
        green
    } else {
        blue
    };
    let min = if red <= green && red <= blue {
        red
    } else if green <= blue {
        green
    } else {
        blue
    };
    let luma = (red * 30 + green * 59 + blue * 11) / 100;
    let bucket = ((red / 16) * 256 + (green / 16) * 16 + blue / 16) as usize;
    Channels { red, green, blue, max, min, luma, bucket }
}

/// A test on one pixel of a frame, by its column and row.
pub enum PixelTest {
    /// Every pixel.
    Any,
    /// A colour other than black.
    Nonzero,
    /// Black.
    Zero,
    /// A colour other than that of the pixel to the left.
    Change,
    /// A raw pixel, top byte included, other than zero.
    RawNonzero,
    /// A raw pixel other than the raw pixel to the left.
    RawChange,
    /// Bright red: red above 128 and above green and blue by more than 32.
    Warm,
    /// Red above green and blue by more than 32.
    RedDominant,
    /// A light, barely tinted pixel inside the given columns and rows.
    WarningText { x_start: usize, x_end: usize, y_start: usize, y_end: usize },
    /// A dark pixel from the given row on.
    BottomDark { y_start: usize },
    /// A light, barely tinted pixel from the given row on.
    BottomCaption { y_start: usize },
    /// A colour in the given bucket.
    Bucket { index: usize },
    /// A colour other than black with a channel of at least 0x80.
    Bright,
    /// Black, or a luma below 24.
    TitleDark,
    /// Strong red inside the given columns and rows.
    TitleRed { x_start: usize, x_end: usize, y_start: usize, y_end: usize },
    /// A light, barely tinted pixel inside the given columns and rows.
    TitleBright { x_start: usize, x_end: usize, y_start: usize, y_end: usize },
    /// Black, or no channel above the limit.
    Dark { limit: u32 },
    /// Any pixel at or right of the column and at or below the row.
    Region { x_start: usize, y_start: usize },
    /// A colour other than black in the region.
    RegionNonzero { x_start: usize, y_start: usize },
    /// Strong red in the region.
    RegionRed { x_start: usize, y_start: usize },
    /// A light, barely tinted pixel in the region.
    RegionBright { x_start: usize, y_start: usize },
    /// A luma of at least 148.
    Luma148,
    /// A channel of at least 160 and a spread of at least 96.
    HighSaturation,
    /// Red of at least 144 with green and blue at most 96.
    RedFlood,
    /// Red of at least 144, blue of at least 128, green at most 112.
    MagentaFlood,
    /// On an even row and an even column from the second on, a colour
    /// other than that two columns to the left.
    SampledChange,
    /// On an even row and an even column with `period` columns to its right.
    PeriodSample { period: usize },
    /// Such a pixel, not black, of the colour `period` columns to its right.
    PeriodMatch { period: usize },
    /// A colour other than black on a sampled column and row.
    Sampled { x_step: usize, y_step: usize },
}

impl PixelTest {
    pub open spec fn holds(self, f: FrameView, x: int, y: int) -> bool {
        let c = f.rgb(x, y);
        match self {
            PixelTest::Any => true,
            PixelTest::Nonzero => c != 0,
            PixelTest::Zero => c == 0,
            PixelTest::Change => x > 0 && f.rgb(x - 1, y) != c,
            PixelTest::RawNonzero => f.raw(x, y) != 0,
            PixelTest::RawChange => x > 0 && f.raw(x - 1, y) != f.raw(x, y),
            PixelTest::Warm => red(c) > 128 && red(c) > green(c) + 32 && red(c) > blue(c) + 32,
            PixelTest::RedDominant => red(c) > green(c) + 32 && red(c) > blue(c) + 32,
            PixelTest::WarningText { x_start, x_end, y_start, y_end } => x_start <= x < x_end
                && y_start <= y < y_end && luma(c) >= 142 && max_channel(c) - min_channel(c)
                <= 112,
            PixelTest::BottomDark { y_start } => y >= y_start && luma(c) < 40,
            PixelTest::BottomCaption { y_start } => y >= y_start && luma(c) >= 40 && luma(c)
                > 156 && max_channel(c) - min_channel(c) <= 96,
            PixelTest::Bucket { index } => bucket(c) == index,
            PixelTest::Bright => c != 0 && max_channel(c) >= 0x80,
            PixelTest::TitleDark => c == 0 || luma(c) < 24,
            PixelTest::TitleRed { x_start, x_end, y_start, y_end } => x_start <= x < x_end
                && y_start <= y < y_end && red(c) >= 128 && red(c) > green(c) + 48 && red(c)
                > blue(c) + 48,
            PixelTest::TitleBright { x_start, x_end, y_start, y_end } => x_start <= x < x_end
                && y_start <= y < y_end && luma(c) >= 150 && max_channel(c) - min_channel(c)
                <= 104,
            PixelTest::Dark { limit } => c == 0 || max_channel(c) <= limit,
            PixelTest::Region { x_start, y_start } => x >= x_start && y >= y_start,
            PixelTest::RegionNonzero { x_start, y_start } => x >= x_start && y >= y_start && c
                != 0,
            PixelTest::RegionRed { x_start, y_start } => x >= x_start && y >= y_start && red(c)
                >= 128 && red(c) > green(c) + 44 && red(c) > blue(c) + 44,
            PixelTest::RegionBright { x_start, y_start } => x >= x_start && y >= y_start && luma(c)
                >= 148 && max_channel(c) - min_channel(c) <= 112,
            PixelTest::Luma148 => luma(c) >= 148,
            PixelTest::HighSaturation => max_channel(f.raw(x, y)) >= 160 && max_channel(f.raw(x, y))
                - min_channel(f.raw(x, y)) >= 96,
            PixelTest::RedFlood => red(f.raw(x, y)) >= 144 && green(f.raw(x, y)) <= 96 && blue(
                f.raw(x, y),
            ) <= 96,
            PixelTest::MagentaFlood => red(f.raw(x, y)) >= 144 && blue(f.raw(x, y)) >= 128 && green(
                f.raw(x, y),
            ) <= 112,
            PixelTest::SampledChange => y % 2 == 0 && x % 2 == 0 && x >= 2 && f.rgb(x - 2, y) != c,
            PixelTest::PeriodSample { period } => y % 2 == 0 && x % 2 == 0 && x + period < f.width,
            PixelTest::PeriodMatch { period } => y % 2 == 0 && x % 2 == 0 && x + period < f.width
                && c != 0 && f.rgb(x + period, y) == c,
            PixelTest::Sampled { x_step, y_step } => c != 0 && (if x_step == 0 {
                x == 0
            } else {
                x % (x_step as int) == 0
            }) && (if y_step == 0 {
                y == 0
            } else {
                y % (y_step as int) == 0
            }),
        }
    }
}

/// The pixel index of column `x` of row `y` lies inside a complete frame.
pub proof fn lemma_index(f: FrameView, x: int, y: int)
    requires
        f.complete(),
        0 <= x < f.width,
        0 <= y < f.height,
    ensures
        0 <= y * f.width,
        y * f.width + x < f.width * f.height,
        y * f.width + f.width <= f.width * f.height,
        y * f.width + x < f.pixels.len(),
{
    let w = f.width as int;
    let h = f.height as int;
    assert(0 <= y * w) by (nonlinear_arith)
        requires
            0 <= y,
            0 <= w,
    ;
    assert(y * w + w <= w * h) by (nonlinear_arith)
        requires
            0 <= y < h,
            0 <= w,
    ;
}

/// Row `y` of a complete frame starts and ends inside its pixels.
pub proof fn lemma_row_start(f: FrameView, y: int)
    requires
        f.complete(),
        0 <= y < f.height,
    ensures
        0 <= y * f.width,
        y * f.width + f.width <= f.width * f.height,
        y * f.width + f.width <= f.pixels.len(),
{
    let w = f.width as int;
    let h = f.height as int;
    assert(0 <= y * w) by (nonlinear_arith)
        requires
            0 <= y,
            0 <= w,
    ;
    assert(y * w + w <= w * h) by (nonlinear_arith)
        requires
            0 <= y < h,
            0 <= w,
    ;
}

impl PixelTest {
    /// Tests the pixel at column `x` of row `y`, whose row starts at `row`.
    pub fn test(&self, f: &NativeDisplayFrame, x: usize, y: usize, row: usize) -> (r: bool)
        requires
            f@.complete(),
            x < f.width,
            y < f.height,
            row == y * f.width,
        ensures
            r == self.holds(f@, x as int, y as int),
    {
        proof {
            lemma_index(f@, x as int, y as int);
            if x > 0 {
                lemma_index(f@, x - 1, y as int);
            }
            if x >= 2 {
                lemma_index(f@, x - 2, y as int);
            }
        }
        let raw = f.pixels[row + x];
        let c = raw & 0x00ff_ffff;
        let ch = channels(c);
        match self {
            PixelTest::Any => true,
            PixelTest::Nonzero => c != 0,
            PixelTest::Zero => c == 0,
            PixelTest::Change => x > 0 && (f.pixels[row + x - 1] & 0x00ff_ffff) != c,
            PixelTest::RawNonzero => raw != 0,
            PixelTest::RawChange => x > 0 && f.pixels[row + x - 1] != raw,
            PixelTest::Warm => ch.red > 128 && ch.red > ch.green + 32 && ch.red > ch.blue + 32,
            PixelTest::RedDominant => ch.red > ch.green + 32 && ch.red > ch.blue + 32,
            PixelTest::WarningText { x_start, x_end, y_start, y_end } => *x_start <= x && x
                < *x_end && *y_start <= y && y < *y_end && ch.luma >= 142 && ch.max - ch.min <= 112,
            PixelTest::BottomDark { y_start } => y >= *y_start && ch.luma < 40,
            PixelTest::BottomCaption { y_start } => y >= *y_start && ch.luma >= 40 && ch.luma > 156
                && ch.max - ch.min <= 96,
            PixelTest::Bucket { index } => ch.bucket == *index,
            PixelTest::Bright => c != 0 && ch.max >= 0x80,
            PixelTest::TitleDark => c == 0 || ch.luma < 24,
            PixelTest::TitleRed { x_start, x_end, y_start, y_end } => *x_start <= x && x < *x_end
                && *y_start <= y && y < *y_end && ch.red >= 128 && ch.red > ch.green + 48 && ch.red
                > ch.blue + 48,
            PixelTest::TitleBright { x_start, x_end, y_start, y_end } => *x_start <= x && x
                < *x_end && *y_start <= y && y < *y_end && ch.luma >= 150 && ch.max - ch.min <= 104,
            PixelTest::Dark { limit } => c == 0 || ch.max <= *limit,
            PixelTest::Region { x_start, y_start } => x >= *x_start && y >= *y_start,
            PixelTest::RegionNonzero { x_start, y_start } => x >= *x_start && y >= *y_start && c
                != 0,
            PixelTest::RegionRed { x_start, y_start } => x >= *x_start && y >= *y_start && ch.red
                >= 128 && ch.red > ch.green + 44 && ch.red > ch.blue + 44,
            PixelTest::RegionBright { x_start, y_start } => x >= *x_start && y >= *y_start
                && ch.luma >= 148 && ch.max - ch.min <= 112,
            PixelTest::Luma148 => ch.luma >= 148,
            PixelTest::HighSaturation => {
                let rc = channels(raw);
                rc.max >= 160 && rc.max - rc.min >= 96
            },
            PixelTest::RedFlood => {
                let rc = channels(raw);
                rc.red >= 144 && rc.green <= 96 && rc.blue <= 96
            },
            PixelTest::MagentaFlood => {
                let rc = channels(raw);
                rc.red >= 144 && rc.blue >= 128 && rc.green <= 112
            },
            PixelTest::SampledChange => y % 2 == 0 && x % 2 == 0 && x >= 2 && (f.pixels[row + x
                - 2] & 0x00ff_ffff) != c,
            PixelTest::PeriodSample { period } => y % 2 == 0 && x % 2 == 0 && *period < f.width
                && x < f.width - *period,
            PixelTest::PeriodMatch { period } => {
                if y % 2 == 0 && x % 2 == 0 && *period < f.width && x < f.width - *period && c
                    != 0 {
                    proof {
                        lemma_index(f@, x + *period, y as int);
                    }
                    (f.pixels[row + x + *period] & 0x00ff_ffff) == c
                } else {
                    false
                }
            },
            PixelTest::Sampled { x_step, y_step } => c != 0 && (if *x_step == 0 {
                x == 0
            } else {
                x % *x_step == 0
            }) && (if *y_step == 0 {
                y == 0
            } else {
                y % *y_step == 0
            }),
        }
    }
}

/// `a * b`, or the largest machine word when that does not fit.
pub open spec fn sat_mul(a: int, b: int) -> int {
    if a * b > usize::MAX {
        usize::MAX as int
    } else {
        a * b
    }
}

/// `a + b`, or the largest machine word when that does not fit.
pub open spec fn sat_add(a: int, b: int) -> int {
    if a + b > usize::MAX {
        usize::MAX as int
    } else {
        a + b
    }
}

pub fn smul(a: usize, b: usize) -> (r: usize)
    ensures
        r == sat_mul(a as int, b as int),
{
    match a.checked_mul(b) {
        Some(v) => v,
        None => usize::MAX,
    }
}

pub fn sadd(a: usize, b: usize) -> (r: usize)
    ensures
        r == sat_add(a as int, b as int),
{
    a.saturating_add(b)
}

pub open spec fn max1(a: int) -> int {
    if a >= 1 {
        a
    } else {
        1
    }
}

/// The number of columns below `n` of row `y` that pass `t`.
pub open spec fn row_count(f: FrameView, t: PixelTest, y: int, n: int) -> nat
    decreases n,
{
    if n <= 0 {
        0
    } else {
        row_count(f, t, y, n - 1) + if t.holds(f, n - 1, y) {
            1nat
        } else {
            0nat
        }
    }
}

/// The number of pixels of the rows below `rows` that pass `t`.
pub open spec fn grid_count(f: FrameView, t: PixelTest, rows: int) -> nat
    decreases rows,
{
    if rows <= 0 {
        0
    } else {
        grid_count(f, t, rows - 1) + row_count(f, t, rows - 1, f.width as int)
    }
}

/// The number of pixels of the whole frame that pass `t`.
pub open spec fn frame_count(f: FrameView, t: PixelTest) -> nat {
    grid_count(f, t, f.height as int)
}

/// A row is occupied when at least `cutoff` of its pixels pass `t`.
pub open spec fn row_occupied(f: FrameView, t: PixelTest, cutoff: int, y: int) -> bool {
    row_count(f, t, y, f.width as int) >= cutoff
}

/// The number of occupied rows below `rows`.
pub open spec fn occupied_rows(f: FrameView, t: PixelTest, cutoff: int, rows: int) -> nat
    decreases rows,
{
    if rows <= 0 {
        0
    } else {
        occupied_rows(f, t, cutoff, rows - 1) + if row_occupied(f, t, cutoff, rows - 1) {
            1nat
        } else {
            0nat
        }
    }
}

/// The first occupied row below `rows`, if any.
pub open spec fn first_occupied(f: FrameView, t: PixelTest, cutoff: int, rows: int) -> Option<
    int,
>
    decreases rows,
{
    if rows <= 0 {
        None
    } else {
        match first_occupied(f, t, cutoff, rows - 1) {
            Some(y) => Some(y),
            None => if row_occupied(f, t, cutoff, rows - 1) {
                Some(rows - 1)
            } else {
                None
            },
        }
    }
}

/// The last occupied row below `rows`, if any.
pub open spec fn last_occupied(f: FrameView, t: PixelTest, cutoff: int, rows: int) -> Option<
    int,
>
    decreases rows,
{
    if rows <= 0 {
        None
    } else if row_occupied(f, t, cutoff, rows - 1) {
        Some(rows - 1)
    } else {
        last_occupied(f, t, cutoff, rows - 1)
    }
}

/// The rows from the first to the last occupied one, ends included; zero
/// when no row is occupied.
pub open spec fn occupied_span(f: FrameView, t: PixelTest, cutoff: int) -> int {
    match (
        first_occupied(f, t, cutoff, f.height as int),
        last_occupied(f, t, cutoff, f.height as int),
    ) {
        (Some(first), Some(last)) => last - first + 1,
        _ => 0,
    }
}

pub proof fn lemma_row_count_bound(f: FrameView, t: PixelTest, y: int, n: int)
    ensures
        n >= 0 ==> row_count(f, t, y, n) <= n,
    decreases n,
{
    if n > 0 {
        lemma_row_count_bound(f, t, y, n - 1);
    }
}

pub proof fn lemma_grid_count_bound(f: FrameView, t: PixelTest, rows: int)
    requires
        rows >= 0,
    ensures
        grid_count(f, t, rows) <= rows * f.width,
    decreases rows,
{
    if rows > 0 {
        lemma_grid_count_bound(f, t, rows - 1);
        lemma_row_count_bound(f, t, rows - 1, f.width as int);
        assert((rows - 1) * f.width + f.width == rows * f.width) by (nonlinear_arith);
    }
}

pub proof fn lemma_frame_count_fits(f: FrameView, t: PixelTest, rows: int)
    requires
        f.complete(),
        0 <= rows <= f.height,
    ensures
        grid_count(f, t, rows) <= f.width * f.height,
        f.width * f.height <= usize::MAX,
{
    lemma_grid_count_bound(f, t, rows);
    assert(rows * f.width <= f.width * f.height) by (nonlinear_arith)
        requires
            0 <= rows <= f.height,
    ;
}

pub proof fn lemma_occupied_rows_bound(f: FrameView, t: PixelTest, cutoff: int, rows: int)
    ensures
        rows >= 0 ==> occupied_rows(f, t, cutoff, rows) <= rows,
    decreases rows,
{
    if rows > 0 {
        lemma_occupied_rows_bound(f, t, cutoff, rows - 1);
    }
}

pub proof fn lemma_span_bounds(f: FrameView, t: PixelTest, cutoff: int, rows: int)
    ensures
        first_occupied(f, t, cutoff, rows) is Some <==> last_occupied(f, t, cutoff, rows) is Some,
        first_occupied(f, t, cutoff, rows) is Some ==> 0 <= first_occupied(
            f,
            t,
            cutoff,
            rows,
        )->0 <= last_occupied(f, t, cutoff, rows)->0 < rows,
    decreases rows,
{
    if rows > 0 {
        lemma_span_bounds(f, t, cutoff, rows - 1);
    }
}

/// The number of pixels of row `y` that pass `t`.
pub fn count_in_row(f: &NativeDisplayFrame, t: &PixelTest, y: usize) -> (r: usize)
    requires
        f@.complete(),
        y < f.height,
    ensures
        r == row_count(f@, *t, y as int, f.width as int),
        r <= f.width,
{
    proof {
        lemma_row_start(f@, y as int);
    }
    let row = y * f.width;
    let mut count: usize = 0;
    let mut x: usize = 0;
    while x < f.width
        invariant
            f@.complete(),
            y < f.height,
            row == y * f.width,
            x <= f.width,
            count == row_count(f@, *t, y as int, x as int),
        decreases f.width - x,
    {
        proof {
            lemma_row_count_bound(f@, *t, y as int, x as int);
        }
        if t.test(f, x, y, row) {
            count = count + 1;
        }
        x = x + 1;
    }
    proof {
        lemma_row_count_bound(f@, *t, y as int, f.width as int);
    }
    count
}

/// The number of pixels of rows `start` to `end`, `end` excluded, that
/// pass `t`.
pub fn count_in_rows(f: &NativeDisplayFrame, t: &PixelTest, start: usize, end: usize) -> (r: usize)
    requires
        f@.complete(),
        start <= end <= f.height,
    ensures
        r == grid_count(f@, *t, end as int) - grid_count(f@, *t, start as int),
{
    let mut count: usize = 0;
    let mut y: usize = start;
    proof {
        lemma_grid_monotone(f@, *t, start as int, end as int);
    }
    while y < end
        invariant
            f@.complete(),
            start <= y <= end <= f.height,
            count == grid_count(f@, *t, y as int) - grid_count(f@, *t, start as int),
            grid_count(f@, *t, start as int) <= grid_count(f@, *t, y as int),
        decreases end - y,
    {
        let n = count_in_row(f, t, y);
        proof {
            lemma_frame_count_fits(f@, *t, y + 1);
        }
        count = count + n;
        y = y + 1;
    }
    count
}

pub proof fn lemma_grid_monotone(f: FrameView, t: PixelTest, a: int, b: int)
    requires
        0 <= a <= b,
    ensures
        grid_count(f, t, a) <= grid_count(f, t, b),
    decreases b - a,
{
    if a < b {
        lemma_grid_monotone(f, t, a, b - 1);
    }
}

/// The number of pixels of the frame that pass `t`.
pub fn count_pixels(f: &NativeDisplayFrame, t: PixelTest) -> (r: usize)
    requires
        f@.complete(),
    ensures
        r == frame_count(f@, t),
{
    count_in_rows(f, &t, 0, f.height)
}

/// Row statistics: the number of occupied rows and the span from the
/// first occupied row to the last.
pub struct RowStats {
    pub occupied: usize,
    pub first: Option<usize>,
    pub last: Option<usize>,
}

impl RowStats {
    pub open spec fn span(self) -> int {
        match (self.first, self.last) {
            (Some(first), Some(last)) => last - first + 1,
            _ => 0,
        }
    }
}

pub open spec fn opt_int(v: Option<usize>) -> Option<int> {
    match v {
        Some(x) => Some(x as int),
        None => None,
    }
}

/// Which rows hold at least `cutoff` pixels that pass `t`.
pub fn row_stats(f: &NativeDisplayFrame, t: &PixelTest, cutoff: usize) -> (r: RowStats)
    requires
        f@.complete(),
    ensures
        r.occupied == occupied_rows(f@, *t, cutoff as int, f.height as int),
        opt_int(r.first) == first_occupied(f@, *t, cutoff as int, f.height as int),
        opt_int(r.last) == last_occupied(f@, *t, cutoff as int, f.height as int),
        r.span() == occupied_span(f@, *t, cutoff as int),
        r.occupied <= f.height,
        r.first is Some <==> r.last is Some,
        r.first is Some ==> r.first->0 <= r.last->0 < f.height,
{
    let mut occupied: usize = 0;
    let mut first: Option<usize> = None;
    let mut last: Option<usize> = None;
    let mut y: usize = 0;
    while y < f.height
        invariant
            f@.complete(),
            y <= f.height,
            occupied == occupied_rows(f@, *t, cutoff as int, y as int),
            opt_int(first) == first_occupied(f@, *t, cutoff as int, y as int),
            opt_int(last) == last_occupied(f@, *t, cutoff as int, y as int),
        decreases f.height - y,
    {
        proof {
            lemma_occupied_rows_bound(f@, *t, cutoff as int, y as int);
        }
        let n = count_in_row(f, t, y);
        if n >= cutoff {
            occupied = occupied + 1;
            if first.is_none() {
                first = Some(y);
            }
            last = Some(y);
        }
        y = y + 1;
    }
    proof {
        lemma_occupied_rows_bound(f@, *t, cutoff as int, f.height as int);
        lemma_span_bounds(f@, *t, cutoff as int, f.height as int);
    }
    RowStats { occupied, first, last }
}

/// The span of `stats` as a machine integer.
pub fn span_of(stats: &RowStats) -> (r: usize)
    requires
        stats.first is Some ==> stats.last is Some && stats.first->0 <= stats.last->0
            < usize::MAX,
    ensures
        r == stats.span(),
{
    match (stats.first, stats.last) {
        (Some(first), Some(last)) => last - first + 1,
        _ => 0,
    }
}

/// Adds `c` to the distinct colours `seen` while fewer than `cap` are held.
pub open spec fn note_color(seen: Seq<u32>, c: u32, cap: int) -> Seq<u32> {
    if seen.len() < cap && !seen.contains(c) {
        seen.push(c)
    } else {
        seen
    }
}

/// The distinct colours, in order of first appearance and at most `cap` of
/// them, of the first `n` pixels of row `y` that pass `t`, after `seen`.
pub open spec fn colors_in_row(
    f: FrameView,
    t: PixelTest,
    cap: int,
    y: int,
    n: int,
    seen: Seq<u32>,
) -> Seq<u32>
    decreases n,
{
    if n <= 0 {
        seen
    } else {
        let before = colors_in_row(f, t, cap, y, n - 1, seen);
        if t.holds(f, n - 1, y) {
            note_color(before, f.rgb(n - 1, y), cap)
        } else {
            before
        }
    }
}

/// The distinct colours, in order of first appearance and at most `cap` of
/// them, of the pixels of the rows below `rows` that pass `t`.
pub open spec fn colors_in_rows(f: FrameView, t: PixelTest, cap: int, rows: int) -> Seq<u32>
    decreases rows,
{
    if rows <= 0 {
        Seq::empty()
    } else {
        colors_in_row(f, t, cap, rows - 1, f.width as int, colors_in_rows(f, t, cap, rows - 1))
    }
}

/// The number of distinct colours, up to `cap`, among the pixels of the
/// frame that pass `t`.
pub open spec fn distinct_colors(f: FrameView, t: PixelTest, cap: int) -> int {
    colors_in_rows(f, t, cap, f.height as int).len() as int
}

pub proof fn lemma_colors_in_row_bound(
    f: FrameView,
    t: PixelTest,
    cap: int,
    y: int,
    n: int,
    seen: Seq<u32>,
)
    requires
        seen.len() <= cap,
    ensures
        colors_in_row(f, t, cap, y, n, seen).len() <= cap,
    decreases n,
{
    if n > 0 {
        lemma_colors_in_row_bound(f, t, cap, y, n - 1, seen);
    }
}

pub proof fn lemma_colors_in_rows_bound(f: FrameView, t: PixelTest, cap: int, rows: int)
    requires
        cap >= 0,
    ensures
        colors_in_rows(f, t, cap, rows).len() <= cap,
    decreases rows,
{
    if rows > 0 {
        lemma_colors_in_rows_bound(f, t, cap, rows - 1);
        lemma_colors_in_row_bound(
            f,
            t,
            cap,
            rows - 1,
            f.width as int,
            colors_in_rows(f, t, cap, rows - 1),
        );
    }
}

fn contains_color(seen: &Vec<u32>, c: u32) -> (r: bool)
    ensures
        r == seen@.contains(c),
{
    let mut i: usize = 0;
    while i < seen.len()
        invariant
            i <= seen.len(),
            forall|j: int| 0 <= j < i ==> seen@[j] != c,
        decreases seen.len() - i,
    {
        if seen[i] == c {
            assert(seen@[i as int] == c);
            return true;
        }
        i = i + 1;
    }
    false
}

/// The number of distinct colours, up to `cap`, among the pixels of the
/// frame that pass `t`.
pub fn count_distinct_colors(f: &NativeDisplayFrame, t: &PixelTest, cap: usize) -> (r: usize)
    requires
        f@.complete(),
    ensures
        r == distinct_colors(f@, *t, cap as int),
        r <= cap,
{
    let mut seen: Vec<u32> = Vec::new();
    let mut y: usize = 0;
    while y < f.height
        invariant
            f@.complete(),
            y <= f.height,
            seen@ == colors_in_rows(f@, *t, cap as int, y as int),
            seen.len() <= cap,
        decreases f.height - y,
    {
        proof {
            lemma_row_start(f@, y as int);
        }
        let row = y * f.width;
        let ghost start = seen@;
        let mut x: usize = 0;
        while x < f.width
            invariant
                f@.complete(),
                y < f.height,
                row == y * f.width,
                x <= f.width,
                seen@ == colors_in_row(f@, *t, cap as int, y as int, x as int, start),
                start.len() <= cap,
                seen.len() <= cap,
            decreases f.width - x,
        {
            if t.test(f, x, y, row) {
                proof {
                    lemma_index(f@, x as int, y as int);
                }
                let c = f.pixels[row + x] & 0x00ff_ffff;
                if seen.len() < cap && !contains_color(&seen, c) {
                    seen.push(c);
                }
            }
            x = x + 1;
        }
        y = y + 1;
    }
    seen.len()
}

/// The largest number of pixels of the frame that share a colour bucket.
pub open spec fn dominant_bucket(f: FrameView) -> int {
    max_bucket_count(f, 4096)
}

/// The largest count among the buckets below `n`.
pub open spec fn max_bucket_count(f: FrameView, n: int) -> int
    decreases n,
{
    if n <= 0 {
        0
    } else {
        let rest = max_bucket_count(f, n - 1);
        let here = frame_count(f, PixelTest::Bucket { index: (n - 1) as usize }) as int;
        if here > rest {
            here
        } else {
            rest
        }
    }
}

/// The size of the most common colour bucket.
pub fn count_dominant_bucket(f: &NativeDisplayFrame) -> (r: usize)
    requires
        f@.complete(),
    ensures
        r == dominant_bucket(f@),
{
    let mut buckets: Vec<usize> = Vec::new();
    while buckets.len() < 4096
        invariant
            buckets.len() <= 4096,
            forall|b: int| 0 <= b < buckets.len() ==> buckets@[b] == 0,
        decreases 4096 - buckets.len(),
    {
        buckets.push(0);
    }
    let mut y: usize = 0;
    while y < f.height
        invariant
            f@.complete(),
            y <= f.height,
            buckets.len() == 4096,
            forall|b: int|
                0 <= b < 4096 ==> buckets@[b] == grid_count(
                    f@,
                    PixelTest::Bucket { index: b as usize },
                    y as int,
                ),
        decreases f.height - y,
    {
        proof {
            lemma_row_start(f@, y as int);
        }
        let row = y * f.width;
        let mut x: usize = 0;
        while x < f.width
            invariant
                f@.complete(),
                y < f.height,
                row == y * f.width,
                x <= f.width,
                buckets.len() == 4096,
                forall|b: int|
                    0 <= b < 4096 ==> buckets@[b] == grid_count(
                        f@,
                        PixelTest::Bucket { index: b as usize },
                        y as int,
                    ) + row_count(f@, PixelTest::Bucket { index: b as usize }, y as int, x as int),
            decreases f.width - x,
        {
            proof {
                lemma_index(f@, x as int, y as int);
            }
            let ch = channels(f.pixels[row + x] & 0x00ff_ffff);
            let k = ch.bucket;
            proof {
                lemma_frame_count_fits(f@, PixelTest::Bucket { index: k }, y + 1);
                lemma_row_count_bound(f@, PixelTest::Bucket { index: k }, y as int, x as int);
                lemma_grid_count_bound(f@, PixelTest::Bucket { index: k }, y as int);
                assert(y * f.width + x < f.width * f.height);
                assert forall|b: int| 0 <= b < 4096 implies #[trigger] row_count(
                    f@,
                    PixelTest::Bucket { index: b as usize },
                    y as int,
                    x + 1,
                ) == row_count(f@, PixelTest::Bucket { index: b as usize }, y as int, x as int)
                    + if b == k {
                    1int
                } else {
                    0int
                } by {
                    assert(PixelTest::Bucket { index: b as usize }.holds(f@, x as int, y as int)
                        == (b == k));
                }
            }
            let old_count = buckets[k];
            buckets.set(k, old_count + 1);
            x = x + 1;
        }
        y = y + 1;
    }
    let mut best: usize = 0;
    let mut b: usize = 0;
    while b < 4096
        invariant
            b <= 4096,
            buckets.len() == 4096,
            forall|c: int|
                0 <= c < 4096 ==> buckets@[c] == frame_count(
                    f@,
                    PixelTest::Bucket { index: c as usize },
                ),
            best == max_bucket_count(f@, b as int),
        decreases 4096 - b,
    {
        if buckets[b] > best {
            best = buckets[b];
        }
        b = b + 1;
    }
    best
}

} // verus!
