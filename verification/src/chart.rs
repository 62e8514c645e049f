//! Chart rendering: the cumulative-count series are computed and proved
//! here; the rasterisation itself and the PNG encoding are calls into
//! plotters and image behind trusted wrappers.  The wrappers' sources show
//! that, on the inputs this module hands them, none of the calls can fail,
//! so every renderer promises success and pins its bytes: the PNG encoding
//! of the white canvas with exactly the computed series drawn on it.

use vstd::prelude::*;

use crate::date::SCAN_ORDINAL_CAP;
use crate::history::{JoinHistory, count_le};
use plotters::drawing::IntoDrawingArea;

verus! {

/// Width of the growth-prediction chart.
pub const GROWTH_WIDTH: u32 = 800;

/// Height of the growth-prediction chart.
pub const GROWTH_HEIGHT: u32 = 450;

/// Width of the per-milestone history chart.
pub const MILESTONE_WIDTH: u32 = 800;

/// Height of the per-milestone history chart.
pub const MILESTONE_HEIGHT: u32 = 300;

/// Width of the ranged member-history chart.
pub const RANGE_WIDTH: u32 = 1200;

/// Height of the ranged member-history chart.
pub const RANGE_HEIGHT: u32 = 400;

/// Rendering failed; the caller treats this as a defect, not as a missing
/// forecast.  The renderers prove they never return it; the variant keeps
/// the fatal-error shape of the rendering interface.
#[derive(Clone, Copy, Debug, PartialEq, Eq, Structural)]
pub enum RenderError {
    Draw,
    Encode,
}

/// The PNG encoding of an RGB pixel buffer with the given dimensions.
pub uninterp spec fn png_encoding(pixels: Seq<u8>, width: int, height: int) -> Seq<u8>;

/// The pixel buffer after one line series is drawn on it: the polyline
/// through `pts` in the given colour, on axes spanning `0..x_max` and
/// `0..y_max` with the fixed margin and label areas every chart of the
/// library uses.  Rasterisation is a function of these arguments alone.
pub uninterp spec fn line_rendering(
    pixels: Seq<u8>,
    width: int,
    height: int,
    x_max: int,
    y_max: int,
    pts: Seq<(usize, i32)>,
    red: u8,
    green: u8,
    blue: u8,
) -> Seq<u8>;

/// An all-white RGB canvas.
pub open spec fn white_canvas(width: int, height: int) -> Seq<u8> {
    Seq::new((3 * width * height) as nat, |i: int| 255u8)
}

/// Bytes that are the PNG encoding of some image with the given dimensions.
pub open spec fn is_png_with_dims(bytes: Seq<u8>, width: int, height: int) -> bool {
    exists|p: Seq<u8>|
        p.len() == 3 * width * height && bytes == png_encoding(p, width, height)
}

/// Largest value in the series, at least 0.
pub open spec fn seq_max0(s: Seq<i32>) -> int
    decreases s.len(),
{
    if s.len() == 0 {
        0
    } else if s.last() > seq_max0(s.drop_last()) {
        s.last() as int
    } else {
        seq_max0(s.drop_last())
    }
}

/// The cumulative-count series over `len` days from `start`.
pub open spec fn counts_values(days: Seq<i64>, start: int, len: int) -> Seq<i32> {
    Seq::new(len as nat, |i: int| count_le(days, start + i) as i32)
}

/// Each value paired with its index, as handed to the plotting backend.
pub open spec fn series_of(values: Seq<i32>) -> Seq<(usize, i32)> {
    Seq::new(values.len(), |i: int| (i as usize, values[i]))
}

/// The chart's vertical extent: the series maximum plus a margin, clipped
/// to the coordinate type.
pub open spec fn clipped_top(m: int, margin: int) -> int {
    if m + margin <= 0x7fffffff {
        m + margin
    } else {
        0x7fffffff
    }
}

/// The growth-prediction chart's pixels: the white canvas with the actual
/// cumulative series drawn in blue and the projected series in red, over
/// the days from `first` through `predicted`.
pub open spec fn growth_chart_pixels(
    days: Seq<i64>,
    first: int,
    predicted: int,
    projected: Seq<i32>,
) -> Seq<u8> {
    let n = predicted - first + 1;
    let actual = counts_values(days, first, n);
    let top = clipped_top(seq_max0(actual), 15);
    line_rendering(
        line_rendering(
            white_canvas(GROWTH_WIDTH as int, GROWTH_HEIGHT as int),
            GROWTH_WIDTH as int,
            GROWTH_HEIGHT as int,
            n,
            top,
            series_of(actual),
            0u8,
            0u8,
            255u8,
        ),
        GROWTH_WIDTH as int,
        GROWTH_HEIGHT as int,
        n,
        top,
        series_of(projected),
        255u8,
        0u8,
        0u8,
    )
}

/// The per-milestone chart's pixels: the white canvas with the cumulative
/// series drawn in blue over the days from the first to the last join.
pub open spec fn milestone_chart_pixels(days: Seq<i64>) -> Seq<u8> {
    let n = days.last() - days[0] + 1;
    let actual = counts_values(days, days[0] as int, n);
    let top = clipped_top(seq_max0(actual), 2);
    line_rendering(
        white_canvas(MILESTONE_WIDTH as int, MILESTONE_HEIGHT as int),
        MILESTONE_WIDTH as int,
        MILESTONE_HEIGHT as int,
        n,
        top,
        series_of(actual),
        0u8,
        0u8,
        255u8,
    )
}

/// The ranged member-history chart's pixels: the white canvas with the
/// cumulative series drawn in blue over the days from `start` through `end`.
pub open spec fn range_chart_pixels(days: Seq<i64>, start: int, end: int) -> Seq<u8> {
    let n = end - start + 1;
    let counts = counts_values(days, start, n);
    let top = clipped_top(seq_max0(counts), 1);
    line_rendering(
        white_canvas(RANGE_WIDTH as int, RANGE_HEIGHT as int),
        RANGE_WIDTH as int,
        RANGE_HEIGHT as int,
        n,
        top,
        series_of(counts),
        0u8,
        0u8,
        255u8,
    )
}

/// Relies on `image::RgbImage::from_raw`, which accepts a buffer of exactly
/// `3 * width * height` bytes, and `image::DynamicImage::write_to` with the
/// PNG format.  For non-zero dimensions and an exactly-sized buffer the PNG
/// writer targeting an in-memory vector cannot fail, and it always begins
/// with the 8-byte PNG signature; the bytes depend on the buffer and
/// dimensions alone.
#[verifier::external_body]
fn encode_png(buf: Vec<u8>, width: u32, height: u32) -> (r: Result<Vec<u8>, RenderError>)
    requires
        buf@.len() == 3 * width * height,
        1 <= width,
        1 <= height,
        width * height <= 0x100_0000,
    ensures
        r is Ok,
        r matches Ok(v) ==> v@ == png_encoding(buf@, width as int, height as int) && v@.len() >= 8,
{
    let image = match image::RgbImage::from_raw(width, height, buf) {
        Some(i) => i,
        None => return Err(RenderError::Encode),
    };
    let mut out: Vec<u8> = Vec::new();
    let mut cursor = std::io::Cursor::new(&mut out);
    match image::DynamicImage::ImageRgb8(image).write_to(&mut cursor, image::ImageOutputFormat::Png)
    {
        Ok(()) => Ok(out),
        Err(_) => Err(RenderError::Encode),
    }
}

/// Relies on plotters-bitmap's `BitMapBackend::with_buffer`, which accepts a
/// buffer of at least `3 * width * height` bytes, and plotters'
/// `DrawingArea::fill`: for an opaque colour the backend's filled-rectangle
/// path cannot fail and overwrites every byte of the canvas with the
/// colour's value, here white.
#[verifier::external_body]
fn fill_canvas(buf: &mut Vec<u8>, width: u32, height: u32) -> (r: Result<(), RenderError>)
    requires
        old(buf)@.len() == 3 * width * height,
        1 <= width,
        1 <= height,
        width * height <= 0x100_0000,
    ensures
        r is Ok,
        final (buf)@ == white_canvas(width as int, height as int),
{
    let area = plotters_bitmap::BitMapBackend::with_buffer(buf.as_mut_slice(), (width, height))
        .into_drawing_area();
    area.fill(&plotters::style::WHITE).map_err(|_| RenderError::Draw)
}

/// Relies on plotters' `ChartBuilder`, `build_cartesian_2d` and `LineSeries`
/// on a plotters-bitmap `BitMapBackend`: draws one line series through the
/// given points.  Without a caption the layout computation has no failing
/// path, and the bitmap backend's pixel writes cannot fail (out-of-range
/// points are clipped), so the call succeeds; the resulting pixels are named
/// `line_rendering`, a function of the arguments alone.
#[verifier::external_body]
fn draw_line_series(
    buf: &mut Vec<u8>,
    width: u32,
    height: u32,
    x_max: usize,
    y_max: i32,
    pts: &Vec<(usize, i32)>,
    red: u8,
    green: u8,
    blue: u8,
) -> (r: Result<(), RenderError>)
    requires
        old(buf)@.len() == 3 * width * height,
        1 <= width,
        1 <= height,
        width * height <= 0x100_0000,
        1 <= x_max,
        1 <= y_max,
    ensures
        r is Ok,
        final (buf)@ == line_rendering(
            old(buf)@,
            width as int,
            height as int,
            x_max as int,
            y_max as int,
            pts@,
            red,
            green,
            blue,
        ),
        final (buf)@.len() == old(buf)@.len(),
{
    let area = plotters_bitmap::BitMapBackend::with_buffer(buf.as_mut_slice(), (width, height))
        .into_drawing_area();
    let mut builder = plotters::chart::ChartBuilder::on(&area);
    builder.margin(10).x_label_area_size(35).y_label_area_size(40);
    let mut chart = builder.build_cartesian_2d(0usize..x_max, 0i32..y_max).map_err(
        |_| RenderError::Draw,
    )?;
    let style = plotters::style::RGBColor(red, green, blue);
    let series = plotters::series::LineSeries::new(pts.iter().copied(), &style);
    chart.draw_series(series).map(|_| ()).map_err(|_| RenderError::Draw)
}

/// An all-zero byte buffer of length `n`.
fn zero_buffer(n: usize) -> (r: Vec<u8>)
    ensures
        r@.len() == n,
{
    let mut out: Vec<u8> = Vec::new();
    let mut i: usize = 0;
    while i < n
        invariant
            i <= n,
            out@.len() == i,
        decreases n - i,
    {
        out.push(0u8);
        i = i + 1;
    }
    out
}

/// Pairs each index with its value, for handing a series to the plotting
/// backend.
fn series_points(values: &Vec<i32>) -> (r: Vec<(usize, i32)>)
    ensures
        r@ == series_of(values@),
{
    let mut out: Vec<(usize, i32)> = Vec::new();
    let n = values.len();
    let mut i: usize = 0;
    while i < n
        invariant
            n == values@.len(),
            i <= n,
            out@.len() == i,
            forall|j: int| 0 <= j < i ==> out@[j] == (j as usize, values@[j]),
        decreases n - i,
    {
        out.push((i, values[i]));
        i = i + 1;
    }
    proof {
        assert(out@ =~= series_of(values@));
    }
    out
}

/// Largest value in the series, or 0 for an empty series.
fn max_value(values: &Vec<i32>) -> (r: i32)
    requires
        forall|i: int| 0 <= i < values@.len() ==> 0 <= #[trigger] values@[i],
    ensures
        r == seq_max0(values@),
        0 <= r,
        forall|i: int| 0 <= i < values@.len() ==> #[trigger] values@[i] <= r,
{
    let mut m: i32 = 0;
    let n = values.len();
    let mut i: usize = 0;
    while i < n
        invariant
            n == values@.len(),
            i <= n,
            0 <= m,
            m == seq_max0(values@.take(i as int)),
            forall|j: int| 0 <= j < i ==> #[trigger] values@[j] <= m,
        decreases n - i,
    {
        proof {
            assert(values@.take(i + 1).drop_last() =~= values@.take(i as int));
        }
        if values[i] > m {
            m = values[i];
        }
        i = i + 1;
    }
    proof {
        assert(values@.take(n as int) =~= values@);
    }
    m
}

/// Renders the growth-prediction chart: the actual cumulative series in blue
/// and the projected series in red, from the first join day through the
/// predicted day, on the fixed 800 by 450 canvas.  Rendering always
/// succeeds and the bytes are the PNG encoding of exactly that drawing.
pub fn render_growth_chart(h: &JoinHistory, predicted_day: i64, projected: &Vec<i32>) -> (r:
    Result<Vec<u8>, RenderError>)
    requires
        h.wf(),
        h.days_view().len() > 0,
        h.days_view()[0] <= predicted_day <= SCAN_ORDINAL_CAP,
        projected@.len() == predicted_day - h.days_view()[0] + 1,
    ensures
        r is Ok,
        r matches Ok(v) ==> {
            &&& v@ == png_encoding(
                growth_chart_pixels(
                    h.days_view(),
                    h.days_view()[0] as int,
                    predicted_day as int,
                    projected@,
                ),
                GROWTH_WIDTH as int,
                GROWTH_HEIGHT as int,
            )
            &&& v@.len() >= 8
            &&& is_png_with_dims(v@, GROWTH_WIDTH as int, GROWTH_HEIGHT as int)
        },
{
    let first = h.first_day();
    let days_n: usize = (predicted_day - first) as usize + 1;
    let actual = h.daily_counts(first, days_n);
    proof {
        assert forall|i: int| 0 <= i < actual@.len() implies 0 <= #[trigger] actual@[i] by {
            crate::history::lemma_count_le_bounds(h.days_view(), first + i);
        }
        assert(actual@ =~= counts_values(h.days_view(), first as int, days_n as int));
    }
    let max_y = max_value(&actual);
    let y_top: i32 = if max_y <= 0x7fffffff - 15 {
        max_y + 15
    } else {
        0x7fffffff
    };
    let mut buf = zero_buffer((3 * GROWTH_WIDTH * GROWTH_HEIGHT) as usize);
    fill_canvas(&mut buf, GROWTH_WIDTH, GROWTH_HEIGHT)?;
    let actual_pts = series_points(&actual);
    draw_line_series(
        &mut buf,
        GROWTH_WIDTH,
        GROWTH_HEIGHT,
        days_n,
        y_top,
        &actual_pts,
        0,
        0,
        255,
    )?;
    let projected_pts = series_points(projected);
    draw_line_series(
        &mut buf,
        GROWTH_WIDTH,
        GROWTH_HEIGHT,
        days_n,
        y_top,
        &projected_pts,
        255,
        0,
        0,
    )?;
    let ghost pixels = buf@;
    proof {
        assert(pixels == growth_chart_pixels(
            h.days_view(),
            first as int,
            predicted_day as int,
            projected@,
        ));
    }
    let out = encode_png(buf, GROWTH_WIDTH, GROWTH_HEIGHT)?;
    proof {
        assert(pixels.len() == 3 * GROWTH_WIDTH * GROWTH_HEIGHT);
        assert(out@ == png_encoding(pixels, GROWTH_WIDTH as int, GROWTH_HEIGHT as int));
    }
    Ok(out)
}

/// Renders the per-milestone history chart: the actual cumulative series in
/// blue from the first to the last join day, on the fixed 800 by 300
/// canvas.  Rendering always succeeds; the result is `None` exactly for an
/// empty history, mirroring the notifier, which sends nothing in that case.
#[verifier::rlimit(50)]
pub fn render_milestone_chart(h: &JoinHistory) -> (r: Result<Option<Vec<u8>>, RenderError>)
    requires
        h.wf(),
    ensures
        r is Ok,
        r matches Ok(o) ==> (o is Some <==> h.days_view().len() > 0),
        r matches Ok(Some(v)) ==> {
            &&& v@ == png_encoding(
                milestone_chart_pixels(h.days_view()),
                MILESTONE_WIDTH as int,
                MILESTONE_HEIGHT as int,
            )
            &&& v@.len() >= 8
            &&& is_png_with_dims(v@, MILESTONE_WIDTH as int, MILESTONE_HEIGHT as int)
        },
{
    if h.len() == 0 {
        return Ok(None);
    }
    let first = h.first_day();
    let last = h.last_day();
    proof {
        crate::history::lemma_days_sorted(*h, 0, h.days_view().len() - 1);
    }
    let days_n: usize = (last - first) as usize + 1;
    let actual = h.daily_counts(first, days_n);
    proof {
        assert forall|i: int| 0 <= i < actual@.len() implies 0 <= #[trigger] actual@[i] by {
            crate::history::lemma_count_le_bounds(h.days_view(), first + i);
        }
        assert(actual@ =~= counts_values(h.days_view(), first as int, days_n as int));
    }
    let max_y = max_value(&actual);
    let y_top: i32 = if max_y <= 0x7fffffff - 2 {
        max_y + 2
    } else {
        0x7fffffff
    };
    let mut buf = zero_buffer((3 * MILESTONE_WIDTH * MILESTONE_HEIGHT) as usize);
    fill_canvas(&mut buf, MILESTONE_WIDTH, MILESTONE_HEIGHT)?;
    let actual_pts = series_points(&actual);
    draw_line_series(
        &mut buf,
        MILESTONE_WIDTH,
        MILESTONE_HEIGHT,
        days_n,
        y_top,
        &actual_pts,
        0,
        0,
        255,
    )?;
    let ghost pixels = buf@;
    proof {
        assert(pixels == milestone_chart_pixels(h.days_view()));
    }
    let out = encode_png(buf, MILESTONE_WIDTH, MILESTONE_HEIGHT)?;
    proof {
        assert(out@ == png_encoding(pixels, MILESTONE_WIDTH as int, MILESTONE_HEIGHT as int));
    }
    Ok(Some(out))
}

/// Renders the ranged member-history chart: the cumulative count over every
/// day from `start_day` through `end_day`, on the fixed 1200 by 400 canvas.
/// Rendering always succeeds.  Also returns the series itself, whose first
/// and last entries the caller reports alongside the image.
pub fn render_range_chart(h: &JoinHistory, start_day: i64, end_day: i64) -> (r: Result<
    (Vec<u8>, Vec<i32>),
    RenderError,
>)
    requires
        h.wf(),
        1 <= start_day <= end_day <= SCAN_ORDINAL_CAP,
    ensures
        r is Ok,
        r matches Ok((v, counts)) ==> {
            &&& v@ == png_encoding(
                range_chart_pixels(h.days_view(), start_day as int, end_day as int),
                RANGE_WIDTH as int,
                RANGE_HEIGHT as int,
            )
            &&& v@.len() >= 8
            &&& is_png_with_dims(v@, RANGE_WIDTH as int, RANGE_HEIGHT as int)
            &&& counts@.len() == end_day - start_day + 1
            &&& forall|i: int|
                0 <= i < counts@.len() ==> counts@[i] == count_le(h.days_view(), start_day + i)
        },
{
    let days_n: usize = (end_day - start_day) as usize + 1;
    let counts = h.daily_counts(start_day, days_n);
    proof {
        assert forall|i: int| 0 <= i < counts@.len() implies 0 <= #[trigger] counts@[i] by {
            crate::history::lemma_count_le_bounds(h.days_view(), start_day + i);
        }
        assert(counts@ =~= counts_values(h.days_view(), start_day as int, days_n as int));
    }
    let max_y = max_value(&counts);
    let y_top: i32 = if max_y <= 0x7fffffff - 1 {
        max_y + 1
    } else {
        0x7fffffff
    };
    let mut buf = zero_buffer((3 * RANGE_WIDTH * RANGE_HEIGHT) as usize);
    fill_canvas(&mut buf, RANGE_WIDTH, RANGE_HEIGHT)?;
    let pts = series_points(&counts);
    draw_line_series(&mut buf, RANGE_WIDTH, RANGE_HEIGHT, days_n, y_top, &pts, 0, 0, 255)?;
    let ghost pixels = buf@;
    proof {
        assert(pixels == range_chart_pixels(h.days_view(), start_day as int, end_day as int));
    }
    let out = encode_png(buf, RANGE_WIDTH, RANGE_HEIGHT)?;
    proof {
        assert(out@ == png_encoding(pixels, RANGE_WIDTH as int, RANGE_HEIGHT as int));
    }
    Ok((out, counts))
}

} // verus!
