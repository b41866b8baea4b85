//! The decisions of the Spectral Compressor's analyzer view: its repaint events, the colors of
//! its overlays, and the layout of the threshold curves drawn over the spectrum.
//!
//! The curves' values come from evaluating the compressor's threshold curve at logarithmically
//! spaced frequencies; that evaluation is done by the caller in floating point. This module
//! decides how many points each curve has, which offset and color belong to which curve, and in
//! which order the points are visited.

use vstd::prelude::*;

verus! {

/// The interval between two repaint requests of the analyzer's background thread, in
/// milliseconds.
pub const REPAINT_INTERVAL_MS: u64 = 30;

/// The most points a threshold curve is drawn with: it is split into at most this many line
/// segment endpoints, or one per pixel if that is fewer.
pub const MAX_CURVE_POINTS: usize = 100;

/// Event to trigger a repaint of the analyzer.
#[derive(Debug, Clone, Copy, PartialEq, Eq, Structural)]
pub enum AnalyzerEvent {
    Repaint,
}

/// Whether handling `event` asks for the analyzer to be redrawn.
pub fn event_needs_redraw(event: &AnalyzerEvent) -> (redraw: bool)
    ensures
        redraw == (*event is Repaint),
{
    match event {
        AnalyzerEvent::Repaint => true,
    }
}

/// What the analyzer's repaint thread does after trying to send a repaint event.
#[derive(Debug, Clone, Copy, PartialEq, Eq, Structural)]
pub enum RepaintStep {
    /// Sleep for [`REPAINT_INTERVAL_MS`] and send the next repaint event.
    SleepAndRepaint,
    /// The window was closed: stop the thread.
    Stop,
}

/// The repaint thread's decision once a repaint event was sent (`emitted`) or could not be sent
/// because the window is gone.
pub fn after_repaint(emitted: bool) -> (step: RepaintStep)
    ensures
        step == (if emitted {
            RepaintStep::SleepAndRepaint
        } else {
            RepaintStep::Stop
        }),
{
    if emitted {
        RepaintStep::SleepAndRepaint
    } else {
        RepaintStep::Stop
    }
}

/// An 8-bit ARGB color, as the canvas takes it.
#[derive(Debug, Clone, Copy, PartialEq, Eq, Structural)]
pub struct Color {
    pub a: u8,
    pub r: u8,
    pub g: u8,
    pub b: u8,
}

/// The 8-bit channel value for an intensity given in hundredths: the intensity times 255,
/// rounded down, and at most 255.
pub open spec fn channel_from_hundredths(hundredths: u32) -> u8 {
    if hundredths * 255 / 100 >= 255 {
        255
    } else {
        (hundredths * 255 / 100) as u8
    }
}

/// The color whose channel intensities are given in hundredths.
pub open spec fn rgba_from_hundredths(r: u32, g: u32, b: u32, a: u32) -> Color {
    Color {
        a: channel_from_hundredths(a),
        r: channel_from_hundredths(r),
        g: channel_from_hundredths(g),
        b: channel_from_hundredths(b),
    }
}

fn channel(hundredths: u32) -> (value: u8)
    ensures
        value == channel_from_hundredths(hundredths),
        value as int == if hundredths <= 100 { hundredths * 255 / 100 } else { 255 },
{
    proof {
        lemma_channel_exact(hundredths);
    }
    let scaled: u64 = (hundredths as u64) * 255 / 100;
    if scaled >= 255 {
        255
    } else {
        scaled as u8
    }
}

/// Every intensity of at most 100 hundredths gives the channel `floor(h * 255 / 100)`, and every
/// larger intensity saturates at 255.
pub proof fn lemma_channel_exact(hundredths: u32)
    ensures
        hundredths <= 100 ==> channel_from_hundredths(hundredths) as int == hundredths * 255 / 100,
        hundredths > 100 ==> channel_from_hundredths(hundredths) == 255,
{
    if hundredths <= 100 {
        assert(hundredths * 255 <= 25500);
        assert(hundredths * 255 / 100 <= 255);
    } else {
        assert(hundredths * 255 >= 101 * 255);
        assert(hundredths * 255 / 100 >= 255);
    }
}

/// Creates a color from red, green, blue and alpha intensities in hundredths, where 100 is full
/// intensity. Each channel is the intensity times 255, rounded down; intensities above 100
/// saturate.
pub fn color_from_rgba_hundredths(r: u32, g: u32, b: u32, a: u32) -> (color: Color)
    ensures
        color == rgba_from_hundredths(r, g, b, a),
        color.r as int == if r <= 100 { r * 255 / 100 } else { 255 },
        color.g as int == if g <= 100 { g * 255 / 100 } else { 255 },
        color.b as int == if b <= 100 { b * 255 / 100 } else { 255 },
        color.a as int == if a <= 100 { a * 255 / 100 } else { 255 },
{
    proof {
        lemma_channel_exact(r);
        lemma_channel_exact(g);
        lemma_channel_exact(b);
        lemma_channel_exact(a);
    }
    Color { a: channel(a), r: channel(r), g: channel(g), b: channel(b) }
}

/// The color of the gain reduction overlay: 85% red, 95% green, full blue at 80% opacity.
pub open spec fn gr_bar_overlay_color_spec() -> Color {
    rgba_from_hundredths(85, 95, 100, 80)
}

/// The color of the downwards compression threshold curve: 45% red, 55% green, 60% blue at 90%
/// opacity.
pub open spec fn downwards_threshold_curve_color_spec() -> Color {
    rgba_from_hundredths(45, 55, 60, 90)
}

/// The color of the upwards compression threshold curve: 55% red, 70% green, 65% blue at 90%
/// opacity.
pub open spec fn upwards_threshold_curve_color_spec() -> Color {
    rgba_from_hundredths(55, 70, 65, 90)
}

/// The color used for drawing the gain reduction overlay. It is drawn with a modulating blend
/// mode, so it interacts differently with darker backgrounds.
pub fn gr_bar_overlay_color() -> (color: Color)
    ensures
        color == gr_bar_overlay_color_spec(),
        color == (Color { a: 204, r: 216, g: 242, b: 255 }),
{
    color_from_rgba_hundredths(85, 95, 100, 80)
}

/// The color used for drawing the downwards compression threshold curve.
pub fn downwards_threshold_curve_color() -> (color: Color)
    ensures
        color == downwards_threshold_curve_color_spec(),
        color == (Color { a: 229, r: 114, g: 140, b: 153 }),
{
    color_from_rgba_hundredths(45, 55, 60, 90)
}

/// The color used for drawing the upwards compression threshold curve.
pub fn upwards_threshold_curve_color() -> (color: Color)
    ensures
        color == upwards_threshold_curve_color_spec(),
        color == (Color { a: 229, r: 140, g: 178, b: 165 }),
{
    color_from_rgba_hundredths(55, 70, 65, 90)
}

/// Which of the two threshold curves a stroke draws.
#[derive(Debug, Clone, Copy, PartialEq, Eq, Structural)]
pub enum ThresholdCurve {
    /// The curve offset by the upwards compressors' threshold offset.
    Upwards,
    /// The curve offset by the downwards compressors' threshold offset.
    Downwards,
}

/// One point of a threshold curve. It lies at the relative x-coordinate `step / last_step`
/// of the analyzer's width, mapped logarithmically onto the displayed frequency range.
#[derive(Debug, Clone, Copy, PartialEq, Eq, Structural)]
pub struct CurvePoint {
    /// Whether the path starts at this point (a move) rather than continuing to it (a line).
    pub starts_path: bool,
    /// The index of this point.
    pub step: usize,
    /// The index of the curve's last point.
    pub last_step: usize,
}

/// One threshold curve to stroke, with its points in drawing order.
pub struct CurveStroke {
    pub curve: ThresholdCurve,
    pub color: Color,
    pub points: Vec<CurvePoint>,
}

/// The number of points of a threshold curve over an analyzer `ceil_width` pixels wide (its
/// width rounded up): one per pixel, but no more than [`MAX_CURVE_POINTS`].
pub open spec fn curve_point_count(ceil_width: usize) -> nat {
    if ceil_width < MAX_CURVE_POINTS {
        ceil_width as nat
    } else {
        MAX_CURVE_POINTS as nat
    }
}

/// The points of a threshold curve with `count` points, in drawing order.
pub open spec fn curve_points(count: nat) -> Seq<CurvePoint> {
    Seq::new(
        count,
        |i: int| CurvePoint { starts_path: i == 0, step: i as usize, last_step: (count - 1) as usize },
    )
}

pub(crate) fn threshold_curve_points(count: usize) -> (points: Vec<CurvePoint>)
    ensures
        points@ == curve_points(count as nat),
{
    let mut points: Vec<CurvePoint> = Vec::new();
    if count == 0 {
        assert(points@ =~= curve_points(0));
        return points;
    }
    let last_step: usize = count - 1;
    let mut i: usize = 0;
    while i < count
        invariant
            i <= count,
            last_step == count - 1,
            points@ =~= curve_points(count as nat).take(i as int),
        decreases count - i,
    {
        points.push(CurvePoint { starts_path: i == 0, step: i, last_step });
        i = i + 1;
    }
    assert(curve_points(count as nat).take(count as int) =~= curve_points(count as nat));
    points
}

/// Lays out the threshold curves drawn over the spectrum of an analyzer `ceil_width` pixels
/// wide: first the curve with the upwards offset in the upwards color, then the curve with the
/// downwards offset in the downwards color, each with one point per pixel but at most
/// [`MAX_CURVE_POINTS`], starting its path at the first point and drawing lines to the others.
pub fn draw_threshold_curve(ceil_width: usize) -> (strokes: Vec<CurveStroke>)
    ensures
        strokes.len() == 2,
        strokes[0].curve == ThresholdCurve::Upwards,
        strokes[0].color == upwards_threshold_curve_color_spec(),
        strokes[1].curve == ThresholdCurve::Downwards,
        strokes[1].color == downwards_threshold_curve_color_spec(),
        forall|k: int| 0 <= k < 2 ==> #[trigger] strokes[k].points@ == curve_points(
            curve_point_count(ceil_width),
        ),
{
    let count: usize = if ceil_width < MAX_CURVE_POINTS {
        ceil_width
    } else {
        MAX_CURVE_POINTS
    };
    let upwards = CurveStroke {
        curve: ThresholdCurve::Upwards,
        color: upwards_threshold_curve_color(),
        points: threshold_curve_points(count),
    };
    let downwards = CurveStroke {
        curve: ThresholdCurve::Downwards,
        color: downwards_threshold_curve_color(),
        points: threshold_curve_points(count),
    };
    let mut strokes: Vec<CurveStroke> = Vec::new();
    strokes.push(upwards);
    strokes.push(downwards);
    strokes
}

/// Full intensity maps to 255, zero intensity to 0, and a brighter intensity never gives a
/// darker channel.
pub proof fn lemma_channel_range(p: u32, q: u32)
    ensures
        channel_from_hundredths(100) == 255,
        channel_from_hundredths(0) == 0,
        p <= q ==> channel_from_hundredths(p) <= channel_from_hundredths(q),
{
    if p <= q {
        assert(p * 255 <= q * 255) by (nonlinear_arith)
            requires
                p <= q,
        ;
        assert(p * 255 / 100 <= q * 255 / 100) by (nonlinear_arith)
            requires
                p * 255 <= q * 255,
        ;
    }
}

/// A threshold curve never has more than [`MAX_CURVE_POINTS`] points nor more points than the
/// analyzer is pixels wide; its path starts at its first point only, and its points run from
/// the left edge (step 0) to the right edge (the last step).
pub proof fn lemma_curve_shape(ceil_width: usize)
    ensures
        curve_point_count(ceil_width) <= MAX_CURVE_POINTS,
        curve_point_count(ceil_width) <= ceil_width,
        curve_point_count(ceil_width) == ceil_width || curve_point_count(ceil_width)
            == MAX_CURVE_POINTS,
        forall|i: int|
            0 <= i < curve_point_count(ceil_width) ==> ((#[trigger] curve_points(
                curve_point_count(ceil_width),
            )[i]).starts_path <==> i == 0),
        curve_point_count(ceil_width) > 0 ==> curve_points(curve_point_count(ceil_width))[0].step
            == 0,
        curve_point_count(ceil_width) > 0 ==> curve_points(curve_point_count(ceil_width)).last().step
            == curve_points(curve_point_count(ceil_width)).last().last_step,
{
}

} // verus!
