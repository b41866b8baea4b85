//! The threshold curves of the Spectral Compressor's egui analyzer.
//!
//! The egui analyzer samples each curve once per logical pixel of its width, without the cap
//! that the vizia analyzer applies, and draws the downwards curve before the upwards one.

use vstd::prelude::*;
use crate::analyzer::{
    curve_points, threshold_curve_points, Color, CurveStroke, ThresholdCurve,
};

verus! {

/// The color of the egui analyzer's downwards threshold curve.
pub open spec fn egui_downwards_curve_color() -> Color {
    Color { a: 230, r: 115, g: 140, b: 153 }
}

/// The color of the egui analyzer's upwards threshold curve.
pub open spec fn egui_upwards_curve_color() -> Color {
    Color { a: 230, r: 140, g: 178, b: 165 }
}

/// Lays out the threshold curves of an egui analyzer `pixel_width` logical pixels wide (its
/// width truncated to an integer): first the downwards curve, then the upwards curve, each with
/// one point per pixel from the left edge to the right edge.
pub fn draw_threshold_curves(pixel_width: usize) -> (strokes: Vec<CurveStroke>)
    ensures
        strokes.len() == 2,
        strokes[0].curve == ThresholdCurve::Downwards,
        strokes[0].color == egui_downwards_curve_color(),
        strokes[1].curve == ThresholdCurve::Upwards,
        strokes[1].color == egui_upwards_curve_color(),
        forall|k: int| 0 <= k < 2 ==> #[trigger] strokes[k].points@ == curve_points(
            pixel_width as nat,
        ),
{
    let downwards = CurveStroke {
        curve: ThresholdCurve::Downwards,
        color: Color { a: 230, r: 115, g: 140, b: 153 },
        points: threshold_curve_points(pixel_width),
    };
    let upwards = CurveStroke {
        curve: ThresholdCurve::Upwards,
        color: Color { a: 230, r: 140, g: 178, b: 165 },
        points: threshold_curve_points(pixel_width),
    };
    let mut strokes: Vec<CurveStroke> = Vec::new();
    strokes.push(downwards);
    strokes.push(upwards);
    strokes
}

} // verus!
