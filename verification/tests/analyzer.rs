use plugin_editors::analyzer::{
    after_repaint, color_from_rgba_hundredths, downwards_threshold_curve_color,
    draw_threshold_curve, event_needs_redraw, gr_bar_overlay_color, upwards_threshold_curve_color,
    AnalyzerEvent, Color, CurvePoint, RepaintStep, ThresholdCurve, MAX_CURVE_POINTS,
    REPAINT_INTERVAL_MS,
};
use plugin_editors::analyzer_egui::draw_threshold_curves;

#[test]
fn repaint_event_redraws() {
    assert!(event_needs_redraw(&AnalyzerEvent::Repaint));
}

#[test]
fn repaint_thread_stops_when_window_closes() {
    assert_eq!(after_repaint(true), RepaintStep::SleepAndRepaint);
    assert_eq!(after_repaint(false), RepaintStep::Stop);
    assert_eq!(REPAINT_INTERVAL_MS, 30);
}

#[test]
fn overlay_colors() {
    assert_eq!(gr_bar_overlay_color(), Color { a: 204, r: 216, g: 242, b: 255 });
    assert_eq!(downwards_threshold_curve_color(), Color { a: 229, r: 114, g: 140, b: 153 });
    assert_eq!(upwards_threshold_curve_color(), Color { a: 229, r: 140, g: 178, b: 165 });
}

#[test]
fn color_channels_from_hundredths() {
    assert_eq!(
        color_from_rgba_hundredths(100, 0, 50, 101),
        Color { a: 255, r: 255, g: 0, b: 127 }
    );
    assert_eq!(
        color_from_rgba_hundredths(1, 2, 99, 1000),
        Color { a: 255, r: 2, g: 5, b: 252 }
    );
}

fn expected_points(count: usize) -> Vec<CurvePoint> {
    (0..count)
        .map(|i| CurvePoint { starts_path: i == 0, step: i, last_step: count - 1 })
        .collect()
}

#[test]
fn threshold_curves_upwards_first() {
    let strokes = draw_threshold_curve(50);
    assert_eq!(strokes.len(), 2);
    assert_eq!(strokes[0].curve, ThresholdCurve::Upwards);
    assert_eq!(strokes[0].color, upwards_threshold_curve_color());
    assert_eq!(strokes[1].curve, ThresholdCurve::Downwards);
    assert_eq!(strokes[1].color, downwards_threshold_curve_color());
    assert_eq!(strokes[0].points, expected_points(50));
    assert_eq!(strokes[1].points, expected_points(50));
}

#[test]
fn threshold_curves_capped_at_hundred_points() {
    let strokes = draw_threshold_curve(661);
    assert_eq!(MAX_CURVE_POINTS, 100);
    assert_eq!(strokes[0].points, expected_points(100));
    assert_eq!(strokes[1].points.len(), 100);
    assert_eq!(strokes[1].points[99], CurvePoint { starts_path: false, step: 99, last_step: 99 });
}

#[test]
fn threshold_curves_narrow_widths() {
    let strokes = draw_threshold_curve(0);
    assert!(strokes[0].points.is_empty());
    assert!(strokes[1].points.is_empty());
    let strokes = draw_threshold_curve(1);
    assert_eq!(strokes[0].points, vec![CurvePoint { starts_path: true, step: 0, last_step: 0 }]);
}

#[test]
fn egui_threshold_curves_downwards_first_uncapped() {
    let strokes = draw_threshold_curves(660);
    assert_eq!(strokes.len(), 2);
    assert_eq!(strokes[0].curve, ThresholdCurve::Downwards);
    assert_eq!(strokes[0].color, Color { a: 230, r: 115, g: 140, b: 153 });
    assert_eq!(strokes[1].curve, ThresholdCurve::Upwards);
    assert_eq!(strokes[1].color, Color { a: 230, r: 140, g: 178, b: 165 });
    assert_eq!(strokes[0].points, expected_points(660));
    assert_eq!(strokes[1].points, expected_points(660));
}
