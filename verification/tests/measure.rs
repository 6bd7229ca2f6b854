//! The measure pass: explicit-size dominance, auto-size validation,
//! stretch space accounting, and idempotence.

use ui_layout::Alignment;
use ui_layout::COORD_LIMIT;
use ui_layout::ContentMeasurable;
use ui_layout::Dim;
use ui_layout::Dim2;
use ui_layout::MeasureError;
use ui_layout::Size;
use ui_layout::UIElement;
use ui_layout::Vec2;
use ui_layout::ZeroContent;

/// A content measurement that must never run.
struct ForbiddenContent;

impl ContentMeasurable for ForbiddenContent {
    fn measure_content(&self, _available: Dim2) -> Dim2 {
        panic!("content measurement must not be invoked for an explicitly sized element");
    }
}

/// A content measurement that reports a fixed size, whatever the constraint.
struct FixedContent(Dim2);

impl ContentMeasurable for FixedContent {
    fn measure_content(&self, _available: Dim2) -> Dim2 {
        self.0
    }
}

/// A content measurement that echoes the constraint it was offered,
/// exposing through the measured size how much space the pass handed down.
struct EchoContent;

impl ContentMeasurable for EchoContent {
    fn measure_content(&self, available: Dim2) -> Dim2 {
        available
    }
}

fn finite(x: i64, y: i64) -> Dim2 {
    Dim2 { x: Dim::Finite(x), y: Dim::Finite(y) }
}

#[test]
fn explicit_size_dominates_and_skips_content_measurement() {
    let mut e = UIElement::new();
    e.position = Vec2 { x: 1, y: 2 };
    e.size = Size { width: Some(10), height: Some(20) };
    e.padding = Vec2 { x: 3, y: 4 };
    let r = e.measure(finite(100, 100), &ForbiddenContent);
    assert_eq!(r, Ok(Vec2 { x: 1 + 10 + 2 * 3, y: 2 + 20 + 2 * 4 }));
    assert_eq!(e.measured_size, Vec2 { x: 17, y: 30 });
}

#[test]
fn explicit_size_bounds_content_under_unconstrained_parent() {
    let mut e = UIElement::new();
    e.size = Size { width: Some(10), height: Some(20) };
    let c = e.content_constraint(Dim2 { x: Dim::Infinite, y: Dim::Infinite });
    assert_eq!(c, finite(10, 20));
}

#[test]
fn auto_axis_adopts_content_measurement() {
    let mut e = UIElement::new();
    e.size = Size { width: None, height: Some(20) };
    let r = e.measure(finite(100, 100), &FixedContent(finite(7, 999)));
    // The auto width adopts 7; the explicit height ignores the 999.
    assert_eq!(r, Ok(Vec2 { x: 7, y: 20 }));
    assert_eq!(e.last_measure_available_size, finite(100, 100));
}

#[test]
fn finite_available_size_subtracts_padding() {
    let mut e = UIElement::new();
    e.padding = Vec2 { x: 5, y: 2 };
    let c = e.content_constraint(finite(100, 50));
    assert_eq!(c, finite(90, 46));
}

#[test]
fn stretch_consumes_remaining_space() {
    let mut e = UIElement::new();
    e.position = Vec2 { x: 10, y: 0 };
    e.padding = Vec2 { x: 0, y: 0 };
    e.horizontal_alignment = Alignment::Stretch;
    // Auto width, stretch-aligned, available 100: the content is offered
    // 100 - 0 - 10 = 90.
    let c = e.content_constraint(Dim2 { x: Dim::Finite(100), y: Dim::Infinite });
    assert_eq!(c.x, Dim::Finite(90));
    assert_eq!(c.y, Dim::Infinite);
    // Echoing that constraint back as the content size fills the axis:
    // 10 + 90 + 0 is the full available extent.
    let r = e.measure(Dim2 { x: Dim::Finite(100), y: Dim::Infinite }, &EchoContent);
    assert_eq!(r, Err(MeasureError::NonFiniteContent));
    // The vertical echo was unconstrained, so only a finite vertical
    // constraint lets the fill show through.
    let r2 = e.measure(finite(100, 40), &EchoContent);
    assert_eq!(r2, Ok(Vec2 { x: 100, y: 40 }));
}

#[test]
fn position_is_not_consumed_without_stretch() {
    let mut e = UIElement::new();
    e.position = Vec2 { x: 10, y: 0 };
    let c = e.content_constraint(Dim2 { x: Dim::Finite(100), y: Dim::Infinite });
    // Auto but Front-aligned: the position is not subtracted.
    assert_eq!(c.x, Dim::Finite(100));
}

#[test]
fn nonfinite_content_on_auto_axis_is_fatal() {
    let mut e = UIElement::new();
    let before = e;
    let r = e.measure(finite(100, 100), &FixedContent(Dim2 { x: Dim::Infinite, y: Dim::Finite(0) }));
    assert_eq!(r, Err(MeasureError::NonFiniteContent));
    assert_eq!(e, before);
}

#[test]
fn negative_content_on_auto_axis_is_fatal() {
    let mut e = UIElement::new();
    let r = e.measure(finite(100, 100), &FixedContent(finite(0, -1)));
    assert_eq!(r, Err(MeasureError::NegativeContent));
}

#[test]
fn oversize_content_on_auto_axis_is_fatal() {
    let mut e = UIElement::new();
    let r = e.measure(finite(100, 100), &FixedContent(finite(COORD_LIMIT + 1, 0)));
    assert_eq!(r, Err(MeasureError::OversizeContent));
}

#[test]
fn nonfinite_content_on_explicit_axis_is_ignored() {
    let mut e = UIElement::new();
    e.size = Size { width: Some(10), height: None };
    let r = e.measure(finite(100, 100), &FixedContent(Dim2 { x: Dim::Infinite, y: Dim::Finite(4) }));
    assert_eq!(r, Ok(Vec2 { x: 10, y: 4 }));
}

#[test]
fn measure_is_idempotent() {
    let mut e = UIElement::new();
    e.position = Vec2 { x: 1, y: 1 };
    e.size = Size { width: None, height: Some(8) };
    e.padding = Vec2 { x: 2, y: 2 };
    let avail = finite(64, 64);
    let first = e.measure(avail, &ZeroContent);
    let after_first = e;
    let second = e.measure(avail, &ZeroContent);
    assert_eq!(first, second);
    assert_eq!(e, after_first);
    assert_eq!(e.last_measure_available_size, avail);
}

#[test]
fn zero_content_measures_zero_intrinsic_size() {
    let mut e = UIElement::new();
    let r = e.measure(Dim2 { x: Dim::Infinite, y: Dim::Infinite }, &ZeroContent);
    assert_eq!(r, Ok(Vec2 { x: 0, y: 0 }));
    assert_eq!(e.measured_size, Vec2 { x: 0, y: 0 });
}
