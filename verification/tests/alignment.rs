//! The per-axis alignment resolver on concrete inputs.

use ui_layout::Alignment;
use ui_layout::UIElement;

#[test]
fn front_is_position_plus_padding() {
    assert_eq!(UIElement::get_aligned_position(Alignment::Front, 3, 10, 2, 100), 5);
    assert_eq!(UIElement::get_aligned_position(Alignment::Front, -7, 999, 4, 0), -3);
}

#[test]
fn back_is_container_minus_size() {
    assert_eq!(UIElement::get_aligned_position(Alignment::Back, 3, 10, 2, 100), 90);
    assert_eq!(UIElement::get_aligned_position(Alignment::Back, 0, 30, 0, 20), -10);
}

#[test]
fn middle_centers_with_padding_and_position() {
    assert_eq!(UIElement::get_aligned_position(Alignment::Middle, 0, 10, 0, 100), 45);
    assert_eq!(UIElement::get_aligned_position(Alignment::Middle, 1, 10, 2, 100), 48);
}

#[test]
fn stretch_resolves_like_middle() {
    for (position, size, padding, container) in
        [(0i64, 10i64, 0i64, 100i64), (1, 10, 2, 100), (5, 40, 3, 20), (-4, 7, -2, 13)]
    {
        assert_eq!(
            UIElement::get_aligned_position(Alignment::Stretch, position, size, padding, container),
            UIElement::get_aligned_position(Alignment::Middle, position, size, padding, container),
        );
    }
}

#[test]
fn middle_rounds_toward_zero() {
    // 0 - 7 + 0 halved rounds toward zero: -3, not -4.
    assert_eq!(UIElement::get_aligned_position(Alignment::Middle, 0, 7, 0, 0), -3);
    // 7 halved rounds toward zero as well.
    assert_eq!(UIElement::get_aligned_position(Alignment::Middle, 0, 0, 0, 7), 3);
}
