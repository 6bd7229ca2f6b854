//! Per-axis alignment resolution.
//!
//! An alignment mode plus the axis geometry (declared position, content
//! size, padding, container size) determine a 1D offset. The resolver is a
//! pure, total function; it is applied independently on each axis.

use vstd::prelude::*;
use crate::geometry::COORD_LIMIT;
use crate::geometry::coord_measured;
use crate::geometry::coord_ok;

verus! {

/// How an element is anchored on one axis.
#[derive(Debug, Clone, Copy, PartialEq, Eq, Structural)]
pub enum Alignment {
    /// Edge-anchored at the leading edge (left/top).
    Front,
    /// Centered.
    Middle,
    /// Edge-anchored at the trailing edge (right/bottom).
    Back,
    /// Fill the available space; centers as a fallback when the content
    /// exceeds it.
    Stretch,
}

/// Division by two that rounds toward zero, the rounding the executable
/// resolver uses on a possibly negative intermediate value.
pub open spec fn half_toward_zero(t: int) -> int {
    if t >= 0 {
        t / 2
    } else {
        -((-t) / 2)
    }
}

/// The offset the resolver assigns on one axis.
///
/// `Front` anchors at `position + padding`; `Back` at
/// `container_size - size`, where `size` already includes padding and
/// position by the caller's convention; `Middle` and `Stretch` center the
/// content in the available space. There is no unknown mode: the enum is
/// closed, so every alignment value resolves.
pub open spec fn spec_aligned_position(
    alignment: Alignment,
    position: int,
    size: int,
    padding: int,
    container_size: int,
) -> int {
    match alignment {
        Alignment::Middle | Alignment::Stretch => half_toward_zero(
            container_size - size + padding * 2,
        ) + position,
        Alignment::Back => container_size - size,
        Alignment::Front => position + padding,
    }
}

/// Alignment resolution is total: for every alignment mode and all
/// coordinates, the resolved offset is given exactly by one of three
/// closed-form expressions, and `Middle` and `Stretch` agree.
pub proof fn lemma_alignment_resolver_total(
    position: int,
    size: int,
    padding: int,
    container_size: int,
)
    ensures
        spec_aligned_position(Alignment::Front, position, size, padding, container_size)
            == position + padding,
        spec_aligned_position(Alignment::Back, position, size, padding, container_size)
            == container_size - size,
        spec_aligned_position(Alignment::Middle, position, size, padding, container_size)
            == half_toward_zero(container_size - size + 2 * padding) + position,
        spec_aligned_position(Alignment::Stretch, position, size, padding, container_size)
            == spec_aligned_position(Alignment::Middle, position, size, padding, container_size),
{
}

/// The resolved offset stays within five times the declared coordinate
/// range when the inputs are in range (`size` may be a measured size).
pub proof fn lemma_aligned_position_bounds(
    alignment: Alignment,
    position: int,
    size: int,
    padding: int,
    container_size: int,
)
    requires
        coord_ok(position),
        coord_measured(size),
        coord_ok(padding),
        coord_ok(container_size),
    ensures
        -5 * (COORD_LIMIT as int) <= spec_aligned_position(
            alignment,
            position,
            size,
            padding,
            container_size,
        ) <= 5 * (COORD_LIMIT as int),
{
}

} // verus!
