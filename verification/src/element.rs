//! Per-entity layout state and the measure and arrange passes.
//!
//! A `UIElement` carries the declared layout attributes of one entity
//! (position, padding, explicit or auto size, per-axis alignment), the
//! cached outputs of the last measure and arrange (measured size, placement
//! rectangles), and the cached inputs of the last computation (available
//! size, container bounds), kept for invalidation comparisons.
//!
//! Content measurement is an extension point: the measure pass delegates to
//! a `ContentMeasurable` to learn the intrinsic size of an auto-sized axis,
//! and validates what comes back before adopting it.

use vstd::prelude::*;
use crate::align::Alignment;
use crate::align::lemma_aligned_position_bounds;
use crate::align::spec_aligned_position;
use crate::geometry::COORD_LIMIT;
use crate::geometry::Dim;
use crate::geometry::Dim2;
use crate::geometry::Rect;
use crate::geometry::Size;
use crate::geometry::Vec2;
use crate::geometry::coord_measured;
use crate::geometry::coord_ok;

verus! {

/// Why a measure pass rejected a content measurement. Each variant names a
/// precondition violation of the content-measurement contract: an
/// auto-sized axis must measure to a finite, non-negative extent within the
/// representable coordinate range.
#[derive(Debug, Clone, Copy, PartialEq, Eq, Structural)]
pub enum MeasureError {
    /// An auto-sized axis measured to an unconstrained extent.
    NonFiniteContent,
    /// An auto-sized axis measured to a negative extent.
    NegativeContent,
    /// An auto-sized axis measured beyond the representable range.
    OversizeContent,
}

/// The content-measurement extension point: given the constraint the
/// measure pass computed for the content, report the content's intrinsic
/// size per axis. Implementations make no promise here; the measure pass
/// validates every reported value before adopting it.
pub trait ContentMeasurable {
    /// Measure the content under the given per-axis constraint.
    fn measure_content(&self, available: Dim2) -> Dim2;
}

/// The base engine's content measurement: no content, zero intrinsic size
/// on both axes.
pub struct ZeroContent;

impl ContentMeasurable for ZeroContent {
    fn measure_content(&self, _available: Dim2) -> Dim2 {
        Dim2::zero()
    }
}

/// The validation a content measurement must pass on one auto-sized axis,
/// as the error it raises: the reported extent must be finite, then
/// non-negative, then within the representable coordinate range.
pub open spec fn axis_content_error(d: Dim) -> Option<MeasureError> {
    if !(d is Finite) {
        Option::Some(MeasureError::NonFiniteContent)
    } else if d.val() < 0 {
        Option::Some(MeasureError::NegativeContent)
    } else if d.val() > COORD_LIMIT {
        Option::Some(MeasureError::OversizeContent)
    } else {
        Option::None
    }
}

/// Per-entity layout attributes and cached layout results.
#[derive(Debug, Clone, Copy, PartialEq)]
pub struct UIElement {
    /// Non-owning back-reference to the parent entity, as a handle into
    /// whatever entity store the caller keeps; used for containment
    /// queries, never for lifetime management.
    pub parent: Option<usize>,
    /// Declared offset from the container origin, per axis.
    pub position: Vec2,
    /// Declared explicit size, or auto per axis.
    pub size: Size,
    /// Declared padding, applied on both sides of each axis.
    pub padding: Vec2,
    /// How the element is anchored horizontally.
    pub horizontal_alignment: Alignment,
    /// How the element is anchored vertically.
    pub vertical_alignment: Alignment,
    /// Cached output of the last measure: the element's outer size,
    /// including its own padding and declared position offset.
    pub measured_size: Vec2,
    /// Cached output of the last arrange: the rectangle inside the
    /// element's bounds after removing padding.
    pub content_area: Rect,
    /// `content_area` after any scroll or clip offset; the base engine
    /// applies none.
    pub offset_content_area: Rect,
    /// The part of `content_area` currently visible; the base engine has
    /// no clipping ancestor, so it is the full content area.
    pub visible_content_area: Rect,
    /// The visible part of the element's outer bounds.
    pub visible_bounds: Rect,
    /// Cached input of the last measure, compared on the next pass.
    pub last_measure_available_size: Dim2,
    /// Cached input of the last arrange.
    pub last_measure_container_bounds: Rect,
}

/// The state a freshly constructed element carries: auto size on both
/// axes, `Front` alignment, zero position and padding, zeroed caches, and
/// an unconstrained last available size, meaning "not yet measured under
/// any finite constraint".
pub open spec fn spec_default_element() -> UIElement {
    UIElement {
        parent: Option::None,
        position: Vec2 { x: 0, y: 0 },
        size: Size { width: Option::None, height: Option::None },
        padding: Vec2 { x: 0, y: 0 },
        horizontal_alignment: Alignment::Front,
        vertical_alignment: Alignment::Front,
        measured_size: Vec2 { x: 0, y: 0 },
        content_area: Rect { x: 0, y: 0, width: 0, height: 0 },
        offset_content_area: Rect { x: 0, y: 0, width: 0, height: 0 },
        visible_content_area: Rect { x: 0, y: 0, width: 0, height: 0 },
        visible_bounds: Rect { x: 0, y: 0, width: 0, height: 0 },
        last_measure_available_size: Dim2 { x: Dim::Infinite, y: Dim::Infinite },
        last_measure_container_bounds: Rect { x: 0, y: 0, width: 0, height: 0 },
    }
}

impl UIElement {
    /// Well-formedness: declared coordinates are in the declared range,
    /// and every cached result is in the range its pass guarantees.
    pub open spec fn wf(self) -> bool {
        &&& self.position.wf()
        &&& self.padding.wf()
        &&& self.size.wf()
        &&& coord_measured(self.measured_size.x as int)
        &&& coord_measured(self.measured_size.y as int)
        &&& self.content_area.placed_wf()
        &&& self.offset_content_area.placed_wf()
        &&& self.visible_content_area.placed_wf()
        &&& self.visible_bounds.placed_wf()
        &&& self.last_measure_available_size.wf()
        &&& self.last_measure_container_bounds.wf()
    }

    /// The horizontal axis is auto-sized: intrinsic content determines it.
    pub open spec fn width_auto(self) -> bool {
        self.size.width is None
    }

    /// The vertical axis is auto-sized.
    pub open spec fn height_auto(self) -> bool {
        self.size.height is None
    }

    /// Whether the constraint handed to content measurement is finite on
    /// the horizontal axis: it is, unless the incoming available size is
    /// unconstrained and the axis is auto-sized.
    pub open spec fn constraint_x_finite(self, available: Dim2) -> bool {
        available.x is Finite || !self.width_auto()
    }

    /// See `constraint_x_finite`.
    pub open spec fn constraint_y_finite(self, available: Dim2) -> bool {
        available.y is Finite || !self.height_auto()
    }

    /// The finite constraint handed to content measurement on the
    /// horizontal axis. Under a finite available size, the padding on both
    /// sides is subtracted, and the declared position too when the axis is
    /// auto-sized and stretch-aligned (the position then acts as a leading
    /// margin consumed from the available space). Under an unconstrained
    /// available size, an explicit size bounds the content by itself.
    pub open spec fn constraint_x_val(self, available: Dim2) -> int {
        if available.x is Finite {
            available.x.val() - self.padding.x * 2 - (if self.width_auto()
                && self.horizontal_alignment is Stretch {
                self.position.x as int
            } else {
                0
            })
        } else {
            self.size.width->0 as int
        }
    }

    /// See `constraint_x_val`.
    pub open spec fn constraint_y_val(self, available: Dim2) -> int {
        if available.y is Finite {
            available.y.val() - self.padding.y * 2 - (if self.height_auto()
                && self.vertical_alignment is Stretch {
                self.position.y as int
            } else {
                0
            })
        } else {
            self.size.height->0 as int
        }
    }

    /// The first validation failure over the auto-sized axes, horizontal
    /// axis first; `None` when every auto-sized axis measured acceptably.
    /// Explicit axes are never validated: their content measurement is
    /// never adopted.
    pub open spec fn content_error(self, measured: Dim2) -> Option<MeasureError> {
        if self.width_auto() && axis_content_error(measured.x) is Some {
            axis_content_error(measured.x)
        } else if self.height_auto() && axis_content_error(measured.y) is Some {
            axis_content_error(measured.y)
        } else {
            Option::None
        }
    }

    /// The element's final outer extent on the horizontal axis: declared
    /// position, plus the declared size (or the content measurement when
    /// auto-sized), plus padding on both sides.
    pub open spec fn final_size_x(self, measured: Dim2) -> int {
        self.position.x + (if self.width_auto() {
            measured.x.val()
        } else {
            self.size.width->0 as int
        }) + self.padding.x * 2
    }

    /// See `final_size_x`.
    pub open spec fn final_size_y(self, measured: Dim2) -> int {
        self.position.y + (if self.height_auto() {
            measured.y.val()
        } else {
            self.size.height->0 as int
        }) + self.padding.y * 2
    }

    /// The element state after one measure with the given available size
    /// and content measurement: on acceptable content, the measured size
    /// and the cached available size are overwritten and nothing else; on
    /// a validation failure, the state is untouched.
    pub open spec fn measure_post_state(self, available: Dim2, measured: Dim2) -> UIElement {
        if self.content_error(measured) is Some {
            self
        } else {
            UIElement {
                measured_size: Vec2 {
                    x: self.final_size_x(measured) as i64,
                    y: self.final_size_y(measured) as i64,
                },
                last_measure_available_size: available,
                ..self
            }
        }
    }

    /// What one measure returns for the given content measurement: the
    /// final outer size, or the first validation failure.
    pub open spec fn measure_post_result(self, measured: Dim2) -> Result<Vec2, MeasureError> {
        if self.content_error(measured) is Some {
            Result::Err(self.content_error(measured)->0)
        } else {
            Result::Ok(
                Vec2 {
                    x: self.final_size_x(measured) as i64,
                    y: self.final_size_y(measured) as i64,
                },
            )
        }
    }

    /// A new element: auto-sized on both axes, `Front`-aligned, zero
    /// position and padding, and never yet measured under a finite
    /// constraint.
    pub fn new() -> (r: UIElement)
        ensures
            r == spec_default_element(),
            r.wf(),
    {
        UIElement {
            parent: None,
            position: Vec2::zero(),
            size: Size::auto(),
            padding: Vec2::zero(),
            horizontal_alignment: Alignment::Front,
            vertical_alignment: Alignment::Front,
            measured_size: Vec2::zero(),
            content_area: Rect::zero(),
            offset_content_area: Rect::zero(),
            visible_content_area: Rect::zero(),
            visible_bounds: Rect::zero(),
            last_measure_available_size: Dim2::unconstrained(),
            last_measure_container_bounds: Rect::zero(),
        }
    }

    /// The scroll/pan delta currently applied: the offset of the visible
    /// content area from the offset content area. The base engine applies
    /// no scrolling, so after an arrange it is zero.
    pub fn visible_offset(&self) -> (r: Vec2)
        requires
            self.wf(),
        ensures
            r.x as int == self.visible_content_area.x - self.offset_content_area.x,
            r.y as int == self.visible_content_area.y - self.offset_content_area.y,
    {
        Vec2 {
            x: self.visible_content_area.x - self.offset_content_area.x,
            y: self.visible_content_area.y - self.offset_content_area.y,
        }
    }

    /// Executable check of `wf`, for callers outside verified code.
    pub fn is_wf(&self) -> (r: bool)
        ensures
            r == self.wf(),
    {
        let measured_ok = -4 * COORD_LIMIT <= self.measured_size.x && self.measured_size.x <= 4
            * COORD_LIMIT && -4 * COORD_LIMIT <= self.measured_size.y && self.measured_size.y <= 4
            * COORD_LIMIT;
        let size_ok = (match self.size.width {
            Some(w) => -COORD_LIMIT <= w && w <= COORD_LIMIT,
            None => true,
        }) && (match self.size.height {
            Some(h) => -COORD_LIMIT <= h && h <= COORD_LIMIT,
            None => true,
        });
        let placed_ok = Self::rect_placed_ok(&self.content_area) && Self::rect_placed_ok(
            &self.offset_content_area,
        ) && Self::rect_placed_ok(&self.visible_content_area) && Self::rect_placed_ok(
            &self.visible_bounds,
        );
        Self::vec_ok(&self.position) && Self::vec_ok(&self.padding) && size_ok && measured_ok
            && placed_ok && self.last_measure_available_size.is_wf()
            && self.last_measure_container_bounds.is_wf()
    }

    /// Measuring is idempotent: measuring an element a second time with
    /// the same available size and the same content measurement, with no
    /// intervening change to its inputs, leaves the element exactly as the
    /// first measure left it — in particular its cached available size —
    /// and returns the same result, success or failure alike.
    pub proof fn lemma_measure_idempotent(self, available: Dim2, measured: Dim2)
        ensures
            self.measure_post_state(available, measured).measure_post_state(available, measured)
                == self.measure_post_state(available, measured),
            self.measure_post_state(available, measured).measure_post_result(measured)
                == self.measure_post_result(measured),
    {
    }

    /// Explicit size dominates: when both axes have an explicit size, the
    /// outcome of a measure does not depend on the content measurement at
    /// all — the final size is exactly `position + size + padding * 2`
    /// per axis, and no content measurement can fail the pass.
    pub proof fn lemma_explicit_size_dominance(
        self,
        available: Dim2,
        measured_a: Dim2,
        measured_b: Dim2,
    )
        requires
            self.wf(),
            !self.width_auto(),
            !self.height_auto(),
        ensures
            self.measure_post_state(available, measured_a) == self.measure_post_state(
                available,
                measured_b,
            ),
            self.measure_post_result(measured_a) == self.measure_post_result(measured_b),
            self.measure_post_result(measured_a) matches Result::Ok(s) && s.x as int
                == self.position.x + self.size.width->0 + self.padding.x * 2 && s.y as int
                == self.position.y + self.size.height->0 + self.padding.y * 2,
    {
    }

    /// An auto-sized axis requires a finite, non-negative, representable
    /// content measurement: anything else trips the fatal precondition
    /// path — the measure fails and the element is left untouched.
    pub proof fn lemma_auto_size_requires_finiteness(self, available: Dim2, measured: Dim2)
        requires
            self.width_auto(),
            !(measured.x is Finite) || measured.x.val() < 0 || measured.x.val() > COORD_LIMIT,
        ensures
            self.measure_post_result(measured) is Err,
            self.measure_post_state(available, measured) == self,
    {
    }

    /// Stretch consumes the remaining space: on an auto-sized,
    /// stretch-aligned axis under a finite available size, the space
    /// offered to the content is the available size less the padding on
    /// both sides less the declared position, which acts as a leading
    /// margin.
    pub proof fn lemma_stretch_consumes_remaining_space(self, available: Dim2)
        requires
            self.width_auto(),
            self.horizontal_alignment is Stretch,
            available.x is Finite,
        ensures
            self.constraint_x_finite(available),
            self.constraint_x_val(available) == available.x.val() - self.padding.x * 2
                - self.position.x,
    {
    }

    fn vec_ok(v: &Vec2) -> (r: bool)
        ensures
            r == v.wf(),
    {
        -COORD_LIMIT <= v.x && v.x <= COORD_LIMIT && -COORD_LIMIT <= v.y && v.y <= COORD_LIMIT
    }

    /// The constraint the measure pass hands to content measurement, per
    /// axis: under a finite available size, that size minus padding on
    /// both sides, minus the declared position when the axis is auto-sized
    /// and stretch-aligned; under an unconstrained available size, the
    /// declared size when the axis has one, else unconstrained.
    pub fn content_constraint(&self, available_size: Dim2) -> (r: Dim2)
        requires
            self.wf(),
            available_size.wf(),
        ensures
            r.x is Finite <==> self.constraint_x_finite(available_size),
            r.x is Finite ==> r.x.val() == self.constraint_x_val(available_size),
            r.y is Finite <==> self.constraint_y_finite(available_size),
            r.y is Finite ==> r.y.val() == self.constraint_y_val(available_size),
    {
        let x = match available_size.x {
            Dim::Finite(a) => {
                let lead: i64 = if self.size.width.is_none() && self.horizontal_alignment
                    == Alignment::Stretch {
                    self.position.x
                } else {
                    0
                };
                Dim::Finite(a - self.padding.x * 2 - lead)
            },
            Dim::Infinite => match self.size.width {
                Some(w) => Dim::Finite(w),
                None => Dim::Infinite,
            },
        };
        let y = match available_size.y {
            Dim::Finite(a) => {
                let lead: i64 = if self.size.height.is_none() && self.vertical_alignment
                    == Alignment::Stretch {
                    self.position.y
                } else {
                    0
                };
                Dim::Finite(a - self.padding.y * 2 - lead)
            },
            Dim::Infinite => match self.size.height {
                Some(h) => Dim::Finite(h),
                None => Dim::Infinite,
            },
        };
        Dim2 { x, y }
    }

    /// One measure pass, with the content measurement already in hand.
    /// Validates the measurement on every auto-sized axis, adopts it
    /// there, and computes the final outer size; overwrites the measured
    /// size and the cached available size exactly on success.
    pub fn measure_with_content(&mut self, available_size: Dim2, content_measured: Dim2) -> (r:
        Result<Vec2, MeasureError>)
        requires
            old(self).wf(),
            available_size.wf(),
        ensures
            *final(self) == old(self).measure_post_state(available_size, content_measured),
            r == old(self).measure_post_result(content_measured),
            final(self).wf(),
    {
        let content_x: i64 = if self.size.width.is_none() {
            match content_measured.x {
                Dim::Finite(v) => {
                    if v < 0 {
                        return Err(MeasureError::NegativeContent);
                    }
                    if v > COORD_LIMIT {
                        return Err(MeasureError::OversizeContent);
                    }
                    v
                },
                Dim::Infinite => {
                    return Err(MeasureError::NonFiniteContent);
                },
            }
        } else {
            0
        };
        let content_y: i64 = if self.size.height.is_none() {
            match content_measured.y {
                Dim::Finite(v) => {
                    if v < 0 {
                        return Err(MeasureError::NegativeContent);
                    }
                    if v > COORD_LIMIT {
                        return Err(MeasureError::OversizeContent);
                    }
                    v
                },
                Dim::Infinite => {
                    return Err(MeasureError::NonFiniteContent);
                },
            }
        } else {
            0
        };
        let size_x: i64 = match self.size.width {
            Some(w) => w,
            None => content_x,
        };
        let size_y: i64 = match self.size.height {
            Some(h) => h,
            None => content_y,
        };
        let final_size = Vec2 {
            x: self.position.x + size_x + self.padding.x * 2,
            y: self.position.y + size_y + self.padding.y * 2,
        };
        self.measured_size = final_size;
        self.last_measure_available_size = available_size;
        Ok(final_size)
    }

    /// One measure pass through the content-measurement extension point.
    /// When both axes have an explicit size, content measurement is never
    /// invoked and the result is exactly `position + size + padding * 2`
    /// per axis; otherwise the content is measured under the computed
    /// constraint and the pass proceeds as `measure_with_content`.
    pub fn measure<C: ContentMeasurable>(&mut self, available_size: Dim2, content: &C) -> (r:
        Result<Vec2, MeasureError>)
        requires
            old(self).wf(),
            available_size.wf(),
        ensures
            final(self).wf(),
            exists|m: Dim2|
                {
                    &&& *final(self) == old(self).measure_post_state(available_size, m)
                    &&& r == old(self).measure_post_result(m)
                },
            !old(self).width_auto() && !old(self).height_auto() ==> {
                &&& r is Ok
                &&& r->Ok_0.x as int == old(self).position.x + old(self).size.width->0 + old(
                    self,
                ).padding.x * 2
                &&& r->Ok_0.y as int == old(self).position.y + old(self).size.height->0 + old(
                    self,
                ).padding.y * 2
                &&& *final(self) == (UIElement {
                    measured_size: r->Ok_0,
                    last_measure_available_size: available_size,
                    ..*old(self)
                })
            },
    {
        if self.size.width.is_none() || self.size.height.is_none() {
            let constraint = self.content_constraint(available_size);
            let measured = content.measure_content(constraint);
            let r = self.measure_with_content(available_size, measured);
            proof {
                assert(*self == old(self).measure_post_state(available_size, measured));
            }
            r
        } else {
            let measured = Dim2::zero();
            let r = self.measure_with_content(available_size, measured);
            proof {
                assert(*self == old(self).measure_post_state(available_size, measured));
            }
            r
        }
    }

    /// The per-axis alignment resolver. `size` follows the measured-size
    /// convention: for `Back` it already includes padding and position, so
    /// the offset is just what remains of the container.
    pub fn get_aligned_position(
        alignment: Alignment,
        position: i64,
        size: i64,
        padding: i64,
        container_size: i64,
    ) -> (r: i64)
        requires
            coord_ok(position as int),
            coord_measured(size as int),
            coord_ok(padding as int),
            coord_ok(container_size as int),
        ensures
            r as int == spec_aligned_position(
                alignment,
                position as int,
                size as int,
                padding as int,
                container_size as int,
            ),
            -5 * (COORD_LIMIT as int) <= r as int <= 5 * (COORD_LIMIT as int),
    {
        proof {
            lemma_aligned_position_bounds(
                alignment,
                position as int,
                size as int,
                padding as int,
                container_size as int,
            );
        }
        match alignment {
            Alignment::Middle | Alignment::Stretch => {
                let t: i64 = container_size - size + padding * 2;
                let h: i64 = if t >= 0 {
                    t / 2
                } else {
                    -((-t) / 2)
                };
                h + position
            },
            Alignment::Back => container_size - size,
            Alignment::Front => position + padding,
        }
    }

    /// The element state after one arrange into `container`: the outer
    /// bounds are the container origin shifted by the per-axis resolved
    /// offsets, at the measured size; the content area removes the padding
    /// from the outer bounds; the base engine applies no scroll offset and
    /// has no clipping ancestor, so the offset and visible rectangles
    /// coincide with them; and the container is cached for the next pass.
    pub open spec fn arranged(self, container: Rect) -> UIElement {
        let ox = spec_aligned_position(
            self.horizontal_alignment,
            self.position.x as int,
            self.measured_size.x as int,
            self.padding.x as int,
            container.width as int,
        );
        let oy = spec_aligned_position(
            self.vertical_alignment,
            self.position.y as int,
            self.measured_size.y as int,
            self.padding.y as int,
            container.height as int,
        );
        let outer = Rect {
            x: (container.x + ox) as i64,
            y: (container.y + oy) as i64,
            width: self.measured_size.x,
            height: self.measured_size.y,
        };
        let inner = Rect {
            x: (outer.x + self.padding.x) as i64,
            y: (outer.y + self.padding.y) as i64,
            width: (self.measured_size.x - self.padding.x * 2) as i64,
            height: (self.measured_size.y - self.padding.y * 2) as i64,
        };
        UIElement {
            content_area: inner,
            offset_content_area: inner,
            visible_content_area: inner,
            visible_bounds: outer,
            last_measure_container_bounds: container,
            ..self
        }
    }

    /// One arrange pass: place the element within `container` by the
    /// alignment rules and rewrite every cached placement rectangle.
    pub fn arrange(&mut self, container: Rect)
        requires
            old(self).wf(),
            container.wf(),
        ensures
            *final(self) == old(self).arranged(container),
            final(self).wf(),
    {
        self.adjust_to_container(container);
    }

    /// The element's own placement within the container; the extension
    /// point for variant-specific placement of children would follow it.
    fn adjust_to_container(&mut self, container: Rect)
        requires
            old(self).wf(),
            container.wf(),
        ensures
            *final(self) == old(self).arranged(container),
            final(self).wf(),
    {
        let ox = Self::get_aligned_position(
            self.horizontal_alignment,
            self.position.x,
            self.measured_size.x,
            self.padding.x,
            container.width,
        );
        let oy = Self::get_aligned_position(
            self.vertical_alignment,
            self.position.y,
            self.measured_size.y,
            self.padding.y,
            container.height,
        );
        let outer = Rect {
            x: container.x + ox,
            y: container.y + oy,
            width: self.measured_size.x,
            height: self.measured_size.y,
        };
        let inner = Rect {
            x: outer.x + self.padding.x,
            y: outer.y + self.padding.y,
            width: self.measured_size.x - self.padding.x * 2,
            height: self.measured_size.y - self.padding.y * 2,
        };
        self.content_area = inner;
        self.offset_content_area = inner;
        self.visible_content_area = inner;
        self.visible_bounds = outer;
        self.last_measure_container_bounds = container;
    }

    fn rect_placed_ok(rect: &Rect) -> (r: bool)
        ensures
            r == rect.placed_wf(),
    {
        -8 * COORD_LIMIT <= rect.x && rect.x <= 8 * COORD_LIMIT && -8 * COORD_LIMIT <= rect.y
            && rect.y <= 8 * COORD_LIMIT && -8 * COORD_LIMIT <= rect.width && rect.width <= 8
            * COORD_LIMIT && -8 * COORD_LIMIT <= rect.height && rect.height <= 8 * COORD_LIMIT
    }
}

} // verus!
