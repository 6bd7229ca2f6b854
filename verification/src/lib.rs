//! A retained-mode UI layout engine core.
//!
//! Given elements with declarative sizing and alignment rules, the engine
//! computes each element's measured size (constraint-based) and its final
//! placement rectangles (alignment-based), re-running only for elements
//! marked dirty. The crate holds the layout algorithm itself: the measure
//! pass, the arrange pass, the per-axis alignment resolution rules, and the
//! dirty-tag driver that decides which elements are recomputed and in what
//! order. Entity storage, scheduling and diagnostics are collaborators kept
//! outside this crate.

pub mod align;
pub mod driver;
pub mod element;
pub mod geometry;

pub use align::Alignment;
pub use driver::LayoutWorld;
pub use element::ContentMeasurable;
pub use element::MeasureError;
pub use element::UIElement;
pub use element::ZeroContent;
pub use geometry::COORD_LIMIT;
pub use geometry::Dim;
pub use geometry::Dim2;
pub use geometry::Rect;
pub use geometry::Size;
pub use geometry::Vec2;
