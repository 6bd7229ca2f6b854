//! The dirty-tag layout driver.
//!
//! A `LayoutWorld` keeps, per entity, an optional layout element and two
//! independent dirty tags: needs-measure and needs-arrange. One driver
//! invocation runs the measure pass over every entity tagged needs-measure
//! using that entity's own cached available size, clears the whole
//! needs-measure tag set, then runs the arrange pass over every entity
//! tagged needs-arrange using its cached container bounds, and clears that
//! tag set too. The measure batch completes before any arrange begins; an
//! element measured in an invocation is still eligible for arrange in the
//! same invocation, since the tag sets are independent.

use vstd::prelude::*;
use vstd::pervasive::VecAdditionalExecFns;
use crate::element::UIElement;
use crate::geometry::Dim;
use crate::geometry::Dim2;

verus! {

/// The content measurement the base driver measures under: the content
/// extension point is left to element variants, so the driver reports zero
/// intrinsic size on both axes.
pub open spec fn zero_content() -> Dim2 {
    Dim2 { x: Dim::Finite(0), y: Dim::Finite(0) }
}

/// What the measure half of one invocation does to one entity's element:
/// tagged elements are measured under their own cached available size with
/// zero content, untagged ones are untouched.
pub open spec fn measure_step(e: Option<UIElement>, tagged: bool) -> Option<UIElement> {
    match e {
        Option::None => Option::None,
        Option::Some(el) => Option::Some(
            if tagged {
                el.measure_post_state(el.last_measure_available_size, zero_content())
            } else {
                el
            },
        ),
    }
}

/// What the arrange half of one invocation does to one entity's element:
/// tagged elements are arranged into their own cached container bounds,
/// untagged ones are untouched.
pub open spec fn arrange_step(e: Option<UIElement>, tagged: bool) -> Option<UIElement> {
    match e {
        Option::None => Option::None,
        Option::Some(el) => Option::Some(
            if tagged {
                el.arranged(el.last_measure_container_bounds)
            } else {
                el
            },
        ),
    }
}

/// What one whole invocation does to one entity's element: the measure
/// step, then the arrange step on its outcome.
pub open spec fn stepped(e: Option<UIElement>, needs_measure: bool, needs_arrange: bool) -> Option<
    UIElement,
> {
    arrange_step(measure_step(e, needs_measure), needs_arrange)
}

/// One driver invocation is isolated to the tagged batches: an entity that
/// carries neither tag when the invocation starts keeps its element —
/// every cached rectangle included — bit for bit. (That the invocation
/// also clears the tags of the entities it did process is part of `run`'s
/// own contract.)
pub proof fn lemma_tag_batch_isolation(e: Option<UIElement>)
    ensures
        stepped(e, false, false) == e,
{
}

/// The entity store the layout driver works over: per entity, an optional
/// layout element and the two dirty tags. Entities are dense indices,
/// handed out by `create_entity`; the three columns always have the same
/// length.
pub struct LayoutWorld {
    /// The layout element attached to each entity, if any.
    pub elements: Vec<Option<UIElement>>,
    /// The needs-measure tag set, by entity.
    pub needs_measure: Vec<bool>,
    /// The needs-arrange tag set, by entity.
    pub needs_arrange: Vec<bool>,
}

impl LayoutWorld {
    /// Well-formedness: the columns agree in length and every attached
    /// element is well-formed.
    pub open spec fn wf(self) -> bool {
        &&& self.needs_measure@.len() == self.elements@.len()
        &&& self.needs_arrange@.len() == self.elements@.len()
        &&& forall|i: int|
            0 <= i < self.elements@.len() && self.elements@[i] is Some ==> (
            #[trigger] self.elements@[i])->0.wf()
    }

    /// An empty world.
    pub fn new() -> (r: LayoutWorld)
        ensures
            r.wf(),
            r.elements@.len() == 0,
    {
        LayoutWorld { elements: Vec::new(), needs_measure: Vec::new(), needs_arrange: Vec::new() }
    }

    /// How many entities exist.
    pub fn entity_count(&self) -> (r: usize)
        ensures
            r == self.elements@.len(),
    {
        self.elements.len()
    }

    /// Create a fresh entity, with no element and no tags; its identifier
    /// is the next dense index.
    pub fn create_entity(&mut self) -> (id: usize)
        requires
            old(self).wf(),
        ensures
            final(self).wf(),
            id == old(self).elements@.len(),
            final(self).elements@ == old(self).elements@.push(Option::None),
            final(self).needs_measure@ == old(self).needs_measure@.push(false),
            final(self).needs_arrange@ == old(self).needs_arrange@.push(false),
    {
        let id = self.elements.len();
        self.elements.push(None);
        self.needs_measure.push(false);
        self.needs_arrange.push(false);
        id
    }

    /// Attach a layout element to an entity, replacing any element it had.
    pub fn attach_element(&mut self, id: usize, element: UIElement)
        requires
            old(self).wf(),
            id < old(self).elements@.len(),
            element.wf(),
        ensures
            final(self).wf(),
            final(self).elements@ == old(self).elements@.update(id as int, Option::Some(element)),
            final(self).needs_measure@ == old(self).needs_measure@,
            final(self).needs_arrange@ == old(self).needs_arrange@,
    {
        self.elements.set(id, Some(element));
    }

    /// Detach the layout element of an entity, if it has one.
    pub fn detach_element(&mut self, id: usize)
        requires
            old(self).wf(),
            id < old(self).elements@.len(),
        ensures
            final(self).wf(),
            final(self).elements@ == old(self).elements@.update(id as int, Option::None),
            final(self).needs_measure@ == old(self).needs_measure@,
            final(self).needs_arrange@ == old(self).needs_arrange@,
    {
        self.elements.set(id, None);
    }

    /// Read an entity's element.
    pub fn element(&self, id: usize) -> (r: Option<UIElement>)
        requires
            id < self.elements@.len(),
        ensures
            r == self.elements@[id as int],
    {
        self.elements[id]
    }

    /// Tag an entity as needing a measure pass.
    pub fn tag_needs_measure(&mut self, id: usize)
        requires
            old(self).wf(),
            id < old(self).elements@.len(),
        ensures
            final(self).wf(),
            final(self).elements@ == old(self).elements@,
            final(self).needs_measure@ == old(self).needs_measure@.update(id as int, true),
            final(self).needs_arrange@ == old(self).needs_arrange@,
    {
        self.needs_measure.set(id, true);
    }

    /// Tag an entity as needing an arrange pass.
    pub fn tag_needs_arrange(&mut self, id: usize)
        requires
            old(self).wf(),
            id < old(self).elements@.len(),
        ensures
            final(self).wf(),
            final(self).elements@ == old(self).elements@,
            final(self).needs_measure@ == old(self).needs_measure@,
            final(self).needs_arrange@ == old(self).needs_arrange@.update(id as int, true),
    {
        self.needs_arrange.set(id, true);
    }

    /// Read an entity's needs-measure tag.
    pub fn is_tagged_needs_measure(&self, id: usize) -> (r: bool)
        requires
            self.wf(),
            id < self.elements@.len(),
        ensures
            r == self.needs_measure@[id as int],
    {
        self.needs_measure[id]
    }

    /// Read an entity's needs-arrange tag.
    pub fn is_tagged_needs_arrange(&self, id: usize) -> (r: bool)
        requires
            self.wf(),
            id < self.elements@.len(),
        ensures
            r == self.needs_arrange@[id as int],
    {
        self.needs_arrange[id]
    }

    /// Executable check of `wf`, for callers outside verified code.
    pub fn check_wf(&self) -> (r: bool)
        ensures
            r == self.wf(),
    {
        if self.needs_measure.len() != self.elements.len() || self.needs_arrange.len()
            != self.elements.len() {
            return false;
        }
        let n = self.elements.len();
        let mut i: usize = 0;
        while i < n
            invariant
                n == self.elements@.len(),
                i <= n,
                forall|j: int|
                    0 <= j < i && self.elements@[j] is Some ==> (#[trigger] self.elements@[j])->0.wf(),
            decreases n - i,
        {
            match &self.elements[i] {
                Some(el) => {
                    if !el.is_wf() {
                        return false;
                    }
                },
                None => {},
            }
            i += 1;
        }
        true
    }

    /// One driver invocation. The whole needs-measure batch is measured —
    /// each entity under its own cached available size — and that tag set
    /// is cleared in bulk; then the whole needs-arrange batch is arranged
    /// — each entity into its own cached container bounds — and that tag
    /// set is cleared. Entities outside both batches are untouched.
    pub fn run(&mut self)
        requires
            old(self).wf(),
        ensures
            final(self).wf(),
            final(self).elements@.len() == old(self).elements@.len(),
            forall|i: int|
                0 <= i < old(self).elements@.len() ==> final(self).elements@[i] == stepped(
                    old(self).elements@[i],
                    old(self).needs_measure@[i],
                    old(self).needs_arrange@[i],
                ),
            final(self).needs_measure@.len() == old(self).needs_measure@.len(),
            final(self).needs_arrange@.len() == old(self).needs_arrange@.len(),
            forall|i: int|
                0 <= i < old(self).elements@.len() ==> !(#[trigger] final(self).needs_measure@[i]),
            forall|i: int|
                0 <= i < old(self).elements@.len() ==> !(#[trigger] final(self).needs_arrange@[i]),
    {
        let n = self.elements.len();
        let ghost elems0 = self.elements@;
        let ghost measure_tags = self.needs_measure@;
        let ghost arrange_tags = self.needs_arrange@;

        let mut i: usize = 0;
        while i < n
            invariant
                self.wf(),
                n == self.elements@.len(),
                i <= n,
                elems0.len() == n,
                measure_tags.len() == n,
                self.needs_measure@ == measure_tags,
                self.needs_arrange@ == arrange_tags,
                forall|j: int|
                    0 <= j < i ==> self.elements@[j] == measure_step(elems0[j], measure_tags[j]),
                forall|j: int| i <= j < n ==> self.elements@[j] == elems0[j],
            decreases n - i,
        {
            if self.needs_measure[i] {
                match self.elements[i] {
                    Some(mut el) => {
                        let available = el.last_measure_available_size;
                        let _ = el.measure_with_content(available, Dim2::zero());
                        self.elements.set(i, Some(el));
                    },
                    None => {},
                }
            }
            i += 1;
        }

        let mut i: usize = 0;
        while i < n
            invariant
                self.wf(),
                n == self.elements@.len(),
                n == self.needs_measure@.len(),
                i <= n,
                self.needs_arrange@ == arrange_tags,
                elems0.len() == n,
                measure_tags.len() == n,
                forall|j: int| 0 <= j < i ==> !(#[trigger] self.needs_measure@[j]),
                forall|j: int|
                    0 <= j < n ==> self.elements@[j] == measure_step(elems0[j], measure_tags[j]),
            decreases n - i,
        {
            self.needs_measure.set(i, false);
            i += 1;
        }

        let ghost elems1 = self.elements@;

        let mut i: usize = 0;
        while i < n
            invariant
                self.wf(),
                n == self.elements@.len(),
                i <= n,
                elems1.len() == n,
                arrange_tags.len() == n,
                self.needs_arrange@ == arrange_tags,
                forall|j: int| 0 <= j < n ==> !(#[trigger] self.needs_measure@[j]),
                n == self.needs_measure@.len(),
                forall|j: int|
                    0 <= j < i ==> self.elements@[j] == arrange_step(elems1[j], arrange_tags[j]),
                forall|j: int| i <= j < n ==> self.elements@[j] == elems1[j],
            decreases n - i,
        {
            if self.needs_arrange[i] {
                match self.elements[i] {
                    Some(mut el) => {
                        let container = el.last_measure_container_bounds;
                        el.arrange(container);
                        self.elements.set(i, Some(el));
                    },
                    None => {},
                }
            }
            i += 1;
        }

        let mut i: usize = 0;
        while i < n
            invariant
                self.wf(),
                n == self.elements@.len(),
                n == self.needs_arrange@.len(),
                n == self.needs_measure@.len(),
                i <= n,
                forall|j: int| 0 <= j < n ==> !(#[trigger] self.needs_measure@[j]),
                forall|j: int| 0 <= j < i ==> !(#[trigger] self.needs_arrange@[j]),
                forall|j: int|
                    0 <= j < n ==> self.elements@[j] == arrange_step(elems1[j], arrange_tags[j]),
                forall|j: int|
                    0 <= j < n ==> elems1[j] == measure_step(elems0[j], measure_tags[j]),
            decreases n - i,
        {
            self.needs_arrange.set(i, false);
            i += 1;
        }
    }
}

} // verus!
