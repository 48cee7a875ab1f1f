//! The view state: which box is current, and the boxes themselves.

use vstd::prelude::*;
use crate::collection;
use crate::collection::boxes_of;
use crate::color::Color;
use crate::scale::clamp_raw;
use crate::scale::Scale;
use crate::scale::SCALE_ONE;
use crate::test_box::TestBox;

verus! {

/// No two positions of `boxes` carry the same name.
pub open spec fn names_distinct(boxes: Seq<TestBox>) -> bool {
    forall|i: int, j: int|
        0 <= i < j < boxes.len() ==> (#[trigger] boxes[i]).name@ != (#[trigger] boxes[j]).name@
}

/// The mathematical content of the view state.
pub struct AppView {
    /// Position of the current box.
    pub current_view: nat,
    /// The boxes, in their fixed order.
    pub boxes: Seq<TestBox>,
}

impl AppView {
    /// The selection refers to an existing box, every box is valid, and names
    /// are unique.
    pub open spec fn wf(self) -> bool {
        &&& self.current_view < self.boxes.len()
        &&& forall|i: int| 0 <= i < self.boxes.len() ==> (#[trigger] self.boxes[i]).wf()
        &&& names_distinct(self.boxes)
    }

    /// The box that the selection refers to.
    pub open spec fn selected(self) -> TestBox {
        self.boxes[self.current_view as int]
    }

    /// What the scale control shows: the scale of the selected box.
    pub open spec fn scale(self) -> Scale {
        self.selected().scale
    }

    /// The state after the selector for position `index` was activated.
    pub open spec fn select(self, index: nat) -> AppView {
        AppView { current_view: index, boxes: self.boxes }
    }

    /// The state after the scale control was moved to `raw` millionths.
    pub open spec fn set_scale(self, raw: int) -> AppView {
        AppView {
            current_view: self.current_view,
            boxes: self.boxes.update(
                self.current_view as int,
                self.selected().with_scale(Scale::from_raw(raw)),
            ),
        }
    }
}

/// Selecting a box and then reading the scale control yields the scale stored
/// for that very box, whatever was current before.
pub proof fn lemma_select_then_read(state: AppView, index: nat)
    requires
        state.wf(),
        index < state.boxes.len(),
    ensures
        state.select(index).wf(),
        state.select(index).boxes == state.boxes,
        state.select(index).scale() == state.boxes[index as int].scale,
{
}

/// Moving the scale control stores the clamped value in the current box and
/// nowhere else: the selection, the number of boxes, the current box's name
/// and colour, and every other box stay as they were.
pub proof fn lemma_set_scale_only_current(state: AppView, raw: int)
    requires
        state.wf(),
    ensures
        state.set_scale(raw).wf(),
        state.set_scale(raw).current_view == state.current_view,
        state.set_scale(raw).boxes.len() == state.boxes.len(),
        state.set_scale(raw).scale()@ == clamp_raw(raw),
        state.set_scale(raw).selected().name == state.selected().name,
        state.set_scale(raw).selected().color == state.selected().color,
        forall|j: int|
            0 <= j < state.boxes.len() && j != state.current_view ==> state.set_scale(
                raw,
            ).boxes[j] == state.boxes[j],
{
    Scale::lemma_from_raw(raw);
}

/// After the scale control was moved and then another box selected, the
/// control shows that box's own stored scale; nothing carries over from the
/// box that was current before. Selecting the same box again shows the value
/// just stored.
pub proof fn lemma_no_carry_over(state: AppView, raw: int, index: nat)
    requires
        state.wf(),
        index < state.boxes.len(),
    ensures
        index != state.current_view ==> state.set_scale(raw).select(index).scale()
            == state.boxes[index as int].scale,
        index == state.current_view ==> state.set_scale(raw).select(index).scale()@ == clamp_raw(
            raw,
        ),
{
    Scale::lemma_from_raw(raw);
}

/// Moving the scale control to a value already within range stores that
/// value unchanged.
pub proof fn lemma_set_scale_in_range(state: AppView, raw: int)
    requires
        state.wf(),
        0 <= raw <= SCALE_ONE,
    ensures
        state.set_scale(raw).scale()@ == raw,
{
    Scale::lemma_from_raw(raw);
}

/// The boxes every session starts with: red, green and blue, in that order.
pub open spec fn seed_boxes() -> Seq<TestBox> {
    seq![
        TestBox::seeded("red", Color { r: 255, g: 0, b: 0 }),
        TestBox::seeded("green", Color { r: 0, g: 128, b: 0 }),
        TestBox::seeded("blue", Color { r: 0, g: 0, b: 255 }),
    ]
}

/// The state every session starts in: the seed boxes, the first one current.
pub open spec fn seed_view() -> AppView {
    AppView { current_view: 0, boxes: seed_boxes() }
}

/// The seed boxes, in order.
pub fn init_boxes() -> (boxes: Vec<TestBox>)
    ensures
        boxes@ == seed_boxes(),
{
    let mut boxes: Vec<TestBox> = Vec::new();
    boxes.push(TestBox::new("red", Color::red()));
    boxes.push(TestBox::new("green", Color::green()));
    boxes.push(TestBox::new("blue", Color::blue()));
    assert(boxes@ =~= seed_boxes());
    boxes
}

/// The seed state is a valid state.
pub proof fn lemma_seed_view_wf()
    ensures
        seed_view().wf(),
{
    reveal_strlit("red");
    reveal_strlit("green");
    reveal_strlit("blue");
    let boxes = seed_boxes();
    Scale::lemma_from_raw(crate::scale::SCALE_SEED as int);
    assert(boxes[0].name@.len() == 3);
    assert(boxes[1].name@.len() == 5);
    assert(boxes[2].name@.len() == 4);
}

/// The view state of the application.
#[derive(Debug)]
pub struct AppData {
    current_view: usize,
    boxes: im::Vector<TestBox>,
}

impl View for AppData {
    type V = AppView;

    closed spec fn view(&self) -> AppView {
        AppView { current_view: self.current_view as nat, boxes: boxes_of(self.boxes) }
    }
}

impl Clone for AppData {
    /// A copy with the same content.
    fn clone(&self) -> (copy: AppData)
        ensures
            copy@ == self@,
    {
        AppData { current_view: self.current_view, boxes: collection::duplicate(&self.boxes) }
    }
}

impl AppData {
    /// The state is valid when its content is.
    pub open spec fn wf(&self) -> bool {
        self@.wf()
    }

    /// The state every session starts in.
    pub fn init() -> (data: AppData)
        ensures
            data.wf(),
            data@ == seed_view(),
    {
        let seed = init_boxes();
        let mut boxes = collection::empty();
        let mut i: usize = 0;
        while i < seed.len()
            invariant
                i <= seed.len(),
                boxes_of(boxes) == seed@.take(i as int),
            decreases seed.len() - i,
        {
            collection::push_back(&mut boxes, seed[i]);
            assert(seed@.take(i as int).push(seed@[i as int]) =~= seed@.take(i + 1));
            i += 1;
        }
        assert(seed@.take(seed.len() as int) =~= seed@);
        proof {
            lemma_seed_view_wf();
        }
        AppData { current_view: 0, boxes }
    }

    /// The number of boxes.
    pub fn len(&self) -> (n: usize)
        ensures
            n == self@.boxes.len(),
    {
        collection::len(&self.boxes)
    }

    /// The position of the current box.
    pub fn current_view(&self) -> (index: usize)
        ensures
            index == self@.current_view,
    {
        self.current_view
    }

    /// The box at `index`, if there is one.
    pub fn get(&self, index: usize) -> (found: Option<TestBox>)
        ensures
            index < self@.boxes.len() ==> found == Some(self@.boxes[index as int]),
            index >= self@.boxes.len() ==> found.is_none(),
    {
        if index < collection::len(&self.boxes) {
            Some(*collection::at(&self.boxes, index))
        } else {
            None
        }
    }

    /// The current box.
    pub fn current_box(&self) -> (b: TestBox)
        requires
            self.wf(),
        ensures
            b == self@.selected(),
            b.wf(),
    {
        *collection::at(&self.boxes, self.current_view)
    }

    /// What the scale control shows: the scale of the current box.
    pub fn scale(&self) -> (s: Scale)
        requires
            self.wf(),
        ensures
            s == self@.scale(),
            s.wf(),
    {
        self.current_box().scale
    }

    /// Makes the box at `index` the current one. The boxes are left as they
    /// are.
    pub fn select(&mut self, index: usize)
        requires
            old(self).wf(),
            index < old(self)@.boxes.len(),
        ensures
            final(self).wf(),
            final(self)@ == old(self)@.select(index as nat),
    {
        self.current_view = index;
    }

    /// Moves the scale of the current box to `raw` millionths, clamped to
    /// the range from zero to one. Nothing else changes.
    pub fn set_scale(&mut self, raw: i64)
        requires
            old(self).wf(),
        ensures
            final(self).wf(),
            final(self)@ == old(self)@.set_scale(raw as int),
    {
        let scale = Scale::clamped(raw);
        let updated = self.current_box().rescaled(scale);
        collection::set(&mut self.boxes, self.current_view, updated);
    }
}

} // verus!
