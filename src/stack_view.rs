//! A stack of independently laid-out layers, of which only the topmost
//! receives events.

use vstd::prelude::*;
use crate::event::{Event, EventResult};
use crate::position::{Offset, Position};
use crate::shadow_view::ShadowView;
use crate::vec::Vec2;
use crate::view::{
    Canvas, Direction, DrawOp, Printer, Selector, ViewNode, Visitor, lemma_covers_concat,
    lemma_covers_within, next_count,
};

verus! {

/// How a layer is placed on the screen.
#[derive(Clone, Copy, Debug, PartialEq, Eq, Hash)]
pub enum Placement {
    /// At a position, possibly relative to the previous layer.
    Floating(Position),
    /// Over the whole screen, at the origin.
    Fullscreen,
}

impl Placement {
    /// The top-left corner of a layer of `size` on a screen of `available`,
    /// the previous layer standing at `parent`.
    pub open spec fn spec_offset(self, size: Vec2, available: Vec2, parent: Vec2) -> Vec2 {
        match self {
            Placement::Floating(p) => p.spec_offset(size, available, parent),
            Placement::Fullscreen => Vec2::zero_spec(),
        }
    }

    /// Computes `spec_offset`.
    pub fn compute_offset(&self, size: Vec2, available: Vec2, parent: Vec2) -> (r: Vec2)
        ensures
            r == self.spec_offset(size, available, parent),
    {
        match self {
            Placement::Floating(position) => position.compute_offset(size, available, parent),
            Placement::Fullscreen => Vec2::zero(),
        }
    }
}

/// The view of a layer: framed by a shadow, or bare for a fullscreen layer.
pub enum LayerView<V> {
    Framed(ShadowView<V>),
    Plain(V),
}

impl<N: ViewNode> ViewNode for LayerView<N> {
    open spec fn requested(&self, constraint: Vec2) -> Vec2 {
        match self {
            LayerView::Framed(s) => s.requested(constraint),
            LayerView::Plain(v) => v.requested(constraint),
        }
    }

    open spec fn finds(&self, selector: Selector) -> bool {
        match self {
            LayerView::Framed(s) => s.finds(selector),
            LayerView::Plain(v) => v.finds(selector),
        }
    }

    open spec fn answer(&self, event: Event) -> EventResult {
        match self {
            LayerView::Framed(s) => s.answer(event),
            LayerView::Plain(v) => v.answer(event),
        }
    }

    open spec fn focus_answer(&self, source: Direction) -> bool {
        match self {
            LayerView::Framed(s) => s.focus_answer(source),
            LayerView::Plain(v) => v.focus_answer(source),
        }
    }

    open spec fn drawing(&self, printer: Printer) -> Seq<DrawOp> {
        match self {
            LayerView::Framed(s) => s.drawing(printer),
            LayerView::Plain(v) => v.drawing(printer),
        }
    }

    open spec fn matches(&self, selector: Selector) -> Seq<Seq<char>> {
        match self {
            LayerView::Framed(s) => s.matches(selector),
            LayerView::Plain(v) => v.matches(selector),
        }
    }

    open spec fn laid_out_at(&self) -> Option<Vec2> {
        match self {
            LayerView::Framed(s) => s.laid_out_at(),
            LayerView::Plain(v) => v.laid_out_at(),
        }
    }

    open spec fn focus_offers(&self) -> u64 {
        match self {
            LayerView::Framed(s) => s.focus_offers(),
            LayerView::Plain(v) => v.focus_offers(),
        }
    }

    fn required_size(&mut self, constraint: Vec2) -> (r: Vec2) {
        match self {
            LayerView::Framed(s) => s.required_size(constraint),
            LayerView::Plain(v) => v.required_size(constraint),
        }
    }

    fn layout(&mut self, size: Vec2) {
        match self {
            LayerView::Framed(s) => s.layout(size),
            LayerView::Plain(v) => v.layout(size),
        }
    }

    fn draw(&self, printer: &Printer, canvas: &mut Canvas) {
        match self {
            LayerView::Framed(s) => s.draw(printer, canvas),
            LayerView::Plain(v) => v.draw(printer, canvas),
        }
    }

    fn on_event(&mut self, event: Event) -> (r: EventResult) {
        match self {
            LayerView::Framed(s) => s.on_event(event),
            LayerView::Plain(v) => v.on_event(event),
        }
    }

    fn take_focus(&mut self, source: Direction) -> (r: bool) {
        match self {
            LayerView::Framed(s) => s.take_focus(source),
            LayerView::Plain(v) => v.take_focus(source),
        }
    }

    fn call_on_any<V: Visitor>(&mut self, selector: &Selector, visitor: &mut V) {
        match self {
            LayerView::Framed(s) => s.call_on_any(selector, visitor),
            LayerView::Plain(v) => v.call_on_any(selector, visitor),
        }
    }

    fn focus_view(&mut self, selector: &Selector) -> (r: Result<(), ()>) {
        match self {
            LayerView::Framed(s) => s.focus_view(selector),
            LayerView::Plain(v) => v.focus_view(selector),
        }
    }
}

/// One entry of the stack.
pub struct Child<V> {
    /// The layer's view.
    pub view: LayerView<V>,
    /// The size it was given at the last layout.
    pub size: Vec2,
    /// Where it was placed at the last layout.
    pub position: Vec2,
    /// How it is placed.
    pub placement: Placement,
    /// Set until the first layout, after which the layer is offered focus.
    pub virgin: bool,
}

/// `b` is `a` after calls that keep every answer its view gives.
pub open spec fn same_answers<V: ViewNode>(a: Child<V>, b: Child<V>) -> bool {
    &&& b.size == a.size
    &&& b.position == a.position
    &&& b.placement == a.placement
    &&& b.virgin == a.virgin
    &&& forall|c: Vec2| #[trigger] b.view.requested(c) == a.view.requested(c)
    &&& forall|s: Selector| #[trigger] b.view.finds(s) == a.view.finds(s)
}

/// The largest request of the first `n` layers under `constraint`, and at
/// least one cell on each axis.
pub open spec fn max_requested<V: ViewNode>(layers: Seq<Child<V>>, constraint: Vec2, n: int) -> Vec2
    decreases n,
{
    if n <= 0 {
        Vec2 { x: 1, y: 1 }
    } else {
        max_requested(layers, constraint, n - 1).spec_max(layers[n - 1].view.requested(constraint))
    }
}

/// The index of the layer that receives events: the topmost, if any.
pub open spec fn routed_layer<V>(layers: Seq<Child<V>>) -> Option<int> {
    if layers.len() == 0 {
        None
    } else {
        Some(layers.len() - 1)
    }
}

/// Where the layers stand on a screen of `available`: the `i`-th is placed
/// by its placement, relative to the `(i-1)`-th.
pub open spec fn chain_offset<V>(layers: Seq<Child<V>>, available: Vec2, n: int) -> Vec2
    decreases n,
{
    if n <= 0 {
        Vec2::zero_spec()
    } else {
        layers[n - 1].placement.spec_offset(
            layers[n - 1].size,
            available,
            chain_offset(layers, available, n - 1),
        )
    }
}

/// `after` is `before` laid out on a screen of `size`: each layer got what
/// it asked for within `size`, its view was laid out at that size, it was
/// placed after the previous one, its view was offered focus once exactly
/// where the layer was virgin, and it is no longer virgin.
pub open spec fn laid_out<V: ViewNode>(before: Seq<Child<V>>, after: Seq<Child<V>>, size: Vec2) -> bool {
    &&& after.len() == before.len()
    &&& forall|i: int|
        0 <= i < after.len() ==> {
            &&& (#[trigger] after[i]).size == size.spec_min(before[i].view.requested(size))
            &&& after[i].placement == before[i].placement
            &&& !after[i].virgin
            &&& after[i].position == chain_offset(after, size, i + 1)
            &&& after[i].view.laid_out_at() == Some(after[i].size)
            &&& after[i].view.focus_offers() == if before[i].virgin {
                next_count(before[i].view.focus_offers())
            } else {
                before[i].view.focus_offers()
            }
        }
}

/// The identifiers the first `n` layers hand to a visitor for `selector`,
/// bottom first.
pub open spec fn all_matches<V: ViewNode>(layers: Seq<Child<V>>, selector: Selector, n: int) -> Seq<Seq<char>>
    decreases n,
{
    if n <= 0 {
        Seq::empty()
    } else {
        all_matches(layers, selector, n - 1) + layers[n - 1].view.matches(selector)
    }
}

/// The region that the `i`-th of `layers` draws in on `printer`: at its
/// place in the chain of offsets, of its size, focused only on top.
pub open spec fn layer_printer<V>(layers: Seq<Child<V>>, printer: Printer, i: int) -> Printer {
    printer.spec_sub(
        chain_offset(layers, printer.size, i + 1),
        layers[i].size,
        i + 1 == layers.len(),
    )
}

/// The cells the first `n` layers write on `printer`, bottom first.
pub open spec fn stack_drawing<V: ViewNode>(layers: Seq<Child<V>>, printer: Printer, n: int) -> Seq<DrawOp>
    decreases n,
{
    if n <= 0 {
        Seq::empty()
    } else {
        stack_drawing(layers, printer, n - 1) + layers[n - 1].view.drawing(
            layer_printer(layers, printer, n - 1),
        )
    }
}

/// The answer of a stack of `layers` to `event`: that of the topmost layer
/// to the event relative to it; `Ignored` where there is no layer or the
/// event falls outside the topmost one.
pub open spec fn routed_answer<V: ViewNode>(layers: Seq<Child<V>>, event: Event) -> EventResult {
    if layers.len() == 0 {
        EventResult::Ignored
    } else {
        match event.relative_to(layers.last().position, Some(layers.last().size)) {
            Some(e) => layers.last().view.answer(e),
            None => EventResult::Ignored,
        }
    }
}

proof fn lemma_max_requested_same<V: ViewNode>(a: Seq<Child<V>>, b: Seq<Child<V>>, c: Vec2, n: int)
    requires
        a.len() == b.len(),
        0 <= n <= a.len(),
        forall|j: int| 0 <= j < a.len() ==> same_answers(a[j], #[trigger] b[j]),
    ensures
        max_requested(a, c, n) == max_requested(b, c, n),
    decreases n,
{
    if n > 0 {
        lemma_max_requested_same(a, b, c, n - 1);
        assert(same_answers(a[n - 1], b[n - 1]));
    }
}

proof fn lemma_chain_prefix<V>(a: Seq<Child<V>>, b: Seq<Child<V>>, available: Vec2, n: int)
    requires
        0 <= n <= a.len(),
        n <= b.len(),
        forall|j: int| 0 <= j < n ==> #[trigger] a[j] == b[j],
    ensures
        chain_offset(a, available, n) == chain_offset(b, available, n),
    decreases n,
{
    if n > 0 {
        lemma_chain_prefix(a, b, available, n - 1);
    }
}

/// Simple stack of views. Only the topmost view is active and receives
/// input.
pub struct StackView<V> {
    layers: Vec<Child<V>>,
    last_size: Vec2,
    last_layout: Ghost<Option<Vec2>>,
    offers: Ghost<u64>,
}

impl<V: ViewNode> StackView<V> {
    /// The layers, bottom first.
    pub closed spec fn layers(&self) -> Seq<Child<V>> {
        self.layers@
    }

    /// The screen size of the last layout.
    pub closed spec fn last_size(&self) -> Vec2 {
        self.last_size
    }

    /// The size of the last layout, if there was one.
    pub closed spec fn last_layout(&self) -> Option<Vec2> {
        self.last_layout@
    }

    /// How many times the stack has been offered focus, modulo 2^64.
    pub closed spec fn offer_count(&self) -> u64 {
        self.offers@
    }

    /// Creates a new, empty stack.
    pub fn new() -> (r: Self)
        ensures
            r.layers() == Seq::<Child<V>>::empty(),
            r.last_size() == Vec2::zero_spec(),
            r.last_layout() is None,
            r.offer_count() == 0,
    {
        StackView {
            layers: Vec::new(),
            last_size: Vec2::zero(),
            last_layout: Ghost(None),
            offers: Ghost(0),
        }
    }

    /// Adds a new full-screen layer on top of the stack. Fullscreen layers
    /// have no shadow.
    pub fn add_fullscreen_layer(&mut self, view: V)
        ensures
            final(self).layers() == old(self).layers().push(
                Child {
                    view: LayerView::Plain(view),
                    size: Vec2::zero_spec(),
                    position: Vec2::zero_spec(),
                    placement: Placement::Fullscreen,
                    virgin: true,
                },
            ),
            final(self).last_size() == old(self).last_size(),
    {
        self.layers.push(
            Child {
                view: LayerView::Plain(view),
                size: Vec2::zero(),
                position: Vec2::zero(),
                placement: Placement::Fullscreen,
                virgin: true,
            },
        );
    }

    /// Adds a view on top of the stack, framed, at `position`. A padding is
    /// kept on each axis where the view is centered, and left out where it
    /// is placed at an offset.
    pub fn add_layer_at(&mut self, position: Position, view: V)
        ensures
            final(self).layers().len() == old(self).layers().len() + 1,
            final(self).layers().drop_last() == old(self).layers(),
            ({
                let top = final(self).layers().last();
                &&& top.view is Framed
                &&& top.view->Framed_0.inner() == view
                &&& top.view->Framed_0.pads_top() == (position.y is Center)
                &&& top.view->Framed_0.pads_left() == (position.x is Center)
                &&& top.size == Vec2::zero_spec()
                &&& top.position == Vec2::zero_spec()
                &&& top.placement == Placement::Floating(position)
                &&& top.virgin
            }),
            final(self).last_size() == old(self).last_size(),
    {
        let top = match position.y {
            Offset::Center => true,
            _ => false,
        };
        let left = match position.x {
            Offset::Center => true,
            _ => false,
        };
        let framed = ShadowView::new(view).top_padding(top).left_padding(left);
        self.layers.push(
            Child {
                view: LayerView::Framed(framed),
                size: Vec2::zero(),
                position: Vec2::zero(),
                placement: Placement::Floating(position),
                virgin: true,
            },
        );
        proof {
            assert(self.layers@.drop_last() =~= old(self).layers@);
        }
    }

    /// Adds a view on top of the stack, in the center of the screen.
    pub fn add_layer(&mut self, view: V)
        ensures
            final(self).layers().len() == old(self).layers().len() + 1,
            final(self).layers().drop_last() == old(self).layers(),
            ({
                let top = final(self).layers().last();
                &&& top.view is Framed
                &&& top.view->Framed_0.inner() == view
                &&& top.view->Framed_0.pads_top()
                &&& top.view->Framed_0.pads_left()
                &&& top.placement == Placement::Floating(
                    Position { x: Offset::Center, y: Offset::Center },
                )
                &&& top.virgin
            }),
            final(self).last_size() == old(self).last_size(),
    {
        self.add_layer_at(Position::center(), view);
    }

    /// Adds a view on top of the stack, in the center of the screen.
    /// Chainable variant.
    pub fn layer(self, view: V) -> (r: Self)
        ensures
            r.layers().len() == self.layers().len() + 1,
            r.layers().drop_last() == self.layers(),
            ({
                let top = r.layers().last();
                &&& top.view is Framed
                &&& top.view->Framed_0.inner() == view
                &&& top.placement == Placement::Floating(
                    Position { x: Offset::Center, y: Offset::Center },
                )
                &&& top.virgin
            }),
    {
        let mut s = self;
        s.add_layer(view);
        s
    }

    /// Adds a new full-screen layer on top of the stack. Chainable variant.
    pub fn fullscreen_layer(self, view: V) -> (r: Self)
        ensures
            r.layers() == self.layers().push(
                Child {
                    view: LayerView::Plain(view),
                    size: Vec2::zero_spec(),
                    position: Vec2::zero_spec(),
                    placement: Placement::Fullscreen,
                    virgin: true,
                },
            ),
    {
        let mut s = self;
        s.add_fullscreen_layer(view);
        s
    }

    /// Adds a view on top of the stack, at `position`. Chainable variant.
    pub fn layer_at(self, position: Position, view: V) -> (r: Self)
        ensures
            r.layers().len() == self.layers().len() + 1,
            r.layers().drop_last() == self.layers(),
            ({
                let top = r.layers().last();
                &&& top.view is Framed
                &&& top.view->Framed_0.inner() == view
                &&& top.placement == Placement::Floating(position)
                &&& top.virgin
            }),
    {
        let mut s = self;
        s.add_layer_at(position, view);
        s
    }

    /// Removes the topmost layer, if any.
    pub fn pop_layer(&mut self)
        ensures
            old(self).layers().len() == 0 ==> final(self).layers() == old(self).layers(),
            old(self).layers().len() > 0 ==> final(self).layers() == old(self).layers().drop_last(),
            final(self).last_size() == old(self).last_size(),
    {
        if self.layers.len() > 0 {
            let _ = self.layers.pop();
            proof {
                assert(self.layers@ =~= old(self).layers@.drop_last());
            }
        }
    }

    /// The number of layers.
    pub fn len(&self) -> (r: usize)
        ensures
            r == self.layers().len(),
    {
        self.layers.len()
    }

    /// Computes the offset of the current top view.
    pub fn offset(&self) -> (r: Vec2)
        ensures
            r == chain_offset(self.layers(), self.last_size(), self.layers().len() as int),
    {
        let mut previous = Vec2::zero();
        let mut i: usize = 0;
        while i < self.layers.len()
            invariant
                i <= self.layers@.len(),
                previous == chain_offset(self.layers@, self.last_size, i as int),
            decreases self.layers@.len() - i,
        {
            let layer = &self.layers[i];
            previous = layer.placement.compute_offset(layer.size, self.last_size, previous);
            i = i + 1;
        }
        previous
    }

    /// Returns the size of each layer, bottom first.
    pub fn layer_sizes(&self) -> (r: Vec<Vec2>)
        ensures
            r@.len() == self.layers().len(),
            forall|i: int| 0 <= i < r@.len() ==> #[trigger] r@[i] == self.layers()[i].size,
    {
        let mut sizes: Vec<Vec2> = Vec::new();
        let mut i: usize = 0;
        while i < self.layers.len()
            invariant
                i <= self.layers@.len(),
                sizes@.len() == i,
                forall|j: int| 0 <= j < i ==> #[trigger] sizes@[j] == self.layers@[j].size,
            decreases self.layers@.len() - i,
        {
            sizes.push(self.layers[i].size);
            i = i + 1;
        }
        sizes
    }
}

impl<V: ViewNode> StackView<V> {
    /// Lays every layer out on a screen of `size`: each gets what it asks
    /// for within `size`, is placed after the previous one, and, the first
    /// time only, is offered focus.
    pub fn layout_layers(&mut self, size: Vec2)
        ensures
            laid_out(old(self).layers(), final(self).layers(), size),
            final(self).last_size() == size,
            final(self).last_layout() == Some(size),
            final(self).offer_count() == old(self).offer_count(),
    {
        self.last_size = size;
        self.last_layout = Ghost(Some(size));
        let mut previous = Vec2::zero();
        let n = self.layers.len();
        let mut i: usize = 0;
        while i < n
            invariant
                n == self.layers@.len(),
                n == old(self).layers@.len(),
                i <= n,
                self.last_size == size,
                forall|j: int| i <= j < n ==> #[trigger] self.layers@[j] == old(self).layers@[j],
                forall|j: int|
                    0 <= j < i ==> {
                        &&& (#[trigger] self.layers@[j]).size == size.spec_min(
                            old(self).layers@[j].view.requested(size),
                        )
                        &&& self.layers@[j].placement == old(self).layers@[j].placement
                        &&& !self.layers@[j].virgin
                        &&& self.layers@[j].position == chain_offset(self.layers@, size, j + 1)
                        &&& self.layers@[j].view.laid_out_at() == Some(self.layers@[j].size)
                        &&& self.layers@[j].view.focus_offers() == if old(self).layers@[j].virgin {
                            next_count(old(self).layers@[j].view.focus_offers())
                        } else {
                            old(self).layers@[j].view.focus_offers()
                        }
                    },
                self.last_layout@ == Some(size),
                self.offers@ == old(self).offer_count(),
                previous == chain_offset(self.layers@, size, i as int),
            decreases n - i,
        {
            let ghost before = self.layers@;
            let req = self.layers[i].view.required_size(size);
            let s = Vec2::min(size, req);
            self.layers[i].size = s;
            self.layers[i].view.layout(s);
            let offset = self.layers[i].placement.compute_offset(s, size, previous);
            self.layers[i].position = offset;
            if self.layers[i].virgin {
                let _ = self.layers[i].view.take_focus(Direction::none());
                self.layers[i].virgin = false;
            }
            previous = offset;
            proof {
                let cur = self.layers@;
                assert forall|j: int| 0 <= j <= i implies #[trigger] chain_offset(cur, size, j)
                    == chain_offset(before, size, j) by {
                    lemma_chain_prefix(before, cur, size, j);
                }
                lemma_chain_prefix(before, cur, size, i as int);
                assert(cur[i as int].placement == before[i as int].placement);
                assert(cur[i as int].size == s);
                assert(chain_offset(cur, size, i + 1) == offset);
                assert forall|j: int| 0 <= j < i implies (#[trigger] cur[j]).position == chain_offset(
                    cur,
                    size,
                    j + 1,
                ) by {
                    assert(chain_offset(cur, size, j + 1) == chain_offset(before, size, j + 1));
                }
            }
            i = i + 1;
        }
    }

    /// Routes an event to the topmost layer, relative to where it stands; a
    /// mouse event outside that layer, or any event on an empty stack, is
    /// ignored. No other layer is touched.
    pub fn route_event(&mut self, event: Event) -> (r: EventResult)
        ensures
            final(self).layers().len() == old(self).layers().len(),
            final(self).last_size() == old(self).last_size(),
            forall|i: int|
                0 <= i < old(self).layers().len() && Some(i) != routed_layer(old(self).layers())
                    ==> #[trigger] final(self).layers()[i] == old(self).layers()[i],
            routed_layer(old(self).layers()) is None ==> r == EventResult::Ignored,
            r == routed_answer(old(self).layers(), event),
            final(self).last_layout() == old(self).last_layout(),
            final(self).offer_count() == old(self).offer_count(),
            ({
                let top = old(self).layers().last();
                routed_layer(old(self).layers()) is Some ==> {
                    &&& final(self).layers().last().size == top.size
                    &&& final(self).layers().last().position == top.position
                    &&& final(self).layers().last().placement == top.placement
                    &&& final(self).layers().last().virgin == top.virgin
                    &&& event.relative_to(top.position, Some(top.size)) is None ==> {
                        &&& r == EventResult::Ignored
                        &&& final(self).layers() == old(self).layers()
                    }
                }
            }),
    {
        let n = self.layers.len();
        if n == 0 {
            return EventResult::Ignored;
        }
        let position = self.layers[n - 1].position;
        let size = self.layers[n - 1].size;
        match event.make_relative(position, Some(size)) {
            Some(e) => self.layers[n - 1].view.on_event(e),
            None => EventResult::Ignored,
        }
    }

    /// Offers focus to the topmost layer, which answers; an empty stack
    /// takes none. No other layer is touched.
    pub fn focus_top(&mut self, source: Direction) -> (r: bool)
        ensures
            routed_layer(old(self).layers()) is None ==> !r && final(self).layers() == old(
                self,
            ).layers(),
            routed_layer(old(self).layers()) is Some ==> {
                &&& r == old(self).layers().last().view.focus_answer(source)
                &&& final(self).layers().last().view.focus_offers() == next_count(
                    old(self).layers().last().view.focus_offers(),
                )
            },
            final(self).layers().len() == old(self).layers().len(),
            forall|i: int|
                0 <= i < old(self).layers().len() && Some(i) != routed_layer(old(self).layers())
                    ==> #[trigger] final(self).layers()[i] == old(self).layers()[i],
            final(self).offer_count() == next_count(old(self).offer_count()),
            final(self).last_layout() == old(self).last_layout(),
    {
        self.offers = Ghost(next_count(self.offers@));
        let n = self.layers.len();
        if n == 0 {
            false
        } else {
            self.layers[n - 1].view.take_focus(source)
        }
    }
}

impl<N: ViewNode> ViewNode for StackView<N> {
    open spec fn requested(&self, constraint: Vec2) -> Vec2 {
        max_requested(self.layers(), constraint, self.layers().len() as int)
    }

    open spec fn finds(&self, selector: Selector) -> bool {
        exists|i: int| 0 <= i < self.layers().len() && (#[trigger] self.layers()[i]).view.finds(selector)
    }

    open spec fn answer(&self, event: Event) -> EventResult {
        routed_answer(self.layers(), event)
    }

    open spec fn focus_answer(&self, source: Direction) -> bool {
        if self.layers().len() == 0 {
            false
        } else {
            self.layers().last().view.focus_answer(source)
        }
    }

    open spec fn drawing(&self, printer: Printer) -> Seq<DrawOp> {
        stack_drawing(self.layers(), printer, self.layers().len() as int)
    }

    open spec fn matches(&self, selector: Selector) -> Seq<Seq<char>> {
        all_matches(self.layers(), selector, self.layers().len() as int)
    }

    open spec fn laid_out_at(&self) -> Option<Vec2> {
        self.last_layout()
    }

    open spec fn focus_offers(&self) -> u64 {
        self.offer_count()
    }

    fn required_size(&mut self, constraint: Vec2) -> (r: Vec2) {
        let mut acc = Vec2::new(1, 1);
        let n = self.layers.len();
        let mut i: usize = 0;
        while i < n
            invariant
                n == self.layers@.len(),
                n == old(self).layers@.len(),
                i <= n,
                acc == max_requested(old(self).layers@, constraint, i as int),
                forall|j: int|
                    0 <= j < n ==> same_answers(old(self).layers@[j], #[trigger] self.layers@[j]),
                self.last_size == old(self).last_size,
                self.last_layout == old(self).last_layout,
                self.offers == old(self).offers,
            decreases n - i,
        {
            let ghost before = self.layers@;
            let req = self.layers[i].view.required_size(constraint);
            acc = Vec2::max(acc, req);
            proof {
                assert(same_answers(old(self).layers@[i as int], before[i as int]));
                assert forall|j: int|
                    0 <= j < n implies same_answers(old(self).layers@[j], #[trigger] self.layers@[j]) by {
                    assert(same_answers(old(self).layers@[j], before[j]));
                }
            }
            i = i + 1;
        }
        proof {
            assert forall|c: Vec2| #[trigger] self.requested(c) == old(self).requested(c) by {
                lemma_max_requested_same(old(self).layers@, self.layers@, c, n as int);
            }
            assert forall|s: Selector| #[trigger] self.finds(s) == old(self).finds(s) by {
                if old(self).finds(s) {
                    let i = choose|i: int|
                        0 <= i < n && (#[trigger] old(self).layers@[i]).view.finds(s);
                    assert(same_answers(old(self).layers@[i], self.layers@[i]));
                }
                if self.finds(s) {
                    let i = choose|i: int| 0 <= i < n && (#[trigger] self.layers@[i]).view.finds(s);
                    assert(same_answers(old(self).layers@[i], self.layers@[i]));
                }
            }
        }
        acc
    }

    fn layout(&mut self, size: Vec2)
        ensures
            laid_out(old(self).layers(), final(self).layers(), size),
            final(self).last_size() == size,
    {
        self.layout_layers(size)
    }

    fn draw(&self, printer: &Printer, canvas: &mut Canvas) {
        let n = self.layers.len();
        let mut previous = Vec2::zero();
        let mut i: usize = 0;
        proof {
            assert(canvas.ops@ =~= old(canvas).ops@ + Seq::<DrawOp>::empty());
        }
        while i < n
            invariant
                n == self.layers@.len(),
                i <= n,
                printer.wf(),
                previous == chain_offset(self.layers@, printer.size, i as int),
                canvas.ops@ == old(canvas).ops@ + stack_drawing(self.layers@, *printer, i as int),
                printer.covers_all(stack_drawing(self.layers@, *printer, i as int)),
            decreases n - i,
        {
            let layer = &self.layers[i];
            let offset = layer.placement.compute_offset(layer.size, printer.size, previous);
            previous = offset;
            let sub = printer.sub_printer(offset, layer.size, i + 1 == n);
            layer.view.draw(&sub, canvas);
            proof {
                let before = stack_drawing(self.layers@, *printer, i as int);
                let mine = self.layers@[i as int].view.drawing(sub);
                assert(sub == layer_printer(self.layers@, *printer, i as int));
                assert(canvas.ops@ =~= old(canvas).ops@ + (before + mine));
                lemma_covers_within(sub, *printer, mine);
                lemma_covers_concat(*printer, before, mine);
            }
            i = i + 1;
        }
    }

    fn on_event(&mut self, event: Event) -> (r: EventResult)
        ensures
            final(self).layers().len() == old(self).layers().len(),
            final(self).last_size() == old(self).last_size(),
            forall|i: int|
                0 <= i < old(self).layers().len() && Some(i) != routed_layer(old(self).layers())
                    ==> #[trigger] final(self).layers()[i] == old(self).layers()[i],
            ({
                let top = old(self).layers().last();
                routed_layer(old(self).layers()) is Some ==> {
                    &&& final(self).layers().last().size == top.size
                    &&& final(self).layers().last().position == top.position
                    &&& final(self).layers().last().placement == top.placement
                    &&& final(self).layers().last().virgin == top.virgin
                    &&& event.relative_to(top.position, Some(top.size)) is None ==> {
                        &&& r == EventResult::Ignored
                        &&& final(self).layers() == old(self).layers()
                    }
                }
            }),
    {
        self.route_event(event)
    }

    fn take_focus(&mut self, source: Direction) -> (r: bool)
        ensures
            routed_layer(old(self).layers()) is None ==> !r && final(self).layers() == old(
                self,
            ).layers(),
            final(self).layers().len() == old(self).layers().len(),
            forall|i: int|
                0 <= i < old(self).layers().len() && Some(i) != routed_layer(old(self).layers())
                    ==> #[trigger] final(self).layers()[i] == old(self).layers()[i],
    {
        self.focus_top(source)
    }

    fn call_on_any<V: Visitor>(&mut self, selector: &Selector, visitor: &mut V) {
        let n = self.layers.len();
        let mut i: usize = 0;
        proof {
            assert(visitor.visited() =~= old(visitor).visited() + Seq::<Seq<char>>::empty());
        }
        while i < n
            invariant
                n == self.layers@.len(),
                n == old(self).layers@.len(),
                i <= n,
                forall|j: int| i <= j < n ==> #[trigger] self.layers@[j] == old(self).layers@[j],
                visitor.visited() == old(visitor).visited() + all_matches(
                    old(self).layers@,
                    *selector,
                    i as int,
                ),
            decreases n - i,
        {
            self.layers[i].view.call_on_any(selector, visitor);
            proof {
                assert(visitor.visited() =~= old(visitor).visited() + all_matches(
                    old(self).layers@,
                    *selector,
                    i + 1,
                ));
            }
            i = i + 1;
        }
    }

    fn focus_view(&mut self, selector: &Selector) -> (r: Result<(), ()>)
        ensures
            final(self).layers().len() == old(self).layers().len(),
            r is Ok ==> exists|k: int|
                0 <= k < old(self).layers().len() && (#[trigger] old(self).layers()[k]).view.finds(
                    *selector,
                ) && (forall|j: int| 0 <= j < k ==> !(#[trigger] old(self).layers()[j]).view.finds(
                    *selector,
                )) && (forall|j: int|
                    k < j < old(self).layers().len() ==> #[trigger] final(self).layers()[j] == old(
                        self,
                    ).layers()[j]),
            r is Err ==> forall|j: int|
                0 <= j < old(self).layers().len() ==> !(#[trigger] old(self).layers()[j]).view.finds(
                    *selector,
                ),
    {
        let n = self.layers.len();
        let mut i: usize = 0;
        while i < n
            invariant
                n == self.layers@.len(),
                n == old(self).layers@.len(),
                i <= n,
                forall|j: int| i <= j < n ==> #[trigger] self.layers@[j] == old(self).layers@[j],
                forall|j: int| 0 <= j < i ==> !(#[trigger] old(self).layers@[j]).view.finds(*selector),
            decreases n - i,
        {
            if self.layers[i].view.focus_view(selector).is_ok() {
                proof {
                    let k = i as int;
                    assert(old(self).layers@[k].view.finds(*selector));
                    assert(forall|j: int| k < j < n ==> #[trigger] self.layers@[j] == old(self).layers@[j]);
                }
                return Ok(());
            }
            i = i + 1;
        }
        Err(())
    }
}

/// Events go to the topmost layer alone: the stack's answer is the top
/// layer's answer to the event made relative to it, whatever the layers
/// under it hold, and `Ignored` where the event falls outside it. Once the
/// top is popped, the layer that was under it answers; an empty stack
/// ignores every event.
pub proof fn lemma_routing_follows_top<V: ViewNode>(layers: Seq<Child<V>>, event: Event)
    ensures
        layers.len() == 0 ==> routed_layer(layers) is None && routed_answer(layers, event)
            == EventResult::Ignored,
        layers.len() > 0 ==> routed_layer(layers) == Some(layers.len() - 1),
        layers.len() > 0 ==> routed_answer(layers, event) == match event.relative_to(
            layers[layers.len() - 1].position,
            Some(layers[layers.len() - 1].size),
        ) {
            Some(e) => layers[layers.len() - 1].view.answer(e),
            None => EventResult::Ignored,
        },
        forall|i: int| 0 <= i < layers.len() - 1 ==> Some(i) != routed_layer(layers),
        layers.len() > 1 ==> routed_layer(layers.drop_last()) == Some(layers.len() - 2),
        layers.len() > 1 ==> routed_answer(layers.drop_last(), event) == match event.relative_to(
            layers[layers.len() - 2].position,
            Some(layers[layers.len() - 2].size),
        ) {
            Some(e) => layers[layers.len() - 2].view.answer(e),
            None => EventResult::Ignored,
        },
        layers.len() == 1 ==> routed_answer(layers.drop_last(), event) == EventResult::Ignored,
{
}

/// A layer is virgin until its first layout and never after: the first
/// layout offers each virgin layer's view focus once, and leaves every
/// layer non-virgin, so a later layout offers focus to none of them again.
pub proof fn lemma_layout_clears_virgin<V: ViewNode>(
    before: Seq<Child<V>>,
    after: Seq<Child<V>>,
    size: Vec2,
    later: Seq<Child<V>>,
    later_size: Vec2,
)
    requires
        laid_out(before, after, size),
        laid_out(after, later, later_size),
    ensures
        later.len() == after.len() && after.len() == before.len(),
        forall|i: int| 0 <= i < after.len() ==> !(#[trigger] after[i]).virgin,
        forall|i: int| 0 <= i < later.len() ==> !(#[trigger] later[i]).virgin,
        forall|i: int|
            0 <= i < before.len() && (#[trigger] before[i]).virgin ==> after[i].view.focus_offers()
                == next_count(before[i].view.focus_offers()),
        forall|i: int|
            0 <= i < before.len() && !(#[trigger] before[i]).virgin ==> after[i].view.focus_offers()
                == before[i].view.focus_offers(),
        forall|i: int|
            0 <= i < later.len() ==> (#[trigger] later[i]).view.focus_offers()
                == after[i].view.focus_offers(),
{
    assert forall|i: int| 0 <= i < later.len() implies (#[trigger] later[i]).view.focus_offers()
        == after[i].view.focus_offers() by {
        assert(!after[i].virgin);
    }
}

} // verus!
