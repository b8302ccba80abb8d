//! A wrapper that frames a view with padding and a drop shadow.

use vstd::prelude::*;
use crate::event::{Event, EventResult};
use crate::vec::Vec2;
use crate::view::{
    Canvas, ColorStyle, Direction, DrawOp, Printer, Selector, ViewNode, Visitor,
    lemma_covers_concat, lemma_covers_within,
};

verus! {

/// The cells a frame reserves on each axis: one for the shadow, and one
/// more for each padding that is on.
pub open spec fn frame_padding(left: bool, top: bool) -> Vec2 {
    Vec2 { x: if left { 2 } else { 1 }, y: if top { 2 } else { 1 } }
}

/// What a frame hands its content out of `available`: the available size
/// less the padding, the padding being cut to the available size first.
pub open spec fn content_constraint(padding: Vec2, available: Vec2) -> Vec2 {
    available.spec_sub(padding.spec_min(available))
}

/// The size a frame asks for, given what its content asked for.
pub open spec fn framed_size(padding: Vec2, constraint: Vec2, content: Vec2) -> Vec2 {
    content.spec_saturating_add(padding.spec_min(constraint))
}

/// Wrapper view that adds a shadow along the bottom and right edges, and
/// optionally one empty row above and one empty column to the left.
pub struct ShadowView<T> {
    /// The wrapped view.
    view: T,
    /// Whether an empty row is kept above the view.
    top_padding: bool,
    /// Whether an empty column is kept left of the view.
    left_padding: bool,
    /// The size of the last layout, if any.
    last_size: Ghost<Option<Vec2>>,
}

impl<T: ViewNode> ShadowView<T> {
    /// The wrapped view.
    pub closed spec fn inner(&self) -> T {
        self.view
    }

    /// Whether an empty row is kept above the view.
    pub closed spec fn pads_top(&self) -> bool {
        self.top_padding
    }

    /// Whether an empty column is kept left of the view.
    pub closed spec fn pads_left(&self) -> bool {
        self.left_padding
    }

    /// The size of the frame's last layout, if any.
    pub closed spec fn last_layout(&self) -> Option<Vec2> {
        self.last_size@
    }

    /// The cells reserved on each axis.
    pub open spec fn spec_padding(&self) -> Vec2 {
        frame_padding(self.pads_left(), self.pads_top())
    }

    /// Where the wrapped view starts inside the frame.
    pub open spec fn spec_content_offset(&self) -> Vec2 {
        Vec2 { x: if self.pads_left() { 1 } else { 0 }, y: if self.pads_top() { 1 } else { 0 } }
    }

    /// The region of `printer` that the frame draws in: without the
    /// padding row and column.
    pub open spec fn framed_printer(&self, printer: Printer) -> Printer {
        printer.spec_offset_by(self.spec_content_offset(), true)
    }

    /// The region the wrapped view draws in: the framed region without its
    /// last row and column, kept for the shadow.
    pub open spec fn content_printer(&self, printer: Printer) -> Printer {
        let f = self.framed_printer(printer);
        f.spec_sub(Vec2::zero_spec(), f.size.spec_sub(Vec2 { x: 1, y: 1 }), true)
    }

    /// The shadow's cells in the framed region `f`: the bottom row from
    /// column 1 and the right column from row 1, where the theme has
    /// shadows.
    pub open spec fn shadow_cells(f: Printer) -> Seq<DrawOp> {
        if f.shadow {
            f.hline_cells(
                Vec2 { x: 1, y: (f.size.y - 1) as usize },
                (f.size.x - 1) as usize,
                ColorStyle::Shadow,
                ' ',
            ) + f.vline_cells(
                Vec2 { x: (f.size.x - 1) as usize, y: 1 },
                (f.size.y - 1) as usize,
                ColorStyle::Shadow,
                ' ',
            )
        } else {
            Seq::empty()
        }
    }

    /// Whether `printer` is too small to hold the padding.
    pub open spec fn no_room(&self, printer: Printer) -> bool {
        printer.size.y <= self.spec_content_offset().y || printer.size.x <= self.spec_content_offset().x
    }

    /// Wraps the given view, with both paddings on.
    pub fn new(view: T) -> (r: Self)
        ensures
            r.inner() == view,
            r.pads_top(),
            r.pads_left(),
            r.last_layout() is None,
    {
        ShadowView { view, top_padding: true, left_padding: true, last_size: Ghost(None) }
    }

    /// The padding used for this view, top-left and bottom-right together.
    fn padding(&self) -> (r: Vec2)
        ensures
            r == self.spec_padding(),
    {
        Vec2::new(
            if self.left_padding { 2 } else { 1 },
            if self.top_padding { 2 } else { 1 },
        )
    }

    /// Sets whether an empty column is kept left of the view.
    pub fn left_padding(self, value: bool) -> (r: Self)
        ensures
            r.inner() == self.inner(),
            r.pads_top() == self.pads_top(),
            r.pads_left() == value,
            r.last_layout() == self.last_layout(),
    {
        ShadowView { left_padding: value, ..self }
    }

    /// Sets whether an empty row is kept above the view.
    pub fn top_padding(self, value: bool) -> (r: Self)
        ensures
            r.inner() == self.inner(),
            r.pads_left() == self.pads_left(),
            r.pads_top() == value,
            r.last_layout() == self.last_layout(),
    {
        ShadowView { top_padding: value, ..self }
    }

    /// Where the wrapped view starts inside the frame.
    fn content_offset(&self) -> (r: Vec2)
        ensures
            r == self.spec_content_offset(),
    {
        Vec2::new(
            if self.left_padding { 1 } else { 0 },
            if self.top_padding { 1 } else { 0 },
        )
    }

    /// Lays the frame out at `size`: the wrapped view is laid out at `size`
    /// less the padding, the padding cut to `size` first.
    pub fn layout_content(&mut self, size: Vec2)
        ensures
            final(self).inner().laid_out_at() == Some(
                content_constraint(old(self).spec_padding(), size),
            ),
            final(self).inner().focus_offers() == old(self).inner().focus_offers(),
            final(self).pads_top() == old(self).pads_top(),
            final(self).pads_left() == old(self).pads_left(),
            final(self).last_layout() == Some(size),
    {
        let offset = self.padding().or_min(size);
        self.view.layout(size.minus(offset));
        self.last_size = Ghost(Some(size));
    }
}

/// A frame reserves two cells on each axis with both paddings on, and one
/// less for each padding that is off. Under any constraint, the reservation
/// is first cut to the constraint, the content is asked with what is left,
/// and the frame asks for the content's answer plus the reservation it kept
/// (saturating at the largest `usize`), so never less than that reservation.
pub proof fn lemma_frame_reserves<T: ViewNode>(s: ShadowView<T>, constraint: Vec2)
    ensures
        s.pads_top() && s.pads_left() ==> s.spec_padding() == (Vec2 { x: 2, y: 2 }),
        !s.pads_top() && !s.pads_left() ==> s.spec_padding() == (Vec2 { x: 1, y: 1 }),
        ({
            let kept = s.spec_padding().spec_min(constraint);
            let inside = content_constraint(s.spec_padding(), constraint);
            let content = s.inner().requested(inside);
            &&& kept.le(constraint)
            &&& inside.x + kept.x == constraint.x
            &&& inside.y + kept.y == constraint.y
            &&& s.requested(constraint) == content.spec_saturating_add(kept)
            &&& content.x + kept.x <= usize::MAX ==> s.requested(constraint).x == content.x + kept.x
            &&& content.y + kept.y <= usize::MAX ==> s.requested(constraint).y == content.y + kept.y
            &&& kept.le(s.requested(constraint))
            &&& s.spec_padding().le(constraint) ==> kept == s.spec_padding()
        }),
        s.pads_top() && s.pads_left() && constraint.x >= 2 && constraint.y >= 2 ==> {
            let inside = Vec2 { x: (constraint.x - 2) as usize, y: (constraint.y - 2) as usize };
            let content = s.inner().requested(inside);
            &&& content_constraint(s.spec_padding(), constraint) == inside
            &&& content.x + 2 <= usize::MAX && content.y + 2 <= usize::MAX ==> s.requested(constraint)
                == (Vec2 { x: (content.x + 2) as usize, y: (content.y + 2) as usize })
        },
{
}

impl<T: ViewNode> ViewNode for ShadowView<T> {
    open spec fn requested(&self, constraint: Vec2) -> Vec2 {
        framed_size(
            self.spec_padding(),
            constraint,
            self.inner().requested(content_constraint(self.spec_padding(), constraint)),
        )
    }

    open spec fn finds(&self, selector: Selector) -> bool {
        self.inner().finds(selector)
    }

    open spec fn answer(&self, event: Event) -> EventResult {
        match event.relative_to(self.spec_content_offset(), None) {
            Some(e) => self.inner().answer(e),
            None => EventResult::Ignored,
        }
    }

    open spec fn focus_answer(&self, source: Direction) -> bool {
        self.inner().focus_answer(source)
    }

    open spec fn drawing(&self, printer: Printer) -> Seq<DrawOp> {
        if self.no_room(printer) {
            Seq::empty()
        } else {
            ShadowView::<T>::shadow_cells(self.framed_printer(printer)) + self.inner().drawing(
                self.content_printer(printer),
            )
        }
    }

    open spec fn matches(&self, selector: Selector) -> Seq<Seq<char>> {
        self.inner().matches(selector)
    }

    open spec fn laid_out_at(&self) -> Option<Vec2> {
        self.last_layout()
    }

    open spec fn focus_offers(&self) -> u64 {
        self.inner().focus_offers()
    }

    fn required_size(&mut self, constraint: Vec2) -> (r: Vec2) {
        let offset = self.padding().or_min(constraint);
        let inner = self.view.required_size(constraint.minus(offset));
        inner.saturating_plus(offset)
    }

    fn layout(&mut self, size: Vec2)
        ensures
            final(self).inner().laid_out_at() == Some(
                content_constraint(old(self).spec_padding(), size),
            ),
            final(self).inner().focus_offers() == old(self).inner().focus_offers(),
            final(self).pads_top() == old(self).pads_top(),
            final(self).pads_left() == old(self).pads_left(),
    {
        self.layout_content(size)
    }

    fn draw(&self, printer: &Printer, canvas: &mut Canvas) {
        if printer.size.y <= (if self.top_padding { 1 } else { 0 }) || printer.size.x <= (
        if self.left_padding { 1 } else { 0 }) {
            // Nothing to do if there is no room to draw.
            proof {
                assert(canvas.ops@ =~= old(canvas).ops@ + Seq::<DrawOp>::empty());
            }
            return;
        }
        let framed = printer.offset(self.content_offset(), true);
        if framed.shadow {
            let h = framed.size.y;
            let w = framed.size.x;
            framed.print_hline(canvas, Vec2::new(1, h - 1), w - 1, ColorStyle::Shadow, ' ');
            framed.print_vline(canvas, Vec2::new(w - 1, 1), h - 1, ColorStyle::Shadow, ' ');
            proof {
                lemma_covers_concat(
                    framed,
                    framed.hline_cells(Vec2 { x: 1, y: (h - 1) as usize }, (w - 1) as usize, ColorStyle::Shadow, ' '),
                    framed.vline_cells(Vec2 { x: (w - 1) as usize, y: 1 }, (h - 1) as usize, ColorStyle::Shadow, ' '),
                );
            }
        }
        let ghost shadow = ShadowView::<T>::shadow_cells(framed);
        proof {
            assert(canvas.ops@ =~= old(canvas).ops@ + shadow);
        }
        let content = framed.sub_printer(Vec2::zero(), framed.size.minus(Vec2::new(1, 1)), true);
        self.view.draw(&content, canvas);
        proof {
            let child = self.view.drawing(content);
            assert(canvas.ops@ =~= old(canvas).ops@ + (shadow + child));
            lemma_covers_within(content, framed, child);
            lemma_covers_concat(framed, shadow, child);
            lemma_covers_within(framed, *printer, shadow + child);
        }
    }

    fn on_event(&mut self, event: Event) -> (r: EventResult) {
        match event.make_relative(self.content_offset(), None) {
            Some(e) => self.view.on_event(e),
            None => EventResult::Ignored,
        }
    }

    fn take_focus(&mut self, source: Direction) -> (r: bool) {
        self.view.take_focus(source)
    }

    fn call_on_any<V: Visitor>(&mut self, selector: &Selector, visitor: &mut V) {
        self.view.call_on_any(selector, visitor)
    }

    fn focus_view(&mut self, selector: &Selector) -> (r: Result<(), ()>) {
        self.view.focus_view(selector)
    }
}

} // verus!
