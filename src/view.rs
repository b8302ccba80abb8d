//! The contract of a screen element, and what it needs to lay itself out,
//! draw, and take part in focus and lookup.

use vstd::prelude::*;
use crate::event::{Event, EventResult};
use crate::vec::Vec2;

verus! {

/// The edge focus enters a view from, or `Program` for a request made by
/// the program.
#[derive(Clone, Copy, Debug, PartialEq, Eq, Hash)]
pub enum Direction {
    Program,
    Front,
    Back,
    Left,
    Right,
    Up,
    Down,
}

impl Direction {
    /// Focus requested by the program rather than entered from an edge.
    pub fn none() -> (r: Direction)
        ensures
            r == Direction::Program,
    {
        Direction::Program
    }
}

/// A query that names views by identifier.
#[derive(Clone, Debug, PartialEq, Eq, Hash)]
pub enum Selector {
    /// The views whose identifier is this one.
    Id(String),
}

/// What `ViewNode::call_on_any` hands each matching view to.
pub trait Visitor {
    /// The identifiers handed to the visitor so far, in order.
    open spec fn visited(&self) -> Seq<Seq<char>> {
        Seq::empty()
    }

    /// Called once for each view that matches, with its identifier.
    fn visit(&mut self, id: &str)
        ensures
            final(self).visited() == old(self).visited().push(id@),
    ;
}

/// Style of the cells a printer writes.
#[derive(Clone, Copy, Debug, PartialEq, Eq, Hash)]
pub enum ColorStyle {
    /// The screen's background.
    Background,
    /// The drop shadow of framed layers.
    Shadow,
    /// Ordinary content.
    Primary,
}

/// One character cell written at an absolute screen position.
#[derive(Clone, Copy, Debug, PartialEq, Eq, Hash)]
pub struct DrawOp {
    pub pos: Vec2,
    pub style: ColorStyle,
    pub ch: char,
}

/// The cells written during a draw, in order.
#[derive(Clone, Debug, PartialEq, Eq, Hash)]
pub struct Canvas {
    pub ops: Vec<DrawOp>,
}

impl Canvas {
    /// An empty canvas.
    pub fn new() -> (r: Canvas)
        ensures
            r.ops@ == Seq::<DrawOp>::empty(),
    {
        Canvas { ops: Vec::new() }
    }
}

/// A region of the screen that a view draws into: its absolute top-left
/// corner, its size, and whether it holds focus.
#[derive(Clone, Copy, Debug, PartialEq, Eq, Hash)]
pub struct Printer {
    pub offset: Vec2,
    pub size: Vec2,
    pub focused: bool,
    /// Whether the visual theme draws shadows.
    pub shadow: bool,
}

impl Printer {
    /// The region's far corner fits in `usize`.
    pub open spec fn wf(self) -> bool {
        self.offset.x + self.size.x <= usize::MAX && self.offset.y + self.size.y <= usize::MAX
    }

    /// The cell at `p` lies in the region.
    pub open spec fn covers(self, p: Vec2) -> bool {
        &&& self.offset.x <= p.x < self.offset.x + self.size.x
        &&& self.offset.y <= p.y < self.offset.y + self.size.y
    }

    /// The region of `self` lies in that of `outer`.
    pub open spec fn within(self, outer: Printer) -> bool {
        &&& outer.offset.x <= self.offset.x
        &&& outer.offset.y <= self.offset.y
        &&& self.offset.x + self.size.x <= outer.offset.x + outer.size.x
        &&& self.offset.y + self.size.y <= outer.offset.y + outer.size.y
    }

    /// The printer that `sub_printer` returns.
    pub open spec fn spec_sub(self, offset: Vec2, size: Vec2, focused: bool) -> Printer {
        Printer {
            offset: self.offset.spec_add(offset.spec_min(self.size)),
            size: self.size.spec_sub(offset.spec_min(self.size)).spec_min(size),
            focused: self.focused && focused,
            shadow: self.shadow,
        }
    }

    /// The printer that `offset` returns.
    pub open spec fn spec_offset_by(self, offset: Vec2, focused: bool) -> Printer {
        Printer {
            offset: self.offset.spec_add(offset.spec_min(self.size)),
            size: self.size.spec_sub(offset.spec_min(self.size)),
            focused: self.focused && focused,
            shadow: self.shadow,
        }
    }

    /// How many of `len` cells from `start` along an axis of `room` cells,
    /// the other coordinate being `across` of `depth`, lie in the region.
    pub open spec fn clipped_len(start: usize, len: usize, room: usize, across: usize, depth: usize) -> nat {
        if across < depth && start < room {
            if len <= room - start {
                len as nat
            } else {
                (room - start) as nat
            }
        } else {
            0
        }
    }

    /// The cells that `print_hline` writes.
    pub open spec fn hline_cells(self, start: Vec2, len: usize, style: ColorStyle, ch: char) -> Seq<DrawOp> {
        Seq::new(
            Printer::clipped_len(start.x, len, self.size.x, start.y, self.size.y),
            |i: int|
                DrawOp {
                    pos: Vec2 {
                        x: (self.offset.x + start.x + i) as usize,
                        y: (self.offset.y + start.y) as usize,
                    },
                    style,
                    ch,
                },
        )
    }

    /// The cells that `print_vline` writes.
    pub open spec fn vline_cells(self, start: Vec2, len: usize, style: ColorStyle, ch: char) -> Seq<DrawOp> {
        Seq::new(
            Printer::clipped_len(start.y, len, self.size.y, start.x, self.size.x),
            |i: int|
                DrawOp {
                    pos: Vec2 {
                        x: (self.offset.x + start.x) as usize,
                        y: (self.offset.y + start.y + i) as usize,
                    },
                    style,
                    ch,
                },
        )
    }

    /// Every cell of `cells` lies in the region.
    pub open spec fn covers_all(self, cells: Seq<DrawOp>) -> bool {
        forall|i: int| 0 <= i < cells.len() ==> self.covers(#[trigger] cells[i].pos)
    }

    /// A printer for the whole screen of the given size.
    pub fn new(size: Vec2, shadow: bool) -> (r: Printer)
        ensures
            r.offset == Vec2::zero_spec(),
            r.size == size,
            r.focused,
            r.shadow == shadow,
            r.wf(),
    {
        Printer { offset: Vec2::zero(), size, focused: true, shadow }
    }

    /// The part of the region that starts `offset` cells in and spans at
    /// most `size` cells, clipped to the region; focused where both this
    /// printer and `focused` are.
    pub fn sub_printer(&self, offset: Vec2, size: Vec2, focused: bool) -> (r: Printer)
        requires
            self.wf(),
        ensures
            r.wf(),
            r.within(*self),
            r == self.spec_sub(offset, size, focused),
    {
        let offset = offset.or_min(self.size);
        Printer {
            offset: self.offset.plus(offset),
            size: Vec2::min(self.size.minus(offset), size),
            focused: self.focused && focused,
            shadow: self.shadow,
        }
    }

    /// The region without its first `offset` columns and rows.
    pub fn offset(&self, offset: Vec2, focused: bool) -> (r: Printer)
        requires
            self.wf(),
        ensures
            r.wf(),
            r.within(*self),
            r == self.spec_offset_by(offset, focused),
    {
        let offset = offset.or_min(self.size);
        Printer {
            offset: self.offset.plus(offset),
            size: self.size.minus(offset),
            focused: self.focused && focused,
            shadow: self.shadow,
        }
    }

    /// Writes `ch` at the cell `pos` of the region, if it lies there.
    pub fn print_cell(&self, canvas: &mut Canvas, pos: Vec2, style: ColorStyle, ch: char)
        requires
            self.wf(),
        ensures
            pos.lt(self.size) ==> final(canvas).ops@ == old(canvas).ops@.push(
                DrawOp { pos: self.offset.spec_add(pos), style, ch },
            ),
            !pos.lt(self.size) ==> final(canvas).ops@ == old(canvas).ops@,
    {
        if pos.x < self.size.x && pos.y < self.size.y {
            canvas.ops.push(DrawOp { pos: self.offset.plus(pos), style, ch });
        }
    }

    /// Writes `len` copies of `ch` rightwards from `start`, clipped to the
    /// region.
    pub fn print_hline(&self, canvas: &mut Canvas, start: Vec2, len: usize, style: ColorStyle, ch: char)
        requires
            self.wf(),
        ensures
            final(canvas).ops@ == old(canvas).ops@ + self.hline_cells(start, len, style, ch),
            self.covers_all(self.hline_cells(start, len, style, ch)),
    {
        let ghost cells = self.hline_cells(start, len, style, ch);
        let mut i: usize = 0;
        while i < len && start.y < self.size.y && start.x < self.size.x && i < self.size.x - start.x
            invariant
                self.wf(),
                i <= cells.len(),
                cells == self.hline_cells(start, len, style, ch),
                canvas.ops@ == old(canvas).ops@ + cells.take(i as int),
            decreases len - i,
        {
            self.print_cell(canvas, Vec2::new(start.x + i, start.y), style, ch);
            proof {
                assert(cells.take(i + 1) =~= cells.take(i as int).push(cells[i as int]));
            }
            i = i + 1;
        }
        proof {
            assert(cells.take(i as int) =~= cells);
        }
    }

    /// Writes `len` copies of `ch` downwards from `start`, clipped to the
    /// region.
    pub fn print_vline(&self, canvas: &mut Canvas, start: Vec2, len: usize, style: ColorStyle, ch: char)
        requires
            self.wf(),
        ensures
            final(canvas).ops@ == old(canvas).ops@ + self.vline_cells(start, len, style, ch),
            self.covers_all(self.vline_cells(start, len, style, ch)),
    {
        let ghost cells = self.vline_cells(start, len, style, ch);
        let mut i: usize = 0;
        while i < len && start.x < self.size.x && start.y < self.size.y && i < self.size.y - start.y
            invariant
                self.wf(),
                i <= cells.len(),
                cells == self.vline_cells(start, len, style, ch),
                canvas.ops@ == old(canvas).ops@ + cells.take(i as int),
            decreases len - i,
        {
            self.print_cell(canvas, Vec2::new(start.x, start.y + i), style, ch);
            proof {
                assert(cells.take(i + 1) =~= cells.take(i as int).push(cells[i as int]));
            }
            i = i + 1;
        }
        proof {
            assert(cells.take(i as int) =~= cells);
        }
    }
}

/// Cells inside a region that lies in `outer` lie in `outer`.
pub proof fn lemma_covers_within(inner: Printer, outer: Printer, cells: Seq<DrawOp>)
    requires
        inner.within(outer),
        inner.covers_all(cells),
    ensures
        outer.covers_all(cells),
{
    assert forall|i: int| 0 <= i < cells.len() implies outer.covers(#[trigger] cells[i].pos) by {
        assert(inner.covers(cells[i].pos));
    }
}

/// Two runs of cells that lie in a region lie there together.
pub proof fn lemma_covers_concat(p: Printer, a: Seq<DrawOp>, b: Seq<DrawOp>)
    requires
        p.covers_all(a),
        p.covers_all(b),
    ensures
        p.covers_all(a + b),
{
    assert forall|i: int| 0 <= i < (a + b).len() implies p.covers(#[trigger] (a + b)[i].pos) by {
        if i < a.len() {
            assert((a + b)[i] == a[i]);
        } else {
            assert((a + b)[i] == b[i - a.len()]);
        }
    }
}

/// The count after `n`, wrapping to 0 after the largest `u64`.
pub open spec fn next_count(n: u64) -> u64 {
    if n == u64::MAX {
        0
    } else {
        (n + 1) as u64
    }
}

/// A screen element.
///
/// A view reports how much room it wants, accepts the size it is given,
/// draws inside the region it is handed, answers events, takes focus, and
/// is found by identifier. What it does is stated over the spec functions
/// below, which describe its current state.
pub trait ViewNode {
    /// The size the view asks for under the given constraint.
    spec fn requested(&self, constraint: Vec2) -> Vec2;

    /// Whether a view matching `selector` can take focus in this tree.
    spec fn finds(&self, selector: Selector) -> bool;

    /// The answer the view gives to `event`.
    open spec fn answer(&self, event: Event) -> EventResult {
        EventResult::Ignored
    }

    /// Whether the view accepts focus entering from `source`.
    open spec fn focus_answer(&self, source: Direction) -> bool {
        false
    }

    /// The cells the view writes when drawn with `printer`.
    open spec fn drawing(&self, printer: Printer) -> Seq<DrawOp> {
        Seq::empty()
    }

    /// The identifiers of the views of the tree that match `selector`, in
    /// the order they are visited.
    open spec fn matches(&self, selector: Selector) -> Seq<Seq<char>> {
        Seq::empty()
    }

    /// The size of the last layout, if any.
    spec fn laid_out_at(&self) -> Option<Vec2>;

    /// How many times the view has been offered focus, counted modulo
    /// 2^64 (see `next_count`).
    spec fn focus_offers(&self) -> u64;

    /// Reports how much room the view would like, at most `constraint` on
    /// each axis unless it cannot do with less. Asking does not change the
    /// answers, the last layout or the focus offers.
    fn required_size(&mut self, constraint: Vec2) -> (r: Vec2)
        ensures
            r == old(self).requested(constraint),
            forall|c: Vec2| #[trigger] final(self).requested(c) == old(self).requested(c),
            forall|s: Selector| #[trigger] final(self).finds(s) == old(self).finds(s),
            final(self).laid_out_at() == old(self).laid_out_at(),
            final(self).focus_offers() == old(self).focus_offers(),
    ;

    /// Commits to the given size for the next draw.
    fn layout(&mut self, size: Vec2)
        ensures
            final(self).laid_out_at() == Some(size),
            final(self).focus_offers() == old(self).focus_offers(),
    ;

    /// Draws the view inside the region of `printer`: appends its drawing,
    /// every cell of which lies in the region.
    fn draw(&self, printer: &Printer, canvas: &mut Canvas)
        requires
            printer.wf(),
        ensures
            final(canvas).ops@ == old(canvas).ops@ + self.drawing(*printer),
            printer.covers_all(self.drawing(*printer)),
    ;

    /// Answers an event whose mouse position, if any, is relative to the
    /// view.
    fn on_event(&mut self, event: Event) -> (r: EventResult)
        ensures
            r == old(self).answer(event),
    ;

    /// Tries to take focus, entering from `source`; returns whether it did.
    fn take_focus(&mut self, source: Direction) -> (r: bool)
        ensures
            r == old(self).focus_answer(source),
            final(self).focus_offers() == next_count(old(self).focus_offers()),
            final(self).laid_out_at() == old(self).laid_out_at(),
    ;

    /// Hands every view of the tree that matches `selector` to `visitor`.
    fn call_on_any<V: Visitor>(&mut self, selector: &Selector, visitor: &mut V)
        ensures
            final(visitor).visited() == old(visitor).visited() + old(self).matches(*selector),
    ;

    /// Moves focus to the first view that matches `selector`.
    fn focus_view(&mut self, selector: &Selector) -> (r: Result<(), ()>)
        ensures
            r is Ok <==> old(self).finds(*selector),
    ;
}

} // verus!
