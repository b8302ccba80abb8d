use std::cell::RefCell;
use std::rc::Rc;

use cursive::event::{Callback, Event, EventResult, MouseButton, MouseEvent};
use cursive::position::{Offset, Position};
use cursive::shadow_view::ShadowView;
use cursive::stack_view::{Placement, StackView};
use cursive::vec::Vec2;
use cursive::view::{Canvas, ColorStyle, Direction, Printer, Selector, ViewNode, Visitor};

/// A leaf view that asks for a fixed size and logs what happens to it.
struct Leaf {
    tag: usize,
    id: String,
    want: Vec2,
    laid: Option<Vec2>,
    offers: u64,
    log: Rc<RefCell<Vec<String>>>,
}

impl Leaf {
    fn new(tag: usize, want: Vec2, log: &Rc<RefCell<Vec<String>>>) -> Leaf {
        Leaf { tag, id: format!("leaf{}", tag), want, laid: None, offers: 0, log: log.clone() }
    }
}

impl ViewNode for Leaf {
    fn requested(&self, _constraint: Vec2) -> Vec2 {
        self.want
    }

    fn finds(&self, selector: Selector) -> bool {
        let Selector::Id(id) = selector;
        id == self.id
    }

    fn required_size(&mut self, _constraint: Vec2) -> Vec2 {
        self.want
    }

    fn laid_out_at(&self) -> Option<Vec2> {
        self.laid
    }

    fn focus_offers(&self) -> u64 {
        self.offers
    }

    fn layout(&mut self, size: Vec2) {
        self.laid = Some(size);
        self.log.borrow_mut().push(format!("layout {} {} {}", self.tag, size.x, size.y));
    }

    fn draw(&self, printer: &Printer, canvas: &mut Canvas) {
        printer.print_hline(canvas, Vec2::new(0, 0), 100, ColorStyle::Primary, '#');
    }

    fn on_event(&mut self, event: Event) -> EventResult {
        self.log.borrow_mut().push(format!("event {} {:?}", self.tag, event));
        EventResult::with_cb(Callback::new(self.tag))
    }

    fn take_focus(&mut self, _source: Direction) -> bool {
        self.offers = self.offers.wrapping_add(1);
        self.log.borrow_mut().push(format!("focus {}", self.tag));
        true
    }

    fn call_on_any<V: Visitor>(&mut self, selector: &Selector, visitor: &mut V) {
        let Selector::Id(id) = selector;
        if *id == self.id {
            visitor.visit(&self.id);
        }
    }

    fn focus_view(&mut self, selector: &Selector) -> Result<(), ()> {
        let Selector::Id(id) = selector;
        if *id == self.id {
            Ok(())
        } else {
            Err(())
        }
    }
}

struct Collect(Vec<String>);

impl Visitor for Collect {
    fn visit(&mut self, id: &str) {
        self.0.push(id.to_string());
    }
}

fn new_log() -> Rc<RefCell<Vec<String>>> {
    Rc::new(RefCell::new(Vec::new()))
}

#[test]
fn offsets_along_one_axis() {
    assert_eq!(Offset::Center.compute_offset(4, 10, 0), 3);
    assert_eq!(Offset::Absolute(2).compute_offset(4, 10, 0), 2);
    assert_eq!(Offset::Absolute(9).compute_offset(4, 10, 0), 6);
    assert_eq!(Offset::Parent(2).compute_offset(4, 10, 3), 5);
    assert_eq!(Offset::Parent(-5).compute_offset(4, 10, 3), 0);
    assert_eq!(Offset::Parent(10).compute_offset(4, 10, 3), 6);
    assert_eq!(Offset::Center.compute_offset(12, 10, 0), 0);
}

#[test]
fn placements() {
    let p = Placement::Floating(Position::center());
    assert_eq!(p.compute_offset(Vec2::new(4, 2), Vec2::new(10, 10), Vec2::zero()), Vec2::new(3, 4));
    assert_eq!(
        Placement::Fullscreen.compute_offset(Vec2::new(4, 2), Vec2::new(10, 10), Vec2::new(1, 1)),
        Vec2::zero()
    );
}

#[test]
fn frame_reserves_two_cells_each_way() {
    let log = new_log();
    let mut s = ShadowView::new(Leaf::new(1, Vec2::new(5, 3), &log));
    assert_eq!(s.required_size(Vec2::new(20, 20)), Vec2::new(7, 5));
}

#[test]
fn frame_reservation_is_cut_to_the_constraint() {
    let log = new_log();
    let mut s = ShadowView::new(Leaf::new(1, Vec2::new(0, 0), &log));
    assert_eq!(s.required_size(Vec2::new(1, 0)), Vec2::new(1, 0));
    s.layout(Vec2::new(1, 1));
    assert_eq!(log.borrow().last().unwrap(), "layout 1 0 0");
}

#[test]
fn frame_without_paddings_reserves_one_cell() {
    let log = new_log();
    let mut s = ShadowView::new(Leaf::new(1, Vec2::new(5, 3), &log)).left_padding(false).top_padding(false);
    assert_eq!(s.required_size(Vec2::new(20, 20)), Vec2::new(6, 4));
    s.layout(Vec2::new(6, 4));
    assert_eq!(log.borrow().last().unwrap(), "layout 1 5 3");
}

#[test]
fn frame_moves_mouse_events_into_content() {
    let log = new_log();
    let mut s = ShadowView::new(Leaf::new(1, Vec2::new(5, 3), &log));
    let e = Event::Mouse { pos: Vec2::new(3, 2), event: MouseEvent::Press(MouseButton::Left) };
    assert!(s.on_event(e).is_consumed());
    assert!(log.borrow().last().unwrap().contains("x: 2, y: 1"));
    let outside = Event::Mouse { pos: Vec2::new(0, 2), event: MouseEvent::Press(MouseButton::Left) };
    assert_eq!(s.on_event(outside), EventResult::Ignored);
}

#[test]
fn frame_draws_shadow_inside_its_region() {
    let log = new_log();
    let s = ShadowView::new(Leaf::new(1, Vec2::new(3, 2), &log));
    let printer = Printer::new(Vec2::new(5, 4), true).sub_printer(Vec2::new(2, 2), Vec2::new(5, 4), true);
    let mut canvas = Canvas::new();
    s.draw(&printer, &mut canvas);
    assert!(!canvas.ops.is_empty());
    for op in &canvas.ops {
        assert!(op.pos.x >= printer.offset.x && op.pos.x < printer.offset.x + printer.size.x);
        assert!(op.pos.y >= printer.offset.y && op.pos.y < printer.offset.y + printer.size.y);
    }
    assert!(canvas.ops.iter().any(|op| op.style == ColorStyle::Shadow));
}

#[test]
fn sub_printer_is_clipped() {
    let p = Printer::new(Vec2::new(10, 10), false);
    let sub = p.sub_printer(Vec2::new(8, 12), Vec2::new(5, 5), false);
    assert_eq!(sub.offset, Vec2::new(8, 10));
    assert_eq!(sub.size, Vec2::new(2, 0));
    assert!(!sub.focused);
}

#[test]
fn only_top_layer_receives_events() {
    let log = new_log();
    let mut stack = StackView::new()
        .fullscreen_layer(Leaf::new(1, Vec2::new(80, 24), &log))
        .layer(Leaf::new(2, Vec2::new(10, 5), &log))
        .layer(Leaf::new(3, Vec2::new(6, 3), &log));
    stack.layout(Vec2::new(80, 24));
    log.borrow_mut().clear();
    let r = stack.on_event(Event::Char('k'));
    assert_eq!(r, EventResult::Consumed(Some(Callback::new(3))));
    assert_eq!(log.borrow().len(), 1);
    assert!(log.borrow()[0].starts_with("event 3"));
}

#[test]
fn popping_moves_events_to_new_top() {
    let log = new_log();
    let mut stack = StackView::new()
        .layer(Leaf::new(1, Vec2::new(10, 5), &log))
        .layer(Leaf::new(2, Vec2::new(10, 5), &log))
        .layer(Leaf::new(3, Vec2::new(10, 5), &log));
    stack.layout(Vec2::new(80, 24));
    stack.pop_layer();
    assert_eq!(stack.on_event(Event::Char('k')), EventResult::Consumed(Some(Callback::new(2))));
    stack.pop_layer();
    assert_eq!(stack.on_event(Event::Char('k')), EventResult::Consumed(Some(Callback::new(1))));
    stack.pop_layer();
    assert_eq!(stack.len(), 0);
    assert_eq!(stack.on_event(Event::Char('k')), EventResult::Ignored);
    assert!(!stack.take_focus(Direction::none()));
    stack.pop_layer();
    assert_eq!(stack.len(), 0);
}

#[test]
fn empty_stack_ignores_and_refuses_focus() {
    let mut stack: StackView<Leaf> = StackView::new();
    assert_eq!(stack.on_event(Event::Refresh), EventResult::Ignored);
    assert!(!stack.take_focus(Direction::none()));
    assert_eq!(stack.offset(), Vec2::zero());
    assert!(stack.layer_sizes().is_empty());
}

#[test]
fn clicks_outside_top_layer_are_ignored() {
    let log = new_log();
    let mut stack = StackView::new().layer(Leaf::new(1, Vec2::new(4, 2), &log));
    stack.layout(Vec2::new(20, 10));
    // The framed layer is 6x4 and centered: it stands at (7, 3).
    assert_eq!(stack.offset(), Vec2::new(7, 3));
    let outside = Event::Mouse { pos: Vec2::new(0, 0), event: MouseEvent::Press(MouseButton::Left) };
    assert_eq!(stack.on_event(outside), EventResult::Ignored);
    let inside = Event::Mouse { pos: Vec2::new(9, 4), event: MouseEvent::Press(MouseButton::Left) };
    assert!(stack.on_event(inside).is_consumed());
    assert!(log.borrow().last().unwrap().contains("x: 1, y: 0"));
}

#[test]
fn layout_offers_focus_once_per_layer() {
    let log = new_log();
    let mut stack = StackView::new()
        .layer(Leaf::new(1, Vec2::new(10, 5), &log))
        .fullscreen_layer(Leaf::new(2, Vec2::new(10, 5), &log));
    stack.layout(Vec2::new(40, 20));
    stack.layout(Vec2::new(50, 30));
    let focus: Vec<String> = log.borrow().iter().filter(|l| l.starts_with("focus")).cloned().collect();
    assert_eq!(focus, vec!["focus 1".to_string(), "focus 2".to_string()]);
    stack.add_layer(Leaf::new(3, Vec2::new(2, 2), &log));
    stack.layout(Vec2::new(50, 30));
    let focus: Vec<String> = log.borrow().iter().filter(|l| l.starts_with("focus")).cloned().collect();
    assert_eq!(focus.len(), 3);
    assert_eq!(focus[2], "focus 3");
}

#[test]
fn layout_sizes_and_required_size() {
    let log = new_log();
    let mut stack = StackView::new()
        .layer(Leaf::new(1, Vec2::new(10, 5), &log))
        .fullscreen_layer(Leaf::new(2, Vec2::new(100, 3), &log));
    assert_eq!(stack.required_size(Vec2::new(40, 20)), Vec2::new(100, 7));
    stack.layout(Vec2::new(40, 20));
    assert_eq!(stack.layer_sizes(), vec![Vec2::new(12, 7), Vec2::new(40, 3)]);
    assert_eq!(stack.offset(), Vec2::zero());
    let empty: StackView<Leaf> = StackView::new();
    let mut empty = empty;
    assert_eq!(empty.required_size(Vec2::new(40, 20)), Vec2::new(1, 1));
}

#[test]
fn absolute_layers_skip_padding() {
    let log = new_log();
    let mut stack = StackView::new();
    stack.add_layer_at(Position::new(Offset::Absolute(2), Offset::Center), Leaf::new(1, Vec2::new(4, 2), &log));
    assert_eq!(stack.required_size(Vec2::new(40, 20)), Vec2::new(5, 4));
    let stack = stack.layer_at(Position::new(Offset::Parent(1), Offset::Parent(1)), Leaf::new(2, Vec2::new(1, 1), &log));
    assert_eq!(stack.len(), 2);
}

#[test]
fn lookup_by_identifier() {
    let log = new_log();
    let mut stack = StackView::new()
        .layer(Leaf::new(1, Vec2::new(10, 5), &log))
        .layer(Leaf::new(2, Vec2::new(10, 5), &log));
    assert_eq!(stack.focus_view(&Selector::Id("leaf1".to_string())), Ok(()));
    assert_eq!(stack.focus_view(&Selector::Id("nothing".to_string())), Err(()));
    let mut seen = Collect(Vec::new());
    stack.call_on_any(&Selector::Id("leaf2".to_string()), &mut seen);
    assert_eq!(seen.0, vec!["leaf2".to_string()]);
}

#[test]
fn stack_draws_each_layer_inside_screen() {
    let log = new_log();
    let mut stack = StackView::new()
        .fullscreen_layer(Leaf::new(1, Vec2::new(8, 4), &log))
        .layer(Leaf::new(2, Vec2::new(3, 1), &log));
    stack.layout(Vec2::new(8, 4));
    let printer = Printer::new(Vec2::new(8, 4), true);
    let mut canvas = Canvas::new();
    stack.draw(&printer, &mut canvas);
    assert!(canvas.ops.len() >= 8);
    for op in &canvas.ops {
        assert!(op.pos.x < 8 && op.pos.y < 4);
    }
}

#[test]
fn frame_draws_exact_shadow_cells() {
    let log = new_log();
    let s = ShadowView::new(Leaf::new(1, Vec2::new(0, 0), &log));
    let printer = Printer::new(Vec2::new(4, 3), true);
    let mut canvas = Canvas::new();
    s.draw(&printer, &mut canvas);
    // Framed region: offset (1,1), size (3,2). Shadow row y=2 from x=2
    // (two cells), shadow column x=3 from y=2 (one cell).
    let shadow: Vec<(usize, usize)> = canvas
        .ops
        .iter()
        .filter(|op| op.style == ColorStyle::Shadow)
        .map(|op| (op.pos.x, op.pos.y))
        .collect();
    assert_eq!(shadow, vec![(2, 2), (3, 2), (3, 2)]);
    // The content region is (1,1) to (3,2): the leaf's row stays inside it.
    let content: Vec<(usize, usize)> = canvas
        .ops
        .iter()
        .filter(|op| op.style == ColorStyle::Primary)
        .map(|op| (op.pos.x, op.pos.y))
        .collect();
    assert_eq!(content, vec![(1, 1), (2, 1)]);
}

#[test]
fn frame_without_room_draws_nothing() {
    let log = new_log();
    let s = ShadowView::new(Leaf::new(1, Vec2::new(3, 3), &log));
    let printer = Printer::new(Vec2::new(1, 5), true);
    let mut canvas = Canvas::new();
    s.draw(&printer, &mut canvas);
    assert!(canvas.ops.is_empty());
}
