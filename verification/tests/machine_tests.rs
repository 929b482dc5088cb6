use pixelterm::cell::{Block, Rgb, ScreenPos};
use pixelterm::loader::blocks_from_rgba;
use pixelterm::machine::{draw_order, run_events, step, Action, Event, Key, Status};

#[test]
fn tick_then_escape_draws_once_and_terminates() {
    let evs = vec![Event::Tick, Event::Key(Key::Esc)];
    let (status, draws) = run_events(&evs);
    assert_eq!(status, Status::Terminated);
    assert_eq!(draws, 1);
}

#[test]
fn other_key_then_escape_never_draws() {
    let evs = vec![Event::Key(Key::Char('a')), Event::Key(Key::Esc)];
    let (status, draws) = run_events(&evs);
    assert_eq!(status, Status::Terminated);
    assert_eq!(draws, 0);
}

#[test]
fn two_ticks_then_escape_draws_twice() {
    let evs = vec![Event::Tick, Event::Tick, Event::Key(Key::Esc)];
    let (status, draws) = run_events(&evs);
    assert_eq!(status, Status::Terminated);
    assert_eq!(draws, 2);
}

#[test]
fn without_escape_the_machine_keeps_running() {
    let evs = vec![Event::Tick, Event::Other, Event::Key(Key::Char('q')), Event::Tick];
    let (status, draws) = run_events(&evs);
    assert_eq!(status, Status::Running);
    assert_eq!(draws, 2);
}

#[test]
fn events_after_escape_are_not_handled() {
    let evs = vec![Event::Key(Key::Esc), Event::Tick, Event::Tick];
    let (status, draws) = run_events(&evs);
    assert_eq!(status, Status::Terminated);
    assert_eq!(draws, 0);
}

#[test]
fn single_steps_of_the_transition_relation() {
    assert_eq!(step(Status::Running, Event::Tick), (Status::Running, Action::Draw));
    assert_eq!(
        step(Status::Running, Event::Key(Key::Esc)),
        (Status::Terminated, Action::Ignore)
    );
    assert_eq!(
        step(Status::Running, Event::Key(Key::Char('x'))),
        (Status::Running, Action::Ignore)
    );
    assert_eq!(step(Status::Running, Event::Other), (Status::Running, Action::Ignore));
    assert_eq!(step(Status::Terminated, Event::Tick), (Status::Terminated, Action::Ignore));
}

#[test]
fn a_redraw_writes_left_then_right_for_each_block() {
    let rgba: Vec<u8> = vec![1, 0, 0, 255, 0, 2, 0, 255];
    let blocks: Vec<Block> = blocks_from_rgba(2, 1, &rgba);
    let cells = draw_order(&blocks);
    assert_eq!(cells.len(), 4);
    assert_eq!(cells[0], blocks[0].left);
    assert_eq!(cells[1], blocks[0].right);
    assert_eq!(cells[2], blocks[1].left);
    assert_eq!(cells[3], blocks[1].right);
    assert_eq!(cells[0].pos, ScreenPos { x: 0, y: 0 });
    assert_eq!(cells[3].pos, ScreenPos { x: 3, y: 0 });
    assert_eq!(cells[2].bg, Some(Rgb { r: 0, g: 2, b: 0 }));
}

#[test]
fn block_new_places_two_cells_side_by_side() {
    let b = Block::new(ScreenPos { x: 6, y: 3 }, Some(Rgb { r: 1, g: 2, b: 3 }));
    assert_eq!(b.left.pos, ScreenPos { x: 6, y: 3 });
    assert_eq!(b.right.pos, ScreenPos { x: 7, y: 3 });
    assert_eq!(b.left.glyph, ' ');
    assert_eq!(b.right.glyph, ' ');
    assert_eq!(b.left.fg, None);
    assert_eq!(b.right.fg, None);
    assert_eq!(b.left.bg, Some(Rgb { r: 1, g: 2, b: 3 }));
    assert_eq!(b.right.bg, b.left.bg);
}
