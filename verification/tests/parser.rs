use wsh::parser::engine::Engine;
use wsh::parser::events::{Event, ResetReason};
use wsh::parser::state::{Format, FormattedLine, Query, QueryResponse};
use wsh::parser::{subscription_event, ParserError, SubscriptionEvent};

fn feed(engine: &mut Engine, text: &str) -> Vec<Event> {
    engine.feed(text.as_bytes(), Format::Plain).unwrap()
}

fn screen(engine: &Engine) -> wsh::parser::state::ScreenResponse {
    match engine.answer(Query::Screen { format: Format::Plain }) {
        QueryResponse::Screen(screen) => screen,
        _ => panic!("expected Screen response"),
    }
}

fn scrollback(engine: &Engine, offset: usize, limit: usize) -> wsh::parser::state::ScrollbackResponse {
    match engine.answer(Query::Scrollback { format: Format::Plain, offset, limit }) {
        QueryResponse::Scrollback(page) => page,
        _ => panic!("expected Scrollback response"),
    }
}

#[test]
fn test_parser_spawn() {
    let engine = Engine::new(80, 24, 1000);
    let screen = screen(&engine);
    assert_eq!(screen.cols, 80);
    assert_eq!(screen.rows, 24);
}

#[test]
fn test_parser_query_cursor() {
    let engine = Engine::new(80, 24, 1000);
    match engine.answer(Query::Cursor) {
        QueryResponse::Cursor(cursor_resp) => {
            assert_eq!(cursor_resp.cursor.row, 0);
            assert_eq!(cursor_resp.cursor.col, 0);
        }
        _ => panic!("expected Cursor response"),
    }
}

#[test]
fn test_parser_processes_input() {
    let mut engine = Engine::new(80, 24, 1000);
    feed(&mut engine, "Hello, World!");
    let screen = screen(&engine);
    assert!(!screen.lines.is_empty());
    match screen.lines.first() {
        Some(FormattedLine::Plain(text)) => assert!(text.contains("Hello")),
        other => panic!("expected a plain line, got {:?}", other),
    }
}

#[test]
fn test_parser_resize() {
    let mut engine = Engine::new(80, 24, 1000);
    let reply = engine.handle(Query::Resize { cols: 120, rows: 40 }).unwrap();
    assert_eq!(reply.response, QueryResponse::Done);
    let screen = screen(&engine);
    assert_eq!(screen.cols, 120);
    assert_eq!(screen.rows, 40);
}

#[test]
fn test_parser_scrollback() {
    let mut engine = Engine::new(80, 5, 100);
    for i in 0..10 {
        feed(&mut engine, &format!("Line {}\r\n", i));
    }
    let page = scrollback(&engine, 0, 100);
    assert!(page.total_lines > 0);
}

#[test]
fn test_scrollback_includes_all_lines() {
    let mut engine = Engine::new(80, 5, 100);
    for i in 0..10 {
        feed(&mut engine, &format!("Line {}\r\n", i));
    }
    let screen = screen(&engine);
    let page = scrollback(&engine, 0, 100);
    assert!(screen.total_lines >= 10, "should have at least 10 total lines, got {}", screen.total_lines);
    assert!(screen.first_line_index >= 5, "first_line_index should be >= 5, got {}", screen.first_line_index);
    assert_eq!(page.total_lines, screen.total_lines, "scrollback total_lines should equal screen total_lines");
    assert!(!page.lines.is_empty(), "scrollback lines should not be empty");
}

#[test]
fn test_parser_event_stream() {
    let mut engine = Engine::new(80, 24, 1000);
    let events = feed(&mut engine, "Test");
    assert!(!events.is_empty(), "should receive an event");
}

#[test]
fn test_line_event_includes_total_lines() {
    let mut engine = Engine::new(80, 24, 1000);
    let events = feed(&mut engine, "Hello");
    let first = events.into_iter().next().expect("should receive event");
    match subscription_event(Ok(first)) {
        SubscriptionEvent::Event(Event::Line { total_lines, .. }) => {
            assert!(total_lines >= 24, "total_lines should be at least screen height");
        }
        other => panic!("expected Line event, got {:?}", other),
    }
}

#[test]
fn test_scrollback_when_in_alternate_screen() {
    let mut engine = Engine::new(80, 5, 100);
    for i in 0..10 {
        feed(&mut engine, &format!("Line {}\r\n", i));
    }
    let scrollback_before = scrollback(&engine, 0, 100).total_lines;
    assert!(scrollback_before > 0, "Should have scrollback before alternate screen");

    feed(&mut engine, "\x1b[?1049h");
    let scrollback_in_alternate = scrollback(&engine, 0, 100).total_lines;
    assert_eq!(scrollback_in_alternate, 5, "Alternate screen should have screen-size lines");

    feed(&mut engine, "\x1b[?1049l");
    let scrollback_after = scrollback(&engine, 0, 100).total_lines;
    assert_eq!(scrollback_after, scrollback_before, "Scrollback should be preserved after exiting alternate screen");
}

#[test]
fn test_alternate_active_in_screen_response() {
    let mut engine = Engine::new(80, 24, 1000);
    assert!(!screen(&engine).alternate_active, "should start in primary screen");
    feed(&mut engine, "\x1b[?1049h");
    assert!(screen(&engine).alternate_active, "should be in alternate screen after DECSET 1049");
    feed(&mut engine, "\x1b[?1049l");
    assert!(!screen(&engine).alternate_active, "should be back in primary screen after DECRST 1049");
}

fn mode_of(events: &[Event]) -> Option<bool> {
    events.iter().find_map(|e| match e {
        Event::Mode { alternate_active, .. } => Some(*alternate_active),
        _ => None,
    })
}

#[test]
fn test_alternate_screen_emits_mode_event() {
    let mut engine = Engine::new(80, 24, 1000);
    let events = feed(&mut engine, "\x1b[?1049h");
    let mode_event = mode_of(&events).expect("should receive Mode event");
    assert!(mode_event, "Mode event should indicate alternate_active = true");
    assert!(events.iter().any(|e| matches!(
        e,
        Event::Reset { reason: ResetReason::AlternateScreenEnter, .. }
    )));

    let events = feed(&mut engine, "\x1b[?1049l");
    let mode_event = mode_of(&events).expect("should receive Mode event on exit");
    assert!(!mode_event, "Mode event should indicate alternate_active = false");
    assert!(events.iter().any(|e| matches!(
        e,
        Event::Reset { reason: ResetReason::AlternateScreenExit, .. }
    )));
}

#[test]
fn test_screen_response_includes_line_indices() {
    let mut engine = Engine::new(80, 5, 100);
    for i in 0..10 {
        feed(&mut engine, &format!("Line {}\r\n", i));
    }
    let screen = screen(&engine);
    assert!(screen.first_line_index > 0, "should have scrollback");
    assert_eq!(screen.total_lines, screen.first_line_index + screen.lines.len());
}

#[test]
fn test_parser_channel_does_not_lose_data() {
    let mut engine = Engine::new(80, 24, 1000);
    for i in 0..200 {
        feed(&mut engine, &format!("msg-{i}\r\n"));
    }
    let screen = screen(&engine);
    assert!(screen.total_lines >= 200, "should have at least 200 total lines, got {}", screen.total_lines);
}

#[test]
fn resize_to_nothing_is_refused() {
    let mut engine = Engine::new(80, 24, 1000);
    let result = engine.handle(Query::Resize { cols: 0, rows: 10 });
    assert!(matches!(result, Err(ParserError::InvalidQuery(_))));
    assert_eq!(engine.size(), (80, 24));
}
