use wsh::parser::changes::{copy_row, diff_events, same_row, Frame, Wipe, Wipes, EXTRA_EVENTS};
use wsh::parser::engine::{Engine, Reply, MIN_RESIZE_COLS};
use wsh::parser::events::{default_interval, Event, EventType, ResetReason, Subscribe};
use wsh::parser::state::{
    Cell, Color, Cursor, Format, FormattedLine, Grid, Query, QueryResponse, Span, Style,
};
use wsh::parser::task::handle_query;
use wsh::parser::vt::{Operation, MAX_SCROLLBACK};
use wsh::parser::changes::wipe_of;
use wsh::parser::{
    query_outcome, subscription_event, task_step, ParserError, QueryWait, SubscriptionEvent,
    TaskStep, QUERY_TIMEOUT_SECS,
};

fn row(text: &str) -> Vec<Cell> {
    text.chars().map(|ch| Cell { ch, width: 1, style: Style::default() }).collect()
}

fn frame(rows: &[&str], cursor: (usize, usize), alternate_active: bool) -> Frame {
    Frame {
        cursor: Cursor { row: cursor.0, col: cursor.1, visible: true },
        alternate_active,
        total_lines: rows.len() + 10,
        rows: rows.iter().map(|r| row(r)).collect(),
    }
}

fn line(seq: u64, index: usize, text: &str, total_lines: usize) -> Event {
    Event::Line { seq, index, line: FormattedLine::Plain(text.to_string()), total_lines }
}

#[test]
fn nothing_changed_nothing_emitted() {
    let a = frame(&["one", "two"], (0, 0), false);
    assert_eq!(diff_events(&a, &a.clone(), Wipes::none(), Format::Plain, 41), vec![]);
}

#[test]
fn one_line_event_per_changed_row_then_the_cursor() {
    let pre = frame(&["one", "two", "three"], (0, 0), false);
    let post = frame(&["one", "TWO", "THREE"], (2, 5), false);
    assert_eq!(
        diff_events(&pre, &post, Wipes::none(), Format::Plain, 10),
        vec![
            line(11, 1, "TWO", 13),
            line(12, 2, "THREE", 13),
            Event::Cursor { seq: 13, row: 2, col: 5, visible: true },
        ]
    );
}

#[test]
fn cursor_visibility_alone_is_reported() {
    let pre = frame(&["one"], (0, 1), false);
    let mut post = pre.clone();
    post.cursor.visible = false;
    assert_eq!(
        diff_events(&pre, &post, Wipes::none(), Format::Plain, 0),
        vec![Event::Cursor { seq: 1, row: 0, col: 1, visible: false }]
    );
}

#[test]
fn a_screen_switch_comes_first_with_its_reset() {
    let pre = frame(&["text"], (0, 4), false);
    let post = frame(&["    "], (0, 4), true);
    assert_eq!(
        diff_events(&pre, &post, Wipes::none(), Format::Plain, 5),
        vec![
            Event::Mode { seq: 6, alternate_active: true },
            Event::Reset { seq: 7, reason: ResetReason::AlternateScreenEnter },
            line(8, 0, "    ", 11),
        ]
    );
    assert_eq!(
        diff_events(&post, &pre, Wipes::none(), Format::Plain, 8),
        vec![
            Event::Mode { seq: 9, alternate_active: false },
            Event::Reset { seq: 10, reason: ResetReason::AlternateScreenExit },
            line(11, 0, "text", 11),
        ]
    );
}

#[test]
fn each_kind_of_wipe_is_reported_once() {
    let a = frame(&["one"], (0, 0), false);
    let wipes = Wipes::none()
        .note(Wipe::Everything)
        .note(Wipe::Screen)
        .note(Wipe::Nothing)
        .note(Wipe::Screen)
        .note(Wipe::Scrollback);
    assert_eq!(wipes, Wipes { screen: true, scrollback: true, everything: true });
    assert_eq!(
        diff_events(&a, &a.clone(), wipes, Format::Plain, 0),
        vec![
            Event::Reset { seq: 1, reason: ResetReason::ClearScreen },
            Event::Reset { seq: 2, reason: ResetReason::ClearScrollback },
            Event::Reset { seq: 3, reason: ResetReason::HardReset },
        ]
    );
    assert_eq!(Wipes::none().note(Wipe::Nothing), Wipes::none());
    assert_eq!(EXTRA_EVENTS, 6);
}

#[test]
fn rows_that_the_earlier_frame_lacks_count_as_changed() {
    let pre = frame(&["one"], (0, 0), false);
    let mut post = frame(&["one", "two"], (0, 0), false);
    post.total_lines = 12;
    assert_eq!(
        diff_events(&pre, &post, Wipes::none(), Format::Plain, 0),
        vec![line(1, 1, "two", 12)]
    );
}

#[test]
fn styled_line_events_carry_spans() {
    let pre = frame(&[" "], (0, 0), false);
    let mut post = pre.clone();
    let red = Style { fg: Some(Color::Rgb { r: 255, g: 0, b: 0 }), ..Style::default() };
    post.rows = vec![vec![Cell { ch: 'x', width: 1, style: red }]];
    assert_eq!(
        diff_events(&pre, &post, Wipes::none(), Format::Styled, 0),
        vec![Event::Line {
            seq: 1,
            index: 0,
            line: FormattedLine::Styled(vec![Span { text: "x".to_string(), style: red }]),
            total_lines: 11,
        }]
    );
}

#[test]
fn rows_compare_cell_by_cell() {
    assert!(same_row(&row("abc"), &row("abc")));
    assert!(!same_row(&row("abc"), &row("abd")));
    assert!(!same_row(&row("abc"), &row("ab")));
    assert!(same_row(&row(""), &row("")));
    assert_eq!(copy_row(&row("copy")), row("copy"));
}

#[test]
fn a_grid_shows_its_last_rows_as_frame() {
    let grid = Grid {
        cols: 3,
        rows: 2,
        cursor: Cursor { row: 0, col: 0, visible: false },
        alternate_active: true,
        lines: vec![row("aaa"), row("bbb"), row("ccc")],
    };
    assert_eq!(
        grid.frame(),
        Frame {
            cursor: Cursor { row: 0, col: 0, visible: false },
            alternate_active: true,
            total_lines: 3,
            rows: vec![row("bbb"), row("ccc")],
        }
    );
}

#[test]
fn event_seq_and_subscription() {
    assert_eq!(Event::Mode { seq: 9, alternate_active: true }.seq(), 9);
    assert_eq!(Event::Reset { seq: 3, reason: ResetReason::Resize }.seq(), 3);
    assert_eq!(line(4, 0, "", 0).seq(), 4);
    assert_eq!(Event::Cursor { seq: 5, row: 0, col: 0, visible: true }.seq(), 5);
    assert_eq!(default_interval(), 100);
    let sub = Subscribe::new(vec![EventType::Lines, EventType::Mode]);
    assert_eq!(sub.interval_ms, 100);
    assert_eq!(sub.format, Format::Plain);
    assert!(sub.wants(EventType::Lines));
    assert!(sub.wants(EventType::Mode));
    assert!(!sub.wants(EventType::Cursor));
    assert!(!sub.wants(EventType::Chars));
    assert!(!sub.wants(EventType::Diffs));
    assert!(!Subscribe::new(vec![]).wants(EventType::Lines));
}

#[test]
fn a_lagging_subscriber_is_told_how_many_it_missed() {
    assert_eq!(subscription_event(Err(7)), SubscriptionEvent::Lagged(7));
    let event = Event::Mode { seq: 1, alternate_active: false };
    assert_eq!(subscription_event(Ok(event.clone())), SubscriptionEvent::Event(event));
}

#[test]
fn query_outcomes() {
    assert_eq!(QUERY_TIMEOUT_SECS, 5);
    assert_eq!(query_outcome(QueryWait::Answered(QueryResponse::Done)), Ok(QueryResponse::Done));
    assert_eq!(query_outcome(QueryWait::TimedOut), Err(ParserError::QueryTimeout));
    assert_eq!(query_outcome(QueryWait::NotSent), Err(ParserError::TaskDied));
    assert_eq!(query_outcome(QueryWait::Dropped), Err(ParserError::TaskDied));
    assert_eq!(
        query_outcome(QueryWait::Refused(ParserError::InvalidQuery("no".to_string()))),
        Err(ParserError::InvalidQuery("no".to_string()))
    );
}

#[test]
fn only_a_dead_task_is_restarted() {
    assert_eq!(task_step(&Ok::<u8, ParserError>(1)), TaskStep::GoOn);
    assert_eq!(task_step(&Err::<u8, ParserError>(ParserError::TaskDied)), TaskStep::Restart);
    assert_eq!(task_step(&Err::<u8, ParserError>(ParserError::QueryTimeout)), TaskStep::GoOn);
    assert_eq!(task_step(&Err::<u8, ParserError>(ParserError::ChannelFull)), TaskStep::GoOn);
    assert_eq!(
        task_step(&Err::<u8, ParserError>(ParserError::InvalidQuery(String::new()))),
        TaskStep::GoOn
    );
    let mut engine = Engine::new(8, 2, 0);
    assert_eq!(task_step(&engine.feed(b"x", Format::Plain)), TaskStep::GoOn);
    assert_eq!(task_step(&engine.handle(Query::Resize { cols: 0, rows: 0 })), TaskStep::GoOn);
}

#[test]
fn a_resize_to_one_column_is_refused() {
    let mut engine = Engine::new(80, 24, 100);
    engine.feed("\u{4e2d}\u{6587}".as_bytes(), Format::Plain).unwrap();
    let before = engine.capture();
    let seq = engine.last_seq();
    assert!(matches!(engine.resize(1, 24), Err(ParserError::InvalidQuery(_))));
    assert!(matches!(
        engine.handle(Query::Resize { cols: 1, rows: 24 }),
        Err(ParserError::InvalidQuery(_))
    ));
    assert_eq!(engine.size(), (80, 24));
    assert_eq!(engine.last_seq(), seq);
    assert_eq!(engine.capture(), before);
    assert_eq!(MIN_RESIZE_COLS, 2);

    engine.feed(b"\x1b[?1049h", Format::Plain).unwrap();
    assert!(matches!(engine.resize(1, 24), Err(ParserError::InvalidQuery(_))));
    engine.feed(b"\x1b[?1049l", Format::Plain).unwrap();
    assert_eq!(engine.capture().cols, 80);

    engine.resize(2, 24).unwrap();
    assert_eq!(engine.size(), (2, 24));
    assert_eq!(engine.capture().cols, 2);
    engine.feed("\u{4e2d}\u{6587}x".as_bytes(), Format::Plain).unwrap();
    engine.resize(3, 1).unwrap();
    engine.resize(2, 2).unwrap();
}

#[test]
fn an_emulator_of_one_column_takes_wide_characters() {
    let mut engine = Engine::new(1, 3, 10);
    engine.feed("a\u{4e2d}b\x1b[?1049h\u{6587}\x1b[?1049l\r\n".as_bytes(), Format::Styled).unwrap();
    assert_eq!(engine.capture().cols, 1);
    engine.resize(4, 3).unwrap();
    engine.feed("\u{4e2d}".as_bytes(), Format::Styled).unwrap();
    assert_eq!(engine.capture().cols, 4);
}


#[test]
fn parser_error_messages() {
    assert_eq!(ParserError::TaskDied.message(), "parser task died unexpectedly");
    assert_eq!(ParserError::ChannelFull.message(), "query channel full");
    assert_eq!(ParserError::QueryTimeout.message(), "parser query timed out");
    assert_eq!(
        ParserError::InvalidQuery("no rows".to_string()).message(),
        "invalid query parameters: no rows"
    );
}

fn seqs(events: &[Event]) -> Vec<u64> {
    events.iter().map(|e| e.seq()).collect()
}

#[test]
fn seq_strictly_increases_across_feeds() {
    let mut engine = Engine::new(20, 4, 10);
    assert_eq!(engine.current_epoch(), 0);
    assert_eq!(engine.last_seq(), 0);
    let mut all = Vec::new();
    for chunk in ["one\r\n", "two", "\x1b[?1049h", "alt", "\x1b[?1049l", "\r\nthree\r\nfour\r\nfive"] {
        let events = engine.feed(chunk.as_bytes(), Format::Plain).unwrap();
        assert!(!events.is_empty());
        all.extend(seqs(&events));
        assert_eq!(engine.last_seq(), *all.last().unwrap());
    }
    let expected: Vec<u64> = (1..=all.len() as u64).collect();
    assert_eq!(all, expected);
    assert_eq!(engine.feed(b"", Format::Plain).unwrap(), vec![]);
}

#[test]
fn feed_reports_the_changed_row_and_the_cursor() {
    let mut engine = Engine::new(5, 2, 0);
    let events = engine.feed(b"hi", Format::Plain).unwrap();
    assert_eq!(
        events,
        vec![
            Event::Line {
                seq: 1,
                index: 0,
                line: FormattedLine::Plain("hi   ".to_string()),
                total_lines: 2,
            },
            Event::Cursor { seq: 2, row: 0, col: 2, visible: true },
        ]
    );
    assert_eq!(engine.last_frame().rows.len(), 2);
    assert_eq!(engine.last_frame().cursor, Cursor { row: 0, col: 2, visible: true });
}

#[test]
fn feed_reports_wipes() {
    let mut engine = Engine::new(5, 2, 10);
    engine.feed(b"hi", Format::Plain).unwrap();
    let events = engine.feed(b"\x1b[2J", Format::Plain).unwrap();
    assert_eq!(engine.last_wipes(), Wipes { screen: true, scrollback: false, everything: false });
    assert_eq!(events[0], Event::Reset { seq: 3, reason: ResetReason::ClearScreen });
    let events = engine.feed(b"\x1bc", Format::Plain).unwrap();
    assert!(events.contains(&Event::Reset { seq: events[0].seq(), reason: ResetReason::HardReset }));
    let events = engine.feed(b"\x1b[3J", Format::Plain).unwrap();
    assert_eq!(
        events,
        vec![Event::Reset { seq: engine.last_seq(), reason: ResetReason::ClearScrollback }]
    );
    engine.feed(b"x", Format::Plain).unwrap();
    assert_eq!(engine.last_wipes(), Wipes::none());
}

#[test]
fn styled_output_keeps_its_rendition() {
    let mut engine = Engine::new(6, 1, 0);
    engine.feed(b"\x1b[1;31mab\x1b[0mcd", Format::Styled).unwrap();
    let grid = engine.capture();
    assert_eq!(grid.cols, 6);
    assert_eq!(grid.rows, 1);
    let bold_red = Style { fg: Some(Color::Indexed(1)), bold: true, ..Style::default() };
    match engine.answer(Query::Screen { format: Format::Styled }) {
        QueryResponse::Screen(screen) => assert_eq!(
            screen.lines,
            vec![FormattedLine::Styled(vec![
                Span { text: "ab".to_string(), style: bold_red },
                Span { text: "cd  ".to_string(), style: Style::default() },
            ])]
        ),
        other => panic!("expected Screen response, got {:?}", other),
    }
    engine.feed(b"\r\x1b[38;2;1;2;3;48;5;200;3;4;5;7;9mz", Format::Styled).unwrap();
    let cell = engine.capture().lines[0][0];
    assert_eq!(cell.ch, 'z');
    assert_eq!(cell.width, 1);
    assert_eq!(
        cell.style,
        Style {
            fg: Some(Color::Rgb { r: 1, g: 2, b: 3 }),
            bg: Some(Color::Indexed(200)),
            bold: false,
            faint: false,
            italic: true,
            underline: true,
            strikethrough: true,
            blink: true,
            inverse: true,
        }
    );
    engine.feed(b"\r\x1b[0;2mf", Format::Styled).unwrap();
    assert!(engine.capture().lines[0][0].style.faint);
}

#[test]
fn wide_characters_occupy_two_cells() {
    let mut engine = Engine::new(4, 1, 0);
    engine.feed("\u{4e2d}a".as_bytes(), Format::Plain).unwrap();
    let cells = engine.capture().lines[0].clone();
    assert_eq!(cells[0].ch, '\u{4e2d}');
    assert_eq!(cells[0].width, 2);
    assert_eq!(cells[1].width, 0);
    assert_eq!(cells[2].ch, 'a');
    match engine.answer(Query::Screen { format: Format::Plain }) {
        QueryResponse::Screen(screen) => {
            assert_eq!(screen.lines, vec![FormattedLine::Plain("\u{4e2d}a ".to_string())])
        }
        other => panic!("expected Screen response, got {:?}", other),
    }
}

#[test]
fn bytes_that_are_not_utf8_are_replaced() {
    let mut engine = Engine::new(4, 1, 0);
    engine.feed(b"a\xffb", Format::Plain).unwrap();
    match engine.answer(Query::Screen { format: Format::Plain }) {
        QueryResponse::Screen(screen) => {
            assert_eq!(screen.lines, vec![FormattedLine::Plain("a\u{fffd}b ".to_string())])
        }
        other => panic!("expected Screen response, got {:?}", other),
    }
}

#[test]
fn scrollback_is_trimmed_to_its_limit() {
    let mut engine = Engine::new(10, 2, 3);
    for i in 0..20 {
        engine.feed(format!("line {}\r\n", i).as_bytes(), Format::Plain).unwrap();
    }
    match engine.answer(Query::Screen { format: Format::Plain }) {
        QueryResponse::Screen(screen) => {
            assert_eq!(screen.total_lines, 5);
            assert_eq!(screen.first_line_index, 3);
            assert_eq!(screen.lines.len(), 2);
        }
        other => panic!("expected Screen response, got {:?}", other),
    }
}

#[test]
fn resize_reports_a_reset() {
    let mut engine = Engine::new(80, 24, 100);
    engine.feed(b"x", Format::Plain).unwrap();
    let seq = engine.last_seq();
    let events = engine.resize(100, 30).unwrap();
    assert_eq!(events, vec![Event::Reset { seq: seq + 1, reason: ResetReason::Resize }]);
    assert_eq!(engine.size(), (100, 30));
    assert_eq!(engine.last_seq(), seq + 1);
    assert_eq!(engine.last_frame().rows.len(), 30);
    let reply = engine.handle(Query::Resize { cols: 40, rows: 10 }).unwrap();
    assert_eq!(
        reply,
        Reply {
            response: QueryResponse::Done,
            events: vec![Event::Reset { seq: seq + 2, reason: ResetReason::Resize }],
        }
    );
    assert!(matches!(engine.resize(10, 0), Err(ParserError::InvalidQuery(_))));
    assert!(matches!(engine.resize(0, 10), Err(ParserError::InvalidQuery(_))));
    assert_eq!(engine.size(), (40, 10));
    assert_eq!(engine.last_seq(), seq + 2);
}

#[test]
fn reading_queries_report_nothing() {
    let mut engine = Engine::new(8, 2, 0);
    engine.feed(b"q", Format::Plain).unwrap();
    let seq = engine.last_seq();
    let reply = engine.handle(Query::Cursor).unwrap();
    assert_eq!(reply.events, vec![]);
    match reply.response {
        QueryResponse::Cursor(c) => {
            assert_eq!(c.epoch, 0);
            assert_eq!(c.cursor, Cursor { row: 0, col: 1, visible: true });
        }
        other => panic!("expected Cursor response, got {:?}", other),
    }
    assert_eq!(engine.last_seq(), seq);
    assert_eq!(engine.answer(Query::Resize { cols: 1, rows: 1 }), QueryResponse::Done);
    assert_eq!(engine.size(), (8, 2));
}

#[test]
fn restart_begins_a_new_epoch() {
    let mut engine = Engine::new(8, 2, 5);
    engine.feed(b"before\r\nthe\r\nrestart", Format::Plain).unwrap();
    engine.resize(9, 3).unwrap();
    let event = engine.restart();
    assert_eq!(event, Event::Reset { seq: 0, reason: ResetReason::ParserRestart });
    assert_eq!(engine.current_epoch(), 1);
    assert_eq!(engine.last_seq(), 0);
    assert_eq!(engine.size(), (9, 3));
    match engine.answer(Query::Screen { format: Format::Plain }) {
        QueryResponse::Screen(screen) => {
            assert_eq!(screen.epoch, 1);
            assert_eq!(screen.cols, 9);
            assert_eq!(screen.rows, 3);
            assert_eq!(screen.total_lines, 3);
            assert_eq!(screen.lines[0], FormattedLine::Plain(" ".repeat(9)));
        }
        other => panic!("expected Screen response, got {:?}", other),
    }
    let events = engine.feed(b"a", Format::Plain).unwrap();
    assert_eq!(events[0].seq(), 1);
}

#[test]
fn arbitrary_bytes_are_taken_without_complaint() {
    let mut engine = Engine::new(17, 5, 20);
    let mut state: u64 = 0x2545_F491_4F6C_DD1D;
    let mut last = 0;
    for round in 0..400 {
        let mut chunk = Vec::new();
        for _ in 0..97 {
            state ^= state << 13;
            state ^= state >> 7;
            state ^= state << 17;
            let byte = (state >> 24) as u8;
            chunk.push(if round % 3 == 0 { byte } else { byte % 0x60 + 0x1b });
        }
        let events = engine.feed(&chunk, Format::Styled).unwrap();
        for event in &events {
            assert!(event.seq() > last);
            last = event.seq();
        }
        let grid = engine.capture();
        assert_eq!(grid.frame(), *engine.last_frame());
        let screen = grid.screen(Format::Styled, 0);
        assert_eq!(screen.total_lines, screen.first_line_index + screen.lines.len());
        assert!(screen.total_lines >= screen.rows);
        if round % 50 == 49 {
            engine.resize(3 + round % 40, 2 + round % 7).unwrap();
            last = engine.last_seq();
        }
    }
}

#[test]
fn an_engine_needs_a_column_and_a_row() {
    assert!(matches!(Engine::try_new(0, 24, 10), Err(ParserError::InvalidQuery(_))));
    assert!(matches!(Engine::try_new(80, 0, 10), Err(ParserError::InvalidQuery(_))));
    assert_eq!(MAX_SCROLLBACK, 1_000_000);
    assert!(matches!(
        Engine::try_new(80, 24, MAX_SCROLLBACK + 1),
        Err(ParserError::InvalidQuery(_))
    ));
    assert!(Engine::try_new(2, 2, MAX_SCROLLBACK).is_ok());
    let engine = Engine::try_new(1, 1, 0).unwrap();
    assert_eq!(engine.size(), (1, 1));
    assert_eq!(engine.current_epoch(), 0);
    assert_eq!(engine.last_seq(), 0);
    assert_eq!(engine.last_wipes(), Wipes::none());
}

#[test]
fn answers_come_from_the_present_state() {
    let mut engine = Engine::new(12, 3, 4);
    engine.feed(b"one\r\n\x1b[4mtwo\x1b[0m\r\nthree\r\nfour\r\nfive", Format::Plain).unwrap();
    let grid = engine.capture();
    assert_eq!(grid.cols, 12);
    assert_eq!(grid.rows, 3);
    assert_eq!(grid.lines.len(), 5);
    assert_eq!(grid.cursor, Cursor { row: 2, col: 4, visible: true });
    assert!(!grid.alternate_active);
    assert_eq!(grid.frame(), *engine.last_frame());
    assert_eq!(engine.capture(), grid);
    for query in [
        Query::Screen { format: Format::Plain },
        Query::Screen { format: Format::Styled },
        Query::Scrollback { format: Format::Styled, offset: 1, limit: 3 },
        Query::Cursor,
        Query::Resize { cols: 5, rows: 5 },
    ] {
        assert_eq!(engine.answer(query), handle_query(&grid, query, engine.current_epoch()));
    }
}

fn blank_row(cols: usize) -> Vec<Cell> {
    vec![Cell { ch: ' ', width: 1, style: Style::default() }; cols]
}

#[test]
fn a_new_engine_holds_a_blank_grid_of_its_size() {
    let engine = Engine::new(7, 3, 50);
    assert_eq!(engine.history_limit(), 50);
    assert!(engine.can_restart());
    assert_eq!(
        engine.capture(),
        Grid {
            cols: 7,
            rows: 3,
            cursor: Cursor { row: 0, col: 0, visible: true },
            alternate_active: false,
            lines: vec![blank_row(7), blank_row(7), blank_row(7)],
        }
    );
}

#[test]
fn a_restarted_engine_holds_a_blank_grid_of_the_last_size() {
    let mut engine = Engine::new(7, 3, 50);
    engine.feed(b"\x1b[?1049h\x1b[?25lsome\r\noutput", Format::Plain).unwrap();
    engine.resize(4, 2).unwrap();
    engine.restart();
    assert_eq!(
        engine.capture(),
        Grid {
            cols: 4,
            rows: 2,
            cursor: Cursor { row: 0, col: 0, visible: true },
            alternate_active: false,
            lines: vec![blank_row(4), blank_row(4)],
        }
    );
    assert_eq!(*engine.last_frame(), engine.capture().frame());
    assert_eq!(engine.last_wipes(), Wipes::none());
    assert_eq!(engine.history_limit(), 50);
}

#[test]
fn resize_changes_the_emulator() {
    let mut engine = Engine::new(80, 24, 1000);
    engine.feed(b"text", Format::Plain).unwrap();
    engine.resize(120, 40).unwrap();
    let grid = engine.capture();
    assert_eq!((grid.cols, grid.rows), (120, 40));
    assert_eq!(grid.lines.len(), 40);
    assert_eq!(grid.lines[0].len(), 120);
    match engine.answer(Query::Screen { format: Format::Plain }) {
        QueryResponse::Screen(screen) => {
            assert_eq!((screen.cols, screen.rows), (120, 40));
            assert_eq!(screen.lines.len(), 40);
            assert!(screen.total_lines >= screen.rows);
        }
        other => panic!("expected Screen response, got {:?}", other),
    }
}

#[test]
fn the_same_output_gives_the_same_state() {
    let chunks: [&[u8]; 4] = [b"one\r\ntwo", b"\x1b[2", b"J\x1b[31mred", b"\xe4\xb8"];
    let mut a = Engine::new(9, 3, 5);
    let mut b = Engine::new(9, 3, 5);
    for chunk in chunks {
        let from_a = a.feed(chunk, Format::Styled).unwrap();
        let from_b = b.feed(chunk, Format::Styled).unwrap();
        assert_eq!(from_a, from_b);
        assert_eq!(a.capture(), b.capture());
        assert_eq!(a.last_wipes(), b.last_wipes());
    }
    let before = a.capture();
    a.feed(b"", Format::Plain).unwrap();
    assert_eq!(a.capture(), before);
    a.feed(b"x", Format::Plain).unwrap();
    assert!(a.capture() != b.capture());
}

#[test]
fn operations_and_what_they_wipe() {
    assert_eq!(wipe_of(Operation::EraseDisplay), Wipe::Screen);
    assert_eq!(wipe_of(Operation::EraseSavedLines), Wipe::Scrollback);
    assert_eq!(wipe_of(Operation::FullReset), Wipe::Everything);
    assert_eq!(wipe_of(Operation::Other), Wipe::Nothing);
    let mut engine = Engine::new(5, 2, 10);
    engine.feed(b"\x1b[J\x1b[1J\x1b[K", Format::Plain).unwrap();
    assert_eq!(engine.last_wipes(), Wipes::none());
    engine.feed(b"\x1b[2J\x1b[3J", Format::Plain).unwrap();
    assert_eq!(engine.last_wipes(), Wipes { screen: true, scrollback: true, everything: false });
}

#[test]
fn a_subscriber_gets_the_kinds_it_selected_in_its_format() {
    let style = Style { bold: true, ..Style::default() };
    let styled = FormattedLine::Styled(vec![
        Span { text: "ab".to_string(), style },
        Span { text: "cd".to_string(), style: Style::default() },
    ]);
    let line = Event::Line { seq: 1, index: 0, line: styled.clone(), total_lines: 3 };
    let cursor = Event::Cursor { seq: 2, row: 0, col: 0, visible: true };
    let reset = Event::Reset { seq: 3, reason: ResetReason::Resize };

    let mut sub = Subscribe::new(vec![EventType::Lines]);
    assert_eq!(
        sub.deliver(line.clone()),
        Some(Event::Line {
            seq: 1,
            index: 0,
            line: FormattedLine::Plain("abcd".to_string()),
            total_lines: 3,
        })
    );
    assert_eq!(sub.deliver(cursor.clone()), None);
    assert_eq!(sub.deliver(reset.clone()), Some(reset.clone()));

    sub.format = Format::Styled;
    assert_eq!(sub.deliver(line.clone()), Some(line.clone()));

    let sub = Subscribe::new(vec![EventType::Cursor, EventType::Mode]);
    assert_eq!(sub.deliver(line.clone()), None);
    assert_eq!(sub.deliver(cursor.clone()), Some(cursor.clone()));
    assert_eq!(sub.deliver(reset.clone()), Some(reset));

    assert_eq!(line.kind(), Some(EventType::Lines));
    assert_eq!(cursor.kind(), Some(EventType::Cursor));
    assert_eq!(Event::Mode { seq: 0, alternate_active: true }.kind(), Some(EventType::Mode));
    assert_eq!(styled.clone().in_format(Format::Styled), styled);
    assert_eq!(
        FormattedLine::Plain("p".to_string()).in_format(Format::Styled),
        FormattedLine::Plain("p".to_string())
    );
    assert_eq!(cursor.clone().in_format(Format::Plain), cursor);
}
