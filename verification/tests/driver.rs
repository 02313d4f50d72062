use window_inspector::driver::{step, AbortCause, Event, Output, State, Step};
use window_inspector::handle::{ParseHandleError, WindowHandle};
use window_inspector::query::OsError;
use window_inspector::rect::PrettyPrintRect;
use window_inspector::title::TitleFill;

const E_HANDLE: i32 = -2147024890;

fn arguments(args: &[&str]) -> Event {
    Event::Arguments(args.iter().map(|a| String::from(*a)).collect())
}

fn line(text: &str) -> Output {
    Output::Line(String::from(text))
}

fn filled(text: &str) -> Event {
    let buffer: Vec<u16> = text.encode_utf16().collect();
    Event::TitleFilled(TitleFill { written: buffer.len() as i32 - 1, buffer, last_error: 0 })
}

#[test]
fn missing_argument_prints_and_exits_with_one() {
    let expected =
        Step { state: State::Exit { code: 1 }, output: line("Missing argument: HWND value") };
    assert_eq!(step(State::Start, arguments(&["inspect"])), expected);
    assert_eq!(step(State::Start, arguments(&[])), expected);
}

#[test]
fn first_argument_becomes_the_handle() {
    let handle = WindowHandle { raw: 0x001A_0B2C };
    let expected = Step { state: State::ArgsParsed { handle }, output: Output::Nothing };
    assert_eq!(step(State::Start, arguments(&["inspect", "001A0B2C"])), expected);
    assert_eq!(step(State::Start, arguments(&["inspect", " 1a0b2c\n"])), expected);
    assert_eq!(step(State::Start, arguments(&["inspect", "1A0B2C", "zz", ""])), expected);
}

#[test]
fn a_text_that_is_no_handle_abandons_the_run() {
    let abort = |error| Step {
        state: State::Abort { cause: AbortCause::InvalidHandle(error) },
        output: Output::Nothing,
    };
    assert_eq!(
        step(State::Start, arguments(&["inspect", "window"])),
        abort(ParseHandleError::InvalidDigit)
    );
    assert_eq!(step(State::Start, arguments(&["inspect", ""])), abort(ParseHandleError::Empty));
    assert_eq!(
        step(State::Start, arguments(&["inspect", "FFFFFFFFFFFFFFFFF"])),
        abort(ParseHandleError::OutOfRange)
    );
}

#[test]
fn a_full_run_prints_three_lines_and_exits_with_zero() {
    let handle = WindowHandle { raw: 0x50A3C };
    let mut printed: Vec<Output> = Vec::new();

    let s = step(State::Start, arguments(&["inspect", "50A3C"]));
    assert_eq!(s.state, State::ArgsParsed { handle });
    printed.push(s.output);

    let s = step(s.state, Event::TitleLength(8));
    assert_eq!(s.state, State::TitleSized { handle, capacity: 9 });
    printed.push(s.output);

    let s = step(s.state, filled("Untitled\0"));
    assert_eq!(s.state, State::TitlePrinted { handle });
    printed.push(s.output);

    let bounds = PrettyPrintRect::new(10, 20, 110, 220);
    let s = step(s.state, Event::ExtendedRect { status: 0, bounds });
    assert_eq!(s.state, State::ExtendedRectPrinted { handle });
    printed.push(s.output);

    let rect = PrettyPrintRect::new(3, 20, 117, 227);
    let s = step(s.state, Event::LegacyRect { ret: 1, rect });
    assert_eq!(s.state, State::Exit { code: 0 });
    printed.push(s.output);

    assert_eq!(
        printed,
        vec![
            Output::Nothing,
            Output::Nothing,
            line("title: [Untitled\0]"),
            line("rect by DwmGetWindowAttribute: (10, 20), (110, 220) - 100x200"),
            line("rect by GetWindowRect: (3, 20), (117, 227) - 114x207"),
        ]
    );
}

#[test]
fn a_window_without_title_prints_empty_brackets() {
    let handle = WindowHandle { raw: 7 };
    for text_len in [0, -1, i32::MIN] {
        assert_eq!(
            step(State::ArgsParsed { handle }, Event::TitleLength(text_len)),
            Step { state: State::TitlePrinted { handle }, output: line("title: []") }
        );
    }
}

#[test]
fn a_fill_that_wrote_nothing_abandons_the_run() {
    let handle = WindowHandle { raw: 7 };
    let fill = TitleFill { written: 0, buffer: vec![0; 9], last_error: 1400 };
    assert_eq!(
        step(State::TitleSized { handle, capacity: 9 }, Event::TitleFilled(fill)),
        Step {
            state: State::Abort { cause: AbortCause::TitleQuery(OsError { code: 1400 }) },
            output: Output::Nothing,
        }
    );
}

#[test]
fn a_handle_of_no_window_fails_at_the_first_rectangle() {
    let handle = WindowHandle { raw: 0x7FFF_FFF0 };
    let s = step(State::Start, arguments(&["inspect", "7FFFFFF0"]));
    assert_eq!(s, Step { state: State::ArgsParsed { handle }, output: Output::Nothing });

    let s = step(s.state, Event::TitleLength(0));
    assert_eq!(s, Step { state: State::TitlePrinted { handle }, output: line("title: []") });

    let bounds = PrettyPrintRect::zeroed();
    let s = step(s.state, Event::ExtendedRect { status: E_HANDLE, bounds });
    assert_eq!(
        s,
        Step { state: State::Exit { code: 1 }, output: Output::Error(OsError { code: E_HANDLE }) }
    );

    let rect = PrettyPrintRect::zeroed();
    let after = step(s.state, Event::LegacyRect { ret: 0, rect });
    assert_eq!(after, Step { state: State::Exit { code: 1 }, output: Output::Nothing });
}

#[test]
fn a_failing_bounding_rectangle_exits_with_one() {
    let handle = WindowHandle { raw: 0x50A3C };
    let rect = PrettyPrintRect::zeroed();
    assert_eq!(
        step(State::ExtendedRectPrinted { handle }, Event::LegacyRect { ret: 0, rect }),
        Step { state: State::Exit { code: 1 }, output: Output::Error(OsError { code: 0 }) }
    );
}

#[test]
fn a_status_above_zero_is_a_success() {
    let handle = WindowHandle { raw: 1 };
    let bounds = PrettyPrintRect::new(0, 0, 1, 1);
    assert_eq!(
        step(State::TitlePrinted { handle }, Event::ExtendedRect { status: 1, bounds }),
        Step {
            state: State::ExtendedRectPrinted { handle },
            output: line("rect by DwmGetWindowAttribute: (0, 0), (1, 1) - 1x1"),
        }
    );
}

#[test]
fn an_event_out_of_turn_changes_nothing() {
    let handle = WindowHandle { raw: 1 };
    let rect = PrettyPrintRect::new(0, 0, 1, 1);
    let states = [
        State::Start,
        State::ArgsParsed { handle },
        State::TitleSized { handle, capacity: 4 },
        State::ExtendedRectPrinted { handle },
    ];
    for state in states {
        assert_eq!(
            step(state, Event::ExtendedRect { status: 0, bounds: rect }),
            Step { state, output: Output::Nothing }
        );
    }
    let state = State::TitlePrinted { handle };
    assert_eq!(
        step(state, Event::LegacyRect { ret: 1, rect }),
        Step { state, output: Output::Nothing }
    );
    assert_eq!(step(state, Event::TitleLength(3)), Step { state, output: Output::Nothing });
    assert_eq!(step(state, arguments(&["a", "1"])), Step { state, output: Output::Nothing });
}

#[test]
fn a_finished_run_stays_finished() {
    let rect = PrettyPrintRect::new(0, 0, 1, 1);
    let finals = [
        State::Exit { code: 0 },
        State::Exit { code: 1 },
        State::Abort { cause: AbortCause::InvalidHandle(ParseHandleError::Empty) },
        State::Abort { cause: AbortCause::TitleQuery(OsError { code: 5 }) },
    ];
    for state in finals {
        let events = [
            arguments(&["inspect", "1"]),
            Event::TitleLength(1),
            filled("a\0"),
            Event::ExtendedRect { status: 0, bounds: rect },
            Event::LegacyRect { ret: 1, rect },
        ];
        for event in events {
            assert_eq!(step(state, event), Step { state, output: Output::Nothing });
        }
    }
}
