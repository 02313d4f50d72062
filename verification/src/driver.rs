//! The order of a run: arguments, title, extended frame bounds, bounding
//! rectangle, exit.
//!
//! The run is a state machine. The caller owns the loop: it performs what the
//! current [`State`] waits for, reports the answer as an [`Event`], prints
//! the [`Output`] of the [`Step`] and goes on from the state in it.

use crate::handle::{parse_handle, parse_hex_handle, ParseHandleError, WindowHandle};
use crate::query::{dwm_get_window_rect, dwm_window_rect, get_window_rect, window_rect, OsError};
use crate::rect::PrettyPrintRect;
use crate::title::{
    filled_title, title_buffer_len, title_capacity, title_from_fill, window_title_text, TitleFill,
};
use vstd::prelude::*;
use vstd::string::StringExecFns;

verus! {

/// Why a run is abandoned instead of ending with an exit code.
#[derive(Clone, Copy, Debug, PartialEq, Eq, Structural)]
pub enum AbortCause {
    /// The argument is no window handle.
    InvalidHandle(ParseHandleError),
    /// The title buffer could not be filled.
    TitleQuery(OsError),
}

/// Where a run stands, and thereby what the caller has to do next.
#[derive(Clone, Copy, Debug, PartialEq, Eq, Structural)]
pub enum State {
    /// Nothing has happened yet. Waits for the command-line arguments.
    Start,
    /// The handle is known. Waits for the length of the window's title.
    ArgsParsed { handle: WindowHandle },
    /// The title has a length. Waits for a buffer of `capacity` code units,
    /// all zero, to be filled with the title.
    TitleSized { handle: WindowHandle, capacity: usize },
    /// The title line is out. Waits for the extended frame bounds, queried
    /// into a zeroed rectangle.
    TitlePrinted { handle: WindowHandle },
    /// The first rectangle line is out. Waits for the bounding rectangle,
    /// queried into a zeroed rectangle.
    ExtendedRectPrinted { handle: WindowHandle },
    /// The run is over: the process exits with `code`.
    Exit { code: i32 },
    /// The run is abandoned with a diagnostic.
    Abort { cause: AbortCause },
}

/// What the caller reports back.
#[derive(Debug, PartialEq, Eq)]
pub enum Event {
    /// The command line: the program's name, then its arguments.
    Arguments(Vec<String>),
    /// The length that the operating system reported for the title.
    TitleLength(i32),
    /// The title buffer was handed to the operating system to fill.
    TitleFilled(TitleFill),
    /// The compositor answered the extended-frame-bounds query with `status`
    /// and left `bounds` in the rectangle buffer.
    ExtendedRect { status: i32, bounds: PrettyPrintRect },
    /// The operating system answered the bounding-rectangle query with `ret`
    /// and left `rect` in the rectangle buffer.
    LegacyRect { ret: i32, rect: PrettyPrintRect },
}

/// What a step prints to standard output.
#[derive(Debug, PartialEq, Eq)]
pub enum Output {
    /// Nothing.
    Nothing,
    /// This line.
    Line(String),
    /// The operating system's description of this error, on a line.
    Error(OsError),
}

/// The mathematical form of [`Output`]: the line as a sequence of
/// characters.
pub enum Printed {
    /// Nothing.
    Nothing,
    /// This line.
    Line(Seq<char>),
    /// The operating system's description of this error, on a line.
    Error(OsError),
}

impl View for Output {
    type V = Printed;

    open spec fn view(&self) -> Printed {
        match self {
            Output::Nothing => Printed::Nothing,
            Output::Line(line) => Printed::Line(line@),
            Output::Error(error) => Printed::Error(*error),
        }
    }
}

/// The result of one step: the state to go on from and what to print first.
#[derive(Debug, PartialEq, Eq)]
pub struct Step {
    pub state: State,
    pub output: Output,
}

/// The line that reports the title.
pub open spec fn title_line(title: Seq<char>) -> Seq<char> {
    "title: ["@ + title + "]"@
}

/// The line that reports the extended frame bounds.
pub open spec fn extended_rect_line(rect: PrettyPrintRect) -> Seq<char> {
    "rect by DwmGetWindowAttribute: "@ + rect.rendered()
}

/// The line that reports the bounding rectangle.
pub open spec fn legacy_rect_line(rect: PrettyPrintRect) -> Seq<char> {
    "rect by GetWindowRect: "@ + rect.rendered()
}

/// The line that is printed when the handle argument is missing.
pub open spec fn missing_argument_line() -> Seq<char> {
    "Missing argument: HWND value"@
}

/// The transition function: the state that follows `state` on `event`, and
/// what is printed on the way.
///
/// * `Start`: without an argument after the program's name the run prints
///   the missing-argument line and exits with code 1. Otherwise the first
///   argument is parsed as a handle; a text that is no handle abandons the
///   run.
/// * `ArgsParsed`: a title length above zero asks for a buffer to be filled;
///   any other length prints the line of the empty title.
/// * `TitleSized`: the filled buffer gives the title line, or abandons the
///   run when nothing was written.
/// * `TitlePrinted`, `ExtendedRectPrinted`: a rectangle gives its line; a
///   failure prints the error and exits with code 1. After the second
///   rectangle the run exits with code 0.
/// * An event that the state does not wait for changes nothing and prints
///   nothing. `Exit` and `Abort` wait for none.
pub open spec fn transition(state: State, event: Event) -> (State, Printed) {
    match (state, event) {
        (State::Start, Event::Arguments(args)) => {
            if args@.len() < 2 {
                (State::Exit { code: 1 }, Printed::Line(missing_argument_line()))
            } else {
                match parse_hex_handle(args@[1]@) {
                    Ok(handle) => (State::ArgsParsed { handle }, Printed::Nothing),
                    Err(error) => (
                        State::Abort { cause: AbortCause::InvalidHandle(error) },
                        Printed::Nothing,
                    ),
                }
            }
        },
        (State::ArgsParsed { handle }, Event::TitleLength(text_len)) => {
            match title_capacity(text_len) {
                Some(capacity) => (State::TitleSized { handle, capacity }, Printed::Nothing),
                None => (
                    State::TitlePrinted { handle },
                    Printed::Line(title_line(Seq::empty())),
                ),
            }
        },
        (State::TitleSized { handle, .. }, Event::TitleFilled(fill)) => {
            match filled_title(fill.written, fill.buffer@, fill.last_error) {
                Ok(title) => (State::TitlePrinted { handle }, Printed::Line(title_line(title))),
                Err(error) => (
                    State::Abort { cause: AbortCause::TitleQuery(error) },
                    Printed::Nothing,
                ),
            }
        },
        (State::TitlePrinted { handle }, Event::ExtendedRect { status, bounds }) => {
            match dwm_window_rect(status, bounds) {
                Ok(rect) => (
                    State::ExtendedRectPrinted { handle },
                    Printed::Line(extended_rect_line(rect)),
                ),
                Err(error) => (State::Exit { code: 1 }, Printed::Error(error)),
            }
        },
        (State::ExtendedRectPrinted { handle }, Event::LegacyRect { ret, rect }) => {
            match window_rect(ret, rect) {
                Ok(rect) => (State::Exit { code: 0 }, Printed::Line(legacy_rect_line(rect))),
                Err(error) => (State::Exit { code: 1 }, Printed::Error(error)),
            }
        },
        _ => (state, Printed::Nothing),
    }
}

impl State {
    /// How far a run in this state has come: the number of the stage, from
    /// zero at the start to five once the run is over.
    pub open spec fn progress(self) -> nat {
        match self {
            State::Start => 0,
            State::ArgsParsed { .. } => 1,
            State::TitleSized { .. } => 2,
            State::TitlePrinted { .. } => 3,
            State::ExtendedRectPrinted { .. } => 4,
            State::Exit { .. } => 5,
            State::Abort { .. } => 5,
        }
    }

    /// The window that the run is about, once it is known and while the run
    /// goes on.
    pub open spec fn handle(self) -> Option<WindowHandle> {
        match self {
            State::ArgsParsed { handle } => Some(handle),
            State::TitleSized { handle, .. } => Some(handle),
            State::TitlePrinted { handle } => Some(handle),
            State::ExtendedRectPrinted { handle } => Some(handle),
            _ => None,
        }
    }

    /// Whether the run is over.
    pub open spec fn is_final(self) -> bool {
        self is Exit || self is Abort
    }
}

/// No stage is taken twice and none is gone back to: a step either moves the
/// run to a later stage, or it changes nothing and prints nothing. A run that
/// is over stays as it is, whatever is reported to it.
pub proof fn lemma_step_advances(state: State, event: Event)
    ensures
        transition(state, event).0.progress() > state.progress() || transition(state, event) == (
            state,
            Printed::Nothing,
        ),
        state.is_final() ==> transition(state, event) == (state, Printed::Nothing),
{
}

/// No stage is left out: a step that moves the run on either ends it or
/// takes it to the very next stage. The one stage that can be passed over is
/// the filling of the title buffer, and only for a window without a title.
pub proof fn lemma_step_skips_nothing(state: State, event: Event)
    ensures
        ({
            let after = transition(state, event).0;
            ||| after == state
            ||| after.is_final()
            ||| after.progress() == state.progress() + 1
            ||| (state is ArgsParsed && after is TitlePrinted && event is TitleLength
                && event->TitleLength_0 <= 0)
        }),
{
}

/// The handle that a run was started for stays the same through all its
/// stages: every query of one run is about one window.
pub proof fn lemma_step_keeps_handle(state: State, event: Event)
    ensures
        state.handle() is Some && transition(state, event).0.handle() is Some ==> transition(
            state,
            event,
        ).0.handle() == state.handle(),
{
}

/// The two title stages together print the title that
/// [`window_title_text`] defines. For a window without a title the first
/// stage prints the empty title at once, whatever a fill would have
/// reported. Otherwise the first stage asks for a buffer of the capacity
/// that [`title_capacity`] gives, and the second prints the title or
/// abandons the run with the error.
pub proof fn lemma_title_stages(handle: WindowHandle, text_len: i32, fill: TitleFill)
    ensures
        ({
            let title = window_title_text(text_len, fill.written, fill.buffer@, fill.last_error);
            let sized = transition(State::ArgsParsed { handle }, Event::TitleLength(text_len));
            let filled = transition(sized.0, Event::TitleFilled(fill));
            let printed = if text_len <= 0 {
                sized
            } else {
                filled
            };
            &&& text_len > 0 ==> sized == (
                State::TitleSized { handle, capacity: title_capacity(text_len)->Some_0 },
                Printed::Nothing,
            )
            &&& title matches Ok(text) ==> printed == (
                State::TitlePrinted { handle },
                Printed::Line(title_line(text)),
            )
            &&& title matches Err(error) ==> printed == (
                State::Abort { cause: AbortCause::TitleQuery(error) },
                Printed::Nothing,
            )
        }),
{
}

/// A whole run from `state` on: the state after the events in `events`, one
/// step each, and what the steps printed, in order. A step that prints
/// nothing adds nothing.
pub open spec fn run(state: State, events: Seq<Event>) -> (State, Seq<Printed>)
    decreases events.len(),
{
    if events.len() == 0 {
        (state, Seq::empty())
    } else {
        let first = transition(state, events[0]);
        let rest = run(first.0, events.drop_first());
        (
            rest.0,
            if first.1 is Nothing {
                rest.1
            } else {
                seq![first.1] + rest.1
            },
        )
    }
}

/// Whether `printed` is a title line.
pub open spec fn is_title_line(printed: Printed) -> bool {
    exists|title: Seq<char>| printed == Printed::Line(#[trigger] title_line(title))
}

/// Whether `printed` is the line of some extended frame bounds.
pub open spec fn is_extended_rect_line(printed: Printed) -> bool {
    exists|rect: PrettyPrintRect| printed == Printed::Line(#[trigger] extended_rect_line(rect))
}

/// Whether `printed` is the line of some bounding rectangle.
pub open spec fn is_legacy_rect_line(printed: Printed) -> bool {
    exists|rect: PrettyPrintRect| printed == Printed::Line(#[trigger] legacy_rect_line(rect))
}

/// What a run that stands in `state` can have printed since its start.
///
/// * Nothing before the title is known, and nothing when the run was
///   abandoned.
/// * The title line once the title is known, then the line of the extended
///   frame bounds.
/// * At exit code 0 those two and the line of the bounding rectangle: three
///   lines.
/// * At exit code 1 the missing-argument line alone, or the lines up to the
///   rectangle query that failed and then the error. No other exit code
///   occurs.
pub open spec fn output_fits(state: State, printed: Seq<Printed>) -> bool {
    match state {
        State::Start | State::ArgsParsed { .. } | State::TitleSized { .. } => printed.len() == 0,
        State::Abort { .. } => printed.len() == 0,
        State::TitlePrinted { .. } => printed.len() == 1 && is_title_line(printed[0]),
        State::ExtendedRectPrinted { .. } => {
            &&& printed.len() == 2
            &&& is_title_line(printed[0])
            &&& is_extended_rect_line(printed[1])
        },
        State::Exit { code } => {
            if code == 0 {
                &&& printed.len() == 3
                &&& is_title_line(printed[0])
                &&& is_extended_rect_line(printed[1])
                &&& is_legacy_rect_line(printed[2])
            } else {
                &&& code == 1
                &&& {
                    ||| printed == seq![Printed::Line(missing_argument_line())]
                    ||| {
                        &&& printed.len() == 2
                        &&& is_title_line(printed[0])
                        &&& printed[1] is Error
                    }
                    ||| {
                        &&& printed.len() == 3
                        &&& is_title_line(printed[0])
                        &&& is_extended_rect_line(printed[1])
                        &&& printed[2] is Error
                    }
                }
            }
        },
    }
}

/// One step keeps the output in the shape that [`output_fits`] describes.
proof fn lemma_step_keeps_output_fit(state: State, printed: Seq<Printed>, event: Event)
    requires
        output_fits(state, printed),
    ensures
        ({
            let (after, out) = transition(state, event);
            output_fits(
                after,
                if out is Nothing {
                    printed
                } else {
                    printed.push(out)
                },
            )
        }),
{
    let (after, out) = transition(state, event);
    match out {
        Printed::Nothing => {},
        Printed::Line(line) => {
            let all = printed.push(out);
            if state is ArgsParsed {
                assert(line == title_line(Seq::empty()));
                assert(is_title_line(all[0]));
            } else if state is TitleSized {
                let fill = event->TitleFilled_0;
                let title = filled_title(fill.written, fill.buffer@, fill.last_error)->Ok_0;
                assert(line == title_line(title));
                assert(is_title_line(all[0]));
            } else if state is TitlePrinted {
                let rect = event->ExtendedRect_bounds;
                assert(line == extended_rect_line(rect));
                assert(is_extended_rect_line(all[1]));
                assert(all[0] == printed[0]);
            } else if state is ExtendedRectPrinted {
                let rect = event->LegacyRect_rect;
                assert(line == legacy_rect_line(rect));
                assert(is_legacy_rect_line(all[2]));
                assert(all[0] == printed[0]);
                assert(all[1] == printed[1]);
            } else {
                assert(all =~= seq![Printed::Line(missing_argument_line())]);
            }
        },
        Printed::Error(error) => {
            let all = printed.push(out);
            assert(all[0] == printed[0]);
            if state is ExtendedRectPrinted {
                assert(all[1] == printed[1]);
            }
        },
    }
}

/// [`lemma_run_output`] for a run that is under way: what was printed before
/// and what the rest of the run prints fit together.
proof fn lemma_run_keeps_output_fit(state: State, printed: Seq<Printed>, events: Seq<Event>)
    requires
        output_fits(state, printed),
    ensures
        output_fits(run(state, events).0, printed + run(state, events).1),
    decreases events.len(),
{
    if events.len() == 0 {
        assert(printed + Seq::<Printed>::empty() =~= printed);
    } else {
        let first = transition(state, events[0]);
        let rest = run(first.0, events.drop_first());
        lemma_step_keeps_output_fit(state, printed, events[0]);
        if first.1 is Nothing {
            lemma_run_keeps_output_fit(first.0, printed, events.drop_first());
        } else {
            lemma_run_keeps_output_fit(first.0, printed.push(first.1), events.drop_first());
            assert(printed.push(first.1) + rest.1 =~= printed + (seq![first.1] + rest.1));
        }
    }
}

/// Whatever is reported to a run, in whatever order, what it has printed
/// fits the state it has reached. In particular a run that ends with exit
/// code 0 has printed exactly three lines: the title, the extended frame
/// bounds and the bounding rectangle, in this order. A run that ends with
/// exit code 1 has printed the missing-argument line and nothing else, or
/// has an error as its last output. A run that is abandoned has printed
/// nothing.
pub proof fn lemma_run_output(events: Seq<Event>)
    ensures
        output_fits(run(State::Start, events).0, run(State::Start, events).1),
{
    lemma_run_keeps_output_fit(State::Start, Seq::empty(), events);
    assert(Seq::<Printed>::empty() + run(State::Start, events).1 =~= run(State::Start, events).1);
}

/// Builds the title line.
fn make_title_line(title: &str) -> (line: String)
    ensures
        line@ == title_line(title@),
{
    let mut line = String::from_str("title: [");
    line.append(title);
    line.append("]");
    line
}

/// Builds a rectangle line from its label and the rectangle.
fn make_rect_line(label: &str, rect: &PrettyPrintRect) -> (line: String)
    ensures
        line@ == label@ + rect.rendered(),
{
    let mut line = String::from_str(label);
    let text = rect.render();
    line.append(text.as_str());
    line
}

/// Takes one step of the run, as [`transition`] defines it.
pub fn step(state: State, event: Event) -> (step: Step)
    ensures
        (step.state, step.output@) == transition(state, event),
{
    match (state, event) {
        (State::Start, Event::Arguments(args)) => {
            if args.len() < 2 {
                Step {
                    state: State::Exit { code: 1 },
                    output: Output::Line(String::from_str("Missing argument: HWND value")),
                }
            } else {
                match parse_handle(args[1].as_str()) {
                    Ok(handle) => Step {
                        state: State::ArgsParsed { handle },
                        output: Output::Nothing,
                    },
                    Err(error) => Step {
                        state: State::Abort { cause: AbortCause::InvalidHandle(error) },
                        output: Output::Nothing,
                    },
                }
            }
        },
        (State::ArgsParsed { handle }, Event::TitleLength(text_len)) => {
            match title_buffer_len(text_len) {
                Some(capacity) => Step {
                    state: State::TitleSized { handle, capacity },
                    output: Output::Nothing,
                },
                None => {
                    proof {
                        reveal_strlit("");
                        assert(""@ =~= Seq::<char>::empty());
                    }
                    Step {
                        state: State::TitlePrinted { handle },
                        output: Output::Line(make_title_line("")),
                    }
                },
            }
        },
        (State::TitleSized { handle, .. }, Event::TitleFilled(fill)) => {
            match title_from_fill(&fill) {
                Ok(title) => Step {
                    state: State::TitlePrinted { handle },
                    output: Output::Line(make_title_line(title.as_str())),
                },
                Err(error) => Step {
                    state: State::Abort { cause: AbortCause::TitleQuery(error) },
                    output: Output::Nothing,
                },
            }
        },
        (State::TitlePrinted { handle }, Event::ExtendedRect { status, bounds }) => {
            match dwm_get_window_rect(status, bounds) {
                Ok(rect) => {
                    let line = make_rect_line("rect by DwmGetWindowAttribute: ", &rect);
                    let state = State::ExtendedRectPrinted { handle };
                    Step { state, output: Output::Line(line) }
                },
                Err(error) => Step { state: State::Exit { code: 1 }, output: Output::Error(error) },
            }
        },
        (State::ExtendedRectPrinted { handle }, Event::LegacyRect { ret, rect }) => {
            match get_window_rect(ret, rect) {
                Ok(rect) => {
                    let line = make_rect_line("rect by GetWindowRect: ", &rect);
                    Step { state: State::Exit { code: 0 }, output: Output::Line(line) }
                },
                Err(error) => Step { state: State::Exit { code: 1 }, output: Output::Error(error) },
            }
        },
        (state, _) => Step { state, output: Output::Nothing },
    }
}

} // verus!
