//! What each value says: all that it holds, each thing in its own place, and nothing else.
use vstd::prelude::*;

use crate::base64_bytes_or_nothing;
use crate::base64_text;
use crate::cli;
use crate::cli::{Command, CommandView, Value, ValueView};
use crate::client;
use crate::client::{Error, ErrorView};
use crate::environment;
use crate::launch;
use crate::protocol;
use crate::protocol::{
    Incoming, IncomingView, ProcessSpec, Refusal, RefusalView, Request, RequestView, Response,
    ResponseView, State, StateView, Window,
};
use crate::server;
use crate::server::{Step, StepView, Turn, TurnView};
use crate::session;
use crate::session::{Exit, Stop, StopView};
use crate::text;

verus! {

/// A list of texts says each of them, in order.
pub proof fn law_texts_are_told_one_by_one(list: Seq<String>)
    ensures
        text::texts(list).len() == list.len(),
        forall|i: int| 0 <= i < list.len() ==> #[trigger] text::texts(list)[i] == list[i]@,
{
}

/// A list of pairs says each name and each value, in order.
pub proof fn law_pairs_are_told_one_by_one(pairs: Seq<(String, String)>)
    ensures
        environment::spelled(pairs).len() == pairs.len(),
        forall|i: int|
            0 <= i < pairs.len() ==> (#[trigger] environment::spelled(pairs)[i]).0 == pairs[i].0@
                && environment::spelled(pairs)[i].1 == pairs[i].1@,
{
}

/// What is to be run is told in full: command, every argument, directory, variables and size.
pub proof fn law_a_spec_is_told_in_full(spec: ProcessSpec)
    ensures
        spec@.command == spec.command@,
        spec@.args.len() == spec.args@.len(),
        forall|i: int| 0 <= i < spec.args@.len() ==> #[trigger] spec@.args[i] == spec.args@[i]@,
        spec@.cwd == spec.cwd@,
        spec@.env == spec.env@,
        spec@.size == spec.size,
{
}

/// A window says its size and its contents.
pub proof fn law_a_window_is_told_in_full(window: Window)
    ensures
        window@.size == window.size,
        window@.contents == window.contents@,
{
}

/// A state says which one it is, and of an end the code, the signal and the window.
pub proof fn law_a_state_is_told_in_full(state: State)
    ensures
        match state {
            State::NotStarted => state@ == StateView::NotStarted,
            State::Running => state@ == StateView::Running,
            State::Exited { code, signal, window } => state@ == (StateView::Exited {
                code,
                signal,
                window: window@,
            }),
        },
{
}

/// A request says what it asks, with all that it was given.
pub proof fn law_a_request_is_told_in_full(request: Request)
    ensures
        match request {
            Request::Start(spec) => request@ == RequestView::Start(spec@),
            Request::Window => request@ == RequestView::Window,
            Request::Input { data } => request@ == (RequestView::Input { data: data@ }),
            Request::Resize { size } => request@ == (RequestView::Resize { size }),
            Request::Stop { grace_ms } => request@ == (RequestView::Stop { grace_ms }),
            Request::State => request@ == RequestView::State,
            Request::Clipboard => request@ == RequestView::Clipboard,
        },
{
}

/// A refusal says which one it is, with all that it was given.
pub proof fn law_a_refusal_is_told_in_full(refusal: Refusal)
    ensures
        match refusal {
            Refusal::NothingStarted => refusal@ == RefusalView::NothingStarted,
            Refusal::AlreadyRunning => refusal@ == RefusalView::AlreadyRunning,
            Refusal::AlreadyExited => refusal@ == RefusalView::AlreadyExited,
            Refusal::UnusableWindowSize { least } => refusal@ == (RefusalView::UnusableWindowSize {
                least,
            }),
            Refusal::Failed { message } => refusal@ == (RefusalView::Failed { message: message@ }),
            Refusal::Unreadable { message } => refusal@ == (RefusalView::Unreadable {
                message: message@,
            }),
        },
{
}

/// A response says what it answers, with all that it was given.
pub proof fn law_a_response_is_told_in_full(response: Response)
    ensures
        match response {
            Response::Done => response@ == ResponseView::Done,
            Response::Window(window) => response@ == ResponseView::Window(window@),
            Response::State(state) => response@ == ResponseView::State(state@),
            Response::Clipboard { data: Some(copied) } => response@ == (ResponseView::Clipboard {
                data: Some(copied@),
            }),
            Response::Clipboard { data: None } => response@ == (ResponseView::Clipboard {
                data: None,
            }),
            Response::Refused(refusal) => response@ == ResponseView::Refused(refusal@),
        },
{
}

/// What came in is told as it came in.
pub proof fn law_what_came_in_is_told_in_full<T>(incoming: Incoming<T>)
    ensures
        match incoming {
            Incoming::Message(message) => incoming@ == IncomingView::Message(message),
            Incoming::Unreadable(complaint) => incoming@ == IncomingView::<T>::Unreadable(
                complaint@,
            ),
            Incoming::Ended => incoming@ == IncomingView::<T>::Ended,
        },
{
}

/// What came of reading a text as a message is told as it came.
pub proof fn law_what_was_parsed_is_told_in_full<T>(parsed: Result<T, String>)
    ensures
        match parsed {
            Ok(message) => protocol::parsed_view(parsed) == Result::<T, Seq<char>>::Ok(message),
            Err(complaint) => protocol::parsed_view(parsed) == Result::<T, Seq<char>>::Err(
                complaint@,
            ),
        },
{
}

/// An end says its code, its signal and its window.
pub proof fn law_an_end_is_told_in_full(exit: Exit)
    ensures
        exit@.code == exit.code,
        exit@.signal == exit.signal,
        exit@.window == exit.window@,
        session::ending(Some(exit)) == Some(exit@),
        session::ending(None) is None,
{
}

/// A stop says how it stands, with all that it was given.
pub proof fn law_a_stop_is_told_in_full(stop: Stop)
    ensures
        match stop {
            Stop::Over(state) => stop@ == StopView::Over(state@),
            Stop::Waiting { run, shot, patience_ms } => stop@ == (StopView::Waiting {
                run,
                shot,
                patience_ms,
            }),
        },
{
}

/// A turn says what a connection does, with all that it was given.
pub proof fn law_a_turn_is_told_in_full(turn: Turn)
    ensures
        match turn {
            Turn::Act(request) => turn@ == TurnView::Act(request),
            Turn::Answer(response) => turn@ == TurnView::Answer(response@),
            Turn::Close => turn@ == TurnView::Close,
        },
{
}

/// A step says what is to be done, with all that it was given.
pub proof fn law_a_step_is_told_in_full(step: Step)
    ensures
        match step {
            Step::Answer(response) => step@ == StepView::Answer(response@),
            Step::Launch(opening) => step@ == StepView::Launch(opening@@),
            Step::Type { data } => step@ == (StepView::Type { data: data@ }),
            Step::Resize { run, size } => step@ == (StepView::Resize { run, size }),
            Step::Stop { run, shot, patience_ms } => step@ == (StepView::Stop {
                run,
                shot,
                patience_ms,
            }),
        },
{
}

/// An error says which one it is, with all that it was given.
pub proof fn law_an_error_is_told_in_full(error: Error)
    ensures
        match error {
            Error::Unreachable(cause) => error@ == ErrorView::Unreachable(cause@),
            Error::HungUp => error@ == ErrorView::HungUp,
            Error::Unreadable(complaint) => error@ == ErrorView::Unreadable(complaint@),
            Error::Refused(refusal) => error@ == ErrorView::Refused(refusal@),
            Error::Mismatched { asked, answer } => error@ == (ErrorView::Mismatched {
                asked: asked@,
                answer: answer@,
            }),
        },
{
}

/// What came of a question is told as it came: the value, or the error.
pub proof fn law_outcomes_are_told_as_they_came(
    state: State,
    window: Window,
    copied: Vec<u8>,
    error: Error,
    refusal: Refusal,
)
    ensures
        client::state_outcome(Ok(state)) == Result::<StateView, ErrorView>::Ok(state@),
        client::state_outcome(Err(error)) == Result::<StateView, ErrorView>::Err(error@),
        client::window_outcome(Ok(window)) == Result::<protocol::WindowView, ErrorView>::Ok(
            window@,
        ),
        client::window_outcome(Err(error)) == Result::<protocol::WindowView, ErrorView>::Err(
            error@,
        ),
        client::clipboard_outcome(Ok(Some(copied))) == Result::<Option<Seq<u8>>, ErrorView>::Ok(
            Some(copied@),
        ),
        client::clipboard_outcome(Ok(None)) == Result::<Option<Seq<u8>>, ErrorView>::Ok(None),
        client::clipboard_outcome(Err(error)) == Result::<Option<Seq<u8>>, ErrorView>::Err(error@),
        client::done_outcome(Ok(())) == Result::<(), ErrorView>::Ok(()),
        client::done_outcome(Err(error)) == Result::<(), ErrorView>::Err(error@),
        server::start_view(Ok(state)) == Result::<StateView, RefusalView>::Ok(state@),
        server::start_view(Err(refusal)) == Result::<StateView, RefusalView>::Err(refusal@),
{
}

/// What came of work outside is told as it came: what it left behind, or every cause in order.
pub proof fn law_work_is_told_as_it_went(pid: Option<u32>, causes: Vec<String>)
    ensures
        launch::done_view(Ok(())) == Result::<(), Seq<Seq<char>>>::Ok(()),
        launch::done_view(Err(causes)) == Result::<(), Seq<Seq<char>>>::Err(text::texts(causes@)),
        launch::spawned_view(Ok(pid)) == Result::<Option<u32>, Seq<Seq<char>>>::Ok(pid),
        launch::spawned_view(Err(causes)) == Result::<Option<u32>, Seq<Seq<char>>>::Err(
            text::texts(causes@),
        ),
{
}

/// What came of reading bytes is told as it came: the bytes, nothing, or the complaint.
pub proof fn law_what_was_read_is_told_as_it_came(bytes: Vec<u8>, complaint: String)
    ensures
        base64_text::outcome(Ok(bytes)) == Result::<Seq<u8>, Seq<char>>::Ok(bytes@),
        base64_text::outcome(Err(complaint)) == Result::<Seq<u8>, Seq<char>>::Err(complaint@),
        base64_bytes_or_nothing::held(Some(bytes)) == Some(bytes@),
        base64_bytes_or_nothing::held(None) is None,
        base64_bytes_or_nothing::said(Some(complaint)) == Some(complaint@),
        base64_bytes_or_nothing::said(None) is None,
        base64_bytes_or_nothing::outcome(Ok(Some(bytes))) == Result::<
            Option<Seq<u8>>,
            Seq<char>,
        >::Ok(Some(bytes@)),
        base64_bytes_or_nothing::outcome(Ok(None)) == Result::<Option<Seq<u8>>, Seq<char>>::Ok(
            None,
        ),
        base64_bytes_or_nothing::outcome(Err(complaint)) == Result::<
            Option<Seq<u8>>,
            Seq<char>,
        >::Err(complaint@),
        base64_bytes_or_nothing::decoded_view(Some(Ok(bytes))) == Some(
            Result::<Seq<u8>, Seq<char>>::Ok(bytes@),
        ),
        base64_bytes_or_nothing::decoded_view(Some(Err(complaint))) == Some(
            Result::<Seq<u8>, Seq<char>>::Err(complaint@),
        ),
        base64_bytes_or_nothing::decoded_view(None) is None,
        session::take_view(Ok(())) == Result::<(), Seq<char>>::Ok(()),
        session::take_view(Err(complaint)) == Result::<(), Seq<char>>::Err(complaint@),
{
}

/// A field holds what its text was read as, and nothing where it had none.
pub proof fn law_a_field_holds_what_its_text_was_read_as(
    decoded: Result<Seq<u8>, Seq<char>>,
    bytes: Seq<u8>,
)
    ensures
        base64_bytes_or_nothing::after_read(Some(decoded)) == match decoded {
            Ok(bytes) => Ok::<Option<Seq<u8>>, Seq<char>>(Some(bytes)),
            Err(complaint) => Err(complaint),
        },
        base64_bytes_or_nothing::after_read(None) == Result::<Option<Seq<u8>>, Seq<char>>::Ok(None),
        base64_bytes_or_nothing::carried(Some(bytes)) == Some(base64_text::base64_text(bytes)),
        base64_bytes_or_nothing::carried(None) is None,
{
}

/// A value says what it holds.
pub proof fn law_a_value_is_told_in_full(value: Value)
    ensures
        match value {
            Value::Text(text) => value@ == ValueView::Text(text@),
            Value::Pair(name, of) => value@ == ValueView::Pair(name@, of@),
            Value::Small(number) => value@ == ValueView::Small(number),
            Value::Large(number) => value@ == ValueView::Large(number),
            Value::Switched(on) => value@ == ValueView::Switched(on),
        },
{
}

/// Lists of values say each value, in order.
pub proof fn law_values_are_told_one_by_one(given: Seq<Value>, lists: Seq<Vec<Value>>)
    ensures
        cli::values(given).len() == given.len(),
        forall|i: int| 0 <= i < given.len() ==> #[trigger] cli::values(given)[i] == given[i]@,
        cli::all_values(lists).len() == lists.len(),
        forall|i: int|
            0 <= i < lists.len() ==> #[trigger] cli::all_values(lists)[i] == cli::values(lists[i]@),
{
}

/// A command says which one it is, with all that it was given.
pub proof fn law_a_command_is_told_in_full(command: Command)
    ensures
        match command {
            Command::Start { cwd, env, rows, cols, argv } => command@ == (CommandView::Start {
                cwd: cwd@,
                env: environment::spelled(env@),
                rows,
                cols,
                argv: text::texts(argv@),
            }),
            Command::Window { freeze } => command@ == (CommandView::Window { freeze }),
            Command::Input { text: Some(text) } => command@ == (CommandView::Input {
                text: Some(text@),
            }),
            Command::Input { text: None } => command@ == (CommandView::Input { text: None }),
            Command::Resize { rows, cols } => command@ == (CommandView::Resize { rows, cols }),
            Command::Stop { grace_ms } => command@ == (CommandView::Stop { grace_ms }),
            Command::State => command@ == CommandView::State,
            Command::Clipboard => command@ == CommandView::Clipboard,
        },
        cli::spelled_command(Some(command)) == Some(command@),
        cli::spelled_command(None) is None,
{
}

/// What came of making a request is told as it came.
pub proof fn law_what_was_asked_is_told_as_it_came(request: Request, complaint: String)
    ensures
        cli::asked_view(Ok(request)) == Result::<RequestView, Seq<char>>::Ok(request@),
        cli::asked_view(Err(complaint)) == Result::<RequestView, Seq<char>>::Err(complaint@),
{
}

} // verus!
