//! The wire language: what is asked, what is answered, and how one message
//! follows another.
use vstd::prelude::*;
use vstd::string::StringExecFns;

use crate::environment::Environment;
use crate::text;

verus! {

/// A window's height and width, in characters.
#[derive(Debug, Clone, Copy, PartialEq, Eq)]
pub struct WindowSize {
    pub rows: u16,
    pub cols: u16,
}

/// What to run: a command with its arguments, where, with which variables on top
/// of the inherited ones, and in a window of which size.
#[derive(Debug, Clone, PartialEq, Eq)]
pub struct ProcessSpec {
    pub command: String,
    pub args: Vec<String>,
    pub cwd: String,
    pub env: Environment,
    pub size: WindowSize,
}

/// `contents` is a byte stream that repaints the window in full, with colours,
/// attributes and cursor, when fed to a terminal.
#[derive(Debug, Clone, PartialEq, Eq)]
pub struct Window {
    pub size: WindowSize,
    pub contents: Vec<u8>,
}

/// Whether the process runs, or how it ended.
#[derive(Debug, Clone, PartialEq, Eq)]
pub enum State {
    NotStarted,
    Running,
    Exited { code: Option<i32>, signal: Option<i32>, window: Window },
}

/// What a client asks.
#[derive(Debug, Clone, PartialEq, Eq)]
pub enum Request {
    Start(ProcessSpec),
    Window,
    Input { data: Vec<u8> },
    Resize { size: WindowSize },
    Stop { grace_ms: u64 },
    State,
    Clipboard,
}

/// What a client is answered.
#[derive(Debug, Clone, PartialEq, Eq)]
pub enum Response {
    Done,
    Window(Window),
    State(State),
    Clipboard { data: Option<Vec<u8>> },
    Refused(Refusal),
}

/// Why a request was not carried out.
#[derive(Debug, Clone, PartialEq, Eq)]
pub enum Refusal {
    NothingStarted,
    AlreadyRunning,
    AlreadyExited,
    UnusableWindowSize { least: WindowSize },
    Failed { message: String },
    Unreadable { message: String },
}

/// What came in on a connection: a message, a line that is none, or its end.
#[derive(Debug, Clone, PartialEq, Eq)]
pub enum Incoming<T> {
    Message(T),
    Unreadable(String),
    Ended,
}

/// What a `ProcessSpec` says.
pub struct ProcessSpecView {
    pub command: Seq<char>,
    pub args: Seq<Seq<char>>,
    pub cwd: Seq<char>,
    pub env: Map<Seq<char>, Seq<char>>,
    pub size: WindowSize,
}

/// What a `Window` shows.
pub struct WindowView {
    pub size: WindowSize,
    pub contents: Seq<u8>,
}

/// What a `State` says.
pub enum StateView {
    NotStarted,
    Running,
    Exited { code: Option<i32>, signal: Option<i32>, window: WindowView },
}

/// What a `Request` asks.
pub enum RequestView {
    Start(ProcessSpecView),
    Window,
    Input { data: Seq<u8> },
    Resize { size: WindowSize },
    Stop { grace_ms: u64 },
    State,
    Clipboard,
}

/// What a `Response` answers.
pub enum ResponseView {
    Done,
    Window(WindowView),
    State(StateView),
    Clipboard { data: Option<Seq<u8>> },
    Refused(RefusalView),
}

/// What a `Refusal` says.
pub enum RefusalView {
    NothingStarted,
    AlreadyRunning,
    AlreadyExited,
    UnusableWindowSize { least: WindowSize },
    Failed { message: Seq<char> },
    Unreadable { message: Seq<char> },
}

/// What an `Incoming` brings.
pub enum IncomingView<T> {
    Message(T),
    Unreadable(Seq<char>),
    Ended,
}

impl View for ProcessSpec {
    type V = ProcessSpecView;

    open spec fn view(&self) -> ProcessSpecView {
        ProcessSpecView {
            command: self.command@,
            args: text::texts(self.args@),
            cwd: self.cwd@,
            env: self.env@,
            size: self.size,
        }
    }
}

impl View for Window {
    type V = WindowView;

    open spec fn view(&self) -> WindowView {
        WindowView { size: self.size, contents: self.contents@ }
    }
}

impl View for State {
    type V = StateView;

    open spec fn view(&self) -> StateView {
        match self {
            State::NotStarted => StateView::NotStarted,
            State::Running => StateView::Running,
            State::Exited { code, signal, window } => StateView::Exited {
                code: *code,
                signal: *signal,
                window: window@,
            },
        }
    }
}

impl View for Request {
    type V = RequestView;

    open spec fn view(&self) -> RequestView {
        match self {
            Request::Start(spec) => RequestView::Start(spec@),
            Request::Window => RequestView::Window,
            Request::Input { data } => RequestView::Input { data: data@ },
            Request::Resize { size } => RequestView::Resize { size: *size },
            Request::Stop { grace_ms } => RequestView::Stop { grace_ms: *grace_ms },
            Request::State => RequestView::State,
            Request::Clipboard => RequestView::Clipboard,
        }
    }
}

impl View for Response {
    type V = ResponseView;

    open spec fn view(&self) -> ResponseView {
        match self {
            Response::Done => ResponseView::Done,
            Response::Window(window) => ResponseView::Window(window@),
            Response::State(state) => ResponseView::State(state@),
            Response::Clipboard { data } => ResponseView::Clipboard {
                data: crate::base64_bytes_or_nothing::held(*data),
            },
            Response::Refused(refusal) => ResponseView::Refused(refusal@),
        }
    }
}

impl View for Refusal {
    type V = RefusalView;

    open spec fn view(&self) -> RefusalView {
        match self {
            Refusal::NothingStarted => RefusalView::NothingStarted,
            Refusal::AlreadyRunning => RefusalView::AlreadyRunning,
            Refusal::AlreadyExited => RefusalView::AlreadyExited,
            Refusal::UnusableWindowSize { least } => RefusalView::UnusableWindowSize {
                least: *least,
            },
            Refusal::Failed { message } => RefusalView::Failed { message: message@ },
            Refusal::Unreadable { message } => RefusalView::Unreadable { message: message@ },
        }
    }
}

impl<T> View for Incoming<T> {
    type V = IncomingView<T>;

    open spec fn view(&self) -> IncomingView<T> {
        match self {
            Incoming::Message(message) => IncomingView::Message(*message),
            Incoming::Unreadable(complaint) => IncomingView::Unreadable(complaint@),
            Incoming::Ended => IncomingView::Ended,
        }
    }
}

impl Window {
    /// Copies the window.
    pub fn copy(&self) -> (copy: Window)
        ensures
            copy@ == self@,
    {
        Window { size: self.size, contents: text::copy_bytes(&self.contents) }
    }
}

/// How a refusal reads.
pub open spec fn refusal_text(refusal: RefusalView) -> Seq<char> {
    match refusal {
        RefusalView::NothingStarted => "no process has been started"@,
        RefusalView::AlreadyRunning => "a process is already running"@,
        RefusalView::AlreadyExited => "the process has already exited"@,
        RefusalView::UnusableWindowSize { least } => "a window smaller than "@ + text::decimal(
            least.rows as nat,
        ) + "x"@ + text::decimal(least.cols as nat) + " cannot be drawn"@,
        RefusalView::Failed { message } => message,
        RefusalView::Unreadable { message } => message,
    }
}

impl Refusal {
    /// Says in words why the request was not carried out.
    pub fn to_string(&self) -> (said: String)
        ensures
            said@ == refusal_text(self@),
    {
        match self {
            Refusal::NothingStarted => "no process has been started".to_owned(),
            Refusal::AlreadyRunning => "a process is already running".to_owned(),
            Refusal::AlreadyExited => "the process has already exited".to_owned(),
            Refusal::UnusableWindowSize { least } => {
                let mut said = "a window smaller than ".to_owned();
                said.append(text::decimal_text(least.rows as u64).as_str());
                said.append("x");
                said.append(text::decimal_text(least.cols as u64).as_str());
                said.append(" cannot be drawn");
                said
            },
            Refusal::Failed { message } => message.clone(),
            Refusal::Unreadable { message } => message.clone(),
        }
    }
}

/// The line that carries a message's text.
pub open spec fn framed(encoded: Seq<char>) -> Seq<char> {
    encoded.push('\n')
}

/// Makes the line that carries a message's text.
pub fn write_message(encoded: String) -> (line: String)
    ensures
        line@ == framed(encoded@),
{
    proof {
        reveal_strlit("\n");
    }
    let line = encoded.concat("\n");
    assert(line@ =~= framed(encoded@));
    line
}

/// Takes the message's text out of the line that was read.
pub fn message_text(line: &str) -> (encoded: &str)
    ensures
        encoded@ == text::without_line_end(line@),
{
    text::trim_line_end(line)
}

/// What a line brings, `parsed` being what came of reading its text as a message.
/// A line without a single character stands for the end of the source.
pub open spec fn brought<T>(line: Seq<char>, parsed: Result<T, Seq<char>>) -> IncomingView<T> {
    if line.len() == 0 {
        IncomingView::Ended
    } else {
        match parsed {
            Ok(message) => IncomingView::Message(message),
            Err(complaint) => IncomingView::Unreadable(
                complaint + ": "@ + text::without_line_end(line),
            ),
        }
    }
}

/// What came of reading a text as a message.
pub open spec fn parsed_view<T>(parsed: Result<T, String>) -> Result<T, Seq<char>> {
    match parsed {
        Ok(message) => Ok(message),
        Err(complaint) => Err(complaint@),
    }
}

/// Tells what the line that was read brings, given what came of reading its text as
/// a message. A source that has ended gives an empty line.
pub fn read_message<T>(line: &str, parsed: Result<T, String>) -> (incoming: Incoming<T>)
    ensures
        incoming@ == brought(line@, parsed_view(parsed)),
{
    if line.is_empty() {
        return Incoming::Ended;
    }
    match parsed {
        Ok(message) => Incoming::Message(message),
        Err(complaint) => {
            let mut said = complaint;
            said.append(": ");
            said.append(message_text(line));
            Incoming::Unreadable(said)
        },
    }
}

/// Each refusal reads as what it is; what failed and what could not be read read as what was said
/// of them.
pub proof fn law_a_refusal_reads_as_what_it_is(refusal: RefusalView)
    ensures
        match refusal {
            RefusalView::NothingStarted => refusal_text(refusal) == "no process has been started"@,
            RefusalView::AlreadyRunning => refusal_text(refusal) == "a process is already running"@,
            RefusalView::AlreadyExited => refusal_text(refusal)
                == "the process has already exited"@,
            RefusalView::UnusableWindowSize { least } => refusal_text(refusal)
                == "a window smaller than "@ + text::decimal(least.rows as nat) + "x"@
                + text::decimal(least.cols as nat) + " cannot be drawn"@,
            RefusalView::Failed { message } => refusal_text(refusal) == message,
            RefusalView::Unreadable { message } => refusal_text(refusal) == message,
        },
{
}

/// A line is the text of its message and one newline.
pub proof fn law_a_line_is_its_text_and_a_newline(encoded: Seq<char>)
    ensures
        framed(encoded).len() == encoded.len() + 1,
        framed(encoded).last() == '\n',
        framed(encoded).drop_last() == encoded,
{
    assert(framed(encoded).drop_last() =~= encoded);
}

/// A line brings the message that its text was read as, or what is wrong with it and the text
/// itself; no line at all brings the end.
pub proof fn law_a_line_brings_what_its_text_was_read_as<T>(
    line: Seq<char>,
    parsed: Result<T, Seq<char>>,
)
    ensures
        brought(line, parsed) is Ended <==> line.len() == 0,
        line.len() > 0 && parsed is Ok ==> brought(line, parsed) == IncomingView::Message(
            parsed->Ok_0,
        ),
        line.len() > 0 && parsed is Err ==> brought(line, parsed) == IncomingView::<T>::Unreadable(
            parsed->Err_0 + seq![':', ' '] + text::without_line_end(line),
        ),
{
    reveal_strlit(": ");
    assert(": "@ =~= seq![':', ' ']);
}

} // verus!
