//! The one process that is run at a time: what it may be asked, and what it is
//! answered, from its start to its end and to the start of the next one.
//!
//! The terminal, its emulator and the process itself live outside: what they report
//! comes in as arguments, and what they are to do goes out as results.
use vstd::prelude::*;

use crate::base64_text;
use crate::launch::{Launched, Opening};
use crate::protocol::{
    ProcessSpec, Refusal, RefusalView, State, StateView, Window, WindowSize, WindowView,
};
use crate::text;

verus! {

/// How long the end of a run waits for what the process printed last, in milliseconds.
pub const LAST_FRAME_WAIT_MS: u64 = 200;

/// The emulator panics on a grid with fewer rows than this.
pub const LEAST_ROWS: u16 = 2;

/// The emulator panics on a grid with fewer columns than this.
pub const LEAST_COLS: u16 = 2;

/// The smallest window that can be drawn.
pub open spec fn spec_least_window() -> WindowSize {
    WindowSize { rows: LEAST_ROWS, cols: LEAST_COLS }
}

/// The smallest window that can be drawn.
#[verifier::when_used_as_spec(spec_least_window)]
pub fn least_window() -> (size: WindowSize)
    ensures
        size == least_window(),
{
    WindowSize { rows: LEAST_ROWS, cols: LEAST_COLS }
}

/// Whether the emulator can draw a window of this size.
pub open spec fn drawable(size: WindowSize) -> bool {
    size.rows >= LEAST_ROWS && size.cols >= LEAST_COLS
}

/// Tells whether a terminal can be given this size.
pub fn fit(size: WindowSize) -> (fitted: Result<(), Refusal>)
    ensures
        fitted is Ok <==> fit_refused(size) is None,
        fitted matches Err(refusal) ==> fit_refused(size) == Some(refusal@),
{
    if size.rows < LEAST_ROWS || size.cols < LEAST_COLS {
        return Err(Refusal::UnusableWindowSize { least: least_window() });
    }
    Ok(())
}

/// What the process last put on the clipboard, if anything.
#[derive(Debug)]
pub struct Clipboard {
    copied: Option<Vec<u8>>,
}

impl View for Clipboard {
    type V = Option<Seq<u8>>;

    closed spec fn view(&self) -> Option<Seq<u8>> {
        crate::base64_bytes_or_nothing::held(self.copied)
    }
}

/// What is on the clipboard once something was copied that was read as `decoded`: what it
/// was read as, or what was there before where it could not be read.
pub open spec fn after_take(
    before: Option<Seq<u8>>,
    decoded: Result<Seq<u8>, Seq<char>>,
) -> Option<Seq<u8>> {
    match decoded {
        Ok(copied) => Some(copied),
        Err(_) => before,
    }
}

/// What is on the clipboard once the process has copied `data`.
pub open spec fn after_copy(before: Option<Seq<u8>>, data: Seq<u8>) -> Option<Seq<u8>> {
    after_take(before, base64_text::base64_decoded(data))
}

/// What a clipboard that was given something to take says of it.
pub open spec fn take_view(taken: Result<(), String>) -> Result<(), Seq<char>> {
    match taken {
        Ok(_) => Ok(()),
        Err(complaint) => Err(complaint@),
    }
}

/// What a clipboard says of something that was read as `decoded`.
pub open spec fn take_said(decoded: Result<Seq<u8>, Seq<char>>) -> Result<(), Seq<char>> {
    match decoded {
        Ok(_) => Ok(()),
        Err(complaint) => Err(complaint),
    }
}

impl Default for Clipboard {
    /// A clipboard that nothing has been put on.
    fn default() -> (clipboard: Clipboard)
        ensures
            clipboard@ is None,
    {
        Clipboard { copied: None }
    }
}

impl Clipboard {
    /// A clipboard that nothing has been put on.
    pub fn new() -> (clipboard: Clipboard)
        ensures
            clipboard@ is None,
    {
        Clipboard::default()
    }

    /// Takes what was copied, as it was read, and complains of what could not be.
    pub fn take(&mut self, decoded: Result<Vec<u8>, String>) -> (taken: Result<(), String>)
        ensures
            final(self)@ == after_take(old(self)@, base64_text::outcome(decoded)),
            take_view(taken) == take_said(base64_text::outcome(decoded)),
    {
        match decoded {
            Ok(copied) => {
                self.copied = Some(copied);
                Ok(())
            },
            Err(complaint) => Err(complaint),
        }
    }

    /// Takes what the process copies, and complains of what it cannot read.
    pub fn copy_to_clipboard(&mut self, data: &[u8]) -> (taken: Result<(), String>)
        ensures
            final(self)@ == after_copy(old(self)@, data@),
            take_view(taken) == take_said(base64_text::base64_decoded(data@)),
    {
        self.take(base64_text::read_text(data))
    }

    /// What is on the clipboard.
    pub fn contents(&self) -> (contents: Option<Vec<u8>>)
        ensures
            crate::base64_bytes_or_nothing::held(contents) == self@,
    {
        match &self.copied {
            Some(copied) => Some(text::copy_bytes(copied)),
            None => None,
        }
    }
}

/// How the process ended, and what its window showed then.
#[derive(Debug, Clone, PartialEq, Eq)]
pub struct Exit {
    pub code: Option<i32>,
    pub signal: Option<i32>,
    pub window: Window,
}

/// What an `Exit` says.
pub struct ExitView {
    pub code: Option<i32>,
    pub signal: Option<i32>,
    pub window: WindowView,
}

impl View for Exit {
    type V = ExitView;

    open spec fn view(&self) -> ExitView {
        ExitView { code: self.code, signal: self.signal, window: self.window@ }
    }
}

/// What an end that may not have come yet says.
pub open spec fn ending(exit: Option<Exit>) -> Option<ExitView> {
    match exit {
        Some(exit) => Some(exit@),
        None => None,
    }
}

/// The state of a process that ended as `exit` says, or has not ended.
pub open spec fn state_after(exit: Option<ExitView>) -> StateView {
    match exit {
        None => StateView::Running,
        Some(exit) => StateView::Exited {
            code: exit.code,
            signal: exit.signal,
            window: exit.window,
        },
    }
}

impl Exit {
    /// Copies what is known of the end.
    pub fn copy(&self) -> (copy: Exit)
        ensures
            copy@ == self@,
    {
        Exit { code: self.code, signal: self.signal, window: self.window.copy() }
    }
}

/// Tells the state of a process that ended as `exit` says, or has not ended.
pub fn state_of(exit: &Option<Exit>) -> (state: State)
    ensures
        state@ == state_after(ending(*exit)),
{
    match exit {
        None => State::Running,
        Some(exit) => State::Exited {
            code: exit.code,
            signal: exit.signal,
            window: exit.window.copy(),
        },
    }
}

/// A signal that a stop sends.
#[derive(Debug, Clone, Copy, PartialEq, Eq)]
pub enum Signal {
    Terminate,
    Kill,
}

/// A signal and where it goes: a negative number is a whole process group.
#[derive(Debug, Clone, Copy, PartialEq, Eq)]
pub struct Shot {
    pub target: i32,
    pub signal: Signal,
}

/// One run of a process.
#[derive(Debug)]
struct Process {
    run: u64,
    size: WindowSize,
    clipboard: Clipboard,
    leader: i32,
    pid_released: bool,
    exit: Option<Exit>,
}

/// What is known of one run: which one it is, the size of its window, what it
/// copied, the process that leads its group, whether that one's number may already
/// belong to another, and how it ended, once it has.
pub struct ProcessView {
    pub run: u64,
    pub size: WindowSize,
    pub clipboard: Option<Seq<u8>>,
    pub leader: i32,
    pub pid_released: bool,
    pub exit: Option<ExitView>,
}

impl View for Process {
    type V = ProcessView;

    closed spec fn view(&self) -> ProcessView {
        ProcessView {
            run: self.run,
            size: self.size,
            clipboard: self.clipboard@,
            leader: self.leader,
            pid_released: self.pid_released,
            exit: ending(self.exit),
        }
    }
}

/// The session: how many runs it has had, and the latest of them.
#[derive(Debug)]
pub struct Session {
    runs: u64,
    process: Option<Process>,
}

/// What a `Session` holds.
pub struct SessionView {
    pub runs: u64,
    pub process: Option<ProcessView>,
}

impl View for Session {
    type V = SessionView;

    closed spec fn view(&self) -> SessionView {
        SessionView {
            runs: self.runs,
            process: match self.process {
                Some(process) => Some(process@),
                None => None,
            },
        }
    }
}

impl Default for Session {
    /// A session that has started nothing.
    fn default() -> (session: Session)
        ensures
            session@ == (SessionView { runs: 0, process: None }),
    {
        Session { runs: 0, process: None }
    }
}

/// What holds of every run.
pub open spec fn sound_process(process: ProcessView) -> bool {
    &&& drawable(process.size)
    &&& process.leader >= 0
    &&& process.exit matches Some(exit) ==> process.pid_released && drawable(exit.window.size)
}

/// What holds of every session: its process is the latest run, and a sound one.
pub open spec fn sound(session: SessionView) -> bool {
    session.process matches Some(process) ==> process.run == session.runs && sound_process(process)
}

/// Whether the session's process runs.
pub open spec fn runs(session: SessionView) -> bool {
    session.process matches Some(process) && process.exit is None
}

/// What the session answers when asked for its state.
pub open spec fn session_state(session: SessionView) -> StateView {
    match session.process {
        None => StateView::NotStarted,
        Some(process) => state_after(process.exit),
    }
}

/// What the session answers when asked for its window, `painted` being what the
/// emulator shows.
pub open spec fn session_window(session: SessionView, painted: Seq<u8>) -> Result<
    WindowView,
    RefusalView,
> {
    match session.process {
        None => Err(RefusalView::NothingStarted),
        Some(process) => match process.exit {
            None => Ok(WindowView { size: process.size, contents: painted }),
            Some(exit) => Ok(exit.window),
        },
    }
}

/// What the session answers when asked for its clipboard.
pub open spec fn session_clipboard(session: SessionView) -> Result<
    Option<Seq<u8>>,
    RefusalView,
> {
    match session.process {
        None => Err(RefusalView::NothingStarted),
        Some(process) => Ok(process.clipboard),
    }
}

/// Why a session lets nothing be done to its process, if it does not.
pub open spec fn not_live(session: SessionView) -> Option<RefusalView> {
    match session.process {
        None => Some(RefusalView::NothingStarted),
        Some(process) => if process.exit is Some {
            Some(RefusalView::AlreadyExited)
        } else {
            None
        },
    }
}

/// Why a terminal cannot be given a size, if it cannot.
pub open spec fn fit_refused(size: WindowSize) -> Option<RefusalView> {
    if drawable(size) {
        None
    } else {
        Some(RefusalView::UnusableWindowSize { least: least_window() })
    }
}

/// The session after the terminal of a run was to be given a size.
pub open spec fn after_fit(session: SessionView, run: u64, size: WindowSize) -> SessionView {
    match session.process {
        Some(process) if process.run == run && drawable(size) => SessionView {
            process: Some(ProcessView { size, ..process }),
            ..session
        },
        _ => session,
    }
}

/// The number of the run that follows `run`.
pub open spec fn next_run(run: u64) -> u64 {
    if run == u64::MAX {
        0
    } else {
        (run + 1) as u64
    }
}

/// The session after a process was launched.
pub open spec fn after_launch(session: SessionView, size: WindowSize, leader: i32) -> SessionView {
    if runs(session) {
        session
    } else {
        SessionView {
            runs: next_run(session.runs),
            process: Some(
                ProcessView {
                    run: next_run(session.runs),
                    size,
                    clipboard: None,
                    leader,
                    pid_released: false,
                    exit: None,
                },
            ),
        }
    }
}

/// The session after the leader of a run was waited for.
pub open spec fn after_release(session: SessionView, run: u64) -> SessionView {
    match session.process {
        Some(process) if process.run == run => SessionView {
            process: Some(ProcessView { pid_released: true, ..process }),
            ..session
        },
        _ => session,
    }
}

/// The code and the signal that a run ended with, where the system could tell.
pub open spec fn told(status: Option<(Option<i32>, Option<i32>)>) -> (Option<i32>, Option<i32>) {
    match status {
        Some(told) => told,
        None => (None, None),
    }
}

/// The session after the end of a run, `painted` being what the emulator shows.
pub open spec fn after_end(
    session: SessionView,
    run: u64,
    status: Option<(Option<i32>, Option<i32>)>,
    painted: Seq<u8>,
) -> SessionView {
    match session.process {
        Some(process) if process.run == run && process.exit is None => SessionView {
            process: Some(
                ProcessView {
                    pid_released: true,
                    exit: Some(
                        ExitView {
                            code: told(status).0,
                            signal: told(status).1,
                            window: WindowView { size: process.size, contents: painted },
                        },
                    ),
                    ..process
                },
            ),
            ..session
        },
        _ => session,
    }
}

/// The session after a run copied something that was read as `decoded`.
pub open spec fn after_taking(
    session: SessionView,
    run: u64,
    decoded: Result<Seq<u8>, Seq<char>>,
) -> SessionView {
    match session.process {
        Some(process) if process.run == run => SessionView {
            process: Some(
                ProcessView { clipboard: after_take(process.clipboard, decoded), ..process },
            ),
            ..session
        },
        _ => session,
    }
}

/// What a session says of something that a run copied and that was read as `decoded`.
pub open spec fn taking_said(
    session: SessionView,
    run: u64,
    decoded: Result<Seq<u8>, Seq<char>>,
) -> Result<(), Seq<char>> {
    match session.process {
        Some(process) if process.run == run => take_said(decoded),
        _ => Ok(()),
    }
}

/// The session after a run copied `data`.
pub open spec fn after_copying(session: SessionView, run: u64, data: Seq<u8>) -> SessionView {
    after_taking(session, run, base64_text::base64_decoded(data))
}

/// The signal that reaches everything that a run started, unless the number of its
/// leader may already belong to another process.
pub open spec fn shot_at(process: ProcessView, signal: Signal) -> Option<Shot> {
    if process.pid_released {
        None
    } else {
        Some(Shot { target: (-process.leader) as i32, signal })
    }
}

/// How a stop stands.
#[derive(Debug)]
pub enum Stop {
    /// The process has ended.
    Over(State),
    /// The signal is to be sent, where there is one, and then the end of the run
    /// waited for: so many milliseconds, or however long it takes.
    Waiting { run: u64, shot: Option<Shot>, patience_ms: Option<u64> },
}

/// What a `Stop` says.
pub enum StopView {
    Over(StateView),
    Waiting { run: u64, shot: Option<Shot>, patience_ms: Option<u64> },
}

impl View for Stop {
    type V = StopView;

    open spec fn view(&self) -> StopView {
        match self {
            Stop::Over(state) => StopView::Over(state@),
            Stop::Waiting { run, shot, patience_ms } => StopView::Waiting {
                run: *run,
                shot: *shot,
                patience_ms: *patience_ms,
            },
        }
    }
}

/// How a stop begins.
pub open spec fn stop_begun(session: SessionView, grace_ms: u64) -> Result<
    StopView,
    RefusalView,
> {
    match session.process {
        None => Err(RefusalView::NothingStarted),
        Some(process) => if process.exit is None {
            Ok(
                StopView::Waiting {
                    run: process.run,
                    shot: shot_at(process, Signal::Terminate),
                    patience_ms: Some(grace_ms),
                },
            )
        } else {
            Ok(StopView::Over(state_after(process.exit)))
        },
    }
}

/// How a stop goes on once the grace has run out.
pub open spec fn stop_forced(session: SessionView, run: u64) -> StopView {
    StopView::Waiting {
        run,
        shot: match session.process {
            Some(process) if process.run == run => shot_at(process, Signal::Kill),
            _ => None,
        },
        patience_ms: None,
    }
}

impl Process {
    fn running(&self) -> (running: bool)
        ensures
            running == (self@.exit is None),
    {
        self.exit.is_none()
    }

    fn signal_session(&self, signal: Signal) -> (shot: Option<Shot>)
        requires
            sound_process(self@),
        ensures
            shot == shot_at(self@, signal),
    {
        if self.pid_released {
            return None;
        }
        Some(Shot { target: -self.leader, signal })
    }
}

impl Session {
    #[verifier::type_invariant]
    spec fn is_sound(self) -> bool {
        sound(self@)
    }

    /// A session that has started nothing.
    pub fn new() -> (session: Session)
        ensures
            session@ == (SessionView { runs: 0, process: None }),
    {
        Session::default()
    }

    fn current(&self) -> (process: Result<&Process, Refusal>)
        ensures
            process is Ok <==> self@.process is Some,
            process matches Ok(process) ==> self@.process == Some(process@),
            process matches Err(refusal) ==> refusal@ == RefusalView::NothingStarted,
    {
        match &self.process {
            Some(process) => Ok(process),
            None => Err(Refusal::NothingStarted),
        }
    }

    /// Tells whether the process runs, or how it ended.
    pub fn state(&self) -> (state: State)
        ensures
            state@ == session_state(self@),
    {
        match &self.process {
            None => State::NotStarted,
            Some(process) => state_of(&process.exit),
        }
    }

    /// Tells whether the process runs.
    pub fn running(&self) -> (running: bool)
        ensures
            running == runs(self@),
    {
        match &self.process {
            None => false,
            Some(process) => process.running(),
        }
    }

    /// Begins the start of a process, unless one runs already.
    pub fn start(&self, spec: ProcessSpec) -> (outcome: Result<Opening, Refusal>)
        ensures
            outcome is Err <==> runs(self@),
            outcome matches Ok(opening) ==> opening@ == spec,
            outcome matches Err(refusal) ==> refusal@ == RefusalView::AlreadyRunning,
    {
        if self.running() {
            return Err(Refusal::AlreadyRunning);
        }
        Ok(Opening::of(spec))
    }

    /// Takes the process that was launched for the one that runs now, and tells the
    /// number of its run and its state. A process that runs already stays.
    pub fn started(&mut self, launched: Launched) -> (outcome: Result<(u64, State), Refusal>)
        ensures
            final(self)@ == after_launch(old(self)@, launched.spec_size(), launched.spec_leader()),
            outcome is Err <==> runs(old(self)@),
            outcome matches Ok((run, state)) ==> run == next_run(old(self)@.runs) && state@
                == StateView::Running,
            outcome matches Err(refusal) ==> refusal@ == RefusalView::AlreadyRunning,
    {
        if self.running() {
            return Err(Refusal::AlreadyRunning);
        }
        let run: u64 = if self.runs == u64::MAX {
            0
        } else {
            self.runs + 1
        };
        let process = Process {
            run,
            size: launched.size(),
            clipboard: Clipboard::new(),
            leader: launched.leader(),
            pid_released: false,
            exit: None,
        };
        let state = state_of(&process.exit);
        *self = Session { runs: run, process: Some(process) };
        Ok((run, state))
    }

    /// Gives the window: what the emulator shows while the process runs, and what it
    /// showed at the end after that.
    pub fn window(&self, painted: Vec<u8>) -> (outcome: Result<Window, Refusal>)
        ensures
            outcome matches Ok(window) ==> session_window(self@, painted@) == Result::<
                WindowView,
                RefusalView,
            >::Ok(window@),
            outcome matches Err(refusal) ==> session_window(self@, painted@) == Result::<
                WindowView,
                RefusalView,
            >::Err(refusal@),
    {
        match self.current() {
            Err(refusal) => Err(refusal),
            Ok(process) => match &process.exit {
                None => Ok(Window { size: process.size, contents: painted }),
                Some(exit) => Ok(exit.window.copy()),
            },
        }
    }

    /// Gives what the process last put on the clipboard.
    pub fn clipboard(&self) -> (outcome: Result<Option<Vec<u8>>, Refusal>)
        ensures
            outcome matches Ok(data) ==> session_clipboard(self@) == Result::<
                Option<Seq<u8>>,
                RefusalView,
            >::Ok(crate::base64_bytes_or_nothing::held(data)),
            outcome matches Err(refusal) ==> session_clipboard(self@) == Result::<
                Option<Seq<u8>>,
                RefusalView,
            >::Err(refusal@),
    {
        match self.current() {
            Err(refusal) => Err(refusal),
            Ok(process) => Ok(process.clipboard.contents()),
        }
    }

    /// Gives the run that is under way, for something to be done to it.
    fn live(&self) -> (outcome: Result<u64, Refusal>)
        ensures
            outcome is Ok <==> not_live(self@) is None,
            outcome matches Ok(run) ==> run == self@.process->0.run,
            outcome matches Err(refusal) ==> not_live(self@) == Some(refusal@),
    {
        match self.current() {
            Err(refusal) => Err(refusal),
            Ok(process) => if process.running() {
                Ok(process.run)
            } else {
                Err(Refusal::AlreadyExited)
            },
        }
    }

    /// Gives what is to be typed into the terminal, unless there is none to type into.
    pub fn input(&self, data: Vec<u8>) -> (outcome: Result<Vec<u8>, Refusal>)
        ensures
            outcome is Ok <==> not_live(self@) is None,
            outcome matches Ok(typed) ==> typed == data,
            outcome matches Err(refusal) ==> not_live(self@) == Some(refusal@),
    {
        match self.live() {
            Ok(_) => Ok(data),
            Err(refusal) => Err(refusal),
        }
    }

    /// Gives the run whose terminal is to be given this size, once it is free to be, unless
    /// no process runs.
    pub fn resize(&self, size: WindowSize) -> (outcome: Result<(u64, WindowSize), Refusal>)
        ensures
            outcome is Ok <==> not_live(self@) is None,
            outcome matches Ok((run, given)) ==> run == self@.process->0.run && given == size,
            outcome matches Err(refusal) ==> not_live(self@) == Some(refusal@),
    {
        match self.live() {
            Ok(run) => Ok((run, size)),
            Err(refusal) => Err(refusal),
        }
    }

    /// Gives the window of a run another size, for the terminal to follow, unless it could
    /// not be drawn.
    pub fn fitted(&mut self, run: u64, size: WindowSize) -> (outcome: Result<(), Refusal>)
        ensures
            final(self)@ == after_fit(old(self)@, run, size),
            outcome is Ok <==> fit_refused(size) is None,
            outcome matches Err(refusal) ==> fit_refused(size) == Some(refusal@),
    {
        proof {
            use_type_invariant(&*self);
        }
        match fit(size) {
            Err(refusal) => Err(refusal),
            Ok(_) => {
                let mut process: Option<Process> = None;
                std::mem::swap(&mut process, &mut self.process);
                self.process = match process {
                    Some(process) => if process.run == run {
                        Some(Process { size, ..process })
                    } else {
                        Some(process)
                    },
                    None => None,
                };
                Ok(())
            },
        }
    }

    /// Begins to stop the process, gently: everything that it started is asked to end,
    /// and given its grace.
    pub fn stop(&self, grace_ms: u64) -> (outcome: Result<Stop, Refusal>)
        ensures
            outcome matches Ok(stop) ==> stop_begun(self@, grace_ms) == Result::<
                StopView,
                RefusalView,
            >::Ok(stop@),
            outcome matches Err(refusal) ==> stop_begun(self@, grace_ms) == Result::<
                StopView,
                RefusalView,
            >::Err(refusal@),
    {
        proof {
            use_type_invariant(self);
        }
        match self.current() {
            Err(refusal) => Err(refusal),
            Ok(process) => if process.running() {
                Ok(
                    Stop::Waiting {
                        run: process.run,
                        shot: process.signal_session(Signal::Terminate),
                        patience_ms: Some(grace_ms),
                    },
                )
            } else {
                Ok(Stop::Over(state_of(&process.exit)))
            },
        }
    }

    /// Goes on with a stop whose grace has run out: what is left of the run is killed.
    pub fn grace_over(&self, run: u64) -> (stop: Stop)
        ensures
            stop@ == stop_forced(self@, run),
    {
        proof {
            use_type_invariant(self);
        }
        let shot = match &self.process {
            Some(process) => if process.run == run {
                process.signal_session(Signal::Kill)
            } else {
                None
            },
            None => None,
        };
        Stop::Waiting { run, shot, patience_ms: None }
    }

    /// Notes that the leader of a run was waited for: its number may belong to another
    /// process from now on.
    pub fn released(&mut self, run: u64)
        ensures
            final(self)@ == after_release(old(self)@, run),
    {
        proof {
            use_type_invariant(&*self);
        }
        let mut process: Option<Process> = None;
        std::mem::swap(&mut process, &mut self.process);
        self.process = match process {
            Some(process) => if process.run == run {
                Some(Process { pid_released: true, ..process })
            } else {
                Some(process)
            },
            None => None,
        };
    }

    /// Notes how a run ended, and keeps what the emulator shows at its end. Tells the
    /// end of a run that had not ended before.
    pub fn reaped(
        &mut self,
        run: u64,
        status: Option<(Option<i32>, Option<i32>)>,
        painted: Vec<u8>,
    ) -> (exit: Option<Exit>)
        ensures
            final(self)@ == after_end(old(self)@, run, status, painted@),
            exit is Some <==> (runs(old(self)@) && old(self)@.process->0.run == run),
            exit matches Some(exit) ==> final(self)@.process->0.exit == Some(exit@),
    {
        proof {
            use_type_invariant(&*self);
        }
        let (code, signal) = match status {
            Some(told) => told,
            None => (None, None),
        };
        let mut before: Option<Process> = None;
        std::mem::swap(&mut before, &mut self.process);
        match before {
            Some(process) => if process.run == run && process.running() {
                let window = Window { size: process.size, contents: painted };
                let exit = Exit { code, signal, window };
                let told = exit.copy();
                self.process = Some(Process { pid_released: true, exit: Some(exit), ..process });
                Some(told)
            } else {
                self.process = Some(process);
                None
            },
            None => None,
        }
    }

    /// Takes what a run copied onto its clipboard, as it was read, and complains of what could
    /// not be.
    pub fn take(&mut self, run: u64, decoded: Result<Vec<u8>, String>) -> (taken: Result<
        (),
        String,
    >)
        ensures
            final(self)@ == after_taking(old(self)@, run, base64_text::outcome(decoded)),
            take_view(taken) == taking_said(old(self)@, run, base64_text::outcome(decoded)),
    {
        proof {
            use_type_invariant(&*self);
        }
        let mut process: Option<Process> = None;
        std::mem::swap(&mut process, &mut self.process);
        match process {
            Some(process) => if process.run == run {
                let mut clipboard = process.clipboard;
                let taken = clipboard.take(decoded);
                self.process = Some(Process { clipboard, ..process });
                taken
            } else {
                self.process = Some(process);
                Ok(())
            },
            None => Ok(()),
        }
    }

    /// Takes what a run copied onto its clipboard, and complains of what cannot be read.
    pub fn copied(&mut self, run: u64, data: &[u8]) -> (taken: Result<(), String>)
        ensures
            final(self)@ == after_copying(old(self)@, run, data@),
            take_view(taken) == taking_said(
                old(self)@,
                run,
                base64_text::base64_decoded(data@),
            ),
    {
        self.take(run, base64_text::read_text(data))
    }
}

} // verus!
