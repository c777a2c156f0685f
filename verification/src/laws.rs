//! What holds of a session over any course of events, and between a client and the
//! server that it asks.
use vstd::prelude::*;

use crate::base64_text;
use crate::client;
use crate::client::ErrorView;
use crate::launch;
use crate::protocol::{
    IncomingView, ProcessSpecView, RefusalView, Request, RequestView, Response, ResponseView,
    StateView, WindowSize, WindowView,
};
use crate::server;
use crate::server::{StepView, TurnView};
use crate::session;
use crate::session::{ExitView, SessionView, Signal, StopView};
use crate::wire;

verus! {

/// Something that happens to a session.
pub enum Happening {
    /// The terminal of a run was to be given a size.
    Fitted { run: u64, size: WindowSize },
    /// A process was launched.
    Launched { size: WindowSize, leader: i32 },
    /// The leader of a run was waited for.
    Released { run: u64 },
    /// A run ended, its emulator showing `painted`.
    Ended { run: u64, status: Option<(Option<i32>, Option<i32>)>, painted: Seq<u8> },
    /// A run copied something.
    Copied { run: u64, data: Seq<u8> },
}

/// The session after something happened to it.
pub open spec fn after(session: SessionView, happening: Happening) -> SessionView {
    match happening {
        Happening::Fitted { run, size } => session::after_fit(session, run, size),
        Happening::Launched { size, leader } => session::after_launch(session, size, leader),
        Happening::Released { run } => session::after_release(session, run),
        Happening::Ended { run, status, painted } => session::after_end(
            session,
            run,
            status,
            painted,
        ),
        Happening::Copied { run, data } => session::after_copying(session, run, data),
    }
}

/// The session after all these things happened to it, in order.
pub open spec fn after_all(session: SessionView, happenings: Seq<Happening>) -> SessionView
    decreases happenings.len(),
{
    if happenings.len() == 0 {
        session
    } else {
        after(after_all(session, happenings.drop_last()), happenings.last())
    }
}

/// Whether something can happen: a process is launched in no window but one that can
/// be drawn.
pub open spec fn possible(happening: Happening) -> bool {
    happening matches Happening::Launched { size, leader } ==> session::drawable(size) && leader
        >= 0
}

/// Whether none of these things is a launch.
pub open spec fn without_launch(happenings: Seq<Happening>) -> bool {
    forall|i: int| 0 <= i < happenings.len() ==> !((#[trigger] happenings[i]) is Launched)
}

/// Whether something is the end of a run.
pub open spec fn ends(happening: Happening, run: u64) -> bool {
    happening matches Happening::Ended { run: ended, .. } && ended == run
}

/// Whether none of these things is the end of a run.
pub open spec fn without_end(happenings: Seq<Happening>, run: u64) -> bool {
    forall|i: int| 0 <= i < happenings.len() ==> !ends(#[trigger] happenings[i], run)
}

/// What holds of all things that happened holds of all but the last of them, and of the last.
proof fn lemma_earlier(happenings: Seq<Happening>, holds: spec_fn(Happening) -> bool)
    requires
        happenings.len() > 0,
        forall|i: int| 0 <= i < happenings.len() ==> holds(#[trigger] happenings[i]),
    ensures
        holds(happenings.last()),
        forall|i: int|
            0 <= i < happenings.drop_last().len() ==> holds(#[trigger] happenings.drop_last()[i]),
{
    assert(holds(happenings[happenings.len() - 1]));
    assert forall|i: int| 0 <= i < happenings.drop_last().len() implies holds(
        #[trigger] happenings.drop_last()[i],
    ) by {
        assert(happenings.drop_last()[i] == happenings[i]);
    }
}

/// A session that has started nothing.
pub open spec fn fresh() -> SessionView {
    SessionView { runs: 0, process: None }
}

/// Whatever happens to a sound session leaves it sound: its process is the latest run, in a
/// window that can be drawn, and one that has ended is no longer known by its number.
pub proof fn law_a_session_stays_sound(session: SessionView, happenings: Seq<Happening>)
    requires
        session::sound(session),
        forall|i: int| 0 <= i < happenings.len() ==> possible(#[trigger] happenings[i]),
    ensures
        session::sound(after_all(session, happenings)),
    decreases happenings.len(),
{
    if happenings.len() > 0 {
        lemma_earlier(happenings, |h: Happening| possible(h));
        law_a_session_stays_sound(session, happenings.drop_last());
    }
}

/// A session that has had a process always has one from then on, running or ended: it is never
/// again one that has started nothing.
pub proof fn law_what_was_started_stays_started(session: SessionView, happenings: Seq<Happening>)
    requires
        session.process is Some,
    ensures
        after_all(session, happenings).process is Some,
        session::session_state(after_all(session, happenings)) != StateView::NotStarted,
    decreases happenings.len(),
{
    if happenings.len() > 0 {
        law_what_was_started_stays_started(session, happenings.drop_last());
    }
}

/// Nothing runs until something is started: without a launch a fresh session stays as it is,
/// and with one, whatever else happens, it is no longer one that has started nothing.
pub proof fn law_nothing_runs_until_something_is_started(happenings: Seq<Happening>)
    ensures
        session::session_state(after_all(fresh(), happenings)) == StateView::NotStarted
            <==> without_launch(happenings),
        without_launch(happenings) ==> after_all(fresh(), happenings) == fresh(),
    decreases happenings.len(),
{
    if happenings.len() > 0 {
        let earlier = happenings.drop_last();
        law_nothing_runs_until_something_is_started(earlier);
        if without_launch(happenings) {
            lemma_earlier(happenings, |h: Happening| !(h is Launched));
        } else if without_launch(earlier) {
            assert(happenings.last() is Launched) by {
                let i = choose|i: int|
                    0 <= i < happenings.len() && (#[trigger] happenings[i]) is Launched;
                if i < happenings.len() - 1 {
                    assert(earlier[i] == happenings[i]);
                }
            }
        }
    }
}

/// Before a process exists every operation on it is refused as such.
pub proof fn law_every_operation_says_so_before_a_process_exists(
    session: SessionView,
    data: Seq<u8>,
    size: WindowSize,
    grace_ms: u64,
    painted: Seq<u8>,
)
    requires
        session.process is None,
    ensures
        ({
            let says_so = server::refused(RefusalView::NothingStarted);
            &&& server::step(session, RequestView::Window, painted) == says_so
            &&& server::step(session, RequestView::Input { data }, painted) == says_so
            &&& server::step(session, RequestView::Resize { size }, painted) == says_so
            &&& server::step(session, RequestView::Stop { grace_ms }, painted) == says_so
            &&& server::step(session, RequestView::Clipboard, painted) == says_so
        }),
        server::step(session, RequestView::State, painted) == StepView::Answer(
            ResponseView::State(StateView::NotStarted),
        ),
{
}

/// What a start comes to, from what came of each of its steps: the session after it, and
/// the state of the process or why there is none.
pub open spec fn start(
    session: SessionView,
    spec: ProcessSpecView,
    opened: Result<(), Seq<Seq<char>>>,
    sized: Result<(), Seq<Seq<char>>>,
    spawned: Result<Option<u32>, Seq<Seq<char>>>,
) -> (SessionView, Result<StateView, RefusalView>) {
    if session::runs(session) {
        (session, Err(RefusalView::AlreadyRunning))
    } else {
        match (
            launch::open_refused(spec.size, opened),
            launch::size_refused(sized),
            launch::spawned_leader(spec.command, spawned),
        ) {
            (Some(refusal), _, _) => (session, Err(refusal)),
            (None, Some(refusal), _) => (session, Err(refusal)),
            (None, None, Err(refusal)) => (session, Err(refusal)),
            (None, None, Ok(leader)) => (
                session::after_launch(session, spec.size, leader),
                Ok(StateView::Running),
            ),
        }
    }
}

/// A start that is refused, for whatever reason, leaves the session as it was: nothing where
/// there was nothing, and the previous run where there was one.
pub proof fn law_a_refused_start_leaves_the_session_as_it_was(
    session: SessionView,
    spec: ProcessSpecView,
    opened: Result<(), Seq<Seq<char>>>,
    sized: Result<(), Seq<Seq<char>>>,
    spawned: Result<Option<u32>, Seq<Seq<char>>>,
)
    ensures
        start(session, spec, opened, sized, spawned).1 is Err ==> start(
            session,
            spec,
            opened,
            sized,
            spawned,
        ).0 == session,
{
}

/// A start succeeds exactly where no process runs, the window can be drawn, and opening and
/// sizing the terminal and spawning the process all went well.
pub proof fn law_a_start_succeeds_where_nothing_stands_in_its_way(
    session: SessionView,
    spec: ProcessSpecView,
    opened: Result<(), Seq<Seq<char>>>,
    sized: Result<(), Seq<Seq<char>>>,
    spawned: Result<Option<u32>, Seq<Seq<char>>>,
)
    ensures
        start(session, spec, opened, sized, spawned).1 is Ok <==> {
            &&& !session::runs(session)
            &&& session::drawable(spec.size)
            &&& opened is Ok
            &&& sized is Ok
            &&& spawned matches Ok(Some(pid)) && pid <= i32::MAX
        },
{
}

/// A process that was started runs, in a window of the size that was asked for, with an empty
/// clipboard, under a number of its own.
pub proof fn law_a_started_process_begins_anew(
    session: SessionView,
    spec: ProcessSpecView,
    opened: Result<(), Seq<Seq<char>>>,
    sized: Result<(), Seq<Seq<char>>>,
    spawned: Result<Option<u32>, Seq<Seq<char>>>,
    painted: Seq<u8>,
)
    requires
        session::sound(session),
        start(session, spec, opened, sized, spawned).1 is Ok,
    ensures
        ({
            let after = start(session, spec, opened, sized, spawned).0;
            &&& session::sound(after)
            &&& session::session_state(after) == StateView::Running
            &&& session::session_window(after, painted) == Result::<WindowView, RefusalView>::Ok(
                WindowView { size: spec.size, contents: painted },
            )
            &&& session::session_clipboard(after) == Result::<Option<Seq<u8>>, RefusalView>::Ok(
                None,
            )
            &&& after.runs != session.runs
        }),
{
}

/// While a process runs no other is started, neither by a request nor by a launch that comes
/// too late.
pub proof fn law_a_second_process_is_refused_while_the_first_runs(
    session: SessionView,
    spec: ProcessSpecView,
    size: WindowSize,
    leader: i32,
    painted: Seq<u8>,
)
    requires
        session::runs(session),
    ensures
        server::step(session, RequestView::Start(spec), painted) == server::refused(
            RefusalView::AlreadyRunning,
        ),
        session::after_launch(session, size, leader) == session,
{
}

/// Once the previous process has ended another can be started.
pub proof fn law_a_process_can_be_started_once_the_previous_one_ended(
    session: SessionView,
    spec: ProcessSpecView,
    painted: Seq<u8>,
)
    requires
        !session::runs(session),
    ensures
        server::step(session, RequestView::Start(spec), painted) == StepView::Launch(spec),
{
}

/// A process goes on running until its own end: nothing else that happens ends it, and
/// nothing replaces it.
pub proof fn law_a_process_runs_until_its_end(session: SessionView, happenings: Seq<Happening>)
    requires
        session::runs(session),
        without_end(happenings, session.process->0.run),
    ensures
        session::runs(after_all(session, happenings)),
        after_all(session, happenings).process->0.run == session.process->0.run,
        after_all(session, happenings).process->0.leader == session.process->0.leader,
    decreases happenings.len(),
{
    if happenings.len() > 0 {
        lemma_earlier(happenings, |h: Happening| !ends(h, session.process->0.run));
        let earlier = happenings.drop_last();
        law_a_process_runs_until_its_end(session, earlier);
    }
}

/// The end of the run that a session has is what its state tells from then on, with the window
/// as it was then.
pub proof fn law_the_end_of_a_run_is_told(
    session: SessionView,
    status: Option<(Option<i32>, Option<i32>)>,
    painted: Seq<u8>,
)
    requires
        session::runs(session),
    ensures
        ({
            let process = session.process->0;
            let after = session::after_end(session, process.run, status, painted);
            session::session_state(after) == (StateView::Exited {
                code: session::told(status).0,
                signal: session::told(status).1,
                window: WindowView { size: process.size, contents: painted },
            })
        }),
{
}

/// Once the process has ended there is only one window: until another is launched, whatever
/// happens, its state stays the same, and its window is the last one that it had.
pub proof fn law_once_the_process_has_ended_there_is_only_one_window(
    session: SessionView,
    exit: ExitView,
    happenings: Seq<Happening>,
    painted: Seq<u8>,
)
    requires
        session.process matches Some(process) && process.exit == Some(exit),
        without_launch(happenings),
    ensures
        session::session_state(after_all(session, happenings)) == session::session_state(session),
        session::session_window(after_all(session, happenings), painted) == Result::<
            WindowView,
            RefusalView,
        >::Ok(exit.window),
        session::session_state(session) == (StateView::Exited {
            code: exit.code,
            signal: exit.signal,
            window: exit.window,
        }),
        after_all(session, happenings).process matches Some(process) && process.exit == Some(exit),
    decreases happenings.len(),
{
    if happenings.len() > 0 {
        lemma_earlier(happenings, |h: Happening| !(h is Launched));
        let earlier = happenings.drop_last();
        law_once_the_process_has_ended_there_is_only_one_window(session, exit, earlier, painted);
    }
}

/// An ended process takes no input and no resize.
pub proof fn law_an_ended_process_takes_no_input_and_no_resize(
    session: SessionView,
    data: Seq<u8>,
    size: WindowSize,
    painted: Seq<u8>,
)
    requires
        session.process matches Some(process) && process.exit is Some,
    ensures
        server::step(session, RequestView::Input { data }, painted) == server::refused(
            RefusalView::AlreadyExited,
        ),
        server::step(session, RequestView::Resize { size }, painted) == server::refused(
            RefusalView::AlreadyExited,
        ),
{
}

/// While the process runs, input is typed exactly as it was given.
pub proof fn law_input_is_typed_as_it_is(session: SessionView, data: Seq<u8>, painted: Seq<u8>)
    requires
        session::runs(session),
    ensures
        server::step(session, RequestView::Input { data }, painted) == (StepView::Type { data }),
{
}

/// A window too small to draw is refused, at the start and at a resize, and changes nothing;
/// any other size is taken, and is the window's from then on.
pub proof fn law_the_smallest_drawable_window_is_the_limit(
    session: SessionView,
    size: WindowSize,
    painted: Seq<u8>,
)
    requires
        session::runs(session),
    ensures
        ({
            let run = session.process->0.run;
            let too_small = RefusalView::UnusableWindowSize { least: session::least_window() };
            let after = session::after_fit(session, run, size);
            &&& server::step(session, RequestView::Resize { size }, painted) == (StepView::Resize {
                run,
                size,
            })
            &&& session::least_window().rows == 2 && session::least_window().cols == 2
            &&& if size.rows < 2 || size.cols < 2 {
                &&& session::fit_refused(size) == Some(too_small)
                &&& launch::open_refused(size, Ok(())) == Some(too_small)
                &&& after == session
            } else {
                &&& session::fit_refused(size) is None
                &&& launch::open_refused(size, Ok(())) is None
                &&& session::session_window(after, painted) == Result::<WindowView, RefusalView>::Ok(
                    WindowView { size, contents: painted },
                )
            }
        }),
{
}

/// The size that a run's window is left with by what happens: the last that it was given and
/// that can be drawn.
pub open spec fn last_size(
    first: WindowSize,
    run: u64,
    happenings: Seq<Happening>,
) -> WindowSize
    decreases happenings.len(),
{
    if happenings.len() == 0 {
        first
    } else {
        match happenings.last() {
            Happening::Fitted { run: of, size } if of == run && session::drawable(size) => size,
            _ => last_size(first, run, happenings.drop_last()),
        }
    }
}

/// While the process runs its window has the size that was asked for last, sizes that were
/// refused not counted.
pub proof fn law_the_window_has_the_last_size_asked_for(
    session: SessionView,
    happenings: Seq<Happening>,
)
    requires
        session::runs(session),
        without_end(happenings, session.process->0.run),
    ensures
        after_all(session, happenings).process->0.size == last_size(
            session.process->0.size,
            session.process->0.run,
            happenings,
        ),
    decreases happenings.len(),
{
    law_a_process_runs_until_its_end(session, happenings);
    if happenings.len() > 0 {
        lemma_earlier(happenings, |h: Happening| !ends(h, session.process->0.run));
        let earlier = happenings.drop_last();
        law_a_process_runs_until_its_end(session, earlier);
        law_the_window_has_the_last_size_asked_for(session, earlier);
    }
}

/// What a run's clipboard is left with by what happens: what was copied last that could be
/// read, or what was there before.
pub open spec fn last_copy(
    before: Option<Seq<u8>>,
    run: u64,
    happenings: Seq<Happening>,
) -> Option<Seq<u8>>
    decreases happenings.len(),
{
    if happenings.len() == 0 {
        before
    } else {
        let earlier = last_copy(before, run, happenings.drop_last());
        match happenings.last() {
            Happening::Copied { run: by, data } => if by == run {
                session::after_copy(earlier, data)
            } else {
                earlier
            },
            _ => earlier,
        }
    }
}

/// The clipboard holds what the process copied last that could be read, whether it still runs
/// or not, and whatever else happened, until another is launched.
pub proof fn law_the_clipboard_holds_the_last_copy(
    session: SessionView,
    happenings: Seq<Happening>,
)
    requires
        session.process is Some,
        without_launch(happenings),
    ensures
        session::session_clipboard(after_all(session, happenings)) == Result::<
            Option<Seq<u8>>,
            RefusalView,
        >::Ok(last_copy(session.process->0.clipboard, session.process->0.run, happenings)),
        after_all(session, happenings).process is Some,
        after_all(session, happenings).process->0.run == session.process->0.run,
    decreases happenings.len(),
{
    if happenings.len() > 0 {
        lemma_earlier(happenings, |h: Happening| !(h is Launched));
        let earlier = happenings.drop_last();
        law_the_clipboard_holds_the_last_copy(session, earlier);
    }
}

/// What is copied as readable text is on the clipboard byte for byte and takes the place of
/// what was there; what cannot be read leaves it as it was. Copying nothing is copying no bytes,
/// and a text that lacks its padding cannot be read.
pub proof fn law_a_copy_replaces_the_earlier_one_where_it_can_be_read(
    before: Option<Seq<u8>>,
    data: Seq<u8>,
    copied: Seq<u8>,
)
    ensures
        base64_text::carries(data, copied) ==> session::after_copy(before, data) == Some(copied),
        base64_text::carries_nothing(data) ==> session::after_copy(before, data) == before,
        data.len() == 0 ==> session::after_copy(before, data) == Some(Seq::<u8>::empty()),
        data.len() % 4 != 0 ==> session::after_copy(before, data) == before,
{
    base64_text::law_a_text_is_read_as_what_it_carries(data, copied);
    if data.len() == 0 {
        assert(data =~= Seq::empty());
        base64_text::law_an_empty_text_is_read_as_no_bytes();
    }
    if data.len() % 4 != 0 {
        base64_text::law_a_text_without_its_padding_is_refused(data);
    }
}

/// What a run other than the session's own still does reaches neither the clipboard nor the
/// window nor the state of the session's own, and no signal is sent for it.
pub proof fn law_another_run_does_not_reach_the_session(
    session: SessionView,
    run: u64,
    size: WindowSize,
    data: Seq<u8>,
    status: Option<(Option<i32>, Option<i32>)>,
    painted: Seq<u8>,
)
    requires
        session.process matches Some(process) ==> process.run != run,
    ensures
        session::after_copying(session, run, data) == session,
        session::after_fit(session, run, size) == session,
        session::after_release(session, run) == session,
        session::after_end(session, run, status, painted) == session,
        session::stop_forced(session, run) == (StopView::Waiting {
            run,
            shot: None,
            patience_ms: None,
        }),
{
}

/// A run that was launched is another one than the run before it.
pub proof fn law_the_next_run_is_another_one(
    session: SessionView,
    size: WindowSize,
    leader: i32,
)
    requires
        session::sound(session),
        session.process matches Some(process) && process.exit is Some,
    ensures
        session::after_launch(session, size, leader).process->0.run != session.process->0.run,
{
}

/// A stop asks first, with the whole grace, and kills only once the grace has run out. Both
/// times it means everything that the process started.
pub proof fn law_a_stop_is_gentle_first(session: SessionView, grace_ms: u64)
    requires
        session::sound(session),
        session::runs(session),
        !session.process->0.pid_released,
    ensures
        ({
            let process = session.process->0;
            &&& session::stop_begun(session, grace_ms) == Result::<StopView, RefusalView>::Ok(
                StopView::Waiting {
                    run: process.run,
                    shot: Some(
                        session::Shot {
                            target: (-process.leader) as i32,
                            signal: Signal::Terminate,
                        },
                    ),
                    patience_ms: Some(grace_ms),
                },
            )
            &&& session::stop_forced(session, process.run) == (StopView::Waiting {
                run: process.run,
                shot: Some(
                    session::Shot { target: (-process.leader) as i32, signal: Signal::Kill },
                ),
                patience_ms: None,
            })
            &&& -process.leader == (-process.leader) as i32
        }),
{
}

/// No signal is sent once the number of the process may belong to another: neither by a stop
/// that begins then nor by one that was begun before.
pub proof fn law_no_signal_goes_astray(session: SessionView, grace_ms: u64, run: u64)
    requires
        session.process matches Some(process) && process.pid_released,
    ensures
        session::stop_begun(session, grace_ms) matches Ok(StopView::Waiting { shot, .. }) ==> shot
            is None,
        session::stop_forced(session, run) matches StopView::Waiting { shot, .. } && shot is None,
{
}

/// A number that may belong to another process stays out of use, whatever happens, until another
/// process is launched.
pub proof fn law_a_released_number_stays_released(
    session: SessionView,
    happenings: Seq<Happening>,
)
    requires
        session.process matches Some(process) && process.pid_released,
        without_launch(happenings),
    ensures
        after_all(session, happenings).process matches Some(process) && process.pid_released,
    decreases happenings.len(),
{
    if happenings.len() > 0 {
        lemma_earlier(happenings, |h: Happening| !(h is Launched));
        let earlier = happenings.drop_last();
        law_a_released_number_stays_released(session, earlier);
    }
}

/// Stopping an ended process reports how it ended, and sends nothing.
pub proof fn law_stopping_an_ended_process_reports_how_it_ended(
    session: SessionView,
    grace_ms: u64,
    painted: Seq<u8>,
)
    requires
        session.process matches Some(process) && process.exit is Some,
    ensures
        server::step(session, RequestView::Stop { grace_ms }, painted) == StepView::Answer(
            ResponseView::State(session::session_state(session)),
        ),
{
}

/// A stop that waited for the end of its run is answered with that end, as the session tells it.
pub proof fn law_a_stop_is_answered_with_the_end(
    session: SessionView,
    status: Option<(Option<i32>, Option<i32>)>,
    painted: Seq<u8>,
)
    requires
        session::runs(session),
    ensures
        ({
            let after = session::after_end(session, session.process->0.run, status, painted);
            &&& server::stop_answer(after.process->0.exit) == ResponseView::State(
                session::session_state(after),
            )
            &&& session::session_state(after) is Exited
        }),
{
}

/// Whether a response answers a request: with what it asks for, or with a refusal.
pub open spec fn fits(request: RequestView, response: ResponseView) -> bool {
    response is Refused || match request {
        RequestView::Start(_) => response is State,
        RequestView::Window => response is Window,
        RequestView::Input { .. } => response is Done,
        RequestView::Resize { .. } => response is Done,
        RequestView::Stop { .. } => response is State,
        RequestView::State => response is State,
        RequestView::Clipboard => response is Clipboard,
    }
}

/// The server answers what it was asked: at once, or once what had to be done first was done or
/// failed.
pub proof fn law_the_server_answers_what_it_was_asked(
    session: SessionView,
    request: RequestView,
    painted: Seq<u8>,
    done: Result<(), Seq<Seq<char>>>,
    launched: Result<StateView, RefusalView>,
    exit: Option<ExitView>,
)
    ensures
        match server::step(session, request, painted) {
            StepView::Answer(response) => fits(request, response),
            StepView::Launch(_) => fits(request, server::start_answer(launched)),
            StepView::Type { .. } => fits(request, server::input_answer(done)),
            StepView::Resize { size, .. } => match session::fit_refused(size) {
                Some(refusal) => fits(request, ResponseView::Refused(refusal)),
                None => fits(request, server::resize_answer(done)),
            },
            StepView::Stop { .. } => fits(request, server::stop_answer(exit)),
        },
{
}

/// What a client makes of a response to its request: the value that it asked for, or why there
/// is none.
pub open spec fn complaint(request: RequestView, response: Response) -> Option<ErrorView> {
    let incoming = IncomingView::Message(response);
    match request {
        RequestView::Start(_) => client::reading(
            "start"@,
            incoming,
            |r: ResponseView| client::state_in(r),
        ).err(),
        RequestView::Window => client::reading(
            "window"@,
            incoming,
            |r: ResponseView| client::window_in(r),
        ).err(),
        RequestView::Input { .. } => client::reading(
            "input"@,
            incoming,
            |r: ResponseView| client::done_in(r),
        ).err(),
        RequestView::Resize { .. } => client::reading(
            "resize"@,
            incoming,
            |r: ResponseView| client::done_in(r),
        ).err(),
        RequestView::Stop { .. } => client::reading(
            "stop"@,
            incoming,
            |r: ResponseView| client::state_in(r),
        ).err(),
        RequestView::State => client::reading(
            "state"@,
            incoming,
            |r: ResponseView| client::state_in(r),
        ).err(),
        RequestView::Clipboard => client::reading(
            "clipboard"@,
            incoming,
            |r: ResponseView| client::clipboard_in(r),
        ).err(),
    }
}

/// A client complains of a mismatch exactly where a response does not fit its request: a response
/// that fits is taken, and a refusal arrives as itself.
pub proof fn law_a_client_understands_what_fits(request: RequestView, response: Response)
    ensures
        fits(request, response@) <==> !(complaint(request, response) matches Some(
            ErrorView::Mismatched { .. },
        )),
        response@ matches ResponseView::Refused(refusal) ==> complaint(request, response) == Some(
            ErrorView::Refused(refusal),
        ),
        fits(request, response@) && !(response@ is Refused) ==> complaint(request, response)
            is None,
{
}

/// A line that is no request is answered with a refusal that says so, and only the end of the
/// source closes the connection.
pub proof fn law_an_unreadable_request_does_not_drop_the_connection(
    incoming: IncomingView<Request>,
)
    ensures
        incoming matches IncomingView::Unreadable(message) ==> server::turn(incoming)
            == TurnView::Answer(ResponseView::Refused(RefusalView::Unreadable { message })),
        server::turn(incoming) is Close <==> incoming is Ended,
{
}

/// Every line that comes in on a connection is acted on or answered, readable or not, and the
/// connection is closed where its source ends and nowhere before.
pub proof fn law_a_conversation_lasts_as_long_as_its_source(
    stream: Seq<char>,
    decode: spec_fn(Seq<char>) -> Result<Request, Seq<char>>,
)
    ensures
        wire::read(stream, decode).len() > 0,
        server::turn(wire::read(stream, decode).last()) is Close,
        forall|i: int|
            0 <= i < wire::read(stream, decode).len() - 1 ==> !(server::turn(
                #[trigger] wire::read(stream, decode)[i],
            ) is Close),
    decreases stream.len(),
{
    if stream.len() > 0 {
        wire::lemma_line_len(stream);
        let rest = stream.skip(wire::line_len(stream) as int);
        law_a_conversation_lasts_as_long_as_its_source(rest, decode);
        let all = wire::read(stream, decode);
        let later = wire::read(rest, decode);
        assert(all.drop_first() =~= later);
        assert forall|i: int| 0 <= i < all.len() - 1 implies !(server::turn(#[trigger] all[i])
            is Close) by {
            if i > 0 {
                assert(all[i] == later[i - 1]);
            }
        }
    }
}

} // verus!
