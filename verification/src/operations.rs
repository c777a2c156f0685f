//! What each operation does, from what it is given to what comes of it: the session's own
//! operations, what the server does about each request, what a client makes of each answer.
use vstd::prelude::*;

use crate::client;
use crate::client::ErrorView;
use crate::launch;
use crate::protocol::{
    IncomingView, ProcessSpecView, RefusalView, Request, RequestView, Response, ResponseView,
    StateView, WindowSize, WindowView,
};
use crate::server;
use crate::server::{StepView, TurnView};
use crate::session;
use crate::session::{ExitView, SessionView, Signal, StopView};

verus! {

/// A session runs exactly where it has a process that has not ended.
pub proof fn law_a_session_runs_until_its_process_has_ended(session: SessionView)
    ensures
        session::runs(session) <==> session.process is Some && session.process->0.exit is None,
{
}

/// The smallest window that can be drawn has two rows and two columns, and every window of at
/// least as many of each can be.
pub proof fn law_two_by_two_is_the_smallest_window(size: WindowSize)
    ensures
        session::least_window().rows == 2,
        session::least_window().cols == 2,
        session::drawable(size) <==> size.rows >= 2 && size.cols >= 2,
        session::fit_refused(size) == if size.rows >= 2 && size.cols >= 2 {
            None::<RefusalView>
        } else {
            Some(RefusalView::UnusableWindowSize { least: WindowSize { rows: 2, cols: 2 } })
        },
{
}

/// A sound session knows its process by the number of its latest run, in a window that can be
/// drawn, under a leader that a signal can reach; one that has ended is no longer signalled.
pub proof fn law_a_sound_session_knows_its_process(session: SessionView)
    ensures
        session::sound(session) <==> (session.process matches Some(process) ==> {
            &&& process.run == session.runs
            &&& process.size.rows >= 2 && process.size.cols >= 2
            &&& process.leader >= 0
            &&& process.exit is Some ==> process.pid_released
            &&& process.exit is Some ==> process.exit->0.window.size.rows >= 2
            &&& process.exit is Some ==> process.exit->0.window.size.cols >= 2
        }),
{
}

/// A resize gives the window of the run that it is meant for the new size where that can be
/// drawn, and changes nothing else.
pub proof fn law_a_resize_changes_the_size_and_nothing_else(
    session: SessionView,
    run: u64,
    size: WindowSize,
)
    ensures
        ({
            let after = session::after_fit(session, run, size);
            &&& after.runs == session.runs
            &&& after.process is Some <==> session.process is Some
            &&& session.process matches Some(process) ==> {
                let now = after.process->0;
                &&& now.size == if process.run == run && size.rows >= 2 && size.cols >= 2 {
                    size
                } else {
                    process.size
                }
                &&& now.run == process.run
                &&& now.clipboard == process.clipboard
                &&& now.leader == process.leader
                &&& now.pid_released == process.pid_released
                &&& now.exit == process.exit
            }
        }),
{
}

/// A launch puts a new run in the place of what was there, unless that still runs: with the
/// next number, its own size and leader, nothing copied, not waited for and not ended.
pub proof fn law_a_launch_begins_a_new_run(session: SessionView, size: WindowSize, leader: i32)
    ensures
        ({
            let after = session::after_launch(session, size, leader);
            if session.process is Some && session.process->0.exit is None {
                after == session
            } else {
                &&& after.runs == if session.runs == u64::MAX {
                    0
                } else {
                    session.runs + 1
                }
                &&& after.process is Some
                &&& after.process->0.run == after.runs
                &&& after.process->0.size == size
                &&& after.process->0.leader == leader
                &&& after.process->0.clipboard is None
                &&& !after.process->0.pid_released
                &&& after.process->0.exit is None
            }
        }),
        session::next_run(session.runs) == if session.runs == u64::MAX {
            0
        } else {
            session.runs + 1
        },
{
}

/// Waiting for the leader of a run takes its number out of use and changes nothing else.
pub proof fn law_a_wait_releases_the_number_and_nothing_else(session: SessionView, run: u64)
    ensures
        ({
            let after = session::after_release(session, run);
            &&& after.runs == session.runs
            &&& after.process is Some <==> session.process is Some
            &&& session.process matches Some(process) ==> {
                let now = after.process->0;
                &&& now.pid_released == (process.pid_released || process.run == run)
                &&& now.run == process.run
                &&& now.size == process.size
                &&& now.clipboard == process.clipboard
                &&& now.leader == process.leader
                &&& now.exit == process.exit
            }
        }),
{
}

/// The end of a run is kept once, with the code and the signal that the system told, the size
/// that the window had and what it showed; the rest of the run stays as it was.
pub proof fn law_an_end_is_kept_once_as_it_was(
    session: SessionView,
    run: u64,
    status: Option<(Option<i32>, Option<i32>)>,
    painted: Seq<u8>,
)
    ensures
        ({
            let after = session::after_end(session, run, status, painted);
            &&& after.runs == session.runs
            &&& after.process is Some <==> session.process is Some
            &&& session.process matches Some(process) ==> {
                let now = after.process->0;
                &&& now.run == process.run
                &&& now.size == process.size
                &&& now.clipboard == process.clipboard
                &&& now.leader == process.leader
                &&& if process.run == run && process.exit is None {
                    &&& now.pid_released
                    &&& now.exit is Some
                    &&& now.exit->0.code == match status {
                        Some(told) => told.0,
                        None => None,
                    }
                    &&& now.exit->0.signal == match status {
                        Some(told) => told.1,
                        None => None,
                    }
                    &&& now.exit->0.window.size == process.size
                    &&& now.exit->0.window.contents == painted
                } else {
                    now.pid_released == process.pid_released && now.exit == process.exit
                }
            }
        }),
{
}

/// What a run copied is on its clipboard where it could be read, and changes nothing else.
pub proof fn law_a_copy_changes_the_clipboard_and_nothing_else(
    session: SessionView,
    run: u64,
    decoded: Result<Seq<u8>, Seq<char>>,
)
    ensures
        ({
            let after = session::after_taking(session, run, decoded);
            &&& after.runs == session.runs
            &&& after.process is Some <==> session.process is Some
            &&& session.process matches Some(process) ==> {
                let now = after.process->0;
                &&& now.clipboard == if process.run == run && decoded is Ok {
                    Some(decoded->Ok_0)
                } else {
                    process.clipboard
                }
                &&& now.run == process.run
                &&& now.size == process.size
                &&& now.leader == process.leader
                &&& now.pid_released == process.pid_released
                &&& now.exit == process.exit
            }
        }),
        session::taking_said(session, run, decoded) is Err <==> session.process is Some
            && session.process->0.run == run && decoded is Err,
        session::taking_said(session, run, decoded) matches Err(complaint) ==> decoded
            == Result::<Seq<u8>, Seq<char>>::Err(complaint),
{
}

/// What a run copied is taken as what its text carries.
pub proof fn law_what_a_run_copies_is_read_first(session: SessionView, run: u64, data: Seq<u8>)
    ensures
        session::after_copying(session, run, data) == session::after_taking(
            session,
            run,
            crate::base64_text::base64_decoded(data),
        ),
        session.process matches Some(process) ==> session::after_copying(
            session,
            run,
            data,
        ).process->0.clipboard == if process.run == run {
            session::after_copy(process.clipboard, data)
        } else {
            process.clipboard
        },
{
}

/// A clipboard takes what could be read and says nothing, and complains of what could not and
/// stays as it was.
pub proof fn law_a_clipboard_takes_what_could_be_read(
    before: Option<Seq<u8>>,
    decoded: Result<Seq<u8>, Seq<char>>,
)
    ensures
        decoded matches Ok(copied) ==> session::after_take(before, decoded) == Some(copied)
            && session::take_said(decoded) is Ok,
        decoded matches Err(complaint) ==> session::after_take(before, decoded) == before
            && session::take_said(decoded) == Result::<(), Seq<char>>::Err(complaint),
{
}

/// A session says of its process what holds of it: that there is none, that it runs, or the
/// code and the signal that it ended with and its last window.
pub proof fn law_a_session_tells_its_state_as_it_is(session: SessionView)
    ensures
        session.process is None ==> session::session_state(session) == StateView::NotStarted,
        session.process matches Some(process) && process.exit is None ==> session::session_state(
            session,
        ) == StateView::Running,
        session.process matches Some(process) && process.exit is Some ==> session::session_state(
            session,
        ) == (StateView::Exited {
            code: session.process->0.exit->0.code,
            signal: session.process->0.exit->0.signal,
            window: session.process->0.exit->0.window,
        }),
{
}

/// The state of a run is the end that it had, where it has had one.
pub proof fn law_a_state_tells_the_end_as_it_was(exit: Option<ExitView>)
    ensures
        exit is None ==> session::state_after(exit) == StateView::Running,
        exit matches Some(end) ==> session::state_after(exit) == (StateView::Exited {
            code: end.code,
            signal: end.signal,
            window: end.window,
        }),
{
}

/// Nothing is done to a process that there is not, or that has ended.
pub proof fn law_only_a_running_process_is_worked_on(session: SessionView)
    ensures
        session::not_live(session) == if session.process is None {
            Some(RefusalView::NothingStarted)
        } else if session.process->0.exit is Some {
            Some(RefusalView::AlreadyExited)
        } else {
            None
        },
{
}

/// A session gives its window: the one painted, in the size of the run, while the process runs,
/// and the one kept at its end after that.
pub proof fn law_a_session_gives_its_window(session: SessionView, painted: Seq<u8>)
    ensures
        session::session_window(session, painted) == if session.process is None {
            Err(RefusalView::NothingStarted)
        } else if session.process->0.exit is None {
            Ok::<WindowView, RefusalView>(
                WindowView { size: session.process->0.size, contents: painted },
            )
        } else {
            Ok(session.process->0.exit->0.window)
        },
        session::session_clipboard(session) == if session.process is None {
            Err(RefusalView::NothingStarted)
        } else {
            Ok::<Option<Seq<u8>>, RefusalView>(session.process->0.clipboard)
        },
{
}

/// A stop begins by asking the whole group of the run to end, where its number is still its own,
/// and waits for the run as long as it was told; one of a process that has ended is over at once.
pub proof fn law_a_stop_begins_by_asking(session: SessionView, grace_ms: u64)
    requires
        session::sound(session),
    ensures
        session.process is None ==> session::stop_begun(session, grace_ms) == Result::<
            StopView,
            RefusalView,
        >::Err(RefusalView::NothingStarted),
        session.process matches Some(process) && process.exit is None ==> {
            &&& session::stop_begun(session, grace_ms) matches Ok(StopView::Waiting {
                run,
                shot,
                patience_ms,
            })
            &&& run == session.process->0.run
            &&& patience_ms == Some(grace_ms)
            &&& shot is None <==> session.process->0.pid_released
            &&& shot matches Some(shot) ==> shot.signal == Signal::Terminate && shot.target
                == -session.process->0.leader
        },
        session.process matches Some(process) && process.exit is Some ==> session::stop_begun(
            session,
            grace_ms,
        ) == Result::<StopView, RefusalView>::Ok(StopView::Over(session::session_state(session))),
{
}

/// A stop whose grace has run out kills the whole group of the run, where that is still the
/// session's and its number still its own, and then waits as long as it takes.
pub proof fn law_a_stop_goes_on_by_killing(session: SessionView, run: u64)
    requires
        session::sound(session),
    ensures
        session::stop_forced(session, run) matches StopView::Waiting { run: of, shot, patience_ms }
            && {
            &&& of == run
            &&& patience_ms is None
            &&& shot is Some <==> session.process is Some && session.process->0.run == run
                && !session.process->0.pid_released
            &&& shot matches Some(shot) ==> shot.signal == Signal::Kill && shot.target
                == -session.process->0.leader
        },
{
}

/// A start is refused while a process runs, and else launches exactly what was asked for.
pub proof fn law_the_server_launches_what_it_was_asked_for(
    session: SessionView,
    spec: ProcessSpecView,
    painted: Seq<u8>,
)
    ensures
        server::step(session, RequestView::Start(spec), painted) == if session.process is Some
            && session.process->0.exit is None {
            StepView::Answer(ResponseView::Refused(RefusalView::AlreadyRunning))
        } else {
            StepView::Launch(spec)
        },
{
}

/// Whoever asks for the window gets one wherever there is a process: the one painted, in the
/// size of the run, while it runs, and the one kept at its end after that.
pub proof fn law_the_server_gives_the_window(session: SessionView, painted: Seq<u8>)
    ensures
        session.process is None ==> server::step(session, RequestView::Window, painted)
            == StepView::Answer(ResponseView::Refused(RefusalView::NothingStarted)),
        session.process matches Some(process) ==> {
            &&& server::step(session, RequestView::Window, painted) matches StepView::Answer(
                ResponseView::Window(window),
            )
            &&& process.exit is None ==> window.size == process.size && window.contents == painted
            &&& process.exit is Some ==> window == process.exit->0.window
        },
{
}

/// What is to be typed is typed byte for byte while a process runs, and refused for what stands
/// in its way else.
pub proof fn law_the_server_types_what_it_was_given(
    session: SessionView,
    data: Seq<u8>,
    painted: Seq<u8>,
)
    ensures
        server::step(session, RequestView::Input { data }, painted) == if session.process is None {
            StepView::Answer(ResponseView::Refused(RefusalView::NothingStarted))
        } else if session.process->0.exit is Some {
            StepView::Answer(ResponseView::Refused(RefusalView::AlreadyExited))
        } else {
            StepView::Type { data }
        },
{
}

/// A resize goes to the run that is under way, in the size that was asked for, and is refused
/// for what stands in its way else.
pub proof fn law_the_server_resizes_as_it_was_asked(
    session: SessionView,
    size: WindowSize,
    painted: Seq<u8>,
)
    ensures
        server::step(session, RequestView::Resize { size }, painted) == if session.process is None {
            StepView::Answer(ResponseView::Refused(RefusalView::NothingStarted))
        } else if session.process->0.exit is Some {
            StepView::Answer(ResponseView::Refused(RefusalView::AlreadyExited))
        } else {
            StepView::Resize { run: session.process->0.run, size }
        },
{
}

/// A stop of a running process asks its whole group to end, where its number is still its own,
/// and waits for the run exactly as long as the request says; a stop of an ended one tells how
/// it ended.
pub proof fn law_the_server_stops_gently_first(
    session: SessionView,
    grace_ms: u64,
    painted: Seq<u8>,
)
    requires
        session::sound(session),
    ensures
        session.process is None ==> server::step(session, RequestView::Stop { grace_ms }, painted)
            == StepView::Answer(ResponseView::Refused(RefusalView::NothingStarted)),
        session.process matches Some(process) && process.exit is None ==> {
            &&& server::step(
                session,
                RequestView::Stop { grace_ms },
                painted,
            ) matches StepView::Stop { run, shot, patience_ms }
            &&& run == session.process->0.run
            &&& patience_ms == Some(grace_ms)
            &&& shot is Some <==> !session.process->0.pid_released
            &&& shot matches Some(shot) ==> shot.signal == Signal::Terminate && shot.target
                == -session.process->0.leader
        },
        session.process matches Some(process) && process.exit is Some ==> server::step(
            session,
            RequestView::Stop { grace_ms },
            painted,
        ) == StepView::Answer(
            ResponseView::State(
                StateView::Exited {
                    code: session.process->0.exit->0.code,
                    signal: session.process->0.exit->0.signal,
                    window: session.process->0.exit->0.window,
                },
            ),
        ),
{
}

/// Whoever asks for the state is always told it, as it is.
pub proof fn law_the_server_tells_the_state(session: SessionView, painted: Seq<u8>)
    ensures
        server::step(session, RequestView::State, painted) matches StepView::Answer(
            ResponseView::State(state),
        ) && {
            &&& session.process is None <==> state is NotStarted
            &&& session.process is Some && session.process->0.exit is None <==> state is Running
            &&& state matches StateView::Exited { code, signal, window } ==> {
                &&& code == session.process->0.exit->0.code
                &&& signal == session.process->0.exit->0.signal
                &&& window == session.process->0.exit->0.window
            }
        },
{
}

/// Whoever asks for the clipboard gets what is on it wherever there is a process, running or
/// ended.
pub proof fn law_the_server_gives_the_clipboard(session: SessionView, painted: Seq<u8>)
    ensures
        server::step(session, RequestView::Clipboard, painted) == if session.process is None {
            StepView::Answer(ResponseView::Refused(RefusalView::NothingStarted))
        } else {
            StepView::Answer(
                ResponseView::Clipboard { data: session.process->0.clipboard },
            )
        },
        forall|refusal: RefusalView| #[trigger]
            server::refused(refusal) == StepView::Answer(ResponseView::Refused(refusal)),
{
}

/// A connection acts on exactly the request that came in, answers a line that is none with what
/// is wrong with it, and closes with its source.
pub proof fn law_a_connection_acts_on_what_came_in(incoming: IncomingView<Request>)
    ensures
        server::turn(incoming) == match incoming {
            IncomingView::Message(request) => TurnView::Act(request),
            IncomingView::Unreadable(message) => TurnView::Answer(
                ResponseView::Refused(RefusalView::Unreadable { message }),
            ),
            IncomingView::Ended => TurnView::Close,
        },
{
}

/// What is said of work that failed: what was being done, and then its causes, each after a
/// colon.
pub open spec fn complaint_of(doing: Seq<char>, causes: Seq<Seq<char>>) -> Seq<char>
    decreases causes.len(),
{
    if causes.len() == 0 {
        doing
    } else {
        complaint_of(doing, causes.drop_last()) + seq![':', ' '] + causes.last()
    }
}

/// What failed is refused with what was being done and all that went wrong, in order.
pub proof fn law_a_failure_tells_all_its_causes(doing: Seq<char>, causes: Seq<Seq<char>>)
    ensures
        launch::failure_while(doing, causes) == (RefusalView::Failed {
            message: complaint_of(doing, causes),
        }),
        launch::failure(seq![doing] + causes) == launch::failure_while(doing, causes),
        launch::failure(Seq::empty()) == (RefusalView::Failed { message: Seq::empty() }),
    decreases causes.len(),
{
    reveal_strlit(": ");
    let all = seq![doing] + causes;
    assert(": "@ =~= seq![':', ' ']);
    if causes.len() == 0 {
        assert(all =~= seq![doing]);
    } else {
        law_a_failure_tells_all_its_causes(doing, causes.drop_last());
        assert(all.drop_last() =~= seq![doing] + causes.drop_last());
        assert(all.last() == causes.last());
    }
}

/// A start is answered with the state that came of it, or with why it was refused.
pub proof fn law_a_start_is_answered_as_it_went(outcome: Result<StateView, RefusalView>)
    ensures
        outcome matches Ok(state) ==> server::start_answer(outcome) == ResponseView::State(state),
        outcome matches Err(refusal) ==> server::start_answer(outcome) == ResponseView::Refused(
            refusal,
        ),
{
}

/// Typing and resizing are answered as done where they were, and with what went wrong else.
pub proof fn law_work_is_answered_as_it_went(done: Result<(), Seq<Seq<char>>>)
    ensures
        done is Ok ==> server::input_answer(done) == ResponseView::Done && server::resize_answer(
            done,
        ) == ResponseView::Done && launch::size_refused(done) is None,
        done matches Err(causes) ==> {
            let sizing = RefusalView::Failed {
                message: complaint_of("sizing the terminal"@, causes),
            };
            &&& server::input_answer(done) == ResponseView::Refused(
                RefusalView::Failed { message: complaint_of("typing into the terminal"@, causes) },
            )
            &&& server::resize_answer(done) == ResponseView::Refused(sizing)
            &&& launch::size_refused(done) == Some(sizing)
        },
{
    if let Err(causes) = done {
        law_a_failure_tells_all_its_causes("typing into the terminal"@, causes);
        law_a_failure_tells_all_its_causes("sizing the terminal"@, causes);
    }
}

/// A stop is answered with the state of the run that it waited for: how it ended.
pub proof fn law_a_stop_is_answered_with_how_the_run_ended(exit: Option<ExitView>)
    ensures
        exit is None ==> server::stop_answer(exit) == ResponseView::State(StateView::Running),
        exit matches Some(end) ==> server::stop_answer(exit) == ResponseView::State(
            StateView::Exited { code: end.code, signal: end.signal, window: end.window },
        ),
{
}

/// A terminal that was opened takes a window of two by two and up; one that was not says why.
pub proof fn law_an_opening_goes_on_where_the_window_can_be_drawn(
    size: WindowSize,
    opened: Result<(), Seq<Seq<char>>>,
)
    ensures
        launch::open_refused(size, opened) is None <==> opened is Ok && size.rows >= 2 && size.cols
            >= 2,
        opened matches Err(causes) ==> launch::open_refused(size, opened) == Some(
            RefusalView::Failed { message: complaint_of("opening a terminal"@, causes) },
        ),
        opened is Ok && launch::open_refused(size, opened) is Some ==> launch::open_refused(
            size,
            opened,
        ) == Some(RefusalView::UnusableWindowSize { least: WindowSize { rows: 2, cols: 2 } }),
{
    if let Err(causes) = opened {
        law_a_failure_tells_all_its_causes("opening a terminal"@, causes);
    }
}

/// A process that was spawned leads its group under its own number; one without a number, or
/// under one that no signal could be sent to, is refused, and so is one that was not spawned.
pub proof fn law_a_spawned_process_leads_under_its_own_number(
    command: Seq<char>,
    spawned: Result<Option<u32>, Seq<Seq<char>>>,
)
    ensures
        launch::spawned_leader(command, spawned) matches Ok(leader) ==> spawned == Result::<
            Option<u32>,
            Seq<Seq<char>>,
        >::Ok(Some(leader as u32)) && leader >= 0,
        launch::spawned_leader(command, spawned) is Ok <==> (spawned matches Ok(Some(pid)) && pid
            <= i32::MAX),
        spawned matches Err(causes) ==> launch::spawned_leader(command, spawned) == Result::<
            i32,
            RefusalView,
        >::Err(RefusalView::Failed { message: complaint_of("spawning "@ + command, causes) }),
        spawned matches Ok(None) ==> launch::spawned_leader(command, spawned) == Result::<
            i32,
            RefusalView,
        >::Err(RefusalView::Failed { message: "the spawned process has no pid"@ }),
        spawned matches Ok(Some(pid)) && pid > i32::MAX ==> launch::spawned_leader(command, spawned)
            == Result::<i32, RefusalView>::Err(
            RefusalView::Failed {
                message: "the spawned process has an unreadable pid"@ + seq![':', ' ']
                    + "out of range integral type conversion attempted"@,
            },
        ),
{
    if let Err(causes) = spawned {
        law_a_failure_tells_all_its_causes("spawning "@ + command, causes);
    }
    law_a_failure_tells_all_its_causes("the spawned process has no pid"@, Seq::empty());
    assert(seq!["the spawned process has no pid"@] + Seq::<Seq<char>>::empty() =~= seq![
        "the spawned process has no pid"@,
    ]);
    let causes = seq!["out of range integral type conversion attempted"@];
    law_a_failure_tells_all_its_causes("the spawned process has an unreadable pid"@, causes);
    reveal_with_fuel(complaint_of, 2);
    assert(causes.drop_last() =~= Seq::empty());
}

/// A client takes a response that came in as it came, code, signal, window, bytes and all; a
/// refusal, a line that is no response and the end of the connection are its errors.
pub proof fn law_an_answer_is_taken_as_it_came(response: Response, complaint: Seq<char>)
    ensures
        client::answer(IncomingView::Message(response)) == match response@ {
            ResponseView::Refused(refusal) => Err::<ResponseView, ErrorView>(
                ErrorView::Refused(refusal),
            ),
            ResponseView::Done => Ok(ResponseView::Done),
            ResponseView::Window(window) => Ok(ResponseView::Window(window)),
            ResponseView::State(state) => Ok(ResponseView::State(state)),
            ResponseView::Clipboard { data } => Ok(ResponseView::Clipboard { data }),
        },
        client::answer(IncomingView::Unreadable(complaint)) == Result::<
            ResponseView,
            ErrorView,
        >::Err(ErrorView::Unreadable(complaint)),
        client::answer(IncomingView::Ended) == Result::<ResponseView, ErrorView>::Err(
            ErrorView::HungUp,
        ),
{
}

/// Whoever asks for a state gets the state that came in, unchanged; of anything else that came in
/// is said what it is.
pub proof fn law_a_state_arrives_unchanged(asked: Seq<char>, response: Response)
    ensures
        client::reading(
            asked,
            IncomingView::Message(response),
            |r: ResponseView| client::state_in(r),
        ) == match response@ {
            ResponseView::State(state) => Ok::<StateView, ErrorView>(state),
            ResponseView::Refused(refusal) => Err(ErrorView::Refused(refusal)),
            ResponseView::Done => Err(ErrorView::Mismatched { asked, answer: "done"@ }),
            ResponseView::Window(_) => Err(ErrorView::Mismatched { asked, answer: "a window"@ }),
            ResponseView::Clipboard { .. } => Err(
                ErrorView::Mismatched { asked, answer: "a clipboard"@ },
            ),
        },
{
}

/// Whoever asks for the window gets the window that came in, unchanged; of anything else that
/// came in is said what it is.
pub proof fn law_a_window_arrives_unchanged(asked: Seq<char>, response: Response)
    ensures
        client::reading(
            asked,
            IncomingView::Message(response),
            |r: ResponseView| client::window_in(r),
        ) == match response@ {
            ResponseView::Window(window) => Ok::<WindowView, ErrorView>(window),
            ResponseView::Refused(refusal) => Err(ErrorView::Refused(refusal)),
            ResponseView::Done => Err(ErrorView::Mismatched { asked, answer: "done"@ }),
            ResponseView::State(_) => Err(ErrorView::Mismatched { asked, answer: "a state"@ }),
            ResponseView::Clipboard { .. } => Err(
                ErrorView::Mismatched { asked, answer: "a clipboard"@ },
            ),
        },
{
}

/// Whoever asks for the clipboard gets what came in for it, unchanged; of anything else that came
/// in is said what it is.
pub proof fn law_a_clipboard_arrives_unchanged(asked: Seq<char>, response: Response)
    ensures
        client::reading(
            asked,
            IncomingView::Message(response),
            |r: ResponseView| client::clipboard_in(r),
        ) == match response@ {
            ResponseView::Clipboard { data } => Ok::<Option<Seq<u8>>, ErrorView>(data),
            ResponseView::Refused(refusal) => Err(ErrorView::Refused(refusal)),
            ResponseView::Done => Err(ErrorView::Mismatched { asked, answer: "done"@ }),
            ResponseView::State(_) => Err(ErrorView::Mismatched { asked, answer: "a state"@ }),
            ResponseView::Window(_) => Err(ErrorView::Mismatched { asked, answer: "a window"@ }),
        },
{
}

/// Whoever asks for something to be done learns that it was exactly where that came in; of
/// anything else that came in is said what it is.
pub proof fn law_that_it_was_done_arrives(asked: Seq<char>, response: Response)
    ensures
        client::reading(
            asked,
            IncomingView::Message(response),
            |r: ResponseView| client::done_in(r),
        ) == match response@ {
            ResponseView::Done => Ok::<(), ErrorView>(()),
            ResponseView::Refused(refusal) => Err(ErrorView::Refused(refusal)),
            ResponseView::State(_) => Err(ErrorView::Mismatched { asked, answer: "a state"@ }),
            ResponseView::Window(_) => Err(ErrorView::Mismatched { asked, answer: "a window"@ }),
            ResponseView::Clipboard { .. } => Err(
                ErrorView::Mismatched { asked, answer: "a clipboard"@ },
            ),
        },
{
}

/// Where no response came in there is no value, whatever was asked for: a line that is none is
/// reported with what is wrong with it, and the end of the connection as such.
pub proof fn law_what_did_not_arrive_is_reported<V>(
    asked: Seq<char>,
    complaint: Seq<char>,
    take: spec_fn(ResponseView) -> Option<V>,
)
    ensures
        client::reading(asked, IncomingView::Unreadable(complaint), take) == Result::<
            V,
            ErrorView,
        >::Err(ErrorView::Unreadable(complaint)),
        client::reading(asked, IncomingView::Ended, take) == Result::<V, ErrorView>::Err(
            ErrorView::HungUp,
        ),
{
}

/// What a response gives is what it holds, and nothing of another kind.
pub proof fn law_a_response_gives_what_it_holds(response: ResponseView, asked: Seq<char>)
    ensures
        client::state_in(response) matches Some(state) ==> response == ResponseView::State(state),
        client::window_in(response) matches Some(window) ==> response == ResponseView::Window(
            window,
        ),
        client::clipboard_in(response) matches Some(data) ==> response == (
        ResponseView::Clipboard { data }),
        client::state_in(response) is Some <==> response is State,
        client::window_in(response) is Some <==> response is Window,
        client::clipboard_in(response) is Some <==> response is Clipboard,
        client::done_in(response) is Some <==> response is Done,
        client::mismatched(asked, response) == (ErrorView::Mismatched {
            asked,
            answer: client::called(response),
        }),
        client::called(response) == match response {
            ResponseView::Done => "done"@,
            ResponseView::Window(_) => "a window"@,
            ResponseView::State(_) => "a state"@,
            ResponseView::Clipboard { .. } => "a clipboard"@,
            ResponseView::Refused(_) => "a refusal"@,
        },
{
}

/// A grace travels as whole milliseconds: as it is where it fits, and as long as it can be else.
pub proof fn law_a_grace_is_cut_only_where_it_must_be(millis: u128)
    ensures
        client::carried_grace(millis) <= millis,
        client::carried_grace(millis) == millis || client::carried_grace(millis) == u64::MAX,
        millis <= u64::MAX ==> client::carried_grace(millis) == millis,
{
}

} // verus!
