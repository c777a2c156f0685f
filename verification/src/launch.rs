//! Starting a process, step by step: a terminal is opened, given its size, and the
//! process is spawned in it. Whatever goes wrong on the way is a refusal.
//!
//! Each step takes what came of the work that it asked for. Work that failed comes
//! with its causes, the outermost first.
use vstd::prelude::*;
use vstd::string::StringExecFns;

use crate::protocol::{ProcessSpec, Refusal, RefusalView, WindowSize};
use crate::session;
use crate::session::fit;
use crate::text;

verus! {

/// The refusal of what failed for these causes, the outermost first.
pub open spec fn failure(causes: Seq<Seq<char>>) -> RefusalView {
    RefusalView::Failed { message: text::joined(causes, ": "@) }
}

/// The refusal of what failed for these causes while something was being done.
pub open spec fn failure_while(doing: Seq<char>, causes: Seq<Seq<char>>) -> RefusalView {
    failure(seq![doing] + causes)
}

/// Refuses what failed for these causes, the outermost first.
pub fn failed(causes: &Vec<String>) -> (refusal: Refusal)
    ensures
        refusal@ == failure(text::texts(causes@)),
{
    Refusal::Failed { message: text::join(causes, ": ") }
}

/// Refuses what failed for these causes while something was being done.
pub fn failed_while(doing: String, causes: Vec<String>) -> (refusal: Refusal)
    ensures
        refusal@ == failure_while(doing@, text::texts(causes@)),
{
    let mut all: Vec<String> = Vec::new();
    all.push(doing);
    let mut rest = causes;
    all.append(&mut rest);
    assert(text::texts(all@) =~= seq![doing@] + text::texts(causes@));
    failed(&all)
}

/// A start whose terminal is to be opened.
#[derive(Debug)]
pub struct Opening {
    spec: ProcessSpec,
}

/// A start whose terminal is to be given the size that was asked for.
#[derive(Debug)]
pub struct Sizing {
    spec: ProcessSpec,
}

/// A start whose process is to be spawned.
#[derive(Debug)]
pub struct Spawning {
    spec: ProcessSpec,
}

/// A process that was spawned, in a window of this size.
#[derive(Debug)]
pub struct Launched {
    size: WindowSize,
    leader: i32,
}

impl View for Opening {
    type V = ProcessSpec;

    closed spec fn view(&self) -> ProcessSpec {
        self.spec
    }
}

impl View for Sizing {
    type V = ProcessSpec;

    closed spec fn view(&self) -> ProcessSpec {
        self.spec
    }
}

impl View for Spawning {
    type V = ProcessSpec;

    closed spec fn view(&self) -> ProcessSpec {
        self.spec
    }
}

/// Why a start goes no further once its terminal was opened, or was not.
pub open spec fn open_refused(
    size: WindowSize,
    opened: Result<(), Seq<Seq<char>>>,
) -> Option<RefusalView> {
    match opened {
        Err(causes) => Some(failure_while("opening a terminal"@, causes)),
        Ok(_) => session::fit_refused(size),
    }
}

/// Why a terminal keeps a process from being spawned in it, or from being resized.
pub open spec fn size_refused(sized: Result<(), Seq<Seq<char>>>) -> Option<RefusalView> {
    match sized {
        Err(causes) => Some(failure_while("sizing the terminal"@, causes)),
        Ok(_) => None,
    }
}

/// The leader that a spawned process makes, or why there is none.
pub open spec fn spawned_leader(
    command: Seq<char>,
    spawned: Result<Option<u32>, Seq<Seq<char>>>,
) -> Result<i32, RefusalView> {
    match spawned {
        Err(causes) => Err(failure_while("spawning "@ + command, causes)),
        Ok(None) => Err(failure(seq!["the spawned process has no pid"@])),
        Ok(Some(pid)) => if pid <= i32::MAX {
            Ok(pid as i32)
        } else {
            Err(
                failure_while(
                    "the spawned process has an unreadable pid"@,
                    seq!["out of range integral type conversion attempted"@],
                ),
            )
        },
    }
}

/// What came of work that leaves nothing behind.
pub open spec fn done_view(done: Result<(), Vec<String>>) -> Result<(), Seq<Seq<char>>> {
    match done {
        Ok(_) => Ok(()),
        Err(causes) => Err(text::texts(causes@)),
    }
}

/// What came of spawning a process: its number, where it has one.
pub open spec fn spawned_view(spawned: Result<Option<u32>, Vec<String>>) -> Result<
    Option<u32>,
    Seq<Seq<char>>,
> {
    match spawned {
        Ok(pid) => Ok(pid),
        Err(causes) => Err(text::texts(causes@)),
    }
}

/// Tells what a terminal that was to be given a size answers.
pub fn sized(done: Result<(), Vec<String>>) -> (outcome: Result<(), Refusal>)
    ensures
        outcome is Ok <==> size_refused(done_view(done)) is None,
        outcome matches Err(refusal) ==> size_refused(done_view(done)) == Some(refusal@),
{
    match done {
        Ok(_) => Ok(()),
        Err(causes) => Err(failed_while("sizing the terminal".to_owned(), causes)),
    }
}

impl Opening {
    /// A start of what `spec` says.
    pub fn of(spec: ProcessSpec) -> (opening: Opening)
        ensures
            opening@ == spec,
    {
        Opening { spec }
    }

    /// Goes on once the terminal was opened, or was not.
    pub fn opened(self, done: Result<(), Vec<String>>) -> (outcome: Result<Sizing, Refusal>)
        ensures
            outcome is Ok <==> open_refused(self@.size, done_view(done)) is None,
            outcome matches Ok(sizing) ==> sizing@ == self@,
            outcome matches Err(refusal) ==> open_refused(self@.size, done_view(done)) == Some(
                refusal@,
            ),
    {
        match done {
            Err(causes) => Err(failed_while("opening a terminal".to_owned(), causes)),
            Ok(_) => match fit(self.spec.size) {
                Ok(_) => Ok(Sizing { spec: self.spec }),
                Err(refusal) => Err(refusal),
            },
        }
    }
}

impl Sizing {
    #[verifier::type_invariant]
    spec fn fits(self) -> bool {
        session::drawable(self@.size)
    }

    /// The size that the terminal is to be given.
    pub fn size(&self) -> (size: WindowSize)
        ensures
            size == self@.size,
            session::drawable(size),
    {
        proof {
            use_type_invariant(self);
        }
        self.spec.size
    }

    /// Goes on once the terminal was given its size, or was not.
    pub fn sized(self, done: Result<(), Vec<String>>) -> (outcome: Result<Spawning, Refusal>)
        ensures
            outcome is Ok <==> size_refused(done_view(done)) is None,
            outcome matches Ok(spawning) ==> spawning@ == self@,
            outcome matches Err(refusal) ==> size_refused(done_view(done)) == Some(refusal@),
    {
        proof {
            use_type_invariant(&self);
        }
        match sized(done) {
            Ok(_) => Ok(Spawning { spec: self.spec }),
            Err(refusal) => Err(refusal),
        }
    }
}

impl Spawning {
    #[verifier::type_invariant]
    spec fn fits(self) -> bool {
        session::drawable(self@.size)
    }

    /// What is to be spawned.
    pub fn spec(&self) -> (spec: &ProcessSpec)
        ensures
            *spec == self@,
    {
        &self.spec
    }

    /// Ends the start once the process was spawned, or was not.
    pub fn spawned(self, done: Result<Option<u32>, Vec<String>>) -> (outcome: Result<
        Launched,
        Refusal,
    >)
        ensures
            outcome matches Ok(launched) ==> launched.spec_size() == self@.size && spawned_leader(
                self@.command@,
                spawned_view(done),
            ) == Result::<i32, RefusalView>::Ok(launched.spec_leader()),
            outcome matches Err(refusal) ==> spawned_leader(self@.command@, spawned_view(done))
                == Result::<i32, RefusalView>::Err(refusal@),
    {
        proof {
            use_type_invariant(&self);
        }
        match done {
            Err(causes) => {
                let doing = "spawning ".to_owned().concat(self.spec.command.as_str());
                Err(failed_while(doing, causes))
            },
            Ok(None) => {
                let mut causes: Vec<String> = Vec::new();
                causes.push("the spawned process has no pid".to_owned());
                assert(text::texts(causes@) =~= seq!["the spawned process has no pid"@]);
                Err(failed(&causes))
            },
            Ok(Some(pid)) => if pid <= i32::MAX as u32 {
                Ok(Launched { size: self.spec.size, leader: pid as i32 })
            } else {
                let mut causes: Vec<String> = Vec::new();
                causes.push("out of range integral type conversion attempted".to_owned());
                assert(text::texts(causes@) =~= seq![
                    "out of range integral type conversion attempted"@,
                ]);
                Err(failed_while("the spawned process has an unreadable pid".to_owned(), causes))
            },
        }
    }
}

impl Launched {
    #[verifier::type_invariant]
    spec fn is_sound(self) -> bool {
        session::drawable(self.size) && self.leader >= 0
    }

    /// The size of the process's window.
    pub closed spec fn spec_size(&self) -> WindowSize {
        self.size
    }

    /// The process that leads the group.
    pub closed spec fn spec_leader(&self) -> i32 {
        self.leader
    }

    /// The size of the process's window.
    pub fn size(&self) -> (size: WindowSize)
        ensures
            size == self.spec_size(),
            session::drawable(size),
    {
        proof {
            use_type_invariant(self);
        }
        self.size
    }

    /// The process that leads the group.
    pub fn leader(&self) -> (leader: i32)
        ensures
            leader == self.spec_leader(),
            leader >= 0,
    {
        proof {
            use_type_invariant(self);
        }
        self.leader
    }
}

} // verus!
