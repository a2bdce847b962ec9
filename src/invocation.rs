//! One run of the tool, as a state machine that decides and leaves the work
//! to its driver.
//!
//! The driver writes the executable where `start` says, then reports each
//! piece of outside work back through `step`, which answers with the next
//! thing to do or with the final result. Once the file may exist, every path
//! to a result goes through exactly one removal of it.
use vstd::prelude::*;

use crate::binaries::EmbeddedBinaries;
use crate::error::TailwindCliError;
use crate::naming::{
    fresh_temp_file_name, is_uuid_v4_text, spec_temp_file_name, CRATE_VERSION, EXECUTABLE_MODE,
};
use crate::output::{classified, classify, TailwindCliOutput};
use crate::platform::{guess_platform, platform_for, Platform};

verus! {

/// Where an invocation stands.
#[derive(Debug, Clone, Copy, PartialEq, Eq, Structural)]
pub enum Phase {
    /// Waiting for the executable to be written to its file.
    Saving,
    /// Waiting for the tool to run from that file.
    Running,
    /// Waiting for the file to be removed; the outcome is already known.
    Removing,
}

/// What the driver reports after doing what it was asked.
#[derive(Debug)]
pub enum Event {
    /// The executable was written, made executable and flushed.
    Saved,
    /// Writing the executable failed; `file_created` says whether a file
    /// was left behind.
    SaveFailed { error: std::io::Error, file_created: bool },
    /// The tool ran to completion with this status and these streams.
    Exited { success: bool, stdout: Vec<u8>, stderr: Vec<u8> },
    /// The tool could not be started.
    SpawnFailed(std::io::Error),
    /// The file was removed.
    Removed,
    /// Removing the file failed.
    RemoveFailed(std::io::Error),
}

/// Where to write the executable, and with which permission bits.
pub struct SaveRequest<'a> {
    pub file_name: String,
    pub bytes: &'a [u8],
    pub mode: u32,
}

/// The next piece of outside work.
#[derive(Debug)]
pub enum Action {
    /// Run the saved file with the caller's arguments, capturing both streams.
    Spawn { file_name: String },
    /// Remove the saved file.
    Remove { file_name: String },
}

impl Action {
    /// The file the action is about.
    pub open spec fn spec_file_name(&self) -> Seq<char> {
        match self {
            Action::Spawn { file_name } => file_name@,
            Action::Remove { file_name } => file_name@,
        }
    }
}

/// What `step` hands back: more work, or the end of the run.
#[derive(Debug)]
pub enum Step {
    Next(Invocation, Action),
    Finished(Result<TailwindCliOutput, TailwindCliError>),
}

#[derive(Debug)]
enum Stage {
    Saving,
    Running,
    Removing(Result<TailwindCliOutput, TailwindCliError>),
}

/// A run of the tool in progress.
#[derive(Debug)]
pub struct Invocation {
    file_name: String,
    stage: Stage,
}

/// Whether `event` answers the work asked for in `phase`.
pub open spec fn answers(phase: Phase, event: Event) -> bool {
    match phase {
        Phase::Saving => event is Saved || event is SaveFailed,
        Phase::Running => event is Exited || event is SpawnFailed,
        Phase::Removing => event is Removed || event is RemoveFailed,
    }
}

/// Whether a file may be on disk after `event`, so that it must be removed.
pub open spec fn leaves_file(event: Event) -> bool {
    match event {
        Event::Saved => true,
        Event::SaveFailed { file_created, .. } => file_created,
        _ => false,
    }
}

/// The phase after an event that answers `phase`; `None` where the run ends.
pub open spec fn next_phase(phase: Phase, event: Event) -> Option<Phase> {
    match event {
        Event::Saved => Some(Phase::Running),
        Event::SaveFailed { file_created, .. } => if file_created {
            Some(Phase::Removing)
        } else {
            None
        },
        Event::Exited { .. } => Some(Phase::Removing),
        Event::SpawnFailed(_) => Some(Phase::Removing),
        Event::Removed => None,
        Event::RemoveFailed(_) => None,
    }
}

/// The outcome that an event which leads to removal settles on.
pub open spec fn settled_outcome(
    event: Event,
    outcome: Result<TailwindCliOutput, TailwindCliError>,
) -> bool {
    match event {
        Event::SaveFailed { error, .. } => outcome matches Err(
            TailwindCliError::CouldntSaveCliExecutableToTemporaryFile(e),
        ) && e == error,
        Event::Exited { success, stdout, stderr } => classified(success, stdout@, stderr@, outcome),
        Event::SpawnFailed(error) => outcome matches Err(
            TailwindCliError::CouldntInvokeTailwindCli(e),
        ) && e == error,
        _ => false,
    }
}

/// Whether every event answers the phase it arrives in and the last one ends
/// the run.
pub open spec fn completes(phase: Phase, events: Seq<Event>) -> bool
    decreases events.len(),
{
    &&& events.len() > 0
    &&& answers(phase, events[0])
    &&& match next_phase(phase, events[0]) {
        None => events.len() == 1,
        Some(p) => completes(p, events.drop_first()),
    }
}

/// How many removals are asked for while `events` arrive, starting in `phase`.
pub open spec fn removals(phase: Phase, events: Seq<Event>) -> nat
    decreases events.len(),
{
    if events.len() == 0 {
        0
    } else {
        match next_phase(phase, events[0]) {
            None => 0,
            Some(p) => (if p == Phase::Removing {
                1nat
            } else {
                0nat
            }) + removals(p, events.drop_first()),
        }
    }
}

/// From the phase of removal, a run that completes asks for no further
/// removal.
proof fn lemma_no_removal_after_removing(events: Seq<Event>)
    requires
        completes(Phase::Removing, events),
    ensures
        removals(Phase::Removing, events) == 0,
{
}

/// From the running phase, a run that completes asks for exactly one removal.
proof fn lemma_one_removal_after_running(events: Seq<Event>)
    requires
        completes(Phase::Running, events),
    ensures
        removals(Phase::Running, events) == 1,
{
    lemma_no_removal_after_removing(events.drop_first());
}

/// Every run that completes asks for the removal of its temporary file exactly
/// once where saving the executable may have left a file behind, and never
/// where it left none: whether the tool succeeds, fails, or cannot be started,
/// no file outlives the run unasked.
pub proof fn lemma_file_removed_exactly_once(events: Seq<Event>)
    requires
        completes(Phase::Saving, events),
    ensures
        removals(Phase::Saving, events) == if leaves_file(events[0]) {
            1nat
        } else {
            0nat
        },
{
    match events[0] {
        Event::Saved => lemma_one_removal_after_running(events.drop_first()),
        Event::SaveFailed { file_created, .. } => {
            if file_created {
                lemma_no_removal_after_removing(events.drop_first());
            }
        },
        _ => {},
    }
}

impl Invocation {
    /// Where the invocation stands.
    pub closed spec fn phase(&self) -> Phase {
        match self.stage {
            Stage::Saving => Phase::Saving,
            Stage::Running => Phase::Running,
            Stage::Removing(_) => Phase::Removing,
        }
    }

    /// The name of the invocation's temporary file.
    pub closed spec fn file_name(&self) -> Seq<char> {
        self.file_name@
    }

    /// The result to hand back once the file is removed.
    pub closed spec fn pending_outcome(&self) -> Result<TailwindCliOutput, TailwindCliError> {
        match self.stage {
            Stage::Removing(outcome) => outcome,
            _ => arbitrary(),
        }
    }

    /// Begins a run on the platform that `os` and `arch` name, as
    /// `std::env::consts` names them: the invocation, and where to save the
    /// platform's executable. Where no executable ships for the platform, the
    /// run ends before any file is named.
    pub fn start<'a>(os: &str, arch: &str, binaries: &EmbeddedBinaries<'a>) -> (r: Result<
        (Invocation, SaveRequest<'a>),
        TailwindCliError,
    >)
        requires
            binaries.wf(),
        ensures
            platform_for(os@, arch@) is None ==> (r matches Err(
                TailwindCliError::UnsupportedPlatform { os: o, arch: a },
            ) && o@ == os@ && a@ == arch@),
            platform_for(os@, arch@) matches Some(p) ==> (r matches Ok((inv, save)) && {
                &&& inv.phase() == Phase::Saving
                &&& save.file_name@ == inv.file_name()
                &&& save.bytes@ == binaries.image(p)
                &&& save.mode == EXECUTABLE_MODE
                &&& exists|token: Seq<char>|
                    is_uuid_v4_text(token) && inv.file_name() == spec_temp_file_name(
                        p,
                        CRATE_VERSION@,
                        token,
                    )
            }),
    {
        let platform = match guess_platform(os, arch) {
            Ok(p) => p,
            Err(e) => return Err(e),
        };
        let bytes = binaries.get_cli_executable_bytes(&platform);
        let file_name = fresh_temp_file_name(&platform);
        let save = SaveRequest { file_name: file_name.clone(), bytes, mode: EXECUTABLE_MODE };
        Ok((Invocation { file_name, stage: Stage::Saving }, save))
    }

    /// Whether `event` answers the work this invocation waits for.
    pub fn accepts(&self, event: &Event) -> (r: bool)
        ensures
            r == answers(self.phase(), *event),
    {
        match (&self.stage, event) {
            (Stage::Saving, Event::Saved) => true,
            (Stage::Saving, Event::SaveFailed { .. }) => true,
            (Stage::Running, Event::Exited { .. }) => true,
            (Stage::Running, Event::SpawnFailed(_)) => true,
            (Stage::Removing(_), Event::Removed) => true,
            (Stage::Removing(_), Event::RemoveFailed(_)) => true,
            _ => false,
        }
    }

    /// Takes in what the driver reports and decides what comes next: running
    /// the saved tool, removing its file once it may exist, or the result.
    /// A file that was removed unsuccessfully still yields the outcome it
    /// was kept for, inside `CouldntDeleteTemporaryFile`.
    pub fn step(self, event: Event) -> (r: Step)
        requires
            answers(self.phase(), event),
        ensures
            match next_phase(self.phase(), event) {
                Some(p) => r matches Step::Next(inv, action) && {
                    &&& inv.phase() == p
                    &&& inv.file_name() == self.file_name()
                    &&& action.spec_file_name() == self.file_name()
                    &&& (action is Remove <==> p == Phase::Removing)
                    &&& p == Phase::Removing ==> settled_outcome(event, inv.pending_outcome())
                },
                None => r matches Step::Finished(result) && match event {
                    Event::SaveFailed { error, .. } => result matches Err(
                        TailwindCliError::CouldntSaveCliExecutableToTemporaryFile(e),
                    ) && e == error,
                    Event::Removed => result == self.pending_outcome(),
                    Event::RemoveFailed(error) => result matches Err(
                        TailwindCliError::CouldntDeleteTemporaryFile { error: e, outcome },
                    ) && e == error && *outcome == self.pending_outcome(),
                    _ => false,
                },
            },
    {
        let Invocation { file_name, stage } = self;
        match stage {
            Stage::Saving => match event {
                Event::Saved => {
                    let action = Action::Spawn { file_name: file_name.clone() };
                    Step::Next(Invocation { file_name, stage: Stage::Running }, action)
                },
                Event::SaveFailed { error, file_created } => {
                    let outcome = Err(
                        TailwindCliError::CouldntSaveCliExecutableToTemporaryFile(error),
                    );
                    if file_created {
                        let action = Action::Remove { file_name: file_name.clone() };
                        Step::Next(Invocation { file_name, stage: Stage::Removing(outcome) }, action)
                    } else {
                        Step::Finished(outcome)
                    }
                },
                _ => unreached(),
            },
            Stage::Running => {
                let outcome = match event {
                    Event::Exited { success, stdout, stderr } => classify(
                        success,
                        stdout.as_slice(),
                        stderr.as_slice(),
                    ),
                    Event::SpawnFailed(error) => Err(
                        TailwindCliError::CouldntInvokeTailwindCli(error),
                    ),
                    _ => return unreached(),
                };
                let action = Action::Remove { file_name: file_name.clone() };
                Step::Next(Invocation { file_name, stage: Stage::Removing(outcome) }, action)
            },
            Stage::Removing(outcome) => match event {
                Event::RemoveFailed(error) => Step::Finished(
                    Err(
                        TailwindCliError::CouldntDeleteTemporaryFile {
                            error,
                            outcome: Box::new(outcome),
                        },
                    ),
                ),
                _ => Step::Finished(outcome),
            },
        }
    }
}

} // verus!
