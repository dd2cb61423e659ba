use vstd::prelude::*;
use crate::config::{desc_matches, parse_config, InstallDescriptor};
use crate::errors::PkgError;
use crate::pkgref::PackageRef;

verus! {

/// The phases of one install run. The run walks from `Idle` towards
/// `Done`; every fatal error passes through `Failed`, where the operator
/// is offered a cleanup of the package directory.
#[derive(Clone, Copy, Debug, PartialEq, Eq, Structural)]
pub enum Phase {
    /// Nothing has happened yet; the target directory is to be checked.
    Idle,
    /// The target is occupied; the operator chooses replace or abort.
    ConfirmingReplace,
    /// The operator chose to replace; the old directory is being removed.
    RemovingExisting,
    /// The source is being cloned into the target directory.
    Acquiring,
    /// The config file is being read from the clone.
    Parsing,
    /// The operator chooses whether to run the install.
    AwaitingConfirmation,
    /// The install command is running.
    Executing,
    /// The install succeeded and the directory is being removed, as the
    /// descriptor's `clear` flag asks.
    Finalizing,
    /// A fatal error was recorded; a cleanup is being offered.
    Failed,
    /// The operator accepted the cleanup; the directory is being removed.
    CleaningUp,
    /// The run is over.
    Done,
}

/// How a finished run ended.
#[derive(Clone, Copy, Debug, PartialEq, Eq, Structural)]
pub enum Outcome {
    /// The install command ran and succeeded.
    Installed,
    /// The operator declined to go on; nothing was run.
    Aborted,
    /// A fatal error ended the run.
    Failed,
}

/// What the world reports back to the state machine.
pub enum Event {
    /// Whether a directory already occupies the target path.
    TargetChecked { occupied: bool },
    /// The operator's answer to replacing the existing directory.
    ReplaceAnswer { yes: bool },
    /// Whether removing the target directory succeeded.
    TargetRemoved { ok: bool },
    /// Whether the clone succeeded.
    AcquireFinished { ok: bool },
    /// The text of the config file, or nothing if the file is absent.
    ConfigLoaded { content: Option<String> },
    /// The operator's answer to running the install.
    ConfirmAnswer { yes: bool },
    /// Whether the install command could be spawned and, if so, whether it
    /// exited successfully.
    CommandFinished { spawned: bool, exit_ok: bool },
    /// The operator's answer to cleaning up after a fatal error.
    CleanupAnswer { remove: bool },
}

/// What the machine asks the world to do next.
pub enum Action {
    /// Report whether the target directory exists.
    CheckTarget,
    /// Ask the operator whether to remove the existing directory.
    AskReplace,
    /// Remove the target directory and report whether that worked.
    RemoveTarget,
    /// Clone the source into the target directory.
    AcquireSource,
    /// Read the config file from the clone.
    LoadConfig,
    /// Show the descriptor and ask the operator to confirm the install.
    AskConfirm,
    /// Run this command with the target directory as working directory.
    RunCommand { command: String },
    /// Offer to remove the directory left behind by the fatal error.
    OfferCleanup,
}

/// The install state machine. The surrounding binary performs one
/// `next_action` at a time and reports what happened through `step`;
/// everything the run decides is decided here.
pub struct Installer {
    /// The package being installed.
    pub pkg: PackageRef,
    /// Where the run stands.
    pub phase: Phase,
    /// The parsed config, once the `Parsing` phase is past.
    pub descriptor: Option<InstallDescriptor>,
    /// The fatal error, once one is recorded.
    pub failure: Option<PkgError>,
    /// How the run ended, once it is over.
    pub outcome: Option<Outcome>,
}

impl Installer {
    /// What every phase guarantees about the rest of the state.
    pub open spec fn wf(&self) -> bool {
        &&& (self.phase == Phase::AwaitingConfirmation || self.phase == Phase::Executing
            || self.phase == Phase::Finalizing) ==> self.descriptor is Some
        &&& self.phase == Phase::Executing ==> self.descriptor->0.exec_command is Some
        &&& self.phase == Phase::Finalizing ==> self.descriptor->0.clear
        &&& (self.phase == Phase::Failed || self.phase == Phase::CleaningUp)
            ==> self.failure is Some
        &&& (self.phase == Phase::Done <==> self.outcome is Some)
        &&& self.outcome == Some(Outcome::Failed) ==> self.failure is Some
    }
}

/// Which event answers which phase.
pub open spec fn event_fits(s: Installer, event: Event) -> bool {
    match event {
        Event::TargetChecked { .. } => s.phase == Phase::Idle,
        Event::ReplaceAnswer { .. } => s.phase == Phase::ConfirmingReplace,
        Event::TargetRemoved { .. } => s.phase == Phase::RemovingExisting || s.phase
            == Phase::Finalizing || s.phase == Phase::CleaningUp,
        Event::AcquireFinished { .. } => s.phase == Phase::Acquiring,
        Event::ConfigLoaded { .. } => s.phase == Phase::Parsing,
        Event::ConfirmAnswer { .. } => s.phase == Phase::AwaitingConfirmation,
        Event::CommandFinished { .. } => s.phase == Phase::Executing,
        Event::CleanupAnswer { .. } => s.phase == Phase::Failed,
    }
}

/// The fields a transition does not speak about stay as they were.
pub open spec fn same_data(pre: Installer, post: Installer) -> bool {
    &&& post.pkg == pre.pkg
    &&& post.descriptor == pre.descriptor
    &&& post.failure == pre.failure
    &&& post.outcome == pre.outcome
}

/// The run records the fatal error `e` and offers a cleanup.
pub open spec fn enters_failed(pre: Installer, post: Installer, e: PkgError) -> bool {
    &&& post.phase == Phase::Failed
    &&& post.failure == Some(e)
    &&& post.pkg == pre.pkg
    &&& post.descriptor == pre.descriptor
    &&& post.outcome == pre.outcome
}

/// The run ends because the operator declined; nothing more happens, and
/// in particular no directory is removed.
pub open spec fn ends_aborted(pre: Installer, post: Installer) -> bool {
    &&& post.phase == Phase::Done
    &&& post.outcome == Some(Outcome::Aborted)
    &&& post.pkg == pre.pkg
    &&& post.descriptor == pre.descriptor
    &&& post.failure == pre.failure
}

/// The run ends with the package installed.
pub open spec fn ends_installed(pre: Installer, post: Installer) -> bool {
    &&& post.phase == Phase::Done
    &&& post.outcome == Some(Outcome::Installed)
    &&& post.pkg == pre.pkg
    &&& post.descriptor == pre.descriptor
    &&& post.failure == pre.failure
}

/// The run ends after a fatal error, keeping the error it recorded.
pub open spec fn ends_failed(pre: Installer, post: Installer) -> bool {
    &&& post.phase == Phase::Done
    &&& post.outcome == Some(Outcome::Failed)
    &&& post.pkg == pre.pkg
    &&& post.descriptor == pre.descriptor
    &&& post.failure == pre.failure
}

/// The whole transition relation of the install state machine: what one
/// `step` on `pre` with `event` must yield.
pub open spec fn step_ok(pre: Installer, event: Event, post: Installer) -> bool {
    match event {
        Event::TargetChecked { occupied } => {
            &&& same_data(pre, post)
            &&& post.phase == if occupied {
                Phase::ConfirmingReplace
            } else {
                Phase::Acquiring
            }
        },
        Event::ReplaceAnswer { yes } => {
            if yes {
                same_data(pre, post) && post.phase == Phase::RemovingExisting
            } else {
                ends_aborted(pre, post)
            }
        },
        Event::TargetRemoved { ok } => {
            if pre.phase == Phase::RemovingExisting {
                if ok {
                    same_data(pre, post) && post.phase == Phase::Acquiring
                } else {
                    enters_failed(pre, post, PkgError::IOError)
                }
            } else if pre.phase == Phase::Finalizing {
                if ok {
                    ends_installed(pre, post)
                } else {
                    enters_failed(pre, post, PkgError::IOError)
                }
            } else {
                ends_failed(pre, post)
            }
        },
        Event::AcquireFinished { ok } => {
            if ok {
                same_data(pre, post) && post.phase == Phase::Parsing
            } else {
                enters_failed(pre, post, PkgError::AcquireError)
            }
        },
        Event::ConfigLoaded { content } => match content {
            None => enters_failed(pre, post, PkgError::MissingConfigFile),
            Some(text) => {
                &&& post.phase == Phase::AwaitingConfirmation
                &&& post.descriptor is Some
                &&& desc_matches(post.descriptor->0, text@)
                &&& post.pkg == pre.pkg
                &&& post.failure == pre.failure
                &&& post.outcome == pre.outcome
            },
        },
        Event::ConfirmAnswer { yes } => {
            if !yes {
                ends_aborted(pre, post)
            } else if pre.descriptor->0.exec_command is Some {
                same_data(pre, post) && post.phase == Phase::Executing
            } else {
                enters_failed(pre, post, PkgError::MissingExecCommand)
            }
        },
        Event::CommandFinished { spawned, exit_ok } => {
            if !spawned {
                enters_failed(pre, post, PkgError::IOError)
            } else if !exit_ok {
                enters_failed(pre, post, PkgError::CommandFailed)
            } else if pre.descriptor->0.clear {
                same_data(pre, post) && post.phase == Phase::Finalizing
            } else {
                ends_installed(pre, post)
            }
        },
        Event::CleanupAnswer { remove } => {
            if remove {
                same_data(pre, post) && post.phase == Phase::CleaningUp
            } else {
                ends_failed(pre, post)
            }
        },
    }
}

/// What `next_action` must hand out in each phase.
pub open spec fn action_matches(s: Installer, a: Action) -> bool {
    match s.phase {
        Phase::Idle => a == Action::CheckTarget,
        Phase::ConfirmingReplace => a == Action::AskReplace,
        Phase::RemovingExisting => a == Action::RemoveTarget,
        Phase::Acquiring => a == Action::AcquireSource,
        Phase::Parsing => a == Action::LoadConfig,
        Phase::AwaitingConfirmation => a == Action::AskConfirm,
        Phase::Executing => a matches Action::RunCommand { command } && Some(command@)
            == s.descriptor->0.exec_command.deep_view(),
        Phase::Finalizing => a == Action::RemoveTarget,
        Phase::Failed => a == Action::OfferCleanup,
        Phase::CleaningUp => a == Action::RemoveTarget,
        Phase::Done => false,
    }
}

/// A config without an `exec=` line passes the parser, but once the
/// operator confirms, the run fails with `MissingExecCommand` — the gap is
/// found at execution time, not at parse time.
pub proof fn lemma_no_exec_fails_after_confirmation(
    s0: Installer,
    s1: Installer,
    s2: Installer,
    text: String,
)
    requires
        step_ok(s0, Event::ConfigLoaded { content: Some(text) }, s1),
        step_ok(s1, Event::ConfirmAnswer { yes: true }, s2),
        crate::config::exec_of_lines(crate::config::split_lines(text@)) is None,
    ensures
        s1.phase == Phase::AwaitingConfirmation,
        s2.phase == Phase::Failed,
        s2.failure == Some(PkgError::MissingExecCommand),
{
}

/// Declining the confirmation ends the run as aborted: no error is
/// recorded, no cleanup is offered, and the machine never asks for the
/// cloned directory to be removed.
pub proof fn lemma_decline_keeps_directory(s0: Installer, s1: Installer)
    requires
        step_ok(s0, Event::ConfirmAnswer { yes: false }, s1),
    ensures
        s1.phase == Phase::Done,
        s1.outcome == Some(Outcome::Aborted),
        s1.failure == s0.failure,
        s1.descriptor == s0.descriptor,
{
}

/// Every fatal error is terminal for the run: from `Failed` the machine
/// can only remove the directory the operator gave up on and end, still
/// carrying the error it recorded. No step retries.
pub proof fn lemma_failure_is_terminal(s0: Installer, event: Event, s1: Installer)
    requires
        s0.phase == Phase::Failed,
        event_fits(s0, event),
        step_ok(s0, event, s1),
    ensures
        s1.phase == Phase::CleaningUp || (s1.phase == Phase::Done && s1.outcome == Some(
            Outcome::Failed,
        )),
        s1.failure == s0.failure,
{
}

impl Installer {
    /// Start an install run for the given package.
    pub fn new(pkg: PackageRef) -> (inst: Installer)
        ensures
            inst.wf(),
            inst.phase == Phase::Idle,
            inst.descriptor is None,
            inst.failure is None,
            inst.outcome is None,
            inst.pkg == pkg,
    {
        Installer { pkg, phase: Phase::Idle, descriptor: None, failure: None, outcome: None }
    }

    /// Is the run over?
    pub fn is_done(&self) -> (r: bool)
        ensures
            r == (self.phase == Phase::Done),
    {
        self.phase == Phase::Done
    }

    /// What the binary must do next. Only a finished run has nothing left
    /// to do.
    pub fn next_action(&self) -> (a: Action)
        requires
            self.wf(),
            self.phase != Phase::Done,
        ensures
            action_matches(*self, a),
    {
        match self.phase {
            Phase::Idle => Action::CheckTarget,
            Phase::ConfirmingReplace => Action::AskReplace,
            Phase::RemovingExisting => Action::RemoveTarget,
            Phase::Acquiring => Action::AcquireSource,
            Phase::Parsing => Action::LoadConfig,
            Phase::AwaitingConfirmation => Action::AskConfirm,
            Phase::Executing => match &self.descriptor {
                Some(d) => match &d.exec_command {
                    Some(c) => Action::RunCommand { command: c.clone() },
                    None => unreached(),
                },
                None => unreached(),
            },
            Phase::Finalizing => Action::RemoveTarget,
            Phase::Failed => Action::OfferCleanup,
            Phase::CleaningUp => Action::RemoveTarget,
            Phase::Done => unreached(),
        }
    }

    /// Advance the machine by what the world reported. The new state is
    /// exactly what the transition relation `step_ok` says.
    pub fn step(&mut self, event: Event)
        requires
            old(self).wf(),
            event_fits(*old(self), event),
        ensures
            final(self).wf(),
            step_ok(*old(self), event, *final(self)),
    {
        match event {
            Event::TargetChecked { occupied } => {
                self.phase = if occupied {
                    Phase::ConfirmingReplace
                } else {
                    Phase::Acquiring
                };
            },
            Event::ReplaceAnswer { yes } => {
                if yes {
                    self.phase = Phase::RemovingExisting;
                } else {
                    self.phase = Phase::Done;
                    self.outcome = Some(Outcome::Aborted);
                }
            },
            Event::TargetRemoved { ok } => {
                if self.phase == Phase::RemovingExisting {
                    if ok {
                        self.phase = Phase::Acquiring;
                    } else {
                        self.phase = Phase::Failed;
                        self.failure = Some(PkgError::IOError);
                    }
                } else if self.phase == Phase::Finalizing {
                    if ok {
                        self.phase = Phase::Done;
                        self.outcome = Some(Outcome::Installed);
                    } else {
                        self.phase = Phase::Failed;
                        self.failure = Some(PkgError::IOError);
                    }
                } else {
                    self.phase = Phase::Done;
                    self.outcome = Some(Outcome::Failed);
                }
            },
            Event::AcquireFinished { ok } => {
                if ok {
                    self.phase = Phase::Parsing;
                } else {
                    self.phase = Phase::Failed;
                    self.failure = Some(PkgError::AcquireError);
                }
            },
            Event::ConfigLoaded { content } => {
                match content {
                    None => {
                        self.phase = Phase::Failed;
                        self.failure = Some(PkgError::MissingConfigFile);
                    },
                    Some(text) => {
                        let d = parse_config(text.as_str());
                        self.descriptor = Some(d);
                        self.phase = Phase::AwaitingConfirmation;
                    },
                }
            },
            Event::ConfirmAnswer { yes } => {
                if !yes {
                    self.phase = Phase::Done;
                    self.outcome = Some(Outcome::Aborted);
                } else {
                    let has_exec = match &self.descriptor {
                        Some(d) => d.exec_command.is_some(),
                        None => false,
                    };
                    if has_exec {
                        self.phase = Phase::Executing;
                    } else {
                        self.phase = Phase::Failed;
                        self.failure = Some(PkgError::MissingExecCommand);
                    }
                }
            },
            Event::CommandFinished { spawned, exit_ok } => {
                if !spawned {
                    self.phase = Phase::Failed;
                    self.failure = Some(PkgError::IOError);
                } else if !exit_ok {
                    self.phase = Phase::Failed;
                    self.failure = Some(PkgError::CommandFailed);
                } else {
                    let clear = match &self.descriptor {
                        Some(d) => d.clear,
                        None => false,
                    };
                    if clear {
                        self.phase = Phase::Finalizing;
                    } else {
                        self.phase = Phase::Done;
                        self.outcome = Some(Outcome::Installed);
                    }
                }
            },
            Event::CleanupAnswer { remove } => {
                if remove {
                    self.phase = Phase::CleaningUp;
                } else {
                    self.phase = Phase::Done;
                    self.outcome = Some(Outcome::Failed);
                }
            },
        }
    }
}

} // verus!
