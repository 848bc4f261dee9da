//! The installation run as a state machine. The driver performs the
//! filesystem and archive work and reports each outcome as an [`Event`]; the
//! machine decides the next [`Action`]. One run walks
//! `Idle → Loading → Extracting → Reconciling → CleaningUp` and ends
//! `Succeeded` or `Failed`; every failure path still passes through
//! `CleaningUp` before the run is finalized, and a terminal stage accepts a
//! new request, restarting from the beginning.

use vstd::prelude::*;

verus! {

/// Stage of one installation run.
#[derive(Clone, Copy, Debug, PartialEq, Eq, Structural)]
pub enum Stage {
    Idle,
    Loading,
    Extracting,
    Reconciling,
    CleaningUp,
    Succeeded,
    Failed,
}

/// What the driver reports back after carrying out an action.
pub enum Event {
    /// The user asked for an installation of this many archives.
    StartRequested { archive_count: usize },
    /// Every archive was opened and every display path rendered.
    LoadFinished,
    /// Some archive could not be opened: the whole batch is abandoned.
    LoadFailed { message: String },
    /// The staging directory was created fresh.
    StagingCreated,
    /// The staging directory already existed: residue of a crashed run.
    StagingAlreadyExisted { message: String },
    /// One archive was fully extracted into staging.
    ArchiveExtracted,
    /// Extracting an archive failed.
    ExtractionFailed { message: String },
    /// Every decided move was performed.
    ReconcileFinished,
    /// A move into the destination failed; the rest were not attempted and
    /// nothing was rolled back.
    MoveFailed { message: String },
    /// The diagnostic artifact was written.
    DiagnosticWritten,
    /// The staging directory existed and was removed.
    StagingRemoved,
    /// The staging directory did not exist.
    StagingAbsent,
    /// Removing the staging directory failed.
    CleanupFailed { message: String },
}

/// What the driver must do next.
#[derive(Clone, Copy, Debug, PartialEq, Eq, Structural)]
pub enum Action {
    /// Open every selected archive and render the display paths, abandoning
    /// the whole batch on the first failing open.
    OpenArchives,
    /// Create the staging directory, reporting whether it already existed.
    CreateStaging,
    /// Extract the next archive, in input order, into staging.
    ExtractNextArchive,
    /// Enumerate staging's immediate subdirectories and perform the decided
    /// moves in order, stopping at the first failure.
    Reconcile,
    /// Write the recorded error to the crash artifact.
    WriteDiagnostic,
    /// Remove the staging directory if it exists; absence is a no-op.
    Cleanup,
    /// Report the run as successful.
    ReportSuccess,
    /// Report the run as failed, with the recorded primary error.
    ReportFailure,
    /// The event does not apply to the current stage: do nothing.
    Ignore,
}

/// Control state of one installation run.
pub struct Pipeline {
    pub stage: Stage,
    /// Archives not yet extracted.
    pub archives_left: usize,
    /// The run's primary error, once one occurred; it is never overwritten by
    /// a later cleanup failure.
    pub error: Option<String>,
    /// Whether the crash artifact still has to be written with the recorded
    /// error: owed for staging, extraction and reconciliation failures, not
    /// for input or cleanup errors.
    pub diagnostic_owed: bool,
    /// A cleanup failure that follows a primary error, reported as a
    /// secondary warning.
    pub cleanup_warning: Option<String>,
}

impl Pipeline {
    /// The state before any request.
    pub open spec fn spec_init() -> Pipeline {
        Pipeline {
            stage: Stage::Idle,
            archives_left: 0,
            error: None,
            diagnostic_owed: false,
            cleanup_warning: None,
        }
    }

    /// A terminal stage accepts a new request like `Idle` does.
    pub open spec fn spec_accepts_request(self) -> bool {
        self.stage is Idle || self.stage is Succeeded || self.stage is Failed
    }

    /// The full transition relation: next state and next action for every
    /// state and event. Events that do not apply to the current stage change
    /// nothing.
    pub open spec fn spec_step(self, event: Event) -> (Pipeline, Action) {
        match event {
            Event::StartRequested { archive_count } => if self.spec_accepts_request() {
                (
                    Pipeline {
                        stage: Stage::Loading,
                        archives_left: archive_count,
                        error: None,
                        diagnostic_owed: false,
                        cleanup_warning: None,
                    },
                    Action::OpenArchives,
                )
            } else {
                (self, Action::Ignore)
            },
            Event::LoadFinished => if self.stage is Loading {
                (Pipeline { stage: Stage::Extracting, ..self }, Action::CreateStaging)
            } else {
                (self, Action::Ignore)
            },
            Event::LoadFailed { message } => if self.stage is Loading {
                (
                    Pipeline { stage: Stage::CleaningUp, error: Some(message), ..self },
                    Action::Cleanup,
                )
            } else {
                (self, Action::Ignore)
            },
            Event::StagingCreated => if self.stage is Extracting {
                if self.archives_left == 0 {
                    (Pipeline { stage: Stage::Reconciling, ..self }, Action::Reconcile)
                } else {
                    (self, Action::ExtractNextArchive)
                }
            } else {
                (self, Action::Ignore)
            },
            Event::StagingAlreadyExisted { message } => if self.stage is Extracting {
                (
                    Pipeline {
                        stage: Stage::CleaningUp,
                        error: Some(message),
                        diagnostic_owed: true,
                        ..self
                    },
                    Action::WriteDiagnostic,
                )
            } else {
                (self, Action::Ignore)
            },
            Event::ArchiveExtracted => if self.stage is Extracting && self.archives_left > 0 {
                if self.archives_left == 1 {
                    (
                        Pipeline { stage: Stage::Reconciling, archives_left: 0, ..self },
                        Action::Reconcile,
                    )
                } else {
                    (
                        Pipeline { archives_left: (self.archives_left - 1) as usize, ..self },
                        Action::ExtractNextArchive,
                    )
                }
            } else {
                (self, Action::Ignore)
            },
            Event::ExtractionFailed { message } => if self.stage is Extracting {
                (
                    Pipeline {
                        stage: Stage::CleaningUp,
                        error: Some(message),
                        diagnostic_owed: true,
                        ..self
                    },
                    Action::WriteDiagnostic,
                )
            } else {
                (self, Action::Ignore)
            },
            Event::ReconcileFinished => if self.stage is Reconciling {
                (Pipeline { stage: Stage::CleaningUp, ..self }, Action::Cleanup)
            } else {
                (self, Action::Ignore)
            },
            Event::MoveFailed { message } => if self.stage is Reconciling {
                (
                    Pipeline {
                        stage: Stage::CleaningUp,
                        error: Some(message),
                        diagnostic_owed: true,
                        ..self
                    },
                    Action::WriteDiagnostic,
                )
            } else {
                (self, Action::Ignore)
            },
            Event::DiagnosticWritten => if self.stage is CleaningUp && self.diagnostic_owed {
                (Pipeline { diagnostic_owed: false, ..self }, Action::Cleanup)
            } else {
                (self, Action::Ignore)
            },
            Event::StagingRemoved => self.spec_finish_cleanup(),
            Event::StagingAbsent => self.spec_finish_cleanup(),
            Event::CleanupFailed { message } => if self.stage is CleaningUp {
                if self.error is Some {
                    (
                        Pipeline {
                            stage: Stage::Failed,
                            cleanup_warning: Some(message),
                            ..self
                        },
                        Action::ReportFailure,
                    )
                } else {
                    (
                        Pipeline { stage: Stage::Failed, error: Some(message), ..self },
                        Action::ReportFailure,
                    )
                }
            } else {
                (self, Action::Ignore)
            },
        }
    }

    /// End of cleanup with the staging directory gone: the recorded error
    /// alone decides between success and failure.
    pub open spec fn spec_finish_cleanup(self) -> (Pipeline, Action) {
        if self.stage is CleaningUp {
            if self.error is Some {
                (Pipeline { stage: Stage::Failed, ..self }, Action::ReportFailure)
            } else {
                (Pipeline { stage: Stage::Succeeded, ..self }, Action::ReportSuccess)
            }
        } else {
            (self, Action::Ignore)
        }
    }

    /// Shape of every state a run can actually reach: an error is recorded
    /// only once the run is cleaning up or has failed.
    pub open spec fn spec_wf(self) -> bool {
        self.error is Some ==> (self.stage is CleaningUp || self.stage is Failed)
    }

    /// A fresh pipeline, before any request.
    pub fn new() -> (p: Pipeline)
        ensures
            p == Pipeline::spec_init(),
    {
        Pipeline {
            stage: Stage::Idle,
            archives_left: 0,
            error: None,
            diagnostic_owed: false,
            cleanup_warning: None,
        }
    }

    /// Takes one step: consumes the driver's event and returns the next state
    /// with the action the driver must carry out.
    pub fn step(self, event: Event) -> (r: (Pipeline, Action))
        ensures
            r == self.spec_step(event),
    {
        match event {
            Event::StartRequested { archive_count } => {
                if matches!(self.stage, Stage::Idle | Stage::Succeeded | Stage::Failed) {
                    (
                        Pipeline {
                            stage: Stage::Loading,
                            archives_left: archive_count,
                            error: None,
                            diagnostic_owed: false,
                            cleanup_warning: None,
                        },
                        Action::OpenArchives,
                    )
                } else {
                    (self, Action::Ignore)
                }
            },
            Event::LoadFinished => {
                if matches!(self.stage, Stage::Loading) {
                    (Pipeline { stage: Stage::Extracting, ..self }, Action::CreateStaging)
                } else {
                    (self, Action::Ignore)
                }
            },
            Event::LoadFailed { message } => {
                if matches!(self.stage, Stage::Loading) {
                    (
                        Pipeline { stage: Stage::CleaningUp, error: Some(message), ..self },
                        Action::Cleanup,
                    )
                } else {
                    (self, Action::Ignore)
                }
            },
            Event::StagingCreated => {
                if matches!(self.stage, Stage::Extracting) {
                    if self.archives_left == 0 {
                        (Pipeline { stage: Stage::Reconciling, ..self }, Action::Reconcile)
                    } else {
                        (self, Action::ExtractNextArchive)
                    }
                } else {
                    (self, Action::Ignore)
                }
            },
            Event::StagingAlreadyExisted { message } => {
                if matches!(self.stage, Stage::Extracting) {
                    (
                        Pipeline {
                            stage: Stage::CleaningUp,
                            error: Some(message),
                            diagnostic_owed: true,
                            ..self
                        },
                        Action::WriteDiagnostic,
                    )
                } else {
                    (self, Action::Ignore)
                }
            },
            Event::ArchiveExtracted => {
                if matches!(self.stage, Stage::Extracting) && self.archives_left > 0 {
                    if self.archives_left == 1 {
                        (
                            Pipeline { stage: Stage::Reconciling, archives_left: 0, ..self },
                            Action::Reconcile,
                        )
                    } else {
                        (
                            Pipeline { archives_left: self.archives_left - 1, ..self },
                            Action::ExtractNextArchive,
                        )
                    }
                } else {
                    (self, Action::Ignore)
                }
            },
            Event::ExtractionFailed { message } => {
                if matches!(self.stage, Stage::Extracting) {
                    (
                        Pipeline {
                            stage: Stage::CleaningUp,
                            error: Some(message),
                            diagnostic_owed: true,
                            ..self
                        },
                        Action::WriteDiagnostic,
                    )
                } else {
                    (self, Action::Ignore)
                }
            },
            Event::ReconcileFinished => {
                if matches!(self.stage, Stage::Reconciling) {
                    (Pipeline { stage: Stage::CleaningUp, ..self }, Action::Cleanup)
                } else {
                    (self, Action::Ignore)
                }
            },
            Event::MoveFailed { message } => {
                if matches!(self.stage, Stage::Reconciling) {
                    (
                        Pipeline {
                            stage: Stage::CleaningUp,
                            error: Some(message),
                            diagnostic_owed: true,
                            ..self
                        },
                        Action::WriteDiagnostic,
                    )
                } else {
                    (self, Action::Ignore)
                }
            },
            Event::DiagnosticWritten => {
                if matches!(self.stage, Stage::CleaningUp) && self.diagnostic_owed {
                    (Pipeline { diagnostic_owed: false, ..self }, Action::Cleanup)
                } else {
                    (self, Action::Ignore)
                }
            },
            Event::StagingRemoved => self.finish_cleanup(),
            Event::StagingAbsent => self.finish_cleanup(),
            Event::CleanupFailed { message } => {
                if matches!(self.stage, Stage::CleaningUp) {
                    if self.error.is_some() {
                        (
                            Pipeline {
                                stage: Stage::Failed,
                                cleanup_warning: Some(message),
                                ..self
                            },
                            Action::ReportFailure,
                        )
                    } else {
                        (
                            Pipeline { stage: Stage::Failed, error: Some(message), ..self },
                            Action::ReportFailure,
                        )
                    }
                } else {
                    (self, Action::Ignore)
                }
            },
        }
    }

    /// The executable side of [`Pipeline::spec_finish_cleanup`].
    fn finish_cleanup(self) -> (r: (Pipeline, Action))
        ensures
            r == self.spec_finish_cleanup(),
    {
        if matches!(self.stage, Stage::CleaningUp) {
            if self.error.is_some() {
                (Pipeline { stage: Stage::Failed, ..self }, Action::ReportFailure)
            } else {
                (Pipeline { stage: Stage::Succeeded, ..self }, Action::ReportSuccess)
            }
        } else {
            (self, Action::Ignore)
        }
    }
}

/// Cleanup treats an absent staging directory exactly like a removed one: a
/// no-op, not an error. The run finishes the same either way.
pub proof fn lemma_cleanup_absent_is_no_op(p: Pipeline)
    ensures
        p.spec_step(Event::StagingAbsent) == p.spec_step(Event::StagingRemoved),
{
}

/// A run becomes terminal only out of the cleanup stage: whatever event moves
/// a run to `Succeeded` or `Failed` found it in `CleaningUp`, so cleanup is
/// not skippable, on the success path or the failure path.
pub proof fn lemma_terminal_only_after_cleanup(p: Pipeline, event: Event)
    requires
        !(p.stage is Succeeded),
        !(p.stage is Failed),
        (p.spec_step(event).0.stage is Succeeded) || (p.spec_step(event).0.stage is Failed),
    ensures
        p.stage is CleaningUp,
{
}

/// A run reports success only when cleanup ended with the staging directory
/// gone and no error was recorded at any earlier stage.
pub proof fn lemma_success_needs_clean_run(p: Pipeline, event: Event)
    requires
        !(p.stage is Succeeded),
        p.spec_step(event).0.stage is Succeeded,
    ensures
        p.stage is CleaningUp,
        p.error is None,
        event is StagingRemoved || event is StagingAbsent,
        p.spec_step(event).1 == Action::ReportSuccess,
{
}

/// The run starts well-formed and every step keeps it so: an error can only
/// ever be found recorded from the cleanup stage on.
pub proof fn lemma_wf_preserved(p: Pipeline, event: Event)
    requires
        p.spec_wf(),
    ensures
        Pipeline::spec_init().spec_wf(),
        p.spec_step(event).0.spec_wf(),
{
}

/// A primary error is never overwritten: once recorded, every later step of
/// the same run carries it unchanged to the terminal report, and a cleanup
/// failure joins it only as a secondary warning.
pub proof fn lemma_error_is_never_masked(p: Pipeline, event: Event)
    requires
        p.spec_wf(),
        p.error is Some,
        !(event is StartRequested),
    ensures
        p.spec_step(event).0.error == p.error,
{
}

/// The crash artifact is owed only to the fatal staging, extraction and
/// reconciliation failures: no other event — in particular neither an input
/// error nor a cleanup error — asks for one.
pub proof fn lemma_diagnostic_only_for_fatal_stage_errors(p: Pipeline, event: Event)
    requires
        !p.diagnostic_owed,
        p.spec_step(event).0.diagnostic_owed,
    ensures
        event is StagingAlreadyExisted || event is ExtractionFailed || event is MoveFailed,
        p.spec_step(event).1 == Action::WriteDiagnostic,
{
}

/// No step skips a stage: a run only ever moves to the next stage in
/// pipeline order, into cleanup when something failed, or — from a terminal
/// stage — back to the start of a fresh run.
pub proof fn lemma_stages_move_in_order(p: Pipeline, event: Event)
    ensures
        ({
            let next = p.spec_step(event).0.stage;
            match p.stage {
                Stage::Idle => next is Idle || next is Loading,
                Stage::Loading => next is Loading || next is Extracting || next is CleaningUp,
                Stage::Extracting => next is Extracting || next is Reconciling
                    || next is CleaningUp,
                Stage::Reconciling => next is Reconciling || next is CleaningUp,
                Stage::CleaningUp => next is CleaningUp || next is Succeeded || next is Failed,
                Stage::Succeeded => next is Succeeded || next is Loading,
                Stage::Failed => next is Failed || next is Loading,
            }
        }),
{
}

/// A pre-existing staging directory is fatal: the run records the failure
/// description, owes it to the diagnostic artifact, and finishes `Failed`
/// through cleanup — and no step of that path issues the one action that
/// creates destination entries.
pub proof fn lemma_staging_collision_fails_run(p: Pipeline, message: String, cleanup_event: Event)
    requires
        p.stage is Extracting,
        cleanup_event is StagingRemoved || cleanup_event is StagingAbsent || cleanup_event
            is CleanupFailed,
    ensures
        ({
            let (p1, a1) = p.spec_step(Event::StagingAlreadyExisted { message });
            let (p2, a2) = p1.spec_step(Event::DiagnosticWritten);
            let (p3, a3) = p2.spec_step(cleanup_event);
            &&& a1 == Action::WriteDiagnostic
            &&& p1.error == Some(message)
            &&& p1.diagnostic_owed
            &&& a2 == Action::Cleanup
            &&& p3.stage is Failed
            &&& p3.error == Some(message)
            &&& a3 == Action::ReportFailure
            &&& !(a1 is Reconcile)
            &&& !(a2 is Reconcile)
            &&& !(a3 is Reconcile)
        }),
{
}

} // verus!
