//! The log of the daemon: seeing that its file is there, step by step.
//!
//! `ensure_log_file` gives the first step; `LogRun::reply` takes what came of the action that a
//! run waits for and gives the next step.

use vstd::prelude::*;

use crate::config::{
    daemon_log_path, daemon_log_path_in, failed_at, home_of, log_dir, log_dir_in, plain_error,
    ConfigError, ConfigErrorKind, ConfigErrorView, HomeVars, HomeVarsView,
};
use crate::config_files::unit_result;
use crate::path::LocalPath;

verus! {

/// An action to carry out.
#[derive(Debug)]
pub enum LogAction {
    /// Make the directory and those above it, as far as they are missing.
    CreateDirs(LocalPath),
    /// See whether there is anything at the path.
    Exists(LocalPath),
    /// Open the file for appending, new where it is missing.
    Create(LocalPath),
}

/// What came of an action, or the text of the error that came instead.
#[derive(Debug)]
pub enum LogReply {
    Finished(Result<(), String>),
    Exists(bool),
}

/// How far a run has come.
#[derive(Debug, Clone, Copy, PartialEq, Eq, Structural)]
pub enum LogStage {
    CreatingDir,
    Checking,
    Creating,
}

/// A run that waits for an action to be carried out.
#[derive(Debug)]
pub struct LogRun {
    pub dir: LocalPath,
    pub file: LocalPath,
    pub stage: LogStage,
}

/// A step of a run. In the end it gives the path of the log.
#[derive(Debug)]
pub enum LogStep {
    Act(LogRun),
    Done(Result<LocalPath, ConfigError>),
}

/// The model of an action.
pub enum LogActionView {
    CreateDirs(Seq<u8>),
    Exists(Seq<u8>),
    Create(Seq<u8>),
}

/// The model of a reply.
pub enum LogReplyView {
    Finished(Result<(), Seq<char>>),
    Exists(bool),
}

/// The model of a run.
pub struct LogRunView {
    pub dir: Seq<u8>,
    pub file: Seq<u8>,
    pub stage: LogStage,
}

/// The model of a step.
pub enum LogStepView {
    Act(LogRunView),
    Done(Result<Seq<u8>, ConfigErrorView>),
}

impl View for LogAction {
    type V = LogActionView;

    open spec fn view(&self) -> LogActionView {
        match *self {
            LogAction::CreateDirs(path) => LogActionView::CreateDirs(path@),
            LogAction::Exists(path) => LogActionView::Exists(path@),
            LogAction::Create(path) => LogActionView::Create(path@),
        }
    }
}

impl View for LogReply {
    type V = LogReplyView;

    open spec fn view(&self) -> LogReplyView {
        match *self {
            LogReply::Finished(r) => LogReplyView::Finished(unit_result(r)),
            LogReply::Exists(yes) => LogReplyView::Exists(yes),
        }
    }
}

impl View for LogRun {
    type V = LogRunView;

    open spec fn view(&self) -> LogRunView {
        LogRunView { dir: self.dir@, file: self.file@, stage: self.stage }
    }
}

impl View for LogStep {
    type V = LogStepView;

    open spec fn view(&self) -> LogStepView {
        match *self {
            LogStep::Act(run) => LogStepView::Act(run@),
            LogStep::Done(Ok(path)) => LogStepView::Done(Ok(path@)),
            LogStep::Done(Err(error)) => LogStepView::Done(Err(error@)),
        }
    }
}

/// The first step of seeing that the log is there.
pub open spec fn ensure_log_step(vars: HomeVarsView) -> LogStepView {
    match home_of(vars) {
        None => LogStepView::Done(Err(plain_error(ConfigErrorKind::HomeUnknown))),
        Some(home) => LogStepView::Act(
            LogRunView {
                dir: log_dir_in(home),
                file: daemon_log_path_in(home),
                stage: LogStage::CreatingDir,
            },
        ),
    }
}

/// The action that a run waits for.
pub open spec fn log_action_of(run: LogRunView) -> LogActionView {
    match run.stage {
        LogStage::CreatingDir => LogActionView::CreateDirs(run.dir),
        LogStage::Checking => LogActionView::Exists(run.file),
        LogStage::Creating => LogActionView::Create(run.file),
    }
}

/// The step after a reply: the directory is made, and the file where it is not there. A reply to
/// some other action changes nothing.
pub open spec fn next_log_step(run: LogRunView, reply: LogReplyView) -> LogStepView {
    match (run.stage, reply) {
        (LogStage::CreatingDir, LogReplyView::Finished(Ok(_))) => LogStepView::Act(
            LogRunView { stage: LogStage::Checking, ..run },
        ),
        (LogStage::CreatingDir, LogReplyView::Finished(Err(cause))) => LogStepView::Done(
            Err(failed_at(ConfigErrorKind::CreateLogDir, run.dir, cause)),
        ),
        (LogStage::Checking, LogReplyView::Exists(yes)) => if yes {
            LogStepView::Done(Ok(run.file))
        } else {
            LogStepView::Act(LogRunView { stage: LogStage::Creating, ..run })
        },
        (LogStage::Creating, LogReplyView::Finished(Ok(_))) => LogStepView::Done(Ok(run.file)),
        (LogStage::Creating, LogReplyView::Finished(Err(cause))) => LogStepView::Done(
            Err(failed_at(ConfigErrorKind::CreateLogFile, run.file, cause)),
        ),
        _ => LogStepView::Act(run),
    }
}

/// Sees that the log of the daemon is there.
pub fn ensure_log_file(vars: &HomeVars) -> (r: LogStep)
    ensures
        r@ == ensure_log_step(vars@),
{
    match (log_dir(vars), daemon_log_path(vars)) {
        (Ok(dir), Ok(file)) => LogStep::Act(LogRun { dir, file, stage: LogStage::CreatingDir }),
        _ => LogStep::Done(Err(ConfigError::plain(ConfigErrorKind::HomeUnknown))),
    }
}

impl LogRun {
    /// The action that this waits for.
    pub fn action(&self) -> (r: LogAction)
        ensures
            r@ == log_action_of(self@),
    {
        match self.stage {
            LogStage::CreatingDir => LogAction::CreateDirs(self.dir.copy()),
            LogStage::Checking => LogAction::Exists(self.file.copy()),
            LogStage::Creating => LogAction::Create(self.file.copy()),
        }
    }

    /// The step after a reply. A reply to some other action changes nothing.
    pub fn reply(self, reply: LogReply) -> (r: LogStep)
        ensures
            r@ == next_log_step(self@, reply@),
    {
        match (self.stage, reply) {
            (LogStage::CreatingDir, LogReply::Finished(Ok(_))) => LogStep::Act(
                LogRun { stage: LogStage::Checking, ..self },
            ),
            (LogStage::CreatingDir, LogReply::Finished(Err(cause))) => LogStep::Done(
                Err(ConfigError::failed(ConfigErrorKind::CreateLogDir, &self.dir, cause)),
            ),
            (LogStage::Checking, LogReply::Exists(yes)) => if yes {
                LogStep::Done(Ok(self.file))
            } else {
                LogStep::Act(LogRun { stage: LogStage::Creating, ..self })
            },
            (LogStage::Creating, LogReply::Finished(Ok(_))) => LogStep::Done(Ok(self.file)),
            (LogStage::Creating, LogReply::Finished(Err(cause))) => LogStep::Done(
                Err(ConfigError::failed(ConfigErrorKind::CreateLogFile, &self.file, cause)),
            ),
            _ => LogStep::Act(self),
        }
    }
}

} // verus!
