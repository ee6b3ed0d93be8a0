//! How a run starts: from a video that is resolved to its stream, or from the
//! log of an earlier run.
//!
//! The two ways exclude each other and the configuration chooses. A resume
//! that finds nothing to resume from is an error of the configuration; it is
//! not turned into a fresh start.

use vstd::prelude::*;
use crate::cursor::{opt_text, Cursor, CursorView, ErrorKind};
use crate::resume_log::{recover_last, recovered, LogRead};

verus! {

/// What the caller configured.
#[derive(Debug, Clone, PartialEq, Eq)]
pub struct StartConfig {
    /// The video whose chat is read.
    pub video_id: Option<String>,
    /// The file that the log is kept in.
    pub output_file: Option<String>,
    /// Whether to continue from the log.
    pub resume: bool,
}

/// A configuration as plain values.
pub struct StartConfigView {
    pub video_id: Option<Seq<char>>,
    pub output_file: Option<Seq<char>>,
    pub resume: bool,
}

impl View for StartConfig {
    type V = StartConfigView;

    open spec fn view(&self) -> StartConfigView {
        StartConfigView {
            video_id: opt_text(self.video_id),
            output_file: opt_text(self.output_file),
            resume: self.resume,
        }
    }
}

impl StartConfigView {
    /// Whether the configuration can be started from: a resume needs a log
    /// file, a fresh start needs a video.
    pub open spec fn valid(self) -> bool {
        if self.resume {
            self.output_file is Some
        } else {
            self.video_id is Some
        }
    }
}

/// How to start.
#[derive(Debug, Clone, PartialEq, Eq)]
pub enum StartPlan {
    /// Resolve the video to its stream, and start without a token.
    Resolve { video_id: String },
    /// Start at the cursor that the log gave.
    Resume(Cursor),
}

/// A plan as plain values.
pub enum StartPlanView {
    Resolve { video_id: Seq<char> },
    Resume(CursorView),
}

impl View for StartPlan {
    type V = StartPlanView;

    open spec fn view(&self) -> StartPlanView {
        match *self {
            StartPlan::Resolve { video_id } => StartPlanView::Resolve { video_id: video_id@ },
            StartPlan::Resume(cursor) => StartPlanView::Resume(cursor@),
        }
    }
}

/// The plan that a configuration and the cursor recovered from the log come
/// to. Without `resume` the video is resolved. With it the recovered cursor
/// is taken, and its absence is a `ConfigError`.
pub open spec fn plan_of(config: StartConfigView, recovered: Option<CursorView>) -> Result<
    StartPlanView,
    ErrorKind,
> {
    if !config.valid() {
        Err(ErrorKind::ConfigError)
    } else if config.resume {
        match recovered {
            Some(cursor) => Ok(StartPlanView::Resume(cursor)),
            None => Err(ErrorKind::ConfigError),
        }
    } else {
        Ok(StartPlanView::Resolve { video_id: config.video_id->0 })
    }
}

/// Whether a result holds the plan, or the error, that an outcome names.
pub open spec fn plans(r: Result<StartPlan, ErrorKind>, outcome: Result<StartPlanView, ErrorKind>) -> bool {
    match r {
        Ok(plan) => outcome == Ok::<StartPlanView, ErrorKind>(plan@),
        Err(e) => outcome == Err::<StartPlanView, ErrorKind>(e),
    }
}

/// The cursor of an optional cursor, as plain values.
pub open spec fn cursor_view(c: Option<Cursor>) -> Option<CursorView> {
    match c {
        Some(c) => Some(c@),
        None => None,
    }
}

impl StartConfig {
    /// Checks the configuration. Fails with `ConfigError` exactly where it is
    /// not valid.
    pub fn validate(&self) -> (r: Result<(), ErrorKind>)
        ensures
            match r {
                Ok(_) => self@.valid(),
                Err(e) => e == ErrorKind::ConfigError && !self@.valid(),
            },
    {
        let ok = if self.resume {
            self.output_file.is_some()
        } else {
            self.video_id.is_some()
        };
        if ok {
            Ok(())
        } else {
            Err(ErrorKind::ConfigError)
        }
    }
}

/// Decides how to start, given the cursor that was recovered from the log.
pub fn plan_start(config: &StartConfig, recovered: Option<Cursor>) -> (r: Result<
    StartPlan,
    ErrorKind,
>)
    ensures
        plans(r, plan_of(config@, cursor_view(recovered))),
{
    match config.validate() {
        Err(e) => {
            return Err(e);
        },
        Ok(_) => {},
    }
    if config.resume {
        match recovered {
            Some(cursor) => Ok(StartPlan::Resume(cursor)),
            None => Err(ErrorKind::ConfigError),
        }
    } else {
        match &config.video_id {
            Some(video_id) => Ok(StartPlan::Resolve { video_id: video_id.clone() }),
            None => Err(ErrorKind::ConfigError),
        }
    }
}

/// The plan that a configuration and what reading the log gave come to: a
/// read failure is an `IoError`, and otherwise the recovered cursor decides.
/// Without `resume` the log is not looked at.
pub open spec fn start_of(config: StartConfigView, read: LogRead) -> Result<StartPlanView, ErrorKind> {
    if !config.valid() {
        Err(ErrorKind::ConfigError)
    } else if !config.resume {
        plan_of(config, None)
    } else {
        match read {
            LogRead::Failed => Err(ErrorKind::IoError),
            LogRead::Absent => plan_of(config, None),
            LogRead::Contents(text) => plan_of(config, recovered(text@)),
        }
    }
}

/// Decides how to start, given what reading the log gave.
pub fn start_from_log(config: &StartConfig, read: &LogRead) -> (r: Result<StartPlan, ErrorKind>)
    ensures
        plans(r, start_of(config@, *read)),
{
    match config.validate() {
        Err(e) => {
            return Err(e);
        },
        Ok(_) => {},
    }
    if !config.resume {
        return plan_start(config, None);
    }
    match recover_last(read) {
        Ok(cursor) => plan_start(config, cursor),
        Err(e) => Err(e),
    }
}

} // verus!
