//! Writing records out to files, by alias.

use vstd::prelude::*;
use crate::error::{ConfigError, ErrorView, Key};
use crate::record::ConfigView;
use crate::store::{aliased, has_shorthand, Store};

verus! {

/// What is to be done for one alias.
#[derive(Debug, PartialEq, Eq)]
pub enum ExportStep {
    /// Write `content` to the file `filename`.
    Write { filename: String, content: String },
    /// No record has the alias; there is nothing to write.
    Unknown { shorthand: String },
}

/// The model of an [`ExportStep`].
pub enum ExportStepView {
    Write { filename: Seq<char>, content: Seq<char> },
    Unknown { shorthand: Seq<char> },
}

impl View for ExportStep {
    type V = ExportStepView;

    open spec fn view(&self) -> ExportStepView {
        match *self {
            ExportStep::Write { filename, content } => ExportStepView::Write {
                filename: filename@,
                content: content@,
            },
            ExportStep::Unknown { shorthand } => ExportStepView::Unknown {
                shorthand: shorthand@,
            },
        }
    }
}

/// What became of one alias.
#[derive(Debug, PartialEq, Eq)]
pub enum ExportReport {
    /// The file `filename` was written.
    Wrote { filename: String },
    /// The file `filename` could not be written.
    Failed { filename: String, error: ConfigError },
    /// The alias is not in the registry.
    Unknown { shorthand: String, error: ConfigError },
}

/// The model of an [`ExportReport`].
pub enum ExportReportView {
    Wrote { filename: Seq<char> },
    Failed { filename: Seq<char>, error: ErrorView },
    Unknown { shorthand: Seq<char>, error: ErrorView },
}

impl View for ExportReport {
    type V = ExportReportView;

    open spec fn view(&self) -> ExportReportView {
        match *self {
            ExportReport::Wrote { filename } => ExportReportView::Wrote { filename: filename@ },
            ExportReport::Failed { filename, error } => ExportReportView::Failed {
                filename: filename@,
                error: error@,
            },
            ExportReport::Unknown { shorthand, error } => ExportReportView::Unknown {
                shorthand: shorthand@,
                error: error@,
            },
        }
    }
}

/// What is to be done for the alias `shorthand`: the record's payload goes
/// to the file of the record's name, if there is such a record.
pub open spec fn export_step(records: Seq<ConfigView>, shorthand: Seq<char>) -> ExportStepView {
    if has_shorthand(records, shorthand) {
        ExportStepView::Write {
            filename: aliased(records, shorthand).filename,
            content: aliased(records, shorthand).content,
        }
    } else {
        ExportStepView::Unknown { shorthand }
    }
}

/// What is to be done for each of `shorthands`, each taken by itself.
pub open spec fn export_steps(records: Seq<ConfigView>, shorthands: Seq<String>) -> Seq<
    ExportStepView,
> {
    Seq::new(shorthands.len(), |i: int| export_step(records, shorthands[i]@))
}

/// The models of a sequence of steps.
pub open spec fn step_views(steps: Seq<ExportStep>) -> Seq<ExportStepView> {
    Seq::new(steps.len(), |i: int| steps[i]@)
}

/// What became of `step`, given the outcome of the write it asked for. An
/// unknown alias asked for none, and its report does not depend on `written`.
pub open spec fn export_report(step: ExportStepView, written: Result<(), String>)
    -> ExportReportView {
    match step {
        ExportStepView::Unknown { shorthand } => ExportReportView::Unknown {
            shorthand,
            error: ErrorView::NotFound(Key::Shorthand),
        },
        ExportStepView::Write { filename, content } => match written {
            Ok(_) => ExportReportView::Wrote { filename },
            Err(cause) => ExportReportView::Failed { filename, error: ErrorView::Io(cause@) },
        },
    }
}

/// Decides what to do for the alias `shorthand`.
pub fn export_one(store: &Store, shorthand: &String) -> (step: ExportStep)
    ensures
        step@ == export_step(store@, shorthand@),
{
    match store.find_by_shorthand(shorthand) {
        Ok(record) => ExportStep::Write {
            filename: record.filename.clone(),
            content: record.content.clone(),
        },
        Err(_) => ExportStep::Unknown { shorthand: shorthand.clone() },
    }
}

/// Decides what to do for each of `shorthands`, in their order. Every alias
/// is looked up by itself: one that is unknown takes nothing from the
/// others.
pub fn plan_export(store: &Store, shorthands: &Vec<String>) -> (steps: Vec<ExportStep>)
    ensures
        step_views(steps@) == export_steps(store@, shorthands@),
{
    let mut steps: Vec<ExportStep> = Vec::new();
    let mut at: usize = 0;
    while at < shorthands.len()
        invariant
            at <= shorthands.len(),
            steps@.len() == at,
            forall|i: int|
                0 <= i < at ==> (#[trigger] steps@[i])@ == export_step(store@, shorthands@[i]@),
        decreases shorthands.len() - at,
    {
        steps.push(export_one(store, &shorthands[at]));
        at += 1;
    }
    assert(step_views(steps@) =~= export_steps(store@, shorthands@));
    steps
}

/// Words what became of `step` once its write, if it asked for one, has
/// ended as `written` says. A failed write is reported and nothing more: the
/// steps after it are not touched by it.
pub fn conclude(step: ExportStep, written: Result<(), String>) -> (report: ExportReport)
    ensures
        report@ == export_report(step@, written),
{
    match step {
        ExportStep::Unknown { shorthand } => ExportReport::Unknown {
            shorthand,
            error: ConfigError::NotFound(Key::Shorthand),
        },
        ExportStep::Write { filename, content } => match written {
            Ok(_) => ExportReport::Wrote { filename },
            Err(cause) => ExportReport::Failed { filename, error: ConfigError::Io(cause) },
        },
    }
}

} // verus!
