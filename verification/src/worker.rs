use vstd::prelude::*;

use crate::app_state::{access_failed_event, access_failed_message, processing_error_event, processing_error_message};
use crate::events::{AppEvent, AppEventView};
use crate::filing::{destination_for, Destination};
use crate::pipeline::{id_result_view, text_result_view};
use crate::text::opt_view;

verus! {

/// Outside work the window's background worker performs for one image.
#[derive(Clone, Copy, Debug, PartialEq, Eq, Structural)]
pub enum WorkerRequest {
    /// Pause, then wait until the file can be opened for writing.
    WaitForAccess,
    /// Run the extraction pipeline (barcode and/or OCR) on the image.
    RunPipeline,
}

/// What that work produced.
#[derive(Debug)]
pub enum WorkerOutcome {
    /// Whether the file became accessible.
    Access(bool),
    /// The identifier found, or why the pipeline failed.
    Pipeline(Result<Option<String>, String>),
    /// The file was moved (or not): the identifier it was filed with, and where
    /// it ended up or why the move failed.
    Moved { po_number: Option<String>, destination: Result<String, String> },
}

/// The worker's next step.
#[derive(Debug)]
pub enum WorkerStep {
    Perform(WorkerRequest),
    /// Send `notice` first (if any), then move the file into `to`, named after
    /// `po_number` when there is one, and report the move as `Moved`.
    Move { notice: Option<AppEvent>, to: Destination, po_number: Option<String> },
    /// Send this event to the window and stop.
    Finish(AppEvent),
}

pub enum WorkerOutcomeView {
    Access(bool),
    Pipeline(Result<Option<Seq<char>>, Seq<char>>),
    Moved { po_number: Option<Seq<char>>, destination: Result<Seq<char>, Seq<char>> },
}

pub enum WorkerStepView {
    Perform(WorkerRequest),
    Move { notice: Option<AppEventView>, to: Destination, po_number: Option<Seq<char>> },
    Finish(AppEventView),
}

impl View for WorkerOutcome {
    type V = WorkerOutcomeView;

    open spec fn view(&self) -> WorkerOutcomeView {
        match self {
            WorkerOutcome::Access(b) => WorkerOutcomeView::Access(*b),
            WorkerOutcome::Pipeline(r) => WorkerOutcomeView::Pipeline(id_result_view(*r)),
            WorkerOutcome::Moved { po_number, destination } => WorkerOutcomeView::Moved {
                po_number: opt_view(*po_number),
                destination: text_result_view(*destination),
            },
        }
    }
}

impl View for WorkerStep {
    type V = WorkerStepView;

    open spec fn view(&self) -> WorkerStepView {
        match self {
            WorkerStep::Perform(q) => WorkerStepView::Perform(*q),
            WorkerStep::Move { notice, to, po_number } => WorkerStepView::Move {
                notice: match notice {
                    Some(e) => Some(e@),
                    None => None,
                },
                to: *to,
                po_number: opt_view(*po_number),
            },
            WorkerStep::Finish(e) => WorkerStepView::Finish(e@),
        }
    }
}

pub open spec fn worker_outcome_view(o: Option<WorkerOutcome>) -> Option<WorkerOutcomeView> {
    match o {
        Some(x) => Some(x@),
        None => None,
    }
}

/// One step of the worker for the image at `path`: wait for the file; an
/// inaccessible file is reported and left alone; otherwise run the pipeline,
/// file the image under `wavesfinished` when an identifier was found and
/// under `UncapturedPO` when none was (a pipeline failure is reported first
/// and counts as none), and finally report where the file ended up.
pub open spec fn worker_step_spec(path: Seq<char>, outcome: Option<WorkerOutcomeView>) -> WorkerStepView {
    match outcome {
        None => WorkerStepView::Perform(WorkerRequest::WaitForAccess),
        Some(WorkerOutcomeView::Access(false)) => WorkerStepView::Finish(
            AppEventView::Log(access_failed_message(path)),
        ),
        Some(WorkerOutcomeView::Access(true)) => WorkerStepView::Perform(WorkerRequest::RunPipeline),
        Some(WorkerOutcomeView::Pipeline(Err(e))) => WorkerStepView::Move {
            notice: Some(AppEventView::Log(processing_error_message(path, e))),
            to: Destination::Uncaptured,
            po_number: None,
        },
        Some(WorkerOutcomeView::Pipeline(Ok(po))) => WorkerStepView::Move {
            notice: None,
            to: if po is Some { Destination::Finished } else { Destination::Uncaptured },
            po_number: po,
        },
        Some(WorkerOutcomeView::Moved { po_number, destination }) => WorkerStepView::Finish(
            AppEventView::ProcessingDone { source: path, po_number, destination },
        ),
    }
}

/// The window's background processing of one detected image, one step at a time.
pub fn worker_step(path: &str, outcome: Option<WorkerOutcome>) -> (step: WorkerStep)
    ensures
        step@ == worker_step_spec(path@, worker_outcome_view(outcome)),
        outcome matches Some(WorkerOutcome::Pipeline(Ok(Some(id)))) ==> step@ == (WorkerStepView::Move {
            notice: None,
            to: Destination::Finished,
            po_number: Some(id@),
        }),
        outcome matches Some(WorkerOutcome::Pipeline(Ok(None))) ==> step@ == (WorkerStepView::Move {
            notice: None,
            to: Destination::Uncaptured,
            po_number: None,
        }),
{
    match outcome {
        None => WorkerStep::Perform(WorkerRequest::WaitForAccess),
        Some(WorkerOutcome::Access(accessible)) => {
            if accessible {
                WorkerStep::Perform(WorkerRequest::RunPipeline)
            } else {
                WorkerStep::Finish(access_failed_event(path))
            }
        },
        Some(WorkerOutcome::Pipeline(Err(e))) => WorkerStep::Move {
            notice: Some(processing_error_event(path, e.as_str())),
            to: Destination::Uncaptured,
            po_number: None,
        },
        Some(WorkerOutcome::Pipeline(Ok(po))) => {
            let to = destination_for(&po);
            WorkerStep::Move { notice: None, to, po_number: po }
        },
        Some(WorkerOutcome::Moved { po_number, destination }) => WorkerStep::Finish(
            AppEvent::ProcessingDone { source: String::from_str(path), po_number, destination },
        ),
    }
}

/// Whatever identifier the pipeline found (a PO number or a raw barcode text)
/// files the image under `wavesfinished` with exactly that identifier; no
/// identifier files it under `UncapturedPO` without one.
pub proof fn lemma_worker_keeps_identifier(path: Seq<char>, id: Seq<char>)
    ensures
        worker_step_spec(path, Some(WorkerOutcomeView::Pipeline(Ok(Some(id)))))
            == (WorkerStepView::Move { notice: None, to: Destination::Finished, po_number: Some(id) }),
        worker_step_spec(path, Some(WorkerOutcomeView::Pipeline(Ok(None)))) == (WorkerStepView::Move {
            notice: None,
            to: Destination::Uncaptured,
            po_number: None,
        }),
{
}

/// Every image the worker gets past the access check ends in exactly one
/// `ProcessingDone` report, with the identifier it was filed under; the image
/// is filed under `wavesfinished` exactly when it has an identifier.
pub proof fn lemma_worker_run(
    path: Seq<char>,
    pipeline: Result<Option<Seq<char>>, Seq<char>>,
    destination: Result<Seq<char>, Seq<char>>,
)
    ensures
        worker_step_spec(path, None) == WorkerStepView::Perform(WorkerRequest::WaitForAccess),
        worker_step_spec(path, Some(WorkerOutcomeView::Access(false))) is Finish,
        worker_step_spec(path, Some(WorkerOutcomeView::Access(true))) == WorkerStepView::Perform(
            WorkerRequest::RunPipeline,
        ),
        ({
            let s = worker_step_spec(path, Some(WorkerOutcomeView::Pipeline(pipeline)));
            &&& s is Move
            &&& (s->to == Destination::Finished <==> s->po_number is Some)
            &&& worker_step_spec(
                path,
                Some(WorkerOutcomeView::Moved { po_number: s->po_number, destination }),
            ) == WorkerStepView::Finish(
                AppEventView::ProcessingDone { source: path, po_number: s->po_number, destination },
            )
        }),
{
}

} // verus!
