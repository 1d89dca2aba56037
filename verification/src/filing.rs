use vstd::prelude::*;

use crate::po::{
    extract_po_number, has_po_digits, occurs_in, po_number_in, regex_compiles, PO_NUMBER_PATTERN,
};
use crate::pipeline::text_result_view;
use crate::text::opt_view;

verus! {

/// Where a processed file is filed.
#[derive(Clone, Copy, Debug, PartialEq, Eq, Structural)]
pub enum Destination {
    /// `wavesfinished`: an identifier was found.
    Finished,
    /// `wavesfinished/UncapturedPO`: no identifier was found.
    Uncaptured,
}

/// The directory for a file, given the identifier found for it (if any).
pub fn destination_for(po_number: &Option<String>) -> (d: Destination)
    ensures
        d == (if po_number is Some { Destination::Finished } else { Destination::Uncaptured }),
{
    match po_number {
        Some(_) => Destination::Finished,
        None => Destination::Uncaptured,
    }
}

/// Outside work needed while handling a new file in the command-line watcher.
#[derive(Clone, Copy, Debug, PartialEq, Eq, Structural)]
pub enum FileRequest {
    /// Pause, then wait until the file can be opened for writing.
    WaitForAccess,
    /// Run OCR on the file.
    RunOcr,
}

/// What that work produced.
#[derive(Debug)]
pub enum FileOutcome {
    /// Whether the file became accessible.
    Access(bool),
    /// The recognised text, or why OCR failed.
    Ocr(Result<String, String>),
}

/// Why a file is left where it is.
#[derive(Clone, Copy, Debug, PartialEq, Eq, Structural)]
pub enum StopReason {
    /// The file never became accessible.
    Inaccessible,
    /// The file is not a PNG image.
    NotPng,
}

/// The next step in handling a new file.
#[derive(Debug)]
pub enum FileStep {
    Perform(FileRequest),
    /// Leave the file alone.
    Stop(StopReason),
    /// Move the file to `to`, named after `po_number` when there is one.
    Move { to: Destination, po_number: Option<String> },
}

pub enum FileOutcomeView {
    Access(bool),
    Ocr(Result<Seq<char>, Seq<char>>),
}

pub enum FileStepView {
    Perform(FileRequest),
    Stop(StopReason),
    Move { to: Destination, po_number: Option<Seq<char>> },
}

impl View for FileOutcome {
    type V = FileOutcomeView;

    open spec fn view(&self) -> FileOutcomeView {
        match self {
            FileOutcome::Access(b) => FileOutcomeView::Access(*b),
            FileOutcome::Ocr(r) => FileOutcomeView::Ocr(text_result_view(*r)),
        }
    }
}

impl View for FileStep {
    type V = FileStepView;

    open spec fn view(&self) -> FileStepView {
        match self {
            FileStep::Perform(q) => FileStepView::Perform(*q),
            FileStep::Stop(r) => FileStepView::Stop(*r),
            FileStep::Move { to, po_number } => FileStepView::Move {
                to: *to,
                po_number: opt_view(*po_number),
            },
        }
    }
}

pub open spec fn file_outcome_view(o: Option<FileOutcome>) -> Option<FileOutcomeView> {
    match o {
        Some(x) => Some(x@),
        None => None,
    }
}

/// Where a file goes once its OCR text (or OCR failure) is known.
pub open spec fn placement_after_ocr(ocr: Result<Seq<char>, Seq<char>>) -> FileStepView {
    match ocr {
        Err(_) => FileStepView::Move { to: Destination::Uncaptured, po_number: None },
        Ok(text) => match po_number_in(text) {
            Some(po) => FileStepView::Move { to: Destination::Finished, po_number: Some(po) },
            None => FileStepView::Move { to: Destination::Uncaptured, po_number: None },
        },
    }
}

/// One step in handling a new file: `is_png` says whether its extension marks a PNG image.
pub open spec fn file_step(is_png: bool, outcome: Option<FileOutcomeView>) -> FileStepView {
    match outcome {
        None => FileStepView::Perform(FileRequest::WaitForAccess),
        Some(FileOutcomeView::Access(false)) => FileStepView::Stop(StopReason::Inaccessible),
        Some(FileOutcomeView::Access(true)) => if is_png {
            FileStepView::Perform(FileRequest::RunOcr)
        } else {
            FileStepView::Stop(StopReason::NotPng)
        },
        Some(FileOutcomeView::Ocr(r)) => placement_after_ocr(r),
    }
}

/// Core processing logic for a single newly created file, one step at a time:
/// wait until the file is accessible, skip anything but PNG images, run OCR,
/// then file the image under `wavesfinished` with the PO number found, or
/// under `wavesfinished/UncapturedPO` when OCR failed or found none.
pub fn process_file(is_png: bool, outcome: Option<FileOutcome>) -> (step: FileStep)
    ensures
        step@ == file_step(is_png, file_outcome_view(outcome)),
        step matches FileStep::Move { po_number: Some(po), .. } ==> (outcome matches Some(
            FileOutcome::Ocr(Ok(text)),
        ) && occurs_in(po@, text@)),
        outcome matches Some(FileOutcome::Ocr(Ok(text))) ==> (step matches FileStep::Move {
            to,
            po_number,
        } && opt_view(po_number) == po_number_in(text@) && (to == Destination::Finished
            <==> po_number is Some)),
        outcome matches Some(FileOutcome::Ocr(Ok(text))) ==> ((regex_compiles(PO_NUMBER_PATTERN@)
            && has_po_digits(text@)) ==> (step matches FileStep::Move { to, .. } && to
            == Destination::Finished)),
{
    match outcome {
        None => FileStep::Perform(FileRequest::WaitForAccess),
        Some(FileOutcome::Access(accessible)) => {
            if !accessible {
                FileStep::Stop(StopReason::Inaccessible)
            } else if is_png {
                FileStep::Perform(FileRequest::RunOcr)
            } else {
                FileStep::Stop(StopReason::NotPng)
            }
        },
        Some(FileOutcome::Ocr(Err(_))) => FileStep::Move { to: Destination::Uncaptured, po_number: None },
        Some(FileOutcome::Ocr(Ok(text))) => {
            let po = extract_po_number(text.as_str());
            let to = destination_for(&po);
            FileStep::Move { to, po_number: po }
        },
    }
}

/// A file is filed under `wavesfinished` exactly when it is moved with a PO
/// number, and only PNG images that became accessible are ever moved.
pub proof fn lemma_filing_rules(is_png: bool, outcome: Option<FileOutcomeView>)
    ensures
        file_step(is_png, outcome) matches FileStepView::Move { to, po_number } ==> (
        to == Destination::Finished <==> po_number is Some),
        outcome matches Some(FileOutcomeView::Access(b)) ==> (file_step(is_png, outcome) is Perform
            <==> b && is_png),
{
}

/// OCR text files an image by the PO number found in the whole text: under
/// `wavesfinished` with that number when there is one, under `UncapturedPO`
/// without a number otherwise; a failed OCR run counts as no number.
pub proof fn lemma_placed_by_whole_text(is_png: bool, text: Seq<char>, err: Seq<char>)
    ensures
        file_step(is_png, Some(FileOutcomeView::Ocr(Ok(text)))) == (match po_number_in(text) {
            Some(po) => FileStepView::Move { to: Destination::Finished, po_number: Some(po) },
            None => FileStepView::Move { to: Destination::Uncaptured, po_number: None },
        }),
        file_step(is_png, Some(FileOutcomeView::Ocr(Err(err)))) == (FileStepView::Move {
            to: Destination::Uncaptured,
            po_number: None,
        }),
{
}

/// Driving the steps from the start with the file's accessibility and its OCR
/// result: an inaccessible file or a non-PNG file stops after the first
/// request; a PNG file that became accessible is placed by its OCR result.
pub proof fn lemma_file_run(is_png: bool, accessible: bool, ocr: Result<Seq<char>, Seq<char>>)
    ensures
        file_step(is_png, None) == FileStepView::Perform(FileRequest::WaitForAccess),
        ({
            let s1 = file_step(is_png, Some(FileOutcomeView::Access(accessible)));
            if !accessible {
                s1 == FileStepView::Stop(StopReason::Inaccessible)
            } else if !is_png {
                s1 == FileStepView::Stop(StopReason::NotPng)
            } else {
                &&& s1 == FileStepView::Perform(FileRequest::RunOcr)
                &&& file_step(is_png, Some(FileOutcomeView::Ocr(ocr))) == placement_after_ocr(ocr)
            }
        }),
{
}

} // verus!
