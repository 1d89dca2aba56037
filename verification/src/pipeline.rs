use vstd::prelude::*;

use crate::mode::ScanMode;
use crate::text::opt_view;
use crate::po::{
    best_identifier, extract_po_number, has_po_digits, identifier_for, occurs_in, po_number_in,
    po_shaped, regex_compiles, PO_NUMBER_PATTERN,
};

verus! {

/// Outside work that the extraction pipeline asks its caller to perform.
#[derive(Clone, Copy, Debug, PartialEq, Eq, Structural)]
pub enum ScanRequest {
    /// Decode a barcode / QR code from the image.
    ReadBarcode,
    /// Run OCR on the image.
    RunOcr,
}

/// What the caller's outside work produced.
#[derive(Debug)]
pub enum ScanOutcome {
    /// The barcode reader: `Ok(None)` when no barcode was found,
    /// `Err(message)` when the image could not be handed to the reader.
    Barcode(Result<Option<String>, String>),
    /// The OCR run: the recognised text, or the failure message.
    Ocr(Result<String, String>),
}

/// The next step of the pipeline.
#[derive(Debug)]
pub enum ScanStep {
    /// Perform this work and call the pipeline again with its outcome.
    Perform(ScanRequest),
    /// The pipeline is done: the identifier found (if any), or an error.
    Finished(Result<Option<String>, String>),
}

pub enum ScanOutcomeView {
    Barcode(Result<Option<Seq<char>>, Seq<char>>),
    Ocr(Result<Seq<char>, Seq<char>>),
}

pub enum ScanStepView {
    Perform(ScanRequest),
    Finished(Result<Option<Seq<char>>, Seq<char>>),
}

pub open spec fn id_result_view(r: Result<Option<String>, String>) -> Result<Option<Seq<char>>, Seq<char>> {
    match r {
        Ok(o) => Ok(opt_view(o)),
        Err(e) => Err(e@),
    }
}

pub open spec fn text_result_view(r: Result<String, String>) -> Result<Seq<char>, Seq<char>> {
    match r {
        Ok(t) => Ok(t@),
        Err(e) => Err(e@),
    }
}

impl View for ScanOutcome {
    type V = ScanOutcomeView;

    open spec fn view(&self) -> ScanOutcomeView {
        match self {
            ScanOutcome::Barcode(r) => ScanOutcomeView::Barcode(id_result_view(*r)),
            ScanOutcome::Ocr(r) => ScanOutcomeView::Ocr(text_result_view(*r)),
        }
    }
}

impl View for ScanStep {
    type V = ScanStepView;

    open spec fn view(&self) -> ScanStepView {
        match self {
            ScanStep::Perform(q) => ScanStepView::Perform(*q),
            ScanStep::Finished(r) => ScanStepView::Finished(id_result_view(*r)),
        }
    }
}

pub open spec fn outcome_view(o: Option<ScanOutcome>) -> Option<ScanOutcomeView> {
    match o {
        Some(x) => Some(x@),
        None => None,
    }
}

/// The identifier kept for a barcode reading.
pub open spec fn barcode_identifier(raw: Option<Seq<char>>) -> Option<Seq<char>> {
    match raw {
        Some(r) => Some(identifier_for(r)),
        None => None,
    }
}

/// The result kept for an OCR run.
pub open spec fn ocr_result(r: Result<Seq<char>, Seq<char>>) -> Result<Option<Seq<char>>, Seq<char>> {
    match r {
        Ok(text) => Ok(po_number_in(text)),
        Err(e) => Err(e),
    }
}

/// One step of the pipeline: from the mode and the outcome of the last piece
/// of outside work (`None` at the start) to the next request or the result.
pub open spec fn process_step(mode: ScanMode, outcome: Option<ScanOutcomeView>) -> ScanStepView {
    match outcome {
        None => match mode {
            ScanMode::OcrOnly => ScanStepView::Perform(ScanRequest::RunOcr),
            _ => ScanStepView::Perform(ScanRequest::ReadBarcode),
        },
        Some(ScanOutcomeView::Barcode(r)) => match mode {
            ScanMode::BarcodeOnly => ScanStepView::Finished(
                match r {
                    Ok(raw) => Ok(barcode_identifier(raw)),
                    Err(e) => Err(e),
                },
            ),
            ScanMode::Auto => match r {
                Ok(Some(raw)) => ScanStepView::Finished(Ok(Some(identifier_for(raw)))),
                _ => ScanStepView::Perform(ScanRequest::RunOcr),
            },
            ScanMode::OcrOnly => ScanStepView::Perform(ScanRequest::RunOcr),
        },
        Some(ScanOutcomeView::Ocr(r)) => ScanStepView::Finished(ocr_result(r)),
    }
}

/// Run the extraction pipeline for one image, one step at a time.
///
/// Start with `outcome == None`; while the answer is `Perform(request)`, do the
/// requested work and call again with its outcome. The final answer is the
/// best identifier found (the PO number if the pattern matches, otherwise the
/// raw barcode value), `None` if nothing was found, or the error that stopped it.
pub fn process_image(mode: ScanMode, outcome: Option<ScanOutcome>) -> (step: ScanStep)
    ensures
        step@ == process_step(mode, outcome_view(outcome)),
        step matches ScanStep::Finished(Ok(Some(id))) ==> match outcome {
            Some(ScanOutcome::Barcode(Ok(Some(raw)))) => occurs_in(id@, raw@) && ((
            regex_compiles(PO_NUMBER_PATTERN@) && has_po_digits(raw@)) ==> po_shaped(id@)),
            Some(ScanOutcome::Ocr(Ok(text))) => occurs_in(id@, text@) && po_shaped(id@),
            _ => false,
        },
        outcome matches Some(ScanOutcome::Barcode(Ok(Some(raw)))) ==> (mode != ScanMode::OcrOnly
            ==> (step matches ScanStep::Finished(Ok(Some(id))) && (po_number_in(raw@) is None
            ==> id@ == raw@) && (po_number_in(raw@) matches Some(po) ==> id@ == po))),
        outcome matches Some(ScanOutcome::Ocr(Ok(text))) ==> (step matches ScanStep::Finished(
            Ok(found),
        ) && opt_view(found) == po_number_in(text@)),
{
    match outcome {
        None => match mode {
            ScanMode::OcrOnly => ScanStep::Perform(ScanRequest::RunOcr),
            _ => ScanStep::Perform(ScanRequest::ReadBarcode),
        },
        Some(ScanOutcome::Barcode(r)) => match mode {
            ScanMode::BarcodeOnly => match r {
                Ok(Some(raw)) => ScanStep::Finished(Ok(Some(best_identifier(raw)))),
                Ok(None) => ScanStep::Finished(Ok(None)),
                Err(e) => ScanStep::Finished(Err(e)),
            },
            ScanMode::Auto => match r {
                Ok(Some(raw)) => ScanStep::Finished(Ok(Some(best_identifier(raw)))),
                _ => ScanStep::Perform(ScanRequest::RunOcr),
            },
            ScanMode::OcrOnly => ScanStep::Perform(ScanRequest::RunOcr),
        },
        Some(ScanOutcome::Ocr(r)) => match r {
            Ok(text) => ScanStep::Finished(Ok(extract_po_number(text.as_str()))),
            Err(e) => ScanStep::Finished(Err(e)),
        },
    }
}

/// The answer that the outside work gives to a request, given what the barcode
/// reader and the OCR run produce for this image.
pub open spec fn answer(
    request: ScanRequest,
    barcode: Result<Option<Seq<char>>, Seq<char>>,
    ocr: Result<Seq<char>, Seq<char>>,
) -> ScanOutcomeView {
    match request {
        ScanRequest::ReadBarcode => ScanOutcomeView::Barcode(barcode),
        ScanRequest::RunOcr => ScanOutcomeView::Ocr(ocr),
    }
}

/// What the whole pipeline computes for an image, given what the barcode
/// reader and the OCR run produce for it.
pub open spec fn pipeline_result(
    mode: ScanMode,
    barcode: Result<Option<Seq<char>>, Seq<char>>,
    ocr: Result<Seq<char>, Seq<char>>,
) -> Result<Option<Seq<char>>, Seq<char>> {
    match mode {
        ScanMode::BarcodeOnly => match barcode {
            Ok(raw) => Ok(barcode_identifier(raw)),
            Err(e) => Err(e),
        },
        ScanMode::OcrOnly => ocr_result(ocr),
        ScanMode::Auto => match barcode {
            Ok(Some(raw)) => Ok(Some(identifier_for(raw))),
            _ => ocr_result(ocr),
        },
    }
}

/// Driving the steps from the start, answering each request with what the
/// barcode reader and the OCR run produce, finishes after at most two requests
/// with `pipeline_result`.
pub proof fn lemma_pipeline_run(
    mode: ScanMode,
    barcode: Result<Option<Seq<char>>, Seq<char>>,
    ocr: Result<Seq<char>, Seq<char>>,
)
    ensures
        ({
            let s0 = process_step(mode, None);
            &&& s0 is Perform
            &&& {
                let s1 = process_step(mode, Some(answer(s0->Perform_0, barcode, ocr)));
                match s1 {
                    ScanStepView::Finished(r) => r == pipeline_result(mode, barcode, ocr),
                    ScanStepView::Perform(q) => process_step(
                        mode,
                        Some(answer(q, barcode, ocr)),
                    ) == ScanStepView::Finished(pipeline_result(mode, barcode, ocr)),
                }
            }
        }),
{
}

/// A decoded barcode ends Barcode-only and Auto runs with an identifier: the PO
/// number found in its text, or the raw text itself when it holds none; OCR
/// text ends a run with the PO number found in the whole text (if any).
pub proof fn lemma_identifier_of_a_reading(mode: ScanMode, raw: Seq<char>, text: Seq<char>)
    ensures
        mode != ScanMode::OcrOnly ==> process_step(
            mode,
            Some(ScanOutcomeView::Barcode(Ok(Some(raw)))),
        ) == ScanStepView::Finished(
            Ok(
                Some(
                    match po_number_in(raw) {
                        Some(po) => po,
                        None => raw,
                    },
                ),
            ),
        ),
        process_step(mode, Some(ScanOutcomeView::Ocr(Ok(text)))) == ScanStepView::Finished(
            Ok(po_number_in(text)),
        ),
{
}

/// Barcode-only mode never asks for OCR, and OCR-only mode never asks for a barcode.
pub proof fn lemma_modes_keep_to_their_tools(outcome: Option<ScanOutcomeView>)
    ensures
        process_step(ScanMode::BarcodeOnly, outcome) != ScanStepView::Perform(ScanRequest::RunOcr),
        process_step(ScanMode::OcrOnly, outcome) != ScanStepView::Perform(ScanRequest::ReadBarcode),
{
}

/// In Auto mode a decoded barcode ends the pipeline without OCR, and anything
/// else (no barcode, or a reader error) falls back to OCR.
pub proof fn lemma_auto_falls_back_to_ocr(barcode: Result<Option<Seq<char>>, Seq<char>>)
    ensures
        process_step(ScanMode::Auto, Some(ScanOutcomeView::Barcode(barcode)))
            == (match barcode {
            Ok(Some(raw)) => ScanStepView::Finished(Ok(Some(identifier_for(raw)))),
            _ => ScanStepView::Perform(ScanRequest::RunOcr),
        }),
{
}

} // verus!
