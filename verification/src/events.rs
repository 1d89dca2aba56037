use vstd::prelude::*;

use crate::text::opt_view;

verus! {

/// Events sent from background work to the front-end.
/// Paths are carried as their text.
#[derive(Debug)]
pub enum AppEvent {
    /// A new PNG appeared in the watched `waves` directory.
    FileDetected(String),
    /// Processing (OCR / barcode) finished for a file.
    ProcessingDone {
        /// Path where the file was detected (it has been moved since; for display only).
        source: String,
        /// Extracted PO number, if any was found.
        po_number: Option<String>,
        /// Where the file ended up, or an error string.
        destination: Result<String, String>,
    },
    /// A hardware scan completed and the image was saved to this path.
    HardwareScanReady(String),
    /// A plain log line to append to the activity log.
    Log(String),
}

pub enum AppEventView {
    FileDetected(Seq<char>),
    ProcessingDone {
        source: Seq<char>,
        po_number: Option<Seq<char>>,
        destination: Result<Seq<char>, Seq<char>>,
    },
    HardwareScanReady(Seq<char>),
    Log(Seq<char>),
}

impl View for AppEvent {
    type V = AppEventView;

    open spec fn view(&self) -> AppEventView {
        match self {
            AppEvent::FileDetected(p) => AppEventView::FileDetected(p@),
            AppEvent::ProcessingDone { source, po_number, destination } => AppEventView::ProcessingDone {
                source: source@,
                po_number: opt_view(*po_number),
                destination: match destination {
                    Ok(d) => Ok(d@),
                    Err(e) => Err(e@),
                },
            },
            AppEvent::HardwareScanReady(p) => AppEventView::HardwareScanReady(p@),
            AppEvent::Log(m) => AppEventView::Log(m@),
        }
    }
}

} // verus!
