use vstd::prelude::*;

verus! {

/// How to extract an identifier from a scanned image.
#[derive(Clone, Copy, Debug, PartialEq, Eq, Structural)]
pub enum ScanMode {
    /// Try barcode first; fall back to OCR if no barcode is found.
    Auto,
    /// Tesseract OCR only: searches the text for a PO-number pattern.
    OcrOnly,
    /// Barcode / QR-code only.
    BarcodeOnly,
}

/// The text shown for each mode in the mode selector.
pub open spec fn label_text(mode: ScanMode) -> Seq<char> {
    match mode {
        ScanMode::Auto => "Auto (barcode → OCR)"@,
        ScanMode::OcrOnly => "OCR only"@,
        ScanMode::BarcodeOnly => "Barcode only"@,
    }
}

impl ScanMode {
    /// Every mode, in the order the selector lists them.
    pub const ALL: [ScanMode; 3] = [ScanMode::Auto, ScanMode::OcrOnly, ScanMode::BarcodeOnly];

    pub fn label(self) -> (s: &'static str)
        ensures
            s@ == label_text(self),
    {
        match self {
            ScanMode::Auto => "Auto (barcode → OCR)",
            ScanMode::OcrOnly => "OCR only",
            ScanMode::BarcodeOnly => "Barcode only",
        }
    }
}

/// Two different modes never share a label, so the selector can tell them apart.
pub proof fn lemma_labels_distinct(a: ScanMode, b: ScanMode)
    requires
        a != b,
    ensures
        label_text(a) != label_text(b),
{
    reveal_strlit("Auto (barcode → OCR)");
    reveal_strlit("OCR only");
    reveal_strlit("Barcode only");
    assert("Auto (barcode → OCR)"@.len() == 20);
    assert("OCR only"@.len() == 8);
    assert("Barcode only"@.len() == 12);
}

/// `ALL` lists each mode exactly once.
pub proof fn lemma_all_lists_every_mode_once(m: ScanMode)
    ensures
        exists|i: int| 0 <= i < 3 && #[trigger] ScanMode::ALL@[i] == m,
        forall|i: int, j: int| 0 <= i < j < 3 ==> ScanMode::ALL@[i] != ScanMode::ALL@[j],
{
    match m {
        ScanMode::Auto => assert(ScanMode::ALL@[0] == m),
        ScanMode::OcrOnly => assert(ScanMode::ALL@[1] == m),
        ScanMode::BarcodeOnly => assert(ScanMode::ALL@[2] == m),
    }
}

} // verus!
