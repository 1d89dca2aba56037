use vstd::prelude::*;

use crate::text::opt_view;

verus! {

#[verifier::external_type_specification]
#[verifier::external_body]
pub struct ExRxingExceptions(rxing::Exceptions);

/// The text of the barcode / QR code that `rxing::helpers::detect_in_buffer`
/// decodes from the image file contents `bytes`, or `None` when it reports an error.
pub uninterp spec fn barcode_in(bytes: Seq<u8>) -> Option<Seq<char>>;

/// `rxing::helpers::detect_in_buffer(bytes, None)`, with the decoded text taken
/// from the result.
/// Trusted: the decoded text (or the failure) is whatever rxing computes from
/// the bytes, named by `barcode_in`; nothing more is stated.
#[verifier::external_body]
fn detect_in_buffer(bytes: &[u8]) -> (r: Result<String, rxing::Exceptions>)
    ensures
        r is Ok <==> barcode_in(bytes@) is Some,
        r matches Ok(text) ==> Some(text@) == barcode_in(bytes@),
{
    match rxing::helpers::detect_in_buffer(bytes, None) {
        Ok(result) => Ok(result.getText().to_string()),
        Err(e) => Err(e),
    }
}

/// The barcode text kept from a decoding attempt: any failure of the decoder
/// ("not found" or an unreadable image) counts as no barcode.
pub fn barcode_from_detection(detection: Result<String, rxing::Exceptions>) -> (found: Option<String>)
    ensures
        match detection {
            Ok(text) => found == Some(text),
            Err(_) => found is None,
        },
{
    match detection {
        Ok(text) => Some(text),
        Err(_) => None,
    }
}

/// Decode a barcode or QR code from the contents of an image file.
/// Returns `None` if no barcode is found (not an error).
pub fn decode_barcode(bytes: &[u8]) -> (found: Option<String>)
    ensures
        opt_view(found) == barcode_in(bytes@),
{
    barcode_from_detection(detect_in_buffer(bytes))
}

/// The message when an image path cannot be handed to the decoder.
pub open spec fn non_utf8_path_message() -> Seq<char> {
    "Image path contains non-UTF-8 characters"@
}

/// Attempt to decode a barcode or QR code from an image file: `path_is_utf8`
/// says whether the file's path is valid UTF-8, `contents` holds its bytes
/// (`None` when it could not be read). A non-UTF-8 path is an error; a file
/// that cannot be read, or holds no barcode, gives `Ok(None)`.
pub fn read_barcode(path_is_utf8: bool, contents: Option<Vec<u8>>) -> (r: Result<Option<String>, String>)
    ensures
        !path_is_utf8 ==> (r matches Err(m) && m@ == non_utf8_path_message()),
        path_is_utf8 ==> match contents {
            None => r matches Ok(None),
            Some(bytes) => r matches Ok(found) && opt_view(found) == barcode_in(bytes@),
        },
{
    if !path_is_utf8 {
        return Err(String::from_str("Image path contains non-UTF-8 characters"));
    }
    match contents {
        None => Ok(None),
        Some(bytes) => Ok(decode_barcode(bytes.as_slice())),
    }
}

} // verus!
