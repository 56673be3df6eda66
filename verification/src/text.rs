//! UTF-8 text: decoding caller bytes and building messages.

use vstd::prelude::*;
use vstd::string::*;
use vstd::utf8::*;

verus! {

/// The message of the `Utf8Error` that `std::str::from_utf8` reports for
/// `bytes`; it names the offending position, so it depends on the bytes alone.
pub uninterp spec fn utf8_error_message(bytes: Seq<u8>) -> Seq<char>;

/// Calls `std::str::from_utf8` and renders its error with `to_string`.
/// Trusted: std documents that `from_utf8` succeeds exactly on well-formed
/// UTF-8 (no overlong forms, no surrogates) and then yields the decoded text;
/// the wording of the error message is only named.
#[verifier::external_body]
pub fn utf8_str(bytes: &[u8]) -> (res: Result<&str, String>)
    ensures
        match res {
            Ok(s) => valid_utf8(bytes@) && s@ == decode_utf8(bytes@),
            Err(message) => !valid_utf8(bytes@) && message@ == utf8_error_message(bytes@),
        },
{
    std::str::from_utf8(bytes).map_err(|error| error.to_string())
}

/// The text that `String::from_utf8_lossy` makes of `bytes`: every maximal
/// ill-formed subsequence becomes U+FFFD.
pub uninterp spec fn lossy_utf8(bytes: Seq<u8>) -> Seq<char>;

/// Calls `String::from_utf8_lossy` and takes ownership of the result.
/// Trusted: std documents that well-formed input is decoded unchanged; what
/// the replacement of ill-formed input yields is only named.
#[verifier::external_body]
pub fn utf8_lossy(bytes: &[u8]) -> (text: String)
    ensures
        text@ == lossy_utf8(bytes@),
        valid_utf8(bytes@) ==> text@ == decode_utf8(bytes@),
{
    String::from_utf8_lossy(bytes).into_owned()
}

/// `prefix` followed by `detail`, as a new string.
pub fn join_message(prefix: &str, detail: &str) -> (message: String)
    ensures
        message@ == prefix@ + detail@,
{
    let mut message = String::from_str(prefix);
    message.append(detail);
    message
}

/// A message made of a literal text.
pub fn message(text: &str) -> (message: String)
    ensures
        message@ == text@,
{
    String::from_str(text)
}

} // verus!
