//! Encodings that outside crates compute: percent-encoding for addresses,
//! base64 for credentials, and the text of a status code.

use vstd::prelude::*;
use crate::text::{concat2, decimal, decimal_text};

verus! {

/// A text with every byte of its UTF-8 form percent-encoded except letters,
/// digits, `-`, `_`, `.` and `~`.
pub uninterp spec fn percent_encoded(text: Seq<char>) -> Seq<char>;

/// The base64 form, in the standard alphabet and padded, of the UTF-8 bytes
/// of a text.
pub uninterp spec fn base64_text(text: Seq<char>) -> Seq<char>;

/// A status code followed by its canonical reason, as in `404 Not Found`,
/// or by a placeholder where the code has no canonical reason.
pub uninterp spec fn status_line(code: u16) -> Seq<char>;

/// Calls `urlencoding::encode`. The contract names the encoded text and
/// claims that it depends on the input alone.
#[verifier::external_body]
fn urlencoding_encode(text: &str) -> (encoded: String)
    ensures
        encoded@ == percent_encoded(text@),
{
    urlencoding::encode(text).into_owned()
}

/// Calls `encode` of base64's `STANDARD` engine on the bytes of `text`. The
/// contract names the encoded text and claims that it depends on the input
/// alone. The outside function gives up on an input whose encoded length
/// does not fit in `usize`, which starts in the top quarter of that range;
/// no string slice is that long.
#[verifier::external_body]
fn base64_encode(text: &str) -> (encoded: String)
    ensures
        encoded@ == base64_text(text@),
{
    base64::Engine::encode(&base64::engine::general_purpose::STANDARD, text)
}

/// Calls `StatusCode::from_u16`, which takes the codes from 100 to 999, and
/// renders the status with `to_string`. The contract names the text and
/// claims that it depends on the code alone.
#[verifier::external_body]
fn render_status(code: u16) -> (line: Option<String>)
    ensures
        line is Some <==> 100 <= code <= 999,
        line matches Some(text) ==> text@ == status_line(code),
{
    reqwest::StatusCode::from_u16(code).ok().map(|status| status.to_string())
}

/// Percent-encodes a text for use in the path of an address.
pub fn percent_encode(text: &str) -> (encoded: String)
    ensures
        encoded@ == percent_encoded(text@),
{
    urlencoding_encode(text)
}

/// The value of an `Authorization` header that presents `password` with an
/// empty user name.
pub open spec fn basic_auth_text(password: Seq<char>) -> Seq<char> {
    "Basic "@ + base64_text(":"@ + password)
}

/// Builds the value of an `Authorization` header that presents `password`
/// with an empty user name.
pub fn basic_auth(password: &str) -> (header: String)
    ensures
        header@ == basic_auth_text(password@),
{
    let credentials = concat2(":", password);
    let encoded = base64_encode(credentials.as_str());
    concat2("Basic ", encoded.as_str())
}

/// How a status reads in a report: with its canonical reason, or the
/// placeholder for a code without one, where it is a status code proper,
/// from 100 to 999, and as the bare number elsewhere.
pub open spec fn status_text(code: u16) -> Seq<char> {
    if 100 <= code <= 999 {
        status_line(code)
    } else {
        decimal_text(code as nat)
    }
}

/// Renders a status for a report.
pub fn describe_status(code: u16) -> (text: String)
    ensures
        text@ == status_text(code),
{
    match render_status(code) {
        Some(line) => line,
        None => decimal(code as u64),
    }
}

} // verus!
