//! The two codecs that the mapping leans on and does not implement: the JSON
//! reader of `serde_json` and the base64 encoder of `base64`. What they
//! return is named here and believed, not proved.

use crate::views::opt_view;
use vstd::prelude::*;

verus! {

/// What `serde_json` makes of `text` read as one JSON value: `None` where the
/// text is well formed, else the diagnostic that it reports.
pub uninterp spec fn json_diagnosis(text: Seq<char>) -> Option<Seq<char>>;

/// Calls `serde_json::from_str` to read `text` as a `serde_json::Value`. The
/// value is dropped. Where reading fails, the result is the error as
/// `serde_json::Error` displays it. The contract claims that this outcome is
/// a function of the text alone, and gives it the name `json_diagnosis`.
#[verifier::external_body]
pub(crate) fn diagnose_json(text: &str) -> (r: Option<String>)
    ensures
        opt_view(r) == json_diagnosis(text@),
{
    match serde_json::from_str::<serde_json::Value>(text) {
        Ok(_) => None,
        Err(err) => Some(err.to_string()),
    }
}

/// The base64 text of `data` in the standard alphabet, padded with `=`.
pub uninterp spec fn base64_standard(data: Seq<u8>) -> Seq<char>;

/// Whether the base64 text of `len` bytes has a length that the machine can
/// hold: four characters for every three bytes begun.
pub open spec fn base64_fits(len: nat) -> bool {
    (len + 2) / 3 * 4 <= usize::MAX
}

/// Whether `len` bytes can be encoded.
pub fn fits_base64(len: usize) -> (r: bool)
    ensures
        r == base64_fits(len as nat),
{
    len <= usize::MAX - 2 && (len + 2) / 3 <= usize::MAX / 4
}

/// Calls `encode` of `base64::engine::general_purpose::STANDARD`. That
/// function panics where the length of its output overflows `usize`, which
/// `requires` leaves out. The contract claims that the text returned is a
/// function of the bytes alone, and gives it the name `base64_standard`.
#[verifier::external_body]
pub(crate) fn encode_base64(data: &Vec<u8>) -> (r: String)
    requires
        base64_fits(data@.len()),
    ensures
        r@ == base64_standard(data@),
{
    base64::Engine::encode(&base64::engine::general_purpose::STANDARD, data)
}

} // verus!
