//! JSON text of plain values, as the wire protocol writes it.

use vstd::prelude::*;

verus! {

/// `serde_json::Error`, the error of a JSON serialisation or parse.
#[verifier::external_type_specification]
#[verifier::external_body]
pub struct ExJsonError(serde_json::Error);

/// The JSON string literal that `serde_json` writes for the text `s`
/// (surrounding quotes, with `"`, `\` and control characters escaped).
pub uninterp spec fn json_str(s: Seq<char>) -> Seq<char>;

/// True when no character of `s` is one that a JSON string literal escapes:
/// a quote, a backslash, or a control character below U+0020.
pub open spec fn json_plain(s: Seq<char>) -> bool {
    forall|i: int| 0 <= i < s.len() ==> {
        &&& #[trigger] s[i] != '"'
        &&& s[i] != '\\'
        &&& (s[i] as u32) >= 0x20
    }
}

/// Calls `serde_json::to_string` on a string slice. The contract claims that
/// the call succeeds (a `&str` is written into a `Vec<u8>`, whose writes do
/// not fail), that the text is `json_str(s)`, and that a text with nothing to
/// escape comes out between two quotes, unchanged.
#[verifier::external_body]
pub(crate) fn json_string(s: &str) -> (res: Result<String, serde_json::Error>)
    ensures
        res is Ok,
        res matches Ok(t) ==> t@ == json_str(s@),
        res matches Ok(t) ==> (json_plain(s@) ==> t@ == seq!['"'] + s@ + seq!['"']),
{
    serde_json::to_string(s)
}

} // verus!
