use vstd::prelude::*;

verus! {

/// The value a piece of text denotes when read as one JSON string literal:
/// `Some` of the decoded characters when the text is exactly a valid JSON
/// string, `None` otherwise. The JSON grammar (quoting, escapes, surrogate
/// pairs) is left to the decoder; this name only fixes that the outcome is a
/// function of the text alone.
pub uninterp spec fn json_string_value(s: Seq<char>) -> Option<Seq<char>>;

/// Relies on `serde_json::from_str::<String>`: it decodes text that is one
/// JSON string literal (possibly surrounded by JSON whitespace) and rejects
/// everything else, and the outcome depends on the input text alone. The
/// error case carries serde_json's own description of the failure.
#[verifier::external_body]
pub(crate) fn parse_json_string(s: &str) -> (r: Result<String, String>)
    ensures
        r is Ok <==> json_string_value(s@) is Some,
        r is Ok ==> r->Ok_0@ == json_string_value(s@)->0,
{
    match serde_json::from_str::<String>(s) {
        Ok(v) => Ok(v),
        Err(e) => Err(format!("{e}")),
    }
}

} // verus!
