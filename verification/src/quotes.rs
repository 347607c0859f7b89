//! Normalization of quote texts fetched from remote quote services.
//!
//! The network fetch itself lives outside the library; what arrives
//! here are the candidate strings read out of the service's payload.

use vstd::prelude::*;
use vstd::string::StringSliceAdditionalSpecFns;

use crate::bytes::{lower_bytes, match_at, match_lower_at};

verus! {

/// Whether a language code names a Chinese locale: it opens with
/// "zh", compared case-insensitively in the ASCII range. Decides
/// which quote service is asked.
pub fn is_chinese_language(language: &str) -> (r: bool)
    ensures
        r == match_at(lower_bytes(language.spec_bytes()), ("zh").spec_bytes(), 0),
{
    let b = language.as_bytes();
    let pat = "zh".as_bytes();
    if pat.len() <= b.len() {
        match_lower_at(b, pat, 0)
    } else {
        false
    }
}

/// The text of `s` without leading and trailing whitespace, as
/// `str::trim` computes it.
pub uninterp spec fn trimmed(s: Seq<char>) -> Seq<char>;

/// Relies on str::trim: the input without leading and trailing
/// whitespace. The result is a subslice of the input, so it is never
/// longer, empty input stays empty, and trimming the result again
/// changes nothing.
#[verifier::external_body]
pub(crate) fn trim_str(s: &str) -> (r: String)
    ensures
        r@ == trimmed(s@),
        r@.len() <= s@.len(),
        s@.len() == 0 ==> r@.len() == 0,
        trimmed(r@) == r@,
{
    s.trim().to_owned()
}

/// A quote candidate after normalization: absent when nothing but
/// whitespace remains, otherwise the trimmed text.
pub open spec fn spec_normalized(s: Seq<char>) -> Option<Seq<char>> {
    if trimmed(s).len() == 0 {
        None
    } else {
        Some(trimmed(s))
    }
}

/// The returned option carries exactly the expected text.
pub open spec fn matches_normalized(r: Option<String>, expected: Option<Seq<char>>) -> bool {
    match (r, expected) {
        (Option::None, Option::None) => true,
        (Option::Some(s), Option::Some(t)) => s@ == t,
        _ => false,
    }
}

/// Trim a candidate quote; a missing or whitespace-only candidate
/// yields nothing. Normalization is idempotent: running the result
/// through it again changes nothing, as the last clause states.
pub fn normalize_quote(value: Option<&str>) -> (r: Option<String>)
    ensures
        value is None ==> r is None,
        value matches Some(v) ==> matches_normalized(r, spec_normalized(v@)),
        value matches Some(v) ==> spec_normalized(trimmed(v@)) == spec_normalized(v@),
{
    match value {
        None => None,
        Some(v) => {
            let text = trim_str(v);
            if text.as_str().is_empty() {
                None
            } else {
                Some(text)
            }
        },
    }
}

/// Pick the quote out of the quote service's payload, given the three
/// places its text may sit: a top-level `q` field, the `q` field of
/// the first entry under `data`, or the `q` field of the first entry
/// of a top-level array. The first place that is present decides,
/// and its text is normalized; a payload with none of them yields
/// nothing.
pub fn extract_viewbits_quote(
    q: Option<&str>,
    data_q: Option<&str>,
    array_q: Option<&str>,
) -> (r: Option<String>)
    ensures
        q matches Some(v) ==> matches_normalized(r, spec_normalized(v@)),
        q is None ==> (data_q matches Some(v) ==> matches_normalized(r, spec_normalized(v@))),
        q is None && data_q is None ==> (array_q matches Some(v) ==> matches_normalized(
            r,
            spec_normalized(v@),
        )),
        q is None && data_q is None && array_q is None ==> r is None,
{
    if let Some(value) = q {
        return normalize_quote(Some(value));
    }
    if let Some(value) = data_q {
        return normalize_quote(Some(value));
    }
    if let Some(value) = array_q {
        return normalize_quote(Some(value));
    }
    None
}

} // verus!
