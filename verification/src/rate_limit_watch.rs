//! Recognising replies that are worth recording while rate-limit behaviour
//! is being studied.
use vstd::prelude::*;

use crate::config::strings_view;
use crate::text::{chars_of, contains, contains_chars, lowercase, str_to_string, to_lowercase};

verus! {

/// The words whose presence makes a reply worth recording, lower case.
pub open spec fn observation_keywords_spec() -> Seq<Seq<char>> {
    seq![
        "error"@,
        "limit"@,
        "quota"@,
        "exhaust"@,
        "429"@,
        "message"@,
        "upgrade"@,
        "subscription"@,
        "capacity"@,
        "blocked"@,
        "denied"@,
        "unavailable"@,
        "out of"@,
    ]
}

pub fn interesting_observation_keywords() -> (v: Vec<String>)
    ensures
        strings_view(v@) == observation_keywords_spec(),
{
    let mut v: Vec<String> = Vec::new();
    v.push(str_to_string("error"));
    v.push(str_to_string("limit"));
    v.push(str_to_string("quota"));
    v.push(str_to_string("exhaust"));
    v.push(str_to_string("429"));
    v.push(str_to_string("message"));
    v.push(str_to_string("upgrade"));
    v.push(str_to_string("subscription"));
    v.push(str_to_string("capacity"));
    v.push(str_to_string("blocked"));
    v.push(str_to_string("denied"));
    v.push(str_to_string("unavailable"));
    v.push(str_to_string("out of"));
    assert(strings_view(v@) =~= observation_keywords_spec());
    v
}

/// Whether the lower-cased `text` contains one of the keywords.
pub open spec fn looks_interesting_spec(text: Seq<char>) -> bool {
    exists|i: int|
        0 <= i < observation_keywords_spec().len() && #[trigger] contains(
            lowercase(text),
            observation_keywords_spec()[i],
        )
}

pub fn looks_interesting(text: &str) -> (r: bool)
    ensures
        r == looks_interesting_spec(text@),
{
    let lower_s = to_lowercase(text);
    let lower = chars_of(lower_s.as_str());
    let keywords = interesting_observation_keywords();
    let ghost kv = strings_view(keywords@);
    let mut i: usize = 0;
    while i < keywords.len()
        invariant
            i <= keywords.len(),
            kv == strings_view(keywords@),
            kv == observation_keywords_spec(),
            lower@ == lowercase(text@),
            forall|j: int| 0 <= j < i ==> !#[trigger] contains(lowercase(text@), kv[j]),
        decreases keywords.len() - i,
    {
        let k = chars_of(keywords[i].as_str());
        assert(k@ == kv[i as int]);
        if contains_chars(&lower, &k) {
            return true;
        }
        i += 1;
    }
    false
}

} // verus!
