//! Regular-expression searches, through the regex crate.
use vstd::prelude::*;

verus! {

/// What regex's `captures_iter` finds of `pattern` in `text`: for each
/// match in turn, the text of capture group 1 if it took part; `None` where
/// the pattern does not compile.
pub uninterp spec fn group_one_captures(pattern: Seq<char>, text: Seq<char>) -> Option<
    Seq<Option<Seq<char>>>,
>;

/// The views of optional strings.
pub open spec fn opt_strings(v: Seq<Option<String>>) -> Seq<Option<Seq<char>>> {
    v.map_values(|o: Option<String>| crate::servers::opt_string(o))
}

/// Relies on regex's `Regex::new` and `Regex::captures_iter`: the first
/// capture group of each successive match, `None` where `pattern` does not
/// compile.
#[verifier::external_body]
pub(crate) fn capture_group_one(pattern: &str, text: &str) -> (r: Option<Vec<Option<String>>>)
    ensures
        match r {
            Some(v) => group_one_captures(pattern@, text@) == Some(opt_strings(v@)),
            None => group_one_captures(pattern@, text@) is None,
        },
{
    match regex::Regex::new(pattern) {
        Ok(re) => Some(
            re.captures_iter(text).map(|c| c.get(1).map(|m| m.as_str().to_string())).collect(),
        ),
        Err(_) => None,
    }
}

/// Whether regex's `is_match` finds `pattern` in `text`; `None` where the
/// pattern does not compile.
pub uninterp spec fn pattern_found(pattern: Seq<char>, text: Seq<char>) -> Option<bool>;

/// Relies on regex's `Regex::new` and `Regex::is_match`: whether `pattern`
/// matches somewhere in `text`, `None` where it does not compile.
#[verifier::external_body]
pub(crate) fn find_pattern(pattern: &str, text: &str) -> (r: Option<bool>)
    ensures
        r == pattern_found(pattern@, text@),
{
    regex::Regex::new(pattern).ok().map(|re| re.is_match(text))
}

} // verus!
