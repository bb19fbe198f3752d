//! Regular-expression search, delegated to the `regex` crate.
use vstd::prelude::*;

verus! {

/// The capture groups of the leftmost-first match of `pattern` in `text`, as
/// `regex::Regex::new(pattern)` then `Regex::captures(text)` report them: group 0
/// is the whole match, a group that took no part in the match is `None`, and no
/// match at all (or a pattern that does not compile) is `None`.
pub uninterp spec fn regex_captures_of(pattern: Seq<char>, text: Seq<char>) -> Option<Seq<Option<Seq<char>>>>;

/// The views of a list of optional strings.
pub open spec fn opt_strings_view(v: Seq<Option<String>>) -> Seq<Option<Seq<char>>> {
    v.map_values(|o: Option<String>| match o {
        Some(s) => Some(s@),
        None => None,
    })
}

/// The view of what [`captures`] returns.
pub open spec fn captures_view(r: Option<Vec<Option<String>>>) -> Option<Seq<Option<Seq<char>>>> {
    match r {
        Some(v) => Some(opt_strings_view(v@)),
        None => None,
    }
}

/// Compiles `pattern` with `regex::Regex::new` and searches `text` with
/// `regex::Regex::captures`. The contract claims only that the result is the
/// group texts of that search, which depends on `pattern` and `text` alone; it
/// says nothing of which texts the regex engine matches.
#[verifier::external_body]
pub(crate) fn captures(pattern: &str, text: &str) -> (r: Option<Vec<Option<String>>>)
    ensures
        captures_view(r) == regex_captures_of(pattern@, text@),
{
    let re = regex::Regex::new(pattern).ok()?;
    let caps = re.captures(text)?;
    Some(caps.iter().map(|m| m.map(|m| m.as_str().to_string())).collect())
}

/// The text of capture group `group`, if the search matched and the group took part.
pub open spec fn capture_group(caps: Option<Seq<Option<Seq<char>>>>, group: int) -> Option<Seq<char>> {
    match caps {
        Some(c) => if 0 <= group < c.len() {
            c[group]
        } else {
            None
        },
        None => None,
    }
}

/// The text of capture group `group` of a search result.
pub fn group_text(caps: &Option<Vec<Option<String>>>, group: usize) -> (r: Option<String>)
    ensures
        match r {
            Some(s) => capture_group(captures_view(*caps), group as int) == Some(s@),
            None => capture_group(captures_view(*caps), group as int).is_none(),
        },
{
    match caps {
        Some(c) => {
            if group < c.len() {
                match &c[group] {
                    Some(s) => Some(s.clone()),
                    None => None,
                }
            } else {
                None
            }
        },
        None => None,
    }
}

} // verus!
