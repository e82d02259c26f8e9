//! Calls into outside crates, each with the contract the library relies on.
use vstd::prelude::*;

verus! {

/// What `str::trim` returns for a text: the text without its leading and
/// trailing white space.
pub uninterp spec fn trimmed(s: Seq<char>) -> Seq<char>;

/// What `inflector`'s snake case conversion returns for a label.
pub uninterp spec fn snake_case_of(s: Seq<char>) -> Seq<char>;

/// What `regex` reports as capture group `group` of the first match of
/// `pattern` in `text` (`None`: no match, no such group, or a bad pattern).
pub uninterp spec fn regex_group_of(pattern: Seq<char>, text: Seq<char>, group: nat) -> Option<
    Seq<char>,
>;

/// The view of an optional owned string.
pub open spec fn opt_view(o: Option<String>) -> Option<Seq<char>> {
    match o {
        Some(s) => Some(s@),
        None => None,
    }
}

/// Relies on `str::trim`: the result depends on the characters alone.
#[verifier::external_body]
pub(crate) fn trim_text(s: &str) -> (r: String)
    ensures
        r@ == trimmed(s@),
{
    s.trim().to_string()
}

/// Relies on `inflector::cases::snakecase::to_snake_case`: the result depends
/// on the characters alone.
#[verifier::external_body]
pub(crate) fn snake_case(s: &str) -> (r: String)
    ensures
        r@ == snake_case_of(s@),
{
    inflector::cases::snakecase::to_snake_case(s)
}

/// Relies on `regex::Regex::new` and `regex::Regex::captures`: the text of one
/// capture group of the leftmost match.
#[verifier::external_body]
pub(crate) fn regex_group(pattern: &str, text: &str, group: usize) -> (r: Option<String>)
    ensures
        opt_view(r) == regex_group_of(pattern@, text@, group as nat),
{
    regex::Regex::new(pattern).ok().and_then(
        |re| re.captures(text).and_then(|c| c.get(group)).map(|m| m.as_str().to_string()),
    )
}

/// Relies on `chrono::Utc::now`: the current time, as text. Nothing is known of
/// its value.
#[verifier::external_body]
pub(crate) fn now_text() -> (r: String) {
    chrono::Utc::now().to_string()
}

} // verus!
