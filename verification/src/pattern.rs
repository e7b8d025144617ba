//! Regular-expression search (through the `regex` crate) and Unicode
//! lower-casing (through `str::to_lowercase`).  What these return takes pages
//! to state, so their results are named: `pattern_compiles`,
//! `pattern_captures` and `lowercased` are functions of their arguments alone.
use crate::text::{ascii_lowered, is_ascii_text};
use vstd::prelude::*;

verus! {

#[verifier::external_type_specification]
#[verifier::external_body]
pub struct ExRegex(regex::Regex);

#[verifier::external_type_specification]
#[verifier::external_body]
pub struct ExRegexError(regex::Error);

/// Whether `regex::Regex::new` accepts `pattern`.
pub uninterp spec fn pattern_compiles(pattern: Seq<char>) -> bool;

/// The capture groups of the leftmost-first match of the regular expression
/// `pattern` in `text`, group 0 being the whole match: `None` when there is no
/// match, and for each group the matched text, or `None` when the group took
/// no part in the match.
pub uninterp spec fn pattern_captures(pattern: Seq<char>, text: Seq<char>) -> Option<
    Seq<Option<Seq<char>>>,
>;

/// The text `str::to_lowercase` makes of `s`.
pub uninterp spec fn lowercased(s: Seq<char>) -> Seq<char>;

/// A compiled regular expression together with the text it was compiled from.
pub struct TextPattern {
    re: regex::Regex,
    source: Ghost<Seq<char>>,
}

impl TextPattern {
    /// The text the expression was compiled from.
    pub closed spec fn source(&self) -> Seq<char> {
        self.source@
    }
}

/// Compiles `pattern` with `regex::Regex::new`: `Ok` exactly when the pattern
/// is accepted, and then the result remembers its source text.
#[verifier::external_body]
pub(crate) fn compile_pattern(pattern: &str) -> (r: Result<TextPattern, regex::Error>)
    ensures
        r is Ok <==> pattern_compiles(pattern@),
        r matches Ok(p) ==> p.source() == pattern@,
{
    match regex::Regex::new(pattern) {
        Ok(re) => Ok(TextPattern { re, source: Ghost(pattern@) }),
        Err(e) => Err(e),
    }
}

/// The view of the groups that `captures_of` hands back.
pub open spec fn groups_view(groups: Seq<Option<String>>) -> Seq<Option<Seq<char>>> {
    groups.map_values(
        |g: Option<String>|
            match g {
                Some(s) => Some(s@),
                None => None,
            },
    )
}

/// `regex::Regex::captures`, each group converted to an owned `String`
/// (`Captures::iter` yields every group, matched or not, in order).
#[verifier::external_body]
pub(crate) fn captures_of(p: &TextPattern, text: &str) -> (r: Option<Vec<Option<String>>>)
    ensures
        match r {
            Some(groups) => pattern_captures(p.source(), text@) == Some(groups_view(groups@)),
            None => pattern_captures(p.source(), text@) is None,
        },
{
    p.re.captures(text).map(|caps| caps.iter().map(|m| m.map(|m| m.as_str().to_string())).collect())
}

/// `str::to_lowercase`.  Its mapping is Unicode's lower-case mapping, which
/// on ASCII characters turns `A`-`Z` into `a`-`z` and keeps the rest, one
/// character for one; so an ASCII text is lower-cased letter by letter.
#[verifier::external_body]
pub(crate) fn lowercase(s: &str) -> (r: String)
    ensures
        r@ == lowercased(s@),
        is_ascii_text(s@) ==> r@ == ascii_lowered(s@),
{
    s.to_lowercase()
}

/// Outcome of searching a text for a pattern: the pattern was refused, or it
/// compiled and found no match, or it found a match with these groups.
pub enum Search {
    Invalid,
    NoMatch,
    Found(Vec<Option<String>>),
}

/// The same outcome, over views.
pub enum SearchView {
    Invalid,
    NoMatch,
    Found(Seq<Option<Seq<char>>>),
}

pub open spec fn search_spec(pattern: Seq<char>, text: Seq<char>) -> SearchView {
    if !pattern_compiles(pattern) {
        SearchView::Invalid
    } else {
        match pattern_captures(pattern, text) {
            Some(groups) => SearchView::Found(groups),
            None => SearchView::NoMatch,
        }
    }
}

pub open spec fn search_view(s: Search) -> SearchView {
    match s {
        Search::Invalid => SearchView::Invalid,
        Search::NoMatch => SearchView::NoMatch,
        Search::Found(g) => SearchView::Found(groups_view(g@)),
    }
}

/// Compiles `pattern` and looks for its first match in `text`.
pub fn search(pattern: &str, text: &str) -> (r: Search)
    ensures
        search_view(r) == search_spec(pattern@, text@),
{
    match compile_pattern(pattern) {
        Err(_) => Search::Invalid,
        Ok(p) => match captures_of(&p, text) {
            Some(g) => Search::Found(g),
            None => Search::NoMatch,
        },
    }
}

/// The text of group `i`, or the empty text when the group is absent.
pub open spec fn group_text(groups: Seq<Option<Seq<char>>>, i: int) -> Seq<char> {
    if 0 <= i < groups.len() {
        match groups[i] {
            Some(t) => t,
            None => Seq::empty(),
        }
    } else {
        Seq::empty()
    }
}

/// Whether group `i` took part in the match.
pub open spec fn group_present(groups: Seq<Option<Seq<char>>>, i: int) -> bool {
    0 <= i < groups.len() && groups[i] is Some
}

/// The characters of group `i` (empty when the group is absent).
pub fn group_chars(groups: &Vec<Option<String>>, i: usize) -> (r: Vec<char>)
    ensures
        r@ == group_text(groups_view(groups@), i as int),
{
    if i < groups.len() {
        match &groups[i] {
            Some(s) => crate::text::chars_of(s.as_str()),
            None => Vec::new(),
        }
    } else {
        Vec::new()
    }
}

} // verus!
