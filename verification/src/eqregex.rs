//! A compiled regular expression that is compared by its pattern.

use regex::Regex;
use vstd::prelude::*;

use crate::text::str_eq;

verus! {

#[verifier::external_type_specification]
#[verifier::external_body]
pub struct ExRegex(Regex);

#[verifier::external_type_specification]
#[verifier::external_body]
pub struct ExRegexError(regex::Error);

/// Whether `regex::Regex::new` accepts a pattern.
pub uninterp spec fn regex_compiles(pattern: Seq<char>) -> bool;

/// Whether the regular expression of a pattern matches somewhere in a text, as
/// `regex::Regex::is_match` finds it.
pub uninterp spec fn regex_is_match(pattern: Seq<char>, text: Seq<char>) -> bool;

/// What `regex::Regex::captures` finds for a pattern in a text: nothing where
/// there is no match, else the text of every capture group in order, group 0 (the
/// whole match) first, and `None` for a group that took no part in the match.
pub uninterp spec fn regex_captures(pattern: Seq<char>, text: Seq<char>) -> Option<
    Seq<Option<Seq<char>>>,
>;

/// A regular expression together with the pattern that it was compiled from. Two
/// are equal when their patterns are.
#[derive(Debug)]
pub struct EqRegex {
    pattern: String,
    inner: Regex,
}

impl View for EqRegex {
    type V = Seq<char>;

    closed spec fn view(&self) -> Seq<char> {
        self.pattern@
    }
}

/// The text of each capture group.
pub open spec fn groups_view(groups: Seq<Option<String>>) -> Seq<Option<Seq<char>>> {
    Seq::new(
        groups.len(),
        |i: int|
            match groups[i] {
                Some(text) => Some(text@),
                None => None,
            },
    )
}

/// The view of what a search for capture groups found.
pub open spec fn captures_view(found: Option<Vec<Option<String>>>) -> Option<
    Seq<Option<Seq<char>>>,
> {
    match found {
        Some(groups) => Some(groups_view(groups@)),
        None => None,
    }
}

/// `Clone::clone` of `regex::Regex`: another handle to the same compiled expression.
#[verifier::external_body]
fn clone_compiled(inner: &Regex) -> Regex {
    inner.clone()
}

impl EqRegex {
    /// `regex::Regex::new`: compiles the pattern, or reports why it cannot be
    /// compiled. The result keeps the pattern as it was given.
    #[verifier::external_body]
    pub fn new(regex: &str) -> (r: Result<Self, regex::Error>)
        ensures
            r is Ok <==> regex_compiles(regex@),
            r matches Ok(compiled) ==> compiled@ == regex@,
    {
        Regex::new(regex).map(|inner| EqRegex { pattern: regex.to_string(), inner })
    }

    /// The pattern.
    pub fn as_str(&self) -> (r: &str)
        ensures
            r@ == self@,
    {
        self.pattern.as_str()
    }

    /// `regex::Regex::is_match`: whether the expression matches somewhere in the
    /// text.
    #[verifier::external_body]
    fn search(&self, text: &str) -> (r: bool)
        ensures
            r == regex_is_match(self@, text@),
    {
        self.inner.is_match(text)
    }

    /// `regex::Regex::captures`, with the groups read out by `Captures::iter`: the
    /// text of every capture group of the first match, group 0 first.
    #[verifier::external_body]
    fn search_groups(&self, text: &str) -> (r: Option<Vec<Option<String>>>)
        ensures
            captures_view(r) == regex_captures(self@, text@),
    {
        self.inner.captures(text).map(
            |found| found.iter().map(|group| group.map(|m| m.as_str().to_string())).collect(),
        )
    }

    /// Whether the expression matches somewhere in the text.
    pub fn is_match(&self, text: &str) -> (r: bool)
        ensures
            r == regex_is_match(self@, text@),
    {
        self.search(text)
    }

    /// The capture groups of the first match in the text, group 0 (the whole match)
    /// first: the text of each group, and `None` for a group that took no part in the
    /// match. `None` where the expression does not match.
    pub fn captures(&self, text: &str) -> (r: Option<Vec<Option<String>>>)
        ensures
            captures_view(r) == regex_captures(self@, text@),
    {
        self.search_groups(text)
    }
}

impl Clone for EqRegex {
    fn clone(&self) -> (r: Self)
        ensures
            r@ == self@,
    {
        EqRegex { pattern: self.pattern.clone(), inner: clone_compiled(&self.inner) }
    }
}

impl PartialEq for EqRegex {
    fn eq(&self, other: &Self) -> (r: bool) {
        str_eq(self.pattern.as_str(), other.pattern.as_str())
    }
}

impl vstd::std_specs::cmp::PartialEqSpecImpl for EqRegex {
    open spec fn obeys_eq_spec() -> bool {
        true
    }

    open spec fn eq_spec(&self, other: &Self) -> bool {
        self@ == other@
    }
}

impl Eq for EqRegex {

}

} // verus!
