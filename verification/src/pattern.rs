//! Path patterns: regular expressions of the regex crate, and what a match
//! captures.

use crate::text::{opt_chars, owned, str_eq};
use vstd::prelude::*;

verus! {

/// `regex::Regex`, carried through without a look inside.
#[verifier::external_type_specification]
#[verifier::external_body]
pub struct ExRegex(regex::Regex);

/// `regex::Error`, carried through without a look inside.
#[verifier::external_type_specification]
#[verifier::external_body]
pub struct ExRegexError(regex::Error);

/// One capture group of a match: its name, if it has one, and the text it
/// matched, if it took part in the match.
#[derive(Clone, Debug, PartialEq)]
pub struct Group {
    pub name: Option<String>,
    pub text: Option<String>,
}

pub ghost struct GroupView {
    pub name: Option<Seq<char>>,
    pub text: Option<Seq<char>>,
}

impl View for Group {
    type V = GroupView;

    open spec fn view(&self) -> GroupView {
        GroupView { name: opt_chars(self.name), text: opt_chars(self.text) }
    }
}

/// The capture groups of a match, in the order of their opening brackets;
/// the first group is the whole match.
#[derive(Clone, Debug, PartialEq)]
pub struct Captures {
    pub groups: Vec<Group>,
}

impl View for Captures {
    type V = Seq<GroupView>;

    open spec fn view(&self) -> Seq<GroupView> {
        self.groups@.map_values(|g: Group| g@)
    }
}

/// The text of the first group called `key`; nothing where there is no such
/// group, or where it took no part in the match.
pub open spec fn named(groups: Seq<GroupView>, key: Seq<char>) -> Option<Seq<char>>
    decreases groups.len(),
{
    if groups.len() == 0 {
        None
    } else if groups.first().name == Some(key) {
        groups.first().text
    } else {
        named(groups.drop_first(), key)
    }
}

impl Captures {
    /// The captures of a match without groups.
    pub fn new() -> (c: Captures)
        ensures
            c@ == Seq::<GroupView>::empty(),
    {
        let c = Captures { groups: Vec::new() };
        assert(c@ =~= Seq::<GroupView>::empty());
        c
    }

    /// These captures and one more group, called `name`, that matched `text`.
    pub fn with(self, name: &str, text: &str) -> (c: Captures)
        ensures
            c@ == self@.push(GroupView { name: Some(name@), text: Some(text@) }),
    {
        let mut groups = self.groups;
        groups.push(Group { name: Some(owned(name)), text: Some(owned(text)) });
        let c = Captures { groups };
        assert(c@ =~= self@.push(GroupView { name: Some(name@), text: Some(text@) }));
        c
    }

    /// The text that the group called `key` matched.
    pub fn name(&self, key: &str) -> (r: Option<&str>)
        ensures
            match r {
                Some(s) => named(self@, key@) == Some(s@),
                None => named(self@, key@) is None,
            },
    {
        let mut i: usize = 0;
        assert(self@.skip(0) =~= self@);
        while i < self.groups.len()
            invariant
                i <= self.groups.len(),
                named(self@, key@) == named(self@.skip(i as int), key@),
            decreases self.groups.len() - i,
        {
            assert(self@.skip(i as int).first() == self.groups@[i as int]@);
            assert(self@.skip(i as int).drop_first() =~= self@.skip(i + 1));
            let is_key = match &self.groups[i].name {
                Some(n) => str_eq(n.as_str(), key),
                None => false,
            };
            if is_key {
                return match &self.groups[i].text {
                    Some(t) => Some(t.as_str()),
                    None => None,
                };
            }
            i = i + 1;
        }
        None
    }
}

/// The pattern that a regular expression was compiled from: what
/// `Regex::as_str` returns.
pub uninterp spec fn regex_source(re: regex::Regex) -> Seq<char>;

/// Whether `Regex::new` compiles a pattern.
pub uninterp spec fn regex_valid(pattern: Seq<char>) -> bool;

/// What `Regex::captures` finds for a pattern in a text: the groups of the
/// first match, or nothing where the pattern matches nowhere in the text.
pub uninterp spec fn regex_match(pattern: Seq<char>, text: Seq<char>) -> Option<Seq<GroupView>>;

/// Compiles a pattern with `regex::Regex::new`. Trusted: the call succeeds
/// exactly on the patterns that `regex_valid` holds of, and the regular
/// expression it gives has the pattern as its source.
#[verifier::external_body]
pub(crate) fn regex_new(pattern: &str) -> (r: Result<regex::Regex, regex::Error>)
    ensures
        r is Ok <==> regex_valid(pattern@),
        r matches Ok(re) ==> regex_source(re) == pattern@,
{
    regex::Regex::new(pattern)
}

/// Searches a text with `regex::Regex::captures` and hands each group out
/// with its name from `Regex::capture_names` and its text from
/// `Captures::iter`. Trusted: the result is what `regex_match` names for the
/// regular expression's source and the text.
#[verifier::external_body]
pub(crate) fn regex_captures(re: &regex::Regex, text: &str) -> (r: Option<Captures>)
    ensures
        match r {
            Some(c) => regex_match(regex_source(*re), text@) == Some(c@),
            None => regex_match(regex_source(*re), text@) is None,
        },
{
    re.captures(text).map(
        |found| Captures {
            groups: re.capture_names().zip(found.iter()).map(
                |(n, m)| Group {
                    name: n.map(String::from),
                    text: m.map(|part| part.as_str().to_string()),
                },
            ).collect(),
        },
    )
}

} // verus!
