//! URLs: a scheme out of three, `://`, a host label, a dot, and the rest.
//!
//! The text is accepted or refused as it stands; nothing is resolved and
//! nothing is rewritten.

use crate::error::{outcome, Outcome, TypeError};
use crate::text::{chars_of, is_whitespace};
use vstd::prelude::*;
use vstd::std_specs::cmp::PartialEqSpecImpl;

verus! {

/// What `Url::parse` says of a text that it refuses.
pub const INVALID_MESSAGE: &'static str = "unable to parse URL, invalid URL.";

/// The first scheme, with the `://` behind it.
pub const HTTP: &'static str = "http://";

/// The second scheme, with the `://` behind it.
pub const HTTPS: &'static str = "https://";

/// The third scheme, with the `://` behind it.
pub const FTP: &'static str = "ftp://";

/// A character of the host label: neither whitespace nor one of `/$.?#`.
#[verifier::allow_in_spec]
pub fn is_host_char(c: char) -> bool
    returns
        !is_whitespace(c) && c != '/' && c != '$' && c != '.' && c != '?' && c != '#',
{
    !is_whitespace(c) && c != '/' && c != '$' && c != '.' && c != '?' && c != '#'
}

/// Whether `rest` is a host label that ends before index `dot`, a dot at
/// that index, and behind it text without whitespace.
pub open spec fn is_location_split_at(rest: Seq<char>, dot: int) -> bool {
    &&& 0 < dot < rest.len()
    &&& rest[dot] == '.'
    &&& forall|i: int| 0 <= i < dot ==> is_host_char(#[trigger] rest[i])
    &&& forall|i: int| dot < i < rest.len() ==> !is_whitespace(#[trigger] rest[i])
}

/// What may follow the scheme: one or more host characters, a dot, and
/// then any characters but whitespace, to the end of the text.
pub open spec fn is_location(rest: Seq<char>) -> bool {
    exists|dot: int| is_location_split_at(rest, dot)
}

/// Whether `s` is `scheme` followed by a location.
pub open spec fn is_url_with(s: Seq<char>, scheme: Seq<char>) -> bool {
    scheme.is_prefix_of(s) && is_location(s.skip(scheme.len() as int))
}

/// The grammar of a URL, held against the whole text.
pub open spec fn is_url(s: Seq<char>) -> bool {
    is_url_with(s, HTTP@) || is_url_with(s, HTTPS@) || is_url_with(s, FTP@)
}

/// Decides whether `chars` begins with `prefix`.
fn starts_with(chars: &Vec<char>, prefix: &Vec<char>) -> (ok: bool)
    ensures
        ok == prefix@.is_prefix_of(chars@),
{
    if prefix.len() > chars.len() {
        return false;
    }
    let mut i: usize = 0;
    while i < prefix.len()
        invariant
            i <= prefix.len() <= chars.len(),
            forall|k: int| 0 <= k < i ==> prefix@[k] == chars@[k],
        decreases prefix.len() - i,
    {
        if prefix[i] != chars[i] {
            assert(prefix@[i as int] != chars@.subrange(0, prefix@.len() as int)[i as int]);
            return false;
        }
        i += 1;
    }
    assert(prefix@ =~= chars@.subrange(0, prefix@.len() as int));
    true
}

/// Decides whether the characters from `start` on are a location.
fn is_location_from(chars: &Vec<char>, start: usize) -> (ok: bool)
    requires
        start <= chars.len(),
    ensures
        ok == is_location(chars@.skip(start as int)),
{
    let ghost rest = chars@.skip(start as int);
    let n = chars.len();
    let mut dot = start;
    while dot < n && is_host_char(chars[dot])
        invariant
            start <= dot <= n,
            n == chars.len(),
            rest == chars@.skip(start as int),
            forall|i: int| 0 <= i < dot - start ==> is_host_char(#[trigger] rest[i]),
        decreases n - dot,
    {
        assert(rest[dot - start] == chars@[dot as int]);
        dot += 1;
    }
    proof {
        // The dot behind the host label is the first character outside
        // the host class, so no other index can split the text.
        assert forall|other: int| is_location_split_at(rest, other) implies other == dot
            - start by {
            if other < dot - start {
                assert(is_host_char(rest[other]));
            } else if other > dot - start {
                assert(rest[dot - start] == chars@[dot as int]);
                assert(is_host_char(rest[dot - start]));
            }
        }
    }
    if dot == start || dot == n || chars[dot] != '.' {
        assert(dot < n ==> rest[dot - start] == chars@[dot as int]);
        return false;
    }
    let mut i = dot + 1;
    while i < n
        invariant
            dot < i <= n,
            start <= dot,
            n == chars.len(),
            rest == chars@.skip(start as int),
            forall|k: int| dot - start < k < i - start ==> !is_whitespace(#[trigger] rest[k]),
        decreases n - i,
    {
        if is_whitespace(chars[i]) {
            assert(rest[i - start] == chars@[i as int]);
            return false;
        }
        assert(rest[i - start] == chars@[i as int]);
        i += 1;
    }
    proof {
        assert(rest[dot - start] == chars@[dot as int]);
        assert(is_location_split_at(rest, dot - start));
    }
    true
}

/// Decides whether `chars` is `scheme` followed by a location.
fn is_url_with_text(chars: &Vec<char>, scheme: &str) -> (ok: bool)
    ensures
        ok == is_url_with(chars@, scheme@),
{
    let prefix = chars_of(scheme);
    starts_with(chars, &prefix) && is_location_from(chars, prefix.len())
}

/// Decides whether `chars` is a URL.
fn is_url_text(chars: &Vec<char>) -> (ok: bool)
    ensures
        ok == is_url(chars@),
{
    is_url_with_text(chars, HTTP) || is_url_with_text(chars, HTTPS) || is_url_with_text(
        chars,
        FTP,
    )
}

/// A URL that has passed the grammar.
#[derive(Debug)]
pub struct Url(String);

impl View for Url {
    type V = Seq<char>;

    closed spec fn view(&self) -> Seq<char> {
        self.0@
    }
}

impl Clone for Url {
    fn clone(&self) -> (copy: Self)
        ensures
            copy@ == self@,
    {
        proof {
            use_type_invariant(self);
        }
        Url(self.0.clone())
    }
}

impl PartialEq for Url {
    fn eq(&self, other: &Self) -> (same: bool) {
        self.0 == other.0
    }
}

impl PartialEqSpecImpl for Url {
    open spec fn obeys_eq_spec() -> bool {
        true
    }

    /// Two URLs are equal when their texts are.
    open spec fn eq_spec(&self, other: &Self) -> bool {
        self@ == other@
    }
}

impl Eq for Url {

}

impl Url {
    #[verifier::type_invariant]
    closed spec fn well_formed(self) -> bool {
        is_url(self.0@)
    }

    /// What `parse` returns for the text `s`.
    pub open spec fn parse_outcome(s: Seq<char>) -> Outcome {
        if is_url(s) {
            Ok(s)
        } else {
            Err(INVALID_MESSAGE@)
        }
    }

    /// Accepts `url` if it is a URL, and keeps it unchanged.
    pub fn parse(url: &str) -> (r: Result<Self, TypeError>)
        ensures
            outcome(r) == Self::parse_outcome(url@),
    {
        let chars = chars_of(url);
        if is_url_text(&chars) {
            Ok(Url(String::from_str(url)))
        } else {
            Err(TypeError::ParseError(String::from_str(INVALID_MESSAGE)))
        }
    }

    /// The text of the URL.
    pub fn as_str(&self) -> (text: &str)
        ensures
            text@ == self@,
            is_url(text@),
    {
        proof {
            use_type_invariant(self);
        }
        self.0.as_str()
    }

    /// Renders the URL: its text, verbatim.
    pub fn to_string(&self) -> (text: String)
        ensures
            text@ == self@,
            is_url(text@),
    {
        proof {
            use_type_invariant(self);
        }
        self.0.clone()
    }
}

/// Parsing what a parsed URL renders to gives the same URL again.
pub proof fn lemma_rendering_parses_to_itself(s: Seq<char>)
    ensures
        Url::parse_outcome(s) matches Ok(v) ==> Url::parse_outcome(v) == Outcome::Ok(v),
{
}

} // verus!
