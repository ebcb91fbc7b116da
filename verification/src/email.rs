//! Email addresses: a non-empty local part, an `@`, and a host of two or
//! more labels joined by dots. The text is put in lower case before it is
//! held to the grammar, and a value keeps the lower-case text.
//!
//! Lower case is Unicode's, as the standard library maps it. What that
//! mapping does to a text is known here only where all of the text is
//! ASCII; there the letters `A` to `Z` are lowered one by one. Whatever the
//! mapping returns for other text is lowered in the same way, and then held
//! to the grammar like any other.

use crate::error::{outcome, Outcome, TypeError};
use crate::text::{
    ascii_lowercase, ascii_uppercase, chars_of, has_no_upper, is_digit, is_letter,
    to_ascii_lowercase,
};
use vstd::prelude::*;
use vstd::std_specs::cmp::PartialEqSpecImpl;
use vstd::utf8::is_ascii_chars;

verus! {

/// What `Email::parse` says of a text that it refuses.
pub const INVALID_MESSAGE: &'static str = "unable to parse email, invalid email.";

/// A character of the local part: an ASCII letter or digit, or one of
/// ``.!#$%&'*+/=?^_`{|}~-``.
#[verifier::allow_in_spec]
pub fn is_local_char(c: char) -> bool
    returns
        is_letter(c) || is_digit(c) || c == '.' || c == '!' || c == '#' || c == '$' || c == '%'
            || c == '&' || c == '\'' || c == '*' || c == '+' || c == '/' || c == '=' || c == '?'
            || c == '^' || c == '_' || c == '`' || c == '{' || c == '|' || c == '}' || c == '~'
            || c == '-',
{
    is_letter(c) || is_digit(c) || c == '.' || c == '!' || c == '#' || c == '$' || c == '%' || c
        == '&' || c == '\'' || c == '*' || c == '+' || c == '/' || c == '=' || c == '?' || c
        == '^' || c == '_' || c == '`' || c == '{' || c == '|' || c == '}' || c == '~' || c == '-'
}

/// A character of a host label: an ASCII letter or digit, or `-`.
#[verifier::allow_in_spec]
pub fn is_label_char(c: char) -> bool
    returns
        is_letter(c) || is_digit(c) || c == '-',
{
    is_letter(c) || is_digit(c) || c == '-'
}

/// A host: labels joined by single dots, two labels or more, none of them
/// empty. Said of the characters: only label characters and dots, a dot
/// neither first nor last nor next to another dot, and one dot at least.
pub open spec fn is_dotted_host(h: Seq<char>) -> bool {
    &&& h.len() > 0
    &&& forall|i: int| 0 <= i < h.len() ==> is_label_char(#[trigger] h[i]) || h[i] == '.'
    &&& h.first() != '.'
    &&& h.last() != '.'
    &&& forall|i: int| 0 < i < h.len() && h[i - 1] == '.' ==> #[trigger] h[i] != '.'
    &&& exists|i: int| 0 <= i < h.len() && #[trigger] h[i] == '.'
}

/// Whether `s` is an address whose `@` stands at index `at`.
pub open spec fn is_address_split_at(s: Seq<char>, at: int) -> bool {
    &&& 0 < at < s.len()
    &&& s[at] == '@'
    &&& forall|i: int| 0 <= i < at ==> is_local_char(#[trigger] s[i])
    &&& is_dotted_host(s.skip(at + 1))
}

/// The grammar of an address, held against the whole text: one or more
/// local characters, `@`, a dotted host.
pub open spec fn is_address(s: Seq<char>) -> bool {
    exists|at: int| is_address_split_at(s, at)
}

/// The lower-case form that the standard library gives a text.
pub uninterp spec fn unicode_lowercase(s: Seq<char>) -> Seq<char>;

/// `str::to_lowercase`, which follows Unicode's case mapping. The contract
/// claims that the result depends on the text alone, gives it the name
/// `unicode_lowercase`, and says nothing else of it.
#[verifier::external_body]
fn to_unicode_lowercase(s: &str) -> (lowered: String)
    ensures
        lowered@ == unicode_lowercase(s@),
{
    s.to_lowercase()
}

/// Decides whether the characters from `start` on are a dotted host.
fn is_dotted_host_from(chars: &Vec<char>, start: usize) -> (ok: bool)
    requires
        start <= chars.len(),
    ensures
        ok == is_dotted_host(chars@.skip(start as int)),
{
    let ghost h = chars@.skip(start as int);
    let n = chars.len();
    let mut i = start;
    let mut after_dot = true;
    let mut seen_dot = false;
    while i < n
        invariant
            start <= i <= n,
            n == chars.len(),
            h == chars@.skip(start as int),
            forall|k: int| 0 <= k < i - start ==> is_label_char(#[trigger] h[k]) || h[k] == '.',
            i > start ==> h.first() != '.',
            forall|k: int| 0 < k < i - start && h[k - 1] == '.' ==> #[trigger] h[k] != '.',
            after_dot == (i == start || h[i - start - 1] == '.'),
            seen_dot == (exists|k: int| 0 <= k < i - start && #[trigger] h[k] == '.'),
        decreases n - i,
    {
        let c = chars[i];
        assert(h[i - start] == c);
        if c == '.' {
            if after_dot {
                return false;
            }
            after_dot = true;
            seen_dot = true;
        } else if is_label_char(c) {
            after_dot = false;
        } else {
            return false;
        }
        i += 1;
    }
    !after_dot && seen_dot
}

/// Decides whether `chars` is an address.
fn is_address_text(chars: &Vec<char>) -> (ok: bool)
    ensures
        ok == is_address(chars@),
{
    let n = chars.len();
    let mut at: usize = 0;
    while at < n && is_local_char(chars[at])
        invariant
            at <= n,
            n == chars.len(),
            forall|i: int| 0 <= i < at ==> is_local_char(#[trigger] chars@[i]),
        decreases n - at,
    {
        at += 1;
    }
    proof {
        // The `@` of an address is its first character outside the local
        // class, so no other index can split the text.
        assert forall|other: int| is_address_split_at(chars@, other) implies other == at by {
            if other < at {
                assert(is_local_char(chars@[other]));
            } else if other > at {
                assert(is_local_char(chars@[at as int]));
            }
        }
    }
    if at == 0 || at == n || chars[at] != '@' {
        return false;
    }
    let ok = is_dotted_host_from(chars, at + 1);
    proof {
        if ok {
            assert(is_address_split_at(chars@, at as int));
        }
    }
    ok
}

/// An address that has passed the grammar, in lower case.
#[derive(Debug)]
pub struct Email(String);

impl View for Email {
    type V = Seq<char>;

    closed spec fn view(&self) -> Seq<char> {
        self.0@
    }
}

impl Clone for Email {
    fn clone(&self) -> (copy: Self)
        ensures
            copy@ == self@,
    {
        proof {
            use_type_invariant(self);
        }
        Email(self.0.clone())
    }
}

impl PartialEq for Email {
    fn eq(&self, other: &Self) -> (same: bool) {
        self.0 == other.0
    }
}

impl PartialEqSpecImpl for Email {
    open spec fn obeys_eq_spec() -> bool {
        true
    }

    /// Two addresses are equal when their lower-case texts are.
    open spec fn eq_spec(&self, other: &Self) -> bool {
        self@ == other@
    }
}

impl Eq for Email {

}

impl Email {
    #[verifier::type_invariant]
    closed spec fn well_formed(self) -> bool {
        is_address(self.0@) && has_no_upper(self.0@)
    }

    /// What `parse_lowered` returns for the text `s`.
    pub open spec fn lowered_outcome(s: Seq<char>) -> Outcome {
        if is_address(ascii_lowercase(s)) {
            Ok(ascii_lowercase(s))
        } else {
            Err(INVALID_MESSAGE@)
        }
    }

    /// What `parse` returns for the text `s`. Text that is all ASCII is
    /// lowered letter by letter; other text first gets the standard
    /// library's lower-case form.
    pub open spec fn parse_outcome(s: Seq<char>) -> Outcome {
        if is_ascii_chars(s) {
            Self::lowered_outcome(s)
        } else {
            Self::lowered_outcome(unicode_lowercase(s))
        }
    }

    /// Puts the ASCII letters of `email` in lower case and accepts the
    /// result if it is an address. On text that is all ASCII this is
    /// `parse`.
    pub fn parse_lowered(email: &str) -> (r: Result<Self, TypeError>)
        ensures
            outcome(r) == Self::lowered_outcome(email@),
    {
        let normal = to_ascii_lowercase(email);
        let chars = chars_of(normal.as_str());
        if is_address_text(&chars) {
            Ok(Email(normal))
        } else {
            Err(TypeError::ParseError(String::from_str(INVALID_MESSAGE)))
        }
    }

    /// Puts `email` in lower case and accepts the result if it is an
    /// address.
    pub fn parse(email: &str) -> (r: Result<Self, TypeError>)
        ensures
            outcome(r) == Self::parse_outcome(email@),
    {
        if email.is_ascii() {
            Self::parse_lowered(email)
        } else {
            let lowered = to_unicode_lowercase(email);
            Self::parse_lowered(lowered.as_str())
        }
    }

    /// The text of the address.
    pub fn as_str(&self) -> (text: &str)
        ensures
            text@ == self@,
            is_address(text@),
            has_no_upper(text@),
    {
        proof {
            use_type_invariant(self);
        }
        self.0.as_str()
    }

    /// Renders the address: its text, verbatim.
    pub fn to_string(&self) -> (text: String)
        ensures
            text@ == self@,
            is_address(text@),
            has_no_upper(text@),
    {
        proof {
            use_type_invariant(self);
        }
        self.0.clone()
    }
}

/// Every character of an address is ASCII.
pub proof fn lemma_address_is_ascii(s: Seq<char>)
    requires
        is_address(s),
    ensures
        is_ascii_chars(s),
{
    let at = choose|at: int| is_address_split_at(s, at);
    let h = s.skip(at + 1);
    assert forall|i: int| 0 <= i < s.len() implies '\0' <= #[trigger] s[i] <= '\u{7f}' by {
        if i < at {
            assert(is_local_char(s[i]));
        } else if i > at {
            assert(h[i - at - 1] == s[i]);
            assert(is_label_char(h[i - at - 1]) || h[i - at - 1] == '.');
        }
    }
}

/// Case does not matter: an address in lower case and the same address in
/// upper case parse to the same value, the address in lower case.
pub proof fn lemma_parse_ignores_case(s: Seq<char>)
    requires
        is_address(s),
        has_no_upper(s),
    ensures
        Email::parse_outcome(s) == Outcome::Ok(s),
        Email::parse_outcome(ascii_uppercase(s)) == Email::parse_outcome(s),
{
    lemma_address_is_ascii(s);
    assert(is_ascii_chars(ascii_uppercase(s)));
    assert(ascii_lowercase(s) == s);
    assert(ascii_lowercase(ascii_uppercase(s)) == s);
}

/// Two ASCII texts that differ only in the case of their letters parse to
/// the same result.
pub proof fn lemma_same_letters_same_outcome(s: Seq<char>, t: Seq<char>)
    requires
        is_ascii_chars(s),
        is_ascii_chars(t),
        ascii_lowercase(s) == ascii_lowercase(t),
    ensures
        Email::parse_outcome(s) == Email::parse_outcome(t),
{
}

/// Parsing what a parsed address renders to gives the same address again.
pub proof fn lemma_rendering_parses_to_itself(s: Seq<char>)
    ensures
        Email::parse_outcome(s) matches Ok(v) ==> Email::parse_outcome(v) == Outcome::Ok(v),
        Email::lowered_outcome(s) matches Ok(v) ==> Email::lowered_outcome(v) == Outcome::Ok(
            v,
        ),
{
    if Email::lowered_outcome(s) is Ok {
        let v = ascii_lowercase(s);
        assert(has_no_upper(v));
        assert(ascii_lowercase(v) == v);
    }
    if Email::parse_outcome(s) is Ok {
        let v = Email::parse_outcome(s)->Ok_0;
        lemma_address_is_ascii(v);
        assert(has_no_upper(v));
        assert(ascii_lowercase(v) == v);
    }
}

/// A label: one or more label characters.
pub open spec fn is_label(l: Seq<char>) -> bool {
    l.len() > 0 && forall|i: int| 0 <= i < l.len() ==> is_label_char(#[trigger] l[i])
}

/// The labels in a row, with a dot between each two neighbours.
pub open spec fn join_with_dots(labels: Seq<Seq<char>>) -> Seq<char>
    decreases labels.len(),
{
    if labels.len() == 0 {
        Seq::empty()
    } else if labels.len() == 1 {
        labels[0]
    } else {
        join_with_dots(labels.drop_last()) + seq!['.'] + labels.last()
    }
}

/// Whether `h` is the two or more labels `labels`, joined by dots.
pub open spec fn is_joined_labels(h: Seq<char>, labels: Seq<Seq<char>>) -> bool {
    &&& labels.len() >= 2
    &&& forall|i: int| 0 <= i < labels.len() ==> is_label(#[trigger] labels[i])
    &&& h == join_with_dots(labels)
}

/// What `is_dotted_host` asks of a text, but for the dot.
spec fn has_host_shape(h: Seq<char>) -> bool {
    &&& h.len() > 0
    &&& forall|i: int| 0 <= i < h.len() ==> is_label_char(#[trigger] h[i]) || h[i] == '.'
    &&& h.first() != '.'
    &&& h.last() != '.'
    &&& forall|i: int| 0 < i < h.len() && h[i - 1] == '.' ==> #[trigger] h[i] != '.'
}

/// Labels joined by dots have the shape of a host, and a dot where there
/// are two labels or more.
proof fn lemma_joined_labels_have_host_shape(labels: Seq<Seq<char>>)
    requires
        labels.len() >= 1,
        forall|i: int| 0 <= i < labels.len() ==> is_label(#[trigger] labels[i]),
    ensures
        has_host_shape(join_with_dots(labels)),
        labels.len() >= 2 ==> exists|i: int|
            0 <= i < join_with_dots(labels).len() && #[trigger] join_with_dots(labels)[i] == '.',
    decreases labels.len(),
{
    let h = join_with_dots(labels);
    if labels.len() == 1 {
        assert(is_label(labels[0]));
    } else {
        let front = labels.drop_last();
        let before = join_with_dots(front);
        let last = labels.last();
        assert(is_label(last));
        assert forall|i: int| 0 <= i < front.len() implies is_label(#[trigger] front[i]) by {
            assert(front[i] == labels[i]);
        }
        lemma_joined_labels_have_host_shape(front);
        assert(h == before + seq!['.'] + last);
        assert forall|i: int| 0 <= i < h.len() implies is_label_char(#[trigger] h[i]) || h[i]
            == '.' by {
            if i < before.len() {
                assert(h[i] == before[i]);
            } else if i > before.len() {
                assert(h[i] == last[i - before.len() - 1]);
            }
        }
        assert(h.first() == before.first());
        assert(h.last() == last.last());
        assert forall|i: int| 0 < i < h.len() && h[i - 1] == '.' implies #[trigger] h[i]
            != '.' by {
            if i < before.len() {
                assert(h[i] == before[i] && h[i - 1] == before[i - 1]);
            } else if i == before.len() {
                assert(h[i - 1] == before.last());
            } else {
                assert(h[i] == last[i - before.len() - 1]);
            }
        }
        assert(h[before.len() as int] == '.');
    }
}

/// A text with the shape of a host is labels joined by dots: two or more
/// where the text has a dot.
proof fn lemma_host_shape_has_labels(h: Seq<char>) -> (labels: Seq<Seq<char>>)
    requires
        has_host_shape(h),
    ensures
        labels.len() >= 1,
        forall|i: int| 0 <= i < labels.len() ==> is_label(#[trigger] labels[i]),
        h == join_with_dots(labels),
        (exists|i: int| 0 <= i < h.len() && #[trigger] h[i] == '.') ==> labels.len() >= 2,
    decreases h.len(),
{
    let c = h.last();
    let front = h.drop_last();
    if front.len() == 0 {
        assert(h == seq![c]);
        let labels = seq![h];
        assert(is_label(labels[0]));
        labels
    } else if front.last() == '.' {
        // `c` begins a label of its own.
        let before = front.drop_last();
        assert(h[h.len() - 2] == '.');
        assert(before.len() > 0) by {
            if before.len() == 0 {
                assert(h.first() == front.last());
            }
        }
        assert(has_host_shape(before)) by {
            assert(forall|i: int| 0 <= i < before.len() ==> before[i] == h[i]);
            assert(h[h.len() - 3] == before.last());
            assert(before.last() != '.') by {
                if before.last() == '.' {
                    assert(h[h.len() - 2] != '.');
                }
            }
        }
        let front_labels = lemma_host_shape_has_labels(before);
        let labels = front_labels.push(seq![c]);
        assert(labels.drop_last() == front_labels);
        assert(labels.last() == seq![c]);
        assert(h == before + seq!['.'] + seq![c]);
        assert forall|i: int| 0 <= i < labels.len() implies is_label(#[trigger] labels[i]) by {
            if i < front_labels.len() {
                assert(labels[i] == front_labels[i]);
            } else {
                assert(labels[i] == seq![c]);
                assert(is_label_char(c));
            }
        }
        labels
    } else {
        // `c` goes on with the last label.
        assert(has_host_shape(front)) by {
            assert(forall|i: int| 0 <= i < front.len() ==> front[i] == h[i]);
        }
        let front_labels = lemma_host_shape_has_labels(front);
        let grown = front_labels.last().push(c);
        let labels = front_labels.drop_last().push(grown);
        assert(labels.drop_last() == front_labels.drop_last());
        assert(labels.last() == grown);
        assert(is_label(front_labels.last()));
        assert(is_label(grown)) by {
            assert forall|i: int| 0 <= i < grown.len() implies is_label_char(
                #[trigger] grown[i],
            ) by {
                if i < front_labels.last().len() {
                    assert(grown[i] == front_labels.last()[i]);
                }
            }
        }
        assert forall|i: int| 0 <= i < labels.len() implies is_label(#[trigger] labels[i]) by {
            if i < labels.len() - 1 {
                assert(labels[i] == front_labels[i]);
            }
        }
        assert(h == front.push(c));
        if front_labels.len() == 1 {
            assert(front == front_labels[0]);
            assert(join_with_dots(labels) == grown);
            assert(forall|i: int| 0 <= i < front.len() ==> front[i] == h[i]);
            assert(forall|i: int| 0 <= i < front.len() ==> is_label_char(#[trigger] front[i]));
            assert forall|i: int| 0 <= i < h.len() implies #[trigger] h[i] != '.' by {
                if i < front.len() {
                    assert(is_label_char(front[i]));
                }
            }
        } else {
            let before = join_with_dots(front_labels.drop_last());
            assert(front == before + seq!['.'] + front_labels.last());
            assert(join_with_dots(labels) == before + seq!['.'] + grown);
            assert(h == before + seq!['.'] + grown);
        }
        labels
    }
}

/// The grammar of a host, said of its labels: a text is a dotted host
/// exactly when it is two or more labels with a dot between each two
/// neighbours.
pub proof fn lemma_host_is_labels_joined_by_dots(h: Seq<char>)
    ensures
        is_dotted_host(h) <==> exists|labels: Seq<Seq<char>>| is_joined_labels(h, labels),
{
    if is_dotted_host(h) {
        let labels = lemma_host_shape_has_labels(h);
        assert(is_joined_labels(h, labels));
    }
    if exists|labels: Seq<Seq<char>>| is_joined_labels(h, labels) {
        let labels = choose|labels: Seq<Seq<char>>| is_joined_labels(h, labels);
        lemma_joined_labels_have_host_shape(labels);
    }
}

} // verus!
