//! Raw passwords, accepted at one of three tiers of strength.
//!
//! A tier is a set of texts; each tier lies inside the one below it. A
//! value keeps the text as it was given: no character is changed.

use crate::error::{outcome, Outcome, TypeError};
use crate::text::{is_digit, is_letter, is_lower, is_upper};
use vstd::prelude::*;
use vstd::std_specs::cmp::PartialEqSpecImpl;

verus! {

/// The least number of characters in a password of any tier.
pub const MIN_LENGTH: usize = 8;

/// What `parse_weak` says of a text that it refuses.
pub const WEAK_MESSAGE: &'static str = "Weak password: must be at least 8 characters long";

/// What `parse_medium` says of a text that it refuses.
pub const MEDIUM_MESSAGE: &'static str =
    "Medium password: must be at least 8 characters long and contain both letters and digits";

/// What `parse_strict` says of a text that it refuses.
pub const STRICT_MESSAGE: &'static str =
    "Strict password: must be at least 8 characters long and contain uppercase, lowercase, digits, and special characters";

/// A character that is neither an ASCII letter nor an ASCII digit.
#[verifier::allow_in_spec]
pub fn is_special(c: char) -> bool
    returns
        !is_letter(c) && !is_digit(c),
{
    !is_letter(c) && !is_digit(c)
}

/// Some character of `s` is an upper-case ASCII letter.
pub open spec fn contains_upper(s: Seq<char>) -> bool {
    exists|i: int| 0 <= i < s.len() && is_upper(#[trigger] s[i])
}

/// Some character of `s` is a lower-case ASCII letter.
pub open spec fn contains_lower(s: Seq<char>) -> bool {
    exists|i: int| 0 <= i < s.len() && is_lower(#[trigger] s[i])
}

/// Some character of `s` is an ASCII letter.
pub open spec fn contains_letter(s: Seq<char>) -> bool {
    exists|i: int| 0 <= i < s.len() && is_letter(#[trigger] s[i])
}

/// Some character of `s` is an ASCII digit.
pub open spec fn contains_digit(s: Seq<char>) -> bool {
    exists|i: int| 0 <= i < s.len() && is_digit(#[trigger] s[i])
}

/// Some character of `s` is neither an ASCII letter nor an ASCII digit.
pub open spec fn contains_special(s: Seq<char>) -> bool {
    exists|i: int| 0 <= i < s.len() && is_special(#[trigger] s[i])
}

/// The weak tier: at least eight characters, counted as Unicode scalar
/// values.
pub open spec fn is_weak(s: Seq<char>) -> bool {
    s.len() >= MIN_LENGTH
}

/// The medium tier: at least eight characters, a digit and a letter among
/// them.
pub open spec fn is_medium(s: Seq<char>) -> bool {
    &&& s.len() >= MIN_LENGTH
    &&& contains_digit(s)
    &&& contains_letter(s)
}

/// The strict tier: at least eight characters, among them an upper-case
/// letter, a lower-case letter, a digit, and a character that is neither
/// letter nor digit.
pub open spec fn is_strict(s: Seq<char>) -> bool {
    &&& s.len() >= MIN_LENGTH
    &&& contains_upper(s)
    &&& contains_lower(s)
    &&& contains_digit(s)
    &&& contains_special(s)
}

/// Which classes of characters occur in a text.
struct Survey {
    upper: bool,
    lower: bool,
    digit: bool,
    special: bool,
}

/// Reads `password` once and notes the classes of its characters.
fn survey(password: &str) -> (seen: Survey)
    ensures
        seen.upper == contains_upper(password@),
        seen.lower == contains_lower(password@),
        seen.digit == contains_digit(password@),
        seen.special == contains_special(password@),
{
    let mut seen = Survey { upper: false, lower: false, digit: false, special: false };
    for c in it: password.chars()
        invariant
            it.seq() == password@,
            seen.upper == contains_upper(password@.take(it.index() as int)),
            seen.lower == contains_lower(password@.take(it.index() as int)),
            seen.digit == contains_digit(password@.take(it.index() as int)),
            seen.special == contains_special(password@.take(it.index() as int)),
    {
        let ghost before = password@.take(it.index() as int);
        let ghost after = password@.take(it.index() + 1);
        proof {
            assert(after == before.push(c));
            assert(forall|i: int| 0 <= i < before.len() ==> before[i] == after[i]);
            assert(after[before.len() as int] == c);
        }
        if is_upper(c) {
            seen.upper = true;
        } else if is_lower(c) {
            seen.lower = true;
        } else if is_digit(c) {
            seen.digit = true;
        } else {
            seen.special = true;
        }
    }
    proof {
        assert(password@.take(password@.len() as int) == password@);
    }
    seen
}

/// A password that has passed one of the three tiers. Which tier is not
/// kept; every value holds at least eight characters.
#[derive(Debug)]
pub struct RawPassword(String);

impl View for RawPassword {
    type V = Seq<char>;

    closed spec fn view(&self) -> Seq<char> {
        self.0@
    }
}

impl Clone for RawPassword {
    fn clone(&self) -> (copy: Self)
        ensures
            copy@ == self@,
    {
        proof {
            use_type_invariant(self);
        }
        RawPassword(self.0.clone())
    }
}

impl PartialEq for RawPassword {
    fn eq(&self, other: &Self) -> (same: bool) {
        self.0 == other.0
    }
}

impl PartialEqSpecImpl for RawPassword {
    open spec fn obeys_eq_spec() -> bool {
        true
    }

    /// Two passwords are equal when their texts are.
    open spec fn eq_spec(&self, other: &Self) -> bool {
        self@ == other@
    }
}

impl Eq for RawPassword {

}

impl RawPassword {
    #[verifier::type_invariant]
    closed spec fn well_formed(self) -> bool {
        is_weak(self.0@)
    }

    /// What `parse_weak` returns for the text `s`.
    pub open spec fn weak_outcome(s: Seq<char>) -> Outcome {
        if is_weak(s) {
            Ok(s)
        } else {
            Err(WEAK_MESSAGE@)
        }
    }

    /// What `parse_medium` returns for the text `s`.
    pub open spec fn medium_outcome(s: Seq<char>) -> Outcome {
        if is_medium(s) {
            Ok(s)
        } else {
            Err(MEDIUM_MESSAGE@)
        }
    }

    /// What `parse_strict` returns for the text `s`.
    pub open spec fn strict_outcome(s: Seq<char>) -> Outcome {
        if is_strict(s) {
            Ok(s)
        } else {
            Err(STRICT_MESSAGE@)
        }
    }

    /// The text of the password.
    pub fn as_str(&self) -> (text: &str)
        ensures
            text@ == self@,
            is_weak(text@),
    {
        proof {
            use_type_invariant(self);
        }
        self.0.as_str()
    }

    /// Renders the password: its text, verbatim.
    pub fn to_string(&self) -> (text: String)
        ensures
            text@ == self@,
            is_weak(text@),
    {
        proof {
            use_type_invariant(self);
        }
        self.0.clone()
    }

    /// Accepts `password` if it is in the weak tier, and keeps it unchanged.
    pub fn parse_weak(password: &str) -> (r: Result<Self, TypeError>)
        ensures
            outcome(r) == Self::weak_outcome(password@),
    {
        if password.unicode_len() >= MIN_LENGTH {
            Ok(RawPassword(String::from_str(password)))
        } else {
            Err(TypeError::ParseError(String::from_str(WEAK_MESSAGE)))
        }
    }

    /// Accepts `password` if it is in the medium tier, and keeps it
    /// unchanged.
    pub fn parse_medium(password: &str) -> (r: Result<Self, TypeError>)
        ensures
            outcome(r) == Self::medium_outcome(password@),
    {
        let seen = survey(password);
        proof {
            lemma_letter_is_upper_or_lower(password@);
        }
        if password.unicode_len() >= MIN_LENGTH && seen.digit && (seen.upper || seen.lower) {
            Ok(RawPassword(String::from_str(password)))
        } else {
            Err(TypeError::ParseError(String::from_str(MEDIUM_MESSAGE)))
        }
    }

    /// Accepts `password` if it is in the strict tier, and keeps it
    /// unchanged.
    pub fn parse_strict(password: &str) -> (r: Result<Self, TypeError>)
        ensures
            outcome(r) == Self::strict_outcome(password@),
    {
        let seen = survey(password);
        if password.unicode_len() >= MIN_LENGTH && seen.upper && seen.lower && seen.digit
            && seen.special {
            Ok(RawPassword(String::from_str(password)))
        } else {
            Err(TypeError::ParseError(String::from_str(STRICT_MESSAGE)))
        }
    }
}

/// The tiers nest: what `parse_strict` accepts, `parse_medium` accepts, and
/// what `parse_medium` accepts, `parse_weak` accepts.
pub proof fn lemma_stricter_tier_is_accepted_below(s: Seq<char>)
    ensures
        RawPassword::strict_outcome(s) is Ok ==> RawPassword::medium_outcome(s) is Ok,
        RawPassword::medium_outcome(s) is Ok ==> RawPassword::weak_outcome(s) is Ok,
{
    if is_strict(s) {
        let i = choose|i: int| 0 <= i < s.len() && is_upper(#[trigger] s[i]);
        assert(is_letter(s[i]));
    }
}

/// A text with an upper-case or a lower-case letter has a letter, and the
/// other way round.
pub proof fn lemma_letter_is_upper_or_lower(s: Seq<char>)
    ensures
        contains_letter(s) == (contains_upper(s) || contains_lower(s)),
{
    if contains_upper(s) {
        let i = choose|i: int| 0 <= i < s.len() && is_upper(#[trigger] s[i]);
        assert(is_letter(s[i]));
    }
    if contains_lower(s) {
        let i = choose|i: int| 0 <= i < s.len() && is_lower(#[trigger] s[i]);
        assert(is_letter(s[i]));
    }
    if contains_letter(s) {
        let i = choose|i: int| 0 <= i < s.len() && is_letter(#[trigger] s[i]);
        assert(is_upper(s[i]) || is_lower(s[i]));
    }
}

/// Parsing what a parsed password renders to, at the same tier, gives the
/// same password again.
pub proof fn lemma_rendering_parses_to_itself(s: Seq<char>)
    ensures
        RawPassword::weak_outcome(s) matches Ok(v) ==> RawPassword::weak_outcome(v)
            == Outcome::Ok(v),
        RawPassword::medium_outcome(s) matches Ok(v) ==> RawPassword::medium_outcome(v)
            == Outcome::Ok(v),
        RawPassword::strict_outcome(s) matches Ok(v) ==> RawPassword::strict_outcome(v)
            == Outcome::Ok(v),
{
}

} // verus!
