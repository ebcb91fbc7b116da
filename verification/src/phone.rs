//! Phone numbers: the dial code of a country and, behind it, a national
//! number of ten to fifteen digits.
//!
//! The national number is held to the same grammar for every country; a
//! country adds its dial code and nothing else.

use crate::country_code::{lemma_dial_code_shape, CountryCode};
use crate::error::{outcome, Outcome, TypeError};
use crate::text::is_digit;
use vstd::prelude::*;
use vstd::std_specs::cmp::PartialEqSpecImpl;
use vstd::string::StringExecFns;

verus! {

/// What `PhoneNumber::parse` says of a text that it refuses.
pub const INVALID_MESSAGE: &'static str = "unable to parse phone number, invalid phone number.";

/// The least number of digits in a national number.
pub const MIN_DIGITS: usize = 10;

/// The greatest number of digits in a national number.
pub const MAX_DIGITS: usize = 15;

/// The grammar of a national number: ten to fifteen ASCII digits and
/// nothing else.
pub open spec fn is_national_number(d: Seq<char>) -> bool {
    &&& MIN_DIGITS <= d.len() <= MAX_DIGITS
    &&& forall|i: int| 0 <= i < d.len() ==> is_digit(#[trigger] d[i])
}

/// Whether `text` is the dial code of `country` followed by the national
/// number `digits`.
pub open spec fn is_rendering_of(text: Seq<char>, country: CountryCode, digits: Seq<char>) -> bool {
    is_national_number(digits) && text == country.dial_code_spec() + digits
}

/// Whether `text` is what some phone number renders to.
pub open spec fn is_phone_number(text: Seq<char>) -> bool {
    exists|country: CountryCode, digits: Seq<char>| is_rendering_of(text, country, digits)
}

/// Decides whether `digits` is a national number. The count stops at one
/// past the greatest length, which is enough to tell.
fn is_national_number_text(digits: &str) -> (ok: bool)
    ensures
        ok == is_national_number(digits@),
{
    let mut count: usize = 0;
    let mut all_digits = true;
    for c in it: digits.chars()
        invariant
            it.seq() == digits@,
            count == if it.index() <= MAX_DIGITS {
                it.index()
            } else {
                MAX_DIGITS + 1
            },
            all_digits == (forall|i: int| 0 <= i < it.index() ==> is_digit(#[trigger] digits@[i])),
    {
        if count <= MAX_DIGITS {
            count += 1;
        }
        if !is_digit(c) {
            all_digits = false;
        }
    }
    MIN_DIGITS <= count && count <= MAX_DIGITS && all_digits
}

/// A phone number that has passed the grammar, with its dial code in
/// front.
#[derive(Debug)]
pub struct PhoneNumber(String);

impl View for PhoneNumber {
    type V = Seq<char>;

    closed spec fn view(&self) -> Seq<char> {
        self.0@
    }
}

impl Clone for PhoneNumber {
    fn clone(&self) -> (copy: Self)
        ensures
            copy@ == self@,
    {
        proof {
            use_type_invariant(self);
        }
        PhoneNumber(self.0.clone())
    }
}

impl PartialEq for PhoneNumber {
    fn eq(&self, other: &Self) -> (same: bool) {
        self.0 == other.0
    }
}

impl PartialEqSpecImpl for PhoneNumber {
    open spec fn obeys_eq_spec() -> bool {
        true
    }

    /// Two phone numbers are equal when their texts are.
    open spec fn eq_spec(&self, other: &Self) -> bool {
        self@ == other@
    }
}

impl Eq for PhoneNumber {

}

impl PhoneNumber {
    #[verifier::type_invariant]
    closed spec fn well_formed(self) -> bool {
        is_phone_number(self.0@)
    }

    /// What `parse` returns for `country` and the text `digits`.
    pub open spec fn parse_outcome(country: CountryCode, digits: Seq<char>) -> Outcome {
        if is_national_number(digits) {
            Ok(country.dial_code_spec() + digits)
        } else {
            Err(INVALID_MESSAGE@)
        }
    }

    /// Accepts `digits` if it is a national number, and puts the dial code
    /// of `country` in front of it.
    pub fn parse(country: CountryCode, digits: &str) -> (r: Result<Self, TypeError>)
        ensures
            outcome(r) == Self::parse_outcome(country, digits@),
    {
        if is_national_number_text(digits) {
            let mut text = country.dial_code();
            text.append(digits);
            proof {
                assert(is_rendering_of(text@, country, digits@));
            }
            Ok(PhoneNumber(text))
        } else {
            Err(TypeError::ParseError(String::from_str(INVALID_MESSAGE)))
        }
    }

    /// The text of the phone number: dial code, then national number.
    pub fn as_str(&self) -> (text: &str)
        ensures
            text@ == self@,
            is_phone_number(text@),
    {
        proof {
            use_type_invariant(self);
        }
        self.0.as_str()
    }

    /// Renders the phone number: its text, verbatim.
    pub fn to_string(&self) -> (text: String)
        ensures
            text@ == self@,
            is_phone_number(text@),
    {
        proof {
            use_type_invariant(self);
        }
        self.0.clone()
    }
}

/// Whether the national number is accepted does not depend on the country.
pub proof fn lemma_country_does_not_decide(a: CountryCode, b: CountryCode, digits: Seq<char>)
    ensures
        (PhoneNumber::parse_outcome(a, digits) is Ok) == (PhoneNumber::parse_outcome(
            b,
            digits,
        ) is Ok),
{
}

/// What a phone number renders to is no national number: it begins with
/// `+`. So the rendering does not parse again, for any country.
pub proof fn lemma_rendering_does_not_parse(
    country: CountryCode,
    digits: Seq<char>,
    again: CountryCode,
)
    ensures
        PhoneNumber::parse_outcome(country, digits) matches Ok(text) ==> PhoneNumber::parse_outcome(
            again,
            text,
        ) is Err,
{
    if is_national_number(digits) {
        let text = country.dial_code_spec() + digits;
        lemma_dial_code_shape(country);
        assert(text[0] == '+');
        assert(!is_digit(text[0]));
    }
}

/// The national number of a parsed phone number is what follows the dial
/// code, and parsing it with the same country gives the same phone number
/// again.
pub proof fn lemma_national_number_parses_to_itself(country: CountryCode, digits: Seq<char>)
    ensures
        PhoneNumber::parse_outcome(country, digits) matches Ok(text) ==> {
            let national = text.skip(country.dial_code_spec().len() as int);
            national == digits && PhoneNumber::parse_outcome(country, national) == Outcome::Ok(text)
        },
{
    if is_national_number(digits) {
        let text = country.dial_code_spec() + digits;
        assert(text.skip(country.dial_code_spec().len() as int) =~= digits);
    }
}

} // verus!
