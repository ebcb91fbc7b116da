//! Validated value types: email addresses, raw passwords, phone numbers and
//! URLs, each a text that has passed its grammar, and the countries whose
//! dial codes stand in front of phone numbers.
//!
//! A value of one of these types can only be had from the type's parsing
//! constructor, which either returns the value or says in a `TypeError` why
//! it did not. Every grammar is a predicate on sequences of characters,
//! and every constructor is proved to accept the texts of its grammar and
//! no others.

pub mod country_code;
pub mod email;
pub mod error;
pub mod password;
pub mod phone;
pub mod text;
pub mod url;

pub use country_code::CountryCode;
pub use email::Email;
pub use error::TypeError;
pub use password::RawPassword;
pub use phone::PhoneNumber;
pub use url::Url;
