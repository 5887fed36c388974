//! Reading a rate from decimal text, with or without an exponent.

use rust_decimal::Decimal;
use vstd::prelude::*;

verus! {

/// Scientific notation parsing.
///
/// What a rate type makes of a text is its own affair: this library
/// promises nothing of it, and says of its own results only what holds
/// whatever the rate type answers. See [`reads_as`].
pub trait FromScientific: Sized {
    /// The parse error type.
    type Error;

    /// Parses a decimal number from a string.
    ///
    /// The number representation may or may not be in scientific notation.
    fn parse_scientific(s: &str) -> Result<Self, Self::Error>;
}

/// Whether the rate type may make `parsed` of the text `text`.
pub open spec fn reads_as<RATE: FromScientific>(text: Seq<char>, parsed: Result<RATE, RATE::Error>) -> bool {
    exists|s: &str| s@ == text && #[trigger] call_ensures(RATE::parse_scientific, (s,), parsed)
}

/// `Decimal` of `rust_decimal`, carried through as it is: nothing in this
/// library looks inside one.
#[verifier::external_type_specification]
#[verifier::external_body]
pub struct ExDecimal(rust_decimal::Decimal);

/// The number that `Decimal::from_str` of `rust_decimal` reads in `s`;
/// nothing where it refuses `s`.
pub uninterp spec fn decimal_from_str(s: Seq<char>) -> Option<Decimal>;

/// The number that `Decimal::from_scientific` of `rust_decimal` reads in
/// `s`, a mantissa with an exponent; nothing where it refuses `s`.
pub uninterp spec fn decimal_from_scientific(s: Seq<char>) -> Option<Decimal>;

/// `Decimal::from_str` of `rust_decimal`: the number that it reads in `s`,
/// by the name [`decimal_from_str`].
#[verifier::external_body]
fn decimal_parse_plain(s: &str) -> (r: Option<Decimal>)
    ensures
        r == decimal_from_str(s@),
{
    s.parse::<Decimal>().ok()
}

/// `Decimal::from_scientific` of `rust_decimal`: the number that it reads
/// in `s`, by the name [`decimal_from_scientific`].
#[verifier::external_body]
fn decimal_parse_exponent(s: &str) -> (r: Option<Decimal>)
    ensures
        r == decimal_from_scientific(s@),
{
    Decimal::from_scientific(s).ok()
}

/// The text is no decimal number, or none that a [`Decimal`] can hold.
#[derive(Debug, Clone, Copy, PartialEq, Eq, Structural, Hash)]
pub struct InvalidDecimal;

/// The decimal number that `s` stands for: what `Decimal::from_str` reads
/// in it, and where that refuses `s`, what `Decimal::from_scientific` reads
/// in it.
pub open spec fn decimal_value(s: Seq<char>) -> Option<Decimal> {
    match decimal_from_str(s) {
        Some(value) => Some(value),
        None => decimal_from_scientific(s),
    }
}

impl FromScientific for Decimal {
    type Error = InvalidDecimal;

    fn parse_scientific(s: &str) -> (r: Result<Self, Self::Error>)
        ensures
            match r {
                Ok(value) => decimal_value(s@) == Some(value),
                Err(_) => decimal_value(s@) is None,
            },
    {
        match decimal_parse_plain(s) {
            Some(value) => Ok(value),
            None => match decimal_parse_exponent(s) {
                Some(value) => Ok(value),
                None => Err(InvalidDecimal),
            },
        }
    }
}

/// What a [`Decimal`] may be read as is settled by the text: the number
/// that [`decimal_value`] names, and a refusal where it names none.
pub proof fn lemma_decimal_reads(text: Seq<char>, parsed: Result<Decimal, InvalidDecimal>)
    requires
        reads_as::<Decimal>(text, parsed),
    ensures
        match parsed {
            Ok(value) => decimal_value(text) == Some(value),
            Err(_) => decimal_value(text) is None,
        },
{
}

} // verus!
