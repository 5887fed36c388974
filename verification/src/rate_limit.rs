//! Rate-limit data, read from the headers of a response.

use vstd::prelude::*;
use vstd::string::StringSliceAdditionalSpecFns;

use crate::text::{bytes_eq_ignore_case, eq_ignore_case};

mod private;

verus! {

/// The header that says how many requests can be made in a minute.
pub const LIMIT_MINUTE: &'static str = "X-RateLimit-Limit-Quota-Minute";

/// The header that says how many requests can be made in a month.
pub const LIMIT_MONTH: &'static str = "X-RateLimit-Limit-Quota-Month";

/// The header that says how many requests remain in this minute.
pub const REMAINING_MINUTE: &'static str = "X-RateLimit-Remaining-Quota-Minute";

/// The header that says how many requests remain in this month.
pub const REMAINING_MONTH: &'static str = "X-RateLimit-Remaining-Quota-Month";

/// One header of a response.
#[derive(Debug, PartialEq, Eq, Hash)]
pub struct Header {
    /// The header's name, in any case.
    pub name: String,
    /// The header's value.
    pub value: Vec<u8>,
}

/// Whether `b` is an ASCII digit.
pub open spec fn is_digit(b: u8) -> bool {
    0x30 <= b && b <= 0x39
}

/// How many digits `text` begins with.
pub open spec fn digits_len(text: Seq<u8>) -> nat
    decreases text.len(),
{
    if text.len() > 0 && is_digit(text[0]) {
        1 + digits_len(text.drop_first())
    } else {
        0
    }
}

/// The number that the digits `digits` write in base ten.
pub open spec fn decimal_value(digits: Seq<u8>) -> nat
    decreases digits.len(),
{
    if digits.len() == 0 {
        0
    } else {
        decimal_value(digits.drop_last()) * 10 + (digits.last() - 0x30) as nat
    }
}

/// The number written by the digits that `text` begins with; zero where it
/// begins with none.
pub open spec fn leading_value(text: Seq<u8>) -> nat {
    decimal_value(text.take(digits_len(text) as int))
}

/// `value` as a `usize`, where it fits.
pub open spec fn fitting(value: nat) -> Option<usize> {
    if value <= usize::MAX {
        Some(value as usize)
    } else {
        None
    }
}

/// The unsigned number that `text` begins with.
///
/// Bytes after the number do not count. A `+` may stand before the digits,
/// and then the digits may be missing: the number is zero. A `-` may stand
/// there as well, as long as the number is zero. Without a sign there must
/// be a digit. A number above `usize::MAX` is none.
pub open spec fn atoi_spec(text: Seq<u8>) -> Option<usize> {
    if text.len() > 0 && text[0] == 0x2b {
        fitting(leading_value(text.drop_first()))
    } else if text.len() > 0 && text[0] == 0x2d {
        if leading_value(text.drop_first()) == 0 {
            Some(0usize)
        } else {
            None
        }
    } else if digits_len(text) == 0 {
        None
    } else {
        fitting(leading_value(text))
    }
}

/// `atoi::atoi` at `usize`: the unsigned number that `text` begins with.
#[verifier::external_body]
fn atoi_usize(text: &[u8]) -> (r: Option<usize>)
    ensures
        r == atoi_spec(text@),
{
    atoi::atoi::<usize>(text)
}

/// The name of `header`, as bytes.
pub open spec fn name_bytes(header: Header) -> Seq<u8> {
    vstd::utf8::encode_utf8(header.name@)
}

/// Whether `i` is the place of the first of `headers` with the name `name`,
/// whatever the case of either.
pub open spec fn is_first_header(headers: Seq<Header>, name: Seq<u8>, i: int) -> bool {
    &&& 0 <= i < headers.len()
    &&& eq_ignore_case(name_bytes(headers[i]), name)
    &&& forall|j: int| 0 <= j < i ==> !eq_ignore_case(name_bytes(#[trigger] headers[j]), name)
}

/// The value of the first of `headers` with the name `name`.
pub open spec fn header_value(headers: Seq<Header>, name: Seq<u8>) -> Option<Seq<u8>> {
    if exists|i: int| is_first_header(headers, name, i) {
        Some(headers[choose|i: int| is_first_header(headers, name, i)].value@)
    } else {
        None
    }
}

/// Whether `text` writes an unsigned integer: at least one byte, and
/// nothing but ASCII digits.
pub open spec fn is_unsigned(text: Seq<u8>) -> bool {
    text.len() > 0 && forall|i: int| 0 <= i < text.len() ==> is_digit(#[trigger] text[i])
}

/// The unsigned integer that `text` writes, where it writes one that fits
/// a `usize`. A sign, a space or any other byte that is no digit makes it
/// none, wherever it stands.
pub open spec fn unsigned_value(text: Seq<u8>) -> Option<usize> {
    if is_unsigned(text) {
        fitting(decimal_value(text))
    } else {
        None
    }
}

/// The unsigned integer in the first of `headers` with the name `name`:
/// none where no header has that name, and none where the value of the
/// first that has it is no unsigned integer that fits a `usize`.
pub open spec fn quota(headers: Seq<Header>, name: Seq<u8>) -> Option<usize> {
    match header_value(headers, name) {
        Some(value) => unsigned_value(value),
        None => None,
    }
}

/// A text of digits alone begins with as many digits as it has bytes.
pub proof fn lemma_digits_len_of_digits(text: Seq<u8>)
    requires
        forall|i: int| 0 <= i < text.len() ==> is_digit(#[trigger] text[i]),
    ensures
        digits_len(text) == text.len(),
    decreases text.len(),
{
    if text.len() > 0 {
        let rest = text.drop_first();
        assert(is_digit(text[0]));
        assert forall|i: int| 0 <= i < rest.len() implies is_digit(#[trigger] rest[i]) by {
            assert(rest[i] == text[i + 1]);
        }
        lemma_digits_len_of_digits(rest);
    }
}

/// Of a text that writes an unsigned integer, the number that it begins
/// with is the number that it writes.
pub proof fn lemma_atoi_of_unsigned(text: Seq<u8>)
    requires
        is_unsigned(text),
    ensures
        atoi_spec(text) == unsigned_value(text),
{
    lemma_digits_len_of_digits(text);
    assert(is_digit(text[0]));
    assert(text.take(text.len() as int) =~= text);
}

/// Finds the value of the first header with the given name. The case of
/// the letters in a name does not count.
pub fn find_header<'a>(headers: &'a [Header], name: &str) -> (r: Option<&'a Vec<u8>>)
    ensures
        match r {
            Some(value) => header_value(headers@, name.spec_bytes()) == Some(value@),
            None => header_value(headers@, name.spec_bytes()) is None,
        },
{
    let ghost wanted = name.spec_bytes();
    let n = headers.len();
    let mut i: usize = 0;
    while i < n
        invariant
            i <= n,
            n == headers@.len(),
            wanted == name.spec_bytes(),
            forall|j: int| 0 <= j < i ==> !eq_ignore_case(name_bytes(#[trigger] headers@[j]), wanted),
        decreases n - i,
    {
        if bytes_eq_ignore_case(headers[i].name.as_str().as_bytes(), name.as_bytes()) {
            proof {
                assert(is_first_header(headers@, wanted, i as int));
                let k = choose|k: int| is_first_header(headers@, wanted, k);
                assert(is_first_header(headers@, wanted, k));
                if k < i {
                    assert(!eq_ignore_case(name_bytes(headers@[k]), wanted));
                }
                if i < k {
                    assert(!eq_ignore_case(name_bytes(headers@[i as int]), wanted));
                }
                assert(k == i);
            }
            return Some(&headers[i].value);
        }
        i += 1;
    }
    proof {
        assert forall|k: int| !is_first_header(headers@, wanted, k) by {
            if 0 <= k < headers@.len() {
                assert(!eq_ignore_case(name_bytes(headers@[k]), wanted));
            }
        }
    }
    None
}

/// Tells whether `text` writes an unsigned integer: at least one byte, and
/// nothing but ASCII digits.
pub fn writes_unsigned(text: &[u8]) -> (r: bool)
    ensures
        r == is_unsigned(text@),
{
    let n = text.len();
    if n == 0 {
        return false;
    }
    let mut i: usize = 0;
    while i < n
        invariant
            i <= n,
            n == text@.len(),
            forall|j: int| 0 <= j < i ==> is_digit(#[trigger] text@[j]),
        decreases n - i,
    {
        let b = text[i];
        if b < 0x30 || b > 0x39 {
            assert(!is_digit(text@[i as int]));
            return false;
        }
        i += 1;
    }
    true
}

/// Reads the unsigned integer that `text` writes. Only a text of digits
/// alone is read; whether the number fits is left to the reading.
pub fn parse_unsigned(text: &[u8]) -> (r: Option<usize>)
    ensures
        r == unsigned_value(text@),
{
    if !writes_unsigned(text) {
        return None;
    }
    proof {
        lemma_atoi_of_unsigned(text@);
    }
    atoi_usize(text)
}

/// Reads the unsigned integer in the first header with the given name.
pub fn read_quota(headers: &[Header], name: &str) -> (r: Option<usize>)
    ensures
        r == quota(headers@, name.spec_bytes()),
{
    match find_header(headers, name) {
        Some(value) => parse_unsigned(value.as_slice()),
        None => None,
    }
}

/// Rate-limit data from response headers.
#[derive(Debug, Hash, Clone, Copy, PartialEq, PartialOrd, Eq, Ord, Structural)]
pub struct RateLimit {
    /// How many requests can be made in a minute.
    pub limit_minute: usize,
    /// How many requests can be made in a month.
    pub limit_month: usize,
    /// How many remaining requests can be made in the minute of request.
    pub remainig_minute: usize,
    /// How many remaining requests can be made in the month of request.
    pub remaining_month: usize,
}

impl Default for RateLimit {
    /// All four counters at zero.
    fn default() -> (r: Self)
        ensures
            r == (RateLimit { limit_minute: 0, limit_month: 0, remainig_minute: 0, remaining_month: 0 }),
    {
        RateLimit { limit_minute: 0, limit_month: 0, remainig_minute: 0, remaining_month: 0 }
    }
}

/// Ignore rate limit data.
#[derive(Debug, Clone, Copy, PartialEq, Eq, Structural)]
pub struct RateLimitIgnore;

/// What a response says of rate limits, for one way of keeping it: in
/// full, as [`RateLimit`], or not at all, as [`RateLimitIgnore`].
pub trait RateLimitData: Sized + private::Sealed {
    /// What `headers` give, or nothing where they lack what is kept.
    spec fn from_headers_spec(headers: Seq<Header>) -> Option<Self>;

    /// Reads the rate-limit data off the headers of a response.
    fn from_headers(headers: &[Header]) -> (r: Option<Self>)
        ensures
            r == Self::from_headers_spec(headers@),
    ;
}

impl RateLimitData for RateLimit {
    /// The four counters, where each has a header whose value is an
    /// unsigned integer that fits a `usize`.
    open spec fn from_headers_spec(headers: Seq<Header>) -> Option<Self> {
        match (
            quota(headers, LIMIT_MINUTE.spec_bytes()),
            quota(headers, LIMIT_MONTH.spec_bytes()),
            quota(headers, REMAINING_MINUTE.spec_bytes()),
            quota(headers, REMAINING_MONTH.spec_bytes()),
        ) {
            (Some(limit_minute), Some(limit_month), Some(remainig_minute), Some(remaining_month)) => Some(
                RateLimit { limit_minute, limit_month, remainig_minute, remaining_month },
            ),
            _ => None,
        }
    }

    fn from_headers(headers: &[Header]) -> (r: Option<Self>) {
        let limit_minute = match read_quota(headers, LIMIT_MINUTE) {
            Some(n) => n,
            None => return None,
        };
        let limit_month = match read_quota(headers, LIMIT_MONTH) {
            Some(n) => n,
            None => return None,
        };
        let remainig_minute = match read_quota(headers, REMAINING_MINUTE) {
            Some(n) => n,
            None => return None,
        };
        let remaining_month = match read_quota(headers, REMAINING_MONTH) {
            Some(n) => n,
            None => return None,
        };
        Some(RateLimit { limit_minute, limit_month, remainig_minute, remaining_month })
    }
}

/// Whether `headers` hold a quota by the name `name`: a header of that
/// name is there, and the value of the first is an unsigned integer that
/// fits a `usize`.
pub open spec fn has_quota(headers: Seq<Header>, name: Seq<u8>) -> bool {
    header_value(headers, name) matches Some(value) && is_unsigned(value) && decimal_value(value)
        <= usize::MAX
}

/// Rate-limit data is read exactly when each of the four headers is there
/// with an unsigned integer that fits a `usize`, and then each counter is
/// the integer of its own header. One header that is missing, or whose
/// value is anything else, makes the reading fail.
pub proof fn lemma_rate_limit_reads(headers: Seq<Header>)
    ensures
        RateLimit::from_headers_spec(headers) is Some <==> {
            &&& has_quota(headers, LIMIT_MINUTE.spec_bytes())
            &&& has_quota(headers, LIMIT_MONTH.spec_bytes())
            &&& has_quota(headers, REMAINING_MINUTE.spec_bytes())
            &&& has_quota(headers, REMAINING_MONTH.spec_bytes())
        },
        RateLimit::from_headers_spec(headers) matches Some(limit) ==> {
            &&& limit.limit_minute == decimal_value(
                header_value(headers, LIMIT_MINUTE.spec_bytes()).unwrap(),
            )
            &&& limit.limit_month == decimal_value(
                header_value(headers, LIMIT_MONTH.spec_bytes()).unwrap(),
            )
            &&& limit.remainig_minute == decimal_value(
                header_value(headers, REMAINING_MINUTE.spec_bytes()).unwrap(),
            )
            &&& limit.remaining_month == decimal_value(
                header_value(headers, REMAINING_MONTH.spec_bytes()).unwrap(),
            )
        },
{
}

/// Where rate-limit data is ignored, no headers make the reading fail.
pub proof fn lemma_rate_limit_ignored(headers: Seq<Header>)
    ensures
        RateLimitIgnore::from_headers_spec(headers) == Some(RateLimitIgnore),
{
}

impl RateLimitData for RateLimitIgnore {
    /// Always there: nothing is read.
    open spec fn from_headers_spec(headers: Seq<Header>) -> Option<Self> {
        Some(RateLimitIgnore)
    }

    fn from_headers(headers: &[Header]) -> (r: Option<Self>) {
        Some(RateLimitIgnore)
    }
}

} // verus!
