//! Currency codes: short upper-case identifiers packed into one 64-bit value.
//!
//! A [`CurrencyCode`] holds two to five upper-case ASCII letters. The letters
//! are stored in the low bytes of a `u64`, the first letter in the lowest
//! byte, and the remaining bytes are zero. Equality, ordering and hashing all
//! go by that one integer.

use std::cmp::Ordering;
use std::str::FromStr;
use vstd::prelude::*;
use vstd::std_specs::cmp::PartialOrdSpec;
use vstd::string::StringSliceAdditionalSpecFns;

use crate::text::{ascii_chars, lemma_ascii_text, lemma_encoding_injective, string_from_utf8};

pub mod list;

verus! {

/// The least number of letters in a currency code.
pub const CURRENCY_LEN_MIN: usize = 2;

/// The greatest number of letters in a currency code.
pub const CURRENCY_LEN_MAX: usize = 5;

/// Why a text is not a currency code.
#[derive(Debug, Clone, Copy, PartialEq, Eq, Structural, Hash)]
pub enum Error {
    /// The text has fewer than two bytes.
    TooShort,
    /// The text has more than five bytes.
    TooLong,
    /// The text holds this byte, which is not an upper-case ASCII letter.
    InvalidCharacter(u8),
}

/// Whether `b` is an upper-case ASCII letter.
pub open spec fn is_upper(b: u8) -> bool {
    0x41 <= b && b <= 0x5a
}

/// Whether every byte of `text` is an upper-case ASCII letter.
pub open spec fn all_upper(text: Seq<u8>) -> bool {
    forall|i: int| 0 <= i < text.len() ==> is_upper(#[trigger] text[i])
}

/// Whether `text` is the text of a currency code.
pub open spec fn valid_code(text: Seq<u8>) -> bool {
    2 <= text.len() <= 5 && all_upper(text)
}

/// The integer that holds `text` in its low bytes, first byte lowest.
pub open spec fn pack(text: Seq<u8>) -> nat
    decreases text.len(),
{
    if text.len() == 0 {
        0
    } else {
        text[0] as nat + 256 * pack(text.drop_first())
    }
}

/// Whether `i` is the place of the first byte of `text` that is no upper-case letter.
pub open spec fn is_first_non_upper(text: Seq<u8>, i: int) -> bool {
    &&& 0 <= i < text.len()
    &&& !is_upper(text[i])
    &&& forall|j: int| 0 <= j < i ==> is_upper(#[trigger] text[j])
}

/// The first byte of `text` that is no upper-case letter.
pub open spec fn first_non_upper(text: Seq<u8>) -> u8 {
    text[choose|i: int| is_first_non_upper(text, i)]
}

/// What strict parsing makes of `text`: the text itself where it is a
/// currency code, and otherwise the reason why it is none. Length is judged
/// before content.
pub open spec fn parse_spec(text: Seq<u8>) -> Result<Seq<u8>, Error> {
    if text.len() < 2 {
        Err(Error::TooShort)
    } else if text.len() > 5 {
        Err(Error::TooLong)
    } else if !all_upper(text) {
        Err(Error::InvalidCharacter(first_non_upper(text)))
    } else {
        Ok(text)
    }
}

/// What strict parsing makes of `text`, with the code in place of its text.
pub open spec fn parse_result(text: Seq<u8>) -> Result<CurrencyCode, Error> {
    match parse_spec(text) {
        Ok(letters) => Ok(code_of(letters)),
        Err(e) => Err(e),
    }
}

/// The upper-case form of one byte: ASCII lower-case letters change, nothing else does.
pub open spec fn upper_byte(b: u8) -> u8 {
    if 0x61 <= b && b <= 0x7a {
        (b - 0x20) as u8
    } else {
        b
    }
}

/// The upper-case form of `text`, byte by byte.
pub open spec fn upper_text(text: Seq<u8>) -> Seq<u8> {
    Seq::new(text.len(), |i: int| upper_byte(text[i]))
}

/// 256 to the power `n`.
pub open spec fn limit(n: nat) -> nat
    decreases n,
{
    if n == 0 {
        1
    } else {
        256 * limit((n - 1) as nat)
    }
}

/// A currency code: two to five upper-case ASCII letters in one `u64`.
#[derive(Debug, Clone, Copy, PartialEq, Eq, Structural, Hash, Ord)]
pub struct CurrencyCode {
    packed: u64,
}

/// The currency code with the letters `text`. Meaningful where `text` is
/// valid: see [`lemma_code_of`].
pub closed spec fn code_of(text: Seq<u8>) -> CurrencyCode {
    CurrencyCode { packed: pack(text) as u64 }
}

impl View for CurrencyCode {
    type V = Seq<u8>;

    /// The letters of the code, as bytes.
    closed spec fn view(&self) -> Seq<u8> {
        choose|text: Seq<u8>| valid_code(text) && #[trigger] pack(text) == self.packed
    }
}

impl PartialOrd for CurrencyCode {
    /// Orders codes by their integers.
    fn partial_cmp(&self, other: &Self) -> (r: Option<Ordering>) {
        if self.packed < other.packed {
            Some(Ordering::Less)
        } else if self.packed > other.packed {
            Some(Ordering::Greater)
        } else {
            Some(Ordering::Equal)
        }
    }
}

impl vstd::std_specs::cmp::PartialOrdSpecImpl for CurrencyCode {
    open spec fn obeys_partial_cmp_spec() -> bool {
        true
    }

    open spec fn partial_cmp_spec(&self, other: &Self) -> Option<Ordering> {
        if self.packed() < other.packed() {
            Some(Ordering::Less)
        } else if self.packed() > other.packed() {
            Some(Ordering::Greater)
        } else {
            Some(Ordering::Equal)
        }
    }
}

impl CurrencyCode {
    /// Every code holds the packed form of some valid text.
    #[verifier::type_invariant]
    pub closed spec fn wf(self) -> bool {
        exists|text: Seq<u8>| valid_code(text) && #[trigger] pack(text) == self.packed
    }

    /// The whole value as one integer: what equality and ordering go by.
    pub closed spec fn packed(self) -> u64 {
        self.packed
    }

    /// The letters of the code, as characters.
    pub open spec fn text(self) -> Seq<char> {
        ascii_chars(self@)
    }
}

/// The packed form of a text of `n` bytes is below 256 to the `n`.
pub proof fn lemma_pack_bound(text: Seq<u8>)
    ensures
        pack(text) < limit(text.len()),
    decreases text.len(),
{
    if text.len() > 0 {
        lemma_pack_bound(text.drop_first());
    }
}

/// The first powers of 256.
pub proof fn lemma_limit_values()
    ensures
        limit(0) == 1,
        limit(1) == 0x100,
        limit(2) == 0x1_0000,
        limit(3) == 0x100_0000,
        limit(4) == 0x1_0000_0000,
        limit(5) == 0x100_0000_0000,
{
    reveal_with_fuel(limit, 6);
}

/// The packed form of a text from place `i` on is its byte at `i` below the
/// packed form of the rest.
pub proof fn lemma_pack_skip(text: Seq<u8>, i: int)
    requires
        0 <= i < text.len(),
    ensures
        pack(text.skip(i)) == text[i] as nat + 256 * pack(text.skip(i + 1)),
{
    assert(text.skip(i).drop_first() =~= text.skip(i + 1));
}

/// Two texts of upper-case letters with one packed form are one text.
pub proof fn lemma_pack_injective(a: Seq<u8>, b: Seq<u8>)
    requires
        all_upper(a),
        all_upper(b),
        pack(a) == pack(b),
    ensures
        a == b,
    decreases a.len(),
{
    if a.len() == 0 {
        if b.len() > 0 {
            assert(is_upper(b[0]));
        }
        assert(a =~= b);
    } else if b.len() == 0 {
        assert(is_upper(a[0]));
    } else {
        let ra = a.drop_first();
        let rb = b.drop_first();
        assert forall|i: int| 0 <= i < ra.len() implies is_upper(#[trigger] ra[i]) by {
            assert(ra[i] == a[i + 1]);
        }
        assert forall|i: int| 0 <= i < rb.len() implies is_upper(#[trigger] rb[i]) by {
            assert(rb[i] == b[i + 1]);
        }
        assert(a[0] == b[0] && pack(ra) == pack(rb));
        lemma_pack_injective(ra, rb);
        assert(a =~= seq![a[0]] + ra);
        assert(b =~= seq![b[0]] + rb);
    }
}

/// The code made of a valid text is well formed and reads back as that text.
pub proof fn lemma_code_of(text: Seq<u8>)
    requires
        valid_code(text),
    ensures
        code_of(text).wf(),
        code_of(text)@ == text,
        code_of(text).packed() == pack(text),
{
    lemma_pack_bound(text);
    lemma_limit_values();
    assert(limit(text.len()) <= limit(5)) by {
        reveal_with_fuel(limit, 6);
    }
    let c = code_of(text);
    assert(pack(text) == c.packed);
    let chosen = c@;
    assert(valid_code(chosen) && pack(chosen) == c.packed);
    lemma_pack_injective(chosen, text);
}

/// A well-formed code is the code of its own text, and its integer is the
/// packed form of that text.
pub proof fn lemma_code_of_view(code: CurrencyCode)
    requires
        code.wf(),
    ensures
        valid_code(code@),
        code.packed() == pack(code@),
        code_of(code@) == code,
{
    let text = code@;
    assert(valid_code(text) && pack(text) == code.packed);
}

/// A text that is not all upper-case letters has a first byte that is
/// none, and [`first_non_upper`] is that byte.
pub proof fn lemma_first_non_upper(text: Seq<u8>)
    requires
        !all_upper(text),
    ensures
        exists|i: int| is_first_non_upper(text, i) && first_non_upper(text) == text[i],
{
    let bad = choose|i: int| 0 <= i < text.len() && !is_upper(#[trigger] text[i]);
    lemma_least_non_upper(text, bad);
    let k = choose|k: int| is_first_non_upper(text, k);
    assert(is_first_non_upper(text, k));
}

/// Below a byte that is no upper-case letter stands the first such byte.
proof fn lemma_least_non_upper(text: Seq<u8>, bad: int)
    requires
        0 <= bad < text.len(),
        !is_upper(text[bad]),
    ensures
        exists|i: int| is_first_non_upper(text, i),
    decreases bad,
{
    if forall|j: int| 0 <= j < bad ==> is_upper(#[trigger] text[j]) {
        assert(is_first_non_upper(text, bad));
    } else {
        let lower = choose|j: int| 0 <= j < bad && !is_upper(#[trigger] text[j]);
        lemma_least_non_upper(text, lower);
    }
}

/// Every text of two to five upper-case letters parses, and the code reads
/// back as that very text, byte for byte and character for character.
pub proof fn lemma_parse_round_trip(text: Seq<u8>)
    requires
        valid_code(text),
    ensures
        parse_result(text) == Ok::<CurrencyCode, Error>(code_of(text)),
        code_of(text).wf(),
        code_of(text)@ == text,
        code_of(text).text() == ascii_chars(text),
{
    lemma_code_of(text);
}

/// A text of two to five upper-case letters, given as characters, parses
/// to a code that reads back as those very characters.
pub proof fn lemma_parse_str_round_trip(text: Seq<char>)
    requires
        valid_code(vstd::utf8::encode_utf8(text)),
    ensures
        parse_result(vstd::utf8::encode_utf8(text)) == Ok::<CurrencyCode, Error>(
            code_of(vstd::utf8::encode_utf8(text)),
        ),
        code_of(vstd::utf8::encode_utf8(text)).text() == text,
{
    let bytes = vstd::utf8::encode_utf8(text);
    lemma_code_of(bytes);
    assert forall|i: int| 0 <= i < bytes.len() implies #[trigger] bytes[i] < 0x80 by {
        assert(is_upper(bytes[i]));
    }
    lemma_ascii_text(bytes);
    lemma_encoding_injective(ascii_chars(bytes), text);
}

/// Every text whose upper-case form has two to five letters parses when
/// case is ignored, and the code reads back as the upper-case form.
pub proof fn lemma_parse_ignore_case_round_trip(text: Seq<u8>)
    requires
        valid_code(upper_text(text)),
    ensures
        parse_result(upper_text(text)) == Ok::<CurrencyCode, Error>(code_of(upper_text(text))),
        code_of(upper_text(text))@ == upper_text(text),
        code_of(upper_text(text)).text() == ascii_chars(upper_text(text)),
{
    lemma_code_of(upper_text(text));
}

/// Every other text is refused, each for its own reason: too short below
/// two bytes, too long above five, and else for the first byte that is no
/// upper-case letter.
pub proof fn lemma_parse_rejects(text: Seq<u8>)
    requires
        !valid_code(text),
    ensures
        parse_result(text) is Err,
        text.len() < 2 ==> parse_result(text) == Err::<CurrencyCode, Error>(Error::TooShort),
        text.len() > 5 ==> parse_result(text) == Err::<CurrencyCode, Error>(Error::TooLong),
        2 <= text.len() <= 5 ==> exists|i: int|
            is_first_non_upper(text, i) && parse_result(text) == Err::<CurrencyCode, Error>(
                Error::InvalidCharacter(text[i]),
            ),
{
    if 2 <= text.len() <= 5 {
        lemma_first_non_upper(text);
    }
}

/// Two codes are equal exactly when their texts are, and exactly when
/// their integers are.
pub proof fn lemma_equal_codes(a: CurrencyCode, b: CurrencyCode)
    requires
        a.wf(),
        b.wf(),
    ensures
        (a == b) == (a@ == b@),
        (a.packed() == b.packed()) == (a@ == b@),
{
    lemma_code_of_view(a);
    lemma_code_of_view(b);
}

/// `<` and its kin on codes go by the integers of the codes, and any two
/// codes compare.
pub proof fn lemma_order_by_integer(a: CurrencyCode, b: CurrencyCode)
    ensures
        a.partial_cmp_spec(&b) == Some(Ordering::Less) <==> a.packed() < b.packed(),
        a.partial_cmp_spec(&b) == Some(Ordering::Equal) <==> a.packed() == b.packed(),
        a.partial_cmp_spec(&b) == Some(Ordering::Greater) <==> a.packed() > b.packed(),
        a.partial_cmp_spec(&b) == Some(Ordering::Equal) <==> a == b,
{
}

/// The byte of `text` at place `i`, and zero behind its end: what the
/// integer of a code holds in its byte `i`.
pub open spec fn padded(text: Seq<u8>, i: int) -> u8 {
    if 0 <= i < text.len() {
        text[i]
    } else {
        0
    }
}

/// The packed form of a text of at most five bytes, written out.
pub proof fn lemma_pack_padded(text: Seq<u8>)
    requires
        text.len() <= 5,
    ensures
        pack(text) == padded(text, 0) + 0x100 * padded(text, 1) + 0x1_0000 * padded(text, 2)
            + 0x100_0000 * padded(text, 3) + 0x1_0000_0000 * padded(text, 4),
{
    let t1 = text.drop_first();
    let t2 = t1.drop_first();
    let t3 = t2.drop_first();
    let t4 = t3.drop_first();
    let t5 = t4.drop_first();
    if text.len() > 0 {
        assert(pack(text) == text[0] + 256 * pack(t1));
        if t1.len() > 0 {
            assert(pack(t1) == t1[0] + 256 * pack(t2));
            assert(t1[0] == text[1]);
            if t2.len() > 0 {
                assert(pack(t2) == t2[0] + 256 * pack(t3));
                assert(t2[0] == text[2]);
                if t3.len() > 0 {
                    assert(pack(t3) == t3[0] + 256 * pack(t4));
                    assert(t3[0] == text[3]);
                    if t4.len() > 0 {
                        assert(pack(t4) == t4[0] + 256 * pack(t5));
                        assert(t4[0] == text[4]);
                        assert(pack(t5) == 0);
                    }
                }
            }
        }
    }
}

/// Codes are ordered by their integers, and so by the last place at which
/// their texts differ, a text that has ended counting as zero there: the
/// code with the lesser byte at that place is the lesser code. This is not
/// the order of the texts read from the left.
pub proof fn lemma_order_by_last_difference(a: CurrencyCode, b: CurrencyCode, k: int)
    requires
        a.wf(),
        b.wf(),
        0 <= k < 5,
        padded(a@, k) != padded(b@, k),
        forall|j: int| k < j < 5 ==> padded(a@, j) == padded(b@, j),
    ensures
        a.packed() < b.packed() <==> padded(a@, k) < padded(b@, k),
        a.partial_cmp_spec(&b) == Some(Ordering::Less) <==> padded(a@, k) < padded(b@, k),
{
    lemma_code_of_view(a);
    lemma_code_of_view(b);
    lemma_pack_padded(a@);
    lemma_pack_padded(b@);
    assert(padded(a@, 1) == padded(b@, 1) || k >= 1);
    assert(padded(a@, 2) == padded(b@, 2) || k >= 2);
    assert(padded(a@, 3) == padded(b@, 3) || k >= 3);
    assert(padded(a@, 4) == padded(b@, 4) || k >= 4);
}

/// A code whose text begins another code's text, and is shorter, is the
/// lesser of the two.
pub proof fn lemma_prefix_orders_first(a: CurrencyCode, b: CurrencyCode)
    requires
        a.wf(),
        b.wf(),
        a@.len() < b@.len(),
        a@ == b@.take(a@.len() as int),
    ensures
        a.packed() < b.packed(),
{
    lemma_code_of_view(a);
    lemma_code_of_view(b);
    let k = b@.len() - 1;
    assert(is_upper(b@[k]));
    assert forall|j: int| 0 <= j < a@.len() implies a@[j] == b@[j] by {
        assert(b@.take(a@.len() as int)[j] == b@[j]);
    }
    lemma_pack_padded(a@);
    lemma_pack_padded(b@);
}

impl CurrencyCode {
    /// Makes a code of `code` without looking at it.
    pub fn new_unchecked(code: &[u8]) -> (r: CurrencyCode)
        requires
            valid_code(code@),
        ensures
            r == code_of(code@),
            r@ == code@,
    {
        let len = code.len();
        let mut packed: u64 = 0;
        let mut i: usize = len;
        proof {
            lemma_limit_values();
            assert(code@.skip(len as int) =~= Seq::<u8>::empty());
        }
        while i > 0
            invariant
                i <= len,
                len == code@.len(),
                len <= 5,
                packed == pack(code@.skip(i as int)),
            decreases i,
        {
            i -= 1;
            proof {
                lemma_pack_skip(code@, i as int);
                lemma_pack_bound(code@.skip(i + 1));
                lemma_limit_values();
                assert(limit((len - i - 1) as nat) <= limit(4)) by {
                    reveal_with_fuel(limit, 6);
                }
            }
            packed = packed * 256 + code[i] as u64;
        }
        proof {
            assert(code@.skip(0) =~= code@);
            lemma_code_of(code@);
        }
        CurrencyCode { packed }
    }

    /// Makes a code of the letters in `code`.
    pub fn from_array<const N: usize>(code: [u8; N]) -> (r: CurrencyCode)
        requires
            valid_code(code@),
        ensures
            r == code_of(code@),
            r@ == code@,
    {
        CurrencyCode::new_unchecked(code.as_slice())
    }

    /// Reads a currency code from bytes that must already be upper-case letters.
    pub fn parse(bytes: &[u8]) -> (r: Result<CurrencyCode, Error>)
        ensures
            r == parse_result(bytes@),
            r matches Ok(code) ==> code@ == bytes@,
    {
        let len = bytes.len();
        if len < CURRENCY_LEN_MIN {
            return Err(Error::TooShort);
        }
        if len > CURRENCY_LEN_MAX {
            return Err(Error::TooLong);
        }
        let mut i: usize = 0;
        while i < len
            invariant
                i <= len,
                len == bytes@.len(),
                2 <= len <= 5,
                forall|j: int| 0 <= j < i ==> is_upper(#[trigger] bytes@[j]),
            decreases len - i,
        {
            let b = bytes[i];
            if b < 0x41 || b > 0x5a {
                proof {
                    assert(!is_upper(bytes@[i as int]));
                    assert(is_first_non_upper(bytes@, i as int));
                    let k = choose|k: int| is_first_non_upper(bytes@, k);
                    assert(is_first_non_upper(bytes@, k));
                    if k < i {
                        assert(is_upper(bytes@[k]));
                    }
                    assert(k == i);
                }
                return Err(Error::InvalidCharacter(b));
            }
            i += 1;
        }
        Ok(CurrencyCode::new_unchecked(bytes))
    }

    /// Reads a currency code from text that must already be upper-case.
    pub fn parse_str(text: &str) -> (r: Result<CurrencyCode, Error>)
        ensures
            r == parse_result(text.spec_bytes()),
            r matches Ok(code) ==> code@ == text.spec_bytes(),
    {
        CurrencyCode::parse(text.as_bytes())
    }

    /// Reads a currency code from bytes in any case: ASCII lower-case letters
    /// count as their upper-case forms.
    pub fn parse_ignore_case(bytes: &[u8]) -> (r: Result<CurrencyCode, Error>)
        ensures
            r == parse_result(upper_text(bytes@)),
            r matches Ok(code) ==> code@ == upper_text(bytes@),
    {
        let len = bytes.len();
        let mut upper: Vec<u8> = Vec::new();
        let mut i: usize = 0;
        while i < len
            invariant
                i <= len,
                len == bytes@.len(),
                upper@.len() == i,
                forall|j: int| 0 <= j < i ==> upper@[j] == upper_byte(bytes@[j]),
            decreases len - i,
        {
            let b = bytes[i];
            if 0x61 <= b && b <= 0x7a {
                upper.push(b - 0x20);
            } else {
                upper.push(b);
            }
            i += 1;
        }
        assert(upper@ =~= upper_text(bytes@));
        CurrencyCode::parse(upper.as_slice())
    }

    /// The letters of the code, as bytes.
    pub fn as_bytes(&self) -> (r: Vec<u8>)
        ensures
            r@ == self@,
    {
        proof {
            use_type_invariant(self);
            lemma_code_of_view(*self);
        }
        let ghost text = self@;
        let mut out: Vec<u8> = Vec::new();
        let mut rest: u64 = self.packed;
        proof {
            assert(text.skip(0) =~= text);
            assert(text.take(0) =~= Seq::<u8>::empty());
        }
        while rest != 0
            invariant
                valid_code(text),
                out@.len() <= text.len(),
                out@ == text.take(out@.len() as int),
                rest == pack(text.skip(out@.len() as int)),
            decreases text.len() - out@.len(),
        {
            let ghost k = out@.len() as int;
            proof {
                if k == text.len() {
                    assert(text.skip(k) =~= Seq::<u8>::empty());
                }
                lemma_pack_skip(text, k);
            }
            let b: u8 = (rest % 256) as u8;
            out.push(b);
            rest = rest / 256;
            proof {
                assert(b == text[k]);
                assert(out@ =~= text.take(k + 1));
            }
        }
        proof {
            let k = out@.len() as int;
            if k < text.len() {
                lemma_pack_skip(text, k);
                assert(is_upper(text[k]));
            }
            assert(text.take(k) =~= text);
        }
        out
    }

    /// The letters of the code, as text.
    pub fn as_text(&self) -> (r: String)
        ensures
            r@ == self.text(),
    {
        let bytes = self.as_bytes();
        proof {
            use_type_invariant(self);
            lemma_code_of_view(*self);
            assert forall|i: int| 0 <= i < bytes@.len() implies bytes@[i] < 0x80 by {
                assert(is_upper(bytes@[i]));
            }
            lemma_ascii_text(bytes@);
        }
        match string_from_utf8(bytes) {
            Some(text) => text,
            None => unreached(),
        }
    }

    /// The whole value as one integer: what equality and ordering go by.
    pub fn as_u64(&self) -> (r: u64)
        ensures
            r == self.packed(),
            r == pack(self@),
    {
        proof {
            use_type_invariant(self);
            lemma_code_of_view(*self);
        }
        self.packed
    }
}

impl Default for CurrencyCode {
    /// The default currency code is `USD`, the most traded currency.
    fn default() -> (r: Self)
        ensures
            r == code_of(seq![0x55u8, 0x53u8, 0x44u8]),
            r@ == seq![0x55u8, 0x53u8, 0x44u8],
            r.text() == "USD"@,
    {
        list::USD()
    }
}

impl FromStr for CurrencyCode {
    type Err = Error;

    /// Reads a currency code from text in any case, as
    /// [`parse_ignore_case`](CurrencyCode::parse_ignore_case) does.
    fn from_str(s: &str) -> (r: Result<Self, Self::Err>)
        ensures
            r == parse_result(upper_text(s.spec_bytes())),
            r matches Ok(code) ==> code@ == upper_text(s.spec_bytes()),
    {
        CurrencyCode::parse_ignore_case(s.as_bytes())
    }
}

impl<'a> vstd::std_specs::convert::TryFromSpecImpl<&'a [u8]> for CurrencyCode {
    open spec fn obeys_try_from_spec() -> bool {
        true
    }

    open spec fn try_from_spec(value: &'a [u8]) -> Result<Self, Error> {
        parse_result(value@)
    }
}

impl<'a> TryFrom<&'a [u8]> for CurrencyCode {
    type Error = Error;

    /// Reads a currency code from upper-case bytes, as
    /// [`parse`](CurrencyCode::parse) does.
    fn try_from(value: &'a [u8]) -> (r: Result<Self, Error>) {
        CurrencyCode::parse(value)
    }
}

} // verus!
