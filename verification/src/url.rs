//! URL building: the parts of a request's URL and how each is written.

use vstd::prelude::*;
use vstd::string::StringExecFns;
use vstd::utf8::{is_ascii_chars, is_ascii_chars_concat};

use crate::currency::{is_upper, lemma_code_of_view, CurrencyCode};
use crate::text::lemma_ascii_text;

verus! {

/// The most bytes that the URL of a request to the `latest` endpoint may
/// have: the 67 bytes of the endpoint with a base currency of three letters
/// and the name of the currencies parameter, and behind them room for every
/// known currency and ten more, at three letters and a comma each.
pub const URL_CAPACITY_LATEST: usize = 67 + (crate::currency::list::LEN + 10) * 4 - 1;

/// The address of the `latest` endpoint.
pub const LATEST: &'static str = "https://api.currencyapi.com/v3/latest";

/// What a part adds to a URL: its text behind `prefix`, or nothing where
/// the part is absent.
pub open spec fn written(part: Option<Seq<char>>, prefix: Seq<char>) -> Seq<char> {
    match part {
        Some(text) => prefix + text,
        None => Seq::empty(),
    }
}

/// The texts of `codes`, with a comma between each two.
pub open spec fn joined(codes: Seq<CurrencyCode>) -> Seq<char>
    decreases codes.len(),
{
    if codes.len() == 0 {
        Seq::empty()
    } else if codes.len() == 1 {
        codes[0].text()
    } else {
        joined(codes.drop_last()) + ","@ + codes.last().text()
    }
}

/// The text of a base currency parameter.
pub open spec fn base_currency_text(code: CurrencyCode) -> Seq<char> {
    "base_currency="@ + code.text()
}

/// The text of a currencies parameter, where there is a currency to name.
pub open spec fn currencies_text(codes: Seq<CurrencyCode>) -> Option<Seq<char>> {
    if codes.len() == 0 {
        None
    } else {
        Some("currencies="@ + joined(codes))
    }
}

/// How many letters `codes` have, all together.
pub open spec fn letters(codes: Seq<CurrencyCode>) -> nat
    decreases codes.len(),
{
    if codes.len() == 0 {
        0
    } else {
        letters(codes.drop_last()) + codes.last()@.len()
    }
}

/// Whether every one of `codes` is well formed.
pub open spec fn all_wf(codes: Seq<CurrencyCode>) -> bool {
    forall|i: int| 0 <= i < codes.len() ==> (#[trigger] codes[i]).wf()
}

/// One more code adds its letters to the letters of those before it.
pub proof fn lemma_letters_push(codes: Seq<CurrencyCode>, code: CurrencyCode)
    ensures
        letters(codes.push(code)) == letters(codes) + code@.len(),
{
    assert(codes.push(code).drop_last() =~= codes);
}

/// Codes behind other codes add their letters to the letters of those,
/// and well-formed codes behind well-formed codes are well formed.
pub proof fn lemma_letters_concat(front: Seq<CurrencyCode>, back: Seq<CurrencyCode>)
    ensures
        letters(front + back) == letters(front) + letters(back),
        all_wf(front) && all_wf(back) ==> all_wf(front + back),
    decreases back.len(),
{
    if back.len() == 0 {
        assert(front + back =~= front);
    } else {
        lemma_letters_concat(front, back.drop_last());
        assert((front + back).drop_last() =~= front + back.drop_last());
        assert((front + back).last() == back.last());
    }
    if all_wf(front) && all_wf(back) {
        assert forall|i: int| 0 <= i < (front + back).len() implies (#[trigger] (front + back)[i]).wf() by {
            if i < front.len() {
                assert((front + back)[i] == front[i]);
            } else {
                assert((front + back)[i] == back[i - front.len()]);
            }
        }
    }
}

/// How many characters the texts in this module have, all of them ASCII.
pub proof fn lemma_texts()
    ensures
        LATEST@.len() == 37,
        "?"@.len() == 1,
        "&"@.len() == 1,
        ","@.len() == 1,
        "base_currency="@.len() == 14,
        "currencies="@.len() == 11,
        is_ascii_chars(LATEST@),
        is_ascii_chars("?"@),
        is_ascii_chars("&"@),
        is_ascii_chars(","@),
        is_ascii_chars("base_currency="@),
        is_ascii_chars("currencies="@),
{
    reveal_strlit("https://api.currencyapi.com/v3/latest");
    reveal_strlit("?");
    reveal_strlit("&");
    reveal_strlit(",");
    reveal_strlit("base_currency=");
    reveal_strlit("currencies=");
}

/// The text of a well-formed code is ASCII.
pub proof fn lemma_code_text_is_ascii(code: CurrencyCode)
    requires
        code.wf(),
    ensures
        is_ascii_chars(code.text()),
        code.text().len() == code@.len(),
{
    lemma_code_of_view(code);
    assert forall|i: int| 0 <= i < code@.len() implies #[trigger] code@[i] < 0x80 by {
        assert(is_upper(code@[i]));
    }
    lemma_ascii_text(code@);
}

/// Codes with commas between them take a character for each letter and
/// one for each comma.
pub proof fn lemma_joined_len(codes: Seq<CurrencyCode>)
    ensures
        joined(codes).len() == if codes.len() == 0 {
            0
        } else {
            letters(codes) + codes.len() - 1
        },
    decreases codes.len(),
{
    lemma_texts();
    if codes.len() == 1 {
        assert(codes.drop_last().len() == 0);
        assert(letters(codes.drop_last()) == 0);
    } else if codes.len() > 1 {
        lemma_joined_len(codes.drop_last());
    }
}

/// Well-formed codes with commas between them are ASCII.
pub proof fn lemma_joined_is_ascii(codes: Seq<CurrencyCode>)
    requires
        all_wf(codes),
    ensures
        is_ascii_chars(joined(codes)),
    decreases codes.len(),
{
    lemma_texts();
    if codes.len() == 1 {
        lemma_code_text_is_ascii(codes[0]);
    } else if codes.len() > 1 {
        let front = codes.drop_last();
        assert forall|i: int| 0 <= i < front.len() implies (#[trigger] front[i]).wf() by {
            assert(front[i] == codes[i]);
        }
        lemma_joined_is_ascii(front);
        lemma_code_text_is_ascii(codes.last());
        let head = joined(front) + ","@;
        is_ascii_chars_concat(head, joined(front), ","@);
        is_ascii_chars_concat(joined(codes), head, codes.last().text());
    }
}

/// Codes of at most `most` letters each have at most `most` letters for
/// each code, all together.
pub proof fn lemma_letters_bound(codes: Seq<CurrencyCode>, most: nat)
    requires
        forall|i: int| 0 <= i < codes.len() ==> (#[trigger] codes[i])@.len() <= most,
    ensures
        letters(codes) <= codes.len() * most,
    decreases codes.len(),
{
    if codes.len() > 0 {
        let front = codes.drop_last();
        assert forall|i: int| 0 <= i < front.len() implies (#[trigger] front[i])@.len() <= most by {
            assert(front[i] == codes[i]);
        }
        lemma_letters_bound(front, most);
        assert(front.len() * most + most == codes.len() * most) by (nonlinear_arith)
            requires
                front.len() + 1 == codes.len(),
        ;
    }
}

/// A part of a URL, which may be absent.
pub trait UrlPart: Sized {
    /// The text of the part, or nothing where the part is absent.
    spec fn part(&self) -> Option<Seq<char>>;

    /// Writes the part behind `prefix` at the end of `out`. An absent part
    /// writes nothing, not even the prefix.
    ///
    /// Returns whether there was something to write.
    fn write_url_part(self, out: &mut String, prefix: &str) -> (wrote: bool)
        ensures
            wrote == self.part() is Some,
            final(out)@ == old(out)@ + written(self.part(), prefix@),
    ;
}

impl<Inner: UrlPart> UrlPart for Option<Inner> {
    /// The part inside, where there is one.
    open spec fn part(&self) -> Option<Seq<char>> {
        match self {
            Some(inner) => inner.part(),
            None => None,
        }
    }

    fn write_url_part(self, out: &mut String, prefix: &str) -> (wrote: bool) {
        if let Some(inner) = self {
            inner.write_url_part(out, prefix)
        } else {
            assert(out@ =~= out@ + Seq::<char>::empty());
            false
        }
    }
}

/// The address of an endpoint.
#[derive(Debug, Clone, Copy)]
pub struct BaseUrl(&'static str);

impl BaseUrl {
    /// The address.
    pub closed spec fn text(&self) -> Seq<char> {
        self.0@
    }

    /// The `latest` endpoint.
    pub fn latest() -> (r: BaseUrl)
        ensures
            r.text() == LATEST@,
    {
        BaseUrl(LATEST)
    }
}

impl UrlPart for BaseUrl {
    /// The address: an endpoint is never absent.
    open spec fn part(&self) -> Option<Seq<char>> {
        Some(self.text())
    }

    fn write_url_part(self, out: &mut String, prefix: &str) -> (wrote: bool) {
        out.append(prefix);
        out.append(self.0);
        assert(out@ =~= old(out)@ + (prefix@ + self.text()));
        true
    }
}

/// A base currency parameter for a request.
#[derive(Debug)]
pub struct BaseCurrency<T>(pub T);

/// The mark of a request that does not specify a base currency parameter.
#[derive(Debug, Clone, Copy)]
pub struct NoBaseCurrency;

impl UrlPart for NoBaseCurrency {
    /// Always absent.
    open spec fn part(&self) -> Option<Seq<char>> {
        None
    }

    fn write_url_part(self, out: &mut String, prefix: &str) -> (wrote: bool) {
        assert(out@ =~= out@ + Seq::<char>::empty());
        false
    }
}

impl UrlPart for BaseCurrency<CurrencyCode> {
    /// The parameter's name and the code.
    open spec fn part(&self) -> Option<Seq<char>> {
        Some(base_currency_text(self.0))
    }

    fn write_url_part(self, out: &mut String, prefix: &str) -> (wrote: bool) {
        let code = self.0.as_text();
        out.append(prefix);
        out.append("base_currency=");
        out.append(code.as_str());
        assert(out@ =~= old(out)@ + (prefix@ + base_currency_text(self.0)));
        true
    }
}

impl UrlPart for BaseCurrency<Option<CurrencyCode>> {
    /// The parameter's name and the code, where there is a code.
    open spec fn part(&self) -> Option<Seq<char>> {
        match self.0 {
            Some(code) => Some(base_currency_text(code)),
            None => None,
        }
    }

    fn write_url_part(self, out: &mut String, prefix: &str) -> (wrote: bool) {
        match self.0 {
            Some(code) => BaseCurrency(code).write_url_part(out, prefix),
            None => {
                assert(out@ =~= out@ + Seq::<char>::empty());
                false
            },
        }
    }
}

/// A currencies parameter for a request: the currencies to ask for, or
/// none, which asks for all.
#[derive(Debug)]
pub struct Currencies(pub Vec<CurrencyCode>);

impl UrlPart for Currencies {
    /// The parameter's name and the codes with commas between them, where
    /// there is a code.
    open spec fn part(&self) -> Option<Seq<char>> {
        currencies_text(self.0@)
    }

    fn write_url_part(self, out: &mut String, prefix: &str) -> (wrote: bool) {
        let codes = self.0;
        let n = codes.len();
        if n == 0 {
            assert(out@ =~= out@ + Seq::<char>::empty());
            return false;
        }
        out.append(prefix);
        out.append("currencies=");
        let head = codes[0].as_text();
        out.append(head.as_str());
        let ghost start = old(out)@ + prefix@ + "currencies="@;
        proof {
            assert(codes@.take(1) =~= seq![codes@[0]]);
            assert(joined(codes@.take(1)) == codes@[0].text());
        }
        let mut i: usize = 1;
        while i < n
            invariant
                1 <= i <= n,
                n == codes@.len(),
                start == old(out)@ + prefix@ + "currencies="@,
                out@ == start + joined(codes@.take(i as int)),
            decreases n - i,
        {
            let code = codes[i].as_text();
            out.append(",");
            out.append(code.as_str());
            proof {
                let next = codes@.take(i + 1);
                assert(next.drop_last() =~= codes@.take(i as int));
                assert(next.last() == codes@[i as int]);
                assert(out@ =~= start + joined(next));
            }
            i += 1;
        }
        proof {
            assert(codes@.take(n as int) =~= codes@);
            assert(out@ =~= old(out)@ + (prefix@ + ("currencies="@ + joined(codes@))));
        }
        true
    }
}

} // verus!
