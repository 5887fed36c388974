//! The request for the latest rates, and its builder.

use vstd::prelude::*;
use vstd::utf8::{encode_utf8, is_ascii_chars, is_ascii_chars_concat, is_ascii_chars_encode_utf8};

use crate::currency::CurrencyCode;
use crate::url::{
    all_wf, base_currency_text, joined, currencies_text, lemma_code_text_is_ascii, lemma_joined_is_ascii,
    lemma_joined_len, lemma_letters_bound, lemma_texts, letters, written, BaseCurrency, BaseUrl,
    Currencies, NoBaseCurrency, UrlPart, LATEST, URL_CAPACITY_LATEST,
};

verus! {

/// The header that carries the API token.
pub const API_KEY_HEADER: &'static str = "apikey";

/// Request to the `latest` endpoint: the URL to get, and the token to send
/// in the [`API_KEY_HEADER`].
#[derive(Debug)]
pub struct Request {
    url: String,
    token: String,
}

impl Request {
    /// The URL.
    pub closed spec fn url_text(&self) -> Seq<char> {
        self.url@
    }

    /// The API token.
    pub closed spec fn token_text(&self) -> Seq<char> {
        self.token@
    }

    /// The URL.
    pub fn url(&self) -> (r: &str)
        ensures
            r@ == self.url_text(),
    {
        self.url.as_str()
    }

    /// The API token.
    pub fn token(&self) -> (r: &str)
        ensures
            r@ == self.token_text(),
    {
        self.token.as_str()
    }
}

impl Clone for Request {
    fn clone(&self) -> (r: Self)
        ensures
            r.url_text() == self.url_text(),
            r.token_text() == self.token_text(),
    {
        Request { url: self.url.clone(), token: self.token.clone() }
    }
}

/// [`Request`] builder.
#[derive(Debug)]
pub struct Builder<'a, Base = NoBaseCurrency> {
    /// The API token.
    pub token: &'a str,
    /// The base currency parameter.
    pub base_currency: Base,
    /// The currencies to ask for; none asks for all.
    pub currencies: Vec<CurrencyCode>,
}

/// The URL of a request for `currencies` with the base currency parameter
/// `base`: the endpoint, then the base currency where there is one, then
/// the currencies where there are any. The first parameter follows a `?`,
/// the second a `&`.
pub open spec fn url_spec(base: Option<Seq<char>>, currencies: Seq<CurrencyCode>) -> Seq<char> {
    LATEST@ + written(base, "?"@) + written(
        currencies_text(currencies),
        if base is Some {
            "&"@
        } else {
            "?"@
        },
    )
}

/// The base currency parameter that stands for `base`.
pub open spec fn base_part(base: Option<CurrencyCode>) -> Option<Seq<char>> {
    match base {
        Some(code) => Some(base_currency_text(code)),
        None => None,
    }
}

/// How long a URL is: the 37 characters of the endpoint; for a base
/// currency its text and a `?`; for currencies a `?` or `&`, the 11
/// characters of the parameter's name, their letters and the commas
/// between them.
pub proof fn lemma_url_len(base: Option<Seq<char>>, currencies: Seq<CurrencyCode>)
    ensures
        url_spec(base, currencies).len() == 37 + (match base {
            Some(text) => 1 + text.len(),
            None => 0,
        }) + (if currencies.len() == 0 {
            0
        } else {
            11 + letters(currencies) + currencies.len()
        }),
{
    lemma_texts();
    lemma_joined_len(currencies);
}

/// The URL of a request with well-formed codes is ASCII: it takes as many
/// bytes as it has characters.
pub proof fn lemma_url_is_ascii(base: Option<CurrencyCode>, currencies: Seq<CurrencyCode>)
    requires
        base matches Some(code) ==> code.wf(),
        all_wf(currencies),
    ensures
        is_ascii_chars(url_spec(base_part(base), currencies)),
        encode_utf8(url_spec(base_part(base), currencies)).len() == url_spec(
            base_part(base),
            currencies,
        ).len(),
{
    lemma_texts();
    let first = written(base_part(base), "?"@);
    let separator = if base is Some {
        "&"@
    } else {
        "?"@
    };
    let second = written(currencies_text(currencies), separator);
    let url = url_spec(base_part(base), currencies);
    assert(is_ascii_chars(first)) by {
        if let Some(code) = base {
            lemma_code_text_is_ascii(code);
            let text = base_currency_text(code);
            is_ascii_chars_concat(text, "base_currency="@, code.text());
            is_ascii_chars_concat(first, "?"@, text);
        }
    }
    assert(is_ascii_chars(second)) by {
        if currencies.len() > 0 {
            lemma_joined_is_ascii(currencies);
            let text = "currencies="@ + joined(currencies);
            is_ascii_chars_concat(text, "currencies="@, joined(currencies));
            is_ascii_chars_concat(second, separator, text);
        }
    }
    is_ascii_chars_concat(LATEST@ + first, LATEST@, first);
    is_ascii_chars_concat(url, LATEST@ + first, second);
    is_ascii_chars_encode_utf8(url);
}

/// The URL of a request stays within [`URL_CAPACITY_LATEST`] whenever the
/// base currency, if there is one, and the currencies have at most three
/// letters each, and the currencies are at most ten more than the known
/// ones.
pub proof fn lemma_three_letter_codes_fit(base: Option<CurrencyCode>, currencies: Seq<CurrencyCode>)
    requires
        base matches Some(code) ==> code.wf() && code@.len() <= 3,
        all_wf(currencies),
        forall|i: int| 0 <= i < currencies.len() ==> (#[trigger] currencies[i])@.len() <= 3,
        currencies.len() <= crate::currency::list::LEN + 10,
    ensures
        encode_utf8(url_spec(base_part(base), currencies)).len() <= URL_CAPACITY_LATEST,
{
    lemma_texts();
    lemma_url_is_ascii(base, currencies);
    lemma_url_len(base_part(base), currencies);
    if let Some(code) = base {
        lemma_code_text_is_ascii(code);
    }
    lemma_letters_bound(currencies, 3);
}

/// The URL of a request stays within [`URL_CAPACITY_LATEST`] whenever it
/// names at most 129 currencies, with or without a base currency.
pub proof fn lemma_few_codes_fit(base: Option<CurrencyCode>, currencies: Seq<CurrencyCode>)
    requires
        base matches Some(code) ==> code.wf(),
        all_wf(currencies),
        currencies.len() <= 129,
    ensures
        encode_utf8(url_spec(base_part(base), currencies)).len() <= URL_CAPACITY_LATEST,
{
    lemma_texts();
    lemma_url_is_ascii(base, currencies);
    lemma_url_len(base_part(base), currencies);
    if let Some(code) = base {
        lemma_code_text_is_ascii(code);
        crate::currency::lemma_code_of_view(code);
    }
    assert forall|i: int| 0 <= i < currencies.len() implies (#[trigger] currencies[i])@.len() <= 5 by {
        crate::currency::lemma_code_of_view(currencies[i]);
    }
    lemma_letters_bound(currencies, 5);
}

/// Whether `pattern` stands somewhere in `text`.
pub open spec fn occurs(text: Seq<char>, pattern: Seq<char>) -> bool {
    exists|i: int|
        0 <= i && i + pattern.len() <= text.len() && #[trigger] text.subrange(
            i,
            i + pattern.len(),
        ) == pattern
}

/// Whether `c` may stand among codes with commas between them: an
/// upper-case letter or a comma.
pub open spec fn is_list_char(c: char) -> bool {
    ('A' <= c && c <= 'Z') || c == ','
}

/// Well-formed codes with commas between them are upper-case letters and
/// commas, and end with the text of the last code.
pub proof fn lemma_joined_chars(currencies: Seq<CurrencyCode>)
    requires
        currencies.len() > 0,
        all_wf(currencies),
    ensures
        forall|i: int| 0 <= i < joined(currencies).len() ==> is_list_char(#[trigger] joined(currencies)[i]),
        joined(currencies).len() >= currencies.last().text().len(),
        joined(currencies).skip(joined(currencies).len() - currencies.last().text().len())
            == currencies.last().text(),
    decreases currencies.len(),
{
    reveal_strlit(",");
    let last = currencies.last();
    crate::currency::lemma_code_of_view(last);
    assert forall|i: int| 0 <= i < last.text().len() implies is_list_char(#[trigger] last.text()[i]) by {
        assert(crate::currency::is_upper(last@[i]));
    }
    if currencies.len() == 1 {
        assert(joined(currencies).skip(0) =~= last.text());
    } else {
        let front = currencies.drop_last();
        assert forall|i: int| 0 <= i < front.len() implies (#[trigger] front[i]).wf() by {
            assert(front[i] == currencies[i]);
        }
        lemma_joined_chars(front);
        let head = joined(front) + ","@;
        assert forall|i: int| 0 <= i < joined(currencies).len() implies is_list_char(
            #[trigger] joined(currencies)[i],
        ) by {
            if i < joined(front).len() {
                assert(joined(currencies)[i] == joined(front)[i]);
            } else if i < head.len() {
                assert(joined(currencies)[i] == ","@[i - joined(front).len()]);
            } else {
                assert(joined(currencies)[i] == last.text()[i - head.len()]);
            }
        }
        assert(joined(currencies).skip(head.len() as int) =~= last.text());
    }
}

/// With currencies and without a base currency, the URL is the endpoint, a
/// `?`, the name of the currencies parameter and the codes with commas
/// between them. Its only `?` stands right behind the endpoint, it holds
/// no `&` and nowhere `base_currency`, and it ends with the text of the
/// last code.
pub proof fn lemma_url_without_base(currencies: Seq<CurrencyCode>)
    requires
        currencies.len() > 0,
        all_wf(currencies),
    ensures
        url_spec(None, currencies) == LATEST@ + "?"@ + "currencies="@ + joined(currencies),
        forall|i: int|
            0 <= i < url_spec(None, currencies).len() ==> (#[trigger] url_spec(None, currencies)[i]
                == '?' <==> i == 37),
        forall|i: int|
            0 <= i < url_spec(None, currencies).len() ==> #[trigger] url_spec(None, currencies)[i]
                != '&',
        !occurs(url_spec(None, currencies), "base_currency"@),
        url_spec(None, currencies).len() >= currencies.last().text().len(),
        url_spec(None, currencies).skip(
            url_spec(None, currencies).len() - currencies.last().text().len(),
        ) == currencies.last().text(),
{
    reveal_strlit("https://api.currencyapi.com/v3/latest");
    reveal_strlit("?");
    reveal_strlit("&");
    reveal_strlit("currencies=");
    reveal_strlit("base_currency");
    lemma_joined_chars(currencies);
    let url = url_spec(None, currencies);
    let list = joined(currencies);
    let head = LATEST@ + "?"@ + "currencies="@;
    assert(url =~= head + list);
    assert(head.len() == 49);
    assert forall|i: int| 0 <= i < url.len() implies (#[trigger] url[i] == '?' <==> i == 37) && url[i]
        != '&' && url[i] != '_' by {
        if i < 37 {
            assert(url[i] == LATEST@[i]);
        } else if i < 38 {
            assert(url[i] == "?"@[i - 37]);
        } else if i < 49 {
            assert(url[i] == "currencies="@[i - 38]);
        } else {
            assert(url[i] == list[i - 49]);
            assert(is_list_char(list[i - 49]));
        }
    }
    assert(!occurs(url, "base_currency"@)) by {
        let pattern = "base_currency"@;
        assert(pattern[4] == '_');
        assert forall|i: int| 0 <= i && i + pattern.len() <= url.len() implies #[trigger] url.subrange(
            i,
            i + pattern.len(),
        ) != pattern by {
            assert(url.subrange(i, i + pattern.len())[4] == url[i + 4]);
        }
    }
    let tail = currencies.last().text().len();
    assert(url.skip(url.len() - tail) =~= list.skip(list.len() - tail));
}

/// The URL of a request for every known currency stays within
/// [`URL_CAPACITY_LATEST`], whatever the base currency: it has 793 bytes
/// without one, and with one 808 and a byte for each of its letters.
pub proof fn lemma_known_currencies_fit(base: Option<CurrencyCode>)
    requires
        base matches Some(code) ==> code.wf(),
    ensures
        encode_utf8(url_spec(base_part(base), crate::currency::list::known())).len() == (match base {
            Some(code) => 808 + code@.len(),
            None => 793,
        }),
        encode_utf8(url_spec(base_part(base), crate::currency::list::known())).len()
            <= URL_CAPACITY_LATEST,
{
    let all = crate::currency::list::known();
    crate::currency::list::lemma_known();
    lemma_texts();
    lemma_url_is_ascii(base, all);
    lemma_url_len(base_part(base), all);
    if let Some(code) = base {
        lemma_code_text_is_ascii(code);
        crate::currency::lemma_code_of_view(code);
    }
}

impl<'a> Builder<'a, NoBaseCurrency> {
    /// Creates a new [`Builder`] with the given API token: no base
    /// currency, all currencies.
    pub fn new(token: &'a str) -> (r: Self)
        ensures
            r.token@ == token@,
            r.base_currency.part() is None,
            r.currencies@ == Seq::<CurrencyCode>::empty(),
    {
        Builder { token, base_currency: NoBaseCurrency, currencies: Vec::new() }
    }
}

impl<'a> vstd::std_specs::convert::FromSpecImpl<&'a str> for Builder<'a, NoBaseCurrency> {
    /// The builder is told by what [`from`](Builder::from) ensures.
    open spec fn obeys_from_spec() -> bool {
        false
    }

    open spec fn from_spec(token: &'a str) -> Self {
        arbitrary()
    }
}

impl<'a> From<&'a str> for Builder<'a, NoBaseCurrency> {
    /// Creates a new [`Builder`] with the given API token, as
    /// [`new`](Builder::new) does.
    fn from(token: &'a str) -> (r: Self)
        ensures
            r.token@ == token@,
            r.base_currency.part() is None,
            r.currencies@ == Seq::<CurrencyCode>::empty(),
    {
        Builder::new(token)
    }
}

impl<'a, Base> Builder<'a, Base> {
    /// Sets the currencies to ask for.
    pub fn currencies(self, currencies: Vec<CurrencyCode>) -> (r: Builder<'a, Base>)
        ensures
            r.token@ == self.token@,
            r.base_currency == self.base_currency,
            r.currencies == currencies,
    {
        Builder { token: self.token, base_currency: self.base_currency, currencies }
    }

    /// Sets the base currency.
    pub fn base_currency<New>(self, base_currency: New) -> (r: Builder<'a, BaseCurrency<New>>) where
        BaseCurrency<New>: UrlPart,

        ensures
            r.token@ == self.token@,
            r.base_currency == BaseCurrency(base_currency),
            r.currencies == self.currencies,
    {
        Builder {
            token: self.token,
            base_currency: BaseCurrency(base_currency),
            currencies: self.currencies,
        }
    }

    /// Clears the base currency parameter.
    pub fn base_currency_clear(self) -> (r: Builder<'a, NoBaseCurrency>)
        ensures
            r.token@ == self.token@,
            r.base_currency.part() is None,
            r.currencies == self.currencies,
    {
        Builder { token: self.token, base_currency: NoBaseCurrency, currencies: self.currencies }
    }
}

impl<'a, Base: UrlPart> Builder<'a, Base> {
    /// The URL that the builder stands for.
    pub open spec fn url_text(&self) -> Seq<char> {
        url_spec(self.base_currency.part(), self.currencies@)
    }

    /// Whether the URL stays within [`URL_CAPACITY_LATEST`], counted in
    /// bytes.
    pub open spec fn fits(&self) -> bool {
        encode_utf8(self.url_text()).len() <= URL_CAPACITY_LATEST
    }

    /// Writes the URL at the end of `out`.
    pub fn write_url(self, out: &mut String)
        ensures
            final(out)@ == old(out)@ + self.url_text(),
    {
        let ghost base = self.base_currency.part();
        let ghost codes = self.currencies@;
        BaseUrl::latest().write_url_part(out, "");
        let ghost first = out@;
        let has_base = self.base_currency.write_url_part(out, "?");
        if has_base {
            Currencies(self.currencies).write_url_part(out, "&");
        } else {
            Currencies(self.currencies).write_url_part(out, "?");
        }
        proof {
            reveal_strlit("");
            assert(""@ =~= Seq::<char>::empty());
            assert(first =~= old(out)@ + LATEST@);
            assert(out@ =~= old(out)@ + url_spec(base, codes));
        }
    }

    /// Builds the [`Request`], if its URL stays within
    /// [`URL_CAPACITY_LATEST`].
    pub fn try_build(self) -> (r: Option<Request>)
        ensures
            match r {
                Some(request) => {
                    &&& self.fits()
                    &&& request.url_text() == self.url_text()
                    &&& request.token_text() == self.token@
                },
                None => !self.fits(),
            },
    {
        let token = self.token;
        let mut url = String::new();
        self.write_url(&mut url);
        assert(url@ =~= self.url_text());
        if url.as_str().as_bytes().len() <= URL_CAPACITY_LATEST {
            Some(Request { url, token: token.to_owned() })
        } else {
            None
        }
    }

    /// Builds the [`Request`].
    pub fn build(self) -> (r: Request)
        requires
            self.fits(),
        ensures
            r.url_text() == self.url_text(),
            r.token_text() == self.token@,
    {
        let token = self.token;
        let mut url = String::new();
        self.write_url(&mut url);
        assert(url@ =~= self.url_text());
        Request { url, token: token.to_owned() }
    }
}

} // verus!
