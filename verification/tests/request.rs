use currencyapi::currency::list::{array, EUR, GBP, MATIC, OP, USD};
use currencyapi::currency::CurrencyCode;
use currencyapi::latest::{Builder, API_KEY_HEADER};
use currencyapi::url::{
    BaseCurrency, BaseUrl, Currencies, NoBaseCurrency, UrlPart, LATEST, URL_CAPACITY_LATEST,
};

#[test]
fn currencies_without_base_currency() {
    let request = Builder::new("T").currencies(vec![USD(), EUR()]).build();
    let url = request.url().to_string();
    assert!(url.ends_with("?currencies=USD,EUR"));
    assert!(!url.contains("base_currency"));
    assert_eq!(url, "https://api.currencyapi.com/v3/latest?currencies=USD,EUR");
    assert_eq!(request.token(), "T");
}

#[test]
fn base_currency_without_currencies() {
    let request = Builder::new("T").base_currency(EUR()).build();
    let url = request.url().to_string();
    assert!(url.contains("?base_currency=EUR"));
    assert!(!url.contains("currencies="));
    assert_eq!(url, "https://api.currencyapi.com/v3/latest?base_currency=EUR");
}

#[test]
fn base_currency_then_currencies() {
    let request = Builder::new("secret")
        .currencies(vec![OP(), USD(), MATIC()])
        .base_currency(GBP())
        .build();
    assert_eq!(
        request.url(),
        "https://api.currencyapi.com/v3/latest?base_currency=GBP&currencies=OP,USD,MATIC"
    );
    assert_eq!(request.token(), "secret");
}

#[test]
fn nothing_set_is_the_bare_endpoint() {
    let request = Builder::from("T").build();
    assert_eq!(request.url(), "https://api.currencyapi.com/v3/latest");
    assert_eq!(request.url(), LATEST);
    let request = Builder::new("T").currencies(Vec::new()).build();
    assert_eq!(request.url(), LATEST);
}

#[test]
fn one_currency_has_no_comma() {
    let request = Builder::new("T").currencies(vec![USD()]).build();
    assert_eq!(request.url(), "https://api.currencyapi.com/v3/latest?currencies=USD");
}

#[test]
fn optional_base_currency() {
    let some: Option<CurrencyCode> = Some(EUR());
    let none: Option<CurrencyCode> = None;
    let request = Builder::new("T").base_currency(some).currencies(vec![USD()]).build();
    assert_eq!(
        request.url(),
        "https://api.currencyapi.com/v3/latest?base_currency=EUR&currencies=USD"
    );
    let request = Builder::new("T").base_currency(none).currencies(vec![USD()]).build();
    assert_eq!(request.url(), "https://api.currencyapi.com/v3/latest?currencies=USD");
}

#[test]
fn base_currency_clear_takes_it_back() {
    let request = Builder::new("T")
        .base_currency(EUR())
        .currencies(vec![USD(), GBP()])
        .base_currency_clear()
        .build();
    assert_eq!(request.url(), "https://api.currencyapi.com/v3/latest?currencies=USD,GBP");
}

#[test]
fn builder_keeps_what_it_was_given() {
    let builder = Builder::new("T").currencies(vec![USD()]).base_currency(EUR());
    assert_eq!(builder.token, "T");
    assert_eq!(builder.currencies, vec![USD()]);
    assert_eq!(builder.base_currency.0, EUR());
    let builder = builder.currencies(vec![GBP(), EUR()]);
    assert_eq!(builder.currencies, vec![GBP(), EUR()]);
    assert_eq!(builder.base_currency.0, EUR());
}

#[test]
fn write_url_appends() {
    let mut out = String::from("GET ");
    Builder::new("T").currencies(vec![USD()]).write_url(&mut out);
    assert_eq!(out, "GET https://api.currencyapi.com/v3/latest?currencies=USD");
}

#[test]
fn every_known_currency_fits() {
    assert_eq!(URL_CAPACITY_LATEST, 846);
    let request = Builder::new("T").base_currency(USD()).currencies(array()).try_build().unwrap();
    let url = request.url().to_string();
    assert!(url.len() <= URL_CAPACITY_LATEST);
    assert!(url.starts_with("https://api.currencyapi.com/v3/latest?base_currency=USD&currencies=ADA,AED,"));
    assert!(url.ends_with(",ZMW,ZWL"));
}

#[test]
fn try_build_refuses_what_does_not_fit() {
    let many = vec![MATIC(); 200];
    assert!(Builder::new("T").currencies(many).try_build().is_none());
    // 37 bytes of endpoint, 12 of `?currencies=`, and 133 codes of 5 letters
    // with 132 commas make 846 bytes: the last URL that fits.
    let brim = vec![MATIC(); 133];
    let request = Builder::new("T").currencies(brim).try_build().unwrap();
    assert_eq!(request.url().len(), 846);
    let over = vec![MATIC(); 133];
    assert!(Builder::new("T").base_currency(OP()).currencies(over).try_build().is_none());
}

#[test]
fn the_token_goes_in_the_apikey_header() {
    assert_eq!(API_KEY_HEADER, "apikey");
}

#[test]
fn request_clone_is_the_same_request() {
    let request = Builder::new("T").currencies(vec![USD()]).build();
    let copy = request.clone();
    assert_eq!(copy.url(), request.url());
    assert_eq!(copy.token(), request.token());
}

#[test]
fn parts_write_behind_their_prefix() {
    let mut out = String::new();
    assert!(BaseUrl::latest().write_url_part(&mut out, ""));
    assert_eq!(out, LATEST);

    let mut out = String::from("x");
    assert!(!NoBaseCurrency.write_url_part(&mut out, "?"));
    assert_eq!(out, "x");

    let mut out = String::from("x");
    assert!(BaseCurrency(EUR()).write_url_part(&mut out, "?"));
    assert_eq!(out, "x?base_currency=EUR");

    let mut out = String::from("x");
    assert!(!BaseCurrency(None::<CurrencyCode>).write_url_part(&mut out, "?"));
    assert_eq!(out, "x");

    let mut out = String::from("x");
    assert!(Some(BaseCurrency(USD())).write_url_part(&mut out, "&"));
    assert_eq!(out, "x&base_currency=USD");

    let mut out = String::from("x");
    assert!(!None::<BaseCurrency<CurrencyCode>>.write_url_part(&mut out, "&"));
    assert_eq!(out, "x");

    let mut out = String::from("x");
    assert!(Currencies(vec![USD(), EUR(), OP()]).write_url_part(&mut out, "&"));
    assert_eq!(out, "x&currencies=USD,EUR,OP");

    let mut out = String::from("x");
    assert!(!Currencies(Vec::new()).write_url_part(&mut out, "&"));
    assert_eq!(out, "x");
}
