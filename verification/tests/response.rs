use std::str::FromStr;

use currencyapi::currency::list::{EUR, ILS, USD};
use currencyapi::json::{bytes_eq, member, text_eq};
use currencyapi::latest::{
    check_status, fill, read_entries, read_payload, Metadata, RawResponse,
};
use currencyapi::rate_limit::{
    find_header, parse_unsigned, read_quota, writes_unsigned, Header, RateLimitData, LIMIT_MINUTE,
    LIMIT_MONTH, REMAINING_MINUTE, REMAINING_MONTH,
};
use currencyapi::scientific::InvalidDecimal;
use currencyapi::text::{bytes_eq_ignore_case, to_lower};
use currencyapi::{Error, FromScientific, RateLimit, RateLimitIgnore, Rates};
use rust_decimal::Decimal;

const BODY: &str = r#"{
    "meta": { "last_updated_at": "2023-06-23T10:15:59Z" },
    "data": {
        "EUR": { "code": "EUR", "value": 0.9 },
        "ILS": { "code": "ILS", "value": 3.1e0 },
        "USD": { "code": "USD", "value": 1 }
    }
}"#;

fn dec(text: &str) -> Decimal {
    Decimal::from_str(text).unwrap()
}

fn header(name: &str, value: &str) -> Header {
    Header { name: name.to_string(), value: value.as_bytes().to_vec() }
}

fn quota_headers() -> Vec<Header> {
    vec![
        header("content-type", "application/json"),
        header("x-ratelimit-limit-quota-minute", "10"),
        header("x-ratelimit-limit-quota-month", "300"),
        header("x-ratelimit-remaining-quota-minute", "9"),
        header("x-ratelimit-remaining-quota-month", "299"),
    ]
}

fn response(status: u16, headers: Vec<Header>, body: &str) -> RawResponse {
    RawResponse { status, headers, body: body.as_bytes().to_vec() }
}

fn time(text: &str) -> Option<String> {
    if text.ends_with('Z') {
        Some(text.to_string())
    } else {
        None
    }
}

fn entries(pairs: &[(&str, &str)]) -> Vec<(String, String)> {
    pairs.iter().map(|(name, value)| (name.to_string(), value.to_string())).collect()
}

#[test]
fn status_429_is_the_rate_limit_whatever_the_body() {
    for body in [BODY, "", "not json", "{}"] {
        let mut rates = Rates::<3, Decimal>::new();
        let r: Result<Metadata<String, RateLimitIgnore>, Error> =
            response(429, quota_headers(), body).decode(&time, &mut rates);
        assert_eq!(r.unwrap_err(), Error::RateLimitError);
        assert!(rates.is_empty());
        let r: Result<Metadata<String, RateLimit>, Error> =
            response(429, Vec::new(), body).decode(&time, &mut rates);
        assert_eq!(r.unwrap_err(), Error::RateLimitError);
        assert!(rates.is_empty());
    }
}

#[test]
fn three_entries_into_a_table_of_two() {
    let mut rates = Rates::<2, Decimal>::new();
    let metadata: Metadata<String, RateLimitIgnore> =
        response(200, Vec::new(), BODY).decode(&time, &mut rates).unwrap();
    assert_eq!(metadata.last_updated_at, "2023-06-23T10:15:59Z");
    assert_eq!(rates.len(), 2);
    assert_eq!(rates.currencies(), &[EUR(), ILS()]);
    assert_eq!(rates.rates(), &[dec("0.9"), dec("3.1")]);

    let payload = read_payload(BODY.as_bytes()).unwrap();
    let mut rates = Rates::<2, Decimal>::new();
    assert_eq!(fill(&mut rates, &payload.entries), Ok(false));
    assert_eq!(rates.len(), 2);
}

#[test]
fn decode_reads_rates_time_and_quota() {
    let mut rates = Rates::<8, Decimal>::new();
    let metadata: Metadata<String, RateLimit> =
        response(200, quota_headers(), BODY).decode(&time, &mut rates).unwrap();
    assert_eq!(metadata.last_updated_at, "2023-06-23T10:15:59Z");
    assert_eq!(
        metadata.rate_limit,
        RateLimit { limit_minute: 10, limit_month: 300, remainig_minute: 9, remaining_month: 299 }
    );
    assert_eq!(rates.currencies(), &[EUR(), ILS(), USD()]);
    assert_eq!(rates.get(USD()), Some(&dec("1")));
    assert_eq!(rates.get(EUR()), Some(&dec("0.9")));
    assert_eq!(rates.get(ILS()), Some(&dec("3.1")));
    assert_eq!(rates.convert(&dec("31"), ILS(), USD()), Some(dec("10")));
}

#[test]
fn decode_appends_to_what_the_table_holds() {
    let mut rates = Rates::<4, Decimal>::new();
    rates.push(USD(), dec("7"));
    let _: Metadata<String> = response(204, Vec::new(), BODY).decode(&time, &mut rates).unwrap();
    assert_eq!(rates.currencies(), &[USD(), EUR(), ILS(), USD()]);
    assert_eq!(rates.get(USD()), Some(&dec("7")));
}

#[test]
fn other_statuses_are_http_errors() {
    for status in [100, 199, 300, 301, 400, 404, 428, 430, 500, 503, 0, 65535] {
        let mut rates = Rates::<3, Decimal>::new();
        let r: Result<Metadata<String>, Error> =
            response(status, quota_headers(), BODY).decode(&time, &mut rates);
        assert_eq!(r.unwrap_err(), Error::HttpError(status));
        assert!(rates.is_empty());
        assert_eq!(check_status(status), Err(Error::HttpError(status)));
    }
    assert_eq!(check_status(429), Err(Error::RateLimitError));
    for status in [200, 201, 204, 299] {
        assert_eq!(check_status(status), Ok(()));
    }
}

#[test]
fn quota_headers_are_needed_only_when_kept() {
    let mut headers = quota_headers();
    headers.remove(3);
    let mut rates = Rates::<3, Decimal>::new();
    let r: Result<Metadata<String, RateLimit>, Error> =
        response(200, headers, BODY).decode(&time, &mut rates);
    assert_eq!(r.unwrap_err(), Error::RateLimitParseError);
    assert!(rates.is_empty());

    let mut headers = quota_headers();
    headers[2] = header(LIMIT_MONTH, "many");
    let r: Result<Metadata<String, RateLimit>, Error> =
        response(200, headers, BODY).decode(&time, &mut rates);
    assert_eq!(r.unwrap_err(), Error::RateLimitParseError);
    assert!(rates.is_empty());

    let r: Result<Metadata<String, RateLimitIgnore>, Error> =
        response(200, Vec::new(), BODY).decode(&time, &mut rates);
    assert!(r.is_ok());
    assert_eq!(rates.len(), 3);
}

#[test]
fn quota_errors_come_before_body_errors() {
    let mut rates = Rates::<3, Decimal>::new();
    let r: Result<Metadata<String, RateLimit>, Error> =
        response(200, Vec::new(), "not json").decode(&time, &mut rates);
    assert_eq!(r.unwrap_err(), Error::RateLimitParseError);
}

#[test]
fn malformed_bodies_are_parse_errors() {
    let bodies = [
        "",
        "not json",
        "[]",
        "{}",
        r#"{"meta": {"last_updated_at": "2023-06-23T10:15:59Z"}}"#,
        r#"{"data": {}}"#,
        r#"{"meta": {}, "data": {}}"#,
        r#"{"meta": {"last_updated_at": 5}, "data": {}}"#,
        r#"{"meta": [], "data": {}}"#,
        r#"{"meta": {"last_updated_at": "2023-06-23T10:15:59Z"}, "data": []}"#,
        r#"{"meta": {"last_updated_at": "2023-06-23T10:15:59Z"}, "data": {"USD": 1}}"#,
        r#"{"meta": {"last_updated_at": "2023-06-23T10:15:59Z"}, "data": {"USD": {"code": "USD"}}}"#,
        r#"{"meta": {"last_updated_at": "2023-06-23T10:15:59Z"}, "data": {}} trailing"#,
    ];
    for body in bodies {
        assert!(read_payload(body.as_bytes()).is_none(), "{}", body);
        let mut rates = Rates::<3, Decimal>::new();
        let r: Result<Metadata<String>, Error> =
            response(200, Vec::new(), body).decode(&time, &mut rates);
        assert_eq!(r.unwrap_err(), Error::ResponseParseError, "{}", body);
        assert!(rates.is_empty());
    }
}

#[test]
fn a_time_that_does_not_parse_is_a_parse_error() {
    let body = r#"{"meta": {"last_updated_at": "yesterday"}, "data": {"USD": {"value": 1}}}"#;
    let mut rates = Rates::<3, Decimal>::new();
    let r: Result<Metadata<String>, Error> =
        response(200, Vec::new(), body).decode(&time, &mut rates);
    assert_eq!(r.unwrap_err(), Error::ResponseParseError);
    assert!(rates.is_empty());
}

#[test]
fn the_time_is_what_the_parser_makes_of_it() {
    let count = |text: &str| Some(text.len());
    let mut rates = Rates::<3, Decimal>::new();
    let metadata: Metadata<usize> =
        response(200, Vec::new(), BODY).decode(&count, &mut rates).unwrap();
    assert_eq!(metadata.last_updated_at, 20);
}

#[test]
fn a_wrong_entry_ends_the_filling_with_an_error() {
    let body = r#"{"meta": {"last_updated_at": "2023-06-23T10:15:59Z"},
        "data": {"EUR": {"value": 0.9}, "Usd": {"value": 1}, "ZAR": {"value": 18}}}"#;
    let mut rates = Rates::<3, Decimal>::new();
    let r: Result<Metadata<String>, Error> =
        response(200, Vec::new(), body).decode(&time, &mut rates);
    assert_eq!(r.unwrap_err(), Error::ResponseParseError);
    assert_eq!(rates.currencies(), &[EUR()]);

    let body = r#"{"meta": {"last_updated_at": "2023-06-23T10:15:59Z"},
        "data": {"EUR": {"value": "0.9"}}}"#;
    let mut rates = Rates::<3, Decimal>::new();
    let r: Result<Metadata<String>, Error> =
        response(200, Vec::new(), body).decode(&time, &mut rates);
    assert_eq!(r.unwrap_err(), Error::ResponseParseError);
    assert!(rates.is_empty());
}

#[test]
fn fill_reads_an_entry_before_it_asks_for_room() {
    let mut rates = Rates::<1, Decimal>::new();
    assert_eq!(fill(&mut rates, &entries(&[("USD", "1"), ("EUR", "0.9")])), Ok(false));
    assert_eq!(rates.currencies(), &[USD()]);

    let mut rates = Rates::<1, Decimal>::new();
    assert_eq!(
        fill(&mut rates, &entries(&[("USD", "1"), ("eur", "0.9")])),
        Err(Error::ResponseParseError)
    );
    assert_eq!(rates.currencies(), &[USD()]);

    // Behind the entry that found the table full nothing is read.
    let mut rates = Rates::<1, Decimal>::new();
    assert_eq!(fill(&mut rates, &entries(&[("USD", "1"), ("EUR", "0.9"), ("?", "?")])), Ok(false));
    assert_eq!(rates.currencies(), &[USD()]);

    let mut rates = Rates::<2, Decimal>::new();
    assert_eq!(fill(&mut rates, &entries(&[("USD", "1"), ("EUR", "0.9")])), Ok(true));
    assert_eq!(fill(&mut rates, &entries(&[])), Ok(true));
    assert_eq!(rates.rates(), &[dec("1"), dec("0.9")]);

    let mut rates = Rates::<2, Decimal>::new();
    assert_eq!(fill(&mut rates, &entries(&[("USD", "one")])), Err(Error::ResponseParseError));
    assert_eq!(fill(&mut rates, &entries(&[("TOOLONG", "1")])), Err(Error::ResponseParseError));
    assert!(rates.is_empty());
}

#[test]
fn payload_is_taken_apart_in_the_order_of_the_names() {
    let body = r#" {"data": {"USD": {"value": 1}, "EUR": {"value":  1.5E-3 , "code": "EUR"}},
        "meta": {"last_updated_at": "abc", "more": null}, "extra": [1, 2]} "#;
    let payload = read_payload(body.as_bytes()).unwrap();
    assert_eq!(payload.last_updated_at, "abc");
    assert_eq!(payload.entries, entries(&[("EUR", "1.5E-3"), ("USD", "1")]));
}

#[test]
fn read_entries_takes_each_value() {
    let data = entries(&[("USD", r#"{"value": 1.0, "code": "USD"}"#), ("X", r#"{"value":{"a":[1]}}"#)]);
    assert_eq!(read_entries(&data), Some(entries(&[("USD", "1.0"), ("X", r#"{"a":[1]}"#)])));
    let data = entries(&[("USD", r#"{"value": 1.0}"#), ("EUR", r#"{"rate": 1.0}"#)]);
    assert_eq!(read_entries(&data), None);
    assert_eq!(read_entries(&entries(&[("USD", "1.0")])), None);
    assert_eq!(read_entries(&Vec::new()), Some(Vec::new()));
}

#[test]
fn member_finds_the_first_of_a_name() {
    let members = entries(&[("a", "1"), ("b", "2"), ("a", "3")]);
    assert_eq!(member(&members, "a"), Some(&"1".to_string()));
    assert_eq!(member(&members, "b"), Some(&"2".to_string()));
    assert_eq!(member(&members, "c"), None);
    assert_eq!(member(&members, "A"), None);
    assert_eq!(member(&Vec::new(), "a"), None);
}

#[test]
fn texts_and_bytes_compare() {
    assert!(bytes_eq(b"abc", b"abc"));
    assert!(!bytes_eq(b"abc", b"abd"));
    assert!(!bytes_eq(b"abc", b"ab"));
    assert!(bytes_eq(b"", b""));
    assert!(text_eq("meta", "meta"));
    assert!(!text_eq("meta", "Meta"));
    assert!(bytes_eq_ignore_case(b"X-RateLimit", b"x-ratelimit"));
    assert!(!bytes_eq_ignore_case(b"X-RateLimit", b"x-ratelimits"));
    assert!(!bytes_eq_ignore_case(b"a@", b"a`"));
    assert!(!bytes_eq_ignore_case(b"[", b"{"));
    assert_eq!(to_lower(b'A'), b'a');
    assert_eq!(to_lower(b'Z'), b'z');
    assert_eq!(to_lower(b'a'), b'a');
    assert_eq!(to_lower(b'@'), b'@');
    assert_eq!(to_lower(b'['), b'[');
}

#[test]
fn headers_are_found_by_name_in_any_case() {
    let headers = vec![
        header("Content-Type", "text/plain"),
        header("X-RATELIMIT-LIMIT-QUOTA-MINUTE", "10"),
        header("x-ratelimit-limit-quota-minute", "20"),
    ];
    assert_eq!(find_header(&headers, LIMIT_MINUTE), Some(&b"10".to_vec()));
    assert_eq!(find_header(&headers, "content-type"), Some(&b"text/plain".to_vec()));
    assert_eq!(find_header(&headers, LIMIT_MONTH), None);
    assert_eq!(read_quota(&headers, LIMIT_MINUTE), Some(10));
    assert_eq!(read_quota(&headers, "Content-Type"), None);
    assert_eq!(read_quota(&headers, REMAINING_MONTH), None);
}

#[test]
fn header_names_are_those_of_the_service() {
    assert_eq!(LIMIT_MINUTE, "X-RateLimit-Limit-Quota-Minute");
    assert_eq!(LIMIT_MONTH, "X-RateLimit-Limit-Quota-Month");
    assert_eq!(REMAINING_MINUTE, "X-RateLimit-Remaining-Quota-Minute");
    assert_eq!(REMAINING_MONTH, "X-RateLimit-Remaining-Quota-Month");
}

#[test]
fn quota_is_an_unsigned_integer_and_nothing_else() {
    let quota = |value: &str| read_quota(&[header("n", value)], "N");
    assert_eq!(quota("42"), Some(42));
    assert_eq!(quota("0"), Some(0));
    assert_eq!(quota("0042"), Some(42));
    assert_eq!(quota("7"), Some(7));
    let max = usize::MAX.to_string();
    assert_eq!(quota(&max), Some(usize::MAX));
    assert_eq!(quota(&format!("000{}", max)), Some(usize::MAX));
    assert_eq!(quota(&format!("{}0", max)), None);
    assert_eq!(quota("18446744073709551616"), None);
    assert_eq!(quota("99999999999999999999999999"), None);
    for wrong in [
        "", "+", "-", "+x", "-0", "+0", "+42", "-1", "7x", "42 is the answer", "4 2", " 42", "42 ",
        "x42", "++1", "4.2", "1e3", "0x10", "\u{664}2",
    ] {
        assert_eq!(quota(wrong), None, "{:?}", wrong);
        assert_eq!(parse_unsigned(wrong.as_bytes()), None, "{:?}", wrong);
        assert!(!writes_unsigned(wrong.as_bytes()), "{:?}", wrong);
    }
    assert!(writes_unsigned(b"0"));
    assert!(writes_unsigned(b"99999999999999999999999999"));
    assert!(!writes_unsigned(b"/"));
    assert!(!writes_unsigned(b":"));
    assert_eq!(parse_unsigned(b"15"), Some(15));
}

#[test]
fn quota_headers_that_are_no_unsigned_integers_fail() {
    let with = |values: [&str; 4]| {
        vec![
            header(LIMIT_MINUTE, values[0]),
            header(LIMIT_MONTH, values[1]),
            header(REMAINING_MINUTE, values[2]),
            header(REMAINING_MONTH, values[3]),
        ]
    };
    for values in [
        ["+", "+", "+", "+"],
        ["+", "-", "7x", "+"],
        ["1", "2", "3", "-0"],
        ["1", "2", " 3", "4"],
        ["1", "+2", "3", "4"],
        ["1x", "2", "3", "4"],
        ["1", "2", "3", ""],
    ] {
        assert_eq!(RateLimit::from_headers(&with(values)), None, "{:?}", values);
        let mut rates = Rates::<3, Decimal>::new();
        let r: Result<Metadata<String, RateLimit>, Error> =
            response(200, with(values), BODY).decode(&time, &mut rates);
        assert_eq!(r.unwrap_err(), Error::RateLimitParseError, "{:?}", values);
        assert!(rates.is_empty());
        let r: Result<Metadata<String, RateLimitIgnore>, Error> =
            response(200, with(values), BODY).decode(&time, &mut rates);
        assert!(r.is_ok());
    }
    assert_eq!(
        RateLimit::from_headers(&with(["1", "02", "3", "4"])),
        Some(RateLimit { limit_minute: 1, limit_month: 2, remainig_minute: 3, remaining_month: 4 })
    );
}

#[test]
fn rate_limit_is_read_off_the_headers() {
    assert_eq!(
        RateLimit::from_headers(&quota_headers()),
        Some(RateLimit { limit_minute: 10, limit_month: 300, remainig_minute: 9, remaining_month: 299 })
    );
    assert_eq!(RateLimit::from_headers(&[]), None);
    for missing in 1..5 {
        let mut headers = quota_headers();
        headers.remove(missing);
        assert_eq!(RateLimit::from_headers(&headers), None);
    }
    assert_eq!(RateLimitIgnore::from_headers(&[]), Some(RateLimitIgnore));
    assert_eq!(RateLimitIgnore::from_headers(&quota_headers()), Some(RateLimitIgnore));
    assert_eq!(
        RateLimit::default(),
        RateLimit { limit_minute: 0, limit_month: 0, remainig_minute: 0, remaining_month: 0 }
    );
}

#[test]
fn decimals_parse_with_and_without_exponent() {
    assert_eq!(Decimal::parse_scientific("1.23"), Ok(dec("1.23")));
    assert_eq!(Decimal::parse_scientific("1.23e-4"), Ok(dec("0.000123")));
    assert_eq!(Decimal::parse_scientific("1.23E2"), Ok(dec("123")));
    assert_eq!(Decimal::parse_scientific("-5"), Ok(dec("-5")));
    assert_eq!(Decimal::parse_scientific("0"), Ok(dec("0")));
    assert_eq!(Decimal::parse_scientific("9.7e-7"), Ok(dec("0.00000097")));
    assert_eq!(Decimal::parse_scientific(""), Err(InvalidDecimal));
    assert_eq!(Decimal::parse_scientific("abc"), Err(InvalidDecimal));
    assert_eq!(Decimal::parse_scientific("\"1.23\""), Err(InvalidDecimal));
    assert_eq!(Decimal::parse_scientific("1e99"), Err(InvalidDecimal));
}

#[test]
fn errors_have_messages() {
    assert_eq!(Error::RateLimitError.message(), "exceeded rate limit or month limit");
    assert_eq!(Error::HttpError(500).message(), "HTTP error");
    assert_eq!(Error::ResponseParseError.message(), "failed to parse the response");
    assert_eq!(
        Error::RateLimitParseError.message(),
        "failed to parse the rate-limits headers from the response"
    );
}

#[derive(Debug, Clone, Copy, PartialEq)]
struct Float(f64);

impl FromScientific for Float {
    type Error = serde_json::Error;

    fn parse_scientific(s: &str) -> Result<Self, Self::Error> {
        serde_json::from_str::<f64>(s).map(Float)
    }
}

#[test]
fn decode_with_a_rate_type_of_the_caller() {
    let body = r#"{"meta": {"last_updated_at": "2023-06-23T10:15:59Z"},
        "data": {"EUR": {"value": 0.9}, "ILS": {"value": 3.1}, "USD": {"value": 1.23e-4}}}"#;
    let mut rates = Rates::<3, Float>::new();
    let _: Metadata<String> = response(200, Vec::new(), body).decode(&time, &mut rates).unwrap();
    assert_eq!(rates.rates(), &[Float(0.9), Float(3.1), Float(0.000123)]);

    let mut rates = Rates::<3, Float>::new();
    assert_eq!(fill(&mut rates, &entries(&[("USD", "1.5"), ("EUR", "x")])), Err(Error::ResponseParseError));
    assert_eq!(rates.rates(), &[Float(1.5)]);
}

/// The unsigned integer that a header value writes, worked out by hand:
/// at least one byte, digits alone, and a number that fits.
fn unsigned_number(text: &[u8]) -> Option<usize> {
    if text.is_empty() || !text.iter().all(|b| b.is_ascii_digit()) {
        return None;
    }
    let mut value: Option<u128> = Some(0);
    for digit in text {
        value = value
            .and_then(|v| v.checked_mul(10))
            .and_then(|v| v.checked_add((digit - b'0') as u128));
    }
    value.and_then(|v| usize::try_from(v).ok())
}

#[test]
fn quota_agrees_with_the_number_worked_out_by_hand() {
    let alphabet = [b'+', b'-', b'0', b'1', b'7', b'9', b' ', b'x'];
    let mut texts: Vec<Vec<u8>> = vec![Vec::new()];
    let mut layer: Vec<Vec<u8>> = vec![Vec::new()];
    for _ in 0..4 {
        let mut next = Vec::new();
        for text in &layer {
            for byte in alphabet {
                let mut longer = text.clone();
                longer.push(byte);
                next.push(longer);
            }
        }
        texts.extend(next.iter().cloned());
        layer = next;
    }
    let max = usize::MAX.to_string();
    for prefix in ["", "+", "-", "0", "+0", "-0", "000"] {
        for digits in [max.clone(), format!("{}0", max), "9".repeat(19), "9".repeat(20), "0".repeat(40)] {
            for suffix in ["", "1", "x", " 5"] {
                texts.push(format!("{}{}{}", prefix, digits, suffix).into_bytes());
            }
        }
    }
    let mut last = max.clone().into_bytes();
    let end = last.len() - 1;
    last[end] += 1;
    texts.push(last);
    assert!(texts.len() > 4000);
    for text in texts {
        let headers = [Header { name: "n".to_string(), value: text.clone() }];
        assert_eq!(read_quota(&headers, "n"), unsigned_number(&text), "{:?}", String::from_utf8_lossy(&text));
    }
}
