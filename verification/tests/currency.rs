use std::collections::hash_map::DefaultHasher;
use std::hash::{Hash, Hasher};
use std::mem;

use currencyapi::currency::list::{array, AVAX, EUR, LEN, MATIC, OP, USD};
use currencyapi::currency::{CurrencyCode, Error};

fn avax_manual() -> CurrencyCode {
    CurrencyCode::from_array([b'A', b'V', b'A', b'X'])
}

fn hash_of(code: CurrencyCode) -> u64 {
    let mut hasher = DefaultHasher::new();
    code.hash(&mut hasher);
    hasher.finish()
}

#[test]
fn test_parse() {
    assert_eq!(
        "USD".parse::<CurrencyCode>(),
        Ok(CurrencyCode::new_unchecked(b"USD"))
    );
}

#[test]
fn test_parse_case_insensitive() {
    assert_eq!("usd".parse::<CurrencyCode>(), "USD".parse::<CurrencyCode>());
}

#[test]
fn test_repr() {
    assert_eq!(
        mem::size_of::<CurrencyCode>(),
        mem::size_of::<u64>(),
        "sizeof(CurrencyCode) = sizeof(u64)"
    );

    let avax = avax_manual();
    let bytes = avax.as_u64().to_le_bytes();
    assert_eq!(&bytes[..2], b"AV", "&currency = &currency.code_head");
    assert_eq!(&bytes[2..], b"AX\0\0\0\0");
}

#[test]
fn test_as_ref_bytes_4() {
    assert_eq!(avax_manual().as_bytes(), b"AVAX");
}

#[test]
fn test_parse_1() {
    match "A".parse::<CurrencyCode>() {
        Err(Error::TooShort) => {}
        _ => panic!(),
    }
}

#[test]
fn test_parse_2() {
    assert_eq!(
        "OP".parse::<CurrencyCode>().unwrap(),
        CurrencyCode::from_array(*b"OP"),
    );
}

#[test]
fn test_parse_3() {
    assert_eq!(
        "USD".parse::<CurrencyCode>().unwrap(),
        CurrencyCode::from_array(*b"USD"),
    );
}

#[test]
fn test_parse_4() {
    assert_eq!(
        "AVAX".parse::<CurrencyCode>().unwrap(),
        CurrencyCode::from_array(*b"AVAX"),
    );
}

#[test]
fn test_parse_5() {
    assert_eq!(
        "MATIC".parse::<CurrencyCode>().unwrap(),
        CurrencyCode::from_array(*b"MATIC"),
    );
}

#[test]
fn test_parse_6() {
    match "ABCDEF".parse::<CurrencyCode>() {
        Err(Error::TooLong) => {}
        _ => panic!(),
    }
}

#[test]
fn parse_round_trips_every_length() {
    for text in ["OP", "USD", "AVAX", "MATIC", "ZZ", "AAAAA"] {
        let code = CurrencyCode::parse(text.as_bytes()).unwrap();
        assert_eq!(code.as_bytes(), text.as_bytes());
        assert_eq!(code.as_text(), text);
        assert_eq!(CurrencyCode::parse_str(text), Ok(code));
        assert_eq!(CurrencyCode::try_from(text.as_bytes()), Ok(code));
    }
}

#[test]
fn parse_ignore_case_gives_the_upper_case_code() {
    let code = CurrencyCode::parse_ignore_case(b"mAtIc").unwrap();
    assert_eq!(code.as_text(), "MATIC");
    assert_eq!(code, MATIC());
    assert_eq!(CurrencyCode::parse_ignore_case(b"USD"), Ok(USD()));
}

#[test]
fn parse_is_strict_about_case() {
    assert_eq!(CurrencyCode::parse(b"usd"), Err(Error::InvalidCharacter(b'u')));
    assert_eq!(CurrencyCode::parse_str("Usd"), Err(Error::InvalidCharacter(b's')));
}

#[test]
fn parse_judges_length_before_content() {
    assert_eq!(CurrencyCode::parse(b""), Err(Error::TooShort));
    assert_eq!(CurrencyCode::parse(b"A"), Err(Error::TooShort));
    assert_eq!(CurrencyCode::parse(b"1"), Err(Error::TooShort));
    assert_eq!(CurrencyCode::parse(b"ABCDEF"), Err(Error::TooLong));
    assert_eq!(CurrencyCode::parse(b"abcdef"), Err(Error::TooLong));
    assert_eq!(CurrencyCode::parse(b"123456789"), Err(Error::TooLong));
}

#[test]
fn parse_names_the_first_byte_that_is_no_letter() {
    assert_eq!(CurrencyCode::parse(b"U$D"), Err(Error::InvalidCharacter(b'$')));
    assert_eq!(CurrencyCode::parse(b"US1"), Err(Error::InvalidCharacter(b'1')));
    assert_eq!(CurrencyCode::parse(b"1$"), Err(Error::InvalidCharacter(b'1')));
    assert_eq!(CurrencyCode::parse(b"AB\0"), Err(Error::InvalidCharacter(0)));
    assert_eq!(CurrencyCode::parse(b"A[CD"), Err(Error::InvalidCharacter(b'[')));
    assert_eq!(CurrencyCode::parse(b"A@CD"), Err(Error::InvalidCharacter(b'@')));
    assert_eq!(CurrencyCode::parse("EÜR".as_bytes()), Err(Error::InvalidCharacter(0xc3)));
    assert_eq!(CurrencyCode::parse_ignore_case(b"u$d"), Err(Error::InvalidCharacter(b'$')));
    assert_eq!(CurrencyCode::parse_ignore_case(b"a{"), Err(Error::InvalidCharacter(b'{')));
    assert_eq!(CurrencyCode::parse_ignore_case(b"a`"), Err(Error::InvalidCharacter(b'`')));
}

#[test]
fn packed_value_holds_the_first_letter_lowest() {
    assert_eq!(USD().as_u64(), 0x44_53_55);
    assert_eq!(OP().as_u64(), 0x50_4f);
    assert_eq!(MATIC().as_u64(), 0x43_49_54_41_4d);
    assert_eq!(AVAX().as_u64(), u64::from_le_bytes(*b"AVAX\0\0\0\0"));
}

#[test]
fn order_goes_by_the_packed_value() {
    let ab = CurrencyCode::parse(b"AB").unwrap();
    let abc = CurrencyCode::parse(b"ABC").unwrap();
    let ba = CurrencyCode::parse(b"BA").unwrap();
    // A text that begins another comes first.
    assert!(ab < abc);
    assert!(abc > ab);
    assert_eq!(ab.partial_cmp(&abc), Some(std::cmp::Ordering::Less));
    assert_eq!(ab.cmp(&abc), std::cmp::Ordering::Less);
    // The last letter weighs most: not the order of the texts.
    assert!("AB" < "BA");
    assert!(ba < ab);
    assert_eq!(ba.cmp(&ab), std::cmp::Ordering::Less);
    assert!(ab.as_u64() > ba.as_u64());
    // Two codes of one text are equal in every way.
    let again = "ab".parse::<CurrencyCode>().unwrap();
    assert_eq!(ab, again);
    assert_eq!(ab.partial_cmp(&again), Some(std::cmp::Ordering::Equal));
    assert_eq!(ab.cmp(&again), std::cmp::Ordering::Equal);
    assert_eq!(hash_of(ab), hash_of(again));
    assert_ne!(ab, abc);
    assert!(ab <= again && ab >= again);
}

#[test]
fn default_is_usd() {
    assert_eq!(CurrencyCode::default(), USD());
    assert_eq!(CurrencyCode::default().as_text(), "USD");
}

#[test]
fn known_currencies_spell_their_names() {
    assert_eq!(USD().as_text(), "USD");
    assert_eq!(EUR().as_bytes(), b"EUR");
    assert_eq!(OP().as_text(), "OP");
    assert_eq!(AVAX().as_text(), "AVAX");
    assert_eq!(MATIC().as_text(), "MATIC");
    let all = array();
    assert_eq!(all.len(), LEN);
    assert_eq!(all.len(), 185);
    assert_eq!(all[0].as_text(), "ADA");
    assert_eq!(all[184].as_text(), "ZWL");
    assert!(all.contains(&USD()));
    for (i, code) in all.iter().enumerate() {
        assert_eq!(CurrencyCode::parse_str(&code.as_text()), Ok(*code));
        if i > 0 {
            assert!(all[i - 1].as_text() < code.as_text());
        }
    }
}
