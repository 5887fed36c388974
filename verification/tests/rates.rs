use std::str::FromStr;

use currencyapi::currency::list::{EUR, GBP, ILS, JPY, USD};
use currencyapi::Rates;
use rust_decimal::Decimal;

#[test]
fn test_convert() {
    let mut rates = Rates::<3, f64>::new();
    rates.push(USD(), 1.0);
    rates.push(EUR(), 0.9);
    rates.push(ILS(), 3.1);
    assert_eq!(rates.convert(&1234.0, USD(), USD()), Some(1234.));
    assert_eq!(rates.convert(&1234.0, EUR(), EUR()), Some(1234.));
    assert_eq!(rates.convert(&1234.0, ILS(), ILS()), Some(1234.));
    assert_eq!(rates.convert(&1.0, ILS(), EUR()), Some(1. / 3.1 * 0.9));
    assert_eq!(rates.convert(&1.0, EUR(), ILS()), Some(1. / 0.9 * 3.1));
}

#[test]
fn convert_is_the_amount_times_the_quotient() {
    let mut rates = Rates::<3, f64>::new();
    rates.push(USD(), 1.0);
    rates.push(EUR(), 0.9);
    rates.push(ILS(), 3.1);
    assert_eq!(rates.convert(&1.0, ILS(), EUR()), Some(0.9 / 3.1));
    assert_eq!(rates.convert(&1.0, EUR(), ILS()), Some(3.1 / 0.9));
    assert_eq!(rates.convert(&2.5, USD(), ILS()), Some(2.5 * (3.1 / 1.0)));
}

#[test]
fn convert_needs_both_currencies() {
    let mut rates = Rates::<3, f64>::new();
    rates.push(USD(), 1.0);
    rates.push(EUR(), 0.9);
    assert_eq!(rates.convert(&1.0, USD(), GBP()), None);
    assert_eq!(rates.convert(&1.0, GBP(), USD()), None);
    assert_eq!(rates.convert(&1.0, GBP(), JPY()), None);
    assert_eq!(Rates::<3, f64>::new().convert(&1.0, USD(), USD()), None);
}

#[test]
fn convert_with_decimals() {
    let mut rates = Rates::<4, Decimal>::new();
    rates.push(USD(), Decimal::from_str("1").unwrap());
    rates.push(EUR(), Decimal::from_str("0.5").unwrap());
    rates.push(ILS(), Decimal::from_str("4").unwrap());
    let amount = Decimal::from_str("10").unwrap();
    assert_eq!(rates.convert(&amount, EUR(), ILS()), Some(Decimal::from_str("80").unwrap()));
    assert_eq!(rates.convert(&amount, ILS(), EUR()), Some(Decimal::from_str("1.25").unwrap()));
    assert_eq!(rates.convert(&amount, ILS(), ILS()), Some(amount));
}

#[test]
fn convert_with_whole_numbers() {
    let mut rates = Rates::<2, u64>::new();
    rates.push(USD(), 100);
    rates.push(JPY(), 15000);
    assert_eq!(rates.convert(&7, USD(), JPY()), Some(7 * 150));
    assert_eq!(rates.convert(&7, JPY(), JPY()), Some(7));
}

#[test]
fn push_is_taken_until_the_table_is_full() {
    let mut rates = Rates::<3, u32>::new();
    assert!(rates.is_empty());
    assert_eq!(rates.len(), 0);
    let mut taken = 0;
    for i in 0..4 {
        let inserted = rates.push(USD(), i);
        assert_eq!(inserted, i < 3);
        if inserted {
            taken += 1;
        }
        assert!(rates.len() <= 3);
        assert_eq!(rates.len(), taken);
    }
    assert_eq!(taken, 3);
    assert!(!rates.push(EUR(), 9));
    assert_eq!(rates.len(), 3);
    assert_eq!(rates.rates(), &[0, 1, 2]);
    assert!(!rates.is_empty());
}

#[test]
fn a_table_without_room_takes_nothing() {
    let mut rates = Rates::<0, u32>::new();
    assert!(!rates.push(USD(), 1));
    assert!(rates.is_empty());
    assert!(!rates.extend_capped(vec![(USD(), 1)]));
    assert!(rates.extend_capped(vec![]));
    assert_eq!(rates.get(USD()), None);
}

#[test]
fn push_unchecked_appends() {
    let mut rates = Rates::<2, u32>::new();
    rates.push_unchecked(EUR(), 5);
    rates.push_unchecked(USD(), 6);
    assert_eq!(rates.currencies(), &[EUR(), USD()]);
    assert_eq!(rates.rates(), &[5, 6]);
}

#[test]
fn get_finds_the_oldest_entry() {
    let mut rates = Rates::<4, u32>::new();
    rates.push(USD(), 1);
    rates.push(EUR(), 2);
    rates.push(USD(), 3);
    assert_eq!(rates.get(USD()), Some(&1));
    assert_eq!(rates.get(EUR()), Some(&2));
    assert_eq!(rates.get(GBP()), None);
    assert_eq!(rates.len(), 3);
}

#[test]
fn extend_capped_stops_when_full() {
    let mut rates = Rates::<3, u32>::new();
    assert!(rates.extend_capped(vec![(USD(), 1), (EUR(), 2)]));
    assert_eq!(rates.len(), 2);
    assert!(!rates.extend_capped(vec![(GBP(), 3), (ILS(), 4), (JPY(), 5)]));
    assert_eq!(rates.currencies(), &[USD(), EUR(), GBP()]);
    assert_eq!(rates.rates(), &[1, 2, 3]);
    assert!(rates.extend_capped(vec![]));
    assert!(!rates.extend_capped(vec![(JPY(), 5)]));
    assert_eq!(rates.len(), 3);
}

#[test]
fn extend_capped_fills_to_the_brim() {
    let mut rates = Rates::<2, u32>::new();
    assert!(rates.extend_capped(vec![(USD(), 1), (EUR(), 2)]));
    assert_eq!(rates.len(), 2);
    assert_eq!(rates.get(EUR()), Some(&2));
}

#[test]
fn iter_lists_the_entries_in_order() {
    let mut rates = Rates::<3, u32>::new();
    rates.push(ILS(), 7);
    rates.push(USD(), 8);
    assert_eq!(rates.iter(), vec![(ILS(), &7), (USD(), &8)]);
    rates.clear();
    assert!(rates.iter().is_empty());
}

#[test]
fn clear_empties_the_table() {
    let mut rates = Rates::<2, u32>::new();
    rates.push(USD(), 1);
    rates.push(EUR(), 2);
    rates.clear();
    assert!(rates.is_empty());
    assert_eq!(rates.len(), 0);
    assert_eq!(rates.get(USD()), None);
    assert!(rates.currencies().is_empty());
    assert!(rates.rates().is_empty());
    assert!(rates.push(GBP(), 3));
    assert_eq!(rates.currencies(), &[GBP()]);
}

#[test]
fn default_table_is_empty() {
    let rates: Rates<5, u32> = Default::default();
    assert!(rates.is_empty());
    assert_eq!(rates.len(), 0);
}
