use wallet_enrich::subs::{
    subscription_from_request, validate_subscription, CreateSubscription, ValidationError,
};

fn payload(name: &[u8], price: Option<u64>, next: Option<&[u8]>, frequency: i64) -> CreateSubscription {
    CreateSubscription {
        name: name.to_vec(),
        price_cents: price,
        currency: b"USD".to_vec(),
        next_payment: next.map(|d| d.to_vec()),
        frequency,
        url: None,
        logo: None,
        start_date: Some(b"2025-12-01".to_vec()),
    }
}

#[test]
fn blank_name_is_rejected() {
    let p = payload(b"   ", Some(100), Some(b"2026-01-01"), 1);
    assert_eq!(validate_subscription(&p).unwrap_err(), ValidationError::NameRequired);
}

#[test]
fn unknown_frequency_is_rejected() {
    let p = payload(b"Netflix", Some(100), Some(b"2026-01-01"), 5);
    assert_eq!(validate_subscription(&p).unwrap_err(), ValidationError::InvalidFrequency);
}

#[test]
fn non_lifetime_without_price_is_rejected() {
    let p = payload(b"Netflix", None, Some(b"2026-01-01"), 1);
    assert_eq!(validate_subscription(&p).unwrap_err(), ValidationError::PriceRequired);
}

#[test]
fn non_lifetime_without_date_is_rejected() {
    let p = payload(b"Netflix", Some(1599), None, 12);
    assert_eq!(
        validate_subscription(&p).unwrap_err(),
        ValidationError::NextPaymentRequired
    );
}

#[test]
fn lifetime_defaults_price_and_drops_date() {
    let p = payload(b"OneOff", None, Some(b"2026-01-01"), 0);
    let (price, next) = validate_subscription(&p).expect("lifetime passes");
    assert_eq!(price, 0);
    assert!(next.is_none());
}

#[test]
fn lifetime_keeps_a_given_price() {
    let p = payload(b"OneOff", Some(4999), None, 0);
    let (price, next) = validate_subscription(&p).expect("lifetime passes");
    assert_eq!(price, 4999);
    assert!(next.is_none());
}

#[test]
fn passing_payload_keeps_price_and_date() {
    let p = payload(b"Netflix", Some(1599), Some(b"2026-01-23"), 1);
    let (price, next) = validate_subscription(&p).expect("payload passes");
    assert_eq!(price, 1599);
    assert_eq!(next, Some(b"2026-01-23".to_vec()));
}

#[test]
fn built_row_carries_payload_and_is_active() {
    let p = payload(b"Netflix", Some(1599), Some(b"2026-01-23"), 1);
    let row = subscription_from_request(7, p).expect("payload passes");
    assert_eq!(row.id, 7);
    assert_eq!(row.name, b"Netflix".to_vec());
    assert_eq!(row.price_cents, 1599);
    assert_eq!(row.currency, b"USD".to_vec());
    assert_eq!(row.next_payment, Some(b"2026-01-23".to_vec()));
    assert_eq!(row.frequency, 1);
    assert_eq!(row.start_date, Some(b"2025-12-01".to_vec()));
    assert!(row.active);
}

#[test]
fn rejected_payload_builds_no_row() {
    let p = payload(b"", None, None, 1);
    assert_eq!(
        subscription_from_request(7, p).unwrap_err(),
        ValidationError::NameRequired
    );
}
