use chrono::{Datelike, Days, NaiveDate, NaiveDateTime, NaiveTime, Timelike, Utc};
use nowpayments::currency::Currency;
use nowpayments::payment::{paid_price_request, with_paid_price, Payment, RawPayment, RawPayments};
use nowpayments::status::Status;
use nowpayments::time::Timestamp;
use rust_decimal::prelude::FromPrimitive;
use rust_decimal::Decimal;

fn timestamp_of(t: NaiveDateTime) -> Timestamp {
    Timestamp::from_parts(t.num_days_from_ce(), t.num_seconds_from_midnight(), t.nanosecond())
        .unwrap()
}

fn api_time(text: &str) -> Timestamp {
    Timestamp::parse(text).unwrap()
}

fn sample_raw() -> RawPayment {
    RawPayment {
        payment_id: "0".to_string(),
        payment_status: "waiting".to_string(),
        pay_address: "my_fake_address".to_string(),
        price_amount: Decimal::from_f64(10.0).unwrap(),
        price_currency: "usd".to_string(),
        pay_amount: Decimal::from_f64(0.01).unwrap(),
        pay_currency: "xmr".to_string(),
        actually_paid: Some(Decimal::from_f64(0.005).unwrap()),
        order_id: "test_id".to_string(),
        order_description: Some("my test".to_string()),
        purchase_id: "".to_string(),
        created_at: "2026-01-10T17:56:15.327Z".to_string(),
        updated_at: "2026-01-10T17:56:15.327Z".to_string(),
    }
}

#[test]
fn test_is_methods() {
    let payment = Payment {
        id: 0,
        status: Status::Waiting,
        address: "my_fake_address".to_string(),
        price_amount: Decimal::from_f64(10.0).unwrap(),
        price_currency: Currency::USD,
        pay_amount: Decimal::from_f64(0.01).unwrap(),
        pay_currency: Currency::XMR,
        actually_paid: Some(Decimal::from_f64(0.005).unwrap()),
        actually_paid_price: None,
        order_id: "test_id".to_string(),
        order_description: "my test".to_string(),
        created_at: timestamp_of(
            NaiveDateTime::parse_from_str("2026-01-10T17:56:15.327Z", "%Y-%m-%dT%H:%M:%S%.3fZ")
                .unwrap(),
        ),
        updated_at: timestamp_of(
            NaiveDateTime::parse_from_str("2026-01-10T17:56:15.327Z", "%Y-%m-%dT%H:%M:%S%.3fZ")
                .unwrap(),
        ),
    };

    assert_eq!(payment.is_expired(), Some(true));
    assert_eq!(payment.is_used(), false);
    assert_eq!(payment.is_finished(), false);

    let now: NaiveDateTime = Utc::now().naive_utc();
    let yesterday = now.checked_sub_days(Days::new(1)).unwrap();
    let payment = Payment {
        id: 0,
        status: Status::Sending,
        address: "my_fake_address".to_string(),
        price_amount: Decimal::from_f64(10.0).unwrap(),
        price_currency: Currency::USD,
        pay_amount: Decimal::from_f64(0.01).unwrap(),
        pay_currency: Currency::XMR,
        actually_paid: Some(Decimal::from_f64(0.005).unwrap()),
        actually_paid_price: None,
        order_id: "test_id".to_string(),
        order_description: "my test".to_string(),
        created_at: timestamp_of(yesterday),
        updated_at: timestamp_of(yesterday),
    };

    assert_eq!(payment.is_expired(), Some(false));
    assert_eq!(payment.is_used(), true);
    assert_eq!(payment.is_finished(), false);
}

#[test]
fn convert() {
    let api_res = sample_raw();

    let converted_res = Payment {
        id: 0,
        status: Status::Waiting,
        address: "my_fake_address".to_string(),
        price_amount: Decimal::from_f64(10.0).unwrap(),
        price_currency: Currency::USD,
        pay_amount: Decimal::from_f64(0.01).unwrap(),
        pay_currency: Currency::XMR,
        actually_paid: Some(Decimal::from_f64(0.005).unwrap()),
        actually_paid_price: None,
        order_id: "test_id".to_string(),
        order_description: "my test".to_string(),
        created_at: timestamp_of(
            NaiveDateTime::parse_from_str("2026-01-10T17:56:15.327Z", "%Y-%m-%dT%H:%M:%S%.3fZ")
                .unwrap(),
        ),
        updated_at: timestamp_of(
            NaiveDateTime::parse_from_str("2026-01-10T17:56:15.327Z", "%Y-%m-%dT%H:%M:%S%.3fZ")
                .unwrap(),
        ),
    };

    assert_eq!(converted_res, Payment::from(api_res));
}

#[test]
fn convert_missing_description_is_empty() {
    let mut raw = sample_raw();
    raw.order_description = None;
    raw.payment_id = "+42".to_string();
    raw.payment_status = "something_new".to_string();
    let p = Payment::from(raw);
    assert_eq!(p.order_description, "");
    assert_eq!(p.id, 42);
    assert_eq!(p.status, Status::Unknown);
    assert_eq!(p.actually_paid_price, None);
}

#[test]
fn convert_refuses_unreadable_replies() {
    let mut raw = sample_raw();
    raw.payment_id = "12a".to_string();
    assert!(Payment::try_from_raw(raw).is_none());
    let mut raw = sample_raw();
    raw.price_currency = "USD".to_string();
    assert!(Payment::try_from_raw(raw).is_none());
    let mut raw = sample_raw();
    raw.pay_currency = "doge".to_string();
    assert!(Payment::try_from_raw(raw).is_none());
    let mut raw = sample_raw();
    raw.created_at = "2026-01-10 17:56:15".to_string();
    assert!(Payment::try_from_raw(raw).is_none());
    let mut raw = sample_raw();
    raw.updated_at = "".to_string();
    assert!(Payment::try_from_raw(raw).is_none());
    let raw = sample_raw();
    assert!(Payment::can_convert(&raw));
    let p = Payment::try_from_raw(raw).unwrap();
    assert_eq!(p.pay_currency, Currency::XMR);
}

#[test]
fn raw_payments_keep_their_order() {
    let mut a = sample_raw();
    a.payment_id = "1".to_string();
    let mut b = sample_raw();
    b.payment_id = "2".to_string();
    let mut c = sample_raw();
    c.payment_id = "3".to_string();
    let payments = RawPayments::new(vec![a, b, c]).into_payments();
    let ids: Vec<u64> = payments.iter().map(|p| p.id).collect();
    assert_eq!(ids, vec![1, 2, 3]);

    let mut bad = sample_raw();
    bad.payment_id = "x".to_string();
    assert!(RawPayments::new(vec![sample_raw(), bad]).try_into_payments().is_none());
    assert_eq!(RawPayments::new(vec![]).try_into_payments().unwrap().len(), 0);
}

#[test]
fn status_predicates() {
    let mut p = Payment::from(sample_raw());
    for (status, used, finished, unknown) in [
        (Status::Unknown, false, false, true),
        (Status::Dummy, false, false, false),
        (Status::Waiting, false, false, false),
        (Status::Confirming, true, false, false),
        (Status::Confirmed, true, false, false),
        (Status::Sending, true, false, false),
        (Status::PartiallyPaid, false, true, false),
        (Status::Finished, false, true, false),
        (Status::Failed, false, true, false),
        (Status::Refunded, false, true, false),
        (Status::Expired, false, false, false),
    ] {
        p.status = status;
        assert_eq!(p.is_used(), used);
        assert_eq!(p.is_finished(), finished);
        assert_eq!(p.is_unknown(), unknown);
    }
}

#[test]
fn expiry_after_four_whole_days() {
    let mut p = Payment::from(sample_raw());
    p.created_at = api_time("2026-01-10T17:56:15.327Z");
    assert!(!p.is_expired_at(&api_time("2026-01-15T17:56:15.326Z")));
    assert!(p.is_expired_at(&api_time("2026-01-15T17:56:15.327Z")));
    assert!(!p.is_expired_at(&api_time("2026-01-01T00:00:00.000Z")));
    p.status = Status::Expired;
    assert!(p.is_expired_at(&api_time("2026-01-01T00:00:00.000Z")));
    assert_eq!(p.is_expired(), Some(true));
}

#[test]
fn mock_payment_defaults() {
    let now = Timestamp::now().unwrap();
    let p = Payment::mock(
        Decimal::from_f64(100.0).unwrap(),
        Currency::USD,
        Decimal::from_f64(0.2).unwrap(),
        Currency::XMR,
        Decimal::from_f64(0.1).unwrap(),
        None,
        Some("my_order_0"),
        Some("my test order"),
        None,
        now,
    );
    assert_eq!(p.id, 0);
    assert_eq!(p.status, Status::Dummy);
    assert_eq!(p.address, "<mock/my_xmr_address>");
    assert_eq!(p.actually_paid, Some(Decimal::from_f64(0.1).unwrap()));
    assert_eq!(p.order_id, "my_order_0");
    assert_eq!(p.order_description, "my test order");
    assert_eq!(p.created_at, now);
    assert_eq!(p.updated_at, now);

    let q = Payment::mock(
        Decimal::from_f64(100.0).unwrap(),
        Currency::USD,
        Decimal::from_f64(0.2).unwrap(),
        Currency::USDTTRC20,
        Decimal::from_f64(0.1).unwrap(),
        Some(Decimal::from_f64(3.0).unwrap()),
        None,
        None,
        Some(Status::Finished),
        now,
    );
    assert_eq!(q.status, Status::Finished);
    assert_eq!(q.address, "<mock/my_trx_address>");
    assert_eq!(q.actually_paid, Some(Decimal::from_f64(3.0).unwrap()));
    assert_eq!(q.order_id, "");
    assert_eq!(q.order_description, "");
    assert!(q.is_finished());
}

#[test]
fn paid_price_only_for_finished_paid_payments() {
    let mut p = Payment::from(sample_raw());
    p.status = Status::Waiting;
    assert!(paid_price_request(&p).is_none());
    p.status = Status::Finished;
    assert_eq!(
        paid_price_request(&p),
        Some((Decimal::from_f64(0.005).unwrap(), Currency::XMR, Currency::USD))
    );
    p.actually_paid = None;
    assert!(paid_price_request(&p).is_none());
    p.status = Status::PartiallyPaid;
    p.actually_paid = Some(Decimal::from_f64(1.0).unwrap());
    assert!(paid_price_request(&p).is_some());
}

#[test]
fn paid_price_fill_in() {
    let p = Payment::from(sample_raw());
    let q = with_paid_price(p, "12.345").unwrap();
    assert_eq!(q.actually_paid_price, Some(Decimal::from_str_exact("12.345").unwrap()));
    assert_eq!(q.id, 0);
    assert_eq!(q.order_id, "test_id");
    assert!(with_paid_price(Payment::from(sample_raw()), "twelve").is_none());
    assert!(with_paid_price(Payment::from(sample_raw()), "").is_none());
}

#[test]
fn expiry_around_a_leap_second() {
    // Created at 00:00:00.5; chrono counts five whole days at 23:59:60.5 four days
    // later, and only four at the following midnight.
    let created = NaiveDate::from_ymd_opt(2016, 12, 27).unwrap().and_time(NaiveTime::from_hms_milli_opt(0, 0, 0, 500).unwrap());
    let leap = NaiveDate::from_ymd_opt(2016, 12, 31).unwrap().and_time(NaiveTime::from_hms_milli_opt(23, 59, 59, 1_500).unwrap());
    let midnight = NaiveDate::from_ymd_opt(2017, 1, 1).unwrap().and_hms_opt(0, 0, 0).unwrap();
    assert_eq!((leap - created).num_days(), 5);
    assert_eq!((midnight - created).num_days(), 4);
    let mut p = Payment::from(sample_raw());
    p.created_at = timestamp_of(created);
    assert!(p.is_expired_at(&timestamp_of(leap)));
    assert!(!p.is_expired_at(&timestamp_of(midnight)));
}

#[test]
fn clones_and_defaults() {
    let p = Payment::from(sample_raw());
    let q = p.clone();
    assert_eq!(q, p);
    let raw = sample_raw();
    assert_eq!(raw.clone(), raw);
    let empty = RawPayment::default();
    assert_eq!(empty.payment_id, "");
    assert_eq!(empty.price_amount, Decimal::ZERO);
    assert_eq!(empty.actually_paid, None);
    assert_eq!(RawPayments::default(), RawPayments::new(Vec::new()));
}
