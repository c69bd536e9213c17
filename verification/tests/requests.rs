use chrono::{Datelike, NaiveDate, NaiveDateTime, Timelike};
use nowpayments::currency::Currency;
use nowpayments::request::{
    conversion_status_path, estimate_path, min_amount_path, payment_list_path, payment_page_path,
    payment_request_body, payment_state_path, OrderDirection, SortingField,
};
use nowpayments::session::{check_json_reply, ApiError, ClientError, Session};
use nowpayments::text::{decimal_string, parse_u64};
use nowpayments::time::Timestamp;

fn timestamp_of(t: NaiveDateTime) -> Timestamp {
    Timestamp::from_parts(t.num_days_from_ce(), t.num_seconds_from_midnight(), t.nanosecond())
        .unwrap()
}

#[test]
fn sorting_fields_in_snake_case() {
    assert_eq!(SortingField::CreatedAt.to_string(), "created_at");
    assert_eq!(SortingField::PaymentId.to_string(), "payment_id");
    assert_eq!(SortingField::OutcomeCurrency.to_string(), "outcome_currency");
    assert_eq!(OrderDirection::Desc.to_string(), "desc");
    assert_eq!(OrderDirection::Asc.to_string(), "asc");
    assert_eq!(SortingField::default(), SortingField::CreatedAt);
    assert_eq!(OrderDirection::default(), OrderDirection::Desc);
}

#[test]
fn paths() {
    assert_eq!(payment_state_path(1), "payment/1");
    assert_eq!(payment_state_path(u64::MAX), "payment/18446744073709551615");
    assert_eq!(conversion_status_path("77"), "conversion/77");
    assert_eq!(
        estimate_path("2000", Currency::BTC, Currency::ETH),
        "estimate?amount=2000&currency_from=btc&currency_to=eth"
    );
    assert_eq!(
        min_amount_path(Currency::ETH, Currency::BTC, Some(Currency::USD)),
        "min-amount?currency_from=eth&currency_to=btc&fiat_equivalent=usd"
    );
    assert_eq!(
        min_amount_path(Currency::USDTERC20, Currency::XMR, None),
        "min-amount?currency_from=usdterc20&currency_to=xmr&fiat_equivalent=usd"
    );
    assert_eq!(
        payment_list_path("10", "0", "created_at", "asc", "2026-01-01", "2026-02-01"),
        "payment/?limit=10&page=0&sortBy=created_at&orderBy=asc&dateFrom=2026-01-01&dateTo=2026-02-01"
    );
    let from = timestamp_of(NaiveDate::from_ymd_opt(2026, 1, 5).unwrap().and_hms_opt(10, 0, 0).unwrap());
    let to = timestamp_of(NaiveDate::from_ymd_opt(2026, 2, 28).unwrap().and_hms_opt(23, 59, 59).unwrap());
    assert_eq!(from.date_text(), "2026-01-05");
    assert_eq!(
        payment_page_path(500, 3, SortingField::PaymentStatus, OrderDirection::Desc, &from, &to),
        "payment/?limit=500&page=3&sortBy=payment_status&orderBy=desc&dateFrom=2026-01-05&date_to=2026-02-28"
    );
}

#[test]
fn payment_body_fields() {
    let body = payment_request_body(
        "100",
        Currency::USD,
        Currency::XMR,
        "https://test.rs.nowpayments.io/",
        Some("my_test_order_0"),
        None,
    );
    let expected: Vec<(String, String)> = vec![
        ("price_amount".to_string(), "100".to_string()),
        ("price_currency".to_string(), "USD".to_string()),
        ("pay_currency".to_string(), "XMR".to_string()),
        ("ipn_callback_url".to_string(), "https://test.rs.nowpayments.io/".to_string()),
        ("order_id".to_string(), "my_test_order_0".to_string()),
    ];
    assert_eq!(body, expected);
    let body = payment_request_body("1.5", Currency::USDC, Currency::BTC, "u", None, Some("d"));
    assert_eq!(body.len(), 5);
    assert_eq!(body[4], ("order_description".to_string(), "d".to_string()));
}

#[test]
fn decimal_text_and_parse() {
    for n in [0u64, 7, 10, 99, 100, 1234567890, u64::MAX] {
        let text = decimal_string(n);
        assert_eq!(text, n.to_string());
        assert_eq!(parse_u64(&text), Some(n));
    }
    assert_eq!(parse_u64("+5"), Some(5));
    assert_eq!(parse_u64("007"), Some(7));
    assert_eq!(parse_u64(""), None);
    assert_eq!(parse_u64("+"), None);
    assert_eq!(parse_u64("-1"), None);
    assert_eq!(parse_u64(" 1"), None);
    assert_eq!(parse_u64("18446744073709551616"), None);
    assert_eq!(parse_u64("99999999999999999999999"), None);
    for s in ["", "+", "+0", "12", "1a", "18446744073709551615", "18446744073709551616", "++1"] {
        assert_eq!(parse_u64(s), s.parse::<u64>().ok());
    }
}

#[test]
fn session_base_url_and_token() {
    let s = Session::new(None, None, None);
    assert_eq!(s.base_url, "https://api.nowpayments.io/v1/");
    assert_eq!(Session::new(None, None, Some(false)).base_url, "https://api.nowpayments.io/v1/");
    let mut s = Session::new(None, None, Some(true));
    assert_eq!(s.base_url, "https://api-sandbox.nowpayments.io/v1/");
    assert_eq!(s.endpoint_url("status"), "https://api-sandbox.nowpayments.io/v1/status");
    assert_eq!(s.bearer_token(), "");
    assert_eq!(s.require_jwt(), Err(ClientError::ExpiredJwt));
    assert_eq!(s.auth_body(), Err(ClientError::MissingCredentials));
    s.set_credentials(Some("test@test.org".to_string()), None);
    assert_eq!(s.auth_body(), Err(ClientError::MissingCredentials));
    s.set_credentials(Some("test@test.org".to_string()), Some("my_password".to_string()));
    assert_eq!(
        s.auth_body(),
        Ok(vec![
            ("email".to_string(), "test@test.org".to_string()),
            ("password".to_string(), "my_password".to_string()),
        ])
    );
    s.set_token("abc".to_string());
    assert_eq!(s.bearer_token(), "abc");
    assert_eq!(s.require_jwt(), Ok(()));
    assert_eq!(
        ClientError::MissingCredentials.message(),
        "You did not set an email or a password."
    );
    assert_eq!(ClientError::ExpiredJwt.message(), "Expired jwt");
}

#[test]
fn api_errors() {
    let ok = ApiError { status: true, status_code: None, code: None, message: "fine".to_string() };
    assert_eq!(ok.to_error(), None);
    let e = ApiError {
        status: false,
        status_code: Some(400),
        code: Some("INVALID_REQUEST_PARAMS".to_string()),
        message: "bad".to_string(),
    };
    assert_eq!(
        e.to_error(),
        Some(ClientError::Api(
            "NowPayments API error: [INVALID_REQUEST_PARAMS] bad (statusCode: Some(400))".to_string()
        ))
    );
    let e = ApiError { status: false, status_code: None, code: None, message: "m".to_string() };
    assert_eq!(
        e.to_error().unwrap().message(),
        "NowPayments API error: [UNKNOWN] m (statusCode: None)"
    );
}

#[test]
fn json_replies() {
    assert_eq!(check_json_reply("{\"a\": 1}".to_string()), Ok("{\"a\": 1}".to_string()));
    assert_eq!(check_json_reply("[]".to_string()), Ok("[]".to_string()));
    for text in ["<html>", "", "{\"a\": }"] {
        let expected = serde_json::from_str::<serde_json::Value>(text).unwrap_err().to_string();
        assert_eq!(check_json_reply(text.to_string()), Err(ClientError::InvalidJson(expected.clone())));
        assert_eq!(ClientError::InvalidJson(expected.clone()).message(), expected);
    }
}
