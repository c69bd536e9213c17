use nowpayments::status::Status;
use std::str::FromStr;

#[test]
fn status_names() {
    let cases = [
        ("waiting", Status::Waiting),
        ("confirming", Status::Confirming),
        ("confirmed", Status::Confirmed),
        ("sending", Status::Sending),
        ("partially_paid", Status::PartiallyPaid),
        ("finished", Status::Finished),
        ("failed", Status::Failed),
        ("refunded", Status::Refunded),
        ("expired", Status::Expired),
        ("dummy", Status::Dummy),
        ("unknown", Status::Unknown),
        ("Waiting", Status::Unknown),
        ("", Status::Unknown),
    ];
    for (name, status) in cases {
        assert_eq!(Status::from_str(name).unwrap(), status);
        assert_eq!(Status::parse(name), status);
    }
    assert_eq!(Status::default(), Status::Unknown);
}
