use vstd::prelude::*;
use crate::text::same_text;

verus! {

/// State of a payment, as reported by the payment status endpoint.
#[derive(Debug, Clone, Copy, PartialEq, Eq, Structural)]
pub enum Status {
    /// Couldn't retrieve a status from remote API.
    Unknown,
    /// A testing status for this library.
    Dummy,
    /// Waiting for the customer to send the payment.
    Waiting,
    /// The transaction is being processed on the blockchain.
    Confirming,
    /// Customer's funds have accumulated enough confirmations.
    Confirmed,
    /// The funds are being sent to your personal wallet.
    Sending,
    /// The customer sent less than the actual price.
    PartiallyPaid,
    /// The funds have reached your personal address and the payment is finished.
    Finished,
    /// The payment wasn't completed due to an error of some kind.
    Failed,
    /// The funds were refunded back to the user.
    Refunded,
    /// The user didn't send the funds in the time window.
    Expired,
}

/// The status that a status name of the API stands for; every other text is `Unknown`.
pub open spec fn status_from_name(name: Seq<char>) -> Status {
    if name == "waiting"@ {
        Status::Waiting
    } else if name == "confirming"@ {
        Status::Confirming
    } else if name == "confirmed"@ {
        Status::Confirmed
    } else if name == "sending"@ {
        Status::Sending
    } else if name == "partially_paid"@ {
        Status::PartiallyPaid
    } else if name == "finished"@ {
        Status::Finished
    } else if name == "failed"@ {
        Status::Failed
    } else if name == "refunded"@ {
        Status::Refunded
    } else if name == "expired"@ {
        Status::Expired
    } else if name == "dummy"@ {
        Status::Dummy
    } else {
        Status::Unknown
    }
}

/// The name under which the API reports a status; `Unknown` stands for every name the
/// library does not know, among them `unknown`.
pub open spec fn status_api_name(s: Status) -> Seq<char> {
    match s {
        Status::Waiting => "waiting"@,
        Status::Confirming => "confirming"@,
        Status::Confirmed => "confirmed"@,
        Status::Sending => "sending"@,
        Status::PartiallyPaid => "partially_paid"@,
        Status::Finished => "finished"@,
        Status::Failed => "failed"@,
        Status::Refunded => "refunded"@,
        Status::Expired => "expired"@,
        Status::Dummy => "dummy"@,
        Status::Unknown => "unknown"@,
    }
}

/// Every status is read back from its API name: the names the library knows stand for
/// distinct statuses.
pub proof fn lemma_status_name_round_trip(s: Status)
    ensures
        status_from_name(status_api_name(s)) == s,
{
    reveal_strlit("waiting");
    reveal_strlit("confirming");
    reveal_strlit("confirmed");
    reveal_strlit("sending");
    reveal_strlit("partially_paid");
    reveal_strlit("finished");
    reveal_strlit("failed");
    reveal_strlit("refunded");
    reveal_strlit("expired");
    reveal_strlit("dummy");
    reveal_strlit("unknown");
    match s {
        Status::Waiting => {
        },
        Status::Confirming => {
            assert("confirming"@.len() != "waiting"@.len());
        },
        Status::Confirmed => {
            assert("confirmed"@.len() != "waiting"@.len());
            assert("confirmed"@.len() != "confirming"@.len());
        },
        Status::Sending => {
            assert("sending"@[0] != "waiting"@[0]);
            assert("sending"@.len() != "confirming"@.len());
            assert("sending"@.len() != "confirmed"@.len());
        },
        Status::PartiallyPaid => {
            assert("partially_paid"@.len() != "waiting"@.len());
            assert("partially_paid"@.len() != "confirming"@.len());
            assert("partially_paid"@.len() != "confirmed"@.len());
            assert("partially_paid"@.len() != "sending"@.len());
        },
        Status::Finished => {
            assert("finished"@.len() != "waiting"@.len());
            assert("finished"@.len() != "confirming"@.len());
            assert("finished"@.len() != "confirmed"@.len());
            assert("finished"@.len() != "sending"@.len());
            assert("finished"@.len() != "partially_paid"@.len());
        },
        Status::Failed => {
            assert("failed"@.len() != "waiting"@.len());
            assert("failed"@.len() != "confirming"@.len());
            assert("failed"@.len() != "confirmed"@.len());
            assert("failed"@.len() != "sending"@.len());
            assert("failed"@.len() != "partially_paid"@.len());
            assert("failed"@.len() != "finished"@.len());
        },
        Status::Refunded => {
            assert("refunded"@.len() != "waiting"@.len());
            assert("refunded"@.len() != "confirming"@.len());
            assert("refunded"@.len() != "confirmed"@.len());
            assert("refunded"@.len() != "sending"@.len());
            assert("refunded"@.len() != "partially_paid"@.len());
            assert("refunded"@[0] != "finished"@[0]);
            assert("refunded"@.len() != "failed"@.len());
        },
        Status::Expired => {
            assert("expired"@[0] != "waiting"@[0]);
            assert("expired"@.len() != "confirming"@.len());
            assert("expired"@.len() != "confirmed"@.len());
            assert("expired"@[0] != "sending"@[0]);
            assert("expired"@.len() != "partially_paid"@.len());
            assert("expired"@.len() != "finished"@.len());
            assert("expired"@.len() != "failed"@.len());
            assert("expired"@.len() != "refunded"@.len());
        },
        Status::Dummy => {
            assert("dummy"@.len() != "waiting"@.len());
            assert("dummy"@.len() != "confirming"@.len());
            assert("dummy"@.len() != "confirmed"@.len());
            assert("dummy"@.len() != "sending"@.len());
            assert("dummy"@.len() != "partially_paid"@.len());
            assert("dummy"@.len() != "finished"@.len());
            assert("dummy"@.len() != "failed"@.len());
            assert("dummy"@.len() != "refunded"@.len());
            assert("dummy"@.len() != "expired"@.len());
        },
        Status::Unknown => {
            assert("unknown"@[0] != "waiting"@[0]);
            assert("unknown"@.len() != "confirming"@.len());
            assert("unknown"@.len() != "confirmed"@.len());
            assert("unknown"@[0] != "sending"@[0]);
            assert("unknown"@.len() != "partially_paid"@.len());
            assert("unknown"@.len() != "finished"@.len());
            assert("unknown"@.len() != "failed"@.len());
            assert("unknown"@.len() != "refunded"@.len());
            assert("unknown"@[0] != "expired"@[0]);
            assert("unknown"@.len() != "dummy"@.len());
        },
    }
}

impl Status {
    /// Reads a status name of the API; a name it does not know gives `Unknown`.
    pub fn parse(value: &str) -> (res: Status)
        ensures
            res == status_from_name(value@),
    {
        if same_text(value, "waiting") {
            Status::Waiting
        } else if same_text(value, "confirming") {
            Status::Confirming
        } else if same_text(value, "confirmed") {
            Status::Confirmed
        } else if same_text(value, "sending") {
            Status::Sending
        } else if same_text(value, "partially_paid") {
            Status::PartiallyPaid
        } else if same_text(value, "finished") {
            Status::Finished
        } else if same_text(value, "failed") {
            Status::Failed
        } else if same_text(value, "refunded") {
            Status::Refunded
        } else if same_text(value, "expired") {
            Status::Expired
        } else if same_text(value, "dummy") {
            Status::Dummy
        } else {
            Status::Unknown
        }
    }
}

impl std::str::FromStr for Status {
    type Err = std::convert::Infallible;

    fn from_str(value: &str) -> (res: Result<Status, std::convert::Infallible>)
        ensures
            res == Ok::<Status, std::convert::Infallible>(status_from_name(value@)),
    {
        Ok(Status::parse(value))
    }
}

impl Default for Status {
    fn default() -> (res: Status)
        ensures
            res == Status::Unknown,
    {
        Status::Unknown
    }
}

} // verus!
