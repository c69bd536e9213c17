use vstd::prelude::*;
use rust_decimal::Decimal;
use crate::currency::{currency_from_code, Currency};
use crate::status::{status_from_name, Status};
use crate::text::{parse_u64, parsed_u64};
use crate::time::{
    elapsed_nanos, lemma_days_between_monotone, parsed_time_parts, time_le, valid_time_parts,
    whole_days_between, Timestamp, API_TIME_FORMAT, NANOS_PER_SECOND, SECONDS_PER_DAY,
};
use crate::currency::currency_network;

verus! {

/// Decimal amounts of money are carried through unchanged.
#[verifier::external_type_specification]
#[verifier::external_body]
pub struct ExDecimal(rust_decimal::Decimal);

/// `Decimal` is `Copy`: its `clone` (derived in `rust_decimal`) gives back the value.
pub assume_specification[<rust_decimal::Decimal as Clone>::clone](
    d: &rust_decimal::Decimal,
) -> (res: rust_decimal::Decimal)
    ensures
        res == *d,
;

/// A payment, with the currencies, status and times of the API's reply read into
/// the library's types.
#[derive(Debug, Clone, PartialEq, Eq)]
pub struct Payment {
    pub id: u64,
    pub status: Status,
    /// Receiving address.
    pub address: String,
    /// The article price.
    pub price_amount: Decimal,
    /// The article currency.
    pub price_currency: Currency,
    /// The transaction amount.
    pub pay_amount: Decimal,
    /// The transaction currency.
    pub pay_currency: Currency,
    /// Paid amount in the currency of `pay_amount`.
    pub actually_paid: Option<Decimal>,
    /// Paid amount in the currency of `price_amount`; the API has no such field, the
    /// client fills it in.
    pub actually_paid_price: Option<Decimal>,
    /// Extra information; the order id should be `<account_uuid>-<currency>`.
    pub order_id: String,
    pub order_description: String,
    pub created_at: Timestamp,
    pub updated_at: Timestamp,
}

/// A payment as the API's reply describes it, every field as text.
#[derive(Default, Debug, Clone, PartialEq)]
pub struct RawPayment {
    /// Must hold digits only.
    pub payment_id: String,
    pub payment_status: String,
    pub pay_address: String,
    pub price_amount: Decimal,
    pub price_currency: String,
    pub pay_amount: Decimal,
    pub pay_currency: String,
    pub actually_paid: Option<Decimal>,
    pub order_id: String,
    pub order_description: Option<String>,
    pub purchase_id: String,
    pub created_at: String,
    pub updated_at: String,
}

/// A page of payments as the API's reply describes it.
#[derive(Default, Debug, Clone, PartialEq)]
pub struct RawPayments {
    data: Vec<RawPayment>,
}

/// How many whole days after its creation a payment counts as expired. This is earlier
/// than the API expires payments (after 7 days in production, 24 hours in the sandbox).
pub const EXPIRY_DAYS: i64 = 4;

/// Statuses of a payment whose funds have been or are being sent.
pub open spec fn is_used_status(s: Status) -> bool {
    s == Status::Confirming || s == Status::Confirmed || s == Status::Sending
}

/// Statuses of a payment that is over: funds received, or the payment failed.
pub open spec fn is_finished_status(s: Status) -> bool {
    s == Status::Finished || s == Status::PartiallyPaid || s == Status::Failed || s
        == Status::Refunded
}

/// Whether a payment with this status, created at `created`, counts as expired at `now`.
pub open spec fn expired_at(status: Status, created: (int, int, int), now: (int, int, int)) -> bool {
    status == Status::Expired || whole_days_between(now, created) > EXPIRY_DAYS
}

/// The point in time of parsed parts.
pub open spec fn time_of_parts(p: Option<(i32, u32, u32)>) -> (int, int, int) {
    match p {
        Some(q) => (q.0 as int, q.1 as int, q.2 as int),
        None => (0, 0, 0),
    }
}

/// The text that an optional text stands for; none is the empty text.
pub open spec fn text_or_empty(t: Option<String>) -> Seq<char> {
    match t {
        Some(s) => s@,
        None => Seq::empty(),
    }
}

/// A payment is at most one of used, finished and unknown; waiting and expired
/// payments are none of them.
pub proof fn lemma_status_classes(s: Status)
    ensures
        !(is_used_status(s) && is_finished_status(s)),
        s == Status::Unknown ==> !is_used_status(s) && !is_finished_status(s),
        s == Status::Waiting || s == Status::Expired ==> !is_used_status(s) && !is_finished_status(
            s,
        ) && s != Status::Unknown,
{
}

/// Once a payment counts as expired, it stays expired at every later point in time,
/// when the earlier reading is not inside a leap second (see
/// `lemma_days_between_monotone` for why that reading is left out).
pub proof fn lemma_expiry_monotone(
    status: Status,
    created: (int, int, int),
    now: (int, int, int),
    later: (int, int, int),
)
    requires
        valid_time_parts(created.0, created.1, created.2),
        valid_time_parts(now.0, now.1, now.2),
        valid_time_parts(later.0, later.1, later.2),
        time_le(now, later),
        now.2 < NANOS_PER_SECOND,
        expired_at(status, created, now),
    ensures
        expired_at(status, created, later),
{
    lemma_days_between_monotone(created, now, later);
}

/// A payment whose status is not `Expired` counts as expired exactly when at least
/// five whole days (one more than `EXPIRY_DAYS`) have passed since its creation.
pub proof fn lemma_expiry_threshold(status: Status, created: (int, int, int), now: (int, int, int))
    requires
        status != Status::Expired,
    ensures
        expired_at(status, created, now) <==> elapsed_nanos(now, created) >= (EXPIRY_DAYS + 1)
            * SECONDS_PER_DAY * NANOS_PER_SECOND,
{
    let d = SECONDS_PER_DAY * NANOS_PER_SECOND;
    let x = elapsed_nanos(now, created);
    if x >= 0 {
        assert(x / d > 4 <==> x >= 5 * d) by (nonlinear_arith)
            requires
                x >= 0,
                d > 0,
        ;
    } else {
        assert((-x) / d >= 0) by (nonlinear_arith)
            requires
                -x > 0,
                d > 0,
        ;
    }
}

/// What `rust_decimal` reads from a text: the decimal number, or none.
pub uninterp spec fn parsed_decimal(text: Seq<char>) -> Option<Decimal>;

/// Calls `rust_decimal::Decimal::from_str`. Claimed: the result is a function of the
/// text.
#[verifier::external_body]
fn parse_decimal(text: &str) -> (res: Option<Decimal>)
    ensures
        res == parsed_decimal(text@),
{
    match <Decimal as std::str::FromStr>::from_str(text) {
        Ok(d) => Some(d),
        Err(_) => None,
    }
}

/// Whether two payments agree in every field but the paid amount in the price
/// currency.
pub open spec fn same_but_paid_price(p: Payment, q: Payment) -> bool {
    &&& q.id == p.id
    &&& q.status == p.status
    &&& q.address == p.address
    &&& q.price_amount == p.price_amount
    &&& q.price_currency == p.price_currency
    &&& q.pay_amount == p.pay_amount
    &&& q.pay_currency == p.pay_currency
    &&& q.actually_paid == p.actually_paid
    &&& q.order_id == p.order_id
    &&& q.order_description == p.order_description
    &&& q.created_at == p.created_at
    &&& q.updated_at == p.updated_at
}

/// What to ask the price estimate for, so as to fill in the paid amount in the price
/// currency: for a finished payment with a paid amount, that amount, from the pay
/// currency, in the price currency; nothing for other payments.
pub fn paid_price_request(p: &Payment) -> (res: Option<(Decimal, Currency, Currency)>)
    ensures
        res is Some <==> is_finished_status(p.status) && p.actually_paid is Some,
        res matches Some(r) ==> p.actually_paid == Some(r.0) && r.1 == p.pay_currency && r.2
            == p.price_currency,
{
    if !p.is_finished() {
        return None;
    }
    match p.actually_paid {
        Some(paid) => Some((paid, p.pay_currency, p.price_currency)),
        None => None,
    }
}

/// Fills in the paid amount in the price currency from the estimate's text; `None`
/// when the text is no decimal number.
pub fn with_paid_price(p: Payment, estimated_amount: &str) -> (res: Option<Payment>)
    ensures
        res is Some <==> parsed_decimal(estimated_amount@) is Some,
        res matches Some(q) ==> q.actually_paid_price == parsed_decimal(estimated_amount@)
            && same_but_paid_price(p, q),
{
    match parse_decimal(estimated_amount) {
        Some(price) => {
            let mut q = p;
            q.actually_paid_price = Some(price);
            Some(q)
        },
        None => None,
    }
}

impl RawPayment {
    /// Whether the reply can be read: the id a `u64`, both currencies known codes, and
    /// both times in the API's time format.
    pub open spec fn convertible(&self) -> bool {
        &&& parsed_u64(self.payment_id@) is Some
        &&& currency_from_code(self.price_currency@) is Some
        &&& currency_from_code(self.pay_currency@) is Some
        &&& parsed_time_parts(self.created_at@, API_TIME_FORMAT@) is Some
        &&& parsed_time_parts(self.updated_at@, API_TIME_FORMAT@) is Some
    }

    /// What reading the reply gives: the payment with every field read from its text,
    /// an unknown status name read as `Unknown`, a missing description as empty, and
    /// no paid amount in the price currency.
    pub open spec fn converts_to(&self, p: Payment) -> bool {
        &&& p.id == parsed_u64(self.payment_id@)->0
        &&& p.status == status_from_name(self.payment_status@)
        &&& p.address@ == self.pay_address@
        &&& p.price_amount == self.price_amount
        &&& p.price_currency == currency_from_code(self.price_currency@)->0
        &&& p.pay_amount == self.pay_amount
        &&& p.pay_currency == currency_from_code(self.pay_currency@)->0
        &&& p.actually_paid == self.actually_paid
        &&& p.actually_paid_price is None
        &&& p.order_id@ == self.order_id@
        &&& p.order_description@ == text_or_empty(self.order_description)
        &&& p.created_at@ == time_of_parts(parsed_time_parts(self.created_at@, API_TIME_FORMAT@))
        &&& p.updated_at@ == time_of_parts(parsed_time_parts(self.updated_at@, API_TIME_FORMAT@))
    }
}

/// Reading a reply takes every field of the payment from its own counterpart in the
/// reply, as the library's reader of that kind of field reads it: the id as a decimal
/// `u64`, the status by its name, both currencies by their lower-case codes, and the
/// creation and update times as `Timestamp::parse` reads the reply's `created_at` and
/// `updated_at` texts; the address, amounts, order id and paid amount are carried over,
/// a missing description becomes empty, and no paid amount in the price currency is set.
pub proof fn lemma_reading_a_reply(raw: RawPayment, p: Payment)
    requires
        raw.convertible(),
        raw.converts_to(p),
    ensures
        parsed_u64(raw.payment_id@) == Some(p.id),
        p.status == status_from_name(raw.payment_status@),
        currency_from_code(raw.price_currency@) == Some(p.price_currency),
        currency_from_code(raw.pay_currency@) == Some(p.pay_currency),
        parsed_time_parts(raw.created_at@, API_TIME_FORMAT@) matches Some(c) && p.created_at@ == (
            c.0 as int,
            c.1 as int,
            c.2 as int,
        ),
        parsed_time_parts(raw.updated_at@, API_TIME_FORMAT@) matches Some(u) && p.updated_at@ == (
            u.0 as int,
            u.1 as int,
            u.2 as int,
        ),
        p.address@ == raw.pay_address@,
        p.price_amount == raw.price_amount,
        p.pay_amount == raw.pay_amount,
        p.actually_paid == raw.actually_paid,
        p.actually_paid_price is None,
        p.order_id@ == raw.order_id@,
        raw.order_description matches Some(d) ==> p.order_description@ == d@,
        raw.order_description is None ==> p.order_description@ == Seq::<char>::empty(),
{
}

impl RawPayments {
    /// A page of payments.
    pub fn new(data: Vec<RawPayment>) -> (res: RawPayments)
        ensures
            res.data() == data@,
    {
        RawPayments { data }
    }

    /// The payments of the page.
    pub closed spec fn data(&self) -> Seq<RawPayment> {
        self.data@
    }

    /// Reads every payment of the page, in order.
    pub fn into_payments(self) -> (res: Vec<Payment>)
        requires
            forall|i: int| 0 <= i < self.data().len() ==> (#[trigger] self.data()[i]).convertible(),
        ensures
            res.len() == self.data().len(),
            forall|i: int| 0 <= i < res.len() ==> (#[trigger] self.data()[i]).converts_to(res[i]),
    {
        let ghost items = self.data();
        assert forall|i: int| 0 <= i < items.len() implies (#[trigger] items[i]).convertible() by {
            assert(self.data()[i] == items[i]);
        }
        let mut data = self.data;
        let mut res: Vec<Payment> = Vec::new();
        let n = data.len();
        let mut rest: Vec<RawPayment> = Vec::new();
        // Take the items from the back, then restore their order.
        while data.len() > 0
            invariant
                data@ == items.take(data.len() as int),
                n == items.len(),
                forall|i: int| 0 <= i < items.len() ==> (#[trigger] items[i]).convertible(),
                rest.len() == n - data.len(),
                forall|j: int|
                    0 <= j < rest.len() ==> #[trigger] rest@[j] == items[n - 1 - j],
            decreases data.len(),
        {
            let ghost before = data@;
            let item = data.pop().unwrap();
            assert(before.drop_last() =~= items.take(data.len() as int));
            rest.push(item);
        }
        while rest.len() > 0
            invariant
                n == items.len(),
                forall|i: int| 0 <= i < items.len() ==> (#[trigger] items[i]).convertible(),
                res.len() + rest.len() == n,
                forall|j: int|
                    0 <= j < rest.len() ==> #[trigger] rest@[j] == items[n - 1 - j],
                forall|i: int| 0 <= i < res.len() ==> (#[trigger] items[i]).converts_to(res[i]),
            decreases rest.len(),
        {
            let ghost k = res.len() as int;
            let item = rest.pop().unwrap();
            assert(item == items[k]);
            let p = Payment::from(item);
            res.push(p);
        }
        res
    }

    /// Reads every payment of the page; `None` when one of them cannot be read.
    pub fn try_into_payments(self) -> (res: Option<Vec<Payment>>)
        ensures
            res is Some <==> forall|i: int|
                0 <= i < self.data().len() ==> (#[trigger] self.data()[i]).convertible(),
            res matches Some(v) ==> v.len() == self.data().len() && forall|i: int|
                0 <= i < v.len() ==> (#[trigger] self.data()[i]).converts_to(v[i]),
    {
        let mut i: usize = 0;
        while i < self.data.len()
            invariant
                i <= self.data@.len(),
                forall|j: int| 0 <= j < i ==> (#[trigger] self.data@[j]).convertible(),
            decreases self.data@.len() - i,
        {
            if !Payment::can_convert(&self.data[i]) {
                assert(!self.data()[i as int].convertible());
                return None;
            }
            i = i + 1;
        }
        Some(self.into_payments())
    }
}

impl Payment {
    /// Whether the reply can be read into a payment.
    pub fn can_convert(raw: &RawPayment) -> (res: bool)
        ensures
            res == raw.convertible(),
    {
        parse_u64(raw.payment_id.as_str()).is_some() && Currency::parse(
            raw.price_currency.as_str(),
        ).is_ok() && Currency::parse(raw.pay_currency.as_str()).is_ok() && Timestamp::parse(
            raw.created_at.as_str(),
        ).is_some() && Timestamp::parse(raw.updated_at.as_str()).is_some()
    }

    /// Reads a payment of the API's reply into the library's types.
    pub fn from(raw: RawPayment) -> (res: Payment)
        requires
            raw.convertible(),
        ensures
            raw.converts_to(res),
    {
        let id = parse_u64(raw.payment_id.as_str()).unwrap();
        let status = Status::parse(raw.payment_status.as_str());
        let price_currency = Currency::parse(raw.price_currency.as_str()).unwrap();
        let pay_currency = Currency::parse(raw.pay_currency.as_str()).unwrap();
        let created_at = Timestamp::parse(raw.created_at.as_str()).unwrap();
        let updated_at = Timestamp::parse(raw.updated_at.as_str()).unwrap();
        let order_description = match raw.order_description {
            Some(d) => d,
            None => String::new(),
        };
        Payment {
            id,
            status,
            address: raw.pay_address,
            price_amount: raw.price_amount,
            price_currency,
            pay_amount: raw.pay_amount,
            pay_currency,
            actually_paid: raw.actually_paid,
            actually_paid_price: None,
            order_id: raw.order_id,
            order_description,
            created_at,
            updated_at,
        }
    }

    /// Reads a payment of the API's reply; `None` where `from` cannot read it.
    pub fn try_from_raw(raw: RawPayment) -> (res: Option<Payment>)
        ensures
            res is Some <==> raw.convertible(),
            res matches Some(p) ==> raw.converts_to(p),
    {
        if Self::can_convert(&raw) {
            Some(Self::from(raw))
        } else {
            None
        }
    }

    /// Builds a payment locally, for testing: id 0, a mock address on the pay
    /// currency's network, status `Dummy` unless one is given, the given paid amount or
    /// else the default one, the given order id and description or else empty texts,
    /// and `now` as both creation and update time.
    pub fn mock(
        price_amount: Decimal,
        price_currency: Currency,
        pay_amount: Decimal,
        pay_currency: Currency,
        default_actually_paid: Decimal,
        actually_paid: Option<Decimal>,
        order_id: Option<&str>,
        order_description: Option<&str>,
        status: Option<Status>,
        now: Timestamp,
    ) -> (res: Payment)
        ensures
            res.id == 0,
            res.status == (match status {
                Some(s) => s,
                None => Status::Dummy,
            }),
            res.address@ == "<mock/my_"@ + currency_network(pay_currency) + "_address>"@,
            res.price_amount == price_amount,
            res.price_currency == price_currency,
            res.pay_amount == pay_amount,
            res.pay_currency == pay_currency,
            res.actually_paid == Some(
                match actually_paid {
                    Some(a) => a,
                    None => default_actually_paid,
                },
            ),
            res.actually_paid_price is None,
            res.order_id@ == (match order_id {
                Some(o) => o@,
                None => Seq::empty(),
            }),
            res.order_description@ == (match order_description {
                Some(d) => d@,
                None => Seq::empty(),
            }),
            res.created_at == now,
            res.updated_at == now,
    {
        let mut address = String::from_str("<mock/my_");
        let network = pay_currency.network();
        address.append(network.as_str());
        address.append("_address>");
        let paid = match actually_paid {
            Some(a) => a,
            None => default_actually_paid,
        };
        let order_id = match order_id {
            Some(o) => String::from_str(o),
            None => String::new(),
        };
        let order_description = match order_description {
            Some(d) => String::from_str(d),
            None => String::new(),
        };
        let status = match status {
            Some(s) => s,
            None => Status::Dummy,
        };
        Payment {
            id: 0,
            status,
            address,
            price_amount,
            price_currency,
            pay_amount,
            pay_currency,
            actually_paid: Some(paid),
            actually_paid_price: None,
            order_id,
            order_description,
            created_at: now,
            updated_at: now,
        }
    }

    /// The payment is being used: some funds have been or are being sent.
    pub fn is_used(&self) -> (res: bool)
        ensures
            res == is_used_status(self.status),
    {
        self.status == Status::Confirming || self.status == Status::Confirmed || self.status
            == Status::Sending
    }

    /// The payment is finished: some funds have been received, or the payment failed.
    pub fn is_finished(&self) -> (res: bool)
        ensures
            res == is_finished_status(self.status),
    {
        self.status == Status::Finished || self.status == Status::PartiallyPaid || self.status
            == Status::Failed || self.status == Status::Refunded
    }

    /// The payment status is unknown.
    pub fn is_unknown(&self) -> (res: bool)
        ensures
            res == (self.status == Status::Unknown),
    {
        self.status == Status::Unknown
    }

    /// Whether the payment counts as expired at `now`: its status says so, or more
    /// than `EXPIRY_DAYS` whole days have passed since its creation.
    pub fn is_expired_at(&self, now: &Timestamp) -> (res: bool)
        ensures
            res == expired_at(self.status, self.created_at@, now@),
    {
        self.status == Status::Expired || now.days_since(&self.created_at) > EXPIRY_DAYS
    }

    /// Whether the payment counts as expired now (see `is_expired_at`); `None` where the
    /// system clock lies outside the range of dates. The answer is the one for a
    /// reading that `Timestamp::now` gave.
    pub fn is_expired(&self) -> (res: Option<bool>)
        ensures
            exists|reading: Option<Timestamp>|
                call_ensures(Timestamp::now, (), reading) && #[trigger] expired_by_reading(
                    self.status,
                    self.created_at@,
                    reading,
                ) == res,
    {
        let reading = Timestamp::now();
        let res = match reading {
            Some(now) => Some(self.is_expired_at(&now)),
            None => None,
        };
        proof {
            assert(call_ensures(Timestamp::now, (), reading));
            assert(expired_by_reading(self.status, self.created_at@, reading) == res);
        }
        res
    }
}

/// Whatever `is_expired` answers is the answer for a reading of the clock that
/// `Timestamp::now` gave: none without a reading; else `true` exactly when the status is
/// `Expired` or more than `EXPIRY_DAYS` whole days have passed from the payment's
/// creation up to that reading.
pub proof fn lemma_is_expired_reads_the_clock(p: Payment, res: Option<bool>)
    requires
        call_ensures(Payment::is_expired, (&p,), res),
    ensures
        exists|reading: Option<Timestamp>|
            #[trigger] call_ensures(Timestamp::now, (), reading) && match reading {
                Some(t) => res == Some(
                    p.status == Status::Expired || whole_days_between(t@, p.created_at@)
                        > EXPIRY_DAYS,
                ),
                None => res is None,
            },
{
    let reading = choose|reading: Option<Timestamp>|
        call_ensures(Timestamp::now, (), reading) && #[trigger] expired_by_reading(
            p.status,
            p.created_at@,
            reading,
        ) == res;
    assert(call_ensures(Timestamp::now, (), reading));
}

/// The answer to whether a payment has expired, given a reading of the clock: none
/// without a reading, else whether it has expired at that time.
pub open spec fn expired_by_reading(
    status: Status,
    created: (int, int, int),
    reading: Option<Timestamp>,
) -> Option<bool> {
    match reading {
        Some(t) => Some(expired_at(status, created, t@)),
        None => None,
    }
}

} // verus!
