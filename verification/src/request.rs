use vstd::prelude::*;
use convert_case::{Case, Casing};
use crate::currency::{currency_code, currency_from_code, currency_lower_code, lemma_code_round_trip, Currency};
use crate::text::{ascii_lower_char, decimal_string, decimal_text, lemma_decimal_round_trip, parsed_u64};
use crate::time::{formatted_date, Timestamp, DATE_FORMAT};

verus! {

/// The field by which a list of payments is sorted.
#[derive(Debug, Clone, Copy, PartialEq, Eq, Structural)]
pub enum SortingField {
    CreatedAt,
    PaymentId,
    PaymentStatus,
    PayAddress,
    PriceAmount,
    PriceCurrency,
    PayAmount,
    PayCurrency,
    ActuallyPaid,
    OrderId,
    OrderDescription,
    PurchaseId,
    OutcomeAmount,
    OutcomeCurrency,
}

/// The direction in which a list of payments is sorted.
#[derive(Debug, Clone, Copy, PartialEq, Eq, Structural)]
pub enum OrderDirection {
    Desc,
    Asc,
}

/// The name of a sorting field's variant.
pub open spec fn sorting_field_name(f: SortingField) -> Seq<char> {
    match f {
        SortingField::CreatedAt => "CreatedAt"@,
        SortingField::PaymentId => "PaymentId"@,
        SortingField::PaymentStatus => "PaymentStatus"@,
        SortingField::PayAddress => "PayAddress"@,
        SortingField::PriceAmount => "PriceAmount"@,
        SortingField::PriceCurrency => "PriceCurrency"@,
        SortingField::PayAmount => "PayAmount"@,
        SortingField::PayCurrency => "PayCurrency"@,
        SortingField::ActuallyPaid => "ActuallyPaid"@,
        SortingField::OrderId => "OrderId"@,
        SortingField::OrderDescription => "OrderDescription"@,
        SortingField::PurchaseId => "PurchaseId"@,
        SortingField::OutcomeAmount => "OutcomeAmount"@,
        SortingField::OutcomeCurrency => "OutcomeCurrency"@,
    }
}

/// The name of an order direction's variant.
pub open spec fn order_direction_name(d: OrderDirection) -> Seq<char> {
    match d {
        OrderDirection::Desc => "Desc"@,
        OrderDirection::Asc => "Asc"@,
    }
}

/// Whether a character is an ASCII upper-case letter.
pub open spec fn is_ascii_upper(c: char) -> bool {
    'A' <= c && c <= 'Z'
}

/// Whether a character is an ASCII letter.
pub open spec fn is_ascii_letter(c: char) -> bool {
    is_ascii_upper(c) || ('a' <= c && c <= 'z')
}

/// Whether a text is written as a variant's name is: ASCII letters only, the first
/// one upper-case, and no two upper-case letters side by side.
pub open spec fn is_camel_word(text: Seq<char>) -> bool {
    &&& text.len() > 0
    &&& is_ascii_upper(text[0])
    &&& forall|i: int| 0 <= i < text.len() ==> is_ascii_letter(#[trigger] text[i])
    &&& forall|i: int|
        0 < i < text.len() && is_ascii_upper(#[trigger] text[i]) ==> !is_ascii_upper(text[i - 1])
}

/// Snake case of such a word: every letter in lower case, with `_` before each
/// upper-case letter but the first.
pub open spec fn camel_to_snake(text: Seq<char>) -> Seq<char>
    decreases text.len(),
{
    if text.len() == 0 {
        Seq::empty()
    } else {
        let head = camel_to_snake(text.drop_last());
        let c = text.last();
        if text.len() > 1 && is_ascii_upper(c) {
            head.push('_').push(ascii_lower_char(c))
        } else {
            head.push(ascii_lower_char(c))
        }
    }
}

/// What `convert_case` makes of `text` in snake case.
pub uninterp spec fn snake_case(text: Seq<char>) -> Seq<char>;

/// Calls `convert_case`'s `to_case(Case::Snake)`. Claimed: the result is a function of
/// the text; and, for a word written as a variant's name, the word cut before each
/// upper-case letter that follows a lower-case one, each part in lower case, joined by
/// `_` (the default boundaries of `convert_case` find no other cut in such a word).
#[verifier::external_body]
fn to_snake_case(text: &str) -> (res: String)
    ensures
        res@ == snake_case(text@),
        is_camel_word(text@) ==> res@ == camel_to_snake(text@),
{
    text.to_case(Case::Snake)
}

/// The name of a sorting field in the API's queries.
pub open spec fn sorting_field_query(f: SortingField) -> Seq<char> {
    match f {
        SortingField::CreatedAt => "created_at"@,
        SortingField::PaymentId => "payment_id"@,
        SortingField::PaymentStatus => "payment_status"@,
        SortingField::PayAddress => "pay_address"@,
        SortingField::PriceAmount => "price_amount"@,
        SortingField::PriceCurrency => "price_currency"@,
        SortingField::PayAmount => "pay_amount"@,
        SortingField::PayCurrency => "pay_currency"@,
        SortingField::ActuallyPaid => "actually_paid"@,
        SortingField::OrderId => "order_id"@,
        SortingField::OrderDescription => "order_description"@,
        SortingField::PurchaseId => "purchase_id"@,
        SortingField::OutcomeAmount => "outcome_amount"@,
        SortingField::OutcomeCurrency => "outcome_currency"@,
    }
}

/// The name of an order direction in the API's queries.
pub open spec fn order_direction_query(d: OrderDirection) -> Seq<char> {
    match d {
        OrderDirection::Desc => "desc"@,
        OrderDirection::Asc => "asc"@,
    }
}

/// The snake case of one variant's name.
proof fn lemma_snake_created_at()
    ensures
        is_camel_word("CreatedAt"@),
        camel_to_snake("CreatedAt"@) == "created_at"@,
{
    reveal_strlit("CreatedAt");
    reveal_strlit("created_at");
    reveal_with_fuel(camel_to_snake, 10);
    assert(camel_to_snake("CreatedAt"@) =~= "created_at"@);
}

proof fn lemma_snake_payment_id()
    ensures
        is_camel_word("PaymentId"@),
        camel_to_snake("PaymentId"@) == "payment_id"@,
{
    reveal_strlit("PaymentId");
    reveal_strlit("payment_id");
    reveal_with_fuel(camel_to_snake, 10);
    assert(camel_to_snake("PaymentId"@) =~= "payment_id"@);
}

proof fn lemma_snake_payment_status()
    ensures
        is_camel_word("PaymentStatus"@),
        camel_to_snake("PaymentStatus"@) == "payment_status"@,
{
    reveal_strlit("PaymentStatus");
    reveal_strlit("payment_status");
    reveal_with_fuel(camel_to_snake, 14);
    assert(camel_to_snake("PaymentStatus"@) =~= "payment_status"@);
}

proof fn lemma_snake_pay_address()
    ensures
        is_camel_word("PayAddress"@),
        camel_to_snake("PayAddress"@) == "pay_address"@,
{
    reveal_strlit("PayAddress");
    reveal_strlit("pay_address");
    reveal_with_fuel(camel_to_snake, 11);
    assert(camel_to_snake("PayAddress"@) =~= "pay_address"@);
}

proof fn lemma_snake_price_amount()
    ensures
        is_camel_word("PriceAmount"@),
        camel_to_snake("PriceAmount"@) == "price_amount"@,
{
    reveal_strlit("PriceAmount");
    reveal_strlit("price_amount");
    reveal_with_fuel(camel_to_snake, 12);
    assert(camel_to_snake("PriceAmount"@) =~= "price_amount"@);
}

proof fn lemma_snake_price_currency()
    ensures
        is_camel_word("PriceCurrency"@),
        camel_to_snake("PriceCurrency"@) == "price_currency"@,
{
    reveal_strlit("PriceCurrency");
    reveal_strlit("price_currency");
    reveal_with_fuel(camel_to_snake, 14);
    assert(camel_to_snake("PriceCurrency"@) =~= "price_currency"@);
}

proof fn lemma_snake_pay_amount()
    ensures
        is_camel_word("PayAmount"@),
        camel_to_snake("PayAmount"@) == "pay_amount"@,
{
    reveal_strlit("PayAmount");
    reveal_strlit("pay_amount");
    reveal_with_fuel(camel_to_snake, 10);
    assert(camel_to_snake("PayAmount"@) =~= "pay_amount"@);
}

proof fn lemma_snake_pay_currency()
    ensures
        is_camel_word("PayCurrency"@),
        camel_to_snake("PayCurrency"@) == "pay_currency"@,
{
    reveal_strlit("PayCurrency");
    reveal_strlit("pay_currency");
    reveal_with_fuel(camel_to_snake, 12);
    assert(camel_to_snake("PayCurrency"@) =~= "pay_currency"@);
}

proof fn lemma_snake_actually_paid()
    ensures
        is_camel_word("ActuallyPaid"@),
        camel_to_snake("ActuallyPaid"@) == "actually_paid"@,
{
    reveal_strlit("ActuallyPaid");
    reveal_strlit("actually_paid");
    reveal_with_fuel(camel_to_snake, 13);
    assert(camel_to_snake("ActuallyPaid"@) =~= "actually_paid"@);
}

proof fn lemma_snake_order_id()
    ensures
        is_camel_word("OrderId"@),
        camel_to_snake("OrderId"@) == "order_id"@,
{
    reveal_strlit("OrderId");
    reveal_strlit("order_id");
    reveal_with_fuel(camel_to_snake, 8);
    assert(camel_to_snake("OrderId"@) =~= "order_id"@);
}

proof fn lemma_snake_order_description()
    ensures
        is_camel_word("OrderDescription"@),
        camel_to_snake("OrderDescription"@) == "order_description"@,
{
    reveal_strlit("OrderDescription");
    reveal_strlit("order_description");
    reveal_with_fuel(camel_to_snake, 17);
    assert(camel_to_snake("OrderDescription"@) =~= "order_description"@);
}

proof fn lemma_snake_purchase_id()
    ensures
        is_camel_word("PurchaseId"@),
        camel_to_snake("PurchaseId"@) == "purchase_id"@,
{
    reveal_strlit("PurchaseId");
    reveal_strlit("purchase_id");
    reveal_with_fuel(camel_to_snake, 11);
    assert(camel_to_snake("PurchaseId"@) =~= "purchase_id"@);
}

proof fn lemma_snake_outcome_amount()
    ensures
        is_camel_word("OutcomeAmount"@),
        camel_to_snake("OutcomeAmount"@) == "outcome_amount"@,
{
    reveal_strlit("OutcomeAmount");
    reveal_strlit("outcome_amount");
    reveal_with_fuel(camel_to_snake, 14);
    assert(camel_to_snake("OutcomeAmount"@) =~= "outcome_amount"@);
}

proof fn lemma_snake_outcome_currency()
    ensures
        is_camel_word("OutcomeCurrency"@),
        camel_to_snake("OutcomeCurrency"@) == "outcome_currency"@,
{
    reveal_strlit("OutcomeCurrency");
    reveal_strlit("outcome_currency");
    reveal_with_fuel(camel_to_snake, 16);
    assert(camel_to_snake("OutcomeCurrency"@) =~= "outcome_currency"@);
}

proof fn lemma_snake_desc()
    ensures
        is_camel_word("Desc"@),
        camel_to_snake("Desc"@) == "desc"@,
{
    reveal_strlit("Desc");
    reveal_strlit("desc");
    reveal_with_fuel(camel_to_snake, 5);
    assert(camel_to_snake("Desc"@) =~= "desc"@);
}

proof fn lemma_snake_asc()
    ensures
        is_camel_word("Asc"@),
        camel_to_snake("Asc"@) == "asc"@,
{
    reveal_strlit("Asc");
    reveal_strlit("asc");
    reveal_with_fuel(camel_to_snake, 4);
    assert(camel_to_snake("Asc"@) =~= "asc"@);
}

/// Each sorting field's variant name is such a word, and its snake case is the
/// field's name in the API's queries.
pub proof fn lemma_sorting_field_snake_case(f: SortingField)
    ensures
        is_camel_word(sorting_field_name(f)),
        camel_to_snake(sorting_field_name(f)) == sorting_field_query(f),
{
    match f {
        SortingField::CreatedAt => lemma_snake_created_at(),
        SortingField::PaymentId => lemma_snake_payment_id(),
        SortingField::PaymentStatus => lemma_snake_payment_status(),
        SortingField::PayAddress => lemma_snake_pay_address(),
        SortingField::PriceAmount => lemma_snake_price_amount(),
        SortingField::PriceCurrency => lemma_snake_price_currency(),
        SortingField::PayAmount => lemma_snake_pay_amount(),
        SortingField::PayCurrency => lemma_snake_pay_currency(),
        SortingField::ActuallyPaid => lemma_snake_actually_paid(),
        SortingField::OrderId => lemma_snake_order_id(),
        SortingField::OrderDescription => lemma_snake_order_description(),
        SortingField::PurchaseId => lemma_snake_purchase_id(),
        SortingField::OutcomeAmount => lemma_snake_outcome_amount(),
        SortingField::OutcomeCurrency => lemma_snake_outcome_currency(),
    }
}

/// Each order direction's variant name is such a word, and its snake case is the
/// direction's name in the API's queries.
pub proof fn lemma_order_direction_snake_case(d: OrderDirection)
    ensures
        is_camel_word(order_direction_name(d)),
        camel_to_snake(order_direction_name(d)) == order_direction_query(d),
{
    match d {
        OrderDirection::Desc => lemma_snake_desc(),
        OrderDirection::Asc => lemma_snake_asc(),
    }
}

impl SortingField {
    /// The name of the variant.
    fn variant_name(&self) -> (res: &'static str)
        ensures
            res@ == sorting_field_name(*self),
    {
        match self {
            SortingField::CreatedAt => "CreatedAt",
            SortingField::PaymentId => "PaymentId",
            SortingField::PaymentStatus => "PaymentStatus",
            SortingField::PayAddress => "PayAddress",
            SortingField::PriceAmount => "PriceAmount",
            SortingField::PriceCurrency => "PriceCurrency",
            SortingField::PayAmount => "PayAmount",
            SortingField::PayCurrency => "PayCurrency",
            SortingField::ActuallyPaid => "ActuallyPaid",
            SortingField::OrderId => "OrderId",
            SortingField::OrderDescription => "OrderDescription",
            SortingField::PurchaseId => "PurchaseId",
            SortingField::OutcomeAmount => "OutcomeAmount",
            SortingField::OutcomeCurrency => "OutcomeCurrency",
        }
    }

    /// The field as the API's query writes it: the variant's name in snake case
    /// (`created_at`, `payment_id`, ...).
    pub fn to_string(&self) -> (res: String)
        ensures
            res@ == sorting_field_query(*self),
    {
        proof {
            lemma_sorting_field_snake_case(*self);
        }
        to_snake_case(self.variant_name())
    }
}

impl Default for SortingField {
    fn default() -> (res: SortingField)
        ensures
            res == SortingField::CreatedAt,
    {
        SortingField::CreatedAt
    }
}

impl OrderDirection {
    /// The name of the variant.
    fn variant_name(&self) -> (res: &'static str)
        ensures
            res@ == order_direction_name(*self),
    {
        match self {
            OrderDirection::Desc => "Desc",
            OrderDirection::Asc => "Asc",
        }
    }

    /// The direction as the API's query writes it: the variant's name in snake case
    /// (`desc`, `asc`).
    pub fn to_string(&self) -> (res: String)
        ensures
            res@ == order_direction_query(*self),
    {
        proof {
            lemma_order_direction_snake_case(*self);
        }
        to_snake_case(self.variant_name())
    }
}

impl Default for OrderDirection {
    fn default() -> (res: OrderDirection)
        ensures
            res == OrderDirection::Desc,
    {
        OrderDirection::Desc
    }
}

/// Endpoint of the API's status.
pub const STATUS_PATH: &'static str = "status";

/// Endpoint of the account's balance.
pub const BALANCE_PATH: &'static str = "balance";

/// Endpoint of the list of conversions.
pub const CONVERSIONS_PATH: &'static str = "conversion";

/// Endpoint of the available currencies.
pub const CURRENCIES_PATH: &'static str = "currencies";

/// Endpoint of the available currencies with their details.
pub const FULL_CURRENCIES_PATH: &'static str = "full-currencies";

/// Endpoint of the currencies the merchant has checked.
pub const MERCHANT_COINS_PATH: &'static str = "merchant/coins";

/// Endpoint that issues a JWT.
pub const AUTH_PATH: &'static str = "auth";

/// Endpoint that creates a payment.
pub const PAYMENT_PATH: &'static str = "payment";

/// The path of a payment's state.
pub open spec fn payment_state_path_text(id: u64) -> Seq<char> {
    "payment/"@ + decimal_text(id as nat)
}

/// The path that asks for the state of the payment `id`.
pub fn payment_state_path(id: u64) -> (res: String)
    ensures
        res@ == payment_state_path_text(id),
{
    let mut path = String::from_str("payment/");
    let digits = decimal_string(id);
    path.append(digits.as_str());
    path
}

/// The path that asks for the status of the conversion `conversion_id`.
pub fn conversion_status_path(conversion_id: &str) -> (res: String)
    ensures
        res@ == "conversion/"@ + conversion_id@,
{
    let mut path = String::from_str("conversion/");
    path.append(conversion_id);
    path
}

/// The path of the query for a list of payments, from the texts of its parameters.
pub open spec fn payment_list_path_text(
    limit: Seq<char>,
    page: Seq<char>,
    sort_by: Seq<char>,
    order_by: Seq<char>,
    date_from: Seq<char>,
    date_to: Seq<char>,
) -> Seq<char> {
    "payment/?limit="@ + limit + "&page="@ + page + "&sortBy="@ + sort_by + "&orderBy="@
        + order_by + "&dateFrom="@ + date_from + "&dateTo="@ + date_to
}

/// The path of the query for a list of payments, each parameter given as text.
pub fn payment_list_path(
    limit: &str,
    page: &str,
    sort_by: &str,
    order_by: &str,
    date_from: &str,
    date_to: &str,
) -> (res: String)
    ensures
        res@ == payment_list_path_text(limit@, page@, sort_by@, order_by@, date_from@, date_to@),
{
    let mut path = String::from_str("payment/?limit=");
    path.append(limit);
    path.append("&page=");
    path.append(page);
    path.append("&sortBy=");
    path.append(sort_by);
    path.append("&orderBy=");
    path.append(order_by);
    path.append("&dateFrom=");
    path.append(date_from);
    path.append("&dateTo=");
    path.append(date_to);
    path
}

/// The path of the query for a page of payments. Unlike `payment_list_path_text`, the
/// last parameter is named `date_to`.
pub open spec fn payment_page_path_text(
    limit: u64,
    page: u64,
    sort_by: SortingField,
    order_by: OrderDirection,
    date_from: Seq<char>,
    date_to: Seq<char>,
) -> Seq<char> {
    "payment/?limit="@ + decimal_text(limit as nat) + "&page="@ + decimal_text(page as nat)
        + "&sortBy="@ + sorting_field_query(sort_by) + "&orderBy="@ + order_direction_query(
        order_by,
    ) + "&dateFrom="@ + date_from + "&date_to="@ + date_to
}

/// The path of the query for a page of payments: `limit` payments (1 to 500) of page
/// `page` (counted from 0), sorted by `sort_by` in direction `order_by`, created
/// between the calendar dates of `date_from` and `date_to`.
pub fn payment_page_path(
    limit: u64,
    page: u64,
    sort_by: SortingField,
    order_by: OrderDirection,
    date_from: &Timestamp,
    date_to: &Timestamp,
) -> (res: String)
    ensures
        res@ == payment_page_path_text(
            limit,
            page,
            sort_by,
            order_by,
            formatted_date(date_from@.0 as i32, DATE_FORMAT@),
            formatted_date(date_to@.0 as i32, DATE_FORMAT@),
        ),
{
    let mut path = String::from_str("payment/?limit=");
    let limit_text = decimal_string(limit);
    path.append(limit_text.as_str());
    path.append("&page=");
    let page_text = decimal_string(page);
    path.append(page_text.as_str());
    path.append("&sortBy=");
    let sort_text = sort_by.to_string();
    path.append(sort_text.as_str());
    path.append("&orderBy=");
    let order_text = order_by.to_string();
    path.append(order_text.as_str());
    path.append("&dateFrom=");
    let from_text = date_from.date_text();
    path.append(from_text.as_str());
    path.append("&date_to=");
    let to_text = date_to.date_text();
    path.append(to_text.as_str());
    path
}

/// The path of the query for the estimated price of `amount` (written in decimal) of
/// currency `from` in currency `to`.
pub open spec fn estimate_path_text(amount: Seq<char>, from: Currency, to: Currency) -> Seq<
    char,
> {
    "estimate?amount="@ + amount + "&currency_from="@ + currency_lower_code(from)
        + "&currency_to="@ + currency_lower_code(to)
}

/// The path of the query for the estimated price of `amount` of `from` in `to`; the
/// currency codes are written in lower case.
pub fn estimate_path(amount: &str, from: Currency, to: Currency) -> (res: String)
    ensures
        res@ == estimate_path_text(amount@, from, to),
{
    let mut path = String::from_str("estimate?amount=");
    path.append(amount);
    path.append("&currency_from=");
    let from_code = from.lower_code();
    path.append(from_code.as_str());
    path.append("&currency_to=");
    let to_code = to.lower_code();
    path.append(to_code.as_str());
    path
}

/// The path of the query for the minimal payment amount from `from` to `to`, with its
/// equivalent in `fiat`.
pub open spec fn min_amount_path_text(from: Currency, to: Currency, fiat: Currency) -> Seq<char> {
    "min-amount?currency_from="@ + currency_lower_code(from) + "&currency_to="@
        + currency_lower_code(to) + "&fiat_equivalent="@ + currency_lower_code(fiat)
}

/// The path of the query for the minimal payment amount from `from` to `to`; the fiat
/// equivalent is given in `fiat_equivalent`, in US dollars when none is given.
pub fn min_amount_path(from: Currency, to: Currency, fiat_equivalent: Option<Currency>) -> (res:
    String)
    ensures
        res@ == min_amount_path_text(
            from,
            to,
            match fiat_equivalent {
                Some(f) => f,
                None => Currency::USD,
            },
        ),
{
    let fiat = match fiat_equivalent {
        Some(f) => f,
        None => Currency::USD,
    };
    let mut path = String::from_str("min-amount?currency_from=");
    let from_code = from.lower_code();
    path.append(from_code.as_str());
    path.append("&currency_to=");
    let to_code = to.lower_code();
    path.append(to_code.as_str());
    path.append("&fiat_equivalent=");
    let fiat_code = fiat.lower_code();
    path.append(fiat_code.as_str());
    path
}

/// No key occurs twice in the body of the request that creates a payment, and the
/// order id and the description occur exactly when they are given.
pub proof fn lemma_payment_body_keys(
    price_amount: Seq<char>,
    price_currency: Currency,
    pay_currency: Currency,
    ipn_callback_url: Seq<char>,
    order_id: Option<Seq<char>>,
    order_description: Option<Seq<char>>,
)
    ensures
        ({
            let fields = payment_body_fields(
                price_amount,
                price_currency,
                pay_currency,
                ipn_callback_url,
                order_id,
                order_description,
            );
            &&& forall|i: int, j: int|
                0 <= i < j < fields.len() ==> #[trigger] fields[i].0 != #[trigger] fields[j].0
            &&& (exists|i: int| 0 <= i < fields.len() && #[trigger] fields[i].0 == "order_id"@)
                <==> order_id is Some
            &&& (exists|i: int|
                0 <= i < fields.len() && #[trigger] fields[i].0 == "order_description"@)
                <==> order_description is Some
        }),
{
    let fields = payment_body_fields(
        price_amount,
        price_currency,
        pay_currency,
        ipn_callback_url,
        order_id,
        order_description,
    );
    reveal_strlit("price_amount");
    reveal_strlit("price_currency");
    reveal_strlit("pay_currency");
    reveal_strlit("ipn_callback_url");
    reveal_strlit("order_id");
    reveal_strlit("order_description");
    let keys = seq![
        "price_amount"@,
        "price_currency"@,
        "pay_currency"@,
        "ipn_callback_url"@,
        "order_id"@,
        "order_description"@,
    ];
    assert("price_amount"@[1] != "price_currency"@[1] || "price_amount"@[6] != "price_currency"@[6]);
    assert("price_amount"@[0] != "pay_currency"@[0] || "price_amount"@[1] != "pay_currency"@[1]);
    assert("price_amount"@[0] != "ipn_callback_url"@[0]);
    assert("price_amount"@[0] != "order_id"@[0]);
    assert("price_amount"@[0] != "order_description"@[0]);
    assert("price_currency"@[1] != "pay_currency"@[1]);
    assert("price_currency"@[0] != "ipn_callback_url"@[0]);
    assert("price_currency"@[0] != "order_id"@[0]);
    assert("price_currency"@[0] != "order_description"@[0]);
    assert("pay_currency"@[0] != "ipn_callback_url"@[0]);
    assert("pay_currency"@[0] != "order_id"@[0]);
    assert("pay_currency"@[0] != "order_description"@[0]);
    assert("ipn_callback_url"@[0] != "order_id"@[0]);
    assert("ipn_callback_url"@[0] != "order_description"@[0]);
    assert("order_id"@.len() != "order_description"@.len());
    assert forall|i: int, j: int| 0 <= i < j < fields.len() implies #[trigger] fields[i].0
        != #[trigger] fields[j].0 by {
        assert(fields[i].0 == keys[if i == 4 && order_id is None {
            5
        } else {
            i
        }]);
        assert(fields[j].0 == keys[if j == 4 && order_id is None {
            5
        } else {
            j
        }]);
    }
    if order_id is Some {
        assert(fields[4].0 == "order_id"@);
    } else {
        assert forall|i: int| 0 <= i < fields.len() implies #[trigger] fields[i].0 != "order_id"@ by {
            assert(fields[i].0 == keys[if i == 4 {
                5
            } else {
                i
            }]);
        }
    }
    if order_description is Some {
        assert(fields[fields.len() - 1].0 == "order_description"@);
    } else {
        assert forall|i: int| 0 <= i < fields.len() implies #[trigger] fields[i].0
            != "order_description"@ by {
            assert(fields[i].0 == keys[i]);
        }
    }
}

/// The fields of a request body as key and value texts.
pub open spec fn field_texts(fields: Seq<(String, String)>) -> Seq<(Seq<char>, Seq<char>)> {
    fields.map_values(|f: (String, String)| (f.0@, f.1@))
}

/// The fields of the request that creates a payment: the price amount (written in
/// decimal), the price and pay currencies by their codes, the address the API calls
/// back, then the order id and description where they are given.
pub open spec fn payment_body_fields(
    price_amount: Seq<char>,
    price_currency: Currency,
    pay_currency: Currency,
    ipn_callback_url: Seq<char>,
    order_id: Option<Seq<char>>,
    order_description: Option<Seq<char>>,
) -> Seq<(Seq<char>, Seq<char>)> {
    let required = seq![
        ("price_amount"@, price_amount),
        ("price_currency"@, currency_code(price_currency)),
        ("pay_currency"@, currency_code(pay_currency)),
        ("ipn_callback_url"@, ipn_callback_url),
    ];
    let with_id = match order_id {
        Some(o) => required.push(("order_id"@, o)),
        None => required,
    };
    match order_description {
        Some(d) => with_id.push(("order_description"@, d)),
        None => with_id,
    }
}

/// The view of an optional text.
pub open spec fn opt_text(t: Option<&str>) -> Option<Seq<char>> {
    match t {
        Some(s) => Some(s@),
        None => None,
    }
}

/// The fields of the request that creates a payment (see `payment_body_fields`).
pub fn payment_request_body(
    price_amount: &str,
    price_currency: Currency,
    pay_currency: Currency,
    ipn_callback_url: &str,
    order_id: Option<&str>,
    order_description: Option<&str>,
) -> (res: Vec<(String, String)>)
    ensures
        field_texts(res@) == payment_body_fields(
            price_amount@,
            price_currency,
            pay_currency,
            ipn_callback_url@,
            opt_text(order_id),
            opt_text(order_description),
        ),
{
    let mut body: Vec<(String, String)> = Vec::new();
    body.push((String::from_str("price_amount"), String::from_str(price_amount)));
    body.push((String::from_str("price_currency"), price_currency.to_string()));
    body.push((String::from_str("pay_currency"), pay_currency.to_string()));
    body.push((String::from_str("ipn_callback_url"), String::from_str(ipn_callback_url)));
    if let Some(o) = order_id {
        body.push((String::from_str("order_id"), String::from_str(o)));
    }
    if let Some(d) = order_description {
        body.push((String::from_str("order_description"), String::from_str(d)));
    }
    assert(field_texts(body@) =~= payment_body_fields(
        price_amount@,
        price_currency,
        pay_currency,
        ipn_callback_url@,
        opt_text(order_id),
        opt_text(order_description),
    ));
    body
}


/// Whatever `payment_state_path` returns reads back to the id: the text after
/// `payment/` is the id in decimal.
pub proof fn lemma_state_path_reads_back(id: u64, res: String)
    requires
        call_ensures(payment_state_path, (id,), res),
    ensures
        exists|digits: Seq<char>| #[trigger] parsed_u64(digits) == Some(id) && res@ == "payment/"@ + digits,
{
    lemma_decimal_round_trip(id);
    assert(parsed_u64(decimal_text(id as nat)) == Some(id));
}

/// Reading back the query for a page of payments: `limit` and `page` are written in
/// decimal, the sort field and the direction by their names in the API's queries, and
/// the dates as given.
pub proof fn lemma_page_path_parameters(
    limit: u64,
    page: u64,
    sort_by: SortingField,
    order_by: OrderDirection,
    date_from: Seq<char>,
    date_to: Seq<char>,
)
    ensures
        exists|a: Seq<char>, b: Seq<char>|
            #[trigger] parsed_u64(a) == Some(limit) && #[trigger] parsed_u64(b) == Some(page)
                && payment_page_path_text(limit, page, sort_by, order_by, date_from, date_to)
                == "payment/?limit="@ + a + "&page="@ + b + "&sortBy="@ + sorting_field_query(
                sort_by,
            ) + "&orderBy="@ + order_direction_query(order_by) + "&dateFrom="@ + date_from
                + "&date_to="@ + date_to,
{
    lemma_decimal_round_trip(limit);
    lemma_decimal_round_trip(page);
    assert(parsed_u64(decimal_text(limit as nat)) == Some(limit));
    assert(parsed_u64(decimal_text(page as nat)) == Some(page));
}

/// Whatever `payment_page_path` returns reads back to its arguments: `limit` and `page`
/// in decimal, the sort field and direction by their names in the API's queries, and
/// `dateFrom` and `date_to` as the calendar dates of `date_from` and `date_to`, in that
/// order.
pub proof fn lemma_page_path_reads_back(
    limit: u64,
    page: u64,
    sort_by: SortingField,
    order_by: OrderDirection,
    date_from: Timestamp,
    date_to: Timestamp,
    res: String,
)
    requires
        call_ensures(payment_page_path, (limit, page, sort_by, order_by, &date_from, &date_to), res),
    ensures
        exists|a: Seq<char>, b: Seq<char>|
            #[trigger] parsed_u64(a) == Some(limit) && #[trigger] parsed_u64(b) == Some(page)
                && res@ == "payment/?limit="@ + a + "&page="@ + b + "&sortBy="@
                + sorting_field_query(sort_by) + "&orderBy="@ + order_direction_query(order_by)
                + "&dateFrom="@ + formatted_date(date_from@.0 as i32, DATE_FORMAT@) + "&date_to="@
                + formatted_date(date_to@.0 as i32, DATE_FORMAT@),
{
    lemma_page_path_parameters(
        limit,
        page,
        sort_by,
        order_by,
        formatted_date(date_from@.0 as i32, DATE_FORMAT@),
        formatted_date(date_to@.0 as i32, DATE_FORMAT@),
    );
}

/// The direction in which a page of payments is sorted reaches the query: for `Asc`
/// the query asks `orderBy=asc`, for `Desc` it asks `orderBy=desc`, and the two
/// queries differ when all else is equal.
pub proof fn lemma_page_path_order(
    limit: u64,
    page: u64,
    sort_by: SortingField,
    date_from: Seq<char>,
    date_to: Seq<char>,
)
    ensures
        order_direction_query(OrderDirection::Asc) == "asc"@,
        order_direction_query(OrderDirection::Desc) == "desc"@,
        payment_page_path_text(limit, page, sort_by, OrderDirection::Asc, date_from, date_to)
            != payment_page_path_text(limit, page, sort_by, OrderDirection::Desc, date_from, date_to),
{
    reveal_strlit("asc");
    reveal_strlit("desc");
    let asc = payment_page_path_text(limit, page, sort_by, OrderDirection::Asc, date_from, date_to);
    let desc = payment_page_path_text(limit, page, sort_by, OrderDirection::Desc, date_from, date_to);
    assert(desc.len() == asc.len() + 1);
}

/// Whatever `estimate_path` returns reads back to its arguments: the amount as given,
/// and the currencies as the codes that `Currency::parse` reads back to `from` and `to`.
pub proof fn lemma_estimate_path_reads_back(amount: &str, from: Currency, to: Currency, res: String)
    requires
        call_ensures(estimate_path, (amount, from, to), res),
    ensures
        exists|x: Seq<char>, y: Seq<char>|
            #[trigger] currency_from_code(x) == Some(from) && #[trigger] currency_from_code(y)
                == Some(to) && res@ == "estimate?amount="@ + amount@ + "&currency_from="@ + x
                + "&currency_to="@ + y,
{
    lemma_code_round_trip(from);
    lemma_code_round_trip(to);
    assert(currency_from_code(currency_lower_code(from)) == Some(from));
    assert(currency_from_code(currency_lower_code(to)) == Some(to));
}

/// Whatever `min_amount_path` returns reads back to its arguments: the three currencies
/// are written as the codes that `Currency::parse` reads back to `from`, `to` and the
/// fiat currency, which is `USD` when none is given.
pub proof fn lemma_min_amount_path_reads_back(
    from: Currency,
    to: Currency,
    fiat_equivalent: Option<Currency>,
    res: String,
)
    requires
        call_ensures(min_amount_path, (from, to, fiat_equivalent), res),
    ensures
        exists|x: Seq<char>, y: Seq<char>, z: Seq<char>|
            #[trigger] currency_from_code(x) == Some(from) && #[trigger] currency_from_code(y)
                == Some(to) && #[trigger] currency_from_code(z) == Some(
                match fiat_equivalent {
                    Some(f) => f,
                    None => Currency::USD,
                },
            ) && res@ == "min-amount?currency_from="@ + x + "&currency_to="@ + y
                + "&fiat_equivalent="@ + z,
{
    let fiat = match fiat_equivalent {
        Some(f) => f,
        None => Currency::USD,
    };
    lemma_code_round_trip(from);
    lemma_code_round_trip(to);
    lemma_code_round_trip(fiat);
    assert(currency_from_code(currency_lower_code(from)) == Some(from));
    assert(currency_from_code(currency_lower_code(to)) == Some(to));
    assert(currency_from_code(currency_lower_code(fiat)) == Some(fiat));
}

} // verus!
