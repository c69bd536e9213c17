use vstd::prelude::*;
use rust_decimal::Decimal;

verus! {

/// The codes of the currencies the API offers.
#[derive(Debug, Clone, PartialEq, Eq, Default)]
pub struct Currencies {
    pub currencies: Vec<String>,
}

/// The currencies the API offers, with their details.
#[derive(Debug, Clone, PartialEq, Eq, Default)]
pub struct FullCurrencies {
    pub currencies: Vec<SingleCurrency>,
}

/// The details of one currency the API offers.
#[derive(Debug, Clone, PartialEq, Eq, Default)]
pub struct SingleCurrency {
    pub id: i64,
    pub code: String,
    pub name: String,
    pub enable: bool,
    pub wallet_regex: String,
    pub priority: i64,
    pub extra_id_exists: bool,
    pub extra_id_regex: Option<String>,
    pub logo_url: String,
    pub track: bool,
    pub cg_id: String,
    pub is_maxlimit: bool,
    pub network: Option<String>,
    pub smart_contract: Option<String>,
    pub network_precision: Option<String>,
    pub explorer_link_hash: Option<String>,
    pub precision: i64,
    pub ticker: Option<String>,
    pub is_defi: bool,
    pub is_popular: bool,
    pub is_stable: bool,
    pub available_for_to_conversion: bool,
}

/// The codes of the currencies the merchant has checked.
#[derive(Debug, Clone, PartialEq, Eq, Default)]
pub struct SelectedCurrencies {
    pub selected_currencies: Vec<String>,
}

/// The minimal amount of a payment from one currency to another.
#[derive(Debug, PartialEq, Eq)]
pub struct MinPaymentAmount {
    pub currency_from: String,
    pub currency_to: String,
    pub min_amount: Decimal,
    pub fiat_equivalent: Decimal,
}

/// The estimated price of an amount of one currency in another.
#[derive(Debug, PartialEq, Eq)]
pub struct EstimatedPaymentAmount {
    pub currency_from: String,
    pub amount_from: Decimal,
    pub currency_to: String,
    pub estimated_amount: String,
}

} // verus!
