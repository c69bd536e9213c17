use vstd::prelude::*;
use crate::text::{ascii_lower, ascii_lower_char, same_text, starts_with_text};

verus! {

/// A currency that the API handles. The variant's name is the currency's code.
#[derive(Debug, Clone, Copy, PartialEq, Eq, Hash, Structural)]
pub enum Currency {
    XMR,
    BTC,
    ETH,
    SOL,
    TRX,
    BNBBSC,
    USDT,
    USDC,
    USDCSOL,
    USDTERC20,
    USDTTRC20,
    USDTBSC,
    USD,
    UNKNOWN,
}

/// The text of a currency code that names no currency.
#[derive(Debug, Clone, Copy, PartialEq, Eq, Structural)]
pub struct UnknownCurrency;

/// The code of a currency, as its `Display` writes it: the variant's name.
pub open spec fn currency_code(c: Currency) -> Seq<char> {
    match c {
        Currency::XMR => "XMR"@,
        Currency::BTC => "BTC"@,
        Currency::ETH => "ETH"@,
        Currency::SOL => "SOL"@,
        Currency::TRX => "TRX"@,
        Currency::BNBBSC => "BNBBSC"@,
        Currency::USDT => "USDT"@,
        Currency::USDC => "USDC"@,
        Currency::USDCSOL => "USDCSOL"@,
        Currency::USDTERC20 => "USDTERC20"@,
        Currency::USDTTRC20 => "USDTTRC20"@,
        Currency::USDTBSC => "USDTBSC"@,
        Currency::USD => "USD"@,
        Currency::UNKNOWN => "UNKNOWN"@,
    }
}

/// The official name of a currency.
pub open spec fn currency_name(c: Currency) -> Seq<char> {
    match c {
        Currency::XMR => "Monero"@,
        Currency::BTC => "Bitcoin"@,
        Currency::ETH => "Ethereum"@,
        Currency::SOL => "Solana"@,
        Currency::TRX => "Tron"@,
        Currency::BNBBSC => "BNB (Binance Smart Chain)"@,
        Currency::USDT => "Tether USD"@,
        Currency::USDC => "USD Coin"@,
        Currency::USDCSOL => "USD Coin (Solana)"@,
        Currency::USDTERC20 => "Tether USD (ERC20)"@,
        Currency::USDTTRC20 => "Tether USD (TRC20)"@,
        Currency::USDTBSC => "Tether USD (BEP20)"@,
        Currency::USD => "US Dollar"@,
        Currency::UNKNOWN => "Unknown"@,
    }
}

/// The CoinGecko / NOWPayments id of a currency.
pub open spec fn currency_cg_id(c: Currency) -> Seq<char> {
    match c {
        Currency::XMR => "monero"@,
        Currency::BTC => "bitcoin"@,
        Currency::ETH => "ethereum"@,
        Currency::SOL => "solana"@,
        Currency::TRX => "tron"@,
        Currency::BNBBSC => "binancecoin"@,
        Currency::USDT => "tether"@,
        Currency::USDC => "usd-coin"@,
        Currency::USDCSOL => "usd-coin"@,
        Currency::USDTERC20 => "tether"@,
        Currency::USDTTRC20 => "tether"@,
        Currency::USDTBSC => "tether"@,
        Currency::USD => "usd"@,
        Currency::UNKNOWN => "unknown"@,
    }
}

/// The network of a currency, as URI schemes use it.
pub open spec fn currency_network(c: Currency) -> Seq<char> {
    match c {
        Currency::XMR => "xmr"@,
        Currency::BTC => "btc"@,
        Currency::ETH => "eth"@,
        Currency::SOL => "sol"@,
        Currency::TRX => "trx"@,
        Currency::BNBBSC => "bsc"@,
        Currency::USDT => "eth"@,
        Currency::USDC => "eth"@,
        Currency::USDCSOL => "sol"@,
        Currency::USDTERC20 => "eth"@,
        Currency::USDTTRC20 => "trx"@,
        Currency::USDTBSC => "bsc"@,
        Currency::USD => "fiat"@,
        Currency::UNKNOWN => "unknown"@,
    }
}

/// The token standard of a currency; `native` for a coin of its own chain.
pub open spec fn currency_protocol(c: Currency) -> Seq<char> {
    match c {
        Currency::XMR => "native"@,
        Currency::BTC => "native"@,
        Currency::ETH => "native"@,
        Currency::SOL => "native"@,
        Currency::TRX => "native"@,
        Currency::BNBBSC => "native"@,
        Currency::USDT => "erc20"@,
        Currency::USDC => "erc20"@,
        Currency::USDCSOL => "spl"@,
        Currency::USDTERC20 => "erc20"@,
        Currency::USDTTRC20 => "trc20"@,
        Currency::USDTBSC => "bep20"@,
        Currency::USD => "fiat"@,
        Currency::UNKNOWN => "unknown"@,
    }
}

/// The code of a currency in lower case, as the API writes it.
pub open spec fn currency_lower_code(c: Currency) -> Seq<char> {
    ascii_lower(currency_code(c))
}

/// The currency whose lower-case code is `s`, if there is one.
pub open spec fn currency_from_code(s: Seq<char>) -> Option<Currency> {
    if s == "xmr"@ {
        Some(Currency::XMR)
    }     else if s == "btc"@ {
        Some(Currency::BTC)
    }     else if s == "eth"@ {
        Some(Currency::ETH)
    }     else if s == "sol"@ {
        Some(Currency::SOL)
    }     else if s == "trx"@ {
        Some(Currency::TRX)
    }     else if s == "bnbbsc"@ {
        Some(Currency::BNBBSC)
    }     else if s == "usdt"@ {
        Some(Currency::USDT)
    }     else if s == "usdc"@ {
        Some(Currency::USDC)
    }     else if s == "usdcsol"@ {
        Some(Currency::USDCSOL)
    }     else if s == "usdterc20"@ {
        Some(Currency::USDTERC20)
    }     else if s == "usdttrc20"@ {
        Some(Currency::USDTTRC20)
    }     else if s == "usdtbsc"@ {
        Some(Currency::USDTBSC)
    }     else if s == "usd"@ {
        Some(Currency::USD)
    }     else if s == "unknown"@ {
        Some(Currency::UNKNOWN)
    } else {
        None
    }
}

/// Every currency, in the order of the enum's declaration.
pub open spec fn currency_order() -> Seq<Currency> {
    seq![
        Currency::XMR,
        Currency::BTC,
        Currency::ETH,
        Currency::SOL,
        Currency::TRX,
        Currency::BNBBSC,
        Currency::USDT,
        Currency::USDC,
        Currency::USDCSOL,
        Currency::USDTERC20,
        Currency::USDTTRC20,
        Currency::USDTBSC,
        Currency::USD,
        Currency::UNKNOWN,
    ]
}

/// Whether a currency is offered for payments: neither fiat money nor the placeholder
/// for an unknown currency.
pub open spec fn is_listed(c: Currency) -> bool {
    c != Currency::USD && c != Currency::UNKNOWN
}

/// `is_listed` as a predicate.
pub open spec fn listed_pred() -> spec_fn(Currency) -> bool {
    |c: Currency| is_listed(c)
}

/// Whether a currency is a stablecoin: its code begins with `USD`.
pub open spec fn is_stablecoin(c: Currency) -> bool {
    "USD"@.is_prefix_of(currency_code(c))
}

/// `is_stablecoin` as a predicate.
pub open spec fn stablecoin_pred() -> spec_fn(Currency) -> bool {
    |c: Currency| is_stablecoin(c)
}

/// The currencies offered for payments, in declaration order.
pub open spec fn listed_currencies() -> Seq<Currency> {
    currency_order().filter(listed_pred())
}

/// The stablecoins among the currencies offered for payments, in declaration order.
pub open spec fn stablecoins() -> Seq<Currency> {
    listed_currencies().filter(stablecoin_pred())
}

/// Reading back a currency's lower-case code gives the currency: the code that
/// `Display` writes, in lower case, is the text that `FromStr` reads.
#[verifier::rlimit(50)]
pub proof fn lemma_code_round_trip(c: Currency)
    ensures
        currency_from_code(currency_lower_code(c)) == Some(c),
{
    reveal_strlit("xmr");
    reveal_strlit("btc");
    reveal_strlit("eth");
    reveal_strlit("sol");
    reveal_strlit("trx");
    reveal_strlit("bnbbsc");
    reveal_strlit("usdt");
    reveal_strlit("usdc");
    reveal_strlit("usdcsol");
    reveal_strlit("usdterc20");
    reveal_strlit("usdttrc20");
    reveal_strlit("usdtbsc");
    reveal_strlit("usd");
    reveal_strlit("unknown");
    match c {
        Currency::XMR => {
            reveal_strlit("XMR");
            assert(currency_lower_code(c) =~= "xmr"@);
            assert(currency_from_code("xmr"@) == Some(Currency::XMR));
        },
        Currency::BTC => {
            reveal_strlit("BTC");
            assert(currency_lower_code(c) =~= "btc"@);
            assert("btc"@[0] != "xmr"@[0]);
            assert(currency_from_code("btc"@) == Some(Currency::BTC));
        },
        Currency::ETH => {
            reveal_strlit("ETH");
            assert(currency_lower_code(c) =~= "eth"@);
            assert("eth"@[0] != "xmr"@[0]);
            assert("eth"@[0] != "btc"@[0]);
            assert(currency_from_code("eth"@) == Some(Currency::ETH));
        },
        Currency::SOL => {
            reveal_strlit("SOL");
            assert(currency_lower_code(c) =~= "sol"@);
            assert("sol"@[0] != "xmr"@[0]);
            assert("sol"@[0] != "btc"@[0]);
            assert("sol"@[0] != "eth"@[0]);
            assert(currency_from_code("sol"@) == Some(Currency::SOL));
        },
        Currency::TRX => {
            reveal_strlit("TRX");
            assert(currency_lower_code(c) =~= "trx"@);
            assert("trx"@[0] != "xmr"@[0]);
            assert("trx"@[0] != "btc"@[0]);
            assert("trx"@[0] != "eth"@[0]);
            assert("trx"@[0] != "sol"@[0]);
            assert(currency_from_code("trx"@) == Some(Currency::TRX));
        },
        Currency::BNBBSC => {
            reveal_strlit("BNBBSC");
            assert(currency_lower_code(c) =~= "bnbbsc"@);
            assert("bnbbsc"@.len() != "xmr"@.len());
            assert("bnbbsc"@.len() != "btc"@.len());
            assert("bnbbsc"@.len() != "eth"@.len());
            assert("bnbbsc"@.len() != "sol"@.len());
            assert("bnbbsc"@.len() != "trx"@.len());
            assert(currency_from_code("bnbbsc"@) == Some(Currency::BNBBSC));
        },
        Currency::USDT => {
            reveal_strlit("USDT");
            assert(currency_lower_code(c) =~= "usdt"@);
            assert("usdt"@.len() != "xmr"@.len());
            assert("usdt"@.len() != "btc"@.len());
            assert("usdt"@.len() != "eth"@.len());
            assert("usdt"@.len() != "sol"@.len());
            assert("usdt"@.len() != "trx"@.len());
            assert("usdt"@.len() != "bnbbsc"@.len());
            assert(currency_from_code("usdt"@) == Some(Currency::USDT));
        },
        Currency::USDC => {
            reveal_strlit("USDC");
            assert(currency_lower_code(c) =~= "usdc"@);
            assert("usdc"@.len() != "xmr"@.len());
            assert("usdc"@.len() != "btc"@.len());
            assert("usdc"@.len() != "eth"@.len());
            assert("usdc"@.len() != "sol"@.len());
            assert("usdc"@.len() != "trx"@.len());
            assert("usdc"@.len() != "bnbbsc"@.len());
            assert("usdc"@[3] != "usdt"@[3]);
            assert(currency_from_code("usdc"@) == Some(Currency::USDC));
        },
        Currency::USDCSOL => {
            reveal_strlit("USDCSOL");
            assert(currency_lower_code(c) =~= "usdcsol"@);
            assert("usdcsol"@.len() != "xmr"@.len());
            assert("usdcsol"@.len() != "btc"@.len());
            assert("usdcsol"@.len() != "eth"@.len());
            assert("usdcsol"@.len() != "sol"@.len());
            assert("usdcsol"@.len() != "trx"@.len());
            assert("usdcsol"@.len() != "bnbbsc"@.len());
            assert("usdcsol"@.len() != "usdt"@.len());
            assert("usdcsol"@.len() != "usdc"@.len());
            assert(currency_from_code("usdcsol"@) == Some(Currency::USDCSOL));
        },
        Currency::USDTERC20 => {
            reveal_strlit("USDTERC20");
            assert(currency_lower_code(c) =~= "usdterc20"@);
            assert("usdterc20"@.len() != "xmr"@.len());
            assert("usdterc20"@.len() != "btc"@.len());
            assert("usdterc20"@.len() != "eth"@.len());
            assert("usdterc20"@.len() != "sol"@.len());
            assert("usdterc20"@.len() != "trx"@.len());
            assert("usdterc20"@.len() != "bnbbsc"@.len());
            assert("usdterc20"@.len() != "usdt"@.len());
            assert("usdterc20"@.len() != "usdc"@.len());
            assert("usdterc20"@.len() != "usdcsol"@.len());
            assert(currency_from_code("usdterc20"@) == Some(Currency::USDTERC20));
        },
        Currency::USDTTRC20 => {
            reveal_strlit("USDTTRC20");
            assert(currency_lower_code(c) =~= "usdttrc20"@);
            assert("usdttrc20"@.len() != "xmr"@.len());
            assert("usdttrc20"@.len() != "btc"@.len());
            assert("usdttrc20"@.len() != "eth"@.len());
            assert("usdttrc20"@.len() != "sol"@.len());
            assert("usdttrc20"@.len() != "trx"@.len());
            assert("usdttrc20"@.len() != "bnbbsc"@.len());
            assert("usdttrc20"@.len() != "usdt"@.len());
            assert("usdttrc20"@.len() != "usdc"@.len());
            assert("usdttrc20"@.len() != "usdcsol"@.len());
            assert("usdttrc20"@[4] != "usdterc20"@[4]);
            assert(currency_from_code("usdttrc20"@) == Some(Currency::USDTTRC20));
        },
        Currency::USDTBSC => {
            reveal_strlit("USDTBSC");
            assert(currency_lower_code(c) =~= "usdtbsc"@);
            assert("usdtbsc"@.len() != "xmr"@.len());
            assert("usdtbsc"@.len() != "btc"@.len());
            assert("usdtbsc"@.len() != "eth"@.len());
            assert("usdtbsc"@.len() != "sol"@.len());
            assert("usdtbsc"@.len() != "trx"@.len());
            assert("usdtbsc"@.len() != "bnbbsc"@.len());
            assert("usdtbsc"@.len() != "usdt"@.len());
            assert("usdtbsc"@.len() != "usdc"@.len());
            assert("usdtbsc"@[3] != "usdcsol"@[3]);
            assert("usdtbsc"@.len() != "usdterc20"@.len());
            assert("usdtbsc"@.len() != "usdttrc20"@.len());
            assert(currency_from_code("usdtbsc"@) == Some(Currency::USDTBSC));
        },
        Currency::USD => {
            reveal_strlit("USD");
            assert(currency_lower_code(c) =~= "usd"@);
            assert("usd"@[0] != "xmr"@[0]);
            assert("usd"@[0] != "btc"@[0]);
            assert("usd"@[0] != "eth"@[0]);
            assert("usd"@[0] != "sol"@[0]);
            assert("usd"@[0] != "trx"@[0]);
            assert("usd"@.len() != "bnbbsc"@.len());
            assert("usd"@.len() != "usdt"@.len());
            assert("usd"@.len() != "usdc"@.len());
            assert("usd"@.len() != "usdcsol"@.len());
            assert("usd"@.len() != "usdterc20"@.len());
            assert("usd"@.len() != "usdttrc20"@.len());
            assert("usd"@.len() != "usdtbsc"@.len());
            assert(currency_from_code("usd"@) == Some(Currency::USD));
        },
        Currency::UNKNOWN => {
            reveal_strlit("UNKNOWN");
            assert(currency_lower_code(c) =~= "unknown"@);
            assert("unknown"@.len() != "xmr"@.len());
            assert("unknown"@.len() != "btc"@.len());
            assert("unknown"@.len() != "eth"@.len());
            assert("unknown"@.len() != "sol"@.len());
            assert("unknown"@.len() != "trx"@.len());
            assert("unknown"@.len() != "bnbbsc"@.len());
            assert("unknown"@.len() != "usdt"@.len());
            assert("unknown"@.len() != "usdc"@.len());
            assert("unknown"@[1] != "usdcsol"@[1]);
            assert("unknown"@.len() != "usdterc20"@.len());
            assert("unknown"@.len() != "usdttrc20"@.len());
            assert("unknown"@[1] != "usdtbsc"@[1]);
            assert("unknown"@.len() != "usd"@.len());
            assert(currency_from_code("unknown"@) == Some(Currency::UNKNOWN));
        },
    }
}

/// The currencies offered for payments are every currency but `USD` and `UNKNOWN`,
/// each once, in declaration order.
pub proof fn lemma_listed_currencies()
    ensures
        listed_currencies() == seq![
            Currency::XMR,
            Currency::BTC,
            Currency::ETH,
            Currency::SOL,
            Currency::TRX,
            Currency::BNBBSC,
            Currency::USDT,
            Currency::USDC,
            Currency::USDCSOL,
            Currency::USDTERC20,
            Currency::USDTTRC20,
            Currency::USDTBSC,
        ],
{
    reveal_with_fuel(Seq::filter, 15);
    let order = currency_order();
    assert(order.take(14).drop_last() =~= order.take(13));
    assert(order.take(13).drop_last() =~= order.take(12));
    assert(order.take(12).drop_last() =~= order.take(11));
    assert(order.take(11).drop_last() =~= order.take(10));
    assert(order.take(10).drop_last() =~= order.take(9));
    assert(order.take(9).drop_last() =~= order.take(8));
    assert(order.take(8).drop_last() =~= order.take(7));
    assert(order.take(7).drop_last() =~= order.take(6));
    assert(order.take(6).drop_last() =~= order.take(5));
    assert(order.take(5).drop_last() =~= order.take(4));
    assert(order.take(4).drop_last() =~= order.take(3));
    assert(order.take(3).drop_last() =~= order.take(2));
    assert(order.take(2).drop_last() =~= order.take(1));
    assert(order.take(1).drop_last() =~= order.take(0));
    assert(order.take(14) =~= order);
    assert(order.filter(listed_pred()) =~= seq![
        Currency::XMR,
        Currency::BTC,
        Currency::ETH,
        Currency::SOL,
        Currency::TRX,
        Currency::BNBBSC,
        Currency::USDT,
        Currency::USDC,
        Currency::USDCSOL,
        Currency::USDTERC20,
        Currency::USDTTRC20,
        Currency::USDTBSC,
    ]);
}

/// The stablecoins are the currencies whose code begins with `USD`, other than fiat
/// `USD` itself: `USDT`, `USDC`, `USDCSOL`, `USDTERC20`, `USDTTRC20` and `USDTBSC`.
pub proof fn lemma_stablecoins()
    ensures
        stablecoins() == seq![
            Currency::USDT,
            Currency::USDC,
            Currency::USDCSOL,
            Currency::USDTERC20,
            Currency::USDTTRC20,
            Currency::USDTBSC,
        ],
{
    lemma_listed_currencies();
    reveal_strlit("USD");
    let p = stablecoin_pred();
    let t0 = Seq::<Currency>::empty();
    assert(t0.filter(p) =~= t0) by {
        reveal_with_fuel(Seq::filter, 1);
    }
    reveal_strlit("XMR");
    let t1 = t0.push(Currency::XMR);
    assert("USD"@[0] != "XMR"@[0]);
    assert(!is_stablecoin(Currency::XMR));
    t0.lemma_filter_push(Currency::XMR, p);
    assert(t1.filter(p) =~= seq![]);
    reveal_strlit("BTC");
    let t2 = t1.push(Currency::BTC);
    assert("USD"@[0] != "BTC"@[0]);
    assert(!is_stablecoin(Currency::BTC));
    t1.lemma_filter_push(Currency::BTC, p);
    assert(t2.filter(p) =~= seq![]);
    reveal_strlit("ETH");
    let t3 = t2.push(Currency::ETH);
    assert("USD"@[0] != "ETH"@[0]);
    assert(!is_stablecoin(Currency::ETH));
    t2.lemma_filter_push(Currency::ETH, p);
    assert(t3.filter(p) =~= seq![]);
    reveal_strlit("SOL");
    let t4 = t3.push(Currency::SOL);
    assert("USD"@[0] != "SOL"@[0]);
    assert(!is_stablecoin(Currency::SOL));
    t3.lemma_filter_push(Currency::SOL, p);
    assert(t4.filter(p) =~= seq![]);
    reveal_strlit("TRX");
    let t5 = t4.push(Currency::TRX);
    assert("USD"@[0] != "TRX"@[0]);
    assert(!is_stablecoin(Currency::TRX));
    t4.lemma_filter_push(Currency::TRX, p);
    assert(t5.filter(p) =~= seq![]);
    reveal_strlit("BNBBSC");
    let t6 = t5.push(Currency::BNBBSC);
    assert("USD"@[0] != "BNBBSC"@[0]);
    assert(!is_stablecoin(Currency::BNBBSC));
    t5.lemma_filter_push(Currency::BNBBSC, p);
    assert(t6.filter(p) =~= seq![]);
    reveal_strlit("USDT");
    let t7 = t6.push(Currency::USDT);
    assert(is_stablecoin(Currency::USDT));
    t6.lemma_filter_push(Currency::USDT, p);
    assert(t7.filter(p) =~= seq![Currency::USDT]);
    reveal_strlit("USDC");
    let t8 = t7.push(Currency::USDC);
    assert(is_stablecoin(Currency::USDC));
    t7.lemma_filter_push(Currency::USDC, p);
    assert(t8.filter(p) =~= seq![Currency::USDT, Currency::USDC]);
    reveal_strlit("USDCSOL");
    let t9 = t8.push(Currency::USDCSOL);
    assert(is_stablecoin(Currency::USDCSOL));
    t8.lemma_filter_push(Currency::USDCSOL, p);
    assert(t9.filter(p) =~= seq![Currency::USDT, Currency::USDC, Currency::USDCSOL]);
    reveal_strlit("USDTERC20");
    let t10 = t9.push(Currency::USDTERC20);
    assert(is_stablecoin(Currency::USDTERC20));
    t9.lemma_filter_push(Currency::USDTERC20, p);
    assert(t10.filter(p) =~= seq![Currency::USDT, Currency::USDC, Currency::USDCSOL, Currency::USDTERC20]);
    reveal_strlit("USDTTRC20");
    let t11 = t10.push(Currency::USDTTRC20);
    assert(is_stablecoin(Currency::USDTTRC20));
    t10.lemma_filter_push(Currency::USDTTRC20, p);
    assert(t11.filter(p) =~= seq![Currency::USDT, Currency::USDC, Currency::USDCSOL, Currency::USDTERC20, Currency::USDTTRC20]);
    reveal_strlit("USDTBSC");
    let t12 = t11.push(Currency::USDTBSC);
    assert(is_stablecoin(Currency::USDTBSC));
    t11.lemma_filter_push(Currency::USDTBSC, p);
    assert(t12.filter(p) =~= seq![Currency::USDT, Currency::USDC, Currency::USDCSOL, Currency::USDTERC20, Currency::USDTTRC20, Currency::USDTBSC]);
    assert(t12 =~= listed_currencies());
}

/// Whether a currency is a form of Tether, on whichever chain.
pub open spec fn is_tether(c: Currency) -> bool {
    ||| c == Currency::USDT
    ||| c == Currency::USDTERC20
    ||| c == Currency::USDTTRC20
    ||| c == Currency::USDTBSC
}

/// Whether a currency is a form of USD Coin, on whichever chain.
pub open spec fn is_usd_coin(c: Currency) -> bool {
    c == Currency::USDC || c == Currency::USDCSOL
}

/// Whether two currencies are one asset: the same currency, or forms of one stablecoin.
pub open spec fn same_asset(a: Currency, b: Currency) -> bool {
    ||| a == b
    ||| is_tether(a) && is_tether(b)
    ||| is_usd_coin(a) && is_usd_coin(b)
}

/// Whether a character may stand in a CoinGecko id: a lower-case ASCII letter or `-`.
pub open spec fn is_id_char(c: char) -> bool {
    ('a' <= c && c <= 'z') || c == '-'
}

/// Distinct currencies have distinct official names, and no name is empty.
pub proof fn lemma_names_distinct(a: Currency, b: Currency)
    ensures
        currency_name(a).len() > 0,
        a != b ==> currency_name(a) != currency_name(b),
{
    reveal_strlit("Monero");
    reveal_strlit("Bitcoin");
    reveal_strlit("Ethereum");
    reveal_strlit("Solana");
    reveal_strlit("Tron");
    reveal_strlit("BNB (Binance Smart Chain)");
    reveal_strlit("Tether USD");
    reveal_strlit("USD Coin");
    reveal_strlit("USD Coin (Solana)");
    reveal_strlit("Tether USD (ERC20)");
    reveal_strlit("Tether USD (TRC20)");
    reveal_strlit("Tether USD (BEP20)");
    reveal_strlit("US Dollar");
    reveal_strlit("Unknown");
    assert("Monero"@.len() != "Bitcoin"@.len());
    assert("Monero"@.len() != "Ethereum"@.len());
    assert("Monero"@[0] != "Solana"@[0]);
    assert("Monero"@.len() != "Tron"@.len());
    assert("Monero"@.len() != "BNB (Binance Smart Chain)"@.len());
    assert("Monero"@.len() != "Tether USD"@.len());
    assert("Monero"@.len() != "USD Coin"@.len());
    assert("Monero"@.len() != "USD Coin (Solana)"@.len());
    assert("Monero"@.len() != "Tether USD (ERC20)"@.len());
    assert("Monero"@.len() != "Tether USD (TRC20)"@.len());
    assert("Monero"@.len() != "Tether USD (BEP20)"@.len());
    assert("Monero"@.len() != "US Dollar"@.len());
    assert("Monero"@.len() != "Unknown"@.len());
    assert("Bitcoin"@.len() != "Ethereum"@.len());
    assert("Bitcoin"@.len() != "Solana"@.len());
    assert("Bitcoin"@.len() != "Tron"@.len());
    assert("Bitcoin"@.len() != "BNB (Binance Smart Chain)"@.len());
    assert("Bitcoin"@.len() != "Tether USD"@.len());
    assert("Bitcoin"@.len() != "USD Coin"@.len());
    assert("Bitcoin"@.len() != "USD Coin (Solana)"@.len());
    assert("Bitcoin"@.len() != "Tether USD (ERC20)"@.len());
    assert("Bitcoin"@.len() != "Tether USD (TRC20)"@.len());
    assert("Bitcoin"@.len() != "Tether USD (BEP20)"@.len());
    assert("Bitcoin"@.len() != "US Dollar"@.len());
    assert("Bitcoin"@[0] != "Unknown"@[0]);
    assert("Ethereum"@.len() != "Solana"@.len());
    assert("Ethereum"@.len() != "Tron"@.len());
    assert("Ethereum"@.len() != "BNB (Binance Smart Chain)"@.len());
    assert("Ethereum"@.len() != "Tether USD"@.len());
    assert("Ethereum"@[0] != "USD Coin"@[0]);
    assert("Ethereum"@.len() != "USD Coin (Solana)"@.len());
    assert("Ethereum"@.len() != "Tether USD (ERC20)"@.len());
    assert("Ethereum"@.len() != "Tether USD (TRC20)"@.len());
    assert("Ethereum"@.len() != "Tether USD (BEP20)"@.len());
    assert("Ethereum"@.len() != "US Dollar"@.len());
    assert("Ethereum"@.len() != "Unknown"@.len());
    assert("Solana"@.len() != "Tron"@.len());
    assert("Solana"@.len() != "BNB (Binance Smart Chain)"@.len());
    assert("Solana"@.len() != "Tether USD"@.len());
    assert("Solana"@.len() != "USD Coin"@.len());
    assert("Solana"@.len() != "USD Coin (Solana)"@.len());
    assert("Solana"@.len() != "Tether USD (ERC20)"@.len());
    assert("Solana"@.len() != "Tether USD (TRC20)"@.len());
    assert("Solana"@.len() != "Tether USD (BEP20)"@.len());
    assert("Solana"@.len() != "US Dollar"@.len());
    assert("Solana"@.len() != "Unknown"@.len());
    assert("Tron"@.len() != "BNB (Binance Smart Chain)"@.len());
    assert("Tron"@.len() != "Tether USD"@.len());
    assert("Tron"@.len() != "USD Coin"@.len());
    assert("Tron"@.len() != "USD Coin (Solana)"@.len());
    assert("Tron"@.len() != "Tether USD (ERC20)"@.len());
    assert("Tron"@.len() != "Tether USD (TRC20)"@.len());
    assert("Tron"@.len() != "Tether USD (BEP20)"@.len());
    assert("Tron"@.len() != "US Dollar"@.len());
    assert("Tron"@.len() != "Unknown"@.len());
    assert("BNB (Binance Smart Chain)"@.len() != "Tether USD"@.len());
    assert("BNB (Binance Smart Chain)"@.len() != "USD Coin"@.len());
    assert("BNB (Binance Smart Chain)"@.len() != "USD Coin (Solana)"@.len());
    assert("BNB (Binance Smart Chain)"@.len() != "Tether USD (ERC20)"@.len());
    assert("BNB (Binance Smart Chain)"@.len() != "Tether USD (TRC20)"@.len());
    assert("BNB (Binance Smart Chain)"@.len() != "Tether USD (BEP20)"@.len());
    assert("BNB (Binance Smart Chain)"@.len() != "US Dollar"@.len());
    assert("BNB (Binance Smart Chain)"@.len() != "Unknown"@.len());
    assert("Tether USD"@.len() != "USD Coin"@.len());
    assert("Tether USD"@.len() != "USD Coin (Solana)"@.len());
    assert("Tether USD"@.len() != "Tether USD (ERC20)"@.len());
    assert("Tether USD"@.len() != "Tether USD (TRC20)"@.len());
    assert("Tether USD"@.len() != "Tether USD (BEP20)"@.len());
    assert("Tether USD"@.len() != "US Dollar"@.len());
    assert("Tether USD"@.len() != "Unknown"@.len());
    assert("USD Coin"@.len() != "USD Coin (Solana)"@.len());
    assert("USD Coin"@.len() != "Tether USD (ERC20)"@.len());
    assert("USD Coin"@.len() != "Tether USD (TRC20)"@.len());
    assert("USD Coin"@.len() != "Tether USD (BEP20)"@.len());
    assert("USD Coin"@.len() != "US Dollar"@.len());
    assert("USD Coin"@.len() != "Unknown"@.len());
    assert("USD Coin (Solana)"@.len() != "Tether USD (ERC20)"@.len());
    assert("USD Coin (Solana)"@.len() != "Tether USD (TRC20)"@.len());
    assert("USD Coin (Solana)"@.len() != "Tether USD (BEP20)"@.len());
    assert("USD Coin (Solana)"@.len() != "US Dollar"@.len());
    assert("USD Coin (Solana)"@.len() != "Unknown"@.len());
    assert("Tether USD (ERC20)"@[12] != "Tether USD (TRC20)"@[12]);
    assert("Tether USD (ERC20)"@[12] != "Tether USD (BEP20)"@[12]);
    assert("Tether USD (ERC20)"@.len() != "US Dollar"@.len());
    assert("Tether USD (ERC20)"@.len() != "Unknown"@.len());
    assert("Tether USD (TRC20)"@[12] != "Tether USD (BEP20)"@[12]);
    assert("Tether USD (TRC20)"@.len() != "US Dollar"@.len());
    assert("Tether USD (TRC20)"@.len() != "Unknown"@.len());
    assert("Tether USD (BEP20)"@.len() != "US Dollar"@.len());
    assert("Tether USD (BEP20)"@.len() != "Unknown"@.len());
    assert("US Dollar"@.len() != "Unknown"@.len());
}

/// Two currencies share a CoinGecko id exactly when they are one asset, whatever the
/// chain; every id is a non-empty text of lower-case ASCII letters and `-`.
pub proof fn lemma_cg_id_per_asset(a: Currency, b: Currency)
    ensures
        currency_cg_id(a) == currency_cg_id(b) <==> same_asset(a, b),
        currency_cg_id(a).len() > 0,
        forall|i: int| 0 <= i < currency_cg_id(a).len() ==> is_id_char(#[trigger] currency_cg_id(a)[i]),
{
    reveal_strlit("monero");
    reveal_strlit("bitcoin");
    reveal_strlit("ethereum");
    reveal_strlit("solana");
    reveal_strlit("tron");
    reveal_strlit("binancecoin");
    reveal_strlit("tether");
    reveal_strlit("usd-coin");
    reveal_strlit("usd");
    reveal_strlit("unknown");
    assert("monero"@.len() != "bitcoin"@.len());
    assert("monero"@.len() != "ethereum"@.len());
    assert("monero"@[0] != "solana"@[0]);
    assert("monero"@.len() != "tron"@.len());
    assert("monero"@.len() != "binancecoin"@.len());
    assert("monero"@[0] != "tether"@[0]);
    assert("monero"@.len() != "usd-coin"@.len());
    assert("monero"@.len() != "usd"@.len());
    assert("monero"@.len() != "unknown"@.len());
    assert("bitcoin"@.len() != "ethereum"@.len());
    assert("bitcoin"@.len() != "solana"@.len());
    assert("bitcoin"@.len() != "tron"@.len());
    assert("bitcoin"@.len() != "binancecoin"@.len());
    assert("bitcoin"@.len() != "tether"@.len());
    assert("bitcoin"@.len() != "usd-coin"@.len());
    assert("bitcoin"@.len() != "usd"@.len());
    assert("bitcoin"@[0] != "unknown"@[0]);
    assert("ethereum"@.len() != "solana"@.len());
    assert("ethereum"@.len() != "tron"@.len());
    assert("ethereum"@.len() != "binancecoin"@.len());
    assert("ethereum"@.len() != "tether"@.len());
    assert("ethereum"@[0] != "usd-coin"@[0]);
    assert("ethereum"@.len() != "usd"@.len());
    assert("ethereum"@.len() != "unknown"@.len());
    assert("solana"@.len() != "tron"@.len());
    assert("solana"@.len() != "binancecoin"@.len());
    assert("solana"@[0] != "tether"@[0]);
    assert("solana"@.len() != "usd-coin"@.len());
    assert("solana"@.len() != "usd"@.len());
    assert("solana"@.len() != "unknown"@.len());
    assert("tron"@.len() != "binancecoin"@.len());
    assert("tron"@.len() != "tether"@.len());
    assert("tron"@.len() != "usd-coin"@.len());
    assert("tron"@.len() != "usd"@.len());
    assert("tron"@.len() != "unknown"@.len());
    assert("binancecoin"@.len() != "tether"@.len());
    assert("binancecoin"@.len() != "usd-coin"@.len());
    assert("binancecoin"@.len() != "usd"@.len());
    assert("binancecoin"@.len() != "unknown"@.len());
    assert("tether"@.len() != "usd-coin"@.len());
    assert("tether"@.len() != "usd"@.len());
    assert("tether"@.len() != "unknown"@.len());
    assert("usd-coin"@.len() != "usd"@.len());
    assert("usd-coin"@.len() != "unknown"@.len());
    assert("usd"@.len() != "unknown"@.len());
}

/// A currency's token standard and its network agree: an ERC-20 token lives on
/// Ethereum, a TRC-20 token on Tron, a BEP-20 token on the BNB Smart Chain and an SPL
/// token on Solana; fiat money and the unknown currency are the only ones of their
/// kind on both counts; and a native coin other than `BNBBSC` names its network by its
/// lower-case code.
pub proof fn lemma_protocol_network(c: Currency)
    ensures
        currency_protocol(c) == "erc20"@ ==> currency_network(c) == "eth"@,
        currency_protocol(c) == "trc20"@ ==> currency_network(c) == "trx"@,
        currency_protocol(c) == "bep20"@ ==> currency_network(c) == "bsc"@,
        currency_protocol(c) == "spl"@ ==> currency_network(c) == "sol"@,
        currency_protocol(c) == "fiat"@ <==> currency_network(c) == "fiat"@,
        currency_protocol(c) == "unknown"@ <==> currency_network(c) == "unknown"@,
        currency_protocol(c) == "native"@ && c != Currency::BNBBSC ==> currency_network(c)
            == currency_lower_code(c),
{
    reveal_strlit("native");
    reveal_strlit("erc20");
    reveal_strlit("spl");
    reveal_strlit("trc20");
    reveal_strlit("bep20");
    reveal_strlit("fiat");
    reveal_strlit("unknown");
    assert("native"@.len() != "erc20"@.len());
    assert("native"@.len() != "spl"@.len());
    assert("native"@.len() != "trc20"@.len());
    assert("native"@.len() != "bep20"@.len());
    assert("native"@.len() != "fiat"@.len());
    assert("native"@.len() != "unknown"@.len());
    assert("erc20"@.len() != "spl"@.len());
    assert("erc20"@[0] != "trc20"@[0]);
    assert("erc20"@[0] != "bep20"@[0]);
    assert("erc20"@.len() != "fiat"@.len());
    assert("erc20"@.len() != "unknown"@.len());
    assert("spl"@.len() != "trc20"@.len());
    assert("spl"@.len() != "bep20"@.len());
    assert("spl"@.len() != "fiat"@.len());
    assert("spl"@.len() != "unknown"@.len());
    assert("trc20"@[0] != "bep20"@[0]);
    assert("trc20"@.len() != "fiat"@.len());
    assert("trc20"@.len() != "unknown"@.len());
    assert("bep20"@.len() != "fiat"@.len());
    assert("bep20"@.len() != "unknown"@.len());
    assert("fiat"@.len() != "unknown"@.len());
    reveal_strlit("xmr");
    reveal_strlit("btc");
    reveal_strlit("eth");
    reveal_strlit("sol");
    reveal_strlit("trx");
    reveal_strlit("bsc");
    reveal_strlit("fiat");
    reveal_strlit("unknown");
    assert("xmr"@[0] != "btc"@[0]);
    assert("xmr"@[0] != "eth"@[0]);
    assert("xmr"@[0] != "sol"@[0]);
    assert("xmr"@[0] != "trx"@[0]);
    assert("xmr"@[0] != "bsc"@[0]);
    assert("xmr"@.len() != "fiat"@.len());
    assert("xmr"@.len() != "unknown"@.len());
    assert("btc"@[0] != "eth"@[0]);
    assert("btc"@[0] != "sol"@[0]);
    assert("btc"@[0] != "trx"@[0]);
    assert("btc"@[1] != "bsc"@[1]);
    assert("btc"@.len() != "fiat"@.len());
    assert("btc"@.len() != "unknown"@.len());
    assert("eth"@[0] != "sol"@[0]);
    assert("eth"@[0] != "trx"@[0]);
    assert("eth"@[0] != "bsc"@[0]);
    assert("eth"@.len() != "fiat"@.len());
    assert("eth"@.len() != "unknown"@.len());
    assert("sol"@[0] != "trx"@[0]);
    assert("sol"@[0] != "bsc"@[0]);
    assert("sol"@.len() != "fiat"@.len());
    assert("sol"@.len() != "unknown"@.len());
    assert("trx"@[0] != "bsc"@[0]);
    assert("trx"@.len() != "fiat"@.len());
    assert("trx"@.len() != "unknown"@.len());
    assert("bsc"@.len() != "fiat"@.len());
    assert("bsc"@.len() != "unknown"@.len());
    assert("fiat"@.len() != "unknown"@.len());
    match c {
        Currency::XMR => {
            reveal_strlit("XMR");
            assert(currency_lower_code(c) =~= "xmr"@);
        },
        Currency::BTC => {
            reveal_strlit("BTC");
            assert(currency_lower_code(c) =~= "btc"@);
        },
        Currency::ETH => {
            reveal_strlit("ETH");
            assert(currency_lower_code(c) =~= "eth"@);
        },
        Currency::SOL => {
            reveal_strlit("SOL");
            assert(currency_lower_code(c) =~= "sol"@);
        },
        Currency::TRX => {
            reveal_strlit("TRX");
            assert(currency_lower_code(c) =~= "trx"@);
        },
        _ => {},
    }
}

/// The native coins are exactly the listed currencies that are no stablecoins (`XMR`,
/// `BTC`, `ETH`, `SOL`, `TRX`, `BNBBSC`); every stablecoin is a token of one of the
/// standards ERC-20, TRC-20, BEP-20 or SPL.
pub proof fn lemma_native_coins(c: Currency)
    ensures
        currency_protocol(c) == "native"@ <==> listed_currencies().contains(c)
            && !stablecoins().contains(c),
        stablecoins().contains(c) ==> {
            ||| currency_protocol(c) == "erc20"@
            ||| currency_protocol(c) == "trc20"@
            ||| currency_protocol(c) == "bep20"@
            ||| currency_protocol(c) == "spl"@
        },
{
    lemma_listed_currencies();
    lemma_stablecoins();
    reveal_strlit("native");
    reveal_strlit("erc20");
    reveal_strlit("spl");
    reveal_strlit("trc20");
    reveal_strlit("bep20");
    reveal_strlit("fiat");
    reveal_strlit("unknown");
    assert("native"@.len() != "erc20"@.len());
    assert("native"@.len() != "spl"@.len());
    assert("native"@.len() != "trc20"@.len());
    assert("native"@.len() != "bep20"@.len());
    assert("native"@.len() != "fiat"@.len());
    assert("native"@.len() != "unknown"@.len());
    assert("erc20"@.len() != "spl"@.len());
    assert("erc20"@[0] != "trc20"@[0]);
    assert("erc20"@[0] != "bep20"@[0]);
    assert("erc20"@.len() != "fiat"@.len());
    assert("erc20"@.len() != "unknown"@.len());
    assert("spl"@.len() != "trc20"@.len());
    assert("spl"@.len() != "bep20"@.len());
    assert("spl"@.len() != "fiat"@.len());
    assert("spl"@.len() != "unknown"@.len());
    assert("trc20"@[0] != "bep20"@[0]);
    assert("trc20"@.len() != "fiat"@.len());
    assert("trc20"@.len() != "unknown"@.len());
    assert("bep20"@.len() != "fiat"@.len());
    assert("bep20"@.len() != "unknown"@.len());
    assert("fiat"@.len() != "unknown"@.len());
    let listed = listed_currencies();
    let stable = stablecoins();
    match c {
        Currency::XMR => { assert(listed[0] == c); },
        Currency::BTC => { assert(listed[1] == c); },
        Currency::ETH => { assert(listed[2] == c); },
        Currency::SOL => { assert(listed[3] == c); },
        Currency::TRX => { assert(listed[4] == c); },
        Currency::BNBBSC => { assert(listed[5] == c); },
        Currency::USDT => { assert(listed[6] == c); assert(stable[0] == c); },
        Currency::USDC => { assert(listed[7] == c); assert(stable[1] == c); },
        Currency::USDCSOL => { assert(listed[8] == c); assert(stable[2] == c); },
        Currency::USDTERC20 => { assert(listed[9] == c); assert(stable[3] == c); },
        Currency::USDTTRC20 => { assert(listed[10] == c); assert(stable[4] == c); },
        Currency::USDTBSC => { assert(listed[11] == c); assert(stable[5] == c); },
        Currency::USD => {  },
        Currency::UNKNOWN => {  },
    }
}


impl Currency {
    /// The currency's code, as its `Display` writes it (`XMR`, `USDTERC20`, ...).
    pub fn to_string(&self) -> (res: String)
        ensures
            res@ == currency_code(*self),
    {
        match self {
            Currency::XMR => String::from_str("XMR"),
            Currency::BTC => String::from_str("BTC"),
            Currency::ETH => String::from_str("ETH"),
            Currency::SOL => String::from_str("SOL"),
            Currency::TRX => String::from_str("TRX"),
            Currency::BNBBSC => String::from_str("BNBBSC"),
            Currency::USDT => String::from_str("USDT"),
            Currency::USDC => String::from_str("USDC"),
            Currency::USDCSOL => String::from_str("USDCSOL"),
            Currency::USDTERC20 => String::from_str("USDTERC20"),
            Currency::USDTTRC20 => String::from_str("USDTTRC20"),
            Currency::USDTBSC => String::from_str("USDTBSC"),
            Currency::USD => String::from_str("USD"),
            Currency::UNKNOWN => String::from_str("UNKNOWN"),
        }
    }

    /// The official currency name.
    pub fn name(&self) -> (res: String)
        ensures
            res@ == currency_name(*self),
    {
        match self {
            Currency::XMR => String::from_str("Monero"),
            Currency::BTC => String::from_str("Bitcoin"),
            Currency::ETH => String::from_str("Ethereum"),
            Currency::SOL => String::from_str("Solana"),
            Currency::TRX => String::from_str("Tron"),
            Currency::BNBBSC => String::from_str("BNB (Binance Smart Chain)"),
            Currency::USDT => String::from_str("Tether USD"),
            Currency::USDC => String::from_str("USD Coin"),
            Currency::USDCSOL => String::from_str("USD Coin (Solana)"),
            Currency::USDTERC20 => String::from_str("Tether USD (ERC20)"),
            Currency::USDTTRC20 => String::from_str("Tether USD (TRC20)"),
            Currency::USDTBSC => String::from_str("Tether USD (BEP20)"),
            Currency::USD => String::from_str("US Dollar"),
            Currency::UNKNOWN => String::from_str("Unknown"),
        }
    }

    /// The CoinGecko / NOWPayments id.
    pub fn cg_id(&self) -> (res: String)
        ensures
            res@ == currency_cg_id(*self),
    {
        match self {
            Currency::XMR => String::from_str("monero"),
            Currency::BTC => String::from_str("bitcoin"),
            Currency::ETH => String::from_str("ethereum"),
            Currency::SOL => String::from_str("solana"),
            Currency::TRX => String::from_str("tron"),
            Currency::BNBBSC => String::from_str("binancecoin"),
            Currency::USDT => String::from_str("tether"),
            Currency::USDC => String::from_str("usd-coin"),
            Currency::USDCSOL => String::from_str("usd-coin"),
            Currency::USDTERC20 => String::from_str("tether"),
            Currency::USDTTRC20 => String::from_str("tether"),
            Currency::USDTBSC => String::from_str("tether"),
            Currency::USD => String::from_str("usd"),
            Currency::UNKNOWN => String::from_str("unknown"),
        }
    }

    /// The currency network (used for URI schemes).
    pub fn network(&self) -> (res: String)
        ensures
            res@ == currency_network(*self),
    {
        match self {
            Currency::XMR => String::from_str("xmr"),
            Currency::BTC => String::from_str("btc"),
            Currency::ETH => String::from_str("eth"),
            Currency::SOL => String::from_str("sol"),
            Currency::TRX => String::from_str("trx"),
            Currency::BNBBSC => String::from_str("bsc"),
            Currency::USDT => String::from_str("eth"),
            Currency::USDC => String::from_str("eth"),
            Currency::USDCSOL => String::from_str("sol"),
            Currency::USDTERC20 => String::from_str("eth"),
            Currency::USDTTRC20 => String::from_str("trx"),
            Currency::USDTBSC => String::from_str("bsc"),
            Currency::USD => String::from_str("fiat"),
            Currency::UNKNOWN => String::from_str("unknown"),
        }
    }

    /// The token standard, `native` for coins of their own chain.
    pub fn protocol(&self) -> (res: &'static str)
        ensures
            res@ == currency_protocol(*self),
    {
        match self {
            Currency::XMR => "native",
            Currency::BTC => "native",
            Currency::ETH => "native",
            Currency::SOL => "native",
            Currency::TRX => "native",
            Currency::BNBBSC => "native",
            Currency::USDT => "erc20",
            Currency::USDC => "erc20",
            Currency::USDCSOL => "spl",
            Currency::USDTERC20 => "erc20",
            Currency::USDTTRC20 => "trc20",
            Currency::USDTBSC => "bep20",
            Currency::USD => "fiat",
            Currency::UNKNOWN => "unknown",
        }
    }

    /// The currency's code in lower case, as the API's query parameters write it.
    pub fn lower_code(&self) -> (res: String)
        ensures
            res@ == currency_lower_code(*self),
    {
        match self {
            Currency::XMR => {
                proof {
                    reveal_strlit("XMR");
                    reveal_strlit("xmr");
                    assert("xmr"@ =~= ascii_lower("XMR"@));
                }
                String::from_str("xmr")
            },
            Currency::BTC => {
                proof {
                    reveal_strlit("BTC");
                    reveal_strlit("btc");
                    assert("btc"@ =~= ascii_lower("BTC"@));
                }
                String::from_str("btc")
            },
            Currency::ETH => {
                proof {
                    reveal_strlit("ETH");
                    reveal_strlit("eth");
                    assert("eth"@ =~= ascii_lower("ETH"@));
                }
                String::from_str("eth")
            },
            Currency::SOL => {
                proof {
                    reveal_strlit("SOL");
                    reveal_strlit("sol");
                    assert("sol"@ =~= ascii_lower("SOL"@));
                }
                String::from_str("sol")
            },
            Currency::TRX => {
                proof {
                    reveal_strlit("TRX");
                    reveal_strlit("trx");
                    assert("trx"@ =~= ascii_lower("TRX"@));
                }
                String::from_str("trx")
            },
            Currency::BNBBSC => {
                proof {
                    reveal_strlit("BNBBSC");
                    reveal_strlit("bnbbsc");
                    assert("bnbbsc"@ =~= ascii_lower("BNBBSC"@));
                }
                String::from_str("bnbbsc")
            },
            Currency::USDT => {
                proof {
                    reveal_strlit("USDT");
                    reveal_strlit("usdt");
                    assert("usdt"@ =~= ascii_lower("USDT"@));
                }
                String::from_str("usdt")
            },
            Currency::USDC => {
                proof {
                    reveal_strlit("USDC");
                    reveal_strlit("usdc");
                    assert("usdc"@ =~= ascii_lower("USDC"@));
                }
                String::from_str("usdc")
            },
            Currency::USDCSOL => {
                proof {
                    reveal_strlit("USDCSOL");
                    reveal_strlit("usdcsol");
                    assert("usdcsol"@ =~= ascii_lower("USDCSOL"@));
                }
                String::from_str("usdcsol")
            },
            Currency::USDTERC20 => {
                proof {
                    reveal_strlit("USDTERC20");
                    reveal_strlit("usdterc20");
                    assert("usdterc20"@ =~= ascii_lower("USDTERC20"@));
                }
                String::from_str("usdterc20")
            },
            Currency::USDTTRC20 => {
                proof {
                    reveal_strlit("USDTTRC20");
                    reveal_strlit("usdttrc20");
                    assert("usdttrc20"@ =~= ascii_lower("USDTTRC20"@));
                }
                String::from_str("usdttrc20")
            },
            Currency::USDTBSC => {
                proof {
                    reveal_strlit("USDTBSC");
                    reveal_strlit("usdtbsc");
                    assert("usdtbsc"@ =~= ascii_lower("USDTBSC"@));
                }
                String::from_str("usdtbsc")
            },
            Currency::USD => {
                proof {
                    reveal_strlit("USD");
                    reveal_strlit("usd");
                    assert("usd"@ =~= ascii_lower("USD"@));
                }
                String::from_str("usd")
            },
            Currency::UNKNOWN => {
                proof {
                    reveal_strlit("UNKNOWN");
                    reveal_strlit("unknown");
                    assert("unknown"@ =~= ascii_lower("UNKNOWN"@));
                }
                String::from_str("unknown")
            },
        }
    }

    /// Reads a currency from its lower-case code; any other text is an error.
    pub fn parse(s: &str) -> (res: Result<Currency, UnknownCurrency>)
        ensures
            res == (match currency_from_code(s@) {
                Some(c) => Ok(c),
                None => Err(UnknownCurrency),
            }),
    {
        if same_text(s, "xmr") {
            Ok(Currency::XMR)
        } else if same_text(s, "btc") {
            Ok(Currency::BTC)
        } else if same_text(s, "eth") {
            Ok(Currency::ETH)
        } else if same_text(s, "sol") {
            Ok(Currency::SOL)
        } else if same_text(s, "trx") {
            Ok(Currency::TRX)
        } else if same_text(s, "bnbbsc") {
            Ok(Currency::BNBBSC)
        } else if same_text(s, "usdt") {
            Ok(Currency::USDT)
        } else if same_text(s, "usdc") {
            Ok(Currency::USDC)
        } else if same_text(s, "usdcsol") {
            Ok(Currency::USDCSOL)
        } else if same_text(s, "usdterc20") {
            Ok(Currency::USDTERC20)
        } else if same_text(s, "usdttrc20") {
            Ok(Currency::USDTTRC20)
        } else if same_text(s, "usdtbsc") {
            Ok(Currency::USDTBSC)
        } else if same_text(s, "usd") {
            Ok(Currency::USD)
        } else if same_text(s, "unknown") {
            Ok(Currency::UNKNOWN)
        } else {
            Err(UnknownCurrency)
        }
    }

    /// Every currency, in declaration order.
    fn every_currency() -> (res: Vec<Currency>)
        ensures
            res@ == currency_order(),
    {
        let v = vec![
            Currency::XMR,
            Currency::BTC,
            Currency::ETH,
            Currency::SOL,
            Currency::TRX,
            Currency::BNBBSC,
            Currency::USDT,
            Currency::USDC,
            Currency::USDCSOL,
            Currency::USDTERC20,
            Currency::USDTTRC20,
            Currency::USDTBSC,
            Currency::USD,
            Currency::UNKNOWN,
        ];
        assert(v@ =~= currency_order());
        v
    }

    /// All currencies offered for payments: every currency but fiat money (`USD`) and
    /// `UNKNOWN`, in declaration order.
    pub fn get_all() -> (res: Vec<Currency>)
        ensures
            res@ == listed_currencies(),
    {
        let every = Self::every_currency();
        let mut res: Vec<Currency> = Vec::new();
        let mut i: usize = 0;
        while i < every.len()
            invariant
                every@ == currency_order(),
                i <= every@.len(),
                res@ == every@.take(i as int).filter(listed_pred()),
            decreases every@.len() - i,
        {
            let c = every[i];
            proof {
                reveal_with_fuel(Seq::filter, 1);
            }
            assert(every@.take(i + 1).drop_last() =~= every@.take(i as int));
            assert(every@.take(i + 1).last() == c);
            assert(listed_pred()(c) == is_listed(c));
            if c != Currency::USD && c != Currency::UNKNOWN {
                res.push(c);
            }
            i = i + 1;
        }
        assert(every@.take(every@.len() as int) =~= every@);
        res
    }

    /// The stablecoins among the currencies of `get_all`: those whose code begins with
    /// `USD`, in declaration order.
    pub fn get_stablecoins() -> (res: Vec<Currency>)
        ensures
            res@ == stablecoins(),
    {
        let all = Self::get_all();
        let mut res: Vec<Currency> = Vec::new();
        let mut i: usize = 0;
        while i < all.len()
            invariant
                all@ == listed_currencies(),
                i <= all@.len(),
                res@ == all@.take(i as int).filter(stablecoin_pred()),
            decreases all@.len() - i,
        {
            let c = all[i];
            proof {
                reveal_with_fuel(Seq::filter, 1);
            }
            assert(all@.take(i + 1).drop_last() =~= all@.take(i as int));
            let code = c.to_string();
            proof {
                reveal_strlit("USD");
            }
            assert(all@.take(i + 1).last() == c);
            assert(stablecoin_pred()(c) == is_stablecoin(c));
            if starts_with_text(code.as_str(), "USD") {
                res.push(c);
            }
            i = i + 1;
        }
        assert(all@.take(all@.len() as int) =~= all@);
        res
    }
}

impl std::str::FromStr for Currency {
    type Err = UnknownCurrency;

    fn from_str(s: &str) -> (res: Result<Currency, UnknownCurrency>)
        ensures
            res == (match currency_from_code(s@) {
                Some(c) => Ok(c),
                None => Err(UnknownCurrency),
            }),
    {
        Currency::parse(s)
    }
}

} // verus!
