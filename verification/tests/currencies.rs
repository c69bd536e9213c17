use nowpayments::currency::Currency;
use std::str::FromStr;

const ALL: [Currency; 14] = [
    Currency::XMR,
    Currency::BTC,
    Currency::ETH,
    Currency::SOL,
    Currency::TRX,
    Currency::BNBBSC,
    Currency::USDT,
    Currency::USDC,
    Currency::USDCSOL,
    Currency::USDTERC20,
    Currency::USDTTRC20,
    Currency::USDTBSC,
    Currency::USD,
    Currency::UNKNOWN,
];

#[test]
fn display_writes_the_code() {
    assert_eq!(Currency::XMR.to_string(), "XMR");
    assert_eq!(Currency::USDTERC20.to_string(), "USDTERC20");
    assert_eq!(Currency::UNKNOWN.to_string(), "UNKNOWN");
    assert_eq!(Currency::BNBBSC.lower_code(), "bnbbsc");
}

#[test]
fn names_ids_networks_protocols() {
    assert_eq!(Currency::XMR.name(), "Monero");
    assert_eq!(Currency::BNBBSC.name(), "BNB (Binance Smart Chain)");
    assert_eq!(Currency::USDTBSC.name(), "Tether USD (BEP20)");
    assert_eq!(Currency::USD.name(), "US Dollar");
    assert_eq!(Currency::BNBBSC.cg_id(), "binancecoin");
    assert_eq!(Currency::USDCSOL.cg_id(), "usd-coin");
    assert_eq!(Currency::USDTTRC20.cg_id(), "tether");
    assert_eq!(Currency::USDT.network(), "eth");
    assert_eq!(Currency::BNBBSC.network(), "bsc");
    assert_eq!(Currency::USD.network(), "fiat");
    assert_eq!(Currency::BTC.protocol(), "native");
    assert_eq!(Currency::USDCSOL.protocol(), "spl");
    assert_eq!(Currency::USDTBSC.protocol(), "bep20");
    assert_eq!(Currency::UNKNOWN.protocol(), "unknown");
}

#[test]
fn parse_reads_lower_case_codes() {
    for c in ALL {
        let code = c.to_string().to_lowercase();
        assert_eq!(Currency::from_str(&code), Ok(c));
    }
    assert!(Currency::from_str("XMR").is_err());
    assert!(Currency::from_str("").is_err());
    assert!(Currency::from_str("usdt ").is_err());
    assert!(Currency::from_str("doge").is_err());
}

#[test]
fn get_all_leaves_out_fiat_and_unknown() {
    assert_eq!(
        Currency::get_all(),
        vec![
            Currency::XMR,
            Currency::BTC,
            Currency::ETH,
            Currency::SOL,
            Currency::TRX,
            Currency::BNBBSC,
            Currency::USDT,
            Currency::USDC,
            Currency::USDCSOL,
            Currency::USDTERC20,
            Currency::USDTTRC20,
            Currency::USDTBSC,
        ]
    );
}

#[test]
fn stablecoins_begin_with_usd() {
    assert_eq!(
        Currency::get_stablecoins(),
        vec![
            Currency::USDT,
            Currency::USDC,
            Currency::USDCSOL,
            Currency::USDTERC20,
            Currency::USDTTRC20,
            Currency::USDTBSC,
        ]
    );
    for c in Currency::get_stablecoins() {
        assert!(c.to_string().starts_with("USD"));
        assert!(Currency::get_all().contains(&c));
    }
}

#[test]
fn names_are_distinct_and_non_empty() {
    for (i, a) in ALL.iter().enumerate() {
        assert!(!a.name().is_empty());
        for b in ALL.iter().skip(i + 1) {
            assert_ne!(a.name(), b.name());
        }
    }
}

#[test]
fn one_coingecko_id_per_asset() {
    let tether = [Currency::USDT, Currency::USDTERC20, Currency::USDTTRC20, Currency::USDTBSC];
    let usd_coin = [Currency::USDC, Currency::USDCSOL];
    for a in ALL {
        assert!(a.cg_id().chars().all(|c| c.is_ascii_lowercase() || c == '-'));
        for b in ALL {
            let same = a == b
                || (tether.contains(&a) && tether.contains(&b))
                || (usd_coin.contains(&a) && usd_coin.contains(&b));
            assert_eq!(a.cg_id() == b.cg_id(), same, "{:?} {:?}", a, b);
        }
    }
    assert_eq!(Currency::USDTBSC.cg_id(), "tether");
    assert_eq!(Currency::USDCSOL.cg_id(), "usd-coin");
}

#[test]
fn protocol_and_network_agree() {
    for c in ALL {
        let n = c.network();
        match c.protocol() {
            "erc20" => assert_eq!(n, "eth"),
            "trc20" => assert_eq!(n, "trx"),
            "bep20" => assert_eq!(n, "bsc"),
            "spl" => assert_eq!(n, "sol"),
            "fiat" => assert_eq!(n, "fiat"),
            "unknown" => assert_eq!(n, "unknown"),
            "native" if c != Currency::BNBBSC => assert_eq!(n, c.lower_code()),
            "native" => assert_eq!(n, "bsc"),
            other => panic!("unexpected protocol {}", other),
        }
    }
}

#[test]
fn native_coins_are_the_listed_non_stablecoins() {
    let listed = Currency::get_all();
    let stable = Currency::get_stablecoins();
    for c in ALL {
        let native = listed.contains(&c) && !stable.contains(&c);
        assert_eq!(c.protocol() == "native", native, "{:?}", c);
        if stable.contains(&c) {
            assert!(["erc20", "trc20", "bep20", "spl"].contains(&c.protocol()));
        }
    }
}
