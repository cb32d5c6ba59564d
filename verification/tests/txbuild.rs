use heritage_cli::btc::Network;
use heritage_cli::errors::Error;
use heritage_cli::txbuild::{
    build_transaction_request, dedup_strings, parse_fee_rate, parse_recipient, FeePolicy,
    FeeRate, Recipient, SpendingConfig, UtxoSelection,
};

// The Bitcoin genesis address: valid on mainnet, invalid elsewhere.
const MAINNET_ADDR: &str = "1A1zP1eP5QGefi2DMPTfTL5SLmv7DivfNa";

fn recipient(address: &str, amount: Option<u64>) -> Recipient {
    Recipient { address: address.to_owned(), amount }
}

#[test]
fn drain_with_second_recipient_is_ambiguous() {
    let r = build_transaction_request(
        vec![recipient(MAINNET_ADDR, Some(5000)), recipient(MAINNET_ADDR, None)],
        None,
        None,
        vec![],
        vec![],
        false,
        false,
        Network::Bitcoin,
    );
    assert_eq!(r.unwrap_err(), Error::AmbiguousDrainTarget);
}

#[test]
fn lone_drain_recipient_builds_drain_all() {
    let r = build_transaction_request(
        vec![recipient(MAINNET_ADDR, None)],
        None,
        None,
        vec![],
        vec![],
        false,
        false,
        Network::Bitcoin,
    )
    .unwrap();
    match r.spending_config {
        SpendingConfig::DrainAll(a) => assert_eq!(a, MAINNET_ADDR),
        SpendingConfig::Recipients(_) => panic!("expected a drain"),
    }
    assert!(r.fee_policy.is_none());
    assert!(r.utxo_selection.is_none());
    assert!(r.disable_rbf.is_none());
}

#[test]
fn explicit_amounts_build_recipient_pairs() {
    let r = build_transaction_request(
        vec![recipient(MAINNET_ADDR, Some(5000)), recipient(MAINNET_ADDR, Some(700))],
        None,
        None,
        vec![],
        vec![],
        false,
        true,
        Network::Bitcoin,
    )
    .unwrap();
    match r.spending_config {
        SpendingConfig::Recipients(list) => {
            assert_eq!(list.len(), 2);
            assert_eq!(list[0].1, 5000);
            assert_eq!(list[1].1, 700);
        },
        SpendingConfig::DrainAll(_) => panic!("expected explicit recipients"),
    }
    assert_eq!(r.disable_rbf, Some(true));
}

#[test]
fn wrong_network_address_is_rejected() {
    let r = build_transaction_request(
        vec![recipient(MAINNET_ADDR, Some(5000))],
        None,
        None,
        vec![],
        vec![],
        false,
        false,
        Network::Testnet,
    );
    assert_eq!(r.unwrap_err(), Error::InvalidAddressNetwork);
}

#[test]
fn fee_rate_below_floor_fails_to_parse() {
    assert_eq!(parse_fee_rate("0.9").unwrap_err(), Error::FeeRateTooLow);
}

#[test]
fn fee_rate_at_floor_parses() {
    assert_eq!(parse_fee_rate("1.0").unwrap().centi_sat_per_vb, 100);
}

#[test]
fn fee_rate_below_floor_fails_to_build() {
    let r = build_transaction_request(
        vec![recipient(MAINNET_ADDR, Some(5000))],
        Some(FeeRate { centi_sat_per_vb: 90 }),
        None,
        vec![],
        vec![],
        false,
        false,
        Network::Bitcoin,
    );
    assert_eq!(r.unwrap_err(), Error::FeeRateTooLow);
}

#[test]
fn fee_rate_at_floor_builds() {
    let r = build_transaction_request(
        vec![recipient(MAINNET_ADDR, Some(5000))],
        Some(FeeRate { centi_sat_per_vb: 100 }),
        None,
        vec![],
        vec![],
        false,
        false,
        Network::Bitcoin,
    )
    .unwrap();
    assert_eq!(r.fee_policy, Some(FeePolicy::Rate { rate: FeeRate { centi_sat_per_vb: 100 } }));
}

#[test]
fn absolute_fee_wins_the_policy() {
    let r = build_transaction_request(
        vec![recipient(MAINNET_ADDR, Some(5000))],
        None,
        Some(1234),
        vec![],
        vec![],
        false,
        false,
        Network::Bitcoin,
    )
    .unwrap();
    assert_eq!(r.fee_policy, Some(FeePolicy::Absolute { amount: 1234 }));
}

#[test]
fn fee_rate_parses_decimals() {
    assert_eq!(parse_fee_rate("2.57").unwrap().centi_sat_per_vb, 257);
    assert_eq!(parse_fee_rate("10").unwrap().centi_sat_per_vb, 1000);
    assert_eq!(parse_fee_rate("1.239").unwrap().centi_sat_per_vb, 123);
}

#[test]
fn fee_rate_overflow_is_rejected_not_wrapped() {
    assert_eq!(
        parse_fee_rate("99999999999999999999999999").unwrap_err(),
        Error::InvalidFeeRate
    );
}

#[test]
fn fee_rate_rejects_malformed_input() {
    assert_eq!(parse_fee_rate("abc").unwrap_err(), Error::InvalidFeeRate);
    assert_eq!(parse_fee_rate("1.2.3").unwrap_err(), Error::InvalidFeeRate);
    assert_eq!(parse_fee_rate("").unwrap_err(), Error::InvalidFeeRate);
    assert_eq!(parse_fee_rate(".").unwrap_err(), Error::InvalidFeeRate);
}

#[test]
fn duplicate_inclusions_collapse_to_use_only() {
    let x = "7f3a:0".to_owned();
    let y = "9c1b:1".to_owned();
    let r = build_transaction_request(
        vec![recipient(MAINNET_ADDR, Some(5000))],
        None,
        None,
        vec![x.clone(), x.clone(), y.clone()],
        vec![],
        true,
        false,
        Network::Bitcoin,
    )
    .unwrap();
    match r.utxo_selection {
        Some(UtxoSelection::UseOnly { utxos }) => {
            assert_eq!(utxos.len(), 2);
            assert!(utxos.contains(&x));
            assert!(utxos.contains(&y));
        },
        _ => panic!("expected a use-only selection"),
    }
}

#[test]
fn include_without_flag_stays_open() {
    let x = "7f3a:0".to_owned();
    let r = build_transaction_request(
        vec![recipient(MAINNET_ADDR, Some(5000))],
        None,
        None,
        vec![x.clone()],
        vec![],
        false,
        false,
        Network::Bitcoin,
    )
    .unwrap();
    match r.utxo_selection {
        Some(UtxoSelection::Include { utxos }) => assert_eq!(utxos, vec![x]),
        _ => panic!("expected an inclusive selection"),
    }
}

#[test]
fn exclusions_alone_build_an_exclude() {
    let x = "7f3a:0".to_owned();
    let r = build_transaction_request(
        vec![recipient(MAINNET_ADDR, Some(5000))],
        None,
        None,
        vec![],
        vec![x.clone(), x.clone()],
        false,
        false,
        Network::Bitcoin,
    )
    .unwrap();
    match r.utxo_selection {
        Some(UtxoSelection::Exclude { utxos }) => assert_eq!(utxos, vec![x]),
        _ => panic!("expected an exclusive selection"),
    }
}

#[test]
fn both_lists_combine() {
    let x = "7f3a:0".to_owned();
    let y = "9c1b:1".to_owned();
    let r = build_transaction_request(
        vec![recipient(MAINNET_ADDR, Some(5000))],
        None,
        None,
        vec![x.clone()],
        vec![y.clone()],
        false,
        false,
        Network::Bitcoin,
    )
    .unwrap();
    match r.utxo_selection {
        Some(UtxoSelection::IncludeExclude { included, excluded }) => {
            assert_eq!(included, vec![x]);
            assert_eq!(excluded, vec![y]);
        },
        _ => panic!("expected a combined selection"),
    }
}

#[test]
fn dedup_keeps_first_occurrences() {
    let v = vec!["a".to_owned(), "b".to_owned(), "a".to_owned()];
    let d = dedup_strings(&v);
    assert_eq!(d, vec!["a".to_owned(), "b".to_owned()]);
}

#[test]
fn recipient_parses_denominated_amounts() {
    let r = parse_recipient("addr:5000sat").unwrap();
    assert_eq!(r.address, "addr");
    assert_eq!(r.amount, Some(5000));
    let r = parse_recipient("addr:1.0btc").unwrap();
    assert_eq!(r.amount, Some(100_000_000));
    let r = parse_recipient("addr:100mbtc").unwrap();
    assert_eq!(r.amount, Some(10_000_000));
}

#[test]
fn recipient_all_means_drain() {
    let r = parse_recipient("addr:all").unwrap();
    assert_eq!(r.address, "addr");
    assert_eq!(r.amount, None);
}

#[test]
fn recipient_without_colon_is_invalid() {
    assert_eq!(parse_recipient("addr").unwrap_err(), Error::InvalidRecipient);
}

#[test]
fn recipient_with_two_colons_is_invalid() {
    assert_eq!(parse_recipient("a:b:c").unwrap_err(), Error::InvalidRecipient);
}

#[test]
fn recipient_with_bad_amount_is_invalid() {
    assert_eq!(parse_recipient("addr:bogus").unwrap_err(), Error::InvalidAmount);
    assert_eq!(parse_recipient("addr:5000").unwrap_err(), Error::InvalidAmount);
}
