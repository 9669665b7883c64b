use pavkhemerak_api::error::ApiError;
use pavkhemerak_api::routes::tools::{
    activity_window, analysis_core, etherscan_after_lookup, etherscan_start, EtherscanAction, TxListFetch, assess, count_counterparties, etherscan_request,
    ping_count_args, ping_host, ping_response, sample_of, sanitize_host, seen_at,
    transaction_context, transaction_facts, tx_lookup_url, txlist_succeeded, txlist_url,
    unavailable_analysis, EtherscanParams, EtherscanTarget, EtherscanTx, PingParams, TxLookup,
    TxObservations,
};

fn tx(from: &str, to: &str, ts: &str) -> EtherscanTx {
    EtherscanTx {
        hash: format!("0xhash-{from}-{to}-{ts}"),
        from: from.into(),
        to: to.into(),
        value: "1000000000000000000".into(),
        gas_price: "20000000000".into(),
        timestamp: ts.into(),
    }
}

fn no_obs() -> TxObservations {
    TxObservations { high_frequency: None, uniform_gas: false, round_value_count: 0 }
}

const ADDR42: &str = "0x1234567890abcdef1234567890abcdef12345678";

#[test]
fn host_keeps_only_safe_characters() {
    assert_eq!(sanitize_host("example.com; rm -rf /"), "example.comrm-rf");
    assert_eq!(sanitize_host("münchen.de"), "münchen.de");
    assert_eq!(sanitize_host(&sanitize_host("a b&c.d-e")), sanitize_host("a b&c.d-e"));
}

#[test]
fn ping_host_errors() {
    assert_eq!(
        ping_host(PingParams { host: None }),
        Err(ApiError::BadRequest("'host' query parameter is required".into()))
    );
    assert_eq!(
        ping_host(PingParams { host: Some(";&|".into()) }),
        Err(ApiError::BadRequest("Invalid host".into()))
    );
    assert_eq!(ping_host(PingParams { host: Some("1.1.1.1".into()) }), Ok("1.1.1.1".into()));
}

#[test]
fn ping_args_per_platform() {
    assert_eq!(ping_count_args(true), vec!["-n".to_string(), "3".to_string()]);
    assert_eq!(ping_count_args(false), vec!["-c".to_string(), "3".to_string()]);
}

#[test]
fn ping_output_prefers_stdout() {
    let r = ping_response("h".into(), b"PING ok", b"warn");
    assert_eq!(r.output, "PING ok");
    let r = ping_response("h".into(), b"", b"ping: unknown host");
    assert_eq!(r.output, "ping: unknown host");
    let r = ping_response("h".into(), &[0xff, b'a'], b"");
    assert_eq!(r.output, "\u{fffd}a");
}

#[test]
fn etherscan_input_checks_in_order() {
    let key = Some("KEY".to_string());
    assert_eq!(
        etherscan_request(EtherscanParams { address: None }, &key),
        Err(ApiError::BadRequest("'address' query parameter is required".into()))
    );
    assert_eq!(
        etherscan_request(EtherscanParams { address: Some("1234".into()) }, &None),
        Err(ApiError::BadRequest("Input must start with 0x".into()))
    );
    assert_eq!(
        etherscan_request(EtherscanParams { address: Some(ADDR42.into()) }, &None),
        Err(ApiError::BadRequest(
            "Etherscan API key not configured. Set ETHERSCAN_API_KEY in .env".into()
        ))
    );
    assert_eq!(
        etherscan_request(EtherscanParams { address: Some("0x12".into()) }, &key),
        Err(ApiError::BadRequest(
            "Invalid input: must be a wallet address (42 chars) or transaction hash (66 chars)".into()
        ))
    );
    let r = etherscan_request(EtherscanParams { address: Some(ADDR42.into()) }, &key).unwrap();
    assert_eq!(r.target, EtherscanTarget::Wallet(ADDR42.into()));
    assert_eq!(r.api_key, "KEY");
    let hash = format!("0x{}", "a".repeat(64));
    let r = etherscan_request(EtherscanParams { address: Some(hash.clone()) }, &key).unwrap();
    assert_eq!(r.target, EtherscanTarget::Transaction(hash));
}

#[test]
fn etherscan_length_counts_bytes() {
    let key = Some("KEY".to_string());
    // 40 characters, 42 bytes: two of them take two bytes each.
    let odd = format!("0x{}éé", "1".repeat(36));
    assert_eq!(odd.chars().count(), 40);
    assert_eq!(odd.len(), 42);
    let r = etherscan_request(EtherscanParams { address: Some(odd.clone()) }, &key).unwrap();
    assert_eq!(r.target, EtherscanTarget::Wallet(odd));
}

#[test]
fn etherscan_urls() {
    assert_eq!(
        tx_lookup_url("0xabc", "K"),
        "https://api.etherscan.io/api?module=proxy&action=eth_getTransactionByHash&txhash=0xabc&apikey=K"
    );
    assert_eq!(
        txlist_url("0xabc", "K"),
        "https://api.etherscan.io/api?module=account&action=txlist&address=0xabc&startblock=0&endblock=99999999&sort=desc&apikey=K"
    );
}

fn lookup() -> TxLookup {
    TxLookup {
        has_result: true,
        result_is_null: false,
        from: Some("0xsender".into()),
        to: Some("0xrecipient".into()),
        value: Some("0x1bc16d674ec80000".into()),
        gas_price: Some("0x4a817c800".into()),
        block_number: Some("0x10d4f".into()),
    }
}

#[test]
fn transaction_lookup_outcomes() {
    let mut l = lookup();
    l.has_result = false;
    assert_eq!(transaction_facts("0xh", l), Err(ApiError::BadRequest("Transaction not found".into())));
    let mut l = lookup();
    l.result_is_null = true;
    assert_eq!(transaction_facts("0xh", l), Err(ApiError::NotFound("Transaction 0xh not found".into())));
    let mut l = lookup();
    l.from = None;
    assert_eq!(
        transaction_facts("0xh", l),
        Err(ApiError::BadRequest("Could not extract sender from transaction".into()))
    );
    let f = transaction_facts("0xh", lookup()).unwrap();
    assert_eq!(f.from, "0xsender");
    assert_eq!(f.value_wei, 2_000_000_000_000_000_000);
    assert_eq!(f.gas_price_wei, 20_000_000_000);
    assert_eq!(f.block_number, 68943);
    let c = transaction_context("0xh".into(), &f, "2.000000".into(), "20.00".into());
    assert_eq!(c.block_number, "68943");
    assert_eq!(c.to, "0xrecipient");
}

#[test]
fn transaction_quantities_default_to_zero() {
    let mut l = lookup();
    l.value = None;
    l.gas_price = Some("garbage".into());
    l.block_number = Some("0x0x20".into());
    let f = transaction_facts("0xh", l).unwrap();
    assert_eq!((f.value_wei, f.gas_price_wei, f.block_number), (0, 0, 32));
}

#[test]
fn txlist_status() {
    assert!(txlist_succeeded("1"));
    assert!(!txlist_succeeded("0"));
}

#[test]
fn unavailable_analysis_is_empty() {
    let a = unavailable_analysis();
    assert_eq!(a.total_transactions, 0);
    assert_eq!(a.first_seen, "N/A");
    assert_eq!(a.indicators, vec!["No transactions found or API error".to_string()]);
}

#[test]
fn counterparties_ignore_case() {
    let txs = vec![
        tx("0xABC", "0xD1", "1"),
        tx("0xabc", "0xd1", "2"),
        tx("0xE2", "0xabc", "3"),
        tx("0xe2", "0xAbC", "4"),
    ];
    assert_eq!(count_counterparties("0xAbc", &txs), 2);
    assert_eq!(count_counterparties("0xAbc", &vec![]), 0);
}

#[test]
fn window_skips_unreadable_times() {
    let txs = vec![tx("a", "b", "1609459200"), tx("a", "b", "x"), tx("a", "b", "1609462800")];
    assert_eq!(activity_window(&txs), (1609459200, 1609462800));
    assert_eq!(activity_window(&vec![tx("a", "b", "?")]), (0, 0));
}

#[test]
fn times_are_shown_to_the_minute() {
    assert_eq!(seen_at(1609459200), "2021-01-01 00:00 UTC");
    assert_eq!(seen_at(0), "1970-01-01 00:00 UTC");
    assert_eq!(seen_at(i64::MAX), "N/A");
}

#[test]
fn assessment_weights() {
    let (ind, score) = assess(3, 3, &no_obs());
    assert_eq!(ind, vec!["No strong bot indicators detected".to_string()]);
    assert_eq!(score, 0);
    let obs = TxObservations { high_frequency: Some("12.5".into()), uniform_gas: true, round_value_count: 101 };
    let (ind, score) = assess(101, 2, &obs);
    assert_eq!(score, 90);
    assert_eq!(ind.len(), 4);
    assert_eq!(ind[0], "High frequency: 12.5 tx/hour");
    assert_eq!(ind[1], "Low address diversity — interacts with few unique addresses");
    assert_eq!(ind[2], "Very uniform gas pricing — likely automated");
    assert_eq!(ind[3], "Mostly round ETH values");
    // High frequency only counts above 100 transactions; 80% exactly is not "more than 80%".
    let obs = TxObservations { high_frequency: Some("50.0".into()), uniform_gas: false, round_value_count: 8 };
    let (ind, score) = assess(10, 10, &obs);
    assert_eq!(score, 0);
    assert_eq!(ind.len(), 1);
}

#[test]
fn sample_is_the_first_ten() {
    let txs: Vec<EtherscanTx> = (0..12).map(|i| tx("a", "b", &i.to_string())).collect();
    let s = sample_of(&txs);
    assert_eq!(s.len(), 10);
    assert_eq!(s[9], txs[9]);
    assert_eq!(sample_of(&txs[..3].to_vec()).len(), 3);
}

#[test]
fn analysis_of_a_wallet() {
    let txs = vec![
        tx("0xME", "0xa", "1609459200"),
        tx("0xb", "0xme", "1609462800"),
        tx("0xme", "0xA", "1609466400"),
    ];
    let a = analysis_core("0xMe", &txs, &no_obs());
    assert_eq!(a.total_transactions, 3);
    assert_eq!(a.unique_addresses_interacted, 2);
    assert_eq!(a.first_seen, "2021-01-01 00:00 UTC");
    assert_eq!(a.last_seen, "2021-01-01 02:00 UTC");
    assert_eq!(a.bot_score_percent, 0);
    assert_eq!(a.sample.len(), 3);
}

#[test]
fn etherscan_steps() {
    let key = Some("K".to_string());
    let hash = format!("0x{}", "b".repeat(64));
    let r = etherscan_request(EtherscanParams { address: Some(hash.clone()) }, &key).unwrap();
    match etherscan_start(&r) {
        EtherscanAction::FetchTransaction { tx_hash, url } => {
            assert_eq!(tx_hash, hash);
            assert_eq!(url, tx_lookup_url(&hash, "K"));
        }
        other => panic!("unexpected {other:?}"),
    }
    let r = etherscan_request(EtherscanParams { address: Some(ADDR42.into()) }, &key).unwrap();
    assert_eq!(
        etherscan_start(&r),
        EtherscanAction::FetchTxList(TxListFetch { address: ADDR42.into(), url: txlist_url(ADDR42, "K") })
    );
    let (facts, next) = etherscan_after_lookup("0xh", "K", lookup()).unwrap();
    assert_eq!(facts.from, "0xsender");
    assert_eq!(next, TxListFetch { address: "0xsender".into(), url: txlist_url("0xsender", "K") });
    let mut l = lookup();
    l.result_is_null = true;
    assert_eq!(
        etherscan_after_lookup("0xh", "K", l),
        Err(ApiError::NotFound("Transaction 0xh not found".into()))
    );
}
