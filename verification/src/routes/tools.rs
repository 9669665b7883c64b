//! The security tools: the ping target check and the Etherscan analyzer's
//! input handling, transaction lookup and address analysis.
use vstd::prelude::*;
use vstd::utf8::{decode_utf8, encode_utf8, valid_utf8};

use crate::error::ApiError;
use crate::text::{
    chars_of, concat2, concat3, decimal_text, hex_marker_end, is_alphanumeric, owned,
    parse_hex_u128, parse_hex_u64, parse_i64, parse_signed, parse_unsigned, push_char, same_text,
    all_digits_in, digit_value, digits_value, is_digit_in,
    starts_with, has_prefix, to_lowercase, trim_hex_marker, u64_text, unicode_alphanumeric,
    unicode_lowercase,
};

verus! {

broadcast use vstd::seq_lib::group_seq_properties;

// ═════════════════════════════════════════════════════════════════════════════
//  PING TOOL
// ═════════════════════════════════════════════════════════════════════════════

/// The query string of `GET /api/tools/ping`.
#[derive(Debug, Clone, PartialEq, Eq)]
pub struct PingParams {
    pub host: Option<String>,
}

/// The answer of the ping tool.
#[derive(Debug, Clone, PartialEq, Eq)]
pub struct PingResponse {
    pub host: String,
    pub output: String,
}

/// The characters a host name handed to `ping` may hold.
pub open spec fn host_char_allowed(c: char) -> bool {
    unicode_alphanumeric(c) || c == '.' || c == '-'
}

/// A host with every character that is not allowed dropped, in order.
pub open spec fn sanitized(host: Seq<char>) -> Seq<char>
    decreases host.len(),
{
    if host.len() == 0 {
        host
    } else if host_char_allowed(host.last()) {
        sanitized(host.drop_last()).push(host.last())
    } else {
        sanitized(host.drop_last())
    }
}

/// Keeps only the alphanumeric characters, dots and dashes of a host.
pub fn sanitize_host(host: &str) -> (r: String)
    ensures
        r@ == sanitized(host@),
{
    let mut out = String::new();
    for c in it: host.chars()
        invariant
            it.seq() == host@,
            out@ == sanitized(host@.take(it.index() as int)),
    {
        assert(host@.take(it.index() + 1).drop_last() =~= host@.take(it.index() as int));
        if is_alphanumeric(c) || c == '.' || c == '-' {
            push_char(&mut out, c);
        }
    }
    assert(host@.take(host@.len() as int) =~= host@);
    out
}

/// The host to ping: the sanitized `host` parameter, which must be given and
/// must keep at least one character.
pub fn ping_host(params: PingParams) -> (r: Result<String, ApiError>)
    ensures
        params.host is None ==> (r matches Err(ApiError::BadRequest(m)) && m@
            == "'host' query parameter is required"@),
        params.host matches Some(h) ==> if sanitized(h@).len() == 0 {
            r matches Err(ApiError::BadRequest(m)) && m@ == "Invalid host"@
        } else {
            r matches Ok(t) && t@ == sanitized(h@)
        },
{
    let host = match params.host {
        Some(h) => h,
        None => {
            return Err(ApiError::BadRequest(owned("'host' query parameter is required")));
        },
    };
    let clean = sanitize_host(host.as_str());
    if clean.as_str().is_empty() {
        return Err(ApiError::BadRequest(owned("Invalid host")));
    }
    Ok(clean)
}

/// The arguments that make `ping` send three echo requests: `-n 3` on
/// Windows, `-c 3` elsewhere.
pub fn ping_count_args(windows: bool) -> (args: Vec<String>)
    ensures
        args.len() == 2,
        args@[0]@ == (if windows {
            "-n"@
        } else {
            "-c"@
        }),
        args@[1]@ == "3"@,
{
    let mut args: Vec<String> = Vec::new();
    if windows {
        args.push(owned("-n"));
    } else {
        args.push(owned("-c"));
    }
    args.push(owned("3"));
    args
}

/// What `String::from_utf8_lossy` reads out of some bytes.
pub uninterp spec fn utf8_lossy(bytes: Seq<u8>) -> Seq<char>;

/// Calls std's `String::from_utf8_lossy`. The contract names its result and
/// states what std's documentation gives: valid UTF-8 is decoded as it is
/// (what it makes of invalid sequences is left to the name).
#[verifier::external_body]
fn lossy_text(bytes: &[u8]) -> (s: String)
    ensures
        s@ == utf8_lossy(bytes@),
        valid_utf8(bytes@) ==> s@ == decode_utf8(bytes@),
{
    String::from_utf8_lossy(bytes).to_string()
}

/// The ping answer from the output of the command: its standard output, or
/// its standard error when the former is empty.
pub fn ping_response(host: String, stdout: &[u8], stderr: &[u8]) -> (r: PingResponse)
    ensures
        r.host == host,
        r.output@ == if utf8_lossy(stdout@).len() == 0 {
            utf8_lossy(stderr@)
        } else {
            utf8_lossy(stdout@)
        },
        valid_utf8(stdout@) && decode_utf8(stdout@).len() != 0 ==> r.output@ == decode_utf8(stdout@),
{
    let out = lossy_text(stdout);
    let err = lossy_text(stderr);
    let output = if out.as_str().is_empty() {
        err
    } else {
        out
    };
    PingResponse { host, output }
}

/// Sanitizing keeps only allowed characters.
pub proof fn lemma_sanitized_only_allowed(host: Seq<char>)
    ensures
        forall|i: int| 0 <= i < sanitized(host).len() ==> host_char_allowed(#[trigger] sanitized(host)[i]),
    decreases host.len(),
{
    if host.len() > 0 {
        let rest = sanitized(host.drop_last());
        lemma_sanitized_only_allowed(host.drop_last());
        if host_char_allowed(host.last()) {
            assert forall|i: int| 0 <= i < sanitized(host).len() implies host_char_allowed(
                #[trigger] sanitized(host)[i],
            ) by {
                if i < rest.len() {
                    assert(sanitized(host)[i] == rest[i]);
                }
            }
        }
    }
}

/// A text of allowed characters is its own sanitized form.
proof fn lemma_sanitized_keeps_allowed(host: Seq<char>)
    requires
        forall|i: int| 0 <= i < host.len() ==> host_char_allowed(#[trigger] host[i]),
    ensures
        sanitized(host) == host,
    decreases host.len(),
{
    if host.len() > 0 {
        lemma_sanitized_keeps_allowed(host.drop_last());
        assert(host.drop_last().push(host.last()) =~= host);
    }
}

/// Sanitizing twice is sanitizing once.
pub proof fn lemma_sanitize_idempotent(host: Seq<char>)
    ensures
        sanitized(sanitized(host)) == sanitized(host),
{
    lemma_sanitized_only_allowed(host);
    lemma_sanitized_keeps_allowed(sanitized(host));
}

// ═════════════════════════════════════════════════════════════════════════════
//  ETHERSCAN ANALYZER
// ═════════════════════════════════════════════════════════════════════════════

/// The query string of `GET /api/tools/etherscan`.
#[derive(Debug, Clone, PartialEq, Eq)]
pub struct EtherscanParams {
    pub address: Option<String>,
}

/// The transaction a hash names, shown beside the analysis of its sender.
#[derive(Debug, Clone, PartialEq, Eq)]
pub struct TransactionContext {
    pub tx_hash: String,
    pub from: String,
    pub to: String,
    pub value_eth: String,
    pub gas_price_gwei: String,
    pub block_number: String,
}

/// One transaction of the analysis sample.
#[derive(Debug, Clone, PartialEq, Eq)]
pub struct TxSummary {
    pub hash: String,
    pub from: String,
    pub to: String,
    pub value_eth: String,
    pub gas_price_gwei: String,
    pub timestamp: String,
}

/// One transaction of an Etherscan `txlist` answer (amounts in wei, time in
/// Unix seconds, all as decimal text).
#[derive(Debug, Clone, PartialEq, Eq)]
pub struct EtherscanTx {
    pub hash: String,
    pub from: String,
    pub to: String,
    pub value: String,
    pub gas_price: String,
    pub timestamp: String,
}

impl EtherscanTx {
    /// A copy of this transaction.
    pub fn duplicate(&self) -> (c: EtherscanTx)
        ensures
            c == *self,
    {
        EtherscanTx {
            hash: self.hash.clone(),
            from: self.from.clone(),
            to: self.to.clone(),
            value: self.value.clone(),
            gas_price: self.gas_price.clone(),
            timestamp: self.timestamp.clone(),
        }
    }
}

/// What the analyzer was asked about.
#[derive(Debug, Clone, PartialEq, Eq)]
pub enum EtherscanTarget {
    /// A wallet address (42 bytes).
    Wallet(String),
    /// A transaction hash (66 bytes), whose sender is analyzed.
    Transaction(String),
}

/// A request the analyzer accepted, with the API key to send.
#[derive(Debug, Clone, PartialEq, Eq)]
pub struct EtherscanRequest {
    pub target: EtherscanTarget,
    pub api_key: String,
}

/// The length of a text in bytes (`str::len`).
pub open spec fn byte_len(s: Seq<char>) -> usize {
    encode_utf8(s).len() as usize
}

/// The message of an input that is neither an address nor a hash.
pub open spec fn invalid_input_message() -> Seq<char> {
    "Invalid input: must be a wallet address (42 chars) or transaction hash (66 chars)"@
}

/// Reads the analyzer's input: it must be given, start with `0x`, find an
/// API key configured, and be 66 bytes long (a transaction hash) or 42 (a
/// wallet address); each check answers 400 in this order.
pub fn etherscan_request(params: EtherscanParams, api_key: &Option<String>) -> (r: Result<
    EtherscanRequest,
    ApiError,
>)
    ensures
        params.address is None ==> (r matches Err(ApiError::BadRequest(m)) && m@
            == "'address' query parameter is required"@),
        params.address matches Some(a) ==> if !has_prefix(a@, "0x"@) {
            r matches Err(ApiError::BadRequest(m)) && m@ == "Input must start with 0x"@
        } else if api_key is None {
            r matches Err(ApiError::BadRequest(m)) && m@
                == "Etherscan API key not configured. Set ETHERSCAN_API_KEY in .env"@
        } else if byte_len(a@) == 66 {
            r matches Ok(q) && q.target == EtherscanTarget::Transaction(a) && q.api_key
                == api_key->0
        } else if byte_len(a@) == 42 {
            r matches Ok(q) && q.target == EtherscanTarget::Wallet(a) && q.api_key == api_key->0
        } else {
            r matches Err(ApiError::BadRequest(m)) && m@ == invalid_input_message()
        },
{
    let input = match params.address {
        Some(a) => a,
        None => {
            return Err(ApiError::BadRequest(owned("'address' query parameter is required")));
        },
    };
    if !starts_with(input.as_str(), "0x") {
        return Err(ApiError::BadRequest(owned("Input must start with 0x")));
    }
    let key = match api_key {
        Some(k) => k.clone(),
        None => {
            return Err(
                ApiError::BadRequest(
                    owned("Etherscan API key not configured. Set ETHERSCAN_API_KEY in .env"),
                ),
            );
        },
    };
    let len = input.as_str().len();
    if len == 66 {
        Ok(EtherscanRequest { target: EtherscanTarget::Transaction(input), api_key: key })
    } else if len == 42 {
        Ok(EtherscanRequest { target: EtherscanTarget::Wallet(input), api_key: key })
    } else {
        Err(
            ApiError::BadRequest(
                owned(
                    "Invalid input: must be a wallet address (42 chars) or transaction hash (66 chars)",
                ),
            ),
        )
    }
}

/// The URL that looks a transaction up by its hash.
pub open spec fn tx_lookup_url_for(tx_hash: Seq<char>, api_key: Seq<char>) -> Seq<char> {
    "https://api.etherscan.io/api?module=proxy&action=eth_getTransactionByHash&txhash="@ + tx_hash
        + "&apikey="@ + api_key
}

/// The URL that lists a wallet's normal transactions, newest first.
pub open spec fn txlist_url_for(address: Seq<char>, api_key: Seq<char>) -> Seq<char> {
    "https://api.etherscan.io/api?module=account&action=txlist&address="@ + address
        + "&startblock=0&endblock=99999999&sort=desc&apikey="@ + api_key
}

/// The URL that looks a transaction up by its hash.
pub fn tx_lookup_url(tx_hash: &str, api_key: &str) -> (url: String)
    ensures
        url@ == tx_lookup_url_for(tx_hash@, api_key@),
{
    let head = concat3(
        "https://api.etherscan.io/api?module=proxy&action=eth_getTransactionByHash&txhash=",
        tx_hash,
        "&apikey=",
    );
    concat2(head.as_str(), api_key)
}

/// The URL that lists a wallet's normal transactions, newest first.
pub fn txlist_url(address: &str, api_key: &str) -> (url: String)
    ensures
        url@ == txlist_url_for(address@, api_key@),
{
    let head = concat3(
        "https://api.etherscan.io/api?module=account&action=txlist&address=",
        address,
        "&startblock=0&endblock=99999999&sort=desc&apikey=",
    );
    concat2(head.as_str(), api_key)
}

/// What the transaction lookup answered: whether it has a `result`, whether
/// that is `null`, and those of its fields that are strings.
#[derive(Debug, Clone, PartialEq, Eq)]
pub struct TxLookup {
    pub has_result: bool,
    pub result_is_null: bool,
    pub from: Option<String>,
    pub to: Option<String>,
    pub value: Option<String>,
    pub gas_price: Option<String>,
    pub block_number: Option<String>,
}

/// The facts of a looked-up transaction.
#[derive(Debug, Clone, PartialEq, Eq)]
pub struct TxFacts {
    pub from: String,
    pub to: String,
    pub value_wei: u128,
    pub gas_price_wei: u128,
    pub block_number: u64,
}

/// A hexadecimal quantity of the lookup: `0x0` when missing, every leading
/// `0x` trimmed, read in base 16, and 0 when that fails or exceeds `max`.
pub open spec fn hex_quantity(text: Option<String>, max: int) -> int {
    let t = match text {
        Some(s) => s@,
        None => "0x0"@,
    };
    match parse_unsigned(trim_hex_marker(t), 16, max) {
        Some(v) => v,
        None => 0,
    }
}

/// A text of the lookup, or the empty text when it is missing.
pub open spec fn text_or_empty(text: Option<String>) -> Seq<char> {
    match text {
        Some(s) => s@,
        None => Seq::empty(),
    }
}

fn quantity_u128(text: &Option<String>) -> (v: u128)
    ensures
        v == hex_quantity(*text, u128::MAX as int),
{
    let chars = match text {
        Some(s) => chars_of(s.as_str()),
        None => chars_of("0x0"),
    };
    let start = hex_marker_end(&chars);
    match parse_hex_u128(&chars, start) {
        Some(v) => v,
        None => 0,
    }
}

fn quantity_u64(text: &Option<String>) -> (v: u64)
    ensures
        v == hex_quantity(*text, u64::MAX as int),
{
    let chars = match text {
        Some(s) => chars_of(s.as_str()),
        None => chars_of("0x0"),
    };
    let start = hex_marker_end(&chars);
    match parse_hex_u64(&chars, start) {
        Some(v) => v,
        None => 0,
    }
}

fn text_or_nothing(text: Option<String>) -> (r: String)
    ensures
        r@ == text_or_empty(text),
{
    match text {
        Some(s) => s,
        None => {
            let e = String::new();
            e
        },
    }
}

/// `f` holds what the lookup's answer says of the transaction.
pub open spec fn facts_read(f: TxFacts, lookup: TxLookup) -> bool {
    &&& f.from@ == text_or_empty(lookup.from)
    &&& f.to@ == text_or_empty(lookup.to)
    &&& f.value_wei == hex_quantity(lookup.value, u128::MAX as int)
    &&& f.gas_price_wei == hex_quantity(lookup.gas_price, u128::MAX as int)
    &&& f.block_number == hex_quantity(lookup.block_number, u64::MAX as int)
}

/// The facts of the transaction `tx_hash` from the lookup's answer: 400 when
/// it has no result, 404 when the result is `null`, 400 when it names no
/// sender.
pub fn transaction_facts(tx_hash: &str, lookup: TxLookup) -> (r: Result<TxFacts, ApiError>)
    ensures
        !lookup.has_result ==> (r matches Err(ApiError::BadRequest(m)) && m@
            == "Transaction not found"@),
        lookup.has_result && lookup.result_is_null ==> (r matches Err(ApiError::NotFound(m)) && m@
            == "Transaction "@ + tx_hash@ + " not found"@),
        lookup.has_result && !lookup.result_is_null ==> if text_or_empty(lookup.from).len() == 0 {
            r matches Err(ApiError::BadRequest(m)) && m@
                == "Could not extract sender from transaction"@
        } else {
            r matches Ok(f) && facts_read(f, lookup)
        },
{
    if !lookup.has_result {
        return Err(ApiError::BadRequest(owned("Transaction not found")));
    }
    if lookup.result_is_null {
        return Err(ApiError::NotFound(concat3("Transaction ", tx_hash, " not found")));
    }
    let value_wei = quantity_u128(&lookup.value);
    let gas_price_wei = quantity_u128(&lookup.gas_price);
    let block_number = quantity_u64(&lookup.block_number);
    let from = text_or_nothing(lookup.from);
    let to = text_or_nothing(lookup.to);
    if from.as_str().is_empty() {
        return Err(ApiError::BadRequest(owned("Could not extract sender from transaction")));
    }
    Ok(TxFacts { from, to, value_wei, gas_price_wei, block_number })
}

/// A listing of a wallet's transactions to fetch.
#[derive(Debug, Clone, PartialEq, Eq)]
pub struct TxListFetch {
    pub address: String,
    pub url: String,
}

/// The analyzer's next fetch.
#[derive(Debug, Clone, PartialEq, Eq)]
pub enum EtherscanAction {
    /// Look a transaction up; its sender is analyzed next.
    FetchTransaction { tx_hash: String, url: String },
    /// List a wallet's transactions and analyze them.
    FetchTxList(TxListFetch),
}

/// The first fetch of an accepted request: the transaction lookup for a
/// hash, the listing for a wallet address.
pub fn etherscan_start(request: &EtherscanRequest) -> (next: EtherscanAction)
    ensures
        request.target matches EtherscanTarget::Transaction(h) ==> (next matches EtherscanAction::FetchTransaction { tx_hash, url }
            && tx_hash == h && url@ == tx_lookup_url_for(h@, request.api_key@)),
        request.target matches EtherscanTarget::Wallet(a) ==> (next matches EtherscanAction::FetchTxList(f)
            && f.address == a && f.url@ == txlist_url_for(a@, request.api_key@)),
{
    match &request.target {
        EtherscanTarget::Transaction(h) => EtherscanAction::FetchTransaction {
            tx_hash: h.clone(),
            url: tx_lookup_url(h.as_str(), request.api_key.as_str()),
        },
        EtherscanTarget::Wallet(a) => EtherscanAction::FetchTxList(
            TxListFetch { address: a.clone(), url: txlist_url(a.as_str(), request.api_key.as_str()) },
        ),
    }
}

/// The step after the transaction lookup: the transaction's facts, and the
/// listing of its sender's transactions to fetch next; the errors are those
/// of `transaction_facts`.
pub fn etherscan_after_lookup(tx_hash: &str, api_key: &str, lookup: TxLookup) -> (r: Result<
    (TxFacts, TxListFetch),
    ApiError,
>)
    ensures
        !lookup.has_result ==> (r matches Err(ApiError::BadRequest(m)) && m@
            == "Transaction not found"@),
        lookup.has_result && lookup.result_is_null ==> (r matches Err(ApiError::NotFound(m)) && m@
            == "Transaction "@ + tx_hash@ + " not found"@),
        lookup.has_result && !lookup.result_is_null ==> if text_or_empty(lookup.from).len() == 0 {
            r matches Err(ApiError::BadRequest(m)) && m@
                == "Could not extract sender from transaction"@
        } else {
            r matches Ok((f, next)) && facts_read(f, lookup) && next.address == f.from
                && next.url@ == txlist_url_for(f.from@, api_key@)
        },
{
    let facts = transaction_facts(tx_hash, lookup)?;
    let next = TxListFetch {
        address: facts.from.clone(),
        url: txlist_url(facts.from.as_str(), api_key),
    };
    Ok((facts, next))
}

/// The transaction shown beside the analysis, with its amounts already
/// written in ether and gwei.
pub fn transaction_context(
    tx_hash: String,
    facts: &TxFacts,
    value_eth: String,
    gas_price_gwei: String,
) -> (c: TransactionContext)
    ensures
        c.tx_hash == tx_hash,
        c.from == facts.from,
        c.to == facts.to,
        c.value_eth == value_eth,
        c.gas_price_gwei == gas_price_gwei,
        c.block_number@ == decimal_text(facts.block_number as int),
{
    TransactionContext {
        tx_hash,
        from: facts.from.clone(),
        to: facts.to.clone(),
        value_eth,
        gas_price_gwei,
        block_number: u64_text(facts.block_number),
    }
}

/// Whether the `txlist` answer reports success (its status is `1`).
pub fn txlist_succeeded(status: &str) -> (ok: bool)
    ensures
        ok == (status@ == "1"@),
{
    same_text(status, "1")
}

// ── Address analysis ─────────────────────────────────────────────────────────
/// The integer-valued part of an address analysis.
#[derive(Debug, Clone, PartialEq, Eq)]
pub struct AnalysisCore {
    pub total_transactions: usize,
    pub unique_addresses_interacted: usize,
    pub first_seen: String,
    pub last_seen: String,
    /// The bot probability in hundredths.
    pub bot_score_percent: u32,
    pub indicators: Vec<String>,
    /// The first ten transactions, as listed.
    pub sample: Vec<EtherscanTx>,
}

/// What the analysis shows when the `txlist` answer reports failure.
pub fn unavailable_analysis() -> (a: AnalysisCore)
    ensures
        a.total_transactions == 0,
        a.unique_addresses_interacted == 0,
        a.first_seen@ == "N/A"@,
        a.last_seen@ == "N/A"@,
        a.bot_score_percent == 0,
        a.indicators.deep_view() == seq!["No transactions found or API error"@],
        a.sample.len() == 0,
{
    let mut indicators: Vec<String> = Vec::new();
    indicators.push(owned("No transactions found or API error"));
    assert(indicators.deep_view() =~= seq!["No transactions found or API error"@]);
    AnalysisCore {
        total_transactions: 0,
        unique_addresses_interacted: 0,
        first_seen: owned("N/A"),
        last_seen: owned("N/A"),
        bot_score_percent: 0,
        indicators,
        sample: Vec::new(),
    }
}

/// The address a transaction connects the analyzed one with, in lower case:
/// the recipient when the analyzed address sent it, else the sender.
pub open spec fn counterparty(owner: Seq<char>, tx: EtherscanTx) -> Seq<char> {
    if unicode_lowercase(tx.from@) == owner {
        unicode_lowercase(tx.to@)
    } else {
        unicode_lowercase(tx.from@)
    }
}

/// The counterparties of the transactions, in order, for the lower-cased
/// analyzed address `owner`.
pub open spec fn counterparty_list(owner: Seq<char>, txs: Seq<EtherscanTx>) -> Seq<Seq<char>> {
    txs.map_values(|tx: EtherscanTx| counterparty(owner, tx))
}

/// The distinct addresses the analyzed `address` interacted with.
pub open spec fn counterparties(address: Seq<char>, txs: Seq<EtherscanTx>) -> Set<Seq<char>> {
    counterparty_list(unicode_lowercase(address), txs).to_set()
}

/// Counts the distinct addresses that `address` interacted with.
pub fn count_counterparties(address: &str, txs: &Vec<EtherscanTx>) -> (n: usize)
    ensures
        n == counterparties(address@, txs@).len(),
        n <= txs.len(),
{
    let owner = to_lowercase(address);
    let ghost all = counterparty_list(owner@, txs@);
    let mut seen: Vec<String> = Vec::new();
    let ghost mut keys: Seq<Seq<char>> = Seq::empty();
    let mut i: usize = 0;
    assert(all.take(0) =~= Seq::<Seq<char>>::empty());
    while i < txs.len()
        invariant
            i <= txs.len(),
            owner@ == unicode_lowercase(address@),
            all == counterparty_list(owner@, txs@),
            keys.len() == seen.len(),
            seen.len() <= i,
            forall|j: int| 0 <= j < seen.len() ==> #[trigger] seen@[j]@ == keys[j],
            keys.no_duplicates(),
            keys.to_set() == all.take(i as int).to_set(),
        decreases txs.len() - i,
    {
        let tx = &txs[i];
        let from = to_lowercase(tx.from.as_str());
        let key = if from == owner {
            to_lowercase(tx.to.as_str())
        } else {
            from
        };
        assert(key@ == all[i as int]);
        let mut found = false;
        let mut j: usize = 0;
        while j < seen.len()
            invariant
                j <= seen.len(),
                keys.len() == seen.len(),
                forall|k: int| 0 <= k < seen.len() ==> #[trigger] seen@[k]@ == keys[k],
                found <==> exists|k: int| 0 <= k < j && keys[k] == key@,
            decreases seen.len() - j,
        {
            if seen[j] == key {
                found = true;
            }
            j += 1;
        }
        assert(all.take(i + 1) =~= all.take(i as int).push(all[i as int]));
        proof {
            all.take(i as int).lemma_push_to_set_commute(all[i as int]);
        }
        if !found {
            proof {
                keys.lemma_push_to_set_commute(key@);
                assert forall|a: int, b: int|
                    0 <= a < keys.push(key@).len() && 0 <= b < keys.push(key@).len() && a != b
                        implies keys.push(key@)[a] != keys.push(key@)[b] by {
                    if a < keys.len() && b < keys.len() {
                    } else if a == keys.len() {
                        assert(keys.push(key@)[b] == keys[b]);
                    } else {
                        assert(keys.push(key@)[a] == keys[a]);
                    }
                }
                keys = keys.push(key@);
            }
            seen.push(key);
        } else {
            proof {
                let k = choose|k: int| 0 <= k < keys.len() && keys[k] == key@;
                assert(keys.to_set().contains(key@));
                assert(keys.to_set().insert(key@) =~= keys.to_set());
            }
        }
        i += 1;
    }
    proof {
        keys.unique_seq_to_set();
        assert(all.take(txs.len() as int) =~= all);
    }
    seen.len()
}

/// The time of a transaction, when its timestamp reads as an `i64`.
pub open spec fn tx_time(tx: EtherscanTx) -> Option<int> {
    parse_signed(tx.timestamp@, 10, i64::MIN as int, i64::MAX as int)
}

/// The earliest readable time among the transactions.
pub open spec fn earliest(txs: Seq<EtherscanTx>) -> Option<int>
    decreases txs.len(),
{
    if txs.len() == 0 {
        None
    } else {
        let rest = earliest(txs.drop_last());
        match tx_time(txs.last()) {
            None => rest,
            Some(t) => match rest {
                None => Some(t),
                Some(r) => Some(if t < r {
                    t
                } else {
                    r
                }),
            },
        }
    }
}

/// The latest readable time among the transactions.
pub open spec fn latest(txs: Seq<EtherscanTx>) -> Option<int>
    decreases txs.len(),
{
    if txs.len() == 0 {
        None
    } else {
        let rest = latest(txs.drop_last());
        match tx_time(txs.last()) {
            None => rest,
            Some(t) => match rest {
                None => Some(t),
                Some(r) => Some(if t > r {
                    t
                } else {
                    r
                }),
            },
        }
    }
}

/// A time, or 0 when there is none.
pub open spec fn time_or_zero(t: Option<int>) -> int {
    match t {
        Some(v) => v,
        None => 0,
    }
}

/// The first and the last time among the transactions (0 for each when none
/// has a readable timestamp).
pub fn activity_window(txs: &Vec<EtherscanTx>) -> (w: (i64, i64))
    ensures
        w.0 == time_or_zero(earliest(txs@)),
        w.1 == time_or_zero(latest(txs@)),
{
    let mut first: Option<i64> = None;
    let mut last: Option<i64> = None;
    let mut i: usize = 0;
    while i < txs.len()
        invariant
            i <= txs.len(),
            match first {
                Some(f) => earliest(txs@.take(i as int)) == Some(f as int),
                None => earliest(txs@.take(i as int)) is None,
            },
            match last {
                Some(l) => latest(txs@.take(i as int)) == Some(l as int),
                None => latest(txs@.take(i as int)) is None,
            },
        decreases txs.len() - i,
    {
        assert(txs@.take(i + 1).drop_last() =~= txs@.take(i as int));
        assert(txs@.take(i + 1).last() == txs@[i as int]);
        match parse_i64(txs[i].timestamp.as_str()) {
            Some(t) => {
                first = match first {
                    Some(f) => Some(if t < f {
                        t
                    } else {
                        f
                    }),
                    None => Some(t),
                };
                last = match last {
                    Some(l) => Some(if t > l {
                        t
                    } else {
                        l
                    }),
                    None => Some(t),
                };
            },
            None => {},
        }
        i += 1;
    }
    assert(txs@.take(txs.len() as int) =~= txs@);
    let f = match first {
        Some(f) => f,
        None => 0,
    };
    let l = match last {
        Some(l) => l,
        None => 0,
    };
    (f, l)
}

/// The earliest time is never after the latest.
pub proof fn lemma_window_ordered(txs: Seq<EtherscanTx>)
    ensures
        earliest(txs) is Some <==> latest(txs) is Some,
        earliest(txs) matches Some(f) ==> f <= latest(txs)->0,
    decreases txs.len(),
{
    if txs.len() > 0 {
        lemma_window_ordered(txs.drop_last());
    }
}

/// How a Unix time is shown: `chrono`'s UTC date and time to the minute,
/// `%Y-%m-%d %H:%M UTC`, or `None` when the time is out of its range.
pub uninterp spec fn utc_minute_text(secs: int) -> Option<Seq<char>>;

/// Calls `chrono::DateTime::from_timestamp(secs, 0)` and formats the time as
/// `%Y-%m-%d %H:%M UTC`; the calendar arithmetic is named, not written out.
#[verifier::external_body]
fn format_utc_minute(secs: i64) -> (r: Option<String>)
    ensures
        r is Some <==> utc_minute_text(secs as int) is Some,
        r matches Some(t) ==> utc_minute_text(secs as int) == Some(t@),
{
    match chrono::DateTime::from_timestamp(secs, 0) {
        Some(dt) => Some(dt.format("%Y-%m-%d %H:%M UTC").to_string()),
        None => None,
    }
}

/// How a time of the analysis is shown, or `N/A`.
pub open spec fn seen_text(secs: int) -> Seq<char> {
    match utc_minute_text(secs) {
        Some(t) => t,
        None => "N/A"@,
    }
}

/// Shows a time of the analysis.
pub fn seen_at(secs: i64) -> (s: String)
    ensures
        s@ == seen_text(secs as int),
{
    match format_utc_minute(secs) {
        Some(t) => t,
        None => owned("N/A"),
    }
}

/// The findings of the analysis that rest on amounts and rates in floating
/// point, made before the analysis is assembled.
#[derive(Debug, Clone, PartialEq, Eq)]
pub struct TxObservations {
    /// The transactions per hour, written to one decimal, when they exceed ten.
    pub high_frequency: Option<String>,
    /// Whether the gas prices of more than five transactions vary by less
    /// than 5% of their mean.
    pub uniform_gas: bool,
    /// How many transactions move a positive whole number of ether.
    pub round_value_count: usize,
}

/// The high-frequency finding counts for more than 100 transactions.
pub open spec fn frequent(total: int, obs: TxObservations) -> bool {
    total > 100 && obs.high_frequency is Some
}

/// Fewer than a fifth of the transactions' count of distinct counterparties,
/// over more than ten transactions.
pub open spec fn low_diversity(total: int, unique: int) -> bool {
    total > 10 && unique < total / 5
}

/// More than 80% of more than five transactions move whole ether.
pub open spec fn mostly_round(total: int, obs: TxObservations) -> bool {
    total > 5 && 5 * obs.round_value_count > 4 * total
}

/// A finding's text, when it holds.
pub open spec fn finding(holds: bool, text: Seq<char>) -> Seq<Seq<char>> {
    if holds {
        seq![text]
    } else {
        Seq::empty()
    }
}

/// The written rate of the high-frequency finding.
pub open spec fn rate_text(obs: TxObservations) -> Seq<char> {
    match obs.high_frequency {
        Some(r) => r@,
        None => Seq::empty(),
    }
}

/// The bot indicators found, in order, or the note that none was.
pub open spec fn indicator_texts(total: int, unique: int, obs: TxObservations) -> Seq<Seq<char>> {
    let rate = rate_text(obs);
    let found = finding(frequent(total, obs), "High frequency: "@ + rate + " tx/hour"@) + finding(
        low_diversity(total, unique),
        "Low address diversity — interacts with few unique addresses"@,
    ) + finding(obs.uniform_gas, "Very uniform gas pricing — likely automated"@) + finding(
        mostly_round(total, obs),
        "Mostly round ETH values"@,
    );
    if found.len() == 0 {
        seq!["No strong bot indicators detected"@]
    } else {
        found
    }
}

/// The bot probability in hundredths: 30 for high frequency, 20 for low
/// diversity, 25 for uniform gas prices, 15 for round values.
pub open spec fn bot_score(total: int, unique: int, obs: TxObservations) -> int {
    (if frequent(total, obs) {
        30int
    } else {
        0
    }) + (if low_diversity(total, unique) {
        20int
    } else {
        0
    }) + (if obs.uniform_gas {
        25int
    } else {
        0
    }) + (if mostly_round(total, obs) {
        15int
    } else {
        0
    })
}

/// Weighs the bot indicators of an address.
pub fn assess(total: usize, unique: usize, obs: &TxObservations) -> (r: (Vec<String>, u32))
    ensures
        r.0.deep_view() == indicator_texts(total as int, unique as int, *obs),
        r.1 == bot_score(total as int, unique as int, *obs),
        r.0.len() >= 1,
        r.1 <= 100,
{
    let mut indicators: Vec<String> = Vec::new();
    let mut score: u32 = 0;
    if total > 100 {
        match &obs.high_frequency {
            Some(rate) => {
                score = score + 30;
                indicators.push(concat3("High frequency: ", rate.as_str(), " tx/hour"));
            },
            None => {},
        }
    }
    let ghost after_frequency = indicators.deep_view();
    if total > 10 && unique < total / 5 {
        score = score + 20;
        indicators.push(owned("Low address diversity — interacts with few unique addresses"));
    }
    let ghost after_diversity = indicators.deep_view();
    if obs.uniform_gas {
        score = score + 25;
        indicators.push(owned("Very uniform gas pricing — likely automated"));
    }
    let ghost after_gas = indicators.deep_view();
    if total > 5 && (obs.round_value_count as u128) * 5 > (total as u128) * 4 {
        score = score + 15;
        indicators.push(owned("Mostly round ETH values"));
    }
    let ghost rate = rate_text(*obs);
    let ghost t = total as int;
    let ghost u = unique as int;
    assert(after_frequency =~= finding(frequent(t, *obs), "High frequency: "@ + rate + " tx/hour"@));
    assert(after_diversity =~= after_frequency + finding(
        low_diversity(t, u),
        "Low address diversity — interacts with few unique addresses"@,
    ));
    assert(after_gas =~= after_diversity + finding(
        obs.uniform_gas,
        "Very uniform gas pricing — likely automated"@,
    ));
    assert(indicators.deep_view() =~= after_gas + finding(
        mostly_round(t, *obs),
        "Mostly round ETH values"@,
    ));
    if indicators.len() == 0 {
        indicators.push(owned("No strong bot indicators detected"));
        assert(indicators.deep_view() =~= seq!["No strong bot indicators detected"@]);
    }
    (indicators, score)
}

/// The first ten transactions (all of them when there are fewer).
pub fn sample_of(txs: &Vec<EtherscanTx>) -> (s: Vec<EtherscanTx>)
    ensures
        s@ == txs@.take(if txs.len() < 10 {
            txs.len() as int
        } else {
            10
        }),
{
    let n: usize = if txs.len() < 10 {
        txs.len()
    } else {
        10
    };
    let mut s: Vec<EtherscanTx> = Vec::new();
    let mut i: usize = 0;
    while i < n
        invariant
            n <= txs.len(),
            i <= n,
            s@ == txs@.take(i as int),
        decreases n - i,
    {
        s.push(txs[i].duplicate());
        assert(txs@.take(i + 1) =~= txs@.take(i as int).push(txs@[i as int]));
        i += 1;
    }
    s
}

/// The integer-valued analysis of the transactions of `address`, given the
/// observations made in floating point.
pub fn analysis_core(address: &str, txs: &Vec<EtherscanTx>, obs: &TxObservations) -> (a: AnalysisCore)
    ensures
        a.total_transactions == txs.len(),
        a.unique_addresses_interacted == counterparties(address@, txs@).len(),
        a.first_seen@ == seen_text(time_or_zero(earliest(txs@))),
        a.last_seen@ == seen_text(time_or_zero(latest(txs@))),
        a.indicators.deep_view() == indicator_texts(
            txs.len() as int,
            counterparties(address@, txs@).len() as int,
            *obs,
        ),
        a.bot_score_percent == bot_score(
            txs.len() as int,
            counterparties(address@, txs@).len() as int,
            *obs,
        ),
        a.bot_score_percent <= 100,
        a.sample@ == txs@.take(if txs.len() < 10 {
            txs.len() as int
        } else {
            10
        }),
{
    let total = txs.len();
    let unique = count_counterparties(address, txs);
    let (first, last) = activity_window(txs);
    let (indicators, score) = assess(total, unique, obs);
    AnalysisCore {
        total_transactions: total,
        unique_addresses_interacted: unique,
        first_seen: seen_at(first),
        last_seen: seen_at(last),
        bot_score_percent: score,
        indicators,
        sample: sample_of(txs),
    }
}

/// No address interacts with more distinct addresses than it has
/// transactions.
pub proof fn lemma_counterparties_bounded(address: Seq<char>, txs: Seq<EtherscanTx>)
    ensures
        counterparties(address, txs).len() <= txs.len(),
{
    let list = counterparty_list(unicode_lowercase(address), txs);
    list.lemma_cardinality_of_set();
}


// ── Laws of the analyzer ─────────────────────────────────────────────────────

/// The address a transaction is counted for is the other side of it: the
/// (lower-cased) recipient when the analyzed address sent it, the
/// (lower-cased) sender otherwise.
pub proof fn lemma_counterparty_is_other_side(address: Seq<char>, tx: EtherscanTx)
    ensures
        unicode_lowercase(tx.from@) == unicode_lowercase(address) ==> counterparties(
            address,
            seq![tx],
        ) == set![unicode_lowercase(tx.to@)],
        unicode_lowercase(tx.from@) != unicode_lowercase(address) ==> counterparties(
            address,
            seq![tx],
        ) == set![unicode_lowercase(tx.from@)],
{
    let list = counterparty_list(unicode_lowercase(address), seq![tx]);
    assert(list.len() == 1);
    let expected = if unicode_lowercase(tx.from@) == unicode_lowercase(address) {
        unicode_lowercase(tx.to@)
    } else {
        unicode_lowercase(tx.from@)
    };
    assert(list[0] == expected);
    assert(list.to_set() =~= set![expected]) by {
        assert forall|a: Seq<char>| list.to_set().contains(a) <==> set![expected].contains(a) by {
            if list.contains(a) {
                let i = choose|i: int| 0 <= i < list.len() && list[i] == a;
                assert(i == 0);
            }
            if a == expected {
                assert(list[0] == a);
            }
        }
    }
}

/// A wallet that only sends interacted exactly with the (lower-cased)
/// recipients of its transactions; so a wallet that sends to n distinct
/// recipients interacted with n addresses.
pub proof fn lemma_sender_interacts_with_recipients(address: Seq<char>, txs: Seq<EtherscanTx>)
    requires
        forall|i: int| 0 <= i < txs.len() ==> unicode_lowercase(#[trigger] txs[i].from@) == unicode_lowercase(address),
    ensures
        counterparties(address, txs) == txs.map_values(|tx: EtherscanTx| unicode_lowercase(tx.to@)).to_set(),
{
    let list = counterparty_list(unicode_lowercase(address), txs);
    let recipients = txs.map_values(|tx: EtherscanTx| unicode_lowercase(tx.to@));
    assert(list =~= recipients) by {
        assert forall|i: int| 0 <= i < txs.len() implies list[i] == recipients[i] by {
            assert(unicode_lowercase(txs[i].from@) == unicode_lowercase(address));
        }
    }
}

/// A wallet that only receives interacted exactly with the (lower-cased)
/// senders of its transactions.
pub proof fn lemma_receiver_interacts_with_senders(address: Seq<char>, txs: Seq<EtherscanTx>)
    requires
        forall|i: int| 0 <= i < txs.len() ==> unicode_lowercase(#[trigger] txs[i].from@) != unicode_lowercase(address),
    ensures
        counterparties(address, txs) == txs.map_values(|tx: EtherscanTx| unicode_lowercase(tx.from@)).to_set(),
{
    let list = counterparty_list(unicode_lowercase(address), txs);
    let senders = txs.map_values(|tx: EtherscanTx| unicode_lowercase(tx.from@));
    assert(list =~= senders) by {
        assert forall|i: int| 0 <= i < txs.len() implies list[i] == senders[i] by {
            assert(unicode_lowercase(txs[i].from@) != unicode_lowercase(address));
        }
    }
}

/// The text of the low-diversity finding.
pub open spec fn low_diversity_text() -> Seq<char> {
    "Low address diversity — interacts with few unique addresses"@
}

/// The bot score adds 30 for more than 100 transactions at a high rate, 20
/// when more than 10 transactions have fewer distinct counterparties than a
/// fifth of their count, 25 for uniform gas prices, and 15 when more than 80%
/// of more than 5 transactions move whole ether; it never exceeds 90.
pub proof fn lemma_bot_score_weights(total: int, unique: int, obs: TxObservations)
    ensures
        bot_score(total, unique, obs) == (if total > 100 && obs.high_frequency is Some {
            30int
        } else {
            0
        }) + (if total > 10 && unique < total / 5 {
            20int
        } else {
            0
        }) + (if obs.uniform_gas {
            25int
        } else {
            0
        }) + (if total > 5 && obs.round_value_count * 5 > total * 4 {
            15int
        } else {
            0
        }),
        0 <= bot_score(total, unique, obs) <= 90,
{
}

/// The low-diversity finding is reported exactly when there are more than
/// ten transactions and fewer distinct counterparties than a fifth of their
/// count.
pub proof fn lemma_low_diversity_reported(total: int, unique: int, obs: TxObservations)
    ensures
        indicator_texts(total, unique, obs).contains(low_diversity_text()) <==> (total > 10 && unique
            < total / 5),
{
    reveal_strlit("Low address diversity — interacts with few unique addresses");
    reveal_strlit("High frequency: ");
    reveal_strlit("Very uniform gas pricing — likely automated");
    reveal_strlit("Mostly round ETH values");
    reveal_strlit("No strong bot indicators detected");
    let rate = rate_text(obs);
    let t1 = "High frequency: "@ + rate + " tx/hour"@;
    let t2 = low_diversity_text();
    let t3 = "Very uniform gas pricing — likely automated"@;
    let t4 = "Mostly round ETH values"@;
    let t5 = "No strong bot indicators detected"@;
    assert(t1[0] == 'H');
    assert(t2[0] == 'L');
    assert(t3[0] == 'V');
    assert(t4[0] == 'M');
    assert(t5[0] == 'N');
    let f1 = finding(frequent(total, obs), t1);
    let f2 = finding(low_diversity(total, unique), t2);
    let f3 = finding(obs.uniform_gas, t3);
    let f4 = finding(mostly_round(total, obs), t4);
    let found = f1 + f2 + f3 + f4;
    if total > 10 && unique < total / 5 {
        assert(found[f1.len() as int] == t2);
        assert(indicator_texts(total, unique, obs) == found);
        assert(found.contains(t2));
    } else {
        assert forall|i: int| 0 <= i < found.len() implies found[i] != t2 by {
            if i < f1.len() {
                assert(found[i] == t1);
            } else if i < f1.len() + f2.len() {
                assert(false);
            } else if i < f1.len() + f2.len() + f3.len() {
                assert(found[i] == t3);
            } else {
                assert(found[i] == t4);
            }
        }
        if found.len() == 0 {
            assert(indicator_texts(total, unique, obs) == seq![t5]);
            assert(!seq![t5].contains(t2)) by {
                if seq![t5].contains(t2) {
                    let i = choose|i: int| 0 <= i < 1 && seq![t5][i] == t2;
                    assert(seq![t5][i] == t5);
                }
            }
        } else {
            assert(indicator_texts(total, unique, obs) == found);
            assert(!found.contains(t2));
        }
    }
}

/// A value written `0x` followed by hexadecimal digits is read in full as a
/// `u128` whenever it fits one (20 ETH, `0x1158e460913d00000`, included), and
/// a missing value reads as 0; likewise the gas price, and the block number
/// as a `u64`.
pub proof fn lemma_quantities_read_in_full(lookup: TxLookup, f: TxFacts, digits: Seq<char>)
    requires
        facts_read(f, lookup),
        digits.len() > 0,
        all_digits_in(digits, 16),
    ensures
        lookup.value matches Some(v) && v@ == "0x"@ + digits && digits_value(digits, 16)
            <= u128::MAX ==> f.value_wei == digits_value(digits, 16),
        lookup.gas_price matches Some(v) && v@ == "0x"@ + digits && digits_value(digits, 16)
            <= u128::MAX ==> f.gas_price_wei == digits_value(digits, 16),
        lookup.block_number matches Some(v) && v@ == "0x"@ + digits && digits_value(digits, 16)
            <= u64::MAX ==> f.block_number == digits_value(digits, 16),
        lookup.value is None ==> f.value_wei == 0,
        lookup.gas_price is None ==> f.gas_price_wei == 0,
        lookup.block_number is None ==> f.block_number == 0,
{
    reveal_strlit("0x");
    reveal_strlit("0x0");
    lemma_marked_hex_reads(digits);
    let zero = "0x0"@;
    assert(zero.skip(2) =~= seq!['0']);
    assert(trim_hex_marker(zero) == trim_hex_marker(seq!['0']));
    assert(seq!['0'].drop_last() =~= Seq::<char>::empty());
    assert(all_digits_in(seq!['0'], 16));
    assert(zero[0] == '0' && zero[1] == 'x' && zero.len() == 3);
    assert(trim_hex_marker(seq!['0']) == seq!['0']);
    assert(trim_hex_marker(zero) == seq!['0']);
    assert(digits_value(Seq::<char>::empty(), 16) == 0);
    assert(seq!['0'].last() == '0');
    assert(digit_value('0', 16) == 0);
    assert(digits_value(seq!['0'], 16) == digits_value(seq!['0'].drop_last(), 16) * 16 + digit_value('0', 16));
    assert(digits_value(seq!['0'], 16) == 0);
    assert(parse_unsigned(seq!['0'], 16, u128::MAX as int) == Some(0int));
    assert(parse_unsigned(seq!['0'], 16, u64::MAX as int) == Some(0int));
}

/// `0x` followed by hexadecimal digits trims to the digits, which read as
/// their value.
proof fn lemma_marked_hex_reads(digits: Seq<char>)
    requires
        digits.len() > 0,
        all_digits_in(digits, 16),
    ensures
        trim_hex_marker("0x"@ + digits) == digits,
        parse_unsigned(digits, 16, u128::MAX as int) == (if digits_value(digits, 16) <= u128::MAX {
            Some(digits_value(digits, 16))
        } else {
            None::<int>
        }),
        parse_unsigned(digits, 16, u64::MAX as int) == (if digits_value(digits, 16) <= u64::MAX {
            Some(digits_value(digits, 16))
        } else {
            None::<int>
        }),
{
    reveal_strlit("0x");
    let s = "0x"@ + digits;
    assert(s[0] == '0' && s[1] == 'x');
    assert(s.skip(2) =~= digits);
    assert(is_digit_in(digits[0], 16));
    if digits.len() >= 2 {
        assert(is_digit_in(digits[1], 16));
    }
    assert(trim_hex_marker(digits) == digits);
}


/// The sanitized host is the host with exactly its alphanumeric characters,
/// dots and dashes kept, in order, and every other character dropped.
pub proof fn lemma_sanitize_keeps_exactly_safe_chars(host: Seq<char>)
    ensures
        sanitized(host) == host.filter(|c: char| unicode_alphanumeric(c) || c == '.' || c == '-'),
    decreases host.len(),
{
    let keep = |c: char| unicode_alphanumeric(c) || c == '.' || c == '-';
    if host.len() == 0 {
        assert(host.filter(keep) =~= host) by {
            reveal(Seq::filter);
        }
    } else {
        let rest = host.drop_last();
        lemma_sanitize_keeps_exactly_safe_chars(rest);
        assert(rest.push(host.last()) =~= host);
        rest.lemma_filter_push(host.last(), keep);
    }
}

/// Every readable transaction time lies between the first and the last time
/// of the analysis, and both are readable times of some transaction.
pub proof fn lemma_window_bounds(txs: Seq<EtherscanTx>)
    ensures
        forall|i: int|
            0 <= i < txs.len() && (#[trigger] tx_time(txs[i])) is Some ==> {
                &&& earliest(txs) is Some
                &&& latest(txs) is Some
                &&& earliest(txs)->0 <= tx_time(txs[i])->0 <= latest(txs)->0
            },
        earliest(txs) matches Some(f) ==> exists|i: int| 0 <= i < txs.len() && tx_time(txs[i]) == Some(f),
        latest(txs) matches Some(l) ==> exists|i: int| 0 <= i < txs.len() && tx_time(txs[i]) == Some(l),
    decreases txs.len(),
{
    if txs.len() > 0 {
        let rest = txs.drop_last();
        lemma_window_bounds(rest);
        let n = txs.len() - 1;
        assert forall|i: int|
            0 <= i < txs.len() && (#[trigger] tx_time(txs[i])) is Some implies {
                &&& earliest(txs) is Some
                &&& latest(txs) is Some
                &&& earliest(txs)->0 <= tx_time(txs[i])->0 <= latest(txs)->0
            } by {
            if i < n {
                assert(txs[i] == rest[i]);
                assert(tx_time(rest[i]) is Some);
            }
        }
        if earliest(txs) is Some {
            let f = earliest(txs)->0;
            if tx_time(txs[n]) == Some(f) {
            } else {
                let j = choose|j: int| 0 <= j < rest.len() && tx_time(rest[j]) == Some(f);
                assert(txs[j] == rest[j]);
            }
        }
        if latest(txs) is Some {
            let l = latest(txs)->0;
            if tx_time(txs[n]) == Some(l) {
            } else {
                let j = choose|j: int| 0 <= j < rest.len() && tx_time(rest[j]) == Some(l);
                assert(txs[j] == rest[j]);
            }
        }
    }
}


/// Which findings the analysis reports: uniform gas pricing exactly when it
/// was observed; round values exactly when more than 80% of more than 5
/// transactions move whole ether; the observed high rate exactly when there
/// are more than 100 transactions; and the note that nothing was found
/// exactly when none of the four findings holds.
pub proof fn lemma_findings_reported(total: int, unique: int, obs: TxObservations)
    ensures
        indicator_texts(total, unique, obs).contains("Very uniform gas pricing — likely automated"@)
            <==> obs.uniform_gas,
        indicator_texts(total, unique, obs).contains("Mostly round ETH values"@) <==> (total > 5
            && obs.round_value_count * 5 > total * 4),
        obs.high_frequency matches Some(r) ==> (indicator_texts(total, unique, obs).contains(
            "High frequency: "@ + r@ + " tx/hour"@,
        ) <==> total > 100),
        indicator_texts(total, unique, obs).contains("No strong bot indicators detected"@) <==> !(
        (total > 100 && obs.high_frequency is Some) || (total > 10 && unique < total / 5)
            || obs.uniform_gas || (total > 5 && obs.round_value_count * 5 > total * 4)),
        indicator_texts(total, unique, obs).len() >= 1,
{
    reveal_strlit("Low address diversity — interacts with few unique addresses");
    reveal_strlit("High frequency: ");
    reveal_strlit("Very uniform gas pricing — likely automated");
    reveal_strlit("Mostly round ETH values");
    reveal_strlit("No strong bot indicators detected");
    let rate = rate_text(obs);
    let t1 = "High frequency: "@ + rate + " tx/hour"@;
    let t2 = low_diversity_text();
    let t3 = "Very uniform gas pricing — likely automated"@;
    let t4 = "Mostly round ETH values"@;
    let t5 = "No strong bot indicators detected"@;
    assert(t1[0] == 'H');
    assert(t2[0] == 'L');
    assert(t3[0] == 'V');
    assert(t4[0] == 'M');
    assert(t5[0] == 'N');
    let c1 = frequent(total, obs);
    let c2 = low_diversity(total, unique);
    let c3 = obs.uniform_gas;
    let c4 = mostly_round(total, obs);
    let f1 = finding(c1, t1);
    let f2 = finding(c2, t2);
    let f3 = finding(c3, t3);
    let f4 = finding(c4, t4);
    let found = f1 + f2 + f3 + f4;
    let shown = indicator_texts(total, unique, obs);
    // Each entry of `found` is the text of a finding that holds.
    assert forall|i: int| 0 <= i < found.len() implies {
        ||| (c1 && found[i] == t1)
        ||| (c2 && found[i] == t2)
        ||| (c3 && found[i] == t3)
        ||| (c4 && found[i] == t4)
    } by {
        if i < f1.len() {
            assert(found[i] == f1[i]);
        } else if i < f1.len() + f2.len() {
            assert(found[i] == f2[i - f1.len()]);
        } else if i < f1.len() + f2.len() + f3.len() {
            assert(found[i] == f3[i - f1.len() - f2.len()]);
        } else {
            assert(found[i] == f4[i - f1.len() - f2.len() - f3.len()]);
        }
    }
    if c1 {
        assert(found[0] == t1);
    }
    if c3 {
        assert(found[(f1.len() + f2.len()) as int] == t3);
    }
    if c4 {
        assert(found[(f1.len() + f2.len() + f3.len()) as int] == t4);
    }
    if c2 {
        assert(found[f1.len() as int] == t2);
    }
    if found.len() == 0 {
        assert(shown == seq![t5]);
        assert(shown[0] == t5);
        assert forall|x: Seq<char>| shown.contains(x) implies x == t5 by {
            let i = choose|i: int| 0 <= i < shown.len() && shown[i] == x;
            assert(i == 0);
        }
    } else {
        assert(shown == found);
        assert(!found.contains(t5)) by {
            if found.contains(t5) {
                let i = choose|i: int| 0 <= i < found.len() && found[i] == t5;
                assert(found[i][0] != 'N');
            }
        }
        if found.contains(t3) {
            let i = choose|i: int| 0 <= i < found.len() && found[i] == t3;
            assert(found[i][0] == 'V');
        }
        if found.contains(t4) {
            let i = choose|i: int| 0 <= i < found.len() && found[i] == t4;
            assert(found[i][0] == 'M');
        }
        if obs.high_frequency is Some && found.contains(t1) {
            let i = choose|i: int| 0 <= i < found.len() && found[i] == t1;
            assert(found[i][0] == 'H');
        }
    }
}

} // verus!
