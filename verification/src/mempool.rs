//! The mempool.space REST API: where to ask, and what the answers mean.

use crate::double::Double;
use crate::json;
use crate::json::ObjectText;
use crate::text;
use serde_json::Value;
use vstd::prelude::*;

verus! {

/// Base address of the API for the main network.
pub const MEMPOOL_API_MAINNET: &'static str = "https://mempool.space/api";

/// Base address of the API for signet.
pub const MEMPOOL_API_SIGNET: &'static str = "https://mempool.space/signet/api";

/// Why a query of the API has no answer.
#[derive(Debug, Clone)]
pub enum MempoolError {
    /// The request failed, or its answer could not be read; with the words of the HTTP client.
    Http(String),
    /// The API does not know the transaction.
    NotFound,
    /// The API refused the request with this HTTP status.
    ClientError(u16),
}

impl MempoolError {
    /// The words for this error.
    pub open spec fn words(self) -> Seq<char> {
        match self {
            MempoolError::Http(detail) => "HTTP request failed: "@ + detail@,
            MempoolError::NotFound => "Transaction not found"@,
            MempoolError::ClientError(code) => "Client error from mempool API: HTTP "@
                + text::decimal(code as nat),
        }
    }

    /// The error in words.
    pub fn message(&self) -> (r: String)
        ensures
            r@ == self.words(),
    {
        match self {
            MempoolError::Http(detail) => {
                let mut out = "HTTP request failed: ".to_owned();
                out.append(detail.as_str());
                out
            },
            MempoolError::NotFound => "Transaction not found".to_owned(),
            MempoolError::ClientError(code) => {
                let mut out = "Client error from mempool API: HTTP ".to_owned();
                text::push_decimal(&mut out, *code as u64);
                out
            },
        }
    }
}

/// Answer of `GET /tx/{txid}/status`.
#[derive(Debug, Clone)]
pub struct TxStatus {
    pub confirmed: bool,
    pub block_height: Option<u64>,
    pub block_hash: Option<String>,
    pub block_time: Option<u64>,
}

impl TxStatus {
    /// The height of the block that holds the transaction; none while it is pending.
    pub open spec fn confirmed_height(self) -> Option<u64> {
        if self.confirmed {
            self.block_height
        } else {
            None
        }
    }
}

/// What the monitor takes from `GET /tx/{txid}`.
#[derive(Debug, Clone)]
pub struct TxFee {
    pub fee: u64,
    pub weight: u64,
    pub vsize: u64,
    /// Sum of all outputs in satoshis.
    pub value_sat: u64,
}

/// The fee of a transaction as the monitor uses it.
#[derive(Debug, Clone, Copy, PartialEq, Eq, Structural)]
pub struct FeeQuote {
    /// Fee paid in satoshis.
    pub fee_sats: u64,
    /// Total transferred value in satoshis.
    pub value_sat: u64,
    /// Fee rate in satoshis per virtual byte; zero where the size is unknown.
    pub rate: Double,
}

impl TxFee {
    /// The quote for this fee, where `ratio` is the double `fee / vsize`. A transaction of
    /// unknown size has rate zero, whatever the ratio.
    pub fn quote(&self, ratio: Double) -> (r: FeeQuote)
        ensures
            r.fee_sats == self.fee,
            r.value_sat == self.value_sat,
            self.vsize > 0 ==> r.rate == ratio,
            self.vsize == 0 ==> r.rate.bits == 0,
    {
        let rate = if self.vsize > 0 {
            ratio
        } else {
            Double::zero()
        };
        FeeQuote { fee_sats: self.fee, value_sat: self.value_sat, rate }
    }
}

/// One projected block of `GET /v1/fees/mempool-blocks`. Index 0 is the next block.
#[derive(Debug, Clone)]
pub struct MempoolBlock {
    /// Virtual size of all transactions in the block.
    pub block_vsize: Double,
    /// Number of transactions in the block.
    pub n_tx: u32,
    /// Median fee rate in satoshis per virtual byte.
    pub median_fee: Double,
    /// Fee rates from the lowest to the highest; the first is what a transaction must pay to be
    /// in the block.
    pub fee_range: Vec<Double>,
}

/// State of a transaction as a stream event reports it.
#[derive(Debug, Clone)]
pub struct TxEvent {
    pub txid: String,
    pub status: TxStatus,
    pub fee: Option<u64>,
    pub vsize: Option<u64>,
}

/// The members of an event's JSON object in their order: the status stands beside the other
/// members, and what says where a transaction was confirmed is null while it is not.
pub open spec fn event_members(
    txid: Seq<char>,
    status: TxStatus,
    fee: Option<u64>,
    vsize: Option<u64>,
) -> Seq<(Seq<char>, json::JsonView)> {
    seq![
        ("txid"@, json::JsonView::Text(txid)),
        ("confirmed"@, json::JsonView::Bool(status.confirmed)),
        ("block_height"@, json::number_or_null(status.confirmed_height())),
        (
            "block_hash"@,
            json::text_or_null(
                if status.confirmed {
                    json::optional_chars(status.block_hash)
                } else {
                    None
                },
            ),
        ),
        (
            "block_time"@,
            json::number_or_null(
                if status.confirmed {
                    status.block_time
                } else {
                    None
                },
            ),
        ),
        ("fee"@, json::number_or_null(fee)),
        ("vsize"@, json::number_or_null(vsize)),
    ]
}

impl TxEvent {
    /// The event as JSON text.
    pub fn to_json(&self) -> (r: String)
        ensures
            r@ == json::object_text(
                event_members(self.txid@, self.status, self.fee, self.vsize),
            ),
    {
        let mut out = ObjectText::new();
        out.put("txid", &json::text_value(self.txid.as_str()));
        out.put("confirmed", &json::bool_value(self.status.confirmed));
        if self.status.confirmed {
            out.put("block_height", &json::optional_number(self.status.block_height));
            out.put("block_hash", &json::optional_text(&self.status.block_hash));
            out.put("block_time", &json::optional_number(self.status.block_time));
        } else {
            out.put("block_height", &json::null_value());
            out.put("block_hash", &json::null_value());
            out.put("block_time", &json::null_value());
        }
        out.put("fee", &json::optional_number(self.fee));
        out.put("vsize", &json::optional_number(self.vsize));
        assert(out.members() =~= event_members(self.txid@, self.status, self.fee, self.vsize));
        out.finish()
    }
}

/// The error that an HTTP status stands for on the transaction endpoints, if it is one of
/// those that the API sends for a request it refuses.
pub open spec fn refusal(code: u16) -> Option<MempoolError> {
    if code == 404 {
        Some(MempoolError::NotFound)
    } else if 400 <= code < 500 {
        Some(MempoolError::ClientError(code))
    } else {
        None
    }
}

fn refused(code: u16) -> (r: Option<MempoolError>)
    ensures
        r == refusal(code),
{
    if code == 404 {
        Some(MempoolError::NotFound)
    } else if 400 <= code && code < 500 {
        Some(MempoolError::ClientError(code))
    } else {
        None
    }
}

/// The words of the HTTP client for a body that is no JSON.
pub const UNREADABLE_BODY: &'static str = "error decoding response body";

/// Whether `r` is the error of a failed request with the words `detail`.
pub open spec fn is_http_error<T>(r: Result<T, MempoolError>, detail: Seq<char>) -> bool {
    r matches Err(MempoolError::Http(s)) && s@ == detail
}

/// The HTTP status says that the request failed.
pub open spec fn failed_status(code: u16) -> bool {
    400 <= code < 600
}

/// The words for a failed request of which only the HTTP status is known.
pub open spec fn status_words(code: u16) -> Seq<char> {
    "HTTP status "@ + text::decimal(code as nat)
}

/// What an answer brought: its body, or the words for why it has none that counts. Those of the
/// HTTP client come first; a body under a status of failure does not count.
pub open spec fn brought<T>(code: u16, body: Result<T, String>) -> Result<T, Seq<char>> {
    match body {
        Err(detail) => Err(detail@),
        Ok(body) => if failed_status(code) {
            Err(status_words(code))
        } else {
            Ok(body)
        },
    }
}

fn read_body<T>(code: u16, body: Result<T, String>) -> (r: Result<T, MempoolError>)
    ensures
        match brought(code, body) {
            Ok(body) => r == Ok::<T, MempoolError>(body),
            Err(detail) => is_http_error(r, detail),
        },
{
    match body {
        Err(detail) => Err(MempoolError::Http(detail)),
        Ok(body) => if 400 <= code && code < 600 {
            let mut detail = "HTTP status ".to_owned();
            text::push_decimal(&mut detail, code as u64);
            Err(MempoolError::Http(detail))
        } else {
            Ok(body)
        },
    }
}

/// The answer about the status of a transaction: `code` is the HTTP status, `body` the body as
/// the HTTP client decoded it, or its words for why it could not.
pub fn tx_status_reply(code: u16, body: Result<TxStatus, String>) -> (r: Result<
    TxStatus,
    MempoolError,
>)
    ensures
        match (refusal(code), brought(code, body)) {
            (Some(e), _) => r == Err::<TxStatus, MempoolError>(e),
            (None, Ok(status)) => r == Ok::<TxStatus, MempoolError>(status),
            (None, Err(detail)) => is_http_error(r, detail),
        },
{
    match refused(code) {
        Some(e) => Err(e),
        None => read_body(code, body),
    }
}

/// The member `key` of a transaction, as a number; zero where it is none.
pub open spec fn count(tx: json::JsonView, key: Seq<char>) -> u64 {
    match tx.member(key).unsigned() {
        Some(n) => n,
        None => 0,
    }
}

/// Sum of the values of outputs.
pub open spec fn outputs_total(outputs: Seq<json::JsonView>) -> nat
    decreases outputs.len(),
{
    if outputs.len() == 0 {
        0
    } else {
        outputs_total(outputs.drop_last()) + count(outputs.last(), "value"@) as nat
    }
}

/// The total transferred value of a transaction, modulo two to the 64th; zero without outputs.
pub open spec fn transferred(tx: json::JsonView) -> u64 {
    match tx.member("vout"@).elements() {
        Some(outputs) => (outputs_total(outputs) % 0x1_0000_0000_0000_0000) as u64,
        None => 0,
    }
}

/// The fee data of a transaction.
pub open spec fn fee_of(tx: json::JsonView) -> TxFee {
    TxFee {
        fee: count(tx, "fee"@),
        weight: count(tx, "weight"@),
        vsize: count(tx, "vsize"@),
        value_sat: transferred(tx),
    }
}

fn count_of(tx: &Value, key: &str) -> (r: u64)
    ensures
        r == count(json::json_view(*tx), key@),
{
    match json::member(tx, key).as_u64() {
        Some(n) => n,
        None => 0,
    }
}

fn sum_outputs(outputs: &Vec<Value>) -> (r: u64)
    ensures
        r == outputs_total(json::json_views(outputs@)) % 0x1_0000_0000_0000_0000,
{
    let ghost views = json::json_views(outputs@);
    let mut total: u64 = 0;
    let mut i: usize = 0;
    assert(views.take(0) =~= Seq::<json::JsonView>::empty());
    while i < outputs.len()
        invariant
            i <= outputs@.len(),
            views == json::json_views(outputs@),
            total == outputs_total(views.take(i as int)) % 0x1_0000_0000_0000_0000,
        decreases outputs@.len() - i,
    {
        assert(views.take(i + 1).drop_last() =~= views.take(i as int));
        total = total.wrapping_add(count_of(&outputs[i], "value"));
        i = i + 1;
    }
    assert(views.take(i as int) =~= views);
    total
}

/// The fee data of a transaction that the API describes by `tx`.
pub fn tx_fee(tx: &Value) -> (r: TxFee)
    ensures
        r == fee_of(json::json_view(*tx)),
{
    let value_sat = match json::member(tx, "vout").as_array() {
        Some(outputs) => sum_outputs(outputs),
        None => 0,
    };
    TxFee {
        fee: count_of(tx, "fee"),
        weight: count_of(tx, "weight"),
        vsize: count_of(tx, "vsize"),
        value_sat,
    }
}

/// The answer about the fee of a transaction: `code` is the HTTP status, `body` the bytes of the
/// body, or the HTTP client's words for why there are none.
pub fn tx_fee_reply(code: u16, body: Result<Vec<u8>, String>) -> (r: Result<TxFee, MempoolError>)
    ensures
        match (refusal(code), brought(code, body)) {
            (Some(e), _) => r == Err::<TxFee, MempoolError>(e),
            (None, Err(detail)) => is_http_error(r, detail),
            (None, Ok(bytes)) => match json::json_parse(bytes@) {
                Some(tx) => r == Ok::<TxFee, MempoolError>(fee_of(tx)),
                None => is_http_error(r, UNREADABLE_BODY@),
            },
        },
{
    match refused(code) {
        Some(e) => Err(e),
        None => match read_body(code, body) {
            Err(e) => Err(e),
            Ok(bytes) => match json::parse(bytes.as_slice()) {
                Ok(tx) => Ok(tx_fee(&tx)),
                Err(_) => Err(MempoolError::Http(UNREADABLE_BODY.to_owned())),
            },
        },
    }
}

/// The height that a text gives, white space around it aside; zero where it is no number.
pub open spec fn height_of(body: Seq<char>) -> u64 {
    match text::u64_value(text::trimmed(body)) {
        Some(height) => height,
        None => 0,
    }
}

/// The height that the text of `GET /blocks/tip/height` gives; zero where it is no number.
pub fn chain_tip(body: &str) -> (r: u64)
    ensures
        r == height_of(body@),
{
    match text::parse_u64(text::trim(body).as_str()) {
        Some(height) => height,
        None => 0,
    }
}

/// The answer about the height of the best block: `code` is the HTTP status, `body` the text of the
/// body, or the HTTP client's words for why there is none.
pub fn tip_reply(code: u16, body: Result<String, String>) -> (r: Result<u64, MempoolError>)
    ensures
        match brought(code, body) {
            Ok(text) => r == Ok::<u64, MempoolError>(height_of(text@)),
            Err(detail) => is_http_error(r, detail),
        },
{
    match read_body(code, body) {
        Ok(text) => Ok(chain_tip(text.as_str())),
        Err(e) => Err(e),
    }
}

/// The answer about the projected blocks: `code` is the HTTP status, `body` the body as the HTTP
/// client decoded it, or its words for why it could not.
pub fn blocks_reply(code: u16, body: Result<Vec<MempoolBlock>, String>) -> (r: Result<
    Vec<MempoolBlock>,
    MempoolError,
>)
    ensures
        match brought(code, body) {
            Ok(blocks) => r == Ok::<Vec<MempoolBlock>, MempoolError>(blocks),
            Err(detail) => is_http_error(r, detail),
        },
{
    read_body(code, body)
}

/// Access to the API of one network.
#[derive(Debug, Clone)]
pub struct MempoolClient {
    /// Base address of the API.
    pub base_url: String,
}

impl MempoolClient {
    /// A client for the network that `MEMPOOL_NETWORK` names: signet for `"signet"`, the main
    /// network for anything else or for no name.
    pub fn new(network: Option<&str>) -> (r: MempoolClient)
        ensures
            r.base_url@ == (match network {
                Some(name) => if name@ == "signet"@ {
                    MEMPOOL_API_SIGNET@
                } else {
                    MEMPOOL_API_MAINNET@
                },
                None => MEMPOOL_API_MAINNET@,
            }),
    {
        let signet = match network {
            Some(name) => text::same_text(name, "signet"),
            None => false,
        };
        let base_url = if signet {
            MEMPOOL_API_SIGNET.to_owned()
        } else {
            MEMPOOL_API_MAINNET.to_owned()
        };
        MempoolClient { base_url }
    }

    /// The address of the status of a transaction; [`tx_status_reply`] reads the answer.
    pub fn fetch_tx_status(&self, txid: &str) -> (r: String)
        ensures
            r@ == self.base_url@ + "/tx/"@ + txid@ + "/status"@,
    {
        let mut url = self.base_url.clone();
        url.append("/tx/");
        url.append(txid);
        url.append("/status");
        url
    }

    /// The address of the height of the best block; [`tip_reply`] reads the answer.
    pub fn fetch_chain_tip(&self) -> (r: String)
        ensures
            r@ == self.base_url@ + "/blocks/tip/height"@,
    {
        let mut url = self.base_url.clone();
        url.append("/blocks/tip/height");
        url
    }

    /// The address of the projected blocks; [`blocks_reply`] reads the answer.
    pub fn fetch_mempool_blocks(&self) -> (r: String)
        ensures
            r@ == self.base_url@ + "/v1/fees/mempool-blocks"@,
    {
        let mut url = self.base_url.clone();
        url.append("/v1/fees/mempool-blocks");
        url
    }

    /// The address of the details of a transaction; [`tx_fee_reply`] reads the answer.
    pub fn fetch_tx_fee(&self, txid: &str) -> (r: String)
        ensures
            r@ == self.base_url@ + "/tx/"@ + txid@,
    {
        let mut url = self.base_url.clone();
        url.append("/tx/");
        url.append(txid);
        url
    }
}

} // verus!
