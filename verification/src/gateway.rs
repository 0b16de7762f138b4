//! What the JSON-RPC gateway decides: which path it asks of the
//! ledger-history service, and what it makes of the answer.
//!
//! The gateway itself, which talks HTTP on both sides, stands outside this
//! library; it hands the answers in and sends the results out.

use vstd::prelude::*;
use vstd::string::StringExecFns;
use crate::models::horizon::{LedgerResponse, Response, RootResponse};
use crate::models::rpc::{Health, Ledger, Network};
use crate::text::{decimal, decimal_text};

verus! {

/// The code of every error that the gateway answers.
pub const RPC_ERROR_CODE: i32 = 2001;

/// An error that the gateway answers.
#[derive(Clone, Debug, PartialEq, Eq)]
pub struct RpcError {
    pub code: i32,
    pub message: String,
}

/// The texts of a list, with `separator` between each two.
pub open spec fn joined(parts: Seq<Seq<char>>, separator: Seq<char>) -> Seq<char>
    decreases parts.len(),
{
    if parts.len() == 0 {
        Seq::empty()
    } else if parts.len() == 1 {
        parts[0]
    } else {
        joined(parts.drop_last(), separator) + separator + parts.last()
    }
}

/// The parameters of a query for a page of ledgers: the cursor, the limit
/// and the order, each where it is given, in that order.
pub open spec fn ledgers_params(
    cursor: Option<Seq<char>>,
    limit: Option<u32>,
    order: Option<Seq<char>>,
) -> Seq<Seq<char>> {
    (match cursor {
        Some(c) => seq!["cursor="@ + c],
        None => Seq::empty(),
    }) + (match limit {
        Some(n) => seq!["limit="@ + decimal(n as nat)],
        None => Seq::empty(),
    }) + (match order {
        Some(o) => seq!["order="@ + o],
        None => Seq::empty(),
    })
}

/// The path that asks for a page of ledgers: `ledgers`, and the parameters
/// behind a `?`, where there are any.
pub open spec fn ledgers_path_of(
    cursor: Option<Seq<char>>,
    limit: Option<u32>,
    order: Option<Seq<char>>,
) -> Seq<char> {
    let params = ledgers_params(cursor, limit, order);
    if params.len() == 0 {
        "ledgers"@
    } else {
        "ledgers?"@ + joined(params, "&"@)
    }
}

fn param(name: &str, value: &str) -> (r: String)
    ensures
        r@ == name@ + value@,
{
    String::from_str(name).concat(value)
}

fn join(parts: &Vec<String>, separator: &str) -> (r: String)
    ensures
        r@ == joined(parts@.map_values(|s: String| s@), separator@),
{
    let ghost texts = parts@.map_values(|s: String| s@);
    let mut out = String::new();
    let mut i: usize = 0;
    while i < parts.len()
        invariant
            i <= parts@.len(),
            texts == parts@.map_values(|s: String| s@),
            out@ == joined(texts.take(i as int), separator@),
        decreases parts@.len() - i,
    {
        if i > 0 {
            out.append(separator);
        }
        out.append(parts[i].as_str());
        proof {
            let upto = texts.take(i + 1);
            assert(upto.drop_last() =~= texts.take(i as int));
            assert(upto.last() == parts@[i as int]@);
            if i == 0 {
                assert(out@ =~= upto[0]);
            }
        }
        i = i + 1;
    }
    assert(texts.take(i as int) =~= texts);
    out
}

/// The path that asks the service for a page of ledgers.
pub fn ledgers_path(cursor: Option<String>, limit: Option<u32>, order: Option<&str>) -> (r: String)
    ensures
        r@ == ledgers_path_of(
            match cursor {
                Some(c) => Some(c@),
                None => None,
            },
            limit,
            match order {
                Some(o) => Some(o@),
                None => None,
            },
        ),
{
    let mut params: Vec<String> = Vec::new();
    let ghost mut texts: Seq<Seq<char>> = Seq::empty();
    if let Some(cursor) = cursor {
        params.push(param("cursor=", cursor.as_str()));
        proof {
            texts = texts.push("cursor="@ + cursor@);
        }
    }
    if let Some(limit) = limit {
        let number = decimal_text(limit);
        params.push(param("limit=", number.as_str()));
        proof {
            texts = texts.push("limit="@ + decimal(limit as nat));
        }
    }
    if let Some(order) = order {
        params.push(param("order=", order));
        proof {
            texts = texts.push("order="@ + order@);
        }
    }
    proof {
        assert(params@.map_values(|s: String| s@) =~= texts);
        assert(texts =~= ledgers_params(
            match cursor {
                Some(c) => Some(c@),
                None => None,
            },
            limit,
            match order {
                Some(o) => Some(o@),
                None => None,
            },
        ));
    }
    if params.len() == 0 {
        String::from_str("ledgers")
    } else {
        String::from_str("ledgers?").concat(join(&params, "&").as_str())
    }
}

/// The path that asks the service for the page of ledgers that the gateway
/// answers with: from the cursor, up to the limit, newest first.
pub fn ledgers_page_path(cursor: Option<String>, limit: Option<u32>) -> (r: String)
    ensures
        r@ == ledgers_path_of(
            match cursor {
                Some(c) => Some(c@),
                None => None,
            },
            limit,
            Some("desc"@),
        ),
{
    ledgers_path(cursor, limit, Some("desc"))
}

/// The path that asks the service for the ledger with a given sequence
/// number.
pub fn ledger_path(sequence: u32) -> (r: String)
    ensures
        r@ == "ledgers/"@ + decimal(sequence as nat),
{
    String::from_str("ledgers/").concat(decimal_text(sequence).as_str())
}

/// The path that asks the service for its latest ledger.
pub fn latest_ledger_path() -> (r: &'static str)
    ensures
        r@ == "ledgers?order=desc&limit=1"@,
{
    "ledgers?order=desc&limit=1"
}

/// The first record of a page, where the answer has a page and the page a
/// record.
pub fn first_record<T>(response: Response<T>) -> (r: Option<T>)
    ensures
        r == match response._embedded {
            Some(page) => if page.records@.len() > 0 {
                Some(page.records@[0])
            } else {
                None
            },
            None => None,
        },
{
    match response._embedded {
        Some(page) => {
            let mut records = page.records;
            if records.len() > 0 {
                Some(records.remove(0))
            } else {
                None
            }
        },
        None => None,
    }
}

/// What is said where the service names no latest ledger.
pub open spec fn no_ledger_found() -> Seq<char> {
    "No ledger found in response"@
}

/// The latest ledger of an answer to [`latest_ledger_path`]: the first
/// record of the page, and the reason in words where there is none.
pub fn latest_record(response: Response<LedgerResponse>) -> (r: Result<
    LedgerResponse,
    &'static str,
>)
    ensures
        match response._embedded {
            Some(page) => if page.records@.len() > 0 {
                r == Ok::<LedgerResponse, &'static str>(page.records@[0])
            } else {
                r matches Err(text) && text@ == no_ledger_found()
            },
            None => r matches Err(text) && text@ == no_ledger_found(),
        },
{
    match first_record(response) {
        Some(record) => Ok(record),
        None => Err("No ledger found in response"),
    }
}

/// Whether `ledger` is what the gateway answers for the service's `found`:
/// the same hash, numbers and closing time, and zero for an operation count
/// of the transaction set that the service left out.
pub open spec fn answers(ledger: Ledger, found: LedgerResponse) -> bool {
    &&& ledger.hash@ == found.hash@
    &&& ledger.sequence == found.sequence
    &&& ledger.closed_at@ == found.closed_at@
    &&& ledger.successful_transaction_count == found.successful_transaction_count
    &&& ledger.failed_transaction_count == found.failed_transaction_count
    &&& ledger.operation_count == found.operation_count
    &&& ledger.tx_set_operation_count == match found.tx_set_operation_count {
        Some(n) => n,
        None => 0,
    }
    &&& ledger.protocol_version == found.protocol_version
}

/// The ledger that the gateway answers for one that the service found.
pub fn ledger_of(found: &LedgerResponse) -> (r: Ledger)
    ensures
        answers(r, *found),
{
    Ledger {
        hash: found.hash.clone(),
        sequence: found.sequence,
        closed_at: found.closed_at.clone(),
        successful_transaction_count: found.successful_transaction_count,
        failed_transaction_count: found.failed_transaction_count,
        operation_count: found.operation_count,
        tx_set_operation_count: match found.tx_set_operation_count {
            Some(n) => n,
            None => 0,
        },
        protocol_version: found.protocol_version,
    }
}

/// The ledgers that the gateway answers for a page of the service: one for
/// each record, in the order of the page, and none where the answer has no
/// page.
pub fn ledgers_of(response: &Response<LedgerResponse>) -> (r: Vec<Ledger>)
    ensures
        match response._embedded {
            Some(page) => r@.len() == page.records@.len() && forall|i: int|
                0 <= i < r@.len() ==> answers(#[trigger] r@[i], page.records@[i]),
            None => r@.len() == 0,
        },
{
    let mut ledgers: Vec<Ledger> = Vec::new();
    match &response._embedded {
        Some(page) => {
            let mut i: usize = 0;
            while i < page.records.len()
                invariant
                    i <= page.records@.len(),
                    ledgers@.len() == i,
                    forall|j: int|
                        0 <= j < i ==> answers(#[trigger] ledgers@[j], page.records@[j]),
                decreases page.records@.len() - i,
            {
                ledgers.push(ledger_of(&page.records[i]));
                i = i + 1;
            }
        },
        None => {},
    }
    ledgers
}

/// What the gateway says of its health: `healthy` and the versions of the
/// service where the service answered, `error` and the cause where it did
/// not.
pub fn health_of(root: Result<&RootResponse, &str>) -> (r: Health)
    ensures
        match root {
            Ok(found) => r.status@ == "healthy"@ && r.horizon_status@ == "Horizon "@
                + found.horizon_version@ + ", Core "@ + found.core_version@,
            Err(cause) => r.status@ == "error"@ && r.horizon_status@
                == "Error connecting to Horizon: "@ + cause@,
        },
{
    match root {
        Ok(found) => Health {
            status: String::from_str("healthy"),
            horizon_status: String::from_str("Horizon ").concat(
                found.horizon_version.as_str(),
            ).concat(", Core ").concat(found.core_version.as_str()),
        },
        Err(cause) => Health {
            status: String::from_str("error"),
            horizon_status: String::from_str("Error connecting to Horizon: ").concat(cause),
        },
    }
}

/// The network that the gateway names: the passphrase of the service, and
/// for the protocol version the latest ledger that the service has taken in.
pub fn network_of(root: &RootResponse) -> (r: Network)
    ensures
        r.passphrase@ == root.network_passphrase@,
        r.protocol_version == root.ingest_latest_ledger,
{
    Network {
        passphrase: root.network_passphrase.clone(),
        protocol_version: root.ingest_latest_ledger,
    }
}

/// The error that answers a failed call.
pub fn rpc_error(msg: String) -> (r: RpcError)
    ensures
        r.code == RPC_ERROR_CODE,
        r.message@ == msg@,
{
    RpcError { code: RPC_ERROR_CODE, message: msg }
}

/// The error that answers a call for the network where the service could
/// not be asked.
pub fn network_failed(cause: &str) -> (r: RpcError)
    ensures
        r.code == RPC_ERROR_CODE,
        r.message@ == "Failed to get network info: "@ + cause@,
{
    rpc_error(String::from_str("Failed to get network info: ").concat(cause))
}

/// The error that answers a call for the latest ledger where the service
/// could not be asked or had no ledger.
pub fn latest_ledger_failed(cause: &str) -> (r: RpcError)
    ensures
        r.code == RPC_ERROR_CODE,
        r.message@ == "Failed to get latest ledger: "@ + cause@,
{
    rpc_error(String::from_str("Failed to get latest ledger: ").concat(cause))
}

/// The error that answers a call for a page of ledgers where the service
/// could not be asked.
pub fn ledgers_failed(cause: &str) -> (r: RpcError)
    ensures
        r.code == RPC_ERROR_CODE,
        r.message@ == "Failed to get ledgers: "@ + cause@,
{
    rpc_error(String::from_str("Failed to get ledgers: ").concat(cause))
}

/// The error that answers a method which the gateway does not serve.
pub fn not_implemented() -> (r: RpcError)
    ensures
        r.code == RPC_ERROR_CODE,
        r.message@ == "Not implemented"@,
{
    rpc_error(String::from_str("Not implemented"))
}

} // verus!
