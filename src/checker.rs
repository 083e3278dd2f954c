use vstd::prelude::*;

use crate::error::{error_text, CallError, Entry};
use crate::registry::{is_handle, CheckerRegistry};

verus! {

/// Rows that one sub-circuit is estimated to need.
#[derive(Debug)]
pub struct SubCircuitRowUsage {
    pub name: String,
    pub row_number: usize,
}

/// Rows that a block or a transaction is estimated to need, as the engine
/// reports them. The bridge passes these on as they are.
#[derive(Debug)]
pub struct RowUsage {
    pub is_ok: bool,
    pub row_number: usize,
    pub row_usage_details: Vec<SubCircuitRowUsage>,
}

/// What the host gets back from an estimation request: the accumulated and
/// the incremental row usage on success, or a message on failure.
#[derive(Debug)]
pub struct RowUsageResult {
    pub acc_row_usage: Option<RowUsage>,
    pub tx_row_usage: Option<RowUsage>,
    pub error: Option<String>,
}

/// What the bridge reads of a decoded block trace: the block hash, the hash
/// of each transaction, and how many execution results and per-transaction
/// storage traces it holds.
#[derive(Debug)]
pub struct TraceSummary {
    pub block_hash: String,
    pub tx_hashes: Vec<String>,
    pub execution_results: usize,
    pub tx_storage_traces: usize,
}

/// Exactly one of the two outcomes is filled in.
pub open spec fn well_formed(r: RowUsageResult) -> bool {
    ||| (r.acc_row_usage is Some && r.tx_row_usage is Some && r.error is None)
    ||| (r.acc_row_usage is None && r.tx_row_usage is None && r.error is Some)
}

/// `r` is the error result that carries the message of `e`.
pub open spec fn reports(r: RowUsageResult, e: CallError) -> bool {
    &&& r.acc_row_usage is None
    &&& r.tx_row_usage is None
    &&& r.error matches Some(m) && m@ == error_text(e)
}

/// The first count of a single-transaction trace that is not one, if any.
pub open spec fn cardinality_error(t: TraceSummary) -> Option<CallError> {
    if t.tx_hashes@.len() != 1 {
        Some(CallError::TransactionCount)
    } else if t.execution_results != 1 {
        Some(CallError::ExecutionResultCount)
    } else if t.tx_storage_traces != 1 {
        Some(CallError::TxStorageTraceCount)
    } else {
        None
    }
}

/// How a request through `entry` for the checker `id` is admitted, given the
/// registry contents `s` and what decoding made of the input (`None`: the
/// bytes are no block trace). Decoding is checked first, then, for a
/// single transaction, the counts, then the handle.
pub open spec fn admission<T>(s: Seq<T>, id: u64, entry: Entry, decoded: Option<TraceSummary>) -> Result<
    TraceSummary,
    CallError,
> {
    match decoded {
        None => Err(CallError::Undecodable { id, entry }),
        Some(t) => if entry == Entry::Tx && cardinality_error(t) is Some {
            Err(cardinality_error(t)->0)
        } else if !is_handle(s, id) {
            Err(CallError::UnknownChecker { id, entry })
        } else {
            Ok(t)
        },
    }
}

/// The transaction hash that a failure report names: the one transaction of
/// a single-transaction request.
pub open spec fn reported_tx_hash(entry: Entry, t: TraceSummary) -> Option<String> {
    if entry == Entry::Tx && t.tx_hashes@.len() > 0 {
        Some(t.tx_hashes@[0])
    } else {
        None
    }
}

fn cardinality_check(t: &TraceSummary) -> (r: Option<CallError>)
    ensures
        r == cardinality_error(*t),
{
    if t.tx_hashes.len() != 1 {
        Some(CallError::TransactionCount)
    } else if t.execution_results != 1 {
        Some(CallError::ExecutionResultCount)
    } else if t.tx_storage_traces != 1 {
        Some(CallError::TxStorageTraceCount)
    } else {
        None
    }
}

/// Decides whether a request may go to the engine: the trace to hand to
/// the checker `id`, or the error to report instead.
pub fn admit_request<T>(registry: &CheckerRegistry<T>, id: u64, entry: Entry, decoded: Option<TraceSummary>) -> (r:
    Result<TraceSummary, CallError>)
    ensures
        r == admission(registry@, id, entry, decoded),
{
    match decoded {
        None => Err(CallError::Undecodable { id, entry }),
        Some(t) => {
            if let Entry::Tx = entry {
                if let Some(e) = cardinality_check(&t) {
                    return Err(e);
                }
            }
            if !registry.contains(id) {
                Err(CallError::UnknownChecker { id, entry })
            } else {
                Ok(t)
            }
        },
    }
}

/// The error result for `e`.
pub fn error_result(e: CallError) -> (r: RowUsageResult)
    ensures
        reports(r, e),
        well_formed(r),
{
    RowUsageResult { acc_row_usage: None, tx_row_usage: None, error: Some(e.message()) }
}

/// The success result for the accumulated usage `acc` and the usage `tx`
/// of the trace just applied.
pub fn success_result(acc: RowUsage, tx: RowUsage) -> (r: RowUsageResult)
    ensures
        r == (RowUsageResult { acc_row_usage: Some(acc), tx_row_usage: Some(tx), error: None }),
        well_formed(r),
{
    RowUsageResult { acc_row_usage: Some(acc), tx_row_usage: Some(tx), error: None }
}

/// Packages what the engine made of the admitted trace `t` for the checker
/// `id`: its two usages, or `None` where it failed.
pub fn conclude(id: u64, entry: Entry, t: &TraceSummary, outcome: Option<(RowUsage, RowUsage)>) -> (r:
    RowUsageResult)
    ensures
        well_formed(r),
        outcome matches Some(u) ==> r == (RowUsageResult {
            acc_row_usage: Some(u.0),
            tx_row_usage: Some(u.1),
            error: None,
        }),
        outcome is None ==> reports(
            r,
            CallError::EstimateFailed {
                id,
                entry,
                block_hash: t.block_hash,
                tx_hash: reported_tx_hash(entry, *t),
            },
        ),
{
    match outcome {
        Some((acc, tx)) => success_result(acc, tx),
        None => {
            let tx_hash = if let Entry::Tx = entry {
                if t.tx_hashes.len() > 0 {
                    Some(t.tx_hashes[0].clone())
                } else {
                    None
                }
            } else {
                None
            };
            error_result(
                CallError::EstimateFailed { id, entry, block_hash: t.block_hash.clone(), tx_hash },
            )
        },
    }
}

/// Every error is reported with a message that is not empty.
pub proof fn lemma_error_text_not_empty(e: CallError)
    ensures
        error_text(e).len() > 0,
{
    reveal_strlit("id: ");
    reveal_strlit("traces.transactions.len() != 1");
    reveal_strlit("traces.execution_results.len() != 1");
    reveal_strlit("traces.tx_storage_trace.len() != 1");
    reveal_strlit("fail to get circuit capacity checker (id: ");
}

/// A single-transaction request whose trace holds no transaction, or more
/// than one, is turned down, whatever the registry and the handle.
pub proof fn lemma_tx_needs_one_transaction<T>(s: Seq<T>, id: u64, t: TraceSummary)
    requires
        t.tx_hashes@.len() != 1,
    ensures
        admission(s, id, Entry::Tx, Some(t)) == Err::<TraceSummary, CallError>(
            CallError::TransactionCount,
        ),
{
}

/// Input that does not decode is turned down through either entry point,
/// with a message that is not empty.
pub proof fn lemma_undecodable_input_reported<T>(s: Seq<T>, id: u64, entry: Entry)
    ensures
        admission(s, id, entry, None) matches Err(e) && e == (CallError::Undecodable { id, entry })
            && error_text(e).len() > 0,
{
    lemma_error_text_not_empty(CallError::Undecodable { id, entry });
}

/// A request for a handle that was never handed out never reaches an
/// instance: it is turned down, and deciding so leaves the registry as it is.
pub proof fn lemma_unknown_handle_rejected<T>(
    s: Seq<T>,
    id: u64,
    entry: Entry,
    decoded: Option<TraceSummary>,
)
    requires
        !is_handle(s, id),
    ensures
        admission(s, id, entry, decoded) is Err,
{
}

/// A request that is let through names a live instance and, through the
/// single-transaction entry point, a trace of exactly one transaction, one
/// execution result and one storage trace.
pub proof fn lemma_admitted_request_valid<T>(
    s: Seq<T>,
    id: u64,
    entry: Entry,
    decoded: Option<TraceSummary>,
)
    requires
        admission(s, id, entry, decoded) is Ok,
    ensures
        is_handle(s, id),
        decoded == Some(admission(s, id, entry, decoded)->Ok_0),
        entry == Entry::Tx ==> {
            let t = decoded->0;
            t.tx_hashes@.len() == 1 && t.execution_results == 1 && t.tx_storage_traces == 1
        },
{
}

} // verus!
