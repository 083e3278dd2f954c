use vstd::prelude::*;
use vstd::string::*;

verus! {

/// The entry point that a request came through.
#[derive(Clone, Copy, PartialEq, Eq, Structural, Debug)]
pub enum Entry {
    /// One transaction at a time.
    Tx,
    /// A whole block.
    Block,
}

/// Why a request was turned down or could not be served. Each of these is
/// handed back to the host as an error result, never raised past the call.
#[derive(Debug)]
pub enum CallError {
    /// The input bytes are not a block trace.
    Undecodable { id: u64, entry: Entry },
    /// A single-transaction request whose trace holds another number of
    /// transactions.
    TransactionCount,
    /// A single-transaction request with another number of execution results.
    ExecutionResultCount,
    /// A single-transaction request with another number of per-transaction
    /// storage traces.
    TxStorageTraceCount,
    /// The handle was never handed out.
    UnknownChecker { id: u64, entry: Entry },
    /// The engine could not estimate the trace.
    EstimateFailed { id: u64, entry: Entry, block_hash: String, tx_hash: Option<String> },
}

/// The character of the decimal digit `d`.
pub open spec fn digit_char(d: nat) -> char {
    seq!['0', '1', '2', '3', '4', '5', '6', '7', '8', '9'][d as int]
}

/// `n` written in decimal, without leading zeros.
pub open spec fn decimal(n: nat) -> Seq<char>
    decreases n,
{
    if n < 10 {
        seq![digit_char(n)]
    } else {
        decimal(n / 10).push(digit_char(n % 10))
    }
}

/// The name of an entry point, as it appears in messages.
pub open spec fn entry_name(entry: Entry) -> Seq<char> {
    match entry {
        Entry::Tx => "apply_tx"@,
        Entry::Block => "apply_block"@,
    }
}

/// The name of the input of an entry point, as it appears in messages.
pub open spec fn input_name(entry: Entry) -> Seq<char> {
    match entry {
        Entry::Tx => "tx_traces"@,
        Entry::Block => "block_trace"@,
    }
}

/// The message that describes `e` to the host.
pub open spec fn error_text(e: CallError) -> Seq<char> {
    match e {
        CallError::Undecodable { id, entry } => "id: "@ + decimal(id as nat) + ", fail to deserialize "@
            + input_name(entry),
        CallError::TransactionCount => "traces.transactions.len() != 1"@,
        CallError::ExecutionResultCount => "traces.execution_results.len() != 1"@,
        CallError::TxStorageTraceCount => "traces.tx_storage_trace.len() != 1"@,
        CallError::UnknownChecker { id, entry } => "fail to get circuit capacity checker (id: "@
            + decimal(id as nat) + ") in "@ + entry_name(entry),
        CallError::EstimateFailed { id, entry, block_hash, tx_hash } => "id: "@ + decimal(id as nat)
            + ", fail to estimate_circuit_capacity in "@ + entry_name(entry) + ", block_hash: "@
            + block_hash@ + match tx_hash {
            Some(h) => ", tx_hash: "@ + h@,
            None => Seq::<char>::empty(),
        },
    }
}

fn digit_str(d: u64) -> (r: &'static str)
    requires
        d < 10,
    ensures
        r@ == seq![digit_char(d as nat)],
{
    proof {
        reveal_strlit("0");
        reveal_strlit("1");
        reveal_strlit("2");
        reveal_strlit("3");
        reveal_strlit("4");
        reveal_strlit("5");
        reveal_strlit("6");
        reveal_strlit("7");
        reveal_strlit("8");
        reveal_strlit("9");
    }
    let r = if d == 0 {
        "0"
    } else if d == 1 {
        "1"
    } else if d == 2 {
        "2"
    } else if d == 3 {
        "3"
    } else if d == 4 {
        "4"
    } else if d == 5 {
        "5"
    } else if d == 6 {
        "6"
    } else if d == 7 {
        "7"
    } else if d == 8 {
        "8"
    } else {
        "9"
    };
    assert(r@ =~= seq![digit_char(d as nat)]);
    r
}

/// `n` in decimal.
pub fn decimal_string(n: u64) -> (r: String)
    ensures
        r@ == decimal(n as nat),
    decreases n,
{
    if n < 10 {
        String::from_str(digit_str(n))
    } else {
        let mut s = decimal_string(n / 10);
        s.append(digit_str(n % 10));
        s
    }
}

fn entry_name_str(entry: Entry) -> (r: &'static str)
    ensures
        r@ == entry_name(entry),
{
    match entry {
        Entry::Tx => "apply_tx",
        Entry::Block => "apply_block",
    }
}

impl CallError {
    /// The message that describes this error to the host.
    pub fn message(&self) -> (r: String)
        ensures
            r@ == error_text(*self),
    {
        match self {
            CallError::Undecodable { id, entry } => {
                let mut s = String::from_str("id: ");
                s.append(decimal_string(*id).as_str());
                s.append(", fail to deserialize ");
                match entry {
                    Entry::Tx => s.append("tx_traces"),
                    Entry::Block => s.append("block_trace"),
                }
                s
            },
            CallError::TransactionCount => String::from_str("traces.transactions.len() != 1"),
            CallError::ExecutionResultCount => String::from_str(
                "traces.execution_results.len() != 1",
            ),
            CallError::TxStorageTraceCount => String::from_str("traces.tx_storage_trace.len() != 1"),
            CallError::UnknownChecker { id, entry } => {
                let mut s = String::from_str("fail to get circuit capacity checker (id: ");
                s.append(decimal_string(*id).as_str());
                s.append(") in ");
                s.append(entry_name_str(*entry));
                s
            },
            CallError::EstimateFailed { id, entry, block_hash, tx_hash } => {
                let mut s = String::from_str("id: ");
                s.append(decimal_string(*id).as_str());
                s.append(", fail to estimate_circuit_capacity in ");
                s.append(entry_name_str(*entry));
                s.append(", block_hash: ");
                s.append(block_hash.as_str());
                match tx_hash {
                    Some(h) => {
                        s.append(", tx_hash: ");
                        s.append(h.as_str());
                    },
                    None => {
                        assert(s@ + Seq::<char>::empty() =~= s@);
                    },
                }
                s
            },
        }
    }
}

} // verus!
