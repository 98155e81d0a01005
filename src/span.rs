//! Span records: operation kinds, statuses and their canonical text forms.
use vstd::prelude::*;
use vstd::string::StringExecFns;

verus! {

/// Well-known kinds of timed operation, with an open `Custom` case.
#[derive(Debug, Clone, PartialEq)]
pub enum SpanOperation {
    ModelLoad,
    Inference,
    TokenGeneration,
    KvCacheOp,
    SpeculativeDraft,
    SpeculativeVerify,
    EmbeddingEncode,
    AgentExecute,
    VaultStore,
    VaultRetrieve,
    Custom(String),
}

/// Terminal (or not yet decided) outcome of a span.
#[derive(Debug, Clone, PartialEq)]
pub enum SpanStatus {
    Success,
    Error(String),
    Unset,
}

/// A timed operation. `duration` is in nanoseconds from start to finish and is
/// absent until the span is finished.
#[derive(Debug, Clone)]
pub struct SpanRecord {
    pub name: String,
    pub service: String,
    pub operation: SpanOperation,
    pub start_time: std::time::SystemTime,
    pub duration: Option<u64>,
    pub attributes: Vec<(String, String)>,
    pub status: SpanStatus,
}

/// The canonical dotted text of an operation kind.
pub open spec fn operation_text(op: SpanOperation) -> Seq<char> {
    match op {
        SpanOperation::ModelLoad => "model.load"@,
        SpanOperation::Inference => "inference"@,
        SpanOperation::TokenGeneration => "token.generation"@,
        SpanOperation::KvCacheOp => "kv_cache.op"@,
        SpanOperation::SpeculativeDraft => "speculative.draft"@,
        SpanOperation::SpeculativeVerify => "speculative.verify"@,
        SpanOperation::EmbeddingEncode => "embedding.encode"@,
        SpanOperation::AgentExecute => "agent.execute"@,
        SpanOperation::VaultStore => "vault.store"@,
        SpanOperation::VaultRetrieve => "vault.retrieve"@,
        SpanOperation::Custom(label) => "custom."@ + label@,
    }
}

/// The export text of a status: `ok`, `unset` or `error: <message>`.
pub open spec fn status_text(status: SpanStatus) -> Seq<char> {
    match status {
        SpanStatus::Success => "ok"@,
        SpanStatus::Unset => "unset"@,
        SpanStatus::Error(msg) => "error: "@ + msg@,
    }
}

impl SpanOperation {
    /// Renders the operation kind as its canonical dotted string.
    pub fn to_string(&self) -> (r: String)
        ensures
            r@ == operation_text(*self),
    {
        match self {
            SpanOperation::ModelLoad => String::from_str("model.load"),
            SpanOperation::Inference => String::from_str("inference"),
            SpanOperation::TokenGeneration => String::from_str("token.generation"),
            SpanOperation::KvCacheOp => String::from_str("kv_cache.op"),
            SpanOperation::SpeculativeDraft => String::from_str("speculative.draft"),
            SpanOperation::SpeculativeVerify => String::from_str("speculative.verify"),
            SpanOperation::EmbeddingEncode => String::from_str("embedding.encode"),
            SpanOperation::AgentExecute => String::from_str("agent.execute"),
            SpanOperation::VaultStore => String::from_str("vault.store"),
            SpanOperation::VaultRetrieve => String::from_str("vault.retrieve"),
            SpanOperation::Custom(label) => {
                let mut s = String::from_str("custom.");
                s.append(label.as_str());
                s
            },
        }
    }
}

impl SpanStatus {
    /// Renders the status as it appears in exported records.
    pub fn to_string(&self) -> (r: String)
        ensures
            r@ == status_text(*self),
    {
        match self {
            SpanStatus::Success => String::from_str("ok"),
            SpanStatus::Unset => String::from_str("unset"),
            SpanStatus::Error(msg) => {
                let mut s = String::from_str("error: ");
                s.append(msg.as_str());
                s
            },
        }
    }
}

} // verus!
