//! Ready-made operation kinds and attributes for common inference operations.
use vstd::prelude::*;
use vstd::string::StringExecFns;
use crate::span::SpanOperation;
use crate::text::{decimal, decimal_text, fixed, fixed_text, rounded_div, round_half_even};

verus! {

/// Span templates: each returns the operation kind and its attribute pairs.
pub struct SpanTemplates;

/// How `speculative_verify` writes the acceptance rate `accepted / total`:
/// two decimals, rounded to nearest with ties to even; `NaN` for `0 / 0` and
/// `inf` for a positive count over zero.
pub open spec fn rate_text(accepted: nat, total: nat) -> Seq<char> {
    if total == 0 {
        if accepted == 0 {
            "NaN"@
        } else {
            "inf"@
        }
    } else {
        fixed_text(round_half_even(100 * accepted, total), 2)
    }
}

/// A size in thousandths of a megabyte, written in megabytes with one decimal.
pub open spec fn size_text(size_mb_milli: nat) -> Seq<char> {
    fixed_text(round_half_even(size_mb_milli, 100), 1)
}

impl SpanTemplates {
    /// Inference request: model name and token budget.
    pub fn inference(model: &str, max_tokens: usize) -> (r: (SpanOperation, Vec<(&'static str, String)>))
        ensures
            r.0 == SpanOperation::Inference,
            r.1@.len() == 2,
            r.1@[0].0@ == "model.name"@,
            r.1@[0].1@ == model@,
            r.1@[1].0@ == "model.max_tokens"@,
            r.1@[1].1@ == decimal_text(max_tokens as nat),
    {
        let mut attrs: Vec<(&'static str, String)> = Vec::new();
        attrs.push(("model.name", String::from_str(model)));
        attrs.push(("model.max_tokens", decimal(max_tokens as u128)));
        (SpanOperation::Inference, attrs)
    }

    /// Model load: model name and size, the size given in thousandths of a
    /// megabyte and written in megabytes with one decimal.
    pub fn model_load(model: &str, size_mb_milli: u64) -> (r: (SpanOperation, Vec<(&'static str, String)>))
        ensures
            r.0 == SpanOperation::ModelLoad,
            r.1@.len() == 2,
            r.1@[0].0@ == "model.name"@,
            r.1@[0].1@ == model@,
            r.1@[1].0@ == "model.size_mb"@,
            r.1@[1].1@ == size_text(size_mb_milli as nat),
    {
        let mut attrs: Vec<(&'static str, String)> = Vec::new();
        attrs.push(("model.name", String::from_str(model)));
        let tenths = rounded_div(size_mb_milli as u128, 100);
        attrs.push(("model.size_mb", fixed(tenths, 1)));
        (SpanOperation::ModelLoad, attrs)
    }

    /// KV-cache operation: operation name and layer index.
    pub fn kv_cache(operation: &str, layer: usize) -> (r: (SpanOperation, Vec<(&'static str, String)>))
        ensures
            r.0 == SpanOperation::KvCacheOp,
            r.1@.len() == 2,
            r.1@[0].0@ == "kv.operation"@,
            r.1@[0].1@ == operation@,
            r.1@[1].0@ == "kv.layer"@,
            r.1@[1].1@ == decimal_text(layer as nat),
    {
        let mut attrs: Vec<(&'static str, String)> = Vec::new();
        attrs.push(("kv.operation", String::from_str(operation)));
        attrs.push(("kv.layer", decimal(layer as u128)));
        (SpanOperation::KvCacheOp, attrs)
    }

    /// Speculative drafting: number of drafted tokens.
    pub fn speculative_draft(draft_tokens: usize) -> (r: (SpanOperation, Vec<(&'static str, String)>))
        ensures
            r.0 == SpanOperation::SpeculativeDraft,
            r.1@.len() == 1,
            r.1@[0].0@ == "speculative.draft_tokens"@,
            r.1@[0].1@ == decimal_text(draft_tokens as nat),
    {
        let mut attrs: Vec<(&'static str, String)> = Vec::new();
        attrs.push(("speculative.draft_tokens", decimal(draft_tokens as u128)));
        (SpanOperation::SpeculativeDraft, attrs)
    }

    /// Speculative verification: accepted and total tokens and the acceptance rate.
    pub fn speculative_verify(accepted: usize, total: usize) -> (r: (SpanOperation, Vec<(&'static str, String)>))
        ensures
            r.0 == SpanOperation::SpeculativeVerify,
            r.1@.len() == 3,
            r.1@[0].0@ == "speculative.accepted"@,
            r.1@[0].1@ == decimal_text(accepted as nat),
            r.1@[1].0@ == "speculative.total"@,
            r.1@[1].1@ == decimal_text(total as nat),
            r.1@[2].0@ == "speculative.acceptance_rate"@,
            r.1@[2].1@ == rate_text(accepted as nat, total as nat),
    {
        let mut attrs: Vec<(&'static str, String)> = Vec::new();
        attrs.push(("speculative.accepted", decimal(accepted as u128)));
        attrs.push(("speculative.total", decimal(total as u128)));
        let rate = if total == 0 {
            if accepted == 0 {
                String::from_str("NaN")
            } else {
                String::from_str("inf")
            }
        } else {
            let hundredths = rounded_div(100 * (accepted as u128), total as u128);
            fixed(hundredths, 2)
        };
        attrs.push(("speculative.acceptance_rate", rate));
        (SpanOperation::SpeculativeVerify, attrs)
    }

    /// Agent execution: agent id and capability.
    pub fn agent_execute(agent_id: &str, capability: &str) -> (r: (SpanOperation, Vec<(&'static str, String)>))
        ensures
            r.0 == SpanOperation::AgentExecute,
            r.1@.len() == 2,
            r.1@[0].0@ == "agent.id"@,
            r.1@[0].1@ == agent_id@,
            r.1@[1].0@ == "agent.capability"@,
            r.1@[1].1@ == capability@,
    {
        let mut attrs: Vec<(&'static str, String)> = Vec::new();
        attrs.push(("agent.id", String::from_str(agent_id)));
        attrs.push(("agent.capability", String::from_str(capability)));
        (SpanOperation::AgentExecute, attrs)
    }
}

} // verus!
