//! The ingestion path: batches of inbound records into the registry.
//!
//! A message carries its batch under `tokens` (or `data`); the batch
//! must be an array.  Each record is decoded on its own: a record that
//! fails to decode is skipped and counted, the rest of the batch is
//! still applied.  A batch that is not an array is a batch-level error
//! and leaves the registry untouched.

use vstd::prelude::*;

verus! {

use crate::decode::{decode_token, spec_decode_token};
use crate::json::{JsonValue, lookup, spec_lookup};
use crate::registry::TokenRegistry;
use crate::token::{TokenData, WebSocketError};

/// What one batch did: how many records were applied, how many were
/// skipped as malformed.
#[derive(Clone, Copy, Debug, PartialEq, Eq, Structural)]
pub struct IngestReport {
    pub accepted: usize,
    pub skipped: usize,
}

/// The registry map after applying a batch in order: each record that
/// decodes is upserted under its identifier, the rest change nothing.
pub open spec fn spec_apply_batch(
    m: Map<Seq<char>, TokenData>,
    items: Seq<JsonValue>,
) -> Map<Seq<char>, TokenData>
    decreases items.len(),
{
    if items.len() == 0 {
        m
    } else {
        let prev = spec_apply_batch(m, items.drop_last());
        match spec_decode_token(items.last()) {
            Ok(t) => prev.insert(t.id@, t),
            Err(_) => prev,
        }
    }
}

/// How many records of a batch decode.
pub open spec fn spec_ok_count(items: Seq<JsonValue>) -> int
    decreases items.len(),
{
    if items.len() == 0 {
        0
    } else {
        spec_ok_count(items.drop_last()) + if spec_decode_token(items.last()) is Ok {
            1int
        } else {
            0int
        }
    }
}

/// Applies one batch to the registry.  Anything but an array is
/// refused whole; within an array, each record stands or falls alone.
pub fn update_token_map(registry: &mut TokenRegistry, tokens: &JsonValue) -> (r: Result<
    IngestReport,
    WebSocketError,
>)
    requires
        old(registry).wf(),
    ensures
        final(registry).wf(),
        !(tokens is Arr) ==> {
            &&& r matches Err(WebSocketError::TokenParse(m)) && m@ == "Expected array"@
            &&& final(registry)@ == old(registry)@
        },
        tokens matches JsonValue::Arr(items) ==> {
            &&& r matches Ok(report)
            &&& final(registry)@ == spec_apply_batch(old(registry)@, items@)
            &&& r->Ok_0.accepted == spec_ok_count(items@)
            &&& r->Ok_0.skipped == items@.len() - spec_ok_count(items@)
        },
{
    let items: &Vec<JsonValue> = match tokens {
        JsonValue::Arr(items) => items,
        _ => {
            return Err(WebSocketError::TokenParse("Expected array".to_owned()));
        },
    };
    let mut accepted: usize = 0;
    let mut skipped: usize = 0;
    let mut i: usize = 0;
    while i < items.len()
        invariant
            registry.wf(),
            i <= items@.len(),
            registry@ == spec_apply_batch(old(registry)@, items@.take(i as int)),
            accepted as int == spec_ok_count(items@.take(i as int)),
            accepted + skipped == i,
        decreases items@.len() - i,
    {
        proof {
            assert(items@.take(i as int + 1).drop_last() =~= items@.take(i as int));
            assert(items@.take(i as int + 1).last() == items@[i as int]);
        }
        match decode_token(&items[i]) {
            Ok(t) => {
                registry.upsert(t);
                accepted = accepted + 1;
            },
            Err(_) => {
                skipped = skipped + 1;
            },
        }
        i = i + 1;
    }
    proof {
        assert(items@.take(items@.len() as int) =~= items@);
    }
    Ok(IngestReport { accepted, skipped })
}

/// The batch a message carries: the value under `tokens`, or under
/// `data`, of a message that is an object.
pub open spec fn spec_batch_of(message: JsonValue) -> Option<JsonValue> {
    match message {
        JsonValue::Obj(entries) => match spec_lookup(entries@, "tokens"@) {
            Some(v) => Some(v),
            None => spec_lookup(entries@, "data"@),
        },
        _ => None,
    }
}

/// Handles one inbound message: applies the batch it carries, if any.
/// A message without a batch is a no-op, not an error.
pub fn process_message(registry: &mut TokenRegistry, message: &JsonValue) -> (r: Result<
    IngestReport,
    WebSocketError,
>)
    requires
        old(registry).wf(),
    ensures
        final(registry).wf(),
        spec_batch_of(*message) is None ==> {
            &&& r matches Ok(report) && report.accepted == 0 && report.skipped == 0
            &&& final(registry)@ == old(registry)@
        },
        spec_batch_of(*message) matches Some(batch) ==> {
            &&& !(batch is Arr) ==> (r matches Err(WebSocketError::TokenParse(m)) && m@
                == "Expected array"@ && final(registry)@ == old(registry)@)
            &&& (batch matches JsonValue::Arr(items) ==> {
                &&& r matches Ok(report)
                &&& final(registry)@ == spec_apply_batch(old(registry)@, items@)
                &&& r->Ok_0.accepted == spec_ok_count(items@)
                &&& r->Ok_0.skipped == items@.len() - spec_ok_count(items@)
            })
        },
{
    let entries: &Vec<(String, JsonValue)> = match message {
        JsonValue::Obj(entries) => entries,
        _ => {
            return Ok(IngestReport { accepted: 0, skipped: 0 });
        },
    };
    let batch: &JsonValue = match lookup(entries, &"tokens".to_owned()) {
        Some(v) => v,
        None => match lookup(entries, &"data".to_owned()) {
            Some(v) => v,
            None => {
                return Ok(IngestReport { accepted: 0, skipped: 0 });
            },
        },
    };
    update_token_map(registry, batch)
}

/// Whether a snapshot makes the pooled-liquidity report: it is named,
/// carries at least two pooled SOL and its liquidity pool is fully
/// burned.
pub open spec fn spec_pooled_qualifies(t: TokenData) -> bool {
    &&& t.attributes.name is Some
    &&& t.attributes.pooled_sol matches Some(p) && p >= 2_000_000
    &&& t.attributes.audit matches Some(a) && a.lp_burned_perc == 100
}

/// The names of the qualifying snapshots, in order.
pub open spec fn spec_pooled_names(s: Seq<TokenData>) -> Seq<Seq<char>>
    decreases s.len(),
{
    if s.len() == 0 {
        Seq::empty()
    } else {
        let rest = spec_pooled_names(s.drop_last());
        if spec_pooled_qualifies(s.last()) {
            rest.push(s.last().attributes.name->Some_0@)
        } else {
            rest
        }
    }
}

/// Selects from a batch of snapshots the names of those with healthy
/// pooled liquidity, for the report the caller keeps.
pub fn pooled_sol_names(tokens: &Vec<TokenData>) -> (r: Vec<String>)
    ensures
        r@.map_values(|s: String| s@) =~= spec_pooled_names(tokens@),
{
    let mut r: Vec<String> = Vec::new();
    let mut i: usize = 0;
    while i < tokens.len()
        invariant
            i <= tokens@.len(),
            r@.map_values(|s: String| s@) =~= spec_pooled_names(tokens@.take(i as int)),
        decreases tokens@.len() - i,
    {
        proof {
            assert(tokens@.take(i as int + 1).drop_last() =~= tokens@.take(i as int));
            assert(tokens@.take(i as int + 1).last() == tokens@[i as int]);
        }
        let t = &tokens[i];
        let qualifies = match (&t.attributes.name, &t.attributes.pooled_sol, &t.attributes.audit) {
            (Some(_), Some(p), Some(a)) => *p >= 2_000_000 && a.lp_burned_perc == 100,
            _ => false,
        };
        if qualifies {
            match &t.attributes.name {
                Some(name) => {
                    r.push(name.clone());
                },
                None => {},
            }
        }
        proof {
            assert(r@.map_values(|s: String| s@) =~= spec_pooled_names(
                tokens@.take(i as int + 1),
            ));
        }
        i = i + 1;
    }
    proof {
        assert(tokens@.take(tokens@.len() as int) =~= tokens@);
    }
    r
}

} // verus!
