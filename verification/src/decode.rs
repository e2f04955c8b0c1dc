//! Decoding of batch records and the paginated results envelope from the
//! JSON tree, with a spec function pinning down every accepted shape.
use crate::batches::Batch;
use crate::batches::BatchInternalDatabaseSizes;
use crate::batches::BatchProgress;
use crate::batches::BatchProgressStep;
use crate::batches::BatchStats;
use crate::batches::BatchStrategy;
use crate::batches::BatchView;
use crate::batches::BatchWriteChannelCongestion;
use crate::batches::BatchesResults;
use crate::batches::CongestionView;
use crate::batches::DbSizesView;
use crate::batches::ProgressView;
use crate::batches::ResultsView;
use crate::batches::StatsView;
use crate::batches::StepView;
use crate::batches::spec_strategy_from_wire;
use crate::codec::decode_err;
use crate::codec::decode_statuses;
use crate::codec::decode_types;
use crate::codec::field_u32;
use crate::codec::spec_decode_statuses;
use crate::codec::spec_decode_types;
use crate::codec::spec_field_u32;
use crate::errors::Error;
use crate::json::JsonValue;
use crate::json::entry_lookup;
use crate::json::entry_views;
use crate::json::obj_get;
use crate::text::dec_rep_i64;
use crate::text::i64_dec_string;
use crate::timefmt::Timestamp;
use crate::timefmt::parse_rfc3339;
use crate::timefmt::rfc3339_nanos_of;
use vstd::prelude::*;

verus! {

// ---------------------------------------------------------------------------
// Spec-level field readers beyond the optional counts.
// ---------------------------------------------------------------------------
/// A required signed 32-bit number field.
pub open spec fn spec_req_i32(es: Seq<(Seq<char>, JsonValue)>, key: Seq<char>) -> Result<i32, ()> {
    match entry_lookup(es, key) {
        Option::Some(JsonValue::Int(i)) => if i32::MIN as i64 <= i && i <= i32::MAX as i64 {
            Result::Ok(i as i32)
        } else {
            Result::Err(())
        },
        _ => Result::Err(()),
    }
}

/// A required unsigned 32-bit number field.
pub open spec fn spec_req_u32(es: Seq<(Seq<char>, JsonValue)>, key: Seq<char>) -> Result<u32, ()> {
    match entry_lookup(es, key) {
        Option::Some(JsonValue::Int(i)) => if 0 <= i && i <= u32::MAX as i64 {
            Result::Ok(i as u32)
        } else {
            Result::Err(())
        },
        _ => Result::Err(()),
    }
}

/// A required signed 64-bit number field.
pub open spec fn spec_req_i64(es: Seq<(Seq<char>, JsonValue)>, key: Seq<char>) -> Result<i64, ()> {
    match entry_lookup(es, key) {
        Option::Some(JsonValue::Int(i)) => Result::Ok(i),
        _ => Result::Err(()),
    }
}

/// A required string field.
pub open spec fn spec_req_str(es: Seq<(Seq<char>, JsonValue)>, key: Seq<char>) -> Result<
    Seq<char>,
    (),
> {
    match entry_lookup(es, key) {
        Option::Some(JsonValue::Str(s)) => Result::Ok(s@),
        _ => Result::Err(()),
    }
}

/// An optional string field: absent or null means absent.
pub open spec fn spec_opt_str(es: Seq<(Seq<char>, JsonValue)>, key: Seq<char>) -> Result<
    Option<Seq<char>>,
    (),
> {
    match entry_lookup(es, key) {
        Option::None => Result::Ok(Option::None),
        Option::Some(JsonValue::Null) => Result::Ok(Option::None),
        Option::Some(JsonValue::Str(s)) => Result::Ok(Option::Some(s@)),
        Option::Some(_) => Result::Err(()),
    }
}

/// The decimal text of any JSON number: integers render as decimal, other
/// numbers keep the text they arrived with.
pub open spec fn spec_num_text(v: JsonValue) -> Result<Seq<char>, ()> {
    match v {
        JsonValue::Int(i) => Result::Ok(dec_rep_i64(i as int)),
        JsonValue::Num(s) => Result::Ok(s@),
        _ => Result::Err(()),
    }
}

/// A required number field kept as text.
pub open spec fn spec_req_num_text(es: Seq<(Seq<char>, JsonValue)>, key: Seq<char>) -> Result<
    Seq<char>,
    (),
> {
    match entry_lookup(es, key) {
        Option::Some(v) => spec_num_text(v),
        Option::None => Result::Err(()),
    }
}

/// An optional RFC 3339 timestamp field: absent or null means absent; a
/// string must denote a valid instant.
pub open spec fn spec_opt_time(es: Seq<(Seq<char>, JsonValue)>, key: Seq<char>) -> Result<
    Option<i128>,
    (),
> {
    match entry_lookup(es, key) {
        Option::None => Result::Ok(Option::None),
        Option::Some(JsonValue::Null) => Result::Ok(Option::None),
        Option::Some(JsonValue::Str(s)) => match rfc3339_nanos_of(s@) {
            Option::Some(n) => Result::Ok(Option::Some(n)),
            Option::None => Result::Err(()),
        },
        Option::Some(_) => Result::Err(()),
    }
}

/// An optional stopping-strategy field: absent or null means absent; any
/// string decodes, unknown values to the catch-all variant.
pub open spec fn spec_opt_strategy(es: Seq<(Seq<char>, JsonValue)>, key: Seq<char>) -> Result<
    Option<BatchStrategy>,
    (),
> {
    match entry_lookup(es, key) {
        Option::None => Result::Ok(Option::None),
        Option::Some(JsonValue::Null) => Result::Ok(Option::None),
        Option::Some(JsonValue::Str(s)) => Result::Ok(Option::Some(spec_strategy_from_wire(s@))),
        Option::Some(_) => Result::Err(()),
    }
}

// ---------------------------------------------------------------------------
// Exec field readers.
// ---------------------------------------------------------------------------
fn field_req_i32(es: &Vec<(String, JsonValue)>, key: &str) -> (r: Result<i32, Error>)
    ensures
        match r {
            Result::Ok(v) => spec_req_i32(entry_views(es@), key@) == Result::Ok::<i32, ()>(v),
            Result::Err(e) => spec_req_i32(entry_views(es@), key@) is Err && e is Decode,
        },
{
    match obj_get(es, key) {
        Option::Some(JsonValue::Int(i)) => {
            let n = *i;
            if i32::MIN as i64 <= n && n <= i32::MAX as i64 {
                Result::Ok(n as i32)
            } else {
                Result::Err(decode_err(key))
            }
        },
        _ => Result::Err(decode_err(key)),
    }
}

fn field_req_u32(es: &Vec<(String, JsonValue)>, key: &str) -> (r: Result<u32, Error>)
    ensures
        match r {
            Result::Ok(v) => spec_req_u32(entry_views(es@), key@) == Result::Ok::<u32, ()>(v),
            Result::Err(e) => spec_req_u32(entry_views(es@), key@) is Err && e is Decode,
        },
{
    match obj_get(es, key) {
        Option::Some(JsonValue::Int(i)) => {
            let n = *i;
            if 0 <= n && n <= u32::MAX as i64 {
                Result::Ok(n as u32)
            } else {
                Result::Err(decode_err(key))
            }
        },
        _ => Result::Err(decode_err(key)),
    }
}

fn field_req_i64(es: &Vec<(String, JsonValue)>, key: &str) -> (r: Result<i64, Error>)
    ensures
        match r {
            Result::Ok(v) => spec_req_i64(entry_views(es@), key@) == Result::Ok::<i64, ()>(v),
            Result::Err(e) => spec_req_i64(entry_views(es@), key@) is Err && e is Decode,
        },
{
    match obj_get(es, key) {
        Option::Some(JsonValue::Int(i)) => Result::Ok(*i),
        _ => Result::Err(decode_err(key)),
    }
}

fn field_req_str(es: &Vec<(String, JsonValue)>, key: &str) -> (r: Result<String, Error>)
    ensures
        match r {
            Result::Ok(v) => spec_req_str(entry_views(es@), key@) == Result::Ok::<Seq<char>, ()>(
                v@,
            ),
            Result::Err(e) => spec_req_str(entry_views(es@), key@) is Err && e is Decode,
        },
{
    match obj_get(es, key) {
        Option::Some(JsonValue::Str(s)) => Result::Ok(s.clone()),
        _ => Result::Err(decode_err(key)),
    }
}

fn field_opt_str(es: &Vec<(String, JsonValue)>, key: &str) -> (r: Result<Option<String>, Error>)
    ensures
        match r {
            Result::Ok(v) => spec_opt_str(entry_views(es@), key@) == Result::Ok::<
                Option<Seq<char>>,
                (),
            >(
                match v {
                    Option::Some(s) => Option::Some(s@),
                    Option::None => Option::None,
                },
            ),
            Result::Err(e) => spec_opt_str(entry_views(es@), key@) is Err && e is Decode,
        },
{
    match obj_get(es, key) {
        Option::None => Result::Ok(Option::None),
        Option::Some(JsonValue::Null) => Result::Ok(Option::None),
        Option::Some(JsonValue::Str(s)) => Result::Ok(Option::Some(s.clone())),
        Option::Some(_) => Result::Err(decode_err(key)),
    }
}

fn field_req_num_text(es: &Vec<(String, JsonValue)>, key: &str) -> (r: Result<String, Error>)
    ensures
        match r {
            Result::Ok(v) => spec_req_num_text(entry_views(es@), key@) == Result::Ok::<
                Seq<char>,
                (),
            >(v@),
            Result::Err(e) => spec_req_num_text(entry_views(es@), key@) is Err && e is Decode,
        },
{
    match obj_get(es, key) {
        Option::Some(JsonValue::Int(i)) => Result::Ok(i64_dec_string(*i)),
        Option::Some(JsonValue::Num(s)) => Result::Ok(s.clone()),
        _ => Result::Err(decode_err(key)),
    }
}

fn field_opt_time(es: &Vec<(String, JsonValue)>, key: &str) -> (r: Result<Option<Timestamp>, Error>)
    ensures
        match r {
            Result::Ok(v) => spec_opt_time(entry_views(es@), key@) == Result::Ok::<
                Option<i128>,
                (),
            >(
                match v {
                    Option::Some(t) => Option::Some(t.unix_nanos),
                    Option::None => Option::None,
                },
            ),
            Result::Err(e) => spec_opt_time(entry_views(es@), key@) is Err && e is Decode,
        },
{
    match obj_get(es, key) {
        Option::None => Result::Ok(Option::None),
        Option::Some(JsonValue::Null) => Result::Ok(Option::None),
        Option::Some(JsonValue::Str(s)) => match parse_rfc3339(s.as_str()) {
            Option::Some(n) => Result::Ok(Option::Some(Timestamp { unix_nanos: n })),
            Option::None => Result::Err(decode_err(key)),
        },
        Option::Some(_) => Result::Err(decode_err(key)),
    }
}

fn field_opt_strategy(es: &Vec<(String, JsonValue)>, key: &str) -> (r: Result<
    Option<BatchStrategy>,
    Error,
>)
    ensures
        match r {
            Result::Ok(v) => spec_opt_strategy(entry_views(es@), key@) == Result::Ok::<
                Option<BatchStrategy>,
                (),
            >(v),
            Result::Err(e) => spec_opt_strategy(entry_views(es@), key@) is Err && e is Decode,
        },
{
    match obj_get(es, key) {
        Option::None => Result::Ok(Option::None),
        Option::Some(JsonValue::Null) => Result::Ok(Option::None),
        Option::Some(JsonValue::Str(s)) => Result::Ok(
            Option::Some(BatchStrategy::from_wire(s.as_str())),
        ),
        Option::Some(_) => Result::Err(decode_err(key)),
    }
}

// ---------------------------------------------------------------------------
// Nested value decoders.
// ---------------------------------------------------------------------------
/// What a write-channel congestion object decodes to.
pub open spec fn spec_decode_congestion(v: JsonValue) -> Result<CongestionView, ()> {
    match v {
        JsonValue::Obj(evec) => {
            let es = entry_views(evec@);
            if spec_req_i32(es, "attempts"@) is Err || spec_req_i32(es, "blockingAttempts"@) is Err
                || spec_req_num_text(es, "blockingRatio"@) is Err {
                Result::Err(())
            } else {
                Result::Ok(
                    CongestionView {
                        attempts: spec_req_i32(es, "attempts"@)->Ok_0,
                        blocking_attempts: spec_req_i32(es, "blockingAttempts"@)->Ok_0,
                        blocking_ratio: spec_req_num_text(es, "blockingRatio"@)->Ok_0,
                    },
                )
            }
        },
        _ => Result::Err(()),
    }
}

/// Decode the write-channel congestion report.
pub fn decode_congestion(v: &JsonValue) -> (r: Result<BatchWriteChannelCongestion, Error>)
    ensures
        match r {
            Result::Ok(c) => spec_decode_congestion(*v) == Result::Ok::<CongestionView, ()>(c@),
            Result::Err(e) => spec_decode_congestion(*v) is Err && e is Decode,
        },
{
    match v {
        JsonValue::Obj(es) => {
            let attempts = match field_req_i32(es, "attempts") {
                Result::Ok(x) => x,
                Result::Err(e) => return Result::Err(e),
            };
            let blocking_attempts = match field_req_i32(es, "blockingAttempts") {
                Result::Ok(x) => x,
                Result::Err(e) => return Result::Err(e),
            };
            let blocking_ratio = match field_req_num_text(es, "blockingRatio") {
                Result::Ok(x) => x,
                Result::Err(e) => return Result::Err(e),
            };
            Result::Ok(BatchWriteChannelCongestion { attempts, blocking_attempts, blocking_ratio })
        },
        _ => Result::Err(decode_err("writeChannelCongestion")),
    }
}

/// What an internal database size report decodes to.
pub open spec fn spec_decode_db_sizes(v: JsonValue) -> Result<DbSizesView, ()> {
    match v {
        JsonValue::Obj(evec) => {
            let es = entry_views(evec@);
            if spec_req_str(es, "externalDocumentsId"@) is Err || spec_req_str(es, "wordDocsId"@)
                is Err || spec_req_str(es, "wordPairProximityIds"@) is Err || spec_req_str(
                es,
                "wordPositionDocIds"@,
            ) is Err || spec_req_str(es, "wordFidDocIds"@) is Err || spec_req_str(
                es,
                "fieldIdWordCountDocIds"@,
            ) is Err || spec_req_str(es, "documents"@) is Err {
                Result::Err(())
            } else {
                Result::Ok(
                    DbSizesView {
                        external_documents_id: spec_req_str(es, "externalDocumentsId"@)->Ok_0,
                        word_docs_id: spec_req_str(es, "wordDocsId"@)->Ok_0,
                        word_pair_proximity_ids: spec_req_str(es, "wordPairProximityIds"@)->Ok_0,
                        word_position_doc_ids: spec_req_str(es, "wordPositionDocIds"@)->Ok_0,
                        word_fid_doc_ids: spec_req_str(es, "wordFidDocIds"@)->Ok_0,
                        field_id_word_count_doc_ids: spec_req_str(
                            es,
                            "fieldIdWordCountDocIds"@,
                        )->Ok_0,
                        documents: spec_req_str(es, "documents"@)->Ok_0,
                    },
                )
            }
        },
        _ => Result::Err(()),
    }
}

/// Decode the internal database size report.
pub fn decode_db_sizes(v: &JsonValue) -> (r: Result<BatchInternalDatabaseSizes, Error>)
    ensures
        match r {
            Result::Ok(d) => spec_decode_db_sizes(*v) == Result::Ok::<DbSizesView, ()>(d@),
            Result::Err(e) => spec_decode_db_sizes(*v) is Err && e is Decode,
        },
{
    match v {
        JsonValue::Obj(es) => {
            let external_documents_id = match field_req_str(es, "externalDocumentsId") {
                Result::Ok(x) => x,
                Result::Err(e) => return Result::Err(e),
            };
            let word_docs_id = match field_req_str(es, "wordDocsId") {
                Result::Ok(x) => x,
                Result::Err(e) => return Result::Err(e),
            };
            let word_pair_proximity_ids = match field_req_str(es, "wordPairProximityIds") {
                Result::Ok(x) => x,
                Result::Err(e) => return Result::Err(e),
            };
            let word_position_doc_ids = match field_req_str(es, "wordPositionDocIds") {
                Result::Ok(x) => x,
                Result::Err(e) => return Result::Err(e),
            };
            let word_fid_doc_ids = match field_req_str(es, "wordFidDocIds") {
                Result::Ok(x) => x,
                Result::Err(e) => return Result::Err(e),
            };
            let field_id_word_count_doc_ids = match field_req_str(es, "fieldIdWordCountDocIds") {
                Result::Ok(x) => x,
                Result::Err(e) => return Result::Err(e),
            };
            let documents = match field_req_str(es, "documents") {
                Result::Ok(x) => x,
                Result::Err(e) => return Result::Err(e),
            };
            Result::Ok(
                BatchInternalDatabaseSizes {
                    external_documents_id,
                    word_docs_id,
                    word_pair_proximity_ids,
                    word_position_doc_ids,
                    word_fid_doc_ids,
                    field_id_word_count_doc_ids,
                    documents,
                },
            )
        },
        _ => Result::Err(decode_err("internalDatabaseSizes")),
    }
}

/// What one progress step decodes to.
pub open spec fn spec_decode_step(v: JsonValue) -> Result<StepView, ()> {
    match v {
        JsonValue::Obj(evec) => {
            let es = entry_views(evec@);
            if spec_req_str(es, "currentStep"@) is Err || spec_req_i32(es, "finished"@) is Err
                || spec_req_i32(es, "total"@) is Err {
                Result::Err(())
            } else {
                Result::Ok(
                    StepView {
                        current_step: spec_req_str(es, "currentStep"@)->Ok_0,
                        finished: spec_req_i32(es, "finished"@)->Ok_0,
                        total: spec_req_i32(es, "total"@)->Ok_0,
                    },
                )
            }
        },
        _ => Result::Err(()),
    }
}

/// Decode one progress step.
pub fn decode_step(v: &JsonValue) -> (r: Result<BatchProgressStep, Error>)
    ensures
        match r {
            Result::Ok(st) => spec_decode_step(*v) == Result::Ok::<StepView, ()>(st@),
            Result::Err(e) => spec_decode_step(*v) is Err && e is Decode,
        },
{
    match v {
        JsonValue::Obj(es) => {
            let current_step = match field_req_str(es, "currentStep") {
                Result::Ok(x) => x,
                Result::Err(e) => return Result::Err(e),
            };
            let finished = match field_req_i32(es, "finished") {
                Result::Ok(x) => x,
                Result::Err(e) => return Result::Err(e),
            };
            let total = match field_req_i32(es, "total") {
                Result::Ok(x) => x,
                Result::Err(e) => return Result::Err(e),
            };
            Result::Ok(BatchProgressStep { current_step, finished, total })
        },
        _ => Result::Err(decode_err("steps")),
    }
}

/// What a sequence of step values decodes to: every element must decode.
pub open spec fn spec_decode_steps(items: Seq<JsonValue>) -> Result<Seq<StepView>, ()>
    decreases items.len(),
{
    if items.len() == 0 {
        Result::Ok(Seq::empty())
    } else {
        match (spec_decode_steps(items.drop_last()), spec_decode_step(items.last())) {
            (Result::Ok(pre), Result::Ok(st)) => Result::Ok(pre.push(st)),
            _ => Result::Err(()),
        }
    }
}

/// Decode the step list of a progress snapshot.
pub fn decode_steps(items: &Vec<JsonValue>) -> (r: Result<Vec<BatchProgressStep>, Error>)
    ensures
        match r {
            Result::Ok(out) => spec_decode_steps(items@) == Result::Ok::<Seq<StepView>, ()>(
                out@.map_values(|s: BatchProgressStep| s@),
            ),
            Result::Err(e) => spec_decode_steps(items@) is Err && e is Decode,
        },
{
    let mut out: Vec<BatchProgressStep> = Vec::new();
    let mut i: usize = 0;
    proof {
        assert(items@.take(0) =~= Seq::<JsonValue>::empty());
        assert(out@.map_values(|s: BatchProgressStep| s@) =~= Seq::<StepView>::empty());
    }
    while i < items.len()
        invariant
            0 <= i <= items@.len(),
            spec_decode_steps(items@.take(i as int)) == Result::Ok::<Seq<StepView>, ()>(
                out@.map_values(|s: BatchProgressStep| s@),
            ),
        decreases items@.len() - i,
    {
        let ghost pre = out@.map_values(|s: BatchProgressStep| s@);
        let st = match decode_step(&items[i]) {
            Result::Ok(x) => x,
            Result::Err(e) => {
                proof {
                    lemma_steps_prefix_err(items@, i as int);
                }
                return Result::Err(e);
            },
        };
        out.push(st);
        proof {
            assert(items@.take(i as int + 1).drop_last() =~= items@.take(i as int));
            assert(items@.take(i as int + 1).last() == items@[i as int]);
            assert(out@.map_values(|s: BatchProgressStep| s@) =~= pre.push(st@));
        }
        i += 1;
    }
    proof {
        assert(items@.take(items@.len() as int) =~= items@);
    }
    Result::Ok(out)
}

/// A sequence whose element at `i` does not decode never decodes, whatever
/// follows that element.
proof fn lemma_steps_prefix_err(items: Seq<JsonValue>, i: int)
    requires
        0 <= i < items.len(),
        spec_decode_step(items[i]) is Err,
    ensures
        spec_decode_steps(items) is Err,
    decreases items.len(),
{
    if items.len() > 0 {
        if i == items.len() - 1 {
            assert(items.last() == items[i]);
        } else {
            assert(items.drop_last()[i] == items[i]);
            lemma_steps_prefix_err(items.drop_last(), i);
        }
    }
}

/// What a progress snapshot decodes to.
pub open spec fn spec_decode_progress(v: JsonValue) -> Result<ProgressView, ()> {
    match v {
        JsonValue::Obj(evec) => {
            let es = entry_views(evec@);
            let steps = match entry_lookup(es, "steps"@) {
                Option::Some(JsonValue::Arr(a)) => spec_decode_steps(a@),
                _ => Result::Err(()),
            };
            if steps is Err || spec_req_num_text(es, "percentage"@) is Err {
                Result::Err(())
            } else {
                Result::Ok(
                    ProgressView {
                        steps: steps->Ok_0,
                        percentage: spec_req_num_text(es, "percentage"@)->Ok_0,
                    },
                )
            }
        },
        _ => Result::Err(()),
    }
}

/// Decode a progress snapshot.
pub fn decode_progress(v: &JsonValue) -> (r: Result<BatchProgress, Error>)
    ensures
        match r {
            Result::Ok(p) => spec_decode_progress(*v) == Result::Ok::<ProgressView, ()>(p@),
            Result::Err(e) => spec_decode_progress(*v) is Err && e is Decode,
        },
{
    match v {
        JsonValue::Obj(es) => {
            let steps = match obj_get(es, "steps") {
                Option::Some(JsonValue::Arr(a)) => match decode_steps(a) {
                    Result::Ok(x) => x,
                    Result::Err(e) => return Result::Err(e),
                },
                _ => return Result::Err(decode_err("steps")),
            };
            let percentage = match field_req_num_text(es, "percentage") {
                Result::Ok(x) => x,
                Result::Err(e) => return Result::Err(e),
            };
            Result::Ok(BatchProgress { steps, percentage })
        },
        _ => Result::Err(decode_err("progress")),
    }
}

// ---------------------------------------------------------------------------
// Stats, batch records, and the results envelope.
// ---------------------------------------------------------------------------
/// What the per-index task counts object decodes to: every entry keeps its
/// key and must carry a signed 32-bit count, in entry order.
pub open spec fn spec_decode_counts(es: Seq<(Seq<char>, JsonValue)>) -> Result<
    Seq<(Seq<char>, i32)>,
    (),
>
    decreases es.len(),
{
    if es.len() == 0 {
        Result::Ok(Seq::empty())
    } else {
        match (spec_decode_counts(es.drop_last()), es.last().1) {
            (Result::Ok(pre), JsonValue::Int(i)) => if i32::MIN as i64 <= i && i <= i32::MAX
                as i64 {
                Result::Ok(pre.push((es.last().0, i as i32)))
            } else {
                Result::Err(())
            },
            _ => Result::Err(()),
        }
    }
}

proof fn lemma_counts_entry_err(es: Seq<(Seq<char>, JsonValue)>, i: int)
    requires
        0 <= i < es.len(),
        match es[i].1 {
            JsonValue::Int(n) => !(i32::MIN as i64 <= n && n <= i32::MAX as i64),
            _ => true,
        },
    ensures
        spec_decode_counts(es) is Err,
    decreases es.len(),
{
    if es.len() > 0 {
        if i == es.len() - 1 {
            assert(es.last() == es[i]);
        } else {
            assert(es.drop_last()[i] == es[i]);
            lemma_counts_entry_err(es.drop_last(), i);
        }
    }
}

/// Decode the per-index task counts.
pub fn decode_counts(ces: &Vec<(String, JsonValue)>) -> (r: Result<Vec<(String, i32)>, Error>)
    ensures
        match r {
            Result::Ok(out) => spec_decode_counts(entry_views(ces@)) == Result::Ok::<
                Seq<(Seq<char>, i32)>,
                (),
            >(out@.map_values(|p: (String, i32)| (p.0@, p.1))),
            Result::Err(e) => spec_decode_counts(entry_views(ces@)) is Err && e is Decode,
        },
{
    let mut out: Vec<(String, i32)> = Vec::new();
    let mut i: usize = 0;
    proof {
        assert(entry_views(ces@).take(0) =~= Seq::<(Seq<char>, JsonValue)>::empty());
        assert(out@.map_values(|p: (String, i32)| (p.0@, p.1)) =~= Seq::<(Seq<char>, i32)>::empty());
    }
    while i < ces.len()
        invariant
            0 <= i <= ces@.len(),
            spec_decode_counts(entry_views(ces@).take(i as int)) == Result::Ok::<
                Seq<(Seq<char>, i32)>,
                (),
            >(out@.map_values(|p: (String, i32)| (p.0@, p.1))),
        decreases ces@.len() - i,
    {
        let ghost pre = out@.map_values(|p: (String, i32)| (p.0@, p.1));
        let p = &ces[i];
        proof {
            assert(entry_views(ces@)[i as int] == (ces@[i as int].0@, ces@[i as int].1));
        }
        match &p.1 {
            JsonValue::Int(n) => {
                let c = *n;
                if i32::MIN as i64 <= c && c <= i32::MAX as i64 {
                    out.push((p.0.clone(), c as i32));
                    proof {
                        assert(entry_views(ces@).take(i as int + 1).drop_last() =~= entry_views(
                            ces@,
                        ).take(i as int));
                        assert(entry_views(ces@).take(i as int + 1).last() == entry_views(ces@)[
                            i as int
                        ]);
                        assert(out@.map_values(|q: (String, i32)| (q.0@, q.1)) =~= pre.push(
                            (ces@[i as int].0@, c as i32),
                        ));
                    }
                } else {
                    proof {
                        lemma_counts_entry_err(entry_views(ces@), i as int);
                    }
                    return Result::Err(decode_err("indexedUids"));
                }
            },
            _ => {
                proof {
                    lemma_counts_entry_err(entry_views(ces@), i as int);
                }
                return Result::Err(decode_err("indexedUids"));
            },
        }
        i += 1;
    }
    proof {
        assert(entry_views(ces@).take(ces@.len() as int) =~= entry_views(ces@));
    }
    Result::Ok(out)
}

/// What the free-form progress trace object decodes to: every entry keeps
/// its key and must carry a string, in entry order.
pub open spec fn spec_decode_trace(es: Seq<(Seq<char>, JsonValue)>) -> Result<
    Seq<(Seq<char>, Seq<char>)>,
    (),
>
    decreases es.len(),
{
    if es.len() == 0 {
        Result::Ok(Seq::empty())
    } else {
        match (spec_decode_trace(es.drop_last()), es.last().1) {
            (Result::Ok(pre), JsonValue::Str(t)) => Result::Ok(pre.push((es.last().0, t@))),
            _ => Result::Err(()),
        }
    }
}

proof fn lemma_trace_entry_err(es: Seq<(Seq<char>, JsonValue)>, i: int)
    requires
        0 <= i < es.len(),
        !(es[i].1 is Str),
    ensures
        spec_decode_trace(es) is Err,
    decreases es.len(),
{
    if es.len() > 0 {
        if i == es.len() - 1 {
            assert(es.last() == es[i]);
        } else {
            assert(es.drop_last()[i] == es[i]);
            lemma_trace_entry_err(es.drop_last(), i);
        }
    }
}

/// Decode the free-form progress trace.
pub fn decode_trace(ces: &Vec<(String, JsonValue)>) -> (r: Result<Vec<(String, String)>, Error>)
    ensures
        match r {
            Result::Ok(out) => spec_decode_trace(entry_views(ces@)) == Result::Ok::<
                Seq<(Seq<char>, Seq<char>)>,
                (),
            >(out@.map_values(|p: (String, String)| (p.0@, p.1@))),
            Result::Err(e) => spec_decode_trace(entry_views(ces@)) is Err && e is Decode,
        },
{
    let mut out: Vec<(String, String)> = Vec::new();
    let mut i: usize = 0;
    proof {
        assert(entry_views(ces@).take(0) =~= Seq::<(Seq<char>, JsonValue)>::empty());
        assert(out@.map_values(|p: (String, String)| (p.0@, p.1@)) =~= Seq::<
            (Seq<char>, Seq<char>),
        >::empty());
    }
    while i < ces.len()
        invariant
            0 <= i <= ces@.len(),
            spec_decode_trace(entry_views(ces@).take(i as int)) == Result::Ok::<
                Seq<(Seq<char>, Seq<char>)>,
                (),
            >(out@.map_values(|p: (String, String)| (p.0@, p.1@))),
        decreases ces@.len() - i,
    {
        let ghost pre = out@.map_values(|p: (String, String)| (p.0@, p.1@));
        let p = &ces[i];
        proof {
            assert(entry_views(ces@)[i as int] == (ces@[i as int].0@, ces@[i as int].1));
        }
        match &p.1 {
            JsonValue::Str(t) => {
                out.push((p.0.clone(), t.clone()));
                proof {
                    assert(entry_views(ces@).take(i as int + 1).drop_last() =~= entry_views(
                        ces@,
                    ).take(i as int));
                    assert(entry_views(ces@).take(i as int + 1).last() == entry_views(ces@)[
                        i as int
                    ]);
                    assert(out@.map_values(|q: (String, String)| (q.0@, q.1@)) =~= pre.push(
                        (ces@[i as int].0@, ces@[i as int].1->Str_0@),
                    ));
                }
            },
            _ => {
                proof {
                    lemma_trace_entry_err(entry_views(ces@), i as int);
                }
                return Result::Err(decode_err("progressTrace"));
            },
        }
        i += 1;
    }
    proof {
        assert(entry_views(ces@).take(ces@.len() as int) =~= entry_views(ces@));
    }
    Result::Ok(out)
}

/// A statuses histogram held in a required field.
pub open spec fn spec_statuses_at(es: Seq<(Seq<char>, JsonValue)>, key: Seq<char>) -> Result<
    crate::batches::Statuses,
    (),
> {
    match entry_lookup(es, key) {
        Option::Some(JsonValue::Obj(evec)) => spec_decode_statuses(entry_views(evec@)),
        _ => Result::Err(()),
    }
}

/// A types histogram held in a required field.
pub open spec fn spec_types_at(es: Seq<(Seq<char>, JsonValue)>, key: Seq<char>) -> Result<
    crate::batches::Types,
    (),
> {
    match entry_lookup(es, key) {
        Option::Some(JsonValue::Obj(evec)) => spec_decode_types(entry_views(evec@)),
        _ => Result::Err(()),
    }
}

/// Per-index counts held in a required field.
pub open spec fn spec_counts_at(es: Seq<(Seq<char>, JsonValue)>, key: Seq<char>) -> Result<
    Seq<(Seq<char>, i32)>,
    (),
> {
    match entry_lookup(es, key) {
        Option::Some(JsonValue::Obj(evec)) => spec_decode_counts(entry_views(evec@)),
        _ => Result::Err(()),
    }
}

/// A progress trace held in a required field.
pub open spec fn spec_trace_at(es: Seq<(Seq<char>, JsonValue)>, key: Seq<char>) -> Result<
    Seq<(Seq<char>, Seq<char>)>,
    (),
> {
    match entry_lookup(es, key) {
        Option::Some(JsonValue::Obj(evec)) => spec_decode_trace(entry_views(evec@)),
        _ => Result::Err(()),
    }
}

/// A congestion report held in a required field.
pub open spec fn spec_congestion_at(es: Seq<(Seq<char>, JsonValue)>, key: Seq<char>) -> Result<
    CongestionView,
    (),
> {
    match entry_lookup(es, key) {
        Option::Some(v) => spec_decode_congestion(v),
        Option::None => Result::Err(()),
    }
}

/// A database size report held in a required field.
pub open spec fn spec_db_sizes_at(es: Seq<(Seq<char>, JsonValue)>, key: Seq<char>) -> Result<
    DbSizesView,
    (),
> {
    match entry_lookup(es, key) {
        Option::Some(v) => spec_decode_db_sizes(v),
        Option::None => Result::Err(()),
    }
}

/// What a batch stats object decodes to.
pub open spec fn spec_decode_stats(v: JsonValue) -> Result<StatsView, ()> {
    match v {
        JsonValue::Obj(evec) => {
            let es = entry_views(evec@);
            if spec_req_i32(es, "totalNbTasks"@) is Err || spec_statuses_at(es, "status"@) is Err
                || spec_types_at(es, "types"@) is Err || spec_counts_at(es, "indexedUids"@) is Err
                || spec_trace_at(es, "progressTrace"@) is Err || spec_congestion_at(
                es,
                "writeChannelCongestion"@,
            ) is Err || spec_db_sizes_at(es, "internalDatabaseSizes"@) is Err {
                Result::Err(())
            } else {
                Result::Ok(
                    StatsView {
                        total_nb_tasks: spec_req_i32(es, "totalNbTasks"@)->Ok_0,
                        status: spec_statuses_at(es, "status"@)->Ok_0,
                        types: spec_types_at(es, "types"@)->Ok_0,
                        indexed_uids: spec_counts_at(es, "indexedUids"@)->Ok_0,
                        progress_trace: spec_trace_at(es, "progressTrace"@)->Ok_0,
                        write_channel_congestion: spec_congestion_at(
                            es,
                            "writeChannelCongestion"@,
                        )->Ok_0,
                        internal_database_sizes: spec_db_sizes_at(
                            es,
                            "internalDatabaseSizes"@,
                        )->Ok_0,
                    },
                )
            }
        },
        _ => Result::Err(()),
    }
}

/// Decode a batch stats object.
pub fn decode_stats(v: &JsonValue) -> (r: Result<BatchStats, Error>)
    ensures
        match r {
            Result::Ok(st) => spec_decode_stats(*v) == Result::Ok::<StatsView, ()>(st@),
            Result::Err(e) => spec_decode_stats(*v) is Err && e is Decode,
        },
{
    match v {
        JsonValue::Obj(es) => {
            let total_nb_tasks = match field_req_i32(es, "totalNbTasks") {
                Result::Ok(x) => x,
                Result::Err(e) => return Result::Err(e),
            };
            let status = match obj_get(es, "status") {
                Option::Some(sv) => match decode_statuses(sv) {
                    Result::Ok(x) => x,
                    Result::Err(e) => return Result::Err(e),
                },
                Option::None => return Result::Err(decode_err("status")),
            };
            let types = match obj_get(es, "types") {
                Option::Some(tv) => match decode_types(tv) {
                    Result::Ok(x) => x,
                    Result::Err(e) => return Result::Err(e),
                },
                Option::None => return Result::Err(decode_err("types")),
            };
            let indexed_uids = match obj_get(es, "indexedUids") {
                Option::Some(JsonValue::Obj(ces)) => match decode_counts(ces) {
                    Result::Ok(x) => x,
                    Result::Err(e) => return Result::Err(e),
                },
                _ => return Result::Err(decode_err("indexedUids")),
            };
            let progress_trace = match obj_get(es, "progressTrace") {
                Option::Some(JsonValue::Obj(ces)) => match decode_trace(ces) {
                    Result::Ok(x) => x,
                    Result::Err(e) => return Result::Err(e),
                },
                _ => return Result::Err(decode_err("progressTrace")),
            };
            let write_channel_congestion = match obj_get(es, "writeChannelCongestion") {
                Option::Some(cv) => match decode_congestion(cv) {
                    Result::Ok(x) => x,
                    Result::Err(e) => return Result::Err(e),
                },
                Option::None => return Result::Err(decode_err("writeChannelCongestion")),
            };
            let internal_database_sizes = match obj_get(es, "internalDatabaseSizes") {
                Option::Some(dv) => match decode_db_sizes(dv) {
                    Result::Ok(x) => x,
                    Result::Err(e) => return Result::Err(e),
                },
                Option::None => return Result::Err(decode_err("internalDatabaseSizes")),
            };
            Result::Ok(
                BatchStats {
                    total_nb_tasks,
                    status,
                    types,
                    indexed_uids,
                    progress_trace,
                    write_channel_congestion,
                    internal_database_sizes,
                },
            )
        },
        _ => Result::Err(decode_err("stats")),
    }
}

/// A progress snapshot held in an optional field: absent or null means
/// absent; any other value must decode as a progress object.
pub open spec fn spec_opt_progress(es: Seq<(Seq<char>, JsonValue)>, key: Seq<char>) -> Result<
    Option<ProgressView>,
    (),
> {
    match entry_lookup(es, key) {
        Option::None => Result::Ok(Option::None),
        Option::Some(JsonValue::Null) => Result::Ok(Option::None),
        Option::Some(w) => match spec_decode_progress(w) {
            Result::Ok(p) => Result::Ok(Option::Some(p)),
            Result::Err(_) => Result::Err(()),
        },
    }
}

/// A stats object held in an optional field: absent or null means absent.
pub open spec fn spec_opt_stats(es: Seq<(Seq<char>, JsonValue)>, key: Seq<char>) -> Result<
    Option<StatsView>,
    (),
> {
    match entry_lookup(es, key) {
        Option::None => Result::Ok(Option::None),
        Option::Some(JsonValue::Null) => Result::Ok(Option::None),
        Option::Some(w) => match spec_decode_stats(w) {
            Result::Ok(st) => Result::Ok(Option::Some(st)),
            Result::Err(_) => Result::Err(()),
        },
    }
}

/// What a batch record decodes to: a required numeric id; everything else
/// optional, with the shapes above; unknown fields are ignored.
pub open spec fn spec_decode_batch(v: JsonValue) -> Result<BatchView, ()> {
    match v {
        JsonValue::Obj(evec) => {
            let es = entry_views(evec@);
            if spec_req_i64(es, "uid"@) is Err || spec_opt_progress(es, "progress"@) is Err
                || spec_opt_stats(es, "stats"@) is Err || spec_opt_str(es, "duration"@) is Err
                || spec_opt_time(es, "startedAt"@) is Err || spec_opt_time(es, "finishedAt"@)
                is Err || spec_opt_strategy(es, "batchStrategy"@) is Err {
                Result::Err(())
            } else {
                Result::Ok(
                    BatchView {
                        uid: spec_req_i64(es, "uid"@)->Ok_0,
                        progress: spec_opt_progress(es, "progress"@)->Ok_0,
                        stats: spec_opt_stats(es, "stats"@)->Ok_0,
                        duration: spec_opt_str(es, "duration"@)->Ok_0,
                        started_at: spec_opt_time(es, "startedAt"@)->Ok_0,
                        finished_at: spec_opt_time(es, "finishedAt"@)->Ok_0,
                        batch_strategy: spec_opt_strategy(es, "batchStrategy"@)->Ok_0,
                    },
                )
            }
        },
        _ => Result::Err(()),
    }
}

/// Decode a single batch record, as returned by the single-batch endpoint.
pub fn decode_batch(v: &JsonValue) -> (r: Result<Batch, Error>)
    ensures
        match r {
            Result::Ok(b) => spec_decode_batch(*v) == Result::Ok::<BatchView, ()>(b@),
            Result::Err(e) => spec_decode_batch(*v) is Err && e is Decode,
        },
{
    match v {
        JsonValue::Obj(es) => {
            let uid = match field_req_i64(es, "uid") {
                Result::Ok(x) => x,
                Result::Err(e) => return Result::Err(e),
            };
            let progress = match obj_get(es, "progress") {
                Option::None => Option::None,
                Option::Some(JsonValue::Null) => Option::None,
                Option::Some(pv) => match decode_progress(pv) {
                    Result::Ok(x) => Option::Some(x),
                    Result::Err(e) => return Result::Err(e),
                },
            };
            let stats = match obj_get(es, "stats") {
                Option::None => Option::None,
                Option::Some(JsonValue::Null) => Option::None,
                Option::Some(sv) => match decode_stats(sv) {
                    Result::Ok(x) => Option::Some(x),
                    Result::Err(e) => return Result::Err(e),
                },
            };
            let duration = match field_opt_str(es, "duration") {
                Result::Ok(x) => x,
                Result::Err(e) => return Result::Err(e),
            };
            let started_at = match field_opt_time(es, "startedAt") {
                Result::Ok(x) => x,
                Result::Err(e) => return Result::Err(e),
            };
            let finished_at = match field_opt_time(es, "finishedAt") {
                Result::Ok(x) => x,
                Result::Err(e) => return Result::Err(e),
            };
            let batch_strategy = match field_opt_strategy(es, "batchStrategy") {
                Result::Ok(x) => x,
                Result::Err(e) => return Result::Err(e),
            };
            Result::Ok(
                Batch {
                    uid,
                    progress,
                    stats,
                    duration,
                    started_at,
                    finished_at,
                    batch_strategy,
                },
            )
        },
        _ => Result::Err(decode_err("batch")),
    }
}

/// What a sequence of batch values decodes to: every element must decode.
pub open spec fn spec_decode_batches(items: Seq<JsonValue>) -> Result<Seq<BatchView>, ()>
    decreases items.len(),
{
    if items.len() == 0 {
        Result::Ok(Seq::empty())
    } else {
        match (spec_decode_batches(items.drop_last()), spec_decode_batch(items.last())) {
            (Result::Ok(pre), Result::Ok(b)) => Result::Ok(pre.push(b)),
            _ => Result::Err(()),
        }
    }
}

proof fn lemma_batches_prefix_err(items: Seq<JsonValue>, i: int)
    requires
        0 <= i < items.len(),
        spec_decode_batch(items[i]) is Err,
    ensures
        spec_decode_batches(items) is Err,
    decreases items.len(),
{
    if items.len() > 0 {
        if i == items.len() - 1 {
            assert(items.last() == items[i]);
        } else {
            assert(items.drop_last()[i] == items[i]);
            lemma_batches_prefix_err(items.drop_last(), i);
        }
    }
}

/// Decode the ordered batch list of a results page.
pub fn decode_batches(items: &Vec<JsonValue>) -> (r: Result<Vec<Batch>, Error>)
    ensures
        match r {
            Result::Ok(out) => spec_decode_batches(items@) == Result::Ok::<Seq<BatchView>, ()>(
                out@.map_values(|b: Batch| b@),
            ),
            Result::Err(e) => spec_decode_batches(items@) is Err && e is Decode,
        },
{
    let mut out: Vec<Batch> = Vec::new();
    let mut i: usize = 0;
    proof {
        assert(items@.take(0) =~= Seq::<JsonValue>::empty());
        assert(out@.map_values(|b: Batch| b@) =~= Seq::<BatchView>::empty());
    }
    while i < items.len()
        invariant
            0 <= i <= items@.len(),
            spec_decode_batches(items@.take(i as int)) == Result::Ok::<Seq<BatchView>, ()>(
                out@.map_values(|b: Batch| b@),
            ),
        decreases items@.len() - i,
    {
        let ghost pre = out@.map_values(|b: Batch| b@);
        let b = match decode_batch(&items[i]) {
            Result::Ok(x) => x,
            Result::Err(e) => {
                proof {
                    lemma_batches_prefix_err(items@, i as int);
                }
                return Result::Err(e);
            },
        };
        out.push(b);
        proof {
            assert(items@.take(i as int + 1).drop_last() =~= items@.take(i as int));
            assert(items@.take(i as int + 1).last() == items@[i as int]);
            assert(out@.map_values(|x: Batch| x@) =~= pre.push(b@));
        }
        i += 1;
    }
    proof {
        assert(items@.take(items@.len() as int) =~= items@);
    }
    Result::Ok(out)
}

/// The batch list held in the required `results` field.
pub open spec fn spec_batches_at(es: Seq<(Seq<char>, JsonValue)>, key: Seq<char>) -> Result<
    Seq<BatchView>,
    (),
> {
    match entry_lookup(es, key) {
        Option::Some(JsonValue::Arr(a)) => spec_decode_batches(a@),
        _ => Result::Err(()),
    }
}

/// What a results envelope's entries decode to: a required batch list,
/// required total and limit, optional cursors; unknown fields are ignored.
pub open spec fn spec_decode_results_entries(es: Seq<(Seq<char>, JsonValue)>) -> Result<
    ResultsView,
    (),
> {
    if spec_batches_at(es, "results"@) is Err || spec_req_u32(es, "total"@) is Err || spec_req_u32(
        es,
        "limit"@,
    ) is Err || spec_field_u32(es, "from"@) is Err || spec_field_u32(es, "next"@) is Err {
        Result::Err(())
    } else {
        Result::Ok(
            ResultsView {
                results: spec_batches_at(es, "results"@)->Ok_0,
                total: spec_req_u32(es, "total"@)->Ok_0,
                limit: spec_req_u32(es, "limit"@)->Ok_0,
                from: spec_field_u32(es, "from"@)->Ok_0,
                next: spec_field_u32(es, "next"@)->Ok_0,
            },
        )
    }
}

/// What a results envelope decodes to.
pub open spec fn spec_decode_results(v: JsonValue) -> Result<ResultsView, ()> {
    match v {
        JsonValue::Obj(evec) => spec_decode_results_entries(entry_views(evec@)),
        _ => Result::Err(()),
    }
}

/// Decode one page of listing results with its pagination metadata.
pub fn decode_results(v: &JsonValue) -> (r: Result<BatchesResults, Error>)
    ensures
        match r {
            Result::Ok(page) => spec_decode_results(*v) == Result::Ok::<ResultsView, ()>(page@),
            Result::Err(e) => spec_decode_results(*v) is Err && e is Decode,
        },
{
    match v {
        JsonValue::Obj(es) => {
            let results = match obj_get(es, "results") {
                Option::Some(JsonValue::Arr(a)) => match decode_batches(a) {
                    Result::Ok(x) => x,
                    Result::Err(e) => return Result::Err(e),
                },
                _ => return Result::Err(decode_err("results")),
            };
            let total = match field_req_u32(es, "total") {
                Result::Ok(x) => x,
                Result::Err(e) => return Result::Err(e),
            };
            let limit = match field_req_u32(es, "limit") {
                Result::Ok(x) => x,
                Result::Err(e) => return Result::Err(e),
            };
            let from = match field_u32(es, "from") {
                Result::Ok(x) => x,
                Result::Err(e) => return Result::Err(e),
            };
            let next = match field_u32(es, "next") {
                Result::Ok(x) => x,
                Result::Err(e) => return Result::Err(e),
            };
            Result::Ok(BatchesResults { results, total, limit, from, next })
        },
        _ => Result::Err(decode_err("results")),
    }
}

/// The pagination contract of a results page: an envelope without a `next`
/// cursor is a valid terminal page whenever its other fields decode, and it
/// decodes with `next` absent, whether or not its list is empty; and an
/// envelope whose list is empty is valid for an empty or fully filtered-out
/// set, and decodes to a page with no results.
pub proof fn lemma_page_validity(es: Seq<(Seq<char>, JsonValue)>, items: Seq<JsonValue>)
    requires
        match entry_lookup(es, "results"@) {
            Option::Some(rv) => rv matches JsonValue::Arr(a) && a@ == items,
            Option::None => false,
        },
    ensures
        (spec_decode_batches(items) is Ok && spec_req_u32(es, "total"@) is Ok && spec_req_u32(
            es,
            "limit"@,
        ) is Ok && spec_field_u32(es, "from"@) is Ok && entry_lookup(es, "next"@) is None) ==> (
        spec_decode_results_entries(es) matches Result::Ok(rv) && rv.next is None && rv.results
            == spec_decode_batches(items)->Ok_0),
        (items.len() == 0 && spec_req_u32(es, "total"@) is Ok && spec_req_u32(es, "limit"@) is Ok
            && spec_field_u32(es, "from"@) is Ok && spec_field_u32(es, "next"@) is Ok) ==> (
        spec_decode_results_entries(es) matches Result::Ok(rv) && rv.results =~= Seq::<
            BatchView,
        >::empty() && rv.total == spec_req_u32(es, "total"@)->Ok_0),
{
    if items.len() == 0 {
        assert(spec_decode_batches(items) == Result::Ok::<Seq<BatchView>, ()>(Seq::empty()));
    }
}


} // verus!
