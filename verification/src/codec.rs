//! Decoding of the batches wire shapes from the JSON tree, the encoding of
//! the sparse histograms, and the laws tying the two directions together.
use crate::batches::{Statuses, Types};
use crate::errors::Error;
use crate::json::{entry_lookup, entry_views, obj_get, JsonValue};
use vstd::prelude::*;

verus! {

// ---------------------------------------------------------------------------
// Spec-level field readers over object entries.
// ---------------------------------------------------------------------------
/// An optional count: absent or null means absent; a number must be an
/// unsigned 32-bit value; anything else refuses to decode.
pub open spec fn spec_field_u32(es: Seq<(Seq<char>, JsonValue)>, key: Seq<char>) -> Result<
    Option<u32>,
    (),
> {
    match entry_lookup(es, key) {
        Option::None => Result::Ok(Option::None),
        Option::Some(JsonValue::Null) => Result::Ok(Option::None),
        Option::Some(JsonValue::Int(i)) => if 0 <= i && i <= u32::MAX as i64 {
            Result::Ok(Option::Some(i as u32))
        } else {
            Result::Err(())
        },
        Option::Some(_) => Result::Err(()),
    }
}

/// Read an optional count field of an object.
pub(crate) fn field_u32(es: &Vec<(String, JsonValue)>, key: &str) -> (r: Result<Option<u32>, Error>)
    ensures
        match r {
            Result::Ok(v) => spec_field_u32(entry_views(es@), key@) == Result::Ok::<
                Option<u32>,
                (),
            >(v),
            Result::Err(e) => spec_field_u32(entry_views(es@), key@) is Err && e is Decode,
        },
{
    match obj_get(es, key) {
        Option::None => Result::Ok(Option::None),
        Option::Some(v) => match v {
            JsonValue::Null => Result::Ok(Option::None),
            JsonValue::Int(i) => {
                let n = *i;
                if 0 <= n && n <= u32::MAX as i64 {
                    Result::Ok(Option::Some(n as u32))
                } else {
                    Result::Err(decode_err(key))
                }
            },
            _ => Result::Err(decode_err(key)),
        },
    }
}

/// A decode failure naming the field that did not conform.
pub(crate) fn decode_err(key: &str) -> (e: Error)
    ensures
        e is Decode,
{
    Error::Decode { message: key.to_owned() }
}

// ---------------------------------------------------------------------------
// Sparse histograms: field lists, encoding, decoding.
// ---------------------------------------------------------------------------
/// The entry a set count contributes to the encoded object: one pair when
/// the count is present, nothing when it is absent.
pub open spec fn opt_count_entry(key: Seq<char>, o: Option<u32>) -> Seq<(Seq<char>, JsonValue)> {
    match o {
        Option::None => Seq::empty(),
        Option::Some(n) => seq![(key, JsonValue::Int(n as i64))],
    }
}

/// The encoded entries of a list of keyed optional counts, in field order.
pub open spec fn opt_count_entries(fields: Seq<(Seq<char>, Option<u32>)>) -> Seq<
    (Seq<char>, JsonValue),
>
    decreases fields.len(),
{
    if fields.len() == 0 {
        Seq::empty()
    } else {
        opt_count_entry(fields[0].0, fields[0].1) + opt_count_entries(fields.drop_first())
    }
}

/// The categories of the statuses histogram with their wire names.
pub open spec fn statuses_fields(s: Statuses) -> Seq<(Seq<char>, Option<u32>)> {
    seq![
        ("enqueued"@, s.enqueued),
        ("processing"@, s.processing),
        ("succeeded"@, s.succeeded),
        ("failed"@, s.failed),
        ("canceled"@, s.canceled),
    ]
}

/// The categories of the types histogram with their wire names.
pub open spec fn types_fields(t: Types) -> Seq<(Seq<char>, Option<u32>)> {
    seq![
        ("indexCreation"@, t.index_creation),
        ("indexUpdate"@, t.index_update),
        ("indexDeletion"@, t.index_deletion),
        ("indexSwap"@, t.index_swap),
        ("documentAdditionOrUpdate"@, t.document_addition_or_update),
        ("documentDeletion"@, t.document_deletion),
        ("settingsUpdate"@, t.settings_update),
        ("dumpCreation"@, t.dump_creation),
        ("taskCancellation"@, t.task_cancellation),
        ("taskDeletion"@, t.task_deletion),
        ("upgradeDatabase"@, t.upgrade_database),
        ("documentEdition"@, t.document_edition),
        ("snapshotCreation"@, t.snapshot_creation),
    ]
}

/// The object entries that encode a statuses histogram: exactly the set
/// categories, each under its wire name.
pub open spec fn spec_encode_statuses(s: Statuses) -> Seq<(Seq<char>, JsonValue)> {
    opt_count_entries(statuses_fields(s))
}

/// The object entries that encode a types histogram.
pub open spec fn spec_encode_types(t: Types) -> Seq<(Seq<char>, JsonValue)> {
    opt_count_entries(types_fields(t))
}

/// What a statuses object decodes to: each category read as an optional
/// count; unknown keys are ignored.
pub open spec fn spec_decode_statuses(es: Seq<(Seq<char>, JsonValue)>) -> Result<Statuses, ()> {
    if spec_field_u32(es, "enqueued"@) is Err || spec_field_u32(es, "processing"@) is Err
        || spec_field_u32(es, "succeeded"@) is Err || spec_field_u32(es, "failed"@) is Err
        || spec_field_u32(es, "canceled"@) is Err {
        Result::Err(())
    } else {
        Result::Ok(
            Statuses {
                enqueued: spec_field_u32(es, "enqueued"@)->Ok_0,
                processing: spec_field_u32(es, "processing"@)->Ok_0,
                succeeded: spec_field_u32(es, "succeeded"@)->Ok_0,
                failed: spec_field_u32(es, "failed"@)->Ok_0,
                canceled: spec_field_u32(es, "canceled"@)->Ok_0,
            },
        )
    }
}

/// What a types object decodes to.
pub open spec fn spec_decode_types(es: Seq<(Seq<char>, JsonValue)>) -> Result<Types, ()> {
    if spec_field_u32(es, "indexCreation"@) is Err || spec_field_u32(es, "indexUpdate"@) is Err
        || spec_field_u32(es, "indexDeletion"@) is Err || spec_field_u32(es, "indexSwap"@) is Err
        || spec_field_u32(es, "documentAdditionOrUpdate"@) is Err || spec_field_u32(
        es,
        "documentDeletion"@,
    ) is Err || spec_field_u32(es, "settingsUpdate"@) is Err || spec_field_u32(
        es,
        "dumpCreation"@,
    ) is Err || spec_field_u32(es, "taskCancellation"@) is Err || spec_field_u32(
        es,
        "taskDeletion"@,
    ) is Err || spec_field_u32(es, "upgradeDatabase"@) is Err || spec_field_u32(
        es,
        "documentEdition"@,
    ) is Err || spec_field_u32(es, "snapshotCreation"@) is Err {
        Result::Err(())
    } else {
        Result::Ok(
            Types {
                index_creation: spec_field_u32(es, "indexCreation"@)->Ok_0,
                index_update: spec_field_u32(es, "indexUpdate"@)->Ok_0,
                index_deletion: spec_field_u32(es, "indexDeletion"@)->Ok_0,
                index_swap: spec_field_u32(es, "indexSwap"@)->Ok_0,
                document_addition_or_update: spec_field_u32(es, "documentAdditionOrUpdate"@)->Ok_0,
                document_deletion: spec_field_u32(es, "documentDeletion"@)->Ok_0,
                settings_update: spec_field_u32(es, "settingsUpdate"@)->Ok_0,
                dump_creation: spec_field_u32(es, "dumpCreation"@)->Ok_0,
                task_cancellation: spec_field_u32(es, "taskCancellation"@)->Ok_0,
                task_deletion: spec_field_u32(es, "taskDeletion"@)->Ok_0,
                upgrade_database: spec_field_u32(es, "upgradeDatabase"@)->Ok_0,
                document_edition: spec_field_u32(es, "documentEdition"@)->Ok_0,
                snapshot_creation: spec_field_u32(es, "snapshotCreation"@)->Ok_0,
            },
        )
    }
}

/// Decode a statuses histogram from a JSON value, which must be an object.
pub fn decode_statuses(v: &JsonValue) -> (r: Result<Statuses, Error>)
    ensures
        match r {
            Result::Ok(s) => v matches JsonValue::Obj(es) && spec_decode_statuses(entry_views(es@))
                == Result::Ok::<Statuses, ()>(s),
            Result::Err(e) => e is Decode && (v matches JsonValue::Obj(es) ==> spec_decode_statuses(
                entry_views(es@),
            ) is Err),
        },
{
    match v {
        JsonValue::Obj(es) => {
            let enqueued = match field_u32(es, "enqueued") {
                Result::Ok(x) => x,
                Result::Err(e) => return Result::Err(e),
            };
            let processing = match field_u32(es, "processing") {
                Result::Ok(x) => x,
                Result::Err(e) => return Result::Err(e),
            };
            let succeeded = match field_u32(es, "succeeded") {
                Result::Ok(x) => x,
                Result::Err(e) => return Result::Err(e),
            };
            let failed = match field_u32(es, "failed") {
                Result::Ok(x) => x,
                Result::Err(e) => return Result::Err(e),
            };
            let canceled = match field_u32(es, "canceled") {
                Result::Ok(x) => x,
                Result::Err(e) => return Result::Err(e),
            };
            Result::Ok(Statuses { enqueued, processing, succeeded, failed, canceled })
        },
        _ => Result::Err(decode_err("statuses")),
    }
}

/// Decode a types histogram from a JSON value, which must be an object.
pub fn decode_types(v: &JsonValue) -> (r: Result<Types, Error>)
    ensures
        match r {
            Result::Ok(t) => v matches JsonValue::Obj(es) && spec_decode_types(entry_views(es@))
                == Result::Ok::<Types, ()>(t),
            Result::Err(e) => e is Decode && (v matches JsonValue::Obj(es) ==> spec_decode_types(
                entry_views(es@),
            ) is Err),
        },
{
    match v {
        JsonValue::Obj(es) => {
            let index_creation = match field_u32(es, "indexCreation") {
                Result::Ok(x) => x,
                Result::Err(e) => return Result::Err(e),
            };
            let index_update = match field_u32(es, "indexUpdate") {
                Result::Ok(x) => x,
                Result::Err(e) => return Result::Err(e),
            };
            let index_deletion = match field_u32(es, "indexDeletion") {
                Result::Ok(x) => x,
                Result::Err(e) => return Result::Err(e),
            };
            let index_swap = match field_u32(es, "indexSwap") {
                Result::Ok(x) => x,
                Result::Err(e) => return Result::Err(e),
            };
            let document_addition_or_update = match field_u32(es, "documentAdditionOrUpdate") {
                Result::Ok(x) => x,
                Result::Err(e) => return Result::Err(e),
            };
            let document_deletion = match field_u32(es, "documentDeletion") {
                Result::Ok(x) => x,
                Result::Err(e) => return Result::Err(e),
            };
            let settings_update = match field_u32(es, "settingsUpdate") {
                Result::Ok(x) => x,
                Result::Err(e) => return Result::Err(e),
            };
            let dump_creation = match field_u32(es, "dumpCreation") {
                Result::Ok(x) => x,
                Result::Err(e) => return Result::Err(e),
            };
            let task_cancellation = match field_u32(es, "taskCancellation") {
                Result::Ok(x) => x,
                Result::Err(e) => return Result::Err(e),
            };
            let task_deletion = match field_u32(es, "taskDeletion") {
                Result::Ok(x) => x,
                Result::Err(e) => return Result::Err(e),
            };
            let upgrade_database = match field_u32(es, "upgradeDatabase") {
                Result::Ok(x) => x,
                Result::Err(e) => return Result::Err(e),
            };
            let document_edition = match field_u32(es, "documentEdition") {
                Result::Ok(x) => x,
                Result::Err(e) => return Result::Err(e),
            };
            let snapshot_creation = match field_u32(es, "snapshotCreation") {
                Result::Ok(x) => x,
                Result::Err(e) => return Result::Err(e),
            };
            Result::Ok(
                Types {
                    index_creation,
                    index_update,
                    index_deletion,
                    index_swap,
                    document_addition_or_update,
                    document_deletion,
                    settings_update,
                    dump_creation,
                    task_cancellation,
                    task_deletion,
                    upgrade_database,
                    document_edition,
                    snapshot_creation,
                },
            )
        },
        _ => Result::Err(decode_err("types")),
    }
}

/// Push the entry of one set count onto the encoded object.
fn push_count_entry(es: &mut Vec<(String, JsonValue)>, key: &str, o: Option<u32>)
    ensures
        entry_views(final(es)@) == entry_views(old(es)@) + opt_count_entry(key@, o),
{
    match o {
        Option::Some(n) => {
            es.push((key.to_owned(), JsonValue::Int(n as i64)));
            proof {
                assert(entry_views(es@) =~= entry_views(old(es)@) + opt_count_entry(key@, o));
            }
        },
        Option::None => {
            proof {
                assert(entry_views(es@) =~= entry_views(old(es)@) + opt_count_entry(key@, o));
            }
        },
    }
}

/// Appending one field to a field list appends its entries.
proof fn lemma_entries_snoc(fields: Seq<(Seq<char>, Option<u32>)>, f: (Seq<char>, Option<u32>))
    ensures
        opt_count_entries(fields.push(f)) == opt_count_entries(fields) + opt_count_entry(
            f.0,
            f.1,
        ),
    decreases fields.len(),
{
    if fields.len() == 0 {
        reveal_with_fuel(opt_count_entries, 3);
        assert(fields.push(f)[0] == f);
        assert(fields.push(f).drop_first() =~= Seq::<(Seq<char>, Option<u32>)>::empty());
        assert(opt_count_entries(fields.push(f)) =~= opt_count_entries(fields) + opt_count_entry(
            f.0,
            f.1,
        ));
    } else {
        assert(fields.push(f)[0] == fields[0]);
        assert(fields.push(f).drop_first() =~= fields.drop_first().push(f));
        lemma_entries_snoc(fields.drop_first(), f);
        assert(opt_count_entries(fields.push(f)) =~= opt_count_entries(fields) + opt_count_entry(
            f.0,
            f.1,
        ));
    }
}

/// Encode a statuses histogram as a JSON object holding exactly the set
/// categories.
pub fn encode_statuses(s: &Statuses) -> (r: JsonValue)
    ensures
        r matches JsonValue::Obj(es) && entry_views(es@) == spec_encode_statuses(*s),
{
    let mut es: Vec<(String, JsonValue)> = Vec::new();
    let ghost flds = statuses_fields(*s);
    proof {
        assert(entry_views(es@) =~= opt_count_entries(flds.take(0)));
    }
    push_count_entry(&mut es, "enqueued", s.enqueued);
    proof {
        lemma_entries_snoc(flds.take(0), flds[0]);
        assert(flds.take(0).push(flds[0]) =~= flds.take(1));
        assert(entry_views(es@) == opt_count_entries(flds.take(1)));
    }
    push_count_entry(&mut es, "processing", s.processing);
    proof {
        lemma_entries_snoc(flds.take(1), flds[1]);
        assert(flds.take(1).push(flds[1]) =~= flds.take(2));
        assert(entry_views(es@) == opt_count_entries(flds.take(2)));
    }
    push_count_entry(&mut es, "succeeded", s.succeeded);
    proof {
        lemma_entries_snoc(flds.take(2), flds[2]);
        assert(flds.take(2).push(flds[2]) =~= flds.take(3));
        assert(entry_views(es@) == opt_count_entries(flds.take(3)));
    }
    push_count_entry(&mut es, "failed", s.failed);
    proof {
        lemma_entries_snoc(flds.take(3), flds[3]);
        assert(flds.take(3).push(flds[3]) =~= flds.take(4));
        assert(entry_views(es@) == opt_count_entries(flds.take(4)));
    }
    push_count_entry(&mut es, "canceled", s.canceled);
    proof {
        lemma_entries_snoc(flds.take(4), flds[4]);
        assert(flds.take(4).push(flds[4]) =~= flds.take(5));
        assert(entry_views(es@) == opt_count_entries(flds.take(5)));
    }
    proof {
        assert(flds.take(5) =~= flds);
    }
    JsonValue::Obj(es)
}

/// Encode a types histogram as a JSON object holding exactly the set
/// categories.
pub fn encode_types(t: &Types) -> (r: JsonValue)
    ensures
        r matches JsonValue::Obj(es) && entry_views(es@) == spec_encode_types(*t),
{
    let mut es: Vec<(String, JsonValue)> = Vec::new();
    let ghost flds = types_fields(*t);
    proof {
        assert(entry_views(es@) =~= opt_count_entries(flds.take(0)));
    }
    push_count_entry(&mut es, "indexCreation", t.index_creation);
    proof {
        lemma_entries_snoc(flds.take(0), flds[0]);
        assert(flds.take(0).push(flds[0]) =~= flds.take(1));
        assert(entry_views(es@) == opt_count_entries(flds.take(1)));
    }
    push_count_entry(&mut es, "indexUpdate", t.index_update);
    proof {
        lemma_entries_snoc(flds.take(1), flds[1]);
        assert(flds.take(1).push(flds[1]) =~= flds.take(2));
        assert(entry_views(es@) == opt_count_entries(flds.take(2)));
    }
    push_count_entry(&mut es, "indexDeletion", t.index_deletion);
    proof {
        lemma_entries_snoc(flds.take(2), flds[2]);
        assert(flds.take(2).push(flds[2]) =~= flds.take(3));
        assert(entry_views(es@) == opt_count_entries(flds.take(3)));
    }
    push_count_entry(&mut es, "indexSwap", t.index_swap);
    proof {
        lemma_entries_snoc(flds.take(3), flds[3]);
        assert(flds.take(3).push(flds[3]) =~= flds.take(4));
        assert(entry_views(es@) == opt_count_entries(flds.take(4)));
    }
    push_count_entry(&mut es, "documentAdditionOrUpdate", t.document_addition_or_update);
    proof {
        lemma_entries_snoc(flds.take(4), flds[4]);
        assert(flds.take(4).push(flds[4]) =~= flds.take(5));
        assert(entry_views(es@) == opt_count_entries(flds.take(5)));
    }
    push_count_entry(&mut es, "documentDeletion", t.document_deletion);
    proof {
        lemma_entries_snoc(flds.take(5), flds[5]);
        assert(flds.take(5).push(flds[5]) =~= flds.take(6));
        assert(entry_views(es@) == opt_count_entries(flds.take(6)));
    }
    push_count_entry(&mut es, "settingsUpdate", t.settings_update);
    proof {
        lemma_entries_snoc(flds.take(6), flds[6]);
        assert(flds.take(6).push(flds[6]) =~= flds.take(7));
        assert(entry_views(es@) == opt_count_entries(flds.take(7)));
    }
    push_count_entry(&mut es, "dumpCreation", t.dump_creation);
    proof {
        lemma_entries_snoc(flds.take(7), flds[7]);
        assert(flds.take(7).push(flds[7]) =~= flds.take(8));
        assert(entry_views(es@) == opt_count_entries(flds.take(8)));
    }
    push_count_entry(&mut es, "taskCancellation", t.task_cancellation);
    proof {
        lemma_entries_snoc(flds.take(8), flds[8]);
        assert(flds.take(8).push(flds[8]) =~= flds.take(9));
        assert(entry_views(es@) == opt_count_entries(flds.take(9)));
    }
    push_count_entry(&mut es, "taskDeletion", t.task_deletion);
    proof {
        lemma_entries_snoc(flds.take(9), flds[9]);
        assert(flds.take(9).push(flds[9]) =~= flds.take(10));
        assert(entry_views(es@) == opt_count_entries(flds.take(10)));
    }
    push_count_entry(&mut es, "upgradeDatabase", t.upgrade_database);
    proof {
        lemma_entries_snoc(flds.take(10), flds[10]);
        assert(flds.take(10).push(flds[10]) =~= flds.take(11));
        assert(entry_views(es@) == opt_count_entries(flds.take(11)));
    }
    push_count_entry(&mut es, "documentEdition", t.document_edition);
    proof {
        lemma_entries_snoc(flds.take(11), flds[11]);
        assert(flds.take(11).push(flds[11]) =~= flds.take(12));
        assert(entry_views(es@) == opt_count_entries(flds.take(12)));
    }
    push_count_entry(&mut es, "snapshotCreation", t.snapshot_creation);
    proof {
        lemma_entries_snoc(flds.take(12), flds[12]);
        assert(flds.take(12).push(flds[12]) =~= flds.take(13));
        assert(entry_views(es@) == opt_count_entries(flds.take(13)));
    }
    proof {
        assert(flds.take(13) =~= flds);
    }
    JsonValue::Obj(es)
}

// ---------------------------------------------------------------------------
// Round-trip laws for the sparse histograms.
// ---------------------------------------------------------------------------
proof fn lemma_lookup_skip(
    k1: Seq<char>,
    o: Option<u32>,
    rest: Seq<(Seq<char>, JsonValue)>,
    k: Seq<char>,
)
    requires
        k1 != k,
    ensures
        entry_lookup(opt_count_entry(k1, o) + rest, k) == entry_lookup(rest, k),
{
    match o {
        Option::None => {
            assert(opt_count_entry(k1, o) + rest =~= rest);
        },
        Option::Some(n) => {
            let es = opt_count_entry(k1, o) + rest;
            assert(es[0].0 == k1);
            assert(es.drop_first() =~= rest);
        },
    }
}

proof fn lemma_lookup_head(k: Seq<char>, o: Option<u32>, rest: Seq<(Seq<char>, JsonValue)>)
    ensures
        entry_lookup(opt_count_entry(k, o) + rest, k) == (match o {
            Option::Some(n) => Option::Some(JsonValue::Int(n as i64)),
            Option::None => entry_lookup(rest, k),
        }),
{
    match o {
        Option::None => {
            assert(opt_count_entry(k, o) + rest =~= rest);
        },
        Option::Some(n) => {
            let es = opt_count_entry(k, o) + rest;
            assert(es.len() > 0 && es[0].0 == k && es[0].1 == JsonValue::Int(n as i64));
        },
    }
}

proof fn lemma_fields_absent(fields: Seq<(Seq<char>, Option<u32>)>, k: Seq<char>)
    requires
        forall|i: int| 0 <= i < fields.len() ==> (#[trigger] fields[i]).0 != k,
    ensures
        entry_lookup(opt_count_entries(fields), k) is None,
    decreases fields.len(),
{
    if fields.len() == 0 {
    } else {
        lemma_lookup_skip(fields[0].0, fields[0].1, opt_count_entries(fields.drop_first()), k);
        lemma_fields_absent(fields.drop_first(), k);
    }
}

proof fn lemma_fields_lookup(fields: Seq<(Seq<char>, Option<u32>)>, j: int)
    requires
        0 <= j < fields.len(),
        forall|i: int| 0 <= i < fields.len() && i != j ==> (#[trigger] fields[i]).0 != fields[j].0,
    ensures
        entry_lookup(opt_count_entries(fields), fields[j].0) == (match fields[j].1 {
            Option::Some(n) => Option::Some(JsonValue::Int(n as i64)),
            Option::None => Option::<JsonValue>::None,
        }),
    decreases fields.len(),
{
    let k = fields[j].0;
    if j == 0 {
        lemma_lookup_head(k, fields[0].1, opt_count_entries(fields.drop_first()));
        if fields[0].1 is None {
            let rest = fields.drop_first();
            assert(forall|i: int| 0 <= i < rest.len() ==> (#[trigger] rest[i]).0 != k);
            lemma_fields_absent(rest, k);
        }
    } else {
        lemma_lookup_skip(fields[0].0, fields[0].1, opt_count_entries(fields.drop_first()), k);
        let rest = fields.drop_first();
        assert(rest[j - 1] == fields[j]);
        assert(forall|i: int|
            0 <= i < rest.len() && i != j - 1 ==> (#[trigger] rest[i]).0 != rest[j - 1].0);
        lemma_fields_lookup(rest, j - 1);
    }
}

/// Encoding a statuses histogram with only some categories set and decoding
/// the result gives the same histogram back: set categories survive exactly,
/// absent ones stay absent.
pub proof fn lemma_statuses_round_trip(s: Statuses)
    ensures
        spec_decode_statuses(spec_encode_statuses(s)) == Result::Ok::<Statuses, ()>(s),
{
    reveal_strlit("enqueued");
    reveal_strlit("processing");
    reveal_strlit("succeeded");
    reveal_strlit("failed");
    reveal_strlit("canceled");
    let flds = statuses_fields(s);
    assert("enqueued"@[0] == 'e' && "processing"@[0] == 'p' && "succeeded"@[0] == 's'
        && "failed"@[0] == 'f' && "canceled"@[0] == 'c');
    assert(forall|i: int, j: int|
        0 <= i < flds.len() && 0 <= j < flds.len() && i != j ==> (#[trigger] flds[i]).0
            != (#[trigger] flds[j]).0);
    lemma_fields_lookup(flds, 0);
    lemma_fields_lookup(flds, 1);
    lemma_fields_lookup(flds, 2);
    lemma_fields_lookup(flds, 3);
    lemma_fields_lookup(flds, 4);
}

/// The wire names of the types histogram are pairwise distinct.
#[verifier::rlimit(100)]
proof fn lemma_types_keys_distinct(t: Types)
    ensures
        forall|i: int, j: int|
            0 <= i < types_fields(t).len() && 0 <= j < types_fields(t).len() && i != j ==> (
            #[trigger] types_fields(t)[i]).0 != (#[trigger] types_fields(t)[j]).0,
{
    reveal_strlit("indexCreation");
    reveal_strlit("indexUpdate");
    reveal_strlit("indexDeletion");
    reveal_strlit("indexSwap");
    reveal_strlit("documentAdditionOrUpdate");
    reveal_strlit("documentDeletion");
    reveal_strlit("settingsUpdate");
    reveal_strlit("dumpCreation");
    reveal_strlit("taskCancellation");
    reveal_strlit("taskDeletion");
    reveal_strlit("upgradeDatabase");
    reveal_strlit("documentEdition");
    reveal_strlit("snapshotCreation");
    assert(("indexCreation")@.len() == 13);
    assert(("indexUpdate")@.len() == 11);
    assert(("indexDeletion")@.len() == 13);
    assert(("indexSwap")@.len() == 9);
    assert(("documentAdditionOrUpdate")@.len() == 24);
    assert(("documentDeletion")@.len() == 16);
    assert(("settingsUpdate")@.len() == 14);
    assert(("dumpCreation")@.len() == 12);
    assert(("taskCancellation")@.len() == 16);
    assert(("taskDeletion")@.len() == 12);
    assert(("upgradeDatabase")@.len() == 15);
    assert(("documentEdition")@.len() == 15);
    assert(("snapshotCreation")@.len() == 16);
    assert(("indexCreation")@ != ("indexUpdate")@);
    assert(("indexCreation")@[5] == 'C');
    assert(("indexDeletion")@[5] == 'D');
    assert(("indexCreation")@ != ("indexDeletion")@);
    assert(("indexCreation")@ != ("indexSwap")@);
    assert(("indexCreation")@ != ("settingsUpdate")@);
    assert(("indexCreation")@ != ("taskCancellation")@);
    assert(("indexCreation")@ != ("taskDeletion")@);
    assert(("indexCreation")@ != ("upgradeDatabase")@);
    assert(("indexCreation")@ != ("snapshotCreation")@);
    assert(("indexUpdate")@ != ("settingsUpdate")@);
    assert(("indexUpdate")@ != ("taskCancellation")@);
    assert(("indexUpdate")@ != ("taskDeletion")@);
    assert(("indexUpdate")@ != ("upgradeDatabase")@);
    assert(("indexUpdate")@ != ("snapshotCreation")@);
    assert(("indexDeletion")@ != ("indexUpdate")@);
    assert(("indexDeletion")@ != ("indexSwap")@);
    assert(("indexDeletion")@ != ("settingsUpdate")@);
    assert(("indexDeletion")@ != ("taskCancellation")@);
    assert(("indexDeletion")@ != ("taskDeletion")@);
    assert(("indexDeletion")@ != ("upgradeDatabase")@);
    assert(("indexDeletion")@ != ("snapshotCreation")@);
    assert(("indexSwap")@ != ("indexUpdate")@);
    assert(("indexSwap")@ != ("settingsUpdate")@);
    assert(("indexSwap")@ != ("taskCancellation")@);
    assert(("indexSwap")@ != ("taskDeletion")@);
    assert(("indexSwap")@ != ("upgradeDatabase")@);
    assert(("indexSwap")@ != ("snapshotCreation")@);
    assert(("documentAdditionOrUpdate")@ != ("indexCreation")@);
    assert(("documentAdditionOrUpdate")@ != ("indexUpdate")@);
    assert(("documentAdditionOrUpdate")@ != ("indexDeletion")@);
    assert(("documentAdditionOrUpdate")@ != ("indexSwap")@);
    assert(("documentAdditionOrUpdate")@ != ("documentDeletion")@);
    assert(("documentAdditionOrUpdate")@ != ("settingsUpdate")@);
    assert(("documentAdditionOrUpdate")@ != ("dumpCreation")@);
    assert(("documentAdditionOrUpdate")@ != ("taskCancellation")@);
    assert(("documentAdditionOrUpdate")@ != ("taskDeletion")@);
    assert(("documentAdditionOrUpdate")@ != ("upgradeDatabase")@);
    assert(("documentAdditionOrUpdate")@ != ("documentEdition")@);
    assert(("documentAdditionOrUpdate")@ != ("snapshotCreation")@);
    assert(("documentDeletion")@ != ("indexCreation")@);
    assert(("documentDeletion")@ != ("indexUpdate")@);
    assert(("documentDeletion")@ != ("indexDeletion")@);
    assert(("documentDeletion")@ != ("indexSwap")@);
    assert(("documentDeletion")@ != ("settingsUpdate")@);
    assert(("documentDeletion")@ != ("dumpCreation")@);
    assert(("documentDeletion")@[0] == 'd');
    assert(("taskCancellation")@[0] == 't');
    assert(("documentDeletion")@ != ("taskCancellation")@);
    assert(("documentDeletion")@ != ("taskDeletion")@);
    assert(("documentDeletion")@ != ("upgradeDatabase")@);
    assert(("documentDeletion")@ != ("documentEdition")@);
    assert(("snapshotCreation")@[0] == 's');
    assert(("documentDeletion")@ != ("snapshotCreation")@);
    assert(("settingsUpdate")@ != ("taskCancellation")@);
    assert(("settingsUpdate")@ != ("taskDeletion")@);
    assert(("settingsUpdate")@ != ("upgradeDatabase")@);
    assert(("settingsUpdate")@ != ("snapshotCreation")@);
    assert(("dumpCreation")@ != ("indexCreation")@);
    assert(("dumpCreation")@ != ("indexUpdate")@);
    assert(("dumpCreation")@ != ("indexDeletion")@);
    assert(("dumpCreation")@ != ("indexSwap")@);
    assert(("dumpCreation")@ != ("settingsUpdate")@);
    assert(("dumpCreation")@ != ("taskCancellation")@);
    assert(("dumpCreation")@[0] == 'd');
    assert(("taskDeletion")@[0] == 't');
    assert(("dumpCreation")@ != ("taskDeletion")@);
    assert(("dumpCreation")@ != ("upgradeDatabase")@);
    assert(("dumpCreation")@ != ("snapshotCreation")@);
    assert(("taskCancellation")@ != ("taskDeletion")@);
    assert(("taskCancellation")@ != ("upgradeDatabase")@);
    assert(("taskDeletion")@ != ("upgradeDatabase")@);
    assert(("documentEdition")@ != ("indexCreation")@);
    assert(("documentEdition")@ != ("indexUpdate")@);
    assert(("documentEdition")@ != ("indexDeletion")@);
    assert(("documentEdition")@ != ("indexSwap")@);
    assert(("documentEdition")@ != ("settingsUpdate")@);
    assert(("documentEdition")@ != ("dumpCreation")@);
    assert(("documentEdition")@ != ("taskCancellation")@);
    assert(("documentEdition")@ != ("taskDeletion")@);
    assert(("documentEdition")@[0] == 'd');
    assert(("upgradeDatabase")@[0] == 'u');
    assert(("documentEdition")@ != ("upgradeDatabase")@);
    assert(("documentEdition")@ != ("snapshotCreation")@);
    assert(("snapshotCreation")@ != ("taskCancellation")@);
    assert(("snapshotCreation")@ != ("taskDeletion")@);
    assert(("snapshotCreation")@ != ("upgradeDatabase")@);
}

/// Each category of an encoded types histogram reads back as it was set.
#[verifier::rlimit(100)]
proof fn lemma_types_field_results(t: Types)
    ensures
        spec_field_u32(opt_count_entries(types_fields(t)), "indexCreation"@) == Result::Ok::<Option<u32>, ()>(t.index_creation),
        spec_field_u32(opt_count_entries(types_fields(t)), "indexUpdate"@) == Result::Ok::<Option<u32>, ()>(t.index_update),
        spec_field_u32(opt_count_entries(types_fields(t)), "indexDeletion"@) == Result::Ok::<Option<u32>, ()>(t.index_deletion),
        spec_field_u32(opt_count_entries(types_fields(t)), "indexSwap"@) == Result::Ok::<Option<u32>, ()>(t.index_swap),
        spec_field_u32(opt_count_entries(types_fields(t)), "documentAdditionOrUpdate"@) == Result::Ok::<Option<u32>, ()>(t.document_addition_or_update),
        spec_field_u32(opt_count_entries(types_fields(t)), "documentDeletion"@) == Result::Ok::<Option<u32>, ()>(t.document_deletion),
        spec_field_u32(opt_count_entries(types_fields(t)), "settingsUpdate"@) == Result::Ok::<Option<u32>, ()>(t.settings_update),
        spec_field_u32(opt_count_entries(types_fields(t)), "dumpCreation"@) == Result::Ok::<Option<u32>, ()>(t.dump_creation),
        spec_field_u32(opt_count_entries(types_fields(t)), "taskCancellation"@) == Result::Ok::<Option<u32>, ()>(t.task_cancellation),
        spec_field_u32(opt_count_entries(types_fields(t)), "taskDeletion"@) == Result::Ok::<Option<u32>, ()>(t.task_deletion),
        spec_field_u32(opt_count_entries(types_fields(t)), "upgradeDatabase"@) == Result::Ok::<Option<u32>, ()>(t.upgrade_database),
        spec_field_u32(opt_count_entries(types_fields(t)), "documentEdition"@) == Result::Ok::<Option<u32>, ()>(t.document_edition),
        spec_field_u32(opt_count_entries(types_fields(t)), "snapshotCreation"@) == Result::Ok::<Option<u32>, ()>(t.snapshot_creation),
{
    lemma_types_keys_distinct(t);
    lemma_fields_lookup(types_fields(t), 0);
    lemma_fields_lookup(types_fields(t), 1);
    lemma_fields_lookup(types_fields(t), 2);
    lemma_fields_lookup(types_fields(t), 3);
    lemma_fields_lookup(types_fields(t), 4);
    lemma_fields_lookup(types_fields(t), 5);
    lemma_fields_lookup(types_fields(t), 6);
    lemma_fields_lookup(types_fields(t), 7);
    lemma_fields_lookup(types_fields(t), 8);
    lemma_fields_lookup(types_fields(t), 9);
    lemma_fields_lookup(types_fields(t), 10);
    lemma_fields_lookup(types_fields(t), 11);
    lemma_fields_lookup(types_fields(t), 12);
}

/// Encoding a types histogram with only some categories set and decoding
/// the result gives the same histogram back.
#[verifier::rlimit(100)]
pub proof fn lemma_types_round_trip(t: Types)
    ensures
        spec_decode_types(spec_encode_types(t)) == Result::Ok::<Types, ()>(t),
{
    lemma_types_field_results(t);
}

} // verus!
