//! The query builder for listing batches: filters and pagination controls,
//! and their serialization into request parameters. The contract gives the
//! exact parameter sequence: a field left unset or empty contributes no
//! parameter, and `reverse` is always sent.
use crate::text::dec_rep;
use crate::text::i64_texts;
use crate::text::join_i64_list;
use crate::text::join_str_list;
use crate::text::join_texts;
use crate::text::str_views;
use crate::text::u32_dec_string;
use crate::timefmt::Timestamp;
use crate::timefmt::format_rfc3339;
use crate::timefmt::rfc3339_text_of;
use vstd::prelude::*;

verus! {

/// Ghost view of the builder: plain sequences and options.
#[verifier::ext_equal]
pub ghost struct QueryView {
    pub uids: Seq<i64>,
    pub batch_uids: Seq<i64>,
    pub index_uids: Seq<Seq<char>>,
    pub statuses: Seq<Seq<char>>,
    pub types: Seq<Seq<char>>,
    pub limit: Option<u32>,
    pub from: Option<u32>,
    pub reverse: bool,
    pub before_enqueued_at: Option<i128>,
    pub before_started_at: Option<i128>,
    pub before_finished_at: Option<i128>,
    pub after_enqueued_at: Option<i128>,
    pub after_started_at: Option<i128>,
    pub after_finished_at: Option<i128>,
}

/// Query builder for listing batches: all filters start empty and
/// `reverse` starts false; setters chain by value.
#[derive(Clone, Debug)]
pub struct BatchesQuery {
    /// Select batches containing the tasks with these uids.
    pub uids: Vec<i64>,
    /// Filter batches by their own uid.
    pub batch_uids: Vec<i64>,
    /// Select batches containing tasks affecting these indexes.
    pub index_uids: Vec<String>,
    /// Select batches containing tasks with these statuses.
    pub statuses: Vec<String>,
    /// Select batches containing tasks with these types.
    pub types: Vec<String>,
    /// Maximum number of batches to return.
    pub limit: Option<u32>,
    /// The first batch uid that should be returned.
    pub from: Option<u32>,
    /// If true, returns results in reverse chronological order.
    pub reverse: bool,
    /// Select batches containing tasks enqueued before this instant.
    pub before_enqueued_at: Option<Timestamp>,
    /// Select batches containing tasks started before this instant.
    pub before_started_at: Option<Timestamp>,
    /// Select batches containing tasks finished before this instant.
    pub before_finished_at: Option<Timestamp>,
    /// Select batches containing tasks enqueued after this instant.
    pub after_enqueued_at: Option<Timestamp>,
    /// Select batches containing tasks started after this instant.
    pub after_started_at: Option<Timestamp>,
    /// Select batches containing tasks finished after this instant.
    pub after_finished_at: Option<Timestamp>,
}

pub open spec fn opt_nanos(o: Option<Timestamp>) -> Option<i128> {
    match o {
        Option::Some(t) => Option::Some(t.unix_nanos),
        Option::None => Option::None,
    }
}

impl View for BatchesQuery {
    type V = QueryView;

    open spec fn view(&self) -> QueryView {
        QueryView {
            uids: self.uids@,
            batch_uids: self.batch_uids@,
            index_uids: str_views(self.index_uids@),
            statuses: str_views(self.statuses@),
            types: str_views(self.types@),
            limit: self.limit,
            from: self.from,
            reverse: self.reverse,
            before_enqueued_at: opt_nanos(self.before_enqueued_at),
            before_started_at: opt_nanos(self.before_started_at),
            before_finished_at: opt_nanos(self.before_finished_at),
            after_enqueued_at: opt_nanos(self.after_enqueued_at),
            after_started_at: opt_nanos(self.after_started_at),
            after_finished_at: opt_nanos(self.after_finished_at),
        }
    }
}

/// The view of an empty builder.
pub open spec fn empty_query() -> QueryView {
    QueryView {
        uids: Seq::empty(),
        batch_uids: Seq::empty(),
        index_uids: Seq::empty(),
        statuses: Seq::empty(),
        types: Seq::empty(),
        limit: Option::None,
        from: Option::None,
        reverse: false,
        before_enqueued_at: Option::None,
        before_started_at: Option::None,
        before_finished_at: Option::None,
        after_enqueued_at: Option::None,
        after_started_at: Option::None,
        after_finished_at: Option::None,
    }
}

impl BatchesQuery {
    /// A builder with every filter empty or absent and `reverse` false.
    pub fn new() -> (r: BatchesQuery)
        ensures
            r@ == empty_query(),
    {
        let r = BatchesQuery {
            uids: Vec::new(),
            batch_uids: Vec::new(),
            index_uids: Vec::new(),
            statuses: Vec::new(),
            types: Vec::new(),
            limit: None,
            from: None,
            reverse: false,
            before_enqueued_at: None,
            before_started_at: None,
            before_finished_at: None,
            after_enqueued_at: None,
            after_started_at: None,
            after_finished_at: None,
        };
        proof {
            assert(r@ =~= empty_query());
        }
        r
    }

    /// Set the task uid filter.
    pub fn with_uids(self, uids: Vec<i64>) -> (r: Self)
        ensures
            r@ == (QueryView { uids: uids@, ..self@ }),
    {
        BatchesQuery { uids, ..self }
    }

    /// Set the batch uid filter.
    pub fn with_batch_uids(self, batch_uids: Vec<i64>) -> (r: Self)
        ensures
            r@ == (QueryView { batch_uids: batch_uids@, ..self@ }),
    {
        BatchesQuery { batch_uids, ..self }
    }

    /// Set the index uid filter.
    pub fn with_index_uids(self, index_uids: Vec<String>) -> (r: Self)
        ensures
            r@ == (QueryView { index_uids: str_views(index_uids@), ..self@ }),
    {
        BatchesQuery { index_uids, ..self }
    }

    /// Set the status filter.
    pub fn with_statuses(self, statuses: Vec<String>) -> (r: Self)
        ensures
            r@ == (QueryView { statuses: str_views(statuses@), ..self@ }),
    {
        BatchesQuery { statuses, ..self }
    }

    /// Set the type filter.
    pub fn with_types(self, types: Vec<String>) -> (r: Self)
        ensures
            r@ == (QueryView { types: str_views(types@), ..self@ }),
    {
        BatchesQuery { types, ..self }
    }

    /// Set the page size limit.
    pub fn with_limit(self, limit: u32) -> (r: Self)
        ensures
            r@ == (QueryView { limit: Option::Some(limit), ..self@ }),
    {
        BatchesQuery { limit: Some(limit), ..self }
    }

    /// Set the pagination cursor.
    pub fn with_from(self, from: u32) -> (r: Self)
        ensures
            r@ == (QueryView { from: Option::Some(from), ..self@ }),
    {
        BatchesQuery { from: Some(from), ..self }
    }

    /// Set the ordering flag.
    pub fn with_reverse(self, reverse: bool) -> (r: Self)
        ensures
            r@ == (QueryView { reverse, ..self@ }),
    {
        BatchesQuery { reverse, ..self }
    }

    /// Bound the enqueue instant from above.
    pub fn with_before_enqueued_at(self, t: Timestamp) -> (r: Self)
        ensures
            r@ == (QueryView { before_enqueued_at: Option::Some(t.unix_nanos), ..self@ }),
    {
        BatchesQuery { before_enqueued_at: Some(t), ..self }
    }

    /// Bound the start instant from above.
    pub fn with_before_started_at(self, t: Timestamp) -> (r: Self)
        ensures
            r@ == (QueryView { before_started_at: Option::Some(t.unix_nanos), ..self@ }),
    {
        BatchesQuery { before_started_at: Some(t), ..self }
    }

    /// Bound the finish instant from above.
    pub fn with_before_finished_at(self, t: Timestamp) -> (r: Self)
        ensures
            r@ == (QueryView { before_finished_at: Option::Some(t.unix_nanos), ..self@ }),
    {
        BatchesQuery { before_finished_at: Some(t), ..self }
    }

    /// Bound the enqueue instant from below.
    pub fn with_after_enqueued_at(self, t: Timestamp) -> (r: Self)
        ensures
            r@ == (QueryView { after_enqueued_at: Option::Some(t.unix_nanos), ..self@ }),
    {
        BatchesQuery { after_enqueued_at: Some(t), ..self }
    }

    /// Bound the start instant from below.
    pub fn with_after_started_at(self, t: Timestamp) -> (r: Self)
        ensures
            r@ == (QueryView { after_started_at: Option::Some(t.unix_nanos), ..self@ }),
    {
        BatchesQuery { after_started_at: Some(t), ..self }
    }

    /// Bound the finish instant from below.
    pub fn with_after_finished_at(self, t: Timestamp) -> (r: Self)
        ensures
            r@ == (QueryView { after_finished_at: Option::Some(t.unix_nanos), ..self@ }),
    {
        BatchesQuery { after_finished_at: Some(t), ..self }
    }
}

impl Default for BatchesQuery {
    /// Same as `new`: every filter empty, `reverse` false.
    fn default() -> (r: Self)
        ensures
            r@ == empty_query(),
    {
        BatchesQuery::new()
    }
}

// ---------------------------------------------------------------------------
// Serialization into request parameters.
// ---------------------------------------------------------------------------
/// The parameter an identifier list contributes: nothing when empty, else
/// one comma-joined pair.
pub open spec fn id_list_param(key: Seq<char>, v: Seq<i64>) -> Seq<(Seq<char>, Seq<char>)> {
    if v.len() == 0 {
        Seq::empty()
    } else {
        seq![(key, join_texts(i64_texts(v)))]
    }
}

/// The parameter a name list contributes: nothing when empty, else one
/// comma-joined pair.
pub open spec fn name_list_param(key: Seq<char>, v: Seq<Seq<char>>) -> Seq<(Seq<char>, Seq<char>)> {
    if v.len() == 0 {
        Seq::empty()
    } else {
        seq![(key, join_texts(v))]
    }
}

/// The parameter an optional count contributes.
pub open spec fn count_param(key: Seq<char>, o: Option<u32>) -> Seq<(Seq<char>, Seq<char>)> {
    match o {
        Option::None => Seq::empty(),
        Option::Some(n) => seq![(key, dec_rep(n as int))],
    }
}

/// The parameter an optional timestamp bound contributes: its RFC 3339
/// text when the instant is set and renderable, nothing otherwise.
pub open spec fn time_param(key: Seq<char>, o: Option<i128>) -> Seq<(Seq<char>, Seq<char>)> {
    match o {
        Option::None => Seq::empty(),
        Option::Some(n) => match rfc3339_text_of(n) {
            Option::Some(t) => seq![(key, t)],
            Option::None => Seq::empty(),
        },
    }
}

/// The wire text of the ordering flag.
pub open spec fn bool_text(b: bool) -> Seq<char> {
    if b {
        "true"@
    } else {
        "false"@
    }
}

/// The exact parameter sequence a builder serializes to, in field order.
pub open spec fn spec_query_params(q: QueryView) -> Seq<(Seq<char>, Seq<char>)> {
    id_list_param("uids"@, q.uids) + id_list_param("batchUids"@, q.batch_uids) + name_list_param(
        "indexUids"@,
        q.index_uids,
    ) + name_list_param("statuses"@, q.statuses) + name_list_param("types"@, q.types)
        + count_param("limit"@, q.limit) + count_param("from"@, q.from) + seq![
        ("reverse"@, bool_text(q.reverse)),
    ] + time_param("beforeEnqueuedAt"@, q.before_enqueued_at) + time_param(
        "beforeStartedAt"@,
        q.before_started_at,
    ) + time_param("beforeFinishedAt"@, q.before_finished_at) + time_param(
        "afterEnqueuedAt"@,
        q.after_enqueued_at,
    ) + time_param("afterStartedAt"@, q.after_started_at) + time_param(
        "afterFinishedAt"@,
        q.after_finished_at,
    )
}

/// Parameter pairs abstracted to character sequences.
pub open spec fn pair_views(ps: Seq<(String, String)>) -> Seq<(Seq<char>, Seq<char>)> {
    ps.map_values(|p: (String, String)| (p.0@, p.1@))
}

fn push_id_list_param(out: &mut Vec<(String, String)>, key: &str, v: &Vec<i64>)
    ensures
        pair_views(final(out)@) == pair_views(old(out)@) + id_list_param(key@, v@),
{
    if v.len() > 0 {
        let joined = join_i64_list(v);
        out.push((key.to_owned(), joined));
        proof {
            assert(pair_views(out@) =~= pair_views(old(out)@) + id_list_param(key@, v@));
        }
    } else {
        proof {
            assert(pair_views(out@) =~= pair_views(old(out)@) + id_list_param(key@, v@));
        }
    }
}

fn push_name_list_param(out: &mut Vec<(String, String)>, key: &str, v: &Vec<String>)
    ensures
        pair_views(final(out)@) == pair_views(old(out)@) + name_list_param(key@, str_views(v@)),
{
    if v.len() > 0 {
        let joined = join_str_list(v);
        out.push((key.to_owned(), joined));
        proof {
            assert(pair_views(out@) =~= pair_views(old(out)@) + name_list_param(
                key@,
                str_views(v@),
            ));
        }
    } else {
        proof {
            assert(pair_views(out@) =~= pair_views(old(out)@) + name_list_param(
                key@,
                str_views(v@),
            ));
        }
    }
}

fn push_count_param(out: &mut Vec<(String, String)>, key: &str, o: Option<u32>)
    ensures
        pair_views(final(out)@) == pair_views(old(out)@) + count_param(key@, o),
{
    match o {
        Option::Some(n) => {
            out.push((key.to_owned(), u32_dec_string(n)));
            proof {
                assert(pair_views(out@) =~= pair_views(old(out)@) + count_param(key@, o));
            }
        },
        Option::None => {
            proof {
                assert(pair_views(out@) =~= pair_views(old(out)@) + count_param(key@, o));
            }
        },
    }
}

fn push_time_param(out: &mut Vec<(String, String)>, key: &str, o: Option<Timestamp>)
    ensures
        pair_views(final(out)@) == pair_views(old(out)@) + time_param(key@, opt_nanos(o)),
{
    match o {
        Option::Some(t) => {
            match format_rfc3339(t.unix_nanos) {
                Option::Some(text) => {
                    out.push((key.to_owned(), text));
                    proof {
                        assert(pair_views(out@) =~= pair_views(old(out)@) + time_param(
                            key@,
                            opt_nanos(o),
                        ));
                    }
                },
                Option::None => {
                    proof {
                        assert(pair_views(out@) =~= pair_views(old(out)@) + time_param(
                            key@,
                            opt_nanos(o),
                        ));
                    }
                },
            }
        },
        Option::None => {
            proof {
                assert(pair_views(out@) =~= pair_views(old(out)@) + time_param(key@, opt_nanos(o)));
            }
        },
    }
}

fn push_bool_param(out: &mut Vec<(String, String)>, key: &str, b: bool)
    ensures
        pair_views(final(out)@) == pair_views(old(out)@) + seq![(key@, bool_text(b))],
{
    let text = if b {
        String::from_str("true")
    } else {
        String::from_str("false")
    };
    out.push((key.to_owned(), text));
    proof {
        assert(pair_views(out@) =~= pair_views(old(out)@) + seq![(key@, bool_text(b))]);
    }
}

impl BatchesQuery {
    /// Serialize the builder into its request parameters: exactly the set
    /// fields in declaration order, `reverse` always included.
    pub fn to_query_params(&self) -> (r: Vec<(String, String)>)
        ensures
            pair_views(r@) == spec_query_params(self@),
    {
        let mut out: Vec<(String, String)> = Vec::new();
        proof {
            assert(pair_views(out@) =~= Seq::<(Seq<char>, Seq<char>)>::empty());
        }
        push_id_list_param(&mut out, "uids", &self.uids);
        proof {
            assert(pair_views(out@) =~= id_list_param("uids"@, self@.uids));
        }
        push_id_list_param(&mut out, "batchUids", &self.batch_uids);
        push_name_list_param(&mut out, "indexUids", &self.index_uids);
        push_name_list_param(&mut out, "statuses", &self.statuses);
        push_name_list_param(&mut out, "types", &self.types);
        push_count_param(&mut out, "limit", self.limit);
        push_count_param(&mut out, "from", self.from);
        push_bool_param(&mut out, "reverse", self.reverse);
        push_time_param(&mut out, "beforeEnqueuedAt", self.before_enqueued_at);
        push_time_param(&mut out, "beforeStartedAt", self.before_started_at);
        push_time_param(&mut out, "beforeFinishedAt", self.before_finished_at);
        push_time_param(&mut out, "afterEnqueuedAt", self.after_enqueued_at);
        push_time_param(&mut out, "afterStartedAt", self.after_started_at);
        push_time_param(&mut out, "afterFinishedAt", self.after_finished_at);
        out
    }
}

// ---------------------------------------------------------------------------
// Which parameter keys a builder sends.
// ---------------------------------------------------------------------------
/// Whether some parameter in the sequence carries the given key.
pub open spec fn key_present(ps: Seq<(Seq<char>, Seq<char>)>, k: Seq<char>) -> bool {
    exists|i: int| 0 <= i < ps.len() && (#[trigger] ps[i]).0 == k
}

proof fn lemma_key_concat(a: Seq<(Seq<char>, Seq<char>)>, b: Seq<(Seq<char>, Seq<char>)>, k: Seq<char>)
    ensures
        key_present(a + b, k) == (key_present(a, k) || key_present(b, k)),
{
    if key_present(a, k) {
        let i = choose|i: int| 0 <= i < a.len() && (#[trigger] a[i]).0 == k;
        assert((a + b)[i].0 == k);
    }
    if key_present(b, k) {
        let i = choose|i: int| 0 <= i < b.len() && (#[trigger] b[i]).0 == k;
        assert((a + b)[a.len() + i].0 == k);
    }
    if key_present(a + b, k) {
        let i = choose|i: int| 0 <= i < (a + b).len() && (#[trigger] (a + b)[i]).0 == k;
        if i < a.len() {
            assert(a[i].0 == k);
        } else {
            assert(b[i - a.len()].0 == k);
        }
    }
}

proof fn lemma_kp_single(p: (Seq<char>, Seq<char>), k: Seq<char>)
    ensures
        key_present(seq![p], k) == (p.0 == k),
{
    if p.0 == k {
        assert(seq![p][0].0 == k);
    }
}

proof fn lemma_kp_id_list(key: Seq<char>, v: Seq<i64>, k: Seq<char>)
    ensures
        key_present(id_list_param(key, v), k) == (v.len() > 0 && key == k),
{
    if v.len() > 0 {
        lemma_kp_single((key, join_texts(i64_texts(v))), k);
    }
}

proof fn lemma_kp_name_list(key: Seq<char>, v: Seq<Seq<char>>, k: Seq<char>)
    ensures
        key_present(name_list_param(key, v), k) == (v.len() > 0 && key == k),
{
    if v.len() > 0 {
        lemma_kp_single((key, join_texts(v)), k);
    }
}

proof fn lemma_kp_count(key: Seq<char>, o: Option<u32>, k: Seq<char>)
    ensures
        key_present(count_param(key, o), k) == (o is Some && key == k),
{
    match o {
        Option::Some(n) => {
            lemma_kp_single((key, dec_rep(n as int)), k);
        },
        Option::None => {
        },
    }
}

proof fn lemma_kp_time(key: Seq<char>, o: Option<i128>, k: Seq<char>)
    ensures
        key_present(time_param(key, o), k) == (o matches Option::Some(n) && rfc3339_text_of(n)
            is Some && key == k),
{
    match o {
        Option::Some(n) => {
            match rfc3339_text_of(n) {
                Option::Some(t) => {
                    lemma_kp_single((key, t), k);
                },
                Option::None => {
                },
            }
        },
        Option::None => {
        },
    }
}

/// Exactly which keys a builder's parameter set carries: each filter key is
/// present precisely when its field is set (a timestamp also renderable),
/// and `reverse` is always present. A field left unset or empty therefore
/// contributes nothing to the serialized parameters.
#[verifier::rlimit(100)]
pub proof fn lemma_param_keys(q: QueryView, k: Seq<char>)
    ensures
        key_present(spec_query_params(q), k) == ((q.uids.len() > 0 && k == "uids"@)
            || (q.batch_uids.len() > 0 && k == "batchUids"@)
            || (q.index_uids.len() > 0 && k == "indexUids"@)
            || (q.statuses.len() > 0 && k == "statuses"@)
            || (q.types.len() > 0 && k == "types"@)
            || (q.limit is Some && k == "limit"@)
            || (q.from is Some && k == "from"@)
            || (k == "reverse"@)
            || (q.before_enqueued_at matches Option::Some(n) && rfc3339_text_of(n) is Some && k == "beforeEnqueuedAt"@)
            || (q.before_started_at matches Option::Some(n) && rfc3339_text_of(n) is Some && k == "beforeStartedAt"@)
            || (q.before_finished_at matches Option::Some(n) && rfc3339_text_of(n) is Some && k == "beforeFinishedAt"@)
            || (q.after_enqueued_at matches Option::Some(n) && rfc3339_text_of(n) is Some && k == "afterEnqueuedAt"@)
            || (q.after_started_at matches Option::Some(n) && rfc3339_text_of(n) is Some && k == "afterStartedAt"@)
            || (q.after_finished_at matches Option::Some(n) && rfc3339_text_of(n) is Some && k == "afterFinishedAt"@)),
{
    let s1 = id_list_param("uids"@, q.uids);
    let s2 = id_list_param("batchUids"@, q.batch_uids);
    let s3 = name_list_param("indexUids"@, q.index_uids);
    let s4 = name_list_param("statuses"@, q.statuses);
    let s5 = name_list_param("types"@, q.types);
    let s6 = count_param("limit"@, q.limit);
    let s7 = count_param("from"@, q.from);
    let s8 = seq![("reverse"@, bool_text(q.reverse))];
    let s9 = time_param("beforeEnqueuedAt"@, q.before_enqueued_at);
    let s10 = time_param("beforeStartedAt"@, q.before_started_at);
    let s11 = time_param("beforeFinishedAt"@, q.before_finished_at);
    let s12 = time_param("afterEnqueuedAt"@, q.after_enqueued_at);
    let s13 = time_param("afterStartedAt"@, q.after_started_at);
    let s14 = time_param("afterFinishedAt"@, q.after_finished_at);
    lemma_key_concat(s1, s2, k);
    lemma_key_concat((s1 + s2), s3, k);
    lemma_key_concat(((s1 + s2) + s3), s4, k);
    lemma_key_concat((((s1 + s2) + s3) + s4), s5, k);
    lemma_key_concat(((((s1 + s2) + s3) + s4) + s5), s6, k);
    lemma_key_concat((((((s1 + s2) + s3) + s4) + s5) + s6), s7, k);
    lemma_key_concat(((((((s1 + s2) + s3) + s4) + s5) + s6) + s7), s8, k);
    lemma_key_concat((((((((s1 + s2) + s3) + s4) + s5) + s6) + s7) + s8), s9, k);
    lemma_key_concat(((((((((s1 + s2) + s3) + s4) + s5) + s6) + s7) + s8) + s9), s10, k);
    lemma_key_concat((((((((((s1 + s2) + s3) + s4) + s5) + s6) + s7) + s8) + s9) + s10), s11, k);
    lemma_key_concat(((((((((((s1 + s2) + s3) + s4) + s5) + s6) + s7) + s8) + s9) + s10) + s11), s12, k);
    lemma_key_concat((((((((((((s1 + s2) + s3) + s4) + s5) + s6) + s7) + s8) + s9) + s10) + s11) + s12), s13, k);
    lemma_key_concat(((((((((((((s1 + s2) + s3) + s4) + s5) + s6) + s7) + s8) + s9) + s10) + s11) + s12) + s13), s14, k);
    lemma_kp_id_list("uids"@, q.uids, k);
    lemma_kp_id_list("batchUids"@, q.batch_uids, k);
    lemma_kp_name_list("indexUids"@, q.index_uids, k);
    lemma_kp_name_list("statuses"@, q.statuses, k);
    lemma_kp_name_list("types"@, q.types, k);
    lemma_kp_count("limit"@, q.limit, k);
    lemma_kp_count("from"@, q.from, k);
    lemma_kp_single(("reverse"@, bool_text(q.reverse)), k);
    lemma_kp_time("beforeEnqueuedAt"@, q.before_enqueued_at, k);
    lemma_kp_time("beforeStartedAt"@, q.before_started_at, k);
    lemma_kp_time("beforeFinishedAt"@, q.before_finished_at, k);
    lemma_kp_time("afterEnqueuedAt"@, q.after_enqueued_at, k);
    lemma_kp_time("afterStartedAt"@, q.after_started_at, k);
    lemma_kp_time("afterFinishedAt"@, q.after_finished_at, k);
}

/// The default builder serializes to the single parameter `reverse=false`.
pub proof fn lemma_default_query_params()
    ensures
        spec_query_params(empty_query()) == seq![("reverse"@, bool_text(false))],
{
    assert(spec_query_params(empty_query()) =~= seq![("reverse"@, bool_text(false))]);
}

/// Each filter key appears in the serialized parameters exactly when its
/// field is set (for a timestamp bound, also renderable), and `reverse` is
/// always sent: a field left unset or empty is absent from the wire.
#[verifier::rlimit(100)]
pub proof fn lemma_unset_fields_absent(q: QueryView)
    ensures
        key_present(spec_query_params(q), "uids"@) == (q.uids.len() > 0),
        key_present(spec_query_params(q), "batchUids"@) == (q.batch_uids.len() > 0),
        key_present(spec_query_params(q), "indexUids"@) == (q.index_uids.len() > 0),
        key_present(spec_query_params(q), "statuses"@) == (q.statuses.len() > 0),
        key_present(spec_query_params(q), "types"@) == (q.types.len() > 0),
        key_present(spec_query_params(q), "limit"@) == (q.limit is Some),
        key_present(spec_query_params(q), "from"@) == (q.from is Some),
        key_present(spec_query_params(q), "reverse"@),
        key_present(spec_query_params(q), "beforeEnqueuedAt"@) == (q.before_enqueued_at matches Option::Some(n) && rfc3339_text_of(n) is Some),
        key_present(spec_query_params(q), "beforeStartedAt"@) == (q.before_started_at matches Option::Some(n) && rfc3339_text_of(n) is Some),
        key_present(spec_query_params(q), "beforeFinishedAt"@) == (q.before_finished_at matches Option::Some(n) && rfc3339_text_of(n) is Some),
        key_present(spec_query_params(q), "afterEnqueuedAt"@) == (q.after_enqueued_at matches Option::Some(n) && rfc3339_text_of(n) is Some),
        key_present(spec_query_params(q), "afterStartedAt"@) == (q.after_started_at matches Option::Some(n) && rfc3339_text_of(n) is Some),
        key_present(spec_query_params(q), "afterFinishedAt"@) == (q.after_finished_at matches Option::Some(n) && rfc3339_text_of(n) is Some),
{
    reveal_strlit("uids");
    reveal_strlit("batchUids");
    reveal_strlit("indexUids");
    reveal_strlit("statuses");
    reveal_strlit("types");
    reveal_strlit("limit");
    reveal_strlit("from");
    reveal_strlit("reverse");
    reveal_strlit("beforeEnqueuedAt");
    reveal_strlit("beforeStartedAt");
    reveal_strlit("beforeFinishedAt");
    reveal_strlit("afterEnqueuedAt");
    reveal_strlit("afterStartedAt");
    reveal_strlit("afterFinishedAt");
    assert(("uids")@.len() == 4);
    assert(("batchUids")@.len() == 9);
    assert(("indexUids")@.len() == 9);
    assert(("statuses")@.len() == 8);
    assert(("types")@.len() == 5);
    assert(("limit")@.len() == 5);
    assert(("from")@.len() == 4);
    assert(("reverse")@.len() == 7);
    assert(("beforeEnqueuedAt")@.len() == 16);
    assert(("beforeStartedAt")@.len() == 15);
    assert(("beforeFinishedAt")@.len() == 16);
    assert(("afterEnqueuedAt")@.len() == 15);
    assert(("afterStartedAt")@.len() == 14);
    assert(("afterFinishedAt")@.len() == 15);
    assert(("batchUids")@ != ("uids")@);
    assert(("batchUids")@[0] == 'b');
    assert(("indexUids")@[0] == 'i');
    assert(("batchUids")@ != ("indexUids")@);
    assert(("batchUids")@ != ("statuses")@);
    assert(("batchUids")@ != ("types")@);
    assert(("batchUids")@ != ("limit")@);
    assert(("batchUids")@ != ("from")@);
    assert(("batchUids")@ != ("reverse")@);
    assert(("batchUids")@ != ("beforeEnqueuedAt")@);
    assert(("batchUids")@ != ("beforeStartedAt")@);
    assert(("batchUids")@ != ("beforeFinishedAt")@);
    assert(("indexUids")@ != ("uids")@);
    assert(("indexUids")@ != ("statuses")@);
    assert(("indexUids")@ != ("types")@);
    assert(("indexUids")@ != ("limit")@);
    assert(("indexUids")@ != ("reverse")@);
    assert(("statuses")@ != ("uids")@);
    assert(("statuses")@ != ("types")@);
    assert(("types")@ != ("uids")@);
    assert(("limit")@ != ("uids")@);
    assert(("limit")@ != ("statuses")@);
    assert(("limit")@[0] == 'l');
    assert(("types")@[0] == 't');
    assert(("limit")@ != ("types")@);
    assert(("limit")@ != ("reverse")@);
    assert(("from")@[0] == 'f');
    assert(("uids")@[0] == 'u');
    assert(("from")@ != ("uids")@);
    assert(("from")@ != ("indexUids")@);
    assert(("from")@ != ("statuses")@);
    assert(("from")@ != ("types")@);
    assert(("from")@ != ("limit")@);
    assert(("from")@ != ("reverse")@);
    assert(("reverse")@ != ("uids")@);
    assert(("reverse")@ != ("statuses")@);
    assert(("reverse")@ != ("types")@);
    assert(("beforeEnqueuedAt")@ != ("uids")@);
    assert(("beforeEnqueuedAt")@ != ("indexUids")@);
    assert(("beforeEnqueuedAt")@ != ("statuses")@);
    assert(("beforeEnqueuedAt")@ != ("types")@);
    assert(("beforeEnqueuedAt")@ != ("limit")@);
    assert(("beforeEnqueuedAt")@ != ("from")@);
    assert(("beforeEnqueuedAt")@ != ("reverse")@);
    assert(("beforeEnqueuedAt")@ != ("beforeStartedAt")@);
    assert(("beforeEnqueuedAt")@[6] == 'E');
    assert(("beforeFinishedAt")@[6] == 'F');
    assert(("beforeEnqueuedAt")@ != ("beforeFinishedAt")@);
    assert(("beforeStartedAt")@ != ("uids")@);
    assert(("beforeStartedAt")@ != ("indexUids")@);
    assert(("beforeStartedAt")@ != ("statuses")@);
    assert(("beforeStartedAt")@ != ("types")@);
    assert(("beforeStartedAt")@ != ("limit")@);
    assert(("beforeStartedAt")@ != ("from")@);
    assert(("beforeStartedAt")@ != ("reverse")@);
    assert(("beforeFinishedAt")@ != ("uids")@);
    assert(("beforeFinishedAt")@ != ("indexUids")@);
    assert(("beforeFinishedAt")@ != ("statuses")@);
    assert(("beforeFinishedAt")@ != ("types")@);
    assert(("beforeFinishedAt")@ != ("limit")@);
    assert(("beforeFinishedAt")@ != ("from")@);
    assert(("beforeFinishedAt")@ != ("reverse")@);
    assert(("beforeFinishedAt")@ != ("beforeStartedAt")@);
    assert(("afterEnqueuedAt")@ != ("uids")@);
    assert(("afterEnqueuedAt")@ != ("batchUids")@);
    assert(("afterEnqueuedAt")@ != ("indexUids")@);
    assert(("afterEnqueuedAt")@ != ("statuses")@);
    assert(("afterEnqueuedAt")@ != ("types")@);
    assert(("afterEnqueuedAt")@ != ("limit")@);
    assert(("afterEnqueuedAt")@ != ("from")@);
    assert(("afterEnqueuedAt")@ != ("reverse")@);
    assert(("afterEnqueuedAt")@ != ("beforeEnqueuedAt")@);
    assert(("afterEnqueuedAt")@[0] == 'a');
    assert(("beforeStartedAt")@[0] == 'b');
    assert(("afterEnqueuedAt")@ != ("beforeStartedAt")@);
    assert(("afterEnqueuedAt")@ != ("beforeFinishedAt")@);
    assert(("afterEnqueuedAt")@ != ("afterStartedAt")@);
    assert(("afterEnqueuedAt")@[5] == 'E');
    assert(("afterFinishedAt")@[5] == 'F');
    assert(("afterEnqueuedAt")@ != ("afterFinishedAt")@);
    assert(("afterStartedAt")@ != ("uids")@);
    assert(("afterStartedAt")@ != ("batchUids")@);
    assert(("afterStartedAt")@ != ("indexUids")@);
    assert(("afterStartedAt")@ != ("statuses")@);
    assert(("afterStartedAt")@ != ("types")@);
    assert(("afterStartedAt")@ != ("limit")@);
    assert(("afterStartedAt")@ != ("from")@);
    assert(("afterStartedAt")@ != ("reverse")@);
    assert(("afterStartedAt")@ != ("beforeEnqueuedAt")@);
    assert(("afterStartedAt")@ != ("beforeStartedAt")@);
    assert(("afterStartedAt")@ != ("beforeFinishedAt")@);
    assert(("afterFinishedAt")@ != ("uids")@);
    assert(("afterFinishedAt")@ != ("batchUids")@);
    assert(("afterFinishedAt")@ != ("indexUids")@);
    assert(("afterFinishedAt")@ != ("statuses")@);
    assert(("afterFinishedAt")@ != ("types")@);
    assert(("afterFinishedAt")@ != ("limit")@);
    assert(("afterFinishedAt")@ != ("from")@);
    assert(("afterFinishedAt")@ != ("reverse")@);
    assert(("afterFinishedAt")@ != ("beforeEnqueuedAt")@);
    assert(("afterFinishedAt")@[0] == 'a');
    assert(("afterFinishedAt")@ != ("beforeStartedAt")@);
    assert(("afterFinishedAt")@ != ("beforeFinishedAt")@);
    assert(("afterFinishedAt")@ != ("afterStartedAt")@);
    lemma_param_keys(q, "uids"@);
    lemma_param_keys(q, "batchUids"@);
    lemma_param_keys(q, "indexUids"@);
    lemma_param_keys(q, "statuses"@);
    lemma_param_keys(q, "types"@);
    lemma_param_keys(q, "limit"@);
    lemma_param_keys(q, "from"@);
    lemma_param_keys(q, "reverse"@);
    lemma_param_keys(q, "beforeEnqueuedAt"@);
    lemma_param_keys(q, "beforeStartedAt"@);
    lemma_param_keys(q, "beforeFinishedAt"@);
    lemma_param_keys(q, "afterEnqueuedAt"@);
    lemma_param_keys(q, "afterStartedAt"@);
    lemma_param_keys(q, "afterFinishedAt"@);
}

} // verus!
