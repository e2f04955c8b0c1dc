//! The batch record types reported by the batches endpoints, their ghost
//! views, and the forward-compatible wire codec of the stopping strategy.
use crate::timefmt::Timestamp;
use vstd::prelude::*;

verus! {

/// Reason why the server's auto batcher stopped adding tasks to a batch.
/// Unrecognized wire values decode to `Unknown` rather than failing, so a
/// server may add strategies without breaking this client.
#[derive(Clone, Copy, Debug, PartialEq, Eq, Structural)]
#[non_exhaustive]
pub enum BatchStrategy {
    /// The batch reached its configured size threshold.
    SizeLimitReached,
    /// The batch reached its configured time window threshold.
    TimeLimitReached,
    /// Any wire value this client does not know.
    Unknown,
}

/// The strategy that a wire string denotes: each known string maps to its
/// variant, every other string to `Unknown`.
pub open spec fn spec_strategy_from_wire(s: Seq<char>) -> BatchStrategy {
    if s == "size_limit_reached"@ {
        BatchStrategy::SizeLimitReached
    } else if s == "time_limit_reached"@ {
        BatchStrategy::TimeLimitReached
    } else {
        BatchStrategy::Unknown
    }
}

/// The canonical wire string of a strategy.
pub open spec fn spec_strategy_wire(st: BatchStrategy) -> Seq<char> {
    match st {
        BatchStrategy::SizeLimitReached => "size_limit_reached"@,
        BatchStrategy::TimeLimitReached => "time_limit_reached"@,
        BatchStrategy::Unknown => "unknown"@,
    }
}

impl BatchStrategy {
    /// Decode a wire string; never fails, unknown strings give `Unknown`.
    pub fn from_wire(s: &str) -> (r: BatchStrategy)
        ensures
            r == spec_strategy_from_wire(s@),
    {
        if crate::text::str_eq(s, "size_limit_reached") {
            BatchStrategy::SizeLimitReached
        } else if crate::text::str_eq(s, "time_limit_reached") {
            BatchStrategy::TimeLimitReached
        } else {
            BatchStrategy::Unknown
        }
    }

    /// Encode a strategy to its canonical wire string.
    pub fn to_wire(&self) -> (r: String)
        ensures
            r@ == spec_strategy_wire(*self),
    {
        match self {
            BatchStrategy::SizeLimitReached => String::from_str("size_limit_reached"),
            BatchStrategy::TimeLimitReached => String::from_str("time_limit_reached"),
            BatchStrategy::Unknown => String::from_str("unknown"),
        }
    }
}

/// Decoding the canonical wire string of any strategy gives that strategy
/// back; in particular the known strings round-trip, and even the fallback
/// rendering of `Unknown` is not mistaken for a known variant.
pub proof fn lemma_strategy_wire_round_trip(st: BatchStrategy)
    ensures
        spec_strategy_from_wire(spec_strategy_wire(st)) == st,
{
    reveal_strlit("size_limit_reached");
    reveal_strlit("time_limit_reached");
    reveal_strlit("unknown");
    assert("size_limit_reached"@[0] == 's' && "time_limit_reached"@[0] == 't');
    assert("size_limit_reached"@ != "time_limit_reached"@);
    assert("unknown"@.len() == 7);
    assert("unknown"@ != "size_limit_reached"@ && "unknown"@ != "time_limit_reached"@);
}

/// Sparse histogram of task statuses inside a batch; an absent category
/// means unreported, not zero tasks with an error.
#[derive(Clone, Copy, Debug, PartialEq, Eq, Structural)]
pub struct Statuses {
    pub enqueued: Option<u32>,
    pub processing: Option<u32>,
    pub succeeded: Option<u32>,
    pub failed: Option<u32>,
    pub canceled: Option<u32>,
}

impl Default for Statuses {
    /// The empty histogram: every category absent.
    fn default() -> (r: Self)
        ensures
            r == (Statuses {
                enqueued: Option::<u32>::None,
                processing: Option::<u32>::None,
                succeeded: Option::<u32>::None,
                failed: Option::<u32>::None,
                canceled: Option::<u32>::None,
            }),
    {
        Statuses {
            enqueued: None,
            processing: None,
            succeeded: None,
            failed: None,
            canceled: None,
        }
    }
}

/// Sparse histogram of task types inside a batch.
#[derive(Clone, Copy, Debug, PartialEq, Eq, Structural)]
pub struct Types {
    pub index_creation: Option<u32>,
    pub index_update: Option<u32>,
    pub index_deletion: Option<u32>,
    pub index_swap: Option<u32>,
    pub document_addition_or_update: Option<u32>,
    pub document_deletion: Option<u32>,
    pub settings_update: Option<u32>,
    pub dump_creation: Option<u32>,
    pub task_cancellation: Option<u32>,
    pub task_deletion: Option<u32>,
    pub upgrade_database: Option<u32>,
    pub document_edition: Option<u32>,
    pub snapshot_creation: Option<u32>,
}

impl Default for Types {
    /// The empty histogram: every category absent.
    fn default() -> (r: Self)
        ensures
            r == (Types {
                index_creation: Option::<u32>::None,
                index_update: Option::<u32>::None,
                index_deletion: Option::<u32>::None,
                index_swap: Option::<u32>::None,
                document_addition_or_update: Option::<u32>::None,
                document_deletion: Option::<u32>::None,
                settings_update: Option::<u32>::None,
                dump_creation: Option::<u32>::None,
                task_cancellation: Option::<u32>::None,
                task_deletion: Option::<u32>::None,
                upgrade_database: Option::<u32>::None,
                document_edition: Option::<u32>::None,
                snapshot_creation: Option::<u32>::None,
            }),
    {
        Types {
            index_creation: None,
            index_update: None,
            index_deletion: None,
            index_swap: None,
            document_addition_or_update: None,
            document_deletion: None,
            settings_update: None,
            dump_creation: None,
            task_cancellation: None,
            task_deletion: None,
            upgrade_database: None,
            document_edition: None,
            snapshot_creation: None,
        }
    }
}

/// One named phase of a batch's progress.
#[derive(Clone, Debug)]
pub struct BatchProgressStep {
    pub current_step: String,
    pub finished: i32,
    pub total: i32,
}

/// Ghost view of one progress step.
pub ghost struct StepView {
    pub current_step: Seq<char>,
    pub finished: i32,
    pub total: i32,
}

impl View for BatchProgressStep {
    type V = StepView;

    open spec fn view(&self) -> StepView {
        StepView {
            current_step: self.current_step@,
            finished: self.finished,
            total: self.total,
        }
    }
}

/// Snapshot of a batch's in-flight completion state. The percentage is kept
/// as the number text the server sent, since it is not read locally.
#[derive(Clone, Debug)]
pub struct BatchProgress {
    pub steps: Vec<BatchProgressStep>,
    pub percentage: String,
}

/// Ghost view of a progress snapshot.
pub ghost struct ProgressView {
    pub steps: Seq<StepView>,
    pub percentage: Seq<char>,
}

impl View for BatchProgress {
    type V = ProgressView;

    open spec fn view(&self) -> ProgressView {
        ProgressView {
            steps: self.steps@.map_values(|s: BatchProgressStep| s@),
            percentage: self.percentage@,
        }
    }
}

/// Write-channel congestion counters of a batch. The blocking ratio is kept
/// as the number text the server sent.
#[derive(Clone, Debug)]
pub struct BatchWriteChannelCongestion {
    pub attempts: i32,
    pub blocking_attempts: i32,
    pub blocking_ratio: String,
}

/// Ghost view of the congestion counters.
pub ghost struct CongestionView {
    pub attempts: i32,
    pub blocking_attempts: i32,
    pub blocking_ratio: Seq<char>,
}

impl View for BatchWriteChannelCongestion {
    type V = CongestionView;

    open spec fn view(&self) -> CongestionView {
        CongestionView {
            attempts: self.attempts,
            blocking_attempts: self.blocking_attempts,
            blocking_ratio: self.blocking_ratio@,
        }
    }
}

/// Sizes of the server's internal databases, as reported per batch.
#[derive(Clone, Debug)]
pub struct BatchInternalDatabaseSizes {
    pub external_documents_id: String,
    pub word_docs_id: String,
    pub word_pair_proximity_ids: String,
    pub word_position_doc_ids: String,
    pub word_fid_doc_ids: String,
    pub field_id_word_count_doc_ids: String,
    pub documents: String,
}

/// Ghost view of the database size report.
pub ghost struct DbSizesView {
    pub external_documents_id: Seq<char>,
    pub word_docs_id: Seq<char>,
    pub word_pair_proximity_ids: Seq<char>,
    pub word_position_doc_ids: Seq<char>,
    pub word_fid_doc_ids: Seq<char>,
    pub field_id_word_count_doc_ids: Seq<char>,
    pub documents: Seq<char>,
}

impl View for BatchInternalDatabaseSizes {
    type V = DbSizesView;

    open spec fn view(&self) -> DbSizesView {
        DbSizesView {
            external_documents_id: self.external_documents_id@,
            word_docs_id: self.word_docs_id@,
            word_pair_proximity_ids: self.word_pair_proximity_ids@,
            word_position_doc_ids: self.word_position_doc_ids@,
            word_fid_doc_ids: self.word_fid_doc_ids@,
            field_id_word_count_doc_ids: self.field_id_word_count_doc_ids@,
            documents: self.documents@,
        }
    }
}

/// Aggregate counters of a batch.
#[derive(Clone, Debug)]
pub struct BatchStats {
    pub total_nb_tasks: i32,
    pub status: Statuses,
    pub types: Types,
    pub indexed_uids: Vec<(String, i32)>,
    pub progress_trace: Vec<(String, String)>,
    pub write_channel_congestion: BatchWriteChannelCongestion,
    pub internal_database_sizes: BatchInternalDatabaseSizes,
}

/// Ghost view of the aggregate counters.
pub ghost struct StatsView {
    pub total_nb_tasks: i32,
    pub status: Statuses,
    pub types: Types,
    pub indexed_uids: Seq<(Seq<char>, i32)>,
    pub progress_trace: Seq<(Seq<char>, Seq<char>)>,
    pub write_channel_congestion: CongestionView,
    pub internal_database_sizes: DbSizesView,
}

impl View for BatchStats {
    type V = StatsView;

    open spec fn view(&self) -> StatsView {
        StatsView {
            total_nb_tasks: self.total_nb_tasks,
            status: self.status,
            types: self.types,
            indexed_uids: self.indexed_uids@.map_values(|p: (String, i32)| (p.0@, p.1)),
            progress_trace: self.progress_trace@.map_values(
                |p: (String, String)| (p.0@, p.1@),
            ),
            write_channel_congestion: self.write_channel_congestion@,
            internal_database_sizes: self.internal_database_sizes@,
        }
    }
}

/// One server-side unit of asynchronous work grouping several tasks, as
/// reported by the batches endpoints.
#[derive(Clone, Debug)]
pub struct Batch {
    /// Unique identifier of the batch; immutable once fetched.
    pub uid: i64,
    /// Progress snapshot, present while the batch is processing.
    pub progress: Option<BatchProgress>,
    /// Aggregate counters, when the server reports them.
    pub stats: Option<BatchStats>,
    /// Total elapsed processing time, as the ISO 8601 text the server sent.
    pub duration: Option<String>,
    /// When the batch started processing.
    pub started_at: Option<Timestamp>,
    /// When the batch finished processing.
    pub finished_at: Option<Timestamp>,
    /// Why the auto batcher stopped adding tasks to this batch.
    pub batch_strategy: Option<BatchStrategy>,
}

/// Ghost view of a batch record.
pub ghost struct BatchView {
    pub uid: i64,
    pub progress: Option<ProgressView>,
    pub stats: Option<StatsView>,
    pub duration: Option<Seq<char>>,
    pub started_at: Option<i128>,
    pub finished_at: Option<i128>,
    pub batch_strategy: Option<BatchStrategy>,
}

impl View for Batch {
    type V = BatchView;

    open spec fn view(&self) -> BatchView {
        BatchView {
            uid: self.uid,
            progress: match self.progress {
                Option::Some(p) => Option::Some(p@),
                Option::None => Option::None,
            },
            stats: match self.stats {
                Option::Some(s) => Option::Some(s@),
                Option::None => Option::None,
            },
            duration: match self.duration {
                Option::Some(d) => Option::Some(d@),
                Option::None => Option::None,
            },
            started_at: match self.started_at {
                Option::Some(t) => Option::Some(t.unix_nanos),
                Option::None => Option::None,
            },
            finished_at: match self.finished_at {
                Option::Some(t) => Option::Some(t.unix_nanos),
                Option::None => Option::None,
            },
            batch_strategy: self.batch_strategy,
        }
    }
}

/// One page of results from the listing endpoint, with its pagination
/// cursors; an absent `next` marks the last page.
#[derive(Clone, Debug)]
pub struct BatchesResults {
    pub results: Vec<Batch>,
    pub total: u32,
    pub limit: u32,
    pub from: Option<u32>,
    pub next: Option<u32>,
}

/// Ghost view of a results page.
pub ghost struct ResultsView {
    pub results: Seq<BatchView>,
    pub total: u32,
    pub limit: u32,
    pub from: Option<u32>,
    pub next: Option<u32>,
}

impl View for BatchesResults {
    type V = ResultsView;

    open spec fn view(&self) -> ResultsView {
        ResultsView {
            results: self.results@.map_values(|b: Batch| b@),
            total: self.total,
            limit: self.limit,
            from: self.from,
            next: self.next,
        }
    }
}

impl BatchesResults {
    /// Whether this page is the last one: the server sent no `next` cursor.
    pub fn is_last_page(&self) -> (r: bool)
        ensures
            r == (self@.next is None),
    {
        self.next.is_none()
    }
}

} // verus!
