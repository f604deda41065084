//! The offline transaction queue: which queued transactions to upload, how long to wait
//! between attempts, how to read a failed upload, and the tally of a run over the queue.
//!
//! The store and the platform are reached by the caller; a run over a batch is a
//! [`QueueRun`], which says which row to upload next and, given how the upload went, what to
//! record against it.
use vstd::prelude::*;

use crate::dec::Dec;
use crate::models::operator::OperatorId;
use crate::models::transaction::Transaction;
use crate::text::{contains, contains_text, owned, to_unicode_lower, to_unicode_upper, unicode_lower, unicode_upper};
use crate::time::{instant_before, parse_rfc3339, rfc3339_instant, rfc3339_text, UtcInstant};

verus! {

/// Attempts after which a queued transaction is no longer retried.
pub const MAX_RETRY_COUNT: i32 = 10i32;

/// Transactions taken from the queue in one run.
pub const BATCH_SIZE: i32 = 50i32;

// ============================================================================
// Failure classification
// ============================================================================

/// How a failed upload is handled.
#[derive(Debug, Clone, Copy, PartialEq, Eq, Structural)]
pub enum SyncFailureType {
    /// A network error or timeout: retried with backoff.
    Transient,
    /// A duplicate or a clash with the server's records: a manager resolves it.
    Conflict,
    /// Invalid data: it will never succeed, so it is not retried.
    Permanent,
}

/// The class of a failure message, read in lower case: a conflict if it mentions `conflict`,
/// `already exists`, `duplicate` or `409`; else permanent if it mentions `invalid`,
/// `not found`, `400`, `validation failed` or `malformed`; else transient.
pub open spec fn classify_lower(msg: Seq<char>) -> SyncFailureType {
    if contains_text(msg, "conflict"@) || contains_text(msg, "already exists"@) || contains_text(
        msg,
        "duplicate"@,
    ) || contains_text(msg, "409"@) {
        SyncFailureType::Conflict
    } else if contains_text(msg, "invalid"@) || contains_text(msg, "not found"@) || contains_text(
        msg,
        "400"@,
    ) || contains_text(msg, "validation failed"@) || contains_text(msg, "malformed"@) {
        SyncFailureType::Permanent
    } else {
        SyncFailureType::Transient
    }
}

impl SyncFailureType {
    /// Classifies a failed upload by its error message, ignoring case.
    pub fn classify(error_message: &str) -> (t: SyncFailureType)
        ensures
            t == classify_lower(unicode_lower(error_message@)),
    {
        let lower = to_unicode_lower(error_message);
        let msg = lower.as_str();
        if contains(msg, "conflict") || contains(msg, "already exists") || contains(msg, "duplicate")
            || contains(msg, "409") {
            return SyncFailureType::Conflict;
        }
        if contains(msg, "invalid") || contains(msg, "not found") || contains(msg, "400")
            || contains(msg, "validation failed") || contains(msg, "malformed") {
            return SyncFailureType::Permanent;
        }
        SyncFailureType::Transient
    }
}

// ============================================================================
// SyncResult and QueueStats
// ============================================================================

/// The tally of a run over the queue.
#[derive(Debug, Clone, Copy, PartialEq, Eq, Structural)]
pub struct SyncResult {
    /// Uploaded.
    pub synced: u32,
    /// Failed, transiently or for good.
    pub failed: u32,
    /// Not attempted: out of retries or still backing off.
    pub skipped: u32,
    /// Clashed with the server's records.
    pub conflicts: u32,
}

impl Default for SyncResult {
    fn default() -> (r: SyncResult)
        ensures
            r.synced == 0 && r.failed == 0 && r.skipped == 0 && r.conflicts == 0,
    {
        SyncResult { synced: 0, failed: 0, skipped: 0, conflicts: 0 }
    }
}

impl SyncResult {
    /// Rows the tally accounts for, attempted or skipped.
    pub open spec fn seen(self) -> int {
        self.synced + self.failed + self.skipped + self.conflicts
    }

    /// Whether any upload was attempted.
    pub fn has_activity(&self) -> (b: bool)
        ensures
            b == (self.synced > 0 || self.failed > 0 || self.conflicts > 0),
    {
        self.synced > 0 || self.failed > 0 || self.conflicts > 0
    }

    /// Uploads attempted: synced, failed and conflicting, not skipped.
    pub fn total_attempted(&self) -> (n: u32)
        requires
            self.synced + self.failed + self.conflicts <= u32::MAX,
        ensures
            n == self.synced + self.failed + self.conflicts,
    {
        self.synced + self.failed + self.conflicts
    }

    /// Whether a manager has conflicts to resolve.
    pub fn has_conflicts(&self) -> (b: bool)
        ensures
            b == (self.conflicts > 0),
    {
        self.conflicts > 0
    }
}

/// Counts of the queue's rows.
#[derive(Debug, Clone, Copy, PartialEq, Eq, Structural)]
pub struct QueueStats {
    /// All rows.
    pub total: u32,
    /// Not yet synced.
    pub pending: u32,
    /// Synced.
    pub synced: u32,
    /// Out of retries.
    pub failed_permanently: u32,
}

impl Default for QueueStats {
    fn default() -> (s: QueueStats)
        ensures
            s.total == 0 && s.pending == 0 && s.synced == 0 && s.failed_permanently == 0,
    {
        QueueStats { total: 0, pending: 0, synced: 0, failed_permanently: 0 }
    }
}

// ============================================================================
// Queue rows and backoff
// ============================================================================

/// Where a queued transaction stands.
#[derive(Debug, Clone, Copy, PartialEq, Eq, Structural)]
pub enum SyncStatus {
    /// Waiting to be uploaded.
    Pending,
    /// Uploaded.
    Synced,
    /// An upload failed.
    Failed,
    /// Clashed with the server's records.
    Conflict,
}

impl SyncStatus {
    /// The spelling the queue stores.
    pub open spec fn wire(self) -> Seq<char> {
        match self {
            SyncStatus::Pending => "PENDING"@,
            SyncStatus::Synced => "SYNCED"@,
            SyncStatus::Failed => "FAILED"@,
            SyncStatus::Conflict => "CONFLICT"@,
        }
    }

    /// The spelling the queue stores.
    pub fn as_str(&self) -> (s: &'static str)
        ensures
            s@ == self.wire(),
    {
        match self {
            SyncStatus::Pending => "PENDING",
            SyncStatus::Synced => "SYNCED",
            SyncStatus::Failed => "FAILED",
            SyncStatus::Conflict => "CONFLICT",
        }
    }
}

/// A transaction in the offline queue, as the store holds it.
#[derive(Debug, Clone)]
pub struct OfflineTransactionRow {
    /// The queue's identifier for it.
    pub offline_id: String,
    /// The transaction's number.
    pub transaction_number: Option<String>,
    /// `SALE` or `RETURN`.
    pub transaction_type: String,
    /// The lines, as JSON.
    pub items_json: String,
    /// The payments, as JSON.
    pub payments_json: String,
    /// Before tax.
    pub subtotal: Dec,
    /// The tax.
    pub tax_total: Dec,
    /// The discounts.
    pub discount_total: Dec,
    /// What was owed.
    pub grand_total: Dec,
    /// The customer.
    pub customer_id: Option<String>,
    /// The customer's name.
    pub customer_name: Option<String>,
    /// The shift.
    pub shift_id: Option<String>,
    /// The operator.
    pub operator_id: Option<OperatorId>,
    /// The terminal.
    pub terminal_id: Option<String>,
    /// The receipt.
    pub receipt_number: Option<String>,
    /// A note.
    pub notes: Option<String>,
    /// When it was queued, RFC 3339.
    pub created_at: String,
    /// Its [`SyncStatus`] spelling.
    pub sync_status: String,
    /// The server's identifier once synced.
    pub server_id: Option<String>,
    /// Uploads attempted so far.
    pub retry_count: i32,
    /// The last failure's message.
    pub last_error: Option<String>,
    /// When the last upload was attempted, RFC 3339.
    pub last_retry_at: Option<String>,
    /// The catalogue's ETag when the transaction was made.
    pub catalog_etag: Option<String>,
}

/// `2^n`.
pub open spec fn pow2(n: nat) -> int
    decreases n,
{
    if n == 0 {
        1
    } else {
        2 * pow2((n - 1) as nat)
    }
}

/// The wait before the next attempt after `retry_count` attempts: a minute, doubling with
/// each attempt, at most an hour. A negative count gives no wait: its exponent, read as an
/// unsigned number, is past 63, and the doubling wraps round to zero.
pub open spec fn backoff_of(retry_count: int) -> int {
    if retry_count < 0 {
        0
    } else {
        backoff_of_attempts(retry_count)
    }
}

/// The wait after a non-negative number of attempts.
pub open spec fn backoff_of_attempts(retry_count: int) -> int {
    let doubled = 60 * pow2((if retry_count < 6 {
        retry_count
    } else {
        6
    }) as nat);
    if doubled < 3600 {
        doubled
    } else {
        3600
    }
}

/// Seconds to wait before the next attempt: 60 times `2^min(retry_count, 6)`, at most 3600;
/// zero for a negative count, whose power of two wraps round to zero.
pub fn calculate_backoff_seconds(retry_count: i32) -> (s: i64)
    ensures
        s == backoff_of(retry_count as int),
        retry_count >= 0 ==> 60 <= s <= 3600,
        retry_count < 0 ==> s == 0,
{
    if retry_count < 0 {
        return 0;
    }
    let n: u32 = if retry_count < 6 {
        retry_count as u32
    } else {
        6
    };
    let p: i64 = if n == 0 {
        1
    } else if n == 1 {
        2
    } else if n == 2 {
        4
    } else if n == 3 {
        8
    } else if n == 4 {
        16
    } else if n == 5 {
        32
    } else {
        64
    };
    proof {
        reveal_with_fuel(pow2, 7);
    }
    let doubled = 60 * p;
    if doubled < 3600 {
        doubled
    } else {
        3600
    }
}

/// Whether a queued transaction is due for another attempt at `now`: never once it has used
/// its retries; at once if it was never attempted or its last attempt's time does not parse;
/// otherwise once its backoff has passed since the last attempt.
pub open spec fn due_at(retry_count: int, last_retry_at: Option<Seq<char>>, now: UtcInstant) -> bool {
    if retry_count >= MAX_RETRY_COUNT {
        false
    } else {
        match last_retry_at {
            None => true,
            Some(t) => match rfc3339_instant(t) {
                None => true,
                Some(last) => {
                    let next = last.spec_secs() + backoff_of(retry_count);
                    next <= i64::MAX && !(now.spec_secs() < next || (now.spec_secs() == next
                        && now.spec_nanos() < last.spec_nanos()))
                },
            },
        }
    }
}

/// Whether the row is due for another attempt at `now`.
pub fn should_retry_at(row: &OfflineTransactionRow, now: UtcInstant) -> (b: bool)
    ensures
        b == due_at(
            row.retry_count as int,
            match row.last_retry_at {
                Some(t) => Some(t@),
                None => None,
            },
            now,
        ),
{
    if row.retry_count >= MAX_RETRY_COUNT {
        return false;
    }
    match &row.last_retry_at {
        None => true,
        Some(text) => match parse_rfc3339(text.as_str()) {
            None => true,
            Some(last) => {
                let backoff = calculate_backoff_seconds(row.retry_count);
                match last.plus_seconds(backoff) {
                    Some(next_allowed) => {
                        assert(next_allowed.spec_secs() == last.spec_secs() + backoff_of(
                            row.retry_count as int,
                        ));
                        !now.is_before(&next_allowed)
                    },
                    None => {
                        proof {
                            last.lemma_ranges();
                        }
                        false
                    },
                }
            },
        },
    }
}

/// Whether the row is due for another attempt now, by the machine's clock.
pub fn should_retry_now(row: &OfflineTransactionRow) -> (b: bool)
    ensures
        row.retry_count >= MAX_RETRY_COUNT ==> !b,
        row.retry_count < MAX_RETRY_COUNT && row.last_retry_at is None ==> b,
        row.retry_count < MAX_RETRY_COUNT && (row.last_retry_at matches Some(t) && rfc3339_instant(
            t@,
        ) is None) ==> b,
        exists|at: UtcInstant| rfc3339_text(at) is Some && b == due_at(
            row.retry_count as int,
            match row.last_retry_at {
                Some(t) => Some(t@),
                None => None,
            },
            at,
        ),
{
    let now = crate::time::now();
    let b = should_retry_at(row, now);
    assert(rfc3339_text(now) is Some);
    b
}

/// The queue row for a transaction, given its lines and payments already written as JSON,
/// the identifier the queue gives it and the time it was queued. The type is stored in
/// upper case; the row starts pending with no attempts.
pub fn build_offline_row(
    txn: &Transaction,
    offline_id: String,
    items_json: String,
    payments_json: String,
    created_at: String,
    catalog_etag: Option<String>,
) -> (row: OfflineTransactionRow)
    ensures
        row.offline_id == offline_id && row.items_json == items_json,
        row.payments_json == payments_json && row.created_at == created_at,
        row.catalog_etag == catalog_etag,
        row.transaction_number matches Some(n) && n@ == txn.transaction_number@,
        row.transaction_type@ == unicode_upper(txn.transaction_type@),
        row.subtotal == txn.subtotal && row.tax_total == txn.tax_total,
        row.discount_total == txn.discount_total && row.grand_total == txn.grand_total,
        row.customer_id == txn.customer_id && row.customer_name == txn.customer_name,
        row.shift_id matches Some(s) && s@ == txn.shift_id@,
        row.operator_id == Some(txn.operator_id),
        row.terminal_id matches Some(t) && t@ == txn.terminal_id@,
        row.receipt_number == txn.receipt_number && row.notes == txn.note,
        row.sync_status@ == SyncStatus::Pending.wire(),
        row.server_id is None && row.retry_count == 0,
        row.last_error is None && row.last_retry_at is None,
{
    OfflineTransactionRow {
        offline_id,
        transaction_number: Some(txn.transaction_number.clone()),
        transaction_type: to_unicode_upper(txn.transaction_type.as_str()),
        items_json,
        payments_json,
        subtotal: txn.subtotal,
        tax_total: txn.tax_total,
        discount_total: txn.discount_total,
        grand_total: txn.grand_total,
        customer_id: txn.customer_id.clone(),
        customer_name: txn.customer_name.clone(),
        shift_id: Some(txn.shift_id.clone()),
        operator_id: Some(txn.operator_id.clone()),
        terminal_id: Some(txn.terminal_id.clone()),
        receipt_number: txn.receipt_number.clone(),
        notes: txn.note.clone(),
        created_at,
        sync_status: owned(SyncStatus::Pending.as_str()),
        server_id: None,
        retry_count: 0,
        last_error: None,
        last_retry_at: None,
        catalog_etag,
    }
}


// ============================================================================
// A run over a batch
// ============================================================================

/// What a run asks of its caller next.
#[derive(Debug, Clone, Copy, PartialEq, Eq)]
pub enum QueueWork {
    /// Upload the row at this position of the batch, then report how it went.
    Upload(usize),
    /// Every row of the batch is accounted for.
    Finished(SyncResult),
}

/// What to record against a row once its upload has been tried.
#[derive(Debug, Clone, PartialEq, Eq)]
pub enum QueueAction {
    /// Mark the row synced under the server's identifier.
    MarkSynced {
        /// The row.
        offline_id: String,
        /// The server's identifier.
        server_id: String,
    },
    /// Mark the row as a conflict for a manager to resolve.
    MarkConflict {
        /// The row.
        offline_id: String,
        /// The server's message.
        error: String,
    },
    /// Use up the row's retries, then mark it failed: it will never succeed.
    MarkPermanentlyFailed {
        /// The row.
        offline_id: String,
        /// The server's message.
        error: String,
    },
    /// Mark the row failed; it is retried after its backoff.
    MarkFailed {
        /// The row.
        offline_id: String,
        /// The server's message.
        error: String,
    },
}

/// The action a row's upload outcome calls for: the server's identifier marks it synced; a
/// failure is recorded by its class.
pub open spec fn action_for(offline_id: Seq<char>, outcome: Result<Seq<char>, Seq<char>>) -> (
    int,
    Seq<char>,
    Seq<char>,
) {
    match outcome {
        Ok(server_id) => (0, offline_id, server_id),
        Err(msg) => match classify_lower(unicode_lower(msg)) {
            SyncFailureType::Conflict => (1, offline_id, msg),
            SyncFailureType::Permanent => (2, offline_id, msg),
            SyncFailureType::Transient => (3, offline_id, msg),
        },
    }
}

/// An upload's outcome decides its row's action by its class, and only by it: a server
/// identifier marks the row synced under that identifier; an error that reads as a clash with
/// the server's records marks a conflict, one that reads as a refusal for good a permanent
/// failure, and any other a failure to retry. The row and the message are carried as they are.
pub proof fn lemma_upload_outcome_classes(offline_id: Seq<char>, outcome: Result<Seq<char>, Seq<char>>)
    ensures
        outcome is Ok ==> action_for(offline_id, outcome) == (0int, offline_id, outcome->Ok_0),
        outcome is Err && classify_lower(unicode_lower(outcome->Err_0)) == SyncFailureType::Conflict
            ==> action_for(offline_id, outcome) == (1int, offline_id, outcome->Err_0),
        outcome is Err && classify_lower(unicode_lower(outcome->Err_0)) == SyncFailureType::Permanent
            ==> action_for(offline_id, outcome) == (2int, offline_id, outcome->Err_0),
        outcome is Err && classify_lower(unicode_lower(outcome->Err_0)) == SyncFailureType::Transient
            ==> action_for(offline_id, outcome) == (3int, offline_id, outcome->Err_0),
        action_for(offline_id, outcome).0 == 1 <==> (outcome is Err && classify_lower(
            unicode_lower(outcome->Err_0),
        ) == SyncFailureType::Conflict),
{
}

impl QueueAction {
    /// The action's kind (`0` synced, `1` conflict, `2` permanent failure, `3` failure), the
    /// row, and the server's identifier or message.
    pub open spec fn parts(self) -> (int, Seq<char>, Seq<char>) {
        match self {
            QueueAction::MarkSynced { offline_id, server_id } => (0, offline_id@, server_id@),
            QueueAction::MarkConflict { offline_id, error } => (1, offline_id@, error@),
            QueueAction::MarkPermanentlyFailed { offline_id, error } => (2, offline_id@, error@),
            QueueAction::MarkFailed { offline_id, error } => (3, offline_id@, error@),
        }
    }
}

/// The kind under which a skipped row is recorded; uploaded rows are recorded under their
/// action's kind (`0` synced, `1` conflict, `2` permanent failure, `3` failure).
pub open spec fn skipped_kind() -> int {
    4
}

/// How many of the recorded outcomes are of this kind.
pub open spec fn tally_of(outcomes: Seq<int>, kind: int) -> nat
    decreases outcomes.len(),
{
    if outcomes.len() == 0 {
        0
    } else {
        tally_of(outcomes.drop_last(), kind) + if outcomes.last() == kind {
            1nat
        } else {
            0nat
        }
    }
}

/// The tally agrees with the recorded outcomes, and only rows with retries left were
/// uploaded.
pub open spec fn tally_matches(
    tally: SyncResult,
    outcomes: Seq<int>,
    rows: Seq<OfflineTransactionRow>,
) -> bool {
    &&& tally.synced == tally_of(outcomes, 0)
    &&& tally.conflicts == tally_of(outcomes, 1)
    &&& tally.failed == tally_of(outcomes, 2) + tally_of(outcomes, 3)
    &&& tally.skipped == tally_of(outcomes, skipped_kind())
    &&& outcomes.len() <= rows.len()
    &&& forall|k: int| 0 <= k < outcomes.len() ==> 0 <= #[trigger] outcomes[k] <= skipped_kind()
    &&& forall|k: int| 0 <= k < outcomes.len() && outcomes[k] != skipped_kind() ==> #[trigger] rows[k].retry_count
        < MAX_RETRY_COUNT
}

proof fn lemma_tally_push(outcomes: Seq<int>, x: int, kind: int)
    ensures
        tally_of(outcomes.push(x), kind) == tally_of(outcomes, kind) + if x == kind {
            1nat
        } else {
            0nat
        },
{
    assert(outcomes.push(x).drop_last() =~= outcomes);
}

/// A run over one batch of the queue. Every row of the batch ends up counted exactly once:
/// skipped, synced, failed or in conflict.
pub struct QueueRun {
    rows: Vec<OfflineTransactionRow>,
    progress: Progress,
}

/// How far a run has got.
#[derive(Clone, Copy)]
struct Progress {
    position: usize,
    uploading: bool,
    tally: SyncResult,
    outcomes: Ghost<Seq<int>>,
}

impl QueueRun {
    #[verifier::type_invariant]
    spec fn consistent(self) -> bool {
        &&& self.progress.position <= self.rows@.len()
        &&& self.rows@.len() < u32::MAX
        &&& self.progress.tally.seen() == self.progress.position
        &&& self.progress.uploading ==> self.progress.position < self.rows@.len()
        &&& self.progress.outcomes@.len() == self.progress.position
        &&& self.progress.uploading ==> self.rows@[self.progress.position as int].retry_count
            < MAX_RETRY_COUNT
        &&& tally_matches(self.progress.tally, self.progress.outcomes@, self.rows@)
    }

    /// The batch.
    pub closed spec fn spec_rows(self) -> Seq<OfflineTransactionRow> {
        self.rows@
    }

    /// How many rows are accounted for.
    pub closed spec fn spec_position(self) -> nat {
        self.progress.position as nat
    }

    /// Whether an upload has been asked for and not yet reported.
    pub closed spec fn spec_uploading(self) -> bool {
        self.progress.uploading
    }

    /// The tally so far.
    pub closed spec fn spec_tally(self) -> SyncResult {
        self.progress.tally
    }

    /// The outcome recorded for each row accounted for, in order: its action's kind, or
    /// `skipped_kind()`.
    pub closed spec fn spec_outcomes(self) -> Seq<int> {
        self.progress.outcomes@
    }

    /// Starts a run over a batch taken from the queue. An offline terminal has nothing to
    /// upload, so its run is over at once.
    pub fn begin(online: bool, rows: Vec<OfflineTransactionRow>) -> (run: QueueRun)
        requires
            rows@.len() < u32::MAX,
        ensures
            online ==> run.spec_rows() == rows@,
            !online ==> run.spec_rows().len() == 0,
            run.spec_position() == 0,
            !run.spec_uploading(),
            run.spec_tally() == SyncResult::default_spec(),
            run.spec_outcomes().len() == 0,
    {
        let rows = if online {
            rows
        } else {
            Vec::new()
        };
        QueueRun {
            rows,
            progress: Progress {
                position: 0,
                uploading: false,
                tally: SyncResult::default(),
                outcomes: Ghost(Seq::empty()),
            },
        }
    }

    /// Skips every row that is not due at `now`, counting it, and asks for the next upload;
    /// or reports the tally once every row is accounted for.
    pub fn next_work(&mut self, now: UtcInstant) -> (w: QueueWork)
        requires
            !old(self).spec_uploading(),
        ensures
            final(self).spec_rows() == old(self).spec_rows(),
            final(self).spec_position() >= old(self).spec_position(),
            final(self).spec_tally().synced == old(self).spec_tally().synced,
            final(self).spec_tally().failed == old(self).spec_tally().failed,
            final(self).spec_tally().conflicts == old(self).spec_tally().conflicts,
            final(self).spec_outcomes().len() == final(self).spec_position(),
            final(self).spec_outcomes().subrange(0, old(self).spec_position() as int) == old(
                self,
            ).spec_outcomes(),
            forall|k: int| old(self).spec_position() <= k < final(self).spec_position()
                ==> #[trigger] final(self).spec_outcomes()[k] == skipped_kind(),
            forall|k: int| old(self).spec_position() <= k < final(self).spec_position() ==> !due_at(
                #[trigger] old(self).spec_rows()[k].retry_count as int,
                match old(self).spec_rows()[k].last_retry_at {
                    Some(t) => Some(t@),
                    None => None,
                },
                now,
            ),
            w matches QueueWork::Upload(k) ==> k == final(self).spec_position() && k
                < final(self).spec_rows().len() && final(self).spec_uploading() && due_at(
                final(self).spec_rows()[k as int].retry_count as int,
                match final(self).spec_rows()[k as int].last_retry_at {
                    Some(t) => Some(t@),
                    None => None,
                },
                now,
            ),
            w matches QueueWork::Finished(r) ==> r == final(self).spec_tally()
                && final(self).spec_position() == final(self).spec_rows().len() && r.seen()
                == final(self).spec_rows().len() && !final(self).spec_uploading()
                && final(self).spec_outcomes().len() == final(self).spec_rows().len()
                && tally_matches(r, final(self).spec_outcomes(), final(self).spec_rows()),
    {
        proof {
            use_type_invariant(&*self);
        }
        let ghost start = self.progress.position;
        let mut position = self.progress.position;
        let mut tally = self.progress.tally;
        let ghost mut outcomes = self.progress.outcomes@;
        assert(outcomes.subrange(0, start as int) =~= outcomes);
        while position < self.rows.len()
            invariant
                start <= position <= self.rows@.len(),
                outcomes.len() == position,
                outcomes.subrange(0, start as int) == old(self).progress.outcomes@,
                old(self).progress.outcomes@.len() == start,
                forall|k: int| start <= k < position ==> #[trigger] outcomes[k] == skipped_kind(),
                tally_matches(tally, outcomes, self.rows@),
                self.rows@.len() < u32::MAX,
                tally.seen() == position,
                tally.synced == old(self).progress.tally.synced,
                tally.failed == old(self).progress.tally.failed,
                tally.conflicts == old(self).progress.tally.conflicts,
                start == old(self).progress.position,
                self.rows@ == old(self).rows@,
                forall|k: int| start <= k < position ==> !due_at(
                    #[trigger] self.rows@[k].retry_count as int,
                    match self.rows@[k].last_retry_at {
                        Some(t) => Some(t@),
                        None => None,
                    },
                    now,
                ),
            ensures
                position < self.rows@.len() ==> due_at(
                    self.rows@[position as int].retry_count as int,
                    match self.rows@[position as int].last_retry_at {
                        Some(t) => Some(t@),
                        None => None,
                    },
                    now,
                ),
            decreases self.rows@.len() - position,
        {
            let due = should_retry_at(&self.rows[position], now);
            if due {
                break;
            }
            proof {
                lemma_tally_push(outcomes, skipped_kind(), 0);
                lemma_tally_push(outcomes, skipped_kind(), 1);
                lemma_tally_push(outcomes, skipped_kind(), 2);
                lemma_tally_push(outcomes, skipped_kind(), 3);
                lemma_tally_push(outcomes, skipped_kind(), skipped_kind());
                assert(outcomes.push(skipped_kind()).subrange(0, start as int) =~= outcomes.subrange(
                    0,
                    start as int,
                ));
                outcomes = outcomes.push(skipped_kind());
            }
            tally.skipped = tally.skipped + 1;
            position = position + 1;
        }
        if position < self.rows.len() {
            self.progress = Progress { position, uploading: true, tally, outcomes: Ghost(outcomes) };
            QueueWork::Upload(position)
        } else {
            self.progress = Progress { position, uploading: false, tally, outcomes: Ghost(outcomes) };
            QueueWork::Finished(tally)
        }
    }

    /// The row an upload was asked for.
    pub fn row(&self, k: usize) -> (r: &OfflineTransactionRow)
        requires
            k < self.spec_rows().len(),
        ensures
            *r == self.spec_rows()[k as int],
    {
        &self.rows[k]
    }

    /// Records how the requested upload went: the server's identifier, or its error message.
    /// The row is counted once, by the class of its outcome, and the action to record against
    /// it is returned.
    pub fn settle(&mut self, outcome: Result<String, String>) -> (a: QueueAction)
        requires
            old(self).spec_uploading(),
        ensures
            final(self).spec_rows() == old(self).spec_rows(),
            final(self).spec_position() == old(self).spec_position() + 1,
            !final(self).spec_uploading(),
            final(self).spec_outcomes() == old(self).spec_outcomes().push(a.parts().0),
            outcome is Ok ==> a is MarkSynced && a->MarkSynced_offline_id@ == old(self).spec_rows()[old(self).spec_position() as int].offline_id@
                && a->MarkSynced_server_id == outcome->Ok_0 && final(self).spec_tally().synced
                == old(self).spec_tally().synced + 1 && final(self).spec_tally().failed == old(self).spec_tally().failed && final(self).spec_tally().skipped == old(self).spec_tally().skipped && final(self).spec_tally().conflicts == old(self).spec_tally().conflicts,
            outcome is Err && classify_lower(unicode_lower(outcome->Err_0@)) == SyncFailureType::Conflict
                ==> a is MarkConflict && a->MarkConflict_offline_id@ == old(self).spec_rows()[old(self).spec_position() as int].offline_id@
                && a->MarkConflict_error == outcome->Err_0 && final(self).spec_tally().conflicts
                == old(self).spec_tally().conflicts + 1 && final(self).spec_tally().failed == old(self).spec_tally().failed && final(self).spec_tally().skipped == old(self).spec_tally().skipped && final(self).spec_tally().synced == old(self).spec_tally().synced,
            outcome is Err && classify_lower(unicode_lower(outcome->Err_0@)) == SyncFailureType::Permanent
                ==> a is MarkPermanentlyFailed && a->MarkPermanentlyFailed_offline_id@ == old(self).spec_rows()[old(self).spec_position() as int].offline_id@
                && a->MarkPermanentlyFailed_error == outcome->Err_0 && final(self).spec_tally().failed
                == old(self).spec_tally().failed + 1 && final(self).spec_tally().conflicts == old(self).spec_tally().conflicts && final(self).spec_tally().skipped == old(self).spec_tally().skipped && final(self).spec_tally().synced == old(self).spec_tally().synced,
            outcome is Err && classify_lower(unicode_lower(outcome->Err_0@)) == SyncFailureType::Transient
                ==> a is MarkFailed && a->MarkFailed_offline_id@ == old(self).spec_rows()[old(self).spec_position() as int].offline_id@
                && a->MarkFailed_error == outcome->Err_0 && final(self).spec_tally().failed
                == old(self).spec_tally().failed + 1 && final(self).spec_tally().conflicts == old(self).spec_tally().conflicts && final(self).spec_tally().skipped == old(self).spec_tally().skipped && final(self).spec_tally().synced == old(self).spec_tally().synced,
            a.parts() == action_for(
                old(self).spec_rows()[old(self).spec_position() as int].offline_id@,
                match outcome {
                    Ok(s) => Ok(s@),
                    Err(e) => Err(e@),
                },
            ),
            a.parts().0 == 0 ==> final(self).spec_tally().synced == old(self).spec_tally().synced + 1
                && final(self).spec_tally().failed == old(self).spec_tally().failed
                && final(self).spec_tally().skipped == old(self).spec_tally().skipped
                && final(self).spec_tally().conflicts == old(self).spec_tally().conflicts,
            a.parts().0 == 1 ==> final(self).spec_tally().conflicts == old(self).spec_tally().conflicts + 1
                && final(self).spec_tally().synced == old(self).spec_tally().synced
                && final(self).spec_tally().failed == old(self).spec_tally().failed
                && final(self).spec_tally().skipped == old(self).spec_tally().skipped,
            a.parts().0 >= 2 ==> final(self).spec_tally().failed == old(self).spec_tally().failed + 1
                && final(self).spec_tally().synced == old(self).spec_tally().synced
                && final(self).spec_tally().skipped == old(self).spec_tally().skipped
                && final(self).spec_tally().conflicts == old(self).spec_tally().conflicts,
    {
        proof {
            use_type_invariant(&*self);
        }
        let position = self.progress.position;
        let mut tally = self.progress.tally;
        let offline_id = self.rows[position].offline_id.clone();
        let action = match outcome {
            Ok(server_id) => {
                tally.synced = tally.synced + 1;
                QueueAction::MarkSynced { offline_id, server_id }
            },
            Err(error) => match SyncFailureType::classify(error.as_str()) {
                SyncFailureType::Conflict => {
                    tally.conflicts = tally.conflicts + 1;
                    QueueAction::MarkConflict { offline_id, error }
                },
                SyncFailureType::Permanent => {
                    tally.failed = tally.failed + 1;
                    QueueAction::MarkPermanentlyFailed { offline_id, error }
                },
                SyncFailureType::Transient => {
                    tally.failed = tally.failed + 1;
                    QueueAction::MarkFailed { offline_id, error }
                },
            },
        };
        proof {
            let kind = action.parts().0;
            lemma_tally_push(self.progress.outcomes@, kind, 0);
            lemma_tally_push(self.progress.outcomes@, kind, 1);
            lemma_tally_push(self.progress.outcomes@, kind, 2);
            lemma_tally_push(self.progress.outcomes@, kind, 3);
            lemma_tally_push(self.progress.outcomes@, kind, skipped_kind());
            let next = self.progress.outcomes@.push(kind);
            assert(0 <= kind < skipped_kind());
            assert forall|k: int| 0 <= k < next.len() && next[k] != skipped_kind() implies #[trigger] self.rows@[k].retry_count
                < MAX_RETRY_COUNT by {
                if k < position {
                    assert(next[k] == self.progress.outcomes@[k]);
                }
            }
            assert(tally_matches(tally, next, self.rows@));
        }
        self.progress = Progress {
            position: position + 1,
            uploading: false,
            tally,
            outcomes: Ghost(self.progress.outcomes@.push(action.parts().0)),
        };
        action
    }
}

impl SyncResult {
    /// The empty tally.
    pub open spec fn default_spec() -> SyncResult {
        SyncResult { synced: 0, failed: 0, skipped: 0, conflicts: 0 }
    }
}

} // verus!
