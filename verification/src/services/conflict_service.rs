//! Resolving queued transactions the server refused as conflicts: which rows are conflicts,
//! how each is summarised for a manager, and what retrying, discarding or forcing one
//! reports.
use vstd::prelude::*;

use crate::dec::Dec;
use crate::models::operator::OperatorId;
use crate::services::offline_service::OfflineTransactionRow;
use crate::text::{append_str, owned, str_eq};

verus! {

/// Why a conflict could not be resolved.
#[derive(Debug, Clone, PartialEq, Eq)]
pub enum ConflictError {
    /// No queued transaction has this identifier.
    NotFound(String),
    /// The transaction is not in conflict.
    NotConflict(String),
    /// The store failed, or a stored column could not be read.
    DatabaseError(String),
    /// The platform refused or could not be reached.
    ApiError(String),
    /// A manager must authorise this.
    AuthorizationRequired,
}

impl ConflictError {
    /// The sentence this error says.
    pub fn message(&self) -> (s: String)
        ensures
            self matches ConflictError::NotFound(id) ==> s@ == "Transaction not found: "@ + id@,
            self matches ConflictError::NotConflict(id) ==> s@
                == "Transaction is not in conflict state: "@ + id@,
            self matches ConflictError::DatabaseError(m) ==> s@ == "Database error: "@ + m@,
            self matches ConflictError::ApiError(m) ==> s@ == "API error: "@ + m@,
            self is AuthorizationRequired ==> s@ == "Manager authorization required"@,
    {
        let (head, tail) = match self {
            ConflictError::NotFound(id) => ("Transaction not found: ", id.as_str()),
            ConflictError::NotConflict(id) => ("Transaction is not in conflict state: ", id.as_str()),
            ConflictError::DatabaseError(m) => ("Database error: ", m.as_str()),
            ConflictError::ApiError(m) => ("API error: ", m.as_str()),
            ConflictError::AuthorizationRequired => ("Manager authorization required", ""),
        };
        let mut s = owned(head);
        append_str(&mut s, tail);
        proof {
            reveal_strlit("");
        }
        s
    }
}

/// A conflicting transaction as a manager reviews it.
#[derive(Debug, Clone)]
pub struct ConflictSummary {
    /// The queue's identifier.
    pub offline_id: String,
    /// The transaction's number, or `N/A`.
    pub transaction_number: String,
    /// Its type.
    pub transaction_type: String,
    /// What was owed.
    pub grand_total: Dec,
    /// When it was queued.
    pub created_at: String,
    /// The server's message, or `Unknown error`.
    pub error_message: String,
    /// Uploads attempted.
    pub retry_count: i32,
    /// The operator.
    pub operator_id: Option<OperatorId>,
    /// The receipt.
    pub receipt_number: Option<String>,
}

/// `c` summarises `row`: a missing number reads `N/A` and a missing error `Unknown error`.
pub open spec fn summarises(c: ConflictSummary, row: OfflineTransactionRow) -> bool {
    &&& c.offline_id == row.offline_id
    &&& (row.transaction_number matches Some(n) ==> c.transaction_number == n)
    &&& (row.transaction_number is None ==> c.transaction_number@ == "N/A"@)
    &&& c.transaction_type == row.transaction_type && c.grand_total == row.grand_total
    &&& c.created_at == row.created_at
    &&& (row.last_error matches Some(e) ==> c.error_message == e)
    &&& (row.last_error is None ==> c.error_message@ == "Unknown error"@)
    &&& c.retry_count == row.retry_count && c.operator_id == row.operator_id
    &&& c.receipt_number == row.receipt_number
}

impl ConflictSummary {
    /// The summary of a queued row: a missing number reads `N/A` and a missing error
    /// `Unknown error`.
    pub fn from_row(row: &OfflineTransactionRow) -> (c: ConflictSummary)
        ensures
            c.offline_id == row.offline_id,
            row.transaction_number matches Some(n) ==> c.transaction_number == n,
            row.transaction_number is None ==> c.transaction_number@ == "N/A"@,
            c.transaction_type == row.transaction_type && c.grand_total == row.grand_total,
            c.created_at == row.created_at,
            row.last_error matches Some(e) ==> c.error_message == e,
            row.last_error is None ==> c.error_message@ == "Unknown error"@,
            c.retry_count == row.retry_count && c.operator_id == row.operator_id,
            c.receipt_number == row.receipt_number,
    {
        ConflictSummary {
            offline_id: row.offline_id.clone(),
            transaction_number: match &row.transaction_number {
                Some(n) => n.clone(),
                None => owned("N/A"),
            },
            transaction_type: row.transaction_type.clone(),
            grand_total: row.grand_total,
            created_at: row.created_at.clone(),
            error_message: match &row.last_error {
                Some(e) => e.clone(),
                None => owned("Unknown error"),
            },
            retry_count: row.retry_count,
            operator_id: match &row.operator_id {
                Some(o) => Some(o.clone()),
                None => None,
            },
            receipt_number: row.receipt_number.clone(),
        }
    }
}

/// What resolving a conflict did.
#[derive(Debug, Clone)]
pub struct ResolutionResult {
    /// Whether it worked.
    pub success: bool,
    /// What to tell the manager.
    pub message: String,
    /// The row's new status.
    pub new_status: Option<String>,
}

/// The store found the row.
pub open spec fn found(lookup: Result<Option<OfflineTransactionRow>, String>) -> bool {
    lookup matches Ok(Some(_))
}

/// Checks that a queued transaction exists and is in conflict, given what the store answered
/// when asked for it.
pub fn conflict_of(offline_id: &str, lookup: Result<Option<OfflineTransactionRow>, String>) -> (r:
    Result<ConflictSummary, ConflictError>)
    ensures
        lookup matches Err(e) ==> r == Err::<ConflictSummary, ConflictError>(
            ConflictError::DatabaseError(e),
        ),
        lookup matches Ok(None) ==> (r matches Err(ConflictError::NotFound(id)) && id@ == offline_id@),
        found(lookup) && lookup->Ok_0->0.sync_status@ != "CONFLICT"@ ==> (r matches Err(
            ConflictError::NotConflict(id),
        ) && id@ == offline_id@),
        found(lookup) && lookup->Ok_0->0.sync_status@ == "CONFLICT"@ ==> (r matches Ok(c)
            && summarises(c, lookup->Ok_0->0)),
{
    match lookup {
        Err(e) => Err(ConflictError::DatabaseError(e)),
        Ok(None) => Err(ConflictError::NotFound(owned(offline_id))),
        Ok(Some(row)) => {
            if !str_eq(row.sync_status.as_str(), "CONFLICT") {
                return Err(ConflictError::NotConflict(owned(offline_id)));
            }
            Ok(ConflictSummary::from_row(&row))
        },
    }
}

/// What re-queuing a conflict reports.
pub fn retry_resolution() -> (r: ResolutionResult)
    ensures
        r.success && r.message@ == "Transaction queued for retry"@,
        r.new_status matches Some(s) && s@ == "PENDING"@,
{
    ResolutionResult {
        success: true,
        message: owned("Transaction queued for retry"),
        new_status: Some(owned("PENDING")),
    }
}

/// What discarding a conflict reports.
pub fn discard_resolution() -> (r: ResolutionResult)
    ensures
        r.success && r.message@ == "Transaction discarded"@,
        r.new_status matches Some(s) && s@ == "DISCARDED"@,
{
    ResolutionResult {
        success: true,
        message: owned("Transaction discarded"),
        new_status: Some(owned("DISCARDED")),
    }
}

/// What parsing JSON text with `serde_json` reports: `None` when it is JSON, else the error's
/// message.
pub uninterp spec fn json_error(text: Seq<char>) -> Option<Seq<char>>;

/// `serde_json::from_str::<serde_json::Value>`: whether the text is JSON, and if not, why.
#[verifier::external_body]
fn check_json(text: &str) -> (r: Option<String>)
    ensures
        r is None <==> json_error(text@) is None,
        r matches Some(m) ==> json_error(text@) == Some(m@),
{
    match serde_json::from_str::<serde_json::Value>(text) {
        Ok(_) => None,
        Err(e) => Some(e.to_string()),
    }
}

/// A forced upload of a conflicting row: the row as it stands, marked to override the
/// server's duplicate check.
#[derive(Debug, Clone)]
pub struct ForceSyncRequest {
    /// The row to upload.
    pub row: OfflineTransactionRow,
    /// Override the server's duplicate check.
    pub force: bool,
}

/// The forced upload for a conflicting row, refused when its stored lines or payments are
/// not JSON.
pub fn force_sync_request(row: OfflineTransactionRow) -> (r: Result<ForceSyncRequest, ConflictError>)
    ensures
        json_error(row.items_json@) matches Some(m) ==> (r matches Err(ConflictError::DatabaseError(d))
            && d@ == "Invalid items JSON: "@ + m),
        json_error(row.items_json@) is None && json_error(row.payments_json@) is Some ==> (r
            matches Err(ConflictError::DatabaseError(d)) && d@ == "Invalid payments JSON: "@
            + json_error(row.payments_json@)->0),
        json_error(row.items_json@) is None && json_error(row.payments_json@) is None ==> (r matches Ok(
            q,
        ) && q.force && q.row == row),
{
    match check_json(row.items_json.as_str()) {
        Some(m) => {
            let mut d = owned("Invalid items JSON: ");
            append_str(&mut d, m.as_str());
            return Err(ConflictError::DatabaseError(d));
        },
        None => {},
    }
    match check_json(row.payments_json.as_str()) {
        Some(m) => {
            let mut d = owned("Invalid payments JSON: ");
            append_str(&mut d, m.as_str());
            return Err(ConflictError::DatabaseError(d));
        },
        None => {},
    }
    Ok(ForceSyncRequest { row, force: true })
}

/// What a forced upload reports: the server's identifier on success, its error otherwise.
pub fn force_sync_outcome(upload: Result<String, String>) -> (r: Result<ResolutionResult, ConflictError>)
    ensures
        upload matches Ok(id) ==> (r matches Ok(res) && res.success && res.message@
            == "Transaction synced with server ID: "@ + id@ && (res.new_status matches Some(s)
            && s@ == "SYNCED"@)),
        upload matches Err(e) ==> r == Err::<ResolutionResult, ConflictError>(ConflictError::ApiError(e)),
{
    match upload {
        Ok(id) => {
            let mut message = owned("Transaction synced with server ID: ");
            append_str(&mut message, id.as_str());
            Ok(ResolutionResult { success: true, message, new_status: Some(owned("SYNCED")) })
        },
        Err(e) => Err(ConflictError::ApiError(e)),
    }
}

} // verus!
