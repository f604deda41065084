//! Who is signed in at this till: the operator session the platform minted, as the store
//! keeps it across restarts.
use vstd::prelude::*;

use crate::models::operator::OperatorId;
use crate::services::auth_service::SessionToken;
use crate::text::{is_blank_text, owned};
use crate::time::{instant_before, parse_rfc3339, rfc3339_instant, rfc3339_text, UtcInstant};

verus! {

/// An operator session: its bearer token and when it stops being valid.
#[derive(Debug, Clone)]
pub struct OperatorSession {
    /// The operator's bearer token.
    pub token: SessionToken,
    /// When the session lapses.
    pub expires_at: UtcInstant,
}

/// The operator session this till holds, and whose it is.
#[derive(Debug, Clone)]
pub struct HeldOperatorSession {
    /// The operator.
    pub operator_id: OperatorId,
    /// Their session.
    pub session: OperatorSession,
}

/// The stored operator session's columns, each nullable.
#[derive(Debug, Clone)]
pub struct OperatorSessionRow {
    /// `operator_id`.
    pub operator_id: Option<OperatorId>,
    /// `token`.
    pub token: Option<String>,
    /// `expires_at`, RFC 3339.
    pub expires_at: Option<String>,
}

/// The text of a nullable column, empty when null.
pub open spec fn column_text(v: Option<String>) -> Seq<char> {
    match v {
        Some(s) => s@,
        None => Seq::empty(),
    }
}

/// The row to store for an operator's session; the expiry is absent only for an instant
/// `chrono` cannot write.
pub fn session_row(operator_id: &OperatorId, session: &OperatorSession) -> (row: OperatorSessionRow)
    ensures
        row.operator_id == Some(*operator_id),
        row.token matches Some(t) && t@ == session.token.spec_token(),
        row.expires_at is Some <==> rfc3339_text(session.expires_at) is Some,
        row.expires_at matches Some(e) ==> rfc3339_text(session.expires_at) == Some(e@),
{
    OperatorSessionRow {
        operator_id: Some(operator_id.clone()),
        token: Some(owned(session.token.expose())),
        expires_at: session.expires_at.to_rfc3339(),
    }
}

/// Reads the stored row. A row naming no operator, with a blank token, or with an expiry that
/// is not an instant holds nobody rather than failing.
pub fn held_from_row(row: OperatorSessionRow) -> (r: Option<HeldOperatorSession>)
    ensures
        r is Some <==> (row.operator_id is Some && !is_blank_text(column_text(row.token))
            && rfc3339_instant(column_text(row.expires_at)) is Some),
        r matches Some(h) ==> Some(h.operator_id) == row.operator_id
            && h.session.token.spec_token() == column_text(row.token) && Some(h.session.expires_at)
            == rfc3339_instant(column_text(row.expires_at)),
{
    let operator_id = match row.operator_id {
        Some(id) => id,
        None => return None,
    };
    let token = match row.token {
        Some(t) => t,
        None => String::new(),
    };
    let expires_text = match row.expires_at {
        Some(e) => e,
        None => String::new(),
    };
    let token = match SessionToken::new(token) {
        Some(t) => t,
        None => return None,
    };
    let expires_at = match parse_rfc3339(expires_text.as_str()) {
        Some(t) => t,
        None => return None,
    };
    Some(HeldOperatorSession { operator_id, session: OperatorSession { token, expires_at } })
}

/// Whether the held session has lapsed at `now`: its expiry instant itself counts as lapsed.
pub fn has_lapsed(held: &HeldOperatorSession, now: UtcInstant) -> (b: bool)
    ensures
        b == !instant_before(now, held.session.expires_at),
{
    !now.is_before(&held.session.expires_at)
}

} // verus!
