//! What the platform did with a record the till handed it.
//!
//! Four outcomes, each asking something different of the till: the platform recorded it (keep
//! its identifier); nobody answered (keep the local copy, let the queue replay it); the platform
//! refused (tell the cashier, never replay); the answer was unreadable (neither: a person has to
//! look).
use vstd::prelude::*;

use crate::models::operator::OperatorRole;
use crate::services::auth_service::{ApiFailure, Refusal, RefusalDetails, ServerErrorCode};
use crate::text::owned;

verus! {

/// What a refusal says about the operator's authority to make the write.
#[derive(Debug, Clone, PartialEq, Eq)]
pub enum CapabilityStanding {
    /// The refusal was not about the operator's authority.
    Unaffected,
    /// The operator lacks the capability, and nobody at the till was named who holds it.
    Denied,
    /// A supervisor's approval is needed for the capability, from one of these roles.
    SupervisorApprovalRequired {
        /// The capability's code.
        capability: String,
        /// The roles that hold it.
        held_by: Vec<OperatorRole>,
    },
}

impl CapabilityStanding {
    /// What a refusal says about authority: a supervisor's approval when the platform asks for
    /// one and names who holds it; a denial for a denied capability; otherwise nothing.
    pub open spec fn spec_of(r: Refusal) -> CapabilityStanding {
        match (r.code, r.details) {
            (ServerErrorCode::PosSupervisorApprovalRequired, Some(RefusalDetails::SupervisorApprovalRequired { capability, held_by })) =>
                CapabilityStanding::SupervisorApprovalRequired { capability, held_by },
            (ServerErrorCode::PosOperatorCapabilityDenied, _) => CapabilityStanding::Denied,
            (ServerErrorCode::PosSupervisorApprovalRequired, _) => CapabilityStanding::Denied,
            _ => CapabilityStanding::Unaffected,
        }
    }

    /// What a refusal says about authority.
    pub fn of(r: &Refusal) -> (s: CapabilityStanding)
        ensures
            s.escalates() == (r.code == ServerErrorCode::PosSupervisorApprovalRequired
                && r.details matches Some(RefusalDetails::SupervisorApprovalRequired { .. })),
            s is Unaffected <==> !(r.code == ServerErrorCode::PosSupervisorApprovalRequired || r.code
                == ServerErrorCode::PosOperatorCapabilityDenied),
            s is Denied ==> !s.escalates(),
    {
        match (&r.code, &r.details) {
            (
                ServerErrorCode::PosSupervisorApprovalRequired,
                Some(RefusalDetails::SupervisorApprovalRequired { capability, held_by }),
            ) => CapabilityStanding::SupervisorApprovalRequired {
                capability: owned(capability.as_str()),
                held_by: held_by.clone(),
            },
            (ServerErrorCode::PosOperatorCapabilityDenied, _) => CapabilityStanding::Denied,
            (ServerErrorCode::PosSupervisorApprovalRequired, _) => CapabilityStanding::Denied,
            _ => CapabilityStanding::Unaffected,
        }
    }

    /// Fetching someone to the till can help.
    pub open spec fn escalates(self) -> bool {
        self is SupervisorApprovalRequired
    }

    /// Whether fetching someone to the till can help: only where a supervisor's approval is
    /// asked for.
    pub fn escalating_at_the_till_can_help(&self) -> (b: bool)
        ensures
            b == self.escalates(),
    {
        match self {
            CapabilityStanding::SupervisorApprovalRequired { .. } => true,
            _ => false,
        }
    }
}

/// Two codes are the same code: the same variant, spelled alike when the platform's own.
pub open spec fn same_code(a: ServerErrorCode, b: ServerErrorCode) -> bool {
    match (a, b) {
        (ServerErrorCode::Other(x), ServerErrorCode::Other(y)) => x@ == y@,
        _ => a == b,
    }
}

/// A copy of a code.
fn copy_code(c: &ServerErrorCode) -> (r: ServerErrorCode)
    ensures
        same_code(r, *c),
{
    match c {
        ServerErrorCode::Other(s) => ServerErrorCode::Other(owned(s.as_str())),
        ServerErrorCode::PosPinInvalid => ServerErrorCode::PosPinInvalid,
        ServerErrorCode::PosOperatorLocked => ServerErrorCode::PosOperatorLocked,
        ServerErrorCode::PosOperatorInactive => ServerErrorCode::PosOperatorInactive,
        ServerErrorCode::PosOperatorNotFound => ServerErrorCode::PosOperatorNotFound,
        ServerErrorCode::PosPinRotationRequired => ServerErrorCode::PosPinRotationRequired,
        ServerErrorCode::PosTerminalTokenMissing => ServerErrorCode::PosTerminalTokenMissing,
        ServerErrorCode::PosTerminalTokenInvalid => ServerErrorCode::PosTerminalTokenInvalid,
        ServerErrorCode::PosTerminalSessionExpired => ServerErrorCode::PosTerminalSessionExpired,
        ServerErrorCode::PosTerminalSessionRevoked => ServerErrorCode::PosTerminalSessionRevoked,
        ServerErrorCode::PosTerminalNotActive => ServerErrorCode::PosTerminalNotActive,
        ServerErrorCode::PosTerminalGone => ServerErrorCode::PosTerminalGone,
        ServerErrorCode::PosTerminalAuthFailed => ServerErrorCode::PosTerminalAuthFailed,
        ServerErrorCode::PosTerminalAuthRequired => ServerErrorCode::PosTerminalAuthRequired,
        ServerErrorCode::PosCompanyInactive => ServerErrorCode::PosCompanyInactive,
        ServerErrorCode::PosOperatorCapabilityDenied => ServerErrorCode::PosOperatorCapabilityDenied,
        ServerErrorCode::PosSupervisorApprovalRequired => ServerErrorCode::PosSupervisorApprovalRequired,
        ServerErrorCode::Forbidden => ServerErrorCode::Forbidden,
        ServerErrorCode::ValidationError => ServerErrorCode::ValidationError,
    }
}

/// A refusal, in the form the till acts on and shows.
#[derive(Debug, Clone, PartialEq, Eq)]
pub struct WriteRefused {
    /// The platform's code; branch on this, never on the message.
    pub code: ServerErrorCode,
    /// What the code says about the operator's authority to make this write.
    pub authority: CapabilityStanding,
    /// The platform's own sentence, for a log or a last-resort display.
    pub message: String,
}

impl WriteRefused {
    /// Reads a refusal.
    pub fn of(r: &Refusal) -> (w: WriteRefused)
        ensures
            same_code(w.code, r.code),
            w.authority.escalates() == (r.code == ServerErrorCode::PosSupervisorApprovalRequired
                && r.details matches Some(RefusalDetails::SupervisorApprovalRequired { .. })),
            (w.authority is Unaffected) <==> !(r.code == ServerErrorCode::PosSupervisorApprovalRequired
                || r.code == ServerErrorCode::PosOperatorCapabilityDenied),
            w.message@ == r.message@,
    {
        WriteRefused {
            code: copy_code(&r.code),
            authority: CapabilityStanding::of(r),
            message: owned(r.message.as_str()),
        }
    }
}

/// What became of a record the till handed to the platform.
#[derive(Debug, Clone, PartialEq, Eq)]
pub enum PlatformSync {
    /// The platform recorded it, under this identifier.
    Recorded(String),
    /// Nobody answered; the local copy stands and the offline queue replays it.
    Queued,
    /// The platform answered no; replaying will not change it.
    Refused(WriteRefused),
    /// The platform answered and the till could not read the answer.
    Undetermined,
}

/// `s` is how the outcome of a write reads: recorded under the platform's identifier on
/// success; queued when nobody answered; undetermined when the answer was unreadable; refused,
/// with the platform's code and message, when it refused.
pub open spec fn reads_as(outcome: Result<String, ApiFailure>, s: PlatformSync) -> bool {
    match outcome {
        Ok(id) => s matches PlatformSync::Recorded(i) && i@ == id@,
        Err(ApiFailure::Unreachable(_)) => s is Queued,
        Err(ApiFailure::Unreadable(_)) => s is Undetermined,
        Err(ApiFailure::Refused(r)) => s matches PlatformSync::Refused(w) && same_code(w.code, r.code)
            && w.message@ == r.message@,
    }
}

impl PlatformSync {
    /// Reads the outcome of one write.
    pub fn of(outcome: Result<String, ApiFailure>) -> (s: PlatformSync)
        ensures
            reads_as(outcome, s),
            outcome matches Err(ApiFailure::Refused(r)) ==> (s matches PlatformSync::Refused(w)
                && w.authority.escalates() == (r.code == ServerErrorCode::PosSupervisorApprovalRequired
                && r.details matches Some(RefusalDetails::SupervisorApprovalRequired { .. }))),
    {
        match outcome {
            Ok(server_id) => PlatformSync::Recorded(server_id),
            Err(ApiFailure::Unreachable(_)) => PlatformSync::Queued,
            Err(ApiFailure::Unreadable(_)) => PlatformSync::Undetermined,
            Err(ApiFailure::Refused(r)) => PlatformSync::Refused(WriteRefused::of(&r)),
        }
    }

    /// The platform's identifier for the record, when it made one.
    pub fn server_id(&self) -> (r: Option<&str>)
        ensures
            self matches PlatformSync::Recorded(id) ==> (r matches Some(s) && s@ == id@),
            !(self is Recorded) ==> r is None,
    {
        match self {
            PlatformSync::Recorded(id) => Some(id.as_str()),
            _ => None,
        }
    }

    /// Whether the offline queue should try the record again: only when nobody answered.
    pub fn deserves_a_replay(&self) -> (b: bool)
        ensures
            b <==> self is Queued,
    {
        match self {
            PlatformSync::Queued => true,
            _ => false,
        }
    }

    /// Whether the platform holds the record.
    pub fn is_recorded(&self) -> (b: bool)
        ensures
            b <==> self is Recorded,
    {
        match self {
            PlatformSync::Recorded(_) => true,
            _ => false,
        }
    }
}

/// A refused write is never replayed, and neither is one whose answer could not be read: of
/// all the outcomes of a write, only the one where nobody answered earns a replay.
pub proof fn lemma_only_unanswered_writes_replay(outcome: Result<String, ApiFailure>, s: PlatformSync)
    requires
        reads_as(outcome, s),
    ensures
        (s is Queued) <==> (outcome matches Err(ApiFailure::Unreachable(_))),
        (s is Recorded) <==> outcome is Ok,
{
}

} // verus!
