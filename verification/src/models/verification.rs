//! What happened when an operator entered their PIN.
//!
//! [`PinVerification`] is total: accepted, refused for a stated reason, or undecided for a
//! stated reason. "The till could not find out" is a case, not an error.
use vstd::prelude::*;

use crate::models::operator::VerifiedOperator;
use crate::models::pin::PinLength;
use crate::text::{append_str, owned};
use crate::time::{instant_before, UtcInstant};

verus! {

// ============================================================================
// StoreFailure
// ============================================================================

/// The ways the local store fails, from the point of view of a caller that has to decide what
/// to do next.
#[derive(Debug, Clone, Copy, PartialEq, Eq, Structural, Hash)]
pub enum StoreFailureKind {
    /// The store could not be reached or opened at all.
    Unavailable,
    /// A statement ran and failed.
    QueryFailed,
    /// A row came back in a shape the caller could not read.
    RowUnreadable,
}

impl StoreFailureKind {
    /// The sentence fragment naming the failure.
    pub open spec fn spec_description(self) -> Seq<char> {
        match self {
            StoreFailureKind::Unavailable => "the local store was unavailable"@,
            StoreFailureKind::QueryFailed => "a query against the local store failed"@,
            StoreFailureKind::RowUnreadable => "a row in the local store could not be read"@,
        }
    }

    /// The sentence fragment naming the failure.
    pub fn description(self) -> (s: &'static str)
        ensures
            s@ == self.spec_description(),
    {
        match self {
            StoreFailureKind::Unavailable => "the local store was unavailable",
            StoreFailureKind::QueryFailed => "a query against the local store failed",
            StoreFailureKind::RowUnreadable => "a row in the local store could not be read",
        }
    }
}

/// What went wrong with the local store: what the till was doing, how the store failed, and
/// the underlying error's own account of itself when there is one.
#[derive(Debug, Clone, PartialEq, Eq)]
pub struct StoreFailure {
    operation: &'static str,
    kind: StoreFailureKind,
    cause: Option<String>,
}

impl StoreFailure {
    /// What the till was doing.
    pub closed spec fn spec_operation(self) -> Seq<char> {
        self.operation@
    }

    /// How the store failed.
    pub closed spec fn spec_kind(self) -> StoreFailureKind {
        self.kind
    }

    /// The underlying error's message, when one was attached.
    pub closed spec fn spec_cause(self) -> Option<Seq<char>> {
        match self.cause {
            Some(c) => Some(c@),
            None => None,
        }
    }

    /// Records a store failure. `operation` completes the sentence "… while {operation}".
    pub fn new(operation: &'static str, kind: StoreFailureKind) -> (f: StoreFailure)
        ensures
            f.spec_operation() == operation@,
            f.spec_kind() == kind,
            f.spec_cause() is None,
    {
        StoreFailure { operation, kind, cause: None }
    }

    /// Attaches the underlying error's message.
    pub fn caused_by(self, cause: String) -> (f: StoreFailure)
        ensures
            f.spec_operation() == self.spec_operation(),
            f.spec_kind() == self.spec_kind(),
            f.spec_cause() == Some(cause@),
    {
        StoreFailure { operation: self.operation, kind: self.kind, cause: Some(cause) }
    }

    /// What the till was doing when the store failed.
    pub fn operation(&self) -> (s: &'static str)
        ensures
            s@ == self.spec_operation(),
    {
        self.operation
    }

    /// How the store failed.
    pub fn kind(&self) -> (k: StoreFailureKind)
        ensures
            k == self.spec_kind(),
    {
        self.kind
    }

    /// The underlying error's message, when one was attached.
    pub fn cause(&self) -> (r: Option<&str>)
        ensures
            r is Some <==> self.spec_cause() is Some,
            r matches Some(c) ==> self.spec_cause() == Some(c@),
    {
        match &self.cause {
            Some(c) => Some(c.as_str()),
            None => None,
        }
    }

    /// "{kind} while {operation}".
    pub fn message(&self) -> (s: String)
        ensures
            s@ == self.spec_kind().spec_description() + " while "@ + self.spec_operation(),
    {
        let mut s = owned(self.kind.description());
        append_str(&mut s, " while ");
        append_str(&mut s, self.operation);
        s
    }
}

// ============================================================================
// Authority and enrolment
// ============================================================================

/// When a locally stored credential stops being usable. The clock it is judged against is
/// the caller's.
#[derive(Debug, Clone, Copy, PartialEq, Eq, Structural, Hash)]
pub struct CredentialExpiry {
    instant: UtcInstant,
}

impl CredentialExpiry {
    /// The instant the credential stops being usable.
    pub closed spec fn spec_instant(self) -> UtcInstant {
        self.instant
    }

    /// Records when the credential stops being usable.
    pub fn at(instant: UtcInstant) -> (e: CredentialExpiry)
        ensures
            e.spec_instant() == instant,
    {
        CredentialExpiry { instant }
    }

    /// Whether the credential has expired as of `now`; the expiry instant itself counts as
    /// expired.
    pub fn has_passed(self, now: UtcInstant) -> (b: bool)
        ensures
            b == !instant_before(now, self.spec_instant()),
    {
        !now.is_before(&self.instant)
    }

    /// The instant itself.
    pub fn instant(self) -> (t: UtcInstant)
        ensures
            t == self.spec_instant(),
    {
        self.instant
    }
}

/// Whether a locally stored credential may still be used to verify a PIN. `Repudiated` is
/// terminal.
#[derive(Debug, Clone, Copy, PartialEq, Eq, Structural, Hash)]
pub enum EnrolmentState {
    /// The credential stands, and may verify a PIN while the platform is unreachable.
    Active,
    /// The platform has disowned this credential. No offline verification, ever.
    Repudiated,
}

/// Who decided that a PIN was correct.
#[derive(Debug, Clone, Copy, PartialEq, Eq, Structural, Hash)]
pub enum Authority {
    /// The platform verified the PIN.
    Platform,
    /// The till verified the PIN against a locally stored credential, valid until `not_after`.
    OfflineCredential {
        /// When the credential that authorised this stops being usable.
        not_after: CredentialExpiry,
    },
}

impl EnrolmentState {
    /// The authority a locally stored credential can confer: none for a repudiated one.
    pub fn offline_authority(self, not_after: CredentialExpiry) -> (r: Option<Authority>)
        ensures
            self is Active ==> r == Some(Authority::OfflineCredential { not_after }),
            self is Repudiated ==> r is None,
    {
        match self {
            EnrolmentState::Active => Some(Authority::OfflineCredential { not_after }),
            EnrolmentState::Repudiated => None,
        }
    }
}

// ============================================================================
// Attempt counters and lock state
// ============================================================================

/// How many attempts an operator has left before the account locks. Never zero.
#[derive(Debug, Clone, Copy, PartialEq, Eq, Hash)]
pub struct AttemptsRemaining {
    remaining: u8,
}

impl AttemptsRemaining {
    #[verifier::type_invariant]
    spec fn not_zero(self) -> bool {
        self.remaining != 0
    }

    /// The count.
    pub closed spec fn spec_get(self) -> u8 {
        self.remaining
    }

    /// Builds a remaining-attempt count; `None` when none remain.
    pub fn new(remaining: u8) -> (r: Option<AttemptsRemaining>)
        ensures
            r is None <==> remaining == 0,
            r matches Some(a) ==> a.spec_get() == remaining,
    {
        if remaining == 0 {
            None
        } else {
            Some(AttemptsRemaining { remaining })
        }
    }

    /// The count, which is at least one.
    pub fn get(self) -> (n: u8)
        ensures
            n == self.spec_get(),
            n >= 1,
    {
        proof {
            use_type_invariant(&self);
        }
        self.remaining
    }
}

/// How many consecutive wrong PINs an operator has on record.
#[derive(Debug, Clone, Copy, PartialEq, Eq, Structural, PartialOrd, Ord, Hash)]
pub struct FailedAttempts {
    failures: u8,
}

impl FailedAttempts {
    /// The count.
    pub closed spec fn spec_get(self) -> u8 {
        self.failures
    }

    /// No failures on record.
    pub fn none() -> (f: FailedAttempts)
        ensures
            f.spec_get() == 0,
    {
        FailedAttempts { failures: 0 }
    }

    /// Records a failure count.
    pub fn new(failures: u8) -> (f: FailedAttempts)
        ensures
            f.spec_get() == failures,
    {
        FailedAttempts { failures }
    }

    /// The count.
    pub fn get(self) -> (n: u8)
        ensures
            n == self.spec_get(),
    {
        self.failures
    }
}

impl Default for FailedAttempts {
    fn default() -> (f: FailedAttempts)
        ensures
            f.spec_get() == 0,
    {
        FailedAttempts { failures: 0 }
    }
}

/// Where an operator stands against their retry budget. There is no expiry: a lockout ends
/// only when someone confirms the operator's identity.
#[derive(Debug, Clone, Copy, PartialEq, Eq, Structural, Hash)]
pub enum LockState {
    /// Not locked; `failures` consecutive wrong PINs are on record.
    Unlocked {
        /// Consecutive wrong PINs recorded so far.
        failures: FailedAttempts,
    },
    /// Locked until a supervisor or the platform confirms the operator's identity.
    LockedPendingIdentityConfirmation,
}

// ============================================================================
// The outcome
// ============================================================================

/// Why a PIN was refused.
#[derive(Debug, Clone, Copy, PartialEq, Eq, Hash)]
pub enum PinRefusal {
    /// The PIN did not match: the only refusal that spends the retry budget.
    WrongPin {
        /// Attempts left before the account locks; never zero.
        attempts_remaining: AttemptsRemaining,
    },
    /// The account is locked until someone confirms the operator's identity.
    Locked,
    /// No operator with that identifier is known to this till.
    OperatorUnknown,
    /// The operator exists but is not active in HR.
    OperatorInactive,
    /// The stored credential could not be read.
    CredentialUnreadable,
    /// The stored credential is past its expiry.
    CredentialExpired,
    /// The stored credential was enrolled under a different PIN length than the tenant now
    /// requires.
    CredentialRequiresRotation {
        /// The length the tenant's policy now requires.
        expected: PinLength,
    },
}

impl PinRefusal {
    /// Whether this refusal spends one of the operator's remaining attempts: only a wrong PIN
    /// does.
    pub fn consumes_an_attempt(self) -> (b: bool)
        ensures
            b <==> self is WrongPin,
    {
        match self {
            PinRefusal::WrongPin { .. } => true,
            PinRefusal::Locked => false,
            PinRefusal::OperatorUnknown => false,
            PinRefusal::OperatorInactive => false,
            PinRefusal::CredentialUnreadable => false,
            PinRefusal::CredentialExpired => false,
            PinRefusal::CredentialRequiresRotation { .. } => false,
        }
    }
}

/// Why the till could not decide.
#[derive(Debug, Clone, PartialEq, Eq)]
pub enum UndeterminedCause {
    /// The platform could not be reached, and no local credential settled it.
    ServerUnreachable,
    /// The local store could not answer.
    StoreUnavailable(StoreFailure),
    /// The stored terminal session was rejected and could not be renewed.
    ReauthFailed,
    /// The platform holds no secret for this terminal: it must be paired again.
    TerminalNotProvisioned,
    /// The platform has disowned this terminal; the text is its account of why.
    EnrolmentRepudiated(String),
    /// The platform answered in a way this till could not read; the text describes it.
    ContractBreach(String),
}

impl UndeterminedCause {
    /// An answer from the platform that this till could not read.
    pub fn contract_breach(description: String) -> (c: UndeterminedCause)
        ensures
            c == UndeterminedCause::ContractBreach(description),
    {
        UndeterminedCause::ContractBreach(description)
    }

    /// The sentence this cause says.
    pub fn message(&self) -> (s: String)
        ensures
            *self is ServerUnreachable ==> s@
                == "the platform could not be reached, and no local credential could settle the PIN"@,
            *self is ReauthFailed ==> s@ == "the terminal session was rejected and could not be renewed"@,
            self matches UndeterminedCause::StoreUnavailable(f) ==> s@
                == "the local store could not answer: "@ + f.spec_kind().spec_description()
                + " while "@ + f.spec_operation(),
    {
        match self {
            UndeterminedCause::ServerUnreachable => owned(
                "the platform could not be reached, and no local credential could settle the PIN",
            ),
            UndeterminedCause::StoreUnavailable(f) => {
                let mut s = owned("the local store could not answer: ");
                let m = f.message();
                append_str(&mut s, m.as_str());
                s
            },
            UndeterminedCause::ReauthFailed => owned(
                "the terminal session was rejected and could not be renewed",
            ),
            UndeterminedCause::TerminalNotProvisioned => owned(
                "the platform holds no secret for this terminal; it must be paired again",
            ),
            UndeterminedCause::EnrolmentRepudiated(why) => {
                let mut s = owned("the platform has disowned this terminal: ");
                append_str(&mut s, why.as_str());
                s
            },
            UndeterminedCause::ContractBreach(what) => {
                let mut s = owned("the platform's answer could not be read: ");
                append_str(&mut s, what.as_str());
                s
            },
        }
    }
}

impl From<StoreFailure> for UndeterminedCause {
    fn from(f: StoreFailure) -> (c: UndeterminedCause) {
        UndeterminedCause::StoreUnavailable(f)
    }
}

impl vstd::std_specs::convert::FromSpecImpl<StoreFailure> for UndeterminedCause {
    open spec fn obeys_from_spec() -> bool {
        true
    }

    open spec fn from_spec(v: StoreFailure) -> UndeterminedCause {
        UndeterminedCause::StoreUnavailable(v)
    }
}

/// What happened when an operator entered their PIN.
#[derive(Debug)]
pub enum PinVerification {
    /// The PIN was correct, and `decided_by` records who decided that.
    Accepted {
        /// The operator, in the projection that carries no PIN material.
        operator: VerifiedOperator,
        /// Whether the platform or a local credential made this decision.
        decided_by: Authority,
    },
    /// The PIN was not accepted, for a reason the caller must handle.
    Refused(PinRefusal),
    /// The till could not find out.
    Undetermined(UndeterminedCause),
}

} // verus!
