//! Operator PIN verification and the terminal's saved session.
//!
//! The platform decides. A refusal is an answer and never falls through to the local leg;
//! only an unanswered request does. A lapsed terminal session is renewed at most once, and the
//! question is then asked at most once more: [`PinCheck`] is that exchange, as a state machine
//! whose caller performs each request and reports what came back.
use vstd::prelude::*;

use crate::models::operator::{
    OperatorId, OperatorName, OperatorPermissions, OperatorRole, Permission, PermissionsWire,
    VerifiedOperator,
};
use crate::models::pin::PinLength;
use crate::models::verification::{
    AttemptsRemaining, Authority, PinRefusal, PinVerification, StoreFailure, StoreFailureKind,
    UndeterminedCause,
};
use crate::text::{append_nat, append_str, is_blank, is_blank_text, nat_text, owned};

verus! {

// ============================================================================
// What the platform says
// ============================================================================

/// The platform's error codes that decide a PIN check.
#[derive(Debug, Clone, PartialEq, Eq)]
pub enum ServerErrorCode {
    /// The PIN did not match.
    PosPinInvalid,
    /// The operator is locked.
    PosOperatorLocked,
    /// The operator is not active.
    PosOperatorInactive,
    /// No such operator.
    PosOperatorNotFound,
    /// The PIN was right but must be changed to a new length.
    PosPinRotationRequired,
    /// The request carried no terminal token.
    PosTerminalTokenMissing,
    /// The terminal token was not valid.
    PosTerminalTokenInvalid,
    /// The terminal session expired.
    PosTerminalSessionExpired,
    /// The terminal session was revoked.
    PosTerminalSessionRevoked,
    /// The terminal is not active.
    PosTerminalNotActive,
    /// The terminal no longer exists.
    PosTerminalGone,
    /// The terminal failed to authenticate.
    PosTerminalAuthFailed,
    /// The terminal must authenticate.
    PosTerminalAuthRequired,
    /// The company is not active.
    PosCompanyInactive,
    /// The operator lacks the capability the request needs.
    PosOperatorCapabilityDenied,
    /// The request needs a supervisor's approval.
    PosSupervisorApprovalRequired,
    /// The request is forbidden.
    Forbidden,
    /// The request did not validate.
    ValidationError,
    /// Any other code, as the platform spelled it.
    Other(String),
}

impl ServerErrorCode {
    /// The codes that say the terminal has no standing to ask.
    pub open spec fn is_about_the_terminal(self) -> bool {
        match self {
            ServerErrorCode::PosTerminalTokenMissing | ServerErrorCode::PosTerminalTokenInvalid
            | ServerErrorCode::PosTerminalSessionExpired
            | ServerErrorCode::PosTerminalSessionRevoked | ServerErrorCode::PosTerminalNotActive
            | ServerErrorCode::PosTerminalGone | ServerErrorCode::PosTerminalAuthFailed
            | ServerErrorCode::PosTerminalAuthRequired | ServerErrorCode::PosCompanyInactive => true,
            _ => false,
        }
    }
}

/// The structured part of a refusal, when the platform sent one.
#[derive(Debug, Clone, PartialEq, Eq)]
pub enum RefusalDetails {
    /// A wrong PIN, and how many attempts the platform says remain.
    PinInvalid {
        /// Never zero.
        attempts_remaining: AttemptsRemaining,
    },
    /// A wrong PIN that used the last attempt.
    PinBudgetExhausted,
    /// A correct PIN that must be changed to this length.
    PinRotationRequired {
        /// The length the tenant now requires.
        required_length: PinLength,
    },
    /// The capability a supervisor's approval is needed for, and the roles that hold it.
    SupervisorApprovalRequired {
        /// The capability's code.
        capability: String,
        /// The roles that hold it; never empty.
        held_by: Vec<OperatorRole>,
    },
    /// Details this till does not read.
    Other,
}

/// A request the platform answered with a refusal.
#[derive(Debug, Clone, PartialEq, Eq)]
pub struct Refusal {
    /// The HTTP status.
    pub status: u16,
    /// The platform's code.
    pub code: ServerErrorCode,
    /// The platform's message.
    pub message: String,
    /// The structured details, when sent.
    pub details: Option<RefusalDetails>,
}

/// How a request to the platform failed.
#[derive(Debug, Clone, PartialEq, Eq)]
pub enum ApiFailure {
    /// Nobody answered.
    Unreachable(String),
    /// The platform answered and this till could not read the answer.
    Unreadable(String),
    /// The platform answered with a refusal.
    Refused(Refusal),
}

/// What a refusal says about the terminal's own standing.
#[derive(Debug, Clone, PartialEq, Eq)]
pub enum TerminalStanding {
    /// The refusal was about the request, not the terminal.
    Unaffected,
    /// The platform holds no secret for this terminal.
    NotProvisioned,
    /// The platform has disowned this terminal, for the stated reason.
    Repudiated(String),
    /// The terminal's session lapsed; renewing it may help.
    SessionLapsed,
}

/// The body of a successful PIN check.
#[derive(Debug, Clone)]
pub struct VerifyPinResponse {
    /// The operator.
    pub operator_id: OperatorId,
    /// The Latin-script name.
    pub name: String,
    /// The Arabic-script name.
    pub name_ar: Option<String>,
    /// The role.
    pub role: OperatorRole,
    /// The permissions object, when the profile has one.
    pub permissions: Option<OperatorPermissions>,
}

// ============================================================================
// Reading the platform's answers
// ============================================================================

/// The outcome a refusal of the PIN means; `None` for a refusal this till cannot read, which
/// is a contract breach described by [`refusal_description`]. Every arm is the platform's
/// decision; none falls through to the local leg.
pub open spec fn refusal_outcome(r: Refusal) -> Option<PinVerification> {
    match (r.code, r.details) {
        (ServerErrorCode::PosPinInvalid, Some(RefusalDetails::PinInvalid { attempts_remaining })) => {
            Some(PinVerification::Refused(PinRefusal::WrongPin { attempts_remaining }))
        },
        (ServerErrorCode::PosPinInvalid, Some(RefusalDetails::PinBudgetExhausted)) => {
            Some(PinVerification::Refused(PinRefusal::Locked))
        },
        (ServerErrorCode::PosOperatorLocked, _) => Some(PinVerification::Refused(PinRefusal::Locked)),
        (ServerErrorCode::PosOperatorInactive, _) => Some(
            PinVerification::Refused(PinRefusal::OperatorInactive),
        ),
        (ServerErrorCode::PosOperatorNotFound, _) => Some(
            PinVerification::Refused(PinRefusal::OperatorUnknown),
        ),
        (
            ServerErrorCode::PosPinRotationRequired,
            Some(RefusalDetails::PinRotationRequired { required_length }),
        ) => Some(
            PinVerification::Refused(
                PinRefusal::CredentialRequiresRotation { expected: required_length },
            ),
        ),
        (code, _) => if code.is_about_the_terminal() {
            Some(PinVerification::Undetermined(UndeterminedCause::ReauthFailed))
        } else {
            None
        },
    }
}

/// `v` is the outcome refusal `r` means: its mapped outcome, or a contract breach carrying
/// the refusal's description.
pub open spec fn is_refusal_outcome(r: Refusal, v: PinVerification) -> bool {
    match refusal_outcome(r) {
        Some(o) => v == o,
        None => v matches PinVerification::Undetermined(UndeterminedCause::ContractBreach(d))
            && d@ == refusal_description(r),
    }
}



/// What a refusal of the PIN means, read from both sides. A wrong PIN is reported as a wrong
/// PIN carrying the platform's own count of the attempts left, and only a wrong PIN is; an
/// operator is reported locked only when the platform says the operator is locked or that the
/// last attempt was used.
pub proof fn lemma_refusal_outcomes(r: Refusal, v: PinVerification)
    requires
        is_refusal_outcome(r, v),
    ensures
        forall|n: AttemptsRemaining|
            r.code == ServerErrorCode::PosPinInvalid && r.details == Some(
                RefusalDetails::PinInvalid { attempts_remaining: n },
            ) ==> v == PinVerification::Refused(PinRefusal::WrongPin { attempts_remaining: n }),
        forall|n: AttemptsRemaining|
            v == PinVerification::Refused(PinRefusal::WrongPin { attempts_remaining: n }) ==> r.code
                == ServerErrorCode::PosPinInvalid && r.details == Some(
                RefusalDetails::PinInvalid { attempts_remaining: n },
            ),
        v == PinVerification::Refused(PinRefusal::Locked) ==> r.code == ServerErrorCode::PosOperatorLocked
            || (r.code == ServerErrorCode::PosPinInvalid && r.details == Some(
            RefusalDetails::PinBudgetExhausted,
        )),
        r.code == ServerErrorCode::PosOperatorLocked ==> v == PinVerification::Refused(PinRefusal::Locked),
        r.code == ServerErrorCode::PosOperatorInactive ==> v == PinVerification::Refused(
            PinRefusal::OperatorInactive,
        ),
        r.code == ServerErrorCode::PosOperatorNotFound ==> v == PinVerification::Refused(
            PinRefusal::OperatorUnknown,
        ),
        forall|len: PinLength|
            r.code == ServerErrorCode::PosPinRotationRequired && r.details == Some(
                RefusalDetails::PinRotationRequired { required_length: len },
            ) ==> v == PinVerification::Refused(PinRefusal::CredentialRequiresRotation { expected: len }),
        r.code.is_about_the_terminal() ==> v == PinVerification::Undetermined(UndeterminedCause::ReauthFailed),
{
}

/// How an unmapped refusal is described: its status and message.
pub open spec fn refusal_description(r: Refusal) -> Seq<char> {
    "refused with status "@ + nat_text(r.status as nat) + ": "@ + r.message@
}

/// A role's wire spelling.
pub open spec fn known_role(s: Seq<char>) -> bool {
    s == "CASHIER"@ || s == "SUPERVISOR"@ || s == "MANAGER"@
}

/// Maps a refusal of the PIN onto the outcome it means.
pub fn refused_by_platform(refusal: Refusal) -> (v: PinVerification)
    ensures
        is_refusal_outcome(refusal, v),
{
    match (&refusal.code, &refusal.details) {
        (ServerErrorCode::PosPinInvalid, Some(RefusalDetails::PinInvalid { attempts_remaining })) => {
            PinVerification::Refused(
                PinRefusal::WrongPin { attempts_remaining: *attempts_remaining },
            )
        },
        (ServerErrorCode::PosPinInvalid, Some(RefusalDetails::PinBudgetExhausted)) => {
            PinVerification::Refused(PinRefusal::Locked)
        },
        (ServerErrorCode::PosOperatorLocked, _) => PinVerification::Refused(PinRefusal::Locked),
        (ServerErrorCode::PosOperatorInactive, _) => PinVerification::Refused(
            PinRefusal::OperatorInactive,
        ),
        (ServerErrorCode::PosOperatorNotFound, _) => PinVerification::Refused(
            PinRefusal::OperatorUnknown,
        ),
        (
            ServerErrorCode::PosPinRotationRequired,
            Some(RefusalDetails::PinRotationRequired { required_length }),
        ) => PinVerification::Refused(
            PinRefusal::CredentialRequiresRotation { expected: *required_length },
        ),
        (ServerErrorCode::PosTerminalTokenMissing, _)
        | (ServerErrorCode::PosTerminalTokenInvalid, _)
        | (ServerErrorCode::PosTerminalSessionExpired, _)
        | (ServerErrorCode::PosTerminalSessionRevoked, _)
        | (ServerErrorCode::PosTerminalNotActive, _)
        | (ServerErrorCode::PosTerminalGone, _)
        | (ServerErrorCode::PosTerminalAuthFailed, _)
        | (ServerErrorCode::PosTerminalAuthRequired, _)
        | (ServerErrorCode::PosCompanyInactive, _) => PinVerification::Undetermined(
            UndeterminedCause::ReauthFailed,
        ),
        _ => {
            let mut d = owned("refused with status ");
            append_nat(&mut d, refusal.status as u64);
            append_str(&mut d, ": ");
            append_str(&mut d, refusal.message.as_str());
            PinVerification::Undetermined(UndeterminedCause::ContractBreach(d))
        },
    }
}

/// Whether `v` is what an accepted PIN means: the operator the platform returned, decided by
/// the platform, with the permissions it sent (none when it sent none); or, where the name is
/// blank, an undetermined outcome.
pub open spec fn is_acceptance_outcome(verified: VerifyPinResponse, v: PinVerification) -> bool {
    &&& is_blank_text(verified.name@) ==> v is Undetermined
    &&& !is_blank_text(verified.name@) ==> (v matches PinVerification::Accepted { operator, decided_by }
        && decided_by == Authority::Platform && operator.spec_id() == verified.operator_id
        && operator.spec_role() == verified.role && operator.spec_name().spec_latin()
        == verified.name@ && operator.spec_name().spec_arabic() == arabic_name_of(verified.name_ar)
        && (verified.permissions matches Some(p) ==> operator.spec_permissions()
        == p) && (verified.permissions is None ==> forall|q: Permission| !operator.spec_permissions().holds(q)))
}

/// The Arabic-script name an operator keeps from what the platform sent: none when it sent
/// none or a blank one.
pub open spec fn arabic_name_of(name_ar: Option<String>) -> Option<Seq<char>> {
    match name_ar {
        Some(a) => if is_blank_text(a@) {
            None
        } else {
            Some(a@)
        },
        None => None,
    }
}

/// The outcome a successful PIN check means: the platform's own account of the operator. A
/// name the domain refuses is a contract breach; an absent permissions object grants nothing.
pub fn accepted_by_platform(verified: VerifyPinResponse) -> (v: PinVerification)
    ensures
        is_acceptance_outcome(verified, v),
{
    let name_ar = match &verified.name_ar {
        Some(a) => Some(a.as_str()),
        None => None,
    };
    let name = match OperatorName::new(verified.name.as_str(), name_ar) {
        Ok(name) => name,
        Err(error) => {
            return PinVerification::Undetermined(UndeterminedCause::contract_breach(error.message()));
        },
    };
    let permissions = match verified.permissions {
        Some(p) => p,
        None => OperatorPermissions::none(),
    };
    PinVerification::Accepted {
        operator: VerifiedOperator::from_verified_pin(
            verified.operator_id,
            name,
            verified.role,
            permissions,
        ),
        decided_by: Authority::Platform,
    }
}

// ============================================================================
// The exchange
// ============================================================================

/// What the caller is asked to do next.
#[derive(Debug)]
pub enum PinCheckStep {
    /// Ask the platform to verify the PIN, and report the answer with
    /// [`PinCheck::on_answer`].
    AskPlatform,
    /// Renew the terminal session, and report the result with [`PinCheck::on_renewal`].
    RenewSession,
    /// Answer from the local store: report the operator's row to [`offline_outcome`].
    VerifyOffline,
    /// The check is over; record the operator's session if the platform minted one.
    Decided(PinVerification),
}

/// Where the exchange stands.
#[derive(Debug, Clone, Copy, PartialEq, Eq, Structural)]
pub enum PinCheckStage {
    /// The first question is out.
    Asking,
    /// The session is being renewed.
    Renewing,
    /// The question is out for the second and last time.
    AskingAgain,
    /// Over.
    Done,
}

/// One PIN check. The session is renewed at most once, and the platform is asked at most
/// twice: a second lapse is not followed by a third question.
#[derive(Debug)]
pub struct PinCheck {
    stage: PinCheckStage,
    renewals: u8,
}

impl PinCheck {
    #[verifier::type_invariant]
    spec fn bounded(self) -> bool {
        &&& self.renewals <= 1
        &&& (self.stage is Asking ==> self.renewals == 0)
        &&& (self.stage is Renewing || self.stage is AskingAgain ==> self.renewals == 1)
    }

    /// Where the exchange stands.
    pub closed spec fn spec_stage(self) -> PinCheckStage {
        self.stage
    }

    /// How many times the session has been renewed.
    pub closed spec fn spec_renewals(self) -> nat {
        self.renewals as nat
    }

    /// Starts a check: the first step is to ask the platform.
    pub fn start() -> (r: (PinCheck, PinCheckStep))
        ensures
            r.0.spec_stage() == PinCheckStage::Asking,
            r.0.spec_renewals() == 0,
            r.1 is AskPlatform,
    {
        (PinCheck { stage: PinCheckStage::Asking, renewals: 0 }, PinCheckStep::AskPlatform)
    }

    /// The platform answered the PIN question, or failed to. `standing` is what a refusal says
    /// about the terminal. Only an unanswered request leads to the local leg; a lapsed session
    /// is renewed only after the first question.
    pub fn on_answer(
        &mut self,
        answer: Result<VerifyPinResponse, ApiFailure>,
        standing: TerminalStanding,
    ) -> (step: PinCheckStep)
        requires
            old(self).spec_stage() is Asking || old(self).spec_stage() is AskingAgain,
        ensures
            step is VerifyOffline <==> answer matches Err(ApiFailure::Unreachable(_)),
            step is RenewSession ==> old(self).spec_stage() is Asking && final(self).spec_stage()
                is Renewing && final(self).spec_renewals() == 1,
            step is RenewSession <==> (old(self).spec_stage() is Asking && refused(answer)
                && standing is SessionLapsed),
            !(step is RenewSession) ==> final(self).spec_stage() is Done
                && final(self).spec_renewals() == old(self).spec_renewals(),
            refused(answer) && standing is Unaffected ==> step is Decided && is_refusal_outcome(
                answer->Err_0->Refused_0,
                step->Decided_0,
            ),
            refused(answer) && standing is NotProvisioned ==> step
                == PinCheckStep::Decided(
                PinVerification::Undetermined(UndeterminedCause::TerminalNotProvisioned),
            ),
            refused(answer) && standing is Repudiated ==> step == PinCheckStep::Decided(
                PinVerification::Undetermined(
                    UndeterminedCause::EnrolmentRepudiated(standing->Repudiated_0),
                ),
            ),
            old(self).spec_stage() is AskingAgain && refused(answer) && standing is SessionLapsed
                ==> step == PinCheckStep::Decided(
                PinVerification::Undetermined(UndeterminedCause::ReauthFailed),
            ),
            answer matches Err(ApiFailure::Unreadable(e)) ==> step == PinCheckStep::Decided(
                PinVerification::Undetermined(UndeterminedCause::ContractBreach(e)),
            ),
            answer is Ok ==> step is Decided,
            answer matches Ok(verified) ==> is_acceptance_outcome(verified, step->Decided_0),
    {
        proof {
            use_type_invariant(&*self);
        }
        let first = match self.stage {
            PinCheckStage::Asking => true,
            _ => false,
        };
        match answer {
            Ok(verified) => {
                self.stage = PinCheckStage::Done;
                PinCheckStep::Decided(accepted_by_platform(verified))
            },
            Err(ApiFailure::Unreachable(_)) => {
                self.stage = PinCheckStage::Done;
                PinCheckStep::VerifyOffline
            },
            Err(ApiFailure::Unreadable(e)) => {
                self.stage = PinCheckStage::Done;
                PinCheckStep::Decided(
                    PinVerification::Undetermined(UndeterminedCause::contract_breach(e)),
                )
            },
            Err(ApiFailure::Refused(r)) => match standing {
                TerminalStanding::Unaffected => {
                    self.stage = PinCheckStage::Done;
                    PinCheckStep::Decided(refused_by_platform(r))
                },
                TerminalStanding::NotProvisioned => {
                    self.stage = PinCheckStage::Done;
                    PinCheckStep::Decided(
                        PinVerification::Undetermined(UndeterminedCause::TerminalNotProvisioned),
                    )
                },
                TerminalStanding::Repudiated(why) => {
                    self.stage = PinCheckStage::Done;
                    PinCheckStep::Decided(
                        PinVerification::Undetermined(UndeterminedCause::EnrolmentRepudiated(why)),
                    )
                },
                TerminalStanding::SessionLapsed => {
                    if first {
                        *self = PinCheck { stage: PinCheckStage::Renewing, renewals: 1 };
                        PinCheckStep::RenewSession
                    } else {
                        self.stage = PinCheckStage::Done;
                        PinCheckStep::Decided(
                            PinVerification::Undetermined(UndeterminedCause::ReauthFailed),
                        )
                    }
                },
            },
        }
    }

    /// The renewal went through, or did not. A renewal that found nobody home leads to the
    /// local leg; a refused one is never a second chance.
    pub fn on_renewal(&mut self, renewal: Result<(), ApiFailure>, standing: TerminalStanding) -> (step:
        PinCheckStep)
        requires
            old(self).spec_stage() is Renewing,
        ensures
            final(self).spec_renewals() == old(self).spec_renewals(),
            renewal is Ok ==> step is AskPlatform && final(self).spec_stage() is AskingAgain,
            renewal is Err ==> final(self).spec_stage() is Done,
            step is VerifyOffline <==> renewal matches Err(ApiFailure::Unreachable(_)),
            renewal matches Err(ApiFailure::Unreadable(e)) ==> step == PinCheckStep::Decided(
                PinVerification::Undetermined(UndeterminedCause::ContractBreach(e)),
            ),
            renewal_refused(renewal) && standing is Repudiated ==> step == PinCheckStep::Decided(
                PinVerification::Undetermined(
                    UndeterminedCause::EnrolmentRepudiated(standing->Repudiated_0),
                ),
            ),
            renewal_refused(renewal) && standing is NotProvisioned ==> step
                == PinCheckStep::Decided(
                PinVerification::Undetermined(UndeterminedCause::TerminalNotProvisioned),
            ),
            renewal_refused(renewal) && (standing is SessionLapsed || standing is Unaffected)
                ==> step == PinCheckStep::Decided(
                PinVerification::Undetermined(UndeterminedCause::ReauthFailed),
            ),
    {
        proof {
            use_type_invariant(&*self);
        }
        match renewal {
            Ok(()) => {
                self.stage = PinCheckStage::AskingAgain;
                PinCheckStep::AskPlatform
            },
            Err(ApiFailure::Unreachable(_)) => {
                self.stage = PinCheckStage::Done;
                PinCheckStep::VerifyOffline
            },
            Err(ApiFailure::Unreadable(e)) => {
                self.stage = PinCheckStage::Done;
                PinCheckStep::Decided(
                    PinVerification::Undetermined(UndeterminedCause::contract_breach(e)),
                )
            },
            Err(ApiFailure::Refused(_)) => {
                self.stage = PinCheckStage::Done;
                let cause = match standing {
                    TerminalStanding::Repudiated(why) => UndeterminedCause::EnrolmentRepudiated(why),
                    TerminalStanding::NotProvisioned => UndeterminedCause::TerminalNotProvisioned,
                    TerminalStanding::SessionLapsed => UndeterminedCause::ReauthFailed,
                    TerminalStanding::Unaffected => UndeterminedCause::ReauthFailed,
                };
                PinCheckStep::Decided(PinVerification::Undetermined(cause))
            },
        }
    }
}

// ============================================================================
// The local leg
// ============================================================================

/// An operator's row as the local store holds it. The till holds no credential: the row can
/// say who the operator is and whether they are active, never whether a PIN is right.
#[derive(Debug, Clone)]
pub struct StoredOperatorRow {
    /// The Latin-script name column.
    pub name: String,
    /// The Arabic-script name column.
    pub name_ar: Option<String>,
    /// The role column.
    pub role: String,
    /// The permissions column: absent, read, or present and unreadable (with the reason).
    pub permissions: Option<Result<PermissionsWire, String>>,
    /// The active flag.
    pub is_active: bool,
}

/// What the store answered when asked for an operator's row.
#[derive(Debug, Clone)]
pub enum OperatorLookup {
    /// No such row.
    NotFound,
    /// The query failed, for the stated reason.
    Failed(String),
    /// The row.
    Found(StoredOperatorRow),
}

/// The row's name and role are ones the domain admits.
pub open spec fn identity_readable(row: StoredOperatorRow) -> bool {
    !is_blank_text(row.name@) && known_role(row.role@)
}

/// The row's permissions column is absent, or reads as a permission set.
pub open spec fn permissions_readable(row: StoredOperatorRow) -> bool {
    match row.permissions {
        None => true,
        Some(Ok(w)) => OperatorPermissions::of_wire(w) is Ok,
        Some(Err(_)) => false,
    }
}

/// The outcome is a store failure of this kind.
pub open spec fn store_failure_of_kind(v: PinVerification, kind: StoreFailureKind) -> bool {
    v matches PinVerification::Undetermined(UndeterminedCause::StoreUnavailable(f)) && f.spec_kind()
        == kind
}

/// The answer is a refusal.
pub open spec fn refused(answer: Result<VerifyPinResponse, ApiFailure>) -> bool {
    answer matches Err(ApiFailure::Refused(_))
}

/// The renewal was refused.
pub open spec fn renewal_refused(renewal: Result<(), ApiFailure>) -> bool {
    renewal matches Err(ApiFailure::Refused(_))
}

/// What the till can say about a PIN with the platform unreachable: an unknown operator and
/// an inactive one are refused, without spending an attempt; a row the till cannot read is the
/// store's failure; a known, active operator is undetermined, because there is nothing to
/// check the PIN against.
pub fn offline_outcome(operator_id: &OperatorId, lookup: OperatorLookup) -> (v: PinVerification)
    ensures
        lookup is NotFound ==> v == PinVerification::Refused(PinRefusal::OperatorUnknown),
        lookup is Failed ==> store_failure_of_kind(v, StoreFailureKind::QueryFailed),
        lookup is Found && !identity_readable(lookup->Found_0) ==> store_failure_of_kind(
            v,
            StoreFailureKind::QueryFailed,
        ),
        lookup is Found && identity_readable(lookup->Found_0) && !lookup->Found_0.is_active ==> v
            == PinVerification::Refused(PinRefusal::OperatorInactive),
        lookup is Found && identity_readable(lookup->Found_0) && lookup->Found_0.is_active
            && permissions_readable(lookup->Found_0) ==> v == PinVerification::Undetermined(
            UndeterminedCause::ServerUnreachable,
        ),
        lookup is Found && identity_readable(lookup->Found_0) && lookup->Found_0.is_active
            && !permissions_readable(lookup->Found_0) ==> store_failure_of_kind(
            v,
            StoreFailureKind::RowUnreadable,
        ),
        v is Refused ==> !(v->Refused_0 is WrongPin),
{
    let row = match lookup {
        OperatorLookup::NotFound => return PinVerification::Refused(PinRefusal::OperatorUnknown),
        OperatorLookup::Failed(reason) => {
            return PinVerification::Undetermined(
                UndeterminedCause::StoreUnavailable(
                    StoreFailure::new("reading the operator's row", StoreFailureKind::QueryFailed).caused_by(
                        reason,
                    ),
                ),
            );
        },
        OperatorLookup::Found(row) => row,
    };
    let name_ar = match &row.name_ar {
        Some(a) => Some(a.as_str()),
        None => None,
    };
    let name = match OperatorName::new(row.name.as_str(), name_ar) {
        Ok(n) => n,
        Err(e) => {
            return PinVerification::Undetermined(
                UndeterminedCause::StoreUnavailable(
                    StoreFailure::new("reading the operator's row", StoreFailureKind::QueryFailed).caused_by(
                        e.message(),
                    ),
                ),
            );
        },
    };
    let role = match OperatorRole::from_str(row.role.as_str()) {
        Ok(r) => r,
        Err(e) => {
            return PinVerification::Undetermined(
                UndeterminedCause::StoreUnavailable(
                    StoreFailure::new("reading the operator's row", StoreFailureKind::QueryFailed).caused_by(
                        e.message(),
                    ),
                ),
            );
        },
    };
    if !row.is_active {
        return PinVerification::Refused(PinRefusal::OperatorInactive);
    }
    let permissions = match &row.permissions {
        None => OperatorPermissions::none(),
        Some(Err(reason)) => {
            let mut cause = owned("the `permissions_json` column: ");
            append_str(&mut cause, reason.as_str());
            return PinVerification::Undetermined(
                UndeterminedCause::StoreUnavailable(
                    StoreFailure::new("reading the operator's row", StoreFailureKind::RowUnreadable).caused_by(
                        cause,
                    ),
                ),
            );
        },
        Some(Ok(wire)) => match wire.into_permissions() {
            Ok(p) => p,
            Err(e) => {
                let mut cause = owned("the `permissions_json` column: ");
                let m = e.message();
                append_str(&mut cause, m.as_str());
                return PinVerification::Undetermined(
                    UndeterminedCause::StoreUnavailable(
                        StoreFailure::new(
                            "reading the operator's row",
                            StoreFailureKind::RowUnreadable,
                        ).caused_by(cause),
                    ),
                );
            },
        },
    };
    let _operator = VerifiedOperator::from_verified_pin(operator_id.clone(), name, role, permissions);
    PinVerification::Undetermined(UndeterminedCause::ServerUnreachable)
}


// ============================================================================
// The terminal session
// ============================================================================

/// The terminal's bearer credential; never blank.
#[derive(Debug)]
pub struct SessionToken {
    token: String,
}

impl Clone for SessionToken {
    fn clone(&self) -> (r: SessionToken)
        ensures
            r == *self,
    {
        proof {
            use_type_invariant(self);
        }
        SessionToken { token: self.token.clone() }
    }
}

impl SessionToken {
    #[verifier::type_invariant]
    spec fn not_blank(self) -> bool {
        !is_blank_text(self.token@)
    }

    /// The token's characters.
    pub closed spec fn spec_token(self) -> Seq<char> {
        self.token@
    }

    /// A token, refusing a blank one: a blank token is no session.
    pub fn new(raw: String) -> (r: Option<SessionToken>)
        ensures
            r is None <==> is_blank_text(raw@),
            r matches Some(t) ==> t.spec_token() == raw@,
    {
        if is_blank(raw.as_str()) {
            None
        } else {
            Some(SessionToken { token: raw })
        }
    }

    /// The token, for the request header.
    pub fn expose(&self) -> (s: &str)
        ensures
            s@ == self.spec_token(),
            !is_blank_text(s@),
    {
        proof {
            use_type_invariant(self);
        }
        self.token.as_str()
    }
}

/// The saved terminal configuration's columns, as the store returned them. The tax rate is
/// read separately by the caller.
#[derive(Debug, Clone)]
pub struct SavedSessionRow {
    /// `terminal_id`.
    pub terminal_id: String,
    /// `terminal_code`.
    pub terminal_code: String,
    /// `hardware_id`.
    pub hardware_id: String,
    /// `session_token`, nullable.
    pub session_token: Option<String>,
    /// `company_id`, nullable.
    pub company_id: Option<String>,
    /// `branch_id`, nullable.
    pub branch_id: Option<String>,
    /// `locale`, nullable.
    pub locale: Option<String>,
    /// `currency`, nullable.
    pub currency: Option<String>,
    /// `tax_inclusive`, nullable, as an integer flag.
    pub tax_inclusive: Option<i32>,
    /// `sector`, nullable.
    pub sector: Option<String>,
}

/// The terminal's session and configuration, without its tax rate.
#[derive(Debug, Clone)]
pub struct SavedSession {
    /// The terminal.
    pub terminal_id: String,
    /// Its code.
    pub terminal_code: String,
    /// Its hardware identifier.
    pub hardware_id: String,
    /// Its bearer credential.
    pub session_token: SessionToken,
    /// The company.
    pub company_id: String,
    /// The branch.
    pub branch_id: Option<String>,
    /// The display locale.
    pub locale: String,
    /// The currency.
    pub currency: String,
    /// Whether prices include tax.
    pub tax_inclusive: bool,
    /// The business sector.
    pub sector: String,
    /// Enabled features; synced separately.
    pub features: Vec<String>,
}

/// A nullable text column, or its fallback.
pub open spec fn or_default(v: Option<String>, fallback: Seq<char>) -> Seq<char> {
    match v {
        Some(s) => s@,
        None => fallback,
    }
}

/// A nullable text column, or the fallback.
fn text_or(v: Option<String>, fallback: &str) -> (s: String)
    ensures
        s@ == or_default(v, fallback@),
{
    match v {
        Some(s) => s,
        None => owned(fallback),
    }
}

/// Reads the saved configuration into a session. A null or blank token is no session; each
/// other null column takes its own default: no company, locale `ar`, currency `LYD`, tax not
/// included, sector `RETAIL`.
pub fn read_saved_session(row: SavedSessionRow) -> (r: Option<SavedSession>)
    ensures
        r is None <==> (row.session_token is None || is_blank_text(row.session_token->0@)),
        r matches Some(s) ==> {
            &&& s.terminal_id == row.terminal_id
            &&& s.terminal_code == row.terminal_code
            &&& s.hardware_id == row.hardware_id
            &&& s.session_token.spec_token() == row.session_token->0@
            &&& s.company_id@ == or_default(row.company_id, Seq::<char>::empty())
            &&& s.branch_id == row.branch_id
            &&& s.locale@ == or_default(row.locale, "ar"@)
            &&& s.currency@ == or_default(row.currency, "LYD"@)
            &&& s.tax_inclusive == (row.tax_inclusive matches Some(f) && f != 0)
            &&& s.sector@ == or_default(row.sector, "RETAIL"@)
            &&& s.features@.len() == 0
        },
{
    let token = match row.session_token {
        Some(t) => t,
        None => String::new(),
    };
    assert(row.session_token matches Some(t) ==> token@ == t@);
    assert(row.session_token is None ==> is_blank_text(token@));
    proof {
        reveal_strlit("");
    }
    let session_token = match SessionToken::new(token) {
        Some(t) => t,
        None => return None,
    };
    let tax_inclusive = match row.tax_inclusive {
        Some(f) => f != 0,
        None => false,
    };
    Some(
        SavedSession {
            terminal_id: row.terminal_id,
            terminal_code: row.terminal_code,
            hardware_id: row.hardware_id,
            session_token,
            company_id: text_or(row.company_id, ""),
            branch_id: row.branch_id,
            locale: text_or(row.locale, "ar"),
            currency: text_or(row.currency, "LYD"),
            tax_inclusive,
            sector: text_or(row.sector, "RETAIL"),
            features: Vec::new(),
        },
    )
}

/// The platform's answer to a terminal login, without its tax rate.
#[derive(Debug, Clone)]
pub struct LoginTerminalResponse {
    /// The terminal.
    pub terminal_id: String,
    /// Its code.
    pub terminal_code: String,
    /// The new bearer credential.
    pub session_token: String,
    /// The company.
    pub company_id: String,
    /// The branch.
    pub branch_id: Option<String>,
    /// The locale, when configured.
    pub locale: Option<String>,
    /// The currency, when configured.
    pub currency: Option<String>,
    /// Whether prices include tax, when a tax configuration was sent.
    pub tax_inclusive: Option<bool>,
    /// The business sector, when configured.
    pub business_sector: Option<String>,
    /// Enabled features.
    pub features: Vec<String>,
}

/// The session a terminal login gives; refused when the platform answered with a blank token,
/// before anything is stored. Unconfigured settings take the same defaults as a saved row.
pub fn session_from_login(hardware_id: &str, response: LoginTerminalResponse) -> (r: Result<
    SavedSession,
    &'static str,
>)
    ensures
        r is Err <==> is_blank_text(response.session_token@),
        r is Err ==> r == Err::<SavedSession, &'static str>(
            "the platform answered a terminal login with a blank session token",
        ),
        r matches Ok(s) ==> {
            &&& s.terminal_id == response.terminal_id
            &&& s.terminal_code == response.terminal_code
            &&& s.hardware_id@ == hardware_id@
            &&& s.session_token.spec_token() == response.session_token@
            &&& s.company_id == response.company_id
            &&& s.branch_id == response.branch_id
            &&& s.locale@ == or_default(response.locale, "ar"@)
            &&& s.currency@ == or_default(response.currency, "LYD"@)
            &&& s.tax_inclusive == (response.tax_inclusive == Some(true))
            &&& s.sector@ == or_default(response.business_sector, "RETAIL"@)
            &&& s.features == response.features
        },
{
    let session_token = match SessionToken::new(response.session_token) {
        Some(t) => t,
        None => return Err("the platform answered a terminal login with a blank session token"),
    };
    let tax_inclusive = match response.tax_inclusive {
        Some(b) => b,
        None => false,
    };
    Ok(
        SavedSession {
            terminal_id: response.terminal_id,
            terminal_code: response.terminal_code,
            hardware_id: owned(hardware_id),
            session_token,
            company_id: response.company_id,
            branch_id: response.branch_id,
            locale: text_or(response.locale, "ar"),
            currency: text_or(response.currency, "LYD"),
            tax_inclusive,
            sector: text_or(response.business_sector, "RETAIL"),
            features: response.features,
        },
    )
}

} // verus!
