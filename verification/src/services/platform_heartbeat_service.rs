//! The platform heartbeat: the terminal's error log, the health it reports, and what each
//! command the platform sends back asks of the terminal.
use vstd::prelude::*;

use crate::text::{append_str, owned};

verus! {

/// Seconds between heartbeats unless configured otherwise.
pub const DEFAULT_HEARTBEAT_INTERVAL_SECONDS: u64 = 60u64;

/// How many recent errors a heartbeat carries.
pub const MAX_RECENT_ERRORS: usize = 10usize;

/// The health a heartbeat reports.
#[derive(Debug, Clone, Copy, PartialEq, Eq, Structural)]
pub enum HeartbeatStatus {
    /// All well.
    Healthy,
    /// Working, under strain or with errors on record.
    Degraded,
    /// Too many errors.
    Error,
}

/// What the platform can ask of the terminal.
#[derive(Debug, Clone, Copy, PartialEq, Eq, Structural)]
pub enum PlatformCommandType {
    /// Install a new version.
    Update,
    /// Restart.
    Restart,
    /// Fetch the policies again.
    RefreshPolicies,
    /// Sign the operator out.
    ForceLogout,
    /// Clear caches.
    ClearCache,
    /// A command this terminal does not know.
    Unknown,
}

/// What the heartbeat service tells the rest of the terminal.
#[derive(Debug, Clone, PartialEq, Eq)]
pub enum HeartbeatEvent {
    /// A heartbeat went out with this status.
    HeartbeatSent {
        /// The reported health.
        status: HeartbeatStatus,
    },
    /// The platform sent a command.
    CommandReceived(PlatformCommandType),
    /// The platform asked for an update.
    UpdateRequested {
        /// The version to install.
        version: String,
        /// Where to get it.
        download_url: Option<String>,
    },
    /// The platform asked for a restart.
    RestartRequested,
    /// The platform asked for the policies to be fetched again.
    PolicyRefreshRequested,
    /// The platform asked for the operator to be signed out.
    ForceLogoutRequested,
    /// A heartbeat failed.
    HeartbeatFailed {
        /// Why.
        error: String,
    },
}

/// Why a heartbeat failed.
#[derive(Debug, Clone, PartialEq, Eq)]
pub enum HeartbeatError {
    /// The platform could not be reached.
    NetworkError(String),
    /// The platform refused the heartbeat.
    Rejected(String),
}

impl HeartbeatError {
    /// The sentence this error says.
    pub fn message(&self) -> (s: String)
        ensures
            self matches HeartbeatError::NetworkError(e) ==> s@ == "Network error: "@ + e@,
            self matches HeartbeatError::Rejected(e) ==> s@ == "Heartbeat rejected: "@ + e@,
    {
        match self {
            HeartbeatError::NetworkError(e) => {
                let mut s = owned("Network error: ");
                append_str(&mut s, e.as_str());
                s
            },
            HeartbeatError::Rejected(e) => {
                let mut s = owned("Heartbeat rejected: ");
                append_str(&mut s, e.as_str());
                s
            },
        }
    }
}

/// The last `MAX_RECENT_ERRORS` elements of `s`, or all of it when shorter.
pub open spec fn last_ten(s: Seq<Seq<char>>) -> Seq<Seq<char>> {
    if s.len() <= MAX_RECENT_ERRORS {
        s
    } else {
        s.subrange(s.len() - MAX_RECENT_ERRORS, s.len() as int)
    }
}

/// The errors recorded since the last acknowledged heartbeat: how many, and the most recent
/// ones, never more than `MAX_RECENT_ERRORS`.
#[derive(Debug)]
pub struct ErrorLog {
    error_count: u32,
    recent: Vec<String>,
}

impl ErrorLog {
    #[verifier::type_invariant]
    spec fn bounded(self) -> bool {
        self.recent@.len() <= MAX_RECENT_ERRORS
    }

    /// How many errors were recorded, wrapping as the atomic counter does.
    pub closed spec fn spec_count(self) -> u32 {
        self.error_count
    }

    /// The recent errors, oldest first.
    pub closed spec fn spec_recent(self) -> Seq<Seq<char>> {
        self.recent@.map_values(|e: String| e@)
    }

    /// An empty log.
    pub fn new() -> (log: ErrorLog)
        ensures
            log.spec_count() == 0,
            log.spec_recent().len() == 0,
    {
        ErrorLog { error_count: 0, recent: Vec::new() }
    }

    /// Records an error: the count goes up by one, and the error joins the recent ones, the
    /// oldest dropping out once there are `MAX_RECENT_ERRORS`.
    pub fn record_error(&mut self, error: &str)
        ensures
            final(self).spec_count() == if old(self).spec_count() == u32::MAX {
                0
            } else {
                old(self).spec_count() + 1
            },
            final(self).spec_recent() == last_ten(old(self).spec_recent().push(error@)),
            final(self).spec_recent().len() <= MAX_RECENT_ERRORS,
    {
        proof {
            use_type_invariant(&*self);
        }
        let count = if self.error_count == u32::MAX {
            0
        } else {
            self.error_count + 1
        };
        let ghost before = self.recent@;
        let mut recent: Vec<String> = Vec::new();
        let start: usize = if self.recent.len() >= MAX_RECENT_ERRORS {
            1
        } else {
            0
        };
        let mut k: usize = start;
        while k < self.recent.len()
            invariant
                start <= k <= self.recent@.len(),
                self.recent@ == before,
                before.len() <= MAX_RECENT_ERRORS,
                recent@ == before.subrange(start as int, k as int),
            decreases self.recent@.len() - k,
        {
            recent.push(self.recent[k].clone());
            k = k + 1;
            assert(recent@ =~= before.subrange(start as int, k as int));
        }
        recent.push(owned(error));
        proof {
            let kept = before.subrange(start as int, before.len() as int).push(
                recent@[recent@.len() - 1],
            );
            assert(recent@ =~= kept);
            let whole = before.map_values(|e: String| e@).push(error@);
            assert(recent@.map_values(|e: String| e@) =~= last_ten(whole));
        }
        *self = ErrorLog { error_count: count, recent };
    }

    /// Forgets every error.
    pub fn clear(&mut self)
        ensures
            final(self).spec_count() == 0,
            final(self).spec_recent().len() == 0,
    {
        *self = ErrorLog { error_count: 0, recent: Vec::new() };
    }

    /// How many errors were recorded.
    pub fn error_count(&self) -> (n: u32)
        ensures
            n == self.spec_count(),
    {
        self.error_count
    }

    /// The count a heartbeat reports: absent when zero.
    pub fn reported_count(&self) -> (r: Option<u32>)
        ensures
            self.spec_count() == 0 ==> r is None,
            self.spec_count() > 0 ==> r == Some(self.spec_count()),
    {
        if self.error_count > 0 {
            Some(self.error_count)
        } else {
            None
        }
    }

    /// The recent errors a heartbeat reports: absent when there are none.
    pub fn reported_errors(&self) -> (r: Option<Vec<String>>)
        ensures
            self.spec_recent().len() == 0 ==> r is None,
            self.spec_recent().len() > 0 ==> (r matches Some(v) && v@.map_values(|e: String| e@)
                == self.spec_recent()),
    {
        if self.recent.len() == 0 {
            None
        } else {
            let mut v: Vec<String> = Vec::new();
            let mut k: usize = 0;
            while k < self.recent.len()
                invariant
                    k <= self.recent@.len(),
                    v@.len() == k,
                    forall|j: int| 0 <= j < k ==> v@[j]@ == self.recent@[j]@,
                decreases self.recent@.len() - k,
            {
                v.push(self.recent[k].clone());
                k = k + 1;
            }
            assert(v@.map_values(|e: String| e@) =~= self.spec_recent());
            Some(v)
        }
    }
}

/// The health to report: an error past five errors on record; degraded under resource
/// pressure or with any error on record; healthy otherwise. `under_pressure` is whether the
/// CPU or memory is above 90% or the disk above 95%.
pub fn determine_status(error_count: u32, under_pressure: bool) -> (s: HeartbeatStatus)
    ensures
        error_count > 5 ==> s == HeartbeatStatus::Error,
        error_count <= 5 && (under_pressure || error_count > 0) ==> s == HeartbeatStatus::Degraded,
        error_count == 0 && !under_pressure ==> s == HeartbeatStatus::Healthy,
{
    if error_count > 5 {
        return HeartbeatStatus::Error;
    }
    if under_pressure {
        return HeartbeatStatus::Degraded;
    }
    if error_count > 0 {
        return HeartbeatStatus::Degraded;
    }
    HeartbeatStatus::Healthy
}

/// The event a platform command raises, beyond the command itself: an update names its
/// version (`unknown` when the platform gave none) and where to get it; clearing caches and an
/// unknown command raise nothing more.
pub fn event_for_command(
    command: PlatformCommandType,
    version: Option<String>,
    download_url: Option<String>,
) -> (e: Option<HeartbeatEvent>)
    ensures
        command is Update ==> (e matches Some(HeartbeatEvent::UpdateRequested { version: v, download_url: d })
            && (version matches Some(x) ==> v@ == x@) && (version is None ==> v@ == "unknown"@)
            && d == download_url),
        command is Restart ==> e == Some(HeartbeatEvent::RestartRequested),
        command is RefreshPolicies ==> e == Some(HeartbeatEvent::PolicyRefreshRequested),
        command is ForceLogout ==> e == Some(HeartbeatEvent::ForceLogoutRequested),
        command is ClearCache || command is Unknown ==> e is None,
{
    match command {
        PlatformCommandType::Update => {
            let v = match version {
                Some(x) => x,
                None => owned("unknown"),
            };
            Some(HeartbeatEvent::UpdateRequested { version: v, download_url })
        },
        PlatformCommandType::Restart => Some(HeartbeatEvent::RestartRequested),
        PlatformCommandType::RefreshPolicies => Some(HeartbeatEvent::PolicyRefreshRequested),
        PlatformCommandType::ForceLogout => Some(HeartbeatEvent::ForceLogoutRequested),
        PlatformCommandType::ClearCache => None,
        PlatformCommandType::Unknown => None,
    }
}

} // verus!
