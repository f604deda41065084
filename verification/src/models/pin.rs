//! The operator's PIN, and the policy that says what a valid one looks like.
//!
//! [`Pin::parse`] takes no policy: a tenant's length rule governs the minting of a new PIN, never
//! the presentation of a standing one. What it checks is the shape the platform accepts from
//! anybody: four to six ASCII digits.
//!
//! The digits of a [`Pin`] and of an [`EnteredDigits`] buffer live in a `zeroize::Zeroizing`
//! buffer, so they are wiped when the value is dropped; neither type can be cloned or compared.
use vstd::prelude::*;
use zeroize::{Zeroize, Zeroizing};

use crate::text::{append_int, append_nat, int_text, is_ascii_digit_char, nat_text, owned};

verus! {

// ============================================================================
// The zeroizing buffers
// ============================================================================

/// A string in a `zeroize::Zeroizing` buffer, wiped when it is dropped.
#[verifier::external_body]
pub struct SealedText {
    inner: Zeroizing<String>,
}

/// A byte vector in a `zeroize::Zeroizing` buffer, wiped when it is dropped.
#[verifier::external_body]
pub struct SealedBytes {
    inner: Zeroizing<Vec<u8>>,
}

/// The characters a sealed string holds.
pub uninterp spec fn sealed_text(z: SealedText) -> Seq<char>;

/// The bytes a `SealedBytes` holds.
pub uninterp spec fn sealed_bytes(z: SealedBytes) -> Seq<u8>;

/// `core::time::Duration::from_secs`.
pub uninterp spec fn duration_of_seconds(secs: u64) -> core::time::Duration;

/// `Zeroizing::new` on a string: moves it into a buffer that is wiped on drop.
#[verifier::external_body]
fn seal_text(s: String) -> (z: SealedText)
    ensures
        sealed_text(z) == s@,
{
    SealedText { inner: Zeroizing::new(s) }
}

/// `Zeroizing`'s `Deref` on a string buffer.
#[verifier::external_body]
fn open_text(z: &SealedText) -> (s: &str)
    ensures
        s@ == sealed_text(*z),
{
    z.inner.as_str()
}

/// `Zeroizing::new` on an empty byte vector allocated at `capacity`.
#[verifier::external_body]
fn sealed_empty_bytes(capacity: usize) -> (z: SealedBytes)
    ensures
        sealed_bytes(z) == Seq::<u8>::empty(),
{
    SealedBytes { inner: Zeroizing::new(Vec::with_capacity(capacity)) }
}

/// `Vec::len` through `Zeroizing`'s `Deref`.
#[verifier::external_body]
fn sealed_len(z: &SealedBytes) -> (n: usize)
    ensures
        n == sealed_bytes(*z).len(),
{
    z.inner.len()
}

/// `Vec::push` through `Zeroizing`'s `DerefMut`.
#[verifier::external_body]
fn sealed_push(z: &mut SealedBytes, b: u8)
    ensures
        sealed_bytes(*final(z)) == sealed_bytes(*old(z)).push(b),
    no_unwind
{
    z.inner.push(b);
}

/// `Vec::pop` through `Zeroizing`'s `DerefMut`, then `Zeroize` on the spare capacity, which
/// overwrites the byte the pop left behind.
#[verifier::external_body]
fn sealed_pop_and_wipe(z: &mut SealedBytes)
    ensures
        sealed_bytes(*final(z)) == (if sealed_bytes(*old(z)).len() > 0 {
            sealed_bytes(*old(z)).drop_last()
        } else {
            sealed_bytes(*old(z))
        }),
    no_unwind
{
    z.inner.pop();
    z.inner.spare_capacity_mut().zeroize();
}

/// `Zeroize` on a byte vector: overwrites every byte and empties it.
#[verifier::external_body]
fn sealed_wipe(z: &mut SealedBytes)
    ensures
        sealed_bytes(*final(z)) == Seq::<u8>::empty(),
    no_unwind
{
    z.inner.zeroize();
}

/// `std::str::from_utf8` on the bytes of a `SealedBytes`, borrowed rather than copied.
/// ASCII bytes are valid UTF-8, one character per byte.
#[verifier::external_body]
fn sealed_bytes_as_str(z: &SealedBytes) -> (r: Option<&str>)
    ensures
        ascii_bytes(sealed_bytes(*z)) ==> r is Some && r.unwrap()@ == bytes_as_chars(sealed_bytes(*z)),
{
    std::str::from_utf8(z.inner.as_slice()).ok()
}

/// `core::time::Duration::from_secs`.
#[verifier::external_body]
fn duration_from_secs(secs: u64) -> (d: core::time::Duration)
    ensures
        d == duration_of_seconds(secs),
{
    core::time::Duration::from_secs(secs)
}

/// Every byte is ASCII.
pub open spec fn ascii_bytes(b: Seq<u8>) -> bool {
    forall|i: int| 0 <= i < b.len() ==> #[trigger] b[i] < 128
}

/// ASCII bytes read as characters.
pub open spec fn bytes_as_chars(b: Seq<u8>) -> Seq<char> {
    Seq::new(b.len(), |i: int| b[i] as char)
}

// ============================================================================
// Errors
// ============================================================================

/// Why an entered PIN is not a PIN. No variant carries the entered digits.
#[derive(Debug, Clone, Copy, PartialEq, Eq)]
pub enum PinFormatError {
    /// The right characters, the wrong number of them: the platform accepts 4 to 6.
    LengthOutOfRange {
        /// How many characters were entered.
        actual: usize,
    },
    /// Something other than an ASCII digit was entered.
    NotNumeric,
}

impl PinFormatError {
    /// The sentence this error says.
    pub open spec fn message_text(self) -> Seq<char> {
        match self {
            PinFormatError::LengthOutOfRange { actual } => "a PIN must be between 4 and 6 digits, but "@
                + nat_text(actual as nat) + " were entered"@,
            PinFormatError::NotNumeric => "a PIN must contain only the digits 0 to 9"@,
        }
    }

    /// The sentence this error says; it names a count, never a digit.
    pub fn message(&self) -> (s: String)
        ensures
            s@ == self.message_text(),
    {
        match self {
            PinFormatError::LengthOutOfRange { actual } => {
                let mut s = owned("a PIN must be between 4 and 6 digits, but ");
                append_nat(&mut s, *actual as u64);
                s.append(" were entered");
                s
            },
            PinFormatError::NotNumeric => owned("a PIN must contain only the digits 0 to 9"),
        }
    }
}

/// A PIN policy value the till cannot work with.
#[derive(Debug, Clone, Copy, PartialEq, Eq)]
pub enum PinPolicyError {
    /// A PIN length outside the 4 to 6 the platform accepts.
    UnsupportedPinLength {
        /// The rejected length.
        digits: u8,
    },
    /// A retry budget of zero.
    NoAttemptsPermitted,
    /// A negative offline window.
    NegativeOfflineWindow {
        /// The rejected value.
        hours: i32,
    },
    /// A negative lockout period.
    NegativeLockoutPeriod {
        /// The rejected value.
        minutes: i32,
    },
    /// A session lifetime of zero hours or less.
    UnusableSessionLifetime {
        /// The rejected value.
        hours: i32,
    },
}

impl PinPolicyError {
    /// The sentence this error says.
    pub open spec fn message_text(self) -> Seq<char> {
        match self {
            PinPolicyError::UnsupportedPinLength { digits } => "a PIN length of "@ + nat_text(
                digits as nat,
            ) + " is outside the supported range of 4 to 6 digits"@,
            PinPolicyError::NoAttemptsPermitted =>
                "a PIN retry budget of zero would lock out every operator on the first attempt"@,
            PinPolicyError::NegativeOfflineWindow { hours } =>
                "an offline window cannot be negative, but "@ + int_text(hours as int)
                    + " hours were configured"@,
            PinPolicyError::NegativeLockoutPeriod { minutes } =>
                "a lockout period cannot be negative, but "@ + int_text(minutes as int)
                    + " minutes were configured"@,
            PinPolicyError::UnusableSessionLifetime { hours } =>
                "an operator session must live at least an hour, but "@ + int_text(hours as int)
                    + " were configured"@,
        }
    }

    /// The sentence this error says.
    pub fn message(&self) -> (s: String)
        ensures
            s@ == self.message_text(),
    {
        match self {
            PinPolicyError::UnsupportedPinLength { digits } => {
                let mut s = owned("a PIN length of ");
                append_nat(&mut s, *digits as u64);
                s.append(" is outside the supported range of 4 to 6 digits");
                s
            },
            PinPolicyError::NoAttemptsPermitted => owned(
                "a PIN retry budget of zero would lock out every operator on the first attempt",
            ),
            PinPolicyError::NegativeOfflineWindow { hours } => {
                let mut s = owned("an offline window cannot be negative, but ");
                append_int(&mut s, *hours as i64);
                s.append(" hours were configured");
                s
            },
            PinPolicyError::NegativeLockoutPeriod { minutes } => {
                let mut s = owned("a lockout period cannot be negative, but ");
                append_int(&mut s, *minutes as i64);
                s.append(" minutes were configured");
                s
            },
            PinPolicyError::UnusableSessionLifetime { hours } => {
                let mut s = owned("an operator session must live at least an hour, but ");
                append_int(&mut s, *hours as i64);
                s.append(" were configured");
                s
            },
        }
    }
}

// ============================================================================
// PinLength and RequiredPinLength
// ============================================================================

/// How many digits a PIN has, in the set the platform accepts: 4, 5 or 6.
#[derive(Debug, Clone, Copy, PartialEq, Eq, Hash)]
pub enum PinLength {
    /// Four digits.
    Four,
    /// Five digits.
    Five,
    /// Six digits.
    Six,
}

impl PinLength {
    /// The number of digits this length stands for.
    pub open spec fn spec_digits(self) -> nat {
        match self {
            PinLength::Four => 4,
            PinLength::Five => 5,
            PinLength::Six => 6,
        }
    }

    /// The number of digits this length requires.
    pub fn digits(self) -> (n: usize)
        ensures
            n == self.spec_digits(),
    {
        match self {
            PinLength::Four => 4,
            PinLength::Five => 5,
            PinLength::Six => 6,
        }
    }

    /// The shortest length the platform accepts.
    pub fn shortest() -> (l: PinLength)
        ensures
            l == PinLength::Four,
    {
        PinLength::Four
    }

    /// The longest length the platform accepts, and so the strictest a tenant can require.
    pub fn longest() -> (l: PinLength)
        ensures
            l == PinLength::Six,
    {
        PinLength::Six
    }

    /// The length with this many digits, when the platform accepts it.
    pub fn try_from(digits: u8) -> (r: Result<PinLength, PinPolicyError>)
        ensures
            r matches Ok(l) ==> l.spec_digits() == digits,
            r is Ok <==> 4 <= digits <= 6,
            r is Err ==> r == Err::<PinLength, PinPolicyError>(
                PinPolicyError::UnsupportedPinLength { digits },
            ),
    {
        match digits {
            4 => Ok(PinLength::Four),
            5 => Ok(PinLength::Five),
            6 => Ok(PinLength::Six),
            other => Err(PinPolicyError::UnsupportedPinLength { digits: other }),
        }
    }

    /// How the length reads: `"4 digits"`.
    pub fn label(self) -> (s: String)
        ensures
            s@ == nat_text(self.spec_digits()) + " digits"@,
    {
        let mut s = String::new();
        append_nat(&mut s, self.digits() as u64);
        s.append(" digits");
        s
    }
}

/// How long a new PIN this tenant requires; "any length the platform accepts" is an answer.
#[derive(Debug, Clone, Copy, PartialEq, Eq, Hash)]
pub enum RequiredPinLength {
    /// The tenant has expressed no length rule.
    AnyPlatformLength,
    /// The tenant requires exactly this many digits of a new PIN.
    Exactly(PinLength),
}

/// A configured PIN length the platform does not accept. It carries a usable answer:
/// [`Self::resolved`], the strictest legal length.
#[derive(Debug, Clone, Copy, PartialEq, Eq)]
pub struct UninterpretablePinLength {
    /// The value the configuration carried.
    pub stored: i64,
}

impl RequiredPinLength {
    /// Reads the rule a terminal configuration carries. `None` is no rule; a number the platform
    /// does not accept comes back as an error that carries it.
    pub fn read(stored: Option<i64>) -> (r: Result<RequiredPinLength, UninterpretablePinLength>)
        ensures
            stored is None ==> r == Ok::<RequiredPinLength, UninterpretablePinLength>(
                RequiredPinLength::AnyPlatformLength,
            ),
            stored matches Some(v) ==> (4 <= v <= 6 <==> r is Ok),
            stored matches Some(v) ==> (r matches Ok(RequiredPinLength::Exactly(l)) && l.spec_digits()
                == v) || (!(4 <= v <= 6) && r == Err::<RequiredPinLength, UninterpretablePinLength>(
                UninterpretablePinLength { stored: v },
            )),
    {
        match stored {
            None => Ok(RequiredPinLength::AnyPlatformLength),
            Some(v) => {
                if 0 <= v && v <= 255 {
                    match PinLength::try_from(v as u8) {
                        Ok(l) => Ok(RequiredPinLength::Exactly(l)),
                        Err(_) => Err(UninterpretablePinLength { stored: v }),
                    }
                } else {
                    Err(UninterpretablePinLength { stored: v })
                }
            },
        }
    }

    /// The length a new PIN must have, or `None` when any platform length will do.
    pub fn as_exact(self) -> (r: Option<PinLength>)
        ensures
            r == (match self {
                RequiredPinLength::AnyPlatformLength => None,
                RequiredPinLength::Exactly(l) => Some(l),
            }),
    {
        match self {
            RequiredPinLength::AnyPlatformLength => None,
            RequiredPinLength::Exactly(l) => Some(l),
        }
    }

    /// How the rule reads: `"any supported length"` or `"6 digits"`.
    pub fn label(self) -> (s: String)
        ensures
            s@ == (match self {
                RequiredPinLength::AnyPlatformLength => "any supported length"@,
                RequiredPinLength::Exactly(l) => nat_text(l.spec_digits()) + " digits"@,
            }),
    {
        match self {
            RequiredPinLength::AnyPlatformLength => owned("any supported length"),
            RequiredPinLength::Exactly(l) => l.label(),
        }
    }
}

impl UninterpretablePinLength {
    /// The rule to enforce in place of the unreadable one: the strictest legal length, never
    /// "any length".
    pub fn resolved(self) -> (r: RequiredPinLength)
        ensures
            r == RequiredPinLength::Exactly(PinLength::Six),
    {
        RequiredPinLength::Exactly(PinLength::Six)
    }

    /// The sentence this error says.
    pub fn message(&self) -> (s: String)
        ensures
            s@ == "a configured PIN length of "@ + int_text(self.stored as int)
                + " is not one the platform accepts; using the strictest legal length instead, because requiring nothing would remove the control silently"@,
    {
        let mut s = owned("a configured PIN length of ");
        append_int(&mut s, self.stored);
        s.append(
            " is not one the platform accepts; using the strictest legal length instead, because requiring nothing would remove the control silently",
        );
        s
    }
}

// ============================================================================
// MaxAttempts, OfflineWindow, LockoutPeriod, SessionLifetime
// ============================================================================

/// How many consecutive wrong PINs an operator may enter before the account locks; never zero.
#[derive(Debug, Clone, Copy, PartialEq, Eq, Hash)]
pub struct MaxAttempts {
    attempts: u8,
}

impl MaxAttempts {
    #[verifier::type_invariant]
    spec fn positive(self) -> bool {
        self.attempts > 0
    }

    /// The budget as a count.
    pub closed spec fn count(self) -> nat {
        self.attempts as nat
    }

    /// Builds a retry budget, rejecting zero.
    pub fn new(attempts: u8) -> (r: Result<MaxAttempts, PinPolicyError>)
        ensures
            attempts == 0 <==> r == Err::<MaxAttempts, PinPolicyError>(PinPolicyError::NoAttemptsPermitted),
            attempts > 0 ==> r is Ok,
            r matches Ok(m) ==> m.count() == attempts,
    {
        if attempts == 0 {
            Err(PinPolicyError::NoAttemptsPermitted)
        } else {
            Ok(MaxAttempts { attempts })
        }
    }

    /// The budget as a count, at least one.
    pub fn get(self) -> (n: u8)
        ensures
            n == self.count(),
            n >= 1,
    {
        proof {
            use_type_invariant(&self);
        }
        self.attempts
    }
}

/// How long the till may verify operators locally before it must reach the platform again.
/// Zero means offline verification is not permitted at all.
#[derive(Debug, Clone, Copy, PartialEq, Eq, Hash)]
pub struct OfflineWindow {
    hours: u64,
}

impl OfflineWindow {
    #[verifier::type_invariant]
    spec fn in_range(self) -> bool {
        self.hours <= i32::MAX
    }

    /// The window in whole hours.
    pub closed spec fn hour_count(self) -> nat {
        self.hours as nat
    }

    /// Builds an offline window from the configured hour count, rejecting a negative one.
    pub fn from_hours(hours: i32) -> (r: Result<OfflineWindow, PinPolicyError>)
        ensures
            hours < 0 <==> r == Err::<OfflineWindow, PinPolicyError>(
                PinPolicyError::NegativeOfflineWindow { hours },
            ),
            hours >= 0 ==> r is Ok,
            r matches Ok(w) ==> w.hour_count() == hours,
    {
        if hours < 0 {
            Err(PinPolicyError::NegativeOfflineWindow { hours })
        } else {
            Ok(OfflineWindow { hours: hours as u64 })
        }
    }

    /// The window as a duration of `hours * 3600` seconds.
    pub fn as_duration(self) -> (d: core::time::Duration)
        ensures
            d == duration_of_seconds((self.hour_count() * 3600) as u64),
    {
        proof {
            use_type_invariant(&self);
        }
        duration_from_secs(self.hours * 3600)
    }

    /// The window in whole hours, as it was configured.
    pub fn as_hours(self) -> (h: u64)
        ensures
            h == self.hour_count(),
    {
        self.hours
    }
}

/// How long a lockout stands as the tenant advertises it: a figure to state, never a timer.
#[derive(Debug, Clone, Copy, PartialEq, Eq, Hash)]
pub struct LockoutPeriod {
    minutes: u64,
}

impl LockoutPeriod {
    /// The period in whole minutes.
    pub closed spec fn minute_count(self) -> nat {
        self.minutes as nat
    }

    /// Builds a lockout period from the configured minute count, rejecting a negative one.
    pub fn from_minutes(minutes: i32) -> (r: Result<LockoutPeriod, PinPolicyError>)
        ensures
            minutes < 0 <==> r == Err::<LockoutPeriod, PinPolicyError>(
                PinPolicyError::NegativeLockoutPeriod { minutes },
            ),
            minutes >= 0 ==> r is Ok,
            r matches Ok(p) ==> p.minute_count() == minutes,
    {
        if minutes < 0 {
            Err(PinPolicyError::NegativeLockoutPeriod { minutes })
        } else {
            Ok(LockoutPeriod { minutes: minutes as u64 })
        }
    }

    /// The period in whole minutes, to put in front of a person or into a report.
    pub fn minutes_to_state(self) -> (m: u64)
        ensures
            m == self.minute_count(),
    {
        self.minutes
    }
}

/// How long a verified operator session lives; at least an hour.
#[derive(Debug, Clone, Copy, PartialEq, Eq, Hash)]
pub struct SessionLifetime {
    hours: u64,
}

impl SessionLifetime {
    #[verifier::type_invariant]
    spec fn in_range(self) -> bool {
        1 <= self.hours <= i32::MAX
    }

    /// The lifetime in whole hours.
    pub closed spec fn hour_count(self) -> nat {
        self.hours as nat
    }

    /// Builds a session lifetime from the configured hour count, rejecting zero and below.
    pub fn from_hours(hours: i32) -> (r: Result<SessionLifetime, PinPolicyError>)
        ensures
            hours <= 0 <==> r == Err::<SessionLifetime, PinPolicyError>(
                PinPolicyError::UnusableSessionLifetime { hours },
            ),
            hours > 0 ==> r is Ok,
            r matches Ok(l) ==> l.hour_count() == hours,
    {
        if hours <= 0 {
            Err(PinPolicyError::UnusableSessionLifetime { hours })
        } else {
            Ok(SessionLifetime { hours: hours as u64 })
        }
    }

    /// The lifetime as a duration of `hours * 3600` seconds.
    pub fn as_duration(self) -> (d: core::time::Duration)
        ensures
            d == duration_of_seconds((self.hour_count() * 3600) as u64),
    {
        proof {
            use_type_invariant(&self);
        }
        duration_from_secs(self.hours * 3600)
    }

    /// The lifetime in whole hours, as it was configured.
    pub fn as_hours(self) -> (h: u64)
        ensures
            h == self.hour_count(),
            h >= 1,
    {
        proof {
            use_type_invariant(&self);
        }
        self.hours
    }
}

// ============================================================================
// PinPolicy
// ============================================================================

/// The tenant's rules for PIN entry, carried with the terminal session.
#[derive(Debug, Clone, Copy, PartialEq, Eq, Hash)]
pub struct PinPolicy {
    length: RequiredPinLength,
    max_attempts: MaxAttempts,
    lockout_period: LockoutPeriod,
    session_lifetime: SessionLifetime,
    offline_window: OfflineWindow,
}

impl PinPolicy {
    /// The length rule.
    pub closed spec fn spec_length(self) -> RequiredPinLength {
        self.length
    }

    /// The retry budget.
    pub closed spec fn spec_max_attempts(self) -> MaxAttempts {
        self.max_attempts
    }

    /// The lockout period.
    pub closed spec fn spec_lockout_period(self) -> LockoutPeriod {
        self.lockout_period
    }

    /// The session lifetime.
    pub closed spec fn spec_session_lifetime(self) -> SessionLifetime {
        self.session_lifetime
    }

    /// The offline window.
    pub closed spec fn spec_offline_window(self) -> OfflineWindow {
        self.offline_window
    }

    /// Assembles a policy from its five decided parts.
    pub fn new(
        length: RequiredPinLength,
        max_attempts: MaxAttempts,
        lockout_period: LockoutPeriod,
        session_lifetime: SessionLifetime,
        offline_window: OfflineWindow,
    ) -> (p: PinPolicy)
        ensures
            p.spec_length() == length,
            p.spec_max_attempts() == max_attempts,
            p.spec_lockout_period() == lockout_period,
            p.spec_session_lifetime() == session_lifetime,
            p.spec_offline_window() == offline_window,
    {
        PinPolicy { length, max_attempts, lockout_period, session_lifetime, offline_window }
    }

    /// What this tenant requires of a new PIN; never consulted when a PIN is presented.
    pub fn length(self) -> (l: RequiredPinLength)
        ensures
            l == self.spec_length(),
    {
        self.length
    }

    /// How many wrong entries an operator gets before the account locks.
    pub fn max_attempts(self) -> (m: MaxAttempts)
        ensures
            m == self.spec_max_attempts(),
    {
        self.max_attempts
    }

    /// How long a lockout stands, to say and to report.
    pub fn lockout_period(self) -> (p: LockoutPeriod)
        ensures
            p == self.spec_lockout_period(),
    {
        self.lockout_period
    }

    /// How long a verified operator session lives.
    pub fn session_lifetime(self) -> (l: SessionLifetime)
        ensures
            l == self.spec_session_lifetime(),
    {
        self.session_lifetime
    }

    /// How long the till may verify locally before it must reach the platform.
    pub fn offline_window(self) -> (w: OfflineWindow)
        ensures
            w == self.spec_offline_window(),
    {
        self.offline_window
    }
}

// ============================================================================
// Pin
// ============================================================================

/// The shape the platform accepts from anybody: 4 to 6 characters, every one an ASCII digit.
pub open spec fn is_pin_shaped(s: Seq<char>) -> bool {
    4 <= s.len() <= 6 && forall|i: int| 0 <= i < s.len() ==> #[trigger] is_ascii_digit_char(s[i])
}

/// What [`Pin::parse`] answers for an entered string.
pub open spec fn pin_parse_outcome(s: Seq<char>) -> Result<(), PinFormatError> {
    if exists|i: int| 0 <= i < s.len() && !#[trigger] is_ascii_digit_char(s[i]) {
        Err(PinFormatError::NotNumeric)
    } else if !(4 <= s.len() <= 6) {
        Err(PinFormatError::LengthOutOfRange { actual: s.len() as usize })
    } else {
        Ok(())
    }
}

/// An operator's PIN, held in a buffer that is wiped when it is dropped.
pub struct Pin {
    digits: SealedText,
}

impl Pin {
    #[verifier::type_invariant]
    spec fn shaped(self) -> bool {
        is_pin_shaped(sealed_text(self.digits))
    }

    /// The digits of this PIN.
    pub closed spec fn spec_digits(self) -> Seq<char> {
        sealed_text(self.digits)
    }

    /// Parses an entered PIN for shape only: ASCII digits, and a count between 4 and 6. A
    /// non-digit anywhere is reported before the count.
    pub fn parse(raw: &str) -> (r: Result<Pin, PinFormatError>)
        ensures
            r matches Ok(p) ==> p.spec_digits() == raw@,
            r matches Err(e) ==> pin_parse_outcome(raw@) == Err::<(), PinFormatError>(e),
            r is Ok <==> pin_parse_outcome(raw@) is Ok,
    {
        let n = raw.unicode_len();
        let mut i: usize = 0;
        while i < n
            invariant
                n == raw@.len(),
                i <= n,
                forall|j: int| 0 <= j < i ==> #[trigger] is_ascii_digit_char(raw@[j]),
            decreases n - i,
        {
            let c = raw.get_char(i);
            if !('0' <= c && c <= '9') {
                assert(!is_ascii_digit_char(raw@[i as int]));
                return Err(PinFormatError::NotNumeric);
            }
            i = i + 1;
        }
        if n < 4 || n > 6 {
            return Err(PinFormatError::LengthOutOfRange { actual: n });
        }
        let digits = seal_text(owned(raw));
        Ok(Pin { digits })
    }

    /// The digits, for the one caller that must hash them.
    pub fn expose_digits(&self) -> (s: &str)
        ensures
            s@ == self.spec_digits(),
    {
        open_text(&self.digits)
    }

    /// How many digits this PIN has: between 4 and 6.
    pub fn length(&self) -> (n: usize)
        ensures
            n == self.spec_digits().len(),
            4 <= n <= 6,
    {
        proof {
            use_type_invariant(self);
        }
        open_text(&self.digits).unicode_len()
    }

    /// What a log may say about a PIN: a fixed redaction that does not follow its length.
    pub fn redacted(&self) -> (s: String)
        ensures
            s@ == "Pin(****)"@,
    {
        owned("Pin(****)")
    }
}

// ============================================================================
// Digit and EnteredDigits
// ============================================================================

/// One decimal digit, 0 to 9.
#[derive(Debug, Clone, Copy, PartialEq, Eq, Hash)]
pub struct Digit {
    value: u8,
}

impl Digit {
    #[verifier::type_invariant]
    spec fn decimal(self) -> bool {
        self.value <= 9
    }

    /// The value of this digit.
    pub closed spec fn spec_value(self) -> u8 {
        self.value
    }

    /// Reads a decimal digit; `None` for anything above nine.
    pub fn new(value: u8) -> (r: Option<Digit>)
        ensures
            r is Some <==> value <= 9,
            r matches Some(d) ==> d.spec_value() == value,
    {
        if value <= 9 {
            Some(Digit { value })
        } else {
            None
        }
    }

    /// The value, 0 to 9.
    pub fn value(self) -> (v: u8)
        ensures
            v == self.spec_value(),
            v <= 9,
    {
        proof {
            use_type_invariant(&self);
        }
        self.value
    }

    /// The ASCII byte for this digit, in `b'0'..=b'9'`.
    pub fn as_ascii(self) -> (b: u8)
        ensures
            b == 48 + self.spec_value(),
            48 <= b <= 57,
    {
        proof {
            use_type_invariant(&self);
        }
        48u8 + self.value
    }
}

/// The digits a cashier has typed so far, in a buffer allocated once at six bytes and wiped when
/// it is cleared or dropped. A press past six digits is ignored.
pub struct EnteredDigits {
    digits: SealedBytes,
}

/// Every byte is an ASCII digit.
pub open spec fn digit_bytes(b: Seq<u8>) -> bool {
    forall|i: int| 0 <= i < b.len() ==> 48 <= #[trigger] b[i] <= 57
}

impl EnteredDigits {
    #[verifier::type_invariant]
    spec fn bounded(self) -> bool {
        sealed_bytes(self.digits).len() <= 6 && digit_bytes(sealed_bytes(self.digits))
    }

    /// The ASCII digits typed so far.
    pub closed spec fn typed(self) -> Seq<u8> {
        sealed_bytes(self.digits)
    }

    /// An empty buffer, allocated once at the largest PIN the platform accepts.
    pub fn empty() -> (e: EnteredDigits)
        ensures
            e.typed() == Seq::<u8>::empty(),
    {
        EnteredDigits { digits: sealed_empty_bytes(6) }
    }

    /// Appends a digit, or does nothing if six are already entered.
    pub fn push(&mut self, digit: Digit)
        ensures
            old(self).typed().len() < 6 ==> final(self).typed() == old(self).typed().push(
                (48 + digit.spec_value()) as u8,
            ),
            old(self).typed().len() >= 6 ==> final(self).typed() == old(self).typed(),
    {
        proof {
            use_type_invariant(&*self);
        }
        if sealed_len(&self.digits) < 6 {
            let b = digit.as_ascii();
            sealed_push(&mut self.digits, b);
            assert(digit_bytes(sealed_bytes(self.digits)));
        }
    }

    /// Removes the last digit, wiping the byte it leaves behind; nothing on an empty buffer.
    pub fn backspace(&mut self)
        ensures
            old(self).typed().len() > 0 ==> final(self).typed() == old(self).typed().drop_last(),
            old(self).typed().len() == 0 ==> final(self).typed() == old(self).typed(),
    {
        proof {
            use_type_invariant(&*self);
        }
        sealed_pop_and_wipe(&mut self.digits);
    }

    /// Empties the buffer, wiping every byte.
    pub fn clear(&mut self)
        ensures
            final(self).typed() == Seq::<u8>::empty(),
    {
        sealed_wipe(&mut self.digits);
    }

    /// How many digits have been entered.
    pub fn len(&self) -> (n: usize)
        ensures
            n == self.typed().len(),
            n <= 6,
    {
        proof {
            use_type_invariant(self);
        }
        sealed_len(&self.digits)
    }

    /// Whether nothing has been entered yet.
    pub fn is_empty(&self) -> (b: bool)
        ensures
            b == (self.typed().len() == 0),
    {
        sealed_len(&self.digits) == 0
    }

    /// Builds the [`Pin`] from what was typed, checked by [`Pin::parse`].
    pub fn finish(&self) -> (r: Result<Pin, PinFormatError>)
        ensures
            r matches Ok(p) ==> p.spec_digits() == bytes_as_chars(self.typed()),
            r is Ok <==> 4 <= self.typed().len(),
            r is Err ==> r == Err::<Pin, PinFormatError>(
                PinFormatError::LengthOutOfRange { actual: self.typed().len() as usize },
            ),
    {
        proof {
            use_type_invariant(self);
            assert(ascii_bytes(sealed_bytes(self.digits)));
        }
        match sealed_bytes_as_str(&self.digits) {
            Some(entered) => {
                proof {
                    let s = entered@;
                    assert forall|i: int| 0 <= i < s.len() implies #[trigger] is_ascii_digit_char(
                        s[i],
                    ) by {
                        assert(48 <= self.typed()[i] <= 57);
                    }
                }
                Pin::parse(entered)
            },
            None => Err(PinFormatError::NotNumeric),
        }
    }

    /// What a log may say about the buffer: a fixed redaction that does not follow its length.
    pub fn redacted(&self) -> (s: String)
        ensures
            s@ == "EnteredDigits(****)"@,
    {
        owned("EnteredDigits(****)")
    }
}

} // verus!
