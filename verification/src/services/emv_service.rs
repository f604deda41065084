//! Card payments through the EMV terminal: the results a payment ends in, the terminal's
//! status, and the scripted exchange the simulated terminal plays.
use vstd::prelude::*;

use crate::text::{append_padded, append_str, is_ascii_digit_char, nat_text, nat_to_text, owned, padded_text};
use crate::time::{now, rfc3339_text, UtcInstant};

verus! {

/// How a card payment ended.
#[derive(Clone, Debug, PartialEq, Eq)]
pub struct CardPaymentResult {
    /// Whether the payment was approved.
    pub success: bool,
    /// The card's scheme.
    pub card_type: Option<String>,
    /// The card's last four digits.
    pub last_four: Option<String>,
    /// The authorisation code.
    pub auth_code: Option<String>,
    /// The acquirer's transaction.
    pub transaction_id: Option<String>,
    /// Why it failed.
    pub error_message: Option<String>,
    /// The ISO 8583 response code.
    pub response_code: Option<String>,
    /// The masked card number.
    pub masked_pan: Option<String>,
    /// The cardholder.
    pub cardholder_name: Option<String>,
    /// The card application's label.
    pub application_label: Option<String>,
    /// The application cryptogram.
    pub cryptogram: Option<String>,
    /// When it ended, RFC 3339.
    pub timestamp: Option<String>,
}

impl Default for CardPaymentResult {
    fn default() -> (r: CardPaymentResult)
        ensures
            !r.success && r.card_type is None && r.last_four is None && r.auth_code is None,
            r.transaction_id is None && r.error_message is None && r.response_code is None,
            r.masked_pan is None && r.cardholder_name is None && r.application_label is None,
            r.cryptogram is None && r.timestamp is None,
    {
        CardPaymentResult {
            success: false,
            card_type: None,
            last_four: None,
            auth_code: None,
            transaction_id: None,
            error_message: None,
            response_code: None,
            masked_pan: None,
            cardholder_name: None,
            application_label: None,
            cryptogram: None,
            timestamp: None,
        }
    }
}

/// The current time as a result's timestamp.
fn timestamp_now() -> (t: Option<String>)
    ensures
        t matches Some(s) && exists|at: UtcInstant| rfc3339_text(at) == Some(s@),
{
    let at = now();
    let t = at.to_rfc3339();
    assert(rfc3339_text(at) == Some(t->0@));
    t
}

impl CardPaymentResult {
    /// An approved payment, with the standard approval code `00`.
    pub fn approved(card_type: &str, last_four: &str, auth_code: &str, transaction_id: &str) -> (r:
        CardPaymentResult)
        ensures
            r.success,
            r.card_type matches Some(c) && c@ == card_type@,
            r.last_four matches Some(c) && c@ == last_four@,
            r.auth_code matches Some(c) && c@ == auth_code@,
            r.transaction_id matches Some(c) && c@ == transaction_id@,
            r.response_code matches Some(c) && c@ == "00"@,
            r.timestamp is Some && r.error_message is None,
            r.masked_pan is None && r.cardholder_name is None,
            r.application_label is None && r.cryptogram is None,
    {
        CardPaymentResult {
            success: true,
            card_type: Some(owned(card_type)),
            last_four: Some(owned(last_four)),
            auth_code: Some(owned(auth_code)),
            transaction_id: Some(owned(transaction_id)),
            error_message: None,
            response_code: Some(owned("00")),
            masked_pan: None,
            cardholder_name: None,
            application_label: None,
            cryptogram: None,
            timestamp: timestamp_now(),
        }
    }

    /// A declined payment, with the issuer's response code.
    pub fn declined(error_message: &str, response_code: &str) -> (r: CardPaymentResult)
        ensures
            !r.success,
            r.error_message matches Some(e) && e@ == error_message@,
            r.response_code matches Some(c) && c@ == response_code@,
            r.timestamp is Some && r.card_type is None && r.last_four is None,
            r.auth_code is None && r.transaction_id is None,
    {
        CardPaymentResult {
            success: false,
            card_type: None,
            last_four: None,
            auth_code: None,
            transaction_id: None,
            error_message: Some(owned(error_message)),
            response_code: Some(owned(response_code)),
            masked_pan: None,
            cardholder_name: None,
            application_label: None,
            cryptogram: None,
            timestamp: timestamp_now(),
        }
    }

    /// A payment that failed before the issuer answered.
    pub fn error(error_message: &str) -> (r: CardPaymentResult)
        ensures
            !r.success,
            r.error_message matches Some(e) && e@ == error_message@,
            r.response_code is None && r.timestamp is Some,
            r.card_type is None && r.auth_code is None && r.transaction_id is None,
    {
        CardPaymentResult {
            success: false,
            card_type: None,
            last_four: None,
            auth_code: None,
            transaction_id: None,
            error_message: Some(owned(error_message)),
            response_code: None,
            masked_pan: None,
            cardholder_name: None,
            application_label: None,
            cryptogram: None,
            timestamp: timestamp_now(),
        }
    }
}

/// What the terminal reports while a payment runs.
#[derive(Clone, Debug, PartialEq, Eq)]
pub enum EmvEvent {
    /// Present a card.
    WaitingForCard,
    /// A card was inserted.
    CardInserted,
    /// Reading the card.
    ReadingCard,
    /// Talking to the issuer.
    Processing,
    /// The cardholder must enter their PIN.
    PinRequired,
    /// The PIN was entered.
    PinEntered,
    /// Approved.
    Approved(CardPaymentResult),
    /// Declined, with the reason.
    Declined(String),
    /// Failed, with the reason.
    Error(String),
    /// Cancelled.
    Cancelled,
    /// The card was removed too soon.
    CardRemovedEarly,
    /// A contactless card was detected.
    ContactlessDetected,
    /// The cardholder must sign.
    SignatureRequired,
    /// Remove the card.
    RemoveCard,
}

/// The terminal's connection status.
#[derive(Clone, Debug, PartialEq, Eq)]
pub enum TerminalStatus {
    /// Not connected.
    Disconnected,
    /// Connecting.
    Connecting,
    /// Ready for a payment.
    Ready,
    /// A payment is running.
    Busy,
    /// Failed, with the reason.
    Error(String),
}

/// The EMV terminal, or its simulation.
#[derive(Debug)]
pub struct EmvService {
    status: TerminalStatus,
    simulation_mode: bool,
    simulation_delay_ms: u64,
}

/// One step of a scripted exchange: an event, and how long to wait after it.
#[derive(Clone, Debug, PartialEq, Eq)]
pub struct ScriptStep {
    /// What to report.
    pub event: EmvEvent,
    /// Milliseconds to wait afterwards.
    pub pause_ms: u64,
}

/// What starting a payment does.
#[derive(Clone, Debug, PartialEq, Eq)]
pub enum PaymentStart {
    /// Refuse at once: report the event and end with the result.
    Refuse(EmvEvent, CardPaymentResult),
    /// Play the simulated exchange.
    Simulate,
}

impl EmvService {
    /// The status.
    pub closed spec fn spec_status(self) -> TerminalStatus {
        self.status
    }

    /// Whether payments are simulated.
    pub closed spec fn spec_simulation(self) -> bool {
        self.simulation_mode
    }

    /// The simulation's pause between steps.
    pub closed spec fn spec_delay(self) -> u64 {
        self.simulation_delay_ms
    }

    /// A simulated terminal, ready, pausing 1.5 s between steps.
    pub fn new() -> (s: EmvService)
        ensures
            s.spec_status() == TerminalStatus::Ready && s.spec_simulation() && s.spec_delay() == 1500,
    {
        EmvService { status: TerminalStatus::Ready, simulation_mode: true, simulation_delay_ms: 1500 }
    }

    /// A simulated terminal, ready, pausing `delay_ms` between steps.
    pub fn with_simulation(delay_ms: u64) -> (s: EmvService)
        ensures
            s.spec_status() == TerminalStatus::Ready && s.spec_simulation() && s.spec_delay()
                == delay_ms,
    {
        EmvService {
            status: TerminalStatus::Ready,
            simulation_mode: true,
            simulation_delay_ms: delay_ms,
        }
    }

    /// Whether the terminal is ready for a payment.
    pub fn is_ready(&self) -> (b: bool)
        ensures
            b == (self.spec_status() == TerminalStatus::Ready),
    {
        match self.status {
            TerminalStatus::Ready => true,
            _ => false,
        }
    }

    /// The status.
    pub fn get_status(&self) -> (s: &TerminalStatus)
        ensures
            *s == self.spec_status(),
    {
        &self.status
    }

    /// Whether payments are simulated.
    pub fn simulation_mode(&self) -> (b: bool)
        ensures
            b == self.spec_simulation(),
    {
        self.simulation_mode
    }

    /// The simulation's pause between steps, in milliseconds.
    pub fn simulation_delay_ms(&self) -> (d: u64)
        ensures
            d == self.spec_delay(),
    {
        self.simulation_delay_ms
    }

    /// Checks the connection: a simulated terminal is always ready.
    pub fn check_connection(&mut self) -> (b: bool)
        ensures
            old(self).spec_simulation() ==> b && final(self).spec_status() == TerminalStatus::Ready,
            !old(self).spec_simulation() ==> final(self).spec_status() == old(self).spec_status()
                && b == (old(self).spec_status() == TerminalStatus::Ready),
            final(self).spec_simulation() == old(self).spec_simulation(),
            final(self).spec_delay() == old(self).spec_delay(),
    {
        if self.simulation_mode {
            self.status = TerminalStatus::Ready;
            return true;
        }
        self.is_ready()
    }

    /// How a payment starts: an amount that is not positive is refused; a real terminal is
    /// not configured; a simulated one plays its script.
    pub fn start_payment(&self, amount_is_positive: bool) -> (p: PaymentStart)
        ensures
            !amount_is_positive ==> refuses_with(p, "Invalid amount"@, "Invalid payment amount"@),
            amount_is_positive && self.spec_simulation() ==> p is Simulate,
            amount_is_positive && !self.spec_simulation() ==> refuses_with(
                p,
                "EMV terminal not configured"@,
                "EMV terminal not configured"@,
            ),
    {
        if !amount_is_positive {
            return PaymentStart::Refuse(
                EmvEvent::Error(owned("Invalid amount")),
                CardPaymentResult::error("Invalid payment amount"),
            );
        }
        if self.simulation_mode {
            return PaymentStart::Simulate;
        }
        PaymentStart::Refuse(
            EmvEvent::Error(owned("EMV terminal not configured")),
            CardPaymentResult::error("EMV terminal not configured"),
        )
    }
}

impl Default for EmvService {
    fn default() -> (s: EmvService)
        ensures
            s.spec_status() == TerminalStatus::Ready && s.spec_simulation() && s.spec_delay() == 1500,
    {
        EmvService::new()
    }
}


/// The start refuses, reporting an error event with `event_text` and ending in a failed
/// result whose message is `error_text`.
pub open spec fn refuses_with(p: PaymentStart, event_text: Seq<char>, error_text: Seq<char>) -> bool {
    match p {
        PaymentStart::Refuse(EmvEvent::Error(m), r) => m@ == event_text && !r.success && (
        r.error_message matches Some(x) && x@ == error_text),
        _ => false,
    }
}

/// The simulated approval's exchange before its result: waiting, inserted, reading,
/// processing, PIN required, PIN entered, processing, with the configured pause after each
/// but the insertion (half a second), the read (0.8 s) and the PIN entry (half a second).
pub fn approval_script(delay_ms: u64) -> (steps: Vec<ScriptStep>)
    ensures
        steps@.len() == 7,
        steps@[0] == (ScriptStep { event: EmvEvent::WaitingForCard, pause_ms: delay_ms }),
        steps@[1] == (ScriptStep { event: EmvEvent::CardInserted, pause_ms: 500 }),
        steps@[2] == (ScriptStep { event: EmvEvent::ReadingCard, pause_ms: 800 }),
        steps@[3] == (ScriptStep { event: EmvEvent::Processing, pause_ms: delay_ms }),
        steps@[4] == (ScriptStep { event: EmvEvent::PinRequired, pause_ms: delay_ms }),
        steps@[5] == (ScriptStep { event: EmvEvent::PinEntered, pause_ms: 500 }),
        steps@[6] == (ScriptStep { event: EmvEvent::Processing, pause_ms: delay_ms }),
{
    let mut steps: Vec<ScriptStep> = Vec::new();
    steps.push(ScriptStep { event: EmvEvent::WaitingForCard, pause_ms: delay_ms });
    steps.push(ScriptStep { event: EmvEvent::CardInserted, pause_ms: 500 });
    steps.push(ScriptStep { event: EmvEvent::ReadingCard, pause_ms: 800 });
    steps.push(ScriptStep { event: EmvEvent::Processing, pause_ms: delay_ms });
    steps.push(ScriptStep { event: EmvEvent::PinRequired, pause_ms: delay_ms });
    steps.push(ScriptStep { event: EmvEvent::PinEntered, pause_ms: 500 });
    steps.push(ScriptStep { event: EmvEvent::Processing, pause_ms: delay_ms });
    steps
}

/// The simulated approval: a Visa card ending 4242, the authorisation code padded to six
/// digits, the transaction `TXN` and its identifier, approval code `00`.
pub fn simulated_approval(auth_code: u32, txn_id: &str) -> (r: CardPaymentResult)
    ensures
        r.success,
        r.card_type matches Some(c) && c@ == "visa"@,
        r.last_four matches Some(c) && c@ == "4242"@,
        r.auth_code matches Some(c) && c@ == padded_text(auth_code as nat, 6),
        r.transaction_id matches Some(c) && c@ == "TXN"@ + txn_id@,
        r.response_code matches Some(c) && c@ == "00"@,
        r.masked_pan matches Some(c) && c@ == "************4242"@,
        r.application_label matches Some(c) && c@ == "VISA CREDIT"@,
        r.cardholder_name is None && r.cryptogram is None && r.error_message is None,
        r.timestamp is Some,
{
    let mut code = String::new();
    append_padded(&mut code, auth_code as u64, 6);
    let mut txn = owned("TXN");
    append_str(&mut txn, txn_id);
    CardPaymentResult {
        success: true,
        card_type: Some(owned("visa")),
        last_four: Some(owned("4242")),
        auth_code: Some(code),
        transaction_id: Some(txn),
        error_message: None,
        response_code: Some(owned("00")),
        masked_pan: Some(owned("************4242")),
        cardholder_name: None,
        application_label: Some(owned("VISA CREDIT")),
        cryptogram: None,
        timestamp: timestamp_now(),
    }
}

/// The simulated decline's exchange: waiting, inserted, processing; the result carries
/// response code `05` (do not honour).
pub fn decline_script(delay_ms: u64, reason: &str) -> (r: (Vec<ScriptStep>, EmvEvent, CardPaymentResult))
    ensures
        r.0@.len() == 3,
        r.0@[0] == (ScriptStep { event: EmvEvent::WaitingForCard, pause_ms: delay_ms }),
        r.0@[1] == (ScriptStep { event: EmvEvent::CardInserted, pause_ms: 500 }),
        r.0@[2] == (ScriptStep { event: EmvEvent::Processing, pause_ms: delay_ms }),
        r.1 matches EmvEvent::Declined(m) && m@ == reason@,
        !r.2.success && (r.2.response_code matches Some(c) && c@ == "05"@),
        r.2.error_message matches Some(e) && e@ == reason@,
{
    let mut steps: Vec<ScriptStep> = Vec::new();
    steps.push(ScriptStep { event: EmvEvent::WaitingForCard, pause_ms: delay_ms });
    steps.push(ScriptStep { event: EmvEvent::CardInserted, pause_ms: 500 });
    steps.push(ScriptStep { event: EmvEvent::Processing, pause_ms: delay_ms });
    (steps, EmvEvent::Declined(owned(reason)), CardPaymentResult::declined(reason, "05"))
}

/// The simulated failure's exchange: waiting, then the error.
pub fn error_script(delay_ms: u64, error: &str) -> (r: (Vec<ScriptStep>, EmvEvent, CardPaymentResult))
    ensures
        r.0@.len() == 1,
        r.0@[0] == (ScriptStep { event: EmvEvent::WaitingForCard, pause_ms: delay_ms }),
        r.1 matches EmvEvent::Error(m) && m@ == error@,
        !r.2.success && (r.2.error_message matches Some(e) && e@ == error@),
{
    let mut steps: Vec<ScriptStep> = Vec::new();
    steps.push(ScriptStep { event: EmvEvent::WaitingForCard, pause_ms: delay_ms });
    (steps, EmvEvent::Error(owned(error)), CardPaymentResult::error(error))
}

/// `std::time::SystemTime::now()`'s nanoseconds since the epoch, truncated to 32 bits.
/// Nothing is stated of it: it is the machine's clock.
#[verifier::external_body]
fn clock_nanos_u32() -> (n: u32) {
    std::time::SystemTime::now().duration_since(std::time::UNIX_EPOCH).unwrap_or_default().as_nanos() as u32
}

/// `std::time::SystemTime::now()`'s milliseconds since the epoch, truncated to 64 bits.
/// Nothing is stated of it: it is the machine's clock.
#[verifier::external_body]
fn clock_millis() -> (n: u64) {
    std::time::SystemTime::now().duration_since(std::time::UNIX_EPOCH).unwrap_or_default().as_millis() as u64
}

/// A six-digit authorisation code from a seed: `100000` plus the seed modulo `900000`.
pub fn auth_code_from_seed(seed: u32) -> (c: u32)
    ensures
        c == 100000 + seed % 900000,
        100000 <= c <= 999999,
{
    (seed % 900000) + 100000
}

/// A six-digit authorisation code, seeded by the clock.
pub fn rand_auth_code() -> (c: u32)
    ensures
        100000 <= c <= 999999,
{
    auth_code_from_seed(clock_nanos_u32())
}

/// A transaction identifier: the clock's milliseconds modulo ten billion, in decimal.
pub fn generate_txn_id() -> (s: String)
    ensures
        s@.len() > 0,
        forall|i: int| 0 <= i < s@.len() ==> is_ascii_digit_char(#[trigger] s@[i]),
{
    let ms = clock_millis();
    let t = nat_to_text(ms % 10_000_000_000);
    proof {
        lemma_nat_text_digits((ms % 10_000_000_000) as nat);
    }
    t
}

/// Every character of a number's decimal text is a digit, and there is at least one.
pub proof fn lemma_nat_text_digits(n: nat)
    ensures
        nat_text(n).len() > 0,
        forall|i: int| 0 <= i < nat_text(n).len() ==> is_ascii_digit_char(#[trigger] nat_text(n)[i]),
    decreases n,
{
    if n >= 10 {
        lemma_nat_text_digits(n / 10);
        let d = (n % 10) as nat;
        assert(is_ascii_digit_char(crate::text::digit_char(d)));
        assert forall|i: int| 0 <= i < nat_text(n).len() implies is_ascii_digit_char(
            #[trigger] nat_text(n)[i],
        ) by {
            if i < nat_text(n / 10).len() {
                assert(nat_text(n)[i] == nat_text(n / 10)[i]);
            } else {
                assert(nat_text(n)[i] == crate::text::digit_char(d));
            }
        }
    } else {
        assert(is_ascii_digit_char(crate::text::digit_char(n)));
        assert(nat_text(n) =~= seq![crate::text::digit_char(n)]);
    }
}

} // verus!
