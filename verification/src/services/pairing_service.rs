//! Pairing: how the terminal's registration row reads, what a completed pairing asks the
//! terminal to do next, and the terminal's identifiers and server address.
use vstd::prelude::*;

use crate::models::enrolment::HardwareEnrolment;
use crate::fields::{parse_u64, parsed_u64, second_field, second_field_of, second_piece, second_piece_of, starts_with, trim, trimmed_text};
use crate::text::{append_str, owned, push_char, starts_with_text};
use crate::time::UtcInstant;

verus! {

/// The server address used when none is configured.
pub const DEFAULT_SERVER_URL: &'static str = "https://jooher.app";

/// Whether this terminal is enrolled, and under what identity.
#[derive(Debug, Clone, PartialEq, Eq)]
pub enum TerminalRegistration {
    /// Not enrolled; the hardware identity, once one has been generated.
    Unenrolled {
        /// The hardware identity.
        hardware_id: Option<String>,
    },
    /// Enrolled: the credential and identifiers the platform issued.
    Enrolled {
        /// The hardware identity.
        hardware_id: String,
        /// The terminal.
        terminal_id: String,
        /// Its code.
        terminal_code: String,
        /// Its secret.
        secret: String,
        /// The company, when known.
        company_name: Option<String>,
        /// When it was enrolled.
        registered_at: Option<String>,
    },
}

/// The registration row's columns, each nullable.
#[derive(Debug, Clone)]
pub struct RegistrationRow {
    /// `hardware_id`.
    pub hardware_id: Option<String>,
    /// `terminal_id`.
    pub terminal_id: Option<String>,
    /// `terminal_code`.
    pub terminal_code: Option<String>,
    /// `secret`.
    pub secret: Option<String>,
    /// `company_name`.
    pub company_name: Option<String>,
    /// Whether `is_registered` is `1`.
    pub is_registered: bool,
    /// `registered_at`.
    pub registered_at: Option<String>,
}

/// A column's value, with an empty one read as absent.
pub open spec fn stored_spec(v: Option<String>) -> Option<Seq<char>> {
    match v {
        Some(s) => if s@.len() == 0 {
            None
        } else {
            Some(s@)
        },
        None => None,
    }
}

/// A column's value, with an empty one read as absent.
pub fn stored(value: Option<String>) -> (r: Option<String>)
    ensures
        r is None <==> stored_spec(value) is None,
        r matches Some(s) ==> stored_spec(value) == Some(s@),
{
    match value {
        Some(v) => if v.as_str().unicode_len() == 0 {
            None
        } else {
            Some(v)
        },
        None => None,
    }
}

/// The names of the identity columns that are empty or null, in column order.
pub open spec fn missing_columns(row: RegistrationRow) -> Seq<Seq<char>> {
    let a = if stored_spec(row.hardware_id) is None {
        seq!["hardware_id"@]
    } else {
        Seq::empty()
    };
    let b = if stored_spec(row.terminal_id) is None {
        seq!["terminal_id"@]
    } else {
        Seq::empty()
    };
    let c = if stored_spec(row.terminal_code) is None {
        seq!["terminal_code"@]
    } else {
        Seq::empty()
    };
    let d = if stored_spec(row.secret) is None {
        seq!["secret"@]
    } else {
        Seq::empty()
    };
    a + b + c + d
}

/// `names` joined with `, `.
pub open spec fn joined(names: Seq<Seq<char>>) -> Seq<char>
    decreases names.len(),
{
    if names.len() == 0 {
        Seq::empty()
    } else if names.len() == 1 {
        names[0]
    } else {
        joined(names.drop_last()) + ", "@ + names.last()
    }
}

/// The refusal of an enrolled row that is missing part of its identity.
pub open spec fn incomplete_row_message(missing: Seq<Seq<char>>) -> Seq<char> {
    "the terminal_registration row is marked enrolled but "@ + (if missing.len() == 1 {
        missing[0] + " is"@
    } else {
        joined(missing) + " are"@
    })
        + " empty or NULL; an enrolled terminal holds the credential and identifiers the platform issued it, so nothing can be reported from this row without inventing one of them. Re-pair the terminal to replace the row"@
}

impl RegistrationRow {
    /// Reads the row. A row not marked enrolled is unenrolled, with whatever hardware identity
    /// it holds. A row marked enrolled must hold all four of its identity columns; otherwise it
    /// is refused, naming the missing ones, rather than reported with one invented.
    pub fn into_registration(self) -> (r: Result<TerminalRegistration, String>)
        ensures
            !self.is_registered ==> r is Ok && r->Ok_0 is Unenrolled && (match r->Ok_0 {
                TerminalRegistration::Unenrolled { hardware_id } => (hardware_id is None
                    <==> stored_spec(self.hardware_id) is None) && (hardware_id matches Some(h)
                    ==> stored_spec(self.hardware_id) == Some(h@)),
                _ => false,
            }),
            self.is_registered ==> (r is Ok <==> missing_columns(self).len() == 0),
            self.is_registered && r is Ok ==> (match r->Ok_0 {
                TerminalRegistration::Enrolled {
                    hardware_id,
                    terminal_id,
                    terminal_code,
                    secret,
                    company_name,
                    registered_at,
                } => stored_spec(self.hardware_id) == Some(hardware_id@) && stored_spec(
                    self.terminal_id,
                ) == Some(terminal_id@) && stored_spec(self.terminal_code) == Some(terminal_code@)
                    && stored_spec(self.secret) == Some(secret@) && (company_name is None
                    <==> stored_spec(self.company_name) is None) && (company_name matches Some(c)
                    ==> stored_spec(self.company_name) == Some(c@)) && (registered_at is None
                    <==> stored_spec(self.registered_at) is None) && (registered_at matches Some(t)
                    ==> stored_spec(self.registered_at) == Some(t@)),
                _ => false,
            }),
            self.is_registered && r is Err ==> r->Err_0@ == incomplete_row_message(
                missing_columns(self),
            ),
    {
        let ghost row = self;
        let hardware_id = stored(self.hardware_id);
        if !self.is_registered {
            return Ok(TerminalRegistration::Unenrolled { hardware_id });
        }
        let terminal_id = stored(self.terminal_id);
        let terminal_code = stored(self.terminal_code);
        let secret = stored(self.secret);
        let mut missing: Vec<&str> = Vec::new();
        if hardware_id.is_none() {
            missing.push("hardware_id");
        }
        if terminal_id.is_none() {
            missing.push("terminal_id");
        }
        if terminal_code.is_none() {
            missing.push("terminal_code");
        }
        if secret.is_none() {
            missing.push("secret");
        }
        let ghost names = missing@.map_values(|m: &str| m@);
        assert(names =~= missing_columns(row));
        match (hardware_id, terminal_id, terminal_code, secret) {
            (Some(hardware_id), Some(terminal_id), Some(terminal_code), Some(secret)) => {
                Ok(
                    TerminalRegistration::Enrolled {
                        hardware_id,
                        terminal_id,
                        terminal_code,
                        secret,
                        company_name: stored(self.company_name),
                        registered_at: stored(self.registered_at),
                    },
                )
            },
            _ => {
                let mut message = owned("the terminal_registration row is marked enrolled but ");
                if missing.len() == 1 {
                    append_str(&mut message, missing[0]);
                    append_str(&mut message, " is");
                } else {
                    let list = join_names(&missing);
                    append_str(&mut message, list.as_str());
                    append_str(&mut message, " are");
                }
                append_str(
                    &mut message,
                    " empty or NULL; an enrolled terminal holds the credential and identifiers the platform issued it, so nothing can be reported from this row without inventing one of them. Re-pair the terminal to replace the row",
                );
                Err(message)
            },
        }
    }
}

/// `names` joined with `, `.
fn join_names(names: &Vec<&str>) -> (s: String)
    ensures
        s@ == joined(names@.map_values(|m: &str| m@)),
{
    let ghost all = names@.map_values(|m: &str| m@);
    let mut s = String::new();
    let mut k: usize = 0;
    while k < names.len()
        invariant
            k <= names@.len(),
            all == names@.map_values(|m: &str| m@),
            s@ == joined(all.subrange(0, k as int)),
        decreases names@.len() - k,
    {
        let ghost prefix = all.subrange(0, k as int);
        let ghost next = all.subrange(0, k + 1);
        assert(next.drop_last() =~= prefix);
        if k > 0 {
            append_str(&mut s, ", ");
        }
        append_str(&mut s, names[k]);
        proof {
            if k == 0 {
                assert(next.len() == 1);
                assert(prefix.len() == 0);
                assert(joined(prefix) =~= Seq::<char>::empty());
                assert(s@ =~= next[0]);
            } else {
                assert(s@ =~= joined(prefix) + ", "@ + next.last());
            }
        }
        k = k + 1;
    }
    assert(all.subrange(0, names@.len() as int) =~= all);
    s
}

/// Whether the stored registration flag says enrolled: only a flag of exactly `1` does.
pub fn registered_from_flag(flag: Option<Option<i32>>) -> (b: bool)
    ensures
        b == (flag == Some(Some(1i32))),
{
    match flag {
        Some(Some(f)) => f == 1,
        _ => false,
    }
}

// ============================================================================
// Pairing
// ============================================================================

/// Where a pairing request stands on the platform.
#[derive(Debug, Clone, Copy, PartialEq, Eq, Structural)]
pub enum PairingStatus {
    /// Waiting for someone to approve the code.
    Pending,
    /// Approved: the terminal's identity has been issued.
    Completed,
    /// The code expired.
    Expired,
}

/// The identity a completed pairing issues.
#[derive(Debug, Clone)]
pub struct PairedTerminalInfo {
    /// The terminal.
    pub terminal_id: String,
    /// Its code.
    pub terminal_code: String,
    /// Its secret.
    pub secret: String,
    /// The company.
    pub company_name: Option<String>,
}

/// A pairing in progress, as the pairing screen shows it.
#[derive(Debug, Clone)]
pub struct PairingState {
    /// The code to approve.
    pub pairing_code: String,
    /// When it stops being valid.
    pub expires_at: UtcInstant,
    /// Where it stands.
    pub status: PairingStatus,
    /// This terminal's hardware identity.
    pub hardware_id: String,
    /// Whether approving it re-enrols hardware already in service.
    pub enrolment: HardwareEnrolment,
}

/// What a pairing status answer asks the terminal to do.
#[derive(Debug, Clone, Copy, PartialEq, Eq, Structural)]
pub enum PairingFollowUp {
    /// Nothing yet.
    Wait,
    /// Store the issued identity; there is no secret to log in with.
    SaveRegistration,
    /// Store the issued identity and log the terminal in with its secret.
    SaveRegistrationAndLogIn,
}

/// The follow-up a pairing status answer calls for: a completed pairing that carries the
/// issued identity is stored, and logged in when it carries a secret.
pub fn pairing_follow_up(status: PairingStatus, terminal: Option<&PairedTerminalInfo>) -> (f:
    PairingFollowUp)
    ensures
        !(status is Completed) || terminal is None ==> f == PairingFollowUp::Wait,
        status is Completed && terminal is Some && terminal->0.secret@.len() > 0 ==> f
            == PairingFollowUp::SaveRegistrationAndLogIn,
        status is Completed && terminal is Some && terminal->0.secret@.len() == 0 ==> f
            == PairingFollowUp::SaveRegistration,
{
    match (status, terminal) {
        (PairingStatus::Completed, Some(t)) => {
            if t.secret.as_str().unicode_len() > 0 {
                PairingFollowUp::SaveRegistrationAndLogIn
            } else {
                PairingFollowUp::SaveRegistration
            }
        },
        _ => PairingFollowUp::Wait,
    }
}

// ============================================================================
// Identifiers and the server address
// ============================================================================

/// The upper-case hexadecimal digit for `d < 16`.
pub open spec fn hex_digit(d: nat) -> char {
    if d < 10 {
        ((48 + d) as u32) as char
    } else {
        ((55 + d) as u32) as char
    }
}

/// `n` in upper-case hexadecimal, padded with zeros to `width` digits (the low `width`
/// digits).
pub open spec fn hex_text(n: nat, width: nat) -> Seq<char>
    decreases width,
{
    if width == 0 {
        Seq::empty()
    } else {
        hex_text(n / 16, (width - 1) as nat).push(hex_digit(n % 16))
    }
}

/// `prefix` followed by `n` as sixteen upper-case hexadecimal digits, as `{:016X}` writes it.
pub fn tagged_hex(prefix: &str, n: u64) -> (s: String)
    ensures
        s@ == prefix@ + hex_text(n as nat, 16),
{
    let mut digits: Vec<char> = Vec::new();
    let mut m: u64 = n;
    let mut k: usize = 0;
    assert(pow16(0) == 1);
    while k < 16
        invariant
            k <= 16,
            digits@.len() == k,
            m as nat == (n as nat) / pow16(k as nat),
            forall|j: int| 0 <= j < k ==> digits@[j] == hex_digit(((n as nat) / pow16(j as nat)) % 16),
        decreases 16 - k,
    {
        let d = m % 16;
        let c: char = if d < 10 {
            char_of_ascii((48 + d) as u8)
        } else {
            char_of_ascii((55 + d) as u8)
        };
        digits.push(c);
        proof {
            lemma_div_step(n as nat, k as nat);
        }
        m = m / 16;
        k = k + 1;
    }
    let mut s = owned(prefix);
    let ghost start = s@;
    let mut j: usize = 16;
    proof {
        assert(hex_text((n as nat) / pow16(16), 0) =~= Seq::<char>::empty());
    }
    while j > 0
        invariant
            j <= 16,
            digits@.len() == 16,
            forall|i: int| 0 <= i < 16 ==> digits@[i] == hex_digit(((n as nat) / pow16(i as nat)) % 16),
            s@ == start + hex_text((n as nat) / pow16(j as nat), (16 - j) as nat),
        decreases j,
    {
        j = j - 1;
        push_char(&mut s, digits[j]);
        proof {
            lemma_hex_step(n as nat, j as nat);
        }
    }
    s
}

/// `16^k`.
pub open spec fn pow16(k: nat) -> nat
    decreases k,
{
    if k == 0 {
        1
    } else {
        16 * pow16((k - 1) as nat)
    }
}

/// Dividing by `16^k` and then by 16 is dividing by `16^(k+1)`.
proof fn lemma_div_step(n: nat, k: nat)
    ensures
        (n / pow16(k)) / 16 == n / pow16(k + 1),
{
    lemma_pow16_positive(k);
    assert(pow16(k + 1) == 16 * pow16(k));
    vstd::arithmetic::div_mod::lemma_div_denominator(n as int, pow16(k) as int, 16);
    vstd::arithmetic::mul::lemma_mul_is_commutative(pow16(k) as int, 16);
}

/// `16^k` is positive.
proof fn lemma_pow16_positive(k: nat)
    ensures
        pow16(k) > 0,
    decreases k,
{
    if k > 0 {
        lemma_pow16_positive((k - 1) as nat);
    }
}

/// Writing one more digit extends the text of the higher digits.
proof fn lemma_hex_step(n: nat, j: nat)
    requires
        j < 16,
    ensures
        hex_text(n / pow16(j + 1), (16 - (j + 1)) as nat).push(hex_digit((n / pow16(j)) % 16))
            == hex_text(n / pow16(j), (16 - j) as nat),
{
    lemma_div_step(n, j);
    let x: nat = n / pow16(j);
    let w: nat = (16 - j) as nat;
    assert(w > 0);
    lemma_hex_unfold(x, w);
    assert((w - 1) as nat == (16 - (j + 1)) as nat);
}

/// One step of [`hex_text`]'s definition.
proof fn lemma_hex_unfold(x: nat, w: nat)
    requires
        w > 0,
    ensures
        hex_text(x, w) == hex_text(x / 16, (w - 1) as nat).push(hex_digit(x % 16)),
{
}

/// The character with this ASCII code.
fn char_of_ascii(b: u8) -> (c: char)
    requires
        b < 128,
    ensures
        c == (b as u32) as char,
{
    b as char
}

/// A hardware identity from a hash of the machine's name, a random number and the time:
/// `POS-` and sixteen hexadecimal digits.
pub fn hardware_id_from_hash(hash: u64) -> (s: String)
    ensures
        s@ == "POS-"@ + hex_text(hash as nat, 16),
{
    tagged_hex("POS-", hash)
}

/// A device fingerprint from a hash of the machine's name and platform: `FP-` and sixteen
/// hexadecimal digits.
pub fn fingerprint_from_hash(hash: u64) -> (s: String)
    ensures
        s@ == "FP-"@ + hex_text(hash as nat, 16),
{
    tagged_hex("FP-", hash)
}

/// The stored hardware identity, when one is stored and not empty.
pub fn usable_hardware_id(stored_id: Option<String>) -> (r: Option<String>)
    ensures
        r is None <==> stored_spec(stored_id) is None,
        r matches Some(s) ==> stored_spec(stored_id) == Some(s@),
{
    stored(stored_id)
}

/// `url` without its trailing slashes.
pub open spec fn without_trailing_slashes(url: Seq<char>) -> Seq<char>
    decreases url.len(),
{
    if url.len() > 0 && url.last() == '/' {
        without_trailing_slashes(url.drop_last())
    } else {
        url
    }
}

/// The server address as stored: without its trailing slashes.
pub fn normalize_server_url(url: &str) -> (s: String)
    ensures
        s@ == without_trailing_slashes(url@),
{
    let mut n = url.unicode_len();
    assert(url@.subrange(0, n as int) =~= url@);
    while n > 0 && url.get_char(n - 1) == '/'
        invariant
            n <= url@.len(),
            without_trailing_slashes(url@.subrange(0, n as int)) == without_trailing_slashes(url@),
        decreases n,
    {
        assert(url@.subrange(0, n - 1) =~= url@.subrange(0, n as int).drop_last());
        n = n - 1;
    }
    assert(url@.subrange(0, url@.len() as int) =~= url@);
    let mut s = String::new();
    let mut k: usize = 0;
    while k < n
        invariant
            k <= n <= url@.len(),
            s@ =~= url@.subrange(0, k as int),
        decreases n - k,
    {
        push_char(&mut s, url.get_char(k));
        k = k + 1;
    }
    s
}

/// The server address to use: the configured one when it is set and not empty, else the
/// default.
pub fn server_url_or_default(configured: Option<String>) -> (s: String)
    ensures
        stored_spec(configured) matches Some(u) ==> s@ == u,
        stored_spec(configured) is None ==> s@ == DEFAULT_SERVER_URL@,
{
    match stored(configured) {
        Some(u) => u,
        None => owned(DEFAULT_SERVER_URL),
    }
}

/// The processor's model among the lines of `/proc/cpuinfo`: the second `:`-separated piece,
/// trimmed, of the first `model name` line that has one.
pub open spec fn cpu_model_in(lines: Seq<String>) -> Option<Seq<char>>
    decreases lines.len(),
{
    if lines.len() == 0 {
        None
    } else if starts_with_text(lines[0]@, "model name"@) && second_piece(lines[0]@, ':') is Some {
        Some(trimmed_text(second_piece(lines[0]@, ':')->0))
    } else {
        cpu_model_in(lines.drop_first())
    }
}

/// The processor's model for registration: read from `/proc/cpuinfo` where its lines could
/// be read and hold one, else the architecture's name.
pub open spec fn cpu_model_text(cpuinfo: Option<Seq<String>>, arch: Seq<char>) -> Seq<char> {
    match cpuinfo {
        Some(lines) => match cpu_model_in(lines) {
            Some(m) => m,
            None => arch,
        },
        None => arch,
    }
}

/// The total memory in kB among the lines of `/proc/meminfo`: the number in the second field
/// of the first `MemTotal:` line, zero where it does not read as one.
pub open spec fn mem_total_kb_in(lines: Seq<String>) -> Option<int>
    decreases lines.len(),
{
    if lines.len() == 0 {
        None
    } else if starts_with_text(lines[0]@, "MemTotal:"@) {
        Some(
            match second_field(lines[0]@) {
                Some(f) => match parsed_u64(f) {
                    Some(v) => v as int,
                    None => 0,
                },
                None => 0,
            },
        )
    } else {
        mem_total_kb_in(lines.drop_first())
    }
}

/// The total memory in whole MB for registration: from `/proc/meminfo` where its lines could
/// be read and name it, else zero.
pub open spec fn memory_mb_value(meminfo: Option<Seq<String>>) -> int {
    match meminfo {
        Some(lines) => match mem_total_kb_in(lines) {
            Some(kb) => kb / 1024,
            None => 0,
        },
        None => 0,
    }
}

/// The processor's model named among the lines of `/proc/cpuinfo`, if any.
fn model_in(lines: &Vec<String>) -> (r: Option<String>)
    ensures
        match r {
            Some(m) => cpu_model_in(lines@) == Some(m@),
            None => cpu_model_in(lines@) is None,
        },
{
    let mut k: usize = 0;
    assert(lines@.subrange(0, lines@.len() as int) =~= lines@);
    while k < lines.len()
        invariant
            k <= lines@.len(),
            cpu_model_in(lines@) == cpu_model_in(lines@.subrange(k as int, lines@.len() as int)),
        decreases lines@.len() - k,
    {
        let ghost rest = lines@.subrange(k as int, lines@.len() as int);
        assert(rest[0] == lines@[k as int]);
        if starts_with(lines[k].as_str(), "model name") {
            match second_piece_of(lines[k].as_str(), ':') {
                Some(value) => {
                    return Some(trim(value.as_str()));
                },
                None => {},
            }
        }
        assert(rest.drop_first() =~= lines@.subrange(k + 1, lines@.len() as int));
        k = k + 1;
    }
    None
}

/// The processor's model for registration.
pub fn cpu_model(cpuinfo: Option<&Vec<String>>, arch: &str) -> (s: String)
    ensures
        s@ == cpu_model_text(match cpuinfo {
            Some(l) => Some(l@),
            None => None,
        }, arch@),
{
    match cpuinfo {
        Some(lines) => match model_in(lines) {
            Some(m) => m,
            None => owned(arch),
        },
        None => owned(arch),
    }
}

/// The total memory in kB named among the lines of `/proc/meminfo`, if any.
fn mem_total_in(lines: &Vec<String>) -> (r: Option<u64>)
    ensures
        match r {
            Some(kb) => mem_total_kb_in(lines@) == Some(kb as int),
            None => mem_total_kb_in(lines@) is None,
        },
{
    let mut k: usize = 0;
    assert(lines@.subrange(0, lines@.len() as int) =~= lines@);
    while k < lines.len()
        invariant
            k <= lines@.len(),
            mem_total_kb_in(lines@) == mem_total_kb_in(lines@.subrange(k as int, lines@.len() as int)),
        decreases lines@.len() - k,
    {
        let ghost rest = lines@.subrange(k as int, lines@.len() as int);
        assert(rest[0] == lines@[k as int]);
        if starts_with(lines[k].as_str(), "MemTotal:") {
            let kb: u64 = match second_field_of(lines[k].as_str()) {
                Some(f) => match parse_u64(f.as_str()) {
                    Some(v) => v,
                    None => 0,
                },
                None => 0,
            };
            return Some(kb);
        }
        assert(rest.drop_first() =~= lines@.subrange(k + 1, lines@.len() as int));
        k = k + 1;
    }
    None
}

/// The total memory in whole MB for registration.
pub fn memory_mb(meminfo: Option<&Vec<String>>) -> (mb: u64)
    ensures
        mb == memory_mb_value(match meminfo {
            Some(l) => Some(l@),
            None => None,
        }),
{
    match meminfo {
        Some(lines) => match mem_total_in(lines) {
            Some(kb) => kb / 1024,
            None => 0,
        },
        None => 0,
    }
}

} // verus!
