//! The terminal's log: reading its lines into entries, picking entries by level, and the
//! system summary that goes into an exported bundle.
use vstd::prelude::*;

use crate::services::parse::ParseError;
use crate::text::{append_nat, ends_with_text, nat_text, append_str, owned, push_char, str_eq, to_unicode_upper, unicode_upper};

verus! {

/// How severe a log line is.
#[derive(Debug, Clone, Copy, PartialEq, Eq, Structural)]
pub enum LogLevel {
    /// An error.
    Error,
    /// A warning.
    Warn,
    /// Information.
    Info,
    /// Debugging detail.
    Debug,
    /// Tracing detail.
    Trace,
}

impl LogLevel {
    /// The spelling in a log line.
    pub open spec fn wire(self) -> Seq<char> {
        match self {
            LogLevel::Error => "ERROR"@,
            LogLevel::Warn => "WARN"@,
            LogLevel::Info => "INFO"@,
            LogLevel::Debug => "DEBUG"@,
            LogLevel::Trace => "TRACE"@,
        }
    }

    /// The level an upper-cased spelling names, if any.
    pub open spec fn parse_upper(k: Seq<char>) -> Option<LogLevel> {
        if k == "ERROR"@ {
            Some(LogLevel::Error)
        } else if k == "WARN"@ {
            Some(LogLevel::Warn)
        } else if k == "INFO"@ {
            Some(LogLevel::Info)
        } else if k == "DEBUG"@ {
            Some(LogLevel::Debug)
        } else if k == "TRACE"@ {
            Some(LogLevel::Trace)
        } else {
            None
        }
    }

    /// The spelling in a log line.
    pub fn as_str(&self) -> (s: &'static str)
        ensures
            s@ == self.wire(),
    {
        match self {
            LogLevel::Error => "ERROR",
            LogLevel::Warn => "WARN",
            LogLevel::Info => "INFO",
            LogLevel::Debug => "DEBUG",
            LogLevel::Trace => "TRACE",
        }
    }

    /// Reads a level in any case; an unknown level is refused and named.
    pub fn from_str(raw: &str) -> (r: Result<LogLevel, ParseError>)
        ensures
            r matches Ok(l) ==> LogLevel::parse_upper(unicode_upper(raw@)) == Some(l),
            r is Err <==> LogLevel::parse_upper(unicode_upper(raw@)) is None,
            r matches Err(e) ==> e matches ParseError::LogLevel(v) && v@ == raw@,
    {
        let upper = to_unicode_upper(raw);
        let k = upper.as_str();
        if str_eq(k, "ERROR") {
            Ok(LogLevel::Error)
        } else if str_eq(k, "WARN") {
            Ok(LogLevel::Warn)
        } else if str_eq(k, "INFO") {
            Ok(LogLevel::Info)
        } else if str_eq(k, "DEBUG") {
            Ok(LogLevel::Debug)
        } else if str_eq(k, "TRACE") {
            Ok(LogLevel::Trace)
        } else {
            Err(ParseError::LogLevel(owned(raw)))
        }
    }
}

impl std::str::FromStr for LogLevel {
    type Err = ParseError;

    fn from_str(raw: &str) -> Result<LogLevel, ParseError> {
        LogLevel::from_str(raw)
    }
}

/// A line of the log, read.
#[derive(Debug, Clone)]
pub struct LogEntry {
    /// When.
    pub timestamp: String,
    /// How severe.
    pub level: LogLevel,
    /// What was said.
    pub message: String,
    /// Where from.
    pub target: String,
}

/// Why the log could not be read or exported.
#[derive(Debug, Clone, PartialEq, Eq)]
pub enum LogError {
    /// The file system failed, as described.
    IoError(String),
    /// A line could not be read, as described.
    ParseError(String),
}

impl LogError {
    /// The sentence this error says.
    pub fn message(&self) -> (s: String)
        ensures
            self matches LogError::IoError(e) ==> s@ == "IO error: "@ + e@,
            self matches LogError::ParseError(e) ==> s@ == "Parse error: "@ + e@,
    {
        match self {
            LogError::IoError(e) => {
                let mut s = owned("IO error: ");
                append_str(&mut s, e.as_str());
                s
            },
            LogError::ParseError(e) => {
                let mut s = owned("Parse error: ");
                append_str(&mut s, e.as_str());
                s
            },
        }
    }
}

// ============================================================================
// Reading lines
// ============================================================================

/// The position of the first space in `s` at or after `from`.
pub open spec fn space_from(s: Seq<char>, from: int) -> Option<int> {
    if exists|i: int| from <= i < s.len() && s[i] == ' ' {
        Some(choose|i: int| from <= i < s.len() && s[i] == ' ' && forall|j: int| from <= j < i ==> s[j] != ' ')
    } else {
        None
    }
}

/// `s` without its trailing colons.
pub open spec fn without_trailing_colons(s: Seq<char>) -> Seq<char>
    decreases s.len(),
{
    if s.len() > 0 && s.last() == ':' {
        without_trailing_colons(s.drop_last())
    } else {
        s
    }
}

/// The level a field names, or trace when it names none.
pub open spec fn level_or_trace(field: Seq<char>) -> LogLevel {
    match LogLevel::parse_upper(unicode_upper(field)) {
        Some(l) => l,
        None => LogLevel::Trace,
    }
}

/// A log line split at its first three spaces, as `splitn(4, ' ')` splits it: the timestamp,
/// the level, the target and the message. A line with fewer than two spaces is no entry.
pub open spec fn parsed_line(line: Seq<char>) -> Option<(Seq<char>, LogLevel, Seq<char>, Seq<char>)> {
    match space_from(line, 0) {
        None => None,
        Some(a) => match space_from(line, a + 1) {
            None => None,
            Some(b) => {
                let ts = line.subrange(0, a);
                let level = level_or_trace(line.subrange(a + 1, b));
                match space_from(line, b + 1) {
                    None => Some(
                        (ts, level, without_trailing_colons(line.subrange(b + 1, line.len() as int)), Seq::empty()),
                    ),
                    Some(c) => Some(
                        (
                            ts,
                            level,
                            without_trailing_colons(line.subrange(b + 1, c)),
                            line.subrange(c + 1, line.len() as int),
                        ),
                    ),
                }
            },
        },
    }
}

/// The position of the first space at or after `from`.
fn find_space(s: &str, from: usize) -> (r: Option<usize>)
    requires
        from <= s@.len(),
    ensures
        r is None <==> space_from(s@, from as int) is None,
        r matches Some(i) ==> space_from(s@, from as int) == Some(i as int) && from <= i < s@.len(),
{
    let n = s.unicode_len();
    let mut i: usize = from;
    while i < n
        invariant
            n == s@.len(),
            from <= i <= n,
            forall|j: int| from <= j < i ==> s@[j] != ' ',
        decreases n - i,
    {
        if s.get_char(i) == ' ' {
            proof {
                let w = choose|k: int| from <= k < s@.len() && s@[k] == ' ' && forall|j: int|
                    from <= j < k ==> s@[j] != ' ';
                assert(from <= i < s@.len() && s@[i as int] == ' ' && forall|j: int| from <= j < i ==> s@[j] != ' ');
                if w < i {
                } else if w > i {
                    assert(s@[i as int] != ' ');
                }
            }
            return Some(i);
        }
        i = i + 1;
    }
    None
}

/// The characters of `s` from `start` to `end`.
fn slice_text(s: &str, start: usize, end: usize) -> (r: String)
    requires
        start <= end <= s@.len(),
    ensures
        r@ == s@.subrange(start as int, end as int),
{
    let mut r = String::new();
    let mut k: usize = start;
    while k < end
        invariant
            start <= k <= end <= s@.len(),
            r@ =~= s@.subrange(start as int, k as int),
        decreases end - k,
    {
        push_char(&mut r, s.get_char(k));
        k = k + 1;
    }
    r
}

/// The characters of `s` from `start` to `end`, without trailing colons.
fn slice_without_colons(s: &str, start: usize, end: usize) -> (r: String)
    requires
        start <= end <= s@.len(),
    ensures
        r@ == without_trailing_colons(s@.subrange(start as int, end as int)),
{
    let mut e = end;
    while e > start && s.get_char(e - 1) == ':'
        invariant
            start <= e <= end <= s@.len(),
            without_trailing_colons(s@.subrange(start as int, e as int)) == without_trailing_colons(
                s@.subrange(start as int, end as int),
            ),
        decreases e,
    {
        assert(s@.subrange(start as int, e - 1) =~= s@.subrange(start as int, e as int).drop_last());
        e = e - 1;
    }
    slice_text(s, start, e)
}

/// Reads a log line into an entry: a line with fewer than two spaces is none, and a level
/// this terminal does not know reads as trace.
pub fn parse_log_line(line: &str) -> (r: Option<LogEntry>)
    ensures
        r is None <==> parsed_line(line@) is None,
        r matches Some(e) ==> parsed_line(line@) == Some((e.timestamp@, e.level, e.target@, e.message@)),
{
    let n = line.unicode_len();
    let a = match find_space(line, 0) {
        Some(a) => a,
        None => return None,
    };
    let b = match find_space(line, a + 1) {
        Some(b) => b,
        None => return None,
    };
    let timestamp = slice_text(line, 0, a);
    let level_text = slice_text(line, a + 1, b);
    let level = match LogLevel::from_str(level_text.as_str()) {
        Ok(l) => l,
        Err(_) => LogLevel::Trace,
    };
    match find_space(line, b + 1) {
        None => {
            let target = slice_without_colons(line, b + 1, n);
            proof {
                reveal_strlit("");
            }
            Some(LogEntry { timestamp, level, message: String::new(), target })
        },
        Some(c) => {
            let target = slice_without_colons(line, b + 1, c);
            let message = slice_text(line, c + 1, n);
            Some(LogEntry { timestamp, level, message, target })
        },
    }
}

/// An entry's fields, as [`parsed_line`] gives them.
pub open spec fn entry_view(e: LogEntry) -> (Seq<char>, LogLevel, Seq<char>, Seq<char>) {
    (e.timestamp@, e.level, e.target@, e.message@)
}

/// The fields of each entry, in order.
pub open spec fn views(entries: Seq<LogEntry>) -> Seq<(Seq<char>, LogLevel, Seq<char>, Seq<char>)>
    decreases entries.len(),
{
    if entries.len() == 0 {
        Seq::empty()
    } else {
        views(entries.drop_last()).push(entry_view(entries.last()))
    }
}

/// The characters of each line, in order.
pub open spec fn texts(lines: Seq<String>) -> Seq<Seq<char>>
    decreases lines.len(),
{
    if lines.len() == 0 {
        Seq::empty()
    } else {
        texts(lines.drop_last()).push(lines.last()@)
    }
}

/// The entries of the lines that are entries, in order.
pub open spec fn parsed_lines(lines: Seq<Seq<char>>) -> Seq<(Seq<char>, LogLevel, Seq<char>, Seq<char>)>
    decreases lines.len(),
{
    if lines.len() == 0 {
        Seq::empty()
    } else {
        let rest = parsed_lines(lines.drop_last());
        match parsed_line(lines.last()) {
            Some(p) => rest.push(p),
            None => rest,
        }
    }
}

/// The last `max_lines` of `lines`, or all of them when there are fewer.
pub open spec fn last_lines(lines: Seq<String>, max_lines: nat) -> Seq<String> {
    if lines.len() > max_lines {
        lines.subrange(lines.len() - max_lines, lines.len() as int)
    } else {
        lines
    }
}

/// The entries of the last `max_lines` lines, oldest first, skipping lines that are no
/// entry.
pub fn recent_entries(lines: &Vec<String>, max_lines: usize) -> (r: Vec<LogEntry>)
    ensures
        views(r@) == parsed_lines(texts(last_lines(lines@, max_lines as nat))),
{
    let start: usize = if lines.len() > max_lines {
        lines.len() - max_lines
    } else {
        0
    };
    let mut r: Vec<LogEntry> = Vec::new();
    let mut k: usize = start;
    assert(lines@.subrange(start as int, start as int) =~= Seq::<String>::empty());
    while k < lines.len()
        invariant
            start <= k <= lines@.len(),
            views(r@) == parsed_lines(texts(lines@.subrange(start as int, k as int))),
        decreases lines@.len() - k,
    {
        let ghost before = r@;
        let parsed = parse_log_line(lines[k].as_str());
        proof {
            let next = lines@.subrange(start as int, k + 1);
            assert(next.drop_last() =~= lines@.subrange(start as int, k as int));
            assert(texts(next) == texts(next.drop_last()).push(lines@[k as int]@));
            assert(texts(next).drop_last() =~= texts(next.drop_last()));
        }
        match parsed {
            Some(e) => {
                r.push(e);
                assert(r@.drop_last() =~= before);
            },
            None => {},
        }
        k = k + 1;
    }
    assert(lines@.subrange(start as int, lines@.len() as int) =~= last_lines(lines@, max_lines as nat));
    r
}

/// The entries at `level`, in order.
pub open spec fn at_level(entries: Seq<LogEntry>, level: LogLevel) -> Seq<LogEntry>
    decreases entries.len(),
{
    if entries.len() == 0 {
        Seq::empty()
    } else {
        let rest = at_level(entries.drop_last(), level);
        if entries.last().level == level {
            rest.push(entries.last())
        } else {
            rest
        }
    }
}

/// The first `max_lines` entries at `level`, in order.
pub fn read_logs_by_level(entries: &Vec<LogEntry>, level: LogLevel, max_lines: usize) -> (r: Vec<
    LogEntry,
>)
    ensures
        r@ == at_level(entries@, level).take(
            if at_level(entries@, level).len() < max_lines {
                at_level(entries@, level).len() as int
            } else {
                max_lines as int
            },
        ),
{
    let mut r: Vec<LogEntry> = Vec::new();
    let mut k: usize = 0;
    assert(entries@.subrange(0, 0) =~= Seq::<LogEntry>::empty());
    while k < entries.len()
        invariant
            k <= entries@.len(),
            r@.len() <= max_lines,
            r@ == at_level(entries@.subrange(0, k as int), level).take(r@.len() as int),
            r@.len() == (if at_level(entries@.subrange(0, k as int), level).len() < max_lines {
                at_level(entries@.subrange(0, k as int), level).len()
            } else {
                max_lines as nat
            }),
        decreases entries@.len() - k,
    {
        let ghost prefix = entries@.subrange(0, k as int);
        let ghost next = entries@.subrange(0, k + 1);
        assert(next.drop_last() =~= prefix);
        assert(next.last() == entries@[k as int]);
        if matches_level(&entries[k], level) && r.len() < max_lines {
            r.push(copy_entry(&entries[k]));
            assert(r@ =~= at_level(next, level).take(r@.len() as int));
        } else {
            assert(r@ =~= at_level(next, level).take(r@.len() as int));
        }
        k = k + 1;
    }
    assert(entries@.subrange(0, entries@.len() as int) =~= entries@);
    r
}

/// Whether an entry is at a level.
fn matches_level(e: &LogEntry, level: LogLevel) -> (b: bool)
    ensures
        b == (e.level == level),
{
    e.level == level
}

/// A copy of an entry.
fn copy_entry(e: &LogEntry) -> (c: LogEntry)
    ensures
        c == *e,
{
    LogEntry {
        timestamp: e.timestamp.clone(),
        level: e.level,
        message: e.message.clone(),
        target: e.target.clone(),
    }
}

/// Where the terminal keeps its logs, and reading them.
pub struct LogService {
    log_dir: String,
}

/// The log directory used when the platform names no data directory for the application.
pub const FALLBACK_LOG_DIR: &'static str = "./data/logs";

/// The number of lines read back for every entry asked for when filtering by level.
pub const LINES_READ_PER_ENTRY: usize = 10;

impl LogService {
    /// The directory the logs are in.
    pub closed spec fn spec_log_dir(self) -> Seq<char> {
        self.log_dir@
    }

    /// A service over the `logs` directory inside the application's local data directory, as
    /// the platform names it; `./data/logs` where it names none.
    pub fn new() -> (s: LogService)
        ensures
            s.spec_log_dir() == FALLBACK_LOG_DIR@ || ends_with_text(s.spec_log_dir(), "logs"@),
    {
        proof {
            reveal_strlit("logs");
        }
        match project_data_local_dir() {
            Some(base) => LogService::in_directory(path_join(base.as_str(), "logs")),
            None => LogService::in_directory(owned(FALLBACK_LOG_DIR)),
        }
    }

    /// A service over the given directory.
    pub fn in_directory(log_dir: String) -> (s: LogService)
        ensures
            s.spec_log_dir() == log_dir@,
    {
        LogService { log_dir }
    }

    /// The directory the logs are in.
    pub fn log_directory(&self) -> (d: &str)
        ensures
            d@ == self.spec_log_dir(),
    {
        self.log_dir.as_str()
    }

    /// The entries among the last `max_lines` lines of the log file, oldest first.
    pub fn read_recent_logs(&self, lines: &Vec<String>, max_lines: usize) -> (r: Vec<LogEntry>)
        ensures
            views(r@) == parsed_lines(texts(last_lines(lines@, max_lines as nat))),
    {
        recent_entries(lines, max_lines)
    }

    /// The first `max_lines` entries at `level` among the entries of the last `10 * max_lines`
    /// lines of the log file.
    pub fn read_logs_by_level(&self, lines: &Vec<String>, level: LogLevel, max_lines: usize) -> (r: Vec<LogEntry>)
        requires
            max_lines * LINES_READ_PER_ENTRY <= usize::MAX,
        ensures
            exists|recent: Seq<LogEntry>|
                views(recent) == parsed_lines(texts(last_lines(lines@, (max_lines * LINES_READ_PER_ENTRY) as nat)))
                && r@ == at_level(recent, level).take(
                    if at_level(recent, level).len() < max_lines {
                        at_level(recent, level).len() as int
                    } else {
                        max_lines as int
                    },
                ),
    {
        let recent = recent_entries(lines, max_lines * LINES_READ_PER_ENTRY);
        read_logs_by_level(&recent, level, max_lines)
    }
}

impl Default for LogService {
    fn default() -> (s: LogService) {
        LogService::new()
    }
}

/// `directories`' `ProjectDirs::from("com", "e2manage", "pos-terminal")`, then
/// `data_local_dir`, written out (lossily where the path is not Unicode). Nothing is stated
/// of it: it depends on the platform and the environment.
#[verifier::external_body]
fn project_data_local_dir() -> (r: Option<String>) {
    match directories::ProjectDirs::from("com", "e2manage", "pos-terminal") {
        Some(p) => Some(p.data_local_dir().to_string_lossy().into_owned()),
        None => None,
    }
}

/// std's `Path::join`, written out (lossily where the path is not Unicode). Its documentation
/// says a relative path is pushed onto the base, so the result ends with `part` when `part` is
/// a plain name of lowercase letters (no root, prefix or separator, not `.` or `..`). Nothing
/// more is stated: the separator, and whether one is added, are the platform's.
#[verifier::external_body]
fn path_join(base: &str, part: &str) -> (r: String)
    requires
        part@.len() > 0,
        forall|i: int| 0 <= i < part@.len() ==> 'a' <= #[trigger] part@[i] <= 'z',
    ensures
        ends_with_text(r@, part@),
{
    std::path::Path::new(base).join(part).to_string_lossy().into_owned()
}

/// The listed files, one line each: `  - name`.
pub open spec fn file_lines(files: Seq<String>) -> Seq<char>
    decreases files.len(),
{
    if files.len() == 0 {
        seq![]
    } else {
        file_lines(files.drop_last()) + "  - "@ + files.last()@ + "\n"@
    }
}

/// The summary that goes into an exported bundle.
pub open spec fn system_info(
    os: Seq<char>,
    arch: Seq<char>,
    version: Seq<char>,
    export_time: Seq<char>,
    log_dir: Seq<char>,
    files: Option<Seq<String>>,
) -> Seq<char> {
    "=== E2Manage POS Terminal - System Info ===\n\n"@ + "OS: "@ + os + "\n"@ + "Arch: "@ + arch + "\n"@
        + "App Version: "@ + version + "\n"@ + "Export Time: "@ + export_time + "\n"@
        + "Log Directory: "@ + log_dir + "\n"@ + match files {
        Some(list) => "\nLog Files ("@ + nat_text(list.len()) + "):\n"@ + file_lines(list),
        None => seq![],
    }
}

/// The summary that goes into an exported bundle: the platform, the version, when, where the
/// logs are, and the log files when they could be listed.
pub fn system_info_text(
    os: &str,
    arch: &str,
    version: &str,
    export_time: &str,
    log_dir: &str,
    files: Option<&Vec<String>>,
) -> (s: String)
    ensures
        s@ == system_info(os@, arch@, version@, export_time@, log_dir@, match files {
            Some(l) => Some(l@),
            None => None,
        }),
{
    let mut s = owned("=== E2Manage POS Terminal - System Info ===\n\n");
    append_str(&mut s, "OS: ");
    append_str(&mut s, os);
    append_str(&mut s, "\n");
    append_str(&mut s, "Arch: ");
    append_str(&mut s, arch);
    append_str(&mut s, "\n");
    append_str(&mut s, "App Version: ");
    append_str(&mut s, version);
    append_str(&mut s, "\n");
    append_str(&mut s, "Export Time: ");
    append_str(&mut s, export_time);
    append_str(&mut s, "\n");
    append_str(&mut s, "Log Directory: ");
    append_str(&mut s, log_dir);
    append_str(&mut s, "\n");
    let ghost head = s@;
    match files {
        Some(list) => {
            append_str(&mut s, "\nLog Files (");
            append_nat(&mut s, list.len() as u64);
            append_str(&mut s, "):\n");
            let ghost intro = s@;
            let mut k: usize = 0;
            assert(list@.subrange(0, 0) =~= Seq::<String>::empty());
            assert(s@ =~= intro + file_lines(list@.subrange(0, 0)));
            while k < list.len()
                invariant
                    k <= list@.len(),
                    s@ == intro + file_lines(list@.subrange(0, k as int)),
                decreases list@.len() - k,
            {
                append_str(&mut s, "  - ");
                append_str(&mut s, list[k].as_str());
                append_str(&mut s, "\n");
                proof {
                    let next = list@.subrange(0, k + 1);
                    assert(next.drop_last() =~= list@.subrange(0, k as int));
                    assert(next.last() == list@[k as int]);
                    assert(s@ =~= intro + file_lines(next));
                }
                k = k + 1;
            }
            assert(list@.subrange(0, list@.len() as int) =~= list@);
            assert(s@ =~= head + ("\nLog Files ("@ + nat_text(list@.len()) + "):\n"@ + file_lines(list@)));
        },
        None => {
            assert(s@ =~= head + Seq::<char>::empty());
        },
    }
    s
}

} // verus!
