//! Structured log entries, their file and console forms, and the log-file
//! rotation policy.

use vstd::prelude::*;
use rand::RngCore;
use vstd::utf8::{decode_utf8, encode_utf8, is_char_boundary};
use crate::error::MindLinkError;
use crate::json::{json_quote, json_string_text, lower_hex_digit};
use crate::text::{cat2, cat3, cat4, owned, trim, trimmed, decimal, decimal_string, views};

verus! {

broadcast use vstd::string::group_string_axioms, vstd::utf8::group_utf8_lib;

/// Log levels for the application.
#[derive(PartialEq, Eq, Structural, Clone, Copy)]
pub enum LogLevel {
    Error,
    Warn,
    Info,
    Debug,
    Trace,
}

/// Categories for different kinds of log entries.
#[derive(PartialEq, Eq, Structural, Clone, Copy)]
pub enum LogCategory {
    System,
    Authentication,
    Network,
    Process,
    HealthCheck,
    Configuration,
    UserAction,
    Error,
}

impl LogLevel {
    /// The text a level is written as.
    pub open spec fn text(self) -> Seq<char> {
        match self {
            LogLevel::Error => "ERROR"@,
            LogLevel::Warn => "WARN"@,
            LogLevel::Info => "INFO"@,
            LogLevel::Debug => "DEBUG"@,
            LogLevel::Trace => "TRACE"@,
        }
    }

    /// The terminal colour a level is shown in on the console.
    pub open spec fn color_text(self) -> Seq<char> {
        match self {
            LogLevel::Error => "\x1b[31m"@,
            LogLevel::Warn => "\x1b[33m"@,
            LogLevel::Info => "\x1b[32m"@,
            LogLevel::Debug => "\x1b[36m"@,
            LogLevel::Trace => "\x1b[90m"@,
        }
    }

    /// The text a level is written as.
    pub fn label(&self) -> (res: &'static str)
        ensures
            res@ == self.text(),
    {
        match self {
            LogLevel::Error => "ERROR",
            LogLevel::Warn => "WARN",
            LogLevel::Info => "INFO",
            LogLevel::Debug => "DEBUG",
            LogLevel::Trace => "TRACE",
        }
    }

    /// The terminal colour escape of a level.
    pub fn color(&self) -> (res: &'static str)
        ensures
            res@ == self.color_text(),
    {
        match self {
            LogLevel::Error => "\x1b[31m",
            LogLevel::Warn => "\x1b[33m",
            LogLevel::Info => "\x1b[32m",
            LogLevel::Debug => "\x1b[36m",
            LogLevel::Trace => "\x1b[90m",
        }
    }
}

impl LogCategory {
    /// The text a category is written as.
    pub open spec fn text(self) -> Seq<char> {
        match self {
            LogCategory::System => "SYSTEM"@,
            LogCategory::Authentication => "AUTH"@,
            LogCategory::Network => "NET"@,
            LogCategory::Process => "PROC"@,
            LogCategory::HealthCheck => "HEALTH"@,
            LogCategory::Configuration => "CONFIG"@,
            LogCategory::UserAction => "USER"@,
            LogCategory::Error => "ERROR"@,
        }
    }

    /// The text a category is written as.
    pub fn label(&self) -> (res: &'static str)
        ensures
            res@ == self.text(),
    {
        match self {
            LogCategory::System => "SYSTEM",
            LogCategory::Authentication => "AUTH",
            LogCategory::Network => "NET",
            LogCategory::Process => "PROC",
            LogCategory::HealthCheck => "HEALTH",
            LogCategory::Configuration => "CONFIG",
            LogCategory::UserAction => "USER",
            LogCategory::Error => "ERROR",
        }
    }
}

/// Whether an instant, in milliseconds since the Unix epoch, lies in the
/// range chrono can represent: from the first millisecond of the year
/// -262143 to the last of the year 262142.
pub open spec fn in_utc_range(ms: int) -> bool {
    -8334601315200000 <= ms <= 8210266876799999
}

/// The text chrono writes, with the log format `%Y-%m-%d %H:%M:%S%.3f UTC`,
/// for the instant `ms` milliseconds after the Unix epoch.
pub uninterp spec fn utc_log_time(ms: int) -> Seq<char>;

/// `DateTime::<Utc>::from_timestamp_millis` followed by `format` with the log
/// format: the text of the instant, or `None` when the instant lies outside
/// chrono's range (`from_timestamp_millis` gives `None` exactly there).
#[verifier::external_body]
pub(crate) fn format_log_time(ms: i64) -> (res: Option<String>)
    ensures
        match res {
            Some(t) => in_utc_range(ms as int) && t@ == utc_log_time(ms as int),
            None => !in_utc_range(ms as int),
        },
{
    match chrono::DateTime::<chrono::Utc>::from_timestamp_millis(ms) {
        Some(t) => Some(t.format("%Y-%m-%d %H:%M:%S%.3f UTC").to_string()),
        None => None,
    }
}

/// The RFC 3339 text chrono writes (`to_rfc3339`) for the instant `ms`
/// milliseconds after the Unix epoch.
pub uninterp spec fn rfc3339_text(ms: int) -> Seq<char>;

/// `DateTime::<Utc>::from_timestamp_millis` followed by `to_rfc3339`: the RFC
/// 3339 text of the instant, or `None` when the instant lies outside
/// chrono's range.
#[verifier::external_body]
pub(crate) fn format_rfc3339(ms: i64) -> (res: Option<String>)
    ensures
        match res {
            Some(t) => in_utc_range(ms as int) && t@ == rfc3339_text(ms as int),
            None => !in_utc_range(ms as int),
        },
{
    match chrono::DateTime::<chrono::Utc>::from_timestamp_millis(ms) {
        Some(t) => Some(t.to_rfc3339()),
        None => None,
    }
}

/// `SystemTime::now().duration_since(UNIX_EPOCH)`, in whole milliseconds
/// (`Duration::as_millis`): `None` when the system clock reads a time before
/// the epoch, the one error `duration_since` gives.  What the clock reads is
/// not stated.
#[verifier::external_body]
fn system_clock_millis() -> (res: Option<u128>) {
    match std::time::SystemTime::now().duration_since(std::time::UNIX_EPOCH) {
        Ok(d) => Some(d.as_millis()),
        Err(_) => None,
    }
}

/// The current time in milliseconds since the Unix epoch: `None` when the
/// system clock reads a time before the epoch or past the last instant the
/// log and token times can represent.
pub fn now_millis() -> (res: Option<i64>)
    ensures
        res matches Some(t) ==> 0 <= t && in_utc_range(t as int),
{
    match system_clock_millis() {
        Some(ms) => if ms <= 8210266876799999u128 {
            Some(ms as i64)
        } else {
            None
        },
        None => None,
    }
}

/// Whether `s` is the hyphenated lowercase text of a UUID.
pub open spec fn uuid_text(s: Seq<char>) -> bool {
    &&& s.len() == 36
    &&& forall|i: int| 0 <= i < 36 ==> if i == 8 || i == 13 || i == 18 || i == 23 {
        #[trigger] s[i] == '-'
    } else {
        ('0' <= s[i] <= '9') || ('a' <= s[i] <= 'f')
    }
}

/// `n` bytes from the operating system's random source
/// (`RngCore::try_fill_bytes` on `rand::rngs::OsRng`): `None` when the source
/// fails.  Which bytes is not stated.
#[verifier::external_body]
pub(crate) fn os_random_bytes(n: usize) -> (res: Option<Vec<u8>>)
    ensures
        res matches Some(v) ==> v@.len() == n,
{
    let mut v = vec![0u8; n];
    match rand::rngs::OsRng.try_fill_bytes(&mut v) {
        Ok(()) => Some(v),
        Err(_) => None,
    }
}

/// A byte as two lowercase hexadecimal digits.
pub open spec fn hex_pair(b: int) -> Seq<char> {
    seq![lower_hex_digit(b / 16), lower_hex_digit(b % 16)]
}

/// The text of the version-4 UUID made from 16 random bytes: the bytes in
/// hexadecimal, grouped 4-2-2-2-6 with hyphens, the high four bits of the
/// seventh byte set to the version (4) and the high two bits of the ninth to
/// the RFC 4122 variant (`10`).
pub open spec fn uuid_v4_text(b: Seq<u8>) -> Seq<char> {
    hex_pair(b[0] as int) + hex_pair(b[1] as int) + hex_pair(b[2] as int) + hex_pair(b[3] as int) + seq!['-']
        + hex_pair(b[4] as int) + hex_pair(b[5] as int) + seq!['-']
        + hex_pair((b[6] as int) % 16 + 64) + hex_pair(b[7] as int) + seq!['-']
        + hex_pair((b[8] as int) % 64 + 128) + hex_pair(b[9] as int) + seq!['-']
        + hex_pair(b[10] as int) + hex_pair(b[11] as int) + hex_pair(b[12] as int)
        + hex_pair(b[13] as int) + hex_pair(b[14] as int) + hex_pair(b[15] as int)
}

/// `uuid::Builder::from_random_bytes` on the 16 bytes, written with
/// `to_string`: the version-4 UUID made from them (`with_version` and
/// `with_variant` set the version and variant bits), hyphenated and in
/// lowercase.
#[verifier::external_body]
fn uuid_from_random_bytes(bytes: &[u8]) -> (res: String)
    requires
        bytes@.len() == 16,
    ensures
        res@ == uuid_v4_text(bytes@),
        uuid_text(res@),
{
    let mut b = [0u8; 16];
    b.copy_from_slice(bytes);
    uuid::Builder::from_random_bytes(b).into_uuid().to_string()
}

/// A fresh random UUID, hyphenated and in lowercase: `None` when the
/// operating system's random source fails.
pub fn new_uuid() -> (res: Option<String>)
    ensures
        res matches Some(u) ==> uuid_text(u@) && exists|b: Seq<u8>| b.len() == 16 && u@ == uuid_v4_text(b),
{
    match os_random_bytes(16) {
        Some(b) => Some(uuid_from_random_bytes(b.as_slice())),
        None => None,
    }
}

/// The characters whose UTF-8 encoding is the first `n` bytes of that of `s`.
pub open spec fn byte_prefix(s: Seq<char>, n: int) -> Seq<char> {
    decode_utf8(encode_utf8(s).subrange(0, n))
}

/// Short form of a correlation id: its first eight bytes.
pub fn short_id(id: &str) -> (res: String)
    requires
        is_char_boundary(encode_utf8(id@), 8),
    ensures
        res@ == byte_prefix(id@, 8),
{
    let (head, _tail) = id.split_at(8);
    head.to_string()
}

/// A structured log entry.
pub struct LogEntry {
    pub id: String,
    /// Milliseconds since the Unix epoch, UTC.
    pub timestamp_ms: i64,
    pub level: LogLevel,
    pub category: LogCategory,
    pub component: Option<String>,
    pub message: String,
    /// Structured details, as JSON text.
    pub details: Option<String>,
    pub correlation_id: Option<String>,
}

/// The characters of an optional piece of a log line.
pub open spec fn opt_part(o: Option<String>, before: Seq<char>, after: Seq<char>) -> Seq<char> {
    match o {
        Some(s) => before + s@ + after,
        None => Seq::empty(),
    }
}

impl LogEntry {
    /// Whether an entry can be written to the log file: its instant is within
    /// chrono's range and its correlation id, if any, has a character boundary
    /// at byte eight.
    pub open spec fn writable(self) -> bool {
        &&& in_utc_range(self.timestamp_ms as int)
        &&& self.correlation_id matches Some(id) ==> is_char_boundary(encode_utf8(id@), 8)
    }

    /// The line an entry is written as in the log file.
    pub open spec fn file_text(self) -> Seq<char> {
        utc_log_time(self.timestamp_ms as int) + " ["@ + self.level.text() + "] ["@
            + self.category.text() + "]"@
            + opt_part(self.component, "["@, "]"@)
            + match self.correlation_id {
                Some(id) => " ["@ + byte_prefix(id@, 8) + "]"@,
                None => Seq::empty(),
            }
            + " "@ + self.message@
            + opt_part(self.details, " - "@, Seq::empty())
    }

    /// The line an entry is shown as on the console.
    pub open spec fn console_text(self) -> Seq<char> {
        self.level.color_text() + "["@ + self.level.text() + "]\x1b[0m ["@ + self.category.text() + "]"@
            + opt_part(self.component, " "@, Seq::empty()) + " "@ + self.message@
    }

    /// An entry with the given identifier and instant and no component,
    /// details or correlation id.
    pub fn at(id: String, timestamp_ms: i64, level: LogLevel, category: LogCategory, message: String) -> (res: Self)
        ensures
            res.id == id,
            res.timestamp_ms == timestamp_ms,
            res.level == level,
            res.category == category,
            res.component is None,
            res.message == message,
            res.details is None,
            res.correlation_id is None,
    {
        LogEntry {
            id,
            timestamp_ms,
            level,
            category,
            component: None,
            message,
            details: None,
            correlation_id: None,
        }
    }

    /// A new entry stamped with a fresh UUID and the current time: `None`
    /// when the random source or the clock cannot give them.
    pub fn new(level: LogLevel, category: LogCategory, message: String) -> (res: Option<Self>)
        ensures
            res matches Some(e) ==> {
                &&& uuid_text(e.id@)
                &&& 0 <= e.timestamp_ms && in_utc_range(e.timestamp_ms as int)
                &&& e.level == level
                &&& e.category == category
                &&& e.component is None
                &&& e.message == message
                &&& e.details is None
                &&& e.correlation_id is None
            },
    {
        let id = match new_uuid() {
            Some(u) => u,
            None => return None,
        };
        let ts = match now_millis() {
            Some(t) => t,
            None => return None,
        };
        Some(Self::at(id, ts, level, category, message))
    }

    /// The entry with its component set.
    pub fn with_component(self, component: &str) -> (res: Self)
        ensures
            res == (LogEntry { component: res.component, ..self }),
            res.component matches Some(c) && c@ == component@,
    {
        LogEntry { component: Some(owned(component)), ..self }
    }

    /// The entry with its details set to the given JSON text.
    pub fn with_details(self, details_json: String) -> (res: Self)
        ensures
            res == (LogEntry { details: Some(details_json), ..self }),
    {
        LogEntry { details: Some(details_json), ..self }
    }

    /// The entry with its correlation id set.
    pub fn with_correlation_id(self, correlation_id: &str) -> (res: Self)
        ensures
            res == (LogEntry { correlation_id: res.correlation_id, ..self }),
            res.correlation_id matches Some(c) && c@ == correlation_id@,
    {
        LogEntry { correlation_id: Some(owned(correlation_id)), ..self }
    }

    /// Format the entry for the log file.
    pub fn format_for_file(&self) -> (res: String)
        requires
            self.writable(),
        ensures
            res@ == self.file_text(),
    {
        let ts = format_log_time(self.timestamp_ms);
        let mut line = match ts {
            Some(t) => t,
            None => String::new(),
        };
        line.append(" [");
        line.append(self.level.label());
        line.append("] [");
        line.append(self.category.label());
        line.append("]");
        match &self.component {
            Some(c) => {
                line.append("[");
                line.append(c.as_str());
                line.append("]");
            },
            None => {},
        }
        match &self.correlation_id {
            Some(id) => {
                let short = short_id(id.as_str());
                line.append(" [");
                line.append(short.as_str());
                line.append("]");
            },
            None => {},
        }
        line.append(" ");
        line.append(self.message.as_str());
        match &self.details {
            Some(d) => {
                line.append(" - ");
                line.append(d.as_str());
            },
            None => {},
        }
        line
    }

    /// The file line of the entry, when it can be written (see `writable`).
    pub fn file_line(&self) -> (res: Option<String>)
        ensures
            res is Some <==> self.writable(),
            res matches Some(l) ==> l@ == self.file_text(),
    {
        if format_log_time(self.timestamp_ms).is_none() {
            return None;
        }
        match &self.correlation_id {
            Some(id) => {
                if !id.as_str().is_char_boundary(8) {
                    return None;
                }
            },
            None => {},
        }
        Some(self.format_for_file())
    }

    /// Format the entry for the console, coloured by level.
    pub fn format_for_console(&self) -> (res: String)
        ensures
            res@ == self.console_text(),
    {
        let mut line = owned(self.level.color());
        line.append("[");
        line.append(self.level.label());
        line.append("]\x1b[0m [");
        line.append(self.category.label());
        line.append("]");
        match &self.component {
            Some(c) => {
                line.append(" ");
                line.append(c.as_str());
            },
            None => {},
        }
        line.append(" ");
        line.append(self.message.as_str());
        line
    }
}


impl LogEntry {
    /// The entry logged for an error: at error level in the error category,
    /// with the error's user message, the component and the correlation id.
    pub fn for_error(component: &str, error: &MindLinkError, correlation_id: Option<&str>) -> (res: Option<Self>)
        ensures
            res matches Some(e) ==> {
                &&& uuid_text(e.id@)
                &&& in_utc_range(e.timestamp_ms as int)
                &&& e.level == LogLevel::Error
                &&& e.category == LogCategory::Error
                &&& e.message@ == error.user_text()
                &&& e.component matches Some(c) && c@ == component@
                &&& e.details matches Some(d) && exists|causes: Seq<String>| #[trigger] error.causes_of(causes)
                    && d@ == error_details_text(*error, error.technical_text(views(causes)))
                &&& match correlation_id {
                    Some(id) => e.correlation_id matches Some(c) && c@ == id@,
                    None => e.correlation_id is None,
                }
            },
    {
        let entry = match LogEntry::new(LogLevel::Error, LogCategory::Error, error.user_message()) {
            Some(e) => e,
            None => return None,
        };
        let entry = entry.with_component(component).with_details(error_details(error));
        match correlation_id {
            Some(id) => Some(entry.with_correlation_id(id)),
            None => Some(entry),
        }
    }

    /// The entry logged for a line of a child process's output.
    pub fn for_process_output(process_name: &str, output_type: &str, content: &str, pid: Option<u32>) -> (res: Option<Self>)
        ensures
            res matches Some(e) ==> {
                &&& uuid_text(e.id@)
                &&& in_utc_range(e.timestamp_ms as int)
                &&& e.level == LogLevel::Debug
                &&& e.category == LogCategory::Process
                &&& e.component matches Some(c) && c@ == "ProcessMonitor"@
                &&& e.details matches Some(d) && d@ == process_details_text(process_name@, output_type@, content@, pid)
                &&& e.correlation_id is None
                &&& exists|start: int, end: int| trimmed(content@, start, end)
                    && e.message@ == process_name@ + " "@ + output_type@ + ": "@ + content@.subrange(start, end)
            },
    {
        let t = trim(content);
        let mut message = cat4(process_name, " ", output_type, ": ");
        message.append(t.as_str());
        match LogEntry::new(LogLevel::Debug, LogCategory::Process, message) {
            Some(e) => Some(e.with_component("ProcessMonitor")
                .with_details(process_details(process_name, output_type, content, pid))),
            None => None,
        }
    }

    /// The entry logged for a user action.
    pub fn for_user_action(action: &str, details_json: Option<String>) -> (res: Option<Self>)
        ensures
            res matches Some(e) ==> {
                &&& uuid_text(e.id@)
                &&& in_utc_range(e.timestamp_ms as int)
                &&& e.level == LogLevel::Info
                &&& e.category == LogCategory::UserAction
                &&& e.message@ == "User action: "@ + action@
                &&& e.component matches Some(c) && c@ == "UserInterface"@
                &&& e.details == details_json
                &&& e.correlation_id is None
            },
    {
        let entry = match LogEntry::new(LogLevel::Info, LogCategory::UserAction, cat2("User action: ", action)) {
            Some(e) => e.with_component("UserInterface"),
            None => return None,
        };
        match details_json {
            Some(d) => Some(entry.with_details(d)),
            None => Some(entry),
        }
    }

    /// The entry logged for a health check: debug level when it passed, a
    /// warning when it failed.
    pub fn for_health_check(service: &str, healthy: bool, url: Option<&str>, response_time_ms: Option<u64>) -> (res: Option<Self>)
        ensures
            res matches Some(e) ==> {
                &&& uuid_text(e.id@)
                &&& in_utc_range(e.timestamp_ms as int)
                &&& e.level == (if healthy { LogLevel::Debug } else { LogLevel::Warn })
                &&& e.category == LogCategory::HealthCheck
                &&& e.message@ == service@ + (if healthy { " health check passed"@ } else { " health check failed"@ })
                &&& e.component matches Some(c) && c@ == "HealthMonitor"@
                &&& e.details matches Some(d) && d@ == health_details_text(service@, healthy,
                    match url { Some(u) => Some(u@), None => None }, response_time_ms)
                &&& e.correlation_id is None
            },
    {
        let level = if healthy { LogLevel::Debug } else { LogLevel::Warn };
        let message = if healthy {
            cat2(service, " health check passed")
        } else {
            cat2(service, " health check failed")
        };
        match LogEntry::new(level, LogCategory::HealthCheck, message) {
            Some(e) => Some(e.with_component("HealthMonitor")
                .with_details(health_details(service, healthy, url, response_time_ms))),
            None => None,
        }
    }
}

/// The name of an error's variant, as recorded in the details of its log entry.
pub open spec fn error_type_text(error: MindLinkError) -> Seq<char> {
    match error {
        MindLinkError::Authentication { .. } => "Authentication"@,
        MindLinkError::Network { .. } => "Network"@,
        MindLinkError::BinaryExecution { .. } => "BinaryExecution"@,
        MindLinkError::Configuration { .. } => "Configuration"@,
        MindLinkError::FileSystem { .. } => "FileSystem"@,
        MindLinkError::ProcessMonitoring { .. } => "ProcessMonitoring"@,
        MindLinkError::HealthCheck { .. } => "HealthCheck"@,
        MindLinkError::Tunnel { .. } => "Tunnel"@,
        MindLinkError::SystemResource { .. } => "SystemResource"@,
        MindLinkError::Internal { .. } => "Internal"@,
    }
}

/// The name of an error's variant.
pub fn error_type_name(error: &MindLinkError) -> (res: &'static str)
    ensures
        res@ == error_type_text(*error),
{
    match error {
        MindLinkError::Authentication { .. } => "Authentication",
        MindLinkError::Network { .. } => "Network",
        MindLinkError::BinaryExecution { .. } => "BinaryExecution",
        MindLinkError::Configuration { .. } => "Configuration",
        MindLinkError::FileSystem { .. } => "FileSystem",
        MindLinkError::ProcessMonitoring { .. } => "ProcessMonitoring",
        MindLinkError::HealthCheck { .. } => "HealthCheck",
        MindLinkError::Tunnel { .. } => "Tunnel",
        MindLinkError::SystemResource { .. } => "SystemResource",
        MindLinkError::Internal { .. } => "Internal",
    }
}

/// `"key":value` in compact JSON, the value already written as JSON.
pub open spec fn json_member(key: Seq<char>, value_text: Seq<char>) -> Seq<char> {
    json_string_text(key) + ":"@ + value_text
}

fn json_member_string(key: &str, value_text: &str) -> (res: String)
    ensures
        res@ == json_member(key@, value_text@),
{
    let k = json_quote(key);
    cat3(k.as_str(), ":", value_text)
}

/// `true` or `false` as JSON.
pub open spec fn flag_text(b: bool) -> Seq<char> {
    if b { "true"@ } else { "false"@ }
}

/// A JSON string or null.
pub open spec fn opt_json_text(o: Option<Seq<char>>) -> Seq<char> {
    match o {
        Some(t) => json_string_text(t),
        None => "null"@,
    }
}

/// A JSON count or null.
pub open spec fn opt_count_text(o: Option<u64>) -> Seq<char> {
    match o {
        Some(n) => decimal(n as nat),
        None => "null"@,
    }
}

fn flag_string(b: bool) -> (res: &'static str)
    ensures
        res@ == flag_text(b),
{
    if b { "true" } else { "false" }
}

fn opt_json_string(o: Option<&str>) -> (res: String)
    ensures
        res@ == opt_json_text(match o { Some(t) => Some(t@), None => None }),
{
    match o {
        Some(t) => json_quote(t),
        None => owned("null"),
    }
}

fn opt_count_string(o: Option<u64>) -> (res: String)
    ensures
        res@ == opt_count_text(o),
{
    match o {
        Some(n) => decimal_string(n),
        None => owned("null"),
    }
}

fn object_of_four(a: &str, b: &str, c: &str, d: &str) -> (res: String)
    ensures
        res@ == "{"@ + a@ + ","@ + b@ + ","@ + c@ + ","@ + d@ + "}"@,
{
    let mut t = cat4("{", a, ",", b);
    t.append(",");
    t.append(c);
    t.append(",");
    t.append(d);
    t.append("}");
    t
}

/// The details recorded with a logged error, as compact JSON with sorted
/// keys: its variant, whether it is recoverable, the suggested action and its
/// technical description `technical`.
pub open spec fn error_details_text(error: MindLinkError, technical: Seq<char>) -> Seq<char> {
    "{"@ + json_member("error_type"@, json_string_text(error_type_text(error))) + ","@
        + json_member("recoverable"@, flag_text(error.recoverable())) + ","@
        + json_member("suggested_action"@, json_string_text(error.advice())) + ","@
        + json_member("technical_details"@, json_string_text(technical)) + "}"@
}

/// The details recorded with a logged error.
pub fn error_details(error: &MindLinkError) -> (res: String)
    ensures
        exists|causes: Seq<String>| #[trigger] error.causes_of(causes)
            && res@ == error_details_text(*error, error.technical_text(views(causes))),
{
    let kind = json_quote(error_type_name(error));
    let a = json_member_string("error_type", kind.as_str());
    let b = json_member_string("recoverable", flag_string(error.is_recoverable()));
    let advice = match error.suggested_action() {
        Some(t) => t,
        None => String::new(),
    };
    let advice_text = json_quote(advice.as_str());
    let c = json_member_string("suggested_action", advice_text.as_str());
    let details = error.technical_details();
    let details_text = json_quote(details.as_str());
    let d = json_member_string("technical_details", details_text.as_str());
    object_of_four(a.as_str(), b.as_str(), c.as_str(), d.as_str())
}

/// The details recorded with a line of process output, as compact JSON with
/// sorted keys.
pub open spec fn process_details_text(process_name: Seq<char>, output_type: Seq<char>, content: Seq<char>, pid: Option<u32>) -> Seq<char> {
    "{"@ + json_member("content"@, json_string_text(content)) + ","@
        + json_member("output_type"@, json_string_text(output_type)) + ","@
        + json_member("pid"@, match pid { Some(p) => decimal(p as nat), None => "null"@ }) + ","@
        + json_member("process_name"@, json_string_text(process_name)) + "}"@
}

/// The details recorded with a line of process output.
pub fn process_details(process_name: &str, output_type: &str, content: &str, pid: Option<u32>) -> (res: String)
    ensures
        res@ == process_details_text(process_name@, output_type@, content@, pid),
{
    let ct = json_quote(content);
    let a = json_member_string("content", ct.as_str());
    let ot = json_quote(output_type);
    let b = json_member_string("output_type", ot.as_str());
    let pt = match pid {
        Some(p) => decimal_string(p as u64),
        None => owned("null"),
    };
    let c = json_member_string("pid", pt.as_str());
    let pn = json_quote(process_name);
    let d = json_member_string("process_name", pn.as_str());
    object_of_four(a.as_str(), b.as_str(), c.as_str(), d.as_str())
}

/// The details recorded with a health check, as compact JSON with sorted
/// keys.
pub open spec fn health_details_text(service: Seq<char>, healthy: bool, url: Option<Seq<char>>, response_time_ms: Option<u64>) -> Seq<char> {
    "{"@ + json_member("healthy"@, flag_text(healthy)) + ","@
        + json_member("response_time_ms"@, opt_count_text(response_time_ms)) + ","@
        + json_member("service"@, json_string_text(service)) + ","@
        + json_member("url"@, opt_json_text(url)) + "}"@
}

/// The details recorded with a health check.
pub fn health_details(service: &str, healthy: bool, url: Option<&str>, response_time_ms: Option<u64>) -> (res: String)
    ensures
        res@ == health_details_text(service@, healthy, match url { Some(u) => Some(u@), None => None }, response_time_ms),
{
    let a = json_member_string("healthy", flag_string(healthy));
    let rt = opt_count_string(response_time_ms);
    let b = json_member_string("response_time_ms", rt.as_str());
    let st = json_quote(service);
    let c = json_member_string("service", st.as_str());
    let ut = opt_json_string(url);
    let d = json_member_string("url", ut.as_str());
    object_of_four(a.as_str(), b.as_str(), c.as_str(), d.as_str())
}

/// One step of log rotation: the rotated file with number `from` is deleted,
/// or renamed to number `to`.
#[derive(PartialEq, Eq, Structural, Clone, Copy)]
pub enum RotationStep {
    Delete { index: usize },
    Rename { from: usize, to: usize },
}

/// The steps of rotating the numbered log files when at most `max_files`
/// files are kept: from the highest number down to 1, the oldest kept file is
/// deleted and each other is moved one number up.
pub open spec fn rotation_steps(max_files: nat) -> Seq<RotationStep> {
    if max_files < 2 {
        Seq::empty()
    } else {
        Seq::new((max_files - 1) as nat, |j: int| {
            let i = max_files - 1 - j;
            if j == 0 {
                RotationStep::Delete { index: i as usize }
            } else {
                RotationStep::Rename { from: i as usize, to: (i + 1) as usize }
            }
        })
    }
}

/// Where and how the log file is written and rotated.
pub struct LogSettings {
    log_file_path: String,
    max_file_size: u64,
    max_files: usize,
    console_enabled: bool,
}

impl LogSettings {
    pub closed spec fn path(&self) -> Seq<char> {
        self.log_file_path@
    }

    pub closed spec fn size_limit(&self) -> u64 {
        self.max_file_size
    }

    pub closed spec fn file_limit(&self) -> usize {
        self.max_files
    }

    pub closed spec fn console(&self) -> bool {
        self.console_enabled
    }

    /// Settings for the log file at `log_file_path`: rotate past 10 MiB, keep
    /// five files, echo to the console.
    pub fn new(log_file_path: String) -> (res: Self)
        ensures
            res.path() == log_file_path@,
            res.size_limit() == 10 * 1024 * 1024,
            res.file_limit() == 5,
            res.console(),
    {
        LogSettings { log_file_path, max_file_size: 10 * 1024 * 1024, max_files: 5, console_enabled: true }
    }

    /// Configure console logging.
    pub fn set_console_enabled(&mut self, enabled: bool)
        ensures
            final(self).console() == enabled,
            final(self).path() == old(self).path(),
            final(self).size_limit() == old(self).size_limit(),
            final(self).file_limit() == old(self).file_limit(),
    {
        self.console_enabled = enabled;
    }

    /// Configure the size past which the log is rotated.
    pub fn set_max_file_size(&mut self, size: u64)
        ensures
            final(self).size_limit() == size,
            final(self).path() == old(self).path(),
            final(self).console() == old(self).console(),
            final(self).file_limit() == old(self).file_limit(),
    {
        self.max_file_size = size;
    }

    /// Configure how many log files are kept.
    pub fn set_max_files(&mut self, count: usize)
        ensures
            final(self).file_limit() == count,
            final(self).path() == old(self).path(),
            final(self).console() == old(self).console(),
            final(self).size_limit() == old(self).size_limit(),
    {
        self.max_files = count;
    }

    /// The current log file path.
    pub fn get_log_file_path(&self) -> (res: &str)
        ensures
            res@ == self.path(),
    {
        self.log_file_path.as_str()
    }

    /// Whether entries are echoed to the console.
    pub fn console_enabled(&self) -> (res: bool)
        ensures
            res == self.console(),
    {
        self.console_enabled
    }

    /// Whether a log file of `size` bytes must be rotated.
    pub fn needs_rotation(&self, size: u64) -> (res: bool)
        ensures
            res == (size > self.size_limit()),
    {
        size > self.max_file_size
    }

    /// The steps that rotate the numbered log files, before the current file
    /// becomes number 1.  Steps on files that do not exist are skipped.
    pub fn rotation_plan(&self) -> (res: Vec<RotationStep>)
        ensures
            res@ == rotation_steps(self.file_limit() as nat),
    {
        let mut plan: Vec<RotationStep> = Vec::new();
        if self.max_files < 2 {
            assert(plan@ =~= rotation_steps(self.max_files as nat));
            return plan;
        }
        let top = self.max_files - 1;
        let mut i: usize = top;
        while i >= 1
            invariant
                top == self.max_files - 1,
                self.max_files >= 2,
                0 <= i <= top,
                plan@.len() == top - i,
                forall|j: int| 0 <= j < plan@.len() ==> plan@[j] == rotation_steps(self.max_files as nat)[j],
            decreases i,
        {
            if i == top {
                plan.push(RotationStep::Delete { index: i });
            } else {
                plan.push(RotationStep::Rename { from: i, to: i + 1 });
            }
            i = i - 1;
        }
        assert(plan@ =~= rotation_steps(self.max_files as nat));
        plan
    }
}

/// The name of the rotated log file with number `index`.
pub open spec fn rotated_name(index: nat) -> Seq<char> {
    "mindlink.log."@ + decimal(index)
}

/// The name of the rotated log file with number `index`.
pub fn rotated_log_name(index: usize) -> (res: String)
    ensures
        res@ == rotated_name(index as nat),
{
    let d = decimal_string(index as u64);
    cat2("mindlink.log.", d.as_str())
}

} // verus!
