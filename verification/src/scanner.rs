//! Classification of scanner output and the scan task's fixed decisions.
//!
//! Each stdout line of the scanner subprocess is either a structured JSON
//! object — logged under its own (uppercased) level — or an arbitrary line,
//! passed through verbatim under the `RAW` tag, so no line is ever dropped.
//! Whatever happens to the subprocess, a finished scan yields exactly one
//! [`AppEvent::ScanComplete`] for the coordination loop.

use crate::events::{AppEvent, BackendEvent};
use crate::logger::LogEntry;
use vstd::prelude::*;

verus! {

/// What `serde_json` extracts from one line: `Some` of the four optional
/// fields when the line is one JSON object whose `type`, `message`, `level`
/// and `msg` members, where present, are strings or null; `None` otherwise.
pub uninterp spec fn backend_fields_of(s: Seq<char>) -> Option<
    (Option<Seq<char>>, Option<Seq<char>>, Option<Seq<char>>, Option<Seq<char>>),
>;

/// Relies on serde_json::from_str: parses the line as one JSON object and
/// reads its optional string fields `type`, `message`, `level`, `msg`; a line
/// that is not such an object (or types a field otherwise) parses to `None`.
/// The outcome depends on the line alone.
#[verifier::external_body]
fn parse_backend_line(s: &str) -> (r: Option<BackendEvent>)
    ensures
        match r {
            Some(ev) => backend_fields_of(s@) == Some(ev@),
            None => backend_fields_of(s@) is None,
        },
{
    let m: serde_json::Map<String, serde_json::Value> = serde_json::from_str(s).ok()?;
    let field = |k: &str| match m.get(k) {
        None | Some(serde_json::Value::Null) => Some(None),
        Some(serde_json::Value::String(t)) => Some(Some(t.clone())),
        Some(_) => None,
    };
    let (kind, message) = (field("type")?, field("message")?);
    let (level, msg) = (field("level")?, field("msg")?);
    Some(BackendEvent { kind, message, level, msg })
}

/// What `str::to_uppercase` returns: a function of the characters alone.
pub uninterp spec fn upper_of(s: Seq<char>) -> Seq<char>;

/// Relies on str::to_uppercase: the result depends on the characters alone.
#[verifier::external_body]
fn to_upper(s: &str) -> (r: String)
    ensures
        r@ == upper_of(s@),
{
    s.to_uppercase()
}

/// The field itself where present, the fallback otherwise.
pub open spec fn spec_field_or(field: Option<Seq<char>>, fallback: Seq<char>) -> Seq<char> {
    match field {
        Some(s) => s,
        None => fallback,
    }
}

/// The `(level, message)` pair logged for one scanner output line: the
/// `{type, message}` shape is preferred, then `{level, msg}` — in both the
/// level tag is uppercased and defaults (`INFO` resp. `LOG`) — and any other
/// line is kept verbatim under `RAW`.
pub open spec fn spec_classify(line: Seq<char>) -> (Seq<char>, Seq<char>) {
    match backend_fields_of(line) {
        Some((kind, message, level, msg)) => match (message, msg) {
            (Some(m), _) => (upper_of(spec_field_or(kind, "INFO"@)), m),
            (None, Some(m)) => (upper_of(spec_field_or(level, "LOG"@)), m),
            (None, None) => ("RAW"@, line),
        },
        None => ("RAW"@, line),
    }
}

/// Turns one scanner output line into the log entry to append.
pub fn classify_scan_line(line: &str) -> (e: LogEntry)
    ensures
        e@ == spec_classify(line@),
{
    match parse_backend_line(line) {
        Some(ev) => {
            let kind = ev.kind;
            let message = ev.message;
            let level = ev.level;
            let msg = ev.msg;
            match message {
                Some(m) => {
                    let tag = match kind {
                        Some(k) => k,
                        None => "INFO".to_owned(),
                    };
                    LogEntry { level: to_upper(tag.as_str()), message: m }
                },
                None => match msg {
                    Some(m) => {
                        let tag = match level {
                            Some(l) => l,
                            None => "LOG".to_owned(),
                        };
                        LogEntry { level: to_upper(tag.as_str()), message: m }
                    },
                    None => LogEntry::new("RAW", line),
                },
            }
        },
        None => LogEntry::new("RAW", line),
    }
}

/// The argument vector for the scanner subprocess, run against one target URL.
pub fn scanner_args(url: &str) -> (args: Vec<String>)
    ensures
        args.deep_view() == seq!["run"@, "cmd/scanner/main.go"@, "-url"@, url@],
{
    let mut args: Vec<String> = Vec::new();
    args.push("run".to_owned());
    args.push("cmd/scanner/main.go".to_owned());
    args.push("-url".to_owned());
    args.push(url.to_owned());
    proof {
        assert(args.deep_view() =~= seq!["run"@, "cmd/scanner/main.go"@, "-url"@, url@]);
    }
    args
}

/// The entry logged when a scan is being launched.
pub fn scan_spawn_entry(url: &str) -> (e: LogEntry)
    ensures
        e@ == ("SYSTEM"@, "Spawning Scanner for "@ + url@ + "..."@),
{
    let mut message = String::from_str("Spawning Scanner for ");
    message.append(url);
    message.append("...");
    proof {
        assert(message@ =~= "Spawning Scanner for "@ + url@ + "..."@);
    }
    LogEntry { level: "SYSTEM".to_owned(), message }
}

/// The terminal entry of a scan and the completion signal. `failure` carries
/// the error text when the subprocess could not be spawned. Whichever way the
/// scan ended, the signal is [`AppEvent::ScanComplete`], so a launched scan
/// always yields exactly one completion signal.
pub fn scan_exit_actions(failure: Option<&str>) -> (r: (LogEntry, AppEvent))
    ensures
        r.1 == AppEvent::ScanComplete,
        match failure {
            Some(err) => r.0@ == ("ERROR"@, "Failed to start scanner: "@ + err@),
            None => r.0@ == ("SYSTEM"@, "Scan Process Finished."@),
        },
{
    let entry = match failure {
        Some(err) => {
            let mut message = String::from_str("Failed to start scanner: ");
            message.append(err);
            LogEntry { level: "ERROR".to_owned(), message }
        },
        None => LogEntry::new("SYSTEM", "Scan Process Finished."),
    };
    (entry, AppEvent::ScanComplete)
}

} // verus!
