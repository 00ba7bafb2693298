//! Classification of a termination payload and the diagnostic it yields.
use vstd::prelude::*;
use crate::location::{SourceLocation, suffix_of};
use crate::relay::{RecvError, recv_error_text};

verus! {

/// What an abnormal termination carried, as told apart by its runtime type.
pub enum Payload {
    /// A domain error value, held as its own display text.
    Domain(String),
    /// A string literal message.
    Literal(String),
    /// An owned string message.
    Owned(String),
    /// A value of any other type: its content cannot be recovered.
    Unknown,
}

/// What came of capturing a backtrace at the report site.
pub enum BacktraceStatus {
    /// A backtrace was captured; its rendered text.
    Captured(String),
    /// Capture is switched off by the environment.
    Disabled,
    /// Capture is not available on this platform.
    Unsupported,
}

/// How a protected block ended.
pub enum Outcome {
    /// The block ran to completion.
    Completed,
    /// The block terminated abnormally with this payload.
    Terminated(Payload),
}

/// What the process does once a protected block has ended.
pub struct Verdict {
    /// A notice about the relay itself, kept apart from the user's diagnostic.
    pub internal_notice: Option<String>,
    /// The diagnostic lines, in the order they are written.
    pub lines: Vec<String>,
    /// The exit status; 0 means the caller simply returns.
    pub exit_status: i32,
}

pub open spec fn backtrace_hint_text() -> Seq<char> {
    "run with `RUST_BACKTRACE=1` environment variable to display a backtrace"@
}

pub open spec fn relay_notice_text(e: RecvError) -> Seq<char> {
    "internal errata error (failed to recieve location): "@ + recv_error_text(e)
}

/// The message line for a payload, given the rendered location suffix.
pub open spec fn message_line(p: Payload, location: Seq<char>) -> Seq<char> {
    match p {
        Payload::Domain(text) => text@,
        Payload::Literal(m) => "error"@ + location + ": "@ + m@,
        Payload::Owned(m) => "error"@ + location + ": "@ + m@,
        Payload::Unknown => "Unhandled error"@ + location,
    }
}

/// Whether a payload's report is followed by a backtrace section. A domain
/// error already carries its own context.
pub open spec fn has_backtrace_section(p: Payload) -> bool {
    !(p is Domain)
}

/// The lines of a backtrace section.
pub open spec fn backtrace_lines(bt: BacktraceStatus) -> Seq<Seq<char>> {
    match bt {
        BacktraceStatus::Captured(text) => seq![text@],
        BacktraceStatus::Disabled => seq![backtrace_hint_text()],
        BacktraceStatus::Unsupported => Seq::empty(),
    }
}

/// The full diagnostic for a payload.
pub open spec fn diagnostic(p: Payload, location: Seq<char>, bt: BacktraceStatus) -> Seq<Seq<char>> {
    if has_backtrace_section(p) {
        seq![message_line(p, location)] + backtrace_lines(bt)
    } else {
        seq![message_line(p, location)]
    }
}

/// The text of each line.
pub open spec fn texts(lines: Seq<String>) -> Seq<Seq<char>> {
    lines.map_values(|s: String| s@)
}

/// The location used for a report: what the relay delivered, or nothing.
pub open spec fn received_location(received: Result<String, RecvError>) -> Seq<char> {
    match received {
        Ok(s) => s@,
        Err(_) => Seq::empty(),
    }
}

/// The diagnostic lines written once a block has ended.
pub open spec fn verdict_lines(
    outcome: Outcome,
    received: Result<String, RecvError>,
    bt: BacktraceStatus,
) -> Seq<Seq<char>> {
    match outcome {
        Outcome::Completed => Seq::empty(),
        Outcome::Terminated(p) => diagnostic(p, received_location(received), bt),
    }
}

/// The exit status once a block has ended.
pub open spec fn verdict_status(outcome: Outcome) -> int {
    match outcome {
        Outcome::Completed => 0,
        Outcome::Terminated(_) => 1,
    }
}

/// The relay notice once a block has ended: only a terminated block reads the
/// relay, and only a failed read is noted.
pub open spec fn verdict_notice(outcome: Outcome, received: Result<String, RecvError>) -> Option<
    Seq<char>,
> {
    match (outcome, received) {
        (Outcome::Terminated(_), Err(e)) => Some(relay_notice_text(e)),
        _ => None,
    }
}

/// The line that tells the operator how to switch backtraces on.
pub fn backtrace_hint() -> (r: &'static str)
    ensures
        r@ == backtrace_hint_text(),
{
    proof {
        reveal_strlit("run with `RUST_BACKTRACE=1` environment variable to display a backtrace");
    }
    "run with `RUST_BACKTRACE=1` environment variable to display a backtrace"
}

impl Payload {
    /// Whether a backtrace is to be captured for this payload.
    pub fn wants_backtrace(&self) -> (r: bool)
        ensures
            r == has_backtrace_section(*self),
    {
        match self {
            Payload::Domain(_) => false,
            _ => true,
        }
    }
}

/// The payload for the outcomes of the type tests, taken in this order: the
/// domain error type (its display text), a string literal, an owned string.
/// The first test that matched decides; when none did, the payload is unknown.
pub open spec fn classified(
    domain: Option<String>,
    literal: Option<String>,
    owned: Option<String>,
) -> Payload {
    match (domain, literal, owned) {
        (Some(text), _, _) => Payload::Domain(text),
        (None, Some(m), _) => Payload::Literal(m),
        (None, None, Some(m)) => Payload::Owned(m),
        (None, None, None) => Payload::Unknown,
    }
}

/// Classifies a payload from the outcomes of the type tests on it, in the
/// order domain error, string literal, owned string.
pub fn classify(domain: Option<String>, literal: Option<String>, owned: Option<String>) -> (r:
    Payload)
    ensures
        r == classified(domain, literal, owned),
{
    match domain {
        Some(text) => Payload::Domain(text),
        None => match literal {
            Some(m) => Payload::Literal(m),
            None => match owned {
                Some(m) => Payload::Owned(m),
                None => Payload::Unknown,
            },
        },
    }
}

/// The message line for `payload`, with `location` as its location suffix.
pub fn format_message(payload: &Payload, location: &str) -> (r: String)
    ensures
        r@ == message_line(*payload, location@),
{
    proof {
        reveal_strlit("error");
        reveal_strlit(": ");
        reveal_strlit("Unhandled error");
    }
    match payload {
        Payload::Domain(text) => text.clone(),
        Payload::Literal(m) | Payload::Owned(m) => {
            let mut r = String::from_str("error");
            r.append(location);
            r.append(": ");
            r.append(m.as_str());
            r
        },
        Payload::Unknown => {
            let mut r = String::from_str("Unhandled error");
            r.append(location);
            r
        },
    }
}

/// The diagnostic for `payload`: its message line, then, unless it is a
/// domain error, the backtrace if one was captured or the hint if capture is
/// switched off.
pub fn report(payload: &Payload, location: &str, backtrace: &BacktraceStatus) -> (r: Vec<String>)
    ensures
        texts(r@) == diagnostic(*payload, location@, *backtrace),
        r@.len() == diagnostic(*payload, location@, *backtrace).len(),
{
    let mut lines: Vec<String> = Vec::new();
    lines.push(format_message(payload, location));
    if payload.wants_backtrace() {
        match backtrace {
            BacktraceStatus::Captured(text) => lines.push(text.clone()),
            BacktraceStatus::Disabled => lines.push(String::from_str(backtrace_hint())),
            BacktraceStatus::Unsupported => {},
        }
    }
    assert(texts(lines@) =~= diagnostic(*payload, location@, *backtrace));
    lines
}

/// The notice written when the relay yielded no location.
pub fn relay_notice(e: RecvError) -> (r: String)
    ensures
        r@ == relay_notice_text(e),
{
    proof {
        reveal_strlit("internal errata error (failed to recieve location): ");
    }
    let mut r = String::from_str("internal errata error (failed to recieve location): ");
    r.append(e.message());
    r
}

/// What to do once a protected block has ended. A completed block writes
/// nothing and exits with 0. A terminated block is reported with the location
/// the relay delivered, or with none (and a notice) when the relay delivered
/// nothing, and exits with 1.
pub fn settle(outcome: &Outcome, received: Result<String, RecvError>, backtrace: &BacktraceStatus) -> (r: Verdict)
    ensures
        texts(r.lines@) == verdict_lines(*outcome, received, *backtrace),
        r.lines@.len() == verdict_lines(*outcome, received, *backtrace).len(),
        r.exit_status == verdict_status(*outcome),
        match (r.internal_notice, verdict_notice(*outcome, received)) {
            (Some(n), Some(t)) => n@ == t,
            (None, None) => true,
            _ => false,
        },
{
    match outcome {
        Outcome::Completed => {
            let lines: Vec<String> = Vec::new();
            assert(texts(lines@) =~= Seq::<Seq<char>>::empty());
            Verdict { internal_notice: None, lines, exit_status: 0 }
        },
        Outcome::Terminated(payload) => {
            let (location, internal_notice) = match received {
                Ok(l) => (l, None),
                Err(e) => (String::new(), Some(relay_notice(e))),
            };
            let lines = report(payload, location.as_str(), backtrace);
            Verdict { internal_notice, lines, exit_status: 1 }
        },
    }
}

/// A block that runs to completion writes no diagnostic and no notice, and
/// the process goes on with status 0.
pub proof fn completed_block_is_silent(received: Result<String, RecvError>, bt: BacktraceStatus)
    ensures
        verdict_lines(Outcome::Completed, received, bt) == Seq::<Seq<char>>::empty(),
        verdict_notice(Outcome::Completed, received) is None,
        verdict_status(Outcome::Completed) == 0,
{
}

/// A block that terminates with a string message, literal or owned, is
/// reported on a first line `error{location}: {message}`, where the location
/// is ` (at FILE:LINE:COL)` when the hook saw one and the relay delivered it,
/// and empty otherwise; the process exits with 1.
pub proof fn string_message_is_reported(
    message: String,
    owned: bool,
    loc: Option<SourceLocation>,
    received: Result<String, RecvError>,
    bt: BacktraceStatus,
)
    requires
        received is Ok ==> received->Ok_0@ == suffix_of(loc),
    ensures
        ({
            let p = if owned {
                Payload::Owned(message)
            } else {
                Payload::Literal(message)
            };
            let suffix = if received is Ok {
                suffix_of(loc)
            } else {
                Seq::empty()
            };
            &&& verdict_lines(Outcome::Terminated(p), received, bt)[0] == "error"@ + suffix + ": "@
                + message@
            &&& verdict_status(Outcome::Terminated(p)) == 1
        }),
        suffix_of(loc) == Seq::<char>::empty() || suffix_of(loc).take(5) == " (at "@,
{
    match loc {
        Some(l) => {
            reveal_strlit(" (at ");
            assert(suffix_of(loc).take(5) =~= " (at "@);
        },
        None => {},
    }
}

/// A block that terminates with a domain error is reported by that error's
/// display text alone: no prefix, no location and no backtrace section.
pub proof fn domain_error_is_verbatim(
    text: String,
    received: Result<String, RecvError>,
    bt: BacktraceStatus,
)
    ensures
        verdict_lines(Outcome::Terminated(Payload::Domain(text)), received, bt) == seq![text@],
        verdict_status(Outcome::Terminated(Payload::Domain(text))) == 1,
{
}

/// A block that terminates with a payload of any other type is reported on a
/// line that begins with `Unhandled error`, and the process exits with 1.
pub proof fn unknown_payload_is_unhandled(received: Result<String, RecvError>, bt: BacktraceStatus)
    ensures
        verdict_lines(Outcome::Terminated(Payload::Unknown), received, bt)[0].take(15)
            == "Unhandled error"@,
        verdict_status(Outcome::Terminated(Payload::Unknown)) == 1,
{
    reveal_strlit("Unhandled error");
    assert(("Unhandled error"@ + received_location(received)).take(15) =~= "Unhandled error"@);
}

/// Unless the payload is a domain error, the message line is followed by the
/// captured backtrace when capture is on, by the hint naming the switch when
/// it is off, and by nothing when it is unsupported.
pub proof fn backtrace_section_follows_status(
    p: Payload,
    received: Result<String, RecvError>,
    bt: BacktraceStatus,
)
    requires
        !(p is Domain),
    ensures
        ({
            let lines = verdict_lines(Outcome::Terminated(p), received, bt);
            let msg = message_line(p, received_location(received));
            match bt {
                BacktraceStatus::Captured(text) => lines == seq![msg, text@],
                BacktraceStatus::Disabled => lines == seq![msg, backtrace_hint_text()],
                BacktraceStatus::Unsupported => lines == seq![msg],
            }
        }),
{
    let msg = message_line(p, received_location(received));
    match bt {
        BacktraceStatus::Captured(text) => {
            assert(seq![msg] + seq![text@] =~= seq![msg, text@]);
        },
        BacktraceStatus::Disabled => {
            assert(seq![msg] + seq![backtrace_hint_text()] =~= seq![msg, backtrace_hint_text()]);
        },
        BacktraceStatus::Unsupported => {
            assert(seq![msg] + Seq::<Seq<char>>::empty() =~= seq![msg]);
        },
    }
}

/// When the relay delivers no location, the report still comes out in full,
/// with an empty location, beside a notice on the relay, and the process
/// exits with 1.
pub proof fn lost_location_degrades(p: Payload, e: RecvError, bt: BacktraceStatus)
    ensures
        verdict_lines(Outcome::Terminated(p), Err(e), bt) == diagnostic(p, Seq::empty(), bt),
        verdict_notice(Outcome::Terminated(p), Err::<String, RecvError>(e)) == Some(
            relay_notice_text(e),
        ),
        verdict_status(Outcome::Terminated(p)) == 1,
{
}

} // verus!
