use errata_catch::hook::HookStack;
use errata_catch::location::{format_location, push_decimal, SourceLocation};
use errata_catch::relay::{LocationRelay, RecvError};
use errata_catch::report::{
    backtrace_hint, classify, format_message, report, settle, BacktraceStatus, Outcome, Payload,
};

const HINT: &str = "run with `RUST_BACKTRACE=1` environment variable to display a backtrace";

fn at_main() -> String {
    SourceLocation::new("src/main.rs".to_string(), 3, 9).suffix()
}

#[test]
fn location_suffix_renders_file_line_column() {
    assert_eq!(at_main(), " (at src/main.rs:3:9)");
    let loc = SourceLocation::new("a/b.rs".to_string(), 120, 45);
    assert_eq!(format_location(&Some(loc)), " (at a/b.rs:120:45)");
}

#[test]
fn missing_location_renders_empty() {
    assert_eq!(format_location(&None), "");
}

#[test]
fn decimal_edges() {
    let mut s = String::new();
    push_decimal(&mut s, 0);
    assert_eq!(s, "0");
    let mut s = String::from("n=");
    push_decimal(&mut s, 10);
    assert_eq!(s, "n=10");
    let mut s = String::new();
    push_decimal(&mut s, u32::MAX);
    assert_eq!(s, "4294967295");
}

#[test]
fn relay_delivers_the_first_send_once() {
    let mut relay = LocationRelay::new();
    assert!(relay.send(" (at x.rs:1:2)".to_string()));
    assert!(!relay.send(" (at y.rs:3:4)".to_string()));
    assert_eq!(relay.recv(), Ok(" (at x.rs:1:2)".to_string()));
    assert_eq!(relay.recv(), Err(RecvError::AlreadyReceived));
    assert!(!relay.send(" (at z.rs:5:6)".to_string()));
}

#[test]
fn relay_with_nothing_sent_fails_to_receive() {
    let mut relay = LocationRelay::new();
    assert_eq!(relay.recv(), Err(RecvError::NothingSent));
    assert_eq!(RecvError::NothingSent.message(), "no location was sent");
    assert_eq!(RecvError::AlreadyReceived.message(), "the location was already received");
}

#[test]
fn completed_block_writes_nothing_and_exits_zero() {
    let v = settle(&Outcome::Completed, Err(RecvError::NothingSent), &BacktraceStatus::Disabled);
    assert!(v.lines.is_empty());
    assert_eq!(v.internal_notice, None);
    assert_eq!(v.exit_status, 0);
}

#[test]
fn literal_boom_is_reported_with_location() {
    let v = settle(
        &Outcome::Terminated(Payload::Literal("boom".to_string())),
        Ok(at_main()),
        &BacktraceStatus::Disabled,
    );
    assert_eq!(v.lines, vec!["error (at src/main.rs:3:9): boom".to_string(), HINT.to_string()]);
    assert_eq!(v.internal_notice, None);
    assert_eq!(v.exit_status, 1);
}

#[test]
fn owned_boom_is_reported_like_a_literal() {
    let v = settle(
        &Outcome::Terminated(Payload::Owned("boom".to_string())),
        Ok(String::new()),
        &BacktraceStatus::Unsupported,
    );
    assert_eq!(v.lines, vec!["error: boom".to_string()]);
    assert_eq!(v.exit_status, 1);
}

#[test]
fn domain_error_is_printed_verbatim() {
    let text = "config.toml:4: expected a table".to_string();
    let v = settle(
        &Outcome::Terminated(Payload::Domain(text.clone())),
        Ok(at_main()),
        &BacktraceStatus::Captured("0: main".to_string()),
    );
    assert_eq!(v.lines, vec![text]);
    assert_eq!(v.exit_status, 1);
}

#[test]
fn unknown_payload_is_unhandled() {
    let v = settle(&Outcome::Terminated(Payload::Unknown), Ok(at_main()), &BacktraceStatus::Disabled);
    assert_eq!(v.lines[0], "Unhandled error (at src/main.rs:3:9)");
    assert!(v.lines[0].starts_with("Unhandled error"));
    assert_eq!(v.lines[1], HINT);
    assert_eq!(v.exit_status, 1);
}

#[test]
fn captured_backtrace_follows_the_message() {
    let lines = report(
        &Payload::Literal("boom".to_string()),
        "",
        &BacktraceStatus::Captured("   0: app::main\n   1: std::rt".to_string()),
    );
    assert_eq!(lines, vec!["error: boom".to_string(), "   0: app::main\n   1: std::rt".to_string()]);
}

#[test]
fn disabled_backtrace_gives_the_hint_naming_the_switch() {
    let lines = report(&Payload::Owned("x".to_string()), "", &BacktraceStatus::Disabled);
    assert_eq!(lines[1], HINT);
    assert!(lines[1].contains("RUST_BACKTRACE"));
    assert_eq!(backtrace_hint(), HINT);
}

#[test]
fn unsupported_backtrace_adds_nothing() {
    let lines = report(&Payload::Unknown, "", &BacktraceStatus::Unsupported);
    assert_eq!(lines, vec!["Unhandled error".to_string()]);
}

#[test]
fn lost_location_still_reports_with_notice() {
    let mut relay = LocationRelay::new();
    let v = settle(
        &Outcome::Terminated(Payload::Literal("boom".to_string())),
        relay.recv(),
        &BacktraceStatus::Unsupported,
    );
    assert_eq!(v.lines, vec!["error: boom".to_string()]);
    assert_eq!(
        v.internal_notice,
        Some("internal errata error (failed to recieve location): no location was sent".to_string())
    );
    assert_eq!(v.exit_status, 1);
}

#[test]
fn wants_backtrace_only_for_non_domain_payloads() {
    assert!(!Payload::Domain("d".to_string()).wants_backtrace());
    assert!(Payload::Literal("l".to_string()).wants_backtrace());
    assert!(Payload::Owned("o".to_string()).wants_backtrace());
    assert!(Payload::Unknown.wants_backtrace());
}

#[test]
fn format_message_per_payload() {
    assert_eq!(format_message(&Payload::Literal("m".to_string()), " (at f:1:1)"), "error (at f:1:1): m");
    assert_eq!(format_message(&Payload::Unknown, ""), "Unhandled error");
    assert_eq!(format_message(&Payload::Domain("d".to_string()), " (at f:1:1)"), "d");
}

#[test]
fn sequential_regions_restore_and_reinstall() {
    let mut hooks: HookStack<&str> = HookStack::new();
    assert!(!hooks.is_active());
    hooks.install("default");
    assert_eq!(hooks.depth(), 1);
    assert_eq!(hooks.restore(), Some("default"));
    assert!(!hooks.is_active());
    hooks.install("default");
    assert!(hooks.is_active());
    assert_eq!(hooks.restore(), Some("default"));
    assert_eq!(hooks.restore(), None);
}

#[test]
fn nested_regions_restore_innermost_first() {
    let mut hooks: HookStack<u32> = HookStack::new();
    hooks.install(1);
    hooks.install(2);
    assert_eq!(hooks.depth(), 2);
    assert_eq!(hooks.restore(), Some(2));
    assert_eq!(hooks.restore(), Some(1));
    assert_eq!(hooks.depth(), 0);
}

#[test]
fn classification_order_is_domain_literal_owned() {
    let d = Some("domain".to_string());
    let l = Some("literal".to_string());
    let o = Some("owned".to_string());
    assert!(matches!(classify(d.clone(), l.clone(), o.clone()), Payload::Domain(t) if t == "domain"));
    assert!(matches!(classify(None, l.clone(), o.clone()), Payload::Literal(m) if m == "literal"));
    assert!(matches!(classify(None, None, o.clone()), Payload::Owned(m) if m == "owned"));
    assert!(matches!(classify(None, None, None), Payload::Unknown));
}

#[test]
fn lost_location_notice_keeps_its_wording() {
    let v = settle(
        &Outcome::Terminated(classify(None, Some("boom".to_string()), None)),
        LocationRelay::new().recv(),
        &BacktraceStatus::Disabled,
    );
    let notice = v.internal_notice.unwrap();
    assert!(notice.starts_with("internal errata error (failed to recieve location): "));
    assert_eq!(v.lines, vec!["error: boom".to_string(), HINT.to_string()]);
    assert_eq!(v.exit_status, 1);
}
