use errlog::backtrace_anyhow;
use errlog::note::{make_note, u64_to_dec};
use errlog::severity::{severity_from_tag, str_equal, Severity};

#[test]
fn backtrace_of_success_is_empty() {
    let ok: Result<String, anyhow::Error> = Ok(String::from("anything"));
    assert!(backtrace_anyhow(ok).is_empty());
    let ok_unit: Result<(), anyhow::Error> = Ok(());
    assert!(backtrace_anyhow(ok_unit).is_empty());
}

#[test]
fn backtrace_skips_top_message_and_empty_causes() {
    // Chain, outermost first: ["top message", "", "disk full"].
    let err = anyhow::Error::msg("disk full")
        .context("")
        .context("top message");
    let flat: Result<(), anyhow::Error> = Err(err);
    assert_eq!(backtrace_anyhow(flat), vec![String::from("disk full")]);
}

#[test]
fn backtrace_keeps_order_of_retained_causes() {
    let err = anyhow::Error::msg("innermost")
        .context("middle")
        .context("outer")
        .context("top");
    let flat: Result<(), anyhow::Error> = Err(err);
    assert_eq!(
        backtrace_anyhow(flat),
        vec![
            String::from("outer"),
            String::from("middle"),
            String::from("innermost"),
        ]
    );
}

#[test]
fn backtrace_of_single_entry_chain_is_empty() {
    let err = anyhow::Error::msg("alone");
    let flat: Result<(), anyhow::Error> = Err(err);
    assert!(backtrace_anyhow(flat).is_empty());
}

#[test]
fn backtrace_twice_on_equal_failures_agrees() {
    let build = || -> Result<(), anyhow::Error> {
        Err(anyhow::Error::msg("root").context("").context("head"))
    };
    assert_eq!(backtrace_anyhow(build()), backtrace_anyhow(build()));
    assert_eq!(backtrace_anyhow(build()), vec![String::from("root")]);
}

#[test]
fn u64_to_dec_exact_values() {
    assert_eq!(u64_to_dec(0), "0");
    assert_eq!(u64_to_dec(7), "7");
    assert_eq!(u64_to_dec(40), "40");
    assert_eq!(u64_to_dec(1000), "1000");
    assert_eq!(u64_to_dec(u64::MAX), "18446744073709551615");
}

#[test]
fn make_note_with_and_without_message() {
    assert_eq!(
        make_note("src/x.rs", 7, Some("failed to open file /tmp/missing")),
        "src/x.rs:7 => failed to open file /tmp/missing"
    );
    assert_eq!(make_note("src/x.rs", 7, None), "src/x.rs:7");
}

#[test]
fn severity_tags_route_to_their_emitters() {
    assert_eq!(severity_from_tag("TRACE"), Some(Severity::Trace));
    assert_eq!(severity_from_tag("DEBUG"), Some(Severity::Debug));
    assert_eq!(severity_from_tag("INFO"), Some(Severity::Info));
    assert_eq!(severity_from_tag("WARN"), Some(Severity::Warn));
    assert_eq!(severity_from_tag("ERROR"), Some(Severity::Error));
    assert_eq!(severity_from_tag("FATAL"), None);
    assert_eq!(severity_from_tag("warn"), None);
    assert_eq!(severity_from_tag(""), None);
}

#[test]
fn str_equal_compares_by_characters() {
    assert!(str_equal("", ""));
    assert!(str_equal("abc", "abc"));
    assert!(!str_equal("abc", "abd"));
    assert!(!str_equal("abc", "ab"));
    assert!(str_equal("naïve", "naïve"));
    assert!(!str_equal("naïve", "naive"));
}
