use boite_core::fast_mcp_ssh;
use boite_core::fastpick::{list_args, list_blocking, version_blocking, MAX_OUTPUT};
use boite_core::{now_ms, timestamp_of};

#[test]
fn fastpick_version_blocking_does_not_panic() {
    for (ran, success, out) in [
        (false, false, &b""[..]),
        (true, false, &b"fastpick 0.2.1\n"[..]),
        (true, true, &b"fastpick 0.2.1\n"[..]),
        (true, true, &b"\n"[..]),
    ] {
        let result = version_blocking(ran, success, out);
        match &result {
            Some(v) => assert!(!v.is_empty(), "version must be non-empty when present"),
            None => {}
        }
    }
    assert_eq!(version_blocking(true, true, b"fastpick 0.2.1\n").as_deref(), Some("0.2.1"));
    assert_eq!(version_blocking(true, true, b"   \n"), None);
}

#[test]
fn fast_mcp_ssh_version_blocking_does_not_panic() {
    for (ran, success, out) in [(false, false, &b""[..]), (true, true, &b"fast-mcp-ssh 0.5.0"[..])] {
        let result = fast_mcp_ssh::version_blocking(ran, success, out);
        match &result {
            Some(v) => assert!(!v.is_empty(), "version must be non-empty when present"),
            None => {}
        }
    }
    assert_eq!(fast_mcp_ssh::version_blocking(true, true, b"fast-mcp-ssh 0.5.0").as_deref(), Some("0.5.0"));
    assert_eq!(fast_mcp_ssh::version_blocking(true, false, b"fast-mcp-ssh 0.5.0"), None);
}

#[test]
fn list_blocking_does_not_panic() {
    let args = list_args(&None, false);
    assert_eq!(args, vec!["--list".to_string(), "--json".to_string()]);
    for result in [
        list_blocking(true, b"{\"schema\":1}".to_vec(), b"", "exit status: 0"),
        list_blocking(false, vec![], b"", "exit status: 2"),
        list_blocking(false, vec![], b"no config\n", "exit status: 2"),
    ] {
        match &result {
            Ok(s) => assert!(!s.is_empty(), "JSON payload must be non-empty on success"),
            Err(e) => assert!(
                e.contains("fastpick") || e.contains("exited"),
                "error should mention fastpick or its exit status: {e}"
            ),
        }
    }
    assert_eq!(
        list_blocking(false, vec![], b"", "exit status: 2").unwrap_err(),
        "fastpick exited with exit status: 2"
    );
}

#[test]
fn every_fastpick_failure_names_fastpick_and_a_success_is_never_empty() {
    assert_eq!(
        list_blocking(false, vec![], b"  boom\n", "exit status: 1").unwrap_err(),
        "fastpick exited with exit status: 1: boom"
    );
    assert_eq!(list_blocking(true, vec![], b"", "exit status: 0").unwrap_err(), "fastpick printed nothing");
    assert_eq!(list_blocking(true, b"{}".to_vec(), b"", "exit status: 0").unwrap(), "{}");
}

#[test]
fn list_blocking_with_provider_does_not_panic() {
    let args = list_args(&Some("openai".to_string()), true);
    assert_eq!(args, vec!["--list", "--json", "--provider", "openai", "--refresh"]);
    let result = list_blocking(true, b"{\"models\":[]}".to_vec(), b"", "exit status: 0");
    match &result {
        Ok(s) => assert!(!s.is_empty()),
        Err(e) => assert!(e.contains("fastpick") || e.contains("exited"), "{e}"),
    }
}

#[test]
fn what_fastpick_prints_is_bounded_and_must_be_text() {
    assert_eq!(
        list_blocking(true, vec![b'x'; MAX_OUTPUT + 1], b"", "0").unwrap_err(),
        "fastpick printed more than this can be expected to parse"
    );
    assert_eq!(list_blocking(true, vec![0xff], b"", "0").unwrap_err(), "fastpick printed invalid UTF-8");
}

#[test]
fn a_clock_before_the_epoch_reads_zero() {
    assert_eq!(timestamp_of(None), 0);
    assert_eq!(timestamp_of(Some(1_700_000_000_123)), 1_700_000_000_123);
    assert!(now_ms() > 1_600_000_000_000);
}
