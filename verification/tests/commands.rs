use wsbx::cli::{
    check_status, connect_args, exec_args, ip_args, list_args, share_args, start_args,
    stderr_error, stderr_read_failure_message, stop_args,
};
use wsbx::config::SandboxConfig;
use wsbx::environment::{ExecResult, IpResult};
use wsbx::{RunAs, SandboxEnvironment, SandboxError, SandboxId};

const ID_TEXT: &str = "12345678-1234-1234-1234-1234567890ab";

fn units(s: &str) -> Vec<u16> {
    s.encode_utf16().collect()
}

fn words(args: Vec<Vec<u16>>) -> Vec<String> {
    args.into_iter().map(|a| String::from_utf16(&a).unwrap()).collect()
}

fn sample_id() -> SandboxId {
    SandboxId::parse_str(ID_TEXT).unwrap()
}

#[test]
fn sandbox_id_parses_and_displays_hyphenated_lower_case() {
    let id = sample_id();
    assert_eq!(id.uuid(), 0x12345678_1234_1234_1234_1234567890ab);
    assert_eq!(id.to_string(), ID_TEXT);
    let upper: SandboxId = "12345678-1234-1234-1234-1234567890AB".parse().unwrap();
    assert_eq!(upper, id);
    assert_eq!(upper.to_string(), ID_TEXT);
    let simple = SandboxId::parse_str("123456781234123412341234567890ab").unwrap();
    assert_eq!(simple, id);
    let braced = SandboxId::parse_str("{12345678-1234-1234-1234-1234567890ab}").unwrap();
    assert_eq!(braced, id);
}

#[test]
fn sandbox_id_display_parses_back() {
    for v in [0u128, 1, u128::MAX, 0xfedcba98_7654_3210_0123_456789abcdef] {
        let id = SandboxId::new(v);
        assert_eq!(id.uuid(), v);
        let back = SandboxId::parse_str(&id.to_string()).unwrap();
        assert_eq!(back, id);
    }
    assert_eq!(SandboxId::new(0).to_string(), "00000000-0000-0000-0000-000000000000");
    assert_eq!(
        String::from_utf16(&SandboxId::new(u128::MAX).to_wide()).unwrap(),
        "ffffffff-ffff-ffff-ffff-ffffffffffff"
    );
}

#[test]
fn sandbox_id_rejects_bad_text() {
    for bad in ["", "not-a-uuid", "12345678-1234-1234-1234-1234567890a", "1234567g-1234-1234-1234-1234567890ab"] {
        match SandboxId::parse_str(bad) {
            Err(SandboxError::ParseSandboxId(_)) => {}
            other => panic!("unexpected result for {bad:?}: {other:?}"),
        }
    }
}

#[test]
fn start_command_lines() {
    assert_eq!(words(start_args(None, None)), vec!["--raw", "start"]);
    assert_eq!(
        words(start_args(Some(sample_id()), Some(units("<Configuration></Configuration>")))),
        vec!["--raw", "start", "--id", ID_TEXT, "--config", "<Configuration></Configuration>"]
    );
    let builder = SandboxEnvironment::builder()
        .id(sample_id())
        .config(SandboxConfig::new().networking(false.into()));
    assert_eq!(
        words(builder.start_args()),
        vec![
            "--raw",
            "start",
            "--id",
            ID_TEXT,
            "--config",
            "<Configuration><Networking>Disable</Networking></Configuration>"
        ]
    );
    let raw = SandboxEnvironment::builder().raw_config(units("<Configuration/>"));
    assert_eq!(words(raw.start_args()), vec!["--raw", "start", "--config", "<Configuration/>"]);
}

#[test]
fn other_command_lines() {
    let id = sample_id();
    assert_eq!(words(list_args()), vec!["--raw", "list"]);
    assert_eq!(words(stop_args(id)), vec!["--raw", "stop", "--id", ID_TEXT]);
    assert_eq!(words(connect_args(id)), vec!["--raw", "connect", "--id", ID_TEXT]);
    assert_eq!(words(ip_args(id)), vec!["--raw", "ip", "--id", ID_TEXT]);
    assert_eq!(
        words(exec_args(id, units("cmd.exe"), RunAs::System, None)),
        vec!["--raw", "exec", "--id", ID_TEXT, "--command", "cmd.exe", "--run-as", "System"]
    );
    assert_eq!(
        words(exec_args(id, units("cmd.exe"), RunAs::ExistingLogin, Some(units(r"C:\Windows")))),
        vec![
            "--raw",
            "exec",
            "--id",
            ID_TEXT,
            "--command",
            "cmd.exe",
            "--run-as",
            "ExistingLogin",
            "--working-directory",
            r"C:\Windows"
        ]
    );
    assert_eq!(
        words(share_args(id, units(r"C:\host"), units(r"C:\sandbox"), true)),
        vec![
            "--raw",
            "share",
            "--id",
            ID_TEXT,
            "--host-path",
            r"C:\host",
            "--sandbox-path",
            r"C:\sandbox",
            "--allow-write"
        ]
    );
    assert_eq!(
        words(share_args(id, units(r"C:\host"), units(r"C:\sandbox"), false)),
        vec!["--raw", "share", "--id", ID_TEXT, "--host-path", r"C:\host", "--sandbox-path", r"C:\sandbox"]
    );
}

#[test]
fn stderr_error_is_none_only_for_empty_output() {
    assert_eq!(stderr_error(""), None);
    assert_eq!(stderr_error("boom"), Some("boom".to_string()));
}

#[test]
fn failed_status_becomes_wsb_command_error() {
    assert!(check_status(true, Some(0), "ignored").is_ok());
    match check_status(false, Some(3), "sandbox not found") {
        Err(SandboxError::WsbCommand { exit_code, message }) => {
            assert_eq!(exit_code, Some(3));
            assert_eq!(message.as_deref(), Some("sandbox not found"));
        }
        other => panic!("unexpected: {other:?}"),
    }
    match check_status(false, None, "") {
        Err(SandboxError::WsbCommand { exit_code, message }) => {
            assert_eq!(exit_code, None);
            assert_eq!(message, None);
        }
        other => panic!("unexpected: {other:?}"),
    }
}

#[test]
fn stderr_read_failure_message_mentions_partial_output() {
    assert_eq!(
        stderr_read_failure_message("broken pipe", ""),
        "failed to read stderr from wsb process: broken pipe"
    );
    assert_eq!(
        stderr_read_failure_message("broken pipe", "part"),
        "failed to read stderr from wsb process: broken pipe\npartial stderr: part"
    );
}

#[test]
fn environment_handles_keep_their_ids() {
    let id = sample_id();
    let environment = SandboxEnvironment::from_id(id);
    assert_eq!(environment.id(), id);
    let other = SandboxId::new(7);
    let listed = SandboxEnvironment::from_ids(vec![id, other]);
    assert_eq!(listed.len(), 2);
    assert_eq!(listed[0].id(), id);
    assert_eq!(listed[1].id(), other);
    assert!(SandboxEnvironment::from_ids(Vec::new()).is_empty());
}

#[test]
fn results_report_what_wsb_answered() {
    assert_eq!(ExecResult::new(-1).exit_code(), -1);
    let ip = IpResult::from_addresses(vec![0xac10_0001, 0x0a00_0002]);
    let addresses: Vec<u32> = ip.networks().iter().map(|n| n.ipv4_address()).collect();
    assert_eq!(addresses, vec![0xac10_0001, 0x0a00_0002]);
    assert!(IpResult::from_addresses(Vec::new()).networks().is_empty());
}
