use jcp_protocol::ops::{
    api_bind_port_error, default_key_path, doctor_env, format_voice_duration, listener_owner,
    parse_port, path_join, port_from_bind, stored_offset, structured_event_record,
    telegram_doctor, OffsetFileRead, RealMicrotaskExecutor, TelegramDoctorInput,
};
use jcp_protocol::telegram::offset_record;
use jcp_protocol::json::{Json, JsonNumber};

#[test]
fn formats_measured_voice_duration() {
    assert_eq!(format_voice_duration(Some(7)), "7s");
}

#[test]
fn formats_unmeasured_voice_duration() {
    assert_eq!(format_voice_duration(None), "not-measured");
}

#[test]
fn holder_routing_covers_every_microtask_work_order_kind() {
    let executor = RealMicrotaskExecutor::from_env(None);
    assert_eq!(executor.holder_for("jankurai.proof"), Some("jankurai"));
    assert_eq!(executor.holder_for("jankurai.diff-audit"), Some("jankurai"));
    assert_eq!(executor.holder_for("reason"), Some("jekko"));
    assert_eq!(executor.holder_for("zyal.run"), None);
    assert_eq!(executor.holder_for("totally.unknown"), None);
}

#[test]
fn parse_port_errors() {
    assert_eq!(parse_port("8080"), Ok(8080));
    assert_eq!(parse_port("0080"), Ok(80));
    assert_eq!(parse_port(""), Err("is not numeric: ".to_owned()));
    assert_eq!(parse_port("+80"), Err("is not numeric: +80".to_owned()));
    assert_eq!(parse_port("70000"), Err("is outside the valid TCP port range: 70000".to_owned()));
    assert_eq!(port_from_bind("127.0.0.1:18877"), Some(18877));
    assert_eq!(port_from_bind("[::1]:80"), Some(80));
    assert_eq!(port_from_bind("localhost"), None);
    assert_eq!(port_from_bind("host:x"), None);
}

#[test]
fn port_round_trips_through_its_text() {
    for p in [0u16, 1, 80, 8787, 65535] {
        assert_eq!(parse_port(&p.to_string()), Ok(p));
    }
}

#[test]
fn protected_bind_port_is_refused() {
    assert_eq!(
        api_bind_port_error(8787),
        Some("JMCP_API_BIND must not use Jeryu protected port 8787".to_owned())
    );
    assert_eq!(api_bind_port_error(18877), None);
}

#[test]
fn listener_table_lookup() {
    let table = "State Recv-Q\nLISTEN 0 128 127.0.0.1:8787 0.0.0.0:* users:((\"jeryu\"))\r\nLISTEN 0 1 *:80 x\n";
    assert_eq!(
        listener_owner(Some(table), 8787),
        Some("LISTEN 0 128 127.0.0.1:8787 0.0.0.0:* users:((\"jeryu\"))".to_owned())
    );
    assert_eq!(listener_owner(Some(table), 878), None);
    assert_eq!(listener_owner(None, 8787), None);
}

#[test]
fn doctor_accepts_a_safe_environment() {
    let table = "LISTEN 0 128 127.0.0.1:8799 0.0.0.0:* users:((\"jeryu\"))\n";
    let report = doctor_env("http://127.0.0.1:18877", "127.0.0.1:18877", "127.0.0.1", "15873", Some(table));
    assert!(report.ok);
    let lines: Vec<(bool, String)> = report.lines.iter().map(|l| (l.to_stderr, l.text.clone())).collect();
    assert_eq!(
        lines,
        vec![
            (false, "JMCP_API_BIND=127.0.0.1:18877".to_owned()),
            (false, "JMCP_API_URL=http://127.0.0.1:18877".to_owned()),
            (false, "JMCP_COCKPIT_HOST=127.0.0.1".to_owned()),
            (false, "JMCP_COCKPIT_PORT=15873".to_owned()),
            (
                false,
                "Jeryu protected port 8799 is occupied by: LISTEN 0 128 127.0.0.1:8799 0.0.0.0:* users:((\"jeryu\"))"
                    .to_owned()
            ),
            (false, "JMCP environment is safe for Jeryu coexistence".to_owned()),
        ]
    );
}

#[test]
fn doctor_refuses_protected_and_unreadable_ports() {
    let report = doctor_env("s", "0.0.0.0:8787", "h", "abc", None);
    assert!(!report.ok);
    let errors: Vec<String> = report.lines.iter().filter(|l| l.to_stderr).map(|l| l.text.clone()).collect();
    assert_eq!(
        errors,
        vec![
            "error: JMCP_COCKPIT_PORT is not numeric: abc".to_owned(),
            "error: JMCP_API_BIND uses Jeryu protected port 8787".to_owned(),
            "warning: Jeryu was not detected on 127.0.0.1:8799 or 127.0.0.1:8787".to_owned(),
        ]
    );
    let report = doctor_env("s", "nobind", "h", "19800", None);
    assert!(!report.ok);
    assert!(report.lines.iter().any(|l| l.text == "error: could not parse JMCP_API_BIND=nobind"));
    assert!(report.lines.iter().any(|l| l.text == "error: JMCP_COCKPIT_PORT uses Jeryu protected port 19800"));
}

#[test]
fn telegram_offset_persists_and_reads() {
    assert_eq!(stored_offset(""), Some(None));
    assert_eq!(stored_offset(&offset_record(42)), Some(Some(42)));
    assert_eq!(stored_offset(" -7\n"), Some(Some(-7)));
    assert_eq!(stored_offset("x"), None);
    assert_eq!(stored_offset(&offset_record(i64::MIN)), Some(Some(i64::MIN)));
}

fn doctor_input(get_me: Result<(i64, Option<String>), String>, offset: OffsetFileRead) -> TelegramDoctorInput {
    TelegramDoctorInput {
        env_file: "telegram.env".to_owned(),
        api_base: "https://api.telegram.org".to_owned(),
        allowed_user_ids: 1,
        allowed_chat_ids: 2,
        config_debug: "TelegramConfig { .. }".to_owned(),
        has_allowlist: true,
        get_me,
        offset_file: "jmcp.telegram.offset".to_owned(),
        offset,
    }
}

#[test]
fn telegram_doctor_reports_readiness() {
    let report = telegram_doctor(&doctor_input(Ok((123, None)), OffsetFileRead::Absent));
    assert!(report.ok);
    let texts: Vec<String> = report.lines.iter().map(|l| l.text.clone()).collect();
    assert_eq!(
        texts,
        vec![
            "JMCP_TELEGRAM_ENV=telegram.env",
            "telegram_token=loaded (redacted)",
            "telegram_api_base=https://api.telegram.org",
            "telegram_allowlist=user_ids:1 chat_ids:2",
            "telegram_config=TelegramConfig { .. }",
            "telegram_getMe=ok id:123 username:(none)",
            "telegram_offset_file=jmcp.telegram.offset status=absent",
            "Telegram setup is ready",
        ]
    );
    let bad = telegram_doctor(&doctor_input(Err("401".to_owned()), OffsetFileRead::Contents("nope".to_owned())));
    assert!(!bad.ok);
    assert!(bad.lines.iter().any(|l| l.to_stderr && l.text == "error: telegram getMe failed: 401"));
    assert!(bad
        .lines
        .iter()
        .any(|l| l.text == "error: telegram offset file is not a valid integer: jmcp.telegram.offset"));
}

#[test]
fn key_path_under_home() {
    assert_eq!(default_key_path(Some("/home/a")), Ok("/home/a/.local/share/jmcp/keys/local.key".to_owned()));
    assert_eq!(default_key_path(Some("/home/a/")), Ok("/home/a/.local/share/jmcp/keys/local.key".to_owned()));
    assert_eq!(default_key_path(None), Err("HOME is not set".to_owned()));
    assert_eq!(path_join("", "x"), "x");
}

#[test]
fn structured_runtime_events_are_valid_json_and_escape_content() {
    let fields = Json::Object(vec![
        ("reason".to_owned(), Json::String("bad \"payload\"\nand newline".to_owned())),
        ("chatId".to_owned(), Json::Number(JsonNumber::PosInt(99))),
    ]);
    let record = structured_event_record("warn", "telegram.submit.rejected", fields, 1, "2024-01-01T00:00:00Z");
    assert_eq!(record.get_str("event"), Some("telegram.submit.rejected"));
    assert_eq!(record.get_str("level"), Some("warn"));
    assert_eq!(record.get_str("component"), Some("jmcpd"));
    assert_eq!(record.get_str("eventId"), Some("00000000-0000-0000-0000-000000000001"));
    let f = record.get("fields").unwrap();
    assert_eq!(f.get("chatId").unwrap().as_u64(), Some(99));
    assert_eq!(f.get_str("reason"), Some("bad \"payload\"\nand newline"));
}
