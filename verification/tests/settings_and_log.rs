use teams_tui::config::{default_channel_poll_interval, default_chat_poll_interval, default_log_file, default_poll_interval, default_public_client_id, default_tenant_id, AppConfig, CliArgs};
use teams_tui::logger::{init, is_debug, log_debug, log_error, log_info, log_warn, Logger};

fn args() -> CliArgs {
    CliArgs { client_id: None, tenant_id: None, login: false, config: None, debug: false, log_file: None }
}

fn file_config() -> AppConfig {
    AppConfig {
        client_id: "file-client".into(),
        tenant_id: "file-tenant".into(),
        poll_interval_secs: 12,
        active_chat_poll_interval: 7,
        active_channel_poll_interval: 30,
        debug: false,
        log_file: "file.log".into(),
    }
}

#[test]
fn defaults_match_the_public_client() {
    let d = AppConfig::default();
    assert_eq!(d.client_id, "14d82eec-204b-4a2f-88e6-54b83fb904e6");
    assert_eq!(d.tenant_id, "common");
    assert_eq!(d.poll_interval_secs, 5);
    assert_eq!(d.active_chat_poll_interval, 5);
    assert_eq!(d.active_channel_poll_interval, 15);
    assert_eq!(default_chat_poll_interval(), 5);
    assert_eq!(default_channel_poll_interval(), 15);
    assert!(!d.debug);
    assert_eq!(d.log_file, "teams-tui.log");
    assert_eq!(default_public_client_id(), d.client_id);
    assert_eq!(default_tenant_id(), "common");
    assert_eq!(default_poll_interval(), 5);
    assert_eq!(default_log_file(), "teams-tui.log");
}

#[test]
fn command_line_overrides_the_file() {
    let mut a = args();
    a.client_id = Some("cli-client".into());
    a.debug = true;
    let (c, modified) = AppConfig::merge_cli_args(Some(file_config()), &a);
    assert_eq!(c.client_id, "cli-client");
    assert_eq!(c.tenant_id, "file-tenant");
    assert_eq!(c.poll_interval_secs, 12);
    assert_eq!((c.active_chat_poll_interval, c.active_channel_poll_interval), (7, 30));
    assert!(c.debug);
    assert_eq!(c.log_file, "file.log");
    assert!(modified);
}

#[test]
fn debug_flag_alone_does_not_rewrite_the_file() {
    let mut a = args();
    a.debug = true;
    let (c, modified) = AppConfig::merge_cli_args(None, &a);
    assert!(c.debug);
    assert!(!modified);
    assert_eq!(c.client_id, "14d82eec-204b-4a2f-88e6-54b83fb904e6");
    assert_eq!((c.active_chat_poll_interval, c.active_channel_poll_interval), (5, 15));
    let mut b = args();
    b.log_file = Some("x.log".into());
    b.tenant_id = Some("t".into());
    let (c, modified) = AppConfig::merge_cli_args(None, &b);
    assert!(modified);
    assert_eq!(c.log_file, "x.log");
    assert_eq!(c.tenant_id, "t");
    let (same, modified) = AppConfig::merge_cli_args(Some(file_config()), &args());
    assert!(!modified);
    assert_eq!(same.client_id, "file-client");
}

#[test]
fn log_entries_carry_level_and_message() {
    let (logger, first) = init("app.log", false);
    assert!(!is_debug(&logger));
    let first = first.expect("session start entry");
    assert_eq!(first.path, "app.log");
    assert_eq!(
        first.line,
        format!("[{}] [INFO] === Teams TUI Session Started (Debug: false) ===\n", first.timestamp)
    );
    let w = log_warn(&logger, "careful").unwrap();
    assert_eq!(w.line, format!("[{}] [WARN] careful\n", w.timestamp));
    let e = log_error(&logger, "broken").unwrap();
    assert_eq!(e.line, format!("[{}] [ERROR] broken\n", e.timestamp));
    let i = log_info(&logger, "fine").unwrap();
    assert_eq!(i.line, format!("[{}] [INFO] fine\n", i.timestamp));
    assert!(log_debug(&logger, "hidden").is_none());
    // the timestamp is the local time with milliseconds: "YYYY-MM-DD HH:MM:SS.mmm"
    assert_eq!(i.timestamp.len(), 23);
    assert_eq!(&i.timestamp[4..5], "-");
    assert_eq!(&i.timestamp[10..11], " ");
    assert_eq!(&i.timestamp[19..20], ".");
}

#[test]
fn debug_entries_only_when_enabled() {
    let (logger, first) = init("d.log", true);
    assert!(is_debug(&logger));
    assert!(first.unwrap().line.contains("(Debug: true)"));
    let d = log_debug(&logger, "details").unwrap();
    assert_eq!(d.line, format!("[{}] [DEBUG] details\n", d.timestamp));
    let silent = Logger { path: None, debug: true };
    assert!(log_info(&silent, "x").is_none());
    assert!(log_debug(&silent, "x").is_none());
}
