use logger_init::config::Severity;
use logger_init::error::InitError;
use logger_init::report::{after_install, Mode};

#[test]
fn startup_success_logs_config_at_debug() {
    let r = after_install(Mode::Startup, Ok(()), "Config { .. }").unwrap();
    assert_eq!(r.len(), 1);
    assert_eq!(r[0].level, Severity::Debug);
    assert_eq!(r[0].text, "logger init succ, config: Config { .. }");
}

#[test]
fn startup_refusal_is_fatal() {
    let r = after_install(Mode::Startup, Err("already set".to_string()), "cfg");
    match r {
        Err(InitError::Install(why)) => assert_eq!(why, "already set"),
        _ => panic!("expected an install error"),
    }
}

#[test]
fn test_success_confirms_at_info() {
    let r = after_install(Mode::Test, Ok(()), "cfg").unwrap();
    assert_eq!(r.len(), 1);
    assert_eq!(r[0].level, Severity::Info);
    assert_eq!(r[0].text, "logger init succ");
}

#[test]
fn test_refusal_is_reported_and_run_goes_on() {
    let r = after_install(Mode::Test, Err("already set".to_string()), "cfg").unwrap();
    assert_eq!(r.len(), 2);
    assert_eq!(r[0].level, Severity::Info);
    assert_eq!(r[0].text, "init test log failed: already set");
    assert_eq!(r[1].level, Severity::Info);
    assert_eq!(r[1].text, "logger init succ");
}
