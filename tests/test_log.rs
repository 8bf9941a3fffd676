use log::LevelFilter;
use log4rs::append::console::ConsoleAppender;
use log4rs::config::{Appender, Config, Root};
use logger_init::report::{install_logger, Mode};

fn console_config() -> Config {
    let stdout = ConsoleAppender::builder().build();
    Config::builder()
        .appender(Appender::builder().build("stdout", Box::new(stdout)))
        .build(Root::builder().appender("stdout").build(LevelFilter::Debug))
        .unwrap()
}

#[test]
fn test_install_never_fails_on_repeat() {
    let first = install_logger(Mode::Test, console_config(), "cfg").unwrap();
    assert_eq!(first.len(), 1);
    assert_eq!(first[0].text, "logger init succ");
    for _ in 0..3 {
        let again = install_logger(Mode::Test, console_config(), "cfg").unwrap();
        assert_eq!(again.len(), 2);
        assert!(again[0].text.starts_with("init test log failed: "));
        assert_eq!(again[1].text, "logger init succ");
    }
}
