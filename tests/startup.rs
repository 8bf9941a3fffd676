use log::LevelFilter;
use log4rs::append::console::ConsoleAppender;
use log4rs::config::{Appender, Config, Root};
use logger_init::error::InitError;
use logger_init::report::{install_logger, Mode};

fn console_config() -> Config {
    let stdout = ConsoleAppender::builder().build();
    Config::builder()
        .appender(Appender::builder().build("stdout", Box::new(stdout)))
        .build(Root::builder().appender("stdout").build(LevelFilter::Debug))
        .unwrap()
}

#[test]
fn startup_installs_once_and_refuses_again() {
    let first = install_logger(Mode::Startup, console_config(), "first").unwrap();
    assert_eq!(first.len(), 1);
    assert_eq!(first[0].text, "logger init succ, config: first");
    let second = install_logger(Mode::Startup, console_config(), "second");
    assert!(matches!(second, Err(InitError::Install(_))));
}
