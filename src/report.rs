//! What follows an attempt to install the process-wide logger: the records
//! to emit through it, or the failure that stops start-up.
use vstd::prelude::*;
use vstd::string::StringExecFns;
use crate::config::Severity;
use crate::error::InitError;
use log4rs::config::Config;

verus! {

/// Who installs the logger.
#[derive(Clone, Copy, Debug, PartialEq, Eq, Structural)]
pub enum Mode {
    /// A process at start-up: without its logger it must not go on.
    Startup,
    /// A test run: another test may have installed a logger already.
    Test,
}

/// One record to emit through the logger just installed.
pub struct Notice {
    pub level: Severity,
    pub text: String,
}

/// Text of the record that confirms a start-up installation.
pub open spec fn startup_text(config_text: Seq<char>) -> Seq<char> {
    "logger init succ, config: "@ + config_text
}

/// Text of the record that confirms an installation.
pub open spec fn success_text() -> Seq<char> {
    "logger init succ"@
}

/// Text of the record that tells of a refused test installation.
pub open spec fn refusal_text(why: Seq<char>) -> Seq<char> {
    "init test log failed: "@ + why
}

/// The records owed after an installation attempt in `mode` that came back
/// with `installed`; `config_text` renders the configuration that was offered.
pub open spec fn spec_notices(
    mode: Mode,
    installed: Result<(), String>,
    config_text: Seq<char>,
) -> Seq<(Severity, Seq<char>)> {
    match (mode, installed) {
        (Mode::Startup, _) => seq![(Severity::Debug, startup_text(config_text))],
        (Mode::Test, Ok(_)) => seq![(Severity::Info, success_text())],
        (Mode::Test, Err(why)) => seq![
            (Severity::Info, refusal_text(why@)),
            (Severity::Info, success_text()),
        ],
    }
}

/// Level and text of each record, in order.
pub open spec fn notices_view(v: Seq<Notice>) -> Seq<(Severity, Seq<char>)> {
    v.map_values(|n: Notice| (n.level, n.text@))
}

fn notice(level: Severity, text: String) -> (r: Notice)
    ensures
        r.level == level,
        r.text@ == text@,
{
    Notice { level, text }
}

/// `r` is what follows an installation attempt in `mode` that came back with
/// `installed`: at start-up a refusal is fatal; otherwise the owed records.
pub open spec fn reports(
    mode: Mode,
    installed: Result<(), String>,
    config_text: Seq<char>,
    r: Result<Vec<Notice>, InitError>,
) -> bool {
    if mode is Startup && installed is Err {
        r == Err::<Vec<Notice>, InitError>(InitError::Install(installed->Err_0))
    } else {
        r is Ok && notices_view(r->Ok_0@) == spec_notices(mode, installed, config_text)
    }
}

/// Decides what follows an installation attempt. At start-up a refused
/// installation is fatal; in a test run it is reported and the run goes on.
pub fn after_install(mode: Mode, installed: Result<(), String>, config_text: &str) -> (r: Result<
    Vec<Notice>,
    InitError,
>)
    ensures
        reports(mode, installed, config_text@, r),
        mode is Test ==> r is Ok,
{
    let mut out: Vec<Notice> = Vec::new();
    match mode {
        Mode::Startup => match installed {
            Ok(()) => {
                let mut text = "logger init succ, config: ".to_owned();
                text.append(config_text);
                out.push(notice(Severity::Debug, text));
            },
            Err(why) => {
                return Err(InitError::Install(why));
            },
        },
        Mode::Test => {
            if let Err(why) = installed {
                let mut text = "init test log failed: ".to_owned();
                text.append(why.as_str());
                out.push(notice(Severity::Info, text));
            }
            out.push(notice(Severity::Info, "logger init succ".to_owned()));
        },
    }
    proof {
        assert(notices_view(out@) =~= spec_notices(mode, installed, config_text@));
    }
    Ok(out)
}

#[verifier::external_type_specification]
#[verifier::external_body]
pub struct ExConfig(Config);

/// Relies on log4rs's `init_config`, which installs `config` as the
/// process-wide logger and fails when a logger is installed already. Which of
/// the two happens depends on the process, so nothing is promised of it.
#[verifier::external_body]
fn install(config: Config) -> (r: Result<(), String>) {
    match log4rs::init_config(config) {
        Ok(_) => Ok(()),
        Err(e) => Err(e.to_string()),
    }
}

/// Installs `config` as the process-wide logger and decides what follows, as
/// `after_install` does for whichever answer the installation gave. In a test
/// run this never fails.
pub fn install_logger(mode: Mode, config: Config, config_text: &str) -> (r: Result<
    Vec<Notice>,
    InitError,
>)
    ensures
        exists|installed: Result<(), String>| #[trigger]
            reports(mode, installed, config_text@, r),
        mode is Test ==> r is Ok,
{
    let installed = install(config);
    let r = after_install(mode, installed, config_text);
    proof {
        assert(reports(mode, installed, config_text@, r));
    }
    r
}

} // verus!
