//! The window of rolled-over log files, built with log4rs's fixed-window roller.
use vstd::prelude::*;
use log4rs::append::rolling_file::policy::compound::roll::fixed_window::FixedWindowRoller;
use crate::config::Rotation;
use crate::error::InitError;

verus! {

#[verifier::external_type_specification]
#[verifier::external_body]
pub struct ExFixedWindowRoller(FixedWindowRoller);

/// `s` holds `{}`, the place of a rolled-over file's index.
pub open spec fn has_index_slot(s: Seq<char>) -> bool {
    exists|i: int| 0 <= i && i + 1 < s.len() && #[trigger] s[i] == '{' && s[i + 1] == '}'
}

/// `s` ends with `.log`, an extension that asks for no compression.
pub open spec fn ends_with_log(s: Seq<char>) -> bool {
    &&& s.len() >= 4
    &&& s[s.len() - 4] == '.'
    &&& s[s.len() - 3] == 'l'
    &&& s[s.len() - 2] == 'o'
    &&& s[s.len() - 1] == 'g'
}

impl Rotation {
    /// A rotation that the roller accepts.
    pub open spec fn well_formed(&self) -> bool {
        has_index_slot(self.roll_pattern@) && ends_with_log(self.roll_pattern@)
    }
}

/// Relies on log4rs's `FixedWindowRoller::builder`, `FixedWindowRollerBuilder::base`
/// and `FixedWindowRollerBuilder::build`: `build` fails when the pattern holds no
/// `{}`, and past that check only for a `.gz` or `.zst` extension, so a pattern
/// with `{}` that ends in `.log` is accepted.
#[verifier::external_body]
fn build_roller(pattern: &str, base: u32, count: u32) -> (r: Result<FixedWindowRoller, String>)
    ensures
        !has_index_slot(pattern@) ==> r is Err,
        has_index_slot(pattern@) && ends_with_log(pattern@) ==> r is Ok,
{
    match FixedWindowRoller::builder().base(base).build(pattern, count) {
        Ok(roller) => Ok(roller),
        Err(e) => Err(e.to_string()),
    }
}

/// The roller that keeps `rotation.count` rolled-over files named after
/// `rotation.roll_pattern`, the newest at index `rotation.base`.
pub fn roller(rotation: &Rotation) -> (r: Result<FixedWindowRoller, InitError>)
    ensures
        rotation.well_formed() ==> r is Ok,
        !has_index_slot(rotation.roll_pattern@) ==> r is Err,
        r is Err ==> r->Err_0 is Rotation,
{
    match build_roller(rotation.roll_pattern.as_str(), rotation.base, rotation.count) {
        Ok(roller) => Ok(roller),
        Err(why) => Err(InitError::Rotation(why)),
    }
}

} // verus!
