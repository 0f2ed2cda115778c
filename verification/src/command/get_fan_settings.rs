//! The `get.fan.setting` command: read the fan configuration summary.

use vstd::prelude::*;

use crate::command::Command;
use crate::error::Error;

verus! {

/// The `get.fan.setting` operation. It takes no parameters and needs no
/// authentication.
#[derive(Debug, Default)]
pub struct GetFanSettings;

/// The message payload of a [GetFanSettings] response.
#[derive(Debug, Default)]
pub struct GetFanSettingsResponse {
    pub fan_poweroff_cool: u8,
    pub fan_zero_speed: i64,
    pub fan_temp_offset: i64,
}

impl Command for GetFanSettings {
    open spec fn spec_cmd_name() -> Seq<char> {
        "get.fan.setting"@
    }

    open spec fn spec_secured() -> bool {
        false
    }

    open spec fn spec_encrypted() -> bool {
        false
    }

    open spec fn spec_params(&self) -> Option<Seq<char>> {
        None
    }

    fn cmd_name() -> (r: &'static str) {
        "get.fan.setting"
    }

    fn secured() -> (r: bool) {
        false
    }

    fn encrypted() -> (r: bool) {
        false
    }

    fn params(&self) -> (r: Result<Option<String>, Error>) {
        Ok(None)
    }
}

} // verus!
