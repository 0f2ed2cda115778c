//! The `get.system.setting` command: read the system settings summary.

use vstd::prelude::*;

use crate::command::Command;
use crate::error::Error;

verus! {

/// The `get.system.setting` operation. It takes no parameters and needs no
/// authentication.
#[derive(Debug, Default)]
pub struct GetSystemSetting;

/// The message payload of a [GetSystemSetting] response.
#[derive(Debug, Default)]
pub struct GetSystemSettingResponse {
    /// Is the web panel on?
    pub web_pool: i64,
    /// Timezone relative to UTC.
    pub timezone: String,
    /// Zone name.
    pub zonename: String,
    /// Current hostname.
    pub hostname: String,
    /// Log-upload target, when the firmware reports one.
    pub log_upload: Option<GetSystemSettingsResponseLogUpload>,
    pub time_randomized: GetSystemSettingsResponseTimeRandomized,
    /// Time servers.
    pub ntp_server: Vec<String>,
}

/// Where the device uploads its logs.
#[derive(Debug, Default)]
pub struct GetSystemSettingsResponseLogUpload {
    pub ip: String,
    pub port: String,
    pub proto: String,
}

/// The randomized-time window of the device.
#[derive(Debug, Default)]
pub struct GetSystemSettingsResponseTimeRandomized {
    pub start: i64,
    pub stop: i64,
}

impl Command for GetSystemSetting {
    open spec fn spec_cmd_name() -> Seq<char> {
        "get.system.setting"@
    }

    open spec fn spec_secured() -> bool {
        false
    }

    open spec fn spec_encrypted() -> bool {
        false
    }

    open spec fn spec_params(&self) -> Option<Seq<char>> {
        None
    }

    fn cmd_name() -> (r: &'static str) {
        "get.system.setting"
    }

    fn secured() -> (r: bool) {
        false
    }

    fn encrypted() -> (r: bool) {
        false
    }

    fn params(&self) -> (r: Result<Option<String>, Error>) {
        Ok(None)
    }
}

} // verus!
