//! The `get.miner.setting` command: read the miner settings summary.

use vstd::prelude::*;

use crate::command::Command;
use crate::error::Error;

verus! {

/// The `get.miner.setting` operation. It takes no parameters and needs no
/// authentication.
#[derive(Debug, Default)]
pub struct GetMinerSettings;

/// The message payload of a [GetMinerSettings] response.
#[derive(Debug, Default)]
pub struct GetMinerSettingsResponse {
    pub power_limit: i64,
    pub upfreq_speed: i64,
    pub power_mode: String,
    pub fast_boot: String,
    pub target_freq: i64,
    pub fast_mining: Option<String>,
    pub power: Option<i64>,
    pub power_percent: Option<i64>,
}

impl Command for GetMinerSettings {
    open spec fn spec_cmd_name() -> Seq<char> {
        "get.miner.setting"@
    }

    open spec fn spec_secured() -> bool {
        false
    }

    open spec fn spec_encrypted() -> bool {
        false
    }

    open spec fn spec_params(&self) -> Option<Seq<char>> {
        None
    }

    fn cmd_name() -> (r: &'static str) {
        "get.miner.setting"
    }

    fn secured() -> (r: bool) {
        false
    }

    fn encrypted() -> (r: bool) {
        false
    }

    fn params(&self) -> (r: Result<Option<String>, Error>) {
        Ok(None)
    }
}

} // verus!
