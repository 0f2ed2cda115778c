//! The `set.miner.fastboot` command: enable or disable the miner's
//! fastboot flag. A secured command: its request carries an
//! authentication block.

use vstd::prelude::*;

use crate::command::Command;
use crate::error::Error;

verus! {

/// The fastboot parameter: enable (`true`) or disable (`false`).
pub type SetMinerPoolsParam = bool;

/// The `set.miner.fastboot` operation.
#[derive(Debug, Default)]
pub struct SetMinerFastboot(pub SetMinerPoolsParam);

impl Command for SetMinerFastboot {
    open spec fn spec_cmd_name() -> Seq<char> {
        "set.miner.fastboot"@
    }

    open spec fn spec_secured() -> bool {
        true
    }

    open spec fn spec_encrypted() -> bool {
        false
    }

    open spec fn spec_params(&self) -> Option<Seq<char>> {
        if self.0 {
            Some("enable"@)
        } else {
            Some("disable"@)
        }
    }

    fn cmd_name() -> (r: &'static str) {
        "set.miner.fastboot"
    }

    fn secured() -> (r: bool) {
        true
    }

    fn encrypted() -> (r: bool) {
        false
    }

    fn params(&self) -> (r: Result<Option<String>, Error>) {
        if self.0 {
            Ok(Some("enable".to_owned()))
        } else {
            Ok(Some("disable".to_owned()))
        }
    }
}

} // verus!
