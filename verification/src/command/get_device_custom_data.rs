//! The `get.device.custom_data` command: read the operator-set custom
//! fields of the device.

use vstd::prelude::*;

use crate::command::Command;
use crate::error::Error;

verus! {

/// The `get.device.custom_data` operation. It takes no parameters and
/// needs no authentication.
#[derive(Debug, Default)]
pub struct GetDeviceCustomData;

/// The message payload of a [GetDeviceCustomData] response.
#[derive(Debug, Default)]
pub struct GetDeviceCustomDataResponse {
    pub custom_sn: String,
    pub msg0: String,
    pub msg1: String,
    pub msg2: String,
    pub msg3: String,
    pub msg4: String,
    pub msg5: String,
    pub msg6: String,
    pub msg7: String,
    pub msg8: String,
    pub msg9: String,
}

impl Command for GetDeviceCustomData {
    open spec fn spec_cmd_name() -> Seq<char> {
        "get.device.custom_data"@
    }

    open spec fn spec_secured() -> bool {
        false
    }

    open spec fn spec_encrypted() -> bool {
        false
    }

    open spec fn spec_params(&self) -> Option<Seq<char>> {
        None
    }

    fn cmd_name() -> (r: &'static str) {
        "get.device.custom_data"
    }

    fn secured() -> (r: bool) {
        false
    }

    fn encrypted() -> (r: bool) {
        false
    }

    fn params(&self) -> (r: Result<Option<String>, Error>) {
        Ok(None)
    }
}

} // verus!
