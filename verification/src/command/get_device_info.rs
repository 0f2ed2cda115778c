//! The `get.device.info` command: retrieve information about the device.
//!
//! The parameter selects which sections the device reports. Asking for all
//! sections or for none omits the parameter entirely; any proper subset is
//! sent as the selected section names joined by commas, in a fixed
//! canonical order. The `miner` flag takes part in the all-or-none test
//! but has no section name of its own on the wire.

use vstd::prelude::*;

use crate::command::Command;
use crate::error::Error;
use crate::json::{join_comma, spec_join_comma, spec_views_of};

verus! {

/// The `get.device.info` operation. It takes a section selection and
/// needs no authentication.
#[derive(Debug, Default)]
pub struct GetDeviceInfo(pub GetDeviceInfoParam);

/// The section selection for `get.device.info`.
#[derive(Debug, PartialEq, Eq, Structural, Clone, Copy)]
pub struct GetDeviceInfoParam {
    /// Include miner (ASIC) information.
    pub miner: bool,
    /// Include power information.
    pub power: bool,
    /// Include network information.
    pub network: bool,
    /// Include system information.
    pub system: bool,
    /// Include the session salt.
    pub salt: bool,
    /// Include error-code information.
    pub error_code: bool,
}

/// All six sections requested.
pub open spec fn spec_all_flags(p: GetDeviceInfoParam) -> bool {
    p.miner && p.error_code && p.network && p.power && p.salt && p.system
}

/// No section requested.
pub open spec fn spec_no_flags(p: GetDeviceInfoParam) -> bool {
    !p.miner && !p.error_code && !p.network && !p.power && !p.salt && !p.system
}

/// The selected section names, in the canonical wire order.
pub open spec fn spec_flag_names(p: GetDeviceInfoParam) -> Seq<Seq<char>> {
    (if p.error_code {
        seq!["error-code"@]
    } else {
        Seq::<Seq<char>>::empty()
    }) + (if p.network {
        seq!["network"@]
    } else {
        Seq::<Seq<char>>::empty()
    }) + (if p.power {
        seq!["power"@]
    } else {
        Seq::<Seq<char>>::empty()
    }) + (if p.salt {
        seq!["salt"@]
    } else {
        Seq::<Seq<char>>::empty()
    }) + (if p.system {
        seq!["system"@]
    } else {
        Seq::<Seq<char>>::empty()
    })
}

/// By default every section is requested.
impl Default for GetDeviceInfoParam {
    fn default() -> (r: Self)
        ensures
            r == (GetDeviceInfoParam {
                miner: true,
                power: true,
                network: true,
                system: true,
                salt: true,
                error_code: true,
            }),
    {
        GetDeviceInfoParam {
            miner: true,
            power: true,
            network: true,
            system: true,
            salt: true,
            error_code: true,
        }
    }
}

impl Command for GetDeviceInfo {
    open spec fn spec_cmd_name() -> Seq<char> {
        "get.device.info"@
    }

    open spec fn spec_secured() -> bool {
        false
    }

    open spec fn spec_encrypted() -> bool {
        false
    }

    open spec fn spec_params(&self) -> Option<Seq<char>> {
        if spec_all_flags(self.0) || spec_no_flags(self.0) {
            None
        } else {
            Some(spec_join_comma(spec_flag_names(self.0)))
        }
    }

    fn cmd_name() -> (r: &'static str) {
        "get.device.info"
    }

    fn secured() -> (r: bool) {
        false
    }

    fn encrypted() -> (r: bool) {
        false
    }

    fn params(&self) -> (r: Result<Option<String>, Error>) {
        let all = self.0.miner && self.0.error_code && self.0.network && self.0.power
            && self.0.salt && self.0.system;
        let none_set = !self.0.miner && !self.0.error_code && !self.0.network && !self.0.power
            && !self.0.salt && !self.0.system;
        if all || none_set {
            return Ok(None);
        }
        let mut names: Vec<&'static str> = Vec::new();
        if self.0.error_code {
            names.push("error-code");
        }
        if self.0.network {
            names.push("network");
        }
        if self.0.power {
            names.push("power");
        }
        if self.0.salt {
            names.push("salt");
        }
        if self.0.system {
            names.push("system");
        }
        proof {
            assert(spec_views_of(names@) =~= spec_flag_names(self.0));
        }
        Ok(Some(join_comma(&names)))
    }
}

/// Network information reported by the device.
#[derive(Debug, PartialEq)]
pub struct Network {
    /// IP address.
    pub ip: String,
    /// Protocol.
    pub proto: String,
    /// Netmask.
    pub netmask: String,
    /// DNS server.
    pub dns: String,
    /// MAC address.
    pub mac: String,
    /// Gateway address.
    pub gateway: String,
    /// Hostname.
    pub hostname: String,
}

/// Miner information reported by the device.
#[derive(Debug, PartialEq)]
pub struct Miner {
    /// Working status.
    pub working: String,
    /// Miner type.
    pub miner_type: String,
    /// Hash board type.
    pub hash_board: String,
    /// Detected hash rate.
    pub detect_hash_rate: String,
    /// Coin type.
    pub cointype: String,
    /// Pool strategy.
    pub pool_strategy: String,
    /// Heat mode.
    pub heatmode: String,
    /// Hash percent.
    pub hash_percent: String,
    /// Liquid-cooling marker.
    pub eeprom_liquid_cooling: Option<String>,
    /// Chip data 0.
    pub chipdata0: String,
    /// Chip data 1.
    pub chipdata1: String,
    /// Chip data 2.
    pub chipdata2: String,
    /// Fast boot status.
    pub fast_boot: String,
    /// Board number.
    pub board_num: String,
    /// PCB serial number 0.
    pub pcbsn0: String,
    /// PCB serial number 1.
    pub pcbsn1: String,
    /// PCB serial number 2.
    pub pcbsn2: String,
    /// Miner serial number.
    pub miner_sn: String,
    /// Power limit set.
    pub power_limit_set: String,
    /// Web pool.
    pub web_pool: u32,
    /// Upfreq speed.
    pub upfreq_speed: Option<String>,
    /// Permission.
    pub permission: Option<String>,
}

/// System information reported by the device.
#[derive(Debug, PartialEq)]
pub struct System {
    /// API version.
    pub api: String,
    /// Platform.
    pub platform: String,
    /// Firmware version.
    pub fwversion: String,
    /// Control board version.
    pub control_board_version: String,
    /// Boot ROM marker.
    pub btrom: Option<String>,
    /// API switch status: `"0"` disabled, `"1"` enabled.
    pub apiswitch: String,
    /// LED status.
    pub ledstatus: String,
}

} // verus!
