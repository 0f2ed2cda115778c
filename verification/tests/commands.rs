//! Tests of request construction and serialization for the concrete
//! commands.

use matroskin::account::Account;
use matroskin::auth_data::AuthData;
use matroskin::command::get_device_info::{GetDeviceInfo, GetDeviceInfoParam};
use matroskin::command::get_fan_settings::GetFanSettings;
use matroskin::command::get_miner_setting::GetMinerSettings;
use matroskin::command::get_system_setting::GetSystemSetting;
use matroskin::command::set_miner_fastboot::SetMinerFastboot;
use matroskin::command::set_miner_pools::{SetMinerPools, SetMinerPoolsParam, SetMinerPoolsParamItem};
use matroskin::command::Command;
use matroskin::error::Error;
use matroskin::password::Password;

fn pretty(compact: &str) -> String {
    let value: serde_json::Value = serde_json::from_str(compact).unwrap();
    serde_json::to_string_pretty(&value).unwrap()
}

#[test]
fn get_fan_settings_view() {
    let cmd = GetFanSettings::default();
    let c = pretty(&cmd.to_request_to_string(None).unwrap());
    assert_eq!(c, "{\n  \"cmd\": \"get.fan.setting\"\n}")
}

#[test]
fn get_miner_setting_view() {
    let cmd = GetMinerSettings::default();
    let c = pretty(&cmd.to_request_to_string(None).unwrap());
    assert_eq!(c, "{\n  \"cmd\": \"get.miner.setting\"\n}")
}

#[test]
fn get_system_setting_view() {
    let cmd = GetSystemSetting::default();
    let c = pretty(&cmd.to_request_to_string(None).unwrap());
    println!("{:#?}", c);
    assert_eq!(c, "{\n  \"cmd\": \"get.system.setting\"\n}")
}

#[test]
fn set_miner_fastboot_view() {
    let cmd = SetMinerFastboot::default();
    let auth = AuthData::new::<SetMinerFastboot>(
        Account::Super,
        Password::Super.as_str(),
        "test123",
    )
    .unwrap();
    let c = pretty(&cmd.to_request_to_string(Some(auth)).unwrap());
    println!("{}", c)
}

#[test]
fn set_miner_pools_view() {
    let cmd = SetMinerPools::default();
    let c = cmd
        .to_request(Some(
            AuthData::new::<SetMinerPools>(Account::Super, "test123", "test123").unwrap(),
        ))
        .unwrap();
    println!("{}", c.to_json())
}

#[test]
fn device_info_request_serializes_bare() {
    // A request with no authentication and no parameter carries the command
    // name and nothing else.
    let cmd = GetDeviceInfo::default();
    let s = cmd.to_request_to_string(None).unwrap();
    assert_eq!(s, "{\"cmd\":\"get.device.info\"}");
    let b = cmd.to_request_to_bytes(None).unwrap();
    assert_eq!(b, s.as_bytes().to_vec());
}

#[test]
fn device_info_all_or_none_omits_param() {
    let all = GetDeviceInfo(GetDeviceInfoParam {
        miner: true,
        power: true,
        network: true,
        system: true,
        salt: true,
        error_code: true,
    });
    assert_eq!(all.params().unwrap(), None);
    let none_set = GetDeviceInfo(GetDeviceInfoParam {
        miner: false,
        power: false,
        network: false,
        system: false,
        salt: false,
        error_code: false,
    });
    assert_eq!(none_set.params().unwrap(), None);
}

#[test]
fn device_info_subset_joins_canonical_order() {
    let cmd = GetDeviceInfo(GetDeviceInfoParam {
        miner: false,
        power: true,
        network: true,
        system: true,
        salt: false,
        error_code: true,
    });
    assert_eq!(
        cmd.params().unwrap(),
        Some("error-code,network,power,system".to_string())
    );
    let two = GetDeviceInfo(GetDeviceInfoParam {
        miner: false,
        power: false,
        network: true,
        system: true,
        salt: false,
        error_code: false,
    });
    assert_eq!(two.params().unwrap(), Some("network,system".to_string()));
    assert_eq!(
        two.to_request_to_string(None).unwrap(),
        "{\"cmd\":\"get.device.info\",\"param\":\"network,system\"}"
    );
}

#[test]
fn device_info_miner_flag_has_no_wire_name() {
    // `miner` joins the all-or-none test but contributes no section name.
    let cmd = GetDeviceInfo(GetDeviceInfoParam {
        miner: true,
        power: false,
        network: false,
        system: false,
        salt: false,
        error_code: false,
    });
    assert_eq!(cmd.params().unwrap(), Some(String::new()));
}

#[test]
fn fastboot_params_enable_disable() {
    assert_eq!(
        SetMinerFastboot(true).params().unwrap(),
        Some("enable".to_string())
    );
    assert_eq!(
        SetMinerFastboot(false).params().unwrap(),
        Some("disable".to_string())
    );
}

#[test]
fn pools_params_exact_json() {
    let mut pools = SetMinerPoolsParam::new();
    pools.push(SetMinerPoolsParamItem {
        pool: "stratum+tcp://1.1.1.1:3333".to_string(),
        worker: "waru.777".to_string(),
        password: "test".to_string(),
    });
    let cmd = SetMinerPools(pools);
    assert_eq!(
        cmd.params().unwrap(),
        Some(
            "[{\"pool\":\"stratum+tcp://1.1.1.1:3333\",\"worker\":\"waru.777\",\"passwd\":\"test\"}]"
                .to_string()
        )
    );
}

#[test]
fn pools_params_two_items_and_escapes() {
    let mut pools = SetMinerPoolsParam::new();
    pools.push(SetMinerPoolsParamItem {
        pool: "a".to_string(),
        worker: "w\"x".to_string(),
        password: "p\\q".to_string(),
    });
    pools.push(SetMinerPoolsParamItem {
        pool: "b".to_string(),
        worker: "y".to_string(),
        password: String::new(),
    });
    let cmd = SetMinerPools(pools);
    assert_eq!(
        cmd.params().unwrap(),
        Some(
            "[{\"pool\":\"a\",\"worker\":\"w\\\"x\",\"passwd\":\"p\\\\q\"},{\"pool\":\"b\",\"worker\":\"y\",\"passwd\":\"\"}]"
                .to_string()
        )
    );
}

#[test]
fn encrypted_without_auth_is_refused() {
    // Building the request fails with the named error; nothing is
    // serialized, framed or sent.
    let cmd = SetMinerPools::default();
    match cmd.to_request(None) {
        Err(Error::CommandSholdHaveAuthData(name)) => assert_eq!(name, "set.miner.pools"),
        other => panic!("expected the named auth error, got {:?}", other.map(|_| ())),
    }
    assert!(matches!(
        cmd.to_request_to_string(None),
        Err(Error::CommandSholdHaveAuthData("set.miner.pools"))
    ));
    assert!(matches!(
        cmd.to_request_to_bytes(None),
        Err(Error::CommandSholdHaveAuthData("set.miner.pools"))
    ));
}

#[test]
fn secured_request_carries_auth_fields() {
    let cmd = SetMinerFastboot(true);
    let auth =
        AuthData::new_at::<SetMinerFastboot>(Account::User1, "user1", "somesalt", 1_700_000_000)
            .unwrap();
    let token = auth.token().to_string();
    let s = cmd.to_request_to_string(Some(auth)).unwrap();
    let expected = format!(
        "{{\"cmd\":\"set.miner.fastboot\",\"ts\":1700000000,\"token\":\"{}\",\"account\":\"user1\",\"param\":\"enable\"}}",
        token
    );
    assert_eq!(s, expected);
    let value: serde_json::Value = serde_json::from_str(&s).unwrap();
    let obj = value.as_object().unwrap();
    assert_eq!(obj.len(), 5);
    assert!(obj.contains_key("cmd"));
    assert!(obj.contains_key("ts"));
    assert!(obj.contains_key("token"));
    assert!(obj.contains_key("account"));
    assert!(obj.contains_key("param"));
}

#[test]
fn request_display_redacts_secrets() {
    let cmd = SetMinerFastboot(true);
    let auth =
        AuthData::new_at::<SetMinerFastboot>(Account::Super, "super", "tsalt", 1).unwrap();
    let token = auth.token().to_string();
    let req = cmd.to_request(Some(auth)).unwrap();
    let shown = req.display_string();
    assert_eq!(
        shown,
        "Request { cmd: \"set.miner.fastboot\", auth_data: \"<hidden>\", parameter: \"<hidden>\" }"
    );
    assert!(!shown.contains(&token));
    let bare = GetFanSettings::default().to_request(None).unwrap();
    assert_eq!(
        bare.display_string(),
        "Request { cmd: \"get.fan.setting\", auth_data: \"None\", parameter: \"<hidden>\" }"
    );
}

#[test]
fn command_flags_match_contract() {
    assert!(!GetDeviceInfo::default().is_secured());
    assert!(!GetDeviceInfo::default().is_encrypted());
    assert!(SetMinerFastboot(false).is_secured());
    assert!(!SetMinerFastboot(false).is_encrypted());
    assert!(SetMinerPools::default().is_secured());
    assert!(SetMinerPools::default().is_encrypted());
}
