use limb_controller::provision::{
    access_point_channel, after_failed_attempt, auth_method, find_channel, AccessPoint,
    ConnectStep, ProvisionError, WifiAuth,
};
use limb_controller::Config;

#[test]
fn credentials_choose_auth() {
    assert_eq!(auth_method("", "pw"), Err(ProvisionError::MissingSsid));
    assert_eq!(auth_method("", ""), Err(ProvisionError::MissingSsid));
    assert_eq!(auth_method("home", ""), Ok(WifiAuth::Open));
    assert_eq!(auth_method("home", "pw"), Ok(WifiAuth::Wpa2Personal));
    let c = Config { wifi_ssid: "home".to_string(), wifi_psk: "secret".to_string() };
    assert_eq!(c.auth_method(), Ok(WifiAuth::Wpa2Personal));
}

#[test]
fn retry_backoff_grows_then_gives_up() {
    assert_eq!(after_failed_attempt(1, 6), ConnectStep::RetryAfter(2000));
    assert_eq!(after_failed_attempt(5, 6), ConnectStep::RetryAfter(10000));
    assert_eq!(after_failed_attempt(6, 6), ConnectStep::GiveUp);
    assert_eq!(after_failed_attempt(254, 255), ConnectStep::RetryAfter(508000));
}

#[test]
fn scan_lookup_takes_first_match() {
    let ap = |s: &str, c: u8| AccessPoint { ssid: s.to_string(), channel: c };
    let scan = vec![ap("other", 3), ap("home", 6), ap("home", 11)];
    assert_eq!(find_channel(&scan, &"home".to_string()), Some(6));
    assert_eq!(find_channel(&scan, &"absent".to_string()), None);
    assert_eq!(find_channel(&vec![], &"home".to_string()), None);
    assert_eq!(access_point_channel(Some(6)), 6);
    assert_eq!(access_point_channel(None), 1);
}
