//! Control logic for a network-driven five-joint robotic limb: the wire
//! protocol, the servo duty model, the status text and the decisions of the
//! receive loop. Hardware, sockets and the display stay with the caller.

use vstd::prelude::*;

pub mod codec;
pub mod control;
pub mod provision;
pub mod servo;
pub mod status;
pub mod text;

verus! {

/// Credentials of the wireless network to join.
#[derive(Debug, PartialEq, Eq)]
pub struct Config {
    pub wifi_ssid: String,
    pub wifi_psk: String,
}

impl Config {
    /// The authentication these credentials call for: an error without a
    /// network name, open without a password, WPA2 otherwise.
    pub fn auth_method(&self) -> (r: Result<provision::WifiAuth, provision::ProvisionError>)
        ensures
            self.wifi_ssid@.len() == 0 ==> r == Err::<provision::WifiAuth, provision::ProvisionError>(
                provision::ProvisionError::MissingSsid,
            ),
            self.wifi_ssid@.len() > 0 && self.wifi_psk@.len() == 0 ==> r == Ok::<
                provision::WifiAuth,
                provision::ProvisionError,
            >(provision::WifiAuth::Open),
            self.wifi_ssid@.len() > 0 && self.wifi_psk@.len() > 0 ==> r == Ok::<
                provision::WifiAuth,
                provision::ProvisionError,
            >(provision::WifiAuth::Wpa2Personal),
    {
        provision::auth_method(self.wifi_ssid.as_str(), self.wifi_psk.as_str())
    }
}

} // verus!
