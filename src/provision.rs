//! Decisions taken while joining the wireless network. The radio driver
//! performs each step; these functions decide what the next step is.

use vstd::prelude::*;

verus! {

/// Channel of the fallback access point when the configured network was
/// not seen in the scan.
pub const DEFAULT_AP_CHANNEL: u8 = 1;

/// Milliseconds of back-off per failed connection attempt.
pub const RETRY_DELAY_STEP_MS: u32 = 2000;

/// How the station authenticates.
#[derive(Debug, Clone, Copy, PartialEq, Eq)]
pub enum WifiAuth {
    Wpa2Personal,
    /// No password is configured.
    Open,
}

/// Why joining the network cannot start.
#[derive(Debug, Clone, Copy, PartialEq, Eq)]
pub enum ProvisionError {
    /// No network name is configured.
    MissingSsid,
}

/// What to do after a failed connection attempt.
#[derive(Debug, Clone, Copy, PartialEq, Eq)]
pub enum ConnectStep {
    /// Wait this many milliseconds, then try again.
    RetryAfter(u32),
    GiveUp,
}

/// One access point seen in a scan.
#[derive(Debug, PartialEq, Eq)]
pub struct AccessPoint {
    pub ssid: String,
    pub channel: u8,
}

/// The authentication for the credentials `ssid` and `pass`.
pub fn auth_method(ssid: &str, pass: &str) -> (r: Result<WifiAuth, ProvisionError>)
    ensures
        ssid@.len() == 0 ==> r == Err::<WifiAuth, ProvisionError>(ProvisionError::MissingSsid),
        ssid@.len() > 0 && pass@.len() == 0 ==> r == Ok::<WifiAuth, ProvisionError>(WifiAuth::Open),
        ssid@.len() > 0 && pass@.len() > 0 ==> r == Ok::<WifiAuth, ProvisionError>(
            WifiAuth::Wpa2Personal,
        ),
{
    if ssid.is_empty() {
        Err(ProvisionError::MissingSsid)
    } else if pass.is_empty() {
        Ok(WifiAuth::Open)
    } else {
        Ok(WifiAuth::Wpa2Personal)
    }
}

/// After `failures` failed attempts, of at most `max_retries`: give up once
/// the limit is reached, else wait longer after each failure.
pub fn after_failed_attempt(failures: u8, max_retries: u8) -> (r: ConnectStep)
    ensures
        failures >= max_retries ==> r == ConnectStep::GiveUp,
        failures < max_retries ==> r == ConnectStep::RetryAfter(
            (RETRY_DELAY_STEP_MS * failures) as u32,
        ),
{
    if failures >= max_retries {
        ConnectStep::GiveUp
    } else {
        ConnectStep::RetryAfter(RETRY_DELAY_STEP_MS * failures as u32)
    }
}

/// The channel of the first access point in `scan` named `ssid`.
pub open spec fn first_channel(scan: Seq<AccessPoint>, ssid: Seq<char>) -> Option<u8>
    decreases scan.len(),
{
    if scan.len() == 0 {
        None
    } else if scan[0].ssid@ == ssid {
        Some(scan[0].channel)
    } else {
        first_channel(scan.drop_first(), ssid)
    }
}

/// Looks up the configured network in a scan: the channel of the first
/// access point with that name, if any.
pub fn find_channel(scan: &Vec<AccessPoint>, ssid: &String) -> (r: Option<u8>)
    ensures
        r == first_channel(scan@, ssid@),
{
    let mut i: usize = 0;
    assert(scan@.skip(0) =~= scan@);
    while i < scan.len()
        invariant
            i <= scan@.len(),
            first_channel(scan@, ssid@) == first_channel(scan@.skip(i as int), ssid@),
        decreases scan@.len() - i,
    {
        assert(scan@.skip(i as int)[0] == scan@[i as int]);
        if scan[i].ssid == *ssid {
            return Some(scan[i].channel);
        }
        assert(scan@.skip(i as int).drop_first() =~= scan@.skip(i + 1));
        i = i + 1;
    }
    None
}

/// The channel for the fallback access point: the configured network's
/// channel where the scan found it.
pub fn access_point_channel(found: Option<u8>) -> (r: u8)
    ensures
        found is Some ==> r == found->0,
        found is None ==> r == DEFAULT_AP_CHANNEL,
{
    match found {
        Some(c) => c,
        None => DEFAULT_AP_CHANNEL,
    }
}

} // verus!
