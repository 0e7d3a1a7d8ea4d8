use crate::wifi::WifiMode;
use crate::store::{bytes_equal, copy_bytes, read_setting, truncated_to, ConfigRecord, DbError, SettingKey};
use vstd::prelude::*;
use vstd::string::StringSliceAdditionalSpecFns;

verus! {

/// The build-time network name that means "not configured".
pub const DEFAULT_SSID_SENTINEL: &'static str = "MyDefaultSSID";

/// The build-time password that goes with the unconfigured network name.
pub const DEFAULT_PASSWORD_SENTINEL: &'static str = "MyDefaultPassword";

/// The host name used with build-time credentials.
pub const DEFAULT_HOSTNAME: &'static str = "esp-device";

/// Network credentials, each field within its key's bound.
#[derive(Debug, Clone)]
pub struct WifiCredentials {
    pub ssid: Vec<u8>,
    pub password: Vec<u8>,
    pub hostname: Vec<u8>,
}

impl WifiCredentials {
    pub open spec fn wf(&self) -> bool {
        &&& self.ssid@.len() <= SettingKey::WifiSsid.spec_max_len()
        &&& self.password@.len() <= SettingKey::WifiPassword.spec_max_len()
        &&& self.hostname@.len() <= SettingKey::WifiHostname.spec_max_len()
    }
}

/// The field of a build-time credential set that does not fit its bound.
#[derive(Debug, Clone, Copy, PartialEq, Eq, Structural)]
pub enum WifiCredTooLongError {
    Ssid,
    Password,
    Hostname,
}

/// New network settings, as submitted by a user.
#[derive(Debug, Clone)]
pub struct WifiSettings {
    pub hostname: Vec<u8>,
    pub ssid: Vec<u8>,
    pub psw: Vec<u8>,
}

#[derive(Debug, Clone, Copy, PartialEq, Eq, Structural)]
pub enum WifiSettingsError {
    Storage(DbError),
    InvalidData,
}

impl WifiSettingsError {
    pub fn from(e: DbError) -> (r: WifiSettingsError)
        ensures
            r == WifiSettingsError::Storage(e),
    {
        WifiSettingsError::Storage(e)
    }
}

/// The credentials the device starts its network with, and in which mode.
#[derive(Debug, Clone)]
pub struct WifiDecision {
    pub ssid: Vec<u8>,
    pub password: Vec<u8>,
    pub hostname: Vec<u8>,
    pub mode: WifiMode,
}

/// Builds the stored network credentials from the three reads of the store,
/// in the order ssid, password, hostname. The first failed read is the error;
/// the set is accepted only when ssid and password are both non-empty.
pub fn get_wifi_credentials(
    ssid: Result<Vec<u8>, DbError>,
    password: Result<Vec<u8>, DbError>,
    hostname: Result<Vec<u8>, DbError>,
) -> (r: Result<WifiCredentials, WifiSettingsError>)
    ensures
        match (ssid, password, hostname) {
            (Err(e), _, _) => r == Err::<WifiCredentials, WifiSettingsError>(
                WifiSettingsError::Storage(e),
            ),
            (Ok(_), Err(e), _) => r == Err::<WifiCredentials, WifiSettingsError>(
                WifiSettingsError::Storage(e),
            ),
            (Ok(_), Ok(_), Err(e)) => r == Err::<WifiCredentials, WifiSettingsError>(
                WifiSettingsError::Storage(e),
            ),
            (Ok(s), Ok(p), Ok(h)) => if s@.len() > 0 && p@.len() > 0 {
                &&& r is Ok
                &&& r->Ok_0.ssid@ == truncated_to(s@, SettingKey::WifiSsid.spec_max_len())
                &&& r->Ok_0.password@ == truncated_to(
                    p@,
                    SettingKey::WifiPassword.spec_max_len(),
                )
                &&& r->Ok_0.hostname@ == truncated_to(
                    h@,
                    SettingKey::WifiHostname.spec_max_len(),
                )
            } else {
                r == Err::<WifiCredentials, WifiSettingsError>(WifiSettingsError::InvalidData)
            },
        },
        r is Ok ==> r->Ok_0.wf(),
{
    let ssid = match ssid {
        Ok(v) => v,
        Err(e) => return Err(WifiSettingsError::Storage(e)),
    };
    let password = match password {
        Ok(v) => v,
        Err(e) => return Err(WifiSettingsError::Storage(e)),
    };
    let hostname = match hostname {
        Ok(v) => v,
        Err(e) => return Err(WifiSettingsError::Storage(e)),
    };
    let s = read_setting(ssid.as_slice(), SettingKey::WifiSsid.max_len());
    let p = read_setting(password.as_slice(), SettingKey::WifiPassword.max_len());
    let h = read_setting(hostname.as_slice(), SettingKey::WifiHostname.max_len());
    if s.len > 0 && p.len > 0 {
        Ok(WifiCredentials { ssid: s.value, password: p.value, hostname: h.value })
    } else {
        Err(WifiSettingsError::InvalidData)
    }
}

/// Builds the credentials supplied at build time, refusing the first field
/// (ssid, password, then host name) that does not fit its bound.
pub fn get_default_wifi_credentials(ssid: &str, password: &str) -> (r: Result<
    WifiCredentials,
    WifiCredTooLongError,
>)
    ensures
        ssid.spec_bytes().len() > SettingKey::WifiSsid.spec_max_len() ==> r == Err::<
            WifiCredentials,
            WifiCredTooLongError,
        >(WifiCredTooLongError::Ssid),
        ssid.spec_bytes().len() <= SettingKey::WifiSsid.spec_max_len()
            && password.spec_bytes().len() > SettingKey::WifiPassword.spec_max_len() ==> r
            == Err::<WifiCredentials, WifiCredTooLongError>(WifiCredTooLongError::Password),
        ssid.spec_bytes().len() <= SettingKey::WifiSsid.spec_max_len()
            && password.spec_bytes().len() <= SettingKey::WifiPassword.spec_max_len() ==> {
            &&& r is Ok
            &&& r->Ok_0.ssid@ == ssid.spec_bytes()
            &&& r->Ok_0.password@ == password.spec_bytes()
            &&& r->Ok_0.hostname@ == DEFAULT_HOSTNAME.spec_bytes()
        },
        r is Ok ==> r->Ok_0.wf(),
{
    let s = ssid.as_bytes();
    if s.len() > SettingKey::WifiSsid.max_len() {
        return Err(WifiCredTooLongError::Ssid);
    }
    let p = password.as_bytes();
    if p.len() > SettingKey::WifiPassword.max_len() {
        return Err(WifiCredTooLongError::Password);
    }
    let h = DEFAULT_HOSTNAME.as_bytes();
    proof {
        reveal_strlit("esp-device");
        assert(vstd::string::is_ascii(DEFAULT_HOSTNAME));
        assert(h@.len() == 10);
    }
    if h.len() > SettingKey::WifiHostname.max_len() {
        return Err(WifiCredTooLongError::Hostname);
    }
    Ok(WifiCredentials { ssid: copy_bytes(s), password: copy_bytes(p), hostname: copy_bytes(h) })
}

/// The network bytes of the unconfigured build-time name.
pub open spec fn ssid_sentinel() -> Seq<u8> {
    DEFAULT_SSID_SENTINEL.spec_bytes()
}

/// Picks the network credentials to start with: the stored set when it was
/// accepted; else the build-time set, when it fits its bounds and its ssid is
/// neither empty nor the "not configured" name; else no credentials at all,
/// which starts the device as an access point.
pub fn resolve_wifi_credentials(
    stored: Result<WifiCredentials, WifiSettingsError>,
    defaults: Result<WifiCredentials, WifiCredTooLongError>,
) -> (r: WifiDecision)
    ensures
        match stored {
            Ok(c) => {
                &&& r.ssid@ == c.ssid@
                &&& r.password@ == c.password@
                &&& r.hostname@ == c.hostname@
                &&& r.mode == WifiMode::Sta
            },
            Err(_) => match defaults {
                Ok(d) => if d.ssid@.len() > 0 && d.ssid@ != ssid_sentinel() {
                    &&& r.ssid@ == d.ssid@
                    &&& r.password@ == d.password@
                    &&& r.hostname@ == d.hostname@
                    &&& r.mode == WifiMode::Sta
                } else {
                    &&& r.ssid@.len() == 0
                    &&& r.password@.len() == 0
                    &&& r.hostname@.len() == 0
                    &&& r.mode == WifiMode::Ap
                },
                Err(_) => {
                    &&& r.ssid@.len() == 0
                    &&& r.password@.len() == 0
                    &&& r.hostname@.len() == 0
                    &&& r.mode == WifiMode::Ap
                },
            },
        },
{
    match stored {
        Ok(c) => WifiDecision {
            ssid: c.ssid,
            password: c.password,
            hostname: c.hostname,
            mode: WifiMode::Sta,
        },
        Err(_) => {
            if let Ok(d) = defaults {
                if d.ssid.len() > 0 && !bytes_equal(
                    d.ssid.as_slice(),
                    DEFAULT_SSID_SENTINEL.as_bytes(),
                ) {
                    return WifiDecision {
                        ssid: d.ssid,
                        password: d.password,
                        hostname: d.hostname,
                        mode: WifiMode::Sta,
                    };
                }
            }
            WifiDecision {
                ssid: Vec::new(),
                password: Vec::new(),
                hostname: Vec::new(),
                mode: WifiMode::Ap,
            }
        },
    }
}

/// The writes that persist new network settings, one transaction each, in
/// the order host name, ssid, password.
pub fn wifi_settings_records(settings: &WifiSettings) -> (r: Vec<ConfigRecord>)
    ensures
        r@.len() == 3,
        r@[0].key == SettingKey::WifiHostname && r@[0].value@ == settings.hostname@,
        r@[1].key == SettingKey::WifiSsid && r@[1].value@ == settings.ssid@,
        r@[2].key == SettingKey::WifiPassword && r@[2].value@ == settings.psw@,
{
    let mut r: Vec<ConfigRecord> = Vec::new();
    r.push(ConfigRecord { key: SettingKey::WifiHostname, value: copy_bytes(settings.hostname.as_slice()) });
    r.push(ConfigRecord { key: SettingKey::WifiSsid, value: copy_bytes(settings.ssid.as_slice()) });
    r.push(ConfigRecord { key: SettingKey::WifiPassword, value: copy_bytes(settings.psw.as_slice()) });
    r
}

/// Concludes an update whose records were all written: `reread` is what the
/// store then holds under the ssid key. A failed read is a storage error and
/// an empty value is invalid; otherwise the result says whether the stored
/// bytes are exactly the submitted ssid, length included.
pub fn update_wifi_settings(settings: &WifiSettings, reread: Result<Vec<u8>, DbError>) -> (r: Result<
    bool,
    WifiSettingsError,
>)
    ensures
        match reread {
            Err(e) => r == Err::<bool, WifiSettingsError>(WifiSettingsError::Storage(e)),
            Ok(v) => if v@.len() == 0 {
                r == Err::<bool, WifiSettingsError>(WifiSettingsError::InvalidData)
            } else {
                r == Ok::<bool, WifiSettingsError>(v@ == settings.ssid@)
            },
        },
{
    match reread {
        Err(e) => Err(WifiSettingsError::Storage(e)),
        Ok(v) => {
            if v.len() == 0 {
                Err(WifiSettingsError::InvalidData)
            } else {
                Ok(bytes_equal(v.as_slice(), settings.ssid.as_slice()))
            }
        },
    }
}

} // verus!
