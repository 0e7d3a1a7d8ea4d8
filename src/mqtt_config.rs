use crate::store::{bytes_equal, copy_bytes, read_setting, truncated_to, ConfigRecord, DbError, SettingKey};
use vstd::prelude::*;
use vstd::string::StringSliceAdditionalSpecFns;

verus! {

/// The build-time broker address that means "not configured".
pub const DEFAULT_BROKER_SENTINEL: &'static str = "tcp://localhost:1883";

/// The build-time client id used when none is supplied.
pub const DEFAULT_CLIENT_ID: &'static str = "esp32-client";

/// Messaging credentials, each field within its key's bound.
#[derive(Debug, Clone)]
pub struct MqttCredentials {
    pub broker_uri: Vec<u8>,
    pub client_id: Vec<u8>,
    pub username: Vec<u8>,
    pub password: Vec<u8>,
}

impl MqttCredentials {
    pub open spec fn wf(&self) -> bool {
        &&& self.broker_uri@.len() <= SettingKey::MqttBroker.spec_max_len()
        &&& self.client_id@.len() <= SettingKey::MqttClientId.spec_max_len()
        &&& self.username@.len() <= SettingKey::MqttUsername.spec_max_len()
        &&& self.password@.len() <= SettingKey::MqttPassword.spec_max_len()
    }

    /// Whether all four fields are empty: messaging is not configured.
    pub open spec fn is_blank(&self) -> bool {
        &&& self.broker_uri@.len() == 0
        &&& self.client_id@.len() == 0
        &&& self.username@.len() == 0
        &&& self.password@.len() == 0
    }
}

/// The field of a build-time credential set that does not fit its bound.
#[derive(Debug, Clone, Copy, PartialEq, Eq, Structural)]
pub enum MqttCredTooLongError {
    BrokerUri,
    ClientId,
    Username,
    Password,
}

#[derive(Debug, Clone, Copy, PartialEq, Eq, Structural)]
pub enum MqttSettingsError {
    Storage(DbError),
    InvalidData,
}

/// Builds the stored messaging credentials from the four reads of the store,
/// in the order broker, client id, user name, password. The first failed read
/// is the error; the set is accepted only when the broker is non-empty.
pub fn get_mqtt_credentials(
    broker_uri: Result<Vec<u8>, DbError>,
    client_id: Result<Vec<u8>, DbError>,
    username: Result<Vec<u8>, DbError>,
    password: Result<Vec<u8>, DbError>,
) -> (r: Result<MqttCredentials, MqttSettingsError>)
    ensures
        match (broker_uri, client_id, username, password) {
            (Err(e), _, _, _) => r == Err::<MqttCredentials, MqttSettingsError>(
                MqttSettingsError::Storage(e),
            ),
            (Ok(_), Err(e), _, _) => r == Err::<MqttCredentials, MqttSettingsError>(
                MqttSettingsError::Storage(e),
            ),
            (Ok(_), Ok(_), Err(e), _) => r == Err::<MqttCredentials, MqttSettingsError>(
                MqttSettingsError::Storage(e),
            ),
            (Ok(_), Ok(_), Ok(_), Err(e)) => r == Err::<MqttCredentials, MqttSettingsError>(
                MqttSettingsError::Storage(e),
            ),
            (Ok(b), Ok(c), Ok(u), Ok(p)) => if b@.len() > 0 {
                &&& r is Ok
                &&& r->Ok_0.broker_uri@ == truncated_to(
                    b@,
                    SettingKey::MqttBroker.spec_max_len(),
                )
                &&& r->Ok_0.client_id@ == truncated_to(
                    c@,
                    SettingKey::MqttClientId.spec_max_len(),
                )
                &&& r->Ok_0.username@ == truncated_to(
                    u@,
                    SettingKey::MqttUsername.spec_max_len(),
                )
                &&& r->Ok_0.password@ == truncated_to(
                    p@,
                    SettingKey::MqttPassword.spec_max_len(),
                )
            } else {
                r == Err::<MqttCredentials, MqttSettingsError>(MqttSettingsError::InvalidData)
            },
        },
        r is Ok ==> r->Ok_0.wf(),
{
    let broker_uri = match broker_uri {
        Ok(v) => v,
        Err(e) => return Err(MqttSettingsError::Storage(e)),
    };
    let client_id = match client_id {
        Ok(v) => v,
        Err(e) => return Err(MqttSettingsError::Storage(e)),
    };
    let username = match username {
        Ok(v) => v,
        Err(e) => return Err(MqttSettingsError::Storage(e)),
    };
    let password = match password {
        Ok(v) => v,
        Err(e) => return Err(MqttSettingsError::Storage(e)),
    };
    let b = read_setting(broker_uri.as_slice(), SettingKey::MqttBroker.max_len());
    let c = read_setting(client_id.as_slice(), SettingKey::MqttClientId.max_len());
    let u = read_setting(username.as_slice(), SettingKey::MqttUsername.max_len());
    let p = read_setting(password.as_slice(), SettingKey::MqttPassword.max_len());
    if b.len > 0 {
        Ok(
            MqttCredentials {
                broker_uri: b.value,
                client_id: c.value,
                username: u.value,
                password: p.value,
            },
        )
    } else {
        Err(MqttSettingsError::InvalidData)
    }
}

/// Builds the messaging credentials supplied at build time, refusing the
/// first field (broker, client id, user name, password) that does not fit.
pub fn get_default_mqtt_credentials(
    broker_uri: &str,
    client_id: &str,
    username: &str,
    password: &str,
) -> (r: Result<MqttCredentials, MqttCredTooLongError>)
    ensures
        broker_uri.spec_bytes().len() > SettingKey::MqttBroker.spec_max_len() ==> r == Err::<
            MqttCredentials,
            MqttCredTooLongError,
        >(MqttCredTooLongError::BrokerUri),
        broker_uri.spec_bytes().len() <= SettingKey::MqttBroker.spec_max_len()
            && client_id.spec_bytes().len() > SettingKey::MqttClientId.spec_max_len() ==> r
            == Err::<MqttCredentials, MqttCredTooLongError>(MqttCredTooLongError::ClientId),
        broker_uri.spec_bytes().len() <= SettingKey::MqttBroker.spec_max_len()
            && client_id.spec_bytes().len() <= SettingKey::MqttClientId.spec_max_len()
            && username.spec_bytes().len() > SettingKey::MqttUsername.spec_max_len() ==> r
            == Err::<MqttCredentials, MqttCredTooLongError>(MqttCredTooLongError::Username),
        broker_uri.spec_bytes().len() <= SettingKey::MqttBroker.spec_max_len()
            && client_id.spec_bytes().len() <= SettingKey::MqttClientId.spec_max_len()
            && username.spec_bytes().len() <= SettingKey::MqttUsername.spec_max_len()
            && password.spec_bytes().len() > SettingKey::MqttPassword.spec_max_len() ==> r
            == Err::<MqttCredentials, MqttCredTooLongError>(MqttCredTooLongError::Password),
        broker_uri.spec_bytes().len() <= SettingKey::MqttBroker.spec_max_len()
            && client_id.spec_bytes().len() <= SettingKey::MqttClientId.spec_max_len()
            && username.spec_bytes().len() <= SettingKey::MqttUsername.spec_max_len()
            && password.spec_bytes().len() <= SettingKey::MqttPassword.spec_max_len() ==> {
            &&& r is Ok
            &&& r->Ok_0.broker_uri@ == broker_uri.spec_bytes()
            &&& r->Ok_0.client_id@ == client_id.spec_bytes()
            &&& r->Ok_0.username@ == username.spec_bytes()
            &&& r->Ok_0.password@ == password.spec_bytes()
        },
        r is Ok ==> r->Ok_0.wf(),
{
    let b = broker_uri.as_bytes();
    if b.len() > SettingKey::MqttBroker.max_len() {
        return Err(MqttCredTooLongError::BrokerUri);
    }
    let c = client_id.as_bytes();
    if c.len() > SettingKey::MqttClientId.max_len() {
        return Err(MqttCredTooLongError::ClientId);
    }
    let u = username.as_bytes();
    if u.len() > SettingKey::MqttUsername.max_len() {
        return Err(MqttCredTooLongError::Username);
    }
    let p = password.as_bytes();
    if p.len() > SettingKey::MqttPassword.max_len() {
        return Err(MqttCredTooLongError::Password);
    }
    Ok(
        MqttCredentials {
            broker_uri: copy_bytes(b),
            client_id: copy_bytes(c),
            username: copy_bytes(u),
            password: copy_bytes(p),
        },
    )
}

/// The broker bytes of the unconfigured build-time address.
pub open spec fn broker_sentinel() -> Seq<u8> {
    DEFAULT_BROKER_SENTINEL.spec_bytes()
}

/// Picks the messaging credentials: the stored set when it was accepted;
/// else the build-time set, when it fits its bounds and its broker is neither
/// empty nor the "not configured" address; else a blank set, which leaves
/// messaging off.
pub fn resolve_mqtt_credentials(
    stored: Result<MqttCredentials, MqttSettingsError>,
    defaults: Result<MqttCredentials, MqttCredTooLongError>,
) -> (r: MqttCredentials)
    ensures
        match stored {
            Ok(c) => r == c,
            Err(_) => match defaults {
                Ok(d) => if d.broker_uri@.len() > 0 && d.broker_uri@ != broker_sentinel() {
                    r == d
                } else {
                    r.is_blank()
                },
                Err(_) => r.is_blank(),
            },
        },
{
    match stored {
        Ok(c) => c,
        Err(_) => {
            if let Ok(d) = defaults {
                if d.broker_uri.len() > 0 && !bytes_equal(
                    d.broker_uri.as_slice(),
                    DEFAULT_BROKER_SENTINEL.as_bytes(),
                ) {
                    return d;
                }
            }
            MqttCredentials {
                broker_uri: Vec::new(),
                client_id: Vec::new(),
                username: Vec::new(),
                password: Vec::new(),
            }
        },
    }
}

/// The writes that persist new messaging credentials, one transaction each,
/// in the order broker, client id, user name, password.
pub fn mqtt_credentials_records(creds: &MqttCredentials) -> (r: Vec<ConfigRecord>)
    ensures
        r@.len() == 4,
        r@[0].key == SettingKey::MqttBroker && r@[0].value@ == creds.broker_uri@,
        r@[1].key == SettingKey::MqttClientId && r@[1].value@ == creds.client_id@,
        r@[2].key == SettingKey::MqttUsername && r@[2].value@ == creds.username@,
        r@[3].key == SettingKey::MqttPassword && r@[3].value@ == creds.password@,
{
    let mut r: Vec<ConfigRecord> = Vec::new();
    r.push(ConfigRecord { key: SettingKey::MqttBroker, value: copy_bytes(creds.broker_uri.as_slice()) });
    r.push(ConfigRecord { key: SettingKey::MqttClientId, value: copy_bytes(creds.client_id.as_slice()) });
    r.push(ConfigRecord { key: SettingKey::MqttUsername, value: copy_bytes(creds.username.as_slice()) });
    r.push(ConfigRecord { key: SettingKey::MqttPassword, value: copy_bytes(creds.password.as_slice()) });
    r
}

/// Concludes an update whose records were all written: `reread` is what the
/// store then holds under the broker key. A failed read is a storage error;
/// otherwise the result says whether the stored bytes are exactly the
/// submitted broker, length included.
pub fn update_mqtt_credentials(creds: &MqttCredentials, reread: Result<Vec<u8>, DbError>) -> (r: Result<
    bool,
    MqttSettingsError,
>)
    ensures
        match reread {
            Err(e) => r == Err::<bool, MqttSettingsError>(MqttSettingsError::Storage(e)),
            Ok(v) => r == Ok::<bool, MqttSettingsError>(v@ == creds.broker_uri@),
        },
{
    match reread {
        Err(e) => Err(MqttSettingsError::Storage(e)),
        Ok(v) => Ok(bytes_equal(v.as_slice(), creds.broker_uri.as_slice())),
    }
}

} // verus!
