use firmware_core::mqtt_config::{
    get_default_mqtt_credentials, get_mqtt_credentials, mqtt_credentials_records,
    resolve_mqtt_credentials, update_mqtt_credentials, MqttCredTooLongError, MqttCredentials,
    MqttSettingsError,
};
use firmware_core::shared::or_str;
use firmware_core::store::{bytes_equal, copy_bytes, read_setting, DbError, SettingKey, StoreFault};
use firmware_core::wifi::WifiMode;
use firmware_core::wifi_config::{
    get_default_wifi_credentials, get_wifi_credentials, resolve_wifi_credentials,
    update_wifi_settings, wifi_settings_records, WifiCredTooLongError, WifiSettings,
    WifiSettingsError,
};

fn ok(s: &str) -> Result<Vec<u8>, DbError> {
    Ok(s.as_bytes().to_vec())
}

#[test]
fn or_str_prefers_build_value() {
    assert_eq!(or_str(Some("Factory1"), "MyDefaultSSID"), "Factory1");
    assert_eq!(or_str(None, "MyDefaultSSID"), "MyDefaultSSID");
}

#[test]
fn key_table_bounds_and_names() {
    assert_eq!(SettingKey::WifiSsid.max_len(), 32);
    assert_eq!(SettingKey::WifiPassword.max_len(), 64);
    assert_eq!(SettingKey::WifiHostname.max_len(), 32);
    assert_eq!(SettingKey::MqttBroker.max_len(), 256);
    assert_eq!(SettingKey::MqttClientId.max_len(), 64);
    assert_eq!(SettingKey::MqttUsername.max_len(), 64);
    assert_eq!(SettingKey::MqttPassword.max_len(), 128);
    assert_eq!(SettingKey::WifiSsid.name(), "wifi.ssid");
    assert_eq!(SettingKey::MqttClientId.name(), "mqtt.client_id");
}

#[test]
fn read_round_trip_within_bound() {
    let value = b"HomeNet".to_vec();
    let r = read_setting(&value, 32);
    assert_eq!(r.len, 7);
    assert_eq!(r.value, value);
    assert!(!r.truncated);
    let exact = vec![7u8; 32];
    let r = read_setting(&exact, 32);
    assert_eq!(r.len, 32);
    assert_eq!(r.value, exact);
    assert!(!r.truncated);
    let empty: Vec<u8> = Vec::new();
    let r = read_setting(&empty, 32);
    assert_eq!(r.len, 0);
    assert!(r.value.is_empty());
}

#[test]
fn read_truncates_long_value() {
    let value: Vec<u8> = (0u8..40).collect();
    let r = read_setting(&value, 32);
    assert_eq!(r.len, 32);
    assert_eq!(r.value, value[..32].to_vec());
    assert!(r.truncated);
}

#[test]
fn byte_helpers() {
    assert!(bytes_equal(b"abc", b"abc"));
    assert!(!bytes_equal(b"abc", b"abcd"));
    assert!(!bytes_equal(b"abc", b"abd"));
    assert_eq!(copy_bytes(b"xyz"), b"xyz".to_vec());
}

#[test]
fn stored_wifi_credentials_accepted() {
    let c = get_wifi_credentials(ok("HomeNet"), ok("secret123"), ok("dev")).unwrap();
    assert_eq!(c.ssid, b"HomeNet".to_vec());
    assert_eq!(c.password, b"secret123".to_vec());
    assert_eq!(c.hostname, b"dev".to_vec());
}

#[test]
fn stored_wifi_credentials_need_ssid_and_password() {
    let r = get_wifi_credentials(ok(""), ok("secret123"), ok("dev"));
    assert_eq!(r.unwrap_err(), WifiSettingsError::InvalidData);
    let r = get_wifi_credentials(ok("HomeNet"), ok(""), ok("dev"));
    assert_eq!(r.unwrap_err(), WifiSettingsError::InvalidData);
}

#[test]
fn stored_wifi_credentials_first_read_error_wins() {
    let e1 = DbError::Read(StoreFault::KeyNotFound);
    let e2 = DbError::Read(StoreFault::Flash);
    let r = get_wifi_credentials(ok("HomeNet"), Err(e1), Err(e2));
    assert_eq!(r.unwrap_err(), WifiSettingsError::Storage(e1));
    let r = get_wifi_credentials(Err(e2), Err(e1), ok("x"));
    assert_eq!(r.unwrap_err(), WifiSettingsError::Storage(e2));
    assert_eq!(WifiSettingsError::from(e1), WifiSettingsError::Storage(e1));
}

#[test]
fn default_wifi_credentials_bounds() {
    let d = get_default_wifi_credentials("Factory1", "pw").unwrap();
    assert_eq!(d.ssid, b"Factory1".to_vec());
    assert_eq!(d.password, b"pw".to_vec());
    assert_eq!(d.hostname, b"esp-device".to_vec());
    let long_ssid = "s".repeat(33);
    let long_pw = "p".repeat(65);
    assert_eq!(
        get_default_wifi_credentials(&long_ssid, "pw").unwrap_err(),
        WifiCredTooLongError::Ssid
    );
    assert_eq!(
        get_default_wifi_credentials("Factory1", &long_pw).unwrap_err(),
        WifiCredTooLongError::Password
    );
    assert!(get_default_wifi_credentials(&"s".repeat(32), &"p".repeat(64)).is_ok());
}

#[test]
fn resolver_uses_stored_credentials() {
    let stored = get_wifi_credentials(ok("HomeNet"), ok("secret123"), ok("dev"));
    let defaults = get_default_wifi_credentials("Factory1", "pw");
    let d = resolve_wifi_credentials(stored, defaults);
    assert_eq!(d.ssid, b"HomeNet".to_vec());
    assert_eq!(d.password, b"secret123".to_vec());
    assert_eq!(d.mode, WifiMode::Sta);
}

#[test]
fn resolver_falls_back_to_build_defaults() {
    let stored = get_wifi_credentials(ok(""), ok(""), ok(""));
    let defaults = get_default_wifi_credentials("Factory1", "factorypw");
    let d = resolve_wifi_credentials(stored, defaults);
    assert_eq!(d.ssid, b"Factory1".to_vec());
    assert_eq!(d.password, b"factorypw".to_vec());
    assert_eq!(d.hostname, b"esp-device".to_vec());
    assert_eq!(d.mode, WifiMode::Sta);
}

#[test]
fn resolver_rejects_sentinel_and_starts_access_point() {
    let stored = get_wifi_credentials(ok(""), ok(""), ok(""));
    let defaults = get_default_wifi_credentials("MyDefaultSSID", "MyDefaultPassword");
    let d = resolve_wifi_credentials(stored, defaults);
    assert!(d.ssid.is_empty());
    assert!(d.password.is_empty());
    assert_eq!(d.mode, WifiMode::Ap);
    let stored = get_wifi_credentials(Err(DbError::Read(StoreFault::Corrupted)), ok(""), ok(""));
    let defaults = get_default_wifi_credentials("", "pw");
    assert_eq!(resolve_wifi_credentials(stored, defaults).mode, WifiMode::Ap);
    let stored = get_wifi_credentials(ok(""), ok(""), ok(""));
    let defaults = get_default_wifi_credentials(&"s".repeat(40), "pw");
    assert_eq!(resolve_wifi_credentials(stored, defaults).mode, WifiMode::Ap);
}

fn settings(ssid: &str) -> WifiSettings {
    WifiSettings {
        hostname: b"dev".to_vec(),
        ssid: ssid.as_bytes().to_vec(),
        psw: b"secret123".to_vec(),
    }
}

#[test]
fn wifi_update_records_in_order() {
    let s = settings("HomeNet");
    let r = wifi_settings_records(&s);
    assert_eq!(r.len(), 3);
    assert_eq!(r[0].key, SettingKey::WifiHostname);
    assert_eq!(r[0].value, b"dev".to_vec());
    assert_eq!(r[1].key, SettingKey::WifiSsid);
    assert_eq!(r[1].value, b"HomeNet".to_vec());
    assert_eq!(r[2].key, SettingKey::WifiPassword);
    assert_eq!(r[2].value, b"secret123".to_vec());
}

#[test]
fn wifi_update_verification() {
    let s = settings("HomeNet");
    assert_eq!(update_wifi_settings(&s, ok("HomeNet")), Ok(true));
    assert_eq!(update_wifi_settings(&s, ok("HomeNe")), Ok(false));
    assert_eq!(update_wifi_settings(&s, ok("HomeNetX")), Ok(false));
    assert_eq!(update_wifi_settings(&s, ok("homenet")), Ok(false));
    assert_eq!(update_wifi_settings(&s, ok("")), Err(WifiSettingsError::InvalidData));
    let e = DbError::Read(StoreFault::Flash);
    assert_eq!(update_wifi_settings(&s, Err(e)), Err(WifiSettingsError::Storage(e)));
}

#[test]
fn stored_mqtt_credentials() {
    let c = get_mqtt_credentials(ok("tcp://broker:1883"), ok("id"), ok("user"), ok("pw")).unwrap();
    assert_eq!(c.broker_uri, b"tcp://broker:1883".to_vec());
    assert_eq!(c.client_id, b"id".to_vec());
    assert_eq!(c.username, b"user".to_vec());
    assert_eq!(c.password, b"pw".to_vec());
    let r = get_mqtt_credentials(ok(""), ok("id"), ok("user"), ok("pw"));
    assert_eq!(r.unwrap_err(), MqttSettingsError::InvalidData);
    let e = DbError::Read(StoreFault::KeyNotFound);
    let r = get_mqtt_credentials(ok("b"), ok("id"), ok("user"), Err(e));
    assert_eq!(r.unwrap_err(), MqttSettingsError::Storage(e));
}

#[test]
fn default_mqtt_credentials_bounds() {
    let d = get_default_mqtt_credentials("tcp://localhost:1883", "esp32-client", "", "").unwrap();
    assert_eq!(d.broker_uri, b"tcp://localhost:1883".to_vec());
    assert_eq!(d.client_id, b"esp32-client".to_vec());
    assert_eq!(
        get_default_mqtt_credentials(&"b".repeat(257), "", "", "").unwrap_err(),
        MqttCredTooLongError::BrokerUri
    );
    assert_eq!(
        get_default_mqtt_credentials("b", &"c".repeat(65), "", "").unwrap_err(),
        MqttCredTooLongError::ClientId
    );
    assert_eq!(
        get_default_mqtt_credentials("b", "c", &"u".repeat(65), "").unwrap_err(),
        MqttCredTooLongError::Username
    );
    assert_eq!(
        get_default_mqtt_credentials("b", "c", "u", &"p".repeat(129)).unwrap_err(),
        MqttCredTooLongError::Password
    );
}

#[test]
fn mqtt_resolver_precedence() {
    let stored = get_mqtt_credentials(ok("tcp://home:1883"), ok("id"), ok(""), ok(""));
    let defaults = get_default_mqtt_credentials("tcp://factory:1883", "esp32-client", "", "");
    assert_eq!(resolve_mqtt_credentials(stored, defaults).broker_uri, b"tcp://home:1883".to_vec());

    let stored = get_mqtt_credentials(ok(""), ok(""), ok(""), ok(""));
    let defaults = get_default_mqtt_credentials("tcp://factory:1883", "esp32-client", "", "");
    let r = resolve_mqtt_credentials(stored, defaults);
    assert_eq!(r.broker_uri, b"tcp://factory:1883".to_vec());
    assert_eq!(r.client_id, b"esp32-client".to_vec());

    let stored = get_mqtt_credentials(ok(""), ok(""), ok(""), ok(""));
    let defaults = get_default_mqtt_credentials("tcp://localhost:1883", "esp32-client", "", "");
    let r = resolve_mqtt_credentials(stored, defaults);
    assert!(r.broker_uri.is_empty() && r.client_id.is_empty());
    assert!(r.username.is_empty() && r.password.is_empty());
}

#[test]
fn mqtt_update_records_and_verification() {
    let c = MqttCredentials {
        broker_uri: b"tcp://home:1883".to_vec(),
        client_id: b"id".to_vec(),
        username: b"user".to_vec(),
        password: b"pw".to_vec(),
    };
    let r = mqtt_credentials_records(&c);
    assert_eq!(r.len(), 4);
    assert_eq!(r[0].key, SettingKey::MqttBroker);
    assert_eq!(r[3].key, SettingKey::MqttPassword);
    assert_eq!(r[3].value, b"pw".to_vec());
    assert_eq!(update_mqtt_credentials(&c, ok("tcp://home:1883")), Ok(true));
    assert_eq!(update_mqtt_credentials(&c, ok("tcp://home:188")), Ok(false));
    let e = DbError::Read(StoreFault::Corrupted);
    assert_eq!(update_mqtt_credentials(&c, Err(e)), Err(MqttSettingsError::Storage(e)));
}
