use vstd::prelude::*;

verus! {

/// What the key-value store reported when an operation failed.
#[derive(Debug, Clone, Copy, PartialEq, Eq, Structural)]
pub enum StoreFault {
    KeyNotFound,
    KeyTooBig,
    ValueTooBig,
    NotSorted,
    BufferTooSmall,
    Full,
    Corrupted,
    Canceled,
    Flash,
}

/// A failed store transaction, by the step that failed.
#[derive(Debug, Clone, Copy, PartialEq, Eq, Structural)]
pub enum DbError {
    Write(StoreFault),
    Commit(StoreFault),
    Read(StoreFault),
}

/// The persistent keys, each with the largest value it may hold.
#[derive(Debug, Clone, Copy, PartialEq, Eq, Structural)]
pub enum SettingKey {
    WifiSsid,
    WifiPassword,
    WifiHostname,
    MqttBroker,
    MqttClientId,
    MqttUsername,
    MqttPassword,
}

impl SettingKey {
    pub open spec fn spec_max_len(self) -> nat {
        match self {
            SettingKey::WifiSsid => 32,
            SettingKey::WifiPassword => 64,
            SettingKey::WifiHostname => 32,
            SettingKey::MqttBroker => 256,
            SettingKey::MqttClientId => 64,
            SettingKey::MqttUsername => 64,
            SettingKey::MqttPassword => 128,
        }
    }

    pub open spec fn spec_name(self) -> Seq<char> {
        match self {
            SettingKey::WifiSsid => "wifi.ssid"@,
            SettingKey::WifiPassword => "wifi.password"@,
            SettingKey::WifiHostname => "wifi.hostname"@,
            SettingKey::MqttBroker => "mqtt.broker"@,
            SettingKey::MqttClientId => "mqtt.client_id"@,
            SettingKey::MqttUsername => "mqtt.username"@,
            SettingKey::MqttPassword => "mqtt.password"@,
        }
    }

    /// The largest number of bytes a read of this key hands back.
    pub fn max_len(&self) -> (r: usize)
        ensures
            r == self.spec_max_len(),
    {
        match self {
            SettingKey::WifiSsid => 32,
            SettingKey::WifiPassword => 64,
            SettingKey::WifiHostname => 32,
            SettingKey::MqttBroker => 256,
            SettingKey::MqttClientId => 64,
            SettingKey::MqttUsername => 64,
            SettingKey::MqttPassword => 128,
        }
    }

    /// The key under which the value is stored.
    pub fn name(&self) -> (r: &'static str)
        ensures
            r@ == self.spec_name(),
    {
        match self {
            SettingKey::WifiSsid => "wifi.ssid",
            SettingKey::WifiPassword => "wifi.password",
            SettingKey::WifiHostname => "wifi.hostname",
            SettingKey::MqttBroker => "mqtt.broker",
            SettingKey::MqttClientId => "mqtt.client_id",
            SettingKey::MqttUsername => "mqtt.username",
            SettingKey::MqttPassword => "mqtt.password",
        }
    }
}

/// One value to be written under one key, as its own transaction.
#[derive(Debug, Clone)]
pub struct ConfigRecord {
    pub key: SettingKey,
    pub value: Vec<u8>,
}

/// A value read back from the store under a length bound.
#[derive(Debug, Clone)]
pub struct SettingRead {
    pub len: usize,
    pub value: Vec<u8>,
    pub truncated: bool,
}

/// The bytes a reader with room for `bound` bytes sees of a stored value.
pub open spec fn truncated_to(stored: Seq<u8>, bound: nat) -> Seq<u8> {
    if stored.len() <= bound {
        stored
    } else {
        stored.subrange(0, bound as int)
    }
}

/// What the store holds after a committed write: the key maps to the new
/// value, every other key is unchanged.
pub open spec fn after_write(contents: Map<SettingKey, Seq<u8>>, key: SettingKey, value: Seq<u8>) -> Map<
    SettingKey,
    Seq<u8>,
> {
    contents.insert(key, value)
}

/// What a reader with room for `bound` bytes gets for a stored value: the
/// number of bytes handed back, those bytes, and whether any were cut off.
pub open spec fn spec_read(stored: Seq<u8>, bound: nat) -> (nat, Seq<u8>, bool) {
    (truncated_to(stored, bound).len(), truncated_to(stored, bound), stored.len() > bound)
}

/// Hands a stored value to a reader whose buffer holds `bound` bytes. A longer
/// value is cut to its first `bound` bytes and flagged, never refused.
pub fn read_setting(stored: &[u8], bound: usize) -> (r: SettingRead)
    ensures
        (r.len as nat, r.value@, r.truncated) == spec_read(stored@, bound as nat),
{
    let n: usize = if stored.len() <= bound {
        stored.len()
    } else {
        bound
    };
    let mut value: Vec<u8> = Vec::with_capacity(n);
    let mut i: usize = 0;
    while i < n
        invariant
            n <= stored@.len(),
            i <= n,
            value@ == stored@.subrange(0, i as int),
        decreases n - i,
    {
        value.push(stored[i]);
        i = i + 1;
    }
    proof {
        assert(stored@.subrange(0, stored@.len() as int) =~= stored@);
    }
    SettingRead { len: n, value, truncated: stored.len() > bound }
}

/// Round trip: after a committed write of a value that fits its key's bound,
/// a read of that key hands back the value's length and the value itself,
/// unchanged and not truncated.
pub proof fn lemma_write_read_round_trip(
    contents: Map<SettingKey, Seq<u8>>,
    key: SettingKey,
    value: Seq<u8>,
)
    requires
        value.len() <= key.spec_max_len(),
    ensures
        after_write(contents, key, value).contains_key(key),
        spec_read(after_write(contents, key, value)[key], key.spec_max_len()) == (
            value.len(),
            value,
            false,
        ),
{
}

/// Truncation: after a committed write of a value longer than a bound, a read
/// under that bound hands back exactly the value's first `bound` bytes and
/// flags the cut; it does not fail.
pub proof fn lemma_write_read_truncates(
    contents: Map<SettingKey, Seq<u8>>,
    key: SettingKey,
    value: Seq<u8>,
    bound: nat,
)
    requires
        value.len() > bound,
    ensures
        spec_read(after_write(contents, key, value)[key], bound) == (
            bound,
            value.subrange(0, bound as int),
            true,
        ),
{
}

/// A write to one key leaves what every other key reads unchanged.
pub proof fn lemma_write_keeps_other_keys(
    contents: Map<SettingKey, Seq<u8>>,
    key: SettingKey,
    other: SettingKey,
    value: Seq<u8>,
)
    requires
        other != key,
    ensures
        after_write(contents, key, value).contains_key(other) == contents.contains_key(other),
        contents.contains_key(other) ==> after_write(contents, key, value)[other]
            == contents[other],
{
}

/// Whether two byte strings are the same, length included.
pub fn bytes_equal(a: &[u8], b: &[u8]) -> (r: bool)
    ensures
        r == (a@ == b@),
{
    if a.len() != b.len() {
        return false;
    }
    let mut i: usize = 0;
    while i < a.len()
        invariant
            a@.len() == b@.len(),
            i <= a@.len(),
            forall|j: int| 0 <= j < i ==> a@[j] == b@[j],
        decreases a.len() - i,
    {
        if a[i] != b[i] {
            return false;
        }
        i = i + 1;
    }
    assert(a@ =~= b@);
    true
}

/// A fresh copy of a byte string.
pub fn copy_bytes(s: &[u8]) -> (r: Vec<u8>)
    ensures
        r@ == s@,
{
    let mut out: Vec<u8> = Vec::with_capacity(s.len());
    let mut i: usize = 0;
    while i < s.len()
        invariant
            i <= s@.len(),
            out@ == s@.subrange(0, i as int),
        decreases s.len() - i,
    {
        out.push(s[i]);
        i = i + 1;
    }
    assert(s@.subrange(0, s@.len() as int) =~= s@);
    out
}

} // verus!
