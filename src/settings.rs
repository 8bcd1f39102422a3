//! Connection settings and the stream topology of a run. Reading the
//! environment is left to the caller, which hands in what it found.
use crate::reading::Topic;
use vstd::prelude::*;

verus! {

/// Where the root certificate of the broker is read from.
pub const ROOT_CA_PATH: &'static str = "certs/root-CA.crt";

/// Where the client certificate is read from.
pub const CLIENT_CERT_PATH: &'static str = "certs/Test.cert.pem";

/// Where the client's private key is read from.
pub const CLIENT_KEY_PATH: &'static str = "certs/Test.private.key";

/// Paths of the TLS material of a connection.
pub struct TlsMaterial {
    pub root_ca: String,
    pub client_cert: String,
    pub client_key: String,
}

/// What one broker session is opened with.
pub struct ConnectionSettings {
    pub client_id: String,
    pub broker_endpoint: String,
    pub tls: Option<TlsMaterial>,
}

/// Settings that cannot be used.
#[derive(Debug, Clone, Copy, PartialEq, Eq, Structural)]
pub enum ConfigError {
    /// No broker endpoint was configured.
    MissingEndpoint,
    /// Connection number `second` uses the client identifier of an earlier one.
    DuplicateClientId { second: u64 },
}

/// Settings for a TLS session to `endpoint` as `client_id`, with the
/// certificate files at their usual places. Fails exactly when no endpoint
/// was configured.
pub fn aws_settings(client_id: &str, endpoint: Option<String>) -> (r: Result<
    ConnectionSettings,
    ConfigError,
>)
    ensures
        match endpoint {
            None => r == Err::<ConnectionSettings, ConfigError>(ConfigError::MissingEndpoint),
            Some(e) => r matches Ok(s) && s.client_id@ == client_id@ && s.broker_endpoint@ == e@ && (
            s.tls matches Some(t) && t.root_ca@ == ROOT_CA_PATH@ && t.client_cert@
                == CLIENT_CERT_PATH@ && t.client_key@ == CLIENT_KEY_PATH@),
        },
{
    match endpoint {
        None => Err(ConfigError::MissingEndpoint),
        Some(e) => Ok(
            ConnectionSettings {
                client_id: String::from_str(client_id),
                broker_endpoint: e,
                tls: Some(
                    TlsMaterial {
                        root_ca: String::from_str(ROOT_CA_PATH),
                        client_cert: String::from_str(CLIENT_CERT_PATH),
                        client_key: String::from_str(CLIENT_KEY_PATH),
                    },
                ),
            },
        ),
    }
}

/// Every client identifier differs from every other.
pub open spec fn client_ids_distinct(s: Seq<ConnectionSettings>) -> bool {
    forall|i: int, j: int| 0 <= i < j < s.len() ==> s[i].client_id@ != s[j].client_id@
}

/// Checks that sessions opened at once use distinct client identifiers. On a
/// repeat, `second` is the first index whose identifier an earlier entry
/// already has.
pub fn check_client_ids(settings: &Vec<ConnectionSettings>) -> (r: Result<(), ConfigError>)
    ensures
        r is Ok <==> client_ids_distinct(settings@),
        r matches Err(e) ==> (e matches ConfigError::DuplicateClientId { second } && second
            < settings@.len() && client_ids_distinct(settings@.subrange(0, second as int)) && exists|
            i: int,
        |
            0 <= i < second && #[trigger] settings@[i].client_id@ == settings@[second as int].client_id@),
{
    let n = settings.len();
    let mut j: usize = 0;
    while j < n
        invariant
            n == settings@.len(),
            j <= n,
            forall|a: int, b: int|
                0 <= a < b < j ==> settings@[a].client_id@ != settings@[b].client_id@,
        decreases n - j,
    {
        let mut i: usize = 0;
        while i < j
            invariant
                n == settings@.len(),
                i <= j < n,
                forall|a: int, b: int|
                    0 <= a < b < j ==> settings@[a].client_id@ != settings@[b].client_id@,
                forall|a: int| 0 <= a < i ==> settings@[a].client_id@ != settings@[j as int].client_id@,
            decreases j - i,
        {
            if settings[i].client_id == settings[j].client_id {
                assert(client_ids_distinct(settings@.subrange(0, j as int)));
                return Err(ConfigError::DuplicateClientId { second: j as u64 });
            }
            i = i + 1;
        }
        j = j + 1;
    }
    Ok(())
}

/// One sensor stream of a run: its channel, its device and the client id of
/// its connection.
pub struct StreamConfig {
    pub topic: Topic,
    pub device_id: String,
    pub client_id: String,
}

/// The streams of the standard deployment: one temperature sensor and one
/// humidity sensor, each on a connection of its own.
pub fn default_streams() -> (r: Vec<StreamConfig>)
    ensures
        r@.len() == 2,
        r@[0].topic == Topic::Temperature,
        r@[0].device_id@ == "temperature_sensor_1"@,
        r@[0].client_id@ == "rust-client-1"@,
        r@[1].topic == Topic::Humidity,
        r@[1].device_id@ == "humidity_sensor_1"@,
        r@[1].client_id@ == "rust-client-2"@,
{
    let mut r: Vec<StreamConfig> = Vec::new();
    r.push(
        StreamConfig {
            topic: Topic::Temperature,
            device_id: String::from_str("temperature_sensor_1"),
            client_id: String::from_str("rust-client-1"),
        },
    );
    r.push(
        StreamConfig {
            topic: Topic::Humidity,
            device_id: String::from_str("humidity_sensor_1"),
            client_id: String::from_str("rust-client-2"),
        },
    );
    r
}

} // verus!
