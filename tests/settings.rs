use monitoring_core::reading::Topic;
use monitoring_core::settings::{
    aws_settings, check_client_ids, default_streams, ConfigError, ConnectionSettings,
    CLIENT_CERT_PATH, CLIENT_KEY_PATH, ROOT_CA_PATH,
};

#[test]
fn settings_are_built_from_the_endpoint() {
    let s = aws_settings("rust-client-1", Some("broker.example:8883".to_string())).unwrap();
    assert_eq!(s.client_id, "rust-client-1");
    assert_eq!(s.broker_endpoint, "broker.example:8883");
    let tls = s.tls.unwrap();
    assert_eq!(tls.root_ca, ROOT_CA_PATH);
    assert_eq!(tls.client_cert, CLIENT_CERT_PATH);
    assert_eq!(tls.client_key, CLIENT_KEY_PATH);
    assert_eq!(ROOT_CA_PATH, "certs/root-CA.crt");
}

#[test]
fn only_a_missing_endpoint_is_a_configuration_error() {
    assert_eq!(aws_settings("c", None).err(), Some(ConfigError::MissingEndpoint));
    let empty_endpoint = aws_settings("c", Some(String::new())).unwrap();
    assert_eq!(empty_endpoint.broker_endpoint, "");
    let empty_id = aws_settings("", Some("b".to_string())).unwrap();
    assert_eq!(empty_id.client_id, "");
    assert_eq!(empty_id.broker_endpoint, "b");
}

#[test]
fn settings_over_one_endpoint_differ_in_the_client_id_only() {
    let a = aws_settings("rust-client-1", Some("b".to_string())).unwrap();
    let b = aws_settings("rust-client-2", Some("b".to_string())).unwrap();
    assert_eq!(a.client_id, "rust-client-1");
    assert_eq!(b.client_id, "rust-client-2");
    assert_eq!(a.broker_endpoint, b.broker_endpoint);
    let (ta, tb) = (a.tls.unwrap(), b.tls.unwrap());
    assert_eq!(ta.root_ca, tb.root_ca);
    assert_eq!(ta.client_cert, tb.client_cert);
    assert_eq!(ta.client_key, tb.client_key);
}

fn plain(id: &str) -> ConnectionSettings {
    ConnectionSettings { client_id: id.to_string(), broker_endpoint: "localhost".to_string(), tls: None }
}

#[test]
fn client_ids_must_be_distinct() {
    assert_eq!(check_client_ids(&vec![]), Ok(()));
    assert_eq!(check_client_ids(&vec![plain("a"), plain("b")]), Ok(()));
    assert_eq!(
        check_client_ids(&vec![plain("a"), plain("b"), plain("a")]),
        Err(ConfigError::DuplicateClientId { second: 2 })
    );
    assert_eq!(
        check_client_ids(&vec![plain("a"), plain("b"), plain("b"), plain("a")]),
        Err(ConfigError::DuplicateClientId { second: 2 })
    );
}

#[test]
fn default_deployment_has_two_streams() {
    let s = default_streams();
    assert_eq!(s.len(), 2);
    assert_eq!(s[0].topic, Topic::Temperature);
    assert_eq!(s[0].device_id, "temperature_sensor_1");
    assert_eq!(s[0].client_id, "rust-client-1");
    assert_eq!(s[1].topic, Topic::Humidity);
    assert_eq!(s[1].device_id, "humidity_sensor_1");
    assert_eq!(s[1].client_id, "rust-client-2");
}
