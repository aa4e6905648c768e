use base64::prelude::{Engine, BASE64_STANDARD};
use eap::environment::aws_config::{AwsEnvironment, AwsEnvironmentError};
use eap::environment::aws_secret::{AwsSecret, AwsSecretError};
use eap::environment::{Environment, Error};

const CONFIG: &str = r#"{"port":443,"host":"localhost","enable_ssl":false,"nested":{"a":[1,2]}}"#;

#[test]
fn parameter_missing_is_pull_param_error() {
    match AwsEnvironment::from_parameter_value(None) {
        Err(AwsEnvironmentError::PullParamError(m)) => assert_eq!(m, "Failed to pull paramter."),
        other => panic!("unexpected: {:?}", other.err()),
    }
}

#[test]
fn parameter_object_is_read_by_exact_key() {
    let env = AwsEnvironment::from_parameter_value(Some(CONFIG.to_string())).ok().unwrap();
    assert_eq!(env.get::<u16>("port"), Some(443));
    assert_eq!(env.get::<u16>("PORT"), None);
    assert_eq!(env.get::<bool>("enable_ssl"), Some(false));
    assert_eq!(env.get_or("missing", 8080u16), 8080);
    assert_eq!(env.try_get::<u16>("host"), Err(Error::InvalidValue));
}

#[test]
fn parameter_string_values_keep_their_json_quotes() {
    let env = AwsEnvironment::from_parameter_value(Some(CONFIG.to_string())).ok().unwrap();
    assert_eq!(env.get::<String>("host"), Some("\"localhost\"".to_string()));
    assert_eq!(env.get_raw("nested"), Some("{\"a\":[1,2]}".to_string()));
}

#[test]
fn parameter_that_is_not_json_is_deser_error() {
    match AwsEnvironment::from_parameter_value(Some("port=443".to_string())) {
        Err(AwsEnvironmentError::DeserError(m)) => assert!(!m.is_empty()),
        other => panic!("unexpected: {:?}", other.err()),
    }
}

#[test]
fn parameter_whose_root_is_not_an_object_is_json_error() {
    match AwsEnvironment::from_parameter_value(Some("[1, 2]".to_string())) {
        Err(AwsEnvironmentError::JsonError(m)) => {
            assert_eq!(m, "Root json object not object(Map<String, Value>).")
        }
        other => panic!("unexpected: {:?}", other.err()),
    }
}

#[test]
fn parameter_with_a_repeated_key_keeps_the_last() {
    let env = AwsEnvironment::from_parameter_value(Some(r#"{"a":1,"a":2}"#.to_string())).ok().unwrap();
    assert_eq!(env.get::<u8>("a"), Some(2));
}

#[test]
fn environment_from_json_root_outcomes() {
    let entries = vec![("k".to_string(), "5".to_string())];
    let env = AwsEnvironment::from_json_root(Ok(Some(entries))).ok().unwrap();
    assert_eq!(env.get::<u8>("k"), Some(5));
    assert!(matches!(
        AwsEnvironment::from_json_root(Ok(None)),
        Err(AwsEnvironmentError::JsonError(_))
    ));
    match AwsEnvironment::from_json_root(Err("bad".to_string())) {
        Err(AwsEnvironmentError::DeserError(m)) => assert_eq!(m, "bad"),
        other => panic!("unexpected: {:?}", other.err()),
    }
}

#[test]
fn secret_text_form_is_used_first() {
    let binary = Some(b"bm90IGpzb24=".to_vec());
    let env = AwsSecret::from_secret_value(Some(r#"{"client_id":"abc"}"#.to_string()), binary)
        .ok()
        .unwrap();
    assert_eq!(env.get::<String>("client_id"), Some("\"abc\"".to_string()));
}

#[test]
fn secret_binary_form_is_base64_of_json() {
    // base64 of {"client_secret":7}
    let env = AwsSecret::from_secret_value(None, Some(b"eyJjbGllbnRfc2VjcmV0Ijo3fQ==".to_vec()))
        .ok()
        .unwrap();
    assert_eq!(env.get::<u32>("client_secret"), Some(7));
}

#[test]
fn secret_binary_that_is_not_base64_is_decode_error() {
    assert!(matches!(
        AwsSecret::from_secret_value(None, Some(b"*not base64*".to_vec())),
        Err(AwsSecretError::Base64DecodeError(_))
    ));
}

#[test]
fn secret_binary_that_is_not_utf8_is_utf8_error() {
    // base64 of the bytes ff fe
    assert!(matches!(
        AwsSecret::from_secret_value(None, Some(b"//4=".to_vec())),
        Err(AwsSecretError::Utf8DecodeError(_))
    ));
}

#[test]
fn secret_in_no_form_parses_empty_text() {
    assert!(matches!(
        AwsSecret::from_secret_value(None, None),
        Err(AwsSecretError::DeserError(_))
    ));
}

#[test]
fn secret_whose_root_is_not_an_object_is_json_error() {
    match AwsSecret::from_secret_value(Some("\"text\"".to_string()), None) {
        Err(AwsSecretError::JsonError(m)) => {
            assert_eq!(m, "Root json object not object(Map<String, Value>).")
        }
        other => panic!("unexpected: {:?}", other.err()),
    }
}

#[test]
fn secret_from_json_root_outcomes() {
    let entries = vec![("x".to_string(), "true".to_string())];
    let env = AwsSecret::from_json_root(Ok(Some(entries))).ok().unwrap();
    assert_eq!(env.get::<bool>("x"), Some(true));
    match AwsSecret::from_json_root(Err("oops".to_string())) {
        Err(AwsSecretError::DeserError(m)) => assert_eq!(m, "oops"),
        other => panic!("unexpected: {:?}", other.err()),
    }
}

#[test]
fn error_texts_are_the_decoders_messages() {
    let json_err = serde_json::from_str::<serde_json::Value>("port=443").unwrap_err().to_string();
    match AwsEnvironment::from_parameter_value(Some("port=443".to_string())) {
        Err(AwsEnvironmentError::DeserError(m)) => assert_eq!(m, json_err),
        other => panic!("unexpected: {:?}", other.err()),
    }
    match AwsSecret::from_secret_value(Some("port=443".to_string()), Some(b"!!".to_vec())) {
        Err(AwsSecretError::DeserError(m)) => assert_eq!(m, json_err),
        other => panic!("unexpected: {:?}", other.err()),
    }
    let b64_err = BASE64_STANDARD.decode(b"*not base64*").unwrap_err().to_string();
    match AwsSecret::from_secret_value(None, Some(b"*not base64*".to_vec())) {
        Err(AwsSecretError::Base64DecodeError(m)) => assert_eq!(m, b64_err),
        other => panic!("unexpected: {:?}", other.err()),
    }
    let utf8_err = String::from_utf8(vec![0xff, 0xfe]).unwrap_err().to_string();
    match AwsSecret::from_secret_value(None, Some(b"//4=".to_vec())) {
        Err(AwsSecretError::Utf8DecodeError(m)) => assert_eq!(m, utf8_err),
        other => panic!("unexpected: {:?}", other.err()),
    }
}

#[test]
fn binary_secret_reads_as_its_text() {
    let text = r#"{"client_secret":7}"#;
    let from_text = AwsSecret::from_secret_value(Some(text.to_string()), None).ok().unwrap();
    let from_binary =
        AwsSecret::from_secret_value(None, Some(b"eyJjbGllbnRfc2VjcmV0Ijo3fQ==".to_vec())).ok().unwrap();
    assert_eq!(from_text.get_raw("client_secret"), from_binary.get_raw("client_secret"));
}
