use pacs_merge::config::{load_config_from_str, ConfigError};

#[test]
fn config_round_trip() {
    let text = "server_address = \"http://host:8042\"\nusername = \"user one\"\npassword = \" secret \"\n";
    let config = load_config_from_str(text).unwrap();
    assert_eq!(config.server_address, "http://host:8042");
    assert_eq!(config.username, "user one");
    assert_eq!(config.password, " secret ");
}

#[test]
fn missing_server_address() {
    let text = "username = \"u\"\npassword = \"p\"\n";
    let err = load_config_from_str(text).unwrap_err();
    assert_eq!(
        err,
        ConfigError::MissingOrInvalidField("server_address".to_string())
    );
}

#[test]
fn missing_username() {
    let text = "server_address = \"http://host\"\npassword = \"p\"\n";
    let err = load_config_from_str(text).unwrap_err();
    assert_eq!(
        err,
        ConfigError::MissingOrInvalidField("username".to_string())
    );
}

#[test]
fn missing_password() {
    let text = "server_address = \"http://host\"\nusername = \"u\"\n";
    let err = load_config_from_str(text).unwrap_err();
    assert_eq!(
        err,
        ConfigError::MissingOrInvalidField("password".to_string())
    );
}

#[test]
fn wrong_type_username() {
    let text = "server_address = \"http://host\"\nusername = 42\npassword = \"p\"\n";
    let err = load_config_from_str(text).unwrap_err();
    assert_eq!(
        err,
        ConfigError::MissingOrInvalidField("username".to_string())
    );
}

#[test]
fn wrong_type_password() {
    let text = "server_address = \"http://host\"\nusername = \"u\"\npassword = true\n";
    let err = load_config_from_str(text).unwrap_err();
    assert_eq!(
        err,
        ConfigError::MissingOrInvalidField("password".to_string())
    );
}

#[test]
fn first_missing_key_is_reported() {
    let text = "password = \"p\"\n";
    let err = load_config_from_str(text).unwrap_err();
    assert_eq!(
        err,
        ConfigError::MissingOrInvalidField("server_address".to_string())
    );
}

#[test]
fn malformed_document() {
    let text = "server_address = \"http://host\nusername = \"u\"\npassword = \"p\"\n";
    let err = load_config_from_str(text).unwrap_err();
    assert!(matches!(err, ConfigError::ParseFailure(_)));
    assert!(!matches!(err, ConfigError::IoFailure(_)));
}

#[test]
fn extra_keys_are_ignored() {
    let text = "server_address = \"http://host\"\nusername = \"u\"\npassword = \"p\"\nverbose = true\n";
    let config = load_config_from_str(text).unwrap();
    assert_eq!(config.server_address, "http://host");
    assert_eq!(config.username, "u");
    assert_eq!(config.password, "p");
}

#[test]
fn describe_missing_field() {
    let err = ConfigError::MissingOrInvalidField("username".to_string());
    assert_eq!(err.describe(), "Missing or invalid 'username' in config");
}

#[test]
fn describe_invalid_structure() {
    assert_eq!(
        ConfigError::InvalidStructure.describe(),
        "Invalid TOML configuration"
    );
}

#[test]
fn describe_io_failure() {
    let err = ConfigError::IoFailure("No such file or directory (os error 2)".to_string());
    assert_eq!(err.describe(), "No such file or directory (os error 2)");
}
