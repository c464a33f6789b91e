use netatmo_login::config::{
    get_redirect_uri, ConfigError, LoginConfig, DEFAULT_ADDRESS, DEFAULT_PORT, DEFAULT_SCOPES,
};

fn text(s: &str) -> Option<String> {
    Some(String::from(s))
}

fn minimal() -> LoginConfig {
    LoginConfig::new(text("id"), text("secret"), None, None, None, None).unwrap()
}

#[test]
fn defaults_are_as_documented() {
    assert_eq!(DEFAULT_SCOPES, "read_thermostat write_thermostat");
    assert_eq!(DEFAULT_PORT, 9090);
    assert_eq!(DEFAULT_ADDRESS, "127.0.0.1");
}

#[test]
fn new_fills_in_defaults() {
    let config = minimal();
    assert_eq!(config.client_id, "id");
    assert_eq!(config.client_secret, "secret");
    assert_eq!(config.redirect_uri, None);
    assert_eq!(config.scopes, "read_thermostat write_thermostat");
    assert_eq!(config.bind_address, "127.0.0.1");
    assert_eq!(config.bind_port, 9090);
}

#[test]
fn new_keeps_what_was_given() {
    let config = LoginConfig::new(
        text("id"),
        text("secret"),
        text("https://example.org/cb"),
        text("read_station+read_camera"),
        Some(8000),
        text("0.0.0.0"),
    )
    .unwrap();
    assert_eq!(config.redirect_uri, text("https://example.org/cb"));
    assert_eq!(config.scopes, "read_station+read_camera");
    assert_eq!(config.bind_address, "0.0.0.0");
    assert_eq!(config.bind_port, 8000);
}

#[test]
fn new_reports_missing_client_id() {
    let made = LoginConfig::new(None, text("secret"), None, None, None, None);
    assert_eq!(made, Err(ConfigError::MissingClientId));
}

#[test]
fn new_reports_missing_client_secret() {
    let made = LoginConfig::new(text("id"), None, None, None, None, None);
    assert_eq!(made, Err(ConfigError::MissingClientSecret));
}

#[test]
fn new_reports_missing_client_id_first() {
    let made = LoginConfig::new(None, None, None, None, None, None);
    assert_eq!(made, Err(ConfigError::MissingClientId));
}

#[test]
fn redirect_uri_is_derived_from_the_listener() {
    assert_eq!(get_redirect_uri(&minimal()), "http://127.0.0.1:9090");
}

#[test]
fn redirect_uri_follows_address_and_port() {
    let config =
        LoginConfig::new(text("id"), text("secret"), None, None, Some(65535), text("192.168.1.20"))
            .unwrap();
    assert_eq!(get_redirect_uri(&config), "http://192.168.1.20:65535");
    let low = LoginConfig::new(text("id"), text("secret"), None, None, Some(0), None).unwrap();
    assert_eq!(get_redirect_uri(&low), "http://127.0.0.1:0");
}

#[test]
fn explicit_redirect_uri_is_used_verbatim() {
    let config = LoginConfig::new(
        text("id"),
        text("secret"),
        text("https://example.org/callback?x=1"),
        None,
        Some(1234),
        None,
    )
    .unwrap();
    assert_eq!(get_redirect_uri(&config), "https://example.org/callback?x=1");
}

#[test]
fn redirect_uri_resolution_is_idempotent() {
    let config = minimal();
    let once = get_redirect_uri(&config);
    assert_eq!(get_redirect_uri(&config), once);
    let mut fixed = config.clone();
    fixed.redirect_uri = Some(once.clone());
    assert_eq!(get_redirect_uri(&fixed), once);
}

#[test]
fn exchange_scopes_are_blank_separated() {
    let plus = LoginConfig::new(
        text("id"),
        text("secret"),
        None,
        text("read_thermostat+write_thermostat"),
        None,
        None,
    )
    .unwrap();
    assert_eq!(plus.exchange_scopes(), "read_thermostat write_thermostat");
    assert_eq!(minimal().exchange_scopes(), "read_thermostat write_thermostat");
}

#[test]
fn authorize_scopes_are_plus_separated() {
    assert_eq!(minimal().authorize_scopes(), "read_thermostat+write_thermostat");
    let plus = LoginConfig::new(text("id"), text("secret"), None, text("a+b c"), None, None)
        .unwrap();
    assert_eq!(plus.authorize_scopes(), "a+b+c");
    assert_eq!(plus.exchange_scopes(), "a b c");
}
