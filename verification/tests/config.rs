use mpesa_dev::config::{default_environment, default_inspect_port, Config, EnvOverrides};
use mpesa_dev::error::Error;

fn no_env() -> EnvOverrides {
    EnvOverrides {
        consumer_key: None,
        consumer_secret: None,
        shortcode: None,
        passkey: None,
        callback_url: None,
        environment: None,
        inspect_port: None,
        relay_url: None,
        relay_token: None,
    }
}

fn config_message(e: Error) -> String {
    match e {
        Error::Config(m) => m,
        other => panic!("expected a config error, got {other:?}"),
    }
}

#[test]
fn defaults_without_a_file() {
    let config = Config::from_sources(None, &no_env());
    assert_eq!(config.environment, "sandbox");
    assert_eq!(config.inspect_port, 9090);
    assert!(config.consumer_key.is_none() && config.relay_url.is_none());
    assert_eq!(default_environment(), "sandbox");
    assert_eq!(default_inspect_port(), 9090);
    assert_eq!(Config::default_path(), ".mpesa-dev.toml");
    assert_eq!(config.base_url(), "https://sandbox.safaricom.co.ke");
}

#[test]
fn environment_variables_win_over_the_file() {
    let mut file = Config::built_in();
    file.consumer_key = Some("file-key".to_string());
    file.environment = "sandbox".to_string();
    file.inspect_port = 9000;
    let mut env = no_env();
    env.consumer_key = Some("env-key".to_string());
    env.environment = Some("production".to_string());
    env.inspect_port = Some("8080".to_string());
    env.relay_token = Some("tok".to_string());
    let config = Config::from_sources(Some(file.clone()), &env);
    assert_eq!(config.consumer_key.as_deref(), Some("env-key"));
    assert_eq!(config.environment, "production");
    assert_eq!(config.inspect_port, 8080);
    assert_eq!(config.relay_token.as_deref(), Some("tok"));
    assert_eq!(config.base_url(), "https://api.safaricom.co.ke");
    let without = Config::from_sources(Some(file), &no_env());
    assert_eq!(without.consumer_key.as_deref(), Some("file-key"));
    assert_eq!(without.inspect_port, 9000);
}

#[test]
fn unparsable_port_is_ignored() {
    let mut env = no_env();
    env.inspect_port = Some("eighty".to_string());
    assert_eq!(Config::from_sources(None, &env).inspect_port, 9090);
    env.inspect_port = Some("70000".to_string());
    assert_eq!(Config::from_sources(None, &env).inspect_port, 9090);
}

#[test]
fn anything_but_production_is_sandbox() {
    let mut config = Config::built_in();
    config.environment = "Production".to_string();
    assert_eq!(config.base_url(), "https://sandbox.safaricom.co.ke");
    config.environment = "production".to_string();
    assert_eq!(config.base_url(), "https://api.safaricom.co.ke");
}

#[test]
fn credentials_are_required_together() {
    let mut config = Config::built_in();
    config.consumer_key = Some("k".to_string());
    let msg = config_message(config.require_credentials().unwrap_err());
    assert!(msg.starts_with("missing consumer key/secret; set MPESA_CONSUMER_KEY"), "{msg}");
    assert!(msg.ends_with("add consumer_key / consumer_secret to .mpesa-dev.toml"));
    config.consumer_secret = Some("s".to_string());
    assert_eq!(config.require_credentials().unwrap(), ("k".to_string(), "s".to_string()));
}

#[test]
fn relay_url_is_reported_before_token() {
    let mut config = Config::built_in();
    let msg = config_message(config.require_relay().unwrap_err());
    assert!(msg.starts_with("missing relay_url;"), "{msg}");
    config.relay_url = Some("wss://relay.example.com/tunnel/ws".to_string());
    let msg = config_message(config.require_relay().unwrap_err());
    assert!(msg.starts_with("missing relay_token;"), "{msg}");
    config.relay_token = Some("secret".to_string());
    assert_eq!(
        config.require_relay().unwrap(),
        ("wss://relay.example.com/tunnel/ws".to_string(), "secret".to_string())
    );
}
