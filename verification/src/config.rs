//! Configuration: values read from `.mpesa-dev.toml`, then overridden by
//! `MPESA_*` environment variables, which always win.
use vstd::prelude::*;

use crate::decimal::{parse_u16, parse_unsigned};
use crate::error::{config_error, Error};
use crate::text::same_text;

verus! {

/// Configuration of the toolkit.
#[derive(Debug, Clone)]
pub struct Config {
    pub consumer_key: Option<String>,
    pub consumer_secret: Option<String>,
    pub shortcode: Option<String>,
    pub passkey: Option<String>,
    pub callback_url: Option<String>,
    pub environment: String,
    pub inspect_port: u16,
    /// Websocket URL of the relay the `tunnel` command connects to.
    pub relay_url: Option<String>,
    /// Shared secret the relay expects.
    pub relay_token: Option<String>,
}

/// The `MPESA_*` environment variables that were set, each with its value.
#[derive(Debug, Clone)]
pub struct EnvOverrides {
    pub consumer_key: Option<String>,
    pub consumer_secret: Option<String>,
    pub shortcode: Option<String>,
    pub passkey: Option<String>,
    pub callback_url: Option<String>,
    pub environment: Option<String>,
    pub inspect_port: Option<String>,
    pub relay_url: Option<String>,
    pub relay_token: Option<String>,
}

/// `environment` when the config file does not name one.
pub fn default_environment() -> (s: String)
    ensures
        s@ == "sandbox"@,
{
    String::from_str("sandbox")
}

/// `inspect_port` when the config file does not name one.
pub fn default_inspect_port() -> (p: u16)
    ensures
        p == 9090,
{
    9090
}

/// The value of an optional setting once an environment variable may have
/// replaced it: a set variable always wins.
pub open spec fn overridden(current: Option<String>, env: Option<String>) -> Option<String> {
    match env {
        Some(v) => Some(v),
        None => current,
    }
}

/// The inspect port once `MPESA_INSPECT_PORT` may have replaced it: only a
/// value that parses as a `u16` replaces the current one.
pub open spec fn overridden_port(current: u16, env: Option<String>) -> u16 {
    match env {
        Some(v) => match parse_unsigned(v@, u16::MAX as nat) {
            Some(p) => p as u16,
            None => current,
        },
        None => current,
    }
}

/// `config` with every set environment variable applied.
pub open spec fn with_overrides(config: Config, env: EnvOverrides) -> Config {
    Config {
        consumer_key: overridden(config.consumer_key, env.consumer_key),
        consumer_secret: overridden(config.consumer_secret, env.consumer_secret),
        shortcode: overridden(config.shortcode, env.shortcode),
        passkey: overridden(config.passkey, env.passkey),
        callback_url: overridden(config.callback_url, env.callback_url),
        environment: match env.environment {
            Some(v) => v,
            None => config.environment,
        },
        inspect_port: overridden_port(config.inspect_port, env.inspect_port),
        relay_url: overridden(config.relay_url, env.relay_url),
        relay_token: overridden(config.relay_token, env.relay_token),
    }
}

/// The configuration used when there is no config file: nothing set, the
/// sandbox environment, and the default inspect port.
pub open spec fn built_in_config(config: Config) -> bool {
    &&& config.consumer_key is None
    &&& config.consumer_secret is None
    &&& config.shortcode is None
    &&& config.passkey is None
    &&& config.callback_url is None
    &&& config.environment@ == "sandbox"@
    &&& config.inspect_port == 9090
    &&& config.relay_url is None
    &&& config.relay_token is None
}

fn override_option(current: &mut Option<String>, env: &Option<String>)
    ensures
        *final(current) == overridden(*old(current), *env),
{
    if let Some(v) = env {
        *current = Some(v.clone());
    }
}

/// The Daraja API base URL for an environment name.
pub open spec fn base_url_of(environment: Seq<char>) -> Seq<char> {
    if environment == "production"@ {
        "https://api.safaricom.co.ke"@
    } else {
        "https://sandbox.safaricom.co.ke"@
    }
}

pub open spec fn missing_credentials_message() -> Seq<char> {
    "missing consumer key/secret; set MPESA_CONSUMER_KEY and MPESA_CONSUMER_SECRET, or add consumer_key / consumer_secret to .mpesa-dev.toml"@
}

pub open spec fn missing_relay_url_message() -> Seq<char> {
    "missing relay_url; set MPESA_RELAY_URL or relay_url in .mpesa-dev.toml to a running mpesa-relay's websocket endpoint, e.g. wss://relay.example.com/tunnel/ws"@
}

pub open spec fn missing_relay_token_message() -> Seq<char> {
    "missing relay_token; set MPESA_RELAY_TOKEN or relay_token in .mpesa-dev.toml to the same shared secret the relay was started with (RELAY_TOKEN)"@
}

/// Environment variables always win: whatever two config files say, once a
/// variable is set the setting it names is the same under both, and is the
/// variable's value (the inspect port when the value parses as a port).
pub proof fn environment_always_wins(a: Config, b: Config, env: EnvOverrides)
    ensures
        env.consumer_key is Some ==> with_overrides(a, env).consumer_key == env.consumer_key
            && with_overrides(b, env).consumer_key == env.consumer_key,
        env.consumer_secret is Some ==> with_overrides(a, env).consumer_secret == env.consumer_secret
            && with_overrides(b, env).consumer_secret == env.consumer_secret,
        env.shortcode is Some ==> with_overrides(a, env).shortcode == env.shortcode
            && with_overrides(b, env).shortcode == env.shortcode,
        env.passkey is Some ==> with_overrides(a, env).passkey == env.passkey
            && with_overrides(b, env).passkey == env.passkey,
        env.callback_url is Some ==> with_overrides(a, env).callback_url == env.callback_url
            && with_overrides(b, env).callback_url == env.callback_url,
        env.environment matches Some(v) ==> with_overrides(a, env).environment == v
            && with_overrides(b, env).environment == v,
        env.inspect_port matches Some(v) ==> (parse_unsigned(v@, u16::MAX as nat) matches Some(p) ==> with_overrides(a, env).inspect_port == p
            && with_overrides(b, env).inspect_port == p),
        env.relay_url is Some ==> with_overrides(a, env).relay_url == env.relay_url
            && with_overrides(b, env).relay_url == env.relay_url,
        env.relay_token is Some ==> with_overrides(a, env).relay_token == env.relay_token
            && with_overrides(b, env).relay_token == env.relay_token,
{
}

/// A variable that is not set leaves its setting as the config file (or the
/// built-in configuration) has it; so does an inspect port that does not
/// parse as a port.
pub proof fn unset_variables_leave_settings_alone(config: Config, env: EnvOverrides)
    ensures
        env.consumer_key is None ==> with_overrides(config, env).consumer_key == config.consumer_key,
        env.consumer_secret is None ==> with_overrides(config, env).consumer_secret == config.consumer_secret,
        env.shortcode is None ==> with_overrides(config, env).shortcode == config.shortcode,
        env.passkey is None ==> with_overrides(config, env).passkey == config.passkey,
        env.callback_url is None ==> with_overrides(config, env).callback_url == config.callback_url,
        env.environment is None ==> with_overrides(config, env).environment == config.environment,
        (env.inspect_port matches Some(v) ==> parse_unsigned(v@, u16::MAX as nat) is None) ==> with_overrides(
            config,
            env,
        ).inspect_port == config.inspect_port,
        env.relay_url is None ==> with_overrides(config, env).relay_url == config.relay_url,
        env.relay_token is None ==> with_overrides(config, env).relay_token == config.relay_token,
{
}

/// Applying the environment twice changes nothing more than applying it once.
pub proof fn overrides_idempotent(config: Config, env: EnvOverrides)
    ensures
        with_overrides(with_overrides(config, env), env) == with_overrides(config, env),
{
}

impl Config {
    /// The configuration used when there is no config file.
    pub fn built_in() -> (c: Config)
        ensures
            built_in_config(c),
    {
        Config {
            consumer_key: None,
            consumer_secret: None,
            shortcode: None,
            passkey: None,
            callback_url: None,
            environment: default_environment(),
            inspect_port: default_inspect_port(),
            relay_url: None,
            relay_token: None,
        }
    }

    /// Where the config file is looked for, relative to the working directory.
    pub fn default_path() -> (p: &'static str)
        ensures
            p@ == ".mpesa-dev.toml"@,
    {
        ".mpesa-dev.toml"
    }

    /// Applies the environment variables that are set on top of this config.
    pub fn apply_env_overrides(&mut self, env: &EnvOverrides)
        ensures
            *final(self) == with_overrides(*old(self), *env),
    {
        override_option(&mut self.consumer_key, &env.consumer_key);
        override_option(&mut self.consumer_secret, &env.consumer_secret);
        override_option(&mut self.shortcode, &env.shortcode);
        override_option(&mut self.passkey, &env.passkey);
        override_option(&mut self.callback_url, &env.callback_url);
        if let Some(v) = &env.environment {
            self.environment = v.clone();
        }
        if let Some(v) = &env.inspect_port {
            if let Some(port) = parse_u16(v.as_str()) {
                self.inspect_port = port;
            }
        }
        override_option(&mut self.relay_url, &env.relay_url);
        override_option(&mut self.relay_token, &env.relay_token);
    }

    /// The configuration in effect: the config file's contents when there is
    /// one, the built-in configuration otherwise, with the environment
    /// variables that are set applied on top.
    pub fn from_sources(file: Option<Config>, env: &EnvOverrides) -> (c: Config)
        ensures
            match file {
                Some(f) => c == with_overrides(f, *env),
                None => exists|b: Config| built_in_config(b) && c == with_overrides(b, *env),
            },
    {
        let mut config = match file {
            Some(f) => f,
            None => Config::built_in(),
        };
        config.apply_env_overrides(env);
        config
    }

    /// Base URL for the Daraja API, chosen by `environment`: anything other
    /// than "production" is treated as sandbox.
    pub fn base_url(&self) -> (url: &'static str)
        ensures
            url@ == base_url_of(self.environment@),
    {
        if same_text(self.environment.as_str(), "production") {
            "https://api.safaricom.co.ke"
        } else {
            "https://sandbox.safaricom.co.ke"
        }
    }

    /// The consumer key and secret, which must both be configured.
    pub fn require_credentials(&self) -> (r: Result<(String, String), Error>)
        ensures
            match (self.consumer_key, self.consumer_secret) {
                (Some(key), Some(secret)) => r == Ok::<(String, String), Error>((key, secret)),
                _ => r matches Err(e) && config_error(e, missing_credentials_message()),
            },
    {
        match (&self.consumer_key, &self.consumer_secret) {
            (Some(key), Some(secret)) => Ok((key.clone(), secret.clone())),
            _ => Err(
                Error::Config(
                    String::from_str(
                        "missing consumer key/secret; set MPESA_CONSUMER_KEY and MPESA_CONSUMER_SECRET, or add consumer_key / consumer_secret to .mpesa-dev.toml",
                    ),
                ),
            ),
        }
    }

    /// The relay URL and token, which must both be configured; a missing URL
    /// is reported before a missing token.
    pub fn require_relay(&self) -> (r: Result<(String, String), Error>)
        ensures
            match (self.relay_url, self.relay_token) {
                (Some(url), Some(token)) => r == Ok::<(String, String), Error>((url, token)),
                (None, _) => r matches Err(e) && config_error(e, missing_relay_url_message()),
                (Some(_), None) => r matches Err(e) && config_error(e, missing_relay_token_message()),
            },
    {
        let relay_url = match &self.relay_url {
            Some(url) => url.clone(),
            None => {
                return Err(
                    Error::Config(
                        String::from_str(
                            "missing relay_url; set MPESA_RELAY_URL or relay_url in .mpesa-dev.toml to a running mpesa-relay's websocket endpoint, e.g. wss://relay.example.com/tunnel/ws",
                        ),
                    ),
                );
            },
        };
        let relay_token = match &self.relay_token {
            Some(token) => token.clone(),
            None => {
                return Err(
                    Error::Config(
                        String::from_str(
                            "missing relay_token; set MPESA_RELAY_TOKEN or relay_token in .mpesa-dev.toml to the same shared secret the relay was started with (RELAY_TOKEN)",
                        ),
                    ),
                );
            },
        };
        Ok((relay_url, relay_token))
    }
}

} // verus!
