//! The settings of one login, fixed at startup and handed by reference to
//! everything that needs them.

use crate::text::{decimal, replace_char, replace_chars, push_decimal};
use vstd::prelude::*;

verus! {

/// The scopes asked for when none are given.
pub const DEFAULT_SCOPES: &'static str = "read_thermostat write_thermostat";

/// The port the callback listener binds when none is given.
pub const DEFAULT_PORT: u16 = 9090;

/// The address the callback listener binds when none is given: loopback.
pub const DEFAULT_ADDRESS: &'static str = "127.0.0.1";

/// The view of an optional text.
pub open spec fn opt_text(text: Option<String>) -> Option<Seq<char>> {
    match text {
        Some(t) => Some(t@),
        None => None,
    }
}

/// Why no configuration could be made.
#[derive(Debug, Clone, Copy, PartialEq, Eq, Structural)]
pub enum ConfigError {
    /// No client identifier was given.
    MissingClientId,
    /// No client secret was given.
    MissingClientSecret,
}

/// Everything one login needs to know.
///
/// `redirect_uri` is what the caller gave, if anything; the address that is
/// actually used everywhere comes from [`get_redirect_uri`]. `scopes` is kept
/// as given, with either blanks or `+` between the scopes.
#[derive(Debug, Clone, PartialEq, Eq)]
pub struct LoginConfig {
    pub client_id: String,
    pub client_secret: String,
    pub redirect_uri: Option<String>,
    pub scopes: String,
    pub bind_address: String,
    pub bind_port: u16,
}

/// The mathematical content of a [`LoginConfig`].
pub struct LoginConfigView {
    pub client_id: Seq<char>,
    pub client_secret: Seq<char>,
    pub redirect_uri: Option<Seq<char>>,
    pub scopes: Seq<char>,
    pub bind_address: Seq<char>,
    pub bind_port: u16,
}

impl View for LoginConfig {
    type V = LoginConfigView;

    open spec fn view(&self) -> LoginConfigView {
        LoginConfigView {
            client_id: self.client_id@,
            client_secret: self.client_secret@,
            redirect_uri: opt_text(self.redirect_uri),
            scopes: self.scopes@,
            bind_address: self.bind_address@,
            bind_port: self.bind_port,
        }
    }
}

/// The configuration that the given arguments stand for, every absent
/// optional one replaced by its default.
pub open spec fn config_of(
    client_id: Seq<char>,
    client_secret: Seq<char>,
    redirect_uri: Option<Seq<char>>,
    scopes: Option<Seq<char>>,
    bind_port: Option<u16>,
    bind_address: Option<Seq<char>>,
) -> LoginConfigView {
    LoginConfigView {
        client_id,
        client_secret,
        redirect_uri,
        scopes: match scopes {
            Some(s) => s,
            None => DEFAULT_SCOPES@,
        },
        bind_address: match bind_address {
            Some(a) => a,
            None => DEFAULT_ADDRESS@,
        },
        bind_port: match bind_port {
            Some(p) => p,
            None => DEFAULT_PORT,
        },
    }
}

/// The redirect URI of a configuration: the explicit one where there is one,
/// else `http://<bind_address>:<bind_port>`.
pub open spec fn redirect_uri_of(config: LoginConfigView) -> Seq<char> {
    match config.redirect_uri {
        Some(uri) => uri,
        None => "http://"@ + config.bind_address + ":"@ + decimal(config.bind_port as nat),
    }
}

/// The scopes as the token endpoint wants them: separated by blanks.
pub open spec fn exchange_scopes_of(config: LoginConfigView) -> Seq<char> {
    replace_char(config.scopes, '+', ' ')
}

/// The scopes as they go into a URL: separated by `+`.
pub open spec fn authorize_scopes_of(config: LoginConfigView) -> Seq<char> {
    replace_char(config.scopes, ' ', '+')
}

impl LoginConfig {
    /// Makes the configuration from what was given on startup. The client
    /// identifier and the client secret are required; a missing identifier is
    /// reported before a missing secret.
    pub fn new(
        client_id: Option<String>,
        client_secret: Option<String>,
        redirect_uri: Option<String>,
        scopes: Option<String>,
        bind_port: Option<u16>,
        bind_address: Option<String>,
    ) -> (made: Result<LoginConfig, ConfigError>)
        ensures
            client_id is None ==> made == Err::<LoginConfig, ConfigError>(
                ConfigError::MissingClientId,
            ),
            client_id is Some && client_secret is None ==> made == Err::<LoginConfig, ConfigError>(
                ConfigError::MissingClientSecret,
            ),
            client_id is Some && client_secret is Some ==> made is Ok && made->Ok_0@ == config_of(
                client_id->0@,
                client_secret->0@,
                opt_text(redirect_uri),
                opt_text(scopes),
                bind_port,
                opt_text(bind_address),
            ),
    {
        let client_id = match client_id {
            Some(id) => id,
            None => { return Err(ConfigError::MissingClientId); },
        };
        let client_secret = match client_secret {
            Some(secret) => secret,
            None => { return Err(ConfigError::MissingClientSecret); },
        };
        let scopes = match scopes {
            Some(s) => s,
            None => String::from_str(DEFAULT_SCOPES),
        };
        let bind_address = match bind_address {
            Some(a) => a,
            None => String::from_str(DEFAULT_ADDRESS),
        };
        let bind_port: u16 = match bind_port {
            Some(p) => p,
            None => DEFAULT_PORT,
        };
        Ok(LoginConfig { client_id, client_secret, redirect_uri, scopes, bind_address, bind_port })
    }

    /// The scopes for the token exchange: every `+` turned into a blank.
    pub fn exchange_scopes(&self) -> (scopes: String)
        ensures
            scopes@ == exchange_scopes_of(self@),
    {
        replace_chars(self.scopes.as_str(), '+', ' ')
    }

    /// The scopes for the authorization URL: every blank turned into `+`.
    pub fn authorize_scopes(&self) -> (scopes: String)
        ensures
            scopes@ == authorize_scopes_of(self@),
    {
        replace_chars(self.scopes.as_str(), ' ', '+')
    }
}

/// Resolves the redirect URI of a configuration. The same value goes into the
/// authorization URL and into the token exchange.
pub fn get_redirect_uri(config: &LoginConfig) -> (uri: String)
    ensures
        uri@ == redirect_uri_of(config@),
{
    match &config.redirect_uri {
        Some(uri) => uri.clone(),
        None => {
            let mut uri = String::from_str("http://");
            uri.append(config.bind_address.as_str());
            uri.append(":");
            push_decimal(&mut uri, config.bind_port as u64);
            uri
        },
    }
}

} // verus!
