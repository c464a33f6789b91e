//! The exchange of an authorization code for tokens: what is sent to the
//! token endpoint, and what its answer amounts to.

use crate::config::{exchange_scopes_of, get_redirect_uri, redirect_uri_of, LoginConfig, LoginConfigView};
use crate::text::{decimal, push_decimal};
use vstd::prelude::*;

verus! {

/// Where the provider exchanges codes for tokens.
pub const TOKEN_ENDPOINT: &'static str = "https://api.netatmo.com/oauth2/token";

/// The grant type of the exchange.
pub const GRANT_TYPE: &'static str = "authorization_code";

/// The one status with which the token endpoint hands out tokens.
pub const STATUS_OK: u16 = 200;

/// The token pair that the provider hands out for an authorization code.
#[derive(Debug, Clone, PartialEq, Eq)]
pub struct Login {
    pub access_token: String,
    pub refresh_token: String,
    pub expires_in: u32,
}

/// The mathematical content of a [`Login`].
pub struct LoginView {
    pub access_token: Seq<char>,
    pub refresh_token: Seq<char>,
    pub expires_in: u32,
}

impl View for Login {
    type V = LoginView;

    open spec fn view(&self) -> LoginView {
        LoginView {
            access_token: self.access_token@,
            refresh_token: self.refresh_token@,
            expires_in: self.expires_in,
        }
    }
}

/// The view of an optional login.
pub open spec fn opt_login(login: Option<Login>) -> Option<LoginView> {
    match login {
        Some(l) => Some(l@),
        None => None,
    }
}

/// What is sent to the token endpoint, apart from the fixed grant type.
#[derive(Debug, Clone, PartialEq, Eq)]
pub struct TokenRequest {
    pub client_id: String,
    pub client_secret: String,
    pub code: String,
    pub redirect_uri: String,
    pub scope: String,
}

/// The mathematical content of a [`TokenRequest`].
pub struct TokenRequestView {
    pub client_id: Seq<char>,
    pub client_secret: Seq<char>,
    pub code: Seq<char>,
    pub redirect_uri: Seq<char>,
    pub scope: Seq<char>,
}

impl View for TokenRequest {
    type V = TokenRequestView;

    open spec fn view(&self) -> TokenRequestView {
        TokenRequestView {
            client_id: self.client_id@,
            client_secret: self.client_secret@,
            code: self.code@,
            redirect_uri: self.redirect_uri@,
            scope: self.scope@,
        }
    }
}

/// The request that a configuration makes for a code: its credentials, its
/// resolved redirect URI and its scopes separated by blanks.
pub open spec fn token_request_of(config: LoginConfigView, code: Seq<char>) -> TokenRequestView {
    TokenRequestView {
        client_id: config.client_id,
        client_secret: config.client_secret,
        code,
        redirect_uri: redirect_uri_of(config),
        scope: exchange_scopes_of(config),
    }
}

/// The fields of the form that is posted, in the order in which they go out.
pub open spec fn form_of(request: TokenRequestView) -> Seq<(Seq<char>, Seq<char>)> {
    seq![
        ("grant_type"@, GRANT_TYPE@),
        ("client_id"@, request.client_id),
        ("client_secret"@, request.client_secret),
        ("code"@, request.code),
        ("redirect_uri"@, request.redirect_uri),
        ("scope"@, request.scope),
    ]
}

fn field(name: &str, value: &str) -> (pair: (String, String))
    ensures
        pair.0@ == name@,
        pair.1@ == value@,
{
    (String::from_str(name), String::from_str(value))
}

impl TokenRequest {
    /// The request for the given values, each taken as it is.
    pub fn new(
        client_id: &str,
        client_secret: &str,
        code: &str,
        redirect_uri: &str,
        scopes: &str,
    ) -> (request: TokenRequest)
        ensures
            request@ == (TokenRequestView {
                client_id: client_id@,
                client_secret: client_secret@,
                code: code@,
                redirect_uri: redirect_uri@,
                scope: scopes@,
            }),
    {
        TokenRequest {
            client_id: String::from_str(client_id),
            client_secret: String::from_str(client_secret),
            code: String::from_str(code),
            redirect_uri: String::from_str(redirect_uri),
            scope: String::from_str(scopes),
        }
    }

    /// The request that a configuration makes for the code it received.
    pub fn for_config(config: &LoginConfig, code: &str) -> (request: TokenRequest)
        ensures
            request@ == token_request_of(config@, code@),
    {
        TokenRequest {
            client_id: config.client_id.clone(),
            client_secret: config.client_secret.clone(),
            code: String::from_str(code),
            redirect_uri: get_redirect_uri(config),
            scope: config.exchange_scopes(),
        }
    }

    /// The form fields to post to [`TOKEN_ENDPOINT`], as name and value.
    pub fn form(&self) -> (fields: Vec<(String, String)>)
        ensures
            fields.deep_view() == form_of(self@),
    {
        let mut fields: Vec<(String, String)> = Vec::new();
        fields.push(field("grant_type", GRANT_TYPE));
        fields.push(field("client_id", self.client_id.as_str()));
        fields.push(field("client_secret", self.client_secret.as_str()));
        fields.push(field("code", self.code.as_str()));
        fields.push(field("redirect_uri", self.redirect_uri.as_str()));
        fields.push(field("scope", self.scope.as_str()));
        assert(fields.deep_view() =~= form_of(self@));
        fields
    }
}

/// How one attempt to reach the token endpoint ended.
#[derive(Debug, Clone, PartialEq, Eq)]
pub enum ExchangeReply {
    /// The endpoint answered. `login` is what the body holds where it reads
    /// as a token object, and nothing where it does not.
    Response { status: u16, body: String, login: Option<Login> },
    /// No answer came: the connection was refused, timed out, or the like.
    Failed { reason: String },
}

/// The mathematical content of an [`ExchangeReply`].
pub enum ExchangeReplyView {
    Response { status: u16, body: Seq<char>, login: Option<LoginView> },
    Failed { reason: Seq<char> },
}

impl View for ExchangeReply {
    type V = ExchangeReplyView;

    open spec fn view(&self) -> ExchangeReplyView {
        match *self {
            ExchangeReply::Response { status, body, login } => ExchangeReplyView::Response {
                status,
                body: body@,
                login: opt_login(login),
            },
            ExchangeReply::Failed { reason } => ExchangeReplyView::Failed { reason: reason@ },
        }
    }
}

/// Why an exchange gave no token.
#[derive(Debug, Clone, PartialEq, Eq)]
pub enum ExchangeFailure {
    /// The endpoint answered with another status than 200.
    Rejected { status: u16, body: String },
    /// The endpoint answered 200, but not with a token object.
    Unparseable,
    /// The endpoint could not be reached.
    Transport { reason: String },
}

/// The mathematical content of an [`ExchangeFailure`].
pub enum ExchangeFailureView {
    Rejected { status: u16, body: Seq<char> },
    Unparseable,
    Transport { reason: Seq<char> },
}

impl View for ExchangeFailure {
    type V = ExchangeFailureView;

    open spec fn view(&self) -> ExchangeFailureView {
        match *self {
            ExchangeFailure::Rejected { status, body } => ExchangeFailureView::Rejected {
                status,
                body: body@,
            },
            ExchangeFailure::Unparseable => ExchangeFailureView::Unparseable,
            ExchangeFailure::Transport { reason } => ExchangeFailureView::Transport {
                reason: reason@,
            },
        }
    }
}

/// What a reply amounts to: the tokens, only for a 200 whose body held them;
/// else the reason why there are none.
pub open spec fn outcome_of(reply: ExchangeReplyView) -> Result<LoginView, ExchangeFailureView> {
    match reply {
        ExchangeReplyView::Response { status, body, login } => {
            if status != STATUS_OK {
                Err(ExchangeFailureView::Rejected { status, body })
            } else {
                match login {
                    Some(l) => Ok(l),
                    None => Err(ExchangeFailureView::Unparseable),
                }
            }
        },
        ExchangeReplyView::Failed { reason } => Err(ExchangeFailureView::Transport { reason }),
    }
}

/// The view of an outcome.
pub open spec fn outcome_view(outcome: Result<Login, ExchangeFailure>) -> Result<
    LoginView,
    ExchangeFailureView,
> {
    match outcome {
        Ok(login) => Ok(login@),
        Err(failure) => Err(failure@),
    }
}

/// The line that reports a failure.
pub open spec fn diagnostic_of(failure: ExchangeFailureView) -> Seq<char> {
    match failure {
        ExchangeFailureView::Rejected { status, body } => {
            "Unexpected error during Netatmo /oauth2/token API CALL: "@ + decimal(status as nat)
                + ", "@ + body
        },
        ExchangeFailureView::Unparseable => "Error parsing Netatmo /oauth2/token API response"@,
        ExchangeFailureView::Transport { reason } => {
            "Netatmo /oauth2/token API call failed: "@ + reason
        },
    }
}

/// Decides what a reply from the token endpoint amounts to. There is one
/// attempt and no retry: every reply is final.
pub fn exchange_outcome(reply: ExchangeReply) -> (outcome: Result<Login, ExchangeFailure>)
    ensures
        outcome_view(outcome) == outcome_of(reply@),
{
    match reply {
        ExchangeReply::Response { status, body, login } => {
            if status != STATUS_OK {
                Err(ExchangeFailure::Rejected { status, body })
            } else {
                match login {
                    Some(l) => Ok(l),
                    None => Err(ExchangeFailure::Unparseable),
                }
            }
        },
        ExchangeReply::Failed { reason } => Err(ExchangeFailure::Transport { reason }),
    }
}

impl ExchangeFailure {
    /// The line to show for this failure.
    pub fn diagnostic(&self) -> (line: String)
        ensures
            line@ == diagnostic_of(self@),
    {
        match self {
            ExchangeFailure::Rejected { status, body } => {
                let mut line = String::from_str(
                    "Unexpected error during Netatmo /oauth2/token API CALL: ",
                );
                push_decimal(&mut line, *status as u64);
                line.append(", ");
                line.append(body.as_str());
                line
            },
            ExchangeFailure::Unparseable => String::from_str(
                "Error parsing Netatmo /oauth2/token API response",
            ),
            ExchangeFailure::Transport { reason } => {
                let mut line = String::from_str("Netatmo /oauth2/token API call failed: ");
                line.append(reason.as_str());
                line
            },
        }
    }
}

} // verus!
