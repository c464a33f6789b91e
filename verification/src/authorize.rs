//! The URL that the user opens to grant access, with its state token.

use crate::config::{
    authorize_scopes_of, get_redirect_uri, redirect_uri_of, LoginConfig, LoginConfigView,
};
use crate::exchange::{form_of, token_request_of};
use crate::text::{contains, decimal, lemma_contains_middle};
use vstd::prelude::*;

verus! {

/// Where the provider takes authorization requests.
pub const AUTHORIZE_ENDPOINT: &'static str = "https://api.netatmo.com/oauth2/authorize";

/// A lower-case hexadecimal digit.
pub open spec fn is_lower_hex(c: char) -> bool {
    ('0' <= c && c <= '9') || ('a' <= c && c <= 'f')
}

/// The shape of a state token: a version-4 UUID in its hyphenated lower-case
/// form, `xxxxxxxx-xxxx-4xxx-yxxx-xxxxxxxxxxxx` with `y` one of `8 9 a b`.
pub open spec fn is_state_token(token: Seq<char>) -> bool {
    &&& token.len() == 36
    &&& forall|i: int|
        0 <= i < 36 ==> if i == 8 || i == 13 || i == 18 || i == 23 {
            #[trigger] token[i] == '-'
        } else {
            is_lower_hex(token[i])
        }
    &&& token[14] == '4'
    &&& (token[19] == '8' || token[19] == '9' || token[19] == 'a' || token[19] == 'b')
}

/// The authorization URL for the given values, joined as they are.
pub open spec fn authorization_url_of(
    client_id: Seq<char>,
    redirect_uri: Seq<char>,
    scopes: Seq<char>,
    state: Seq<char>,
) -> Seq<char> {
    AUTHORIZE_ENDPOINT@ + "?client_id="@ + client_id + "&redirect_uri="@ + redirect_uri
        + "&scope="@ + scopes + "&state="@ + state
}

/// The authorization URL that a configuration asks for: its client
/// identifier, its resolved redirect URI and its scopes in their `+` form.
pub open spec fn config_url_of(config: LoginConfigView, state: Seq<char>) -> Seq<char> {
    authorization_url_of(
        config.client_id,
        redirect_uri_of(config),
        authorize_scopes_of(config),
        state,
    )
}

/// What is shown on startup: the banner and the URL to open.
pub open spec fn instructions_of(url: Seq<char>) -> Seq<char> {
    "Netatmo OAUTH login\n\n1. Paste URL to your browser:\n  "@ + url
}

/// Draws a state token. `Uuid::new_v4` takes 128 bits from the operating
/// system's random source and fixes the version and variant bits; its
/// `Display` writes the 36 characters of the hyphenated lower-case form.
/// Nothing is claimed about which token comes out. The call does not return
/// if the system refuses to give random bytes.
#[verifier::external_body]
fn fresh_state() -> (token: String)
    ensures
        is_state_token(token@),
{
    uuid::Uuid::new_v4().to_string()
}

/// Joins the four values into the authorization URL.
pub fn authorization_url(client_id: &str, redirect_uri: &str, scopes: &str, state: &str) -> (url:
    String)
    ensures
        url@ == authorization_url_of(client_id@, redirect_uri@, scopes@, state@),
{
    let mut url = String::from_str(AUTHORIZE_ENDPOINT);
    url.append("?client_id=");
    url.append(client_id);
    url.append("&redirect_uri=");
    url.append(redirect_uri);
    url.append("&scope=");
    url.append(scopes);
    url.append("&state=");
    url.append(state);
    url
}

/// One request for authorization: the state token drawn for it and the URL
/// that carries it.
#[derive(Debug, Clone, PartialEq, Eq)]
pub struct AuthorizationRequest {
    pub state: String,
    pub authorization_url: String,
}

impl AuthorizationRequest {
    /// Draws a fresh state token and builds the URL around it.
    pub fn new(client_id: &str, redirect_uri: &str, scopes: &str) -> (request: AuthorizationRequest)
        ensures
            is_state_token(request.state@),
            request.authorization_url@ == authorization_url_of(
                client_id@,
                redirect_uri@,
                scopes@,
                request.state@,
            ),
    {
        let state = fresh_state();
        let authorization_url = authorization_url(client_id, redirect_uri, scopes, state.as_str());
        AuthorizationRequest { state, authorization_url }
    }

    /// The request that a configuration asks for.
    pub fn for_config(config: &LoginConfig) -> (request: AuthorizationRequest)
        ensures
            is_state_token(request.state@),
            request.authorization_url@ == config_url_of(config@, request.state@),
    {
        let redirect_uri = get_redirect_uri(config);
        let scopes = config.authorize_scopes();
        AuthorizationRequest::new(config.client_id.as_str(), redirect_uri.as_str(), scopes.as_str())
    }

    /// The text to show on startup: the banner, then the URL to open.
    pub fn instructions(&self) -> (shown: String)
        ensures
            shown@ == instructions_of(self.authorization_url@),
    {
        let mut shown = String::from_str(
            "Netatmo OAUTH login\n\n1. Paste URL to your browser:\n  ",
        );
        shown.append(self.authorization_url.as_str());
        shown
    }
}

/// The authorization URL for the given values around a state token drawn for
/// this call. Each value stands in it as it was given.
pub fn auth_url(client_id: &str, redirect_uri: &str, scopes: &str) -> (url: String)
    ensures
        exists|state: Seq<char>|
            is_state_token(state) && url@ == #[trigger] authorization_url_of(
                client_id@,
                redirect_uri@,
                scopes@,
                state,
            ),
        contains(url@, client_id@),
        contains(url@, redirect_uri@),
        contains(url@, scopes@),
{
    let request = AuthorizationRequest::new(client_id, redirect_uri, scopes);
    proof {
        lemma_authorization_url_holds_inputs(client_id@, redirect_uri@, scopes@, request.state@);
    }
    request.authorization_url
}

/// An authorization URL holds each of the values it was built from, as they
/// were given, and its state token. A state token is never empty: it has 36
/// characters.
pub proof fn lemma_authorization_url_holds_inputs(
    client_id: Seq<char>,
    redirect_uri: Seq<char>,
    scopes: Seq<char>,
    state: Seq<char>,
)
    ensures
        is_state_token(state) ==> state.len() == 36,
        contains(authorization_url_of(client_id, redirect_uri, scopes, state), client_id),
        contains(authorization_url_of(client_id, redirect_uri, scopes, state), redirect_uri),
        contains(authorization_url_of(client_id, redirect_uri, scopes, state), scopes),
        contains(authorization_url_of(client_id, redirect_uri, scopes, state), state),
{
    let url = authorization_url_of(client_id, redirect_uri, scopes, state);
    let p1 = AUTHORIZE_ENDPOINT@ + "?client_id="@;
    let p2 = p1 + client_id + "&redirect_uri="@;
    let p3 = p2 + redirect_uri + "&scope="@;
    let p4 = p3 + scopes + "&state="@;
    let none = Seq::<char>::empty();
    assert(url =~= p1 + client_id + ("&redirect_uri="@ + redirect_uri + "&scope="@ + scopes
        + "&state="@ + state));
    lemma_contains_middle(
        p1,
        client_id,
        "&redirect_uri="@ + redirect_uri + "&scope="@ + scopes + "&state="@ + state,
    );
    assert(url =~= p2 + redirect_uri + ("&scope="@ + scopes + "&state="@ + state));
    lemma_contains_middle(p2, redirect_uri, "&scope="@ + scopes + "&state="@ + state);
    assert(url =~= p3 + scopes + ("&state="@ + state));
    lemma_contains_middle(p3, scopes, "&state="@ + state);
    assert(url =~= p4 + state + none);
    lemma_contains_middle(p4, state, none);
}

/// A configuration has one redirect URI. It is the explicit one where one
/// was given, else the address the listener binds. Resolving it again from
/// its own result changes nothing. The authorization URL carries it, and the
/// form posted to the token endpoint carries the same characters.
pub proof fn lemma_redirect_uri_is_shared(
    config: LoginConfigView,
    code: Seq<char>,
    state: Seq<char>,
)
    ensures
        config.redirect_uri matches Some(uri) ==> redirect_uri_of(config) == uri,
        config.redirect_uri is None ==> redirect_uri_of(config) == "http://"@
            + config.bind_address + ":"@ + decimal(config.bind_port as nat),
        redirect_uri_of(
            LoginConfigView { redirect_uri: Some(redirect_uri_of(config)), ..config },
        ) == redirect_uri_of(config),
        config_url_of(config, state) == AUTHORIZE_ENDPOINT@ + "?client_id="@ + config.client_id
            + "&redirect_uri="@ + redirect_uri_of(config) + "&scope="@ + authorize_scopes_of(config)
            + "&state="@ + state,
        contains(config_url_of(config, state), redirect_uri_of(config)),
        token_request_of(config, code).redirect_uri == redirect_uri_of(config),
        form_of(token_request_of(config, code))[4] == ("redirect_uri"@, redirect_uri_of(config)),
{
    lemma_authorization_url_holds_inputs(
        config.client_id,
        redirect_uri_of(config),
        authorize_scopes_of(config),
        state,
    );
}

} // verus!
