use netatmo_login::callback::CallbackParams;
use netatmo_login::config::LoginConfig;
use netatmo_login::exchange::{ExchangeReply, TokenRequest};
use netatmo_login::listener::{step, Action, Event, ServerState};
use netatmo_login::Login;

fn text(s: &str) -> Option<String> {
    Some(String::from(s))
}

fn config() -> LoginConfig {
    LoginConfig::new(
        text("id"),
        text("secret"),
        None,
        text("read_thermostat+write_thermostat"),
        None,
        None,
    )
    .unwrap()
}

fn request(state: Option<&str>, code: Option<&str>) -> Event {
    Event::Request { state: state.map(String::from), code: code.map(String::from) }
}

fn exchanging() -> ServerState {
    ServerState::Exchanging(CallbackParams { state: String::from("S"), code: String::from("C") })
}

fn token_reply() -> ExchangeReply {
    ExchangeReply::Response {
        status: 200,
        body: String::from("{\"access_token\":\"A\",\"refresh_token\":\"R\",\"expires_in\":600}"),
        login: Some(Login {
            access_token: String::from("A"),
            refresh_token: String::from("R"),
            expires_in: 600,
        }),
    }
}

fn closed() -> Action {
    Action::Respond {
        status: 503,
        body: String::from("This login has already received its callback"),
    }
}

#[test]
fn first_callback_starts_the_exchange() {
    let (state, action) = step(&config(), ServerState::Listening, request(Some("S"), Some("C")));
    assert_eq!(state, exchanging());
    assert_eq!(
        action,
        Action::Exchange(TokenRequest {
            client_id: String::from("id"),
            client_secret: String::from("secret"),
            code: String::from("C"),
            redirect_uri: String::from("http://127.0.0.1:9090"),
            scope: String::from("read_thermostat write_thermostat"),
        })
    );
}

#[test]
fn tokens_end_the_login_with_the_tokens_shown() {
    let (state, action) = step(&config(), exchanging(), Event::Exchanged(token_reply()));
    assert_eq!(state, ServerState::Finished);
    assert_eq!(
        action,
        Action::Complete {
            body: String::from(
                "\n2. State and code:\n  State: S\n  Code: C\n\n3. Access an refresh tokens:\n  access_token: A\n  refresh_token: R\n  expires_in: 600"
            ),
            diagnostic: None,
        }
    );
}

#[test]
fn unauthorized_ends_the_login_without_tokens() {
    let reply = ExchangeReply::Response { status: 401, body: String::from("denied"), login: None };
    let (state, action) = step(&config(), exchanging(), Event::Exchanged(reply));
    assert_eq!(state, ServerState::Finished);
    assert_eq!(
        action,
        Action::Complete {
            body: String::from(
                "\n2. State and code:\n  State: S\n  Code: C\n\n3. Access an refresh tokens:\n  None"
            ),
            diagnostic: Some(String::from(
                "Unexpected error during Netatmo /oauth2/token API CALL: 401, denied"
            )),
        }
    );
}

#[test]
fn unparseable_body_ends_the_login_without_tokens() {
    let reply = ExchangeReply::Response { status: 200, body: String::from("oops"), login: None };
    let (state, action) = step(&config(), exchanging(), Event::Exchanged(reply));
    assert_eq!(state, ServerState::Finished);
    assert_eq!(
        action,
        Action::Complete {
            body: String::from(
                "\n2. State and code:\n  State: S\n  Code: C\n\n3. Access an refresh tokens:\n  None"
            ),
            diagnostic: Some(String::from("Error parsing Netatmo /oauth2/token API response")),
        }
    );
}

#[test]
fn transport_failure_ends_the_login_without_tokens() {
    let reply = ExchangeReply::Failed { reason: String::from("connection refused") };
    let (state, action) = step(&config(), exchanging(), Event::Exchanged(reply));
    assert_eq!(state, ServerState::Finished);
    assert_eq!(
        action,
        Action::Complete {
            body: String::from(
                "\n2. State and code:\n  State: S\n  Code: C\n\n3. Access an refresh tokens:\n  None"
            ),
            diagnostic: Some(String::from(
                "Netatmo /oauth2/token API call failed: connection refused"
            )),
        }
    );
}

#[test]
fn callback_without_code_is_a_client_error() {
    let (state, action) = step(&config(), ServerState::Listening, request(Some("S"), None));
    assert_eq!(state, ServerState::Listening);
    assert_eq!(
        action,
        Action::Respond { status: 400, body: String::from("Missing query parameter: code") }
    );
}

#[test]
fn callback_without_state_is_a_client_error() {
    let (state, action) = step(&config(), ServerState::Listening, request(None, Some("C")));
    assert_eq!(state, ServerState::Listening);
    assert_eq!(
        action,
        Action::Respond { status: 400, body: String::from("Missing query parameter: state") }
    );
}

#[test]
fn callback_without_parameters_is_a_client_error() {
    let (state, action) = step(&config(), ServerState::Listening, request(None, None));
    assert_eq!(state, ServerState::Listening);
    assert_eq!(
        action,
        Action::Respond {
            status: 400,
            body: String::from("Missing query parameters: state, code"),
        }
    );
}

#[test]
fn malformed_callback_is_a_client_error_in_every_state() {
    for before in [ServerState::Listening, exchanging(), ServerState::Finished] {
        let (after, action) = step(&config(), before.clone(), request(Some("S"), None));
        assert_eq!(after, before);
        assert_eq!(
            action,
            Action::Respond { status: 400, body: String::from("Missing query parameter: code") }
        );
    }
}

#[test]
fn listener_keeps_waiting_after_a_malformed_callback() {
    let (state, _) = step(&config(), ServerState::Listening, request(None, Some("C")));
    let (state, action) = step(&config(), state, request(Some("S"), Some("C")));
    assert_eq!(state, exchanging());
    assert!(matches!(action, Action::Exchange(_)));
}

#[test]
fn second_callback_during_the_exchange_is_turned_away() {
    let (state, action) = step(&config(), exchanging(), request(Some("S2"), Some("C2")));
    assert_eq!(state, exchanging());
    assert_eq!(action, closed());
}

#[test]
fn callback_after_the_stop_is_turned_away() {
    let (state, action) = step(&config(), ServerState::Finished, request(Some("S"), Some("C")));
    assert_eq!(state, ServerState::Finished);
    assert_eq!(action, closed());
}

#[test]
fn reply_without_a_pending_exchange_is_ignored() {
    let (state, action) = step(&config(), ServerState::Listening, Event::Exchanged(token_reply()));
    assert_eq!(state, ServerState::Listening);
    assert_eq!(action, Action::Ignore);
    let (state, action) = step(&config(), ServerState::Finished, Event::Exchanged(token_reply()));
    assert_eq!(state, ServerState::Finished);
    assert_eq!(action, Action::Ignore);
}

#[test]
fn whole_login_exchanges_once_and_stops_once() {
    let events = vec![
        request(None, None),
        request(Some("S"), Some("C")),
        request(Some("S"), Some("C")),
        Event::Exchanged(token_reply()),
        request(Some("S"), Some("C")),
        Event::Exchanged(token_reply()),
    ];
    let config = config();
    let mut state = ServerState::Listening;
    let mut exchanges: u32 = 0;
    let mut completions: u32 = 0;
    for event in events {
        let (next, action) = step(&config, state, event);
        match action {
            Action::Exchange(_) => exchanges += 1,
            Action::Complete { body, .. } => {
                completions += 1;
                assert!(body.contains("A"));
                assert!(body.contains("R"));
                assert!(body.contains("600"));
            }
            _ => {}
        }
        state = next;
    }
    assert_eq!(state, ServerState::Finished);
    assert_eq!(exchanges, 1);
    assert_eq!(completions, 1);
}

#[test]
fn exchange_uses_the_redirect_uri_of_the_authorization_url() {
    let config = LoginConfig::new(
        text("id"),
        text("secret"),
        text("https://example.org/cb"),
        None,
        None,
        None,
    )
    .unwrap();
    let url = netatmo_login::authorize::AuthorizationRequest::for_config(&config).authorization_url;
    let (_, action) = step(&config, ServerState::Listening, request(Some("S"), Some("C")));
    match action {
        Action::Exchange(sent) => {
            assert_eq!(sent.redirect_uri, "https://example.org/cb");
            assert!(url.contains("&redirect_uri=https://example.org/cb&"));
        }
        other => panic!("no exchange was asked for: {:?}", other),
    }
}
