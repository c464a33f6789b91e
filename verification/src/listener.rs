//! The life of the callback listener as a state machine: it waits for one
//! well-formed callback, has its code exchanged, answers, and is over.
//!
//! The caller owns the socket and the HTTP client. It feeds each inbound
//! request and the reply of the token endpoint to [`step`], and carries out
//! the [`Action`] that comes back.

use crate::callback::{
    callback_of, closed_message, lemma_result_holds_state_and_code, lemma_result_holds_tokens,
    malformed_message_of, result_message, result_message_of, CallbackParams, CallbackParamsView,
    STATUS_CLOSED, STATUS_MALFORMED,
};
use crate::config::{opt_text, LoginConfig, LoginConfigView};
use crate::exchange::{
    diagnostic_of, exchange_outcome, outcome_of, token_request_of, ExchangeFailureView,
    ExchangeReply, ExchangeReplyView, Login, LoginView, TokenRequest, TokenRequestView,
};
use crate::text::{contains, decimal};
use vstd::prelude::*;

verus! {

/// Where the listener stands.
#[derive(Debug, Clone, PartialEq, Eq)]
pub enum ServerState {
    /// No well-formed callback has come yet.
    Listening,
    /// The callback has come and its code is being exchanged.
    Exchanging(CallbackParams),
    /// The callback has been answered and the listener told to stop.
    Finished,
}

/// The mathematical content of a [`ServerState`].
pub enum ServerStateView {
    Listening,
    Exchanging(CallbackParamsView),
    Finished,
}

impl View for ServerState {
    type V = ServerStateView;

    open spec fn view(&self) -> ServerStateView {
        match *self {
            ServerState::Listening => ServerStateView::Listening,
            ServerState::Exchanging(params) => ServerStateView::Exchanging(params@),
            ServerState::Finished => ServerStateView::Finished,
        }
    }
}

/// What happened outside.
#[derive(Debug, Clone, PartialEq, Eq)]
pub enum Event {
    /// A request came in on the callback path, with these query values.
    Request { state: Option<String>, code: Option<String> },
    /// The attempt to reach the token endpoint ended.
    Exchanged(ExchangeReply),
}

/// The mathematical content of an [`Event`].
pub enum EventView {
    Request { state: Option<Seq<char>>, code: Option<Seq<char>> },
    Exchanged(ExchangeReplyView),
}

impl View for Event {
    type V = EventView;

    open spec fn view(&self) -> EventView {
        match *self {
            Event::Request { state, code } => EventView::Request {
                state: opt_text(state),
                code: opt_text(code),
            },
            Event::Exchanged(reply) => EventView::Exchanged(reply@),
        }
    }
}

/// What the caller is to do next.
#[derive(Debug, Clone, PartialEq, Eq)]
pub enum Action {
    /// Post the request to the token endpoint, once, and report how it ended
    /// with [`Event::Exchanged`]. The inbound request stays unanswered until
    /// then.
    Exchange(TokenRequest),
    /// Answer the inbound request with this status and body, and go on
    /// listening as before.
    Respond { status: u16, body: String },
    /// Show the diagnostic, if there is one, then the body; answer the
    /// pending request with status 200 and the body; tell the listener to
    /// stop.
    Complete { body: String, diagnostic: Option<String> },
    /// Nothing: the event does not belong here.
    Ignore,
}

/// The mathematical content of an [`Action`].
pub enum ActionView {
    Exchange(TokenRequestView),
    Respond { status: u16, body: Seq<char> },
    Complete { body: Seq<char>, diagnostic: Option<Seq<char>> },
    Ignore,
}

impl View for Action {
    type V = ActionView;

    open spec fn view(&self) -> ActionView {
        match *self {
            Action::Exchange(request) => ActionView::Exchange(request@),
            Action::Respond { status, body } => ActionView::Respond { status, body: body@ },
            Action::Complete { body, diagnostic } => ActionView::Complete {
                body: body@,
                diagnostic: opt_text(diagnostic),
            },
            Action::Ignore => ActionView::Ignore,
        }
    }
}

/// The action that ends the login, for the callback that was accepted and
/// the reply to its exchange.
pub open spec fn completion_of(params: CallbackParamsView, reply: ExchangeReplyView) -> ActionView {
    match outcome_of(reply) {
        Ok(login) => ActionView::Complete {
            body: result_message_of(params, Some(login)),
            diagnostic: None,
        },
        Err(failure) => ActionView::Complete {
            body: result_message_of(params, None),
            diagnostic: Some(diagnostic_of(failure)),
        },
    }
}

/// The next state and the action for an event.
///
/// A request that lacks `state` or `code` is answered with 400 in every
/// state and changes nothing: the listener keeps waiting. The first
/// well-formed request starts the exchange. Any later one is turned away
/// with 503. The reply to the exchange ends the login, with or without
/// tokens.
pub open spec fn step_of(config: LoginConfigView, state: ServerStateView, event: EventView) -> (
    ServerStateView,
    ActionView,
) {
    match event {
        EventView::Request { state: given_state, code } => match callback_of(given_state, code) {
            Err(error) => (
                state,
                ActionView::Respond { status: STATUS_MALFORMED, body: malformed_message_of(error) },
            ),
            Ok(params) => match state {
                ServerStateView::Listening => (
                    ServerStateView::Exchanging(params),
                    ActionView::Exchange(token_request_of(config, params.code)),
                ),
                _ => (state, ActionView::Respond { status: STATUS_CLOSED, body: closed_message() }),
            },
        },
        EventView::Exchanged(reply) => match state {
            ServerStateView::Exchanging(params) => (
                ServerStateView::Finished,
                completion_of(params, reply),
            ),
            _ => (state, ActionView::Ignore),
        },
    }
}

fn complete(params: &CallbackParams, reply: ExchangeReply) -> (action: Action)
    ensures
        action@ == completion_of(params@, reply@),
{
    match exchange_outcome(reply) {
        Ok(login) => {
            let found = Some(login);
            Action::Complete { body: result_message(params, &found), diagnostic: None }
        },
        Err(failure) => {
            let found: Option<Login> = None;
            Action::Complete {
                body: result_message(params, &found),
                diagnostic: Some(failure.diagnostic()),
            }
        },
    }
}

fn turn_away() -> (action: Action)
    ensures
        action@ == (ActionView::Respond { status: STATUS_CLOSED, body: closed_message() }),
{
    Action::Respond {
        status: STATUS_CLOSED,
        body: String::from_str("This login has already received its callback"),
    }
}

/// Takes one event and says what to do and where the listener stands then.
pub fn step(config: &LoginConfig, state: ServerState, event: Event) -> (next: (ServerState, Action))
    ensures
        (next.0@, next.1@) == step_of(config@, state@, event@),
{
    match event {
        Event::Request { state: given_state, code } => {
            match CallbackParams::from_query(given_state, code) {
                Err(error) => {
                    let body = error.message();
                    (state, Action::Respond { status: STATUS_MALFORMED, body })
                },
                Ok(params) => match state {
                    ServerState::Listening => {
                        let request = TokenRequest::for_config(config, params.code.as_str());
                        (ServerState::Exchanging(params), Action::Exchange(request))
                    },
                    ServerState::Exchanging(pending) => (
                        ServerState::Exchanging(pending),
                        turn_away(),
                    ),
                    ServerState::Finished => (ServerState::Finished, turn_away()),
                },
            }
        },
        Event::Exchanged(reply) => match state {
            ServerState::Exchanging(params) => {
                let action = complete(&params, reply);
                (ServerState::Finished, action)
            },
            ServerState::Listening => (ServerState::Listening, Action::Ignore),
            ServerState::Finished => (ServerState::Finished, Action::Ignore),
        },
    }
}

/// The actions that a series of events brings about, one for each event,
/// from the given state on.
pub open spec fn run_of(config: LoginConfigView, state: ServerStateView, events: Seq<EventView>) -> Seq<
    ActionView,
>
    decreases events.len(),
{
    if events.len() == 0 {
        Seq::empty()
    } else {
        let (next, action) = step_of(config, state, events[0]);
        seq![action] + run_of(config, next, events.drop_first())
    }
}

/// Where the listener stands after a series of events.
pub open spec fn state_after(
    config: LoginConfigView,
    state: ServerStateView,
    events: Seq<EventView>,
) -> ServerStateView
    decreases events.len(),
{
    if events.len() == 0 {
        state
    } else {
        state_after(config, step_of(config, state, events[0]).0, events.drop_first())
    }
}

/// How many of the actions start a token exchange.
pub open spec fn exchanges_in(actions: Seq<ActionView>) -> nat
    decreases actions.len(),
{
    if actions.len() == 0 {
        0
    } else if actions[0] is Exchange {
        1 + exchanges_in(actions.drop_first())
    } else {
        exchanges_in(actions.drop_first())
    }
}

/// How many of the actions tell the listener to stop.
pub open spec fn completions_in(actions: Seq<ActionView>) -> nat
    decreases actions.len(),
{
    if actions.len() == 0 {
        0
    } else if actions[0] is Complete {
        1 + completions_in(actions.drop_first())
    } else {
        completions_in(actions.drop_first())
    }
}

/// The action turns a request away or passes over an event: it neither
/// starts an exchange nor ends the login.
pub open spec fn is_refusal(action: ActionView) -> bool {
    match action {
        ActionView::Respond { status, .. } => status == STATUS_MALFORMED || status == STATUS_CLOSED,
        ActionView::Ignore => true,
        _ => false,
    }
}

/// How many exchanges can still be started from a state.
pub open spec fn exchanges_left(state: ServerStateView) -> nat {
    match state {
        ServerStateView::Listening => 1,
        _ => 0,
    }
}

/// How many times the listener can still be told to stop from a state.
pub open spec fn completions_left(state: ServerStateView) -> nat {
    match state {
        ServerStateView::Finished => 0,
        _ => 1,
    }
}

/// Every exchange that is started and every stop that is signalled uses up
/// what the state had left: over any series of events, what was done and
/// what is left afterwards add up to what was left before.
pub proof fn lemma_run_accounts(
    config: LoginConfigView,
    state: ServerStateView,
    events: Seq<EventView>,
)
    ensures
        run_of(config, state, events).len() == events.len(),
        exchanges_in(run_of(config, state, events)) + exchanges_left(
            state_after(config, state, events),
        ) == exchanges_left(state),
        completions_in(run_of(config, state, events)) + completions_left(
            state_after(config, state, events),
        ) == completions_left(state),
    decreases events.len(),
{
    if events.len() > 0 {
        let (next, action) = step_of(config, state, events[0]);
        let rest = run_of(config, next, events.drop_first());
        lemma_run_accounts(config, next, events.drop_first());
        let all = run_of(config, state, events);
        assert(all == seq![action] + rest);
        assert(all[0] == action);
        assert(all.drop_first() =~= rest);
    }
}

/// Whatever requests and replies come in, and in whatever order, a listener
/// that starts out listening exchanges at most one code and is told to stop
/// at most once; it has been told to stop exactly when it is finished, and
/// then one code was exchanged before.
pub proof fn lemma_at_most_one_login(config: LoginConfigView, events: Seq<EventView>)
    ensures
        exchanges_in(run_of(config, ServerStateView::Listening, events)) <= 1,
        completions_in(run_of(config, ServerStateView::Listening, events)) <= 1,
        completions_in(run_of(config, ServerStateView::Listening, events)) == 1 <==> state_after(
            config,
            ServerStateView::Listening,
            events,
        ) is Finished,
        completions_in(run_of(config, ServerStateView::Listening, events)) <= exchanges_in(
            run_of(config, ServerStateView::Listening, events),
        ),
{
    lemma_run_accounts(config, ServerStateView::Listening, events);
}

/// Once the listener has been told to stop, no event is acted upon: the state
/// stays what it is and every request is turned away.
pub proof fn lemma_finished_is_final(config: LoginConfigView, event: EventView)
    ensures
        step_of(config, ServerStateView::Finished, event).0 == ServerStateView::Finished,
        is_refusal(step_of(config, ServerStateView::Finished, event).1),
{
}

/// After the stop, a whole series of events changes nothing either.
pub proof fn lemma_nothing_after_finish(config: LoginConfigView, events: Seq<EventView>)
    ensures
        state_after(config, ServerStateView::Finished, events) == ServerStateView::Finished,
        forall|i: int|
            0 <= i < events.len() ==> is_refusal(
                #[trigger] run_of(config, ServerStateView::Finished, events)[i],
            ),
    decreases events.len(),
{
    let finished = ServerStateView::Finished;
    lemma_run_accounts(config, finished, events);
    if events.len() > 0 {
        lemma_finished_is_final(config, events[0]);
        lemma_nothing_after_finish(config, events.drop_first());
        lemma_run_accounts(config, finished, events.drop_first());
        let rest = run_of(config, finished, events.drop_first());
        let all = run_of(config, finished, events);
        assert(all == seq![step_of(config, finished, events[0]).1] + rest);
        assert forall|i: int| 0 <= i < events.len() implies is_refusal(#[trigger] all[i]) by {
            if i > 0 {
                assert(all[i] == rest[i - 1]);
            }
        }
    }
}

/// A request that lacks `state` or `code` is answered with the client error
/// 400, in every state; it changes nothing and starts no exchange.
pub proof fn lemma_malformed_request_is_rejected(
    config: LoginConfigView,
    state: ServerStateView,
    given_state: Option<Seq<char>>,
    code: Option<Seq<char>>,
)
    requires
        given_state is None || code is None,
    ensures
        step_of(config, state, EventView::Request { state: given_state, code }).0 == state,
        step_of(config, state, EventView::Request { state: given_state, code }).1 == (
        ActionView::Respond {
            status: 400,
            body: malformed_message_of(callback_of(given_state, code)->Err_0),
        }),
        !(step_of(config, state, EventView::Request { state: given_state, code }).1 is Exchange),
{
}

/// The whole login in one: a listening listener that gets a request with
/// both parameters and then the reply to the exchange asks for exactly one
/// exchange, of the code that came, and then ends with the result for the
/// state and code that came.
pub proof fn lemma_login_run(
    config: LoginConfigView,
    given_state: Seq<char>,
    code: Seq<char>,
    reply: ExchangeReplyView,
)
    ensures
        run_of(
            config,
            ServerStateView::Listening,
            seq![
                EventView::Request { state: Some(given_state), code: Some(code) },
                EventView::Exchanged(reply),
            ],
        ) == seq![
            ActionView::Exchange(token_request_of(config, code)),
            completion_of(CallbackParamsView { state: given_state, code }, reply),
        ],
        state_after(
            config,
            ServerStateView::Listening,
            seq![
                EventView::Request { state: Some(given_state), code: Some(code) },
                EventView::Exchanged(reply),
            ],
        ) == ServerStateView::Finished,
        exchanges_in(
            run_of(
                config,
                ServerStateView::Listening,
                seq![
                    EventView::Request { state: Some(given_state), code: Some(code) },
                    EventView::Exchanged(reply),
                ],
            ),
        ) == 1,
        completions_in(
            run_of(
                config,
                ServerStateView::Listening,
                seq![
                    EventView::Request { state: Some(given_state), code: Some(code) },
                    EventView::Exchanged(reply),
                ],
            ),
        ) == 1,
{
    let request = EventView::Request { state: Some(given_state), code: Some(code) };
    let exchanged = EventView::Exchanged(reply);
    let events = seq![request, exchanged];
    let params = CallbackParamsView { state: given_state, code };
    let listening = ServerStateView::Listening;
    let exchanging = ServerStateView::Exchanging(params);
    let finished = ServerStateView::Finished;
    assert(events.drop_first() =~= seq![exchanged]);
    assert(seq![exchanged].drop_first() =~= Seq::<EventView>::empty());
    assert(step_of(config, listening, request) == (
        exchanging,
        ActionView::Exchange(token_request_of(config, code)),
    ));
    assert(step_of(config, exchanging, exchanged) == (finished, completion_of(params, reply)));
    assert(run_of(config, finished, Seq::<EventView>::empty()) =~= Seq::<ActionView>::empty());
    assert(run_of(config, exchanging, seq![exchanged]) =~= seq![completion_of(params, reply)]);
    assert(run_of(config, listening, events) =~= seq![
        ActionView::Exchange(token_request_of(config, code)),
        completion_of(params, reply),
    ]);
    assert(state_after(config, finished, Seq::<EventView>::empty()) == finished);
    assert(state_after(config, exchanging, seq![exchanged]) == finished);
    lemma_run_accounts(config, listening, events);
}

/// The body of the action, where it has one.
pub open spec fn body_of(action: ActionView) -> Seq<char> {
    match action {
        ActionView::Respond { body, .. } => body,
        ActionView::Complete { body, .. } => body,
        _ => Seq::empty(),
    }
}

/// However the exchange ends, the login ends with a result that holds the
/// state and the code of the callback, character for character.
pub proof fn lemma_completion_shows_callback(params: CallbackParamsView, reply: ExchangeReplyView)
    ensures
        completion_of(params, reply) is Complete,
        contains(body_of(completion_of(params, reply)), params.state),
        contains(body_of(completion_of(params, reply)), params.code),
{
    match outcome_of(reply) {
        Ok(login) => lemma_result_holds_state_and_code(params, Some(login)),
        Err(_) => lemma_result_holds_state_and_code(params, None),
    }
}

/// Status 200 with a token object ends the login with nothing to report and
/// with a result that holds both tokens and the lifetime in decimal.
pub proof fn lemma_completion_with_tokens(
    params: CallbackParamsView,
    body: Seq<char>,
    login: LoginView,
)
    ensures
        completion_of(
            params,
            ExchangeReplyView::Response { status: 200, body, login: Some(login) },
        ) == (ActionView::Complete {
            body: result_message_of(params, Some(login)),
            diagnostic: None,
        }),
        contains(result_message_of(params, Some(login)), login.access_token),
        contains(result_message_of(params, Some(login)), login.refresh_token),
        contains(result_message_of(params, Some(login)), decimal(login.expires_in as nat)),
{
    lemma_result_holds_tokens(params, login);
}

/// Any other status ends the login with the result that says that there are
/// no tokens, whatever the body held, and with the status and the body
/// reported.
pub proof fn lemma_completion_after_rejection(
    params: CallbackParamsView,
    status: u16,
    body: Seq<char>,
    login: Option<LoginView>,
)
    requires
        status != 200,
    ensures
        completion_of(params, ExchangeReplyView::Response { status, body, login }) == (
        ActionView::Complete {
            body: result_message_of(params, None),
            diagnostic: Some(diagnostic_of(ExchangeFailureView::Rejected { status, body })),
        }),
{
}

/// Every reply ends the login, and only a 200 with a token object shows
/// tokens: every other reply gives the result without tokens and a report.
pub proof fn lemma_completion_without_tokens(params: CallbackParamsView, reply: ExchangeReplyView)
    requires
        outcome_of(reply) is Err,
    ensures
        completion_of(params, reply) == (ActionView::Complete {
            body: result_message_of(params, None),
            diagnostic: Some(diagnostic_of(outcome_of(reply)->Err_0)),
        }),
        reply matches ExchangeReplyView::Response { status, login, .. } ==> status != 200
            || login is None,
{
}

} // verus!
