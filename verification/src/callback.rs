//! The callback that the provider sends through the browser: its two
//! parameters, what a request without them is told, and the result that is
//! shown at the end.

use crate::config::opt_text;
use crate::exchange::{opt_login, Login, LoginView};
use crate::text::{contains, decimal, lemma_contains_middle, push_decimal};
use vstd::prelude::*;

verus! {

/// The status of the answer that carries the result.
pub const STATUS_DONE: u16 = 200;

/// The status of the answer to a request that lacks a parameter.
pub const STATUS_MALFORMED: u16 = 400;

/// The status of the answer to a request that comes after the one that was
/// accepted.
pub const STATUS_CLOSED: u16 = 503;

/// The line printed when the login is over.
pub const COMPLETION_MARKER: &'static str = "\n4. Finished";

/// What the provider sends back through the browser.
#[derive(Debug, Clone, PartialEq, Eq)]
pub struct CallbackParams {
    pub state: String,
    pub code: String,
}

/// The mathematical content of [`CallbackParams`].
pub struct CallbackParamsView {
    pub state: Seq<char>,
    pub code: Seq<char>,
}

impl View for CallbackParams {
    type V = CallbackParamsView;

    open spec fn view(&self) -> CallbackParamsView {
        CallbackParamsView { state: self.state@, code: self.code@ }
    }
}

/// What a callback request lacks.
#[derive(Debug, Clone, Copy, PartialEq, Eq, Structural)]
pub enum CallbackError {
    /// There is a `code` but no `state`.
    MissingState,
    /// There is a `state` but no `code`.
    MissingCode,
    /// There is neither.
    MissingBoth,
}

/// The parameters that the two query values make, or what is missing.
pub open spec fn callback_of(state: Option<Seq<char>>, code: Option<Seq<char>>) -> Result<
    CallbackParamsView,
    CallbackError,
> {
    match (state, code) {
        (Some(s), Some(c)) => Ok(CallbackParamsView { state: s, code: c }),
        (None, Some(_)) => Err(CallbackError::MissingState),
        (Some(_), None) => Err(CallbackError::MissingCode),
        (None, None) => Err(CallbackError::MissingBoth),
    }
}

/// The view of checked callback parameters.
pub open spec fn callback_view(checked: Result<CallbackParams, CallbackError>) -> Result<
    CallbackParamsView,
    CallbackError,
> {
    match checked {
        Ok(params) => Ok(params@),
        Err(e) => Err(e),
    }
}

/// The body of the answer to a request that lacks a parameter.
pub open spec fn malformed_message_of(error: CallbackError) -> Seq<char> {
    match error {
        CallbackError::MissingState => "Missing query parameter: state"@,
        CallbackError::MissingCode => "Missing query parameter: code"@,
        CallbackError::MissingBoth => "Missing query parameters: state, code"@,
    }
}

/// The body of the answer to a request that comes too late.
pub open spec fn closed_message() -> Seq<char> {
    "This login has already received its callback"@
}

/// The part of the result that shows the tokens, or that there are none.
pub open spec fn tokens_text_of(login: Option<LoginView>) -> Seq<char> {
    match login {
        Some(l) => "  access_token: "@ + l.access_token + "\n  refresh_token: "@ + l.refresh_token
            + "\n  expires_in: "@ + decimal(l.expires_in as nat),
        None => "  None"@,
    }
}

/// The result shown for a callback: the state and the code as they came,
/// then the tokens.
pub open spec fn result_message_of(params: CallbackParamsView, login: Option<LoginView>) -> Seq<
    char,
> {
    "\n2. State and code:\n  State: "@ + params.state + "\n  Code: "@ + params.code
        + "\n\n3. Access an refresh tokens:\n"@ + tokens_text_of(login)
}

impl CallbackParams {
    /// Checks the two query values of a callback request. Both are required.
    pub fn from_query(state: Option<String>, code: Option<String>) -> (checked: Result<
        CallbackParams,
        CallbackError,
    >)
        ensures
            callback_view(checked) == callback_of(opt_text(state), opt_text(code)),
    {
        match (state, code) {
            (Some(state), Some(code)) => Ok(CallbackParams { state, code }),
            (None, Some(_)) => Err(CallbackError::MissingState),
            (Some(_), None) => Err(CallbackError::MissingCode),
            (None, None) => Err(CallbackError::MissingBoth),
        }
    }
}

impl CallbackError {
    /// The body of the answer to the malformed request.
    pub fn message(&self) -> (body: String)
        ensures
            body@ == malformed_message_of(*self),
    {
        match self {
            CallbackError::MissingState => String::from_str("Missing query parameter: state"),
            CallbackError::MissingCode => String::from_str("Missing query parameter: code"),
            CallbackError::MissingBoth => String::from_str(
                "Missing query parameters: state, code",
            ),
        }
    }
}

/// Writes the result for a callback and the outcome of its exchange.
pub fn result_message(params: &CallbackParams, login: &Option<Login>) -> (message: String)
    ensures
        message@ == result_message_of(params@, opt_login(*login)),
{
    let mut message = String::from_str("\n2. State and code:\n  State: ");
    message.append(params.state.as_str());
    message.append("\n  Code: ");
    message.append(params.code.as_str());
    message.append("\n\n3. Access an refresh tokens:\n");
    let ghost head = message@;
    match login {
        Some(l) => {
            message.append("  access_token: ");
            message.append(l.access_token.as_str());
            message.append("\n  refresh_token: ");
            message.append(l.refresh_token.as_str());
            message.append("\n  expires_in: ");
            push_decimal(&mut message, l.expires_in as u64);
            assert(message@ =~= head + tokens_text_of(opt_login(*login)));
        },
        None => {
            message.append("  None");
        },
    }
    message
}

/// The result shown for a callback holds the state and the code that came
/// with it, character for character.
pub proof fn lemma_result_holds_state_and_code(params: CallbackParamsView, login: Option<LoginView>)
    ensures
        contains(result_message_of(params, login), params.state),
        contains(result_message_of(params, login), params.code),
{
    let message = result_message_of(params, login);
    let a = "\n2. State and code:\n  State: "@;
    let b = "\n  Code: "@;
    let c = "\n\n3. Access an refresh tokens:\n"@;
    let t = tokens_text_of(login);
    assert(message =~= a + params.state + (b + params.code + c + t));
    lemma_contains_middle(a, params.state, b + params.code + c + t);
    assert(message =~= (a + params.state + b) + params.code + (c + t));
    lemma_contains_middle(a + params.state + b, params.code, c + t);
}

/// Where tokens were obtained, the result holds both of them and the
/// lifetime in decimal.
pub proof fn lemma_result_holds_tokens(params: CallbackParamsView, login: LoginView)
    ensures
        contains(result_message_of(params, Some(login)), login.access_token),
        contains(result_message_of(params, Some(login)), login.refresh_token),
        contains(result_message_of(params, Some(login)), decimal(login.expires_in as nat)),
{
    let message = result_message_of(params, Some(login));
    let head = "\n2. State and code:\n  State: "@ + params.state + "\n  Code: "@ + params.code
        + "\n\n3. Access an refresh tokens:\n"@;
    let a = "  access_token: "@;
    let r = "\n  refresh_token: "@;
    let e = "\n  expires_in: "@;
    let d = decimal(login.expires_in as nat);
    let none = Seq::<char>::empty();
    assert(message =~= (head + a) + login.access_token + (r + login.refresh_token + e + d));
    lemma_contains_middle(head + a, login.access_token, r + login.refresh_token + e + d);
    assert(message =~= (head + a + login.access_token + r) + login.refresh_token + (e + d));
    lemma_contains_middle(head + a + login.access_token + r, login.refresh_token, e + d);
    assert(message =~= (head + a + login.access_token + r + login.refresh_token + e) + d + none);
    lemma_contains_middle(head + a + login.access_token + r + login.refresh_token + e, d, none);
}

} // verus!
