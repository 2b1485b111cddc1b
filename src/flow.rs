//! The two entry points of the relay, `start` and `callback`, as decisions
//! from a request and the configuration to a response.
use vstd::prelude::*;
use vstd::string::StringExecFns;
use crate::config::{ConfigView, OAuthConfig};
use crate::error::FlowError;
use crate::http_utils::{
    append_query_pair, last_value, last_value_of, local_error_url, local_success_url,
    make_redirect_uri, opt_str_view, own_callback_url, parse_url, query_pairs, request_pairs,
    success_redirect, error_redirect, url_normalized, with_query_pair, RequestUri,
};
use crate::state::{decode_state, encode_state, state_token, StateData, StateView};
use crate::text::{decimal, hex_of, hex_text, parse_u16, push_decimal, u16_of_text};
use crate::token::{token_error_of_body, token_of_body, TokenErrorResponse, TokenResponse};

verus! {

/// What the relay answers a browser with.
pub enum FlowResponse {
    /// A 302 redirect to this URL.
    Redirect(String),
    /// A 400 response with this plain-text body.
    BadRequest(String),
}

pub ghost enum ResponseView {
    Redirect(Seq<char>),
    BadRequest(Seq<char>),
}

impl View for FlowResponse {
    type V = ResponseView;

    open spec fn view(&self) -> ResponseView {
        match self {
            FlowResponse::Redirect(u) => ResponseView::Redirect(u@),
            FlowResponse::BadRequest(b) => ResponseView::BadRequest(b@),
        }
    }
}

pub open spec fn response_result_view(r: Result<FlowResponse, FlowError>) -> Result<ResponseView, FlowError> {
    match r {
        Ok(x) => Ok(x@),
        Err(e) => Err(e),
    }
}

/// A view of the request's URI parts.
pub ghost struct UriView {
    pub scheme: Option<Seq<char>>,
    pub host: Option<Seq<char>>,
    pub port: Option<u16>,
    pub path: Seq<char>,
    pub query: Option<Seq<char>>,
}

impl View for RequestUri {
    type V = UriView;

    open spec fn view(&self) -> UriView {
        UriView {
            scheme: opt_str_view(self.scheme),
            host: opt_str_view(self.host),
            port: self.port,
            path: self.path@,
            query: opt_str_view(self.query),
        }
    }
}

/// The local port that a `start` request asks for: the last `local_port`
/// parameter, read as a `u16`.
pub open spec fn requested_port(req: UriView) -> Option<u16> {
    match last_value(request_pairs(req.query), "local_port"@) {
        Some(v) => u16_of_text(v),
        None => None,
    }
}

/// The scopes that a `start` request asks for; empty by default.
pub open spec fn requested_scopes(req: UriView) -> Seq<char> {
    match last_value(request_pairs(req.query), "scopes"@) {
        Some(v) => v,
        None => Seq::empty(),
    }
}

/// The state that `start` sends along with the port it was asked for.
pub open spec fn start_state(port: u16, nonce: Seq<u8>) -> StateView {
    StateView { local_port: port, nonce: hex_text(nonce) }
}

/// The provider's authorization URL with the flow's parameters.
pub open spec fn authorization_redirect(auth: Seq<char>, c: ConfigView, callback: Seq<char>, state: Seq<char>, scopes: Seq<char>) -> Seq<char> {
    with_query_pair(
        with_query_pair(
            with_query_pair(
                with_query_pair(
                    with_query_pair(auth, "client_id"@, c.client_id),
                    "redirect_uri"@, callback),
                "response_type"@, "code"@),
            "state"@, state),
        "scope"@, scopes)
}

/// What `start` answers, given the random bytes of the nonce.
pub open spec fn start_outcome(req: UriView, c: ConfigView, nonce: Seq<u8>) -> Result<ResponseView, FlowError> {
    match requested_port(req) {
        None => Ok(ResponseView::BadRequest("Missing local_port parameter"@)),
        Some(port) => match url_normalized(c.authorization_url) {
            None => Err(FlowError::InvalidConfiguredUrl),
            Some(auth) => match own_callback_url(req.scheme, req.host, req.port, c.redirect_uri_suffix) {
                Err(e) => Err(e),
                Ok(callback) => Ok(ResponseView::Redirect(authorization_redirect(
                    auth, c, callback, state_token(start_state(port, nonce)), requested_scopes(req)))),
            },
        },
    }
}

/// Relies on `rand::random` for sixteen random bytes.
#[verifier::external_body]
fn random_nonce_bytes() -> (r: Vec<u8>)
    ensures
        r@.len() == 16,
{
    rand::random::<[u8; 16]>().to_vec()
}

/// `start` with the nonce's random bytes given.
pub fn start_with_nonce(req: &RequestUri, config: &OAuthConfig, nonce: &Vec<u8>) -> (r: Result<FlowResponse, FlowError>)
    ensures
        response_result_view(r) == start_outcome(req@, config@, nonce@),
{
    let pairs = query_pairs(req);
    let local_port = match last_value_of(&pairs, "local_port") {
        Some(v) => parse_u16(v.as_str()),
        None => None,
    };
    let scopes = match last_value_of(&pairs, "scopes") {
        Some(v) => v,
        None => String::new(),
    };
    let local_port = match local_port {
        Some(p) => p,
        None => {
            proof { reveal_strlit("Missing local_port parameter"); }
            return Ok(FlowResponse::BadRequest("Missing local_port parameter".to_owned()));
        },
    };
    let state_data = StateData { local_port, nonce: hex_of(nonce) };
    let state = encode_state(&state_data);
    let auth_url = match parse_url(config.authorization_url.as_str()) {
        Ok(u) => u,
        Err(e) => { return Err(e); },
    };
    let redirect_uri = match make_redirect_uri(req, config) {
        Ok(u) => u,
        Err(e) => { return Err(e); },
    };
    let u1 = append_query_pair(auth_url.as_str(), "client_id", config.client_id.as_str());
    let u2 = append_query_pair(u1.as_str(), "redirect_uri", redirect_uri.as_str());
    let u3 = append_query_pair(u2.as_str(), "response_type", "code");
    let u4 = append_query_pair(u3.as_str(), "state", state.as_str());
    let u5 = append_query_pair(u4.as_str(), "scope", scopes.as_str());
    proof {
        reveal_strlit("client_id");
        reveal_strlit("redirect_uri");
        reveal_strlit("response_type");
        reveal_strlit("code");
        reveal_strlit("state");
        reveal_strlit("scope");
    }
    Ok(FlowResponse::Redirect(u5))
}

/// Starts a flow: answers 400 without a `local_port`, else redirects to
/// the provider with a fresh state token. Whatever nonce was drawn, the
/// answer is the one `start_outcome` gives for it.
pub fn handle_oauth_start(req: &RequestUri, config: &OAuthConfig) -> (r: Result<FlowResponse, FlowError>)
    ensures
        exists|n: Seq<u8>| n.len() == 16 && response_result_view(r) == #[trigger] start_outcome(req@, config@, n),
{
    let nonce = random_nonce_bytes();
    start_with_nonce(req, config, &nonce)
}

/// The code-for-token request that a callback calls for.
pub struct TokenExchange {
    /// Where the outcome goes.
    pub local_port: u16,
    /// The provider's token endpoint, to POST to.
    pub token_url: String,
    /// The form-urlencoded request body.
    pub body: String,
}

/// The next step of a callback.
pub enum CallbackStep {
    /// Answer the browser and stop.
    Respond(FlowResponse),
    /// POST the request to the token endpoint, then hand the reply to
    /// `finish_token_exchange` (or a transport failure to `transport_failure_redirect`).
    Exchange(TokenExchange),
}

pub ghost enum StepView {
    Respond(ResponseView),
    Exchange { local_port: u16, token_url: Seq<char>, body: Seq<char> },
}

impl View for CallbackStep {
    type V = StepView;

    open spec fn view(&self) -> StepView {
        match self {
            CallbackStep::Respond(x) => StepView::Respond(x@),
            CallbackStep::Exchange(t) => StepView::Exchange {
                local_port: t.local_port,
                token_url: t.token_url@,
                body: t.body@,
            },
        }
    }
}

pub open spec fn step_result_view(r: Result<CallbackStep, FlowError>) -> Result<StepView, FlowError> {
    match r {
        Ok(x) => Ok(x@),
        Err(e) => Err(e),
    }
}

/// The state that a token carries, if it is one this service issued.
pub open spec fn state_of_token(t: Seq<char>) -> Option<StateView> {
    if exists|v: StateView| state_token(v) == t {
        Some(choose|v: StateView| state_token(v) == t)
    } else {
        None
    }
}

pub open spec fn param(req: UriView, key: Seq<char>) -> Option<Seq<char>> {
    last_value(request_pairs(req.query), key)
}

/// The message sent to the local application for a provider's error.
pub open spec fn provider_error_message(error: Seq<char>, description: Option<Seq<char>>, fallback: Seq<char>) -> Seq<char> {
    error + ": "@ + match description {
        Some(d) => d,
        None => fallback,
    }
}

/// The message sent to the local application when this service's callback
/// URL cannot be rebuilt from the request.
pub open spec fn callback_url_failure(e: FlowError) -> Seq<char> {
    match e {
        FlowError::MissingUriComponent => "Missing scheme or host in the request URI"@,
        _ => "Invalid callback URL"@,
    }
}

fn callback_url_failure_message(e: &FlowError) -> (r: &'static str)
    ensures
        r@ == callback_url_failure(*e),
{
    proof {
        reveal_strlit("Missing scheme or host in the request URI");
        reveal_strlit("Invalid callback URL");
    }
    match e {
        FlowError::MissingUriComponent => "Missing scheme or host in the request URI",
        _ => "Invalid callback URL",
    }
}

/// What a callback does next.
pub open spec fn callback_outcome(req: UriView, c: ConfigView) -> Result<StepView, FlowError> {
    match param(req, "state"@) {
        None => Ok(StepView::Respond(ResponseView::BadRequest("Missing state parameter"@))),
        Some(t) => match state_of_token(t) {
            None => Err(FlowError::MalformedState),
            Some(st) => match param(req, "error"@) {
                Some(e) => Ok(StepView::Respond(ResponseView::Redirect(local_error_url(
                    st.local_port,
                    provider_error_message(e, param(req, "error_description"@), "Unknown error"@))))),
                None => match param(req, "code"@) {
                    None => Ok(StepView::Respond(ResponseView::Redirect(
                        local_error_url(st.local_port, "Missing authorization code"@)))),
                    Some(code) => match own_callback_url(req.scheme, req.host, req.port, c.redirect_uri_suffix) {
                        Err(e) => Ok(StepView::Respond(ResponseView::Redirect(
                            local_error_url(st.local_port, callback_url_failure(e))))),
                        Ok(callback) => Ok(StepView::Exchange {
                            local_port: st.local_port,
                            token_url: c.token_url,
                            body: crate::token::token_request_text(code, callback, c),
                        }),
                    },
                },
            },
        },
    }
}

/// Handles the provider's callback up to the token request: 400 without a
/// `state`, `MalformedState` for a token this service did not issue. Once
/// the state has decoded, every failure (a provider error, a missing code,
/// a callback URL that cannot be rebuilt) is a redirect to the local
/// application; else the answer is the token request to make.
pub fn handle_oauth_callback(req: &RequestUri, config: &OAuthConfig) -> (r: Result<CallbackStep, FlowError>)
    ensures
        step_result_view(r) == callback_outcome(req@, config@),
{
    let pairs = query_pairs(req);
    let code = last_value_of(&pairs, "code");
    let state = last_value_of(&pairs, "state");
    let error = last_value_of(&pairs, "error");
    let error_description = last_value_of(&pairs, "error_description");
    proof {
        reveal_strlit("code");
        reveal_strlit("state");
        reveal_strlit("error");
        reveal_strlit("error_description");
        reveal_strlit("Missing state parameter");
        reveal_strlit("Missing authorization code");
        reveal_strlit("Unknown error");
        reveal_strlit(": ");
    }
    let state_data = match &state {
        Some(t) => match decode_state(t.as_str()) {
            Ok(sd) => {
                sd
            },
            Err(_) => { return Err(FlowError::MalformedState); },
        },
        None => {
            return Ok(CallbackStep::Respond(FlowResponse::BadRequest("Missing state parameter".to_owned())));
        },
    };
    let local_port = state_data.local_port;
    match error {
        Some(e) => {
            let mut msg = e;
            msg.append(": ");
            match error_description {
                Some(d) => msg.append(d.as_str()),
                None => msg.append("Unknown error"),
            }
            return Ok(CallbackStep::Respond(FlowResponse::Redirect(error_redirect(local_port, msg.as_str()))));
        },
        None => {},
    }
    let code = match code {
        Some(c) => c,
        None => {
            return Ok(CallbackStep::Respond(FlowResponse::Redirect(
                error_redirect(local_port, "Missing authorization code"))));
        },
    };
    let redirect_uri = match make_redirect_uri(req, config) {
        Ok(u) => u,
        Err(e) => {
            let msg = callback_url_failure_message(&e);
            return Ok(CallbackStep::Respond(FlowResponse::Redirect(error_redirect(local_port, msg))));
        },
    };
    let body = crate::token::token_request_body(code.as_str(), redirect_uri.as_str(), config);
    Ok(CallbackStep::Exchange(TokenExchange { local_port, token_url: config.token_url.clone(), body }))
}

/// Where a token reply sends the local application.
pub open spec fn exchange_outcome_url(port: u16, status: u16, body: Seq<char>) -> Seq<char> {
    if 200 <= status < 300 {
        match token_of_body(body) {
            Ok(t) => local_success_url(port, t.access_token, t.refresh_token),
            Err(m) => local_error_url(
                port,
                "Failed to parse token response (status "@ + decimal(status as nat) + "): "@ + m,
            ),
        }
    } else {
        match token_error_of_body(body) {
            Ok(e) => local_error_url(port, provider_error_message(e.error, e.error_description, "No description"@)),
            Err(_) => local_error_url(
                port,
                "Token request failed with status "@ + decimal(status as nat) + ": "@ + body,
            ),
        }
    }
}

/// Turns the token endpoint's reply into the redirect to the local
/// application: its tokens on a 2xx reply that parses, else a message.
pub fn finish_token_exchange(local_port: u16, status: u16, body: &str) -> (r: String)
    ensures
        r@ == exchange_outcome_url(local_port, status, body@),
{
    proof {
        reveal_strlit("Failed to parse token response (status ");
        reveal_strlit("): ");
        reveal_strlit("No description");
        reveal_strlit("Token request failed with status ");
        reveal_strlit(": ");
    }
    if 200 <= status && status < 300 {
        match TokenResponse::from_json(body) {
            Ok(tokens) => success_redirect(local_port, &tokens),
            Err(m) => {
                let mut msg = "Failed to parse token response (status ".to_owned();
                push_decimal(&mut msg, status as u64);
                msg.append("): ");
                msg.append(m.as_str());
                assert(msg@ =~= "Failed to parse token response (status "@ + decimal(status as nat) + "): "@ + m@);
                error_redirect(local_port, msg.as_str())
            },
        }
    } else {
        match TokenErrorResponse::from_json(body) {
            Ok(e) => {
                let mut msg = e.error;
                msg.append(": ");
                match e.error_description {
                    Some(d) => msg.append(d.as_str()),
                    None => msg.append("No description"),
                }
                error_redirect(local_port, msg.as_str())
            },
            Err(_) => {
                let mut msg = "Token request failed with status ".to_owned();
                push_decimal(&mut msg, status as u64);
                msg.append(": ");
                msg.append(body);
                assert(msg@ =~= "Token request failed with status "@ + decimal(status as nat) + ": "@ + body@);
                error_redirect(local_port, msg.as_str())
            },
        }
    }
}

/// The redirect for a token request that got no reply.
pub fn transport_failure_redirect(local_port: u16, detail: &str) -> (r: String)
    ensures
        r@ == local_error_url(local_port, "Token request failed: "@ + detail@),
{
    proof { reveal_strlit("Token request failed: "); }
    let mut msg = "Token request failed: ".to_owned();
    msg.append(detail);
    error_redirect(local_port, msg.as_str())
}

/// The HTTP status for a failure that cannot be redirected.
pub fn error_status(e: &FlowError) -> (r: u16)
    ensures
        r == match e {
            FlowError::MalformedState => 400u16,
            FlowError::MissingUriComponent => 400u16,
            FlowError::ConfigurationError(_) => 500u16,
            FlowError::InvalidConfiguredUrl => 500u16,
        },
{
    match e {
        FlowError::MalformedState => 400,
        FlowError::MissingUriComponent => 400,
        FlowError::ConfigurationError(_) => 500,
        FlowError::InvalidConfiguredUrl => 500,
    }
}

/// Which handler a request goes to.
#[derive(Debug, Clone, Copy, PartialEq, Eq, Structural)]
pub enum Route {
    /// `GET /`: a 200 "OK".
    Health,
    Start,
    Callback,
    /// Any other path: 404.
    NotFound,
    /// Any method but GET: 405.
    MethodNotAllowed,
}

/// Routes a request by its method and path.
pub fn route(is_get: bool, path: &str, config: &OAuthConfig) -> (r: Route)
    ensures
        r == if !is_get {
            Route::MethodNotAllowed
        } else if path@ == "/"@ {
            Route::Health
        } else if path@ == config.oauth_init_uri_suffix@ {
            Route::Start
        } else if path@ == config.redirect_uri_suffix@ {
            Route::Callback
        } else {
            Route::NotFound
        },
{
    if !is_get {
        return Route::MethodNotAllowed;
    }
    let p = path.to_owned();
    if p == "/".to_owned() {
        Route::Health
    } else if p == config.oauth_init_uri_suffix {
        Route::Start
    } else if p == config.redirect_uri_suffix {
        Route::Callback
    } else {
        Route::NotFound
    }
}

/// Two starts are independent: each sends the state made of the port its
/// own request asked for and its own nonce, so starts that ask for
/// different ports send different states, each with its own port, and
/// `decode_state` gives each token back its own state.
pub proof fn concurrent_starts_keep_own_ports(
    req1: UriView,
    req2: UriView,
    c: ConfigView,
    nonce1: Seq<u8>,
    nonce2: Seq<u8>,
)
    requires
        requested_port(req1) is Some,
        requested_port(req2) is Some,
        requested_port(req1) != requested_port(req2),
        url_normalized(c.authorization_url) is Some,
        own_callback_url(req1.scheme, req1.host, req1.port, c.redirect_uri_suffix) is Ok,
        own_callback_url(req2.scheme, req2.host, req2.port, c.redirect_uri_suffix) is Ok,
    ensures
        ({
            let port1 = requested_port(req1)->0;
            let port2 = requested_port(req2)->0;
            let auth = url_normalized(c.authorization_url)->0;
            let cb1 = own_callback_url(req1.scheme, req1.host, req1.port, c.redirect_uri_suffix)->Ok_0;
            let cb2 = own_callback_url(req2.scheme, req2.host, req2.port, c.redirect_uri_suffix)->Ok_0;
            &&& start_outcome(req1, c, nonce1) == Ok::<ResponseView, FlowError>(ResponseView::Redirect(
                authorization_redirect(auth, c, cb1, state_token(start_state(port1, nonce1)), requested_scopes(req1))))
            &&& start_outcome(req2, c, nonce2) == Ok::<ResponseView, FlowError>(ResponseView::Redirect(
                authorization_redirect(auth, c, cb2, state_token(start_state(port2, nonce2)), requested_scopes(req2))))
            &&& start_state(port1, nonce1).local_port == port1
            &&& start_state(port2, nonce2).local_port == port2
            &&& start_state(port1, nonce1) != start_state(port2, nonce2)
        }),
{
}

} // verus!
