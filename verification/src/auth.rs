//! The authorization flow: from whatever the credential slot holds to a
//! credential that can be used, by renewal or by the authorization-code
//! exchange through a local listener.
//!
//! The flow decides and keeps state; it performs nothing. Each step hands its
//! caller one [`AuthAction`] to carry out, and the caller reports what came of
//! it as the next [`AuthEvent`].

use vstd::prelude::*;
use vstd::string::StringExecFns;

use crate::credential::{
    copy_strings, standing_at, texts, Credential, CredentialSlot, CredentialView, Standing,
    Timestamp,
};
use crate::listener::{
    decimal, loopback_origin, serve, CallbackListener, CallbackRequest, CallbackRequestView,
    ListenerView, Method, RedirectTarget, Reply,
};

verus! {

/// Why no credential could be had. Each of these ends the run.
#[derive(Clone, Copy, Debug, PartialEq, Eq, Structural)]
pub enum AuthError {
    /// Nothing was supplied and nobody is there to authorize: no listener is
    /// opened.
    CredentialUnavailable,
    /// The remote service would not renew the credential.
    RefreshFailed,
    /// The remote service would not take the authorization code.
    ExchangeFailed,
    /// The listener could not be bound, or ended without a code.
    ListenerError,
}

/// What the flow is configured with.
#[derive(Debug)]
pub struct AuthConfig {
    pub redirect: RedirectTarget,
    pub scopes: Vec<String>,
    pub show_dialog: bool,
}

/// The pending exchange as the caller has to set it up: the parameters of the
/// authorize URL that is shown to the user, and the loopback port on which the
/// listener waits for the redirect.
#[derive(Debug, PartialEq, Eq)]
pub struct AuthorizationRequest {
    pub redirect_uri: String,
    pub scopes: Vec<String>,
    pub show_dialog: bool,
    pub port: u16,
}

/// An authorization request as the contracts see it.
pub struct AuthorizationRequestView {
    pub redirect_uri: Seq<char>,
    pub scopes: Seq<Seq<char>>,
    pub show_dialog: bool,
    pub port: u16,
}

impl View for AuthorizationRequest {
    type V = AuthorizationRequestView;

    open spec fn view(&self) -> AuthorizationRequestView {
        AuthorizationRequestView {
            redirect_uri: self.redirect_uri@,
            scopes: texts(self.scopes@),
            show_dialog: self.show_dialog,
            port: self.port,
        }
    }
}

impl AuthConfig {
    /// The request that this configuration asks for.
    pub open spec fn request(&self) -> AuthorizationRequestView {
        AuthorizationRequestView {
            redirect_uri: self.redirect.uri_text(),
            scopes: texts(self.scopes@),
            show_dialog: self.show_dialog,
            port: self.redirect.port,
        }
    }

    /// The listener that waits for the answer to that request.
    pub open spec fn listener(&self) -> ListenerView {
        ListenerView { route: self.redirect.path@, open: true }
    }
}

/// Where the flow stands.
#[derive(Debug)]
pub enum AuthState {
    /// The slot held an expired credential; its renewal is under way.
    ExpiredCredential,
    /// The slot was empty; the listener waits for the authorization code.
    AwaitingCallback(CallbackListener),
    /// The code has come in and the listener is gone; the exchange of the
    /// code for a credential is under way.
    Exchanging,
    /// The slot holds a credential that can be used.
    Authorized,
    /// No credential can be had in this run.
    Failed(AuthError),
}

/// A state as the contracts see it.
pub enum AuthStateView {
    ExpiredCredential,
    AwaitingCallback(ListenerView),
    Exchanging,
    Authorized,
    Failed(AuthError),
}

impl View for AuthState {
    type V = AuthStateView;

    open spec fn view(&self) -> AuthStateView {
        match self {
            AuthState::ExpiredCredential => AuthStateView::ExpiredCredential,
            AuthState::AwaitingCallback(listener) => AuthStateView::AwaitingCallback(listener@),
            AuthState::Exchanging => AuthStateView::Exchanging,
            AuthState::Authorized => AuthStateView::Authorized,
            AuthState::Failed(error) => AuthStateView::Failed(*error),
        }
    }
}

/// What the caller reports to the flow.
#[derive(Debug, PartialEq, Eq)]
pub enum AuthEvent {
    /// The renewal gave this credential.
    Refreshed(Credential),
    /// The renewal was refused.
    RefreshFailed,
    /// A request arrived at the listener.
    Request(CallbackRequest),
    /// The listener could not be bound, or ended before a code came.
    ListenerFailed,
    /// The exchange of the code gave this credential.
    Exchanged(Credential),
    /// The exchange of the code was refused.
    ExchangeFailed,
}

/// An event as the contracts see it.
pub enum AuthEventView {
    Refreshed(CredentialView),
    RefreshFailed,
    Request(CallbackRequestView),
    ListenerFailed,
    Exchanged(CredentialView),
    ExchangeFailed,
}

impl View for AuthEvent {
    type V = AuthEventView;

    open spec fn view(&self) -> AuthEventView {
        match self {
            AuthEvent::Refreshed(credential) => AuthEventView::Refreshed(credential@),
            AuthEvent::RefreshFailed => AuthEventView::RefreshFailed,
            AuthEvent::Request(request) => AuthEventView::Request(request@),
            AuthEvent::ListenerFailed => AuthEventView::ListenerFailed,
            AuthEvent::Exchanged(credential) => AuthEventView::Exchanged(credential@),
            AuthEvent::ExchangeFailed => AuthEventView::ExchangeFailed,
        }
    }
}

/// What the flow asks its caller to do next.
#[derive(Debug, PartialEq, Eq)]
pub enum AuthAction {
    /// The slot holds a usable credential: go on with the run.
    Proceed,
    /// Ask the remote service to renew this credential.
    Refresh(Credential),
    /// Show the user the authorize URL for this request and open the
    /// listener.
    OpenListener(AuthorizationRequest),
    /// Ask the remote service to exchange this code for a credential.
    Exchange(String),
    /// Give up the run with this error.
    Abort(AuthError),
    /// Nothing to do but to wait for the next event.
    Wait,
}

/// An action as the contracts see it.
pub enum AuthActionView {
    Proceed,
    Refresh(CredentialView),
    OpenListener(AuthorizationRequestView),
    Exchange(Seq<char>),
    Abort(AuthError),
    Wait,
}

impl View for AuthAction {
    type V = AuthActionView;

    open spec fn view(&self) -> AuthActionView {
        match self {
            AuthAction::Proceed => AuthActionView::Proceed,
            AuthAction::Refresh(credential) => AuthActionView::Refresh(credential@),
            AuthAction::OpenListener(request) => AuthActionView::OpenListener(request@),
            AuthAction::Exchange(code) => AuthActionView::Exchange(code@),
            AuthAction::Abort(error) => AuthActionView::Abort(*error),
            AuthAction::Wait => AuthActionView::Wait,
        }
    }
}

/// What one step of the flow gives: the action for the caller and, where the
/// event was a request at the listener, the reply to send.
#[derive(Debug, PartialEq, Eq)]
pub struct AuthStep {
    pub action: AuthAction,
    pub reply: Option<Reply>,
}

/// The flow and the slot after a step, with what the step gave.
pub struct AuthOutcome {
    pub state: AuthStateView,
    pub slot: Option<CredentialView>,
    pub action: AuthActionView,
    pub reply: Option<Reply>,
}

/// How the flow starts, from what the slot holds at `now`.
///
/// A usable credential is taken as it is, with nothing to do. An expired one
/// is renewed. With an empty slot the listener is opened, unless nobody is
/// there to answer it: then the flow fails at once.
pub open spec fn auth_entry(
    slot: Option<CredentialView>,
    now: Timestamp,
    interactive: bool,
    request: AuthorizationRequestView,
    listener: ListenerView,
) -> (AuthStateView, AuthActionView) {
    match standing_at(slot, now) {
        Standing::Valid => (AuthStateView::Authorized, AuthActionView::Proceed),
        Standing::Expired => (
            AuthStateView::ExpiredCredential,
            AuthActionView::Refresh(slot.unwrap()),
        ),
        Standing::NoCredential => if interactive {
            (AuthStateView::AwaitingCallback(listener), AuthActionView::OpenListener(request))
        } else {
            (
                AuthStateView::Failed(AuthError::CredentialUnavailable),
                AuthActionView::Abort(AuthError::CredentialUnavailable),
            )
        },
    }
}

/// One step of the flow.
///
/// The result of a renewal counts only while a renewal is under way, that of
/// an exchange only while an exchange is under way; a new credential is
/// written to the slot and the flow is authorized. A request is served by the
/// listener while the flow waits for the code, and is left unserved at any
/// other time. Whatever else is reported changes nothing.
pub open spec fn auth_step(
    state: AuthStateView,
    slot: Option<CredentialView>,
    event: AuthEventView,
) -> AuthOutcome {
    match (state, event) {
        (AuthStateView::ExpiredCredential, AuthEventView::Refreshed(credential)) => AuthOutcome {
            state: AuthStateView::Authorized,
            slot: Some(credential),
            action: AuthActionView::Proceed,
            reply: None,
        },
        (AuthStateView::ExpiredCredential, AuthEventView::RefreshFailed) => AuthOutcome {
            state: AuthStateView::Failed(AuthError::RefreshFailed),
            slot,
            action: AuthActionView::Abort(AuthError::RefreshFailed),
            reply: None,
        },
        (AuthStateView::AwaitingCallback(listener), AuthEventView::Request(request)) => {
            let (listener_after, reply, code) = serve(listener, request);
            match code {
                Some(code) => AuthOutcome {
                    state: AuthStateView::Exchanging,
                    slot,
                    action: AuthActionView::Exchange(code),
                    reply: Some(reply),
                },
                None => AuthOutcome {
                    state: AuthStateView::AwaitingCallback(listener_after),
                    slot,
                    action: AuthActionView::Wait,
                    reply: Some(reply),
                },
            }
        },
        (AuthStateView::AwaitingCallback(_), AuthEventView::ListenerFailed) => AuthOutcome {
            state: AuthStateView::Failed(AuthError::ListenerError),
            slot,
            action: AuthActionView::Abort(AuthError::ListenerError),
            reply: None,
        },
        (AuthStateView::Exchanging, AuthEventView::Exchanged(credential)) => AuthOutcome {
            state: AuthStateView::Authorized,
            slot: Some(credential),
            action: AuthActionView::Proceed,
            reply: None,
        },
        (AuthStateView::Exchanging, AuthEventView::ExchangeFailed) => AuthOutcome {
            state: AuthStateView::Failed(AuthError::ExchangeFailed),
            slot,
            action: AuthActionView::Abort(AuthError::ExchangeFailed),
            reply: None,
        },
        (_, AuthEventView::Request(_)) => AuthOutcome {
            state,
            slot,
            action: AuthActionView::Wait,
            reply: Some(Reply::Closed),
        },
        _ => AuthOutcome { state, slot, action: AuthActionView::Wait, reply: None },
    }
}

/// The state machine that obtains a usable credential.
#[derive(Debug)]
pub struct AuthorizationFlow {
    state: AuthState,
}

impl View for AuthorizationFlow {
    type V = AuthStateView;

    closed spec fn view(&self) -> AuthStateView {
        self.state@
    }
}

/// The scopes that reading and changing the playback takes.
pub open spec fn playback_scopes() -> Seq<Seq<char>> {
    seq![
        "user-read-currently-playing"@,
        "app-remote-control"@,
        "user-modify-playback-state"@,
        "user-read-playback-state"@,
    ]
}

impl AuthConfig {
    /// The configuration for the control of playback: the redirect target on
    /// port 8000 at `/callback`, the scopes that reading and changing the
    /// playback takes, and the consent dialog shown every time.
    pub fn playback() -> (config: AuthConfig)
        ensures
            config.redirect.wf(),
            config.redirect.port == 8000,
            config.redirect.path@ == "/callback"@,
            texts(config.scopes@) == playback_scopes(),
            config.show_dialog,
    {
        let path = String::from_str("/callback");
        proof {
            reveal_strlit("/callback");
        }
        let mut scopes: Vec<String> = Vec::new();
        scopes.push(String::from_str("user-read-currently-playing"));
        scopes.push(String::from_str("app-remote-control"));
        scopes.push(String::from_str("user-modify-playback-state"));
        scopes.push(String::from_str("user-read-playback-state"));
        assert(texts(scopes@) =~= playback_scopes());
        AuthConfig { redirect: RedirectTarget { port: 8000, path }, scopes, show_dialog: true }
    }

    /// Builds the request that is handed out with [`AuthAction::OpenListener`].
    pub fn authorization_request(&self) -> (request: AuthorizationRequest)
        ensures
            request@ == self.request(),
    {
        AuthorizationRequest {
            redirect_uri: self.redirect.uri(),
            scopes: copy_strings(&self.scopes),
            show_dialog: self.show_dialog,
            port: self.redirect.port,
        }
    }
}

impl AuthorizationFlow {
    /// Starts the flow on what `slot` holds at `now`. `interactive` says
    /// whether somebody is there to follow the authorize URL.
    pub fn enter(slot: &CredentialSlot, now: Timestamp, interactive: bool, config: &AuthConfig)
        -> (started: (AuthorizationFlow, AuthAction))
        ensures
            (started.0@, started.1@) == auth_entry(
                slot@,
                now,
                interactive,
                config.request(),
                config.listener(),
            ),
    {
        match slot.standing(now) {
            Standing::Valid => (
                AuthorizationFlow { state: AuthState::Authorized },
                AuthAction::Proceed,
            ),
            Standing::Expired => {
                let held = slot.get();
                match held {
                    Some(credential) => (
                        AuthorizationFlow { state: AuthState::ExpiredCredential },
                        AuthAction::Refresh(credential),
                    ),
                    None => unreached(),
                }
            },
            Standing::NoCredential => if interactive {
                (
                    AuthorizationFlow {
                        state: AuthState::AwaitingCallback(CallbackListener::bind(&config.redirect)),
                    },
                    AuthAction::OpenListener(config.authorization_request()),
                )
            } else {
                (
                    AuthorizationFlow { state: AuthState::Failed(AuthError::CredentialUnavailable) },
                    AuthAction::Abort(AuthError::CredentialUnavailable),
                )
            },
        }
    }

    /// Whether the flow has ended with a usable credential in the slot.
    pub fn is_authorized(&self) -> (authorized: bool)
        ensures
            authorized == (self@ == AuthStateView::Authorized),
    {
        match &self.state {
            AuthState::Authorized => true,
            _ => false,
        }
    }

    /// The error that the flow has ended with, if it has.
    pub fn failure(&self) -> (error: Option<AuthError>)
        ensures
            error == (match self@ {
                AuthStateView::Failed(e) => Some(e),
                _ => None,
            }),
    {
        match &self.state {
            AuthState::Failed(e) => Some(*e),
            _ => None,
        }
    }

    /// Whether the listener is open and waits for the code.
    pub fn is_listening(&self) -> (listening: bool)
        ensures
            listening == (self@ matches AuthStateView::AwaitingCallback(listener) && listener.open),
    {
        match &self.state {
            AuthState::AwaitingCallback(listener) => listener.is_open(),
            _ => false,
        }
    }

    /// Takes one event and says what to do next. The slot is written when,
    /// and only when, a renewal or an exchange that was under way has given a
    /// credential.
    pub fn step(&mut self, slot: &mut CredentialSlot, event: AuthEvent) -> (step: AuthStep)
        ensures
            (AuthOutcome {
                state: final(self)@,
                slot: final(slot)@,
                action: step.action@,
                reply: step.reply,
            }) == auth_step(old(self)@, old(slot)@, event@),
    {
        match event {
            AuthEvent::Refreshed(credential) => match &self.state {
                AuthState::ExpiredCredential => {
                    slot.set(credential);
                    self.state = AuthState::Authorized;
                    AuthStep { action: AuthAction::Proceed, reply: None }
                },
                _ => AuthStep { action: AuthAction::Wait, reply: None },
            },
            AuthEvent::RefreshFailed => match &self.state {
                AuthState::ExpiredCredential => {
                    self.state = AuthState::Failed(AuthError::RefreshFailed);
                    AuthStep { action: AuthAction::Abort(AuthError::RefreshFailed), reply: None }
                },
                _ => AuthStep { action: AuthAction::Wait, reply: None },
            },
            AuthEvent::Request(request) => {
                let served = match &mut self.state {
                    AuthState::AwaitingCallback(listener) => listener.handle(request),
                    _ => (Reply::Closed, None),
                };
                match served.1 {
                    Some(code) => {
                        self.state = AuthState::Exchanging;
                        AuthStep { action: AuthAction::Exchange(code), reply: Some(served.0) }
                    },
                    None => AuthStep { action: AuthAction::Wait, reply: Some(served.0) },
                }
            },
            AuthEvent::ListenerFailed => match &self.state {
                AuthState::AwaitingCallback(_) => {
                    self.state = AuthState::Failed(AuthError::ListenerError);
                    AuthStep { action: AuthAction::Abort(AuthError::ListenerError), reply: None }
                },
                _ => AuthStep { action: AuthAction::Wait, reply: None },
            },
            AuthEvent::Exchanged(credential) => match &self.state {
                AuthState::Exchanging => {
                    slot.set(credential);
                    self.state = AuthState::Authorized;
                    AuthStep { action: AuthAction::Proceed, reply: None }
                },
                _ => AuthStep { action: AuthAction::Wait, reply: None },
            },
            AuthEvent::ExchangeFailed => match &self.state {
                AuthState::Exchanging => {
                    self.state = AuthState::Failed(AuthError::ExchangeFailed);
                    AuthStep { action: AuthAction::Abort(AuthError::ExchangeFailed), reply: None }
                },
                _ => AuthStep { action: AuthAction::Wait, reply: None },
            },
        }
    }
}

/// The flow and the slot after a run of events.
pub open spec fn auth_after(
    state: AuthStateView,
    slot: Option<CredentialView>,
    events: Seq<AuthEventView>,
) -> (AuthStateView, Option<CredentialView>)
    decreases events.len(),
{
    if events.len() == 0 {
        (state, slot)
    } else {
        let before = auth_after(state, slot, events.drop_last());
        let outcome = auth_step(before.0, before.1, events.last());
        (outcome.state, outcome.slot)
    }
}

/// What the step for the event at `index` of a run of events gives.
pub open spec fn auth_outcome_at(
    state: AuthStateView,
    slot: Option<CredentialView>,
    events: Seq<AuthEventView>,
    index: int,
) -> AuthOutcome
    recommends
        0 <= index < events.len(),
{
    let before = auth_after(state, slot, events.take(index));
    auth_step(before.0, before.1, events[index])
}

/// Whether the flow has come to its end, one way or the other.
pub open spec fn settled(state: AuthStateView) -> bool {
    state is Authorized || state is Failed
}

/// No step renews a credential or opens a listener: both happen at the start
/// of the flow or not at all. A step that writes the slot is one that ends
/// the flow authorized, and a flow that ends authorized has a credential in
/// the slot.
pub proof fn lemma_step_shape(
    state: AuthStateView,
    slot: Option<CredentialView>,
    event: AuthEventView,
)
    ensures
        !(auth_step(state, slot, event).action is Refresh),
        !(auth_step(state, slot, event).action is OpenListener),
        auth_step(state, slot, event).slot != slot ==> auth_step(state, slot, event).action
            is Proceed,
        auth_step(state, slot, event).action is Proceed <==> !(state is Authorized) && auth_step(
            state,
            slot,
            event,
        ).state is Authorized,
        auth_step(state, slot, event).action is Proceed ==> auth_step(state, slot, event).slot
            is Some,
        auth_step(state, slot, event).action is Abort <==> !(state is Failed) && auth_step(
            state,
            slot,
            event,
        ).state is Failed,
        forall|error: AuthError|
            auth_step(state, slot, event).state == AuthStateView::Failed(error) && !(state
                is Failed) ==> auth_step(state, slot, event).action == AuthActionView::Abort(
                error,
            ),
{
}

/// A flow that has ended stays as it is: whatever is reported afterwards
/// changes neither the state nor the slot and asks for nothing.
pub proof fn lemma_settled_flow_is_final(
    state: AuthStateView,
    slot: Option<CredentialView>,
    events: Seq<AuthEventView>,
    index: int,
)
    requires
        settled(state),
        0 <= index < events.len(),
    ensures
        auth_after(state, slot, events) == (state, slot),
        auth_outcome_at(state, slot, events, index).action is Wait,
        auth_outcome_at(state, slot, events, index).reply is Some ==> auth_outcome_at(
            state,
            slot,
            events,
            index,
        ).reply == Some(Reply::Closed),
{
    lemma_settled_run(state, slot, events);
    lemma_settled_run(state, slot, events.take(index));
}

proof fn lemma_settled_run(
    state: AuthStateView,
    slot: Option<CredentialView>,
    events: Seq<AuthEventView>,
)
    requires
        settled(state),
    ensures
        auth_after(state, slot, events) == (state, slot),
    decreases events.len(),
{
    if events.len() > 0 {
        lemma_settled_run(state, slot, events.drop_last());
    }
}

/// The renewal path. A flow that starts on an expired credential asks for
/// that credential to be renewed, once, at its start; no step of it asks for
/// another renewal or opens a listener, and no request is ever served.
pub proof fn lemma_expired_credential_is_refreshed_once(
    slot: Option<CredentialView>,
    now: Timestamp,
    interactive: bool,
    request: AuthorizationRequestView,
    listener: ListenerView,
    events: Seq<AuthEventView>,
    index: int,
)
    requires
        standing_at(slot, now) == Standing::Expired,
        0 <= index < events.len(),
    ensures
        auth_entry(slot, now, interactive, request, listener) == (
            AuthStateView::ExpiredCredential,
            AuthActionView::Refresh(slot.unwrap()),
        ),
        !(auth_outcome_at(AuthStateView::ExpiredCredential, slot, events, index).action
            is Refresh),
        !(auth_outcome_at(AuthStateView::ExpiredCredential, slot, events, index).action
            is OpenListener),
        !(auth_outcome_at(AuthStateView::ExpiredCredential, slot, events, index).action
            is Exchange),
        auth_outcome_at(AuthStateView::ExpiredCredential, slot, events, index).reply
            != Some(Reply::Acknowledged),
{
    let start = AuthStateView::ExpiredCredential;
    lemma_renewal_run(slot, events.take(index));
    let before = auth_after(start, slot, events.take(index));
    lemma_step_shape(before.0, before.1, events[index]);
}

proof fn lemma_renewal_run(slot: Option<CredentialView>, events: Seq<AuthEventView>)
    ensures
        ({
            let reached = auth_after(AuthStateView::ExpiredCredential, slot, events).0;
            reached is ExpiredCredential || reached is Authorized || reached
                == AuthStateView::Failed(AuthError::RefreshFailed)
        }),
    decreases events.len(),
{
    if events.len() > 0 {
        lemma_renewal_run(slot, events.drop_last());
    }
}

/// The non-interactive path. With an empty slot and nobody to authorize, the
/// flow fails at its start with `CredentialUnavailable`. It opens no
/// listener then or later, serves no request, and leaves the slot empty.
pub proof fn lemma_no_listener_without_a_user(
    now: Timestamp,
    request: AuthorizationRequestView,
    listener: ListenerView,
    events: Seq<AuthEventView>,
    index: int,
)
    requires
        0 <= index < events.len(),
    ensures
        auth_entry(None, now, false, request, listener) == (
            AuthStateView::Failed(AuthError::CredentialUnavailable),
            AuthActionView::Abort(AuthError::CredentialUnavailable),
        ),
        auth_after(AuthStateView::Failed(AuthError::CredentialUnavailable), None, events) == (
            AuthStateView::Failed(AuthError::CredentialUnavailable),
            None::<CredentialView>,
        ),
        auth_outcome_at(
            AuthStateView::Failed(AuthError::CredentialUnavailable),
            None,
            events,
            index,
        ).action is Wait,
        auth_outcome_at(
            AuthStateView::Failed(AuthError::CredentialUnavailable),
            None,
            events,
            index,
        ).reply != Some(Reply::Acknowledged),
{
    lemma_settled_flow_is_final(
        AuthStateView::Failed(AuthError::CredentialUnavailable),
        None,
        events,
        index,
    );
}

/// The listener waits where the remote service sends the browser. The
/// redirect URI that goes into the authorize URL ends with the route of the
/// listener, and a GET for that route which carries a code is acknowledged by
/// a flow that waits for its callback, which hands the code on to be
/// exchanged.
pub proof fn lemma_redirect_reaches_the_listener(
    config: AuthConfig,
    slot: Option<CredentialView>,
    code: Seq<char>,
)
    ensures
        config.request().redirect_uri == loopback_origin() + decimal(config.redirect.port as nat)
            + config.listener().route,
        config.request().port == config.redirect.port,
        auth_step(
            AuthStateView::AwaitingCallback(config.listener()),
            slot,
            AuthEventView::Request(
                CallbackRequestView {
                    method: Method::Get,
                    path: config.redirect.path@,
                    code: Some(code),
                },
            ),
        ) == (AuthOutcome {
            state: AuthStateView::Exchanging,
            slot,
            action: AuthActionView::Exchange(code),
            reply: Some(Reply::Acknowledged),
        }),
{
}

/// The interactive path. With an empty slot and a user at hand the flow
/// opens one listener, at its start. Of all the requests that arrive, at most
/// one is acknowledged: once a request has been, the listener is gone, every
/// later request is left unserved, and no second code is handed on.
pub proof fn lemma_one_callback_is_accepted(
    now: Timestamp,
    request: AuthorizationRequestView,
    listener: ListenerView,
    events: Seq<AuthEventView>,
    first: int,
    later: int,
)
    requires
        0 <= first < later < events.len(),
        auth_outcome_at(AuthStateView::AwaitingCallback(listener), None, events, first).reply
            == Some(Reply::Acknowledged),
    ensures
        auth_entry(None, now, true, request, listener) == (
            AuthStateView::AwaitingCallback(listener),
            AuthActionView::OpenListener(request),
        ),
        auth_outcome_at(AuthStateView::AwaitingCallback(listener), None, events, first).action
            is Exchange,
        auth_outcome_at(AuthStateView::AwaitingCallback(listener), None, events, later).reply
            != Some(Reply::Acknowledged),
        events[later] is Request ==> auth_outcome_at(
            AuthStateView::AwaitingCallback(listener),
            None,
            events,
            later,
        ).reply == Some(Reply::Closed),
        !(auth_outcome_at(AuthStateView::AwaitingCallback(listener), None, events, later).action
            is Exchange),
        !(auth_outcome_at(AuthStateView::AwaitingCallback(listener), None, events, later).action
            is OpenListener),
{
    let start = AuthStateView::AwaitingCallback(listener);
    lemma_gone_after_acknowledgement(start, None, events, first, later);
}

proof fn lemma_gone_after_acknowledgement(
    state: AuthStateView,
    slot: Option<CredentialView>,
    events: Seq<AuthEventView>,
    first: int,
    upto: int,
)
    requires
        0 <= first < upto <= events.len(),
        auth_outcome_at(state, slot, events, first).reply == Some(Reply::Acknowledged),
    ensures
        !(auth_after(state, slot, events.take(upto)).0 is AwaitingCallback),
    decreases upto,
{
    assert(events.take(upto).drop_last() =~= events.take(upto - 1));
    assert(events.take(upto).last() == events[upto - 1]);
    if upto > first + 1 {
        lemma_gone_after_acknowledgement(state, slot, events, first, upto - 1);
    }
}

} // verus!
