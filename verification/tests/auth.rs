use chill::auth::{
    AuthAction, AuthConfig, AuthError, AuthEvent, AuthStep, AuthorizationFlow,
    AuthorizationRequest,
};
use chill::credential::{Credential, CredentialSlot, Timestamp};
use chill::listener::{CallbackRequest, Method, RedirectTarget, Reply};

const NOW: Timestamp = Timestamp { secs: 1_700_000_000, nanos: 0 };

fn config() -> AuthConfig {
    AuthConfig {
        redirect: RedirectTarget::new(8000, "/callback".to_string()).unwrap(),
        scopes: vec![
            "user-read-currently-playing".to_string(),
            "app-remote-control".to_string(),
            "user-modify-playback-state".to_string(),
            "user-read-playback-state".to_string(),
        ],
        show_dialog: true,
    }
}

fn credential(token: &str, seconds_left: i64) -> Credential {
    Credential {
        access_token: token.to_string(),
        expires_in: 3600,
        expires_at: Some(Timestamp { secs: NOW.secs + seconds_left, nanos: 0 }),
        refresh_token: Some("refresh".to_string()),
        scopes: vec!["app-remote-control".to_string()],
    }
}

fn callback(code: &str) -> AuthEvent {
    AuthEvent::Request(CallbackRequest {
        method: Method::Get,
        path: "/callback".to_string(),
        code: Some(code.to_string()),
    })
}

fn wait() -> AuthStep {
    AuthStep { action: AuthAction::Wait, reply: None }
}

fn every_event() -> Vec<AuthEvent> {
    vec![
        AuthEvent::Refreshed(credential("r", 3600)),
        AuthEvent::RefreshFailed,
        callback("c"),
        AuthEvent::ListenerFailed,
        AuthEvent::Exchanged(credential("e", 3600)),
        AuthEvent::ExchangeFailed,
    ]
}

#[test]
fn a_valid_credential_needs_no_call() {
    let slot = CredentialSlot::with(Some(credential("valid", 3600)));
    let (flow, action) = AuthorizationFlow::enter(&slot, NOW, true, &config());
    assert_eq!(action, AuthAction::Proceed);
    assert!(flow.is_authorized());
    assert!(!flow.is_listening());
    assert_eq!(flow.failure(), None);
    let (flow, action) = AuthorizationFlow::enter(&slot, NOW, false, &config());
    assert_eq!(action, AuthAction::Proceed);
    assert!(flow.is_authorized());
}

#[test]
fn an_expired_credential_is_refreshed() {
    let mut slot = CredentialSlot::with(Some(credential("old", 5)));
    let (mut flow, action) = AuthorizationFlow::enter(&slot, NOW, true, &config());
    assert_eq!(action, AuthAction::Refresh(credential("old", 5)));
    assert!(!flow.is_authorized());
    assert!(!flow.is_listening());
    let step = flow.step(&mut slot, AuthEvent::Refreshed(credential("new", 3600)));
    assert_eq!(step, AuthStep { action: AuthAction::Proceed, reply: None });
    assert!(flow.is_authorized());
    assert_eq!(slot.get(), Some(credential("new", 3600)));
}

#[test]
fn refresh_is_asked_for_once_and_no_listener_is_opened() {
    let mut slot = CredentialSlot::with(Some(credential("old", -100)));
    let (mut flow, first) = AuthorizationFlow::enter(&slot, NOW, true, &config());
    let mut actions = vec![first];
    let mut replies = Vec::new();
    let mut events = vec![callback("early"), AuthEvent::ExchangeFailed, AuthEvent::ListenerFailed];
    events.extend(every_event());
    events.extend(every_event());
    for event in events {
        let step = flow.step(&mut slot, event);
        actions.push(step.action);
        replies.extend(step.reply);
    }
    let refreshes = actions.iter().filter(|a| matches!(a, AuthAction::Refresh(_))).count();
    let listeners = actions.iter().filter(|a| matches!(a, AuthAction::OpenListener(_))).count();
    let exchanges = actions.iter().filter(|a| matches!(a, AuthAction::Exchange(_))).count();
    assert_eq!(refreshes, 1);
    assert_eq!(listeners, 0);
    assert_eq!(exchanges, 0);
    assert!(replies.iter().all(|r| *r == Reply::Closed));
    assert!(flow.is_authorized());
    assert_eq!(slot.get(), Some(credential("r", 3600)));
}

#[test]
fn a_refused_refresh_ends_the_flow() {
    let mut slot = CredentialSlot::with(Some(credential("old", 0)));
    let (mut flow, _) = AuthorizationFlow::enter(&slot, NOW, true, &config());
    let step = flow.step(&mut slot, AuthEvent::RefreshFailed);
    assert_eq!(step, AuthStep { action: AuthAction::Abort(AuthError::RefreshFailed), reply: None });
    assert_eq!(flow.failure(), Some(AuthError::RefreshFailed));
    assert_eq!(slot.get(), Some(credential("old", 0)));
    // Not retried: a late success changes nothing.
    assert_eq!(flow.step(&mut slot, AuthEvent::Refreshed(credential("new", 3600))), wait());
    assert_eq!(flow.failure(), Some(AuthError::RefreshFailed));
    assert_eq!(slot.get(), Some(credential("old", 0)));
}

#[test]
fn without_a_user_an_empty_slot_fails_at_once() {
    let mut slot = CredentialSlot::new();
    let (mut flow, action) = AuthorizationFlow::enter(&slot, NOW, false, &config());
    assert_eq!(action, AuthAction::Abort(AuthError::CredentialUnavailable));
    assert_eq!(flow.failure(), Some(AuthError::CredentialUnavailable));
    assert!(!flow.is_listening());
    let step = flow.step(&mut slot, callback("abc"));
    assert_eq!(step, AuthStep { action: AuthAction::Wait, reply: Some(Reply::Closed) });
    for event in every_event() {
        let step = flow.step(&mut slot, event);
        assert_eq!(step.action, AuthAction::Wait);
        assert_ne!(step.reply, Some(Reply::Acknowledged));
    }
    assert_eq!(flow.failure(), Some(AuthError::CredentialUnavailable));
    assert_eq!(slot.get(), None);
}

#[test]
fn with_a_user_an_empty_slot_opens_the_listener() {
    let slot = CredentialSlot::new();
    let (flow, action) = AuthorizationFlow::enter(&slot, NOW, true, &config());
    assert_eq!(
        action,
        AuthAction::OpenListener(AuthorizationRequest {
            redirect_uri: "http://127.0.0.1:8000/callback".to_string(),
            scopes: config().scopes,
            show_dialog: true,
            port: 8000,
        })
    );
    assert!(flow.is_listening());
    assert!(!flow.is_authorized());
    assert_eq!(flow.failure(), None);
}

#[test]
fn the_playback_configuration() {
    let playback = AuthConfig::playback();
    assert_eq!(playback.redirect, RedirectTarget::new(8000, "/callback".to_string()).unwrap());
    assert_eq!(
        playback.scopes,
        vec![
            "user-read-currently-playing",
            "app-remote-control",
            "user-modify-playback-state",
            "user-read-playback-state",
        ]
    );
    assert!(playback.show_dialog);
    assert_eq!(
        playback.authorization_request().redirect_uri,
        "http://127.0.0.1:8000/callback"
    );
}

#[test]
fn the_request_is_built_from_the_configuration() {
    let config = AuthConfig {
        redirect: RedirectTarget::new(9, "/done".to_string()).unwrap(),
        scopes: vec![],
        show_dialog: false,
    };
    assert_eq!(
        config.authorization_request(),
        AuthorizationRequest {
            redirect_uri: "http://127.0.0.1:9/done".to_string(),
            scopes: vec![],
            show_dialog: false,
            port: 9,
        }
    );
}

#[test]
fn the_code_is_exchanged_for_a_credential() {
    let mut slot = CredentialSlot::new();
    let (mut flow, _) = AuthorizationFlow::enter(&slot, NOW, true, &config());
    let step = flow.step(&mut slot, callback("the-code"));
    assert_eq!(
        step,
        AuthStep {
            action: AuthAction::Exchange("the-code".to_string()),
            reply: Some(Reply::Acknowledged),
        }
    );
    assert!(!flow.is_listening());
    assert!(!flow.is_authorized());
    assert_eq!(slot.get(), None);
    let step = flow.step(&mut slot, AuthEvent::Exchanged(credential("fresh", 3600)));
    assert_eq!(step, AuthStep { action: AuthAction::Proceed, reply: None });
    assert!(flow.is_authorized());
    assert_eq!(slot.get(), Some(credential("fresh", 3600)));
}

#[test]
fn one_callback_is_accepted_and_a_second_is_not() {
    let mut slot = CredentialSlot::new();
    let (mut flow, _) = AuthorizationFlow::enter(&slot, NOW, true, &config());
    assert_eq!(flow.step(&mut slot, callback("one")).reply, Some(Reply::Acknowledged));
    let second = flow.step(&mut slot, callback("two"));
    assert_eq!(second, AuthStep { action: AuthAction::Wait, reply: Some(Reply::Closed) });
    flow.step(&mut slot, AuthEvent::Exchanged(credential("fresh", 3600)));
    let third = flow.step(&mut slot, callback("three"));
    assert_eq!(third, AuthStep { action: AuthAction::Wait, reply: Some(Reply::Closed) });
    assert_eq!(slot.get(), Some(credential("fresh", 3600)));
}

#[test]
fn requests_that_do_not_match_keep_the_listener_waiting() {
    let mut slot = CredentialSlot::new();
    let (mut flow, _) = AuthorizationFlow::enter(&slot, NOW, true, &config());
    let stray = AuthEvent::Request(CallbackRequest {
        method: Method::Get,
        path: "/favicon.ico".to_string(),
        code: None,
    });
    assert_eq!(
        flow.step(&mut slot, stray),
        AuthStep { action: AuthAction::Wait, reply: Some(Reply::NotFound) }
    );
    let bare = AuthEvent::Request(CallbackRequest {
        method: Method::Get,
        path: "/callback".to_string(),
        code: None,
    });
    assert_eq!(
        flow.step(&mut slot, bare),
        AuthStep { action: AuthAction::Wait, reply: Some(Reply::MissingCode) }
    );
    assert!(flow.is_listening());
    assert_eq!(flow.step(&mut slot, callback("late")).reply, Some(Reply::Acknowledged));
}

#[test]
fn a_refused_exchange_ends_the_flow() {
    let mut slot = CredentialSlot::new();
    let (mut flow, _) = AuthorizationFlow::enter(&slot, NOW, true, &config());
    flow.step(&mut slot, callback("bad-code"));
    let step = flow.step(&mut slot, AuthEvent::ExchangeFailed);
    assert_eq!(
        step,
        AuthStep { action: AuthAction::Abort(AuthError::ExchangeFailed), reply: None }
    );
    assert_eq!(flow.failure(), Some(AuthError::ExchangeFailed));
    assert_eq!(slot.get(), None);
    assert_eq!(flow.step(&mut slot, AuthEvent::Exchanged(credential("late", 3600))), wait());
    assert_eq!(slot.get(), None);
}

#[test]
fn a_failed_listener_ends_the_flow() {
    let mut slot = CredentialSlot::new();
    let (mut flow, _) = AuthorizationFlow::enter(&slot, NOW, true, &config());
    let step = flow.step(&mut slot, AuthEvent::ListenerFailed);
    assert_eq!(step, AuthStep { action: AuthAction::Abort(AuthError::ListenerError), reply: None });
    assert_eq!(flow.failure(), Some(AuthError::ListenerError));
    assert!(!flow.is_listening());
    assert_eq!(flow.step(&mut slot, callback("late")).reply, Some(Reply::Closed));
}

#[test]
fn results_that_nobody_waits_for_are_ignored() {
    let mut slot = CredentialSlot::new();
    let (mut flow, _) = AuthorizationFlow::enter(&slot, NOW, true, &config());
    // Waiting for the callback: no renewal and no exchange is under way.
    assert_eq!(flow.step(&mut slot, AuthEvent::Refreshed(credential("x", 3600))), wait());
    assert_eq!(flow.step(&mut slot, AuthEvent::RefreshFailed), wait());
    assert_eq!(flow.step(&mut slot, AuthEvent::Exchanged(credential("x", 3600))), wait());
    assert_eq!(flow.step(&mut slot, AuthEvent::ExchangeFailed), wait());
    assert_eq!(slot.get(), None);
    assert!(flow.is_listening());
    // Exchanging: the listener is gone, so its failure is no news.
    flow.step(&mut slot, callback("code"));
    assert_eq!(flow.step(&mut slot, AuthEvent::ListenerFailed), wait());
    assert_eq!(flow.step(&mut slot, AuthEvent::Refreshed(credential("x", 3600))), wait());
    assert_eq!(flow.failure(), None);
    assert_eq!(slot.get(), None);
}

#[test]
fn an_authorized_flow_stays_authorized() {
    let mut slot = CredentialSlot::with(Some(credential("valid", 3600)));
    let (mut flow, _) = AuthorizationFlow::enter(&slot, NOW, true, &config());
    for event in every_event() {
        let step = flow.step(&mut slot, event);
        assert_eq!(step.action, AuthAction::Wait);
    }
    assert!(flow.is_authorized());
    assert_eq!(slot.get(), Some(credential("valid", 3600)));
}

#[test]
fn the_margin_decides_between_use_and_refresh() {
    let config = config();
    let at_margin = CredentialSlot::with(Some(credential("c", 10)));
    let (_, action) = AuthorizationFlow::enter(&at_margin, NOW, true, &config);
    assert_eq!(action, AuthAction::Refresh(credential("c", 10)));
    let past_margin = CredentialSlot::with(Some(credential("c", 11)));
    let (_, action) = AuthorizationFlow::enter(&past_margin, NOW, true, &config);
    assert_eq!(action, AuthAction::Proceed);
}
