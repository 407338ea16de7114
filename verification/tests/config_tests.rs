use at_tui::config::{AccountConfig, AccountError, Session};

fn session(handle: &str, did: &str, access: &str) -> Session {
    Session {
        service: "https://bsky.social".into(),
        handle: handle.into(),
        did: did.into(),
        access_jwt: access.into(),
        refresh_jwt: format!("{access}-refresh"),
    }
}

fn full_session(handle: &str, did: &str, access: &str, refresh: &str) -> Session {
    Session {
        service: "https://bsky.social".into(),
        handle: handle.into(),
        did: did.into(),
        access_jwt: access.into(),
        refresh_jwt: refresh.into(),
    }
}

#[test]
fn saves_and_loads_session() {
    let session = full_session("alice.test", "did:plc:alice", "access", "refresh");
    let mut config = AccountConfig::empty();
    config.save_session(&session);
    assert_eq!(config.active_account().unwrap().session, session);
}

#[test]
fn saves_switches_and_removes_accounts() {
    let alice = full_session("alice.test", "did:plc:alice", "alice-access", "alice-refresh");
    let bob = full_session("bob.test", "did:plc:bob", "bob-access", "bob-refresh");
    let mut config = AccountConfig::empty();

    config.upsert_account("main".into(), alice.clone(), true);
    config.upsert_account("alt".into(), bob.clone(), true);

    assert_eq!(config.active_account().unwrap().session, bob);
    assert_eq!(config.switch_account("main").unwrap().session, alice);
    assert_eq!(config.accounts.len(), 2);
    assert_eq!(config.remove_account(Some("main")).unwrap().unwrap().label, "main");
    assert_eq!(config.accounts.len(), 1);
    // The active account was removed, so the first remaining one takes over.
    assert_eq!(config.active.as_deref(), Some("alt"));
}

#[test]
fn refreshed_session_updates_same_account() {
    let session = full_session("alice.test", "did:plc:alice", "old-access", "old-refresh");
    let mut config = AccountConfig::empty();
    config.upsert_account("main".into(), session.clone(), true);

    let refreshed = Session {
        access_jwt: "new-access".into(),
        refresh_jwt: "new-refresh".into(),
        ..session
    };
    config.save_session(&refreshed);

    assert_eq!(config.active.as_deref(), Some("main"));
    assert_eq!(config.accounts.len(), 1);
    assert_eq!(config.accounts[0].label, "main");
    assert_eq!(config.accounts[0].session.access_jwt, "new-access");
    assert_eq!(config.accounts[0].session.refresh_jwt, "new-refresh");
}

#[test]
fn a_new_session_is_labelled_by_its_handle_and_not_made_active() {
    let mut config = AccountConfig::empty();
    config.upsert_account("main".into(), session("alice.test", "did:plc:alice", "a"), true);
    config.save_session(&session("bob.test", "did:plc:bob", "b"));
    assert_eq!(config.accounts.len(), 2);
    assert_eq!(config.accounts[1].label, "bob.test");
    assert_eq!(config.active.as_deref(), Some("main"));
}

#[test]
fn legacy_session_becomes_the_active_account() {
    let legacy = session("alice.test", "did:plc:alice", "access");
    let config = AccountConfig::from_legacy_session(legacy.clone());
    assert_eq!(config.active.as_deref(), Some("alice.test"));
    assert_eq!(config.accounts.len(), 1);
    assert_eq!(config.active_account().unwrap().session, legacy);
}

#[test]
fn account_errors_are_reported() {
    let mut config = AccountConfig::empty();
    assert_eq!(config.active_account(), Err(AccountError::NoActiveAccount));
    assert_eq!(
        config.remove_account(None),
        Err(AccountError::NoActiveAccountToRemove)
    );
    assert_eq!(
        config.switch_account("ghost"),
        Err(AccountError::AccountNotFound("ghost".into()))
    );
    config.active = Some("gone".into());
    assert_eq!(
        config.active_account(),
        Err(AccountError::ActiveAccountMissing("gone".into()))
    );
    assert_eq!(
        AccountError::AccountNotFound("x".into()).message(),
        "account `x` was not found"
    );
    assert_eq!(config.remove_account(Some("nobody")), Ok(None));
}

#[test]
fn accounts_are_found_by_handle_or_did() {
    let mut config = AccountConfig::empty();
    config.upsert_account("main".into(), session("alice.test", "did:plc:alice", "a"), false);
    config.upsert_account("alt".into(), session("bob.test", "did:plc:bob", "b"), false);
    assert_eq!(config.active.as_deref(), Some("main"));
    assert_eq!(config.switch_account("did:plc:bob").unwrap().label, "alt");
    assert_eq!(config.switch_account("alice.test").unwrap().label, "main");
}
