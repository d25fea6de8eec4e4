use codex_agents::saved_accounts::{
    auth_dot_json_eq, clears_ephemeral_after_switch, find_saved_account_for_switch,
    is_managed_chatgpt_auth, is_same_saved_chatgpt_account, list_saved_chatgpt_account_auths,
    list_saved_chatgpt_accounts, saved_chatgpt_account_entries, saved_chatgpt_account_id,
    saved_chatgpt_account_id_for_runtime_auth, sync_registry_with_active_auth,
    upsert_saved_chatgpt_account_in_registry, AuthCredentialsStoreMode, AuthDotJson, AuthMode,
    CodexAuth, IdTokenInfo, TokenData,
};
use sha2::Digest;

struct Ids<'a> {
    account_id: Option<&'a str>,
    workspace_id: Option<&'a str>,
    user_id: Option<&'a str>,
    email: Option<&'a str>,
}

fn chatgpt_auth(ids: Ids, access_token: &str) -> AuthDotJson {
    AuthDotJson {
        auth_mode: Some(AuthMode::Chatgpt),
        openai_api_key: None,
        tokens: Some(TokenData {
            id_token: IdTokenInfo {
                email: ids.email.map(str::to_string),
                chatgpt_plan_type: Some("Plus".to_string()),
                chatgpt_user_id: ids.user_id.map(str::to_string),
                chatgpt_account_id: ids.workspace_id.map(str::to_string),
                raw_jwt: "header.payload.signature".to_string(),
            },
            access_token: access_token.to_string(),
            refresh_token: "refresh".to_string(),
            account_id: ids.account_id.map(str::to_string),
        }),
        last_refresh: None,
    }
}

fn with_account_id(id: &str, email: Option<&str>) -> AuthDotJson {
    chatgpt_auth(
        Ids { account_id: Some(id), workspace_id: None, user_id: None, email },
        "access",
    )
}

fn no_ids() -> Ids<'static> {
    Ids { account_id: None, workspace_id: None, user_id: None, email: None }
}

#[test]
fn account_id_prefers_account_then_workspace_then_user_then_email() {
    let all = chatgpt_auth(
        Ids {
            account_id: Some("acct"),
            workspace_id: Some("ws"),
            user_id: Some("user"),
            email: Some("a@example.com"),
        },
        "access",
    );
    assert_eq!(saved_chatgpt_account_id(&all), Some("account:acct".to_string()));

    let workspace = chatgpt_auth(
        Ids { workspace_id: Some("ws"), user_id: Some("user"), ..no_ids() },
        "access",
    );
    assert_eq!(saved_chatgpt_account_id(&workspace), Some("workspace:ws".to_string()));

    let user = chatgpt_auth(
        Ids { user_id: Some("user"), email: Some("a@example.com"), ..no_ids() },
        "access",
    );
    assert_eq!(saved_chatgpt_account_id(&user), Some("user:user".to_string()));

    let email = chatgpt_auth(Ids { email: Some("a@example.com"), ..no_ids() }, "access");
    assert_eq!(saved_chatgpt_account_id(&email), Some("email:a@example.com".to_string()));
}

#[test]
fn account_id_falls_back_to_the_token_fingerprint() {
    let auth = chatgpt_auth(no_ids(), "access");
    let digest = sha2::Sha256::digest("header.payload.signature".as_bytes());
    let hex: String = digest.iter().map(|b| format!("{b:02x}")).collect();
    let expected = format!("token:{}", &hex[..16]);
    assert_eq!(saved_chatgpt_account_id(&auth), Some(expected.clone()));
    assert_eq!(expected.len(), "token:".len() + 16);
    assert_ne!(expected, "token:header.payload.s");
}

#[test]
fn api_key_logins_have_no_account_id() {
    let mut auth = with_account_id("acct", None);
    auth.auth_mode = Some(AuthMode::ApiKey);
    assert!(!is_managed_chatgpt_auth(&auth));
    assert_eq!(saved_chatgpt_account_id(&auth), None);

    let mut implied = with_account_id("acct", None);
    implied.auth_mode = None;
    implied.openai_api_key = Some("sk-test".to_string());
    assert!(!is_managed_chatgpt_auth(&implied));
    assert_eq!(saved_chatgpt_account_id(&implied), None);

    let mut default_mode = with_account_id("acct", None);
    default_mode.auth_mode = None;
    assert!(is_managed_chatgpt_auth(&default_mode));

    let mut no_tokens = with_account_id("acct", None);
    no_tokens.tokens = None;
    assert_eq!(saved_chatgpt_account_id(&no_tokens), None);
}

#[test]
fn same_account_by_id_or_by_first_shared_field() {
    let a = with_account_id("acct", Some("a@example.com"));
    let b = chatgpt_auth(
        Ids { account_id: Some("acct"), ..no_ids() },
        "other-access",
    );
    assert!(is_same_saved_chatgpt_account(&a, &b));

    let c = with_account_id("other", Some("a@example.com"));
    assert!(!is_same_saved_chatgpt_account(&a, &c));

    let only_email = chatgpt_auth(Ids { email: Some("e@example.com"), ..no_ids() }, "x");
    let user_and_email = chatgpt_auth(
        Ids { user_id: Some("u"), email: Some("e@example.com"), ..no_ids() },
        "y",
    );
    assert!(is_same_saved_chatgpt_account(&only_email, &user_and_email));
    assert!(is_same_saved_chatgpt_account(&user_and_email, &only_email));

    let other_user = chatgpt_auth(
        Ids { user_id: Some("v"), email: Some("e@example.com"), ..no_ids() },
        "z",
    );
    assert!(!is_same_saved_chatgpt_account(&user_and_email, &other_user));

    let mut api = with_account_id("acct", None);
    api.auth_mode = Some(AuthMode::ApiKey);
    assert!(!is_same_saved_chatgpt_account(&api, &a));
    assert!(is_same_saved_chatgpt_account(&a, &a));
}

#[test]
fn upsert_appends_replaces_and_skips() {
    let mut registry = Vec::new();
    let first = with_account_id("one", Some("one@example.com"));
    assert!(upsert_saved_chatgpt_account_in_registry(&mut registry, &first));
    assert_eq!(registry.len(), 1);

    assert!(!upsert_saved_chatgpt_account_in_registry(&mut registry, &first));
    assert_eq!(registry.len(), 1);

    let refreshed = chatgpt_auth(
        Ids { account_id: Some("one"), email: Some("one@example.com"), ..no_ids() },
        "new-access",
    );
    assert!(upsert_saved_chatgpt_account_in_registry(&mut registry, &refreshed));
    assert_eq!(registry.len(), 1);
    assert!(auth_dot_json_eq(&registry[0], &refreshed));

    let second = with_account_id("two", None);
    assert!(upsert_saved_chatgpt_account_in_registry(&mut registry, &second));
    assert_eq!(registry.len(), 2);
    assert!(auth_dot_json_eq(&registry[1], &second));

    let mut api = with_account_id("three", None);
    api.auth_mode = Some(AuthMode::ApiKey);
    assert!(!upsert_saved_chatgpt_account_in_registry(&mut registry, &api));
    assert_eq!(registry.len(), 2);
}

#[test]
fn sync_records_only_managed_active_logins() {
    let mut registry = Vec::new();
    assert!(!sync_registry_with_active_auth(&mut registry, None));
    let mut api = with_account_id("k", None);
    api.auth_mode = Some(AuthMode::ApiKey);
    assert!(!sync_registry_with_active_auth(&mut registry, Some(&api)));
    assert!(registry.is_empty());
    let active = with_account_id("active", None);
    assert!(sync_registry_with_active_auth(&mut registry, Some(&active)));
    assert_eq!(registry.len(), 1);
    assert!(!sync_registry_with_active_auth(&mut registry, Some(&active)));
}

#[test]
fn listing_puts_active_first_then_email_then_id() {
    let registry = vec![
        with_account_id("b", Some("z@example.com")),
        with_account_id("c", None),
        with_account_id("a", Some("m@example.com")),
        with_account_id("d", Some("m@example.com")),
        without_tokens(chatgpt_auth(no_ids(), "x")),
    ];
    let runtime = CodexAuth::Chatgpt { current: Some(with_account_id("d", Some("m@example.com"))) };
    let listed = list_saved_chatgpt_accounts(&registry, Some(&runtime));
    let ids: Vec<&str> = listed.iter().map(|a| a.id.as_str()).collect();
    assert_eq!(ids, vec!["account:d", "account:c", "account:a", "account:b"]);
    assert!(listed[0].is_active);
    assert!(listed[1..].iter().all(|a| !a.is_active));
    assert_eq!(listed[0].email.as_deref(), Some("m@example.com"));
    assert_eq!(listed[0].account_id.as_deref(), Some("d"));
    assert_eq!(listed[0].plan_type.as_deref(), Some("Plus"));

    let none_active = list_saved_chatgpt_accounts(&registry, None);
    let ids: Vec<&str> = none_active.iter().map(|a| a.id.as_str()).collect();
    assert_eq!(ids, vec!["account:c", "account:a", "account:d", "account:b"]);
}

fn without_tokens(mut auth: AuthDotJson) -> AuthDotJson {
    auth.tokens = None;
    auth
}

#[test]
fn listing_with_logins_carries_each_stored_login() {
    let registry = vec![with_account_id("b", None), with_account_id("a", None)];
    let listed = list_saved_chatgpt_account_auths(&registry, None);
    assert_eq!(listed.len(), 2);
    assert_eq!(listed[0].account.id, "account:a");
    match &listed[0].auth {
        CodexAuth::Chatgpt { current: Some(a) } => assert!(auth_dot_json_eq(a, &registry[1])),
        _ => panic!("expected a ChatGPT login"),
    }
    let entries = saved_chatgpt_account_entries(&registry, Some("account:b"));
    assert_eq!(entries[0].account.id, "account:b");
    assert!(entries[0].account.is_active);
}

#[test]
fn runtime_account_id_only_for_chatgpt_logins() {
    let chatgpt = CodexAuth::Chatgpt { current: Some(with_account_id("x", None)) };
    assert_eq!(saved_chatgpt_account_id_for_runtime_auth(&chatgpt), Some("account:x".to_string()));
    let empty = CodexAuth::Chatgpt { current: None };
    assert_eq!(saved_chatgpt_account_id_for_runtime_auth(&empty), None);
    let api = CodexAuth::ApiKey { api_key: "sk".to_string() };
    assert_eq!(saved_chatgpt_account_id_for_runtime_auth(&api), None);
    assert_eq!(saved_chatgpt_account_id_for_runtime_auth(&CodexAuth::AgentIdentity), None);
}

#[test]
fn switch_finds_saved_account_or_names_the_missing_id() {
    let registry = vec![with_account_id("one", None), with_account_id("two", None)];
    let found = find_saved_account_for_switch(
        vec![with_account_id("one", None), with_account_id("two", None)],
        "account:two",
    )
    .unwrap();
    assert!(auth_dot_json_eq(&found, &registry[1]));
    let missing = find_saved_account_for_switch(registry, "account:three");
    assert_eq!(
        missing.unwrap_err(),
        "saved ChatGPT account not found: account:three".to_string()
    );
}

#[test]
fn recorded_account_can_be_switched_to() {
    let mut registry = vec![with_account_id("one", None)];
    let new_login = chatgpt_auth(Ids { email: Some("new@example.com"), ..no_ids() }, "t");
    assert!(upsert_saved_chatgpt_account_in_registry(&mut registry, &new_login));
    let id = saved_chatgpt_account_id(&new_login).unwrap();
    let found = find_saved_account_for_switch(registry, &id).unwrap();
    assert_eq!(saved_chatgpt_account_id(&found), Some(id));
}

#[test]
fn ephemeral_store_keeps_its_login_after_switch() {
    assert!(!clears_ephemeral_after_switch(AuthCredentialsStoreMode::Ephemeral));
    assert!(clears_ephemeral_after_switch(AuthCredentialsStoreMode::File));
    assert!(clears_ephemeral_after_switch(AuthCredentialsStoreMode::Keyring));
    assert!(clears_ephemeral_after_switch(AuthCredentialsStoreMode::Auto));
}

#[test]
fn listing_keeps_registry_order_among_equal_accounts() {
    let registry = vec![
        chatgpt_auth(Ids { account_id: Some("same"), ..no_ids() }, "first"),
        with_account_id("other", Some("a@example.com")),
        chatgpt_auth(Ids { account_id: Some("same"), ..no_ids() }, "second"),
    ];
    let listed = list_saved_chatgpt_account_auths(&registry, None);
    let tokens: Vec<&str> = listed
        .iter()
        .map(|entry| match &entry.auth {
            CodexAuth::Chatgpt { current: Some(a) } => a.tokens.as_ref().unwrap().access_token.as_str(),
            _ => panic!("expected a ChatGPT login"),
        })
        .collect();
    assert_eq!(tokens, vec!["first", "second", "access"]);
}
