use codex_agents::account_picker::{
    SavedChatgptAccountRateLimitCacheEntry, SavedChatgptAccountRateLimitCacheUpdate,
};
use codex_agents::chat_widget::{
    codex_rate_limit_snapshot_index, rate_limit_name, sort_rate_limit_updates, AutoSwitchAction,
    ChatWidget, OpenAccountPicker, PlanType,
};
use codex_agents::clock::Timestamp;
use codex_agents::saved_accounts::{CodexAuth, SavedChatgptAccount, SavedChatgptAccountAuth};

const NOW: Timestamp = Timestamp { secs: 10_000, nanos: 0 };

fn account(id: &str, plan: Option<&str>, is_active: bool) -> SavedChatgptAccountAuth {
    SavedChatgptAccountAuth {
        account: SavedChatgptAccount {
            id: id.to_string(),
            email: Some(format!("{id}@example.com")),
            account_id: None,
            chatgpt_user_id: None,
            chatgpt_workspace_id: None,
            plan_type: plan.map(str::to_string),
            is_active,
        },
        auth: CodexAuth::Chatgpt { current: None },
    }
}

fn limits(five: Option<u8>, seven: Option<u8>) -> SavedChatgptAccountRateLimitCacheEntry {
    SavedChatgptAccountRateLimitCacheEntry {
        five_hour_limit_remaining_percent: five,
        seven_day_limit_remaining_percent: seven,
        captured_at: NOW,
    }
}

fn widget_with(cache: &[(&str, SavedChatgptAccountRateLimitCacheEntry)]) -> ChatWidget {
    let mut w = ChatWidget::new(Some(PlanType::Plus));
    for (id, entry) in cache {
        w.saved_chatgpt_account_rate_limit_cache.insert(id.to_string(), *entry);
    }
    w
}

#[test]
fn nothing_without_an_active_account_or_cached_limits() {
    let mut w = widget_with(&[]);
    let accounts = vec![account("a", None, false)];
    assert!(matches!(
        w.maybe_auto_switch_saved_chatgpt_account(&accounts, NOW),
        AutoSwitchAction::Nothing
    ));
    let accounts = vec![account("a", None, true)];
    assert!(matches!(
        w.maybe_auto_switch_saved_chatgpt_account(&accounts, NOW),
        AutoSwitchAction::Nothing
    ));
}

#[test]
fn pro_accounts_never_switch() {
    let mut w = widget_with(&[("a", limits(Some(0), Some(0))), ("b", limits(Some(90), Some(90)))]);
    w.saved_chatgpt_account_zero_limit_notice_account_id = Some("a".to_string());
    let accounts = vec![account("a", Some("PRO"), true), account("b", None, false)];
    assert!(matches!(
        w.maybe_auto_switch_saved_chatgpt_account(&accounts, NOW),
        AutoSwitchAction::Nothing
    ));
    assert_eq!(w.saved_chatgpt_account_zero_limit_notice_account_id, None);

    let mut pro_plan = widget_with(&[("a", limits(Some(0), Some(0))), ("b", limits(Some(90), Some(90)))]);
    pro_plan.plan_type = Some(PlanType::Pro);
    let accounts = vec![account("a", None, true), account("b", None, false)];
    assert!(matches!(
        pro_plan.maybe_auto_switch_saved_chatgpt_account(&accounts, NOW),
        AutoSwitchAction::Nothing
    ));
}

#[test]
fn healthy_active_account_stays() {
    let mut w = widget_with(&[("a", limits(Some(3), Some(3))), ("b", limits(Some(90), Some(90)))]);
    let accounts = vec![account("a", None, true), account("b", None, false)];
    assert!(matches!(
        w.maybe_auto_switch_saved_chatgpt_account(&accounts, NOW),
        AutoSwitchAction::Nothing
    ));
}

#[test]
fn low_active_account_first_refreshes_unknown_limits() {
    let mut w = widget_with(&[("a", limits(Some(2), Some(50)))]);
    let accounts = vec![account("a", None, true), account("b", None, false), account("c", None, false)];
    match w.maybe_auto_switch_saved_chatgpt_account(&accounts, NOW) {
        AutoSwitchAction::RefreshLimits { accounts } => {
            let ids: Vec<&str> = accounts.iter().map(|a| a.account.id.as_str()).collect();
            assert_eq!(ids, vec!["b", "c"]);
        }
        other => panic!("unexpected {other:?}"),
    }
    assert!(w.saved_chatgpt_account_rate_limit_pending_ids.contains_key("b"));
    assert!(w.saved_chatgpt_account_rate_limit_pending_ids.contains_key("c"));
    assert!(!w.saved_chatgpt_account_rate_limit_pending_ids.contains_key("a"));
    // The fetch is pending: asking again starts no new fetch.
    assert!(!matches!(
        w.maybe_auto_switch_saved_chatgpt_account(&accounts, NOW),
        AutoSwitchAction::RefreshLimits { .. }
    ));
}

#[test]
fn stale_limits_are_fetched_again() {
    let mut stale = limits(Some(90), Some(90));
    stale.captured_at = Timestamp { secs: NOW.secs - 16 * 60, nanos: 0 };
    let mut w = widget_with(&[("a", limits(None, Some(1))), ("b", stale)]);
    let accounts = vec![account("a", None, true), account("b", None, false)];
    match w.maybe_auto_switch_saved_chatgpt_account(&accounts, NOW) {
        AutoSwitchAction::RefreshLimits { accounts } => {
            assert_eq!(accounts.len(), 1);
            assert_eq!(accounts[0].account.id, "b");
        }
        other => panic!("unexpected {other:?}"),
    }
}

#[test]
fn switches_to_the_account_with_most_five_hour_left() {
    let mut w = widget_with(&[
        ("a", limits(Some(1), Some(50))),
        ("b", limits(Some(40), Some(90))),
        ("c", limits(Some(60), Some(1))),
        ("d", limits(Some(60), Some(5))),
        ("e", limits(Some(99), Some(0))),
        ("f", limits(Some(0), Some(99))),
    ]);
    let accounts = vec![
        account("a", None, true),
        account("b", None, false),
        account("d", None, false),
        account("c", None, false),
        account("e", None, false),
        account("f", None, false),
    ];
    match w.maybe_auto_switch_saved_chatgpt_account(&accounts, NOW) {
        AutoSwitchAction::Switch { account_id, label, message } => {
            assert_eq!(account_id, "c");
            assert_eq!(label, "c@example.com");
            assert_eq!(
                message,
                "Auto-switching ChatGPT account because the current account fell below 2% on the 5h limit. Best available account has 60% left on the 5h limit."
            );
        }
        other => panic!("unexpected {other:?}"),
    }
}

#[test]
fn switch_message_names_both_limits() {
    let mut w = widget_with(&[("a", limits(Some(0), Some(2))), ("b", limits(Some(7), Some(7)))]);
    let accounts = vec![account("a", None, true), account("b", None, false)];
    match w.maybe_auto_switch_saved_chatgpt_account(&accounts, NOW) {
        AutoSwitchAction::Switch { message, .. } => assert_eq!(
            message,
            "Auto-switching ChatGPT account because the current account fell below 2% on the 5h and 7d limits. Best available account has 7% left on the 5h limit."
        ),
        other => panic!("unexpected {other:?}"),
    }
    let mut seven = widget_with(&[("a", limits(Some(50), Some(0))), ("b", limits(Some(7), Some(7)))]);
    match seven.maybe_auto_switch_saved_chatgpt_account(&accounts, NOW) {
        AutoSwitchAction::Switch { message, .. } => assert!(message.contains("on the 7d limit.")),
        other => panic!("unexpected {other:?}"),
    }
}

#[test]
fn notice_without_candidates_is_given_once() {
    let mut w = widget_with(&[("a", limits(Some(0), Some(0))), ("b", limits(Some(0), Some(50)))]);
    let accounts = vec![account("a", None, true), account("b", None, false)];
    match w.maybe_auto_switch_saved_chatgpt_account(&accounts, NOW) {
        AutoSwitchAction::Notice { message } => assert_eq!(
            message,
            "No saved ChatGPT accounts have both >0% left on the 5h limit and at least 1% left on the 7d limit."
        ),
        other => panic!("unexpected {other:?}"),
    }
    assert_eq!(w.saved_chatgpt_account_zero_limit_notice_account_id.as_deref(), Some("a"));
    assert!(matches!(
        w.maybe_auto_switch_saved_chatgpt_account(&accounts, NOW),
        AutoSwitchAction::Nothing
    ));
}

#[test]
fn opening_the_picker_reports_errors_and_empty_registries() {
    let mut w = widget_with(&[]);
    match w.open_saved_chatgpt_account_picker(Err("disk full".to_string()), NOW) {
        OpenAccountPicker::Error { message } => {
            assert_eq!(message, "Failed to load saved ChatGPT accounts: disk full")
        }
        other => panic!("unexpected {other:?}"),
    }
    match w.open_saved_chatgpt_account_picker(Ok(Vec::new()), NOW) {
        OpenAccountPicker::Info { message } => assert_eq!(
            message,
            "No saved ChatGPT accounts found. Run `codex login` to add one."
        ),
        other => panic!("unexpected {other:?}"),
    }
}

#[test]
fn opening_the_picker_seeds_the_active_account_and_fetches_the_rest() {
    let mut w = widget_with(&[]);
    w.rate_limit_snapshots_by_limit_id.insert("codex".to_string(), limits(Some(33), Some(44)));
    let accounts = vec![account("a", None, true), account("b", None, false)];
    match w.open_saved_chatgpt_account_picker(Ok(accounts), NOW) {
        OpenAccountPicker::Show { params, refresh } => {
            assert_eq!(refresh.len(), 1);
            assert_eq!(refresh[0].account.id, "b");
            assert_eq!(params.items.len(), 2);
            assert_eq!(params.items[0].description.as_deref(), Some("5h 33% · 7d 44%"));
            assert_eq!(params.items[1].description.as_deref(), Some("Loading 5h/7d..."));
        }
        other => panic!("unexpected {other:?}"),
    }
    assert!(w.saved_chatgpt_account_rate_limit_cache.contains_key("a"));
    assert!(w.saved_chatgpt_account_rate_limit_pending_ids.contains_key("b"));
}

#[test]
fn loaded_limits_update_cache_and_picker() {
    let mut w = widget_with(&[("a", limits(Some(1), Some(90)))]);
    w.saved_chatgpt_account_rate_limit_pending_ids.insert("b".to_string(), ());
    w.saved_chatgpt_account_rate_limit_pending_ids.insert("c".to_string(), ());
    let updates = vec![
        SavedChatgptAccountRateLimitCacheUpdate {
            account_id: "b".to_string(),
            limits: Some(limits(Some(70), Some(70))),
        },
        SavedChatgptAccountRateLimitCacheUpdate { account_id: "c".to_string(), limits: None },
    ];
    let auths = vec![account("a", None, true), account("b", None, false), account("c", None, false)];
    let shown: Vec<SavedChatgptAccount> = auths.iter().map(|a| a.account.clone()).collect();
    let loaded = w.on_saved_chatgpt_account_rate_limits_loaded(&updates, Some(shown), Some(auths), NOW);
    assert!(!w.saved_chatgpt_account_rate_limit_pending_ids.contains_key("b"));
    assert!(w.saved_chatgpt_account_rate_limit_cache.contains_key("b"));
    assert!(!w.saved_chatgpt_account_rate_limit_cache.contains_key("c"));
    let picker = loaded.picker.expect("picker");
    assert_eq!(picker.items[1].description.as_deref(), Some("5h 70% · 7d 70%"));
    assert_eq!(picker.items[2].description, None);
    match loaded.auto_switch {
        AutoSwitchAction::RefreshLimits { accounts } => {
            assert_eq!(accounts.len(), 1);
            assert_eq!(accounts[0].account.id, "c");
        }
        other => panic!("unexpected {other:?}"),
    }
}

#[test]
fn switching_accounts_resets_the_limit_state() {
    let mut w = widget_with(&[("a", limits(Some(1), Some(1)))]);
    w.rate_limit_snapshots_by_limit_id.insert("codex".to_string(), limits(Some(1), Some(1)));
    w.saved_chatgpt_account_rate_limit_pending_ids.insert("b".to_string(), ());
    w.saved_chatgpt_account_zero_limit_notice_account_id = Some("a".to_string());
    let shown = w.refresh_auth_state_after_account_switch("b@example.com", Some(PlanType::Team));
    assert_eq!(shown, "Switched ChatGPT account to b@example.com.");
    assert_eq!(w.plan_type, Some(PlanType::Team));
    assert!(!w.rate_limit_snapshots_by_limit_id.contains_key("codex"));
    assert!(!w.saved_chatgpt_account_rate_limit_pending_ids.contains_key("b"));
    assert_eq!(w.saved_chatgpt_account_zero_limit_notice_account_id, None);
    assert!(w.saved_chatgpt_account_rate_limit_cache.contains_key("a"));
}

#[test]
fn updates_sort_by_account_id_and_codex_limit_is_found() {
    let sorted = sort_rate_limit_updates(vec![
        SavedChatgptAccountRateLimitCacheUpdate { account_id: "b".to_string(), limits: None },
        SavedChatgptAccountRateLimitCacheUpdate { account_id: "a".to_string(), limits: None },
        SavedChatgptAccountRateLimitCacheUpdate { account_id: "ab".to_string(), limits: None },
    ]);
    let ids: Vec<&str> = sorted.iter().map(|u| u.account_id.as_str()).collect();
    assert_eq!(ids, vec!["a", "ab", "b"]);

    assert_eq!(
        codex_rate_limit_snapshot_index(&vec![Some("other".to_string()), Some("CODEX".to_string())]),
        Some(1)
    );
    assert_eq!(codex_rate_limit_snapshot_index(&vec![Some("x".to_string()), None]), Some(1));
    assert_eq!(codex_rate_limit_snapshot_index(&vec![Some("x".to_string())]), None);
    assert_eq!(rate_limit_name(None), "codex");
    assert_eq!(rate_limit_name(Some("gpt".to_string())), "gpt");
}
