use codex_agents::account_picker::{
    account_detail_parts, account_label, account_row_description, account_search_value,
    account_selected_description, account_selection_view_id, compact_limit_summary_parts,
    picker_entry_for_saved_account, selection_item_for_account, truncate_id, AppEvent,
    SavedChatgptAccountPickerEntry, SavedChatgptAccountRateLimitCacheEntry,
    RATE_LIMIT_STALE_THRESHOLD_MINUTES,
};
use codex_agents::clock::{elapsed_nanos, Timestamp};
use codex_agents::saved_accounts::SavedChatgptAccount;

fn bare_account(id: &str) -> SavedChatgptAccount {
    SavedChatgptAccount {
        id: id.to_string(),
        email: None,
        account_id: None,
        chatgpt_user_id: None,
        chatgpt_workspace_id: None,
        plan_type: None,
        is_active: false,
    }
}

#[test]
fn truncate_id_keeps_short_ids_and_shortens_long_ones() {
    assert_eq!(truncate_id(""), "");
    assert_eq!(truncate_id("abcdefghijkl"), "abcdefghijkl");
    assert_eq!(truncate_id("abcdefghijklm"), "abcdefghijk...");
    assert_eq!(truncate_id("next-workspace"), "next-worksp...");
    assert_eq!(truncate_id("ééééééééééééé"), "ééééééééééé...");
}

#[test]
fn label_prefers_email_then_account_then_user_then_short_id() {
    let mut a = bare_account("account:0123456789abcdef");
    assert_eq!(account_label(&a), "account:012...");
    a.chatgpt_user_id = Some("user-1".to_string());
    assert_eq!(account_label(&a), "user-1");
    a.account_id = Some("acct-1".to_string());
    assert_eq!(account_label(&a), "acct-1");
    a.email = Some("me@example.com".to_string());
    assert_eq!(account_label(&a), "me@example.com");
}

#[test]
fn compact_summary_lists_known_limits() {
    assert_eq!(compact_limit_summary_parts(None, None), Vec::<String>::new());
    assert_eq!(compact_limit_summary_parts(Some(7), None), vec!["5h 7%".to_string()]);
    assert_eq!(compact_limit_summary_parts(None, Some(100)), vec!["7d 100%".to_string()]);
    assert_eq!(
        compact_limit_summary_parts(Some(0), Some(255)),
        vec!["5h 0%".to_string(), "7d 255%".to_string()]
    );
}

#[test]
fn detail_parts_show_plan_and_shortened_ids() {
    let mut a = bare_account("x");
    assert!(account_detail_parts(&a).is_empty());
    a.plan_type = Some("Team".to_string());
    a.chatgpt_workspace_id = Some("workspace-0001".to_string());
    a.account_id = Some("acct".to_string());
    assert_eq!(
        account_detail_parts(&a),
        vec!["Team".to_string(), "WS workspace-0...".to_string(), "Acct acct".to_string()]
    );
}

#[test]
fn search_value_joins_present_fields() {
    let mut a = bare_account("id-1");
    assert_eq!(account_search_value(&a), "id-1");
    a.plan_type = Some("Pro".to_string());
    a.email = Some("e@x".to_string());
    assert_eq!(account_search_value(&a), "id-1 e@x Pro");
}

#[test]
fn row_description_covers_loading_and_empty() {
    let a = bare_account("x");
    assert_eq!(account_row_description(&a, None, None, false), None);
    assert_eq!(
        account_row_description(&a, None, None, true),
        Some("Loading 5h/7d...".to_string())
    );
    assert_eq!(
        account_row_description(&a, Some(3), None, true),
        Some("5h 3%".to_string())
    );
    let mut p = bare_account("x");
    p.plan_type = Some("Plus".to_string());
    assert_eq!(account_row_description(&p, None, None, false), Some("Plus".to_string()));
}

#[test]
fn selected_description_for_current_and_other_accounts() {
    let mut current = bare_account("x");
    current.is_active = true;
    assert_eq!(account_selected_description(&current, "me", None, None, false), "Current account");
    assert_eq!(
        account_selected_description(&current, "me", Some(1), Some(2), false),
        "Current account · 5h 1% · 7d 2%"
    );
    let other = bare_account("y");
    assert_eq!(
        account_selected_description(&other, "you", None, None, false),
        "Press Enter to switch to you."
    );
    assert_eq!(
        account_selected_description(&other, "you", None, Some(50), false),
        "Press Enter to switch to you. 7d 50%"
    );
}

#[test]
fn current_account_row_has_no_switch_action() {
    let mut current = bare_account("account:me");
    current.is_active = true;
    let item = selection_item_for_account(SavedChatgptAccountPickerEntry {
        account: current,
        five_hour_limit_remaining_percent: None,
        seven_day_limit_remaining_percent: None,
        limits_loading: false,
    });
    assert!(item.actions.is_empty());
    assert!(item.is_current);
    assert_eq!(item.shortcut_actions.len(), 1);
    assert_eq!(item.shortcut_actions[0].key, '-');
    assert_eq!(
        item.shortcut_actions[0].event,
        AppEvent::DeleteSavedChatgptAccount {
            account_id: "account:me".to_string(),
            label: "account:me".to_string(),
        }
    );

    let other = selection_item_for_account(SavedChatgptAccountPickerEntry {
        account: bare_account("account:other-account"),
        five_hour_limit_remaining_percent: None,
        seven_day_limit_remaining_percent: None,
        limits_loading: false,
    });
    assert_eq!(
        other.actions,
        vec![AppEvent::SwitchSavedChatgptAccount {
            account_id: "account:other-account".to_string(),
            label: "account:oth...".to_string(),
        }]
    );
    assert_eq!(account_selection_view_id(), "saved-chatgpt-account-selection");
}

#[test]
fn picker_entry_uses_cache_and_loads_only_without_it() {
    let cached = SavedChatgptAccountRateLimitCacheEntry {
        five_hour_limit_remaining_percent: Some(40),
        seven_day_limit_remaining_percent: Some(60),
        captured_at: Timestamp { secs: 0, nanos: 0 },
    };
    let e = picker_entry_for_saved_account(bare_account("a"), Some(&cached), true);
    assert_eq!(e.five_hour_limit_remaining_percent, Some(40));
    assert_eq!(e.seven_day_limit_remaining_percent, Some(60));
    assert!(!e.limits_loading);
    let e = picker_entry_for_saved_account(bare_account("a"), None, true);
    assert_eq!(e.five_hour_limit_remaining_percent, None);
    assert!(e.limits_loading);
}

#[test]
fn cache_entries_go_stale_after_the_threshold() {
    let entry = SavedChatgptAccountRateLimitCacheEntry {
        five_hour_limit_remaining_percent: None,
        seven_day_limit_remaining_percent: None,
        captured_at: Timestamp { secs: 1_000, nanos: 500 },
    };
    let limit = RATE_LIMIT_STALE_THRESHOLD_MINUTES * 60;
    assert!(!entry.is_stale(Timestamp { secs: 1_000 + limit, nanos: 500 }));
    assert!(entry.is_stale(Timestamp { secs: 1_000 + limit, nanos: 501 }));
    assert!(!entry.is_stale(Timestamp { secs: 0, nanos: 0 }));
    assert_eq!(
        elapsed_nanos(Timestamp { secs: 2, nanos: 0 }, Timestamp { secs: 1, nanos: 999_999_999 }),
        1
    );
}
