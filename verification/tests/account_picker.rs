use codex_agents::account_picker::{
    account_selection_params, SavedChatgptAccountPickerEntry, SelectionViewParams,
};
use codex_agents::saved_accounts::SavedChatgptAccount;

fn saved_account(
    id: &str,
    email: Option<&str>,
    plan_type: Option<&str>,
    is_active: bool,
) -> SavedChatgptAccount {
    SavedChatgptAccount {
        id: id.to_string(),
        email: email.map(str::to_string),
        account_id: Some(format!("{id}-account")),
        chatgpt_user_id: Some(format!("{id}-user")),
        chatgpt_workspace_id: Some(format!("{id}-workspace")),
        plan_type: plan_type.map(str::to_string),
        is_active,
    }
}

fn snapshot_params(params: &SelectionViewParams) -> String {
    let mut lines = vec![
        format!("title={:?}", params.title),
        format!("subtitle={:?}", params.subtitle),
        format!("searchable={}", params.is_searchable),
        format!("placeholder={:?}", params.search_placeholder),
    ];
    for item in &params.items {
        lines.push(format!(
            "item name={:?} desc={:?} selected={:?} current={} disabled={} actions={} shortcut_actions={} dismiss={} search={:?}",
            item.name,
            item.description,
            item.selected_description,
            item.is_current,
            item.is_disabled,
            item.actions.len(),
            item.shortcut_actions.len(),
            item.dismiss_on_select,
            item.search_value
        ));
    }
    lines.join("\n")
}

#[test]
fn account_selection_params_render_current_and_switchable_accounts() {
    let params = account_selection_params(vec![
        SavedChatgptAccountPickerEntry {
            account: saved_account("active", Some("active@example.com"), Some("Plus"), true),
            five_hour_limit_remaining_percent: Some(7),
            seven_day_limit_remaining_percent: Some(80),
            limits_loading: false,
        },
        SavedChatgptAccountPickerEntry {
            account: saved_account("next", Some("next@example.com"), Some("Pro"), false),
            five_hour_limit_remaining_percent: None,
            seven_day_limit_remaining_percent: None,
            limits_loading: true,
        },
    ]);

    assert_eq!(
        snapshot_params(&params),
        r###"title=Some("Switch ChatGPT account")
subtitle=Some("Choose a saved ChatGPT account for this session.")
searchable=true
placeholder=Some("Type to search accounts")
item name="active@example.com" desc=Some("5h 7% · 7d 80% · Plus") selected=Some("Current account · 5h 7% · 7d 80%") current=true disabled=false actions=0 shortcut_actions=1 dismiss=true search=Some("active active@example.com active-account active-user active-workspace Plus")
item name="next@example.com" desc=Some("Loading 5h/7d... · Pro") selected=Some("Press Enter to switch to next@example.com. Loading 5h/7d... · Pro · WS next-worksp... · Acct next-account") current=false disabled=false actions=1 shortcut_actions=1 dismiss=true search=Some("next next@example.com next-account next-user next-workspace Pro")"###
    );
}

#[test]
fn account_selection_params_render_empty_state() {
    let params = account_selection_params(Vec::new());

    assert_eq!(
        snapshot_params(&params),
        r###"title=Some("Switch ChatGPT account")
subtitle=Some("Choose a saved ChatGPT account for this session.")
searchable=true
placeholder=Some("Type to search accounts")
item name="No saved ChatGPT accounts" desc=Some("Sign in with another ChatGPT account to add it here.") selected=None current=false disabled=true actions=0 shortcut_actions=0 dismiss=false search=None"###
    );
}
