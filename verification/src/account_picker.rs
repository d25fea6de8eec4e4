//! The saved ChatGPT account picker: how accounts and their remaining rate
//! limits are described, and the items of the selection view.

use vstd::prelude::*;
use crate::clock::{Timestamp, elapsed_nanos, nanos_between};
use crate::saved_accounts::SavedChatgptAccount;
use crate::text::{
    clone_opt, decimal, join, join_strings, opt_view, owned, push_decimal, push_str, views,
};

verus! {

/// Cached limits older than this many minutes are fetched again.
pub const RATE_LIMIT_STALE_THRESHOLD_MINUTES: i64 = 15;

/// The remaining share of an account's rate limits, as last seen.
#[derive(PartialEq, Eq, Structural, Clone, Copy, Debug)]
pub struct SavedChatgptAccountRateLimitCacheEntry {
    pub five_hour_limit_remaining_percent: Option<u8>,
    pub seven_day_limit_remaining_percent: Option<u8>,
    pub captured_at: Timestamp,
}

impl SavedChatgptAccountRateLimitCacheEntry {
    /// Whether more than the stale threshold has passed since the capture.
    pub fn is_stale(&self, now: Timestamp) -> (r: bool)
        ensures
            r == (nanos_between(now, self.captured_at) > RATE_LIMIT_STALE_THRESHOLD_MINUTES * 60
                * 1_000_000_000),
    {
        elapsed_nanos(now, self.captured_at) > (RATE_LIMIT_STALE_THRESHOLD_MINUTES as i128) * 60
            * 1_000_000_000
    }
}

/// Freshly fetched limits of one account (`None` when the fetch failed).
#[derive(Debug, PartialEq)]
pub struct SavedChatgptAccountRateLimitCacheUpdate {
    pub account_id: String,
    pub limits: Option<SavedChatgptAccountRateLimitCacheEntry>,
}

/// An account as the picker shows it.
#[derive(Debug, PartialEq)]
pub struct SavedChatgptAccountPickerEntry {
    pub account: SavedChatgptAccount,
    pub five_hour_limit_remaining_percent: Option<u8>,
    pub seven_day_limit_remaining_percent: Option<u8>,
    pub limits_loading: bool,
}

/// The picker entry for `account`: the cached limits when there are any, and
/// loading only when there are none.
pub fn picker_entry_for_saved_account(
    account: SavedChatgptAccount,
    rate_limits: Option<&SavedChatgptAccountRateLimitCacheEntry>,
    limits_loading: bool,
) -> (e: SavedChatgptAccountPickerEntry)
    ensures
        e.account == account,
        e.five_hour_limit_remaining_percent == match rate_limits {
            Some(l) => l.five_hour_limit_remaining_percent,
            None => None,
        },
        e.seven_day_limit_remaining_percent == match rate_limits {
            Some(l) => l.seven_day_limit_remaining_percent,
            None => None,
        },
        e.limits_loading == (limits_loading && rate_limits is None),
{
    SavedChatgptAccountPickerEntry {
        account,
        five_hour_limit_remaining_percent: match rate_limits {
            Some(l) => l.five_hour_limit_remaining_percent,
            None => None,
        },
        seven_day_limit_remaining_percent: match rate_limits {
            Some(l) => l.seven_day_limit_remaining_percent,
            None => None,
        },
        limits_loading: limits_loading && rate_limits.is_none(),
    }
}

// ---------------------------------------------------------------------------
// Selection views
// ---------------------------------------------------------------------------

/// An event that a selection sends to the application.
#[derive(Debug, PartialEq)]
pub enum AppEvent {
    SwitchSavedChatgptAccount { account_id: String, label: String },
    DeleteSavedChatgptAccount { account_id: String, label: String },
    OpenMcpServerActions { name: String },
    ViewMcpServerTools { name: String },
    ReconnectMcpServer { name: String },
    SetMcpServerEnabled { name: String, enabled: bool },
}

/// An event sent when a key is pressed on an item.
#[derive(Debug, PartialEq)]
pub struct SelectionShortcutAction {
    pub key: char,
    pub event: AppEvent,
}

/// One row of a selection view; `actions` are the events sent when it is chosen.
#[derive(Debug, PartialEq)]
pub struct SelectionItem {
    pub name: String,
    pub description: Option<String>,
    pub selected_description: Option<String>,
    pub is_current: bool,
    pub is_disabled: bool,
    pub actions: Vec<AppEvent>,
    pub shortcut_actions: Vec<SelectionShortcutAction>,
    pub dismiss_on_select: bool,
    pub search_value: Option<String>,
}

/// How a header line is styled.
#[derive(PartialEq, Eq, Structural, Clone, Copy, Debug)]
pub enum LineStyle {
    Bold,
    Dim,
}

/// A line of a selection view's header.
#[derive(Debug, PartialEq)]
pub struct HeaderLine {
    pub text: String,
    pub style: LineStyle,
}

/// The key hints under a selection view.
#[derive(PartialEq, Eq, Structural, Clone, Copy, Debug)]
pub enum FooterHint {
    /// The standard popup hints.
    Standard,
    /// The standard hints, and that `-` deletes the saved account.
    StandardWithDeleteAccount,
}

/// A selection view.
#[derive(Debug, PartialEq)]
pub struct SelectionViewParams {
    pub view_id: Option<String>,
    pub title: Option<String>,
    pub subtitle: Option<String>,
    pub header: Vec<HeaderLine>,
    pub footer_hint: Option<FooterHint>,
    pub items: Vec<SelectionItem>,
    pub is_searchable: bool,
    pub search_placeholder: Option<String>,
    /// Columns sized to fit every row.
    pub col_width_auto_all_rows: bool,
}

// ---------------------------------------------------------------------------
// Describing accounts
// ---------------------------------------------------------------------------

/// `value` when it has at most 12 characters, else its first 11 and `...`.
pub open spec fn truncated(value: Seq<char>) -> Seq<char> {
    if value.len() <= 12 {
        value
    } else {
        value.take(11) + "..."@
    }
}

pub fn truncate_id(value: &str) -> (r: String)
    ensures
        r@ == truncated(value@),
{
    if value.unicode_len() <= 12 {
        owned(value)
    } else {
        let mut r = owned(value.substring_char(0, 11));
        push_str(&mut r, "...");
        assert(value@.subrange(0, 11) =~= value@.take(11));
        r
    }
}

/// The name an account is shown by: its email, account id or user id, or its
/// shortened id.
pub open spec fn label_of(a: SavedChatgptAccount) -> Seq<char> {
    if a.email is Some {
        a.email->0@
    } else if a.account_id is Some {
        a.account_id->0@
    } else if a.chatgpt_user_id is Some {
        a.chatgpt_user_id->0@
    } else {
        truncated(a.id@)
    }
}

pub fn account_label(account: &SavedChatgptAccount) -> (r: String)
    ensures
        r@ == label_of(*account),
{
    match &account.email {
        Some(e) => return e.clone(),
        None => {},
    }
    match &account.account_id {
        Some(a) => return a.clone(),
        None => {},
    }
    match &account.chatgpt_user_id {
        Some(u) => return u.clone(),
        None => {},
    }
    truncate_id(account.id.as_str())
}

/// `prefix`, the percentage and `%`.
pub open spec fn percent_text(prefix: Seq<char>, percent: u8) -> Seq<char> {
    prefix + decimal(percent as nat) + "%"@
}

fn percent_string(prefix: &str, percent: u8) -> (r: String)
    ensures
        r@ == percent_text(prefix@, percent),
{
    let mut r = owned(prefix);
    push_decimal(&mut r, percent as u64);
    push_str(&mut r, "%");
    r
}

/// `5h N%` and `7d N%` for the limits that are known.
pub open spec fn compact_parts_of(five: Option<u8>, seven: Option<u8>) -> Seq<Seq<char>> {
    let a: Seq<Seq<char>> = match five {
        Some(p) => seq![percent_text("5h "@, p)],
        None => seq![],
    };
    let b: Seq<Seq<char>> = match seven {
        Some(p) => seq![percent_text("7d "@, p)],
        None => seq![],
    };
    a + b
}

pub fn compact_limit_summary_parts(
    five_hour_limit_remaining_percent: Option<u8>,
    seven_day_limit_remaining_percent: Option<u8>,
) -> (r: Vec<String>)
    ensures
        views(r@) == compact_parts_of(
            five_hour_limit_remaining_percent,
            seven_day_limit_remaining_percent,
        ),
{
    let mut parts: Vec<String> = Vec::new();
    if let Some(percent) = five_hour_limit_remaining_percent {
        parts.push(percent_string("5h ", percent));
    }
    if let Some(percent) = seven_day_limit_remaining_percent {
        parts.push(percent_string("7d ", percent));
    }
    assert(views(parts@) =~= compact_parts_of(
        five_hour_limit_remaining_percent,
        seven_day_limit_remaining_percent,
    ));
    parts
}

/// The limit parts, or the loading notice when none are known and they are
/// being fetched.
pub open spec fn limit_parts_of(five: Option<u8>, seven: Option<u8>, loading: bool) -> Seq<
    Seq<char>,
> {
    let p = compact_parts_of(five, seven);
    if p.len() == 0 && loading {
        seq!["Loading 5h/7d..."@]
    } else {
        p
    }
}

fn limit_parts(five: Option<u8>, seven: Option<u8>, loading: bool) -> (r: Vec<String>)
    ensures
        views(r@) == limit_parts_of(five, seven, loading),
{
    let mut parts = compact_limit_summary_parts(five, seven);
    if parts.len() == 0 && loading {
        parts.push(owned("Loading 5h/7d..."));
        assert(views(parts@) =~= seq!["Loading 5h/7d..."@]);
    }
    parts
}

/// The plan, and the shortened workspace and account ids, that are known.
pub open spec fn detail_parts_of(a: SavedChatgptAccount) -> Seq<Seq<char>> {
    let p: Seq<Seq<char>> = match a.plan_type {
        Some(t) => seq![t@],
        None => seq![],
    };
    let w: Seq<Seq<char>> = match a.chatgpt_workspace_id {
        Some(t) => seq!["WS "@ + truncated(t@)],
        None => seq![],
    };
    let c: Seq<Seq<char>> = match a.account_id {
        Some(t) => seq!["Acct "@ + truncated(t@)],
        None => seq![],
    };
    p + w + c
}

fn push_view(v: &mut Vec<String>, s: String)
    ensures
        views(final(v)@) == views(old(v)@).push(s@),
{
    v.push(s);
    assert(views(v@) =~= views(old(v)@).push(s@));
}

pub fn account_detail_parts(account: &SavedChatgptAccount) -> (r: Vec<String>)
    ensures
        views(r@) == detail_parts_of(*account),
{
    let mut parts: Vec<String> = Vec::new();
    if let Some(plan_type) = &account.plan_type {
        push_view(&mut parts, plan_type.clone());
    }
    if let Some(workspace_id) = &account.chatgpt_workspace_id {
        let mut s = owned("WS ");
        let t = truncate_id(workspace_id.as_str());
        push_str(&mut s, t.as_str());
        push_view(&mut parts, s);
    }
    if let Some(account_id) = &account.account_id {
        let mut s = owned("Acct ");
        let t = truncate_id(account_id.as_str());
        push_str(&mut s, t.as_str());
        push_view(&mut parts, s);
    }
    assert(views(parts@) =~= detail_parts_of(*account));
    parts
}

/// The values present among `values`.
pub open spec fn present(values: Seq<Option<String>>) -> Seq<Seq<char>>
    decreases values.len(),
{
    if values.len() == 0 {
        seq![]
    } else {
        let rest = present(values.drop_last());
        match values.last() {
            Some(s) => rest.push(s@),
            None => rest,
        }
    }
}

/// Every id, the email and the plan of an account, space-separated.
pub open spec fn search_value_of(a: SavedChatgptAccount) -> Seq<char> {
    join(
        present(
            seq![
                Some(a.id),
                a.email,
                a.account_id,
                a.chatgpt_user_id,
                a.chatgpt_workspace_id,
                a.plan_type,
            ],
        ),
        " "@,
    )
}

pub fn account_search_value(account: &SavedChatgptAccount) -> (r: String)
    ensures
        r@ == search_value_of(*account),
{
    let mut values: Vec<Option<String>> = Vec::new();
    values.push(Some(account.id.clone()));
    values.push(clone_opt(&account.email));
    values.push(clone_opt(&account.account_id));
    values.push(clone_opt(&account.chatgpt_user_id));
    values.push(clone_opt(&account.chatgpt_workspace_id));
    values.push(clone_opt(&account.plan_type));
    let ghost all = values@;
    assert(all =~= seq![
        Some(account.id),
        account.email,
        account.account_id,
        account.chatgpt_user_id,
        account.chatgpt_workspace_id,
        account.plan_type,
    ]);
    let mut parts: Vec<String> = Vec::new();
    let n = values.len();
    let mut i: usize = 0;
    while i < n
        invariant
            n == values@.len(),
            values@ == all,
            i <= n,
            views(parts@) == present(all.subrange(0, i as int)),
        decreases n - i,
    {
        assert(all.subrange(0, i + 1).drop_last() =~= all.subrange(0, i as int));
        match &values[i] {
            Some(s) => push_view(&mut parts, s.clone()),
            None => {},
        }
        i = i + 1;
    }
    assert(all.subrange(0, n as int) =~= all);
    join_strings(&parts, " ")
}

/// The row description: the limit parts and the plan, joined by ` · `.
pub open spec fn row_description_of(
    a: SavedChatgptAccount,
    five: Option<u8>,
    seven: Option<u8>,
    loading: bool,
) -> Option<Seq<char>> {
    let p = limit_parts_of(five, seven, loading) + match a.plan_type {
        Some(t) => seq![t@],
        None => Seq::<Seq<char>>::empty(),
    };
    if p.len() == 0 {
        None
    } else {
        Some(join(p, " · "@))
    }
}

pub fn account_row_description(
    account: &SavedChatgptAccount,
    five_hour_limit_remaining_percent: Option<u8>,
    seven_day_limit_remaining_percent: Option<u8>,
    limits_loading: bool,
) -> (r: Option<String>)
    ensures
        opt_view(r) == row_description_of(
            *account,
            five_hour_limit_remaining_percent,
            seven_day_limit_remaining_percent,
            limits_loading,
        ),
{
    let mut parts = limit_parts(
        five_hour_limit_remaining_percent,
        seven_day_limit_remaining_percent,
        limits_loading,
    );
    let ghost before = views(parts@);
    if let Some(plan_type) = &account.plan_type {
        push_view(&mut parts, plan_type.clone());
    }
    assert(views(parts@) =~= before + match account.plan_type {
        Some(t) => seq![t@],
        None => Seq::<Seq<char>>::empty(),
    });
    if parts.len() == 0 {
        None
    } else {
        Some(join_strings(&parts, " · "))
    }
}

/// The description shown for the highlighted row.
pub open spec fn selected_description_of(
    a: SavedChatgptAccount,
    label: Seq<char>,
    five: Option<u8>,
    seven: Option<u8>,
    loading: bool,
) -> Seq<char> {
    let p = limit_parts_of(five, seven, loading);
    if a.is_active {
        if p.len() == 0 {
            "Current account"@
        } else {
            "Current account · "@ + join(p, " · "@)
        }
    } else {
        let q = p + detail_parts_of(a);
        if q.len() == 0 {
            "Press Enter to switch to "@ + label + "."@
        } else {
            "Press Enter to switch to "@ + label + ". "@ + join(q, " · "@)
        }
    }
}

pub fn account_selected_description(
    account: &SavedChatgptAccount,
    label: &str,
    five_hour_limit_remaining_percent: Option<u8>,
    seven_day_limit_remaining_percent: Option<u8>,
    limits_loading: bool,
) -> (r: String)
    ensures
        r@ == selected_description_of(
            *account,
            label@,
            five_hour_limit_remaining_percent,
            seven_day_limit_remaining_percent,
            limits_loading,
        ),
{
    let mut parts = limit_parts(
        five_hour_limit_remaining_percent,
        seven_day_limit_remaining_percent,
        limits_loading,
    );
    if account.is_active {
        if parts.len() == 0 {
            owned("Current account")
        } else {
            let mut r = owned("Current account · ");
            let j = join_strings(&parts, " · ");
            push_str(&mut r, j.as_str());
            r
        }
    } else {
        let ghost before = views(parts@);
        let mut details = account_detail_parts(account);
        let ghost d = views(details@);
        parts.append(&mut details);
        assert(views(parts@) =~= before + d);
        let mut r = owned("Press Enter to switch to ");
        push_str(&mut r, label);
        if parts.len() == 0 {
            push_str(&mut r, ".");
        } else {
            push_str(&mut r, ". ");
            let j = join_strings(&parts, " · ");
            push_str(&mut r, j.as_str());
        }
        r
    }
}

/// The row of the picker for one account: chosen, it switches to the account
/// unless that is the current one; `-` deletes it.
pub open spec fn is_account_item(entry: SavedChatgptAccountPickerEntry, item: SelectionItem) -> bool {
    let a = entry.account;
    let five = entry.five_hour_limit_remaining_percent;
    let seven = entry.seven_day_limit_remaining_percent;
    let loading = entry.limits_loading;
    let label = label_of(a);
    &&& item.name@ == label
    &&& opt_view(item.description) == row_description_of(a, five, seven, loading)
    &&& opt_view(item.selected_description) == Some(
        selected_description_of(a, label, five, seven, loading),
    )
    &&& item.is_current == a.is_active
    &&& !item.is_disabled
    &&& if a.is_active {
        item.actions@.len() == 0
    } else {
        &&& item.actions@.len() == 1
        &&& item.actions@[0] matches AppEvent::SwitchSavedChatgptAccount { account_id, label: l }
            && account_id@ == a.id@ && l@ == label
    }
    &&& item.shortcut_actions@.len() == 1
    &&& item.shortcut_actions@[0].key == '-'
    &&& item.shortcut_actions@[0].event matches AppEvent::DeleteSavedChatgptAccount {
        account_id,
        label: l,
    } && account_id@ == a.id@ && l@ == label
    &&& item.dismiss_on_select
    &&& opt_view(item.search_value) == Some(search_value_of(a))
}

pub fn selection_item_for_account(entry: SavedChatgptAccountPickerEntry) -> (item: SelectionItem)
    ensures
        is_account_item(entry, item),
{
    let account = &entry.account;
    let label = account_label(account);
    let search_value = account_search_value(account);
    let description = account_row_description(
        account,
        entry.five_hour_limit_remaining_percent,
        entry.seven_day_limit_remaining_percent,
        entry.limits_loading,
    );
    let selected_description = account_selected_description(
        account,
        label.as_str(),
        entry.five_hour_limit_remaining_percent,
        entry.seven_day_limit_remaining_percent,
        entry.limits_loading,
    );
    let mut actions: Vec<AppEvent> = Vec::new();
    if !account.is_active {
        actions.push(
            AppEvent::SwitchSavedChatgptAccount {
                account_id: account.id.clone(),
                label: label.clone(),
            },
        );
    }
    let mut shortcut_actions: Vec<SelectionShortcutAction> = Vec::new();
    shortcut_actions.push(
        SelectionShortcutAction {
            key: '-',
            event: AppEvent::DeleteSavedChatgptAccount {
                account_id: account.id.clone(),
                label: label.clone(),
            },
        },
    );
    SelectionItem {
        name: label,
        description,
        selected_description: Some(selected_description),
        is_current: account.is_active,
        is_disabled: false,
        actions,
        shortcut_actions,
        dismiss_on_select: true,
        search_value: Some(search_value),
    }
}

/// The id of the account picker view.
pub open spec fn account_view_id() -> Seq<char> {
    "saved-chatgpt-account-selection"@
}

pub fn account_selection_view_id() -> (r: String)
    ensures
        r@ == account_view_id(),
{
    owned("saved-chatgpt-account-selection")
}

/// The one row shown when no account is saved.
pub open spec fn is_empty_state_item(item: SelectionItem) -> bool {
    &&& item.name@ == "No saved ChatGPT accounts"@
    &&& opt_view(item.description) == Some(
        "Sign in with another ChatGPT account to add it here."@,
    )
    &&& item.selected_description is None
    &&& !item.is_current
    &&& item.is_disabled
    &&& item.actions@.len() == 0
    &&& item.shortcut_actions@.len() == 0
    &&& !item.dismiss_on_select
    &&& item.search_value is None
}

/// The account picker: one row per account, or the empty-state row.
pub open spec fn is_account_picker(accounts: Seq<SavedChatgptAccountPickerEntry>, p: SelectionViewParams) -> bool {
    &&& opt_view(p.view_id) == Some(account_view_id())
    &&& opt_view(p.title) == Some("Switch ChatGPT account"@)
    &&& opt_view(p.subtitle) == Some("Choose a saved ChatGPT account for this session."@)
    &&& p.header@.len() == 0
    &&& p.footer_hint == Some(FooterHint::StandardWithDeleteAccount)
    &&& p.is_searchable
    &&& opt_view(p.search_placeholder) == Some("Type to search accounts"@)
    &&& !p.col_width_auto_all_rows
    &&& if accounts.len() == 0 {
        p.items@.len() == 1 && is_empty_state_item(p.items@[0])
    } else {
        &&& p.items@.len() == accounts.len()
        &&& forall|i: int| 0 <= i < accounts.len() ==> is_account_item(accounts[i], #[trigger] p.items@[i])
    }
}

pub fn account_selection_params(accounts: Vec<SavedChatgptAccountPickerEntry>) -> (p: SelectionViewParams)
    ensures
        is_account_picker(accounts@, p),
{
    let ghost all = accounts@;
    let mut items: Vec<SelectionItem> = Vec::new();
    if accounts.len() == 0 {
        items.push(
            SelectionItem {
                name: owned("No saved ChatGPT accounts"),
                description: Some(owned("Sign in with another ChatGPT account to add it here.")),
                selected_description: None,
                is_current: false,
                is_disabled: true,
                actions: Vec::new(),
                shortcut_actions: Vec::new(),
                dismiss_on_select: false,
                search_value: None,
            },
        );
    } else {
        let mut rest = accounts;
        let n = rest.len();
        let mut i: usize = 0;
        while rest.len() > 0
            invariant
                n == all.len(),
                rest@ == all.subrange(i as int, n as int),
                i <= n,
                items@.len() == i,
                forall|k: int| 0 <= k < i ==> is_account_item(all[k], #[trigger] items@[k]),
            decreases rest@.len(),
        {
            let entry = rest.remove(0);
            assert(entry == all[i as int]);
            items.push(selection_item_for_account(entry));
            i = i + 1;
            assert(rest@ =~= all.subrange(i as int, n as int));
        }
    }
    SelectionViewParams {
        view_id: Some(account_selection_view_id()),
        title: Some(owned("Switch ChatGPT account")),
        subtitle: Some(owned("Choose a saved ChatGPT account for this session.")),
        header: Vec::new(),
        footer_hint: Some(FooterHint::StandardWithDeleteAccount),
        items,
        is_searchable: true,
        search_placeholder: Some(owned("Type to search accounts")),
        col_width_auto_all_rows: false,
    }
}

} // verus!
