//! The chat widget's state for saved ChatGPT accounts: the cache of their
//! rate limits, which fetches are pending, and when to switch accounts on its
//! own.

use vstd::prelude::*;
use crate::account_picker::{
    SavedChatgptAccountPickerEntry, SavedChatgptAccountRateLimitCacheEntry,
    SavedChatgptAccountRateLimitCacheUpdate, SelectionViewParams, account_label,
    account_selection_params, is_account_picker, label_of, picker_entry_for_saved_account,
    RATE_LIMIT_STALE_THRESHOLD_MINUTES,
};
use crate::clock::{Timestamp, nanos_between};
use crate::saved_accounts::{SavedChatgptAccount, SavedChatgptAccountAuth};
use crate::sort::{StrictOrder, is_sorted, is_stable_arrangement, sort_stable};
use crate::str_map::StrMap;
use crate::text::{
    compare_seq, compare_str, decimal, eq_ignore_ascii_case, lemma_compare_flip,
    lemma_compare_equal, lemma_compare_less_transitive, lemma_compare_not_less_transitive,
    lemma_compare_weak, opt_view,
    owned, push_decimal, push_str, str_eq, str_eq_ignore_ascii_case, Order,
};

verus! {

/// A ChatGPT plan.
#[derive(PartialEq, Eq, Structural, Clone, Copy, Debug)]
pub enum PlanType {
    Free,
    Plus,
    Pro,
    Team,
    Business,
    Enterprise,
    Edu,
    Unknown,
}

/// An MCP server's authentication, as the app server reports it.
#[derive(PartialEq, Eq, Structural, Clone, Copy, Debug)]
pub enum McpAuthStatus {
    Unsupported,
    NotLoggedIn,
    BearerToken,
    OAuth,
}

/// What the app server reports of one MCP server.
#[derive(Debug, PartialEq)]
pub struct McpServerStatus {
    pub name: String,
    pub auth_status: McpAuthStatus,
    pub tool_count: usize,
    pub resource_count: usize,
    pub resource_template_count: usize,
}

/// An account is switched away from when a limit has at most this much left.
pub const ACCOUNT_AUTO_SWITCH_REMAINING_THRESHOLD_PERCENT: u8 = 2;

/// An account is switched to only with at least this much of its 7d limit left.
pub const ACCOUNT_AUTO_SWITCH_MIN_SEVEN_DAY_REMAINING_PERCENT: u8 = 1;

/// The part of the chat widget's state that the account and MCP views read.
pub struct ChatWidget {
    pub plan_type: Option<PlanType>,
    /// The latest limits per limit id, as the picker reads them.
    pub rate_limit_snapshots_by_limit_id: StrMap<SavedChatgptAccountRateLimitCacheEntry>,
    pub saved_chatgpt_account_rate_limit_cache: StrMap<SavedChatgptAccountRateLimitCacheEntry>,
    /// Accounts whose limits are being fetched.
    pub saved_chatgpt_account_rate_limit_pending_ids: StrMap<()>,
    /// The account about which the no-account notice was last shown.
    pub saved_chatgpt_account_zero_limit_notice_account_id: Option<String>,
    pub active_mcp_action_server: Option<String>,
    pub pending_mcp_tools_view: Option<String>,
    pub mcp_status_snapshot: StrMap<McpServerStatus>,
}

impl ChatWidget {
    pub fn new(plan_type: Option<PlanType>) -> (w: ChatWidget)
        ensures
            w.plan_type == plan_type,
            w.rate_limit_snapshots_by_limit_id@ == Map::<
                Seq<char>,
                SavedChatgptAccountRateLimitCacheEntry,
            >::empty(),
            w.saved_chatgpt_account_rate_limit_cache@ == Map::<
                Seq<char>,
                SavedChatgptAccountRateLimitCacheEntry,
            >::empty(),
            w.saved_chatgpt_account_rate_limit_pending_ids@ == Map::<Seq<char>, ()>::empty(),
            w.saved_chatgpt_account_zero_limit_notice_account_id is None,
            w.active_mcp_action_server is None,
            w.pending_mcp_tools_view is None,
            w.mcp_status_snapshot@ == Map::<Seq<char>, McpServerStatus>::empty(),
    {
        ChatWidget {
            plan_type,
            rate_limit_snapshots_by_limit_id: StrMap::new(),
            saved_chatgpt_account_rate_limit_cache: StrMap::new(),
            saved_chatgpt_account_rate_limit_pending_ids: StrMap::new(),
            saved_chatgpt_account_zero_limit_notice_account_id: None,
            active_mcp_action_server: None,
            pending_mcp_tools_view: None,
            mcp_status_snapshot: StrMap::new(),
        }
    }
}

// ---------------------------------------------------------------------------
// Specifications
// ---------------------------------------------------------------------------

/// The picker entry of `a`: its cached limits when there are any; otherwise no
/// limits, loading while a fetch is pending.
pub open spec fn picker_entry_of(
    cache: Map<Seq<char>, SavedChatgptAccountRateLimitCacheEntry>,
    pending: Map<Seq<char>, ()>,
    a: SavedChatgptAccount,
    e: SavedChatgptAccountPickerEntry,
) -> bool {
    &&& e.account == a
    &&& if cache.contains_key(a.id@) {
        &&& e.five_hour_limit_remaining_percent == cache[a.id@].five_hour_limit_remaining_percent
        &&& e.seven_day_limit_remaining_percent == cache[a.id@].seven_day_limit_remaining_percent
        &&& !e.limits_loading
    } else {
        &&& e.five_hour_limit_remaining_percent is None
        &&& e.seven_day_limit_remaining_percent is None
        &&& e.limits_loading == pending.contains_key(a.id@)
    }
}

/// Limits captured more than the stale threshold before `now`.
pub open spec fn stale_at(e: SavedChatgptAccountRateLimitCacheEntry, now: Timestamp) -> bool {
    nanos_between(now, e.captured_at) > RATE_LIMIT_STALE_THRESHOLD_MINUTES * 60 * 1_000_000_000
}

/// An account whose limits should be fetched: none is pending, and none are
/// cached or the cached ones are stale.
pub open spec fn needs_limit_refresh(
    cache: Map<Seq<char>, SavedChatgptAccountRateLimitCacheEntry>,
    pending: Map<Seq<char>, ()>,
    now: Timestamp,
    a: SavedChatgptAccount,
) -> bool {
    !pending.contains_key(a.id@) && (!cache.contains_key(a.id@) || stale_at(cache[a.id@], now))
}

/// The accounts of `s` that need a refresh, other than `exclude`, in order.
pub open spec fn refresh_candidates(
    s: Seq<SavedChatgptAccountAuth>,
    cache: Map<Seq<char>, SavedChatgptAccountRateLimitCacheEntry>,
    pending: Map<Seq<char>, ()>,
    now: Timestamp,
    exclude: Option<Seq<char>>,
) -> Seq<SavedChatgptAccountAuth>
    decreases s.len(),
{
    if s.len() == 0 {
        seq![]
    } else {
        let r = refresh_candidates(s.drop_last(), cache, pending, now, exclude);
        let a = s.last().account;
        if needs_limit_refresh(cache, pending, now, a) && exclude != Some(a.id@) {
            r.push(s.last())
        } else {
            r
        }
    }
}

/// The ids of the accounts of `s`.
pub open spec fn ids_of(s: Seq<SavedChatgptAccountAuth>) -> Set<Seq<char>> {
    Set::new(|k: Seq<char>| exists|i: int| 0 <= i < s.len() && (#[trigger] s[i]).account.id@ == k)
}

/// The index of the first active account of `s` at or after `k`.
pub open spec fn first_active_from(s: Seq<SavedChatgptAccountAuth>, k: int) -> Option<int>
    decreases s.len() - k,
{
    if k < 0 || k >= s.len() {
        None
    } else if s[k].account.is_active {
        Some(k)
    } else {
        first_active_from(s, k + 1)
    }
}

/// A Pro account is never switched away from.
pub open spec fn is_pro_account(plan: Option<PlanType>, a: SavedChatgptAccount) -> bool {
    plan == Some(PlanType::Pro) || (a.plan_type is Some && eq_ignore_ascii_case(
        a.plan_type->0@,
        "pro"@,
    ))
}

/// A limit with at most the threshold left.
pub open spec fn is_low(p: Option<u8>) -> bool {
    p matches Some(x) && x <= ACCOUNT_AUTO_SWITCH_REMAINING_THRESHOLD_PERCENT
}

/// The 5h share left of an account that can be switched to: one that is not
/// active, whose cached limits have more than 0% left on the 5h limit and at
/// least the minimum on the 7d limit.
pub open spec fn candidate_percent(
    cache: Map<Seq<char>, SavedChatgptAccountRateLimitCacheEntry>,
    a: SavedChatgptAccount,
) -> Option<u8> {
    if !a.is_active && cache.contains_key(a.id@) {
        let e = cache[a.id@];
        match (e.five_hour_limit_remaining_percent, e.seven_day_limit_remaining_percent) {
            (Some(f), Some(s)) => if f > 0 && s >= ACCOUNT_AUTO_SWITCH_MIN_SEVEN_DAY_REMAINING_PERCENT {
                Some(f)
            } else {
                None
            },
            _ => None,
        }
    } else {
        None
    }
}

/// One candidate is better than another: more left on the 5h limit, or as
/// much and an id that sorts first.
pub open spec fn beats(pa: u8, ida: Seq<char>, pb: u8, idb: Seq<char>) -> bool {
    pa > pb || (pa == pb && compare_seq(ida, idb) == Order::Less)
}

pub open spec fn cand_beats(
    s: Seq<SavedChatgptAccountAuth>,
    cache: Map<Seq<char>, SavedChatgptAccountRateLimitCacheEntry>,
    i: int,
    j: int,
) -> bool {
    beats(
        candidate_percent(cache, s[i].account)->0,
        s[i].account.id@,
        candidate_percent(cache, s[j].account)->0,
        s[j].account.id@,
    )
}

pub open spec fn has_candidate(
    s: Seq<SavedChatgptAccountAuth>,
    cache: Map<Seq<char>, SavedChatgptAccountRateLimitCacheEntry>,
) -> bool {
    exists|i: int| 0 <= i < s.len() && (#[trigger] candidate_percent(cache, s[i].account)) is Some
}

/// `j` is the account switched to: a candidate that no earlier candidate
/// beats and that beats every later one (the last of equally good ones).
pub open spec fn is_best(
    s: Seq<SavedChatgptAccountAuth>,
    cache: Map<Seq<char>, SavedChatgptAccountRateLimitCacheEntry>,
    j: int,
) -> bool {
    &&& 0 <= j < s.len()
    &&& candidate_percent(cache, s[j].account) is Some
    &&& forall|i: int|
        0 <= i < j && (#[trigger] candidate_percent(cache, s[i].account)) is Some ==> !cand_beats(
            s,
            cache,
            i,
            j,
        )
    &&& forall|i: int|
        j < i < s.len() && (#[trigger] candidate_percent(cache, s[i].account)) is Some
            ==> cand_beats(s, cache, j, i)
}

pub open spec fn switch_reason(five_low: bool, seven_low: bool) -> Seq<char> {
    if five_low && seven_low {
        "the 5h and 7d limits"@
    } else if five_low {
        "the 5h limit"@
    } else {
        "the 7d limit"@
    }
}

pub open spec fn switch_message(five_low: bool, seven_low: bool, percent: u8) -> Seq<char> {
    "Auto-switching ChatGPT account because the current account fell below "@ + decimal(
        ACCOUNT_AUTO_SWITCH_REMAINING_THRESHOLD_PERCENT as nat,
    ) + "% on "@ + switch_reason(five_low, seven_low) + ". Best available account has "@
        + decimal(percent as nat) + "% left on the 5h limit."@
}

pub open spec fn no_account_message() -> Seq<char> {
    "No saved ChatGPT accounts have both >0% left on the 5h limit and at least "@ + decimal(
        ACCOUNT_AUTO_SWITCH_MIN_SEVEN_DAY_REMAINING_PERCENT as nat,
    ) + "% left on the 7d limit."@
}

/// What the automatic switch decides.
#[derive(Debug)]
pub enum AutoSwitchAction {
    /// Nothing to do.
    Nothing,
    /// Fetch the limits of these accounts first (they are now pending).
    RefreshLimits { accounts: Vec<SavedChatgptAccountAuth> },
    /// Switch to this account, and show the message.
    Switch { account_id: String, label: String, message: String },
    /// Tell the user that no account can be switched to.
    Notice { message: String },
}

/// `action` switches to account `j`, with the message for the low limits.
pub open spec fn is_switch_to(
    s: Seq<SavedChatgptAccountAuth>,
    cache: Map<Seq<char>, SavedChatgptAccountRateLimitCacheEntry>,
    j: int,
    five_low: bool,
    seven_low: bool,
    action: AutoSwitchAction,
) -> bool {
    match action {
        AutoSwitchAction::Switch { account_id, label, message } => {
            &&& account_id@ == s[j].account.id@
            &&& label@ == label_of(s[j].account)
            &&& message@ == switch_message(
                five_low,
                seven_low,
                candidate_percent(cache, s[j].account)->0,
            )
        },
        _ => false,
    }
}

/// The automatic switch, from the state before (`cache`, `pending`, `notice`)
/// to the state after (`pending2`, `notice2`) and its action.
pub open spec fn auto_switch_outcome(
    plan: Option<PlanType>,
    cache: Map<Seq<char>, SavedChatgptAccountRateLimitCacheEntry>,
    pending: Map<Seq<char>, ()>,
    notice: Option<String>,
    s: Seq<SavedChatgptAccountAuth>,
    now: Timestamp,
    pending2: Map<Seq<char>, ()>,
    notice2: Option<String>,
    action: AutoSwitchAction,
) -> bool {
    match first_active_from(s, 0) {
        None => action is Nothing && pending2 == pending && notice2 == notice,
        Some(i) => {
            let a = s[i].account;
            if is_pro_account(plan, a) {
                action is Nothing && pending2 == pending && notice2 is None
            } else if !cache.contains_key(a.id@) {
                action is Nothing && pending2 == pending && notice2 == notice
            } else {
                let e = cache[a.id@];
                let fl = is_low(e.five_hour_limit_remaining_percent);
                let sl = is_low(e.seven_day_limit_remaining_percent);
                let r = refresh_candidates(s, cache, pending, now, Some(a.id@));
                if !fl && !sl {
                    action is Nothing && pending2 == pending && notice2 is None
                } else if r.len() > 0 {
                    &&& action matches AutoSwitchAction::RefreshLimits { accounts } && accounts@
                        == r
                    &&& pending2.dom() == pending.dom().union(ids_of(r))
                    &&& notice2 == notice
                } else if has_candidate(s, cache) {
                    &&& exists|j: int|
                        #![trigger is_best(s, cache, j)]
                        is_best(s, cache, j) && is_switch_to(s, cache, j, fl, sl, action)
                    &&& pending2 == pending
                    &&& notice2 == notice
                } else if opt_view(notice) == Some(a.id@) {
                    action is Nothing && pending2 == pending && notice2 == notice
                } else {
                    &&& action matches AutoSwitchAction::Notice { message } && message@
                        == no_account_message()
                    &&& pending2 == pending
                    &&& notice2 == Some(a.id)
                }
            }
        },
    }
}

proof fn lemma_beats_transitive(pa: u8, ida: Seq<char>, pb: u8, idb: Seq<char>, pc: u8, idc: Seq<char>)
    requires
        beats(pa, ida, pb, idb),
        beats(pb, idb, pc, idc),
    ensures
        beats(pa, ida, pc, idc),
{
    if pa == pb && pb == pc {
        lemma_compare_less_transitive(ida, idb, idc);
    }
}

proof fn lemma_not_beats_transitive(
    pa: u8,
    ida: Seq<char>,
    pb: u8,
    idb: Seq<char>,
    pc: u8,
    idc: Seq<char>,
)
    requires
        !beats(pa, ida, pb, idb),
        !beats(pb, idb, pc, idc),
    ensures
        !beats(pa, ida, pc, idc),
{
    if pa == pb && pb == pc {
        lemma_compare_not_less_transitive(ida, idb, idc);
    }
}

// ---------------------------------------------------------------------------
// Operations
// ---------------------------------------------------------------------------

fn is_low_exec(p: Option<u8>) -> (r: bool)
    ensures
        r == is_low(p),
{
    match p {
        Some(x) => x <= ACCOUNT_AUTO_SWITCH_REMAINING_THRESHOLD_PERCENT,
        None => false,
    }
}

impl ChatWidget {
    /// The picker entries of `accounts`, in order.
    pub fn saved_chatgpt_account_picker_entries(&self, accounts: &Vec<SavedChatgptAccount>) -> (r:
        Vec<SavedChatgptAccountPickerEntry>)
        ensures
            r@.len() == accounts@.len(),
            forall|i: int|
                0 <= i < accounts@.len() ==> picker_entry_of(
                    self.saved_chatgpt_account_rate_limit_cache@,
                    self.saved_chatgpt_account_rate_limit_pending_ids@,
                    accounts@[i],
                    #[trigger] r@[i],
                ),
    {
        let n = accounts.len();
        let mut r: Vec<SavedChatgptAccountPickerEntry> = Vec::new();
        let mut i: usize = 0;
        while i < n
            invariant
                n == accounts@.len(),
                i <= n,
                r@.len() == i,
                forall|k: int|
                    0 <= k < i ==> picker_entry_of(
                        self.saved_chatgpt_account_rate_limit_cache@,
                        self.saved_chatgpt_account_rate_limit_pending_ids@,
                        accounts@[k],
                        #[trigger] r@[k],
                    ),
            decreases n - i,
        {
            let account = accounts[i].duplicate();
            let cached = self.saved_chatgpt_account_rate_limit_cache.get(account.id.as_str());
            let limits_loading = cached.is_none()
                && self.saved_chatgpt_account_rate_limit_pending_ids.contains_key(
                account.id.as_str(),
            );
            r.push(picker_entry_for_saved_account(account, cached, limits_loading));
            i = i + 1;
        }
        r
    }

    fn refresh_candidates_exec(
        &self,
        account_auths: &Vec<SavedChatgptAccountAuth>,
        now: Timestamp,
        exclude: Option<&str>,
    ) -> (r: Vec<SavedChatgptAccountAuth>)
        ensures
            r@ == refresh_candidates(
                account_auths@,
                self.saved_chatgpt_account_rate_limit_cache@,
                self.saved_chatgpt_account_rate_limit_pending_ids@,
                now,
                match exclude {
                    Some(x) => Some(x@),
                    None => None,
                },
            ),
    {
        let ghost ex = match exclude {
            Some(x) => Some(x@),
            None => None::<Seq<char>>,
        };
        let n = account_auths.len();
        let mut r: Vec<SavedChatgptAccountAuth> = Vec::new();
        let mut i: usize = 0;
        while i < n
            invariant
                n == account_auths@.len(),
                i <= n,
                ex == match exclude {
                    Some(x) => Some(x@),
                    None => None::<Seq<char>>,
                },
                r@ == refresh_candidates(
                    account_auths@.subrange(0, i as int),
                    self.saved_chatgpt_account_rate_limit_cache@,
                    self.saved_chatgpt_account_rate_limit_pending_ids@,
                    now,
                    ex,
                ),
            decreases n - i,
        {
            let saved = &account_auths[i];
            assert(account_auths@.subrange(0, i + 1).drop_last() =~= account_auths@.subrange(
                0,
                i as int,
            ));
            let id = saved.account.id.as_str();
            let pending = self.saved_chatgpt_account_rate_limit_pending_ids.contains_key(id);
            let needs = !pending && match self.saved_chatgpt_account_rate_limit_cache.get(id) {
                Some(limits) => limits.is_stale(now),
                None => true,
            };
            let excluded = match exclude {
                Some(x) => str_eq(x, id),
                None => false,
            };
            if needs && !excluded {
                r.push(saved.duplicate());
            }
            i = i + 1;
        }
        assert(account_auths@.subrange(0, n as int) =~= account_auths@);
        r
    }

    /// The accounts whose limits should be fetched, in order.
    pub fn saved_chatgpt_accounts_needing_limit_refresh(
        &self,
        account_auths: &Vec<SavedChatgptAccountAuth>,
        now: Timestamp,
    ) -> (r: Vec<SavedChatgptAccountAuth>)
        ensures
            r@ == refresh_candidates(
                account_auths@,
                self.saved_chatgpt_account_rate_limit_cache@,
                self.saved_chatgpt_account_rate_limit_pending_ids@,
                now,
                None,
            ),
    {
        self.refresh_candidates_exec(account_auths, now, None)
    }

    /// Marks the accounts as having a fetch pending.
    fn mark_pending(&mut self, accounts: &Vec<SavedChatgptAccountAuth>)
        ensures
            final(self).saved_chatgpt_account_rate_limit_pending_ids@.dom()
                == old(self).saved_chatgpt_account_rate_limit_pending_ids@.dom().union(
                ids_of(accounts@),
            ),
            final(self).saved_chatgpt_account_rate_limit_cache@
                == old(self).saved_chatgpt_account_rate_limit_cache@,
            final(self).rate_limit_snapshots_by_limit_id@
                == old(self).rate_limit_snapshots_by_limit_id@,
            final(self).saved_chatgpt_account_zero_limit_notice_account_id
                == old(self).saved_chatgpt_account_zero_limit_notice_account_id,
            final(self).plan_type == old(self).plan_type,
            final(self).active_mcp_action_server == old(self).active_mcp_action_server,
            final(self).pending_mcp_tools_view == old(self).pending_mcp_tools_view,
            final(self).mcp_status_snapshot@ == old(self).mcp_status_snapshot@,
    {
        let n = accounts.len();
        let mut i: usize = 0;
        while i < n
            invariant
                n == accounts@.len(),
                i <= n,
                self.saved_chatgpt_account_rate_limit_pending_ids@.dom()
                    == old(self).saved_chatgpt_account_rate_limit_pending_ids@.dom().union(
                    ids_of(accounts@.subrange(0, i as int)),
                ),
                self.saved_chatgpt_account_rate_limit_cache@
                    == old(self).saved_chatgpt_account_rate_limit_cache@,
                self.rate_limit_snapshots_by_limit_id@
                    == old(self).rate_limit_snapshots_by_limit_id@,
                self.saved_chatgpt_account_zero_limit_notice_account_id
                    == old(self).saved_chatgpt_account_zero_limit_notice_account_id,
                self.plan_type == old(self).plan_type,
                self.active_mcp_action_server == old(self).active_mcp_action_server,
                self.pending_mcp_tools_view == old(self).pending_mcp_tools_view,
                self.mcp_status_snapshot@ == old(self).mcp_status_snapshot@,
            decreases n - i,
        {
            let id = accounts[i].account.id.clone();
            let ghost k = id@;
            let ghost before = self.saved_chatgpt_account_rate_limit_pending_ids@.dom();
            self.saved_chatgpt_account_rate_limit_pending_ids.insert(id, ());
            proof {
                let s0 = accounts@.subrange(0, i as int);
                let s1 = accounts@.subrange(0, i + 1);
                assert(ids_of(s1) =~= ids_of(s0).insert(k)) by {
                    assert forall|x: Seq<char>| ids_of(s1).contains(x) implies ids_of(s0).insert(
                        k,
                    ).contains(x) by {
                        let j = choose|j: int| 0 <= j < s1.len() && (#[trigger] s1[j]).account.id@ == x;
                        if j < i {
                            assert(s0[j] == s1[j]);
                        }
                    }
                    assert forall|x: Seq<char>| ids_of(s0).insert(k).contains(x) implies ids_of(
                        s1,
                    ).contains(x) by {
                        if x == k {
                            assert(s1[i as int].account.id@ == x);
                        } else {
                            let j = choose|j: int| 0 <= j < s0.len() && (#[trigger] s0[j]).account.id@ == x;
                            assert(s1[j] == s0[j]);
                        }
                    }
                }
                assert(self.saved_chatgpt_account_rate_limit_pending_ids@.dom() =~= before.insert(
                    k,
                ));
            }
            i = i + 1;
        }
        assert(accounts@.subrange(0, n as int) =~= accounts@);
    }

    /// Decides whether to switch away from the active account, whose limits
    /// are nearly used up, and to which account.
    pub fn maybe_auto_switch_saved_chatgpt_account(
        &mut self,
        account_auths: &Vec<SavedChatgptAccountAuth>,
        now: Timestamp,
    ) -> (action: AutoSwitchAction)
        ensures
            auto_switch_outcome(
                old(self).plan_type,
                old(self).saved_chatgpt_account_rate_limit_cache@,
                old(self).saved_chatgpt_account_rate_limit_pending_ids@,
                old(self).saved_chatgpt_account_zero_limit_notice_account_id,
                account_auths@,
                now,
                final(self).saved_chatgpt_account_rate_limit_pending_ids@,
                final(self).saved_chatgpt_account_zero_limit_notice_account_id,
                action,
            ),
            final(self).saved_chatgpt_account_rate_limit_cache@
                == old(self).saved_chatgpt_account_rate_limit_cache@,
            final(self).rate_limit_snapshots_by_limit_id@
                == old(self).rate_limit_snapshots_by_limit_id@,
            final(self).plan_type == old(self).plan_type,
            final(self).active_mcp_action_server == old(self).active_mcp_action_server,
            final(self).pending_mcp_tools_view == old(self).pending_mcp_tools_view,
            final(self).mcp_status_snapshot@ == old(self).mcp_status_snapshot@,
    {
        let ghost s = account_auths@;
        let ghost cache = self.saved_chatgpt_account_rate_limit_cache@;
        let n = account_auths.len();
        let mut i: usize = 0;
        while i < n && !account_auths[i].account.is_active
            invariant
                n == s.len(),
                s == account_auths@,
                i <= n,
                first_active_from(s, 0) == first_active_from(s, i as int),
            decreases n - i,
        {
            i = i + 1;
        }
        if i == n {
            return AutoSwitchAction::Nothing;
        }
        let active = &account_auths[i].account;
        let plan_is_pro = match self.plan_type {
            Some(PlanType::Pro) => true,
            _ => false,
        };
        let account_is_pro = match &active.plan_type {
            Some(p) => str_eq_ignore_ascii_case(p.as_str(), "pro"),
            None => false,
        };
        if plan_is_pro || account_is_pro {
            self.saved_chatgpt_account_zero_limit_notice_account_id = None;
            return AutoSwitchAction::Nothing;
        }
        let active_limits = match self.saved_chatgpt_account_rate_limit_cache.get(
            active.id.as_str(),
        ) {
            Some(l) => *l,
            None => return AutoSwitchAction::Nothing,
        };
        let five_low = is_low_exec(active_limits.five_hour_limit_remaining_percent);
        let seven_low = is_low_exec(active_limits.seven_day_limit_remaining_percent);
        if !five_low && !seven_low {
            self.saved_chatgpt_account_zero_limit_notice_account_id = None;
            return AutoSwitchAction::Nothing;
        }
        let to_refresh = self.refresh_candidates_exec(
            account_auths,
            now,
            Some(active.id.as_str()),
        );
        if to_refresh.len() > 0 {
            self.mark_pending(&to_refresh);
            return AutoSwitchAction::RefreshLimits { accounts: to_refresh };
        }
        // Find the best account to switch to.

        let mut best: Option<usize> = None;
        let mut best_percent: u8 = 0;
        let mut k: usize = 0;
        while k < n
            invariant
                n == s.len(),
                s == account_auths@,
                cache == self.saved_chatgpt_account_rate_limit_cache@,
                k <= n,
                best is None ==> forall|x: int|
                    0 <= x < k ==> (#[trigger] candidate_percent(cache, s[x].account)) is None,
                best matches Some(j) ==> {
                    &&& j < k
                    &&& candidate_percent(cache, s[j as int].account) == Some(best_percent)
                    &&& forall|x: int|
                        0 <= x < j && (#[trigger] candidate_percent(cache, s[x].account)) is Some
                            ==> !cand_beats(s, cache, x, j as int)
                    &&& forall|x: int|
                        j < x < k && (#[trigger] candidate_percent(cache, s[x].account)) is Some
                            ==> cand_beats(s, cache, j as int, x)
                },
            decreases n - k,
        {
            let acc = &account_auths[k].account;
            let mut candidate: Option<u8> = None;
            if !acc.is_active {
                match self.saved_chatgpt_account_rate_limit_cache.get(acc.id.as_str()) {
                    Some(limits) => {
                        match (
                            limits.five_hour_limit_remaining_percent,
                            limits.seven_day_limit_remaining_percent,
                        ) {
                            (Some(f), Some(sv)) => {
                                if f > 0 && sv >= ACCOUNT_AUTO_SWITCH_MIN_SEVEN_DAY_REMAINING_PERCENT {
                                    candidate = Some(f);
                                }
                            },
                            _ => {},
                        }
                    },
                    None => {},
                }
            }
            assert(candidate == candidate_percent(cache, s[k as int].account));
            match candidate {
                Some(p) => {
                    match best {
                        None => {
                            best = Some(k);
                            best_percent = p;
                        },
                        Some(j) => {
                            let best_wins = best_percent > p || (best_percent == p && compare_str(
                                account_auths[j].account.id.as_str(),
                                acc.id.as_str(),
                            ) == Order::Less);
                            assert(best_wins == cand_beats(s, cache, j as int, k as int));
                            if !best_wins {
                                proof {
                                    assert forall|x: int|
                                        0 <= x < k && (#[trigger] candidate_percent(
                                            cache,
                                            s[x].account,
                                        )) is Some implies !cand_beats(
                                        s,
                                        cache,
                                        x,
                                        k as int,
                                    ) by {
                                        let px = candidate_percent(cache, s[x].account)->0;
                                        let pj = candidate_percent(cache, s[j as int].account)->0;
                                        let pk = candidate_percent(cache, s[k as int].account)->0;
                                        if x < j {
                                            lemma_not_beats_transitive(
                                                px,
                                                s[x].account.id@,
                                                pj,
                                                s[j as int].account.id@,
                                                pk,
                                                s[k as int].account.id@,
                                            );
                                        } else if x > j {
                                            if cand_beats(s, cache, x, k as int) {
                                                lemma_beats_transitive(
                                                    pj,
                                                    s[j as int].account.id@,
                                                    px,
                                                    s[x].account.id@,
                                                    pk,
                                                    s[k as int].account.id@,
                                                );
                                            }
                                        }
                                    }
                                }
                                best = Some(k);
                                best_percent = p;
                            }
                        },
                    }
                },
                None => {},
            }
            k = k + 1;
        }
        match best {
            Some(j) => {
                let target = &account_auths[j].account;
                let label = account_label(target);
                let mut message = owned(
                    "Auto-switching ChatGPT account because the current account fell below ",
                );
                push_decimal(&mut message, ACCOUNT_AUTO_SWITCH_REMAINING_THRESHOLD_PERCENT as u64);
                push_str(&mut message, "% on ");
                if five_low && seven_low {
                    push_str(&mut message, "the 5h and 7d limits");
                } else if five_low {
                    push_str(&mut message, "the 5h limit");
                } else {
                    push_str(&mut message, "the 7d limit");
                }
                push_str(&mut message, ". Best available account has ");
                push_decimal(&mut message, best_percent as u64);
                push_str(&mut message, "% left on the 5h limit.");
                assert(is_best(s, cache, j as int));
                return AutoSwitchAction::Switch {
                    account_id: target.id.clone(),
                    label,
                    message,
                };
            },
            None => {},
        }
        let already_noticed = match &self.saved_chatgpt_account_zero_limit_notice_account_id {
            Some(x) => str_eq(x.as_str(), active.id.as_str()),
            None => false,
        };
        if already_noticed {
            return AutoSwitchAction::Nothing;
        }
        self.saved_chatgpt_account_zero_limit_notice_account_id = Some(active.id.clone());
        let mut message = owned(
            "No saved ChatGPT accounts have both >0% left on the 5h limit and at least ",
        );
        push_decimal(&mut message, ACCOUNT_AUTO_SWITCH_MIN_SEVEN_DAY_REMAINING_PERCENT as u64);
        push_str(&mut message, "% left on the 7d limit.");
        AutoSwitchAction::Notice { message }
    }
}


// ---------------------------------------------------------------------------
// Loading limits and opening the picker
// ---------------------------------------------------------------------------

/// The cache after `updates`, in order: each update with limits stores them.
pub open spec fn cache_after_updates(
    cache: Map<Seq<char>, SavedChatgptAccountRateLimitCacheEntry>,
    updates: Seq<SavedChatgptAccountRateLimitCacheUpdate>,
) -> Map<Seq<char>, SavedChatgptAccountRateLimitCacheEntry>
    decreases updates.len(),
{
    if updates.len() == 0 {
        cache
    } else {
        let c = cache_after_updates(cache, updates.drop_last());
        match updates.last().limits {
            Some(l) => c.insert(updates.last().account_id@, l),
            None => c,
        }
    }
}

/// The pending fetches after `updates`: each update ends the fetch of its account.
pub open spec fn pending_after_updates(
    pending: Map<Seq<char>, ()>,
    updates: Seq<SavedChatgptAccountRateLimitCacheUpdate>,
) -> Map<Seq<char>, ()>
    decreases updates.len(),
{
    if updates.len() == 0 {
        pending
    } else {
        pending_after_updates(pending, updates.drop_last()).remove(updates.last().account_id@)
    }
}

/// The index of the first active account of `s` at or after `k`.
pub open spec fn first_active_account_from(s: Seq<SavedChatgptAccount>, k: int) -> Option<int>
    decreases s.len() - k,
{
    if k < 0 || k >= s.len() {
        None
    } else if s[k].is_active {
        Some(k)
    } else {
        first_active_account_from(s, k + 1)
    }
}

/// `cache` with `limits` stored for the first active account of `accounts`.
pub open spec fn with_active_limits(
    cache: Map<Seq<char>, SavedChatgptAccountRateLimitCacheEntry>,
    accounts: Seq<SavedChatgptAccount>,
    limits: SavedChatgptAccountRateLimitCacheEntry,
) -> Map<Seq<char>, SavedChatgptAccountRateLimitCacheEntry> {
    match first_active_account_from(accounts, 0) {
        Some(i) => cache.insert(accounts[i].id@, limits),
        None => cache,
    }
}

/// `cache` seeded with the current `codex` limits for the active account.
pub open spec fn seeded_cache(
    cache: Map<Seq<char>, SavedChatgptAccountRateLimitCacheEntry>,
    snapshots: Map<Seq<char>, SavedChatgptAccountRateLimitCacheEntry>,
    accounts: Seq<SavedChatgptAccount>,
) -> Map<Seq<char>, SavedChatgptAccountRateLimitCacheEntry> {
    if snapshots.contains_key("codex"@) {
        with_active_limits(cache, accounts, snapshots["codex"@])
    } else {
        cache
    }
}

/// The accounts of saved logins.
pub open spec fn accounts_of(s: Seq<SavedChatgptAccountAuth>) -> Seq<SavedChatgptAccount> {
    s.map_values(|a: SavedChatgptAccountAuth| a.account)
}

/// The picker entries of `accounts` are those `picker_entry_of` describes.
pub open spec fn are_picker_entries(
    cache: Map<Seq<char>, SavedChatgptAccountRateLimitCacheEntry>,
    pending: Map<Seq<char>, ()>,
    accounts: Seq<SavedChatgptAccount>,
    entries: Seq<SavedChatgptAccountPickerEntry>,
) -> bool {
    &&& entries.len() == accounts.len()
    &&& forall|i: int|
        0 <= i < accounts.len() ==> picker_entry_of(cache, pending, accounts[i], #[trigger] entries[i])
}

/// What opening the account picker does.
#[derive(Debug)]
pub enum OpenAccountPicker {
    /// Show an information message instead of the picker.
    Info { message: String },
    /// Show an error message instead of the picker.
    Error { message: String },
    /// Show (or refresh) the picker, and fetch the limits of these accounts.
    Show { params: SelectionViewParams, refresh: Vec<SavedChatgptAccountAuth> },
}

/// What loading fresh limits does.
#[derive(Debug)]
pub struct RateLimitsLoaded {
    /// The picker to put in place of the open one, when one is open.
    pub picker: Option<SelectionViewParams>,
    /// The outcome of the automatic switch that follows.
    pub auto_switch: AutoSwitchAction,
}

impl StrictOrder for SavedChatgptAccountRateLimitCacheUpdate {
    open spec fn precedes(self, other: Self) -> bool {
        compare_seq(self.account_id@, other.account_id@) == Order::Less
    }

    fn precedes_exec(&self, other: &Self) -> (r: bool) {
        compare_str(self.account_id.as_str(), other.account_id.as_str()) == Order::Less
    }

    proof fn lemma_asymmetric(a: Self, b: Self) {
        lemma_compare_flip(a.account_id@, b.account_id@);
    }

    proof fn lemma_transitive(a: Self, b: Self, c: Self) {
        lemma_compare_less_transitive(a.account_id@, b.account_id@, c.account_id@);
    }

    proof fn lemma_weak(a: Self, b: Self, c: Self) {
        lemma_compare_weak(a.account_id@, b.account_id@, c.account_id@);
    }
}

/// Fetched limits, ordered by account id.
pub fn sort_rate_limit_updates(updates: Vec<SavedChatgptAccountRateLimitCacheUpdate>) -> (r: Vec<
    SavedChatgptAccountRateLimitCacheUpdate,
>)
    ensures
        r@.to_multiset() == updates@.to_multiset(),
        is_sorted(r@),
        exists|perm: Seq<int>| is_stable_arrangement(updates@, r@, perm),
{
    sort_stable(updates)
}

/// The first snapshot that is the `codex` limit: one without a limit id, or
/// whose id is `codex` in any ASCII case.
pub open spec fn is_codex_limit(limit_id: Option<String>) -> bool {
    match limit_id {
        None => true,
        Some(id) => eq_ignore_ascii_case(id@, "codex"@),
    }
}

pub fn codex_rate_limit_snapshot_index(limit_ids: &Vec<Option<String>>) -> (r: Option<usize>)
    ensures
        match r {
            Some(i) => i < limit_ids@.len() && is_codex_limit(limit_ids@[i as int]) && forall|k: int|
                0 <= k < i ==> !is_codex_limit(#[trigger] limit_ids@[k]),
            None => forall|k: int| 0 <= k < limit_ids@.len() ==> !is_codex_limit(#[trigger] limit_ids@[k]),
        },
{
    let n = limit_ids.len();
    let mut i: usize = 0;
    while i < n
        invariant
            n == limit_ids@.len(),
            i <= n,
            forall|k: int| 0 <= k < i ==> !is_codex_limit(#[trigger] limit_ids@[k]),
        decreases n - i,
    {
        let hit = match &limit_ids[i] {
            None => true,
            Some(id) => str_eq_ignore_ascii_case(id.as_str(), "codex"),
        };
        if hit {
            return Some(i);
        }
        i = i + 1;
    }
    None
}

/// The name limits are shown under: the snapshot's, or `codex`.
pub fn rate_limit_name(limit_name: Option<String>) -> (r: String)
    ensures
        r@ == match limit_name {
            Some(n) => n@,
            None => "codex"@,
        },
{
    match limit_name {
        Some(n) => n,
        None => owned("codex"),
    }
}

impl ChatWidget {
    /// Takes in freshly fetched limits.
    pub fn apply_saved_chatgpt_account_rate_limit_updates(
        &mut self,
        updates: &Vec<SavedChatgptAccountRateLimitCacheUpdate>,
    )
        ensures
            final(self).saved_chatgpt_account_rate_limit_cache@ == cache_after_updates(
                old(self).saved_chatgpt_account_rate_limit_cache@,
                updates@,
            ),
            final(self).saved_chatgpt_account_rate_limit_pending_ids@ == pending_after_updates(
                old(self).saved_chatgpt_account_rate_limit_pending_ids@,
                updates@,
            ),
            final(self).saved_chatgpt_account_zero_limit_notice_account_id
                == old(self).saved_chatgpt_account_zero_limit_notice_account_id,
            final(self).rate_limit_snapshots_by_limit_id@
                == old(self).rate_limit_snapshots_by_limit_id@,
            final(self).plan_type == old(self).plan_type,
            final(self).active_mcp_action_server == old(self).active_mcp_action_server,
            final(self).pending_mcp_tools_view == old(self).pending_mcp_tools_view,
            final(self).mcp_status_snapshot@ == old(self).mcp_status_snapshot@,
    {
        let n = updates.len();
        let mut i: usize = 0;
        while i < n
            invariant
                n == updates@.len(),
                i <= n,
                self.saved_chatgpt_account_rate_limit_cache@ == cache_after_updates(
                    old(self).saved_chatgpt_account_rate_limit_cache@,
                    updates@.subrange(0, i as int),
                ),
                self.saved_chatgpt_account_rate_limit_pending_ids@ == pending_after_updates(
                    old(self).saved_chatgpt_account_rate_limit_pending_ids@,
                    updates@.subrange(0, i as int),
                ),
                self.saved_chatgpt_account_zero_limit_notice_account_id
                    == old(self).saved_chatgpt_account_zero_limit_notice_account_id,
                self.rate_limit_snapshots_by_limit_id@
                    == old(self).rate_limit_snapshots_by_limit_id@,
                self.plan_type == old(self).plan_type,
                self.active_mcp_action_server == old(self).active_mcp_action_server,
                self.pending_mcp_tools_view == old(self).pending_mcp_tools_view,
                self.mcp_status_snapshot@ == old(self).mcp_status_snapshot@,
            decreases n - i,
        {
            let update = &updates[i];
            assert(updates@.subrange(0, i + 1).drop_last() =~= updates@.subrange(0, i as int));
            self.saved_chatgpt_account_rate_limit_pending_ids.remove(update.account_id.as_str());
            match update.limits {
                Some(limits) => {
                    self.saved_chatgpt_account_rate_limit_cache.insert(
                        update.account_id.clone(),
                        limits,
                    );
                },
                None => {},
            }
            i = i + 1;
        }
        assert(updates@.subrange(0, n as int) =~= updates@);
    }

    /// Stores `limits` as those of the active account of `accounts`.
    pub fn update_active_saved_chatgpt_account_limit_cache(
        &mut self,
        accounts: &Vec<SavedChatgptAccount>,
        limits: SavedChatgptAccountRateLimitCacheEntry,
    )
        ensures
            final(self).saved_chatgpt_account_rate_limit_cache@ == with_active_limits(
                old(self).saved_chatgpt_account_rate_limit_cache@,
                accounts@,
                limits,
            ),
            final(self).saved_chatgpt_account_rate_limit_pending_ids@
                == old(self).saved_chatgpt_account_rate_limit_pending_ids@,
            final(self).saved_chatgpt_account_zero_limit_notice_account_id
                == old(self).saved_chatgpt_account_zero_limit_notice_account_id,
            final(self).rate_limit_snapshots_by_limit_id@
                == old(self).rate_limit_snapshots_by_limit_id@,
            final(self).plan_type == old(self).plan_type,
            final(self).active_mcp_action_server == old(self).active_mcp_action_server,
            final(self).pending_mcp_tools_view == old(self).pending_mcp_tools_view,
            final(self).mcp_status_snapshot@ == old(self).mcp_status_snapshot@,
    {
        let n = accounts.len();
        let mut i: usize = 0;
        while i < n && !accounts[i].is_active
            invariant
                n == accounts@.len(),
                i <= n,
                first_active_account_from(accounts@, 0) == first_active_account_from(
                    accounts@,
                    i as int,
                ),
            decreases n - i,
        {
            i = i + 1;
        }
        if i < n {
            self.saved_chatgpt_account_rate_limit_cache.insert(accounts[i].id.clone(), limits);
        }
    }

    /// Seeds the cache with the current `codex` limits for the active account.
    pub fn seed_saved_chatgpt_account_limit_cache_from_active_snapshot(
        &mut self,
        accounts: &Vec<SavedChatgptAccount>,
    )
        ensures
            final(self).saved_chatgpt_account_rate_limit_cache@ == seeded_cache(
                old(self).saved_chatgpt_account_rate_limit_cache@,
                old(self).rate_limit_snapshots_by_limit_id@,
                accounts@,
            ),
            final(self).saved_chatgpt_account_rate_limit_pending_ids@
                == old(self).saved_chatgpt_account_rate_limit_pending_ids@,
            final(self).saved_chatgpt_account_zero_limit_notice_account_id
                == old(self).saved_chatgpt_account_zero_limit_notice_account_id,
            final(self).rate_limit_snapshots_by_limit_id@
                == old(self).rate_limit_snapshots_by_limit_id@,
            final(self).plan_type == old(self).plan_type,
            final(self).active_mcp_action_server == old(self).active_mcp_action_server,
            final(self).pending_mcp_tools_view == old(self).pending_mcp_tools_view,
            final(self).mcp_status_snapshot@ == old(self).mcp_status_snapshot@,
    {
        let snapshot = match self.rate_limit_snapshots_by_limit_id.get("codex") {
            Some(s) => *s,
            None => return,
        };
        self.update_active_saved_chatgpt_account_limit_cache(accounts, snapshot);
    }

    /// Opens the account picker on the listed accounts (or the error that
    /// listing them gave), and starts fetching the limits that are missing
    /// or stale.
    pub fn open_saved_chatgpt_account_picker(
        &mut self,
        account_auths: Result<Vec<SavedChatgptAccountAuth>, String>,
        now: Timestamp,
    ) -> (r: OpenAccountPicker)
        ensures
            match account_auths {
                Err(e) => {
                    &&& r matches OpenAccountPicker::Error { message } && message@
                        == "Failed to load saved ChatGPT accounts: "@ + e@
                    &&& final(self).saved_chatgpt_account_rate_limit_cache@
                        == old(self).saved_chatgpt_account_rate_limit_cache@
                    &&& final(self).saved_chatgpt_account_rate_limit_pending_ids@
                        == old(self).saved_chatgpt_account_rate_limit_pending_ids@
                },
                Ok(list) => if list@.len() == 0 {
                    &&& r matches OpenAccountPicker::Info { message } && message@
                        == "No saved ChatGPT accounts found. Run `codex login` to add one."@
                    &&& final(self).saved_chatgpt_account_rate_limit_cache@
                        == old(self).saved_chatgpt_account_rate_limit_cache@
                    &&& final(self).saved_chatgpt_account_rate_limit_pending_ids@
                        == old(self).saved_chatgpt_account_rate_limit_pending_ids@
                } else {
                    let cache = seeded_cache(
                        old(self).saved_chatgpt_account_rate_limit_cache@,
                        old(self).rate_limit_snapshots_by_limit_id@,
                        accounts_of(list@),
                    );
                    let refresh = refresh_candidates(
                        list@,
                        cache,
                        old(self).saved_chatgpt_account_rate_limit_pending_ids@,
                        now,
                        None,
                    );
                    &&& final(self).saved_chatgpt_account_rate_limit_cache@ == cache
                    &&& final(self).saved_chatgpt_account_rate_limit_pending_ids@.dom()
                        == old(self).saved_chatgpt_account_rate_limit_pending_ids@.dom().union(
                        ids_of(refresh),
                    )
                    &&& r matches OpenAccountPicker::Show { params, refresh: to_fetch }
                    &&& to_fetch@ == refresh
                    &&& exists|entries: Seq<SavedChatgptAccountPickerEntry>|
                        #[trigger] are_picker_entries(
                            cache,
                            final(self).saved_chatgpt_account_rate_limit_pending_ids@,
                            accounts_of(list@),
                            entries,
                        ) && is_account_picker(entries, params)
                },
            },
            final(self).saved_chatgpt_account_zero_limit_notice_account_id
                == old(self).saved_chatgpt_account_zero_limit_notice_account_id,
            final(self).rate_limit_snapshots_by_limit_id@
                == old(self).rate_limit_snapshots_by_limit_id@,
            final(self).plan_type == old(self).plan_type,
            final(self).active_mcp_action_server == old(self).active_mcp_action_server,
            final(self).pending_mcp_tools_view == old(self).pending_mcp_tools_view,
            final(self).mcp_status_snapshot@ == old(self).mcp_status_snapshot@,
    {
        let list = match account_auths {
            Err(e) => {
                let mut message = owned("Failed to load saved ChatGPT accounts: ");
                push_str(&mut message, e.as_str());
                return OpenAccountPicker::Error { message };
            },
            Ok(list) => list,
        };
        if list.len() == 0 {
            return OpenAccountPicker::Info {
                message: owned("No saved ChatGPT accounts found. Run `codex login` to add one."),
            };
        }
        let n = list.len();
        let mut accounts: Vec<SavedChatgptAccount> = Vec::new();
        let mut i: usize = 0;
        while i < n
            invariant
                n == list@.len(),
                i <= n,
                accounts@ == accounts_of(list@.subrange(0, i as int)),
            decreases n - i,
        {
            accounts.push(list[i].account.duplicate());
            i = i + 1;
            assert(accounts@ =~= accounts_of(list@.subrange(0, i as int)));
        }
        assert(list@.subrange(0, n as int) =~= list@);
        self.seed_saved_chatgpt_account_limit_cache_from_active_snapshot(&accounts);
        let refresh = self.saved_chatgpt_accounts_needing_limit_refresh(&list, now);
        self.mark_pending(&refresh);
        let entries = self.saved_chatgpt_account_picker_entries(&accounts);
        let ghost e = entries@;
        let params = account_selection_params(entries);
        assert(are_picker_entries(
            self.saved_chatgpt_account_rate_limit_cache@,
            self.saved_chatgpt_account_rate_limit_pending_ids@,
            accounts@,
            e,
        ));
        OpenAccountPicker::Show { params, refresh }
    }

    /// Takes in fetched limits; the picker to show in place of an open one is
    /// built from `accounts` (when listing them succeeded), and the automatic
    /// switch then runs on `account_auths` (when listing them succeeded).
    pub fn on_saved_chatgpt_account_rate_limits_loaded(
        &mut self,
        updates: &Vec<SavedChatgptAccountRateLimitCacheUpdate>,
        accounts: Option<Vec<SavedChatgptAccount>>,
        account_auths: Option<Vec<SavedChatgptAccountAuth>>,
        now: Timestamp,
    ) -> (r: RateLimitsLoaded)
        ensures
            ({
                let cache = cache_after_updates(
                    old(self).saved_chatgpt_account_rate_limit_cache@,
                    updates@,
                );
                let pending = pending_after_updates(
                    old(self).saved_chatgpt_account_rate_limit_pending_ids@,
                    updates@,
                );
                &&& match accounts {
                    Some(a) => r.picker matches Some(p) && exists|entries: Seq<
                        SavedChatgptAccountPickerEntry,
                    >|
                        #[trigger] are_picker_entries(cache, pending, a@, entries)
                            && is_account_picker(entries, p),
                    None => r.picker is None,
                }
                &&& match account_auths {
                    Some(s) => auto_switch_outcome(
                        old(self).plan_type,
                        cache,
                        pending,
                        old(self).saved_chatgpt_account_zero_limit_notice_account_id,
                        s@,
                        now,
                        final(self).saved_chatgpt_account_rate_limit_pending_ids@,
                        final(self).saved_chatgpt_account_zero_limit_notice_account_id,
                        r.auto_switch,
                    ),
                    None => {
                        &&& r.auto_switch is Nothing
                        &&& final(self).saved_chatgpt_account_rate_limit_pending_ids@ == pending
                        &&& final(self).saved_chatgpt_account_zero_limit_notice_account_id
                            == old(self).saved_chatgpt_account_zero_limit_notice_account_id
                    },
                }
                &&& final(self).saved_chatgpt_account_rate_limit_cache@ == cache
            }),
            final(self).rate_limit_snapshots_by_limit_id@
                == old(self).rate_limit_snapshots_by_limit_id@,
            final(self).plan_type == old(self).plan_type,
            final(self).active_mcp_action_server == old(self).active_mcp_action_server,
            final(self).pending_mcp_tools_view == old(self).pending_mcp_tools_view,
            final(self).mcp_status_snapshot@ == old(self).mcp_status_snapshot@,
    {
        self.apply_saved_chatgpt_account_rate_limit_updates(updates);
        let picker = match accounts {
            Some(a) => {
                let entries = self.saved_chatgpt_account_picker_entries(&a);
                let ghost e = entries@;
                let p = account_selection_params(entries);
                assert(are_picker_entries(
                    self.saved_chatgpt_account_rate_limit_cache@,
                    self.saved_chatgpt_account_rate_limit_pending_ids@,
                    a@,
                    e,
                ));
                Some(p)
            },
            None => None,
        };
        let auto_switch = match account_auths {
            Some(s) => self.maybe_auto_switch_saved_chatgpt_account(&s, now),
            None => AutoSwitchAction::Nothing,
        };
        RateLimitsLoaded { picker, auto_switch }
    }

    /// Resets the account state after a switch, and gives the message to show.
    pub fn refresh_auth_state_after_account_switch_with_message(
        &mut self,
        message: String,
        plan_type: Option<PlanType>,
    ) -> (shown: String)
        ensures
            shown == message,
            final(self).plan_type == plan_type,
            final(self).rate_limit_snapshots_by_limit_id@ == Map::<
                Seq<char>,
                SavedChatgptAccountRateLimitCacheEntry,
            >::empty(),
            final(self).saved_chatgpt_account_rate_limit_pending_ids@ == Map::<
                Seq<char>,
                (),
            >::empty(),
            final(self).saved_chatgpt_account_zero_limit_notice_account_id is None,
            final(self).saved_chatgpt_account_rate_limit_cache@
                == old(self).saved_chatgpt_account_rate_limit_cache@,
            final(self).active_mcp_action_server == old(self).active_mcp_action_server,
            final(self).pending_mcp_tools_view == old(self).pending_mcp_tools_view,
            final(self).mcp_status_snapshot@ == old(self).mcp_status_snapshot@,
    {
        self.plan_type = plan_type;
        self.rate_limit_snapshots_by_limit_id.clear();
        self.saved_chatgpt_account_rate_limit_pending_ids.clear();
        self.saved_chatgpt_account_zero_limit_notice_account_id = None;
        message
    }

    /// Resets the account state after switching to the account `label`.
    pub fn refresh_auth_state_after_account_switch(
        &mut self,
        label: &str,
        plan_type: Option<PlanType>,
    ) -> (shown: String)
        ensures
            shown@ == "Switched ChatGPT account to "@ + label@ + "."@,
            final(self).plan_type == plan_type,
            final(self).rate_limit_snapshots_by_limit_id@ == Map::<
                Seq<char>,
                SavedChatgptAccountRateLimitCacheEntry,
            >::empty(),
            final(self).saved_chatgpt_account_rate_limit_pending_ids@ == Map::<
                Seq<char>,
                (),
            >::empty(),
            final(self).saved_chatgpt_account_zero_limit_notice_account_id is None,
            final(self).saved_chatgpt_account_rate_limit_cache@
                == old(self).saved_chatgpt_account_rate_limit_cache@,
            final(self).active_mcp_action_server == old(self).active_mcp_action_server,
            final(self).pending_mcp_tools_view == old(self).pending_mcp_tools_view,
            final(self).mcp_status_snapshot@ == old(self).mcp_status_snapshot@,
    {
        let mut message = owned("Switched ChatGPT account to ");
        push_str(&mut message, label);
        push_str(&mut message, ".");
        self.refresh_auth_state_after_account_switch_with_message(message, plan_type)
    }
}

// ---------------------------------------------------------------------------
// Laws
// ---------------------------------------------------------------------------

/// The account an action switches to.
pub open spec fn switch_target_id(action: AutoSwitchAction) -> Option<Seq<char>> {
    match action {
        AutoSwitchAction::Switch { account_id, .. } => Some(account_id@),
        _ => None,
    }
}

/// A Pro plan, or a Pro active account, is never switched away from.
pub proof fn law_pro_account_never_switches(
    plan: Option<PlanType>,
    cache: Map<Seq<char>, SavedChatgptAccountRateLimitCacheEntry>,
    pending: Map<Seq<char>, ()>,
    notice: Option<String>,
    s: Seq<SavedChatgptAccountAuth>,
    now: Timestamp,
    pending2: Map<Seq<char>, ()>,
    notice2: Option<String>,
    action: AutoSwitchAction,
)
    requires
        auto_switch_outcome(plan, cache, pending, notice, s, now, pending2, notice2, action),
        first_active_from(s, 0) matches Some(i) && is_pro_account(plan, s[i].account),
    ensures
        action is Nothing,
        pending2 == pending,
{
}

/// The switch goes to an account other than the active one that can be
/// switched to: its cached limits have more than 0% left on the 5h limit and
/// at least the minimum on the 7d limit.
pub proof fn law_switch_targets_usable_account(
    plan: Option<PlanType>,
    cache: Map<Seq<char>, SavedChatgptAccountRateLimitCacheEntry>,
    pending: Map<Seq<char>, ()>,
    notice: Option<String>,
    s: Seq<SavedChatgptAccountAuth>,
    now: Timestamp,
    pending2: Map<Seq<char>, ()>,
    notice2: Option<String>,
    action: AutoSwitchAction,
)
    requires
        auto_switch_outcome(plan, cache, pending, notice, s, now, pending2, notice2, action),
        action is Switch,
    ensures
        exists|j: int|
            0 <= j < s.len() && (#[trigger] candidate_percent(cache, s[j].account)) is Some
                && !s[j].account.is_active && switch_target_id(action) == Some(s[j].account.id@),
{
    let i = first_active_from(s, 0)->0;
    let j = choose|j: int|
        #![trigger is_best(s, cache, j)]
        is_best(s, cache, j) && is_switch_to(
            s,
            cache,
            j,
            is_low(cache[s[i].account.id@].five_hour_limit_remaining_percent),
            is_low(cache[s[i].account.id@].seven_day_limit_remaining_percent),
            action,
        );
    assert(!s[j].account.is_active);
}

/// An account whose limits are already being fetched is never asked for again.
pub proof fn law_pending_not_refreshed(
    s: Seq<SavedChatgptAccountAuth>,
    cache: Map<Seq<char>, SavedChatgptAccountRateLimitCacheEntry>,
    pending: Map<Seq<char>, ()>,
    now: Timestamp,
    exclude: Option<Seq<char>>,
)
    ensures
        forall|k: int|
            0 <= k < refresh_candidates(s, cache, pending, now, exclude).len() ==> !pending.contains_key(
                (#[trigger] refresh_candidates(s, cache, pending, now, exclude)[k]).account.id@,
            ),
    decreases s.len(),
{
    if s.len() > 0 {
        law_pending_not_refreshed(s.drop_last(), cache, pending, now, exclude);
    }
}

/// The notice that no account can take over is given once: asked again with
/// the same accounts, limits and time, the switch does nothing and keeps the
/// notice.
pub proof fn law_notice_given_once(
    plan: Option<PlanType>,
    cache: Map<Seq<char>, SavedChatgptAccountRateLimitCacheEntry>,
    pending: Map<Seq<char>, ()>,
    notice: Option<String>,
    s: Seq<SavedChatgptAccountAuth>,
    now: Timestamp,
    pending2: Map<Seq<char>, ()>,
    notice2: Option<String>,
    action: AutoSwitchAction,
    pending3: Map<Seq<char>, ()>,
    notice3: Option<String>,
    action3: AutoSwitchAction,
)
    requires
        auto_switch_outcome(plan, cache, pending, notice, s, now, pending2, notice2, action),
        action is Notice,
        auto_switch_outcome(plan, cache, pending2, notice2, s, now, pending3, notice3, action3),
    ensures
        action3 is Nothing,
        notice3 == notice2,
        pending3 == pending2,
{
}

/// An update that carries no limits (its fetch failed) never removes or
/// changes cached limits: an account that received no update with limits
/// keeps exactly the cache entry it had.
pub proof fn law_updates_without_limits_keep_cache(
    cache: Map<Seq<char>, SavedChatgptAccountRateLimitCacheEntry>,
    updates: Seq<SavedChatgptAccountRateLimitCacheUpdate>,
    k: Seq<char>,
)
    requires
        forall|j: int|
            0 <= j < updates.len() ==> !((#[trigger] updates[j]).account_id@ == k
                && updates[j].limits is Some),
    ensures
        cache_after_updates(cache, updates).contains_key(k) == cache.contains_key(k),
        cache.contains_key(k) ==> cache_after_updates(cache, updates)[k] == cache[k],
    decreases updates.len(),
{
    if updates.len() > 0 {
        let t = updates.drop_last();
        assert forall|j: int| 0 <= j < t.len() implies !((#[trigger] t[j]).account_id@ == k
            && t[j].limits is Some) by {
            assert(t[j] == updates[j]);
        }
        law_updates_without_limits_keep_cache(cache, t, k);
        assert(!(updates[updates.len() - 1].account_id@ == k && updates[updates.len() - 1].limits is Some));
    }
}

/// An update that carries limits sets them: after the updates, an account
/// holds the limits of the last update for it that carries any.
pub proof fn law_last_update_with_limits_wins(
    cache: Map<Seq<char>, SavedChatgptAccountRateLimitCacheEntry>,
    updates: Seq<SavedChatgptAccountRateLimitCacheUpdate>,
    j: int,
)
    requires
        0 <= j < updates.len(),
        updates[j].limits is Some,
        forall|l: int|
            j < l < updates.len() ==> !((#[trigger] updates[l]).account_id@ == updates[j].account_id@
                && updates[l].limits is Some),
    ensures
        cache_after_updates(cache, updates).contains_key(updates[j].account_id@),
        cache_after_updates(cache, updates)[updates[j].account_id@] == updates[j].limits->0,
    decreases updates.len(),
{
    let k = updates[j].account_id@;
    if j < updates.len() - 1 {
        let t = updates.drop_last();
        assert(t[j] == updates[j]);
        assert forall|l: int| j < l < t.len() implies !((#[trigger] t[l]).account_id@ == t[j].account_id@
            && t[l].limits is Some) by {
            assert(t[l] == updates[l]);
        }
        law_last_update_with_limits_wins(cache, t, j);
        assert(!(updates[updates.len() - 1].account_id@ == k && updates[updates.len() - 1].limits is Some));
    }
}

proof fn lemma_first_active_at(s: Seq<SavedChatgptAccountAuth>, k: int, i: int)
    requires
        0 <= k <= i < s.len(),
        s[i].account.is_active,
        forall|j: int| k <= j < i ==> !(#[trigger] s[j]).account.is_active,
    ensures
        first_active_from(s, k) == Some(i),
    decreases i - k,
{
    if k < i {
        lemma_first_active_at(s, k + 1, i);
    }
}

/// When the active account is not on a Pro plan and its cached 5h and 7d
/// limits both have more than the threshold left (or are unknown), the
/// automatic switch does nothing and forgets the notice, so a later shortage
/// is announced again.
pub proof fn law_healthy_active_account_clears_notice(
    plan: Option<PlanType>,
    cache: Map<Seq<char>, SavedChatgptAccountRateLimitCacheEntry>,
    pending: Map<Seq<char>, ()>,
    notice: Option<String>,
    s: Seq<SavedChatgptAccountAuth>,
    now: Timestamp,
    pending2: Map<Seq<char>, ()>,
    notice2: Option<String>,
    action: AutoSwitchAction,
    i: int,
)
    requires
        auto_switch_outcome(plan, cache, pending, notice, s, now, pending2, notice2, action),
        0 <= i < s.len(),
        s[i].account.is_active,
        forall|j: int| 0 <= j < i ==> !(#[trigger] s[j]).account.is_active,
        plan != Some(PlanType::Pro),
        s[i].account.plan_type is None,
        cache.contains_key(s[i].account.id@),
        forall|x: u8|
            cache[s[i].account.id@].five_hour_limit_remaining_percent == Some(x) ==> x
                > ACCOUNT_AUTO_SWITCH_REMAINING_THRESHOLD_PERCENT,
        forall|x: u8|
            cache[s[i].account.id@].seven_day_limit_remaining_percent == Some(x) ==> x
                > ACCOUNT_AUTO_SWITCH_REMAINING_THRESHOLD_PERCENT,
    ensures
        action is Nothing,
        notice2 is None,
        pending2 == pending,
{
    lemma_first_active_at(s, 0, i);
    let e = cache[s[i].account.id@];
    if let Some(x) = e.five_hour_limit_remaining_percent {
        assert(x > ACCOUNT_AUTO_SWITCH_REMAINING_THRESHOLD_PERCENT);
    }
    if let Some(x) = e.seven_day_limit_remaining_percent {
        assert(x > ACCOUNT_AUTO_SWITCH_REMAINING_THRESHOLD_PERCENT);
    }
}

} // verus!
