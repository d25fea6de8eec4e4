//! The registry of saved ChatGPT logins: how an account is identified, when
//! two logins are the same account, and how the registry is updated, listed
//! and switched.

use vstd::prelude::*;
use sha2::Digest;
use crate::clock::Timestamp;
use crate::sort::{StrictOrder, is_sorted, is_stable_arrangement, sort_stable};
use crate::text::{
    clone_opt, compare_seq, compare_str, lemma_compare_equal, lemma_compare_flip,
    lemma_compare_less_transitive, lemma_compare_weak, opt_str_eq, opt_view, owned, push_char, push_str, str_eq, Order,
};

verus! {

broadcast use vstd::seq_lib::group_to_multiset_ensures;

// ---------------------------------------------------------------------------
// Stored logins
// ---------------------------------------------------------------------------

/// How a login authenticates.
#[derive(PartialEq, Eq, Structural, Clone, Copy, Debug)]
pub enum AuthMode {
    ApiKey,
    Chatgpt,
    ChatgptAuthTokens,
    AgentIdentity,
}

/// Where credentials are kept.
#[derive(PartialEq, Eq, Structural, Clone, Copy, Debug)]
pub enum AuthCredentialsStoreMode {
    File,
    Keyring,
    Auto,
    Ephemeral,
}

/// The claims of a login's ID token that the registry reads; the plan type is
/// held as the name it is shown by.
#[derive(Debug, PartialEq)]
pub struct IdTokenInfo {
    pub email: Option<String>,
    pub chatgpt_plan_type: Option<String>,
    pub chatgpt_user_id: Option<String>,
    pub chatgpt_account_id: Option<String>,
    pub raw_jwt: String,
}

/// The tokens of a ChatGPT login.
#[derive(Debug, PartialEq)]
pub struct TokenData {
    pub id_token: IdTokenInfo,
    pub access_token: String,
    pub refresh_token: String,
    pub account_id: Option<String>,
}

/// A stored login.
#[derive(Debug, PartialEq)]
pub struct AuthDotJson {
    pub auth_mode: Option<AuthMode>,
    pub openai_api_key: Option<String>,
    pub tokens: Option<TokenData>,
    pub last_refresh: Option<Timestamp>,
}

/// The saved ChatGPT logins.
#[derive(Debug, PartialEq)]
pub struct SavedChatgptAccounts {
    pub accounts: Vec<AuthDotJson>,
}

impl IdTokenInfo {
    pub fn duplicate(&self) -> (r: Self)
        ensures
            r == *self,
    {
        IdTokenInfo {
            email: clone_opt(&self.email),
            chatgpt_plan_type: clone_opt(&self.chatgpt_plan_type),
            chatgpt_user_id: clone_opt(&self.chatgpt_user_id),
            chatgpt_account_id: clone_opt(&self.chatgpt_account_id),
            raw_jwt: self.raw_jwt.clone(),
        }
    }

    /// The plan type, by the name it is shown by.
    pub fn get_chatgpt_plan_type(&self) -> (r: Option<String>)
        ensures
            r == self.chatgpt_plan_type,
    {
        clone_opt(&self.chatgpt_plan_type)
    }
}

impl TokenData {
    pub fn duplicate(&self) -> (r: Self)
        ensures
            r == *self,
    {
        TokenData {
            id_token: self.id_token.duplicate(),
            access_token: self.access_token.clone(),
            refresh_token: self.refresh_token.clone(),
            account_id: clone_opt(&self.account_id),
        }
    }
}

impl AuthDotJson {
    pub fn duplicate(&self) -> (r: Self)
        ensures
            r == *self,
    {
        AuthDotJson {
            auth_mode: self.auth_mode,
            openai_api_key: clone_opt(&self.openai_api_key),
            tokens: match &self.tokens {
                Some(t) => Some(t.duplicate()),
                None => None,
            },
            last_refresh: self.last_refresh,
        }
    }

    /// The mode the login is used in: the recorded one, or else API key when a
    /// key is stored, or else ChatGPT.
    pub fn resolved_mode(&self) -> (m: AuthMode)
        ensures
            m == resolved_mode_of(*self),
    {
        match self.auth_mode {
            Some(mode) => mode,
            None => if self.openai_api_key.is_some() {
                AuthMode::ApiKey
            } else {
                AuthMode::Chatgpt
            },
        }
    }
}

pub open spec fn resolved_mode_of(a: AuthDotJson) -> AuthMode {
    match a.auth_mode {
        Some(mode) => mode,
        None => if a.openai_api_key is Some {
            AuthMode::ApiKey
        } else {
            AuthMode::Chatgpt
        },
    }
}

/// A login whose ChatGPT tokens this program manages.
pub open spec fn is_managed(a: AuthDotJson) -> bool {
    resolved_mode_of(a) == AuthMode::Chatgpt
}

pub fn is_managed_chatgpt_auth(auth: &AuthDotJson) -> (r: bool)
    ensures
        r == is_managed(*auth),
{
    auth.resolved_mode() == AuthMode::Chatgpt
}

/// Two logins that hold the same characters in every field.
pub open spec fn same_id_token(a: IdTokenInfo, b: IdTokenInfo) -> bool {
    &&& opt_view(a.email) == opt_view(b.email)
    &&& opt_view(a.chatgpt_plan_type) == opt_view(b.chatgpt_plan_type)
    &&& opt_view(a.chatgpt_user_id) == opt_view(b.chatgpt_user_id)
    &&& opt_view(a.chatgpt_account_id) == opt_view(b.chatgpt_account_id)
    &&& a.raw_jwt@ == b.raw_jwt@
}

pub open spec fn same_tokens(a: TokenData, b: TokenData) -> bool {
    &&& same_id_token(a.id_token, b.id_token)
    &&& a.access_token@ == b.access_token@
    &&& a.refresh_token@ == b.refresh_token@
    &&& opt_view(a.account_id) == opt_view(b.account_id)
}

pub open spec fn same_auth(a: AuthDotJson, b: AuthDotJson) -> bool {
    &&& a.auth_mode == b.auth_mode
    &&& opt_view(a.openai_api_key) == opt_view(b.openai_api_key)
    &&& match (a.tokens, b.tokens) {
        (Some(x), Some(y)) => same_tokens(x, y),
        (None, None) => true,
        _ => false,
    }
    &&& a.last_refresh == b.last_refresh
}

/// `==` on stored logins.
pub fn auth_dot_json_eq(a: &AuthDotJson, b: &AuthDotJson) -> (r: bool)
    ensures
        r == same_auth(*a, *b),
{
    let tokens_eq = match (&a.tokens, &b.tokens) {
        (Some(x), Some(y)) => {
            opt_str_eq(&x.id_token.email, &y.id_token.email) && opt_str_eq(
                &x.id_token.chatgpt_plan_type,
                &y.id_token.chatgpt_plan_type,
            ) && opt_str_eq(&x.id_token.chatgpt_user_id, &y.id_token.chatgpt_user_id)
                && opt_str_eq(&x.id_token.chatgpt_account_id, &y.id_token.chatgpt_account_id)
                && str_eq(x.id_token.raw_jwt.as_str(), y.id_token.raw_jwt.as_str()) && str_eq(
                x.access_token.as_str(),
                y.access_token.as_str(),
            ) && str_eq(x.refresh_token.as_str(), y.refresh_token.as_str()) && opt_str_eq(
                &x.account_id,
                &y.account_id,
            )
        },
        (None, None) => true,
        _ => false,
    };
    a.auth_mode == b.auth_mode && opt_str_eq(&a.openai_api_key, &b.openai_api_key) && tokens_eq
        && a.last_refresh == b.last_refresh
}

// ---------------------------------------------------------------------------
// Account ids
// ---------------------------------------------------------------------------

/// The SHA-256 digest of `data`.
pub uninterp spec fn sha256_of(data: Seq<u8>) -> Seq<u8>;

/// `<sha2::Sha256 as Digest>::digest`: the 32-byte SHA-256 digest of `data`,
/// named by `sha256_of`; only its length is stated.
#[verifier::external_body]
fn sha256(data: &[u8]) -> (r: Vec<u8>)
    ensures
        r@ == sha256_of(data@),
        r@.len() == 32,
{
    sha2::Sha256::digest(data).to_vec()
}

/// The lower-case hex digit for `d` (`0 <= d < 16`).
pub open spec fn hex_digit_char(d: int) -> char {
    if d < 10 {
        crate::text::digit_char(d)
    } else if d == 10 {
        'a'
    } else if d == 11 {
        'b'
    } else if d == 12 {
        'c'
    } else if d == 13 {
        'd'
    } else if d == 14 {
        'e'
    } else {
        'f'
    }
}

/// Each byte as two lower-case hex digits, high half first (`{:x}` on a digest).
pub open spec fn hex_lower(bytes: Seq<u8>) -> Seq<char>
    decreases bytes.len(),
{
    if bytes.len() == 0 {
        seq![]
    } else {
        hex_lower(bytes.drop_last()).push(hex_digit_char((bytes.last() / 16) as int)).push(
            hex_digit_char((bytes.last() % 16) as int),
        )
    }
}

fn hex_digit(d: u8) -> (c: char)
    requires
        d < 16,
    ensures
        c == hex_digit_char(d as int),
{
    if d == 0 { '0' } else if d == 1 { '1' } else if d == 2 { '2' } else if d == 3 { '3' }
    else if d == 4 { '4' } else if d == 5 { '5' } else if d == 6 { '6' } else if d == 7 { '7' }
    else if d == 8 { '8' } else if d == 9 { '9' } else if d == 10 { 'a' } else if d == 11 { 'b' }
    else if d == 12 { 'c' } else if d == 13 { 'd' } else if d == 14 { 'e' } else { 'f' }
}

/// Appends `hex_lower(bytes)` to `s`.
fn push_hex_lower(s: &mut String, bytes: &Vec<u8>)
    ensures
        final(s)@ == old(s)@ + hex_lower(bytes@),
{
    let ghost start = s@;
    let n = bytes.len();
    let mut i: usize = 0;
    while i < n
        invariant
            n == bytes@.len(),
            i <= n,
            s@ == start + hex_lower(bytes@.subrange(0, i as int)),
        decreases n - i,
    {
        let b = bytes[i];
        push_char(s, hex_digit(b / 16));
        push_char(s, hex_digit(b % 16));
        let ghost pre = bytes@.subrange(0, i as int);
        i = i + 1;
        assert(bytes@.subrange(0, i as int).drop_last() =~= pre);
        assert(s@ =~= start + hex_lower(bytes@.subrange(0, i as int)));
    }
    assert(bytes@.subrange(0, n as int) =~= bytes@);
}

/// The part of the token digest that names an account without other ids: the
/// first 16 hex digits of the SHA-256 of the raw JWT's UTF-8 bytes.
pub open spec fn token_fingerprint(raw_jwt: Seq<char>) -> Seq<char> {
    let h = hex_lower(sha256_of(vstd::utf8::encode_utf8(raw_jwt)));
    if h.len() >= 16 {
        h.take(16)
    } else {
        h
    }
}

/// The id of a saved account: the first of account id, workspace id, user id
/// and email that the tokens hold, with its kind as prefix, or else a
/// fingerprint of the ID token. Only managed ChatGPT logins with tokens have one.
pub open spec fn account_id_of(a: AuthDotJson) -> Option<Seq<char>> {
    if !is_managed(a) {
        None
    } else {
        match a.tokens {
            None => None,
            Some(t) => if t.account_id is Some {
                Some("account:"@ + t.account_id->0@)
            } else if t.id_token.chatgpt_account_id is Some {
                Some("workspace:"@ + t.id_token.chatgpt_account_id->0@)
            } else if t.id_token.chatgpt_user_id is Some {
                Some("user:"@ + t.id_token.chatgpt_user_id->0@)
            } else if t.id_token.email is Some {
                Some("email:"@ + t.id_token.email->0@)
            } else {
                Some("token:"@ + token_fingerprint(t.id_token.raw_jwt@))
            },
        }
    }
}

fn prefixed(prefix: &str, value: &String) -> (r: String)
    ensures
        r@ == prefix@ + value@,
{
    let mut r = owned(prefix);
    push_str(&mut r, value.as_str());
    r
}

pub fn saved_chatgpt_account_id(auth: &AuthDotJson) -> (r: Option<String>)
    ensures
        opt_view(r) == account_id_of(*auth),
{
    if !is_managed_chatgpt_auth(auth) {
        return None;
    }
    let tokens = match &auth.tokens {
        Some(t) => t,
        None => return None,
    };
    if let Some(account_id) = &tokens.account_id {
        return Some(prefixed("account:", account_id));
    }
    if let Some(workspace_id) = &tokens.id_token.chatgpt_account_id {
        return Some(prefixed("workspace:", workspace_id));
    }
    if let Some(user_id) = &tokens.id_token.chatgpt_user_id {
        return Some(prefixed("user:", user_id));
    }
    if let Some(email) = &tokens.id_token.email {
        return Some(prefixed("email:", email));
    }
    let digest = sha256(tokens.id_token.raw_jwt.as_str().as_bytes());
    let mut fallback = String::new();
    push_hex_lower(&mut fallback, &digest);
    let mut r = owned("token:");
    if fallback.unicode_len() >= 16 {
        push_str(&mut r, fallback.as_str().substring_char(0, 16));
        assert(fallback@.subrange(0, 16) =~= fallback@.take(16));
    } else {
        push_str(&mut r, fallback.as_str());
    }
    Some(r)
}

// ---------------------------------------------------------------------------
// Sameness of accounts
// ---------------------------------------------------------------------------

/// Whether two optional ids are both present and hold the same characters, or
/// `None` when one of them is missing.
pub open spec fn both_present_eq(a: Option<String>, b: Option<String>) -> Option<bool> {
    match (a, b) {
        (Some(x), Some(y)) => Some(x@ == y@),
        _ => None,
    }
}

/// Whether `existing` and `candidate` are logins of the same account: both
/// managed, and either their ids agree, or the first of account id, workspace
/// id, user id and email that both carry agrees.
pub open spec fn same_account(existing: AuthDotJson, candidate: AuthDotJson) -> bool {
    if !is_managed(existing) || !is_managed(candidate) {
        false
    } else if account_id_of(existing) is Some && account_id_of(existing) == account_id_of(
        candidate,
    ) {
        true
    } else {
        match (existing.tokens, candidate.tokens) {
            (Some(e), Some(c)) => {
                if both_present_eq(e.account_id, c.account_id) is Some {
                    both_present_eq(e.account_id, c.account_id)->0
                } else if both_present_eq(
                    e.id_token.chatgpt_account_id,
                    c.id_token.chatgpt_account_id,
                ) is Some {
                    both_present_eq(e.id_token.chatgpt_account_id, c.id_token.chatgpt_account_id)->0
                } else if both_present_eq(e.id_token.chatgpt_user_id, c.id_token.chatgpt_user_id) is Some {
                    both_present_eq(e.id_token.chatgpt_user_id, c.id_token.chatgpt_user_id)->0
                } else if both_present_eq(e.id_token.email, c.id_token.email) is Some {
                    both_present_eq(e.id_token.email, c.id_token.email)->0
                } else {
                    false
                }
            },
            _ => false,
        }
    }
}

fn both_present_eq_exec(a: &Option<String>, b: &Option<String>) -> (r: Option<bool>)
    ensures
        r == both_present_eq(*a, *b),
{
    match (a, b) {
        (Some(x), Some(y)) => Some(str_eq(x.as_str(), y.as_str())),
        _ => None,
    }
}

pub fn is_same_saved_chatgpt_account(existing: &AuthDotJson, candidate: &AuthDotJson) -> (r: bool)
    ensures
        r == same_account(*existing, *candidate),
{
    if !is_managed_chatgpt_auth(existing) || !is_managed_chatgpt_auth(candidate) {
        return false;
    }
    if let Some(existing_id) = saved_chatgpt_account_id(existing) {
        match saved_chatgpt_account_id(candidate) {
            Some(candidate_id) => {
                if str_eq(existing_id.as_str(), candidate_id.as_str()) {
                    return true;
                }
            },
            None => {},
        }
    }
    let existing_tokens = match &existing.tokens {
        Some(t) => t,
        None => return false,
    };
    let candidate_tokens = match &candidate.tokens {
        Some(t) => t,
        None => return false,
    };
    if let Some(same) = both_present_eq_exec(&existing_tokens.account_id, &candidate_tokens.account_id) {
        return same;
    }
    if let Some(same) = both_present_eq_exec(
        &existing_tokens.id_token.chatgpt_account_id,
        &candidate_tokens.id_token.chatgpt_account_id,
    ) {
        return same;
    }
    if let Some(same) = both_present_eq_exec(
        &existing_tokens.id_token.chatgpt_user_id,
        &candidate_tokens.id_token.chatgpt_user_id,
    ) {
        return same;
    }
    if let Some(same) = both_present_eq_exec(
        &existing_tokens.id_token.email,
        &candidate_tokens.id_token.email,
    ) {
        return same;
    }
    false
}

/// Being the same account is symmetric.
pub proof fn law_same_account_symmetric(a: AuthDotJson, b: AuthDotJson)
    ensures
        same_account(a, b) == same_account(b, a),
{
}

/// A managed login with an id is the same account as itself.
pub proof fn law_same_account_reflexive(a: AuthDotJson)
    requires
        is_managed(a),
        account_id_of(a) is Some,
    ensures
        same_account(a, a),
{
}

// ---------------------------------------------------------------------------
// Updating the registry
// ---------------------------------------------------------------------------

/// A login the registry records: managed, and with an id.
pub open spec fn is_recordable(a: AuthDotJson) -> bool {
    is_managed(a) && account_id_of(a) is Some
}

/// `i` is the first entry of `s` that is the same account as `a`.
pub open spec fn first_same_at(s: Seq<AuthDotJson>, a: AuthDotJson, i: int) -> bool {
    &&& 0 <= i < s.len()
    &&& same_account(s[i], a)
    &&& forall|k: int| 0 <= k < i ==> !same_account(#[trigger] s[k], a)
}

/// What recording `a` in the registry `old` gives: `new` and whether it changed.
/// A login that is not recordable changes nothing. Otherwise the first entry
/// of the same account is replaced by `a`, unless it already equals `a`; and
/// when there is none, `a` is appended.
pub open spec fn upsert_outcome(
    old: Seq<AuthDotJson>,
    a: AuthDotJson,
    new: Seq<AuthDotJson>,
    changed: bool,
) -> bool {
    if !is_recordable(a) {
        !changed && new == old
    } else if exists|i: int| first_same_at(old, a, i) {
        exists|i: int|
            #![trigger first_same_at(old, a, i)]
            first_same_at(old, a, i) && if same_auth(old[i], a) {
                !changed && new == old
            } else {
                changed && new == old.update(i, a)
            }
    } else {
        changed && new == old.push(a)
    }
}

pub fn upsert_saved_chatgpt_account_in_registry(accounts: &mut Vec<AuthDotJson>, auth: &AuthDotJson) -> (changed: bool)
    ensures
        upsert_outcome(old(accounts)@, *auth, final(accounts)@, changed),
{
    if !is_managed_chatgpt_auth(auth) || saved_chatgpt_account_id(auth).is_none() {
        return false;
    }
    let n = accounts.len();
    let mut i: usize = 0;
    while i < n && !is_same_saved_chatgpt_account(&accounts[i], auth)
        invariant
            n == accounts@.len(),
            i <= n,
            forall|k: int| 0 <= k < i ==> !same_account(#[trigger] accounts@[k], *auth),
        decreases n - i,
    {
        i = i + 1;
    }
    if i < n {
        assert(first_same_at(accounts@, *auth, i as int));
        if auth_dot_json_eq(&accounts[i], auth) {
            return false;
        }
        accounts.set(i, auth.duplicate());
        return true;
    }
    assert forall|j: int| !first_same_at(old(accounts)@, *auth, j) by {
        if 0 <= j < n {
            assert(!same_account(accounts@[j], *auth));
        }
    }
    accounts.push(auth.duplicate());
    true
}

/// The outcome of recording a login is determined by the registry and the login.
pub proof fn law_upsert_deterministic(
    old: Seq<AuthDotJson>,
    a: AuthDotJson,
    new1: Seq<AuthDotJson>,
    changed1: bool,
    new2: Seq<AuthDotJson>,
    changed2: bool,
)
    requires
        upsert_outcome(old, a, new1, changed1),
        upsert_outcome(old, a, new2, changed2),
    ensures
        new1 == new2,
        changed1 == changed2,
{
    if is_recordable(a) && exists|i: int| first_same_at(old, a, i) {
        let i1 = choose|i: int|
            first_same_at(old, a, i) && if same_auth(old[i], a) {
                !changed1 && new1 == old
            } else {
                changed1 && new1 == old.update(i, a)
            };
        let i2 = choose|i: int|
            first_same_at(old, a, i) && if same_auth(old[i], a) {
                !changed2 && new2 == old
            } else {
                changed2 && new2 == old.update(i, a)
            };
        if i1 < i2 {
            assert(!same_account(old[i1], a));
        } else if i2 < i1 {
            assert(!same_account(old[i2], a));
        }
    }
}

/// Recording a login a second time changes nothing and reports no change.
pub proof fn law_upsert_idempotent(old: Seq<AuthDotJson>, a: AuthDotJson, new: Seq<AuthDotJson>, changed: bool)
    requires
        upsert_outcome(old, a, new, changed),
    ensures
        upsert_outcome(new, a, new, false),
{
    if is_recordable(a) {
        assert(same_account(a, a));
        if exists|i: int| first_same_at(old, a, i) {
            let i = choose|i: int|
                first_same_at(old, a, i) && if same_auth(old[i], a) {
                    !changed && new == old
                } else {
                    changed && new == old.update(i, a)
                };
            assert(first_same_at(new, a, i));
            assert(same_auth(new[i], a));
        } else {
            let i = old.len() as int;
            assert forall|k: int| 0 <= k < i implies !same_account(#[trigger] new[k], a) by {
                assert(new[k] == old[k]);
                if same_account(old[k], a) {
                    assert(first_same_at(old, a, k) || exists|j: int| first_same_at(old, a, j)) by {
                        lemma_first_same_exists(old, a, k);
                    }
                }
            }
            assert(first_same_at(new, a, i));
        }
    }
}

/// When some entry is the same account, there is a first such entry.
pub proof fn lemma_first_same_exists(s: Seq<AuthDotJson>, a: AuthDotJson, k: int)
    requires
        0 <= k < s.len(),
        same_account(s[k], a),
    ensures
        exists|i: int| first_same_at(s, a, i),
    decreases k,
{
    if exists|j: int| 0 <= j < k && same_account(#[trigger] s[j], a) {
        let j = choose|j: int| 0 <= j < k && same_account(#[trigger] s[j], a);
        lemma_first_same_exists(s, a, j);
    } else {
        assert(first_same_at(s, a, k));
    }
}

/// After a recordable login is recorded, the registry holds an entry equal to it.
pub proof fn law_upsert_records(old: Seq<AuthDotJson>, a: AuthDotJson, new: Seq<AuthDotJson>, changed: bool)
    requires
        upsert_outcome(old, a, new, changed),
        is_recordable(a),
    ensures
        exists|i: int| 0 <= i < new.len() && same_auth(#[trigger] new[i], a),
        new.len() == old.len() || new.len() == old.len() + 1,
{
    if exists|i: int| first_same_at(old, a, i) {
        let i = choose|i: int|
            first_same_at(old, a, i) && if same_auth(old[i], a) {
                !changed && new == old
            } else {
                changed && new == old.update(i, a)
            };
        assert(same_auth(new[i], a));
    } else {
        assert(same_auth(new[old.len() as int], a));
    }
}

/// Brings the registry up to date with the active login, when that is a
/// managed ChatGPT login; says whether the registry changed.
pub fn sync_registry_with_active_auth(accounts: &mut Vec<AuthDotJson>, active: Option<&AuthDotJson>) -> (changed: bool)
    ensures
        match active {
            Some(a) => if is_managed(*a) {
                upsert_outcome(old(accounts)@, *a, final(accounts)@, changed)
            } else {
                !changed && final(accounts)@ == old(accounts)@
            },
            None => !changed && final(accounts)@ == old(accounts)@,
        },
{
    match active {
        Some(a) => if is_managed_chatgpt_auth(a) {
            upsert_saved_chatgpt_account_in_registry(accounts, a)
        } else {
            false
        },
        None => false,
    }
}

// ---------------------------------------------------------------------------
// Listing
// ---------------------------------------------------------------------------

/// A saved ChatGPT account as it is shown.
#[derive(Clone, Debug, PartialEq, Eq)]
pub struct SavedChatgptAccount {
    pub id: String,
    pub email: Option<String>,
    pub account_id: Option<String>,
    pub chatgpt_user_id: Option<String>,
    pub chatgpt_workspace_id: Option<String>,
    pub plan_type: Option<String>,
    pub is_active: bool,
}

impl SavedChatgptAccount {
    pub fn duplicate(&self) -> (r: Self)
        ensures
            r == *self,
    {
        SavedChatgptAccount {
            id: self.id.clone(),
            email: clone_opt(&self.email),
            account_id: clone_opt(&self.account_id),
            chatgpt_user_id: clone_opt(&self.chatgpt_user_id),
            chatgpt_workspace_id: clone_opt(&self.chatgpt_workspace_id),
            plan_type: clone_opt(&self.plan_type),
            is_active: self.is_active,
        }
    }
}

/// A login as the program uses it at run time.
#[derive(Debug)]
pub enum CodexAuth {
    ApiKey { api_key: String },
    /// A ChatGPT login, with the stored login it currently holds.
    Chatgpt { current: Option<AuthDotJson> },
    ChatgptAuthTokens,
    AgentIdentity,
}

/// A saved account together with its login.
#[derive(Debug)]
pub struct SavedChatgptAccountAuth {
    pub account: SavedChatgptAccount,
    pub auth: CodexAuth,
}

impl CodexAuth {
    pub fn duplicate(&self) -> (r: Self)
        ensures
            r == *self,
    {
        match self {
            CodexAuth::ApiKey { api_key } => CodexAuth::ApiKey { api_key: api_key.clone() },
            CodexAuth::Chatgpt { current } => CodexAuth::Chatgpt {
                current: match current {
                    Some(a) => Some(a.duplicate()),
                    None => None,
                },
            },
            CodexAuth::ChatgptAuthTokens => CodexAuth::ChatgptAuthTokens,
            CodexAuth::AgentIdentity => CodexAuth::AgentIdentity,
        }
    }
}

impl SavedChatgptAccountAuth {
    pub fn duplicate(&self) -> (r: Self)
        ensures
            r == *self,
    {
        SavedChatgptAccountAuth { account: self.account.duplicate(), auth: self.auth.duplicate() }
    }
}

/// The id of the saved account a run-time login belongs to: only a ChatGPT
/// login's current stored login has one.
pub open spec fn runtime_account_id_of(auth: CodexAuth) -> Option<Seq<char>> {
    match auth {
        CodexAuth::Chatgpt { current } => match current {
            Some(a) => account_id_of(a),
            None => None,
        },
        _ => None,
    }
}

pub fn saved_chatgpt_account_id_for_runtime_auth(auth: &CodexAuth) -> (r: Option<String>)
    ensures
        opt_view(r) == runtime_account_id_of(*auth),
{
    match auth {
        CodexAuth::Chatgpt { current } => match current {
            Some(a) => saved_chatgpt_account_id(a),
            None => None,
        },
        _ => None,
    }
}

/// The characters of an optional string slice.
pub open spec fn str_opt_view(o: Option<&str>) -> Option<Seq<char>> {
    match o {
        Some(s) => Some(s@),
        None => None,
    }
}

/// A saved account together with the stored login it was read from.
pub struct SavedChatgptAccountEntry {
    pub account: SavedChatgptAccount,
    pub auth_dot_json: AuthDotJson,
}

/// The account shown for a stored login, when it has an id and tokens; it is
/// the active one when its id is `active_id`.
pub open spec fn entry_of(
    auth: AuthDotJson,
    active_id: Option<Seq<char>>,
    e: SavedChatgptAccountEntry,
) -> bool {
    let t = auth.tokens->0;
    &&& e.account.id@ == account_id_of(auth)->0
    &&& e.account.is_active == (active_id == Some(e.account.id@))
    &&& e.account.email == t.id_token.email
    &&& e.account.account_id == t.account_id
    &&& e.account.chatgpt_user_id == t.id_token.chatgpt_user_id
    &&& e.account.chatgpt_workspace_id == t.id_token.chatgpt_account_id
    &&& e.account.plan_type == t.id_token.chatgpt_plan_type
    &&& e.auth_dot_json == auth
}

/// A stored login that is shown as an account.
pub open spec fn is_listed(auth: AuthDotJson) -> bool {
    account_id_of(auth) is Some && auth.tokens is Some
}

pub fn saved_chatgpt_account_entry(auth: &AuthDotJson, active_id: Option<&str>) -> (r: Option<
    SavedChatgptAccountEntry,
>)
    ensures
        r is Some == is_listed(*auth),
        r matches Some(e) ==> entry_of(*auth, str_opt_view(active_id), e),
{
    let id = match saved_chatgpt_account_id(auth) {
        Some(id) => id,
        None => return None,
    };
    let tokens = match &auth.tokens {
        Some(t) => t,
        None => return None,
    };
    let is_active = match active_id {
        Some(a) => str_eq(a, id.as_str()),
        None => false,
    };
    Some(
        SavedChatgptAccountEntry {
            account: SavedChatgptAccount {
                is_active,
                id,
                email: clone_opt(&tokens.id_token.email),
                account_id: clone_opt(&tokens.account_id),
                chatgpt_user_id: clone_opt(&tokens.id_token.chatgpt_user_id),
                chatgpt_workspace_id: clone_opt(&tokens.id_token.chatgpt_account_id),
                plan_type: tokens.id_token.get_chatgpt_plan_type(),
            },
            auth_dot_json: auth.duplicate(),
        },
    )
}

/// `a` before `b` for optional strings: `None` first, then by `compare_seq`.
pub open spec fn opt_less(a: Option<String>, b: Option<String>) -> bool {
    match (a, b) {
        (None, Some(_)) => true,
        (Some(x), Some(y)) => compare_seq(x@, y@) == Order::Less,
        _ => false,
    }
}

/// The listing order: the active account first, then by email (missing
/// emails first), then by id.
pub open spec fn listed_before(a: SavedChatgptAccount, b: SavedChatgptAccount) -> bool {
    ||| a.is_active && !b.is_active
    ||| a.is_active == b.is_active && opt_less(a.email, b.email)
    ||| a.is_active == b.is_active && opt_view(a.email) == opt_view(b.email) && compare_seq(
        a.id@,
        b.id@,
    ) == Order::Less
}

fn opt_less_exec(a: &Option<String>, b: &Option<String>) -> (r: bool)
    ensures
        r == opt_less(*a, *b),
{
    match (a, b) {
        (None, Some(_)) => true,
        (Some(x), Some(y)) => compare_str(x.as_str(), y.as_str()) == Order::Less,
        _ => false,
    }
}

proof fn lemma_opt_less_asym(a: Option<String>, b: Option<String>)
    ensures
        opt_less(a, b) ==> !opt_less(b, a),
        opt_less(a, b) ==> opt_view(a) != opt_view(b),
{
    if let (Some(x), Some(y)) = (a, b) {
        lemma_compare_flip(x@, y@);
        lemma_compare_equal(x@, y@);
    }
}

proof fn lemma_opt_less_trans(a: Option<String>, b: Option<String>, c: Option<String>)
    requires
        opt_less(a, b),
        opt_less(b, c),
    ensures
        opt_less(a, c),
{
    if let (Some(x), Some(y), Some(z)) = (a, b, c) {
        lemma_compare_less_transitive(x@, y@, z@);
    }
}

proof fn lemma_opt_less_eq_left(a: Option<String>, b: Option<String>, c: Option<String>)
    requires
        opt_view(a) == opt_view(b),
    ensures
        opt_less(a, c) == opt_less(b, c),
        opt_less(c, a) == opt_less(c, b),
{
}

/// Two optional strings are in order one way or the other, or hold the same text.
proof fn lemma_opt_less_total(a: Option<String>, b: Option<String>)
    ensures
        opt_less(a, b) || opt_less(b, a) || opt_view(a) == opt_view(b),
{
    if let (Some(x), Some(y)) = (a, b) {
        lemma_compare_flip(y@, x@);
        lemma_compare_equal(x@, y@);
    }
}

proof fn lemma_opt_less_weak(a: Option<String>, b: Option<String>, c: Option<String>)
    requires
        opt_less(a, c),
    ensures
        opt_less(a, b) || opt_less(b, c),
{
    if let (Some(x), Some(y), Some(z)) = (a, b, c) {
        lemma_compare_weak(x@, y@, z@);
    }
}

impl StrictOrder for SavedChatgptAccountEntry {
    open spec fn precedes(self, other: Self) -> bool {
        listed_before(self.account, other.account)
    }

    fn precedes_exec(&self, other: &Self) -> (r: bool) {
        let a = &self.account;
        let b = &other.account;
        if a.is_active && !b.is_active {
            return true;
        }
        if a.is_active != b.is_active {
            return false;
        }
        if opt_less_exec(&a.email, &b.email) {
            return true;
        }
        if !opt_str_eq(&a.email, &b.email) {
            return false;
        }
        compare_str(a.id.as_str(), b.id.as_str()) == Order::Less
    }

    proof fn lemma_asymmetric(a: Self, b: Self) {
        lemma_opt_less_asym(a.account.email, b.account.email);
        lemma_opt_less_asym(b.account.email, a.account.email);
        lemma_compare_flip(a.account.id@, b.account.id@);
    }

    proof fn lemma_transitive(a: Self, b: Self, c: Self) {
        let (x, y, z) = (a.account, b.account, c.account);
        lemma_opt_less_asym(x.email, y.email);
        lemma_opt_less_asym(y.email, z.email);
        if opt_less(x.email, y.email) && opt_less(y.email, z.email) {
            lemma_opt_less_trans(x.email, y.email, z.email);
        }
        if opt_view(x.email) == opt_view(y.email) {
            lemma_opt_less_eq_left(x.email, y.email, z.email);
        }
        if opt_view(y.email) == opt_view(z.email) {
            lemma_opt_less_eq_left(y.email, z.email, x.email);
        }
        if compare_seq(x.id@, y.id@) == Order::Less && compare_seq(y.id@, z.id@) == Order::Less {
            lemma_compare_less_transitive(x.id@, y.id@, z.id@);
        }
    }

    proof fn lemma_weak(a: Self, b: Self, c: Self) {
        let (x, y, z) = (a.account, b.account, c.account);
        if y.is_active == x.is_active {
            lemma_opt_less_total(x.email, y.email);
            if opt_less(x.email, z.email) {
                lemma_opt_less_weak(x.email, y.email, z.email);
            } else if opt_view(x.email) == opt_view(z.email) && !x.is_active == !z.is_active {
                lemma_opt_less_eq_left(x.email, z.email, y.email);
                if opt_view(x.email) == opt_view(y.email) && compare_seq(x.id@, z.id@) == Order::Less {
                    lemma_compare_weak(x.id@, y.id@, z.id@);
                }
            }
        }
    }
}

/// The listed logins of `s`, as entries, in registry order.
pub open spec fn listed_entries(
    s: Seq<AuthDotJson>,
    active_id: Option<Seq<char>>,
    r: Seq<SavedChatgptAccountEntry>,
) -> bool {
    exists|idx: Seq<int>|
        {
            &&& idx.len() == r.len()
            &&& forall|k: int|
                0 <= k < idx.len() ==> 0 <= #[trigger] idx[k] < s.len() && is_listed(s[idx[k]])
                    && entry_of(s[idx[k]], active_id, r[k])
            &&& forall|k: int, l: int| 0 <= k < l < idx.len() ==> idx[k] < idx[l]
            &&& forall|j: int|
                0 <= j < s.len() && is_listed(#[trigger] s[j]) ==> exists|k: int|
                    0 <= k < idx.len() && idx[k] == j
        }
}

/// The accounts of the registry, in the listing order; `active_id` marks the
/// active one.
pub fn saved_chatgpt_account_entries(accounts: &Vec<AuthDotJson>, active_id: Option<&str>) -> (r:
    Vec<SavedChatgptAccountEntry>)
    ensures
        is_sorted(r@),
        exists|unsorted: Seq<SavedChatgptAccountEntry>|
            #[trigger] listed_entries(accounts@, str_opt_view(active_id), unsorted)
                && unsorted.to_multiset() == r@.to_multiset() && exists|perm: Seq<int>|
                is_stable_arrangement(unsorted, r@, perm),
{
    let ghost active = str_opt_view(active_id);
    let n = accounts.len();
    let mut entries: Vec<SavedChatgptAccountEntry> = Vec::new();
    let ghost mut idx: Seq<int> = Seq::empty();
    let mut i: usize = 0;
    while i < n
        invariant
            n == accounts@.len(),
            i <= n,
            active == str_opt_view(active_id),
            idx.len() == entries@.len(),
            forall|k: int|
                0 <= k < idx.len() ==> 0 <= #[trigger] idx[k] < i && is_listed(accounts@[idx[k]])
                    && entry_of(accounts@[idx[k]], active, entries@[k]),
            forall|k: int, l: int| 0 <= k < l < idx.len() ==> idx[k] < idx[l],
            forall|j: int|
                0 <= j < i && is_listed(#[trigger] accounts@[j]) ==> exists|k: int|
                    0 <= k < idx.len() && idx[k] == j,
        decreases n - i,
    {
        let ghost old_idx = idx;
        match saved_chatgpt_account_entry(&accounts[i], active_id) {
            Some(e) => {
                entries.push(e);
                proof {
                    idx = idx.push(i as int);
                    assert(idx[idx.len() - 1] == i);
                }
            },
            None => {},
        }
        proof {
            assert forall|j: int|
                0 <= j < i + 1 && is_listed(#[trigger] accounts@[j]) implies exists|k: int|
                0 <= k < idx.len() && idx[k] == j by {
                if j < i {
                    let k = choose|k: int| 0 <= k < old_idx.len() && old_idx[k] == j;
                    assert(idx[k] == j);
                } else {
                    assert(idx[idx.len() - 1] == j);
                }
            }
        }
        i = i + 1;
    }
    let ghost unsorted = entries@;
    assert(listed_entries(accounts@, active, unsorted));
    sort_stable(entries)
}

/// In the listing order no active account comes after an inactive one.
pub proof fn law_active_accounts_listed_first(r: Seq<SavedChatgptAccountEntry>, i: int, j: int)
    requires
        is_sorted(r),
        0 <= i < j < r.len(),
        r[j].account.is_active,
    ensures
        r[i].account.is_active,
{
    assert(!r[j].precedes(r[i]));
}

/// The account id of the run-time login, if there is one and it has an id.
pub open spec fn runtime_active_id(runtime_active_auth: Option<&CodexAuth>) -> Option<Seq<char>> {
    match runtime_active_auth {
        Some(a) => runtime_account_id_of(*a),
        None => None,
    }
}

/// The accounts of the registry, in the listing order; the one the run-time
/// login belongs to is marked active.
pub fn list_saved_chatgpt_accounts(
    accounts: &Vec<AuthDotJson>,
    runtime_active_auth: Option<&CodexAuth>,
) -> (r: Vec<SavedChatgptAccount>)
    ensures
        exists|entries: Seq<SavedChatgptAccountEntry>|
            {
                &&& is_sorted(entries)
                &&& exists|unsorted: Seq<SavedChatgptAccountEntry>|
                    #[trigger] listed_entries(
                        accounts@,
                        runtime_active_id(runtime_active_auth),
                        unsorted,
                    ) && unsorted.to_multiset() == entries.to_multiset() && exists|perm: Seq<int>|
                        is_stable_arrangement(unsorted, entries, perm)
                &&& r@ == entries.map_values(|e: SavedChatgptAccountEntry| e.account)
            },
{
    let active_id = match runtime_active_auth {
        Some(a) => saved_chatgpt_account_id_for_runtime_auth(a),
        None => None,
    };
    let entries = saved_chatgpt_account_entries(
        accounts,
        match &active_id {
            Some(id) => Some(id.as_str()),
            None => None,
        },
    );
    let ghost sorted = entries@;
    let n = entries.len();
    let mut r: Vec<SavedChatgptAccount> = Vec::new();
    let mut i: usize = 0;
    while i < n
        invariant
            n == entries@.len(),
            i <= n,
            r@ == entries@.subrange(0, i as int).map_values(|e: SavedChatgptAccountEntry| e.account),
        decreases n - i,
    {
        r.push(entries[i].account.duplicate());
        i = i + 1;
        assert(r@ =~= entries@.subrange(0, i as int).map_values(
            |e: SavedChatgptAccountEntry| e.account,
        ));
    }
    assert(entries@.subrange(0, n as int) =~= entries@);
    r
}

/// The accounts of the registry with their logins, in the listing order.
pub fn list_saved_chatgpt_account_auths(
    accounts: &Vec<AuthDotJson>,
    runtime_active_auth: Option<&CodexAuth>,
) -> (r: Vec<SavedChatgptAccountAuth>)
    ensures
        exists|entries: Seq<SavedChatgptAccountEntry>|
            {
                &&& is_sorted(entries)
                &&& exists|unsorted: Seq<SavedChatgptAccountEntry>|
                    #[trigger] listed_entries(
                        accounts@,
                        runtime_active_id(runtime_active_auth),
                        unsorted,
                    ) && unsorted.to_multiset() == entries.to_multiset() && exists|perm: Seq<int>|
                        is_stable_arrangement(unsorted, entries, perm)
                &&& r@.len() == entries.len()
                &&& forall|i: int|
                    0 <= i < entries.len() ==> (#[trigger] r@[i]).account == entries[i].account
                        && r@[i].auth == (CodexAuth::Chatgpt {
                        current: Some(entries[i].auth_dot_json),
                    })
            },
{
    let active_id = match runtime_active_auth {
        Some(a) => saved_chatgpt_account_id_for_runtime_auth(a),
        None => None,
    };
    let entries = saved_chatgpt_account_entries(
        accounts,
        match &active_id {
            Some(id) => Some(id.as_str()),
            None => None,
        },
    );
    let n = entries.len();
    let mut r: Vec<SavedChatgptAccountAuth> = Vec::new();
    let mut i: usize = 0;
    while i < n
        invariant
            n == entries@.len(),
            i <= n,
            r@.len() == i,
            forall|k: int|
                0 <= k < i ==> (#[trigger] r@[k]).account == entries@[k].account && r@[k].auth
                    == (CodexAuth::Chatgpt { current: Some(entries@[k].auth_dot_json) }),
        decreases n - i,
    {
        let e = &entries[i];
        r.push(
            SavedChatgptAccountAuth {
                account: e.account.duplicate(),
                auth: CodexAuth::Chatgpt { current: Some(e.auth_dot_json.duplicate()) },
            },
        );
        i = i + 1;
    }
    r
}

/// Finds the login to switch to: the first saved login whose id is
/// `account_id`, or an error naming the id.
pub open spec fn switch_target(accounts: Seq<AuthDotJson>, account_id: Seq<char>, r: Result<
    AuthDotJson,
    String,
>) -> bool {
    match r {
        Ok(a) => exists|i: int|
            0 <= i < accounts.len() && accounts[i] == a && account_id_of(a) == Some(account_id)
                && forall|k: int|
                0 <= k < i ==> account_id_of(#[trigger] accounts[k]) != Some(account_id),
        Err(m) => m@ == "saved ChatGPT account not found: "@ + account_id && forall|k: int|
            0 <= k < accounts.len() ==> account_id_of(#[trigger] accounts[k]) != Some(account_id),
    }
}

pub fn find_saved_account_for_switch(accounts: Vec<AuthDotJson>, account_id: &str) -> (r: Result<
    AuthDotJson,
    String,
>)
    ensures
        switch_target(accounts@, account_id@, r),
{
    let n = accounts.len();
    let mut i: usize = 0;
    while i < n
        invariant
            n == accounts@.len(),
            i <= n,
            forall|k: int| 0 <= k < i ==> account_id_of(#[trigger] accounts@[k]) != Some(account_id@),
        decreases n - i,
    {
        match saved_chatgpt_account_id(&accounts[i]) {
            Some(id) => {
                if str_eq(id.as_str(), account_id) {
                    return Ok(accounts[i].duplicate());
                }
            },
            None => {},
        }
        i = i + 1;
    }
    let mut m = owned("saved ChatGPT account not found: ");
    push_str(&mut m, account_id);
    Err(m)
}

/// Two logins with the same characters in every field have the same id.
pub proof fn lemma_same_auth_same_id(a: AuthDotJson, b: AuthDotJson)
    requires
        same_auth(a, b),
    ensures
        account_id_of(a) == account_id_of(b),
        is_managed(a) == is_managed(b),
{
    assert(resolved_mode_of(a) == resolved_mode_of(b));
}

/// A login that was just recorded in the registry can be switched to: the
/// search for its id finds an entry with that id.
pub proof fn law_recorded_account_found_for_switch(
    old: Seq<AuthDotJson>,
    a: AuthDotJson,
    new: Seq<AuthDotJson>,
    changed: bool,
    r: Result<AuthDotJson, String>,
)
    requires
        upsert_outcome(old, a, new, changed),
        is_recordable(a),
        switch_target(new, account_id_of(a)->0, r),
    ensures
        r is Ok,
        account_id_of(r->Ok_0) == account_id_of(a),
{
    law_upsert_records(old, a, new, changed);
    let i = choose|i: int| 0 <= i < new.len() && same_auth(#[trigger] new[i], a);
    lemma_same_auth_same_id(new[i], a);
}

/// After a switch the ephemeral login is cleared, unless the store is the
/// ephemeral one.
pub fn clears_ephemeral_after_switch(mode: AuthCredentialsStoreMode) -> (r: bool)
    ensures
        r == (mode != AuthCredentialsStoreMode::Ephemeral),
{
    mode != AuthCredentialsStoreMode::Ephemeral
}

// ---------------------------------------------------------------------------
// What the registry's rules mean, stated on the stored fields
// ---------------------------------------------------------------------------

proof fn lemma_prefix_cancel(p: Seq<char>, x: Seq<char>, y: Seq<char>)
    requires
        p + x == p + y,
    ensures
        x == y,
{
    assert((p + x).subrange(p.len() as int, (p + x).len() as int) =~= x);
    assert((p + y).subrange(p.len() as int, (p + y).len() as int) =~= y);
}

/// Two ChatGPT logins whose tokens carry no account id but both carry a
/// workspace id are the same saved account exactly when the workspace ids are
/// equal, whatever else (such as the email) they share.
pub proof fn law_workspace_ids_decide_same_account(existing: AuthDotJson, candidate: AuthDotJson)
    requires
        existing.auth_mode == Some(AuthMode::Chatgpt),
        candidate.auth_mode == Some(AuthMode::Chatgpt),
        existing.tokens is Some,
        candidate.tokens is Some,
        existing.tokens->0.account_id is None,
        candidate.tokens->0.account_id is None,
        existing.tokens->0.id_token.chatgpt_account_id is Some,
        candidate.tokens->0.id_token.chatgpt_account_id is Some,
    ensures
        same_account(existing, candidate) <==> existing.tokens->0.id_token.chatgpt_account_id->0@
            == candidate.tokens->0.id_token.chatgpt_account_id->0@,
{
    let w1 = existing.tokens->0.id_token.chatgpt_account_id->0@;
    let w2 = candidate.tokens->0.id_token.chatgpt_account_id->0@;
    if account_id_of(existing) == account_id_of(candidate) {
        lemma_prefix_cancel("workspace:"@, w1, w2);
    }
}

/// Recording a ChatGPT login whose workspace id differs from that of every
/// saved login (no login carrying an account id) appends it and reports a
/// change: no saved account is overwritten.
pub proof fn law_new_workspace_is_appended(
    old: Seq<AuthDotJson>,
    a: AuthDotJson,
    new: Seq<AuthDotJson>,
    changed: bool,
)
    requires
        upsert_outcome(old, a, new, changed),
        a.auth_mode == Some(AuthMode::Chatgpt),
        a.tokens is Some,
        a.tokens->0.account_id is None,
        a.tokens->0.id_token.chatgpt_account_id is Some,
        forall|k: int|
            0 <= k < old.len() ==> {
                &&& (#[trigger] old[k]).tokens is Some
                &&& old[k].tokens->0.account_id is None
                &&& old[k].tokens->0.id_token.chatgpt_account_id is Some
                &&& old[k].tokens->0.id_token.chatgpt_account_id->0@
                    != a.tokens->0.id_token.chatgpt_account_id->0@
            },
    ensures
        new == old.push(a),
        changed,
{
    assert forall|k: int| 0 <= k < old.len() implies !same_account(#[trigger] old[k], a) by {
        if is_managed(old[k]) {
            let w1 = old[k].tokens->0.id_token.chatgpt_account_id->0@;
            let w2 = a.tokens->0.id_token.chatgpt_account_id->0@;
            if account_id_of(old[k]) == account_id_of(a) {
                lemma_prefix_cancel("workspace:"@, w1, w2);
            }
        }
    }
    assert forall|k: int| !first_same_at(old, a, k) by {
        if 0 <= k < old.len() {
            assert(!same_account(old[k], a));
        }
    }
}

/// A login whose mode is not ChatGPT (an API key, tokens supplied from
/// outside, an agent identity) has no saved-account id, and recording it
/// leaves the registry as it is.
pub proof fn law_only_chatgpt_logins_are_recorded(
    old: Seq<AuthDotJson>,
    a: AuthDotJson,
    new: Seq<AuthDotJson>,
    changed: bool,
)
    requires
        upsert_outcome(old, a, new, changed),
        match a.auth_mode {
            Some(m) => m != AuthMode::Chatgpt,
            None => a.openai_api_key is Some,
        },
    ensures
        account_id_of(a) is None,
        new == old,
        !changed,
{
}

/// A ChatGPT login whose tokens carry an account id is identified by it.
pub proof fn law_chatgpt_login_id_is_its_account_id(a: AuthDotJson)
    requires
        a.auth_mode == Some(AuthMode::Chatgpt),
        a.tokens is Some,
        a.tokens->0.account_id is Some,
    ensures
        account_id_of(a) == Some("account:"@ + a.tokens->0.account_id->0@),
{
}

/// Every listed account was read from a stored login with tokens: its id is
/// that login's id, and its email, account id, user id, workspace id (the
/// ID token's `chatgpt_account_id` claim) and plan are the login's own.
pub proof fn law_listed_accounts_come_from_stored_logins(
    accounts: Seq<AuthDotJson>,
    active_id: Option<Seq<char>>,
    unsorted: Seq<SavedChatgptAccountEntry>,
    entries: Seq<SavedChatgptAccountEntry>,
    perm: Seq<int>,
    r: Seq<SavedChatgptAccount>,
    k: int,
)
    requires
        listed_entries(accounts, active_id, unsorted),
        is_stable_arrangement(unsorted, entries, perm),
        r == entries.map_values(|e: SavedChatgptAccountEntry| e.account),
        0 <= k < r.len(),
    ensures
        exists|i: int|
            {
                &&& 0 <= i < accounts.len()
                &&& (#[trigger] accounts[i]).tokens is Some
                &&& account_id_of(accounts[i]) == Some(r[k].id@)
                &&& r[k].email == accounts[i].tokens->0.id_token.email
                &&& r[k].account_id == accounts[i].tokens->0.account_id
                &&& r[k].chatgpt_user_id == accounts[i].tokens->0.id_token.chatgpt_user_id
                &&& r[k].chatgpt_workspace_id == accounts[i].tokens->0.id_token.chatgpt_account_id
                &&& r[k].plan_type == accounts[i].tokens->0.id_token.chatgpt_plan_type
            },
{
    let j = perm[k];
    assert(entries[k] == unsorted[j]);
    let idx = choose|idx: Seq<int>|
        {
            &&& idx.len() == unsorted.len()
            &&& forall|m: int|
                0 <= m < idx.len() ==> 0 <= #[trigger] idx[m] < accounts.len() && is_listed(
                    accounts[idx[m]],
                ) && entry_of(accounts[idx[m]], active_id, unsorted[m])
            &&& forall|m: int, l: int| 0 <= m < l < idx.len() ==> idx[m] < idx[l]
            &&& forall|m: int|
                0 <= m < accounts.len() && is_listed(#[trigger] accounts[m]) ==> exists|l: int|
                    0 <= l < idx.len() && idx[l] == m
        };
    let i = idx[j];
    assert(0 <= i < accounts.len() && is_listed(accounts[i]) && entry_of(accounts[i], active_id, unsorted[j]));
    assert(r[k] == entries[k].account);
}

} // verus!
