//! In-memory store of validated bearer tokens and PKCE challenges, with
//! expiry after a time-to-live.
use vstd::prelude::*;

use dashmap::DashMap;

verus! {

/// An instant: whole seconds since the Unix epoch and the nanoseconds past them.
#[derive(Debug, Clone, Copy, PartialEq, Eq, Structural)]
pub struct Timestamp {
    pub secs: i64,
    pub nanos: u32,
}

pub open spec fn nanos_per_sec() -> int {
    1_000_000_000
}

/// An instant is well formed when its sub-second part is below one second.
pub open spec fn timestamp_wf(t: Timestamp) -> bool {
    t.nanos < 1_000_000_000
}

/// The time from `earlier` to `later` in nanoseconds.
pub open spec fn nanos_between(later: Timestamp, earlier: Timestamp) -> int {
    (later.secs - earlier.secs) * nanos_per_sec() + (later.nanos - earlier.nanos)
}

/// The whole seconds from `earlier` to `later`, rounded toward zero.
pub open spec fn whole_seconds_between(later: Timestamp, earlier: Timestamp) -> int {
    let d = nanos_between(later, earlier);
    if d >= 0 {
        d / nanos_per_sec()
    } else {
        -((-d) / nanos_per_sec())
    }
}

/// The whole seconds from `earlier` to `later`, rounded toward zero.
pub fn elapsed_seconds(later: Timestamp, earlier: Timestamp) -> (r: i128)
    ensures
        r == whole_seconds_between(later, earlier),
{
    let d: i128 = (later.secs as i128 - earlier.secs as i128) * 1_000_000_000 + (later.nanos as i128
        - earlier.nanos as i128);
    if d >= 0 {
        d / 1_000_000_000
    } else {
        -((-d) / 1_000_000_000)
    }
}

// ---------------------------------------------------------------------------
// The system clock
// ---------------------------------------------------------------------------

#[verifier::external_type_specification]
#[verifier::external_body]
pub struct ExSystemTime(std::time::SystemTime);

#[verifier::external_type_specification]
#[verifier::external_body]
pub struct ExSystemTimeError(std::time::SystemTimeError);

/// `SystemTime::now`: the system clock's reading. What time it is is not stated.
#[verifier::external_body]
fn system_now() -> std::time::SystemTime {
    std::time::SystemTime::now()
}

/// `SystemTime::duration_since(UNIX_EPOCH)`: the time since the Unix epoch,
/// or, for a reading before the epoch, an error that holds how much before.
/// Which of the two comes back depends on the reading; nothing is stated.
#[verifier::external_body]
fn since_unix_epoch(t: &std::time::SystemTime) -> Result<std::time::Duration, std::time::SystemTimeError> {
    t.duration_since(std::time::UNIX_EPOCH)
}

/// `SystemTimeError::duration`: how far before the epoch the reading was.
#[verifier::external_body]
fn time_before_epoch(e: &std::time::SystemTimeError) -> std::time::Duration {
    e.duration()
}

/// `Duration::as_secs`: the whole seconds of a duration.
#[verifier::external_body]
fn duration_secs(d: &std::time::Duration) -> u64 {
    d.as_secs()
}

/// `Duration::subsec_nanos`: the nanoseconds past the whole seconds, which
/// its documentation puts below one billion.
#[verifier::external_body]
fn duration_subsec_nanos(d: &std::time::Duration) -> (r: u32)
    ensures
        r < 1_000_000_000,
{
    d.subsec_nanos()
}

/// The current time read from the system clock, as seconds and
/// nanoseconds since the Unix epoch; a reading before the epoch gives a
/// negative instant (no reading makes this fail). Which time it is is not
/// stated, only that the instant is well formed.
pub fn now() -> (t: Timestamp)
    ensures
        timestamp_wf(t),
{
    let reading = system_now();
    match since_unix_epoch(&reading) {
        Ok(d) => {
            let secs = duration_secs(&d);
            let nanos = duration_subsec_nanos(&d);
            if secs > 0x7fff_ffff_ffff_ffff {
                Timestamp { secs: 0x7fff_ffff_ffff_ffff, nanos }
            } else {
                Timestamp { secs: secs as i64, nanos }
            }
        },
        Err(e) => {
            let d = time_before_epoch(&e);
            let secs = duration_secs(&d);
            let nanos = duration_subsec_nanos(&d);
            if nanos == 0 {
                if secs > 0x7fff_ffff_ffff_ffff {
                    Timestamp { secs: -0x7fff_ffff_ffff_ffff - 1, nanos: 0 }
                } else {
                    Timestamp { secs: -(secs as i64), nanos: 0 }
                }
            } else if secs >= 0x7fff_ffff_ffff_ffff {
                Timestamp { secs: -0x7fff_ffff_ffff_ffff - 1, nanos: 0 }
            } else {
                Timestamp { secs: -(secs as i64) - 1, nanos: 1_000_000_000 - nanos }
            }
        },
    }
}

#[derive(Debug, Clone)]
pub struct TokenInfo {
    pub github_login: String,
    pub github_token: String,
    pub validated_at: Timestamp,
    pub ttl_seconds: i64,
}

/// The mathematical content of a [`TokenInfo`].
pub struct TokenInfoView {
    pub github_login: Seq<char>,
    pub github_token: Seq<char>,
    pub validated_at: Timestamp,
    pub ttl_seconds: i64,
}

impl View for TokenInfo {
    type V = TokenInfoView;

    open spec fn view(&self) -> TokenInfoView {
        TokenInfoView {
            github_login: self.github_login@,
            github_token: self.github_token@,
            validated_at: self.validated_at,
            ttl_seconds: self.ttl_seconds,
        }
    }
}

/// A token has expired at `now` once more whole seconds than its
/// time-to-live have passed since it was validated.
pub open spec fn expired_at(info: TokenInfoView, now: Timestamp) -> bool {
    whole_seconds_between(now, info.validated_at) > info.ttl_seconds
}

impl TokenInfo {
    /// Whether the token has expired at `now`.
    pub fn is_expired_at(&self, now: Timestamp) -> (b: bool)
        ensures
            b == expired_at(self@, now),
    {
        elapsed_seconds(now, self.validated_at) > self.ttl_seconds as i128
    }

    /// Whether the token is still valid at `now`.
    pub fn is_live_at(&self, now: Timestamp) -> (b: bool)
        ensures
            b == !expired_at(self@, now),
    {
        !self.is_expired_at(now)
    }

    /// Whether the token has expired by the current time (read from the clock):
    /// its expiry at the instant the clock gave.
    pub fn is_expired(&self) -> (b: bool)
        ensures
            exists|t: Timestamp| timestamp_wf(t) && b == expired_at(self@, t),
    {
        let t = now();
        self.is_expired_at(t)
    }
}

#[derive(Debug, Clone)]
pub struct PkceInfo {
    pub challenge: String,
    pub method: String,
}

/// A PKCE challenge and its method.
pub struct PkceView {
    pub challenge: Seq<char>,
    pub method: Seq<char>,
}

impl View for PkceInfo {
    type V = PkceView;

    open spec fn view(&self) -> PkceView {
        PkceView { challenge: self.challenge@, method: self.method@ }
    }
}

// ---------------------------------------------------------------------------
// The concurrent maps of `dashmap`
// ---------------------------------------------------------------------------

#[verifier::external_type_specification]
#[verifier::external_body]
#[verifier::reject_recursive_types(K)]
#[verifier::reject_recursive_types(V)]
#[verifier::reject_recursive_types(S)]
pub struct ExDashMap<K, V, S>(DashMap<K, V, S>);

/// What a token map holds: bearer token to token info.
pub uninterp spec fn token_entries(m: DashMap<String, TokenInfo>) -> Map<Seq<char>, TokenInfoView>;

/// What a PKCE map holds: OAuth state to challenge.
pub uninterp spec fn pkce_entries(m: DashMap<String, PkceInfo>) -> Map<Seq<char>, PkceView>;

pub open spec fn no_tokens() -> Map<Seq<char>, TokenInfoView> {
    Map::empty()
}

pub open spec fn no_challenges() -> Map<Seq<char>, PkceView> {
    Map::empty()
}

/// `DashMap::new` for the token map: an empty map.
#[verifier::external_body]
fn new_token_map() -> (r: DashMap<String, TokenInfo>)
    ensures
        token_entries(r) == no_tokens(),
{
    DashMap::new()
}

/// `DashMap::new` for the PKCE map: an empty map.
#[verifier::external_body]
fn new_pkce_map() -> (r: DashMap<String, PkceInfo>)
    ensures
        pkce_entries(r) == no_challenges(),
{
    DashMap::new()
}

/// `DashMap::insert` on the token map: the key now maps to the value, the
/// other entries stay. (The map is taken by `&mut`, so no other handle
/// observes the change in between.)
#[verifier::external_body]
fn token_map_insert(m: &mut DashMap<String, TokenInfo>, key: String, value: TokenInfo)
    ensures
        token_entries(*final(m)) == token_entries(*old(m)).insert(key@, value@),
{
    m.insert(key, value);
}

/// `DashMap::insert` on the PKCE map: the key now maps to the value, the
/// other entries stay.
#[verifier::external_body]
fn pkce_map_insert(m: &mut DashMap<String, PkceInfo>, key: String, value: PkceInfo)
    ensures
        pkce_entries(*final(m)) == pkce_entries(*old(m)).insert(key@, value@),
{
    m.insert(key, value);
}

/// `DashMap::get` on the token map, the entry cloned out of its guard.
#[verifier::external_body]
fn token_map_get(m: &DashMap<String, TokenInfo>, key: &str) -> (r: Option<TokenInfo>)
    ensures
        match r {
            Some(v) => token_entries(*m).contains_key(key@) && v@ == token_entries(*m)[key@],
            None => !token_entries(*m).contains_key(key@),
        },
{
    m.get(key).map(|entry| entry.value().clone())
}

/// `DashMap::remove` on the token map: the key is no longer mapped.
#[verifier::external_body]
fn token_map_remove(m: &mut DashMap<String, TokenInfo>, key: &str)
    ensures
        token_entries(*final(m)) == token_entries(*old(m)).remove(key@),
{
    m.remove(key);
}

/// The entries of `m` that are still valid at `now`.
pub open spec fn live_entries(m: Map<Seq<char>, TokenInfoView>, now: Timestamp) -> Map<Seq<char>, TokenInfoView> {
    m.restrict(m.dom().filter(|k: Seq<char>| !expired_at(m[k], now)))
}

/// `DashMap::retain` on the token map, keeping the tokens still valid at `now`.
#[verifier::external_body]
fn token_map_retain_live(m: &mut DashMap<String, TokenInfo>, now: Timestamp)
    ensures
        token_entries(*final(m)) == live_entries(token_entries(*old(m)), now),
{
    m.retain(|_, v| v.is_live_at(now));
}

// ---------------------------------------------------------------------------
// The store
// ---------------------------------------------------------------------------

/// In-memory store for validated tokens and PKCE challenges.
pub struct TokenStore {
    tokens: DashMap<String, TokenInfo>,
    pkce: DashMap<String, PkceInfo>,
    default_ttl: i64,
}

/// The mathematical content of a [`TokenStore`].
pub struct TokenStoreView {
    pub tokens: Map<Seq<char>, TokenInfoView>,
    pub pkce: Map<Seq<char>, PkceView>,
    pub default_ttl: i64,
}

impl View for TokenStore {
    type V = TokenStoreView;

    closed spec fn view(&self) -> TokenStoreView {
        TokenStoreView {
            tokens: token_entries(self.tokens),
            pkce: pkce_entries(self.pkce),
            default_ttl: self.default_ttl,
        }
    }
}

/// The store after `insert` at time `now`.
pub open spec fn inserted(
    s: TokenStoreView,
    bearer: Seq<char>,
    login: Seq<char>,
    token: Seq<char>,
    now: Timestamp,
) -> TokenStoreView {
    TokenStoreView {
        tokens: s.tokens.insert(
            bearer,
            TokenInfoView {
                github_login: login,
                github_token: token,
                validated_at: now,
                ttl_seconds: s.default_ttl,
            },
        ),
        ..s
    }
}

/// What `get` at time `now` answers: the token's info while it is valid.
pub open spec fn lookup(s: TokenStoreView, bearer: Seq<char>, now: Timestamp) -> Option<TokenInfoView> {
    if s.tokens.contains_key(bearer) && !expired_at(s.tokens[bearer], now) {
        Some(s.tokens[bearer])
    } else {
        None
    }
}

/// The store after `get` at time `now`: an expired token is dropped.
pub open spec fn after_lookup(s: TokenStoreView, bearer: Seq<char>, now: Timestamp) -> TokenStoreView {
    if s.tokens.contains_key(bearer) && expired_at(s.tokens[bearer], now) {
        TokenStoreView { tokens: s.tokens.remove(bearer), ..s }
    } else {
        s
    }
}

/// The store after `cleanup_expired` at time `now`.
pub open spec fn cleaned(s: TokenStoreView, now: Timestamp) -> TokenStoreView {
    TokenStoreView { tokens: live_entries(s.tokens, now), ..s }
}

impl TokenStore {
    /// An empty store whose tokens live `default_ttl_seconds` seconds.
    pub fn new(default_ttl_seconds: i64) -> (s: TokenStore)
        ensures
            s@.tokens == Map::<Seq<char>, TokenInfoView>::empty(),
            s@.pkce == Map::<Seq<char>, PkceView>::empty(),
            s@.default_ttl == default_ttl_seconds,
    {
        TokenStore { tokens: new_token_map(), pkce: new_pkce_map(), default_ttl: default_ttl_seconds }
    }

    /// Records a validated token as of `now`.
    pub fn insert_at(&mut self, bearer_token: &str, github_login: String, github_token: String, now: Timestamp)
        ensures
            final(self)@ == inserted(old(self)@, bearer_token@, github_login@, github_token@, now),
    {
        let info = TokenInfo {
            github_login,
            github_token,
            validated_at: now,
            ttl_seconds: self.default_ttl,
        };
        token_map_insert(&mut self.tokens, bearer_token.to_owned(), info);
    }

    /// Records a validated token as of the current time (read from the clock).
    pub fn insert(&mut self, bearer_token: &str, github_login: String, github_token: String)
        ensures
            exists|t: Timestamp|
                timestamp_wf(t) && final(self)@ == inserted(
                    old(self)@,
                    bearer_token@,
                    github_login@,
                    github_token@,
                    t,
                ),
    {
        let t = now();
        self.insert_at(bearer_token, github_login, github_token, t);
    }

    /// The info of a token that is still valid at `now`; an expired token is
    /// removed from the store.
    pub fn get_at(&mut self, bearer_token: &str, now: Timestamp) -> (r: Option<TokenInfo>)
        ensures
            match lookup(old(self)@, bearer_token@, now) {
                Some(v) => (r matches Some(x) && x@ == v),
                None => r is None,
            },
            final(self)@ == after_lookup(old(self)@, bearer_token@, now),
    {
        match token_map_get(&self.tokens, bearer_token) {
            Some(entry) => {
                if entry.is_expired_at(now) {
                    token_map_remove(&mut self.tokens, bearer_token);
                    None
                } else {
                    Some(entry)
                }
            },
            None => None,
        }
    }

    /// The info of a token that is still valid at the current time (read
    /// from the clock); an expired token is removed from the store.
    pub fn get(&mut self, bearer_token: &str) -> (r: Option<TokenInfo>)
        ensures
            exists|t: Timestamp|
                {
                    &&& timestamp_wf(t)
                    &&& final(self)@ == after_lookup(old(self)@, bearer_token@, t)
                    &&& match lookup(old(self)@, bearer_token@, t) {
                        Some(v) => (r matches Some(x) && x@ == v),
                        None => r is None,
                    }
                },
    {
        let t = now();
        self.get_at(bearer_token, t)
    }

    /// Forgets a token.
    pub fn remove(&mut self, bearer_token: &str)
        ensures
            final(self)@ == (TokenStoreView { tokens: old(self)@.tokens.remove(bearer_token@), ..old(self)@ }),
    {
        token_map_remove(&mut self.tokens, bearer_token);
    }

    /// Store a PKCE challenge for later verification.
    pub fn store_pkce(&mut self, state: &str, challenge: String, method: String)
        ensures
            final(self)@ == (TokenStoreView {
                pkce: old(self)@.pkce.insert(state@, PkceView { challenge: challenge@, method: method@ }),
                ..old(self)@
            }),
    {
        pkce_map_insert(&mut self.pkce, state.to_owned(), PkceInfo { challenge, method });
    }

    /// Removes the tokens that have expired at `now`.
    pub fn cleanup_expired_at(&mut self, now: Timestamp)
        ensures
            final(self)@ == cleaned(old(self)@, now),
    {
        token_map_retain_live(&mut self.tokens, now);
    }

    /// Removes the tokens that have expired by the current time (read from the clock).
    pub fn cleanup_expired(&mut self)
        ensures
            exists|t: Timestamp| timestamp_wf(t) && final(self)@ == cleaned(old(self)@, t),
    {
        let t = now();
        self.cleanup_expired_at(t);
    }
}

// ---------------------------------------------------------------------------
// Laws
// ---------------------------------------------------------------------------

/// No time passes between an instant and itself.
pub proof fn lemma_no_time_elapsed(t: Timestamp)
    ensures
        whole_seconds_between(t, t) == 0,
{
}

/// A token stays readable, with the login and GitHub token it was stored
/// with, as long as no more whole seconds than the store's time-to-live have
/// passed since it was stored; reading it then leaves the store unchanged.
pub proof fn law_read_after_insert(
    s: TokenStoreView,
    bearer: Seq<char>,
    login: Seq<char>,
    token: Seq<char>,
    stored_at: Timestamp,
    read_at: Timestamp,
)
    requires
        whole_seconds_between(read_at, stored_at) <= s.default_ttl,
    ensures
        lookup(inserted(s, bearer, login, token, stored_at), bearer, read_at) == Some(
            TokenInfoView {
                github_login: login,
                github_token: token,
                validated_at: stored_at,
                ttl_seconds: s.default_ttl,
            },
        ),
        after_lookup(inserted(s, bearer, login, token, stored_at), bearer, read_at) == inserted(
            s,
            bearer,
            login,
            token,
            stored_at,
        ),
{
}

/// Read at the very instant it was stored, a token is there whenever the
/// time-to-live is not negative.
pub proof fn law_read_at_insert_time(
    s: TokenStoreView,
    bearer: Seq<char>,
    login: Seq<char>,
    token: Seq<char>,
    t: Timestamp,
)
    requires
        s.default_ttl >= 0,
    ensures
        lookup(inserted(s, bearer, login, token, t), bearer, t) is Some,
{
    lemma_no_time_elapsed(t);
}

/// Once more whole seconds than the time-to-live have passed, a stored
/// token is no longer answered, and reading it drops it from the store.
pub proof fn law_expired_token_is_dropped(s: TokenStoreView, bearer: Seq<char>, now: Timestamp)
    requires
        s.tokens.contains_key(bearer),
        whole_seconds_between(now, s.tokens[bearer].validated_at) > s.tokens[bearer].ttl_seconds,
    ensures
        lookup(s, bearer, now) is None,
        !after_lookup(s, bearer, now).tokens.contains_key(bearer),
{
}

/// Storing a token leaves what every other token reads as unchanged.
pub proof fn law_insert_keeps_other_tokens(
    s: TokenStoreView,
    bearer: Seq<char>,
    login: Seq<char>,
    token: Seq<char>,
    stored_at: Timestamp,
    other: Seq<char>,
    now: Timestamp,
)
    requires
        other != bearer,
    ensures
        lookup(inserted(s, bearer, login, token, stored_at), other, now) == lookup(s, other, now),
{
}

/// After a token is removed it is never answered.
pub proof fn law_read_after_remove(s: TokenStoreView, bearer: Seq<char>, now: Timestamp)
    ensures
        lookup(TokenStoreView { tokens: s.tokens.remove(bearer), ..s }, bearer, now) is None,
{
}

/// Cleaning up at `now` keeps exactly the tokens still valid at `now`,
/// unchanged, and touches nothing else; what `get` answers at `now` is the
/// same before and after.
pub proof fn law_cleanup_keeps_live_tokens(s: TokenStoreView, now: Timestamp, bearer: Seq<char>)
    ensures
        forall|k: Seq<char>| #[trigger]
            cleaned(s, now).tokens.contains_key(k) ==> !expired_at(cleaned(s, now).tokens[k], now),
        forall|k: Seq<char>|
            s.tokens.contains_key(k) && !expired_at(s.tokens[k], now) ==> #[trigger] cleaned(
                s,
                now,
            ).tokens.contains_key(k) && cleaned(s, now).tokens[k] == s.tokens[k],
        cleaned(s, now).pkce == s.pkce,
        cleaned(s, now).default_ttl == s.default_ttl,
        lookup(cleaned(s, now), bearer, now) == lookup(s, bearer, now),
{
}


/// What a token reads as is untouched by the store's operations on other
/// tokens: storing, reading (which may drop an expired one) or removing
/// another token, and storing a PKCE challenge. So a stored token keeps
/// reading back across any such operations.
pub proof fn law_other_operations_keep_token(
    s: TokenStoreView,
    bearer: Seq<char>,
    other: Seq<char>,
    login: Seq<char>,
    token: Seq<char>,
    at: Timestamp,
    now: Timestamp,
    state: Seq<char>,
    challenge: PkceView,
)
    requires
        other != bearer,
    ensures
        lookup(inserted(s, other, login, token, at), bearer, now) == lookup(s, bearer, now),
        lookup(after_lookup(s, other, at), bearer, now) == lookup(s, bearer, now),
        lookup(TokenStoreView { tokens: s.tokens.remove(other), ..s }, bearer, now) == lookup(s, bearer, now),
        lookup(TokenStoreView { pkce: s.pkce.insert(state, challenge), ..s }, bearer, now) == lookup(s, bearer, now),
{
}

} // verus!
