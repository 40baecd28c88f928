//! The token cache: the credential state shared by every request, the
//! expiry policy, and the decision logic of `get_token`. The network
//! half of a refresh (the OAuth2 exchange itself) is performed by the
//! caller, which feeds the outcome back through
//! `apply_exchange_success`; everything decided here is verified.
//!
//! Concurrency shape: readers check the cached credential under a shared
//! lock; a caller that finds it invalid takes the exclusive lock,
//! re-checks (another caller may have refreshed meanwhile), and only then
//! exchanges. `lemma_single_inflight_refresh` proves that this protocol
//! issues exactly one exchange for any number of racing callers.

use vstd::prelude::*;
use vstd::string::*;

verus! {

/// OAuth2 client-credentials configuration for the authorization server.
#[derive(Debug, Clone)]
pub struct DataHubConfig {
    pub client_id: String,
    pub client_secret: String,
    pub auth_path: String,
    pub token_path: String,
    pub project_name: String,
}

/// The cached credential plus the endpoint it authenticates against.
/// `expires` is the epoch second after which the token is stale; a
/// credential with no known expiry is always treated as expired, the
/// conservative policy for externally supplied static tokens.
pub struct DataHubApi {
    pub config: Option<DataHubConfig>,
    pub token: Option<String>,
    pub expires: Option<u64>,
    pub refresh_token: Option<String>,
    pub base_url: String,
}

/// The expiry policy: a credential with no expiry is permanently expired;
/// one with an expiry is expired strictly after that second.
pub open spec fn token_expired_at(expires: Option<u64>, now: u64) -> bool {
    match expires {
        None => true,
        Some(e) => now > e,
    }
}

/// A cached token exists and is not expired at `now`.
pub open spec fn spec_has_valid_token(s: DataHubApi, now: u64) -> bool {
    s.token is Some && !token_expired_at(s.expires, now)
}

/// Which grant a refresh will use: the refresh token from a previous
/// exchange when one exists, a fresh client-credentials exchange
/// otherwise.
pub enum GrantKind {
    RefreshToken(String),
    ClientCredentials,
}

/// What `get_token` must do next, decided from the cache state alone.
pub enum TokenDecision {
    /// The cached token is valid: return it, no network call.
    UseCached(String),
    /// An OAuth2 client is configured and the credential is invalid:
    /// perform a token exchange with this grant.
    Exchange(GrantKind),
    /// No OAuth2 client, but a static token was supplied: return it
    /// unchanged even though the policy reports it expired.
    UseStatic(String),
    /// No OAuth2 client and no token at all: fail with a
    /// configuration error.
    FailConfig,
}

/// The decision `token_decision` returns on a given state and time.
pub open spec fn spec_token_decision(s: DataHubApi, now: u64) -> TokenDecision {
    if spec_has_valid_token(s, now) {
        TokenDecision::UseCached(s.token->0)
    } else if s.config is Some {
        match s.refresh_token {
            Some(rt) => TokenDecision::Exchange(GrantKind::RefreshToken(rt)),
            None => TokenDecision::Exchange(GrantKind::ClientCredentials),
        }
    } else if s.token is Some {
        TokenDecision::UseStatic(s.token->0)
    } else {
        TokenDecision::FailConfig
    }
}

impl DataHubApi {
    /// A fresh cache around the endpoint the configuration selects, with
    /// no credential yet.
    pub fn init(config: Option<DataHubConfig>) -> (r: DataHubApi)
        ensures
            r.config == config,
            r.token is None,
            r.expires is None,
            r.refresh_token is None,
            config is Some ==> r.base_url@ == "https://api-"@ + config->0.project_name@
                + ".intellistream.ai/timeseries/data"@,
            config is None ==> r.base_url@ == "http://localhost:8081"@,
    {
        let base_url = match &config {
            Some(c) => {
                let mut u = String::from_str("https://api-");
                u.append(c.project_name.as_str());
                u.append(".intellistream.ai/timeseries/data");
                u
            },
            None => String::from_str("http://localhost:8081"),
        };
        DataHubApi { config, token: None, expires: None, refresh_token: None, base_url }
    }

    pub fn set_token_value(&mut self, value: &str)
        ensures
            final(self).token is Some && final(self).token->0@ == value@,
            final(self).config == old(self).config,
            final(self).expires == old(self).expires,
            final(self).refresh_token == old(self).refresh_token,
            final(self).base_url == old(self).base_url,
    {
        self.token = Some(value.to_owned());
    }

    pub fn set_token_expires(&mut self, value: u64)
        ensures
            final(self).expires == Some(value),
            final(self).config == old(self).config,
            final(self).token == old(self).token,
            final(self).refresh_token == old(self).refresh_token,
            final(self).base_url == old(self).base_url,
    {
        self.expires = Some(value);
    }

    /// Whether the cached credential is stale at `now` (epoch seconds),
    /// under the conservative no-expiry-means-expired policy.
    pub fn has_token_expired(&self, now: u64) -> (r: bool)
        ensures
            r == token_expired_at(self.expires, now),
    {
        match self.expires {
            None => true,
            Some(e) => now > e,
        }
    }

    pub fn get_config(&self) -> (r: &Option<DataHubConfig>)
        ensures
            r == self.config,
    {
        &self.config
    }

    /// The decision step of `get_token`: run once under the shared lock
    /// and, when that saw an invalid credential, once more under the
    /// exclusive lock before exchanging. Only an `Exchange` decision
    /// leads to a network call.
    pub fn token_decision(&self, now: u64) -> (d: TokenDecision)
        ensures
            d == spec_token_decision(*self, now),
    {
        let valid = match &self.token {
            Some(_) => !self.has_token_expired(now),
            None => false,
        };
        if valid {
            let t = match &self.token {
                Some(t) => t.clone(),
                None => String::new(),
            };
            TokenDecision::UseCached(t)
        } else if self.config.is_some() {
            match &self.refresh_token {
                Some(rt) => TokenDecision::Exchange(GrantKind::RefreshToken(rt.clone())),
                None => TokenDecision::Exchange(GrantKind::ClientCredentials),
            }
        } else {
            match &self.token {
                Some(t) => TokenDecision::UseStatic(t.clone()),
                None => TokenDecision::FailConfig,
            }
        }
    }

    /// Installs the result of a successful token exchange: the new access
    /// token, an expiry of `now + ttl_secs` as the server reported, and
    /// the refresh token for the next renewal, when one was returned.
    pub fn apply_exchange_success(
        &mut self,
        access_token: String,
        ttl_secs: u64,
        refresh_token: Option<String>,
        now: u64,
    )
        requires
            now + ttl_secs <= u64::MAX,
        ensures
            *final(self) == install_exchange(*old(self), access_token, ttl_secs, refresh_token, now),
    {
        self.token = Some(access_token);
        self.expires = Some(now + ttl_secs);
        self.refresh_token = refresh_token;
    }
}

/// The state after a successful exchange is installed.
pub open spec fn install_exchange(
    s: DataHubApi,
    access_token: String,
    ttl_secs: u64,
    refresh_token: Option<String>,
    now: u64,
) -> DataHubApi {
    DataHubApi {
        token: Some(access_token),
        expires: Some(((now + ttl_secs) as u64)),
        refresh_token,
        ..s
    }
}

/// The state one caller leaves behind after its turn under the exclusive
/// lock, assuming any exchange it performs succeeds with `t`, `ttl` and
/// `rt`: a valid credential is kept, an invalid one is replaced when an
/// OAuth2 client is configured, and nothing changes otherwise.
pub open spec fn refresh_round_state(
    s: DataHubApi,
    now: u64,
    t: String,
    ttl: u64,
    rt: Option<String>,
) -> DataHubApi {
    if spec_has_valid_token(s, now) {
        s
    } else if s.config is Some {
        install_exchange(s, t, ttl, rt, now)
    } else {
        s
    }
}

/// How many token-exchange network calls that caller makes: one exactly
/// when the credential is invalid and an OAuth2 client is configured.
pub open spec fn refresh_round_exchanges(s: DataHubApi, now: u64) -> nat {
    if spec_has_valid_token(s, now) {
        0
    } else if s.config is Some {
        1
    } else {
        0
    }
}

/// The token that caller receives: the cached one when valid, the fresh
/// one after an exchange, the static one when no client is configured,
/// and none at all only when there is neither client nor token.
pub open spec fn refresh_round_token(
    s: DataHubApi,
    now: u64,
    t: String,
) -> Option<String> {
    if spec_has_valid_token(s, now) {
        Some(s.token->0)
    } else if s.config is Some {
        Some(t)
    } else if s.token is Some {
        Some(s.token->0)
    } else {
        None
    }
}

/// The cache state after `n` callers have taken their serialized turns
/// under the exclusive lock, all at time `now`, every exchange succeeding
/// with the same server answer.
pub open spec fn serve_n_state(
    s: DataHubApi,
    n: nat,
    now: u64,
    t: String,
    ttl: u64,
    rt: Option<String>,
) -> DataHubApi
    decreases n,
{
    if n == 0 {
        s
    } else {
        refresh_round_state(serve_n_state(s, (n - 1) as nat, now, t, ttl, rt), now, t, ttl, rt)
    }
}

/// Total number of token-exchange network calls those `n` callers make.
pub open spec fn serve_n_exchanges(
    s: DataHubApi,
    n: nat,
    now: u64,
    t: String,
    ttl: u64,
    rt: Option<String>,
) -> nat
    decreases n,
{
    if n == 0 {
        0
    } else {
        serve_n_exchanges(s, (n - 1) as nat, now, t, ttl, rt) + refresh_round_exchanges(
            serve_n_state(s, (n - 1) as nat, now, t, ttl, rt),
            now,
        )
    }
}

/// One caller's turn follows its decision exactly: `UseCached`,
/// `UseStatic` and `FailConfig` leave the state alone and exchange
/// nothing, and only `Exchange` issues the one exchange and installs its
/// result. This ties the round model above to `token_decision` and
/// `apply_exchange_success`, whose contracts the executable cache
/// satisfies.
pub proof fn lemma_round_follows_decision(
    s: DataHubApi,
    now: u64,
    t: String,
    ttl: u64,
    rt: Option<String>,
)
    ensures
        spec_token_decision(s, now) is UseCached ==> refresh_round_state(s, now, t, ttl, rt) == s
            && refresh_round_exchanges(s, now) == 0 && refresh_round_token(s, now, t) == Some(
            s.token->0,
        ),
        spec_token_decision(s, now) is Exchange ==> refresh_round_state(s, now, t, ttl, rt)
            == install_exchange(s, t, ttl, rt, now) && refresh_round_exchanges(s, now) == 1
            && refresh_round_token(s, now, t) == Some(t),
        spec_token_decision(s, now) is UseStatic ==> refresh_round_state(s, now, t, ttl, rt) == s
            && refresh_round_exchanges(s, now) == 0 && refresh_round_token(s, now, t) == Some(
            s.token->0,
        ),
        spec_token_decision(s, now) is FailConfig ==> refresh_round_state(s, now, t, ttl, rt) == s
            && refresh_round_exchanges(s, now) == 0 && refresh_round_token(s, now, t) is None,
{
}

/// Single in-flight refresh: when any number of callers race on an
/// expired or absent credential and an OAuth2 client is configured,
/// exactly one token exchange is issued, and every caller receives the
/// token that exchange produced.
pub proof fn lemma_single_inflight_refresh(
    s: DataHubApi,
    n: nat,
    now: u64,
    t: String,
    ttl: u64,
    rt: Option<String>,
)
    requires
        !spec_has_valid_token(s, now),
        s.config is Some,
        n >= 1,
        now + ttl <= u64::MAX,
    ensures
        serve_n_exchanges(s, n, now, t, ttl, rt) == 1,
        forall|k: nat|
            k < n ==> refresh_round_token(#[trigger] serve_n_state(s, k, now, t, ttl, rt), now, t)
                == Some(t),
    decreases n,
{
    let installed = install_exchange(s, t, ttl, rt, now);
    assert(spec_has_valid_token(installed, now));
    if n == 1 {
        assert(serve_n_state(s, 0, now, t, ttl, rt) == s);
        assert(refresh_round_token(s, now, t) == Some(t));
        assert(serve_n_exchanges(s, 1, now, t, ttl, rt) == serve_n_exchanges(s, 0, now, t, ttl, rt)
            + refresh_round_exchanges(s, now));
        assert(serve_n_exchanges(s, 0, now, t, ttl, rt) == 0);
        assert(refresh_round_exchanges(s, now) == 1);
    } else {
        lemma_single_inflight_refresh(s, (n - 1) as nat, now, t, ttl, rt);
        lemma_installed_state_stable(s, (n - 1) as nat, now, t, ttl, rt);
        assert(serve_n_state(s, (n - 1) as nat, now, t, ttl, rt) == installed);
        assert(refresh_round_exchanges(installed, now) == 0);
        assert(serve_n_exchanges(s, n, now, t, ttl, rt) == serve_n_exchanges(
            s,
            (n - 1) as nat,
            now,
            t,
            ttl,
            rt,
        ) + refresh_round_exchanges(installed, now));
        assert(refresh_round_token(installed, now, t) == Some(installed.token->0));
        assert(forall|k: nat|
            k < n ==> refresh_round_token(#[trigger] serve_n_state(s, k, now, t, ttl, rt), now, t)
                == Some(t)) by {
            assert forall|k: nat| k < n implies refresh_round_token(
                #[trigger] serve_n_state(s, k, now, t, ttl, rt),
                now,
                t,
            ) == Some(t) by {
                if k >= 1 {
                    lemma_installed_state_stable(s, k, now, t, ttl, rt);
                }
            }
        };
    }
}

/// After the first caller has exchanged, every later caller finds the
/// installed credential valid and leaves the state alone.
proof fn lemma_installed_state_stable(
    s: DataHubApi,
    k: nat,
    now: u64,
    t: String,
    ttl: u64,
    rt: Option<String>,
)
    requires
        !spec_has_valid_token(s, now),
        s.config is Some,
        k >= 1,
        now + ttl <= u64::MAX,
    ensures
        serve_n_state(s, k, now, t, ttl, rt) == install_exchange(s, t, ttl, rt, now),
    decreases k,
{
    let installed = install_exchange(s, t, ttl, rt, now);
    assert(spec_has_valid_token(installed, now));
    if k == 1 {
        assert(serve_n_state(s, 0, now, t, ttl, rt) == s);
    } else {
        lemma_installed_state_stable(s, (k - 1) as nat, now, t, ttl, rt);
    }
}

/// Static tokens never refresh through OAuth2: with a static token and no
/// configured client, the conservative policy reports the credential
/// expired at every instant, yet every caller receives the same token,
/// no exchange is ever issued, and the state never changes. Without a
/// token as well, the decision is a configuration failure rather than a
/// refresh loop.
pub proof fn lemma_static_token_never_refreshes(
    s: DataHubApi,
    now: u64,
    t: String,
    ttl: u64,
    rt: Option<String>,
)
    requires
        s.config is None,
        s.expires is None,
    ensures
        token_expired_at(s.expires, now),
        refresh_round_exchanges(s, now) == 0,
        refresh_round_state(s, now, t, ttl, rt) == s,
        s.token is Some ==> spec_token_decision(s, now) == TokenDecision::UseStatic(s.token->0)
            && refresh_round_token(s, now, t) == Some(s.token->0),
        s.token is None ==> spec_token_decision(s, now) == TokenDecision::FailConfig,
{
}

} // verus!
