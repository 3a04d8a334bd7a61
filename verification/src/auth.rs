//! Bearer authentication.
//!
//! A request presents `Authorization: Bearer <token>`. The token is either the
//! shared ingest token, an API key or an OAuth token. The stores are asked by
//! the caller; [`start_authentication`], [`on_api_key`] and [`on_oauth_token`]
//! decide what to ask and what the answers mean.

use axum::http::HeaderMap;
use vstd::prelude::*;
use vstd::string::*;
use vstd::utf8::*;

use crate::errors::{outcome, ApiError, ApiErrorView, SentioError, SentioErrorView};
use crate::hash::{key_hash, key_hash_of};
use crate::headers::{header_text, header_text_of};
use crate::text::{same_text, strip_prefix};

verus! {

/// A tenant, by the 128 bits of its UUID.
#[derive(Debug, Clone, Copy, PartialEq, Eq, Structural)]
pub struct TenantId(pub u128);

/// Who a request acts for, and what it may do.
#[derive(Debug, Clone)]
pub struct AuthContext {
    pub tenant_id: TenantId,
    pub scopes: Vec<String>,
    /// Set when the bearer is the shared ingest token. That token is ingest-only
    /// (`messages:ingest`) and belongs to no tenant, so recipient domains are
    /// resolved globally.
    pub shared_ingest: bool,
}

/// What an [`AuthContext`] says.
pub struct AuthContextView {
    pub tenant_id: TenantId,
    pub scopes: Seq<Seq<char>>,
    pub shared_ingest: bool,
}

impl View for AuthContext {
    type V = AuthContextView;

    open spec fn view(&self) -> AuthContextView {
        AuthContextView {
            tenant_id: self.tenant_id,
            scopes: self.scopes.deep_view(),
            shared_ingest: self.shared_ingest,
        }
    }
}

/// Whether a holder of `scopes` has `scope`: by name or through `*`.
pub open spec fn grants(scopes: Seq<Seq<char>>, scope: Seq<char>) -> bool {
    scopes.contains(scope) || scopes.contains("*"@)
}

impl AuthContext {
    /// Succeeds if the context has `scope`, by name or through `*`.
    pub fn require_scope(&self, scope: &str) -> (r: Result<(), ApiError>)
        ensures
            outcome(r) == (if grants(self@.scopes, scope@) {
                Ok(())
            } else {
                Err(ApiErrorView::Auth("missing required scope: "@ + scope@))
            }),
    {
        let mut i: usize = 0;
        while i < self.scopes.len()
            invariant
                i <= self.scopes@.len(),
                forall|j: int|
                    0 <= j < i ==> (#[trigger] self.scopes.deep_view()[j]) != scope@
                        && self.scopes.deep_view()[j] != "*"@,
            decreases self.scopes.len() - i,
        {
            let held = self.scopes[i].as_str();
            assert(self.scopes.deep_view()[i as int] == held@);
            if same_text(held, scope) || same_text(held, "*") {
                return Ok(());
            }
            i += 1;
        }
        Err(ApiError::Auth("missing required scope: ".to_owned().concat(scope)))
    }
}

/// Environment variable whose value is accepted as a bearer token on ingest.
/// Distinct from API keys: it grants only `messages:ingest`.
pub const INGEST_TOKEN_ENV: &'static str = "SENTIO_INGEST_TOKEN";

/// Whether `presented` is the configured token. An unset or empty configuration
/// matches nothing.
pub open spec fn token_matches(presented: Seq<char>, configured: Option<Seq<char>>) -> bool {
    configured matches Some(expected) && expected.len() > 0 && presented == expected
}

/// Whether two byte strings are equal, reading both to the end.
pub fn constant_time_eq(a: &[u8], b: &[u8]) -> (r: bool)
    ensures
        r == (a@ == b@),
{
    if a.len() != b.len() {
        return false;
    }
    let mut diff: u8 = 0;
    let mut i: usize = 0;
    assert(a@.take(0) == b@.take(0));
    while i < a.len()
        invariant
            a@.len() == b@.len(),
            i <= a@.len(),
            diff == 0 <==> a@.take(i as int) == b@.take(i as int),
        decreases a.len() - i,
    {
        let x = a[i];
        let y = b[i];
        let next: u8 = diff | (x ^ y);
        assert(next == 0 <==> diff == 0 && x == y) by (bit_vector)
            requires
                next == diff | (x ^ y),
        ;
        proof {
            let s = a@.take(i + 1);
            let t = b@.take(i + 1);
            assert(s == a@.take(i as int).push(x));
            assert(t == b@.take(i as int).push(y));
            assert(s.drop_last() == a@.take(i as int));
            assert(t.drop_last() == b@.take(i as int));
            assert(s.last() == x && t.last() == y);
        }
        diff = next;
        i += 1;
    }
    assert(a@.take(i as int) == a@);
    assert(b@.take(i as int) == b@);
    diff == 0
}

/// Whether `presented` is the configured token.
pub fn token_equals_configured(presented: &str, configured: Option<&str>) -> (r: bool)
    ensures
        r == token_matches(presented@, configured.deep_view()),
{
    match configured {
        Some(expected) => {
            if expected.is_empty() {
                false
            } else {
                proof {
                    encode_utf8_decode_utf8(presented@);
                    encode_utf8_decode_utf8(expected@);
                }
                constant_time_eq(presented.as_bytes(), expected.as_bytes())
            }
        },
        None => false,
    }
}

/// `uuid::Uuid::nil`, by its 128 bits: none of them is set.
#[verifier::external_body]
fn nil_uuid() -> (r: u128)
    ensures
        r == 0,
{
    uuid::Uuid::nil().as_u128()
}

/// A moment: seconds since the Unix epoch, and nanoseconds into that second.
#[derive(Debug, Clone, Copy, PartialEq, Eq, Structural)]
pub struct Timestamp {
    pub secs: i64,
    pub nanos: u32,
}

impl Timestamp {
    /// Whether this moment lies before `other`.
    pub open spec fn precedes(self, other: Timestamp) -> bool {
        self.secs < other.secs || self.secs == other.secs && self.nanos < other.nanos
    }

    /// Whether this moment lies before `other`.
    pub fn is_before(self, other: Timestamp) -> (r: bool)
        ensures
            r == self.precedes(other),
    {
        self.secs < other.secs || (self.secs == other.secs && self.nanos < other.nanos)
    }
}

/// The stored record of an API key.
#[derive(Debug)]
pub struct ApiKeyRecord {
    pub tenant_id: TenantId,
    pub scopes: Vec<String>,
    pub key_prefix: String,
}

/// What an [`ApiKeyRecord`] says.
pub struct ApiKeyRecordView {
    pub tenant_id: TenantId,
    pub scopes: Seq<Seq<char>>,
    pub key_prefix: Seq<char>,
}

impl View for ApiKeyRecord {
    type V = ApiKeyRecordView;

    open spec fn view(&self) -> ApiKeyRecordView {
        ApiKeyRecordView {
            tenant_id: self.tenant_id,
            scopes: self.scopes.deep_view(),
            key_prefix: self.key_prefix@,
        }
    }
}

/// The stored record of an OAuth token.
#[derive(Debug)]
pub struct OAuthTokenRecord {
    pub tenant_id: TenantId,
    pub scopes: Vec<String>,
    pub revoked_at: Option<Timestamp>,
    pub expires_at: Timestamp,
}

/// What an [`OAuthTokenRecord`] says.
pub struct OAuthTokenRecordView {
    pub tenant_id: TenantId,
    pub scopes: Seq<Seq<char>>,
    pub revoked_at: Option<Timestamp>,
    pub expires_at: Timestamp,
}

impl View for OAuthTokenRecord {
    type V = OAuthTokenRecordView;

    open spec fn view(&self) -> OAuthTokenRecordView {
        OAuthTokenRecordView {
            tenant_id: self.tenant_id,
            scopes: self.scopes.deep_view(),
            revoked_at: self.revoked_at,
            expires_at: self.expires_at,
        }
    }
}

/// The answer of a store, record and error taken by their views.
pub open spec fn answer<T: View>(found: Result<T, SentioError>) -> Result<T::V, SentioErrorView> {
    match found {
        Ok(record) => Ok(record@),
        Err(e) => Err(e@),
    }
}

/// What to do next in an authentication.
#[derive(Debug)]
pub enum AuthStep {
    /// Authentication has ended.
    Done(Result<AuthContext, ApiError>),
    /// Look the hash up among the API keys and go on with [`on_api_key`].
    LookupApiKey { key_hash: String },
    /// Look the hash up among the OAuth tokens and go on with
    /// [`on_oauth_token`].
    LookupOAuthToken { key_hash: String },
}

/// What an [`AuthStep`] says.
pub enum AuthStepView {
    Done(Result<AuthContextView, ApiErrorView>),
    LookupApiKey { key_hash: Seq<char> },
    LookupOAuthToken { key_hash: Seq<char> },
}

impl View for AuthStep {
    type V = AuthStepView;

    open spec fn view(&self) -> AuthStepView {
        match self {
            AuthStep::Done(r) => AuthStepView::Done(outcome(*r)),
            AuthStep::LookupApiKey { key_hash } => AuthStepView::LookupApiKey {
                key_hash: key_hash@,
            },
            AuthStep::LookupOAuthToken { key_hash } => AuthStepView::LookupOAuthToken {
                key_hash: key_hash@,
            },
        }
    }
}

/// The context of the shared ingest token.
pub open spec fn shared_ingest_context() -> AuthContextView {
    AuthContextView {
        tenant_id: TenantId(0),
        scopes: seq!["messages:ingest"@],
        shared_ingest: true,
    }
}

/// The token of an authorization header: what follows `Bearer `.
pub open spec fn bearer_token(header: Seq<char>) -> Option<Seq<char>> {
    if "Bearer "@.is_prefix_of(header) {
        Some(header.skip("Bearer "@.len() as int))
    } else {
        None
    }
}

/// The first step: a context that is already there is used as it is; else the
/// bearer token is compared with the shared ingest token, and looked up if it
/// is another.
pub open spec fn first_step(
    cached: Option<AuthContextView>,
    header: Option<Seq<char>>,
    configured: Option<Seq<char>>,
) -> AuthStepView {
    match cached {
        Some(context) => AuthStepView::Done(Ok(context)),
        None => match header {
            None => AuthStepView::Done(Err(ApiErrorView::Auth("missing authorization header"@))),
            Some(header) => match bearer_token(header) {
                None => AuthStepView::Done(
                    Err(ApiErrorView::Auth("invalid authorization format, expected Bearer token"@)),
                ),
                Some(token) => if token_matches(token, configured) {
                    AuthStepView::Done(Ok(shared_ingest_context()))
                } else {
                    AuthStepView::LookupApiKey { key_hash: key_hash_of(token) }
                },
            },
        },
    }
}

/// The step after the API keys were asked for `key_hash`. Only a miss, which
/// the key store reports as `Auth`, leads on to the OAuth tokens.
pub open spec fn api_key_step(
    key_hash: Seq<char>,
    found: Result<ApiKeyRecordView, SentioErrorView>,
) -> AuthStepView {
    match found {
        Ok(record) => AuthStepView::Done(
            Ok(
                AuthContextView {
                    tenant_id: record.tenant_id,
                    scopes: record.scopes,
                    shared_ingest: false,
                },
            ),
        ),
        Err(SentioErrorView::Auth(_)) => AuthStepView::LookupOAuthToken { key_hash },
        Err(_) => AuthStepView::Done(
            Err(ApiErrorView::Internal("authentication backend unavailable"@)),
        ),
    }
}

/// The end after the OAuth tokens were asked, at the moment `now`. The token
/// store reports a miss as `Auth` or as `NotFound`.
pub open spec fn oauth_result(
    found: Result<OAuthTokenRecordView, SentioErrorView>,
    now: Timestamp,
) -> Result<AuthContextView, ApiErrorView> {
    match found {
        Ok(record) => if record.revoked_at is Some {
            Err(ApiErrorView::Auth("token has been revoked"@))
        } else if record.expires_at.precedes(now) {
            Err(ApiErrorView::Auth("token has expired"@))
        } else {
            Ok(
                AuthContextView {
                    tenant_id: record.tenant_id,
                    scopes: record.scopes,
                    shared_ingest: false,
                },
            )
        },
        Err(SentioErrorView::Auth(_)) => Err(ApiErrorView::Auth("invalid or expired token"@)),
        Err(SentioErrorView::NotFound(_)) => Err(ApiErrorView::Auth("invalid or expired token"@)),
        Err(_) => Err(ApiErrorView::Internal("authentication backend unavailable"@)),
    }
}

/// Starts the authentication of a request with the given authorization header.
/// `cached` is the context that an earlier layer resolved, `configured` the value
/// of [`INGEST_TOKEN_ENV`].
pub fn authenticate_header(
    cached: Option<AuthContext>,
    header: Option<String>,
    configured: Option<&str>,
) -> (r: AuthStep)
    ensures
        r@ == first_step(context_of(cached), header.deep_view(), configured.deep_view()),
{
    if let Some(context) = cached {
        return AuthStep::Done(Ok(context));
    }
    let header = match header {
        Some(header) => header,
        None => {
            return AuthStep::Done(
                Err(ApiError::Auth("missing authorization header".to_owned())),
            );
        },
    };
    let token = match strip_prefix(header.as_str(), "Bearer ") {
        Some(token) => token,
        None => {
            return AuthStep::Done(
                Err(
                    ApiError::Auth(
                        "invalid authorization format, expected Bearer token".to_owned(),
                    ),
                ),
            );
        },
    };
    if token_equals_configured(token.as_str(), configured) {
        let mut scopes: Vec<String> = Vec::new();
        scopes.push("messages:ingest".to_owned());
        assert(scopes.deep_view() == seq!["messages:ingest"@]);
        return AuthStep::Done(
            Ok(AuthContext { tenant_id: TenantId(nil_uuid()), scopes, shared_ingest: true }),
        );
    }
    AuthStep::LookupApiKey { key_hash: key_hash(token.as_str()) }
}

/// A context that may be there, by its view.
pub open spec fn context_of(cached: Option<AuthContext>) -> Option<AuthContextView> {
    match cached {
        Some(context) => Some(context@),
        None => None,
    }
}

/// Starts the authentication of a request with the given headers.
pub fn start_authentication(
    cached: Option<AuthContext>,
    headers: &HeaderMap,
    configured: Option<&str>,
) -> (r: AuthStep)
    ensures
        r@ == first_step(
            context_of(cached),
            header_text_of(*headers, "authorization"@),
            configured.deep_view(),
        ),
{
    authenticate_header(cached, header_text(headers, "authorization"), configured)
}

/// Goes on with what the API key store answered for `key_hash`.
pub fn on_api_key(key_hash: String, found: Result<ApiKeyRecord, SentioError>) -> (r: AuthStep)
    ensures
        r@ == api_key_step(key_hash@, answer(found)),
{
    match found {
        Ok(record) => AuthStep::Done(
            Ok(
                AuthContext {
                    tenant_id: record.tenant_id,
                    scopes: record.scopes,
                    shared_ingest: false,
                },
            ),
        ),
        Err(SentioError::Auth(_)) => AuthStep::LookupOAuthToken { key_hash },
        Err(_) => AuthStep::Done(
            Err(ApiError::Internal("authentication backend unavailable".to_owned())),
        ),
    }
}

/// Ends with what the OAuth token store answered, at the moment `now`.
pub fn on_oauth_token(found: Result<OAuthTokenRecord, SentioError>, now: Timestamp) -> (r: Result<
    AuthContext,
    ApiError,
>)
    ensures
        outcome(r) == oauth_result(answer(found), now),
{
    match found {
        Ok(record) => {
            if record.revoked_at.is_some() {
                return Err(ApiError::Auth("token has been revoked".to_owned()));
            }
            if record.expires_at.is_before(now) {
                return Err(ApiError::Auth("token has expired".to_owned()));
            }
            Ok(
                AuthContext {
                    tenant_id: record.tenant_id,
                    scopes: record.scopes,
                    shared_ingest: false,
                },
            )
        },
        Err(SentioError::Auth(_)) | Err(SentioError::NotFound(_)) => Err(
            ApiError::Auth("invalid or expired token".to_owned()),
        ),
        Err(_) => Err(ApiError::Internal("authentication backend unavailable".to_owned())),
    }
}

/// What is known of the API key that a fresh installation comes with.
#[derive(Debug)]
pub enum BootstrapKeyStatus {
    /// The key still works and is to be rotated.
    Active { key_prefix: String, tenant_id: TenantId },
    /// The key works no more.
    Inactive,
    /// The key store could not say.
    Unknown(SentioError),
}

/// The hash of the publicly known key that a fresh installation comes with.
pub fn bootstrap_key_hash() -> (r: String)
    ensures
        r@ == key_hash_of("sentio_bootstrap_admin_CHANGE_ME"@),
{
    key_hash("sentio_bootstrap_admin_CHANGE_ME")
}

/// What the key store's answer for [`bootstrap_key_hash`] means.
pub fn bootstrap_key_status(found: Result<ApiKeyRecord, SentioError>) -> (r: BootstrapKeyStatus)
    ensures
        match found {
            Ok(record) => r == (BootstrapKeyStatus::Active {
                key_prefix: record.key_prefix,
                tenant_id: record.tenant_id,
            }),
            Err(SentioError::Auth(_)) => r == BootstrapKeyStatus::Inactive,
            Err(e) => r == BootstrapKeyStatus::Unknown(e),
        },
{
    match found {
        Ok(record) => BootstrapKeyStatus::Active {
            key_prefix: record.key_prefix,
            tenant_id: record.tenant_id,
        },
        Err(SentioError::Auth(_)) => BootstrapKeyStatus::Inactive,
        Err(e) => BootstrapKeyStatus::Unknown(e),
    }
}

/// A whole authentication against stores that answer every hash as `api_keys`
/// and `oauth_tokens` say.
pub open spec fn authentication(
    cached: Option<AuthContextView>,
    header: Option<Seq<char>>,
    configured: Option<Seq<char>>,
    api_keys: spec_fn(Seq<char>) -> Result<ApiKeyRecordView, SentioErrorView>,
    oauth_tokens: spec_fn(Seq<char>) -> Result<OAuthTokenRecordView, SentioErrorView>,
    now: Timestamp,
) -> Result<AuthContextView, ApiErrorView> {
    match first_step(cached, header, configured) {
        AuthStepView::Done(r) => r,
        AuthStepView::LookupOAuthToken { key_hash } => oauth_result(oauth_tokens(key_hash), now),
        AuthStepView::LookupApiKey { key_hash } => match api_key_step(key_hash, api_keys(key_hash)) {
            AuthStepView::Done(r) => r,
            AuthStepView::LookupOAuthToken { key_hash } => oauth_result(
                oauth_tokens(key_hash),
                now,
            ),
            AuthStepView::LookupApiKey { key_hash } => oauth_result(oauth_tokens(key_hash), now),
        },
    }
}

/// A context that an earlier layer resolved is the result, and no store is
/// asked for it again.
pub proof fn resolved_context_is_reused(
    context: AuthContextView,
    header: Option<Seq<char>>,
    configured: Option<Seq<char>>,
)
    ensures
        first_step(Some(context), header, configured) == AuthStepView::Done(Ok(context)),
{
}

/// An unset or empty ingest token matches no presented token.
pub proof fn unset_ingest_token_matches_nothing(presented: Seq<char>)
    ensures
        !token_matches(presented, None),
        !token_matches(presented, Some(Seq::<char>::empty())),
{
}

/// The wildcard scope grants every scope.
pub proof fn wildcard_grants_every_scope(scopes: Seq<Seq<char>>, scope: Seq<char>)
    requires
        scopes.contains("*"@),
    ensures
        grants(scopes, scope),
{
}

/// The shared ingest token grants `messages:ingest` and nothing else.
pub proof fn shared_ingest_token_grants_ingest_only(scope: Seq<char>)
    ensures
        grants(shared_ingest_context().scopes, scope) <==> scope == "messages:ingest"@,
{
    reveal_strlit("*");
    reveal_strlit("messages:ingest");
    let scopes = shared_ingest_context().scopes;
    assert(scopes[0] == "messages:ingest"@);
    assert("*"@.len() != "messages:ingest"@.len());
}

/// A token that both stores miss is answered as an authentication error.
pub proof fn unknown_token_is_an_auth_error(
    token: Seq<char>,
    header: Seq<char>,
    configured: Option<Seq<char>>,
    api_keys: spec_fn(Seq<char>) -> Result<ApiKeyRecordView, SentioErrorView>,
    oauth_tokens: spec_fn(Seq<char>) -> Result<OAuthTokenRecordView, SentioErrorView>,
    now: Timestamp,
)
    requires
        bearer_token(header) == Some(token),
        !token_matches(token, configured),
        api_keys(key_hash_of(token)) matches Err(e) && e is Auth,
        oauth_tokens(key_hash_of(token)) matches Err(e) && (e is Auth || e is NotFound),
    ensures
        authentication(None, Some(header), configured, api_keys, oauth_tokens, now) == Err::<
            AuthContextView,
            ApiErrorView,
        >(ApiErrorView::Auth("invalid or expired token"@)),
{
}

/// A store that fails, rather than misses, is answered as an internal error: an
/// outage is never reported as a bad token.
pub proof fn store_failure_is_no_bad_token(
    token: Seq<char>,
    header: Seq<char>,
    configured: Option<Seq<char>>,
    api_keys: spec_fn(Seq<char>) -> Result<ApiKeyRecordView, SentioErrorView>,
    oauth_tokens: spec_fn(Seq<char>) -> Result<OAuthTokenRecordView, SentioErrorView>,
    now: Timestamp,
)
    requires
        bearer_token(header) == Some(token),
        !token_matches(token, configured),
        ({
            ||| api_keys(key_hash_of(token)) matches Err(e) && !(e is Auth)
            ||| (api_keys(key_hash_of(token)) matches Err(e) && e is Auth) && (oauth_tokens(
                key_hash_of(token),
            ) matches Err(e) && !(e is Auth) && !(e is NotFound))
        }),
    ensures
        authentication(None, Some(header), configured, api_keys, oauth_tokens, now) == Err::<
            AuthContextView,
            ApiErrorView,
        >(ApiErrorView::Internal("authentication backend unavailable"@)),
{
}

/// A revoked or expired OAuth token authenticates nobody.
pub proof fn dead_token_authenticates_nobody(record: OAuthTokenRecordView, now: Timestamp)
    requires
        record.revoked_at is Some || record.expires_at.precedes(now),
    ensures
        oauth_result(Ok(record), now) matches Err(e) && e is Auth,
{
}

/// Who is authenticated was resolved before, presented the configured ingest
/// token, or presented a token that a store knows: an API key, or an OAuth token
/// that is neither revoked nor expired. The context is that of the credential.
pub proof fn authenticated_by_a_credential(
    cached: Option<AuthContextView>,
    header: Option<Seq<char>>,
    configured: Option<Seq<char>>,
    api_keys: spec_fn(Seq<char>) -> Result<ApiKeyRecordView, SentioErrorView>,
    oauth_tokens: spec_fn(Seq<char>) -> Result<OAuthTokenRecordView, SentioErrorView>,
    now: Timestamp,
)
    requires
        authentication(cached, header, configured, api_keys, oauth_tokens, now) is Ok,
    ensures
        ({
            let context = authentication(cached, header, configured, api_keys, oauth_tokens, now)->Ok_0;
            let token = bearer_token(header->0)->0;
            let hash = key_hash_of(token);
            ||| cached == Some(context)
            ||| {
                &&& cached is None && header is Some && bearer_token(header->0) is Some
                &&& {
                    ||| token_matches(token, configured) && context == shared_ingest_context()
                    ||| api_keys(hash) matches Ok(record) && !context.shared_ingest
                        && context.tenant_id == record.tenant_id && context.scopes == record.scopes
                    ||| oauth_tokens(hash) matches Ok(record) && !context.shared_ingest
                        && context.tenant_id == record.tenant_id && context.scopes == record.scopes
                        && record.revoked_at is None && !record.expires_at.precedes(now)
                }
            }
        }),
{
}

/// A context has the scopes that it lists, and every scope where it lists `*`; one
/// that it has not is named in the refusal.
pub proof fn scopes_are_held_by_name(
    context: &AuthContext,
    scope: &str,
    r: Result<(), ApiError>,
)
    requires
        call_ensures(AuthContext::require_scope, (context, scope), r),
    ensures
        r is Ok <==> exists|i: int|
            0 <= i < context.scopes.len() && ((#[trigger] context.scopes[i])@ == scope@
                || context.scopes[i]@ == "*"@),
        r matches Err(e) ==> e@ == ApiErrorView::Auth("missing required scope: "@ + scope@),
{
    let held = context.scopes.deep_view();
    if r is Ok {
        let i = choose|i: int| 0 <= i < held.len() && (held[i] == scope@ || held[i] == "*"@);
        assert(context.scopes[i]@ == held[i]);
    } else {
        assert forall|i: int| 0 <= i < context.scopes.len() implies (
        #[trigger] context.scopes[i])@ != scope@ && context.scopes[i]@ != "*"@ by {
            assert(held[i] == context.scopes[i]@);
            assert(held.contains(held[i]));
        }
    }
}

/// A token is the ingest token if and only if it is the configured text, and that is
/// not empty.
pub proof fn ingest_token_is_the_configured_text(
    presented: &str,
    configured: Option<&str>,
    r: bool,
)
    requires
        call_ensures(token_equals_configured, (presented, configured), r),
    ensures
        r <==> (configured matches Some(expected) && expected@ == presented@ && presented@.len()
            > 0),
{
}

/// The token of an authorization header is what makes it up with `Bearer ` in front;
/// a header that is made up so by nothing has none.
pub proof fn header_is_bearer_and_token(header: Seq<char>, token: Seq<char>)
    ensures
        bearer_token("Bearer "@ + token) == Some(token),
        bearer_token(header) == Some(token) <==> header == "Bearer "@ + token,
{
    let whole = "Bearer "@ + token;
    assert("Bearer "@ =~= whole.subrange(0, "Bearer "@.len() as int));
    assert(whole.skip("Bearer "@.len() as int) =~= token);
    if bearer_token(header) == Some(token) {
        assert(header =~= "Bearer "@ + token);
    }
}

/// A context that is already there is handed on, whatever the header says.
pub proof fn resolved_context_is_handed_on(
    context: AuthContext,
    header: Option<String>,
    configured: Option<&str>,
    r: AuthStep,
)
    requires
        call_ensures(authenticate_header, (Some(context), header, configured), r),
    ensures
        r matches AuthStep::Done(Ok(c)) && c.tenant_id == context.tenant_id && c.scopes.deep_view()
            == context.scopes.deep_view() && c.shared_ingest == context.shared_ingest,
{
    assert(r@ == AuthStepView::Done(Ok(context@)));
}

/// Without a context, a request must present a bearer token: one without the header,
/// and one whose header is of another form, are refused each with its text.
pub proof fn bearer_token_is_demanded(
    header: Option<String>,
    configured: Option<&str>,
    r: AuthStep,
)
    requires
        call_ensures(authenticate_header, (None, header, configured), r),
    ensures
        header is None ==> (r matches AuthStep::Done(Err(e)) && e@ == ApiErrorView::Auth(
            "missing authorization header"@,
        )),
        (header matches Some(h) && forall|token: Seq<char>| h@ != #[trigger] ("Bearer "@ + token))
            ==> (r matches AuthStep::Done(Err(e)) && e@ == ApiErrorView::Auth(
            "invalid authorization format, expected Bearer token"@,
        )),
        (r matches AuthStep::Done(Err(_))) ==> (header matches Some(h) ==> forall|token: Seq<char>|
            h@ != #[trigger] ("Bearer "@ + token)),
{
    if let Some(h) = header {
        if let Some(token) = bearer_token(h@) {
            header_is_bearer_and_token(h@, token);
        } else {
            assert forall|token: Seq<char>| h@ != #[trigger] ("Bearer "@ + token) by {
                header_is_bearer_and_token(h@, token);
            }
        }
    }
}

/// The configured ingest token authenticates at once, for no tenant and for
/// `messages:ingest` alone; any other token is looked up among the API keys, by its
/// hash.
pub proof fn presented_token_decides(
    header: String,
    token: Seq<char>,
    configured: Option<&str>,
    r: AuthStep,
)
    requires
        call_ensures(authenticate_header, (None, Some(header), configured), r),
        header@ == "Bearer "@ + token,
    ensures
        (configured matches Some(expected) && expected@ == token && token.len() > 0) ==> (
        r matches AuthStep::Done(Ok(c)) && c.tenant_id == TenantId(0) && c.shared_ingest
            && c.scopes.len() == 1 && c.scopes[0]@ == "messages:ingest"@),
        !(configured matches Some(expected) && expected@ == token && token.len() > 0) ==> (
        r matches AuthStep::LookupApiKey { key_hash } && key_hash@ == key_hash_of(token)),
{
    header_is_bearer_and_token(header@, token);
    assert(bearer_token(header@) == Some(token));
    if configured matches Some(expected) && expected@ == token && token.len() > 0 {
        let c = r->Done_0->Ok_0;
        assert(c@ == shared_ingest_context());
        assert(c.scopes.deep_view() == seq!["messages:ingest"@]);
        assert(c.scopes.deep_view()[0] == c.scopes[0]@);
    }
}

/// A request is authenticated by the text of its `Authorization` header.
pub proof fn authorization_header_is_used(
    cached: Option<AuthContext>,
    headers: &HeaderMap,
    header: Option<String>,
    configured: Option<&str>,
    r: AuthStep,
    s: AuthStep,
)
    requires
        header.deep_view() == header_text_of(*headers, "authorization"@),
        call_ensures(start_authentication, (cached, headers, configured), r),
        call_ensures(authenticate_header, (cached, header, configured), s),
    ensures
        r@ == s@,
{
}

/// An API key that the store knows authenticates with its tenant and scopes. One that
/// it does not know, told by `Auth`, is looked up among the OAuth tokens by the same
/// hash, and any other answer is a failure of the store.
pub proof fn known_api_key_authenticates(
    key_hash: String,
    found: Result<ApiKeyRecord, SentioError>,
    r: AuthStep,
)
    requires
        call_ensures(on_api_key, (key_hash, found), r),
    ensures
        found matches Ok(record) ==> (r matches AuthStep::Done(Ok(c)) && c.tenant_id
            == record.tenant_id && c.scopes.deep_view() == record.scopes.deep_view()
            && !c.shared_ingest),
        (found matches Err(e) && e is Auth) ==> (r matches AuthStep::LookupOAuthToken {
            key_hash: hash,
        } && hash@ == key_hash@),
        (found matches Err(e) && !(e is Auth)) ==> (r matches AuthStep::Done(Err(e)) && e@
            == ApiErrorView::Internal("authentication backend unavailable"@)),
{
    if let Ok(record) = found {
        assert(r->Done_0->Ok_0@.scopes == record@.scopes);
    }
}

/// An OAuth token authenticates with its tenant and scopes from the moment it is
/// known until it is revoked or its expiry, by seconds and then by nanoseconds, lies
/// behind.
pub proof fn live_oauth_token_authenticates(
    record: OAuthTokenRecord,
    now: Timestamp,
    r: Result<AuthContext, ApiError>,
)
    requires
        call_ensures(on_oauth_token, (Ok(record), now), r),
    ensures
        ({
            let over = now.secs > record.expires_at.secs || now.secs == record.expires_at.secs
                && now.nanos > record.expires_at.nanos;
            &&& record.revoked_at is None && !over ==> (r matches Ok(c) && c.tenant_id
                == record.tenant_id && c.scopes.deep_view() == record.scopes.deep_view()
                && !c.shared_ingest)
            &&& record.revoked_at is Some ==> (r matches Err(e) && e@ == ApiErrorView::Auth(
                "token has been revoked"@,
            ))
            &&& record.revoked_at is None && over ==> (r matches Err(e) && e@
                == ApiErrorView::Auth("token has expired"@))
        }),
{
    if r is Ok {
        assert(r->Ok_0@.scopes == record@.scopes);
    }
}

/// Where the token store knows no record, a miss is a bad token and any other answer
/// a failure of the store.
pub proof fn missing_oauth_token_is_refused(
    e: SentioError,
    now: Timestamp,
    r: Result<AuthContext, ApiError>,
)
    requires
        call_ensures(on_oauth_token, (Err(e), now), r),
    ensures
        e is Auth || e is NotFound ==> (r matches Err(f) && f@ == ApiErrorView::Auth(
            "invalid or expired token"@,
        )),
        !(e is Auth || e is NotFound) ==> (r matches Err(f) && f@ == ApiErrorView::Internal(
            "authentication backend unavailable"@,
        )),
{
}

/// Of two moments that differ exactly one lies before the other, and what lies before
/// a moment lies before every later one. A token that has expired stays so.
pub proof fn moments_are_in_order(a: Timestamp, b: Timestamp, c: Timestamp)
    ensures
        !a.precedes(a),
        a != b ==> (a.precedes(b) <==> !b.precedes(a)),
        a.precedes(b) && b.precedes(c) ==> a.precedes(c),
        a.secs < b.secs ==> a.precedes(b),
        a.secs == b.secs && a.nanos < b.nanos ==> a.precedes(b),
{
}

/// Whoever presents a token that a store knows is authenticated, as the store says:
/// with an API key in any case, and with an OAuth token where it is no API key, is not
/// revoked and has not expired.
pub proof fn known_credentials_authenticate(
    token: Seq<char>,
    configured: Option<Seq<char>>,
    api_keys: spec_fn(Seq<char>) -> Result<ApiKeyRecordView, SentioErrorView>,
    oauth_tokens: spec_fn(Seq<char>) -> Result<OAuthTokenRecordView, SentioErrorView>,
    now: Timestamp,
)
    requires
        configured != Some(token) || token.len() == 0,
    ensures
        ({
            let hash = key_hash_of(token);
            let got = authentication(
                None,
                Some("Bearer "@ + token),
                configured,
                api_keys,
                oauth_tokens,
                now,
            );
            &&& api_keys(hash) matches Ok(record) ==> (got matches Ok(c) && c.tenant_id
                == record.tenant_id && c.scopes == record.scopes && !c.shared_ingest)
            &&& (api_keys(hash) matches Err(e) && e is Auth) ==> (oauth_tokens(
                hash,
            ) matches Ok(record) ==> (record.revoked_at is None && (now.secs
                < record.expires_at.secs || now.secs == record.expires_at.secs && now.nanos
                <= record.expires_at.nanos) ==> (got matches Ok(c) && c.tenant_id
                == record.tenant_id && c.scopes == record.scopes && !c.shared_ingest)))
        }),
{
    header_is_bearer_and_token("Bearer "@ + token, token);
}

/// Whoever presents the configured ingest token is authenticated without a store.
pub proof fn ingest_token_authenticates(
    token: Seq<char>,
    api_keys: spec_fn(Seq<char>) -> Result<ApiKeyRecordView, SentioErrorView>,
    oauth_tokens: spec_fn(Seq<char>) -> Result<OAuthTokenRecordView, SentioErrorView>,
    now: Timestamp,
)
    requires
        token.len() > 0,
    ensures
        authentication(None, Some("Bearer "@ + token), Some(token), api_keys, oauth_tokens, now)
            == Ok::<AuthContextView, ApiErrorView>(
            AuthContextView {
                tenant_id: TenantId(0),
                scopes: seq!["messages:ingest"@],
                shared_ingest: true,
            },
        ),
{
    header_is_bearer_and_token("Bearer "@ + token, token);
}

/// The bootstrap key is looked up by the hash that a request with it as its token is
/// looked up by.
pub proof fn bootstrap_key_is_looked_up_as_a_token(
    hash: String,
    header: String,
    configured: Option<&str>,
    r: AuthStep,
)
    requires
        call_ensures(bootstrap_key_hash, (), hash),
        call_ensures(authenticate_header, (None, Some(header), configured), r),
        header@ == "Bearer "@ + "sentio_bootstrap_admin_CHANGE_ME"@,
    ensures
        r matches AuthStep::LookupApiKey { key_hash } ==> key_hash@ == hash@,
        r is LookupApiKey || r is Done,
{
    header_is_bearer_and_token(header@, "sentio_bootstrap_admin_CHANGE_ME"@);
}

/// The bootstrap key works as long as the store knows it, works no more where the
/// store misses it, and nothing is known where the store fails.
pub proof fn bootstrap_key_works_while_known(
    found: Result<ApiKeyRecord, SentioError>,
    r: BootstrapKeyStatus,
)
    requires
        call_ensures(bootstrap_key_status, (found,), r),
    ensures
        found matches Ok(record) ==> (r matches BootstrapKeyStatus::Active {
            key_prefix,
            tenant_id,
        } && key_prefix@ == record.key_prefix@ && tenant_id == record.tenant_id),
        (found matches Err(e) && e is Auth) <==> r is Inactive,
        (found matches Err(e) && !(e is Auth)) ==> r == BootstrapKeyStatus::Unknown(
            found->Err_0,
        ),
{
}

/// Byte strings are equal exactly when they have the same length and the same byte at
/// every place.
pub proof fn equal_bytes_are_equal_everywhere(a: &[u8], b: &[u8], r: bool)
    requires
        call_ensures(constant_time_eq, (a, b), r),
    ensures
        r <==> a@.len() == b@.len() && forall|i: int| 0 <= i < a@.len() ==> #[trigger] a@[i] == b@[i],
{
    if a@.len() == b@.len() && forall|i: int| 0 <= i < a@.len() ==> #[trigger] a@[i] == b@[i] {
        assert(a@ =~= b@);
    }
}

/// The ingest token is configured by `SENTIO_INGEST_TOKEN`.
pub proof fn ingest_token_has_its_variable()
    ensures
        INGEST_TOKEN_ENV@ == "SENTIO_INGEST_TOKEN"@,
{
}

} // verus!
