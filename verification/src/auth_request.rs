//! The bookkeeping of an OAuth client-credentials token for the endpoint
//! that receives the sensor messages: when to fetch a token, what to ask
//! for, and what to keep from the answer.
use vstd::prelude::*;
use crate::clock::{UtcTime, shifted, shift_seconds, utc_now, MIN_TIMESTAMP};
use crate::text::{owned, append_str};

verus! {

/// Where and as whom the middleware authenticates.
#[derive(Debug)]
pub struct AuthRequestConfig {
    pub client_id: String,
    pub client_secret: String,
    pub audience: String,
    pub tenant: String,
    pub region: String,
    pub endpoint: String,
}

/// What the token endpoint answered.
#[derive(Debug)]
pub struct TokenResponse {
    /// The JSON text of the answer's `access_token` value (`null` when the
    /// answer has none).
    pub access_token: String,
    /// The answer's `expires_in`, when it is an integer that fits an `i64`.
    pub expires_in: Option<i64>,
}

/// A token for the message endpoint and the instant it stops being used.
pub struct AuthRequest<'a> {
    config: &'a AuthRequestConfig,
    token: String,
    expiration: UtcTime,
}

/// The JSON text of an object whose members are `fields`, each a key and a
/// string value, in the order given.
pub uninterp spec fn json_string_object_text(fields: Seq<(Seq<char>, Seq<char>)>) -> Seq<char>;

/// The views of a list of key and value strings.
pub open spec fn pairs_view(fields: Seq<(String, String)>) -> Seq<(Seq<char>, Seq<char>)> {
    fields.map_values(|f: (String, String)| (f.0@, f.1@))
}

/// Writes a JSON object of string members.
///
/// Trusted: inserts each key with `Value::String` of its value into a
/// `serde_json::Map` (a later key replaces an earlier equal one), then calls
/// `Value::to_string` on the object. The text is a function of the members
/// alone, named [`json_string_object_text`].
#[verifier::external_body]
fn json_string_object(fields: &Vec<(String, String)>) -> (r: String)
    ensures
        r@ == json_string_object_text(pairs_view(fields@)),
{
    let mut object = serde_json::Map::new();
    for (key, value) in fields.iter() {
        object.insert(key.clone(), serde_json::Value::String(value.clone()));
    }
    serde_json::Value::Object(object).to_string()
}

/// The members of a token request: the client id and secret, the audience,
/// and the grant type `client_credentials`.
pub open spec fn token_request_fields(config: AuthRequestConfig) -> Seq<(Seq<char>, Seq<char>)> {
    seq![
        ("client_id"@, config.client_id@),
        ("client_secret"@, config.client_secret@),
        ("audience"@, config.audience@),
        ("grant_type"@, "client_credentials"@),
    ]
}

/// The body of a token request for a configuration: the JSON object of its
/// members.
pub open spec fn token_request_text(config: AuthRequestConfig) -> Seq<char> {
    json_string_object_text(token_request_fields(config))
}

/// The mathematical value of a [`TokenResponse`].
pub struct TokenResponseView {
    pub access_token: Seq<char>,
    pub expires_in: Option<i64>,
}

impl View for TokenResponse {
    type V = TokenResponseView;

    open spec fn view(&self) -> TokenResponseView {
        TokenResponseView { access_token: self.access_token@, expires_in: self.expires_in }
    }
}

/// The answer read from the JSON text `text` of the token endpoint, or
/// `None` where the text is not JSON.
pub uninterp spec fn token_response_fields(text: Seq<char>) -> Option<TokenResponseView>;

/// Reads the token endpoint's answer from its JSON text.
///
/// Trusted: calls `serde_json::from_str` into a `serde_json::Value`, then
/// takes the `Display` text of its `access_token` value and `as_i64` of its
/// `expires_in`. What comes back is a function of the text alone, named
/// [`token_response_fields`]; a text that is not JSON gives serde_json's error.
#[verifier::external_body]
pub fn read_token_response(text: &str) -> (r: Result<TokenResponse, serde_json::Error>)
    ensures
        match token_response_fields(text@) {
            Some(v) => r matches Ok(t) && t@ == v,
            None => r is Err,
        },
{
    let v: serde_json::Value = serde_json::from_str(text)?;
    Ok(TokenResponse { access_token: v["access_token"].to_string(), expires_in: v["expires_in"].as_i64() })
}

/// The address of the tenant's token endpoint.
pub open spec fn token_url_text(config: AuthRequestConfig) -> Seq<char> {
    "https://"@ + config.tenant@ + "."@ + config.region@ + ".auth0.com/oauth/token"@
}

/// The number of seconds by which a fresh token's expiration is moved:
/// `expires_in` (0 when absent) less a margin of ten seconds.
pub open spec fn lifetime_seconds(response: TokenResponse) -> int {
    (match response.expires_in {
        Some(e) => e as int,
        None => 0,
    }) - 10
}

/// Whether a token answer received at `now` can be kept: its lifetime is
/// computed without overflow and the expiration it gives is an instant.
pub open spec fn response_applies(response: TokenResponse, now: UtcTime) -> bool {
    &&& lifetime_seconds(response) >= i64::MIN
    &&& shifted(now, lifetime_seconds(response)) is Some
}

/// A request made at `now` has a token that has already expired at `now`,
/// so the first message always fetches a token.
pub proof fn law_new_request_needs_token(now: UtcTime)
    requires
        now.wf(),
        now.secs - 10 >= MIN_TIMESTAMP,
    ensures
        shifted(now, -10) matches Some(e) && e.spec_before(now),
{
}

/// A token kept from an answer whose lifetime is positive has not expired
/// at the moment the answer arrived.
pub proof fn law_fresh_token_not_expired(response: TokenResponse, now: UtcTime)
    requires
        now.wf(),
        response_applies(response, now),
        lifetime_seconds(response) > 0,
    ensures
        shifted(now, lifetime_seconds(response)) matches Some(e) && !e.spec_before(now),
{
}

/// An answer received at `now` that applies gives the expiration
/// `now + expires_in - 10` seconds (10 seconds before `now` when the answer
/// has no `expires_in`), at the same fraction of a second; and the token
/// has not expired at `now` exactly when the answer's lifetime is positive.
pub proof fn law_expiration_after_answer(response: TokenResponse, now: UtcTime)
    requires
        now.wf(),
        response_applies(response, now),
    ensures
        shifted(now, lifetime_seconds(response)) matches Some(e) && {
            &&& e.secs == now.secs + (match response.expires_in {
                Some(x) => x as int,
                None => 0,
            }) - 10
            &&& e.nanos == now.nanos
            &&& !e.spec_before(now) <==> lifetime_seconds(response) >= 0
            &&& e.spec_before(now) <==> now.secs > e.secs
        },
{
}

/// One change of a request by a token answer: the configuration stays, and
/// the token either stays with its expiration or becomes the answer's token.
pub open spec fn token_step(before: AuthRequest, after: AuthRequest, response: TokenResponse) -> bool {
    &&& after.spec_config() == before.spec_config()
    &&& (after.spec_token() == before.spec_token() && after.spec_expiration() == before.spec_expiration())
        || after.spec_token() == response.access_token@
}

/// Over any run of token answers, a request keeps the configuration it was
/// made with, and its token is always the first one or the token of one of
/// the answers received so far.
pub proof fn law_configuration_and_token_sources(states: Seq<AuthRequest>, answers: Seq<TokenResponse>)
    requires
        states.len() == answers.len() + 1,
        forall|i: int| 0 <= i < answers.len() ==> token_step(states[i], states[i + 1], #[trigger] answers[i]),
    ensures
        forall|i: int| 0 <= i < states.len() ==> (#[trigger] states[i]).spec_config() == states[0].spec_config(),
        forall|i: int| 0 <= i < states.len() ==> (#[trigger] states[i]).spec_token() == states[0].spec_token()
            || exists|j: int| 0 <= j < i && states[i].spec_token() == (#[trigger] answers[j]).access_token@,
    decreases answers.len(),
{
    if answers.len() > 0 {
        let n = answers.len() - 1;
        law_configuration_and_token_sources(states.drop_last(), answers.drop_last());
        assert forall|i: int| 0 <= i < states.len() implies (#[trigger] states[i]).spec_config() == states[0].spec_config() by {
            if i < states.len() - 1 {
                assert(states.drop_last()[i] == states[i]);
            } else {
                assert(token_step(states[n], states[n + 1], answers[n]));
                assert(states.drop_last()[n] == states[n]);
            }
        }
        assert forall|i: int| 0 <= i < states.len() implies (#[trigger] states[i]).spec_token() == states[0].spec_token()
            || exists|j: int| 0 <= j < i && states[i].spec_token() == (#[trigger] answers[j]).access_token@ by {
            if i < states.len() - 1 {
                assert(states.drop_last()[i] == states[i]);
                if states[i].spec_token() != states[0].spec_token() {
                    let j = choose|j: int| 0 <= j < i && states.drop_last()[i].spec_token() == (#[trigger] answers.drop_last()[j]).access_token@;
                    assert(answers.drop_last()[j] == answers[j]);
                }
            } else {
                assert(token_step(states[n], states[n + 1], answers[n]));
                assert(states.drop_last()[n] == states[n]);
                if states[i].spec_token() != answers[n].access_token@ {
                    if states[n].spec_token() != states[0].spec_token() {
                        let j = choose|j: int| 0 <= j < n && states.drop_last()[n].spec_token() == (#[trigger] answers.drop_last()[j]).access_token@;
                        assert(answers.drop_last()[j] == answers[j]);
                    }
                }
            }
        }
    }
}

impl<'a> AuthRequest<'a> {
    /// The expiration of a request is always an instant chrono represents.
    #[verifier::type_invariant]
    spec fn expiration_is_instant(self) -> bool {
        self.expiration.wf()
    }

    /// The configuration the request was made with.
    pub closed spec fn spec_config(&self) -> &'a AuthRequestConfig {
        self.config
    }

    /// The current token.
    pub closed spec fn spec_token(&self) -> Seq<char> {
        self.token@
    }

    /// The instant from which the token is no longer used.
    pub closed spec fn spec_expiration(&self) -> UtcTime {
        self.expiration
    }

    /// A request with no token yet, created at `now`: its expiration lies
    /// ten seconds before `now`, so the first message fetches a token.
    pub fn new_at(config: &'a AuthRequestConfig, now: UtcTime) -> (r: AuthRequest<'a>)
        requires
            now.wf(),
            now.secs - 10 >= MIN_TIMESTAMP,
        ensures
            r.spec_config() == config,
            r.spec_token() == Seq::<char>::empty(),
            Some(r.spec_expiration()) == shifted(now, -10),
    {
        let expiration = match shift_seconds(now, -10) {
            Some(t) => t,
            None => {
                proof {
                    assert(false);
                }
                now
            },
        };
        AuthRequest { config, token: String::new(), expiration }
    }

    /// A request with no token yet, created now: its expiration lies ten
    /// seconds before the current time. `None` where the system clock cannot
    /// be read.
    pub fn new(config: &'a AuthRequestConfig) -> (r: Option<AuthRequest<'a>>)
        ensures
            r matches Some(a) ==> {
                &&& a.spec_config() == config
                &&& a.spec_token() == Seq::<char>::empty()
                &&& exists|now: UtcTime| now.wf() && now.secs >= 0 && Some(a.spec_expiration()) == #[trigger] shifted(now, -10)
            },
    {
        match utc_now() {
            Some(now) => Some(AuthRequest::new_at(config, now)),
            None => None,
        }
    }

    /// The configuration the request was made with.
    pub fn config(&self) -> (r: &'a AuthRequestConfig)
        ensures
            r == self.spec_config(),
    {
        self.config
    }

    /// Whether, at `now`, the token has expired and a new one is fetched
    /// before a message is sent.
    pub fn token_expired_at(&self, now: UtcTime) -> (r: bool)
        ensures
            r == self.spec_expiration().spec_before(now),
    {
        self.expiration.before(now)
    }

    /// Whether the token has expired by now; `None` where the system clock
    /// cannot be read.
    pub fn token_expired(&self) -> (r: Option<bool>)
        ensures
            r matches Some(b) ==> exists|now: UtcTime| now.wf() && now.secs >= 0 && b == #[trigger] self.spec_expiration().spec_before(now),
    {
        match utc_now() {
            Some(now) => Some(self.token_expired_at(now)),
            None => None,
        }
    }

    /// The value of the `authorization` header of a message: `Bearer ` and the token.
    pub fn authorization_header(&self) -> (r: String)
        ensures
            r@ == "Bearer "@ + self.spec_token(),
    {
        let mut r = owned("Bearer ");
        append_str(&mut r, self.token.as_str());
        r
    }

    /// The address to which a token request is sent.
    pub fn token_url(&self) -> (r: String)
        ensures
            r@ == token_url_text(*self.spec_config()),
    {
        let mut r = owned("https://");
        append_str(&mut r, self.config.tenant.as_str());
        append_str(&mut r, ".");
        append_str(&mut r, self.config.region.as_str());
        append_str(&mut r, ".auth0.com/oauth/token");
        assert(r@ =~= token_url_text(*self.spec_config()));
        r
    }

    /// The body of a token request.
    pub fn token_request_body(&self) -> (r: String)
        ensures
            r@ == token_request_text(*self.spec_config()),
    {
        let fields = vec![
            (owned("client_id"), self.config.client_id.clone()),
            (owned("client_secret"), self.config.client_secret.clone()),
            (owned("audience"), self.config.audience.clone()),
            (owned("grant_type"), owned("client_credentials")),
        ];
        assert(pairs_view(fields@) =~= token_request_fields(*self.spec_config()));
        json_string_object(&fields)
    }

    /// Keeps the token of an answer received at `now`; the token expires
    /// `expires_in` seconds (0 when absent) less ten after `now`.
    pub fn apply_token_response_at(&mut self, response: &TokenResponse, now: UtcTime)
        requires
            now.wf(),
            response_applies(*response, now),
        ensures
            final(self).spec_config() == old(self).spec_config(),
            token_step(*old(self), *final(self), *response),
            final(self).spec_token() == response.access_token@,
            Some(final(self).spec_expiration()) == shifted(now, lifetime_seconds(*response)),
    {
        let expires_in: i64 = match response.expires_in {
            Some(e) => e,
            None => 0,
        };
        let lifetime = expires_in - 10;
        proof {
            use_type_invariant(&*self);
        }
        self.token = response.access_token.clone();
        match shift_seconds(now, lifetime) {
            Some(t) => {
                self.expiration = t;
            },
            None => {
                proof {
                    assert(false);
                }
            },
        }
    }

    /// Keeps the token of an answer received at `now`, as
    /// [`AuthRequest::apply_token_response_at`] does, exactly where the answer
    /// applies; elsewhere (its lifetime overflows or gives no representable
    /// expiration) leaves the request unchanged and returns `false`.
    pub fn try_apply_token_response_at(&mut self, response: &TokenResponse, now: UtcTime) -> (applied: bool)
        requires
            now.wf(),
        ensures
            applied == response_applies(*response, now),
            final(self).spec_config() == old(self).spec_config(),
            token_step(*old(self), *final(self), *response),
            applied ==> final(self).spec_token() == response.access_token@ && Some(final(self).spec_expiration())
                == shifted(now, lifetime_seconds(*response)),
            !applied ==> final(self).spec_token() == old(self).spec_token()
                && final(self).spec_expiration() == old(self).spec_expiration(),
    {
        let expires_in: i64 = match response.expires_in {
            Some(e) => e,
            None => 0,
        };
        if expires_in < i64::MIN + 10 {
            return false;
        }
        match shift_seconds(now, expires_in - 10) {
            Some(_) => {
                self.apply_token_response_at(response, now);
                true
            },
            None => false,
        }
    }

    /// Keeps the token of an answer received now, as
    /// [`AuthRequest::try_apply_token_response_at`] does at the current time;
    /// `None`, with the request unchanged, where the system clock cannot be read.
    pub fn apply_token_response(&mut self, response: &TokenResponse) -> (applied: Option<bool>)
        ensures
            final(self).spec_config() == old(self).spec_config(),
            token_step(*old(self), *final(self), *response),
            MIN_TIMESTAMP <= lifetime_seconds(*response) <= 0 ==> applied != Some(false),
            applied == Some(true) ==> final(self).spec_token() == response.access_token@ && exists|now: UtcTime|
                now.wf() && now.secs >= 0 && response_applies(*response, now) && Some(final(self).spec_expiration())
                    == #[trigger] shifted(now, lifetime_seconds(*response)),
            applied == Some(false) ==> final(self).spec_token() == old(self).spec_token()
                && final(self).spec_expiration() == old(self).spec_expiration() && exists|now: UtcTime|
                now.wf() && now.secs >= 0 && !#[trigger] response_applies(*response, now),
            applied is None ==> final(self).spec_token() == old(self).spec_token()
                && final(self).spec_expiration() == old(self).spec_expiration(),
    {
        match utc_now() {
            Some(now) => Some(self.try_apply_token_response_at(response, now)),
            None => None,
        }
    }
}

} // verus!
