//! The identity provider's configuration, and the two things the login flow
//! takes from the `oauth2` crate: a fresh anti-forgery token and the
//! authorization URL that carries it.

use oauth2::basic::BasicClient;
use oauth2::url::Url;
use oauth2::{AuthUrl, ClientId, CsrfToken, RedirectUrl, Scope};
use vstd::prelude::*;

verus! {

/// Whether `Url::parse` accepts the text.
pub uninterp spec fn url_parses(text: Seq<char>) -> bool;

/// The authorization URL that `oauth2` builds for a code-flow request: the
/// authorization endpoint with the query parameters `response_type`,
/// `client_id`, `state`, `redirect_uri` and, for a scope that is not empty,
/// `scope` appended, each value escaped for a query.
pub uninterp spec fn authorization_url(
    auth_url: Seq<char>,
    client_id: Seq<char>,
    redirect_url: Seq<char>,
    scope: Seq<char>,
    state: Seq<char>,
) -> Seq<char>;

/// `Url::parse`, asked only whether it succeeds. Trusted: the answer is the
/// one that `url_parses` names.
#[verifier::external_body]
fn parses_as_url(text: &str) -> (ok: bool)
    ensures
        ok == url_parses(text@),
{
    Url::parse(text).is_ok()
}

/// The shape of a fresh state value: 128 bits written in URL-safe base64
/// without padding, which makes 22 characters of that alphabet.
pub open spec fn state_token(text: Seq<char>) -> bool {
    &&& text.len() == 22
    &&& forall|i: int| 0 <= i < text.len() ==> url_safe(#[trigger] text[i])
}

/// `BasicClient::authorize_url(..).add_scope(..).url()`. Trusted: for
/// endpoints that parse as URLs the call does not panic, and the URL it
/// returns is the one that `authorization_url` names for these five texts.
#[verifier::external_body]
fn build_authorization_url(
    auth_url: &str,
    client_id: &str,
    redirect_url: &str,
    scope: &str,
    state: &str,
) -> (url: String)
    requires
        url_parses(auth_url@),
        url_parses(redirect_url@),
    ensures
        url@ == authorization_url(auth_url@, client_id@, redirect_url@, scope@, state@),
{
    let auth = AuthUrl::new(auth_url.to_string()).unwrap();
    let redirect = RedirectUrl::new(redirect_url.to_string()).unwrap();
    let client = BasicClient::new(ClientId::new(client_id.to_string()), None, auth, None)
        .set_redirect_uri(redirect);
    let (url, _) = client
        .authorize_url(|| CsrfToken::new(state.to_string()))
        .add_scope(Scope::new(scope.to_string()))
        .url();
    url.as_str().to_string()
}

/// The provider's endpoints and this client's registration with it. In
/// every value of the type the authorization, token and redirect endpoints
/// parse as URLs.
pub struct ProviderConfig {
    client_id: String,
    client_secret: String,
    auth_url: String,
    token_url: String,
    redirect_url: String,
    resource_url: String,
    scope: String,
}

/// What a `ProviderConfig` holds, as plain text.
pub struct ProviderConfigView {
    pub client_id: Seq<char>,
    pub client_secret: Seq<char>,
    pub auth_url: Seq<char>,
    pub token_url: Seq<char>,
    pub redirect_url: Seq<char>,
    pub resource_url: Seq<char>,
    pub scope: Seq<char>,
}

impl ProviderConfigView {
    /// The three endpoints of the authorization flow parse as URLs.
    pub open spec fn endpoints_parse(self) -> bool {
        &&& url_parses(self.auth_url)
        &&& url_parses(self.token_url)
        &&& url_parses(self.redirect_url)
    }

    /// The authorization URL of this configuration for a given state.
    pub open spec fn authorization_url(self, state: Seq<char>) -> Seq<char> {
        authorization_url(self.auth_url, self.client_id, self.redirect_url, self.scope, state)
    }
}

/// What a configuration for GitHub holds.
pub open spec fn github_view(
    client_id: Seq<char>,
    client_secret: Seq<char>,
    redirect_url: Seq<char>,
    resource_url: Seq<char>,
) -> ProviderConfigView {
    ProviderConfigView {
        client_id,
        client_secret,
        auth_url: "https://github.com/login/oauth/authorize"@,
        token_url: "https://github.com/login/oauth/access_token"@,
        redirect_url,
        resource_url,
        scope: "user:email"@,
    }
}

impl View for ProviderConfig {
    type V = ProviderConfigView;

    closed spec fn view(&self) -> ProviderConfigView {
        ProviderConfigView {
            client_id: self.client_id@,
            client_secret: self.client_secret@,
            auth_url: self.auth_url@,
            token_url: self.token_url@,
            redirect_url: self.redirect_url@,
            resource_url: self.resource_url@,
            scope: self.scope@,
        }
    }
}

impl ProviderConfig {
    #[verifier::type_invariant]
    spec fn endpoints_are_urls(self) -> bool {
        self@.endpoints_parse()
    }

    /// A configuration from its seven texts; `None` when the authorization,
    /// token or redirect endpoint does not parse as a URL.
    pub fn new(
        client_id: String,
        client_secret: String,
        auth_url: String,
        token_url: String,
        redirect_url: String,
        resource_url: String,
        scope: String,
    ) -> (r: Option<ProviderConfig>)
        ensures
            r.is_some() == (ProviderConfigView {
                client_id: client_id@,
                client_secret: client_secret@,
                auth_url: auth_url@,
                token_url: token_url@,
                redirect_url: redirect_url@,
                resource_url: resource_url@,
                scope: scope@,
            }).endpoints_parse(),
            r matches Some(config) ==> config@ == (ProviderConfigView {
                client_id: client_id@,
                client_secret: client_secret@,
                auth_url: auth_url@,
                token_url: token_url@,
                redirect_url: redirect_url@,
                resource_url: resource_url@,
                scope: scope@,
            }),
    {
        if parses_as_url(auth_url.as_str()) && parses_as_url(token_url.as_str()) && parses_as_url(
            redirect_url.as_str(),
        ) {
            Some(
                ProviderConfig {
                    client_id,
                    client_secret,
                    auth_url,
                    token_url,
                    redirect_url,
                    resource_url,
                    scope,
                },
            )
        } else {
            None
        }
    }

    /// A configuration for GitHub as the provider: its two endpoints and
    /// the scope that gives the caller's e-mail address are fixed, the rest
    /// is this client's own. `None` when the redirect endpoint does not
    /// parse as a URL.
    pub fn github(
        client_id: String,
        client_secret: String,
        redirect_url: String,
        resource_url: String,
    ) -> (r: Option<ProviderConfig>)
        ensures
            r.is_some() == github_view(
                client_id@,
                client_secret@,
                redirect_url@,
                resource_url@,
            ).endpoints_parse(),
            r matches Some(config) ==> config@ == github_view(
                client_id@,
                client_secret@,
                redirect_url@,
                resource_url@,
            ),
    {
        ProviderConfig::new(
            client_id,
            client_secret,
            "https://github.com/login/oauth/authorize".to_string(),
            "https://github.com/login/oauth/access_token".to_string(),
            redirect_url,
            resource_url,
            "user:email".to_string(),
        )
    }

    /// The authorization URL that carries `state`.
    pub fn authorization_url(&self, state: &str) -> (url: String)
        ensures
            url@ == self@.authorization_url(state@),
    {
        proof {
            use_type_invariant(self);
        }
        build_authorization_url(
            self.auth_url.as_str(),
            self.client_id.as_str(),
            self.redirect_url.as_str(),
            self.scope.as_str(),
            state,
        )
    }

    /// A state value for one login attempt, unpredictable and different each
    /// time: 128 random bits as 22 characters that need no escaping in a URL.
    pub fn fresh_state() -> (token: String)
        ensures
            state_token(token@),
    {
        random_state()
    }

    pub fn client_id(&self) -> (r: &str)
        ensures
            r@ == self@.client_id,
    {
        self.client_id.as_str()
    }

    pub fn client_secret(&self) -> (r: &str)
        ensures
            r@ == self@.client_secret,
    {
        self.client_secret.as_str()
    }

    pub fn auth_url(&self) -> (r: &str)
        ensures
            r@ == self@.auth_url,
    {
        self.auth_url.as_str()
    }

    pub fn token_url(&self) -> (r: &str)
        ensures
            r@ == self@.token_url,
    {
        self.token_url.as_str()
    }

    pub fn redirect_url(&self) -> (r: &str)
        ensures
            r@ == self@.redirect_url,
    {
        self.redirect_url.as_str()
    }

    pub fn resource_url(&self) -> (r: &str)
        ensures
            r@ == self@.resource_url,
    {
        self.resource_url.as_str()
    }

    pub fn scope(&self) -> (r: &str)
        ensures
            r@ == self@.scope,
    {
        self.scope.as_str()
    }
}

/// Whether a character belongs to the URL-safe base64 alphabet.
pub open spec fn url_safe(c: char) -> bool {
    ||| 'A' <= c <= 'Z'
    ||| 'a' <= c <= 'z'
    ||| '0' <= c <= '9'
    ||| c == '-'
    ||| c == '_'
}

/// `CsrfToken::new_random`. Trusted: the token is sixteen random bytes
/// written in URL-safe base64 without padding, so it has the shape that
/// `state_token` describes. Which token it is differs from call to call, and
/// nothing is claimed of that.
#[verifier::external_body]
fn random_state() -> (token: String)
    ensures
        state_token(token@),
{
    CsrfToken::new_random().secret().clone()
}

} // verus!
