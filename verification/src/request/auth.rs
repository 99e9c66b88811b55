//! How a request authenticates.

use vstd::prelude::*;

verus! {

/// The authentication of a request: exactly one variant is active.
#[derive(Debug, PartialEq, Eq)]
pub enum Auth {
    NoAuth,
    /// User name and password.
    BasicAuth(String, String),
    /// The token.
    BearerToken(String),
}

/// What an [`Auth`] holds, as plain text.
pub enum AuthView {
    NoAuth,
    BasicAuth(Seq<char>, Seq<char>),
    BearerToken(Seq<char>),
}

impl View for Auth {
    type V = AuthView;

    open spec fn view(&self) -> AuthView {
        match self {
            Auth::NoAuth => AuthView::NoAuth,
            Auth::BasicAuth(username, password) => AuthView::BasicAuth(username@, password@),
            Auth::BearerToken(token) => AuthView::BearerToken(token@),
        }
    }
}

impl Default for Auth {
    fn default() -> (auth: Auth)
        ensures
            auth@ == AuthView::NoAuth,
    {
        Auth::NoAuth
    }
}

impl Clone for Auth {
    fn clone(&self) -> (copy: Auth)
        ensures
            copy@ == self@,
    {
        match self {
            Auth::NoAuth => Auth::NoAuth,
            Auth::BasicAuth(username, password) => Auth::BasicAuth(
                username.clone(),
                password.clone(),
            ),
            Auth::BearerToken(token) => Auth::BearerToken(token.clone()),
        }
    }
}

impl AuthView {
    /// The variant that follows in the cycle `NoAuth`, `BasicAuth`,
    /// `BearerToken`, with empty credentials.
    pub open spec fn next(self) -> AuthView {
        match self {
            AuthView::NoAuth => AuthView::BasicAuth(Seq::empty(), Seq::empty()),
            AuthView::BasicAuth(_, _) => AuthView::BearerToken(Seq::empty()),
            AuthView::BearerToken(_) => AuthView::NoAuth,
        }
    }

    /// Whether two values are the same variant, whatever they hold.
    pub open spec fn same_variant(self, other: AuthView) -> bool {
        match (self, other) {
            (AuthView::NoAuth, AuthView::NoAuth) => true,
            (AuthView::BasicAuth(_, _), AuthView::BasicAuth(_, _)) => true,
            (AuthView::BearerToken(_), AuthView::BearerToken(_)) => true,
            _ => false,
        }
    }
}

impl Auth {
    /// The name shown for the variant.
    pub fn to_string(&self) -> (name: String)
        ensures
            name@ == match self@ {
                AuthView::NoAuth => "No Auth"@,
                AuthView::BasicAuth(_, _) => "Basic"@,
                AuthView::BearerToken(_) => "Bearer"@,
            },
    {
        match self {
            Auth::NoAuth => "No Auth".to_string(),
            Auth::BasicAuth(_, _) => "Basic".to_string(),
            Auth::BearerToken(_) => "Bearer".to_string(),
        }
    }
}

/// Three steps of the cycle lead from `NoAuth` back to `NoAuth`.
pub proof fn lemma_auth_cycle_returns_to_no_auth()
    ensures
        AuthView::NoAuth.next().next().next() == AuthView::NoAuth,
{
}

/// Three steps of the cycle lead from any variant back to the same variant.
pub proof fn lemma_auth_cycle_has_period_three(auth: AuthView)
    ensures
        auth.next().next().next().same_variant(auth),
        !auth.next().same_variant(auth),
        !auth.next().next().same_variant(auth),
{
}

} // verus!
