//! The handles of a Facebook Graph client: which endpoint talks to which
//! server with which access token. The requests themselves are made by the
//! caller.

use std::rc::Rc;
use vstd::prelude::*;
use vstd::string::StringExecFns;

verus! {

/// The server that the endpoints talk to.
pub const BASE_URL: &'static str = "https://graph.facebook.com";

/// What every endpoint of one client shares.
pub struct FacebookClientInner {
    pub base_url: &'static str,
    pub app_access_token: String,
}

/// The endpoint that lists the pages of the user.
pub struct AccountsEndpoint {
    pub client: Rc<FacebookClientInner>,
}

/// The endpoints below `/me`.
pub struct MeEndpoint {
    pub accounts: AccountsEndpoint,
}

/// The endpoint that creates official events.
pub struct OfficialEventsEndpoint {
    pub client: Rc<FacebookClientInner>,
}

/// A client with its endpoints.
pub struct FacebookClient {
    pub official_events: OfficialEventsEndpoint,
    pub me: MeEndpoint,
    pub inner_client: Rc<FacebookClientInner>,
}

/// `Rc::clone` of std: one more handle to the same value.
#[verifier::external_body]
fn share(inner: &Rc<FacebookClientInner>) -> (other: Rc<FacebookClientInner>)
    ensures
        *other == **inner,
{
    Rc::clone(inner)
}

/// Where the login dialog of Facebook lives.
pub const LOGIN_DIALOG: &'static str = "https://www.facebook.com/v3.2/dialog/oauth?";

/// Where Facebook sends the user after login where the caller names no place.
pub const LOGIN_SUCCESS: &'static str = "https://www.facebook.com/connect/login_success.html";

/// The names and values as one text in the form that HTML forms are sent in.
pub uninterp spec fn form_urlencoded(pairs: Seq<(Seq<char>, Seq<char>)>) -> Seq<char>;

/// The names and values of the pairs as texts.
pub open spec fn pair_texts(pairs: Seq<(String, String)>) -> Seq<(Seq<char>, Seq<char>)> {
    Seq::new(pairs.len(), |i: int| (pairs[i].0@, pairs[i].1@))
}

/// `form_urlencoded::Serializer` of the url crate: the pairs appended in
/// turn to an empty target, and the target when the serializer is finished.
/// The text is a function of the pairs alone.
#[verifier::external_body]
fn serialize_pairs(pairs: &Vec<(String, String)>) -> (query: String)
    ensures
        query@ == form_urlencoded(pair_texts(pairs@)),
{
    let mut serializer = url::form_urlencoded::Serializer::new(String::new());
    for (name, value) in pairs.iter() {
        serializer.append_pair(name, value);
    }
    serializer.finish()
}

/// The first `k` scopes in one text, with a comma between them. Scopes
/// that are empty at the start leave no comma.
pub open spec fn joined_scopes(scopes: Seq<&str>, k: int) -> Seq<char>
    decreases k,
{
    if k <= 0 {
        Seq::empty()
    } else {
        let before = joined_scopes(scopes, k - 1);
        if before.len() == 0 {
            scopes[k - 1]@
        } else {
            before + ","@ + scopes[k - 1]@
        }
    }
}

/// What the login dialog is told: the application, where to go after
/// login, the state of the caller, and the scopes asked for.
pub open spec fn login_pairs(
    app_id: Seq<char>,
    redirect_uri: Seq<char>,
    state: Seq<char>,
    scope: Seq<char>,
) -> Seq<(Seq<char>, Seq<char>)> {
    seq![
        ("client_id"@, app_id),
        ("redirect_uri"@, redirect_uri),
        ("state"@, state),
        ("scope"@, scope),
    ]
}

impl MeEndpoint {
    /// The endpoints below `/me` of the client `client`.
    pub fn new(client: Rc<FacebookClientInner>) -> (me: MeEndpoint)
        ensures
            me.accounts.client == client,
    {
        MeEndpoint { accounts: AccountsEndpoint { client } }
    }
}

impl FacebookClient {
    /// What the endpoints of this client share.
    pub open spec fn inner(&self) -> FacebookClientInner {
        *self.inner_client
    }

    /// A client for the Graph server that signs its requests with
    /// `access_token`. Every endpoint shares the server and the token.
    pub fn from_access_token(access_token: String) -> (client: FacebookClient)
        ensures
            client.inner().base_url@ == BASE_URL@,
            client.inner().app_access_token == access_token,
            *client.official_events.client == client.inner(),
            *client.me.accounts.client == client.inner(),
    {
        let inner = Rc::new(FacebookClientInner { base_url: BASE_URL, app_access_token: access_token });
        FacebookClient {
            official_events: OfficialEventsEndpoint { client: share(&inner) },
            me: MeEndpoint::new(share(&inner)),
            inner_client: inner,
        }
    }

    /// The address of the login dialog for the application `app_id`, which
    /// sends the user on to `redirect_uri`, or to the page of Facebook for a
    /// login that succeeded, and asks for `scopes`.
    pub fn get_login_url(
        app_id: &str,
        redirect_uri: Option<&str>,
        state: &str,
        scopes: &[&str],
    ) -> (url: String)
        ensures
            url@ == LOGIN_DIALOG@ + form_urlencoded(
                login_pairs(
                    app_id@,
                    match redirect_uri {
                        Some(uri) => uri@,
                        None => LOGIN_SUCCESS@,
                    },
                    state@,
                    joined_scopes(scopes@, scopes@.len() as int),
                ),
            ),
    {
        let mut scope = String::new();
        let mut k: usize = 0;
        while k < scopes.len()
            invariant
                k <= scopes.len(),
                scope@ == joined_scopes(scopes@, k as int),
            decreases scopes.len() - k,
        {
            if scope.as_str().is_empty() {
                scope = String::from_str(scopes[k]);
            } else {
                scope.append(",");
                scope.append(scopes[k]);
            }
            k += 1;
        }
        let target = match redirect_uri {
            Some(uri) => uri,
            None => LOGIN_SUCCESS,
        };
        let mut pairs: Vec<(String, String)> = Vec::new();
        pairs.push((String::from_str("client_id"), String::from_str(app_id)));
        pairs.push((String::from_str("redirect_uri"), String::from_str(target)));
        pairs.push((String::from_str("state"), String::from_str(state)));
        pairs.push((String::from_str("scope"), scope));
        assert(pair_texts(pairs@) =~= login_pairs(
            app_id@,
            target@,
            state@,
            joined_scopes(scopes@, scopes@.len() as int),
        ));
        let query = serialize_pairs(&pairs);
        String::from_str(LOGIN_DIALOG).concat(query.as_str())
    }

    /// The server that this client talks to.
    pub fn base_url(&self) -> (url: &'static str)
        ensures
            url == self.inner().base_url,
    {
        self.inner_client.base_url
    }
}

} // verus!
