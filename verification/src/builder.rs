//! Configuration of a homeserver connection, built step by step.
//!
//! The builder's type records which credentials were given: an access token can
//! only be set where no user name or password was, a login needs both of these,
//! and only a builder with an access token yields the server's coordinates.

use vstd::prelude::*;
use crate::json::{docs_view, fields_view, same_text, Json, JsonModel};
use crate::sync::token_view;

verus! {

/// A homeserver's address and credentials, as far as they were given.
pub struct HomeserverBuilder<Username, Password, AccessToken> {
    server: String,
    username: Username,
    password: Password,
    access_token: AccessToken,
}

/// The value of a [`HomeserverBuilder`].
pub struct BuilderView<Username, Password, AccessToken> {
    pub server: Seq<char>,
    pub username: Username,
    pub password: Password,
    pub access_token: AccessToken,
}

impl<Username, Password, AccessToken> View for HomeserverBuilder<Username, Password, AccessToken> {
    type V = BuilderView<Username, Password, AccessToken>;

    closed spec fn view(&self) -> BuilderView<Username, Password, AccessToken> {
        BuilderView {
            server: self.server@,
            username: self.username,
            password: self.password,
            access_token: self.access_token,
        }
    }
}

/// What is needed to talk to a homeserver with an access token.
#[derive(Clone, Debug, PartialEq, Eq)]
pub struct ServerInfo {
    /// The homeserver's URL without a trailing slash, such as `https://matrix.org`.
    pub server_name: String,
    pub access_token: String,
}

impl HomeserverBuilder<(), (), ()> {
    /// Starts the configuration of the homeserver at `server_url`.
    pub fn new(server_url: &str) -> (builder: HomeserverBuilder<(), (), ()>)
        ensures
            builder@.server == server_url@,
    {
        HomeserverBuilder { server: server_url.to_owned(), username: (), password: (), access_token: () }
    }

    /// Sets the access token.
    pub fn access_token(self, access_token: &str) -> (builder: HomeserverBuilder<(), (), String>)
        ensures
            builder@.server == self@.server,
            builder@.access_token@ == access_token@,
    {
        HomeserverBuilder {
            server: self.server,
            username: self.username,
            password: self.password,
            access_token: access_token.to_owned(),
        }
    }
}

impl<T> HomeserverBuilder<(), T, ()> {
    /// Sets the user name.
    pub fn username(self, username: &str) -> (builder: HomeserverBuilder<String, T, ()>)
        ensures
            builder@.server == self@.server,
            builder@.username@ == username@,
            builder@.password == self@.password,
    {
        HomeserverBuilder {
            server: self.server,
            username: username.to_owned(),
            password: self.password,
            access_token: (),
        }
    }
}

impl<T> HomeserverBuilder<T, (), ()> {
    /// Sets the password.
    pub fn password(self, password: &str) -> (builder: HomeserverBuilder<T, String, ()>)
        ensures
            builder@.server == self@.server,
            builder@.username == self@.username,
            builder@.password@ == password@,
    {
        HomeserverBuilder {
            server: self.server,
            username: self.username,
            password: password.to_owned(),
            access_token: (),
        }
    }
}

impl<Username, Password, AccessToken> HomeserverBuilder<Username, Password, AccessToken> {
    /// The homeserver's URL.
    pub fn server(&self) -> (server: &str)
        ensures
            server@ == self@.server,
    {
        self.server.as_str()
    }
}

/// The fields of a login request, in the order in which they are sent.
pub open spec fn login_fields_of(username: Seq<char>, password: Seq<char>) -> Seq<
    (Seq<char>, Seq<char>),
> {
    seq![("type"@, "m.login.password"@), ("user"@, username), ("password"@, password)]
}

impl HomeserverBuilder<String, String, ()> {
    /// The fields of the request that logs in with the user name and password.
    pub fn login_fields(&self) -> (fields: Vec<(String, String)>)
        ensures
            fields_view(fields@) == login_fields_of(self@.username@, self@.password@),
    {
        let mut fields: Vec<(String, String)> = Vec::new();
        fields.push(("type".to_owned(), "m.login.password".to_owned()));
        fields.push(("user".to_owned(), self.username.clone()));
        fields.push(("password".to_owned(), self.password.clone()));
        assert(fields_view(fields@) =~= login_fields_of(self@.username@, self@.password@));
        fields
    }

    /// Completes a login with the access token that the server handed out.
    pub fn logged_in(self, access_token: String) -> (builder: HomeserverBuilder<
        String,
        String,
        String,
    >)
        ensures
            builder@.server == self@.server,
            builder@.username@ == self@.username@,
            builder@.password@ == self@.password@,
            builder@.access_token@ == access_token@,
    {
        HomeserverBuilder {
            server: self.server,
            username: self.username,
            password: self.password,
            access_token,
        }
    }
}

impl<T, R> HomeserverBuilder<T, R, String> {
    /// The server's coordinates, with which a connection is made.
    pub fn server_info(self) -> (info: ServerInfo)
        ensures
            info.server_name@ == self@.server,
            info.access_token@ == self@.access_token@,
    {
        ServerInfo { server_name: self.server, access_token: self.access_token }
    }
}

/// Whether one of the login flows is the one by password.
pub open spec fn has_password_flow(flows: Seq<JsonModel>) -> bool {
    exists|i: int|
        0 <= i < flows.len() && (#[trigger] flows[i]).text_field("type"@) == Some(
            "m.login.password"@,
        )
}

/// Whether a server's answer to the question for its login flows offers the
/// login by password.
pub open spec fn offers_password(answer: JsonModel) -> bool {
    match answer.field("flows"@) {
        None => false,
        Some(flows) => match flows.items() {
            None => false,
            Some(flows) => has_password_flow(flows),
        },
    }
}

/// Says whether the server's list of login flows offers the login by password.
pub fn offers_password_login(answer: &Json) -> (offered: bool)
    ensures
        offered == offers_password(answer@),
{
    let flows = match answer.get("flows") {
        Some(flows) => match flows.as_array() {
            Some(flows) => flows,
            None => { return false; },
        },
        None => { return false; },
    };
    let ghost all = docs_view(flows@);
    let mut i: usize = 0;
    while i < flows.len()
        invariant
            i <= flows.len(),
            all == docs_view(flows@),
            offers_password(answer@) == has_password_flow(all),
            forall|j: int| 0 <= j < i ==> (#[trigger] all[j]).text_field("type"@) != Some(
                "m.login.password"@,
            ),
        decreases flows.len() - i,
    {
        assert(all[i as int] == flows@[i as int]@);
        match flows[i].get_str("type") {
            Some(kind) => {
                if same_text(kind, "m.login.password") {
                    return true;
                }
            },
            None => {},
        }
        i += 1;
    }
    false
}

/// Reads the access token out of the server's answer to a login.
pub fn access_token_of(answer: &Json) -> (token: Option<String>)
    ensures
        token_view(token) == answer@.text_field("access_token"@),
{
    match answer.get_str("access_token") {
        Some(token) => Some(token.to_owned()),
        None => None,
    }
}

} // verus!
