//! The session: the identity that every request of a batch carries.

use vstd::prelude::*;
use vstd::string::*;
use crate::json::{doc_view, json_of, member, text_member, Json, JsonView};
use crate::payload::{login_body, login_fields};
use crate::request::{Method, Request, RequestView, Role};
use crate::text::{header_char, header_legal, is_header_legal};

verus! {

/// What the login endpoint hands out: a ticket and an anti-forgery token.
#[derive(Debug, PartialEq, Eq)]
pub struct Token {
    pub ticket: String,
    pub csrf: String,
}

/// The answer of the login endpoint.
#[derive(Debug, PartialEq, Eq)]
pub struct TokenData {
    pub data: Token,
}

/// The identity of one invocation. It is made once and never changes.
#[derive(Debug, PartialEq, Eq)]
pub struct Session {
    pub ticket: String,
    pub csrf: String,
}

/// A [`Session`] as a mathematical value.
pub struct SessionView {
    pub ticket: Seq<char>,
    pub csrf: Seq<char>,
}

impl View for Session {
    type V = SessionView;

    open spec fn view(&self) -> SessionView {
        SessionView { ticket: self.ticket@, csrf: self.csrf@ }
    }
}

impl Clone for Session {
    fn clone(&self) -> (copy: Self)
        ensures
            copy == *self,
    {
        Session { ticket: self.ticket.clone(), csrf: self.csrf.clone() }
    }
}

/// The name under which a user logs in: the realm is always `pam`.
pub open spec fn login_user(username: Seq<char>) -> Seq<char> {
    username + "@pam"@
}

/// The URL of the login endpoint.
pub open spec fn login_url(base: Seq<char>) -> Seq<char> {
    base + "/api2/json/access/ticket"@
}

/// The request that asks for a ticket.
pub open spec fn login_spec(base: Seq<char>, username: Seq<char>, password: Seq<char>) -> RequestView {
    RequestView {
        role: Role::Login,
        method: Method::Post,
        url: login_url(base),
        session: None,
        body: Some(login_fields(login_user(username), password)),
    }
}

/// The ticket and the anti-forgery token in the answer of the login endpoint:
/// the strings `ticket` and `CSRFPreventionToken` of its object `data`.
pub open spec fn token_in(doc: JsonView) -> Option<(Seq<char>, Seq<char>)> {
    match member(doc, "data"@) {
        Some(data) => match (text_member(data, "ticket"@), text_member(data, "CSRFPreventionToken"@)) {
            (Some(ticket), Some(csrf)) => Some((ticket, csrf)),
            _ => None,
        },
        None => None,
    }
}

/// The session that a login answer holds: its ticket and its token.
pub open spec fn session_in(doc: Option<JsonView>) -> Option<SessionView> {
    match doc {
        Some(d) => match token_in(d) {
            Some((ticket, csrf)) => Some(SessionView { ticket, csrf }),
            None => None,
        },
        None => None,
    }
}

/// The session that a login answer grants: the one it holds, where that one
/// can be sent.
pub open spec fn granted(doc: Option<JsonView>) -> Option<SessionView> {
    match session_in(doc) {
        Some(session) => if session.usable() {
            Some(session)
        } else {
            None
        },
        None => None,
    }
}

/// The value of the cookie header that carries the ticket.
pub open spec fn cookie_of(ticket: Seq<char>) -> Seq<char> {
    "AuthCookie="@ + ticket
}

impl SessionView {
    /// Whether the session can be sent: its ticket and its token can each be
    /// the value of a header.
    pub open spec fn usable(self) -> bool {
        header_legal(self.ticket) && header_legal(self.csrf)
    }
}

/// A ticket that can be the value of a header makes a cookie that can.
pub proof fn lemma_cookie_legal(ticket: Seq<char>)
    requires
        header_legal(ticket),
    ensures
        header_legal(cookie_of(ticket)),
{
    reveal_strlit("AuthCookie=");
    let prefix = "AuthCookie="@;
    assert forall|i: int| 0 <= i < cookie_of(ticket).len() implies header_char(
        #[trigger] cookie_of(ticket)[i],
    ) by {
        if i >= prefix.len() {
            assert(cookie_of(ticket)[i] == ticket[i - prefix.len()]);
        }
    }
}

impl TokenData {
    /// Decodes the answer of the login endpoint.
    pub fn from_json(doc: &Json) -> (decoded: Option<TokenData>)
        ensures
            match decoded {
                Some(t) => token_in(doc@) == Some((t.data.ticket@, t.data.csrf@)),
                None => token_in(doc@) is None,
            },
    {
        match doc.get("data") {
            Some(data) => match data.text_at("ticket") {
                Some(ticket) => match data.text_at("CSRFPreventionToken") {
                    Some(csrf) => Some(
                        TokenData { data: Token { ticket: ticket.clone(), csrf: csrf.clone() } },
                    ),
                    None => None,
                },
                None => None,
            },
            None => None,
        }
    }
}

impl Session {
    /// The session that a token grants.
    pub fn from_token(token: Token) -> (session: Session)
        ensures
            session@ == (SessionView { ticket: token.ticket@, csrf: token.csrf@ }),
    {
        Session { ticket: token.ticket, csrf: token.csrf }
    }

    /// Whether the session can be sent: whether its ticket and its token
    /// can each be the value of a header.
    pub fn is_usable(&self) -> (usable: bool)
        ensures
            usable == self@.usable(),
    {
        is_header_legal(self.ticket.as_str()) && is_header_legal(self.csrf.as_str())
    }

    /// The value of the `Cookie` header of every request of this session. It
    /// can be the value of a header where the ticket can.
    pub fn cookie(&self) -> (value: String)
        ensures
            value@ == cookie_of(self@.ticket),
            header_legal(self@.ticket) ==> header_legal(value@),
    {
        proof {
            if header_legal(self@.ticket) {
                lemma_cookie_legal(self@.ticket);
            }
        }
        let mut value = String::from_str("AuthCookie=");
        value.append(self.ticket.as_str());
        value
    }

    /// The headers that every request of this session carries, each a name
    /// with its value: the cookie and the anti-forgery token, and no other.
    pub fn headers(&self) -> (pairs: Vec<(String, String)>)
        ensures
            pairs@.len() == 2,
            pairs@[0].0@ == "Cookie"@,
            pairs@[0].1@ == cookie_of(self@.ticket),
            pairs@[1].0@ == "Csrfpreventiontoken"@,
            pairs@[1].1@ == self@.csrf,
            self@.usable() ==> header_legal(pairs@[0].1@) && header_legal(pairs@[1].1@),
    {
        let mut pairs: Vec<(String, String)> = Vec::new();
        pairs.push((String::from_str("Cookie"), self.cookie()));
        pairs.push((String::from_str(Session::csrf_header()), self.csrf.clone()));
        pairs
    }

    /// The name of the header that carries the anti-forgery token.
    pub fn csrf_header() -> (name: &'static str)
        ensures
            name@ == "Csrfpreventiontoken"@,
    {
        "Csrfpreventiontoken"
    }
}

/// The request that logs `username` in with `password`.
pub fn login_request(base: &str, username: &str, password: &str) -> (request: Request)
    ensures
        request@ == login_spec(base@, username@, password@),
{
    let mut url = String::from_str(base);
    url.append("/api2/json/access/ticket");
    let mut user = String::from_str(username);
    user.append("@pam");
    Request {
        role: Role::Login,
        method: Method::Post,
        url,
        session: None,
        body: Some(login_body(user.as_str(), password)),
    }
}

/// Reads the session out of a parsed login answer: `Some` exactly where the
/// answer is an object whose `data` holds the ticket and the token as
/// strings, and each of the two can be the value of a header.
pub fn session_from(doc: Option<Json>) -> (session: Option<Session>)
    ensures
        match session {
            Some(s) => session_in(doc_view(doc)) == Some(s@) && s@.usable(),
            None => match session_in(doc_view(doc)) {
                Some(held) => !held.usable(),
                None => true,
            },
        },
        match session {
            Some(s) => granted(doc_view(doc)) == Some(s@),
            None => granted(doc_view(doc)) is None,
        },
{
    match doc {
        Some(d) => match TokenData::from_json(&d) {
            Some(t) => {
                let session = Session::from_token(t.data);
                if session.is_usable() {
                    Some(session)
                } else {
                    None
                }
            },
            None => None,
        },
        None => None,
    }
}

/// Reads the session out of the text of a login answer: `Some` exactly where
/// the text is a JSON object whose `data` holds the ticket and the token as
/// strings, and each of the two can be the value of a header.
pub fn get_token(answer: &str) -> (session: Option<Session>)
    ensures
        match session {
            Some(s) => session_in(json_of(answer@)) == Some(s@) && s@.usable(),
            None => match session_in(json_of(answer@)) {
                Some(held) => !held.usable(),
                None => true,
            },
        },
        match session {
            Some(s) => granted(json_of(answer@)) == Some(s@),
            None => granted(json_of(answer@)) is None,
        },
{
    session_from(Json::parse(answer))
}

} // verus!
