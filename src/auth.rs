use vstd::prelude::*;
use vstd::string::StringExecFns;

use crate::config::Config;
use crate::errors::ByteStashyError;
use crate::json::{json_quoted, json_str_member, quote, str_member};
use crate::request::{base_url, trim_trailing_slashes, Header, Method, Request, RequestBody};

verus! {

/// Where a login exchange stands.
#[derive(PartialEq, Eq, Structural, Clone, Copy, Debug)]
pub enum LoginPhase {
    /// The username and password are to be exchanged for a bearer token.
    AwaitingToken,
    /// The token is held; an API key is to be issued with it.
    AwaitingKey,
    /// The exchange is over, with a key or with an error.
    Finished,
}

/// The two-step login: password for bearer token, then token for API key.
/// The token lives only in this value and is never part of the credential.
pub struct LoginExchange {
    pub base: String,
    pub token: String,
    pub phase: LoginPhase,
}

/// The JSON body of the credential exchange.
pub open spec fn login_body(username: Seq<char>, password: Seq<char>) -> Seq<char> {
    "{\"username\":"@ + json_quoted(username) + ",\"password\":"@ + json_quoted(password) + "}"@
}

/// The JSON body of the key issuance.
pub open spec fn key_body(name: Seq<char>) -> Seq<char> {
    "{\"name\":"@ + json_quoted(name) + "}"@
}

impl LoginExchange {
    /// Begin a login against the server at `api_url`.
    pub fn new(api_url: &str) -> (r: LoginExchange)
        ensures
            r.base@ == trim_trailing_slashes(api_url@),
            r.phase == LoginPhase::AwaitingToken,
    {
        LoginExchange { base: base_url(api_url), token: String::new(), phase: LoginPhase::AwaitingToken }
    }

    /// The first request: the username and password, posted as JSON.
    pub fn login_request(&self, username: &str, password: &str) -> (r: Request)
        requires
            self.phase == LoginPhase::AwaitingToken,
        ensures
            r.method == Method::Post,
            r.url@ == self.base@ + "/api/auth/login"@,
            r.header_view() == Seq::<(Seq<char>, Seq<char>)>::empty(),
            r.body matches RequestBody::Json(b) && b@ == login_body(username@, password@),
    {
        let mut url = self.base.clone();
        url.append("/api/auth/login");
        let mut b = String::from_str("{\"username\":");
        b.append(quote(username).as_str());
        b.append(",\"password\":");
        b.append(quote(password).as_str());
        b.append("}");
        let r = Request { method: Method::Post, url, headers: Vec::new(), body: RequestBody::Json(b) };
        assert(r.header_view() =~= Seq::<(Seq<char>, Seq<char>)>::empty());
        r
    }

    /// Take the answer to the first request. Status 200 with a `token`
    /// string moves on to key issuance; a 401 is an authentication error;
    /// anything else ends the exchange, so no key is ever requested.
    pub fn accept_login_response(&mut self, status: u16, body: &str) -> (r: Result<
        (),
        ByteStashyError,
    >)
        requires
            old(self).phase == LoginPhase::AwaitingToken,
        ensures
            final(self).base == old(self).base,
            r is Ok <==> final(self).phase == LoginPhase::AwaitingKey,
            r is Err ==> final(self).phase == LoginPhase::Finished,
            status == 200 && json_str_member(body@, "token"@) is Some ==> r is Ok
                && final(self).token@ == json_str_member(body@, "token"@).unwrap(),
            status == 200 && json_str_member(body@, "token"@) is None ==> (r matches Err(
                ByteStashyError::Protocol { message },
            ) && message@ == "the login response holds no token"@),
            status == 401 ==> (r matches Err(ByteStashyError::Auth { message }) && message@
                == "Invalid credentials (401 Unauthorized)."@),
            status != 200 && status != 401 ==> (r matches Err(
                ByteStashyError::Api { status: s, message },
            ) && s == status && message@ == body@),
    {
        if status == 200 {
            match str_member(body, "token") {
                Some(t) => {
                    self.token = t;
                    self.phase = LoginPhase::AwaitingKey;
                    Ok(())
                },
                None => {
                    self.phase = LoginPhase::Finished;
                    Err(
                        ByteStashyError::Protocol {
                            message: String::from_str("the login response holds no token"),
                        },
                    )
                },
            }
        } else if status == 401 {
            self.phase = LoginPhase::Finished;
            Err(ByteStashyError::auth("Invalid credentials (401 Unauthorized)."))
        } else {
            self.phase = LoginPhase::Finished;
            Err(ByteStashyError::api(status, body))
        }
    }

    /// The second request: the key's name, posted as JSON and authorized by
    /// the bearer token.
    pub fn key_request(&self, key_name: &str) -> (r: Request)
        requires
            self.phase == LoginPhase::AwaitingKey,
        ensures
            r.method == Method::Post,
            r.url@ == self.base@ + "/api/keys"@,
            r.header_view() == seq![("bytestashauth"@, "bearer "@ + self.token@)],
            r.body matches RequestBody::Json(b) && b@ == key_body(key_name@),
    {
        let mut url = self.base.clone();
        url.append("/api/keys");
        let mut bearer = String::from_str("bearer ");
        bearer.append(self.token.as_str());
        let mut headers: Vec<Header> = Vec::new();
        headers.push(Header { name: String::from_str("bytestashauth"), value: bearer });
        let mut b = String::from_str("{\"name\":");
        b.append(quote(key_name).as_str());
        b.append("}");
        let r = Request { method: Method::Post, url, headers, body: RequestBody::Json(b) };
        assert(r.header_view() =~= seq![("bytestashauth"@, "bearer "@ + self.token@)]);
        r
    }

    /// Take the answer to the second request. Only status 201 with a `key`
    /// string yields a credential (the base URL and that key), which is then
    /// what gets saved; anything else ends the exchange with an error.
    pub fn accept_key_response(&mut self, status: u16, body: &str) -> (r: Result<
        Config,
        ByteStashyError,
    >)
        requires
            old(self).phase == LoginPhase::AwaitingKey,
        ensures
            final(self).phase == LoginPhase::Finished,
            status == 201 && json_str_member(body@, "key"@) is Some ==> (r matches Ok(cfg)
                && cfg@ == (old(self).base@, json_str_member(body@, "key"@).unwrap())),
            status == 201 && json_str_member(body@, "key"@) is None ==> (r matches Err(
                ByteStashyError::Protocol { message },
            ) && message@ == "the key response holds no key"@),
            status != 201 ==> (r matches Err(ByteStashyError::Api { status: s, message }) && s
                == status && message@ == body@),
    {
        self.phase = LoginPhase::Finished;
        if status == 201 {
            match str_member(body, "key") {
                Some(k) => Ok(Config { api_url: self.base.clone(), api_key: k }),
                None => Err(
                    ByteStashyError::Protocol {
                        message: String::from_str("the key response holds no key"),
                    },
                ),
            }
        } else {
            Err(ByteStashyError::api(status, body))
        }
    }
}

} // verus!
