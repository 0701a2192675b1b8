use crate::error::ReaderError;
use crate::parse::auth_token_of;
use crate::parse::find_auth_token;
use crate::urls::lemma_strip_all_trailing_free;
use crate::urls::parse_base_url;
use crate::urls::spec_session_base;
use crate::urls::strip_all_char;
use crate::urls::strip_one_char;
use crate::urls::strip_one_trailing;
use vstd::prelude::*;
use vstd::string::StringExecFns;

verus! {

/// The HTTP method of a protocol request.
#[derive(Clone, Copy, Debug, PartialEq, Eq, Structural)]
pub enum Method {
    Get,
    Post,
}

/// One protocol request, ready for a transport to send: the full URL, the
/// form fields of a POST body, and the value of the `Authorization` header
/// when the operation is authenticated.
#[derive(Debug)]
pub struct Request {
    pub method: Method,
    pub url: String,
    pub form: Vec<(String, String)>,
    pub auth: Option<String>,
}

/// What a session asks its caller to do next: log in first, fetch the write
/// token first, or send the operation's own request.
#[derive(Debug)]
pub enum NextAction {
    Login(Request),
    FetchWriteToken(Request),
    Execute(Request),
}

/// A session against one server: the credentials, the normalized base URL,
/// and the two lazily cached tokens.
#[derive(Debug)]
pub struct Session {
    pub username: String,
    pub password: String,
    pub base_url: String,
    pub auth_token: Option<String>,
    pub write_token: Option<String>,
}

impl Session {
    /// The base URL never ends in a slash; path composition appends
    /// `/segment` pieces to it.
    pub open spec fn wf(self) -> bool {
        self.base_url@.len() > 0 ==> self.base_url@.last() != '/'
    }

    /// The value of the `Authorization` header of every authenticated
    /// request: built from the cached auth token and from nothing else.
    pub open spec fn auth_header_view(self) -> Seq<char> {
        "GoogleLogin auth="@ + self.auth_token->0@
    }

    pub open spec fn is_login_request(self, r: Request) -> bool {
        &&& r.method == Method::Post
        &&& r.url@ == self.base_url@ + "/accounts/ClientLogin"@
        &&& r.form@.len() == 2
        &&& r.form@[0].0@ == "Email"@
        &&& r.form@[0].1@ == self.username@
        &&& r.form@[1].0@ == "Passwd"@
        &&& r.form@[1].1@ == self.password@
        &&& r.auth is None
    }

    pub open spec fn is_write_token_request(self, r: Request) -> bool {
        &&& r.method == Method::Get
        &&& r.url@ == self.base_url@ + "/reader/api/0/token"@
        &&& r.form@.len() == 0
        &&& r.auth matches Some(h) && h@ == self.auth_header_view()
    }

    /// The fixed query of the reading-list request asks for newest-first
    /// order and excludes items already in the read state; a continuation
    /// cursor, when present, stands before it as `c={cursor}&`.
    pub open spec fn list_query_view(cont: Option<Seq<char>>) -> Seq<char> {
        match cont {
            Some(c) => "c="@ + c + "&"@ + "r=n&xt=user/-/state/com.google/read"@,
            None => "r=n&xt=user/-/state/com.google/read"@,
        }
    }

    pub open spec fn list_url_view(self, cont: Option<Seq<char>>) -> Seq<char> {
        self.base_url@ + "/reader/api/0/stream/contents/user/-/state/com.google/reading-list"@
            + "?"@ + Self::list_query_view(cont)
    }

    pub open spec fn is_list_request(self, cont: Option<Seq<char>>, r: Request) -> bool {
        &&& r.method == Method::Get
        &&& r.url@ == self.list_url_view(cont)
        &&& r.form@.len() == 0
        &&& r.auth matches Some(h) && h@ == self.auth_header_view()
    }

    /// The edit-tag form adds the read state tag to one item; the mutation
    /// is authorized by the cached write token and by nothing else.
    pub open spec fn is_edit_tag_request(self, id: Seq<char>, r: Request) -> bool {
        &&& r.method == Method::Post
        &&& r.url@ == self.base_url@ + "/reader/api/0/edit-tag"@
        &&& r.form@.len() == 3
        &&& r.form@[0].0@ == "a"@
        &&& r.form@[0].1@ == "user/-/state/com.google/read"@
        &&& r.form@[1].0@ == "T"@
        &&& r.form@[1].1@ == self.write_token->0@
        &&& r.form@[2].0@ == "i"@
        &&& r.form@[2].1@ == id
        &&& r.auth matches Some(h) && h@ == self.auth_header_view()
    }

    pub open spec fn is_unread_count_request(self, r: Request) -> bool {
        &&& r.method == Method::Get
        &&& r.url@ == self.base_url@ + "/reader/api/0/unread-count"@
        &&& r.form@.len() == 0
        &&& r.auth matches Some(h) && h@ == self.auth_header_view()
    }

    /// Build a session. One trailing slash of the server URL is stripped,
    /// the rest must parse as an absolute URL; the stored base never ends in
    /// a slash, and both token caches start empty. A URL that does not parse
    /// is a configuration error, and no network activity has taken place.
    pub fn try_new(username: String, password: String, server_url: &str) -> (r: Result<
        Session,
        ReaderError,
    >)
        ensures
            match r {
                Ok(s) => {
                    &&& spec_session_base(server_url@) matches Some(b) && s.base_url@ == b
                    &&& s.username == username
                    &&& s.password == password
                    &&& s.auth_token is None
                    &&& s.write_token is None
                    &&& s.wf()
                },
                Err(e) => {
                    &&& e == ReaderError::Config
                    &&& spec_session_base(server_url@) is None
                },
            },
    {
        let stripped = strip_one_char(server_url, '/');
        match parse_base_url(stripped.as_str()) {
            Some(t) => {
                let base = strip_all_char(t.as_str(), '/');
                proof {
                    lemma_strip_all_trailing_free(t@, '/');
                }
                Ok(
                    Session {
                        username,
                        password,
                        base_url: base,
                        auth_token: None,
                        write_token: None,
                    },
                )
            },
            None => Err(ReaderError::Config),
        }
    }

    /// The full `Authorization` header value of an authenticated request.
    fn auth_header(&self) -> (r: String)
        requires
            self.auth_token is Some,
        ensures
            r@ == self.auth_header_view(),
    {
        let mut h = String::from_str("GoogleLogin auth=");
        h.append(self.auth_token.as_ref().unwrap().as_str());
        h
    }

    /// The form-encoded POST that performs the login dance.
    pub fn login_request(&self) -> (r: Request)
        ensures
            self.is_login_request(r),
    {
        let mut url = self.base_url.clone();
        url.append("/accounts/ClientLogin");
        let mut form: Vec<(String, String)> = Vec::new();
        form.push((String::from_str("Email"), self.username.clone()));
        form.push((String::from_str("Passwd"), self.password.clone()));
        Request { method: Method::Post, url, form, auth: None }
    }

    /// The authenticated GET that fetches the write token.
    pub fn write_token_request(&self) -> (r: Request)
        requires
            self.auth_token is Some,
        ensures
            self.is_write_token_request(r),
    {
        let mut url = self.base_url.clone();
        url.append("/reader/api/0/token");
        Request { method: Method::Get, url, form: Vec::new(), auth: Some(self.auth_header()) }
    }

    /// The authenticated GET for one page of the unread reading list.
    pub fn list_request(&self, continuation: &Option<String>) -> (r: Request)
        requires
            self.auth_token is Some,
        ensures
            self.is_list_request(continuation.deep_view(), r),
    {
        let mut url = self.base_url.clone();
        url.append("/reader/api/0/stream/contents/user/-/state/com.google/reading-list");
        url.append("?");
        match continuation {
            Some(c) => {
                url.append("c=");
                url.append(c.as_str());
                url.append("&");
                url.append("r=n&xt=user/-/state/com.google/read");
            },
            None => {
                url.append("r=n&xt=user/-/state/com.google/read");
            },
        }
        let r = Request {
            method: Method::Get,
            url,
            form: Vec::new(),
            auth: Some(self.auth_header()),
        };
        proof {
            assert(r.url@ =~= self.list_url_view(continuation.deep_view()));
        }
        r
    }

    /// The authenticated form POST that marks one item as read.
    pub fn edit_tag_request(&self, item_id: &str) -> (r: Request)
        requires
            self.auth_token is Some,
            self.write_token is Some,
        ensures
            self.is_edit_tag_request(item_id@, r),
    {
        let mut url = self.base_url.clone();
        url.append("/reader/api/0/edit-tag");
        let mut form: Vec<(String, String)> = Vec::new();
        form.push(
            (String::from_str("a"), String::from_str("user/-/state/com.google/read")),
        );
        form.push((String::from_str("T"), self.write_token.as_ref().unwrap().clone()));
        form.push((String::from_str("i"), String::from_str(item_id)));
        Request { method: Method::Post, url, form, auth: Some(self.auth_header()) }
    }

    /// The authenticated GET for the unread count.
    pub fn unread_count_request(&self) -> (r: Request)
        requires
            self.auth_token is Some,
        ensures
            self.is_unread_count_request(r),
    {
        let mut url = self.base_url.clone();
        url.append("/reader/api/0/unread-count");
        Request { method: Method::Get, url, form: Vec::new(), auth: Some(self.auth_header()) }
    }

    pub open spec fn write_token_step_ok(self, r: NextAction) -> bool {
        match r {
            NextAction::Login(req) => self.auth_token is None && self.is_login_request(req),
            NextAction::FetchWriteToken(_) => false,
            NextAction::Execute(req) => self.auth_token is Some && self.is_write_token_request(
                req,
            ),
        }
    }

    /// The next request of the get-write-token operation: the operation is
    /// authenticated, so a session without an auth token logs in first.
    pub fn write_token_step(&self) -> (r: NextAction)
        ensures
            self.write_token_step_ok(r),
    {
        if self.auth_token.is_none() {
            NextAction::Login(self.login_request())
        } else {
            NextAction::Execute(self.write_token_request())
        }
    }

    pub open spec fn list_unread_step_ok(self, cont: Option<Seq<char>>, r: NextAction) -> bool {
        match r {
            NextAction::Login(req) => self.auth_token is None && self.is_login_request(req),
            NextAction::FetchWriteToken(_) => false,
            NextAction::Execute(req) => self.auth_token is Some && self.is_list_request(cont, req),
        }
    }

    /// The next request of the list-unread operation for one page: log in
    /// first when no auth token is cached, else the page's own GET.
    pub fn list_unread_step(&self, continuation: &Option<String>) -> (r: NextAction)
        ensures
            self.list_unread_step_ok(continuation.deep_view(), r),
    {
        if self.auth_token.is_none() {
            NextAction::Login(self.login_request())
        } else {
            NextAction::Execute(self.list_request(continuation))
        }
    }

    pub open spec fn mark_read_step_ok(self, id: Seq<char>, r: NextAction) -> bool {
        match r {
            NextAction::Login(req) => self.auth_token is None && self.is_login_request(req),
            NextAction::FetchWriteToken(req) => self.auth_token is Some && self.write_token is None
                && self.is_write_token_request(req),
            NextAction::Execute(req) => self.auth_token is Some && self.write_token is Some
                && self.is_edit_tag_request(id, req),
        }
    }

    /// The next request of the mark-item-read operation: log in when no auth
    /// token is cached; with an auth token but no write token, fetch the
    /// write token; with both cached, the edit-tag POST itself.
    pub fn mark_read_step(&self, item_id: &str) -> (r: NextAction)
        ensures
            self.mark_read_step_ok(item_id@, r),
    {
        if self.auth_token.is_none() {
            NextAction::Login(self.login_request())
        } else if self.write_token.is_none() {
            NextAction::FetchWriteToken(self.write_token_request())
        } else {
            NextAction::Execute(self.edit_tag_request(item_id))
        }
    }

    pub open spec fn unread_count_step_ok(self, r: NextAction) -> bool {
        match r {
            NextAction::Login(req) => self.auth_token is None && self.is_login_request(req),
            NextAction::FetchWriteToken(_) => false,
            NextAction::Execute(req) => self.auth_token is Some && self.is_unread_count_request(
                req,
            ),
        }
    }

    /// The next request of the unread-count operation.
    pub fn unread_count_step(&self) -> (r: NextAction)
        ensures
            self.unread_count_step_ok(r),
    {
        if self.auth_token.is_none() {
            NextAction::Login(self.login_request())
        } else {
            NextAction::Execute(self.unread_count_request())
        }
    }

    /// Digest a login response body: extract the auth token — the first
    /// non-whitespace run after a literal `Auth=` — and cache it, silently
    /// overwriting any previous value. A body without such a token leaves
    /// the session unchanged and is the token-not-found error. The token is
    /// cached only on success, and nothing else of the session moves.
    pub fn apply_login_response(&mut self, body: &str) -> (r: Result<(), ReaderError>)
        ensures
            match r {
                Ok(_) => {
                    &&& auth_token_of(body@) matches Some(tok)
                    &&& final(self).auth_token matches Some(t) && t@ == tok
                    &&& final(self).username == old(self).username
                    &&& final(self).password == old(self).password
                    &&& final(self).base_url == old(self).base_url
                    &&& final(self).write_token == old(self).write_token
                },
                Err(e) => {
                    &&& auth_token_of(body@) is None
                    &&& e == ReaderError::TokenNotFound
                    &&& *final(self) == *old(self)
                },
            },
    {
        match find_auth_token(body) {
            Some(tok) => {
                self.auth_token = Some(tok);
                Ok(())
            },
            None => Err(ReaderError::TokenNotFound),
        }
    }

    /// Digest a write-token response body: one trailing newline is stripped,
    /// the rest is cached as the write token and returned. The protocol does
    /// not validate the token's shape beyond that, so this cannot fail.
    pub fn apply_write_token_response(&mut self, body: String) -> (r: String)
        ensures
            r@ == strip_one_trailing(body@, '\n'),
            final(self).write_token matches Some(t) && t@ == strip_one_trailing(body@, '\n'),
            final(self).username == old(self).username,
            final(self).password == old(self).password,
            final(self).base_url == old(self).base_url,
            final(self).auth_token == old(self).auth_token,
    {
        let stripped = strip_one_char(body.as_str(), '\n');
        self.write_token = Some(stripped.clone());
        stripped
    }
}

} // verus!
