//! The EterPix server protocol: responses, credentials, endpoints and the
//! messages shown for failed requests.  (The HTTP transfers themselves are made
//! by the application.)

use vstd::prelude::*;
use vstd::string::StrSliceExecFns;
use crate::text::{decimal, decimal_string, str_eq};

verus! {

// ------------------------------------------------------------------
// JSON values and responses
// ------------------------------------------------------------------

/// A JSON value as the server sends it (numbers kept in their textual form).
#[derive(Debug)]
pub enum JsonValue {
    Null,
    Bool(bool),
    Number(String),
    Text(String),
    Array(Vec<JsonValue>),
    Object(Vec<(String, JsonValue)>),
}

/// The value under `key` among the members of an object (the first such member).
pub open spec fn object_lookup(members: Seq<(String, JsonValue)>, key: Seq<char>) -> Option<
    JsonValue,
>
    decreases members.len(),
{
    if members.len() == 0 {
        None
    } else if members[0].0@ == key {
        Some(members[0].1)
    } else {
        object_lookup(members.drop_first(), key)
    }
}

/// `value.get(key)`: the member `key` of an object; nothing for other values.
pub open spec fn json_get_spec(value: JsonValue, key: Seq<char>) -> Option<JsonValue> {
    match value {
        JsonValue::Object(members) => object_lookup(members@, key),
        _ => None,
    }
}

/// The text of a member that is a JSON string.
pub open spec fn json_str_member(value: Option<JsonValue>, key: Seq<char>) -> Option<Seq<char>> {
    match value {
        Some(v) => match json_get_spec(v, key) {
            Some(JsonValue::Text(s)) => Some(s@),
            _ => None,
        },
        None => None,
    }
}

impl JsonValue {
    /// The member `key` of an object, if any.
    pub fn get(&self, key: &str) -> (r: Option<&JsonValue>)
        ensures
            match r {
                Some(v) => json_get_spec(*self, key@) == Some(*v),
                None => json_get_spec(*self, key@) is None,
            },
    {
        match self {
            JsonValue::Object(members) => {
                let mut i: usize = 0;
                assert(json_get_spec(*self, key@) == object_lookup(members@, key@));
                assert(members@.skip(0) =~= members@);
                while i < members.len()
                    invariant
                        i <= members@.len(),
                        json_get_spec(*self, key@) == object_lookup(members@, key@),
                        object_lookup(members@, key@) == object_lookup(members@.skip(i as int), key@),
                    decreases members@.len() - i,
                {
                    assert(members@.skip(i as int).drop_first() =~= members@.skip(i + 1));
                    assert(members@.skip(i as int)[0] == members@[i as int]);
                    if str_eq(members[i].0.as_str(), key) {
                        assert(members@.skip(i as int).len() > 0);
                        assert(object_lookup(members@.skip(i as int), key@) == Some(members@[i as int].1));
                        return Some(&members[i].1);
                    }
                    i = i + 1;
                }
                None
            },
            _ => None,
        }
    }

    /// The text of a JSON string.
    pub fn as_str(&self) -> (r: Option<&String>)
        ensures
            match *self {
                JsonValue::Text(s) => r == Some(&s),
                _ => r is None,
            },
    {
        match self {
            JsonValue::Text(s) => Some(s),
            _ => None,
        }
    }
}

/// The server's reply to a request.
#[derive(Debug)]
pub struct ApiResponse {
    pub status: String,
    pub message: Option<String>,
    pub data: Option<JsonValue>,
}

impl ApiResponse {
    /// A failed reply carrying `msg`.
    pub fn error(msg: String) -> (r: Self)
        ensures
            r.status@ == "error"@,
            r.message matches Some(m) && m@ == msg@,
            r.data is None,
    {
        ApiResponse { status: "error".to_owned(), message: Some(msg), data: None }
    }

    /// The server reported success.
    pub fn is_success(&self) -> (r: bool)
        ensures
            r == (self.status@ == "success"@),
    {
        str_eq(self.status.as_str(), "success")
    }

    /// The text of the data member `key`, when it is a JSON string.
    pub fn data_str(&self, key: &str) -> (r: Option<String>)
        ensures
            match r {
                Some(s) => json_str_member(self.data, key@) == Some(s@),
                None => json_str_member(self.data, key@) is None,
            },
    {
        match &self.data {
            Some(d) => match d.get(key) {
                Some(v) => match v.as_str() {
                    Some(s) => Some(s.clone()),
                    None => None,
                },
                None => None,
            },
            None => None,
        }
    }
}

// ------------------------------------------------------------------
// Client state
// ------------------------------------------------------------------

/// Request paths on the server.
pub const LOGIN_PATH: &'static str = "/vrc/api/auth/login";
pub const REGISTER_PATH: &'static str = "/vrc/api/auth/register";
pub const ME_PATH: &'static str = "/vrc/api/auth/me";
pub const UPLOAD_PATH: &'static str = "/vrc/api/photos/upload";
pub const INSTANCE_JOIN_PATH: &'static str = "/vrc/api/instance/join";
pub const INSTANCE_LEAVE_PATH: &'static str = "/vrc/api/instance/leave";
pub const HEALTH_PATH: &'static str = "/vrc/api/health";

/// `s` without its trailing `c` characters.
pub open spec fn trim_end_char(s: Seq<char>, c: char) -> Seq<char>
    decreases s.len(),
{
    if s.len() > 0 && s.last() == c {
        trim_end_char(s.drop_last(), c)
    } else {
        s
    }
}

/// Where the client sends its requests and the credential it sends them with.
pub struct UploaderClient {
    pub base_url: String,
    pub token: Option<String>,
}

impl UploaderClient {
    /// A client without credentials for the server at `base_url` (trailing
    /// slashes removed).
    pub fn new(base_url: String) -> (c: Self)
        ensures
            c.base_url@ == trim_end_char(base_url@, '/'),
            c.token is None,
    {
        let s = base_url.as_str();
        let n = s.unicode_len();
        let mut k = n;
        assert(s@.subrange(0, n as int) =~= s@);
        while k > 0 && s.get_char(k - 1) == '/'
            invariant
                k <= n,
                n == s@.len(),
                trim_end_char(s@, '/') == trim_end_char(s@.subrange(0, k as int), '/'),
            decreases k,
        {
            assert(s@.subrange(0, k as int).drop_last() =~= s@.subrange(0, k - 1));
            k = k - 1;
        }
        let trimmed = s.substring_char(0, k).to_owned();
        UploaderClient { base_url: trimmed, token: None }
    }

    /// The full URL of a request path.
    pub fn url(&self, path: &str) -> (r: String)
        ensures
            r@ == self.base_url@ + path@,
    {
        let mut u = self.base_url.clone();
        u.append(path);
        u
    }

    /// The `Authorization` header value, when the client holds a token.
    pub fn auth_header_value(&self) -> (r: Option<String>)
        ensures
            match self.token {
                Some(t) => r matches Some(h) && h@ == "Bearer "@ + t@,
                None => r is None,
            },
    {
        match &self.token {
            Some(t) => {
                let mut h = "Bearer ".to_owned();
                h.append(t.as_str());
                Some(h)
            },
            None => None,
        }
    }

    /// After a login or registration: a successful reply carrying a token
    /// makes it the client's credential; otherwise nothing changes.
    pub fn absorb_auth_response(&mut self, resp: &ApiResponse)
        ensures
            final(self).base_url == old(self).base_url,
            (resp.status@ == "success"@ && json_str_member(resp.data, "token"@) is Some) ==> (
            final(self).token matches Some(t) && Some(t@) == json_str_member(
                resp.data,
                "token"@,
            )),
            !(resp.status@ == "success"@ && json_str_member(resp.data, "token"@) is Some)
                ==> final(self).token == old(self).token,
    {
        if resp.is_success() {
            match resp.data_str("token") {
                Some(t) => {
                    self.token = Some(t);
                },
                None => {},
            }
        }
    }
}

// ------------------------------------------------------------------
// Messages for failed requests
// ------------------------------------------------------------------

/// What is known of a failed request.
pub struct RequestFailure {
    /// The connection could not be made.
    pub is_connect: bool,
    /// The request timed out.
    pub is_timeout: bool,
    /// The HTTP status, when the server answered.
    pub status: Option<u16>,
    /// The status as displayed, e.g. `500 Internal Server Error`.
    pub status_text: String,
    /// The error's own description.
    pub description: String,
}

pub open spec fn msg_unreachable() -> Seq<char> {
    "サーバーに接続できません。ネットワークとサーバーURLを確認してください。"@
}

pub open spec fn msg_timeout() -> Seq<char> {
    "接続がタイムアウトしました。"@
}

pub open spec fn msg_server_down() -> Seq<char> {
    "サーバーに接続できません。しばらく待ってから再試行してください。"@
}

pub open spec fn msg_unauthorized() -> Seq<char> {
    "ユーザー名またはパスワードが正しくありません。"@
}

pub open spec fn msg_forbidden() -> Seq<char> {
    "アクセスが拒否されました。"@
}

pub open spec fn msg_not_found() -> Seq<char> {
    "サーバーのエンドポイントが見つかりません。サーバーURLを確認してください。"@
}

pub open spec fn msg_too_many() -> Seq<char> {
    "リクエストが多すぎます。しばらく待ってから再試行してください。"@
}

/// The message shown to the user for a failed request.
pub open spec fn failure_message_spec(f: RequestFailure) -> Seq<char> {
    if f.is_connect {
        msg_unreachable()
    } else if f.is_timeout {
        msg_timeout()
    } else {
        match f.status {
            Some(c) => if c == 530 || (521 <= c <= 524) {
                msg_server_down()
            } else if 500 <= c <= 599 {
                "サーバーエラーが発生しました ("@ + f.status_text@ + ")。"@
            } else if c == 401 {
                msg_unauthorized()
            } else if c == 403 {
                msg_forbidden()
            } else if c == 404 {
                msg_not_found()
            } else if c == 429 {
                msg_too_many()
            } else {
                "HTTPエラー ("@ + decimal(c as nat) + ")"@
            },
            None => f.description@,
        }
    }
}

/// The message shown to the user for a failed request.
pub fn format_error(f: &RequestFailure) -> (r: String)
    ensures
        r@ == failure_message_spec(*f),
{
    if f.is_connect {
        return "サーバーに接続できません。ネットワークとサーバーURLを確認してください。".to_owned();
    }
    if f.is_timeout {
        return "接続がタイムアウトしました。".to_owned();
    }
    match f.status {
        Some(c) => {
            if c == 530 || (521 <= c && c <= 524) {
                "サーバーに接続できません。しばらく待ってから再試行してください。".to_owned()
            } else if 500 <= c && c <= 599 {
                let mut s = "サーバーエラーが発生しました (".to_owned();
                s.append(f.status_text.as_str());
                s.append(")。");
                s
            } else if c == 401 {
                "ユーザー名またはパスワードが正しくありません。".to_owned()
            } else if c == 403 {
                "アクセスが拒否されました。".to_owned()
            } else if c == 404 {
                "サーバーのエンドポイントが見つかりません。サーバーURLを確認してください。".to_owned()
            } else if c == 429 {
                "リクエストが多すぎます。しばらく待ってから再試行してください。".to_owned()
            } else {
                let mut s = "HTTPエラー (".to_owned();
                let code = decimal_string(c as u64);
                s.append(code.as_str());
                s.append(")");
                s
            }
        },
        None => f.description.clone(),
    }
}

} // verus!
