//! The application's error type and the HTTP answer given for each error.
use vstd::prelude::*;
use vstd::string::*;

use crate::text::concat2;

verus! {

/// A common error type for the entire application. The errors that come
/// from outside services carry the text that those services report.
#[derive(Debug)]
pub enum AppError {
    /// A database error, with the database driver's message.
    DatabaseError(String),
    /// A missing or unreadable environment variable, with its message.
    EnvVarError(String),
    /// A failed HTTP request, with the HTTP client's message.
    ReqwestError(String),
    /// A template that failed to render, with the template engine's message.
    TeraError(String),
    UserNotFound,
    AuthError(String),
}

/// HTTP status 500 Internal Server Error.
pub const STATUS_INTERNAL_SERVER_ERROR: u16 = 500;
/// HTTP status 404 Not Found.
pub const STATUS_NOT_FOUND: u16 = 404;
/// HTTP status 401 Unauthorized.
pub const STATUS_UNAUTHORIZED: u16 = 401;

#[verifier::external_type_specification]
#[verifier::external_body]
pub struct ExJsonError(serde_json::Error);

/// The lowercase hexadecimal digit for `d < 16`.
pub open spec fn hex_digit(d: nat) -> char {
    if d < 10 {
        crate::text::digit_char(d)
    } else if d == 10 {
        'a'
    } else if d == 11 {
        'b'
    } else if d == 12 {
        'c'
    } else if d == 13 {
        'd'
    } else if d == 14 {
        'e'
    } else {
        'f'
    }
}

/// How `serde_json` writes one character inside a JSON string: `"` and `\`
/// behind a backslash, backspace, tab, line feed, form feed and carriage
/// return as `\b`, `\t`, `\n`, `\f`, `\r`, other characters below U+0020 as
/// `\u00` and two lowercase hexadecimal digits, and every other character
/// as it is.
pub open spec fn json_escape_char(c: char) -> Seq<char> {
    let n = c as u32;
    if c == '"' {
        seq!['\\', '"']
    } else if c == '\\' {
        seq!['\\', '\\']
    } else if n == 0x08 {
        seq!['\\', 'b']
    } else if n == 0x09 {
        seq!['\\', 't']
    } else if n == 0x0A {
        seq!['\\', 'n']
    } else if n == 0x0C {
        seq!['\\', 'f']
    } else if n == 0x0D {
        seq!['\\', 'r']
    } else if n < 0x20 {
        seq!['\\', 'u', '0', '0', hex_digit((n / 16) as nat), hex_digit((n % 16) as nat)]
    } else {
        seq![c]
    }
}

/// The contents of the JSON string for `s`: each character escaped in turn.
pub open spec fn json_escape(s: Seq<char>) -> Seq<char>
    decreases s.len(),
{
    if s.len() == 0 {
        Seq::empty()
    } else {
        json_escape_char(s[0]) + json_escape(s.drop_first())
    }
}

/// The JSON string literal that `serde_json` writes for a string: the
/// escaped string in double quotes.
pub open spec fn json_string_literal(s: Seq<char>) -> Seq<char> {
    seq!['"'] + json_escape(s) + seq!['"']
}

/// Whether a string needs no escaping in JSON: no `"`, no `\` and no
/// character below U+0020.
pub open spec fn json_plain(s: Seq<char>) -> bool {
    forall|i: int|
        0 <= i < s.len() ==> {
            &&& #[trigger] s[i] != '"'
            &&& s[i] != '\\'
            &&& (s[i] as u32) >= 0x20
        }
}

/// A string that needs no escaping is its own JSON string contents.
pub proof fn lemma_json_escape_plain(s: Seq<char>)
    requires
        json_plain(s),
    ensures
        json_escape(s) == s,
    decreases s.len(),
{
    if s.len() > 0 {
        let rest = s.drop_first();
        assert(json_plain(rest)) by {
            assert forall|i: int| 0 <= i < rest.len() implies {
                &&& #[trigger] rest[i] != '"'
                &&& rest[i] != '\\'
                &&& (rest[i] as u32) >= 0x20
            } by {
                assert(rest[i] == s[i + 1]);
            }
        }
        lemma_json_escape_plain(rest);
        assert(s[0] != '"' && s[0] != '\\' && (s[0] as u32) >= 0x20);
        assert(json_escape(s) =~= s);
    }
}

proof fn lemma_hex_digit_injective(a: nat, b: nat)
    requires
        a < 16,
        b < 16,
        hex_digit(a) == hex_digit(b),
    ensures
        a == b,
{
}

/// Two characters with the same escape are the same character.
proof fn lemma_json_escape_char_injective(a: char, b: char)
    requires
        json_escape_char(a) == json_escape_char(b),
    ensures
        a == b,
{
    let ca = json_escape_char(a);
    let cb = json_escape_char(b);
    assert(ca.len() == cb.len());
    if ca.len() == 6 {
        let na = a as u32;
        let nb = b as u32;
        assert(ca[4] == hex_digit((na / 16) as nat) && cb[4] == hex_digit((nb / 16) as nat));
        assert(ca[5] == hex_digit((na % 16) as nat) && cb[5] == hex_digit((nb % 16) as nat));
        lemma_hex_digit_injective((na / 16) as nat, (nb / 16) as nat);
        lemma_hex_digit_injective((na % 16) as nat, (nb % 16) as nat);
        assert(na == nb);
        assert(a == b);
    } else if ca.len() == 2 {
        assert(ca[1] == cb[1]);
        assert(a == b);
    } else {
        assert(ca =~= seq![a]);
        assert(cb =~= seq![b]);
        assert(seq![a][0] == a);
        assert(seq![b][0] == b);
        assert(ca[0] == cb[0]);
        assert(a == b);
    }
}

/// The escape of a character is read off the front of any text that starts
/// with it: its first character tells how long it is.
proof fn lemma_json_escape_char_prefix(a: char, b: char, ra: Seq<char>, rb: Seq<char>)
    requires
        json_escape_char(a) + ra == json_escape_char(b) + rb,
    ensures
        a == b,
        ra == rb,
{
    let ca = json_escape_char(a);
    let cb = json_escape_char(b);
    let t = ca + ra;
    assert(t[0] == ca[0] && t[0] == cb[0]);
    if ca.len() > 1 {
        assert(t[1] == ca[1] && t[1] == cb[1]);
    }
    assert(ca.len() == cb.len());
    assert(ca =~= t.subrange(0, ca.len() as int));
    assert(cb =~= t.subrange(0, cb.len() as int));
    assert(ra =~= t.subrange(ca.len() as int, t.len() as int));
    assert(rb =~= (cb + rb).subrange(cb.len() as int, t.len() as int));
    lemma_json_escape_char_injective(a, b);
}

/// Different strings have different JSON string literals, so a JSON string
/// decodes back to the one string it was written from.
pub proof fn lemma_json_string_literal_injective(a: Seq<char>, b: Seq<char>)
    requires
        json_string_literal(a) == json_string_literal(b),
    ensures
        a == b,
{
    let la = json_string_literal(a);
    assert(json_escape(a) =~= la.subrange(1, la.len() - 1));
    assert(json_escape(b) =~= la.subrange(1, la.len() - 1));
    lemma_json_escape_injective(a, b);
}

proof fn lemma_json_escape_injective(a: Seq<char>, b: Seq<char>)
    requires
        json_escape(a) == json_escape(b),
    ensures
        a == b,
    decreases a.len(),
{
    if a.len() == 0 {
        if b.len() > 0 {
            assert(json_escape(b).len() >= json_escape_char(b[0]).len());
        }
    } else {
        if b.len() == 0 {
            assert(json_escape(a).len() >= json_escape_char(a[0]).len());
        } else {
            lemma_json_escape_char_prefix(a[0], b[0], json_escape(a.drop_first()), json_escape(b.drop_first()));
            lemma_json_escape_injective(a.drop_first(), b.drop_first());
            assert(a =~= seq![a[0]] + a.drop_first());
            assert(b =~= seq![b[0]] + b.drop_first());
        }
    }
}

/// The JSON body of an error answer for a message.
pub open spec fn error_body(message: Seq<char>) -> Seq<char> {
    "{\"error\":"@ + json_string_literal(message) + "}"@
}

/// Error answers with the same body carry the same message: the body
/// decodes back to its message.
pub proof fn lemma_error_body_injective(m1: Seq<char>, m2: Seq<char>)
    requires
        error_body(m1) == error_body(m2),
    ensures
        m1 == m2,
{
    let pre = "{\"error\":"@;
    let post = "}"@;
    let b = error_body(m1);
    let l1 = json_string_literal(m1);
    let l2 = json_string_literal(m2);
    assert(l1 =~= b.subrange(pre.len() as int, b.len() - post.len()));
    assert(l2 =~= error_body(m2).subrange(pre.len() as int, b.len() - post.len()));
    lemma_json_string_literal_injective(m1, m2);
}

/// The status of an error answer depends on its kind alone, never on the
/// text it carries: 500 for the errors of the database, the environment,
/// outside HTTP services and templates, 404 for a user that was not found,
/// 401 for every authentication error.
pub proof fn lemma_status_by_kind(e: AppError)
    ensures
        e is DatabaseError ==> e.status_spec() == 500,
        e is EnvVarError ==> e.status_spec() == 500,
        e is ReqwestError ==> e.status_spec() == 500,
        e is TeraError ==> e.status_spec() == 500,
        e is UserNotFound ==> e.status_spec() == 404,
        e is AuthError ==> e.status_spec() == 401,
{
}

/// Two errors of the same kind are answered with the same status, whatever
/// their messages.
pub proof fn lemma_status_ignores_message(m1: String, m2: String)
    ensures
        AppError::AuthError(m1).status_spec() == AppError::AuthError(m2).status_spec(),
        AppError::DatabaseError(m1).status_spec() == AppError::DatabaseError(m2).status_spec(),
        AppError::EnvVarError(m1).status_spec() == AppError::EnvVarError(m2).status_spec(),
        AppError::ReqwestError(m1).status_spec() == AppError::ReqwestError(m2).status_spec(),
        AppError::TeraError(m1).status_spec() == AppError::TeraError(m2).status_spec(),
{
}

/// `serde_json::to_string::<str>`. The contract claims that serializing a
/// string never fails (the writer is a `Vec`) and that the result is the
/// string in double quotes with each character escaped as serde_json's
/// `ESCAPE` table and `write_char_escape` do.
#[verifier::external_body]
fn json_string(s: &str) -> (r: Result<String, serde_json::Error>)
    ensures
        r is Ok,
        r matches Ok(t) ==> t@ == json_string_literal(s@),
{
    serde_json::to_string(s)
}

impl AppError {
    /// The HTTP status with which the error is answered.
    pub open spec fn status_spec(&self) -> u16 {
        match self {
            AppError::DatabaseError(_) => STATUS_INTERNAL_SERVER_ERROR,
            AppError::EnvVarError(_) => STATUS_INTERNAL_SERVER_ERROR,
            AppError::ReqwestError(_) => STATUS_INTERNAL_SERVER_ERROR,
            AppError::TeraError(_) => STATUS_INTERNAL_SERVER_ERROR,
            AppError::UserNotFound => STATUS_NOT_FOUND,
            AppError::AuthError(_) => STATUS_UNAUTHORIZED,
        }
    }

    /// The message shown to the client for the error.
    pub open spec fn message_spec(&self) -> Seq<char> {
        match self {
            AppError::DatabaseError(e) => "A database error occurred: "@ + e@,
            AppError::EnvVarError(e) => "Server configuration error: "@ + e@,
            AppError::ReqwestError(e) => "An error occurred with an external service: "@ + e@,
            AppError::TeraError(e) => "Failed to render the page: "@ + e@,
            AppError::UserNotFound => "The requested user was not found."@,
            AppError::AuthError(msg) => msg@,
        }
    }

    /// The error's own description (its `Display` text).
    pub open spec fn description_spec(&self) -> Seq<char> {
        match self {
            AppError::DatabaseError(e) => "Database error: "@ + e@,
            AppError::EnvVarError(e) => "Environment variable not found: "@ + e@,
            AppError::ReqwestError(e) => "HTTP request error: "@ + e@,
            AppError::TeraError(e) => "Template rendering error: "@ + e@,
            AppError::UserNotFound => "User not found"@,
            AppError::AuthError(msg) => "Authentication error: "@ + msg@,
        }
    }

    /// The HTTP status with which the error is answered.
    pub fn status_code(&self) -> (r: u16)
        ensures
            r == self.status_spec(),
    {
        match self {
            AppError::DatabaseError(_) => STATUS_INTERNAL_SERVER_ERROR,
            AppError::EnvVarError(_) => STATUS_INTERNAL_SERVER_ERROR,
            AppError::ReqwestError(_) => STATUS_INTERNAL_SERVER_ERROR,
            AppError::TeraError(_) => STATUS_INTERNAL_SERVER_ERROR,
            AppError::UserNotFound => STATUS_NOT_FOUND,
            AppError::AuthError(_) => STATUS_UNAUTHORIZED,
        }
    }

    /// The message shown to the client for the error.
    pub fn message(&self) -> (r: String)
        ensures
            r@ == self.message_spec(),
    {
        match self {
            AppError::DatabaseError(e) => concat2("A database error occurred: ", e.as_str()),
            AppError::EnvVarError(e) => concat2("Server configuration error: ", e.as_str()),
            AppError::ReqwestError(e) => concat2(
                "An error occurred with an external service: ",
                e.as_str(),
            ),
            AppError::TeraError(e) => concat2("Failed to render the page: ", e.as_str()),
            AppError::UserNotFound => String::from_str("The requested user was not found."),
            AppError::AuthError(msg) => msg.clone(),
        }
    }

    /// The error's own description (its `Display` text).
    pub fn description(&self) -> (r: String)
        ensures
            r@ == self.description_spec(),
    {
        match self {
            AppError::DatabaseError(e) => concat2("Database error: ", e.as_str()),
            AppError::EnvVarError(e) => concat2("Environment variable not found: ", e.as_str()),
            AppError::ReqwestError(e) => concat2("HTTP request error: ", e.as_str()),
            AppError::TeraError(e) => concat2("Template rendering error: ", e.as_str()),
            AppError::UserNotFound => String::from_str("User not found"),
            AppError::AuthError(msg) => concat2("Authentication error: ", msg.as_str()),
        }
    }

    /// The JSON body of the answer: an object whose one field `error` holds
    /// the message.
    pub fn response_body(&self) -> (r: String)
        ensures
            r@ == error_body(self.message_spec()),
            json_plain(self.message_spec()) ==> r@ == "{\"error\":"@ + seq!['"']
                + self.message_spec() + seq!['"'] + "}"@,
    {
        let msg = self.message();
        proof {
            if json_plain(self.message_spec()) {
                lemma_json_escape_plain(self.message_spec());
            }
        }
        let mut body = String::from_str("{\"error\":");
        match json_string(msg.as_str()) {
            Ok(quoted) => body.append(quoted.as_str()),
            Err(_) => {},
        }
        body.append("}");
        body
    }

    /// The answer to the error: its HTTP status and JSON body.
    pub fn into_response(self) -> (r: (u16, String))
        ensures
            r.0 == self.status_spec(),
            r.1@ == error_body(self.message_spec()),
            json_plain(self.message_spec()) ==> r.1@ == "{\"error\":"@ + seq!['"']
                + self.message_spec() + seq!['"'] + "}"@,
    {
        let status = self.status_code();
        let body = self.response_body();
        (status, body)
    }
}

} // verus!
