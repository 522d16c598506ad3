//! Errors that request handling can end in, their HTTP status codes, their
//! messages and the JSON body sent with them.

use vstd::prelude::*;

verus! {

/// Why a request failed. Failures of the database, of key handling and of
/// outgoing requests carry the underlying error's message.
#[derive(Clone, Debug)]
pub enum ServiceError {
    NameAlreadyTaken,
    UserNotFound,
    InvalidActivityPubRequest(String),
    WrongCredential,
    InternalServerError,
    QueryError(String),
    KeyError(String),
    RequestError(String),
}

/// HTTP 400.
pub const BAD_REQUEST: u16 = 400;
/// HTTP 401.
pub const UNAUTHORIZED: u16 = 401;
/// HTTP 500.
pub const INTERNAL_SERVER_ERROR: u16 = 500;

/// The media type of every error body.
pub const ERROR_CONTENT_TYPE: &'static str = "application/json";

impl ServiceError {
    /// The human-readable message of each error.
    pub open spec fn spec_message(&self) -> Seq<char> {
        match self {
            ServiceError::NameAlreadyTaken => "The user name is already used"@,
            ServiceError::UserNotFound => "The user is not found"@,
            ServiceError::InvalidActivityPubRequest(m) => "Invalid ActivityPub request: "@ + m@,
            ServiceError::WrongCredential => "User name or password is wrong"@,
            ServiceError::InternalServerError => "Internal server error"@,
            ServiceError::QueryError(m) => "Query error: "@ + m@,
            ServiceError::KeyError(m) => "Key error: "@ + m@,
            ServiceError::RequestError(m) => "Failed to send request: "@ + m@,
        }
    }

    /// Client mistakes are 400, a wrong credential is 401, everything else is 500.
    pub open spec fn spec_status_code(&self) -> u16 {
        match self {
            ServiceError::NameAlreadyTaken
            | ServiceError::UserNotFound
            | ServiceError::InvalidActivityPubRequest(_) => BAD_REQUEST,
            ServiceError::WrongCredential => UNAUTHORIZED,
            ServiceError::InternalServerError
            | ServiceError::QueryError(_)
            | ServiceError::KeyError(_)
            | ServiceError::RequestError(_) => INTERNAL_SERVER_ERROR,
        }
    }

    /// The error's message, as its `Display` would print it.
    pub fn to_string(&self) -> (s: String)
        ensures
            s@ == self.spec_message(),
    {
        match self {
            ServiceError::NameAlreadyTaken => String::from_str("The user name is already used"),
            ServiceError::UserNotFound => String::from_str("The user is not found"),
            ServiceError::InvalidActivityPubRequest(m) => String::from_str(
                "Invalid ActivityPub request: ",
            ).concat(m.as_str()),
            ServiceError::WrongCredential => String::from_str("User name or password is wrong"),
            ServiceError::InternalServerError => String::from_str("Internal server error"),
            ServiceError::QueryError(m) => String::from_str("Query error: ").concat(m.as_str()),
            ServiceError::KeyError(m) => String::from_str("Key error: ").concat(m.as_str()),
            ServiceError::RequestError(m) => String::from_str("Failed to send request: ").concat(
                m.as_str(),
            ),
        }
    }

    /// The HTTP status code that answers a request failing with this error.
    pub fn status_code(&self) -> (c: u16)
        ensures
            c == self.spec_status_code(),
    {
        match self {
            ServiceError::NameAlreadyTaken
            | ServiceError::UserNotFound
            | ServiceError::InvalidActivityPubRequest(_) => BAD_REQUEST,
            ServiceError::WrongCredential => UNAUTHORIZED,
            ServiceError::InternalServerError
            | ServiceError::QueryError(_)
            | ServiceError::KeyError(_)
            | ServiceError::RequestError(_) => INTERNAL_SERVER_ERROR,
        }
    }

    /// The response that reports this error: its status code, a JSON content
    /// type and an [`ErrorMessage`] body holding the error's message.
    pub fn error_response(&self) -> (r: ErrorResponse)
        ensures
            r.status == self.spec_status_code(),
            r.content_type@ == ERROR_CONTENT_TYPE@,
            r.body@ == error_body(self.spec_message()),
    {
        let message = ErrorMessage { error: self.to_string() };
        ErrorResponse {
            status: self.status_code(),
            content_type: String::from_str(ERROR_CONTENT_TYPE),
            body: message.to_string(),
        }
    }
}

/// The JSON object `{"error": "<message>"}`, the message escaped as a JSON string.
pub open spec fn error_body(message: Seq<char>) -> Seq<char> {
    "{\"error\": \""@ + json_escaped(message) + "\"}"@
}

/// Lower-case hexadecimal digits.
pub const HEX_DIGITS: &'static str = "0123456789abcdef";

/// How one character is written inside a JSON string: `"` and `\` are
/// escaped, control characters use their short escape or `\u00XX`, every
/// other character stands for itself.
pub open spec fn json_escaped_char(c: char) -> Seq<char> {
    if c == '"' {
        "\\\""@
    } else if c == '\\' {
        "\\\\"@
    } else if c == '\n' {
        "\\n"@
    } else if c == '\r' {
        "\\r"@
    } else if c == '\t' {
        "\\t"@
    } else if c == '\u{8}' {
        "\\b"@
    } else if c == '\u{c}' {
        "\\f"@
    } else if (c as u32) < 0x20 {
        "\\u00"@ + seq![HEX_DIGITS@[((c as u32) / 16) as int], HEX_DIGITS@[((c as u32) % 16) as int]]
    } else {
        seq![c]
    }
}

/// `s` written as the contents of a JSON string, character by character.
pub open spec fn json_escaped(s: Seq<char>) -> Seq<char>
    decreases s.len(),
{
    if s.len() == 0 {
        Seq::empty()
    } else {
        json_escaped(s.drop_last()) + json_escaped_char(s.last())
    }
}

/// Writes `s` as the contents of a JSON string.
pub fn json_escape(s: &str) -> (r: String)
    ensures
        r@ == json_escaped(s@),
{
    proof {
        reveal_strlit("0123456789abcdef");
    }
    let n = s.unicode_len();
    let mut out = String::new();
    let mut i: usize = 0;
    assert(s@.take(0) =~= Seq::<char>::empty());
    while i < n
        invariant
            n == s@.len(),
            i <= n,
            HEX_DIGITS@.len() == 16,
            out@ == json_escaped(s@.take(i as int)),
        decreases n - i,
    {
        let c = s.get_char(i);
        let ghost before = out@;
        assert(s@.take(i + 1).drop_last() =~= s@.take(i as int));
        assert(s@.take(i + 1).last() == c);
        if c == '"' {
            out.append("\\\"");
        } else if c == '\\' {
            out.append("\\\\");
        } else if c == '\n' {
            out.append("\\n");
        } else if c == '\r' {
            out.append("\\r");
        } else if c == '\t' {
            out.append("\\t");
        } else if c == '\u{8}' {
            out.append("\\b");
        } else if c == '\u{c}' {
            out.append("\\f");
        } else if (c as u32) < 0x20 {
            let v = c as u32;
            let hi = (v / 16) as usize;
            let lo = (v % 16) as usize;
            let h = HEX_DIGITS.substring_char(hi, hi + 1);
            let l = HEX_DIGITS.substring_char(lo, lo + 1);
            assert(h@ =~= seq![HEX_DIGITS@[hi as int]]);
            assert(l@ =~= seq![HEX_DIGITS@[lo as int]]);
            out.append("\\u00");
            out.append(h);
            out.append(l);
            assert(out@ =~= before + ("\\u00"@ + seq![HEX_DIGITS@[((c as u32) / 16) as int], HEX_DIGITS@[((c as u32) % 16) as int]]));
        } else {
            let one = s.substring_char(i, i + 1);
            assert(one@ =~= seq![c]);
            out.append(one);
        }
        i = i + 1;
    }
    assert(s@.take(n as int) =~= s@);
    out
}

/// The body of an error response.
pub struct ErrorMessage {
    pub error: String,
}

impl ErrorMessage {
    /// `{"error": "<error>"}`, the error escaped as a JSON string.
    pub fn to_string(&self) -> (s: String)
        ensures
            s@ == error_body(self.error@),
    {
        let escaped = json_escape(self.error.as_str());
        String::from_str("{\"error\": \"").concat(escaped.as_str()).concat("\"}")
    }
}

/// Status, content type and body of an error response.
pub struct ErrorResponse {
    pub status: u16,
    pub content_type: String,
    pub body: String,
}

} // verus!
