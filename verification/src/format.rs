use vstd::prelude::*;
use vstd::string::*;

verus! {

pub const STATUS_OK: u16 = 200;

pub const STATUS_CREATED: u16 = 201;

pub const STATUS_SEE_OTHER: u16 = 303;

pub const STATUS_BAD_REQUEST: u16 = 400;

pub const STATUS_UNAUTHORIZED: u16 = 401;

pub const STATUS_NOT_FOUND: u16 = 404;

pub const STATUS_METHOD_NOT_ALLOWED: u16 = 405;

pub const STATUS_INTERNAL_SERVER_ERROR: u16 = 500;

/// What a response carries, and how the embedding server should label it.
pub enum Body {
    Empty,
    Text(String),
    Json(String),
    Html(String),
    Redirect(String),
}

/// A complete response: a status code and a body. The embedding server
/// turns this value into the wire representation unchanged.
pub struct Response {
    pub status: u16,
    pub body: Body,
}

/// Returns an empty response.
pub fn empty() -> (r: crate::Result<Response>)
    ensures
        r matches Ok(resp) && resp.status == STATUS_OK && resp.body is Empty,
{
    Ok(Response { status: STATUS_OK, body: Body::Empty })
}

/// Returns a response containing the provided text.
pub fn text(t: &str) -> (r: crate::Result<Response>)
    ensures
        r matches Ok(resp) && resp.status == STATUS_OK && (resp.body matches Body::Text(b) && b@
            == t@),
{
    Ok(Response { status: STATUS_OK, body: Body::Text(t.to_owned()) })
}

/// Returns a JSON response carrying the provided serialized JSON text.
pub fn json(body: String) -> (r: crate::Result<Response>)
    ensures
        r matches Ok(resp) && resp.status == STATUS_OK && (resp.body matches Body::Json(b) && b
            == body),
{
    Ok(Response { status: STATUS_OK, body: Body::Json(body) })
}

/// Respond with empty json (`{}`).
pub fn empty_json() -> (r: crate::Result<Response>)
    ensures
        r matches Ok(resp) && resp.status == STATUS_OK && (resp.body matches Body::Json(b) && b@
            == "{}"@),
{
    json(String::from_str("{}"))
}

/// Returns an HTML response.
pub fn html(content: &str) -> (r: crate::Result<Response>)
    ensures
        r matches Ok(resp) && resp.status == STATUS_OK && (resp.body matches Body::Html(b) && b@
            == content@),
{
    Ok(Response { status: STATUS_OK, body: Body::Html(content.to_owned()) })
}

/// Returns a redirect response to the given location.
pub fn redirect(to: &str) -> (r: crate::Result<Response>)
    ensures
        r matches Ok(resp) && resp.status == STATUS_SEE_OTHER && (resp.body matches Body::Redirect(
            b,
        ) && b@ == to@),
{
    Ok(Response { status: STATUS_SEE_OTHER, body: Body::Redirect(to.to_owned()) })
}

/// The JSON string literal (quotes and escapes included) that serde_json
/// produces for the characters `s`. The encoding is a function of the
/// characters alone; its escape tables stay with serde_json.
pub uninterp spec fn json_string_of(s: Seq<char>) -> Seq<char>;

/// Relies on `serde_json::to_string`: serializing a `str` always succeeds
/// (string serialization has no error path) and yields the quoted, escaped
/// JSON string literal determined by the characters alone.
#[verifier::external_body]
pub(crate) fn json_quote(s: &str) -> (r: String)
    ensures
        r@ == json_string_of(s@),
{
    serde_json::to_string(s).unwrap()
}

/// The character for one decimal digit.
pub open spec fn digit_char(d: nat) -> char {
    if d == 0 {
        '0'
    } else if d == 1 {
        '1'
    } else if d == 2 {
        '2'
    } else if d == 3 {
        '3'
    } else if d == 4 {
        '4'
    } else if d == 5 {
        '5'
    } else if d == 6 {
        '6'
    } else if d == 7 {
        '7'
    } else if d == 8 {
        '8'
    } else {
        '9'
    }
}

/// The decimal digits of `n`, most significant first.
pub open spec fn dec_rep(n: nat) -> Seq<char>
    decreases n,
{
    if n < 10 {
        seq![digit_char(n)]
    } else {
        dec_rep(n / 10).push(digit_char(n % 10))
    }
}

fn digit_literal(d: u16) -> (s: &'static str)
    requires
        d < 10,
    ensures
        s@ == seq![digit_char(d as nat)],
{
    if d == 0 {
        proof {
            reveal_strlit("0");
            assert("0"@ =~= seq!['0']);
        }
        "0"
    } else if d == 1 {
        proof {
            reveal_strlit("1");
            assert("1"@ =~= seq!['1']);
        }
        "1"
    } else if d == 2 {
        proof {
            reveal_strlit("2");
            assert("2"@ =~= seq!['2']);
        }
        "2"
    } else if d == 3 {
        proof {
            reveal_strlit("3");
            assert("3"@ =~= seq!['3']);
        }
        "3"
    } else if d == 4 {
        proof {
            reveal_strlit("4");
            assert("4"@ =~= seq!['4']);
        }
        "4"
    } else if d == 5 {
        proof {
            reveal_strlit("5");
            assert("5"@ =~= seq!['5']);
        }
        "5"
    } else if d == 6 {
        proof {
            reveal_strlit("6");
            assert("6"@ =~= seq!['6']);
        }
        "6"
    } else if d == 7 {
        proof {
            reveal_strlit("7");
            assert("7"@ =~= seq!['7']);
        }
        "7"
    } else if d == 8 {
        proof {
            reveal_strlit("8");
            assert("8"@ =~= seq!['8']);
        }
        "8"
    } else {
        proof {
            reveal_strlit("9");
            assert("9"@ =~= seq!['9']);
        }
        "9"
    }
}

/// Render a number as its decimal digits.
pub fn u16_dec(n: u16) -> (s: String)
    ensures
        s@ == dec_rep(n as nat),
    decreases n,
{
    if n < 10 {
        digit_literal(n).to_owned()
    } else {
        let mut s = u16_dec(n / 10);
        s.append(digit_literal(n % 10));
        proof {
            assert(s@ =~= dec_rep((n / 10) as nat).push(digit_char((n % 10) as nat)));
        }
        s
    }
}

} // verus!
