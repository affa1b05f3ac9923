use vstd::prelude::*;
use vstd::string::{StrSliceExecFns, StringExecFns, StringSliceAdditionalSpecFns};

use crate::multipart::UploadPlan;

verus! {

/// The HTTP methods the client uses.
#[derive(PartialEq, Eq, Structural, Clone, Copy, Debug)]
pub enum Method {
    Get,
    Post,
    Put,
    Delete,
}

/// One request header.
pub struct Header {
    pub name: String,
    pub value: String,
}

impl Header {
    pub open spec fn view(&self) -> (Seq<char>, Seq<char>) {
        (self.name@, self.value@)
    }
}

/// What a request carries.
pub enum RequestBody {
    Empty,
    /// JSON text, sent with a JSON content type.
    Json(String),
    /// A multipart form built from the plan.
    Multipart(UploadPlan),
}

/// A request ready to be sent: everything the transport needs, and nothing
/// more is decided after it is built.
pub struct Request {
    pub method: Method,
    pub url: String,
    pub headers: Vec<Header>,
    pub body: RequestBody,
}

impl Request {
    pub open spec fn header_view(&self) -> Seq<(Seq<char>, Seq<char>)> {
        self.headers@.map_values(|h: Header| h@)
    }
}

/// `s` without the `/` characters at its end.
pub open spec fn trim_trailing_slashes(s: Seq<char>) -> Seq<char>
    decreases s.len(),
{
    if s.len() > 0 && s.last() == '/' {
        trim_trailing_slashes(s.drop_last())
    } else {
        s
    }
}

proof fn lemma_trim(s: Seq<char>, i: int)
    requires
        0 <= i <= s.len(),
        i == 0 || s[i - 1] != '/',
        forall|j: int| i <= j < s.len() ==> s[j] == '/',
    ensures
        trim_trailing_slashes(s) == s.subrange(0, i),
    decreases s.len(),
{
    if s.len() > 0 && s.last() == '/' {
        lemma_trim(s.drop_last(), i);
        assert(s.drop_last().subrange(0, i) =~= s.subrange(0, i));
    } else {
        assert(s.subrange(0, i) =~= s);
    }
}

/// The server's base URL: `api_url` with its trailing slashes removed.
pub fn base_url(api_url: &str) -> (r: String)
    ensures
        r@ == trim_trailing_slashes(api_url@),
{
    let n = api_url.unicode_len();
    let mut i: usize = n;
    while i > 0 && api_url.get_char(i - 1) == '/'
        invariant
            i <= n,
            n == api_url@.len(),
            forall|j: int| i <= j < n ==> api_url@[j] == '/',
        decreases i,
    {
        i = i - 1;
    }
    proof {
        lemma_trim(api_url@, i as int);
    }
    String::from_str(api_url.substring_char(0, i))
}

pub open spec fn digit_char(d: int) -> char {
    seq!['0', '1', '2', '3', '4', '5', '6', '7', '8', '9'][d]
}

/// The decimal digits of `n`, without leading zeros.
pub open spec fn decimal(n: nat) -> Seq<char>
    decreases n,
{
    if n < 10 {
        seq![digit_char(n as int)]
    } else {
        decimal(n / 10).push(digit_char((n % 10) as int))
    }
}

fn digit_str(d: u64) -> (r: &'static str)
    requires
        d < 10,
    ensures
        r@ == seq![digit_char(d as int)],
{
    proof {
        reveal_strlit("0");
        reveal_strlit("1");
        reveal_strlit("2");
        reveal_strlit("3");
        reveal_strlit("4");
        reveal_strlit("5");
        reveal_strlit("6");
        reveal_strlit("7");
        reveal_strlit("8");
        reveal_strlit("9");
    }
    let r = if d == 0 {
        "0"
    } else if d == 1 {
        "1"
    } else if d == 2 {
        "2"
    } else if d == 3 {
        "3"
    } else if d == 4 {
        "4"
    } else if d == 5 {
        "5"
    } else if d == 6 {
        "6"
    } else if d == 7 {
        "7"
    } else if d == 8 {
        "8"
    } else {
        "9"
    };
    assert(r@ =~= seq![digit_char(d as int)]);
    r
}

/// Append the decimal digits of `n` to `s`.
pub fn push_decimal(s: &mut String, n: u64)
    ensures
        final(s)@ == old(s)@ + decimal(n as nat),
    decreases n,
{
    if n >= 10 {
        push_decimal(s, n / 10);
    }
    s.append(digit_str(n % 10));
    assert(decimal(n as nat) =~= if n < 10 {
        seq![digit_char(n as int)]
    } else {
        decimal((n / 10) as nat).push(digit_char((n % 10) as int))
    });
}

/// Whether form encoding leaves byte `b` as it is.
pub open spec fn byte_unchanged(b: u8) -> bool {
    b == 42 || b == 45 || b == 46 || (48 <= b <= 57) || (65 <= b <= 90) || b == 95 || (97 <= b
        <= 122)
}

pub open spec fn hex_upper(d: int) -> char {
    seq!['0', '1', '2', '3', '4', '5', '6', '7', '8', '9', 'A', 'B', 'C', 'D', 'E', 'F'][d]
}

/// `application/x-www-form-urlencoded` text for the bytes `b`: bytes of
/// `*-._`, digits and ASCII letters stay, a space becomes `+`, and every other
/// byte becomes `%` and two upper-case hex digits.
pub open spec fn form_encoded(b: Seq<u8>) -> Seq<char>
    decreases b.len(),
{
    if b.len() == 0 {
        seq![]
    } else {
        let x = b[0];
        let head = if byte_unchanged(x) {
            seq![x as char]
        } else if x == 32 {
            seq!['+']
        } else {
            seq!['%', hex_upper(x as int / 16), hex_upper(x as int % 16)]
        };
        head + form_encoded(b.subrange(1, b.len() as int))
    }
}

/// Relies on url::form_urlencoded::byte_serialize over the UTF-8 bytes of `s`.
#[verifier::external_body]
pub(crate) fn form_urlencode(s: &str) -> (r: String)
    ensures
        r@ == form_encoded(s.spec_bytes()),
{
    url::form_urlencoded::byte_serialize(s.as_bytes()).collect()
}

} // verus!
