//! The one line logged per proxied exchange:
//! `[<timestamp>] <METHOD> <presented host><path> <version> <status> <reason>`.

use vstd::prelude::*;
use vstd::string::StringExecFns;

verus! {

/// The HTTP version a request arrived with.
#[derive(Clone, Copy, Debug, PartialEq, Eq)]
pub enum HttpVersion {
    Http09,
    Http10,
    Http11,
    Http2,
    Http3,
}

/// How a version is written in the log.
pub open spec fn version_text(v: HttpVersion) -> Seq<char> {
    match v {
        HttpVersion::Http09 => "HTTP/0.9"@,
        HttpVersion::Http10 => "HTTP/1.0"@,
        HttpVersion::Http11 => "HTTP/1.1"@,
        HttpVersion::Http2 => "HTTP/2.0"@,
        HttpVersion::Http3 => "HTTP/3.0"@,
    }
}

impl HttpVersion {
    /// The version as it is written in the log.
    pub fn as_str(&self) -> (r: &'static str)
        ensures
            r@ == version_text(*self),
    {
        match self {
            HttpVersion::Http09 => "HTTP/0.9",
            HttpVersion::Http10 => "HTTP/1.0",
            HttpVersion::Http11 => "HTTP/1.1",
            HttpVersion::Http2 => "HTTP/2.0",
            HttpVersion::Http3 => "HTTP/3.0",
        }
    }
}

/// The character of a decimal digit.
pub open spec fn digit_char(d: nat) -> char {
    if d == 0 {
        '0'
    } else if d == 1 {
        '1'
    } else if d == 2 {
        '2'
    } else if d == 3 {
        '3'
    } else if d == 4 {
        '4'
    } else if d == 5 {
        '5'
    } else if d == 6 {
        '6'
    } else if d == 7 {
        '7'
    } else if d == 8 {
        '8'
    } else {
        '9'
    }
}

/// A number in decimal, without leading zeros.
pub open spec fn decimal(n: nat) -> Seq<char>
    decreases n,
{
    if n < 10 {
        seq![digit_char(n)]
    } else {
        decimal(n / 10).push(digit_char(n % 10))
    }
}

/// The log line of one exchange.
pub open spec fn log_text(
    stamp: Seq<char>,
    method: Seq<char>,
    host: Seq<char>,
    path: Seq<char>,
    version: HttpVersion,
    status: u16,
    reason: Seq<char>,
) -> Seq<char> {
    "["@ + stamp + "] "@ + method + " "@ + host + path + " "@ + version_text(version) + " "@
        + decimal(status as nat) + " "@ + reason
}

fn digit_str(d: u16) -> (r: &'static str)
    requires
        d < 10,
    ensures
        r@ == seq![digit_char(d as nat)],
{
    proof {
        reveal_strlit("0");
        reveal_strlit("1");
        reveal_strlit("2");
        reveal_strlit("3");
        reveal_strlit("4");
        reveal_strlit("5");
        reveal_strlit("6");
        reveal_strlit("7");
        reveal_strlit("8");
        reveal_strlit("9");
    }
    if d == 0 {
        "0"
    } else if d == 1 {
        "1"
    } else if d == 2 {
        "2"
    } else if d == 3 {
        "3"
    } else if d == 4 {
        "4"
    } else if d == 5 {
        "5"
    } else if d == 6 {
        "6"
    } else if d == 7 {
        "7"
    } else if d == 8 {
        "8"
    } else {
        "9"
    }
}

fn append_decimal(out: &mut String, n: u16)
    ensures
        final(out)@ == old(out)@ + decimal(n as nat),
    decreases n,
{
    if n < 10 {
        out.append(digit_str(n));
    } else {
        append_decimal(out, n / 10);
        out.append(digit_str(n % 10));
    }
}

/// The log line of one exchange: the time it arrived, its method, the host
/// presented to the developer followed by the path, the protocol version,
/// and the status code with its reason phrase.
pub fn log_line(
    stamp: &str,
    method: &str,
    host: &str,
    path: &str,
    version: HttpVersion,
    status: u16,
    reason: &str,
) -> (r: String)
    ensures
        r@ == log_text(stamp@, method@, host@, path@, version, status, reason@),
{
    let mut line = String::from_str("[");
    line.append(stamp);
    line.append("] ");
    line.append(method);
    line.append(" ");
    line.append(host);
    line.append(path);
    line.append(" ");
    line.append(version.as_str());
    line.append(" ");
    append_decimal(&mut line, status);
    line.append(" ");
    line.append(reason);
    line
}

} // verus!
