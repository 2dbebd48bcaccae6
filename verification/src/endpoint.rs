//! The connection endpoint: `<scheme>://<server>:<port>/<password>`, with
//! the password embedded verbatim as the path segment (the convention of
//! the target server's console protocol), and its validation as a URL.

use vstd::prelude::*;
use crate::wire::push_char;

verus! {

/// The decimal digit character for a value below 10.
pub open spec fn digit_char(n: nat) -> char {
    if n == 0 {
        '0'
    } else if n == 1 {
        '1'
    } else if n == 2 {
        '2'
    } else if n == 3 {
        '3'
    } else if n == 4 {
        '4'
    } else if n == 5 {
        '5'
    } else if n == 6 {
        '6'
    } else if n == 7 {
        '7'
    } else if n == 8 {
        '8'
    } else {
        '9'
    }
}

/// The decimal representation of a number, most significant digit first,
/// with no leading zero except for the number zero itself.
pub open spec fn dec_rep(n: nat) -> Seq<char>
    decreases n,
{
    if n < 10 {
        seq![digit_char(n)]
    } else {
        dec_rep(n / 10).push(digit_char(n % 10))
    }
}

fn digit_of(n: u16) -> (c: char)
    requires
        n < 10,
    ensures
        c == digit_char(n as nat),
{
    if n == 0 {
        '0'
    } else if n == 1 {
        '1'
    } else if n == 2 {
        '2'
    } else if n == 3 {
        '3'
    } else if n == 4 {
        '4'
    } else if n == 5 {
        '5'
    } else if n == 6 {
        '6'
    } else if n == 7 {
        '7'
    } else if n == 8 {
        '8'
    } else {
        '9'
    }
}

/// Writes a port number in decimal.
pub fn u16_decimal(n: u16) -> (r: String)
    ensures
        r@ == dec_rep(n as nat),
    decreases n,
{
    if n < 10 {
        let mut r = String::new();
        let c = digit_of(n);
        push_char(&mut r, c);
        proof {
            assert(r@ =~= dec_rep(n as nat));
        }
        r
    } else {
        let mut r = u16_decimal(n / 10);
        let c = digit_of(n % 10);
        push_char(&mut r, c);
        r
    }
}

/// The endpoint URL for the given connection parameters.
pub open spec fn spec_endpoint(server: Seq<char>, port: nat, password: Seq<char>, ssl: bool) -> Seq<
    char,
> {
    (if ssl {
        "wss"@
    } else {
        "ws"@
    }) + "://"@ + server + ":"@ + dec_rep(port) + "/"@ + password
}

/// Composes the endpoint URL.
pub fn endpoint(server: &str, port: u16, password: &str, ssl: bool) -> (r: String)
    ensures
        r@ == spec_endpoint(server@, port as nat, password@, ssl),
{
    let mut r = if ssl {
        String::from_str("wss")
    } else {
        String::from_str("ws")
    };
    r.append("://");
    r.append(server);
    r.append(":");
    let p = u16_decimal(port);
    r.append(p.as_str());
    r.append("/");
    r.append(password);
    proof {
        assert(r@ =~= spec_endpoint(server@, port as nat, password@, ssl));
    }
    r
}

/// Declares `url::Url`, the url crate's parsed URL, as an opaque type, so
/// that a parse result can be held and discarded.
#[verifier::external_type_specification]
#[verifier::external_body]
pub struct ExUrl(url::Url);

/// Declares `url::ParseError`, the url crate's parse error, as an opaque
/// type.
#[verifier::external_type_specification]
#[verifier::external_body]
pub struct ExUrlParseError(url::ParseError);

/// Whether the url crate's parser accepts the string.  Parsing is a
/// deterministic function of the characters alone.
pub uninterp spec fn url_well_formed(s: Seq<char>) -> bool;

/// Relies on `url::Url::parse`: a pure parse of the input string, which
/// returns `Ok` exactly when the input is a well-formed URL.
pub assume_specification[ url::Url::parse ](input: &str) -> (r: Result<url::Url, url::ParseError>)
    ensures
        r is Ok <==> url_well_formed(input@),
;

} // verus!
