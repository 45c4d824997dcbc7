//! Endpoint discovery and the shared channel handle. The target host
//! defaults to loopback; the port comes from an explicit override, else an
//! environment-supplied value, else the fixed default. The channel itself
//! is immutable once built and shared by every call site.

use vstd::prelude::*;

verus! {

/// Default sidecar port when neither an explicit port nor an
/// environment-supplied override is given.
pub const DEFAULT_PORT: u16 = 9357;

/// Default host when neither an explicit host nor an environment-supplied
/// override is given.
pub const DEFAULT_HOST: &'static str = "http://localhost";

/// Default keep-alive timeout of the underlying transport, in
/// milliseconds.
pub const DEFAULT_KEEP_ALIVE_MS: u64 = 30000;

/// Whether `c` is a decimal digit.
pub open spec fn is_dec_digit(c: char) -> bool {
    '0' <= c && c <= '9'
}

/// Numeric value of a decimal digit.
pub open spec fn digit_of(c: char) -> int {
    c as u32 - '0' as u32
}

/// The decimal digit with value `d`.
pub open spec fn char_of_digit(d: int) -> char {
    if d == 0 {
        '0'
    } else if d == 1 {
        '1'
    } else if d == 2 {
        '2'
    } else if d == 3 {
        '3'
    } else if d == 4 {
        '4'
    } else if d == 5 {
        '5'
    } else if d == 6 {
        '6'
    } else if d == 7 {
        '7'
    } else if d == 8 {
        '8'
    } else {
        '9'
    }
}

/// Whether every character of `s` is a decimal digit.
pub open spec fn all_dec_digits(s: Seq<char>) -> bool {
    forall|i: int| 0 <= i < s.len() ==> is_dec_digit(#[trigger] s[i])
}

/// Numeric value of a digit string, most significant digit first.
pub open spec fn dec_value(s: Seq<char>) -> int
    decreases s.len(),
{
    if s.len() == 0 {
        0
    } else {
        dec_value(s.drop_last()) * 10 + digit_of(s.last())
    }
}

/// Decimal notation of a nonnegative number, without leading zeroes.
pub open spec fn dec_digits(n: int) -> Seq<char>
    decreases n,
{
    if n < 10 {
        seq![char_of_digit(n)]
    } else {
        dec_digits(n / 10).push(char_of_digit(n % 10))
    }
}

/// The digits a port string carries: a single leading `+` sign is
/// accepted and skipped.
pub open spec fn port_digits(s: Seq<char>) -> Seq<char> {
    if s.len() > 0 && s[0] == '+' {
        s.drop_first()
    } else {
        s
    }
}

/// Whether `s` parses as a 16-bit port: at least one digit after an
/// optional leading `+`, digits only, value within `u16`.
pub open spec fn is_valid_port_str(s: Seq<char>) -> bool {
    &&& port_digits(s).len() > 0
    &&& all_dec_digits(port_digits(s))
    &&& dec_value(port_digits(s)) <= u16::MAX
}

/// A digit string's value never shrinks as more digits are appended.
proof fn lemma_dec_value_prefix(s: Seq<char>, i: int)
    requires
        all_dec_digits(s),
        0 <= i <= s.len(),
    ensures
        0 <= dec_value(s.subrange(0, i)),
        dec_value(s.subrange(0, i)) <= dec_value(s),
    decreases s.len() - i,
{
    lemma_dec_value_nonneg(s.subrange(0, i));
    if i < s.len() {
        lemma_dec_value_prefix(s, i + 1);
        let t = s.subrange(0, i + 1);
        assert(t.drop_last() =~= s.subrange(0, i));
        assert(t.last() == s[i]);
        lemma_dec_value_nonneg(s.subrange(0, i));
        assert(dec_value(t) == dec_value(s.subrange(0, i)) * 10 + digit_of(s[i]));
        assert(is_dec_digit(s[i]));
        assert(0 <= digit_of(s[i]));
        assert(dec_value(s.subrange(0, i)) <= dec_value(s.subrange(0, i)) * 10) by (nonlinear_arith)
            requires 0 <= dec_value(s.subrange(0, i));
    } else {
        assert(s.subrange(0, i) =~= s);
    }
}

/// A digit string's value is nonnegative.
proof fn lemma_dec_value_nonneg(s: Seq<char>)
    requires
        all_dec_digits(s),
    ensures
        0 <= dec_value(s),
    decreases s.len(),
{
    if s.len() > 0 {
        assert(all_dec_digits(s.drop_last())) by {
            assert(forall|i: int|
                0 <= i < s.drop_last().len() ==> #[trigger] s.drop_last()[i] == s[i]);
        }
        lemma_dec_value_nonneg(s.drop_last());
        assert(is_dec_digit(s.last()));
        assert(dec_value(s.drop_last()) * 10 >= 0) by (nonlinear_arith)
            requires dec_value(s.drop_last()) >= 0;
    }
}

/// Parses a port number as the environment supplies it: at least one
/// decimal digit after an optional leading `+`, value within `u16`.
/// Anything else is `None`.
pub fn parse_port(s: &str) -> (r: Option<u16>)
    ensures
        is_valid_port_str(s@) ==> (r matches Some(p) && p == dec_value(port_digits(s@))),
        !is_valid_port_str(s@) ==> r is None,
{
    let len = s.unicode_len();
    let start: usize = if len > 0 && s.get_char(0) == '+' {
        1
    } else {
        0
    };
    proof {
        assert(port_digits(s@) =~= s@.subrange(start as int, s@.len() as int));
    }
    if len == start {
        return None;
    }
    let ghost d = port_digits(s@);
    let mut acc: u32 = 0;
    let mut i: usize = start;
    while i < len
        invariant
            start <= i <= len,
            len == s@.len(),
            start <= 1,
            d == port_digits(s@),
            d == s@.subrange(start as int, len as int),
            d.len() == len - start,
            all_dec_digits(d.subrange(0, i - start)),
            acc == dec_value(d.subrange(0, i - start)),
            acc <= u16::MAX,
        decreases len - i,
    {
        let c = s.get_char(i);
        if c < '0' || c > '9' {
            proof {
                assert(d[i - start] == s@[i as int]);
                assert(!is_dec_digit(d[i - start]));
            }
            return None;
        }
        let digit: u32 = c as u32 - 48;
        proof {
            assert(d[i - start] == s@[i as int]);
            assert('0' as u32 == 48);
            assert(digit == digit_of(d[i - start]));
            assert(d.subrange(0, i - start + 1).drop_last() =~= d.subrange(0, i - start));
            assert(d.subrange(0, i - start + 1).last() == d[i - start]);
        }
        acc = acc * 10 + digit;
        proof {
            assert(acc == dec_value(d.subrange(0, i - start + 1)));
        }
        if acc > u16::MAX as u32 {
            proof {
                assert(all_dec_digits(d.subrange(0, i - start + 1)));
                if is_valid_port_str(s@) {
                    assert(d.subrange(0, i - start + 1) =~= d.subrange(0, i + 1 - start));
                    lemma_dec_value_prefix(d, i + 1 - start);
                    assert(dec_value(d) > u16::MAX);
                }
            }
            return None;
        }
        i = i + 1;
    }
    proof {
        assert(d.subrange(0, i - start) =~= d);
        assert(is_valid_port_str(s@));
    }
    Some(acc as u16)
}

/// The decimal digit with value `d`, as a one-character string.
fn digit_str(d: u16) -> (s: &'static str)
    requires
        d < 10,
    ensures
        s@ == seq![char_of_digit(d as int)],
{
    proof {
        reveal_strlit("0");
        reveal_strlit("1");
        reveal_strlit("2");
        reveal_strlit("3");
        reveal_strlit("4");
        reveal_strlit("5");
        reveal_strlit("6");
        reveal_strlit("7");
        reveal_strlit("8");
        reveal_strlit("9");
    }
    match d {
        0 => "0",
        1 => "1",
        2 => "2",
        3 => "3",
        4 => "4",
        5 => "5",
        6 => "6",
        7 => "7",
        8 => "8",
        _ => "9",
    }
}

/// Decimal notation of a port number.
pub fn port_to_string(n: u16) -> (s: String)
    ensures
        s@ == dec_digits(n as int),
    decreases n,
{
    if n < 10 {
        digit_str(n).to_owned()
    } else {
        let q = n / 10;
        let r = n % 10;
        let head = port_to_string(q);
        head.concat(digit_str(r))
    }
}

/// A transport handle to the sidecar's endpoint: immutable once built,
/// cloned freely and shared by every call site; the transport multiplexes
/// the individual calls, so no further coordination is needed.
#[derive(Clone, Debug)]
pub struct Channel {
    /// The endpoint's address, scheme and host and port.
    pub addr: String,
    /// Keep-alive timeout of the underlying transport, in milliseconds.
    pub keep_alive_ms: u64,
}

impl Channel {
    /// A handle to the same endpoint for another call site; the transport
    /// multiplexes their calls.
    pub fn duplicate(&self) -> (c: Channel)
        ensures
            c.addr@ == self.addr@,
            c.keep_alive_ms == self.keep_alive_ms,
    {
        Channel { addr: self.addr.clone(), keep_alive_ms: self.keep_alive_ms }
    }
}

/// Whether `s` parses as a connection URI. The decision is the URI
/// grammar's, made by the transport stack, and depends on the characters
/// alone.
pub uninterp spec fn uri_well_formed(s: Seq<char>) -> bool;

/// Relies on `http::Uri`'s `FromStr` parse: a pure function of the
/// string that accepts exactly the well-formed URIs.
#[verifier::external_body]
pub fn uri_is_valid(s: &str) -> (r: bool)
    ensures
        r == uri_well_formed(s@),
{
    <http::Uri as core::str::FromStr>::from_str(s).is_ok()
}

/// The address `host:port`.
pub fn host_address(host: &str, port: u16) -> (s: String)
    ensures
        s@ == host@ + ":"@ + dec_digits(port as int),
{
    let p = port_to_string(port);
    host.to_owned().concat(":").concat(p.as_str())
}

/// Picks the port: the explicit one wins, else a parsable
/// environment-supplied value, else the fixed default.
pub fn resolve_port(port: Option<u16>, env_port: Option<&str>) -> (p: u16)
    ensures
        match port {
            Some(x) => p == x,
            None => match env_port {
                Some(s) => if is_valid_port_str(s@) {
                    p == dec_value(port_digits(s@))
                } else {
                    p == DEFAULT_PORT
                },
                None => p == DEFAULT_PORT,
            },
        },
{
    match port {
        Some(x) => x,
        None => match env_port {
            Some(s) => match parse_port(s) {
                Some(x) => x,
                None => DEFAULT_PORT,
            },
            None => DEFAULT_PORT,
        },
    }
}

/// Picks the host: the explicit one wins, else the environment-supplied
/// value, else loopback.
pub fn resolve_host<'a>(host: Option<&'a str>, env_host: Option<&'a str>) -> (h: &'a str)
    ensures
        match host {
            Some(x) => h@ == x@,
            None => match env_host {
                Some(x) => h@ == x@,
                None => h@ == DEFAULT_HOST@,
            },
        },
{
    match host {
        Some(x) => x,
        None => match env_host {
            Some(x) => x,
            None => DEFAULT_HOST,
        },
    }
}

} // verus!
