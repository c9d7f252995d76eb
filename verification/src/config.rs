//! Server configuration and the rendering of the address the listener
//! binds: `host:port`, with the port written in decimal.

use vstd::prelude::*;
use vstd::string::*;

verus! {

/// The character for one decimal digit.
pub open spec fn digit_char(d: nat) -> char {
    if d == 0 {
        '0'
    } else if d == 1 {
        '1'
    } else if d == 2 {
        '2'
    } else if d == 3 {
        '3'
    } else if d == 4 {
        '4'
    } else if d == 5 {
        '5'
    } else if d == 6 {
        '6'
    } else if d == 7 {
        '7'
    } else if d == 8 {
        '8'
    } else {
        '9'
    }
}

/// The decimal digits of `n`, most significant first, without leading
/// zeros (`0` itself is the single digit `'0'`).
pub open spec fn decimal_digits(n: nat) -> Seq<char>
    decreases n,
{
    if n < 10 {
        seq![digit_char(n)]
    } else {
        decimal_digits(n / 10).push(digit_char(n % 10))
    }
}

/// The address a configuration binds: the host, a colon, the port in
/// decimal.
pub open spec fn bind_address_spec(host: Seq<char>, port: u16) -> Seq<char> {
    host + seq![':'] + decimal_digits(port as nat)
}

/// Immutable configuration of one service instance. `timeout` is reserved
/// for future per-request limits and is not read by the lifecycle core.
#[derive(Clone, Debug)]
pub struct ServerConfig {
    pub host: String,
    pub port: u16,
    pub timeout: u64,
}

impl PartialEq for ServerConfig {
    fn eq(&self, other: &ServerConfig) -> (r: bool) {
        self.host == other.host && self.port == other.port && self.timeout == other.timeout
    }
}

impl vstd::std_specs::cmp::PartialEqSpecImpl for ServerConfig {
    open spec fn obeys_eq_spec() -> bool {
        true
    }

    open spec fn eq_spec(&self, other: &ServerConfig) -> bool {
        self.host@ == other.host@ && self.port == other.port && self.timeout == other.timeout
    }
}

impl ServerConfig {
    /// The address the listener binds for this configuration.
    pub fn bind_address(&self) -> (r: String)
        ensures
            r@ == bind_address_spec(self.host@, self.port),
    {
        let mut out = self.host.clone();
        out.append(":");
        proof {
            reveal_strlit(":");
            assert((":")@ =~= seq![':']);
        }
        push_decimal(&mut out, self.port);
        proof {
            assert(out@ =~= bind_address_spec(self.host@, self.port));
        }
        out
    }
}

/// The one-character string for a decimal digit.
fn digit_str(d: u16) -> (r: &'static str)
    requires
        d < 10,
    ensures
        r@ =~= seq![digit_char(d as nat)],
{
    proof {
        reveal_strlit("0");
        reveal_strlit("1");
        reveal_strlit("2");
        reveal_strlit("3");
        reveal_strlit("4");
        reveal_strlit("5");
        reveal_strlit("6");
        reveal_strlit("7");
        reveal_strlit("8");
        reveal_strlit("9");
    }
    match d {
        0 => "0",
        1 => "1",
        2 => "2",
        3 => "3",
        4 => "4",
        5 => "5",
        6 => "6",
        7 => "7",
        8 => "8",
        _ => "9",
    }
}

/// Appends the decimal digits of `n` to `out`, most significant first.
fn push_decimal(out: &mut String, n: u16)
    ensures
        final(out)@ == old(out)@ + decimal_digits(n as nat),
    decreases n,
{
    if n >= 10 {
        push_decimal(out, n / 10);
        let d = n % 10;
        out.append(digit_str(d));
        proof {
            assert(out@ =~= old(out)@ + decimal_digits(n as nat));
        }
    } else {
        out.append(digit_str(n));
    }
}

} // verus!
