//! The loopback endpoint on which the sidecar serves the interface.
use vstd::prelude::*;
use vstd::string::*;

verus! {

/// The loopback port that the sidecar listens on.
pub const FRONTEND_PORT: u16 = 3100;

/// The loopback host that the sidecar binds.
pub open spec fn host_spec() -> Seq<char> {
    "127.0.0.1"@
}

/// The character of a decimal digit.
pub open spec fn digit_char(d: nat) -> char {
    if d == 0 { '0' }
    else if d == 1 { '1' }
    else if d == 2 { '2' }
    else if d == 3 { '3' }
    else if d == 4 { '4' }
    else if d == 5 { '5' }
    else if d == 6 { '6' }
    else if d == 7 { '7' }
    else if d == 8 { '8' }
    else { '9' }
}

/// The decimal spelling of a natural number, without leading zeros.
pub open spec fn decimal_of(n: nat) -> Seq<char>
    decreases n,
{
    if n < 10 {
        seq![digit_char(n)]
    } else {
        decimal_of(n / 10).push(digit_char(n % 10))
    }
}

/// `host:port` of the sidecar.
pub open spec fn address_spec() -> Seq<char> {
    host_spec() + ":"@ + decimal_of(FRONTEND_PORT as nat)
}

/// The URL at which the sidecar serves the interface.
pub open spec fn frontend_url_spec() -> Seq<char> {
    "http://"@ + address_spec()
}

fn digit_text(d: u16) -> (r: String)
    requires
        d < 10,
    ensures
        r@ == seq![digit_char(d as nat)],
{
    let digits = "0123456789";
    proof {
        reveal_strlit("0123456789");
    }
    let piece = digits.substring_char(d as usize, d as usize + 1);
    assert(piece@ =~= seq![digit_char(d as nat)]);
    String::from_str(piece)
}

/// The decimal spelling of `n`.
pub fn decimal_text(n: u16) -> (r: String)
    ensures
        r@ == decimal_of(n as nat),
    decreases n,
{
    if n < 10 {
        digit_text(n)
    } else {
        let mut r = decimal_text(n / 10);
        let last = digit_text(n % 10);
        r.append(last.as_str());
        assert(r@ =~= decimal_of(n as nat));
        r
    }
}

/// The text `host:port` from which a prober builds its socket address.
pub fn probe_address() -> (r: String)
    ensures
        r@ == address_spec(),
{
    let mut r = String::from_str("127.0.0.1");
    r.append(":");
    let port = decimal_text(FRONTEND_PORT);
    r.append(port.as_str());
    proof {
        reveal_strlit("127.0.0.1");
        reveal_strlit(":");
    }
    r
}

/// The URL at which the sidecar serves the interface, `http://127.0.0.1:3100`.
pub fn frontend_url() -> (r: String)
    ensures
        r@ == frontend_url_spec(),
        r@ == "http://127.0.0.1:3100"@,
{
    let mut r = String::from_str("http://");
    let address = probe_address();
    r.append(address.as_str());
    proof {
        reveal_strlit("http://");
        reveal_strlit("127.0.0.1");
        reveal_strlit(":");
        reveal_strlit("http://127.0.0.1:3100");
        reveal_with_fuel(decimal_of, 5);
        assert(decimal_of(3100) =~= seq!['3', '1', '0', '0']);
        assert(r@ =~= "http://127.0.0.1:3100"@);
    }
    r
}

} // verus!
