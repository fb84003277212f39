//! The startup input: upstream records and the pool built from them.

use vstd::prelude::*;
use vstd::string::StringExecFns;
use crate::model::fresh_pool;
use crate::pool::{LoadBalancer, PoolError};

verus! {

/// One upstream server as the configuration names it.
#[derive(Debug, PartialEq, Eq)]
pub struct Upstream {
    pub ip: String,
    pub port: u16,
}

/// The character of a decimal digit.
pub open spec fn digit_char(d: int) -> char {
    if d == 0 {
        '0'
    } else if d == 1 {
        '1'
    } else if d == 2 {
        '2'
    } else if d == 3 {
        '3'
    } else if d == 4 {
        '4'
    } else if d == 5 {
        '5'
    } else if d == 6 {
        '6'
    } else if d == 7 {
        '7'
    } else if d == 8 {
        '8'
    } else {
        '9'
    }
}

/// A number written in decimal, without leading zeros.
pub open spec fn decimal(n: nat) -> Seq<char>
    decreases n,
{
    if n < 10 {
        seq![digit_char(n as int)]
    } else {
        decimal(n / 10).push(digit_char((n % 10) as int))
    }
}

/// The address of an upstream: its host, a colon, its port in decimal.
pub open spec fn endpoint(ip: Seq<char>, port: nat) -> Seq<char> {
    ip + seq![':'] + decimal(port)
}

/// The addresses of a list of upstreams, in order.
pub open spec fn endpoints(upstreams: Seq<Upstream>) -> Seq<Seq<char>> {
    Seq::new(upstreams.len(), |i: int| endpoint(upstreams[i].ip@, upstreams[i].port as nat))
}

/// The text of one decimal digit.
fn digit_text(d: u16) -> (s: &'static str)
    requires
        d < 10,
    ensures
        s@ == seq![digit_char(d as int)],
{
    proof {
        reveal_strlit("0");
        reveal_strlit("1");
        reveal_strlit("2");
        reveal_strlit("3");
        reveal_strlit("4");
        reveal_strlit("5");
        reveal_strlit("6");
        reveal_strlit("7");
        reveal_strlit("8");
        reveal_strlit("9");
    }
    let s = if d == 0 {
        "0"
    } else if d == 1 {
        "1"
    } else if d == 2 {
        "2"
    } else if d == 3 {
        "3"
    } else if d == 4 {
        "4"
    } else if d == 5 {
        "5"
    } else if d == 6 {
        "6"
    } else if d == 7 {
        "7"
    } else if d == 8 {
        "8"
    } else {
        "9"
    };
    assert(s@ =~= seq![digit_char(d as int)]);
    s
}

/// Appends `n` in decimal to `text`.
fn append_decimal(text: &mut String, n: u16)
    ensures
        final(text)@ == old(text)@ + decimal(n as nat),
    decreases n,
{
    if n >= 10 {
        append_decimal(text, n / 10);
    }
    let ghost before = text@;
    text.append(digit_text(n % 10));
    assert(text@ =~= old(text)@ + decimal(n as nat));
}

impl Upstream {
    /// The address to connect to: `ip:port`.
    pub fn address(&self) -> (a: String)
        ensures
            a@ == endpoint(self.ip@, self.port as nat),
    {
        let mut a = self.ip.clone();
        proof {
            reveal_strlit(":");
        }
        a.append(":");
        assert(a@ =~= self.ip@ + seq![':']);
        append_decimal(&mut a, self.port);
        a
    }
}

/// The addresses of the upstreams, in the order given.
pub fn backend_addresses(upstreams: &Vec<Upstream>) -> (addrs: Vec<String>)
    ensures
        addrs@.len() == upstreams@.len(),
        forall|i: int| 0 <= i < addrs@.len() ==> (#[trigger] addrs@[i])@ == endpoints(upstreams@)[i],
{
    let n = upstreams.len();
    let mut addrs: Vec<String> = Vec::new();
    let mut i: usize = 0;
    while i < n
        invariant
            n == upstreams@.len(),
            i <= n,
            addrs@.len() == i,
            forall|k: int| 0 <= k < i ==> (#[trigger] addrs@[k])@ == endpoints(upstreams@)[k],
        decreases n - i,
    {
        addrs.push(upstreams[i].address());
        i += 1;
    }
    addrs
}

/// Builds the pool that the balancer starts with: one healthy backend per
/// upstream, in the order given. An empty list is refused, so the balancer
/// never starts without a backend.
pub fn build_pool(upstreams: &Vec<Upstream>) -> (r: Result<LoadBalancer, PoolError>)
    ensures
        upstreams@.len() == 0 <==> r == Err::<LoadBalancer, PoolError>(PoolError::NoBackends),
        upstreams@.len() > 0 ==> r is Ok && r->Ok_0@ == fresh_pool(endpoints(upstreams@)),
{
    let addrs = backend_addresses(upstreams);
    let ghost given = Seq::new(addrs@.len(), |i: int| addrs@[i]@);
    assert(given =~= endpoints(upstreams@));
    LoadBalancer::new(addrs)
}

} // verus!
