//! Proxy types, the proxy pool, and the URLs the checker routes through.
//!
//! A checker run routes every request through one proxy endpoint drawn at
//! random from a pool. The pool is loaded from newline-delimited endpoint
//! strings, except for the Tor proxy type, which always uses a fixed local
//! SOCKS endpoint and never reads an endpoint list.

use vstd::prelude::*;

use crate::strutil::str_eq;

verus! {

/// Which proxy protocol the checker routes its requests through.
#[derive(Clone, Copy, Debug, PartialEq, Eq, Structural)]
pub enum ProxyType {
    Http,
    Socks4,
    Socks5,
    Tor,
}

/// The given word names none of the four proxy types.
#[derive(Clone, Copy, Debug, PartialEq, Eq, Structural)]
pub struct ParseProxyTypeError;

/// What `ProxyType::from_str` returns for each input string.
pub open spec fn parse_proxy_type(s: Seq<char>) -> Result<ProxyType, ParseProxyTypeError> {
    if s == "http"@ {
        Ok(ProxyType::Http)
    } else if s == "socks4"@ {
        Ok(ProxyType::Socks4)
    } else if s == "socks5"@ {
        Ok(ProxyType::Socks5)
    } else if s == "tor"@ {
        Ok(ProxyType::Tor)
    } else {
        Err(ParseProxyTypeError)
    }
}

/// The scheme written in front of the proxy endpoint itself.
pub open spec fn inner_scheme_of(pt: ProxyType) -> Seq<char> {
    match pt {
        ProxyType::Http => "http"@,
        ProxyType::Socks4 => "socks4"@,
        ProxyType::Socks5 => "socks5h"@,
        ProxyType::Tor => "socks5h"@,
    }
}

/// The scheme of the checked endpoint: plain HTTP only for HTTP proxies.
pub open spec fn outer_scheme_of(pt: ProxyType) -> Seq<char> {
    if pt == ProxyType::Http {
        "http"@
    } else {
        "https"@
    }
}

impl ProxyType {
    /// Parses one of the words `http`, `socks4`, `socks5`, `tor`.
    pub fn from_str(s: &str) -> (r: Result<ProxyType, ParseProxyTypeError>)
        ensures
            r == parse_proxy_type(s@),
    {
        if str_eq(s, "http") {
            Ok(ProxyType::Http)
        } else if str_eq(s, "socks4") {
            Ok(ProxyType::Socks4)
        } else if str_eq(s, "socks5") {
            Ok(ProxyType::Socks5)
        } else if str_eq(s, "tor") {
            Ok(ProxyType::Tor)
        } else {
            Err(ParseProxyTypeError)
        }
    }

    /// The scheme the proxy itself is addressed with.
    pub fn inner_scheme(&self) -> (r: &'static str)
        ensures
            r@ == inner_scheme_of(*self),
    {
        match self {
            ProxyType::Http => "http",
            ProxyType::Socks4 => "socks4",
            ProxyType::Socks5 => "socks5h",
            ProxyType::Tor => "socks5h",
        }
    }

    /// The scheme of the request sent through the proxy.
    pub fn outer_scheme(&self) -> (r: &'static str)
        ensures
            r@ == outer_scheme_of(*self),
    {
        if *self == ProxyType::Http {
            "http"
        } else {
            "https"
        }
    }

    /// Whether a run with this proxy type reads an endpoint list at all;
    /// Tor never does.
    pub fn needs_proxy_file(&self) -> (r: bool)
        ensures
            r == (*self != ProxyType::Tor),
    {
        !(*self == ProxyType::Tor)
    }
}

/// The fixed local SOCKS endpoint used whenever the proxy type is Tor.
pub open spec fn tor_endpoint() -> Seq<char> {
    "127.0.0.1:9050"@
}

/// A proxy pool that is required but holds no endpoint is unusable.
#[derive(Clone, Copy, Debug, PartialEq, Eq, Structural)]
pub struct EmptyPoolError;

/// An immutable, non-empty list of proxy endpoints, shared by all check
/// tasks; each task draws one endpoint at random.
pub struct ProxyPool {
    endpoints: Vec<String>,
}

impl View for ProxyPool {
    type V = Seq<Seq<char>>;

    closed spec fn view(&self) -> Seq<Seq<char>> {
        self.endpoints.deep_view()
    }
}

impl ProxyPool {
    /// A usable pool holds at least one endpoint.
    pub open spec fn wf(&self) -> bool {
        self@.len() > 0
    }

    /// Builds the pool for a run: the fixed Tor endpoint when the proxy
    /// type is Tor (the given lines are then ignored), otherwise exactly
    /// the given endpoint lines, which must not be empty. The lines are
    /// kept as given, empty ones included: the pool never filters.
    pub fn load(pt: ProxyType, lines: Vec<String>) -> (r: Result<ProxyPool, EmptyPoolError>)
        ensures
            r is Ok <==> (pt == ProxyType::Tor || lines@.len() > 0),
            match r {
                Ok(pool) => pool.wf() && (if pt == ProxyType::Tor {
                    pool@ == seq![tor_endpoint()]
                } else {
                    pool@ == lines.deep_view()
                }),
                Err(e) => e == EmptyPoolError,
            },
    {
        if pt == ProxyType::Tor {
            let endpoints = vec![String::from_str("127.0.0.1:9050")];
            let pool = ProxyPool { endpoints };
            proof {
                assert(pool@ =~= seq![tor_endpoint()]);
            }
            Ok(pool)
        } else if lines.len() == 0 {
            Err(EmptyPoolError)
        } else {
            let pool = ProxyPool { endpoints: lines };
            proof {
                assert(pool@.len() == pool.endpoints@.len());
            }
            Ok(pool)
        }
    }

    /// How many endpoints the pool holds.
    pub fn len(&self) -> (r: usize)
        ensures
            r == self@.len(),
    {
        proof {
            assert(self@.len() == self.endpoints@.len());
        }
        self.endpoints.len()
    }

    /// Draws one endpoint from the pool, uniformly at random; every task
    /// makes its own independent draw.
    pub fn pick(&self) -> (r: &String)
        requires
            self.wf(),
        ensures
            exists|i: int| 0 <= i < self@.len() && r@ == self@[i],
    {
        proof {
            assert(self@.len() == self.endpoints@.len());
        }
        let i = random_index(self.endpoints.len());
        let r = &self.endpoints[i];
        proof {
            assert(r@ == self@[i as int]);
        }
        r
    }
}

/// Relies on rand's `Rng::gen_range`: for a non-empty range `0..n` it
/// returns a value drawn from that range, so the result is below `n`.
#[verifier::external_body]
fn random_index(n: usize) -> (r: usize)
    requires
        n > 0,
    ensures
        r < n,
{
    rand::Rng::gen_range(&mut rand::thread_rng(), 0..n)
}

/// The address a check task's HTTP client is routed through:
/// the proxy scheme, `://`, and the chosen endpoint.
pub open spec fn proxy_url_of(pt: ProxyType, endpoint: Seq<char>) -> Seq<char> {
    inner_scheme_of(pt) + "://"@ + endpoint
}

/// Builds the proxy address for one check task.
pub fn proxy_url(pt: ProxyType, endpoint: &str) -> (r: String)
    ensures
        r@ == proxy_url_of(pt, endpoint@),
{
    let mut s = String::from_str(pt.inner_scheme());
    s.append("://");
    s.append(endpoint);
    s
}

} // verus!
