//! Startup configuration: the listen port, the store's connection string and
//! the size of the connection pool, decided from the process environment.

use vstd::prelude::*;

verus! {

/// The most connections the pool keeps open to the store at once.
pub const POOL_MAX_CONNECTIONS: u32 = 5;

/// The port served when none is configured.
pub const DEFAULT_PORT: u16 = 8080;

/// Why the service refuses to start.
#[derive(Clone, Copy, Debug, PartialEq, Eq, Structural)]
pub enum StartupError {
    /// No connection string for the store was given.
    MissingDatabaseUrl,
    /// The configured port is not a decimal number from 0 to 65535.
    InvalidPort,
}

/// What the service needs to start serving.
#[derive(Clone, Debug, PartialEq, Eq)]
pub struct ServerConfig {
    pub port: u16,
    pub database_url: String,
    pub max_connections: u32,
}

/// An ASCII decimal digit.
pub open spec fn is_digit(c: char) -> bool {
    '0' <= c && c <= '9'
}

/// The value of a decimal digit.
pub open spec fn digit_value(c: char) -> nat {
    (c as nat - '0' as nat) as nat
}

/// The number that a run of decimal digits writes, most significant first.
pub open spec fn digits_value(d: Seq<char>) -> nat
    decreases d.len(),
{
    if d.len() == 0 {
        0
    } else {
        digits_value(d.drop_last()) * 10 + digit_value(d.last())
    }
}

/// The digits of a port text: all of it, or what follows one leading `+`.
pub open spec fn port_digits(s: Seq<char>) -> Seq<char> {
    if s.len() > 0 && s[0] == '+' {
        s.drop_first()
    } else {
        s
    }
}

/// A port text is one or more decimal digits, optionally after a `+`,
/// whose value fits in 16 bits.
pub open spec fn is_port_text(s: Seq<char>) -> bool {
    let d = port_digits(s);
    &&& d.len() > 0
    &&& forall|i: int| 0 <= i < d.len() ==> is_digit(#[trigger] d[i])
    &&& digits_value(d) <= 65535
}

proof fn lemma_digits_value_step(d: Seq<char>, i: int)
    requires
        0 <= i < d.len(),
    ensures
        digits_value(d.subrange(0, i + 1)) == digits_value(d.subrange(0, i)) * 10 + digit_value(
            d[i],
        ),
{
    assert(d.subrange(0, i + 1).drop_last() =~= d.subrange(0, i));
}

proof fn lemma_digits_value_grows(d: Seq<char>, k: int)
    requires
        0 <= k <= d.len(),
    ensures
        digits_value(d.subrange(0, k)) <= digits_value(d),
    decreases d.len() - k,
{
    if k < d.len() {
        lemma_digits_value_step(d, k);
        lemma_digits_value_grows(d, k + 1);
    } else {
        assert(d.subrange(0, k) =~= d);
    }
}

/// Reads a port number written in decimal.
pub fn parse_port(s: &str) -> (r: Option<u16>)
    ensures
        r.is_some() <==> is_port_text(s@),
        r.is_some() ==> r.unwrap() as nat == digits_value(port_digits(s@)),
{
    let n = s.unicode_len();
    let mut i: usize = 0;
    if n > 0 && s.get_char(0) == '+' {
        i = 1;
    }
    let start = i;
    let ghost d = port_digits(s@);
    assert(d =~= s@.subrange(start as int, n as int));
    if start == n {
        return None;
    }
    let mut value: u32 = 0;
    while i < n
        invariant
            start <= i <= n,
            n == s@.len(),
            d == s@.subrange(start as int, n as int),
            d == port_digits(s@),
            forall|j: int| 0 <= j < i - start ==> is_digit(#[trigger] d[j]),
            value as nat == digits_value(d.subrange(0, i - start)),
            value <= 65535,
        decreases n - i,
    {
        let c = s.get_char(i);
        proof {
            assert(d[i - start] == c);
        }
        if c < '0' || c > '9' {
            assert(!is_digit(d[i - start]));
            return None;
        }
        proof {
            lemma_digits_value_step(d, i - start);
        }
        let next: u32 = value * 10 + (c as u32 - '0' as u32);
        if next > 65535 {
            proof {
                assert(digit_value(c) == c as u32 - '0' as u32);
                assert(digits_value(d.subrange(0, i - start + 1)) == next);
                lemma_digits_value_grows(d, i - start + 1);
            }
            return None;
        }
        value = next;
        i = i + 1;
    }
    assert(d.subrange(0, n - start) =~= d);
    Some(value as u16)
}

/// Decides the startup configuration from the two environment values: the
/// store's connection string, which must be present, and the port, which
/// defaults when absent and must be a number when present.
pub fn startup_config(port_var: Option<String>, database_url: Option<String>) -> (r: Result<
    ServerConfig,
    StartupError,
>)
    ensures
        database_url.is_none() ==> r == Err::<ServerConfig, StartupError>(
            StartupError::MissingDatabaseUrl,
        ),
        database_url.is_some() && port_var.is_some() && !is_port_text(port_var.unwrap()@) ==> r
            == Err::<ServerConfig, StartupError>(StartupError::InvalidPort),
        r.is_ok() <==> database_url.is_some() && (port_var.is_none() || is_port_text(
            port_var.unwrap()@,
        )),
        r.is_ok() ==> r.unwrap().database_url == database_url.unwrap(),
        r.is_ok() ==> r.unwrap().max_connections == POOL_MAX_CONNECTIONS,
        r.is_ok() && port_var.is_none() ==> r.unwrap().port == DEFAULT_PORT,
        r.is_ok() && port_var.is_some() ==> r.unwrap().port as nat == digits_value(
            port_digits(port_var.unwrap()@),
        ),
{
    let database_url = match database_url {
        Some(url) => url,
        None => return Err(StartupError::MissingDatabaseUrl),
    };
    let port = match port_var {
        None => DEFAULT_PORT,
        Some(text) => match parse_port(text.as_str()) {
            Some(p) => p,
            None => return Err(StartupError::InvalidPort),
        },
    };
    Ok(ServerConfig { port, database_url, max_connections: POOL_MAX_CONNECTIONS })
}

} // verus!
