//! Startup configuration: the listen port and the two backend connection
//! URLs, derived from the values the environment supplied. Missing or
//! invalid required values are fatal at startup; the port falls back to a
//! default when absent.

use vstd::prelude::*;

verus! {

/// Port used when the environment does not name one.
pub const DEFAULT_PORT: u16 = 5000;

/// Effective startup configuration.
#[derive(Clone, Debug, PartialEq)]
pub struct Args {
    pub port: u16,
    pub mongodb_url: String,
    pub elasticsearch_url: String,
}

/// Why the startup configuration could not be built. Any of these is fatal:
/// the process must exit without serving.
#[derive(Clone, Copy, Debug, PartialEq, Eq, Structural)]
pub enum ConfigError {
    /// The port variable was present but is not a valid port number.
    InvalidPort,
    /// The document-store URL is required and was absent.
    MissingMongodbUrl,
    /// The search-index URL is required and was absent.
    MissingElasticsearchUrl,
}

/// An ASCII decimal digit.
pub open spec fn is_digit(b: u8) -> bool {
    48 <= b && b <= 57
}

/// The numeric value of a digit byte (zero for anything below `'0'`, which
/// the digit-only preconditions rule out where it matters).
pub open spec fn digit_val(b: u8) -> nat {
    if 48 <= b {
        (b - 48) as nat
    } else {
        0
    }
}

/// Every byte of the sequence is an ASCII decimal digit.
pub open spec fn all_digits(s: Seq<u8>) -> bool {
    forall|i: int| 0 <= i < s.len() ==> is_digit(#[trigger] s[i])
}

/// The value of a big-endian decimal digit string.
pub open spec fn dec_value(s: Seq<u8>) -> nat
    decreases s.len(),
{
    if s.len() == 0 {
        0
    } else {
        dec_value(s.drop_last()) * 10 + digit_val(s.last())
    }
}

/// The digit part of a port string: everything after one optional leading
/// plus sign.
pub open spec fn port_digits(s: Seq<u8>) -> Seq<u8> {
    if s.len() > 0 && s[0] == 43 {
        s.skip(1)
    } else {
        s
    }
}

/// A valid port string: an optional leading plus sign, then at least one
/// digit and nothing else, with a value that fits in sixteen bits.
pub open spec fn is_valid_port(s: Seq<u8>) -> bool {
    let d = port_digits(s);
    d.len() > 0 && all_digits(d) && dec_value(d) <= u16::MAX
}

/// The port value a valid port string denotes.
pub open spec fn spec_port(s: Seq<u8>) -> nat {
    dec_value(port_digits(s))
}

/// Extending a digit string by one digit multiplies its value by ten and
/// adds the digit, so the value never shrinks along a prefix.
proof fn lemma_dec_value_prefix(s: Seq<u8>, i: int)
    requires
        0 <= i <= s.len(),
    ensures
        dec_value(s) >= dec_value(s.take(i)),
    decreases s.len() - i,
{
    if i < s.len() {
        lemma_dec_value_prefix(s, i + 1);
        assert(s.take(i + 1).drop_last() =~= s.take(i));
        assert(s.take(i + 1).last() == s[i]);
        assert(dec_value(s.take(i + 1)) == dec_value(s.take(i)) * 10 + digit_val(s[i]));
    } else {
        assert(s.take(i) =~= s);
    }
}

/// Parses a port number the way the startup code needs it: `Some` with the
/// denoted value exactly on valid port strings, `None` on everything else.
pub fn parse_port(s: &[u8]) -> (r: Option<u16>)
    ensures
        match r {
            Some(p) => is_valid_port(s@) && p as nat == spec_port(s@),
            None => !is_valid_port(s@),
        },
{
    let n = s.len();
    let start: usize = if n > 0 && s[0] == 43 {
        1
    } else {
        0
    };
    let ghost d = port_digits(s@);
    proof {
        assert(d =~= s@.skip(start as int));
    }
    if start == n {
        return None;
    }
    let mut acc: u32 = 0;
    let mut i: usize = start;
    while i < n
        invariant
            start <= i <= n,
            n == s@.len(),
            start <= 1,
            d == port_digits(s@),
            d =~= s@.skip(start as int),
            all_digits(d.take(i - start)),
            acc as nat == dec_value(d.take(i - start)),
            acc <= u16::MAX,
        decreases n - i,
    {
        let b = s[i];
        proof {
            assert(d[i - start] == s@[i as int]);
        }
        if !(48 <= b && b <= 57) {
            proof {
                assert(!is_digit(d[i - start]));
            }
            return None;
        }
        let acc2: u32 = acc * 10 + (b - 48) as u32;
        proof {
            assert(d.take(i - start + 1).drop_last() =~= d.take(i - start));
            assert(d.take(i - start + 1).last() == d[i - start]);
            assert(dec_value(d.take(i - start + 1)) == dec_value(d.take(i - start)) * 10
                + digit_val(d[i - start]));
        }
        if acc2 > 65535 {
            proof {
                assert(dec_value(d.take(i - start + 1)) == acc2 as nat);
                lemma_dec_value_prefix(d, i - start + 1);
            }
            return None;
        }
        acc = acc2;
        i = i + 1;
    }
    proof {
        assert(d.take(i - start) =~= d);
    }
    Some(acc as u16)
}

/// Whether the port part of the environment is acceptable: an absent
/// variable falls back to the default, a present one must be valid.
pub open spec fn port_ok(port_env: Option<Vec<u8>>) -> bool {
    match port_env {
        None => true,
        Some(p) => is_valid_port(p@),
    }
}

/// The effective port for an acceptable port environment value.
pub open spec fn spec_effective_port(port_env: Option<Vec<u8>>) -> nat {
    match port_env {
        None => DEFAULT_PORT as nat,
        Some(p) => spec_port(p@),
    }
}

/// Builds the startup configuration from the raw environment values:
/// the optional port string, and the two required backend URLs. Succeeds
/// exactly when the port (if present) is valid and both URLs are present;
/// the first problem, checked in that order, is reported otherwise.
pub fn make_args(
    port_env: Option<Vec<u8>>,
    mongodb_url: Option<String>,
    elasticsearch_url: Option<String>,
) -> (r: Result<Args, ConfigError>)
    ensures
        match r {
            Ok(args) => {
                &&& port_ok(port_env)
                &&& mongodb_url is Some
                &&& elasticsearch_url is Some
                &&& args.port as nat == spec_effective_port(port_env)
                &&& (match mongodb_url {
                    Some(u) => args.mongodb_url == u,
                    None => false,
                })
                &&& (match elasticsearch_url {
                    Some(u) => args.elasticsearch_url == u,
                    None => false,
                })
            },
            Err(e) => {
                if !port_ok(port_env) {
                    e == ConfigError::InvalidPort
                } else if mongodb_url is None {
                    e == ConfigError::MissingMongodbUrl
                } else if elasticsearch_url is None {
                    e == ConfigError::MissingElasticsearchUrl
                } else {
                    false
                }
            },
        },
{
    let port: u16 = match port_env {
        None => DEFAULT_PORT,
        Some(p) => match parse_port(p.as_slice()) {
            Some(v) => v,
            None => {
                return Err(ConfigError::InvalidPort);
            },
        },
    };
    let mongodb_url: String = match mongodb_url {
        Some(u) => u,
        None => {
            return Err(ConfigError::MissingMongodbUrl);
        },
    };
    let elasticsearch_url: String = match elasticsearch_url {
        Some(u) => u,
        None => {
            return Err(ConfigError::MissingElasticsearchUrl);
        },
    };
    Ok(Args { port, mongodb_url, elasticsearch_url })
}

} // verus!
