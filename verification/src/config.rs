//! Launch configuration: the listening port, taken from the environment's
//! PORT text when one is set, with a fixed default otherwise. Text that is
//! not a 16-bit decimal number refuses startup.

use vstd::prelude::*;
use vstd::string::StrSliceExecFns;

verus! {

/// The port served when the environment sets none.
pub const DEFAULT_PORT: u16 = 8000;

/// A decimal digit.
pub open spec fn is_digit(c: char) -> bool {
    48 <= c as u32 && c as u32 <= 57
}

/// The digit's numeric value.
pub open spec fn digit_value(c: char) -> int {
    c as u32 - 48
}

/// Nonempty text made of decimal digits only.
pub open spec fn is_decimal(s: Seq<char>) -> bool {
    s.len() > 0 && forall|i: int| 0 <= i < s.len() ==> is_digit(s[i])
}

/// The number the digits denote, read left to right.
pub open spec fn decimal_value(s: Seq<char>) -> int
    decreases s.len(),
{
    if s.len() == 0 {
        0
    } else {
        decimal_value(s.drop_last()) * 10 + digit_value(s.last())
    }
}

/// Digits denote a nonnegative number.
proof fn lemma_decimal_nonneg(s: Seq<char>)
    requires
        forall|j: int| 0 <= j < s.len() ==> is_digit(s[j]),
    ensures
        decimal_value(s) >= 0,
    decreases s.len(),
{
    if s.len() > 0 {
        lemma_decimal_nonneg(s.drop_last());
    }
}

/// One more digit multiplies the prefix's value by ten and adds the digit.
proof fn lemma_decimal_step(s: Seq<char>, i: int)
    requires
        0 <= i < s.len(),
    ensures
        decimal_value(s.take(i + 1)) == decimal_value(s.take(i)) * 10 + digit_value(s[i]),
{
    assert(s.take(i + 1).drop_last() =~= s.take(i));
    assert(s.take(i + 1).last() == s[i]);
}

/// Reading further digits never lowers the value: a prefix's value bounds
/// the whole text's value from below.
proof fn lemma_decimal_prefix_bound(s: Seq<char>, i: int)
    requires
        0 <= i <= s.len(),
        forall|j: int| 0 <= j < s.len() ==> is_digit(s[j]),
    ensures
        decimal_value(s.take(i)) <= decimal_value(s),
    decreases s.len() - i,
{
    if i == s.len() {
        assert(s.take(i) =~= s);
    } else {
        lemma_decimal_step(s, i);
        lemma_decimal_nonneg(s.take(i));
        lemma_decimal_prefix_bound(s, i + 1);
    }
}

/// Reads a port number: the text must be decimal digits denoting a value
/// that fits in sixteen bits, and the result is exactly that value.
pub fn parse_port(s: &str) -> (r: Option<u16>)
    ensures
        match r {
            Some(p) => is_decimal(s@) && decimal_value(s@) == p as int,
            None => !is_decimal(s@) || decimal_value(s@) > 65535,
        },
{
    let n = s.unicode_len();
    if n == 0 {
        return None;
    }
    let mut i: usize = 0;
    let mut acc: u32 = 0;
    while i < n
        invariant
            n == s@.len(),
            0 < n,
            i <= n,
            forall|j: int| 0 <= j < i ==> is_digit(s@[j]),
            acc as int == decimal_value(s@.take(i as int)),
            acc <= 65535,
        decreases n - i,
    {
        let c = s.get_char(i);
        let u = c as u32;
        if u < 48 || u > 57 {
            proof {
                assert(!is_digit(s@[i as int]));
            }
            return None;
        }
        let next = acc * 10 + (u - 48);
        proof {
            lemma_decimal_step(s@, i as int);
        }
        if next > 65535 {
            proof {
                if is_decimal(s@) {
                    lemma_decimal_prefix_bound(s@, i as int + 1);
                }
            }
            return None;
        }
        acc = next;
        i = i + 1;
    }
    proof {
        assert(s@.take(n as int) =~= s@);
    }
    Some(acc as u16)
}

/// The service's resolved launch configuration.
pub struct ServiceConfig {
    /// The port the listener binds.
    pub port: u16,
}

/// Why the configuration was refused.
#[derive(Clone, Copy, Debug, PartialEq, Eq, Structural)]
pub enum ConfigError {
    /// The PORT text is not a valid 16-bit decimal number.
    InvalidPort,
}

/// Resolves the launch configuration, as the launch step does: with no PORT
/// text the default port stands; otherwise the text must denote a 16-bit
/// number, and anything else refuses startup.
pub fn rocket(port_env: Option<&str>) -> (r: Result<ServiceConfig, ConfigError>)
    ensures
        match port_env {
            None => r == Ok::<ServiceConfig, ConfigError>(
                (ServiceConfig { port: DEFAULT_PORT }),
            ),
            Some(s) => match r {
                Ok(c) => is_decimal(s@) && decimal_value(s@) == c.port as int,
                Err(e) => e == ConfigError::InvalidPort && (!is_decimal(s@) || decimal_value(s@)
                    > 65535),
            },
        },
{
    match port_env {
        None => Ok(ServiceConfig { port: DEFAULT_PORT }),
        Some(s) => match parse_port(s) {
            Some(p) => Ok(ServiceConfig { port: p }),
            None => Err(ConfigError::InvalidPort),
        },
    }
}

} // verus!
