//! Startup configuration: the listen host and port, resolved from optional
//! environment text, and the liveness route's fixed reply.
//!
//! A port is given as a decimal numeral; anything else is rejected, so that
//! the process can fail fast instead of binding to a port it was not asked
//! for.

use vstd::prelude::*;

verus! {

use vstd::string::StrSliceExecFns;

/// Port used when the environment names none.
pub const DEFAULT_PORT: u16 = 3000;

/// `c` is an ASCII decimal digit.
pub open spec fn is_dec_digit(c: char) -> bool {
    48 <= c as u32 <= 57
}

/// Numeric value of a decimal digit.
pub open spec fn digit_value(c: char) -> int {
    c as u32 - 48
}

/// Every character of `s` is a decimal digit.
pub open spec fn all_dec_digits(s: Seq<char>) -> bool {
    forall|i: int| 0 <= i < s.len() ==> is_dec_digit(s[i])
}

/// Value of `s` read as a decimal numeral, most significant digit first.
pub open spec fn dec_value(s: Seq<char>) -> int
    decreases s.len(),
{
    if s.len() == 0 {
        0
    } else {
        dec_value(s.drop_last()) * 10 + digit_value(s.last())
    }
}

/// `s` denotes a port: a non-empty run of decimal digits whose value fits
/// in sixteen bits.
pub open spec fn is_port_numeral(s: Seq<char>) -> bool {
    &&& s.len() > 0
    &&& all_dec_digits(s)
    &&& dec_value(s) <= 65535
}

proof fn lemma_dec_value_nonneg(s: Seq<char>)
    requires
        all_dec_digits(s),
    ensures
        dec_value(s) >= 0,
    decreases s.len(),
{
    if s.len() > 0 {
        assert forall|i: int| 0 <= i < s.drop_last().len() implies is_dec_digit(
            s.drop_last()[i],
        ) by {
            assert(s.drop_last()[i] == s[i]);
        }
        lemma_dec_value_nonneg(s.drop_last());
    }
}

proof fn lemma_dec_value_prefix_le(s: Seq<char>, i: int)
    requires
        all_dec_digits(s),
        0 <= i <= s.len(),
    ensures
        dec_value(s.take(i)) <= dec_value(s),
    decreases s.len() - i,
{
    if i < s.len() {
        assert forall|k: int| 0 <= k < s.take(i).len() implies is_dec_digit(s.take(i)[k]) by {
            assert(s.take(i)[k] == s[k]);
        }
        lemma_dec_value_nonneg(s.take(i));
        assert(s.take(i + 1).drop_last() =~= s.take(i));
        assert(s.take(i + 1).last() == s[i]);
        lemma_dec_value_prefix_le(s, i + 1);
    } else {
        assert(s.take(i) =~= s);
    }
}

/// Reads `s` as a decimal port number. Returns the value exactly when `s`
/// is a non-empty digit string whose value is at most 65535; any other
/// text — empty, a stray character, too large a value — yields `None`.
pub fn parse_port(s: &str) -> (r: Option<u16>)
    ensures
        r is Some <==> is_port_numeral(s@),
        (r matches Some(p) ==> p == dec_value(s@)),
{
    let n = s.unicode_len();
    if n == 0 {
        return None;
    }
    let mut acc: u32 = 0;
    let mut i: usize = 0;
    while i < n
        invariant
            0 < n == s@.len(),
            i <= n,
            forall|k: int| 0 <= k < i ==> is_dec_digit(s@[k]),
            acc == dec_value(s@.take(i as int)),
            acc <= 65535,
        decreases n - i,
    {
        let c = s.get_char(i);
        let d = c as u32;
        if d < 48 || d > 57 {
            return None;
        }
        proof {
            assert(s@.take(i as int + 1).drop_last() =~= s@.take(i as int));
            assert(s@.take(i as int + 1).last() == s@[i as int]);
        }
        let next: u32 = acc * 10 + (d - 48);
        if next > 65535 {
            proof {
                if all_dec_digits(s@) {
                    lemma_dec_value_prefix_le(s@, i as int + 1);
                }
            }
            return None;
        }
        acc = next;
        i = i + 1;
    }
    proof {
        assert(s@.take(n as int) =~= s@);
    }
    Some(acc as u16)
}

/// The host to bind when the environment names none.
pub fn default_host() -> (r: String)
    ensures
        r@ == "127.0.0.1"@,
{
    "127.0.0.1".to_owned()
}

/// The bind host: the environment's value when one is set, the loopback
/// address otherwise.
pub fn resolve_host(env_host: Option<String>) -> (r: String)
    ensures
        (match env_host {
            Some(h) => r@ == h@,
            None => r@ == "127.0.0.1"@,
        }),
{
    match env_host {
        Some(h) => h,
        None => default_host(),
    }
}

/// The bind port: the default when the environment names none, otherwise
/// the environment's text read as a numeral. `None` marks invalid text,
/// on which startup must fail rather than fall back to the default.
pub fn resolve_port(env_port: Option<&str>) -> (r: Option<u16>)
    ensures
        env_port is None ==> r == Some(DEFAULT_PORT),
        (match env_port {
            Some(s) => {
                &&& (r is Some <==> is_port_numeral(s@))
                &&& (r matches Some(p) ==> p == dec_value(s@))
            },
            None => true,
        }),
{
    match env_port {
        None => Some(DEFAULT_PORT),
        Some(s) => parse_port(s),
    }
}

/// The liveness route's reply: fixed text, independent of every reader's
/// state.
pub fn health_message() -> (r: String)
    ensures
        r@ == "System Monitor is running!"@,
{
    "System Monitor is running!".to_owned()
}

} // verus!
