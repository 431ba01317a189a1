//! Server options: root directory, port, and the reload switch.
//!
//! The command line itself is read by the surrounding process; this
//! module turns the raw values it hands over into options, in particular
//! the port text, which falls back to the default port when it is not a
//! decimal number a port can hold.

use vstd::prelude::*;
use vstd::string::*;

verus! {

/// The port served when none is asked for, and when the port text is bad.
pub const DEFAULT_PORT: u16 = 3000;

/// What the server runs with.
#[derive(Debug)]
pub struct Opts {
    /// Root directory of the files served.
    pub directory: String,
    /// TCP port to bind.
    pub port: u16,
    /// True turns the whole watcher/reload pipeline off.
    pub no_auto_reload: bool,
}

/// A decimal digit, by code point: `'0'` through `'9'`.
pub open spec fn is_dec_digit(c: char) -> bool {
    48 <= c as int && c as int <= 57
}

/// The digits of a port text: a single leading `+` is tolerated, as the
/// standard unsigned parse tolerates it.
pub open spec fn digits_part(s: Seq<char>) -> Seq<char> {
    if s.len() > 0 && s[0] == '+' {
        s.drop_first()
    } else {
        s
    }
}

/// The number the digit sequence denotes, most significant digit first.
pub open spec fn dec_value(s: Seq<char>) -> int
    decreases s.len(),
{
    if s.len() == 0 {
        0
    } else {
        dec_value(s.drop_last()) * 10 + (s.last() as int - 48)
    }
}

/// A port text is valid when, after the optional `+`, it is one or more
/// decimal digits whose value fits a port number.
pub open spec fn is_valid_port(s: Seq<char>) -> bool {
    let d = digits_part(s);
    &&& d.len() > 0
    &&& forall|i: int| 0 <= i < d.len() ==> is_dec_digit(#[trigger] d[i])
    &&& dec_value(d) <= u16::MAX
}

/// The port a text denotes, or the default port when the text is bad.
pub open spec fn port_or_default(s: Seq<char>) -> u16 {
    if is_valid_port(s) {
        dec_value(digits_part(s)) as u16
    } else {
        DEFAULT_PORT
    }
}

/// The value of a digit sequence never shrinks as digits are appended,
/// and is never negative.
proof fn lemma_dec_value_prefix(s: Seq<char>, k: int)
    requires
        forall|i: int| 0 <= i < s.len() ==> is_dec_digit(#[trigger] s[i]),
        0 <= k <= s.len(),
    ensures
        0 <= dec_value(s.subrange(0, k)) <= dec_value(s),
    decreases s.len() - k,
{
    if k == s.len() {
        assert(s.subrange(0, k) =~= s);
        lemma_dec_value_nonneg(s);
    } else {
        lemma_dec_value_prefix(s, k + 1);
        assert(s.subrange(0, k + 1).drop_last() =~= s.subrange(0, k));
        lemma_dec_value_nonneg(s.subrange(0, k));
    }
}

/// A digit sequence denotes a non-negative number.
proof fn lemma_dec_value_nonneg(s: Seq<char>)
    requires
        forall|i: int| 0 <= i < s.len() ==> is_dec_digit(#[trigger] s[i]),
    ensures
        dec_value(s) >= 0,
    decreases s.len(),
{
    if s.len() > 0 {
        lemma_dec_value_nonneg(s.drop_last());
    }
}

/// Parse the port text: its number if it is a valid port, the default
/// port on anything else — an empty text, a stray character, or a number
/// too large for a port.
pub fn parse_port(s: &str) -> (p: u16)
    ensures
        p == port_or_default(s@),
{
    let n = s.unicode_len();
    let start: usize = if n > 0 && s.get_char(0) == '+' {
        1
    } else {
        0
    };
    proof {
        assert(digits_part(s@) =~= s@.subrange(start as int, n as int));
    }
    if start == n {
        return DEFAULT_PORT;
    }
    let ghost d = digits_part(s@);
    let mut acc: u32 = 0;
    let mut i: usize = start;
    proof {
        assert(s@.subrange(start as int, start as int) =~= Seq::<char>::empty());
    }
    while i < n
        invariant
            start <= i <= n,
            n == s@.len(),
            d == digits_part(s@),
            d == s@.subrange(start as int, n as int),
            forall|j: int| start <= j < i ==> is_dec_digit(#[trigger] s@[j]),
            acc as int == dec_value(s@.subrange(start as int, i as int)),
            acc <= 65535,
        decreases n - i,
    {
        let c = s.get_char(i);
        let v = c as u32;
        if v < 48 || v > 57 {
            proof {
                assert(d[i - start] == s@[i as int]);
                assert(!is_dec_digit(d[i - start]));
            }
            return DEFAULT_PORT;
        }
        acc = acc * 10 + (v - 48);
        proof {
            assert(s@.subrange(start as int, i + 1).drop_last() =~= s@.subrange(
                start as int,
                i as int,
            ));
            assert(s@.subrange(start as int, i + 1).last() == s@[i as int]);
        }
        if acc > 65535 {
            proof {
                if forall|j: int| 0 <= j < d.len() ==> is_dec_digit(#[trigger] d[j]) {
                    assert forall|j: int| 0 <= j < i + 1 - start implies is_dec_digit(
                        #[trigger] s@.subrange(start as int, i + 1)[j],
                    ) by {
                        assert(s@.subrange(start as int, i + 1)[j] == d[j]);
                    }
                    assert(d.subrange(0, i + 1 - start) =~= s@.subrange(
                        start as int,
                        i + 1,
                    ));
                    lemma_dec_value_prefix(d, i + 1 - start);
                }
            }
            return DEFAULT_PORT;
        }
        i += 1;
    }
    proof {
        assert(s@.subrange(start as int, n as int) =~= d);
        assert forall|j: int| 0 <= j < d.len() implies is_dec_digit(#[trigger] d[j]) by {
            assert(d[j] == s@[j + start]);
        }
    }
    acc as u16
}

impl Opts {
    /// Assemble the options from the raw command-line values: the root
    /// directory as given, the port text parsed with the default as
    /// fallback, and the reload switch as given.
    pub fn parse(directory: String, port_text: &str, no_auto_reload: bool) -> (o: Opts)
        ensures
            o.directory == directory,
            o.port == port_or_default(port_text@),
            o.no_auto_reload == no_auto_reload,
    {
        Opts { directory, port: parse_port(port_text), no_auto_reload }
    }
}

} // verus!
