//! Validated run configuration, built from the raw command-line strings.

use vstd::prelude::*;

use crate::target::SearchTarget;
use crate::target::is_hex_seq;
use crate::target::marker;

verus! {

/// A fatal configuration error, detected before any worker is spawned.
#[derive(Clone, Copy, Debug, PartialEq, Eq, Structural)]
pub enum ConfigError {
    /// The thread-count argument is not a decimal number, is zero, or does
    /// not fit the machine word.
    BadThreadCount,
    /// The reporting-interval argument is not a decimal number or is too
    /// large.
    BadStatInterval,
    /// The target prefix holds a character that is not a hexadecimal digit.
    NonHexPrefix,
}

/// A character is a decimal digit `0-9`.
pub open spec fn is_dec_digit_char(c: char) -> bool {
    48 <= c as u32 && c as u32 <= 57
}

/// The numeric value of a decimal digit character; `0` for any other
/// character, so that every digit contributes a non-negative amount.
pub open spec fn digit_val(c: char) -> nat {
    if is_dec_digit_char(c) {
        (c as u32 - 48) as nat
    } else {
        0
    }
}

/// The sequence is a well-formed decimal numeral: non-empty and made of
/// decimal digits only.
pub open spec fn is_dec_numeral(s: Seq<char>) -> bool {
    s.len() > 0 && (forall|i: int| 0 <= i < s.len() ==> is_dec_digit_char(s[i]))
}

/// The value of the sequence read as a base-10 numeral.
pub open spec fn dec_value(s: Seq<char>) -> nat
    decreases s.len(),
{
    if s.len() == 0 {
        0
    } else {
        dec_value(s.drop_last()) * 10 + digit_val(s.last())
    }
}

/// The value of a numeral never decreases when digits are appended: any
/// prefix reads as at most the value of the whole.
proof fn lemma_dec_value_prefix_le(s: Seq<char>, i: int)
    requires
        0 <= i <= s.len(),
    ensures
        dec_value(s.subrange(0, i)) <= dec_value(s),
    decreases s.len() - i,
{
    if i < s.len() {
        lemma_dec_value_prefix_le(s, i + 1);
        assert(s.subrange(0, i + 1).drop_last() =~= s.subrange(0, i));
        assert(s.subrange(0, i + 1).last() == s[i]);
        assert(dec_value(s.subrange(0, i)) <= dec_value(s.subrange(0, i)) * 10 + digit_val(
            s[i],
        ));
    } else {
        assert(s.subrange(0, i) =~= s);
    }
}

/// Parses a non-empty string of decimal digits into its value. Returns
/// `Some` exactly when the string is a well-formed decimal numeral whose
/// value fits in a `u64`.
pub fn parse_decimal(s: &str) -> (r: Option<u64>)
    ensures
        match r {
            Some(v) => is_dec_numeral(s@) && dec_value(s@) <= u64::MAX && v == dec_value(s@),
            None => !(is_dec_numeral(s@) && dec_value(s@) <= u64::MAX),
        },
{
    let n = s.unicode_len();
    if n == 0 {
        return None;
    }
    let mut acc: u64 = 0;
    let mut i: usize = 0;
    while i < n
        invariant
            0 < n == s@.len(),
            i <= n,
            forall|j: int| 0 <= j < i ==> is_dec_digit_char(s@[j]),
            acc == dec_value(s@.subrange(0, i as int)),
        decreases n - i,
    {
        let c = s.get_char(i);
        let u = c as u32;
        if !(48 <= u && u <= 57) {
            assert(!is_dec_numeral(s@));
            return None;
        }
        let d: u64 = (u - 48) as u64;
        let wide: u128 = acc as u128 * 10 + d as u128;
        proof {
            assert(s@.subrange(0, i + 1).drop_last() =~= s@.subrange(0, i as int));
            assert(s@.subrange(0, i + 1).last() == s@[i as int]);
            assert(wide == dec_value(s@.subrange(0, i + 1)));
        }
        if wide > u64::MAX as u128 {
            proof {
                lemma_dec_value_prefix_le(s@, i + 1);
            }
            return None;
        }
        acc = wide as u64;
        i = i + 1;
    }
    proof {
        assert(s@.subrange(0, n as int) =~= s@);
    }
    Some(acc)
}

/// The default reporting interval, in seconds.
pub const DEFAULT_STAT_SECS: u64 = 10;

/// The thread-count argument is a decimal numeral, at least one, and fits
/// the machine word.
pub open spec fn valid_threads_text(s: Seq<char>) -> bool {
    is_dec_numeral(s) && 1 <= dec_value(s) <= usize::MAX
}

/// The reporting-interval argument is a decimal numeral that fits a `u64`.
pub open spec fn valid_stat_text(s: Seq<char>) -> bool {
    is_dec_numeral(s) && dec_value(s) <= u64::MAX
}

/// The optional thread-count argument is absent or valid.
pub open spec fn threads_arg_ok(a: Option<&str>) -> bool {
    match a {
        Some(s) => valid_threads_text(s@),
        None => true,
    }
}

/// The optional reporting-interval argument is absent or valid.
pub open spec fn stat_arg_ok(a: Option<&str>) -> bool {
    match a {
        Some(s) => valid_stat_text(s@),
        None => true,
    }
}

/// The validated run configuration.
pub struct Config {
    /// Number of parallel worker tasks; always at least one.
    pub threads: usize,
    /// Stop the whole run on the first match.
    pub exit: bool,
    /// Reporting interval in seconds; zero disables the reporter.
    pub stat_secs: u64,
    /// The normalized search target.
    pub target: SearchTarget,
}

impl Config {
    /// A configuration that validation can produce: at least one worker and
    /// a well-formed target.
    pub open spec fn wf(&self) -> bool {
        self.threads >= 1 && self.target.wf()
    }

    /// Validates the raw command-line values and builds the configuration.
    ///
    /// `threads_arg` and `stat_arg` are the raw option texts, absent when
    /// the option was not given; `prefix_arg` is the required positional
    /// target text. Arguments are checked in that order, and the first
    /// invalid one decides the error.
    pub fn from_args(
        threads_arg: Option<&str>,
        exit: bool,
        stat_arg: Option<&str>,
        prefix_arg: &str,
    ) -> (r: Result<Config, ConfigError>)
        ensures
            r is Ok <==> threads_arg_ok(threads_arg) && stat_arg_ok(stat_arg) && is_hex_seq(
                prefix_arg@,
            ),
            r == Err::<Config, ConfigError>(ConfigError::BadThreadCount) <==> !threads_arg_ok(
                threads_arg,
            ),
            r == Err::<Config, ConfigError>(ConfigError::BadStatInterval) <==> threads_arg_ok(
                threads_arg,
            ) && !stat_arg_ok(stat_arg),
            r == Err::<Config, ConfigError>(ConfigError::NonHexPrefix) <==> threads_arg_ok(
                threads_arg,
            ) && stat_arg_ok(stat_arg) && !is_hex_seq(prefix_arg@),
            r matches Ok(cfg) ==> {
                &&& cfg.wf()
                &&& (match threads_arg {
                    Some(s) => cfg.threads == dec_value(s@),
                    None => cfg.threads >= 1,
                })
                &&& cfg.exit == exit
                &&& (match stat_arg {
                    Some(s) => cfg.stat_secs == dec_value(s@),
                    None => cfg.stat_secs == DEFAULT_STAT_SECS,
                })
                &&& cfg.target@ == marker() + prefix_arg@
            },
    {
        let threads: usize = match threads_arg {
            None => available_parallelism_units(),
            Some(s) => match parse_decimal(s) {
                None => {
                    return Err(ConfigError::BadThreadCount);
                },
                Some(v) => {
                    if v == 0 || v > usize::MAX as u64 {
                        return Err(ConfigError::BadThreadCount);
                    }
                    v as usize
                },
            },
        };
        let stat_secs: u64 = match stat_arg {
            None => DEFAULT_STAT_SECS,
            Some(s) => match parse_decimal(s) {
                None => {
                    return Err(ConfigError::BadStatInterval);
                },
                Some(v) => v,
            },
        };
        let target = match SearchTarget::from_hex(prefix_arg) {
            Ok(t) => t,
            Err(e) => {
                return Err(e);
            },
        };
        Ok(Config { threads, exit, stat_secs, target })
    }
}

/// Relies on `num_cpus::get`: the number of available logical CPUs on the
/// host, which its documentation promises is always at least 1.
#[verifier::external_body]
fn available_parallelism_units() -> (n: usize)
    ensures
        1 <= n,
{
    num_cpus::get()
}

} // verus!
