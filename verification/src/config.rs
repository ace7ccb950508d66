//! Run configuration and command-line flag parsing.
//!
//! The surface is three flags, order-independent, each taking the
//! following argument as its value: `-t` (duration, seconds), `-c`
//! (concurrency) and `-u` (target URL). Unrecognized arguments are
//! silently ignored; a later occurrence of a flag overrides an earlier
//! one. A flag with no following argument, or an integer flag whose
//! value does not parse as an `i32`, is a fatal startup error naming the
//! offending flag.

use vstd::prelude::*;

verus! {

/// The immutable configuration of one run, resolved from the arguments.
#[derive(Clone, Debug)]
pub struct RunConfig {
    pub duration_seconds: i32,
    pub concurrency: i32,
    pub url: String,
}

/// The flag an argument error is about.
#[derive(Clone, Copy, Debug, PartialEq, Eq, Structural)]
pub enum Flag {
    Time,
    Concurrency,
    Url,
}

/// A fatal startup error.
#[derive(Clone, Copy, Debug, PartialEq, Eq, Structural)]
pub enum ArgError {
    /// The flag was the last argument, so its value is missing.
    MissingValue(Flag),
    /// The value after `-t` or `-c` is not a decimal `i32`.
    NotAnInteger(Flag),
}

/// The mathematical shape of a resolved configuration.
pub struct ConfigModel {
    pub duration: int,
    pub concurrency: int,
    pub url: Seq<char>,
}

/// What a run uses when a flag is absent.
pub open spec fn default_config_model() -> ConfigModel {
    ConfigModel { duration: 10, concurrency: 1, url: "http://localhost:3000"@ }
}

pub open spec fn spec_is_digit(c: char) -> bool {
    48 <= c as int && c as int <= 57
}

pub open spec fn digit_value(c: char) -> int {
    c as int - 48
}

pub open spec fn all_digits(s: Seq<char>) -> bool {
    forall|i: int| 0 <= i < s.len() ==> spec_is_digit(s[i])
}

/// The value of a string of decimal digits, most significant first.
pub open spec fn digits_value(s: Seq<char>) -> int
    decreases s.len(),
{
    if s.len() == 0 {
        0
    } else {
        digits_value(s.drop_last()) * 10 + digit_value(s.last())
    }
}

/// The digits of an integer literal: everything after one optional
/// leading sign.
pub open spec fn unsigned_part(s: Seq<char>) -> Seq<char> {
    if s.len() >= 1 && (s[0] == '-' || s[0] == '+') {
        s.subrange(1, s.len() as int)
    } else {
        s
    }
}

pub open spec fn sign_of(s: Seq<char>) -> int {
    if s.len() >= 1 && s[0] == '-' {
        -1
    } else {
        1
    }
}

/// The integer a literal denotes: its sign times the value of its
/// digits.
pub open spec fn int_value(s: Seq<char>) -> int {
    sign_of(s) * digits_value(unsigned_part(s))
}

/// Whether `s` is exactly what `i32` accepts as a decimal literal: an
/// optional `+` or `-`, then at least one ASCII digit and nothing else,
/// denoting a value within the `i32` range.
pub open spec fn parses_as_i32(s: Seq<char>) -> bool {
    &&& unsigned_part(s).len() >= 1
    &&& all_digits(unsigned_part(s))
    &&& i32::MIN <= int_value(s) <= i32::MAX
}

proof fn lemma_digits_value_nonneg(s: Seq<char>)
    requires
        all_digits(s),
    ensures
        digits_value(s) >= 0,
    decreases s.len(),
{
    if s.len() > 0 {
        assert(all_digits(s.drop_last()));
        lemma_digits_value_nonneg(s.drop_last());
    }
}

proof fn lemma_digits_value_snoc(s: Seq<char>, i: int)
    requires
        0 <= i < s.len(),
    ensures
        digits_value(s.subrange(0, i + 1)) == digits_value(s.subrange(0, i)) * 10 + digit_value(
            s[i],
        ),
{
    assert(s.subrange(0, i + 1).drop_last() =~= s.subrange(0, i));
}

/// Character-by-character string equality, proved against the views.
pub fn str_eq(a: &str, b: &str) -> (r: bool)
    ensures
        r == (a@ == b@),
{
    let a_len = a.unicode_len();
    let b_len = b.unicode_len();
    if a_len != b_len {
        return false;
    }
    let mut i: usize = 0;
    while i < a_len
        invariant
            i <= a_len,
            a_len == a@.len(),
            a_len == b@.len(),
            forall|j: int| 0 <= j < i ==> a@[j] == b@[j],
        decreases a_len - i,
    {
        if a.get_char(i) != b.get_char(i) {
            return false;
        }
        i = i + 1;
    }
    proof {
        assert(a@ =~= b@);
    }
    true
}

/// Parse a decimal `i32` exactly as the standard library does: an
/// optional sign, then one or more ASCII digits; anything else, or a
/// value outside the `i32` range, is rejected.
pub fn parse_i32(s: &str) -> (r: Option<i32>)
    ensures
        match r {
            Some(v) => parses_as_i32(s@) && v == int_value(s@),
            None => !parses_as_i32(s@),
        },
{
    let len = s.unicode_len();
    let mut start: usize = 0;
    let mut negative: bool = false;
    if len >= 1 {
        let c0 = s.get_char(0);
        if c0 == '-' {
            negative = true;
            start = 1;
        } else if c0 == '+' {
            start = 1;
        }
    }
    proof {
        assert(unsigned_part(s@) =~= s@.subrange(start as int, len as int));
        assert(negative == (sign_of(s@) == -1));
    }
    if start >= len {
        // no digits at all
        return None;
    }

    // The capped accumulator: the digit value so far, saturated just
    // above the i32 range so that overflow is detected without wide
    // arithmetic.
    let mut magnitude: u64 = 0;
    let mut i: usize = start;
    while i < len
        invariant
            start <= i <= len,
            len == s@.len(),
            start <= 1,
            unsigned_part(s@) =~= s@.subrange(start as int, len as int),
            all_digits(s@.subrange(start as int, i as int)),
            magnitude <= 10_000_000_000u64,
            ({
                let value_so_far = digits_value(s@.subrange(start as int, i as int));
                if value_so_far <= 10_000_000_000 {
                    magnitude == value_so_far
                } else {
                    magnitude == 10_000_000_000u64
                }
            }),
        decreases len - i,
    {
        let c = s.get_char(i);
        let code = c as u32;
        if code < 48 || code > 57 {
            // a non-digit inside the digit part: not an integer literal
            proof {
                assert(!spec_is_digit(s@[i as int]));
                assert(unsigned_part(s@)[i as int - start as int] == s@[i as int]);
                assert(!all_digits(unsigned_part(s@)));
            }
            return None;
        }
        let digit = (code - 48) as u64;
        proof {
            lemma_digits_value_snoc(s@.subrange(start as int, len as int), i - start as int);
            assert(s@.subrange(start as int, len as int).subrange(0, i - start as int) =~= s@
                .subrange(start as int, i as int));
            assert(s@.subrange(start as int, len as int).subrange(0, i - start as int + 1) =~= s@
                .subrange(start as int, i as int + 1));
            lemma_digits_value_nonneg(s@.subrange(start as int, i as int));
        }
        let widened = magnitude * 10 + digit;
        if widened > 10_000_000_000u64 {
            magnitude = 10_000_000_000u64;
        } else {
            magnitude = widened;
        }
        i = i + 1;
    }

    proof {
        assert(s@.subrange(start as int, i as int) =~= unsigned_part(s@));
        lemma_digits_value_nonneg(unsigned_part(s@));
    }
    if negative {
        if magnitude > 2_147_483_648u64 {
            return None;
        }
        if magnitude == 2_147_483_648u64 {
            Some(i32::MIN)
        } else {
            Some(-(magnitude as i32))
        }
    } else {
        if magnitude > 2_147_483_647u64 {
            return None;
        }
        Some(magnitude as i32)
    }
}

/// The resolved configuration (or the first fatal error) that a left to
/// right scan of the arguments from position `i` produces, starting from
/// the partial configuration `m`.
///
/// Every position is examined, so a flag's value argument is itself
/// inspected as a potential flag on the next step, exactly as the
/// run-time scan does.
pub open spec fn scan_args(args: Seq<Seq<char>>, i: int, m: ConfigModel) -> Result<
    ConfigModel,
    ArgError,
>
    decreases args.len() - i,
{
    if i < 0 || i >= args.len() {
        Ok(m)
    } else if args[i] == "-t"@ {
        if i + 1 >= args.len() {
            Err(ArgError::MissingValue(Flag::Time))
        } else if !parses_as_i32(args[i + 1]) {
            Err(ArgError::NotAnInteger(Flag::Time))
        } else {
            scan_args(
                args,
                i + 1,
                ConfigModel { duration: int_value(args[i + 1]), ..m },
            )
        }
    } else if args[i] == "-c"@ {
        if i + 1 >= args.len() {
            Err(ArgError::MissingValue(Flag::Concurrency))
        } else if !parses_as_i32(args[i + 1]) {
            Err(ArgError::NotAnInteger(Flag::Concurrency))
        } else {
            scan_args(
                args,
                i + 1,
                ConfigModel { concurrency: int_value(args[i + 1]), ..m },
            )
        }
    } else if args[i] == "-u"@ {
        if i + 1 >= args.len() {
            Err(ArgError::MissingValue(Flag::Url))
        } else {
            scan_args(args, i + 1, ConfigModel { url: args[i + 1], ..m })
        }
    } else {
        scan_args(args, i + 1, m)
    }
}

/// The configuration denoted by a full argument vector: a scan from the
/// start, beginning at the defaults.
pub open spec fn resolved_config(args: Seq<Seq<char>>) -> Result<ConfigModel, ArgError> {
    scan_args(args, 0, default_config_model())
}

/// The default target when `-u` is absent.
pub fn default_url() -> (r: String)
    ensures
        r@ == default_config_model().url,
{
    "http://localhost:3000".to_owned()
}

/// Resolve the run configuration from the argument vector (including
/// the program name at position zero, which is ignored like any other
/// unrecognized argument).
///
/// Returns the scanned configuration, or the first error the scan
/// meets: a recognized flag in final position is missing its value, and
/// a non-integer value after `-t` or `-c` names that flag.
pub fn parse_args(args: &Vec<String>) -> (r: Result<RunConfig, ArgError>)
    ensures
        match (r, resolved_config(args.deep_view())) {
            (Ok(c), Ok(m)) => {
                &&& c.duration_seconds == m.duration
                &&& c.concurrency == m.concurrency
                &&& c.url@ == m.url
            },
            (Err(e), Err(me)) => e == me,
            _ => false,
        },
{
    let ghost argsv = args.deep_view();
    let mut duration: i32 = 10;
    let mut concurrency: i32 = 1;
    let mut url: String = default_url();

    let n = args.len();
    let mut i: usize = 0;
    while i < n
        invariant
            i <= n,
            n == args@.len(),
            argsv == args.deep_view(),
            argsv.len() == n,
            resolved_config(argsv) == scan_args(
                argsv,
                i as int,
                ConfigModel {
                    duration: duration as int,
                    concurrency: concurrency as int,
                    url: url@,
                },
            ),
        decreases n - i,
    {
        proof {
            assert(argsv[i as int] == args@[i as int]@);
        }
        let item = &args[i];
        if str_eq(item.as_str(), "-t") {
            if i + 1 >= n {
                return Err(ArgError::MissingValue(Flag::Time));
            }
            proof {
                assert(argsv[i as int + 1] == args@[i as int + 1]@);
            }
            match parse_i32(args[i + 1].as_str()) {
                Some(v) => {
                    duration = v;
                },
                None => {
                    return Err(ArgError::NotAnInteger(Flag::Time));
                },
            }
        } else if str_eq(item.as_str(), "-c") {
            if i + 1 >= n {
                return Err(ArgError::MissingValue(Flag::Concurrency));
            }
            proof {
                assert(argsv[i as int + 1] == args@[i as int + 1]@);
            }
            match parse_i32(args[i + 1].as_str()) {
                Some(v) => {
                    concurrency = v;
                },
                None => {
                    return Err(ArgError::NotAnInteger(Flag::Concurrency));
                },
            }
        } else if str_eq(item.as_str(), "-u") {
            if i + 1 >= n {
                return Err(ArgError::MissingValue(Flag::Url));
            }
            proof {
                assert(argsv[i as int + 1] == args@[i as int + 1]@);
            }
            url = args[i + 1].clone();
        }
        i = i + 1;
    }
    Ok(RunConfig { duration_seconds: duration, concurrency, url })
}

} // verus!
