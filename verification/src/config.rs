//! Command-line configuration.
//!
//! The arguments are scanned left to right. Interval and delay flags may
//! come before the target command; the first argument that is no flag
//! starts the target command, and everything from there on is passed
//! through to it — except that an interval or delay flag placed after the
//! command start violates the argument-position convention and is
//! rejected before any process is spawned.

use vstd::prelude::*;
use vstd::string::StringSliceAdditionalSpecFns;

use crate::parse::{all_digits, bytes_eq, dec_val, parse_u64};

verus! {

/// Sampling interval used when no flag names one, in milliseconds.
pub const DEFAULT_SAMPLE_RATE_MS: u64 = 100;

/// Startup delay used when no flag names one, in milliseconds.
pub const DEFAULT_TIMEOUT_MS: u64 = 0;

/// Why the arguments were rejected; each case exits with a diagnostic
/// before any process is spawned.
#[derive(Clone, Copy, Debug, PartialEq, Eq, Structural)]
pub enum ConfigError {
    /// No target command was supplied.
    NoCommand,
    /// A flag that needs a value came last.
    MissingValue,
    /// A flag's value is not an unsigned decimal number that fits.
    BadNumber,
    /// An argument that looks like a flag is none the tool knows.
    UnknownFlag,
    /// An interval or delay flag stood after the target command began.
    FlagAfterCommand,
}

/// A parsed configuration: the polling interval, the startup delay, and
/// the target command line, its executable first.
#[derive(Debug, PartialEq)]
pub struct Config {
    pub sample_rate_ms: u64,
    pub timeout_ms: u64,
    pub command: Vec<Vec<u8>>,
}

/// The long form of the sampling-interval flag.
pub open spec fn rate_flag_long() -> Seq<u8> {
    "--sample-rate".spec_bytes()
}

/// The short form of the sampling-interval flag.
pub open spec fn rate_flag_short() -> Seq<u8> {
    "-s".spec_bytes()
}

/// The long form of the startup-delay flag.
pub open spec fn timeout_flag_long() -> Seq<u8> {
    "--timeout".spec_bytes()
}

/// The short form of the startup-delay flag.
pub open spec fn timeout_flag_short() -> Seq<u8> {
    "-t".spec_bytes()
}

/// An argument that names the sampling interval.
pub open spec fn is_rate_flag(a: Seq<u8>) -> bool {
    a == rate_flag_long() || a == rate_flag_short()
}

/// An argument that names the startup delay.
pub open spec fn is_timeout_flag(a: Seq<u8>) -> bool {
    a == timeout_flag_long() || a == timeout_flag_short()
}

/// An argument that configures the tool's own timing.
pub open spec fn is_timing_flag(a: Seq<u8>) -> bool {
    is_rate_flag(a) || is_timeout_flag(a)
}

/// An argument shaped like a flag: a dash followed by at least one more
/// byte (45 is the ASCII dash).
pub open spec fn is_flag_like(a: Seq<u8>) -> bool {
    a.len() >= 2 && a[0] == 45
}

/// A flag value that can serve as a millisecond count.
pub open spec fn is_millis_value(a: Seq<u8>) -> bool {
    a.len() > 0 && all_digits(a) && dec_val(a) <= u64::MAX
}

/// The parse, one argument at a time: flags update the interval and delay
/// they name, the first non-flag starts the command, and a timing flag
/// among the command's own arguments is rejected.
pub open spec fn spec_parse(args: Seq<Seq<u8>>, i: int, rate: u64, timeout: u64) -> Result<
    (u64, u64, Seq<Seq<u8>>),
    ConfigError,
>
    decreases args.len() - i,
{
    if i < 0 || i >= args.len() {
        Err(ConfigError::NoCommand)
    } else if is_rate_flag(args[i]) {
        if i + 1 >= args.len() {
            Err(ConfigError::MissingValue)
        } else if !is_millis_value(args[i + 1]) {
            Err(ConfigError::BadNumber)
        } else {
            spec_parse(args, i + 2, dec_val(args[i + 1]) as u64, timeout)
        }
    } else if is_timeout_flag(args[i]) {
        if i + 1 >= args.len() {
            Err(ConfigError::MissingValue)
        } else if !is_millis_value(args[i + 1]) {
            Err(ConfigError::BadNumber)
        } else {
            spec_parse(args, i + 2, rate, dec_val(args[i + 1]) as u64)
        }
    } else if is_flag_like(args[i]) {
        Err(ConfigError::UnknownFlag)
    } else if exists|j: int| i < j < args.len() && is_timing_flag(#[trigger] args[j]) {
        Err(ConfigError::FlagAfterCommand)
    } else {
        Ok((rate, timeout, args.subrange(i, args.len() as int)))
    }
}

/// What a full argument list means, starting from the defaults.
pub open spec fn spec_parse_args(args: Seq<Seq<u8>>) -> Result<
    (u64, u64, Seq<Seq<u8>>),
    ConfigError,
> {
    spec_parse(args, 0, DEFAULT_SAMPLE_RATE_MS, DEFAULT_TIMEOUT_MS)
}

proof fn lemma_bytes_deep_view(v: Vec<u8>)
    ensures
        v.deep_view() == v@,
{
    assert(v.deep_view() =~= v@);
}

fn is_timing_flag_bytes(a: &[u8]) -> (r: bool)
    ensures
        r == is_timing_flag(a@),
{
    bytes_eq(a, "--sample-rate".as_bytes()) || bytes_eq(a, "-s".as_bytes()) || bytes_eq(
        a,
        "--timeout".as_bytes(),
    ) || bytes_eq(a, "-t".as_bytes())
}

/// Copy one argument.
fn copy_bytes(v: &Vec<u8>) -> (r: Vec<u8>)
    ensures
        r@ == v@,
{
    let mut r: Vec<u8> = Vec::new();
    let mut i: usize = 0;
    while i < v.len()
        invariant
            i <= v@.len(),
            r@ == v@.take(i as int),
        decreases v@.len() - i,
    {
        r.push(v[i]);
        proof {
            assert(v@.take(i + 1) =~= v@.take(i as int).push(v@[i as int]));
        }
        i = i + 1;
    }
    proof {
        assert(v@.take(v@.len() as int) =~= v@);
    }
    r
}

/// Parse the tool's arguments (the program's own name already removed).
/// Returns the configuration exactly when the argument list is well
/// formed, and the first violation otherwise.
#[verifier::loop_isolation(false)]
pub fn parse_args(args: &Vec<Vec<u8>>) -> (r: Result<Config, ConfigError>)
    ensures
        match r {
            Ok(c) => spec_parse_args(args.deep_view()) == Ok::<_, ConfigError>(
                (c.sample_rate_ms, c.timeout_ms, c.command.deep_view()),
            ),
            Err(e) => spec_parse_args(args.deep_view()) == Err::<(u64, u64, Seq<Seq<u8>>), _>(e),
        },
{
    let ghost dv = args.deep_view();
    let mut i: usize = 0;
    let mut rate: u64 = DEFAULT_SAMPLE_RATE_MS;
    let mut timeout: u64 = DEFAULT_TIMEOUT_MS;
    while i < args.len()
        invariant
            i <= args@.len(),
            dv == args.deep_view(),
            dv.len() == args@.len(),
            spec_parse_args(dv) == spec_parse(dv, i as int, rate, timeout),
        decreases args@.len() - i,
    {
        let a: &Vec<u8> = &args[i];
        proof {
            lemma_bytes_deep_view(args@[i as int]);
        }
        if bytes_eq(a.as_slice(), "--sample-rate".as_bytes()) || bytes_eq(
            a.as_slice(),
            "-s".as_bytes(),
        ) {
            if i + 1 >= args.len() {
                return Err(ConfigError::MissingValue);
            }
            proof {
                lemma_bytes_deep_view(args@[i + 1]);
            }
            match parse_u64(args[i + 1].as_slice()) {
                None => {
                    return Err(ConfigError::BadNumber);
                },
                Some(v) => {
                    rate = v;
                    i = i + 2;
                },
            }
        } else if bytes_eq(a.as_slice(), "--timeout".as_bytes()) || bytes_eq(
            a.as_slice(),
            "-t".as_bytes(),
        ) {
            if i + 1 >= args.len() {
                return Err(ConfigError::MissingValue);
            }
            proof {
                lemma_bytes_deep_view(args@[i + 1]);
            }
            match parse_u64(args[i + 1].as_slice()) {
                None => {
                    return Err(ConfigError::BadNumber);
                },
                Some(v) => {
                    timeout = v;
                    i = i + 2;
                },
            }
        } else if a.len() >= 2 && a[0] == 45 {
            return Err(ConfigError::UnknownFlag);
        } else {
            let mut j: usize = i + 1;
            while j < args.len()
                invariant
                    i < j <= args@.len(),
                    dv == args.deep_view(),
                    dv.len() == args@.len(),
                    forall|k: int| i < k < j ==> !is_timing_flag(#[trigger] dv[k]),
                decreases args@.len() - j,
            {
                proof {
                    lemma_bytes_deep_view(args@[j as int]);
                }
                if is_timing_flag_bytes(args[j].as_slice()) {
                    proof {
                        assert(i < j < dv.len() && is_timing_flag(dv[j as int]));
                    }
                    return Err(ConfigError::FlagAfterCommand);
                }
                j = j + 1;
            }
            let mut command: Vec<Vec<u8>> = Vec::new();
            let mut k: usize = i;
            while k < args.len()
                invariant
                    i <= k <= args@.len(),
                    dv == args.deep_view(),
                    dv.len() == args@.len(),
                    command.deep_view() =~= dv.subrange(i as int, k as int),
                decreases args@.len() - k,
            {
                let ghost before = command.deep_view();
                let arg_copy = copy_bytes(&args[k]);
                command.push(arg_copy);
                proof {
                    lemma_bytes_deep_view(args@[k as int]);
                    lemma_bytes_deep_view(arg_copy);
                    assert(command.deep_view() =~= before.push(arg_copy.deep_view()));
                    assert(command.deep_view() =~= dv.subrange(i as int, k + 1));
                }
                k = k + 1;
            }
            return Ok(Config { sample_rate_ms: rate, timeout_ms: timeout, command });
        }
    }
    Err(ConfigError::NoCommand)
}

} // verus!
