//! The run's configuration, read from the two positional arguments.
use vstd::prelude::*;
use crate::decimal::{all_digits, digits_value, is_digit, lemma_prefix_value_le, ZERO_DIGIT};
use crate::paths::{script_path_of, script_paths};

verus! {

/// Why the run could not start.
#[derive(Debug, Clone, Copy, PartialEq, Eq, Structural)]
pub enum StartupError {
    /// An argument is missing, or the worker count is not a positive decimal
    /// integer.
    InvalidArgument,
}

/// The exit status of a run that stopped on an error.
pub const FAILURE_EXIT_STATUS: i32 = 1;

impl StartupError {
    /// The status the process exits with on this error.
    pub fn exit_status(&self) -> (r: i32)
        ensures
            r == FAILURE_EXIT_STATUS,
    {
        FAILURE_EXIT_STATUS
    }
}

/// Whether `s` is a worker count: a nonempty string of decimal digits that
/// denotes a positive number small enough for a `usize`.
pub open spec fn is_worker_count(s: Seq<u8>) -> bool {
    &&& s.len() > 0
    &&& all_digits(s)
    &&& 0 < digits_value(s) <= usize::MAX
}

/// Reads a worker count written in decimal.
pub fn parse_worker_count(s: &Vec<u8>) -> (r: Result<usize, StartupError>)
    ensures
        r is Ok <==> is_worker_count(s@),
        r is Ok ==> r->Ok_0 as nat == digits_value(s@),
        r is Err ==> r == Err::<usize, StartupError>(StartupError::InvalidArgument),
{
    if s.len() == 0 {
        return Err(StartupError::InvalidArgument);
    }
    let mut value: usize = 0;
    let mut i: usize = 0;
    while i < s.len()
        invariant
            i <= s.len(),
            all_digits(s@.subrange(0, i as int)),
            value as nat == digits_value(s@.subrange(0, i as int)),
        decreases s.len() - i,
    {
        let b = s[i];
        let prefix = Ghost(s@.subrange(0, i as int));
        let next = Ghost(s@.subrange(0, i as int + 1));
        assert(next@.drop_last() =~= prefix@);
        if !(ZERO_DIGIT <= b && b <= ZERO_DIGIT + 9) {
            return Err(StartupError::InvalidArgument);
        }
        let digit: usize = (b - ZERO_DIGIT) as usize;
        assert(all_digits(next@)) by {
            assert forall|k: int| 0 <= k < next@.len() implies is_digit(#[trigger] next@[k]) by {
                if k < i {
                    assert(next@[k] == prefix@[k]);
                }
            }
        }
        if value > (usize::MAX - digit) / 10 {
            proof {
                assert(value * 10 + digit > usize::MAX) by (nonlinear_arith)
                    requires
                        value > (usize::MAX - digit) / 10,
                        digit <= 9,
                ;
                let j = i as int + 1;
                if all_digits(s@) {
                    lemma_prefix_value_le(s@, j);
                }
            }
            return Err(StartupError::InvalidArgument);
        }
        assert(value * 10 + digit <= usize::MAX) by (nonlinear_arith)
            requires
                value <= (usize::MAX - digit) / 10,
                digit <= 9,
        ;
        value = value * 10 + digit;
        i = i + 1;
    }
    assert(s@.subrange(0, s.len() as int) =~= s@);
    if value == 0 {
        return Err(StartupError::InvalidArgument);
    }
    Ok(value)
}

/// What a run is given: the directory the scripts go in, and how many workers
/// run.
pub struct Config {
    base_directory: Vec<u8>,
    worker_count: usize,
}

impl Config {
    /// The directory the script files are written in.
    pub closed spec fn base_spec(&self) -> Seq<u8> {
        self.base_directory@
    }

    /// The number of workers.
    pub closed spec fn count_spec(&self) -> nat {
        self.worker_count as nat
    }

    /// A configuration always has at least one worker.
    pub closed spec fn wf(&self) -> bool {
        self.worker_count > 0
    }

    /// Reads the configuration from the positional arguments: the base
    /// directory, then the worker count. Further arguments are ignored.
    pub fn from_args(args: &Vec<Vec<u8>>) -> (r: Result<Config, StartupError>)
        ensures
            r is Ok <==> args.len() >= 2 && is_worker_count(args[1]@),
            r is Ok ==> {
                let c = r->Ok_0;
                &&& c.wf()
                &&& c.base_spec() == args[0]@
                &&& c.count_spec() == digits_value(args[1]@)
            },
            r is Err ==> r->Err_0 == StartupError::InvalidArgument,
    {
        if args.len() < 2 {
            return Err(StartupError::InvalidArgument);
        }
        let count = parse_worker_count(&args[1]);
        match count {
            Ok(n) => Ok(Config { base_directory: args[0].clone(), worker_count: n }),
            Err(e) => Err(e),
        }
    }

    /// The directory the script files are written in.
    pub fn base_directory(&self) -> (r: &Vec<u8>)
        ensures
            r@ == self.base_spec(),
    {
        &self.base_directory
    }

    /// The number of workers.
    pub fn worker_count(&self) -> (r: usize)
        requires
            self.wf(),
        ensures
            r as nat == self.count_spec(),
            r > 0,
    {
        self.worker_count
    }

    /// The script path of every worker, in order of index. No two are the
    /// same.
    pub fn script_paths(&self) -> (r: Vec<Vec<u8>>)
        ensures
            r.len() == self.count_spec(),
            forall|i: int|
                0 <= i < r.len() ==> (#[trigger] r[i])@ == script_path_of(self.base_spec(), i as nat),
            forall|i: int, j: int|
                0 <= i < r.len() && 0 <= j < r.len() && i != j ==> r[i]@ != r[j]@,
    {
        let r = script_paths(&self.base_directory, self.worker_count);
        proof {
            assert forall|i: int, j: int|
                0 <= i < r.len() && 0 <= j < r.len() && i != j implies r[i]@ != r[j]@ by {
                crate::paths::lemma_script_paths_disjoint(self.base_spec(), i as nat, j as nat);
            }
        }
        r
    }
}

} // verus!
