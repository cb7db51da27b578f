//! The number of parallel execution lanes per shard: how it is derived from
//! the host's parallelism, and the cell that fixes it once per run.

use vstd::prelude::*;
use crate::pruner::ConfigError;

verus! {

/// `parallelism / shards`, rounded up.
pub open spec fn ceil_div(parallelism: int, shards: int) -> int
    recommends
        parallelism >= 0,
        shards > 0,
{
    (parallelism + shards - 1) / shards
}

/// `ceil_div` is the least number of lanes per shard that, over all shards,
/// covers the host's parallelism.
pub proof fn lemma_ceil_div_is_least_cover(parallelism: int, shards: int)
    requires
        parallelism >= 0,
        shards > 0,
    ensures
        ceil_div(parallelism, shards) * shards >= parallelism,
        (ceil_div(parallelism, shards) - 1) * shards < parallelism,
        ceil_div(parallelism, shards) >= 0,
        parallelism >= 1 ==> 1 <= ceil_div(parallelism, shards) <= parallelism,
{
    let q = ceil_div(parallelism, shards);
    let n = parallelism + shards - 1;
    assert(n == shards * (n / shards) + n % shards && 0 <= n % shards < shards) by {
        vstd::arithmetic::div_mod::lemma_fundamental_div_mod(n, shards);
        vstd::arithmetic::div_mod::lemma_mod_bound(n, shards);
    }
    assert(q * shards == shards * q) by (nonlinear_arith);
    assert((q - 1) * shards == q * shards - shards) by (nonlinear_arith);
    if q < 0 {
        assert(shards * q <= -shards) by (nonlinear_arith)
            requires
                q <= -1,
                shards > 0,
        ;
    }
    if parallelism >= 1 {
        if q < 1 {
            assert(shards * q <= 0) by (nonlinear_arith)
                requires
                    q <= 0,
                    shards > 0,
            ;
        }
        if q > parallelism {
            assert(shards * q >= shards * parallelism + shards) by (nonlinear_arith)
                requires
                    q >= parallelism + 1,
                    shards > 0,
            ;
            assert(shards * parallelism >= parallelism) by (nonlinear_arith)
                requires
                    parallelism >= 0,
                    shards >= 1,
            ;
        }
    }
}

/// The lanes per shard for a host with `parallelism` lanes split over
/// `num_shards` shards: the quotient, rounded up. There is no level for zero
/// shards.
pub fn derive_concurrency_level(parallelism: usize, num_shards: usize) -> (r: Result<
    usize,
    ConfigError,
>)
    ensures
        r is Err <==> num_shards == 0,
        r matches Err(e) ==> e == ConfigError::ZeroShards,
        r matches Ok(level) ==> {
            &&& level == ceil_div(parallelism as int, num_shards as int)
            &&& level * num_shards >= parallelism
            &&& (level - 1) * num_shards < parallelism
        },
{
    if num_shards == 0 {
        return Err(ConfigError::ZeroShards);
    }
    proof {
        lemma_ceil_div_is_least_cover(parallelism as int, num_shards as int);
    }
    let whole: usize = parallelism / num_shards;
    let rest: usize = parallelism % num_shards;
    proof {
        let p = parallelism as int;
        let s = num_shards as int;
        vstd::arithmetic::div_mod::lemma_fundamental_div_mod(p, s);
        assert(p == s * (whole as int) + rest as int);
        if rest == 0 {
            assert(ceil_div(p, s) == whole) by {
                vstd::arithmetic::div_mod::lemma_fundamental_div_mod_converse(
                    p + s - 1,
                    s,
                    whole as int,
                    s - 1,
                );
            }
        } else {
            assert(ceil_div(p, s) == whole + 1) by {
                assert(s * (whole + 1) == s * whole + s) by (nonlinear_arith);
                vstd::arithmetic::div_mod::lemma_fundamental_div_mod_converse(
                    p + s - 1,
                    s,
                    whole + 1,
                    rest - 1,
                );
            }
        }
    }
    if rest == 0 {
        Ok(whole)
    } else {
        Ok(whole + 1)
    }
}

/// What `resolve_concurrency_level` returns.
pub open spec fn resolved_level(
    explicit: Option<usize>,
    parallelism: usize,
    num_shards: usize,
) -> Result<usize, ConfigError> {
    match explicit {
        Some(level) => Ok(level),
        None => if num_shards == 0 {
            Err(ConfigError::ZeroShards)
        } else {
            Ok(ceil_div(parallelism as int, num_shards as int) as usize)
        },
    }
}

/// An explicit level is taken as it is. Without one the level is derived from
/// the host's parallelism and the number of shards, which must not be zero.
pub fn resolve_concurrency_level(
    explicit: Option<usize>,
    parallelism: usize,
    num_shards: usize,
) -> (r: Result<usize, ConfigError>)
    ensures
        r == resolved_level(explicit, parallelism, num_shards),
        explicit matches Some(level) ==> r == Ok::<usize, ConfigError>(level),
        explicit is None && num_shards > 0 ==> (r matches Ok(level) && level == ceil_div(
            parallelism as int,
            num_shards as int,
        )),
        r is Err <==> explicit is None && num_shards == 0,
{
    match explicit {
        Some(level) => Ok(level),
        None => derive_concurrency_level(parallelism, num_shards),
    }
}

/// The number of logical CPUs that `num_cpus::get` reports for this process.
/// It differs from host to host and from run to run, so nothing is claimed
/// of it.
#[verifier::external_body]
pub(crate) fn available_parallelism() -> usize {
    num_cpus::get()
}

/// The concurrency level of a run: unset at first, fixed by the first
/// `set_once`, and never changed after that.
#[derive(Clone, Copy, Debug, PartialEq, Eq, Structural)]
pub struct ConcurrencyLevel {
    level: Option<usize>,
}

impl ConcurrencyLevel {
    /// The level in effect, if one has been set.
    pub closed spec fn value(&self) -> Option<usize> {
        self.level
    }

    /// The cell after a `set_once(level)`.
    pub open spec fn after_set(&self, level: usize) -> Option<usize> {
        match self.value() {
            Some(first) => Some(first),
            None => Some(level),
        }
    }

    /// A cell with no level set.
    pub fn new() -> (cell: ConcurrencyLevel)
        ensures
            cell.value() is None,
    {
        ConcurrencyLevel { level: None }
    }

    /// Sets the level if none is set yet, and reports whether it did. A cell
    /// that holds a level keeps it.
    pub fn set_once(&mut self, level: usize) -> (did_set: bool)
        ensures
            final(self).value() == old(self).after_set(level),
            did_set <==> old(self).value() is None,
            old(self).value() is Some ==> *final(self) == *old(self),
    {
        match self.level {
            Some(_) => false,
            None => {
                self.level = Some(level);
                true
            },
        }
    }

    /// The level in effect, if one has been set.
    pub fn get(&self) -> (level: Option<usize>)
        ensures
            level == self.value(),
    {
        self.level
    }
}

/// Of two `set_once` calls in a row the second changes nothing: the cell
/// holds what it held after the first, whatever the two values are.
pub proof fn lemma_second_set_has_no_effect(
    before: ConcurrencyLevel,
    between: ConcurrencyLevel,
    after: ConcurrencyLevel,
    first: usize,
    second: usize,
)
    requires
        between.value() == before.after_set(first),
        after.value() == between.after_set(second),
    ensures
        after.value() == between.value(),
        before.value() is None ==> after.value() == Some(first),
{
}

} // verus!
