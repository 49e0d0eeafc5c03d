//! Resolution of the requested configuration into the one the pipeline runs
//! with: the effective worker limit, the effective seed, and the warnings the
//! operator should see.
//!
//! A run is forced to a single worker whenever an explicit seed is supplied
//! (parallel sources would each need independent, non-overlapping seeding,
//! which this design does not attempt) or the OS entropy source is selected
//! (draining one shared OS channel in parallel gains nothing). Violating
//! either restriction is a warning, not an error: the run proceeds with the
//! forced value.

use vstd::prelude::*;

use crate::algorithm::Algorithm;

verus! {

/// Relies on `num_cpus::get`: the number of logical CPUs available to this
/// process, honoring scheduler affinity and cgroup limits.
#[verifier::external_body]
fn available_cpus() -> usize {
    num_cpus::get()
}

/// Whether this combination of algorithm and seed forces single-worker mode.
pub open spec fn forced_single(algorithm: Algorithm, seed: Option<u64>) -> bool {
    seed is Some || algorithm is Os
}

/// The resolved configuration of a run.
#[derive(Debug, Clone, Copy, PartialEq, Eq, Structural)]
pub struct RunPlan {
    /// The upper bound on generator workers. A limit of 0 or 1 selects the
    /// single-worker fast path.
    pub worker_limit: usize,
    /// The seed the pipeline uses; `None` means OS entropy. A seed given
    /// together with the OS source is dropped here.
    pub seed: Option<u64>,
    /// A worker-limit override was given together with a seed and is ignored.
    pub warn_seed_max_workers: bool,
    /// A worker-limit override was given with the OS source and is ignored.
    pub warn_os_max_workers: bool,
    /// A seed was given with the OS source and is ignored.
    pub warn_os_seed: bool,
}

/// Resolves the requested configuration against a given hardware parallelism.
///
/// The worker limit is the requested maximum, or `hardware` (at least 1) when
/// none was requested, and is forced to 1 whenever a seed is supplied or the
/// OS source is selected.
pub fn plan_run_with(
    algorithm: Algorithm,
    seed: Option<u64>,
    max_workers: Option<usize>,
    hardware: usize,
) -> (plan: RunPlan)
    ensures
        plan.worker_limit == (if forced_single(algorithm, seed) {
            1usize
        } else if max_workers is Some {
            max_workers->0
        } else if hardware >= 1 {
            hardware
        } else {
            1usize
        }),
        plan.seed == (if algorithm is Os {
            None::<u64>
        } else {
            seed
        }),
        plan.warn_seed_max_workers == (seed is Some && max_workers is Some),
        plan.warn_os_max_workers == (algorithm is Os && max_workers is Some),
        plan.warn_os_seed == (algorithm is Os && seed is Some),
        seed is Some ==> plan.worker_limit == 1,
        algorithm is Os ==> plan.worker_limit == 1 && plan.seed is None,
{
    let is_os = !algorithm.is_parallelizable();
    let worker_limit: usize = if seed.is_some() || is_os {
        1
    } else {
        match max_workers {
            Some(m) => m,
            None => {
                if hardware >= 1 {
                    hardware
                } else {
                    1
                }
            },
        }
    };
    RunPlan {
        worker_limit,
        seed: if is_os {
            None
        } else {
            seed
        },
        warn_seed_max_workers: seed.is_some() && max_workers.is_some(),
        warn_os_max_workers: is_os && max_workers.is_some(),
        warn_os_seed: is_os && seed.is_some(),
    }
}

/// Resolves the requested configuration, taking the hardware parallelism of
/// this machine as the worker limit when none was requested.
pub fn plan_run(algorithm: Algorithm, seed: Option<u64>, max_workers: Option<usize>) -> (plan:
    RunPlan)
    ensures
        forced_single(algorithm, seed) ==> plan.worker_limit == 1,
        !forced_single(algorithm, seed) && max_workers is Some ==> plan.worker_limit
            == max_workers->0,
        max_workers is None ==> plan.worker_limit >= 1,
        plan.seed == (if algorithm is Os {
            None::<u64>
        } else {
            seed
        }),
        plan.warn_seed_max_workers == (seed is Some && max_workers is Some),
        plan.warn_os_max_workers == (algorithm is Os && max_workers is Some),
        plan.warn_os_seed == (algorithm is Os && seed is Some),
        seed is Some ==> plan.worker_limit == 1,
        algorithm is Os ==> plan.worker_limit == 1 && plan.seed is None,
{
    let needs_hardware = seed.is_none() && algorithm.is_parallelizable() && max_workers.is_none();
    let hardware: usize = if needs_hardware {
        let cpus = available_cpus();
        if cpus >= 1 {
            cpus
        } else {
            1
        }
    } else {
        1
    };
    plan_run_with(algorithm, seed, max_workers, hardware)
}

} // verus!
