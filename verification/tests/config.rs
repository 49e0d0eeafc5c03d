use rng::algorithm::Algorithm;
use rng::config::{plan_run, plan_run_with};

#[test]
fn seed_forces_single_worker() {
    let plan = plan_run_with(Algorithm::ChaCha20, Some(42), Some(8), 16);
    assert_eq!(plan.worker_limit, 1);
    assert_eq!(plan.seed, Some(42));
    assert!(plan.warn_seed_max_workers);
    assert!(!plan.warn_os_max_workers);
    assert!(!plan.warn_os_seed);
}

#[test]
fn os_source_forces_single_worker_and_drops_seed() {
    let plan = plan_run_with(Algorithm::Os, Some(7), Some(4), 16);
    assert_eq!(plan.worker_limit, 1);
    assert_eq!(plan.seed, None);
    assert!(plan.warn_seed_max_workers);
    assert!(plan.warn_os_max_workers);
    assert!(plan.warn_os_seed);
}

#[test]
fn requested_limit_is_kept_when_nothing_forces() {
    let plan = plan_run_with(Algorithm::Pcg, None, Some(6), 16);
    assert_eq!(plan.worker_limit, 6);
    assert_eq!(plan.seed, None);
    assert!(!plan.warn_seed_max_workers);
    assert!(!plan.warn_os_max_workers);
    assert!(!plan.warn_os_seed);
}

#[test]
fn hardware_parallelism_is_the_default_limit() {
    let plan = plan_run_with(Algorithm::Default, None, None, 12);
    assert_eq!(plan.worker_limit, 12);
    // A degenerate hardware report still yields a usable limit.
    let plan = plan_run_with(Algorithm::Default, None, None, 0);
    assert_eq!(plan.worker_limit, 1);
}

#[test]
fn planning_on_this_machine_gives_a_positive_limit() {
    let plan = plan_run(Algorithm::Default, None, None);
    assert!(plan.worker_limit >= 1);
    let forced = plan_run(Algorithm::XorShift, Some(3), None);
    assert_eq!(forced.worker_limit, 1);
    assert_eq!(forced.seed, Some(3));
}
