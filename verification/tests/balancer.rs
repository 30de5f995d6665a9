use load_balancer::Algorithm;
use load_balancer::BalancerError;
use load_balancer::Instance;
use load_balancer::LoadBalancerState;
use load_balancer::RequestCounter;
use load_balancer::check;
use load_balancer::try_admit;
use load_balancer::wrap_response;

fn registry(hosts: &[(&str, u16)], algorithm: Algorithm, per_instance_capacity: u32) -> LoadBalancerState {
    let mut instances: Vec<Instance> = Vec::new();
    for (hostname, port) in hosts {
        instances.push(Instance::new(hostname, *port));
    }
    LoadBalancerState::new(instances, algorithm, per_instance_capacity)
}

fn next_hostname(state: &mut LoadBalancerState) -> String {
    state.get_next_instance().expect("an instance should be enabled").hostname
}

#[test]
fn new_registry_starts_fully_enabled() {
    let state = registry(&[("a", 80), ("b", 81)], Algorithm::ROUND_ROBIN, 3);
    assert_eq!(state.instance_count(), 2);
    assert_eq!(state.round_robin_cursor(), 0);
    assert_eq!(state.is_instance_enabled(0), Ok(true));
    assert_eq!(state.is_instance_enabled(1), Ok(true));
    assert_eq!(state.health_streak(0), Ok(0));
    assert_eq!(state.health_streak(1), Ok(0));
    assert_eq!(state.current_capacity(), 6);
    assert_eq!(state.instances()[1].hostname, "b");
    assert_eq!(state.instances()[1].port, 81);
}

#[test]
fn round_robin_visits_every_enabled_instance_in_one_window() {
    let mut state = registry(&[("a", 80), ("b", 80), ("c", 80)], Algorithm::ROUND_ROBIN, 1);
    let mut seen = vec![0u32; 3];
    for _ in 0..3 {
        let hostname = next_hostname(&mut state);
        match hostname.as_str() {
            "a" => seen[0] += 1,
            "b" => seen[1] += 1,
            "c" => seen[2] += 1,
            other => panic!("unexpected instance {}", other),
        }
    }
    assert_eq!(seen, vec![1, 1, 1]);
}

#[test]
fn round_robin_never_selects_a_disabled_instance() {
    let mut state = registry(&[("a", 80), ("b", 80), ("c", 80)], Algorithm::ROUND_ROBIN, 1);
    state.exclude(1).unwrap();
    for _ in 0..6 {
        let hostname = next_hostname(&mut state);
        assert_ne!(hostname, "b");
    }
}

#[test]
fn selection_returns_none_when_nothing_is_enabled() {
    for algorithm in [Algorithm::ROUND_ROBIN, Algorithm::RANDOM] {
        let mut state = registry(&[("a", 80), ("b", 80)], algorithm, 1);
        state.exclude(0).unwrap();
        state.exclude(1).unwrap();
        assert!(state.get_next_instance().is_none());
    }
}

#[test]
fn selection_returns_none_on_an_empty_registry() {
    let mut state = registry(&[], Algorithm::ROUND_ROBIN, 5);
    assert!(state.get_next_instance().is_none());
    assert_eq!(state.current_capacity(), 0);
}

#[test]
fn random_selection_picks_an_enabled_instance() {
    let mut state = registry(&[("a", 80), ("b", 80), ("c", 80)], Algorithm::RANDOM, 1);
    state.exclude(0).unwrap();
    state.exclude(2).unwrap();
    for _ in 0..20 {
        assert_eq!(next_hostname(&mut state), "b");
        assert_eq!(state.round_robin_cursor(), 0);
    }
}

#[test]
fn one_failing_probe_disables_immediately() {
    let mut state = registry(&[("a", 80)], Algorithm::ROUND_ROBIN, 1);
    state.report_healthcheck_results(vec![true]);
    state.report_healthcheck_results(vec![true]);
    assert_eq!(state.is_instance_enabled(0), Ok(true));
    state.report_healthcheck_results(vec![false]);
    assert_eq!(state.is_instance_enabled(0), Ok(false));
    assert_eq!(state.health_streak(0), Ok(0));
}

#[test]
fn recovery_takes_two_consecutive_successes() {
    let mut state = registry(&[("a", 80)], Algorithm::ROUND_ROBIN, 1);
    state.report_healthcheck_results(vec![false]);
    assert_eq!(state.is_instance_enabled(0), Ok(false));
    state.report_healthcheck_results(vec![true]);
    assert_eq!(state.is_instance_enabled(0), Ok(false));
    assert_eq!(state.health_streak(0), Ok(1));
    state.report_healthcheck_results(vec![true]);
    assert_eq!(state.is_instance_enabled(0), Ok(true));
    assert_eq!(state.health_streak(0), Ok(2));
}

#[test]
fn interrupted_success_restarts_the_streak() {
    let mut state = registry(&[("a", 80)], Algorithm::ROUND_ROBIN, 1);
    state.report_healthcheck_results(vec![false]);
    state.report_healthcheck_results(vec![true]);
    state.report_healthcheck_results(vec![false]);
    assert_eq!(state.is_instance_enabled(0), Ok(false));
    assert_eq!(state.health_streak(0), Ok(0));
}

#[test]
fn health_streak_saturates_instead_of_wrapping() {
    let mut state = registry(&[("a", 80)], Algorithm::ROUND_ROBIN, 1);
    for _ in 0..300 {
        state.report_healthcheck_results(vec![true]);
    }
    assert_eq!(state.health_streak(0), Ok(255));
    assert_eq!(state.is_instance_enabled(0), Ok(true));
    state.report_healthcheck_results(vec![true]);
    assert_eq!(state.health_streak(0), Ok(255));
}

#[test]
fn probe_outcomes_apply_per_instance() {
    let mut state = registry(&[("a", 80), ("b", 80)], Algorithm::ROUND_ROBIN, 1);
    state.report_healthcheck_results(vec![true, false]);
    assert_eq!(state.is_instance_enabled(0), Ok(true));
    assert_eq!(state.is_instance_enabled(1), Ok(false));
    assert_eq!(state.health_streak(0), Ok(1));
    assert_eq!(state.health_streak(1), Ok(0));
}

#[test]
fn admission_boundary_sits_at_current_capacity() {
    let mut state = registry(&[("a", 80), ("b", 80), ("c", 80)], Algorithm::ROUND_ROBIN, 2);
    assert_eq!(state.current_capacity(), 6);
    assert!(state.admit_and_select(6).is_ok());
    assert_eq!(state.admit_and_select(7).unwrap_err(), BalancerError::CapacityExceeded);
    // One in-flight request completing frees exactly one slot.
    let mut counter = RequestCounter::new();
    for _ in 0..7 {
        counter.on_request();
    }
    assert!(!try_admit(counter.get_num_requests(), state.current_capacity()));
    counter.on_response();
    assert_eq!(counter.get_num_requests(), 6);
    assert!(try_admit(counter.get_num_requests(), state.current_capacity()));
}

#[test]
fn capacity_follows_the_enabled_count() {
    let mut state = registry(&[("a", 80), ("b", 80), ("c", 80)], Algorithm::ROUND_ROBIN, 2);
    state.exclude(2).unwrap();
    assert_eq!(state.current_capacity(), 4);
    state.exclude(0).unwrap();
    state.exclude(1).unwrap();
    assert_eq!(state.current_capacity(), 0);
}

#[test]
fn rejection_leaves_the_registry_untouched() {
    let mut state = registry(&[("a", 80), ("b", 80)], Algorithm::ROUND_ROBIN, 1);
    assert_eq!(state.admit_and_select(3).unwrap_err(), BalancerError::CapacityExceeded);
    assert_eq!(state.round_robin_cursor(), 0);
    assert_eq!(state.is_instance_enabled(0), Ok(true));
    assert_eq!(state.is_instance_enabled(1), Ok(true));
}

#[test]
fn no_instance_available_when_all_are_out() {
    let mut state = registry(&[("a", 80)], Algorithm::ROUND_ROBIN, 4);
    state.exclude(0).unwrap();
    assert_eq!(state.admit_and_select(0).unwrap_err(), BalancerError::NoInstanceAvailable);
}

#[test]
fn reinstating_with_a_failed_probe_changes_nothing() {
    let mut state = registry(&[("a", 80), ("b", 80)], Algorithm::ROUND_ROBIN, 1);
    state.exclude(1).unwrap();
    assert_eq!(state.reinstate(1, false), Ok(false));
    assert_eq!(state.is_instance_enabled(1), Ok(false));
}

#[test]
fn reinstating_with_a_healthy_probe_enables() {
    let mut state = registry(&[("a", 80), ("b", 80)], Algorithm::ROUND_ROBIN, 1);
    state.exclude(1).unwrap();
    assert_eq!(state.reinstate(1, true), Ok(true));
    assert_eq!(state.is_instance_enabled(1), Ok(true));
}

#[test]
fn excluding_disables_without_a_probe() {
    let mut state = registry(&[("a", 80)], Algorithm::ROUND_ROBIN, 1);
    state.report_healthcheck_results(vec![true]);
    state.report_healthcheck_results(vec![true]);
    assert_eq!(state.health_streak(0), Ok(2));
    state.exclude(0).unwrap();
    assert_eq!(state.is_instance_enabled(0), Ok(false));
    // The health streak is not touched by an administrative exclude.
    assert_eq!(state.health_streak(0), Ok(2));
}

#[test]
fn administrative_calls_reject_an_out_of_range_index() {
    let mut state = registry(&[("a", 80)], Algorithm::ROUND_ROBIN, 1);
    assert_eq!(state.exclude(1), Err(BalancerError::IndexOutOfRange));
    assert_eq!(state.reinstate(1, true), Err(BalancerError::IndexOutOfRange));
    assert_eq!(state.set_enabled(1, true), Err(BalancerError::IndexOutOfRange));
    assert_eq!(state.is_instance_enabled(1), Err(BalancerError::IndexOutOfRange));
    assert_eq!(state.health_streak(1), Err(BalancerError::IndexOutOfRange));
    assert_eq!(state.is_instance_enabled(0), Ok(true));
}

#[test]
fn serialized_round_robin_spreads_selections_evenly() {
    let mut state = registry(&[("a", 80), ("b", 80), ("c", 80)], Algorithm::ROUND_ROBIN, 1);
    let mut seen = vec![0u32; 3];
    let mut order: Vec<String> = Vec::new();
    for _ in 0..6 {
        let hostname = next_hostname(&mut state);
        match hostname.as_str() {
            "a" => seen[0] += 1,
            "b" => seen[1] += 1,
            "c" => seen[2] += 1,
            other => panic!("unexpected instance {}", other),
        }
        order.push(hostname);
    }
    assert_eq!(seen, vec![2, 2, 2]);
    assert_eq!(order, vec!["a", "b", "c", "a", "b", "c"]);
}

#[test]
fn request_counter_tracks_entries_and_exits() {
    let mut counter = RequestCounter::new();
    assert_eq!(counter.get_num_requests(), 0);
    counter.on_request();
    counter.on_request();
    assert_eq!(counter.get_num_requests(), 2);
    counter.on_response();
    assert_eq!(counter.get_num_requests(), 1);
}

#[test]
fn response_body_carries_the_prefix() {
    assert_eq!(wrap_response("Provider#17"), "got Provider#17");
    assert_eq!(wrap_response(""), "got ");
}

#[test]
fn provider_check_acknowledges() {
    assert_eq!(check(), "OK");
}

#[test]
fn end_to_end_round_robin_with_one_flaky_backend() {
    // Two instances, round robin, one slot per instance.
    let mut state = registry(&[("a", 80), ("b", 80)], Algorithm::ROUND_ROBIN, 1);
    let in_flight: u32 = 1;
    assert_eq!(state.admit_and_select(in_flight).unwrap().hostname, "a");
    assert_eq!(state.admit_and_select(in_flight).unwrap().hostname, "b");
    assert_eq!(state.admit_and_select(in_flight).unwrap().hostname, "a");
    // One failing probe alone pulls b out.
    state.report_healthcheck_results(vec![true, false]);
    for _ in 0..4 {
        assert_eq!(state.admit_and_select(in_flight).unwrap().hostname, "a");
    }
    // One success leaves b out; the second brings it back.
    state.report_healthcheck_results(vec![true, true]);
    assert_eq!(state.admit_and_select(in_flight).unwrap().hostname, "a");
    state.report_healthcheck_results(vec![true, true]);
    let mut hosts: Vec<String> = Vec::new();
    for _ in 0..2 {
        hosts.push(state.admit_and_select(in_flight).unwrap().hostname);
    }
    assert!(hosts.contains(&String::from("b")));
}

#[test]
fn instance_new_copies_its_identity() {
    let instance = Instance::new("backend.example", 9000);
    assert_eq!(instance.hostname, "backend.example");
    assert_eq!(instance.port, 9000);
    let copy = instance.clone();
    assert_eq!(copy.hostname, "backend.example");
    assert_eq!(copy.port, 9000);
}

#[test]
fn snapshot_is_an_independent_copy() {
    let mut state = registry(&[("a", 80), ("b", 81)], Algorithm::ROUND_ROBIN, 1);
    let snapshot = state.snapshot_instances();
    state.exclude(0).unwrap();
    assert_eq!(snapshot.len(), 2);
    assert_eq!(snapshot[0].hostname, "a");
    assert_eq!(snapshot[1].port, 81);
}
