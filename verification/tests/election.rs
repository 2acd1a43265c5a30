use exposed_app_operator::k8s_client::K8sClientError;
use exposed_app_operator::k8s_types::{K8sObject, Lease, LeaseSpec, Metadata};
use exposed_app_operator::leader_election::{
    ElectorAction, ElectorEvent, ElectorStage, LeaderElector, LEASE_NAME, LEASE_NAMESPACE,
};
use exposed_app_operator::offset_date_time_parser::{MicroTime, TimeError};

const SECOND: i128 = 1_000_000_000;

fn at(seconds: i128) -> MicroTime {
    MicroTime { unix_nanos: seconds * SECOND }
}

fn lease(rv: Option<&str>, holder: Option<&str>, acquire_time: Option<&str>, seconds: u32) -> K8sObject<Lease> {
    let mut metadata = Metadata::default();
    metadata.name = Some("no-library".to_string());
    metadata.namespace = Some("no-library".to_string());
    metadata.resource_version = rv.map(|s| s.to_string());
    K8sObject {
        api_version: "coordination.k8s.io/v1".to_string(),
        kind: "Lease".to_string(),
        metadata,
        object: Lease {
            spec: LeaseSpec {
                lease_duration_seconds: seconds,
                holder_identity: holder.map(|s| s.to_string()),
                acquire_time: acquire_time.map(|s| s.to_string()),
            },
        },
    }
}

fn candidate(pod: &str) -> LeaderElector {
    let mut elector = LeaderElector::new(pod);
    let action = elector.elect_leader();
    assert!(matches!(action, ElectorAction::GetLease { .. }));
    elector
}

fn leader(pod: &str) -> LeaderElector {
    let mut elector = candidate(pod);
    elector.step_at(ElectorEvent::LeaseFetched(Ok(lease(Some("1"), None, None, 15))), at(100));
    elector.step_at(ElectorEvent::LeasePatched(Ok(())), at(100));
    let action = elector.step_at(ElectorEvent::Signalled, at(100));
    assert!(matches!(action, ElectorAction::GetLease { .. }));
    assert_eq!(elector.stage(), ElectorStage::RenewGetting);
    elector
}

#[test]
fn a_lease_never_taken_can_be_acquired() {
    assert!(LeaderElector::can_acquire_at(None, 15, at(0)));
    assert!(LeaderElector::can_acquire_at(None, 0, at(-5)));
}

#[test]
fn a_lease_can_be_acquired_only_after_its_duration() {
    let t = Some(at(1000));
    assert!(!LeaderElector::can_acquire_at(t, 15, at(1000)));
    assert!(!LeaderElector::can_acquire_at(t, 15, at(1014)));
    assert!(!LeaderElector::can_acquire_at(t, 15, at(1015)));
    assert!(LeaderElector::can_acquire_at(t, 15, MicroTime { unix_nanos: 1015 * SECOND + 1 }));
    assert!(LeaderElector::can_acquire_at(t, 15, at(1016)));
    assert!(!LeaderElector::can_acquire_at(t, 15, at(0)));
}

#[test]
fn a_lease_of_no_duration_is_free_right_after_acquisition() {
    let t = Some(at(1000));
    assert!(!LeaderElector::can_acquire_at(t, 0, at(1000)));
    assert!(LeaderElector::can_acquire_at(t, 0, MicroTime { unix_nanos: 1000 * SECOND + 1 }));
}

#[test]
fn a_lease_at_the_end_of_time_is_never_free() {
    let t = Some(MicroTime { unix_nanos: i128::MAX });
    assert!(!LeaderElector::can_acquire_at(t, 15, MicroTime { unix_nanos: i128::MAX }));
    assert!(!LeaderElector::can_acquire_at(t, u32::MAX, at(0)));
}

#[test]
fn can_acquire_reads_the_time_of_acquisition() {
    let spec = LeaseSpec {
        lease_duration_seconds: 15,
        holder_identity: Some("pod-b".to_string()),
        acquire_time: Some("2023-11-14T22:13:20.000000Z".to_string()),
    };
    assert_eq!(LeaderElector::can_acquire(&spec, at(1_700_000_015)), Ok(false));
    assert_eq!(LeaderElector::can_acquire(&spec, at(1_700_000_016)), Ok(true));
    assert_eq!(LeaderElector::can_acquire(&spec, at(1_699_999_999)), Ok(false));
}

#[test]
fn can_acquire_without_time_of_acquisition() {
    let spec = LeaseSpec { lease_duration_seconds: 15, holder_identity: None, acquire_time: None };
    assert_eq!(LeaderElector::can_acquire(&spec, at(0)), Ok(true));
}

#[test]
fn can_acquire_rejects_a_time_that_is_none() {
    let spec = LeaseSpec {
        lease_duration_seconds: 15,
        holder_identity: None,
        acquire_time: Some("soon".to_string()),
    };
    assert_eq!(LeaderElector::can_acquire(&spec, at(0)), Err(TimeError::Parse));
}

#[test]
fn a_new_elector_is_idle_and_no_leader() {
    let elector = LeaderElector::new("pod-a");
    assert_eq!(elector.stage(), ElectorStage::Idle);
    assert!(!elector.is_leader());
    assert!(!elector.expects(&ElectorEvent::Slept));
}

#[test]
fn election_starts_by_reading_the_lease() {
    assert_eq!(LEASE_NAME, "no-library");
    assert_eq!(LEASE_NAMESPACE, "no-library");
    let mut elector = LeaderElector::new("pod-a");
    match elector.elect_leader() {
        ElectorAction::GetLease { namespace, name } => {
            assert_eq!(namespace, "no-library");
            assert_eq!(name, "no-library");
        }
        other => panic!("unexpected {:?}", other),
    }
    assert_eq!(elector.stage(), ElectorStage::AcquireGetting);
}

#[test]
fn a_candidate_patches_a_free_lease_and_turns_leader_on_success() {
    let mut elector = candidate("pod-a");
    let fetched = ElectorEvent::LeaseFetched(Ok(lease(Some("41"), None, None, 15)));
    assert!(elector.expects(&fetched));
    match elector.step_at(fetched, at(500)) {
        ElectorAction::PatchLease { namespace, name, resource_version, holder_identity, acquire_time } => {
            assert_eq!(namespace, "no-library");
            assert_eq!(name, "no-library");
            assert_eq!(resource_version, "41");
            assert_eq!(holder_identity, "pod-a");
            assert_eq!(acquire_time, at(500));
        }
        other => panic!("unexpected {:?}", other),
    }
    assert_eq!(elector.stage(), ElectorStage::AcquirePatching { wait_secs: 15 });
    assert!(!elector.is_leader());
    let action = elector.step_at(ElectorEvent::LeasePatched(Ok(())), at(501));
    assert!(matches!(action, ElectorAction::SignalLeader));
    assert!(elector.is_leader());
    let action = elector.step_at(ElectorEvent::Signalled, at(501));
    assert!(matches!(action, ElectorAction::GetLease { .. }));
    assert_eq!(elector.stage(), ElectorStage::RenewGetting);
}

#[test]
fn a_candidate_waits_for_the_duration_while_the_lease_is_held() {
    let mut elector = candidate("pod-a");
    let held = lease(Some("41"), Some("pod-b"), Some("2023-11-14T22:13:20.000000Z"), 15);
    let action = elector.step_at(ElectorEvent::LeaseFetched(Ok(held)), at(1_700_000_010));
    assert!(matches!(action, ElectorAction::Sleep { secs: 15 }));
    assert_eq!(elector.stage(), ElectorStage::AcquireSleeping);
    let action = elector.step_at(ElectorEvent::Slept, at(1_700_000_025));
    assert!(matches!(action, ElectorAction::GetLease { .. }));
    assert_eq!(elector.stage(), ElectorStage::AcquireGetting);
}

#[test]
fn a_candidate_takes_an_expired_lease() {
    let mut elector = candidate("pod-a");
    let held = lease(Some("41"), Some("pod-b"), Some("2023-11-14T22:13:20.000000Z"), 15);
    let action = elector.step_at(ElectorEvent::LeaseFetched(Ok(held)), at(1_700_000_016));
    assert!(matches!(action, ElectorAction::PatchLease { .. }));
}

#[test]
fn a_candidate_whose_patch_fails_stays_candidate() {
    let mut elector = candidate("pod-a");
    elector.step_at(ElectorEvent::LeaseFetched(Ok(lease(Some("41"), None, None, 20))), at(500));
    let action = elector.step_at(ElectorEvent::LeasePatched(Err(K8sClientError::Conflict)), at(500));
    assert!(matches!(action, ElectorAction::Sleep { secs: 20 }));
    assert_eq!(elector.stage(), ElectorStage::AcquireSleeping);
    assert!(!elector.is_leader());
}

#[test]
fn of_two_candidates_one_becomes_leader_and_the_other_keeps_polling() {
    let mut a = candidate("pod-a");
    let mut b = candidate("pod-b");
    let from_a = a.step_at(ElectorEvent::LeaseFetched(Ok(lease(Some("1"), None, None, 15))), at(10));
    let from_b = b.step_at(ElectorEvent::LeaseFetched(Ok(lease(Some("1"), None, None, 15))), at(10));
    let mut current = "1".to_string();
    let mut holder: Option<String> = None;
    let mut answers = vec![];
    for action in [from_a, from_b] {
        match action {
            ElectorAction::PatchLease { resource_version, holder_identity, .. } => {
                if resource_version == current {
                    current = "2".to_string();
                    holder = Some(holder_identity);
                    answers.push(200);
                } else {
                    answers.push(409);
                }
            }
            other => panic!("unexpected {:?}", other),
        }
    }
    assert_eq!(answers, vec![200, 409]);
    assert_eq!(holder.as_deref(), Some("pod-a"));
    let to_event = |status: u16| match K8sClientError::from_status(status, "") {
        Some(e) => ElectorEvent::LeasePatched(Err(e)),
        None => ElectorEvent::LeasePatched(Ok(())),
    };
    assert!(matches!(a.step_at(to_event(answers[0]), at(10)), ElectorAction::SignalLeader));
    assert!(matches!(b.step_at(to_event(answers[1]), at(10)), ElectorAction::Sleep { secs: 15 }));
    assert!(a.is_leader());
    assert!(!b.is_leader());
    assert!(matches!(b.step_at(ElectorEvent::Slept, at(25)), ElectorAction::GetLease { .. }));
}

#[test]
fn an_instance_is_ready_once_its_leader_signal_has_fired() {
    let mut elector = candidate("pod-a");
    assert!(!elector.is_ready());
    elector.step_at(ElectorEvent::LeaseFetched(Ok(lease(Some("1"), None, None, 15))), at(100));
    assert!(!elector.is_ready());
    elector.step_at(ElectorEvent::LeasePatched(Ok(())), at(100));
    assert!(elector.is_leader());
    assert!(!elector.is_ready());
    elector.step_at(ElectorEvent::Signalled, at(100));
    assert!(elector.is_ready());
    elector.step_at(ElectorEvent::LeaseFetched(Ok(lease(Some("2"), None, None, 15))), at(107));
    assert!(elector.is_ready());
    elector.step_at(ElectorEvent::LeasePatched(Err(K8sClientError::Conflict)), at(107));
    assert!(elector.is_ready());
    assert!(!elector.is_leader());
}

#[test]
fn a_leader_renews_and_waits_half_the_duration() {
    let mut elector = leader("pod-a");
    let own = lease(Some("2"), Some("pod-a"), Some("2023-11-14T22:13:20.000000Z"), 15);
    match elector.step_at(ElectorEvent::LeaseFetched(Ok(own)), at(1_700_000_007)) {
        ElectorAction::PatchLease { resource_version, holder_identity, acquire_time, .. } => {
            assert_eq!(resource_version, "2");
            assert_eq!(holder_identity, "pod-a");
            assert_eq!(acquire_time, at(1_700_000_007));
        }
        other => panic!("unexpected {:?}", other),
    }
    assert_eq!(elector.stage(), ElectorStage::RenewPatching { wait_secs: 7 });
    let action = elector.step_at(ElectorEvent::LeasePatched(Ok(())), at(1_700_000_007));
    assert!(matches!(action, ElectorAction::Sleep { secs: 7 }));
    assert!(elector.is_leader());
    let action = elector.step_at(ElectorEvent::Slept, at(1_700_000_014));
    assert!(matches!(action, ElectorAction::GetLease { .. }));
    assert_eq!(elector.stage(), ElectorStage::RenewGetting);
}

#[test]
fn a_leader_renews_whatever_the_time_of_acquisition_says() {
    let mut elector = leader("pod-a");
    let odd = lease(Some("2"), Some("pod-a"), Some("not a time"), 30);
    let event = ElectorEvent::LeaseFetched(Ok(odd));
    assert!(elector.expects(&event));
    let action = elector.step(event).unwrap();
    assert!(matches!(action, ElectorAction::PatchLease { .. }));
    assert_eq!(elector.stage(), ElectorStage::RenewPatching { wait_secs: 15 });
}

#[test]
fn a_leader_resigns_on_a_conflicting_renewal() {
    let mut elector = leader("pod-a");
    elector.step_at(ElectorEvent::LeaseFetched(Ok(lease(Some("2"), None, None, 15))), at(200));
    let action = elector.step_at(ElectorEvent::LeasePatched(Err(K8sClientError::Conflict)), at(200));
    assert!(matches!(action, ElectorAction::Resign));
    assert_eq!(elector.stage(), ElectorStage::Resigned);
    assert!(!elector.is_leader());
    assert!(!elector.expects(&ElectorEvent::Slept));
}

#[test]
fn a_leader_keeps_renewing_after_another_failure() {
    let mut elector = leader("pod-a");
    elector.step_at(ElectorEvent::LeaseFetched(Ok(lease(Some("2"), None, None, 15))), at(200));
    let failure = ElectorEvent::LeasePatched(Err(K8sClientError::Other(500, "x".to_string())));
    let action = elector.step_at(failure, at(200));
    assert!(matches!(action, ElectorAction::Sleep { secs: 7 }));
    assert!(elector.is_leader());
}

#[test]
fn events_out_of_turn_are_not_expected() {
    let elector = candidate("pod-a");
    assert!(!elector.expects(&ElectorEvent::Slept));
    assert!(!elector.expects(&ElectorEvent::Signalled));
    assert!(!elector.expects(&ElectorEvent::LeasePatched(Ok(()))));
    assert!(!elector.expects(&ElectorEvent::LeaseFetched(Err(K8sClientError::NotFound))));
    assert!(!elector.expects(&ElectorEvent::LeaseFetched(Ok(lease(None, None, None, 15)))));
    assert!(elector.expects(&ElectorEvent::LeaseFetched(Ok(lease(Some("1"), None, None, 15)))));
}

#[test]
fn step_reads_the_clock_for_the_time_of_acquisition() {
    let mut elector = candidate("pod-a");
    let action = elector.step(ElectorEvent::LeaseFetched(Ok(lease(Some("1"), None, None, 15)))).unwrap();
    match action {
        ElectorAction::PatchLease { acquire_time, .. } => {
            assert!(acquire_time.unix_nanos > 1_600_000_000 * SECOND);
        }
        other => panic!("unexpected {:?}", other),
    }
}

#[test]
fn step_takes_a_lease_that_expired_long_ago() {
    let mut elector = candidate("pod-a");
    let old = lease(Some("1"), Some("pod-b"), Some("2001-01-01T00:00:00.000000Z"), 15);
    let action = elector.step(ElectorEvent::LeaseFetched(Ok(old))).unwrap();
    assert!(matches!(action, ElectorAction::PatchLease { .. }));
}

#[test]
fn step_waits_for_a_lease_taken_in_the_far_future() {
    let mut elector = candidate("pod-a");
    let held = lease(Some("1"), Some("pod-b"), Some("9000-01-01T00:00:00.000000Z"), 15);
    let action = elector.step(ElectorEvent::LeaseFetched(Ok(held))).unwrap();
    assert!(matches!(action, ElectorAction::Sleep { secs: 15 }));
}

#[test]
fn step_leaves_a_candidate_as_it_is_when_the_time_is_none() {
    let mut elector = candidate("pod-a");
    let odd = lease(Some("1"), Some("pod-b"), Some("soon"), 15);
    assert!(elector.step(ElectorEvent::LeaseFetched(Ok(odd))).is_none());
    assert_eq!(elector.stage(), ElectorStage::AcquireGetting);
}
