use exposed_app_operator::cache::NamespacedName;
use exposed_app_operator::k8s_types::{ExposedApp, ExposedAppSpec, K8sObject, Metadata};
use exposed_app_operator::operator::{
    handle_reconcile_requests, next_delay, queue_takes, start_reconcile_requests, QueueAction,
    QueueEntry, QueueEvent, QueueNext, QueueStage, CHANNEL_CAPACITY, DRAIN_BATCH,
    IDLE_DELAY_SECS, INITIAL_DELAY_SECS, MAX_DELAY_SECS,
};

fn app(name: Option<&str>, namespace: Option<&str>) -> K8sObject<ExposedApp> {
    let mut metadata = Metadata::default();
    metadata.name = name.map(|s| s.to_string());
    metadata.namespace = namespace.map(|s| s.to_string());
    K8sObject {
        api_version: "stable.no-library.com/v1".to_string(),
        kind: "ExposedApp".to_string(),
        metadata,
        object: ExposedApp {
            spec: ExposedAppSpec {
                replicas: 1,
                container_port: 80,
                image: "i".to_string(),
                port: 80,
                protocol: "TCP".to_string(),
                node_port: None,
                service_type: None,
            },
            status: None,
        },
    }
}

fn entry(delay: u64) -> QueueEntry {
    QueueEntry::new(NamespacedName::new("web", "demo"), delay)
}

fn inserted(action: &QueueAction) -> Option<(String, String, u64)> {
    action.insert.as_ref().map(|e| (e.entry.namespace.clone(), e.entry.name.clone(), e.delay))
}

#[test]
fn queue_entry_holds_key_and_delay() {
    let e = QueueEntry::new(NamespacedName::new("web", "demo"), 4);
    assert_eq!(e.entry.name, "web");
    assert_eq!(e.entry.namespace, "demo");
    assert_eq!(e.delay, 4);
    let copy = e.clone();
    assert_eq!(copy.entry.name, "web");
    assert_eq!(copy.delay, 4);
}

#[test]
fn constants_of_the_queue() {
    assert_eq!(CHANNEL_CAPACITY, 64);
    assert_eq!(DRAIN_BATCH, 10);
    assert_eq!(IDLE_DELAY_SECS, 1);
    assert_eq!(INITIAL_DELAY_SECS, 2);
    assert_eq!(MAX_DELAY_SECS, 128);
}

#[test]
fn the_first_retry_waits_two_seconds() {
    assert_eq!(next_delay(0), 2);
}

#[test]
fn each_retry_doubles_the_delay_up_to_the_cap() {
    assert_eq!(next_delay(2), 4);
    assert_eq!(next_delay(4), 8);
    assert_eq!(next_delay(8), 16);
    assert_eq!(next_delay(16), 32);
    assert_eq!(next_delay(32), 64);
    assert_eq!(next_delay(64), 128);
    assert_eq!(next_delay(128), 128);
}

#[test]
fn delays_off_the_ladder_are_doubled_and_clamped() {
    assert_eq!(next_delay(1), 2);
    assert_eq!(next_delay(3), 6);
    assert_eq!(next_delay(63), 126);
    assert_eq!(next_delay(65), 128);
    assert_eq!(next_delay(100), 128);
    assert_eq!(next_delay(1000), 128);
    assert_eq!(next_delay(u64::MAX), 128);
}

#[test]
fn the_nth_retry_waits_two_to_the_n_capped_at_128() {
    let mut delay = 0;
    let mut seen = vec![];
    for _ in 0..10 {
        delay = next_delay(delay);
        seen.push(delay);
    }
    assert_eq!(seen, vec![2, 4, 8, 16, 32, 64, 128, 128, 128, 128]);
    for (i, d) in seen.iter().enumerate() {
        let n = i as u32 + 1;
        let law = std::cmp::min(128u64, 2 * std::cmp::max(1, 2u64.pow(n - 1)));
        assert_eq!(*d, law);
    }
}

#[test]
fn the_queue_starts_by_looking_into_the_channel() {
    let (stage, action) = start_reconcile_requests();
    assert!(matches!(stage, QueueStage::Draining { taken: 0 }));
    assert!(action.insert.is_none());
    assert!(matches!(action.next, QueueNext::TryReceive));
}

#[test]
fn a_request_is_inserted_without_delay() {
    let (stage, _) = start_reconcile_requests();
    let event = QueueEvent::Received(Some(app(Some("web"), Some("demo"))));
    assert!(queue_takes(&stage, &event));
    let (stage, action) = handle_reconcile_requests(stage, event);
    assert!(matches!(stage, QueueStage::Draining { taken: 1 }));
    assert_eq!(inserted(&action), Some(("demo".to_string(), "web".to_string(), 0)));
    assert!(matches!(action.next, QueueNext::TryReceive));
}

#[test]
fn at_most_ten_requests_are_taken_in_one_go() {
    let (mut stage, _) = start_reconcile_requests();
    for i in 0..10 {
        let event = QueueEvent::Received(Some(app(Some("web"), Some("demo"))));
        assert!(queue_takes(&stage, &event));
        let (next, action) = handle_reconcile_requests(stage, event);
        stage = next;
        assert!(action.insert.is_some());
        if i < 9 {
            assert!(matches!(action.next, QueueNext::TryReceive));
            assert!(matches!(stage, QueueStage::Draining { .. }));
        } else {
            assert!(matches!(action.next, QueueNext::NextExpired));
            assert!(matches!(stage, QueueStage::Popping));
        }
    }
}

#[test]
fn an_empty_channel_leads_to_the_delay_queue() {
    let (stage, _) = start_reconcile_requests();
    let (stage, action) = handle_reconcile_requests(stage, QueueEvent::Received(None));
    assert!(matches!(stage, QueueStage::Popping));
    assert!(action.insert.is_none());
    assert!(matches!(action.next, QueueNext::NextExpired));
}

#[test]
fn an_entry_that_is_due_is_reconciled() {
    let (stage, action) = handle_reconcile_requests(QueueStage::Popping, QueueEvent::Expired(Some(entry(0))));
    assert!(matches!(stage, QueueStage::Reconciling(_)));
    assert!(action.insert.is_none());
    match action.next {
        QueueNext::Reconcile(key) => {
            assert_eq!(key.name, "web");
            assert_eq!(key.namespace, "demo");
        }
        other => panic!("unexpected {:?}", other),
    }
}

#[test]
fn an_empty_delay_queue_leads_to_a_rest_and_a_new_round() {
    let (stage, action) = handle_reconcile_requests(QueueStage::Popping, QueueEvent::Expired(None));
    assert!(matches!(stage, QueueStage::Sleeping));
    assert!(matches!(action.next, QueueNext::Sleep { secs: 1 }));
    let (stage, action) = handle_reconcile_requests(stage, QueueEvent::Slept);
    assert!(matches!(stage, QueueStage::Draining { taken: 0 }));
    assert!(matches!(action.next, QueueNext::TryReceive));
}

#[test]
fn a_reconcile_that_succeeds_consumes_its_entry() {
    let (stage, action) =
        handle_reconcile_requests(QueueStage::Reconciling(entry(4)), QueueEvent::Reconciled(Ok(())));
    assert!(matches!(stage, QueueStage::Popping));
    assert!(action.insert.is_none());
    assert!(matches!(action.next, QueueNext::NextExpired));
}

#[test]
fn a_transient_failure_backs_off_two_then_four_seconds_and_then_stops() {
    let mut stage = QueueStage::Popping;
    let mut due = entry(0);
    let mut delays = vec![];
    for outcome in [Err("service PUT: 500".to_string()), Err("service PUT: 500".to_string()), Ok(())] {
        let (reconciling, action) = handle_reconcile_requests(stage, QueueEvent::Expired(Some(due.clone())));
        assert!(matches!(action.next, QueueNext::Reconcile(_)));
        let (next, action) = handle_reconcile_requests(reconciling, QueueEvent::Reconciled(outcome));
        stage = next;
        match action.insert {
            Some(again) => {
                assert_eq!(again.entry.name, "web");
                assert_eq!(again.entry.namespace, "demo");
                delays.push(again.delay);
                due = again;
            }
            None => delays.push(u64::MAX),
        }
    }
    assert_eq!(delays, vec![2, 4, u64::MAX]);
    assert!(matches!(stage, QueueStage::Popping));
}

#[test]
fn events_out_of_turn_are_not_taken() {
    assert!(!queue_takes(&QueueStage::Idle, &QueueEvent::Slept));
    assert!(!queue_takes(&QueueStage::Popping, &QueueEvent::Slept));
    assert!(!queue_takes(&QueueStage::Sleeping, &QueueEvent::Received(None)));
    assert!(!queue_takes(&QueueStage::Draining { taken: 10 }, &QueueEvent::Received(None)));
    assert!(!queue_takes(
        &QueueStage::Draining { taken: 0 },
        &QueueEvent::Received(Some(app(None, Some("demo"))))
    ));
    assert!(!queue_takes(
        &QueueStage::Draining { taken: 0 },
        &QueueEvent::Received(Some(app(Some("web"), None)))
    ));
    assert!(queue_takes(&QueueStage::Reconciling(entry(0)), &QueueEvent::Reconciled(Ok(()))));
}
