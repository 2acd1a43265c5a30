use exposed_app_operator::cache::{new_cache, NamespacedName, VersionCache};
use exposed_app_operator::k8s_client::K8sClientError;
use exposed_app_operator::k8s_types::{
    Deployment, Event, EventType, ExposedApp, ExposedAppSpec, ExposedAppStatus, K8sObject, Metadata,
    Service,
};
use exposed_app_operator::labels::Labels;
use exposed_app_operator::offset_date_time_parser::parse;
use exposed_app_operator::reconciler::{
    ApiResponse, ReconcileAction, Reconciler, EVENT_SUFFIX_LEN, INSTANCE_LABEL,
    REPORTING_CONTROLLER,
};

fn parent_with(replicas: u32, node_port: Option<u32>, service_type: Option<&str>) -> K8sObject<ExposedApp> {
    let mut metadata = Metadata::default();
    metadata.name = Some("web".to_string());
    metadata.namespace = Some("demo".to_string());
    metadata.uid = Some("uid-1".to_string());
    metadata.resource_version = Some("10".to_string());
    metadata.generation = Some(1);
    K8sObject {
        api_version: "stable.no-library.com/v1".to_string(),
        kind: "ExposedApp".to_string(),
        metadata,
        object: ExposedApp {
            spec: ExposedAppSpec {
                replicas,
                container_port: 80,
                image: "nginx:1.25".to_string(),
                port: 80,
                protocol: "TCP".to_string(),
                node_port,
                service_type: service_type.map(|s| s.to_string()),
            },
            status: None,
        },
    }
}

fn parent() -> K8sObject<ExposedApp> {
    parent_with(2, None, None)
}

fn written<T>(mut object: K8sObject<T>, uid: &str, rv: &str, generation: Option<u64>) -> K8sObject<T> {
    object.metadata.uid = Some(uid.to_string());
    object.metadata.resource_version = Some(rv.to_string());
    object.metadata.generation = generation;
    object
}

fn posted(event: &K8sObject<Event>) -> K8sObject<Event> {
    written(event.clone(), "uid-e", "1", None)
}

fn expect_deployment(action: ReconcileAction) -> K8sObject<Deployment> {
    match action {
        ReconcileAction::SaveDeployment(d) => d,
        other => panic!("unexpected {:?}", other),
    }
}

fn expect_service(action: ReconcileAction) -> K8sObject<Service> {
    match action {
        ReconcileAction::PutService(s) => s,
        other => panic!("unexpected {:?}", other),
    }
}

fn expect_event(action: ReconcileAction) -> (String, K8sObject<Event>) {
    match action {
        ReconcileAction::PostEvent { namespace, event } => (namespace, event),
        other => panic!("unexpected {:?}", other),
    }
}

fn started(pod: &str) -> Reconciler {
    let mut reconciler = Reconciler::new(pod.to_string());
    match reconciler.reconcile(NamespacedName::new("web", "demo")) {
        ReconcileAction::GetExposedApp { name, namespace } => {
            assert_eq!(name, "web");
            assert_eq!(namespace, "demo");
        }
        other => panic!("unexpected {:?}", other),
    }
    reconciler
}

const TIME: &str = "2024-01-01T00:00:00.000000Z";

fn until_service(cache: &mut VersionCache, p: K8sObject<ExposedApp>) -> (Reconciler, K8sObject<Service>) {
    let mut reconciler = started("pod-a");
    let d = expect_deployment(reconciler.step_at(ApiResponse::ExposedApp(Ok(p)), cache, TIME, "aaaaaaaaaa"));
    let (_, e) = expect_event(reconciler.step_at(
        ApiResponse::Deployment(Ok(written(d, "uid-d", "100", Some(1)))),
        cache,
        TIME,
        "aaaaaaaaaa",
    ));
    let s = expect_service(reconciler.step_at(ApiResponse::Event(Ok(posted(&e))), cache, TIME, "aaaaaaaaaa"));
    (reconciler, s)
}

#[test]
fn cold_start_writes_deployment_event_service_event_status_in_order() {
    let mut cache = new_cache();
    let mut reconciler = started("pod-a");

    let fetched = ApiResponse::ExposedApp(Ok(parent()));
    assert!(reconciler.accepts(&fetched));
    let deployment = expect_deployment(reconciler.step_at(fetched, &mut cache, TIME, "abcdefghij"));
    assert_eq!(deployment.api_version, "apps/v1");
    assert_eq!(deployment.kind, "Deployment");
    assert_eq!(deployment.metadata.name.as_deref(), Some("web-deployment"));
    assert_eq!(deployment.metadata.namespace.as_deref(), Some("demo"));
    assert_eq!(deployment.object.spec.replicas, 2);
    assert_eq!(cache.len(), 0);

    let saved = ApiResponse::Deployment(Ok(written(deployment, "uid-d", "100", Some(1))));
    assert!(reconciler.accepts(&saved));
    let (namespace, event) = expect_event(reconciler.step_at(saved, &mut cache, TIME, "abcdefghij"));
    assert_eq!(namespace, "demo");
    assert_eq!(event.object.action, "DeploymentProvisioned");
    assert_eq!(cache.len(), 1);

    let reported = ApiResponse::Event(Ok(posted(&event)));
    assert!(reconciler.accepts(&reported));
    let service = expect_service(reconciler.step_at(reported, &mut cache, TIME, "klmnopqrst"));
    assert_eq!(service.metadata.name.as_deref(), Some("web-service"));

    let put = ApiResponse::Service(Ok(written(service, "uid-s", "101", None)));
    assert!(reconciler.accepts(&put));
    let (namespace, event) = expect_event(reconciler.step_at(put, &mut cache, TIME, "klmnopqrst"));
    assert_eq!(namespace, "demo");
    assert_eq!(event.object.action, "ServiceProvisioned");
    assert_eq!(cache.len(), 2);

    let reported = ApiResponse::Event(Ok(posted(&event)));
    let app = match reconciler.step_at(reported, &mut cache, TIME, "x") {
        ReconcileAction::PutExposedAppStatus { namespace, name, app } => {
            assert_eq!(namespace, "demo");
            assert_eq!(name, "web");
            app
        }
        other => panic!("unexpected {:?}", other),
    };
    let status = app.object.status.as_ref().unwrap();
    assert_eq!(status.deployment_name, "web-deployment");
    assert_eq!(status.service_name, "web-service");
    assert_eq!(app.object.spec.image, "nginx:1.25");
    assert_eq!(app.metadata.uid.as_deref(), Some("uid-1"));

    let patched = ApiResponse::ExposedApp(Ok(written(app, "uid-1", "11", Some(1))));
    assert!(reconciler.accepts(&patched));
    let done = reconciler.step_at(patched, &mut cache, TIME, "x");
    assert!(matches!(done, ReconcileAction::Finish(Ok(()))));
    assert_eq!(cache.len(), 3);
    assert!(!reconciler.accepts(&ApiResponse::ExposedApp(Ok(parent()))));
}

#[test]
fn the_deployment_follows_the_parent() {
    let d = Reconciler::desired_deployment(&parent());
    assert_eq!(d.metadata.name.as_deref(), Some("web-deployment"));
    assert_eq!(d.metadata.namespace.as_deref(), Some("demo"));
    let owners = d.metadata.owner_references.as_ref().unwrap();
    assert_eq!(owners.len(), 1);
    assert_eq!(owners[0].api_version, "stable.no-library.com/v1");
    assert_eq!(owners[0].kind, "ExposedApp");
    assert_eq!(owners[0].name, "web");
    assert_eq!(owners[0].uid, "uid-1");
    assert!(owners[0].controller);
    assert!(owners[0].block_owner_deletion);
    assert!(d.metadata.resource_version.is_none());
    assert!(d.metadata.uid.is_none());
    assert!(d.metadata.labels.is_none());
    let spec = &d.object.spec;
    assert_eq!(spec.replicas, 2);
    assert_eq!(spec.selector.match_labels.len(), 1);
    assert_eq!(spec.selector.match_labels.get(INSTANCE_LABEL).unwrap(), "web-deployment");
    let pod_labels = spec.template.metadata.labels.as_ref().unwrap();
    assert_eq!(pod_labels.len(), 1);
    assert_eq!(pod_labels.get("app.kubernetes.io/instance").unwrap(), "web-deployment");
    assert_eq!(spec.template.metadata.name.as_deref(), Some("web-deployment"));
    assert!(spec.template.metadata.namespace.is_none());
    assert!(spec.template.metadata.owner_references.is_none());
    assert_eq!(spec.template.spec.containers.len(), 1);
    let container = &spec.template.spec.containers[0];
    assert_eq!(container.name, "main");
    assert_eq!(container.image, "nginx:1.25");
    let ports = container.ports.as_ref().unwrap();
    assert_eq!(ports.len(), 1);
    assert_eq!(ports[0].container_port, 80);
}

#[test]
fn zero_replicas_give_a_deployment_with_zero_replicas() {
    let d = Reconciler::desired_deployment(&parent_with(0, None, None));
    assert_eq!(d.object.spec.replicas, 0);
    assert_eq!(d.object.spec.template.spec.containers.len(), 1);
}

#[test]
fn the_service_follows_the_parent() {
    let mut p = parent();
    p.object.spec.port = 8080;
    p.object.spec.container_port = 3000;
    p.object.spec.protocol = "UDP".to_string();
    let s = Reconciler::desired_service(&p);
    assert_eq!(s.api_version, "v1");
    assert_eq!(s.kind, "Service");
    assert_eq!(s.metadata.name.as_deref(), Some("web-service"));
    assert_eq!(s.metadata.namespace.as_deref(), Some("demo"));
    let owners = s.metadata.owner_references.as_ref().unwrap();
    assert_eq!(owners.len(), 1);
    assert_eq!(owners[0].name, "web");
    assert!(owners[0].controller);
    assert!(owners[0].block_owner_deletion);
    let selector = s.object.spec.selector.as_ref().unwrap();
    assert_eq!(selector.len(), 1);
    assert_eq!(selector.get(INSTANCE_LABEL).unwrap(), "web-deployment");
    assert_eq!(s.object.spec.ports.len(), 1);
    let port = &s.object.spec.ports[0];
    assert_eq!(port.protocol, "UDP");
    assert_eq!(port.port, 8080);
    assert_eq!(port.target_port, 3000);
}

#[test]
fn absent_node_port_and_service_type_are_absent_on_the_service() {
    let s = Reconciler::desired_service(&parent_with(2, None, None));
    assert!(s.object.spec.service_type.is_none());
    assert!(s.object.spec.ports[0].node_port.is_none());
}

#[test]
fn node_port_and_service_type_are_passed_on_when_present() {
    let s = Reconciler::desired_service(&parent_with(2, Some(30080), Some("NodePort")));
    assert_eq!(s.object.spec.service_type.as_deref(), Some("NodePort"));
    assert_eq!(s.object.spec.ports[0].node_port, Some(30080));
}

#[test]
fn deployment_and_service_builders_take_their_names_and_labels() {
    let labels = Labels::single("k", "v");
    let d = Reconciler::deployment("n", "ns", &labels, &parent());
    assert_eq!(d.metadata.name.as_deref(), Some("n"));
    assert_eq!(d.metadata.namespace.as_deref(), Some("ns"));
    assert_eq!(d.object.spec.selector.match_labels.get("k").unwrap(), "v");
    let s = Reconciler::service("m", "ns", &labels, &parent());
    assert_eq!(s.metadata.name.as_deref(), Some("m"));
    assert_eq!(s.object.spec.selector.as_ref().unwrap().get("k").unwrap(), "v");
}

#[test]
fn owner_reference_and_child_metadata() {
    let owner = Reconciler::create_owner_reference(&parent());
    assert_eq!(owner.kind, "ExposedApp");
    assert_eq!(owner.name, "web");
    assert_eq!(owner.uid, "uid-1");
    assert!(owner.controller && owner.block_owner_deletion);
    let metadata = Reconciler::metadata("child", "demo", &parent());
    assert_eq!(metadata.name.as_deref(), Some("child"));
    assert_eq!(metadata.namespace.as_deref(), Some("demo"));
    assert_eq!(metadata.owner_references.as_ref().unwrap().len(), 1);
    assert!(metadata.generation.is_none());
    assert!(metadata.annotations.is_none());
    assert!(metadata.finalizers.is_none());
    assert!(metadata.deletion_timestamp.is_none());
}

#[test]
fn with_status_names_the_children_and_keeps_the_rest() {
    let app = Reconciler::with_status(parent_with(3, Some(1), Some("ClusterIP")));
    let status = app.object.status.as_ref().unwrap();
    assert_eq!(status.deployment_name, "web-deployment");
    assert_eq!(status.service_name, "web-service");
    assert_eq!(app.object.spec.replicas, 3);
    assert_eq!(app.metadata.resource_version.as_deref(), Some("10"));
    assert_eq!(app.kind, "ExposedApp");
}

#[test]
fn a_second_reconcile_of_the_reconciled_parent_writes_the_same() {
    let first = parent();
    let mut second = Reconciler::with_status(parent());
    second.metadata.resource_version = Some("11".to_string());
    second.object.status = Some(ExposedAppStatus {
        deployment_name: "web-deployment".to_string(),
        service_name: "web-service".to_string(),
    });
    let d1 = Reconciler::desired_deployment(&first);
    let d2 = Reconciler::desired_deployment(&second);
    assert_eq!(format!("{:?}", d1), format!("{:?}", d2));
    let s1 = Reconciler::desired_service(&first);
    let s2 = Reconciler::desired_service(&second);
    assert_eq!(format!("{:?}", s1), format!("{:?}", s2));
    let a1 = Reconciler::with_status(first);
    let a2 = Reconciler::with_status(second);
    assert_eq!(format!("{:?}", a1.object.status), format!("{:?}", a2.object.status));
}

#[test]
fn the_deployment_event_reports_name_and_replicas() {
    let mut cache = new_cache();
    let mut reconciler = started("pod-7");
    let d = expect_deployment(reconciler.step_at(ApiResponse::ExposedApp(Ok(parent())), &mut cache, TIME, "s"));
    let (_, event) = expect_event(reconciler.step_at(
        ApiResponse::Deployment(Ok(written(d, "uid-d", "100", Some(4)))),
        &mut cache,
        TIME,
        "abc123defg",
    ));
    assert_eq!(event.api_version, "events.k8s.io/v1");
    assert_eq!(event.kind, "Event");
    assert_eq!(event.metadata.name.as_deref(), Some("web-abc123defg"));
    assert_eq!(event.metadata.namespace.as_deref(), Some("demo"));
    assert!(event.metadata.owner_references.is_none());
    let e = &event.object;
    assert_eq!(e.event_time, TIME);
    assert_eq!(e.action, "DeploymentProvisioned");
    assert_eq!(e.reason, "ProvisioningRequested");
    assert_eq!(
        e.note.as_deref(),
        Some("Deployment web-deployment provisioned successfully with 2 replicas")
    );
    assert_eq!(e.event_type, EventType::Normal);
    assert_eq!(REPORTING_CONTROLLER, "no-library");
    assert_eq!(e.reporting_controller, "no-library");
    assert_eq!(e.reporting_instance, "pod-7");
    let regarding = e.regarding.as_ref().unwrap();
    assert_eq!(regarding.api_version, "stable.no-library.com/v1");
    assert_eq!(regarding.kind, "ExposedApp");
    assert_eq!(regarding.name, "web");
    assert_eq!(regarding.namespace, "demo");
    assert_eq!(regarding.uid, "uid-1");
    let related = e.related.as_ref().unwrap();
    assert_eq!(related.api_version, "apps/v1");
    assert_eq!(related.kind, "Deployment");
    assert_eq!(related.name, "web-deployment");
    assert_eq!(related.namespace, "demo");
    assert_eq!(related.uid, "uid-d");
}

#[test]
fn the_service_event_reports_the_name() {
    let mut cache = new_cache();
    let (mut reconciler, s) = until_service(&mut cache, parent());
    let (_, event) = expect_event(reconciler.step_at(
        ApiResponse::Service(Ok(written(s, "uid-s", "101", None))),
        &mut cache,
        TIME,
        "0123456789",
    ));
    assert_eq!(event.metadata.name.as_deref(), Some("web-0123456789"));
    assert_eq!(event.object.action, "ServiceProvisioned");
    assert_eq!(event.object.reason, "ProvisioningRequested");
    assert_eq!(event.object.note.as_deref(), Some("Service web-service successfully provisioned"));
    let related = event.object.related.as_ref().unwrap();
    assert_eq!(related.api_version, "v1");
    assert_eq!(related.kind, "Service");
    assert_eq!(related.name, "web-service");
    assert_eq!(related.uid, "uid-s");
}

#[test]
fn the_cache_holds_the_resource_version_of_each_write() {
    let mut cache = new_cache();
    let (mut reconciler, s) = until_service(&mut cache, parent());
    let deployment = cache.get(&NamespacedName::new("web-deployment", "demo")).unwrap();
    assert_eq!(deployment.resource_version, "100");
    assert_eq!(deployment.generation, Some(1));
    assert!(cache.get(&NamespacedName::new("web-service", "demo")).is_none());
    let (_, event) = expect_event(reconciler.step_at(
        ApiResponse::Service(Ok(written(s, "uid-s", "101", Some(9)))),
        &mut cache,
        TIME,
        "s",
    ));
    let service = cache.get(&NamespacedName::new("web-service", "demo")).unwrap();
    assert_eq!(service.resource_version, "101");
    assert_eq!(service.generation, None);
    let app = match reconciler.step_at(ApiResponse::Event(Ok(posted(&event))), &mut cache, TIME, "s") {
        ReconcileAction::PutExposedAppStatus { app, .. } => app,
        other => panic!("unexpected {:?}", other),
    };
    assert!(cache.get(&NamespacedName::new("web", "demo")).is_none());
    reconciler.step_at(ApiResponse::ExposedApp(Ok(written(app, "uid-1", "12", Some(5)))), &mut cache, TIME, "s");
    let parent = cache.get(&NamespacedName::new("web", "demo")).unwrap();
    assert_eq!(parent.resource_version, "12");
    assert_eq!(parent.generation, Some(5));
    assert_eq!(cache.get(&NamespacedName::new("web-deployment", "demo")).unwrap().resource_version, "100");
}

#[test]
fn a_parent_that_is_gone_ends_the_reconcile_well() {
    let mut cache = new_cache();
    let mut reconciler = started("pod-a");
    let gone = ApiResponse::ExposedApp(Err(K8sClientError::NotFound));
    assert!(reconciler.accepts(&gone));
    let action = reconciler.step_at(gone, &mut cache, TIME, "s");
    assert!(matches!(action, ReconcileAction::Finish(Ok(()))));
    assert_eq!(cache.len(), 0);
}

#[test]
fn a_parent_that_cannot_be_read_fails_the_reconcile() {
    let mut cache = new_cache();
    let mut reconciler = started("pod-a");
    let failure = ApiResponse::ExposedApp(Err(K8sClientError::Other(500, "boom".to_string())));
    match reconciler.step_at(failure, &mut cache, TIME, "s") {
        ReconcileAction::Finish(Err(message)) => {
            assert_eq!(message, "Unable to get ExposedApp: Other(500, \"boom\")")
        }
        other => panic!("unexpected {:?}", other),
    }
    let mut reconciler = started("pod-a");
    match reconciler.step_at(ApiResponse::ExposedApp(Err(K8sClientError::Conflict)), &mut cache, TIME, "s") {
        ReconcileAction::Finish(Err(message)) => assert_eq!(message, "Unable to get ExposedApp: Conflict"),
        other => panic!("unexpected {:?}", other),
    }
}

#[test]
fn a_deployment_that_cannot_be_saved_fails_the_reconcile() {
    let mut cache = new_cache();
    let mut reconciler = started("pod-a");
    reconciler.step_at(ApiResponse::ExposedApp(Ok(parent())), &mut cache, TIME, "s");
    let failure = ApiResponse::Deployment(Err(K8sClientError::NotFound));
    assert!(reconciler.accepts(&failure));
    match reconciler.step_at(failure, &mut cache, TIME, "s") {
        ReconcileAction::Finish(Err(message)) => {
            assert_eq!(message, "Error occurred while saving a deployment: NotFound")
        }
        other => panic!("unexpected {:?}", other),
    }
    assert_eq!(cache.len(), 0);
}

#[test]
fn a_service_that_cannot_be_written_fails_the_reconcile() {
    let mut cache = new_cache();
    let (mut reconciler, _) = until_service(&mut cache, parent());
    let failure = ApiResponse::Service(Err(K8sClientError::Other(500, "down".to_string())));
    match reconciler.step_at(failure, &mut cache, TIME, "s") {
        ReconcileAction::Finish(Err(message)) => {
            assert_eq!(message, "Error occurred while creating a service: Other(500, \"down\")")
        }
        other => panic!("unexpected {:?}", other),
    }
    assert_eq!(cache.len(), 1);
}

#[test]
fn a_status_that_cannot_be_written_fails_the_reconcile() {
    let mut cache = new_cache();
    let (mut reconciler, s) = until_service(&mut cache, parent());
    let (_, e) = expect_event(reconciler.step_at(
        ApiResponse::Service(Ok(written(s, "uid-s", "101", None))),
        &mut cache,
        TIME,
        "s",
    ));
    reconciler.step_at(ApiResponse::Event(Ok(posted(&e))), &mut cache, TIME, "s");
    match reconciler.step_at(ApiResponse::ExposedApp(Err(K8sClientError::Conflict)), &mut cache, TIME, "s") {
        ReconcileAction::Finish(Err(message)) => {
            assert_eq!(message, "Error occurred while updating ExposedApp status: Conflict")
        }
        other => panic!("unexpected {:?}", other),
    }
    assert_eq!(cache.len(), 2);
}

#[test]
fn responses_out_of_turn_or_short_of_fields_are_not_accepted() {
    let mut cache = new_cache();
    let idle = Reconciler::new("pod-a".to_string());
    assert!(!idle.accepts(&ApiResponse::ExposedApp(Ok(parent()))));
    let mut reconciler = started("pod-a");
    let d = Reconciler::desired_deployment(&parent());
    assert!(!reconciler.accepts(&ApiResponse::Deployment(Ok(written(d, "u", "1", Some(1))))));
    let mut nameless = parent();
    nameless.metadata.name = None;
    assert!(!reconciler.accepts(&ApiResponse::ExposedApp(Ok(nameless))));
    let mut without_uid = parent();
    without_uid.metadata.uid = None;
    assert!(!reconciler.accepts(&ApiResponse::ExposedApp(Ok(without_uid))));
    let d = expect_deployment(reconciler.step_at(ApiResponse::ExposedApp(Ok(parent())), &mut cache, TIME, "s"));
    assert!(!reconciler.accepts(&ApiResponse::Deployment(Ok(d.clone()))));
    assert!(!reconciler.accepts(&ApiResponse::Deployment(Ok(written(d.clone(), "u", "1", None)))));
    assert!(reconciler.accepts(&ApiResponse::Deployment(Ok(written(d.clone(), "u", "1", Some(1))))));
    let (_, e) = expect_event(reconciler.step_at(
        ApiResponse::Deployment(Ok(written(d, "u", "1", Some(1)))),
        &mut cache,
        TIME,
        "s",
    ));
    assert!(reconciler.accepts(&ApiResponse::Event(Err(K8sClientError::Conflict))));
    assert!(reconciler.accepts(&ApiResponse::Event(Ok(e))));
    assert!(!reconciler.accepts(&ApiResponse::ExposedApp(Ok(parent()))));
}

#[test]
fn an_event_that_cannot_be_posted_fails_the_reconcile() {
    let mut cache = new_cache();
    let mut reconciler = started("pod-a");
    let d = expect_deployment(reconciler.step_at(ApiResponse::ExposedApp(Ok(parent())), &mut cache, TIME, "s"));
    reconciler.step_at(ApiResponse::Deployment(Ok(written(d, "u", "1", Some(1)))), &mut cache, TIME, "s");
    let failure = ApiResponse::Event(Err(K8sClientError::Other(503, "busy".to_string())));
    match reconciler.step_at(failure, &mut cache, TIME, "s") {
        ReconcileAction::Finish(Err(message)) => {
            assert_eq!(message, "Error occurred while sending an event: Other(503, \"busy\")")
        }
        other => panic!("unexpected {:?}", other),
    }
    assert_eq!(cache.len(), 1);

    let mut cache = new_cache();
    let (mut reconciler, s) = until_service(&mut cache, parent());
    reconciler.step_at(ApiResponse::Service(Ok(written(s, "u", "2", None))), &mut cache, TIME, "s");
    match reconciler.step_at(ApiResponse::Event(Err(K8sClientError::NotFound)), &mut cache, TIME, "s") {
        ReconcileAction::Finish(Err(message)) => {
            assert_eq!(message, "Error occurred while sending an event: NotFound")
        }
        other => panic!("unexpected {:?}", other),
    }
    assert_eq!(cache.len(), 2);
}

#[test]
fn a_spec_is_valid_when_its_ports_and_service_type_are() {
    assert!(parent().object.spec.is_valid());
    assert!(parent_with(0, None, None).object.spec.is_valid());
    assert!(parent_with(2, Some(30080), Some("NodePort")).object.spec.is_valid());
    assert!(parent_with(2, Some(1), Some("ClusterIP")).object.spec.is_valid());
    assert!(parent_with(2, Some(65535), Some("LoadBalancer")).object.spec.is_valid());
    assert!(!parent_with(2, Some(0), None).object.spec.is_valid());
    assert!(!parent_with(2, Some(65536), None).object.spec.is_valid());
    assert!(!parent_with(2, None, Some("Headless")).object.spec.is_valid());
    assert!(!parent_with(2, None, Some("")).object.spec.is_valid());
    let mut p = parent();
    p.object.spec.port = 0;
    assert!(!p.object.spec.is_valid());
    p.object.spec.port = 65535;
    assert!(p.object.spec.is_valid());
    p.object.spec.container_port = 65536;
    assert!(!p.object.spec.is_valid());
    p.object.spec.container_port = 1;
    assert!(p.object.spec.is_valid());
}

#[test]
fn random_str_has_the_length_asked_for_and_is_alphanumeric() {
    for len in [0usize, 1, 10, 64] {
        let text = Reconciler::random_str(len);
        assert_eq!(text.chars().count(), len);
        assert!(text.chars().all(|c| c.is_ascii_alphanumeric()));
    }
}

#[test]
fn random_strings_differ() {
    assert_ne!(Reconciler::random_str(32), Reconciler::random_str(32));
}

#[test]
fn event_suffix_is_ten_lower_case_letters_and_digits() {
    assert_eq!(EVENT_SUFFIX_LEN, 10);
    for _ in 0..50 {
        let suffix = Reconciler::event_suffix();
        assert_eq!(suffix.len(), 10);
        assert!(suffix.chars().all(|c| c.is_ascii_lowercase() || c.is_ascii_digit()));
    }
}

#[test]
fn step_names_the_event_with_a_fresh_suffix_and_the_present_time() {
    let mut cache = new_cache();
    let mut reconciler = started("pod-a");
    let d = expect_deployment(reconciler.step(ApiResponse::ExposedApp(Ok(parent())), &mut cache).unwrap());
    let (_, event) = expect_event(
        reconciler.step(ApiResponse::Deployment(Ok(written(d, "uid-d", "100", Some(1)))), &mut cache).unwrap(),
    );
    let name = event.metadata.name.unwrap();
    assert_eq!(name.len(), "web-".len() + 10);
    assert!(name.starts_with("web-"));
    assert!(name[4..].chars().all(|c| c.is_ascii_lowercase() || c.is_ascii_digit()));
    let time = parse(&event.object.event_time).unwrap();
    assert!(time.unix_nanos > 1_600_000_000_000_000_000);
    assert_eq!(event.object.event_time.len(), "2024-01-01T00:00:00.000000Z".len());
    assert_eq!(cache.get(&NamespacedName::new("web-deployment", "demo")).unwrap().resource_version, "100");
}

#[test]
fn only_the_steps_after_a_written_child_post_an_event() {
    let mut cache = new_cache();
    let mut reconciler = started("pod-a");
    assert!(!reconciler.posts_event(&ApiResponse::ExposedApp(Ok(parent()))));
    assert!(!reconciler.posts_event(&ApiResponse::ExposedApp(Err(K8sClientError::NotFound))));
    let d = expect_deployment(reconciler.step(ApiResponse::ExposedApp(Ok(parent())), &mut cache).unwrap());
    assert!(!reconciler.posts_event(&ApiResponse::Deployment(Err(K8sClientError::Conflict))));
    let saved = ApiResponse::Deployment(Ok(written(d, "uid-d", "100", Some(1))));
    assert!(reconciler.posts_event(&saved));
    let (_, e) = expect_event(reconciler.step(saved, &mut cache).unwrap());
    assert!(!reconciler.posts_event(&ApiResponse::Event(Ok(posted(&e)))));
    let s = expect_service(reconciler.step(ApiResponse::Event(Ok(posted(&e))), &mut cache).unwrap());
    let put = ApiResponse::Service(Ok(written(s, "uid-s", "101", None)));
    assert!(reconciler.posts_event(&put));
    let (_, e) = expect_event(reconciler.step(put, &mut cache).unwrap());
    let status = reconciler.step(ApiResponse::Event(Ok(posted(&e))), &mut cache).unwrap();
    let app = match status {
        ReconcileAction::PutExposedAppStatus { app, .. } => app,
        other => panic!("unexpected {:?}", other),
    };
    let patched = ApiResponse::ExposedApp(Ok(written(app, "uid-1", "11", Some(1))));
    assert!(!reconciler.posts_event(&patched));
    let done = reconciler.step(patched, &mut cache).unwrap();
    assert!(matches!(done, ReconcileAction::Finish(Ok(()))));
    assert_eq!(cache.len(), 3);
}

#[test]
fn step_ends_the_reconcile_of_a_parent_that_is_gone() {
    let mut cache = new_cache();
    let mut reconciler = started("pod-a");
    let action = reconciler.step(ApiResponse::ExposedApp(Err(K8sClientError::NotFound)), &mut cache);
    assert!(matches!(action, Some(ReconcileAction::Finish(Ok(())))));
    assert_eq!(cache.len(), 0);
}

#[test]
fn step_reports_a_failure_as_step_at_does() {
    let mut cache = new_cache();
    let mut reconciler = started("pod-a");
    reconciler.step(ApiResponse::ExposedApp(Ok(parent())), &mut cache).unwrap();
    let failure = ApiResponse::Deployment(Err(K8sClientError::Other(500, "boom".to_string())));
    match reconciler.step(failure, &mut cache) {
        Some(ReconcileAction::Finish(Err(message))) => {
            assert_eq!(message, "Error occurred while saving a deployment: Other(500, \"boom\")")
        }
        other => panic!("unexpected {:?}", other),
    }
}

#[test]
fn event_builder_fills_every_field() {
    let reconciler = Reconciler::new("pod-9".to_string());
    let related = Reconciler::desired_deployment(&parent());
    let related = written(related, "uid-d", "1", Some(1)).object_reference();
    let event = reconciler.event(&parent(), related, EventType::Warning, "A", "N", "R", "T", "sfx");
    assert_eq!(event.metadata.name.as_deref(), Some("web-sfx"));
    assert_eq!(event.object.event_type, EventType::Warning);
    assert_eq!(event.object.action, "A");
    assert_eq!(event.object.note.as_deref(), Some("N"));
    assert_eq!(event.object.reason, "R");
    assert_eq!(event.object.event_time, "T");
    assert_eq!(event.object.reporting_instance, "pod-9");
    assert_eq!(event.object.related.unwrap().uid, "uid-d");
}
