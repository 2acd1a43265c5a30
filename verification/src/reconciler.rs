//! The reconciler: from an `ExposedApp`, the Deployment and the Service that
//! it asks for, the events that report them and the status that names them;
//! and the order in which these are written, as a state machine that is fed
//! the responses of the API.

use vstd::prelude::*;
use vstd::string::*;
use rand::distr::{Alphanumeric, SampleString};
use crate::cache::{CacheEntry, CacheEntryView, NamespacedName, NamespacedNameView, VersionCache};
use crate::k8s_client::{K8sClientError, K8sClientErrorView};
use crate::k8s_types::{
    clone_text, Container, ContainerPort, ContainerPortView, ContainerView, Deployment,
    DeploymentSpec, DeploymentSpecView, DeploymentView, Event, EventType, EventView, ExposedApp,
    ExposedAppStatus, ExposedAppStatusView, ExposedAppView, K8sObject, K8sObjectView, Metadata,
    MetadataView, ObjectReference, ObjectReferenceView, OwnerReference, OwnerReferenceView,
    PodSpec, PodSpecView, PodTemplate, PodTemplateView, Selector, SelectorView, Service,
    ServicePort, ServicePortView, ServiceSpec, ServiceSpecView, ServiceView,
};
use crate::labels::Labels;
use crate::offset_date_time_parser;
use crate::text::{concat2, decimal, u64_to_decimal};

verus! {

broadcast use crate::labels::Labels::lemma_view_is_deep_view;

/// The controller named in every event.
pub const REPORTING_CONTROLLER: &'static str = "no-library";

/// The label that ties the pods of a Deployment to it and to its Service.
pub const INSTANCE_LABEL: &'static str = "app.kubernetes.io/instance";

/// The length of the random suffix of an event's name.
pub const EVENT_SUFFIX_LEN: usize = 10;

/// An `ExposedApp` with its header and metadata, by view.
pub type ExposedAppObject = K8sObjectView<ExposedAppView>;

/// The name of the Deployment of the `ExposedApp` called `name`.
pub open spec fn deployment_name(name: Seq<char>) -> Seq<char> {
    name + "-deployment"@
}

/// The name of the Service of the `ExposedApp` called `name`.
pub open spec fn service_name(name: Seq<char>) -> Seq<char> {
    name + "-service"@
}

/// The labels of the pods of the Deployment called `deployment_name`.
pub open spec fn pod_labels(deployment_name: Seq<char>) -> Map<Seq<char>, Seq<char>> {
    Map::<Seq<char>, Seq<char>>::empty().insert(INSTANCE_LABEL@, deployment_name)
}

/// The reference by which a child names `resource` as its controlling owner.
pub open spec fn owner_reference(resource: ExposedAppObject) -> OwnerReferenceView {
    OwnerReferenceView {
        api_version: resource.api_version,
        kind: resource.kind,
        name: resource.metadata.name->0,
        uid: resource.metadata.uid->0,
        block_owner_deletion: true,
        controller: true,
    }
}

/// The metadata of a child of `resource`: its name, its namespace and the
/// reference to its owner.
pub open spec fn child_metadata(
    name: Seq<char>,
    namespace: Seq<char>,
    resource: ExposedAppObject,
) -> MetadataView {
    MetadataView {
        name: Some(name),
        namespace: Some(namespace),
        owner_references: Some(seq![owner_reference(resource)]),
        ..MetadataView::empty()
    }
}

/// The Deployment called `name` for `resource`: as many replicas as the
/// parent asks for, selected by `labels`, of pods with the one container
/// `main` that runs the parent's image and listens on its container port.
pub open spec fn deployment_for(
    name: Seq<char>,
    namespace: Seq<char>,
    labels: Map<Seq<char>, Seq<char>>,
    resource: ExposedAppObject,
) -> K8sObjectView<DeploymentView> {
    K8sObjectView {
        api_version: "apps/v1"@,
        kind: "Deployment"@,
        metadata: child_metadata(name, namespace, resource),
        object: DeploymentView {
            spec: DeploymentSpecView {
                replicas: resource.object.spec.replicas,
                selector: SelectorView { match_labels: labels },
                template: PodTemplateView {
                    metadata: MetadataView {
                        labels: Some(labels),
                        name: Some(name),
                        ..MetadataView::empty()
                    },
                    spec: PodSpecView {
                        containers: seq![
                            ContainerView {
                                name: "main"@,
                                image: resource.object.spec.image,
                                ports: Some(
                                    seq![
                                        ContainerPortView {
                                            container_port: resource.object.spec.container_port,
                                        },
                                    ],
                                ),
                            },
                        ],
                    },
                },
            },
        },
    }
}

/// The Service called `name` for `resource`: of the parent's service type,
/// selecting by `labels`, with the one port that leads from the parent's
/// port to its container port.
pub open spec fn service_for(
    name: Seq<char>,
    namespace: Seq<char>,
    labels: Map<Seq<char>, Seq<char>>,
    resource: ExposedAppObject,
) -> K8sObjectView<ServiceView> {
    K8sObjectView {
        api_version: "v1"@,
        kind: "Service"@,
        metadata: child_metadata(name, namespace, resource),
        object: ServiceView {
            spec: ServiceSpecView {
                service_type: resource.object.spec.service_type,
                selector: Some(labels),
                ports: seq![
                    ServicePortView {
                        protocol: resource.object.spec.protocol,
                        port: resource.object.spec.port,
                        target_port: resource.object.spec.container_port,
                        node_port: resource.object.spec.node_port,
                    },
                ],
            },
        },
    }
}

/// The Deployment that `resource` asks for.
pub open spec fn desired_deployment(resource: ExposedAppObject) -> K8sObjectView<DeploymentView> {
    let name = deployment_name(resource.metadata.name->0);
    deployment_for(name, resource.metadata.namespace->0, pod_labels(name), resource)
}

/// The Service that `resource` asks for.
pub open spec fn desired_service(resource: ExposedAppObject) -> K8sObjectView<ServiceView> {
    service_for(
        service_name(resource.metadata.name->0),
        resource.metadata.namespace->0,
        pod_labels(deployment_name(resource.metadata.name->0)),
        resource,
    )
}

/// `resource` with the status that names its two children.
pub open spec fn with_status(resource: ExposedAppObject) -> ExposedAppObject {
    K8sObjectView {
        object: ExposedAppView {
            status: Some(
                ExposedAppStatusView {
                    deployment_name: deployment_name(resource.metadata.name->0),
                    service_name: service_name(resource.metadata.name->0),
                },
            ),
            ..resource.object
        },
        ..resource
    }
}

/// The note of the event that reports a Deployment.
pub open spec fn deployment_note(name: Seq<char>, replicas: u32) -> Seq<char> {
    "Deployment "@ + name + " provisioned successfully with "@ + decimal(replicas as nat)
        + " replicas"@
}

/// The note of the event that reports a Service.
pub open spec fn service_note(name: Seq<char>) -> Seq<char> {
    "Service "@ + name + " successfully provisioned"@
}

/// The event about `resource` and the object `related`, reported by the
/// instance `pod_name` at `event_time`; `suffix` makes its name.
pub open spec fn event_for(
    pod_name: Seq<char>,
    resource: ExposedAppObject,
    related: ObjectReferenceView,
    event_type: EventType,
    action: Seq<char>,
    note: Seq<char>,
    reason: Seq<char>,
    event_time: Seq<char>,
    suffix: Seq<char>,
) -> K8sObjectView<EventView> {
    K8sObjectView {
        api_version: "events.k8s.io/v1"@,
        kind: "Event"@,
        metadata: MetadataView {
            name: Some(resource.metadata.name->0 + "-"@ + suffix),
            namespace: Some(resource.metadata.namespace->0),
            ..MetadataView::empty()
        },
        object: EventView {
            event_time,
            action,
            note: Some(note),
            reason,
            regarding: Some(resource.reference()),
            related: Some(related),
            reporting_controller: REPORTING_CONTROLLER@,
            reporting_instance: pod_name,
            event_type,
        },
    }
}

/// Whether `c` is an ASCII letter or digit.
pub open spec fn is_alphanumeric(c: char) -> bool {
    ('a' <= c <= 'z') || ('A' <= c <= 'Z') || ('0' <= c <= '9')
}

/// Whether `c` is a lower-case ASCII letter or a digit.
pub open spec fn is_lower_alphanumeric(c: char) -> bool {
    ('a' <= c <= 'z') || ('0' <= c <= '9')
}

/// The lower-case form of an ASCII capital; every other character as it is.
pub open spec fn ascii_lower(c: char) -> char {
    if 'A' <= c <= 'Z' {
        ((c as u32) + 32) as char
    } else {
        c
    }
}

/// A suffix as event names take it: of the fixed length, of lower-case ASCII
/// letters and digits.
pub open spec fn is_event_suffix(suffix: Seq<char>) -> bool {
    &&& suffix.len() == EVENT_SUFFIX_LEN
    &&& forall|i: int| 0 <= i < suffix.len() ==> is_lower_alphanumeric(#[trigger] suffix[i])
}

/// Calls `Alphanumeric.sample_string` of `rand` with the thread's generator.
/// The result has `len` characters, each an ASCII letter or digit; which
/// ones is left to chance.
#[verifier::external_body]
fn sample_alphanumeric(len: usize) -> (r: String)
    ensures
        r@.len() == len,
        forall|i: int| 0 <= i < r@.len() ==> is_alphanumeric(#[trigger] r@[i]),
{
    Alphanumeric.sample_string(&mut rand::rng(), len)
}

/// Calls `str::to_ascii_lowercase`: ASCII capitals become lower-case letters,
/// every other character stays.
#[verifier::external_body]
fn to_ascii_lowercase(text: &str) -> (r: String)
    ensures
        r@.len() == text@.len(),
        forall|i: int| 0 <= i < text@.len() ==> #[trigger] r@[i] == ascii_lower(text@[i]),
{
    text.to_ascii_lowercase()
}

/// What the reconciler waits for.
#[derive(Debug)]
pub enum ReconcileStage {
    /// No reconcile is under way.
    Idle,
    /// The parent was asked for.
    GettingExposedApp,
    /// The Deployment of the parent is being written.
    SavingDeployment(K8sObject<ExposedApp>),
    /// The event that reports the Deployment is being posted.
    SendingDeploymentEvent(K8sObject<ExposedApp>),
    /// The Service of the parent is being written.
    SavingService(K8sObject<ExposedApp>),
    /// The event that reports the Service is being posted.
    SendingServiceEvent(K8sObject<ExposedApp>),
    /// The status of the parent, which the stage holds with that status, is
    /// being written.
    PuttingStatus(K8sObject<ExposedApp>),
    /// The reconcile has ended.
    Done,
}

/// What a [`ReconcileStage`] holds.
pub enum ReconcileStageView {
    Idle,
    GettingExposedApp,
    SavingDeployment(ExposedAppObject),
    SendingDeploymentEvent(ExposedAppObject),
    SavingService(ExposedAppObject),
    SendingServiceEvent(ExposedAppObject),
    PuttingStatus(ExposedAppObject),
    Done,
}

impl View for ReconcileStage {
    type V = ReconcileStageView;

    open spec fn view(&self) -> ReconcileStageView {
        match self {
            ReconcileStage::Idle => ReconcileStageView::Idle,
            ReconcileStage::GettingExposedApp => ReconcileStageView::GettingExposedApp,
            ReconcileStage::SavingDeployment(p) => ReconcileStageView::SavingDeployment(p@),
            ReconcileStage::SendingDeploymentEvent(p) => ReconcileStageView::SendingDeploymentEvent(
                p@,
            ),
            ReconcileStage::SavingService(p) => ReconcileStageView::SavingService(p@),
            ReconcileStage::SendingServiceEvent(p) => ReconcileStageView::SendingServiceEvent(p@),
            ReconcileStage::PuttingStatus(p) => ReconcileStageView::PuttingStatus(p@),
            ReconcileStage::Done => ReconcileStageView::Done,
        }
    }
}

/// The answer of the API to what the reconciler asked for.
#[derive(Debug)]
pub enum ApiResponse {
    /// The answer to reading the parent or to writing its status.
    ExposedApp(Result<K8sObject<ExposedApp>, K8sClientError>),
    /// The answer to saving the Deployment.
    Deployment(Result<K8sObject<Deployment>, K8sClientError>),
    /// The answer to writing the Service.
    Service(Result<K8sObject<Service>, K8sClientError>),
    /// The answer to posting an event.
    Event(Result<K8sObject<Event>, K8sClientError>),
}

/// What an [`ApiResponse`] holds.
pub enum ApiResponseView {
    ExposedApp(Result<ExposedAppObject, K8sClientErrorView>),
    Deployment(Result<K8sObjectView<DeploymentView>, K8sClientErrorView>),
    Service(Result<K8sObjectView<ServiceView>, K8sClientErrorView>),
    Event(Result<K8sObjectView<EventView>, K8sClientErrorView>),
}

impl View for ApiResponse {
    type V = ApiResponseView;

    open spec fn view(&self) -> ApiResponseView {
        match self {
            ApiResponse::ExposedApp(Ok(o)) => ApiResponseView::ExposedApp(Ok(o@)),
            ApiResponse::ExposedApp(Err(e)) => ApiResponseView::ExposedApp(Err(e@)),
            ApiResponse::Deployment(Ok(o)) => ApiResponseView::Deployment(Ok(o@)),
            ApiResponse::Deployment(Err(e)) => ApiResponseView::Deployment(Err(e@)),
            ApiResponse::Service(Ok(o)) => ApiResponseView::Service(Ok(o@)),
            ApiResponse::Service(Err(e)) => ApiResponseView::Service(Err(e@)),
            ApiResponse::Event(Ok(o)) => ApiResponseView::Event(Ok(o@)),
            ApiResponse::Event(Err(e)) => ApiResponseView::Event(Err(e@)),
        }
    }
}

/// What the reconciler asks its caller to do next.
#[derive(Debug)]
pub enum ReconcileAction {
    /// Read the parent and answer with [`ApiResponse::ExposedApp`].
    GetExposedApp { name: String, namespace: String },
    /// Create the Deployment, or replace it where it exists, and answer with
    /// [`ApiResponse::Deployment`].
    SaveDeployment(K8sObject<Deployment>),
    /// Post the event and answer with [`ApiResponse::Event`].
    PostEvent { namespace: String, event: K8sObject<Event> },
    /// Write the Service and answer with [`ApiResponse::Service`].
    PutService(K8sObject<Service>),
    /// Write the status of the parent and answer with
    /// [`ApiResponse::ExposedApp`].
    PutExposedAppStatus { namespace: String, name: String, app: K8sObject<ExposedApp> },
    /// Nothing more: the reconcile ended with this outcome.
    Finish(Result<(), String>),
}

/// What a [`ReconcileAction`] holds.
pub enum ReconcileActionView {
    GetExposedApp { name: Seq<char>, namespace: Seq<char> },
    SaveDeployment(K8sObjectView<DeploymentView>),
    PostEvent { namespace: Seq<char>, event: K8sObjectView<EventView> },
    PutService(K8sObjectView<ServiceView>),
    PutExposedAppStatus { namespace: Seq<char>, name: Seq<char>, app: ExposedAppObject },
    Finish(Result<(), Seq<char>>),
}

impl View for ReconcileAction {
    type V = ReconcileActionView;

    open spec fn view(&self) -> ReconcileActionView {
        match self {
            ReconcileAction::GetExposedApp { name, namespace } => {
                ReconcileActionView::GetExposedApp { name: name@, namespace: namespace@ }
            },
            ReconcileAction::SaveDeployment(d) => ReconcileActionView::SaveDeployment(d@),
            ReconcileAction::PostEvent { namespace, event } => ReconcileActionView::PostEvent {
                namespace: namespace@,
                event: event@,
            },
            ReconcileAction::PutService(s) => ReconcileActionView::PutService(s@),
            ReconcileAction::PutExposedAppStatus { namespace, name, app } => {
                ReconcileActionView::PutExposedAppStatus {
                    namespace: namespace@,
                    name: name@,
                    app: app@,
                }
            },
            ReconcileAction::Finish(Ok(_)) => ReconcileActionView::Finish(Ok(())),
            ReconcileAction::Finish(Err(e)) => ReconcileActionView::Finish(Err(e@)),
        }
    }
}

/// The version cache, by view.
pub type CacheMap = Map<NamespacedNameView, CacheEntryView>;

/// What one step of the reconciler leads to.
pub struct Transition {
    pub stage: ReconcileStageView,
    pub action: ReconcileActionView,
    pub cache: CacheMap,
}

/// The key of the object `name` in `namespace`.
pub open spec fn key(namespace: Seq<char>, name: Seq<char>) -> NamespacedNameView {
    NamespacedNameView { namespace, name }
}

/// The entry that records the write answered with `metadata`; the generation
/// is kept for the kinds that track one.
pub open spec fn entry_of(metadata: MetadataView, with_generation: bool) -> CacheEntryView {
    CacheEntryView {
        resource_version: metadata.resource_version->0,
        generation: if with_generation {
            metadata.generation
        } else {
            None
        },
    }
}

/// The end of a reconcile that failed at `what` with the error `e`.
pub open spec fn failed(what: Seq<char>, e: K8sClientErrorView, cache: CacheMap) -> Transition {
    Transition {
        stage: ReconcileStageView::Done,
        action: ReconcileActionView::Finish(Err(what + e.description())),
        cache,
    }
}

/// The responses that a stage takes: the answer to what was asked for in
/// that stage, and in it the fields that the next step reads. A parent comes
/// with name, namespace and uid; a written child with these and its resource
/// version, a Deployment also with its generation; the parent whose status
/// was written with resource version and generation.
pub open spec fn accepts(stage: ReconcileStageView, response: ApiResponseView) -> bool {
    match (stage, response) {
        (ReconcileStageView::GettingExposedApp, ApiResponseView::ExposedApp(r)) => r is Ok
            ==> r->Ok_0.metadata.identified(),
        (ReconcileStageView::SavingDeployment(_), ApiResponseView::Deployment(r)) => r is Ok ==> {
            &&& r->Ok_0.metadata.identified()
            &&& r->Ok_0.metadata.resource_version is Some
            &&& r->Ok_0.metadata.generation is Some
        },
        (ReconcileStageView::SendingDeploymentEvent(_), ApiResponseView::Event(_)) => true,
        (ReconcileStageView::SavingService(_), ApiResponseView::Service(r)) => r is Ok ==> {
            &&& r->Ok_0.metadata.identified()
            &&& r->Ok_0.metadata.resource_version is Some
        },
        (ReconcileStageView::SendingServiceEvent(_), ApiResponseView::Event(_)) => true,
        (ReconcileStageView::PuttingStatus(_), ApiResponseView::ExposedApp(r)) => r is Ok ==> {
            &&& r->Ok_0.metadata.resource_version is Some
            &&& r->Ok_0.metadata.generation is Some
        },
        _ => false,
    }
}

/// The step on `response` in `stage` posts an event: a child was written,
/// and the write is to be reported.
pub open spec fn posts_event(stage: ReconcileStageView, response: ApiResponseView) -> bool {
    match (stage, response) {
        (ReconcileStageView::SavingDeployment(_), ApiResponseView::Deployment(Ok(_))) => true,
        (ReconcileStageView::SavingService(_), ApiResponseView::Service(Ok(_))) => true,
        _ => false,
    }
}

/// The stages hold parents that carry name, namespace and uid.
pub open spec fn stage_wf(stage: ReconcileStageView) -> bool {
    match stage {
        ReconcileStageView::SavingDeployment(p) => p.metadata.identified(),
        ReconcileStageView::SendingDeploymentEvent(p) => p.metadata.identified(),
        ReconcileStageView::SavingService(p) => p.metadata.identified(),
        ReconcileStageView::SendingServiceEvent(p) => p.metadata.identified(),
        ReconcileStageView::PuttingStatus(p) => p.metadata.identified(),
        _ => true,
    }
}

/// One step of the reconciler: from the stage and the response to the next
/// stage, the next action and the cache after the step. A response that
/// reports a failure ends the reconcile with an error, but for a parent that
/// is not found, which ends it well. The cache gains the entry of a write
/// exactly when the response reports that the write succeeded; `event_time`
/// and `suffix` go into the event, where the step posts one.
pub open spec fn next(
    pod_name: Seq<char>,
    stage: ReconcileStageView,
    response: ApiResponseView,
    cache: CacheMap,
    event_time: Seq<char>,
    suffix: Seq<char>,
) -> Transition {
    match (stage, response) {
        (ReconcileStageView::GettingExposedApp, ApiResponseView::ExposedApp(Ok(p))) => Transition {
            stage: ReconcileStageView::SavingDeployment(p),
            action: ReconcileActionView::SaveDeployment(desired_deployment(p)),
            cache,
        },
        (
            ReconcileStageView::GettingExposedApp,
            ApiResponseView::ExposedApp(Err(K8sClientErrorView::NotFound)),
        ) => Transition {
            stage: ReconcileStageView::Done,
            action: ReconcileActionView::Finish(Ok(())),
            cache,
        },
        (ReconcileStageView::GettingExposedApp, ApiResponseView::ExposedApp(Err(e))) => failed(
            "Unable to get ExposedApp: "@,
            e,
            cache,
        ),
        (ReconcileStageView::SavingDeployment(p), ApiResponseView::Deployment(Ok(d))) => Transition {
            stage: ReconcileStageView::SendingDeploymentEvent(p),
            action: ReconcileActionView::PostEvent {
                namespace: p.metadata.namespace->0,
                event: event_for(
                    pod_name,
                    p,
                    d.reference(),
                    EventType::Normal,
                    "DeploymentProvisioned"@,
                    deployment_note(d.metadata.name->0, d.object.spec.replicas),
                    "ProvisioningRequested"@,
                    event_time,
                    suffix,
                ),
            },
            cache: cache.insert(
                key(p.metadata.namespace->0, deployment_name(p.metadata.name->0)),
                entry_of(d.metadata, true),
            ),
        },
        (ReconcileStageView::SavingDeployment(_), ApiResponseView::Deployment(Err(e))) => failed(
            "Error occurred while saving a deployment: "@,
            e,
            cache,
        ),
        (ReconcileStageView::SendingDeploymentEvent(p), ApiResponseView::Event(Ok(_))) => Transition {
            stage: ReconcileStageView::SavingService(p),
            action: ReconcileActionView::PutService(desired_service(p)),
            cache,
        },
        (ReconcileStageView::SendingDeploymentEvent(_), ApiResponseView::Event(Err(e))) => failed(
            "Error occurred while sending an event: "@,
            e,
            cache,
        ),
        (ReconcileStageView::SavingService(p), ApiResponseView::Service(Ok(s))) => Transition {
            stage: ReconcileStageView::SendingServiceEvent(p),
            action: ReconcileActionView::PostEvent {
                namespace: p.metadata.namespace->0,
                event: event_for(
                    pod_name,
                    p,
                    s.reference(),
                    EventType::Normal,
                    "ServiceProvisioned"@,
                    service_note(s.metadata.name->0),
                    "ProvisioningRequested"@,
                    event_time,
                    suffix,
                ),
            },
            cache: cache.insert(
                key(p.metadata.namespace->0, service_name(p.metadata.name->0)),
                entry_of(s.metadata, false),
            ),
        },
        (ReconcileStageView::SavingService(_), ApiResponseView::Service(Err(e))) => failed(
            "Error occurred while creating a service: "@,
            e,
            cache,
        ),
        (ReconcileStageView::SendingServiceEvent(p), ApiResponseView::Event(Ok(_))) => Transition {
            stage: ReconcileStageView::PuttingStatus(with_status(p)),
            action: ReconcileActionView::PutExposedAppStatus {
                namespace: p.metadata.namespace->0,
                name: p.metadata.name->0,
                app: with_status(p),
            },
            cache,
        },
        (ReconcileStageView::SendingServiceEvent(_), ApiResponseView::Event(Err(e))) => failed(
            "Error occurred while sending an event: "@,
            e,
            cache,
        ),
        (ReconcileStageView::PuttingStatus(p), ApiResponseView::ExposedApp(Ok(a))) => Transition {
            stage: ReconcileStageView::Done,
            action: ReconcileActionView::Finish(Ok(())),
            cache: cache.insert(
                key(p.metadata.namespace->0, p.metadata.name->0),
                entry_of(a.metadata, true),
            ),
        },
        (ReconcileStageView::PuttingStatus(_), ApiResponseView::ExposedApp(Err(e))) => failed(
            "Error occurred while updating ExposedApp status: "@,
            e,
            cache,
        ),
        _ => Transition { stage, action: ReconcileActionView::Finish(Ok(())), cache },
    }
}

/// The reconciler of one instance of the operator.
#[derive(Debug)]
pub struct Reconciler {
    pod_name: String,
    stage: ReconcileStage,
}

/// What a [`Reconciler`] holds.
pub struct ReconcilerView {
    pub pod_name: Seq<char>,
    pub stage: ReconcileStageView,
}

impl View for Reconciler {
    type V = ReconcilerView;

    closed spec fn view(&self) -> ReconcilerView {
        ReconcilerView { pod_name: self.pod_name@, stage: self.stage@ }
    }
}

impl Reconciler {
    #[verifier::type_invariant]
    spec fn inv(self) -> bool {
        stage_wf(self.stage@)
    }

    /// A reconciler that reports as the instance `pod_name`, with no
    /// reconcile under way.
    pub fn new(pod_name: String) -> (r: Self)
        ensures
            r@ == (ReconcilerView { pod_name: pod_name@, stage: ReconcileStageView::Idle }),
    {
        Reconciler { pod_name, stage: ReconcileStage::Idle }
    }

    /// The reference by which a child names `resource` as its controlling
    /// owner.
    pub fn create_owner_reference(resource: &K8sObject<ExposedApp>) -> (r: OwnerReference)
        requires
            resource@.metadata.name is Some,
            resource@.metadata.uid is Some,
        ensures
            r@ == owner_reference(resource@),
    {
        OwnerReference {
            api_version: resource.api_version.clone(),
            kind: resource.kind.clone(),
            name: clone_text(&resource.metadata.name),
            uid: clone_text(&resource.metadata.uid),
            block_owner_deletion: true,
            controller: true,
        }
    }

    /// The metadata of the child `name` of `resource` in `namespace`.
    pub fn metadata(name: &str, namespace: &str, resource: &K8sObject<ExposedApp>) -> (r: Metadata)
        requires
            resource@.metadata.name is Some,
            resource@.metadata.uid is Some,
        ensures
            r@ == child_metadata(name@, namespace@, resource@),
    {
        let mut owners: Vec<OwnerReference> = Vec::new();
        owners.push(Self::create_owner_reference(resource));
        assert(owners.deep_view() =~= seq![owner_reference(resource@)]);
        let mut m = Metadata::default();
        m.name = Some(String::from_str(name));
        m.namespace = Some(String::from_str(namespace));
        m.owner_references = Some(owners);
        m
    }

    /// A random text of `len` ASCII letters and digits.
    pub fn random_str(len: usize) -> (r: String)
        ensures
            r@.len() == len,
            forall|i: int| 0 <= i < r@.len() ==> is_alphanumeric(#[trigger] r@[i]),
    {
        sample_alphanumeric(len)
    }

    /// A random suffix for the name of an event.
    pub fn event_suffix() -> (r: String)
        ensures
            is_event_suffix(r@),
    {
        let raw = Self::random_str(EVENT_SUFFIX_LEN);
        let lower = to_ascii_lowercase(raw.as_str());
        assert forall|i: int| 0 <= i < lower@.len() implies is_lower_alphanumeric(
            #[trigger] lower@[i],
        ) by {
            assert(is_alphanumeric(raw@[i]));
            assert(lower@[i] == ascii_lower(raw@[i]));
            lemma_ascii_lower(raw@[i]);
        }
        lower
    }

    /// The Deployment `name` in `namespace` for `resource`, with `pod_labels`
    /// as the labels of its pods.
    pub fn deployment(
        name: &str,
        namespace: &str,
        pod_labels: &Labels,
        resource: &K8sObject<ExposedApp>,
    ) -> (r: K8sObject<Deployment>)
        requires
            resource@.metadata.name is Some,
            resource@.metadata.uid is Some,
        ensures
            r@ == deployment_for(name@, namespace@, pod_labels@, resource@),
    {
        let mut ports: Vec<ContainerPort> = Vec::new();
        ports.push(ContainerPort { container_port: resource.object.spec.container_port });
        assert(ports.deep_view() =~= seq![
            ContainerPortView { container_port: resource@.object.spec.container_port },
        ]);
        let mut containers: Vec<Container> = Vec::new();
        containers.push(
            Container {
                name: String::from_str("main"),
                image: resource.object.spec.image.clone(),
                ports: Some(ports),
            },
        );
        assert(containers.deep_view() =~= seq![
            ContainerView {
                name: "main"@,
                image: resource@.object.spec.image,
                ports: Some(
                    seq![ContainerPortView { container_port: resource@.object.spec.container_port }],
                ),
            },
        ]);
        let mut pod_metadata = Metadata::default();
        pod_metadata.labels = Some(pod_labels.clone());
        pod_metadata.name = Some(String::from_str(name));
        K8sObject {
            api_version: String::from_str("apps/v1"),
            kind: String::from_str("Deployment"),
            metadata: Self::metadata(name, namespace, resource),
            object: Deployment {
                spec: DeploymentSpec {
                    replicas: resource.object.spec.replicas,
                    selector: Selector { match_labels: pod_labels.clone() },
                    template: PodTemplate {
                        metadata: pod_metadata,
                        spec: PodSpec { containers },
                    },
                },
            },
        }
    }

    /// The Service `name` in `namespace` for `resource`, selecting the pods
    /// that carry `pod_labels`.
    pub fn service(
        name: &str,
        namespace: &str,
        pod_labels: &Labels,
        resource: &K8sObject<ExposedApp>,
    ) -> (r: K8sObject<Service>)
        requires
            resource@.metadata.name is Some,
            resource@.metadata.uid is Some,
        ensures
            r@ == service_for(name@, namespace@, pod_labels@, resource@),
    {
        let mut ports: Vec<ServicePort> = Vec::new();
        ports.push(
            ServicePort {
                protocol: resource.object.spec.protocol.clone(),
                port: resource.object.spec.port,
                target_port: resource.object.spec.container_port,
                node_port: resource.object.spec.node_port,
            },
        );
        assert(ports.deep_view() =~= seq![
            ServicePortView {
                protocol: resource@.object.spec.protocol,
                port: resource@.object.spec.port,
                target_port: resource@.object.spec.container_port,
                node_port: resource@.object.spec.node_port,
            },
        ]);
        K8sObject {
            api_version: String::from_str("v1"),
            kind: String::from_str("Service"),
            metadata: Self::metadata(name, namespace, resource),
            object: Service {
                spec: ServiceSpec {
                    service_type: resource.object.spec.service_type.clone(),
                    selector: Some(pod_labels.clone()),
                    ports,
                },
            },
        }
    }

    /// The Deployment that `resource` asks for.
    pub fn desired_deployment(resource: &K8sObject<ExposedApp>) -> (r: K8sObject<Deployment>)
        requires
            resource@.metadata.identified(),
        ensures
            r@ == desired_deployment(resource@),
    {
        let name = concat2(clone_text(&resource.metadata.name).as_str(), "-deployment");
        let namespace = clone_text(&resource.metadata.namespace);
        let labels = Labels::single(INSTANCE_LABEL, name.as_str());
        Self::deployment(name.as_str(), namespace.as_str(), &labels, resource)
    }

    /// The Service that `resource` asks for.
    pub fn desired_service(resource: &K8sObject<ExposedApp>) -> (r: K8sObject<Service>)
        requires
            resource@.metadata.identified(),
        ensures
            r@ == desired_service(resource@),
    {
        let parent = clone_text(&resource.metadata.name);
        let deployment = concat2(parent.as_str(), "-deployment");
        let name = concat2(parent.as_str(), "-service");
        let namespace = clone_text(&resource.metadata.namespace);
        let labels = Labels::single(INSTANCE_LABEL, deployment.as_str());
        Self::service(name.as_str(), namespace.as_str(), &labels, resource)
    }

    /// `resource` with the status that names its two children.
    pub fn with_status(resource: K8sObject<ExposedApp>) -> (r: K8sObject<ExposedApp>)
        requires
            resource@.metadata.identified(),
        ensures
            r@ == with_status(resource@),
    {
        let parent = clone_text(&resource.metadata.name);
        let mut out = resource;
        out.object.status = Some(
            ExposedAppStatus {
                deployment_name: concat2(parent.as_str(), "-deployment"),
                service_name: concat2(parent.as_str(), "-service"),
            },
        );
        out
    }

    /// The event about `resource` and `related` that this instance reports at
    /// `event_time` under a name that ends in `suffix`.
    pub fn event(
        &self,
        resource: &K8sObject<ExposedApp>,
        related: ObjectReference,
        event_type: EventType,
        action: &str,
        note: &str,
        reason: &str,
        event_time: &str,
        suffix: &str,
    ) -> (r: K8sObject<Event>)
        requires
            resource@.metadata.identified(),
        ensures
            r@ == event_for(
                self@.pod_name,
                resource@,
                related@,
                event_type,
                action@,
                note@,
                reason@,
                event_time@,
                suffix@,
            ),
    {
        let mut name = clone_text(&resource.metadata.name);
        name.append("-");
        name.append(suffix);
        let mut metadata = Metadata::default();
        metadata.name = Some(name);
        metadata.namespace = Some(clone_text(&resource.metadata.namespace));
        K8sObject {
            api_version: String::from_str("events.k8s.io/v1"),
            kind: String::from_str("Event"),
            metadata,
            object: Event {
                event_time: String::from_str(event_time),
                action: String::from_str(action),
                note: Some(String::from_str(note)),
                reason: String::from_str(reason),
                regarding: Some(resource.object_reference()),
                related: Some(related),
                reporting_controller: String::from_str(REPORTING_CONTROLLER),
                reporting_instance: self.pod_name.clone(),
                event_type,
            },
        }
    }

    /// Whether the reconciler, as it stands, takes `response`.
    pub fn accepts(&self, response: &ApiResponse) -> (r: bool)
        ensures
            r == accepts(self@.stage, response@),
    {
        match (&self.stage, response) {
            (ReconcileStage::GettingExposedApp, ApiResponse::ExposedApp(r)) => match r {
                Ok(p) => p.metadata.is_identified(),
                Err(_) => true,
            },
            (ReconcileStage::SavingDeployment(_), ApiResponse::Deployment(r)) => match r {
                Ok(d) => d.metadata.is_identified() && d.metadata.resource_version.is_some()
                    && d.metadata.generation.is_some(),
                Err(_) => true,
            },
            (ReconcileStage::SendingDeploymentEvent(_), ApiResponse::Event(_)) => true,
            (ReconcileStage::SavingService(_), ApiResponse::Service(r)) => match r {
                Ok(s) => s.metadata.is_identified() && s.metadata.resource_version.is_some(),
                Err(_) => true,
            },
            (ReconcileStage::SendingServiceEvent(_), ApiResponse::Event(_)) => true,
            (ReconcileStage::PuttingStatus(_), ApiResponse::ExposedApp(r)) => match r {
                Ok(a) => a.metadata.resource_version.is_some() && a.metadata.generation.is_some(),
                Err(_) => true,
            },
            _ => false,
        }
    }

    /// Whether the step on `response` posts an event, and so needs the time
    /// and a suffix.
    pub fn posts_event(&self, response: &ApiResponse) -> (r: bool)
        ensures
            r == posts_event(self@.stage, response@),
    {
        match (&self.stage, response) {
            (ReconcileStage::SavingDeployment(_), ApiResponse::Deployment(Ok(_))) => true,
            (ReconcileStage::SavingService(_), ApiResponse::Service(Ok(_))) => true,
            _ => false,
        }
    }

    /// Starts the reconcile of the `ExposedApp` under `namespaced_name`: the
    /// parent is to be read.
    pub fn reconcile(&mut self, namespaced_name: NamespacedName) -> (r: ReconcileAction)
        ensures
            final(self)@ == (ReconcilerView {
                pod_name: old(self)@.pod_name,
                stage: ReconcileStageView::GettingExposedApp,
            }),
            r@ == (ReconcileActionView::GetExposedApp {
                name: namespaced_name@.name,
                namespace: namespaced_name@.namespace,
            }),
    {
        self.stage = ReconcileStage::GettingExposedApp;
        ReconcileAction::GetExposedApp {
            name: namespaced_name.name,
            namespace: namespaced_name.namespace,
        }
    }

    fn fail(what: &str, e: &K8sClientError) -> (r: ReconcileAction)
        ensures
            r@ == ReconcileActionView::Finish(Err(what@ + e@.description())),
    {
        ReconcileAction::Finish(Err(concat2(what, e.describe().as_str())))
    }

    /// One step of the reconcile with the time and the suffix of the event
    /// given: takes the response to the last action and returns the next
    /// action. The version cache gains the entry of a write exactly when
    /// `response` reports that the write succeeded.
    pub fn step_at(
        &mut self,
        response: ApiResponse,
        cache: &mut VersionCache,
        event_time: &str,
        suffix: &str,
    ) -> (r: ReconcileAction)
        requires
            accepts(old(self)@.stage, response@),
        ensures
            final(self)@.pod_name == old(self)@.pod_name,
            final(self)@.stage == next(
                old(self)@.pod_name,
                old(self)@.stage,
                response@,
                old(cache)@,
                event_time@,
                suffix@,
            ).stage,
            r@ == next(
                old(self)@.pod_name,
                old(self)@.stage,
                response@,
                old(cache)@,
                event_time@,
                suffix@,
            ).action,
            final(cache)@ == next(
                old(self)@.pod_name,
                old(self)@.stage,
                response@,
                old(cache)@,
                event_time@,
                suffix@,
            ).cache,
    {
        proof {
            use_type_invariant(&*self);
        }
        let mut stage = ReconcileStage::Done;
        core::mem::swap(&mut self.stage, &mut stage);
        match (stage, response) {
            (ReconcileStage::GettingExposedApp, ApiResponse::ExposedApp(Ok(p))) => {
                let action = ReconcileAction::SaveDeployment(Self::desired_deployment(&p));
                self.stage = ReconcileStage::SavingDeployment(p);
                action
            },
            (
                ReconcileStage::GettingExposedApp,
                ApiResponse::ExposedApp(Err(K8sClientError::NotFound)),
            ) => ReconcileAction::Finish(Ok(())),
            (ReconcileStage::GettingExposedApp, ApiResponse::ExposedApp(Err(e))) => Self::fail(
                "Unable to get ExposedApp: ",
                &e,
            ),
            (ReconcileStage::SavingDeployment(p), ApiResponse::Deployment(Ok(d))) => {
                let namespace = clone_text(&p.metadata.namespace);
                let name = concat2(clone_text(&p.metadata.name).as_str(), "-deployment");
                cache.insert(
                    NamespacedName::new(name.as_str(), namespace.as_str()),
                    CacheEntry {
                        resource_version: clone_text(&d.metadata.resource_version),
                        generation: d.metadata.generation,
                    },
                );
                let mut note = String::from_str("Deployment ");
                note.append(clone_text(&d.metadata.name).as_str());
                note.append(" provisioned successfully with ");
                note.append(u64_to_decimal(d.object.spec.replicas as u64).as_str());
                note.append(" replicas");
                let event = self.event(
                    &p,
                    d.object_reference(),
                    EventType::Normal,
                    "DeploymentProvisioned",
                    note.as_str(),
                    "ProvisioningRequested",
                    event_time,
                    suffix,
                );
                self.stage = ReconcileStage::SendingDeploymentEvent(p);
                ReconcileAction::PostEvent { namespace, event }
            },
            (ReconcileStage::SavingDeployment(_), ApiResponse::Deployment(Err(e))) => Self::fail(
                "Error occurred while saving a deployment: ",
                &e,
            ),
            (ReconcileStage::SendingDeploymentEvent(p), ApiResponse::Event(Ok(_))) => {
                let action = ReconcileAction::PutService(Self::desired_service(&p));
                self.stage = ReconcileStage::SavingService(p);
                action
            },
            (ReconcileStage::SendingDeploymentEvent(_), ApiResponse::Event(Err(e))) => Self::fail(
                "Error occurred while sending an event: ",
                &e,
            ),
            (ReconcileStage::SavingService(p), ApiResponse::Service(Ok(s))) => {
                let namespace = clone_text(&p.metadata.namespace);
                let name = concat2(clone_text(&p.metadata.name).as_str(), "-service");
                cache.insert(
                    NamespacedName::new(name.as_str(), namespace.as_str()),
                    CacheEntry {
                        resource_version: clone_text(&s.metadata.resource_version),
                        generation: None,
                    },
                );
                let mut note = String::from_str("Service ");
                note.append(clone_text(&s.metadata.name).as_str());
                note.append(" successfully provisioned");
                let event = self.event(
                    &p,
                    s.object_reference(),
                    EventType::Normal,
                    "ServiceProvisioned",
                    note.as_str(),
                    "ProvisioningRequested",
                    event_time,
                    suffix,
                );
                self.stage = ReconcileStage::SendingServiceEvent(p);
                ReconcileAction::PostEvent { namespace, event }
            },
            (ReconcileStage::SavingService(_), ApiResponse::Service(Err(e))) => Self::fail(
                "Error occurred while creating a service: ",
                &e,
            ),
            (ReconcileStage::SendingServiceEvent(p), ApiResponse::Event(Ok(_))) => {
                let namespace = clone_text(&p.metadata.namespace);
                let name = clone_text(&p.metadata.name);
                let app = Self::with_status(p);
                self.stage = ReconcileStage::PuttingStatus(app.clone());
                ReconcileAction::PutExposedAppStatus { namespace, name, app }
            },
            (ReconcileStage::SendingServiceEvent(_), ApiResponse::Event(Err(e))) => Self::fail(
                "Error occurred while sending an event: ",
                &e,
            ),
            (ReconcileStage::PuttingStatus(p), ApiResponse::ExposedApp(Ok(a))) => {
                cache.insert(
                    NamespacedName::new(
                        clone_text(&p.metadata.name).as_str(),
                        clone_text(&p.metadata.namespace).as_str(),
                    ),
                    CacheEntry {
                        resource_version: clone_text(&a.metadata.resource_version),
                        generation: a.metadata.generation,
                    },
                );
                ReconcileAction::Finish(Ok(()))
            },
            (ReconcileStage::PuttingStatus(_), ApiResponse::ExposedApp(Err(e))) => Self::fail(
                "Error occurred while updating ExposedApp status: ",
                &e,
            ),
            (other, _) => {
                self.stage = other;
                ReconcileAction::Finish(Ok(()))
            },
        }
    }

    /// One step of the reconcile. A step that posts no event is the step of
    /// [`Reconciler::step_at`], whatever the time: it always returns an
    /// action. A step that posts an event reads the clock and draws the
    /// suffix for it; where the clock's instant cannot be written as text,
    /// nothing changes and `None` is returned.
    pub fn step(&mut self, response: ApiResponse, cache: &mut VersionCache) -> (r: Option<
        ReconcileAction,
    >)
        requires
            accepts(old(self)@.stage, response@),
        ensures
            final(self)@.pod_name == old(self)@.pod_name,
            !posts_event(old(self)@.stage, response@) ==> {
                let t = next(
                    old(self)@.pod_name,
                    old(self)@.stage,
                    response@,
                    old(cache)@,
                    Seq::empty(),
                    Seq::empty(),
                );
                &&& r is Some
                &&& final(self)@.stage == t.stage
                &&& r->0@ == t.action
                &&& final(cache)@ == t.cache
            },
            posts_event(old(self)@.stage, response@) ==> match r {
                Some(action) => exists|event_time: Seq<char>, suffix: Seq<char>|
                    {
                        let t = #[trigger] next(
                            old(self)@.pod_name,
                            old(self)@.stage,
                            response@,
                            old(cache)@,
                            event_time,
                            suffix,
                        );
                        &&& offset_date_time_parser::is_time_text(event_time)
                        &&& is_event_suffix(suffix)
                        &&& final(self)@.stage == t.stage
                        &&& action@ == t.action
                        &&& final(cache)@ == t.cache
                    },
                None => final(self)@.stage == old(self)@.stage && final(cache)@ == old(cache)@,
            },
    {
        if !self.posts_event(&response) {
            return Some(self.step_at(response, cache, "", ""));
        }
        let now = offset_date_time_parser::now_utc();
        match offset_date_time_parser::format(now) {
            Ok(event_time) => {
                let suffix = Self::event_suffix();
                let ghost before = self@;
                let ghost cache_before = cache@;
                let action = self.step_at(response, cache, event_time.as_str(), suffix.as_str());
                proof {
                    assert(offset_date_time_parser::formatted(now) == Ok::<
                        Seq<char>,
                        offset_date_time_parser::TimeError,
                    >(event_time@));
                    let t = next(
                        before.pod_name,
                        before.stage,
                        response@,
                        cache_before,
                        event_time@,
                        suffix@,
                    );
                    assert(self@.stage == t.stage && action@ == t.action && cache@ == t.cache);
                }
                Some(action)
            },
            Err(_) => None,
        }
    }
}

/// The time and the suffix matter to a step only where it posts an event:
/// every other step leads to the same stage, action and cache whatever they
/// are.
pub proof fn lemma_time_matters_only_for_events(
    pod_name: Seq<char>,
    stage: ReconcileStageView,
    response: ApiResponseView,
    cache: CacheMap,
    event_time: Seq<char>,
    suffix: Seq<char>,
)
    requires
        !posts_event(stage, response),
    ensures
        next(pod_name, stage, response, cache, event_time, suffix) == next(
            pod_name,
            stage,
            response,
            cache,
            Seq::empty(),
            Seq::empty(),
        ),
        !(next(pod_name, stage, response, cache, event_time, suffix).action is PostEvent),
{
}

/// One input of a run of the reconciler: a response, and the time and the
/// suffix for the event that the step may post.
pub struct Input {
    pub response: ApiResponseView,
    pub event_time: Seq<char>,
    pub suffix: Seq<char>,
}

/// What the step on `input` leads to.
pub open spec fn after(
    pod_name: Seq<char>,
    stage: ReconcileStageView,
    cache: CacheMap,
    input: Input,
) -> Transition {
    next(pod_name, stage, input.response, cache, input.event_time, input.suffix)
}

/// Each input is taken by the stage that the inputs before it lead to.
pub open spec fn follows(
    pod_name: Seq<char>,
    stage: ReconcileStageView,
    cache: CacheMap,
    inputs: Seq<Input>,
) -> bool
    decreases inputs.len(),
{
    inputs.len() == 0 || {
        let t = after(pod_name, stage, cache, inputs[0]);
        accepts(stage, inputs[0].response) && follows(
            pod_name,
            t.stage,
            t.cache,
            inputs.drop_first(),
        )
    }
}

/// The actions that the inputs lead to, in order.
pub open spec fn actions(
    pod_name: Seq<char>,
    stage: ReconcileStageView,
    cache: CacheMap,
    inputs: Seq<Input>,
) -> Seq<ReconcileActionView>
    decreases inputs.len(),
{
    if inputs.len() == 0 {
        Seq::empty()
    } else {
        let t = after(pod_name, stage, cache, inputs[0]);
        seq![t.action] + actions(pod_name, t.stage, t.cache, inputs.drop_first())
    }
}

/// The Deployment that a parent asks for carries the parent's name with the
/// suffix `-deployment`, its namespace and a controlling reference to it; it
/// has as many replicas as the parent asks for, zero included, and one
/// container, `main`, with the parent's image.
pub proof fn lemma_deployment_matches_parent(resource: ExposedAppObject)
    ensures
        ({
            let d = desired_deployment(resource);
            &&& d.metadata.name == Some(resource.metadata.name->0 + "-deployment"@)
            &&& d.metadata.namespace == Some(resource.metadata.namespace->0)
            &&& d.metadata.owner_references == Some(seq![owner_reference(resource)])
            &&& owner_reference(resource).controller
            &&& owner_reference(resource).block_owner_deletion
            &&& d.object.spec.replicas == resource.object.spec.replicas
            &&& d.object.spec.template.spec.containers.len() == 1
            &&& d.object.spec.template.spec.containers[0].name == "main"@
            &&& d.object.spec.template.spec.containers[0].image == resource.object.spec.image
            &&& d.object.spec.selector.match_labels == d.object.spec.template.metadata.labels->0
        }),
{
}

/// The Service that a parent asks for selects the pods of the parent's
/// Deployment, leads from the parent's port to its container port, and has a
/// type and a node port exactly where the parent names them.
pub proof fn lemma_service_matches_parent(resource: ExposedAppObject)
    ensures
        ({
            let s = desired_service(resource);
            let d = desired_deployment(resource);
            &&& s.metadata.name == Some(resource.metadata.name->0 + "-service"@)
            &&& s.object.spec.selector == Some(d.object.spec.selector.match_labels)
            &&& s.object.spec.ports.len() == 1
            &&& s.object.spec.ports[0].port == resource.object.spec.port
            &&& s.object.spec.ports[0].target_port == resource.object.spec.container_port
            &&& s.object.spec.ports[0].protocol == resource.object.spec.protocol
            &&& (s.object.spec.ports[0].node_port is None <==> resource.object.spec.node_port
                is None)
            &&& (s.object.spec.service_type is None <==> resource.object.spec.service_type is None)
        }),
{
}

/// Two observations of a parent declare the same: they agree on the header,
/// on name, namespace and uid, and on the spec. Status, resource version and
/// generation may differ.
pub open spec fn same_declaration(p: ExposedAppObject, q: ExposedAppObject) -> bool {
    &&& p.api_version == q.api_version
    &&& p.kind == q.kind
    &&& p.metadata.name == q.metadata.name
    &&& p.metadata.namespace == q.metadata.namespace
    &&& p.metadata.uid == q.metadata.uid
    &&& p.object.spec == q.object.spec
}

/// What a reconcile writes depends on what the parent declares and on
/// nothing else: two observations that declare the same ask for the same
/// Deployment, the same Service and the same status. A parent observed again
/// after its own reconcile, with the status and the resource version that the
/// reconcile gave it, is such an observation.
pub proof fn lemma_writes_depend_on_declaration(p: ExposedAppObject, q: ExposedAppObject)
    requires
        same_declaration(p, q),
    ensures
        desired_deployment(p) == desired_deployment(q),
        desired_service(p) == desired_service(q),
        with_status(p).object.status == with_status(q).object.status,
        same_declaration(p, with_status(p)),
        with_status(with_status(p)) == with_status(p),
{
}

/// After a write that succeeded, the cache holds under the key of the
/// written object the resource version of the response; every other key
/// keeps its entry. A step that is no successful write leaves the cache as
/// it was.
pub proof fn lemma_cache_follows_writes(
    pod_name: Seq<char>,
    stage: ReconcileStageView,
    response: ApiResponseView,
    cache: CacheMap,
    event_time: Seq<char>,
    suffix: Seq<char>,
)
    requires
        accepts(stage, response),
    ensures
        ({
            let t = next(pod_name, stage, response, cache, event_time, suffix);
            match (stage, response) {
                (ReconcileStageView::SavingDeployment(p), ApiResponseView::Deployment(Ok(d))) => {
                    let k = key(p.metadata.namespace->0, deployment_name(p.metadata.name->0));
                    &&& t.cache.dom().contains(k)
                    &&& t.cache[k].resource_version == d.metadata.resource_version->0
                    &&& t.cache[k].generation == d.metadata.generation
                    &&& t.cache.remove(k) == cache.remove(k)
                },
                (ReconcileStageView::SavingService(p), ApiResponseView::Service(Ok(s))) => {
                    let k = key(p.metadata.namespace->0, service_name(p.metadata.name->0));
                    &&& t.cache.dom().contains(k)
                    &&& t.cache[k].resource_version == s.metadata.resource_version->0
                    &&& t.cache[k].generation is None
                    &&& t.cache.remove(k) == cache.remove(k)
                },
                (ReconcileStageView::PuttingStatus(p), ApiResponseView::ExposedApp(Ok(a))) => {
                    let k = key(p.metadata.namespace->0, p.metadata.name->0);
                    &&& t.cache.dom().contains(k)
                    &&& t.cache[k].resource_version == a.metadata.resource_version->0
                    &&& t.cache[k].generation == a.metadata.generation
                    &&& t.cache.remove(k) == cache.remove(k)
                },
                _ => t.cache == cache,
            }
        }),
{
    let t = next(pod_name, stage, response, cache, event_time, suffix);
    match (stage, response) {
        (ReconcileStageView::SavingDeployment(p), ApiResponseView::Deployment(Ok(d))) => {
            let k = key(p.metadata.namespace->0, deployment_name(p.metadata.name->0));
            assert(t.cache.remove(k) =~= cache.remove(k));
        },
        (ReconcileStageView::SavingService(p), ApiResponseView::Service(Ok(s))) => {
            let k = key(p.metadata.namespace->0, service_name(p.metadata.name->0));
            assert(t.cache.remove(k) =~= cache.remove(k));
        },
        (ReconcileStageView::PuttingStatus(p), ApiResponseView::ExposedApp(Ok(a))) => {
            let k = key(p.metadata.namespace->0, p.metadata.name->0);
            assert(t.cache.remove(k) =~= cache.remove(k));
        },
        _ => {},
    }
}

/// Each input leads to one action.
pub proof fn lemma_actions_len(
    pod_name: Seq<char>,
    stage: ReconcileStageView,
    cache: CacheMap,
    inputs: Seq<Input>,
)
    ensures
        actions(pod_name, stage, cache, inputs).len() == inputs.len(),
    decreases inputs.len(),
{
    if inputs.len() > 0 {
        let t = after(pod_name, stage, cache, inputs[0]);
        lemma_actions_len(pod_name, t.stage, t.cache, inputs.drop_first());
    }
}

/// Once a reconcile has ended, no response is taken.
pub proof fn lemma_done_ends(pod_name: Seq<char>, cache: CacheMap, inputs: Seq<Input>)
    requires
        follows(pod_name, ReconcileStageView::Done, cache, inputs),
    ensures
        inputs.len() == 0,
{
}

/// A reconcile that finds its parent and ends well has taken six responses
/// and has, in this order, saved the Deployment that the parent asks for,
/// posted an event, written the Service that the parent asks for, posted an
/// event, and written the status that names the two children: one write of
/// each, and no other.
pub proof fn lemma_successful_reconcile(
    pod_name: Seq<char>,
    cache: CacheMap,
    inputs: Seq<Input>,
    parent: ExposedAppObject,
)
    requires
        inputs.len() > 0,
        inputs[0].response == ApiResponseView::ExposedApp(Ok(parent)),
        follows(pod_name, ReconcileStageView::GettingExposedApp, cache, inputs),
        actions(pod_name, ReconcileStageView::GettingExposedApp, cache, inputs).last()
            == ReconcileActionView::Finish(Ok(())),
    ensures
        inputs.len() == 6,
        ({
            let done = actions(pod_name, ReconcileStageView::GettingExposedApp, cache, inputs);
            &&& done.len() == 6
            &&& done[0] == ReconcileActionView::SaveDeployment(desired_deployment(parent))
            &&& done[1] is PostEvent
            &&& done[2] == ReconcileActionView::PutService(desired_service(parent))
            &&& done[3] is PostEvent
            &&& done[4] == (ReconcileActionView::PutExposedAppStatus {
                namespace: parent.metadata.namespace->0,
                name: parent.metadata.name->0,
                app: with_status(parent),
            })
            &&& done[5] == ReconcileActionView::Finish(Ok(()))
        }),
{
    let s0 = ReconcileStageView::GettingExposedApp;
    lemma_actions_len(pod_name, s0, cache, inputs);
    let t1 = after(pod_name, s0, cache, inputs[0]);
    let i1 = inputs.drop_first();
    let a1 = actions(pod_name, t1.stage, t1.cache, i1);
    assert(actions(pod_name, s0, cache, inputs) == seq![t1.action] + a1);
    if i1.len() == 0 {
        assert(a1 =~= Seq::empty());
        assert((seq![t1.action] + a1).last() == t1.action);
    } else {
        lemma_last_of_tail(t1.action, a1);
        lemma_after_saving_deployment(pod_name, parent, t1.cache, i1);
        assert((seq![t1.action] + a1).len() == 6);
        assert((seq![t1.action] + a1)[0] == t1.action);
        assert forall|i: int| 1 <= i < 6 implies (seq![t1.action] + a1)[i] == a1[i - 1] by {}
    }
}

/// A reconcile whose parent is not found ends well at once and writes
/// nothing.
pub proof fn lemma_reconcile_of_missing_parent(
    pod_name: Seq<char>,
    cache: CacheMap,
    inputs: Seq<Input>,
)
    requires
        inputs.len() > 0,
        inputs[0].response == ApiResponseView::ExposedApp(Err(K8sClientErrorView::NotFound)),
        follows(pod_name, ReconcileStageView::GettingExposedApp, cache, inputs),
    ensures
        inputs.len() == 1,
        actions(pod_name, ReconcileStageView::GettingExposedApp, cache, inputs) == seq![
            ReconcileActionView::Finish(Ok(())),
        ],
        after(pod_name, ReconcileStageView::GettingExposedApp, cache, inputs[0]).cache == cache,
{
    lemma_failure_ends(pod_name, ReconcileStageView::GettingExposedApp, cache, inputs);
}

/// A step that ends the reconcile is its last: no response is taken after
/// it, and its action is the last action.
pub proof fn lemma_finish_is_last(
    pod_name: Seq<char>,
    stage: ReconcileStageView,
    cache: CacheMap,
    inputs: Seq<Input>,
)
    requires
        inputs.len() > 0,
        follows(pod_name, stage, cache, inputs),
        after(pod_name, stage, cache, inputs[0]).action is Finish,
    ensures
        inputs.len() == 1,
{
    let t = after(pod_name, stage, cache, inputs[0]);
    assert(t.stage is Done);
    lemma_failure_ends(pod_name, stage, cache, inputs);
}

proof fn lemma_last_of_tail(head: ReconcileActionView, tail: Seq<ReconcileActionView>)
    requires
        tail.len() > 0,
    ensures
        (seq![head] + tail).last() == tail.last(),
{
}

proof fn lemma_failure_ends(
    pod_name: Seq<char>,
    stage: ReconcileStageView,
    cache: CacheMap,
    inputs: Seq<Input>,
)
    requires
        inputs.len() > 0,
        follows(pod_name, stage, cache, inputs),
        after(pod_name, stage, cache, inputs[0]).stage is Done,
    ensures
        inputs.len() == 1,
        actions(pod_name, stage, cache, inputs) == seq![
            after(pod_name, stage, cache, inputs[0]).action,
        ],
{
    let t = after(pod_name, stage, cache, inputs[0]);
    lemma_done_ends(pod_name, t.cache, inputs.drop_first());
    assert(actions(pod_name, t.stage, t.cache, inputs.drop_first()) =~= Seq::empty());
    assert(actions(pod_name, stage, cache, inputs) =~= seq![t.action]);
}

proof fn lemma_after_putting_status(
    pod_name: Seq<char>,
    parent: ExposedAppObject,
    cache: CacheMap,
    inputs: Seq<Input>,
)
    requires
        inputs.len() > 0,
        follows(pod_name, ReconcileStageView::PuttingStatus(parent), cache, inputs),
        actions(pod_name, ReconcileStageView::PuttingStatus(parent), cache, inputs).last()
            == ReconcileActionView::Finish(Ok(())),
    ensures
        actions(pod_name, ReconcileStageView::PuttingStatus(parent), cache, inputs) == seq![
            ReconcileActionView::Finish(Ok(())),
        ],
{
    lemma_failure_ends(pod_name, ReconcileStageView::PuttingStatus(parent), cache, inputs);
}

proof fn lemma_after_sending_service_event(
    pod_name: Seq<char>,
    parent: ExposedAppObject,
    cache: CacheMap,
    inputs: Seq<Input>,
)
    requires
        inputs.len() > 0,
        follows(pod_name, ReconcileStageView::SendingServiceEvent(parent), cache, inputs),
        actions(pod_name, ReconcileStageView::SendingServiceEvent(parent), cache, inputs).last()
            == ReconcileActionView::Finish(Ok(())),
    ensures
        actions(pod_name, ReconcileStageView::SendingServiceEvent(parent), cache, inputs) == seq![
            ReconcileActionView::PutExposedAppStatus {
                namespace: parent.metadata.namespace->0,
                name: parent.metadata.name->0,
                app: with_status(parent),
            },
            ReconcileActionView::Finish(Ok(())),
        ],
{
    let stage = ReconcileStageView::SendingServiceEvent(parent);
    let t = after(pod_name, stage, cache, inputs[0]);
    let rest = inputs.drop_first();
    let tail = actions(pod_name, t.stage, t.cache, rest);
    assert(actions(pod_name, stage, cache, inputs) == seq![t.action] + tail);
    if t.stage is Done {
        lemma_failure_ends(pod_name, stage, cache, inputs);
    } else if rest.len() == 0 {
        assert(tail =~= Seq::empty());
        assert((seq![t.action] + tail).last() == t.action);
    } else {
        lemma_last_of_tail(t.action, tail);
        lemma_after_putting_status(pod_name, with_status(parent), t.cache, rest);
        assert(seq![t.action] + tail =~= seq![t.action, ReconcileActionView::Finish(Ok(()))]);
    }
}

proof fn lemma_after_saving_service(
    pod_name: Seq<char>,
    parent: ExposedAppObject,
    cache: CacheMap,
    inputs: Seq<Input>,
)
    requires
        inputs.len() > 0,
        follows(pod_name, ReconcileStageView::SavingService(parent), cache, inputs),
        actions(pod_name, ReconcileStageView::SavingService(parent), cache, inputs).last()
            == ReconcileActionView::Finish(Ok(())),
    ensures
        ({
            let done = actions(pod_name, ReconcileStageView::SavingService(parent), cache, inputs);
            &&& done.len() == 3
            &&& done[0] is PostEvent
            &&& done[1] == (ReconcileActionView::PutExposedAppStatus {
                namespace: parent.metadata.namespace->0,
                name: parent.metadata.name->0,
                app: with_status(parent),
            })
            &&& done[2] == ReconcileActionView::Finish(Ok(()))
        }),
{
    let stage = ReconcileStageView::SavingService(parent);
    let t = after(pod_name, stage, cache, inputs[0]);
    let rest = inputs.drop_first();
    let tail = actions(pod_name, t.stage, t.cache, rest);
    assert(actions(pod_name, stage, cache, inputs) == seq![t.action] + tail);
    if t.stage is Done {
        lemma_failure_ends(pod_name, stage, cache, inputs);
    } else if rest.len() == 0 {
        assert(tail =~= Seq::empty());
        assert((seq![t.action] + tail).last() == t.action);
    } else {
        lemma_last_of_tail(t.action, tail);
        lemma_after_sending_service_event(pod_name, parent, t.cache, rest);
        assert((seq![t.action] + tail).len() == 3);
        assert((seq![t.action] + tail)[1] == tail[0]);
        assert((seq![t.action] + tail)[2] == tail[1]);
    }
}

proof fn lemma_after_sending_deployment_event(
    pod_name: Seq<char>,
    parent: ExposedAppObject,
    cache: CacheMap,
    inputs: Seq<Input>,
)
    requires
        inputs.len() > 0,
        follows(pod_name, ReconcileStageView::SendingDeploymentEvent(parent), cache, inputs),
        actions(
            pod_name,
            ReconcileStageView::SendingDeploymentEvent(parent),
            cache,
            inputs,
        ).last() == ReconcileActionView::Finish(Ok(())),
    ensures
        ({
            let done = actions(
                pod_name,
                ReconcileStageView::SendingDeploymentEvent(parent),
                cache,
                inputs,
            );
            &&& done.len() == 4
            &&& done[0] == ReconcileActionView::PutService(desired_service(parent))
            &&& done[1] is PostEvent
            &&& done[2] == (ReconcileActionView::PutExposedAppStatus {
                namespace: parent.metadata.namespace->0,
                name: parent.metadata.name->0,
                app: with_status(parent),
            })
            &&& done[3] == ReconcileActionView::Finish(Ok(()))
        }),
{
    let stage = ReconcileStageView::SendingDeploymentEvent(parent);
    let t = after(pod_name, stage, cache, inputs[0]);
    let rest = inputs.drop_first();
    let tail = actions(pod_name, t.stage, t.cache, rest);
    assert(actions(pod_name, stage, cache, inputs) == seq![t.action] + tail);
    if t.stage is Done {
        lemma_failure_ends(pod_name, stage, cache, inputs);
    } else if rest.len() == 0 {
        assert(tail =~= Seq::empty());
        assert((seq![t.action] + tail).last() == t.action);
    } else {
        lemma_last_of_tail(t.action, tail);
        lemma_after_saving_service(pod_name, parent, t.cache, rest);
        assert((seq![t.action] + tail).len() == 4);
        assert forall|i: int| 1 <= i < 4 implies (seq![t.action] + tail)[i] == tail[i - 1] by {}
    }
}

proof fn lemma_after_saving_deployment(
    pod_name: Seq<char>,
    parent: ExposedAppObject,
    cache: CacheMap,
    inputs: Seq<Input>,
)
    requires
        inputs.len() > 0,
        follows(pod_name, ReconcileStageView::SavingDeployment(parent), cache, inputs),
        actions(pod_name, ReconcileStageView::SavingDeployment(parent), cache, inputs).last()
            == ReconcileActionView::Finish(Ok(())),
    ensures
        ({
            let done = actions(
                pod_name,
                ReconcileStageView::SavingDeployment(parent),
                cache,
                inputs,
            );
            &&& done.len() == 5
            &&& done[0] is PostEvent
            &&& done[1] == ReconcileActionView::PutService(desired_service(parent))
            &&& done[2] is PostEvent
            &&& done[3] == (ReconcileActionView::PutExposedAppStatus {
                namespace: parent.metadata.namespace->0,
                name: parent.metadata.name->0,
                app: with_status(parent),
            })
            &&& done[4] == ReconcileActionView::Finish(Ok(()))
        }),
{
    let stage = ReconcileStageView::SavingDeployment(parent);
    let t = after(pod_name, stage, cache, inputs[0]);
    let rest = inputs.drop_first();
    let tail = actions(pod_name, t.stage, t.cache, rest);
    assert(actions(pod_name, stage, cache, inputs) == seq![t.action] + tail);
    if t.stage is Done {
        lemma_failure_ends(pod_name, stage, cache, inputs);
    } else if rest.len() == 0 {
        assert(tail =~= Seq::empty());
        assert((seq![t.action] + tail).last() == t.action);
    } else {
        lemma_last_of_tail(t.action, tail);
        lemma_after_sending_deployment_event(pod_name, parent, t.cache, rest);
        assert((seq![t.action] + tail).len() == 5);
        assert forall|i: int| 1 <= i < 5 implies (seq![t.action] + tail)[i] == tail[i - 1] by {}
    }
}

/// The lower-case form of an ASCII letter or digit is a lower-case letter or
/// a digit.
pub proof fn lemma_ascii_lower(c: char)
    requires
        is_alphanumeric(c),
    ensures
        is_lower_alphanumeric(ascii_lower(c)),
{
}

} // verus!
