//! The controller of the group `stable.kube-rs-o6r.com`: the children that an
//! `ExposedApp` asks for, the conditions it reports, and the operations of one
//! reconcile in their order. The operations are carried out by a runtime that
//! stops at the first one that fails.

use vstd::prelude::*;
use vstd::string::*;
use crate::exposed_app::{
    Condition, ConditionView, ExposedApp, ExposedAppStatus, ExposedAppStatusView, ExposedAppView,
    API_VERSION, KIND,
};
use crate::k8s_types::clone_text;
use crate::labels::Labels;
use crate::text::{concat2, str_eq};

verus! {

broadcast use crate::labels::Labels::lemma_view_is_deep_view;

/// The label that ties the pods to their Deployment and Service.
pub const NAME_LABEL: &'static str = "app.kubernetes.io/name";

/// The name under which the controller reports events.
pub const CONTROLLER: &'static str = "exposed-app-controller";

/// The seconds after which a failed reconcile is tried again.
pub const REQUEUE_SECS: u64 = 5;

/// A reference from a child to the resource that controls it.
#[derive(Debug)]
pub struct OwnerRef {
    pub api_version: String,
    pub kind: String,
    pub name: String,
    pub uid: String,
    pub controller: Option<bool>,
    pub block_owner_deletion: Option<bool>,
}

/// What an [`OwnerRef`] holds.
pub struct OwnerRefView {
    pub api_version: Seq<char>,
    pub kind: Seq<char>,
    pub name: Seq<char>,
    pub uid: Seq<char>,
    pub controller: Option<bool>,
    pub block_owner_deletion: Option<bool>,
}

impl DeepView for OwnerRef {
    type V = OwnerRefView;

    open spec fn deep_view(&self) -> OwnerRefView {
        OwnerRefView {
            api_version: self.api_version.deep_view(),
            kind: self.kind.deep_view(),
            name: self.name.deep_view(),
            uid: self.uid.deep_view(),
            controller: self.controller,
            block_owner_deletion: self.block_owner_deletion,
        }
    }
}

/// The Deployment of an `ExposedApp`: what the controller sets of it.
#[derive(Debug)]
pub struct DeploymentPlan {
    pub name: String,
    pub namespace: String,
    pub owner: OwnerRef,
    pub replicas: i32,
    pub pod_labels: Labels,
    pub container_name: String,
    pub image: String,
    pub protocol: String,
    pub container_port: i32,
}

/// What a [`DeploymentPlan`] holds.
pub struct DeploymentPlanView {
    pub name: Seq<char>,
    pub namespace: Seq<char>,
    pub owner: OwnerRefView,
    pub replicas: i32,
    pub pod_labels: Map<Seq<char>, Seq<char>>,
    pub container_name: Seq<char>,
    pub image: Seq<char>,
    pub protocol: Seq<char>,
    pub container_port: i32,
}

impl DeepView for DeploymentPlan {
    type V = DeploymentPlanView;

    open spec fn deep_view(&self) -> DeploymentPlanView {
        DeploymentPlanView {
            name: self.name.deep_view(),
            namespace: self.namespace.deep_view(),
            owner: self.owner.deep_view(),
            replicas: self.replicas,
            pod_labels: self.pod_labels.deep_view(),
            container_name: self.container_name.deep_view(),
            image: self.image.deep_view(),
            protocol: self.protocol.deep_view(),
            container_port: self.container_port,
        }
    }
}

/// The Service of an `ExposedApp`: what the controller sets of it.
#[derive(Debug)]
pub struct ServicePlan {
    pub name: String,
    pub namespace: String,
    pub owner: OwnerRef,
    pub selector: Labels,
    pub service_type: Option<String>,
    pub protocol: String,
    pub node_port: Option<i32>,
    pub target_port: i32,
    pub port: i32,
}

/// What a [`ServicePlan`] holds.
pub struct ServicePlanView {
    pub name: Seq<char>,
    pub namespace: Seq<char>,
    pub owner: OwnerRefView,
    pub selector: Map<Seq<char>, Seq<char>>,
    pub service_type: Option<Seq<char>>,
    pub protocol: Seq<char>,
    pub node_port: Option<i32>,
    pub target_port: i32,
    pub port: i32,
}

impl DeepView for ServicePlan {
    type V = ServicePlanView;

    open spec fn deep_view(&self) -> ServicePlanView {
        ServicePlanView {
            name: self.name.deep_view(),
            namespace: self.namespace.deep_view(),
            owner: self.owner.deep_view(),
            selector: self.selector.deep_view(),
            service_type: self.service_type.deep_view(),
            protocol: self.protocol.deep_view(),
            node_port: self.node_port,
            target_port: self.target_port,
            port: self.port,
        }
    }
}

/// An event of type `Normal` about the resource that is reconciled.
#[derive(Debug)]
pub struct EventPlan {
    pub reason: String,
    pub action: String,
    pub note: Option<String>,
}

/// What an [`EventPlan`] holds.
pub struct EventPlanView {
    pub reason: Seq<char>,
    pub action: Seq<char>,
    pub note: Option<Seq<char>>,
}

impl DeepView for EventPlan {
    type V = EventPlanView;

    open spec fn deep_view(&self) -> EventPlanView {
        EventPlanView {
            reason: self.reason.deep_view(),
            action: self.action.deep_view(),
            note: self.note.deep_view(),
        }
    }
}

/// One operation of a reconcile.
#[derive(Debug)]
pub enum Step {
    /// Create the Deployment, or patch it where it exists.
    SaveDeployment(DeploymentPlan),
    /// Create the Service, or patch it where it exists.
    SaveService(ServicePlan),
    /// Publish the event.
    PublishEvent(EventPlan),
    /// Merge the fields that are set into the status of the resource.
    PatchStatus(ExposedAppStatus),
}

/// What a [`Step`] holds.
pub enum StepView {
    SaveDeployment(DeploymentPlanView),
    SaveService(ServicePlanView),
    PublishEvent(EventPlanView),
    PatchStatus(ExposedAppStatusView),
}

impl DeepView for Step {
    type V = StepView;

    open spec fn deep_view(&self) -> StepView {
        match self {
            Step::SaveDeployment(d) => StepView::SaveDeployment(d.deep_view()),
            Step::SaveService(s) => StepView::SaveService(s.deep_view()),
            Step::PublishEvent(e) => StepView::PublishEvent(e.deep_view()),
            Step::PatchStatus(s) => StepView::PatchStatus(s.deep_view()),
        }
    }
}

/// What the runtime does with the resource after a reconcile.
#[derive(Clone, Copy, PartialEq, Eq, Structural, Debug)]
pub enum Action {
    /// Wait until the resource or one of its children changes.
    AwaitChange,
    /// Reconcile again after `secs` seconds.
    Requeue { secs: u64 },
}

/// How an object is saved.
#[derive(Clone, Copy, PartialEq, Eq, Structural, Debug)]
pub enum SaveVerb {
    /// The object does not exist: create it.
    Create,
    /// The object exists: merge the new one into it.
    Patch,
}

/// How to save an object, given whether one of its name was found.
pub fn save(found: bool) -> (r: SaveVerb)
    ensures
        r == if found {
            SaveVerb::Patch
        } else {
            SaveVerb::Create
        },
{
    if found {
        SaveVerb::Patch
    } else {
        SaveVerb::Create
    }
}

/// What follows a reconcile that failed: another one after five seconds.
pub fn error_policy() -> (r: Action)
    ensures
        r == (Action::Requeue { secs: REQUEUE_SECS }),
{
    Action::Requeue { secs: REQUEUE_SECS }
}

/// The first place from `from` on at which `conditions` holds a condition
/// of the type `type_`.
pub open spec fn index_of_type(conditions: Seq<ConditionView>, type_: Seq<char>, from: int) -> Option<
    int,
>
    decreases conditions.len() - from,
{
    if from < 0 || from >= conditions.len() {
        None
    } else if conditions[from].type_ == type_ {
        Some(from)
    } else {
        index_of_type(conditions, type_, from + 1)
    }
}

/// `conditions` with `condition` in them: in the place of the first
/// condition of its type, or at the end where there is none of its type.
pub open spec fn with_condition(conditions: Seq<ConditionView>, condition: ConditionView) -> Seq<
    ConditionView,
> {
    match index_of_type(conditions, condition.type_, 0) {
        Some(i) => conditions.update(i, condition),
        None => conditions.push(condition),
    }
}

/// Sets `condition` among `conditions`: it replaces the first condition of
/// its type, or is added at the end where there is none. The other
/// conditions stay as and where they are.
pub fn set_condition(conditions: &Vec<Condition>, condition: Condition) -> (r: Vec<Condition>)
    ensures
        r.deep_view() == with_condition(conditions.deep_view(), condition@),
{
    let ghost all = conditions.deep_view();
    let ghost wanted = condition@;
    let mut new_conditions = conditions.clone();
    assert(new_conditions.deep_view() =~= all);
    let mut i: usize = 0;
    while i < new_conditions.len()
        invariant
            i <= new_conditions.len(),
            new_conditions.deep_view() == all,
            all == conditions.deep_view(),
            wanted == condition@,
            index_of_type(all, wanted.type_, 0) == index_of_type(all, wanted.type_, i as int),
        decreases new_conditions.len() - i,
    {
        assert(all[i as int] == new_conditions[i as int]@);
        if str_eq(new_conditions[i].type_.as_str(), condition.type_.as_str()) {
            assert(all[i as int].type_ == wanted.type_);
            assert(index_of_type(all, wanted.type_, i as int) == Some(i as int));
            new_conditions.set(i, condition);
            assert(new_conditions.deep_view() =~= all.update(i as int, wanted));
            return new_conditions;
        }
        i += 1;
    }
    new_conditions.push(condition);
    assert(new_conditions.deep_view() =~= all.push(wanted));
    new_conditions
}

/// A place of `conditions` from `from` on holds the type exactly when
/// [`index_of_type`] finds one, and what it finds is the first such place.
pub proof fn lemma_index_of_type(conditions: Seq<ConditionView>, type_: Seq<char>, from: int)
    requires
        0 <= from,
    ensures
        match index_of_type(conditions, type_, from) {
            Some(i) => from <= i < conditions.len() && conditions[i].type_ == type_ && forall|j: int|
                from <= j < i ==> conditions[j].type_ != type_,
            None => forall|j: int| from <= j < conditions.len() ==> conditions[j].type_ != type_,
        },
    decreases conditions.len() - from,
{
    if from < conditions.len() && conditions[from].type_ != type_ {
        lemma_index_of_type(conditions, type_, from + 1);
    }
}

proof fn lemma_index_found(conditions: Seq<ConditionView>, type_: Seq<char>, from: int, at: int)
    requires
        0 <= from <= at < conditions.len(),
        conditions[at].type_ == type_,
        forall|j: int| from <= j < at ==> conditions[j].type_ != type_,
    ensures
        index_of_type(conditions, type_, from) == Some(at),
    decreases at - from,
{
    if from < at {
        lemma_index_found(conditions, type_, from + 1, at);
    }
}

/// Setting a condition keeps the number of conditions where one of its type
/// was there and adds one where none was; and setting it a second time
/// changes nothing more.
pub proof fn lemma_set_condition(conditions: Seq<ConditionView>, condition: ConditionView)
    ensures
        with_condition(conditions, condition).len() == if index_of_type(
            conditions,
            condition.type_,
            0,
        ) is Some {
            conditions.len()
        } else {
            conditions.len() + 1
        },
        with_condition(with_condition(conditions, condition), condition) == with_condition(
            conditions,
            condition,
        ),
{
    let once = with_condition(conditions, condition);
    lemma_index_of_type(conditions, condition.type_, 0);
    match index_of_type(conditions, condition.type_, 0) {
        Some(i) => {
            assert forall|j: int| 0 <= j < i implies once[j].type_ != condition.type_ by {
                assert(once[j] == conditions[j]);
            }
            lemma_index_found(once, condition.type_, 0, i);
            assert(once.update(i, condition) =~= once);
        },
        None => {
            let at = conditions.len() as int;
            assert forall|j: int| 0 <= j < at implies once[j].type_ != condition.type_ by {
                assert(once[j] == conditions[j]);
            }
            lemma_index_found(once, condition.type_, 0, at);
            assert(once.update(at, condition) =~= once);
        },
    }
}

/// The reference by which a child names `exposed_app` as its controller.
pub open spec fn controller_owner_ref(exposed_app: ExposedAppView) -> OwnerRefView {
    OwnerRefView {
        api_version: API_VERSION@,
        kind: KIND@,
        name: exposed_app.metadata.name->0,
        uid: exposed_app.metadata.uid->0,
        controller: Some(true),
        block_owner_deletion: None,
    }
}

/// The Deployment `name` in `namespace` for `exposed_app`.
pub open spec fn deployment_plan(
    name: Seq<char>,
    namespace: Seq<char>,
    pod_labels: Map<Seq<char>, Seq<char>>,
    exposed_app: ExposedAppView,
) -> DeploymentPlanView {
    DeploymentPlanView {
        name,
        namespace,
        owner: controller_owner_ref(exposed_app),
        replicas: exposed_app.spec.replicas,
        pod_labels,
        container_name: "main"@,
        image: exposed_app.spec.image,
        protocol: exposed_app.spec.protocol,
        container_port: exposed_app.spec.container_port,
    }
}

/// The Service `name` in `namespace` for `exposed_app`.
pub open spec fn service_plan(
    name: Seq<char>,
    namespace: Seq<char>,
    pod_labels: Map<Seq<char>, Seq<char>>,
    exposed_app: ExposedAppView,
) -> ServicePlanView {
    ServicePlanView {
        name,
        namespace,
        owner: controller_owner_ref(exposed_app),
        selector: pod_labels,
        service_type: exposed_app.spec.service_type,
        protocol: exposed_app.spec.protocol,
        node_port: exposed_app.spec.node_port,
        target_port: exposed_app.spec.container_port,
        port: exposed_app.spec.port,
    }
}

fn owner_ref(exposed_app: &ExposedApp) -> (r: OwnerRef)
    requires
        exposed_app@.metadata.name is Some,
        exposed_app@.metadata.uid is Some,
    ensures
        r.deep_view() == controller_owner_ref(exposed_app@),
{
    OwnerRef {
        api_version: String::from_str(API_VERSION),
        kind: String::from_str(KIND),
        name: clone_text(&exposed_app.metadata.name),
        uid: clone_text(&exposed_app.metadata.uid),
        controller: Some(true),
        block_owner_deletion: None,
    }
}

/// The Deployment `name` in `namespace` for `exposed_app`, with `pod_labels`
/// on its pods and in its selector.
pub fn deployment(name: &str, namespace: &str, pod_labels: &Labels, exposed_app: &ExposedApp) -> (r:
    DeploymentPlan)
    requires
        exposed_app@.metadata.name is Some,
        exposed_app@.metadata.uid is Some,
    ensures
        r.deep_view() == deployment_plan(name@, namespace@, pod_labels@, exposed_app@),
{
    DeploymentPlan {
        name: String::from_str(name),
        namespace: String::from_str(namespace),
        owner: owner_ref(exposed_app),
        replicas: exposed_app.spec.replicas,
        pod_labels: pod_labels.clone(),
        container_name: String::from_str("main"),
        image: exposed_app.spec.image.clone(),
        protocol: exposed_app.spec.protocol.clone(),
        container_port: exposed_app.spec.container_port,
    }
}

/// The Service `name` in `namespace` for `exposed_app`, selecting the pods
/// that carry `pod_labels`.
pub fn service(name: &str, namespace: &str, pod_labels: &Labels, exposed_app: &ExposedApp) -> (r:
    ServicePlan)
    requires
        exposed_app@.metadata.name is Some,
        exposed_app@.metadata.uid is Some,
    ensures
        r.deep_view() == service_plan(name@, namespace@, pod_labels@, exposed_app@),
{
    ServicePlan {
        name: String::from_str(name),
        namespace: String::from_str(namespace),
        owner: owner_ref(exposed_app),
        selector: pod_labels.clone(),
        service_type: exposed_app.spec.service_type.clone(),
        protocol: exposed_app.spec.protocol.clone(),
        node_port: exposed_app.spec.node_port,
        target_port: exposed_app.spec.container_port,
        port: exposed_app.spec.port,
    }
}

/// The condition that says that a child is ready.
pub open spec fn ready(
    type_: Seq<char>,
    message: Seq<char>,
    generation: i64,
    time: Seq<char>,
) -> ConditionView {
    ConditionView {
        last_transition_time: time,
        message,
        observed_generation: Some(generation),
        reason: "Provisioned"@,
        status: "True"@,
        type_,
    }
}

fn ready_condition(type_: &str, message: &str, generation: i64, time: &str) -> (r: Condition)
    ensures
        r@ == ready(type_@, message@, generation, time@),
{
    Condition {
        last_transition_time: String::from_str(time),
        message: String::from_str(message),
        observed_generation: Some(generation),
        reason: String::from_str("Provisioned"),
        status: String::from_str("True"),
        type_: String::from_str(type_),
    }
}

/// The status patch that sets nothing.
pub open spec fn no_status() -> ExposedAppStatusView {
    ExposedAppStatusView { deployment_name: None, service_name: None, conditions: None }
}

/// The event that reports a child.
pub open spec fn provisioned(what: Seq<char>, name: Seq<char>) -> EventPlanView {
    EventPlanView {
        reason: what + " provisioning requested"@,
        action: what + "Provisioned"@,
        note: Some(what + " "@ + name + " provisioned"@),
    }
}

fn provisioned_event(what: &str, name: &str) -> (r: EventPlan)
    ensures
        r.deep_view() == provisioned(what@, name@),
{
    let mut note = String::from_str(what);
    note.append(" ");
    note.append(name);
    note.append(" provisioned");
    EventPlan {
        reason: concat2(what, " provisioning requested"),
        action: concat2(what, "Provisioned"),
        note: Some(note),
    }
}

/// The conditions of the resource after the Deployment was reported ready.
pub open spec fn conditions_after_deployment(
    object: ExposedAppView,
    time: Seq<char>,
) -> Seq<ConditionView> {
    with_condition(
        object.conditions(),
        ready("DeploymentReady"@, "Deployment ready"@, object.metadata.generation->0, time),
    )
}

/// The conditions of the resource after the Service, too, was reported
/// ready.
pub open spec fn conditions_after_service(
    object: ExposedAppView,
    deployment_time: Seq<char>,
    service_time: Seq<char>,
) -> Seq<ConditionView> {
    with_condition(
        conditions_after_deployment(object, deployment_time),
        ready("ServiceReady"@, "Service ready"@, object.metadata.generation->0, service_time),
    )
}

/// The operations of one reconcile of `object`, in order: the Deployment is
/// saved, reported by an event, named in the status and reported ready at
/// `deployment_time`; then the same for the Service at `service_time`. The
/// children are named after the resource and their pods carry its name as
/// label.
pub open spec fn reconcile_steps(
    object: ExposedAppView,
    deployment_time: Seq<char>,
    service_time: Seq<char>,
) -> Seq<StepView> {
    let name = object.metadata.name->0;
    let namespace = object.metadata.namespace->0;
    let labels = Map::<Seq<char>, Seq<char>>::empty().insert(NAME_LABEL@, name);
    let deployment_name = name + "-deployment"@;
    let service_name = name + "-service"@;
    seq![
        StepView::SaveDeployment(deployment_plan(deployment_name, namespace, labels, object)),
        StepView::PublishEvent(provisioned("Deployment"@, deployment_name)),
        StepView::PatchStatus(
            ExposedAppStatusView { deployment_name: Some(deployment_name), ..no_status() },
        ),
        StepView::PatchStatus(
            ExposedAppStatusView {
                conditions: Some(conditions_after_deployment(object, deployment_time)),
                ..no_status()
            },
        ),
        StepView::SaveService(service_plan(service_name, namespace, labels, object)),
        StepView::PublishEvent(provisioned("Service"@, service_name)),
        StepView::PatchStatus(
            ExposedAppStatusView { service_name: Some(service_name), ..no_status() },
        ),
        StepView::PatchStatus(
            ExposedAppStatusView {
                conditions: Some(
                    conditions_after_service(object, deployment_time, service_time),
                ),
                ..no_status()
            },
        ),
    ]
}

/// The operations of one reconcile of `object`, and what follows when all
/// of them succeeded: nothing until something changes. The times are those
/// at which the two children are reported ready, as text.
pub fn reconcile(object: &ExposedApp, deployment_time: &str, service_time: &str) -> (r: (
    Vec<Step>,
    Action,
))
    requires
        object@.complete(),
    ensures
        r.0.deep_view() == reconcile_steps(object@, deployment_time@, service_time@),
        r.1 == Action::AwaitChange,
{
    let name = clone_text(&object.metadata.name);
    let namespace = clone_text(&object.metadata.namespace);
    let generation = match object.metadata.generation {
        Some(g) => g,
        None => 0,
    };
    let pod_labels = Labels::single(NAME_LABEL, name.as_str());
    let deployment_name = concat2(name.as_str(), "-deployment");
    let service_name = concat2(name.as_str(), "-service");
    let conditions = object.conditions();
    let after_deployment = set_condition(
        &conditions,
        ready_condition("DeploymentReady", "Deployment ready", generation, deployment_time),
    );
    let after_service = set_condition(
        &after_deployment,
        ready_condition("ServiceReady", "Service ready", generation, service_time),
    );
    let mut steps: Vec<Step> = Vec::new();
    steps.push(
        Step::SaveDeployment(
            deployment(deployment_name.as_str(), namespace.as_str(), &pod_labels, object),
        ),
    );
    steps.push(Step::PublishEvent(provisioned_event("Deployment", deployment_name.as_str())));
    let mut status = ExposedAppStatus::default();
    status.deployment_name = Some(deployment_name);
    steps.push(Step::PatchStatus(status));
    let mut status = ExposedAppStatus::default();
    status.conditions = Some(after_deployment);
    steps.push(Step::PatchStatus(status));
    steps.push(
        Step::SaveService(service(service_name.as_str(), namespace.as_str(), &pod_labels, object)),
    );
    steps.push(Step::PublishEvent(provisioned_event("Service", service_name.as_str())));
    let mut status = ExposedAppStatus::default();
    status.service_name = Some(service_name);
    steps.push(Step::PatchStatus(status));
    let mut status = ExposedAppStatus::default();
    status.conditions = Some(after_service);
    steps.push(Step::PatchStatus(status));
    assert(steps.deep_view() =~= reconcile_steps(object@, deployment_time@, service_time@));
    (steps, Action::AwaitChange)
}

} // verus!
