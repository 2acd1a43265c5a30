//! The Kubernetes objects that the operator reads and writes, as plain data.
//!
//! Each type has a view that holds the same fields as mathematical values:
//! strings as sequences of characters, lists as sequences, label maps as maps.
//! The contracts of the other modules speak of these views.

use vstd::prelude::*;
use crate::labels::Labels;
use crate::text::str_eq;

verus! {

broadcast use crate::labels::Labels::lemma_view_is_deep_view;

/// A reference from an owned object to the object that owns it.
#[derive(Debug)]
pub struct OwnerReference {
    pub api_version: String,
    pub kind: String,
    pub name: String,
    pub uid: String,
    pub block_owner_deletion: bool,
    pub controller: bool,
}

/// What an [`OwnerReference`] holds.
pub struct OwnerReferenceView {
    pub api_version: Seq<char>,
    pub kind: Seq<char>,
    pub name: Seq<char>,
    pub uid: Seq<char>,
    pub block_owner_deletion: bool,
    pub controller: bool,
}

impl DeepView for OwnerReference {
    type V = OwnerReferenceView;

    open spec fn deep_view(&self) -> OwnerReferenceView {
        OwnerReferenceView {
            api_version: self.api_version.deep_view(),
            kind: self.kind.deep_view(),
            name: self.name.deep_view(),
            uid: self.uid.deep_view(),
            block_owner_deletion: self.block_owner_deletion,
            controller: self.controller,
        }
    }
}

impl View for OwnerReference {
    type V = OwnerReferenceView;

    open spec fn view(&self) -> OwnerReferenceView {
        self.deep_view()
    }
}

impl Clone for OwnerReference {
    fn clone(&self) -> (r: Self)
        ensures
            r@ == self@,
    {
        OwnerReference {
            api_version: self.api_version.clone(),
            kind: self.kind.clone(),
            name: self.name.clone(),
            uid: self.uid.clone(),
            block_owner_deletion: self.block_owner_deletion,
            controller: self.controller,
        }
    }
}

/// A reference to an object, as events carry it.
#[derive(Debug)]
pub struct ObjectReference {
    pub api_version: String,
    pub kind: String,
    pub name: String,
    pub namespace: String,
    pub uid: String,
}

/// What an [`ObjectReference`] holds.
pub struct ObjectReferenceView {
    pub api_version: Seq<char>,
    pub kind: Seq<char>,
    pub name: Seq<char>,
    pub namespace: Seq<char>,
    pub uid: Seq<char>,
}

impl DeepView for ObjectReference {
    type V = ObjectReferenceView;

    open spec fn deep_view(&self) -> ObjectReferenceView {
        ObjectReferenceView {
            api_version: self.api_version.deep_view(),
            kind: self.kind.deep_view(),
            name: self.name.deep_view(),
            namespace: self.namespace.deep_view(),
            uid: self.uid.deep_view(),
        }
    }
}

impl View for ObjectReference {
    type V = ObjectReferenceView;

    open spec fn view(&self) -> ObjectReferenceView {
        self.deep_view()
    }
}

impl Clone for ObjectReference {
    fn clone(&self) -> (r: Self)
        ensures
            r@ == self@,
    {
        ObjectReference {
            api_version: self.api_version.clone(),
            kind: self.kind.clone(),
            name: self.name.clone(),
            namespace: self.namespace.clone(),
            uid: self.uid.clone(),
        }
    }
}

/// The type of an event.
#[derive(Clone, Copy, PartialEq, Eq, Structural, Debug)]
pub enum EventType {
    Normal,
    Warning,
}

impl DeepView for EventType {
    type V = EventType;

    open spec fn deep_view(&self) -> EventType {
        *self
    }
}

impl View for EventType {
    type V = EventType;

    open spec fn view(&self) -> EventType {
        *self
    }
}

/// An event of the `events.k8s.io/v1` group.
#[derive(Debug)]
pub struct Event {
    pub event_time: String,
    pub action: String,
    pub note: Option<String>,
    pub reason: String,
    pub regarding: Option<ObjectReference>,
    pub related: Option<ObjectReference>,
    pub reporting_controller: String,
    pub reporting_instance: String,
    pub event_type: EventType,
}

/// What an [`Event`] holds.
pub struct EventView {
    pub event_time: Seq<char>,
    pub action: Seq<char>,
    pub note: Option<Seq<char>>,
    pub reason: Seq<char>,
    pub regarding: Option<ObjectReferenceView>,
    pub related: Option<ObjectReferenceView>,
    pub reporting_controller: Seq<char>,
    pub reporting_instance: Seq<char>,
    pub event_type: EventType,
}

impl DeepView for Event {
    type V = EventView;

    open spec fn deep_view(&self) -> EventView {
        EventView {
            event_time: self.event_time.deep_view(),
            action: self.action.deep_view(),
            note: self.note.deep_view(),
            reason: self.reason.deep_view(),
            regarding: self.regarding.deep_view(),
            related: self.related.deep_view(),
            reporting_controller: self.reporting_controller.deep_view(),
            reporting_instance: self.reporting_instance.deep_view(),
            event_type: self.event_type,
        }
    }
}

impl View for Event {
    type V = EventView;

    open spec fn view(&self) -> EventView {
        self.deep_view()
    }
}

impl Clone for Event {
    fn clone(&self) -> (r: Self)
        ensures
            r@ == self@,
    {
        Event {
            event_time: self.event_time.clone(),
            action: self.action.clone(),
            note: self.note.clone(),
            reason: self.reason.clone(),
            regarding: self.regarding.clone(),
            related: self.related.clone(),
            reporting_controller: self.reporting_controller.clone(),
            reporting_instance: self.reporting_instance.clone(),
            event_type: self.event_type,
        }
    }
}

/// The manager named by a managed-fields entry.
#[derive(Debug)]
pub struct ManageFields {
    pub manager: String,
}

/// What a [`ManageFields`] holds.
pub struct ManageFieldsView {
    pub manager: Seq<char>,
}

impl DeepView for ManageFields {
    type V = ManageFieldsView;

    open spec fn deep_view(&self) -> ManageFieldsView {
        ManageFieldsView {
            manager: self.manager.deep_view(),
        }
    }
}

impl View for ManageFields {
    type V = ManageFieldsView;

    open spec fn view(&self) -> ManageFieldsView {
        self.deep_view()
    }
}

impl Clone for ManageFields {
    fn clone(&self) -> (r: Self)
        ensures
            r@ == self@,
    {
        ManageFields {
            manager: self.manager.clone(),
        }
    }
}

/// The metadata that every object carries.
#[derive(Debug)]
pub struct Metadata {
    pub labels: Option<Labels>,
    pub annotations: Option<Labels>,
    pub resource_version: Option<String>,
    pub finalizers: Option<Vec<String>>,
    pub deletion_timestamp: Option<String>,
    pub name: Option<String>,
    pub uid: Option<String>,
    pub namespace: Option<String>,
    pub owner_references: Option<Vec<OwnerReference>>,
    pub generation: Option<u64>,
}

/// What a [`Metadata`] holds.
pub struct MetadataView {
    pub labels: Option<Map<Seq<char>, Seq<char>>>,
    pub annotations: Option<Map<Seq<char>, Seq<char>>>,
    pub resource_version: Option<Seq<char>>,
    pub finalizers: Option<Seq<Seq<char>>>,
    pub deletion_timestamp: Option<Seq<char>>,
    pub name: Option<Seq<char>>,
    pub uid: Option<Seq<char>>,
    pub namespace: Option<Seq<char>>,
    pub owner_references: Option<Seq<OwnerReferenceView>>,
    pub generation: Option<u64>,
}

impl DeepView for Metadata {
    type V = MetadataView;

    open spec fn deep_view(&self) -> MetadataView {
        MetadataView {
            labels: self.labels.deep_view(),
            annotations: self.annotations.deep_view(),
            resource_version: self.resource_version.deep_view(),
            finalizers: self.finalizers.deep_view(),
            deletion_timestamp: self.deletion_timestamp.deep_view(),
            name: self.name.deep_view(),
            uid: self.uid.deep_view(),
            namespace: self.namespace.deep_view(),
            owner_references: self.owner_references.deep_view(),
            generation: self.generation,
        }
    }
}

impl View for Metadata {
    type V = MetadataView;

    open spec fn view(&self) -> MetadataView {
        self.deep_view()
    }
}

impl Clone for Metadata {
    fn clone(&self) -> (r: Self)
        ensures
            r@ == self@,
    {
        Metadata {
            labels: self.labels.clone(),
            annotations: self.annotations.clone(),
            resource_version: self.resource_version.clone(),
            finalizers: self.finalizers.clone(),
            deletion_timestamp: self.deletion_timestamp.clone(),
            name: self.name.clone(),
            uid: self.uid.clone(),
            namespace: self.namespace.clone(),
            owner_references: self.owner_references.clone(),
            generation: self.generation,
        }
    }
}

/// What a watch event reports of its object.
#[derive(Clone, Copy, PartialEq, Eq, Structural, Debug)]
pub enum WatchEventType {
    Added,
    Modified,
    Deleted,
}

impl DeepView for WatchEventType {
    type V = WatchEventType;

    open spec fn deep_view(&self) -> WatchEventType {
        *self
    }
}

impl View for WatchEventType {
    type V = WatchEventType;

    open spec fn view(&self) -> WatchEventType {
        *self
    }
}

/// What the user asks of an `ExposedApp`.
#[derive(Debug)]
pub struct ExposedAppSpec {
    pub replicas: u32,
    pub container_port: u32,
    pub image: String,
    pub port: u32,
    pub protocol: String,
    pub node_port: Option<u32>,
    pub service_type: Option<String>,
}

/// What an [`ExposedAppSpec`] holds.
pub struct ExposedAppSpecView {
    pub replicas: u32,
    pub container_port: u32,
    pub image: Seq<char>,
    pub port: u32,
    pub protocol: Seq<char>,
    pub node_port: Option<u32>,
    pub service_type: Option<Seq<char>>,
}

impl DeepView for ExposedAppSpec {
    type V = ExposedAppSpecView;

    open spec fn deep_view(&self) -> ExposedAppSpecView {
        ExposedAppSpecView {
            replicas: self.replicas,
            container_port: self.container_port,
            image: self.image.deep_view(),
            port: self.port,
            protocol: self.protocol.deep_view(),
            node_port: self.node_port,
            service_type: self.service_type.deep_view(),
        }
    }
}

impl View for ExposedAppSpec {
    type V = ExposedAppSpecView;

    open spec fn view(&self) -> ExposedAppSpecView {
        self.deep_view()
    }
}

impl Clone for ExposedAppSpec {
    fn clone(&self) -> (r: Self)
        ensures
            r@ == self@,
    {
        ExposedAppSpec {
            replicas: self.replicas,
            container_port: self.container_port,
            image: self.image.clone(),
            port: self.port,
            protocol: self.protocol.clone(),
            node_port: self.node_port,
            service_type: self.service_type.clone(),
        }
    }
}

/// An object with its type header and metadata; `object` holds the part that is specific to the kind.
#[derive(Debug)]
pub struct K8sObject<T> {
    pub api_version: String,
    pub kind: String,
    pub metadata: Metadata,
    pub object: T,
}

/// What a [`K8sObject`] holds.
pub struct K8sObjectView<T> {
    pub api_version: Seq<char>,
    pub kind: Seq<char>,
    pub metadata: MetadataView,
    pub object: T,
}

impl<T: DeepView> DeepView for K8sObject<T> {
    type V = K8sObjectView<T::V>;

    open spec fn deep_view(&self) -> K8sObjectView<T::V> {
        K8sObjectView {
            api_version: self.api_version.deep_view(),
            kind: self.kind.deep_view(),
            metadata: self.metadata.deep_view(),
            object: self.object.deep_view(),
        }
    }
}

impl<T: DeepView> View for K8sObject<T> {
    type V = K8sObjectView<T::V>;

    open spec fn view(&self) -> K8sObjectView<T::V> {
        self.deep_view()
    }
}

impl<T: Clone + DeepView> Clone for K8sObject<T> {
    fn clone(&self) -> (r: Self)
        ensures
            r@.api_version == self@.api_version,
            r@.kind == self@.kind,
            r@.metadata == self@.metadata,
            cloned::<T>(self.object, r.object),
    {
        K8sObject {
            api_version: self.api_version.clone(),
            kind: self.kind.clone(),
            metadata: self.metadata.clone(),
            object: self.object.clone(),
        }
    }
}

/// An object as a list or a watch delivers it: metadata and the kind-specific part, without a type header.
#[derive(Debug)]
pub struct K8sListObject<T> {
    pub metadata: Metadata,
    pub object: T,
}

/// What a [`K8sListObject`] holds.
pub struct K8sListObjectView<T> {
    pub metadata: MetadataView,
    pub object: T,
}

impl<T: DeepView> DeepView for K8sListObject<T> {
    type V = K8sListObjectView<T::V>;

    open spec fn deep_view(&self) -> K8sListObjectView<T::V> {
        K8sListObjectView {
            metadata: self.metadata.deep_view(),
            object: self.object.deep_view(),
        }
    }
}

impl<T: DeepView> View for K8sListObject<T> {
    type V = K8sListObjectView<T::V>;

    open spec fn view(&self) -> K8sListObjectView<T::V> {
        self.deep_view()
    }
}

impl<T: Clone + DeepView> Clone for K8sListObject<T> {
    fn clone(&self) -> (r: Self)
        ensures
            r@.metadata == self@.metadata,
            cloned::<T>(self.object, r.object),
    {
        K8sListObject {
            metadata: self.metadata.clone(),
            object: self.object.clone(),
        }
    }
}

/// What the operator reports on an `ExposedApp`: the names of its two children.
#[derive(Debug)]
pub struct ExposedAppStatus {
    pub deployment_name: String,
    pub service_name: String,
}

/// What an [`ExposedAppStatus`] holds.
pub struct ExposedAppStatusView {
    pub deployment_name: Seq<char>,
    pub service_name: Seq<char>,
}

impl DeepView for ExposedAppStatus {
    type V = ExposedAppStatusView;

    open spec fn deep_view(&self) -> ExposedAppStatusView {
        ExposedAppStatusView {
            deployment_name: self.deployment_name.deep_view(),
            service_name: self.service_name.deep_view(),
        }
    }
}

impl View for ExposedAppStatus {
    type V = ExposedAppStatusView;

    open spec fn view(&self) -> ExposedAppStatusView {
        self.deep_view()
    }
}

impl Clone for ExposedAppStatus {
    fn clone(&self) -> (r: Self)
        ensures
            r@ == self@,
    {
        ExposedAppStatus {
            deployment_name: self.deployment_name.clone(),
            service_name: self.service_name.clone(),
        }
    }
}

/// The `ExposedApp` custom resource.
#[derive(Debug)]
pub struct ExposedApp {
    pub spec: ExposedAppSpec,
    pub status: Option<ExposedAppStatus>,
}

/// What an [`ExposedApp`] holds.
pub struct ExposedAppView {
    pub spec: ExposedAppSpecView,
    pub status: Option<ExposedAppStatusView>,
}

impl DeepView for ExposedApp {
    type V = ExposedAppView;

    open spec fn deep_view(&self) -> ExposedAppView {
        ExposedAppView {
            spec: self.spec.deep_view(),
            status: self.status.deep_view(),
        }
    }
}

impl View for ExposedApp {
    type V = ExposedAppView;

    open spec fn view(&self) -> ExposedAppView {
        self.deep_view()
    }
}

impl Clone for ExposedApp {
    fn clone(&self) -> (r: Self)
        ensures
            r@ == self@,
    {
        ExposedApp {
            spec: self.spec.clone(),
            status: self.status.clone(),
        }
    }
}

/// One event of a watch stream.
#[derive(Debug)]
pub struct Watch<T> {
    pub event_type: WatchEventType,
    pub object: T,
}

/// What a [`Watch`] holds.
pub struct WatchView<T> {
    pub event_type: WatchEventType,
    pub object: T,
}

impl<T: DeepView> DeepView for Watch<T> {
    type V = WatchView<T::V>;

    open spec fn deep_view(&self) -> WatchView<T::V> {
        WatchView {
            event_type: self.event_type,
            object: self.object.deep_view(),
        }
    }
}

impl<T: DeepView> View for Watch<T> {
    type V = WatchView<T::V>;

    open spec fn view(&self) -> WatchView<T::V> {
        self.deep_view()
    }
}

impl<T: Clone + DeepView> Clone for Watch<T> {
    fn clone(&self) -> (r: Self)
        ensures
            r@.event_type == self@.event_type,
            cloned::<T>(self.object, r.object),
    {
        Watch {
            event_type: self.event_type,
            object: self.object.clone(),
        }
    }
}

/// A list response: the items and the metadata of the collection.
#[derive(Debug)]
pub struct List<T> {
    pub items: Vec<T>,
    pub metadata: Metadata,
}

/// What a [`List`] holds.
pub struct ListView<T> {
    pub items: Seq<T>,
    pub metadata: MetadataView,
}

impl<T: DeepView> DeepView for List<T> {
    type V = ListView<T::V>;

    open spec fn deep_view(&self) -> ListView<T::V> {
        ListView {
            items: self.items.deep_view(),
            metadata: self.metadata.deep_view(),
        }
    }
}

impl<T: DeepView> View for List<T> {
    type V = ListView<T::V>;

    open spec fn view(&self) -> ListView<T::V> {
        self.deep_view()
    }
}

impl<T: Clone + DeepView> Clone for List<T> {
    fn clone(&self) -> (r: Self)
        ensures
            r@.metadata == self@.metadata,
            r.items.len() == self.items.len(),
            forall|i: int| 0 <= i < self.items.len() ==> cloned::<T>(#[trigger] self.items[i], r.items[i]),
    {
        List {
            items: self.items.clone(),
            metadata: self.metadata.clone(),
        }
    }
}

/// A Deployment.
#[derive(Debug)]
pub struct Deployment {
    pub spec: DeploymentSpec,
}

/// What a [`Deployment`] holds.
pub struct DeploymentView {
    pub spec: DeploymentSpecView,
}

impl DeepView for Deployment {
    type V = DeploymentView;

    open spec fn deep_view(&self) -> DeploymentView {
        DeploymentView {
            spec: self.spec.deep_view(),
        }
    }
}

impl View for Deployment {
    type V = DeploymentView;

    open spec fn view(&self) -> DeploymentView {
        self.deep_view()
    }
}

impl Clone for Deployment {
    fn clone(&self) -> (r: Self)
        ensures
            r@ == self@,
    {
        Deployment {
            spec: self.spec.clone(),
        }
    }
}

/// The specification of a Deployment.
#[derive(Debug)]
pub struct DeploymentSpec {
    pub replicas: u32,
    pub template: PodTemplate,
    pub selector: Selector,
}

/// What a [`DeploymentSpec`] holds.
pub struct DeploymentSpecView {
    pub replicas: u32,
    pub template: PodTemplateView,
    pub selector: SelectorView,
}

impl DeepView for DeploymentSpec {
    type V = DeploymentSpecView;

    open spec fn deep_view(&self) -> DeploymentSpecView {
        DeploymentSpecView {
            replicas: self.replicas,
            template: self.template.deep_view(),
            selector: self.selector.deep_view(),
        }
    }
}

impl View for DeploymentSpec {
    type V = DeploymentSpecView;

    open spec fn view(&self) -> DeploymentSpecView {
        self.deep_view()
    }
}

impl Clone for DeploymentSpec {
    fn clone(&self) -> (r: Self)
        ensures
            r@ == self@,
    {
        DeploymentSpec {
            replicas: self.replicas,
            template: self.template.clone(),
            selector: self.selector.clone(),
        }
    }
}

/// A label selector.
#[derive(Debug)]
pub struct Selector {
    pub match_labels: Labels,
}

/// What a [`Selector`] holds.
pub struct SelectorView {
    pub match_labels: Map<Seq<char>, Seq<char>>,
}

impl DeepView for Selector {
    type V = SelectorView;

    open spec fn deep_view(&self) -> SelectorView {
        SelectorView {
            match_labels: self.match_labels.deep_view(),
        }
    }
}

impl View for Selector {
    type V = SelectorView;

    open spec fn view(&self) -> SelectorView {
        self.deep_view()
    }
}

impl Clone for Selector {
    fn clone(&self) -> (r: Self)
        ensures
            r@ == self@,
    {
        Selector {
            match_labels: self.match_labels.clone(),
        }
    }
}

/// The template of the pods of a Deployment.
#[derive(Debug)]
pub struct PodTemplate {
    pub metadata: Metadata,
    pub spec: PodSpec,
}

/// What a [`PodTemplate`] holds.
pub struct PodTemplateView {
    pub metadata: MetadataView,
    pub spec: PodSpecView,
}

impl DeepView for PodTemplate {
    type V = PodTemplateView;

    open spec fn deep_view(&self) -> PodTemplateView {
        PodTemplateView {
            metadata: self.metadata.deep_view(),
            spec: self.spec.deep_view(),
        }
    }
}

impl View for PodTemplate {
    type V = PodTemplateView;

    open spec fn view(&self) -> PodTemplateView {
        self.deep_view()
    }
}

impl Clone for PodTemplate {
    fn clone(&self) -> (r: Self)
        ensures
            r@ == self@,
    {
        PodTemplate {
            metadata: self.metadata.clone(),
            spec: self.spec.clone(),
        }
    }
}

/// The specification of a pod.
#[derive(Debug)]
pub struct PodSpec {
    pub containers: Vec<Container>,
}

/// What a [`PodSpec`] holds.
pub struct PodSpecView {
    pub containers: Seq<ContainerView>,
}

impl DeepView for PodSpec {
    type V = PodSpecView;

    open spec fn deep_view(&self) -> PodSpecView {
        PodSpecView {
            containers: self.containers.deep_view(),
        }
    }
}

impl View for PodSpec {
    type V = PodSpecView;

    open spec fn view(&self) -> PodSpecView {
        self.deep_view()
    }
}

impl Clone for PodSpec {
    fn clone(&self) -> (r: Self)
        ensures
            r@ == self@,
    {
        PodSpec {
            containers: self.containers.clone(),
        }
    }
}

/// A port that a container listens on.
#[derive(Debug)]
pub struct ContainerPort {
    pub container_port: u32,
}

/// What a [`ContainerPort`] holds.
pub struct ContainerPortView {
    pub container_port: u32,
}

impl DeepView for ContainerPort {
    type V = ContainerPortView;

    open spec fn deep_view(&self) -> ContainerPortView {
        ContainerPortView {
            container_port: self.container_port,
        }
    }
}

impl View for ContainerPort {
    type V = ContainerPortView;

    open spec fn view(&self) -> ContainerPortView {
        self.deep_view()
    }
}

impl Clone for ContainerPort {
    fn clone(&self) -> (r: Self)
        ensures
            r@ == self@,
    {
        ContainerPort {
            container_port: self.container_port,
        }
    }
}

/// A container of a pod.
#[derive(Debug)]
pub struct Container {
    pub name: String,
    pub image: String,
    pub ports: Option<Vec<ContainerPort>>,
}

/// What a [`Container`] holds.
pub struct ContainerView {
    pub name: Seq<char>,
    pub image: Seq<char>,
    pub ports: Option<Seq<ContainerPortView>>,
}

impl DeepView for Container {
    type V = ContainerView;

    open spec fn deep_view(&self) -> ContainerView {
        ContainerView {
            name: self.name.deep_view(),
            image: self.image.deep_view(),
            ports: self.ports.deep_view(),
        }
    }
}

impl View for Container {
    type V = ContainerView;

    open spec fn view(&self) -> ContainerView {
        self.deep_view()
    }
}

impl Clone for Container {
    fn clone(&self) -> (r: Self)
        ensures
            r@ == self@,
    {
        Container {
            name: self.name.clone(),
            image: self.image.clone(),
            ports: self.ports.clone(),
        }
    }
}

/// A Service.
#[derive(Debug)]
pub struct Service {
    pub spec: ServiceSpec,
}

/// What a [`Service`] holds.
pub struct ServiceView {
    pub spec: ServiceSpecView,
}

impl DeepView for Service {
    type V = ServiceView;

    open spec fn deep_view(&self) -> ServiceView {
        ServiceView {
            spec: self.spec.deep_view(),
        }
    }
}

impl View for Service {
    type V = ServiceView;

    open spec fn view(&self) -> ServiceView {
        self.deep_view()
    }
}

impl Clone for Service {
    fn clone(&self) -> (r: Self)
        ensures
            r@ == self@,
    {
        Service {
            spec: self.spec.clone(),
        }
    }
}

/// The specification of a Service.
#[derive(Debug)]
pub struct ServiceSpec {
    pub service_type: Option<String>,
    pub selector: Option<Labels>,
    pub ports: Vec<ServicePort>,
}

/// What a [`ServiceSpec`] holds.
pub struct ServiceSpecView {
    pub service_type: Option<Seq<char>>,
    pub selector: Option<Map<Seq<char>, Seq<char>>>,
    pub ports: Seq<ServicePortView>,
}

impl DeepView for ServiceSpec {
    type V = ServiceSpecView;

    open spec fn deep_view(&self) -> ServiceSpecView {
        ServiceSpecView {
            service_type: self.service_type.deep_view(),
            selector: self.selector.deep_view(),
            ports: self.ports.deep_view(),
        }
    }
}

impl View for ServiceSpec {
    type V = ServiceSpecView;

    open spec fn view(&self) -> ServiceSpecView {
        self.deep_view()
    }
}

impl Clone for ServiceSpec {
    fn clone(&self) -> (r: Self)
        ensures
            r@ == self@,
    {
        ServiceSpec {
            service_type: self.service_type.clone(),
            selector: self.selector.clone(),
            ports: self.ports.clone(),
        }
    }
}

/// A port of a Service.
#[derive(Debug)]
pub struct ServicePort {
    pub protocol: String,
    pub port: u32,
    pub target_port: u32,
    pub node_port: Option<u32>,
}

/// What a [`ServicePort`] holds.
pub struct ServicePortView {
    pub protocol: Seq<char>,
    pub port: u32,
    pub target_port: u32,
    pub node_port: Option<u32>,
}

impl DeepView for ServicePort {
    type V = ServicePortView;

    open spec fn deep_view(&self) -> ServicePortView {
        ServicePortView {
            protocol: self.protocol.deep_view(),
            port: self.port,
            target_port: self.target_port,
            node_port: self.node_port,
        }
    }
}

impl View for ServicePort {
    type V = ServicePortView;

    open spec fn view(&self) -> ServicePortView {
        self.deep_view()
    }
}

impl Clone for ServicePort {
    fn clone(&self) -> (r: Self)
        ensures
            r@ == self@,
    {
        ServicePort {
            protocol: self.protocol.clone(),
            port: self.port,
            target_port: self.target_port,
            node_port: self.node_port,
        }
    }
}

/// The specification of a Lease.
#[derive(Debug)]
pub struct LeaseSpec {
    pub lease_duration_seconds: u32,
    pub holder_identity: Option<String>,
    pub acquire_time: Option<String>,
}

/// What a [`LeaseSpec`] holds.
pub struct LeaseSpecView {
    pub lease_duration_seconds: u32,
    pub holder_identity: Option<Seq<char>>,
    pub acquire_time: Option<Seq<char>>,
}

impl DeepView for LeaseSpec {
    type V = LeaseSpecView;

    open spec fn deep_view(&self) -> LeaseSpecView {
        LeaseSpecView {
            lease_duration_seconds: self.lease_duration_seconds,
            holder_identity: self.holder_identity.deep_view(),
            acquire_time: self.acquire_time.deep_view(),
        }
    }
}

impl View for LeaseSpec {
    type V = LeaseSpecView;

    open spec fn view(&self) -> LeaseSpecView {
        self.deep_view()
    }
}

impl Clone for LeaseSpec {
    fn clone(&self) -> (r: Self)
        ensures
            r@ == self@,
    {
        LeaseSpec {
            lease_duration_seconds: self.lease_duration_seconds,
            holder_identity: self.holder_identity.clone(),
            acquire_time: self.acquire_time.clone(),
        }
    }
}

/// A Lease of the coordination group.
#[derive(Debug)]
pub struct Lease {
    pub spec: LeaseSpec,
}

/// What a [`Lease`] holds.
pub struct LeaseView {
    pub spec: LeaseSpecView,
}

impl DeepView for Lease {
    type V = LeaseView;

    open spec fn deep_view(&self) -> LeaseView {
        LeaseView {
            spec: self.spec.deep_view(),
        }
    }
}

impl View for Lease {
    type V = LeaseView;

    open spec fn view(&self) -> LeaseView {
        self.deep_view()
    }
}

impl Clone for Lease {
    fn clone(&self) -> (r: Self)
        ensures
            r@ == self@,
    {
        Lease {
            spec: self.spec.clone(),
        }
    }
}

impl MetadataView {
    /// The metadata in which no field is set.
    pub open spec fn empty() -> MetadataView {
        MetadataView {
            labels: None,
            annotations: None,
            resource_version: None,
            finalizers: None,
            deletion_timestamp: None,
            name: None,
            uid: None,
            namespace: None,
            owner_references: None,
            generation: None,
        }
    }

    /// Name, namespace and uid are set: the object can be referred to.
    pub open spec fn identified(self) -> bool {
        self.name is Some && self.namespace is Some && self.uid is Some
    }

    /// Name, namespace and resource version are set: the object can be looked
    /// up in the version cache.
    pub open spec fn versioned(self) -> bool {
        self.name is Some && self.namespace is Some && self.resource_version is Some
    }
}

impl Default for Metadata {
    fn default() -> (r: Self)
        ensures
            r@ == MetadataView::empty(),
    {
        Metadata {
            labels: None,
            annotations: None,
            resource_version: None,
            finalizers: None,
            deletion_timestamp: None,
            name: None,
            uid: None,
            namespace: None,
            owner_references: None,
            generation: None,
        }
    }
}

impl Metadata {
    /// Whether name, namespace and uid are set.
    pub fn is_identified(&self) -> (r: bool)
        ensures
            r == self@.identified(),
    {
        self.name.is_some() && self.namespace.is_some() && self.uid.is_some()
    }

    /// Whether name, namespace and resource version are set.
    pub fn is_versioned(&self) -> (r: bool)
        ensures
            r == self@.versioned(),
    {
        self.name.is_some() && self.namespace.is_some() && self.resource_version.is_some()
    }
}

/// The largest number of a port.
pub const MAX_PORT: u32 = 65535;

/// Whether `port` is the number of a port: one of 1..=65535.
pub open spec fn is_port(port: u32) -> bool {
    1 <= port <= MAX_PORT
}

/// Whether `service_type` is one of the types of a Service.
pub open spec fn is_service_type(service_type: Seq<char>) -> bool {
    service_type == "ClusterIP"@ || service_type == "NodePort"@ || service_type
        == "LoadBalancer"@
}

impl ExposedAppSpecView {
    /// The spec is one that the resource admits: its ports are ports, its
    /// node port is one where it is set, and its service type is a type of
    /// Service where it is set. Any number of replicas is admitted, none
    /// included.
    pub open spec fn valid(self) -> bool {
        &&& is_port(self.port)
        &&& is_port(self.container_port)
        &&& self.node_port is Some ==> is_port(self.node_port->0)
        &&& self.service_type is Some ==> is_service_type(self.service_type->0)
    }
}

impl ExposedAppSpec {
    /// Whether the spec is one that the resource admits.
    pub fn is_valid(&self) -> (r: bool)
        ensures
            r == self@.valid(),
    {
        let ports = 1 <= self.port && self.port <= MAX_PORT && 1 <= self.container_port
            && self.container_port <= MAX_PORT;
        let node_port = match self.node_port {
            Some(p) => 1 <= p && p <= MAX_PORT,
            None => true,
        };
        let service_type = match &self.service_type {
            Some(t) => str_eq(t.as_str(), "ClusterIP") || str_eq(t.as_str(), "NodePort") || str_eq(
                t.as_str(),
                "LoadBalancer",
            ),
            None => true,
        };
        ports && node_port && service_type
    }
}

impl<T> K8sObjectView<T> {
    /// The reference to this object: its type header, name, namespace and uid.
    pub open spec fn reference(self) -> ObjectReferenceView
        recommends
            self.metadata.identified(),
    {
        ObjectReferenceView {
            api_version: self.api_version,
            kind: self.kind,
            name: self.metadata.name->0,
            namespace: self.metadata.namespace->0,
            uid: self.metadata.uid->0,
        }
    }
}

impl<T: DeepView> K8sObject<T> {
    /// The reference to this object. The object must carry a name, a
    /// namespace and a uid.
    pub fn object_reference(&self) -> (r: ObjectReference)
        requires
            self@.metadata.identified(),
        ensures
            r@ == self@.reference(),
    {
        ObjectReference {
            api_version: self.api_version.clone(),
            kind: self.kind.clone(),
            name: clone_text(&self.metadata.name),
            namespace: clone_text(&self.metadata.namespace),
            uid: clone_text(&self.metadata.uid),
        }
    }
}

/// A copy of the string that `field` holds.
pub fn clone_text(field: &Option<String>) -> (r: String)
    requires
        field is Some,
    ensures
        r@ == field->0@,
{
    match field {
        Some(s) => s.clone(),
        None => String::new(),
    }
}

/// Objects that carry metadata.
pub trait MetadataAware {
    /// The view of the metadata that the object carries.
    spec fn metadata_view(&self) -> MetadataView;

    /// A copy of the object's metadata.
    fn metadata(&self) -> (m: Metadata)
        ensures
            m@ == self.metadata_view(),
    ;
}

impl<T: DeepView> MetadataAware for K8sObject<T> {
    open spec fn metadata_view(&self) -> MetadataView {
        self@.metadata
    }

    fn metadata(&self) -> (m: Metadata) {
        self.metadata.clone()
    }
}

impl<T: DeepView> MetadataAware for K8sListObject<T> {
    open spec fn metadata_view(&self) -> MetadataView {
        self@.metadata
    }

    fn metadata(&self) -> (m: Metadata) {
        self.metadata.clone()
    }
}

} // verus!
