//! The `ExposedApp` resource of the group `stable.kube-rs-o6r.com`, as the
//! controller of that group reads it.

use vstd::prelude::*;

verus! {

/// The API group of the resource.
pub const GROUP: &'static str = "stable.kube-rs-o6r.com";

/// The version of the resource.
pub const VERSION: &'static str = "v1";

/// The kind of the resource.
pub const KIND: &'static str = "ExposedApp";

/// Group and version as objects name them.
pub const API_VERSION: &'static str = "stable.kube-rs-o6r.com/v1";

/// What the user asks of an `ExposedApp`.
#[derive(Debug)]
pub struct ExposedAppSpec {
    pub image: String,
    pub replicas: i32,
    pub port: i32,
    pub protocol: String,
    pub container_port: i32,
    pub node_port: Option<i32>,
    pub service_type: Option<String>,
}

/// What an [`ExposedAppSpec`] holds.
pub struct ExposedAppSpecView {
    pub image: Seq<char>,
    pub replicas: i32,
    pub port: i32,
    pub protocol: Seq<char>,
    pub container_port: i32,
    pub node_port: Option<i32>,
    pub service_type: Option<Seq<char>>,
}

impl DeepView for ExposedAppSpec {
    type V = ExposedAppSpecView;

    open spec fn deep_view(&self) -> ExposedAppSpecView {
        ExposedAppSpecView {
            image: self.image.deep_view(),
            replicas: self.replicas,
            port: self.port,
            protocol: self.protocol.deep_view(),
            container_port: self.container_port,
            node_port: self.node_port,
            service_type: self.service_type.deep_view(),
        }
    }
}

impl View for ExposedAppSpec {
    type V = ExposedAppSpecView;

    open spec fn view(&self) -> ExposedAppSpecView {
        self.deep_view()
    }
}

impl Clone for ExposedAppSpec {
    fn clone(&self) -> (r: Self)
        ensures
            r@ == self@,
    {
        ExposedAppSpec {
            image: self.image.clone(),
            replicas: self.replicas,
            port: self.port,
            protocol: self.protocol.clone(),
            container_port: self.container_port,
            node_port: self.node_port,
            service_type: self.service_type.clone(),
        }
    }
}

/// One condition of the status of a resource.
#[derive(Debug)]
pub struct Condition {
    pub last_transition_time: String,
    pub message: String,
    pub observed_generation: Option<i64>,
    pub reason: String,
    pub status: String,
    pub type_: String,
}

/// What a [`Condition`] holds.
pub struct ConditionView {
    pub last_transition_time: Seq<char>,
    pub message: Seq<char>,
    pub observed_generation: Option<i64>,
    pub reason: Seq<char>,
    pub status: Seq<char>,
    pub type_: Seq<char>,
}

impl DeepView for Condition {
    type V = ConditionView;

    open spec fn deep_view(&self) -> ConditionView {
        ConditionView {
            last_transition_time: self.last_transition_time.deep_view(),
            message: self.message.deep_view(),
            observed_generation: self.observed_generation,
            reason: self.reason.deep_view(),
            status: self.status.deep_view(),
            type_: self.type_.deep_view(),
        }
    }
}

impl View for Condition {
    type V = ConditionView;

    open spec fn view(&self) -> ConditionView {
        self.deep_view()
    }
}

impl Clone for Condition {
    fn clone(&self) -> (r: Self)
        ensures
            r@ == self@,
    {
        Condition {
            last_transition_time: self.last_transition_time.clone(),
            message: self.message.clone(),
            observed_generation: self.observed_generation,
            reason: self.reason.clone(),
            status: self.status.clone(),
            type_: self.type_.clone(),
        }
    }
}

/// What the controller reports on an `ExposedApp`. A field that is `None`
/// is left out of a merge patch and so keeps its value on the server.
#[derive(Debug)]
pub struct ExposedAppStatus {
    pub deployment_name: Option<String>,
    pub service_name: Option<String>,
    pub conditions: Option<Vec<Condition>>,
}

/// What an [`ExposedAppStatus`] holds.
pub struct ExposedAppStatusView {
    pub deployment_name: Option<Seq<char>>,
    pub service_name: Option<Seq<char>>,
    pub conditions: Option<Seq<ConditionView>>,
}

impl DeepView for ExposedAppStatus {
    type V = ExposedAppStatusView;

    open spec fn deep_view(&self) -> ExposedAppStatusView {
        ExposedAppStatusView {
            deployment_name: self.deployment_name.deep_view(),
            service_name: self.service_name.deep_view(),
            conditions: self.conditions.deep_view(),
        }
    }
}

impl View for ExposedAppStatus {
    type V = ExposedAppStatusView;

    open spec fn view(&self) -> ExposedAppStatusView {
        self.deep_view()
    }
}

impl Clone for ExposedAppStatus {
    fn clone(&self) -> (r: Self)
        ensures
            r@ == self@,
    {
        ExposedAppStatus {
            deployment_name: self.deployment_name.clone(),
            service_name: self.service_name.clone(),
            conditions: self.conditions.clone(),
        }
    }
}

impl Default for ExposedAppStatus {
    fn default() -> (r: Self)
        ensures
            r@ == (ExposedAppStatusView {
                deployment_name: None,
                service_name: None,
                conditions: None,
            }),
    {
        ExposedAppStatus { deployment_name: None, service_name: None, conditions: None }
    }
}

/// The metadata that the controller reads of a resource.
#[derive(Debug)]
pub struct ObjectMeta {
    pub name: Option<String>,
    pub namespace: Option<String>,
    pub uid: Option<String>,
    pub generation: Option<i64>,
}

/// What an [`ObjectMeta`] holds.
pub struct ObjectMetaView {
    pub name: Option<Seq<char>>,
    pub namespace: Option<Seq<char>>,
    pub uid: Option<Seq<char>>,
    pub generation: Option<i64>,
}

impl DeepView for ObjectMeta {
    type V = ObjectMetaView;

    open spec fn deep_view(&self) -> ObjectMetaView {
        ObjectMetaView {
            name: self.name.deep_view(),
            namespace: self.namespace.deep_view(),
            uid: self.uid.deep_view(),
            generation: self.generation,
        }
    }
}

impl View for ObjectMeta {
    type V = ObjectMetaView;

    open spec fn view(&self) -> ObjectMetaView {
        self.deep_view()
    }
}

/// An `ExposedApp` as the controller gets it.
#[derive(Debug)]
pub struct ExposedApp {
    pub metadata: ObjectMeta,
    pub spec: ExposedAppSpec,
    pub status: Option<ExposedAppStatus>,
}

/// What an [`ExposedApp`] holds.
pub struct ExposedAppView {
    pub metadata: ObjectMetaView,
    pub spec: ExposedAppSpecView,
    pub status: Option<ExposedAppStatusView>,
}

impl DeepView for ExposedApp {
    type V = ExposedAppView;

    open spec fn deep_view(&self) -> ExposedAppView {
        ExposedAppView {
            metadata: self.metadata.deep_view(),
            spec: self.spec.deep_view(),
            status: self.status.deep_view(),
        }
    }
}

impl View for ExposedApp {
    type V = ExposedAppView;

    open spec fn view(&self) -> ExposedAppView {
        self.deep_view()
    }
}

impl ExposedAppView {
    /// The resource carries what a reconcile reads of its metadata: name,
    /// namespace, uid and generation.
    pub open spec fn complete(self) -> bool {
        &&& self.metadata.name is Some
        &&& self.metadata.namespace is Some
        &&& self.metadata.uid is Some
        &&& self.metadata.generation is Some
    }

    /// The conditions that the resource reports; none where it has no
    /// status or its status has no conditions.
    pub open spec fn conditions(self) -> Seq<ConditionView> {
        match self.status {
            Some(status) => match status.conditions {
                Some(conditions) => conditions,
                None => Seq::empty(),
            },
            None => Seq::empty(),
        }
    }
}

impl ExposedApp {
    /// Whether the resource carries name, namespace, uid and generation.
    pub fn is_complete(&self) -> (r: bool)
        ensures
            r == self@.complete(),
    {
        self.metadata.name.is_some() && self.metadata.namespace.is_some()
            && self.metadata.uid.is_some() && self.metadata.generation.is_some()
    }

    /// A copy of the conditions that the resource reports.
    pub fn conditions(&self) -> (r: Vec<Condition>)
        ensures
            r.deep_view() == self@.conditions(),
    {
        match &self.status {
            Some(status) => match &status.conditions {
                Some(conditions) => {
                    let r = conditions.clone();
                    assert(r.deep_view() =~= conditions.deep_view());
                    r
                },
                None => {
                    let r: Vec<Condition> = Vec::new();
                    assert(r.deep_view() =~= Seq::empty());
                    r
                },
            },
            None => {
                let r: Vec<Condition> = Vec::new();
                assert(r.deep_view() =~= Seq::empty());
                r
            },
        }
    }
}

} // verus!
