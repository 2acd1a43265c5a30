//! Leader election over a Lease: when the lease can be taken, and the
//! protocol of taking and renewing it as a state machine that is fed the
//! answers of the API.
//!
//! A renewal that is answered with a conflict ends the election: another
//! instance holds the lease, and this one resigns so that the process can
//! exit and be started again. Any other failure of a renewal is tried again
//! after the usual wait.

use vstd::prelude::*;
use crate::k8s_client::{K8sClientError, K8sClientErrorView};
use crate::k8s_types::{clone_text, K8sObject, K8sObjectView, Lease, LeaseSpec, LeaseView};
use crate::offset_date_time_parser;
use crate::offset_date_time_parser::{MicroTime, TimeError};

verus! {

/// The name of the lease.
pub const LEASE_NAME: &'static str = "no-library";

/// The namespace of the lease.
pub const LEASE_NAMESPACE: &'static str = "no-library";

/// The nanoseconds of a second.
pub const NANOS_PER_SECOND: i128 = 1_000_000_000;

/// A lease taken at `acquire_time` for `lease_duration_seconds` is free at
/// `now`: it was never taken, or `now` is later than the time it was taken
/// plus its duration.
pub open spec fn lease_free(
    acquire_time: Option<MicroTime>,
    lease_duration_seconds: u32,
    now: MicroTime,
) -> bool {
    match acquire_time {
        None => true,
        Some(t) => now.unix_nanos > t.unix_nanos + lease_duration_seconds * NANOS_PER_SECOND,
    }
}

/// Whether the lease `spec` is free at `now`, or the error where its time of
/// acquisition is no time.
pub open spec fn lease_free_by_text(spec: crate::k8s_types::LeaseSpecView, now: MicroTime) -> Result<
    bool,
    TimeError,
> {
    match spec.acquire_time {
        None => Ok(true),
        Some(text) => match offset_date_time_parser::parsed(text) {
            Ok(t) => Ok(lease_free(Some(t), spec.lease_duration_seconds, now)),
            Err(e) => Err(e),
        },
    }
}

/// A lease as the election reads it.
pub type LeaseObject = K8sObjectView<LeaseView>;

/// Where the election stands.
#[derive(Clone, Copy, PartialEq, Eq, Structural, Debug)]
pub enum ElectorStage {
    /// Not started.
    Idle,
    /// Candidate: the lease was asked for.
    AcquireGetting,
    /// Candidate: the patch that takes the lease was sent; `wait_secs` is
    /// the duration of the lease.
    AcquirePatching { wait_secs: u64 },
    /// Candidate: waiting before the next look at the lease.
    AcquireSleeping,
    /// The lease was taken: the leader signal is being fired.
    Signalling,
    /// Leader: the lease was asked for.
    RenewGetting,
    /// Leader: the patch that renews the lease was sent; `wait_secs` is half
    /// the duration of the lease.
    RenewPatching { wait_secs: u64 },
    /// Leader: waiting before the next renewal.
    RenewSleeping,
    /// The lease was lost to another holder.
    Resigned,
}

/// What happened since the last action.
#[derive(Debug)]
pub enum ElectorEvent {
    /// The answer to reading the lease.
    LeaseFetched(Result<K8sObject<Lease>, K8sClientError>),
    /// The answer to patching the lease.
    LeasePatched(Result<(), K8sClientError>),
    /// The leader signal was fired.
    Signalled,
    /// The wait is over.
    Slept,
}

/// What an [`ElectorEvent`] holds.
pub enum ElectorEventView {
    LeaseFetched(Result<LeaseObject, K8sClientErrorView>),
    LeasePatched(Result<(), K8sClientErrorView>),
    Signalled,
    Slept,
}

impl View for ElectorEvent {
    type V = ElectorEventView;

    open spec fn view(&self) -> ElectorEventView {
        match self {
            ElectorEvent::LeaseFetched(Ok(l)) => ElectorEventView::LeaseFetched(Ok(l@)),
            ElectorEvent::LeaseFetched(Err(e)) => ElectorEventView::LeaseFetched(Err(e@)),
            ElectorEvent::LeasePatched(Ok(_)) => ElectorEventView::LeasePatched(Ok(())),
            ElectorEvent::LeasePatched(Err(e)) => ElectorEventView::LeasePatched(Err(e@)),
            ElectorEvent::Signalled => ElectorEventView::Signalled,
            ElectorEvent::Slept => ElectorEventView::Slept,
        }
    }
}

/// What the election asks its caller to do next.
#[derive(Debug)]
pub enum ElectorAction {
    /// Read the lease and answer with [`ElectorEvent::LeaseFetched`].
    GetLease { namespace: String, name: String },
    /// Patch the lease, on condition that it is still at `resource_version`,
    /// and answer with [`ElectorEvent::LeasePatched`].
    PatchLease {
        namespace: String,
        name: String,
        resource_version: String,
        holder_identity: String,
        acquire_time: MicroTime,
    },
    /// Fire the leader signal and answer with [`ElectorEvent::Signalled`].
    SignalLeader,
    /// Wait and answer with [`ElectorEvent::Slept`].
    Sleep { secs: u64 },
    /// End the election: the lease belongs to another instance.
    Resign,
}

/// What an [`ElectorAction`] holds.
pub enum ElectorActionView {
    GetLease { namespace: Seq<char>, name: Seq<char> },
    PatchLease {
        namespace: Seq<char>,
        name: Seq<char>,
        resource_version: Seq<char>,
        holder_identity: Seq<char>,
        acquire_time: MicroTime,
    },
    SignalLeader,
    Sleep { secs: u64 },
    Resign,
}

impl View for ElectorAction {
    type V = ElectorActionView;

    open spec fn view(&self) -> ElectorActionView {
        match self {
            ElectorAction::GetLease { namespace, name } => ElectorActionView::GetLease {
                namespace: namespace@,
                name: name@,
            },
            ElectorAction::PatchLease {
                namespace,
                name,
                resource_version,
                holder_identity,
                acquire_time,
            } => ElectorActionView::PatchLease {
                namespace: namespace@,
                name: name@,
                resource_version: resource_version@,
                holder_identity: holder_identity@,
                acquire_time: *acquire_time,
            },
            ElectorAction::SignalLeader => ElectorActionView::SignalLeader,
            ElectorAction::Sleep { secs } => ElectorActionView::Sleep { secs: *secs },
            ElectorAction::Resign => ElectorActionView::Resign,
        }
    }
}

/// The request for the lease.
pub open spec fn get_lease() -> ElectorActionView {
    ElectorActionView::GetLease { namespace: LEASE_NAMESPACE@, name: LEASE_NAME@ }
}

/// The patch that makes `pod_id` the holder of `lease` as of `now`.
pub open spec fn patch_lease(pod_id: Seq<char>, lease: LeaseObject, now: MicroTime) -> ElectorActionView {
    ElectorActionView::PatchLease {
        namespace: LEASE_NAMESPACE@,
        name: LEASE_NAME@,
        resource_version: lease.metadata.resource_version->0,
        holder_identity: pod_id,
        acquire_time: now,
    }
}

/// The events that a stage takes: the answer to what was asked for in that
/// stage. A lease that was asked for was found, and it carries its resource
/// version.
pub open spec fn expects(stage: ElectorStage, event: ElectorEventView) -> bool {
    match (stage, event) {
        (ElectorStage::AcquireGetting, ElectorEventView::LeaseFetched(r)) => r is Ok
            && r->Ok_0.metadata.resource_version is Some,
        (ElectorStage::AcquirePatching { .. }, ElectorEventView::LeasePatched(_)) => true,
        (ElectorStage::AcquireSleeping, ElectorEventView::Slept) => true,
        (ElectorStage::Signalling, ElectorEventView::Signalled) => true,
        (ElectorStage::RenewGetting, ElectorEventView::LeaseFetched(r)) => r is Ok
            && r->Ok_0.metadata.resource_version is Some,
        (ElectorStage::RenewPatching { .. }, ElectorEventView::LeasePatched(_)) => true,
        (ElectorStage::RenewSleeping, ElectorEventView::Slept) => true,
        _ => false,
    }
}

/// The time of acquisition that a candidate reads in the event, where it
/// reads one, is a time.
pub open spec fn readable(stage: ElectorStage, event: ElectorEventView) -> bool {
    match (stage, event) {
        (ElectorStage::AcquireGetting, ElectorEventView::LeaseFetched(Ok(l))) => lease_free_by_text(
            l.object.spec,
            MicroTime { unix_nanos: 0 },
        ) is Ok,
        _ => true,
    }
}

/// One step of the election at the instant `now`: the next stage and the
/// next action.
///
/// A candidate looks at the lease. Where it is free it sends the patch that
/// takes it, and on success fires the leader signal and turns leader; where
/// it is held, or the patch fails, it waits for the duration of the lease
/// and looks again. A leader reads the lease, sends the patch that renews it
/// and waits for half the duration; a conflict on that patch ends the
/// election.
pub open spec fn next(
    pod_id: Seq<char>,
    stage: ElectorStage,
    event: ElectorEventView,
    now: MicroTime,
) -> (ElectorStage, ElectorActionView) {
    match (stage, event) {
        (ElectorStage::AcquireGetting, ElectorEventView::LeaseFetched(Ok(l))) => {
            let wait_secs = l.object.spec.lease_duration_seconds as u64;
            if lease_free_by_text(l.object.spec, now) == Ok::<bool, TimeError>(true) {
                (ElectorStage::AcquirePatching { wait_secs }, patch_lease(pod_id, l, now))
            } else {
                (ElectorStage::AcquireSleeping, ElectorActionView::Sleep { secs: wait_secs })
            }
        },
        (ElectorStage::AcquirePatching { wait_secs }, ElectorEventView::LeasePatched(Ok(_))) => (
            ElectorStage::Signalling,
            ElectorActionView::SignalLeader,
        ),
        (ElectorStage::AcquirePatching { wait_secs }, ElectorEventView::LeasePatched(Err(_))) => (
            ElectorStage::AcquireSleeping,
            ElectorActionView::Sleep { secs: wait_secs },
        ),
        (ElectorStage::AcquireSleeping, ElectorEventView::Slept) => (
            ElectorStage::AcquireGetting,
            get_lease(),
        ),
        (ElectorStage::Signalling, ElectorEventView::Signalled) => (
            ElectorStage::RenewGetting,
            get_lease(),
        ),
        (ElectorStage::RenewGetting, ElectorEventView::LeaseFetched(Ok(l))) => (
            ElectorStage::RenewPatching {
                wait_secs: (l.object.spec.lease_duration_seconds / 2) as u64,
            },
            patch_lease(pod_id, l, now),
        ),
        (
            ElectorStage::RenewPatching { wait_secs },
            ElectorEventView::LeasePatched(Err(K8sClientErrorView::Conflict)),
        ) => (ElectorStage::Resigned, ElectorActionView::Resign),
        (ElectorStage::RenewPatching { wait_secs }, ElectorEventView::LeasePatched(_)) => (
            ElectorStage::RenewSleeping,
            ElectorActionView::Sleep { secs: wait_secs },
        ),
        (ElectorStage::RenewSleeping, ElectorEventView::Slept) => (
            ElectorStage::RenewGetting,
            get_lease(),
        ),
        _ => (stage, ElectorActionView::Resign),
    }
}

/// The stage is one of a leader: the lease was taken and not lost.
pub open spec fn is_leader(stage: ElectorStage) -> bool {
    stage is Signalling || stage is RenewGetting || stage is RenewPatching
        || stage is RenewSleeping
}

/// The leader signal has fired: the instance took the lease at least once.
/// It stays so when the lease is lost.
pub open spec fn is_ready(stage: ElectorStage) -> bool {
    stage is RenewGetting || stage is RenewPatching || stage is RenewSleeping
        || stage is Resigned
}

/// The election of one instance of the operator.
#[derive(Debug)]
pub struct LeaderElector {
    pod_id: String,
    stage: ElectorStage,
}

/// What a [`LeaderElector`] holds.
pub struct LeaderElectorView {
    pub pod_id: Seq<char>,
    pub stage: ElectorStage,
}

impl View for LeaderElector {
    type V = LeaderElectorView;

    closed spec fn view(&self) -> LeaderElectorView {
        LeaderElectorView { pod_id: self.pod_id@, stage: self.stage }
    }
}

impl LeaderElector {
    /// An election for the instance `pod_id`, not yet started.
    pub fn new(pod_id: &str) -> (r: Self)
        ensures
            r@ == (LeaderElectorView { pod_id: pod_id@, stage: ElectorStage::Idle }),
    {
        LeaderElector { pod_id: String::from_str(pod_id), stage: ElectorStage::Idle }
    }

    /// Where the election stands.
    pub fn stage(&self) -> (r: ElectorStage)
        ensures
            r == self@.stage,
    {
        self.stage
    }

    /// Whether this instance holds the lease as far as it knows.
    pub fn is_leader(&self) -> (r: bool)
        ensures
            r == is_leader(self@.stage),
    {
        match self.stage {
            ElectorStage::Signalling => true,
            ElectorStage::RenewGetting => true,
            ElectorStage::RenewPatching { .. } => true,
            ElectorStage::RenewSleeping => true,
            _ => false,
        }
    }

    /// Whether the leader signal has fired at least once.
    pub fn is_ready(&self) -> (r: bool)
        ensures
            r == is_ready(self@.stage),
    {
        match self.stage {
            ElectorStage::RenewGetting => true,
            ElectorStage::RenewPatching { .. } => true,
            ElectorStage::RenewSleeping => true,
            ElectorStage::Resigned => true,
            _ => false,
        }
    }

    fn get_lease() -> (r: ElectorAction)
        ensures
            r@ == get_lease(),
    {
        ElectorAction::GetLease {
            namespace: String::from_str(LEASE_NAMESPACE),
            name: String::from_str(LEASE_NAME),
        }
    }

    fn patch_lease(&self, lease: &K8sObject<Lease>, now: MicroTime) -> (r: ElectorAction)
        requires
            lease@.metadata.resource_version is Some,
        ensures
            r@ == patch_lease(self@.pod_id, lease@, now),
    {
        ElectorAction::PatchLease {
            namespace: String::from_str(LEASE_NAMESPACE),
            name: String::from_str(LEASE_NAME),
            resource_version: clone_text(&lease.metadata.resource_version),
            holder_identity: self.pod_id.clone(),
            acquire_time: now,
        }
    }

    /// Whether a lease taken at `acquire_time` for `lease_duration_seconds`
    /// can be taken at `now`.
    pub fn can_acquire_at(
        acquire_time: Option<MicroTime>,
        lease_duration_seconds: u32,
        now: MicroTime,
    ) -> (r: bool)
        ensures
            r == lease_free(acquire_time, lease_duration_seconds, now),
            r <==> (acquire_time is None || now.unix_nanos > acquire_time->0.unix_nanos
                + lease_duration_seconds * NANOS_PER_SECOND),
    {
        match acquire_time {
            None => true,
            Some(t) => {
                let span: i128 = (lease_duration_seconds as i128) * NANOS_PER_SECOND;
                if t.unix_nanos > i128::MAX - span {
                    false
                } else {
                    now.unix_nanos > t.unix_nanos + span
                }
            },
        }
    }

    /// Whether the lease `spec` can be taken at `now`; an error where its
    /// time of acquisition is set and is no time.
    pub fn can_acquire(spec: &LeaseSpec, now: MicroTime) -> (r: Result<bool, TimeError>)
        ensures
            r == lease_free_by_text(spec@, now),
    {
        match &spec.acquire_time {
            None => Ok(true),
            Some(text) => match offset_date_time_parser::parse(text.as_str()) {
                Ok(t) => Ok(Self::can_acquire_at(Some(t), spec.lease_duration_seconds, now)),
                Err(e) => Err(e),
            },
        }
    }

    /// Whether the election, as it stands, takes `event`.
    pub fn expects(&self, event: &ElectorEvent) -> (r: bool)
        ensures
            r == expects(self@.stage, event@),
    {
        match (self.stage, event) {
            (ElectorStage::AcquireGetting, ElectorEvent::LeaseFetched(r)) => match r {
                Ok(l) => l.metadata.resource_version.is_some(),
                Err(_) => false,
            },
            (ElectorStage::AcquirePatching { .. }, ElectorEvent::LeasePatched(_)) => true,
            (ElectorStage::AcquireSleeping, ElectorEvent::Slept) => true,
            (ElectorStage::Signalling, ElectorEvent::Signalled) => true,
            (ElectorStage::RenewGetting, ElectorEvent::LeaseFetched(r)) => match r {
                Ok(l) => l.metadata.resource_version.is_some(),
                Err(_) => false,
            },
            (ElectorStage::RenewPatching { .. }, ElectorEvent::LeasePatched(_)) => true,
            (ElectorStage::RenewSleeping, ElectorEvent::Slept) => true,
            _ => false,
        }
    }

    /// Starts the election: the instance is a candidate and the lease is to
    /// be read.
    pub fn elect_leader(&mut self) -> (r: ElectorAction)
        ensures
            final(self)@ == (LeaderElectorView {
                pod_id: old(self)@.pod_id,
                stage: ElectorStage::AcquireGetting,
            }),
            r@ == get_lease(),
    {
        self.stage = ElectorStage::AcquireGetting;
        Self::get_lease()
    }

    /// One step of a candidate that has read the lease.
    fn acquire_lease(&mut self, lease: &K8sObject<Lease>, now: MicroTime) -> (r: ElectorAction)
        requires
            old(self)@.stage is AcquireGetting,
            lease@.metadata.resource_version is Some,
            lease_free_by_text(lease@.object.spec, now) is Ok,
        ensures
            final(self)@.pod_id == old(self)@.pod_id,
            (final(self)@.stage, r@) == next(
                old(self)@.pod_id,
                old(self)@.stage,
                ElectorEventView::LeaseFetched(Ok(lease@)),
                now,
            ),
    {
        let wait_secs = lease.object.spec.lease_duration_seconds as u64;
        let free = match Self::can_acquire(&lease.object.spec, now) {
            Ok(free) => free,
            Err(_) => false,
        };
        if free {
            self.stage = ElectorStage::AcquirePatching { wait_secs };
            self.patch_lease(lease, now)
        } else {
            self.stage = ElectorStage::AcquireSleeping;
            ElectorAction::Sleep { secs: wait_secs }
        }
    }

    /// One step of a leader that has read the lease.
    fn refresh_lease(&mut self, lease: &K8sObject<Lease>, now: MicroTime) -> (r: ElectorAction)
        requires
            old(self)@.stage is RenewGetting,
            lease@.metadata.resource_version is Some,
        ensures
            final(self)@.pod_id == old(self)@.pod_id,
            (final(self)@.stage, r@) == next(
                old(self)@.pod_id,
                old(self)@.stage,
                ElectorEventView::LeaseFetched(Ok(lease@)),
                now,
            ),
    {
        let wait_secs = (lease.object.spec.lease_duration_seconds / 2) as u64;
        self.stage = ElectorStage::RenewPatching { wait_secs };
        self.patch_lease(lease, now)
    }

    /// One step of the election at the instant `now`: takes what happened
    /// since the last action and returns the next action.
    pub fn step_at(&mut self, event: ElectorEvent, now: MicroTime) -> (r: ElectorAction)
        requires
            expects(old(self)@.stage, event@),
            readable(old(self)@.stage, event@),
        ensures
            final(self)@.pod_id == old(self)@.pod_id,
            (final(self)@.stage, r@) == next(old(self)@.pod_id, old(self)@.stage, event@, now),
    {
        match (self.stage, event) {
            (ElectorStage::AcquireGetting, ElectorEvent::LeaseFetched(Ok(l))) => {
                self.acquire_lease(&l, now)
            },
            (ElectorStage::AcquirePatching { wait_secs }, ElectorEvent::LeasePatched(Ok(_))) => {
                self.stage = ElectorStage::Signalling;
                ElectorAction::SignalLeader
            },
            (ElectorStage::AcquirePatching { wait_secs }, ElectorEvent::LeasePatched(Err(_))) => {
                self.stage = ElectorStage::AcquireSleeping;
                ElectorAction::Sleep { secs: wait_secs }
            },
            (ElectorStage::AcquireSleeping, ElectorEvent::Slept) => {
                self.stage = ElectorStage::AcquireGetting;
                Self::get_lease()
            },
            (ElectorStage::Signalling, ElectorEvent::Signalled) => {
                self.stage = ElectorStage::RenewGetting;
                Self::get_lease()
            },
            (ElectorStage::RenewGetting, ElectorEvent::LeaseFetched(Ok(l))) => {
                self.refresh_lease(&l, now)
            },
            (
                ElectorStage::RenewPatching { wait_secs },
                ElectorEvent::LeasePatched(Err(K8sClientError::Conflict)),
            ) => {
                self.stage = ElectorStage::Resigned;
                ElectorAction::Resign
            },
            (ElectorStage::RenewPatching { wait_secs }, ElectorEvent::LeasePatched(_)) => {
                self.stage = ElectorStage::RenewSleeping;
                ElectorAction::Sleep { secs: wait_secs }
            },
            (ElectorStage::RenewSleeping, ElectorEvent::Slept) => {
                self.stage = ElectorStage::RenewGetting;
                Self::get_lease()
            },
            _ => ElectorAction::Resign,
        }
    }

    /// One step of the election at the instant that the clock shows. Where
    /// a candidate reads a lease whose time of acquisition is no time,
    /// nothing changes and `None` is returned.
    pub fn step(&mut self, event: ElectorEvent) -> (r: Option<ElectorAction>)
        requires
            expects(old(self)@.stage, event@),
        ensures
            final(self)@.pod_id == old(self)@.pod_id,
            match r {
                Some(action) => readable(old(self)@.stage, event@) && exists|now: MicroTime|
                    (final(self)@.stage, action@) == #[trigger] next(
                        old(self)@.pod_id,
                        old(self)@.stage,
                        event@,
                        now,
                    ),
                None => !readable(old(self)@.stage, event@) && final(self)@.stage == old(
                    self,
                )@.stage,
            },
    {
        let now = offset_date_time_parser::now_utc();
        let ok = match (self.stage, &event) {
            (ElectorStage::AcquireGetting, ElectorEvent::LeaseFetched(Ok(l))) => {
                Self::can_acquire(&l.object.spec, MicroTime { unix_nanos: 0 }).is_ok()
            },
            _ => true,
        };
        if ok {
            let ghost before = self@;
            let action = self.step_at(event, now);
            assert((self@.stage, action@) == next(before.pod_id, before.stage, event@, now));
            Some(action)
        } else {
            None
        }
    }
}

/// Whether a lease can be taken depends on its time of acquisition, its
/// duration and the present instant alone: it can be taken exactly when it
/// was never taken or the present is later than acquisition plus duration.
pub proof fn lemma_can_acquire(acquire_time: Option<MicroTime>, seconds: u32, now: MicroTime)
    ensures
        lease_free(acquire_time, seconds, now) <==> (acquire_time is None || now.unix_nanos
            > acquire_time->0.unix_nanos + seconds * NANOS_PER_SECOND),
        acquire_time is Some && now.unix_nanos <= acquire_time->0.unix_nanos ==> !lease_free(
            acquire_time,
            seconds,
            now,
        ),
{
}

/// A candidate sends the patch that takes the lease exactly when the lease
/// is free, and turns leader only on the success of that patch.
pub proof fn lemma_leader_only_by_patch(
    pod_id: Seq<char>,
    stage: ElectorStage,
    event: ElectorEventView,
    now: MicroTime,
)
    requires
        expects(stage, event),
        !is_leader(stage),
        is_leader(next(pod_id, stage, event, now).0),
    ensures
        stage is AcquirePatching,
        event matches ElectorEventView::LeasePatched(Ok(_)),
        next(pod_id, stage, event, now).1 == ElectorActionView::SignalLeader,
{
}

/// An instance is ready from the moment its leader signal has fired, and
/// from no other moment; once ready it stays ready.
pub proof fn lemma_ready_once_signalled(
    pod_id: Seq<char>,
    stage: ElectorStage,
    event: ElectorEventView,
    now: MicroTime,
)
    requires
        expects(stage, event),
    ensures
        is_ready(next(pod_id, stage, event, now).0) <==> (is_ready(stage) || (stage is Signalling
            && event is Signalled)),
        next(pod_id, stage, event, now).1 is SignalLeader ==> !is_ready(stage),
{
}

/// A candidate that reads the lease asks to patch it exactly when the lease
/// is free at that instant.
pub proof fn lemma_patch_iff_free(pod_id: Seq<char>, lease: LeaseObject, now: MicroTime)
    ensures
        next(
            pod_id,
            ElectorStage::AcquireGetting,
            ElectorEventView::LeaseFetched(Ok(lease)),
            now,
        ).1 is PatchLease <==> lease_free_by_text(lease.object.spec, now) == Ok::<
            bool,
            TimeError,
        >(true),
{
}

/// A leader whose renewal meets a conflict resigns, and a leader resigns on
/// nothing else.
pub proof fn lemma_resign_iff_conflict(
    pod_id: Seq<char>,
    stage: ElectorStage,
    event: ElectorEventView,
    now: MicroTime,
)
    requires
        expects(stage, event),
    ensures
        next(pod_id, stage, event, now).1 is Resign <==> (stage is RenewPatching && event
            == ElectorEventView::LeasePatched(Err(K8sClientErrorView::Conflict))),
{
}

} // verus!
