//! The watch loops and the reconcile queue: which events are redundant, which
//! parent an owned object belongs to, what each loop does next, and how long
//! a failed reconcile waits before it is tried again.

use vstd::prelude::*;
use crate::cache::{CacheEntryView, NamespacedName, NamespacedNameView, VersionCache};
use crate::k8s_client::{K8sClientError, K8sClientErrorView};
use crate::k8s_types::{
    clone_text, ExposedApp, ExposedAppView, K8sListObject, K8sObject, K8sObjectView, List,
    Metadata, MetadataAware, MetadataView, OwnerReference, OwnerReferenceView, Watch,
};
use crate::text::str_eq;

verus! {

/// The collection of all Deployments, relative to the server.
pub const ALL_DEPLOYMENTS_LIST: &'static str = "apis/apps/v1/deployments";

/// The collection of all Services, relative to the server.
pub const ALL_SERVICES_LIST: &'static str = "api/v1/services";

/// The capacity of the channel of reconcile requests.
pub const CHANNEL_CAPACITY: usize = 64;

/// The seconds that a watch loop waits before it starts over.
pub const RESTART_DELAY_SECS: u64 = 2;

/// How many requests the queue takes from the channel in one go.
pub const DRAIN_BATCH: u32 = 10;

/// The seconds that the queue rests when nothing waits in it.
pub const IDLE_DELAY_SECS: u64 = 1;

/// The delay of the first retry, in seconds.
pub const INITIAL_DELAY_SECS: u64 = 2;

/// The longest delay of a retry, in seconds.
pub const MAX_DELAY_SECS: u64 = 128;

/// A reconcile request in the queue: the key of the parent and the delay, in
/// seconds, with which it was put there.
#[derive(Debug)]
pub struct QueueEntry {
    pub entry: NamespacedName,
    pub delay: u64,
}

/// What a [`QueueEntry`] holds.
pub struct QueueEntryView {
    pub entry: NamespacedNameView,
    pub delay: u64,
}

impl DeepView for QueueEntry {
    type V = QueueEntryView;

    open spec fn deep_view(&self) -> QueueEntryView {
        QueueEntryView { entry: self.entry@, delay: self.delay }
    }
}

impl View for QueueEntry {
    type V = QueueEntryView;

    open spec fn view(&self) -> QueueEntryView {
        self.deep_view()
    }
}

impl Clone for QueueEntry {
    fn clone(&self) -> (r: Self)
        ensures
            r@ == self@,
    {
        QueueEntry { entry: self.entry.clone(), delay: self.delay }
    }
}

impl QueueEntry {
    /// The request for `entry`, to be served after `delay` seconds.
    pub fn new(entry: NamespacedName, delay: u64) -> (r: Self)
        ensures
            r@ == (QueueEntryView { entry: entry@, delay }),
    {
        QueueEntry { entry, delay }
    }
}

/// An event with `generation` and `resource_version` is redundant in view of
/// what the cache holds for its object: the entry has a generation and the
/// event has the same one, or the entry has the event's resource version.
pub open spec fn redundant(
    entry: Option<CacheEntryView>,
    generation: Option<u64>,
    resource_version: Seq<char>,
) -> bool {
    match entry {
        None => false,
        Some(e) => (generation is Some && e.generation is Some && generation->0
            == e.generation->0) || e.resource_version == resource_version,
    }
}

/// What the cache holds for `k`.
pub open spec fn lookup(
    cache: Map<NamespacedNameView, CacheEntryView>,
    k: NamespacedNameView,
) -> Option<CacheEntryView> {
    if cache.dom().contains(k) {
        Some(cache[k])
    } else {
        None
    }
}

/// An object with `metadata` need not be reconciled again in view of `cache`.
pub open spec fn skippable(
    metadata: MetadataView,
    cache: Map<NamespacedNameView, CacheEntryView>,
) -> bool {
    redundant(
        lookup(
            cache,
            NamespacedNameView { namespace: metadata.namespace->0, name: metadata.name->0 },
        ),
        metadata.generation,
        metadata.resource_version->0,
    )
}

/// Whether the event that delivered `object` is redundant: the cache knows
/// the object at this generation or at this resource version. The object
/// carries name, namespace and resource version.
pub fn can_skip_reconcile<M: MetadataAware>(object: &M, cache: &VersionCache) -> (r: bool)
    requires
        object.metadata_view().versioned(),
    ensures
        r == skippable(object.metadata_view(), cache@),
{
    let metadata = object.metadata();
    skip_by_metadata(&metadata, cache)
}

fn skip_by_metadata(metadata: &Metadata, cache: &VersionCache) -> (r: bool)
    requires
        metadata@.versioned(),
    ensures
        r == skippable(metadata@, cache@),
{
    let name = clone_text(&metadata.name);
    let namespace = clone_text(&metadata.namespace);
    let resource_version = clone_text(&metadata.resource_version);
    let namespaced_name = NamespacedName::new(name.as_str(), namespace.as_str());
    match cache.get(&namespaced_name) {
        Some(value) => {
            let same_generation = match (metadata.generation, value.generation) {
                (Some(left), Some(right)) => left == right,
                _ => false,
            };
            same_generation || resource_version == value.resource_version
        },
        None => false,
    }
}

/// The delay that follows `delay` after one more failure: twice the delay,
/// at least the initial and at most the longest delay.
pub open spec fn backoff(delay: nat) -> nat {
    let doubled = 2 * delay;
    let capped = if doubled < MAX_DELAY_SECS {
        doubled
    } else {
        MAX_DELAY_SECS as nat
    };
    if capped > INITIAL_DELAY_SECS {
        capped
    } else {
        INITIAL_DELAY_SECS as nat
    }
}

/// The delay of the retry after `failures` failures in a row, starting from
/// a request without delay.
pub open spec fn delay_after(failures: nat) -> nat
    decreases failures,
{
    if failures == 0 {
        0
    } else {
        backoff(delay_after((failures - 1) as nat))
    }
}

/// Two to the power of `n`.
pub open spec fn pow2(n: nat) -> nat
    decreases n,
{
    if n == 0 {
        1
    } else {
        2 * pow2((n - 1) as nat)
    }
}

/// The smaller of two numbers.
pub open spec fn min(a: nat, b: nat) -> nat {
    if a <= b {
        a
    } else {
        b
    }
}

/// The larger of two numbers.
pub open spec fn max(a: nat, b: nat) -> nat {
    if a >= b {
        a
    } else {
        b
    }
}

/// The backoff law: after `n` failures in a row, `n` at least one, the
/// retry waits `min(128, 2 * max(1, 2^(n-1)))` seconds.
pub proof fn lemma_backoff_law(n: nat)
    requires
        n >= 1,
    ensures
        delay_after(n) == min(128, 2 * max(1, pow2((n - 1) as nat))),
        INITIAL_DELAY_SECS <= delay_after(n) <= MAX_DELAY_SECS,
    decreases n,
{
    lemma_pow2_positive((n - 1) as nat);
    if n == 1 {
        assert(delay_after(0) == 0);
        assert(delay_after(1) == backoff(0));
        assert(pow2(0) == 1);
    } else {
        lemma_backoff_law((n - 1) as nat);
        lemma_pow2_positive((n - 2) as nat);
        assert(pow2((n - 1) as nat) == 2 * pow2((n - 2) as nat));
        assert(delay_after(n) == backoff(delay_after((n - 1) as nat)));
    }
}

/// A power of two is at least one.
pub proof fn lemma_pow2_positive(n: nat)
    ensures
        pow2(n) >= 1,
    decreases n,
{
    if n > 0 {
        lemma_pow2_positive((n - 1) as nat);
    }
}

/// The delay with which a key is tried again after a failure at `delay`.
pub fn next_delay(delay: u64) -> (r: u64)
    ensures
        r == backoff(delay as nat),
        INITIAL_DELAY_SECS <= r <= MAX_DELAY_SECS,
{
    if delay >= MAX_DELAY_SECS / 2 {
        MAX_DELAY_SECS
    } else if delay <= INITIAL_DELAY_SECS / 2 {
        INITIAL_DELAY_SECS
    } else {
        2 * delay
    }
}

/// Where the queue of reconcile requests stands.
#[derive(Debug)]
pub enum QueueStage {
    /// Not started.
    Idle,
    /// Taking requests from the channel; `taken` were taken in this go.
    Draining { taken: u32 },
    /// Asking the delay queue for the next entry that is due.
    Popping,
    /// The parent of this entry is being reconciled.
    Reconciling(QueueEntry),
    /// Resting: nothing waits in the delay queue.
    Sleeping,
}

/// What a [`QueueStage`] holds.
pub enum QueueStageView {
    Idle,
    Draining { taken: u32 },
    Popping,
    Reconciling(QueueEntryView),
    Sleeping,
}

impl View for QueueStage {
    type V = QueueStageView;

    open spec fn view(&self) -> QueueStageView {
        match self {
            QueueStage::Idle => QueueStageView::Idle,
            QueueStage::Draining { taken } => QueueStageView::Draining { taken: *taken },
            QueueStage::Popping => QueueStageView::Popping,
            QueueStage::Reconciling(e) => QueueStageView::Reconciling(e@),
            QueueStage::Sleeping => QueueStageView::Sleeping,
        }
    }
}

/// What happened since the last action of the queue.
#[derive(Debug)]
pub enum QueueEvent {
    /// The channel handed out a request, or had none.
    Received(Option<K8sObject<ExposedApp>>),
    /// The delay queue handed out an entry that is due, or is empty.
    Expired(Option<QueueEntry>),
    /// The reconcile ended.
    Reconciled(Result<(), String>),
    /// The rest is over.
    Slept,
}

/// What a [`QueueEvent`] holds.
pub enum QueueEventView {
    Received(Option<K8sObjectView<ExposedAppView>>),
    Expired(Option<QueueEntryView>),
    Reconciled(Result<(), Seq<char>>),
    Slept,
}

impl View for QueueEvent {
    type V = QueueEventView;

    open spec fn view(&self) -> QueueEventView {
        match self {
            QueueEvent::Received(Some(a)) => QueueEventView::Received(Some(a@)),
            QueueEvent::Received(None) => QueueEventView::Received(None),
            QueueEvent::Expired(Some(e)) => QueueEventView::Expired(Some(e@)),
            QueueEvent::Expired(None) => QueueEventView::Expired(None),
            QueueEvent::Reconciled(Ok(_)) => QueueEventView::Reconciled(Ok(())),
            QueueEvent::Reconciled(Err(e)) => QueueEventView::Reconciled(Err(e@)),
            QueueEvent::Slept => QueueEventView::Slept,
        }
    }
}

/// What the queue asks for after an insertion, if any.
#[derive(Debug)]
pub enum QueueNext {
    /// Look for a request in the channel, without waiting.
    TryReceive,
    /// Wait for the next entry of the delay queue that is due.
    NextExpired,
    /// Reconcile the parent under this key.
    Reconcile(NamespacedName),
    /// Rest.
    Sleep { secs: u64 },
}

/// What a [`QueueNext`] holds.
pub enum QueueNextView {
    TryReceive,
    NextExpired,
    Reconcile(NamespacedNameView),
    Sleep { secs: u64 },
}

impl View for QueueNext {
    type V = QueueNextView;

    open spec fn view(&self) -> QueueNextView {
        match self {
            QueueNext::TryReceive => QueueNextView::TryReceive,
            QueueNext::NextExpired => QueueNextView::NextExpired,
            QueueNext::Reconcile(k) => QueueNextView::Reconcile(k@),
            QueueNext::Sleep { secs } => QueueNextView::Sleep { secs: *secs },
        }
    }
}

/// What the queue asks its caller to do: put `insert`, where there is one,
/// into the delay queue with its delay, then do `next`.
#[derive(Debug)]
pub struct QueueAction {
    pub insert: Option<QueueEntry>,
    pub next: QueueNext,
}

/// What a [`QueueAction`] holds.
pub struct QueueActionView {
    pub insert: Option<QueueEntryView>,
    pub next: QueueNextView,
}

impl View for QueueAction {
    type V = QueueActionView;

    open spec fn view(&self) -> QueueActionView {
        QueueActionView { insert: self.insert.deep_view(), next: self.next@ }
    }
}

/// The events that a stage of the queue takes. A request from the channel
/// carries the name and the namespace of its parent.
pub open spec fn queue_expects(stage: QueueStageView, event: QueueEventView) -> bool {
    match (stage, event) {
        (QueueStageView::Draining { taken }, QueueEventView::Received(r)) => taken < DRAIN_BATCH
            && (r is Some ==> r->0.metadata.name is Some && r->0.metadata.namespace is Some),
        (QueueStageView::Popping, QueueEventView::Expired(_)) => true,
        (QueueStageView::Reconciling(_), QueueEventView::Reconciled(_)) => true,
        (QueueStageView::Sleeping, QueueEventView::Slept) => true,
        _ => false,
    }
}

/// The request for the parent `app`, without delay.
pub open spec fn request_for(app: K8sObjectView<ExposedAppView>) -> QueueEntryView {
    QueueEntryView {
        entry: NamespacedNameView {
            namespace: app.metadata.namespace->0,
            name: app.metadata.name->0,
        },
        delay: 0,
    }
}

/// One step of the queue.
///
/// The queue takes up to ten requests from the channel and inserts each
/// without delay; then it serves the entries of the delay queue as they fall
/// due. A reconcile that succeeds consumes its entry; one that fails puts
/// the key back with the delay that [`backoff`] gives. When the delay queue
/// is empty the queue rests for a second and starts over.
pub open spec fn queue_next(stage: QueueStageView, event: QueueEventView) -> (
    QueueStageView,
    QueueActionView,
) {
    match (stage, event) {
        (QueueStageView::Draining { taken }, QueueEventView::Received(Some(app))) => {
            if taken + 1 < DRAIN_BATCH {
                (
                    QueueStageView::Draining { taken: (taken + 1) as u32 },
                    QueueActionView {
                        insert: Some(request_for(app)),
                        next: QueueNextView::TryReceive,
                    },
                )
            } else {
                (
                    QueueStageView::Popping,
                    QueueActionView {
                        insert: Some(request_for(app)),
                        next: QueueNextView::NextExpired,
                    },
                )
            }
        },
        (QueueStageView::Draining { taken }, QueueEventView::Received(None)) => (
            QueueStageView::Popping,
            QueueActionView { insert: None, next: QueueNextView::NextExpired },
        ),
        (QueueStageView::Popping, QueueEventView::Expired(Some(e))) => (
            QueueStageView::Reconciling(e),
            QueueActionView { insert: None, next: QueueNextView::Reconcile(e.entry) },
        ),
        (QueueStageView::Popping, QueueEventView::Expired(None)) => (
            QueueStageView::Sleeping,
            QueueActionView { insert: None, next: QueueNextView::Sleep { secs: IDLE_DELAY_SECS } },
        ),
        (QueueStageView::Reconciling(e), QueueEventView::Reconciled(Ok(_))) => (
            QueueStageView::Popping,
            QueueActionView { insert: None, next: QueueNextView::NextExpired },
        ),
        (QueueStageView::Reconciling(e), QueueEventView::Reconciled(Err(_))) => (
            QueueStageView::Popping,
            QueueActionView {
                insert: Some(
                    QueueEntryView { entry: e.entry, delay: backoff(e.delay as nat) as u64 },
                ),
                next: QueueNextView::NextExpired,
            },
        ),
        (QueueStageView::Sleeping, QueueEventView::Slept) => (
            QueueStageView::Draining { taken: 0 },
            QueueActionView { insert: None, next: QueueNextView::TryReceive },
        ),
        _ => (stage, QueueActionView { insert: None, next: QueueNextView::NextExpired }),
    }
}

/// The first step of the queue: look into the channel.
pub fn start_reconcile_requests() -> (r: (QueueStage, QueueAction))
    ensures
        r.0@ == (QueueStageView::Draining { taken: 0 }),
        r.1@ == (QueueActionView { insert: None, next: QueueNextView::TryReceive }),
{
    (QueueStage::Draining { taken: 0 }, QueueAction { insert: None, next: QueueNext::TryReceive })
}

/// Whether the queue at `stage` takes `event`.
pub fn queue_takes(stage: &QueueStage, event: &QueueEvent) -> (r: bool)
    ensures
        r == queue_expects(stage@, event@),
{
    match (stage, event) {
        (QueueStage::Draining { taken }, QueueEvent::Received(r)) => *taken < DRAIN_BATCH && match r {
            Some(app) => app.metadata.name.is_some() && app.metadata.namespace.is_some(),
            None => true,
        },
        (QueueStage::Popping, QueueEvent::Expired(_)) => true,
        (QueueStage::Reconciling(_), QueueEvent::Reconciled(_)) => true,
        (QueueStage::Sleeping, QueueEvent::Slept) => true,
        _ => false,
    }
}

/// One step of the queue of reconcile requests: from the stage and what
/// happened to the next stage and what to do.
pub fn handle_reconcile_requests(stage: QueueStage, event: QueueEvent) -> (r: (
    QueueStage,
    QueueAction,
))
    requires
        queue_expects(stage@, event@),
    ensures
        (r.0@, r.1@) == queue_next(stage@, event@),
{
    match (stage, event) {
        (QueueStage::Draining { taken }, QueueEvent::Received(Some(app))) => {
            let name = clone_text(&app.metadata.name);
            let namespace = clone_text(&app.metadata.namespace);
            let entry = QueueEntry::new(NamespacedName::new(name.as_str(), namespace.as_str()), 0);
            if taken + 1 < DRAIN_BATCH {
                (
                    QueueStage::Draining { taken: taken + 1 },
                    QueueAction { insert: Some(entry), next: QueueNext::TryReceive },
                )
            } else {
                (
                    QueueStage::Popping,
                    QueueAction { insert: Some(entry), next: QueueNext::NextExpired },
                )
            }
        },
        (QueueStage::Draining { taken }, QueueEvent::Received(None)) => (
            QueueStage::Popping,
            QueueAction { insert: None, next: QueueNext::NextExpired },
        ),
        (QueueStage::Popping, QueueEvent::Expired(Some(e))) => {
            let key = e.entry.clone();
            (
                QueueStage::Reconciling(e),
                QueueAction { insert: None, next: QueueNext::Reconcile(key) },
            )
        },
        (QueueStage::Popping, QueueEvent::Expired(None)) => (
            QueueStage::Sleeping,
            QueueAction { insert: None, next: QueueNext::Sleep { secs: IDLE_DELAY_SECS } },
        ),
        (QueueStage::Reconciling(e), QueueEvent::Reconciled(Ok(_))) => (
            QueueStage::Popping,
            QueueAction { insert: None, next: QueueNext::NextExpired },
        ),
        (QueueStage::Reconciling(e), QueueEvent::Reconciled(Err(_))) => {
            let delay = next_delay(e.delay);
            (
                QueueStage::Popping,
                QueueAction {
                    insert: Some(QueueEntry::new(e.entry, delay)),
                    next: QueueNext::NextExpired,
                },
            )
        },
        (QueueStage::Sleeping, QueueEvent::Slept) => (
            QueueStage::Draining { taken: 0 },
            QueueAction { insert: None, next: QueueNext::TryReceive },
        ),
        (other, _) => (other, QueueAction { insert: None, next: QueueNext::NextExpired }),
    }
}

/// A key is put back into the queue exactly when its reconcile failed, and
/// then with the delay that follows the delay it came with; a reconcile that
/// succeeded puts nothing back.
pub proof fn lemma_requeue_iff_failed(entry: QueueEntryView, result: Result<(), Seq<char>>)
    ensures
        ({
            let step = queue_next(
                QueueStageView::Reconciling(entry),
                QueueEventView::Reconciled(result),
            );
            &&& step.1.insert is Some <==> result is Err
            &&& result is Err ==> step.1.insert->0.entry == entry.entry
            &&& result is Err ==> step.1.insert->0.delay == backoff(entry.delay as nat)
        }),
{
}

/// The API version of the parent kind.
pub const EXPOSED_APP_API_VERSION: &'static str = "stable.no-library.com/v1";

/// The name of the parent kind.
pub const EXPOSED_APP_KIND: &'static str = "ExposedApp";

/// An `ExposedApp` with its header and metadata, by view.
pub type ExposedAppObject = K8sObjectView<ExposedAppView>;

/// Where a watch loop stands.
#[derive(Clone, Copy, PartialEq, Eq, Structural, Debug)]
pub enum WatchStage {
    /// Not started.
    Idle,
    /// The collection was asked for.
    Listing,
    /// The watch is being opened.
    Opening,
    /// Waiting for the next event of the stream.
    Watching,
    /// The parent of an owned object was asked for.
    Resolving,
    /// Waiting before the loop starts over.
    Sleeping,
}

/// What a watch loop asks for after it has enqueued.
#[derive(Debug)]
pub enum WatchNext {
    /// List the collection.
    List,
    /// Open the watch from this resource version on.
    Watch { resource_version: String },
    /// Wait for the next event of the stream.
    NextEvent,
    /// Read this `ExposedApp`.
    GetExposedApp { name: String, namespace: String },
    /// Wait.
    Sleep { secs: u64 },
}

/// What a [`WatchNext`] holds.
pub enum WatchNextView {
    List,
    Watch { resource_version: Seq<char> },
    NextEvent,
    GetExposedApp { name: Seq<char>, namespace: Seq<char> },
    Sleep { secs: u64 },
}

impl View for WatchNext {
    type V = WatchNextView;

    open spec fn view(&self) -> WatchNextView {
        match self {
            WatchNext::List => WatchNextView::List,
            WatchNext::Watch { resource_version } => WatchNextView::Watch {
                resource_version: resource_version@,
            },
            WatchNext::NextEvent => WatchNextView::NextEvent,
            WatchNext::GetExposedApp { name, namespace } => WatchNextView::GetExposedApp {
                name: name@,
                namespace: namespace@,
            },
            WatchNext::Sleep { secs } => WatchNextView::Sleep { secs: *secs },
        }
    }
}

/// What a watch loop asks its caller to do: send the parents of `enqueue`
/// to the queue, in order, then do `next`.
#[derive(Debug)]
pub struct WatchAction {
    pub enqueue: Vec<K8sObject<ExposedApp>>,
    pub next: WatchNext,
}

/// What a [`WatchAction`] holds.
pub struct WatchActionView {
    pub enqueue: Seq<ExposedAppObject>,
    pub next: WatchNextView,
}

impl View for WatchAction {
    type V = WatchActionView;

    open spec fn view(&self) -> WatchActionView {
        WatchActionView { enqueue: self.enqueue.deep_view(), next: self.next@ }
    }
}

/// The action that enqueues nothing and goes on with `next`.
pub open spec fn only(next: WatchNextView) -> WatchActionView {
    WatchActionView { enqueue: Seq::empty(), next }
}

/// The action that starts the loop over after the wait.
pub open spec fn restart() -> WatchActionView {
    only(WatchNextView::Sleep { secs: RESTART_DELAY_SECS })
}

/// What happened in the loop that watches the parents.
#[derive(Debug)]
pub enum ExposedAppEvent {
    /// The answer to the list.
    Listed(Result<List<K8sObject<ExposedApp>>, K8sClientError>),
    /// The answer to opening the watch.
    Opened(Result<(), K8sClientError>),
    /// The stream delivered an event.
    Received(Watch<K8sListObject<ExposedApp>>),
    /// The stream ended.
    Closed,
    /// The wait is over.
    Slept,
}

/// What an [`ExposedAppEvent`] holds; of a list, its items and the metadata
/// of the collection; of an event of the stream, its object.
pub enum ExposedAppEventView {
    Listed(Result<(Seq<ExposedAppObject>, MetadataView), K8sClientErrorView>),
    Opened(Result<(), K8sClientErrorView>),
    Received(MetadataView, ExposedAppView),
    Closed,
    Slept,
}

impl View for ExposedAppEvent {
    type V = ExposedAppEventView;

    open spec fn view(&self) -> ExposedAppEventView {
        match self {
            ExposedAppEvent::Listed(Ok(l)) => ExposedAppEventView::Listed(
                Ok((l.items.deep_view(), l.metadata@)),
            ),
            ExposedAppEvent::Listed(Err(e)) => ExposedAppEventView::Listed(Err(e@)),
            ExposedAppEvent::Opened(Ok(_)) => ExposedAppEventView::Opened(Ok(())),
            ExposedAppEvent::Opened(Err(e)) => ExposedAppEventView::Opened(Err(e@)),
            ExposedAppEvent::Received(w) => ExposedAppEventView::Received(
                w.object.metadata@,
                w.object.object@,
            ),
            ExposedAppEvent::Closed => ExposedAppEventView::Closed,
            ExposedAppEvent::Slept => ExposedAppEventView::Slept,
        }
    }
}

/// What happened in a loop that watches an owned kind.
#[derive(Debug)]
pub enum OwnedEvent<T> {
    /// The answer to the list.
    Listed(Result<List<K8sListObject<T>>, K8sClientError>),
    /// The answer to opening the watch.
    Opened(Result<(), K8sClientError>),
    /// The stream delivered an event.
    Received(Watch<K8sListObject<T>>),
    /// The answer to reading the parent of an owned object.
    OwnerFetched(Result<K8sObject<ExposedApp>, K8sClientError>),
    /// The stream ended.
    Closed,
    /// The wait is over.
    Slept,
}

/// What the loop reads of an [`OwnedEvent`]: of a list, the metadata of the
/// collection; of an event of the stream, the metadata of its object.
pub enum OwnedEventView {
    Listed(Result<MetadataView, K8sClientErrorView>),
    Opened(Result<(), K8sClientErrorView>),
    Received(MetadataView),
    OwnerFetched(Result<ExposedAppObject, K8sClientErrorView>),
    Closed,
    Slept,
}

impl<T> View for OwnedEvent<T> {
    type V = OwnedEventView;

    open spec fn view(&self) -> OwnedEventView {
        match self {
            OwnedEvent::Listed(Ok(l)) => OwnedEventView::Listed(Ok(l.metadata@)),
            OwnedEvent::Listed(Err(e)) => OwnedEventView::Listed(Err(e@)),
            OwnedEvent::Opened(Ok(_)) => OwnedEventView::Opened(Ok(())),
            OwnedEvent::Opened(Err(e)) => OwnedEventView::Opened(Err(e@)),
            OwnedEvent::Received(w) => OwnedEventView::Received(w.object.metadata@),
            OwnedEvent::OwnerFetched(Ok(a)) => OwnedEventView::OwnerFetched(Ok(a@)),
            OwnedEvent::OwnerFetched(Err(e)) => OwnedEventView::OwnerFetched(Err(e@)),
            OwnedEvent::Closed => OwnedEventView::Closed,
            OwnedEvent::Slept => OwnedEventView::Slept,
        }
    }
}

/// The first of `references` whose kind is `ExposedApp`, if there is one.
pub open spec fn first_owner(references: Seq<OwnerReferenceView>) -> Option<OwnerReferenceView>
    decreases references.len(),
{
    if references.len() == 0 {
        None
    } else if references[0].kind == EXPOSED_APP_KIND@ {
        Some(references[0])
    } else {
        first_owner(references.drop_first())
    }
}

/// The name of the `ExposedApp` that owns the object with `metadata`, if one
/// does.
pub open spec fn owner_of(metadata: MetadataView) -> Option<Seq<char>> {
    match metadata.owner_references {
        Some(references) => match first_owner(references) {
            Some(owner) => Some(owner.name),
            None => None,
        },
        None => None,
    }
}

/// The name of the `ExposedApp` that owns the object with `metadata`, if one
/// does: that of the first owner reference of that kind.
pub fn find_owner(metadata: &Metadata) -> (r: Option<String>)
    ensures
        r.deep_view() == owner_of(metadata@),
{
    match &metadata.owner_references {
        Some(references) => {
            let ghost all = references.deep_view();
            let mut i: usize = 0;
            assert(all.skip(0) =~= all);
            while i < references.len()
                invariant
                    i <= references.len(),
                    all == references.deep_view(),
                    metadata@.owner_references == Some(all),
                    first_owner(all) == first_owner(all.skip(i as int)),
                decreases references.len() - i,
            {
                proof {
                    let rest = all.skip(i as int);
                    assert(rest.len() > 0);
                    assert(rest[0] == references[i as int]@);
                    assert(rest.drop_first() =~= all.skip(i + 1));
                }
                if str_eq(references[i].kind.as_str(), EXPOSED_APP_KIND) {
                    assert(first_owner(all) == Some(references[i as int]@));
                    return Some(references[i].name.clone());
                }
                i += 1;
            }
            assert(all.skip(references.len() as int).len() == 0);
            None
        },
        None => None,
    }
}

/// An object of a list or a watch as a whole `ExposedApp`, with the header
/// of its kind.
pub open spec fn as_exposed_app(metadata: MetadataView, object: ExposedAppView) -> ExposedAppObject {
    K8sObjectView {
        api_version: EXPOSED_APP_API_VERSION@,
        kind: EXPOSED_APP_KIND@,
        metadata,
        object,
    }
}

/// The events that a stage of the loop on parents takes. A list carries the
/// resource version of the collection; an object of the stream carries
/// name, namespace and resource version.
pub open spec fn exposed_apps_expects(stage: WatchStage, event: ExposedAppEventView) -> bool {
    match (stage, event) {
        (WatchStage::Listing, ExposedAppEventView::Listed(r)) => r is Ok
            ==> r->Ok_0.1.resource_version is Some,
        (WatchStage::Opening, ExposedAppEventView::Opened(_)) => true,
        (WatchStage::Watching, ExposedAppEventView::Received(m, _)) => m.versioned(),
        (WatchStage::Watching, ExposedAppEventView::Closed) => true,
        (WatchStage::Sleeping, ExposedAppEventView::Slept) => true,
        _ => false,
    }
}

/// One step of the loop on parents.
///
/// Every item of the list is enqueued, then the watch is opened at the
/// resource version of the list. Every event of the stream that is not
/// redundant in view of the cache enqueues its object. A failed list, a
/// watch that does not open and the end of the stream lead to the wait
/// after which the loop starts over with a list.
pub open spec fn exposed_apps_next(
    stage: WatchStage,
    event: ExposedAppEventView,
    cache: Map<NamespacedNameView, CacheEntryView>,
) -> (WatchStage, WatchActionView) {
    match (stage, event) {
        (WatchStage::Listing, ExposedAppEventView::Listed(Ok((items, metadata)))) => (
            WatchStage::Opening,
            WatchActionView {
                enqueue: items,
                next: WatchNextView::Watch { resource_version: metadata.resource_version->0 },
            },
        ),
        (WatchStage::Listing, ExposedAppEventView::Listed(Err(_))) => (
            WatchStage::Sleeping,
            restart(),
        ),
        (WatchStage::Opening, ExposedAppEventView::Opened(Ok(_))) => (
            WatchStage::Watching,
            only(WatchNextView::NextEvent),
        ),
        (WatchStage::Opening, ExposedAppEventView::Opened(Err(_))) => (
            WatchStage::Sleeping,
            restart(),
        ),
        (WatchStage::Watching, ExposedAppEventView::Received(metadata, object)) => {
            if skippable(metadata, cache) {
                (WatchStage::Watching, only(WatchNextView::NextEvent))
            } else {
                (
                    WatchStage::Watching,
                    WatchActionView {
                        enqueue: seq![as_exposed_app(metadata, object)],
                        next: WatchNextView::NextEvent,
                    },
                )
            }
        },
        (WatchStage::Watching, ExposedAppEventView::Closed) => (WatchStage::Sleeping, restart()),
        (WatchStage::Sleeping, ExposedAppEventView::Slept) => (
            WatchStage::Listing,
            only(WatchNextView::List),
        ),
        _ => (stage, restart()),
    }
}

/// The events that a stage of a loop on an owned kind takes. A list carries
/// the resource version of the collection; an object of the stream carries
/// name, namespace and resource version.
pub open spec fn owned_expects(stage: WatchStage, event: OwnedEventView) -> bool {
    match (stage, event) {
        (WatchStage::Listing, OwnedEventView::Listed(r)) => r is Ok
            ==> r->Ok_0.resource_version is Some,
        (WatchStage::Opening, OwnedEventView::Opened(_)) => true,
        (WatchStage::Watching, OwnedEventView::Received(m)) => m.versioned(),
        (WatchStage::Watching, OwnedEventView::Closed) => true,
        (WatchStage::Resolving, OwnedEventView::OwnerFetched(_)) => true,
        (WatchStage::Sleeping, OwnedEventView::Slept) => true,
        _ => false,
    }
}

/// One step of a loop on an owned kind.
///
/// The watch is opened at the resource version of the list. For every event
/// of the stream that is not redundant in view of the cache, the parent
/// named by the first owner reference of kind `ExposedApp` is read in the
/// namespace of the object; a parent that is found is enqueued, one that is
/// not, or cannot be read, is passed over. A failed list, a watch that does
/// not open and the end of the stream lead to the wait after which the loop
/// starts over with a list.
pub open spec fn owned_next(
    stage: WatchStage,
    event: OwnedEventView,
    cache: Map<NamespacedNameView, CacheEntryView>,
) -> (WatchStage, WatchActionView) {
    match (stage, event) {
        (WatchStage::Listing, OwnedEventView::Listed(Ok(metadata))) => (
            WatchStage::Opening,
            only(WatchNextView::Watch { resource_version: metadata.resource_version->0 }),
        ),
        (WatchStage::Listing, OwnedEventView::Listed(Err(_))) => (WatchStage::Sleeping, restart()),
        (WatchStage::Opening, OwnedEventView::Opened(Ok(_))) => (
            WatchStage::Watching,
            only(WatchNextView::NextEvent),
        ),
        (WatchStage::Opening, OwnedEventView::Opened(Err(_))) => (WatchStage::Sleeping, restart()),
        (WatchStage::Watching, OwnedEventView::Received(metadata)) => {
            if skippable(metadata, cache) {
                (WatchStage::Watching, only(WatchNextView::NextEvent))
            } else {
                match owner_of(metadata) {
                    Some(owner) => (
                        WatchStage::Resolving,
                        only(
                            WatchNextView::GetExposedApp {
                                name: owner,
                                namespace: metadata.namespace->0,
                            },
                        ),
                    ),
                    None => (WatchStage::Watching, only(WatchNextView::NextEvent)),
                }
            }
        },
        (WatchStage::Watching, OwnedEventView::Closed) => (WatchStage::Sleeping, restart()),
        (WatchStage::Resolving, OwnedEventView::OwnerFetched(Ok(app))) => (
            WatchStage::Watching,
            WatchActionView { enqueue: seq![app], next: WatchNextView::NextEvent },
        ),
        (WatchStage::Resolving, OwnedEventView::OwnerFetched(Err(_))) => (
            WatchStage::Watching,
            only(WatchNextView::NextEvent),
        ),
        (WatchStage::Sleeping, OwnedEventView::Slept) => (
            WatchStage::Listing,
            only(WatchNextView::List),
        ),
        _ => (stage, restart()),
    }
}

fn only_next(next: WatchNext) -> (r: WatchAction)
    ensures
        r@ == only(next@),
{
    let r = WatchAction { enqueue: Vec::new(), next };
    assert(r.enqueue.deep_view() =~= Seq::empty());
    r
}

fn restart_action() -> (r: WatchAction)
    ensures
        r@ == restart(),
{
    only_next(WatchNext::Sleep { secs: RESTART_DELAY_SECS })
}

/// The first step of a watch loop: list the collection.
pub fn start_watch() -> (r: (WatchStage, WatchAction))
    ensures
        r.0 == WatchStage::Listing,
        r.1@ == only(WatchNextView::List),
{
    (WatchStage::Listing, only_next(WatchNext::List))
}

/// Whether the loop on parents at `stage` takes `event`.
pub fn exposed_apps_takes(stage: WatchStage, event: &ExposedAppEvent) -> (r: bool)
    ensures
        r == exposed_apps_expects(stage, event@),
{
    match (stage, event) {
        (WatchStage::Listing, ExposedAppEvent::Listed(r)) => match r {
            Ok(l) => l.metadata.resource_version.is_some(),
            Err(_) => true,
        },
        (WatchStage::Opening, ExposedAppEvent::Opened(_)) => true,
        (WatchStage::Watching, ExposedAppEvent::Received(w)) => w.object.metadata.is_versioned(),
        (WatchStage::Watching, ExposedAppEvent::Closed) => true,
        (WatchStage::Sleeping, ExposedAppEvent::Slept) => true,
        _ => false,
    }
}

/// Whether a loop on an owned kind at `stage` takes `event`.
pub fn owned_takes<T>(stage: WatchStage, event: &OwnedEvent<T>) -> (r: bool)
    ensures
        r == owned_expects(stage, event@),
{
    match (stage, event) {
        (WatchStage::Listing, OwnedEvent::Listed(r)) => match r {
            Ok(l) => l.metadata.resource_version.is_some(),
            Err(_) => true,
        },
        (WatchStage::Opening, OwnedEvent::Opened(_)) => true,
        (WatchStage::Watching, OwnedEvent::Received(w)) => w.object.metadata.is_versioned(),
        (WatchStage::Watching, OwnedEvent::Closed) => true,
        (WatchStage::Resolving, OwnedEvent::OwnerFetched(_)) => true,
        (WatchStage::Sleeping, OwnedEvent::Slept) => true,
        _ => false,
    }
}

/// One step of the loop that lists and watches the parents: from the stage
/// and what happened to the next stage and what to do.
pub fn handle_exposed_apps(stage: WatchStage, event: ExposedAppEvent, cache: &VersionCache) -> (r: (
    WatchStage,
    WatchAction,
))
    requires
        exposed_apps_expects(stage, event@),
    ensures
        (r.0, r.1@) == exposed_apps_next(stage, event@, cache@),
{
    match (stage, event) {
        (WatchStage::Listing, ExposedAppEvent::Listed(Ok(l))) => {
            let resource_version = clone_text(&l.metadata.resource_version);
            (
                WatchStage::Opening,
                WatchAction { enqueue: l.items, next: WatchNext::Watch { resource_version } },
            )
        },
        (WatchStage::Listing, ExposedAppEvent::Listed(Err(_))) => (
            WatchStage::Sleeping,
            restart_action(),
        ),
        (WatchStage::Opening, ExposedAppEvent::Opened(Ok(_))) => (
            WatchStage::Watching,
            only_next(WatchNext::NextEvent),
        ),
        (WatchStage::Opening, ExposedAppEvent::Opened(Err(_))) => (
            WatchStage::Sleeping,
            restart_action(),
        ),
        (WatchStage::Watching, ExposedAppEvent::Received(w)) => {
            if skip_by_metadata(&w.object.metadata, cache) {
                (WatchStage::Watching, only_next(WatchNext::NextEvent))
            } else {
                let ghost metadata = w.object.metadata@;
                let ghost object = w.object.object@;
                let mut enqueue: Vec<K8sObject<ExposedApp>> = Vec::new();
                enqueue.push(
                    K8sObject {
                        api_version: String::from_str(EXPOSED_APP_API_VERSION),
                        kind: String::from_str(EXPOSED_APP_KIND),
                        metadata: w.object.metadata,
                        object: w.object.object,
                    },
                );
                assert(enqueue.deep_view() =~= seq![as_exposed_app(metadata, object)]);
                (WatchStage::Watching, WatchAction { enqueue, next: WatchNext::NextEvent })
            }
        },
        (WatchStage::Watching, ExposedAppEvent::Closed) => (WatchStage::Sleeping, restart_action()),
        (WatchStage::Sleeping, ExposedAppEvent::Slept) => (
            WatchStage::Listing,
            only_next(WatchNext::List),
        ),
        _ => (stage, restart_action()),
    }
}

/// One step of a loop that lists and watches an owned kind: from the stage
/// and what happened to the next stage and what to do.
pub fn handle_owned_update<T>(stage: WatchStage, event: OwnedEvent<T>, cache: &VersionCache) -> (r:
    (WatchStage, WatchAction))
    requires
        owned_expects(stage, event@),
    ensures
        (r.0, r.1@) == owned_next(stage, event@, cache@),
{
    match (stage, event) {
        (WatchStage::Listing, OwnedEvent::Listed(Ok(l))) => {
            let resource_version = clone_text(&l.metadata.resource_version);
            (WatchStage::Opening, only_next(WatchNext::Watch { resource_version }))
        },
        (WatchStage::Listing, OwnedEvent::Listed(Err(_))) => (
            WatchStage::Sleeping,
            restart_action(),
        ),
        (WatchStage::Opening, OwnedEvent::Opened(Ok(_))) => (
            WatchStage::Watching,
            only_next(WatchNext::NextEvent),
        ),
        (WatchStage::Opening, OwnedEvent::Opened(Err(_))) => (
            WatchStage::Sleeping,
            restart_action(),
        ),
        (WatchStage::Watching, OwnedEvent::Received(w)) => {
            if skip_by_metadata(&w.object.metadata, cache) {
                (WatchStage::Watching, only_next(WatchNext::NextEvent))
            } else {
                match find_owner(&w.object.metadata) {
                    Some(name) => {
                        let namespace = clone_text(&w.object.metadata.namespace);
                        (
                            WatchStage::Resolving,
                            only_next(WatchNext::GetExposedApp { name, namespace }),
                        )
                    },
                    None => (WatchStage::Watching, only_next(WatchNext::NextEvent)),
                }
            }
        },
        (WatchStage::Watching, OwnedEvent::Closed) => (WatchStage::Sleeping, restart_action()),
        (WatchStage::Resolving, OwnedEvent::OwnerFetched(Ok(app))) => {
            let ghost parent = app@;
            let mut enqueue: Vec<K8sObject<ExposedApp>> = Vec::new();
            enqueue.push(app);
            assert(enqueue.deep_view() =~= seq![parent]);
            (WatchStage::Watching, WatchAction { enqueue, next: WatchNext::NextEvent })
        },
        (WatchStage::Resolving, OwnedEvent::OwnerFetched(Err(_))) => (
            WatchStage::Watching,
            only_next(WatchNext::NextEvent),
        ),
        (WatchStage::Sleeping, OwnedEvent::Slept) => (
            WatchStage::Listing,
            only_next(WatchNext::List),
        ),
        _ => (stage, restart_action()),
    }
}

/// A stream that ends leads to a wait of two seconds, and the end of the
/// wait to a new list: in the loop on parents and in the loops on owned
/// kinds alike.
pub proof fn lemma_closed_stream_restarts(cache: Map<NamespacedNameView, CacheEntryView>)
    ensures
        exposed_apps_next(WatchStage::Watching, ExposedAppEventView::Closed, cache) == (
            WatchStage::Sleeping,
            only(WatchNextView::Sleep { secs: 2 }),
        ),
        exposed_apps_next(WatchStage::Sleeping, ExposedAppEventView::Slept, cache) == (
            WatchStage::Listing,
            only(WatchNextView::List),
        ),
        owned_next(WatchStage::Watching, OwnedEventView::Closed, cache) == (
            WatchStage::Sleeping,
            only(WatchNextView::Sleep { secs: 2 }),
        ),
        owned_next(WatchStage::Sleeping, OwnedEventView::Slept, cache) == (
            WatchStage::Listing,
            only(WatchNextView::List),
        ),
{
}

/// An event that is redundant in view of the cache enqueues nothing and
/// asks for no parent, in any loop.
pub proof fn lemma_redundant_event_is_dropped(
    metadata: MetadataView,
    object: ExposedAppView,
    cache: Map<NamespacedNameView, CacheEntryView>,
)
    requires
        skippable(metadata, cache),
    ensures
        exposed_apps_next(
            WatchStage::Watching,
            ExposedAppEventView::Received(metadata, object),
            cache,
        ) == (WatchStage::Watching, only(WatchNextView::NextEvent)),
        owned_next(WatchStage::Watching, OwnedEventView::Received(metadata), cache) == (
            WatchStage::Watching,
            only(WatchNextView::NextEvent),
        ),
{
}

/// An owned object whose parent is gone, or cannot be read, enqueues
/// nothing: the loop goes on with the next event.
pub proof fn lemma_missing_parent_is_dropped(
    e: K8sClientErrorView,
    cache: Map<NamespacedNameView, CacheEntryView>,
)
    ensures
        owned_next(WatchStage::Resolving, OwnedEventView::OwnerFetched(Err(e)), cache) == (
            WatchStage::Watching,
            only(WatchNextView::NextEvent),
        ),
{
}

} // verus!
