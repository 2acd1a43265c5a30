//! The client side of the Kubernetes API without the transport: which request
//! each verb sends, how a response status maps to an error, when a request is
//! sent again, and the patch document of the lease.

use vstd::prelude::*;
use vstd::string::*;
use crate::json;
use crate::k8s_types::{Deployment, DeploymentView, K8sObject, K8sObjectView};
use crate::offset_date_time_parser;
use crate::offset_date_time_parser::{MicroTime, TimeError};
use crate::text::{decimal, u64_to_decimal};

verus! {

/// The address of the API server inside a cluster, used where no host is
/// configured.
pub const API_SERVER: &'static str = "https://kubernetes.default.svc";

/// The collection of all `ExposedApp` objects, relative to the server.
pub const EXPOSED_APPS_LIST: &'static str = "apis/stable.no-library.com/v1/exposedapps";

/// How often a request that was answered with 401 is sent again.
pub const TOKEN_REFRESH_RETRIES: u32 = 3;

/// The seconds to wait before a request is sent again after a 401.
pub const TOKEN_REFRESH_DELAY_SECS: u64 = 10;

/// The text that std's `Debug` writes for a string slice: the text between
/// double quotes, with std's escapes.
pub uninterp spec fn debug_text(text: Seq<char>) -> Seq<char>;

/// Formats a string slice with std's `{:?}`. The result depends on the text
/// alone.
#[verifier::external_body]
fn debug_quote(text: &str) -> (r: String)
    ensures
        r@ == debug_text(text@),
{
    format!("{:?}", text)
}

/// Why a call of the API did not return an object.
#[derive(Debug)]
pub enum K8sClientError {
    /// The server answered 404.
    NotFound,
    /// The server answered 409; for the lease patch, the precondition on the
    /// resource version failed.
    Conflict,
    /// Any other status outside 200..=299, with the body of the response.
    Other(u16, String),
}

/// What a [`K8sClientError`] holds.
pub enum K8sClientErrorView {
    NotFound,
    Conflict,
    Other(u16, Seq<char>),
}

impl DeepView for K8sClientError {
    type V = K8sClientErrorView;

    open spec fn deep_view(&self) -> K8sClientErrorView {
        match self {
            K8sClientError::NotFound => K8sClientErrorView::NotFound,
            K8sClientError::Conflict => K8sClientErrorView::Conflict,
            K8sClientError::Other(status, text) => K8sClientErrorView::Other(*status, text@),
        }
    }
}

impl View for K8sClientError {
    type V = K8sClientErrorView;

    open spec fn view(&self) -> K8sClientErrorView {
        self.deep_view()
    }
}

impl Clone for K8sClientError {
    fn clone(&self) -> (r: Self)
        ensures
            r@ == self@,
    {
        match self {
            K8sClientError::NotFound => K8sClientError::NotFound,
            K8sClientError::Conflict => K8sClientError::Conflict,
            K8sClientError::Other(status, text) => K8sClientError::Other(*status, text.clone()),
        }
    }
}

/// Whether `status` is one of 200..=299.
pub open spec fn is_success(status: u16) -> bool {
    200 <= status < 300
}

/// The error that a response with `status` and body `text` stands for, if it
/// stands for one.
pub open spec fn status_error(status: u16, text: Seq<char>) -> Option<K8sClientErrorView> {
    if status == 404 {
        Some(K8sClientErrorView::NotFound)
    } else if status == 409 {
        Some(K8sClientErrorView::Conflict)
    } else if !is_success(status) {
        Some(K8sClientErrorView::Other(status, text))
    } else {
        None
    }
}

impl K8sClientErrorView {
    /// The error as text, in the form of a derived `Debug`.
    pub open spec fn description(self) -> Seq<char> {
        match self {
            K8sClientErrorView::NotFound => "NotFound"@,
            K8sClientErrorView::Conflict => "Conflict"@,
            K8sClientErrorView::Other(status, text) => "Other("@ + decimal(status as nat) + ", "@
                + debug_text(text) + ")"@,
        }
    }
}

impl K8sClientError {
    /// Maps the status and body of a response to an error: 404 to
    /// `NotFound`, 409 to `Conflict`, any other status outside 200..=299 to
    /// `Other`, and a status in that range to none.
    pub fn from_status(status: u16, text: &str) -> (r: Option<K8sClientError>)
        ensures
            r.deep_view() == status_error(status, text@),
    {
        if status == 404 {
            Some(K8sClientError::NotFound)
        } else if status == 409 {
            Some(K8sClientError::Conflict)
        } else if status < 200 || status >= 300 {
            Some(K8sClientError::Other(status, String::from_str(text)))
        } else {
            None
        }
    }

    /// The error as text.
    pub fn describe(&self) -> (r: String)
        ensures
            r@ == self@.description(),
    {
        match self {
            K8sClientError::NotFound => String::from_str("NotFound"),
            K8sClientError::Conflict => String::from_str("Conflict"),
            K8sClientError::Other(status, text) => {
                let mut out = String::from_str("Other(");
                out.append(u64_to_decimal(*status as u64).as_str());
                out.append(", ");
                out.append(debug_quote(text.as_str()).as_str());
                out.append(")");
                out
            },
        }
    }
}

/// What [`response_body`] returns, by view.
pub open spec fn body_or_error(status: u16, text: Seq<char>) -> Result<
    Seq<char>,
    K8sClientErrorView,
> {
    match status_error(status, text) {
        Some(e) => Err(e),
        None => Ok(text),
    }
}

/// The body of a response if its status is in 200..=299, else the error
/// that the status stands for.
pub fn response_body(status: u16, text: String) -> (r: Result<String, K8sClientError>)
    ensures
        r is Ok <==> body_or_error(status, text@) is Ok,
        r is Ok ==> r->Ok_0@ == text@,
        r is Err ==> Err::<Seq<char>, K8sClientErrorView>(r->Err_0@) == body_or_error(
            status,
            text@,
        ),
{
    match K8sClientError::from_status(status, text.as_str()) {
        Some(e) => Err(e),
        None => Ok(text),
    }
}

/// What to do with a response in view of the 401 policy.
#[derive(Clone, Copy, PartialEq, Eq, Structural, Debug)]
pub enum RetryStep {
    /// Hand the response to the caller.
    Return,
    /// Wait `delay_secs`, read the token again and send the request again;
    /// `retries_left` further attempts remain after that one.
    RefreshAndRetry { delay_secs: u64, retries_left: u32 },
}

/// The 401 policy as a function.
pub open spec fn retry_step(status: u16, retries_left: u32) -> RetryStep {
    if status == 401 && retries_left > 0 {
        RetryStep::RefreshAndRetry {
            delay_secs: TOKEN_REFRESH_DELAY_SECS,
            retries_left: (retries_left - 1) as u32,
        }
    } else {
        RetryStep::Return
    }
}

/// The number of times a request is sent when the server answers with
/// `statuses` in turn, starting with `retries_left` attempts.
pub open spec fn sends(statuses: Seq<u16>, retries_left: u32) -> nat
    decreases statuses.len(),
{
    if statuses.len() == 0 {
        0
    } else {
        match retry_step(statuses[0], retries_left) {
            RetryStep::Return => 1,
            RetryStep::RefreshAndRetry { delay_secs, retries_left } => 1 + sends(
                statuses.drop_first(),
                retries_left,
            ),
        }
    }
}

/// A request is sent at most once more than the attempts it starts with,
/// whatever the server answers.
pub proof fn lemma_sends_bounded(statuses: Seq<u16>, retries_left: u32)
    ensures
        sends(statuses, retries_left) <= retries_left + 1,
    decreases statuses.len(),
{
    if statuses.len() > 0 {
        match retry_step(statuses[0], retries_left) {
            RetryStep::Return => {},
            RetryStep::RefreshAndRetry { delay_secs, retries_left: left } => {
                lemma_sends_bounded(statuses.drop_first(), left);
            },
        }
    }
}

/// What follows the attempt to create a Deployment.
#[derive(Debug)]
pub enum SaveStep {
    /// The outcome of the save is settled.
    Done(Result<K8sObject<Deployment>, K8sClientError>),
    /// The Deployment exists already: replace it with a PUT.
    Update,
}

/// What a [`SaveStep`] holds.
pub enum SaveStepView {
    Done(Result<K8sObjectView<DeploymentView>, K8sClientErrorView>),
    Update,
}

impl View for SaveStep {
    type V = SaveStepView;

    open spec fn view(&self) -> SaveStepView {
        match self {
            SaveStep::Done(Ok(d)) => SaveStepView::Done(Ok(d@)),
            SaveStep::Done(Err(e)) => SaveStepView::Done(Err(e@)),
            SaveStep::Update => SaveStepView::Update,
        }
    }
}

/// Create-or-update as a function of the outcome of the POST.
pub open spec fn save_deployment_step(
    posted: Result<K8sObjectView<DeploymentView>, K8sClientErrorView>,
) -> SaveStepView {
    match posted {
        Err(K8sClientErrorView::Conflict) => SaveStepView::Update,
        _ => SaveStepView::Done(posted),
    }
}

/// The verb of a request.
#[derive(Clone, Copy, PartialEq, Eq, Structural, Debug)]
pub enum HttpMethod {
    Get,
    Post,
    Put,
    Patch,
}

/// A request to the API server, before the headers of [`K8sClient::get_headers`]
/// are added: the verb, the address, the body and the content type where the
/// request names one.
#[derive(Debug)]
pub struct HttpRequest {
    pub method: HttpMethod,
    pub url: String,
    pub body: Option<String>,
    pub content_type: Option<String>,
}

/// What an [`HttpRequest`] holds.
pub struct HttpRequestView {
    pub method: HttpMethod,
    pub url: Seq<char>,
    pub body: Option<Seq<char>>,
    pub content_type: Option<Seq<char>>,
}

impl DeepView for HttpRequest {
    type V = HttpRequestView;

    open spec fn deep_view(&self) -> HttpRequestView {
        HttpRequestView {
            method: self.method,
            url: self.url.deep_view(),
            body: self.body.deep_view(),
            content_type: self.content_type.deep_view(),
        }
    }
}

impl View for HttpRequest {
    type V = HttpRequestView;

    open spec fn view(&self) -> HttpRequestView {
        self.deep_view()
    }
}

/// A request without a body.
pub open spec fn get_request(url: Seq<char>) -> HttpRequestView {
    HttpRequestView { method: HttpMethod::Get, url, body: None, content_type: None }
}

/// A request that carries `payload`.
pub open spec fn body_request(
    method: HttpMethod,
    url: Seq<char>,
    payload: Seq<char>,
) -> HttpRequestView {
    HttpRequestView { method, url, body: Some(payload), content_type: None }
}

/// The address of the API server: the configured host and port, or the
/// in-cluster name where no host is configured.
pub open spec fn api_server_url(host: Seq<char>, port: u16) -> Seq<char> {
    if host.len() == 0 {
        API_SERVER@
    } else {
        "https://"@ + host + ":"@ + decimal(port as nat)
    }
}

/// The address of one `ExposedApp`.
pub open spec fn exposed_app_url(base: Seq<char>, namespace: Seq<char>, name: Seq<char>) -> Seq<
    char,
> {
    base + "/apis/stable.no-library.com/v1/namespaces/"@ + namespace + "/exposedapps/"@ + name
}

/// The address of the status subresource of one `ExposedApp`.
pub open spec fn exposed_app_status_url(
    base: Seq<char>,
    namespace: Seq<char>,
    name: Seq<char>,
) -> Seq<char> {
    exposed_app_url(base, namespace, name) + "/status"@
}

/// The address of a namespaced collection of a named API group.
pub open spec fn collection_url(
    base: Seq<char>,
    group: Seq<char>,
    version: Seq<char>,
    namespace: Seq<char>,
    resource_type: Seq<char>,
) -> Seq<char> {
    base + "/apis/"@ + group + "/"@ + version + "/namespaces/"@ + namespace + "/"@ + resource_type
}

/// The address of one object of a named API group.
pub open spec fn resource_url(
    base: Seq<char>,
    group: Seq<char>,
    version: Seq<char>,
    namespace: Seq<char>,
    resource_type: Seq<char>,
    name: Seq<char>,
) -> Seq<char> {
    collection_url(base, group, version, namespace, resource_type) + "/"@ + name
}

/// The address of one Service.
pub open spec fn service_url(base: Seq<char>, namespace: Seq<char>, name: Seq<char>) -> Seq<char> {
    base + "/api/v1/namespaces/"@ + namespace + "/services/"@ + name
}

/// The address of one Lease.
pub open spec fn lease_url(base: Seq<char>, namespace: Seq<char>, name: Seq<char>) -> Seq<char> {
    base + "/apis/coordination.k8s.io/v1/namespaces/"@ + namespace + "/leases/"@ + name
}

/// The address of the events of a namespace.
pub open spec fn events_url(base: Seq<char>, namespace: Seq<char>) -> Seq<char> {
    base + "/apis/events.k8s.io/v1/namespaces/"@ + namespace + "/events"@
}

/// The address of a collection given relative to the server.
pub open spec fn list_url(base: Seq<char>, uri: Seq<char>) -> Seq<char> {
    base + "/"@ + uri
}

/// The address of the watch on a collection, from a resource version on.
pub open spec fn watch_url(base: Seq<char>, uri: Seq<char>, resource_version: Seq<char>) -> Seq<
    char,
> {
    list_url(base, uri) + "?watch=1&resourceVersion="@ + resource_version
}

/// The patch document that takes or renews the lease: a test on the resource
/// version, then the holder and the time of acquisition.
pub open spec fn lease_patch_text(
    resource_version: Seq<char>,
    holder_identity: Seq<char>,
    acquire_time: Seq<char>,
) -> Seq<char> {
    json::array_text(
        seq![
            json::entry_text("test"@, "/metadata/resourceVersion"@, resource_version),
            json::entry_text("add"@, "/spec/holderIdentity"@, holder_identity),
            json::entry_text("add"@, "/spec/acquireTime"@, acquire_time),
        ],
    )
}

/// Writes the patch document of the lease from the time as text.
pub fn lease_patch_body(resource_version: &str, holder_identity: &str, acquire_time: &str) -> (r:
    String)
    ensures
        r@ == lease_patch_text(resource_version@, holder_identity@, acquire_time@),
{
    let mut entries: Vec<String> = Vec::new();
    entries.push(json::write_entry("test", "/metadata/resourceVersion", resource_version));
    entries.push(json::write_entry("add", "/spec/holderIdentity", holder_identity));
    entries.push(json::write_entry("add", "/spec/acquireTime", acquire_time));
    assert(entries.deep_view() =~= seq![
        json::entry_text("test"@, "/metadata/resourceVersion"@, resource_version@),
        json::entry_text("add"@, "/spec/holderIdentity"@, holder_identity@),
        json::entry_text("add"@, "/spec/acquireTime"@, acquire_time@),
    ]);
    json::write_array(&entries)
}

/// What identifies the caller to the API server and where that server is.
#[derive(Debug)]
pub struct K8sClient {
    token: String,
    k8s_service_host: String,
    k8s_service_port: u16,
}

/// What a [`K8sClient`] holds.
pub struct K8sClientView {
    pub token: Seq<char>,
    pub host: Seq<char>,
    pub port: u16,
}

impl View for K8sClient {
    type V = K8sClientView;

    closed spec fn view(&self) -> K8sClientView {
        K8sClientView {
            token: self.token@,
            host: self.k8s_service_host@,
            port: self.k8s_service_port,
        }
    }
}

impl Clone for K8sClient {
    fn clone(&self) -> (r: Self)
        ensures
            r@ == self@,
    {
        K8sClient {
            token: self.token.clone(),
            k8s_service_host: self.k8s_service_host.clone(),
            k8s_service_port: self.k8s_service_port,
        }
    }
}

impl K8sClientView {
    /// The address of the API server for this client.
    pub open spec fn base(self) -> Seq<char> {
        api_server_url(self.host, self.port)
    }
}

impl K8sClient {
    /// A client with the bearer token `token` for the server at `host` and
    /// `port`; an empty host stands for the in-cluster address.
    pub fn new(token: String, host: String, port: u16) -> (r: Self)
        ensures
            r@ == (K8sClientView { token: token@, host: host@, port }),
    {
        K8sClient { token, k8s_service_host: host, k8s_service_port: port }
    }

    /// The address of the API server.
    pub fn get_api_server_url(&self) -> (r: String)
        ensures
            r@ == self@.base(),
    {
        if self.k8s_service_host.as_str().is_empty() {
            String::from_str(API_SERVER)
        } else {
            let mut out = String::from_str("https://");
            out.append(self.k8s_service_host.as_str());
            out.append(":");
            out.append(u64_to_decimal(self.k8s_service_port as u64).as_str());
            out
        }
    }

    /// The headers that go with every request: the bearer token and the
    /// name of the agent.
    pub fn get_headers(&self) -> (r: Vec<(String, String)>)
        ensures
            r.deep_view() == seq![
                ("Authorization"@, "Bearer "@ + self@.token),
                ("User-Agent"@, "exposed-apps-controller"@),
            ],
    {
        let mut bearer = String::from_str("Bearer ");
        bearer.append(self.token.as_str());
        let mut headers: Vec<(String, String)> = Vec::new();
        headers.push((String::from_str("Authorization"), bearer));
        headers.push((String::from_str("User-Agent"), String::from_str("exposed-apps-controller")));
        assert(headers.deep_view() =~= seq![
            ("Authorization"@, "Bearer "@ + self@.token),
            ("User-Agent"@, "exposed-apps-controller"@),
        ]);
        headers
    }

    /// Decides what follows a response with `status` when `retries_left`
    /// attempts remain: a 401 is retried after a token refresh while attempts
    /// remain; every other response is returned as it is. A request starts with
    /// [`TOKEN_REFRESH_RETRIES`] attempts.
    pub fn send_with_retry(status: u16, retries_left: u32) -> (r: RetryStep)
        ensures
            r == retry_step(status, retries_left),
    {
        if status == 401 && retries_left > 0 {
            RetryStep::RefreshAndRetry {
                delay_secs: TOKEN_REFRESH_DELAY_SECS,
                retries_left: retries_left - 1,
            }
        } else {
            RetryStep::Return
        }
    }

    /// Create-or-update of a Deployment: given the outcome of the POST, a
    /// conflict asks for a PUT, and every other outcome is final.
    pub fn save_deployment(posted: Result<K8sObject<Deployment>, K8sClientError>) -> (r: SaveStep)
        ensures
            r@ == save_deployment_step(
                match posted {
                    Ok(d) => Ok(d@),
                    Err(e) => Err(e@),
                },
            ),
    {
        match posted {
            Err(K8sClientError::Conflict) => SaveStep::Update,
            other => SaveStep::Done(other),
        }
    }

    /// Replaces the bearer token by one read anew.
    pub fn refresh_token(&mut self, token: String)
        ensures
            final(self)@ == (K8sClientView { token: token@, ..old(self)@ }),
    {
        self.token = token;
    }

    /// Lists all `ExposedApp` objects.
    pub fn get_exposed_apps(&self) -> (r: HttpRequest)
        ensures
            r@ == get_request(list_url(self@.base(), EXPOSED_APPS_LIST@)),
    {
        self.get_all(EXPOSED_APPS_LIST)
    }

    /// Reads one `ExposedApp`.
    pub fn get_exposed_app(&self, name: &str, namespace: &str) -> (r: HttpRequest)
        ensures
            r@ == get_request(exposed_app_url(self@.base(), namespace@, name@)),
    {
        let mut url = self.get_api_server_url();
        url.append("/apis/stable.no-library.com/v1/namespaces/");
        url.append(namespace);
        url.append("/exposedapps/");
        url.append(name);
        HttpRequest { method: HttpMethod::Get, url, body: None, content_type: None }
    }

    /// Replaces the object `name` of a named API group by `payload`.
    pub fn put(
        &self,
        payload: String,
        namespace: &str,
        resource_type: &str,
        group: &str,
        version: &str,
        name: &str,
    ) -> (r: HttpRequest)
        ensures
            r@ == body_request(
                HttpMethod::Put,
                resource_url(self@.base(), group@, version@, namespace@, resource_type@, name@),
                payload@,
            ),
    {
        let mut url = self.collection(namespace, resource_type, group, version);
        url.append("/");
        url.append(name);
        self.put_with_url(payload, url)
    }

    fn collection(&self, namespace: &str, resource_type: &str, group: &str, version: &str) -> (r:
        String)
        ensures
            r@ == collection_url(self@.base(), group@, version@, namespace@, resource_type@),
    {
        let mut url = self.get_api_server_url();
        url.append("/apis/");
        url.append(group);
        url.append("/");
        url.append(version);
        url.append("/namespaces/");
        url.append(namespace);
        url.append("/");
        url.append(resource_type);
        url
    }

    fn put_with_url(&self, payload: String, url: String) -> (r: HttpRequest)
        ensures
            r@ == body_request(HttpMethod::Put, url@, payload@),
    {
        HttpRequest { method: HttpMethod::Put, url, body: Some(payload), content_type: None }
    }

    /// Creates an object of a named API group from `payload`.
    pub fn post(
        &self,
        payload: String,
        namespace: &str,
        resource_type: &str,
        group: &str,
        version: &str,
    ) -> (r: HttpRequest)
        ensures
            r@ == body_request(
                HttpMethod::Post,
                collection_url(self@.base(), group@, version@, namespace@, resource_type@),
                payload@,
            ),
    {
        let url = self.collection(namespace, resource_type, group, version);
        HttpRequest { method: HttpMethod::Post, url, body: Some(payload), content_type: None }
    }

    /// Replaces the Deployment `name` in `namespace` by `payload`.
    pub fn put_deployment(&self, namespace: &str, name: &str, payload: String) -> (r: HttpRequest)
        ensures
            r@ == body_request(
                HttpMethod::Put,
                resource_url(self@.base(), "apps"@, "v1"@, namespace@, "deployments"@, name@),
                payload@,
            ),
    {
        self.put(payload, namespace, "deployments", "apps", "v1", name)
    }

    /// Creates a Deployment in `namespace` from `payload`.
    pub fn post_deployment(&self, namespace: &str, payload: String) -> (r: HttpRequest)
        ensures
            r@ == body_request(
                HttpMethod::Post,
                collection_url(self@.base(), "apps"@, "v1"@, namespace@, "deployments"@),
                payload@,
            ),
    {
        self.post(payload, namespace, "deployments", "apps", "v1")
    }

    /// Creates or replaces the Service `name` in `namespace` by `payload`.
    pub fn put_service(&self, namespace: &str, name: &str, payload: String) -> (r: HttpRequest)
        ensures
            r@ == body_request(
                HttpMethod::Put,
                service_url(self@.base(), namespace@, name@),
                payload@,
            ),
    {
        let mut url = self.get_api_server_url();
        url.append("/api/v1/namespaces/");
        url.append(namespace);
        url.append("/services/");
        url.append(name);
        self.put_with_url(payload, url)
    }

    /// Opens a watch on the collection at `uri`, from `resource_version` on.
    pub fn watch(&self, uri: &str, resource_version: &str) -> (r: HttpRequest)
        ensures
            r@ == get_request(watch_url(self@.base(), uri@, resource_version@)),
    {
        let mut url = self.get_api_server_url();
        url.append("/");
        url.append(uri);
        url.append("?watch=1&resourceVersion=");
        url.append(resource_version);
        HttpRequest { method: HttpMethod::Get, url, body: None, content_type: None }
    }

    /// Opens a watch on all `ExposedApp` objects.
    pub fn watch_exposed_apps(&self, resource_version: &str) -> (r: HttpRequest)
        ensures
            r@ == get_request(watch_url(self@.base(), EXPOSED_APPS_LIST@, resource_version@)),
    {
        self.watch(EXPOSED_APPS_LIST, resource_version)
    }

    /// Lists the collection at `uri`.
    pub fn get_all(&self, uri: &str) -> (r: HttpRequest)
        ensures
            r@ == get_request(list_url(self@.base(), uri@)),
    {
        let mut url = self.get_api_server_url();
        url.append("/");
        url.append(uri);
        HttpRequest { method: HttpMethod::Get, url, body: None, content_type: None }
    }

    /// Reads one Lease.
    pub fn get_lease(&self, namespace: &str, name: &str) -> (r: HttpRequest)
        ensures
            r@ == get_request(lease_url(self@.base(), namespace@, name@)),
    {
        let url = self.lease(namespace, name);
        HttpRequest { method: HttpMethod::Get, url, body: None, content_type: None }
    }

    fn lease(&self, namespace: &str, name: &str) -> (r: String)
        ensures
            r@ == lease_url(self@.base(), namespace@, name@),
    {
        let mut url = self.get_api_server_url();
        url.append("/apis/coordination.k8s.io/v1/namespaces/");
        url.append(namespace);
        url.append("/leases/");
        url.append(name);
        url
    }

    /// Writes the status of the `ExposedApp` `name` in `namespace`; `payload`
    /// is the whole object.
    pub fn put_exposed_app_status(&self, namespace: &str, name: &str, payload: String) -> (r:
        HttpRequest)
        ensures
            r@ == body_request(
                HttpMethod::Put,
                exposed_app_status_url(self@.base(), namespace@, name@),
                payload@,
            ),
    {
        let mut url = self.get_api_server_url();
        url.append("/apis/stable.no-library.com/v1/namespaces/");
        url.append(namespace);
        url.append("/exposedapps/");
        url.append(name);
        url.append("/status");
        self.put_with_url(payload, url)
    }

    /// Creates an event in `namespace` from `payload`.
    pub fn post_event(&self, namespace: &str, payload: String) -> (r: HttpRequest)
        ensures
            r@ == body_request(HttpMethod::Post, events_url(self@.base(), namespace@), payload@),
    {
        let mut url = self.get_api_server_url();
        url.append("/apis/events.k8s.io/v1/namespaces/");
        url.append(namespace);
        url.append("/events");
        HttpRequest { method: HttpMethod::Post, url, body: Some(payload), content_type: None }
    }

    /// The request that takes or renews the lease `name` in `namespace` for
    /// `holder_identity`, provided that the lease is still at
    /// `resource_version`; `acquire_time` is the time already written as text.
    pub fn patch_lease_at(
        &self,
        namespace: &str,
        name: &str,
        resource_version: &str,
        holder_identity: &str,
        acquire_time: &str,
    ) -> (r: HttpRequest)
        ensures
            r@ == lease_patch_request(
                self@.base(),
                namespace@,
                name@,
                resource_version@,
                holder_identity@,
                acquire_time@,
            ),
    {
        let body = lease_patch_body(resource_version, holder_identity, acquire_time);
        HttpRequest {
            method: HttpMethod::Patch,
            url: self.lease(namespace, name),
            body: Some(body),
            content_type: Some(String::from_str("application/json-patch+json")),
        }
    }

    /// The request that takes or renews the lease at the instant
    /// `acquire_time`, or the error where that instant cannot be written as
    /// text.
    pub fn patch_lease(
        &self,
        namespace: &str,
        name: &str,
        resource_version: &str,
        holder_identity: &str,
        acquire_time: MicroTime,
    ) -> (r: Result<HttpRequest, TimeError>)
        ensures
            match offset_date_time_parser::formatted(acquire_time) {
                Ok(text) => r is Ok && r->Ok_0@ == lease_patch_request(
                    self@.base(),
                    namespace@,
                    name@,
                    resource_version@,
                    holder_identity@,
                    text,
                ),
                Err(e) => r == Err::<HttpRequest, TimeError>(e),
            },
    {
        match offset_date_time_parser::format(acquire_time) {
            Ok(text) => Ok(
                self.patch_lease_at(
                    namespace,
                    name,
                    resource_version,
                    holder_identity,
                    text.as_str(),
                ),
            ),
            Err(e) => Err(e),
        }
    }
}

/// The request that takes or renews a lease.
pub open spec fn lease_patch_request(
    base: Seq<char>,
    namespace: Seq<char>,
    name: Seq<char>,
    resource_version: Seq<char>,
    holder_identity: Seq<char>,
    acquire_time: Seq<char>,
) -> HttpRequestView {
    HttpRequestView {
        method: HttpMethod::Patch,
        url: lease_url(base, namespace, name),
        body: Some(lease_patch_text(resource_version, holder_identity, acquire_time)),
        content_type: Some("application/json-patch+json"@),
    }
}

} // verus!
