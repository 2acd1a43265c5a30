//! Admission reviews: what a webhook is asked, what it answers, and the two
//! webhooks that validate and modify pods.

use vstd::prelude::*;
use base64::Engine;
use crate::json;
use crate::labels::Labels;
use crate::text::concat3;

verus! {

broadcast use crate::labels::Labels::lemma_view_is_deep_view;

/// The API version of an admission review.
pub const API_VERSION: &'static str = "admission.k8s.io/v1";

/// The kind of an admission review.
pub const KIND: &'static str = "AdmissionReview";

/// The patch type of a response that carries a JSON patch.
pub const PATCH_TYPE: &'static str = "JSONPatch";

/// The annotation that a pod must carry to be admitted by [`validate`].
pub const EXPECTED_ANNOTATION: &'static str = "app.kubernetes.io/instance";

/// The annotation that [`modify`] adds, as a JSON pointer token.
pub const ANNOTATION_KEY: &'static str = "kubernetes.io~1description";

/// The status code of a refusal.
pub const REFUSED: u32 = 400;

/// The metadata of a pod under review.
#[derive(Debug)]
pub struct Metadata {
    pub annotations: Option<Labels>,
}

/// What a [`Metadata`] holds.
pub struct MetadataView {
    pub annotations: Option<Map<Seq<char>, Seq<char>>>,
}

impl DeepView for Metadata {
    type V = MetadataView;

    open spec fn deep_view(&self) -> MetadataView {
        MetadataView { annotations: self.annotations.deep_view() }
    }
}

impl View for Metadata {
    type V = MetadataView;

    open spec fn view(&self) -> MetadataView {
        self.deep_view()
    }
}

impl Clone for Metadata {
    fn clone(&self) -> (r: Self)
        ensures
            r@ == self@,
    {
        Metadata { annotations: self.annotations.clone() }
    }
}

/// A pod under review.
#[derive(Debug)]
pub struct Pod {
    pub metadata: Metadata,
}

/// What a [`Pod`] holds.
pub struct PodView {
    pub metadata: MetadataView,
}

impl DeepView for Pod {
    type V = PodView;

    open spec fn deep_view(&self) -> PodView {
        PodView { metadata: self.metadata.deep_view() }
    }
}

impl View for Pod {
    type V = PodView;

    open spec fn view(&self) -> PodView {
        self.deep_view()
    }
}

impl Clone for Pod {
    fn clone(&self) -> (r: Self)
        ensures
            r@ == self@,
    {
        Pod { metadata: self.metadata.clone() }
    }
}

/// The request of an admission review.
#[derive(Debug)]
pub struct AdmissionReviewRequest {
    pub uid: String,
    pub object: Pod,
}

/// What an [`AdmissionReviewRequest`] holds.
pub struct AdmissionReviewRequestView {
    pub uid: Seq<char>,
    pub object: PodView,
}

impl DeepView for AdmissionReviewRequest {
    type V = AdmissionReviewRequestView;

    open spec fn deep_view(&self) -> AdmissionReviewRequestView {
        AdmissionReviewRequestView { uid: self.uid.deep_view(), object: self.object.deep_view() }
    }
}

impl View for AdmissionReviewRequest {
    type V = AdmissionReviewRequestView;

    open spec fn view(&self) -> AdmissionReviewRequestView {
        self.deep_view()
    }
}

impl Clone for AdmissionReviewRequest {
    fn clone(&self) -> (r: Self)
        ensures
            r@ == self@,
    {
        AdmissionReviewRequest { uid: self.uid.clone(), object: self.object.clone() }
    }
}

/// The status of a response that explains itself.
#[derive(Debug)]
pub struct AdmissionReviewResponseStatus {
    pub code: u32,
    pub message: String,
}

/// What an [`AdmissionReviewResponseStatus`] holds.
pub struct AdmissionReviewResponseStatusView {
    pub code: u32,
    pub message: Seq<char>,
}

impl DeepView for AdmissionReviewResponseStatus {
    type V = AdmissionReviewResponseStatusView;

    open spec fn deep_view(&self) -> AdmissionReviewResponseStatusView {
        AdmissionReviewResponseStatusView { code: self.code, message: self.message.deep_view() }
    }
}

/// The response of an admission review.
#[derive(Debug)]
pub struct AdmissionReviewResponse {
    pub uid: String,
    pub allowed: bool,
    pub status: Option<AdmissionReviewResponseStatus>,
    pub patch: Option<String>,
    pub patch_type: Option<String>,
}

/// What an [`AdmissionReviewResponse`] holds.
pub struct AdmissionReviewResponseView {
    pub uid: Seq<char>,
    pub allowed: bool,
    pub status: Option<AdmissionReviewResponseStatusView>,
    pub patch: Option<Seq<char>>,
    pub patch_type: Option<Seq<char>>,
}

impl DeepView for AdmissionReviewResponse {
    type V = AdmissionReviewResponseView;

    open spec fn deep_view(&self) -> AdmissionReviewResponseView {
        AdmissionReviewResponseView {
            uid: self.uid.deep_view(),
            allowed: self.allowed,
            status: self.status.deep_view(),
            patch: self.patch.deep_view(),
            patch_type: self.patch_type.deep_view(),
        }
    }
}

/// An admission review: a request on its way in, a response on its way out.
#[derive(Debug)]
pub struct AdmissionReview {
    pub api_version: String,
    pub kind: String,
    pub request: Option<AdmissionReviewRequest>,
    pub response: Option<AdmissionReviewResponse>,
}

/// What an [`AdmissionReview`] holds.
pub struct AdmissionReviewView {
    pub api_version: Seq<char>,
    pub kind: Seq<char>,
    pub request: Option<AdmissionReviewRequestView>,
    pub response: Option<AdmissionReviewResponseView>,
}

impl DeepView for AdmissionReview {
    type V = AdmissionReviewView;

    open spec fn deep_view(&self) -> AdmissionReviewView {
        AdmissionReviewView {
            api_version: self.api_version.deep_view(),
            kind: self.kind.deep_view(),
            request: self.request.deep_view(),
            response: self.response.deep_view(),
        }
    }
}

impl View for AdmissionReview {
    type V = AdmissionReviewView;

    open spec fn view(&self) -> AdmissionReviewView {
        self.deep_view()
    }
}

/// The operation of a patch entry.
#[derive(Clone, Copy, PartialEq, Eq, Structural, Debug)]
pub enum JsonPatchOperation {
    Add,
}

impl DeepView for JsonPatchOperation {
    type V = JsonPatchOperation;

    open spec fn deep_view(&self) -> JsonPatchOperation {
        *self
    }
}

/// One entry of a JSON patch.
#[derive(Debug)]
pub struct JsonPatchEntry {
    pub op: JsonPatchOperation,
    pub path: String,
    pub value: String,
}

/// What a [`JsonPatchEntry`] holds.
pub struct JsonPatchEntryView {
    pub op: JsonPatchOperation,
    pub path: Seq<char>,
    pub value: Seq<char>,
}

impl DeepView for JsonPatchEntry {
    type V = JsonPatchEntryView;

    open spec fn deep_view(&self) -> JsonPatchEntryView {
        JsonPatchEntryView {
            op: self.op,
            path: self.path.deep_view(),
            value: self.value.deep_view(),
        }
    }
}

impl View for JsonPatchEntry {
    type V = JsonPatchEntryView;

    open spec fn view(&self) -> JsonPatchEntryView {
        self.deep_view()
    }
}

/// The review without request and response.
pub open spec fn empty_review() -> AdmissionReviewView {
    AdmissionReviewView { api_version: API_VERSION@, kind: KIND@, request: None, response: None }
}

/// The review that carries `response`.
pub open spec fn review_of(response: AdmissionReviewResponseView) -> AdmissionReviewView {
    AdmissionReviewView { response: Some(response), ..empty_review() }
}

/// The name of an operation in a patch document.
pub open spec fn operation_name(op: JsonPatchOperation) -> Seq<char> {
    match op {
        JsonPatchOperation::Add => "add"@,
    }
}

/// A patch entry as JSON text.
pub open spec fn entry_json(entry: JsonPatchEntryView) -> Seq<char> {
    json::entry_text(operation_name(entry.op), entry.path, entry.value)
}

/// A list of patch entries as JSON text: the array of the entries in order.
pub open spec fn patch_json(operations: Seq<JsonPatchEntryView>) -> Seq<char> {
    json::array_text(operations.map_values(|e: JsonPatchEntryView| entry_json(e)))
}

/// The base64 text of the UTF-8 bytes of `text`, in the standard alphabet
/// with padding.
pub uninterp spec fn base64_standard(text: Seq<char>) -> Seq<char>;

/// Calls `encode` of the engine `general_purpose::STANDARD` of `base64` on
/// the bytes of `text`. The result depends on the text alone.
#[verifier::external_body]
fn encode_base64(text: &str) -> (r: String)
    ensures
        r@ == base64_standard(text@),
{
    base64::engine::general_purpose::STANDARD.encode(text)
}

impl Default for AdmissionReview {
    fn default() -> (r: Self)
        ensures
            r@ == empty_review(),
    {
        AdmissionReview {
            api_version: String::from_str(API_VERSION),
            kind: String::from_str(KIND),
            request: None,
            response: None,
        }
    }
}

impl AdmissionReview {
    fn with_response(response: AdmissionReviewResponse) -> (r: Self)
        ensures
            r@ == review_of(response.deep_view()),
    {
        let mut review = AdmissionReview::default();
        review.response = Some(response);
        review
    }

    /// The response to the request `uuid` that allows or refuses it and says
    /// why, with a status code and a message.
    pub fn response_with_status(uuid: &str, allowed: bool, code: u32, message: &str) -> (r: Self)
        ensures
            r@ == review_of(
                AdmissionReviewResponseView {
                    uid: uuid@,
                    allowed,
                    status: Some(AdmissionReviewResponseStatusView { code, message: message@ }),
                    patch: None,
                    patch_type: None,
                },
            ),
    {
        Self::with_response(
            AdmissionReviewResponse {
                uid: String::from_str(uuid),
                allowed,
                status: Some(
                    AdmissionReviewResponseStatus { code, message: String::from_str(message) },
                ),
                patch: None,
                patch_type: None,
            },
        )
    }

    /// The response to the request `uuid` that allows it and carries a
    /// patch already encoded.
    pub fn response_with_encoded_patch(uuid: &str, patch: String) -> (r: Self)
        ensures
            r@ == review_of(
                AdmissionReviewResponseView {
                    uid: uuid@,
                    allowed: true,
                    status: None,
                    patch: Some(patch@),
                    patch_type: Some(PATCH_TYPE@),
                },
            ),
    {
        Self::with_response(
            AdmissionReviewResponse {
                uid: String::from_str(uuid),
                allowed: true,
                status: None,
                patch: Some(patch),
                patch_type: Some(String::from_str(PATCH_TYPE)),
            },
        )
    }

    /// The operations as the text of a JSON patch.
    pub fn patch_document(operations: &Vec<JsonPatchEntry>) -> (r: String)
        ensures
            r@ == patch_json(operations.deep_view()),
    {
        let ghost wanted = operations.deep_view().map_values(|e: JsonPatchEntryView| entry_json(e));
        let mut texts: Vec<String> = Vec::new();
        let mut i: usize = 0;
        while i < operations.len()
            invariant
                i <= operations.len(),
                texts.len() == i,
                wanted == operations.deep_view().map_values(|e: JsonPatchEntryView| entry_json(e)),
                forall|j: int| 0 <= j < i ==> (#[trigger] texts[j])@ == wanted[j],
            decreases operations.len() - i,
        {
            let op = match operations[i].op {
                JsonPatchOperation::Add => "add",
            };
            let text = json::write_entry(
                op,
                operations[i].path.as_str(),
                operations[i].value.as_str(),
            );
            assert(text@ == wanted[i as int]);
            texts.push(text);
            i += 1;
        }
        assert(texts.deep_view() =~= wanted);
        json::write_array(&texts)
    }

    /// The response to the request `uuid` that allows it and asks for the
    /// changes `operations`: they go into the response as a JSON patch in
    /// base64.
    pub fn response_with_patch(uuid: &str, operations: Vec<JsonPatchEntry>) -> (r: Self)
        ensures
            r@ == review_of(
                AdmissionReviewResponseView {
                    uid: uuid@,
                    allowed: true,
                    status: None,
                    patch: Some(base64_standard(patch_json(operations.deep_view()))),
                    patch_type: Some(PATCH_TYPE@),
                },
            ),
    {
        let document = Self::patch_document(&operations);
        let encoded = encode_base64(document.as_str());
        Self::response_with_encoded_patch(uuid, encoded)
    }

    /// The response to the request `uuid` that allows or refuses it without
    /// more.
    pub fn response(uuid: &str, allowed: bool) -> (r: Self)
        ensures
            r@ == review_of(
                AdmissionReviewResponseView {
                    uid: uuid@,
                    allowed,
                    status: None,
                    patch: None,
                    patch_type: None,
                },
            ),
    {
        Self::with_response(
            AdmissionReviewResponse {
                uid: String::from_str(uuid),
                allowed,
                status: None,
                patch: None,
                patch_type: None,
            },
        )
    }
}

/// The refusal of the request `uid` with `message`.
pub open spec fn refusal(uid: Seq<char>, message: Seq<char>) -> AdmissionReviewView {
    review_of(
        AdmissionReviewResponseView {
            uid,
            allowed: false,
            status: Some(AdmissionReviewResponseStatusView { code: REFUSED, message }),
            patch: None,
            patch_type: None,
        },
    )
}

/// The admission of the request `uid`.
pub open spec fn admission(uid: Seq<char>) -> AdmissionReviewView {
    review_of(
        AdmissionReviewResponseView {
            uid,
            allowed: true,
            status: None,
            patch: None,
            patch_type: None,
        },
    )
}

/// What [`validate`] answers to `request`.
pub open spec fn validation(request: AdmissionReviewRequestView) -> AdmissionReviewView {
    match request.object.metadata.annotations {
        Some(annotations) => {
            if annotations.dom().contains(EXPECTED_ANNOTATION@) {
                admission(request.uid)
            } else {
                refusal(
                    request.uid,
                    "Annotation "@ + EXPECTED_ANNOTATION@ + " not found"@,
                )
            }
        },
        None => refusal(request.uid, "Annotations not found"@),
    }
}

/// Lets every pod in.
pub fn accept(review: &AdmissionReview) -> (r: AdmissionReview)
    requires
        review@.request is Some,
    ensures
        r@ == admission(review@.request->0.uid),
{
    match &review.request {
        Some(request) => AdmissionReview::response(request.uid.as_str(), true),
        None => AdmissionReview::default(),
    }
}

/// Admits a pod that carries the expected annotation and refuses, with the
/// reason, one that does not or that has no annotations at all.
pub fn validate(review: &AdmissionReview) -> (r: AdmissionReview)
    requires
        review@.request is Some,
    ensures
        r@ == validation(review@.request->0),
{
    match &review.request {
        Some(request) => match &request.object.metadata.annotations {
            Some(annotations) => {
                if annotations.contains_key(EXPECTED_ANNOTATION) {
                    AdmissionReview::response(request.uid.as_str(), true)
                } else {
                    let message = concat3("Annotation ", EXPECTED_ANNOTATION, " not found");
                    AdmissionReview::response_with_status(
                        request.uid.as_str(),
                        false,
                        REFUSED,
                        message.as_str(),
                    )
                }
            },
            None => AdmissionReview::response_with_status(
                request.uid.as_str(),
                false,
                REFUSED,
                "Annotations not found",
            ),
        },
        None => AdmissionReview::default(),
    }
}

/// The one change that [`modify`] asks for.
pub open spec fn modification() -> Seq<JsonPatchEntryView> {
    seq![
        JsonPatchEntryView {
            op: JsonPatchOperation::Add,
            path: "/metadata/annotations/"@ + ANNOTATION_KEY@,
            value: "Modified by Actix Webhooks"@,
        },
    ]
}

/// Admits every pod and asks that the description annotation be added to
/// it.
pub fn modify(review: &AdmissionReview) -> (r: AdmissionReview)
    requires
        review@.request is Some,
    ensures
        r@ == review_of(
            AdmissionReviewResponseView {
                uid: review@.request->0.uid,
                allowed: true,
                status: None,
                patch: Some(base64_standard(patch_json(modification()))),
                patch_type: Some(PATCH_TYPE@),
            },
        ),
{
    match &review.request {
        Some(request) => {
            let mut path = String::from_str("/metadata/annotations/");
            path.append(ANNOTATION_KEY);
            let mut operations: Vec<JsonPatchEntry> = Vec::new();
            operations.push(
                JsonPatchEntry {
                    op: JsonPatchOperation::Add,
                    path,
                    value: String::from_str("Modified by Actix Webhooks"),
                },
            );
            assert(operations.deep_view() =~= modification());
            AdmissionReview::response_with_patch(request.uid.as_str(), operations)
        },
        None => AdmissionReview::default(),
    }
}

} // verus!
