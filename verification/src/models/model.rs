use vstd::prelude::*;

use crate::codec::{Request, Response};
use crate::json::{Json, JsonValue, Member, Optional};

verus! {

#[derive(Debug)]
pub struct ModelSyncRequest {
    pub name: String,
    pub insecure: Option<bool>,
    pub stream: Option<bool>,
}

/// How far a download has come.
#[derive(Debug)]
pub struct ModelDownloadStatus {
    pub digest: String,
    pub total: usize,
    pub completed: Option<usize>,
}

/// The mathematical value of a [`ModelDownloadStatus`].
pub struct ModelDownloadStatusView {
    pub digest: Seq<char>,
    pub total: usize,
    pub completed: Option<usize>,
}

impl DeepView for ModelDownloadStatus {
    type V = ModelDownloadStatusView;

    open spec fn deep_view(&self) -> ModelDownloadStatusView {
        ModelDownloadStatusView {
            digest: self.digest@,
            total: self.total,
            completed: self.completed,
        }
    }
}

impl ModelDownloadStatus {
    /// A copy of this record.
    pub fn duplicate(&self) -> (r: Self)
        ensures
            r.deep_view() == self.deep_view(),
    {
        ModelDownloadStatus {
            digest: self.digest.clone(),
            total: self.total,
            completed: self.completed,
        }
    }

    /// The progress fields of a document: a string under `digest`, a byte
    /// count under `total`, and under `completed` a byte count or nothing.
    pub open spec fn shape(doc: JsonValue) -> Option<ModelDownloadStatusView> {
        if doc.text_at("digest"@) is Some && doc.unsigned_at("total"@, usize::MAX as nat) is Some
            && doc.unsigned_fits("completed"@, usize::MAX as nat) {
            Some(
                ModelDownloadStatusView {
                    digest: doc.text_at("digest"@)->0,
                    total: doc.unsigned_at("total"@, usize::MAX as nat)->0 as usize,
                    completed: match doc.unsigned_at("completed"@, usize::MAX as nat) {
                        Some(n) => Some(n as usize),
                        None => None,
                    },
                },
            )
        } else {
            None
        }
    }

    /// Reads the progress fields out of a document.
    pub fn from_json(doc: &Json) -> (r: Option<Self>)
        ensures
            r.deep_view() == Self::shape(doc.deep_view()),
    {
        let digest = match doc.text_at("digest") {
            Some(s) => s,
            None => return None,
        };
        let total = match doc.usize_at("total") {
            Some(n) => n,
            None => return None,
        };
        let completed = match doc.optional_usize_at("completed") {
            Optional::Absent => None,
            Optional::Present(n) => Some(n),
            Optional::Unfit => return None,
        };
        Some(ModelDownloadStatus { digest, total, completed })
    }
}

/// One record of a pull: a status message, with the download's progress
/// where the record reports it.
#[derive(Debug)]
pub struct ModelPullStatus {
    pub status: String,
    pub download_info: Option<ModelDownloadStatus>,
}

/// The mathematical value of a [`ModelPullStatus`].
pub struct ModelPullStatusView {
    pub status: Seq<char>,
    pub download_info: Option<ModelDownloadStatusView>,
}

impl DeepView for ModelPullStatus {
    type V = ModelPullStatusView;

    open spec fn deep_view(&self) -> ModelPullStatusView {
        ModelPullStatusView {
            status: self.status@,
            download_info: self.download_info.deep_view(),
        }
    }
}

impl ModelPullStatus {
    /// The progress shape: a status message together with the progress
    /// fields.
    pub open spec fn progress_shape(doc: JsonValue) -> Option<ModelPullStatusView> {
        match (doc.text_at("status"@), ModelDownloadStatus::shape(doc)) {
            (Some(status), Some(info)) => Some(
                ModelPullStatusView { status, download_info: Some(info) },
            ),
            _ => None,
        }
    }

    /// The plain status shape: a status message and nothing that counts.
    pub open spec fn plain_shape(doc: JsonValue) -> Option<ModelPullStatusView> {
        match doc.text_at("status"@) {
            Some(status) => Some(ModelPullStatusView { status, download_info: None }),
            None => None,
        }
    }

    /// Variant priority: a document that holds a status message and the
    /// progress fields as well is read as a progress record, never as a
    /// plain status message, and so is not final.
    pub proof fn lemma_progress_comes_first(doc: JsonValue)
        requires
            doc.text_at("status"@) is Some,
            ModelDownloadStatus::shape(doc) is Some,
        ensures
            <Self as Response>::shape(doc) == Self::progress_shape(doc),
            <Self as Response>::shape(doc) matches Some(v) && v.download_info is Some
                && !<Self as Response>::terminal(v),
    {
    }

    /// A document that holds a status message and lacks a progress field is
    /// read as a plain status message, and is final.
    pub proof fn lemma_plain_is_the_fallback(doc: JsonValue)
        requires
            doc.text_at("status"@) is Some,
            ModelDownloadStatus::shape(doc) is None,
        ensures
            <Self as Response>::shape(doc) == Self::plain_shape(doc),
            <Self as Response>::shape(doc) matches Some(v) && v.download_info is None
                && <Self as Response>::terminal(v),
    {
    }

    /// Reads a document of the progress shape.
    pub fn progress(doc: &Json) -> (r: Option<Self>)
        ensures
            r.deep_view() == Self::progress_shape(doc.deep_view()),
    {
        let status = match doc.text_at("status") {
            Some(s) => s,
            None => return None,
        };
        match ModelDownloadStatus::from_json(doc) {
            Some(info) => Some(ModelPullStatus { status, download_info: Some(info) }),
            None => None,
        }
    }

    /// Reads a document of the plain status shape.
    pub fn plain(doc: &Json) -> (r: Option<Self>)
        ensures
            r.deep_view() == Self::plain_shape(doc.deep_view()),
    {
        match doc.text_at("status") {
            Some(status) => Some(ModelPullStatus { status, download_info: None }),
            None => None,
        }
    }
}

impl Response for ModelPullStatus {
    /// The progress shape is tried first, the plain status shape second:
    /// the plain shape asks for less, and tried first would hide the
    /// progress of every record.
    open spec fn shape(doc: JsonValue) -> Option<ModelPullStatusView> {
        match Self::progress_shape(doc) {
            Some(v) => Some(v),
            None => Self::plain_shape(doc),
        }
    }

    /// A record of the plain status shape is final; a progress record never
    /// is.
    open spec fn terminal(value: ModelPullStatusView) -> bool {
        value.download_info is None
    }

    fn from_json(doc: &Json) -> (r: Option<Self>) {
        match Self::progress(doc) {
            Some(v) => Some(v),
            None => Self::plain(doc),
        }
    }

    fn is_terminal(&self) -> (b: bool) {
        self.download_info.is_none()
    }

    fn duplicate(&self) -> (r: Self) {
        let download_info = match &self.download_info {
            Some(info) => Some(info.duplicate()),
            None => None,
        };
        ModelPullStatus { status: self.status.clone(), download_info }
    }
}

/// How large an upload is.
#[derive(Debug)]
pub struct ModelUploadStatus {
    pub digest: String,
    pub total: usize,
}

/// The mathematical value of a [`ModelUploadStatus`].
pub struct ModelUploadStatusView {
    pub digest: Seq<char>,
    pub total: usize,
}

impl DeepView for ModelUploadStatus {
    type V = ModelUploadStatusView;

    open spec fn deep_view(&self) -> ModelUploadStatusView {
        ModelUploadStatusView { digest: self.digest@, total: self.total }
    }
}

impl ModelUploadStatus {
    /// The progress fields of a document: a string under `digest` and a
    /// byte count under `total`.
    pub open spec fn shape(doc: JsonValue) -> Option<ModelUploadStatusView> {
        match (doc.text_at("digest"@), doc.unsigned_at("total"@, usize::MAX as nat)) {
            (Some(digest), Some(total)) => Some(
                ModelUploadStatusView { digest, total: total as usize },
            ),
            _ => None,
        }
    }

    /// Reads the progress fields out of a document.
    pub fn from_json(doc: &Json) -> (r: Option<Self>)
        ensures
            r.deep_view() == Self::shape(doc.deep_view()),
    {
        let digest = match doc.text_at("digest") {
            Some(s) => s,
            None => return None,
        };
        match doc.usize_at("total") {
            Some(total) => Some(ModelUploadStatus { digest, total }),
            None => None,
        }
    }

    /// A copy of this record.
    pub fn duplicate(&self) -> (r: Self)
        ensures
            r.deep_view() == self.deep_view(),
    {
        ModelUploadStatus { digest: self.digest.clone(), total: self.total }
    }
}

/// One record of a push: a status message, with the upload's progress
/// where the record reports it.
#[derive(Debug)]
pub struct ModelPushStatus {
    pub status: String,
    pub upload_info: Option<ModelUploadStatus>,
}

/// The mathematical value of a [`ModelPushStatus`].
pub struct ModelPushStatusView {
    pub status: Seq<char>,
    pub upload_info: Option<ModelUploadStatusView>,
}

impl DeepView for ModelPushStatus {
    type V = ModelPushStatusView;

    open spec fn deep_view(&self) -> ModelPushStatusView {
        ModelPushStatusView { status: self.status@, upload_info: self.upload_info.deep_view() }
    }
}

impl ModelPushStatus {
    /// The progress shape: a status message together with the progress
    /// fields.
    pub open spec fn progress_shape(doc: JsonValue) -> Option<ModelPushStatusView> {
        match (doc.text_at("status"@), ModelUploadStatus::shape(doc)) {
            (Some(status), Some(info)) => Some(
                ModelPushStatusView { status, upload_info: Some(info) },
            ),
            _ => None,
        }
    }

    /// The plain status shape: a status message and nothing that counts.
    pub open spec fn plain_shape(doc: JsonValue) -> Option<ModelPushStatusView> {
        match doc.text_at("status"@) {
            Some(status) => Some(ModelPushStatusView { status, upload_info: None }),
            None => None,
        }
    }

    /// Variant priority: a document that holds a status message and the
    /// progress fields as well is read as a progress record, never as a
    /// plain status message, and so is not final.
    pub proof fn lemma_progress_comes_first(doc: JsonValue)
        requires
            doc.text_at("status"@) is Some,
            ModelUploadStatus::shape(doc) is Some,
        ensures
            <Self as Response>::shape(doc) == Self::progress_shape(doc),
            <Self as Response>::shape(doc) matches Some(v) && v.upload_info is Some
                && !<Self as Response>::terminal(v),
    {
    }

    /// A document that holds a status message and lacks a progress field is
    /// read as a plain status message, and is final.
    pub proof fn lemma_plain_is_the_fallback(doc: JsonValue)
        requires
            doc.text_at("status"@) is Some,
            ModelUploadStatus::shape(doc) is None,
        ensures
            <Self as Response>::shape(doc) == Self::plain_shape(doc),
            <Self as Response>::shape(doc) matches Some(v) && v.upload_info is None
                && <Self as Response>::terminal(v),
    {
    }

    /// Reads a document of the progress shape.
    pub fn progress(doc: &Json) -> (r: Option<Self>)
        ensures
            r.deep_view() == Self::progress_shape(doc.deep_view()),
    {
        let status = match doc.text_at("status") {
            Some(s) => s,
            None => return None,
        };
        match ModelUploadStatus::from_json(doc) {
            Some(info) => Some(ModelPushStatus { status, upload_info: Some(info) }),
            None => None,
        }
    }

    /// Reads a document of the plain status shape.
    pub fn plain(doc: &Json) -> (r: Option<Self>)
        ensures
            r.deep_view() == Self::plain_shape(doc.deep_view()),
    {
        match doc.text_at("status") {
            Some(status) => Some(ModelPushStatus { status, upload_info: None }),
            None => None,
        }
    }
}

impl Response for ModelPushStatus {
    /// The progress shape is tried first, the plain status shape second.
    open spec fn shape(doc: JsonValue) -> Option<ModelPushStatusView> {
        match Self::progress_shape(doc) {
            Some(v) => Some(v),
            None => Self::plain_shape(doc),
        }
    }

    /// A record of the plain status shape is final; a progress record never
    /// is.
    open spec fn terminal(value: ModelPushStatusView) -> bool {
        value.upload_info is None
    }

    fn from_json(doc: &Json) -> (r: Option<Self>) {
        match Self::progress(doc) {
            Some(v) => Some(v),
            None => Self::plain(doc),
        }
    }

    fn is_terminal(&self) -> (b: bool) {
        self.upload_info.is_none()
    }

    fn duplicate(&self) -> (r: Self) {
        let upload_info = match &self.upload_info {
            Some(info) => Some(info.duplicate()),
            None => None,
        };
        ModelPushStatus { status: self.status.clone(), upload_info }
    }
}

impl Request for ModelSyncRequest {
    open spec fn flag(&self) -> Option<bool> {
        self.stream
    }

    fn stream(&self) -> (r: Option<bool>) {
        self.stream
    }
}

#[derive(Debug)]
pub struct ModelDetails {
    pub parent_model: Option<String>,
    pub format: String,
    pub family: String,
    pub families: Option<Vec<String>>,
    pub parameter_size: String,
    pub quantization_level: String,
}

#[derive(Debug)]
pub struct ModelShowRequest {
    pub name: String,
    pub verbose: Option<bool>,
}

#[derive(Debug)]
pub struct ModelCopyRequest {
    pub source: String,
    pub destination: String,
}

#[derive(Debug)]
pub struct ModelDeletionRequest {
    pub name: String,
}

impl ModelSyncRequest {
    /// The request as a JSON document: its fields in order, `null` for a
    /// field that is not set.
    pub open spec fn json(&self) -> JsonValue {
        JsonValue::Object(
            seq![
                JsonValue::entry("name"@, JsonValue::Text(self.name@)),
                JsonValue::entry("insecure"@, JsonValue::optional_bool(self.insecure)),
                JsonValue::entry("stream"@, JsonValue::optional_bool(self.stream)),
            ],
        )
    }

    /// The document of the request is well-formed: no name stands twice in it,
    /// so nothing is lost when it is written.
    pub proof fn lemma_json_is_well_formed(&self)
        ensures
            self.json().well_formed(),
    {
        reveal_strlit("name");
        reveal_strlit("insecure");
        reveal_strlit("stream");
        reveal_with_fuel(JsonValue::well_formed, 3);
        let members = self.json()->Object_0;
        assert(members.len() == 3);
        assert forall|i: int, j: int| 0 <= i < j < members.len() implies (
        #[trigger] members[i]).name != (#[trigger] members[j]).name by {
            assert(members[i].name.len() != members[j].name.len() || members[i].name[0]
                != members[j].name[0] || members[i].name[1] != members[j].name[1]);
        }
    }

    /// Encodes the request as a JSON document.
    pub fn to_json(&self) -> (doc: Json)
        ensures
            doc.deep_view() == self.json(),
    {
        let mut members: Vec<Member> = Vec::new();
        members.push(Member::new("name", Json::text(self.name.as_str())));
        members.push(Member::new("insecure", Json::optional_bool(self.insecure)));
        members.push(Member::new("stream", Json::optional_bool(self.stream)));
        assert(members.deep_view() =~= self.json()->Object_0);
        Json::object(members)
    }
}

impl ModelShowRequest {
    /// The request as a JSON document: its fields in order, `null` for a
    /// field that is not set.
    pub open spec fn json(&self) -> JsonValue {
        JsonValue::Object(
            seq![
                JsonValue::entry("name"@, JsonValue::Text(self.name@)),
                JsonValue::entry("verbose"@, JsonValue::optional_bool(self.verbose)),
            ],
        )
    }

    /// The document of the request is well-formed: no name stands twice in it,
    /// so nothing is lost when it is written.
    pub proof fn lemma_json_is_well_formed(&self)
        ensures
            self.json().well_formed(),
    {
        reveal_strlit("name");
        reveal_strlit("verbose");
        reveal_with_fuel(JsonValue::well_formed, 3);
        let members = self.json()->Object_0;
        assert(members.len() == 2);
        assert forall|i: int, j: int| 0 <= i < j < members.len() implies (
        #[trigger] members[i]).name != (#[trigger] members[j]).name by {
            assert(members[i].name.len() != members[j].name.len() || members[i].name[0]
                != members[j].name[0] || members[i].name[1] != members[j].name[1]);
        }
    }

    /// Encodes the request as a JSON document.
    pub fn to_json(&self) -> (doc: Json)
        ensures
            doc.deep_view() == self.json(),
    {
        let mut members: Vec<Member> = Vec::new();
        members.push(Member::new("name", Json::text(self.name.as_str())));
        members.push(Member::new("verbose", Json::optional_bool(self.verbose)));
        assert(members.deep_view() =~= self.json()->Object_0);
        Json::object(members)
    }
}

impl ModelCopyRequest {
    /// The request as a JSON document: its fields in order.
    pub open spec fn json(&self) -> JsonValue {
        JsonValue::Object(
            seq![
                JsonValue::entry("source"@, JsonValue::Text(self.source@)),
                JsonValue::entry("destination"@, JsonValue::Text(self.destination@)),
            ],
        )
    }

    /// The document of the request is well-formed: no name stands twice in it,
    /// so nothing is lost when it is written.
    pub proof fn lemma_json_is_well_formed(&self)
        ensures
            self.json().well_formed(),
    {
        reveal_strlit("source");
        reveal_strlit("destination");
        reveal_with_fuel(JsonValue::well_formed, 3);
        let members = self.json()->Object_0;
        assert(members.len() == 2);
        assert forall|i: int, j: int| 0 <= i < j < members.len() implies (
        #[trigger] members[i]).name != (#[trigger] members[j]).name by {
            assert(members[i].name.len() != members[j].name.len() || members[i].name[0]
                != members[j].name[0] || members[i].name[1] != members[j].name[1]);
        }
    }

    /// Encodes the request as a JSON document.
    pub fn to_json(&self) -> (doc: Json)
        ensures
            doc.deep_view() == self.json(),
    {
        let mut members: Vec<Member> = Vec::new();
        members.push(Member::new("source", Json::text(self.source.as_str())));
        members.push(Member::new("destination", Json::text(self.destination.as_str())));
        assert(members.deep_view() =~= self.json()->Object_0);
        Json::object(members)
    }
}

impl ModelDeletionRequest {
    /// The request as a JSON document: its one field.
    pub open spec fn json(&self) -> JsonValue {
        JsonValue::Object(seq![JsonValue::entry("name"@, JsonValue::Text(self.name@))])
    }

    /// The document of the request is well-formed: no name stands twice in it,
    /// so nothing is lost when it is written.
    pub proof fn lemma_json_is_well_formed(&self)
        ensures
            self.json().well_formed(),
    {
        reveal_strlit("name");
        reveal_with_fuel(JsonValue::well_formed, 3);
    }

    /// Encodes the request as a JSON document.
    pub fn to_json(&self) -> (doc: Json)
        ensures
            doc.deep_view() == self.json(),
    {
        let mut members: Vec<Member> = Vec::new();
        members.push(Member::new("name", Json::text(self.name.as_str())));
        assert(members.deep_view() =~= self.json()->Object_0);
        Json::object(members)
    }
}

} // verus!
