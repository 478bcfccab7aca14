use vstd::prelude::*;

use super::RequestFormat;
use crate::codec::{Request, Response};
use crate::json::{duplicate_numbers, Json, JsonValue, Member, Optional};

verus! {

/// Completion JSON request
#[derive(Debug)]
pub struct GenerationRequest {
    pub model: String,
    pub prompt: String,
    pub suffix: Option<String>,
    pub images: Option<Vec<String>>,
    pub format: Option<RequestFormat>,
    /// Model options, as the members of a JSON object.
    pub options: Option<Vec<Member>>,
    pub system: Option<String>,
    pub template: Option<String>,
    pub stream: Option<bool>,
    pub raw: Option<bool>,
    pub keep_alive: Option<String>,
}

impl GenerationRequest {
    /// The request as a JSON document: its fields in order, `null` for a
    /// field that is not set.
    pub open spec fn json(&self) -> JsonValue {
        JsonValue::Object(
            seq![
                JsonValue::entry("model"@, JsonValue::Text(self.model@)),
                JsonValue::entry("prompt"@, JsonValue::Text(self.prompt@)),
                JsonValue::entry("suffix"@, JsonValue::optional_text(self.suffix.deep_view())),
                JsonValue::entry("images"@, JsonValue::optional_texts(self.images.deep_view())),
                JsonValue::entry("format"@, RequestFormat::optional_json(self.format)),
                JsonValue::entry("options"@, JsonValue::optional_object(self.options.deep_view())),
                JsonValue::entry("system"@, JsonValue::optional_text(self.system.deep_view())),
                JsonValue::entry("template"@, JsonValue::optional_text(self.template.deep_view())),
                JsonValue::entry("stream"@, JsonValue::optional_bool(self.stream)),
                JsonValue::entry("raw"@, JsonValue::optional_bool(self.raw)),
                JsonValue::entry(
                    "keep_alive"@,
                    JsonValue::optional_text(self.keep_alive.deep_view()),
                ),
            ],
        )
    }

    /// Whether the options, if there are any, hold each name at most once,
    /// as the map that they stand for does. It is for the caller to see to
    /// this.
    pub open spec fn well_formed(&self) -> bool {
        JsonValue::optional_object(self.options.deep_view()).well_formed()
    }

    /// The document of a well-formed request is well-formed: no name
    /// stands twice in it, so nothing is lost when it is written.
    pub proof fn lemma_json_is_well_formed(&self)
        requires
            self.well_formed(),
        ensures
            self.json().well_formed(),
    {
        reveal_strlit("model");
        reveal_strlit("prompt");
        reveal_strlit("suffix");
        reveal_strlit("images");
        reveal_strlit("format");
        reveal_strlit("options");
        reveal_strlit("system");
        reveal_strlit("template");
        reveal_strlit("stream");
        reveal_strlit("raw");
        reveal_strlit("keep_alive");
        reveal_with_fuel(JsonValue::well_formed, 3);
        let members = self.json()->Object_0;
        assert(members.len() == 11);
        assert forall|i: int, j: int| 0 <= i < j < members.len() implies (
        #[trigger] members[i]).name != (#[trigger] members[j]).name by {
            assert(members[i].name.len() != members[j].name.len() || members[i].name[0]
                != members[j].name[0] || members[i].name[1] != members[j].name[1]);
        }
    }

    /// Encodes the request as a JSON document.
    pub fn to_json(&self) -> (doc: Json)
        ensures
            doc.deep_view() == self.json(),
    {
        let mut members: Vec<Member> = Vec::new();
        members.push(Member::new("model", Json::text(self.model.as_str())));
        members.push(Member::new("prompt", Json::text(self.prompt.as_str())));
        members.push(Member::new("suffix", Json::optional_text(&self.suffix)));
        members.push(Member::new("images", Json::optional_texts(&self.images)));
        members.push(Member::new("format", RequestFormat::optional_to_json(self.format)));
        members.push(Member::new("options", Json::optional_object(&self.options)));
        members.push(Member::new("system", Json::optional_text(&self.system)));
        members.push(Member::new("template", Json::optional_text(&self.template)));
        members.push(Member::new("stream", Json::optional_bool(self.stream)));
        members.push(Member::new("raw", Json::optional_bool(self.raw)));
        members.push(Member::new("keep_alive", Json::optional_text(&self.keep_alive)));
        assert(members.deep_view() =~= self.json()->Object_0);
        Json::object(members)
    }
}

impl Request for GenerationRequest {
    open spec fn flag(&self) -> Option<bool> {
        self.stream
    }

    fn stream(&self) -> (r: Option<bool>) {
        self.stream
    }
}

/// Completion JSON response
#[derive(Debug)]
pub struct GenerationResponse {
    pub model: String,
    /// The time of creation, as the server wrote it.
    pub created_at: String,
    pub response: String,
    pub done: bool,
    pub total_duration: Option<u64>,
    pub load_duration: Option<u64>,
    pub prompt_eval_count: Option<usize>,
    pub prompt_eval_duration: Option<u64>,
    pub eval_count: Option<usize>,
    pub eval_duration: Option<u64>,
    pub context: Option<Vec<u32>>,
}

/// The mathematical value of a [`GenerationResponse`].
pub struct GenerationResponseView {
    pub model: Seq<char>,
    pub created_at: Seq<char>,
    pub response: Seq<char>,
    pub done: bool,
    pub total_duration: Option<u64>,
    pub load_duration: Option<u64>,
    pub prompt_eval_count: Option<usize>,
    pub prompt_eval_duration: Option<u64>,
    pub eval_count: Option<usize>,
    pub eval_duration: Option<u64>,
    pub context: Option<Seq<u32>>,
}

impl DeepView for GenerationResponse {
    type V = GenerationResponseView;

    open spec fn deep_view(&self) -> GenerationResponseView {
        GenerationResponseView {
            model: self.model@,
            created_at: self.created_at@,
            response: self.response@,
            done: self.done,
            total_duration: self.total_duration,
            load_duration: self.load_duration,
            prompt_eval_count: self.prompt_eval_count,
            prompt_eval_duration: self.prompt_eval_duration,
            eval_count: self.eval_count,
            eval_duration: self.eval_duration,
            context: self.context.deep_view(),
        }
    }
}

impl Response for GenerationResponse {
    /// The one shape of a completion record: strings under `model`,
    /// `created_at` and `response`, a boolean under `done`, and, each of
    /// them optional, the counters and the context.
    open spec fn shape(doc: JsonValue) -> Option<GenerationResponseView> {
        if doc.text_at("model"@) is Some && doc.text_at("created_at"@) is Some && doc.text_at(
            "response"@,
        ) is Some && doc.bool_at("done"@) is Some && doc.unsigned_fits(
            "total_duration"@,
            u64::MAX as nat,
        ) && doc.unsigned_fits("load_duration"@, u64::MAX as nat) && doc.unsigned_fits(
            "prompt_eval_count"@,
            usize::MAX as nat,
        ) && doc.unsigned_fits("prompt_eval_duration"@, u64::MAX as nat) && doc.unsigned_fits(
            "eval_count"@,
            usize::MAX as nat,
        ) && doc.unsigned_fits("eval_duration"@, u64::MAX as nat) && doc.u32_items_fit(
            "context"@,
        ) {
            Some(
                GenerationResponseView {
                    model: doc.text_at("model"@)->0,
                    created_at: doc.text_at("created_at"@)->0,
                    response: doc.text_at("response"@)->0,
                    done: doc.bool_at("done"@)->0,
                    total_duration: doc.optional_u64_at("total_duration"@),
                    load_duration: doc.optional_u64_at("load_duration"@),
                    prompt_eval_count: doc.optional_usize_at("prompt_eval_count"@),
                    prompt_eval_duration: doc.optional_u64_at("prompt_eval_duration"@),
                    eval_count: doc.optional_usize_at("eval_count"@),
                    eval_duration: doc.optional_u64_at("eval_duration"@),
                    context: doc.optional_u32_items_at("context"@),
                },
            )
        } else {
            None
        }
    }

    /// A completion record is final where it says that it is done.
    open spec fn terminal(value: GenerationResponseView) -> bool {
        value.done
    }

    fn from_json(doc: &Json) -> (r: Option<Self>) {
        let model = match doc.text_at("model") {
            Some(s) => s,
            None => return None,
        };
        let created_at = match doc.text_at("created_at") {
            Some(s) => s,
            None => return None,
        };
        let response = match doc.text_at("response") {
            Some(s) => s,
            None => return None,
        };
        let done = match doc.bool_at("done") {
            Some(b) => b,
            None => return None,
        };
        let total_duration = match doc.optional_u64_at("total_duration") {
            Optional::Absent => None,
            Optional::Present(n) => Some(n),
            Optional::Unfit => return None,
        };
        let load_duration = match doc.optional_u64_at("load_duration") {
            Optional::Absent => None,
            Optional::Present(n) => Some(n),
            Optional::Unfit => return None,
        };
        let prompt_eval_count = match doc.optional_usize_at("prompt_eval_count") {
            Optional::Absent => None,
            Optional::Present(n) => Some(n),
            Optional::Unfit => return None,
        };
        let prompt_eval_duration = match doc.optional_u64_at("prompt_eval_duration") {
            Optional::Absent => None,
            Optional::Present(n) => Some(n),
            Optional::Unfit => return None,
        };
        let eval_count = match doc.optional_usize_at("eval_count") {
            Optional::Absent => None,
            Optional::Present(n) => Some(n),
            Optional::Unfit => return None,
        };
        let eval_duration = match doc.optional_u64_at("eval_duration") {
            Optional::Absent => None,
            Optional::Present(n) => Some(n),
            Optional::Unfit => return None,
        };
        let context = match doc.optional_u32_items_at("context") {
            Optional::Absent => None,
            Optional::Present(items) => Some(items),
            Optional::Unfit => return None,
        };
        Some(
            GenerationResponse {
                model,
                created_at,
                response,
                done,
                total_duration,
                load_duration,
                prompt_eval_count,
                prompt_eval_duration,
                eval_count,
                eval_duration,
                context,
            },
        )
    }

    fn is_terminal(&self) -> (b: bool) {
        self.done
    }

    fn duplicate(&self) -> (r: Self) {
        let context = match &self.context {
            Some(numbers) => Some(duplicate_numbers(numbers)),
            None => None,
        };
        GenerationResponse {
            model: self.model.clone(),
            created_at: self.created_at.clone(),
            response: self.response.clone(),
            done: self.done,
            total_duration: self.total_duration,
            load_duration: self.load_duration,
            prompt_eval_count: self.prompt_eval_count,
            prompt_eval_duration: self.prompt_eval_duration,
            eval_count: self.eval_count,
            eval_duration: self.eval_duration,
            context,
        }
    }
}

} // verus!
