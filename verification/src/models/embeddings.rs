use vstd::prelude::*;

use crate::json::{Json, JsonValue, Member};

verus! {

#[derive(Debug)]
pub struct EmbeddingGenerationRequest {
    pub model: String,
    pub prompt: String,
    /// Model options, as the members of a JSON object.
    pub options: Option<Vec<Member>>,
    pub keep_alive: Option<String>,
}

impl EmbeddingGenerationRequest {
    /// The request as a JSON document: its fields in order, `null` for a
    /// field that is not set.
    pub open spec fn json(&self) -> JsonValue {
        JsonValue::Object(
            seq![
                JsonValue::entry("model"@, JsonValue::Text(self.model@)),
                JsonValue::entry("prompt"@, JsonValue::Text(self.prompt@)),
                JsonValue::entry("options"@, JsonValue::optional_object(self.options.deep_view())),
                JsonValue::entry(
                    "keep_alive"@,
                    JsonValue::optional_text(self.keep_alive.deep_view()),
                ),
            ],
        )
    }

    /// Whether the options, if there are any, hold each name at most once,
    /// as the map that they stand for does. It is for the caller to see to
    /// this.
    pub open spec fn well_formed(&self) -> bool {
        JsonValue::optional_object(self.options.deep_view()).well_formed()
    }

    /// The document of a well-formed request is well-formed: no name
    /// stands twice in it, so nothing is lost when it is written.
    pub proof fn lemma_json_is_well_formed(&self)
        requires
            self.well_formed(),
        ensures
            self.json().well_formed(),
    {
        reveal_strlit("model");
        reveal_strlit("prompt");
        reveal_strlit("options");
        reveal_strlit("keep_alive");
        reveal_with_fuel(JsonValue::well_formed, 3);
        let members = self.json()->Object_0;
        assert(members.len() == 4);
        assert forall|i: int, j: int| 0 <= i < j < members.len() implies (
        #[trigger] members[i]).name != (#[trigger] members[j]).name by {
            assert(members[i].name.len() != members[j].name.len() || members[i].name[0]
                != members[j].name[0] || members[i].name[1] != members[j].name[1]);
        }
    }

    /// Encodes the request as a JSON document.
    pub fn to_json(&self) -> (doc: Json)
        ensures
            doc.deep_view() == self.json(),
    {
        let mut members: Vec<Member> = Vec::new();
        members.push(Member::new("model", Json::text(self.model.as_str())));
        members.push(Member::new("prompt", Json::text(self.prompt.as_str())));
        members.push(Member::new("options", Json::optional_object(&self.options)));
        members.push(Member::new("keep_alive", Json::optional_text(&self.keep_alive)));
        assert(members.deep_view() =~= self.json()->Object_0);
        Json::object(members)
    }
}

} // verus!
