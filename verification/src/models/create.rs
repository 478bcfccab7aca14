use vstd::prelude::*;

use crate::codec::Request;
use crate::json::{Json, JsonValue, Member};

verus! {

#[derive(Debug)]
pub struct CreationRequest {
    pub name: String,
    pub modelfile: Option<String>,
    pub stream: Option<bool>,
    /// The path of the model file on the server, as the text that goes over
    /// the wire.
    pub path: Option<String>,
}

impl Request for CreationRequest {
    open spec fn flag(&self) -> Option<bool> {
        self.stream
    }

    fn stream(&self) -> (r: Option<bool>) {
        self.stream
    }
}

impl CreationRequest {
    /// The request as a JSON document: its fields in order, `null` for a
    /// field that is not set.
    pub open spec fn json(&self) -> JsonValue {
        JsonValue::Object(
            seq![
                JsonValue::entry("name"@, JsonValue::Text(self.name@)),
                JsonValue::entry("modelfile"@, JsonValue::optional_text(self.modelfile.deep_view())),
                JsonValue::entry("stream"@, JsonValue::optional_bool(self.stream)),
                JsonValue::entry("path"@, JsonValue::optional_text(self.path.deep_view())),
            ],
        )
    }

    /// The document of the request is well-formed: no name stands twice in it,
    /// so nothing is lost when it is written.
    pub proof fn lemma_json_is_well_formed(&self)
        ensures
            self.json().well_formed(),
    {
        reveal_strlit("name");
        reveal_strlit("modelfile");
        reveal_strlit("stream");
        reveal_strlit("path");
        reveal_with_fuel(JsonValue::well_formed, 3);
        let members = self.json()->Object_0;
        assert(members.len() == 4);
        assert forall|i: int, j: int| 0 <= i < j < members.len() implies (
        #[trigger] members[i]).name != (#[trigger] members[j]).name by {
            assert(members[i].name.len() != members[j].name.len() || members[i].name[0]
                != members[j].name[0] || members[i].name[1] != members[j].name[1]);
        }
    }

    /// Encodes the request as a JSON document.
    pub fn to_json(&self) -> (doc: Json)
        ensures
            doc.deep_view() == self.json(),
    {
        let mut members: Vec<Member> = Vec::new();
        members.push(Member::new("name", Json::text(self.name.as_str())));
        members.push(Member::new("modelfile", Json::optional_text(&self.modelfile)));
        members.push(Member::new("stream", Json::optional_bool(self.stream)));
        members.push(Member::new("path", Json::optional_text(&self.path)));
        assert(members.deep_view() =~= self.json()->Object_0);
        Json::object(members)
    }
}

} // verus!
