use vstd::prelude::*;

use crate::json::{Json, JsonValue, Member, MemberValue, Optional};
use crate::text::same_text;

verus! {

/// Function definition
#[derive(Debug)]
pub struct FunctionDef {
    pub name: String,
    pub description: Option<String>,
    pub parameters: Option<Box<JsonSchema>>,
}

/// A property of an object schema: its name and the schema of its value.
#[derive(Debug)]
pub struct Property {
    pub name: String,
    pub schema: JsonSchema,
}

/// A **partly** implemented JSON Schema enum.
#[derive(Debug)]
pub enum JsonSchema {
    Function { function: FunctionDef },
    Integer { description: Option<String> },
    Number { description: Option<String> },
    Object {
        /// The properties, in the order in which they are written. They
        /// stand for a map from names to schemas: in a well-formed schema
        /// each name stands once.
        properties: Vec<Property>,
        required: Option<Vec<String>>,
    },
    String { description: Option<String>, enumeration: Option<Vec<String>> },
}

/// The mathematical value of a [`FunctionDef`].
pub struct FunctionDefView {
    pub name: Seq<char>,
    pub description: Option<Seq<char>>,
    pub parameters: Option<Box<JsonSchemaView>>,
}

/// The mathematical value of a [`Property`].
pub struct PropertyView {
    pub name: Seq<char>,
    pub schema: JsonSchemaView,
}

/// The mathematical value of a [`JsonSchema`].
pub enum JsonSchemaView {
    Function { function: FunctionDefView },
    Integer { description: Option<Seq<char>> },
    Number { description: Option<Seq<char>> },
    Object { properties: Seq<PropertyView>, required: Option<Seq<Seq<char>>> },
    String { description: Option<Seq<char>>, enumeration: Option<Seq<Seq<char>>> },
}

impl JsonSchema {
    /// The mathematical value of the schema.
    pub open spec fn value(self) -> JsonSchemaView
        decreases self,
    {
        match self {
            JsonSchema::Function { function } => JsonSchemaView::Function {
                function: FunctionDefView {
                    name: function.name@,
                    description: function.description.deep_view(),
                    parameters: match function.parameters {
                        Some(schema) => Some(Box::new((*schema).value())),
                        None => None,
                    },
                },
            },
            JsonSchema::Integer { description } => JsonSchemaView::Integer {
                description: description.deep_view(),
            },
            JsonSchema::Number { description } => JsonSchemaView::Number {
                description: description.deep_view(),
            },
            JsonSchema::Object { properties, required } => JsonSchemaView::Object {
                properties: Seq::new(
                    properties@.len(),
                    |i: int|
                        if 0 <= i < properties@.len() {
                            PropertyView {
                                name: properties@[i].name@,
                                schema: properties@[i].schema.value(),
                            }
                        } else {
                            PropertyView {
                                name: Seq::empty(),
                                schema: JsonSchemaView::Integer { description: None },
                            }
                        },
                ),
                required: required.deep_view(),
            },
            JsonSchema::String { description, enumeration } => JsonSchemaView::String {
                description: description.deep_view(),
                enumeration: enumeration.deep_view(),
            },
        }
    }
}

impl DeepView for JsonSchema {
    type V = JsonSchemaView;

    open spec fn deep_view(&self) -> JsonSchemaView {
        self.value()
    }
}

impl DeepView for Property {
    type V = PropertyView;

    open spec fn deep_view(&self) -> PropertyView {
        PropertyView { name: self.name@, schema: self.schema.deep_view() }
    }
}

impl DeepView for FunctionDef {
    type V = FunctionDefView;

    open spec fn deep_view(&self) -> FunctionDefView {
        FunctionDefView {
            name: self.name@,
            description: self.description.deep_view(),
            parameters: match self.parameters {
                Some(schema) => Some(Box::new((*schema).deep_view())),
                None => None,
            },
        }
    }
}

/// How deep a schema may nest to be read from a document: as deep as the
/// parser lets a document nest.
pub const DEPTH_LIMIT: usize = 128;

impl JsonSchemaView {
    /// The schema as a JSON document: the kind under `type`, then the
    /// fields of the kind in order, `null` for a field that is not set.
    pub open spec fn json(self) -> JsonValue
        decreases self,
    {
        match self {
            JsonSchemaView::Function { function } => JsonValue::Object(
                seq![
                    JsonValue::entry("type"@, JsonValue::Text("function"@)),
                    JsonValue::entry(
                        "function"@,
                        JsonValue::Object(
                            seq![
                                JsonValue::entry("name"@, JsonValue::Text(function.name)),
                                JsonValue::entry(
                                    "description"@,
                                    JsonValue::optional_text(function.description),
                                ),
                                JsonValue::entry(
                                    "parameters"@,
                                    match function.parameters {
                                        Some(schema) => schema.json(),
                                        None => JsonValue::Null,
                                    },
                                ),
                            ],
                        ),
                    ),
                ],
            ),
            JsonSchemaView::Integer { description } => JsonValue::Object(
                seq![
                    JsonValue::entry("type"@, JsonValue::Text("integer"@)),
                    JsonValue::entry("description"@, JsonValue::optional_text(description)),
                ],
            ),
            JsonSchemaView::Number { description } => JsonValue::Object(
                seq![
                    JsonValue::entry("type"@, JsonValue::Text("number"@)),
                    JsonValue::entry("description"@, JsonValue::optional_text(description)),
                ],
            ),
            JsonSchemaView::Object { properties, required } => JsonValue::Object(
                seq![
                    JsonValue::entry("type"@, JsonValue::Text("object"@)),
                    JsonValue::entry(
                        "properties"@,
                        JsonValue::Object(
                            Seq::new(
                                properties.len(),
                                |i: int|
                                    if 0 <= i < properties.len() {
                                        JsonValue::entry(
                                            properties[i].name,
                                            properties[i].schema.json(),
                                        )
                                    } else {
                                        JsonValue::entry(Seq::empty(), JsonValue::Null)
                                    },
                            ),
                        ),
                    ),
                    JsonValue::entry("required"@, JsonValue::optional_texts(required)),
                ],
            ),
            JsonSchemaView::String { description, enumeration } => JsonValue::Object(
                seq![
                    JsonValue::entry("type"@, JsonValue::Text("string"@)),
                    JsonValue::entry("description"@, JsonValue::optional_text(description)),
                    JsonValue::entry("enum"@, JsonValue::optional_texts(enumeration)),
                ],
            ),
        }
    }

    /// The optional schema under `key`, read with `depth` levels to go.
    pub open spec fn optional_within(doc: JsonValue, key: Seq<char>, depth: nat) -> Option<
        JsonSchemaView,
    >
        decreases depth, 1nat,
    {
        match doc.field(key) {
            Some(v) => Self::shape_within(v, depth),
            None => None,
        }
    }

    /// The function definition that a document holds, read with `depth`
    /// levels to go: a string under `name`, and, each of them optional, a
    /// string under `description` and a schema under `parameters`.
    pub open spec fn function_within(doc: JsonValue, depth: nat) -> Option<FunctionDefView>
        decreases depth, 2nat,
    {
        if doc.text_at("name"@) is Some && doc.text_fits("description"@) && (doc.field(
            "parameters"@,
        ) is Some ==> Self::optional_within(doc, "parameters"@, depth) is Some) {
            Some(
                FunctionDefView {
                    name: doc.text_at("name"@)->0,
                    description: doc.text_at("description"@),
                    parameters: match Self::optional_within(doc, "parameters"@, depth) {
                        Some(schema) => Some(Box::new(schema)),
                        None => None,
                    },
                },
            )
        } else {
            None
        }
    }

    /// The properties that the members of an object hold, read with `depth`
    /// levels to go: every member must hold a schema.
    pub open spec fn properties_within(members: Seq<MemberValue>, depth: nat) -> Option<
        Seq<PropertyView>,
    >
        decreases depth, 1nat,
    {
        if forall|i: int|
            0 <= i < members.len() ==> Self::shape_within((#[trigger] members[i]).value, depth)
                is Some {
            Some(
                Seq::new(
                    members.len(),
                    |i: int|
                        PropertyView {
                            name: members[i].name,
                            schema: Self::shape_within(members[i].value, depth)->0,
                        },
                ),
            )
        } else {
            None
        }
    }

    /// The schema that a document holds, read with `depth` levels to go.
    ///
    /// The string under `type` tells the kind: `function`, `integer`,
    /// `number`, `object` or `string`. A function holds its definition under
    /// `function`; an object holds an object of schemas under `properties`
    /// and maybe strings under `required`; a string maybe holds strings
    /// under `enum`; all but the function maybe hold a string under
    /// `description`. With no level to go nothing is read.
    pub open spec fn shape_within(doc: JsonValue, depth: nat) -> Option<JsonSchemaView>
        decreases depth, 0nat,
    {
        if depth == 0 {
            None
        } else {
            match doc.text_at("type"@) {
                Some(kind) => if kind == "function"@ {
                    match doc.field("function"@) {
                        Some(v) => match Self::function_within(v, (depth - 1) as nat) {
                            Some(function) => Some(JsonSchemaView::Function { function }),
                            None => None,
                        },
                        None => None,
                    }
                } else if kind == "integer"@ {
                    if doc.text_fits("description"@) {
                        Some(
                            JsonSchemaView::Integer { description: doc.text_at("description"@) },
                        )
                    } else {
                        None
                    }
                } else if kind == "number"@ {
                    if doc.text_fits("description"@) {
                        Some(JsonSchemaView::Number { description: doc.text_at("description"@) })
                    } else {
                        None
                    }
                } else if kind == "object"@ {
                    match doc.member("properties"@) {
                        Some(JsonValue::Object(members)) => match Self::properties_within(
                            members,
                            (depth - 1) as nat,
                        ) {
                            Some(properties) if doc.text_items_fit("required"@) => Some(
                                JsonSchemaView::Object {
                                    properties,
                                    required: doc.optional_text_items_at("required"@),
                                },
                            ),
                            _ => None,
                        },
                        _ => None,
                    }
                } else if kind == "string"@ {
                    if doc.text_fits("description"@) && doc.text_items_fit("enum"@) {
                        Some(
                            JsonSchemaView::String {
                                description: doc.text_at("description"@),
                                enumeration: doc.optional_text_items_at("enum"@),
                            },
                        )
                    } else {
                        None
                    }
                } else {
                    None
                },
                None => None,
            }
        }
    }

    /// The schema that a document holds, nested no deeper than the parser
    /// lets a document nest.
    pub open spec fn shape(doc: JsonValue) -> Option<JsonSchemaView> {
        Self::shape_within(doc, DEPTH_LIMIT as nat)
    }
}

impl JsonSchema {
    /// Encodes the schema as a JSON document.
    pub fn to_json(&self) -> (doc: Json)
        ensures
            doc.deep_view() == self.deep_view().json(),
        decreases self,
    {
        match self {
            JsonSchema::Function { function } => {
                let parameters = match &function.parameters {
                    Some(schema) => schema.to_json(),
                    None => Json::Null,
                };
                let mut inner: Vec<Member> = Vec::new();
                inner.push(Member::new("name", Json::text(function.name.as_str())));
                inner.push(Member::new("description", Json::optional_text(&function.description)));
                inner.push(Member::new("parameters", parameters));
                let mut members: Vec<Member> = Vec::new();
                members.push(Member::new("type", Json::text("function")));
                members.push(Member::new("function", Json::object(inner)));
                proof {
                    let expected = self.deep_view().json()->Object_0;
                    assert(inner.deep_view() =~= expected[1].value->Object_0);
                    assert(members.deep_view() =~= expected);
                }
                Json::object(members)
            },
            JsonSchema::Integer { description } => {
                let mut members: Vec<Member> = Vec::new();
                members.push(Member::new("type", Json::text("integer")));
                members.push(Member::new("description", Json::optional_text(description)));
                assert(members.deep_view() =~= self.deep_view().json()->Object_0);
                Json::object(members)
            },
            JsonSchema::Number { description } => {
                let mut members: Vec<Member> = Vec::new();
                members.push(Member::new("type", Json::text("number")));
                members.push(Member::new("description", Json::optional_text(description)));
                assert(members.deep_view() =~= self.deep_view().json()->Object_0);
                Json::object(members)
            },
            JsonSchema::Object { properties, required } => {
                let mut entries: Vec<Member> = Vec::new();
                let mut i: usize = 0;
                while i < properties.len()
                    invariant
                        i <= properties.len(),
                        self is Object,
                        self->properties == *properties,
                        entries@.len() == i,
                        forall|j: int|
                            0 <= j < i ==> (#[trigger] entries@[j]).deep_view()
                                == JsonValue::entry(
                                properties@[j].name@,
                                properties@[j].schema.deep_view().json(),
                            ),
                    decreases properties.len() - i,
                {
                    proof {
                        vstd::std_specs::vec::axiom_vec_index_decreases(*properties, i as int);
                        assert(decreases_to!(self => self->properties));
                        assert(decreases_to!(properties@[i as int] => properties@[i as int].schema));
                    }
                    let value = properties[i].schema.to_json();
                    entries.push(Member::new(properties[i].name.as_str(), value));
                    i = i + 1;
                }
                let mut members: Vec<Member> = Vec::new();
                members.push(Member::new("type", Json::text("object")));
                members.push(Member::new("properties", Json::object(entries)));
                members.push(Member::new("required", Json::optional_texts(required)));
                proof {
                    let expected = self.deep_view().json()->Object_0;
                    assert(entries.deep_view() =~= expected[1].value->Object_0);
                    assert(members.deep_view() =~= expected);
                }
                Json::object(members)
            },
            JsonSchema::String { description, enumeration } => {
                let mut members: Vec<Member> = Vec::new();
                members.push(Member::new("type", Json::text("string")));
                members.push(Member::new("description", Json::optional_text(description)));
                members.push(Member::new("enum", Json::optional_texts(enumeration)));
                assert(members.deep_view() =~= self.deep_view().json()->Object_0);
                Json::object(members)
            },
        }
    }

    /// Reads the function definition that a document holds, with `depth`
    /// levels to go.
    pub fn function_within(doc: &Json, depth: usize) -> (r: Option<FunctionDef>)
        ensures
            r.deep_view() == JsonSchemaView::function_within(doc.deep_view(), depth as nat),
        decreases depth, 2nat,
    {
        let name = match doc.text_at("name") {
            Some(s) => s,
            None => return None,
        };
        let description = match doc.optional_text_at("description") {
            Optional::Absent => None,
            Optional::Present(s) => Some(s),
            Optional::Unfit => return None,
        };
        let parameters = match doc.field("parameters") {
            None => None,
            Some(v) => match Self::from_json_within(v, depth) {
                Some(schema) => Some(Box::new(schema)),
                None => return None,
            },
        };
        Some(FunctionDef { name, description, parameters })
    }

    /// Reads the properties that the members of an object hold, with
    /// `depth` levels to go.
    pub fn properties_within(members: &Vec<Member>, depth: usize) -> (r: Option<Vec<Property>>)
        ensures
            match r {
                Some(properties) => JsonSchemaView::properties_within(
                    members.deep_view(),
                    depth as nat,
                ) == Some(properties.deep_view()),
                None => JsonSchemaView::properties_within(members.deep_view(), depth as nat)
                    is None,
            },
        decreases depth, 1nat,
    {
        let ghost all = members.deep_view();
        let mut out: Vec<Property> = Vec::new();
        let mut i: usize = 0;
        while i < members.len()
            invariant
                i <= members.len(),
                all == members.deep_view(),
                out@.len() == i,
                forall|j: int|
                    0 <= j < i ==> JsonSchemaView::shape_within(
                        (#[trigger] all[j]).value,
                        depth as nat,
                    ) == Some(out@[j].schema.deep_view()) && out@[j].name@ == all[j].name,
            decreases members.len() - i,
        {
            assert(all[i as int] == members@[i as int].deep_view());
            match Self::from_json_within(&members[i].value, depth) {
                Some(schema) => {
                    out.push(Property { name: members[i].name.clone(), schema });
                },
                None => {
                    return None;
                },
            }
            i = i + 1;
        }
        assert(out.deep_view() =~= JsonSchemaView::properties_within(all, depth as nat)->0);
        Some(out)
    }

    /// Reads the schema that a document holds, with `depth` levels to go.
    pub fn from_json_within(doc: &Json, depth: usize) -> (r: Option<JsonSchema>)
        ensures
            r.deep_view() == JsonSchemaView::shape_within(doc.deep_view(), depth as nat),
        decreases depth, 0nat,
    {
        if depth == 0 {
            return None;
        }
        let kind = match doc.text_at("type") {
            Some(s) => s,
            None => return None,
        };
        if same_text(kind.as_str(), "function") {
            match doc.field("function") {
                Some(v) => match Self::function_within(v, depth - 1) {
                    Some(function) => Some(JsonSchema::Function { function }),
                    None => None,
                },
                None => None,
            }
        } else if same_text(kind.as_str(), "integer") {
            match doc.optional_text_at("description") {
                Optional::Absent => Some(JsonSchema::Integer { description: None }),
                Optional::Present(s) => Some(JsonSchema::Integer { description: Some(s) }),
                Optional::Unfit => None,
            }
        } else if same_text(kind.as_str(), "number") {
            match doc.optional_text_at("description") {
                Optional::Absent => Some(JsonSchema::Number { description: None }),
                Optional::Present(s) => Some(JsonSchema::Number { description: Some(s) }),
                Optional::Unfit => None,
            }
        } else if same_text(kind.as_str(), "object") {
            let members = match doc.member("properties") {
                Some(v) => match v.as_object() {
                    Some(members) => members,
                    None => return None,
                },
                None => return None,
            };
            let properties = match Self::properties_within(members, depth - 1) {
                Some(properties) => properties,
                None => return None,
            };
            let required = match doc.optional_text_items_at("required") {
                Optional::Absent => None,
                Optional::Present(items) => Some(items),
                Optional::Unfit => return None,
            };
            let schema = JsonSchema::Object { properties, required };
            assert(schema.deep_view()->properties =~= properties.deep_view());
            Some(schema)
        } else if same_text(kind.as_str(), "string") {
            let description = match doc.optional_text_at("description") {
                Optional::Absent => None,
                Optional::Present(s) => Some(s),
                Optional::Unfit => return None,
            };
            let enumeration = match doc.optional_text_items_at("enum") {
                Optional::Absent => None,
                Optional::Present(items) => Some(items),
                Optional::Unfit => return None,
            };
            Some(JsonSchema::String { description, enumeration })
        } else {
            None
        }
    }

    /// Reads the schema that a document holds. A schema that nests deeper
    /// than the parser lets a document nest is refused.
    pub fn from_json(doc: &Json) -> (r: Option<JsonSchema>)
        ensures
            r.deep_view() == JsonSchemaView::shape(doc.deep_view()),
    {
        Self::from_json_within(doc, DEPTH_LIMIT)
    }

    /// The schema of the property named `name`, if this is an object schema
    /// that has one. Where several properties bear the name, the first one
    /// counts.
    pub fn property(&self, name: &str) -> (r: Option<&JsonSchema>)
        ensures
            match r {
                Some(schema) => self is Object && exists|i: int|
                    0 <= i < self->properties@.len() && self->properties@[i].name@ == name@
                        && self->properties@[i].schema == *schema && forall|j: int|
                        0 <= j < i ==> self->properties@[j].name@ != name@,
                None => self is Object ==> forall|i: int|
                    0 <= i < self->properties@.len() ==> self->properties@[i].name@ != name@,
            },
    {
        match self {
            JsonSchema::Object { properties, required: _ } => {
                let mut i: usize = 0;
                while i < properties.len()
                    invariant
                        i <= properties.len(),
                        self is Object,
                        self->properties == *properties,
                        forall|j: int| 0 <= j < i ==> properties@[j].name@ != name@,
                    decreases properties.len() - i,
                {
                    if same_text(properties[i].name.as_str(), name) {
                        return Some(&properties[i].schema);
                    }
                    i = i + 1;
                }
                None
            },
            _ => None,
        }
    }
}

impl JsonSchemaView {
    /// Whether the properties bear names that are all different.
    pub open spec fn distinct_names(properties: Seq<PropertyView>) -> bool {
        forall|i: int, j: int|
            0 <= i < j < properties.len() ==> (#[trigger] properties[i]).name != (
            #[trigger] properties[j]).name
    }

    /// Whether every object schema in the schema, the nested ones too,
    /// holds each property name at most once, as the map that the
    /// properties stand for does. This holds of every schema read from a
    /// well-formed document. Where it does not hold, `property` finds the
    /// first property of a name.
    pub open spec fn well_formed(self) -> bool
        decreases self,
    {
        match self {
            JsonSchemaView::Function { function } => match function.parameters {
                Some(schema) => (*schema).well_formed(),
                None => true,
            },
            JsonSchemaView::Object { properties, required } => Self::distinct_names(properties)
                && forall|i: int|
                0 <= i < properties.len() ==> (#[trigger] properties[i]).schema.well_formed(),
            _ => true,
        }
    }

    /// The document of a well-formed schema is well-formed: no name stands
    /// twice in it, so nothing is lost when it is written.
    pub proof fn lemma_json_is_well_formed(self)
        requires
            self.well_formed(),
        ensures
            self.json().well_formed(),
        decreases self,
    {
        reveal_strlit("type");
        reveal_strlit("function");
        reveal_strlit("name");
        reveal_strlit("description");
        reveal_strlit("parameters");
        reveal_strlit("properties");
        reveal_strlit("required");
        reveal_strlit("enum");
        reveal_with_fuel(JsonValue::well_formed, 3);
        let members = self.json()->Object_0;
        assert forall|i: int, j: int| 0 <= i < j < members.len() implies (
        #[trigger] members[i]).name != (#[trigger] members[j]).name by {
            assert(members[i].name.len() != members[j].name.len() || members[i].name[0]
                != members[j].name[0]);
        }
        match self {
            JsonSchemaView::Function { function } => {
                let inner = members[1].value->Object_0;
                assert(inner.len() == 3);
                assert forall|i: int, j: int| 0 <= i < j < inner.len() implies (
                #[trigger] inner[i]).name != (#[trigger] inner[j]).name by {
                    assert(inner[i].name.len() != inner[j].name.len());
                }
                if let Some(schema) = function.parameters {
                    (*schema).lemma_json_is_well_formed();
                }
            },
            JsonSchemaView::Object { properties, required } => {
                let entries = members[1].value->Object_0;
                assert(entries.len() == properties.len());
                assert forall|i: int| 0 <= i < entries.len() implies (
                #[trigger] entries[i]).value.well_formed() by {
                    assert(properties[i].schema.well_formed());
                    properties[i].schema.lemma_json_is_well_formed();
                }
                assert forall|i: int, j: int| 0 <= i < j < entries.len() implies (
                #[trigger] entries[i]).name != (#[trigger] entries[j]).name by {
                    assert(properties[i].name != properties[j].name);
                }
            },
            _ => {},
        }
    }

    /// A schema read from a well-formed document, as every parsed document
    /// is, is well-formed.
    pub proof fn lemma_shape_is_well_formed(doc: JsonValue, depth: nat)
        requires
            doc.well_formed(),
        ensures
            Self::shape_within(doc, depth) matches Some(schema) ==> schema.well_formed(),
        decreases depth,
    {
        reveal_strlit("function");
        reveal_strlit("integer");
        reveal_strlit("number");
        reveal_strlit("object");
        assert("integer"@.len() == 7 && "number"@.len() == 6 && "object"@.len() == 6);
        assert("number"@[0] == 'n' && "object"@[0] == 'o' && "function"@.len() == 8);
        reveal_with_fuel(JsonSchemaView::shape_within, 2);
        reveal_with_fuel(JsonSchemaView::function_within, 2);
        reveal_with_fuel(JsonSchemaView::optional_within, 2);
        reveal_with_fuel(JsonSchemaView::properties_within, 2);
        if depth > 0 && Self::shape_within(doc, depth) is Some {
            let kind = doc.text_at("type"@)->0;
            let below = (depth - 1) as nat;
            if kind == "function"@ {
                crate::json::lemma_member_is_well_formed(doc, "function"@);
                let inner = doc.field("function"@)->0;
                crate::json::lemma_member_is_well_formed(inner, "parameters"@);
                if let Some(v) = inner.field("parameters"@) {
                    Self::lemma_shape_is_well_formed(v, below);
                }
            } else if kind == "object"@ {
                crate::json::lemma_member_is_well_formed(doc, "properties"@);
                let members = doc.member("properties"@)->0->Object_0;
                let properties = Self::properties_within(members, below)->0;
                assert(doc.member("properties"@) == Some(JsonValue::Object(members)));
                assert(Self::properties_within(members, below) is Some);
                assert(properties.len() == members.len());
                assert(Self::shape_within(doc, depth)->0->properties == properties);
                assert forall|i: int| 0 <= i < properties.len() implies (
                #[trigger] properties[i]).schema.well_formed() by {
                    assert(members[i].value.well_formed());
                    Self::lemma_shape_is_well_formed(members[i].value, below);
                }
                assert forall|i: int, j: int| 0 <= i < j < properties.len() implies (
                #[trigger] properties[i]).name != (#[trigger] properties[j]).name by {
                    assert(members[i].name != members[j].name);
                }
            }
        }
    }
}

} // verus!
