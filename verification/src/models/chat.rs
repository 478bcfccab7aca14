use vstd::prelude::*;

use super::errors::ParsingError;
use super::json_schema::{JsonSchema, JsonSchemaView};
use super::RequestFormat;
use crate::codec::{Request, Response};
use crate::json::{
    duplicate_members, duplicate_texts, Json, JsonValue, Member, MemberValue, Optional,
};
use crate::text::same_text;

verus! {

#[derive(Debug, Clone, Copy, PartialEq, Eq, Structural)]
pub enum Role {
    System,
    User,
    Assistant,
    Tool,
}

impl Role {
    /// The name of the role on the wire.
    pub open spec fn name(self) -> Seq<char> {
        match self {
            Role::System => "system"@,
            Role::User => "user"@,
            Role::Assistant => "assistant"@,
            Role::Tool => "tool"@,
        }
    }

    /// The role that a string names, if it names one.
    pub open spec fn named(s: Seq<char>) -> Option<Role> {
        if s == "system"@ {
            Some(Role::System)
        } else if s == "user"@ {
            Some(Role::User)
        } else if s == "assistant"@ {
            Some(Role::Assistant)
        } else if s == "tool"@ {
            Some(Role::Tool)
        } else {
            None
        }
    }

    pub fn as_str(&self) -> (r: &str)
        ensures
            r@ == self.name(),
    {
        match self {
            Self::System => "system",
            Self::User => "user",
            Self::Assistant => "assistant",
            Self::Tool => "tool",
        }
    }

    /// The name of the role on the wire, as an owned string.
    pub fn to_string(&self) -> (r: String)
        ensures
            r@ == self.name(),
    {
        String::from_str(self.as_str())
    }

    /// The role that `s` names: one of `system`, `user`, `assistant` and
    /// `tool`, in lower case. Any other string is refused.
    pub fn from_str(s: &str) -> (r: Result<Self, ParsingError>)
        ensures
            r == (match Role::named(s@) {
                Some(role) => Ok::<Self, ParsingError>(role),
                None => Err(ParsingError::InvalidStr),
            }),
    {
        if same_text(s, "system") {
            Ok(Role::System)
        } else if same_text(s, "user") {
            Ok(Role::User)
        } else if same_text(s, "assistant") {
            Ok(Role::Assistant)
        } else if same_text(s, "tool") {
            Ok(Role::Tool)
        } else {
            Err(ParsingError::InvalidStr)
        }
    }

    /// Every role is the one that its own name names.
    pub proof fn lemma_name_round_trip(role: Role)
        ensures
            Role::named(role.name()) == Some(role),
    {
        reveal_strlit("system");
        reveal_strlit("user");
        reveal_strlit("assistant");
        reveal_strlit("tool");
        assert("system"@.len() == 6);
        assert("user"@.len() == 4);
        assert("assistant"@.len() == 9);
        assert("tool"@.len() == 4);
        assert("user"@[0] == 'u');
        assert("tool"@[0] == 't');
    }
}

impl AsRef<str> for Role {
    /// The name of the role on the wire.
    #[inline]
    fn as_ref(&self) -> (r: &str)
        ensures
            r@ == self.name(),
    {
        self.as_str()
    }
}

impl std::str::FromStr for Role {
    type Err = ParsingError;

    /// The role that `s` names; any string that names none is refused.
    fn from_str(s: &str) -> (r: Result<Self, ParsingError>)
        ensures
            r == (match Role::named(s@) {
                Some(role) => Ok::<Self, ParsingError>(role),
                None => Err(ParsingError::InvalidStr),
            }),
    {
        Role::from_str(s)
    }
}

/// A call of a tool that the model asks for.
#[derive(Debug)]
pub enum ToolCall {
    Function {
        name: String,
        /// The arguments of the call, as the members of a JSON object. They
        /// stand for a map from names to values: in a well-formed call each
        /// name stands once.
        arguments: Vec<Member>,
    },
}

/// The mathematical value of a [`ToolCall`].
pub enum ToolCallView {
    Function { name: Seq<char>, arguments: Seq<MemberValue> },
}

impl DeepView for ToolCall {
    type V = ToolCallView;

    open spec fn deep_view(&self) -> ToolCallView {
        match self {
            ToolCall::Function { name, arguments } => ToolCallView::Function {
                name: name@,
                arguments: arguments.deep_view(),
            },
        }
    }
}

impl ToolCall {
    /// The shape of a tool call: an object with the one member `function`,
    /// which holds a string under `name` and an object under `arguments`.
    pub open spec fn shape(doc: JsonValue) -> Option<ToolCallView> {
        match doc {
            JsonValue::Object(members) if members.len() == 1 && members[0].name == "function"@ => {
                let call = members[0].value;
                match (call.text_at("name"@), call.member("arguments"@)) {
                    (Some(name), Some(JsonValue::Object(arguments))) => Some(
                        ToolCallView::Function { name, arguments },
                    ),
                    _ => None,
                }
            },
            _ => None,
        }
    }

    /// The tool calls of an array whose items all have the shape of one.
    pub open spec fn list_shape(doc: JsonValue) -> Option<Seq<ToolCallView>> {
        match doc {
            JsonValue::Array(items) if forall|i: int|
                0 <= i < items.len() ==> Self::shape(#[trigger] items[i]) is Some => Some(
                Seq::new(items.len(), |i: int| Self::shape(items[i])->0),
            ),
            _ => None,
        }
    }

    /// A copy of this call.
    pub fn duplicate(&self) -> (r: Self)
        ensures
            r.deep_view() == self.deep_view(),
    {
        match self {
            ToolCall::Function { name, arguments } => ToolCall::Function {
                name: name.clone(),
                arguments: duplicate_members(arguments),
            },
        }
    }

    /// A copy of a list of calls.
    pub fn duplicate_list(calls: &Vec<ToolCall>) -> (r: Vec<ToolCall>)
        ensures
            r.deep_view() == calls.deep_view(),
    {
        let mut out: Vec<ToolCall> = Vec::new();
        let mut i: usize = 0;
        while i < calls.len()
            invariant
                i <= calls.len(),
                out@.len() == i,
                forall|j: int|
                    0 <= j < i ==> (#[trigger] out@[j]).deep_view() == calls@[j].deep_view(),
            decreases calls.len() - i,
        {
            out.push(calls[i].duplicate());
            i = i + 1;
        }
        assert(out.deep_view() =~= calls.deep_view());
        out
    }

    /// Reads a tool call out of a document.
    pub fn from_json(doc: &Json) -> (r: Option<Self>)
        ensures
            r.deep_view() == Self::shape(doc.deep_view()),
    {
        let members = match doc.as_object() {
            Some(members) => members,
            None => return None,
        };
        if members.len() != 1 {
            return None;
        }
        assert(doc.deep_view()->Object_0[0] == members@[0].deep_view());
        if !same_text(members[0].name.as_str(), "function") {
            return None;
        }
        let call = &members[0].value;
        let name = match call.text_at("name") {
            Some(s) => s,
            None => return None,
        };
        let arguments = match call.member("arguments") {
            Some(v) => match v.as_object() {
                Some(arguments) => duplicate_members(arguments),
                None => return None,
            },
            None => return None,
        };
        Some(ToolCall::Function { name, arguments })
    }

    /// Reads the tool calls out of an array.
    pub fn list_from_json(doc: &Json) -> (r: Option<Vec<Self>>)
        ensures
            r.deep_view() == Self::list_shape(doc.deep_view()),
    {
        let items = match doc.as_array() {
            Some(items) => items,
            None => return None,
        };
        let ghost all = doc.deep_view()->Array_0;
        let mut out: Vec<ToolCall> = Vec::new();
        let mut i: usize = 0;
        while i < items.len()
            invariant
                i <= items.len(),
                all == items.deep_view(),
                doc.deep_view() == JsonValue::Array(all),
                out@.len() == i,
                forall|j: int|
                    0 <= j < i ==> Self::shape(#[trigger] all[j]) == Some(out@[j].deep_view()),
            decreases items.len() - i,
        {
            assert(all[i as int] == items@[i as int].deep_view());
            match ToolCall::from_json(&items[i]) {
                Some(call) => {
                    out.push(call);
                },
                None => {
                    return None;
                },
            }
            i = i + 1;
        }
        assert(out.deep_view() =~= Self::list_shape(doc.deep_view())->0);
        Some(out)
    }
}

#[derive(Debug)]
pub struct Message {
    pub role: Role,
    pub content: String,
    pub images: Option<Vec<String>>,
    /// Tool calls
    pub tool_calls: Option<Vec<ToolCall>>,
}

/// The mathematical value of a [`Message`].
pub struct MessageView {
    pub role: Role,
    pub content: Seq<char>,
    pub images: Option<Seq<Seq<char>>>,
    pub tool_calls: Option<Seq<ToolCallView>>,
}

impl DeepView for Message {
    type V = MessageView;

    open spec fn deep_view(&self) -> MessageView {
        MessageView {
            role: self.role,
            content: self.content@,
            images: self.images.deep_view(),
            tool_calls: self.tool_calls.deep_view(),
        }
    }
}

impl Message {
    /// The role that the string under `role` names.
    pub open spec fn role_at(doc: JsonValue) -> Option<Role> {
        match doc.text_at("role"@) {
            Some(name) => Role::named(name),
            None => None,
        }
    }

    /// The optional tool calls of a document, where the member fits.
    pub open spec fn tool_calls_at(doc: JsonValue) -> Option<Seq<ToolCallView>> {
        match doc.field("tool_calls"@) {
            Some(v) => ToolCall::list_shape(v),
            None => None,
        }
    }

    /// The shape of a message: the name of a role under `role`, a string
    /// under `content`, and, each of them optional, strings under `images`
    /// and tool calls under `tool_calls`.
    pub open spec fn shape(doc: JsonValue) -> Option<MessageView> {
        if Self::role_at(doc) is Some && doc.text_at("content"@) is Some && doc.text_items_fit(
            "images"@,
        ) && (doc.field("tool_calls"@) is Some ==> Self::tool_calls_at(doc) is Some) {
            Some(
                MessageView {
                    role: Self::role_at(doc)->0,
                    content: doc.text_at("content"@)->0,
                    images: doc.optional_text_items_at("images"@),
                    tool_calls: Self::tool_calls_at(doc),
                },
            )
        } else {
            None
        }
    }

    /// A copy of this message.
    pub fn duplicate(&self) -> (r: Self)
        ensures
            r.deep_view() == self.deep_view(),
    {
        let images = match &self.images {
            Some(items) => Some(duplicate_texts(items)),
            None => None,
        };
        let tool_calls = match &self.tool_calls {
            Some(calls) => Some(ToolCall::duplicate_list(calls)),
            None => None,
        };
        Message { role: self.role, content: self.content.clone(), images, tool_calls }
    }

    /// Reads a message out of a document.
    pub fn from_json(doc: &Json) -> (r: Option<Self>)
        ensures
            r.deep_view() == Self::shape(doc.deep_view()),
    {
        let role = match doc.text_at("role") {
            Some(name) => match Role::from_str(name.as_str()) {
                Ok(role) => role,
                Err(_) => return None,
            },
            None => return None,
        };
        let content = match doc.text_at("content") {
            Some(s) => s,
            None => return None,
        };
        let images = match doc.optional_text_items_at("images") {
            Optional::Absent => None,
            Optional::Present(items) => Some(items),
            Optional::Unfit => return None,
        };
        let tool_calls = match doc.field("tool_calls") {
            None => None,
            Some(v) => match ToolCall::list_from_json(v) {
                Some(calls) => Some(calls),
                None => return None,
            },
        };
        Some(Message { role, content, images, tool_calls })
    }
}

/// Chat completion request
#[derive(Debug)]
pub struct ChatRequest {
    pub model: String,
    pub messages: Vec<Message>,
    pub format: Option<RequestFormat>,
    /// Model options, as the members of a JSON object.
    pub options: Option<Vec<Member>>,
    pub stream: Option<bool>,
    pub keep_alive: Option<String>,
    /// Tool definition
    pub tools: Option<Vec<JsonSchema>>,
}

impl Request for ChatRequest {
    open spec fn flag(&self) -> Option<bool> {
        self.stream
    }

    fn stream(&self) -> (r: Option<bool>) {
        self.stream
    }
}

/// Chat completion response
#[derive(Debug)]
pub struct ChatResponse {
    pub model: String,
    /// The time of creation, as the server wrote it.
    pub created_at: String,
    pub message: Option<Message>,
    pub done: bool,
    pub total_duration: Option<u64>,
    pub load_duration: Option<u64>,
    pub prompt_eval_count: Option<usize>,
    pub prompt_eval_duration: Option<u64>,
    pub eval_count: Option<usize>,
    pub eval_duration: Option<u64>,
}

/// The mathematical value of a [`ChatResponse`].
pub struct ChatResponseView {
    pub model: Seq<char>,
    pub created_at: Seq<char>,
    pub message: Option<MessageView>,
    pub done: bool,
    pub total_duration: Option<u64>,
    pub load_duration: Option<u64>,
    pub prompt_eval_count: Option<usize>,
    pub prompt_eval_duration: Option<u64>,
    pub eval_count: Option<usize>,
    pub eval_duration: Option<u64>,
}

impl DeepView for ChatResponse {
    type V = ChatResponseView;

    open spec fn deep_view(&self) -> ChatResponseView {
        ChatResponseView {
            model: self.model@,
            created_at: self.created_at@,
            message: self.message.deep_view(),
            done: self.done,
            total_duration: self.total_duration,
            load_duration: self.load_duration,
            prompt_eval_count: self.prompt_eval_count,
            prompt_eval_duration: self.prompt_eval_duration,
            eval_count: self.eval_count,
            eval_duration: self.eval_duration,
        }
    }
}

impl ChatResponse {
    /// The optional message of a document, where the member fits.
    pub open spec fn message_at(doc: JsonValue) -> Option<MessageView> {
        match doc.field("message"@) {
            Some(v) => Message::shape(v),
            None => None,
        }
    }
}

impl Response for ChatResponse {
    /// The one shape of a chat record: strings under `model` and
    /// `created_at`, a boolean under `done`, and, each of them optional, a
    /// message and the counters.
    open spec fn shape(doc: JsonValue) -> Option<ChatResponseView> {
        if doc.text_at("model"@) is Some && doc.text_at("created_at"@) is Some && (doc.field(
            "message"@,
        ) is Some ==> Self::message_at(doc) is Some) && doc.bool_at("done"@) is Some
            && doc.unsigned_fits("total_duration"@, u64::MAX as nat) && doc.unsigned_fits(
            "load_duration"@,
            u64::MAX as nat,
        ) && doc.unsigned_fits("prompt_eval_count"@, usize::MAX as nat) && doc.unsigned_fits(
            "prompt_eval_duration"@,
            u64::MAX as nat,
        ) && doc.unsigned_fits("eval_count"@, usize::MAX as nat) && doc.unsigned_fits(
            "eval_duration"@,
            u64::MAX as nat,
        ) {
            Some(
                ChatResponseView {
                    model: doc.text_at("model"@)->0,
                    created_at: doc.text_at("created_at"@)->0,
                    message: Self::message_at(doc),
                    done: doc.bool_at("done"@)->0,
                    total_duration: doc.optional_u64_at("total_duration"@),
                    load_duration: doc.optional_u64_at("load_duration"@),
                    prompt_eval_count: doc.optional_usize_at("prompt_eval_count"@),
                    prompt_eval_duration: doc.optional_u64_at("prompt_eval_duration"@),
                    eval_count: doc.optional_usize_at("eval_count"@),
                    eval_duration: doc.optional_u64_at("eval_duration"@),
                },
            )
        } else {
            None
        }
    }

    /// A chat record is final where it says that it is done.
    open spec fn terminal(value: ChatResponseView) -> bool {
        value.done
    }

    fn from_json(doc: &Json) -> (r: Option<Self>) {
        let model = match doc.text_at("model") {
            Some(s) => s,
            None => return None,
        };
        let created_at = match doc.text_at("created_at") {
            Some(s) => s,
            None => return None,
        };
        let message = match doc.field("message") {
            None => None,
            Some(v) => match Message::from_json(v) {
                Some(message) => Some(message),
                None => return None,
            },
        };
        let done = match doc.bool_at("done") {
            Some(b) => b,
            None => return None,
        };
        let total_duration = match doc.optional_u64_at("total_duration") {
            Optional::Absent => None,
            Optional::Present(n) => Some(n),
            Optional::Unfit => return None,
        };
        let load_duration = match doc.optional_u64_at("load_duration") {
            Optional::Absent => None,
            Optional::Present(n) => Some(n),
            Optional::Unfit => return None,
        };
        let prompt_eval_count = match doc.optional_usize_at("prompt_eval_count") {
            Optional::Absent => None,
            Optional::Present(n) => Some(n),
            Optional::Unfit => return None,
        };
        let prompt_eval_duration = match doc.optional_u64_at("prompt_eval_duration") {
            Optional::Absent => None,
            Optional::Present(n) => Some(n),
            Optional::Unfit => return None,
        };
        let eval_count = match doc.optional_usize_at("eval_count") {
            Optional::Absent => None,
            Optional::Present(n) => Some(n),
            Optional::Unfit => return None,
        };
        let eval_duration = match doc.optional_u64_at("eval_duration") {
            Optional::Absent => None,
            Optional::Present(n) => Some(n),
            Optional::Unfit => return None,
        };
        Some(
            ChatResponse {
                model,
                created_at,
                message,
                done,
                total_duration,
                load_duration,
                prompt_eval_count,
                prompt_eval_duration,
                eval_count,
                eval_duration,
            },
        )
    }

    fn is_terminal(&self) -> (b: bool) {
        self.done
    }

    fn duplicate(&self) -> (r: Self) {
        let message = match &self.message {
            Some(m) => Some(m.duplicate()),
            None => None,
        };
        ChatResponse {
            model: self.model.clone(),
            created_at: self.created_at.clone(),
            message,
            done: self.done,
            total_duration: self.total_duration,
            load_duration: self.load_duration,
            prompt_eval_count: self.prompt_eval_count,
            prompt_eval_duration: self.prompt_eval_duration,
            eval_count: self.eval_count,
            eval_duration: self.eval_duration,
        }
    }
}

impl ToolCallView {
    /// The call as a JSON document: an object with the one member
    /// `function`, which holds the name and the arguments.
    pub open spec fn json(self) -> JsonValue {
        JsonValue::Object(
            seq![
                JsonValue::entry(
                    "function"@,
                    JsonValue::Object(
                        seq![
                            JsonValue::entry("name"@, JsonValue::Text(self->name)),
                            JsonValue::entry("arguments"@, JsonValue::Object(self->arguments)),
                        ],
                    ),
                ),
            ],
        )
    }

    /// The array of the given calls, or `null` where there is none.
    pub open spec fn optional_list_json(calls: Option<Seq<ToolCallView>>) -> JsonValue {
        match calls {
            Some(c) => JsonValue::Array(Seq::new(c.len(), |i: int| c[i].json())),
            None => JsonValue::Null,
        }
    }
}

impl ToolCall {
    /// Encodes the call as a JSON document.
    pub fn to_json(&self) -> (doc: Json)
        ensures
            doc.deep_view() == self.deep_view().json(),
    {
        match self {
            ToolCall::Function { name, arguments } => {
                let mut inner: Vec<Member> = Vec::new();
                inner.push(Member::new("name", Json::text(name.as_str())));
                inner.push(Member::new("arguments", Json::object(duplicate_members(arguments))));
                let mut members: Vec<Member> = Vec::new();
                members.push(Member::new("function", Json::object(inner)));
                proof {
                    let expected = self.deep_view().json()->Object_0;
                    assert(inner.deep_view() =~= expected[0].value->Object_0);
                    assert(members.deep_view() =~= expected);
                }
                Json::object(members)
            },
        }
    }

    /// Encodes an optional list of calls as a JSON value.
    pub fn optional_list_to_json(calls: &Option<Vec<ToolCall>>) -> (doc: Json)
        ensures
            doc.deep_view() == ToolCallView::optional_list_json(calls.deep_view()),
    {
        match calls {
            None => Json::Null,
            Some(list) => {
                let mut items: Vec<Json> = Vec::new();
                let mut i: usize = 0;
                while i < list.len()
                    invariant
                        i <= list.len(),
                        items@.len() == i,
                        forall|j: int|
                            0 <= j < i ==> (#[trigger] items@[j]).deep_view()
                                == list@[j].deep_view().json(),
                    decreases list.len() - i,
                {
                    items.push(list[i].to_json());
                    i = i + 1;
                }
                assert(items.deep_view() =~= ToolCallView::optional_list_json(
                    calls.deep_view(),
                )->Array_0);
                Json::array(items)
            },
        }
    }
}

impl MessageView {
    /// The message as a JSON document: its fields in order, `null` for a
    /// field that is not set.
    pub open spec fn json(self) -> JsonValue {
        JsonValue::Object(
            seq![
                JsonValue::entry("role"@, JsonValue::Text(self.role.name())),
                JsonValue::entry("content"@, JsonValue::Text(self.content)),
                JsonValue::entry("images"@, JsonValue::optional_texts(self.images)),
                JsonValue::entry(
                    "tool_calls"@,
                    ToolCallView::optional_list_json(self.tool_calls),
                ),
            ],
        )
    }
}

impl Message {
    /// Encodes the message as a JSON document.
    pub fn to_json(&self) -> (doc: Json)
        ensures
            doc.deep_view() == self.deep_view().json(),
    {
        let mut members: Vec<Member> = Vec::new();
        members.push(Member::new("role", Json::text(self.role.as_str())));
        members.push(Member::new("content", Json::text(self.content.as_str())));
        members.push(Member::new("images", Json::optional_texts(&self.images)));
        members.push(Member::new("tool_calls", ToolCall::optional_list_to_json(&self.tool_calls)));
        assert(members.deep_view() =~= self.deep_view().json()->Object_0);
        Json::object(members)
    }
}

impl ChatRequest {
    /// The messages as a JSON array.
    pub open spec fn messages_json(messages: Seq<MessageView>) -> JsonValue {
        JsonValue::Array(Seq::new(messages.len(), |i: int| messages[i].json()))
    }

    /// The tools as a JSON array, or `null` where there is none.
    pub open spec fn tools_json(tools: Option<Seq<JsonSchemaView>>) -> JsonValue {
        match tools {
            Some(t) => JsonValue::Array(Seq::new(t.len(), |i: int| t[i].json())),
            None => JsonValue::Null,
        }
    }

    /// The request as a JSON document: its fields in order, `null` for a
    /// field that is not set.
    pub open spec fn json(&self) -> JsonValue {
        JsonValue::Object(
            seq![
                JsonValue::entry("model"@, JsonValue::Text(self.model@)),
                JsonValue::entry("messages"@, Self::messages_json(self.messages.deep_view())),
                JsonValue::entry("format"@, RequestFormat::optional_json(self.format)),
                JsonValue::entry("options"@, JsonValue::optional_object(self.options.deep_view())),
                JsonValue::entry("stream"@, JsonValue::optional_bool(self.stream)),
                JsonValue::entry(
                    "keep_alive"@,
                    JsonValue::optional_text(self.keep_alive.deep_view()),
                ),
                JsonValue::entry("tools"@, Self::tools_json(self.tools.deep_view())),
            ],
        )
    }

    /// Whether the request holds each name at most once wherever a list of
    /// members stands for a map: in its options, in the arguments of the
    /// tool calls of its messages, and in the properties of its tools. It
    /// is for the caller to see to this.
    pub open spec fn well_formed(&self) -> bool {
        &&& JsonValue::optional_object(self.options.deep_view()).well_formed()
        &&& forall|i: int|
            0 <= i < self.messages.deep_view().len() ==> (
            #[trigger] self.messages.deep_view()[i]).well_formed()
        &&& self.tools.deep_view() matches Some(tools) ==> forall|i: int|
            0 <= i < tools.len() ==> (#[trigger] tools[i]).well_formed()
    }

    /// The document of a well-formed request is well-formed: no name
    /// stands twice in it, so nothing is lost when it is written.
    pub proof fn lemma_json_is_well_formed(&self)
        requires
            self.well_formed(),
        ensures
            self.json().well_formed(),
    {
        reveal_strlit("model");
        reveal_strlit("messages");
        reveal_strlit("format");
        reveal_strlit("options");
        reveal_strlit("stream");
        reveal_strlit("keep_alive");
        reveal_strlit("tools");
        reveal_with_fuel(JsonValue::well_formed, 3);
        let members = self.json()->Object_0;
        assert(members.len() == 7);
        assert forall|i: int, j: int| 0 <= i < j < members.len() implies (
        #[trigger] members[i]).name != (#[trigger] members[j]).name by {
            assert(members[i].name.len() != members[j].name.len() || members[i].name[0]
                != members[j].name[0] || members[i].name[1] != members[j].name[1]);
        }
        let messages = self.messages.deep_view();
        let items = Self::messages_json(messages)->Array_0;
        assert forall|i: int| 0 <= i < items.len() implies (#[trigger] items[i]).well_formed() by {
            assert(messages[i].well_formed());
            messages[i].lemma_json_is_well_formed();
        }
        if let Some(tools) = self.tools.deep_view() {
            let schemas = Self::tools_json(self.tools.deep_view())->Array_0;
            assert forall|i: int| 0 <= i < schemas.len() implies (
            #[trigger] schemas[i]).well_formed() by {
                assert(tools[i].well_formed());
                tools[i].lemma_json_is_well_formed();
            }
        }
    }

    /// Encodes the messages as a JSON array.
    pub fn messages_to_json(messages: &Vec<Message>) -> (doc: Json)
        ensures
            doc.deep_view() == Self::messages_json(messages.deep_view()),
    {
        let mut items: Vec<Json> = Vec::new();
        let mut i: usize = 0;
        while i < messages.len()
            invariant
                i <= messages.len(),
                items@.len() == i,
                forall|j: int|
                    0 <= j < i ==> (#[trigger] items@[j]).deep_view()
                        == messages@[j].deep_view().json(),
            decreases messages.len() - i,
        {
            items.push(messages[i].to_json());
            i = i + 1;
        }
        assert(items.deep_view() =~= Self::messages_json(messages.deep_view())->Array_0);
        Json::array(items)
    }

    /// Encodes the tools as a JSON array, or as `null` where there is none.
    pub fn tools_to_json(tools: &Option<Vec<JsonSchema>>) -> (doc: Json)
        ensures
            doc.deep_view() == Self::tools_json(tools.deep_view()),
    {
        match tools {
            None => Json::Null,
            Some(list) => {
                let mut items: Vec<Json> = Vec::new();
                let mut i: usize = 0;
                while i < list.len()
                    invariant
                        i <= list.len(),
                        items@.len() == i,
                        forall|j: int|
                            0 <= j < i ==> (#[trigger] items@[j]).deep_view()
                                == list@[j].deep_view().json(),
                    decreases list.len() - i,
                {
                    items.push(list[i].to_json());
                    i = i + 1;
                }
                assert(items.deep_view() =~= Self::tools_json(tools.deep_view())->Array_0);
                Json::array(items)
            },
        }
    }

    /// Encodes the request as a JSON document.
    pub fn to_json(&self) -> (doc: Json)
        ensures
            doc.deep_view() == self.json(),
    {
        let mut members: Vec<Member> = Vec::new();
        members.push(Member::new("model", Json::text(self.model.as_str())));
        members.push(Member::new("messages", Self::messages_to_json(&self.messages)));
        members.push(Member::new("format", RequestFormat::optional_to_json(self.format)));
        members.push(Member::new("options", Json::optional_object(&self.options)));
        members.push(Member::new("stream", Json::optional_bool(self.stream)));
        members.push(Member::new("keep_alive", Json::optional_text(&self.keep_alive)));
        members.push(Member::new("tools", Self::tools_to_json(&self.tools)));
        assert(members.deep_view() =~= self.json()->Object_0);
        Json::object(members)
    }
}

impl ToolCallView {
    /// Whether the arguments hold each name at most once, as the map that
    /// they stand for does, and are well-formed themselves.
    pub open spec fn well_formed(self) -> bool {
        JsonValue::Object(self->arguments).well_formed()
    }

    /// The document of a well-formed tool call is well-formed.
    pub proof fn lemma_json_is_well_formed(self)
        requires
            self.well_formed(),
        ensures
            self.json().well_formed(),
    {
        reveal_strlit("name");
        reveal_strlit("arguments");
        reveal_with_fuel(JsonValue::well_formed, 3);
        let inner = self.json()->Object_0[0].value->Object_0;
        assert(inner.len() == 2);
        assert(inner[0].name.len() != inner[1].name.len());
        assert(inner[1].value == JsonValue::Object(self->arguments));
    }

    /// A tool call read from a well-formed document is well-formed: its
    /// arguments hold each name at most once.
    pub proof fn lemma_shape_is_well_formed(doc: JsonValue)
        requires
            doc.well_formed(),
        ensures
            ToolCall::shape(doc) matches Some(call) ==> call.well_formed(),
    {
        if let JsonValue::Object(members) = doc {
            if members.len() == 1 {
                assert(members[0].value.well_formed());
                crate::json::lemma_member_is_well_formed(members[0].value, "arguments"@);
            }
        }
    }
}

impl MessageView {
    /// Whether every tool call of the message is well-formed.
    pub open spec fn well_formed(self) -> bool {
        self.tool_calls matches Some(calls) ==> forall|i: int|
            0 <= i < calls.len() ==> (#[trigger] calls[i]).well_formed()
    }

    /// The document of a well-formed message is well-formed.
    pub proof fn lemma_json_is_well_formed(self)
        requires
            self.well_formed(),
        ensures
            self.json().well_formed(),
    {
        reveal_strlit("role");
        reveal_strlit("content");
        reveal_strlit("images");
        reveal_strlit("tool_calls");
        reveal_with_fuel(JsonValue::well_formed, 3);
        let members = self.json()->Object_0;
        assert(members.len() == 4);
        assert forall|i: int, j: int| 0 <= i < j < members.len() implies (
        #[trigger] members[i]).name != (#[trigger] members[j]).name by {
            assert(members[i].name.len() != members[j].name.len());
        }
        if let Some(calls) = self.tool_calls {
            let items = ToolCallView::optional_list_json(self.tool_calls)->Array_0;
            assert forall|i: int| 0 <= i < items.len() implies (#[trigger] items[i]).well_formed() by {
                assert(calls[i].well_formed());
                calls[i].lemma_json_is_well_formed();
            }
        }
    }

    /// A message read from a well-formed document is well-formed.
    pub proof fn lemma_shape_is_well_formed(doc: JsonValue)
        requires
            doc.well_formed(),
        ensures
            Message::shape(doc) matches Some(message) ==> message.well_formed(),
    {
        crate::json::lemma_member_is_well_formed(doc, "tool_calls"@);
        if let Some(JsonValue::Array(items)) = doc.field("tool_calls"@) {
            assert forall|i: int| 0 <= i < items.len() implies (ToolCall::shape(
                #[trigger] items[i],
            ) matches Some(call) ==> call.well_formed()) by {
                assert(items[i].well_formed());
                ToolCallView::lemma_shape_is_well_formed(items[i]);
            }
        }
    }
}

impl ChatResponseView {
    /// Whether the message of the record, if it has one, is well-formed.
    pub open spec fn well_formed(self) -> bool {
        self.message matches Some(message) ==> message.well_formed()
    }

    /// A chat record read from a well-formed document, as every parsed
    /// document is, is well-formed: the arguments of its tool calls hold
    /// each name at most once.
    pub proof fn lemma_shape_is_well_formed(doc: JsonValue)
        requires
            doc.well_formed(),
        ensures
            <ChatResponse as Response>::shape(doc) matches Some(record) ==> record.well_formed(),
    {
        crate::json::lemma_member_is_well_formed(doc, "message"@);
        if let Some(v) = doc.field("message"@) {
            MessageView::lemma_shape_is_well_formed(v);
        }
    }
}

} // verus!
