use ollama_rest::codec::Request;
use ollama_rest::errors::{Error, ErrorKind};
use ollama_rest::host::{Host, DEFAULT_HOST};
use ollama_rest::json::{duplicate_members, duplicate_numbers, duplicate_texts, Json, Member};
use ollama_rest::models::chat::{ChatRequest, Message, Role, ToolCall};
use ollama_rest::models::create::CreationRequest;
use ollama_rest::models::embeddings::EmbeddingGenerationRequest;
use ollama_rest::models::generate::GenerationRequest;
use ollama_rest::models::json_schema::JsonSchema;
use ollama_rest::models::model::{
    ModelCopyRequest, ModelDeletionRequest, ModelShowRequest, ModelSyncRequest,
};
use ollama_rest::models::RequestFormat;
use ollama_rest::operations::{load_model, Operation};

fn written(doc: Json) -> String {
    String::from_utf8(doc.to_bytes().unwrap()).unwrap()
}

fn names(doc: &Json) -> Vec<String> {
    doc.as_object().unwrap().iter().map(|m| m.name.clone()).collect()
}

#[test]
fn generation_request_encodes_every_field_in_order() {
    let request = GenerationRequest {
        model: "llama3".to_string(),
        prompt: "Why is the sky blue?".to_string(),
        suffix: None,
        images: Some(vec!["aGk=".to_string()]),
        format: Some(RequestFormat::Json),
        options: Some(vec![Member { name: "seed".to_string(), value: Json::Number("42".to_string()) }]),
        system: None,
        template: None,
        stream: Some(false),
        raw: None,
        keep_alive: Some("5m".to_string()),
    };
    assert_eq!(request.stream(), Some(false));
    let doc = request.to_json();
    assert_eq!(
        names(&doc),
        vec![
            "model", "prompt", "suffix", "images", "format", "options", "system", "template",
            "stream", "raw", "keep_alive"
        ]
    );
    assert_eq!(
        written(doc),
        "{\"format\":\"json\",\"images\":[\"aGk=\"],\"keep_alive\":\"5m\",\"model\":\"llama3\",\"options\":{\"seed\":42},\"prompt\":\"Why is the sky blue?\",\"raw\":null,\"stream\":false,\"suffix\":null,\"system\":null,\"template\":null}"
    );
}

#[test]
fn chat_request_encodes_messages_and_tools() {
    let request = ChatRequest {
        model: "m".to_string(),
        messages: vec![
            Message { role: Role::User, content: "hi".to_string(), images: None, tool_calls: None },
            Message {
                role: Role::Assistant,
                content: "".to_string(),
                images: None,
                tool_calls: Some(vec![ToolCall::Function {
                    name: "f".to_string(),
                    arguments: vec![Member { name: "a".to_string(), value: Json::Bool(true) }],
                }]),
            },
        ],
        format: None,
        options: None,
        stream: None,
        keep_alive: None,
        tools: Some(vec![JsonSchema::Integer { description: Some("n".to_string()) }]),
    };
    assert_eq!(request.stream(), None);
    let doc = request.to_json();
    assert_eq!(
        names(&doc),
        vec!["model", "messages", "format", "options", "stream", "keep_alive", "tools"]
    );
    assert_eq!(
        written(doc),
        "{\"format\":null,\"keep_alive\":null,\"messages\":[{\"content\":\"hi\",\"images\":null,\"role\":\"user\",\"tool_calls\":null},{\"content\":\"\",\"images\":null,\"role\":\"assistant\",\"tool_calls\":[{\"function\":{\"arguments\":{\"a\":true},\"name\":\"f\"}}]}],\"model\":\"m\",\"options\":null,\"stream\":null,\"tools\":[{\"description\":\"n\",\"type\":\"integer\"}]}"
    );
    let message = &request.messages[1];
    let copy = message.duplicate();
    assert_eq!(format!("{:?}", copy), format!("{:?}", message));
    let decoded = Message::from_json(&message.to_json()).unwrap();
    assert_eq!(format!("{:?}", decoded), format!("{:?}", message));
}

#[test]
fn small_requests_encode() {
    let sync = ModelSyncRequest { name: "llama3".to_string(), insecure: Some(true), stream: None };
    assert_eq!(sync.stream(), None);
    assert_eq!(names(&sync.to_json()), vec!["name", "insecure", "stream"]);
    assert_eq!(written(sync.to_json()), "{\"insecure\":true,\"name\":\"llama3\",\"stream\":null}");
    let show = ModelShowRequest { name: "llama3".to_string(), verbose: None };
    assert_eq!(written(show.to_json()), "{\"name\":\"llama3\",\"verbose\":null}");
    let copy = ModelCopyRequest { source: "a".to_string(), destination: "b".to_string() };
    assert_eq!(names(&copy.to_json()), vec!["source", "destination"]);
    assert_eq!(written(copy.to_json()), "{\"destination\":\"b\",\"source\":\"a\"}");
    let deletion = ModelDeletionRequest { name: "a".to_string() };
    assert_eq!(written(deletion.to_json()), "{\"name\":\"a\"}");
    let creation = CreationRequest {
        name: "mario".to_string(),
        modelfile: Some("FROM llama3".to_string()),
        stream: Some(true),
        path: None,
    };
    assert_eq!(creation.stream(), Some(true));
    assert_eq!(names(&creation.to_json()), vec!["name", "modelfile", "stream", "path"]);
    assert_eq!(
        written(creation.to_json()),
        "{\"modelfile\":\"FROM llama3\",\"name\":\"mario\",\"path\":null,\"stream\":true}"
    );
    let embeddings = EmbeddingGenerationRequest {
        model: "m".to_string(),
        prompt: "p".to_string(),
        options: None,
        keep_alive: None,
    };
    assert_eq!(names(&embeddings.to_json()), vec!["model", "prompt", "options", "keep_alive"]);
    assert_eq!(
        written(embeddings.to_json()),
        "{\"keep_alive\":null,\"model\":\"m\",\"options\":null,\"prompt\":\"p\"}"
    );
    assert_eq!(written(load_model("llama3")), "{\"model\":\"llama3\"}");
    assert_eq!(Operation::LoadModel.path(), "/api/generate");
}

#[test]
fn builders() {
    assert_eq!(written(Json::text("a\"b")), "\"a\\\"b\"");
    assert_eq!(written(Json::optional_text(&None)), "null");
    assert_eq!(written(Json::optional_text(&Some("x".to_string()))), "\"x\"");
    assert_eq!(written(Json::optional_bool(None)), "null");
    assert_eq!(written(Json::optional_bool(Some(false))), "false");
    assert_eq!(written(Json::texts(&vec!["a".to_string(), "b".to_string()])), "[\"a\",\"b\"]");
    assert_eq!(written(Json::optional_texts(&None)), "null");
    assert_eq!(written(Json::optional_texts(&Some(vec![]))), "[]");
    assert_eq!(written(Json::optional_object(&None)), "null");
    assert_eq!(written(Json::optional_object(&Some(vec![Member::new("k", Json::Null)]))), "{\"k\":null}");
    assert_eq!(written(Json::array(vec![Json::Number("1".to_string()), Json::Number("-2.5".to_string())])), "[1,-2.5]");
    assert_eq!(written(Json::object(vec![])), "{}");
    assert_eq!(written(RequestFormat::optional_to_json(Some(RequestFormat::Json))), "\"json\"");
    assert_eq!(written(RequestFormat::optional_to_json(None)), "null");
    let member = Member::new("name", Json::Bool(true));
    assert_eq!(member.name, "name");
    assert!(matches!(member.value, Json::Bool(true)));
    assert_eq!(duplicate_numbers(&vec![1, 2, 3]), vec![1, 2, 3]);
    assert_eq!(duplicate_texts(&vec!["a".to_string()]), vec!["a".to_string()]);
    let copies = duplicate_members(&vec![Member::new("k", Json::text("v"))]);
    assert_eq!(copies.len(), 1);
    assert_eq!(copies[0].name, "k");
}

#[test]
fn a_number_that_is_none_cannot_be_written() {
    let bad = Json::object(vec![Member::new("n", Json::Number("12a".to_string()))]);
    let failed = bad.to_bytes().unwrap_err();
    assert_eq!(failed.kind(), ErrorKind::ClientCreation);
    assert!(matches!(Json::Number("".to_string()).to_bytes(), Err(Error::ClientCreation(_))));
    assert_eq!(Json::Number("007".to_string()).to_bytes().map_err(|e| e.kind()), Err(ErrorKind::ClientCreation));
    assert_eq!(written(Json::Number("1e3".to_string())), "1000.0");
}

#[test]
fn what_is_written_reads_back() {
    let doc = Json::parse(b"{\"b\":[1,2.5,\"x\",null,{\"c\":false}],\"a\":-7}").unwrap();
    let bytes = doc.to_bytes().unwrap();
    assert_eq!(String::from_utf8(bytes.clone()).unwrap(), "{\"a\":-7,\"b\":[1,2.5,\"x\",null,{\"c\":false}]}");
    let again = Json::parse(&bytes).unwrap();
    assert_eq!(format!("{:?}", again), format!("{:?}", doc));
}

#[test]
fn host_is_kept_in_normal_form() {
    let host = Host::from_str("http://127.0.0.1:8080").unwrap();
    assert_eq!(host.as_str(), "http://127.0.0.1:8080/");
    assert_eq!(host.join("/api/generate").unwrap(), "http://127.0.0.1:8080/api/generate");
    assert_eq!(host.join(Operation::LocalModels.path()).unwrap(), "http://127.0.0.1:8080/api/tags");
    let nested = Host::from_str("https://example.net/a/b").unwrap();
    assert_eq!(nested.as_str(), "https://example.net/a/b");
    assert_eq!(nested.join("/api/ps").unwrap(), "https://example.net/api/ps");
    assert_eq!(nested.join("c").unwrap(), "https://example.net/a/c");
    let local = Host::localhost().unwrap();
    assert_eq!(local.as_str(), "http://127.0.0.1:11434/");
    assert_eq!(DEFAULT_HOST, "http://127.0.0.1:11434");
}

#[test]
fn what_is_no_url_is_refused() {
    assert_eq!(Host::from_str("127.0.0.1:11434/x y").unwrap_err().kind(), ErrorKind::UrlParsing);
    assert!(matches!(Host::from_str(""), Err(Error::UrlParsing(_))));
    assert!(matches!(Host::from_str("/api/generate"), Err(Error::UrlParsing(_))));
    let host = Host::from_str("http://localhost").unwrap();
    assert!(matches!(host.join("http://[::1"), Err(Error::UrlParsing(_))));
    let opaque = Host::from_str("mailto:someone@example.net").unwrap();
    assert!(matches!(opaque.join("/api/generate"), Err(Error::UrlParsing(_))));
}
