use ollama_rest::codec::{decode, decode_document, Response};
use ollama_rest::errors::{Error, ErrorKind};
use ollama_rest::json::{decimal_u64, Json, Member};
use ollama_rest::models::chat::{ChatResponse, Message, Role, ToolCall};
use ollama_rest::models::generate::GenerationResponse;
use ollama_rest::models::model::{
    ModelDownloadStatus, ModelPullStatus, ModelPushStatus, ModelUploadStatus,
};
use ollama_rest::models::Status;

fn text(s: &str) -> Json {
    Json::Text(s.to_string())
}

fn number(s: &str) -> Json {
    Json::Number(s.to_string())
}

fn object(members: Vec<(&str, Json)>) -> Json {
    Json::Object(
        members.into_iter().map(|(name, value)| Member { name: name.to_string(), value }).collect(),
    )
}

#[test]
fn parse_reads_a_document() {
    let doc = Json::parse(b" {\"status\":\"success\",\"n\":12,\"x\":-3,\"f\":1.5,\"big\":18446744073709551616,\"l\":[true,null]} ").unwrap();
    assert!(matches!(doc.member("status"), Some(Json::Text(s)) if s == "success"));
    assert_eq!(doc.member("n").unwrap().as_u64(), Some(12));
    assert!(matches!(doc.member("x"), Some(Json::Number(s)) if s == "-3"));
    assert_eq!(doc.member("x").unwrap().as_u64(), None);
    assert!(matches!(doc.member("f"), Some(Json::Number(s)) if s == "1.5"));
    assert_eq!(doc.member("f").unwrap().as_u64(), None);
    assert_eq!(doc.member("big").unwrap().as_u64(), None);
    let list = doc.member("l").unwrap().as_array().unwrap();
    assert_eq!(list.len(), 2);
    assert_eq!(list[0].as_bool(), Some(true));
    assert!(matches!(list[1], Json::Null));
    assert!(doc.member("missing").is_none());
    assert_eq!(doc.as_object().unwrap().len(), 6);
}

#[test]
fn parse_refuses_what_is_no_document() {
    assert!(matches!(Json::parse(b""), Err(Error::JsonDecoding(_))));
    assert!(matches!(Json::parse(b"{\"a\":1"), Err(Error::JsonDecoding(_))));
    assert!(matches!(Json::parse(b"{\"a\":1} {\"b\":2}"), Err(Error::JsonDecoding(_))));
    assert!(matches!(Json::parse(b"{\"a\":1}x"), Err(Error::JsonDecoding(_))));
    assert!(matches!(Json::parse(b"nul"), Err(Error::JsonDecoding(_))));
    assert!(matches!(Json::parse(b"null"), Ok(Json::Null)));
    assert!(matches!(Json::parse(b"\"a\""), Ok(Json::Text(s)) if s == "a"));
}

#[test]
fn decimal_numbers() {
    assert_eq!(decimal_u64("0"), Some(0));
    assert_eq!(decimal_u64("100"), Some(100));
    assert_eq!(decimal_u64("007"), Some(7));
    assert_eq!(decimal_u64("18446744073709551615"), Some(u64::MAX));
    assert_eq!(decimal_u64("18446744073709551616"), None);
    assert_eq!(decimal_u64("99999999999999999999999"), None);
    assert_eq!(decimal_u64(""), None);
    assert_eq!(decimal_u64("-1"), None);
    assert_eq!(decimal_u64("1.0"), None);
    assert_eq!(decimal_u64("1e3"), None);
    assert_eq!(decimal_u64("12a"), None);
    assert_eq!(decimal_u64("\u{0663}"), None);
}

#[test]
fn member_lookup() {
    let doc = object(vec![("a", number("1")), ("b", Json::Null), ("a", number("2"))]);
    assert_eq!(doc.member("a").unwrap().as_u64(), Some(1));
    assert!(matches!(doc.member("b"), Some(Json::Null)));
    assert!(doc.field("b").is_none());
    assert!(doc.field("c").is_none());
    assert_eq!(doc.u64_at("a"), Some(1));
    assert_eq!(doc.usize_at("a"), Some(1));
    assert_eq!(doc.u64_at("b"), None);
    assert_eq!(doc.text_at("a"), None);
    assert_eq!(doc.bool_at("a"), None);
    assert!(text("x").member("a").is_none());
    assert_eq!(text("x").as_text().map(|s| s.as_str()), Some("x"));
    assert!(number("1").as_text().is_none());
    assert!(text("x").as_array().is_none());
    assert!(text("x").as_object().is_none());
}

#[test]
fn duplicate_copies_a_tree() {
    let doc = Json::parse(b"{\"a\":[1,{\"b\":\"c\"},null,true],\"d\":2.5}").unwrap();
    let copy = doc.duplicate();
    assert_eq!(format!("{:?}", copy), format!("{:?}", doc));
}

#[test]
fn status_decodes_from_the_plain_shape() {
    let status: Status = decode(b"{\"status\":\"success\"}").unwrap();
    assert_eq!(status.status, "success");
    assert!(status.is_terminal());
    let with_more: Status = decode(b"{\"status\":\"ok\",\"extra\":[1,2]}").unwrap();
    assert_eq!(with_more.status, "ok");
    assert_eq!(decode::<Status>(b"{\"state\":\"success\"}").unwrap_err().kind(), ErrorKind::JsonDecoding);
    assert_eq!(decode::<Status>(b"{\"status\":null}").unwrap_err().kind(), ErrorKind::JsonDecoding);
    assert_eq!(decode::<Status>(b"{\"status\":7}").unwrap_err().kind(), ErrorKind::JsonDecoding);
    assert_eq!(decode::<Status>(b"[\"success\"]").unwrap_err().kind(), ErrorKind::JsonDecoding);
    assert_eq!(decode::<Status>(b"{\"status\":").unwrap_err().kind(), ErrorKind::JsonDecoding);
}

#[test]
fn decoding_twice_gives_equal_results() {
    let bytes = b"{\"status\":\"downloading\",\"digest\":\"sha256:abc\",\"total\":100,\"completed\":50}";
    let first: ModelPullStatus = decode(bytes).unwrap();
    let second: ModelPullStatus = decode(bytes).unwrap();
    assert_eq!(format!("{:?}", first), format!("{:?}", second));
    let copy = first.duplicate();
    assert_eq!(format!("{:?}", first), format!("{:?}", copy));
    let bad = b"{\"status\":";
    assert!(decode::<ModelPullStatus>(bad).is_err());
    assert!(decode::<ModelPullStatus>(bad).is_err());
}

#[test]
fn progress_shape_has_priority() {
    let doc = object(vec![
        ("status", text("downloading")),
        ("digest", text("sha256:abc")),
        ("total", number("100")),
    ]);
    let record: ModelPullStatus = decode_document(&doc).unwrap();
    assert_eq!(record.status, "downloading");
    let info = record.download_info.as_ref().unwrap();
    assert_eq!(info.digest, "sha256:abc");
    assert_eq!(info.total, 100);
    assert_eq!(info.completed, None);
    assert!(!record.is_terminal());
    assert!(ModelPullStatus::progress(&doc).is_some());
    assert!(ModelPullStatus::plain(&doc).unwrap().download_info.is_none());
    let push: ModelPushStatus = decode_document(&doc).unwrap();
    let upload = push.upload_info.as_ref().unwrap();
    assert_eq!(upload.digest, "sha256:abc");
    assert_eq!(upload.total, 100);
    assert!(!push.is_terminal());
}

#[test]
fn plain_shape_is_the_fallback() {
    let no_total: ModelPullStatus = decode(b"{\"status\":\"s\",\"digest\":\"d\"}").unwrap();
    assert!(no_total.download_info.is_none());
    assert!(no_total.is_terminal());
    let bad_total: ModelPullStatus = decode(b"{\"status\":\"s\",\"digest\":\"d\",\"total\":\"x\"}").unwrap();
    assert!(bad_total.download_info.is_none());
    let negative: ModelPullStatus = decode(b"{\"status\":\"s\",\"digest\":\"d\",\"total\":-1}").unwrap();
    assert!(negative.download_info.is_none());
    let fraction: ModelPullStatus = decode(b"{\"status\":\"s\",\"digest\":\"d\",\"total\":1.5}").unwrap();
    assert!(fraction.download_info.is_none());
    let bad_completed: ModelPullStatus =
        decode(b"{\"status\":\"s\",\"digest\":\"d\",\"total\":1,\"completed\":\"x\"}").unwrap();
    assert!(bad_completed.download_info.is_none());
    let null_completed: ModelPullStatus =
        decode(b"{\"status\":\"s\",\"digest\":\"d\",\"total\":1,\"completed\":null}").unwrap();
    assert_eq!(null_completed.download_info.unwrap().completed, None);
    let push: ModelPushStatus = decode(b"{\"status\":\"s\",\"total\":5}").unwrap();
    assert!(push.upload_info.is_none());
    assert!(push.is_terminal());
    assert!(decode::<ModelPushStatus>(b"{\"digest\":\"d\",\"total\":5}").is_err());
    assert!(ModelDownloadStatus::from_json(&object(vec![("digest", text("d"))])).is_none());
    assert!(ModelUploadStatus::from_json(&object(vec![("total", number("1"))])).is_none());
}

#[test]
fn generation_record_decodes_with_its_counters() {
    let bytes = b"{\"model\":\"llama3\",\"created_at\":\"2024-05-01T10:00:00.123Z\",\"response\":\"\",\"done\":true,\"total_duration\":5043500667,\"load_duration\":5025959,\"prompt_eval_count\":26,\"prompt_eval_duration\":325953000,\"eval_count\":290,\"eval_duration\":4709213000,\"context\":[1,2,3]}";
    let record: GenerationResponse = decode(bytes).unwrap();
    assert_eq!(record.model, "llama3");
    assert_eq!(record.created_at, "2024-05-01T10:00:00.123Z");
    assert_eq!(record.response, "");
    assert!(record.done);
    assert!(record.is_terminal());
    assert_eq!(record.total_duration, Some(5043500667));
    assert_eq!(record.load_duration, Some(5025959));
    assert_eq!(record.prompt_eval_count, Some(26));
    assert_eq!(record.prompt_eval_duration, Some(325953000));
    assert_eq!(record.eval_count, Some(290));
    assert_eq!(record.eval_duration, Some(4709213000));
    assert_eq!(record.context, Some(vec![1, 2, 3]));
    let copy = record.duplicate();
    assert_eq!(format!("{:?}", copy), format!("{:?}", record));
}

#[test]
fn generation_record_needs_its_required_fields() {
    let ok = b"{\"model\":\"m\",\"created_at\":\"t\",\"response\":\"Hi\",\"done\":false}";
    let record: GenerationResponse = decode(ok).unwrap();
    assert!(!record.is_terminal());
    assert_eq!(record.context, None);
    assert_eq!(record.total_duration, None);
    assert!(decode::<GenerationResponse>(b"{\"created_at\":\"t\",\"response\":\"Hi\",\"done\":false}").is_err());
    assert!(decode::<GenerationResponse>(b"{\"model\":\"m\",\"response\":\"Hi\",\"done\":false}").is_err());
    assert!(decode::<GenerationResponse>(b"{\"model\":\"m\",\"created_at\":\"t\",\"done\":false}").is_err());
    assert!(decode::<GenerationResponse>(b"{\"model\":\"m\",\"created_at\":\"t\",\"response\":\"Hi\"}").is_err());
    assert!(decode::<GenerationResponse>(b"{\"model\":\"m\",\"created_at\":\"t\",\"response\":\"Hi\",\"done\":\"no\"}").is_err());
    assert!(decode::<GenerationResponse>(b"{\"model\":\"m\",\"created_at\":\"t\",\"response\":\"Hi\",\"done\":false,\"eval_count\":-1}").is_err());
    assert!(decode::<GenerationResponse>(b"{\"model\":\"m\",\"created_at\":\"t\",\"response\":\"Hi\",\"done\":false,\"context\":[1,4294967296]}").is_err());
    assert!(decode::<GenerationResponse>(b"{\"model\":\"m\",\"created_at\":\"t\",\"response\":\"Hi\",\"done\":false,\"context\":[4294967295],\"eval_count\":null}").is_ok());
}

#[test]
fn chat_record_decodes_with_its_message() {
    let bytes = b"{\"model\":\"llama3\",\"created_at\":\"2024-05-01T10:00:00Z\",\"message\":{\"role\":\"assistant\",\"content\":\"Hello\",\"images\":[\"aGk=\"],\"tool_calls\":[{\"function\":{\"name\":\"get_weather\",\"arguments\":{\"city\":\"Toronto\",\"days\":3}}}]},\"done\":false}";
    let record: ChatResponse = decode(bytes).unwrap();
    assert_eq!(record.model, "llama3");
    assert!(!record.done);
    assert!(!record.is_terminal());
    let message: &Message = record.message.as_ref().unwrap();
    assert_eq!(message.role, Role::Assistant);
    assert_eq!(message.content, "Hello");
    assert_eq!(message.images, Some(vec!["aGk=".to_string()]));
    let calls = message.tool_calls.as_ref().unwrap();
    assert_eq!(calls.len(), 1);
    let ToolCall::Function { name, arguments } = &calls[0];
    assert_eq!(name, "get_weather");
    assert_eq!(arguments.len(), 2);
    let city = arguments.iter().find(|m| m.name == "city").unwrap();
    assert!(matches!(&city.value, Json::Text(s) if s == "Toronto"));
    let days = arguments.iter().find(|m| m.name == "days").unwrap();
    assert_eq!(days.value.as_u64(), Some(3));
    let copy = record.duplicate();
    assert_eq!(format!("{:?}", copy), format!("{:?}", record));
}

#[test]
fn chat_record_without_message_is_accepted() {
    let record: ChatResponse =
        decode(b"{\"model\":\"m\",\"created_at\":\"t\",\"done\":true,\"message\":null,\"eval_count\":4}").unwrap();
    assert!(record.message.is_none());
    assert!(record.is_terminal());
    assert_eq!(record.eval_count, Some(4));
}

#[test]
fn chat_record_with_a_wrong_message_is_refused() {
    assert!(decode::<ChatResponse>(b"{\"model\":\"m\",\"created_at\":\"t\",\"done\":true,\"message\":{\"role\":\"robot\",\"content\":\"x\"}}").is_err());
    assert!(decode::<ChatResponse>(b"{\"model\":\"m\",\"created_at\":\"t\",\"done\":true,\"message\":{\"role\":\"user\"}}").is_err());
    assert!(decode::<ChatResponse>(b"{\"model\":\"m\",\"created_at\":\"t\",\"done\":true,\"message\":{\"role\":\"user\",\"content\":\"x\",\"images\":[1]}}").is_err());
    assert!(decode::<ChatResponse>(b"{\"model\":\"m\",\"created_at\":\"t\",\"done\":true,\"message\":{\"role\":\"user\",\"content\":\"x\",\"tool_calls\":[{\"function\":{\"name\":\"f\"}}]}}").is_err());
    assert!(decode::<ChatResponse>(b"{\"model\":\"m\",\"created_at\":\"t\",\"done\":true,\"message\":{\"role\":\"user\",\"content\":\"x\",\"tool_calls\":[{\"function\":{\"name\":\"f\",\"arguments\":{}},\"other\":1}]}}").is_err());
    assert!(decode::<ChatResponse>(b"{\"model\":\"m\",\"created_at\":\"t\",\"done\":true,\"message\":{\"role\":\"user\",\"content\":\"x\",\"tool_calls\":[{\"method\":{\"name\":\"f\",\"arguments\":{}}}]}}").is_err());
    assert!(decode::<ChatResponse>(b"{\"model\":\"m\",\"created_at\":\"t\",\"done\":true,\"message\":\"hi\"}").is_err());
    assert!(decode::<ChatResponse>(b"{\"model\":\"m\",\"created_at\":\"t\",\"done\":true,\"message\":{\"role\":\"tool\",\"content\":\"x\",\"tool_calls\":[]}}").is_ok());
}

#[test]
fn a_parsed_object_holds_each_name_once() {
    let doc = Json::parse(b"{\"b\":1,\"a\":{\"x\":1,\"x\":2},\"b\":3}").unwrap();
    let members = doc.as_object().unwrap();
    assert_eq!(members.iter().map(|m| m.name.as_str()).collect::<Vec<&str>>(), vec!["a", "b"]);
    assert_eq!(doc.member("b").unwrap().as_u64(), Some(3));
    let inner = doc.member("a").unwrap();
    assert_eq!(inner.as_object().unwrap().len(), 1);
    assert_eq!(inner.member("x").unwrap().as_u64(), Some(2));
    let call = ToolCall::from_json(
        &Json::parse(b"{\"function\":{\"name\":\"f\",\"arguments\":{\"k\":1,\"k\":2,\"j\":0}}}").unwrap(),
    )
    .unwrap();
    let ToolCall::Function { name: _, arguments } = call;
    assert_eq!(arguments.iter().map(|m| m.name.as_str()).collect::<Vec<&str>>(), vec!["j", "k"]);
}
