use std::str::FromStr;

use ollama_rest::errors::{Error, ErrorKind};
use ollama_rest::models::chat::Role;
use ollama_rest::models::errors::ParsingError;
use ollama_rest::models::RequestFormat;
use ollama_rest::operations::{
    blob_exists, blob_path, copy_model, create_blob, delete_model, Method, Operation,
};
use ollama_rest::engine::FlagPolicy;
use ollama_rest::text::same_text;

#[test]
fn role_names() {
    assert_eq!(Role::System.as_str(), "system");
    assert_eq!(Role::User.as_str(), "user");
    assert_eq!(Role::Assistant.as_str(), "assistant");
    assert_eq!(Role::Tool.as_str(), "tool");
    assert_eq!(Role::Assistant.to_string(), "assistant");
    let name: &str = Role::Tool.as_ref();
    assert_eq!(name, "tool");
}

#[test]
fn role_from_its_name() {
    assert_eq!(Role::from_str("system"), Ok(Role::System));
    assert_eq!(Role::from_str("user"), Ok(Role::User));
    assert_eq!(Role::from_str("assistant"), Ok(Role::Assistant));
    assert_eq!(Role::from_str("tool"), Ok(Role::Tool));
    assert_eq!(Role::from_str("User"), Err(ParsingError::InvalidStr));
    assert_eq!(Role::from_str(""), Err(ParsingError::InvalidStr));
    assert_eq!(Role::from_str("tools"), Err(ParsingError::InvalidStr));
    assert_eq!("assistant".parse::<Role>(), Ok(Role::Assistant));
    assert_eq!(<Role as FromStr>::from_str("nobody"), Err(ParsingError::InvalidStr));
    for role in [Role::System, Role::User, Role::Assistant, Role::Tool] {
        assert_eq!(Role::from_str(role.as_str()), Ok(role));
    }
}

#[test]
fn request_format_names() {
    assert_eq!(RequestFormat::Json.as_str(), "json");
    assert_eq!(RequestFormat::Json.to_string(), "json");
    assert_eq!(RequestFormat::from_str("json"), Ok(RequestFormat::Json));
    assert_eq!(RequestFormat::from_str("JSON"), Err(ParsingError::InvalidStr));
    assert_eq!(RequestFormat::from_str("yaml"), Err(ParsingError::InvalidStr));
    assert_eq!("json".parse::<RequestFormat>(), Ok(RequestFormat::Json));
}

#[test]
fn text_comparison() {
    assert!(same_text("", ""));
    assert!(same_text("abc", "abc"));
    assert!(!same_text("abc", "abd"));
    assert!(!same_text("abc", "ab"));
}

#[test]
fn error_kinds() {
    assert_eq!(Error::ClientCreation("x".to_string()).kind(), ErrorKind::ClientCreation);
    assert_eq!(Error::EmptyResponse.kind(), ErrorKind::EmptyResponse);
    assert_eq!(Error::ErrorStatus(500).kind(), ErrorKind::ErrorStatus);
    assert_eq!(Error::Event.kind(), ErrorKind::Event);
    assert_eq!(Error::NoCallback.kind(), ErrorKind::NoCallback);
    assert_eq!(Error::NotExists.kind(), ErrorKind::NotExists);
    assert_eq!(Error::StreamingOff.kind(), ErrorKind::StreamingOff);
    assert_eq!(Error::UrlParsing("x".to_string()).kind(), ErrorKind::UrlParsing);
    assert_eq!(Error::JsonDecoding("x".to_string()).kind(), ErrorKind::JsonDecoding);
}

#[test]
fn status_of_a_lookup() {
    assert!(matches!(blob_exists(200), Ok(())));
    assert!(matches!(blob_exists(404), Err(Error::NotExists)));
    assert!(matches!(blob_exists(500), Err(Error::ErrorStatus(500))));
    assert!(matches!(blob_exists(201), Err(Error::ErrorStatus(201))));
    assert!(matches!(copy_model(200), Ok(())));
    assert!(matches!(copy_model(404), Err(Error::NotExists)));
    assert!(matches!(copy_model(400), Err(Error::ErrorStatus(400))));
    assert!(matches!(delete_model(200), Ok(())));
    assert!(matches!(delete_model(404), Err(Error::NotExists)));
    assert!(matches!(delete_model(204), Err(Error::ErrorStatus(204))));
}

#[test]
fn status_of_an_upload() {
    assert!(matches!(create_blob(201), Ok(())));
    assert!(matches!(create_blob(200), Err(Error::ErrorStatus(200))));
    assert!(matches!(create_blob(404), Err(Error::ErrorStatus(404))));
    assert!(matches!(create_blob(400), Err(Error::ErrorStatus(400))));
}

#[test]
fn status_of_an_answer_with_a_body() {
    assert!(matches!(Operation::LoadModel.check_status(200), Ok(())));
    assert!(matches!(Operation::LoadModel.check_status(404), Err(Error::ErrorStatus(404))));
    assert!(matches!(Operation::Generate.check_status(500), Err(Error::ErrorStatus(500))));
    assert!(matches!(Operation::Generate.check_status(299), Ok(())));
    assert!(matches!(Operation::Generate.check_status(300), Err(Error::ErrorStatus(300))));
    assert!(matches!(Operation::Generate.check_status(199), Err(Error::ErrorStatus(199))));
    assert!(matches!(Operation::LocalModels.check_status(404), Err(Error::ErrorStatus(404))));
    assert!(matches!(Operation::LocalModels.check_status(200), Ok(())));
    assert!(matches!(Operation::Model.check_status(201), Ok(())));
    assert!(matches!(Operation::RunningModels.check_status(502), Err(Error::ErrorStatus(502))));
    assert!(matches!(Operation::GenerateEmbeddings.check_status(400), Err(Error::ErrorStatus(400))));
    assert!(matches!(Operation::PullModel.check_status(404), Err(Error::ErrorStatus(404))));
    assert!(matches!(Operation::PushModel.check_status(200), Ok(())));
}

#[test]
fn endpoints() {
    assert_eq!(Operation::Generate.path(), "/api/generate");
    assert_eq!(Operation::LoadModel.path(), "/api/generate");
    assert_eq!(Operation::Chat.path(), "/api/chat");
    assert_eq!(Operation::Create.path(), "/api/create");
    assert_eq!(Operation::LocalModels.path(), "/api/tags");
    assert_eq!(Operation::Model.path(), "/api/show");
    assert_eq!(Operation::CopyModel.path(), "/api/copy");
    assert_eq!(Operation::DeleteModel.path(), "/api/delete");
    assert_eq!(Operation::PullModel.path(), "/api/pull");
    assert_eq!(Operation::PushModel.path(), "/api/push");
    assert_eq!(Operation::GenerateEmbeddings.path(), "/api/embeddings");
    assert_eq!(Operation::RunningModels.path(), "/api/ps");
    assert_eq!(Operation::BlobExists.path(), "/api/blobs/sha256:");
    assert_eq!(blob_path("29fdb92e57cf"), "/api/blobs/sha256:29fdb92e57cf");
    assert_eq!(Operation::BlobExists.method(), Method::Head);
    assert_eq!(Operation::CreateBlob.method(), Method::Post);
    assert_eq!(Operation::LocalModels.method(), Method::Get);
    assert_eq!(Operation::RunningModels.method(), Method::Get);
    assert_eq!(Operation::DeleteModel.method(), Method::Delete);
    assert_eq!(Operation::Generate.method(), Method::Post);
    assert_eq!(Operation::Generate.policy(), Some(FlagPolicy::Honour));
    assert_eq!(Operation::Chat.policy(), Some(FlagPolicy::Honour));
    assert_eq!(Operation::Create.policy(), Some(FlagPolicy::Honour));
    assert_eq!(Operation::PullModel.policy(), Some(FlagPolicy::Honour));
    assert_eq!(Operation::PushModel.policy(), Some(FlagPolicy::Honour));
    assert_eq!(Operation::CopyModel.policy(), None);
}
