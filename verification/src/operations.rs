//! The operation surface: which endpoint an operation calls, how it treats
//! the streaming flag, what it makes of the status code, and the typed
//! entry points of the streamed operations.

use vstd::prelude::*;

use crate::codec::Request;
use crate::engine::{
    callback_mode, execute, execute_streamed, is_accepted, iterator_mode, opens, ChunkStream,
    Execution, FlagPolicy,
};
use crate::errors::Error;
use crate::json::{Json, JsonValue, Member};
use crate::models::chat::{ChatRequest, ChatResponse};
use crate::models::create::CreationRequest;
use crate::models::generate::{GenerationRequest, GenerationResponse};
use crate::models::model::{ModelPullStatus, ModelPushStatus, ModelSyncRequest};
use crate::models::Status;

verus! {

/// An HTTP method.
#[derive(Debug, Clone, Copy, PartialEq, Eq, Structural)]
pub enum Method {
    Get,
    Post,
    Delete,
    Head,
}

/// The operations of the API.
#[derive(Debug, Clone, Copy, PartialEq, Eq, Structural)]
pub enum Operation {
    Generate,
    Chat,
    Create,
    LoadModel,
    BlobExists,
    CreateBlob,
    LocalModels,
    Model,
    CopyModel,
    DeleteModel,
    PullModel,
    PushModel,
    GenerateEmbeddings,
    RunningModels,
}

impl Operation {
    /// The method of the operation's request.
    pub open spec fn spec_method(self) -> Method {
        match self {
            Operation::BlobExists => Method::Head,
            Operation::LocalModels | Operation::RunningModels => Method::Get,
            Operation::DeleteModel => Method::Delete,
            _ => Method::Post,
        }
    }

    /// The path of the operation's endpoint. The two blob operations put
    /// the blob's digest behind it.
    pub open spec fn spec_path(self) -> Seq<char> {
        match self {
            Operation::Generate | Operation::LoadModel => "/api/generate"@,
            Operation::Chat => "/api/chat"@,
            Operation::Create => "/api/create"@,
            Operation::BlobExists | Operation::CreateBlob => "/api/blobs/sha256:"@,
            Operation::LocalModels => "/api/tags"@,
            Operation::Model => "/api/show"@,
            Operation::CopyModel => "/api/copy"@,
            Operation::DeleteModel => "/api/delete"@,
            Operation::PullModel => "/api/pull"@,
            Operation::PushModel => "/api/push"@,
            Operation::GenerateEmbeddings => "/api/embeddings"@,
            Operation::RunningModels => "/api/ps"@,
        }
    }

    /// What a streamed operation makes of the streaming flag; `None` for an
    /// operation that is not streamed. All five streamed operations let the
    /// flag choose.
    pub open spec fn spec_policy(self) -> Option<FlagPolicy> {
        match self {
            Operation::Generate | Operation::Chat | Operation::Create | Operation::PullModel
            | Operation::PushModel => Some(FlagPolicy::Honour),
            _ => None,
        }
    }

    /// What the operation makes of the status code of the answer. Looking
    /// up a blob, copying and deleting a model succeed on 200 and report a
    /// missing blob or model on 404; creating a blob succeeds on 201; the
    /// operations that read a body succeed on the codes from 200 to 299.
    /// Any other code is handed back as `ErrorStatus`.
    pub open spec fn spec_check_status(self, status: u16) -> Result<(), Error> {
        match self {
            Operation::BlobExists | Operation::CopyModel | Operation::DeleteModel => if status
                == 200 {
                Ok(())
            } else if status == 404 {
                Err(Error::NotExists)
            } else {
                Err(Error::ErrorStatus(status))
            },
            Operation::CreateBlob => if status == 201 {
                Ok(())
            } else {
                Err(Error::ErrorStatus(status))
            },
            _ => if crate::engine::accepted(status) {
                Ok(())
            } else {
                Err(Error::ErrorStatus(status))
            },
        }
    }

    /// The method of the operation's request.
    #[verifier::when_used_as_spec(spec_method)]
    pub fn method(self) -> (m: Method)
        ensures
            m == self.spec_method(),
    {
        match self {
            Operation::BlobExists => Method::Head,
            Operation::LocalModels | Operation::RunningModels => Method::Get,
            Operation::DeleteModel => Method::Delete,
            _ => Method::Post,
        }
    }

    /// The path of the operation's endpoint.
    pub fn path(self) -> (p: &'static str)
        ensures
            p@ == self.spec_path(),
    {
        match self {
            Operation::Generate | Operation::LoadModel => "/api/generate",
            Operation::Chat => "/api/chat",
            Operation::Create => "/api/create",
            Operation::BlobExists | Operation::CreateBlob => "/api/blobs/sha256:",
            Operation::LocalModels => "/api/tags",
            Operation::Model => "/api/show",
            Operation::CopyModel => "/api/copy",
            Operation::DeleteModel => "/api/delete",
            Operation::PullModel => "/api/pull",
            Operation::PushModel => "/api/push",
            Operation::GenerateEmbeddings => "/api/embeddings",
            Operation::RunningModels => "/api/ps",
        }
    }

    /// What a streamed operation makes of the streaming flag.
    #[verifier::when_used_as_spec(spec_policy)]
    pub fn policy(self) -> (p: Option<FlagPolicy>)
        ensures
            p == self.spec_policy(),
    {
        match self {
            Operation::Generate | Operation::Chat | Operation::Create | Operation::PullModel
            | Operation::PushModel => Some(FlagPolicy::Honour),
            _ => None,
        }
    }

    /// What the operation makes of the status code of the answer.
    #[verifier::when_used_as_spec(spec_check_status)]
    pub fn check_status(self, status: u16) -> (r: Result<(), Error>)
        ensures
            r == self.spec_check_status(status),
    {
        match self {
            Operation::BlobExists | Operation::CopyModel | Operation::DeleteModel => {
                if status == 200 {
                    Ok(())
                } else if status == 404 {
                    Err(Error::NotExists)
                } else {
                    Err(Error::ErrorStatus(status))
                }
            },
            Operation::CreateBlob => {
                if status == 201 {
                    Ok(())
                } else {
                    Err(Error::ErrorStatus(status))
                }
            },
            _ => {
                if is_accepted(status) {
                    Ok(())
                } else {
                    Err(Error::ErrorStatus(status))
                }
            },
        }
    }
}

/// The body that loads a model: a generation request that names the model
/// and holds no prompt.
pub open spec fn load_model_json(model: Seq<char>) -> JsonValue {
    JsonValue::Object(seq![JsonValue::entry("model"@, JsonValue::Text(model))])
}

/// The body that loads a model is well-formed.
pub proof fn lemma_load_model_json_is_well_formed(model: Seq<char>)
    ensures
        load_model_json(model).well_formed(),
{
    reveal_with_fuel(JsonValue::well_formed, 2);
}

/// Encodes the body that loads a model.
pub fn load_model(model: &str) -> (doc: Json)
    ensures
        doc.deep_view() == load_model_json(model@),
{
    let mut members: Vec<Member> = Vec::new();
    members.push(Member::new("model", Json::text(model)));
    assert(members.deep_view() =~= load_model_json(model@)->Object_0);
    Json::object(members)
}

/// The path under which a blob is looked up and created: the digest is put
/// behind the prefix as it is, so it must not come from an untrusted hand.
pub fn blob_path(digest: &str) -> (p: String)
    ensures
        p@ == "/api/blobs/sha256:"@ + digest@,
{
    String::from_str("/api/blobs/sha256:").concat(digest)
}

/// Whether a blob exists, from the status code of the lookup: `Ok` on 200,
/// `NotExists` on 404, `ErrorStatus` with the code on any other.
pub fn blob_exists(status: u16) -> (r: Result<(), Error>)
    ensures
        r == Operation::BlobExists.spec_check_status(status),
{
    Operation::BlobExists.check_status(status)
}

/// Whether a blob was created, from the status code of the upload: `Ok` on
/// 201, `ErrorStatus` with the code on any other.
pub fn create_blob(status: u16) -> (r: Result<(), Error>)
    ensures
        r == Operation::CreateBlob.spec_check_status(status),
{
    Operation::CreateBlob.check_status(status)
}

/// Whether a model was copied, from the status code of the answer: `Ok` on
/// 200, `NotExists` on 404 (the source is missing), `ErrorStatus` with the
/// code on any other.
pub fn copy_model(status: u16) -> (r: Result<(), Error>)
    ensures
        r == Operation::CopyModel.spec_check_status(status),
{
    Operation::CopyModel.check_status(status)
}

/// Whether a model was deleted, from the status code of the answer: `Ok` on
/// 200, `NotExists` on 404 (the model is missing), `ErrorStatus` with the
/// code on any other.
pub fn delete_model(status: u16) -> (r: Result<(), Error>)
    ensures
        r == Operation::DeleteModel.spec_check_status(status),
{
    Operation::DeleteModel.check_status(status)
}

/// Generate completion response for one single prompt (callback form), against an answer that is all at hand: its
/// status code and its chunks.
pub fn generate(request: &GenerationRequest, handler: bool, status: u16, chunks: &Vec<Vec<u8>>) -> (run:
    Execution<GenerationResponse>)
    ensures
        run.describes(
            callback_mode(FlagPolicy::Honour, request.flag(), handler),
            handler,
            status,
            chunks.deep_view(),
        ),
{
    execute(FlagPolicy::Honour, request.stream(), handler, status, chunks)
}

/// Generate completion response for one single prompt (iterator form), against an answer that is all at hand: its
/// status code and its chunks.
pub fn generate_streamed(request: &GenerationRequest, status: u16, chunks: Vec<Vec<u8>>) -> (r: Result<
    ChunkStream<GenerationResponse>,
    Error,
>)
    ensures
        opens(r, iterator_mode(FlagPolicy::Honour, request.flag()), status, chunks.deep_view()),
{
    execute_streamed(FlagPolicy::Honour, request.stream(), status, chunks)
}

/// Generate completion response from chat history (callback form), against an answer that is all at hand: its
/// status code and its chunks.
pub fn chat(request: &ChatRequest, handler: bool, status: u16, chunks: &Vec<Vec<u8>>) -> (run:
    Execution<ChatResponse>)
    ensures
        run.describes(
            callback_mode(FlagPolicy::Honour, request.flag(), handler),
            handler,
            status,
            chunks.deep_view(),
        ),
{
    execute(FlagPolicy::Honour, request.stream(), handler, status, chunks)
}

/// Generate completion response from chat history (iterator form), against an answer that is all at hand: its
/// status code and its chunks.
pub fn chat_streamed(request: &ChatRequest, status: u16, chunks: Vec<Vec<u8>>) -> (r: Result<
    ChunkStream<ChatResponse>,
    Error,
>)
    ensures
        opens(r, iterator_mode(FlagPolicy::Honour, request.flag()), status, chunks.deep_view()),
{
    execute_streamed(FlagPolicy::Honour, request.stream(), status, chunks)
}

/// Create a model (callback form), against an answer that is all at hand: its
/// status code and its chunks.
pub fn create(request: &CreationRequest, handler: bool, status: u16, chunks: &Vec<Vec<u8>>) -> (run:
    Execution<Status>)
    ensures
        run.describes(
            callback_mode(FlagPolicy::Honour, request.flag(), handler),
            handler,
            status,
            chunks.deep_view(),
        ),
{
    execute(FlagPolicy::Honour, request.stream(), handler, status, chunks)
}

/// Create a model (iterator form), against an answer that is all at hand: its
/// status code and its chunks.
pub fn create_streamed(request: &CreationRequest, status: u16, chunks: Vec<Vec<u8>>) -> (r: Result<
    ChunkStream<Status>,
    Error,
>)
    ensures
        opens(r, iterator_mode(FlagPolicy::Honour, request.flag()), status, chunks.deep_view()),
{
    execute_streamed(FlagPolicy::Honour, request.stream(), status, chunks)
}

/// Pull a model (callback form), against an answer that is all at hand: its
/// status code and its chunks.
pub fn pull_model(request: &ModelSyncRequest, handler: bool, status: u16, chunks: &Vec<Vec<u8>>) -> (run:
    Execution<ModelPullStatus>)
    ensures
        run.describes(
            callback_mode(FlagPolicy::Honour, request.flag(), handler),
            handler,
            status,
            chunks.deep_view(),
        ),
{
    execute(FlagPolicy::Honour, request.stream(), handler, status, chunks)
}

/// Pull a model (iterator form), against an answer that is all at hand: its
/// status code and its chunks.
pub fn pull_model_streamed(request: &ModelSyncRequest, status: u16, chunks: Vec<Vec<u8>>) -> (r: Result<
    ChunkStream<ModelPullStatus>,
    Error,
>)
    ensures
        opens(r, iterator_mode(FlagPolicy::Honour, request.flag()), status, chunks.deep_view()),
{
    execute_streamed(FlagPolicy::Honour, request.stream(), status, chunks)
}

/// Push a model (callback form), against an answer that is all at hand: its
/// status code and its chunks.
pub fn push_model(request: &ModelSyncRequest, handler: bool, status: u16, chunks: &Vec<Vec<u8>>) -> (run:
    Execution<ModelPushStatus>)
    ensures
        run.describes(
            callback_mode(FlagPolicy::Honour, request.flag(), handler),
            handler,
            status,
            chunks.deep_view(),
        ),
{
    execute(FlagPolicy::Honour, request.stream(), handler, status, chunks)
}

/// Push a model (iterator form), against an answer that is all at hand: its
/// status code and its chunks.
pub fn push_model_streamed(request: &ModelSyncRequest, status: u16, chunks: Vec<Vec<u8>>) -> (r: Result<
    ChunkStream<ModelPushStatus>,
    Error,
>)
    ensures
        opens(r, iterator_mode(FlagPolicy::Honour, request.flag()), status, chunks.deep_view()),
{
    execute_streamed(FlagPolicy::Honour, request.stream(), status, chunks)
}

} // verus!
