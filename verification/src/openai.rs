use vstd::prelude::*;
use vstd::string::StringExecFns;
use crate::{OPENAI_MODEL, OPENAI_PROMPT_TOKENS_COUNT, OPENAI_TEMPERATURE};

verus! {

/// Where recordings are sent to be transcribed.
pub const TRANSCRIPTION_URL: &'static str = "https://api.openai.com/v1/audio/transcriptions";

/// Where questions are sent to be completed.
pub const COMPLETION_URL: &'static str = "https://api.openai.com/v1/completions";

/// Transcription model that is asked.
pub const TRANSCRIPTION_MODEL: &'static str = "whisper-1";

/// The service's answer to a transcription request.
#[derive(Debug, Clone)]
pub struct OpenAiSpeechToTextRes {
    pub text: Option<String>,
    pub error: Option<OpenAiError>,
}

/// The service's answer to a completion request.
#[derive(Debug, Clone)]
pub struct OpenAiCompletionRes {
    pub id: Option<String>,
    pub object: Option<String>,
    pub created: Option<u64>,
    pub model: Option<String>,
    pub choices: Option<Vec<OpenAiChoices>>,
    pub usage: Option<OpenAiUsage>,
    pub error: Option<OpenAiError>,
}

/// One completion among those that the service offers.
#[derive(Debug, Clone)]
pub struct OpenAiChoices {
    pub text: Option<String>,
    pub index: Option<u64>,
    pub logprobs: Option<String>,
    pub finish_reason: Option<String>,
}

/// The tokens that a completion used.
#[derive(Debug, Clone)]
pub struct OpenAiUsage {
    pub prompt_tokens: Option<u64>,
    pub completion_tokens: Option<u64>,
    pub total_tokens: Option<u64>,
}

/// The service's report of a failed request. `kind` is what the service
/// sends under the key `type`.
#[derive(Debug, Clone)]
pub struct OpenAiError {
    pub message: Option<String>,
    pub kind: Option<String>,
    pub param: Option<String>,
    pub code: Option<String>,
}

#[verifier::external_type_specification]
#[verifier::external_body]
#[verifier::reject_recursive_types(K)]
#[verifier::reject_recursive_types(V)]
pub struct ExJsonMap<K, V>(serde_json::Map<K, V>);

#[verifier::external_type_specification]
#[verifier::external_body]
pub struct ExJsonValue(serde_json::Value);

/// A JSON object: values by their keys.
pub type JsonObject = serde_json::Map<String, serde_json::Value>;

/// What a member of a request body holds.
pub enum Member {
    Text(Seq<char>),
    Number(u32),
}

/// What a JSON value holds, for the values that a request body is made of.
pub uninterp spec fn member_of(value: serde_json::Value) -> Member;

/// The members of a JSON object, by their keys.
pub uninterp spec fn members_of(body: JsonObject) -> Map<Seq<char>, Member>;

/// The members of an object that has none.
pub open spec fn no_members() -> Map<Seq<char>, Member> {
    Map::empty()
}

/// `serde_json::Value::String`: the JSON string that holds `text`.
#[verifier::external_body]
fn text_value(text: String) -> (value: serde_json::Value)
    ensures
        member_of(value) == Member::Text(text@),
{
    serde_json::Value::String(text)
}

/// `serde_json::Number::from` for a `u32`, in `serde_json::Value::Number`:
/// the JSON number that holds `number`.
#[verifier::external_body]
fn number_value(number: u32) -> (value: serde_json::Value)
    ensures
        member_of(value) == Member::Number(number),
{
    serde_json::Value::Number(serde_json::Number::from(number))
}

/// `serde_json::Map::new`: an object without members.
#[verifier::external_body]
fn empty_object() -> (body: JsonObject)
    ensures
        members_of(body) == no_members(),
{
    serde_json::Map::new()
}

/// `serde_json::Map::insert`: afterwards the object holds `value` under
/// `key`, in place of what it held there, and its other members as before.
#[verifier::external_body]
fn insert_member(
    body: &mut JsonObject,
    key: &str,
    value: serde_json::Value,
)
    ensures
        members_of(*final(body)) == members_of(*old(body)).insert(key@, member_of(value)),
{
    body.insert(key.to_string(), value);
}

/// The value of the authorization header for a key.
pub open spec fn bearer_of(api_key: Seq<char>) -> Seq<char> {
    "Bearer "@ + api_key
}

pub fn authorization_header(api_key: &str) -> (header: String)
    ensures
        header@ == bearer_of(api_key@),
{
    String::from_str("Bearer ").concat(api_key)
}

/// The members of the body that asks the service to complete `question`:
/// the fixed model, token limit and temperature, and the question as the
/// prompt.
pub open spec fn completion_members(question: Seq<char>) -> Map<Seq<char>, Member> {
    no_members().insert("model"@, Member::Text(OPENAI_MODEL@)).insert(
        "prompt"@,
        Member::Text(question),
    ).insert("max_tokens"@, Member::Number(OPENAI_PROMPT_TOKENS_COUNT)).insert(
        "temperature"@,
        Member::Number(OPENAI_TEMPERATURE),
    )
}

/// The body of the request that asks the service to complete `question`.
pub fn completion_body(question: String) -> (body: JsonObject)
    ensures
        members_of(body) == completion_members(question@),
{
    let mut body = empty_object();
    insert_member(&mut body, "model", text_value(String::from_str(OPENAI_MODEL)));
    insert_member(&mut body, "prompt", text_value(question));
    insert_member(&mut body, "max_tokens", number_value(OPENAI_PROMPT_TOKENS_COUNT));
    insert_member(&mut body, "temperature", number_value(OPENAI_TEMPERATURE));
    body
}

} // verus!
