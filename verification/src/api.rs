//! Data carried to and from the chat-completion endpoint.  These are plain
//! values: the frontend owns their wire encoding, the core only constructs
//! and reads them.

use vstd::prelude::*;

verus! {

/// Who authored a turn of the conversation.
#[derive(Clone, Copy, Debug, PartialEq, Eq, Structural)]
pub enum Role {
    /// The human side of the conversation.
    User,
    /// The model side of the conversation.
    Model,
}

/// One piece of a turn's content.
#[derive(Clone, Debug)]
pub struct Part {
    /// The text of this piece.
    pub text: String,
}

/// One turn of the conversation.
#[derive(Clone, Debug)]
pub struct Paragraph {
    /// Who authored the turn.
    pub role: Role,
    /// The turn's content pieces.
    pub parts: Vec<Part>,
}

/// Safety classification attached to a candidate reply.
#[derive(Clone, Debug)]
pub struct SafetyRating {
    /// The harm category being rated.
    pub category: String,
    /// The rated probability of harm.
    pub probability: String,
}

/// Token accounting reported with a reply.
#[derive(Clone, Debug)]
pub struct UsageMetadata {
    /// Tokens consumed by the prompt.
    pub prompt_token_count: isize,
    /// Tokens produced by the candidates.
    pub candidates_token_count: isize,
    /// Total tokens of the exchange.
    pub total_token_count: isize,
}

/// One candidate reply.
#[derive(Clone, Debug)]
pub struct ChatResponse {
    /// The reply's content.
    pub content: Paragraph,
    /// Why generation stopped.
    pub finish_reason: String,
    /// Position among the candidates.
    pub index: isize,
    /// Safety classifications of the reply.
    pub safety_ratings: Vec<SafetyRating>,
}

/// A successful reply from the endpoint.
#[derive(Clone, Debug)]
pub struct GeminiResponseBody {
    /// The candidate replies.
    pub candidates: Vec<ChatResponse>,
    /// Token accounting for the exchange.
    pub usage_metadata: UsageMetadata,
}

/// Service metadata inside an error report.
#[derive(Clone, Debug)]
pub struct Metadata {
    /// The service that produced the error.
    pub service: String,
}

/// One detail entry of an error report.
#[derive(Clone, Debug)]
pub struct Detail {
    /// The detail's wire type tag.
    pub type0: String,
    /// Why the request was rejected.
    pub reason: String,
    /// The domain the reason belongs to.
    pub domain: String,
    /// Service metadata.
    pub metadate: Metadata,
}

/// The error payload of a failed request.
#[derive(Clone, Debug)]
pub struct Error {
    /// Numeric status code.
    pub code: i16,
    /// Human-readable description.
    pub message: String,
    /// Symbolic status name.
    pub status: String,
    /// Further detail entries, when the service provides them.
    pub details: Option<Vec<Detail>>,
}

/// A failed reply from the endpoint.
#[derive(Clone, Debug)]
pub struct GenerateContentResponseError {
    /// The error payload.
    pub error: Error,
}

/// Data types a tool schema can describe.
#[derive(Clone, Copy, Debug, PartialEq, Eq, Structural)]
pub enum Type {
    /// Not specified; should not be used.
    TypeUnspecified,
    /// String type.
    String,
    /// Number type.
    Number,
    /// Integer type.
    Integer,
    /// Boolean type.
    Boolean,
    /// Array type.
    Array,
    /// Object type.
    Object,
}

/// A subset of an OpenAPI schema object, describing a tool parameter.
pub struct Schema {
    /// Required data type.
    pub type0: Type,
    /// Format of primitive data types.
    pub format: Option<String>,
    /// Description of the parameter.
    pub description: Option<String>,
    /// Whether the value may be null.
    pub nullable: Option<bool>,
    /// Possible values of an enumerated string.
    pub enum0: Option<Vec<String>>,
    /// Maximum number of array elements.
    pub max_items: Option<String>,
    /// Properties of an object, as name and schema pairs.
    pub properties: Option<Vec<(String, Box<Schema>)>>,
    /// Required properties of an object.
    pub required: Option<Vec<String>>,
    /// Schema of the array elements.
    pub items: Option<Box<Schema>>,
}

/// A function the model may ask the client to call.
pub struct FunctionDeclaration {
    /// The function's name.
    pub name: String,
    /// What the function does.
    pub description: String,
    /// The function's parameters.
    pub parameters: Option<Schema>,
}

/// A marker requesting model-side code execution.
#[derive(Clone, Copy, Debug, PartialEq, Eq, Structural)]
pub struct CodeExecution;

/// A tool the model may use while generating.
pub struct Tool {
    /// Functions available for calling.
    pub function_declarations: Option<Vec<FunctionDeclaration>>,
    /// Code execution, when enabled.
    pub code_execution: Option<CodeExecution>,
}

/// How the model decides whether to call a function.
#[derive(Clone, Copy, Debug, PartialEq, Eq, Structural)]
pub enum Mode {
    /// Unspecified; should not be used.
    ModeUnspecified,
    /// The model chooses between a call and a text reply.
    Auto,
    /// The model must predict a function call.
    Any,
    /// The model never predicts a function call.
    Disabled,
}

/// Configuration of function calling.
#[derive(Clone, Debug)]
pub struct FunctionCallingConfig {
    /// The calling mode.
    pub mode: Option<Mode>,
    /// Function names the model is limited to.
    pub allowed_function_names: Option<Vec<String>>,
}

/// Tool configuration of a request.
#[derive(Clone, Debug)]
pub struct ToolConfig {
    /// Function calling configuration.
    pub function_calling_config: Option<FunctionCallingConfig>,
}

/// Kinds of harmful content a safety setting can address.
#[derive(Clone, Copy, Debug, PartialEq, Eq, Structural)]
pub enum HarmCategory {
    /// Category is unspecified.
    HarmCategoryUnspecified,
    /// Comments targeting identity or protected attributes.
    HarmCategoryDerogatory,
    /// Rude, disrespectful or profane content.
    HarmCategoryToxicity,
    /// Depictions of violence or gore.
    HarmCategoryViolence,
    /// Sexual acts or other lewd content.
    HarmCategorySexual,
    /// Unchecked medical advice.
    HarmCategoryMedical,
    /// Content promoting harmful acts.
    HarmCategoryDangerous,
    /// Harassment content.
    HarmCategoryHarassment,
    /// Hate speech and content.
    HarmCategoryHateSpeech,
    /// Sexually explicit content.
    HarmCategorySexuallyExplicit,
    /// Dangerous content.
    HarmCategoryDangerousContent,
}

/// Probability threshold at which harmful content is blocked.
#[derive(Clone, Copy, Debug, PartialEq, Eq, Structural)]
pub enum HarmBlockThreshold {
    /// Threshold is unspecified.
    HarmBlockThresholdUnspecified,
    /// Only negligible probability is allowed through.
    BlockLowAndAbove,
    /// Negligible and low probability are allowed through.
    BlockMediumAndAbove,
    /// Everything below high probability is allowed through.
    BlockOnlyHigh,
    /// Nothing is blocked.
    BlockNone,
}

/// A safety setting of a request.
#[derive(Clone, Copy, Debug, PartialEq, Eq, Structural)]
pub struct SafetySetting {
    /// The category this setting addresses.
    pub category: HarmCategory,
    /// The blocking threshold for that category.
    pub threshold: HarmBlockThreshold,
}

/// The language models the client can talk to.
#[derive(Clone, Copy, Debug, PartialEq, Eq, Structural)]
pub enum LanguageModel {
    /// The gemini-1.0-pro model.
    Gemini1_0Pro,
    /// The gemini-1.5-pro model.
    Gemini1_5Pro,
    /// The gemini-1.5-flash model.
    Gemini1_5Flash,
}

/// The wire name of each language model.
pub open spec fn language_model_name(m: LanguageModel) -> Seq<char> {
    match m {
        LanguageModel::Gemini1_0Pro => "gemini-1.0-pro"@,
        LanguageModel::Gemini1_5Pro => "gemini-1.5-pro"@,
        LanguageModel::Gemini1_5Flash => "gemini-1.5-flash"@,
    }
}

impl LanguageModel {
    /// The model's name as it appears in the endpoint URL.
    pub fn name(&self) -> (r: String)
        ensures
            r@ == language_model_name(*self),
    {
        match self {
            LanguageModel::Gemini1_0Pro => "gemini-1.0-pro".to_owned(),
            LanguageModel::Gemini1_5Pro => "gemini-1.5-pro".to_owned(),
            LanguageModel::Gemini1_5Flash => "gemini-1.5-flash".to_owned(),
        }
    }
}

} // verus!
