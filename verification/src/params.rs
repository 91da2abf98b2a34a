//! The parameters of the tools, as their callers give them.

use vstd::prelude::*;

verus! {

/// Parameters of the `chat` tool.
#[derive(Debug, PartialEq)]
pub struct ChatParams {
    /// The user message to send.
    pub prompt: String,
    /// An optional system prompt that sets the context.
    pub system_prompt: Option<String>,
    /// The conversation history as JSON text: an array of `{role, content}`
    /// objects; `prompt` is appended to it as the final user message.
    pub messages: Option<String>,
    /// The model to use (default `gpt-4o`).
    pub model: Option<String>,
    /// The sampling temperature, as the bit pattern of its IEEE 754
    /// binary32 value (`f32::to_bits`).
    pub temperature: Option<u32>,
    /// The most tokens to generate.
    pub max_tokens: Option<u32>,
    /// A JSON schema, as JSON text, that the answer must conform to.
    pub response_schema: Option<String>,
}

/// Parameters of the `chat_with_vision` tool.
#[derive(Debug, PartialEq)]
pub struct VisionParams {
    /// What to look for in the image.
    pub prompt: String,
    /// Where the image is (an `http://` or `https://` URL).
    pub image_url: String,
    /// `low` or `high` (default `high`).
    pub detail: Option<String>,
    /// The model to use (default `gpt-4o`); it must handle images.
    pub model: Option<String>,
    /// The sampling temperature, as the bit pattern of its IEEE 754
    /// binary32 value (`f32::to_bits`).
    pub temperature: Option<u32>,
    /// The most tokens to generate.
    pub max_tokens: Option<u32>,
}

/// Parameters of the `embedding` tool.
#[derive(Debug, PartialEq)]
pub struct EmbeddingParams {
    /// The text to embed, as JSON text: one string or an array of strings.
    pub input: String,
    /// The embedding model to use (default `text-embedding-3-small`).
    pub model: Option<String>,
}

} // verus!
