//! The logic of an MCP server that relays chat, vision, embedding and
//! model-listing requests to the OpenAI HTTP API: building the request
//! bodies from tool parameters, checking those parameters, and rendering
//! the API's answers as text for the MCP client.

pub mod text;
pub mod json;
pub mod status;
pub mod api;
pub mod params;
pub mod config;
pub mod server;
