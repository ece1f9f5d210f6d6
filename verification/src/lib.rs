//! Verified core of `vision-recognizer`: the rules behind an MCP server that
//! sends images and video frames to the OpenAI Vision API.

pub mod chat;
pub mod client;
pub mod error;
pub mod media;
pub mod paths;
pub mod text;
pub mod tools;
pub mod video;
