//! Core logic of a chat-platform relay bot: it rebuilds a conversation
//! transcript from a reply chain, prepares a chat-completion request, and
//! splits an oversized response into platform-sized, fence-safe chunks.
pub mod chunker;
pub mod classify;
pub mod dispatch;
pub mod errors;
pub mod exe_rule;
pub mod gating;
pub mod imaging;
pub mod media;
pub mod numfmt;
pub mod pipeline;
pub mod text_types;
pub mod transcript;
pub mod walker;
