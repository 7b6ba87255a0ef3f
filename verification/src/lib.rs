//! Core of a terminal chat client: a transcript of role-tagged messages, a
//! raw-mode line editor that composes one message per interaction (with a
//! user/system role toggle), and the conversation-loop state machine that
//! drives editor input, request dispatch and reply handling.
//!
//! All I/O (terminal, network, configuration files) lives outside this
//! library; it consumes key events and replies as plain values and hands back
//! transcripts and display strings.

pub mod config;
pub mod editor;
pub mod gpt;
pub mod session;
pub mod text;
