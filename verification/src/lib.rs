//! Core logic of a multi-agent group chat: how a session's transcript is
//! presented to each agent, how provider requests are planned and their
//! replies read back, and the step-by-step driver of a discussion round.

pub mod text;
pub mod providers;
pub mod agent;
pub mod session;
pub mod chat;
pub mod round;
