//! The verified core of a dictation application: which model is asked about a
//! transcription, what is made of its answer, and what is done with the text.
use vstd::prelude::*;

pub mod actions;
pub mod chinese;
pub mod frontmost;
pub mod headers;
pub mod history;
pub mod json;
pub mod llm_client;
pub mod pipeline;
pub mod post_process;
pub mod session;
pub mod settings;
pub mod text;
