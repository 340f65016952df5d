//! Local backend core for a desktop application that browses, installs and
//! chats with models served by an external inference daemon reached through
//! its command line.
//!
//! Two verified pipelines do the real work: the catalog classifier
//! ([`classify`]), which infers structured metadata from an opaque model
//! identifier by a fixed priority rule table, and the transcript normalizer
//! ([`transcript`]), which turns the raw interactive terminal output of a
//! chat invocation into a clean reply. Both are pure functions of their
//! string inputs; the thin orchestration around the external tool lives
//! outside this library.

use vstd::prelude::*;

pub mod classify;
pub mod laws;
pub mod listing;
pub mod report;
pub mod text;
pub mod transcript;
pub mod types;

verus! {

pub use crate::classify::{family_of, parse_model_info};
pub use crate::listing::{
    ensure_model_listed,
    parse_catalog,
    parse_model_listing,
    scan_gpu_listing,
    version_from_output,
};
pub use crate::report::{
    already_installed_message,
    assemble_system_info,
    chat_failure_message,
    cpu_info_from_probe,
    gpu_info_from_name,
    install_failure_message,
    install_success_message,
    list_failure_message,
    list_parse_failure_message,
    ollama_info_from_probe,
    pull_failure_message,
    pull_success_message,
    remove_failure_message,
    remove_success_message,
    spawn_failure_message,
};
pub use crate::transcript::{
    chat_reply,
    extract_response_content,
    format_messages_to_prompt,
    normalize_transcript,
};
pub use crate::types::{
    ChatMessage,
    ChatResponse,
    CpuInfo,
    GpuInfo,
    OllamaInfo,
    OllamaModelInfo,
    SystemInfo,
    TokenUsage,
};

} // verus!
