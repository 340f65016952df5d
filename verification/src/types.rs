//! The records the backend hands to its presentation layer: machine
//! information, chat messages and replies, and per-model metadata.

use vstd::prelude::*;

verus! {

/// Machine summary: platform, architecture, GPU, CPU and the state of the
/// external inference tool.
#[derive(Debug, Clone, PartialEq)]
pub struct SystemInfo {
    pub platform: String,
    pub arch: String,
    pub gpu: GpuInfo,
    pub cpu: CpuInfo,
    pub ollama: OllamaInfo,
}

/// What is known about the machine's GPU.
#[derive(Debug, Clone, PartialEq)]
pub struct GpuInfo {
    pub available: bool,
    pub name: Option<String>,
    pub memory: Option<u64>,
    pub driver: Option<String>,
}

/// What is known about the machine's CPU and memory.
#[derive(Debug, Clone, PartialEq)]
pub struct CpuInfo {
    pub cores: usize,
    pub name: String,
    pub memory: u64,
}

/// One role-tagged message of a conversation.
#[derive(Debug, Clone, PartialEq)]
pub struct ChatMessage {
    pub role: String,
    pub content: String,
}

/// A cleaned reply together with its usage estimate.
#[derive(Debug, Clone, PartialEq)]
pub struct ChatResponse {
    pub content: String,
    pub usage: Option<TokenUsage>,
}

/// Character-count approximation of token usage; not true token counts.
#[derive(Debug, Clone, Copy, PartialEq)]
pub struct TokenUsage {
    pub prompt_tokens: u32,
    pub completion_tokens: u32,
    pub total_tokens: u32,
}

/// Metadata inferred for one model identifier of the catalog.
#[derive(Debug, Clone, PartialEq)]
pub struct OllamaModelInfo {
    pub name: String,
    pub size: Option<u64>,
    pub modified_at: Option<String>,
    pub family: Option<String>,
    pub format: Option<String>,
    pub families: Option<Vec<String>>,
    pub parameter_size: Option<String>,
    pub quantization_level: Option<String>,
}

/// Whether the external inference tool is installed, and where.
#[derive(Debug, Clone, PartialEq)]
pub struct OllamaInfo {
    pub installed: bool,
    pub version: Option<String>,
    pub path: Option<String>,
}

} // verus!
