//! The user-facing strings the command layer returns, and the assembly of
//! the machine-summary records from plain probe results. Every message
//! embeds the offending identifier and, where applicable, captured process
//! output.

use vstd::prelude::*;

use crate::types::{CpuInfo, GpuInfo, OllamaInfo, SystemInfo};

verus! {

/// Success message of the pull command.
pub fn pull_success_message(model: &str) -> (r: String)
    ensures
        r@ == "Successfully pulled model: "@ + model@,
{
    let mut out = "Successfully pulled model: ".to_owned();
    out.append(model);
    out
}

/// Failure message of the pull command, embedding the captured stderr.
pub fn pull_failure_message(model: &str, stderr_text: &str) -> (r: String)
    ensures
        r@ == "Failed to pull model "@ + model@ + ": "@ + stderr_text@,
{
    let mut out = "Failed to pull model ".to_owned();
    out.append(model);
    out.append(": ");
    out.append(stderr_text);
    out
}

/// Success message of the remove command.
pub fn remove_success_message(model: &str) -> (r: String)
    ensures
        r@ == "Successfully removed model: "@ + model@,
{
    let mut out = "Successfully removed model: ".to_owned();
    out.append(model);
    out
}

/// Failure message of the remove command, embedding the captured stderr.
pub fn remove_failure_message(model: &str, stderr_text: &str) -> (r: String)
    ensures
        r@ == "Failed to remove model "@ + model@ + ": "@ + stderr_text@,
{
    let mut out = "Failed to remove model ".to_owned();
    out.append(model);
    out.append(": ");
    out.append(stderr_text);
    out
}

/// Success message of the install command.
pub fn install_success_message(model: &str) -> (r: String)
    ensures
        r@ == "Successfully installed model: "@ + model@,
{
    let mut out = "Successfully installed model: ".to_owned();
    out.append(model);
    out
}

/// Failure message of the install command, embedding the captured stderr.
pub fn install_failure_message(model: &str, stderr_text: &str) -> (r: String)
    ensures
        r@ == "Failed to install model "@ + model@ + ": "@ + stderr_text@,
{
    let mut out = "Failed to install model ".to_owned();
    out.append(model);
    out.append(": ");
    out.append(stderr_text);
    out
}

/// Message for an install target that the listing already names.
pub fn already_installed_message(model: &str) -> (r: String)
    ensures
        r@ == "Model '"@ + model@ + "' is already installed"@,
{
    let mut out = "Model '".to_owned();
    out.append(model);
    out.append("' is already installed");
    out
}

/// Message for an external invocation that could not be made at all,
/// distinguishing "not invocable" from a command that ran and failed.
pub fn spawn_failure_message(what: &str, err: &str) -> (r: String)
    ensures
        r@ == "Failed to run "@ + what@ + ": "@ + err@,
{
    let mut out = "Failed to run ".to_owned();
    out.append(what);
    out.append(": ");
    out.append(err);
    out
}

/// Message for a listing command that ran and failed.
pub fn list_failure_message(stderr_text: &str) -> (r: String)
    ensures
        r@ == "Failed to list models: "@ + stderr_text@,
{
    let mut out = "Failed to list models: ".to_owned();
    out.append(stderr_text);
    out
}

/// Message for a listing whose bytes were not valid text.
pub fn list_parse_failure_message(err: &str) -> (r: String)
    ensures
        r@ == "Failed to parse ollama output: "@ + err@,
{
    let mut out = "Failed to parse ollama output: ".to_owned();
    out.append(err);
    out
}

/// Message for a chat invocation that ran and failed, embedding both
/// captured streams.
pub fn chat_failure_message(stdout_text: &str, stderr_text: &str) -> (r: String)
    ensures
        r@ == "Ollama command failed. Stdout: "@ + stdout_text@ + ", Stderr: "@ + stderr_text@,
{
    let mut out = "Ollama command failed. Stdout: ".to_owned();
    out.append(stdout_text);
    out.append(", Stderr: ");
    out.append(stderr_text);
    out
}

/// The GPU record a detected name yields: available exactly when a name was
/// detected; memory and driver are never probed.
pub fn gpu_info_from_name(name: Option<String>) -> (r: GpuInfo)
    ensures
        r.available == (name is Some),
        r.name == name,
        r.memory is None,
        r.driver is None,
{
    let available = name.is_some();
    GpuInfo { available, name, memory: None, driver: None }
}

/// The CPU record from probe results; an unnamed CPU reads `"Unknown"`.
pub fn cpu_info_from_probe(cores: usize, name: Option<String>, memory: u64) -> (r: CpuInfo)
    ensures
        r.cores == cores,
        r.memory == memory,
        name matches Some(n) ==> r.name == n,
        name is None ==> r.name@ == "Unknown"@,
{
    let cpu_name = match name {
        Some(n) => n,
        None => "Unknown".to_owned(),
    };
    CpuInfo { cores, name: cpu_name, memory }
}

/// The tool-state record from a probe: installed exactly when a path was
/// found; a version is reported only then.
pub fn ollama_info_from_probe(path: Option<String>, version: Option<String>) -> (r: OllamaInfo)
    ensures
        r.installed == (path is Some),
        r.path == path,
        path is Some ==> r.version == version,
        path is None ==> r.version is None,
{
    match path {
        Some(p) => OllamaInfo { installed: true, version, path: Some(p) },
        None => OllamaInfo { installed: false, version: None, path: None },
    }
}

/// The machine summary assembled from its parts.
pub fn assemble_system_info(
    platform: String,
    arch: String,
    gpu: GpuInfo,
    cpu: CpuInfo,
    ollama: OllamaInfo,
) -> (r: SystemInfo)
    ensures
        r.platform == platform,
        r.arch == arch,
        r.gpu == gpu,
        r.cpu == cpu,
        r.ollama == ollama,
{
    SystemInfo { platform, arch, gpu, cpu, ollama }
}

} // verus!
