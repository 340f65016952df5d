use ollama_core::{
    already_installed_message, assemble_system_info, chat_failure_message, cpu_info_from_probe,
    ensure_model_listed, gpu_info_from_name, install_failure_message, install_success_message,
    list_failure_message, list_parse_failure_message, ollama_info_from_probe, parse_catalog,
    parse_model_listing, pull_failure_message, pull_success_message, remove_failure_message,
    remove_success_message, scan_gpu_listing, spawn_failure_message, version_from_output,
};

#[test]
fn listing_parse_skips_header_and_takes_first_token() {
    let stdout = "NAME\nllama3:8b   4.1GB\nmistral   3.8GB\n";
    let models = parse_model_listing(stdout);
    assert_eq!(models, vec!["llama3:8b".to_string(), "mistral".to_string()]);
}

#[test]
fn listing_parse_of_empty_output_is_empty() {
    assert_eq!(parse_model_listing(""), Vec::<String>::new());
    assert_eq!(parse_model_listing("NAME"), Vec::<String>::new());
}

#[test]
fn listing_parse_drops_blank_lines() {
    let models = parse_model_listing("NAME\n\n   \nphi3:3.8b 2.2GB");
    assert_eq!(models, vec!["phi3:3.8b".to_string()]);
}

#[test]
fn catalog_parse_classifies_each_model_line() {
    let content = "# known models\n\nllama3:8b-q4_K_M\nmistral\n";
    let records = parse_catalog(content);
    assert_eq!(records.len(), 2);

    let first = &records[0];
    assert_eq!(first.name, "llama3:8b-q4_K_M");
    assert_eq!(first.family, Some("llama3".to_string()));
    assert_eq!(first.families, Some(vec!["llama3".to_string()]));
    assert_eq!(first.parameter_size, Some("8B".to_string()));
    assert_eq!(first.quantization_level, Some("Q4_K_M".to_string()));
    assert_eq!(first.size, Some(4_700_000_000));
    assert_eq!(first.format, Some("gguf".to_string()));
    assert_eq!(first.modified_at, None);

    let second = &records[1];
    assert_eq!(second.name, "mistral");
    assert_eq!(second.family, Some("mistral".to_string()));
    assert_eq!(second.parameter_size, Some("Unknown".to_string()));
    assert_eq!(second.quantization_level, Some("Default".to_string()));
    assert_eq!(second.size, None);
}

#[test]
fn catalog_parse_of_empty_content_is_empty() {
    assert_eq!(parse_catalog("").len(), 0);
    assert_eq!(parse_catalog("# only comments\n").len(), 0);
}

#[test]
fn catalog_parse_trims_surrounding_whitespace() {
    let records = parse_catalog("  gemma:2b  \n");
    assert_eq!(records.len(), 1);
    assert_eq!(records[0].name, "gemma:2b");
    assert_eq!(records[0].parameter_size, Some("2B".to_string()));
}

#[test]
fn listed_model_passes_the_installed_check() {
    let list = "NAME\nllama3:8b 4.1GB\nmistral 3.8GB";
    assert_eq!(ensure_model_listed("llama3:8b", list), Ok(()));
}

#[test]
fn missing_model_reports_the_available_alternatives() {
    let list = "NAME\nllama3:8b 4.1GB\nmistral 3.8GB";
    let err = ensure_model_listed("phi", list).unwrap_err();
    assert_eq!(
        err,
        "Model 'phi' is not installed. Available models: llama3:8b 4.1GB, mistral 3.8GB"
    );
}

#[test]
fn version_is_the_first_line_trimmed() {
    assert_eq!(
        version_from_output("ollama version is 0.1.17\nextra"),
        Some("ollama version is 0.1.17".to_string())
    );
    assert_eq!(version_from_output(""), None);
}

#[test]
fn gpu_scan_finds_the_first_display_controller_vendor() {
    let text = "00:01.0 Audio device: Acme\n00:02.0 VGA compatible controller: Intel Iris\n";
    assert_eq!(scan_gpu_listing(text), Some("Intel GPU".to_string()));
    let text = "01:00.0 3D controller: NVIDIA Corporation GA107M\n";
    assert_eq!(scan_gpu_listing(text), Some("NVIDIA GPU".to_string()));
    assert_eq!(scan_gpu_listing("nothing graphical here"), None);
}

#[test]
fn command_messages_embed_the_identifier_and_streams() {
    assert_eq!(pull_success_message("m1"), "Successfully pulled model: m1");
    assert_eq!(pull_failure_message("m1", "boom"), "Failed to pull model m1: boom");
    assert_eq!(remove_success_message("m1"), "Successfully removed model: m1");
    assert_eq!(remove_failure_message("m1", "gone"), "Failed to remove model m1: gone");
    assert_eq!(install_success_message("m1"), "Successfully installed model: m1");
    assert_eq!(install_failure_message("m1", "no"), "Failed to install model m1: no");
    assert_eq!(already_installed_message("m1"), "Model 'm1' is already installed");
    assert_eq!(spawn_failure_message("ollama pull", "enoent"), "Failed to run ollama pull: enoent");
    assert_eq!(list_failure_message("denied"), "Failed to list models: denied");
    assert_eq!(
        list_parse_failure_message("bad utf8"),
        "Failed to parse ollama output: bad utf8"
    );
    assert_eq!(
        chat_failure_message("out", "err"),
        "Ollama command failed. Stdout: out, Stderr: err"
    );
}

#[test]
fn probe_records_reflect_what_was_found() {
    let gpu = gpu_info_from_name(Some("NVIDIA GPU".to_string()));
    assert!(gpu.available);
    assert_eq!(gpu.name, Some("NVIDIA GPU".to_string()));
    assert_eq!(gpu.memory, None);
    assert_eq!(gpu.driver, None);

    let gpu = gpu_info_from_name(None);
    assert!(!gpu.available);

    let cpu = cpu_info_from_probe(8, None, 1024);
    assert_eq!(cpu.name, "Unknown");
    assert_eq!(cpu.cores, 8);
    assert_eq!(cpu.memory, 1024);

    let ollama = ollama_info_from_probe(Some("/usr/bin/ollama".to_string()), Some("v1".to_string()));
    assert!(ollama.installed);
    assert_eq!(ollama.version, Some("v1".to_string()));

    let ollama = ollama_info_from_probe(None, Some("v1".to_string()));
    assert!(!ollama.installed);
    assert_eq!(ollama.version, None);
    assert_eq!(ollama.path, None);

    let info = assemble_system_info(
        "linux".to_string(),
        "x86_64".to_string(),
        gpu_info_from_name(None),
        cpu_info_from_probe(4, Some("Acme".to_string()), 2048),
        ollama_info_from_probe(None, None),
    );
    assert_eq!(info.platform, "linux");
    assert_eq!(info.arch, "x86_64");
    assert_eq!(info.cpu.name, "Acme");
}
