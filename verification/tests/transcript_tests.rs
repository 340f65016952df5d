use ollama_core::{
    chat_reply, extract_response_content, format_messages_to_prompt, normalize_transcript,
    ChatMessage,
};

#[test]
fn clean_text_comes_back_unchanged_modulo_trimming() {
    assert_eq!(extract_response_content("Hello world"), "Hello world");
    assert_eq!(extract_response_content("Line one\nLine two"), "Line one\nLine two");
    assert_eq!(extract_response_content("  padded  "), "padded");
}

#[test]
fn normalization_is_idempotent_on_its_own_output() {
    let once = extract_response_content("Line one\nLine two\n");
    let twice = extract_response_content(&once);
    assert_eq!(once, twice);
}

#[test]
fn spinner_and_prompt_marker_lines_are_stripped() {
    let raw = "\u{2819} thinking\n>>> send\nAssistant: Hello there";
    assert_eq!(extract_response_content(raw), "Hello there");
}

#[test]
fn enumerated_control_sequences_are_removed() {
    let raw = "\u{1b}[?25l\u{1b}[2KAssistant: Hi\u{1b}[?25h";
    assert_eq!(extract_response_content(raw), "Hi");
}

#[test]
fn colon_label_keeps_only_the_remainder_of_the_line() {
    assert_eq!(extract_response_content("llama3: the answer"), "the answer");
    assert_eq!(extract_response_content("no label here"), "no label here");
}

#[test]
fn blank_lines_are_dropped() {
    assert_eq!(extract_response_content("a\n\n   \nb"), "a\nb");
}

#[test]
fn empty_after_cleaning_raises_the_empty_reply_error() {
    let r = normalize_transcript("\u{2819}\n>>> \n\u{1b}[2K");
    assert_eq!(r, Err("Received empty response from Ollama".to_string()));
    let r = normalize_transcript("");
    assert_eq!(r, Err("Received empty response from Ollama".to_string()));
}

#[test]
fn nonempty_reply_is_returned_as_ok() {
    let r = normalize_transcript("Assistant: fine");
    assert_eq!(r, Ok("fine".to_string()));
}

#[test]
fn prompt_assembly_renders_roles_in_order() {
    let messages = vec![
        ChatMessage { role: "system".to_string(), content: "Be terse".to_string() },
        ChatMessage { role: "user".to_string(), content: "Hi".to_string() },
    ];
    let prompt = format_messages_to_prompt(&messages);
    assert_eq!(prompt, "System: Be terse\nHuman: Hi\nAssistant:");
}

#[test]
fn prompt_assembly_keeps_unknown_roles_verbatim() {
    let messages = vec![
        ChatMessage { role: "assistant".to_string(), content: "Yes".to_string() },
        ChatMessage { role: "tool".to_string(), content: "42".to_string() },
    ];
    let prompt = format_messages_to_prompt(&messages);
    assert_eq!(prompt, "Assistant: Yes\ntool: 42\nAssistant:");
}

#[test]
fn empty_conversation_renders_only_the_cue() {
    let messages: Vec<ChatMessage> = vec![];
    assert_eq!(format_messages_to_prompt(&messages), "Assistant:");
}

#[test]
fn usage_estimate_counts_characters_of_prompt_and_reply() {
    let r = chat_reply("Human: Hi\nAssistant:", "model: Hello there").unwrap();
    assert_eq!(r.content, "Hello there");
    let usage = r.usage.unwrap();
    assert_eq!(usage.prompt_tokens, 20);
    assert_eq!(usage.completion_tokens, 11);
    assert_eq!(usage.total_tokens, 31);
}

#[test]
fn unicode_whitespace_is_trimmed_like_ascii() {
    assert_eq!(extract_response_content("\u{00A0}hi\u{3000}"), "hi");
}

#[test]
fn unlisted_escape_sequences_leak_through() {
    // Only the enumerated control sequences are stripped; a bell character
    // is none of them and stays.
    assert_eq!(extract_response_content("a\u{7}b"), "a\u{7}b");
}

#[test]
fn chat_reply_raises_the_empty_reply_error() {
    let r = chat_reply("p", ">>> nothing\n");
    assert_eq!(r, Err("Received empty response from Ollama".to_string()));
}
