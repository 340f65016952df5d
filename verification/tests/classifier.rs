use ollama_core::{family_of, parse_model_info};

#[test]
fn unrecognized_size_yields_unknown_and_no_estimate() {
    let (family, size, quant, est) = parse_model_info("mistral");
    assert_eq!(family, "mistral");
    assert_eq!(size, "Unknown");
    assert_eq!(quant, "Default");
    assert_eq!(est, None);
}

#[test]
fn empty_identifier_degrades_to_sentinels() {
    let (family, size, quant, est) = parse_model_info("");
    assert_eq!(family, "");
    assert_eq!(size, "Unknown");
    assert_eq!(quant, "Default");
    assert_eq!(est, None);
}

#[test]
fn single_size_token_maps_to_its_bucket() {
    let (_, size, _, est) = parse_model_info("smollm:135m");
    assert_eq!(size, "135M");
    assert_eq!(est, Some(200_000_000));

    let (_, size, _, est) = parse_model_info("llama3:8b");
    assert_eq!(size, "8B");
    assert_eq!(est, Some(4_700_000_000));

    let (_, size, _, est) = parse_model_info("qwen:0.5b");
    assert_eq!(size, "0.5B");
    assert_eq!(est, Some(800_000_000));

    let (_, size, _, est) = parse_model_info("falcon:180b");
    assert_eq!(size, "180B");
    assert_eq!(est, Some(100_000_000_000));

    let (_, size, _, est) = parse_model_info("qwen3-coder:480b");
    assert_eq!(size, "480B");
    assert_eq!(est, Some(260_000_000_000));
}

#[test]
fn decimal_variants_refine_the_bucket_label() {
    let (_, size, _, est) = parse_model_info("tinyllama:1.1b");
    assert_eq!(size, "1.1B");
    assert_eq!(est, Some(1_200_000_000));

    let (_, size, _, est) = parse_model_info("phi3:3.8b");
    assert_eq!(size, "3.8B");
    assert_eq!(est, Some(2_000_000_000));

    let (_, size, _, est) = parse_model_info("stablelm:1.5b");
    assert_eq!(size, "1.5B");
    assert_eq!(est, Some(1_200_000_000));

    // The label of this bucket entry carries a lowercase `b`.
    let (_, size, _, est) = parse_model_info("gemma:2.7b");
    assert_eq!(size, "2.7b");
    assert_eq!(est, Some(1_600_000_000));
}

#[test]
fn seven_b_beats_seventy_b_in_priority_order() {
    // The pinned ambiguous fixture: both tokens occur; the earlier bucket
    // in the fixed priority list decides.
    let (_, size, _, est) = parse_model_info("7b-70b");
    assert_eq!(size, "7B");
    assert_eq!(est, Some(4_100_000_000));
}

#[test]
fn earlier_buckets_capture_longer_tokens() {
    // "10.7b" carries "7b", and the "7b" bucket stands earlier.
    let (_, size, _, est) = parse_model_info("solar:10.7b");
    assert_eq!(size, "7B");
    assert_eq!(est, Some(4_100_000_000));

    // "671b" carries "1b", and the "1b" bucket stands earlier.
    let (_, size, _, est) = parse_model_info("deepseek:671b");
    assert_eq!(size, "1B");
    assert_eq!(est, Some(1_200_000_000));

    // "104b" carries "4b", and the "4b" bucket stands earlier.
    let (_, size, _, est) = parse_model_info("command:104b");
    assert_eq!(size, "4B");
    assert_eq!(est, Some(2_500_000_000));
}

#[test]
fn family_is_the_part_before_the_first_colon() {
    let (family, size, quant, _) = parse_model_info("llama3:8b-q4_K_M");
    assert_eq!(family, "llama3");
    assert_eq!(size, "8B");
    assert_eq!(quant, "Q4_K_M");

    let (family, _, _, _) = parse_model_info("mistral");
    assert_eq!(family, "mistral");
}

#[test]
fn quantization_is_independent_of_size() {
    let (_, size, quant, est) = parse_model_info("model-q8_0");
    assert_eq!(size, "Unknown");
    assert_eq!(est, None);
    assert_eq!(quant, "Q8_0");
}

#[test]
fn quantization_tokens_map_to_canonical_labels() {
    let (_, _, quant, _) = parse_model_info("m:7b-q4_K_M");
    assert_eq!(quant, "Q4_K_M");
    let (_, _, quant, _) = parse_model_info("m:7b-q4_K_S");
    assert_eq!(quant, "Q4_K_S");
    let (_, _, quant, _) = parse_model_info("m:7b-q4_0");
    assert_eq!(quant, "Q4_0");
    let (_, _, quant, _) = parse_model_info("m:fp16");
    assert_eq!(quant, "FP16");
    let (_, _, quant, _) = parse_model_info("m:7b");
    assert_eq!(quant, "Default");
}

#[test]
fn family_stops_at_the_first_colon() {
    assert_eq!(family_of("a:b:c"), "a");
    assert_eq!(family_of(":tag"), "");
    assert_eq!(family_of(""), "");
}

#[test]
fn classification_is_deterministic() {
    let a = parse_model_info("llama3:8b-q4_K_M");
    let b = parse_model_info("llama3:8b-q4_K_M");
    assert_eq!(a, b);
}
