//! The catalog classifier: turns an opaque model identifier into structured
//! metadata (family, parameter-size label, quantization label, estimated
//! on-disk size) by first-match-wins substring rules in a fixed priority
//! order, from the smallest parameter count to the largest.
//!
//! Classification is a total function of the identifier: no rule matching is
//! not an error, it degrades to the sentinel labels `"Unknown"` and
//! `"Default"`.

use vstd::prelude::*;

use crate::text::{contains_seq, contains_sub, find_ch, first_index_of};

verus! {

/// The substring of the identifier before its first `':'`, or the whole
/// identifier when it has none.
pub open spec fn spec_family(name: Seq<char>) -> Seq<char> {
    name.take(first_index_of(name, ':'))
}

/// The parameter-size bucket the identifier falls in: its label and its
/// fixed estimated byte count, or `None` when no size token occurs.
///
/// The rules are tried in this exact order and the first whose token is
/// contained in the identifier wins, regardless of later, possibly longer,
/// matches. Decimal variants inside a bucket (`"1.5b"` inside the `"1b"`
/// bucket) refine the label but share the bucket's estimate.
pub open spec fn spec_size(name: Seq<char>) -> Option<(Seq<char>, u64)> {
    if contains_seq(name, "135m"@) {
        Some(("135M"@, 200_000_000u64))
    } else if contains_seq(name, "22m"@) {
        Some(("22M"@, 50_000_000u64))
    } else if contains_seq(name, "33m"@) {
        Some(("33M"@, 70_000_000u64))
    } else if contains_seq(name, "110m"@) {
        Some(("110M"@, 200_000_000u64))
    } else if contains_seq(name, "360m"@) {
        Some(("360M"@, 500_000_000u64))
    } else if contains_seq(name, "567m"@) {
        Some(("567M"@, 800_000_000u64))
    } else if contains_seq(name, "0.5b"@) {
        Some(("0.5B"@, 800_000_000u64))
    } else if contains_seq(name, "1b"@) || contains_seq(name, "1.1b"@) || contains_seq(
        name,
        "1.3b"@,
    ) || contains_seq(name, "1.5b"@) || contains_seq(name, "1.7b"@) {
        Some(
            (
                if contains_seq(name, "1.1b"@) {
                    "1.1B"@
                } else if contains_seq(name, "1.3b"@) {
                    "1.3B"@
                } else if contains_seq(name, "1.5b"@) {
                    "1.5B"@
                } else if contains_seq(name, "1.7b"@) {
                    "1.7B"@
                } else {
                    "1B"@
                },
                1_200_000_000u64,
            ),
        )
    } else if contains_seq(name, "2b"@) || contains_seq(name, "2.4b"@) || contains_seq(
        name,
        "2.7b"@,
    ) {
        Some(
            (
                if contains_seq(name, "2.4b"@) {
                    "2.4B"@
                } else if contains_seq(name, "2.7b"@) {
                    "2.7b"@
                } else {
                    "2B"@
                },
                1_600_000_000u64,
            ),
        )
    } else if contains_seq(name, "3b"@) || contains_seq(name, "3.8b"@) {
        Some(
            (
                if contains_seq(name, "3.8b"@) {
                    "3.8B"@
                } else {
                    "3B"@
                },
                2_000_000_000u64,
            ),
        )
    } else if contains_seq(name, "4b"@) {
        Some(("4B"@, 2_500_000_000u64))
    } else if contains_seq(name, "6.7b"@) {
        Some(("6.7B"@, 3_800_000_000u64))
    } else if contains_seq(name, "7b"@) || contains_seq(name, "7.8b"@) {
        Some(
            (
                if contains_seq(name, "7.8b"@) {
                    "7.8B"@
                } else {
                    "7B"@
                },
                4_100_000_000u64,
            ),
        )
    } else if contains_seq(name, "8b"@) {
        Some(("8B"@, 4_700_000_000u64))
    } else if contains_seq(name, "9b"@) {
        Some(("9B"@, 5_200_000_000u64))
    } else if contains_seq(name, "10b"@) || contains_seq(name, "10.7b"@) {
        Some(
            (
                if contains_seq(name, "10.7b"@) {
                    "10.7B"@
                } else {
                    "10B"@
                },
                6_000_000_000u64,
            ),
        )
    } else if contains_seq(name, "11b"@) {
        Some(("11B"@, 6_500_000_000u64))
    } else if contains_seq(name, "12b"@) {
        Some(("12B"@, 7_000_000_000u64))
    } else if contains_seq(name, "13b"@) {
        Some(("13B"@, 7_300_000_000u64))
    } else if contains_seq(name, "14b"@) {
        Some(("14B"@, 8_000_000_000u64))
    } else if contains_seq(name, "15b"@) {
        Some(("15B"@, 8_500_000_000u64))
    } else if contains_seq(name, "16b"@) {
        Some(("16B"@, 9_000_000_000u64))
    } else if contains_seq(name, "20b"@) {
        Some(("20B"@, 11_000_000_000u64))
    } else if contains_seq(name, "22b"@) {
        Some(("22B"@, 12_000_000_000u64))
    } else if contains_seq(name, "24b"@) {
        Some(("24B"@, 13_000_000_000u64))
    } else if contains_seq(name, "27b"@) {
        Some(("27B"@, 15_000_000_000u64))
    } else if contains_seq(name, "30b"@) {
        Some(("30B"@, 17_000_000_000u64))
    } else if contains_seq(name, "32b"@) {
        Some(("32B"@, 18_000_000_000u64))
    } else if contains_seq(name, "33b"@) {
        Some(("33B"@, 19_000_000_000u64))
    } else if contains_seq(name, "34b"@) {
        Some(("34B"@, 20_000_000_000u64))
    } else if contains_seq(name, "35b"@) {
        Some(("35B"@, 20_000_000_000u64))
    } else if contains_seq(name, "40b"@) {
        Some(("40B"@, 23_000_000_000u64))
    } else if contains_seq(name, "67b"@) || contains_seq(name, "671b"@) {
        Some(
            (
                if contains_seq(name, "671b"@) {
                    "671B"@
                } else {
                    "67B"@
                },
                38_000_000_000u64,
            ),
        )
    } else if contains_seq(name, "70b"@) {
        Some(("70B"@, 39_000_000_000u64))
    } else if contains_seq(name, "90b"@) {
        Some(("90B"@, 50_000_000_000u64))
    } else if contains_seq(name, "104b"@) {
        Some(("104B"@, 58_000_000_000u64))
    } else if contains_seq(name, "180b"@) {
        Some(("180B"@, 100_000_000_000u64))
    } else if contains_seq(name, "235b"@) {
        Some(("235B"@, 130_000_000_000u64))
    } else if contains_seq(name, "236b"@) {
        Some(("236B"@, 130_000_000_000u64))
    } else if contains_seq(name, "405b"@) {
        Some(("405B"@, 220_000_000_000u64))
    } else if contains_seq(name, "480b"@) {
        Some(("480B"@, 260_000_000_000u64))
    } else {
        None
    }
}

/// The parameter-size label, `"Unknown"` when no bucket matches.
pub open spec fn spec_size_label(name: Seq<char>) -> Seq<char> {
    match spec_size(name) {
        Some(p) => p.0,
        None => "Unknown"@,
    }
}

/// The estimated byte count, `None` when no bucket matches.
pub open spec fn spec_size_estimate(name: Seq<char>) -> Option<u64> {
    match spec_size(name) {
        Some(p) => Some(p.1),
        None => None,
    }
}

/// The quantization label: first matching token in a fixed order, or
/// `"Default"` when none occurs. Independent of the size rules.
pub open spec fn spec_quant_label(name: Seq<char>) -> Seq<char> {
    if contains_seq(name, "q4_K_M"@) {
        "Q4_K_M"@
    } else if contains_seq(name, "q4_K_S"@) {
        "Q4_K_S"@
    } else if contains_seq(name, "q4_0"@) {
        "Q4_0"@
    } else if contains_seq(name, "q8_0"@) {
        "Q8_0"@
    } else if contains_seq(name, "fp16"@) {
        "FP16"@
    } else {
        "Default"@
    }
}

/// The family part of the identifier: everything before the first `':'`,
/// or the whole identifier when there is no `':'`.
pub fn family_of(name: &str) -> (r: String)
    ensures
        r@ == spec_family(name@),
{
    let colon = find_ch(name, ':');
    proof {
        crate::text::lemma_first_index_of(name@, ':');
    }
    name.substring_char(0, colon).to_owned()
}

/// The parameter-size rule table: first matching token decides, in this
/// order.
fn size_of(name: &str) -> (r: (String, Option<u64>))
    ensures
        r.0@ == spec_size_label(name@),
        r.1 == spec_size_estimate(name@),
{
    if contains_sub(name, "135m") {
        ("135M".to_owned(), Some(200_000_000u64))
    } else if contains_sub(name, "22m") {
        ("22M".to_owned(), Some(50_000_000u64))
    } else if contains_sub(name, "33m") {
        ("33M".to_owned(), Some(70_000_000u64))
    } else if contains_sub(name, "110m") {
        ("110M".to_owned(), Some(200_000_000u64))
    } else if contains_sub(name, "360m") {
        ("360M".to_owned(), Some(500_000_000u64))
    } else if contains_sub(name, "567m") {
        ("567M".to_owned(), Some(800_000_000u64))
    } else if contains_sub(name, "0.5b") {
        ("0.5B".to_owned(), Some(800_000_000u64))
    } else if contains_sub(name, "1b") || contains_sub(name, "1.1b") || contains_sub(name, "1.3b")
        || contains_sub(name, "1.5b") || contains_sub(name, "1.7b") {
        let label = if contains_sub(name, "1.1b") {
            "1.1B"
        } else if contains_sub(name, "1.3b") {
            "1.3B"
        } else if contains_sub(name, "1.5b") {
            "1.5B"
        } else if contains_sub(name, "1.7b") {
            "1.7B"
        } else {
            "1B"
        };
        (label.to_owned(), Some(1_200_000_000u64))
    } else if contains_sub(name, "2b") || contains_sub(name, "2.4b") || contains_sub(name, "2.7b") {
        let label = if contains_sub(name, "2.4b") {
            "2.4B"
        } else if contains_sub(name, "2.7b") {
            "2.7b"
        } else {
            "2B"
        };
        (label.to_owned(), Some(1_600_000_000u64))
    } else if contains_sub(name, "3b") || contains_sub(name, "3.8b") {
        let label = if contains_sub(name, "3.8b") {
            "3.8B"
        } else {
            "3B"
        };
        (label.to_owned(), Some(2_000_000_000u64))
    } else if contains_sub(name, "4b") {
        ("4B".to_owned(), Some(2_500_000_000u64))
    } else if contains_sub(name, "6.7b") {
        ("6.7B".to_owned(), Some(3_800_000_000u64))
    } else if contains_sub(name, "7b") || contains_sub(name, "7.8b") {
        let label = if contains_sub(name, "7.8b") {
            "7.8B"
        } else {
            "7B"
        };
        (label.to_owned(), Some(4_100_000_000u64))
    } else if contains_sub(name, "8b") {
        ("8B".to_owned(), Some(4_700_000_000u64))
    } else if contains_sub(name, "9b") {
        ("9B".to_owned(), Some(5_200_000_000u64))
    } else if contains_sub(name, "10b") || contains_sub(name, "10.7b") {
        let label = if contains_sub(name, "10.7b") {
            "10.7B"
        } else {
            "10B"
        };
        (label.to_owned(), Some(6_000_000_000u64))
    } else if contains_sub(name, "11b") {
        ("11B".to_owned(), Some(6_500_000_000u64))
    } else if contains_sub(name, "12b") {
        ("12B".to_owned(), Some(7_000_000_000u64))
    } else if contains_sub(name, "13b") {
        ("13B".to_owned(), Some(7_300_000_000u64))
    } else if contains_sub(name, "14b") {
        ("14B".to_owned(), Some(8_000_000_000u64))
    } else if contains_sub(name, "15b") {
        ("15B".to_owned(), Some(8_500_000_000u64))
    } else if contains_sub(name, "16b") {
        ("16B".to_owned(), Some(9_000_000_000u64))
    } else if contains_sub(name, "20b") {
        ("20B".to_owned(), Some(11_000_000_000u64))
    } else if contains_sub(name, "22b") {
        ("22B".to_owned(), Some(12_000_000_000u64))
    } else if contains_sub(name, "24b") {
        ("24B".to_owned(), Some(13_000_000_000u64))
    } else if contains_sub(name, "27b") {
        ("27B".to_owned(), Some(15_000_000_000u64))
    } else if contains_sub(name, "30b") {
        ("30B".to_owned(), Some(17_000_000_000u64))
    } else if contains_sub(name, "32b") {
        ("32B".to_owned(), Some(18_000_000_000u64))
    } else if contains_sub(name, "33b") {
        ("33B".to_owned(), Some(19_000_000_000u64))
    } else if contains_sub(name, "34b") {
        ("34B".to_owned(), Some(20_000_000_000u64))
    } else if contains_sub(name, "35b") {
        ("35B".to_owned(), Some(20_000_000_000u64))
    } else if contains_sub(name, "40b") {
        ("40B".to_owned(), Some(23_000_000_000u64))
    } else if contains_sub(name, "67b") || contains_sub(name, "671b") {
        let label = if contains_sub(name, "671b") {
            "671B"
        } else {
            "67B"
        };
        (label.to_owned(), Some(38_000_000_000u64))
    } else if contains_sub(name, "70b") {
        ("70B".to_owned(), Some(39_000_000_000u64))
    } else if contains_sub(name, "90b") {
        ("90B".to_owned(), Some(50_000_000_000u64))
    } else if contains_sub(name, "104b") {
        ("104B".to_owned(), Some(58_000_000_000u64))
    } else if contains_sub(name, "180b") {
        ("180B".to_owned(), Some(100_000_000_000u64))
    } else if contains_sub(name, "235b") {
        ("235B".to_owned(), Some(130_000_000_000u64))
    } else if contains_sub(name, "236b") {
        ("236B".to_owned(), Some(130_000_000_000u64))
    } else if contains_sub(name, "405b") {
        ("405B".to_owned(), Some(220_000_000_000u64))
    } else if contains_sub(name, "480b") {
        ("480B".to_owned(), Some(260_000_000_000u64))
    } else {
        ("Unknown".to_owned(), None)
    }
}

/// The quantization rule table: first matching token decides, in this order.
fn quant_of(name: &str) -> (r: String)
    ensures
        r@ == spec_quant_label(name@),
{
    if contains_sub(name, "q4_K_M") {
        "Q4_K_M".to_owned()
    } else if contains_sub(name, "q4_K_S") {
        "Q4_K_S".to_owned()
    } else if contains_sub(name, "q4_0") {
        "Q4_0".to_owned()
    } else if contains_sub(name, "q8_0") {
        "Q8_0".to_owned()
    } else if contains_sub(name, "fp16") {
        "FP16".to_owned()
    } else {
        "Default".to_owned()
    }
}

/// Classify a model identifier: family, parameter-size label, quantization
/// label and estimated byte count. Total over every string, the empty one
/// included; absence of a match yields the sentinels, never an error.
pub fn parse_model_info(model_name: &str) -> (r: (String, String, String, Option<u64>))
    ensures
        r.0@ == spec_family(model_name@),
        r.1@ == spec_size_label(model_name@),
        r.2@ == spec_quant_label(model_name@),
        r.3 == spec_size_estimate(model_name@),
{
    let family = family_of(model_name);
    let (parameter_size, estimated_size) = size_of(model_name);
    let quantization_level = quant_of(model_name);
    (family, parameter_size, quantization_level, estimated_size)
}

} // verus!
