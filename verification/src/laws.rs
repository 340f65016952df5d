//! The general laws of the catalog classifier, each stated over the spec
//! functions its contracts use and proved once for every input.

use vstd::prelude::*;

use crate::classify::{spec_quant_label, spec_size_estimate, spec_size_label};
use crate::text::{contains_char, contains_seq, first_index_of, is_ws, lemma_first_index_of,
    split_lines, trim_end_s, trim_s, trim_start_s};
use crate::transcript::{has_spinner, kept_body, lemma_remove_all_absent, line_contrib,
    spec_extract, strip_controls};

verus! {

/// The identifier carries at least one recognized size token.
pub open spec fn has_size_token(name: Seq<char>) -> bool {
    contains_seq(name, "135m"@)
    || contains_seq(name, "22m"@)
    || contains_seq(name, "33m"@)
    || contains_seq(name, "110m"@)
    || contains_seq(name, "360m"@)
    || contains_seq(name, "567m"@)
    || contains_seq(name, "0.5b"@)
    || contains_seq(name, "1b"@)
    || contains_seq(name, "1.1b"@)
    || contains_seq(name, "1.3b"@)
    || contains_seq(name, "1.5b"@)
    || contains_seq(name, "1.7b"@)
    || contains_seq(name, "2b"@)
    || contains_seq(name, "2.4b"@)
    || contains_seq(name, "2.7b"@)
    || contains_seq(name, "3b"@)
    || contains_seq(name, "3.8b"@)
    || contains_seq(name, "4b"@)
    || contains_seq(name, "6.7b"@)
    || contains_seq(name, "7b"@)
    || contains_seq(name, "7.8b"@)
    || contains_seq(name, "8b"@)
    || contains_seq(name, "9b"@)
    || contains_seq(name, "10b"@)
    || contains_seq(name, "10.7b"@)
    || contains_seq(name, "11b"@)
    || contains_seq(name, "12b"@)
    || contains_seq(name, "13b"@)
    || contains_seq(name, "14b"@)
    || contains_seq(name, "15b"@)
    || contains_seq(name, "16b"@)
    || contains_seq(name, "20b"@)
    || contains_seq(name, "22b"@)
    || contains_seq(name, "24b"@)
    || contains_seq(name, "27b"@)
    || contains_seq(name, "30b"@)
    || contains_seq(name, "32b"@)
    || contains_seq(name, "33b"@)
    || contains_seq(name, "34b"@)
    || contains_seq(name, "35b"@)
    || contains_seq(name, "40b"@)
    || contains_seq(name, "67b"@)
    || contains_seq(name, "671b"@)
    || contains_seq(name, "70b"@)
    || contains_seq(name, "90b"@)
    || contains_seq(name, "104b"@)
    || contains_seq(name, "180b"@)
    || contains_seq(name, "235b"@)
    || contains_seq(name, "236b"@)
    || contains_seq(name, "405b"@)
    || contains_seq(name, "480b"@)
}

/// `pat` is one of the recognized size tokens.
pub open spec fn is_size_pattern(pat: Seq<char>) -> bool {
    pat == "135m"@
    || pat == "22m"@
    || pat == "33m"@
    || pat == "110m"@
    || pat == "360m"@
    || pat == "567m"@
    || pat == "0.5b"@
    || pat == "1b"@
    || pat == "1.1b"@
    || pat == "1.3b"@
    || pat == "1.5b"@
    || pat == "1.7b"@
    || pat == "2b"@
    || pat == "2.4b"@
    || pat == "2.7b"@
    || pat == "3b"@
    || pat == "3.8b"@
    || pat == "4b"@
    || pat == "6.7b"@
    || pat == "7b"@
    || pat == "7.8b"@
    || pat == "8b"@
    || pat == "9b"@
    || pat == "10b"@
    || pat == "10.7b"@
    || pat == "11b"@
    || pat == "12b"@
    || pat == "13b"@
    || pat == "14b"@
    || pat == "15b"@
    || pat == "16b"@
    || pat == "20b"@
    || pat == "22b"@
    || pat == "24b"@
    || pat == "27b"@
    || pat == "30b"@
    || pat == "32b"@
    || pat == "33b"@
    || pat == "34b"@
    || pat == "35b"@
    || pat == "40b"@
    || pat == "67b"@
    || pat == "671b"@
    || pat == "70b"@
    || pat == "90b"@
    || pat == "104b"@
    || pat == "180b"@
    || pat == "235b"@
    || pat == "236b"@
    || pat == "405b"@
    || pat == "480b"@
}

/// The label of the size rule whose token is `pat`.
pub open spec fn size_rule_label(pat: Seq<char>) -> Seq<char> {
    if pat == "135m"@ {
        "135M"@
    } else if pat == "22m"@ {
        "22M"@
    } else if pat == "33m"@ {
        "33M"@
    } else if pat == "110m"@ {
        "110M"@
    } else if pat == "360m"@ {
        "360M"@
    } else if pat == "567m"@ {
        "567M"@
    } else if pat == "0.5b"@ {
        "0.5B"@
    } else if pat == "1b"@ {
        "1B"@
    } else if pat == "1.1b"@ {
        "1.1B"@
    } else if pat == "1.3b"@ {
        "1.3B"@
    } else if pat == "1.5b"@ {
        "1.5B"@
    } else if pat == "1.7b"@ {
        "1.7B"@
    } else if pat == "2b"@ {
        "2B"@
    } else if pat == "2.4b"@ {
        "2.4B"@
    } else if pat == "2.7b"@ {
        "2.7b"@
    } else if pat == "3b"@ {
        "3B"@
    } else if pat == "3.8b"@ {
        "3.8B"@
    } else if pat == "4b"@ {
        "4B"@
    } else if pat == "6.7b"@ {
        "6.7B"@
    } else if pat == "7b"@ {
        "7B"@
    } else if pat == "7.8b"@ {
        "7.8B"@
    } else if pat == "8b"@ {
        "8B"@
    } else if pat == "9b"@ {
        "9B"@
    } else if pat == "10b"@ {
        "10B"@
    } else if pat == "10.7b"@ {
        "10.7B"@
    } else if pat == "11b"@ {
        "11B"@
    } else if pat == "12b"@ {
        "12B"@
    } else if pat == "13b"@ {
        "13B"@
    } else if pat == "14b"@ {
        "14B"@
    } else if pat == "15b"@ {
        "15B"@
    } else if pat == "16b"@ {
        "16B"@
    } else if pat == "20b"@ {
        "20B"@
    } else if pat == "22b"@ {
        "22B"@
    } else if pat == "24b"@ {
        "24B"@
    } else if pat == "27b"@ {
        "27B"@
    } else if pat == "30b"@ {
        "30B"@
    } else if pat == "32b"@ {
        "32B"@
    } else if pat == "33b"@ {
        "33B"@
    } else if pat == "34b"@ {
        "34B"@
    } else if pat == "35b"@ {
        "35B"@
    } else if pat == "40b"@ {
        "40B"@
    } else if pat == "67b"@ {
        "67B"@
    } else if pat == "671b"@ {
        "671B"@
    } else if pat == "70b"@ {
        "70B"@
    } else if pat == "90b"@ {
        "90B"@
    } else if pat == "104b"@ {
        "104B"@
    } else if pat == "180b"@ {
        "180B"@
    } else if pat == "235b"@ {
        "235B"@
    } else if pat == "236b"@ {
        "236B"@
    } else if pat == "405b"@ {
        "405B"@
    } else if pat == "480b"@ {
        "480B"@
    } else {
        "Unknown"@
    }
}

/// The estimated byte count of the size rule whose token is `pat`.
pub open spec fn size_rule_estimate(pat: Seq<char>) -> u64 {
    if pat == "135m"@ {
        200_000_000u64
    } else if pat == "22m"@ {
        50_000_000u64
    } else if pat == "33m"@ {
        70_000_000u64
    } else if pat == "110m"@ {
        200_000_000u64
    } else if pat == "360m"@ {
        500_000_000u64
    } else if pat == "567m"@ {
        800_000_000u64
    } else if pat == "0.5b"@ {
        800_000_000u64
    } else if pat == "1b"@ {
        1_200_000_000u64
    } else if pat == "1.1b"@ {
        1_200_000_000u64
    } else if pat == "1.3b"@ {
        1_200_000_000u64
    } else if pat == "1.5b"@ {
        1_200_000_000u64
    } else if pat == "1.7b"@ {
        1_200_000_000u64
    } else if pat == "2b"@ {
        1_600_000_000u64
    } else if pat == "2.4b"@ {
        1_600_000_000u64
    } else if pat == "2.7b"@ {
        1_600_000_000u64
    } else if pat == "3b"@ {
        2_000_000_000u64
    } else if pat == "3.8b"@ {
        2_000_000_000u64
    } else if pat == "4b"@ {
        2_500_000_000u64
    } else if pat == "6.7b"@ {
        3_800_000_000u64
    } else if pat == "7b"@ {
        4_100_000_000u64
    } else if pat == "7.8b"@ {
        4_100_000_000u64
    } else if pat == "8b"@ {
        4_700_000_000u64
    } else if pat == "9b"@ {
        5_200_000_000u64
    } else if pat == "10b"@ {
        6_000_000_000u64
    } else if pat == "10.7b"@ {
        6_000_000_000u64
    } else if pat == "11b"@ {
        6_500_000_000u64
    } else if pat == "12b"@ {
        7_000_000_000u64
    } else if pat == "13b"@ {
        7_300_000_000u64
    } else if pat == "14b"@ {
        8_000_000_000u64
    } else if pat == "15b"@ {
        8_500_000_000u64
    } else if pat == "16b"@ {
        9_000_000_000u64
    } else if pat == "20b"@ {
        11_000_000_000u64
    } else if pat == "22b"@ {
        12_000_000_000u64
    } else if pat == "24b"@ {
        13_000_000_000u64
    } else if pat == "27b"@ {
        15_000_000_000u64
    } else if pat == "30b"@ {
        17_000_000_000u64
    } else if pat == "32b"@ {
        18_000_000_000u64
    } else if pat == "33b"@ {
        19_000_000_000u64
    } else if pat == "34b"@ {
        20_000_000_000u64
    } else if pat == "35b"@ {
        20_000_000_000u64
    } else if pat == "40b"@ {
        23_000_000_000u64
    } else if pat == "67b"@ {
        38_000_000_000u64
    } else if pat == "671b"@ {
        38_000_000_000u64
    } else if pat == "70b"@ {
        39_000_000_000u64
    } else if pat == "90b"@ {
        50_000_000_000u64
    } else if pat == "104b"@ {
        58_000_000_000u64
    } else if pat == "180b"@ {
        100_000_000_000u64
    } else if pat == "235b"@ {
        130_000_000_000u64
    } else if pat == "236b"@ {
        130_000_000_000u64
    } else if pat == "405b"@ {
        220_000_000_000u64
    } else if pat == "480b"@ {
        260_000_000_000u64
    } else {
        0u64
    }
}

/// No size token other than `pat` occurs in the identifier.
pub open spec fn only_size_token(name: Seq<char>, pat: Seq<char>) -> bool {
    (pat == "135m"@ || !contains_seq(name, "135m"@))
    && (pat == "22m"@ || !contains_seq(name, "22m"@))
    && (pat == "33m"@ || !contains_seq(name, "33m"@))
    && (pat == "110m"@ || !contains_seq(name, "110m"@))
    && (pat == "360m"@ || !contains_seq(name, "360m"@))
    && (pat == "567m"@ || !contains_seq(name, "567m"@))
    && (pat == "0.5b"@ || !contains_seq(name, "0.5b"@))
    && (pat == "1b"@ || !contains_seq(name, "1b"@))
    && (pat == "1.1b"@ || !contains_seq(name, "1.1b"@))
    && (pat == "1.3b"@ || !contains_seq(name, "1.3b"@))
    && (pat == "1.5b"@ || !contains_seq(name, "1.5b"@))
    && (pat == "1.7b"@ || !contains_seq(name, "1.7b"@))
    && (pat == "2b"@ || !contains_seq(name, "2b"@))
    && (pat == "2.4b"@ || !contains_seq(name, "2.4b"@))
    && (pat == "2.7b"@ || !contains_seq(name, "2.7b"@))
    && (pat == "3b"@ || !contains_seq(name, "3b"@))
    && (pat == "3.8b"@ || !contains_seq(name, "3.8b"@))
    && (pat == "4b"@ || !contains_seq(name, "4b"@))
    && (pat == "6.7b"@ || !contains_seq(name, "6.7b"@))
    && (pat == "7b"@ || !contains_seq(name, "7b"@))
    && (pat == "7.8b"@ || !contains_seq(name, "7.8b"@))
    && (pat == "8b"@ || !contains_seq(name, "8b"@))
    && (pat == "9b"@ || !contains_seq(name, "9b"@))
    && (pat == "10b"@ || !contains_seq(name, "10b"@))
    && (pat == "10.7b"@ || !contains_seq(name, "10.7b"@))
    && (pat == "11b"@ || !contains_seq(name, "11b"@))
    && (pat == "12b"@ || !contains_seq(name, "12b"@))
    && (pat == "13b"@ || !contains_seq(name, "13b"@))
    && (pat == "14b"@ || !contains_seq(name, "14b"@))
    && (pat == "15b"@ || !contains_seq(name, "15b"@))
    && (pat == "16b"@ || !contains_seq(name, "16b"@))
    && (pat == "20b"@ || !contains_seq(name, "20b"@))
    && (pat == "22b"@ || !contains_seq(name, "22b"@))
    && (pat == "24b"@ || !contains_seq(name, "24b"@))
    && (pat == "27b"@ || !contains_seq(name, "27b"@))
    && (pat == "30b"@ || !contains_seq(name, "30b"@))
    && (pat == "32b"@ || !contains_seq(name, "32b"@))
    && (pat == "33b"@ || !contains_seq(name, "33b"@))
    && (pat == "34b"@ || !contains_seq(name, "34b"@))
    && (pat == "35b"@ || !contains_seq(name, "35b"@))
    && (pat == "40b"@ || !contains_seq(name, "40b"@))
    && (pat == "67b"@ || !contains_seq(name, "67b"@))
    && (pat == "671b"@ || !contains_seq(name, "671b"@))
    && (pat == "70b"@ || !contains_seq(name, "70b"@))
    && (pat == "90b"@ || !contains_seq(name, "90b"@))
    && (pat == "104b"@ || !contains_seq(name, "104b"@))
    && (pat == "180b"@ || !contains_seq(name, "180b"@))
    && (pat == "235b"@ || !contains_seq(name, "235b"@))
    && (pat == "236b"@ || !contains_seq(name, "236b"@))
    && (pat == "405b"@ || !contains_seq(name, "405b"@))
    && (pat == "480b"@ || !contains_seq(name, "480b"@))
}

/// An identifier with no recognized size token classifies to the sentinel
/// label `"Unknown"` and no size estimate.
pub proof fn lemma_no_size_token(name: Seq<char>)
    requires
        !has_size_token(name),
    ensures
        spec_size_label(name) == "Unknown"@,
        spec_size_estimate(name) is None,
{
}

/// An identifier carrying exactly one recognized size token classifies to
/// that rule's fixed label and estimate.
#[verifier::rlimit(100)]
pub proof fn lemma_single_size_match(name: Seq<char>, pat: Seq<char>)
    requires
        is_size_pattern(pat),
        contains_seq(name, pat),
        only_size_token(name, pat),
    ensures
        spec_size_label(name) == size_rule_label(pat),
        spec_size_estimate(name) == Some(size_rule_estimate(pat)),
{
    reveal_strlit("135m");
    reveal_strlit("22m");
    reveal_strlit("33m");
    reveal_strlit("110m");
    reveal_strlit("360m");
    reveal_strlit("567m");
    reveal_strlit("0.5b");
    reveal_strlit("1b");
    reveal_strlit("1.1b");
    reveal_strlit("1.3b");
    reveal_strlit("1.5b");
    reveal_strlit("1.7b");
    reveal_strlit("2b");
    reveal_strlit("2.4b");
    reveal_strlit("2.7b");
    reveal_strlit("3b");
    reveal_strlit("3.8b");
    reveal_strlit("4b");
    reveal_strlit("6.7b");
    reveal_strlit("7b");
    reveal_strlit("7.8b");
    reveal_strlit("8b");
    reveal_strlit("9b");
    reveal_strlit("10b");
    reveal_strlit("10.7b");
    reveal_strlit("11b");
    reveal_strlit("12b");
    reveal_strlit("13b");
    reveal_strlit("14b");
    reveal_strlit("15b");
    reveal_strlit("16b");
    reveal_strlit("20b");
    reveal_strlit("22b");
    reveal_strlit("24b");
    reveal_strlit("27b");
    reveal_strlit("30b");
    reveal_strlit("32b");
    reveal_strlit("33b");
    reveal_strlit("34b");
    reveal_strlit("35b");
    reveal_strlit("40b");
    reveal_strlit("67b");
    reveal_strlit("671b");
    reveal_strlit("70b");
    reveal_strlit("90b");
    reveal_strlit("104b");
    reveal_strlit("180b");
    reveal_strlit("235b");
    reveal_strlit("236b");
    reveal_strlit("405b");
    reveal_strlit("480b");
    if pat == "135m"@ {
        assert(spec_size_label(name) == "135M"@);
        assert(spec_size_estimate(name) == Some(200_000_000u64));
    } else if pat == "22m"@ {
        assert(spec_size_label(name) == "22M"@);
        assert(spec_size_estimate(name) == Some(50_000_000u64));
    } else if pat == "33m"@ {
        assert(spec_size_label(name) == "33M"@);
        assert(spec_size_estimate(name) == Some(70_000_000u64));
    } else if pat == "110m"@ {
        assert(spec_size_label(name) == "110M"@);
        assert(spec_size_estimate(name) == Some(200_000_000u64));
    } else if pat == "360m"@ {
        assert(spec_size_label(name) == "360M"@);
        assert(spec_size_estimate(name) == Some(500_000_000u64));
    } else if pat == "567m"@ {
        assert(spec_size_label(name) == "567M"@);
        assert(spec_size_estimate(name) == Some(800_000_000u64));
    } else if pat == "0.5b"@ {
        assert(spec_size_label(name) == "0.5B"@);
        assert(spec_size_estimate(name) == Some(800_000_000u64));
    } else if pat == "1b"@ {
        assert(spec_size_label(name) == "1B"@);
        assert(spec_size_estimate(name) == Some(1_200_000_000u64));
    } else if pat == "1.1b"@ {
        assert(spec_size_label(name) == "1.1B"@);
        assert(spec_size_estimate(name) == Some(1_200_000_000u64));
    } else if pat == "1.3b"@ {
        assert(spec_size_label(name) == "1.3B"@);
        assert(spec_size_estimate(name) == Some(1_200_000_000u64));
    } else if pat == "1.5b"@ {
        assert(spec_size_label(name) == "1.5B"@);
        assert(spec_size_estimate(name) == Some(1_200_000_000u64));
    } else if pat == "1.7b"@ {
        assert(spec_size_label(name) == "1.7B"@);
        assert(spec_size_estimate(name) == Some(1_200_000_000u64));
    } else if pat == "2b"@ {
        assert(spec_size_label(name) == "2B"@);
        assert(spec_size_estimate(name) == Some(1_600_000_000u64));
    } else if pat == "2.4b"@ {
        assert(spec_size_label(name) == "2.4B"@);
        assert(spec_size_estimate(name) == Some(1_600_000_000u64));
    } else if pat == "2.7b"@ {
        assert(spec_size_label(name) == "2.7b"@);
        assert(spec_size_estimate(name) == Some(1_600_000_000u64));
    } else if pat == "3b"@ {
        assert(spec_size_label(name) == "3B"@);
        assert(spec_size_estimate(name) == Some(2_000_000_000u64));
    } else if pat == "3.8b"@ {
        assert(spec_size_label(name) == "3.8B"@);
        assert(spec_size_estimate(name) == Some(2_000_000_000u64));
    } else if pat == "4b"@ {
        assert(spec_size_label(name) == "4B"@);
        assert(spec_size_estimate(name) == Some(2_500_000_000u64));
    } else if pat == "6.7b"@ {
        assert(spec_size_label(name) == "6.7B"@);
        assert(spec_size_estimate(name) == Some(3_800_000_000u64));
    } else if pat == "7b"@ {
        assert(spec_size_label(name) == "7B"@);
        assert(spec_size_estimate(name) == Some(4_100_000_000u64));
    } else if pat == "7.8b"@ {
        assert(spec_size_label(name) == "7.8B"@);
        assert(spec_size_estimate(name) == Some(4_100_000_000u64));
    } else if pat == "8b"@ {
        assert(spec_size_label(name) == "8B"@);
        assert(spec_size_estimate(name) == Some(4_700_000_000u64));
    } else if pat == "9b"@ {
        assert(spec_size_label(name) == "9B"@);
        assert(spec_size_estimate(name) == Some(5_200_000_000u64));
    } else if pat == "10b"@ {
        assert(spec_size_label(name) == "10B"@);
        assert(spec_size_estimate(name) == Some(6_000_000_000u64));
    } else if pat == "10.7b"@ {
        assert(spec_size_label(name) == "10.7B"@);
        assert(spec_size_estimate(name) == Some(6_000_000_000u64));
    } else if pat == "11b"@ {
        assert(spec_size_label(name) == "11B"@);
        assert(spec_size_estimate(name) == Some(6_500_000_000u64));
    } else if pat == "12b"@ {
        assert(spec_size_label(name) == "12B"@);
        assert(spec_size_estimate(name) == Some(7_000_000_000u64));
    } else if pat == "13b"@ {
        assert(spec_size_label(name) == "13B"@);
        assert(spec_size_estimate(name) == Some(7_300_000_000u64));
    } else if pat == "14b"@ {
        assert(spec_size_label(name) == "14B"@);
        assert(spec_size_estimate(name) == Some(8_000_000_000u64));
    } else if pat == "15b"@ {
        assert(spec_size_label(name) == "15B"@);
        assert(spec_size_estimate(name) == Some(8_500_000_000u64));
    } else if pat == "16b"@ {
        assert(spec_size_label(name) == "16B"@);
        assert(spec_size_estimate(name) == Some(9_000_000_000u64));
    } else if pat == "20b"@ {
        assert(spec_size_label(name) == "20B"@);
        assert(spec_size_estimate(name) == Some(11_000_000_000u64));
    } else if pat == "22b"@ {
        assert(spec_size_label(name) == "22B"@);
        assert(spec_size_estimate(name) == Some(12_000_000_000u64));
    } else if pat == "24b"@ {
        assert(spec_size_label(name) == "24B"@);
        assert(spec_size_estimate(name) == Some(13_000_000_000u64));
    } else if pat == "27b"@ {
        assert(spec_size_label(name) == "27B"@);
        assert(spec_size_estimate(name) == Some(15_000_000_000u64));
    } else if pat == "30b"@ {
        assert(spec_size_label(name) == "30B"@);
        assert(spec_size_estimate(name) == Some(17_000_000_000u64));
    } else if pat == "32b"@ {
        assert(spec_size_label(name) == "32B"@);
        assert(spec_size_estimate(name) == Some(18_000_000_000u64));
    } else if pat == "33b"@ {
        assert(spec_size_label(name) == "33B"@);
        assert(spec_size_estimate(name) == Some(19_000_000_000u64));
    } else if pat == "34b"@ {
        assert(spec_size_label(name) == "34B"@);
        assert(spec_size_estimate(name) == Some(20_000_000_000u64));
    } else if pat == "35b"@ {
        assert(spec_size_label(name) == "35B"@);
        assert(spec_size_estimate(name) == Some(20_000_000_000u64));
    } else if pat == "40b"@ {
        assert(spec_size_label(name) == "40B"@);
        assert(spec_size_estimate(name) == Some(23_000_000_000u64));
    } else if pat == "67b"@ {
        assert(spec_size_label(name) == "67B"@);
        assert(spec_size_estimate(name) == Some(38_000_000_000u64));
    } else if pat == "671b"@ {
        assert(spec_size_label(name) == "671B"@);
        assert(spec_size_estimate(name) == Some(38_000_000_000u64));
    } else if pat == "70b"@ {
        assert(spec_size_label(name) == "70B"@);
        assert(spec_size_estimate(name) == Some(39_000_000_000u64));
    } else if pat == "90b"@ {
        assert(spec_size_label(name) == "90B"@);
        assert(spec_size_estimate(name) == Some(50_000_000_000u64));
    } else if pat == "104b"@ {
        assert(spec_size_label(name) == "104B"@);
        assert(spec_size_estimate(name) == Some(58_000_000_000u64));
    } else if pat == "180b"@ {
        assert(spec_size_label(name) == "180B"@);
        assert(spec_size_estimate(name) == Some(100_000_000_000u64));
    } else if pat == "235b"@ {
        assert(spec_size_label(name) == "235B"@);
        assert(spec_size_estimate(name) == Some(130_000_000_000u64));
    } else if pat == "236b"@ {
        assert(spec_size_label(name) == "236B"@);
        assert(spec_size_estimate(name) == Some(130_000_000_000u64));
    } else if pat == "405b"@ {
        assert(spec_size_label(name) == "405B"@);
        assert(spec_size_estimate(name) == Some(220_000_000_000u64));
    } else if pat == "480b"@ {
        assert(spec_size_label(name) == "480B"@);
        assert(spec_size_estimate(name) == Some(260_000_000_000u64));
    }
}

/// The ambiguous-priority case: an identifier carrying both `"7b"` and
/// `"70b"` and no size token of an earlier bucket resolves to the `"7b"`
/// bucket, the earlier entry of the fixed priority list.
pub proof fn lemma_seven_beats_seventy(name: Seq<char>)
    requires
        contains_seq(name, "7b"@),
        contains_seq(name, "70b"@),
        !contains_seq(name, "7.8b"@),
        !contains_seq(name, "135m"@),
        !contains_seq(name, "22m"@),
        !contains_seq(name, "33m"@),
        !contains_seq(name, "110m"@),
        !contains_seq(name, "360m"@),
        !contains_seq(name, "567m"@),
        !contains_seq(name, "0.5b"@),
        !contains_seq(name, "1b"@),
        !contains_seq(name, "1.1b"@),
        !contains_seq(name, "1.3b"@),
        !contains_seq(name, "1.5b"@),
        !contains_seq(name, "1.7b"@),
        !contains_seq(name, "2b"@),
        !contains_seq(name, "2.4b"@),
        !contains_seq(name, "2.7b"@),
        !contains_seq(name, "3b"@),
        !contains_seq(name, "3.8b"@),
        !contains_seq(name, "4b"@),
        !contains_seq(name, "6.7b"@),
    ensures
        spec_size_label(name) == "7B"@,
        spec_size_estimate(name) == Some(4_100_000_000u64),
{
}

/// Quantization extraction is independent of size extraction: with no size
/// token the size label degrades to `"Unknown"` while the quantization
/// token is still honored.
pub proof fn lemma_quant_independent_of_size(name: Seq<char>)
    requires
        !has_size_token(name),
        contains_seq(name, "q8_0"@),
        !contains_seq(name, "q4_K_M"@),
        !contains_seq(name, "q4_K_S"@),
        !contains_seq(name, "q4_0"@),
    ensures
        spec_size_label(name) == "Unknown"@,
        spec_size_estimate(name) is None,
        spec_quant_label(name) == "Q8_0"@,
{
}

/// A line that normalization passes through untouched: already trimmed, not
/// blank, and free of prompt markers, spinner glyphs and `':'` labels.
pub open spec fn clean_line_shape(l: Seq<char>) -> bool {
    &&& trim_s(l) == l
    &&& l.len() > 0
    &&& !contains_seq(l, ">>>"@)
    &&& !has_spinner(l)
    &&& !contains_char(l, ':')
}

proof fn lemma_strip_absent(s: Seq<char>)
    requires
        !contains_char(s, '\u{1b}'),
    ensures
        strip_controls(s) == s,
{
    reveal_strlit("\u{1b}[?25h");
    reveal_strlit("\u{1b}[?25l");
    reveal_strlit("\u{1b}[?2026h");
    reveal_strlit("\u{1b}[?2026l");
    reveal_strlit("\u{1b}[1G");
    reveal_strlit("\u{1b}[2K");
    reveal_strlit("\u{1b}[K");
    reveal_strlit("\u{1b}[");
    reveal_strlit("\u{1b}");
    lemma_remove_all_absent(s, "\u{1b}[?25h"@);
    lemma_remove_all_absent(s, "\u{1b}[?25l"@);
    lemma_remove_all_absent(s, "\u{1b}[?2026h"@);
    lemma_remove_all_absent(s, "\u{1b}[?2026l"@);
    lemma_remove_all_absent(s, "\u{1b}[1G"@);
    lemma_remove_all_absent(s, "\u{1b}[2K"@);
    lemma_remove_all_absent(s, "\u{1b}[K"@);
    lemma_remove_all_absent(s, "\u{1b}["@);
    lemma_remove_all_absent(s, "\u{1b}"@);
}

proof fn lemma_clean_body(s: Seq<char>)
    requires
        !contains_char(s, '\r'),
        forall|i: int| 0 <= i < split_lines(s).len() ==> clean_line_shape(
            #[trigger] split_lines(s)[i],
        ),
    ensures
        kept_body(split_lines(s)) == if s.len() == 0 {
            Seq::<char>::empty()
        } else if s.last() == '\n' {
            s
        } else {
            s + seq!['\n']
        },
    decreases s.len(),
{
    if s.len() == 0 {
    } else {
        lemma_first_index_of(s, '\n');
        let i = first_index_of(s, '\n');
        if 0 <= i && i < s.len() {
            if i > 0 {
                assert(s[i - 1] != '\r');
            }
            let line = s.take(i);
            let rest = s.skip(i + 1);
            assert(split_lines(s) =~= seq![line] + split_lines(rest));
            assert(split_lines(s)[0] == line);
            assert(clean_line_shape(line));
            assert forall|k: int| 0 <= k < split_lines(rest).len() implies clean_line_shape(
                #[trigger] split_lines(rest)[k],
            ) by {
                assert(split_lines(rest)[k] == split_lines(s)[k + 1]);
            }
            assert forall|k: int| 0 <= k < rest.len() implies rest[k] != '\r' by {
                assert(rest[k] == s[i + 1 + k]);
            }
            lemma_clean_body(rest);
            assert(line_contrib(line) == line + seq!['\n']);
            assert(kept_body(split_lines(s)) == line_contrib(line) + kept_body(
                split_lines(rest),
            )) by {
                assert((seq![line] + split_lines(rest)).skip(1) =~= split_lines(rest));
            }
            if rest.len() == 0 {
                assert(i + 1 == s.len());
                assert(s.last() == '\n');
                assert(line + seq!['\n'] =~= s);
                assert(kept_body(Seq::<Seq<char>>::empty()) == Seq::<char>::empty());
                assert(line_contrib(line) + Seq::<char>::empty() =~= line + seq!['\n']);
            } else {
                assert(s.last() == rest.last());
                if rest.last() == '\n' {
                    assert((line + seq!['\n']) + rest =~= s);
                } else {
                    assert((line + seq!['\n']) + (rest + seq!['\n']) =~= s + seq!['\n']);
                }
            }
        } else {
            assert(split_lines(s) =~= seq![s]);
            assert(split_lines(s)[0] == s);
            assert(clean_line_shape(s));
            assert(s.last() != '\n');
            assert(kept_body(split_lines(s)) == line_contrib(s) + kept_body(
                split_lines(s).skip(1),
            ));
            assert(split_lines(s).skip(1) =~= Seq::<Seq<char>>::empty());
            assert(kept_body(Seq::<Seq<char>>::empty()) == Seq::<char>::empty());
            assert(line_contrib(s) + Seq::<char>::empty() =~= s + seq!['\n']);
        }
    }
}

proof fn lemma_trim_push_ws(s: Seq<char>, c: char)
    requires
        is_ws(c),
    ensures
        trim_s(s.push(c)) == trim_s(s),
    decreases s.len(),
{
    if s.len() == 0 {
        assert(s.push(c)[0] == c);
        assert(s.push(c).skip(1) =~= Seq::<char>::empty());
        assert(trim_start_s(Seq::<char>::empty()) == Seq::<char>::empty());
        assert(trim_start_s(s.push(c)) == Seq::<char>::empty());
        assert(trim_end_s(Seq::<char>::empty()) == Seq::<char>::empty());
        assert(trim_start_s(s) == s);
        assert(trim_end_s(s) == s);
        assert(s =~= Seq::<char>::empty());
    } else if is_ws(s[0]) {
        assert(s.push(c)[0] == s[0]);
        assert(s.push(c).skip(1) =~= s.skip(1).push(c));
        lemma_trim_push_ws(s.skip(1), c);
        assert(trim_start_s(s.push(c)) == trim_start_s(s.skip(1).push(c)));
        assert(trim_s(s.push(c)) == trim_s(s.skip(1)));
        assert(trim_s(s) == trim_s(s.skip(1)));
    } else {
        assert(s.push(c)[0] == s[0]);
        assert(trim_start_s(s.push(c)) == s.push(c));
        assert(trim_start_s(s) == s);
        assert(s.push(c).last() == c);
        assert(s.push(c).take(s.push(c).len() - 1) =~= s);
        assert(trim_end_s(s.push(c)) == trim_end_s(s));
    }
}

/// Normalizing already-clean text returns it unchanged modulo trimming: a
/// transcript with no escape character, no carriage returns, and only
/// trimmed, non-blank lines free of prompt markers, spinner glyphs and
/// `':'` labels comes back as itself, trimmed.
pub proof fn lemma_normalize_clean(s: Seq<char>)
    requires
        !contains_char(s, '\u{1b}'),
        !contains_char(s, '\r'),
        forall|i: int| 0 <= i < split_lines(s).len() ==> clean_line_shape(
            #[trigger] split_lines(s)[i],
        ),
    ensures
        spec_extract(s) == trim_s(s),
{
    lemma_strip_absent(s);
    lemma_clean_body(s);
    if s.len() == 0 {
        assert(trim_start_s(s) == s);
        assert(trim_end_s(s) == s);
    } else if s.last() == '\n' {
    } else {
        lemma_trim_push_ws(s, '\n');
        assert(s + seq!['\n'] =~= s.push('\n'));
    }
}

} // verus!
