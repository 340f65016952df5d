//! Line-oriented inputs around the external tool: its listing command's
//! stdout, the static catalog source, its version banner, a PCI device
//! listing, and the user-facing messages the command layer returns.

use vstd::prelude::*;

use crate::classify::{parse_model_info, spec_family, spec_quant_label, spec_size_estimate,
    spec_size_label};
use crate::text::{
    contains_seq,
    contains_sub,
    is_ws,
    is_ws_char,
    lemma_first_index_of,
    lemma_trim_start_at,
    split_lines,
    split_lines_str,
    trim_s,
    trim_start_s,
    trim_str,
    views_of,
};
use crate::types::{GpuInfo, OllamaInfo, OllamaModelInfo};

verus! {

/// Index of the first whitespace character of `s`, or `s.len()` if none.
pub open spec fn first_ws_index(s: Seq<char>) -> int
    decreases s.len(),
{
    if s.len() == 0 {
        0
    } else if is_ws(s[0]) {
        0
    } else {
        1 + first_ws_index(s.skip(1))
    }
}

/// A position with no whitespace before it and whitespace at it (or the end,
/// with none anywhere) is exactly `first_ws_index`.
pub proof fn lemma_first_ws_is(s: Seq<char>, k: int)
    requires
        0 <= k <= s.len(),
        forall|j: int| 0 <= j < k ==> !is_ws(s[j]),
        k < s.len() ==> is_ws(s[k]),
    ensures
        first_ws_index(s) == k,
    decreases k,
{
    if k > 0 {
        lemma_first_ws_is(s.skip(1), k - 1);
    }
}

/// The first whitespace-delimited token of a line, empty when the line is
/// blank.
pub open spec fn first_token(l: Seq<char>) -> Seq<char> {
    let t = trim_start_s(l);
    t.take(first_ws_index(t))
}

/// The first tokens of the lines, lines without one skipped.
pub open spec fn listing_tokens(lines: Seq<Seq<char>>) -> Seq<Seq<char>>
    decreases lines.len(),
{
    if lines.len() == 0 {
        Seq::empty()
    } else {
        (if first_token(lines[0]).len() > 0 {
            seq![first_token(lines[0])]
        } else {
            Seq::<Seq<char>>::empty()
        }) + listing_tokens(lines.skip(1))
    }
}

/// The model identifiers in a listing command's stdout: the first line is a
/// header and is skipped; each later line contributes its first
/// whitespace-delimited token, if it has one.
pub open spec fn spec_listing(s: Seq<char>) -> Seq<Seq<char>> {
    if split_lines(s).len() == 0 {
        Seq::empty()
    } else {
        listing_tokens(split_lines(s).skip(1))
    }
}

/// The first whitespace-delimited token of one line, or `None` when the line
/// is blank.
fn token_of_line(l: &str) -> (r: Option<String>)
    ensures
        r matches Some(t) ==> t@ == first_token(l@) && t@.len() > 0,
        r is None ==> first_token(l@).len() == 0,
{
    let llen = l.unicode_len();
    let mut a: usize = 0;
    while a < llen && is_ws_char(l.get_char(a))
        invariant
            llen == l@.len(),
            0 <= a <= llen,
            forall|j: int| 0 <= j < a ==> is_ws(l@[j]),
        decreases llen - a,
    {
        a = a + 1;
    }
    proof {
        lemma_trim_start_at(l@, a as int);
    }
    if a == llen {
        proof {
            assert(l@.skip(a as int) =~= Seq::<char>::empty());
            lemma_first_ws_is(Seq::<char>::empty(), 0);
        }
        return None;
    }
    let mut b: usize = a;
    while b < llen && !is_ws_char(l.get_char(b))
        invariant
            llen == l@.len(),
            0 <= a <= b <= llen,
            a < llen,
            !is_ws(l@[a as int]),
            forall|j: int| a <= j < b ==> !is_ws(l@[j]),
        decreases llen - b,
    {
        b = b + 1;
    }
    proof {
        let t = l@.skip(a as int);
        lemma_first_ws_is(t, b - a);
        assert(t.take(b - a) =~= l@.subrange(a as int, b as int));
    }
    Some(l.substring_char(a, b).to_owned())
}

/// Parse a listing command's stdout into the model identifiers it names.
pub fn parse_model_listing(stdout_text: &str) -> (v: Vec<String>)
    ensures
        views_of(v@) == spec_listing(stdout_text@),
{
    let lines = split_lines_str(stdout_text);
    let mut v: Vec<String> = Vec::new();
    let ghost all = split_lines(stdout_text@);
    if lines.len() == 0 {
        proof {
            assert(views_of(v@) =~= spec_listing(stdout_text@));
        }
        return v;
    }
    let ghost rest0 = all.skip(1);
    let mut j: usize = 1;
    proof {
        assert(all.skip(1) =~= rest0);
        assert(views_of(v@) + listing_tokens(rest0) =~= listing_tokens(rest0));
    }
    while j < lines.len()
        invariant
            views_of(lines@) == all,
            all.len() == lines@.len(),
            1 <= j <= lines@.len(),
            listing_tokens(all.skip(1)) == views_of(v@) + listing_tokens(all.skip(j as int)),
        decreases lines@.len() - j,
    {
        let ghost rest = all.skip(j as int);
        proof {
            assert(rest[0] == all[j as int]);
            assert(all[j as int] == lines@[j as int]@);
            assert(rest.skip(1) =~= all.skip(j + 1));
        }
        match token_of_line(lines[j].as_str()) {
            Some(t) => {
                proof {
                    assert(views_of(v@.push(t)) =~= views_of(v@) + seq![t@]);
                    assert((views_of(v@) + seq![t@]) + listing_tokens(all.skip(j + 1)) =~= views_of(
                        v@,
                    ) + (seq![t@] + listing_tokens(all.skip(j + 1))));
                    assert(seq![first_token(rest[0])] + listing_tokens(rest.skip(1))
                        =~= listing_tokens(rest));
                }
                v.push(t);
            },
            None => {
                proof {
                    assert(Seq::<Seq<char>>::empty() + listing_tokens(rest.skip(1))
                        =~= listing_tokens(rest.skip(1)));
                }
            },
        }
        j = j + 1;
    }
    proof {
        assert(all.skip(lines@.len() as int) =~= Seq::<Seq<char>>::empty());
        assert(views_of(v@) + listing_tokens(Seq::<Seq<char>>::empty()) =~= views_of(v@));
    }
    v
}

/// The catalog lines that name a model: each line trimmed, blank lines and
/// `#` comment lines skipped.
pub open spec fn catalog_names(lines: Seq<Seq<char>>) -> Seq<Seq<char>>
    decreases lines.len(),
{
    if lines.len() == 0 {
        Seq::empty()
    } else {
        let t = trim_s(lines[0]);
        (if t.len() > 0 && t[0] != '#' {
            seq![t]
        } else {
            Seq::<Seq<char>>::empty()
        }) + catalog_names(lines.skip(1))
    }
}

/// The identifiers a catalog text yields, in order.
pub open spec fn spec_catalog(s: Seq<char>) -> Seq<Seq<char>> {
    catalog_names(split_lines(s))
}

/// The metadata record the catalog classifier assembles for its identifier:
/// every derived field agrees with the classification of `name`, the format
/// is the fixed `"gguf"` constant, and no modification time is known.
pub open spec fn model_record_for(r: OllamaModelInfo) -> bool {
    &&& r.size == spec_size_estimate(r.name@)
    &&& r.modified_at is None
    &&& (r.family matches Some(f) && f@ == spec_family(r.name@))
    &&& (r.format matches Some(f) && f@ == "gguf"@)
    &&& (r.families matches Some(fs) && views_of(fs@) =~= seq![spec_family(r.name@)])
    &&& (r.parameter_size matches Some(p) && p@ == spec_size_label(r.name@))
    &&& (r.quantization_level matches Some(q) && q@ == spec_quant_label(r.name@))
}

/// The names of a record list, in order.
pub open spec fn record_names(v: Seq<OllamaModelInfo>) -> Seq<Seq<char>> {
    v.map_values(|r: OllamaModelInfo| r.name@)
}

/// Parse a catalog text into one classified metadata record per model line.
/// An empty or absent catalog yields an empty result, never an error.
pub fn parse_catalog(content: &str) -> (v: Vec<OllamaModelInfo>)
    ensures
        record_names(v@) == spec_catalog(content@),
        forall|i: int| 0 <= i < v@.len() ==> model_record_for(#[trigger] v@[i]),
{
    let lines = split_lines_str(content);
    let mut v: Vec<OllamaModelInfo> = Vec::new();
    let ghost all = split_lines(content@);
    let mut j: usize = 0;
    proof {
        assert(all.skip(0) =~= all);
        assert(record_names(v@) + catalog_names(all) =~= catalog_names(all));
    }
    while j < lines.len()
        invariant
            views_of(lines@) == all,
            all.len() == lines@.len(),
            0 <= j <= lines@.len(),
            catalog_names(all) == record_names(v@) + catalog_names(all.skip(j as int)),
            forall|i: int| 0 <= i < v@.len() ==> model_record_for(#[trigger] v@[i]),
        decreases lines@.len() - j,
    {
        let ghost rest = all.skip(j as int);
        proof {
            assert(rest[0] == all[j as int]);
            assert(all[j as int] == lines@[j as int]@);
            assert(rest.skip(1) =~= all.skip(j + 1));
        }
        let trimmed = trim_str(lines[j].as_str());
        let keep = if trimmed.as_str().unicode_len() == 0 {
            false
        } else {
            trimmed.as_str().get_char(0) != '#'
        };
        if keep {
            let (family, parameter_size, quantization_level, estimated_size) = parse_model_info(
                trimmed.as_str(),
            );
            let mut families: Vec<String> = Vec::new();
            families.push(family.clone());
            let record = OllamaModelInfo {
                name: trimmed,
                size: estimated_size,
                modified_at: None,
                family: Some(family),
                format: Some("gguf".to_owned()),
                families: Some(families),
                parameter_size: Some(parameter_size),
                quantization_level: Some(quantization_level),
            };
            proof {
                assert(model_record_for(record));
                assert(record_names(v@.push(record)) =~= record_names(v@) + seq![record.name@]);
                assert((record_names(v@) + seq![record.name@]) + catalog_names(all.skip(j + 1))
                    =~= record_names(v@) + (seq![record.name@] + catalog_names(all.skip(j + 1))));
                assert(seq![trim_s(rest[0])] + catalog_names(rest.skip(1)) =~= catalog_names(rest));
            }
            v.push(record);
        } else {
            proof {
                assert(Seq::<Seq<char>>::empty() + catalog_names(rest.skip(1)) =~= catalog_names(
                    rest.skip(1),
                ));
            }
        }
        j = j + 1;
    }
    proof {
        assert(all.skip(lines@.len() as int) =~= Seq::<Seq<char>>::empty());
        assert(record_names(v@) + catalog_names(Seq::<Seq<char>>::empty()) =~= record_names(v@));
    }
    v
}

/// Separator-prefixed concatenation of every line.
pub open spec fn joined_tail(lines: Seq<Seq<char>>, sep: Seq<char>) -> Seq<char>
    decreases lines.len(),
{
    if lines.len() == 0 {
        Seq::empty()
    } else {
        sep + lines[0] + joined_tail(lines.skip(1), sep)
    }
}

/// The lines joined by the separator.
pub open spec fn join_sep(lines: Seq<Seq<char>>, sep: Seq<char>) -> Seq<char> {
    if lines.len() == 0 {
        Seq::empty()
    } else {
        lines[0] + joined_tail(lines.skip(1), sep)
    }
}

/// The lines of a listing after its header line.
pub open spec fn tail_lines(s: Seq<char>) -> Seq<Seq<char>> {
    if split_lines(s).len() == 0 {
        Seq::empty()
    } else {
        split_lines(s).skip(1)
    }
}

/// The model-not-installed message: it names the missing model and embeds
/// the raw listing lines, comma-separated, so the caller can present
/// alternatives.
pub open spec fn spec_not_installed_message(model: Seq<char>, list_text: Seq<char>) -> Seq<char> {
    "Model '"@ + model + "' is not installed. Available models: "@ + join_sep(
        tail_lines(list_text),
        ", "@,
    )
}

/// Check a chat target against the current listing text: `Ok` exactly when
/// the identifier occurs in it, else the not-installed message carrying the
/// available alternatives.
pub fn ensure_model_listed(model: &str, list_text: &str) -> (r: Result<(), String>)
    ensures
        r is Ok <==> contains_seq(list_text@, model@),
        r matches Err(e) ==> e@ == spec_not_installed_message(model@, list_text@),
{
    if contains_sub(list_text, model) {
        return Ok(());
    }
    let mut out = "Model '".to_owned();
    out.append(model);
    out.append("' is not installed. Available models: ");
    let ghost prefix = out@;
    let lines = split_lines_str(list_text);
    let ghost all = split_lines(list_text@);
    let ghost sep = ", "@;
    if lines.len() >= 2 {
        out.append(lines[1].as_str());
        let mut j: usize = 2;
        proof {
            assert(all.skip(1)[0] == all[1]);
            assert(all.skip(1).skip(1) =~= all.skip(2));
            assert((prefix + all[1]) + joined_tail(all.skip(2), sep) =~= prefix + (all[1]
                + joined_tail(all.skip(2), sep)));
        }
        while j < lines.len()
            invariant
                views_of(lines@) == all,
                all.len() == lines@.len(),
                2 <= j <= lines@.len(),
                sep == ", "@,
                out@ + joined_tail(all.skip(j as int), sep) == prefix + join_sep(
                    all.skip(1),
                    sep,
                ),
            decreases lines@.len() - j,
        {
            let ghost rest = all.skip(j as int);
            proof {
                assert(rest[0] == all[j as int]);
                assert(all[j as int] == lines@[j as int]@);
                assert(rest.skip(1) =~= all.skip(j + 1));
                assert(((out@ + sep) + rest[0]) + joined_tail(all.skip(j + 1), sep) =~= out@
                    + ((sep + rest[0]) + joined_tail(rest.skip(1), sep)));
            }
            out.append(", ");
            out.append(lines[j].as_str());
            j = j + 1;
        }
        proof {
            assert(all.skip(lines@.len() as int) =~= Seq::<Seq<char>>::empty());
            assert(out@ + joined_tail(Seq::<Seq<char>>::empty(), sep) =~= out@);
            assert(out@ =~= spec_not_installed_message(model@, list_text@));
        }
    } else {
        proof {
            if all.len() == 0 {
                assert(join_sep(tail_lines(list_text@), sep) =~= Seq::<char>::empty());
            } else {
                assert(all.skip(1) =~= Seq::<Seq<char>>::empty());
                assert(join_sep(tail_lines(list_text@), sep) =~= Seq::<char>::empty());
            }
            assert(out@ =~= spec_not_installed_message(model@, list_text@));
        }
    }
    Err(out)
}

/// The version banner: the first line of the tool's version output, trimmed;
/// empty output yields no version.
pub fn version_from_output(stdout_text: &str) -> (r: Option<String>)
    ensures
        stdout_text@.len() == 0 ==> r is None,
        stdout_text@.len() > 0 ==> (r matches Some(v) && v@ == trim_s(
            split_lines(stdout_text@)[0],
        )),
{
    let slen = stdout_text.unicode_len();
    if slen == 0 {
        return None;
    }
    let i = crate::text::find_ch(stdout_text, '\n');
    proof {
        lemma_first_index_of(stdout_text@, '\n');
    }
    if i == slen {
        proof {
            assert(split_lines(stdout_text@)[0] == stdout_text@);
        }
        Some(trim_str(stdout_text))
    } else {
        let end = if i > 0 && stdout_text.get_char(i - 1) == '\r' {
            i - 1
        } else {
            i
        };
        proof {
            assert(stdout_text@.take(end as int) =~= stdout_text@.subrange(0, end as int));
        }
        Some(trim_str(stdout_text.substring_char(0, end)))
    }
}

/// What a PCI device listing says of the GPU: the vendor label of the first
/// display-controller line (`VGA` or `3D`) naming a known vendor.
pub open spec fn gpu_from_lines(lines: Seq<Seq<char>>) -> Option<Seq<char>>
    decreases lines.len(),
{
    if lines.len() == 0 {
        None
    } else {
        let l = lines[0];
        if contains_seq(l, "VGA"@) || contains_seq(l, "3D"@) {
            if contains_seq(l, "NVIDIA"@) {
                Some("NVIDIA GPU"@)
            } else if contains_seq(l, "AMD"@) {
                Some("AMD GPU"@)
            } else if contains_seq(l, "Intel"@) {
                Some("Intel GPU"@)
            } else {
                gpu_from_lines(lines.skip(1))
            }
        } else {
            gpu_from_lines(lines.skip(1))
        }
    }
}

/// Scan a PCI device listing for a display controller of a known vendor.
pub fn scan_gpu_listing(text: &str) -> (r: Option<String>)
    ensures
        r is Some <==> gpu_from_lines(split_lines(text@)) is Some,
        r matches Some(n) ==> (gpu_from_lines(split_lines(text@)) matches Some(m) && n@ == m),
{
    let lines = split_lines_str(text);
    let ghost all = split_lines(text@);
    let mut j: usize = 0;
    proof {
        assert(all.skip(0) =~= all);
    }
    while j < lines.len()
        invariant
            views_of(lines@) == all,
            all == split_lines(text@),
            all.len() == lines@.len(),
            0 <= j <= lines@.len(),
            gpu_from_lines(all.skip(j as int)) == gpu_from_lines(all),
        decreases lines@.len() - j,
    {
        let ghost rest = all.skip(j as int);
        proof {
            assert(rest[0] == all[j as int]);
            assert(all[j as int] == lines@[j as int]@);
            assert(rest.skip(1) =~= all.skip(j + 1));
        }
        let l = lines[j].as_str();
        if contains_sub(l, "VGA") || contains_sub(l, "3D") {
            if contains_sub(l, "NVIDIA") {
                assert(gpu_from_lines(rest) == Some("NVIDIA GPU"@));
                return Some("NVIDIA GPU".to_owned());
            } else if contains_sub(l, "AMD") {
                assert(gpu_from_lines(rest) == Some("AMD GPU"@));
                return Some("AMD GPU".to_owned());
            } else if contains_sub(l, "Intel") {
                assert(gpu_from_lines(rest) == Some("Intel GPU"@));
                return Some("Intel GPU".to_owned());
            }
        }
        j = j + 1;
    }
    proof {
        assert(all.skip(lines@.len() as int) =~= Seq::<Seq<char>>::empty());
    }
    None
}

} // verus!
