//! The transcript normalizer: turns the raw, control-sequence-laden output
//! of one interactive chat invocation of the external tool into a clean
//! reply, and assembles the single-shot prompt handed to that tool.
//!
//! The cleaning pass strips a fixed, enumerated set of terminal control
//! sequences by literal substring removal (not a general escape-sequence
//! grammar); sequences outside the set leak through by design. Lines that
//! are blank, carry the interactive prompt marker `>>>`, or carry a spinner
//! glyph are discarded; a line with a `':'` keeps only what follows the
//! first `':'`, trimmed, on the assumption that the part before it is a
//! label echo.

use vstd::prelude::*;

use crate::text::{
    contains_char,
    contains_ch,
    contains_seq,
    contains_sub,
    find_ch,
    first_index_of,
    is_ws,
    match_at,
    split_lines,
    split_lines_str,
    str_eq,
    trim_end_s,
    trim_s,
    trim_start_s,
    trim_str,
    views_of,
};
use crate::types::{ChatMessage, ChatResponse, TokenUsage};

verus! {

/// `s` with every occurrence of `pat` removed, scanning left to right over
/// non-overlapping occurrences, as `str::replace(pat, "")` leaves it.
pub open spec fn remove_all(s: Seq<char>, pat: Seq<char>) -> Seq<char>
    decreases s.len(),
{
    if pat.len() == 0 || s.len() < pat.len() {
        s
    } else if s.take(pat.len() as int) == pat {
        remove_all(s.skip(pat.len() as int), pat)
    } else {
        seq![s[0]] + remove_all(s.skip(1), pat)
    }
}

/// Removal never lengthens the text.
pub proof fn lemma_remove_all_len(s: Seq<char>, pat: Seq<char>)
    ensures
        remove_all(s, pat).len() <= s.len(),
    decreases s.len(),
{
    if pat.len() == 0 || s.len() < pat.len() {
    } else if s.take(pat.len() as int) == pat {
        lemma_remove_all_len(s.skip(pat.len() as int), pat);
    } else {
        lemma_remove_all_len(s.skip(1), pat);
    }
}

/// Text free of the pattern's first character is left unchanged.
pub proof fn lemma_remove_all_absent(s: Seq<char>, pat: Seq<char>)
    requires
        pat.len() > 0,
        !contains_char(s, pat[0]),
    ensures
        remove_all(s, pat) == s,
    decreases s.len(),
{
    if s.len() >= pat.len() {
        assert(s.take(pat.len() as int)[0] == s[0]);
        assert(s[0] != pat[0]);
        lemma_remove_all_absent(s.skip(1), pat);
        assert(seq![s[0]] + s.skip(1) =~= s);
    }
}

/// `str::replace(pat, "")`: every occurrence of `pat` removed.
pub fn remove_all_str(s: &str, pat: &str) -> (r: String)
    ensures
        r@ == remove_all(s@, pat@),
{
    let slen = s.unicode_len();
    let plen = pat.unicode_len();
    let mut out = String::new();
    if plen == 0 || slen < plen {
        return s.to_owned();
    }
    let last = slen - plen;
    let mut i: usize = 0;
    proof {
        assert(s@.skip(0) =~= s@);
        assert(out@ + remove_all(s@, pat@) =~= remove_all(s@, pat@));
    }
    while i <= last
        invariant
            slen == s@.len(),
            plen == pat@.len(),
            1 <= plen <= slen,
            last == slen - plen,
            0 <= i <= slen,
            remove_all(s@, pat@) == out@ + remove_all(s@.skip(i as int), pat@),
        decreases slen - i,
    {
        let ghost rest = s@.skip(i as int);
        if match_at(s, pat, i) {
            proof {
                assert(rest.take(plen as int) =~= s@.subrange(i as int, i + plen));
                assert(rest.skip(plen as int) =~= s@.skip(i + plen));
            }
            i = i + plen;
        } else {
            proof {
                assert(rest.take(plen as int) =~= s@.subrange(i as int, i + plen));
                assert(rest.skip(1) =~= s@.skip(i + 1));
                assert(rest[0] == s@[i as int]);
                assert((out@ + seq![s@[i as int]]) + remove_all(s@.skip(i + 1), pat@) =~= out@
                    + (seq![s@[i as int]] + remove_all(s@.skip(i + 1), pat@)));
                assert(s@.subrange(i as int, i + 1) =~= seq![s@[i as int]]);
            }
            out.append(s.substring_char(i, i + 1));
            i = i + 1;
        }
    }
    proof {
        let rest = s@.skip(i as int);
        assert(rest.len() < pat@.len());
        assert(remove_all(rest, pat@) == rest);
        assert(rest =~= s@.subrange(i as int, slen as int));
    }
    out.append(s.substring_char(i, slen));
    out
}

/// The enumerated control sequences of the external tool's interactive
/// mode, removed in this order: cursor show/hide, synchronized-update
/// markers, column reset, line clears, then the generic escape prefix and
/// the bare escape character.
pub open spec fn strip_controls(s: Seq<char>) -> Seq<char> {
    remove_all(
        remove_all(
            remove_all(
                remove_all(
                    remove_all(
                        remove_all(
                            remove_all(
                                remove_all(remove_all(s, "\u{1b}[?25h"@), "\u{1b}[?25l"@),
                                "\u{1b}[?2026h"@,
                            ),
                            "\u{1b}[?2026l"@,
                        ),
                        "\u{1b}[1G"@,
                    ),
                    "\u{1b}[2K"@,
                ),
                "\u{1b}[K"@,
            ),
            "\u{1b}["@,
        ),
        "\u{1b}"@,
    )
}

/// Remove the enumerated terminal control sequences by literal substring
/// removal.
pub fn strip_controls_str(s: &str) -> (r: String)
    ensures
        r@ == strip_controls(s@),
{
    let c1 = remove_all_str(s, "\u{1b}[?25h");
    let c2 = remove_all_str(c1.as_str(), "\u{1b}[?25l");
    let c3 = remove_all_str(c2.as_str(), "\u{1b}[?2026h");
    let c4 = remove_all_str(c3.as_str(), "\u{1b}[?2026l");
    let c5 = remove_all_str(c4.as_str(), "\u{1b}[1G");
    let c6 = remove_all_str(c5.as_str(), "\u{1b}[2K");
    let c7 = remove_all_str(c6.as_str(), "\u{1b}[K");
    let c8 = remove_all_str(c7.as_str(), "\u{1b}[");
    remove_all_str(c8.as_str(), "\u{1b}")
}

/// The line carries one of the spinner glyphs of the external tool's
/// progress indicator.
pub open spec fn has_spinner(l: Seq<char>) -> bool {
    contains_char(l, '\u{2819}') || contains_char(l, '\u{2839}') || contains_char(l, '\u{2838}')
        || contains_char(l, '\u{283c}') || contains_char(l, '\u{2834}') || contains_char(
        l,
        '\u{2826}',
    ) || contains_char(l, '\u{2827}') || contains_char(l, '\u{2807}') || contains_char(
        l,
        '\u{280f}',
    ) || contains_char(l, '\u{280b}')
}

/// A line is kept when it is not blank after trimming, carries no prompt
/// marker `>>>`, and carries no spinner glyph.
pub open spec fn line_kept(l: Seq<char>) -> bool {
    !(trim_s(l).len() == 0 || contains_seq(l, ">>>"@) || has_spinner(l))
}

/// What a kept line contributes: everything after its first `':'`, trimmed,
/// or the whole line trimmed when it has no `':'`.
pub open spec fn line_cleaned(l: Seq<char>) -> Seq<char> {
    if contains_char(l, ':') {
        trim_s(l.skip(first_index_of(l, ':') + 1))
    } else {
        trim_s(l)
    }
}

/// The text a single line adds to the reply: its cleaned content and a line
/// break, or nothing when the line is discarded or cleans to nothing.
pub open spec fn line_contrib(l: Seq<char>) -> Seq<char> {
    if line_kept(l) && line_cleaned(l).len() > 0 {
        line_cleaned(l) + seq!['\n']
    } else {
        Seq::empty()
    }
}

/// The reply body assembled from the retained lines.
pub open spec fn kept_body(lines: Seq<Seq<char>>) -> Seq<char>
    decreases lines.len(),
{
    if lines.len() == 0 {
        Seq::empty()
    } else {
        line_contrib(lines[0]) + kept_body(lines.skip(1))
    }
}

/// The normalized reply for a raw transcript: control sequences stripped,
/// lines filtered and label-stripped, the survivors joined with line breaks,
/// and the result trimmed.
pub open spec fn spec_extract(raw: Seq<char>) -> Seq<char> {
    trim_s(kept_body(split_lines(strip_controls(raw))))
}

/// One line's kept, cleaned contribution, or `None` when it is discarded or
/// cleans to nothing.
fn clean_line(l: &str) -> (r: Option<String>)
    ensures
        r is Some <==> line_contrib(l@).len() > 0,
        r matches Some(c) ==> c@ == line_cleaned(l@) && c@.len() > 0,
{
    let t = trim_str(l);
    if t.as_str().unicode_len() == 0 {
        return None;
    }
    if contains_sub(l, ">>>") {
        return None;
    }
    if contains_ch(l, '\u{2819}') || contains_ch(l, '\u{2839}') || contains_ch(l, '\u{2838}')
        || contains_ch(l, '\u{283c}') || contains_ch(l, '\u{2834}') || contains_ch(l, '\u{2826}')
        || contains_ch(l, '\u{2827}') || contains_ch(l, '\u{2807}') || contains_ch(l, '\u{280f}')
        || contains_ch(l, '\u{280b}') {
        return None;
    }
    let cleaned = if contains_ch(l, ':') {
        let p = find_ch(l, ':');
        proof {
            crate::text::lemma_first_index_of(l@, ':');
        }
        let llen = l.unicode_len();
        trim_str(l.substring_char(p + 1, llen))
    } else {
        t
    };
    if cleaned.as_str().unicode_len() == 0 {
        None
    } else {
        Some(cleaned)
    }
}

/// Normalize a raw chat transcript into the clean reply text. The result is
/// empty exactly when nothing of the transcript survives cleaning; the
/// caller must treat that as the empty-reply failure, not as a reply.
pub fn extract_response_content(response: &str) -> (r: String)
    ensures
        r@ == spec_extract(response@),
{
    let cleaned = strip_controls_str(response);
    let lines = split_lines_str(cleaned.as_str());
    let ghost all = split_lines(cleaned@);
    let mut content = String::new();
    let mut j: usize = 0;
    proof {
        assert(all.skip(0) =~= all);
        assert(content@ + kept_body(all) =~= kept_body(all));
    }
    while j < lines.len()
        invariant
            views_of(lines@) == all,
            0 <= j <= lines.len(),
            kept_body(all) == content@ + kept_body(all.skip(j as int)),
        decreases lines.len() - j,
    {
        let ghost rest = all.skip(j as int);
        proof {
            assert(rest[0] == all[j as int]);
            assert(all[j as int] == lines@[j as int]@);
            assert(rest.skip(1) =~= all.skip(j + 1));
        }
        match clean_line(lines[j].as_str()) {
            Some(c) => {
                proof {
                    assert((content@ + line_contrib(rest[0])) + kept_body(all.skip(j + 1)) =~= content@
                        + (line_contrib(rest[0]) + kept_body(all.skip(j + 1))));
                    assert(line_contrib(rest[0]) =~= c@ + seq!['\n']);
                    reveal_strlit("\n");
                    assert("\n"@ =~= seq!['\n']);
                    assert(content@ + (c@ + seq!['\n']) =~= (content@ + c@) + "\n"@);
                }
                content.append(c.as_str());
                content.append("\n");
            },
            None => {
                proof {
                    assert(line_contrib(rest[0]) =~= Seq::<char>::empty());
                    assert(content@ + kept_body(all.skip(j + 1)) =~= content@ + (line_contrib(
                        rest[0],
                    ) + kept_body(all.skip(j + 1))));
                }
            },
        }
        j = j + 1;
    }
    proof {
        assert(all.skip(lines@.len() as int) =~= Seq::<Seq<char>>::empty());
        assert(content@ + kept_body(Seq::<Seq<char>>::empty()) =~= content@);
    }
    trim_str(content.as_str())
}

/// The label a message role is rendered under: the three known roles map to
/// `Human`, `Assistant` and `System`; any other role stands verbatim.
pub open spec fn role_label(role: Seq<char>) -> Seq<char> {
    if role == "user"@ {
        "Human"@
    } else if role == "assistant"@ {
        "Assistant"@
    } else if role == "system"@ {
        "System"@
    } else {
        role
    }
}

/// The conversation rendered one message per line, `"<RoleLabel>: <content>\n"`,
/// in the order supplied.
pub open spec fn rendered_messages(msgs: Seq<ChatMessage>) -> Seq<char>
    decreases msgs.len(),
{
    if msgs.len() == 0 {
        Seq::empty()
    } else {
        role_label(msgs[0].role@) + ": "@ + msgs[0].content@ + "\n"@ + rendered_messages(
            msgs.skip(1),
        )
    }
}

/// The single-shot prompt handed to the external tool: the rendered
/// conversation followed by a trailing `"Assistant:"` cue with no newline.
pub open spec fn spec_prompt(msgs: Seq<ChatMessage>) -> Seq<char> {
    rendered_messages(msgs) + "Assistant:"@
}

/// Render a conversation into the single-shot prompt text.
pub fn format_messages_to_prompt(messages: &[ChatMessage]) -> (r: String)
    ensures
        r@ == spec_prompt(messages@),
{
    let mut out = String::new();
    let mut j: usize = 0;
    proof {
        assert(messages@.skip(0) =~= messages@);
        assert(out@ + rendered_messages(messages@) =~= rendered_messages(messages@));
    }
    while j < messages.len()
        invariant
            0 <= j <= messages@.len(),
            rendered_messages(messages@) == out@ + rendered_messages(messages@.skip(j as int)),
        decreases messages@.len() - j,
    {
        let ghost rest = messages@.skip(j as int);
        let ghost before = out@;
        let m = vstd::slice::slice_index_get(messages, j);
        if str_eq(m.role.as_str(), "user") {
            out.append("Human");
        } else if str_eq(m.role.as_str(), "assistant") {
            out.append("Assistant");
        } else if str_eq(m.role.as_str(), "system") {
            out.append("System");
        } else {
            out.append(m.role.as_str());
        }
        out.append(": ");
        out.append(m.content.as_str());
        out.append("\n");
        proof {
            assert(rest[0] == messages@[j as int]);
            assert(rest.skip(1) =~= messages@.skip(j + 1));
            assert(out@ =~= before + role_label(rest[0].role@) + ": "@ + rest[0].content@
                + "\n"@);
            assert(out@ + rendered_messages(messages@.skip(j + 1)) =~= before
                + rendered_messages(rest));
        }
        j = j + 1;
    }
    proof {
        assert(messages@.skip(messages@.len() as int) =~= Seq::<ChatMessage>::empty());
        assert(out@ + Seq::<char>::empty() =~= out@);
    }
    out.append("Assistant:");
    out
}

/// Total rendered length of a line list, counting one line break per line.
spec fn lines_total(lines: Seq<Seq<char>>) -> int
    decreases lines.len(),
{
    if lines.len() == 0 {
        0
    } else {
        lines[0].len() + 1 + lines_total(lines.skip(1))
    }
}

proof fn lemma_line_contrib_le(l: Seq<char>)
    ensures
        line_contrib(l).len() <= l.len() + 1,
{
    crate::text::lemma_trim_len(l);
    if contains_char(l, ':') {
        crate::text::lemma_first_index_of(l, ':');
        crate::text::lemma_trim_len(l.skip(first_index_of(l, ':') + 1));
    }
}

proof fn lemma_kept_body_le(lines: Seq<Seq<char>>)
    ensures
        kept_body(lines).len() <= lines_total(lines),
    decreases lines.len(),
{
    if lines.len() > 0 {
        lemma_line_contrib_le(lines[0]);
        lemma_kept_body_le(lines.skip(1));
    }
}

proof fn lemma_split_total(s: Seq<char>)
    ensures
        lines_total(split_lines(s)) <= s.len() + 1,
    decreases s.len(),
{
    if s.len() > 0 {
        crate::text::lemma_first_index_of(s, '\n');
        let i = first_index_of(s, '\n');
        if 0 <= i && i < s.len() {
            lemma_split_total(s.skip(i + 1));
            assert(split_lines(s).skip(1) =~= split_lines(s.skip(i + 1)));
            assert(split_lines(s)[0].len() <= i);
            assert(lines_total(split_lines(s)) == split_lines(s)[0].len() + 1 + lines_total(
                split_lines(s.skip(i + 1)),
            ));
        } else {
            assert(split_lines(s) =~= seq![s]);
            assert(split_lines(s).skip(1) =~= Seq::<Seq<char>>::empty());
            assert(lines_total(Seq::<Seq<char>>::empty()) == 0);
            assert(lines_total(split_lines(s)) == s.len() + 1);
        }
    }
}

proof fn lemma_kept_body_ends_break(lines: Seq<Seq<char>>)
    ensures
        kept_body(lines).len() > 0 ==> kept_body(lines).last() == '\n',
    decreases lines.len(),
{
    if lines.len() > 0 {
        lemma_kept_body_ends_break(lines.skip(1));
    }
}

proof fn lemma_trim_ends_ws(b: Seq<char>)
    requires
        b.len() > 0,
        is_ws(b.last()),
    ensures
        trim_s(b).len() <= b.len() - 1,
    decreases b.len(),
{
    if is_ws(b[0]) {
        if b.len() == 1 {
            assert(b.skip(1) =~= Seq::<char>::empty());
            assert(trim_start_s(Seq::<char>::empty()) == Seq::<char>::empty());
            assert(trim_start_s(b) == Seq::<char>::empty());
            assert(trim_end_s(Seq::<char>::empty()) == Seq::<char>::empty());
            assert(trim_s(b).len() == 0);
        } else {
            assert(b.skip(1).last() == b.last());
            lemma_trim_ends_ws(b.skip(1));
            assert(trim_start_s(b) == trim_start_s(b.skip(1)));
            assert(trim_s(b) == trim_s(b.skip(1)));
        }
    } else {
        assert(trim_start_s(b) == b);
        assert(trim_end_s(b) == trim_end_s(b.take(b.len() - 1)));
        crate::text::lemma_trim_len(b.take(b.len() - 1));
    }
}

/// Normalizing never lengthens the transcript.
pub proof fn lemma_extract_len(raw: Seq<char>)
    ensures
        spec_extract(raw).len() <= raw.len(),
{
    let s1 = remove_all(raw, "\u{1b}[?25h"@);
    let s2 = remove_all(s1, "\u{1b}[?25l"@);
    let s3 = remove_all(s2, "\u{1b}[?2026h"@);
    let s4 = remove_all(s3, "\u{1b}[?2026l"@);
    let s5 = remove_all(s4, "\u{1b}[1G"@);
    let s6 = remove_all(s5, "\u{1b}[2K"@);
    let s7 = remove_all(s6, "\u{1b}[K"@);
    let s8 = remove_all(s7, "\u{1b}["@);
    let t = remove_all(s8, "\u{1b}"@);
    lemma_remove_all_len(raw, "\u{1b}[?25h"@);
    lemma_remove_all_len(s1, "\u{1b}[?25l"@);
    lemma_remove_all_len(s2, "\u{1b}[?2026h"@);
    lemma_remove_all_len(s3, "\u{1b}[?2026l"@);
    lemma_remove_all_len(s4, "\u{1b}[1G"@);
    lemma_remove_all_len(s5, "\u{1b}[2K"@);
    lemma_remove_all_len(s6, "\u{1b}[K"@);
    lemma_remove_all_len(s7, "\u{1b}["@);
    lemma_remove_all_len(s8, "\u{1b}"@);
    let body = kept_body(split_lines(t));
    lemma_kept_body_le(split_lines(t));
    lemma_split_total(t);
    lemma_kept_body_ends_break(split_lines(t));
    if body.len() == 0 {
        assert(trim_s(body).len() == 0);
    } else {
        lemma_trim_ends_ws(body);
    }
}

/// Normalize a transcript, raising the empty-reply failure when nothing of
/// it survives cleaning: an empty result is an error, never a reply.
pub fn normalize_transcript(raw: &str) -> (r: Result<String, String>)
    ensures
        spec_extract(raw@).len() > 0 ==> (r matches Ok(c) && c@ == spec_extract(raw@)),
        spec_extract(raw@).len() == 0 ==> (r matches Err(e) && e@
            == "Received empty response from Ollama"@),
{
    let content = extract_response_content(raw);
    if content.as_str().unicode_len() == 0 {
        Err("Received empty response from Ollama".to_owned())
    } else {
        Ok(content)
    }
}

/// The cleaned reply with its usage estimate: character counts of the
/// prompt, of the cleaned content, and their sum — an approximation, not
/// true token counts. Empty cleaned content is the empty-reply failure.
pub fn chat_reply(prompt: &str, raw: &str) -> (r: Result<ChatResponse, String>)
    requires
        prompt@.len() + raw@.len() < 0x1_0000_0000,
    ensures
        spec_extract(raw@).len() == 0 ==> (r matches Err(e) && e@
            == "Received empty response from Ollama"@),
        spec_extract(raw@).len() > 0 ==> (r matches Ok(resp) && resp.content@ == spec_extract(
            raw@,
        ) && (resp.usage matches Some(u) && u.prompt_tokens == prompt@.len()
            && u.completion_tokens == spec_extract(raw@).len() && u.total_tokens == prompt@.len()
            + spec_extract(raw@).len())),
{
    let content = extract_response_content(raw);
    if content.as_str().unicode_len() == 0 {
        return Err("Received empty response from Ollama".to_owned());
    }
    proof {
        lemma_extract_len(raw@);
    }
    let plen = prompt.unicode_len();
    let clen = content.as_str().unicode_len();
    let usage = TokenUsage {
        prompt_tokens: plen as u32,
        completion_tokens: clen as u32,
        total_tokens: (plen + clen) as u32,
    };
    Ok(ChatResponse { content, usage: Some(usage) })
}

} // verus!
