//! Text handling for the captured log: lossy UTF-8 decoding and the
//! extraction of a bounded tail (a last-lines window under a character
//! cap) used in diagnostic messages.

use vstd::prelude::*;

verus! {

/// What `String::from_utf8_lossy` returns for the given bytes.
pub uninterp spec fn utf8_lossy(bytes: Seq<u8>) -> Seq<char>;

/// Relies on String::from_utf8_lossy: decodes bytes as UTF-8, substituting
/// replacement characters for invalid sequences; the result is a function
/// of the bytes alone.
#[verifier::external_body]
pub(crate) fn decode_utf8_lossy(bytes: &Vec<u8>) -> (r: String)
    ensures
        r@ == utf8_lossy(bytes@),
{
    String::from_utf8_lossy(bytes.as_slice()).into_owned()
}

/// The view of an optional text value.
pub open spec fn opt_text_view(s: Option<String>) -> Option<Seq<char>> {
    match s {
        Some(x) => Some(x@),
        None => None,
    }
}

/// How many newline characters the text holds.
pub open spec fn newline_count(s: Seq<char>) -> nat
    decreases s.len(),
{
    if s.len() == 0 {
        0
    } else {
        (if s[0] == '\n' {
            1nat
        } else {
            0nat
        }) + newline_count(s.subrange(1, s.len() as int))
    }
}

/// The text without one trailing newline, if it ends in one.
pub open spec fn strip_trailing_newline(s: Seq<char>) -> Seq<char> {
    if s.len() > 0 && s[s.len() - 1] == '\n' {
        s.subrange(0, s.len() - 1)
    } else {
        s
    }
}

/// The longest suffix of the text that holds fewer than `max_lines`
/// newline characters: the last `max_lines` lines.
pub open spec fn last_lines(s: Seq<char>, max_lines: nat) -> Seq<char>
    decreases s.len(),
{
    if newline_count(s) < max_lines || s.len() == 0 {
        s
    } else {
        last_lines(s.subrange(1, s.len() as int), max_lines)
    }
}

/// The last `max` characters of the text, or all of it if shorter.
pub open spec fn cap_last_chars(s: Seq<char>, max: nat) -> Seq<char> {
    if s.len() <= max {
        s
    } else {
        s.subrange(s.len() - max, s.len() as int)
    }
}

proof fn lemma_newline_count_step(s: Seq<char>, i: int)
    requires
        0 <= i < s.len(),
    ensures
        newline_count(s.subrange(i, s.len() as int)) == (if s[i] == '\n' {
            1nat
        } else {
            0nat
        }) + newline_count(s.subrange(i + 1, s.len() as int)),
{
    let t = s.subrange(i, s.len() as int);
    assert(t[0] == s[i]);
    assert(t.subrange(1, t.len() as int) =~= s.subrange(i + 1, s.len() as int));
}

proof fn lemma_newline_count_suffix_le(s: Seq<char>, j: int)
    requires
        0 <= j <= s.len(),
    ensures
        newline_count(s.subrange(j, s.len() as int)) <= newline_count(s),
    decreases j,
{
    if j == 0 {
        assert(s.subrange(0, s.len() as int) =~= s);
    } else {
        lemma_newline_count_step(s, j - 1);
        lemma_newline_count_suffix_le(s, j - 1);
    }
}

proof fn lemma_last_lines_zero(s: Seq<char>)
    ensures
        last_lines(s, 0) =~= Seq::<char>::empty(),
    decreases s.len(),
{
    if s.len() > 0 {
        lemma_last_lines_zero(s.subrange(1, s.len() as int));
    }
}

/// `last_lines` is exactly the suffix that begins at a position where
/// fewer than `max_lines` newlines remain, while one position earlier at
/// least `max_lines` would remain.
proof fn lemma_last_lines_at(s: Seq<char>, max_lines: nat, k: int)
    requires
        0 <= k <= s.len(),
        newline_count(s.subrange(k, s.len() as int)) < max_lines,
        k > 0 ==> newline_count(s.subrange(k - 1, s.len() as int)) >= max_lines,
    ensures
        last_lines(s, max_lines) == s.subrange(k, s.len() as int),
    decreases k,
{
    if k == 0 {
        assert(s.subrange(0, s.len() as int) =~= s);
    } else {
        lemma_newline_count_suffix_le(s, k - 1);
        let s1 = s.subrange(1, s.len() as int);
        assert(s1.subrange(k - 1, s1.len() as int) =~= s.subrange(k, s.len() as int));
        if k - 1 > 0 {
            assert(s1.subrange(k - 2, s1.len() as int) =~= s.subrange(k - 1, s.len() as int));
        } else {
            assert(s1 =~= s.subrange(k - 1, s.len() as int).subrange(
                1,
                s.len() as int - (k - 1),
            ));
            lemma_newline_count_step(s, 0);
        }
        lemma_last_lines_at(s1, max_lines, k - 1);
    }
}

/// Returns the last `max_lines` lines of the text, a trailing newline
/// not counting as starting a further line.
pub fn tail_lines(text: &str, max_lines: usize) -> (r: String)
    ensures
        r@ == last_lines(strip_trailing_newline(text@), max_lines as nat),
{
    let n = text.unicode_len();
    let t_end: usize = if n > 0 && text.get_char(n - 1) == '\n' {
        n - 1
    } else {
        n
    };
    let ghost t = strip_trailing_newline(text@);
    proof {
        assert(t =~= text@.subrange(0, t_end as int));
    }
    if max_lines == 0 {
        proof {
            lemma_last_lines_zero(t);
        }
        return String::new();
    }
    let mut i: usize = t_end;
    let mut cnt: usize = 0;
    let mut stop: bool = false;
    proof {
        assert(t.subrange(t_end as int, t_end as int) =~= Seq::<char>::empty());
    }
    while i > 0 && !stop
        invariant
            i <= t_end <= text@.len(),
            n == text@.len(),
            max_lines >= 1,
            t == text@.subrange(0, t_end as int),
            cnt == newline_count(t.subrange(i as int, t_end as int)),
            cnt < max_lines,
            stop ==> i > 0 && t[i - 1] == '\n' && cnt + 1 == max_lines,
        decreases i, (if stop {
            0int
        } else {
            1int
        }),
    {
        let c = text.get_char(i - 1);
        proof {
            assert(t[i - 1] == text@[i - 1]);
        }
        if c == '\n' && cnt + 1 == max_lines {
            stop = true;
        } else {
            proof {
                lemma_newline_count_step(t, i as int - 1);
                assert(t.subrange(i as int - 1, t_end as int) == t.subrange(
                    i as int - 1,
                    t.len() as int,
                ));
            }
            if c == '\n' {
                cnt = cnt + 1;
            }
            i = i - 1;
        }
    }
    proof {
        if i > 0 {
            lemma_newline_count_step(t, i as int - 1);
        }
        lemma_last_lines_at(t, max_lines as nat, i as int);
    }
    String::from_str(text.substring_char(i, t_end))
}

/// Returns the last `max` characters of the text, or all of it if shorter.
pub fn cap_chars(text: &str, max: usize) -> (r: String)
    ensures
        r@ == cap_last_chars(text@, max as nat),
{
    let n = text.unicode_len();
    if n <= max {
        String::from_str(text)
    } else {
        String::from_str(text.substring_char(n - max, n))
    }
}

/// How many characters a diagnostic log tail may hold at most.
pub const LOG_TAIL_MAX_CHARS: usize = 4000;

/// The tail of the decoded log: its last `max_lines` lines, trimmed from
/// the front to the character cap.
pub open spec fn spec_log_tail_text(bytes: Seq<u8>, max_lines: nat) -> Seq<char> {
    cap_last_chars(
        last_lines(strip_trailing_newline(utf8_lossy(bytes)), max_lines),
        LOG_TAIL_MAX_CHARS as nat,
    )
}

/// The full diagnostic report built from a log's path and contents.
pub open spec fn spec_log_tail_report(path: Seq<char>, bytes: Seq<u8>, max_lines: nat) -> Seq<
    char,
> {
    "Backend log: "@ + path + "\n--- log tail ---\n"@ + spec_log_tail_text(bytes, max_lines)
        + "\n----------------"@
}

/// Formats a diagnostic report from the log file's contents: its path, a
/// marker, and the capped tail of its last `max_lines` lines.
pub fn format_log_tail(log_path: &str, bytes: &Vec<u8>, max_lines: usize) -> (r: String)
    ensures
        r@ == spec_log_tail_report(log_path@, bytes@, max_lines as nat),
{
    let text = decode_utf8_lossy(bytes);
    let tail_full = tail_lines(text.as_str(), max_lines);
    let tail = cap_chars(tail_full.as_str(), LOG_TAIL_MAX_CHARS);
    let mut r = String::from_str("Backend log: ");
    r.append(log_path);
    r.append("\n--- log tail ---\n");
    r.append(tail.as_str());
    r.append("\n----------------");
    proof {
        assert(r@ =~= spec_log_tail_report(log_path@, bytes@, max_lines as nat));
    }
    r
}

/// The message reported when the log file itself cannot be read.
pub fn log_read_failed_message(error: &str, log_path: &str) -> (r: String)
    ensures
        r@ == "Backend log read failed: "@ + error@ + " ("@ + log_path@ + ")"@,
{
    let mut r = String::from_str("Backend log read failed: ");
    r.append(error);
    r.append(" (");
    r.append(log_path);
    r.append(")");
    proof {
        assert(r@ =~= "Backend log read failed: "@ + error@ + " ("@ + log_path@ + ")"@);
    }
    r
}

} // verus!
