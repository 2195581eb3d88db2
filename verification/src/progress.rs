use vstd::prelude::*;
use crate::text::{chars_of, owned};

verus! {

/// One line of ffmpeg's `-progress` report, as the export driver reads it.
#[derive(Debug, PartialEq, Eq)]
pub enum ProgressLine {
    /// `out_time_ms=<value>`: the text after the `=`, the encoded position.
    OutTime(String),
    /// A line starting with `progress=end`: the encode has finished.
    End,
    /// Any other key.
    Other,
}

/// `p` is a prefix of `s`.
pub open spec fn has_prefix(s: Seq<char>, p: Seq<char>) -> bool {
    p.len() <= s.len() && s.take(p.len() as int) == p
}

/// How the export driver reads `line`: the `out_time_ms=` key takes
/// precedence, then a `progress=end` prefix ends the report.
pub open spec fn progress_line_kind(line: Seq<char>) -> (Option<Seq<char>>, bool) {
    if has_prefix(line, "out_time_ms="@) {
        (Some(line.skip("out_time_ms="@.len() as int)), false)
    } else {
        (None, has_prefix(line, "progress=end"@))
    }
}

/// A line that starts with a key is the key followed by the rest of the line.
pub proof fn lemma_prefix_split(s: Seq<char>, p: Seq<char>)
    requires
        has_prefix(s, p),
    ensures
        s == p + s.skip(p.len() as int),
{
    assert(s =~= s.take(p.len() as int) + s.skip(p.len() as int));
}

/// The progress value read from an `out_time_ms=` line is everything after
/// the key, whatever its length: putting the key back in front gives the
/// line again.
pub proof fn lemma_out_time_is_whole_rest(line: Seq<char>)
    requires
        has_prefix(line, "out_time_ms="@),
    ensures
        progress_line_kind(line).0 matches Some(rest) && line == "out_time_ms="@ + rest,
{
    lemma_prefix_split(line, "out_time_ms="@);
}

/// Whether the characters `p` start `s`.
fn starts_with_chars(s: &Vec<char>, p: &Vec<char>) -> (r: bool)
    ensures
        r == has_prefix(s@, p@),
{
    if p.len() > s.len() {
        return false;
    }
    let mut i: usize = 0;
    while i < p.len()
        invariant
            p@.len() <= s@.len(),
            i <= p@.len(),
            forall|j: int| 0 <= j < i ==> s@[j] == p@[j],
        decreases p.len() - i,
    {
        if s[i] != p[i] {
            assert(s@.take(p@.len() as int)[i as int] != p@[i as int]);
            return false;
        }
        i = i + 1;
    }
    assert(s@.take(p@.len() as int) =~= p@);
    true
}

/// Classify one line of ffmpeg's progress report.
pub fn classify_progress_line(line: &str) -> (r: ProgressLine)
    ensures
        match progress_line_kind(line@) {
            (Some(rest), _) => r matches ProgressLine::OutTime(v) && v@ == rest,
            (None, true) => r == ProgressLine::End,
            (None, false) => r == ProgressLine::Other,
        },
        r matches ProgressLine::OutTime(v) ==> line@ == "out_time_ms="@ + v@,
        has_prefix(line@, "out_time_ms="@) <==> r is OutTime,
        r is End ==> has_prefix(line@, "progress=end"@),
{
    let chars = chars_of(line);
    let key = chars_of("out_time_ms=");
    if starts_with_chars(&chars, &key) {
        let rest = line.substring_char(key.len(), chars.len());
        proof {
            lemma_prefix_split(line@, "out_time_ms="@);
        }
        return ProgressLine::OutTime(owned(rest));
    }
    let end = chars_of("progress=end");
    if starts_with_chars(&chars, &end) {
        ProgressLine::End
    } else {
        ProgressLine::Other
    }
}

} // verus!
