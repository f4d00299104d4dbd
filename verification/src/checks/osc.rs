//! The line-level checks on a document's textual form, combined with the
//! in-memory checks of the parsed document.

use vstd::prelude::*;

use crate::checks::{notice_views, CheckNotice, NoticeSpec};
use crate::model::onkostar_editor::OnkostarEditor;
use crate::text::{contains_spec, dec_of, trim_spec};

verus! {

/// The lines of a text: split at newlines, with a carriage return directly
/// before a newline removed, and no empty line after a final newline.
pub open spec fn lines_spec(s: Seq<char>) -> Seq<Seq<char>>
    decreases s.len(),
    via lines_spec_decreases
{
    if s.len() == 0 {
        Seq::<Seq<char>>::empty()
    } else {
        let head = first_line_spec(s);
        let rest = line_rest_spec(s);
        seq![head] + lines_spec(rest)
    }
}

#[via_fn]
proof fn lines_spec_decreases(s: Seq<char>) {
    if s.len() != 0 {
        if exists|i: int| 0 <= i < s.len() && s[i] == '\n' {
            lemma_first_newline_props(s);
        }
    }
}

proof fn lemma_first_newline_props(s: Seq<char>)
    requires
        exists|i: int| 0 <= i < s.len() && s[i] == '\n',
    ensures
        0 <= first_newline_spec(s) < s.len(),
        s[first_newline_spec(s)] == '\n',
    decreases s.len(),
{
    if s[0] == '\n' {
    } else {
        assert(exists|i: int| 0 <= i < s.skip(1).len() && s.skip(1)[i] == '\n') by {
            let w = choose|i: int| 0 <= i < s.len() && s[i] == '\n';
            assert(s.skip(1)[w - 1] == '\n');
        }
        lemma_first_newline_props(s.skip(1));
    }
}

/// The first line of a non-empty text, without its line terminator.
pub open spec fn first_line_spec(s: Seq<char>) -> Seq<char> {
    if exists|i: int| 0 <= i < s.len() && s[i] == '\n' {
        let i = first_newline_spec(s);
        if i > 0 && s[i - 1] == '\r' {
            s.take(i - 1)
        } else {
            s.take(i)
        }
    } else {
        s
    }
}

/// What remains of a text after its first line and terminator.
pub open spec fn line_rest_spec(s: Seq<char>) -> Seq<char> {
    if exists|i: int| 0 <= i < s.len() && s[i] == '\n' {
        s.skip(first_newline_spec(s) + 1)
    } else {
        Seq::<char>::empty()
    }
}

/// The position of the first newline in `s`; one past the end when there
/// is none.
pub open spec fn first_newline_spec(s: Seq<char>) -> int
    decreases s.len(),
{
    if s.len() == 0 {
        0
    } else if s[0] == '\n' {
        0
    } else {
        1 + first_newline_spec(s.skip(1))
    }
}

proof fn lemma_first_newline(s: Seq<char>, w: int)
    requires
        0 <= w < s.len(),
        s[w] == '\n',
        forall|j: int| 0 <= j < w ==> s[j] != '\n',
    ensures
        first_newline_spec(s) == w,
    decreases w,
{
    if s[0] == '\n' {
        assert(w == 0);
    } else {
        assert(w > 0);
        lemma_first_newline(s.skip(1), w - 1);
    }
}

/// Splits a text into its lines, as the platform's line iterator does.
pub fn split_lines(s: &str) -> (r: Vec<String>)
    ensures
        r@.map(|i: int, l: String| l@) == lines_spec(s@),
    decreases s@.len(),
{
    let len = s.unicode_len();
    let mut r: Vec<String> = Vec::new();
    if len == 0 {
        assert(r@.map(|i: int, l: String| l@) =~= lines_spec(s@));
        return r;
    }
    // find the first newline, if any
    let mut i: usize = 0;
    while i < len && s.get_char(i) != '\n'
        invariant
            i <= len,
            len == s@.len(),
            forall|j: int| 0 <= j < i ==> s@[j] != '\n',
        decreases len - i,
    {
        i = i + 1;
    }
    if i == len {
        // no newline: the whole text is one line
        assert(!(exists|k: int| 0 <= k < s@.len() && s@[k] == '\n'));
        let line = s.to_owned();
        r.push(line);
        assert(lines_spec(s@) =~= seq![s@] + lines_spec(Seq::<char>::empty()));
        assert(r@.map(|k: int, l: String| l@) =~= lines_spec(s@));
        return r;
    }
    proof {
        lemma_first_newline(s@, i as int);
    }
    let head_end: usize = if i > 0 && s.get_char(i - 1) == '\r' {
        i - 1
    } else {
        i
    };
    let head = s.substring_char(0, head_end);
    let rest = s.substring_char(i + 1, len);
    assert(head@ =~= s@.take(head_end as int));
    assert(rest@ =~= s@.skip(i + 1));
    assert(first_line_spec(s@) == head@);
    assert(line_rest_spec(s@) == rest@);
    let mut tail = split_lines(rest);
    let line = head.to_owned();
    r.push(line);
    r.append(&mut tail);
    assert(r@.map(|k: int, l: String| l@) =~= lines_spec(s@));
    r
}

/// The notices the line check yields for one line: a coded error when the
/// line shows a plausibility-rule designation ending in blanks.
pub open spec fn check_line_spec(line: int, content: Seq<char>) -> Seq<NoticeSpec> {
    if contains_spec(content, " </Bezeichnung>"@) {
        seq![
            NoticeSpec::ErrorWithCode {
                code: "2023-0003"@,
                description:
                    "Leerzeichen am Ende der Plausibilit\u{221a}\u{df}tsregel-Bezeichnung (OSTARSUPP-13334)"@,
                line: Some(line),
                example: Some(trim_spec(content)),
            },
        ]
    } else {
        Seq::<NoticeSpec>::empty()
    }
}

/// Checks one line of the textual form for known line-level problems.
pub fn check_line(line: usize, content: &str) -> (r: Vec<CheckNotice>)
    ensures
        notice_views(r@) == check_line_spec(line as int, content@),
{
    let mut r: Vec<CheckNotice> = Vec::new();
    if crate::text::str_contains(content, " </Bezeichnung>") {
        let trimmed = crate::text::str_trim(content);
        r.push(
            CheckNotice::ErrorWithCode {
                code: String::from_str("2023-0003"),
                description: String::from_str(
                    "Leerzeichen am Ende der Plausibilit\u{221a}\u{df}tsregel-Bezeichnung (OSTARSUPP-13334)",
                ),
                line: Some(line),
                example: Some(trimmed),
            },
        );
    }
    assert(notice_views(r@) =~= check_line_spec(line as int, content@));
    r
}

/// The line-level notices of a whole text, line by line, numbered from
/// zero.
pub open spec fn check_lines_spec(lines: Seq<Seq<char>>) -> Seq<NoticeSpec>
    decreases lines.len(),
{
    if lines.len() == 0 {
        Seq::<NoticeSpec>::empty()
    } else {
        check_lines_spec(lines.drop_last()) + check_line_spec(
            lines.len() - 1,
            lines.last(),
        )
    }
}

/// Checks a document's textual form line by line and the parsed document
/// against the full rule catalogue, and returns every notice found.
pub fn check(content: &str, data: &OnkostarEditor) -> (r: Vec<CheckNotice>)
    ensures
        notice_views(r@) == check_lines_spec(lines_spec(content@))
            + crate::model::onkostar_editor::check_document_spec(*data),
{
    let lines = split_lines(content);
    let mut r: Vec<CheckNotice> = Vec::new();
    let n = lines.len();
    let mut i: usize = 0;
    while i < n
        invariant
            i <= n,
            n == lines@.len(),
            lines@.map(|k: int, l: String| l@) == lines_spec(content@),
            notice_views(r@) == check_lines_spec(lines@.map(|k: int, l: String| l@).take(
                i as int,
            )),
        decreases n - i,
    {
        let mut found = check_line(i, lines[i].as_str());
        let ghost prev = r@;
        let ghost found0 = found@;
        r.append(&mut found);
        proof {
            let lv = lines@.map(|k: int, l: String| l@);
            assert(notice_views(r@) =~= notice_views(prev) + notice_views(found0));
            assert(lv.take(i + 1).drop_last() =~= lv.take(i as int));
            assert(lv.take(i + 1).last() == lv[i as int]);
            assert(notice_views(r@) =~= check_lines_spec(lv.take(i + 1)));
        }
        i = i + 1;
    }
    let mut inner = data.check();
    let ghost prev = r@;
    let ghost inner0 = inner@;
    r.append(&mut inner);
    proof {
        let lv = lines@.map(|k: int, l: String| l@);
        assert(lv.take(n as int) =~= lv);
        assert(notice_views(r@) =~= notice_views(prev) + notice_views(inner0));
    }
    r
}

} // verus!
