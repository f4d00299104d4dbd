//! Validation notices: the closed set of findings the consistency checker
//! emits, their stable rendering, and the catalogue of known problems.

use vstd::prelude::*;

use crate::text::dec_of;

pub mod osc;

verus! {

/// A validation finding. Severities order `Okay < Info < Warning < Error`;
/// a coded error cites a stable identifier other tooling greps for.
pub enum CheckNotice {
    /// This will result in an import error and has a support code.
    ErrorWithCode { code: String, description: String, line: Option<usize>, example: Option<
        String,
    > },
    /// This will result in an import error.
    Error { description: String, line: Option<usize> },
    /// Another known issue.
    Warning { description: String, line: Option<usize> },
    /// A purely informational finding.
    Info { description: String, line: Option<usize> },
    /// A passed check.
    Okay(String),
}

/// The spec-level shape of a notice, over character sequences.
pub enum NoticeSpec {
    ErrorWithCode { code: Seq<char>, description: Seq<char>, line: Option<int>, example: Option<
        Seq<char>,
    > },
    Error { description: Seq<char>, line: Option<int> },
    Warning { description: Seq<char>, line: Option<int> },
    Info { description: Seq<char>, line: Option<int> },
    Okay(Seq<char>),
}

impl View for CheckNotice {
    type V = NoticeSpec;

    open spec fn view(&self) -> NoticeSpec {
        match self {
            CheckNotice::ErrorWithCode { code, description, line, example } =>
                NoticeSpec::ErrorWithCode {
                code: code@,
                description: description@,
                line: match line {
                    Some(l) => Some(*l as int),
                    None => None,
                },
                example: match example {
                    Some(e) => Some(e@),
                    None => None,
                },
            },
            CheckNotice::Error { description, line } => NoticeSpec::Error {
                description: description@,
                line: match line {
                    Some(l) => Some(*l as int),
                    None => None,
                },
            },
            CheckNotice::Warning { description, line } => NoticeSpec::Warning {
                description: description@,
                line: match line {
                    Some(l) => Some(*l as int),
                    None => None,
                },
            },
            CheckNotice::Info { description, line } => NoticeSpec::Info {
                description: description@,
                line: match line {
                    Some(l) => Some(*l as int),
                    None => None,
                },
            },
            CheckNotice::Okay(msg) => NoticeSpec::Okay(msg@),
        }
    }
}

/// The views of a notice list.
pub open spec fn notice_views(s: Seq<CheckNotice>) -> Seq<NoticeSpec> {
    s.map(|i: int, n: CheckNotice| n@)
}

impl CheckNotice {
    /// Whether the notice counts as an error for the caller's exit status.
    pub fn is_error(&self) -> (r: bool)
        ensures
            r == (self@ matches NoticeSpec::ErrorWithCode { .. } || self@
                matches NoticeSpec::Error { .. }),
    {
        matches!(self, CheckNotice::ErrorWithCode { .. } | CheckNotice::Error { .. })
    }
}

/// The fixed rendering of the optional line part: `" at Line N"` or
/// nothing, followed by `": "` or `" "`.
pub open spec fn line_part_spec(line: Option<int>, with_colon: bool) -> Seq<char> {
    match line {
        Some(l) => " at Line "@ + dec_of(l) + (if with_colon {
            ": "@
        } else {
            ": "@
        }),
        None => if with_colon {
            ": "@
        } else {
            " "@
        },
    }
}

/// The fixed rendering of an optional example line.
pub open spec fn example_part_spec(example: Option<Seq<char>>) -> Seq<char> {
    match example {
        Some(e) => "\n        \u{1f525} '"@ + e + "'"@,
        None => Seq::<char>::empty(),
    }
}

/// The fixed, stable rendering of a notice: severity label padded to seven
/// characters, an optional code, an optional line, the message and an
/// optional example.
pub open spec fn notice_display_spec(n: NoticeSpec) -> Seq<char> {
    match n {
        NoticeSpec::ErrorWithCode { code, description, line, example } => "ERROR   ("@ + code
            + ")"@ + line_part_spec(line, true) + description + example_part_spec(example),
        NoticeSpec::Error { description, line } => "ERROR  "@ + line_part_spec(line, false)
            + description,
        NoticeSpec::Warning { description, line } => "WARNING"@ + line_part_spec(line, false)
            + description,
        NoticeSpec::Info { description, line } => "INFO   "@ + line_part_spec(line, false)
            + description,
        NoticeSpec::Okay(msg) => "OK      "@ + msg,
    }
}

fn append_line_part(out: &mut String, line: &Option<usize>, with_colon: bool)
    ensures
        final(out)@ == old(out)@ + line_part_spec(
            match line {
                Some(l) => Some(*l as int),
                None => None,
            },
            with_colon,
        ),
{
    match line {
        Some(l) => {
            out.append(" at Line ");
            let d = crate::text::usize_to_dec(*l);
            out.append(d.as_str());
            out.append(": ");
        },
        None => {
            if with_colon {
                out.append(": ");
            } else {
                out.append(" ");
            }
        },
    }
}

impl CheckNotice {
    /// Renders the notice in the fixed format downstream tooling parses.
    pub fn to_display_string(&self) -> (r: String)
        ensures
            r@ == notice_display_spec(self@),
    {
        let mut out = String::new();
        match self {
            CheckNotice::ErrorWithCode { code, description, line, example } => {
                out.append("ERROR   (");
                out.append(code.as_str());
                out.append(")");
                append_line_part(&mut out, line, true);
                out.append(description.as_str());
                match example {
                    Some(e) => {
                        out.append("\n        \u{1f525} '");
                        out.append(e.as_str());
                        out.append("'");
                    },
                    None => {},
                }
            },
            CheckNotice::Error { description, line } => {
                out.append("ERROR  ");
                append_line_part(&mut out, line, false);
                out.append(description.as_str());
            },
            CheckNotice::Warning { description, line } => {
                out.append("WARNING");
                append_line_part(&mut out, line, false);
                out.append(description.as_str());
            },
            CheckNotice::Info { description, line } => {
                out.append("INFO   ");
                append_line_part(&mut out, line, false);
                out.append(description.as_str());
            },
            CheckNotice::Okay(msg) => {
                out.append("OK      ");
                out.append(msg.as_str());
            },
        }
        out
    }
}

/// One entry of the catalogue of known problems.
pub struct Problem {
    pub code: &'static str,
    pub name: &'static str,
    pub description: &'static str,
    pub fixable: bool,
}

/// The fixed catalogue of known problems the checker looks for, in the
/// order they are listed to the user.
pub fn known_problems() -> (r: Vec<Problem>)
    ensures
        r@.len() == 5,
        r@[0].code@ == "2023-0001"@ && !r@[0].fixable,
        r@[1].code@ == "2023-0002"@ && !r@[1].fixable,
        r@[2].code@ == "2023-0003"@ && r@[2].fixable,
        r@[3].code@ == "2023-0004"@ && !r@[3].fixable,
        r@[4].code@ == "2024-0005"@ && !r@[4].fixable,
{
    let mut v: Vec<Problem> = Vec::new();
    v.push(
        Problem {
            code: "2023-0001",
            name: "Unterformular mit Markierung 'hat Unterformulare'",
            description:
                "  Aktuell gibt es keine Unterformulare in Unterformularen, daher\n  sollte dies nicht vorkommen.\n\n  Eine m\u{f6}gliche Ursache ist die Speicherung eines Unterformulars als Formular.",
            fixable: false,
        },
    );
    v.push(
        Problem {
            code: "2023-0002",
            name: "Formular hat keine Angabe zum Prozedurdatum",
            description:
                "  Formulare ben\u{f6}tigen die Angabe des Prozedurdatums, anderenfalls\n  f\u{fc}hrt dies zu Problemen in Onkostar.\n\n  Unterformulare k\u{f6}nnen ein Prozedurdatum haben, m\u{fc}ssen es aber nicht.\n\n  Eine m\u{f6}gliche Ursache ist die Speicherung eines Formulars als Unterformular.",
            fixable: false,
        },
    );
    v.push(
        Problem {
            code: "2023-0003",
            name: "Leerzeichen am Ende der Plausibilit\u{e4}tsregel-Bezeichnung (OSTARSUPP-13334)",
            description:
                "  Treten Leerzeichen am Ende der Plausibilit\u{e4}tsregel-Bezeichnung auf,\n  f\u{fc}hrt dies zu Fehlern beim Import der OSC-Datei.\n\n  Das Problem wird beim Verwenden des Unterbefehls 'modify' automatisch\n  behoben und Leerzeichen entfernt. \n            ",
            fixable: true,
        },
    );
    v.push(
        Problem {
            code: "2023-0004",
            name: "Verweis auf noch nicht definiertes Formular (OSTARSUPP-13212)",
            description:
                "  Wenn ein Formular einen Verweis auf ein anderes Formular enth\u{e4}lt,\n  das nicht vor diesem Formular in der OSC-Datei definiert ist, wird der\n  Formularverweis beim Import der OSC-Datei nicht \u{fc}bernommen.\n\n  Dies kann bei wechselseitiger Abh\u{e4}ngigkeit zwischen zwei (Unter-)Formularen\n  auftreten.\n\n  In diesem Fall kann ein erneuter/zweiter Import helfen, da das Onkostar in\n  diesem Fall alle Formulare importiert hat und der Formularverweis dann \n  gespeichert werden kann. \n            ",
            fixable: false,
        },
    );
    v.push(
        Problem {
            code: "2024-0005",
            name: "Formular hat Formularverweise ohne Angabe des Formulars in den Formularfeldern",
            description:
                "  Formularverweise ohne Angabe des Formulars f\u{fc}hren zu Problemen\n  bei der Verwendung und Darstellung des entsprechenden Formularverweises.\n\n  Dieses Problem muss manuell behoben werden.\n            ",
            fixable: false,
        },
    );
    v
}

} // verus!
