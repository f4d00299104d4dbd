//! The value types the host's file handling passes the library: a read
//! input with its textual content, and the errors the handling reports.

use vstd::prelude::*;

verus! {

/// An error of the host's file handling, as the library names it.
pub enum FileError {
    /// The source could not be read.
    Reading(String, String),
    /// The result could not be written.
    Writing(String, String),
    /// The content is not a supported, well-formed document.
    Parsing(String, String),
}

impl FileError {
    /// Renders the error in its fixed user-facing wording.
    pub fn to_display_string(&self) -> (r: String)
        ensures
            r@ == (match *self {
                FileError::Reading(f, e) => "Kann Datei '"@ + f@ + "' nicht lesen: "@ + e@,
                FileError::Writing(f, e) => "Kann Datei '"@ + f@ + "' nicht schreiben: "@ + e@,
                FileError::Parsing(f, e) => "Die Datei '"@ + f@
                    + "' wird nicht unterst\u{fc}tzt, ist fehlerhaft oder enth\u{e4}lt zus\u{e4}tzliche Inhalte\n"@
                    + e@,
            }),
    {
        let mut out = String::new();
        match self {
            FileError::Reading(f, e) => {
                out.append("Kann Datei '");
                out.append(f.as_str());
                out.append("' nicht lesen: ");
                out.append(e.as_str());
            },
            FileError::Writing(f, e) => {
                out.append("Kann Datei '");
                out.append(f.as_str());
                out.append("' nicht schreiben: ");
                out.append(e.as_str());
            },
            FileError::Parsing(f, e) => {
                out.append("Die Datei '");
                out.append(f.as_str());
                out.append(
                    "' wird nicht unterst\u{fc}tzt, ist fehlerhaft oder enth\u{e4}lt zus\u{e4}tzliche Inhalte\n",
                );
                out.append(e.as_str());
            },
        }
        out
    }
}

/// An input the host has read, by kind: a document file, an archive of
/// further inputs, a profile file, or anything else as raw bytes.
pub enum InputFile {
    /// A document file with its text.
    Osc { filename: String, content: String },
    /// An archive holding further inputs.
    Osb { filename: String, content: Vec<InputFile> },
    /// A profile file with its text.
    Yaml { filename: String, content: String },
    /// Any other file as raw bytes.
    Other { filename: String, content: Vec<u8> },
}

impl InputFile {
    /// The name of the file this input was read from.
    pub fn filename(&self) -> (r: String)
        ensures
            r == (match *self {
                InputFile::Osc { filename, .. } => filename,
                InputFile::Osb { filename, .. } => filename,
                InputFile::Yaml { filename, .. } => filename,
                InputFile::Other { filename, .. } => filename,
            }),
    {
        match self {
            InputFile::Osb { filename, .. } => filename.clone(),
            InputFile::Osc { filename, .. } => filename.clone(),
            InputFile::Yaml { filename, .. } => filename.clone(),
            InputFile::Other { filename, .. } => filename.clone(),
        }
    }
}

} // verus!
