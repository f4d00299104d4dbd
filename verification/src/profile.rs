//! Profiles: flat per-site overwrite instructions applied to the forms of a
//! document. The host hands the crate a fully materialized profile; applying
//! it to a document is this crate's work.

use vstd::prelude::*;

verus! {

/// The newline replacement applied to script code taken from a profile.
pub open spec fn escape_script_spec(s: Seq<char>) -> Seq<char>
    decreases s.len(),
{
    if s.len() == 0 {
        s
    } else if s[0] == '\n' {
        "&#10;"@ + escape_script_spec(s.skip(1))
    } else {
        seq![s[0]] + escape_script_spec(s.skip(1))
    }
}

/// Replaces every newline in a script with its character reference, the
/// form the document format stores.
pub fn escape_script(script: &str) -> (r: String)
    ensures
        r@ == escape_script_spec(script@),
{
    let len = script.unicode_len();
    let mut out = String::new();
    let mut i: usize = 0;
    proof {
        reveal_strlit("&#10;");
        assert(script@.skip(0) =~= script@);
    }
    while i < len
        invariant
            i <= len,
            len == script@.len(),
            out@ + escape_script_spec(script@.skip(i as int)) == escape_script_spec(script@),
        decreases len - i,
    {
        let c = script.get_char(i);
        assert(script@.skip(i as int)[0] == c);
        assert(script@.skip(i as int).skip(1) =~= script@.skip(i + 1));
        if c == '\n' {
            out.append("&#10;");
        } else {
            let piece = script.substring_char(i, i + 1);
            assert(piece@ =~= seq![c]);
            out.append(piece);
        }
        proof {
            reveal_strlit("&#10;");
            assert(out@ + escape_script_spec(script@.skip(i + 1)) =~= escape_script_spec(
                script@));
        }
        i = i + 1;
    }
    assert(script@.skip(len as int) =~= Seq::<char>::empty());
    assert(out@ =~= escape_script_spec(script@));
    out
}

/// A profile: one overwrite block per form name.
pub struct Profile {
    pub forms: Vec<Form>,
}

/// The overwrite block a profile holds for one form.
pub struct Form {
    pub name: String,
    pub form_references: Vec<FormReference>,
    pub form_fields: Vec<FormField>,
    pub menu_category: Option<MenuCategory>,
}

/// Overwrites for one form-reference entry of a form.
pub struct FormReference {
    pub name: String,
    pub referenced_data_form: Option<String>,
    pub anzeige: Option<String>,
    pub anzeige_auswahl: Option<String>,
    pub remove_filter: bool,
    pub scripts_code: Option<String>,
}

impl FormReference {
    /// The script code of this overwrite with newlines escaped, if any.
    pub fn escaped_scripts_code(&self) -> (r: Option<String>)
        ensures
            match self.scripts_code {
                Some(code) => r matches Some(e) && e@ == escape_script_spec(code@),
                None => r is None,
            },
    {
        match &self.scripts_code {
            Some(code) => Some(escape_script(code.as_str())),
            None => None,
        }
    }
}

/// Overwrites for one plain field entry of a form.
pub struct FormField {
    pub name: String,
    pub hide: bool,
    pub default_value: Option<String>,
    pub remove_filter: bool,
    pub scripts_code: Option<String>,
}

impl FormField {
    /// The script code of this overwrite with newlines escaped, if any.
    pub fn escaped_scripts_code(&self) -> (r: Option<String>)
        ensures
            match self.scripts_code {
                Some(code) => r matches Some(e) && e@ == escape_script_spec(code@),
                None => r is None,
            },
    {
        match &self.scripts_code {
            Some(code) => Some(escape_script(code.as_str())),
            None => None,
        }
    }
}

/// The menu placement a profile may assign to a form.
pub struct MenuCategory {
    pub name: String,
    pub position: String,
    pub column: String,
}

} // verus!
