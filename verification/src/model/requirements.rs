//! Requirements: the resolved relationships from one entity to the
//! entities it depends on, or to names expected in the consumer's library.

use vstd::prelude::*;

use crate::model::data_catalogue::DataCatalogue;
use crate::model::form::{DataFormType, Form, UnterformularType};
use crate::model::onkostar_editor::OnkostarEditor;
use crate::sorting::Sortable;
use crate::text::lex_leq;

verus! {

/// A snapshot of the entity a requirement resolved to: its name, revision
/// and whether it is system-library content.
pub struct ResolvedRef {
    pub name: String,
    pub revision: u16,
    pub system: bool,
}

/// One requirement of an entity: a resolved in-document relationship, or an
/// external name expected to exist in the consumer's library.
pub enum Requirement {
    /// A property catalogue found in the document.
    PropertyCatalogue(ResolvedRef),
    /// A data catalogue found in the document.
    DataCatalogue(ResolvedRef),
    /// A property catalogue not contained in the document.
    ExternalPropertyCatalogue(String),
    /// A data catalogue not contained in the document.
    ExternalDataCatalogue(String),
    /// A form reference resolved to a form.
    DataFormReference(ResolvedRef),
    /// A form reference resolved to a subform.
    UnterformularReference(ResolvedRef),
    /// A form reference to a form not contained in the document.
    ExternalDataFormReference(String),
    /// A form reference to a subform not contained in the document.
    ExternalUnterformularReference(String),
    /// A subform slot resolved to a form.
    DataFormSubform(ResolvedRef),
    /// A subform slot resolved to a subform.
    UnterformularSubform(ResolvedRef),
    /// A subform slot naming a form not contained in the document.
    ExternalDataFormSubform(String),
    /// A subform slot naming a subform not contained in the document.
    ExternalUnterformularSubform(String),
}

impl Requirement {
    /// The resolution name the requirement sorts and deduplicates by.
    pub open spec fn key_spec(self) -> Seq<char> {
        match self {
            Requirement::PropertyCatalogue(item) => item.name@,
            Requirement::DataCatalogue(item) => item.name@,
            Requirement::DataFormReference(item) => item.name@,
            Requirement::UnterformularReference(item) => item.name@,
            Requirement::DataFormSubform(item) => item.name@,
            Requirement::UnterformularSubform(item) => item.name@,
            Requirement::ExternalPropertyCatalogue(name) => name@,
            Requirement::ExternalDataCatalogue(name) => name@,
            Requirement::ExternalDataFormReference(name) => name@,
            Requirement::ExternalDataFormSubform(name) => name@,
            Requirement::ExternalUnterformularReference(name) => name@,
            Requirement::ExternalUnterformularSubform(name) => name@,
        }
    }

    /// Returns the resolution name the requirement sorts by.
    pub fn sorting_key(&self) -> (r: String)
        ensures
            r@ == self.key_spec(),
    {
        match self {
            Requirement::PropertyCatalogue(item) => item.name.clone(),
            Requirement::DataCatalogue(item) => item.name.clone(),
            Requirement::DataFormReference(item) => item.name.clone(),
            Requirement::UnterformularReference(item) => item.name.clone(),
            Requirement::DataFormSubform(item) => item.name.clone(),
            Requirement::UnterformularSubform(item) => item.name.clone(),
            Requirement::ExternalPropertyCatalogue(name) => name.clone(),
            Requirement::ExternalDataCatalogue(name) => name.clone(),
            Requirement::ExternalDataFormReference(name) => name.clone(),
            Requirement::ExternalDataFormSubform(name) => name.clone(),
            Requirement::ExternalUnterformularReference(name) => name.clone(),
            Requirement::ExternalUnterformularSubform(name) => name.clone(),
        }
    }

    /// The fixed rendering of the requirement.
    pub open spec fn display_spec(self) -> Seq<char> {
        match self {
            Requirement::PropertyCatalogue(item) => crate::model::listed_display_spec(
                "Merkmalskatalog"@,
                item.system,
                item.name@,
                item.revision,
            ),
            Requirement::DataCatalogue(item) => crate::model::listed_display_spec(
                "Datenkatalog"@,
                item.system,
                item.name@,
                item.revision,
            ),
            Requirement::DataFormReference(item) => crate::model::listed_display_spec(
                "Formular"@,
                item.system,
                item.name@,
                item.revision,
            ),
            Requirement::UnterformularReference(item) => crate::model::listed_display_spec(
                "Unterformular"@,
                item.system,
                item.name@,
                item.revision,
            ),
            Requirement::DataFormSubform(item) => crate::model::listed_display_spec(
                "Formular"@,
                item.system,
                item.name@,
                item.revision,
            ),
            Requirement::UnterformularSubform(item) => crate::model::listed_display_spec(
                "Unterformular"@,
                item.system,
                item.name@,
                item.revision,
            ),
            Requirement::ExternalPropertyCatalogue(name) => "Merkmalskatalog (-) '"@ + name@
                + "' - hier nicht enthalten"@,
            Requirement::ExternalDataCatalogue(name) => "Datenkatalog (-) '"@ + name@
                + "' - hier nicht enthalten"@,
            Requirement::ExternalDataFormReference(name) => "Formular (-) '"@ + name@
                + "' - hier nicht enthalten"@,
            Requirement::ExternalDataFormSubform(name) => "Formular (-) '"@ + name@
                + "' - hier nicht enthalten"@,
            Requirement::ExternalUnterformularReference(name) => "Unterformular (-) '"@ + name@
                + "' - hier nicht enthalten"@,
            Requirement::ExternalUnterformularSubform(name) => "Unterformular (-) '"@ + name@
                + "' - hier nicht enthalten"@,
        }
    }

    /// Renders the requirement in its fixed format.
    pub fn to_display_string(&self) -> (r: String)
        ensures
            r@ == self.display_spec(),
    {
        match self {
            Requirement::PropertyCatalogue(item) => crate::model::listed_display(
                "Merkmalskatalog",
                item.system,
                item.name.as_str(),
                item.revision,
            ),
            Requirement::DataCatalogue(item) => crate::model::listed_display(
                "Datenkatalog",
                item.system,
                item.name.as_str(),
                item.revision,
            ),
            Requirement::DataFormReference(item) => crate::model::listed_display(
                "Formular",
                item.system,
                item.name.as_str(),
                item.revision,
            ),
            Requirement::UnterformularReference(item) => crate::model::listed_display(
                "Unterformular",
                item.system,
                item.name.as_str(),
                item.revision,
            ),
            Requirement::DataFormSubform(item) => crate::model::listed_display(
                "Formular",
                item.system,
                item.name.as_str(),
                item.revision,
            ),
            Requirement::UnterformularSubform(item) => crate::model::listed_display(
                "Unterformular",
                item.system,
                item.name.as_str(),
                item.revision,
            ),
            Requirement::ExternalPropertyCatalogue(name) => external_display(
                "Merkmalskatalog (-) '",
                name.as_str(),
            ),
            Requirement::ExternalDataCatalogue(name) => external_display(
                "Datenkatalog (-) '",
                name.as_str(),
            ),
            Requirement::ExternalDataFormReference(name) => external_display(
                "Formular (-) '",
                name.as_str(),
            ),
            Requirement::ExternalDataFormSubform(name) => external_display(
                "Formular (-) '",
                name.as_str(),
            ),
            Requirement::ExternalUnterformularReference(name) => external_display(
                "Unterformular (-) '",
                name.as_str(),
            ),
            Requirement::ExternalUnterformularSubform(name) => external_display(
                "Unterformular (-) '",
                name.as_str(),
            ),
        }
    }
}

fn external_display(prefix: &str, name: &str) -> (r: String)
    ensures
        r@ == prefix@ + name@ + "' - hier nicht enthalten"@,
{
    let mut out = String::new();
    out.append(prefix);
    out.append(name);
    out.append("' - hier nicht enthalten");
    out
}

impl Sortable for Requirement {
    open spec fn le_spec(self, other: Self) -> bool {
        lex_leq(self.key_spec(), other.key_spec())
    }

    fn le(&self, other: &Self) -> (r: bool) {
        let a = self.sorting_key();
        let b = other.sorting_key();
        crate::text::str_leq(a.as_str(), b.as_str())
    }
}

/// The rendered sub-lines below a resolved data catalogue: one line per
/// property catalogue it draws on.
pub open spec fn pc_lines_spec(reqs: Seq<Requirement>) -> Seq<char>
    decreases reqs.len(),
{
    if reqs.len() == 0 {
        Seq::<char>::empty()
    } else {
        pc_lines_spec(reqs.drop_last()) + (match reqs.last() {
            Requirement::PropertyCatalogue(_) => "    - "@ + reqs.last().display_spec() + "\n"@,
            Requirement::ExternalPropertyCatalogue(_) => "    - "@ + reqs.last().display_spec()
                + "\n"@,
            _ => Seq::<char>::empty(),
        })
    }
}

/// The rendered sub-lines of a data catalogue requirement, resolved anew
/// against the document.
pub open spec fn dc_inner_lines_spec(name: Seq<char>, all: OnkostarEditor) -> Seq<char> {
    match all.find_dc_spec(name) {
        Some(i) => pc_lines_spec(
            DataCatalogue::required_spec(all.editor.data_catalogue@[i], all),
        ),
        None => Seq::<char>::empty(),
    }
}

/// One rendered line of a requirement below a form: catalogues with their
/// own sub-lines, references and embedded subforms with their markers;
/// property catalogue requirements yield nothing at this level.
pub open spec fn req_line_spec(r: Requirement, all: OnkostarEditor) -> Seq<char> {
    match r {
        Requirement::DataCatalogue(item) => "  + "@ + r.display_spec() + "\n"@
            + dc_inner_lines_spec(item.name@, all),
        Requirement::ExternalDataCatalogue(_) => "  + "@ + r.display_spec() + "\n"@,
        Requirement::DataFormReference(_) => "  > "@ + r.display_spec() + "\n"@,
        Requirement::UnterformularReference(_) => "  > "@ + r.display_spec() + "\n"@,
        Requirement::ExternalDataFormReference(_) => "  > "@ + r.display_spec() + "\n"@,
        Requirement::ExternalUnterformularReference(_) => "  > "@ + r.display_spec() + "\n"@,
        Requirement::DataFormSubform(_) => "  * "@ + r.display_spec() + "\n"@,
        Requirement::UnterformularSubform(_) => "  * "@ + r.display_spec() + "\n"@,
        Requirement::ExternalDataFormSubform(_) => "  * "@ + r.display_spec() + "\n"@,
        Requirement::ExternalUnterformularSubform(_) => "  * "@ + r.display_spec() + "\n"@,
        Requirement::PropertyCatalogue(_) => Seq::<char>::empty(),
        Requirement::ExternalPropertyCatalogue(_) => Seq::<char>::empty(),
    }
}

/// The rendered requirement lines of a form, in requirement order.
pub open spec fn req_lines_spec(reqs: Seq<Requirement>, all: OnkostarEditor) -> Seq<char>
    decreases reqs.len(),
{
    if reqs.len() == 0 {
        Seq::<char>::empty()
    } else {
        req_lines_spec(reqs.drop_last(), all) + req_line_spec(reqs.last(), all)
    }
}

/// The rendered lines of a data catalogue's own requirement listing.
pub open spec fn dc_req_lines_spec(reqs: Seq<Requirement>) -> Seq<char>
    decreases reqs.len(),
{
    if reqs.len() == 0 {
        Seq::<char>::empty()
    } else {
        dc_req_lines_spec(reqs.drop_last()) + (match reqs.last() {
            Requirement::PropertyCatalogue(_) => "  - "@ + reqs.last().display_spec() + "\n"@,
            Requirement::ExternalPropertyCatalogue(_) => "  - "@ + reqs.last().display_spec()
                + "\n"@,
            _ => Seq::<char>::empty(),
        })
    }
}

fn marked_line(marker: &str, r: &Requirement) -> (line: String)
    ensures
        line@ == marker@ + r.display_spec() + "\n"@,
{
    let mut line = String::new();
    line.append(marker);
    let d = r.to_display_string();
    line.append(d.as_str());
    line.append("\n");
    line
}

fn append_pc_lines(reqs: &Vec<Requirement>, out: &mut String)
    ensures
        final(out)@ == old(out)@ + pc_lines_spec(reqs@),
{
    let n = reqs.len();
    let mut i: usize = 0;
    assert(reqs@.take(0) =~= Seq::<Requirement>::empty());
    assert(out@ =~= old(out)@ + pc_lines_spec(reqs@.take(0)));
    while i < n
        invariant
            i <= n,
            n == reqs@.len(),
            out@ == old(out)@ + pc_lines_spec(reqs@.take(i as int)),
        decreases n - i,
    {
        proof {
            assert(reqs@.take(i + 1).drop_last() =~= reqs@.take(i as int));
            assert(reqs@.take(i + 1).last() == reqs@[i as int]);
        }
        let ghost before = out@;
        let r = &reqs[i];
        match r {
            Requirement::PropertyCatalogue(_) => {
                let line = marked_line("    - ", r);
                out.append(line.as_str());
            },
            Requirement::ExternalPropertyCatalogue(_) => {
                let line = marked_line("    - ", r);
                out.append(line.as_str());
            },
            _ => {},
        }
        proof {
            vstd::seq_lib::lemma_concat_associative(
                old(out)@,
                pc_lines_spec(reqs@.take(i as int)),
                out@.skip(before.len() as int),
            );
            assert(out@ =~= old(out)@ + pc_lines_spec(reqs@.take(i + 1)));
        }
        i = i + 1;
    }
    assert(reqs@.take(n as int) =~= reqs@);
}

fn append_req_lines(reqs: &Vec<Requirement>, all: &OnkostarEditor, out: &mut String)
    ensures
        final(out)@ == old(out)@ + req_lines_spec(reqs@, *all),
{
    let n = reqs.len();
    let mut i: usize = 0;
    assert(reqs@.take(0) =~= Seq::<Requirement>::empty());
    assert(out@ =~= old(out)@ + req_lines_spec(reqs@.take(0), *all));
    while i < n
        invariant
            i <= n,
            n == reqs@.len(),
            out@ == old(out)@ + req_lines_spec(reqs@.take(i as int), *all),
        decreases n - i,
    {
        proof {
            assert(reqs@.take(i + 1).drop_last() =~= reqs@.take(i as int));
            assert(reqs@.take(i + 1).last() == reqs@[i as int]);
        }
        let ghost before = out@;
        let r = &reqs[i];
        match r {
            Requirement::DataCatalogue(item) => {
                let line = marked_line("  + ", r);
                out.append(line.as_str());
                match all.find_data_catalogue(item.name.as_str()) {
                    Some(dc) => {
                        let inner = dc.get_required_entries(all);
                        append_pc_lines(&inner, out);
                        proof {
                            vstd::seq_lib::lemma_concat_associative(
                                before,
                                line@,
                                pc_lines_spec(inner@),
                            );
                        }
                    },
                    None => {},
                }
            },
            Requirement::ExternalDataCatalogue(_) => {
                let line = marked_line("  + ", r);
                out.append(line.as_str());
            },
            Requirement::DataFormReference(_) => {
                let line = marked_line("  > ", r);
                out.append(line.as_str());
            },
            Requirement::UnterformularReference(_) => {
                let line = marked_line("  > ", r);
                out.append(line.as_str());
            },
            Requirement::ExternalDataFormReference(_) => {
                let line = marked_line("  > ", r);
                out.append(line.as_str());
            },
            Requirement::ExternalUnterformularReference(_) => {
                let line = marked_line("  > ", r);
                out.append(line.as_str());
            },
            Requirement::DataFormSubform(_) => {
                let line = marked_line("  * ", r);
                out.append(line.as_str());
            },
            Requirement::UnterformularSubform(_) => {
                let line = marked_line("  * ", r);
                out.append(line.as_str());
            },
            Requirement::ExternalDataFormSubform(_) => {
                let line = marked_line("  * ", r);
                out.append(line.as_str());
            },
            Requirement::ExternalUnterformularSubform(_) => {
                let line = marked_line("  * ", r);
                out.append(line.as_str());
            },
            Requirement::PropertyCatalogue(_) => {},
            Requirement::ExternalPropertyCatalogue(_) => {},
        }
        proof {
            assert(before == old(out)@ + req_lines_spec(reqs@.take(i as int), *all));
            assert(out@ =~= before + req_line_spec(reqs@[i as int], *all));
            vstd::seq_lib::lemma_concat_associative(
                old(out)@,
                req_lines_spec(reqs@.take(i as int), *all),
                req_line_spec(reqs@[i as int], *all),
            );
            assert(out@ =~= old(out)@ + req_lines_spec(reqs@.take(i + 1), *all));
        }
        i = i + 1;
    }
    assert(reqs@.take(n as int) =~= reqs@);
}

impl Form<DataFormType> {
    /// Renders the form's description with one line per requirement:
    /// catalogues with their property catalogues, references and embedded
    /// subforms, each with its marker.
    pub fn to_requirement_string(&self, all: &OnkostarEditor) -> (r: String)
        ensures
            r@ == crate::model::listed_display_spec(
                "Formular"@,
                self.is_system_spec(),
                self.name@,
                self.revision,
            ) + "\n"@ + req_lines_spec(Form::required_spec(*self, *all), *all),
    {
        let mut out = self.to_listed_string();
        out.append("\n");
        let reqs = self.get_required_entries(all);
        append_req_lines(&reqs, all, &mut out);
        proof {
            vstd::seq_lib::lemma_concat_associative(
                crate::model::listed_display_spec(
                    "Formular"@,
                    self.is_system_spec(),
                    self.name@,
                    self.revision,
                ),
                "\n"@,
                req_lines_spec(Form::required_spec(*self, *all), *all),
            );
        }
        out
    }
}

impl Form<UnterformularType> {
    /// Renders the subform's description with one line per requirement.
    pub fn to_requirement_string(&self, all: &OnkostarEditor) -> (r: String)
        ensures
            r@ == crate::model::listed_display_spec(
                "Unterformular"@,
                self.is_system_spec(),
                self.name@,
                self.revision,
            ) + "\n"@ + req_lines_spec(Form::required_spec(*self, *all), *all),
    {
        let mut out = self.to_listed_string();
        out.append("\n");
        let reqs = self.get_required_entries(all);
        append_req_lines(&reqs, all, &mut out);
        proof {
            vstd::seq_lib::lemma_concat_associative(
                crate::model::listed_display_spec(
                    "Unterformular"@,
                    self.is_system_spec(),
                    self.name@,
                    self.revision,
                ),
                "\n"@,
                req_lines_spec(Form::required_spec(*self, *all), *all),
            );
        }
        out
    }
}

impl DataCatalogue {
    /// Renders the catalogue's description with one line per property
    /// catalogue it draws on.
    pub fn to_requirement_string(&self, all: &OnkostarEditor) -> (r: String)
        ensures
            r@ == crate::model::listed_display_spec(
                "Datenkatalog"@,
                self.is_system_spec(),
                self.name@,
                self.revision,
            ) + "\n"@ + dc_req_lines_spec(DataCatalogue::required_spec(*self, *all)),
    {
        let mut out = self.to_listed_string();
        out.append("\n");
        let reqs = self.get_required_entries(all);
        let n = reqs.len();
        let mut i: usize = 0;
        let ghost base = out@;
        assert(reqs@.take(0) =~= Seq::<Requirement>::empty());
        while i < n
            invariant
                i <= n,
                n == reqs@.len(),
                out@ == base + dc_req_lines_spec(reqs@.take(i as int)),
            decreases n - i,
        {
            proof {
                assert(reqs@.take(i + 1).drop_last() =~= reqs@.take(i as int));
                assert(reqs@.take(i + 1).last() == reqs@[i as int]);
            }
            let r = &reqs[i];
            match r {
                Requirement::PropertyCatalogue(_) => {
                    let line = marked_line("  - ", r);
                    out.append(line.as_str());
                },
                Requirement::ExternalPropertyCatalogue(_) => {
                    let line = marked_line("  - ", r);
                    out.append(line.as_str());
                },
                _ => {},
            }
            proof {
                vstd::seq_lib::lemma_concat_associative(
                    base,
                    dc_req_lines_spec(reqs@.take(i as int)),
                    (match reqs@[i as int] {
                        Requirement::PropertyCatalogue(_) => "  - "@ + reqs@[
                            i as int].display_spec() + "\n"@,
                        Requirement::ExternalPropertyCatalogue(_) => "  - "@ + reqs@[
                            i as int].display_spec() + "\n"@,
                        _ => Seq::<char>::empty(),
                    }),
                );
                assert(out@ =~= base + dc_req_lines_spec(reqs@.take(i + 1)));
            }
            i = i + 1;
        }
        assert(reqs@.take(n as int) =~= reqs@);
        proof {
            vstd::seq_lib::lemma_concat_associative(
                crate::model::listed_display_spec(
                    "Datenkatalog"@,
                    self.is_system_spec(),
                    self.name@,
                    self.revision,
                ),
                "\n"@,
                dc_req_lines_spec(DataCatalogue::required_spec(*self, *all)),
            );
        }
        out
    }
}

} // verus!
