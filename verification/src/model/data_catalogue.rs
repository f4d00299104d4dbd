//! Data catalogues: named groups of data entries, each of which may draw on
//! a property catalogue.

use vstd::prelude::*;

use crate::model::onkostar_editor::OnkostarEditor;
use crate::model::requirements::{Requirement, ResolvedRef};
use crate::model::{is_system_library_spec, Ansichten, Ordner};
use crate::sorting::{sort, sort_le, Sortable};
use crate::text::lex_leq;

verus! {

/// A data catalogue of the document.
pub struct DataCatalogue {
    pub name: String,
    pub name_export: String,
    pub category: String,
    pub description: String,
    pub note: String,
    pub readonly: bool,
    pub best_of: bool,
    pub sid: String,
    pub guid: String,
    pub revision: u16,
    pub entries: Entries,
    pub ordner: Ordner,
    pub ansichten: Option<Ansichten>,
}

/// The entries of a data catalogue.
pub struct Entries {
    pub entry: Vec<Entry>,
}

/// One entry of a data catalogue.
pub struct Entry {
    pub property_catalogue: Option<String>,
    pub name: String,
    pub name_export: String,
    pub description: String,
    pub entry_type: String,
    pub sub_table: String,
    pub scale_unit: String,
    pub max_length: u32,
    pub default_value: String,
    pub active: bool,
    pub read_only: bool,
    pub filterable: bool,
    pub range_from: Option<String>,
    pub range_until: Option<String>,
    pub multiple_choice: bool,
    pub position: String,
    pub note: String,
    pub date_estimated_allowed: bool,
    pub date_unknown_allowed: bool,
    pub oe_choice_options: String,
    pub fachabteilungsbezug: bool,
    pub use_: Option<Use>,
    pub feste_nachkommastellen: Option<u16>,
    pub sid: String,
    pub guid: String,
    pub revision: u16,
}

/// The program modules a data catalogue entry is used by.
pub struct Use {
    pub program_module: Vec<ProgramModule>,
}

/// One program module reference.
pub struct ProgramModule {
    pub program: String,
    pub name: String,
}

impl ProgramModule {
    /// The key a program module list sorts by.
    pub open spec fn key_spec(&self) -> Seq<char> {
        self.program@ + "-"@ + self.name@
    }

    /// Returns the key this program module sorts by.
    pub fn sorting_key(&self) -> (r: String)
        ensures
            r@ == self.key_spec(),
    {
        let mut k = self.program.clone();
        k.append("-");
        k.append(self.name.as_str());
        k
    }
}

impl Sortable for ProgramModule {
    open spec fn le_spec(self, other: Self) -> bool {
        lex_leq(self.key_spec(), other.key_spec())
    }

    fn le(&self, other: &Self) -> (r: bool) {
        let a = self.sorting_key();
        let b = other.sorting_key();
        crate::text::str_leq(a.as_str(), b.as_str())
    }
}

/// `b` is `a` with its program module list brought into canonical order.
pub open spec fn dc_entry_sorted_rel(a: Entry, b: Entry) -> bool {
    &&& b == (Entry { use_: b.use_, ..a })
    &&& match a.use_ {
        Some(u) => b.use_ matches Some(bu) && bu.program_module@ == sort_le(u.program_module@),
        None => b.use_ is None,
    }
}

impl Entry {
    /// The key a catalogue's entry list sorts by.
    pub fn sorting_key(&self) -> (r: String)
        ensures
            r@ == self.name@,
    {
        self.name.clone()
    }

    /// Brings the entry's program module list into canonical order.
    pub fn sorted(&mut self)
        ensures
            dc_entry_sorted_rel(*old(self), *final(self)),
    {
        let u = self.use_.take();
        match u {
            Some(mut uu) => {
                sort(&mut uu.program_module);
                self.use_ = Some(uu);
            },
            None => {},
        }
    }
}

impl Sortable for Entry {
    open spec fn le_spec(self, other: Self) -> bool {
        lex_leq(self.name@, other.name@)
    }

    fn le(&self, other: &Self) -> (r: bool) {
        crate::text::str_leq(self.name.as_str(), other.name.as_str())
    }
}

/// How a data catalogue's entry list looks once sorted by name with each
/// entry's own list sorted.
pub open spec fn dc_entries_sorted_rel(a: Seq<Entry>, b: Seq<Entry>) -> bool {
    &&& b.len() == sort_le(a).len()
    &&& forall|i: int| 0 <= i < b.len() ==> dc_entry_sorted_rel(#[trigger] sort_le(a)[i], b[i])
}

/// How a data catalogue looks once its entries are in canonical order;
/// everything else is untouched.
pub open spec fn dc_sorted_rel(a: DataCatalogue, b: DataCatalogue) -> bool {
    &&& b == (DataCatalogue { entries: b.entries, ..a })
    &&& dc_entries_sorted_rel(a.entries.entry@, b.entries.entry@)
}

impl DataCatalogue {
    /// The catalogue's name.
    pub fn get_name(&self) -> (r: String)
        ensures
            r == self.name,
    {
        self.name.clone()
    }

    /// The catalogue's revision.
    pub fn get_revision(&self) -> (r: u16)
        ensures
            r == self.revision,
    {
        self.revision
    }

    /// The key the catalogue collection sorts by.
    pub fn sorting_key(&self) -> (r: String)
        ensures
            r@ == self.name@,
    {
        self.name.clone()
    }

    /// The library folder the catalogue is filed under.
    pub fn get_library_folder(&self) -> (r: String)
        ensures
            r@ == self.ordner.bibliothek.name@,
    {
        self.ordner.bibliothek.name.clone()
    }

    /// Whether the catalogue is vendor-shipped system-library content.
    pub open spec fn is_system_spec(&self) -> bool {
        is_system_library_spec(self.ordner.bibliothek.name@)
    }

    /// Whether the catalogue is system-library content.
    pub fn is_system_library_content(&self) -> (r: bool)
        ensures
            r == self.is_system_spec(),
    {
        crate::text::str_eq(self.ordner.bibliothek.name.as_str(), "ONKOSTAR Bibliothek")
    }

    /// Brings the catalogue's entries into canonical order, each with its
    /// own nested list sorted.
    pub fn sorted(&mut self)
        ensures
            dc_sorted_rel(*old(self), *final(self)),
    {
        let mut entries = Entries { entry: Vec::new() };
        core::mem::swap(&mut self.entries, &mut entries);
        let Entries { entry } = entries;
        let mut v = entry;
        sort(&mut v);
        let ghost sorted_entries = v@;
        let n = v.len();
        let mut out: Vec<Entry> = Vec::new();
        let mut i: usize = 0;
        assert(v@ =~= sorted_entries.skip(0));
        while i < n
            invariant
                i <= n,
                sorted_entries.len() == n,
                v@.len() == n - i,
                out@.len() == i,
                v@ =~= sorted_entries.skip(i as int),
                forall|j: int|
                    0 <= j < i ==> dc_entry_sorted_rel(#[trigger] sorted_entries[j], out@[j]),
            decreases n - i,
        {
            proof {
                assert(sorted_entries.skip(i as int)[0] == sorted_entries[i as int]);
            }
            let mut e = v.remove(0);
            assert(e == sorted_entries[i as int]);
            e.sorted();
            out.push(e);
            assert(v@ =~= sorted_entries.skip(i + 1));
            i = i + 1;
        }
        self.entries = Entries { entry: out };
    }
}

/// The snapshot a requirement keeps of the catalogue it resolved to.
pub open spec fn resolved_of_dc(d: DataCatalogue) -> ResolvedRef {
    ResolvedRef { name: d.name, revision: d.revision, system: d.is_system_spec() }
}

/// The snapshot a requirement keeps of the property catalogue it resolved
/// to.
pub open spec fn resolved_of_pc(
    p: crate::model::property_catalogue::PropertyCatalogue,
) -> ResolvedRef {
    ResolvedRef { name: p.name, revision: p.revision, system: p.is_system_spec() }
}

/// How a property catalogue name resolves: to the first property
/// catalogue of that name, else to an external requirement.
pub open spec fn resolve_pc_req(all: OnkostarEditor, name: String) -> Requirement {
    match all.find_pc_spec(name@) {
        Some(i) => Requirement::PropertyCatalogue(
            resolved_of_pc(all.editor.property_catalogue@[i]),
        ),
        None => Requirement::ExternalPropertyCatalogue(name),
    }
}

/// The property catalogue names a data catalogue's entries draw on, in
/// entry order.
pub open spec fn pc_names_of_entries(entries: Seq<Entry>) -> Seq<String>
    decreases entries.len(),
{
    if entries.len() == 0 {
        Seq::<String>::empty()
    } else {
        pc_names_of_entries(entries.drop_last()) + (match entries.last().property_catalogue {
            Some(n) => seq![n],
            None => Seq::<String>::empty(),
        })
    }
}

impl DataCatalogue {
    /// Everything the catalogue requires: the distinct property catalogues
    /// its entries draw on, resolved against the document and sorted by
    /// resolution name.
    pub open spec fn required_spec(d: Self, all: OnkostarEditor) -> Seq<Requirement> {
        sort_le(
            crate::model::form::distinct_names(pc_names_of_entries(d.entries.entry@)).map(
                |i: int, n: String| resolve_pc_req(all, n),
            ),
        )
    }

    /// Resolves and returns everything the catalogue requires, ordered by
    /// resolution name.
    pub fn get_required_entries(&self, all: &OnkostarEditor) -> (r: Vec<Requirement>)
        ensures
            r@ == Self::required_spec(*self, *all),
    {
        let entries = &self.entries.entry;
        let n = entries.len();
        let mut names: Vec<String> = Vec::new();
        let mut i: usize = 0;
        assert(entries@.take(0) =~= Seq::<Entry>::empty());
        while i < n
            invariant
                i <= n,
                n == entries@.len(),
                names@ == crate::model::form::distinct_names(
                    pc_names_of_entries(entries@.take(i as int)),
                ),
            decreases n - i,
        {
            proof {
                assert(entries@.take(i + 1).drop_last() =~= entries@.take(i as int));
                assert(entries@.take(i + 1).last() == entries@[i as int]);
            }
            let e = &entries[i];
            match &e.property_catalogue {
                Some(nm) => {
                    if !contains_pc_name(&names, nm.as_str()) {
                        names.push(nm.clone());
                    }
                    proof {
                        let pre = pc_names_of_entries(entries@.take(i as int));
                        let post = pc_names_of_entries(entries@.take(i + 1));
                        assert(post =~= pre.push(entries@[i as int].property_catalogue->0));
                        assert(post.drop_last() =~= pre);
                    }
                },
                None => {
                    assert(pc_names_of_entries(entries@.take(i + 1)) =~= pc_names_of_entries(
                        entries@.take(i as int),
                    ));
                },
            }
            i = i + 1;
        }
        assert(entries@.take(n as int) =~= entries@);
        let ghost names0 = names@;
        let mut names = names;
        let mut out: Vec<Requirement> = Vec::new();
        let m = names.len();
        let mut i: usize = 0;
        while i < m
            invariant
                i <= m,
                names0.len() == m,
                names@.len() == m - i,
                names@ =~= names0.skip(i as int),
                out@ =~= names0.take(i as int).map(|k: int, nm: String| resolve_pc_req(*all, nm)),
            decreases m - i,
        {
            proof {
                assert(names0.skip(i as int)[0] == names0[i as int]);
            }
            let nm = names.remove(0);
            let req = match all.find_property_catalogue(nm.as_str()) {
                Some(p) => Requirement::PropertyCatalogue(
                    ResolvedRef {
                        name: p.get_name(),
                        revision: p.get_revision(),
                        system: p.is_system_library_content(),
                    },
                ),
                None => Requirement::ExternalPropertyCatalogue(nm),
            };
            assert(req == resolve_pc_req(*all, names0[i as int]));
            out.push(req);
            proof {
                assert(names@ =~= names0.skip(i + 1));
                assert(out@ =~= names0.take(i + 1).map(
                    |k: int, nm: String| resolve_pc_req(*all, nm),
                ));
            }
            i = i + 1;
        }
        assert(names0.take(m as int) =~= names0);
        sort(&mut out);
        out
    }

    /// The catalogue's fixed one-line description.
    pub fn to_listed_string(&self) -> (r: String)
        ensures
            r@ == crate::model::listed_display_spec(
                "Datenkatalog"@,
                self.is_system_spec(),
                self.name@,
                self.revision,
            ),
    {
        let sys = self.is_system_library_content();
        crate::model::listed_display("Datenkatalog", sys, self.name.as_str(), self.revision)
    }
}

fn contains_pc_name(v: &Vec<String>, name: &str) -> (r: bool)
    ensures
        r == crate::model::form::contains_name(v@, name@),
{
    let n = v.len();
    let mut i: usize = 0;
    while i < n
        invariant
            i <= n,
            n == v@.len(),
            forall|j: int| 0 <= j < i ==> (#[trigger] v@[j])@ != name@,
        decreases n - i,
    {
        if crate::text::str_eq(v[i].as_str(), name) {
            return true;
        }
        i = i + 1;
    }
    false
}

impl Sortable for DataCatalogue {
    open spec fn le_spec(self, other: Self) -> bool {
        lex_leq(self.name@, other.name@)
    }

    fn le(&self, other: &Self) -> (r: bool) {
        crate::text::str_leq(self.name.as_str(), other.name.as_str())
    }
}

} // verus!
