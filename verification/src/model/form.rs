//! Forms and subforms: one generic record, tagged at the type level with
//! the collection it belongs to.

use core::marker::PhantomData;

use vstd::prelude::*;

use crate::checks::{notice_views, CheckNotice, NoticeSpec};
use crate::model::onkostar_editor::OnkostarEditor;
use crate::model::other::Entry;
use crate::model::requirements::{Requirement, ResolvedRef};
use crate::model::{
    is_system_library_spec, Ansichten, Entries, Haeufigkeiten, Kennzahlen, MenuCategory, Ordner,
    PlausibilityRule, PlausibilityRules, PunkteKategorien, Script,
};
use crate::profile::Profile;
use crate::sorting::{sort, sort_le, Sortable};
use crate::text::lex_leq;

verus! {

/// Marks a form of the main form collection.
pub struct DataFormType;

/// Marks a subform.
pub struct UnterformularType;

/// Marks a minimal form record standing for a referenced form.
pub struct DataFormReferenceType;

/// The names of the data catalogues a form draws on.
pub struct DataCatalogues {
    pub data_catalogue: Vec<String>,
}

/// The entry names a plausibility rule watches.
pub struct DataFormEntries {
    pub entry_name: Option<Vec<String>>,
}

/// A form or subform: the document's central entity.
pub struct Form<Type> {
    pub _type: PhantomData<Type>,
    pub data_catalogues: Option<DataCatalogues>,
    pub category: String,
    pub name: String,
    pub version: Option<String>,
    pub menu_entry: Option<String>,
    pub title: Option<String>,
    pub description: Option<String>,
    pub note: Option<String>,
    pub readonly: bool,
    pub active: Option<bool>,
    pub tudok_position: String,
    pub aktenbereich: Option<String>,
    pub befragung_relevant: Option<bool>,
    pub hotkey: Option<String>,
    pub summary: Option<String>,
    pub big_summary: Option<String>,
    pub kalender_schnipsel: Option<String>,
    pub mail_template: Option<String>,
    pub erkrankung_text: Option<String>,
    pub erkrankung_text_long: Option<String>,
    pub erkrankung_prozedur_text: Option<String>,
    pub erkrankung_summary: Option<String>,
    pub erkrankung_big_summary: Option<String>,
    pub kontext: Option<i32>,
    pub datenart: Option<String>,
    pub show_history_button: Option<bool>,
    pub tudok_readonly: Option<bool>,
    pub vitalstatus_relevant: Option<bool>,
    pub auto_nummerierung: Option<bool>,
    pub zwischenspeichern: Option<bool>,
    pub zurueckblaettern: Option<bool>,
    pub datenbankexport: Option<bool>,
    pub datenschutz_relevant: Option<bool>,
    pub konferenz_relevant: Option<bool>,
    pub drucken: Option<String>,
    pub hat_unterformulare: bool,
    pub script_beim_schliessen: Option<Script>,
    pub script_beim_speichern: Option<Script>,
    pub script_beim_neuanlegen: Option<Script>,
    pub script_beim_bearbeiten: Option<Script>,
    pub script_beim_kopieren: Option<Script>,
    pub script_beim_import: Option<Script>,
    pub script_beim_anonymisieren: Option<Script>,
    pub sid: String,
    pub guid: String,
    pub revision: u16,
    pub max_anzahl: Option<u16>,
    pub verknuepft_guid: Option<String>,
    pub seitenanzahl_sichtbar: Option<bool>,
    pub entries: Option<Entries<Entry>>,
    pub plausibility_rules: Option<PlausibilityRules<DataFormEntries>>,
    pub haeufigkeiten: Option<Haeufigkeiten>,
    pub kennzahlen: Option<Kennzahlen>,
    pub ordner: Option<Ordner>,
    pub menu_category: Option<MenuCategory>,
    pub punkte_kategorien: Option<PunkteKategorien>,
    pub ansichten: Option<Ansichten>,
}

impl<Type> Form<Type> {
    /// The library folder the form is filed under; empty when it has none.
    pub open spec fn folder_spec(&self) -> Seq<char> {
        match self.ordner {
            Some(o) => o.bibliothek.name@,
            None => Seq::<char>::empty(),
        }
    }

    /// Whether the form is vendor-shipped system-library content.
    pub open spec fn is_system_spec(&self) -> bool {
        is_system_library_spec(self.folder_spec())
    }

    /// Whether an entry of kind `kind` references an entity named `name`,
    /// by exact match of the stored reference.
    pub open spec fn requires_ref_spec(&self, kind: Seq<char>, name: Seq<char>) -> bool {
        match self.entries {
            Some(es) => exists|i: int|
                0 <= i < es.entry@.len() && (#[trigger] es.entry@[i]).type_@ == kind && (
                es.entry@[i].referenced_data_form matches Some(n) && n@ == name),
            None => false,
        }
    }

    /// The pairwise ordering pressure between two forms: equal names or
    /// system-library content give no pressure; a form sorts after any form
    /// it references or embeds.
    pub open spec fn compare_spec(a: Self, b: Self) -> core::cmp::Ordering {
        if a.name@ == b.name@ || a.is_system_spec() || b.is_system_spec() {
            core::cmp::Ordering::Equal
        } else if a.requires_ref_spec("formReference"@, b.name@) || a.requires_ref_spec(
            "subform"@,
            b.name@,
        ) {
            core::cmp::Ordering::Greater
        } else {
            core::cmp::Ordering::Less
        }
    }

    /// The form's library folder name.
    pub fn get_library_folder(&self) -> (r: String)
        ensures
            r@ == self.folder_spec(),
    {
        match &self.ordner {
            Some(o) => o.bibliothek.name.clone(),
            None => String::new(),
        }
    }

    /// Whether the form is system-library content, which exempts it from
    /// reordering, validation and stripping pressure.
    pub fn is_system_library_content(&self) -> (r: bool)
        ensures
            r == self.is_system_spec(),
    {
        let folder = self.get_library_folder();
        let r = crate::text::str_eq(folder.as_str(), "ONKOSTAR Bibliothek");
        r
    }

    /// The form's name.
    pub fn get_name(&self) -> (r: String)
        ensures
            r == self.name,
    {
        self.name.clone()
    }

    /// The form's revision.
    pub fn get_revision(&self) -> (r: u16)
        ensures
            r == self.revision,
    {
        self.revision
    }

    /// The key under which the form sorts when names alone decide.
    pub fn sorting_key(&self) -> (r: String)
        ensures
            r@ == self.name@,
    {
        self.name.clone()
    }

    /// Whether an entry of kind `formReference` references `name`.
    pub fn requires_form_reference(&self, name: &str) -> (r: bool)
        ensures
            r == self.requires_ref_spec("formReference"@, name@),
    {
        self.requires_entry_of_kind("formReference", name)
    }

    /// Whether an entry of kind `subform` references `name`.
    pub fn requires_subform(&self, name: &str) -> (r: bool)
        ensures
            r == self.requires_ref_spec("subform"@, name@),
    {
        self.requires_entry_of_kind("subform", name)
    }

    fn requires_entry_of_kind(&self, kind: &str, name: &str) -> (r: bool)
        ensures
            r == self.requires_ref_spec(kind@, name@),
    {
        match &self.entries {
            Some(es) => {
                let n = es.entry.len();
                let mut i: usize = 0;
                while i < n
                    invariant
                        i <= n,
                        n == es.entry@.len(),
                        self.entries == Some(*es),
                        forall|j: int|
                            0 <= j < i ==> !((#[trigger] es.entry@[j]).type_@ == kind@ && (
                            es.entry@[j].referenced_data_form matches Some(m) && m@ == name@)),
                    decreases n - i,
                {
                    let e = &es.entry[i];
                    if crate::text::str_eq(e.type_.as_str(), kind) {
                        match &e.referenced_data_form {
                            Some(m) => {
                                if crate::text::str_eq(m.as_str(), name) {
                                    assert((#[trigger] es.entry@[i as int]).type_@ == kind@ && (
                                    es.entry@[i as int].referenced_data_form matches Some(mm)
                                        && mm@ == name@));
                                    return true;
                                }
                            },
                            None => {},
                        }
                    }
                    i = i + 1;
                }
                false
            },
            None => false,
        }
    }

    /// The local dependency comparator the form collections are ordered by:
    /// never reorders system-library content or same-named forms, and sorts
    /// a form after anything it references or embeds.
    pub fn compare_by_requirement(a: &Self, b: &Self) -> (r: core::cmp::Ordering)
        ensures
            r == Self::compare_spec(*a, *b),
    {
        if crate::text::str_eq(a.name.as_str(), b.name.as_str()) || a.is_system_library_content()
            || b.is_system_library_content() {
            return core::cmp::Ordering::Equal;
        }
        let b_name = b.get_name();
        if a.requires_form_reference(b_name.as_str()) || a.requires_subform(b_name.as_str()) {
            return core::cmp::Ordering::Greater;
        }
        core::cmp::Ordering::Less
    }
}

impl<Type> Sortable for Form<Type> {
    /// A form sorts no later than another when the comparator yields no
    /// "after" pressure.
    open spec fn le_spec(self, other: Self) -> bool {
        Self::compare_spec(self, other) != core::cmp::Ordering::Greater
    }

    fn le(&self, other: &Self) -> (r: bool) {
        let c = Self::compare_by_requirement(self, other);
        !matches!(c, core::cmp::Ordering::Greater)
    }
}

/// How a plausibility rule looks once its entry-name list is in canonical
/// order.
pub open spec fn rule_sorted_rel(
    a: PlausibilityRule<DataFormEntries>,
    b: PlausibilityRule<DataFormEntries>,
) -> bool {
    &&& b == (PlausibilityRule { data_form_entries: b.data_form_entries, ..a })
    &&& match a.data_form_entries.entry_name {
        Some(v) => b.data_form_entries.entry_name matches Some(bv) && bv@ == sort_le(v@),
        None => b.data_form_entries.entry_name is None,
    }
}

/// How a form entry list looks once sorted by name with each entry's own
/// lists sorted.
pub open spec fn entries_sorted_rel(a: Seq<Entry>, b: Seq<Entry>) -> bool {
    &&& b.len() == sort_le(a).len()
    &&& forall|i: int|
        0 <= i < b.len() ==> crate::model::other::entry_sorted_rel(
            #[trigger] sort_le(a)[i],
            b[i],
        )
}

/// How a rule list looks once sorted by designation with each rule's
/// entry-name list sorted.
pub open spec fn rules_sorted_rel(
    a: Seq<PlausibilityRule<DataFormEntries>>,
    b: Seq<PlausibilityRule<DataFormEntries>>,
) -> bool {
    &&& b.len() == sort_le(a).len()
    &&& forall|i: int| 0 <= i < b.len() ==> rule_sorted_rel(#[trigger] sort_le(a)[i], b[i])
}

/// How a form looks once all its nested collections are in canonical order;
/// everything outside those lists is untouched.
pub open spec fn form_sorted_rel<Type>(a: Form<Type>, b: Form<Type>) -> bool {
    &&& b == (Form {
        data_catalogues: b.data_catalogues,
        entries: b.entries,
        plausibility_rules: b.plausibility_rules,
        ..a
    })
    &&& match a.data_catalogues {
        Some(dc) => b.data_catalogues matches Some(bdc) && bdc.data_catalogue@ == sort_le(
            dc.data_catalogue@,
        ),
        None => b.data_catalogues is None,
    }
    &&& match a.entries {
        Some(es) => b.entries matches Some(bes) && entries_sorted_rel(es.entry@, bes.entry@),
        None => b.entries is None,
    }
    &&& match a.plausibility_rules {
        Some(pr) => b.plausibility_rules matches Some(bpr) && (match pr.plausibility_rule {
            Some(rules) => bpr.plausibility_rule matches Some(brules) && rules_sorted_rel(
                rules@,
                brules@,
            ),
            None => bpr.plausibility_rule is None,
        }),
        None => b.plausibility_rules is None,
    }
}

impl<Type> Form<Type> {
    /// Brings the form's nested collections into canonical order: catalogue
    /// names, entries by name (each with its own lists sorted), and
    /// plausibility rules by designation.
    pub fn sorted(&mut self)
        ensures
            form_sorted_rel(*old(self), *final(self)),
    {
        let dc = self.data_catalogues.take();
        match dc {
            Some(mut dcs) => {
                sort(&mut dcs.data_catalogue);
                self.data_catalogues = Some(dcs);
            },
            None => {},
        }
        let entries = self.entries.take();
        match entries {
            Some(es) => {
                let Entries { entry } = es;
                let mut v = entry;
                sort(&mut v);
                let ghost sorted_entries = v@;
                let n = v.len();
                let mut out: Vec<Entry> = Vec::new();
                let mut i: usize = 0;
                assert(v@ =~= sorted_entries.skip(0));
                while i < n
                    invariant
                        i <= n,
                        sorted_entries.len() == n,
                        v@.len() == n - i,
                        out@.len() == i,
                        v@ =~= sorted_entries.skip(i as int),
                        forall|j: int|
                            0 <= j < i ==> crate::model::other::entry_sorted_rel(
                                #[trigger] sorted_entries[j],
                                out@[j],
                            ),
                    decreases n - i,
                {
                    proof {
                        assert(sorted_entries.skip(i as int)[0] == sorted_entries[i as int]);
                    }
                    let mut e = v.remove(0);
                    assert(e == sorted_entries[i as int]);
                    e.sorted();
                    out.push(e);
                    assert(v@ =~= sorted_entries.skip(i + 1));
                    i = i + 1;
                }
                self.entries = Some(Entries { entry: out });
            },
            None => {},
        }
        let rules_opt = self.plausibility_rules.take();
        match rules_opt {
            Some(pr) => {
                let PlausibilityRules { plausibility_rule } = pr;
                let new_rules = match plausibility_rule {
                    Some(mut rules) => {
                        sort(&mut rules);
                        let ghost sorted_rules = rules@;
                        let n = rules.len();
                        let mut out: Vec<PlausibilityRule<DataFormEntries>> = Vec::new();
                        let mut i: usize = 0;
                        assert(rules@ =~= sorted_rules.skip(0));
                        while i < n
                            invariant
                                i <= n,
                                sorted_rules.len() == n,
                                rules@.len() == n - i,
                                out@.len() == i,
                                rules@ =~= sorted_rules.skip(i as int),
                                forall|j: int|
                                    0 <= j < i ==> rule_sorted_rel(
                                        #[trigger] sorted_rules[j],
                                        out@[j],
                                    ),
                            decreases n - i,
                        {
                            proof {
                                assert(sorted_rules.skip(i as int)[0] == sorted_rules[
                                    i as int]);
                            }
                            let mut rule = rules.remove(0);
                            assert(rule == sorted_rules[i as int]);
                            let names = rule.data_form_entries.entry_name.take();
                            match names {
                                Some(mut names_v) => {
                                    sort(&mut names_v);
                                    rule.data_form_entries.entry_name = Some(names_v);
                                },
                                None => {},
                            }
                            out.push(rule);
                            assert(rules@ =~= sorted_rules.skip(i + 1));
                            i = i + 1;
                        }
                        Some(out)
                    },
                    None => None,
                };
                self.plausibility_rules = Some(PlausibilityRules { plausibility_rule: new_rules });
            },
            None => {},
        }
    }
}

impl Form<DataFormType> {
    /// The form's fixed one-line description.
    pub fn to_listed_string(&self) -> (r: String)
        ensures
            r@ == crate::model::listed_display_spec(
                "Formular"@,
                self.is_system_spec(),
                self.name@,
                self.revision,
            ),
    {
        let sys = self.is_system_library_content();
        crate::model::listed_display("Formular", sys, self.name.as_str(), self.revision)
    }
}

impl Form<UnterformularType> {
    /// The subform's fixed one-line description.
    pub fn to_listed_string(&self) -> (r: String)
        ensures
            r@ == crate::model::listed_display_spec(
                "Unterformular"@,
                self.is_system_spec(),
                self.name@,
                self.revision,
            ),
    {
        let sys = self.is_system_library_content();
        crate::model::listed_display("Unterformular", sys, self.name.as_str(), self.revision)
    }
}

impl Form<DataFormReferenceType> {
    /// Create a new minimal form reference with given form name.
    pub fn new_form_reference(reference_name: &str) -> (r: Self)
        ensures
            r.name@ == reference_name@,
            r.category@ == "0"@,
            r.tudok_position@ == "0"@,
            r.sid@ == "2001"@,
            r.guid@ == "00000000-0000-0000-0000-000000000000"@,
            r.revision == 1,
            !r.readonly,
            !r.hat_unterformulare,
            r.data_catalogues is None,
            r.entries is None,
            r.plausibility_rules is None,
            r.ordner is None,
            r.menu_category is None,
    {
        Form {
            _type: PhantomData,
            data_catalogues: None,
            category: String::from_str("0"),
            name: reference_name.to_owned(),
            version: None,
            menu_entry: None,
            title: None,
            description: None,
            note: None,
            readonly: false,
            active: None,
            tudok_position: String::from_str("0"),
            aktenbereich: None,
            befragung_relevant: None,
            hotkey: None,
            summary: None,
            big_summary: None,
            kalender_schnipsel: None,
            mail_template: None,
            erkrankung_text: None,
            erkrankung_text_long: None,
            erkrankung_prozedur_text: None,
            erkrankung_summary: None,
            erkrankung_big_summary: None,
            kontext: None,
            datenart: None,
            show_history_button: None,
            tudok_readonly: None,
            vitalstatus_relevant: None,
            auto_nummerierung: None,
            zwischenspeichern: None,
            zurueckblaettern: None,
            datenbankexport: None,
            datenschutz_relevant: None,
            konferenz_relevant: None,
            drucken: None,
            hat_unterformulare: false,
            script_beim_schliessen: None,
            script_beim_speichern: None,
            script_beim_neuanlegen: None,
            script_beim_bearbeiten: None,
            script_beim_kopieren: None,
            script_beim_import: None,
            script_beim_anonymisieren: None,
            sid: String::from_str("2001"),
            guid: String::from_str("00000000-0000-0000-0000-000000000000"),
            revision: 1,
            max_anzahl: None,
            verknuepft_guid: None,
            seitenanzahl_sichtbar: None,
            entries: None,
            plausibility_rules: None,
            haeufigkeiten: None,
            kennzahlen: None,
            ordner: None,
            menu_category: None,
            punkte_kategorien: None,
            ansichten: None,
        }
    }
}

/// Whether `s` holds a string reading `name`.
pub open spec fn contains_name(s: Seq<String>, name: Seq<char>) -> bool {
    exists|i: int| 0 <= i < s.len() && (#[trigger] s[i])@ == name
}

/// `names` with later repetitions of a reading removed: the first
/// occurrence of each name survives, in order.
pub open spec fn distinct_names(names: Seq<String>) -> Seq<String>
    decreases names.len(),
{
    if names.len() == 0 {
        names
    } else {
        let d = distinct_names(names.drop_last());
        if contains_name(d, names.last()@) {
            d
        } else {
            d.push(names.last())
        }
    }
}

/// The referenced form names of the entries of kind `kind`, in entry
/// order.
pub open spec fn kind_names(entries: Seq<Entry>, kind: Seq<char>) -> Seq<String>
    decreases entries.len(),
{
    if entries.len() == 0 {
        Seq::<String>::empty()
    } else {
        kind_names(entries.drop_last(), kind) + (if entries.last().type_@ == kind && (
        entries.last().referenced_data_form matches Some(n)) {
            seq![entries.last().referenced_data_form->0]
        } else {
            Seq::<String>::empty()
        })
    }
}

/// The form names the entries' multi-valued reference blocks carry, in
/// order and without deduplication.
pub open spec fn new_ref_names(entries: Seq<Entry>) -> Seq<String>
    decreases entries.len(),
{
    if entries.len() == 0 {
        Seq::<String>::empty()
    } else {
        new_ref_names(entries.drop_last()) + (match entries.last().data_form_references {
            Some(r) => r.referenced_data_form@.map(
                |i: int, f: Form<DataFormReferenceType>| f.name,
            ),
            None => Seq::<String>::empty(),
        })
    }
}

/// The snapshot a requirement keeps of the form it resolved to.
pub open spec fn resolved_of_form<Type>(f: Form<Type>) -> ResolvedRef {
    ResolvedRef { name: f.name, revision: f.revision, system: f.is_system_spec() }
}

/// A requirement list with later requirements of an already seen
/// resolution name removed, provided they follow it directly.
pub open spec fn dedup_reqs(s: Seq<Requirement>) -> Seq<Requirement>
    decreases s.len(),
{
    if s.len() <= 1 {
        s
    } else {
        dedup_reqs(s.drop_last()) + (if s.last().key_spec() == s[s.len() - 2].key_spec() {
            Seq::<Requirement>::empty()
        } else {
            seq![s.last()]
        })
    }
}

/// How a catalogue name resolves: to the first data catalogue of that
/// name, else to an external requirement.
pub open spec fn resolve_catalogue_req(all: OnkostarEditor, name: String) -> Requirement {
    match all.find_dc_spec(name@) {
        Some(i) => Requirement::DataCatalogue(
            crate::model::data_catalogue::resolved_of_dc(all.editor.data_catalogue@[i]),
        ),
        None => Requirement::ExternalDataCatalogue(name),
    }
}

/// How a referenced form name resolves: first among the forms, then among
/// the subforms, else externally.
pub open spec fn resolve_form_ref(all: OnkostarEditor, name: String) -> Requirement {
    match all.find_df_spec(name@) {
        Some(i) => Requirement::DataFormReference(resolved_of_form(all.editor.data_form@[i])),
        None => match all.find_uf_spec(name@) {
            Some(i) => Requirement::UnterformularReference(
                resolved_of_form(all.editor.unterformular@[i]),
            ),
            None => Requirement::ExternalDataFormReference(name),
        },
    }
}

/// How an embedded subform name resolves: first among the forms, then
/// among the subforms, else externally.
pub open spec fn resolve_form_sub(all: OnkostarEditor, name: String) -> Requirement {
    match all.find_df_spec(name@) {
        Some(i) => Requirement::DataFormSubform(resolved_of_form(all.editor.data_form@[i])),
        None => match all.find_uf_spec(name@) {
            Some(i) => Requirement::UnterformularSubform(
                resolved_of_form(all.editor.unterformular@[i]),
            ),
            None => Requirement::ExternalUnterformularSubform(name),
        },
    }
}

impl<Type> Form<Type> {
    /// The distinct data catalogue names the form draws on.
    pub open spec fn cat_names_spec(&self) -> Seq<String> {
        match self.data_catalogues {
            Some(dc) => distinct_names(dc.data_catalogue@),
            None => Seq::<String>::empty(),
        }
    }

    /// The form-reference names the form resolves: the distinct single
    /// references followed by every multi-valued reference.
    pub open spec fn ref_names_spec(&self) -> Seq<String> {
        match self.entries {
            Some(es) => distinct_names(kind_names(es.entry@, "formReference"@)) + new_ref_names(
                es.entry@,
            ),
            None => Seq::<String>::empty(),
        }
    }

    /// The distinct subform names the form embeds.
    pub open spec fn sub_names_spec(&self) -> Seq<String> {
        match self.entries {
            Some(es) => distinct_names(kind_names(es.entry@, "subform"@)),
            None => Seq::<String>::empty(),
        }
    }

    /// Everything the form requires: its catalogues, its form references
    /// and its embedded subforms, each group resolved against the document
    /// and sorted by resolution name, the references deduplicated.
    pub open spec fn required_spec(f: Self, all: OnkostarEditor) -> Seq<Requirement> {
        sort_le(f.cat_names_spec().map(|i: int, n: String| resolve_catalogue_req(all, n)))
            + dedup_reqs(
            sort_le(f.ref_names_spec().map(|i: int, n: String| resolve_form_ref(all, n))),
        ) + sort_le(f.sub_names_spec().map(|i: int, n: String| resolve_form_sub(all, n)))
    }

    /// Resolves and returns everything the form requires, ordered
    /// deterministically by resolution name within each group.
    pub fn get_required_entries(&self, all: &OnkostarEditor) -> (r: Vec<Requirement>)
        ensures
            r@ == Self::required_spec(*self, *all),
    {
        let cat_names = match &self.data_catalogues {
            Some(dc) => collect_distinct(&dc.data_catalogue),
            None => Vec::new(),
        };
        assert(cat_names@ == self.cat_names_spec());
        let mut result = resolve_catalogues(all, cat_names);
        sort(&mut result);

        let mut ref_names: Vec<String> = match &self.entries {
            Some(es) => collect_kind_names(&es.entry, "formReference"),
            None => Vec::new(),
        };
        match &self.entries {
            Some(es) => {
                let mut more = collect_new_ref_names(&es.entry);
                ref_names.append(&mut more);
            },
            None => {},
        }
        assert(ref_names@ == self.ref_names_spec());
        let mut refs = resolve_refs(all, ref_names);
        sort(&mut refs);
        let mut refs = dedup_requirements(refs);
        result.append(&mut refs);

        let sub_names = match &self.entries {
            Some(es) => collect_kind_names(&es.entry, "subform"),
            None => Vec::new(),
        };
        assert(sub_names@ == self.sub_names_spec());
        let mut subs = resolve_subs(all, sub_names);
        sort(&mut subs);
        result.append(&mut subs);
        result
    }
}

/// Whether `v` holds a string reading `name`.
fn contains_str(v: &Vec<String>, name: &str) -> (r: bool)
    ensures
        r == contains_name(v@, name@),
{
    let n = v.len();
    let mut i: usize = 0;
    while i < n
        invariant
            i <= n,
            n == v@.len(),
            forall|j: int| 0 <= j < i ==> (#[trigger] v@[j])@ != name@,
        decreases n - i,
    {
        if crate::text::str_eq(v[i].as_str(), name) {
            return true;
        }
        i = i + 1;
    }
    false
}

/// Collects the distinct readings of a name list, first occurrences
/// first.
fn collect_distinct(names: &Vec<String>) -> (r: Vec<String>)
    ensures
        r@ == distinct_names(names@),
{
    let n = names.len();
    let mut out: Vec<String> = Vec::new();
    let mut i: usize = 0;
    assert(names@.take(0) =~= Seq::<String>::empty());
    while i < n
        invariant
            i <= n,
            n == names@.len(),
            out@ == distinct_names(names@.take(i as int)),
        decreases n - i,
    {
        proof {
            assert(names@.take(i + 1).drop_last() =~= names@.take(i as int));
            assert(names@.take(i + 1).last() == names@[i as int]);
        }
        let nm = &names[i];
        if !contains_str(&out, nm.as_str()) {
            out.push(nm.clone());
        }
        i = i + 1;
    }
    assert(names@.take(n as int) =~= names@);
    out
}

/// Collects the distinct referenced names of the entries of kind `kind`.
fn collect_kind_names(entries: &Vec<Entry>, kind: &str) -> (r: Vec<String>)
    ensures
        r@ == distinct_names(kind_names(entries@, kind@)),
{
    let n = entries.len();
    let mut out: Vec<String> = Vec::new();
    let mut i: usize = 0;
    assert(entries@.take(0) =~= Seq::<Entry>::empty());
    while i < n
        invariant
            i <= n,
            n == entries@.len(),
            out@ == distinct_names(kind_names(entries@.take(i as int), kind@)),
        decreases n - i,
    {
        proof {
            assert(entries@.take(i + 1).drop_last() =~= entries@.take(i as int));
            assert(entries@.take(i + 1).last() == entries@[i as int]);
        }
        let e = &entries[i];
        if crate::text::str_eq(e.type_.as_str(), kind) {
            match &e.referenced_data_form {
                Some(nm) => {
                    if !contains_str(&out, nm.as_str()) {
                        out.push(nm.clone());
                    }
                },
                None => {},
            }
        }
        proof {
            let pre = kind_names(entries@.take(i as int), kind@);
            let post = kind_names(entries@.take(i + 1), kind@);
            if entries@[i as int].type_@ == kind@ && (entries@[
                i as int].referenced_data_form matches Some(nm)) {
                assert(post =~= pre.push(entries@[i as int].referenced_data_form->0));
                assert(post.drop_last() =~= pre);
            } else {
                assert(post =~= pre);
            }
        }
        i = i + 1;
    }
    assert(entries@.take(n as int) =~= entries@);
    out
}

/// Collects every form name of the entries' multi-valued reference
/// blocks.
fn collect_new_ref_names(entries: &Vec<Entry>) -> (r: Vec<String>)
    ensures
        r@ == new_ref_names(entries@),
{
    let n = entries.len();
    let mut out: Vec<String> = Vec::new();
    let mut i: usize = 0;
    assert(entries@.take(0) =~= Seq::<Entry>::empty());
    while i < n
        invariant
            i <= n,
            n == entries@.len(),
            out@ == new_ref_names(entries@.take(i as int)),
        decreases n - i,
    {
        proof {
            assert(entries@.take(i + 1).drop_last() =~= entries@.take(i as int));
            assert(entries@.take(i + 1).last() == entries@[i as int]);
        }
        let e = &entries[i];
        match &e.data_form_references {
            Some(rdf) => {
                let m = rdf.referenced_data_form.len();
                let mut j: usize = 0;
                let ghost forms = rdf.referenced_data_form@;
                let ghost names = forms.map(|k: int, f: Form<DataFormReferenceType>| f.name);
                let ghost base = out@;
                while j < m
                    invariant
                        j <= m,
                        m == forms.len(),
                        names == forms.map(|k: int, f: Form<DataFormReferenceType>| f.name),
                        rdf.referenced_data_form@ == forms,
                        out@ == base + names.take(j as int),
                    decreases m - j,
                {
                    let f = &rdf.referenced_data_form[j];
                    out.push(f.name.clone());
                    assert(out@ =~= base + names.take(j + 1));
                    j = j + 1;
                }
                assert(names.take(m as int) =~= names);
                assert(out@ =~= new_ref_names(entries@.take(i + 1)));
            },
            None => {
                assert(out@ =~= new_ref_names(entries@.take(i + 1)));
            },
        }
        i = i + 1;
    }
    assert(entries@.take(n as int) =~= entries@);
    out
}

fn resolve_catalogues(all: &OnkostarEditor, names: Vec<String>) -> (r: Vec<Requirement>)
    ensures
        r@ == names@.map(|i: int, n: String| resolve_catalogue_req(*all, n)),
{
    let ghost names0 = names@;
    let mut names = names;
    let mut out: Vec<Requirement> = Vec::new();
    let n = names.len();
    let mut i: usize = 0;
    while i < n
        invariant
            i <= n,
            names0.len() == n,
            names@.len() == n - i,
            names@ =~= names0.skip(i as int),
            out@ =~= names0.take(i as int).map(|k: int, m: String| resolve_catalogue_req(*all, m)),
        decreases n - i,
    {
        proof {
            assert(names0.skip(i as int)[0] == names0[i as int]);
        }
        let nm = names.remove(0);
        let req = match all.find_data_catalogue(nm.as_str()) {
            Some(dc) => Requirement::DataCatalogue(
                ResolvedRef {
                    name: dc.get_name(),
                    revision: dc.get_revision(),
                    system: dc.is_system_library_content(),
                },
            ),
            None => Requirement::ExternalDataCatalogue(nm),
        };
        assert(req == resolve_catalogue_req(*all, names0[i as int]));
        out.push(req);
        proof {
            assert(names@ =~= names0.skip(i + 1));
            assert(out@ =~= names0.take(i + 1).map(
                |k: int, m: String| resolve_catalogue_req(*all, m),
            ));
        }
        i = i + 1;
    }
    assert(names0.take(n as int) =~= names0);
    out
}

fn resolve_refs(all: &OnkostarEditor, names: Vec<String>) -> (r: Vec<Requirement>)
    ensures
        r@ == names@.map(|i: int, n: String| resolve_form_ref(*all, n)),
{
    let ghost names0 = names@;
    let mut names = names;
    let mut out: Vec<Requirement> = Vec::new();
    let n = names.len();
    let mut i: usize = 0;
    while i < n
        invariant
            i <= n,
            names0.len() == n,
            names@.len() == n - i,
            names@ =~= names0.skip(i as int),
            out@ =~= names0.take(i as int).map(|k: int, m: String| resolve_form_ref(*all, m)),
        decreases n - i,
    {
        proof {
            assert(names0.skip(i as int)[0] == names0[i as int]);
        }
        let nm = names.remove(0);
        let req = match all.find_data_form(nm.as_str()) {
            Some(f) => Requirement::DataFormReference(
                ResolvedRef {
                    name: f.get_name(),
                    revision: f.get_revision(),
                    system: f.is_system_library_content(),
                },
            ),
            None => match all.find_unterformular(nm.as_str()) {
                Some(f) => Requirement::UnterformularReference(
                    ResolvedRef {
                        name: f.get_name(),
                        revision: f.get_revision(),
                        system: f.is_system_library_content(),
                    },
                ),
                None => Requirement::ExternalDataFormReference(nm),
            },
        };
        assert(req == resolve_form_ref(*all, names0[i as int]));
        out.push(req);
        proof {
            assert(names@ =~= names0.skip(i + 1));
            assert(out@ =~= names0.take(i + 1).map(|k: int, m: String| resolve_form_ref(*all, m)));
        }
        i = i + 1;
    }
    assert(names0.take(n as int) =~= names0);
    out
}

fn resolve_subs(all: &OnkostarEditor, names: Vec<String>) -> (r: Vec<Requirement>)
    ensures
        r@ == names@.map(|i: int, n: String| resolve_form_sub(*all, n)),
{
    let ghost names0 = names@;
    let mut names = names;
    let mut out: Vec<Requirement> = Vec::new();
    let n = names.len();
    let mut i: usize = 0;
    while i < n
        invariant
            i <= n,
            names0.len() == n,
            names@.len() == n - i,
            names@ =~= names0.skip(i as int),
            out@ =~= names0.take(i as int).map(|k: int, m: String| resolve_form_sub(*all, m)),
        decreases n - i,
    {
        proof {
            assert(names0.skip(i as int)[0] == names0[i as int]);
        }
        let nm = names.remove(0);
        let req = match all.find_data_form(nm.as_str()) {
            Some(f) => Requirement::DataFormSubform(
                ResolvedRef {
                    name: f.get_name(),
                    revision: f.get_revision(),
                    system: f.is_system_library_content(),
                },
            ),
            None => match all.find_unterformular(nm.as_str()) {
                Some(f) => Requirement::UnterformularSubform(
                    ResolvedRef {
                        name: f.get_name(),
                        revision: f.get_revision(),
                        system: f.is_system_library_content(),
                    },
                ),
                None => Requirement::ExternalUnterformularSubform(nm),
            },
        };
        assert(req == resolve_form_sub(*all, names0[i as int]));
        out.push(req);
        proof {
            assert(names@ =~= names0.skip(i + 1));
            assert(out@ =~= names0.take(i + 1).map(|k: int, m: String| resolve_form_sub(*all, m)));
        }
        i = i + 1;
    }
    assert(names0.take(n as int) =~= names0);
    out
}

/// Removes directly repeated resolution names from a sorted requirement
/// list, keeping the first of each run.
fn dedup_requirements(v: Vec<Requirement>) -> (r: Vec<Requirement>)
    ensures
        r@ == dedup_reqs(v@),
{
    let ghost input = v@;
    let mut v = v;
    let mut out: Vec<Requirement> = Vec::new();
    let n = v.len();
    let mut i: usize = 0;
    let mut prev_key: Option<String> = None;
    while i < n
        invariant
            i <= n,
            input.len() == n,
            v@.len() == n - i,
            v@ =~= input.skip(i as int),
            out@ == dedup_reqs(input.take(i as int)),
            i > 0 ==> (prev_key matches Some(k) && k@ == input[i - 1].key_spec()),
            i == 0 ==> prev_key is None,
        decreases n - i,
    {
        proof {
            assert(input.skip(i as int)[0] == input[i as int]);
            assert(input.take(i + 1).drop_last() =~= input.take(i as int));
            assert(input.take(i + 1).last() == input[i as int]);
            if i > 0 {
                assert(input.take(i + 1)[i - 1] == input[i - 1]);
            }
        }
        let x = v.remove(0);
        let k = x.sorting_key();
        let keep: bool = match &prev_key {
            Some(pk) => !crate::text::str_eq(k.as_str(), pk.as_str()),
            None => true,
        };
        if keep {
            out.push(x);
        }
        prev_key = Some(k);
        proof {
            assert(v@ =~= input.skip(i + 1));
            if i > 0 && input[i as int].key_spec() == input[i - 1].key_spec() {
                assert(out@ =~= dedup_reqs(input.take(i + 1)));
            } else {
                assert(out@ =~= dedup_reqs(input.take(i + 1)));
            }
        }
        i = i + 1;
    }
    assert(input.take(n as int) =~= input);
    out
}

/// Whether any entry carries a procedure date status other than `none`.
pub open spec fn has_procedure_date(es: Seq<Entry>) -> bool {
    exists|i: int| 0 <= i < es.len() && (#[trigger] es[i]).procedure_date_status@ != "none"@
}

/// The quoted names of the form-reference entries that name no target at
/// all, neither inline nor through a multi-valued reference block.
pub open spec fn missing_ref_names(es: Seq<Entry>) -> Seq<Seq<char>>
    decreases es.len(),
{
    if es.len() == 0 {
        Seq::<Seq<char>>::empty()
    } else {
        missing_ref_names(es.drop_last()) + (if es.last().type_@ == "formReference"@
            && es.last().referenced_data_form is None && es.last().data_form_references is None {
            seq!["'"@ + es.last().name@ + "'"@]
        } else {
            Seq::<Seq<char>>::empty()
        })
    }
}

/// Whether any form-reference entry lacks the legacy single-valued
/// target.
pub open spec fn has_legacy_missing(es: Seq<Entry>) -> bool {
    exists|i: int|
        0 <= i < es.len() && (#[trigger] es[i]).type_@ == "formReference"@ && es[
            i].referenced_data_form is None
}

/// The parts joined with a comma and a space.
pub open spec fn join_comma(parts: Seq<Seq<char>>) -> Seq<char>
    decreases parts.len(),
{
    if parts.len() == 0 {
        Seq::<char>::empty()
    } else if parts.len() == 1 {
        parts[0]
    } else {
        join_comma(parts.drop_last()) + ", "@ + parts.last()
    }
}

/// The notices the shared form check yields: a coded error for form
/// references without any target, or a version warning for ones that rely
/// on the legacy single-valued target alone.
pub open spec fn common_check_spec<Type>(f: Form<Type>) -> Seq<NoticeSpec> {
    match f.entries {
        Some(es) => {
            let missing = missing_ref_names(es.entry@);
            (if missing.len() > 0 && has_legacy_missing(es.entry@) {
                seq![
                    NoticeSpec::ErrorWithCode {
                        code: "2024-0005"@,
                        description: "Formular '"@ + f.name@
                            + "' hat Formularverweise ohne Angabe des Formulars in: "@
                            + join_comma(missing),
                        line: None,
                        example: None,
                    },
                ]
            } else {
                Seq::<NoticeSpec>::empty()
            }) + (if missing.len() == 0 && has_legacy_missing(es.entry@) {
                seq![
                    NoticeSpec::Warning {
                        description: "Formular '"@ + f.name@
                            + "' hat Formularverweise, die erst in neueren Onkostar-Versionen ab 2.14.0 funktionieren"@,
                        line: None,
                    },
                ]
            } else {
                Seq::<NoticeSpec>::empty()
            })
        },
        None => Seq::<NoticeSpec>::empty(),
    }
}

/// The notices a form of the main collection yields: a coded error when
/// no entry carries a procedure date, then the shared form check.
pub open spec fn df_check_spec(f: Form<DataFormType>) -> Seq<NoticeSpec> {
    (match f.entries {
        Some(es) => if !has_procedure_date(es.entry@) {
            seq![
                NoticeSpec::ErrorWithCode {
                    code: "2023-0002"@,
                    description: "Formular '"@ + f.name@
                        + "' hat keine Angabe zum Prozedurdatum"@,
                    line: None,
                    example: None,
                },
            ]
        } else {
            Seq::<NoticeSpec>::empty()
        },
        None => Seq::<NoticeSpec>::empty(),
    }) + common_check_spec(f)
}

/// The notices a subform yields: a coded error when it is itself flagged
/// as having subforms, then the shared form check.
pub open spec fn uf_check_spec(f: Form<UnterformularType>) -> Seq<NoticeSpec> {
    (if f.hat_unterformulare {
        seq![
            NoticeSpec::ErrorWithCode {
                code: "2023-0001"@,
                description: "Unterformular '"@ + f.name@
                    + "' mit Markierung 'hat Unterformulare'"@,
                line: None,
                example: None,
            },
        ]
    } else {
        Seq::<NoticeSpec>::empty()
    }) + common_check_spec(f)
}

impl<Type> Form<Type> {
    /// The checks shared by forms and subforms: form references must name
    /// their target, and targets carried only by the legacy single-valued
    /// field depend on the consumer's version.
    pub fn common_check(&self) -> (r: Vec<CheckNotice>)
        ensures
            notice_views(r@) == common_check_spec(*self),
    {
        let mut r: Vec<CheckNotice> = Vec::new();
        match &self.entries {
            Some(es) => {
                let n = es.entry.len();
                let mut missing: Vec<String> = Vec::new();
                let mut legacy: bool = false;
                let mut i: usize = 0;
                assert(es.entry@.take(0) =~= Seq::<Entry>::empty());
                while i < n
                    invariant
                        i <= n,
                        n == es.entry@.len(),
                        missing@.map(|k: int, s: String| s@) == missing_ref_names(
                            es.entry@.take(i as int),
                        ),
                        legacy == has_legacy_missing(es.entry@.take(i as int)),
                    decreases n - i,
                {
                    proof {
                        assert(es.entry@.take(i + 1).drop_last() =~= es.entry@.take(i as int));
                        assert(es.entry@.take(i + 1).last() == es.entry@[i as int]);
                    }
                    let e = &es.entry[i];
                    if crate::text::str_eq(e.type_.as_str(), "formReference") {
                        if e.referenced_data_form.is_none() {
                            legacy = true;
                            proof {
                                assert(es.entry@.take(i + 1)[i as int] == es.entry@[i as int]);
                            }
                            if e.data_form_references.is_none() {
                                let mut q = String::from_str("'");
                                q.append(e.name.as_str());
                                q.append("'");
                                missing.push(q);
                            }
                        }
                    }
                    proof {
                        if legacy {
                            assert(has_legacy_missing(es.entry@.take(i + 1)));
                        }
                        assert(missing@.map(|k: int, s: String| s@) =~= missing_ref_names(
                            es.entry@.take(i + 1),
                        ));
                    }
                    i = i + 1;
                }
                assert(es.entry@.take(n as int) =~= es.entry@);
                if missing.len() > 0 && legacy {
                    let mut joined = String::new();
                    let m = missing.len();
                    let mut j: usize = 0;
                    let ghost parts = missing@.map(|k: int, s: String| s@);
                    while j < m
                        invariant
                            j <= m,
                            m == missing@.len(),
                            parts == missing@.map(|k: int, s: String| s@),
                            joined@ == join_comma(parts.take(j as int)),
                        decreases m - j,
                    {
                        proof {
                            assert(parts.take(j + 1).drop_last() =~= parts.take(j as int));
                            assert(parts.take(j + 1).last() == parts[j as int]);
                        }
                        if j > 0 {
                            joined.append(", ");
                        }
                        joined.append(missing[j].as_str());
                        proof {
                            if j == 0 {
                                assert(parts.take(1).len() == 1);
                                assert(joined@ =~= join_comma(parts.take(1)));
                            } else {
                                assert(joined@ =~= join_comma(parts.take(j + 1)));
                            }
                        }
                        j = j + 1;
                    }
                    assert(parts.take(m as int) =~= parts);
                    let mut description = String::from_str("Formular '");
                    description.append(self.name.as_str());
                    description.append("' hat Formularverweise ohne Angabe des Formulars in: ");
                    description.append(joined.as_str());
                    r.push(
                        CheckNotice::ErrorWithCode {
                            code: String::from_str("2024-0005"),
                            description,
                            line: None,
                            example: None,
                        },
                    );
                }
                if missing.len() == 0 && legacy {
                    let mut description = String::from_str("Formular '");
                    description.append(self.name.as_str());
                    description.append(
                        "' hat Formularverweise, die erst in neueren Onkostar-Versionen ab 2.14.0 funktionieren",
                    );
                    r.push(CheckNotice::Warning { description, line: None });
                }
                proof {
                    let missing_s = missing_ref_names(es.entry@);
                    assert(missing@.map(|k: int, s: String| s@).len() == missing@.len());
                    assert(notice_views(r@) =~= common_check_spec(*self));
                }
            },
            None => {
                assert(notice_views(r@) =~= common_check_spec(*self));
            },
        }
        r
    }
}

impl Form<DataFormType> {
    /// Checks the form against the rule catalogue.
    pub fn check(&self) -> (r: Vec<CheckNotice>)
        ensures
            notice_views(r@) == df_check_spec(*self),
    {
        let mut r: Vec<CheckNotice> = Vec::new();
        match &self.entries {
            Some(es) => {
                let n = es.entry.len();
                let mut found: bool = false;
                let mut i: usize = 0;
                while i < n
                    invariant
                        i <= n,
                        n == es.entry@.len(),
                        found == exists|j: int|
                            0 <= j < i && (#[trigger] es.entry@[j]).procedure_date_status@
                                != "none"@,
                    decreases n - i,
                {
                    let e = &es.entry[i];
                    if !crate::text::str_eq(e.procedure_date_status.as_str(), "none") {
                        found = true;
                        assert((es.entry@[i as int]).procedure_date_status@ != "none"@);
                    }
                    i = i + 1;
                }
                if !found {
                    let mut description = String::from_str("Formular '");
                    description.append(self.name.as_str());
                    description.append("' hat keine Angabe zum Prozedurdatum");
                    r.push(
                        CheckNotice::ErrorWithCode {
                            code: String::from_str("2023-0002"),
                            description,
                            line: None,
                            example: None,
                        },
                    );
                    assert(!has_procedure_date(es.entry@));
                } else {
                    assert(has_procedure_date(es.entry@));
                }
            },
            None => {},
        }
        let mut common = self.common_check();
        let ghost prev = r@;
        let ghost common0 = common@;
        r.append(&mut common);
        proof {
            assert(notice_views(r@) =~= notice_views(prev) + notice_views(common0));
            assert(notice_views(r@) =~= df_check_spec(*self));
        }
        r
    }
}

impl Form<UnterformularType> {
    /// Checks the subform against the rule catalogue.
    pub fn check(&self) -> (r: Vec<CheckNotice>)
        ensures
            notice_views(r@) == uf_check_spec(*self),
    {
        let mut r: Vec<CheckNotice> = Vec::new();
        if self.hat_unterformulare {
            let mut description = String::from_str("Unterformular '");
            description.append(self.name.as_str());
            description.append("' mit Markierung 'hat Unterformulare'");
            r.push(
                CheckNotice::ErrorWithCode {
                    code: String::from_str("2023-0001"),
                    description,
                    line: None,
                    example: None,
                },
            );
        }
        let mut common = self.common_check();
        let ghost prev = r@;
        let ghost common0 = common@;
        r.append(&mut common);
        proof {
            assert(notice_views(r@) =~= notice_views(prev) + notice_views(common0));
            assert(notice_views(r@) =~= uf_check_spec(*self));
        }
        r
    }
}

/// The fields of an entry a profile may touch; everything else keeps its
/// value.
pub open spec fn entry_frame_after_profile(e0: Entry, e1: Entry) -> bool {
    e1 == (Entry {
        referenced_data_form: e1.referenced_data_form,
        anzeige: e1.anzeige,
        anzeige_auswahl: e1.anzeige_auswahl,
        scripts: e1.scripts,
        filter: e1.filter,
        speichern: e1.speichern,
        default_value: e1.default_value,
        ..e0
    })
}

/// What applying a profile may change on a form: its entries (within the
/// per-entry frame, keeping their number and order) and its menu
/// placement; everything else keeps its value.
pub open spec fn form_profile_rel<Type>(a: Form<Type>, b: Form<Type>) -> bool {
    &&& b == (Form { entries: b.entries, menu_category: b.menu_category, ..a })
    &&& match a.entries {
        Some(es) => b.entries matches Some(bes) && bes.entry@.len() == es.entry@.len() && (forall|
            i: int,
        |
            0 <= i < es.entry@.len() ==> entry_frame_after_profile(
                #[trigger] es.entry@[i],
                bes.entry@[i],
            )),
        None => b.entries is None,
    }
}

fn apply_profile_form_to_entry(e: &mut Entry, pf: &crate::profile::Form)
    ensures
        entry_frame_after_profile(*old(e), *final(e)),
{
    let n = pf.form_references.len();
    let mut i: usize = 0;
    while i < n
        invariant
            entry_frame_after_profile(*old(e), *e),
        decreases n - i,
    {
        if i < pf.form_references.len() {
            crate::model::apply_profile_to_form_entry(e, &pf.form_references[i]);
        }
        i = i + 1;
    }
    let m = pf.form_fields.len();
    let mut j: usize = 0;
    while j < m
        invariant
            entry_frame_after_profile(*old(e), *e),
        decreases m - j,
    {
        if j < pf.form_fields.len() {
            crate::model::apply_profile_to_form_field(e, &pf.form_fields[j]);
        }
        j = j + 1;
    }
}

impl<Type> Form<Type> {
    /// Applies every matching overwrite block of the profile to the form's
    /// entries, and takes over the profile's menu placement when the form
    /// has entries to apply it with.
    pub fn apply_profile(&mut self, profile: &Profile)
        ensures
            form_profile_rel(*old(self), *final(self)),
    {
        let n = profile.forms.len();
        let mut p: usize = 0;
        while p < n
            invariant
                form_profile_rel(*old(self), *self),
            decreases n - p,
        {
            if p < profile.forms.len() {
                let ghost mid = *self;
                let pf = &profile.forms[p];
                if crate::text::str_eq(self.name.as_str(), pf.name.as_str()) {
                    let entries_opt = self.entries.take();
                    match entries_opt {
                        Some(es) => {
                            let Entries { entry } = es;
                            let mut v = entry;
                            let ghost v0 = v@;
                            let count = v.len();
                            let mut out: Vec<Entry> = Vec::new();
                            let mut i: usize = 0;
                            assert(v@ =~= v0.skip(0));
                            while i < count
                                invariant
                                    i <= count,
                                    v0.len() == count,
                                    v@.len() == count - i,
                                    out@.len() == i,
                                    v@ =~= v0.skip(i as int),
                                    forall|k: int|
                                        0 <= k < i ==> entry_frame_after_profile(
                                            #[trigger] v0[k],
                                            out@[k],
                                        ),
                                decreases count - i,
                            {
                                proof {
                                    assert(v0.skip(i as int)[0] == v0[i as int]);
                                }
                                let mut e = v.remove(0);
                                assert(e == v0[i as int]);
                                apply_profile_form_to_entry(&mut e, pf);
                                out.push(e);
                                assert(v@ =~= v0.skip(i + 1));
                                i = i + 1;
                            }
                            if out.len() > 0 {
                                match &pf.menu_category {
                                    Some(mc) => {
                                        self.menu_category = Some(
                                            MenuCategory {
                                                name: mc.name.clone(),
                                                position: mc.position.clone(),
                                                column: mc.column.clone(),
                                            },
                                        );
                                    },
                                    None => {},
                                }
                            }
                            self.entries = Some(Entries { entry: out });
                        },
                        None => {},
                    }
                }
                proof {
                    lemma_form_profile_rel_trans(*old(self), mid, *self);
                }
            }
            p = p + 1;
        }
    }
}

proof fn lemma_form_profile_rel_trans<Type>(a: Form<Type>, b: Form<Type>, c: Form<Type>)
    requires
        form_profile_rel(a, b),
        form_profile_rel(b, c),
    ensures
        form_profile_rel(a, c),
{
    match a.entries {
        Some(es) => {
            assert(b.entries is Some);
            assert(c.entries is Some);
            let bes = b.entries->0;
            let ces = c.entries->0;
            assert forall|i: int| 0 <= i < es.entry@.len() implies entry_frame_after_profile(
                #[trigger] es.entry@[i],
                ces.entry@[i],
            ) by {
                assert(entry_frame_after_profile(es.entry@[i], bes.entry@[i]));
                assert(entry_frame_after_profile(bes.entry@[i], ces.entry@[i]));
            }
        },
        None => {},
    }
}

/// System-library neutrality: the dependency comparator reports no
/// ordering pressure whenever either side is system-library content,
/// whatever the two forms reference.
pub proof fn lemma_compare_system_neutral<Type>(a: Form<Type>, b: Form<Type>)
    requires
        a.is_system_spec() || b.is_system_spec(),
    ensures
        Form::compare_spec(a, b) == core::cmp::Ordering::Equal,
{
}

impl<Type> Form<Type> {
    /// A baseline form of the given name: no entries, no catalogues, every
    /// other attribute empty, false or absent. Callers fill in what they
    /// need.
    pub fn with_name(name: String) -> (r: Self)
        ensures
            r.name == name,
            r.revision == 0,
            r.entries is None,
            r.data_catalogues is None,
            r.plausibility_rules is None,
            r.ordner is None,
            r.menu_category is None,
            !r.hat_unterformulare,
            !r.is_system_spec(),
    {
        let r = Form {
            _type: PhantomData,
            data_catalogues: None,
            category: String::new(),
            name,
            version: None,
            menu_entry: None,
            title: None,
            description: None,
            note: None,
            readonly: false,
            active: None,
            tudok_position: String::new(),
            aktenbereich: None,
            befragung_relevant: None,
            hotkey: None,
            summary: None,
            big_summary: None,
            kalender_schnipsel: None,
            mail_template: None,
            erkrankung_text: None,
            erkrankung_text_long: None,
            erkrankung_prozedur_text: None,
            erkrankung_summary: None,
            erkrankung_big_summary: None,
            kontext: None,
            datenart: None,
            show_history_button: None,
            tudok_readonly: None,
            vitalstatus_relevant: None,
            auto_nummerierung: None,
            zwischenspeichern: None,
            zurueckblaettern: None,
            datenbankexport: None,
            datenschutz_relevant: None,
            konferenz_relevant: None,
            drucken: None,
            hat_unterformulare: false,
            script_beim_schliessen: None,
            script_beim_speichern: None,
            script_beim_neuanlegen: None,
            script_beim_bearbeiten: None,
            script_beim_kopieren: None,
            script_beim_import: None,
            script_beim_anonymisieren: None,
            sid: String::new(),
            guid: String::new(),
            revision: 0,
            max_anzahl: None,
            verknuepft_guid: None,
            seitenanzahl_sichtbar: None,
            entries: None,
            plausibility_rules: None,
            haeufigkeiten: None,
            kennzahlen: None,
            ordner: None,
            menu_category: None,
            punkte_kategorien: None,
            ansichten: None,
        };
        proof {
            reveal_strlit("ONKOSTAR Bibliothek");
        }
        assert(r.folder_spec().len() == 0);
        r
    }
}

} // verus!
