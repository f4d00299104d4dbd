//! Property catalogues: versioned code lists with categories and mappings
//! between catalogue versions.

use vstd::prelude::*;

use crate::model::{is_system_library_spec, Ordner};
use crate::sorting::{sort, sort_le, Sortable};
use crate::text::lex_leq;

verus! {

/// A property catalogue of the document.
pub struct PropertyCatalogue {
    pub name: String,
    pub description: Option<String>,
    pub standard: String,
    pub readonly: bool,
    pub anmerkung: Option<String>,
    pub sid: String,
    pub guid: String,
    pub revision: u16,
    pub versions: Versions,
    pub ordner: Ordner,
}

/// The versions of a property catalogue.
pub struct Versions {
    pub entry: Option<Vec<Version>>,
}

/// One version of a property catalogue.
pub struct Version {
    pub version_number: u16,
    pub valid_from: String,
    pub oid: String,
    pub active: bool,
    pub description: String,
    pub lkr_code: Option<String>,
    pub sid: String,
    pub guid: String,
    pub revision: u16,
    pub entries: Option<VersionEntries>,
    pub abbildung: Option<Vec<Abbildung>>,
    pub categories: Option<Categories>,
}

/// The entries of a catalogue version.
pub struct VersionEntries {
    pub content: Vec<VersionEntry>,
}

/// One code of a catalogue version.
pub struct VersionEntry {
    pub code: String,
    pub short_description: String,
    pub description: Option<String>,
    pub synonyms: Option<String>,
    pub note: Option<String>,
    pub type_: Option<String>,
    pub position: String,
}

impl VersionEntry {
    /// The key a version's entry list sorts by.
    pub fn sorting_key(&self) -> (r: String)
        ensures
            r@ == self.code@,
    {
        self.code.clone()
    }
}

impl Sortable for VersionEntry {
    open spec fn le_spec(self, other: Self) -> bool {
        lex_leq(self.code@, other.code@)
    }

    fn le(&self, other: &Self) -> (r: bool) {
        crate::text::str_leq(self.code.as_str(), other.code.as_str())
    }
}

/// The categories of a catalogue version.
pub struct Categories {
    pub content: Vec<Category>,
}

/// One category of a catalogue version.
pub struct Category {
    pub name: String,
    pub position: String,
    pub auswahldialog: bool,
    pub entry_count: u16,
    pub beschreibung: String,
    pub category_entries: CategoryEntries,
}

/// The codes a category groups.
pub struct CategoryEntries {
    pub content: Vec<CategoryEntry>,
}

/// One code of a category.
pub struct CategoryEntry {
    pub code: String,
    pub shortdesc: Option<String>,
    pub description: Option<String>,
    pub synonyms: Option<String>,
    pub note: Option<String>,
}

impl CategoryEntry {
    /// The key a category's entry list sorts by.
    pub fn sorting_key(&self) -> (r: String)
        ensures
            r@ == self.code@,
    {
        self.code.clone()
    }
}

impl Sortable for CategoryEntry {
    open spec fn le_spec(self, other: Self) -> bool {
        lex_leq(self.code@, other.code@)
    }

    fn le(&self, other: &Self) -> (r: bool) {
        crate::text::str_leq(self.code.as_str(), other.code.as_str())
    }
}

/// `b` is `a` with its entry list brought into canonical order.
pub open spec fn category_sorted_rel(a: Category, b: Category) -> bool {
    &&& b == (Category { category_entries: b.category_entries, ..a })
    &&& b.category_entries.content@ == sort_le(a.category_entries.content@)
}

impl Category {
    /// The key a version's category list sorts by.
    pub fn sorting_key(&self) -> (r: String)
        ensures
            r@ == self.name@,
    {
        self.name.clone()
    }

    /// Brings the category's codes into canonical order.
    pub fn sorted(&mut self)
        ensures
            category_sorted_rel(*old(self), *final(self)),
    {
        let mut entries = CategoryEntries { content: Vec::new() };
        core::mem::swap(&mut self.category_entries, &mut entries);
        sort(&mut entries.content);
        self.category_entries = entries;
    }
}

impl Sortable for Category {
    open spec fn le_spec(self, other: Self) -> bool {
        lex_leq(self.name@, other.name@)
    }

    fn le(&self, other: &Self) -> (r: bool) {
        crate::text::str_leq(self.name.as_str(), other.name.as_str())
    }
}

/// A mapping from one catalogue version onto another.
pub struct Abbildung {
    pub ziel_mk_version_oid: String,
    pub content: Vec<AbbildungEintrag>,
}

/// One mapped pair of codes.
pub struct AbbildungEintrag {
    pub entry_from: AbbildungEntry,
    pub entry_to: AbbildungEntry,
}

/// One side of a mapped pair.
pub struct AbbildungEntry {
    pub code: String,
    pub short_description: String,
    pub description: String,
    pub synonyms: Option<String>,
    pub note: Option<String>,
    pub position: String,
}

impl AbbildungEintrag {
    /// The key a mapping's pair list sorts by.
    pub open spec fn key_spec(&self) -> Seq<char> {
        self.entry_from.code@ + "-"@ + self.entry_to.code@
    }

    /// Returns the key this pair sorts by.
    pub fn sorting_key(&self) -> (r: String)
        ensures
            r@ == self.key_spec(),
    {
        let mut k = self.entry_from.code.clone();
        k.append("-");
        k.append(self.entry_to.code.as_str());
        k
    }
}

impl Sortable for AbbildungEintrag {
    open spec fn le_spec(self, other: Self) -> bool {
        lex_leq(self.key_spec(), other.key_spec())
    }

    fn le(&self, other: &Self) -> (r: bool) {
        let a = self.sorting_key();
        let b = other.sorting_key();
        crate::text::str_leq(a.as_str(), b.as_str())
    }
}

/// `b` is `a` with its pair list brought into canonical order.
pub open spec fn abbildung_sorted_rel(a: Abbildung, b: Abbildung) -> bool {
    &&& b == (Abbildung { content: b.content, ..a })
    &&& b.content@ == sort_le(a.content@)
}

impl Abbildung {
    /// The key a version's mapping list sorts by.
    pub fn sorting_key(&self) -> (r: String)
        ensures
            r@ == self.ziel_mk_version_oid@,
    {
        self.ziel_mk_version_oid.clone()
    }

    /// Brings the mapping's pairs into canonical order.
    pub fn sorted(&mut self)
        ensures
            abbildung_sorted_rel(*old(self), *final(self)),
    {
        let mut content: Vec<AbbildungEintrag> = Vec::new();
        core::mem::swap(&mut self.content, &mut content);
        sort(&mut content);
        self.content = content;
    }
}

impl Sortable for Abbildung {
    open spec fn le_spec(self, other: Self) -> bool {
        lex_leq(self.ziel_mk_version_oid@, other.ziel_mk_version_oid@)
    }

    fn le(&self, other: &Self) -> (r: bool) {
        crate::text::str_leq(self.ziel_mk_version_oid.as_str(), other.ziel_mk_version_oid.as_str())
    }
}

/// How a list of categories looks once sorted by name with each category's
/// codes sorted.
pub open spec fn categories_sorted_rel(a: Seq<Category>, b: Seq<Category>) -> bool {
    &&& b.len() == sort_le(a).len()
    &&& forall|i: int| 0 <= i < b.len() ==> category_sorted_rel(#[trigger] sort_le(a)[i], b[i])
}

/// How a list of mappings looks once sorted by target with each mapping's
/// pairs sorted.
pub open spec fn abbildungen_sorted_rel(a: Seq<Abbildung>, b: Seq<Abbildung>) -> bool {
    &&& b.len() == sort_le(a).len()
    &&& forall|i: int| 0 <= i < b.len() ==> abbildung_sorted_rel(#[trigger] sort_le(a)[i], b[i])
}

/// How a version looks once all its nested lists are in canonical order;
/// everything else is untouched.
pub open spec fn version_sorted_rel(a: Version, b: Version) -> bool {
    &&& b == (Version { entries: b.entries, abbildung: b.abbildung, categories: b.categories, ..a })
    &&& match a.abbildung {
        Some(v) => b.abbildung matches Some(bv) && abbildungen_sorted_rel(v@, bv@),
        None => b.abbildung is None,
    }
    &&& match a.entries {
        Some(es) => b.entries matches Some(bes) && bes.content@ == sort_le(es.content@),
        None => b.entries is None,
    }
    &&& match a.categories {
        Some(cs) => b.categories matches Some(bcs) && categories_sorted_rel(
            cs.content@,
            bcs.content@,
        ),
        None => b.categories is None,
    }
}

impl Version {
    /// The key the original trait order used for versions.
    pub fn sorting_key(&self) -> (r: String)
        ensures
            r@ == self.oid@,
    {
        self.oid.clone()
    }

    /// Brings the version's mappings, entries and categories into canonical
    /// order.
    pub fn sorted(&mut self)
        ensures
            version_sorted_rel(*old(self), *final(self)),
    {
        let ab = self.abbildung.take();
        match ab {
            Some(mut v) => {
                sort(&mut v);
                let ghost sorted_items = v@;
                let n = v.len();
                let mut out: Vec<Abbildung> = Vec::new();
                let mut i: usize = 0;
                assert(v@ =~= sorted_items.skip(0));
                while i < n
                    invariant
                        i <= n,
                        sorted_items.len() == n,
                        v@.len() == n - i,
                        out@.len() == i,
                        v@ =~= sorted_items.skip(i as int),
                        forall|j: int|
                            0 <= j < i ==> abbildung_sorted_rel(
                                #[trigger] sorted_items[j],
                                out@[j],
                            ),
                    decreases n - i,
                {
                    proof {
                        assert(sorted_items.skip(i as int)[0] == sorted_items[i as int]);
                    }
                    let mut e = v.remove(0);
                    assert(e == sorted_items[i as int]);
                    e.sorted();
                    out.push(e);
                    assert(v@ =~= sorted_items.skip(i + 1));
                    i = i + 1;
                }
                self.abbildung = Some(out);
            },
            None => {},
        }
        let entries = self.entries.take();
        match entries {
            Some(mut es) => {
                sort(&mut es.content);
                self.entries = Some(es);
            },
            None => {},
        }
        let cats = self.categories.take();
        match cats {
            Some(cs) => {
                let Categories { content } = cs;
                let mut v = content;
                sort(&mut v);
                let ghost sorted_items = v@;
                let n = v.len();
                let mut out: Vec<Category> = Vec::new();
                let mut i: usize = 0;
                assert(v@ =~= sorted_items.skip(0));
                while i < n
                    invariant
                        i <= n,
                        sorted_items.len() == n,
                        v@.len() == n - i,
                        out@.len() == i,
                        v@ =~= sorted_items.skip(i as int),
                        forall|j: int|
                            0 <= j < i ==> category_sorted_rel(
                                #[trigger] sorted_items[j],
                                out@[j],
                            ),
                    decreases n - i,
                {
                    proof {
                        assert(sorted_items.skip(i as int)[0] == sorted_items[i as int]);
                    }
                    let mut e = v.remove(0);
                    assert(e == sorted_items[i as int]);
                    e.sorted();
                    out.push(e);
                    assert(v@ =~= sorted_items.skip(i + 1));
                    i = i + 1;
                }
                self.categories = Some(Categories { content: out });
            },
            None => {},
        }
    }
}

impl Sortable for Version {
    /// Versions order by their version number.
    open spec fn le_spec(self, other: Self) -> bool {
        self.version_number <= other.version_number
    }

    fn le(&self, other: &Self) -> (r: bool) {
        self.version_number <= other.version_number
    }
}

/// How a version list looks once sorted by number with each version's own
/// lists sorted.
pub open spec fn versions_sorted_rel(a: Seq<Version>, b: Seq<Version>) -> bool {
    &&& b.len() == sort_le(a).len()
    &&& forall|i: int| 0 <= i < b.len() ==> version_sorted_rel(#[trigger] sort_le(a)[i], b[i])
}

/// How a property catalogue looks once its versions are in canonical
/// order; everything else is untouched.
pub open spec fn pc_sorted_rel(a: PropertyCatalogue, b: PropertyCatalogue) -> bool {
    &&& b == (PropertyCatalogue { versions: b.versions, ..a })
    &&& match a.versions.entry {
        Some(v) => b.versions.entry matches Some(bv) && versions_sorted_rel(v@, bv@),
        None => b.versions.entry is None,
    }
}

impl PropertyCatalogue {
    /// The catalogue's name.
    pub fn get_name(&self) -> (r: String)
        ensures
            r == self.name,
    {
        self.name.clone()
    }

    /// The catalogue's revision.
    pub fn get_revision(&self) -> (r: u16)
        ensures
            r == self.revision,
    {
        self.revision
    }

    /// The key the catalogue collection sorts by.
    pub fn sorting_key(&self) -> (r: String)
        ensures
            r@ == self.name@,
    {
        self.name.clone()
    }

    /// The library folder the catalogue is filed under.
    pub fn get_library_folder(&self) -> (r: String)
        ensures
            r@ == self.ordner.bibliothek.name@,
    {
        self.ordner.bibliothek.name.clone()
    }

    /// Whether the catalogue is vendor-shipped system-library content.
    pub open spec fn is_system_spec(&self) -> bool {
        is_system_library_spec(self.ordner.bibliothek.name@)
    }

    /// Whether the catalogue is system-library content.
    pub fn is_system_library_content(&self) -> (r: bool)
        ensures
            r == self.is_system_spec(),
    {
        crate::text::str_eq(self.ordner.bibliothek.name.as_str(), "ONKOSTAR Bibliothek")
    }

    /// The catalogue's fixed one-line description.
    pub fn to_listed_string(&self) -> (r: String)
        ensures
            r@ == crate::model::listed_display_spec(
                "Merkmalskatalog"@,
                self.is_system_spec(),
                self.name@,
                self.revision,
            ),
    {
        let sys = self.is_system_library_content();
        crate::model::listed_display("Merkmalskatalog", sys, self.name.as_str(), self.revision)
    }

    /// Brings the catalogue's versions into canonical order, each with its
    /// own nested lists sorted.
    pub fn sorted(&mut self)
        ensures
            pc_sorted_rel(*old(self), *final(self)),
    {
        let versions = self.versions.entry.take();
        match versions {
            Some(mut v) => {
                sort(&mut v);
                let ghost sorted_items = v@;
                let n = v.len();
                let mut out: Vec<Version> = Vec::new();
                let mut i: usize = 0;
                assert(v@ =~= sorted_items.skip(0));
                while i < n
                    invariant
                        i <= n,
                        sorted_items.len() == n,
                        v@.len() == n - i,
                        out@.len() == i,
                        v@ =~= sorted_items.skip(i as int),
                        forall|j: int|
                            0 <= j < i ==> version_sorted_rel(
                                #[trigger] sorted_items[j],
                                out@[j],
                            ),
                    decreases n - i,
                {
                    proof {
                        assert(sorted_items.skip(i as int)[0] == sorted_items[i as int]);
                    }
                    let mut e = v.remove(0);
                    assert(e == sorted_items[i as int]);
                    e.sorted();
                    out.push(e);
                    assert(v@ =~= sorted_items.skip(i + 1));
                    i = i + 1;
                }
                self.versions.entry = Some(out);
            },
            None => {},
        }
    }
}

impl Sortable for PropertyCatalogue {
    open spec fn le_spec(self, other: Self) -> bool {
        lex_leq(self.name@, other.name@)
    }

    fn le(&self, other: &Self) -> (r: bool) {
        crate::text::str_leq(self.name.as_str(), other.name.as_str())
    }
}

} // verus!
