//! Content fingerprints: an entity's full recursive content folded into a
//! 64-bit hash, so two entities can be compared for silent drift when
//! their revisions agree.

use vstd::prelude::*;

use crate::model::data_catalogue::{DataCatalogue, ProgramModule, Use};
use crate::model::form::{DataCatalogues, DataFormEntries, DataFormReferenceType, Form};
use crate::model::other::ReferencedDataForm;
use crate::model::property_catalogue::{
    Abbildung, AbbildungEintrag, AbbildungEntry, Categories, Category, CategoryEntries,
    CategoryEntry, PropertyCatalogue, Version, VersionEntries, VersionEntry, Versions,
};
use crate::model::{
    Ansicht, Ansichten, Bibliothek, Feld, FeldWert, FeldWerte, Felder, Filter, Haeufigkeit,
    Haeufigkeiten, Kennzahl, Kennzahlen, MenuCategory, Ordner, PlausibilityRule, PunkteKategorie,
    PunkteKategorien, RefEntries, Script,
};

verus! {

broadcast use vstd::std_specs::vec::axiom_vec_index_decreases;

/// The seed the content hash starts from.
pub open spec fn fp_seed() -> u64 {
    0xcbf29ce484222325u64
}

/// One folding step of the 64-bit content hash.
pub open spec fn mix_one(h: u64, v: u64) -> u64 {
    ((((h ^ v) as int) * 0x100000001b3) % 0x10000000000000000) as u64
}

/// A boolean folded into the hash.
pub open spec fn mix_bool_s(h: u64, b: bool) -> u64 {
    mix_one(
        h,
        if b {
            1
        } else {
            0
        },
    )
}

/// A string's characters folded into the hash, ended by a length mark so
/// neighbouring strings cannot blur into one another.
pub open spec fn mix_chars_from(h: u64, s: Seq<char>, i: int) -> u64
    decreases s.len() - i,
{
    if i < 0 || i >= s.len() {
        h
    } else {
        mix_chars_from(mix_one(h, (s[i] as u32) as u64), s, i + 1)
    }
}

/// A whole string folded into the hash.
pub open spec fn mix_chars(h: u64, s: Seq<char>) -> u64 {
    mix_one(mix_chars_from(h, s, 0), s.len() as u64)
}

/// An optional string folded into the hash, tagged by its presence.
pub open spec fn mix_opt_chars(h: u64, s: Option<String>) -> u64 {
    match s {
        Some(v) => mix_chars(mix_one(h, 1), v@),
        None => mix_one(h, 0),
    }
}

/// Folds one value into the hash.
pub fn mix_u64(h: u64, v: u64) -> (r: u64)
    ensures
        r == mix_one(h, v),
{
    let x: u64 = h ^ v;
    let prod: u128 = (x as u128) * 0x100000001b3u128;
    (prod % 0x10000000000000000u128) as u64
}

/// Folds a boolean into the hash.
pub fn mix_bool(h: u64, b: bool) -> (r: u64)
    ensures
        r == mix_bool_s(h, b),
{
    if b {
        mix_u64(h, 1)
    } else {
        mix_u64(h, 0)
    }
}

/// Folds a string into the hash.
pub fn mix_str(h0: u64, s: &String) -> (r: u64)
    ensures
        r == mix_chars(h0, s@),
{
    let st = s.as_str();
    let len = st.unicode_len();
    let mut h = h0;
    let mut i: usize = 0;
    while i < len
        invariant
            i <= len,
            len == st@.len(),
            st@ == s@,
            mix_chars_from(h0, s@, 0) == mix_chars_from(h, s@, i as int),
        decreases len - i,
    {
        let c = st.get_char(i);
        h = mix_u64(h, (c as u32) as u64);
        i = i + 1;
    }
    mix_u64(h, len as u64)
}

/// Folds an optional string into the hash.
pub fn mix_opt_str(h0: u64, s: &Option<String>) -> (r: u64)
    ensures
        r == mix_opt_chars(h0, *s),
{
    match s {
        Some(v) => {
            let h = mix_u64(h0, 1);
            mix_str(h, v)
        },
        None => mix_u64(h0, 0),
    }
}

/// Folds an optional boolean into the hash.
pub fn mix_opt_bool(h0: u64, s: &Option<bool>) -> (r: u64)
    ensures
        r == (match *s {
            Some(v) => mix_bool_s(mix_one(h0, 1), v),
            None => mix_one(h0, 0),
        }),
{
    match s {
        Some(v) => {
            let h = mix_u64(h0, 1);
            mix_bool(h, *v)
        },
        None => mix_u64(h0, 0),
    }
}

pub open spec fn fp_list_abbildung(h: u64, v: Vec<Abbildung>, i: int) -> u64
    decreases v, v.len() - i, 3int,
{
    if i < 0 || i >= v.len() {
        h
    } else {
        fp_list_abbildung(fp_abbildung(h, v[i]), v, i + 1)
    }
}

pub open spec fn fp_list_abbildung_eintrag(h: u64, v: Vec<AbbildungEintrag>, i: int) -> u64
    decreases v, v.len() - i, 3int,
{
    if i < 0 || i >= v.len() {
        h
    } else {
        fp_list_abbildung_eintrag(fp_abbildung_eintrag(h, v[i]), v, i + 1)
    }
}

pub open spec fn fp_list_ansicht(h: u64, v: Vec<Ansicht>, i: int) -> u64
    decreases v, v.len() - i, 3int,
{
    if i < 0 || i >= v.len() {
        h
    } else {
        fp_list_ansicht(fp_ansicht(h, v[i]), v, i + 1)
    }
}

pub open spec fn fp_list_category(h: u64, v: Vec<Category>, i: int) -> u64
    decreases v, v.len() - i, 3int,
{
    if i < 0 || i >= v.len() {
        h
    } else {
        fp_list_category(fp_category(h, v[i]), v, i + 1)
    }
}

pub open spec fn fp_list_category_entry(h: u64, v: Vec<CategoryEntry>, i: int) -> u64
    decreases v, v.len() - i, 3int,
{
    if i < 0 || i >= v.len() {
        h
    } else {
        fp_list_category_entry(fp_category_entry(h, v[i]), v, i + 1)
    }
}

pub open spec fn fp_list_dc_entry(h: u64, v: Vec<crate::model::data_catalogue::Entry>, i: int) -> u64
    decreases v, v.len() - i, 3int,
{
    if i < 0 || i >= v.len() {
        h
    } else {
        fp_list_dc_entry(fp_dc_entry(h, v[i]), v, i + 1)
    }
}

pub open spec fn fp_list_form_ref(h: u64, v: Vec<Form<DataFormReferenceType>>, i: int) -> u64
    decreases v, v.len() - i, 3int,
{
    if i < 0 || i >= v.len() {
        h
    } else {
        fp_list_form_ref(fp_form(h, v[i]), v, i + 1)
    }
}

pub open spec fn fp_list_feld(h: u64, v: Vec<Feld>, i: int) -> u64
    decreases v, v.len() - i, 3int,
{
    if i < 0 || i >= v.len() {
        h
    } else {
        fp_list_feld(fp_feld(h, v[i]), v, i + 1)
    }
}

pub open spec fn fp_list_feld_wert(h: u64, v: Vec<FeldWert>, i: int) -> u64
    decreases v, v.len() - i, 3int,
{
    if i < 0 || i >= v.len() {
        h
    } else {
        fp_list_feld_wert(fp_feld_wert(h, v[i]), v, i + 1)
    }
}

pub open spec fn fp_list_form_entry(h: u64, v: Vec<crate::model::other::Entry>, i: int) -> u64
    decreases v, v.len() - i, 3int,
{
    if i < 0 || i >= v.len() {
        h
    } else {
        fp_list_form_entry(fp_form_entry(h, v[i]), v, i + 1)
    }
}

pub open spec fn fp_list_haeufigkeit(h: u64, v: Vec<Haeufigkeit>, i: int) -> u64
    decreases v, v.len() - i, 3int,
{
    if i < 0 || i >= v.len() {
        h
    } else {
        fp_list_haeufigkeit(fp_haeufigkeit(h, v[i]), v, i + 1)
    }
}

pub open spec fn fp_list_kennzahl(h: u64, v: Vec<Kennzahl>, i: int) -> u64
    decreases v, v.len() - i, 3int,
{
    if i < 0 || i >= v.len() {
        h
    } else {
        fp_list_kennzahl(fp_kennzahl(h, v[i]), v, i + 1)
    }
}

pub open spec fn fp_list_plausibility_rule(h: u64, v: Vec<PlausibilityRule<DataFormEntries>>, i: int) -> u64
    decreases v, v.len() - i, 3int,
{
    if i < 0 || i >= v.len() {
        h
    } else {
        fp_list_plausibility_rule(fp_plausibility_rule(h, v[i]), v, i + 1)
    }
}

pub open spec fn fp_list_program_module(h: u64, v: Vec<ProgramModule>, i: int) -> u64
    decreases v, v.len() - i, 3int,
{
    if i < 0 || i >= v.len() {
        h
    } else {
        fp_list_program_module(fp_program_module(h, v[i]), v, i + 1)
    }
}

pub open spec fn fp_list_punkte_kategorie(h: u64, v: Vec<PunkteKategorie>, i: int) -> u64
    decreases v, v.len() - i, 3int,
{
    if i < 0 || i >= v.len() {
        h
    } else {
        fp_list_punkte_kategorie(fp_punkte_kategorie(h, v[i]), v, i + 1)
    }
}

pub open spec fn fp_list_string(h: u64, v: Vec<String>, i: int) -> u64
    decreases v, v.len() - i, 3int,
{
    if i < 0 || i >= v.len() {
        h
    } else {
        fp_list_string(mix_chars(h, v[i]@), v, i + 1)
    }
}

pub open spec fn fp_list_version(h: u64, v: Vec<Version>, i: int) -> u64
    decreases v, v.len() - i, 3int,
{
    if i < 0 || i >= v.len() {
        h
    } else {
        fp_list_version(fp_version(h, v[i]), v, i + 1)
    }
}

pub open spec fn fp_list_version_entry(h: u64, v: Vec<VersionEntry>, i: int) -> u64
    decreases v, v.len() - i, 3int,
{
    if i < 0 || i >= v.len() {
        h
    } else {
        fp_list_version_entry(fp_version_entry(h, v[i]), v, i + 1)
    }
}

pub open spec fn fp_bibliothek(h: u64, x: Bibliothek) -> u64
{
    let h = mix_chars(h, x.name@);
    h
}

pub open spec fn fp_ordner(h: u64, x: Ordner) -> u64
    decreases x, 1int,
{
    let h = fp_bibliothek(h, x.bibliothek);
    let h = mix_chars(h, x.name@);
    let h = mix_chars(h, x.typ@);
    let h = (match x.parent_order { Some(v) => fp_ordner(mix_one(h, 1), *v), None => mix_one(h, 0) });
    h
}

pub open spec fn fp_script(h: u64, x: Script) -> u64
{
    let h = mix_chars(h, x.code@);
    let h = mix_bool_s(h, x.valid);
    h
}

pub open spec fn fp_filter(h: u64, x: Filter) -> u64
{
    let h = mix_chars(h, x.condition@);
    let h = mix_bool_s(h, x.valid);
    let h = (match x.ref_entries { Some(v) => fp_ref_entries(mix_one(h, 1), v), None => mix_one(h, 0) });
    h
}

pub open spec fn fp_ref_entries(h: u64, x: RefEntries) -> u64
{
    let h = (match x.ref_entry { Some(v) => fp_list_string(mix_one(h, 1), v, 0), None => mix_one(h, 0) });
    h
}

pub open spec fn fp_menu_category(h: u64, x: MenuCategory) -> u64
{
    let h = mix_chars(h, x.name@);
    let h = mix_chars(h, x.position@);
    let h = mix_chars(h, x.column@);
    h
}

pub open spec fn fp_ansicht(h: u64, x: Ansicht) -> u64
{
    let h = mix_chars(h, x.name@);
    let h = mix_chars(h, x.beschreibung@);
    let h = mix_chars(h, x.konfiguration@);
    let h = mix_opt_chars(h, x.data_form);
    let h = mix_opt_chars(h, x.data_catalogue);
    let h = mix_chars(h, x.typ_auswahl@);
    let h = mix_opt_chars(h, x.personenstamm_kontext);
    let h = mix_bool_s(h, x.suche);
    let h = mix_chars(h, x.sid@);
    let h = mix_chars(h, x.guid@);
    let h = mix_one(h, x.revision as u64);
    let h = mix_bool_s(h, x.in_bibliothek_ausliefern);
    h
}

pub open spec fn fp_ansichten(h: u64, x: Ansichten) -> u64
{
    let h = fp_list_ansicht(h, x.program_module, 0);
    h
}

pub open spec fn fp_punkte_kategorien(h: u64, x: PunkteKategorien) -> u64
{
    let h = fp_list_punkte_kategorie(h, x.punkte_kategorie, 0);
    h
}

pub open spec fn fp_punkte_kategorie(h: u64, x: PunkteKategorie) -> u64
{
    let h = mix_chars(h, x.name@);
    let h = mix_chars(h, x.beschreibung@);
    let h = mix_one(h, x.max_leerwerte as u64);
    let h = mix_chars(h, x.berechnung@);
    let h = (match x.felder { Some(v) => fp_felder(mix_one(h, 1), v), None => mix_one(h, 0) });
    let h = mix_chars(h, x.vergleichswerttabellen@);
    h
}

pub open spec fn fp_felder(h: u64, x: Felder) -> u64
{
    let h = fp_list_feld(h, x.feld, 0);
    h
}

pub open spec fn fp_feld(h: u64, x: Feld) -> u64
{
    let h = mix_chars(h, x.data_form_entry_name@);
    let h = mix_bool_s(h, x.manuelle_punkte);
    let h = (match x.werte { Some(v) => fp_feld_werte(mix_one(h, 1), v), None => mix_one(h, 0) });
    h
}

pub open spec fn fp_feld_werte(h: u64, x: FeldWerte) -> u64
{
    let h = fp_list_feld_wert(h, x.wert, 0);
    h
}

pub open spec fn fp_feld_wert(h: u64, x: FeldWert) -> u64
{
    let h = mix_chars(h, x.wert@);
    let h = mix_chars(h, x.punkte@);
    h
}

pub open spec fn fp_haeufigkeiten(h: u64, x: Haeufigkeiten) -> u64
{
    let h = fp_list_haeufigkeit(h, x.haeufigkeit, 0);
    h
}

pub open spec fn fp_haeufigkeit(h: u64, x: Haeufigkeit) -> u64
{
    let h = mix_chars(h, x.name@);
    let h = mix_chars(h, x.beschreibung@);
    let h = mix_chars(h, x.notiz@);
    let h = mix_bool_s(h, x.status);
    let h = mix_chars(h, x.formel@);
    let h = mix_chars(h, x.analysezweck@);
    let h = mix_chars(h, x.position@);
    let h = mix_chars(h, x.ueberschrift@);
    let h = mix_bool_s(h, x.taeglich_aktualisieren);
    let h = mix_chars(h, x.typ@);
    let h = mix_opt_chars(h, x.nicht_berechnen);
    let h = mix_opt_chars(h, x.tabellen_name);
    h
}

pub open spec fn fp_kennzahlen(h: u64, x: Kennzahlen) -> u64
{
    let h = fp_list_kennzahl(h, x.kennzahl, 0);
    h
}

pub open spec fn fp_kennzahl(h: u64, x: Kennzahl) -> u64
{
    let h = mix_chars(h, x.name@);
    let h = mix_chars(h, x.nummer@);
    let h = mix_chars(h, x.beschreibung@);
    let h = mix_chars(h, x.notiz@);
    let h = mix_chars(h, x.vorgabe@);
    let h = mix_chars(h, x.haeufigkeitenzaehler@);
    let h = mix_chars(h, x.haeufigkeitennenner@);
    h
}

pub open spec fn fp_data_form_entries(h: u64, x: DataFormEntries) -> u64
{
    let h = (match x.entry_name { Some(v) => fp_list_string(mix_one(h, 1), v, 0), None => mix_one(h, 0) });
    h
}

pub open spec fn fp_plausibility_rule(h: u64, x: PlausibilityRule<DataFormEntries>) -> u64
{
    let h = mix_chars(h, x.type_@);
    let h = mix_chars(h, x.message@);
    let h = mix_chars(h, x.description@);
    let h = mix_chars(h, x.bezeichnung@);
    let h = mix_chars(h, x.formula@);
    let h = mix_bool_s(h, x.active);
    let h = mix_bool_s(h, x.editable);
    let h = mix_bool_s(h, x.valid);
    let h = mix_opt_chars(h, x.condition);
    let h = (match x.condition_valid { Some(v) => mix_bool_s(mix_one(h, 1), v), None => mix_one(h, 0) });
    let h = mix_chars(h, x.statusauswirkung@);
    let h = fp_data_form_entries(h, x.data_form_entries);
    h
}

pub open spec fn fp_data_catalogues(h: u64, x: DataCatalogues) -> u64
{
    let h = fp_list_string(h, x.data_catalogue, 0);
    h
}

pub open spec fn fp_version_entry(h: u64, x: VersionEntry) -> u64
{
    let h = mix_chars(h, x.code@);
    let h = mix_chars(h, x.short_description@);
    let h = mix_opt_chars(h, x.description);
    let h = mix_opt_chars(h, x.synonyms);
    let h = mix_opt_chars(h, x.note);
    let h = mix_opt_chars(h, x.type_);
    let h = mix_chars(h, x.position@);
    h
}

pub open spec fn fp_version_entries(h: u64, x: VersionEntries) -> u64
{
    let h = fp_list_version_entry(h, x.content, 0);
    h
}

pub open spec fn fp_category_entry(h: u64, x: CategoryEntry) -> u64
{
    let h = mix_chars(h, x.code@);
    let h = mix_opt_chars(h, x.shortdesc);
    let h = mix_opt_chars(h, x.description);
    let h = mix_opt_chars(h, x.synonyms);
    let h = mix_opt_chars(h, x.note);
    h
}

pub open spec fn fp_category_entries(h: u64, x: CategoryEntries) -> u64
{
    let h = fp_list_category_entry(h, x.content, 0);
    h
}

pub open spec fn fp_category(h: u64, x: Category) -> u64
{
    let h = mix_chars(h, x.name@);
    let h = mix_chars(h, x.position@);
    let h = mix_bool_s(h, x.auswahldialog);
    let h = mix_one(h, x.entry_count as u64);
    let h = mix_chars(h, x.beschreibung@);
    let h = fp_category_entries(h, x.category_entries);
    h
}

pub open spec fn fp_categories(h: u64, x: Categories) -> u64
{
    let h = fp_list_category(h, x.content, 0);
    h
}

pub open spec fn fp_abbildung_entry(h: u64, x: AbbildungEntry) -> u64
{
    let h = mix_chars(h, x.code@);
    let h = mix_chars(h, x.short_description@);
    let h = mix_chars(h, x.description@);
    let h = mix_opt_chars(h, x.synonyms);
    let h = mix_opt_chars(h, x.note);
    let h = mix_chars(h, x.position@);
    h
}

pub open spec fn fp_abbildung_eintrag(h: u64, x: AbbildungEintrag) -> u64
{
    let h = fp_abbildung_entry(h, x.entry_from);
    let h = fp_abbildung_entry(h, x.entry_to);
    h
}

pub open spec fn fp_abbildung(h: u64, x: Abbildung) -> u64
{
    let h = mix_chars(h, x.ziel_mk_version_oid@);
    let h = fp_list_abbildung_eintrag(h, x.content, 0);
    h
}

pub open spec fn fp_version(h: u64, x: Version) -> u64
{
    let h = mix_one(h, x.version_number as u64);
    let h = mix_chars(h, x.valid_from@);
    let h = mix_chars(h, x.oid@);
    let h = mix_bool_s(h, x.active);
    let h = mix_chars(h, x.description@);
    let h = mix_opt_chars(h, x.lkr_code);
    let h = mix_chars(h, x.sid@);
    let h = mix_chars(h, x.guid@);
    let h = mix_one(h, x.revision as u64);
    let h = (match x.entries { Some(v) => fp_version_entries(mix_one(h, 1), v), None => mix_one(h, 0) });
    let h = (match x.abbildung { Some(v) => fp_list_abbildung(mix_one(h, 1), v, 0), None => mix_one(h, 0) });
    let h = (match x.categories { Some(v) => fp_categories(mix_one(h, 1), v), None => mix_one(h, 0) });
    h
}

pub open spec fn fp_versions(h: u64, x: Versions) -> u64
{
    let h = (match x.entry { Some(v) => fp_list_version(mix_one(h, 1), v, 0), None => mix_one(h, 0) });
    h
}

pub open spec fn fp_property_catalogue(h: u64, x: PropertyCatalogue) -> u64
{
    let h = mix_chars(h, x.name@);
    let h = mix_opt_chars(h, x.description);
    let h = mix_chars(h, x.standard@);
    let h = mix_bool_s(h, x.readonly);
    let h = mix_opt_chars(h, x.anmerkung);
    let h = mix_chars(h, x.sid@);
    let h = mix_chars(h, x.guid@);
    let h = mix_one(h, x.revision as u64);
    let h = fp_versions(h, x.versions);
    let h = fp_ordner(h, x.ordner);
    h
}

pub open spec fn fp_program_module(h: u64, x: ProgramModule) -> u64
{
    let h = mix_chars(h, x.program@);
    let h = mix_chars(h, x.name@);
    h
}

pub open spec fn fp_use(h: u64, x: Use) -> u64
{
    let h = fp_list_program_module(h, x.program_module, 0);
    h
}

pub open spec fn fp_dc_entry_p0(h: u64, x: crate::model::data_catalogue::Entry) -> u64
{
    let h = mix_opt_chars(h, x.property_catalogue);
    let h = mix_chars(h, x.name@);
    let h = mix_chars(h, x.name_export@);
    let h = mix_chars(h, x.description@);
    let h = mix_chars(h, x.entry_type@);
    let h = mix_chars(h, x.sub_table@);
    let h = mix_chars(h, x.scale_unit@);
    let h = mix_one(h, x.max_length as u64);
    let h = mix_chars(h, x.default_value@);
    let h = mix_bool_s(h, x.active);
    let h = mix_bool_s(h, x.read_only);
    let h = mix_bool_s(h, x.filterable);
    let h = mix_opt_chars(h, x.range_from);
    let h = mix_opt_chars(h, x.range_until);
    let h = mix_bool_s(h, x.multiple_choice);
    let h = mix_chars(h, x.position@);
    let h = mix_chars(h, x.note@);
    let h = mix_bool_s(h, x.date_estimated_allowed);
    h
}

pub open spec fn fp_dc_entry_p1(h: u64, x: crate::model::data_catalogue::Entry) -> u64
{
    let h = mix_bool_s(h, x.date_unknown_allowed);
    let h = mix_chars(h, x.oe_choice_options@);
    let h = mix_bool_s(h, x.fachabteilungsbezug);
    let h = (match x.use_ { Some(v) => fp_use(mix_one(h, 1), v), None => mix_one(h, 0) });
    let h = (match x.feste_nachkommastellen { Some(v) => mix_one(mix_one(h, 1), v as u64), None => mix_one(h, 0) });
    let h = mix_chars(h, x.sid@);
    let h = mix_chars(h, x.guid@);
    let h = mix_one(h, x.revision as u64);
    h
}

pub open spec fn fp_dc_entry(h: u64, x: crate::model::data_catalogue::Entry) -> u64
{
    let h = fp_dc_entry_p0(h, x);
    let h = fp_dc_entry_p1(h, x);
    h
}

pub open spec fn fp_dc_entries(h: u64, x: crate::model::data_catalogue::Entries) -> u64
{
    let h = fp_list_dc_entry(h, x.entry, 0);
    h
}

pub open spec fn fp_data_catalogue(h: u64, x: DataCatalogue) -> u64
{
    let h = mix_chars(h, x.name@);
    let h = mix_chars(h, x.name_export@);
    let h = mix_chars(h, x.category@);
    let h = mix_chars(h, x.description@);
    let h = mix_chars(h, x.note@);
    let h = mix_bool_s(h, x.readonly);
    let h = mix_bool_s(h, x.best_of);
    let h = mix_chars(h, x.sid@);
    let h = mix_chars(h, x.guid@);
    let h = mix_one(h, x.revision as u64);
    let h = fp_dc_entries(h, x.entries);
    let h = fp_ordner(h, x.ordner);
    let h = (match x.ansichten { Some(v) => fp_ansichten(mix_one(h, 1), v), None => mix_one(h, 0) });
    h
}

pub open spec fn fp_referenced_data_form(h: u64, x: ReferencedDataForm) -> u64
    decreases x, 1int,
{
    let h = fp_list_form_ref(h, x.referenced_data_form, 0);
    h
}

pub open spec fn fp_form_entry_p0(h: u64, x: crate::model::other::Entry) -> u64
    decreases x, 1int,
{
    let h = (match x.parent_id { Some(v) => mix_one(mix_one(h, 1), v as u64), None => mix_one(h, 0) });
    let h = (match x.parent_ref_id { Some(v) => mix_one(mix_one(h, 1), v as u64), None => mix_one(h, 0) });
    let h = mix_chars(h, x.type_@);
    let h = mix_chars(h, x.name@);
    let h = mix_chars(h, x.description@);
    let h = mix_bool_s(h, x.active);
    let h = mix_bool_s(h, x.read_only);
    let h = mix_bool_s(h, x.printable);
    let h = mix_chars(h, x.position@);
    let h = mix_chars(h, x.note@);
    let h = mix_opt_chars(h, x.beschriftung1);
    let h = mix_opt_chars(h, x.beschriftung2);
    let h = mix_opt_chars(h, x.wert_anzeigen_patmodul);
    let h = mix_bool_s(h, x.multiple_choice);
    let h = mix_chars(h, x.default_value@);
    let h = mix_chars(h, x.alignment@);
    let h = mix_chars(h, x.direction@);
    let h = mix_chars(h, x.data_catalogue_entry@);
    h
}

pub open spec fn fp_form_entry_p1(h: u64, x: crate::model::other::Entry) -> u64
    decreases x, 1int,
{
    let h = mix_opt_chars(h, x.data_catalogue_entry_table);
    let h = mix_chars(h, x.element_parent@);
    let h = mix_chars(h, x.procedure_date_status@);
    let h = mix_chars(h, x.zuordnung_erkrankung@);
    let h = mix_opt_chars(h, x.grafik);
    let h = mix_opt_chars(h, x.grafik_ausrichtung);
    let h = mix_chars(h, x.mandatory@);
    let h = mix_opt_chars(h, x.datenart);
    let h = (match x.filter { Some(v) => fp_filter(mix_one(h, 1), v), None => mix_one(h, 0) });
    let h = mix_bool_s(h, x.not_specified);
    let h = (match x.scripts { Some(v) => fp_script(mix_one(h, 1), v), None => mix_one(h, 0) });
    let h = mix_opt_chars(h, x.referenced_data_form);
    let h = mix_opt_chars(h, x.referenced_data_form_field);
    let h = mix_chars(h, x.anzeige@);
    let h = mix_opt_chars(h, x.anzeige_auswahl);
    let h = mix_opt_chars(h, x.druckvorlage);
    let h = mix_opt_chars(h, x.version_from);
    let h = mix_chars(h, x.speichern@);
    h
}

pub open spec fn fp_form_entry_p2(h: u64, x: crate::model::other::Entry) -> u64
    decreases x, 1int,
{
    let h = mix_bool_s(h, x.leer_ausblenden);
    let h = mix_opt_chars(h, x.inhalt);
    let h = mix_bool_s(h, x.geschlossen_anzeigen);
    let h = mix_one(h, x.min as u64);
    let h = mix_one(h, x.max as u64);
    let h = mix_bool_s(h, x.in_uebersicht_anzeigen);
    let h = mix_opt_chars(h, x.hinweis);
    let h = mix_opt_chars(h, x.vorschlagskategorie);
    let h = mix_opt_chars(h, x.category_filer_name);
    let h = mix_opt_chars(h, x.platzhalter);
    let h = mix_bool_s(h, x.show_auspraegungen);
    let h = mix_bool_s(h, x.prozedurdatum_uebernehmen);
    let h = mix_bool_s(h, x.vorschlaege);
    let h = mix_chars(h, x.anzeige_auswahldialog@);
    let h = mix_chars(h, x.suche_auswahldialog@);
    let h = mix_opt_chars(h, x.info_auswahldialog);
    let h = mix_opt_chars(h, x.disease_category_filter);
    let h = (match x.mindestbreite_label { Some(v) => mix_one(mix_one(h, 1), v as u64), None => mix_one(h, 0) });
    h
}

pub open spec fn fp_form_entry_p3(h: u64, x: crate::model::other::Entry) -> u64
    decreases x, 1int,
{
    let h = (match x.mindestbreite_feld { Some(v) => mix_one(mix_one(h, 1), v as u64), None => mix_one(h, 0) });
    let h = mix_opt_chars(h, x.ou_filter);
    let h = mix_opt_chars(h, x.aktion);
    let h = mix_opt_chars(h, x.top10);
    let h = mix_one(h, x.groesse_textfeld as u64);
    let h = mix_bool_s(h, x.filter_aufheben);
    let h = mix_bool_s(h, x.resizable);
    let h = (match x.verschluesselt { Some(v) => mix_bool_s(mix_one(h, 1), v), None => mix_one(h, 0) });
    let h = (match x.memo_width { Some(v) => mix_one(mix_one(h, 1), v as u64), None => mix_one(h, 0) });
    let h = (match x.memo_height { Some(v) => mix_one(mix_one(h, 1), v as u64), None => mix_one(h, 0) });
    let h = mix_opt_chars(h, x.memo_art);
    let h = mix_chars(h, x.date_valid_from@);
    let h = mix_chars(h, x.date_valid_to@);
    let h = mix_bool_s(h, x.date_valid_future);
    let h = mix_opt_chars(h, x.titel);
    let h = mix_bool_s(h, x.in_auswertung);
    let h = mix_bool_s(h, x.in_auswertung_graph);
    let h = (match x.fragebogen_item_nummer { Some(v) => mix_one(mix_one(h, 1), v as u64), None => mix_one(h, 0) });
    h
}

pub open spec fn fp_form_entry_p4(h: u64, x: crate::model::other::Entry) -> u64
    decreases x, 1int,
{
    let h = mix_opt_chars(h, x.score);
    let h = mix_chars(h, x.alignment_pat_modul@);
    let h = mix_chars(h, x.direction_pat_modul@);
    let h = mix_bool_s(h, x.seitenumbruch_pat_modul);
    let h = mix_opt_chars(h, x.kontaktliste);
    let h = mix_bool_s(h, x.markierung_ignorieren);
    let h = mix_opt_chars(h, x.suche_art);
    let h = mix_chars(h, x.sid@);
    let h = mix_chars(h, x.guid@);
    let h = mix_one(h, x.revision as u64);
    let h = mix_opt_chars(h, x.vorherige_werte);
    let h = mix_opt_chars(h, x.einfuegen_verhindern);
    let h = (match x.data_form_references { Some(v) => fp_referenced_data_form(mix_one(h, 1), v), None => mix_one(h, 0) });
    h
}

pub open spec fn fp_form_entry(h: u64, x: crate::model::other::Entry) -> u64
    decreases x, 2int,
{
    let h = fp_form_entry_p0(h, x);
    let h = fp_form_entry_p1(h, x);
    let h = fp_form_entry_p2(h, x);
    let h = fp_form_entry_p3(h, x);
    let h = fp_form_entry_p4(h, x);
    h
}

pub open spec fn fp_form_p0<Type>(h: u64, x: Form<Type>) -> u64
    decreases x, 1int,
{
    let h = (match x.data_catalogues { Some(v) => fp_data_catalogues(mix_one(h, 1), v), None => mix_one(h, 0) });
    let h = mix_chars(h, x.category@);
    let h = mix_chars(h, x.name@);
    let h = mix_opt_chars(h, x.version);
    let h = mix_opt_chars(h, x.menu_entry);
    let h = mix_opt_chars(h, x.title);
    let h = mix_opt_chars(h, x.description);
    let h = mix_opt_chars(h, x.note);
    let h = mix_bool_s(h, x.readonly);
    let h = (match x.active { Some(v) => mix_bool_s(mix_one(h, 1), v), None => mix_one(h, 0) });
    let h = mix_chars(h, x.tudok_position@);
    let h = mix_opt_chars(h, x.aktenbereich);
    let h = (match x.befragung_relevant { Some(v) => mix_bool_s(mix_one(h, 1), v), None => mix_one(h, 0) });
    let h = mix_opt_chars(h, x.hotkey);
    let h = mix_opt_chars(h, x.summary);
    let h = mix_opt_chars(h, x.big_summary);
    let h = mix_opt_chars(h, x.kalender_schnipsel);
    let h = mix_opt_chars(h, x.mail_template);
    h
}

pub open spec fn fp_form_p1<Type>(h: u64, x: Form<Type>) -> u64
    decreases x, 1int,
{
    let h = mix_opt_chars(h, x.erkrankung_text);
    let h = mix_opt_chars(h, x.erkrankung_text_long);
    let h = mix_opt_chars(h, x.erkrankung_prozedur_text);
    let h = mix_opt_chars(h, x.erkrankung_summary);
    let h = mix_opt_chars(h, x.erkrankung_big_summary);
    let h = (match x.kontext { Some(v) => mix_one(mix_one(h, 1), (v as u32) as u64), None => mix_one(h, 0) });
    let h = mix_opt_chars(h, x.datenart);
    let h = (match x.show_history_button { Some(v) => mix_bool_s(mix_one(h, 1), v), None => mix_one(h, 0) });
    let h = (match x.tudok_readonly { Some(v) => mix_bool_s(mix_one(h, 1), v), None => mix_one(h, 0) });
    let h = (match x.vitalstatus_relevant { Some(v) => mix_bool_s(mix_one(h, 1), v), None => mix_one(h, 0) });
    let h = (match x.auto_nummerierung { Some(v) => mix_bool_s(mix_one(h, 1), v), None => mix_one(h, 0) });
    let h = (match x.zwischenspeichern { Some(v) => mix_bool_s(mix_one(h, 1), v), None => mix_one(h, 0) });
    let h = (match x.zurueckblaettern { Some(v) => mix_bool_s(mix_one(h, 1), v), None => mix_one(h, 0) });
    let h = (match x.datenbankexport { Some(v) => mix_bool_s(mix_one(h, 1), v), None => mix_one(h, 0) });
    let h = (match x.datenschutz_relevant { Some(v) => mix_bool_s(mix_one(h, 1), v), None => mix_one(h, 0) });
    let h = (match x.konferenz_relevant { Some(v) => mix_bool_s(mix_one(h, 1), v), None => mix_one(h, 0) });
    let h = mix_opt_chars(h, x.drucken);
    let h = mix_bool_s(h, x.hat_unterformulare);
    h
}

pub open spec fn fp_form_p2<Type>(h: u64, x: Form<Type>) -> u64
    decreases x, 1int,
{
    let h = (match x.script_beim_schliessen { Some(v) => fp_script(mix_one(h, 1), v), None => mix_one(h, 0) });
    let h = (match x.script_beim_speichern { Some(v) => fp_script(mix_one(h, 1), v), None => mix_one(h, 0) });
    let h = (match x.script_beim_neuanlegen { Some(v) => fp_script(mix_one(h, 1), v), None => mix_one(h, 0) });
    let h = (match x.script_beim_bearbeiten { Some(v) => fp_script(mix_one(h, 1), v), None => mix_one(h, 0) });
    let h = (match x.script_beim_kopieren { Some(v) => fp_script(mix_one(h, 1), v), None => mix_one(h, 0) });
    let h = (match x.script_beim_import { Some(v) => fp_script(mix_one(h, 1), v), None => mix_one(h, 0) });
    let h = (match x.script_beim_anonymisieren { Some(v) => fp_script(mix_one(h, 1), v), None => mix_one(h, 0) });
    let h = mix_chars(h, x.sid@);
    let h = mix_chars(h, x.guid@);
    let h = mix_one(h, x.revision as u64);
    let h = (match x.max_anzahl { Some(v) => mix_one(mix_one(h, 1), v as u64), None => mix_one(h, 0) });
    let h = mix_opt_chars(h, x.verknuepft_guid);
    let h = (match x.seitenanzahl_sichtbar { Some(v) => mix_bool_s(mix_one(h, 1), v), None => mix_one(h, 0) });
    let h = (match x.entries { Some(es) => fp_list_form_entry(mix_one(h, 1), es.entry, 0), None => mix_one(h, 0) });
    let h = (match x.plausibility_rules { Some(pr) => (match pr.plausibility_rule { Some(v) => fp_list_plausibility_rule(mix_one(mix_one(h, 1), 1), v, 0), None => mix_one(mix_one(h, 1), 0) }), None => mix_one(h, 0) });
    let h = (match x.haeufigkeiten { Some(v) => fp_haeufigkeiten(mix_one(h, 1), v), None => mix_one(h, 0) });
    let h = (match x.kennzahlen { Some(v) => fp_kennzahlen(mix_one(h, 1), v), None => mix_one(h, 0) });
    let h = (match x.ordner { Some(v) => fp_ordner(mix_one(h, 1), v), None => mix_one(h, 0) });
    h
}

pub open spec fn fp_form_p3<Type>(h: u64, x: Form<Type>) -> u64
    decreases x, 1int,
{
    let h = (match x.menu_category { Some(v) => fp_menu_category(mix_one(h, 1), v), None => mix_one(h, 0) });
    let h = (match x.punkte_kategorien { Some(v) => fp_punkte_kategorien(mix_one(h, 1), v), None => mix_one(h, 0) });
    let h = (match x.ansichten { Some(v) => fp_ansichten(mix_one(h, 1), v), None => mix_one(h, 0) });
    h
}

pub open spec fn fp_form<Type>(h: u64, x: Form<Type>) -> u64
    decreases x, 2int,
{
    let h = fp_form_p0(h, x);
    let h = fp_form_p1(h, x);
    let h = fp_form_p2(h, x);
    let h = fp_form_p3(h, x);
    h
}

fn fold_list_abbildung(h0: u64, v: &Vec<Abbildung>) -> (r: u64)
    ensures
        r == fp_list_abbildung(h0, *v, 0),
{
    let mut h = h0;
    let n = v.len();
    let mut i: usize = 0;
    while i < n
        invariant
            i <= n,
            n == v@.len(),
            fp_list_abbildung(h0, *v, 0) == fp_list_abbildung(h, *v, i as int),
        decreases n - i,
    {
        h = fold_abbildung(h, &v[i]);
        i = i + 1;
    }
    h
}

fn fold_list_abbildung_eintrag(h0: u64, v: &Vec<AbbildungEintrag>) -> (r: u64)
    ensures
        r == fp_list_abbildung_eintrag(h0, *v, 0),
{
    let mut h = h0;
    let n = v.len();
    let mut i: usize = 0;
    while i < n
        invariant
            i <= n,
            n == v@.len(),
            fp_list_abbildung_eintrag(h0, *v, 0) == fp_list_abbildung_eintrag(h, *v, i as int),
        decreases n - i,
    {
        h = fold_abbildung_eintrag(h, &v[i]);
        i = i + 1;
    }
    h
}

fn fold_list_ansicht(h0: u64, v: &Vec<Ansicht>) -> (r: u64)
    ensures
        r == fp_list_ansicht(h0, *v, 0),
{
    let mut h = h0;
    let n = v.len();
    let mut i: usize = 0;
    while i < n
        invariant
            i <= n,
            n == v@.len(),
            fp_list_ansicht(h0, *v, 0) == fp_list_ansicht(h, *v, i as int),
        decreases n - i,
    {
        h = fold_ansicht(h, &v[i]);
        i = i + 1;
    }
    h
}

fn fold_list_category(h0: u64, v: &Vec<Category>) -> (r: u64)
    ensures
        r == fp_list_category(h0, *v, 0),
{
    let mut h = h0;
    let n = v.len();
    let mut i: usize = 0;
    while i < n
        invariant
            i <= n,
            n == v@.len(),
            fp_list_category(h0, *v, 0) == fp_list_category(h, *v, i as int),
        decreases n - i,
    {
        h = fold_category(h, &v[i]);
        i = i + 1;
    }
    h
}

fn fold_list_category_entry(h0: u64, v: &Vec<CategoryEntry>) -> (r: u64)
    ensures
        r == fp_list_category_entry(h0, *v, 0),
{
    let mut h = h0;
    let n = v.len();
    let mut i: usize = 0;
    while i < n
        invariant
            i <= n,
            n == v@.len(),
            fp_list_category_entry(h0, *v, 0) == fp_list_category_entry(h, *v, i as int),
        decreases n - i,
    {
        h = fold_category_entry(h, &v[i]);
        i = i + 1;
    }
    h
}

fn fold_list_dc_entry(h0: u64, v: &Vec<crate::model::data_catalogue::Entry>) -> (r: u64)
    ensures
        r == fp_list_dc_entry(h0, *v, 0),
{
    let mut h = h0;
    let n = v.len();
    let mut i: usize = 0;
    while i < n
        invariant
            i <= n,
            n == v@.len(),
            fp_list_dc_entry(h0, *v, 0) == fp_list_dc_entry(h, *v, i as int),
        decreases n - i,
    {
        h = fold_dc_entry(h, &v[i]);
        i = i + 1;
    }
    h
}

fn fold_list_form_ref(h0: u64, v: &Vec<Form<DataFormReferenceType>>) -> (r: u64)
    ensures
        r == fp_list_form_ref(h0, *v, 0),
    decreases *v, 0int,
{
    let mut h = h0;
    let n = v.len();
    let mut i: usize = 0;
    while i < n
        invariant
            i <= n,
            n == v@.len(),
            fp_list_form_ref(h0, *v, 0) == fp_list_form_ref(h, *v, i as int),
        decreases n - i,
    {
        h = fold_form(h, &v[i]);
        i = i + 1;
    }
    h
}

fn fold_list_feld(h0: u64, v: &Vec<Feld>) -> (r: u64)
    ensures
        r == fp_list_feld(h0, *v, 0),
{
    let mut h = h0;
    let n = v.len();
    let mut i: usize = 0;
    while i < n
        invariant
            i <= n,
            n == v@.len(),
            fp_list_feld(h0, *v, 0) == fp_list_feld(h, *v, i as int),
        decreases n - i,
    {
        h = fold_feld(h, &v[i]);
        i = i + 1;
    }
    h
}

fn fold_list_feld_wert(h0: u64, v: &Vec<FeldWert>) -> (r: u64)
    ensures
        r == fp_list_feld_wert(h0, *v, 0),
{
    let mut h = h0;
    let n = v.len();
    let mut i: usize = 0;
    while i < n
        invariant
            i <= n,
            n == v@.len(),
            fp_list_feld_wert(h0, *v, 0) == fp_list_feld_wert(h, *v, i as int),
        decreases n - i,
    {
        h = fold_feld_wert(h, &v[i]);
        i = i + 1;
    }
    h
}

fn fold_list_form_entry(h0: u64, v: &Vec<crate::model::other::Entry>) -> (r: u64)
    ensures
        r == fp_list_form_entry(h0, *v, 0),
    decreases *v, 0int,
{
    let mut h = h0;
    let n = v.len();
    let mut i: usize = 0;
    while i < n
        invariant
            i <= n,
            n == v@.len(),
            fp_list_form_entry(h0, *v, 0) == fp_list_form_entry(h, *v, i as int),
        decreases n - i,
    {
        h = fold_form_entry(h, &v[i]);
        i = i + 1;
    }
    h
}

fn fold_list_haeufigkeit(h0: u64, v: &Vec<Haeufigkeit>) -> (r: u64)
    ensures
        r == fp_list_haeufigkeit(h0, *v, 0),
{
    let mut h = h0;
    let n = v.len();
    let mut i: usize = 0;
    while i < n
        invariant
            i <= n,
            n == v@.len(),
            fp_list_haeufigkeit(h0, *v, 0) == fp_list_haeufigkeit(h, *v, i as int),
        decreases n - i,
    {
        h = fold_haeufigkeit(h, &v[i]);
        i = i + 1;
    }
    h
}

fn fold_list_kennzahl(h0: u64, v: &Vec<Kennzahl>) -> (r: u64)
    ensures
        r == fp_list_kennzahl(h0, *v, 0),
{
    let mut h = h0;
    let n = v.len();
    let mut i: usize = 0;
    while i < n
        invariant
            i <= n,
            n == v@.len(),
            fp_list_kennzahl(h0, *v, 0) == fp_list_kennzahl(h, *v, i as int),
        decreases n - i,
    {
        h = fold_kennzahl(h, &v[i]);
        i = i + 1;
    }
    h
}

fn fold_list_plausibility_rule(h0: u64, v: &Vec<PlausibilityRule<DataFormEntries>>) -> (r: u64)
    ensures
        r == fp_list_plausibility_rule(h0, *v, 0),
{
    let mut h = h0;
    let n = v.len();
    let mut i: usize = 0;
    while i < n
        invariant
            i <= n,
            n == v@.len(),
            fp_list_plausibility_rule(h0, *v, 0) == fp_list_plausibility_rule(h, *v, i as int),
        decreases n - i,
    {
        h = fold_plausibility_rule(h, &v[i]);
        i = i + 1;
    }
    h
}

fn fold_list_program_module(h0: u64, v: &Vec<ProgramModule>) -> (r: u64)
    ensures
        r == fp_list_program_module(h0, *v, 0),
{
    let mut h = h0;
    let n = v.len();
    let mut i: usize = 0;
    while i < n
        invariant
            i <= n,
            n == v@.len(),
            fp_list_program_module(h0, *v, 0) == fp_list_program_module(h, *v, i as int),
        decreases n - i,
    {
        h = fold_program_module(h, &v[i]);
        i = i + 1;
    }
    h
}

fn fold_list_punkte_kategorie(h0: u64, v: &Vec<PunkteKategorie>) -> (r: u64)
    ensures
        r == fp_list_punkte_kategorie(h0, *v, 0),
{
    let mut h = h0;
    let n = v.len();
    let mut i: usize = 0;
    while i < n
        invariant
            i <= n,
            n == v@.len(),
            fp_list_punkte_kategorie(h0, *v, 0) == fp_list_punkte_kategorie(h, *v, i as int),
        decreases n - i,
    {
        h = fold_punkte_kategorie(h, &v[i]);
        i = i + 1;
    }
    h
}

fn fold_list_string(h0: u64, v: &Vec<String>) -> (r: u64)
    ensures
        r == fp_list_string(h0, *v, 0),
{
    let mut h = h0;
    let n = v.len();
    let mut i: usize = 0;
    while i < n
        invariant
            i <= n,
            n == v@.len(),
            fp_list_string(h0, *v, 0) == fp_list_string(h, *v, i as int),
        decreases n - i,
    {
        h = mix_str(h, &v[i]);
        i = i + 1;
    }
    h
}

fn fold_list_version(h0: u64, v: &Vec<Version>) -> (r: u64)
    ensures
        r == fp_list_version(h0, *v, 0),
{
    let mut h = h0;
    let n = v.len();
    let mut i: usize = 0;
    while i < n
        invariant
            i <= n,
            n == v@.len(),
            fp_list_version(h0, *v, 0) == fp_list_version(h, *v, i as int),
        decreases n - i,
    {
        h = fold_version(h, &v[i]);
        i = i + 1;
    }
    h
}

fn fold_list_version_entry(h0: u64, v: &Vec<VersionEntry>) -> (r: u64)
    ensures
        r == fp_list_version_entry(h0, *v, 0),
{
    let mut h = h0;
    let n = v.len();
    let mut i: usize = 0;
    while i < n
        invariant
            i <= n,
            n == v@.len(),
            fp_list_version_entry(h0, *v, 0) == fp_list_version_entry(h, *v, i as int),
        decreases n - i,
    {
        h = fold_version_entry(h, &v[i]);
        i = i + 1;
    }
    h
}

fn fold_opt_list_abbildung(h0: u64, s: &Option<Vec<Abbildung>>) -> (r: u64)
    ensures
        r == (match *s {
            Some(v) => fp_list_abbildung(mix_one(h0, 1), v, 0),
            None => mix_one(h0, 0),
        }),
{
    match s {
        Some(v) => {
            let h = mix_u64(h0, 1);
            fold_list_abbildung(h, v)
        },
        None => mix_u64(h0, 0),
    }
}

fn fold_opt_list_string(h0: u64, s: &Option<Vec<String>>) -> (r: u64)
    ensures
        r == (match *s {
            Some(v) => fp_list_string(mix_one(h0, 1), v, 0),
            None => mix_one(h0, 0),
        }),
{
    match s {
        Some(v) => {
            let h = mix_u64(h0, 1);
            fold_list_string(h, v)
        },
        None => mix_u64(h0, 0),
    }
}

fn fold_opt_list_version(h0: u64, s: &Option<Vec<Version>>) -> (r: u64)
    ensures
        r == (match *s {
            Some(v) => fp_list_version(mix_one(h0, 1), v, 0),
            None => mix_one(h0, 0),
        }),
{
    match s {
        Some(v) => {
            let h = mix_u64(h0, 1);
            fold_list_version(h, v)
        },
        None => mix_u64(h0, 0),
    }
}

fn fold_opt_ansichten(h0: u64, s: &Option<Ansichten>) -> (r: u64)
    ensures
        r == (match *s {
            Some(v) => fp_ansichten(mix_one(h0, 1), v),
            None => mix_one(h0, 0),
        }),
{
    match s {
        Some(v) => {
            let h = mix_u64(h0, 1);
            fold_ansichten(h, v)
        },
        None => mix_u64(h0, 0),
    }
}

fn fold_opt_box_ordner(h0: u64, s: &Option<Box<Ordner>>) -> (r: u64)
    ensures
        r == (match *s {
            Some(v) => fp_ordner(mix_one(h0, 1), *v),
            None => mix_one(h0, 0),
        }),
    decreases *s, 0int,
{
    match s {
        Some(v) => {
            let h = mix_u64(h0, 1);
            fold_ordner(h, v)
        },
        None => mix_u64(h0, 0),
    }
}

fn fold_opt_categories(h0: u64, s: &Option<Categories>) -> (r: u64)
    ensures
        r == (match *s {
            Some(v) => fp_categories(mix_one(h0, 1), v),
            None => mix_one(h0, 0),
        }),
{
    match s {
        Some(v) => {
            let h = mix_u64(h0, 1);
            fold_categories(h, v)
        },
        None => mix_u64(h0, 0),
    }
}

fn fold_opt_data_catalogues(h0: u64, s: &Option<DataCatalogues>) -> (r: u64)
    ensures
        r == (match *s {
            Some(v) => fp_data_catalogues(mix_one(h0, 1), v),
            None => mix_one(h0, 0),
        }),
{
    match s {
        Some(v) => {
            let h = mix_u64(h0, 1);
            fold_data_catalogues(h, v)
        },
        None => mix_u64(h0, 0),
    }
}

fn fold_opt_feld_werte(h0: u64, s: &Option<FeldWerte>) -> (r: u64)
    ensures
        r == (match *s {
            Some(v) => fp_feld_werte(mix_one(h0, 1), v),
            None => mix_one(h0, 0),
        }),
{
    match s {
        Some(v) => {
            let h = mix_u64(h0, 1);
            fold_feld_werte(h, v)
        },
        None => mix_u64(h0, 0),
    }
}

fn fold_opt_felder(h0: u64, s: &Option<Felder>) -> (r: u64)
    ensures
        r == (match *s {
            Some(v) => fp_felder(mix_one(h0, 1), v),
            None => mix_one(h0, 0),
        }),
{
    match s {
        Some(v) => {
            let h = mix_u64(h0, 1);
            fold_felder(h, v)
        },
        None => mix_u64(h0, 0),
    }
}

fn fold_opt_filter(h0: u64, s: &Option<Filter>) -> (r: u64)
    ensures
        r == (match *s {
            Some(v) => fp_filter(mix_one(h0, 1), v),
            None => mix_one(h0, 0),
        }),
{
    match s {
        Some(v) => {
            let h = mix_u64(h0, 1);
            fold_filter(h, v)
        },
        None => mix_u64(h0, 0),
    }
}

fn fold_opt_haeufigkeiten(h0: u64, s: &Option<Haeufigkeiten>) -> (r: u64)
    ensures
        r == (match *s {
            Some(v) => fp_haeufigkeiten(mix_one(h0, 1), v),
            None => mix_one(h0, 0),
        }),
{
    match s {
        Some(v) => {
            let h = mix_u64(h0, 1);
            fold_haeufigkeiten(h, v)
        },
        None => mix_u64(h0, 0),
    }
}

fn fold_opt_kennzahlen(h0: u64, s: &Option<Kennzahlen>) -> (r: u64)
    ensures
        r == (match *s {
            Some(v) => fp_kennzahlen(mix_one(h0, 1), v),
            None => mix_one(h0, 0),
        }),
{
    match s {
        Some(v) => {
            let h = mix_u64(h0, 1);
            fold_kennzahlen(h, v)
        },
        None => mix_u64(h0, 0),
    }
}

fn fold_opt_menu_category(h0: u64, s: &Option<MenuCategory>) -> (r: u64)
    ensures
        r == (match *s {
            Some(v) => fp_menu_category(mix_one(h0, 1), v),
            None => mix_one(h0, 0),
        }),
{
    match s {
        Some(v) => {
            let h = mix_u64(h0, 1);
            fold_menu_category(h, v)
        },
        None => mix_u64(h0, 0),
    }
}

fn fold_opt_ordner(h0: u64, s: &Option<Ordner>) -> (r: u64)
    ensures
        r == (match *s {
            Some(v) => fp_ordner(mix_one(h0, 1), v),
            None => mix_one(h0, 0),
        }),
{
    match s {
        Some(v) => {
            let h = mix_u64(h0, 1);
            fold_ordner(h, v)
        },
        None => mix_u64(h0, 0),
    }
}

fn fold_opt_punkte_kategorien(h0: u64, s: &Option<PunkteKategorien>) -> (r: u64)
    ensures
        r == (match *s {
            Some(v) => fp_punkte_kategorien(mix_one(h0, 1), v),
            None => mix_one(h0, 0),
        }),
{
    match s {
        Some(v) => {
            let h = mix_u64(h0, 1);
            fold_punkte_kategorien(h, v)
        },
        None => mix_u64(h0, 0),
    }
}

fn fold_opt_ref_entries(h0: u64, s: &Option<RefEntries>) -> (r: u64)
    ensures
        r == (match *s {
            Some(v) => fp_ref_entries(mix_one(h0, 1), v),
            None => mix_one(h0, 0),
        }),
{
    match s {
        Some(v) => {
            let h = mix_u64(h0, 1);
            fold_ref_entries(h, v)
        },
        None => mix_u64(h0, 0),
    }
}

fn fold_opt_referenced_data_form(h0: u64, s: &Option<ReferencedDataForm>) -> (r: u64)
    ensures
        r == (match *s {
            Some(v) => fp_referenced_data_form(mix_one(h0, 1), v),
            None => mix_one(h0, 0),
        }),
    decreases *s, 2int,
{
    match s {
        Some(v) => {
            let h = mix_u64(h0, 1);
            fold_referenced_data_form(h, v)
        },
        None => mix_u64(h0, 0),
    }
}

fn fold_opt_script(h0: u64, s: &Option<Script>) -> (r: u64)
    ensures
        r == (match *s {
            Some(v) => fp_script(mix_one(h0, 1), v),
            None => mix_one(h0, 0),
        }),
{
    match s {
        Some(v) => {
            let h = mix_u64(h0, 1);
            fold_script(h, v)
        },
        None => mix_u64(h0, 0),
    }
}

fn fold_opt_use(h0: u64, s: &Option<Use>) -> (r: u64)
    ensures
        r == (match *s {
            Some(v) => fp_use(mix_one(h0, 1), v),
            None => mix_one(h0, 0),
        }),
{
    match s {
        Some(v) => {
            let h = mix_u64(h0, 1);
            fold_use(h, v)
        },
        None => mix_u64(h0, 0),
    }
}

fn fold_opt_version_entries(h0: u64, s: &Option<VersionEntries>) -> (r: u64)
    ensures
        r == (match *s {
            Some(v) => fp_version_entries(mix_one(h0, 1), v),
            None => mix_one(h0, 0),
        }),
{
    match s {
        Some(v) => {
            let h = mix_u64(h0, 1);
            fold_version_entries(h, v)
        },
        None => mix_u64(h0, 0),
    }
}

fn fold_opt_entries(
    h0: u64,
    s: &Option<crate::model::Entries<crate::model::other::Entry>>,
) -> (r: u64)
    ensures
        r == (match *s {
            Some(es) => fp_list_form_entry(mix_one(h0, 1), es.entry, 0),
            None => mix_one(h0, 0),
        }),
    decreases *s, 1int,
{
    match s {
        Some(es) => {
            let h = mix_u64(h0, 1);
            fold_list_form_entry(h, &es.entry)
        },
        None => mix_u64(h0, 0),
    }
}

fn fold_opt_rules(
    h0: u64,
    s: &Option<crate::model::PlausibilityRules<DataFormEntries>>,
) -> (r: u64)
    ensures
        r == (match *s {
            Some(pr) => (match pr.plausibility_rule {
                Some(v) => fp_list_plausibility_rule(mix_one(mix_one(h0, 1), 1), v, 0),
                None => mix_one(mix_one(h0, 1), 0),
            }),
            None => mix_one(h0, 0),
        }),
{
    match s {
        Some(pr) => {
            let h = mix_u64(h0, 1);
            match &pr.plausibility_rule {
                Some(v) => {
                    let h = mix_u64(h, 1);
                    fold_list_plausibility_rule(h, v)
                },
                None => mix_u64(h, 0),
            }
        },
        None => mix_u64(h0, 0),
    }
}

fn fold_bibliothek(h0: u64, x: &Bibliothek) -> (r: u64)
    ensures
        r == fp_bibliothek(h0, *x),
{
    let mut h = h0;
    h = mix_str(h, &x.name);
    h
}

fn fold_ordner(h0: u64, x: &Ordner) -> (r: u64)
    ensures
        r == fp_ordner(h0, *x),
    decreases *x, 1int,
{
    let mut h = h0;
    h = fold_bibliothek(h, &x.bibliothek);
    h = mix_str(h, &x.name);
    h = mix_str(h, &x.typ);
    h = fold_opt_box_ordner(h, &x.parent_order);
    h
}

fn fold_script(h0: u64, x: &Script) -> (r: u64)
    ensures
        r == fp_script(h0, *x),
{
    let mut h = h0;
    h = mix_str(h, &x.code);
    h = mix_bool(h, x.valid);
    h
}

fn fold_filter(h0: u64, x: &Filter) -> (r: u64)
    ensures
        r == fp_filter(h0, *x),
{
    let mut h = h0;
    h = mix_str(h, &x.condition);
    h = mix_bool(h, x.valid);
    h = fold_opt_ref_entries(h, &x.ref_entries);
    h
}

fn fold_ref_entries(h0: u64, x: &RefEntries) -> (r: u64)
    ensures
        r == fp_ref_entries(h0, *x),
{
    let mut h = h0;
    h = fold_opt_list_string(h, &x.ref_entry);
    h
}

fn fold_menu_category(h0: u64, x: &MenuCategory) -> (r: u64)
    ensures
        r == fp_menu_category(h0, *x),
{
    let mut h = h0;
    h = mix_str(h, &x.name);
    h = mix_str(h, &x.position);
    h = mix_str(h, &x.column);
    h
}

fn fold_ansicht(h0: u64, x: &Ansicht) -> (r: u64)
    ensures
        r == fp_ansicht(h0, *x),
{
    let mut h = h0;
    h = mix_str(h, &x.name);
    h = mix_str(h, &x.beschreibung);
    h = mix_str(h, &x.konfiguration);
    h = mix_opt_str(h, &x.data_form);
    h = mix_opt_str(h, &x.data_catalogue);
    h = mix_str(h, &x.typ_auswahl);
    h = mix_opt_str(h, &x.personenstamm_kontext);
    h = mix_bool(h, x.suche);
    h = mix_str(h, &x.sid);
    h = mix_str(h, &x.guid);
    h = mix_u64(h, x.revision as u64);
    h = mix_bool(h, x.in_bibliothek_ausliefern);
    h
}

fn fold_ansichten(h0: u64, x: &Ansichten) -> (r: u64)
    ensures
        r == fp_ansichten(h0, *x),
{
    let mut h = h0;
    h = fold_list_ansicht(h, &x.program_module);
    h
}

fn fold_punkte_kategorien(h0: u64, x: &PunkteKategorien) -> (r: u64)
    ensures
        r == fp_punkte_kategorien(h0, *x),
{
    let mut h = h0;
    h = fold_list_punkte_kategorie(h, &x.punkte_kategorie);
    h
}

fn fold_punkte_kategorie(h0: u64, x: &PunkteKategorie) -> (r: u64)
    ensures
        r == fp_punkte_kategorie(h0, *x),
{
    let mut h = h0;
    h = mix_str(h, &x.name);
    h = mix_str(h, &x.beschreibung);
    h = mix_u64(h, x.max_leerwerte as u64);
    h = mix_str(h, &x.berechnung);
    h = fold_opt_felder(h, &x.felder);
    h = mix_str(h, &x.vergleichswerttabellen);
    h
}

fn fold_felder(h0: u64, x: &Felder) -> (r: u64)
    ensures
        r == fp_felder(h0, *x),
{
    let mut h = h0;
    h = fold_list_feld(h, &x.feld);
    h
}

fn fold_feld(h0: u64, x: &Feld) -> (r: u64)
    ensures
        r == fp_feld(h0, *x),
{
    let mut h = h0;
    h = mix_str(h, &x.data_form_entry_name);
    h = mix_bool(h, x.manuelle_punkte);
    h = fold_opt_feld_werte(h, &x.werte);
    h
}

fn fold_feld_werte(h0: u64, x: &FeldWerte) -> (r: u64)
    ensures
        r == fp_feld_werte(h0, *x),
{
    let mut h = h0;
    h = fold_list_feld_wert(h, &x.wert);
    h
}

fn fold_feld_wert(h0: u64, x: &FeldWert) -> (r: u64)
    ensures
        r == fp_feld_wert(h0, *x),
{
    let mut h = h0;
    h = mix_str(h, &x.wert);
    h = mix_str(h, &x.punkte);
    h
}

fn fold_haeufigkeiten(h0: u64, x: &Haeufigkeiten) -> (r: u64)
    ensures
        r == fp_haeufigkeiten(h0, *x),
{
    let mut h = h0;
    h = fold_list_haeufigkeit(h, &x.haeufigkeit);
    h
}

fn fold_haeufigkeit(h0: u64, x: &Haeufigkeit) -> (r: u64)
    ensures
        r == fp_haeufigkeit(h0, *x),
{
    let mut h = h0;
    h = mix_str(h, &x.name);
    h = mix_str(h, &x.beschreibung);
    h = mix_str(h, &x.notiz);
    h = mix_bool(h, x.status);
    h = mix_str(h, &x.formel);
    h = mix_str(h, &x.analysezweck);
    h = mix_str(h, &x.position);
    h = mix_str(h, &x.ueberschrift);
    h = mix_bool(h, x.taeglich_aktualisieren);
    h = mix_str(h, &x.typ);
    h = mix_opt_str(h, &x.nicht_berechnen);
    h = mix_opt_str(h, &x.tabellen_name);
    h
}

fn fold_kennzahlen(h0: u64, x: &Kennzahlen) -> (r: u64)
    ensures
        r == fp_kennzahlen(h0, *x),
{
    let mut h = h0;
    h = fold_list_kennzahl(h, &x.kennzahl);
    h
}

fn fold_kennzahl(h0: u64, x: &Kennzahl) -> (r: u64)
    ensures
        r == fp_kennzahl(h0, *x),
{
    let mut h = h0;
    h = mix_str(h, &x.name);
    h = mix_str(h, &x.nummer);
    h = mix_str(h, &x.beschreibung);
    h = mix_str(h, &x.notiz);
    h = mix_str(h, &x.vorgabe);
    h = mix_str(h, &x.haeufigkeitenzaehler);
    h = mix_str(h, &x.haeufigkeitennenner);
    h
}

fn fold_data_form_entries(h0: u64, x: &DataFormEntries) -> (r: u64)
    ensures
        r == fp_data_form_entries(h0, *x),
{
    let mut h = h0;
    h = fold_opt_list_string(h, &x.entry_name);
    h
}

fn fold_plausibility_rule(h0: u64, x: &PlausibilityRule<DataFormEntries>) -> (r: u64)
    ensures
        r == fp_plausibility_rule(h0, *x),
{
    let mut h = h0;
    h = mix_str(h, &x.type_);
    h = mix_str(h, &x.message);
    h = mix_str(h, &x.description);
    h = mix_str(h, &x.bezeichnung);
    h = mix_str(h, &x.formula);
    h = mix_bool(h, x.active);
    h = mix_bool(h, x.editable);
    h = mix_bool(h, x.valid);
    h = mix_opt_str(h, &x.condition);
    h = mix_opt_bool(h, &x.condition_valid);
    h = mix_str(h, &x.statusauswirkung);
    h = fold_data_form_entries(h, &x.data_form_entries);
    h
}

fn fold_data_catalogues(h0: u64, x: &DataCatalogues) -> (r: u64)
    ensures
        r == fp_data_catalogues(h0, *x),
{
    let mut h = h0;
    h = fold_list_string(h, &x.data_catalogue);
    h
}

fn fold_version_entry(h0: u64, x: &VersionEntry) -> (r: u64)
    ensures
        r == fp_version_entry(h0, *x),
{
    let mut h = h0;
    h = mix_str(h, &x.code);
    h = mix_str(h, &x.short_description);
    h = mix_opt_str(h, &x.description);
    h = mix_opt_str(h, &x.synonyms);
    h = mix_opt_str(h, &x.note);
    h = mix_opt_str(h, &x.type_);
    h = mix_str(h, &x.position);
    h
}

fn fold_version_entries(h0: u64, x: &VersionEntries) -> (r: u64)
    ensures
        r == fp_version_entries(h0, *x),
{
    let mut h = h0;
    h = fold_list_version_entry(h, &x.content);
    h
}

fn fold_category_entry(h0: u64, x: &CategoryEntry) -> (r: u64)
    ensures
        r == fp_category_entry(h0, *x),
{
    let mut h = h0;
    h = mix_str(h, &x.code);
    h = mix_opt_str(h, &x.shortdesc);
    h = mix_opt_str(h, &x.description);
    h = mix_opt_str(h, &x.synonyms);
    h = mix_opt_str(h, &x.note);
    h
}

fn fold_category_entries(h0: u64, x: &CategoryEntries) -> (r: u64)
    ensures
        r == fp_category_entries(h0, *x),
{
    let mut h = h0;
    h = fold_list_category_entry(h, &x.content);
    h
}

fn fold_category(h0: u64, x: &Category) -> (r: u64)
    ensures
        r == fp_category(h0, *x),
{
    let mut h = h0;
    h = mix_str(h, &x.name);
    h = mix_str(h, &x.position);
    h = mix_bool(h, x.auswahldialog);
    h = mix_u64(h, x.entry_count as u64);
    h = mix_str(h, &x.beschreibung);
    h = fold_category_entries(h, &x.category_entries);
    h
}

fn fold_categories(h0: u64, x: &Categories) -> (r: u64)
    ensures
        r == fp_categories(h0, *x),
{
    let mut h = h0;
    h = fold_list_category(h, &x.content);
    h
}

fn fold_abbildung_entry(h0: u64, x: &AbbildungEntry) -> (r: u64)
    ensures
        r == fp_abbildung_entry(h0, *x),
{
    let mut h = h0;
    h = mix_str(h, &x.code);
    h = mix_str(h, &x.short_description);
    h = mix_str(h, &x.description);
    h = mix_opt_str(h, &x.synonyms);
    h = mix_opt_str(h, &x.note);
    h = mix_str(h, &x.position);
    h
}

fn fold_abbildung_eintrag(h0: u64, x: &AbbildungEintrag) -> (r: u64)
    ensures
        r == fp_abbildung_eintrag(h0, *x),
{
    let mut h = h0;
    h = fold_abbildung_entry(h, &x.entry_from);
    h = fold_abbildung_entry(h, &x.entry_to);
    h
}

fn fold_abbildung(h0: u64, x: &Abbildung) -> (r: u64)
    ensures
        r == fp_abbildung(h0, *x),
{
    let mut h = h0;
    h = mix_str(h, &x.ziel_mk_version_oid);
    h = fold_list_abbildung_eintrag(h, &x.content);
    h
}

fn fold_version(h0: u64, x: &Version) -> (r: u64)
    ensures
        r == fp_version(h0, *x),
{
    let mut h = h0;
    h = mix_u64(h, x.version_number as u64);
    h = mix_str(h, &x.valid_from);
    h = mix_str(h, &x.oid);
    h = mix_bool(h, x.active);
    h = mix_str(h, &x.description);
    h = mix_opt_str(h, &x.lkr_code);
    h = mix_str(h, &x.sid);
    h = mix_str(h, &x.guid);
    h = mix_u64(h, x.revision as u64);
    h = fold_opt_version_entries(h, &x.entries);
    h = fold_opt_list_abbildung(h, &x.abbildung);
    h = fold_opt_categories(h, &x.categories);
    h
}

fn fold_versions(h0: u64, x: &Versions) -> (r: u64)
    ensures
        r == fp_versions(h0, *x),
{
    let mut h = h0;
    h = fold_opt_list_version(h, &x.entry);
    h
}

fn fold_property_catalogue(h0: u64, x: &PropertyCatalogue) -> (r: u64)
    ensures
        r == fp_property_catalogue(h0, *x),
{
    let mut h = h0;
    h = mix_str(h, &x.name);
    h = mix_opt_str(h, &x.description);
    h = mix_str(h, &x.standard);
    h = mix_bool(h, x.readonly);
    h = mix_opt_str(h, &x.anmerkung);
    h = mix_str(h, &x.sid);
    h = mix_str(h, &x.guid);
    h = mix_u64(h, x.revision as u64);
    h = fold_versions(h, &x.versions);
    h = fold_ordner(h, &x.ordner);
    h
}

fn fold_program_module(h0: u64, x: &ProgramModule) -> (r: u64)
    ensures
        r == fp_program_module(h0, *x),
{
    let mut h = h0;
    h = mix_str(h, &x.program);
    h = mix_str(h, &x.name);
    h
}

fn fold_use(h0: u64, x: &Use) -> (r: u64)
    ensures
        r == fp_use(h0, *x),
{
    let mut h = h0;
    h = fold_list_program_module(h, &x.program_module);
    h
}

fn fold_dc_entry_p0(h0: u64, x: &crate::model::data_catalogue::Entry) -> (r: u64)
    ensures
        r == fp_dc_entry_p0(h0, *x),
{
    let mut h = h0;
    h = mix_opt_str(h, &x.property_catalogue);
    h = mix_str(h, &x.name);
    h = mix_str(h, &x.name_export);
    h = mix_str(h, &x.description);
    h = mix_str(h, &x.entry_type);
    h = mix_str(h, &x.sub_table);
    h = mix_str(h, &x.scale_unit);
    h = mix_u64(h, x.max_length as u64);
    h = mix_str(h, &x.default_value);
    h = mix_bool(h, x.active);
    h = mix_bool(h, x.read_only);
    h = mix_bool(h, x.filterable);
    h = mix_opt_str(h, &x.range_from);
    h = mix_opt_str(h, &x.range_until);
    h = mix_bool(h, x.multiple_choice);
    h = mix_str(h, &x.position);
    h = mix_str(h, &x.note);
    h = mix_bool(h, x.date_estimated_allowed);
    h
}

fn fold_dc_entry_p1(h0: u64, x: &crate::model::data_catalogue::Entry) -> (r: u64)
    ensures
        r == fp_dc_entry_p1(h0, *x),
{
    let mut h = h0;
    h = mix_bool(h, x.date_unknown_allowed);
    h = mix_str(h, &x.oe_choice_options);
    h = mix_bool(h, x.fachabteilungsbezug);
    h = fold_opt_use(h, &x.use_);
    h = match &x.feste_nachkommastellen {
        Some(v) => mix_u64(mix_u64(h, 1), *v as u64),
        None => mix_u64(h, 0),
    };
    h = mix_str(h, &x.sid);
    h = mix_str(h, &x.guid);
    h = mix_u64(h, x.revision as u64);
    h
}

fn fold_dc_entry(h0: u64, x: &crate::model::data_catalogue::Entry) -> (r: u64)
    ensures
        r == fp_dc_entry(h0, *x),
{
    let mut h = h0;
    h = fold_dc_entry_p0(h, x);
    h = fold_dc_entry_p1(h, x);
    h
}

fn fold_dc_entries(h0: u64, x: &crate::model::data_catalogue::Entries) -> (r: u64)
    ensures
        r == fp_dc_entries(h0, *x),
{
    let mut h = h0;
    h = fold_list_dc_entry(h, &x.entry);
    h
}

fn fold_data_catalogue(h0: u64, x: &DataCatalogue) -> (r: u64)
    ensures
        r == fp_data_catalogue(h0, *x),
{
    let mut h = h0;
    h = mix_str(h, &x.name);
    h = mix_str(h, &x.name_export);
    h = mix_str(h, &x.category);
    h = mix_str(h, &x.description);
    h = mix_str(h, &x.note);
    h = mix_bool(h, x.readonly);
    h = mix_bool(h, x.best_of);
    h = mix_str(h, &x.sid);
    h = mix_str(h, &x.guid);
    h = mix_u64(h, x.revision as u64);
    h = fold_dc_entries(h, &x.entries);
    h = fold_ordner(h, &x.ordner);
    h = fold_opt_ansichten(h, &x.ansichten);
    h
}

fn fold_referenced_data_form(h0: u64, x: &ReferencedDataForm) -> (r: u64)
    ensures
        r == fp_referenced_data_form(h0, *x),
    decreases *x, 1int,
{
    let mut h = h0;
    h = fold_list_form_ref(h, &x.referenced_data_form);
    h
}

fn fold_form_entry_p0(h0: u64, x: &crate::model::other::Entry) -> (r: u64)
    ensures
        r == fp_form_entry_p0(h0, *x),
    decreases *x, 1int,
{
    let mut h = h0;
    h = match &x.parent_id {
        Some(v) => mix_u64(mix_u64(h, 1), *v as u64),
        None => mix_u64(h, 0),
    };
    h = match &x.parent_ref_id {
        Some(v) => mix_u64(mix_u64(h, 1), *v as u64),
        None => mix_u64(h, 0),
    };
    h = mix_str(h, &x.type_);
    h = mix_str(h, &x.name);
    h = mix_str(h, &x.description);
    h = mix_bool(h, x.active);
    h = mix_bool(h, x.read_only);
    h = mix_bool(h, x.printable);
    h = mix_str(h, &x.position);
    h = mix_str(h, &x.note);
    h = mix_opt_str(h, &x.beschriftung1);
    h = mix_opt_str(h, &x.beschriftung2);
    h = mix_opt_str(h, &x.wert_anzeigen_patmodul);
    h = mix_bool(h, x.multiple_choice);
    h = mix_str(h, &x.default_value);
    h = mix_str(h, &x.alignment);
    h = mix_str(h, &x.direction);
    h = mix_str(h, &x.data_catalogue_entry);
    h
}

fn fold_form_entry_p1(h0: u64, x: &crate::model::other::Entry) -> (r: u64)
    ensures
        r == fp_form_entry_p1(h0, *x),
    decreases *x, 1int,
{
    let mut h = h0;
    h = mix_opt_str(h, &x.data_catalogue_entry_table);
    h = mix_str(h, &x.element_parent);
    h = mix_str(h, &x.procedure_date_status);
    h = mix_str(h, &x.zuordnung_erkrankung);
    h = mix_opt_str(h, &x.grafik);
    h = mix_opt_str(h, &x.grafik_ausrichtung);
    h = mix_str(h, &x.mandatory);
    h = mix_opt_str(h, &x.datenart);
    h = fold_opt_filter(h, &x.filter);
    h = mix_bool(h, x.not_specified);
    h = fold_opt_script(h, &x.scripts);
    h = mix_opt_str(h, &x.referenced_data_form);
    h = mix_opt_str(h, &x.referenced_data_form_field);
    h = mix_str(h, &x.anzeige);
    h = mix_opt_str(h, &x.anzeige_auswahl);
    h = mix_opt_str(h, &x.druckvorlage);
    h = mix_opt_str(h, &x.version_from);
    h = mix_str(h, &x.speichern);
    h
}

fn fold_form_entry_p2(h0: u64, x: &crate::model::other::Entry) -> (r: u64)
    ensures
        r == fp_form_entry_p2(h0, *x),
    decreases *x, 1int,
{
    let mut h = h0;
    h = mix_bool(h, x.leer_ausblenden);
    h = mix_opt_str(h, &x.inhalt);
    h = mix_bool(h, x.geschlossen_anzeigen);
    h = mix_u64(h, x.min as u64);
    h = mix_u64(h, x.max as u64);
    h = mix_bool(h, x.in_uebersicht_anzeigen);
    h = mix_opt_str(h, &x.hinweis);
    h = mix_opt_str(h, &x.vorschlagskategorie);
    h = mix_opt_str(h, &x.category_filer_name);
    h = mix_opt_str(h, &x.platzhalter);
    h = mix_bool(h, x.show_auspraegungen);
    h = mix_bool(h, x.prozedurdatum_uebernehmen);
    h = mix_bool(h, x.vorschlaege);
    h = mix_str(h, &x.anzeige_auswahldialog);
    h = mix_str(h, &x.suche_auswahldialog);
    h = mix_opt_str(h, &x.info_auswahldialog);
    h = mix_opt_str(h, &x.disease_category_filter);
    h = match &x.mindestbreite_label {
        Some(v) => mix_u64(mix_u64(h, 1), *v as u64),
        None => mix_u64(h, 0),
    };
    h
}

fn fold_form_entry_p3(h0: u64, x: &crate::model::other::Entry) -> (r: u64)
    ensures
        r == fp_form_entry_p3(h0, *x),
    decreases *x, 1int,
{
    let mut h = h0;
    h = match &x.mindestbreite_feld {
        Some(v) => mix_u64(mix_u64(h, 1), *v as u64),
        None => mix_u64(h, 0),
    };
    h = mix_opt_str(h, &x.ou_filter);
    h = mix_opt_str(h, &x.aktion);
    h = mix_opt_str(h, &x.top10);
    h = mix_u64(h, x.groesse_textfeld as u64);
    h = mix_bool(h, x.filter_aufheben);
    h = mix_bool(h, x.resizable);
    h = mix_opt_bool(h, &x.verschluesselt);
    h = match &x.memo_width {
        Some(v) => mix_u64(mix_u64(h, 1), *v as u64),
        None => mix_u64(h, 0),
    };
    h = match &x.memo_height {
        Some(v) => mix_u64(mix_u64(h, 1), *v as u64),
        None => mix_u64(h, 0),
    };
    h = mix_opt_str(h, &x.memo_art);
    h = mix_str(h, &x.date_valid_from);
    h = mix_str(h, &x.date_valid_to);
    h = mix_bool(h, x.date_valid_future);
    h = mix_opt_str(h, &x.titel);
    h = mix_bool(h, x.in_auswertung);
    h = mix_bool(h, x.in_auswertung_graph);
    h = match &x.fragebogen_item_nummer {
        Some(v) => mix_u64(mix_u64(h, 1), *v as u64),
        None => mix_u64(h, 0),
    };
    h
}

fn fold_form_entry_p4(h0: u64, x: &crate::model::other::Entry) -> (r: u64)
    ensures
        r == fp_form_entry_p4(h0, *x),
    decreases *x, 1int,
{
    let mut h = h0;
    h = mix_opt_str(h, &x.score);
    h = mix_str(h, &x.alignment_pat_modul);
    h = mix_str(h, &x.direction_pat_modul);
    h = mix_bool(h, x.seitenumbruch_pat_modul);
    h = mix_opt_str(h, &x.kontaktliste);
    h = mix_bool(h, x.markierung_ignorieren);
    h = mix_opt_str(h, &x.suche_art);
    h = mix_str(h, &x.sid);
    h = mix_str(h, &x.guid);
    h = mix_u64(h, x.revision as u64);
    h = mix_opt_str(h, &x.vorherige_werte);
    h = mix_opt_str(h, &x.einfuegen_verhindern);
    h = fold_opt_referenced_data_form(h, &x.data_form_references);
    h
}

fn fold_form_entry(h0: u64, x: &crate::model::other::Entry) -> (r: u64)
    ensures
        r == fp_form_entry(h0, *x),
    decreases *x, 2int,
{
    let mut h = h0;
    h = fold_form_entry_p0(h, x);
    h = fold_form_entry_p1(h, x);
    h = fold_form_entry_p2(h, x);
    h = fold_form_entry_p3(h, x);
    h = fold_form_entry_p4(h, x);
    h
}

fn fold_form_p0<Type>(h0: u64, x: &Form<Type>) -> (r: u64)
    ensures
        r == fp_form_p0(h0, *x),
    decreases *x, 1int,
{
    let mut h = h0;
    h = fold_opt_data_catalogues(h, &x.data_catalogues);
    h = mix_str(h, &x.category);
    h = mix_str(h, &x.name);
    h = mix_opt_str(h, &x.version);
    h = mix_opt_str(h, &x.menu_entry);
    h = mix_opt_str(h, &x.title);
    h = mix_opt_str(h, &x.description);
    h = mix_opt_str(h, &x.note);
    h = mix_bool(h, x.readonly);
    h = mix_opt_bool(h, &x.active);
    h = mix_str(h, &x.tudok_position);
    h = mix_opt_str(h, &x.aktenbereich);
    h = mix_opt_bool(h, &x.befragung_relevant);
    h = mix_opt_str(h, &x.hotkey);
    h = mix_opt_str(h, &x.summary);
    h = mix_opt_str(h, &x.big_summary);
    h = mix_opt_str(h, &x.kalender_schnipsel);
    h = mix_opt_str(h, &x.mail_template);
    h
}

fn fold_form_p1<Type>(h0: u64, x: &Form<Type>) -> (r: u64)
    ensures
        r == fp_form_p1(h0, *x),
    decreases *x, 1int,
{
    let mut h = h0;
    h = mix_opt_str(h, &x.erkrankung_text);
    h = mix_opt_str(h, &x.erkrankung_text_long);
    h = mix_opt_str(h, &x.erkrankung_prozedur_text);
    h = mix_opt_str(h, &x.erkrankung_summary);
    h = mix_opt_str(h, &x.erkrankung_big_summary);
    h = match &x.kontext {
        Some(v) => mix_u64(mix_u64(h, 1), (*v as u32) as u64),
        None => mix_u64(h, 0),
    };
    h = mix_opt_str(h, &x.datenart);
    h = mix_opt_bool(h, &x.show_history_button);
    h = mix_opt_bool(h, &x.tudok_readonly);
    h = mix_opt_bool(h, &x.vitalstatus_relevant);
    h = mix_opt_bool(h, &x.auto_nummerierung);
    h = mix_opt_bool(h, &x.zwischenspeichern);
    h = mix_opt_bool(h, &x.zurueckblaettern);
    h = mix_opt_bool(h, &x.datenbankexport);
    h = mix_opt_bool(h, &x.datenschutz_relevant);
    h = mix_opt_bool(h, &x.konferenz_relevant);
    h = mix_opt_str(h, &x.drucken);
    h = mix_bool(h, x.hat_unterformulare);
    h
}

fn fold_form_p2<Type>(h0: u64, x: &Form<Type>) -> (r: u64)
    ensures
        r == fp_form_p2(h0, *x),
    decreases *x, 1int,
{
    let mut h = h0;
    h = fold_opt_script(h, &x.script_beim_schliessen);
    h = fold_opt_script(h, &x.script_beim_speichern);
    h = fold_opt_script(h, &x.script_beim_neuanlegen);
    h = fold_opt_script(h, &x.script_beim_bearbeiten);
    h = fold_opt_script(h, &x.script_beim_kopieren);
    h = fold_opt_script(h, &x.script_beim_import);
    h = fold_opt_script(h, &x.script_beim_anonymisieren);
    h = mix_str(h, &x.sid);
    h = mix_str(h, &x.guid);
    h = mix_u64(h, x.revision as u64);
    h = match &x.max_anzahl {
        Some(v) => mix_u64(mix_u64(h, 1), *v as u64),
        None => mix_u64(h, 0),
    };
    h = mix_opt_str(h, &x.verknuepft_guid);
    h = mix_opt_bool(h, &x.seitenanzahl_sichtbar);
    h = fold_opt_entries(h, &x.entries);
    h = fold_opt_rules(h, &x.plausibility_rules);
    h = fold_opt_haeufigkeiten(h, &x.haeufigkeiten);
    h = fold_opt_kennzahlen(h, &x.kennzahlen);
    h = fold_opt_ordner(h, &x.ordner);
    h
}

fn fold_form_p3<Type>(h0: u64, x: &Form<Type>) -> (r: u64)
    ensures
        r == fp_form_p3(h0, *x),
    decreases *x, 1int,
{
    let mut h = h0;
    h = fold_opt_menu_category(h, &x.menu_category);
    h = fold_opt_punkte_kategorien(h, &x.punkte_kategorien);
    h = fold_opt_ansichten(h, &x.ansichten);
    h
}

fn fold_form<Type>(h0: u64, x: &Form<Type>) -> (r: u64)
    ensures
        r == fp_form(h0, *x),
    decreases *x, 2int,
{
    let mut h = h0;
    h = fold_form_p0(h, x);
    h = fold_form_p1(h, x);
    h = fold_form_p2(h, x);
    h = fold_form_p3(h, x);
    h
}

/// The fingerprint string for a folded content hash.
pub open spec fn fingerprint_of(h: u64) -> Seq<char> {
    crate::text::dec_of(h as int)
}

/// Renders a property catalogue's content fingerprint.
pub fn pc_fingerprint(x: &PropertyCatalogue) -> (r: String)
    ensures
        r@ == fingerprint_of(fp_property_catalogue(fp_seed(), *x)),
{
    let h = fold_property_catalogue(0xcbf29ce484222325u64, x);
    crate::text::u64_to_dec(h)
}

/// Renders a data catalogue's content fingerprint.
pub fn dc_fingerprint(x: &DataCatalogue) -> (r: String)
    ensures
        r@ == fingerprint_of(fp_data_catalogue(fp_seed(), *x)),
{
    let h = fold_data_catalogue(0xcbf29ce484222325u64, x);
    crate::text::u64_to_dec(h)
}

/// Renders a form's content fingerprint.
pub fn form_fingerprint<Type>(x: &Form<Type>) -> (r: String)
    ensures
        r@ == fingerprint_of(fp_form(fp_seed(), *x)),
{
    let h = fold_form(0xcbf29ce484222325u64, x);
    crate::text::u64_to_dec(h)
}

} // verus!
