//! The document model: typed collections of artifact entities plus header
//! metadata, together with the traits and helpers their handling shares.

use vstd::prelude::*;

use crate::model::other::Entry;
use crate::profile::{escape_script_spec, FormField, FormReference};
use crate::sorting::Sortable;
use crate::text::{dec_of, lex_leq};

pub mod data_catalogue;
pub mod form;
pub mod onkostar_editor;
pub mod other;
pub mod property_catalogue;
pub mod requirements;

verus! {

/// A script attached to a form or an entry.
#[derive(Debug, PartialEq)]
pub struct Script {
    pub code: String,
    pub valid: bool,
}

/// A plausibility rule of a form; the type parameter carries the shape of
/// the entry-name list, which differs per owner.
pub struct PlausibilityRule<T> {
    pub type_: String,
    pub message: String,
    pub description: String,
    pub bezeichnung: String,
    pub formula: String,
    pub active: bool,
    pub editable: bool,
    pub valid: bool,
    pub condition: Option<String>,
    pub condition_valid: Option<bool>,
    pub statusauswirkung: String,
    pub data_form_entries: T,
}

impl<T> Sortable for PlausibilityRule<T> {
    open spec fn le_spec(self, other: Self) -> bool {
        lex_leq(self.bezeichnung@, other.bezeichnung@)
    }

    fn le(&self, other: &Self) -> (r: bool) {
        crate::text::str_leq(self.bezeichnung.as_str(), other.bezeichnung.as_str())
    }
}

/// A generic list of entries.
pub struct Entries<T> {
    pub entry: Vec<T>,
}

/// A stored view definition.
pub struct Ansicht {
    pub name: String,
    pub beschreibung: String,
    pub konfiguration: String,
    pub data_form: Option<String>,
    pub data_catalogue: Option<String>,
    pub typ_auswahl: String,
    pub personenstamm_kontext: Option<String>,
    pub suche: bool,
    pub sid: String,
    pub guid: String,
    pub revision: u16,
    pub in_bibliothek_ausliefern: bool,
}

/// The views attached to an entity.
pub struct Ansichten {
    pub program_module: Vec<Ansicht>,
}

/// The menu placement of a form.
pub struct MenuCategory {
    pub name: String,
    pub position: String,
    pub column: String,
}

/// The scoring categories of a form.
pub struct PunkteKategorien {
    pub punkte_kategorie: Vec<PunkteKategorie>,
}

/// One scoring category.
pub struct PunkteKategorie {
    pub name: String,
    pub beschreibung: String,
    pub max_leerwerte: u16,
    pub berechnung: String,
    pub felder: Option<Felder>,
    pub vergleichswerttabellen: String,
}

/// The fields a scoring category scores.
pub struct Felder {
    pub feld: Vec<Feld>,
}

/// One scored field.
pub struct Feld {
    pub data_form_entry_name: String,
    pub manuelle_punkte: bool,
    pub werte: Option<FeldWerte>,
}

/// The value-to-points table of a scored field.
pub struct FeldWerte {
    pub wert: Vec<FeldWert>,
}

/// One value-to-points row.
pub struct FeldWert {
    pub wert: String,
    pub punkte: String,
}

/// The visibility filter of an entry.
#[derive(Debug, PartialEq)]
pub struct Filter {
    pub condition: String,
    pub valid: bool,
    pub ref_entries: Option<RefEntries>,
}

/// The entries a filter refers to.
#[derive(Debug, PartialEq)]
pub struct RefEntries {
    pub ref_entry: Option<Vec<String>>,
}

/// The plausibility rules of a form.
pub struct PlausibilityRules<T> {
    pub plausibility_rule: Option<Vec<PlausibilityRule<T>>>,
}

/// The stored frequency analyses.
pub struct Haeufigkeiten {
    pub haeufigkeit: Vec<Haeufigkeit>,
}

/// One stored frequency analysis.
pub struct Haeufigkeit {
    pub name: String,
    pub beschreibung: String,
    pub notiz: String,
    pub status: bool,
    pub formel: String,
    pub analysezweck: String,
    pub position: String,
    pub ueberschrift: String,
    pub taeglich_aktualisieren: bool,
    pub typ: String,
    pub nicht_berechnen: Option<String>,
    pub tabellen_name: Option<String>,
}

/// The library an entity's folder belongs to.
pub struct Bibliothek {
    pub name: String,
}

/// The folder an entity is filed under.
pub struct Ordner {
    pub bibliothek: Bibliothek,
    pub name: String,
    pub typ: String,
    pub parent_order: Option<Box<Ordner>>,
}

/// The stored key figures.
pub struct Kennzahlen {
    pub kennzahl: Vec<Kennzahl>,
}

/// One stored key figure.
pub struct Kennzahl {
    pub name: String,
    pub nummer: String,
    pub beschreibung: String,
    pub notiz: String,
    pub vorgabe: String,
    pub haeufigkeitenzaehler: String,
    pub haeufigkeitennenner: String,
}

/// The name of the folder that marks vendor-shipped, read-only content.
pub open spec fn system_library_name() -> Seq<char> {
    "ONKOSTAR Bibliothek"@
}

/// Whether a library folder name marks system-library content.
pub open spec fn is_system_library_spec(folder: Seq<char>) -> bool {
    folder == system_library_name()
}

/// The fixed one-line rendering of an entity: its kind, its library
/// marker, its name and its revision.
pub open spec fn listed_display_spec(kind: Seq<char>, sys: bool, name: Seq<char>, rev: u16)
    -> Seq<char> {
    kind + " ("@ + (if sys {
        "S"@
    } else {
        "u"@
    }) + ") '"@ + name + "' in Revision '"@ + dec_of(rev as int) + "'"@
}

/// Renders an entity's fixed one-line description.
pub fn listed_display(kind: &str, sys: bool, name: &str, rev: u16) -> (r: String)
    ensures
        r@ == listed_display_spec(kind@, sys, name@, rev),
{
    let mut out = String::new();
    out.append(kind);
    out.append(" (");
    if sys {
        out.append("S");
    } else {
        out.append("u");
    }
    out.append(") '");
    out.append(name);
    out.append("' in Revision '");
    let d = crate::text::u16_to_dec(rev);
    out.append(d.as_str());
    out.append("'");
    out
}

/// Whether a profile form-reference block addresses this entry.
pub open spec fn form_reference_applies(e: Entry, fr: FormReference) -> bool {
    e.type_@ == "formReference"@ && e.name@ == fr.name@
}

/// What one profile form-reference block does to an entry it addresses:
/// each given field is overwritten, the script code escaped, and the
/// filter dropped on request; everything else keeps its value.
pub open spec fn form_reference_applied_rel(e0: Entry, e1: Entry, fr: FormReference) -> bool {
    &&& e1 == (Entry {
        referenced_data_form: e1.referenced_data_form,
        anzeige: e1.anzeige,
        anzeige_auswahl: e1.anzeige_auswahl,
        scripts: e1.scripts,
        filter: e1.filter,
        ..e0
    })
    &&& e1.referenced_data_form == (match fr.referenced_data_form {
        Some(_) => fr.referenced_data_form,
        None => e0.referenced_data_form,
    })
    &&& e1.anzeige == (match fr.anzeige {
        Some(a) => a,
        None => e0.anzeige,
    })
    &&& e1.anzeige_auswahl == (match fr.anzeige_auswahl {
        Some(a) => Some(a),
        None => e0.anzeige_auswahl,
    })
    &&& match fr.scripts_code {
        Some(c) => e1.scripts matches Some(s) && s.valid && s.code@ == escape_script_spec(c@),
        None => e1.scripts == e0.scripts,
    }
    &&& e1.filter == (if fr.remove_filter {
        None
    } else {
        e0.filter
    })
}

/// Applies one profile form-reference block to one entry, when the entry
/// is the form reference the block names.
fn apply_ref_pure(e: Entry, fr: &FormReference) -> (r: Entry)
    ensures
        (if form_reference_applies(e, *fr) {
            form_reference_applied_rel(e, r, *fr)
        } else {
            r == e
        }),
{
    let applies = crate::text::str_eq(e.type_.as_str(), "formReference") && crate::text::str_eq(
        e.name.as_str(),
        fr.name.as_str(),
    );
    if !applies {
        e
    } else {
        let Entry {
            parent_id,
            parent_ref_id,
            type_,
            name,
            description,
            active,
            read_only,
            printable,
            position,
            note,
            beschriftung1,
            beschriftung2,
            wert_anzeigen_patmodul,
            multiple_choice,
            default_value,
            alignment,
            direction,
            data_catalogue_entry,
            data_catalogue_entry_table,
            element_parent,
            procedure_date_status,
            zuordnung_erkrankung,
            grafik,
            grafik_ausrichtung,
            mandatory,
            datenart,
            filter,
            not_specified,
            scripts,
            referenced_data_form,
            referenced_data_form_field,
            anzeige,
            anzeige_auswahl,
            druckvorlage,
            version_from,
            speichern,
            leer_ausblenden,
            inhalt,
            geschlossen_anzeigen,
            min,
            max,
            in_uebersicht_anzeigen,
            hinweis,
            vorschlagskategorie,
            category_filer_name,
            platzhalter,
            show_auspraegungen,
            prozedurdatum_uebernehmen,
            vorschlaege,
            anzeige_auswahldialog,
            suche_auswahldialog,
            info_auswahldialog,
            disease_category_filter,
            mindestbreite_label,
            mindestbreite_feld,
            ou_filter,
            aktion,
            top10,
            groesse_textfeld,
            filter_aufheben,
            resizable,
            verschluesselt,
            memo_width,
            memo_height,
            memo_art,
            date_valid_from,
            date_valid_to,
            date_valid_future,
            titel,
            in_auswertung,
            in_auswertung_graph,
            fragebogen_item_nummer,
            score,
            alignment_pat_modul,
            direction_pat_modul,
            seitenumbruch_pat_modul,
            kontaktliste,
            markierung_ignorieren,
            suche_art,
            sid,
            guid,
            revision,
            vorherige_werte,
            einfuegen_verhindern,
            data_form_references,
        } = e;
        let new_rdf = match &fr.referenced_data_form {
            Some(v) => Some(v.clone()),
            None => referenced_data_form,
        };
        let new_anzeige = match &fr.anzeige {
            Some(v) => v.clone(),
            None => anzeige,
        };
        let new_auswahl = match &fr.anzeige_auswahl {
            Some(v) => Some(v.clone()),
            None => anzeige_auswahl,
        };
        let new_scripts = match fr.escaped_scripts_code() {
            Some(code) => Some(Script { code, valid: true }),
            None => scripts,
        };
        let new_filter = if fr.remove_filter {
            None
        } else {
            filter
        };
        Entry {
            parent_id,
            parent_ref_id,
            type_,
            name,
            description,
            active,
            read_only,
            printable,
            position,
            note,
            beschriftung1,
            beschriftung2,
            wert_anzeigen_patmodul,
            multiple_choice,
            default_value,
            alignment,
            direction,
            data_catalogue_entry,
            data_catalogue_entry_table,
            element_parent,
            procedure_date_status,
            zuordnung_erkrankung,
            grafik,
            grafik_ausrichtung,
            mandatory,
            datenart,
            filter: new_filter,
            not_specified,
            scripts: new_scripts,
            referenced_data_form: new_rdf,
            referenced_data_form_field,
            anzeige: new_anzeige,
            anzeige_auswahl: new_auswahl,
            druckvorlage,
            version_from,
            speichern,
            leer_ausblenden,
            inhalt,
            geschlossen_anzeigen,
            min,
            max,
            in_uebersicht_anzeigen,
            hinweis,
            vorschlagskategorie,
            category_filer_name,
            platzhalter,
            show_auspraegungen,
            prozedurdatum_uebernehmen,
            vorschlaege,
            anzeige_auswahldialog,
            suche_auswahldialog,
            info_auswahldialog,
            disease_category_filter,
            mindestbreite_label,
            mindestbreite_feld,
            ou_filter,
            aktion,
            top10,
            groesse_textfeld,
            filter_aufheben,
            resizable,
            verschluesselt,
            memo_width,
            memo_height,
            memo_art,
            date_valid_from,
            date_valid_to,
            date_valid_future,
            titel,
            in_auswertung,
            in_auswertung_graph,
            fragebogen_item_nummer,
            score,
            alignment_pat_modul,
            direction_pat_modul,
            seitenumbruch_pat_modul,
            kontaktliste,
            markierung_ignorieren,
            suche_art,
            sid,
            guid,
            revision,
            vorherige_werte,
            einfuegen_verhindern,
            data_form_references,
        }
    }
}

/// Applies one profile form-reference block to one entry, when the entry
/// is the form reference the block names.
pub fn apply_profile_to_form_entry(entry: &mut Entry, form_reference: &FormReference)
    ensures
        (if form_reference_applies(*old(entry), *form_reference) {
            form_reference_applied_rel(*old(entry), *final(entry), *form_reference)
        } else {
            *final(entry) == *old(entry)
        }),
{
    let mut tmp = crate::model::other::entry_with(String::new(), String::new());
    core::mem::swap(entry, &mut tmp);
    let done = apply_ref_pure(tmp, form_reference);
    *entry = done;
}

/// The filter an entry is hidden behind.
pub open spec fn hidden_filter(f: Option<Filter>) -> bool {
    f matches Some(ff) && ff.condition@ == "false"@ && ff.valid && ff.ref_entries == Some(
        RefEntries { ref_entry: None::<Vec<String>> },
    )
}

/// What one profile form-field block does to an entry it addresses.
pub open spec fn form_field_applied_rel(e0: Entry, e1: Entry, ff: FormField) -> bool {
    &&& e1 == (Entry {
        filter: e1.filter,
        speichern: e1.speichern,
        default_value: e1.default_value,
        scripts: e1.scripts,
        ..e0
    })
    &&& (if ff.remove_filter {
        e1.filter is None
    } else if ff.hide {
        hidden_filter(e1.filter)
    } else {
        e1.filter == e0.filter
    })
    &&& (if ff.hide {
        e1.speichern@ == "0"@
    } else {
        e1.speichern == e0.speichern
    })
    &&& e1.default_value == (match ff.default_value {
        Some(v) => v,
        None => e0.default_value,
    })
    &&& match ff.scripts_code {
        Some(c) => e1.scripts matches Some(s) && s.valid && s.code@ == escape_script_spec(c@),
        None => e1.scripts == e0.scripts,
    }
}

/// Applies one profile form-field block to one entry, when the entry
/// carries the name the block names.
fn hidden_filter_value() -> (r: Filter)
    ensures
        r.condition@ == "false"@,
        r.valid,
        r.ref_entries == Some(RefEntries { ref_entry: None::<Vec<String>> }),
{
    Filter {
        condition: String::from_str("false"),
        valid: true,
        ref_entries: Some(RefEntries { ref_entry: None }),
    }
}

fn field_new_filter(filter: Option<Filter>, remove: bool, do_hide: bool) -> (r: Option<Filter>)
    ensures
        (if remove {
            r is None
        } else if do_hide {
            hidden_filter(r)
        } else {
            r == filter
        }),
{
    if remove {
        None
    } else if do_hide {
        Some(hidden_filter_value())
    } else {
        filter
    }
}

#[verifier::rlimit(100)]
#[verifier::spinoff_prover]
fn apply_field_pure(e: Entry, ff: &FormField) -> (r: Entry)
    ensures
        (if e.name@ == ff.name@ {
            form_field_applied_rel(e, r, *ff)
        } else {
            r == e
        }),
{
    let applies = crate::text::str_eq(e.name.as_str(), ff.name.as_str());
    if !applies {
        e
    } else {
        let Entry {
            parent_id,
            parent_ref_id,
            type_,
            name,
            description,
            active,
            read_only,
            printable,
            position,
            note,
            beschriftung1,
            beschriftung2,
            wert_anzeigen_patmodul,
            multiple_choice,
            default_value,
            alignment,
            direction,
            data_catalogue_entry,
            data_catalogue_entry_table,
            element_parent,
            procedure_date_status,
            zuordnung_erkrankung,
            grafik,
            grafik_ausrichtung,
            mandatory,
            datenart,
            filter,
            not_specified,
            scripts,
            referenced_data_form,
            referenced_data_form_field,
            anzeige,
            anzeige_auswahl,
            druckvorlage,
            version_from,
            speichern,
            leer_ausblenden,
            inhalt,
            geschlossen_anzeigen,
            min,
            max,
            in_uebersicht_anzeigen,
            hinweis,
            vorschlagskategorie,
            category_filer_name,
            platzhalter,
            show_auspraegungen,
            prozedurdatum_uebernehmen,
            vorschlaege,
            anzeige_auswahldialog,
            suche_auswahldialog,
            info_auswahldialog,
            disease_category_filter,
            mindestbreite_label,
            mindestbreite_feld,
            ou_filter,
            aktion,
            top10,
            groesse_textfeld,
            filter_aufheben,
            resizable,
            verschluesselt,
            memo_width,
            memo_height,
            memo_art,
            date_valid_from,
            date_valid_to,
            date_valid_future,
            titel,
            in_auswertung,
            in_auswertung_graph,
            fragebogen_item_nummer,
            score,
            alignment_pat_modul,
            direction_pat_modul,
            seitenumbruch_pat_modul,
            kontaktliste,
            markierung_ignorieren,
            suche_art,
            sid,
            guid,
            revision,
            vorherige_werte,
            einfuegen_verhindern,
            data_form_references,
        } = e;
        let new_speichern = if ff.hide {
            String::from_str("0")
        } else {
            speichern
        };
        let new_default = match &ff.default_value {
            Some(v) => v.clone(),
            None => default_value,
        };
        let new_scripts = match ff.escaped_scripts_code() {
            Some(code) => Some(Script { code, valid: true }),
            None => scripts,
        };
        let new_filter = field_new_filter(filter, ff.remove_filter, ff.hide);
        Entry {
            parent_id,
            parent_ref_id,
            type_,
            name,
            description,
            active,
            read_only,
            printable,
            position,
            note,
            beschriftung1,
            beschriftung2,
            wert_anzeigen_patmodul,
            multiple_choice,
            default_value: new_default,
            alignment,
            direction,
            data_catalogue_entry,
            data_catalogue_entry_table,
            element_parent,
            procedure_date_status,
            zuordnung_erkrankung,
            grafik,
            grafik_ausrichtung,
            mandatory,
            datenart,
            filter: new_filter,
            not_specified,
            scripts: new_scripts,
            referenced_data_form,
            referenced_data_form_field,
            anzeige,
            anzeige_auswahl,
            druckvorlage,
            version_from,
            speichern: new_speichern,
            leer_ausblenden,
            inhalt,
            geschlossen_anzeigen,
            min,
            max,
            in_uebersicht_anzeigen,
            hinweis,
            vorschlagskategorie,
            category_filer_name,
            platzhalter,
            show_auspraegungen,
            prozedurdatum_uebernehmen,
            vorschlaege,
            anzeige_auswahldialog,
            suche_auswahldialog,
            info_auswahldialog,
            disease_category_filter,
            mindestbreite_label,
            mindestbreite_feld,
            ou_filter,
            aktion,
            top10,
            groesse_textfeld,
            filter_aufheben,
            resizable,
            verschluesselt,
            memo_width,
            memo_height,
            memo_art,
            date_valid_from,
            date_valid_to,
            date_valid_future,
            titel,
            in_auswertung,
            in_auswertung_graph,
            fragebogen_item_nummer,
            score,
            alignment_pat_modul,
            direction_pat_modul,
            seitenumbruch_pat_modul,
            kontaktliste,
            markierung_ignorieren,
            suche_art,
            sid,
            guid,
            revision,
            vorherige_werte,
            einfuegen_verhindern,
            data_form_references,
        }
    }
}

/// Applies one profile form-field block to one entry, when the entry
/// carries the name the block names.
pub fn apply_profile_to_form_field(entry: &mut Entry, form_field: &FormField)
    ensures
        (if old(entry).name@ == form_field.name@ {
            form_field_applied_rel(*old(entry), *final(entry), *form_field)
        } else {
            *final(entry) == *old(entry)
        }),
{
    let mut tmp = crate::model::other::entry_with(String::new(), String::new());
    core::mem::swap(entry, &mut tmp);
    let done = apply_field_pure(tmp, form_field);
    *entry = done;
}

/// An entity on which the drift comparison works: it has a resolution name,
/// a revision counter and a content fingerprint.
pub trait Comparable: Sized {
    /// The entity's resolution name.
    spec fn name_spec(&self) -> Seq<char>;

    /// The entity's revision counter.
    spec fn revision_spec(&self) -> u16;

    /// The entity's content fingerprint.
    spec fn fingerprint_spec(&self) -> Seq<char>;

    /// Returns the entity's name.
    fn get_name(&self) -> (r: String)
        ensures
            r@ == self.name_spec(),
    ;

    /// Returns the entity's revision.
    fn get_revision(&self) -> (r: u16)
        ensures
            r == self.revision_spec(),
    ;

    /// Returns the entity's content fingerprint.
    fn get_hash(&self) -> (r: String)
        ensures
            r@ == self.fingerprint_spec(),
    ;
}

} // verus!
