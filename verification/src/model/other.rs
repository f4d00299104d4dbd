//! The form entry record and the passthrough entity records the document
//! may carry beside its four main collections.

use vstd::prelude::*;

use crate::model::form::{DataFormReferenceType, Form};
use crate::model::{Ansicht, Filter, Ordner, RefEntries, Script};
use crate::sorting::{sort, sort_le, Sortable};
use crate::text::lex_leq;

verus! {

/// A workflow schema, carried through unchanged.
pub struct Ablaufschema {
    pub name: String,
    pub beschreibung: String,
    pub ablaufschema_formulars: Vec<AblaufschemaFormular>,
    pub ablaufschema_elements: Vec<AblaufschemaElement>,
    pub personenstamms: Vec<String>,
    pub ordner: Ordner,
    pub aktiv: bool,
    pub read_only: bool,
    pub ausfuehrung_intervall: i32,
    pub uhrzeit: String,
    pub sid: i32,
    pub guid: String,
    pub revision: i32,
    pub meldung_id: i32,
}

/// A form a workflow schema refers to.
pub struct AblaufschemaFormular {
    pub data_form_name: String,
    pub data_form_sid: i32,
    pub data_form_guid: String,
    pub vorbedingung: String,
    pub vorbedingung_gueltig: bool,
}

/// One element of a workflow schema.
pub struct AblaufschemaElement {
    pub typ: i32,
    pub beschreibung: String,
    pub name: String,
    pub nummer: i32,
    pub vorbedingung: String,
    pub vorbedingung_gueltig: bool,
    pub uebergangsart: i32,
    pub sid: i32,
    pub guid: String,
    pub revision: i32,
    pub aktion_typ: i32,
    pub parameter: String,
    pub sichtbar: bool,
    pub start_element_sid: i32,
    pub start_element_guid: String,
    pub end_element_sid: i32,
    pub end_element_guid: String,
}

/// A role of a patient file, carried through unchanged.
pub struct AkteRolle {
    pub name: String,
    pub beschreibung: Option<String>,
    pub modul_berechtigung: Vec<ModulBerechtigung>,
}

/// A stored statistics script, carried through unchanged.
pub struct Rskript {
    pub name: String,
    pub titel: Option<String>,
    pub skript: Option<String>,
    pub bemerkung: String,
    pub felder: Option<String>,
    pub ordner: Ordner,
    pub sid: Option<i32>,
    pub guid: Option<String>,
    pub revision: Option<i32>,
}

/// An identifier pair naming a form to delete or deactivate.
pub struct SidGuid {
    pub sid: i32,
    pub guid: String,
}

/// A module permission of a patient file role.
pub struct ModulBerechtigung {
    pub modul_name: String,
    pub anzeigen: bool,
    pub anlegen: bool,
    pub bearbeiten: bool,
    pub loeschen: bool,
}

/// A form a patient file module shows.
pub struct ModulFormular {
    pub name: Option<String>,
    pub sid: i32,
    pub guid: String,
}

/// One entry of a form: a data field, a form reference or a subform slot.
pub struct Entry {
    pub parent_id: Option<u32>,
    pub parent_ref_id: Option<u32>,
    pub type_: String,
    pub name: String,
    pub description: String,
    pub active: bool,
    pub read_only: bool,
    pub printable: bool,
    pub position: String,
    pub note: String,
    pub beschriftung1: Option<String>,
    pub beschriftung2: Option<String>,
    pub wert_anzeigen_patmodul: Option<String>,
    pub multiple_choice: bool,
    pub default_value: String,
    pub alignment: String,
    pub direction: String,
    pub data_catalogue_entry: String,
    pub data_catalogue_entry_table: Option<String>,
    pub element_parent: String,
    pub procedure_date_status: String,
    pub zuordnung_erkrankung: String,
    pub grafik: Option<String>,
    pub grafik_ausrichtung: Option<String>,
    pub mandatory: String,
    pub datenart: Option<String>,
    pub filter: Option<Filter>,
    pub not_specified: bool,
    pub scripts: Option<Script>,
    pub referenced_data_form: Option<String>,
    pub referenced_data_form_field: Option<String>,
    pub anzeige: String,
    pub anzeige_auswahl: Option<String>,
    pub druckvorlage: Option<String>,
    pub version_from: Option<String>,
    pub speichern: String,
    pub leer_ausblenden: bool,
    pub inhalt: Option<String>,
    pub geschlossen_anzeigen: bool,
    pub min: u32,
    pub max: u32,
    pub in_uebersicht_anzeigen: bool,
    pub hinweis: Option<String>,
    pub vorschlagskategorie: Option<String>,
    pub category_filer_name: Option<String>,
    pub platzhalter: Option<String>,
    pub show_auspraegungen: bool,
    pub prozedurdatum_uebernehmen: bool,
    pub vorschlaege: bool,
    pub anzeige_auswahldialog: String,
    pub suche_auswahldialog: String,
    pub info_auswahldialog: Option<String>,
    pub disease_category_filter: Option<String>,
    pub mindestbreite_label: Option<u16>,
    pub mindestbreite_feld: Option<u16>,
    pub ou_filter: Option<String>,
    pub aktion: Option<String>,
    pub top10: Option<String>,
    pub groesse_textfeld: u16,
    pub filter_aufheben: bool,
    pub resizable: bool,
    pub verschluesselt: Option<bool>,
    pub memo_width: Option<u32>,
    pub memo_height: Option<u32>,
    pub memo_art: Option<String>,
    pub date_valid_from: String,
    pub date_valid_to: String,
    pub date_valid_future: bool,
    pub titel: Option<String>,
    pub in_auswertung: bool,
    pub in_auswertung_graph: bool,
    pub fragebogen_item_nummer: Option<u8>,
    pub score: Option<String>,
    pub alignment_pat_modul: String,
    pub direction_pat_modul: String,
    pub seitenumbruch_pat_modul: bool,
    pub kontaktliste: Option<String>,
    pub markierung_ignorieren: bool,
    pub suche_art: Option<String>,
    pub sid: String,
    pub guid: String,
    pub revision: u16,
    pub vorherige_werte: Option<String>,
    pub einfuegen_verhindern: Option<String>,
    pub data_form_references: Option<ReferencedDataForm>,
}

impl Entry {
    /// The entry's name.
    pub fn get_name(&self) -> (r: String)
        ensures
            r@ == self.name@,
    {
        self.name.clone()
    }

    /// The entry's kind tag.
    pub fn get_type(&self) -> (r: String)
        ensures
            r@ == self.type_@,
    {
        self.type_.clone()
    }

    /// Replaces the referenced form name.
    pub fn update_referenced_data_form(&mut self, value: String)
        ensures
            *final(self) == (Entry { referenced_data_form: Some(value), ..*old(self) }),
    {
        self.referenced_data_form = Some(value);
    }

    /// Replaces the display string.
    pub fn update_anzeige(&mut self, value: String)
        ensures
            *final(self) == (Entry { anzeige: value, ..*old(self) }),
    {
        self.anzeige = value;
    }

    /// Replaces the selection display string.
    pub fn update_anzeige_auswahl(&mut self, value: String)
        ensures
            *final(self) == (Entry { anzeige_auswahl: Some(value), ..*old(self) }),
    {
        self.anzeige_auswahl = Some(value);
    }

    /// Replaces the entry's script with a valid one holding `value`.
    pub fn update_scripts_code(&mut self, value: String)
        ensures
            *final(self) == (Entry {
                scripts: Some(Script { code: value, valid: true }),
                ..*old(self)
            }),
    {
        self.scripts = Some(Script { code: value, valid: true });
    }

    /// Replaces the default value.
    pub fn update_default_value(&mut self, value: String)
        ensures
            *final(self) == (Entry { default_value: value, ..*old(self) }),
    {
        self.default_value = value;
    }

    /// Hides the entry behind a constantly false filter and stops it from
    /// being saved.
    pub fn hide_entry(&mut self)
        ensures
            *final(self) == (Entry {
                filter: final(self).filter,
                speichern: final(self).speichern,
                ..*old(self)
            }),
            final(self).filter matches Some(f) && f.condition@ == "false"@ && f.valid
                && f.ref_entries == Some(RefEntries { ref_entry: None::<Vec<String>> }),
            final(self).speichern@ == "0"@,
    {
        self.filter = Some(
            Filter {
                condition: String::from_str("false"),
                valid: true,
                ref_entries: Some(RefEntries { ref_entry: None }),
            },
        );
        self.speichern = String::from_str("0");
    }

    /// Removes the entry's filter.
    pub fn remove_filter(&mut self)
        ensures
            *final(self) == (Entry { filter: None, ..*old(self) }),
    {
        self.filter = None;
    }
}

/// How an entry looks once its filter's reference list is brought into
/// canonical order; everything else is untouched.
pub open spec fn entry_sorted_rel(a: Entry, b: Entry) -> bool {
    &&& b == (Entry { filter: b.filter, ..a })
    &&& filter_sorted_rel(a.filter, b.filter)
}

/// `b` is `a` with its reference list brought into canonical order.
pub open spec fn filter_sorted_rel(a: Option<Filter>, b: Option<Filter>) -> bool {
    match a {
        Some(f) => b matches Some(g) && g == (Filter { ref_entries: g.ref_entries, ..f })
            && (match f.ref_entries {
            Some(re) => g.ref_entries matches Some(ge) && (match re.ref_entry {
                Some(v) => ge.ref_entry matches Some(gv) && gv@ == sort_le(v@),
                None => ge.ref_entry is None,
            }),
            None => g.ref_entries is None,
        }),
        None => b is None,
    }
}

fn sorted_filter(a: Option<Filter>) -> (r: Option<Filter>)
    ensures
        filter_sorted_rel(a, r),
{
    match a {
        Some(f) => {
            let Filter { condition, valid, ref_entries } = f;
            let new_re = match ref_entries {
                Some(re) => {
                    let RefEntries { ref_entry } = re;
                    let new_list = match ref_entry {
                        Some(mut v) => {
                            sort(&mut v);
                            Some(v)
                        },
                        None => None,
                    };
                    Some(RefEntries { ref_entry: new_list })
                },
                None => None,
            };
            Some(Filter { condition, valid, ref_entries: new_re })
        },
        None => None,
    }
}

impl Entry {
    /// Brings the entry's nested lists into canonical order.
    pub fn sorted(&mut self)
        ensures
            entry_sorted_rel(*old(self), *final(self)),
    {
        let filter = self.filter.take();
        let new_filter = sorted_filter(filter);
        self.filter = new_filter;
    }
}

impl Sortable for Entry {
    open spec fn le_spec(self, other: Self) -> bool {
        lex_leq(self.name@, other.name@)
    }

    fn le(&self, other: &Self) -> (r: bool) {
        crate::text::str_leq(self.name.as_str(), other.name.as_str())
    }
}

impl Sortable for String {
    open spec fn le_spec(self, other: Self) -> bool {
        lex_leq(self@, other@)
    }

    fn le(&self, other: &Self) -> (r: bool) {
        crate::text::str_leq(self.as_str(), other.as_str())
    }
}

/// The newer, multi-valued way an entry names the forms it references.
pub struct ReferencedDataForm {
    pub referenced_data_form: Vec<Form<DataFormReferenceType>>,
}

/// A baseline entry of the given kind and name: every other attribute
/// empty, false or absent. Callers fill in what they need.
pub fn entry_with(type_: String, name: String) -> (r: Entry)
    ensures
        r.type_ == type_,
        r.name == name,
        r.filter is None,
        r.scripts is None,
        r.referenced_data_form is None,
        r.data_form_references is None,
        r.default_value@ == Seq::<char>::empty(),
        r.procedure_date_status@ == Seq::<char>::empty(),
        r.anzeige@ == Seq::<char>::empty(),
        r.speichern@ == Seq::<char>::empty(),
        r.parent_id is None,
        r.revision == 0,
{
    Entry {
        parent_id: None,
        parent_ref_id: None,
        type_,
        name,
        description: String::new(),
        active: false,
        read_only: false,
        printable: false,
        position: String::new(),
        note: String::new(),
        beschriftung1: None,
        beschriftung2: None,
        wert_anzeigen_patmodul: None,
        multiple_choice: false,
        default_value: String::new(),
        alignment: String::new(),
        direction: String::new(),
        data_catalogue_entry: String::new(),
        data_catalogue_entry_table: None,
        element_parent: String::new(),
        procedure_date_status: String::new(),
        zuordnung_erkrankung: String::new(),
        grafik: None,
        grafik_ausrichtung: None,
        mandatory: String::new(),
        datenart: None,
        filter: None,
        not_specified: false,
        scripts: None,
        referenced_data_form: None,
        referenced_data_form_field: None,
        anzeige: String::new(),
        anzeige_auswahl: None,
        druckvorlage: None,
        version_from: None,
        speichern: String::new(),
        leer_ausblenden: false,
        inhalt: None,
        geschlossen_anzeigen: false,
        min: 0,
        max: 0,
        in_uebersicht_anzeigen: false,
        hinweis: None,
        vorschlagskategorie: None,
        category_filer_name: None,
        platzhalter: None,
        show_auspraegungen: false,
        prozedurdatum_uebernehmen: false,
        vorschlaege: false,
        anzeige_auswahldialog: String::new(),
        suche_auswahldialog: String::new(),
        info_auswahldialog: None,
        disease_category_filter: None,
        mindestbreite_label: None,
        mindestbreite_feld: None,
        ou_filter: None,
        aktion: None,
        top10: None,
        groesse_textfeld: 0,
        filter_aufheben: false,
        resizable: false,
        verschluesselt: None,
        memo_width: None,
        memo_height: None,
        memo_art: None,
        date_valid_from: String::new(),
        date_valid_to: String::new(),
        date_valid_future: false,
        titel: None,
        in_auswertung: false,
        in_auswertung_graph: false,
        fragebogen_item_nummer: None,
        score: None,
        alignment_pat_modul: String::new(),
        direction_pat_modul: String::new(),
        seitenumbruch_pat_modul: false,
        kontaktliste: None,
        markierung_ignorieren: false,
        suche_art: None,
        sid: String::new(),
        guid: String::new(),
        revision: 0,
        vorherige_werte: None,
        einfuegen_verhindern: None,
        data_form_references: None,
    }
}

} // verus!
