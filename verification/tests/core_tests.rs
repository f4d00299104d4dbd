//! The engine's behaviour on concrete documents: resolution, ordering,
//! checking, stripping, comparison and the fixed renderings.

use osc_variant::checks::osc::check_line;
use osc_variant::checks::{known_problems, CheckNotice};
use osc_variant::diff::DiffVerdict;
use osc_variant::digest::sha256_hex;
use osc_variant::model::data_catalogue::{DataCatalogue, Entries as DcEntries, Entry as DcEntry};
use osc_variant::model::form::{DataCatalogues, DataFormType, Form, UnterformularType};
use osc_variant::model::onkostar_editor::{Editor, InfoXML, OnkostarEditor};
use osc_variant::model::other::entry_with;
use osc_variant::model::property_catalogue::{PropertyCatalogue, Versions};
use osc_variant::model::requirements::Requirement;
use osc_variant::model::{Bibliothek, Entries, Ordner};
use osc_variant::file_io::{FileError, InputFile};
use osc_variant::profile::escape_script;
use osc_variant::text::{str_contains, str_trim, u16_to_dec};

fn ordner(library: &str) -> Ordner {
    Ordner {
        bibliothek: Bibliothek { name: String::from(library) },
        name: String::from("Ordner"),
        typ: String::from("MAPPE"),
        parent_order: None,
    }
}

fn pc_named(name: &str, revision: u16, library: &str) -> PropertyCatalogue {
    PropertyCatalogue {
        name: String::from(name),
        description: None,
        standard: String::new(),
        readonly: false,
        anmerkung: None,
        sid: String::new(),
        guid: String::new(),
        revision,
        versions: Versions { entry: None },
        ordner: ordner(library),
    }
}

fn dc_entry(name: &str, pc_ref: Option<&str>) -> DcEntry {
    DcEntry {
        property_catalogue: pc_ref.map(String::from),
        name: String::from(name),
        name_export: String::new(),
        description: String::new(),
        entry_type: String::new(),
        sub_table: String::new(),
        scale_unit: String::new(),
        max_length: 0,
        default_value: String::new(),
        active: true,
        read_only: false,
        filterable: false,
        range_from: None,
        range_until: None,
        multiple_choice: false,
        position: String::new(),
        note: String::new(),
        date_estimated_allowed: false,
        date_unknown_allowed: false,
        oe_choice_options: String::new(),
        fachabteilungsbezug: false,
        use_: None,
        feste_nachkommastellen: None,
        sid: String::new(),
        guid: String::new(),
        revision: 0,
    }
}

fn dc_named(name: &str, revision: u16, library: &str, pc_ref: Option<&str>) -> DataCatalogue {
    DataCatalogue {
        name: String::from(name),
        name_export: String::new(),
        category: String::new(),
        description: String::new(),
        note: String::new(),
        readonly: false,
        best_of: false,
        sid: String::new(),
        guid: String::new(),
        revision,
        entries: DcEntries { entry: vec![dc_entry("Feld", pc_ref)] },
        ordner: ordner(library),
        ansichten: None,
    }
}

fn data_form(name: &str) -> Form<DataFormType> {
    let mut f: Form<DataFormType> = Form::with_name(String::from(name));
    let mut e = entry_with(String::new(), String::from("Datum"));
    e.procedure_date_status = String::from("date");
    f.entries = Some(Entries { entry: vec![e] });
    f
}

fn subform(name: &str) -> Form<UnterformularType> {
    let mut f: Form<UnterformularType> = Form::with_name(String::from(name));
    let mut e = entry_with(String::new(), String::from("Datum"));
    e.procedure_date_status = String::from("date");
    f.entries = Some(Entries { entry: vec![e] });
    f
}

fn with_form_reference<T>(f: &mut Form<T>, entry_name: &str, target: &str) {
    let mut e = entry_with(String::from("formReference"), String::from(entry_name));
    e.referenced_data_form = Some(String::from(target));
    match &mut f.entries {
        Some(es) => es.entry.push(e),
        None => f.entries = Some(Entries { entry: vec![e] }),
    }
}

fn empty_document() -> OnkostarEditor {
    OnkostarEditor {
        info_xml: InfoXML {
            datum_xml: String::from("2024-01-01"),
            name: String::from("Editor"),
            version: String::from("1.0"),
        },
        editor: Editor {
            property_catalogue: Vec::new(),
            data_catalogue: Vec::new(),
            unterformular: Vec::new(),
            data_form: Vec::new(),
            ablaufschema: None,
            rskript: None,
            formulare_loeschen: None,
            formulare_deaktivieren: None,
        },
    }
}

fn error_codes(notices: &[CheckNotice]) -> Vec<String> {
    notices
        .iter()
        .filter_map(|n| match n {
            CheckNotice::ErrorWithCode { code, .. } => Some(code.clone()),
            _ => None,
        })
        .collect()
}

#[test]
fn resolver_finds_first_match_ignoring_case() {
    let mut doc = empty_document();
    doc.editor.property_catalogue.push(pc_named("Alpha", 1, "Eigene"));
    doc.editor.property_catalogue.push(pc_named("ALPHA", 2, "Eigene"));
    let found = doc.find_property_catalogue("alpha").expect("must resolve");
    assert_eq!(found.revision, 1);
    assert!(doc.find_property_catalogue("beta").is_none());
}

#[test]
fn resolver_covers_all_collections() {
    let mut doc = empty_document();
    doc.editor.data_catalogue.push(dc_named("Daten", 1, "Eigene", None));
    doc.editor.data_form.push(data_form("Haupt"));
    doc.editor.unterformular.push(subform("Unter"));
    assert!(doc.find_data_catalogue("DATEN").is_some());
    assert!(doc.find_data_form("haupt").is_some());
    assert!(doc.find_unterformular("UNTER").is_some());
    assert!(doc.find_data_form("Unter").is_none());
}

#[test]
fn ordering_sorts_catalogues_by_name_and_is_idempotent() {
    let mut doc = empty_document();
    doc.editor.property_catalogue.push(pc_named("Beta", 1, "Eigene"));
    doc.editor.property_catalogue.push(pc_named("Alpha", 1, "Eigene"));
    doc.editor.data_catalogue.push(dc_named("Zwei", 1, "Eigene", None));
    doc.editor.data_catalogue.push(dc_named("Eins", 1, "Eigene", None));
    doc.sorted();
    let names: Vec<&str> =
        doc.editor.property_catalogue.iter().map(|p| p.name.as_str()).collect();
    assert_eq!(names, vec!["Alpha", "Beta"]);
    let dc_names: Vec<&str> =
        doc.editor.data_catalogue.iter().map(|d| d.name.as_str()).collect();
    assert_eq!(dc_names, vec!["Eins", "Zwei"]);
    let before: Vec<String> =
        doc.editor.property_catalogue.iter().map(|p| p.name.clone()).collect();
    doc.sorted();
    let after: Vec<String> =
        doc.editor.property_catalogue.iter().map(|p| p.name.clone()).collect();
    assert_eq!(before, after);
}

#[test]
fn ordering_places_referenced_form_before_referencing_form() {
    let mut doc = empty_document();
    let mut a = data_form("Aussen");
    with_form_reference(&mut a, "ref", "Ziel");
    let b = data_form("Ziel");
    doc.editor.data_form.push(a);
    doc.editor.data_form.push(b);
    doc.sorted();
    let names: Vec<&str> = doc.editor.data_form.iter().map(|f| f.name.as_str()).collect();
    assert_eq!(names, vec!["Ziel", "Aussen"]);
    doc.sorted();
    let again: Vec<&str> = doc.editor.data_form.iter().map(|f| f.name.as_str()).collect();
    assert_eq!(again, vec!["Ziel", "Aussen"]);
}

#[test]
fn comparator_is_neutral_for_system_library_content() {
    let mut a = data_form("Aussen");
    with_form_reference(&mut a, "ref", "Ziel");
    a.ordner = Some(ordner("ONKOSTAR Bibliothek"));
    let b = data_form("Ziel");
    assert_eq!(
        Form::compare_by_requirement(&a, &b),
        core::cmp::Ordering::Equal
    );
    let mut c = data_form("Aussen");
    with_form_reference(&mut c, "ref", "Ziel");
    assert_eq!(
        Form::compare_by_requirement(&c, &b),
        core::cmp::Ordering::Greater
    );
}

#[test]
fn forward_reference_is_reported_and_reversal_clears_it() {
    let mut doc = empty_document();
    let mut x = subform("X");
    with_form_reference(&mut x, "ref", "Y");
    let y = subform("Y");
    doc.editor.unterformular.push(x);
    doc.editor.unterformular.push(y);
    let codes = error_codes(&doc.check());
    assert_eq!(codes, vec![String::from("2023-0004")]);

    let mut doc2 = empty_document();
    let y2 = subform("Y");
    let mut x2 = subform("X");
    with_form_reference(&mut x2, "ref", "Y");
    doc2.editor.unterformular.push(y2);
    doc2.editor.unterformular.push(x2);
    assert!(error_codes(&doc2.check()).is_empty());
}

#[test]
fn scenario_catalogue_chain_with_forward_form_reference() {
    let mut doc = empty_document();
    doc.editor.property_catalogue.push(pc_named("P1", 1, "Eigene"));
    doc.editor.data_catalogue.push(dc_named("D1", 1, "Eigene", Some("P1")));
    let mut f1 = data_form("F1");
    f1.data_catalogues = Some(DataCatalogues { data_catalogue: vec![String::from("D1")] });
    with_form_reference(&mut f1, "ref", "F2");
    let f2 = data_form("F2");
    doc.editor.data_form.push(f1);
    doc.editor.data_form.push(f2);

    let codes = error_codes(&doc.check());
    assert_eq!(codes, vec![String::from("2023-0004")]);

    let reqs = doc.editor.data_form[0].get_required_entries(&doc);
    assert_eq!(reqs.len(), 2);
    match &reqs[0] {
        Requirement::DataCatalogue(item) => assert_eq!(item.name, "D1"),
        _ => panic!("first requirement must be the data catalogue"),
    }
    match &reqs[1] {
        Requirement::DataFormReference(item) => assert_eq!(item.name, "F2"),
        _ => panic!("second requirement must be the form reference"),
    }
}

#[test]
fn requirements_deduplicate_references_by_name() {
    let mut doc = empty_document();
    let mut f = data_form("F");
    with_form_reference(&mut f, "ref_a", "Ziel");
    with_form_reference(&mut f, "ref_b", "Ziel");
    doc.editor.data_form.push(f);
    doc.editor.data_form.push(data_form("Ziel"));
    let reqs = doc.editor.data_form[0].get_required_entries(&doc);
    assert_eq!(reqs.len(), 1);
    match &reqs[0] {
        Requirement::DataFormReference(item) => assert_eq!(item.name, "Ziel"),
        _ => panic!("must resolve to the contained form"),
    }
}

#[test]
fn unresolved_reference_becomes_external_requirement() {
    let mut doc = empty_document();
    let mut f = data_form("F");
    with_form_reference(&mut f, "ref", "Anderswo");
    doc.editor.data_form.push(f);
    let reqs = doc.editor.data_form[0].get_required_entries(&doc);
    assert_eq!(reqs.len(), 1);
    match &reqs[0] {
        Requirement::ExternalDataFormReference(name) => assert_eq!(name, "Anderswo"),
        _ => panic!("must be external"),
    }
    assert_eq!(
        reqs[0].to_display_string(),
        "Formular (-) 'Anderswo' - hier nicht enthalten"
    );
}

#[test]
fn missing_procedure_date_is_reported() {
    let mut doc = empty_document();
    let mut f: Form<DataFormType> = Form::with_name(String::from("Ohne"));
    let mut e = entry_with(String::new(), String::from("Feld"));
    e.procedure_date_status = String::from("none");
    f.entries = Some(Entries { entry: vec![e] });
    doc.editor.data_form.push(f);
    let codes = error_codes(&doc.check());
    assert_eq!(codes, vec![String::from("2023-0002")]);
}

#[test]
fn subform_flagged_with_subforms_is_reported() {
    let mut doc = empty_document();
    let mut f = subform("Unter");
    f.hat_unterformulare = true;
    doc.editor.unterformular.push(f);
    let codes = error_codes(&doc.check());
    assert_eq!(codes, vec![String::from("2023-0001")]);
}

#[test]
fn form_reference_without_target_is_reported() {
    let mut doc = empty_document();
    let mut f = data_form("Kaputt");
    let e = entry_with(String::from("formReference"), String::from("ref"));
    match &mut f.entries {
        Some(es) => es.entry.push(e),
        None => unreachable!(),
    }
    doc.editor.data_form.push(f);
    let notices = doc.check();
    let codes = error_codes(&notices);
    assert_eq!(codes, vec![String::from("2024-0005")]);
    match &notices[0] {
        CheckNotice::ErrorWithCode { description, .. } => {
            assert_eq!(
                description,
                "Formular 'Kaputt' hat Formularverweise ohne Angabe des Formulars in: 'ref'"
            );
        }
        _ => panic!("expected the coded error"),
    }
}

#[test]
fn trailing_blank_in_rule_designation_is_reported_per_line() {
    let notices = check_line(7, "  <Bezeichnung>Regel </Bezeichnung>");
    assert_eq!(notices.len(), 1);
    match &notices[0] {
        CheckNotice::ErrorWithCode { code, line, example, .. } => {
            assert_eq!(code, "2023-0003");
            assert_eq!(*line, Some(7));
            assert_eq!(
                example.as_deref(),
                Some("<Bezeichnung>Regel </Bezeichnung>")
            );
        }
        _ => panic!("expected the coded error"),
    }
    assert!(check_line(7, "  <Bezeichnung>Regel</Bezeichnung>").is_empty());
}

#[test]
fn notice_rendering_follows_the_fixed_format() {
    let n = CheckNotice::ErrorWithCode {
        code: String::from("2023-0004"),
        description: String::from("Problem"),
        line: None,
        example: None,
    };
    assert_eq!(n.to_display_string(), "ERROR   (2023-0004): Problem");
    let w = CheckNotice::Warning { description: String::from("Achtung"), line: Some(3) };
    assert_eq!(w.to_display_string(), "WARNING at Line 3: Achtung");
    let ok = CheckNotice::Okay(String::from("Alles gut"));
    assert_eq!(ok.to_display_string(), "OK      Alles gut");
    assert!(n.is_error());
    assert!(!ok.is_error());
}

#[test]
fn strip_retains_only_user_library_content() {
    let mut doc = empty_document();
    doc.editor.property_catalogue.push(pc_named("Eigen", 1, "Eigene"));
    doc.editor.property_catalogue.push(pc_named("System", 1, "ONKOSTAR Bibliothek"));
    doc.editor.data_catalogue.push(dc_named("Daten", 1, "ONKOSTAR Bibliothek", None));
    let mut f = data_form("Systemform");
    f.ordner = Some(ordner("ONKOSTAR Bibliothek"));
    doc.editor.data_form.push(f);
    doc.editor.data_form.push(data_form("Eigenform"));
    doc.strip_system_library_content();
    assert_eq!(doc.editor.property_catalogue.len(), 1);
    assert_eq!(doc.editor.property_catalogue[0].name, "Eigen");
    assert!(doc.editor.data_catalogue.is_empty());
    assert_eq!(doc.editor.data_form.len(), 1);
    assert_eq!(doc.editor.data_form[0].name, "Eigenform");
}

#[test]
fn diff_reports_presence_symmetrically() {
    let mut a = empty_document();
    a.editor.property_catalogue.push(pc_named("NurInA", 1, "Eigene"));
    a.editor.property_catalogue.push(pc_named("Beide", 1, "Eigene"));
    let mut b = empty_document();
    b.editor.property_catalogue.push(pc_named("Beide", 1, "Eigene"));
    b.editor.property_catalogue.push(pc_named("NurInB", 1, "Eigene"));

    let report = a.diff(&mut b, false);
    assert_eq!(report.property_catalogue.only_in_a, vec![String::from("NurInA")]);
    assert_eq!(report.property_catalogue.only_in_b, vec![String::from("NurInB")]);

    let report_rev = b.diff(&mut a, false);
    assert_eq!(report_rev.property_catalogue.only_in_a, vec![String::from("NurInB")]);
    assert_eq!(report_rev.property_catalogue.only_in_b, vec![String::from("NurInA")]);
}

#[test]
fn diff_reports_revision_direction() {
    let mut a = empty_document();
    a.editor.property_catalogue.push(pc_named("Katalog", 1, "Eigene"));
    let mut b = empty_document();
    b.editor.property_catalogue.push(pc_named("Katalog", 2, "Eigene"));
    let report = a.diff(&mut b, false);
    assert_eq!(report.property_catalogue.entries.len(), 1);
    match report.property_catalogue.entries[0].verdict {
        DiffVerdict::NewerInB { rev_a, rev_b } => {
            assert_eq!(rev_a, 1);
            assert_eq!(rev_b, 2);
        }
        _ => panic!("must report the newer side B"),
    }
    let report_rev = b.diff(&mut a, false);
    match report_rev.property_catalogue.entries[0].verdict {
        DiffVerdict::NewerInA { rev_a, rev_b } => {
            assert_eq!(rev_a, 2);
            assert_eq!(rev_b, 1);
        }
        _ => panic!("must report the newer side A"),
    }
}

#[test]
fn strict_diff_tells_identical_from_changed_content() {
    let mut a = empty_document();
    a.editor.property_catalogue.push(pc_named("Katalog", 1, "Eigene"));
    let mut b = empty_document();
    b.editor.property_catalogue.push(pc_named("Katalog", 1, "Eigene"));
    let report = a.diff(&mut b, true);
    assert!(matches!(
        report.property_catalogue.entries[0].verdict,
        DiffVerdict::Identical
    ));
    assert!(!report.property_catalogue.has_differences());

    let mut c = empty_document();
    let mut changed = pc_named("Katalog", 1, "Eigene");
    changed.guid = String::from("andere-guid");
    c.editor.property_catalogue.push(changed);
    let report2 = a.diff(&mut c, true);
    assert!(matches!(
        report2.property_catalogue.entries[0].verdict,
        DiffVerdict::ContentDiffers
    ));
    assert!(report2.property_catalogue.has_differences());
}

#[test]
fn entity_descriptions_follow_the_fixed_format() {
    let pc = pc_named("Katalog", 12, "ONKOSTAR Bibliothek");
    assert_eq!(
        pc.to_listed_string(),
        "Merkmalskatalog (S) 'Katalog' in Revision '12'"
    );
    let dc = dc_named("Daten", 3, "Eigene", None);
    assert_eq!(dc.to_listed_string(), "Datenkatalog (u) 'Daten' in Revision '3'");
    let f = data_form("Haupt");
    assert_eq!(f.to_listed_string(), "Formular (u) 'Haupt' in Revision '0'");
}

#[test]
fn requirement_listing_shows_catalogues_and_references() {
    let mut doc = empty_document();
    doc.editor.property_catalogue.push(pc_named("P1", 1, "Eigene"));
    doc.editor.data_catalogue.push(dc_named("D1", 1, "Eigene", Some("P1")));
    let mut f1 = data_form("F1");
    f1.revision = 5;
    f1.data_catalogues = Some(DataCatalogues { data_catalogue: vec![String::from("D1")] });
    with_form_reference(&mut f1, "ref", "F2");
    doc.editor.data_form.push(f1);
    let text = doc.editor.data_form[0].to_requirement_string(&doc);
    let expected = "Formular (u) 'F1' in Revision '5'\n  + Datenkatalog (u) 'D1' in Revision '1'\n    - Merkmalskatalog (u) 'P1' in Revision '1'\n  > Formular (-) 'F2' - hier nicht enthalten\n";
    assert_eq!(text, expected);
}

#[test]
fn checksum_renders_lower_hexadecimal() {
    let data: Vec<u8> = vec![0x61, 0x62, 0x63];
    assert_eq!(
        sha256_hex(&data),
        "ba7816bf8f01cfea414140de5dae2223b00361a396177a9cb410ff61f20015ad"
    );
}

#[test]
fn text_helpers_behave_like_their_specifications() {
    assert_eq!(u16_to_dec(0), "0");
    assert_eq!(u16_to_dec(65535), "65535");
    assert_eq!(str_trim("  ein Text \r\n"), "ein Text");
    assert!(str_contains("abc </Bezeichnung> def", " </Bezeichnung>"));
    assert!(!str_contains("abc", " </Bezeichnung>"));
    assert_eq!(escape_script("a\nb\nc"), "a&#10;b&#10;c");
}

#[test]
fn known_problem_catalogue_lists_the_stable_codes() {
    let problems = known_problems();
    let codes: Vec<&str> = problems.iter().map(|p| p.code).collect();
    assert_eq!(
        codes,
        vec!["2023-0001", "2023-0002", "2023-0003", "2023-0004", "2024-0005"]
    );
    assert!(problems[2].fixable);
    assert!(!problems[3].fixable);
}

#[test]
fn new_form_reference_carries_the_fixed_defaults() {
    let f = Form::new_form_reference("Zielformular");
    assert_eq!(f.name, "Zielformular");
    assert_eq!(f.category, "0");
    assert_eq!(f.sid, "2001");
    assert_eq!(f.guid, "00000000-0000-0000-0000-000000000000");
    assert_eq!(f.revision, 1);
    assert!(f.entries.is_none());
}

#[test]
fn form_entries_sort_by_name_inside_the_form() {
    let mut f = data_form("Haupt");
    match &mut f.entries {
        Some(es) => {
            es.entry.push(entry_with(String::new(), String::from("Zuletzt")));
            es.entry.push(entry_with(String::new(), String::from("Anfang")));
        }
        None => unreachable!(),
    }
    f.sorted();
    let names: Vec<String> = f
        .entries
        .as_ref()
        .unwrap()
        .entry
        .iter()
        .map(|e| e.name.clone())
        .collect();
    assert_eq!(names, vec!["Anfang", "Datum", "Zuletzt"]);
}

#[test]
fn input_file_names_and_error_wording() {
    let f = InputFile::Osc { filename: String::from("beispiel.osc"), content: String::new() };
    assert_eq!(f.filename(), "beispiel.osc");
    let e = FileError::Reading(String::from("beispiel.osc"), String::from("fehlt"));
    assert_eq!(
        e.to_display_string(),
        "Kann Datei 'beispiel.osc' nicht lesen: fehlt"
    );
}

#[test]
fn document_check_combines_line_and_model_findings() {
    let mut doc = empty_document();
    let mut f = subform("Unter");
    f.hat_unterformulare = true;
    doc.editor.unterformular.push(f);
    let content = "<Zeile/>\n  <Bezeichnung>Regel </Bezeichnung>\n";
    let notices = osc_variant::checks::osc::check(content, &doc);
    let codes = error_codes(&notices);
    assert_eq!(codes, vec![String::from("2023-0003"), String::from("2023-0001")]);
    match &notices[0] {
        CheckNotice::ErrorWithCode { line, .. } => assert_eq!(*line, Some(1)),
        _ => panic!("expected the line-level error first"),
    }
}

#[test]
fn filtering_retains_only_matching_names() {
    let mut doc = empty_document();
    doc.editor.property_catalogue.push(pc_named("Alpha", 1, "Eigene"));
    doc.editor.property_catalogue.push(pc_named("Beta", 1, "Eigene"));
    doc.editor.data_form.push(data_form("Alphaform"));
    doc.editor.data_form.push(data_form("Anderes"));
    doc.filter_by_name_contains("Alpha");
    assert_eq!(doc.editor.property_catalogue.len(), 1);
    assert_eq!(doc.editor.property_catalogue[0].name, "Alpha");
    assert_eq!(doc.editor.data_form.len(), 1);
    assert_eq!(doc.editor.data_form[0].name, "Alphaform");
}
