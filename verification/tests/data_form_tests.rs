//! Profile application on the main form collection.

use osc_variant::model::form::{DataFormType, Form, UnterformularType};
use osc_variant::model::onkostar_editor::{Editor, InfoXML, OnkostarEditor};
use osc_variant::model::other::{entry_with, Entry};
use osc_variant::model::{Entries, Filter, MenuCategory, RefEntries, Script};
use osc_variant::profile::{FormField, FormReference, Profile};
use osc_variant::profile::Form as ProfileForm;

fn field_entry(name: &str, with_filter: bool) -> Entry {
    let mut e = entry_with(String::from("formReference"), String::from(name));
    e.procedure_date_status = String::from("none");
    if with_filter {
        e.filter = Some(Filter {
            condition: String::from("[Feld1] = 1"),
            valid: true,
            ref_entries: Some(RefEntries { ref_entry: None }),
        });
    }
    e
}

fn test_document() -> OnkostarEditor {
    let mut haupt: Form<DataFormType> = Form::with_name(String::from("Hauptformular"));
    haupt.menu_category = Some(MenuCategory {
        name: String::from("Test"),
        position: String::from("1"),
        column: String::from("1"),
    });
    haupt.entries = Some(Entries {
        entry: vec![
            field_entry("Feld1", false),
            field_entry("Feld2", false),
            field_entry("Auswahl", true),
            field_entry("Feld3", false),
        ],
    });
    let mut unter: Form<UnterformularType> = Form::with_name(String::from("Unterformular"));
    unter.entries = Some(Entries {
        entry: vec![field_entry("Feld1", false), field_entry("Termin", true)],
    });
    OnkostarEditor {
        info_xml: InfoXML {
            datum_xml: String::from("2024-01-01"),
            name: String::from("Editor"),
            version: String::from("1.0"),
        },
        editor: Editor {
            property_catalogue: Vec::new(),
            data_catalogue: Vec::new(),
            unterformular: vec![unter],
            data_form: vec![haupt],
            ablaufschema: None,
            rskript: None,
            formulare_loeschen: None,
            formulare_deaktivieren: None,
        },
    }
}

fn profile_form(name: &str) -> ProfileForm {
    ProfileForm {
        name: String::from(name),
        form_references: Vec::new(),
        form_fields: Vec::new(),
        menu_category: None,
    }
}

fn form_field(name: &str) -> FormField {
    FormField {
        name: String::from(name),
        hide: false,
        default_value: None,
        remove_filter: false,
        scripts_code: None,
    }
}

#[allow(dead_code)]
fn form_reference(name: &str) -> FormReference {
    FormReference {
        name: String::from(name),
        referenced_data_form: None,
        anzeige: None,
        anzeige_auswahl: None,
        remove_filter: false,
        scripts_code: None,
    }
}
#[test]
fn data_form_should_change_dataform_entry_default_value() {
    let mut doc = test_document();
    let mut pf = profile_form("Hauptformular");
    let mut ff = form_field("Auswahl");
    ff.default_value = Some(String::from("B"));
    pf.form_fields.push(ff);
    let profile = Profile { forms: vec![pf] };
    doc.apply_profile(&profile);
    let actual = doc.editor.data_form[0].entries.as_ref().unwrap();
    assert_eq!(actual.entry[2].name, "Auswahl");
    assert_eq!(actual.entry[2].default_value, "B");
}
#[test]
fn data_form_should_not_change_dataform_entry_default_value() {
    let mut doc = test_document();
    let profile = Profile { forms: vec![profile_form("Hauptformular")] };
    doc.apply_profile(&profile);
    let actual = doc.editor.data_form[0].entries.as_ref().unwrap();
    assert_eq!(actual.entry[2].name, "Auswahl");
    assert_eq!(actual.entry[2].default_value, "");
}
#[test]
fn data_form_should_change_menu_category() {
    let mut doc = test_document();
    let mut pf = profile_form("Hauptformular");
    pf.menu_category = Some(osc_variant::profile::MenuCategory {
        name: String::from("Testformulare"),
        position: String::from("1.0"),
        column: String::from("1"),
    });
    let profile = Profile { forms: vec![pf] };
    doc.apply_profile(&profile);
    match &doc.editor.data_form[0].menu_category {
        Some(menu_category) => assert_eq!(menu_category.name, "Testformulare"),
        _ => panic!("Test failed: MenuCategory not found!"),
    }
}
#[test]
fn data_form_should_keep_menu_category() {
    let mut doc = test_document();
    let profile = Profile { forms: vec![profile_form("Hauptformular")] };
    doc.apply_profile(&profile);
    match &doc.editor.data_form[0].menu_category {
        Some(menu_category) => assert_eq!(menu_category.name, "Test"),
        _ => panic!("Test failed: MenuCategory not found!"),
    }
}
#[test]
fn data_form_should_change_dataform_entry_scripts_code_with_form_fields() {
    let mut doc = test_document();
    let mut pf = profile_form("Hauptformular");
    let mut ff = form_field("Auswahl");
    ff.scripts_code = Some(String::from("// Example code\nconsole.log(42);"));
    pf.form_fields.push(ff);
    let profile = Profile { forms: vec![pf] };
    doc.apply_profile(&profile);
    let actual = doc.editor.data_form[0].entries.as_ref().unwrap();
    assert_eq!(
        actual.entry[2].scripts,
        Some(Script { code: String::from("// Example code&#10;console.log(42);"), valid: true })
    );
}
#[test]
fn data_form_should_change_dataform_entry_scripts_code_with_form_references() {
    let mut doc = test_document();
    let mut pf = profile_form("Hauptformular");
    let mut ff = form_field("Auswahl");
    ff.scripts_code = Some(String::from("// Example code\nconsole.log(42);"));
    pf.form_fields.push(ff);
    let profile = Profile { forms: vec![pf] };
    doc.apply_profile(&profile);
    let actual = doc.editor.data_form[0].entries.as_ref().unwrap();
    assert_eq!(
        actual.entry[2].scripts,
        Some(Script { code: String::from("// Example code&#10;console.log(42);"), valid: true })
    );
}
#[test]
fn data_form_should_remove_dataform_entry_filter_with_form_fields() {
    let mut doc = test_document();
    let mut pf = profile_form("Hauptformular");
    let mut ff = form_field("Auswahl");
    ff.remove_filter = true;
    ff.scripts_code = Some(String::from("// Example code\nconsole.log(42);"));
    pf.form_fields.push(ff);
    let profile = Profile { forms: vec![pf] };
    doc.apply_profile(&profile);
    let actual = doc.editor.data_form[0].entries.as_ref().unwrap();
    assert_eq!(actual.entry[0].filter, None);
    assert_eq!(actual.entry[1].filter, None);
    assert_eq!(actual.entry[2].filter, None);
    assert_eq!(actual.entry[3].filter, None);
}
#[test]
fn data_form_should_remove_dataform_entry_filter_with_form_references() {
    let mut doc = test_document();
    let mut pf = profile_form("Hauptformular");
    let mut ff = form_field("Auswahl");
    ff.remove_filter = true;
    ff.scripts_code = Some(String::from("// Example code\nconsole.log(42);"));
    pf.form_fields.push(ff);
    let profile = Profile { forms: vec![pf] };
    doc.apply_profile(&profile);
    let actual = doc.editor.data_form[0].entries.as_ref().unwrap();
    assert_eq!(actual.entry[0].filter, None);
    assert_eq!(actual.entry[1].filter, None);
    assert_eq!(actual.entry[2].filter, None);
    assert_eq!(actual.entry[3].filter, None);
}
