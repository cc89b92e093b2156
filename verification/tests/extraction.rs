use script_launcher::scripts::{
    build_candidate_rows, empty_state_diagnostic, extract_script_name,
    get_scripts_from_package_json, make_row, ScriptEntry,
};

#[test]
fn rows_from_string_valued_scripts() {
    let rows = get_scripts_from_package_json(r#"{"scripts":{"build":"tsc","test":"vitest"}}"#)
        .unwrap();
    assert_eq!(rows, vec!["build = tsc".to_string(), "test = vitest".to_string()]);
}

#[test]
fn rows_keep_document_order() {
    let rows = get_scripts_from_package_json(r#"{"scripts":{"zz":"1","aa":"2","mm":"3"}}"#)
        .unwrap();
    assert_eq!(rows, vec!["zz = 1".to_string(), "aa = 2".to_string(), "mm = 3".to_string()]);
}

#[test]
fn non_string_value_gives_empty_command() {
    let rows =
        get_scripts_from_package_json(r#"{"scripts":{"a":42,"b":null,"c":{"x":1},"d":"ok"}}"#)
            .unwrap();
    assert_eq!(
        rows,
        vec!["a = ".to_string(), "b = ".to_string(), "c = ".to_string(), "d = ok".to_string()]
    );
}

#[test]
fn missing_scripts_key_gives_empty_list() {
    let rows = get_scripts_from_package_json(r#"{"name":"x"}"#).unwrap();
    assert!(rows.is_empty());
}

#[test]
fn non_object_scripts_gives_empty_list() {
    let rows = get_scripts_from_package_json(r#"{"scripts":"run things"}"#).unwrap();
    assert!(rows.is_empty());
    let rows = get_scripts_from_package_json(r#"{"scripts":[1,2]}"#).unwrap();
    assert!(rows.is_empty());
}

#[test]
fn empty_scripts_object_gives_empty_list() {
    let rows = get_scripts_from_package_json(r#"{"name":"x","scripts":{}}"#).unwrap();
    assert!(rows.is_empty());
}

#[test]
fn malformed_json_is_an_error() {
    let err = get_scripts_from_package_json("{").unwrap_err();
    assert!(!err.message.is_empty());
}

#[test]
fn empty_text_is_an_error() {
    assert!(get_scripts_from_package_json("").is_err());
}

#[test]
fn make_row_with_command() {
    let entry = ScriptEntry { name: "build".to_string(), command: Some("tsc".to_string()) };
    assert_eq!(make_row(&entry), "build = tsc");
}

#[test]
fn make_row_without_command() {
    let entry = ScriptEntry { name: "k".to_string(), command: None };
    assert_eq!(make_row(&entry), "k = ");
}

#[test]
fn build_rows_in_entry_order() {
    let entries = vec![
        ScriptEntry { name: "one".to_string(), command: Some("first".to_string()) },
        ScriptEntry { name: "two".to_string(), command: None },
    ];
    let rows = build_candidate_rows(&entries);
    assert_eq!(rows, vec!["one = first".to_string(), "two = ".to_string()]);
}

#[test]
fn extracted_name_is_trimmed_head() {
    assert_eq!(extract_script_name("abc = some command --flag"), "abc");
}

#[test]
fn extracted_name_from_plain_row() {
    assert_eq!(extract_script_name("build = tsc"), "build");
}

#[test]
fn extraction_without_equals_trims_whole_row() {
    assert_eq!(extract_script_name("  noequals  "), "noequals");
}

#[test]
fn extraction_stops_at_first_equals() {
    assert_eq!(extract_script_name("a = b = c"), "a");
    assert_eq!(extract_script_name("a=b"), "a");
}

#[test]
fn extraction_of_empty_name() {
    assert_eq!(extract_script_name(" = cmd"), "");
    assert_eq!(extract_script_name(""), "");
}

#[test]
fn extraction_trims_unicode_whitespace() {
    assert_eq!(extract_script_name("\u{00A0}pad\u{3000} = x"), "pad");
}

#[test]
fn missing_manifest_diagnostic() {
    assert_eq!(
        empty_state_diagnostic(false, 0),
        Some("Error: There is no package.json in the current directory".to_string())
    );
}

#[test]
fn empty_candidate_list_diagnostic() {
    assert_eq!(
        empty_state_diagnostic(true, 0),
        Some("Error: There are no scripts in package.json".to_string())
    );
}

#[test]
fn populated_candidate_list_needs_no_diagnostic() {
    assert_eq!(empty_state_diagnostic(true, 2), None);
}
