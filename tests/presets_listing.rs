use anonyfiles_gui::presets::{is_preset_name, list_presets};

#[test]
fn keeps_json_files_in_order() {
    let names: Vec<String> = ["b.json", "notes.txt", "a.json", "archive.json.bak", "c.JSON", "d.json"]
        .iter()
        .map(|s| s.to_string())
        .collect();
    assert_eq!(
        list_presets(&names),
        vec!["b.json".to_string(), "a.json".to_string(), "d.json".to_string()]
    );
}

#[test]
fn empty_directory_has_no_presets() {
    assert!(list_presets(&Vec::new()).is_empty());
}

#[test]
fn extension_edge_cases() {
    assert!(is_preset_name("x.json"));
    assert!(is_preset_name("my.preset.json"));
    assert!(is_preset_name("..json"));
    assert!(is_preset_name(".hidden.json"));
    assert!(!is_preset_name(".json"));
    assert!(!is_preset_name("json"));
    assert!(!is_preset_name("x.json."));
    assert!(!is_preset_name("x.jsonl"));
    assert!(!is_preset_name(""));
    assert!(is_preset_name("préréglage.json"));
}
