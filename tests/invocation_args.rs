use anonyfiles_gui::invocation::build_invocation;
use anonyfiles_gui::layout::{EngineLayout, Workspace};
use anonyfiles_gui::request::{is_tabular_tag, AnonymizationConfig, AnonymizationRequest, EntityKind};

fn layout() -> EngineLayout {
    EngineLayout {
        program: "python".to_string(),
        entry_point: "/cli/main.py".to_string(),
        config_file: "/cli/generated_config.yaml".to_string(),
    }
}

fn all_enabled() -> AnonymizationConfig {
    AnonymizationConfig {
        anonymize_persons: true,
        anonymize_locations: true,
        anonymize_orgs: true,
        anonymize_emails: true,
        anonymize_dates: true,
    }
}

fn request(config: AnonymizationConfig, file_type: Option<&str>, has_header: Option<bool>) -> AnonymizationRequest {
    AnonymizationRequest {
        text: "text".to_string(),
        config,
        file_type: file_type.map(|t| t.to_string()),
        has_header,
    }
}

fn args_for(req: &AnonymizationRequest) -> Vec<String> {
    let ws = Workspace::in_dir("/ws".to_string());
    build_invocation(&layout(), &ws, req).args
}

const FIXED: [&str; 9] = [
    "/cli/main.py",
    "anonymize",
    "/ws/anonyfiles_input.txt",
    "--config",
    "/cli/generated_config.yaml",
    "-o",
    "/ws/anonyfiles_output.txt",
    "--output-dir",
    "/ws",
];

fn expected(tail: &[&str]) -> Vec<String> {
    FIXED.iter().chain(tail.iter()).map(|s| s.to_string()).collect()
}

#[test]
fn all_enabled_has_no_exclusion() {
    let args = args_for(&request(all_enabled(), None, None));
    assert_eq!(args, expected(&[]));
    assert!(!args.iter().any(|a| a == "--exclude-entities"));
}

#[test]
fn one_disabled_category_is_excluded() {
    let mut c = all_enabled();
    c.anonymize_emails = false;
    let args = args_for(&request(c, None, None));
    assert_eq!(args, expected(&["--exclude-entities", "EMAIL"]));
}

#[test]
fn disabled_categories_are_joined_in_fixed_order() {
    let mut c = all_enabled();
    c.anonymize_dates = false;
    c.anonymize_persons = false;
    c.anonymize_orgs = false;
    let args = args_for(&request(c, None, None));
    assert_eq!(args, expected(&["--exclude-entities", "PERSON,ORGANIZATION,DATE"]));
}

#[test]
fn all_disabled_lists_every_code_once() {
    let c = AnonymizationConfig {
        anonymize_persons: false,
        anonymize_locations: false,
        anonymize_orgs: false,
        anonymize_emails: false,
        anonymize_dates: false,
    };
    let args = args_for(&request(c, None, None));
    assert_eq!(
        args,
        expected(&["--exclude-entities", "PERSON,LOCATION,ORGANIZATION,EMAIL,DATE"])
    );
    assert_eq!(args.iter().filter(|a| *a == "--exclude-entities").count(), 1);
    assert!(!args.last().unwrap().ends_with(','));
}

#[test]
fn exclusion_list_matches_excluded_kinds() {
    let mut c = all_enabled();
    c.anonymize_locations = false;
    assert_eq!(c.excluded(), vec![EntityKind::Location]);
    assert_eq!(c.exclusion_list(), Some("LOCATION".to_string()));
    assert_eq!(all_enabled().exclusion_list(), None);
}

#[test]
fn csv_with_header_hint_is_forwarded() {
    let args = args_for(&request(all_enabled(), Some("csv"), Some(true)));
    assert_eq!(args, expected(&["--has-header-opt", "true"]));
    let args = args_for(&request(all_enabled(), Some("xlsx"), Some(false)));
    assert_eq!(args, expected(&["--has-header-opt", "false"]));
}

#[test]
fn header_hint_follows_exclusion() {
    let mut c = all_enabled();
    c.anonymize_persons = false;
    let args = args_for(&request(c, Some("csv"), Some(false)));
    assert_eq!(args, expected(&["--exclude-entities", "PERSON", "--has-header-opt", "false"]));
}

#[test]
fn header_hint_ignored_for_other_file_types() {
    for tag in ["txt", "docx", "CSV", "", "csvx"] {
        let args = args_for(&request(all_enabled(), Some(tag), Some(true)));
        assert_eq!(args, expected(&[]));
    }
    let args = args_for(&request(all_enabled(), None, Some(true)));
    assert_eq!(args, expected(&[]));
}

#[test]
fn tabular_without_header_hint_adds_nothing() {
    let args = args_for(&request(all_enabled(), Some("csv"), None));
    assert_eq!(args, expected(&[]));
}

#[test]
fn tabular_tags() {
    assert!(is_tabular_tag("csv"));
    assert!(is_tabular_tag("xlsx"));
    assert!(!is_tabular_tag("xls"));
    assert!(!is_tabular_tag("txt"));
    assert!(!is_tabular_tag(""));
}

#[test]
fn invocation_runs_the_configured_program() {
    let ws = Workspace::in_dir("/ws".to_string());
    let inv = build_invocation(&layout(), &ws, &request(all_enabled(), None, None));
    assert_eq!(inv.program, "python");
}
