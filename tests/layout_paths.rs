use anonyfiles_gui::layout::{default_output_dir, locate, Workspace};
use anonyfiles_gui::text::append_digits;

#[test]
fn default_workspace_dir_without_override() {
    assert_eq!(default_output_dir(None), "anonyfiles_outputs");
    assert_eq!(default_output_dir(Some("/var/tmp/x".to_string())), "/var/tmp/x");
}

#[test]
fn workspace_files_lie_in_its_directory() {
    let ws = Workspace::in_dir("/tmp/ws".to_string());
    assert_eq!(ws.dir, "/tmp/ws");
    assert_eq!(ws.input, "/tmp/ws/anonyfiles_input.txt");
    assert_eq!(ws.output, "/tmp/ws/anonyfiles_output.txt");
    assert_eq!(ws.error_output, "/tmp/ws/anonyfiles_error_output.txt");
    assert_eq!(
        ws.files(),
        vec![
            "/tmp/ws/anonyfiles_input.txt".to_string(),
            "/tmp/ws/anonyfiles_output.txt".to_string(),
            "/tmp/ws/anonyfiles_error_output.txt".to_string(),
        ]
    );
}

#[test]
fn locate_from_backend_directory() {
    let (layout, ws) = locate("/home/u/app/gui/src-tauri", "anonyfiles_outputs".to_string(), 7).unwrap();
    assert_eq!(layout.program, "python");
    assert_eq!(layout.entry_point, "/home/u/app/anonyfiles_cli/main.py");
    assert_eq!(layout.config_file, "/home/u/app/anonyfiles_cli/generated_config.yaml");
    assert_eq!(ws.dir, "/home/u/app/gui/anonyfiles_outputs/run-7");
    assert_eq!(ws.input, "/home/u/app/gui/anonyfiles_outputs/run-7/anonyfiles_input.txt");
}

#[test]
fn locate_from_front_end_root_with_absolute_workspace() {
    let (layout, ws) = locate("/home/u/app/gui", "/tmp/out".to_string(), 12345).unwrap();
    assert_eq!(layout.entry_point, "/home/u/app/anonyfiles_cli/main.py");
    assert_eq!(ws.dir, "/tmp/out/run-12345");
    assert_eq!(ws.input, "/tmp/out/run-12345/anonyfiles_input.txt");
    assert_eq!(ws.output, "/tmp/out/run-12345/anonyfiles_output.txt");
    assert_eq!(ws.error_output, "/tmp/out/run-12345/anonyfiles_error_output.txt");
}

#[test]
fn locate_fails_without_parent() {
    assert!(locate("/", "anonyfiles_outputs".to_string(), 0).is_none());
    assert!(locate("", "anonyfiles_outputs".to_string(), 0).is_none());
}

#[test]
fn requests_get_distinct_directories() {
    let a = Workspace::for_request("/w", 0);
    let b = Workspace::for_request("/w", 18446744073709551615);
    assert_eq!(a.dir, "/w/run-0");
    assert_eq!(b.dir, "/w/run-18446744073709551615");
    assert_eq!(a.output, "/w/run-0/anonyfiles_output.txt");
    assert_ne!(a.input, b.input);
}

#[test]
fn locate_from_root_without_parent_in_backend_dir() {
    assert!(locate("src-tauri", "anonyfiles_outputs".to_string(), 1).is_none());
}

#[test]
fn digits_of_large_numbers() {
    let mut s = "n=".to_string();
    append_digits(&mut s, 9007199254740993);
    assert_eq!(s, "n=9007199254740993");
}
