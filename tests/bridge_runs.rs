use std::collections::{HashMap, HashSet};

use anonyfiles_gui::bridge::{cap_diagnostic, Action, Bridge, Event, Phase, MAX_DIAGNOSTIC_CHARS};
use anonyfiles_gui::error::{BridgeError, Ending};
use anonyfiles_gui::invocation::Invocation;
use anonyfiles_gui::layout::{EngineLayout, Workspace};
use anonyfiles_gui::request::{AnonymizationConfig, AnonymizationRequest};

/// What the fake engine does when launched.
enum Engine {
    /// Exits with this code after writing `output` to the output file, when given.
    Exit { code: Option<i32>, output: Option<String>, stdout: String, stderr: String },
    /// Cannot be started.
    Unlaunchable,
}

/// A host with an in-memory file system and a fake engine.
struct Host {
    files: HashMap<String, String>,
    dirs: HashSet<String>,
    can_create_dirs: bool,
    can_write: bool,
    engine: Engine,
    launches: Vec<Invocation>,
    removals: usize,
}

impl Host {
    fn new(engine: Engine) -> Host {
        let mut files = HashMap::new();
        files.insert("/engine/main.py".to_string(), String::new());
        files.insert("/engine/generated_config.yaml".to_string(), String::new());
        Host {
            files,
            dirs: HashSet::new(),
            can_create_dirs: true,
            can_write: true,
            engine,
            launches: Vec::new(),
            removals: 0,
        }
    }

    fn perform(&mut self, action: Action, ws: &Workspace) -> Result<Event, Result<String, BridgeError>> {
        match action {
            Action::CheckExists(p) => Ok(Event::Checked(self.files.contains_key(&p))),
            Action::CreateDir(d) => {
                if self.can_create_dirs {
                    self.dirs.insert(d);
                    Ok(Event::Created(Ok(())))
                } else {
                    Ok(Event::Created(Err("permission denied".to_string())))
                }
            }
            Action::WriteInput { path, text } => {
                if self.can_write {
                    self.files.insert(path, text);
                    Ok(Event::Written(Ok(())))
                } else {
                    self.files.insert(path, String::new());
                    Ok(Event::Written(Err("disk full".to_string())))
                }
            }
            Action::Launch(inv) => {
                self.launches.push(inv);
                match &self.engine {
                    Engine::Unlaunchable => Ok(Event::LaunchFailed("no such program".to_string())),
                    Engine::Exit { code, output, stdout, stderr } => {
                        if let Some(text) = output {
                            self.files.insert(ws.output.clone(), text.clone());
                        }
                        self.files.insert(ws.error_output.clone(), stderr.clone());
                        Ok(Event::Exited { code: *code, stdout: stdout.clone(), stderr: stderr.clone() })
                    }
                }
            }
            Action::ReadOutput(p) => match self.files.get(&p) {
                Some(text) => Ok(Event::OutputRead(Ok(text.clone()))),
                None => Ok(Event::OutputRead(Err("not found".to_string()))),
            },
            Action::RemoveFiles { files, dir } => {
                self.removals += 1;
                for p in files {
                    self.files.remove(&p);
                }
                self.dirs.remove(&dir);
                Ok(Event::Removed)
            }
            Action::Finish(outcome) => Err(outcome),
        }
    }

    fn transient_files_left(&self, ws: &Workspace) -> bool {
        self.files.contains_key(&ws.input)
            || self.files.contains_key(&ws.output)
            || self.files.contains_key(&ws.error_output)
    }
}

fn layout() -> EngineLayout {
    EngineLayout {
        program: "python".to_string(),
        entry_point: "/engine/main.py".to_string(),
        config_file: "/engine/generated_config.yaml".to_string(),
    }
}

fn workspace() -> Workspace {
    Workspace::in_dir("/work".to_string())
}

fn request() -> AnonymizationRequest {
    AnonymizationRequest {
        text: "Alice lives in Paris.".to_string(),
        config: AnonymizationConfig {
            anonymize_persons: true,
            anonymize_locations: true,
            anonymize_orgs: true,
            anonymize_emails: true,
            anonymize_dates: true,
        },
        file_type: None,
        has_header: None,
    }
}

/// Runs one request to its end; returns the outcome and the last phase.
fn run(host: &mut Host, layout: EngineLayout) -> (Result<String, BridgeError>, Phase) {
    let ws = workspace();
    let (mut bridge, mut action) = Bridge::start(layout, workspace(), request());
    loop {
        match host.perform(action, &ws) {
            Ok(event) => {
                assert!(bridge.accepts(&event));
                action = bridge.step(event);
            }
            Err(outcome) => return (outcome, bridge.phase),
        }
    }
}

#[test]
fn success_returns_output_and_removes_files() {
    let mut host = Host::new(Engine::Exit {
        code: Some(0),
        output: Some("PERSON_1 lives in LOCATION_1.".to_string()),
        stdout: String::new(),
        stderr: String::new(),
    });
    let (outcome, phase) = run(&mut host, layout());
    assert_eq!(outcome.ok(), Some("PERSON_1 lives in LOCATION_1.".to_string()));
    assert_eq!(phase, Phase::Finished(Ending::Success));
    assert!(!host.transient_files_left(&workspace()));
    assert_eq!(host.removals, 1);
    assert_eq!(host.launches.len(), 1);
    assert!(host.dirs.is_empty());
}

#[test]
fn engine_failure_reports_stderr_and_code() {
    let mut host = Host::new(Engine::Exit {
        code: Some(2),
        output: None,
        stdout: "progress".to_string(),
        stderr: "X".to_string(),
    });
    let (outcome, phase) = run(&mut host, layout());
    assert_eq!(phase, Phase::Finished(Ending::EngineFailure));
    let err = outcome.err().unwrap();
    let message = err.message();
    assert!(message.contains("X"));
    assert!(message.contains("2"));
    assert!(!message.contains("progress"));
    assert_eq!(message, "engine failed with exit code 2: X");
    match err {
        BridgeError::EngineFailure { code, diagnostic } => {
            assert_eq!(code, Some(2));
            assert_eq!(diagnostic, "X");
        }
        _ => panic!("expected an engine failure"),
    }
    assert!(!host.transient_files_left(&workspace()));
    assert_eq!(host.removals, 1);
}

#[test]
fn engine_failure_falls_back_to_stdout() {
    let mut host = Host::new(Engine::Exit {
        code: Some(1),
        output: None,
        stdout: "Y".to_string(),
        stderr: String::new(),
    });
    let (outcome, _) = run(&mut host, layout());
    let message = outcome.err().unwrap().message();
    assert!(message.contains("Y"));
    assert_eq!(message, "engine failed with exit code 1: Y");
    assert!(!host.transient_files_left(&workspace()));
}

#[test]
fn engine_killed_without_code_is_a_failure() {
    let mut host = Host::new(Engine::Exit {
        code: None,
        output: Some("partial".to_string()),
        stdout: String::new(),
        stderr: "killed".to_string(),
    });
    let (outcome, phase) = run(&mut host, layout());
    assert_eq!(phase, Phase::Finished(Ending::EngineFailure));
    assert_eq!(outcome.err().unwrap().message(), "engine failed without an exit code: killed");
    assert!(!host.transient_files_left(&workspace()));
}

#[test]
fn launch_failure_removes_files() {
    let mut host = Host::new(Engine::Unlaunchable);
    let (outcome, phase) = run(&mut host, layout());
    assert_eq!(phase, Phase::Finished(Ending::LaunchFailure));
    let err = outcome.err().unwrap();
    assert_eq!(err.ending(), Ending::LaunchFailure);
    assert_eq!(err.message(), "could not launch the engine: no such program");
    assert!(!host.transient_files_left(&workspace()));
    assert_eq!(host.removals, 1);
}

#[test]
fn missing_output_is_a_retrieval_failure() {
    let mut host = Host::new(Engine::Exit {
        code: Some(0),
        output: None,
        stdout: String::new(),
        stderr: String::new(),
    });
    let (outcome, phase) = run(&mut host, layout());
    assert_eq!(phase, Phase::Finished(Ending::OutputRetrieval));
    let err = outcome.err().unwrap();
    assert_eq!(err.ending(), Ending::OutputRetrieval);
    assert_eq!(err.message(), "could not read the engine output: not found");
    assert!(!host.transient_files_left(&workspace()));
    assert_eq!(host.removals, 1);
}

#[test]
fn missing_entry_point_never_launches() {
    let mut host = Host::new(Engine::Exit {
        code: Some(0),
        output: Some("never".to_string()),
        stdout: String::new(),
        stderr: String::new(),
    });
    let mut l = layout();
    l.entry_point = "/nowhere/main.py".to_string();
    let (outcome, phase) = run(&mut host, l);
    assert_eq!(phase, Phase::Finished(Ending::MissingDependency));
    assert!(host.launches.is_empty());
    assert!(host.dirs.is_empty());
    let err = outcome.err().unwrap();
    assert_eq!(err.message(), "missing engine dependency: /nowhere/main.py");
    assert!(!host.transient_files_left(&workspace()));
}

#[test]
fn missing_engine_config_never_launches() {
    let mut host = Host::new(Engine::Unlaunchable);
    host.files.remove("/engine/generated_config.yaml");
    let (outcome, phase) = run(&mut host, layout());
    assert_eq!(phase, Phase::Finished(Ending::MissingDependency));
    assert!(host.launches.is_empty());
    match outcome.err().unwrap() {
        BridgeError::MissingDependency { path } => assert_eq!(path, "/engine/generated_config.yaml"),
        _ => panic!("expected a missing dependency"),
    }
}

#[test]
fn workspace_failures_never_launch() {
    let mut host = Host::new(Engine::Unlaunchable);
    host.can_create_dirs = false;
    let (outcome, phase) = run(&mut host, layout());
    assert_eq!(phase, Phase::Finished(Ending::WorkspaceIo));
    assert_eq!(outcome.err().unwrap().message(), "workspace I/O failure: permission denied");
    assert!(host.launches.is_empty());

    let mut host = Host::new(Engine::Unlaunchable);
    host.can_write = false;
    let (outcome, phase) = run(&mut host, layout());
    assert_eq!(phase, Phase::Finished(Ending::WorkspaceIo));
    assert_eq!(outcome.err().unwrap().message(), "workspace I/O failure: disk full");
    assert!(host.launches.is_empty());
    assert!(!host.transient_files_left(&workspace()));
}

#[test]
fn input_is_written_before_launch() {
    let mut host = Host::new(Engine::Exit {
        code: Some(0),
        output: Some("done".to_string()),
        stdout: String::new(),
        stderr: String::new(),
    });
    let ws = workspace();
    let (mut bridge, mut action) = Bridge::start(layout(), workspace(), request());
    let mut seen_input_before_launch = false;
    loop {
        if let Action::Launch(inv) = &action {
            seen_input_before_launch = host.files.get(&ws.input) == Some(&"Alice lives in Paris.".to_string());
            assert_eq!(inv.program, "python");
            assert_eq!(inv.args[0], "/engine/main.py");
            assert_eq!(inv.args[2], ws.input);
        }
        match host.perform(action, &ws) {
            Ok(event) => action = bridge.step(event),
            Err(_) => break,
        }
    }
    assert!(seen_input_before_launch);
}

#[test]
fn unexpected_event_is_not_accepted() {
    let (bridge, action) = Bridge::start(layout(), workspace(), request());
    assert!(matches!(action, Action::CheckExists(ref p) if p == "/engine/main.py"));
    assert!(!bridge.accepts(&Event::Removed));
    assert!(!bridge.accepts(&Event::OutputRead(Ok(String::new()))));
    assert!(bridge.accepts(&Event::Checked(false)));
}

#[test]
fn long_diagnostic_keeps_its_tail() {
    let long = format!("{}{}", "a".repeat(70000), "Traceback: boom");
    let mut host = Host::new(Engine::Exit {
        code: Some(1),
        output: None,
        stdout: String::new(),
        stderr: long.clone(),
    });
    let (outcome, _) = run(&mut host, layout());
    match outcome.err().unwrap() {
        BridgeError::EngineFailure { code, diagnostic } => {
            assert_eq!(code, Some(1));
            assert_eq!(diagnostic.chars().count(), MAX_DIAGNOSTIC_CHARS);
            assert!(diagnostic.ends_with("Traceback: boom"));
            assert!(long.ends_with(&diagnostic));
        }
        _ => panic!("expected an engine failure"),
    }
}

#[test]
fn cap_diagnostic_keeps_short_text() {
    assert_eq!(cap_diagnostic("short".to_string()), "short");
    let exact = "é".repeat(MAX_DIAGNOSTIC_CHARS);
    assert_eq!(cap_diagnostic(exact.clone()), exact);
    let longer = format!("x{}", exact);
    assert_eq!(cap_diagnostic(longer), exact);
}
