use vstd::prelude::*;
use crate::text::{append_digits, digits, lemma_digits_injective};

verus! {

/// Directory, relative to the front end's root, that holds the transient
/// files when no other is configured.
pub const DEFAULT_WORKSPACE_DIR: &'static str = "anonyfiles_outputs";

/// Prefix of the name of each request's own directory inside the workspace
/// directory.
pub const RUN_DIR_PREFIX: &'static str = "run-";

/// Name of the file that carries the request text to the engine.
pub const INPUT_FILE_NAME: &'static str = "anonyfiles_input.txt";

/// Name of the file the engine writes its result to.
pub const OUTPUT_FILE_NAME: &'static str = "anonyfiles_output.txt";

/// Name of the file reserved for the engine's error output.
pub const ERROR_OUTPUT_FILE_NAME: &'static str = "anonyfiles_error_output.txt";

/// Directory, beside the front end's root, that holds the engine.
pub const ENGINE_DIR_NAME: &'static str = "anonyfiles_cli";

/// The engine's entry point inside its directory.
pub const ENTRY_POINT_NAME: &'static str = "main.py";

/// The engine's configuration file inside its directory.
pub const ENGINE_CONFIG_NAME: &'static str = "generated_config.yaml";

/// The interpreter that runs the entry point.
pub const ENGINE_PROGRAM: &'static str = "python";

/// The front end's own configuration document inside the workspace.
pub const CONFIG_DOCUMENT_NAME: &'static str = "generated_config.yaml";

/// Last directory component of a working directory that lies inside the
/// front end's root.
pub const BACKEND_DIR_NAME: &'static str = "src-tauri";

/// Where the engine lives and how it is run.
pub struct EngineLayout {
    pub program: String,
    pub entry_point: String,
    pub config_file: String,
}

/// The transient directory and the three files inside it that one engine run
/// uses.
pub struct Workspace {
    pub dir: String,
    pub input: String,
    pub output: String,
    pub error_output: String,
}

/// The path `name` adjoined to `base`, as std::path::Path::join forms it.
pub uninterp spec fn path_join(base: Seq<char>, name: Seq<char>) -> Seq<char>;

/// The path without its last component, as std::path::Path::parent gives it.
pub uninterp spec fn path_parent(p: Seq<char>) -> Option<Seq<char>>;

/// Whether the last components of `p` are those of `suffix`, as
/// std::path::Path::ends_with decides.
pub uninterp spec fn path_ends(p: Seq<char>, suffix: Seq<char>) -> bool;

/// Whether `p` is not absolute, as std::path::Path::is_relative decides.
pub uninterp spec fn path_relative(p: Seq<char>) -> bool;

/// Relies on std::path::Path::join: `name` adjoined to `base`. The inputs are
/// UTF-8, so the joined path is too and the lossy conversion keeps it whole.
#[verifier::external_body]
fn join_path(base: &str, name: &str) -> (r: String)
    ensures
        r@ == path_join(base@, name@),
{
    std::path::Path::new(base).join(name).to_string_lossy().into_owned()
}

/// Relies on std::path::Path::parent: the path without its last component;
/// `None` for a root, a prefix or the empty path. A parent of a UTF-8 path is
/// UTF-8, so the lossy conversion keeps it whole.
#[verifier::external_body]
fn parent_path(p: &str) -> (r: Option<String>)
    ensures
        r is Some <==> path_parent(p@) is Some,
        r matches Some(q) ==> q@ == path_parent(p@)->0,
        p@.len() == 0 ==> r is None,
{
    std::path::Path::new(p).parent().map(|q| q.to_string_lossy().into_owned())
}

/// Relies on std::path::Path::ends_with: whether the last components of `p`
/// are those of `suffix`.
#[verifier::external_body]
fn path_ends_with(p: &str, suffix: &str) -> (r: bool)
    ensures
        r == path_ends(p@, suffix@),
{
    std::path::Path::new(p).ends_with(suffix)
}

/// Relies on std::path::Path::is_relative: whether `p` is not absolute.
#[verifier::external_body]
fn path_is_relative(p: &str) -> (r: bool)
    ensures
        r == path_relative(p@),
{
    std::path::Path::new(p).is_relative()
}

/// The workspace directory: the configured override when there is one,
/// else the default name.
pub fn default_output_dir(configured: Option<String>) -> (r: String)
    ensures
        configured matches Some(d) ==> r == d,
        configured is None ==> r@ == DEFAULT_WORKSPACE_DIR@,
{
    match configured {
        Some(d) => d,
        None => String::from_str(DEFAULT_WORKSPACE_DIR),
    }
}

/// The name of the directory that holds the files of the request with the
/// given token.
pub open spec fn run_dir_name(token: u64) -> Seq<char> {
    RUN_DIR_PREFIX@ + digits(token as nat)
}

/// Distinct tokens give distinct directory names.
pub proof fn lemma_run_dir_names_distinct(a: u64, b: u64)
    requires
        a != b,
    ensures
        run_dir_name(a) != run_dir_name(b),
{
    if run_dir_name(a) == run_dir_name(b) {
        let p = RUN_DIR_PREFIX@;
        assert(run_dir_name(a).subrange(p.len() as int, run_dir_name(a).len() as int) =~= digits(
            a as nat,
        ));
        assert(run_dir_name(b).subrange(p.len() as int, run_dir_name(b).len() as int) =~= digits(
            b as nat,
        ));
        lemma_digits_injective(a as nat, b as nat);
    }
}

impl Workspace {
    /// Whether the three files are the well-known names inside the directory.
    pub open spec fn laid_out(&self) -> bool {
        &&& self.input@ == path_join(self.dir@, INPUT_FILE_NAME@)
        &&& self.output@ == path_join(self.dir@, OUTPUT_FILE_NAME@)
        &&& self.error_output@ == path_join(self.dir@, ERROR_OUTPUT_FILE_NAME@)
    }

    /// The three well-known files inside `dir`.
    pub fn in_dir(dir: String) -> (r: Workspace)
        ensures
            r.dir == dir,
            r.laid_out(),
    {
        let input = join_path(dir.as_str(), INPUT_FILE_NAME);
        let output = join_path(dir.as_str(), OUTPUT_FILE_NAME);
        let error_output = join_path(dir.as_str(), ERROR_OUTPUT_FILE_NAME);
        Workspace { dir, input, output, error_output }
    }

    /// The workspace of one request: a directory inside `base` named after
    /// the request's token, a name that no other token gives.
    pub fn for_request(base: &str, token: u64) -> (r: Workspace)
        ensures
            r.dir@ == path_join(base@, run_dir_name(token)),
            r.laid_out(),
    {
        let mut name = String::from_str(RUN_DIR_PREFIX);
        append_digits(&mut name, token);
        Workspace::in_dir(join_path(base, name.as_str()))
    }

    /// The three transient files, in the order input, output, error output.
    pub fn files(&self) -> (r: Vec<String>)
        ensures
            r@ == seq![self.input, self.output, self.error_output],
    {
        let mut r: Vec<String> = Vec::new();
        r.push(self.input.clone());
        r.push(self.output.clone());
        r.push(self.error_output.clone());
        assert(r@ =~= seq![self.input, self.output, self.error_output]);
        r
    }
}

/// The front end's root for a working directory: the directory itself, or
/// its parent when it is the backend's own directory.
pub open spec fn front_end_root(cwd: Seq<char>) -> Option<Seq<char>> {
    if path_ends(cwd, BACKEND_DIR_NAME@) {
        path_parent(cwd)
    } else {
        Some(cwd)
    }
}

/// The directory that holds the workspaces: `dir` taken from `root` when it
/// is relative, `dir` itself otherwise.
pub open spec fn workspaces_dir(root: Seq<char>, dir: Seq<char>) -> Seq<char> {
    if path_relative(dir) {
        path_join(root, dir)
    } else {
        dir
    }
}

/// The engine's directory: a sibling of the front end's root.
pub open spec fn engine_dir(root: Seq<char>) -> Seq<char> {
    path_join(path_parent(root)->0, ENGINE_DIR_NAME@)
}

/// Finds the engine and the workspace of the request with the given token
/// from the working directory.
///
/// The front end's root is the working directory, or its parent when the
/// working directory is the backend's own directory. The engine lives in a
/// sibling directory of that root. A relative workspace directory is taken
/// from the root. `None` when the root cannot be found or has no parent.
pub fn locate(cwd: &str, workspace_dir: String, token: u64) -> (r: Option<(EngineLayout, Workspace)>)
    ensures
        r is Some <==> (front_end_root(cwd@) matches Some(root) && path_parent(root) is Some),
        cwd@.len() == 0 ==> r is None,
        r matches Some((layout, ws)) ==> {
            let root = front_end_root(cwd@)->0;
            &&& layout.program@ == ENGINE_PROGRAM@
            &&& layout.entry_point@ == path_join(engine_dir(root), ENTRY_POINT_NAME@)
            &&& layout.config_file@ == path_join(engine_dir(root), ENGINE_CONFIG_NAME@)
            &&& ws.dir@ == path_join(workspaces_dir(root, workspace_dir@), run_dir_name(token))
            &&& ws.laid_out()
        },
{
    let root = if path_ends_with(cwd, BACKEND_DIR_NAME) {
        match parent_path(cwd) {
            Some(p) => p,
            None => return None,
        }
    } else {
        String::from_str(cwd)
    };
    let base = match parent_path(root.as_str()) {
        Some(b) => b,
        None => return None,
    };
    let engine = join_path(base.as_str(), ENGINE_DIR_NAME);
    let dir = if path_is_relative(workspace_dir.as_str()) {
        join_path(root.as_str(), workspace_dir.as_str())
    } else {
        workspace_dir
    };
    let layout = EngineLayout {
        program: String::from_str(ENGINE_PROGRAM),
        entry_point: join_path(engine.as_str(), ENTRY_POINT_NAME),
        config_file: join_path(engine.as_str(), ENGINE_CONFIG_NAME),
    };
    Some((layout, Workspace::for_request(dir.as_str(), token)))
}

} // verus!
