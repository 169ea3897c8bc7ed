use vstd::prelude::*;
use crate::layout::{EngineLayout, Workspace};
use crate::request::{is_tabular, is_tabular_tag, AnonymizationConfig, AnonymizationRequest};
use crate::text::{joined, lemma_joined_ends, views};

verus! {

/// The engine subcommand that anonymizes a file.
pub const SUBCOMMAND: &'static str = "anonymize";

/// Flag before the engine's configuration file.
pub const CONFIG_FLAG: &'static str = "--config";

/// Flag before the output file.
pub const OUTPUT_FLAG: &'static str = "-o";

/// Flag before the output directory.
pub const OUTPUT_DIR_FLAG: &'static str = "--output-dir";

/// Flag before the comma-joined codes of the categories left alone.
pub const EXCLUDE_FLAG: &'static str = "--exclude-entities";

/// Flag before the header hint of a tabular file.
pub const HEADER_FLAG: &'static str = "--has-header-opt";

/// One run of the engine: the program and its arguments.
pub struct Invocation {
    pub program: String,
    pub args: Vec<String>,
}

/// The nine arguments that every run has: entry point, subcommand, input
/// file, configuration, output file and output directory.
pub open spec fn fixed_args(layout: &EngineLayout, ws: &Workspace) -> Seq<Seq<char>> {
    seq![
        layout.entry_point@,
        SUBCOMMAND@,
        ws.input@,
        CONFIG_FLAG@,
        layout.config_file@,
        OUTPUT_FLAG@,
        ws.output@,
        OUTPUT_DIR_FLAG@,
        ws.dir@,
    ]
}

/// The exclusion flag and its list when some category is disabled; nothing
/// otherwise.
pub open spec fn exclusion_args(c: AnonymizationConfig) -> Seq<Seq<char>> {
    if c.spec_excluded().len() == 0 {
        Seq::empty()
    } else {
        seq![EXCLUDE_FLAG@, joined(c.spec_excluded_codes(), ',')]
    }
}

/// The literal the engine reads for a header hint.
pub open spec fn bool_text(b: bool) -> Seq<char> {
    if b {
        "true"@
    } else {
        "false"@
    }
}

/// The header flag and its value, only for a tabular file type with a hint.
pub open spec fn header_args(file_type: Option<String>, has_header: Option<bool>) -> Seq<Seq<char>> {
    match file_type {
        Some(t) => if is_tabular(t@) {
            match has_header {
                Some(h) => seq![HEADER_FLAG@, bool_text(h)],
                None => Seq::empty(),
            }
        } else {
            Seq::empty()
        },
        None => Seq::empty(),
    }
}

/// The engine's full argument list for a request.
pub open spec fn engine_args(
    layout: &EngineLayout,
    ws: &Workspace,
    req: &AnonymizationRequest,
) -> Seq<Seq<char>> {
    fixed_args(layout, ws) + exclusion_args(req.config) + header_args(
        req.file_type,
        req.has_header,
    )
}

/// Builds the engine invocation for `req`, with its files in `ws`.
pub fn build_invocation(layout: &EngineLayout, ws: &Workspace, req: &AnonymizationRequest) -> (r:
    Invocation)
    ensures
        r.program@ == layout.program@,
        views(r.args@) == engine_args(layout, ws, req),
{
    let mut args: Vec<String> = Vec::new();
    args.push(layout.entry_point.clone());
    args.push(String::from_str(SUBCOMMAND));
    args.push(ws.input.clone());
    args.push(String::from_str(CONFIG_FLAG));
    args.push(layout.config_file.clone());
    args.push(String::from_str(OUTPUT_FLAG));
    args.push(ws.output.clone());
    args.push(String::from_str(OUTPUT_DIR_FLAG));
    args.push(ws.dir.clone());
    assert(views(args@) =~= fixed_args(layout, ws));
    let ghost fixed = args@;
    match req.config.exclusion_list() {
        Some(list) => {
            args.push(String::from_str(EXCLUDE_FLAG));
            args.push(list);
        },
        None => {},
    }
    assert(views(args@) =~= fixed_args(layout, ws) + exclusion_args(req.config));
    let ghost with_exclusion = views(args@);
    match &req.file_type {
        Some(t) => {
            if is_tabular_tag(t.as_str()) {
                match req.has_header {
                    Some(h) => {
                        args.push(String::from_str(HEADER_FLAG));
                        if h {
                            args.push(String::from_str("true"));
                        } else {
                            args.push(String::from_str("false"));
                        }
                    },
                    None => {},
                }
            }
        },
        None => {},
    }
    assert(views(args@) =~= with_exclusion + header_args(req.file_type, req.has_header));
    Invocation { program: layout.program.clone(), args }
}

/// Every engine code is non-empty, starts with a capital letter and holds
/// no comma.
pub proof fn lemma_codes_shape(c: AnonymizationConfig)
    ensures
        forall|i: int|
            0 <= i < c.spec_excluded_codes().len() ==> {
                let code = #[trigger] c.spec_excluded_codes()[i];
                &&& code.len() > 0
                &&& 'A' <= code[0] <= 'Z'
                &&& code.last() != ','
            },
{
    reveal_strlit("PERSON");
    reveal_strlit("LOCATION");
    reveal_strlit("ORGANIZATION");
    reveal_strlit("EMAIL");
    reveal_strlit("DATE");
}

/// Whether none of the five caller-supplied paths (entry point, input file,
/// engine configuration, output file, output directory) is the text `flag`.
pub open spec fn paths_avoid(layout: &EngineLayout, ws: &Workspace, flag: Seq<char>) -> bool {
    &&& layout.entry_point@ != flag
    &&& ws.input@ != flag
    &&& layout.config_file@ != flag
    &&& ws.output@ != flag
    &&& ws.dir@ != flag
}

proof fn lemma_fixed_args_avoid(layout: &EngineLayout, ws: &Workspace, flag: Seq<char>)
    requires
        paths_avoid(layout, ws, flag),
        flag == EXCLUDE_FLAG@ || flag == HEADER_FLAG@,
    ensures
        forall|j: int| 0 <= j < 9 ==> #[trigger] fixed_args(layout, ws)[j] != flag,
{
    reveal_strlit("--exclude-entities");
    reveal_strlit("--has-header-opt");
    reveal_strlit("anonymize");
    reveal_strlit("--config");
    reveal_strlit("-o");
    reveal_strlit("--output-dir");
    let f = fixed_args(layout, ws);
    assert(f[1].len() != flag.len());
    assert(f[3].len() != flag.len());
    assert(f[5].len() != flag.len());
    assert(f[7].len() != flag.len());
}

/// The exclusion flag stands among the optional arguments (those after the
/// nine fixed ones) exactly when some category is disabled. It then stands
/// there once, first, followed by one list: the comma-joined codes of the
/// disabled categories in the fixed order person, location, organization,
/// email, date, which is not empty and does not end in a comma. Where no
/// caller-supplied path is the flag's text, the same holds of the whole
/// argument list: the flag stands only at index nine, and only when some
/// category is disabled.
pub proof fn lemma_exclusion_flag(layout: &EngineLayout, ws: &Workspace, req: &AnonymizationRequest)
    ensures
        ({
            let args = engine_args(layout, ws, req);
            let optional = args.subrange(9, args.len() as int);
            let list = joined(req.config.spec_excluded_codes(), ',');
            &&& args.len() >= 9
            &&& req.config.spec_all_enabled() ==> forall|j: int|
                0 <= j < optional.len() ==> optional[j] != EXCLUDE_FLAG@
            &&& !req.config.spec_all_enabled() ==> {
                &&& optional.len() >= 2
                &&& optional[0] == EXCLUDE_FLAG@
                &&& optional[1] == list
                &&& forall|j: int| 1 <= j < optional.len() ==> optional[j] != EXCLUDE_FLAG@
                &&& list.len() > 0
                &&& list.last() != ','
            }
            &&& req.config.spec_all_enabled() ==> args.len() == 9 + header_args(
                req.file_type,
                req.has_header,
            ).len()
            &&& paths_avoid(layout, ws, EXCLUDE_FLAG@) ==> {
                &&& req.config.spec_all_enabled() ==> forall|j: int|
                    0 <= j < args.len() ==> args[j] != EXCLUDE_FLAG@
                &&& !req.config.spec_all_enabled() ==> args[9] == EXCLUDE_FLAG@ && forall|j: int|
                    0 <= j < args.len() && j != 9 ==> args[j] != EXCLUDE_FLAG@
            }
        }),
{
    let args = engine_args(layout, ws, req);
    let optional = args.subrange(9, args.len() as int);
    let c = req.config;
    let ex = exclusion_args(c);
    let hd = header_args(req.file_type, req.has_header);
    assert(optional =~= ex + hd);
    reveal_strlit("--exclude-entities");
    reveal_strlit("--has-header-opt");
    reveal_strlit("true");
    reveal_strlit("false");
    assert(forall|j: int| 0 <= j < hd.len() ==> hd[j] != EXCLUDE_FLAG@) by {
        assert(HEADER_FLAG@[2] != EXCLUDE_FLAG@[2]);
        assert(bool_text(true).len() != EXCLUDE_FLAG@.len());
        assert(bool_text(false).len() != EXCLUDE_FLAG@.len());
    }
    if c.spec_all_enabled() {
        assert(c.spec_excluded() =~= Seq::<crate::request::EntityKind>::empty());
        assert(optional =~= hd);
    } else {
        assert(c.spec_excluded().len() > 0);
        let codes = c.spec_excluded_codes();
        lemma_codes_shape(c);
        lemma_joined_ends(codes, ',');
        let list = joined(codes, ',');
        assert(list[0] != EXCLUDE_FLAG@[0]);
        assert(optional[0] == EXCLUDE_FLAG@);
        assert(optional[1] == list);
        assert forall|j: int| 1 <= j < optional.len() implies optional[j] != EXCLUDE_FLAG@ by {
            if j >= 2 {
                assert(optional[j] == hd[j - 2]);
            }
        }
    }
    if paths_avoid(layout, ws, EXCLUDE_FLAG@) {
        lemma_fixed_args_avoid(layout, ws, EXCLUDE_FLAG@);
        assert forall|j: int| 0 <= j < args.len() && (j < 9 || j > 9) implies args[j]
            != EXCLUDE_FLAG@ by {
            if j < 9 {
                assert(args[j] == fixed_args(layout, ws)[j]);
            } else {
                assert(args[j] == optional[j - 9]);
            }
        }
        if c.spec_all_enabled() {
            assert(args[9] == optional[0] || args.len() == 9);
        }
    }
}

/// The header flag never stands among the optional arguments when the file
/// type is absent or not tabular, whatever header hint was given: the
/// arguments are then those of the same request without a hint.
pub proof fn lemma_header_needs_tabular(
    layout: &EngineLayout,
    ws: &Workspace,
    req: &AnonymizationRequest,
)
    requires
        !(req.file_type matches Some(t) && is_tabular(t@)),
    ensures
        ({
            let args = engine_args(layout, ws, req);
            let optional = args.subrange(9, args.len() as int);
            &&& args =~= fixed_args(layout, ws) + exclusion_args(req.config)
            &&& forall|j: int| 0 <= j < optional.len() ==> optional[j] != HEADER_FLAG@
            &&& paths_avoid(layout, ws, HEADER_FLAG@) ==> forall|j: int|
                0 <= j < args.len() ==> args[j] != HEADER_FLAG@
        }),
{
    let args = engine_args(layout, ws, req);
    let ex = exclusion_args(req.config);
    assert(header_args(req.file_type, req.has_header) =~= Seq::<Seq<char>>::empty());
    assert(args.subrange(9, args.len() as int) =~= ex);
    reveal_strlit("--exclude-entities");
    reveal_strlit("--has-header-opt");
    if ex.len() > 0 {
        let codes = req.config.spec_excluded_codes();
        lemma_codes_shape(req.config);
        lemma_joined_ends(codes, ',');
        assert(ex[0][2] != HEADER_FLAG@[2]);
        assert(ex[1][0] != HEADER_FLAG@[0]);
    }
    if paths_avoid(layout, ws, HEADER_FLAG@) {
        lemma_fixed_args_avoid(layout, ws, HEADER_FLAG@);
        assert forall|j: int| 0 <= j < args.len() implies args[j] != HEADER_FLAG@ by {
            if j < 9 {
                assert(args[j] == fixed_args(layout, ws)[j]);
            } else {
                assert(args[j] == args.subrange(9, args.len() as int)[j - 9]);
            }
        }
    }
}

/// For a tabular file type with a header hint, the arguments end with the
/// header flag and then exactly "true" or "false", matching the hint. Where
/// no caller-supplied path is the flag's text, the flag stands nowhere else.
pub proof fn lemma_header_value(layout: &EngineLayout, ws: &Workspace, req: &AnonymizationRequest)
    requires
        req.file_type matches Some(t) && is_tabular(t@),
        req.has_header is Some,
    ensures
        ({
            let args = engine_args(layout, ws, req);
            let h = req.has_header->0;
            &&& args.len() >= 11
            &&& args[args.len() - 2] == HEADER_FLAG@
            &&& h ==> args.last() == "true"@
            &&& !h ==> args.last() == "false"@
            &&& "true"@ != "false"@
            &&& paths_avoid(layout, ws, HEADER_FLAG@) ==> forall|j: int|
                0 <= j < args.len() && j != args.len() - 2 ==> args[j] != HEADER_FLAG@
        }),
{
    reveal_strlit("true");
    reveal_strlit("false");
    reveal_strlit("--exclude-entities");
    reveal_strlit("--has-header-opt");
    assert("true"@.len() != "false"@.len());
    let args = engine_args(layout, ws, req);
    let ex = exclusion_args(req.config);
    let hd = header_args(req.file_type, req.has_header);
    if ex.len() > 0 {
        let codes = req.config.spec_excluded_codes();
        lemma_codes_shape(req.config);
        lemma_joined_ends(codes, ',');
        assert(ex[0][2] != HEADER_FLAG@[2]);
        assert(ex[1][0] != HEADER_FLAG@[0]);
    }
    if paths_avoid(layout, ws, HEADER_FLAG@) {
        lemma_fixed_args_avoid(layout, ws, HEADER_FLAG@);
        assert forall|j: int| 0 <= j < args.len() && j != args.len() - 2 implies args[j]
            != HEADER_FLAG@ by {
            if j < 9 {
                assert(args[j] == fixed_args(layout, ws)[j]);
            } else if j < 9 + ex.len() {
                assert(args[j] == ex[j - 9]);
            } else {
                assert(args[j] == hd[j - 9 - ex.len()]);
                assert(hd[1].len() != HEADER_FLAG@.len());
            }
        }
    }
}

} // verus!
