//! Heuristics that route a launch to the Rust (lldb-dap) or Python
//! (debugpy) adapter.
use vstd::prelude::*;
use crate::paths::{
    canonicalize, file_name_of, is_absolute_path, join_path, joined_path, parent_path,
    path_file_name, path_is_absolute, path_parent,
};
use crate::text::{
    chars_of, contains, eq_lit, find_in, lemma_find_from_facts, occurs_at, opt_view, owned,
    range_starts_with, starts_with, trim,
    trim_chars,
};

verus! {

/// `s.replace('\\', "/")`.
pub open spec fn forward_slashes(s: Seq<char>) -> Seq<char> {
    s.map_values(|c: char| if c == '\\' { '/' } else { c })
}

/// Whether `path` looks like a Cargo build output binary.
pub open spec fn cargo_binary_spec(path: Seq<char>) -> bool {
    let n = forward_slashes(path);
    ||| contains(n, "/target/debug/"@)
    ||| contains(n, "/target/release/"@)
    ||| starts_with(n, "target/debug/"@)
    ||| starts_with(n, "target/release/"@)
}

pub open spec fn opt_str_is(s: Option<&str>, lit: Seq<char>) -> bool {
    match s {
        Some(x) => x@ == lit,
        None => false,
    }
}

fn slashes_forward(v: &Vec<char>) -> (r: Vec<char>)
    ensures
        r@ == forward_slashes(v@),
{
    let mut r: Vec<char> = Vec::new();
    let mut i: usize = 0;
    while i < v.len()
        invariant
            i <= v.len(),
            r@ == forward_slashes(v@.take(i as int)),
        decreases v.len() - i,
    {
        let c = if v[i] == '\\' {
            '/'
        } else {
            v[i]
        };
        r.push(c);
        assert(forward_slashes(v@.take((i + 1) as int)) =~= forward_slashes(v@.take(i as int)).push(
            c,
        ));
        i = i + 1;
    }
    assert(v@.take(v.len() as int) =~= v@);
    r
}

fn vec_contains(v: &Vec<char>, lit: &str) -> (b: bool)
    ensures
        b == contains(v@, lit@),
{
    let p = chars_of(lit);
    assert(v@.subrange(0, v.len() as int) =~= v@);
    find_in(v, 0, v.len(), &p).is_some()
}

fn vec_starts_with(v: &Vec<char>, lit: &str) -> (b: bool)
    ensures
        b == starts_with(v@, lit@),
{
    let p = chars_of(lit);
    assert(v@.subrange(0, v.len() as int) =~= v@);
    range_starts_with(v, 0, v.len(), &p)
}

fn opt_is(s: Option<&str>, lit: &str) -> (b: bool)
    ensures
        b == opt_str_is(s, lit@),
{
    match s {
        Some(x) => {
            let v = chars_of(x);
            eq_lit(&v, lit)
        },
        None => false,
    }
}

/// Returns true when `path` looks like a Cargo build output binary:
/// back-slashes count as slashes, and the path lies under a `target/debug/`
/// or `target/release/` directory.
pub fn looks_like_cargo_binary(path: &str) -> (b: bool)
    ensures
        b == cargo_binary_spec(path@),
{
    let v = chars_of(path);
    let n = slashes_forward(&v);
    vec_contains(&n, "/target/debug/") || vec_contains(&n, "/target/release/") || vec_starts_with(
        &n,
        "target/debug/",
    ) || vec_starts_with(&n, "target/release/")
}

/// Returns true when the adapter id refers to the Rust/lldb-dap backend.
pub fn is_rust_adapter(adapter_id: Option<&str>) -> (b: bool)
    ensures
        b == (opt_str_is(adapter_id, "rust"@) || opt_str_is(adapter_id, "lldb-dap"@)),
{
    opt_is(adapter_id, "rust") || opt_is(adapter_id, "lldb-dap")
}

/// Whether a launch should include lldb-dap Rust source-language hints.
pub fn wants_rust_launch_hints(adapter_id: Option<&str>, program: &str) -> (b: bool)
    ensures
        b == (opt_str_is(adapter_id, "rust"@) || opt_str_is(adapter_id, "lldb-dap"@)
            || cargo_binary_spec(program@)),
{
    is_rust_adapter(adapter_id) || looks_like_cargo_binary(program)
}

/// Returns true when the adapter id refers to the Python/debugpy backend.
pub fn is_python_adapter(adapter_id: Option<&str>) -> (b: bool)
    ensures
        b == opt_str_is(adapter_id, "python"@),
{
    opt_is(adapter_id, "python")
}

/// Whether a headless launch should include debugpy-specific arguments.
pub fn wants_python_launch_hints(adapter_id: Option<&str>) -> (b: bool)
    ensures
        b == opt_str_is(adapter_id, "python"@),
{
    is_python_adapter(adapter_id)
}

/// The program path and working directory of a debugpy launch, given the
/// canonical form of the program (if it could be had) and of its parent
/// directory (if the program has a non-empty parent and it could be had).
pub open spec fn python_paths_spec(
    program: Seq<char>,
    canonical_program: Option<Seq<char>>,
    canonical_parent: Option<Seq<char>>,
) -> (Seq<char>, Option<Seq<char>>) {
    match canonical_program {
        Some(abs) => (abs, parent_path(abs)),
        None => {
            let cwd = match parent_path(program) {
                Some(p) => if p.len() > 0 {
                    canonical_parent
                } else {
                    None
                },
                None => None,
            };
            let path = match (cwd, file_name_of(program)) {
                (Some(c), Some(f)) => if !is_absolute_path(program) {
                    joined_path(c, f)
                } else {
                    program
                },
                _ => program,
            };
            (path, cwd)
        },
    }
}

/// The program path and working directory of a debugpy launch, from the
/// canonicalisation results: the canonical program and its directory when
/// the program could be canonicalised; otherwise the program's file name
/// inside its canonical parent directory (a relative program whose parent
/// exists), or the program as given.
pub fn python_paths_from(
    program: &str,
    canonical_program: Option<String>,
    canonical_parent: Option<String>,
) -> (r: (String, Option<String>))
    ensures
        (r.0@, opt_view(r.1)) == python_paths_spec(
            program@,
            opt_view(canonical_program),
            opt_view(canonical_parent),
        ),
{
    match canonical_program {
        Some(abs) => {
            let parent = path_parent(abs.as_str());
            (abs, parent)
        },
        None => {
            let cwd = match path_parent(program) {
                Some(p) => if !p.as_str().is_empty() {
                    canonical_parent
                } else {
                    None
                },
                None => None,
            };
            let path = match (&cwd, path_file_name(program)) {
                (Some(c), Some(f)) => if !path_is_absolute(program) {
                    join_path(c.as_str(), f.as_str())
                } else {
                    owned(program)
                },
                _ => owned(program),
            };
            (path, cwd)
        },
    }
}

/// The program path and working directory of a debugpy launch for
/// `program`. What the disk says about the program and its directory is
/// not known here; the answer is the one `python_paths_from` gives for some
/// such answers.
pub fn resolve_python_program_paths(program: &str) -> (r: (String, Option<String>))
    ensures
        exists|cp: Option<Seq<char>>, cd: Option<Seq<char>>|
            (r.0@, opt_view(r.1)) == #[trigger] python_paths_spec(program@, cp, cd),
{
    let canonical_program = canonicalize(program);
    let canonical_parent = match &canonical_program {
        Some(_) => None,
        None => match path_parent(program) {
            Some(p) => if !p.as_str().is_empty() {
                canonicalize(p.as_str())
            } else {
                None
            },
            None => None,
        },
    };
    let ghost cp = opt_view(canonical_program);
    let ghost cd = opt_view(canonical_parent);
    let r = python_paths_from(program, canonical_program, canonical_parent);
    assert((r.0@, opt_view(r.1)) == python_paths_spec(program@, cp, cd));
    r
}

/// The canonical program path used in debugpy launch requests.
pub fn python_program_path(program: &str) -> (r: String)
    ensures
        exists|cp: Option<Seq<char>>, cd: Option<Seq<char>>|
            r@ == (#[trigger] python_paths_spec(program@, cp, cd)).0,
{
    let r = resolve_python_program_paths(program);
    r.0
}

/// Whether debugpy restricts debugging to the user's code, given the
/// `DAP_PYTHON_JUST_MY_CODE` setting.
pub open spec fn just_my_code_spec(setting: Option<Seq<char>>) -> bool {
    match setting {
        Some(v) => {
            let t = trim(v);
            !(t == "0"@ || t == "false"@ || t == "False"@ || t == "no"@ || t == "NO"@)
        },
        None => true,
    }
}

/// Whether debugpy restricts debugging to the user's code, given the
/// `DAP_PYTHON_JUST_MY_CODE` setting: `0`, `false`, `False`, `no`, `NO`
/// turn it off (surrounding white space ignored); anything else, or no
/// setting, leaves it on.
pub fn python_just_my_code(setting: Option<&str>) -> (r: bool)
    ensures
        r == just_my_code_spec(match setting {
            Some(v) => Some(v@),
            None => None,
        }),
{
    match setting {
        Some(v) => {
            let t = trim_chars(&chars_of(v));
            !(eq_lit(&t, "0") || eq_lit(&t, "false") || eq_lit(&t, "False") || eq_lit(&t, "no")
                || eq_lit(&t, "NO"))
        },
        None => true,
    }
}

/// debugpy-compatible `launch` arguments.
#[derive(Debug, Clone, PartialEq, Eq)]
pub struct PythonLaunchArguments {
    /// `type`: always `debugpy`.
    pub launch_type: String,
    /// `request`: always `launch`.
    pub request: String,
    pub program: String,
    /// `console`: always `internalConsole`.
    pub console: String,
    pub just_my_code: bool,
    /// `stopOnEntry`: always false (entry is stopped at by a breakpoint).
    pub stop_on_entry: bool,
    /// The interpreter named by `PYTHON`, when that is set.
    pub python: Option<String>,
    pub cwd: Option<String>,
}

/// The fixed fields of debugpy `launch` arguments.
pub open spec fn python_launch_fixed(a: PythonLaunchArguments) -> bool {
    &&& a.launch_type@ == "debugpy"@
    &&& a.request@ == "launch"@
    &&& a.console@ == "internalConsole"@
    &&& !a.stop_on_entry
}

/// Builds debugpy `launch` arguments for `program`, given the `PYTHON` and
/// `DAP_PYTHON_JUST_MY_CODE` settings: the program path and working
/// directory of `resolve_python_program_paths`, `justMyCode` from the
/// setting, and the interpreter when one is named.
pub fn python_launch_arguments(
    program: &str,
    python: Option<&str>,
    just_my_code_setting: Option<&str>,
) -> (r: PythonLaunchArguments)
    ensures
        python_launch_fixed(r),
        exists|cp: Option<Seq<char>>, cd: Option<Seq<char>>|
            (r.program@, opt_view(r.cwd)) == #[trigger] python_paths_spec(program@, cp, cd),
        r.just_my_code == just_my_code_spec(
            match just_my_code_setting {
                Some(v) => Some(v@),
                None => None,
            },
        ),
        opt_view(r.python) == match python {
            Some(p) => Some(p@),
            None => None,
        },
{
    let (program_path, cwd) = resolve_python_program_paths(program);
    let python_owned: Option<String> = match python {
        Some(p) => Some(owned(p)),
        None => None,
    };
    PythonLaunchArguments {
        launch_type: owned("debugpy"),
        request: owned("launch"),
        program: program_path,
        console: owned("internalConsole"),
        just_my_code: python_just_my_code(just_my_code_setting),
        stop_on_entry: false,
        python: python_owned,
        cwd,
    }
}

/// Where `p` occurs, `s` contains it.
proof fn lemma_occurs_contains(s: Seq<char>, p: Seq<char>, i: int)
    requires
        occurs_at(s, p, i),
    ensures
        contains(s, p),
{
    lemma_find_from_facts(s, p, 0);
}

proof fn lemma_forward_slashes_concat(x: Seq<char>, y: Seq<char>)
    ensures
        forward_slashes(x + y) == forward_slashes(x) + forward_slashes(y),
{
    assert(forward_slashes(x + y) =~= forward_slashes(x) + forward_slashes(y));
}

/// A path with a `target/debug` or `target/release` directory anywhere in
/// it, written with `/` or `\\`, is a Cargo build output, whatever comes
/// before and after.
pub proof fn lemma_cargo_output_dirs(a: Seq<char>, b: Seq<char>)
    ensures
        cargo_binary_spec(a + "/target/debug/"@ + b),
        cargo_binary_spec(a + "/target/release/"@ + b),
        cargo_binary_spec(a + "\\target\\debug\\"@ + b),
        cargo_binary_spec(a + "\\target\\release\\"@ + b),
        cargo_binary_spec("target/debug/"@ + b),
        cargo_binary_spec("target/release/"@ + b),
{
    reveal_strlit("/target/debug/");
    reveal_strlit("/target/release/");
    reveal_strlit("\\target\\debug\\");
    reveal_strlit("\\target\\release\\");
    reveal_strlit("target/debug/");
    reveal_strlit("target/release/");
    let fa = forward_slashes(a);
    let fb = forward_slashes(b);
    assert(forward_slashes("/target/debug/"@) =~= "/target/debug/"@);
    assert(forward_slashes("/target/release/"@) =~= "/target/release/"@);
    assert(forward_slashes("\\target\\debug\\"@) =~= "/target/debug/"@);
    assert(forward_slashes("\\target\\release\\"@) =~= "/target/release/"@);
    assert(forward_slashes("target/debug/"@) =~= "target/debug/"@);
    assert(forward_slashes("target/release/"@) =~= "target/release/"@);
    let d = "/target/debug/"@;
    let r = "/target/release/"@;
    lemma_forward_slashes_concat(a + d, b);
    lemma_forward_slashes_concat(a, d);
    lemma_forward_slashes_concat(a + r, b);
    lemma_forward_slashes_concat(a, r);
    lemma_forward_slashes_concat(a + "\\target\\debug\\"@, b);
    lemma_forward_slashes_concat(a, "\\target\\debug\\"@);
    lemma_forward_slashes_concat(a + "\\target\\release\\"@, b);
    lemma_forward_slashes_concat(a, "\\target\\release\\"@);
    lemma_forward_slashes_concat("target/debug/"@, b);
    lemma_forward_slashes_concat("target/release/"@, b);
    assert((fa + d + fb).subrange(fa.len() as int, fa.len() + d.len() as int) =~= d);
    lemma_occurs_contains(fa + d + fb, d, fa.len() as int);
    assert((fa + r + fb).subrange(fa.len() as int, fa.len() + r.len() as int) =~= r);
    lemma_occurs_contains(fa + r + fb, r, fa.len() as int);
    assert(("target/debug/"@ + fb).take(13) =~= "target/debug/"@);
    assert(("target/release/"@ + fb).take(15) =~= "target/release/"@);
}

} // verus!
