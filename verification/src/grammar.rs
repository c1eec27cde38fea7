//! Tree-sitter grammars: where a language's parser library is looked for,
//! and the hint shown when a grammar is unavailable.
use vstd::prelude::*;
use crate::paths::{is_file, join_path, joined_path};
use crate::plugin::loader::{first_existing, first_existing_path, name_views};
use crate::text::{append, owned};

verus! {

/// The hint shown when the grammar of `language` cannot be loaded for
/// `reason`; `root` is the directory grammars are installed under.
pub open spec fn setup_hint_spec(language: Seq<char>, reason: Seq<char>, root: Seq<char>) -> Seq<char> {
    "tree-sitter grammar for '"@ + language + "' unavailable ("@ + reason + ").\n  Install under "@
        + root + "/"@ + language + "/:\n    libtree-sitter-"@ + language
        + ".so (or parser.so)\n    queries/highlights.scm\n  Or set DAP_TREE_SITTER_DIR to another root. Basic syntax highlighting will be used."@
}

/// Hint for installing an external tree-sitter grammar.
pub fn language_setup_hint(language: &str, reason: &str, root: &str) -> (r: String)
    ensures
        r@ == setup_hint_spec(language@, reason@, root@),
{
    let mut s = owned("tree-sitter grammar for '");
    append(&mut s, language);
    append(&mut s, "' unavailable (");
    append(&mut s, reason);
    append(&mut s, ").\n  Install under ");
    append(&mut s, root);
    append(&mut s, "/");
    append(&mut s, language);
    append(&mut s, "/:\n    libtree-sitter-");
    append(&mut s, language);
    append(
        &mut s,
        ".so (or parser.so)\n    queries/highlights.scm\n  Or set DAP_TREE_SITTER_DIR to another root. Basic syntax highlighting will be used.",
    );
    s
}

/// The directory the grammar of `language` is installed in.
pub fn language_dir(language: &str, root: &str) -> (r: String)
    ensures
        r@ == joined_path(root@, language@),
{
    join_path(root, language)
}

/// The file names a parser library of `language` may have, in the order
/// they are tried.
pub open spec fn parser_library_names(language: Seq<char>) -> Seq<Seq<char>> {
    seq![
        "libtree-sitter-"@ + language + ".so"@,
        "tree-sitter-"@ + language + ".so"@,
        "parser.so"@,
        "libtree-sitter-"@ + language + ".dylib"@,
        "tree-sitter-"@ + language + ".dylib"@,
        "parser.dylib"@,
    ]
}

fn affixed(prefix: &str, language: &str, suffix: &str) -> (r: String)
    ensures
        r@ == prefix@ + language@ + suffix@,
{
    let mut s = owned(prefix);
    append(&mut s, language);
    append(&mut s, suffix);
    s
}

/// The error when no parser library is found.
pub open spec fn no_parser_message(dir: Seq<char>, language: Seq<char>) -> Seq<char> {
    "no tree-sitter parser library found in "@ + dir + " for language "@ + language
}

/// The answer of a parser-library lookup in `dir`, given whether each
/// candidate of `parser_library_names(language)` was found (in order):
/// the first found, else the error naming `dir` and `language`.
pub open spec fn parser_library_result(dir: Seq<char>, language: Seq<char>, found: Seq<bool>) -> Result<
    Seq<char>,
    Seq<char>,
> {
    match first_existing(dir, parser_library_names(language), found) {
        Some(p) => Ok(p),
        None => Err(no_parser_message(dir, language)),
    }
}

/// The candidate file names of `language`, in the order they are tried.
fn parser_library_candidates(language: &str) -> (r: Vec<String>)
    ensures
        r@.map_values(|s: String| s@) == parser_library_names(language@),
{
    let mut names: Vec<String> = Vec::new();
    names.push(affixed("libtree-sitter-", language, ".so"));
    names.push(affixed("tree-sitter-", language, ".so"));
    names.push(owned("parser.so"));
    names.push(affixed("libtree-sitter-", language, ".dylib"));
    names.push(affixed("tree-sitter-", language, ".dylib"));
    names.push(owned("parser.dylib"));
    assert(names@.map_values(|s: String| s@) =~= parser_library_names(language@));
    names
}

/// The parser library of `language` in `dir`, given whether each candidate
/// of `parser_library_names(language)` exists: the first that does, else
/// the error naming `dir` and `language`.
pub fn first_parser_library(dir: &str, language: &str, found: &Vec<bool>) -> (r: Result<String, String>)
    ensures
        match r {
            Ok(p) => parser_library_result(dir@, language@, found@) == Ok::<Seq<char>, Seq<char>>(p@),
            Err(e) => parser_library_result(dir@, language@, found@) == Err::<Seq<char>, Seq<char>>(e@),
        },
{
    let names = parser_library_candidates(language);
    let mut refs: Vec<&str> = Vec::new();
    let mut i: usize = 0;
    while i < names.len()
        invariant
            i <= names.len(),
            refs@.len() == i,
            forall|j: int| 0 <= j < i ==> (#[trigger] refs@[j])@ == names@[j]@,
        decreases names.len() - i,
    {
        refs.push(names[i].as_str());
        i = i + 1;
    }
    assert(name_views(refs@) =~= names@.map_values(|s: String| s@));
    match first_existing_path(dir, &refs, found) {
        Some(p) => Ok(p),
        None => {
            let mut e = owned("no tree-sitter parser library found in ");
            append(&mut e, dir);
            append(&mut e, " for language ");
            append(&mut e, language);
            Err(e)
        },
    }
}

/// The parser library of `language` in `dir`: the first existing file among
/// `parser_library_names(language)`. Each candidate is looked up on disk in
/// turn until one is found; the answers are up to the disk, so the result
/// is stated for some answers, in that order.
pub fn find_parser_library(dir: &str, language: &str) -> (r: Result<String, String>)
    ensures
        exists|found: Seq<bool>|
            found.len() <= 6 && #[trigger] parser_library_result(dir@, language@, found) == match r {
                Ok(p) => Ok::<Seq<char>, Seq<char>>(p@),
                Err(e) => Err::<Seq<char>, Seq<char>>(e@),
            },
{
    let names = parser_library_candidates(language);
    let mut found: Vec<bool> = Vec::new();
    let mut done = false;
    let mut i: usize = 0;
    while i < names.len() && !done
        invariant
            names@.len() == 6,
            i <= 6,
            found@.len() == i,
        decreases names.len() - i,
    {
        let candidate = join_path(dir, names[i].as_str());
        let here = is_file(candidate.as_str());
        found.push(here);
        done = here;
        i = i + 1;
    }
    let r = first_parser_library(dir, language, &found);
    assert(parser_library_result(dir@, language@, found@) == match r {
        Ok(p) => Ok::<Seq<char>, Seq<char>>(p@),
        Err(e) => Err::<Seq<char>, Seq<char>>(e@),
    });
    r
}

} // verus!
