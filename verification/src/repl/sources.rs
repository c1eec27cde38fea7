//! Where the interactive debugger looks for source files of a program.
use vstd::prelude::*;
use crate::paths::{canonicalize, is_file, parent_path, path_parent};

verus! {

/// The program's own directory, when its path names one.
pub open spec fn given_dir(program: Seq<char>) -> Seq<Seq<char>> {
    match parent_path(program) {
        Some(p) => if p.len() > 0 {
            seq![p]
        } else {
            Seq::empty()
        },
        None => Seq::empty(),
    }
}

/// Directories searched for the sources of `program`: the directory in its
/// path (if any), then, when the program is an existing file, the
/// directory of its canonical path. Whether it exists and what its
/// canonical path is depends on the disk; the second entry is the parent
/// of some path.
pub fn source_search_dirs_for_program(program: &str) -> (r: Vec<String>)
    ensures
        r@.map_values(|s: String| s@) == given_dir(program@) || exists|c: Seq<char>, p: Seq<char>|
            parent_path(c) == Some(p) && r@.map_values(|s: String| s@) == given_dir(program@)
                + seq![p],
{
    let mut dirs: Vec<String> = Vec::new();
    match path_parent(program) {
        Some(p) => {
            if !p.as_str().is_empty() {
                dirs.push(p);
            }
        },
        None => {},
    }
    assert(dirs@.map_values(|s: String| s@) =~= given_dir(program@));
    let ghost first = dirs@.map_values(|s: String| s@);
    if is_file(program) {
        match canonicalize(program) {
            Some(abs) => match path_parent(abs.as_str()) {
                Some(parent) => {
                    let ghost pv = parent@;
                    dirs.push(parent);
                    assert(dirs@.map_values(|s: String| s@) =~= first + seq![pv]);
                    assert(parent_path(abs@) == Some(pv));
                },
                None => {},
            },
            None => {},
        }
    }
    dirs
}

} // verus!
