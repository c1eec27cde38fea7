//! The source breakpoints sent to the adapter for one file: the debugger's
//! own and the editor's, including those stored under other names of the
//! same file, without the modifiers the client emulates.
use vstd::prelude::*;
use crate::repl::breakpoint::{clone_opt, BreakpointEntry};
use crate::repl::context::ReplContext;
use crate::repl::lists::texts;
use crate::repl::table::BreakpointTable;
use crate::text::str_eq;

verus! {

/// Breakpoint entries by file and line.
pub type Lines = Map<(Seq<char>, i64), BreakpointEntry>;

/// A breakpoint as `setBreakpoints` carries it.
#[derive(Debug, Clone, PartialEq, Eq)]
pub struct SourceBreakpointSpec {
    pub line: i64,
    pub condition: Option<String>,
    pub hit_condition: Option<String>,
    pub log_message: Option<String>,
}

/// The breakpoint sent for `line` with entry `e`: each modifier the client
/// emulates is left out.
pub open spec fn sent_spec(line: i64, e: BreakpointEntry) -> SourceBreakpointSpec {
    SourceBreakpointSpec {
        line,
        condition: if e.emulated_condition {
            None
        } else {
            e.condition
        },
        hit_condition: if e.emulated_hit {
            None
        } else {
            e.hit_condition
        },
        log_message: if e.emulated_log {
            None
        } else {
            e.log_message
        },
    }
}

/// `m` with the lines of file `q` in `t` laid over it under file `path`:
/// replacing what `m` has at a line, or only filling lines it lacks.
pub open spec fn layer(m: Lines, t: Lines, q: Seq<char>, path: Seq<char>, replace: bool) -> Lines {
    Map::new(
        |k: (Seq<char>, i64)| m.contains_key(k) || (k.0 == path && t.contains_key((q, k.1))),
        |k: (Seq<char>, i64)|
            if k.0 == path && t.contains_key((q, k.1)) && (replace || !m.contains_key(k)) {
                t[(q, k.1)]
            } else {
                m[k]
            },
    )
}

/// `m` with the files `qs` of `t` laid over it in turn (`path` itself
/// skipped).
pub open spec fn layers(m: Lines, t: Lines, qs: Seq<Seq<char>>, path: Seq<char>, replace: bool) -> Lines
    decreases qs.len(),
{
    if qs.len() == 0 {
        m
    } else {
        let prev = layers(m, t, qs.drop_last(), path, replace);
        if qs.last() == path {
            prev
        } else {
            layer(prev, t, qs.last(), path, replace)
        }
    }
}

/// The lines sent for `path`: the debugger's own breakpoints of `path`,
/// then the editor's laid over them, then the debugger's own stored under
/// the other names `own_matches` of the file laid over those, and last the
/// editor's under `editor_matches` where no line is taken yet.
pub open spec fn sent_lines(
    own: Lines,
    editor: Lines,
    path: Seq<char>,
    own_matches: Seq<Seq<char>>,
    editor_matches: Seq<Seq<char>>,
) -> Lines {
    let base = layer(layer(Map::empty(), own, path, path, true), editor, path, path, true);
    layers(layers(base, own, own_matches, path, true), editor, editor_matches, path, false)
}

/// `m` with the first `i` of `rows` (lines of file `q` in `t`) laid over
/// it under file `path`.
pub open spec fn layer_upto(
    m: Lines,
    rows: Seq<(i64, BreakpointEntry)>,
    i: int,
    path: Seq<char>,
    replace: bool,
) -> Lines {
    Map::new(
        |k: (Seq<char>, i64)|
            m.contains_key(k) || (k.0 == path && exists|a: int| 0 <= a < i && #[trigger] rows[a].0 == k.1),
        |k: (Seq<char>, i64)|
            if k.0 == path && (exists|a: int| 0 <= a < i && #[trigger] rows[a].0 == k.1) && (replace
                || !m.contains_key(k)) {
                rows[choose|a: int| 0 <= a < i && #[trigger] rows[a].0 == k.1].1
            } else {
                m[k]
            },
    )
}

/// Lays the lines of file `q` in `t` over `acc` under file `path`.
fn lay(acc: &mut BreakpointTable, t: &BreakpointTable, q: &str, path: &str, replace: bool)
    ensures
        final(acc)@ == layer(old(acc)@, t@, q@, path@, replace),
{
    let rows = t.lines_for(q);
    let ghost m0 = acc@;
    let mut i: usize = 0;
    assert(acc@ =~= layer_upto(m0, rows@, 0, path@, replace));
    while i < rows.len()
        invariant
            i <= rows.len(),
            acc@ == layer_upto(m0, rows@, i as int, path@, replace),
            forall|a: int, b: int| 0 <= a < b < rows@.len() ==> rows@[a].0 < rows@[b].0,
        decreases rows.len() - i,
    {
        let l = rows[i].0;
        let ghost before = acc@;
        let put = replace || acc.get(path, l).is_none();
        if put {
            let e = rows[i].1.clone();
            acc.set(crate::text::owned(path), l, e);
        }
        proof {
            let n = layer_upto(m0, rows@, i + 1, path@, replace);
            assert forall|k: (Seq<char>, i64)| #[trigger] n.contains_key(k) == acc@.contains_key(k) by {
                if k.0 == path@ && k.1 == l {
                    assert(rows@[i as int].0 == k.1);
                }
                if k.0 == path@ && (exists|a: int| 0 <= a < i + 1 && #[trigger] rows@[a].0 == k.1) {
                    let a = choose|a: int| 0 <= a < i + 1 && #[trigger] rows@[a].0 == k.1;
                    if a < i {
                        assert(before.contains_key(k));
                    }
                }
            }
            assert forall|k: (Seq<char>, i64)| #[trigger] n.contains_key(k) implies n[k] == acc@[k] by {
                if k.0 == path@ && k.1 == l {
                    assert(rows@[i as int].0 == k.1);
                    assert forall|a: int| 0 <= a < i + 1 && #[trigger] rows@[a].0 == k.1 implies a == i by {
                        if a < i {
                            assert(rows@[a].0 < rows@[i as int].0);
                        }
                    }
                    assert(!(exists|a: int| 0 <= a < i && #[trigger] rows@[a].0 == k.1));
                } else if k.0 == path@ && (exists|a: int| 0 <= a < i + 1 && #[trigger] rows@[a].0 == k.1) {
                    let a = choose|a: int| 0 <= a < i + 1 && #[trigger] rows@[a].0 == k.1;
                    assert(a < i);
                    assert(exists|b: int| 0 <= b < i && #[trigger] rows@[b].0 == k.1);
                    assert forall|b: int| 0 <= b < i + 1 && #[trigger] rows@[b].0 == k.1 implies b < i by {}
                }
            }
            assert(acc@ =~= n);
        }
        i = i + 1;
    }
    proof {
        let target = layer(m0, t@, q@, path@, replace);
        assert forall|k: (Seq<char>, i64)| #[trigger] target.contains_key(k) == acc@.contains_key(k) by {
            if k.0 == path@ && t@.contains_key((q@, k.1)) {
                let a = choose|a: int| 0 <= a < rows@.len() && rows@[a].0 == k.1;
                assert(rows@[a].0 == k.1);
            }
            if k.0 == path@ && (exists|a: int| 0 <= a < rows@.len() && #[trigger] rows@[a].0 == k.1) {
                let a = choose|a: int| 0 <= a < rows@.len() && #[trigger] rows@[a].0 == k.1;
                assert(t@.contains_key((q@, rows@[a].0)));
            }
        }
        assert forall|k: (Seq<char>, i64)| #[trigger] target.contains_key(k) implies target[k] == acc@[k] by {
            if k.0 == path@ && (exists|a: int| 0 <= a < rows@.len() && #[trigger] rows@[a].0 == k.1) {
                let a = choose|a: int| 0 <= a < rows@.len() && #[trigger] rows@[a].0 == k.1;
                assert(t@.contains_key((q@, rows@[a].0)));
                assert(t@[(q@, rows@[a].0)] == rows@[a].1);
            } else if k.0 == path@ && t@.contains_key((q@, k.1)) {
                let a = choose|a: int| 0 <= a < rows@.len() && rows@[a].0 == k.1;
                assert(rows@[a].0 == k.1);
            }
        }
        assert(acc@ =~= target);
    }
}

impl ReplContext {
    /// The breakpoints to send for file `path`, in increasing order of
    /// line. `own_matches` and `editor_matches` are the other names under
    /// which the debugger's own and the editor's breakpoints are stored
    /// that denote the same file, in the order they are laid over (see
    /// `sent_lines`).
    pub fn breakpoint_specs_for_path(
        &self,
        path: &str,
        own_matches: &Vec<String>,
        editor_matches: &Vec<String>,
    ) -> (r: Vec<SourceBreakpointSpec>)
        ensures
            ({
                let m = sent_lines(
                    self.breakpoints@,
                    self.editor_breakpoints@,
                    path@,
                    texts(own_matches@),
                    texts(editor_matches@),
                );
                &&& forall|a: int, b: int| 0 <= a < b < r@.len() ==> r@[a].line < r@[b].line
                &&& forall|a: int|
                    0 <= a < r@.len() ==> m.contains_key((path@, #[trigger] r@[a].line)) && r@[a]
                        == sent_spec(r@[a].line, m[(path@, r@[a].line)])
                &&& forall|l: i64|
                    #[trigger] m.contains_key((path@, l)) ==> exists|a: int|
                        0 <= a < r@.len() && r@[a].line == l
            }),
    {
        let mut acc = BreakpointTable::new();
        lay(&mut acc, &self.breakpoints, path, path, true);
        lay(&mut acc, &self.editor_breakpoints, path, path, true);
        let ghost base = acc@;
        let mut j: usize = 0;
        while j < own_matches.len()
            invariant
                j <= own_matches.len(),
                acc@ == layers(base, self.breakpoints@, texts(own_matches@).take(j as int), path@, true),
            decreases own_matches.len() - j,
        {
            proof {
                assert(texts(own_matches@).take(j + 1).drop_last() =~= texts(own_matches@).take(j as int));
            }
            if !str_eq(own_matches[j].as_str(), path) {
                lay(&mut acc, &self.breakpoints, own_matches[j].as_str(), path, true);
            }
            j = j + 1;
        }
        assert(texts(own_matches@).take(own_matches.len() as int) =~= texts(own_matches@));
        let ghost mid = acc@;
        let mut j: usize = 0;
        while j < editor_matches.len()
            invariant
                j <= editor_matches.len(),
                acc@ == layers(mid, self.editor_breakpoints@, texts(editor_matches@).take(j as int), path@, false),
            decreases editor_matches.len() - j,
        {
            proof {
                assert(texts(editor_matches@).take(j + 1).drop_last() =~= texts(editor_matches@).take(j as int));
            }
            if !str_eq(editor_matches[j].as_str(), path) {
                lay(&mut acc, &self.editor_breakpoints, editor_matches[j].as_str(), path, false);
            }
            j = j + 1;
        }
        assert(texts(editor_matches@).take(editor_matches.len() as int) =~= texts(editor_matches@));
        let ghost m = sent_lines(
            self.breakpoints@,
            self.editor_breakpoints@,
            path@,
            texts(own_matches@),
            texts(editor_matches@),
        );
        assert(acc@ == m);
        let rows = acc.lines_for(path);
        let mut out: Vec<SourceBreakpointSpec> = Vec::new();
        let mut i: usize = 0;
        while i < rows.len()
            invariant
                i <= rows.len(),
                out@.len() == i,
                forall|a: int| 0 <= a < i ==> #[trigger] out@[a] == sent_spec(rows@[a].0, rows@[a].1),
            decreases rows.len() - i,
        {
            let e = &rows[i].1;
            out.push(SourceBreakpointSpec {
                line: rows[i].0,
                condition: if e.emulated_condition {
                    None
                } else {
                    clone_opt(&e.condition)
                },
                hit_condition: if e.emulated_hit {
                    None
                } else {
                    clone_opt(&e.hit_condition)
                },
                log_message: if e.emulated_log {
                    None
                } else {
                    clone_opt(&e.log_message)
                },
            });
            i = i + 1;
        }
        proof {
            assert forall|a: int| 0 <= a < out@.len() implies m.contains_key(
                (path@, #[trigger] out@[a].line),
            ) && out@[a] == sent_spec(out@[a].line, m[(path@, out@[a].line)]) by {
                assert(out@[a].line == rows@[a].0);
            }
            assert forall|a: int, b: int| 0 <= a < b < out@.len() implies out@[a].line < out@[b].line by {
                assert(out@[a].line == rows@[a].0);
                assert(out@[b].line == rows@[b].0);
            }
            assert forall|l: i64| #[trigger] m.contains_key((path@, l)) implies exists|a: int|
                0 <= a < out@.len() && out@[a].line == l by {
                let a = choose|a: int| 0 <= a < rows@.len() && rows@[a].0 == l;
                assert(out@[a].line == rows@[a].0);
            }
        }
        out
    }
}

} // verus!
