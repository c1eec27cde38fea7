//! The source breakpoints the interactive debugger tracks: one entry per
//! file and line, kept in order of line. The debugger holds two such tables,
//! its own and the editor's, and shows them merged with its own entries
//! winning.
use vstd::prelude::*;
use crate::repl::actions::BreakpointAction;
use crate::repl::breakpoint::{BreakpointEntry, ClientStopPolicy};

verus! {

/// A stored breakpoint: file, line and entry.
pub type Row = (String, i64, BreakpointEntry);

/// The file and line a row is stored under.
pub open spec fn key_of(r: Row) -> (Seq<char>, i64) {
    (r.0@, r.1)
}

/// The map formed by the rows, later rows winning.
pub open spec fn table_map(s: Seq<Row>) -> Map<(Seq<char>, i64), BreakpointEntry>
    decreases s.len(),
{
    if s.len() == 0 {
        Map::empty()
    } else {
        table_map(s.drop_last()).insert(key_of(s.last()), s.last().2)
    }
}

/// No file and line is stored twice.
pub open spec fn unique_rows(s: Seq<Row>) -> bool {
    forall|i: int, j: int| 0 <= i < j < s.len() ==> key_of(s[i]) != key_of(s[j])
}

/// Rows come in order of line.
pub open spec fn rows_by_line(s: Seq<Row>) -> bool {
    forall|i: int, j: int| 0 <= i < j < s.len() ==> s[i].1 <= s[j].1
}

/// The entries of `m` outside file `path`.
pub open spec fn without_file(
    m: Map<(Seq<char>, i64), BreakpointEntry>,
    path: Seq<char>,
) -> Map<(Seq<char>, i64), BreakpointEntry> {
    m.remove_keys(Set::new(|k: (Seq<char>, i64)| k.0 == path))
}

/// Whether `m` has a breakpoint in file `path`.
pub open spec fn has_file(m: Map<(Seq<char>, i64), BreakpointEntry>, path: Seq<char>) -> bool {
    exists|l: i64| m.contains_key((path, l))
}

proof fn lemma_table_facts(s: Seq<Row>)
    requires
        unique_rows(s),
    ensures
        forall|q: (Seq<char>, i64)|
            #![trigger table_map(s).contains_key(q)]
            table_map(s).contains_key(q) <==> exists|i: int| 0 <= i < s.len() && key_of(s[i]) == q,
        forall|i: int|
            0 <= i < s.len() ==> table_map(s).contains_key(#[trigger] key_of(s[i])) && table_map(
                s,
            )[key_of(s[i])] == s[i].2,
    decreases s.len(),
{
    if s.len() > 0 {
        let t = s.drop_last();
        let last = s.last();
        lemma_table_facts(t);
        assert forall|i: int| 0 <= i < s.len() implies table_map(s).contains_key(
            #[trigger] key_of(s[i]),
        ) && table_map(s)[key_of(s[i])] == s[i].2 by {
            if i < s.len() - 1 {
                assert(t[i] == s[i]);
                assert(key_of(s[i]) != key_of(last));
                assert(table_map(t).contains_key(key_of(t[i])));
            }
        }
        assert forall|q: (Seq<char>, i64)| table_map(s).contains_key(q) implies exists|i: int|
            0 <= i < s.len() && key_of(s[i]) == q by {
            if q != key_of(last) {
                assert(table_map(t).contains_key(q));
                let i = choose|i: int| 0 <= i < t.len() && key_of(t[i]) == q;
                assert(s[i] == t[i]);
            } else {
                assert(key_of(s[s.len() - 1]) == q);
            }
        }
    }
}

/// Two row sequences with unique keys and the same rows by key form the
/// same map.
proof fn lemma_same_rows(s: Seq<Row>, m: Map<(Seq<char>, i64), BreakpointEntry>)
    requires
        unique_rows(s),
        forall|i: int| 0 <= i < s.len() ==> m.contains_key(#[trigger] key_of(s[i])) && m[key_of(s[i])]
            == s[i].2,
        forall|q: (Seq<char>, i64)|
            #![trigger m.contains_key(q)]
            m.contains_key(q) ==> exists|i: int| 0 <= i < s.len() && key_of(s[i]) == q,
    ensures
        table_map(s) == m,
{
    lemma_table_facts(s);
    assert forall|q: (Seq<char>, i64)| table_map(s).contains_key(q) implies m.contains_key(q)
        && table_map(s)[q] == m[q] by {
        let i = choose|i: int| 0 <= i < s.len() && key_of(s[i]) == q;
        assert(table_map(s).contains_key(key_of(s[i])));
    }
    assert forall|q: (Seq<char>, i64)| m.contains_key(q) implies table_map(s).contains_key(q) by {
        let i = choose|i: int| 0 <= i < s.len() && key_of(s[i]) == q;
        assert(table_map(s).contains_key(key_of(s[i])));
    }
    assert(table_map(s) =~= m);
}

/// The table after a breakpoint action at `key`, and whether a breakpoint
/// is set there afterwards: `Add` stores `entry`, `Remove` drops what is
/// there, `Toggle` drops an existing breakpoint or else stores `entry`.
pub open spec fn applied(
    m: Map<(Seq<char>, i64), BreakpointEntry>,
    action: BreakpointAction,
    key: (Seq<char>, i64),
    entry: BreakpointEntry,
) -> (Map<(Seq<char>, i64), BreakpointEntry>, bool) {
    let enabled = match action {
        BreakpointAction::Add => true,
        BreakpointAction::Remove => false,
        BreakpointAction::Toggle => !m.contains_key(key),
    };
    (
        if enabled {
            m.insert(key, entry)
        } else {
            m.remove(key)
        },
        enabled,
    )
}

/// Toggling a breakpoint twice at a place without one leaves the table as
/// it was; at a place with one, the second toggle sets the new entry.
pub proof fn lemma_toggle_twice(
    m: Map<(Seq<char>, i64), BreakpointEntry>,
    key: (Seq<char>, i64),
    entry: BreakpointEntry,
)
    ensures
        !m.contains_key(key) ==> applied(
            applied(m, BreakpointAction::Toggle, key, entry).0,
            BreakpointAction::Toggle,
            key,
            entry,
        ).0 == m,
        m.contains_key(key) ==> applied(
            applied(m, BreakpointAction::Toggle, key, entry).0,
            BreakpointAction::Toggle,
            key,
            entry,
        ).0 == m.insert(key, entry),
{
    if !m.contains_key(key) {
        assert(m.insert(key, entry).remove(key) =~= m);
    } else {
        assert(m.remove(key).insert(key, entry) =~= m.insert(key, entry));
    }
}

/// Adding and then removing a breakpoint at a place without one leaves the
/// table as it was.
pub proof fn lemma_add_then_remove(
    m: Map<(Seq<char>, i64), BreakpointEntry>,
    key: (Seq<char>, i64),
    entry: BreakpointEntry,
    other: BreakpointEntry,
)
    requires
        !m.contains_key(key),
    ensures
        applied(applied(m, BreakpointAction::Add, key, entry).0, BreakpointAction::Remove, key, other).0
            == m,
{
    assert(m.insert(key, entry).remove(key) =~= m);
}

/// Breakpoints by file and line.
#[derive(Debug)]
pub struct BreakpointTable {
    rows: Vec<Row>,
}

impl View for BreakpointTable {
    type V = Map<(Seq<char>, i64), BreakpointEntry>;

    closed spec fn view(&self) -> Map<(Seq<char>, i64), BreakpointEntry> {
        table_map(self.rows@)
    }
}

impl BreakpointTable {
    #[verifier::type_invariant]
    spec fn well_formed(self) -> bool {
        unique_rows(self.rows@) && rows_by_line(self.rows@)
    }

    /// An empty table.
    pub fn new() -> (r: Self)
        ensures
            r@ == Map::<(Seq<char>, i64), BreakpointEntry>::empty(),
    {
        BreakpointTable { rows: Vec::new() }
    }

    fn find(&self, path: &str, line: i64) -> (r: Option<usize>)
        ensures
            match r {
                Some(i) => i < self.rows@.len() && key_of(self.rows@[i as int]) == (path@, line),
                None => forall|i: int| 0 <= i < self.rows@.len() ==> key_of(self.rows@[i]) != (path@, line),
            },
    {
        let mut i: usize = 0;
        while i < self.rows.len()
            invariant
                i <= self.rows.len(),
                forall|j: int| 0 <= j < i ==> key_of(self.rows@[j]) != (path@, line),
            decreases self.rows.len() - i,
        {
            if self.rows[i].1 == line && crate::text::str_eq(self.rows[i].0.as_str(), path) {
                return Some(i);
            }
            i = i + 1;
        }
        None
    }

    /// The entry stored for `path` and `line`.
    pub fn get(&self, path: &str, line: i64) -> (r: Option<&BreakpointEntry>)
        ensures
            match r {
                Some(e) => self@.contains_key((path@, line)) && self@[(path@, line)] == *e,
                None => !self@.contains_key((path@, line)),
            },
    {
        proof {
            use_type_invariant(self);
            lemma_table_facts(self.rows@);
        }
        match self.find(path, line) {
            Some(i) => Some(&self.rows[i].2),
            None => None,
        }
    }

    /// Stores `entry` for `path` and `line`, replacing what was there.
    pub fn set(&mut self, path: String, line: i64, entry: BreakpointEntry)
        ensures
            final(self)@ == old(self)@.insert((path@, line), entry),
    {
        proof {
            use_type_invariant(&*self);
            lemma_table_facts(self.rows@);
        }
        let ghost s = self.rows@;
        let ghost m = table_map(s).insert((path@, line), entry);
        let ghost row: Row = (path, line, entry);
        match self.find(path.as_str(), line) {
            Some(i) => {
                let mut rows: Vec<Row> = Vec::new();
                std::mem::swap(&mut rows, &mut self.rows);
                rows.set(i, (path, line, entry));
                proof {
                    let n = rows@;
                    assert(n == s.update(i as int, row));
                    assert(unique_rows(n)) by {
                        assert forall|a: int, b: int| 0 <= a < b < n.len() implies key_of(n[a])
                            != key_of(n[b]) by {
                            if a == i {
                                assert(key_of(n[a]) == key_of(s[a]));
                            }
                            if b == i {
                                assert(key_of(n[b]) == key_of(s[b]));
                            }
                        }
                    }
                    assert(rows_by_line(n)) by {
                        assert forall|a: int, b: int| 0 <= a < b < n.len() implies n[a].1 <= n[b].1 by {
                            assert(n[a].1 == s[a].1);
                            assert(n[b].1 == s[b].1);
                        }
                    }
                    assert forall|j: int| 0 <= j < n.len() implies m.contains_key(
                        #[trigger] key_of(n[j]),
                    ) && m[key_of(n[j])] == n[j].2 by {
                        if j != i {
                            assert(n[j] == s[j]);
                            assert(key_of(s[j]) != key_of(s[i as int]));
                        }
                    }
                    assert forall|q: (Seq<char>, i64)| #[trigger] m.contains_key(q) implies exists|j: int|
                        0 <= j < n.len() && key_of(n[j]) == q by {
                        if q == (path@, line) {
                            assert(key_of(n[i as int]) == q);
                        } else {
                            let j = choose|j: int| 0 <= j < s.len() && key_of(s[j]) == q;
                            if j == i {
                                assert(key_of(n[j]) == q);
                            } else {
                                assert(n[j] == s[j]);
                            }
                        }
                    }
                    lemma_same_rows(n, m);
                }
                self.rows = rows;
            },
            None => {
                let mut k: usize = 0;
                while k < self.rows.len() && self.rows[k].1 <= line
                    invariant
                        k <= self.rows.len(),
                        self.rows@ == s,
                        forall|j: int| 0 <= j < k ==> s[j].1 <= line,
                    decreases self.rows.len() - k,
                {
                    k = k + 1;
                }
                let mut rows: Vec<Row> = Vec::new();
                std::mem::swap(&mut rows, &mut self.rows);
                rows.insert(k, (path, line, entry));
                proof {
                    let n = rows@;
                    assert(n == s.insert(k as int, row));
                    assert(forall|j: int| k <= j < s.len() ==> s[j].1 > line) by {
                        assert forall|j: int| k <= j < s.len() implies s[j].1 > line by {
                            assert(s[k as int].1 > line);
                            assert(s[k as int].1 <= s[j].1);
                        }
                    }
                    assert(unique_rows(n)) by {
                        assert forall|a: int, b: int| 0 <= a < b < n.len() implies key_of(n[a])
                            != key_of(n[b]) by {
                            if a < k && b < k {
                                assert(n[a] == s[a] && n[b] == s[b]);
                            } else if a < k && b == k {
                                assert(n[a] == s[a]);
                            } else if a < k {
                                assert(n[a] == s[a] && n[b] == s[b - 1]);
                            } else if a == k {
                                assert(n[b] == s[b - 1]);
                            } else {
                                assert(n[a] == s[a - 1] && n[b] == s[b - 1]);
                            }
                        }
                    }
                    assert(rows_by_line(n)) by {
                        assert forall|a: int, b: int| 0 <= a < b < n.len() implies n[a].1 <= n[b].1 by {
                            if a < k && b < k {
                                assert(n[a] == s[a] && n[b] == s[b]);
                            } else if a < k && b == k {
                                assert(n[a] == s[a]);
                            } else if a < k {
                                assert(n[a] == s[a] && n[b] == s[b - 1]);
                            } else if a == k {
                                assert(n[b] == s[b - 1]);
                            } else {
                                assert(n[a] == s[a - 1] && n[b] == s[b - 1]);
                            }
                        }
                    }
                    assert forall|j: int| 0 <= j < n.len() implies m.contains_key(
                        #[trigger] key_of(n[j]),
                    ) && m[key_of(n[j])] == n[j].2 by {
                        if j < k {
                            assert(n[j] == s[j]);
                        } else if j > k {
                            assert(n[j] == s[j - 1]);
                        }
                    }
                    assert forall|q: (Seq<char>, i64)| #[trigger] m.contains_key(q) implies exists|j: int|
                        0 <= j < n.len() && key_of(n[j]) == q by {
                        if q == (path@, line) {
                            assert(key_of(n[k as int]) == q);
                        } else {
                            let j = choose|j: int| 0 <= j < s.len() && key_of(s[j]) == q;
                            if j < k {
                                assert(n[j] == s[j]);
                            } else {
                                assert(n[j + 1] == s[j]);
                            }
                        }
                    }
                    lemma_same_rows(n, m);
                }
                self.rows = rows;
            },
        }
    }

    /// Removes the entry for `path` and `line`; says whether there was one.
    pub fn remove(&mut self, path: &str, line: i64) -> (r: bool)
        ensures
            final(self)@ == old(self)@.remove((path@, line)),
            r == old(self)@.contains_key((path@, line)),
            r ==> final(self).size() + 1 == old(self).size(),
            !r ==> final(self).size() == old(self).size(),
    {
        proof {
            use_type_invariant(&*self);
            lemma_table_facts(self.rows@);
        }
        let ghost s = self.rows@;
        let ghost m = table_map(s).remove((path@, line));
        match self.find(path, line) {
            Some(i) => {
                let mut rows: Vec<Row> = Vec::new();
                std::mem::swap(&mut rows, &mut self.rows);
                let _gone = rows.remove(i);
                proof {
                    let n = rows@;
                    assert(n == s.remove(i as int));
                    assert(unique_rows(n)) by {
                        assert forall|a: int, b: int| 0 <= a < b < n.len() implies key_of(n[a])
                            != key_of(n[b]) by {
                            if b < i {
                                assert(n[a] == s[a] && n[b] == s[b]);
                            } else if a < i {
                                assert(n[a] == s[a] && n[b] == s[b + 1]);
                            } else {
                                assert(n[a] == s[a + 1] && n[b] == s[b + 1]);
                            }
                        }
                    }
                    assert(rows_by_line(n)) by {
                        assert forall|a: int, b: int| 0 <= a < b < n.len() implies n[a].1 <= n[b].1 by {
                            if b < i {
                                assert(n[a] == s[a] && n[b] == s[b]);
                            } else if a < i {
                                assert(n[a] == s[a] && n[b] == s[b + 1]);
                            } else {
                                assert(n[a] == s[a + 1] && n[b] == s[b + 1]);
                            }
                        }
                    }
                    assert forall|j: int| 0 <= j < n.len() implies m.contains_key(
                        #[trigger] key_of(n[j]),
                    ) && m[key_of(n[j])] == n[j].2 by {
                        if j < i {
                            assert(n[j] == s[j]);
                        } else {
                            assert(n[j] == s[j + 1]);
                        }
                    }
                    assert forall|q: (Seq<char>, i64)| #[trigger] m.contains_key(q) implies exists|j: int|
                        0 <= j < n.len() && key_of(n[j]) == q by {
                        let j = choose|j: int| 0 <= j < s.len() && key_of(s[j]) == q;
                        if j < i {
                            assert(n[j] == s[j]);
                        } else {
                            assert(n[j - 1] == s[j]);
                        }
                    }
                    lemma_same_rows(n, m);
                }
                self.rows = rows;
                true
            },
            None => {
                proof {
                    assert(table_map(s) =~= m);
                }
                false
            },
        }
    }

    /// The number of stored breakpoints.
    pub closed spec fn size(&self) -> nat {
        self.rows@.len()
    }

    fn file_line(&self, path: &str) -> (r: Option<i64>)
        ensures
            match r {
                Some(l) => self@.contains_key((path@, l)),
                None => !has_file(self@, path@),
            },
    {
        proof {
            use_type_invariant(self);
            lemma_table_facts(self.rows@);
        }
        let mut i: usize = 0;
        while i < self.rows.len()
            invariant
                i <= self.rows.len(),
                forall|j: int| 0 <= j < i ==> self.rows@[j].0@ != path@,
            decreases self.rows.len() - i,
        {
            if crate::text::str_eq(self.rows[i].0.as_str(), path) {
                proof {
                    use_type_invariant(self);
                    lemma_table_facts(self.rows@);
                    assert(key_of(self.rows@[i as int]) == (path@, self.rows@[i as int].1));
                }
                return Some(self.rows[i].1);
            }
            i = i + 1;
        }
        proof {
            assert forall|l: i64| !self@.contains_key((path@, l)) by {
                if self@.contains_key((path@, l)) {
                    let j = choose|j: int| 0 <= j < self.rows@.len() && key_of(self.rows@[j]) == (path@, l);
                }
            }
        }
        None
    }

    /// Removes every entry of file `path`; says whether there was one.
    pub fn remove_file(&mut self, path: &str) -> (r: bool)
        ensures
            final(self)@ == without_file(old(self)@, path@),
            r == has_file(old(self)@, path@),
    {
        let ghost start = self@;
        let mut found = false;
        loop
            invariant
                forall|q: (Seq<char>, i64)|
                    q.0 != path@ ==> (#[trigger] self@.contains_key(q) == start.contains_key(q)
                        && (start.contains_key(q) ==> self@[q] == start[q])),
                forall|q: (Seq<char>, i64)|
                    q.0 == path@ && #[trigger] self@.contains_key(q) ==> start.contains_key(q),
                start == old(self)@,
                found ==> has_file(start, path@),
                !found ==> self@ == start,
            decreases self.size(),
        {
            match self.file_line(path) {
                Some(l) => {
                    let ghost before = self@;
                    let ghost n = self.size();
                    self.remove(path, l);
                    proof {
                        if !found {
                            assert(start.contains_key((path@, l)));
                        }
                    }
                    found = true;
                },
                None => {
                    proof {
                        let w = without_file(start, path@);
                        assert forall|q: (Seq<char>, i64)| #[trigger] self@.contains_key(q)
                            == w.contains_key(q) by {
                            if q.0 == path@ {
                                assert(!self@.contains_key((path@, q.1)));
                            }
                        }
                        assert(self@ =~= w);
                        if !found {
                            assert(!has_file(start, path@));
                        }
                    }
                    return found;
                },
            }
        }
    }

    /// Applies a breakpoint action at `path` and `line`: `Add` stores
    /// `entry`, `Remove` drops what is there, `Toggle` drops an existing
    /// breakpoint or else stores `entry`. Says whether a breakpoint is set
    /// there afterwards.
    pub fn apply(
        &mut self,
        action: BreakpointAction,
        path: String,
        line: i64,
        entry: BreakpointEntry,
    ) -> (enabled: bool)
        ensures
            (final(self)@, enabled) == applied(old(self)@, action, (path@, line), entry),
    {
        match action {
            BreakpointAction::Add => {
                self.set(path, line, entry);
                true
            },
            BreakpointAction::Remove => {
                self.remove(path.as_str(), line);
                false
            },
            BreakpointAction::Toggle => {
                if self.remove(path.as_str(), line) {
                    false
                } else {
                    self.set(path, line, entry);
                    true
                }
            },
        }
    }

    /// Clears the breakpoint at `line` of `path`, or every breakpoint of
    /// `path` without a line; says whether one was removed.
    pub fn clear(&mut self, path: &str, line: Option<i64>) -> (removed: bool)
        ensures
            match line {
                Some(l) => final(self)@ == old(self)@.remove((path@, l)) && removed
                    == old(self)@.contains_key((path@, l)),
                None => final(self)@ == without_file(old(self)@, path@) && removed == has_file(
                    old(self)@,
                    path@,
                ),
            },
    {
        match line {
            Some(l) => self.remove(path, l),
            None => self.remove_file(path),
        }
    }

    /// The editor's breakpoints with the debugger's own laid over them: at
    /// a file and line that both hold, the debugger's entry wins.
    pub fn merged(editor: &BreakpointTable, repl: &BreakpointTable) -> (r: BreakpointTable)
        ensures
            r@ == editor@.union_prefer_right(repl@),
    {
        let mut out = editor.clone();
        let mut i: usize = 0;
        while i < repl.rows.len()
            invariant
                i <= repl.rows.len(),
                out@ == editor@.union_prefer_right(table_map(repl.rows@.take(i as int))),
            decreases repl.rows.len() - i,
        {
            let ghost before = out@;
            let row = &repl.rows[i];
            out.set(row.0.clone(), row.1, row.2.clone());
            proof {
                let t = repl.rows@.take((i + 1) as int);
                assert(t.drop_last() =~= repl.rows@.take(i as int));
                assert(t.last() == repl.rows@[i as int]);
                assert(out@ =~= editor@.union_prefer_right(table_map(t)));
            }
            i = i + 1;
        }
        proof {
            assert(repl.rows@.take(repl.rows@.len() as int) =~= repl.rows@);
        }
        out
    }
}

impl BreakpointTable {
    /// The breakpoints of file `path` as (line, entry), in increasing order
    /// of line.
    pub fn lines_for(&self, path: &str) -> (r: Vec<(i64, BreakpointEntry)>)
        ensures
            forall|a: int, b: int| 0 <= a < b < r@.len() ==> r@[a].0 < r@[b].0,
            forall|a: int|
                0 <= a < r@.len() ==> self@.contains_key((path@, #[trigger] r@[a].0)) && self@[(
                    path@,
                    r@[a].0,
                )] == r@[a].1,
            forall|l: i64|
                #[trigger] self@.contains_key((path@, l)) ==> exists|a: int|
                    0 <= a < r@.len() && r@[a].0 == l,
    {
        proof {
            use_type_invariant(self);
            lemma_table_facts(self.rows@);
        }
        let ghost s = self.rows@;
        let ghost mut idx: Seq<int> = Seq::empty();
        let mut out: Vec<(i64, BreakpointEntry)> = Vec::new();
        let mut i: usize = 0;
        while i < self.rows.len()
            invariant
                i <= self.rows.len(),
                s == self.rows@,
                unique_rows(s),
                rows_by_line(s),
                idx.len() == out@.len(),
                forall|a: int|
                    0 <= a < idx.len() ==> 0 <= #[trigger] idx[a] < i && s[idx[a]].0@ == path@
                        && s[idx[a]].1 == out@[a].0 && s[idx[a]].2 == out@[a].1,
                forall|a: int, b: int| 0 <= a < b < idx.len() ==> idx[a] < idx[b],
                forall|j: int|
                    0 <= j < i && #[trigger] s[j].0@ == path@ ==> exists|a: int|
                        0 <= a < idx.len() && idx[a] == j,
            decreases self.rows.len() - i,
        {
            if crate::text::str_eq(self.rows[i].0.as_str(), path) {
                let item = (self.rows[i].1, self.rows[i].2.clone());
                let ghost old_idx = idx;
                out.push(item);
                proof {
                    idx = idx.push(i as int);
                    assert forall|j: int|
                        0 <= j < i + 1 && #[trigger] s[j].0@ == path@ implies exists|a: int|
                        0 <= a < idx.len() && idx[a] == j by {
                        if j < i {
                            let a = choose|a: int| 0 <= a < old_idx.len() && old_idx[a] == j;
                            assert(idx[a] == j);
                        } else {
                            assert(idx[idx.len() - 1] == j);
                        }
                    }
                }
            }
            i = i + 1;
        }
        proof {
            assert forall|a: int, b: int| 0 <= a < b < out@.len() implies out@[a].0 < out@[b].0 by {
                assert(s[idx[a]].1 <= s[idx[b]].1);
                assert(key_of(s[idx[a]]) != key_of(s[idx[b]]));
            }
            assert forall|a: int| 0 <= a < out@.len() implies self@.contains_key(
                (path@, #[trigger] out@[a].0),
            ) && self@[(path@, out@[a].0)] == out@[a].1 by {
                assert(key_of(s[idx[a]]) == (path@, out@[a].0));
            }
            assert forall|l: i64| #[trigger] self@.contains_key((path@, l)) implies exists|a: int|
                0 <= a < out@.len() && out@[a].0 == l by {
                let j = choose|j: int| 0 <= j < s.len() && key_of(s[j]) == (path@, l);
                assert(s[j].0@ == path@);
                let a = choose|a: int| 0 <= a < idx.len() && idx[a] == j;
            }
        }
        out
    }

    /// The files that hold breakpoints, each once.
    pub fn files(&self) -> (r: Vec<String>)
        ensures
            forall|a: int, b: int| 0 <= a < b < r@.len() ==> r@[a]@ != r@[b]@,
            forall|a: int| 0 <= a < r@.len() ==> has_file(self@, #[trigger] r@[a]@),
            forall|p: Seq<char>| has_file(self@, p) ==> exists|a: int| 0 <= a < r@.len() && r@[a]@ == p,
    {
        proof {
            use_type_invariant(self);
            lemma_table_facts(self.rows@);
        }
        let ghost s = self.rows@;
        let ghost mut src: Seq<int> = Seq::empty();
        let mut out: Vec<String> = Vec::new();
        let mut i: usize = 0;
        while i < self.rows.len()
            invariant
                i <= self.rows.len(),
                s == self.rows@,
                src.len() == out@.len(),
                forall|a: int, b: int| 0 <= a < b < out@.len() ==> out@[a]@ != out@[b]@,
                forall|a: int|
                    0 <= a < out@.len() ==> 0 <= #[trigger] src[a] < i && out@[a]@ == s[src[a]].0@,
                forall|j: int|
                    #![trigger s[j]]
                    0 <= j < i ==> exists|a: int| 0 <= a < out@.len() && out@[a]@ == s[j].0@,
            decreases self.rows.len() - i,
        {
            let found = position_of(&out, self.rows[i].0.as_str());
            match found {
                Some(_) => {},
                None => {
                    let ghost before = out@;
                    out.push(self.rows[i].0.clone());
                    proof {
                        src = src.push(i as int);
                        assert forall|j: int| #![trigger s[j]] 0 <= j < i + 1 implies exists|a: int|
                            0 <= a < out@.len() && out@[a]@ == s[j].0@ by {
                            if j < i {
                                let a = choose|a: int| 0 <= a < before.len() && before[a]@ == s[j].0@;
                                assert(out@[a] == before[a]);
                            } else {
                                assert(out@[before.len() as int]@ == s[j].0@);
                            }
                        }
                    }
                },
            }
            i = i + 1;
        }
        proof {
            assert forall|a: int| 0 <= a < out@.len() implies has_file(self@, #[trigger] out@[a]@) by {
                assert(self@.contains_key(key_of(s[src[a]])));
            }
            assert forall|p: Seq<char>| has_file(self@, p) implies exists|a: int|
                0 <= a < out@.len() && out@[a]@ == p by {
                let l = choose|l: i64| self@.contains_key((p, l));
                let j = choose|j: int| 0 <= j < s.len() && key_of(s[j]) == (p, l);
                assert(s[j].0@ == p);
            }
        }
        out
    }
}

fn position_of(v: &Vec<String>, t: &str) -> (r: Option<usize>)
    ensures
        match r {
            Some(k) => k < v@.len() && v@[k as int]@ == t@,
            None => forall|a: int| 0 <= a < v@.len() ==> v@[a]@ != t@,
        },
{
    let mut k: usize = 0;
    while k < v.len()
        invariant
            k <= v.len(),
            forall|a: int| 0 <= a < k ==> v@[a]@ != t@,
        decreases v.len() - k,
    {
        if crate::text::str_eq(v[k].as_str(), t) {
            return Some(k);
        }
        k = k + 1;
    }
    None
}

/// A breakpoint of an editor snapshot: its line when that is an integer,
/// its modifiers when they are strings, and which modifiers the client
/// emulates for it.
#[derive(Debug, Clone, PartialEq, Eq)]
pub struct SnapshotBreakpoint {
    pub line: Option<i64>,
    pub condition: Option<String>,
    pub hit_condition: Option<String>,
    pub log_message: Option<String>,
    pub policy: ClientStopPolicy,
}

/// A file of an editor snapshot, with its breakpoints when they form an
/// array.
#[derive(Debug, Clone, PartialEq, Eq)]
pub struct SnapshotFile {
    pub path: String,
    pub breakpoints: Option<Vec<SnapshotBreakpoint>>,
}

/// The entry tracked for a snapshot breakpoint, not hit yet.
pub open spec fn snapshot_entry(b: SnapshotBreakpoint) -> BreakpointEntry {
    BreakpointEntry {
        condition: b.condition,
        hit_condition: b.hit_condition,
        log_message: b.log_message,
        hit_count: 0,
        emulated_condition: b.policy.condition,
        emulated_hit: b.policy.hit,
        emulated_log: b.policy.log,
    }
}

/// The breakpoints of one snapshot file; those without a line are skipped
/// and a later one at a line replaces an earlier one.
pub open spec fn snapshot_file_map(path: Seq<char>, bs: Seq<SnapshotBreakpoint>) -> Map<
    (Seq<char>, i64),
    BreakpointEntry,
>
    decreases bs.len(),
{
    if bs.len() == 0 {
        Map::empty()
    } else {
        let m = snapshot_file_map(path, bs.drop_last());
        match bs.last().line {
            Some(l) => m.insert((path, l), snapshot_entry(bs.last())),
            None => m,
        }
    }
}

/// The breakpoints of a whole snapshot.
pub open spec fn snapshot_map(files: Seq<SnapshotFile>) -> Map<(Seq<char>, i64), BreakpointEntry>
    decreases files.len(),
{
    if files.len() == 0 {
        Map::empty()
    } else {
        let f = files.last();
        snapshot_map(files.drop_last()).union_prefer_right(
            match f.breakpoints {
                Some(bs) => snapshot_file_map(f.path@, bs@),
                None => Map::empty(),
            },
        )
    }
}

fn entry_of_snapshot(b: &SnapshotBreakpoint) -> (r: BreakpointEntry)
    ensures
        r == snapshot_entry(*b),
{
    BreakpointEntry {
        condition: match &b.condition {
            Some(c) => Some(c.clone()),
            None => None,
        },
        hit_condition: match &b.hit_condition {
            Some(c) => Some(c.clone()),
            None => None,
        },
        log_message: match &b.log_message {
            Some(c) => Some(c.clone()),
            None => None,
        },
        hit_count: 0,
        emulated_condition: b.policy.condition,
        emulated_hit: b.policy.hit,
        emulated_log: b.policy.log,
    }
}

impl BreakpointTable {
    /// The editor's breakpoints from a session snapshot, replacing whatever
    /// was imported before.
    pub fn from_snapshot(files: &Vec<SnapshotFile>) -> (r: BreakpointTable)
        ensures
            r@ == snapshot_map(files@),
    {
        let mut out = BreakpointTable::new();
        let mut i: usize = 0;
        while i < files.len()
            invariant
                i <= files.len(),
                out@ == snapshot_map(files@.take(i as int)),
            decreases files.len() - i,
        {
            let ghost before = out@;
            let f = &files[i];
            match &f.breakpoints {
                Some(bs) => {
                    let mut k: usize = 0;
                    while k < bs.len()
                        invariant
                            k <= bs.len(),
                            out@ == before.union_prefer_right(
                                snapshot_file_map(f.path@, bs@.take(k as int)),
                            ),
                        decreases bs.len() - k,
                    {
                        let ghost mid = out@;
                        match bs[k].line {
                            Some(l) => {
                                out.set(f.path.clone(), l, entry_of_snapshot(&bs[k]));
                            },
                            None => {},
                        }
                        proof {
                            let t = bs@.take((k + 1) as int);
                            assert(t.drop_last() =~= bs@.take(k as int));
                            assert(t.last() == bs@[k as int]);
                            assert(out@ =~= before.union_prefer_right(snapshot_file_map(f.path@, t)));
                        }
                        k = k + 1;
                    }
                    assert(bs@.take(bs.len() as int) =~= bs@);
                },
                None => {
                    assert(before.union_prefer_right(Map::empty()) =~= before);
                },
            }
            proof {
                let t = files@.take((i + 1) as int);
                assert(t.drop_last() =~= files@.take(i as int));
                assert(t.last() == files@[i as int]);
            }
            i = i + 1;
        }
        assert(files@.take(files.len() as int) =~= files@);
        out
    }
}

impl Clone for BreakpointTable {
    fn clone(&self) -> (r: Self)
        ensures
            r@ == self@,
    {
        proof {
            use_type_invariant(self);
        }
        let mut rows: Vec<Row> = Vec::new();
        let mut i: usize = 0;
        while i < self.rows.len()
            invariant
                i <= self.rows.len(),
                unique_rows(self.rows@),
                rows_by_line(self.rows@),
                rows@ == self.rows@.take(i as int),
            decreases self.rows.len() - i,
        {
            let row = (self.rows[i].0.clone(), self.rows[i].1, self.rows[i].2.clone());
            rows.push(row);
            assert(rows@ =~= self.rows@.take((i + 1) as int));
            i = i + 1;
        }
        assert(rows@ =~= self.rows@);
        BreakpointTable { rows }
    }
}

} // verus!
