//! The lists the interactive debugger keeps: skip-path patterns, watch
//! expressions and data watches. Each holds an item at most once and keeps
//! the order items were added in; the prompt shows where execution stopped.
use vstd::prelude::*;
use crate::data_watch::DataWatchEntry;
use crate::num::{int_str, push_int};
use crate::paths::{file_name_of, path_file_name};
use crate::text::{append, owned, str_eq};

verus! {

/// The characters of each string, in order.
pub open spec fn texts(v: Seq<String>) -> Seq<Seq<char>> {
    v.map_values(|s: String| s@)
}

/// `s` without the occurrences of `x`, order kept.
pub open spec fn without(s: Seq<Seq<char>>, x: Seq<char>) -> Seq<Seq<char>>
    decreases s.len(),
{
    if s.len() == 0 {
        Seq::empty()
    } else if s.last() == x {
        without(s.drop_last(), x)
    } else {
        without(s.drop_last(), x).push(s.last())
    }
}

/// `s` with `x` appended unless it is already there.
pub open spec fn with_item(s: Seq<Seq<char>>, x: Seq<char>) -> Seq<Seq<char>> {
    if s.contains(x) {
        s
    } else {
        s.push(x)
    }
}

/// Adds `item` at the end of `list` unless the list already holds it.
pub fn add_unique(list: &mut Vec<String>, item: String)
    ensures
        texts(final(list)@) == with_item(texts(old(list)@), item@),
{
    let mut i: usize = 0;
    while i < list.len()
        invariant
            i <= list.len(),
            forall|j: int| 0 <= j < i ==> list@[j]@ != item@,
        decreases list.len() - i,
    {
        if list[i] == item {
            assert(texts(list@)[i as int] == item@);
            return;
        }
        i = i + 1;
    }
    let ghost before = texts(list@);
    assert(!before.contains(item@)) by {
        if before.contains(item@) {
            let k = choose|k: int| 0 <= k < before.len() && before[k] == item@;
            assert(list@[k]@ == item@);
        }
    }
    list.push(item);
    assert(texts(list@) =~= before.push(list@[list@.len() - 1]@));
}

/// Removes every occurrence of `item` from `list`, keeping the order of the
/// rest.
pub fn remove_all(list: &mut Vec<String>, item: &str)
    ensures
        texts(final(list)@) == without(texts(old(list)@), item@),
{
    let ghost all = texts(list@);
    let mut kept: Vec<String> = Vec::new();
    let mut rest: Vec<String> = Vec::new();
    std::mem::swap(&mut rest, list);
    let n: usize = rest.len();
    let mut k: usize = 0;
    assert(texts(rest@) == all.skip(0));
    while rest.len() > 0
        invariant
            k + rest.len() == n,
            all.len() == n,
            texts(rest@) == all.skip(k as int),
            texts(kept@) == without(all.take(k as int), item@),
        decreases rest.len(),
    {
        let ghost before = rest@;
        let s = rest.remove(0);
        assert(rest@ =~= before.skip(1));
        assert(texts(rest@) =~= texts(before).skip(1));
        assert(all[k as int] == s@) by {
            assert(all.skip(k as int)[0] == all[k as int]);
        }
        assert(all.take((k + 1) as int).drop_last() =~= all.take(k as int));
        if !str_eq(s.as_str(), item) {
            kept.push(s);
            assert(texts(kept@) =~= without(all.take((k + 1) as int), item@));
        }
        assert(texts(rest@) =~= all.skip(k + 1));
        k = k + 1;
    }
    assert(all.take(k as int) =~= all);
    *list = kept;
}

proof fn lemma_push_contains(t: Seq<Seq<char>>, l: Seq<char>, y: Seq<char>)
    ensures
        t.push(l).contains(y) == (t.contains(y) || l == y),
{
    if t.contains(y) {
        let i = choose|i: int| 0 <= i < t.len() && t[i] == y;
        assert(t.push(l)[i] == y);
    }
    if l == y {
        assert(t.push(l)[t.len() as int] == y);
    }
    if t.push(l).contains(y) {
        let i = choose|i: int| 0 <= i < t.push(l).len() && t.push(l)[i] == y;
        if i < t.len() {
            assert(t[i] == y);
        }
    }
}

proof fn lemma_without_contains(s: Seq<Seq<char>>, x: Seq<char>, y: Seq<char>)
    ensures
        without(s, x).contains(y) == (s.contains(y) && y != x),
    decreases s.len(),
{
    if s.len() > 0 {
        let t = s.drop_last();
        let l = s.last();
        lemma_without_contains(t, x, y);
        assert(s =~= t.push(l));
        lemma_push_contains(t, l, y);
        if l != x {
            lemma_push_contains(without(t, x), l, y);
        }
    }
}

/// Adding an item that is already listed changes nothing, so adding twice
/// is adding once; after an add the item is listed.
pub proof fn lemma_add_idempotent(s: Seq<Seq<char>>, x: Seq<char>)
    ensures
        with_item(with_item(s, x), x) == with_item(s, x),
        with_item(s, x).contains(x),
{
    if !s.contains(x) {
        assert(s.push(x)[s.len() as int] == x);
    }
}

/// After removing an item it is no longer listed, and every other item is
/// listed exactly when it was before.
pub proof fn lemma_remove_drops_only_item(s: Seq<Seq<char>>, x: Seq<char>, y: Seq<char>)
    requires
        y != x,
    ensures
        !without(s, x).contains(x),
        without(s, x).contains(y) == s.contains(y),
{
    lemma_without_contains(s, x, x);
    lemma_without_contains(s, x, y);
}

/// The expressions of the data watches, in order.
pub open spec fn watch_expressions(v: Seq<DataWatchEntry>) -> Seq<Seq<char>> {
    v.map_values(|w: DataWatchEntry| w.expression@)
}

/// Adds a fresh data watch on `expression` unless one exists; existing
/// watches are kept as they are.
pub fn data_watch_add(watches: &mut Vec<DataWatchEntry>, expression: String, emulated: bool)
    ensures
        watch_expressions(final(watches)@) == with_item(watch_expressions(old(watches)@), expression@),
        forall|i: int| 0 <= i < old(watches)@.len() ==> final(watches)@[i] == old(watches)@[i],
        !watch_expressions(old(watches)@).contains(expression@) ==> ({
            let w = final(watches)@.last();
            w.expression == expression && w.baseline is None && !w.armed && w.emulated == emulated
        }),
{
    let mut i: usize = 0;
    while i < watches.len()
        invariant
            i <= watches.len(),
            forall|j: int| 0 <= j < i ==> watches@[j].expression@ != expression@,
        decreases watches.len() - i,
    {
        if watches[i].expression == expression {
            assert(watch_expressions(watches@)[i as int] == expression@);
            return;
        }
        i = i + 1;
    }
    let ghost before = watch_expressions(watches@);
    assert(!before.contains(expression@)) by {
        if before.contains(expression@) {
            let k = choose|k: int| 0 <= k < before.len() && before[k] == expression@;
            assert(watches@[k].expression@ == expression@);
        }
    }
    let ghost e = expression;
    watches.push(DataWatchEntry::new(expression, emulated));
    assert(watch_expressions(watches@) =~= before.push(e@));
}

/// Removes the data watches on `expression`, keeping the others in order.
pub fn data_watch_remove(watches: &mut Vec<DataWatchEntry>, expression: &str)
    ensures
        watch_expressions(final(watches)@) == without(watch_expressions(old(watches)@), expression@),
{
    let ghost all = watch_expressions(watches@);
    let mut kept: Vec<DataWatchEntry> = Vec::new();
    let mut rest: Vec<DataWatchEntry> = Vec::new();
    std::mem::swap(&mut rest, watches);
    let n: usize = rest.len();
    let mut k: usize = 0;
    assert(watch_expressions(rest@) == all.skip(0));
    while rest.len() > 0
        invariant
            k + rest.len() == n,
            all.len() == n,
            watch_expressions(rest@) == all.skip(k as int),
            watch_expressions(kept@) == without(all.take(k as int), expression@),
        decreases rest.len(),
    {
        let ghost before = rest@;
        let w = rest.remove(0);
        assert(rest@ =~= before.skip(1));
        assert(watch_expressions(rest@) =~= watch_expressions(before).skip(1));
        assert(all[k as int] == w.expression@) by {
            assert(all.skip(k as int)[0] == all[k as int]);
        }
        assert(all.take((k + 1) as int).drop_last() =~= all.take(k as int));
        if !str_eq(w.expression.as_str(), expression) {
            kept.push(w);
            assert(watch_expressions(kept@) =~= without(all.take((k + 1) as int), expression@));
        }
        assert(watch_expressions(rest@) =~= all.skip(k + 1));
        k = k + 1;
    }
    assert(all.take(k as int) =~= all);
    *watches = kept;
}

/// The prompt: `file:line› ` at a known stop location (the file name of the
/// path, or the whole path when it has none), `dap› ` otherwise.
pub open spec fn prompt_spec(last_location: Option<(Seq<char>, i64)>) -> Seq<char> {
    match last_location {
        Some((path, line)) => {
            let file = match file_name_of(path) {
                Some(f) => f,
                None => path,
            };
            file + ":"@ + int_str(line as int) + "› "@
        },
        None => "dap› "@,
    }
}

/// The prompt of the interactive debugger for the last stop location.
pub fn repl_prompt(last_location: Option<(&str, i64)>) -> (r: String)
    ensures
        r@ == prompt_spec(
            match last_location {
                Some((p, l)) => Some((p@, l)),
                None => None,
            },
        ),
{
    match last_location {
        Some((path, line)) => {
            let mut s = match path_file_name(path) {
                Some(f) => f,
                None => owned(path),
            };
            append(&mut s, ":");
            push_int(&mut s, line);
            append(&mut s, "› ");
            s
        },
        None => owned("dap› "),
    }
}

} // verus!
