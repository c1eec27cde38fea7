//! Lists kept in increasing order of a text key, one item per key: the
//! order of strings, and sorted insertion with its proof.
use vstd::prelude::*;
use crate::text::{chars_of, str_eq};

verus! {

/// An item with a text key.
pub trait Keyed {
    spec fn key(&self) -> Seq<char>;

    fn key_text(&self) -> (r: &str)
        ensures
            r@ == self.key(),
    ;
}

/// `a < b` for strings: lexicographic by character, a proper prefix first
/// (the order of `String`, since UTF-8 preserves code-point order).
pub open spec fn lex_lt(a: Seq<char>, b: Seq<char>) -> bool
    decreases a.len(),
{
    if a.len() == 0 {
        b.len() > 0
    } else if b.len() == 0 {
        false
    } else if a[0] != b[0] {
        a[0] < b[0]
    } else {
        lex_lt(a.skip(1), b.skip(1))
    }
}

pub proof fn lemma_lex_irreflexive(a: Seq<char>)
    ensures
        !lex_lt(a, a),
    decreases a.len(),
{
    if a.len() > 0 {
        lemma_lex_irreflexive(a.skip(1));
    }
}

pub proof fn lemma_lex_total(a: Seq<char>, b: Seq<char>)
    ensures
        a != b ==> lex_lt(a, b) || lex_lt(b, a),
        !(lex_lt(a, b) && lex_lt(b, a)),
    decreases a.len(),
{
    if a.len() > 0 && b.len() > 0 {
        lemma_lex_total(a.skip(1), b.skip(1));
        if a[0] == b[0] && a != b {
            assert(a.skip(1) != b.skip(1)) by {
                if a.skip(1) == b.skip(1) {
                    assert(a =~= seq![a[0]] + a.skip(1));
                    assert(b =~= seq![b[0]] + b.skip(1));
                }
            }
        }
    } else if a.len() == 0 && b.len() == 0 {
        assert(a =~= b);
    }
}

pub proof fn lemma_lex_transitive(a: Seq<char>, b: Seq<char>, c: Seq<char>)
    requires
        lex_lt(a, b),
        lex_lt(b, c),
    ensures
        lex_lt(a, c),
    decreases a.len(),
{
    if a.len() > 0 && b.len() > 0 && c.len() > 0 {
        if a[0] == b[0] && b[0] == c[0] {
            lemma_lex_transitive(a.skip(1), b.skip(1), c.skip(1));
        }
    }
}

/// Items in strictly increasing order of key (so no key twice).
pub open spec fn keys_sorted<T: Keyed>(s: Seq<T>) -> bool {
    forall|i: int, j: int| 0 <= i < j < s.len() ==> lex_lt(#[trigger] s[i].key(), #[trigger] s[j].key())
}

/// Items by key, each key taken by the last item that has it.
pub open spec fn by_key<T: Keyed>(s: Seq<T>) -> Map<Seq<char>, T>
    decreases s.len(),
{
    if s.len() == 0 {
        Map::empty()
    } else {
        by_key(s.drop_last()).insert(s.last().key(), s.last())
    }
}

#[verifier::spinoff_prover]
pub proof fn lemma_by_key_sorted<T: Keyed>(s: Seq<T>)
    requires
        keys_sorted(s),
    ensures
        forall|q: Seq<char>|
            #![trigger by_key(s).dom().contains(q)]
            by_key(s).dom().contains(q) <==> exists|i: int| 0 <= i < s.len() && s[i].key() == q,
        forall|i: int|
            0 <= i < s.len() ==> by_key(s).dom().contains(#[trigger] s[i].key()) && by_key(s)[s[i].key()]
                == s[i],
    decreases s.len(),
{
    if s.len() > 0 {
        let t = s.drop_last();
        let last = s.last();
        assert(keys_sorted(t)) by {
            assert forall|i: int, j: int| 0 <= i < j < t.len() implies lex_lt(
                #[trigger] t[i].key(),
                #[trigger] t[j].key(),
            ) by {
                assert(s[i] == t[i] && s[j] == t[j]);
            }
        }
        lemma_by_key_sorted(t);
        assert forall|i: int| 0 <= i < s.len() implies by_key(s).dom().contains(#[trigger] s[i].key())
            && by_key(s)[s[i].key()] == s[i] by {
            if i < s.len() - 1 {
                assert(t[i] == s[i]);
                assert(lex_lt(s[i].key(), s[s.len() - 1].key()));
                lemma_lex_irreflexive(s[i].key());
                assert(by_key(t).dom().contains(t[i].key()));
            }
        }
        assert forall|q: Seq<char>| by_key(s).dom().contains(q) implies exists|i: int|
            0 <= i < s.len() && s[i].key() == q by {
            if q != last.key() {
                assert(by_key(t).dom().contains(q));
                let i = choose|i: int| 0 <= i < t.len() && t[i].key() == q;
                assert(s[i] == t[i]);
            } else {
                assert(s[s.len() - 1].key() == q);
            }
        }
    }
}

fn key_less<T: Keyed>(a: &T, b: &T) -> (r: bool)
    ensures
        r == lex_lt(a.key(), b.key()),
{
    let x = chars_of(a.key_text());
    let y = chars_of(b.key_text());
    let mut i: usize = 0;
    assert(x@.skip(0) =~= x@ && y@.skip(0) =~= y@);
    while i < x.len() && i < y.len()
        invariant
            i <= x.len(),
            i <= y.len(),
            x@ == a.key(),
            y@ == b.key(),
            lex_lt(a.key(), b.key()) == lex_lt(x@.skip(i as int), y@.skip(i as int)),
        decreases x.len() - i,
    {
        let ghost xs = x@.skip(i as int);
        let ghost ys = y@.skip(i as int);
        assert(xs[0] == x@[i as int] && ys[0] == y@[i as int]);
        if x[i] != y[i] {
            return x[i] < y[i];
        }
        assert(xs.skip(1) =~= x@.skip(i + 1));
        assert(ys.skip(1) =~= y@.skip(i + 1));
        i = i + 1;
    }
    i == x.len() && i < y.len()
}

/// Puts `m` into the key-sorted list `out`, replacing the item with the
/// same key.
#[verifier::spinoff_prover]
pub fn insert_by_key<T: Keyed>(out: &mut Vec<T>, m: T)
    requires
        keys_sorted(old(out)@),
    ensures
        keys_sorted(final(out)@),
        by_key(final(out)@) == by_key(old(out)@).insert(m.key(), m),
{
    let ghost s = out@;
    proof {
        lemma_by_key_sorted(s);
    }
    let mut j: usize = 0;
    while j < out.len() && key_less(&out[j], &m)
        invariant
            j <= out.len(),
            out@ == s,
            keys_sorted(s),
            forall|i: int| 0 <= i < j ==> lex_lt(#[trigger] s[i].key(), m.key()),
        decreases out.len() - j,
    {
        j = j + 1;
    }
    let same = j < out.len() && str_eq(out[j].key_text(), m.key_text());
    let ghost k = m.key();
    if same {
        out.set(j, m);
        proof {
            let f = out@;
            assert forall|a: int, b: int| 0 <= a < b < f.len() implies lex_lt(
                #[trigger] f[a].key(),
                #[trigger] f[b].key(),
            ) by {
                assert(s[a].key() == f[a].key() && s[b].key() == f[b].key());
            }
            lemma_by_key_sorted(f);
            assert(by_key(f) =~= by_key(s).insert(k, m)) by {
                assert forall|q: Seq<char>| by_key(f).dom().contains(q) == by_key(s).insert(
                    k,
                    m,
                ).dom().contains(q) by {
                    if by_key(f).dom().contains(q) {
                        let i = choose|i: int| 0 <= i < f.len() && f[i].key() == q;
                        assert(s[i].key() == q);
                    }
                    if by_key(s).dom().contains(q) {
                        let i = choose|i: int| 0 <= i < s.len() && s[i].key() == q;
                        assert(f[i].key() == q);
                    }
                    if q == k {
                        assert(f[j as int].key() == q);
                    }
                }
                assert forall|q: Seq<char>| #[trigger] by_key(f).dom().contains(q) implies by_key(f)[q]
                    == by_key(s).insert(k, m)[q] by {
                    let i = choose|i: int| 0 <= i < f.len() && f[i].key() == q;
                    if i != j {
                        assert(f[i] == s[i]);
                        assert(by_key(s)[s[i].key()] == s[i]);
                        assert(q != k) by {
                            lemma_lex_irreflexive(k);
                            if i < j {
                                assert(lex_lt(s[i].key(), s[j as int].key()));
                            } else {
                                assert(lex_lt(s[j as int].key(), s[i].key()));
                            }
                        }
                    }
                }
            }
        }
    } else {
        proof {
            if j < s.len() {
                lemma_lex_total(s[j as int].key(), k);
            }
        }
        out.insert(j, m);
        proof {
            let f = out@;
            assert forall|a: int, b: int| 0 <= a < b < f.len() implies lex_lt(
                #[trigger] f[a].key(),
                #[trigger] f[b].key(),
            ) by {
                if b < j {
                    assert(f[a] == s[a] && f[b] == s[b]);
                } else if b == j {
                    assert(f[a] == s[a]);
                } else if a == j {
                    assert(f[b] == s[b - 1]);
                    if b - 1 > j {
                        lemma_lex_transitive(k, s[j as int].key(), s[b - 1].key());
                    }
                } else if a < j {
                    assert(f[a] == s[a] && f[b] == s[b - 1]);
                } else {
                    assert(f[a] == s[a - 1] && f[b] == s[b - 1]);
                }
            }
            lemma_by_key_sorted(f);
            assert(by_key(f) =~= by_key(s).insert(k, m)) by {
                assert forall|q: Seq<char>| by_key(f).dom().contains(q) == by_key(s).insert(
                    k,
                    m,
                ).dom().contains(q) by {
                    if by_key(f).dom().contains(q) {
                        let i = choose|i: int| 0 <= i < f.len() && f[i].key() == q;
                        if i < j {
                            assert(s[i].key() == q);
                        } else if i > j {
                            assert(s[i - 1].key() == q);
                        }
                    }
                    if by_key(s).dom().contains(q) {
                        let i = choose|i: int| 0 <= i < s.len() && s[i].key() == q;
                        if i < j {
                            assert(f[i].key() == q);
                        } else {
                            assert(f[i + 1].key() == q);
                        }
                    }
                    if q == k {
                        assert(f[j as int].key() == q);
                    }
                }
                assert forall|q: Seq<char>| #[trigger] by_key(f).dom().contains(q) implies by_key(f)[q]
                    == by_key(s).insert(k, m)[q] by {
                    let i = choose|i: int| 0 <= i < f.len() && f[i].key() == q;
                    if i != j {
                        let si = if i < j {
                            i
                        } else {
                            i - 1
                        };
                        assert(f[i] == s[si]);
                        assert(by_key(s)[s[si].key()] == s[si]);
                        lemma_lex_irreflexive(k);
                    }
                }
            }
        }
    }
}

/// Moves every item of `v`, in order, into the key-sorted list `out`.
pub fn insert_all_by_key<T: Keyed>(out: &mut Vec<T>, v: Vec<T>, Ghost(seen): Ghost<
    Seq<T>,
>)
    requires
        keys_sorted(old(out)@),
        by_key(old(out)@) == by_key(seen),
    ensures
        keys_sorted(final(out)@),
        by_key(final(out)@) == by_key(seen + v@),
{
    let ghost all = v@;
    let n: usize = v.len();
    let mut rest = v;
    let mut k: usize = 0;
    while rest.len() > 0
        invariant
            k + rest.len() == all.len(),
            all.len() == n,
            rest@ == all.skip(k as int),
            keys_sorted(out@),
            by_key(out@) == by_key(seen + all.take(k as int)),
        decreases rest.len(),
    {
        let m = rest.remove(0);
        assert(all[k as int] == m);
        assert((seen + all.take((k + 1) as int)).drop_last() =~= seen + all.take(k as int));
        insert_by_key(out, m);
        assert(rest@ =~= all.skip(k + 1));
        k = k + 1;
    }
    assert(all.take(k as int) =~= all);
}

/// Removes the item with key `k` from the key-sorted list `out`, if there
/// is one, and hands it back.
pub fn remove_by_key<T: Keyed>(out: &mut Vec<T>, k: &str) -> (r: Option<T>)
    requires
        keys_sorted(old(out)@),
    ensures
        keys_sorted(final(out)@),
        by_key(final(out)@) == by_key(old(out)@).remove(k@),
        match r {
            Some(m) => by_key(old(out)@).contains_key(k@) && by_key(old(out)@)[k@] == m,
            None => !by_key(old(out)@).contains_key(k@),
        },
{
    let ghost s = out@;
    proof {
        lemma_by_key_sorted(s);
    }
    let mut i: usize = 0;
    while i < out.len()
        invariant
            i <= out.len(),
            out@ == s,
            s == old(out)@,
            keys_sorted(s),
            forall|j: int| 0 <= j < i ==> #[trigger] s[j].key() != k@,
        decreases out.len() - i,
    {
        if str_eq(out[i].key_text(), k) {
            let m = out.remove(i);
            proof {
                lemma_by_key_sorted(s);
                let f = out@;
                assert(f == s.remove(i as int));
                assert forall|a: int, b: int| 0 <= a < b < f.len() implies lex_lt(
                    #[trigger] f[a].key(),
                    #[trigger] f[b].key(),
                ) by {
                    if b < i {
                        assert(f[a] == s[a] && f[b] == s[b]);
                    } else if a < i {
                        assert(f[a] == s[a] && f[b] == s[b + 1]);
                    } else {
                        assert(f[a] == s[a + 1] && f[b] == s[b + 1]);
                    }
                }
                lemma_by_key_sorted(f);
                assert(by_key(f) =~= by_key(s).remove(k@)) by {
                    assert forall|q: Seq<char>| by_key(f).dom().contains(q) == by_key(s).remove(
                        k@,
                    ).dom().contains(q) by {
                        if by_key(f).dom().contains(q) {
                            let a = choose|a: int| 0 <= a < f.len() && f[a].key() == q;
                            if a < i {
                                assert(f[a] == s[a]);
                                lemma_lex_irreflexive(k@);
                                assert(lex_lt(s[a].key(), s[i as int].key()));
                            } else {
                                assert(f[a] == s[a + 1]);
                                lemma_lex_irreflexive(k@);
                                assert(lex_lt(s[i as int].key(), s[a + 1].key()));
                            }
                        }
                        if by_key(s).dom().contains(q) && q != k@ {
                            let j = choose|j: int| 0 <= j < s.len() && s[j].key() == q;
                            if j < i {
                                assert(f[j] == s[j]);
                            } else {
                                assert(j != i);
                                assert(f[j - 1] == s[j]);
                            }
                        }
                    }
                    assert forall|q: Seq<char>| #[trigger] by_key(f).dom().contains(q) implies by_key(
                        f,
                    )[q] == by_key(s).remove(k@)[q] by {
                        let a = choose|a: int| 0 <= a < f.len() && f[a].key() == q;
                        let sa = if a < i {
                            a
                        } else {
                            a + 1
                        };
                        assert(f[a] == s[sa]);
                        assert(by_key(s)[s[sa].key()] == s[sa]);
                    }
                }
            }
            return Some(m);
        }
        i = i + 1;
    }
    proof {
        if by_key(s).dom().contains(k@) {
            let j = choose|j: int| 0 <= j < s.len() && s[j].key() == k@;
        }
        assert(by_key(s).remove(k@) =~= by_key(s));
    }
    None
}

/// The items of `first` and then `later`, one per key, in increasing order
/// of key, an item of `later` replacing one of `first` with the same key
/// (and, within one list, a later item an earlier one).
pub fn merge_by_key<T: Keyed>(first: Vec<T>, later: Option<Vec<T>>) -> (r: Vec<T>)
    ensures
        keys_sorted(r@),
        by_key(r@) == by_key(
            match later {
                Some(l) => first@ + l@,
                None => first@,
            },
        ),
{
    let mut out: Vec<T> = Vec::new();
    let ghost f = first@;
    assert(Seq::<T>::empty() + f =~= f);
    insert_all_by_key(&mut out, first, Ghost(Seq::empty()));
    match later {
        Some(l) => {
            insert_all_by_key(&mut out, l, Ghost(f));
        },
        None => {},
    }
    out
}

/// What the combined items hold for a key: the item of `later` with that
/// key if there is one, else that of `first`; keys in neither are absent.
pub proof fn lemma_later_overrides<T: Keyed>(first: Seq<T>, later: Seq<T>, k: Seq<char>)
    ensures
        by_key(later).dom().contains(k) ==> by_key(first + later).dom().contains(k) && by_key(
            first + later,
        )[k] == by_key(later)[k],
        !by_key(later).dom().contains(k) ==> (by_key(first + later).dom().contains(k)
            == by_key(first).dom().contains(k) && (by_key(first).dom().contains(k) ==> by_key(
            first + later,
        )[k] == by_key(first)[k])),
    decreases later.len(),
{
    if later.len() == 0 {
        assert(first + later =~= first);
    } else {
        let u = later.drop_last();
        assert((first + later).drop_last() =~= first + u);
        lemma_later_overrides(first, u, k);
    }
}

} // verus!
