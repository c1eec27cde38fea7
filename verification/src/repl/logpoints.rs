//! Log point messages the client writes itself: a template whose `{expr}`
//! parts are replaced by the values of the expressions.
use vstd::prelude::*;
use crate::repl::lists::texts;
use crate::text::{
    append, chars_of, find_char, find_char_in, lemma_find_from_facts, string_of_range, trim,
    trim_range,
};

verus! {

/// A piece of a log template: literal text, or an expression to evaluate
/// (trimmed).
#[derive(Debug, Clone, PartialEq, Eq)]
pub enum LogPart {
    Text(String),
    Expr(String),
}

/// A piece as (is an expression, text).
pub open spec fn part_view(p: LogPart) -> (bool, Seq<char>) {
    match p {
        LogPart::Text(t) => (false, t@),
        LogPart::Expr(e) => (true, e@),
    }
}

pub open spec fn parts_view(s: Seq<LogPart>) -> Seq<(bool, Seq<char>)> {
    s.map_values(|p: LogPart| part_view(p))
}

/// The pieces of a template: text up to a `{`, the trimmed expression up
/// to the next `}`, and so on; a `{` without a closing `}` is text, and so
/// is the rest after the last expression.
pub open spec fn log_parts(s: Seq<char>) -> Seq<(bool, Seq<char>)>
    decreases s.len(),
{
    match find_char(s, '{') {
        None => seq![(false, s)],
        Some(i) => {
            proof {
                lemma_find_from_facts(s, seq!['{'], 0);
            }
            if 0 <= i < s.len() {
                let after = s.skip(i + 1);
                match find_char(after, '}') {
                    None => seq![(false, s)],
                    Some(j) => {
                        proof {
                            lemma_find_from_facts(after, seq!['}'], 0);
                        }
                        if 0 <= j < after.len() {
                            seq![(false, s.take(i)), (true, trim(after.take(j)))] + log_parts(
                                after.skip(j + 1),
                            )
                        } else {
                            seq![(false, s)]
                        }
                    },
                }
            } else {
                seq![(false, s)]
            }
        },
    }
}

proof fn lemma_find_char_bounds(s: Seq<char>, c: char)
    ensures
        find_char(s, c) matches Some(i) ==> 0 <= i < s.len() && s[i] == c,
{
    lemma_find_from_facts(s, seq![c], 0);
    if let Some(i) = find_char(s, c) {
        assert(s.subrange(i, i + 1) == seq![c]);
        assert(s[i] == s.subrange(i, i + 1)[0]);
    }
}

/// Splits a log template into its pieces.
pub fn log_template(template: &str) -> (r: Vec<LogPart>)
    ensures
        parts_view(r@) == log_parts(template@),
{
    let v = chars_of(template);
    let n = v.len();
    let mut out: Vec<LogPart> = Vec::new();
    let mut pos: usize = 0;
    assert(v@.subrange(0, n as int) =~= v@);
    assert(parts_view(out@) =~= Seq::<(bool, Seq<char>)>::empty());
    assert(parts_view(out@) + log_parts(v@) =~= log_parts(v@));
    loop
        invariant
            pos <= n,
            n == v.len(),
            v@ == template@,
            parts_view(out@) + log_parts(v@.subrange(pos as int, n as int)) == log_parts(v@),
        decreases n - pos,
    {
        let ghost s = v@.subrange(pos as int, n as int);
        proof {
            lemma_find_char_bounds(s, '{');
        }
        match find_char_in(&v, pos, n, '{') {
            None => {
                let ghost before = out@;
                out.push(LogPart::Text(string_of_range(&v, pos, n)));
                proof {
                    assert(parts_view(out@) =~= parts_view(before).push((false, s)));
                    assert(parts_view(out@) =~= parts_view(before) + log_parts(s));
                }
                assert(parts_view(out@) == log_parts(v@));
                return out;
            },
            Some(i) => {
                let open_at = pos + i;
                let ghost after = s.skip(i + 1);
                proof {
                    assert(after =~= v@.subrange(open_at + 1, n as int));
                    lemma_find_char_bounds(after, '}');
                }
                match find_char_in(&v, open_at + 1, n, '}') {
                    None => {
                        let ghost before = out@;
                        out.push(LogPart::Text(string_of_range(&v, pos, n)));
                        proof {
                            assert(parts_view(out@) =~= parts_view(before) + log_parts(s));
                        }
                        return out;
                    },
                    Some(j) => {
                        let close_at = open_at + 1 + j;
                        let (a, b) = trim_range(&v, open_at + 1, close_at);
                        let ghost before = out@;
                        out.push(LogPart::Text(string_of_range(&v, pos, open_at)));
                        out.push(LogPart::Expr(string_of_range(&v, a, b)));
                        proof {
                            assert(s.take(i as int) =~= v@.subrange(pos as int, open_at as int));
                            assert(after.take(j as int) =~= v@.subrange(
                                open_at + 1,
                                close_at as int,
                            ));
                            assert(after.skip(j + 1) =~= v@.subrange(close_at + 1, n as int));
                            assert(log_parts(s) == seq![
                                (false, s.take(i as int)),
                                (true, trim(after.take(j as int))),
                            ] + log_parts(after.skip(j + 1)));
                            assert(parts_view(out@) =~= parts_view(before) + seq![
                                (false, s.take(i as int)),
                                (true, trim(after.take(j as int))),
                            ]);
                        }
                        pos = close_at + 1;
                    },
                }
            },
        }
    }
}

/// How many expressions the pieces hold.
pub open spec fn expr_count(p: Seq<(bool, Seq<char>)>) -> nat
    decreases p.len(),
{
    if p.len() == 0 {
        0
    } else {
        expr_count(p.drop_last()) + if p.last().0 {
            1nat
        } else {
            0nat
        }
    }
}

/// The message: the pieces in order, the `k`-th expression replaced by
/// `values[k]`.
pub open spec fn filled(p: Seq<(bool, Seq<char>)>, values: Seq<Seq<char>>) -> Seq<char>
    decreases p.len(),
{
    if p.len() == 0 {
        Seq::empty()
    } else {
        filled(p.drop_last(), values) + if p.last().0 {
            values[expr_count(p.drop_last()) as int]
        } else {
            p.last().1
        }
    }
}

/// The expressions of the pieces, in order.
pub fn log_expressions(parts: &Vec<LogPart>) -> (r: Vec<String>)
    ensures
        r@.len() == expr_count(parts_view(parts@)),
        forall|k: int|
            0 <= k < parts@.len() && parts_view(parts@)[k].0 ==> r@[expr_count(
                parts_view(parts@).take(k),
            ) as int]@ == #[trigger] parts_view(parts@)[k].1,
{
    let ghost pv = parts_view(parts@);
    let mut out: Vec<String> = Vec::new();
    let mut i: usize = 0;
    while i < parts.len()
        invariant
            i <= parts.len(),
            pv == parts_view(parts@),
            out@.len() == expr_count(pv.take(i as int)),
            forall|k: int|
                0 <= k < i && pv[k].0 ==> out@[expr_count(pv.take(k)) as int]@ == #[trigger] pv[k].1,
        decreases parts.len() - i,
    {
        proof {
            assert(pv.take((i + 1) as int).drop_last() =~= pv.take(i as int));
        }
        let ghost before = out@;
        match &parts[i] {
            LogPart::Expr(e) => {
                out.push(e.clone());
                proof {
                    assert(out@[before.len() as int]@ == pv[i as int].1);
                }
            },
            LogPart::Text(_) => {},
        }
        proof {
            assert forall|k: int| 0 <= k < i + 1 && pv[k].0 implies out@[expr_count(pv.take(k)) as int]@
                == #[trigger] pv[k].1 by {
                if k < i {
                    lemma_expr_count_prefix(pv.take(i as int), k + 1);
                    assert(pv.take(i as int).take(k + 1) =~= pv.take(k + 1));
                    assert(pv.take(i as int).take(k) =~= pv.take(k));
                    assert(out@[expr_count(pv.take(k)) as int] == before[expr_count(pv.take(k)) as int]);
                }
            }
        }
        i = i + 1;
    }
    assert(pv.take(parts.len() as int) =~= pv);
    out
}

/// The log message: the pieces in order, each expression replaced by its
/// value (`values` holds one value per expression, in order).
pub fn fill_log_message(parts: &Vec<LogPart>, values: &Vec<String>) -> (r: String)
    requires
        values@.len() >= expr_count(parts_view(parts@)),
    ensures
        r@ == filled(parts_view(parts@), texts(values@)),
{
    let ghost pv = parts_view(parts@);
    let mut out = String::new();
    let mut k: usize = 0;
    let mut i: usize = 0;
    while i < parts.len()
        invariant
            i <= parts.len(),
            pv == parts_view(parts@),
            values@.len() >= expr_count(pv),
            k == expr_count(pv.take(i as int)),
            out@ == filled(pv.take(i as int), texts(values@)),
        decreases parts.len() - i,
    {
        proof {
            assert(pv.take((i + 1) as int).drop_last() =~= pv.take(i as int));
            lemma_expr_count_prefix(pv, (i + 1) as int);
        }
        match &parts[i] {
            LogPart::Text(t) => {
                append(&mut out, t.as_str());
            },
            LogPart::Expr(_) => {
                assert(pv[i as int] == part_view(parts@[i as int]));
                assert(k < values.len());
                append(&mut out, values[k].as_str());
                k = k + 1;
            },
        }
        i = i + 1;
    }
    assert(pv.take(parts.len() as int) =~= pv);
    out
}

proof fn lemma_expr_count_prefix(p: Seq<(bool, Seq<char>)>, n: int)
    requires
        0 <= n <= p.len(),
    ensures
        expr_count(p.take(n)) <= expr_count(p),
        n > 0 && p[n - 1].0 ==> expr_count(p.take(n - 1)) < expr_count(p),
    decreases p.len() - n,
{
    if n > 0 {
        assert(p.take(n).drop_last() =~= p.take(n - 1));
        assert(p.take(n).last() == p[n - 1]);
    }
    if n < p.len() {
        lemma_expr_count_prefix(p, n + 1);
        assert(p.take(n + 1).drop_last() =~= p.take(n));
    } else {
        assert(p.take(n) =~= p);
    }
}

} // verus!
