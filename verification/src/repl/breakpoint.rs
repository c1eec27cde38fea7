//! Parsing of breakpoint locations and their modifiers:
//! `<file>:<line> [if EXPR] [hit N] [log MSG]`.
use vstd::prelude::*;
use crate::num::{parse_i64, parse_i64_in};
use crate::repl::actions::BreakpointAction;
use crate::text::{
    chars_of, find, find_char_in, find_in, find_ws_in, join, join_words, lemma_find_from_facts,
    lemma_lead_ws_bound, lemma_lead_ws_is, lemma_trail_ws_bound, lemma_trail_ws_is, is_ws,
    lead_ws, occurs_at, contains, owned, range_starts_with, skip_ws, split_once_char,
    split_once_ws, string_of, string_of_range, strip_prefix, trim,
    trim_range, trim_start, views, words, words_in,
};

verus! {

/// Client-side modifiers of a source breakpoint.
#[derive(Debug, Clone, PartialEq, Eq, Default)]
pub struct BreakpointOptions {
    pub condition: Option<String>,
    pub hit_condition: Option<String>,
    pub log_message: Option<String>,
}

/// A breakpoint command addressed to a source line.
#[derive(Debug, Clone, PartialEq, Eq)]
pub struct BreakpointRequest {
    pub path: String,
    pub line: i64,
    pub action: BreakpointAction,
    pub options: BreakpointOptions,
}

/// The modifiers as character sequences.
pub struct OptionsView {
    pub condition: Option<Seq<char>>,
    pub hit_condition: Option<Seq<char>>,
    pub log_message: Option<Seq<char>>,
}

impl View for BreakpointOptions {
    type V = OptionsView;

    open spec fn view(&self) -> OptionsView {
        OptionsView {
            condition: self.condition.deep_view(),
            hit_condition: self.hit_condition.deep_view(),
            log_message: self.log_message.deep_view(),
        }
    }
}

pub open spec fn no_options() -> OptionsView {
    OptionsView { condition: None, hit_condition: None, log_message: None }
}

impl BreakpointOptions {
    /// No condition, no hit count, no log message.
    pub fn none() -> (o: Self)
        ensures
            o@ == no_options(),
    {
        BreakpointOptions { condition: None, hit_condition: None, log_message: None }
    }
}

/// Earliest index at which any of `kws` occurs in `t`.
pub open spec fn earliest(t: Seq<char>, kws: Seq<Seq<char>>) -> Option<int>
    decreases kws.len(),
{
    if kws.len() == 0 {
        None
    } else {
        let prev = earliest(t, kws.drop_last());
        match find(t, kws.last()) {
            None => prev,
            Some(i) => match prev {
                Some(p) => if i < p {
                    Some(i)
                } else {
                    Some(p)
                },
                None => Some(i),
            },
        }
    }
}

/// Splits `t` before the earliest keyword; the second half has leading whitespace removed.
pub open spec fn take_until_keyword_spec(t: Seq<char>, kws: Seq<Seq<char>>) -> (
    Seq<char>,
    Seq<char>,
) {
    match earliest(t, kws) {
        Some(i) => (t.take(i), trim_start(t.skip(i))),
        None => (t, Seq::empty()),
    }
}

pub proof fn lemma_earliest_bound(t: Seq<char>, kws: Seq<Seq<char>>)
    ensures
        earliest(t, kws) matches Some(i) ==> 0 <= i <= t.len(),
    decreases kws.len(),
{
    if kws.len() > 0 {
        lemma_earliest_bound(t, kws.drop_last());
        lemma_find_from_facts(t, kws.last(), 0);
    }
}

pub proof fn lemma_take_until_shorter(t: Seq<char>, kws: Seq<Seq<char>>)
    ensures
        take_until_keyword_spec(t, kws).1.len() <= t.len(),
{
    lemma_earliest_bound(t, kws);
    if let Some(i) = earliest(t, kws) {
        lemma_lead_ws_bound(t.skip(i));
    }
}

pub open spec fn if_kws() -> Seq<Seq<char>> {
    seq![" hit "@, " log "@]
}

pub open spec fn hit_kws() -> Seq<Seq<char>> {
    seq![" if "@, " log "@]
}

/// The modifier loop: `rem` is what is left of the text, `o` what was read so far.
pub open spec fn options_from(rem: Seq<char>, o: OptionsView) -> OptionsView
    decreases rem.len(),
{
    if rem.len() == 0 {
        o
    } else {
        let rest = trim_start(rem);
        proof {
            lemma_lead_ws_bound(rem);
        }
        match strip_prefix(rest, "if "@) {
            Some(tail) => {
                let (value, next) = take_until_keyword_spec(tail, if_kws());
                proof {
                    reveal_strlit("if ");
                    lemma_take_until_shorter(tail, if_kws());
                }
                options_from(next, OptionsView { condition: Some(trim(value)), ..o })
            },
            None => match strip_prefix(rest, "hit "@) {
                Some(tail) => {
                    let (value, next) = take_until_keyword_spec(tail, hit_kws());
                    proof {
                        reveal_strlit("hit ");
                        lemma_take_until_shorter(tail, hit_kws());
                    }
                    options_from(next, OptionsView { hit_condition: Some(trim(value)), ..o })
                },
                None => match strip_prefix(rest, "log "@) {
                    Some(tail) => OptionsView { log_message: Some(trim(tail)), ..o },
                    None => if o.condition is None && o.hit_condition is None
                        && o.log_message is None {
                        OptionsView { log_message: Some(rest), ..o }
                    } else {
                        o
                    },
                },
            },
        }
    }
}

/// Modifiers read from `text`: `if EXPR`, `hit N` and `log MSG` in any order
/// (`log` takes the rest of the text); text that starts with none of them is a
/// log message.
pub open spec fn parse_options_spec(text: Seq<char>) -> OptionsView {
    options_from(trim(text), no_options())
}

/// A trimmed, non-empty text starts and ends with a non-space.
proof fn lemma_trimmed_ends(s: Seq<char>)
    requires
        trim(s) == s,
        s.len() > 0,
    ensures
        !is_ws(s[0]),
        !is_ws(s[s.len() - 1]),
{
    lemma_lead_ws_bound(s);
    lemma_trail_ws_bound(trim_start(s));
    assert(lead_ws(s) == 0);
    assert(trim_start(s) =~= s);
}

/// The value of the first modifier of `first + value + sep + other`: with
/// `first` and `sep` the keyword texts, `value` is taken up to the keyword
/// that follows it, and reading goes on at that keyword.
proof fn lemma_modifier_step(value: Seq<char>, sep: Seq<char>, rest: Seq<char>, kws: Seq<Seq<char>>)
    requires
        earliest(value + sep + rest, kws) == Some(value.len() as int),
        sep.len() >= 2,
        sep[0] == ' ',
        !is_ws(sep[1]),
    ensures
        take_until_keyword_spec(value + sep + rest, kws) == (value, sep.skip(1) + rest),
{
    let t = value + sep + rest;
    assert(t.take(value.len() as int) =~= value);
    let u = t.skip(value.len() as int);
    assert(u =~= sep + rest);
    lemma_lead_ws_is(u, 1);
    assert(u.skip(1) =~= sep.skip(1) + rest);
}

/// `if A hit B` and `hit B if A` give condition `A` and hit condition `B`
/// when each of `A` and `B` ends at the keyword that follows it and holds
/// no keyword of its own.
proof fn lemma_options_order(a: Seq<char>, b: Seq<char>)
    requires
        a.len() > 0,
        b.len() > 0,
        trim(a) == a,
        trim(b) == b,
        earliest(a + " hit "@ + b, if_kws()) == Some(a.len() as int),
        earliest(b + " if "@ + a, hit_kws()) == Some(b.len() as int),
        earliest(a, if_kws()) is None,
        earliest(b, hit_kws()) is None,
    ensures
        parse_options_spec("if "@ + a + " hit "@ + b) == (OptionsView {
            condition: Some(a),
            hit_condition: Some(b),
            log_message: None,
        }),
        parse_options_spec("hit "@ + b + " if "@ + a) == (OptionsView {
            condition: Some(a),
            hit_condition: Some(b),
            log_message: None,
        }),
{
    lemma_if_then_hit(a, b);
    lemma_hit_then_if(a, b);
}

proof fn lemma_if_then_hit(a: Seq<char>, b: Seq<char>)
    requires
        a.len() > 0,
        b.len() > 0,
        trim(a) == a,
        trim(b) == b,
        earliest(a + " hit "@ + b, if_kws()) == Some(a.len() as int),
        earliest(b, hit_kws()) is None,
    ensures
        parse_options_spec("if "@ + a + " hit "@ + b) == (OptionsView {
            condition: Some(a),
            hit_condition: Some(b),
            log_message: None,
        }),
{
    reveal_strlit("if ");
    reveal_strlit("hit ");
    reveal_strlit(" hit ");
    lemma_trimmed_ends(b);
    let t1 = "if "@ + a + " hit "@ + b;
    assert(t1[0] == 'i' && t1[t1.len() - 1] == b[b.len() - 1]);
    lemma_lead_ws_is(t1, 0);
    lemma_trail_ws_is(t1, 0);
    assert(trim_start(t1) =~= t1);
    assert(trim(t1) =~= t1);
    assert(t1.take(3) =~= "if "@);
    assert(t1.skip(3) =~= a + " hit "@ + b);
    lemma_modifier_step(a, " hit "@, b, if_kws());
    let h1 = "hit "@ + b;
    assert(" hit "@.skip(1) =~= "hit "@);
    assert(h1[0] == 'h');
    lemma_lead_ws_is(h1, 0);
    assert(trim_start(h1) =~= h1);
    assert(h1.take(3) != "if "@) by {
        assert(h1.take(3)[0] == 'h');
    }
    assert(h1.take(4) =~= "hit "@);
    assert(h1.skip(4) =~= b);
    let o1 = OptionsView { condition: Some(trim(a)), ..no_options() };
    assert(take_until_keyword_spec(b, hit_kws()) == (b, Seq::<char>::empty()));
    let f1 = OptionsView { hit_condition: Some(trim(b)), ..o1 };
    assert(options_from(Seq::<char>::empty(), f1) == f1);
    assert(strip_prefix(h1, "if "@) is None);
    assert(strip_prefix(h1, "hit "@) == Some(b));
    assert(options_from(h1, o1) == f1);
    assert(options_from(t1, no_options()) == options_from(h1, o1));
}

proof fn lemma_hit_then_if(a: Seq<char>, b: Seq<char>)
    requires
        a.len() > 0,
        b.len() > 0,
        trim(a) == a,
        trim(b) == b,
        earliest(b + " if "@ + a, hit_kws()) == Some(b.len() as int),
        earliest(a, if_kws()) is None,
    ensures
        parse_options_spec("hit "@ + b + " if "@ + a) == (OptionsView {
            condition: Some(a),
            hit_condition: Some(b),
            log_message: None,
        }),
{
    reveal_strlit("if ");
    reveal_strlit("hit ");
    reveal_strlit(" if ");
    lemma_trimmed_ends(a);
    let t2 = "hit "@ + b + " if "@ + a;
    assert(t2[0] == 'h' && t2[t2.len() - 1] == a[a.len() - 1]);
    lemma_lead_ws_is(t2, 0);
    lemma_trail_ws_is(t2, 0);
    assert(trim_start(t2) =~= t2);
    assert(trim(t2) =~= t2);
    assert(t2.take(3) != "if "@) by {
        assert(t2.take(3)[0] == 'h');
    }
    assert(t2.take(4) =~= "hit "@);
    assert(t2.skip(4) =~= b + " if "@ + a);
    lemma_modifier_step(b, " if "@, a, hit_kws());
    let i2 = "if "@ + a;
    assert(" if "@.skip(1) =~= "if "@);
    assert(i2[0] == 'i');
    lemma_lead_ws_is(i2, 0);
    assert(trim_start(i2) =~= i2);
    assert(i2.take(3) =~= "if "@);
    assert(i2.skip(3) =~= a);
    let o2 = OptionsView { hit_condition: Some(trim(b)), ..no_options() };
    assert(take_until_keyword_spec(a, if_kws()) == (a, Seq::<char>::empty()));
    let f2 = OptionsView { condition: Some(trim(a)), ..o2 };
    assert(options_from(Seq::<char>::empty(), f2) == f2);
    assert(strip_prefix(i2, "if "@) == Some(a));
    assert(options_from(i2, o2) == f2);
    assert(options_from(t2, no_options()) == options_from(i2, o2));
}


/// No word of `a` is one of the modifier keywords `if`, `hit`, `log`.
pub open spec fn no_keyword_word(a: Seq<char>) -> bool {
    &&& !contains(" "@ + a + " "@, " if "@)
    &&& !contains(" "@ + a + " "@, " hit "@)
    &&& !contains(" "@ + a + " "@, " log "@)
}

/// A keyword that is no word of `a` occurs nowhere in `a`.
proof fn lemma_kw_not_in(a: Seq<char>, o: Seq<char>)
    requires
        !contains(" "@ + a + " "@, o),
    ensures
        forall|p: int| !#[trigger] occurs_at(a, o, p),
{
    let u = " "@ + a + " "@;
    reveal_strlit(" ");
    lemma_find_from_facts(u, o, 0);
    assert forall|p: int| !#[trigger] occurs_at(a, o, p) by {
        if occurs_at(a, o, p) {
            assert(u.subrange(p + 1, p + 1 + o.len()) =~= a.subrange(p, p + o.len()));
            assert(occurs_at(u, o, p + 1));
        }
    }
}

/// In `a + rest`, with `rest` starting with a space, a keyword that is no
/// word of `a` does not start inside `a`.
proof fn lemma_kw_not_before(a: Seq<char>, rest: Seq<char>, o: Seq<char>)
    requires
        a.len() > 0,
        a[0] != ' ',
        rest.len() > 0,
        rest[0] == ' ',
        o.len() >= 2,
        o[0] == ' ',
        o[o.len() - 1] == ' ',
        forall|j: int| 0 < j < o.len() - 1 ==> #[trigger] o[j] != ' ',
        !contains(" "@ + a + " "@, o),
    ensures
        forall|p: int| 0 <= p < a.len() ==> !#[trigger] occurs_at(a + rest, o, p),
{
    let t = a + rest;
    let u = " "@ + a + " "@;
    reveal_strlit(" ");
    lemma_find_from_facts(u, o, 0);
    assert forall|p: int| 0 <= p < a.len() implies !#[trigger] occurs_at(t, o, p) by {
        if occurs_at(t, o, p) {
            let w = t.subrange(p, p + o.len());
            assert(w[0] == t[p]);
            assert(p != 0);
            if p + o.len() - 1 != a.len() {
                if p + o.len() - 1 > a.len() {
                    let j = a.len() - p;
                    assert(w[j] == t[a.len() as int]);
                    assert(t[a.len() as int] == rest[0]);
                    assert(o[j] != ' ');
                } else {
                    assert(w[o.len() - 1] == t[p + o.len() - 1]);
                    assert(t[p + o.len() - 1] == a[p + o.len() - 1]);
                    assert(u.subrange(p + 1, p + 1 + o.len()) =~= w);
                    assert(occurs_at(u, o, p + 1));
                }
            } else {
                assert(u.subrange(p + 1, p + 1 + o.len()) =~= w) by {
                    assert forall|k: int| 0 <= k < o.len() implies #[trigger] u.subrange(
                        p + 1,
                        p + 1 + o.len(),
                    )[k] == w[k] by {
                        if k < o.len() - 1 {
                            assert(u[p + 1 + k] == a[p + k]);
                            assert(t[p + k] == a[p + k]);
                        } else {
                            assert(u[p + 1 + k] == ' ');
                            assert(t[p + k] == rest[0]);
                        }
                    }
                }
                assert(occurs_at(u, o, p + 1));
            }
        }
    }
}

/// Where a keyword first occurs in `a + rest`, when it occurs at the end
/// of `a` and is no word of `a`.
proof fn lemma_kw_found_at(a: Seq<char>, rest: Seq<char>, o: Seq<char>)
    requires
        a.len() > 0,
        a[0] != ' ',
        rest.len() > 0,
        rest[0] == ' ',
        o.len() >= 2,
        o[0] == ' ',
        o[o.len() - 1] == ' ',
        forall|j: int| 0 < j < o.len() - 1 ==> #[trigger] o[j] != ' ',
        !contains(" "@ + a + " "@, o),
    ensures
        occurs_at(a + rest, o, a.len() as int) ==> find(a + rest, o) == Some(a.len() as int),
        !occurs_at(a + rest, o, a.len() as int) ==> match find(a + rest, o) {
            Some(q) => q > a.len(),
            None => true,
        },
{
    lemma_kw_not_before(a, rest, o);
    lemma_find_from_facts(a + rest, o, 0);
    if let Some(q) = find(a + rest, o) {
        assert(occurs_at(a + rest, o, q));
    }
}

proof fn lemma_earliest_pair(t: Seq<char>, x: Seq<char>, y: Seq<char>)
    ensures
        earliest(t, seq![x, y]) == match (find(t, x), find(t, y)) {
            (Some(i), Some(j)) => if j < i {
                Some(j)
            } else {
                Some(i)
            },
            (Some(i), None) => Some(i),
            (None, Some(j)) => Some(j),
            (None, None) => None,
        },
{
    assert(seq![x, y].drop_last() =~= seq![x]);
    assert(seq![x].drop_last() =~= Seq::<Seq<char>>::empty());
    assert(seq![x, y].last() == y);
    assert(seq![x].last() == x);
    assert(earliest(t, Seq::<Seq<char>>::empty()) is None);
    assert(earliest(t, seq![x]) == find(t, x));
}

/// A text that holds no keyword word splits nowhere.
proof fn lemma_no_split(a: Seq<char>, x: Seq<char>, y: Seq<char>)
    requires
        !contains(" "@ + a + " "@, x),
        !contains(" "@ + a + " "@, y),
    ensures
        earliest(a, seq![x, y]) is None,
{
    lemma_kw_not_in(a, x);
    lemma_kw_not_in(a, y);
    lemma_find_from_facts(a, x, 0);
    lemma_find_from_facts(a, y, 0);
    lemma_earliest_pair(a, x, y);
}

/// `if` and `hit` may come in either order: for trimmed, non-empty `A` and
/// `B` none of whose words is a modifier keyword, `if A hit B` and
/// `hit B if A` both give condition `A`, hit condition `B` and no log
/// message. A text that is blank gives no modifiers.
pub proof fn lemma_options_in_either_order(a: Seq<char>, b: Seq<char>)
    requires
        a.len() > 0,
        b.len() > 0,
        trim(a) == a,
        trim(b) == b,
        no_keyword_word(a),
        no_keyword_word(b),
    ensures
        parse_options_spec("if "@ + a + " hit "@ + b) == (OptionsView {
            condition: Some(a),
            hit_condition: Some(b),
            log_message: None,
        }),
        parse_options_spec("hit "@ + b + " if "@ + a) == (OptionsView {
            condition: Some(a),
            hit_condition: Some(b),
            log_message: None,
        }),
{
    reveal_strlit(" if ");
    reveal_strlit(" hit ");
    reveal_strlit(" log ");
    lemma_trimmed_ends(a);
    lemma_trimmed_ends(b);
    let ta = a + " hit "@ + b;
    let tb = b + " if "@ + a;
    assert(a + " hit "@ + b =~= a + (" hit "@ + b));
    assert(b + " if "@ + a =~= b + (" if "@ + a));
    lemma_kw_found_at(a, " hit "@ + b, " hit "@);
    lemma_kw_found_at(a, " hit "@ + b, " log "@);
    assert(occurs_at(a + (" hit "@ + b), " hit "@, a.len() as int)) by {
        assert((a + (" hit "@ + b)).subrange(a.len() as int, a.len() as int + 5) =~= " hit "@);
    }
    assert(!occurs_at(a + (" hit "@ + b), " log "@, a.len() as int)) by {
        assert((a + (" hit "@ + b))[a.len() as int + 1] == 'h');
        assert((a + (" hit "@ + b)).subrange(a.len() as int, a.len() as int + 5)[1] == 'h');
    }
    lemma_earliest_pair(ta, " hit "@, " log "@);
    lemma_kw_found_at(b, " if "@ + a, " if "@);
    lemma_kw_found_at(b, " if "@ + a, " log "@);
    assert(occurs_at(b + (" if "@ + a), " if "@, b.len() as int)) by {
        assert((b + (" if "@ + a)).subrange(b.len() as int, b.len() as int + 4) =~= " if "@);
    }
    assert(!occurs_at(b + (" if "@ + a), " log "@, b.len() as int)) by {
        if b.len() + 5 <= (b + (" if "@ + a)).len() {
            assert((b + (" if "@ + a))[b.len() as int + 1] == 'i');
            assert((b + (" if "@ + a)).subrange(b.len() as int, b.len() as int + 5)[1] == 'i');
        }
    }
    lemma_earliest_pair(tb, " if "@, " log "@);
    lemma_no_split(a, " hit "@, " log "@);
    lemma_no_split(b, " if "@, " log "@);
    lemma_options_order(a, b);
}

/// A blank text gives no modifiers.
pub proof fn lemma_blank_options(text: Seq<char>)
    requires
        trim(text).len() == 0,
    ensures
        parse_options_spec(text) == no_options(),
{
}

pub type LineOptionsView = Result<(int, OptionsView), Seq<char>>;

pub type LocationView = Result<(Seq<char>, int, OptionsView), Seq<char>>;

/// `<line> [modifiers]`, after the colon of a location.
pub open spec fn parse_line_and_options_spec(rest: Seq<char>) -> LineOptionsView {
    let r = trim(rest);
    if r.len() == 0 {
        Err("line number required"@)
    } else {
        match split_once_ws(r) {
            Some((line_text, options_text)) => match parse_i64(line_text) {
                Some(line) => Ok((line, parse_options_spec(options_text))),
                None => Err("invalid line number in break location"@),
            },
            None => match parse_i64(r) {
                Some(line) => Ok((line, no_options())),
                None => Err("invalid line number in break location"@),
            },
        }
    }
}

/// `<file>:<line> [modifiers]` or `<file> <line> [modifiers]`.
pub open spec fn parse_break_location_spec(rest: Seq<char>) -> LocationView {
    if rest.len() == 0 {
        Err("usage: break <file>:<line> [if EXPR] [hit N] [log MSG]"@)
    } else {
        match split_once_char(rest, ':') {
            Some((path, after)) => match parse_line_and_options_spec(after) {
                Ok((line, options)) => Ok((path, line, options)),
                Err(e) => Err(e),
            },
            None => {
                let parts = words(rest);
                if parts.len() < 2 {
                    Err("line number required"@)
                } else {
                    match parse_i64(parts[1]) {
                        None => Err("invalid line number"@),
                        Some(line) => if parts.len() == 2 {
                            Ok((parts[0], line, no_options()))
                        } else {
                            Ok((parts[0], line, parse_options_spec(join(parts.skip(2), " "@))))
                        },
                    }
                }
            },
        }
    }
}

pub open spec fn location_view(r: Result<(String, i64, BreakpointOptions), String>) -> LocationView {
    match r {
        Ok((p, l, o)) => Ok((p@, l as int, o@)),
        Err(e) => Err(e@),
    }
}

pub open spec fn line_options_view(r: Result<(i64, BreakpointOptions), String>) -> LineOptionsView {
    match r {
        Ok((l, o)) => Ok((l as int, o@)),
        Err(e) => Err(e@),
    }
}

/// Earliest occurrence in `v[lo..hi]` of any keyword in `kws`.
fn earliest_in(v: &Vec<char>, lo: usize, hi: usize, kws: &Vec<Vec<char>>) -> (r: Option<usize>)
    requires
        lo <= hi <= v.len(),
    ensures
        r matches Some(k) ==> earliest(v@.subrange(lo as int, hi as int), views(kws@)) == Some(
            k as int,
        ) && lo + k <= hi,
        r is None ==> earliest(v@.subrange(lo as int, hi as int), views(kws@)) is None,
{
    let ghost t = v@.subrange(lo as int, hi as int);
    let mut best: Option<usize> = None;
    let mut j: usize = 0;
    while j < kws.len()
        invariant
            t == v@.subrange(lo as int, hi as int),
            lo <= hi <= v.len(),
            j <= kws.len(),
            best matches Some(k) ==> earliest(t, views(kws@).take(j as int)) == Some(k as int)
                && lo + k <= hi,
            best is None ==> earliest(t, views(kws@).take(j as int)) is None,
        decreases kws.len() - j,
    {
        let ghost ks = views(kws@).take(j as int + 1);
        assert(ks.drop_last() =~= views(kws@).take(j as int));
        assert(ks.last() == kws@[j as int]@);
        match find_in(v, lo, hi, &kws[j]) {
            None => {},
            Some(i) => {
                match best {
                    Some(p) => {
                        if i < p {
                            best = Some(i);
                        }
                    },
                    None => {
                        best = Some(i);
                    },
                }
            },
        }
        j = j + 1;
    }
    assert(views(kws@).take(kws.len() as int) =~= views(kws@));
    best
}

/// `take_until_keyword` on `v[lo..hi]`: the split index and the start of the tail.
fn take_until_in(v: &Vec<char>, lo: usize, hi: usize, kws: &Vec<Vec<char>>) -> (r: (usize, usize))
    requires
        lo <= hi <= v.len(),
    ensures
        lo <= r.0 <= r.1 <= hi,
        take_until_keyword_spec(v@.subrange(lo as int, hi as int), views(kws@)) == (
            v@.subrange(lo as int, r.0 as int),
            v@.subrange(r.1 as int, hi as int),
        ),
{
    let ghost t = v@.subrange(lo as int, hi as int);
    match earliest_in(v, lo, hi, kws) {
        Some(k) => {
            let s = skip_ws(v, lo + k, hi);
            assert(t.take(k as int) =~= v@.subrange(lo as int, lo + k));
            assert(t.skip(k as int) =~= v@.subrange(lo + k, hi as int));
            proof {
                lemma_lead_ws_bound(v@.subrange(lo + k, hi as int));
            }
            assert(trim_start(t.skip(k as int)) =~= v@.subrange(s as int, hi as int));
            (lo + k, s)
        },
        None => {
            assert(t.take(t.len() as int) =~= t);
            assert(v@.subrange(hi as int, hi as int) =~= Seq::<char>::empty());
            (hi, hi)
        },
    }
}

/// Splits `text` before the earliest occurrence of any keyword; the second
/// part starts at that keyword, with leading whitespace removed.
pub fn take_until_keyword(text: &str, keywords: &[&str]) -> (r: (String, String))
    ensures
        (r.0@, r.1@) == take_until_keyword_spec(text@, keywords@.map_values(|k: &str| k@)),
{
    let v = chars_of(text);
    let mut kws: Vec<Vec<char>> = Vec::new();
    let mut j: usize = 0;
    while j < keywords.len()
        invariant
            j <= keywords.len(),
            views(kws@) == keywords@.map_values(|k: &str| k@).take(j as int),
        decreases keywords.len() - j,
    {
        let k = chars_of(keywords[j]);
        let ghost mapped = keywords@.map_values(|k: &str| k@);
        assert(mapped[j as int] == keywords@[j as int]@);
        assert(keywords@[j as int] == keywords[j as int]);
        let ghost old_views = views(kws@);
        kws.push(k);
        assert(views(kws@) =~= old_views.push(k@));
        assert(mapped.take(j as int + 1) =~= mapped.take(j as int).push(mapped[j as int]));
        j = j + 1;
    }
    assert(keywords@.map_values(|k: &str| k@).take(keywords.len() as int) =~= keywords@.map_values(
        |k: &str| k@,
    ));
    let (a, b) = take_until_in(&v, 0, v.len(), &kws);
    assert(v@.subrange(0, v.len() as int) =~= v@);
    (string_of_range(&v, 0, a), string_of_range(&v, b, v.len()))
}

fn lit_chars(s: &str) -> (v: Vec<char>)
    ensures
        v@ == s@,
{
    chars_of(s)
}

fn keyword_pair(a: &str, b: &str) -> (r: Vec<Vec<char>>)
    ensures
        views(r@) == seq![a@, b@],
{
    let mut r: Vec<Vec<char>> = Vec::new();
    r.push(chars_of(a));
    r.push(chars_of(b));
    assert(views(r@) =~= seq![a@, b@]);
    r
}

/// Modifiers read from `v[lo..hi]`.
pub fn options_in(v: &Vec<char>, lo: usize, hi: usize) -> (o: BreakpointOptions)
    requires
        lo <= hi <= v.len(),
    ensures
        o@ == parse_options_spec(v@.subrange(lo as int, hi as int)),
{
    let (a, b) = trim_range(v, lo, hi);
    let if_p = lit_chars("if ");
    let hit_p = lit_chars("hit ");
    let log_p = lit_chars("log ");
    let if_k = keyword_pair(" hit ", " log ");
    let hit_k = keyword_pair(" if ", " log ");
    proof {
        reveal_strlit("if ");
        reveal_strlit("hit ");
        reveal_strlit("log ");
    }
    let mut o = BreakpointOptions::none();
    let mut i = a;
    loop
        invariant_except_break
            lo <= a <= i <= b <= hi <= v.len(),
            if_p@ == "if "@,
            hit_p@ == "hit "@,
            log_p@ == "log "@,
            views(if_k@) == if_kws(),
            views(hit_k@) == hit_kws(),
            "if "@.len() == 3,
            "hit "@.len() == 4,
            "log "@.len() == 4,
            parse_options_spec(v@.subrange(lo as int, hi as int)) == options_from(
                v@.subrange(i as int, b as int),
                o@,
            ),
        ensures
            parse_options_spec(v@.subrange(lo as int, hi as int)) == o@,
        decreases b - i,
    {
        let ghost rem = v@.subrange(i as int, b as int);
        if i == b {
            break ;
        }
        let r = skip_ws(v, i, b);
        let ghost rest = v@.subrange(r as int, b as int);
        proof {
            lemma_lead_ws_bound(rem);
        }
        assert(trim_start(rem) =~= rest);
        if range_starts_with(v, r, b, &if_p) {
            assert(rest.skip(3) =~= v@.subrange(r + 3, b as int));
            let (e, n) = take_until_in(v, r + 3, b, &if_k);
            let (c0, c1) = trim_range(v, r + 3, e);
            o.condition = Some(string_of_range(v, c0, c1));
            i = n;
        } else if range_starts_with(v, r, b, &hit_p) {
            assert(rest.skip(4) =~= v@.subrange(r + 4, b as int));
            let (e, n) = take_until_in(v, r + 4, b, &hit_k);
            let (c0, c1) = trim_range(v, r + 4, e);
            o.hit_condition = Some(string_of_range(v, c0, c1));
            i = n;
        } else if range_starts_with(v, r, b, &log_p) {
            assert(rest.skip(4) =~= v@.subrange(r + 4, b as int));
            let (c0, c1) = trim_range(v, r + 4, b);
            o.log_message = Some(string_of_range(v, c0, c1));
            assert(v@.subrange(b as int, b as int) =~= Seq::<char>::empty());
            i = b;
        } else {
            if o.condition.is_none() && o.hit_condition.is_none() && o.log_message.is_none() {
                o.log_message = Some(string_of_range(v, r, b));
            }
            break ;
        }
    }
    o
}

/// Parses breakpoint modifiers (`if EXPR`, `hit N`, `log MSG`).
pub fn parse_options_text(text: &str) -> (r: Result<BreakpointOptions, String>)
    ensures
        r matches Ok(o) && o@ == parse_options_spec(text@),
{
    let v = chars_of(text);
    let o = options_in(&v, 0, v.len());
    assert(v@.subrange(0, v.len() as int) =~= v@);
    Ok(o)
}

/// `<line> [modifiers]` read from `v[lo..hi]`.
fn line_and_options_in(v: &Vec<char>, lo: usize, hi: usize) -> (r: Result<
    (i64, BreakpointOptions),
    String,
>)
    requires
        lo <= hi <= v.len(),
    ensures
        line_options_view(r) == parse_line_and_options_spec(v@.subrange(lo as int, hi as int)),
{
    let (a, b) = trim_range(v, lo, hi);
    let ghost r0 = v@.subrange(a as int, b as int);
    if a == b {
        return Err(owned("line number required"));
    }
    match find_ws_in(v, a, b) {
        Some(k) => {
            assert(r0.take(k as int) =~= v@.subrange(a as int, a + k));
            assert(r0.skip(k + 1) =~= v@.subrange(a + k + 1, b as int));
            match parse_i64_in(v, a, a + k) {
                Some(line) => {
                    let o = options_in(v, a + k + 1, b);
                    Ok((line, o))
                },
                None => Err(owned("invalid line number in break location")),
            }
        },
        None => match parse_i64_in(v, a, b) {
            Some(line) => Ok((line, BreakpointOptions::none())),
            None => Err(owned("invalid line number in break location")),
        },
    }
}

/// `<file>:<line> [modifiers]` or `<file> <line> [modifiers]` read from `v[lo..hi]`.
pub fn break_location_in(v: &Vec<char>, lo: usize, hi: usize) -> (r: Result<
    (String, i64, BreakpointOptions),
    String,
>)
    requires
        lo <= hi <= v.len(),
    ensures
        location_view(r) == parse_break_location_spec(v@.subrange(lo as int, hi as int)),
{
    let ghost s = v@.subrange(lo as int, hi as int);
    if lo == hi {
        return Err(owned("usage: break <file>:<line> [if EXPR] [hit N] [log MSG]"));
    }
    match find_char_in(v, lo, hi, ':') {
        Some(k) => {
            assert(s.take(k as int) =~= v@.subrange(lo as int, lo + k));
            assert(s.skip(k + 1) =~= v@.subrange(lo + k + 1, hi as int));
            match line_and_options_in(v, lo + k + 1, hi) {
                Ok((line, options)) => Ok((string_of_range(v, lo, lo + k), line, options)),
                Err(e) => Err(e),
            }
        },
        None => {
            let parts = words_in(v, lo, hi);
            if parts.len() < 2 {
                return Err(owned("line number required"));
            }
            assert(views(parts@)[1] == parts@[1]@);
            assert(views(parts@)[0] == parts@[0]@);
            match parse_i64_in(&parts[1], 0, parts[1].len()) {
                None => {
                    assert(parts@[1]@.subrange(0, parts@[1]@.len() as int) =~= parts@[1]@);
                    Err(owned("invalid line number"))
                },
                Some(line) => {
                    assert(parts@[1]@.subrange(0, parts@[1]@.len() as int) =~= parts@[1]@);
                    let path = string_of(&parts[0]);
                    if parts.len() == 2 {
                        Ok((path, line, BreakpointOptions::none()))
                    } else {
                        let sep = lit_chars(" ");
                        let joined = join_words(&parts, 2, &sep);
                        let o = options_in(&joined, 0, joined.len());
                        assert(joined@.subrange(0, joined.len() as int) =~= joined@);
                        Ok((path, line, o))
                    }
                },
            }
        },
    }
}

/// Parses `LINE [options]`, the part of a break location after the file.
pub fn parse_line_and_options(rest: &str) -> (r: Result<(i64, BreakpointOptions), String>)
    ensures
        line_options_view(r) == parse_line_and_options_spec(rest@),
{
    let v = chars_of(rest);
    assert(v@.subrange(0, v.len() as int) =~= v@);
    line_and_options_in(&v, 0, v.len())
}

/// Parses a breakpoint location with optional modifiers.
pub fn parse_break_location(rest: &str) -> (r: Result<(String, i64, BreakpointOptions), String>)
    ensures
        location_view(r) == parse_break_location_spec(rest@),
{
    let v = chars_of(rest);
    assert(v@.subrange(0, v.len() as int) =~= v@);
    break_location_in(&v, 0, v.len())
}

/// Which modifiers of a breakpoint the client emulates because the adapter
/// lacks them.
#[derive(Debug, Clone, Copy, PartialEq, Eq, Default)]
pub struct ClientStopPolicy {
    pub condition: bool,
    pub hit: bool,
    pub log: bool,
}

/// A tracked source breakpoint with its modifiers and emulation state.
#[derive(Debug, PartialEq, Eq)]
pub struct BreakpointEntry {
    pub condition: Option<String>,
    pub hit_condition: Option<String>,
    pub log_message: Option<String>,
    pub hit_count: u32,
    pub emulated_condition: bool,
    pub emulated_hit: bool,
    pub emulated_log: bool,
}

pub(crate) fn clone_opt(o: &Option<String>) -> (r: Option<String>)
    ensures
        r == *o,
{
    match o {
        Some(s) => Some(s.clone()),
        None => None,
    }
}

impl Clone for BreakpointEntry {
    fn clone(&self) -> (r: Self)
        ensures
            r == *self,
    {
        BreakpointEntry {
            condition: clone_opt(&self.condition),
            hit_condition: clone_opt(&self.hit_condition),
            log_message: clone_opt(&self.log_message),
            hit_count: self.hit_count,
            emulated_condition: self.emulated_condition,
            emulated_hit: self.emulated_hit,
            emulated_log: self.emulated_log,
        }
    }
}

/// A fresh entry for a breakpoint with `options`, not hit yet, emulating
/// what `policy` says.
pub fn entry_from_options(options: &BreakpointOptions, policy: ClientStopPolicy) -> (r: BreakpointEntry)
    ensures
        r.condition == options.condition,
        r.hit_condition == options.hit_condition,
        r.log_message == options.log_message,
        r.hit_count == 0,
        r.emulated_condition == policy.condition,
        r.emulated_hit == policy.hit,
        r.emulated_log == policy.log,
{
    BreakpointEntry {
        condition: clone_opt(&options.condition),
        hit_condition: clone_opt(&options.hit_condition),
        log_message: clone_opt(&options.log_message),
        hit_count: 0,
        emulated_condition: policy.condition,
        emulated_hit: policy.hit,
        emulated_log: policy.log,
    }
}

} // verus!
