//! What the debugger does when execution stops: keep the stop, continue
//! past it (entry stop, skipped frames, emulated breakpoint modifiers), log
//! and continue, or report a changed data watch. The adapter's answers the
//! decision reads (condition values, watch values, path matches) come in
//! with the stop.
use vstd::prelude::*;
use crate::data_watch::{baseline_view, data_watch_should_stop, watch_fires, DataWatchEntry};
use crate::repl::breakpoint::BreakpointEntry;
use crate::repl::context::{ReplContext, ReplSettings};
use crate::repl::lists::texts;
use crate::repl::logpoints::{
    expr_count, fill_log_message, filled, log_expressions, log_parts, log_template, parts_view,
};
use crate::text::{opt_view, owned, str_eq};
use crate::repl::exceptions::ExceptionBreakpointEntry;
use crate::sorted::{by_key, keys_sorted};

verus! {

/// What to do after a stop.
#[derive(Debug, Clone, PartialEq, Eq)]
pub enum StopAction {
    /// Keep the stop and show it.
    Stay,
    /// Continue past the stop.
    Continue,
    /// Print the message of an emulated logpoint and continue.
    LogAndContinue { message: String },
    /// An emulated data watch saw its value change.
    DataWatchHit { expression: String, value: String },
}

/// A stop as the decision sees it: where it stopped and what the adapter
/// answered to the questions the decision may ask.
#[derive(Debug, Clone)]
pub struct StopEvent {
    /// The `reason` of the `stopped` event.
    pub stop_reason: Option<String>,
    /// The line of the top frame.
    pub line: i64,
    /// For an exception stop: whether each client-evaluated exception
    /// condition held (see `emulated_exception_conditions`).
    pub exception_conditions: Vec<bool>,
    /// Whether the top frame's file is the file of the pending `goto`.
    pub at_goto_path: bool,
    /// Whether data watches are emulated (the adapter lacks data
    /// breakpoints).
    pub emulated_data_watches: bool,
    /// The current value of each data watch's expression, in the order of
    /// the watches.
    pub watch_values: Vec<String>,
    /// Whether smart stepping skips the top frame (runtime or dependency
    /// code).
    pub smart_step_skip: bool,
    /// Whether a skip-path pattern matches the top frame's file.
    pub skip_path_match: bool,
    /// The file under which a breakpoint at the top frame's line is
    /// stored, if any (the debugger's own breakpoints first, then the
    /// editor's).
    pub breakpoint_path: Option<String>,
    /// Whether the breakpoint's hit condition (`1` when it has none) holds
    /// for its hit count after this stop.
    pub hit_matches: bool,
    /// Whether the breakpoint's condition evaluated true.
    pub condition_true: bool,
    /// The values of the expressions of the breakpoint's log message, in
    /// order.
    pub log_values: Vec<String>,
}

/// A stop action as character sequences.
pub enum StopView {
    Stay,
    Continue,
    Log(Seq<char>),
    WatchHit(Seq<char>, Seq<char>),
}

pub open spec fn action_view(a: StopAction) -> StopView {
    match a {
        StopAction::Stay => StopView::Stay,
        StopAction::Continue => StopView::Continue,
        StopAction::LogAndContinue { message } => StopView::Log(message@),
        StopAction::DataWatchHit { expression, value } => StopView::WatchHit(expression@, value@),
    }
}

pub open spec fn reason_is(ev: &StopEvent, reason: Seq<char>) -> bool {
    opt_view(ev.stop_reason) == Some(reason)
}

/// The entry stop is continued past once, when that is asked for.
pub open spec fn entry_skipped(s: ReplSettings, ev: &StopEvent) -> bool {
    s.suppress_entry_stop && !s.suppress_entry_done && reason_is(ev, "entry"@)
}

/// An exception stop whose client-evaluated condition did not hold.
pub open spec fn exception_vetoed(ev: &StopEvent) -> bool {
    reason_is(ev, "exception"@) && exists|i: int|
        0 <= i < ev.exception_conditions@.len() && !#[trigger] ev.exception_conditions@[i]
}

/// The stop is at the target of the pending `goto`.
pub open spec fn goto_reached(goto: Option<(String, i64)>, ev: &StopEvent) -> bool {
    goto matches Some(g) && ev.at_goto_path && g.1 == ev.line
}

/// The file and line of the pending `goto`.
pub open spec fn goto_key(goto: Option<(String, i64)>) -> (Seq<char>, i64) {
    match goto {
        Some((p, l)) => (p@, l),
        None => (Seq::empty(), 0),
    }
}

/// The first emulated watch, from `i` on, that fires on its value.
pub open spec fn watch_hit_from(ws: Seq<DataWatchEntry>, vals: Seq<String>, i: int) -> Option<int>
    decreases ws.len() - i,
{
    if i < 0 || i >= ws.len() || i >= vals.len() {
        None
    } else if ws[i].emulated && watch_fires(ws[i], vals[i]@) {
        Some(i)
    } else {
        watch_hit_from(ws, vals, i + 1)
    }
}

proof fn lemma_watch_hit_bounds(ws: Seq<DataWatchEntry>, vals: Seq<String>, i: int)
    ensures
        watch_hit_from(ws, vals, i) matches Some(h) ==> 0 <= i <= h && h < ws.len() && h < vals.len()
            && ws[h].emulated && watch_fires(ws[h], vals[h]@),
    decreases ws.len() - i,
{
    if 0 <= i < ws.len() && i < vals.len() && !(ws[i].emulated && watch_fires(ws[i], vals[i]@)) {
        lemma_watch_hit_bounds(ws, vals, i + 1);
    }
}

/// Whether watch `j` is fed its value: it is emulated, has a value, and
/// comes no later than the watch that fired.
pub open spec fn watch_fed(ws: Seq<DataWatchEntry>, vals: Seq<String>, j: int) -> bool {
    &&& 0 <= j < ws.len()
    &&& j < vals.len()
    &&& ws[j].emulated
    &&& match watch_hit_from(ws, vals, 0) {
        Some(h) => j <= h,
        None => true,
    }
}

/// The watches after feeding: each fed watch is armed with its value as
/// baseline, the others are as they were.
pub open spec fn watches_fed(
    before: Seq<DataWatchEntry>,
    vals: Seq<String>,
    after: Seq<DataWatchEntry>,
) -> bool {
    &&& after.len() == before.len()
    &&& forall|j: int|
        0 <= j < before.len() ==> if watch_fed(before, vals, j) {
            &&& (#[trigger] after[j]).expression == before[j].expression
            &&& after[j].emulated == before[j].emulated
            &&& after[j].armed
            &&& baseline_view(after[j]) == Some(vals[j]@)
        } else {
            after[j] == before[j]
        }
}

/// Feeds each emulated watch its current value, in order, until one
/// fires; returns the one that fired.
pub fn feed_data_watches(watches: &mut Vec<DataWatchEntry>, values: &Vec<String>) -> (hit: Option<
    usize,
>)
    ensures
        match hit {
            Some(h) => watch_hit_from(old(watches)@, values@, 0) == Some(h as int),
            None => watch_hit_from(old(watches)@, values@, 0) is None,
        },
        watches_fed(old(watches)@, values@, final(watches)@),
{
    let ghost ws = watches@;
    let ghost vals = values@;
    proof {
        lemma_watch_hit_bounds(ws, vals, 0);
    }
    let mut i: usize = 0;
    while i < watches.len() && i < values.len()
        invariant
            ws == old(watches)@,
            vals == values@,
            watches@.len() == ws.len(),
            i <= ws.len(),
            watch_hit_from(ws, vals, 0) == watch_hit_from(ws, vals, i as int),
            forall|j: int| i <= j < ws.len() ==> #[trigger] watches@[j] == ws[j],
            forall|j: int|
                0 <= j < i ==> if watch_fed(ws, vals, j) {
                    &&& (#[trigger] watches@[j]).expression == ws[j].expression
                    &&& watches@[j].emulated == ws[j].emulated
                    &&& watches@[j].armed
                    &&& baseline_view(watches@[j]) == Some(vals[j]@)
                } else {
                    watches@[j] == ws[j]
                },
        decreases ws.len() - i,
    {
        proof {
            lemma_watch_hit_bounds(ws, vals, i as int);
        }
        let ghost before = watches@;
        if watches[i].emulated {
            let mut w = watches.remove(i);
            let fire = data_watch_should_stop(&mut w, values[i].as_str());
            watches.insert(i, w);
            assert forall|j: int| 0 <= j < ws.len() && j != i implies #[trigger] watches@[j]
                == before[j] by {}
            if fire {
                assert(watch_hit_from(ws, vals, i as int) == Some(i as int));
                assert forall|j: int| 0 <= j < ws.len() implies if watch_fed(ws, vals, j) {
                    &&& (#[trigger] watches@[j]).expression == ws[j].expression
                    &&& watches@[j].emulated == ws[j].emulated
                    &&& watches@[j].armed
                    &&& baseline_view(watches@[j]) == Some(vals[j]@)
                } else {
                    watches@[j] == ws[j]
                } by {
                    if j > i {
                        assert(!watch_fed(ws, vals, j));
                    }
                }
                return Some(i);
            }
        }
        assert(watch_hit_from(ws, vals, i as int) == watch_hit_from(ws, vals, i + 1));
        proof {
            lemma_watch_hit_bounds(ws, vals, i + 1);
        }
        i = i + 1;
    }
    assert(watch_hit_from(ws, vals, i as int) is None);
    None
}

/// The hit count after one more hit (it stays at its maximum).
pub open spec fn bumped(e: BreakpointEntry) -> BreakpointEntry {
    BreakpointEntry {
        hit_count: if e.hit_count < u32::MAX {
            (e.hit_count + 1) as u32
        } else {
            e.hit_count
        },
        ..e
    }
}

/// The key of the breakpoint at the stop, when the caller found one.
pub open spec fn stop_key(ev: &StopEvent) -> (Seq<char>, i64) {
    (ev.breakpoint_path->0@, ev.line)
}

/// The stop gets past the entry, exception and `goto` checks.
pub open spec fn past_goto(ctx: &ReplContext, ev: &StopEvent) -> bool {
    !entry_skipped(ctx.settings, ev) && !exception_vetoed(ev) && !goto_reached(ctx.pending_goto, ev)
}

/// The data watches are read at this stop.
pub open spec fn watches_read(ctx: &ReplContext, ev: &StopEvent) -> bool {
    past_goto(ctx, ev) && ev.emulated_data_watches
}

/// The watch that fired at this stop.
pub open spec fn watch_hit(ctx: &ReplContext, ev: &StopEvent) -> Option<int> {
    if watches_read(ctx, ev) {
        watch_hit_from(ctx.data_watches@, ev.watch_values@, 0)
    } else {
        None
    }
}

/// The stop reaches the breakpoint checks.
pub open spec fn at_breakpoint(ctx: &ReplContext, ev: &StopEvent) -> bool {
    &&& past_goto(ctx, ev)
    &&& watch_hit(ctx, ev) is None
    &&& !ev.smart_step_skip
    &&& !ev.skip_path_match
    &&& ev.breakpoint_path is Some
}

/// The breakpoint at the stop is one of the debugger's own.
pub open spec fn in_own(ctx: &ReplContext, ev: &StopEvent) -> bool {
    ctx.breakpoints@.contains_key(stop_key(ev))
}

/// The breakpoint at the stop is one of the editor's (and not the
/// debugger's own).
pub open spec fn in_editor(ctx: &ReplContext, ev: &StopEvent) -> bool {
    !in_own(ctx, ev) && ctx.editor_breakpoints@.contains_key(stop_key(ev))
}

/// The entry of the breakpoint at the stop, before this stop.
pub open spec fn stop_entry(ctx: &ReplContext, ev: &StopEvent) -> BreakpointEntry {
    if in_own(ctx, ev) {
        ctx.breakpoints@[stop_key(ev)]
    } else {
        ctx.editor_breakpoints@[stop_key(ev)]
    }
}

/// The hit count of the breakpoint at the stop is counted.
pub open spec fn hit_counted(ctx: &ReplContext, ev: &StopEvent) -> bool {
    at_breakpoint(ctx, ev) && (in_own(ctx, ev) || in_editor(ctx, ev)) && stop_entry(
        ctx,
        ev,
    ).emulated_hit
}

/// The decision at a breakpoint with entry `e` (its hit already counted).
pub open spec fn breakpoint_outcome(e: BreakpointEntry, ev: &StopEvent) -> Result<StopView, Seq<char>> {
    if e.emulated_hit && !ev.hit_matches {
        Ok(StopView::Continue)
    } else if e.emulated_condition && e.condition is None {
        Err("emulated condition missing expression"@)
    } else if e.emulated_condition && !ev.condition_true {
        Ok(StopView::Continue)
    } else if e.emulated_log {
        match e.log_message {
            None => Err("emulated logpoint missing message"@),
            Some(t) => if ev.log_values@.len() < expr_count(log_parts(t@)) {
                Err("emulated logpoint missing expression values"@)
            } else {
                Ok(StopView::Log(filled(log_parts(t@), texts(ev.log_values@))))
            },
        }
    } else {
        Ok(StopView::Stay)
    }
}

/// The decision at a stop, in the order the checks are made: the entry
/// stop to suppress, a failed exception condition, the `goto` target, a
/// changed data watch, a skipped frame, then the breakpoint's emulated hit
/// condition, condition and log message.
pub open spec fn stop_outcome(ctx: &ReplContext, ev: &StopEvent) -> Result<StopView, Seq<char>> {
    if entry_skipped(ctx.settings, ev) {
        Ok(StopView::Continue)
    } else if exception_vetoed(ev) {
        Ok(StopView::Continue)
    } else if goto_reached(ctx.pending_goto, ev) {
        Ok(StopView::Stay)
    } else if watch_hit(ctx, ev) is Some {
        let h = watch_hit(ctx, ev)->0;
        Ok(StopView::WatchHit(ctx.data_watches@[h].expression@, ev.watch_values@[h]@))
    } else if ev.smart_step_skip || ev.skip_path_match {
        Ok(StopView::Continue)
    } else if ev.breakpoint_path is None {
        Ok(StopView::Stay)
    } else if !in_own(ctx, ev) && !in_editor(ctx, ev) {
        Err("breakpoint entry disappeared"@)
    } else {
        breakpoint_outcome(stop_entry(ctx, ev), ev)
    }
}

/// The conditions the client evaluates, in order: those of the entries
/// with an emulated condition.
pub open spec fn emulated_conditions(s: Seq<ExceptionBreakpointEntry>) -> Seq<String>
    decreases s.len(),
{
    if s.len() == 0 {
        Seq::empty()
    } else {
        emulated_conditions(s.drop_last()) + if s.last().emulated_condition
            && s.last().condition is Some {
            seq![s.last().condition->0]
        } else {
            Seq::empty()
        }
    }
}

/// Whether some answer is `false`.
fn some_false(v: &Vec<bool>) -> (r: bool)
    ensures
        r == exists|i: int| 0 <= i < v@.len() && !#[trigger] v@[i],
{
    let mut i: usize = 0;
    while i < v.len()
        invariant
            i <= v.len(),
            forall|j: int| 0 <= j < i ==> #[trigger] v@[j],
        decreases v.len() - i,
    {
        if !v[i] {
            assert(!v@[i as int]);
            return true;
        }
        i = i + 1;
    }
    false
}

fn reason_eq(reason: &Option<String>, lit: &str) -> (r: bool)
    ensures
        r == (opt_view(*reason) == Some(lit@)),
{
    match reason {
        Some(s) => str_eq(s.as_str(), lit),
        None => false,
    }
}

impl ReplContext {
    /// The conditions of the installed exception breakpoints that the
    /// client evaluates, in order of filter: the questions of an
    /// exception stop.
    pub fn emulated_exception_conditions(&self) -> (r: Vec<String>)
        ensures
            exists|s: Seq<ExceptionBreakpointEntry>|
                keys_sorted(s) && by_key(s) == self.exception_breakpoints@ && r@
                    == #[trigger] emulated_conditions(s),
    {
        let entries = self.exception_breakpoints.entries();
        let mut out: Vec<String> = Vec::new();
        let mut i: usize = 0;
        while i < entries.len()
            invariant
                i <= entries.len(),
                out@ == emulated_conditions(entries@.take(i as int)),
            decreases entries.len() - i,
        {
            proof {
                assert(entries@.take(i + 1).drop_last() =~= entries@.take(i as int));
            }
            let e = &entries[i];
            if e.emulated_condition {
                match &e.condition {
                    Some(c) => {
                        out.push(c.clone());
                    },
                    None => {},
                }
            }
            i = i + 1;
        }
        assert(entries@.take(entries.len() as int) =~= entries@);
        out
    }

    /// Decides what to do at a stop, updating the state the decision keeps:
    /// the entry stop is suppressed once (and that remembered); an
    /// exception stop continues when a client-evaluated condition failed;
    /// reaching the pending `goto` target keeps the stop, forgets the
    /// target and clears its breakpoint; emulated data watches are fed
    /// their values in order and the first that changed is reported; a
    /// frame skipped by smart stepping or a skip path continues; at a
    /// breakpoint, an emulated hit condition counts the hit and continues
    /// unless it holds, an emulated condition continues unless it holds,
    /// and an emulated log message is filled and logged; otherwise the
    /// stop is kept.
    pub fn stop_step(&mut self, ev: &StopEvent) -> (r: Result<StopAction, String>)
        ensures
            match r {
                Ok(a) => stop_outcome(&*old(self), ev) == Ok::<StopView, Seq<char>>(action_view(a)),
                Err(e) => stop_outcome(&*old(self), ev) == Err::<StopView, Seq<char>>(e@),
            },
            final(self).settings == if entry_skipped(old(self).settings, ev) {
                ReplSettings { suppress_entry_done: true, ..old(self).settings }
            } else {
                old(self).settings
            },
            final(self).pending_goto == if !entry_skipped(old(self).settings, ev) && !exception_vetoed(
                ev,
            ) && goto_reached(old(self).pending_goto, ev) {
                None
            } else {
                old(self).pending_goto
            },
            final(self).breakpoints@ == if !entry_skipped(old(self).settings, ev) && !exception_vetoed(
                ev,
            ) && goto_reached(old(self).pending_goto, ev) {
                old(self).breakpoints@.remove(goto_key(old(self).pending_goto))
            } else if hit_counted(&*old(self), ev) && in_own(&*old(self), ev) {
                old(self).breakpoints@.insert(stop_key(ev), bumped(stop_entry(&*old(self), ev)))
            } else {
                old(self).breakpoints@
            },
            final(self).editor_breakpoints@ == if hit_counted(&*old(self), ev) && in_editor(
                &*old(self),
                ev,
            ) {
                old(self).editor_breakpoints@.insert(stop_key(ev), bumped(stop_entry(&*old(self), ev)))
            } else {
                old(self).editor_breakpoints@
            },
            if watches_read(&*old(self), ev) {
                watches_fed(old(self).data_watches@, ev.watch_values@, final(self).data_watches@)
            } else {
                final(self).data_watches@ == old(self).data_watches@
            },
            final(self).exception_breakpoints@ == old(self).exception_breakpoints@,
            final(self).pending_breakpoints@ == old(self).pending_breakpoints@,
            texts(final(self).skip_paths@) == texts(old(self).skip_paths@),
            texts(final(self).watches@) == texts(old(self).watches@),
            final(self).last_location == old(self).last_location,
            forall|k: Seq<char>|
                #[trigger] final(self).emulated_instructions.at(k) == old(self).emulated_instructions.at(k),
    {
        let s = self.settings;
        if s.suppress_entry_stop && !s.suppress_entry_done && reason_eq(&ev.stop_reason, "entry") {
            self.settings.suppress_entry_done = true;
            return Ok(StopAction::Continue);
        }
        if reason_eq(&ev.stop_reason, "exception") && some_false(&ev.exception_conditions) {
            return Ok(StopAction::Continue);
        }
        let reached = match &self.pending_goto {
            Some(g) => ev.at_goto_path && g.1 == ev.line,
            None => false,
        };
        if reached {
            let target = self.pending_goto.take();
            match target {
                Some((p, l)) => {
                    self.breakpoints.clear(p.as_str(), Some(l));
                },
                None => {},
            }
            return Ok(StopAction::Stay);
        }
        if ev.emulated_data_watches {
            let hit = feed_data_watches(&mut self.data_watches, &ev.watch_values);
            proof {
                lemma_watch_hit_bounds(old(self).data_watches@, ev.watch_values@, 0);
            }
            match hit {
                Some(h) => {
                    let expression = self.data_watches[h].expression.clone();
                    let value = ev.watch_values[h].clone();
                    return Ok(StopAction::DataWatchHit { expression, value });
                },
                None => {},
            }
        }
        if ev.smart_step_skip || ev.skip_path_match {
            return Ok(StopAction::Continue);
        }
        let path = match &ev.breakpoint_path {
            Some(p) => p,
            None => {
                return Ok(StopAction::Stay);
            },
        };
        let own = match self.breakpoints.get(path.as_str(), ev.line) {
            Some(e) => Some(e.clone()),
            None => None,
        };
        let (mut entry, is_own) = match own {
            Some(e) => (e, true),
            None => match self.editor_breakpoints.get(path.as_str(), ev.line) {
                Some(e) => (e.clone(), false),
                None => {
                    return Err(owned("breakpoint entry disappeared"));
                },
            },
        };
        if entry.emulated_hit {
            if entry.hit_count < u32::MAX {
                entry.hit_count = entry.hit_count + 1;
            }
            let stored = entry.clone();
            if is_own {
                self.breakpoints.set(path.clone(), ev.line, stored);
            } else {
                self.editor_breakpoints.set(path.clone(), ev.line, stored);
            }
            if !ev.hit_matches {
                return Ok(StopAction::Continue);
            }
        }
        if entry.emulated_condition {
            if entry.condition.is_none() {
                return Err(owned("emulated condition missing expression"));
            }
            if !ev.condition_true {
                return Ok(StopAction::Continue);
            }
        }
        if entry.emulated_log {
            match &entry.log_message {
                None => {
                    return Err(owned("emulated logpoint missing message"));
                },
                Some(t) => {
                    let parts = log_template(t.as_str());
                    let wanted = log_expressions(&parts);
                    if ev.log_values.len() < wanted.len() {
                        return Err(owned("emulated logpoint missing expression values"));
                    }
                    let message = fill_log_message(&parts, &ev.log_values);
                    return Ok(StopAction::LogAndContinue { message });
                },
            }
        }
        Ok(StopAction::Stay)
    }
}

/// The first of `names` under which `t` has a breakpoint at `line`.
pub open spec fn first_with_line(
    t: Map<(Seq<char>, i64), BreakpointEntry>,
    names: Seq<Seq<char>>,
    line: i64,
) -> Option<Seq<char>>
    decreases names.len(),
{
    if names.len() == 0 {
        None
    } else if t.contains_key((names[0], line)) {
        Some(names[0])
    } else {
        first_with_line(t, names.skip(1), line)
    }
}

fn first_stored(t: &crate::repl::table::BreakpointTable, names: &Vec<String>, line: i64) -> (r: Option<String>)
    ensures
        opt_view(r) == first_with_line(t@, texts(names@), line),
{
    let ghost all = texts(names@);
    let mut i: usize = 0;
    assert(all.skip(0) =~= all);
    while i < names.len()
        invariant
            i <= names.len(),
            all == texts(names@),
            first_with_line(t@, all, line) == first_with_line(t@, all.skip(i as int), line),
        decreases names.len() - i,
    {
        let ghost rest = all.skip(i as int);
        assert(rest[0] == names@[i as int]@);
        if t.get(names[i].as_str(), line).is_some() {
            return Some(names[i].clone());
        }
        assert(rest.skip(1) =~= all.skip(i + 1));
        i = i + 1;
    }
    None
}

impl ReplContext {
    /// The file under which a breakpoint at `line` is stored, for a stop in
    /// a file whose stored names are `own_matches` (the debugger's own) and
    /// `editor_matches` (the editor's), in the order they are tried: the
    /// debugger's own breakpoints first, then the editor's. This is the
    /// `breakpoint_path` of a `StopEvent`.
    pub fn stored_breakpoint_key(
        &self,
        line: i64,
        own_matches: &Vec<String>,
        editor_matches: &Vec<String>,
    ) -> (r: Option<String>)
        ensures
            opt_view(r) == match first_with_line(self.breakpoints@, texts(own_matches@), line) {
                Some(p) => Some(p),
                None => first_with_line(self.editor_breakpoints@, texts(editor_matches@), line),
            },
    {
        match first_stored(&self.breakpoints, own_matches, line) {
            Some(p) => Some(p),
            None => first_stored(&self.editor_breakpoints, editor_matches, line),
        }
    }
}

/// At a breakpoint whose condition the client evaluates, a stop where the
/// condition did not hold continues, whatever else the breakpoint emulates
/// (its log message included), once its hit condition is passed; a log
/// message is only ever written when the condition held.
pub proof fn lemma_false_condition_continues(ctx: &ReplContext, ev: &StopEvent)
    ensures
        ({
            let e = stop_entry(ctx, ev);
            at_breakpoint(ctx, ev) && (in_own(ctx, ev) || in_editor(ctx, ev)) && e.emulated_condition
                && e.condition is Some && (!e.emulated_hit || ev.hit_matches) && !ev.condition_true
                ==> stop_outcome(ctx, ev) == Ok::<StopView, Seq<char>>(StopView::Continue)
        }),
        stop_outcome(ctx, ev) matches Ok(StopView::Log(_)) ==> (at_breakpoint(ctx, ev) && (!stop_entry(
            ctx,
            ev,
        ).emulated_condition || ev.condition_true) && stop_entry(ctx, ev).emulated_log),
{
}

} // verus!
