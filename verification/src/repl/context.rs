//! The state of an interactive debugging session and the changes its
//! commands make to it. What needs the adapter (stepping, evaluating,
//! sending breakpoints) is done by the caller, which hands the answers in.
use vstd::prelude::*;
use crate::repl::actions::{default_skip_paths, default_skip_paths_spec};
use crate::repl::breakpoint::{entry_from_options, BreakpointEntry, BreakpointRequest, ClientStopPolicy};
use crate::repl::actions::ExceptionBreakpointAction;
use crate::repl::exceptions::{
    advertised_filters, exception_applied, imported_exceptions, ExceptionBreakpoints,
    SnapshotException,
};
use crate::data_watch::DataWatchEntry;
use crate::repl::lists::{
    add_unique, data_watch_add, data_watch_remove, prompt_spec, remove_all, repl_prompt, texts,
    watch_expressions, with_item, without,
};
use crate::repl::table::{
    applied, has_file, snapshot_map, without_file, BreakpointTable, SnapshotFile,
};
use crate::repl::actions::BreakpointAction;
use crate::repl::breakpoint::BreakpointOptions;
use crate::repl::emulated::EmulatedInstructions;

verus! {

/// Settings and position of the session.
#[derive(Debug, Clone, Copy, PartialEq, Eq)]
pub struct ReplSettings {
    pub current_thread: i64,
    pub current_frame: i64,
    /// Step over runtime and dependency frames.
    pub smart_step: bool,
    /// Continue past the entry stop once.
    pub suppress_entry_stop: bool,
    /// The entry stop was already continued past.
    pub suppress_entry_done: bool,
    /// Breakpoints are sent at once; before that they are queued.
    pub session_ready: bool,
}

/// The state of an interactive debugging session.
#[derive(Debug)]
pub struct ReplContext {
    pub settings: ReplSettings,
    /// Breakpoints set from the debugger.
    pub breakpoints: BreakpointTable,
    /// Breakpoints imported from the editor's session.
    pub editor_breakpoints: BreakpointTable,
    pub exception_breakpoints: ExceptionBreakpoints,
    pub skip_paths: Vec<String>,
    pub watches: Vec<String>,
    /// Client-side data watches.
    pub data_watches: Vec<DataWatchEntry>,
    /// Breakpoint requests waiting for the session to be ready.
    pub pending_breakpoints: Vec<BreakpointRequest>,
    /// Where execution last stopped (file and line).
    pub last_location: Option<(String, i64)>,
    /// The source breakpoints that stand in for emulated instruction
    /// breakpoints.
    pub emulated_instructions: EmulatedInstructions,
    /// The line an emulated `goto` runs to (file and line), while it has
    /// not been reached.
    pub pending_goto: Option<(String, i64)>,
}

/// `b` keeps the breakpoint tables of `a`.
pub open spec fn keeps_breakpoints(a: &ReplContext, b: &ReplContext) -> bool {
    &&& b.breakpoints@ == a.breakpoints@
    &&& b.editor_breakpoints@ == a.editor_breakpoints@
    &&& b.exception_breakpoints@ == a.exception_breakpoints@
    &&& b.pending_breakpoints@ == a.pending_breakpoints@
}

/// `b` keeps the lists and the last location of `a`.
pub open spec fn keeps_watch_lists(a: &ReplContext, b: &ReplContext) -> bool {
    &&& texts(b.skip_paths@) == texts(a.skip_paths@)
    &&& texts(b.watches@) == texts(a.watches@)
    &&& b.data_watches@ == a.data_watches@
    &&& b.last_location == a.last_location
    &&& b.pending_goto == a.pending_goto
}

/// `b` keeps the lists, the last location and the emulated instruction
/// breakpoints of `a`.
pub open spec fn keeps_lists(a: &ReplContext, b: &ReplContext) -> bool {
    &&& keeps_watch_lists(a, b)
    &&& forall|k: Seq<char>| #[trigger] b.emulated_instructions.at(k) == a.emulated_instructions.at(k)
}

/// The entry of a source breakpoint that stands in for an instruction
/// breakpoint: no modifiers.
pub open spec fn stand_in_entry(policy: ClientStopPolicy) -> BreakpointEntry {
    BreakpointEntry {
        condition: None,
        hit_condition: None,
        log_message: None,
        hit_count: 0,
        emulated_condition: policy.condition,
        emulated_hit: policy.hit,
        emulated_log: policy.log,
    }
}

/// Enabling an emulated instruction breakpoint at a line without a
/// breakpoint and then disabling it leaves the breakpoints as they were.
pub proof fn lemma_emulated_instruction_round_trip(
    m: Map<(Seq<char>, i64), BreakpointEntry>,
    at: (Seq<char>, i64),
    policy: ClientStopPolicy,
)
    requires
        !m.contains_key(at),
    ensures
        applied(m, BreakpointAction::Add, at, stand_in_entry(policy)).0.remove(at) == m,
{
    assert(m.insert(at, stand_in_entry(policy)).remove(at) =~= m);
}

/// The settings of a fresh session: thread and frame 1, smart step on,
/// the entry stop suppressed once, breakpoints sent at once.
pub open spec fn initial_settings() -> ReplSettings {
    ReplSettings {
        current_thread: 1,
        current_frame: 1,
        smart_step: true,
        suppress_entry_stop: true,
        suppress_entry_done: false,
        session_ready: true,
    }
}

impl ReplContext {
    /// A fresh session: no breakpoints, watches or location, the default
    /// skip paths, and the initial settings.
    pub fn new() -> (r: Self)
        ensures
            r.settings == initial_settings(),
            r.breakpoints@.is_empty(),
            r.editor_breakpoints@.is_empty(),
            r.exception_breakpoints@.is_empty(),
            r.pending_breakpoints@.len() == 0,
            texts(r.skip_paths@) == default_skip_paths_spec(),
            r.watches@.len() == 0,
            r.data_watches@.len() == 0,
            r.last_location is None,
            r.pending_goto is None,
            forall|k: Seq<char>| #[trigger] r.emulated_instructions.at(k) is None,
    {
        let skip = default_skip_paths();
        assert(texts(skip@) =~= skip.deep_view());
        ReplContext {
            settings: ReplSettings {
                current_thread: 1,
                current_frame: 1,
                smart_step: true,
                suppress_entry_stop: true,
                suppress_entry_done: false,
                session_ready: true,
            },
            breakpoints: BreakpointTable::new(),
            editor_breakpoints: BreakpointTable::new(),
            exception_breakpoints: ExceptionBreakpoints::new(),
            skip_paths: skip,
            watches: Vec::new(),
            data_watches: Vec::new(),
            pending_breakpoints: Vec::new(),
            last_location: None,
            emulated_instructions: EmulatedInstructions::new(),
            pending_goto: None,
        }
    }

    /// A session attached to an editor's: the entry stop is never
    /// continued past, since the editor owns the session.
    pub fn attached() -> (r: Self)
        ensures
            r.settings == (ReplSettings { suppress_entry_stop: false, ..initial_settings() }),
            r.breakpoints@.is_empty(),
            r.editor_breakpoints@.is_empty(),
            r.exception_breakpoints@.is_empty(),
            r.pending_breakpoints@.len() == 0,
            texts(r.skip_paths@) == default_skip_paths_spec(),
            r.watches@.len() == 0,
            r.data_watches@.len() == 0,
            r.last_location is None,
            r.pending_goto is None,
            forall|k: Seq<char>| #[trigger] r.emulated_instructions.at(k) is None,
    {
        let mut r = ReplContext::new();
        r.settings.suppress_entry_stop = false;
        r
    }

    /// The prompt for the last stop location.
    pub fn repl_prompt(&self) -> (r: String)
        ensures
            r@ == prompt_spec(
                match self.last_location {
                    Some((p, l)) => Some((p@, l)),
                    None => None,
                },
            ),
    {
        match &self.last_location {
            Some((p, l)) => repl_prompt(Some((p.as_str(), *l))),
            None => repl_prompt(None),
        }
    }

    /// Adds a skip-path pattern unless it is there already.
    pub fn skip_add(&mut self, pattern: String)
        ensures
            texts(final(self).skip_paths@) == with_item(texts(old(self).skip_paths@), pattern@),
            texts(final(self).watches@) == texts(old(self).watches@),
            final(self).data_watches@ == old(self).data_watches@,
            final(self).last_location == old(self).last_location,
            final(self).settings == old(self).settings,
            keeps_breakpoints(&*old(self), &*final(self)),
    {
        add_unique(&mut self.skip_paths, pattern);
    }

    /// Removes a skip-path pattern, or all of them without one.
    pub fn skip_clear(&mut self, pattern: Option<&str>)
        ensures
            texts(final(self).skip_paths@) == match pattern {
                Some(p) => without(texts(old(self).skip_paths@), p@),
                None => Seq::empty(),
            },
            texts(final(self).watches@) == texts(old(self).watches@),
            final(self).data_watches@ == old(self).data_watches@,
            final(self).last_location == old(self).last_location,
            final(self).settings == old(self).settings,
            keeps_breakpoints(&*old(self), &*final(self)),
    {
        match pattern {
            Some(p) => remove_all(&mut self.skip_paths, p),
            None => {
                self.skip_paths = Vec::new();
                assert(texts(self.skip_paths@) =~= Seq::<Seq<char>>::empty());
            },
        }
    }

    /// Adds a watch expression unless it is there already.
    pub fn watch_add(&mut self, expression: String)
        ensures
            texts(final(self).watches@) == with_item(texts(old(self).watches@), expression@),
            texts(final(self).skip_paths@) == texts(old(self).skip_paths@),
            final(self).data_watches@ == old(self).data_watches@,
            final(self).last_location == old(self).last_location,
            final(self).settings == old(self).settings,
            keeps_breakpoints(&*old(self), &*final(self)),
    {
        add_unique(&mut self.watches, expression);
    }

    /// Removes a watch expression.
    pub fn watch_remove(&mut self, expression: &str)
        ensures
            texts(final(self).watches@) == without(texts(old(self).watches@), expression@),
            texts(final(self).skip_paths@) == texts(old(self).skip_paths@),
            final(self).data_watches@ == old(self).data_watches@,
            final(self).last_location == old(self).last_location,
            final(self).settings == old(self).settings,
            keeps_breakpoints(&*old(self), &*final(self)),
    {
        remove_all(&mut self.watches, expression);
    }

    /// Adds a fresh data watch on `expression` unless one exists.
    pub fn data_watch_add(&mut self, expression: String, emulated: bool)
        ensures
            watch_expressions(final(self).data_watches@) == with_item(
                watch_expressions(old(self).data_watches@),
                expression@,
            ),
            forall|i: int|
                0 <= i < old(self).data_watches@.len() ==> final(self).data_watches@[i]
                    == old(self).data_watches@[i],
            !watch_expressions(old(self).data_watches@).contains(expression@) ==> ({
                let w = final(self).data_watches@.last();
                w.expression == expression && w.baseline is None && !w.armed && w.emulated
                    == emulated
            }),
            texts(final(self).skip_paths@) == texts(old(self).skip_paths@),
            texts(final(self).watches@) == texts(old(self).watches@),
            final(self).last_location == old(self).last_location,
            final(self).settings == old(self).settings,
            keeps_breakpoints(&*old(self), &*final(self)),
    {
        data_watch_add(&mut self.data_watches, expression, emulated);
    }

    /// Removes the data watches on `expression`.
    pub fn data_watch_remove(&mut self, expression: &str)
        ensures
            watch_expressions(final(self).data_watches@) == without(
                watch_expressions(old(self).data_watches@),
                expression@,
            ),
            texts(final(self).skip_paths@) == texts(old(self).skip_paths@),
            texts(final(self).watches@) == texts(old(self).watches@),
            final(self).last_location == old(self).last_location,
            final(self).settings == old(self).settings,
            keeps_breakpoints(&*old(self), &*final(self)),
    {
        data_watch_remove(&mut self.data_watches, expression);
    }

    /// Turns smart stepping on or off; says the new setting.
    pub fn set_smart_step(&mut self, enabled: bool) -> (r: bool)
        ensures
            r == enabled,
            final(self).settings == (ReplSettings { smart_step: enabled, ..old(self).settings }),
            keeps_lists(&*old(self), &*final(self)),
            keeps_breakpoints(&*old(self), &*final(self)),
    {
        self.settings.smart_step = enabled;
        enabled
    }

    /// Turns the suppression of the entry stop on or off (turning it off
    /// forgets that the entry stop was passed); says the new setting.
    pub fn set_suppress_entry_stop(&mut self, enabled: bool) -> (r: bool)
        ensures
            r == enabled,
            final(self).settings == (ReplSettings {
                suppress_entry_stop: enabled,
                suppress_entry_done: enabled && old(self).settings.suppress_entry_done,
                ..old(self).settings
            }),
            keeps_lists(&*old(self), &*final(self)),
            keeps_breakpoints(&*old(self), &*final(self)),
    {
        self.settings.suppress_entry_stop = enabled;
        if !enabled {
            self.settings.suppress_entry_done = false;
        }
        enabled
    }

    /// Makes `thread_id` the current thread.
    pub fn set_thread(&mut self, thread_id: i64)
        ensures
            final(self).settings == (ReplSettings { current_thread: thread_id, ..old(self).settings }),
            keeps_lists(&*old(self), &*final(self)),
            keeps_breakpoints(&*old(self), &*final(self)),
    {
        self.settings.current_thread = thread_id;
    }

    /// Makes `frame_id` the current frame.
    pub fn set_frame(&mut self, frame_id: i64)
        ensures
            final(self).settings == (ReplSettings { current_frame: frame_id, ..old(self).settings }),
            keeps_lists(&*old(self), &*final(self)),
            keeps_breakpoints(&*old(self), &*final(self)),
    {
        self.settings.current_frame = frame_id;
    }

    /// All tracked source breakpoints: the editor's with the debugger's
    /// own laid over them.
    pub fn list_breakpoints(&self) -> (r: BreakpointTable)
        ensures
            r@ == self.editor_breakpoints@.union_prefer_right(self.breakpoints@),
    {
        BreakpointTable::merged(&self.editor_breakpoints, &self.breakpoints)
    }

    /// Queues a breakpoint request while the session is not ready; says
    /// whether it was queued (otherwise it is to be applied at once).
    pub fn queue_breakpoint(&mut self, request: BreakpointRequest) -> (queued: bool)
        ensures
            queued == !old(self).settings.session_ready,
            final(self).pending_breakpoints@ == if queued {
                old(self).pending_breakpoints@.push(request)
            } else {
                old(self).pending_breakpoints@
            },
            final(self).breakpoints@ == old(self).breakpoints@,
            final(self).editor_breakpoints@ == old(self).editor_breakpoints@,
            final(self).exception_breakpoints@ == old(self).exception_breakpoints@,
            final(self).settings == old(self).settings,
            keeps_lists(&*old(self), &*final(self)),
    {
        if !self.settings.session_ready {
            self.pending_breakpoints.push(request);
            true
        } else {
            false
        }
    }

    /// Applies a breakpoint request to the debugger's own breakpoints, with
    /// the modifiers `policy` says the client emulates; says whether a
    /// breakpoint is set at its line afterwards.
    pub fn apply_breakpoint(&mut self, request: &BreakpointRequest, policy: ClientStopPolicy) -> (enabled: bool)
        ensures
            (final(self).breakpoints@, enabled) == applied(
                old(self).breakpoints@,
                request.action,
                (request.path@, request.line),
                entry_of(request, policy),
            ),
            final(self).editor_breakpoints@ == old(self).editor_breakpoints@,
            final(self).exception_breakpoints@ == old(self).exception_breakpoints@,
            final(self).pending_breakpoints@ == old(self).pending_breakpoints@,
            final(self).settings == old(self).settings,
            keeps_lists(&*old(self), &*final(self)),
    {
        let entry = entry_from_options(&request.options, policy);
        self.breakpoints.apply(request.action, request.path.clone(), request.line, entry)
    }

    /// Clears the debugger's breakpoint at `line` of `path`, or all of
    /// `path` without a line; says whether one was removed.
    pub fn clear_breakpoints(&mut self, path: &str, line: Option<i64>) -> (removed: bool)
        ensures
            match line {
                Some(l) => final(self).breakpoints@ == old(self).breakpoints@.remove((path@, l))
                    && removed == old(self).breakpoints@.contains_key((path@, l)),
                None => final(self).breakpoints@ == without_file(old(self).breakpoints@, path@)
                    && removed == has_file(old(self).breakpoints@, path@),
            },
            final(self).editor_breakpoints@ == old(self).editor_breakpoints@,
            final(self).exception_breakpoints@ == old(self).exception_breakpoints@,
            final(self).pending_breakpoints@ == old(self).pending_breakpoints@,
            final(self).settings == old(self).settings,
            keeps_lists(&*old(self), &*final(self)),
    {
        self.breakpoints.clear(path, line)
    }

    /// Enables an emulated instruction breakpoint: sets a source breakpoint
    /// without modifiers at `line` of `path` (the instruction's source
    /// location) and records it as the stand-in for `key`.
    pub fn emulate_instruction_breakpoint(
        &mut self,
        key: String,
        path: String,
        line: i64,
        policy: ClientStopPolicy,
    )
        ensures
            final(self).breakpoints@ == applied(
                old(self).breakpoints@,
                BreakpointAction::Add,
                (path@, line),
                stand_in_entry(policy),
            ).0,
            forall|k: Seq<char>|
                #[trigger] final(self).emulated_instructions.at(k) == if k == key@ {
                    Some((path@, line))
                } else {
                    old(self).emulated_instructions.at(k)
                },
            final(self).editor_breakpoints@ == old(self).editor_breakpoints@,
            final(self).exception_breakpoints@ == old(self).exception_breakpoints@,
            final(self).pending_breakpoints@ == old(self).pending_breakpoints@,
            final(self).settings == old(self).settings,
            keeps_watch_lists(&*old(self), &*final(self)),
    {
        let options = BreakpointOptions { condition: None, hit_condition: None, log_message: None };
        let entry = entry_from_options(&options, policy);
        assert(entry == stand_in_entry(policy));
        self.breakpoints.apply(BreakpointAction::Add, path.clone(), line, entry);
        self.emulated_instructions.record(key, path, line);
    }

    /// Disables an emulated instruction breakpoint: forgets its record and
    /// clears the source breakpoint that stood in for it. Returns that
    /// line, or `None` when none was recorded for `key`.
    pub fn remove_emulated_instruction_breakpoint(&mut self, key: &str) -> (r: Option<(String, i64)>)
        ensures
            match r {
                Some((p, l)) => old(self).emulated_instructions.at(key@) == Some((p@, l))
                    && final(self).breakpoints@ == old(self).breakpoints@.remove((p@, l)),
                None => old(self).emulated_instructions.at(key@) is None && final(self).breakpoints@
                    == old(self).breakpoints@,
            },
            forall|k: Seq<char>|
                #[trigger] final(self).emulated_instructions.at(k) == if k == key@ {
                    None
                } else {
                    old(self).emulated_instructions.at(k)
                },
            final(self).editor_breakpoints@ == old(self).editor_breakpoints@,
            final(self).exception_breakpoints@ == old(self).exception_breakpoints@,
            final(self).pending_breakpoints@ == old(self).pending_breakpoints@,
            final(self).settings == old(self).settings,
            keeps_watch_lists(&*old(self), &*final(self)),
    {
        let r = self.emulated_instructions.take(key);
        match &r {
            Some((p, l)) => {
                self.breakpoints.clear(p.as_str(), Some(*l));
            },
            None => {},
        }
        r
    }

    /// Starts an emulated `goto` (the adapter cannot jump): sets a source
    /// breakpoint without modifiers at `line` of `path` and remembers the
    /// target, so that the stop there is kept and the breakpoint cleared.
    pub fn emulate_goto(&mut self, path: String, line: i64, policy: ClientStopPolicy)
        ensures
            final(self).breakpoints@ == applied(
                old(self).breakpoints@,
                BreakpointAction::Add,
                (path@, line),
                stand_in_entry(policy),
            ).0,
            final(self).pending_goto == Some((path, line)),
            final(self).editor_breakpoints@ == old(self).editor_breakpoints@,
            final(self).exception_breakpoints@ == old(self).exception_breakpoints@,
            final(self).pending_breakpoints@ == old(self).pending_breakpoints@,
            final(self).settings == old(self).settings,
            texts(final(self).skip_paths@) == texts(old(self).skip_paths@),
            texts(final(self).watches@) == texts(old(self).watches@),
            final(self).data_watches@ == old(self).data_watches@,
            final(self).last_location == old(self).last_location,
            forall|k: Seq<char>|
                #[trigger] final(self).emulated_instructions.at(k) == old(self).emulated_instructions.at(k),
    {
        let options = BreakpointOptions { condition: None, hit_condition: None, log_message: None };
        let entry = entry_from_options(&options, policy);
        assert(entry == stand_in_entry(policy));
        self.breakpoints.apply(BreakpointAction::Add, path.clone(), line, entry);
        self.pending_goto = Some((path, line));
    }

    /// Applies a `catch` action to the installed exception breakpoints (see
    /// `ExceptionBreakpoints::apply`).
    pub fn exception_breakpoint(
        &mut self,
        action: ExceptionBreakpointAction,
        filter: Option<String>,
        condition: Option<String>,
        emulated_condition: bool,
        advertised: Option<&Vec<Option<String>>>,
    ) -> (r: Result<bool, String>)
        ensures
            exception_applied(
                old(self).exception_breakpoints@,
                action,
                filter,
                condition,
                emulated_condition,
                advertised_filters(advertised),
                final(self).exception_breakpoints@,
                r,
            ),
            final(self).breakpoints@ == old(self).breakpoints@,
            final(self).editor_breakpoints@ == old(self).editor_breakpoints@,
            final(self).pending_breakpoints@ == old(self).pending_breakpoints@,
            final(self).settings == old(self).settings,
            keeps_lists(&*old(self), &*final(self)),
    {
        self.exception_breakpoints.apply(action, filter, condition, emulated_condition, advertised)
    }

    /// Takes in the editor's breakpoints from a session snapshot: its
    /// source breakpoints replace those imported before, and its exception
    /// breakpoints are added where none is installed for the filter.
    pub fn apply_breakpoint_snapshot(
        &mut self,
        files: &Vec<SnapshotFile>,
        exceptions: &Vec<SnapshotException>,
    )
        ensures
            final(self).editor_breakpoints@ == snapshot_map(files@),
            final(self).exception_breakpoints@ == imported_exceptions(
                old(self).exception_breakpoints@,
                exceptions@,
            ),
            final(self).breakpoints@ == old(self).breakpoints@,
            final(self).pending_breakpoints@ == old(self).pending_breakpoints@,
            final(self).settings == old(self).settings,
            keeps_lists(&*old(self), &*final(self)),
    {
        self.editor_breakpoints = BreakpointTable::from_snapshot(files);
        self.exception_breakpoints.import_snapshot(exceptions);
    }
}

/// The entry a request stores.
pub open spec fn entry_of(request: &BreakpointRequest, policy: ClientStopPolicy) -> BreakpointEntry {
    BreakpointEntry {
        condition: request.options.condition,
        hit_condition: request.options.hit_condition,
        log_message: request.options.log_message,
        hit_count: 0,
        emulated_condition: policy.condition,
        emulated_hit: policy.hit,
        emulated_log: policy.log,
    }
}

} // verus!
