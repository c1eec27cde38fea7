//! The exception breakpoints the interactive debugger has installed: one
//! per filter, kept in order of filter, and the rules of the `catch`
//! command that changes them.
use vstd::prelude::*;
use crate::repl::actions::ExceptionBreakpointAction;
use crate::sorted::{by_key, insert_by_key, keys_sorted, remove_by_key, Keyed};
use crate::text::{append, owned, str_eq};

verus! {

/// An installed exception breakpoint.
#[derive(Debug, Clone, PartialEq, Eq)]
pub struct ExceptionBreakpointEntry {
    pub filter: String,
    pub condition: Option<String>,
    /// The client evaluates the condition because the adapter cannot.
    pub emulated_condition: bool,
}

impl Keyed for ExceptionBreakpointEntry {
    open spec fn key(&self) -> Seq<char> {
        self.filter@
    }

    fn key_text(&self) -> (r: &str) {
        self.filter.as_str()
    }
}

/// Installed exception breakpoints by filter.
#[derive(Debug)]
pub struct ExceptionBreakpoints {
    entries: Vec<ExceptionBreakpointEntry>,
}

impl View for ExceptionBreakpoints {
    type V = Map<Seq<char>, ExceptionBreakpointEntry>;

    closed spec fn view(&self) -> Map<Seq<char>, ExceptionBreakpointEntry> {
        by_key(self.entries@)
    }
}

/// Whether an advertised entry names `filter`.
pub open spec fn names_filter(entry: Option<String>, filter: Seq<char>) -> bool {
    match entry {
        Some(f) => f@ == filter,
        None => false,
    }
}

/// Whether `filter` is one the adapter advertises: always when it
/// advertises none (or an empty list); otherwise when one advertised entry
/// names it.
pub open spec fn filter_known(advertised: Option<Seq<Option<String>>>, filter: Seq<char>) -> bool {
    match advertised {
        Some(list) => list.len() == 0 || exists|i: int|
            0 <= i < list.len() && names_filter(#[trigger] list[i], filter),
        None => true,
    }
}

/// The filters an adapter advertises, if it says.
pub open spec fn advertised_filters(advertised: Option<&Vec<Option<String>>>) -> Option<Seq<Option<String>>> {
    match advertised {
        Some(l) => Some(l@),
        None => None,
    }
}

fn advertised_has(list: &Vec<Option<String>>, filter: &str) -> (r: bool)
    ensures
        r == exists|i: int| 0 <= i < list@.len() && names_filter(#[trigger] list@[i], filter@),
{
    let mut i: usize = 0;
    while i < list.len()
        invariant
            i <= list.len(),
            forall|j: int| 0 <= j < i ==> !names_filter(#[trigger] list@[j], filter@),
        decreases list.len() - i,
    {
        match &list[i] {
            Some(f) => {
                if str_eq(f.as_str(), filter) {
                    return true;
                }
            },
            None => {},
        }
        i = i + 1;
    }
    false
}

/// What a `catch` action does: `before` becomes `after` and `r` is the
/// answer.
pub open spec fn exception_applied(
    before: Map<Seq<char>, ExceptionBreakpointEntry>,
    action: ExceptionBreakpointAction,
    filter: Option<String>,
    condition: Option<String>,
    emulated_condition: bool,
    advertised: Option<Seq<Option<String>>>,
    after: Map<Seq<char>, ExceptionBreakpointEntry>,
    r: Result<bool, String>,
) -> bool {
    match action {
        ExceptionBreakpointAction::Clear => r == Ok::<bool, String>(
            before != Map::<Seq<char>, ExceptionBreakpointEntry>::empty(),
        ) && after == Map::<Seq<char>, ExceptionBreakpointEntry>::empty(),
        ExceptionBreakpointAction::Remove => match filter {
            None => r matches Err(e) && e@ == "remove requires filter"@ && after == before,
            Some(f) => r == Ok::<bool, String>(before.contains_key(f@))
                && after == before.remove(f@),
        },
        ExceptionBreakpointAction::Add => match filter {
            None => r matches Err(e) && e@ == "catch requires filter"@ && after == before,
            Some(f) => if filter_known(advertised, f@) {
                r == Ok::<bool, String>(true) && after == before.insert(
                    f@,
                    (ExceptionBreakpointEntry { filter: f, condition, emulated_condition }),
                )
            } else {
                r matches Err(e) && e@ == "unknown exception filter: "@ + f@ && after == before
            },
        },
    }
}

impl ExceptionBreakpoints {
    #[verifier::type_invariant]
    spec fn well_formed(self) -> bool {
        keys_sorted(self.entries@)
    }

    /// None installed.
    pub fn new() -> (r: Self)
        ensures
            r@ == Map::<Seq<char>, ExceptionBreakpointEntry>::empty(),
    {
        ExceptionBreakpoints { entries: Vec::new() }
    }

    /// The installed breakpoints, in increasing order of filter.
    pub fn entries(&self) -> (r: &Vec<ExceptionBreakpointEntry>)
        ensures
            keys_sorted(r@),
            by_key(r@) == self@,
    {
        proof {
            use_type_invariant(self);
        }
        &self.entries
    }

    /// Applies a `catch` action. `Clear` removes every breakpoint and says
    /// whether there was one; `Remove` removes the one for `filter` and
    /// says whether it was there; `Add` installs (or replaces) the one for
    /// `filter` with `condition`, refusing a filter the adapter does not
    /// advertise. `Remove` and `Add` need a filter.
    pub fn apply(
        &mut self,
        action: ExceptionBreakpointAction,
        filter: Option<String>,
        condition: Option<String>,
        emulated_condition: bool,
        advertised: Option<&Vec<Option<String>>>,
    ) -> (r: Result<bool, String>)
        ensures
            exception_applied(
                old(self)@,
                action,
                filter,
                condition,
                emulated_condition,
                advertised_filters(advertised),
                final(self)@,
                r,
            ),
    {
        proof {
            use_type_invariant(&*self);
            crate::sorted::lemma_by_key_sorted(self.entries@);
        }
        match action {
            ExceptionBreakpointAction::Clear => {
                let had = self.entries.len() > 0;
                proof {
                    if self.entries@.len() > 0 {
                        assert(by_key(self.entries@).contains_key(self.entries@[0].key()));
                        assert(!Map::<Seq<char>, ExceptionBreakpointEntry>::empty().contains_key(
                            self.entries@[0].key(),
                        ));
                    } else {
                        assert(by_key(self.entries@) =~= Map::empty());
                    }
                }
                self.entries = Vec::new();
                proof {
                    assert(by_key(self.entries@) =~= Map::empty());
                }
                Ok(had)
            },
            ExceptionBreakpointAction::Remove => match filter {
                None => Err(owned("remove requires filter")),
                Some(f) => {
                    let mut entries: Vec<ExceptionBreakpointEntry> = Vec::new();
                    std::mem::swap(&mut entries, &mut self.entries);
                    let gone = remove_by_key(&mut entries, f.as_str());
                    self.entries = entries;
                    Ok(gone.is_some())
                },
            },
            ExceptionBreakpointAction::Add => match filter {
                None => Err(owned("catch requires filter")),
                Some(f) => {
                    let known = match advertised {
                        Some(list) => list.len() == 0 || advertised_has(list, f.as_str()),
                        None => true,
                    };
                    if !known {
                        let mut msg = owned("unknown exception filter: ");
                        append(&mut msg, f.as_str());
                        return Err(msg);
                    }
                    let ghost fv = f@;
                    let entry = ExceptionBreakpointEntry {
                        filter: f,
                        condition,
                        emulated_condition,
                    };
                    let mut entries: Vec<ExceptionBreakpointEntry> = Vec::new();
                    std::mem::swap(&mut entries, &mut self.entries);
                    insert_by_key(&mut entries, entry);
                    self.entries = entries;
                    Ok(true)
                },
            },
        }
    }
}

/// An exception breakpoint of a session snapshot: its filter and
/// condition when they are strings, and whether the client would emulate
/// the condition.
#[derive(Debug, Clone, PartialEq, Eq)]
pub struct SnapshotException {
    pub filter: Option<String>,
    pub condition: Option<String>,
    pub emulated_condition: bool,
}

/// The breakpoints after importing `s` into `m`: each entry with a
/// non-empty filter that is not installed yet is added; the rest are
/// skipped.
pub open spec fn imported_exceptions(
    m: Map<Seq<char>, ExceptionBreakpointEntry>,
    s: Seq<SnapshotException>,
) -> Map<Seq<char>, ExceptionBreakpointEntry>
    decreases s.len(),
{
    if s.len() == 0 {
        m
    } else {
        let prev = imported_exceptions(m, s.drop_last());
        let e = s.last();
        match e.filter {
            Some(f) => if f@.len() > 0 && !prev.contains_key(f@) {
                prev.insert(
                    f@,
                    (ExceptionBreakpointEntry {
                        filter: f,
                        condition: e.condition,
                        emulated_condition: e.emulated_condition,
                    }),
                )
            } else {
                prev
            },
            None => prev,
        }
    }
}

impl ExceptionBreakpoints {
    /// Whether a breakpoint is installed for `filter`.
    pub fn contains(&self, filter: &str) -> (r: bool)
        ensures
            r == self@.contains_key(filter@),
    {
        proof {
            use_type_invariant(self);
            crate::sorted::lemma_by_key_sorted(self.entries@);
        }
        let mut i: usize = 0;
        while i < self.entries.len()
            invariant
                i <= self.entries.len(),
                forall|j: int| 0 <= j < i ==> #[trigger] self.entries@[j].key() != filter@,
            decreases self.entries.len() - i,
        {
            if str_eq(self.entries[i].filter.as_str(), filter) {
                proof {
                    use_type_invariant(self);
                    crate::sorted::lemma_by_key_sorted(self.entries@);
                    assert(self@.contains_key(self.entries@[i as int].key()));
                }
                return true;
            }
            i = i + 1;
        }
        false
    }

    /// Adds the exception breakpoints of a session snapshot that are not
    /// installed yet, skipping entries without a filter.
    pub fn import_snapshot(&mut self, entries: &Vec<SnapshotException>)
        ensures
            final(self)@ == imported_exceptions(old(self)@, entries@),
    {
        let ghost start = self@;
        let mut i: usize = 0;
        while i < entries.len()
            invariant
                i <= entries.len(),
                self@ == imported_exceptions(start, entries@.take(i as int)),
            decreases entries.len() - i,
        {
            proof {
                let t = entries@.take((i + 1) as int);
                assert(t.drop_last() =~= entries@.take(i as int));
                assert(t.last() == entries@[i as int]);
            }
            let e = &entries[i];
            match &e.filter {
                Some(f) => {
                    if !f.as_str().is_empty() && !self.contains(f.as_str()) {
                        let entry = ExceptionBreakpointEntry {
                            filter: f.clone(),
                            condition: match &e.condition {
                                Some(c) => Some(c.clone()),
                                None => None,
                            },
                            emulated_condition: e.emulated_condition,
                        };
                        self.install(entry);
                    }
                },
                None => {},
            }
            i = i + 1;
        }
        assert(entries@.take(entries.len() as int) =~= entries@);
    }

    fn install(&mut self, entry: ExceptionBreakpointEntry)
        ensures
            final(self)@ == old(self)@.insert(entry.filter@, entry),
    {
        proof {
            use_type_invariant(&*self);
        }
        let mut entries: Vec<ExceptionBreakpointEntry> = Vec::new();
        std::mem::swap(&mut entries, &mut self.entries);
        insert_by_key(&mut entries, entry);
        self.entries = entries;
    }
}

} // verus!
