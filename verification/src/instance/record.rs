//! Records of running debug sessions, the scope filter applied when listing
//! them, and the cleanup a proxy owes its record when it exits.
use vstd::prelude::*;
use crate::instance::spec::InstanceId;

verus! {

/// What a running proxy writes about itself to the session store.
#[derive(Debug, Clone, PartialEq, Eq)]
pub struct SessionRecord {
    pub instance_id: String,
    pub pid: u32,
    pub control_port: u16,
    pub adapter_id: String,
    pub program: Option<String>,
    pub scope: Option<String>,
    pub parent_id: Option<String>,
    pub started_at_unix: i64,
}

/// Whether a record belongs to `scope`.
pub open spec fn in_scope(r: SessionRecord, scope: Seq<char>) -> bool {
    r.scope matches Some(s) && s@ == scope
}

/// The records of `s` that belong to `scope`, in order.
pub open spec fn keep_scope(s: Seq<SessionRecord>, scope: Seq<char>) -> Seq<SessionRecord>
    decreases s.len(),
{
    if s.len() == 0 {
        Seq::empty()
    } else if in_scope(s.last(), scope) {
        keep_scope(s.drop_last(), scope).push(s.last())
    } else {
        keep_scope(s.drop_last(), scope)
    }
}

/// The sessions of `scope`, in their original order; all sessions when no
/// scope is given.
pub fn filter_by_scope(sessions: Vec<SessionRecord>, scope: &Option<String>) -> (r: Vec<
    SessionRecord,
>)
    ensures
        match scope {
            Some(s) => r@ == keep_scope(sessions@, s@),
            None => r@ == sessions@,
        },
{
    match scope {
        None => sessions,
        Some(s) => {
            let ghost all = sessions@;
            let n: usize = sessions.len();
            let mut rest = sessions;
            let mut out: Vec<SessionRecord> = Vec::new();
            let mut k: usize = 0;
            while rest.len() > 0
                invariant
                    k + rest.len() == all.len(),
                    all.len() == n,
                    rest@ == all.skip(k as int),
                    out@ == keep_scope(all.take(k as int), s@),
                decreases rest.len(),
            {
                let rec = rest.remove(0);
                assert(all.take((k + 1) as int).drop_last() =~= all.take(k as int));
                assert(all[k as int] == rec);
                let keep = match &rec.scope {
                    Some(x) => *x == *s,
                    None => false,
                };
                if keep {
                    out.push(rec);
                }
                assert(rest@ =~= all.skip(k + 1));
                k = k + 1;
            }
            assert(all.take(k as int) =~= all);
            out
        },
    }
}

/// Keeps track of the session record a proxy must delete when it exits.
/// The store that holds the records is the caller's; this guard only
/// decides which record, if any, is owed a deletion.
#[derive(Debug, Clone)]
pub struct SessionCleanupGuard {
    instance_id: Option<String>,
}

impl SessionCleanupGuard {
    /// A guard that owes no deletion.
    pub fn new() -> (r: Self)
        ensures
            r.armed() is None,
    {
        SessionCleanupGuard { instance_id: None }
    }

    /// The record owed a deletion, as characters.
    pub closed spec fn armed(&self) -> Option<Seq<char>> {
        match self.instance_id {
            Some(i) => Some(i@),
            None => None,
        }
    }

    /// From now on the record of `instance_id` is to be deleted on exit.
    pub fn arm(&mut self, instance_id: String)
        ensures
            final(self).armed() == Some(instance_id@),
    {
        self.instance_id = Some(instance_id);
    }

    /// No record is to be deleted on exit any more.
    pub fn disarm(&mut self)
        ensures
            final(self).armed() is None,
    {
        self.instance_id = None;
    }

    /// The record to delete when the proxy exits.
    pub fn pending_deletion(&self) -> (r: Option<&str>)
        ensures
            match r {
                Some(i) => self.armed() == Some(i@),
                None => self.armed() is None,
            },
    {
        match &self.instance_id {
            Some(i) => Some(i.as_str()),
            None => None,
        }
    }
}

/// Handle to a debug session tracked by the engine.
#[derive(Debug, Clone)]
pub struct SessionHandle {
    pub instance_id: InstanceId,
    pub adapter_id: String,
    pub control_port: Option<u16>,
}

} // verus!
