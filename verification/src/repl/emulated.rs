//! Which source breakpoint stands in for each instruction breakpoint that
//! the client emulates (when the adapter can disassemble but cannot set
//! instruction breakpoints itself).
use vstd::prelude::*;
use crate::text::str_eq;

verus! {

/// An emulated instruction breakpoint: its key and the source line that
/// stands in for it.
#[derive(Debug)]
pub struct EmulatedInstruction {
    pub key: String,
    pub path: String,
    pub line: i64,
}

/// The source line recorded for `key` in `s`: the last record for it.
pub open spec fn record_of(s: Seq<EmulatedInstruction>, key: Seq<char>) -> Option<(Seq<char>, i64)>
    decreases s.len(),
{
    if s.len() == 0 {
        None
    } else if s.last().key@ == key {
        Some((s.last().path@, s.last().line))
    } else {
        record_of(s.drop_last(), key)
    }
}

proof fn lemma_record_push(s: Seq<EmulatedInstruction>, e: EmulatedInstruction, key: Seq<char>)
    ensures
        record_of(s.push(e), key) == if e.key@ == key {
            Some((e.path@, e.line))
        } else {
            record_of(s, key)
        },
{
    assert(s.push(e).drop_last() =~= s);
}

/// The emulated instruction breakpoints of a session, by key.
#[derive(Debug)]
pub struct EmulatedInstructions {
    records: Vec<EmulatedInstruction>,
}

impl EmulatedInstructions {
    /// The source line that stands in for the instruction breakpoint `key`.
    pub closed spec fn at(&self, key: Seq<char>) -> Option<(Seq<char>, i64)> {
        record_of(self.records@, key)
    }

    /// No emulated instruction breakpoints.
    pub fn new() -> (r: Self)
        ensures
            forall|k: Seq<char>| #[trigger] r.at(k) is None,
    {
        EmulatedInstructions { records: Vec::new() }
    }

    /// Records that line `line` of `path` stands in for `key`, replacing
    /// what was recorded for it.
    pub fn record(&mut self, key: String, path: String, line: i64)
        ensures
            forall|k: Seq<char>|
                #[trigger] final(self).at(k) == if k == key@ {
                    Some((path@, line))
                } else {
                    old(self).at(k)
                },
    {
        let ghost s = self.records@;
        let e = EmulatedInstruction { key, path, line };
        proof {
            assert forall|k: Seq<char>| #[trigger]
                record_of(s.push(e), k) == if k == e.key@ {
                    Some((e.path@, e.line))
                } else {
                    record_of(s, k)
                } by {
                lemma_record_push(s, e, k);
            }
        }
        self.records.push(e);
    }

    /// Forgets the record for `key`, returning the source line it named.
    pub fn take(&mut self, key: &str) -> (r: Option<(String, i64)>)
        ensures
            match r {
                Some((p, l)) => old(self).at(key@) == Some((p@, l)),
                None => old(self).at(key@) is None,
            },
            forall|k: Seq<char>|
                #[trigger] final(self).at(k) == if k == key@ {
                    None
                } else {
                    old(self).at(k)
                },
    {
        let ghost s = self.records@;
        let mut kept: Vec<EmulatedInstruction> = Vec::new();
        let mut found: Option<(String, i64)> = None;
        let mut i: usize = 0;
        while i < self.records.len()
            invariant
                i <= self.records.len(),
                self.records@ == s,
                forall|k: Seq<char>|
                    k != key@ ==> #[trigger] record_of(kept@, k) == record_of(s.take(i as int), k),
                record_of(kept@, key@) is None,
                match found {
                    Some((p, l)) => record_of(s.take(i as int), key@) == Some((p@, l)),
                    None => record_of(s.take(i as int), key@) is None,
                },
            decreases self.records.len() - i,
        {
            let r = &self.records[i];
            proof {
                assert(s.take(i + 1) =~= s.take(i as int).push(s[i as int]));
                assert forall|k: Seq<char>| #[trigger]
                    record_of(s.take(i + 1), k) == if s[i as int].key@ == k {
                        Some((s[i as int].path@, s[i as int].line))
                    } else {
                        record_of(s.take(i as int), k)
                    } by {
                    lemma_record_push(s.take(i as int), s[i as int], k);
                }
            }
            if str_eq(r.key.as_str(), key) {
                found = Some((r.path.clone(), r.line));
            } else {
                let e = EmulatedInstruction { key: r.key.clone(), path: r.path.clone(), line: r.line };
                proof {
                    assert forall|k: Seq<char>| #[trigger]
                        record_of(kept@.push(e), k) == if e.key@ == k {
                            Some((e.path@, e.line))
                        } else {
                            record_of(kept@, k)
                        } by {
                        lemma_record_push(kept@, e, k);
                    }
                }
                kept.push(e);
            }
            i = i + 1;
        }
        assert(s.take(s.len() as int) =~= s);
        self.records = kept;
        found
    }
}

} // verus!
