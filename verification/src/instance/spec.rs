//! Instance identifiers and the metadata an instance is registered with.
use vstd::prelude::*;
use crate::text_map::TextMap;
use crate::num::{hex_str, push_hex};
use crate::text::owned;

verus! {

/// Reads the system clock: seconds and sub-second nanoseconds since the
/// Unix epoch (`SystemTime::now().duration_since(UNIX_EPOCH)`), `None` when
/// the clock is before the epoch. Only the bound on the nanoseconds, which
/// `Duration::subsec_nanos` documents, is stated; the time itself is not.
#[verifier::external_body]
fn system_clock() -> (r: Option<(u64, u32)>)
    ensures
        r matches Some(t) ==> t.1 < 1_000_000_000,
{
    std::time::SystemTime::now().duration_since(std::time::UNIX_EPOCH).ok().map(
        |d| (d.as_secs(), d.subsec_nanos()),
    )
}

/// Whole seconds of a clock reading as `i64` (`as` conversion), 0 without
/// a reading.
pub open spec fn clock_seconds(clock: Option<(u64, u32)>) -> i64 {
    match clock {
        Some(t) => t.0 as i64,
        None => 0i64,
    }
}

/// Whole seconds of a clock reading as `i64` (`as` conversion), 0 without
/// a reading.
pub fn unix_seconds(clock: Option<(u64, u32)>) -> (r: i64)
    ensures
        r == clock_seconds(clock),
{
    match clock {
        Some(t) => t.0 as i64,
        None => 0,
    }
}

/// Current Unix time in whole seconds (0 when the clock is before 1970).
pub fn now_unix() -> (r: i64)
    ensures
        exists|clock: Option<(u64, u32)>| r == #[trigger] clock_seconds(clock),
{
    let clock = system_clock();
    unix_seconds(clock)
}

/// Identifier of a registered instance.
#[derive(Debug, Clone, PartialEq, Eq, Hash)]
pub struct InstanceId(pub String);

/// The identifier formed from a clock reading: `inst-`, the seconds and the
/// nanoseconds as fixed-width upper-case hexadecimal, joined by `-`.
pub open spec fn clock_id(secs: u64, nanos: u32) -> Seq<char> {
    "inst-"@ + hex_str(secs as nat, 16) + "-"@ + hex_str(nanos as nat, 8)
}

/// The identifier formed from a clock reading, or from time zero without
/// one.
pub open spec fn reading_id(clock: Option<(u64, u32)>) -> Seq<char> {
    match clock {
        Some(t) => clock_id(t.0, t.1),
        None => clock_id(0, 0),
    }
}

impl InstanceId {
    /// The identifier formed from the given clock reading.
    pub fn from_clock(secs: u64, nanos: u32) -> (r: Self)
        ensures
            r.0@ == clock_id(secs, nanos),
    {
        let mut s = owned("inst-");
        push_hex(&mut s, secs, 16);
        crate::text::append(&mut s, "-");
        push_hex(&mut s, nanos as u64, 8);
        InstanceId(s)
    }

    /// The identifier formed from a clock reading, or from time zero
    /// without one.
    pub fn from_reading(clock: Option<(u64, u32)>) -> (r: Self)
        ensures
            r.0@ == reading_id(clock),
    {
        let (secs, nanos) = match clock {
            Some(t) => t,
            None => (0, 0),
        };
        InstanceId::from_clock(secs, nanos)
    }

    /// A fresh identifier taken from the system clock.
    pub fn generate() -> (r: Self)
        ensures
            exists|clock: Option<(u64, u32)>| r.0@ == #[trigger] reading_id(clock),
    {
        let clock = system_clock();
        InstanceId::from_reading(clock)
    }

    /// The identifier as text.
    pub fn as_str(&self) -> (r: &str)
        ensures
            r@ == self.0@,
    {
        self.0.as_str()
    }
}

/// Metadata supplied when registering a new instance.
#[derive(Debug, Clone)]
pub struct InstanceSpec {
    pub id: InstanceId,
    pub kind: String,
    pub label: Option<String>,
    pub scope: Option<String>,
    /// Control-plane port for CLI/agent attach (when applicable).
    pub control_port: Option<u16>,
    /// Parent instance when this was spawned as a child.
    pub parent_id: Option<InstanceId>,
    /// Owning process id when the instance is backed by a live child process.
    pub pid: Option<u32>,
    pub tags: TextMap,
    pub created_at_unix: i64,
}

/// What a spec of `kind` made at the clock reading `clock` holds: the id
/// and the creation time both from that reading, and no optional metadata.
pub open spec fn made_at_reading(r: InstanceSpec, kind: Seq<char>, clock: Option<(u64, u32)>) -> bool {
    &&& r.id.0@ == reading_id(clock)
    &&& r.created_at_unix == clock_seconds(clock)
    &&& r.kind@ == kind
    &&& r.label is None
    &&& r.scope is None
    &&& r.control_port is None
    &&& r.parent_id is None
    &&& r.pid is None
    &&& r.tags@ == Map::<Seq<char>, Seq<char>>::empty()
}

impl InstanceSpec {
    /// A spec of the given kind made at the clock reading `clock`: id and
    /// creation time from that reading, and no optional metadata.
    pub fn at_clock(kind: &str, clock: Option<(u64, u32)>) -> (r: Self)
        ensures
            made_at_reading(r, kind@, clock),
    {
        InstanceSpec {
            id: InstanceId::from_reading(clock),
            kind: owned(kind),
            label: None,
            scope: None,
            control_port: None,
            parent_id: None,
            pid: None,
            tags: TextMap::new(),
            created_at_unix: unix_seconds(clock),
        }
    }

    /// A spec of the given kind with a fresh id and the current time, both
    /// from one reading of the system clock, and no optional metadata.
    pub fn new(kind: &str) -> (r: Self)
        ensures
            exists|clock: Option<(u64, u32)>| #[trigger] made_at_reading(r, kind@, clock),
    {
        let clock = system_clock();
        InstanceSpec::at_clock(kind, clock)
    }

    /// The same spec with another id.
    pub fn with_id(self, id: InstanceId) -> (r: Self)
        ensures
            r == (InstanceSpec { id, ..self }),
    {
        InstanceSpec { id, ..self }
    }

    /// The same spec with a label.
    pub fn with_label(self, label: &str) -> (r: Self)
        ensures
            r.label matches Some(l) && l@ == label@,
            r == (InstanceSpec { label: r.label, ..self }),
    {
        InstanceSpec { label: Some(owned(label)), ..self }
    }

    /// The same spec with a scope.
    pub fn with_scope(self, scope: &str) -> (r: Self)
        ensures
            r.scope matches Some(s) && s@ == scope@,
            r == (InstanceSpec { scope: r.scope, ..self }),
    {
        InstanceSpec { scope: Some(owned(scope)), ..self }
    }

    /// The same spec with a control-plane port.
    pub fn with_control_port(self, port: u16) -> (r: Self)
        ensures
            r == (InstanceSpec { control_port: Some(port), ..self }),
    {
        InstanceSpec { control_port: Some(port), ..self }
    }

    /// The same spec with a parent instance.
    pub fn with_parent_id(self, parent: InstanceId) -> (r: Self)
        ensures
            r == (InstanceSpec { parent_id: Some(parent), ..self }),
    {
        InstanceSpec { parent_id: Some(parent), ..self }
    }

    /// The same spec with an owning process id.
    pub fn with_pid(self, pid: u32) -> (r: Self)
        ensures
            r == (InstanceSpec { pid: Some(pid), ..self }),
    {
        InstanceSpec { pid: Some(pid), ..self }
    }

    /// The same spec with tag `key` set to `value`.
    pub fn with_tag(self, key: &str, value: &str) -> (r: Self)
        ensures
            r.tags@ == self.tags@.insert(key@, value@),
            r == (InstanceSpec { tags: r.tags, ..self }),
    {
        let mut spec = self;
        spec.tags.insert(owned(key), owned(value));
        spec
    }
}

} // verus!
