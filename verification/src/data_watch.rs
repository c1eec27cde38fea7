//! Client-side data watches: emulated data breakpoints that stop when the
//! value of an expression changes between two stops.
use vstd::prelude::*;
use crate::text::owned;

verus! {

/// Client-side data watch (emulated data breakpoint).
#[derive(Debug, Clone, PartialEq, Eq)]
pub struct DataWatchEntry {
    pub expression: String,
    pub baseline: Option<String>,
    pub armed: bool,
    pub emulated: bool,
}

/// The remembered value of a watch, as characters.
pub open spec fn baseline_view(entry: DataWatchEntry) -> Option<Seq<char>> {
    match entry.baseline {
        Some(b) => Some(b@),
        None => None,
    }
}

/// Whether feeding `value` to `entry` makes the watch fire.
pub open spec fn watch_fires(entry: DataWatchEntry, value: Seq<char>) -> bool {
    entry.armed && baseline_view(entry) != Some(value)
}

impl DataWatchEntry {
    /// A watch on `expression` that has not seen a value yet.
    pub fn new(expression: String, emulated: bool) -> (r: Self)
        ensures
            r.expression == expression,
            r.baseline is None,
            !r.armed,
            r.emulated == emulated,
    {
        DataWatchEntry { expression, baseline: None, armed: false, emulated }
    }
}

/// Feeds the value observed at a stop to `entry`. The first value arms the
/// watch; afterwards the watch fires whenever the value differs from the
/// previous one. The observed value always becomes the new baseline.
pub fn data_watch_should_stop(entry: &mut DataWatchEntry, current_value: &str) -> (fire: bool)
    ensures
        fire == watch_fires(*old(entry), current_value@),
        final(entry).armed,
        baseline_view(*final(entry)) == Some(current_value@),
        final(entry).expression == old(entry).expression,
        final(entry).emulated == old(entry).emulated,
{
    if !entry.armed {
        entry.baseline = Some(owned(current_value));
        entry.armed = true;
        return false;
    }
    let current = owned(current_value);
    let same = match &entry.baseline {
        Some(b) => *b == current,
        None => false,
    };
    if !same {
        entry.baseline = Some(current);
        return true;
    }
    false
}

/// Data breakpoints are emulated exactly when the adapter lacks them.
pub fn uses_emulated_data_breakpoints(supports_data_breakpoints: bool) -> (r: bool)
    ensures
        r == !supports_data_breakpoints,
{
    !supports_data_breakpoints
}

/// A watch that has not been armed never fires; once a value `a` has been
/// observed, the next value `b` fires the watch exactly when it differs
/// from `a`.
pub proof fn lemma_fires_only_on_change(unarmed: DataWatchEntry, seen: DataWatchEntry, a: Seq<char>, b: Seq<char>)
    requires
        !unarmed.armed,
        seen.armed,
        baseline_view(seen) == Some(a),
    ensures
        !watch_fires(unarmed, a),
        watch_fires(seen, b) <==> a != b,
        !watch_fires(seen, a),
{
}

} // verus!
