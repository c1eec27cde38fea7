//! The adapter part of a plugin manifest.
use vstd::prelude::*;

verus! {

/// How a debug adapter is reached.
#[derive(Debug, Clone, Copy, PartialEq, Eq)]
pub enum SpawnTransport {
    Stdio,
    Tcp,
}

/// How to start or reach the debug adapter of a plugin. For `Tcp` the
/// command holds `host:port`.
#[derive(Debug, Clone)]
pub struct AdapterSpawn {
    pub transport: SpawnTransport,
    pub command: String,
    pub args: Vec<String>,
}

/// The routing-relevant part of a plugin manifest (`plugin.yaml`).
#[derive(Debug, Clone)]
pub struct PluginManifest {
    pub id: String,
    pub name: String,
    pub launch_types: Vec<String>,
    pub file_extensions: Vec<String>,
    pub adapter: AdapterSpawn,
}

/// The characters of each string, in order.
pub open spec fn strings_view(v: Seq<String>) -> Seq<Seq<char>> {
    v.map_values(|s: String| s@)
}

/// A copy of `v`.
pub fn clone_strings(v: &Vec<String>) -> (r: Vec<String>)
    ensures
        r@ == v@,
{
    let mut r: Vec<String> = Vec::new();
    let mut i: usize = 0;
    while i < v.len()
        invariant
            i <= v.len(),
            r@ == v@.take(i as int),
        decreases v.len() - i,
    {
        let s = v[i].clone();
        r.push(s);
        assert(r@ =~= v@.take((i + 1) as int));
        i = i + 1;
    }
    assert(v@.take(v.len() as int) =~= v@);
    r
}

} // verus!
