//! RSP target manifests (`target.yaml`): connection endpoint, backend
//! process, and the checks a manifest must pass.
use vstd::prelude::*;
use crate::attach::{fields_of, AttachArguments};
use crate::json_text::{json_string, json_string_text};
use crate::num::{int_str, push_u64};
use crate::text::{chars_of, owned, trim, trim_chars};
use crate::text_map::TextMap;

verus! {

/// Errors of plugin and target manifests.
#[derive(Debug, Clone, PartialEq, Eq)]
pub enum PluginError {
    /// The manifest breaks a rule; the message says which.
    InvalidManifest(String),
    /// A manifest file could not be read.
    Io { path: String, message: String },
    /// A manifest file is not valid YAML for its type.
    Parse { path: String, message: String },
}

/// Host used when a manifest gives none.
pub fn default_host() -> (r: String)
    ensures
        r@ == "127.0.0.1"@,
{
    owned("127.0.0.1")
}

/// Port used when a manifest gives none.
pub fn default_port() -> (r: u16)
    ensures
        r == 1234,
{
    1234
}

/// gdb-remote connection endpoint for an RSP target.
#[derive(Debug, Clone)]
pub struct TargetConnect {
    pub host: String,
    pub port: u16,
}

impl Default for TargetConnect {
    fn default() -> (r: Self)
        ensures
            r.host@ == "127.0.0.1"@,
            r.port == 1234,
    {
        TargetConnect { host: default_host(), port: default_port() }
    }
}

/// Process spawn specification for an RSP backend (QEMU, gdbserver, …).
#[derive(Debug, Clone)]
pub struct TargetSpawn {
    pub command: String,
    pub args: Vec<String>,
}

/// Spawn command with templates resolved for a concrete program path.
#[derive(Debug, Clone, PartialEq, Eq)]
pub struct ResolvedTargetSpawn {
    pub command: String,
    pub args: Vec<String>,
}

/// The declarative part of an RSP target manifest.
#[derive(Debug, Clone)]
pub struct TargetManifest {
    pub id: String,
    pub name: String,
    pub version: String,
    pub target_types: Vec<String>,
    pub description: Option<String>,
    pub spawn: Option<TargetSpawn>,
    pub connect: Option<TargetConnect>,
}

pub open spec fn blank(s: Seq<char>) -> bool {
    trim(s).len() == 0
}

/// The first rule a manifest breaks, or `None` when it is valid.
pub open spec fn target_manifest_problem(m: TargetManifest) -> Option<Seq<char>> {
    if blank(m.id@) {
        Some("id must not be empty"@)
    } else if blank(m.name@) {
        Some("name must not be empty"@)
    } else if blank(m.version@) {
        Some("version must not be empty"@)
    } else if m.target_types.len() == 0 {
        Some("at least one targetType is required"@)
    } else if m.spawn matches Some(s) && blank(s.command@) {
        Some("spawn.command must not be empty"@)
    } else {
        None
    }
}

fn is_blank(s: &String) -> (b: bool)
    ensures
        b == blank(s@),
{
    let v = chars_of(s.as_str());
    trim_chars(&v).len() == 0
}

impl TargetManifest {
    /// Checks that id, name and version are not blank, that at least one
    /// target type is given, and that a spawn command, if any, is not blank.
    pub fn validate(&self) -> (r: Result<(), PluginError>)
        ensures
            match target_manifest_problem(*self) {
                None => r is Ok,
                Some(msg) => r matches Err(PluginError::InvalidManifest(m)) && m@ == msg,
            },
    {
        if is_blank(&self.id) {
            return Err(PluginError::InvalidManifest(owned("id must not be empty")));
        }
        if is_blank(&self.name) {
            return Err(PluginError::InvalidManifest(owned("name must not be empty")));
        }
        if is_blank(&self.version) {
            return Err(PluginError::InvalidManifest(owned("version must not be empty")));
        }
        if self.target_types.len() == 0 {
            return Err(PluginError::InvalidManifest(owned("at least one targetType is required")));
        }
        match &self.spawn {
            Some(spawn) => {
                if is_blank(&spawn.command) {
                    return Err(PluginError::InvalidManifest(owned("spawn.command must not be empty")));
                }
            },
            None => {},
        }
        Ok(())
    }
}

/// A target resolved for a concrete program, ready for spawn and
/// gdb-remote attach.
#[derive(Debug, Clone)]
pub struct ResolvedTarget {
    pub id: String,
    pub name: String,
    pub description: Option<String>,
    pub spawn: Option<ResolvedTargetSpawn>,
    pub host: String,
    pub port: u16,
    /// Fields merged into the gdb-remote attach request.
    pub attach_fields: AttachArguments,
}

/// The endpoint fields of an attach request: `host` as a JSON string and
/// `port` as a JSON number.
pub open spec fn endpoint_fields(host: Seq<char>, port: u16) -> Map<Seq<char>, Seq<char>> {
    map!["host"@ => json_string_text(host), "port"@ => int_str(port as int)]
}

impl ResolvedTarget {
    /// The gdb-remote attach arguments: the attach fields, with `host` and
    /// `port` added from the endpoint where they are missing; only the
    /// endpoint when the attach fields are not an object.
    pub fn attach_arguments(&self) -> (r: AttachArguments)
        ensures
            fields_of(r) == Some(
                match fields_of(self.attach_fields) {
                    Some(m) => endpoint_fields(self.host@, self.port).union_prefer_right(m),
                    None => endpoint_fields(self.host@, self.port),
                },
            ),
    {
        let mut endpoint = TextMap::new();
        endpoint.insert(owned("host"), json_string(self.host.as_str()));
        let mut port_text = String::new();
        push_u64(&mut port_text, self.port as u64);
        endpoint.insert(owned("port"), port_text);
        assert(endpoint@ =~= endpoint_fields(self.host@, self.port));
        match &self.attach_fields {
            AttachArguments::Object(m) => {
                let mut out = m.clone();
                out.fill_missing_from(&endpoint);
                AttachArguments::Object(out)
            },
            _ => AttachArguments::Object(endpoint),
        }
    }
}

} // verus!
