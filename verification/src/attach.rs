//! Attach and launch arguments of RSP targets: defaults from the target
//! manifest fill what the client left out, and the client's values win.
use vstd::prelude::*;
use crate::text::{owned, str_eq};
use crate::text_map::TextMap;

verus! {

/// A JSON value of request arguments as the merge sees it: `null`, an
/// object (field values kept as JSON text), or any other value (kept as
/// JSON text).
#[derive(Debug, Clone)]
pub enum AttachArguments {
    Null,
    Object(TextMap),
    Other(String),
}

/// The fields of an object, if the value is one.
pub open spec fn fields_of(a: AttachArguments) -> Option<Map<Seq<char>, Seq<char>>> {
    match a {
        AttachArguments::Object(m) => Some(m@),
        _ => None,
    }
}

/// The arguments after merging `defaults` into `client`: nothing changes
/// unless the defaults are an object; an object client keeps its fields
/// and gains the missing ones; `null` becomes the defaults; any other value
/// becomes the defaults with the client's value under `extra`.
pub open spec fn merged_fields(client: AttachArguments, defaults: Map<Seq<char>, Seq<char>>) -> Map<
    Seq<char>,
    Seq<char>,
> {
    match client {
        AttachArguments::Object(c) => defaults.union_prefer_right(c@),
        AttachArguments::Null => defaults,
        AttachArguments::Other(t) => defaults.insert("extra"@, t@),
    }
}

/// Fills missing attach/launch fields from target defaults; client values
/// win on conflict.
pub fn merge_default_attach_arguments(client: &mut AttachArguments, defaults: &AttachArguments)
    ensures
        match fields_of(*defaults) {
            Some(d) => fields_of(*final(client)) == Some(merged_fields(*old(client), d)),
            None => *final(client) == *old(client),
        },
{
    let d = match defaults {
        AttachArguments::Object(d) => d,
        _ => return,
    };
    let mut taken = AttachArguments::Null;
    std::mem::swap(&mut taken, client);
    match taken {
        AttachArguments::Object(mut c) => {
            c.fill_missing_from(d);
            *client = AttachArguments::Object(c);
        },
        AttachArguments::Null => {
            *client = AttachArguments::Object(d.clone());
        },
        AttachArguments::Other(t) => {
            let mut merged = d.clone();
            merged.insert(owned("extra"), t);
            *client = AttachArguments::Object(merged);
        },
    }
}

/// Merges attach defaults into the arguments of a request being forwarded
/// to the adapter: only `attach` and `launch` requests are touched, and
/// missing arguments start as an empty object.
pub fn merge_debug_request_arguments(
    command: &str,
    arguments: &mut Option<AttachArguments>,
    defaults: &AttachArguments,
)
    ensures
        if command@ == "attach"@ || command@ == "launch"@ {
            *final(arguments) matches Some(a) && match fields_of(*defaults) {
                Some(d) => fields_of(a) == Some(
                    match *old(arguments) {
                        Some(x) => merged_fields(x, d),
                        None => d,
                    },
                ),
                None => match *old(arguments) {
                    Some(x) => a == x,
                    None => fields_of(a) == Some(Map::<Seq<char>, Seq<char>>::empty()),
                },
            }
        } else {
            *final(arguments) == *old(arguments)
        },
{
    if !str_eq(command, "attach") && !str_eq(command, "launch") {
        return;
    }
    let mut args = match arguments.take() {
        Some(a) => a,
        None => AttachArguments::Object(TextMap::new()),
    };
    proof {
        if let Some(d) = fields_of(*defaults) {
            assert(d.union_prefer_right(Map::<Seq<char>, Seq<char>>::empty()) =~= d);
        }
    }
    merge_default_attach_arguments(&mut args, defaults);
    *arguments = Some(args);
}

/// Defaults never override what the client sent: every field the client
/// gave keeps its value, and every default field the client lacked is
/// added.
pub proof fn lemma_client_values_win(
    client: Map<Seq<char>, Seq<char>>,
    defaults: Map<Seq<char>, Seq<char>>,
    key: Seq<char>,
)
    ensures
        client.contains_key(key) ==> defaults.union_prefer_right(client).contains_key(key)
            && defaults.union_prefer_right(client)[key] == client[key],
        !client.contains_key(key) && defaults.contains_key(key) ==> defaults.union_prefer_right(
            client,
        )[key] == defaults[key],
        defaults.union_prefer_right(client).contains_key(key) <==> client.contains_key(key)
            || defaults.contains_key(key),
{
}

} // verus!
