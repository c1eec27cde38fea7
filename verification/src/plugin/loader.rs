//! Where manifest files are found, and how builtin and user manifests
//! combine.
use vstd::prelude::*;
use crate::paths::{is_file, join_path, joined_path};
use crate::plugin::manifest::PluginManifest;
use crate::plugin::target::TargetManifest;
use crate::text::opt_view;
use crate::sorted::{by_key, keys_sorted, lemma_later_overrides, merge_by_key, Keyed};

verus! {

/// File names recognised as a plugin manifest, in the order they are tried.
pub open spec fn plugin_manifest_names() -> Seq<Seq<char>> {
    seq!["plugin.yaml"@, "plugin.yml"@, "manifest.yaml"@, "manifest.yml"@]
}

/// File names recognised as a target manifest, in the order they are tried.
pub open spec fn target_manifest_names() -> Seq<Seq<char>> {
    seq!["target.yaml"@, "target.yml"@, "manifest.yaml"@, "manifest.yml"@]
}

/// The first of the names, joined to `dir`, whose file was found, given
/// whether each was found (in order; names past the answers count as not
/// found).
pub open spec fn first_existing(dir: Seq<char>, names: Seq<Seq<char>>, found: Seq<bool>) -> Option<
    Seq<char>,
>
    decreases names.len(),
{
    if names.len() == 0 || found.len() == 0 {
        None
    } else if found[0] {
        Some(joined_path(dir, names[0]))
    } else {
        first_existing(dir, names.skip(1), found.skip(1))
    }
}

/// The texts of the names.
pub open spec fn name_views(names: Seq<&str>) -> Seq<Seq<char>> {
    names.map_values(|n: &str| n@)
}

/// The first of `names`, joined to `dir`, whose file was found, given
/// whether each was found.
pub fn first_existing_path(dir: &str, names: &Vec<&str>, found: &Vec<bool>) -> (r: Option<String>)
    ensures
        opt_view(r) == first_existing(dir@, name_views(names@), found@),
{
    let mut i: usize = 0;
    assert(name_views(names@).skip(0) =~= name_views(names@));
    assert(found@.skip(0) =~= found@);
    while i < names.len() && i < found.len()
        invariant
            i <= names.len(),
            i <= found.len(),
            first_existing(dir@, name_views(names@), found@) == first_existing(
                dir@,
                name_views(names@).skip(i as int),
                found@.skip(i as int),
            ),
        decreases names.len() - i,
    {
        let ghost n = name_views(names@).skip(i as int);
        let ghost f = found@.skip(i as int);
        assert(n[0] == names@[i as int]@);
        assert(f[0] == found@[i as int]);
        if found[i] {
            return Some(join_path(dir, names[i]));
        }
        assert(n.skip(1) =~= name_views(names@).skip(i + 1));
        assert(f.skip(1) =~= found@.skip(i + 1));
        i = i + 1;
    }
    None
}

/// Four candidate names, in the order they are tried.
pub open spec fn four_names(a: Seq<char>, b: Seq<char>, c: Seq<char>, d: Seq<char>) -> Seq<
    Seq<char>,
> {
    seq![a, b, c, d]
}

/// The first of `dir/a`, `dir/b`, `dir/c`, `dir/d` that is a file. Each is
/// looked up on disk in turn until one is found; the answers are not known
/// here, so the result is stated for some answers.
fn first_file(dir: &str, a: &str, b: &str, c: &str, d: &str) -> (r: Option<String>)
    ensures
        exists|found: Seq<bool>|
            found.len() <= 4 && opt_view(r) == #[trigger] first_existing(
                dir@,
                four_names(a@, b@, c@, d@),
                found,
            ),
{
    let mut names: Vec<&str> = Vec::new();
    names.push(a);
    names.push(b);
    names.push(c);
    names.push(d);
    assert(name_views(names@) =~= four_names(a@, b@, c@, d@));
    let mut found: Vec<bool> = Vec::new();
    let mut done = false;
    let mut i: usize = 0;
    while i < names.len() && !done
        invariant
            names@.len() == 4,
            i <= 4,
            found@.len() == i,
        decreases names.len() - i,
    {
        let p = join_path(dir, names[i]);
        let here = is_file(&p);
        found.push(here);
        done = here;
        i = i + 1;
    }
    first_existing_path(dir, &names, &found)
}

/// The manifest file inside a per-plugin directory, if present: the first
/// existing one of `plugin.yaml`, `plugin.yml`, `manifest.yaml`,
/// `manifest.yml`. Which exist is up to the disk; the result is stated for
/// some answers to that, in that order.
pub fn manifest_in_plugin_dir(dir: &str) -> (r: Option<String>)
    ensures
        exists|found: Seq<bool>|
            found.len() <= 4 && opt_view(r) == #[trigger] first_existing(
                dir@,
                plugin_manifest_names(),
                found,
            ),
{
    let r = first_file(dir, "plugin.yaml", "plugin.yml", "manifest.yaml", "manifest.yml");
    proof {
        let found = choose|found: Seq<bool>|
            found.len() <= 4 && opt_view(r) == #[trigger] first_existing(
                dir@,
                four_names("plugin.yaml"@, "plugin.yml"@, "manifest.yaml"@, "manifest.yml"@),
                found,
            );
        assert(four_names("plugin.yaml"@, "plugin.yml"@, "manifest.yaml"@, "manifest.yml"@) =~= plugin_manifest_names());
        assert(opt_view(r) == first_existing(dir@, plugin_manifest_names(), found));
    }
    r
}

/// The target manifest file inside a per-target directory, if present: the
/// first existing one of `target.yaml`, `target.yml`, `manifest.yaml`,
/// `manifest.yml`. Which exist is up to the disk; the result is stated for
/// some answers to that, in that order.
pub fn target_manifest_in_dir(dir: &str) -> (r: Option<String>)
    ensures
        exists|found: Seq<bool>|
            found.len() <= 4 && opt_view(r) == #[trigger] first_existing(
                dir@,
                target_manifest_names(),
                found,
            ),
{
    let r = first_file(dir, "target.yaml", "target.yml", "manifest.yaml", "manifest.yml");
    proof {
        let found = choose|found: Seq<bool>|
            found.len() <= 4 && opt_view(r) == #[trigger] first_existing(
                dir@,
                four_names("target.yaml"@, "target.yml"@, "manifest.yaml"@, "manifest.yml"@),
                found,
            );
        assert(four_names("target.yaml"@, "target.yml"@, "manifest.yaml"@, "manifest.yml"@) =~= target_manifest_names());
        assert(opt_view(r) == first_existing(dir@, target_manifest_names(), found));
    }
    r
}

// ---------------------------------------------------------------------------
// Combining builtin and user manifests
// ---------------------------------------------------------------------------
/// Manifests are kept in order of id.
impl Keyed for PluginManifest {
    open spec fn key(&self) -> Seq<char> {
        self.id@
    }

    fn key_text(&self) -> (r: &str) {
        self.id.as_str()
    }
}

/// Combines builtin and user manifests: one manifest per id, in increasing
/// order of id, a user manifest replacing the builtin one of the same id
/// (and, within one list, a later manifest an earlier one).
pub fn load_defaults(builtin: Vec<PluginManifest>, user: Option<Vec<PluginManifest>>) -> (r: Vec<
    PluginManifest,
>)
    ensures
        keys_sorted(r@),
        by_key(r@) == by_key(
            match user {
                Some(u) => builtin@ + u@,
                None => builtin@,
            },
        ),
{
    merge_by_key(builtin, user)
}

/// What the combined list holds for an id: a user manifest of that id if
/// there is one, else the builtin one; ids in neither list are absent.
pub proof fn lemma_user_overrides_builtin(builtin: Seq<PluginManifest>, user: Seq<PluginManifest>, id: Seq<char>)
    ensures
        by_key(user).dom().contains(id) ==> by_key(builtin + user).dom().contains(id) && by_key(
            builtin + user,
        )[id] == by_key(user)[id],
        !by_key(user).dom().contains(id) ==> (by_key(builtin + user).dom().contains(id)
            == by_key(builtin).dom().contains(id) && (by_key(builtin).dom().contains(id) ==> by_key(
            builtin + user,
        )[id] == by_key(builtin)[id])),
{
    lemma_later_overrides(builtin, user, id);
}

/// Target manifests are kept in order of id.
impl Keyed for TargetManifest {
    open spec fn key(&self) -> Seq<char> {
        self.id@
    }

    fn key_text(&self) -> (r: &str) {
        self.id.as_str()
    }
}

/// Combines builtin and user target manifests: one per id, in increasing
/// order of id, a user manifest replacing the builtin one of the same id.
pub fn load_target_defaults(builtin: Vec<TargetManifest>, user: Option<Vec<TargetManifest>>) -> (r: Vec<
    TargetManifest,
>)
    ensures
        keys_sorted(r@),
        by_key(r@) == by_key(
            match user {
                Some(u) => builtin@ + u@,
                None => builtin@,
            },
        ),
{
    merge_by_key(builtin, user)
}

/// The extension of a manifest file: `yaml` or `yml`.
pub open spec fn yaml_extension(ext: Option<Seq<char>>) -> bool {
    ext == Some("yaml"@) || ext == Some("yml"@)
}

/// Whether a file with extension `ext` may be a manifest (and is read to
/// find out).
pub fn is_yaml_extension(ext: Option<&str>) -> (r: bool)
    ensures
        r == yaml_extension(
            match ext {
                Some(e) => Some(e@),
                None => None,
            },
        ),
{
    match ext {
        Some(e) => crate::text::str_eq(e, "yaml") || crate::text::str_eq(e, "yml"),
        None => false,
    }
}

/// Whether a file in a plugin directory is a plugin manifest: a YAML file
/// (by extension) whose document has both an `id` and an `adapter` key.
pub fn is_plugin_manifest(ext: Option<&str>, has_id: bool, has_adapter: bool) -> (r: bool)
    ensures
        r == (yaml_extension(
            match ext {
                Some(e) => Some(e@),
                None => None,
            },
        ) && has_id && has_adapter),
{
    is_yaml_extension(ext) && has_id && has_adapter
}

/// Whether a file in a plugin directory is a target manifest: a YAML file
/// (by extension) whose document has `targetTypes` and `id` keys and no
/// `adapter` key.
pub fn is_target_manifest(ext: Option<&str>, has_target_types: bool, has_id: bool, has_adapter: bool) -> (r: bool)
    ensures
        r == (yaml_extension(
            match ext {
                Some(e) => Some(e@),
                None => None,
            },
        ) && has_target_types && has_id && !has_adapter),
{
    is_yaml_extension(ext) && has_target_types && has_id && !has_adapter
}

} // verus!
