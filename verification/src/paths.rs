//! Directory layout of the launcher: every path the launcher touches lives
//! under `<root>/mcpelauncher`, where `<root>` is the platform application
//! data directory. Paths are handled as plain strings joined with `/`.
use vstd::prelude::*;

verus! {

/// A path joined from a base and a child, separated by `/`.
pub open spec fn spec_join(base: Seq<char>, child: Seq<char>) -> Seq<char> {
    base + "/"@ + child
}

/// Joins `base` and `child` with a `/` separator.
pub fn join_path(base: &str, child: &str) -> (r: String)
    ensures
        r@ == spec_join(base@, child@),
{
    let mut r = base.to_owned();
    r.append("/");
    r.append(child);
    r
}

/// The application data directory under the platform data root.
pub open spec fn spec_data_dir(root: Seq<char>) -> Seq<char> {
    spec_join(root, "mcpelauncher"@)
}

/// The directory holding one subdirectory per installed version.
pub open spec fn spec_versions_dir(root: Seq<char>) -> Seq<char> {
    spec_join(spec_data_dir(root), "versions"@)
}

/// The directory holding one profile subdirectory per installed version.
pub open spec fn spec_profiles_dir(root: Seq<char>) -> Seq<char> {
    spec_join(spec_data_dir(root), "profiles"@)
}

/// The directory where generated desktop shortcut files are written.
pub open spec fn spec_apps_dir(root: Seq<char>) -> Seq<char> {
    spec_join(spec_data_dir(root), "applications/minecraft_iced"@)
}

/// The icon file referenced by generated shortcuts.
pub open spec fn spec_logo_path(root: Seq<char>) -> Seq<char> {
    spec_join(spec_data_dir(root), "logo.png"@)
}

/// The install directory of the version named `name`.
pub open spec fn spec_version_path(root: Seq<char>, name: Seq<char>) -> Seq<char> {
    spec_join(spec_versions_dir(root), name)
}

/// The profile directory of the version named `name`.
pub open spec fn spec_profile_path(root: Seq<char>, name: Seq<char>) -> Seq<char> {
    spec_join(spec_profiles_dir(root), name)
}

pub fn data_dir(root: &str) -> (r: String)
    ensures
        r@ == spec_data_dir(root@),
{
    join_path(root, "mcpelauncher")
}

pub fn versions_dir(root: &str) -> (r: String)
    ensures
        r@ == spec_versions_dir(root@),
{
    let d = data_dir(root);
    join_path(d.as_str(), "versions")
}

pub fn profiles_dir(root: &str) -> (r: String)
    ensures
        r@ == spec_profiles_dir(root@),
{
    let d = data_dir(root);
    join_path(d.as_str(), "profiles")
}

pub fn apps_dir(root: &str) -> (r: String)
    ensures
        r@ == spec_apps_dir(root@),
{
    let d = data_dir(root);
    join_path(d.as_str(), "applications/minecraft_iced")
}

pub fn logo_path(root: &str) -> (r: String)
    ensures
        r@ == spec_logo_path(root@),
{
    let d = data_dir(root);
    join_path(d.as_str(), "logo.png")
}

pub fn version_path(root: &str, name: &str) -> (r: String)
    ensures
        r@ == spec_version_path(root@, name@),
{
    let d = versions_dir(root);
    join_path(d.as_str(), name)
}

pub fn profile_path(root: &str, name: &str) -> (r: String)
    ensures
        r@ == spec_profile_path(root@, name@),
{
    let d = profiles_dir(root);
    join_path(d.as_str(), name)
}

/// Whether two strings hold the same characters.
pub fn str_eq(a: &str, b: &str) -> (r: bool)
    ensures
        r == (a@ == b@),
{
    let alen = a.unicode_len();
    let blen = b.unicode_len();
    if alen != blen {
        return false;
    }
    let mut i: usize = 0;
    while i < alen
        invariant
            a@.len() == alen,
            b@.len() == blen,
            alen == blen,
            i <= alen,
            forall|j: int| 0 <= j < i ==> a@[j] == b@[j],
        decreases alen - i,
    {
        if a.get_char(i) != b.get_char(i) {
            return false;
        }
        i += 1;
    }
    proof {
        assert(a@ =~= b@);
    }
    true
}

/// Whether `p` is a prefix of `s`.
pub open spec fn spec_has_prefix(s: Seq<char>, p: Seq<char>) -> bool {
    s.len() >= p.len() && s.subrange(0, p.len() as int) == p
}

/// The profile directory that belongs to a version directory: the same
/// relative name, under the profiles root instead of the versions root.
/// `None` where `version_path` does not lie under the versions root.
pub fn derive_profile_path(root: &str, version_path: &str) -> (r: Option<String>)
    ensures
        r is Some <==> spec_has_prefix(version_path@, spec_versions_dir(root@) + "/"@),
        r matches Some(p) ==> p@ == spec_profiles_dir(root@) + "/"@ + version_path@.skip(
            spec_versions_dir(root@).len() + 1 as int,
        ),
{
    let mut prefix = versions_dir(root);
    prefix.append("/");
    let plen = prefix.as_str().unicode_len();
    let vlen = version_path.unicode_len();
    if vlen < plen {
        return None;
    }
    let head = version_path.substring_char(0, plen);
    if !str_eq(head, prefix.as_str()) {
        proof {
            assert(version_path@.subrange(0, prefix@.len() as int) != prefix@);
        }
        return None;
    }
    let rest = version_path.substring_char(plen, vlen);
    let mut out = profiles_dir(root);
    out.append("/");
    out.append(rest);
    proof {
        reveal_strlit("/");
        assert(version_path@.subrange(0, prefix@.len() as int) == prefix@);
        assert(rest@ =~= version_path@.skip(spec_versions_dir(root@).len() + 1 as int));
    }
    Some(out)
}

/// The profile path derived from a version's install directory is the
/// version's profile directory: stripping the versions root from
/// `versionsRoot/v` and rejoining under the profiles root gives
/// `profilesRoot/v`, for every name `v`.
pub proof fn lemma_derive_profile_path_roundtrip(root: Seq<char>, v: Seq<char>)
    ensures
        spec_has_prefix(spec_version_path(root, v), spec_versions_dir(root) + "/"@),
        spec_profiles_dir(root) + "/"@ + spec_version_path(root, v).skip(
            spec_versions_dir(root).len() + 1 as int,
        ) == spec_profile_path(root, v),
{
    reveal_strlit("/");
    let vd = spec_versions_dir(root);
    let vp = spec_version_path(root, v);
    assert(vp == vd + "/"@ + v);
    assert(vp.subrange(0, (vd + "/"@).len() as int) =~= vd + "/"@);
    assert(vp.skip(vd.len() + 1 as int) =~= v);
}

/// Relies on `directories::BaseDirs::new` and `BaseDirs::data_dir` for the
/// platform application data directory. The value depends on the process
/// environment, so nothing is promised of it; `None` comes when no home
/// directory can be determined.
#[verifier::external_body]
fn platform_data_root() -> (r: Option<String>) {
    directories::BaseDirs::new().map(|b| b.data_dir().to_string_lossy().into_owned())
}

/// The application data directory under the data root that the platform
/// reports for this process, or `None` when the platform reports none.
pub fn default_data_dir() -> (r: Option<String>)
    ensures
        r matches Some(d) ==> exists|root: Seq<char>| d@ == spec_data_dir(root),
{
    match platform_data_root() {
        Some(root) => {
            let d = data_dir(root.as_str());
            proof {
                assert(d@ == spec_data_dir(root@));
            }
            Some(d)
        },
        None => None,
    }
}

} // verus!
