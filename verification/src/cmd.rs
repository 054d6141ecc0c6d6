//! Construction of the argument vectors handed to the external client and
//! extractor binaries. The order of the flags is fixed: the client is called
//! as `-dg <versionPath> [-dd <profilePath>] [-ifp <addonPath>]`, and the
//! extractor as `<apkPath> <targetDir>`.
use crate::paths;
use vstd::prelude::*;

verus! {

/// The external client binary that runs the game.
pub open spec fn spec_client_binary() -> Seq<char> {
    "/app/bin/mcpelauncher-client"@
}

/// The external extractor binary that unpacks a game package.
pub open spec fn spec_extractor_binary() -> Seq<char> {
    "/app/bin/mcpelauncher-extract"@
}

pub fn client_binary() -> (r: String)
    ensures
        r@ == spec_client_binary(),
{
    String::from_str("/app/bin/mcpelauncher-client")
}

pub fn extractor_binary() -> (r: String)
    ensures
        r@ == spec_extractor_binary(),
{
    String::from_str("/app/bin/mcpelauncher-extract")
}

/// The exact argument vector for launching the client on the version
/// installed at `version_path`: the client binary, the game-directory flag,
/// then, unless the shared profile is used, the data-directory flag with the
/// version's profile directory, then, if an addon is given, the file-install
/// flag with the addon's path.
pub open spec fn spec_launch_args(
    version_path: Seq<char>,
    profile_path: Seq<char>,
    addon_path: Option<Seq<char>>,
    shared_profile: bool,
) -> Seq<Seq<char>> {
    let base = seq![spec_client_binary(), "-dg"@, version_path];
    let with_profile = if shared_profile {
        base
    } else {
        base + seq!["-dd"@, profile_path]
    };
    match addon_path {
        Some(a) => with_profile + seq!["-ifp"@, a],
        None => with_profile,
    }
}

/// Builds the client argument vector for the version installed at
/// `version_path` whose profile directory is `profile_path`.
pub fn build_launch_args(
    version_path: &str,
    profile_path: &str,
    addon_path: Option<&str>,
    shared_profile: bool,
) -> (r: Vec<String>)
    ensures
        r.deep_view() == spec_launch_args(
            version_path@,
            profile_path@,
            addon_path.deep_view(),
            shared_profile,
        ),
{
    let mut r: Vec<String> = Vec::new();
    r.push(client_binary());
    r.push(String::from_str("-dg"));
    r.push(version_path.to_owned());
    if !shared_profile {
        r.push(String::from_str("-dd"));
        r.push(profile_path.to_owned());
    }
    match addon_path {
        Some(a) => {
            r.push(String::from_str("-ifp"));
            r.push(a.to_owned());
        },
        None => {},
    }
    proof {
        assert(r.deep_view() =~= spec_launch_args(
            version_path@,
            profile_path@,
            addon_path.deep_view(),
            shared_profile,
        ));
    }
    r
}

/// Builds the client argument vector for the version named `name` under the
/// layout rooted at `root`, with the data directory pointing at the profile
/// directory derived from the name.
pub fn build_launch_args_for(
    root: &str,
    name: &str,
    addon_path: Option<&str>,
    shared_profile: bool,
) -> (r: Vec<String>)
    ensures
        r.deep_view() == spec_launch_args(
            paths::spec_version_path(root@, name@),
            paths::spec_profile_path(root@, name@),
            addon_path.deep_view(),
            shared_profile,
        ),
{
    let vp = paths::version_path(root, name);
    let pp = paths::profile_path(root, name);
    build_launch_args(vp.as_str(), pp.as_str(), addon_path, shared_profile)
}

/// With the shared profile, no element of the launch arguments is the
/// data-directory flag, as long as neither the version path nor the addon
/// path is itself the literal flag.
pub proof fn lemma_shared_profile_no_data_dir_flag(
    version_path: Seq<char>,
    profile_path: Seq<char>,
    addon_path: Option<Seq<char>>,
)
    requires
        version_path != "-dd"@,
        addon_path matches Some(a) ==> a != "-dd"@,
    ensures
        forall|i: int|
            0 <= i < spec_launch_args(version_path, profile_path, addon_path, true).len()
                ==> spec_launch_args(version_path, profile_path, addon_path, true)[i] != "-dd"@,
{
    reveal_strlit("-dd");
    reveal_strlit("-dg");
    reveal_strlit("-ifp");
    reveal_strlit("/app/bin/mcpelauncher-client");
    let args = spec_launch_args(version_path, profile_path, addon_path, true);
    assert(spec_client_binary() != "-dd"@) by {
        assert(spec_client_binary().len() == 28);
        assert("-dd"@.len() == 3);
    }
    assert("-dg"@ != "-dd"@) by {
        assert("-dg"@[2] == 'g');
        assert("-dd"@[2] == 'd');
    }
    assert("-ifp"@ != "-dd"@) by {
        assert("-ifp"@.len() == 4);
        assert("-dd"@.len() == 3);
    }
    assert forall|i: int| 0 <= i < args.len() implies args[i] != "-dd"@ by {
        match addon_path {
            Some(a) => {
                assert(args.len() == 5);
            },
            None => {
                assert(args.len() == 3);
            },
        }
    }
}

/// Without the shared profile, the launch arguments always carry the
/// data-directory flag, immediately followed by the profile path.
pub proof fn lemma_unshared_profile_data_dir_flag(
    version_path: Seq<char>,
    profile_path: Seq<char>,
    addon_path: Option<Seq<char>>,
)
    ensures
        spec_launch_args(version_path, profile_path, addon_path, false).len() >= 5,
        spec_launch_args(version_path, profile_path, addon_path, false)[3] == "-dd"@,
        spec_launch_args(version_path, profile_path, addon_path, false)[4] == profile_path,
{
}

/// With an addon, the launch arguments always end with the file-install
/// flag and the addon path as the final two elements.
pub proof fn lemma_addon_flag_last(
    version_path: Seq<char>,
    profile_path: Seq<char>,
    addon_path: Seq<char>,
    shared_profile: bool,
)
    ensures
        spec_launch_args(version_path, profile_path, Some(addon_path), shared_profile).len() >= 2,
        spec_launch_args(version_path, profile_path, Some(addon_path), shared_profile)[
            spec_launch_args(version_path, profile_path, Some(addon_path), shared_profile).len()
            - 2] == "-ifp"@,
        spec_launch_args(version_path, profile_path, Some(addon_path), shared_profile)[
            spec_launch_args(version_path, profile_path, Some(addon_path), shared_profile).len()
            - 1] == addon_path,
{
}

/// The exact argument vector for the extractor: the package to unpack and
/// the version directory to unpack it into.
pub open spec fn spec_extract_args(apk_path: Seq<char>, target_dir: Seq<char>) -> Seq<Seq<char>> {
    seq![apk_path, target_dir]
}

/// Builds the extractor argument vector that unpacks the package at
/// `apk_path` into the install directory of the version named `name`.
pub fn build_extract_args(root: &str, apk_path: &str, name: &str) -> (r: Vec<String>)
    ensures
        r.deep_view() == spec_extract_args(apk_path@, paths::spec_version_path(root@, name@)),
{
    let mut r: Vec<String> = Vec::new();
    r.push(apk_path.to_owned());
    r.push(paths::version_path(root, name));
    proof {
        assert(r.deep_view() =~= spec_extract_args(
            apk_path@,
            paths::spec_version_path(root@, name@),
        ));
    }
    r
}

/// The extractor invocation that installs a package: the program and its
/// arguments.
pub struct InstallCommand {
    pub program: String,
    pub args: Vec<String>,
}

/// The install decision: the extractor invocation for unpacking the package
/// at `apk_path` into a new version named `name`, or `None` when either is
/// empty, in which case the install action is not offered at all.
pub fn install_command(root: &str, apk_path: &str, name: &str) -> (r: Option<InstallCommand>)
    ensures
        r is Some <==> (apk_path@.len() > 0 && name@.len() > 0),
        r matches Some(c) ==> {
            &&& c.program@ == spec_extractor_binary()
            &&& c.args.deep_view() == spec_extract_args(
                apk_path@,
                paths::spec_version_path(root@, name@),
            )
        },
{
    if apk_path.is_empty() || name.is_empty() {
        None
    } else {
        Some(
            InstallCommand {
                program: extractor_binary(),
                args: build_extract_args(root, apk_path, name),
            },
        )
    }
}

} // verus!
