//! Generation of desktop shortcut files. A shortcut's display name is the
//! version name, prefixed with a short bracketed tag when modifiers are
//! active; its contents are a fixed-schema desktop-entry record whose Exec
//! line is the full shell command, environment assignments and wrapper
//! included.
use crate::launch::{spec_detach_wrapper, spec_gpu_env, spec_overlay_wrapper, GpuMode};
use crate::paths;
use vstd::prelude::*;

verus! {

broadcast use vstd::seq_lib::group_seq_properties;

/// The uppercase letter encoding the GPU override: `N` for the discrete-GPU
/// offload, `Z` for the Zink driver override, nothing for the default.
pub open spec fn spec_gpu_tag(gpu: GpuMode) -> Seq<char> {
    match gpu {
        GpuMode::Standard => Seq::empty(),
        GpuMode::NvidiaOffload => "N"@,
        GpuMode::Zink => "Z"@,
    }
}

/// The tag encoding which modifiers are active, in fixed order: the GPU
/// letter first, then `C` for the shared profile.
pub open spec fn spec_option_tag(gpu: GpuMode, shared_profile: bool) -> Seq<char> {
    spec_gpu_tag(gpu) + (if shared_profile {
        "C"@
    } else {
        Seq::<char>::empty()
    })
}

/// Builds the modifier tag.
pub fn option_tag(gpu: GpuMode, shared_profile: bool) -> (r: String)
    ensures
        r@ == spec_option_tag(gpu, shared_profile),
{
    let mut r = String::new();
    match gpu {
        GpuMode::Standard => {},
        GpuMode::NvidiaOffload => r.append("N"),
        GpuMode::Zink => r.append("Z"),
    }
    if shared_profile {
        r.append("C");
    }
    proof {
        assert(r@ =~= spec_option_tag(gpu, shared_profile));
    }
    r
}

/// The display name of a shortcut: the version name alone when no modifier
/// is active, else the bracketed tag, the name, and a trailing space.
pub open spec fn spec_display_name(name: Seq<char>, gpu: GpuMode, shared_profile: bool) -> Seq<
    char,
> {
    let tag = spec_option_tag(gpu, shared_profile);
    if tag.len() == 0 {
        name
    } else {
        "["@ + tag + "] "@ + name + " "@
    }
}

/// Builds the display name.
pub fn display_name(name: &str, gpu: GpuMode, shared_profile: bool) -> (r: String)
    ensures
        r@ == spec_display_name(name@, gpu, shared_profile),
{
    let tag = option_tag(gpu, shared_profile);
    if tag.as_str().unicode_len() == 0 {
        name.to_owned()
    } else {
        let mut r = String::from_str("[");
        r.append(tag.as_str());
        r.append("] ");
        r.append(name);
        r.append(" ");
        proof {
            assert(r@ =~= spec_display_name(name@, gpu, shared_profile));
        }
        r
    }
}

/// The environment-assignment prefix of a shell command: one `NAME=value `
/// per variable, in order.
pub open spec fn spec_env_prefix(env: Seq<(Seq<char>, Seq<char>)>) -> Seq<char>
    decreases env.len(),
{
    if env.len() == 0 {
        Seq::empty()
    } else {
        env[0].0 + "="@ + env[0].1 + " "@ + spec_env_prefix(env.skip(1))
    }
}

/// The arguments of a shell command, each preceded by a space.
pub open spec fn spec_args_tail(args: Seq<Seq<char>>) -> Seq<char>
    decreases args.len(),
{
    if args.len() == 0 {
        Seq::empty()
    } else {
        " "@ + args[0] + spec_args_tail(args.skip(1))
    }
}

/// A full shell command: environment assignments, the program, then its
/// arguments separated by spaces.
pub open spec fn spec_command_line(
    env: Seq<(Seq<char>, Seq<char>)>,
    program: Seq<char>,
    args: Seq<Seq<char>>,
) -> Seq<char> {
    spec_env_prefix(env) + program + spec_args_tail(args)
}

proof fn lemma_env_prefix_push(env: Seq<(Seq<char>, Seq<char>)>, x: (Seq<char>, Seq<char>))
    ensures
        spec_env_prefix(env.push(x)) == spec_env_prefix(env) + (x.0 + "="@ + x.1 + " "@),
    decreases env.len(),
{
    if env.len() == 0 {
        assert(env.push(x)[0] == x);
        assert(env.push(x).skip(1) =~= Seq::<(Seq<char>, Seq<char>)>::empty());
        assert(spec_env_prefix(env.push(x)) =~= spec_env_prefix(env) + (x.0 + "="@ + x.1 + " "@));
    } else {
        assert(env.push(x).skip(1) =~= env.skip(1).push(x));
        lemma_env_prefix_push(env.skip(1), x);
        assert(spec_env_prefix(env.push(x)) =~= spec_env_prefix(env) + (x.0 + "="@ + x.1 + " "@));
    }
}

proof fn lemma_args_tail_push(args: Seq<Seq<char>>, x: Seq<char>)
    ensures
        spec_args_tail(args.push(x)) == spec_args_tail(args) + (" "@ + x),
    decreases args.len(),
{
    if args.len() == 0 {
        assert(args.push(x)[0] == x);
        assert(args.push(x).skip(1) =~= Seq::<Seq<char>>::empty());
        assert(spec_args_tail(args.push(x)) =~= spec_args_tail(args) + (" "@ + x));
    } else {
        assert(args.push(x).skip(1) =~= args.skip(1).push(x));
        lemma_args_tail_push(args.skip(1), x);
        assert(spec_args_tail(args.push(x)) =~= spec_args_tail(args) + (" "@ + x));
    }
}

/// Renders the full shell command for `program` run on `args` with the
/// environment assignments `env` in front.
pub fn command_line(env: &Vec<(String, String)>, program: &str, args: &Vec<String>) -> (r: String)
    ensures
        r@ == spec_command_line(env.deep_view(), program@, args.deep_view()),
{
    let ghost ed = env.deep_view();
    let mut r = String::new();
    let mut i: usize = 0;
    while i < env.len()
        invariant
            i <= env.len(),
            ed == env.deep_view(),
            ed.len() == env.len(),
            r@ == spec_env_prefix(ed.take(i as int)),
        decreases env.len() - i,
    {
        r.append(env[i].0.as_str());
        r.append("=");
        r.append(env[i].1.as_str());
        r.append(" ");
        proof {
            assert(ed[i as int] == (env@[i as int].0@, env@[i as int].1@));
            assert(ed.take(i + 1) =~= ed.take(i as int).push(ed[i as int]));
            lemma_env_prefix_push(ed.take(i as int), ed[i as int]);
            assert(r@ =~= spec_env_prefix(ed.take(i + 1)));
        }
        i += 1;
    }
    proof {
        assert(ed.take(ed.len() as int) =~= ed);
    }
    r.append(program);
    let ghost ad = args.deep_view();
    let ghost head = spec_env_prefix(ed) + program@;
    proof {
        assert(r@ =~= head + spec_args_tail(ad.take(0)));
    }
    let mut j: usize = 0;
    while j < args.len()
        invariant
            j <= args.len(),
            ad == args.deep_view(),
            ad.len() == args.len(),
            r@ == head + spec_args_tail(ad.take(j as int)),
        decreases args.len() - j,
    {
        r.append(" ");
        r.append(args[j].as_str());
        proof {
            assert(ad[j as int] == args@[j as int]@);
            assert(ad.take(j + 1) =~= ad.take(j as int).push(ad[j as int]));
            lemma_args_tail_push(ad.take(j as int), ad[j as int]);
            assert(r@ =~= head + spec_args_tail(ad.take(j + 1)));
        }
        j += 1;
    }
    proof {
        assert(ad.take(ad.len() as int) =~= ad);
        assert(r@ =~= spec_command_line(ed, program@, ad));
    }
    r
}

/// Under the Zink GPU override, every rendered command line begins with the
/// Zink driver-override environment assignment, whatever the program and
/// arguments.
pub proof fn lemma_zink_command_line_prefix(program: Seq<char>, args: Seq<Seq<char>>)
    ensures
        paths::spec_has_prefix(
            spec_command_line(spec_gpu_env(GpuMode::Zink), program, args),
            "MESA_LOADER_DRIVER_OVERRIDE=zink "@,
        ),
{
    reveal_strlit("MESA_LOADER_DRIVER_OVERRIDE");
    reveal_strlit("=");
    reveal_strlit("zink");
    reveal_strlit(" ");
    reveal_strlit("MESA_LOADER_DRIVER_OVERRIDE=zink ");
    let env = spec_gpu_env(GpuMode::Zink);
    assert(env.skip(1) =~= Seq::<(Seq<char>, Seq<char>)>::empty());
    assert(spec_env_prefix(env.skip(1)) =~= Seq::<char>::empty());
    assert(env[0] == ("MESA_LOADER_DRIVER_OVERRIDE"@, "zink"@));
    assert(spec_env_prefix(env) == "MESA_LOADER_DRIVER_OVERRIDE"@ + "="@ + "zink"@ + " "@
        + spec_env_prefix(env.skip(1)));
    assert(spec_env_prefix(env) =~= "MESA_LOADER_DRIVER_OVERRIDE=zink "@);
    let line = spec_command_line(env, program, args);
    assert(line.subrange(0, 33) =~= "MESA_LOADER_DRIVER_OVERRIDE=zink "@);
}

/// The fixed-schema desktop-entry record for a shortcut.
pub open spec fn spec_desktop_entry(
    display: Seq<char>,
    exec_line: Seq<char>,
    icon: Seq<char>,
) -> Seq<char> {
    "[Desktop Entry]\nName="@ + display + "\nComment=Minecraft Bedrock Launcher\nExec="@
        + exec_line + "\nIcon="@ + icon
        + "\nTerminal=false\nType=Application\nCategories=Game;\nStartupNotify=true\n"@
}

/// Renders the desktop-entry record.
pub fn desktop_entry(display: &str, exec_line: &str, icon: &str) -> (r: String)
    ensures
        r@ == spec_desktop_entry(display@, exec_line@, icon@),
{
    let mut r = String::from_str("[Desktop Entry]\nName=");
    r.append(display);
    r.append("\nComment=Minecraft Bedrock Launcher\nExec=");
    r.append(exec_line);
    r.append("\nIcon=");
    r.append(icon);
    r.append("\nTerminal=false\nType=Application\nCategories=Game;\nStartupNotify=true\n");
    proof {
        assert(r@ =~= spec_desktop_entry(display@, exec_line@, icon@));
    }
    r
}

/// Where the shortcut for a display name is written.
pub open spec fn spec_shortcut_path(root: Seq<char>, display: Seq<char>) -> Seq<char> {
    paths::spec_join(paths::spec_apps_dir(root), display + ".desktop"@)
}

/// A shortcut ready to be written: its file path and its full contents.
/// Writing it, and overwriting any file already there, is the front-end's
/// part.
pub struct ShortcutFile {
    pub path: String,
    pub contents: String,
}

/// Builds the shortcut for the version named `name` launched by
/// `launch_args` with the given modifiers: the file goes under the
/// shortcuts directory, named after the tag-prefixed display name, and its
/// Exec line carries the environment assignments of the GPU mode, the
/// wrapper chosen by `overlay`, and the launch arguments.
pub fn generate_shortcut(
    root: &str,
    name: &str,
    gpu: GpuMode,
    overlay: bool,
    shared_profile: bool,
    launch_args: &Vec<String>,
) -> (r: ShortcutFile)
    ensures
        r.path@ == spec_shortcut_path(root@, spec_display_name(name@, gpu, shared_profile)),
        r.contents@ == spec_desktop_entry(
            spec_display_name(name@, gpu, shared_profile),
            spec_command_line(
                spec_gpu_env(gpu),
                if overlay {
                    spec_overlay_wrapper()
                } else {
                    spec_detach_wrapper()
                },
                launch_args.deep_view(),
            ),
            paths::spec_logo_path(root@),
        ),
{
    let display = display_name(name, gpu, shared_profile);
    let mut file_name = display.clone();
    file_name.append(".desktop");
    let apps = paths::apps_dir(root);
    let path = paths::join_path(apps.as_str(), file_name.as_str());
    let env = crate::launch::gpu_env(gpu);
    let program = if overlay {
        String::from_str("mangohud")
    } else {
        String::from_str("setsid")
    };
    let exec_line = command_line(&env, program.as_str(), launch_args);
    let icon = paths::logo_path(root);
    let contents = desktop_entry(display.as_str(), exec_line.as_str(), icon.as_str());
    ShortcutFile { path, contents }
}

} // verus!
