//! The launch plan: which process to spawn, with which arguments and which
//! environment overrides. The client is always run under a wrapper: a
//! session-detaching utility by default, or a performance-overlay tool when
//! the overlay is requested. GPU overrides set environment variables and
//! nothing else.
use vstd::prelude::*;

verus! {

/// The GPU override chosen for a launch. The three choices are mutually
/// exclusive by construction.
#[derive(Clone, Copy, PartialEq, Eq, Structural, Debug)]
pub enum GpuMode {
    /// No override: the default GPU and driver.
    Standard,
    /// Render on the discrete NVIDIA GPU via PRIME offload.
    NvidiaOffload,
    /// Force the Zink OpenGL-on-Vulkan translation driver.
    Zink,
}

/// The session-detaching utility used when no overlay is requested.
pub open spec fn spec_detach_wrapper() -> Seq<char> {
    "setsid"@
}

/// The performance-overlay tool used when the overlay is requested.
pub open spec fn spec_overlay_wrapper() -> Seq<char> {
    "mangohud"@
}

/// The environment variables set for a GPU mode, as (name, value) pairs:
/// none for the default mode, the three NVIDIA PRIME offload variables for
/// the discrete-GPU mode, and the single Mesa loader override for Zink.
pub open spec fn spec_gpu_env(mode: GpuMode) -> Seq<(Seq<char>, Seq<char>)> {
    match mode {
        GpuMode::Standard => Seq::empty(),
        GpuMode::NvidiaOffload => seq![
            ("__NV_PRIME_RENDER_OFFLOAD"@, "1"@),
            ("__GLX_VENDOR_LIBRARY_NAME"@, "nvidia"@),
            ("__VK_LAYER_NV_optimus"@, "NVIDIA_only"@),
        ],
        GpuMode::Zink => seq![("MESA_LOADER_DRIVER_OVERRIDE"@, "zink"@)],
    }
}

/// Builds the environment override list for a GPU mode.
pub fn gpu_env(mode: GpuMode) -> (r: Vec<(String, String)>)
    ensures
        r.deep_view() == spec_gpu_env(mode),
{
    let mut r: Vec<(String, String)> = Vec::new();
    match mode {
        GpuMode::Standard => {},
        GpuMode::NvidiaOffload => {
            r.push((String::from_str("__NV_PRIME_RENDER_OFFLOAD"), String::from_str("1")));
            r.push((String::from_str("__GLX_VENDOR_LIBRARY_NAME"), String::from_str("nvidia")));
            r.push((String::from_str("__VK_LAYER_NV_optimus"), String::from_str("NVIDIA_only")));
        },
        GpuMode::Zink => {
            r.push((String::from_str("MESA_LOADER_DRIVER_OVERRIDE"), String::from_str("zink")));
        },
    }
    proof {
        assert(r.deep_view() =~= spec_gpu_env(mode));
    }
    r
}

/// Everything a front-end needs to spawn the client detached: the wrapper
/// program, its arguments (the client command line), and the environment
/// overrides to add to the child's environment.
pub struct LaunchPlan {
    pub program: String,
    pub args: Vec<String>,
    pub env: Vec<(String, String)>,
}

/// Builds the plan for spawning `client_args` under the chosen wrapper with
/// the chosen GPU override: the program is the overlay tool exactly when the
/// overlay is requested and the detach utility otherwise, the arguments are
/// `client_args` unchanged, and the environment overrides are exactly those
/// of `gpu_mode`.
pub fn launch_plan(client_args: Vec<String>, gpu_mode: GpuMode, overlay: bool) -> (r: LaunchPlan)
    ensures
        r.program@ == (if overlay {
            spec_overlay_wrapper()
        } else {
            spec_detach_wrapper()
        }),
        r.args.deep_view() == client_args.deep_view(),
        r.env.deep_view() == spec_gpu_env(gpu_mode),
{
    let program = if overlay {
        String::from_str("mangohud")
    } else {
        String::from_str("setsid")
    };
    LaunchPlan { program, args: client_args, env: gpu_env(gpu_mode) }
}

/// The full decision for a launch request: builds the client arguments for
/// the version named `name` under `root` and wraps them into a launch plan.
pub fn prepare_launch(
    root: &str,
    name: &str,
    addon_path: Option<&str>,
    shared_profile: bool,
    gpu_mode: GpuMode,
    overlay: bool,
) -> (r: LaunchPlan)
    ensures
        r.program@ == (if overlay {
            spec_overlay_wrapper()
        } else {
            spec_detach_wrapper()
        }),
        r.args.deep_view() == crate::cmd::spec_launch_args(
            crate::paths::spec_version_path(root@, name@),
            crate::paths::spec_profile_path(root@, name@),
            addon_path.deep_view(),
            shared_profile,
        ),
        r.env.deep_view() == spec_gpu_env(gpu_mode),
{
    let args = crate::cmd::build_launch_args_for(root, name, addon_path, shared_profile);
    launch_plan(args, gpu_mode, overlay)
}

/// The launcher spawns the plain detach wrapper with exactly the three
/// NVIDIA offload variables, and the client arguments unchanged, whenever
/// the discrete-GPU mode is chosen without the overlay.
pub proof fn lemma_nvidia_no_overlay_plan(r: LaunchPlan, client_args: Seq<Seq<char>>)
    requires
        r.program@ == spec_detach_wrapper(),
        r.args.deep_view() == client_args,
        r.env.deep_view() == spec_gpu_env(GpuMode::NvidiaOffload),
    ensures
        r.program@ == "setsid"@,
        r.args.deep_view() == client_args,
        r.env.deep_view().len() == 3,
        r.env.deep_view()[0] == ("__NV_PRIME_RENDER_OFFLOAD"@, "1"@),
        r.env.deep_view()[1] == ("__GLX_VENDOR_LIBRARY_NAME"@, "nvidia"@),
        r.env.deep_view()[2] == ("__VK_LAYER_NV_optimus"@, "NVIDIA_only"@),
{
}

} // verus!
