use mcpelauncher_core::cmd;
use mcpelauncher_core::launch::{gpu_env, launch_plan, prepare_launch, GpuMode};
use mcpelauncher_core::paths;

const ROOT: &str = "/home/user/.local/share";

#[test]
fn standard_mode_sets_no_environment() {
    assert!(gpu_env(GpuMode::Standard).is_empty());
}

#[test]
fn nvidia_offload_sets_exactly_three_variables() {
    let env = gpu_env(GpuMode::NvidiaOffload);
    assert_eq!(
        env,
        vec![
            ("__NV_PRIME_RENDER_OFFLOAD".to_string(), "1".to_string()),
            ("__GLX_VENDOR_LIBRARY_NAME".to_string(), "nvidia".to_string()),
            ("__VK_LAYER_NV_optimus".to_string(), "NVIDIA_only".to_string()),
        ]
    );
}

#[test]
fn zink_sets_exactly_one_variable() {
    let env = gpu_env(GpuMode::Zink);
    assert_eq!(
        env,
        vec![("MESA_LOADER_DRIVER_OVERRIDE".to_string(), "zink".to_string())]
    );
}

#[test]
fn plan_wrapper_follows_overlay_flag() {
    let args = vec!["a".to_string()];
    assert_eq!(launch_plan(args.clone(), GpuMode::Standard, false).program, "setsid");
    assert_eq!(launch_plan(args, GpuMode::Standard, true).program, "mangohud");
}

#[test]
fn plan_keeps_client_arguments_unchanged() {
    let args = cmd::build_launch_args("/v/x", "/p/x", None, true);
    let plan = launch_plan(args.clone(), GpuMode::Zink, true);
    assert_eq!(plan.args, args);
}

#[test]
fn nvidia_offload_without_overlay_detaches_with_three_variables() {
    let plan = prepare_launch(ROOT, "1.20.1", None, false, GpuMode::NvidiaOffload, false);
    assert_eq!(plan.program, "setsid");
    assert_eq!(
        plan.args,
        vec![
            "/app/bin/mcpelauncher-client".to_string(),
            "-dg".to_string(),
            paths::version_path(ROOT, "1.20.1"),
            "-dd".to_string(),
            paths::profile_path(ROOT, "1.20.1"),
        ]
    );
    assert_eq!(plan.env.len(), 3);
    assert_eq!(plan.env[0], ("__NV_PRIME_RENDER_OFFLOAD".to_string(), "1".to_string()));
    assert_eq!(plan.env[1], ("__GLX_VENDOR_LIBRARY_NAME".to_string(), "nvidia".to_string()));
    assert_eq!(plan.env[2], ("__VK_LAYER_NV_optimus".to_string(), "NVIDIA_only".to_string()));
}
