use axcrates::launcher::{
    exit_status, forwarded_args, join_path, launch_failure_message, manifest_dir, plan_launch,
    script_path, Target,
};

fn strings(items: &[&str]) -> Vec<String> {
    items.iter().map(|s| s.to_string()).collect()
}

#[test]
fn script_path_joins_dir_subpath_and_file() {
    assert_eq!(script_path("/home/u/axcrates", Target::Qemu), "/home/u/axcrates/scripts/run_qemu.sh");
    assert_eq!(script_path("/home/u/axcrates", Target::Uboot), "/home/u/axcrates/scripts/run_uboot.sh");
}

#[test]
fn script_path_with_trailing_separator() {
    assert_eq!(script_path("/work/", Target::Qemu), "/work/scripts/run_qemu.sh");
}

#[test]
fn script_path_below_relative_and_empty_dirs() {
    assert_eq!(script_path("rel/dir", Target::Uboot), "rel/dir/scripts/run_uboot.sh");
    assert_eq!(script_path("", Target::Qemu), "scripts/run_qemu.sh");
}

#[test]
fn script_path_matches_std_path_join() {
    for dir in ["/a/b", "/a/b/", ".", "", "x"] {
        let expected = std::path::PathBuf::from(dir).join("scripts").join("run_qemu.sh");
        assert_eq!(script_path(dir, Target::Qemu), expected.to_str().unwrap());
    }
}

#[test]
fn join_path_absolute_part_replaces_base() {
    assert_eq!(join_path("/a", "/b"), "/b");
    assert_eq!(join_path("/a", "b"), "/a/b");
    assert_eq!(join_path("/a/", "b"), "/a/b");
}

#[test]
fn manifest_dir_from_environment() {
    assert_eq!(manifest_dir(Some("/src/axcrates".to_string())), "/src/axcrates");
}

#[test]
fn manifest_dir_defaults_to_current_dir() {
    assert_eq!(manifest_dir(None), ".");
    let plan = plan_launch(Target::Qemu, None, &strings(&["cargo-qemu"]));
    assert_eq!(plan.args[0], "./scripts/run_qemu.sh");
}

#[test]
fn forwarded_args_drop_program_name() {
    let argv = strings(&["cargo-qemu", "--arch", "aarch64", "", "x y"]);
    assert_eq!(forwarded_args(&argv), strings(&["--arch", "aarch64", "", "x y"]));
}

#[test]
fn forwarded_args_of_empty_and_single() {
    assert!(forwarded_args(&Vec::new()).is_empty());
    assert!(forwarded_args(&strings(&["cargo-uboot"])).is_empty());
}

#[test]
fn plan_launch_runs_the_script_through_the_shell() {
    let argv = strings(&["cargo-uboot", "-c", "board.toml"]);
    let plan = plan_launch(Target::Uboot, Some("/proj".to_string()), &argv);
    assert_eq!(plan.program, "bash");
    assert_eq!(plan.args, strings(&["/proj/scripts/run_uboot.sh", "-c", "board.toml"]));
}

#[test]
fn exit_code_is_relayed() {
    assert_eq!(exit_status(Some(0)), 0);
    assert_eq!(exit_status(Some(3)), 3);
    assert_eq!(exit_status(Some(255)), 255);
}

#[test]
fn exit_code_falls_back_without_one() {
    assert_eq!(exit_status(None), 1);
}

#[test]
fn script_names() {
    assert_eq!(Target::Qemu.script_name(), "run_qemu.sh");
    assert_eq!(Target::Uboot.script_name(), "run_uboot.sh");
}

#[test]
fn failure_message_names_the_script() {
    assert_eq!(launch_failure_message(Target::Qemu), "Failed to execute run_qemu.sh");
    assert_eq!(launch_failure_message(Target::Uboot), "Failed to execute run_uboot.sh");
}
