use backend_supervisor::launcher::{
    interpreter_name, launch_plan, Platform, BACKEND_DIRECTORY, ENTRY_SCRIPT,
};

#[test]
fn interpreter_carries_suffix_on_windows() {
    assert_eq!(interpreter_name(Platform::Windows), "node.exe");
}

#[test]
fn interpreter_is_bare_elsewhere() {
    assert_eq!(interpreter_name(Platform::Other), "node");
}

#[test]
fn interpreter_names_differ_by_suffix_only() {
    let bare = interpreter_name(Platform::Other);
    let suffixed = interpreter_name(Platform::Windows);
    assert_eq!(format!("{}.exe", bare), suffixed);
}

#[test]
fn fixed_paths_of_the_backend() {
    assert_eq!(BACKEND_DIRECTORY, "backend");
    assert_eq!(ENTRY_SCRIPT, "dist/cli/node.js");
}

#[test]
fn plan_on_windows() {
    let plan = launch_plan(Platform::Windows);
    assert_eq!(plan.program, "node.exe");
    assert_eq!(plan.argument, "dist/cli/node.js");
    assert_eq!(plan.directory, "backend");
}

#[test]
fn plan_elsewhere() {
    let plan = launch_plan(Platform::Other);
    assert_eq!(plan.program, "node");
    assert_eq!(plan.argument, "dist/cli/node.js");
    assert_eq!(plan.directory, "backend");
}

#[test]
fn plans_differ_in_the_program_only() {
    let windows = launch_plan(Platform::Windows);
    let other = launch_plan(Platform::Other);
    assert_ne!(windows.program, other.program);
    assert_eq!(windows.argument, other.argument);
    assert_eq!(windows.directory, other.directory);
}
