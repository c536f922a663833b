use khonsu_tools::process::{extend, extend_flagged, plain, push_text};

fn strings(items: &[&str]) -> Vec<String> {
    items.iter().map(|s| s.to_string()).collect()
}

#[test]
fn arguments_are_appended_in_order() {
    let mut args = strings(&["a"]);
    push_text(&mut args, "b");
    extend(&mut args, &strings(&["c", "d"]));
    extend(&mut args, &strings(&[]));
    assert_eq!(args, strings(&["a", "b", "c", "d"]));
}

#[test]
fn each_value_follows_its_flag() {
    let mut args = strings(&["run"]);
    extend_flagged(&mut args, "--ignore", &strings(&["x/*", "y/*"]));
    assert_eq!(args, strings(&["run", "--ignore", "x/*", "--ignore", "y/*"]));
    extend_flagged(&mut args, "--exclude", &strings(&[]));
    assert_eq!(args.len(), 5);
}

#[test]
fn plain_invocation_leaves_the_environment_alone() {
    let invocation = plain("cargo", strings(&["clean"]));
    assert_eq!(invocation.program, "cargo");
    assert_eq!(invocation.args, strings(&["clean"]));
    assert!(invocation.env.is_empty());
}
