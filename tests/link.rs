use build_wrap::link::{is_build_script, link_plan, output_path, LinkPlan};

fn args(list: &[&str]) -> Vec<Vec<u8>> {
    list.iter().map(|a| a.as_bytes().to_vec()).collect()
}

#[test]
fn output_path_follows_last_dash_o() {
    let a = args(&["-m64", "-o", "/first", "x.o", "-o", "/second", "-lc"]);
    assert_eq!(output_path(&a).unwrap(), &b"/second".to_vec());
    assert!(output_path(&args(&["x.o", "-lc"])).is_none());
    assert!(output_path(&args(&["x.o", "-o"])).is_none());
}

#[test]
fn build_script_names() {
    assert!(is_build_script(b"/t/debug/build/foo-1a2b/build_script_build-1a2b"));
    assert!(!is_build_script(b"/t/debug/deps/foo-1a2b"));
    assert!(!is_build_script(b"/t/build_script_build-x/other"));
    assert!(!is_build_script(b"build_script_build"));
    assert!(is_build_script(b"build_script_build-0"));
}

#[test]
fn link_plan_wraps_build_scripts_only() {
    let helper = args(&["a.o", "-o", "/t/build/p-1/build_script_build-1"]);
    match link_plan(&helper) {
        LinkPlan::Wrap(path) => assert_eq!(path, b"/t/build/p-1/build_script_build-1".to_vec()),
        LinkPlan::Direct => panic!("expected the helper to be wrapped"),
    }
    assert!(matches!(link_plan(&args(&["a.o", "-o", "/t/deps/p-1"])), LinkPlan::Direct));
    assert!(matches!(link_plan(&args(&["a.o"])), LinkPlan::Direct));
}
