use pyoxidizer_fsscan::environment::{
    join_path, BuildPathError, EnvironmentContext, PyOxidizerContext, TargetError,
};

const HOST: &str = "x86_64-unknown-linux-gnu";

fn context() -> EnvironmentContext<String> {
    EnvironmentContext::new(
        false,
        "/work/project",
        "/work/project/pyoxidizer.bzl",
        HOST,
        HOST,
        false,
        "0",
        None,
        false,
    )
}

#[test]
fn test_build_target() {
    let context = context();
    let target = context.global_constant("BUILD_TARGET_TRIPLE").unwrap();
    assert_eq!(target, HOST);
}

#[test]
fn global_constants() {
    let context = context();
    assert_eq!(context.global_constant("CWD"), Some("/work/project".to_string()));
    assert_eq!(
        context.global_constant("CONFIG_PATH"),
        Some("/work/project/pyoxidizer.bzl".to_string())
    );
    assert_eq!(context.global_constant("OTHER"), None);
}

#[test]
fn build_paths_follow_cwd() {
    let context = context();
    assert_eq!(context.build_path, "/work/project/build");
    assert_eq!(
        context.python_distributions_path,
        "/work/project/build/python_distributions"
    );
    assert_eq!(
        context.target_output_path("exe"),
        format!("/work/project/build/{}/debug/exe", HOST)
    );
}

#[test]
fn path_joining() {
    assert_eq!(join_path("a", "b"), "a/b");
    assert_eq!(join_path("a/", "b"), "a/b");
    assert_eq!(join_path("", "b"), "b");
}

#[test]
fn test_register_target() {
    let mut context = context();
    context.register_target("default".to_string(), "foo()".to_string(), vec![], false, false);

    assert_eq!(context.targets.len(), 1);
    assert!(context.find_target("default").is_some());
    assert_eq!(context.targets[0].1.callable.to_string(), "foo()".to_string());
    assert_eq!(context.targets_order(), vec!["default".to_string()]);
    assert_eq!(context.default_target, Some("default".to_string()));
}

#[test]
fn test_register_target_multiple() {
    let mut context = context();
    context.register_target("foo".to_string(), "foo()".to_string(), vec![], false, false);
    context.register_target(
        "bar".to_string(),
        "bar()".to_string(),
        vec!["foo".to_string()],
        true,
        false,
    );

    assert_eq!(context.targets.len(), 2);
    assert_eq!(context.default_target, Some("bar".to_string()));
    let bar = context.find_target("bar").unwrap();
    assert_eq!(&context.targets[bar].1.depends, &vec!["foo".to_string()]);
}

#[test]
fn reregistering_keeps_order_and_replaces() {
    let mut context = context();
    context.register_target("a".to_string(), "a1".to_string(), vec![], false, false);
    context.register_target("b".to_string(), "b1".to_string(), vec![], false, true);
    context.register_target("a".to_string(), "a2".to_string(), vec![], false, false);
    assert_eq!(context.targets_order(), vec!["a".to_string(), "b".to_string()]);
    assert_eq!(context.targets[0].1.callable, "a2");
    assert_eq!(context.default_target, Some("a".to_string()));
    assert_eq!(context.default_build_script_target, Some("b".to_string()));
}

#[test]
fn targets_to_resolve_choices() {
    let mut context = context();
    assert!(context.targets_to_resolve().is_empty());
    context.register_target("a".to_string(), "a".to_string(), vec![], false, false);
    context.register_target("b".to_string(), "b".to_string(), vec![], false, true);
    assert_eq!(context.targets_to_resolve(), vec!["a".to_string()]);
    context.build_script_mode = true;
    assert_eq!(context.targets_to_resolve(), vec!["b".to_string()]);
    context.resolve_targets = Some(vec!["x".to_string(), "y".to_string()]);
    assert_eq!(
        context.targets_to_resolve(),
        vec!["x".to_string(), "y".to_string()]
    );
}

#[test]
fn choosing_target_to_build() {
    let mut context = context();
    assert_eq!(context.target_to_build(None), Err(TargetError::NoTarget));
    assert_eq!(context.target_to_build(Some("x")), Ok("x".to_string()));
    context.register_target("a".to_string(), "a".to_string(), vec![], false, false);
    assert_eq!(context.target_to_build(None), Ok("a".to_string()));
}

#[test]
fn resolved_values() {
    let mut context = context();
    assert_eq!(
        context.resolved_value("a"),
        Err(TargetError::NotRegistered("a".to_string()))
    );
    context.register_target("a".to_string(), "a".to_string(), vec![], false, false);
    assert_eq!(
        context.resolved_value("a"),
        Err(TargetError::NotResolved("a".to_string()))
    );
    context.targets[0].1.resolved_value = Some("value".to_string());
    assert_eq!(context.resolved_value("a"), Ok(&"value".to_string()));
}

#[test]
fn context_type_default() {
    let _ = PyOxidizerContext::default();
}

#[test]
fn build_path_relative_to_cwd() {
    let context = context();
    assert_eq!(
        context.resolve_build_path("out/../dist"),
        Ok("/work/project/out/../dist".to_string())
    );
}

#[test]
fn build_path_absolute() {
    let context = context();
    assert_eq!(
        context.resolve_build_path("/tmp/./b"),
        Ok("/tmp/./b".to_string())
    );
}

#[test]
fn setting_build_path() {
    let mut context = context();
    context.set_build_path("/work/project/dist");
    assert_eq!(context.build_path, "/work/project/dist");
    assert_eq!(
        context.python_distributions_path,
        "/work/project/dist/python_distributions"
    );
    assert_eq!(context.cwd, "/work/project");
    assert_eq!(context.build_target_triple, HOST);
}

#[test]
fn build_path_needs_absolute_cwd() {
    let context: EnvironmentContext<String> =
        EnvironmentContext::new(false, "rel", "rel/x.bzl", HOST, HOST, true, "3", None, false);
    assert_eq!(
        context.resolve_build_path("x"),
        Err(BuildPathError::NotAbsolute("rel/x".to_string()))
    );
    assert_eq!(context.build_path, "rel/build");
    assert_eq!(
        context.target_output_path("t"),
        format!("rel/build/{}/release/t", HOST)
    );
}
