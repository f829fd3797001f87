use isolate::config::{Config, ConfigError};
use isolate::plan::{MountStep, build_isolation_steps, container_hostname_value};

fn strings(items: &[&str]) -> Vec<String> {
    items.iter().map(|s| s.to_string()).collect()
}

fn scenario_config() -> Config {
    Config::new(
        "/tmp/sandbox".to_string(),
        strings(&["/bin/echo", "hi"]),
        strings(&["/usr"]),
        strings(&["/tmp/scratch"]),
    )
    .unwrap()
}

#[test]
fn empty_command_is_rejected() {
    let r = Config::new(
        "/tmp/sandbox".to_string(),
        Vec::new(),
        Vec::new(),
        Vec::new(),
    );
    match r {
        Err(e) => assert_eq!(e, ConfigError::EmptyCommand),
        Ok(_) => panic!("an empty command must be rejected"),
    }
}

#[test]
fn config_getters_return_the_fields() {
    let c = scenario_config();
    assert_eq!(c.initial_dir(), "/tmp/sandbox");
    assert_eq!(c.command(), &strings(&["/bin/echo", "hi"]));
    assert_eq!(c.readonly_dirs(), &strings(&["/usr"]));
    assert_eq!(c.tmpfs_dirs(), &strings(&["/tmp/scratch"]));
}

#[test]
fn fixed_hostname_value() {
    assert_eq!(container_hostname_value(), "container");
}

#[test]
fn scenario_plan_is_the_exact_step_sequence() {
    let c = scenario_config();
    let steps = build_isolation_steps(&c);
    let expected = vec![
        MountStep::IsolatePropagation,
        MountStep::BindSelf { path: "/usr".to_string() },
        MountStep::RemountReadonly { path: "/usr".to_string() },
        MountStep::MountTmpfs { path: "/tmp/scratch".to_string() },
        MountStep::UnmountProc,
        MountStep::MountProc,
        MountStep::SetHostname { name: "container".to_string() },
        MountStep::ChangeDir { path: "/tmp/sandbox".to_string() },
    ];
    assert_eq!(steps, expected);
}

#[test]
fn plan_without_special_dirs_has_only_the_closing_steps() {
    let c = Config::new(
        "/".to_string(),
        strings(&["/bin/true"]),
        Vec::new(),
        Vec::new(),
    )
    .unwrap();
    let steps = build_isolation_steps(&c);
    let expected = vec![
        MountStep::IsolatePropagation,
        MountStep::UnmountProc,
        MountStep::MountProc,
        MountStep::SetHostname { name: "container".to_string() },
        MountStep::ChangeDir { path: "/".to_string() },
    ];
    assert_eq!(steps, expected);
}

#[test]
fn readonly_dirs_each_get_bind_then_remount_in_order() {
    let c = Config::new(
        "/".to_string(),
        strings(&["/bin/true"]),
        strings(&["/bin", "/lib"]),
        Vec::new(),
    )
    .unwrap();
    let steps = build_isolation_steps(&c);
    assert_eq!(steps[1], MountStep::BindSelf { path: "/bin".to_string() });
    assert_eq!(steps[2], MountStep::RemountReadonly { path: "/bin".to_string() });
    assert_eq!(steps[3], MountStep::BindSelf { path: "/lib".to_string() });
    assert_eq!(steps[4], MountStep::RemountReadonly { path: "/lib".to_string() });
}

#[test]
fn plan_orders_propagation_first_proc_after_tmpfs_chdir_last() {
    let c = Config::new(
        "/work".to_string(),
        strings(&["/bin/sh", "-c", "true"]),
        strings(&["/usr", "/etc"]),
        strings(&["/scratch", "/var/tmp"]),
    )
    .unwrap();
    let steps = build_isolation_steps(&c);
    assert_eq!(steps.len(), 1 + 2 * 2 + 2 + 4);
    assert_eq!(steps[0], MountStep::IsolatePropagation);
    assert_eq!(steps[5], MountStep::MountTmpfs { path: "/scratch".to_string() });
    assert_eq!(steps[6], MountStep::MountTmpfs { path: "/var/tmp".to_string() });
    assert_eq!(steps[7], MountStep::UnmountProc);
    assert_eq!(steps[8], MountStep::MountProc);
    assert_eq!(steps[9], MountStep::SetHostname { name: "container".to_string() });
    assert_eq!(steps[10], MountStep::ChangeDir { path: "/work".to_string() });
}
