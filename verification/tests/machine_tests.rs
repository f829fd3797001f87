use isolate::config::Config;
use isolate::isolation::{Directive, IsolationRun};
use isolate::launcher::{
    LaunchDirective, LaunchEvent, Launcher, clone_request, run, STACK_SIZE,
};
use isolate::plan::MountStep;

fn strings(items: &[&str]) -> Vec<String> {
    items.iter().map(|s| s.to_string()).collect()
}

fn scenario_config() -> Config {
    Config::new(
        "/tmp/sandbox".to_string(),
        strings(&["/bin/echo", "hi"]),
        strings(&["/usr"]),
        strings(&["/tmp/scratch"]),
    )
    .unwrap()
}

#[test]
fn clone_request_asks_for_all_four_namespaces() {
    let r = clone_request();
    assert!(r.new_mount_ns);
    assert!(r.new_pid_ns);
    assert!(r.new_uts_ns);
    assert!(r.new_net_ns);
    assert!(r.child_exit_signal);
    assert_eq!(r.stack_size, 1024 * 1024);
    assert_eq!(STACK_SIZE, 1024 * 1024);
}

#[test]
fn run_builds_the_whole_launch_plan() {
    let c = scenario_config();
    let p = run(&c);
    assert!(p.clone_request.new_mount_ns);
    assert_eq!(p.clone_request.stack_size, STACK_SIZE);
    assert_eq!(p.isolation.directive(), Directive::Perform);
    assert_eq!(p.isolation.command(), &strings(&["/bin/echo", "hi"]));
}

#[test]
fn all_steps_succeeding_leads_to_exec() {
    let c = scenario_config();
    let mut m = IsolationRun::new(&c);
    let mut performed: Vec<String> = Vec::new();
    while m.directive() == Directive::Perform {
        performed.push(format!("{:?}", m.current_step()));
        m.observe(true);
    }
    assert_eq!(m.directive(), Directive::Exec);
    assert_eq!(performed.len(), 8);
    assert_eq!(performed[0], format!("{:?}", MountStep::IsolatePropagation));
    assert_eq!(
        performed[7],
        format!("{:?}", MountStep::ChangeDir { path: "/tmp/sandbox".to_string() })
    );
    assert_eq!(m.command(), &strings(&["/bin/echo", "hi"]));
}

#[test]
fn failing_proc_unmount_is_tolerated() {
    let c = scenario_config();
    let mut m = IsolationRun::new(&c);
    while m.directive() == Directive::Perform {
        let fail_this_one = matches!(m.current_step(), MountStep::UnmountProc);
        m.observe(!fail_this_one);
    }
    assert_eq!(m.directive(), Directive::Exec);
}

#[test]
fn failing_chdir_means_exec_is_never_reached() {
    let c = scenario_config();
    let mut m = IsolationRun::new(&c);
    while m.directive() == Directive::Perform {
        let is_chdir = matches!(m.current_step(), MountStep::ChangeDir { .. });
        m.observe(!is_chdir);
        if is_chdir {
            break;
        }
    }
    assert_eq!(m.directive(), Directive::Report);
    assert_ne!(m.directive(), Directive::Exec);
}

#[test]
fn failing_mount_aborts_the_rest_of_the_plan() {
    let c = scenario_config();
    let mut m = IsolationRun::new(&c);
    // The first step is propagation isolation; let it fail.
    assert_eq!(m.directive(), Directive::Perform);
    m.observe(false);
    assert_eq!(m.directive(), Directive::Report);
}

#[test]
fn launcher_happy_path_reaches_done() {
    let mut l = Launcher::new();
    assert_eq!(l.directive(), LaunchDirective::LoadConfig);
    l.observe(LaunchEvent::ConfigLoaded);
    assert_eq!(l.directive(), LaunchDirective::CreateContext);
    l.observe(LaunchEvent::ContextCreated);
    assert_eq!(l.directive(), LaunchDirective::WaitForChild);
    l.observe(LaunchEvent::ChildTerminated);
    assert_eq!(l.directive(), LaunchDirective::Finish);
}

#[test]
fn config_failure_never_creates_a_context() {
    let mut l = Launcher::new();
    l.observe(LaunchEvent::ConfigFailed);
    assert_eq!(l.directive(), LaunchDirective::ReportError);
    // Whatever is observed afterwards, the machine stays failed.
    for e in [
        LaunchEvent::ConfigLoaded,
        LaunchEvent::ContextCreated,
        LaunchEvent::ChildTerminated,
        LaunchEvent::ConfigFailed,
    ] {
        l.observe(e);
        assert_eq!(l.directive(), LaunchDirective::ReportError);
        assert_ne!(l.directive(), LaunchDirective::CreateContext);
    }
}

#[test]
fn context_creation_failure_is_fatal() {
    let mut l = Launcher::new();
    l.observe(LaunchEvent::ConfigLoaded);
    l.observe(LaunchEvent::ContextFailed);
    assert_eq!(l.directive(), LaunchDirective::ReportError);
}
