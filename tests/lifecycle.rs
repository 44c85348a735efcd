use sproc::launch::plan_from_words;
use sproc::lifecycle::KillPlan;
use sproc::model::{
    ServerConfiguration, Service, ServiceState, ServicesConfiguration, SupervisorError,
    DEFAULT_PORT,
};

fn service(command: &str, restart: bool) -> Service {
    Service {
        command: command.to_string(),
        working_directory: "/tmp".to_string(),
        environment: None,
        restart,
    }
}

fn config_with(name: &str, svc: Service) -> ServicesConfiguration {
    let mut cnf = ServicesConfiguration::new();
    cnf.define(name.to_string(), svc);
    cnf
}

fn restart_flag(cnf: &ServicesConfiguration, name: &str) -> bool {
    cnf.services.iter().find(|(n, _)| n == name).unwrap().1.restart
}

#[test]
fn never_started_kill_and_info_fail_not_running() {
    let mut cnf = config_with("web", service("echo hi", false));
    assert_eq!(Service::kill(&"web".to_string(), &mut cnf), Err(SupervisorError::NotRunning));
    assert_eq!(Service::info(&"web".to_string(), &cnf), Err(SupervisorError::NotRunning));
    assert!(cnf.service_states.is_empty());
}

#[test]
fn start_unknown_name_fails_not_found() {
    let cnf = config_with("web", service("echo hi", false));
    assert_eq!(Service::run(&"nope".to_string(), &cnf), Err(SupervisorError::NotFound));
}

#[test]
fn kill_and_info_unknown_name_fail_not_found() {
    let mut cnf = config_with("web", service("echo hi", false));
    assert_eq!(Service::kill(&"nope".to_string(), &mut cnf), Err(SupervisorError::NotFound));
    assert_eq!(Service::info(&"nope".to_string(), &cnf), Err(SupervisorError::NotFound));
}

#[test]
fn second_start_fails_already_running() {
    let name = "web".to_string();
    let mut cnf = config_with("web", service("echo hi", false));
    assert!(Service::run(&name, &cnf).is_ok());
    Service::record_started(&name, 4242, &mut cnf);
    assert_eq!(cnf.get_state(&name), Some((ServiceState::Running, 4242)));
    assert_eq!(Service::run(&name, &cnf), Err(SupervisorError::AlreadyRunning));
    assert_eq!(cnf.service_states.len(), 1);
    assert_eq!(Service::info(&name, &cnf), Ok(4242));
    assert_eq!(Service::observe(&name, &cnf), Ok(4242));
}

#[test]
fn stopped_record_does_not_count_as_running() {
    let name = "web".to_string();
    let mut cnf = config_with("web", service("echo hi", false));
    cnf.put_state(name.clone(), (ServiceState::Stopped, 7));
    assert!(Service::run(&name, &cnf).is_ok());
    assert_eq!(Service::info(&name, &cnf), Err(SupervisorError::NotRunning));
    assert_eq!(Service::observe(&name, &cnf), Err(SupervisorError::NotRunning));
}

#[test]
fn web_runs_once_and_leaves_no_record() {
    let name = "web".to_string();
    let mut cnf = config_with("web", service("echo hi", false));
    let plan = Service::run(&name, &cnf).unwrap();
    assert_eq!(plan.program, "echo");
    assert_eq!(plan.args, vec!["hi".to_string()]);
    assert_eq!(plan.working_directory, "/tmp");
    assert!(plan.environment.is_empty());
    Service::record_started(&name, 100, &mut cnf);
    let again = Service::on_exit(&name, &mut cnf);
    assert!(!again);
    assert_eq!(Service::info(&name, &cnf), Err(SupervisorError::NotRunning));
    assert_eq!(cnf.get_state(&name), None);
    assert!(cnf.service_states.is_empty());
}

#[test]
fn daemon_is_relaunched_with_new_pid() {
    let name = "daemon".to_string();
    let mut cnf = config_with("daemon", service("sleep 1000", true));
    assert!(Service::run(&name, &cnf).is_ok());
    Service::record_started(&name, 100, &mut cnf);
    let again = Service::on_exit(&name, &mut cnf);
    assert!(again);
    let plan = Service::run(&name, &cnf).unwrap();
    assert_eq!(plan.program, "sleep");
    assert_eq!(plan.args, vec!["1000".to_string()]);
    Service::record_started(&name, 101, &mut cnf);
    assert_eq!(cnf.get_state(&name), Some((ServiceState::Running, 101)));
}

#[test]
fn two_phase_stop_restores_restart_flag() {
    let name = "daemon".to_string();
    let mut cnf = config_with("daemon", service("sleep 1000", true));
    Service::record_started(&name, 55, &mut cnf);
    let plan = Service::kill(&name, &mut cnf).unwrap();
    assert_eq!(plan, KillPlan { pid: 55, restart: true });
    assert!(!restart_flag(&cnf, "daemon"));
    // the observation task reads the suppressed flag, drops the record and
    // does not respawn
    let mut observed = cnf.clone();
    assert!(!Service::on_exit(&name, &mut observed));
    Service::restore_after_kill(&name, plan, &mut observed);
    assert!(restart_flag(&observed, "daemon"));
    assert_eq!(observed.get_state(&name), None);
    // if the observation task has not run yet, the record stays for it
    Service::restore_after_kill(&name, plan, &mut cnf);
    assert!(restart_flag(&cnf, "daemon"));
    assert_eq!(cnf.get_state(&name), Some((ServiceState::Running, 55)));
}

#[test]
fn restore_keeps_edits_made_during_the_pause() {
    let name = "daemon".to_string();
    let mut cnf = config_with("daemon", service("sleep 1000", true));
    Service::record_started(&name, 55, &mut cnf);
    let plan = Service::kill(&name, &mut cnf).unwrap();
    cnf.define("other".to_string(), service("echo other", false));
    cnf.put_state("other".to_string(), (ServiceState::Running, 3));
    let mut expected = cnf.clone();
    expected.services[0].1.restart = true;
    Service::restore_after_kill(&name, plan, &mut cnf);
    assert_eq!(cnf, expected);
}

#[test]
fn stop_without_restart_leaves_configuration_unchanged() {
    let name = "web".to_string();
    let mut cnf = config_with("web", service("echo hi", false));
    Service::record_started(&name, 9, &mut cnf);
    let before = cnf.clone();
    let plan = Service::kill(&name, &mut cnf).unwrap();
    assert_eq!(plan, KillPlan { pid: 9, restart: false });
    assert_eq!(cnf, before);
    let next = Service::after_signal(plan, true);
    assert!(!next.restore);
    assert_eq!(cnf.get_state(&name), Some((ServiceState::Running, 9)));
}

#[test]
fn after_signal_decides_pause_restore_and_outcome() {
    let on = KillPlan { pid: 1, restart: true };
    let off = KillPlan { pid: 1, restart: false };
    let found = Service::after_signal(on, true);
    assert!(found.pause && found.restore);
    assert_eq!(found.outcome, Ok(()));
    let lost = Service::after_signal(on, false);
    assert!(!lost.pause && lost.restore);
    assert_eq!(lost.outcome, Err(SupervisorError::ProcessLookupFailed));
    let plain = Service::after_signal(off, true);
    assert!(plain.pause && !plain.restore);
    assert_eq!(plain.outcome, Ok(()));
}

#[test]
fn observe_tells_absent_and_stopped_records_apart() {
    let name = "web".to_string();
    let mut cnf = config_with("web", service("echo hi", false));
    assert_eq!(Service::observe(&name, &cnf), Err(SupervisorError::NotFound));
    cnf.put_state(name.clone(), (ServiceState::Stopped, 4));
    assert_eq!(Service::observe(&name, &cnf), Err(SupervisorError::NotRunning));
    Service::record_started(&name, 8, &mut cnf);
    assert_eq!(Service::observe(&name, &cnf), Ok(8));
}

#[test]
fn plan_from_given_words() {
    let words = vec!["ls".to_string(), "-l".to_string(), "/tmp".to_string()];
    let plan = plan_from_words(&words, &"/".to_string(), &None);
    assert_eq!(plan.program, "ls");
    assert_eq!(plan.args, vec!["-l".to_string(), "/tmp".to_string()]);
    assert_eq!(plan.working_directory, "/");
    let empty = plan_from_words(&Vec::new(), &"/".to_string(), &None);
    assert_eq!(empty.program, "");
    assert!(empty.args.is_empty());
}

#[test]
fn disabled_restart_is_not_respawned() {
    let name = "daemon".to_string();
    let mut cnf = config_with("daemon", service("sleep 1000", true));
    Service::record_started(&name, 12, &mut cnf);
    // an operator switches the flag off while the process runs
    cnf.define(name.clone(), service("sleep 1000", false));
    assert!(!Service::on_exit(&name, &mut cnf));
    assert_eq!(cnf.get_state(&name), None);
}

#[test]
fn removed_service_is_not_respawned() {
    let name = "daemon".to_string();
    let mut cnf = config_with("daemon", service("sleep 1000", true));
    Service::record_started(&name, 12, &mut cnf);
    cnf.services.clear();
    assert!(!Service::on_exit(&name, &mut cnf));
    assert!(cnf.service_states.is_empty());
}

#[test]
fn launch_plan_splits_on_any_whitespace() {
    let mut svc = service("  python3   -m\thttp.server  8000 ", false);
    svc.environment = Some(vec![("PORT".to_string(), "8000".to_string())]);
    let cnf = config_with("py", svc);
    let plan = Service::run(&"py".to_string(), &cnf).unwrap();
    assert_eq!(plan.program, "python3");
    assert_eq!(
        plan.args,
        vec!["-m".to_string(), "http.server".to_string(), "8000".to_string()]
    );
    assert_eq!(plan.environment, vec![("PORT".to_string(), "8000".to_string())]);
}

#[test]
fn launch_plan_of_empty_command_has_empty_program() {
    let cnf = config_with("empty", service("", false));
    let plan = Service::run(&"empty".to_string(), &cnf).unwrap();
    assert_eq!(plan.program, "");
    assert!(plan.args.is_empty());
}

#[test]
fn state_table_put_get_remove() {
    let mut cnf = ServicesConfiguration::new();
    let a = "a".to_string();
    let b = "b".to_string();
    cnf.put_state(a.clone(), (ServiceState::Running, 1));
    cnf.put_state(b.clone(), (ServiceState::Running, 2));
    cnf.put_state(a.clone(), (ServiceState::Running, 3));
    assert_eq!(cnf.service_states.len(), 2);
    assert_eq!(cnf.get_state(&a), Some((ServiceState::Running, 3)));
    cnf.remove_state(&a);
    assert_eq!(cnf.get_state(&a), None);
    assert_eq!(cnf.get_state(&b), Some((ServiceState::Running, 2)));
    cnf.remove_state(&a);
    assert_eq!(cnf.service_states.len(), 1);
}

#[test]
fn inherited_definitions_replace_primary_ones() {
    let mut primary = config_with("web", service("echo primary", false));
    primary.define("db".to_string(), service("postgres", false));
    let mut inherited = config_with("web", service("echo inherited", true));
    inherited.define("cache".to_string(), service("redis-server", false));
    primary.merge_inherited(inherited);
    assert_eq!(primary.services.len(), 3);
    let web = &primary.services.iter().find(|(n, _)| n == "web").unwrap().1;
    assert_eq!(web.command, "echo inherited");
    assert!(web.restart);
    assert!(primary.is_defined(&"db".to_string()));
    assert!(primary.is_defined(&"cache".to_string()));
}

#[test]
fn defaults() {
    assert_eq!(ServiceState::default(), ServiceState::Stopped);
    let server = ServerConfiguration::default();
    assert_eq!(server.port, 6374);
    assert_eq!(DEFAULT_PORT, 6374);
    assert_eq!(server.key, "");
    let cnf = ServicesConfiguration::default();
    assert!(cnf.inherit.is_none());
    assert!(cnf.services.is_empty());
    assert!(cnf.service_states.is_empty());
    assert_eq!(cnf.server.port, 6374);
}
