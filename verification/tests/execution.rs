use services_control::services::{
    add_service, execute, report, resolve, Execution, Report, Service, RESTART, START, STOP,
};

fn registry() -> Vec<Service> {
    vec![
        Service {
            id: 1,
            name: "web".to_string(),
            start_command: Some("echo hi".to_string()),
            stop_command: None,
            restart_command: Some("echo again".to_string()),
        },
        Service {
            id: 2,
            name: "db".to_string(),
            start_command: Some("db up".to_string()),
            stop_command: Some("db down".to_string()),
            restart_command: None,
        },
    ]
}

#[test]
fn start_without_target_runs_first_service() {
    let mut services: Vec<Service> = Vec::new();
    add_service(&mut services, "web".to_string(), Some("echo hi".to_string()), None, None);
    assert_eq!(
        execute(&services, None, None, START),
        Execution::Run {
            position: 0,
            announcement: "Start service 'web' with command: 'echo hi'".to_string(),
            command: "echo hi".to_string(),
        }
    );
}

#[test]
fn stop_without_command_is_not_implemented() {
    let services = registry();
    assert_eq!(execute(&services, Some(1), None, STOP), Execution::NotImplemented);
    assert_eq!(execute(&services, None, None, STOP), Execution::NotImplemented);
}

#[test]
fn execute_on_empty_registry_aborts() {
    let services: Vec<Service> = Vec::new();
    assert_eq!(execute(&services, None, None, START), Execution::EmptyRegistry);
    assert_eq!(execute(&services, Some(1), None, STOP), Execution::EmptyRegistry);
    assert_eq!(execute(&services, None, Some("web".to_string()), 9), Execution::EmptyRegistry);
}

#[test]
fn execute_unknown_target_is_not_found() {
    let services = registry();
    assert_eq!(execute(&services, Some(3), None, START), Execution::NotFound);
    assert_eq!(execute(&services, None, Some("cache".to_string()), START), Execution::NotFound);
    assert_eq!(execute(&services, Some(0), None, 9), Execution::NotFound);
}

#[test]
fn execute_by_name() {
    let services = registry();
    assert_eq!(
        execute(&services, None, Some("db".to_string()), STOP),
        Execution::Run {
            position: 1,
            announcement: "Stop service 'db' with command: 'db down'".to_string(),
            command: "db down".to_string(),
        }
    );
}

#[test]
fn execute_restart_by_identifier() {
    let services = registry();
    assert_eq!(
        execute(&services, Some(1), None, RESTART),
        Execution::Run {
            position: 0,
            announcement: "Restart service 'web' with command: 'echo again'".to_string(),
            command: "echo again".to_string(),
        }
    );
    assert_eq!(execute(&services, Some(2), None, RESTART), Execution::NotImplemented);
}

#[test]
fn identifier_beats_name() {
    let services = registry();
    assert_eq!(
        execute(&services, Some(2), Some("web".to_string()), START),
        Execution::Run {
            position: 1,
            announcement: "Start service 'db' with command: 'db up'".to_string(),
            command: "db up".to_string(),
        }
    );
    assert_eq!(execute(&services, Some(7), Some("web".to_string()), START), Execution::NotFound);
}

#[test]
fn default_target_is_identifier_one_not_first_position() {
    let services = vec![
        Service {
            id: 4,
            name: "a".to_string(),
            start_command: Some("a up".to_string()),
            stop_command: None,
            restart_command: None,
        },
        Service {
            id: 1,
            name: "b".to_string(),
            start_command: Some("b up".to_string()),
            stop_command: None,
            restart_command: None,
        },
    ];
    assert_eq!(resolve(&services, None, &None), Some(1));
    let without_one = vec![Service {
        id: 4,
        name: "a".to_string(),
        start_command: None,
        stop_command: None,
        restart_command: None,
    }];
    assert_eq!(resolve(&without_one, None, &None), None);
    assert_eq!(execute(&without_one, None, None, START), Execution::NotFound);
}

#[test]
fn resolve_takes_first_of_repeated_names() {
    let mut services = registry();
    services.push(Service {
        id: 3,
        name: "web".to_string(),
        start_command: None,
        stop_command: None,
        restart_command: None,
    });
    assert_eq!(resolve(&services, None, &Some("web".to_string())), Some(0));
    assert_eq!(resolve(&services, Some(3), &Some("web".to_string())), Some(2));
    assert_eq!(resolve(&services, None, &Some("nobody".to_string())), None);
}

#[test]
fn unknown_command_type_falls_back() {
    let services = registry();
    assert_eq!(
        execute(&services, Some(1), None, 0),
        Execution::Fallback { command: "echo 'Command not fount.'".to_string() }
    );
    assert_eq!(
        execute(&services, None, None, -1),
        Execution::Fallback { command: "echo 'Command not fount.'".to_string() }
    );
}

#[test]
fn execute_leaves_registry_alone() {
    let services = registry();
    let _ = execute(&services, Some(1), None, START);
    assert_eq!(services, registry());
}

#[test]
fn command_types_are_one_two_three() {
    assert_eq!((START, STOP, RESTART), (1, 2, 3));
}

#[test]
fn report_success_carries_output() {
    assert_eq!(
        report(true, "hi\n", "ignored"),
        Report::Success("Commmand executed with success.\n hi\n".to_string())
    );
}

#[test]
fn report_failure_carries_errors() {
    assert_eq!(
        report(false, "ignored", "sh: 1: nope: not found\n"),
        Report::Failure("Error on execute command: sh: 1: nope: not found\n".to_string())
    );
}
