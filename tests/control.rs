use sproc::model::{ServerConfiguration, Service, ServiceState, ServicesConfiguration, SupervisorError};
use sproc::questions::DatabaseError;
use sproc::server::{
    info_request, key_accepted, kill_request, not_found, observe_request, reply_for, APIReturn,
    BasicServiceRequestBody,
};

fn server(key: &str) -> ServerConfiguration {
    ServerConfiguration { port: 6374, key: key.to_string() }
}

fn body(service: &str, key: &str) -> BasicServiceRequestBody {
    BasicServiceRequestBody { service: service.to_string(), key: key.to_string() }
}

fn running_daemon() -> ServicesConfiguration {
    let mut cnf = ServicesConfiguration::new();
    cnf.define(
        "daemon".to_string(),
        Service {
            command: "sleep 1000".to_string(),
            working_directory: "/".to_string(),
            environment: None,
            restart: true,
        },
    );
    Service::record_started(&"daemon".to_string(), 77, &mut cnf);
    cnf
}

#[test]
fn kill_with_wrong_key_is_unauthorized_and_changes_nothing() {
    let mut cnf = running_daemon();
    let before = cnf.clone();
    let r = kill_request(&server("secret"), &body("daemon", "wrong"), &mut cnf);
    assert_eq!(r, Err(APIReturn { ok: false, data: 401 }));
    assert_eq!(cnf, before);
    assert_eq!(cnf.get_state(&"daemon".to_string()), Some((ServiceState::Running, 77)));
}

#[test]
fn kill_with_right_key_suppresses_restart() {
    let mut cnf = running_daemon();
    let plan = kill_request(&server("secret"), &body("daemon", "secret"), &mut cnf).unwrap();
    assert_eq!(plan.pid, 77);
    assert!(plan.restart);
    assert!(!cnf.services[0].1.restart);
}

#[test]
fn kill_of_unknown_service_is_bad_request() {
    let mut cnf = running_daemon();
    let before = cnf.clone();
    let r = kill_request(&server("secret"), &body("nope", "secret"), &mut cnf);
    assert_eq!(r, Err(APIReturn { ok: false, data: 400 }));
    assert_eq!(cnf, before);
}

#[test]
fn start_requests() {
    let cnf = running_daemon();
    let s = server("k");
    assert_eq!(
        observe_request(&s, &body("daemon", "x"), &cnf),
        Err(APIReturn { ok: false, data: 401 })
    );
    assert_eq!(
        observe_request(&s, &body("daemon", "k"), &cnf),
        Err(APIReturn { ok: false, data: 400 })
    );
    let mut stopped = cnf.clone();
    Service::on_exit(&"daemon".to_string(), &mut stopped);
    let plan = observe_request(&s, &body("daemon", "k"), &stopped).unwrap();
    assert_eq!(plan.program, "sleep");
}

#[test]
fn info_requests() {
    let cnf = running_daemon();
    let s = server("k");
    let refused = APIReturn { ok: false, data: String::new() };
    assert_eq!(info_request(&s, &body("daemon", "x"), &cnf), Err(refused.clone()));
    assert_eq!(info_request(&s, &body("nope", "k"), &cnf), Err(refused));
    assert_eq!(info_request(&s, &body("daemon", "k"), &cnf), Ok(77));
}

#[test]
fn fixed_replies() {
    assert_eq!(not_found(), APIReturn { ok: false, data: 404 });
    assert_eq!(reply_for(&Ok(())), APIReturn { ok: true, data: 200 });
    assert_eq!(
        reply_for(&Err(SupervisorError::Unauthorized)),
        APIReturn { ok: false, data: 401 }
    );
    assert_eq!(
        reply_for(&Err(SupervisorError::ProcessLookupFailed)),
        APIReturn { ok: false, data: 400 }
    );
    assert!(key_accepted(&body("a", ""), &server("")));
    assert!(!key_accepted(&body("a", "k"), &server("K")));
}

#[test]
fn database_error_messages_and_codes() {
    assert_eq!(DatabaseError::NotAllowed.to_string(), "You are not allowed to do this!");
    assert_eq!(
        DatabaseError::ValueError.to_string(),
        "One of the field values given is invalid!"
    );
    assert_eq!(DatabaseError::NotFound.to_string(), "Nothing with this ID could be found!");
    assert_eq!(DatabaseError::Other.to_string(), "An unspecified error has occured");
    assert_eq!(DatabaseError::NotAllowed.status_code(), 401);
    assert_eq!(DatabaseError::NotFound.status_code(), 404);
    assert_eq!(DatabaseError::ValueError.status_code(), 500);
    assert_eq!(DatabaseError::Other.status_code(), 500);
}
