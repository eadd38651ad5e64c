use win_service_rs::{
    Action, Error, Event, Operation, Outcome, ServiceConfig, ServiceController, ServiceHandle,
    ServiceStatus, StartType,
};

const REGISTRY: u32 = 100;
const NOT_FOUND: u32 = 0x8007_0424;
const DENIED: u32 = 0x8007_0005;
const EXISTS: u32 = 0x8007_0431;

fn done() -> Action<u32> {
    Action::Finish(Ok(Outcome::Done))
}

fn reported(s: ServiceStatus) -> Action<u32> {
    Action::Finish(Ok(Outcome::Reported(s)))
}

fn config() -> ServiceConfig {
    ServiceConfig::new("/bin/true".to_string(), "Test".to_string())
        .with_start_type(StartType::Demand)
}

fn installed(h: u32) -> ServiceController<u32> {
    let mut c = ServiceController::new(REGISTRY);
    c.begin_install(config());
    c.step(Event::PathChecked(Ok(true)));
    assert_eq!(c.step(Event::Opened(Ok(h))), done());
    c
}

#[test]
fn end_to_end_lifecycle() {
    let mut c = ServiceController::new(REGISTRY);
    assert_eq!(c.begin_install(config()), Action::CheckPath("/bin/true".to_string()));
    assert_eq!(
        c.step(Event::PathChecked(Ok(true))),
        Action::CreateService {
            display_name: "Test".to_string(),
            exe_path: "/bin/true".to_string(),
            start_type: 3,
        }
    );
    assert_eq!(c.step(Event::Opened(Ok(7))), done());
    assert_eq!(c.begin(Operation::Status), Action::QueryStatus(7));
    assert_eq!(c.step(Event::Queried(Ok(1))), reported(ServiceStatus::Stopped));
    assert_eq!(c.begin(Operation::Start), Action::StartService(7));
    assert_eq!(c.step(Event::Completed(Ok(()))), done());
    assert_eq!(c.begin(Operation::Status), Action::QueryStatus(7));
    assert_eq!(c.step(Event::Queried(Ok(2))), reported(ServiceStatus::StartPending));
    assert_eq!(c.begin(Operation::Status), Action::QueryStatus(7));
    assert_eq!(c.step(Event::Queried(Ok(4))), reported(ServiceStatus::Running));
    assert_eq!(c.begin(Operation::Stop), Action::StopService(7));
    assert_eq!(c.step(Event::Completed(Ok(()))), done());
    assert_eq!(c.begin(Operation::Uninstall), Action::DeleteService(7));
    assert_eq!(c.step(Event::Completed(Ok(()))), Action::CloseService(7));
    assert_eq!(c.step(Event::Closed), done());
    assert_eq!(c.begin(Operation::Status), Action::OpenService);
    assert_eq!(c.step(Event::Opened(Err(NOT_FOUND))), reported(ServiceStatus::Stopped));
    assert_eq!(c.into_handles(), vec![REGISTRY]);
}

#[test]
fn install_with_missing_path_makes_no_registry_call() {
    let mut c = ServiceController::new(REGISTRY);
    assert_eq!(c.begin_install(config()), Action::CheckPath("/bin/true".to_string()));
    assert_eq!(
        c.step(Event::PathChecked(Ok(false))),
        Action::Finish(Err(Error::InvalidPath("/bin/true".to_string())))
    );
    assert_eq!(c.service(), ServiceHandle::Unresolved);
    assert!(c.is_idle());
}

#[test]
fn install_with_failing_path_check_is_an_io_failure() {
    let mut c = ServiceController::new(REGISTRY);
    c.begin_install(config());
    assert_eq!(
        c.step(Event::PathChecked(Err("permission denied".to_string()))),
        Action::Finish(Err(Error::Io("permission denied".to_string())))
    );
    assert_eq!(c.service(), ServiceHandle::Unresolved);
}

#[test]
fn install_attaches_a_non_empty_description() {
    let mut c = ServiceController::new(REGISTRY);
    let cfg = config().with_description("a test service".to_string()).with_start_type(StartType::Auto);
    c.begin_install(cfg);
    assert_eq!(
        c.step(Event::PathChecked(Ok(true))),
        Action::CreateService {
            display_name: "Test".to_string(),
            exe_path: "/bin/true".to_string(),
            start_type: 2,
        }
    );
    assert_eq!(
        c.step(Event::Opened(Ok(9))),
        Action::SetDescription(9, "a test service".to_string())
    );
    assert_eq!(c.step(Event::Completed(Err(DENIED))), Action::Finish(Err(Error::AccessDenied)));
    assert_eq!(c.service(), ServiceHandle::Open(9));
}

#[test]
fn install_rejected_by_registry_is_a_platform_failure() {
    let mut c = ServiceController::new(REGISTRY);
    c.begin_install(config().with_start_type(StartType::Disabled));
    assert_eq!(
        c.step(Event::PathChecked(Ok(true))),
        Action::CreateService {
            display_name: "Test".to_string(),
            exe_path: "/bin/true".to_string(),
            start_type: 4,
        }
    );
    assert_eq!(c.step(Event::Opened(Err(EXISTS))), Action::Finish(Err(Error::Windows(EXISTS))));
    assert_eq!(c.service(), ServiceHandle::Unresolved);
}

#[test]
fn install_releases_a_stale_handle() {
    let mut c = ServiceController::new(REGISTRY);
    assert_eq!(c.begin(Operation::Status), Action::OpenService);
    assert_eq!(c.step(Event::Opened(Ok(5))), Action::QueryStatus(5));
    assert_eq!(c.step(Event::Queried(Ok(1))), reported(ServiceStatus::Stopped));
    c.begin_install(config().with_description("d".to_string()));
    c.step(Event::PathChecked(Ok(true)));
    assert_eq!(c.step(Event::Opened(Ok(6))), Action::CloseService(5));
    assert_eq!(c.step(Event::Closed), Action::SetDescription(6, "d".to_string()));
    assert_eq!(c.step(Event::Completed(Ok(()))), done());
    assert_eq!(c.into_handles(), vec![6, REGISTRY]);
}

#[test]
fn install_then_uninstall_leaves_no_open_handle() {
    let mut c = installed(7);
    assert_eq!(c.begin(Operation::Uninstall), Action::DeleteService(7));
    assert_eq!(c.step(Event::Completed(Ok(()))), Action::CloseService(7));
    assert_eq!(c.step(Event::Closed), done());
    assert_eq!(c.service(), ServiceHandle::Invalidated);
    assert_eq!(c.begin(Operation::Status), Action::OpenService);
    assert_eq!(c.step(Event::Opened(Err(NOT_FOUND))), reported(ServiceStatus::Stopped));
    assert_eq!(c.into_handles(), vec![REGISTRY]);
}

#[test]
fn status_of_never_installed_service_is_stopped() {
    let mut c = ServiceController::new(REGISTRY);
    assert_eq!(c.begin(Operation::Status), Action::OpenService);
    assert_eq!(c.step(Event::Opened(Err(NOT_FOUND))), reported(ServiceStatus::Stopped));
    assert_eq!(c.service(), ServiceHandle::Unresolved);
}

#[test]
fn status_query_failure_is_classified() {
    let mut c = installed(3);
    assert_eq!(c.begin(Operation::Status), Action::QueryStatus(3));
    assert_eq!(c.step(Event::Queried(Err(DENIED))), Action::Finish(Err(Error::AccessDenied)));
    assert_eq!(c.begin(Operation::Status), Action::QueryStatus(3));
    assert_eq!(c.step(Event::Queried(Ok(99))), reported(ServiceStatus::Unknown));
}

#[test]
fn uninstall_twice_fails_with_service_not_found() {
    let mut c = installed(7);
    c.begin(Operation::Uninstall);
    c.step(Event::Completed(Ok(())));
    assert_eq!(c.step(Event::Closed), done());
    assert_eq!(c.begin(Operation::Uninstall), Action::OpenService);
    assert_eq!(c.step(Event::Opened(Err(NOT_FOUND))), Action::Finish(Err(Error::ServiceNotFound)));
    assert_eq!(c.service(), ServiceHandle::Invalidated);
    assert_eq!(c.into_handles(), vec![REGISTRY]);
}

#[test]
fn operations_resolve_the_handle_once_and_reuse_it() {
    let mut c = ServiceController::new(REGISTRY);
    assert_eq!(c.begin(Operation::Start), Action::OpenService);
    assert_eq!(c.step(Event::Opened(Ok(11))), Action::StartService(11));
    assert_eq!(c.step(Event::Completed(Ok(()))), done());
    assert_eq!(c.begin(Operation::Stop), Action::StopService(11));
    assert_eq!(c.step(Event::Completed(Err(0x8007_0426))), Action::Finish(Err(Error::Windows(0x8007_0426))));
    assert_eq!(c.service(), ServiceHandle::Open(11));
}

#[test]
fn operations_on_missing_service_are_classified() {
    let mut c = ServiceController::new(REGISTRY);
    assert_eq!(c.begin(Operation::Start), Action::OpenService);
    assert_eq!(c.step(Event::Opened(Err(NOT_FOUND))), Action::Finish(Err(Error::ServiceNotFound)));
    assert_eq!(c.begin(Operation::Stop), Action::OpenService);
    assert_eq!(c.step(Event::Opened(Err(DENIED))), Action::Finish(Err(Error::AccessDenied)));
    assert_eq!(c.begin(Operation::Uninstall), Action::OpenService);
    assert_eq!(c.step(Event::Opened(Err(DENIED))), Action::Finish(Err(Error::AccessDenied)));
}

#[test]
fn failed_delete_keeps_the_handle() {
    let mut c = installed(4);
    assert_eq!(c.begin(Operation::Uninstall), Action::DeleteService(4));
    assert_eq!(c.step(Event::Completed(Err(DENIED))), Action::Finish(Err(Error::AccessDenied)));
    assert_eq!(c.into_handles(), vec![4, REGISTRY]);
}

#[test]
fn teardown_without_service_handle_releases_registry_only() {
    let c = ServiceController::new(REGISTRY);
    assert_eq!(c.into_handles(), vec![REGISTRY]);
}

#[test]
fn opening_the_registry_classifies_failure() {
    let ok = ServiceController::<u32>::open(Ok(REGISTRY)).unwrap();
    assert_eq!(ok.registry(), REGISTRY);
    assert_eq!(ok.service(), ServiceHandle::Unresolved);
    assert!(ok.is_idle());
    assert_eq!(ServiceController::<u32>::open(Err(DENIED)).err(), Some(Error::AccessDenied));
    assert_eq!(ServiceController::<u32>::open(Err(0x8007_0006)).err(), Some(Error::Windows(0x8007_0006)));
}

#[test]
fn accepts_only_the_awaited_answer() {
    let mut c = ServiceController::new(REGISTRY);
    assert!(!c.accepts(&Event::Closed));
    c.begin_install(config());
    assert!(c.accepts(&Event::PathChecked(Ok(true))));
    assert!(!c.accepts(&Event::Opened(Ok(1))));
    c.step(Event::PathChecked(Ok(true)));
    assert!(c.accepts(&Event::Opened(Ok(1))));
    c.step(Event::Opened(Ok(1)));
    c.begin(Operation::Status);
    assert!(c.accepts(&Event::Queried(Ok(4))));
    assert!(!c.accepts(&Event::Completed(Ok(()))));
}
