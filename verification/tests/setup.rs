use file_per_thread_logger::{
    announcement, enabled, initialize, Level, Registration, RegistrationOutcome, ThreadFileRouter,
};

#[test]
fn first_call_asks_for_file_and_sink() {
    let router = ThreadFileRouter::new();
    let setup = initialize(
        "log-",
        Some("debug,alpha::beta=trace"),
        Some("worker-1"),
        "ThreadId(2)",
        &router,
        &Registration::Unregistered,
    );
    assert_eq!(setup.file, Some("log-worker-1".to_string()));
    let sink = setup.sink.expect("a sink to install");
    let yes = Registration::Registered;
    assert!(sink.enabled(&yes, Level::Trace, "alpha::beta"));
    assert!(!sink.enabled(&yes, Level::Trace, "gamma"));
    assert!(sink.enabled(&yes, Level::Debug, "gamma"));
}

#[test]
fn second_call_on_a_thread_opens_nothing() {
    let mut router = ThreadFileRouter::new();
    let mut registration = Registration::Unregistered;
    let first = initialize("log-", Some("info"), Some("t"), "ThreadId(2)", &router, &registration);
    assert_eq!(first.file, Some("log-t".to_string()));
    assert!(first.sink.is_some());
    assert_eq!(router.opened(true), Ok(()));
    registration.register_once(true);
    let second = initialize("log-", Some("info"), Some("t"), "ThreadId(2)", &router, &registration);
    assert_eq!(second.file, None);
    assert!(second.sink.is_none());
    assert_eq!(router, ThreadFileRouter::Open);
}

#[test]
fn another_thread_gets_its_file_and_no_sink() {
    let router = ThreadFileRouter::new();
    let setup = initialize(
        "log-",
        Some("info"),
        None,
        "ThreadId(9)",
        &router,
        &Registration::Registered,
    );
    assert_eq!(setup.file, Some("log-ThreadId9".to_string()));
    assert!(setup.sink.is_none());
}

#[test]
fn without_configuration_nothing_happens() {
    for registration in [Registration::Unregistered, Registration::Registered] {
        for router in [ThreadFileRouter::Uninitialized, ThreadFileRouter::Open] {
            let setup =
                initialize("log-", None, Some("worker-1"), "ThreadId(2)", &router, &registration);
            assert_eq!(setup.file, None);
            assert!(setup.sink.is_none());
        }
    }
    assert!(!enabled(&Registration::Unregistered));
}

#[test]
fn enabled_tells_whether_registered() {
    assert!(!enabled(&Registration::Unregistered));
    assert!(enabled(&Registration::Registered));
}

#[test]
fn first_registration_installs() {
    let mut registration = Registration::Unregistered;
    assert_eq!(registration.register_once(true), RegistrationOutcome::Installed);
    assert_eq!(registration, Registration::Registered);
}

#[test]
fn second_registration_is_a_no_op() {
    let mut registration = Registration::Unregistered;
    assert_eq!(registration.register_once(true), RegistrationOutcome::Installed);
    assert_eq!(registration.register_once(true), RegistrationOutcome::AlreadyInstalled);
    assert_eq!(registration, Registration::Registered);
    assert_eq!(registration.register_once(false), RegistrationOutcome::AlreadyInstalled);
    assert_eq!(registration, Registration::Registered);
}

#[test]
fn refused_installation_counts_as_registered() {
    let mut registration = Registration::Unregistered;
    assert_eq!(registration.register_once(false), RegistrationOutcome::AlreadyInstalled);
    assert_eq!(registration, Registration::Registered);
}

#[test]
fn only_a_lost_registration_warns() {
    assert_eq!(RegistrationOutcome::Installed.warning(), None);
    assert_eq!(
        RegistrationOutcome::AlreadyInstalled.warning(),
        Some("Another logger has been set up before the file-per-thread logger, aborting.")
    );
}

#[test]
fn announcement_names_the_prefix() {
    assert_eq!(announcement("log-"), "Set up logging; filename prefix is log-");
    assert_eq!(announcement(""), "Set up logging; filename prefix is ");
}
