use rsutil::log::log4rs::{Log4rsConfig, DEFAULT_PATTERN, STAMP_FORMAT};
use rsutil::log::router::{
    log_file_path, ActivateError, Appender, Backend, Destination, Router,
};
use rsutil::log::severity::Severity;

fn console(name: &str, threshold: Severity) -> Appender {
    Appender {
        name: name.to_string(),
        threshold,
        pattern: DEFAULT_PATTERN.to_string(),
        destination: Destination::Console,
    }
}

#[test]
fn defaults_give_a_console_appender_only() {
    let router = Log4rsConfig::default().router_at("2024-01-02 03_04_05");
    assert_eq!(router.root, Severity::Trace);
    assert_eq!(router.appenders.len(), 1);
    assert_eq!(router.appenders[0].name, "console");
    assert_eq!(router.appenders[0].threshold, Severity::Debug);
    assert_eq!(router.appenders[0].pattern, "{d} [{l}] {t}[{L}]: {m}{n}");
    assert!(matches!(router.appenders[0].destination, Destination::Console));
    assert_eq!(router.appenders[0].file_path(), None);
    assert_eq!(router.appenders[0].directory(), None);
    assert!(router.has_unique_names());
}

#[test]
fn file_appender_is_named_after_base_name_and_moment() {
    let mut config = Log4rsConfig::default();
    config.set_filename("myapp").set_filepath("logs");
    let router = config.router_at("2024-01-02 03_04_05");
    assert_eq!(router.appenders.len(), 2);
    assert_eq!(router.appenders[0].name, "console");
    assert_eq!(router.appenders[1].name, "file");
    assert_eq!(router.appenders[1].threshold, Severity::Debug);
    assert_eq!(router.appenders[1].directory(), Some("logs"));
    assert_eq!(
        router.appenders[1].file_path(),
        Some("logs/myapp-2024-01-02 03_04_05.log".to_string())
    );
}

#[test]
fn directory_defaults_to_logs() {
    let mut config = Log4rsConfig::default();
    config.set_filename("svc");
    let router = config.router_at("1999-12-31 23_59_59");
    assert_eq!(
        router.appenders[1].file_path(),
        Some("logs/svc-1999-12-31 23_59_59.log".to_string())
    );
}

#[test]
fn setters_are_taken_over() {
    let mut config = Log4rsConfig::default();
    config
        .set_root_level(Severity::Info)
        .set_console_level(Severity::Warn)
        .set_file_level(Severity::Trace)
        .set_filename("myapp")
        .set_filepath("var/log")
        .set_pattern("{l} {m}{n}");
    let router = config.router_at("2024-01-02 03_04_05");
    assert_eq!(router.root, Severity::Info);
    assert_eq!(router.appenders[0].threshold, Severity::Warn);
    assert_eq!(router.appenders[1].threshold, Severity::Trace);
    assert_eq!(router.appenders[0].pattern, "{l} {m}{n}");
    assert_eq!(router.appenders[1].pattern, "{l} {m}{n}");
    assert_eq!(
        router.appenders[1].file_path(),
        Some("var/log/myapp-2024-01-02 03_04_05.log".to_string())
    );
}

#[test]
fn path_formula() {
    assert_eq!(log_file_path("logs", "myapp", "S"), "logs/myapp-S.log");
    assert_eq!(log_file_path("", "", ""), "/-.log");
}

#[test]
fn router_is_stamped_with_the_local_time() {
    let mut config = Log4rsConfig::default();
    config.set_filename("myapp").set_filepath("logs");
    let router = config.router();
    let path = router.appenders[1].file_path().unwrap();
    assert!(path.starts_with("logs/myapp-"));
    assert!(path.ends_with(".log"));
    let stamp = &path["logs/myapp-".len()..path.len() - ".log".len()];
    assert_ne!(stamp, STAMP_FORMAT);
    assert!(!stamp.contains('%'));
    let shape: String =
        stamp.chars().map(|c| if c.is_ascii_digit() { '9' } else { c }).collect();
    assert_eq!(shape, "9999-99-99 99_99_99");
}

#[test]
fn appenders_filter_independently() {
    let mut config = Log4rsConfig::default();
    config
        .set_console_level(Severity::Warn)
        .set_file_level(Severity::Trace)
        .set_filename("myapp");
    let router = config.router_at("2024-01-02 03_04_05");
    assert_eq!(router.route(Severity::Info), vec![1]);
    assert_eq!(router.route(Severity::Trace), vec![1]);
    assert_eq!(router.route(Severity::Warn), vec![0, 1]);
    assert_eq!(router.route(Severity::Error), vec![0, 1]);
    assert!(!router.appenders[0].accepts(Severity::Info));
    assert!(router.appenders[1].accepts(Severity::Info));
}

#[test]
fn root_threshold_comes_first() {
    let mut config = Log4rsConfig::default();
    config.set_root_level(Severity::Warn).set_file_level(Severity::Trace).set_filename("a");
    let router = config.router_at("s");
    assert_eq!(router.route(Severity::Info), Vec::<usize>::new());
    assert_eq!(router.route(Severity::Warn), vec![0, 1]);
}

#[test]
fn duplicate_names_are_found() {
    let router = Router {
        root: Severity::Trace,
        appenders: vec![
            console("a", Severity::Trace),
            console("b", Severity::Trace),
            console("a", Severity::Trace),
        ],
    };
    assert!(!router.has_unique_names());
    let router = Router {
        root: Severity::Trace,
        appenders: vec![console("a", Severity::Trace), console("b", Severity::Trace)],
    };
    assert!(router.has_unique_names());
    let router = Router { root: Severity::Trace, appenders: vec![] };
    assert!(router.has_unique_names());
    assert_eq!(router.route(Severity::Error), Vec::<usize>::new());
}

#[test]
fn second_activation_is_refused_and_first_router_stays() {
    let mut backend = Backend::new();
    assert!(!backend.is_installed());
    assert_eq!(backend.dispatch(Severity::Error), Vec::<usize>::new());

    let mut first = Log4rsConfig::default();
    first.set_console_level(Severity::Warn).set_file_level(Severity::Trace).set_filename("one");
    assert_eq!(first.initialize(&mut backend, "2024-01-02 03_04_05", true), Ok(()));
    assert!(backend.is_installed());
    assert_eq!(backend.dispatch(Severity::Info), vec![1]);

    let mut second = Log4rsConfig::default();
    second.set_console_level(Severity::Trace);
    assert_eq!(
        second.initialize(&mut backend, "2024-01-02 03_04_06", true),
        Err(ActivateError::AlreadyInstalled)
    );
    assert!(backend.is_installed());
    assert_eq!(backend.dispatch(Severity::Info), vec![1]);
    let router = backend.router().unwrap();
    assert_eq!(router.appenders.len(), 2);
    assert_eq!(
        router.appenders[1].file_path(),
        Some("logs/one-2024-01-02 03_04_05.log".to_string())
    );
}

#[test]
fn failed_preparation_installs_nothing() {
    let mut backend = Backend::new();
    let mut config = Log4rsConfig::default();
    config.set_filename("myapp").set_filepath("/nonexistent/dir");
    assert_eq!(
        config.initialize(&mut backend, "2024-01-02 03_04_05", false),
        Err(ActivateError::Configuration)
    );
    assert!(!backend.is_installed());
    assert!(backend.router().is_none());
    assert_eq!(config.initialize(&mut backend, "2024-01-02 03_04_05", true), Ok(()));
    assert_eq!(
        config.initialize(&mut backend, "2024-01-02 03_04_05", false),
        Err(ActivateError::Configuration)
    );
}

#[test]
fn install_checks_the_names() {
    let mut backend = Backend::new();
    let bad = Router {
        root: Severity::Trace,
        appenders: vec![console("x", Severity::Trace), console("x", Severity::Warn)],
    };
    assert_eq!(backend.install(bad, true), Err(ActivateError::Configuration));
    assert!(!backend.is_installed());
    let good = Router { root: Severity::Info, appenders: vec![console("x", Severity::Warn)] };
    assert_eq!(backend.install(good, true), Ok(()));
    assert_eq!(backend.dispatch(Severity::Warn), vec![0]);
    assert_eq!(backend.dispatch(Severity::Info), Vec::<usize>::new());
}

#[test]
fn errors_have_messages() {
    assert_eq!(ActivateError::Configuration.message(), "the log destinations could not be set up");
    assert_eq!(
        ActivateError::AlreadyInstalled.message(),
        "a logging backend is already installed"
    );
}
