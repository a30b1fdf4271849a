use biyo_shell::setup::backend_path;
use biyo_shell::setup::logging_step;
use biyo_shell::setup::SetupError;
use biyo_shell::setup::CREATE_NO_WINDOW;

#[test]
fn skipped_logging_install_lets_startup_proceed() {
    let r = logging_step(None);
    assert!(r.is_ok());
}

#[test]
fn successful_logging_install_lets_startup_proceed() {
    let r = logging_step(Some(Ok(())));
    assert!(r.is_ok());
}

#[test]
fn failed_logging_install_aborts_startup() {
    let r = logging_step(Some(Err(String::from("no log directory"))));
    match r {
        Err(SetupError::LoggingInstallFailure(m)) => assert_eq!(m, "no log directory"),
        Ok(()) => panic!("a failed logging install must abort startup"),
    }
}

#[test]
fn setup_error_message_names_the_failure() {
    let e = SetupError::LoggingInstallFailure(String::from("no log directory"));
    assert_eq!(e.message(), "failed to install logging: no log directory");
}

#[test]
fn spawn_configuration_is_fixed() {
    assert_eq!(backend_path(), "C:/Program Files/biyo/biyo-backend.exe");
    assert_eq!(CREATE_NO_WINDOW, 0x08000000);
}
