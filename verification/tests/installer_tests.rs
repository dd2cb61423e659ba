use flash::errors::PkgError;
use flash::installer::{Action, Event, Installer, Outcome, Phase};
use flash::pkgref::PackageRef;
use flash::store::{PackageStore, RemoveOutcome};

fn start(arg: &str) -> Installer {
    Installer::new(PackageRef::parse(arg).unwrap())
}

#[test]
fn clear_install_runs_and_removes_the_directory() {
    let mut inst = start("alice/tool");
    let mut store = PackageStore::new();

    assert!(matches!(inst.next_action(), Action::CheckTarget));
    inst.step(Event::TargetChecked { occupied: false });

    assert!(matches!(inst.next_action(), Action::AcquireSource));
    store.add("tool".to_string());
    inst.step(Event::AcquireFinished { ok: true });

    assert!(matches!(inst.next_action(), Action::LoadConfig));
    inst.step(Event::ConfigLoaded {
        content: Some("name=Foo\ndesc=A tool\nexec=echo hi\nclear=true".to_string()),
    });
    assert_eq!(inst.phase, Phase::AwaitingConfirmation);
    let d = inst.descriptor.as_ref().unwrap();
    assert_eq!(d.name, Some("Foo".to_string()));
    assert_eq!(d.desc, Some("A tool".to_string()));

    assert!(matches!(inst.next_action(), Action::AskConfirm));
    inst.step(Event::ConfirmAnswer { yes: true });
    assert_eq!(inst.phase, Phase::Executing);

    match inst.next_action() {
        Action::RunCommand { command } => assert_eq!(command, "echo hi".to_string()),
        _ => panic!("expected the install command to run"),
    }
    inst.step(Event::CommandFinished { spawned: true, exit_ok: true });
    assert_eq!(inst.phase, Phase::Finalizing);

    assert!(matches!(inst.next_action(), Action::RemoveTarget));
    assert_eq!(store.remove(&"tool".to_string()), RemoveOutcome::Removed);
    inst.step(Event::TargetRemoved { ok: true });

    assert_eq!(inst.phase, Phase::Done);
    assert_eq!(inst.outcome, Some(Outcome::Installed));
    assert_eq!(inst.failure, None);
    assert!(!store.contains(&"tool".to_string()));
    assert!(store.names().is_empty());
}

#[test]
fn non_clear_install_keeps_the_directory() {
    let mut inst = start("alice/tool");
    inst.step(Event::TargetChecked { occupied: false });
    inst.step(Event::AcquireFinished { ok: true });
    inst.step(Event::ConfigLoaded { content: Some("exec=make".to_string()) });
    inst.step(Event::ConfirmAnswer { yes: true });
    inst.step(Event::CommandFinished { spawned: true, exit_ok: true });
    assert_eq!(inst.phase, Phase::Done);
    assert_eq!(inst.outcome, Some(Outcome::Installed));
}

#[test]
fn missing_exec_fails_after_confirmation_with_cleanup_offer() {
    let mut inst = start("alice/tool");
    inst.step(Event::TargetChecked { occupied: false });
    inst.step(Event::AcquireFinished { ok: true });
    inst.step(Event::ConfigLoaded { content: Some("name=Foo\nclear=true".to_string()) });
    assert_eq!(inst.phase, Phase::AwaitingConfirmation);

    inst.step(Event::ConfirmAnswer { yes: true });
    assert_eq!(inst.phase, Phase::Failed);
    assert_eq!(inst.failure, Some(PkgError::MissingExecCommand));

    assert!(matches!(inst.next_action(), Action::OfferCleanup));
    inst.step(Event::CleanupAnswer { remove: true });
    assert!(matches!(inst.next_action(), Action::RemoveTarget));
    inst.step(Event::TargetRemoved { ok: true });
    assert_eq!(inst.phase, Phase::Done);
    assert_eq!(inst.outcome, Some(Outcome::Failed));
    assert_eq!(inst.failure, Some(PkgError::MissingExecCommand));
}

#[test]
fn declining_confirmation_leaves_the_clone_and_runs_nothing() {
    let mut inst = start("alice/tool");
    let mut store = PackageStore::new();
    inst.step(Event::TargetChecked { occupied: false });
    store.add("tool".to_string());
    inst.step(Event::AcquireFinished { ok: true });
    inst.step(Event::ConfigLoaded { content: Some("exec=echo hi".to_string()) });

    inst.step(Event::ConfirmAnswer { yes: false });
    assert_eq!(inst.phase, Phase::Done);
    assert_eq!(inst.outcome, Some(Outcome::Aborted));
    assert_eq!(inst.failure, None);
    assert!(store.contains(&"tool".to_string()));
}

#[test]
fn occupied_target_asks_before_replacing() {
    let mut inst = start("alice/tool");
    inst.step(Event::TargetChecked { occupied: true });
    assert_eq!(inst.phase, Phase::ConfirmingReplace);
    assert!(matches!(inst.next_action(), Action::AskReplace));
    inst.step(Event::ReplaceAnswer { yes: true });
    assert!(matches!(inst.next_action(), Action::RemoveTarget));
    inst.step(Event::TargetRemoved { ok: true });
    assert_eq!(inst.phase, Phase::Acquiring);
}

#[test]
fn refusing_to_replace_aborts() {
    let mut inst = start("alice/tool");
    inst.step(Event::TargetChecked { occupied: true });
    inst.step(Event::ReplaceAnswer { yes: false });
    assert_eq!(inst.phase, Phase::Done);
    assert_eq!(inst.outcome, Some(Outcome::Aborted));
}

#[test]
fn clone_failure_is_fatal_with_cleanup_offer() {
    let mut inst = start("alice/tool");
    inst.step(Event::TargetChecked { occupied: false });
    inst.step(Event::AcquireFinished { ok: false });
    assert_eq!(inst.phase, Phase::Failed);
    assert_eq!(inst.failure, Some(PkgError::AcquireError));
    assert!(matches!(inst.next_action(), Action::OfferCleanup));
    inst.step(Event::CleanupAnswer { remove: false });
    assert_eq!(inst.phase, Phase::Done);
    assert_eq!(inst.outcome, Some(Outcome::Failed));
}

#[test]
fn missing_config_file_is_fatal() {
    let mut inst = start("alice/tool");
    inst.step(Event::TargetChecked { occupied: false });
    inst.step(Event::AcquireFinished { ok: true });
    inst.step(Event::ConfigLoaded { content: None });
    assert_eq!(inst.phase, Phase::Failed);
    assert_eq!(inst.failure, Some(PkgError::MissingConfigFile));
}

#[test]
fn failing_install_command_is_fatal() {
    let mut inst = start("alice/tool");
    inst.step(Event::TargetChecked { occupied: false });
    inst.step(Event::AcquireFinished { ok: true });
    inst.step(Event::ConfigLoaded { content: Some("exec=false".to_string()) });
    inst.step(Event::ConfirmAnswer { yes: true });
    inst.step(Event::CommandFinished { spawned: true, exit_ok: false });
    assert_eq!(inst.phase, Phase::Failed);
    assert_eq!(inst.failure, Some(PkgError::CommandFailed));
}

#[test]
fn unspawnable_command_reports_io_error() {
    let mut inst = start("alice/tool");
    inst.step(Event::TargetChecked { occupied: false });
    inst.step(Event::AcquireFinished { ok: true });
    inst.step(Event::ConfigLoaded { content: Some("exec=x".to_string()) });
    inst.step(Event::ConfirmAnswer { yes: true });
    inst.step(Event::CommandFinished { spawned: false, exit_ok: false });
    assert_eq!(inst.phase, Phase::Failed);
    assert_eq!(inst.failure, Some(PkgError::IOError));
}

#[test]
fn error_messages_name_the_failure() {
    assert_eq!(
        PkgError::MissingExecCommand.message(),
        "No exec command found in config file.".to_string()
    );
    assert_eq!(
        PkgError::InvalidReference.message(),
        "Invalid repository format. Use <owner>/<repo>.".to_string()
    );
}
