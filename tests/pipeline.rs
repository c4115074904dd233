use deployer::{
    activation_command, digest_chunks, Action, DeployArgs, DeployError, Deployment, Event, Stage,
};

fn example_args() -> DeployArgs {
    DeployArgs {
        server_ssh: "user@server-address".to_string(),
        server_path: "/srv/app".to_string(),
        binary_name: "example".to_string(),
    }
}

fn reason(s: &str) -> String {
    s.to_string()
}

fn hashed(d: &mut Deployment) {
    assert!(matches!(d.advance_at(Event::Begin, 0), Action::HashFile { .. }));
    let digest = "d".repeat(64);
    assert_eq!(d.advance_at(Event::Hashed { digest }, 0), Action::ReadCommit);
}

#[test]
fn end_to_end_deployment() {
    let mut d = Deployment::new(example_args());
    assert_eq!(d.stage, Stage::Start);

    let path = "./target/x86_64-unknown-linux-musl/release/example".to_string();
    assert_eq!(d.advance_at(Event::Begin, 0), Action::HashFile { path: path.clone() });

    let d_h = digest_chunks(&vec![b"hello".to_vec()]);
    assert_eq!(d.advance_at(Event::Hashed { digest: d_h.clone() }, 0), Action::ReadCommit);

    let name = format!("example-1700000000-c1-{d_h}");
    assert_eq!(
        d.advance_at(Event::CommitRead { commit: reason("c1") }, 1700000000),
        Action::EnsureRemoteDir {
            argv: vec![
                "ssh".to_string(),
                "user@server-address".to_string(),
                "mkdir -p /srv/app/versions/".to_string()
            ]
        }
    );
    assert_eq!(d.stage, Stage::PreparingDir { name: name.clone() });

    assert_eq!(
        d.advance_at(Event::StepSucceeded, 5),
        Action::CopyFile {
            argv: vec![
                "scp".to_string(),
                path.clone(),
                format!("user@server-address:/srv/app/versions/{name}")
            ]
        }
    );

    let script = activation_command("/srv/app", &name, "example", "systemctl restart example");
    assert!(script.contains(&format!("ln -s /srv/app/versions/{name} /srv/app/example")));
    assert_eq!(
        d.advance_at(Event::StepSucceeded, 5),
        Action::Activate {
            argv: vec![
                "ssh".to_string(),
                "-q".to_string(),
                "-T".to_string(),
                "user@server-address".to_string(),
                script
            ]
        }
    );

    assert_eq!(d.advance_at(Event::StepSucceeded, 5), Action::Finish { name: name.clone() });
    assert_eq!(d.stage, Stage::Done { name });
    assert_eq!(d.advance_at(Event::StepSucceeded, 5), Action::Idle);
}

#[test]
fn hash_failure_stops_the_pipeline() {
    let mut d = Deployment::new(example_args());
    d.advance_at(Event::Begin, 0);
    let err = DeployError::Io(reason("No such file or directory"));
    assert_eq!(
        d.advance_at(Event::HashFailed { reason: reason("No such file or directory") }, 0),
        Action::Abort { error: DeployError::Io(reason("No such file or directory")) }
    );
    assert_eq!(d.stage, Stage::Failed { error: err });
    assert_eq!(d.advance_at(Event::CommitRead { commit: reason("c1") }, 0), Action::Idle);
    assert_eq!(d.advance_at(Event::StepSucceeded, 0), Action::Idle);
}

#[test]
fn copy_failure_never_activates() {
    let mut d = Deployment::new(example_args());
    hashed(&mut d);
    d.advance_at(Event::CommitRead { commit: reason("c1") }, 1);
    assert!(matches!(d.advance_at(Event::StepSucceeded, 1), Action::CopyFile { .. }));
    let action = d.advance_at(Event::StepFailed { reason: reason("disk full") }, 1);
    assert_eq!(action, Action::Abort { error: DeployError::RemoteCommand(reason("disk full")) });
    for _ in 0..3 {
        assert_eq!(d.advance_at(Event::StepSucceeded, 1), Action::Idle);
    }
    assert_eq!(d.stage, Stage::Failed { error: DeployError::RemoteCommand(reason("disk full")) });
}

#[test]
fn commit_failure_is_a_source_control_error() {
    let mut d = Deployment::new(example_args());
    hashed(&mut d);
    assert_eq!(
        d.advance_at(Event::CommitFailed { reason: reason("not a git repository") }, 0),
        Action::Abort { error: DeployError::SourceControl(reason("not a git repository")) }
    );
}

#[test]
fn directory_failure_is_a_remote_command_error() {
    let mut d = Deployment::new(example_args());
    hashed(&mut d);
    d.advance_at(Event::CommitRead { commit: reason("c1") }, 0);
    assert_eq!(
        d.advance_at(Event::StepFailed { reason: reason("permission denied") }, 0),
        Action::Abort { error: DeployError::RemoteCommand(reason("permission denied")) }
    );
}

#[test]
fn activation_failure_is_a_remote_command_error() {
    let mut d = Deployment::new(example_args());
    hashed(&mut d);
    d.advance_at(Event::CommitRead { commit: reason("c1") }, 0);
    d.advance_at(Event::StepSucceeded, 0);
    assert!(matches!(d.advance_at(Event::StepSucceeded, 0), Action::Activate { .. }));
    let action = d.advance_at(Event::StepFailed { reason: reason("unit not found") }, 0);
    assert_eq!(action, Action::Abort { error: DeployError::RemoteCommand(reason("unit not found")) });
}

#[test]
fn unexpected_events_change_nothing() {
    let mut d = Deployment::new(example_args());
    assert_eq!(d.advance_at(Event::StepSucceeded, 0), Action::Idle);
    assert_eq!(d.stage, Stage::Start);
    d.advance_at(Event::Begin, 0);
    assert_eq!(d.advance_at(Event::CommitRead { commit: reason("c1") }, 0), Action::Idle);
    assert_eq!(d.stage, Stage::Hashing);
}

#[test]
fn advance_reads_the_clock_when_naming() {
    let mut d = Deployment::new(example_args());
    d.advance(Event::Begin);
    d.advance(Event::Hashed { digest: reason("ab") });
    d.advance(Event::CommitRead { commit: reason("c1") });
    match &d.stage {
        Stage::PreparingDir { name } => {
            assert!(name.starts_with("example-"));
            assert!(name.ends_with("-c1-ab"));
        }
        other => panic!("unexpected stage {other:?}"),
    }
}

#[test]
fn error_message_is_kept() {
    assert_eq!(DeployError::Io(reason("gone")).message(), "gone");
    assert_eq!(DeployError::SourceControl(reason("no repo")).message(), "no repo");
    assert_eq!(DeployError::RemoteCommand(reason("refused")).message(), "refused");
}
