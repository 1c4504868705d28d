use vento::{
    advance, begin, find_profile, Action, AppError, Authentication, AuthenticationMethod,
    Destination, DestinationType, Direction, Event, JobType, Profile, ProtocolType, Source,
    SourceType, Stage, TransferProfile, TransferProtocol, Trigger, TriggerType,
};

fn upload_profile() -> TransferProfile {
    TransferProfile {
        profile_id: "nightly".into(),
        description: None,
        source: Source {
            kind: SourceType::Local,
            path: "/data/out.csv".into(),
            host: None,
            port: None,
            authentication: None,
            trigger: Trigger { kind: TriggerType::Manual, schedule: None },
        },
        destination: Destination {
            kind: DestinationType::Sftp,
            path: "/upload/out.csv".into(),
            host: Some("example.com".into()),
            port: Some(22),
            authentication: Some(Authentication {
                method: AuthenticationMethod::Password,
                username: "user".into(),
                password_ref: Some("PW".into()),
                private_key_ref: None,
                ssh_config_alias: None,
            }),
        },
        transfer_protocol: TransferProtocol { protocol: ProtocolType::Sftp },
        pre_transfer_command: Some("echo pre".into()),
        post_transfer_command: Some("echo post".into()),
        on_error_command: Some("echo failed".into()),
    }
}

fn finish(a: Action) -> Result<(), AppError> {
    match a {
        Action::Finish(r) => r,
        other => panic!("expected the job to finish, got {:?}", other),
    }
}

#[test]
fn full_run_succeeds() {
    let p = upload_profile();
    let (s, a) = begin(&p);
    assert!(matches!(a, Action::RunHook { ref command, job_type: JobType::PreTransfer } if command == "echo pre"));
    let (s, a) = advance(s, &p, Event::HookSucceeded);
    assert!(matches!(a, Action::Transfer { protocol: ProtocolType::Sftp, direction: Direction::Upload }));
    let (s, a) = advance(s, &p, Event::TransferSucceeded);
    assert!(matches!(a, Action::RunHook { job_type: JobType::PostTransfer, .. }));
    let (s, a) = advance(s, &p, Event::HookSucceeded);
    assert!(matches!(s, Stage::Done));
    assert!(finish(a).is_ok());
}

#[test]
fn pre_hook_failure_stops_before_transfer() {
    let p = upload_profile();
    let (s, _) = begin(&p);
    let (s, a) = advance(s, &p, Event::HookFailed("exit status 3".into()));
    assert!(matches!(s, Stage::Done));
    let e = finish(a).unwrap_err();
    assert!(matches!(e, AppError::HookFailed { ref job_type, .. } if job_type == "pre-transfer"));
    assert_eq!(e.message(), "pre-transfer command failed for profile 'nightly': exit status 3");
}

#[test]
fn post_hook_failure_is_the_final_error() {
    let p = upload_profile();
    let (s, _) = begin(&p);
    let (s, _) = advance(s, &p, Event::HookSucceeded);
    let (s, _) = advance(s, &p, Event::TransferSucceeded);
    let (_, a) = advance(s, &p, Event::HookFailed("exit status 1".into()));
    let e = finish(a).unwrap_err();
    assert!(matches!(e, AppError::HookFailed { ref job_type, .. } if job_type == "post-transfer"));
}

#[test]
fn transfer_failure_without_on_error_command_is_returned_as_is() {
    let mut p = upload_profile();
    p.on_error_command = None;
    let (s, _) = begin(&p);
    let (s, _) = advance(s, &p, Event::HookSucceeded);
    let (_, a) = advance(s, &p, Event::TransferFailed(AppError::Transfer("connection reset".into())));
    let e = finish(a).unwrap_err();
    assert!(matches!(e, AppError::Transfer(ref m) if m == "connection reset"));
}

#[test]
fn transfer_failure_with_successful_on_error_hook_keeps_original_error() {
    let p = upload_profile();
    let (s, _) = begin(&p);
    let (s, _) = advance(s, &p, Event::HookSucceeded);
    let (s, a) = advance(s, &p, Event::TransferFailed(AppError::Transfer("disk full".into())));
    assert!(matches!(a, Action::RunHook { ref command, job_type: JobType::OnError } if command == "echo failed"));
    let (_, a) = advance(s, &p, Event::HookSucceeded);
    let e = finish(a).unwrap_err();
    assert!(matches!(e, AppError::Transfer(ref m) if m == "disk full"));
}

#[test]
fn on_error_failure_composes_both_errors() {
    let p = upload_profile();
    let (s, _) = begin(&p);
    let (s, _) = advance(s, &p, Event::HookSucceeded);
    let (s, _) = advance(s, &p, Event::TransferFailed(AppError::Transfer("disk full".into())));
    let (_, a) = advance(s, &p, Event::HookFailed("exit status 2".into()));
    let e = finish(a).unwrap_err();
    let text = e.message();
    assert!(matches!(e, AppError::Composed { .. }));
    assert!(text.contains("Transfer error: disk full"));
    assert!(text.contains("on-error command failed for profile 'nightly': exit status 2"));
}

#[test]
fn invalid_profile_runs_no_hook() {
    let mut p = upload_profile();
    p.destination.host = None;
    let (s, a) = begin(&p);
    assert!(matches!(s, Stage::Done));
    assert!(matches!(finish(a), Err(AppError::Validation(m)) if m == "SFTP destination requires 'host'"));
}

#[test]
fn no_pre_hook_goes_straight_to_transfer() {
    let mut p = upload_profile();
    p.pre_transfer_command = None;
    let (_, a) = begin(&p);
    assert!(matches!(a, Action::Transfer { direction: Direction::Upload, .. }));
}

#[test]
fn unsupported_pairing_found_after_pre_hook() {
    let mut p = upload_profile();
    p.transfer_protocol.protocol = ProtocolType::Scp;
    let (s, a) = begin(&p);
    assert!(matches!(a, Action::RunHook { job_type: JobType::PreTransfer, .. }));
    let (_, a) = advance(s, &p, Event::HookSucceeded);
    assert!(matches!(finish(a), Err(AppError::Validation(_))));
}

#[test]
fn profile_is_found_by_id() {
    let mut other = upload_profile();
    other.profile_id = "other".into();
    let store = Profile { transfer_profiles: vec![other, upload_profile()] };
    let found = find_profile(store.clone(), "nightly").unwrap();
    assert_eq!(found.profile_id, "nightly");
    let missing = find_profile(store, "absent").unwrap_err();
    assert!(matches!(missing, AppError::Validation(m) if m == "Profile 'absent' not found in config.yaml"));
}
