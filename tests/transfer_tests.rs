use vento::{
    check_file_size, get_max_file_size_mb, init_max_file_size_mb, remote_endpoint,
    select_direction, transfer_paths, AppError, Authentication, AuthenticationMethod,
    CopyProgress, CopyStep, Destination, DestinationType, Direction, ProtocolType, Source,
    SourceType, TransferProfile, TransferProtocol, Trigger, TriggerType, DEFAULT_BUFFER_SIZE,
};

fn profile(src: SourceType, dst: DestinationType, proto: ProtocolType) -> TransferProfile {
    let a = Authentication {
        method: AuthenticationMethod::Password,
        username: "user".into(),
        password_ref: Some("PW".into()),
        private_key_ref: None,
        ssh_config_alias: None,
    };
    TransferProfile {
        profile_id: "job".into(),
        description: None,
        source: Source {
            kind: src,
            path: "/in/file".into(),
            host: Some("src.example".into()),
            port: Some(2201),
            authentication: Some(a.clone()),
            trigger: Trigger { kind: TriggerType::Manual, schedule: None },
        },
        destination: Destination {
            kind: dst,
            path: "/out/file".into(),
            host: Some("dst.example".into()),
            port: Some(2202),
            authentication: Some(a),
        },
        transfer_protocol: TransferProtocol { protocol: proto },
        pre_transfer_command: None,
        post_transfer_command: None,
        on_error_command: None,
    }
}

#[test]
fn ceiling_is_refused_above_the_allowed_maximum() {
    assert_eq!(get_max_file_size_mb(&init_max_file_size_mb(2048).unwrap()), 2048);
    let e = init_max_file_size_mb(2049).unwrap_err();
    assert!(matches!(e, AppError::Validation(ref m) if m == "max_file_size_mb must not exceed 2048MB (got: 2049MB)"));
}

#[test]
fn file_at_the_ceiling_passes_and_one_byte_more_fails() {
    let limit = init_max_file_size_mb(1).unwrap();
    assert!(check_file_size("/f", 1024 * 1024, &limit).is_ok());
    let e = check_file_size("/f", 1024 * 1024 + 1, &limit).unwrap_err();
    assert!(matches!(e, AppError::SizeExceeded { size: 1048577, max_mb: 1, .. }));
    assert_eq!(e.message(), "File '/f' exceeds max allowed size (1 MB)");
}

#[test]
fn zero_ceiling_accepts_only_empty_files() {
    let limit = init_max_file_size_mb(0).unwrap();
    assert!(check_file_size("/f", 0, &limit).is_ok());
    assert!(check_file_size("/f", 1, &limit).is_err());
}

#[test]
fn streamed_copy_stops_at_the_ceiling() {
    let limit = init_max_file_size_mb(16).unwrap();
    let mut progress = CopyProgress::start(&limit);
    assert_eq!(progress.record_read("/f", DEFAULT_BUFFER_SIZE).unwrap(), CopyStep::Write(DEFAULT_BUFFER_SIZE));
    assert_eq!(progress.record_read("/f", DEFAULT_BUFFER_SIZE).unwrap(), CopyStep::Write(DEFAULT_BUFFER_SIZE));
    assert_eq!(progress.copied(), 16 * 1024 * 1024);
    assert!(matches!(progress.record_read("/f", 1), Err(AppError::SizeExceeded { .. })));
    assert_eq!(progress.copied(), 16 * 1024 * 1024);
    assert_eq!(progress.record_read("/f", 0).unwrap(), CopyStep::Finish);
}

#[test]
fn direction_follows_the_local_endpoint() {
    let up = profile(SourceType::Local, DestinationType::Sftp, ProtocolType::Sftp);
    assert_eq!(select_direction(&up).unwrap(), Direction::Upload);
    let (host, port, _) = remote_endpoint(&up, Direction::Upload);
    assert_eq!(host.as_deref(), Some("dst.example"));
    assert_eq!(port, Some(2202));
    let (local, remote) = transfer_paths(&up, Direction::Upload);
    assert_eq!((local.as_str(), remote.as_str()), ("/in/file", "/out/file"));

    let down = profile(SourceType::Scp, DestinationType::Local, ProtocolType::Scp);
    assert_eq!(select_direction(&down).unwrap(), Direction::Download);
    let (host, port, _) = remote_endpoint(&down, Direction::Download);
    assert_eq!(host.as_deref(), Some("src.example"));
    assert_eq!(port, Some(2201));
    let (local, remote) = transfer_paths(&down, Direction::Download);
    assert_eq!((local.as_str(), remote.as_str()), ("/out/file", "/in/file"));
}

#[test]
fn unsupported_pairings_are_refused() {
    let both_remote = profile(SourceType::Sftp, DestinationType::Sftp, ProtocolType::Sftp);
    assert!(matches!(select_direction(&both_remote), Err(AppError::Validation(_))));
    let mismatch = profile(SourceType::Sftp, DestinationType::Local, ProtocolType::Scp);
    assert!(matches!(
        select_direction(&mismatch),
        Err(AppError::Validation(m)) if m == "Unsupported transfer source type"
    ));
    let both_local = profile(SourceType::Local, DestinationType::Local, ProtocolType::Sftp);
    assert!(matches!(select_direction(&both_local), Err(AppError::Validation(_))));
}
