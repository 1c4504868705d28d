use vento::{
    AppError, Authentication, AuthenticationMethod, Source, SourceType, Trigger, TriggerType,
};

#[test]
fn test_invalid_sftp_source_missing_host() {
    let source = Source {
        kind: SourceType::Sftp,
        path: "/some/path".into(),
        host: None,
        port: Some(22),
        authentication: Some(Authentication {
            method: AuthenticationMethod::Password,
            username: "user".into(),
            password_ref: Some("ref".into()),
            private_key_ref: None,
            ssh_config_alias: None,
        }),
        trigger: Trigger {
            kind: TriggerType::Manual,
            schedule: None,
        },
    };

    let result = source.validate();
    assert!(matches!(result, Err(AppError::Validation(msg)) if msg.contains("host")));
}

#[test]
fn profile_tests_test_trigger_schedule_missing_schedule() {
    let trigger = Trigger {
        kind: TriggerType::Schedule,
        schedule: None,
    };

    let result = trigger.validate();
    assert!(matches!(result, Err(AppError::MissingSchedule)));
}

#[test]
fn profile_tests_test_trigger_schedule_invalid_cron() {
    let trigger = Trigger {
        kind: TriggerType::Schedule,
        schedule: Some("invalid_cron".into()),
    };

    let result = trigger.validate();
    assert!(matches!(result, Err(AppError::InvalidCronSchedule { .. })));
}

#[test]
fn test_authentication_missing_private_key_ref() {
    let auth = Authentication {
        method: AuthenticationMethod::PrivateKey,
        username: "user".into(),
        password_ref: None,
        private_key_ref: None,
        ssh_config_alias: None,
    };

    let result = auth.validate();
    assert!(matches!(result, Err(AppError::Validation(msg)) if msg.contains("privateKeyRef")));
}
