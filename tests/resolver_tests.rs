use vento::{
    confirm_authenticated, merge_ssh_entry, plan_authentication, resolve_connection, AppError,
    AuthAttempt, Authentication, AuthenticationMethod, ConnectionParams, Credential, Environment,
    ProtocolType, SshHostEntry,
};

fn auth(method: AuthenticationMethod) -> Authentication {
    Authentication {
        method,
        username: "user".into(),
        password_ref: None,
        private_key_ref: None,
        ssh_config_alias: None,
    }
}

fn resolve(
    a: Option<Authentication>,
    host: Option<&str>,
    port: Option<u16>,
    env: &Environment,
    entry: &SshHostEntry,
    home: Option<&str>,
) -> Result<ConnectionParams, AppError> {
    resolve_connection(
        &a,
        &host.map(|h| h.to_string()),
        port,
        env,
        entry,
        &home.map(|h| h.to_string()),
    )
}

#[test]
fn password_method_reads_named_variable() {
    let mut env = Environment::new();
    env.set("PW", "s3cret");
    let mut a = auth(AuthenticationMethod::Password);
    a.password_ref = Some("PW".into());
    let p = resolve(Some(a), Some("example.com"), Some(2222), &env, &SshHostEntry::empty(), None).unwrap();
    assert_eq!(p.host, "example.com");
    assert_eq!(p.port, 2222);
    assert_eq!(p.username, "user");
    assert!(matches!(p.credential, Credential::Password(ref s) if s == "s3cret"));
}

#[test]
fn password_method_with_unset_variable_uses_empty_password() {
    let mut a = auth(AuthenticationMethod::Password);
    a.password_ref = Some("UNSET_PW".into());
    let p = resolve(Some(a), None, None, &Environment::new(), &SshHostEntry::empty(), None).unwrap();
    assert_eq!(p.host, "localhost");
    assert_eq!(p.port, 22);
    assert!(matches!(p.credential, Credential::Password(ref s) if s.is_empty()));
}

#[test]
fn missing_declaration_fails_authentication() {
    let r = resolve(None, Some("h"), Some(22), &Environment::new(), &SshHostEntry::empty(), None);
    assert!(matches!(r, Err(AppError::AuthenticationFailed(m)) if m == "Missing auth"));
}

#[test]
fn private_key_without_reference_fails_resolution() {
    let r = resolve(
        Some(auth(AuthenticationMethod::PrivateKey)),
        Some("h"),
        Some(22),
        &Environment::new(),
        &SshHostEntry::empty(),
        None,
    );
    assert!(matches!(r, Err(AppError::MissingPrivateKeyReference)));
}

#[test]
fn env_key_resolves_exactly_the_variable_value() {
    let mut env = Environment::new();
    env.set("MY_KEY_PATH", "/home/user/.ssh/id_rsa");
    let mut a = auth(AuthenticationMethod::EnvKey);
    a.private_key_ref = Some("MY_KEY_PATH".into());
    let p = resolve(Some(a), Some("h"), Some(22), &env, &SshHostEntry::empty(), None).unwrap();
    assert!(matches!(p.credential, Credential::PrivateKeyPath(ref k) if k == "/home/user/.ssh/id_rsa"));
}

#[test]
fn env_key_with_unset_variable_is_env_var_not_found() {
    let mut a = auth(AuthenticationMethod::EnvKey);
    a.private_key_ref = Some("NOPE".into());
    let r = resolve(Some(a), Some("h"), Some(22), &Environment::new(), &SshHostEntry::empty(), None);
    assert!(matches!(r, Err(AppError::EnvVarNotFound(n)) if n == "NOPE"));
}

#[test]
fn ssh_config_without_alias_is_a_validation_error() {
    let r = resolve(
        Some(auth(AuthenticationMethod::SshConfig)),
        Some("h"),
        Some(22),
        &Environment::new(),
        &SshHostEntry::empty(),
        None,
    );
    assert!(matches!(r, Err(AppError::Validation(m)) if m.contains("sshConfigAlias")));
}

#[test]
fn ssh_config_entry_overrides_declaration() {
    let mut a = auth(AuthenticationMethod::SshConfig);
    a.ssh_config_alias = Some("box".into());
    let entry = SshHostEntry {
        host_name: Some("10.0.0.5".into()),
        port: Some(2200),
        user: Some("deploy".into()),
        identity_files: vec!["/keys/id_ed25519".into(), "/keys/other".into()],
    };
    let p = resolve(Some(a), Some("declared"), Some(22), &Environment::new(), &entry, None).unwrap();
    assert_eq!(p.host, "10.0.0.5");
    assert_eq!(p.port, 2200);
    assert_eq!(p.username, "deploy");
    assert!(matches!(p.credential, Credential::PrivateKeyPath(ref k) if k == "/keys/id_ed25519"));
}

#[test]
fn ssh_config_relative_identity_is_taken_from_home() {
    let mut a = auth(AuthenticationMethod::SshConfig);
    a.ssh_config_alias = Some("box".into());
    let entry = SshHostEntry {
        host_name: None,
        port: None,
        user: None,
        identity_files: vec![".ssh/id_rsa".into()],
    };
    let p = resolve(Some(a), Some("declared"), Some(23), &Environment::new(), &entry, Some("/home/me"))
        .unwrap();
    assert_eq!(p.host, "declared");
    assert_eq!(p.port, 23);
    assert_eq!(p.username, "user");
    assert!(matches!(p.credential, Credential::PrivateKeyPath(ref k) if k == "/home/me/.ssh/id_rsa"));
}

#[test]
fn ssh_config_relative_identity_without_home_fails() {
    let mut a = auth(AuthenticationMethod::SshConfig);
    a.ssh_config_alias = Some("box".into());
    let entry = SshHostEntry {
        host_name: None,
        port: None,
        user: None,
        identity_files: vec!["id_rsa".into()],
    };
    let r = resolve(Some(a), None, None, &Environment::new(), &entry, None);
    assert!(matches!(r, Err(AppError::Validation(_))));
}

#[test]
fn ssh_config_without_identity_resolves_no_credential() {
    let mut a = auth(AuthenticationMethod::SshConfig);
    a.ssh_config_alias = Some("box".into());
    let p = resolve(Some(a), None, None, &Environment::new(), &SshHostEntry::empty(), None).unwrap();
    assert_eq!(p.host, "localhost");
    assert_eq!(p.port, 22);
    assert!(matches!(p.credential, Credential::Nothing));
    let plan = plan_authentication(&p);
    assert!(matches!(plan, Err(AppError::AuthenticationFailed(m)) if m == "No auth method resolved"));
}

#[test]
fn merge_falls_back_to_hard_defaults() {
    let (h, p, u) = merge_ssh_entry(&None, None, &"me".to_string(), &SshHostEntry::empty());
    assert_eq!(h, "localhost");
    assert_eq!(p, 22);
    assert_eq!(u, "me");
}

#[test]
fn key_is_preferred_then_password() {
    let key = ConnectionParams {
        host: "h".into(),
        port: 22,
        username: "u".into(),
        credential: Credential::PrivateKeyPath("/k".into()),
    };
    assert!(matches!(
        plan_authentication(&key),
        Ok(AuthAttempt::PublicKey { ref username, ref key_path }) if username == "u" && key_path == "/k"
    ));
    let pw = ConnectionParams {
        host: "h".into(),
        port: 22,
        username: "u".into(),
        credential: Credential::Password("pw".into()),
    };
    assert!(matches!(
        plan_authentication(&pw),
        Ok(AuthAttempt::Password { ref username, ref password }) if username == "u" && password == "pw"
    ));
}

#[test]
fn unauthenticated_session_is_refused() {
    assert!(confirm_authenticated(ProtocolType::Sftp, true).is_ok());
    let r = confirm_authenticated(ProtocolType::Scp, false);
    assert!(matches!(r, Err(AppError::AuthenticationFailed(m)) if m == "SCP authentication failed"));
}
