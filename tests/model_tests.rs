use std::str::FromStr;

use vento::{
    handle_key_event, AdminMode, EditorEffect, Key, UiState, validate_ascii, validate_cross_platform_path, AppConfig, AppError, AuthenticationMethod,
    DestinationType, EditState, InputField, PathRuleError, ProtocolType, SourceType,
    TransferProfile, TriggerType,
};

#[test]
fn ascii_rule() {
    assert!(validate_ascii("plain text").is_ok());
    assert_eq!(validate_ascii("caf\u{e9}"), Err(PathRuleError::NonAscii));
    assert_eq!(PathRuleError::NonAscii.code(), "non_ascii");
}

#[test]
fn portable_path_rules() {
    assert!(validate_cross_platform_path("/var/data/file_1.txt").is_ok());
    assert_eq!(validate_cross_platform_path("/tmp/\u{e9}"), Err(PathRuleError::NonAsciiPath));
    assert_eq!(validate_cross_platform_path("C:/x"), Err(PathRuleError::InvalidCharInPath));
    assert_eq!(validate_cross_platform_path("/a?b"), Err(PathRuleError::InvalidCharInPath));
    assert_eq!(validate_cross_platform_path("/a b"), Err(PathRuleError::PathContainsSpace));
    assert_eq!(validate_cross_platform_path(""), Ok(()));
}

#[test]
fn enumeration_names_read_back() {
    assert_eq!(SourceType::Sftp.to_string(), "sftp");
    assert_eq!(SourceType::from_str("SFTP").unwrap(), SourceType::Sftp);
    assert_eq!(DestinationType::from_str("Local").unwrap(), DestinationType::Local);
    assert_eq!(AuthenticationMethod::EnvKey.to_string(), "env_key");
    assert_eq!(AuthenticationMethod::from_str("SSH_CONFIG").unwrap(), AuthenticationMethod::SshConfig);
    assert_eq!(TriggerType::from_str("schedule").unwrap(), TriggerType::Schedule);
    assert_eq!(ProtocolType::Scp.to_string(), "SCP");
    assert_eq!(ProtocolType::from_str("scp").unwrap(), ProtocolType::Scp);
    assert_eq!(SourceType::from_str("FTP").unwrap_err(), "'ftp' is not allowed");
}

#[test]
fn error_texts() {
    assert_eq!(
        AppError::EnvVarNotFound("X".into()).message(),
        "Environment variable 'X' not found or invalid."
    );
    let composed = AppError::Composed {
        original: Box::new(AppError::Transfer("a".into())),
        on_error: Box::new(AppError::Validation("b".into())),
    };
    assert_eq!(
        composed.message(),
        "Transfer failed and on-error command also failed: Original: Transfer error: a, On-error: Validation error: b"
    );
}

#[test]
fn input_field_cursor_starts_at_end() {
    let f = InputField::new("label", "h\u{e9}llo", Some("hint"));
    assert_eq!(f.cursor_pos, 5);
    assert_eq!(f.hint.as_deref(), Some("hint"));
}

#[test]
fn settings_form_round_trip() {
    let config = AppConfig {
        default_profile_file: Some("/etc/profiles.yaml".into()),
        log_level: None,
        log_file: None,
        log_stdout: Some(false),
        max_file_size_mb: Some(500),
    };
    let mut form = EditState::from_config(&config);
    assert_eq!(form.input_fields.len(), 5);
    assert_eq!(form.input_fields[4].value, "500");
    assert_eq!(form.input_fields[3].value, "false");
    assert_eq!(form.input_fields[1].value, "");
    form.input_fields[1].value = "  debug ".into();
    form.input_fields[2].value = "   ".into();
    form.input_fields[3].value = " TRUE ".into();
    form.input_fields[4].value = " 42 ".into();
    let mut out = config.clone();
    form.write_back_to_config(&mut out);
    assert_eq!(out.default_profile_file.as_deref(), Some("/etc/profiles.yaml"));
    assert_eq!(out.log_level.as_deref(), Some("  debug "));
    assert_eq!(out.log_file, None);
    assert_eq!(out.log_stdout, Some(true));
    assert_eq!(out.max_file_size_mb, Some(42));
    form.input_fields[4].value = "lots".into();
    form.write_back_to_config(&mut out);
    assert_eq!(out.max_file_size_mb, None);
}

fn empty_profile() -> TransferProfile {
    TransferProfile {
        profile_id: "p1".into(),
        description: None,
        source: vento::Source {
            kind: SourceType::Local,
            path: "/src".into(),
            host: None,
            port: None,
            authentication: None,
            trigger: vento::Trigger { kind: TriggerType::Manual, schedule: None },
        },
        destination: vento::Destination {
            kind: DestinationType::Scp,
            path: "/dst".into(),
            host: Some("h".into()),
            port: Some(2022),
            authentication: None,
        },
        transfer_protocol: vento::TransferProtocol { protocol: ProtocolType::Scp },
        pre_transfer_command: None,
        post_transfer_command: None,
        on_error_command: None,
    }
}

fn set(form: &mut EditState, label: &str, value: &str) {
    let f = form.input_fields.iter_mut().find(|f| f.label == label).unwrap();
    f.value = value.into();
}

#[test]
fn profile_form_round_trip() {
    let p = empty_profile();
    let mut form = EditState::from_profile(&p);
    assert_eq!(form.input_fields.len(), 26);
    assert_eq!(form.current_fields, 0);
    assert_eq!(form.input_fields[16].label, "destination.port");
    assert_eq!(form.input_fields[16].value, "2022");
    assert_eq!(form.input_fields[22].value, "SCP");

    set(&mut form, "destination.auth.username", "first");
    set(&mut form, "destination.auth.method", "private_key");
    set(&mut form, "source.type", "bogus");
    set(&mut form, "source.trigger", "Schedule");
    set(&mut form, "source.port", "70000");
    set(&mut form, "description", "nightly copy");
    let mut out = p.clone();
    form.write_back_to_profile(&mut out);
    let auth = out.destination.authentication.clone().unwrap();
    assert_eq!(auth.method, AuthenticationMethod::PrivateKey);
    assert_eq!(auth.username, "first");
    assert_eq!(out.source.kind, SourceType::Local);
    assert_eq!(out.source.trigger.kind, TriggerType::Schedule);
    assert_eq!(out.source.port, None);
    assert_eq!(out.description.as_deref(), Some("nightly copy"));
    assert_eq!(out.destination.port, Some(2022));

    let mut again = EditState::from_profile(&out);
    set(&mut again, "destination.auth.username", "deploy");
    set(&mut again, "destination.auth.private_key_ref", "/k");
    again.write_back_to_profile(&mut out);
    let auth = out.destination.authentication.unwrap();
    assert_eq!(auth.username, "deploy");
    assert_eq!(auth.private_key_ref.as_deref(), Some("/k"));
}

fn editor(profiles: Vec<TransferProfile>) -> vento::AdminState {
    vento::AdminState {
        mode: vento::AdminMode::Profile,
        profiles: vento::Profile { transfer_profiles: profiles },
        config: AppConfig {
            default_profile_file: None,
            log_level: None,
            log_file: None,
            log_stdout: None,
            max_file_size_mb: None,
        },
        selected_index: 0,
        ui_state: vento::UiState::ListView,
    }
}

#[test]
fn editor_types_into_a_field_and_saves() {
    let s = editor(vec![empty_profile()]);
    let (s, e) = handle_key_event(Key::Enter, s);
    assert_eq!(e, EditorEffect::Continue);
    assert!(matches!(s.ui_state, UiState::EditView(_)));
    let (s, _) = handle_key_event(Key::Left, s);
    let (s, _) = handle_key_event(Key::Char { c: 'X', ctrl: false }, s);
    let (s, _) = handle_key_event(Key::Delete, s);
    let (s, _) = handle_key_event(Key::Backspace, s);
    let (s, _) = handle_key_event(Key::Char { c: 'Z', ctrl: false }, s);
    if let UiState::EditView(ref form) = s.ui_state {
        assert_eq!(form.input_fields[0].value, "pZ");
        assert_eq!(form.input_fields[0].cursor_pos, 2);
    } else {
        panic!("the form should be open");
    }
    let (s, e) = handle_key_event(Key::Char { c: 's', ctrl: true }, s);
    assert_eq!(e, EditorEffect::SaveProfiles);
    assert!(matches!(s.ui_state, UiState::ListView));
    assert_eq!(s.profiles.transfer_profiles[0].profile_id, "pZ");
}

#[test]
fn editor_list_keys() {
    let s = editor(vec![empty_profile()]);
    let (s, _) = handle_key_event(Key::Char { c: 'c', ctrl: true }, s);
    assert_eq!(s.profiles.transfer_profiles.len(), 2);
    assert_eq!(s.profiles.transfer_profiles[1].profile_id, "p1_copy");
    assert_eq!(s.selected_index, 1);
    let (s, _) = handle_key_event(Key::Esc, s);
    let (s, e) = handle_key_event(Key::Char { c: 'd', ctrl: true }, s);
    assert_eq!(e, EditorEffect::SaveProfiles);
    assert_eq!(s.profiles.transfer_profiles.len(), 1);
    assert_eq!(s.selected_index, 0);
    let (s, _) = handle_key_event(Key::Tab, s);
    assert_eq!(s.mode, AdminMode::Config);
    let (s, _) = handle_key_event(Key::Down, s);
    let (s, _) = handle_key_event(Key::Down, s);
    let (s, _) = handle_key_event(Key::Down, s);
    assert_eq!(s.selected_index, 2);
    let (_, e) = handle_key_event(Key::Char { c: 'q', ctrl: false }, s);
    assert_eq!(e, EditorEffect::Quit);
}
