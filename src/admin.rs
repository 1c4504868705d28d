//! The state of the interactive editor of settings and profiles: forms of
//! labelled text fields, filled from a record and written back into it.

use crate::config::AppConfig;
use crate::profile::{
    Authentication, AuthenticationMethod, Destination, DestinationType, Profile, ProtocolType,
    Source, SourceType, TransferProfile, TransferProtocol, Trigger, TriggerType,
};
use crate::profile::{
    auth_method_name, auth_method_named, destination_type_name, destination_type_named,
    protocol_type_name, protocol_type_named, source_type_name, source_type_named,
    trigger_type_name, trigger_type_named,
};
use crate::text::{
    join2, lower_of, lowercase, parse_u16, parse_u64, parsed_u16, parsed_u64, text_eq, trim_of,
    trim_text, u64_decimal, decimal_text,
};
use vstd::prelude::*;

verus! {

/// Which list the editor shows.
#[derive(Clone, Copy, Debug, PartialEq, Eq, Structural)]
pub enum AdminMode {
    Profile,
    Config,
}

/// The whole editor.
pub struct AdminState {
    pub mode: AdminMode,
    pub profiles: Profile,
    pub config: AppConfig,
    pub selected_index: usize,
    pub ui_state: UiState,
}

/// A list, or a form open on one record.
pub enum UiState {
    ListView,
    EditView(EditState),
}

/// A form: its fields and the one that has the focus.
pub struct EditState {
    pub input_fields: Vec<InputField>,
    pub current_fields: usize,
}

/// One labelled text field with a cursor.
#[derive(Clone, Debug)]
pub struct InputField {
    pub label: String,
    pub value: String,
    pub hint: Option<String>,
    pub cursor_pos: usize,
}

pub struct FieldView {
    pub label: Seq<char>,
    pub value: Seq<char>,
    pub hint: Option<Seq<char>>,
    pub cursor: nat,
}

pub open spec fn opt_text(o: Option<String>) -> Option<Seq<char>> {
    match o {
        Some(s) => Some(s@),
        None => None,
    }
}

pub open spec fn field_view(f: InputField) -> FieldView {
    FieldView { label: f.label@, value: f.value@, hint: opt_text(f.hint), cursor: f.cursor_pos as nat }
}

pub open spec fn fields_view(fs: Seq<InputField>) -> Seq<FieldView> {
    fs.map_values(|f: InputField| field_view(f))
}

/// A field as a form shows it first: the cursor after the last character.
pub open spec fn fresh_field(label: Seq<char>, value: Seq<char>, hint: Option<Seq<char>>) -> FieldView {
    FieldView { label, value, hint, cursor: value.len() }
}

impl InputField {
    /// A field holding `value`, with the cursor at its end.
    pub fn new(label: &str, value: &str, hint: Option<&str>) -> (r: InputField)
        ensures
            field_view(r) == fresh_field(label@, value@, match hint {
                Some(h) => Some(h@),
                None => None,
            }),
    {
        let h = match hint {
            Some(h) => Some(String::from_str(h)),
            None => None,
        };
        InputField {
            label: String::from_str(label),
            value: String::from_str(value),
            hint: h,
            cursor_pos: value.unicode_len(),
        }
    }
}

/// The text of an optional value, empty when absent.
pub open spec fn or_empty(o: Option<Seq<char>>) -> Seq<char> {
    match o {
        Some(s) => s,
        None => Seq::empty(),
    }
}

fn text_or_empty(o: &Option<String>) -> (r: String)
    ensures
        r@ == or_empty(opt_text(*o)),
{
    match o {
        Some(s) => s.clone(),
        None => String::new(),
    }
}

pub open spec fn bool_text(b: bool) -> Seq<char> {
    if b { "true"@ } else { "false"@ }
}

pub open spec fn opt_bool_text(o: Option<bool>) -> Seq<char> {
    match o {
        Some(b) => bool_text(b),
        None => Seq::empty(),
    }
}

fn opt_bool_string(o: Option<bool>) -> (r: String)
    ensures
        r@ == opt_bool_text(o),
{
    match o {
        Some(true) => String::from_str("true"),
        Some(false) => String::from_str("false"),
        None => String::new(),
    }
}

pub open spec fn opt_number_text(o: Option<u64>) -> Seq<char> {
    match o {
        Some(n) => decimal_text(n as nat),
        None => Seq::empty(),
    }
}

fn opt_number_string(o: Option<u64>) -> (r: String)
    ensures
        r@ == opt_number_text(o),
{
    match o {
        Some(n) => u64_decimal(n),
        None => String::new(),
    }
}

// ---- the settings form ----

/// Settings as the contracts speak of them.
pub struct ConfigView {
    pub default_profile_file: Option<Seq<char>>,
    pub log_level: Option<Seq<char>>,
    pub log_file: Option<Seq<char>>,
    pub log_stdout: Option<bool>,
    pub max_file_size_mb: Option<u64>,
}

pub open spec fn config_view(c: AppConfig) -> ConfigView {
    ConfigView {
        default_profile_file: opt_text(c.default_profile_file),
        log_level: opt_text(c.log_level),
        log_file: opt_text(c.log_file),
        log_stdout: c.log_stdout,
        max_file_size_mb: c.max_file_size_mb,
    }
}

/// The settings form: one field per setting, absent ones empty.
pub open spec fn config_form(c: ConfigView) -> Seq<FieldView> {
    seq![
        fresh_field("default_profile_file"@, or_empty(c.default_profile_file), Some("Profile file path"@)),
        fresh_field("log_level"@, or_empty(c.log_level), Some("Info / Debug / Error"@)),
        fresh_field("log_file"@, or_empty(c.log_file), Some("Log file path(Optional)"@)),
        fresh_field("log_stdout"@, opt_bool_text(c.log_stdout), Some("true / false"@)),
        fresh_field("max_file_size_mb"@, opt_number_text(c.max_file_size_mb), Some("Max file size(MB)"@)),
    ]
}

/// A text setting from its field: blank (after trimming) means absent.
pub open spec fn blank_is_none(v: Seq<char>) -> Option<Seq<char>> {
    if trim_of(v).len() == 0 { None } else { Some(v) }
}

/// A flag setting from its field: `true` or `false` in any case, else absent.
pub open spec fn flag_of(v: Seq<char>) -> Option<bool> {
    let t = lower_of(trim_of(v));
    if t == "true"@ { Some(true) } else if t == "false"@ { Some(false) } else { None }
}

/// One field written back into the settings, by its label; an unknown label
/// changes nothing.
pub open spec fn apply_config_field(c: ConfigView, f: FieldView) -> ConfigView {
    if f.label == "default_profile_file"@ {
        ConfigView { default_profile_file: blank_is_none(f.value), ..c }
    } else if f.label == "log_level"@ {
        ConfigView { log_level: blank_is_none(f.value), ..c }
    } else if f.label == "log_file"@ {
        ConfigView { log_file: blank_is_none(f.value), ..c }
    } else if f.label == "log_stdout"@ {
        ConfigView { log_stdout: flag_of(f.value), ..c }
    } else if f.label == "max_file_size_mb"@ {
        ConfigView { max_file_size_mb: parsed_u64(trim_of(f.value)), ..c }
    } else {
        c
    }
}

/// The fields written back in order: a later field with the same label wins.
pub open spec fn apply_config_fields(c: ConfigView, fs: Seq<FieldView>) -> ConfigView
    decreases fs.len(),
{
    if fs.len() == 0 {
        c
    } else {
        apply_config_field(apply_config_fields(c, fs.drop_last()), fs.last())
    }
}

fn blank_to_none(v: &String) -> (r: Option<String>)
    ensures
        opt_text(r) == blank_is_none(v@),
{
    if trim_text(v.as_str()).unicode_len() == 0 {
        None
    } else {
        Some(v.clone())
    }
}

fn parse_flag(v: &String) -> (r: Option<bool>)
    ensures
        r == flag_of(v@),
{
    let t = lowercase(trim_text(v.as_str()));
    if text_eq(t.as_str(), "true") {
        Some(true)
    } else if text_eq(t.as_str(), "false") {
        Some(false)
    } else {
        None
    }
}

fn write_config_field(f: &InputField, config: &mut AppConfig)
    ensures
        config_view(*final(config)) == apply_config_field(config_view(*old(config)), field_view(*f)),
{
    let label = f.label.as_str();
    if text_eq(label, "default_profile_file") {
        config.default_profile_file = blank_to_none(&f.value);
    } else if text_eq(label, "log_level") {
        config.log_level = blank_to_none(&f.value);
    } else if text_eq(label, "log_file") {
        config.log_file = blank_to_none(&f.value);
    } else if text_eq(label, "log_stdout") {
        config.log_stdout = parse_flag(&f.value);
    } else if text_eq(label, "max_file_size_mb") {
        config.max_file_size_mb = parse_u64(trim_text(f.value.as_str()));
    }
}

// ---- the profile form ----

/// An authentication declaration as the contracts speak of it.
pub struct AuthView {
    pub method: AuthenticationMethod,
    pub username: Seq<char>,
    pub password_ref: Option<Seq<char>>,
    pub private_key_ref: Option<Seq<char>>,
    pub ssh_config_alias: Option<Seq<char>>,
}

pub open spec fn auth_view(a: Authentication) -> AuthView {
    AuthView {
        method: a.method,
        username: a.username@,
        password_ref: opt_text(a.password_ref),
        private_key_ref: opt_text(a.private_key_ref),
        ssh_config_alias: opt_text(a.ssh_config_alias),
    }
}

pub open spec fn opt_auth_view(a: Option<Authentication>) -> Option<AuthView> {
    match a {
        Some(x) => Some(auth_view(x)),
        None => None,
    }
}

/// A job as the contracts speak of it, flattened.
pub struct ProfileView {
    pub profile_id: Seq<char>,
    pub description: Option<Seq<char>>,
    pub source_kind: SourceType,
    pub source_path: Seq<char>,
    pub source_host: Option<Seq<char>>,
    pub source_port: Option<u16>,
    pub trigger_kind: TriggerType,
    pub schedule: Option<Seq<char>>,
    pub source_auth: Option<AuthView>,
    pub destination_kind: DestinationType,
    pub destination_path: Seq<char>,
    pub destination_host: Option<Seq<char>>,
    pub destination_port: Option<u16>,
    pub destination_auth: Option<AuthView>,
    pub protocol: ProtocolType,
    pub pre_transfer_command: Option<Seq<char>>,
    pub post_transfer_command: Option<Seq<char>>,
    pub on_error_command: Option<Seq<char>>,
}

pub open spec fn profile_view(p: TransferProfile) -> ProfileView {
    ProfileView {
        profile_id: p.profile_id@,
        description: opt_text(p.description),
        source_kind: p.source.kind,
        source_path: p.source.path@,
        source_host: opt_text(p.source.host),
        source_port: p.source.port,
        trigger_kind: p.source.trigger.kind,
        schedule: opt_text(p.source.trigger.schedule),
        source_auth: opt_auth_view(p.source.authentication),
        destination_kind: p.destination.kind,
        destination_path: p.destination.path@,
        destination_host: opt_text(p.destination.host),
        destination_port: p.destination.port,
        destination_auth: opt_auth_view(p.destination.authentication),
        protocol: p.transfer_protocol.protocol,
        pre_transfer_command: opt_text(p.pre_transfer_command),
        post_transfer_command: opt_text(p.post_transfer_command),
        on_error_command: opt_text(p.on_error_command),
    }
}

pub open spec fn opt_port_text(o: Option<u16>) -> Seq<char> {
    match o {
        Some(n) => decimal_text(n as nat),
        None => Seq::empty(),
    }
}

pub open spec fn auth_method_text(a: Option<AuthView>) -> Seq<char> {
    match a {
        Some(x) => auth_method_name(x.method),
        None => Seq::empty(),
    }
}

pub open spec fn auth_username_text(a: Option<AuthView>) -> Seq<char> {
    match a {
        Some(x) => x.username,
        None => Seq::empty(),
    }
}

pub open spec fn auth_password_ref_text(a: Option<AuthView>) -> Seq<char> {
    match a {
        Some(x) => or_empty(x.password_ref),
        None => Seq::empty(),
    }
}

pub open spec fn auth_private_key_ref_text(a: Option<AuthView>) -> Seq<char> {
    match a {
        Some(x) => or_empty(x.private_key_ref),
        None => Seq::empty(),
    }
}

pub open spec fn auth_alias_text(a: Option<AuthView>) -> Seq<char> {
    match a {
        Some(x) => or_empty(x.ssh_config_alias),
        None => Seq::empty(),
    }
}

/// The profile form: one field per part of the job, absent parts empty,
/// enumerations by name.
pub open spec fn profile_form(p: ProfileView) -> Seq<FieldView> {
    seq![
        fresh_field("profile_id"@, p.profile_id, Some("Profile ID"@)),
        fresh_field("description"@, or_empty(p.description), Some("Description(Optional)"@)),
        fresh_field("source.type"@, source_type_name(p.source_kind), Some("Local / Sftp / Scp"@)),
        fresh_field("source.path"@, p.source_path, Some("Source file path"@)),
        fresh_field("source.host"@, or_empty(p.source_host), Some("Hostname"@)),
        fresh_field("source.port"@, opt_port_text(p.source_port), Some("Port No"@)),
        fresh_field("source.trigger"@, trigger_type_name(p.trigger_kind), Some("Manual / Schedule"@)),
        fresh_field("source.schedule"@, or_empty(p.schedule), Some("cron format"@)),
        fresh_field("source.auth.method"@, auth_method_text(p.source_auth), Some("Password / PrivateKey / EnvKey / SshConfig"@)),
        fresh_field("source.auth.username"@, auth_username_text(p.source_auth), None),
        fresh_field("source.auth.password_ref"@, auth_password_ref_text(p.source_auth), None),
        fresh_field("source.auth.private_key_ref"@, auth_private_key_ref_text(p.source_auth), None),
        fresh_field("source.auth.ssh_config_alias"@, auth_alias_text(p.source_auth), None),
        fresh_field("destination.type"@, destination_type_name(p.destination_kind), Some("Local / Sftp / Scp"@)),
        fresh_field("destination.path"@, p.destination_path, Some("Destination file path"@)),
        fresh_field("destination.host"@, or_empty(p.destination_host), Some("Hostname"@)),
        fresh_field("destination.port"@, opt_port_text(p.destination_port), Some("Port No"@)),
        fresh_field("destination.auth.method"@, auth_method_text(p.destination_auth), Some("Password / PrivateKey / EnvKey / SshConfig"@)),
        fresh_field("destination.auth.username"@, auth_username_text(p.destination_auth), None),
        fresh_field("destination.auth.password_ref"@, auth_password_ref_text(p.destination_auth), None),
        fresh_field("destination.auth.private_key_ref"@, auth_private_key_ref_text(p.destination_auth), None),
        fresh_field("destination.auth.ssh_config_alias"@, auth_alias_text(p.destination_auth), None),
        fresh_field("transfer_protocol"@, protocol_type_name(p.protocol), Some("SFTP / SCP"@)),
        fresh_field("pre_transfer_command"@, or_empty(p.pre_transfer_command), Some("Pre transfer command(Optional)"@)),
        fresh_field("post_transfer_command"@, or_empty(p.post_transfer_command), Some("Post transfer command(Optional)"@)),
        fresh_field("on_error_command"@, or_empty(p.on_error_command), Some("On error command(Optional)"@)),
    ]
}

/// A text that stays optional: empty means absent.
pub open spec fn empty_is_none(v: Seq<char>) -> Option<Seq<char>> {
    if v.len() == 0 { None } else { Some(v) }
}

pub open spec fn named_or<T>(o: Option<T>, fallback: T) -> T {
    match o {
        Some(k) => k,
        None => fallback,
    }
}

/// The five parts of an authentication declaration that a form edits.
#[derive(Clone, Copy, Debug, PartialEq, Eq, Structural)]
pub enum AuthPart {
    Method,
    Username,
    PasswordRef,
    PrivateKeyRef,
    SshConfigAlias,
}

/// One part of an authentication written back: the method creates the
/// declaration when there is none; the other parts change an existing one
/// only.
pub open spec fn apply_auth_field(a: Option<AuthView>, part: AuthPart, v: Seq<char>) -> Option<AuthView> {
    match part {
        AuthPart::Method => {
            let method = named_or(auth_method_named(lower_of(v)), AuthenticationMethod::Password);
            match a {
                None => Some(AuthView {
                    method,
                    username: Seq::empty(),
                    password_ref: None,
                    private_key_ref: None,
                    ssh_config_alias: None,
                }),
                Some(x) => Some(AuthView { method, ..x }),
            }
        },
        _ => match a {
            None => None,
            Some(x) => Some(match part {
                AuthPart::Username => AuthView { username: v, ..x },
                AuthPart::PasswordRef => AuthView { password_ref: empty_is_none(v), ..x },
                AuthPart::PrivateKeyRef => AuthView { private_key_ref: empty_is_none(v), ..x },
                _ => AuthView { ssh_config_alias: empty_is_none(v), ..x },
            }),
        },
    }
}

/// The part of the source's authentication that a label names.
pub open spec fn source_auth_part(l: Seq<char>) -> Option<AuthPart> {
    if l == "source.auth.method"@ {
        Some(AuthPart::Method)
    } else if l == "source.auth.username"@ {
        Some(AuthPart::Username)
    } else if l == "source.auth.password_ref"@ {
        Some(AuthPart::PasswordRef)
    } else if l == "source.auth.private_key_ref"@ {
        Some(AuthPart::PrivateKeyRef)
    } else if l == "source.auth.ssh_config_alias"@ {
        Some(AuthPart::SshConfigAlias)
    } else {
        None
    }
}

/// The part of the destination's authentication that a label names.
pub open spec fn destination_auth_part(l: Seq<char>) -> Option<AuthPart> {
    if l == "destination.auth.method"@ {
        Some(AuthPart::Method)
    } else if l == "destination.auth.username"@ {
        Some(AuthPart::Username)
    } else if l == "destination.auth.password_ref"@ {
        Some(AuthPart::PasswordRef)
    } else if l == "destination.auth.private_key_ref"@ {
        Some(AuthPart::PrivateKeyRef)
    } else if l == "destination.auth.ssh_config_alias"@ {
        Some(AuthPart::SshConfigAlias)
    } else {
        None
    }
}

/// One field written back into a job, by its label; an unknown label
/// changes nothing. Enumerations read their name in any case, falling back
/// to the first variant.
pub open spec fn apply_profile_field(p: ProfileView, f: FieldView) -> ProfileView {
    let v = f.value;
    let l = f.label;
    if l == "profile_id"@ {
        ProfileView { profile_id: v, ..p }
    } else if l == "description"@ {
        ProfileView { description: empty_is_none(v), ..p }
    } else if l == "source.type"@ {
        ProfileView { source_kind: named_or(source_type_named(lower_of(v)), SourceType::Local), ..p }
    } else if l == "source.path"@ {
        ProfileView { source_path: v, ..p }
    } else if l == "source.host"@ {
        ProfileView { source_host: empty_is_none(v), ..p }
    } else if l == "source.port"@ {
        ProfileView { source_port: parsed_u16(v), ..p }
    } else if l == "source.trigger"@ {
        ProfileView { trigger_kind: named_or(trigger_type_named(lower_of(v)), TriggerType::Manual), ..p }
    } else if l == "source.schedule"@ {
        ProfileView { schedule: empty_is_none(v), ..p }
    } else if source_auth_part(l) is Some {
        ProfileView { source_auth: apply_auth_field(p.source_auth, source_auth_part(l)->Some_0, v), ..p }
    } else if l == "destination.type"@ {
        ProfileView {
            destination_kind: named_or(destination_type_named(lower_of(v)), DestinationType::Local),
            ..p
        }
    } else if l == "destination.path"@ {
        ProfileView { destination_path: v, ..p }
    } else if l == "destination.host"@ {
        ProfileView { destination_host: empty_is_none(v), ..p }
    } else if l == "destination.port"@ {
        ProfileView { destination_port: parsed_u16(v), ..p }
    } else if destination_auth_part(l) is Some {
        ProfileView {
            destination_auth: apply_auth_field(p.destination_auth, destination_auth_part(l)->Some_0, v),
            ..p
        }
    } else if l == "transfer_protocol"@ {
        ProfileView { protocol: named_or(protocol_type_named(lower_of(v)), ProtocolType::Sftp), ..p }
    } else if l == "pre_transfer_command"@ {
        ProfileView { pre_transfer_command: empty_is_none(v), ..p }
    } else if l == "post_transfer_command"@ {
        ProfileView { post_transfer_command: empty_is_none(v), ..p }
    } else if l == "on_error_command"@ {
        ProfileView { on_error_command: empty_is_none(v), ..p }
    } else {
        p
    }
}

pub open spec fn apply_profile_fields(p: ProfileView, fs: Seq<FieldView>) -> ProfileView
    decreases fs.len(),
{
    if fs.len() == 0 {
        p
    } else {
        apply_profile_field(apply_profile_fields(p, fs.drop_last()), fs.last())
    }
}

fn opt_port_string(o: Option<u16>) -> (r: String)
    ensures
        r@ == opt_port_text(o),
{
    match o {
        Some(n) => u64_decimal(n as u64),
        None => String::new(),
    }
}

fn auth_string(a: &Option<Authentication>, part: AuthPart) -> (r: String)
    ensures
        part == AuthPart::Method ==> r@ == auth_method_text(opt_auth_view(*a)),
        part == AuthPart::Username ==> r@ == auth_username_text(opt_auth_view(*a)),
        part == AuthPart::PasswordRef ==> r@ == auth_password_ref_text(opt_auth_view(*a)),
        part == AuthPart::PrivateKeyRef ==> r@ == auth_private_key_ref_text(opt_auth_view(*a)),
        part == AuthPart::SshConfigAlias ==> r@ == auth_alias_text(opt_auth_view(*a)),
{
    match a {
        None => String::new(),
        Some(x) => match part {
            AuthPart::Method => x.method.to_string(),
            AuthPart::Username => x.username.clone(),
            AuthPart::PasswordRef => text_or_empty(&x.password_ref),
            AuthPart::PrivateKeyRef => text_or_empty(&x.private_key_ref),
            AuthPart::SshConfigAlias => text_or_empty(&x.ssh_config_alias),
        },
    }
}

fn empty_to_none(v: &String) -> (r: Option<String>)
    ensures
        opt_text(r) == empty_is_none(v@),
{
    if v.unicode_len() == 0 {
        None
    } else {
        Some(v.clone())
    }
}

fn write_auth_field(auth: &mut Option<Authentication>, part: AuthPart, value: &String)
    ensures
        opt_auth_view(*final(auth)) == apply_auth_field(opt_auth_view(*old(auth)), part, value@),
{
    match part {
        AuthPart::Method => {
            let method = match AuthenticationMethod::parse_name(value.as_str()) {
                Ok(m) => m,
                Err(_) => AuthenticationMethod::Password,
            };
            match auth.take() {
                None => {
                    *auth = Some(Authentication {
                        method,
                        username: String::new(),
                        password_ref: None,
                        private_key_ref: None,
                        ssh_config_alias: None,
                    });
                },
                Some(mut a) => {
                    a.method = method;
                    *auth = Some(a);
                },
            }
        },
        _ => match auth.take() {
            None => {},
            Some(mut a) => {
                match part {
                    AuthPart::Username => {
                        a.username = value.clone();
                    },
                    AuthPart::PasswordRef => {
                        a.password_ref = empty_to_none(value);
                    },
                    AuthPart::PrivateKeyRef => {
                        a.private_key_ref = empty_to_none(value);
                    },
                    _ => {
                        a.ssh_config_alias = empty_to_none(value);
                    },
                }
                *auth = Some(a);
            },
        },
    }
}

fn source_auth_label(l: &str) -> (r: Option<AuthPart>)
    ensures
        r == source_auth_part(l@),
{
    if text_eq(l, "source.auth.method") {
        Some(AuthPart::Method)
    } else if text_eq(l, "source.auth.username") {
        Some(AuthPart::Username)
    } else if text_eq(l, "source.auth.password_ref") {
        Some(AuthPart::PasswordRef)
    } else if text_eq(l, "source.auth.private_key_ref") {
        Some(AuthPart::PrivateKeyRef)
    } else if text_eq(l, "source.auth.ssh_config_alias") {
        Some(AuthPart::SshConfigAlias)
    } else {
        None
    }
}

fn destination_auth_label(l: &str) -> (r: Option<AuthPart>)
    ensures
        r == destination_auth_part(l@),
{
    if text_eq(l, "destination.auth.method") {
        Some(AuthPart::Method)
    } else if text_eq(l, "destination.auth.username") {
        Some(AuthPart::Username)
    } else if text_eq(l, "destination.auth.password_ref") {
        Some(AuthPart::PasswordRef)
    } else if text_eq(l, "destination.auth.private_key_ref") {
        Some(AuthPart::PrivateKeyRef)
    } else if text_eq(l, "destination.auth.ssh_config_alias") {
        Some(AuthPart::SshConfigAlias)
    } else {
        None
    }
}

fn write_profile_field(f: &InputField, profile: &mut TransferProfile)
    ensures
        profile_view(*final(profile)) == apply_profile_field(profile_view(*old(profile)), field_view(*f)),
{
    let l = f.label.as_str();
    let v = &f.value;
    if text_eq(l, "profile_id") {
        profile.profile_id = v.clone();
    } else if text_eq(l, "description") {
        profile.description = empty_to_none(v);
    } else if text_eq(l, "source.type") {
        profile.source.kind = match SourceType::parse_name(v.as_str()) {
            Ok(k) => k,
            Err(_) => SourceType::Local,
        };
    } else if text_eq(l, "source.path") {
        profile.source.path = v.clone();
    } else if text_eq(l, "source.host") {
        profile.source.host = empty_to_none(v);
    } else if text_eq(l, "source.port") {
        profile.source.port = parse_u16(v.as_str());
    } else if text_eq(l, "source.trigger") {
        profile.source.trigger.kind = match TriggerType::parse_name(v.as_str()) {
            Ok(k) => k,
            Err(_) => TriggerType::Manual,
        };
    } else if text_eq(l, "source.schedule") {
        profile.source.trigger.schedule = empty_to_none(v);
    } else if let Some(part) = source_auth_label(l) {
        write_auth_field(&mut profile.source.authentication, part, v);
    } else if text_eq(l, "destination.type") {
        profile.destination.kind = match DestinationType::parse_name(v.as_str()) {
            Ok(k) => k,
            Err(_) => DestinationType::Local,
        };
    } else if text_eq(l, "destination.path") {
        profile.destination.path = v.clone();
    } else if text_eq(l, "destination.host") {
        profile.destination.host = empty_to_none(v);
    } else if text_eq(l, "destination.port") {
        profile.destination.port = parse_u16(v.as_str());
    } else if let Some(part) = destination_auth_label(l) {
        write_auth_field(&mut profile.destination.authentication, part, v);
    } else if text_eq(l, "transfer_protocol") {
        profile.transfer_protocol.protocol = match ProtocolType::parse_name(v.as_str()) {
            Ok(k) => k,
            Err(_) => ProtocolType::Sftp,
        };
    } else if text_eq(l, "pre_transfer_command") {
        profile.pre_transfer_command = empty_to_none(v);
    } else if text_eq(l, "post_transfer_command") {
        profile.post_transfer_command = empty_to_none(v);
    } else if text_eq(l, "on_error_command") {
        profile.on_error_command = empty_to_none(v);
    }
}

impl EditState {
    /// The settings form for `config`, the focus on its first field.
    pub fn from_config(config: &AppConfig) -> (r: EditState)
        ensures
            fields_view(r.input_fields@) == config_form(config_view(*config)),
            r.current_fields == 0,
    {
        let a = text_or_empty(&config.default_profile_file);
        let b = text_or_empty(&config.log_level);
        let c = text_or_empty(&config.log_file);
        let d = opt_bool_string(config.log_stdout);
        let e = opt_number_string(config.max_file_size_mb);
        let input_fields = vec![
            InputField::new("default_profile_file", a.as_str(), Some("Profile file path")),
            InputField::new("log_level", b.as_str(), Some("Info / Debug / Error")),
            InputField::new("log_file", c.as_str(), Some("Log file path(Optional)")),
            InputField::new("log_stdout", d.as_str(), Some("true / false")),
            InputField::new("max_file_size_mb", e.as_str(), Some("Max file size(MB)")),
        ];
        let r = EditState { input_fields, current_fields: 0 };
        assert(fields_view(r.input_fields@) =~= config_form(config_view(*config)));
        r
    }

    /// Writes every field back into the settings, in order, by its label.
    pub fn write_back_to_config(&self, config: &mut AppConfig)
        ensures
            config_view(*final(config)) == apply_config_fields(config_view(*old(config)), fields_view(self.input_fields@)),
    {
        let n = self.input_fields.len();
        let mut i: usize = 0;
        while i < n
            invariant
                n == self.input_fields@.len(),
                i <= n,
                config_view(*config) == apply_config_fields(
                    config_view(*old(config)),
                    fields_view(self.input_fields@.subrange(0, i as int)),
                ),
            decreases n - i,
        {
            proof {
                let next = self.input_fields@.subrange(0, i + 1);
                assert(fields_view(next).drop_last() =~= fields_view(self.input_fields@.subrange(0, i as int)));
                assert(fields_view(next).last() == field_view(self.input_fields@[i as int]));
            }
            write_config_field(&self.input_fields[i], config);
            i = i + 1;
        }
        assert(self.input_fields@.subrange(0, n as int) =~= self.input_fields@);
    }
    /// The profile form for `profile`, the focus on its first field.
    pub fn from_profile(profile: &TransferProfile) -> (r: EditState)
        ensures
            fields_view(r.input_fields@) == profile_form(profile_view(*profile)),
            r.current_fields == 0,
    {
        let mut input_fields: Vec<InputField> = Vec::new();
        let t = profile.profile_id.clone();
        input_fields.push(InputField::new("profile_id", t.as_str(), Some("Profile ID")));
        let t = text_or_empty(&profile.description);
        input_fields.push(InputField::new("description", t.as_str(), Some("Description(Optional)")));
        let t = profile.source.kind.to_string();
        input_fields.push(InputField::new("source.type", t.as_str(), Some("Local / Sftp / Scp")));
        input_fields.push(InputField::new("source.path", profile.source.path.as_str(), Some("Source file path")));
        let t = text_or_empty(&profile.source.host);
        input_fields.push(InputField::new("source.host", t.as_str(), Some("Hostname")));
        let t = opt_port_string(profile.source.port);
        input_fields.push(InputField::new("source.port", t.as_str(), Some("Port No")));
        let t = profile.source.trigger.kind.to_string();
        input_fields.push(InputField::new("source.trigger", t.as_str(), Some("Manual / Schedule")));
        let t = text_or_empty(&profile.source.trigger.schedule);
        input_fields.push(InputField::new("source.schedule", t.as_str(), Some("cron format")));
        let t = auth_string(&profile.source.authentication, AuthPart::Method);
        input_fields.push(InputField::new("source.auth.method", t.as_str(), Some("Password / PrivateKey / EnvKey / SshConfig")));
        let t = auth_string(&profile.source.authentication, AuthPart::Username);
        input_fields.push(InputField::new("source.auth.username", t.as_str(), None));
        let t = auth_string(&profile.source.authentication, AuthPart::PasswordRef);
        input_fields.push(InputField::new("source.auth.password_ref", t.as_str(), None));
        let t = auth_string(&profile.source.authentication, AuthPart::PrivateKeyRef);
        input_fields.push(InputField::new("source.auth.private_key_ref", t.as_str(), None));
        let t = auth_string(&profile.source.authentication, AuthPart::SshConfigAlias);
        input_fields.push(InputField::new("source.auth.ssh_config_alias", t.as_str(), None));
        let t = profile.destination.kind.to_string();
        input_fields.push(InputField::new("destination.type", t.as_str(), Some("Local / Sftp / Scp")));
        input_fields.push(InputField::new("destination.path", profile.destination.path.as_str(), Some("Destination file path")));
        let t = text_or_empty(&profile.destination.host);
        input_fields.push(InputField::new("destination.host", t.as_str(), Some("Hostname")));
        let t = opt_port_string(profile.destination.port);
        input_fields.push(InputField::new("destination.port", t.as_str(), Some("Port No")));
        let t = auth_string(&profile.destination.authentication, AuthPart::Method);
        input_fields.push(InputField::new("destination.auth.method", t.as_str(), Some("Password / PrivateKey / EnvKey / SshConfig")));
        let t = auth_string(&profile.destination.authentication, AuthPart::Username);
        input_fields.push(InputField::new("destination.auth.username", t.as_str(), None));
        let t = auth_string(&profile.destination.authentication, AuthPart::PasswordRef);
        input_fields.push(InputField::new("destination.auth.password_ref", t.as_str(), None));
        let t = auth_string(&profile.destination.authentication, AuthPart::PrivateKeyRef);
        input_fields.push(InputField::new("destination.auth.private_key_ref", t.as_str(), None));
        let t = auth_string(&profile.destination.authentication, AuthPart::SshConfigAlias);
        input_fields.push(InputField::new("destination.auth.ssh_config_alias", t.as_str(), None));
        let t = profile.transfer_protocol.protocol.to_string();
        input_fields.push(InputField::new("transfer_protocol", t.as_str(), Some("SFTP / SCP")));
        let t = text_or_empty(&profile.pre_transfer_command);
        input_fields.push(InputField::new("pre_transfer_command", t.as_str(), Some("Pre transfer command(Optional)")));
        let t = text_or_empty(&profile.post_transfer_command);
        input_fields.push(InputField::new("post_transfer_command", t.as_str(), Some("Post transfer command(Optional)")));
        let t = text_or_empty(&profile.on_error_command);
        input_fields.push(InputField::new("on_error_command", t.as_str(), Some("On error command(Optional)")));
        let r = EditState { input_fields, current_fields: 0 };
        assert(fields_view(r.input_fields@) =~= profile_form(profile_view(*profile)));
        r
    }

    /// Writes every field back into the job, in order, by its label.
    pub fn write_back_to_profile(&self, profile: &mut TransferProfile)
        ensures
            profile_view(*final(profile)) == apply_profile_fields(profile_view(*old(profile)), fields_view(self.input_fields@)),
    {
        let n = self.input_fields.len();
        let mut i: usize = 0;
        while i < n
            invariant
                n == self.input_fields@.len(),
                i <= n,
                profile_view(*profile) == apply_profile_fields(
                    profile_view(*old(profile)),
                    fields_view(self.input_fields@.subrange(0, i as int)),
                ),
            decreases n - i,
        {
            proof {
                let next = self.input_fields@.subrange(0, i + 1);
                assert(fields_view(next).drop_last() =~= fields_view(self.input_fields@.subrange(0, i as int)));
                assert(fields_view(next).last() == field_view(self.input_fields@[i as int]));
            }
            write_profile_field(&self.input_fields[i], profile);
            i = i + 1;
        }
        assert(self.input_fields@.subrange(0, n as int) =~= self.input_fields@);
    }
}


// ---- key handling ----

/// A key press as the editor reads it: a character carries whether Control
/// was held.
#[derive(Clone, Copy, Debug, PartialEq, Eq, Structural)]
pub enum Key {
    Tab,
    BackTab,
    Up,
    Down,
    Left,
    Right,
    Enter,
    Esc,
    Backspace,
    Delete,
    Char { c: char, ctrl: bool },
    Other,
}

/// What the caller is to do after a key press.
#[derive(Clone, Copy, Debug, PartialEq, Eq, Structural)]
pub enum EditorEffect {
    Continue,
    /// Leave the editor.
    Quit,
    /// Store the profiles, then continue.
    SaveProfiles,
    /// Store the settings, then continue.
    SaveConfig,
}

pub enum UiView {
    ListView,
    EditView { fields: Seq<FieldView>, current: nat },
}

/// The whole editor as the contracts speak of it.
pub struct AdminView {
    pub mode: AdminMode,
    pub profiles: Seq<ProfileView>,
    pub config: ConfigView,
    pub selected: nat,
    pub ui: UiView,
}

pub open spec fn ui_view(u: UiState) -> UiView {
    match u {
        UiState::ListView => UiView::ListView,
        UiState::EditView(e) => UiView::EditView { fields: fields_view(e.input_fields@), current: e.current_fields as nat },
    }
}

pub open spec fn profiles_view(ps: Seq<TransferProfile>) -> Seq<ProfileView> {
    ps.map_values(|p: TransferProfile| profile_view(p))
}

pub open spec fn admin_view(s: AdminState) -> AdminView {
    AdminView {
        mode: s.mode,
        profiles: profiles_view(s.profiles.transfer_profiles@),
        config: config_view(s.config),
        selected: s.selected_index as nat,
        ui: ui_view(s.ui_state),
    }
}

/// The job that a new entry of the list starts as: local to local over
/// SFTP, every text empty, nothing optional set.
pub open spec fn blank_view() -> ProfileView {
    ProfileView {
        profile_id: Seq::empty(),
        description: None,
        source_kind: SourceType::Local,
        source_path: Seq::empty(),
        source_host: None,
        source_port: None,
        trigger_kind: TriggerType::Manual,
        schedule: None,
        source_auth: None,
        destination_kind: DestinationType::Local,
        destination_path: Seq::empty(),
        destination_host: None,
        destination_port: None,
        destination_auth: None,
        protocol: ProtocolType::Sftp,
        pre_transfer_command: None,
        post_transfer_command: None,
        on_error_command: None,
    }
}

/// A form field after typing `c` at its cursor (a cursor past the end
/// counting as the end).
pub open spec fn typed(f: FieldView, c: char) -> FieldView {
    let pos = if f.cursor <= f.value.len() { f.cursor } else { f.value.len() };
    FieldView { value: f.value.take(pos as int) + seq![c] + f.value.skip(pos as int), cursor: pos + 1, ..f }
}

/// A form field after one key that edits it or moves its cursor.
pub open spec fn field_step(f: FieldView, k: Key) -> FieldView {
    match k {
        Key::Left => if f.cursor > 0 { FieldView { cursor: (f.cursor - 1) as nat, ..f } } else { f },
        Key::Right => if f.cursor < f.value.len() { FieldView { cursor: f.cursor + 1, ..f } } else { f },
        Key::Char { c, .. } => typed(f, c),
        Key::Backspace => if 0 < f.cursor <= f.value.len() {
            FieldView { value: f.value.remove(f.cursor - 1), cursor: (f.cursor - 1) as nat, ..f }
        } else {
            f
        },
        Key::Delete => if f.cursor < f.value.len() { FieldView { value: f.value.remove(f.cursor as int), ..f } } else { f },
        _ => f,
    }
}

pub open spec fn open_form(s: AdminView, fields: Seq<FieldView>) -> AdminView {
    AdminView { ui: UiView::EditView { fields, current: 0 }, ..s }
}

/// Appends a job to the list, selects it and opens its form.
pub open spec fn add_and_edit(s: AdminView, p: ProfileView) -> AdminView {
    AdminView {
        profiles: s.profiles.push(p),
        selected: s.profiles.len(),
        ui: UiView::EditView { fields: profile_form(p), current: 0 },
        ..s
    }
}

/// One key press on the list.
pub open spec fn list_step(s: AdminView, k: Key) -> (AdminView, EditorEffect) {
    let n = s.profiles.len();
    let profile_mode = s.mode == AdminMode::Profile;
    match k {
        Key::Tab => (AdminView {
            mode: if profile_mode { AdminMode::Config } else { AdminMode::Profile },
            selected: 0,
            ..s
        }, EditorEffect::Continue),
        Key::Down => {
            let max: nat = if profile_mode { n } else { 3 };
            (if s.selected + 1 < max { AdminView { selected: s.selected + 1, ..s } } else { s }, EditorEffect::Continue)
        },
        Key::Up => (if s.selected > 0 { AdminView { selected: (s.selected - 1) as nat, ..s } } else { s }, EditorEffect::Continue),
        Key::Enter => (if profile_mode {
            if s.selected < n { open_form(s, profile_form(s.profiles[s.selected as int])) } else { s }
        } else {
            open_form(s, config_form(s.config))
        }, EditorEffect::Continue),
        Key::Char { c: 'n', ctrl: true } => (add_and_edit(s, blank_view()), EditorEffect::Continue),
        Key::Char { c: 'd', ctrl: true } => if profile_mode && s.selected < n {
            (AdminView {
                profiles: s.profiles.remove(s.selected as int),
                selected: if s.selected > 0 { (s.selected - 1) as nat } else { 0 },
                ..s
            }, EditorEffect::SaveProfiles)
        } else {
            (s, EditorEffect::Continue)
        },
        Key::Char { c: 'c', ctrl: true } => if profile_mode && s.selected < n {
            let p = s.profiles[s.selected as int];
            (add_and_edit(s, ProfileView { profile_id: p.profile_id + "_copy"@, ..p }), EditorEffect::Continue)
        } else {
            (s, EditorEffect::Continue)
        },
        Key::Char { c: 'q', .. } | Key::Esc => (s, EditorEffect::Quit),
        _ => (s, EditorEffect::Continue),
    }
}

/// One key press on an open form.
pub open spec fn form_step(s: AdminView, fields: Seq<FieldView>, current: nat, k: Key) -> (AdminView, EditorEffect) {
    let listed = AdminView { ui: UiView::ListView, ..s };
    let stay = |fs: Seq<FieldView>, cur: nat| AdminView { ui: UiView::EditView { fields: fs, current: cur }, ..s };
    match k {
        Key::Tab | Key::Down => (
            if current + 1 < fields.len() { stay(fields, current + 1) } else { stay(fields, current) },
            EditorEffect::Continue,
        ),
        Key::BackTab | Key::Up => (
            if current > 0 { stay(fields, (current - 1) as nat) } else { stay(fields, current) },
            EditorEffect::Continue,
        ),
        Key::Esc | Key::Char { c: 'q', .. } => (listed, EditorEffect::Continue),
        Key::Char { c: 's', ctrl: true } => if s.mode == AdminMode::Profile {
            if s.selected < s.profiles.len() {
                let i = s.selected as int;
                (AdminView {
                    profiles: s.profiles.update(i, apply_profile_fields(s.profiles[i], fields)),
                    ..listed
                }, EditorEffect::SaveProfiles)
            } else {
                (listed, EditorEffect::Continue)
            }
        } else {
            (AdminView { config: apply_config_fields(s.config, fields), ..listed }, EditorEffect::SaveConfig)
        },
        Key::Left | Key::Right | Key::Char { .. } | Key::Backspace | Key::Delete => (if current < fields.len() {
            stay(fields.update(current as int, field_step(fields[current as int], k)), current)
        } else {
            stay(fields, current)
        }, EditorEffect::Continue),
        _ => (stay(fields, current), EditorEffect::Continue),
    }
}

/// One key press on the editor.
pub open spec fn key_step(s: AdminView, k: Key) -> (AdminView, EditorEffect) {
    match s.ui {
        UiView::ListView => list_step(s, k),
        UiView::EditView { fields, current } => form_step(s, fields, current, k),
    }
}

/// Relies on `char`'s `to_string`: the text of the one character.
#[verifier::external_body]
fn char_text(c: char) -> (r: String)
    ensures
        r@ == seq![c],
{
    c.to_string()
}

fn edit_field(f: InputField, k: Key) -> (r: InputField)
    ensures
        field_view(r) == field_step(field_view(f), k),
{
    let n = f.value.unicode_len();
    let InputField { label, value, hint, cursor_pos } = f;
    match k {
        Key::Left => {
            let c = if cursor_pos > 0 { cursor_pos - 1 } else { cursor_pos };
            InputField { label, value, hint, cursor_pos: c }
        },
        Key::Right => {
            let c = if cursor_pos < n { cursor_pos + 1 } else { cursor_pos };
            InputField { label, value, hint, cursor_pos: c }
        },
        Key::Char { c, .. } => {
            let pos = if cursor_pos <= n { cursor_pos } else { n };
            let head = value.as_str().substring_char(0, pos);
            let tail = value.as_str().substring_char(pos, n);
            let mid = char_text(c);
            let mut out = String::from_str(head);
            out.append(mid.as_str());
            out.append(tail);
            let m = out.unicode_len();
            proof {
                assert(out@ =~= value@.take(pos as int) + seq![c] + value@.skip(pos as int));
            }
            InputField { label, value: out, hint, cursor_pos: pos + 1 }
        },
        Key::Backspace => {
            if 0 < cursor_pos && cursor_pos <= n {
                let head = value.as_str().substring_char(0, cursor_pos - 1);
                let tail = value.as_str().substring_char(cursor_pos, n);
                let mut out = String::from_str(head);
                out.append(tail);
                proof {
                    assert(out@ =~= value@.remove(cursor_pos - 1));
                }
                InputField { label, value: out, hint, cursor_pos: cursor_pos - 1 }
            } else {
                InputField { label, value, hint, cursor_pos }
            }
        },
        Key::Delete => {
            if cursor_pos < n {
                let head = value.as_str().substring_char(0, cursor_pos);
                let tail = value.as_str().substring_char(cursor_pos + 1, n);
                let mut out = String::from_str(head);
                out.append(tail);
                proof {
                    assert(out@ =~= value@.remove(cursor_pos as int));
                }
                InputField { label, value: out, hint, cursor_pos }
            } else {
                InputField { label, value, hint, cursor_pos }
            }
        },
        _ => InputField { label, value, hint, cursor_pos },
    }
}

fn copy_text(o: &Option<String>) -> (r: Option<String>)
    ensures
        opt_text(r) == opt_text(*o),
{
    match o {
        Some(s) => Some(s.clone()),
        None => None,
    }
}

fn copy_auth(a: &Option<Authentication>) -> (r: Option<Authentication>)
    ensures
        opt_auth_view(r) == opt_auth_view(*a),
{
    match a {
        None => None,
        Some(x) => Some(Authentication {
            method: x.method,
            username: x.username.clone(),
            password_ref: copy_text(&x.password_ref),
            private_key_ref: copy_text(&x.private_key_ref),
            ssh_config_alias: copy_text(&x.ssh_config_alias),
        }),
    }
}

impl TransferProfile {
    /// A job that starts as `blank_view` describes.
    pub fn blank() -> (r: TransferProfile)
        ensures
            profile_view(r) == blank_view(),
    {
        TransferProfile {
            profile_id: String::new(),
            description: None,
            source: Source {
                kind: SourceType::Local,
                path: String::new(),
                host: None,
                port: None,
                authentication: None,
                trigger: Trigger { kind: TriggerType::Manual, schedule: None },
            },
            destination: Destination {
                kind: DestinationType::Local,
                path: String::new(),
                host: None,
                port: None,
                authentication: None,
            },
            transfer_protocol: TransferProtocol { protocol: ProtocolType::Sftp },
            pre_transfer_command: None,
            post_transfer_command: None,
            on_error_command: None,
        }
    }

    /// A copy of the job under the id `profile_id`.
    pub fn copy_as(&self, profile_id: String) -> (r: TransferProfile)
        ensures
            profile_view(r) == (ProfileView { profile_id: profile_id@, ..profile_view(*self) }),
    {
        TransferProfile {
            profile_id,
            description: copy_text(&self.description),
            source: Source {
                kind: self.source.kind,
                path: self.source.path.clone(),
                host: copy_text(&self.source.host),
                port: self.source.port,
                authentication: copy_auth(&self.source.authentication),
                trigger: Trigger { kind: self.source.trigger.kind, schedule: copy_text(&self.source.trigger.schedule) },
            },
            destination: Destination {
                kind: self.destination.kind,
                path: self.destination.path.clone(),
                host: copy_text(&self.destination.host),
                port: self.destination.port,
                authentication: copy_auth(&self.destination.authentication),
            },
            transfer_protocol: TransferProtocol { protocol: self.transfer_protocol.protocol },
            pre_transfer_command: copy_text(&self.pre_transfer_command),
            post_transfer_command: copy_text(&self.post_transfer_command),
            on_error_command: copy_text(&self.on_error_command),
        }
    }
}

fn push_and_edit(mut state: AdminState, p: TransferProfile) -> (r: AdminState)
    ensures
        admin_view(r) == add_and_edit(admin_view(state), profile_view(p)),
{
    let ghost before = state.profiles.transfer_profiles@;
    let form = EditState::from_profile(&p);
    state.profiles.transfer_profiles.push(p);
    state.selected_index = state.profiles.transfer_profiles.len() - 1;
    state.ui_state = UiState::EditView(form);
    proof {
        assert(profiles_view(state.profiles.transfer_profiles@) =~= profiles_view(before).push(profile_view(p)));
    }
    state
}

fn list_key(state: AdminState, key: Key) -> (r: (AdminState, EditorEffect))
    requires
        state.ui_state is ListView,
    ensures
        (admin_view(r.0), r.1) == list_step(admin_view(state), key),
{
    let mut state = state;
    let n = state.profiles.transfer_profiles.len();
    let profile_mode = state.mode == AdminMode::Profile;
    match key {
        Key::Tab => {
            state.mode = if profile_mode { AdminMode::Config } else { AdminMode::Profile };
            state.selected_index = 0;
            (state, EditorEffect::Continue)
        },
        Key::Down => {
            let max: usize = if profile_mode { n } else { 3 };
            if max > 0 && state.selected_index < max - 1 {
                state.selected_index = state.selected_index + 1;
            }
            (state, EditorEffect::Continue)
        },
        Key::Up => {
            if state.selected_index > 0 {
                state.selected_index = state.selected_index - 1;
            }
            (state, EditorEffect::Continue)
        },
        Key::Enter => {
            if profile_mode {
                if state.selected_index < n {
                    let form = EditState::from_profile(&state.profiles.transfer_profiles[state.selected_index]);
                    state.ui_state = UiState::EditView(form);
                }
            } else {
                let form = EditState::from_config(&state.config);
                state.ui_state = UiState::EditView(form);
            }
            (state, EditorEffect::Continue)
        },
        Key::Char { c: 'n', ctrl: true } => {
            let p = TransferProfile::blank();
            (push_and_edit(state, p), EditorEffect::Continue)
        },
        Key::Char { c: 'd', ctrl: true } => {
            if profile_mode && state.selected_index < n {
                let ghost before = state.profiles.transfer_profiles@;
                let i = state.selected_index;
                let _ = state.profiles.transfer_profiles.remove(i);
                if state.selected_index > 0 {
                    state.selected_index = state.selected_index - 1;
                }
                proof {
                    assert(profiles_view(state.profiles.transfer_profiles@) =~= profiles_view(before).remove(i as int));
                }
                (state, EditorEffect::SaveProfiles)
            } else {
                (state, EditorEffect::Continue)
            }
        },
        Key::Char { c: 'c', ctrl: true } => {
            if profile_mode && state.selected_index < n {
                let id = join2(state.profiles.transfer_profiles[state.selected_index].profile_id.as_str(), "_copy");
                let copy = state.profiles.transfer_profiles[state.selected_index].copy_as(id);
                (push_and_edit(state, copy), EditorEffect::Continue)
            } else {
                (state, EditorEffect::Continue)
            }
        },
        Key::Char { c: 'q', .. } | Key::Esc => (state, EditorEffect::Quit),
        _ => (state, EditorEffect::Continue),
    }
}

fn form_key(
    mut state: AdminState,
    mut edit: EditState,
    key: Key,
) -> (r: (AdminState, EditorEffect))
    requires
        state.ui_state is ListView,
    ensures
        (admin_view(r.0), r.1) == form_step(admin_view(state), fields_view(edit.input_fields@), edit.current_fields as nat, key),
{
    let n = edit.input_fields.len();
    let cur = edit.current_fields;
    match key {
        Key::Tab | Key::Down => {
            if n > 0 && cur < n - 1 {
                edit.current_fields = cur + 1;
            }
            state.ui_state = UiState::EditView(edit);
            (state, EditorEffect::Continue)
        },
        Key::BackTab | Key::Up => {
            if cur > 0 {
                edit.current_fields = cur - 1;
            }
            state.ui_state = UiState::EditView(edit);
            (state, EditorEffect::Continue)
        },
        Key::Esc | Key::Char { c: 'q', .. } => (state, EditorEffect::Continue),
        Key::Char { c: 's', ctrl: true } => {
            if state.mode == AdminMode::Profile {
                let i = state.selected_index;
                if i < state.profiles.transfer_profiles.len() {
                    let ghost before = state.profiles.transfer_profiles@;
                    let mut p = state.profiles.transfer_profiles.remove(i);
                    edit.write_back_to_profile(&mut p);
                    state.profiles.transfer_profiles.insert(i, p);
                    proof {
                        assert(profiles_view(state.profiles.transfer_profiles@) =~= profiles_view(before).update(
                            i as int,
                            apply_profile_fields(profiles_view(before)[i as int], fields_view(edit.input_fields@)),
                        ));
                    }
                    (state, EditorEffect::SaveProfiles)
                } else {
                    (state, EditorEffect::Continue)
                }
            } else {
                edit.write_back_to_config(&mut state.config);
                (state, EditorEffect::SaveConfig)
            }
        },
        Key::Left | Key::Right | Key::Char { .. } | Key::Backspace | Key::Delete => {
            if cur < n {
                let ghost before = edit.input_fields@;
                let f = edit.input_fields.remove(cur);
                let g = edit_field(f, key);
                edit.input_fields.insert(cur, g);
                proof {
                    assert(fields_view(edit.input_fields@) =~= fields_view(before).update(
                        cur as int,
                        field_step(fields_view(before)[cur as int], key),
                    ));
                }
            }
            state.ui_state = UiState::EditView(edit);
            (state, EditorEffect::Continue)
        },
        _ => {
            state.ui_state = UiState::EditView(edit);
            (state, EditorEffect::Continue)
        },
    }
}

/// Takes one key press on the editor and says what the caller is to do:
/// store the profiles or the settings, leave, or go on.
pub fn handle_key_event(key: Key, state: AdminState) -> (r: (AdminState, EditorEffect))
    ensures
        (admin_view(r.0), r.1) == key_step(admin_view(state), key),
{
    let ghost original = admin_view(state);
    let mut state = state;
    let mut ui = UiState::ListView;
    std::mem::swap(&mut ui, &mut state.ui_state);
    assert(admin_view(state) == (AdminView { ui: UiView::ListView, ..original }));
    match ui {
        UiState::ListView => list_key(state, key),
        UiState::EditView(edit) => form_key(state, edit, key),
    }
}

} // verus!
