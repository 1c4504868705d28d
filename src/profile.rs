//! The transfer-job model and its structural validation.

use crate::error::{outcome, AppError, ErrorView};
use crate::text::{contains_text, join3, lemma_contains_middle, lower_of, lowercase, text_eq};
use vstd::prelude::*;

verus! {

#[verifier::external_type_specification]
#[verifier::external_body]
pub struct ExCronSchedule(cron::Schedule);

/// Where a source reads from.
#[derive(Clone, Copy, Debug, PartialEq, Eq, Structural)]
pub enum SourceType {
    Local,
    Sftp,
    Scp,
}

/// Where a destination writes to.
#[derive(Clone, Copy, Debug, PartialEq, Eq, Structural)]
pub enum DestinationType {
    Local,
    Sftp,
    Scp,
}

/// How the credential for a remote endpoint is found.
#[derive(Clone, Copy, Debug, PartialEq, Eq, Structural)]
pub enum AuthenticationMethod {
    Password,
    PrivateKey,
    EnvKey,
    SshConfig,
}

/// What starts a job.
#[derive(Clone, Copy, Debug, PartialEq, Eq, Structural)]
pub enum TriggerType {
    Manual,
    Schedule,
}

/// The wire protocol of a job.
#[derive(Clone, Copy, Debug, PartialEq, Eq, Structural)]
pub enum ProtocolType {
    Sftp,
    Scp,
}

/// The credential declaration of a remote endpoint.
#[derive(Clone, Debug)]
pub struct Authentication {
    pub method: AuthenticationMethod,
    pub username: String,
    pub password_ref: Option<String>,
    pub private_key_ref: Option<String>,
    pub ssh_config_alias: Option<String>,
}

/// When a job runs.
#[derive(Clone, Debug)]
pub struct Trigger {
    pub kind: TriggerType,
    pub schedule: Option<String>,
}

/// The endpoint a job reads from.
#[derive(Clone, Debug)]
pub struct Source {
    pub kind: SourceType,
    pub path: String,
    pub host: Option<String>,
    pub port: Option<u16>,
    pub authentication: Option<Authentication>,
    pub trigger: Trigger,
}

/// The endpoint a job writes to.
#[derive(Clone, Debug)]
pub struct Destination {
    pub kind: DestinationType,
    pub path: String,
    pub host: Option<String>,
    pub port: Option<u16>,
    pub authentication: Option<Authentication>,
}

#[derive(Clone, Debug)]
pub struct TransferProtocol {
    pub protocol: ProtocolType,
}

/// One transfer job.
#[derive(Clone, Debug)]
pub struct TransferProfile {
    pub profile_id: String,
    pub description: Option<String>,
    pub source: Source,
    pub destination: Destination,
    pub transfer_protocol: TransferProtocol,
    pub pre_transfer_command: Option<String>,
    pub post_transfer_command: Option<String>,
    pub on_error_command: Option<String>,
}

/// A profile store: the list of jobs.
#[derive(Clone, Debug)]
pub struct Profile {
    pub transfer_profiles: Vec<TransferProfile>,
}

// ---- validation, as the contracts state it ----

/// The message of a missing-field error of a remote endpoint, such as
/// `SFTP source requires 'host'`.
pub open spec fn requirement_text(label: Seq<char>, role: Seq<char>, field: Seq<char>) -> Seq<char> {
    label + " "@ + role + " requires '"@ + field + "'"@
}

/// The protocol label of a remote endpoint kind, `None` for a local one.
pub open spec fn source_label(k: SourceType) -> Option<Seq<char>> {
    match k {
        SourceType::Local => None,
        SourceType::Sftp => Some("SFTP"@),
        SourceType::Scp => Some("SCP"@),
    }
}

pub open spec fn destination_label(k: DestinationType) -> Option<Seq<char>> {
    match k {
        DestinationType::Local => None,
        DestinationType::Sftp => Some("SFTP"@),
        DestinationType::Scp => Some("SCP"@),
    }
}

/// The verdict on an authentication declaration: the field that its method
/// needs must be present.
pub open spec fn auth_verdict(a: Authentication) -> Result<(), ErrorView> {
    match a.method {
        AuthenticationMethod::Password => if a.password_ref is None {
            Err(ErrorView::AuthenticationFailed("Password authentication requires '"@ + "passwordRef"@ + "'"@))
        } else {
            Ok(())
        },
        AuthenticationMethod::PrivateKey | AuthenticationMethod::EnvKey => if a.private_key_ref is None {
            Err(ErrorView::Validation("Private key or Env key requires '"@ + "privateKeyRef"@ + "'"@))
        } else {
            Ok(())
        },
        AuthenticationMethod::SshConfig => if a.ssh_config_alias is None {
            Err(ErrorView::Validation("SSH config authentication requires '"@ + "sshConfigAlias"@ + "'"@))
        } else {
            Ok(())
        },
    }
}

/// The verdict on an endpoint: a local one needs nothing; a remote one needs
/// a host, a port and a valid authentication, checked in that order.
pub open spec fn endpoint_verdict(
    label: Option<Seq<char>>,
    role: Seq<char>,
    host: Option<String>,
    port: Option<u16>,
    auth: Option<Authentication>,
) -> Result<(), ErrorView> {
    match label {
        None => Ok(()),
        Some(l) => if host is None {
            Err(ErrorView::Validation(requirement_text(l, role, "host"@)))
        } else if port is None {
            Err(ErrorView::Validation(requirement_text(l, role, "port"@)))
        } else {
            match auth {
                None => Err(ErrorView::Validation(requirement_text(l, role, "authentication"@))),
                Some(a) => auth_verdict(a),
            }
        },
    }
}

/// Whether cron's parser accepts an expression.
pub uninterp spec fn cron_accepts(expression: Seq<char>) -> bool;

/// The verdict on a trigger: a scheduled one needs a schedule that cron accepts.
pub open spec fn trigger_verdict(t: Trigger) -> Result<(), ErrorView> {
    match t.kind {
        TriggerType::Manual => Ok(()),
        TriggerType::Schedule => match t.schedule {
            None => Err(ErrorView::MissingSchedule),
            Some(s) => if cron_accepts(s@) {
                Ok(())
            } else {
                Err(ErrorView::InvalidCronSchedule(s@))
            },
        },
    }
}

pub open spec fn source_verdict(s: Source) -> Result<(), ErrorView> {
    match endpoint_verdict(source_label(s.kind), "source"@, s.host, s.port, s.authentication) {
        Err(e) => Err(e),
        Ok(()) => trigger_verdict(s.trigger),
    }
}

pub open spec fn destination_verdict(d: Destination) -> Result<(), ErrorView> {
    endpoint_verdict(destination_label(d.kind), "destination"@, d.host, d.port, d.authentication)
}

/// Relies on cron's `Schedule::from_str`: whether it accepts an expression
/// depends on the text alone.
#[verifier::external_body]
fn parse_cron(expression: &str) -> (r: Result<cron::Schedule, cron::error::Error>)
    ensures
        r is Ok <==> cron_accepts(expression@),
{
    <cron::Schedule as std::str::FromStr>::from_str(expression)
}

/// The verdict on a schedule, given what cron's parser made of it.
pub fn schedule_verdict(
    expression: &String,
    parsed: Result<cron::Schedule, cron::error::Error>,
) -> (r: Result<(), AppError>)
    ensures
        parsed is Ok ==> r is Ok,
        parsed is Err ==> outcome(r) == Err::<(), ErrorView>(ErrorView::InvalidCronSchedule(expression@)),
{
    match parsed {
        Ok(_) => Ok(()),
        Err(e) => Err(AppError::InvalidCronSchedule { expression: expression.clone(), source: e }),
    }
}

fn missing_field(label: &str, role: &str, field: &str) -> (r: AppError)
    ensures
        error_view_is_validation(r, requirement_text(label@, role@, field@)),
{
    let mut m = join3(label, " ", role);
    m.append(" requires '");
    m.append(field);
    m.append("'");
    AppError::Validation(m)
}

pub open spec fn error_view_is_validation(e: AppError, text: Seq<char>) -> bool {
    crate::error::error_view(e) == ErrorView::Validation(text)
}

fn validate_endpoint(
    label: &str,
    role: &str,
    host: &Option<String>,
    port: Option<u16>,
    auth: &Option<Authentication>,
) -> (r: Result<(), AppError>)
    ensures
        outcome(r) == endpoint_verdict(Some(label@), role@, *host, port, *auth),
{
    if host.is_none() {
        return Err(missing_field(label, role, "host"));
    }
    if port.is_none() {
        return Err(missing_field(label, role, "port"));
    }
    match auth {
        None => Err(missing_field(label, role, "authentication")),
        Some(a) => a.validate(),
    }
}

impl Authentication {
    /// Checks that the field its method needs is present.
    pub fn validate(&self) -> (r: Result<(), AppError>)
        ensures
            outcome(r) == auth_verdict(*self),
    {
        match self.method {
            AuthenticationMethod::Password => {
                if self.password_ref.is_none() {
                    return Err(AppError::AuthenticationFailed(
                        join3("Password authentication requires '", "passwordRef", "'"),
                    ));
                }
            },
            AuthenticationMethod::PrivateKey | AuthenticationMethod::EnvKey => {
                if self.private_key_ref.is_none() {
                    return Err(AppError::Validation(
                        join3("Private key or Env key requires '", "privateKeyRef", "'"),
                    ));
                }
            },
            AuthenticationMethod::SshConfig => {
                if self.ssh_config_alias.is_none() {
                    return Err(AppError::Validation(
                        join3("SSH config authentication requires '", "sshConfigAlias", "'"),
                    ));
                }
            },
        }
        Ok(())
    }
}

impl Trigger {
    /// Checks that a scheduled trigger has a schedule that cron accepts.
    pub fn validate(&self) -> (r: Result<(), AppError>)
        ensures
            outcome(r) == trigger_verdict(*self),
    {
        match self.kind {
            TriggerType::Manual => Ok(()),
            TriggerType::Schedule => match &self.schedule {
                None => Err(AppError::MissingSchedule),
                Some(s) => {
                    let parsed = parse_cron(s.as_str());
                    schedule_verdict(s, parsed)
                },
            },
        }
    }
}

impl Source {
    /// Checks the endpoint's required fields, then its trigger.
    pub fn validate(&self) -> (r: Result<(), AppError>)
        ensures
            outcome(r) == source_verdict(*self),
    {
        let checked = match self.kind {
            SourceType::Local => Ok(()),
            SourceType::Sftp => validate_endpoint("SFTP", "source", &self.host, self.port, &self.authentication),
            SourceType::Scp => validate_endpoint("SCP", "source", &self.host, self.port, &self.authentication),
        };
        match checked {
            Err(e) => Err(e),
            Ok(()) => self.trigger.validate(),
        }
    }
}

impl Destination {
    /// Checks the endpoint's required fields.
    pub fn validate(&self) -> (r: Result<(), AppError>)
        ensures
            outcome(r) == destination_verdict(*self),
    {
        match self.kind {
            DestinationType::Local => Ok(()),
            DestinationType::Sftp => validate_endpoint("SFTP", "destination", &self.host, self.port, &self.authentication),
            DestinationType::Scp => validate_endpoint("SCP", "destination", &self.host, self.port, &self.authentication),
        }
    }
}

// ---- laws of validation ----

/// A local destination passes validation whatever its host, port and
/// authentication.
pub proof fn lemma_local_destination_valid(d: Destination)
    requires
        d.kind == DestinationType::Local,
    ensures
        destination_verdict(d) is Ok,
{
}

/// A local source passes validation whatever its host, port and
/// authentication, as long as its trigger does.
pub proof fn lemma_local_source_valid(s: Source)
    requires
        s.kind == SourceType::Local,
        trigger_verdict(s.trigger) is Ok,
    ensures
        source_verdict(s) is Ok,
{
}

/// A remote source without a host fails validation with a message that
/// names `host`.
pub proof fn lemma_remote_source_needs_host(s: Source)
    requires
        s.kind != SourceType::Local,
        s.host is None,
    ensures
        source_verdict(s) matches Err(ErrorView::Validation(m)) && contains_text(m, "host"@),
{
    let l = source_label(s.kind)->Some_0;
    lemma_contains_middle(l + " "@ + "source"@ + " requires '"@, "host"@, "'"@);
}

/// A remote destination without a host fails validation with a message that
/// names `host`.
pub proof fn lemma_remote_destination_needs_host(d: Destination)
    requires
        d.kind != DestinationType::Local,
        d.host is None,
    ensures
        destination_verdict(d) matches Err(ErrorView::Validation(m)) && contains_text(m, "host"@),
{
    let l = destination_label(d.kind)->Some_0;
    lemma_contains_middle(l + " "@ + "destination"@ + " requires '"@, "host"@, "'"@);
}

/// A scheduled trigger without a schedule fails with `MissingSchedule`.
pub proof fn lemma_schedule_needs_expression(t: Trigger)
    requires
        t.kind == TriggerType::Schedule,
        t.schedule is None,
    ensures
        trigger_verdict(t) == Err::<(), ErrorView>(ErrorView::MissingSchedule),
{
}

/// Password authentication without a password reference fails with a
/// message that names `passwordRef`.
pub proof fn lemma_password_needs_reference(a: Authentication)
    requires
        a.method == AuthenticationMethod::Password,
        a.password_ref is None,
    ensures
        auth_verdict(a) matches Err(ErrorView::AuthenticationFailed(m)) && contains_text(m, "passwordRef"@),
{
    lemma_contains_middle("Password authentication requires '"@, "passwordRef"@, "'"@);
}

// ---- names of the enumerations ----
/// The rejection message of a name that no variant has.
pub open spec fn not_allowed_text(s: Seq<char>) -> Seq<char> {
    "'"@ + s + "' is not allowed"@
}

fn not_allowed(s: &str) -> (r: String)
    ensures
        r@ == not_allowed_text(s@),
{
    join3("'", s, "' is not allowed")
}

/// The name a `SourceType` is shown by.
pub open spec fn source_type_name(k: SourceType) -> Seq<char> {
    match k {
        SourceType::Local => "local"@,
        SourceType::Sftp => "sftp"@,
        SourceType::Scp => "scp"@,
    }
}

/// The `SourceType` that a lower-case name stands for.
pub open spec fn source_type_named(s: Seq<char>) -> Option<SourceType> {
    if s == "local"@ {
        Some(SourceType::Local)
    } else if s == "sftp"@ {
        Some(SourceType::Sftp)
    } else if s == "scp"@ {
        Some(SourceType::Scp)
    } else {
        None
    }
}

impl SourceType {
    /// The name the variant is shown by.
    pub fn to_string(&self) -> (r: String)
        ensures
            r@ == source_type_name(*self),
    {
        match self {
            SourceType::Local => String::from_str("local"),
            SourceType::Sftp => String::from_str("sftp"),
            SourceType::Scp => String::from_str("scp"),
        }
    }

    /// The variant that a lower-case name stands for.
    pub fn from_lowercase(s: &str) -> (r: Result<SourceType, String>)
        ensures
            r is Ok <==> source_type_named(s@) is Some,
            r is Ok ==> source_type_named(s@) == Some(r->Ok_0),
            r is Err ==> r->Err_0@ == not_allowed_text(s@),
    {
        if text_eq(s, "local") {
            Ok(SourceType::Local)
        } else if text_eq(s, "sftp") {
            Ok(SourceType::Sftp)
        } else if text_eq(s, "scp") {
            Ok(SourceType::Scp)
        } else {
            Err(not_allowed(s))
        }
    }

    /// The variant that a name stands for, whatever its case.
    pub fn parse_name(s: &str) -> (r: Result<SourceType, String>)
        ensures
            r is Ok <==> source_type_named(lower_of(s@)) is Some,
            r is Ok ==> source_type_named(lower_of(s@)) == Some(r->Ok_0),
            r is Err ==> r->Err_0@ == not_allowed_text(lower_of(s@)),
    {
        let lowered = lowercase(s);
        Self::from_lowercase(lowered.as_str())
    }
}

impl std::str::FromStr for SourceType {
    type Err = String;

    fn from_str(s: &str) -> Result<SourceType, String> {
        Self::parse_name(s)
    }
}

/// The name a `DestinationType` is shown by.
pub open spec fn destination_type_name(k: DestinationType) -> Seq<char> {
    match k {
        DestinationType::Local => "local"@,
        DestinationType::Sftp => "sftp"@,
        DestinationType::Scp => "scp"@,
    }
}

/// The `DestinationType` that a lower-case name stands for.
pub open spec fn destination_type_named(s: Seq<char>) -> Option<DestinationType> {
    if s == "local"@ {
        Some(DestinationType::Local)
    } else if s == "sftp"@ {
        Some(DestinationType::Sftp)
    } else if s == "scp"@ {
        Some(DestinationType::Scp)
    } else {
        None
    }
}

impl DestinationType {
    /// The name the variant is shown by.
    pub fn to_string(&self) -> (r: String)
        ensures
            r@ == destination_type_name(*self),
    {
        match self {
            DestinationType::Local => String::from_str("local"),
            DestinationType::Sftp => String::from_str("sftp"),
            DestinationType::Scp => String::from_str("scp"),
        }
    }

    /// The variant that a lower-case name stands for.
    pub fn from_lowercase(s: &str) -> (r: Result<DestinationType, String>)
        ensures
            r is Ok <==> destination_type_named(s@) is Some,
            r is Ok ==> destination_type_named(s@) == Some(r->Ok_0),
            r is Err ==> r->Err_0@ == not_allowed_text(s@),
    {
        if text_eq(s, "local") {
            Ok(DestinationType::Local)
        } else if text_eq(s, "sftp") {
            Ok(DestinationType::Sftp)
        } else if text_eq(s, "scp") {
            Ok(DestinationType::Scp)
        } else {
            Err(not_allowed(s))
        }
    }

    /// The variant that a name stands for, whatever its case.
    pub fn parse_name(s: &str) -> (r: Result<DestinationType, String>)
        ensures
            r is Ok <==> destination_type_named(lower_of(s@)) is Some,
            r is Ok ==> destination_type_named(lower_of(s@)) == Some(r->Ok_0),
            r is Err ==> r->Err_0@ == not_allowed_text(lower_of(s@)),
    {
        let lowered = lowercase(s);
        Self::from_lowercase(lowered.as_str())
    }
}

impl std::str::FromStr for DestinationType {
    type Err = String;

    fn from_str(s: &str) -> Result<DestinationType, String> {
        Self::parse_name(s)
    }
}

/// The name a `AuthenticationMethod` is shown by.
pub open spec fn auth_method_name(k: AuthenticationMethod) -> Seq<char> {
    match k {
        AuthenticationMethod::Password => "password"@,
        AuthenticationMethod::PrivateKey => "private_key"@,
        AuthenticationMethod::EnvKey => "env_key"@,
        AuthenticationMethod::SshConfig => "ssh_config"@,
    }
}

/// The `AuthenticationMethod` that a lower-case name stands for.
pub open spec fn auth_method_named(s: Seq<char>) -> Option<AuthenticationMethod> {
    if s == "password"@ {
        Some(AuthenticationMethod::Password)
    } else if s == "private_key"@ {
        Some(AuthenticationMethod::PrivateKey)
    } else if s == "env_key"@ {
        Some(AuthenticationMethod::EnvKey)
    } else if s == "ssh_config"@ {
        Some(AuthenticationMethod::SshConfig)
    } else {
        None
    }
}

impl AuthenticationMethod {
    /// The name the variant is shown by.
    pub fn to_string(&self) -> (r: String)
        ensures
            r@ == auth_method_name(*self),
    {
        match self {
            AuthenticationMethod::Password => String::from_str("password"),
            AuthenticationMethod::PrivateKey => String::from_str("private_key"),
            AuthenticationMethod::EnvKey => String::from_str("env_key"),
            AuthenticationMethod::SshConfig => String::from_str("ssh_config"),
        }
    }

    /// The variant that a lower-case name stands for.
    pub fn from_lowercase(s: &str) -> (r: Result<AuthenticationMethod, String>)
        ensures
            r is Ok <==> auth_method_named(s@) is Some,
            r is Ok ==> auth_method_named(s@) == Some(r->Ok_0),
            r is Err ==> r->Err_0@ == not_allowed_text(s@),
    {
        if text_eq(s, "password") {
            Ok(AuthenticationMethod::Password)
        } else if text_eq(s, "private_key") {
            Ok(AuthenticationMethod::PrivateKey)
        } else if text_eq(s, "env_key") {
            Ok(AuthenticationMethod::EnvKey)
        } else if text_eq(s, "ssh_config") {
            Ok(AuthenticationMethod::SshConfig)
        } else {
            Err(not_allowed(s))
        }
    }

    /// The variant that a name stands for, whatever its case.
    pub fn parse_name(s: &str) -> (r: Result<AuthenticationMethod, String>)
        ensures
            r is Ok <==> auth_method_named(lower_of(s@)) is Some,
            r is Ok ==> auth_method_named(lower_of(s@)) == Some(r->Ok_0),
            r is Err ==> r->Err_0@ == not_allowed_text(lower_of(s@)),
    {
        let lowered = lowercase(s);
        Self::from_lowercase(lowered.as_str())
    }
}

impl std::str::FromStr for AuthenticationMethod {
    type Err = String;

    fn from_str(s: &str) -> Result<AuthenticationMethod, String> {
        Self::parse_name(s)
    }
}

/// The name a `TriggerType` is shown by.
pub open spec fn trigger_type_name(k: TriggerType) -> Seq<char> {
    match k {
        TriggerType::Manual => "manual"@,
        TriggerType::Schedule => "schedule"@,
    }
}

/// The `TriggerType` that a lower-case name stands for.
pub open spec fn trigger_type_named(s: Seq<char>) -> Option<TriggerType> {
    if s == "manual"@ {
        Some(TriggerType::Manual)
    } else if s == "schedule"@ {
        Some(TriggerType::Schedule)
    } else {
        None
    }
}

impl TriggerType {
    /// The name the variant is shown by.
    pub fn to_string(&self) -> (r: String)
        ensures
            r@ == trigger_type_name(*self),
    {
        match self {
            TriggerType::Manual => String::from_str("manual"),
            TriggerType::Schedule => String::from_str("schedule"),
        }
    }

    /// The variant that a lower-case name stands for.
    pub fn from_lowercase(s: &str) -> (r: Result<TriggerType, String>)
        ensures
            r is Ok <==> trigger_type_named(s@) is Some,
            r is Ok ==> trigger_type_named(s@) == Some(r->Ok_0),
            r is Err ==> r->Err_0@ == not_allowed_text(s@),
    {
        if text_eq(s, "manual") {
            Ok(TriggerType::Manual)
        } else if text_eq(s, "schedule") {
            Ok(TriggerType::Schedule)
        } else {
            Err(not_allowed(s))
        }
    }

    /// The variant that a name stands for, whatever its case.
    pub fn parse_name(s: &str) -> (r: Result<TriggerType, String>)
        ensures
            r is Ok <==> trigger_type_named(lower_of(s@)) is Some,
            r is Ok ==> trigger_type_named(lower_of(s@)) == Some(r->Ok_0),
            r is Err ==> r->Err_0@ == not_allowed_text(lower_of(s@)),
    {
        let lowered = lowercase(s);
        Self::from_lowercase(lowered.as_str())
    }
}

impl std::str::FromStr for TriggerType {
    type Err = String;

    fn from_str(s: &str) -> Result<TriggerType, String> {
        Self::parse_name(s)
    }
}

/// The name a `ProtocolType` is shown by.
pub open spec fn protocol_type_name(k: ProtocolType) -> Seq<char> {
    match k {
        ProtocolType::Sftp => "SFTP"@,
        ProtocolType::Scp => "SCP"@,
    }
}

/// The `ProtocolType` that a lower-case name stands for.
pub open spec fn protocol_type_named(s: Seq<char>) -> Option<ProtocolType> {
    if s == "sftp"@ {
        Some(ProtocolType::Sftp)
    } else if s == "scp"@ {
        Some(ProtocolType::Scp)
    } else {
        None
    }
}

impl ProtocolType {
    /// The name the variant is shown by.
    pub fn to_string(&self) -> (r: String)
        ensures
            r@ == protocol_type_name(*self),
    {
        match self {
            ProtocolType::Sftp => String::from_str("SFTP"),
            ProtocolType::Scp => String::from_str("SCP"),
        }
    }

    /// The variant that a lower-case name stands for.
    pub fn from_lowercase(s: &str) -> (r: Result<ProtocolType, String>)
        ensures
            r is Ok <==> protocol_type_named(s@) is Some,
            r is Ok ==> protocol_type_named(s@) == Some(r->Ok_0),
            r is Err ==> r->Err_0@ == not_allowed_text(s@),
    {
        if text_eq(s, "sftp") {
            Ok(ProtocolType::Sftp)
        } else if text_eq(s, "scp") {
            Ok(ProtocolType::Scp)
        } else {
            Err(not_allowed(s))
        }
    }

    /// The variant that a name stands for, whatever its case.
    pub fn parse_name(s: &str) -> (r: Result<ProtocolType, String>)
        ensures
            r is Ok <==> protocol_type_named(lower_of(s@)) is Some,
            r is Ok ==> protocol_type_named(lower_of(s@)) == Some(r->Ok_0),
            r is Err ==> r->Err_0@ == not_allowed_text(lower_of(s@)),
    {
        let lowered = lowercase(s);
        Self::from_lowercase(lowered.as_str())
    }
}

impl std::str::FromStr for ProtocolType {
    type Err = String;

    fn from_str(s: &str) -> Result<ProtocolType, String> {
        Self::parse_name(s)
    }
}

} // verus!
