//! Turning a credential declaration into concrete connection parameters,
//! and the decisions around authenticating a session with them.

use crate::error::{outcome, AppError, ErrorView};
use crate::profile::{protocol_type_name, Authentication, AuthenticationMethod, ProtocolType};
use crate::text::{join2, text_eq};
use vstd::prelude::*;

verus! {

/// A snapshot of environment variables. A name set twice reads as its last
/// value.
pub struct Environment {
    vars: Vec<(String, String)>,
}

/// The value of `name` among `entries`, the last entry winning.
pub open spec fn lookup_in(entries: Seq<(Seq<char>, Seq<char>)>, name: Seq<char>) -> Option<Seq<char>>
    decreases entries.len(),
{
    if entries.len() == 0 {
        None
    } else if entries.last().0 == name {
        Some(entries.last().1)
    } else {
        lookup_in(entries.drop_last(), name)
    }
}

impl View for Environment {
    type V = Seq<(Seq<char>, Seq<char>)>;

    closed spec fn view(&self) -> Seq<(Seq<char>, Seq<char>)> {
        self.vars@.map_values(|p: (String, String)| (p.0@, p.1@))
    }
}

impl Environment {
    /// An environment with no variable set.
    pub fn new() -> (r: Environment)
        ensures
            r@ == Seq::<(Seq<char>, Seq<char>)>::empty(),
    {
        let r = Environment { vars: Vec::new() };
        assert(r@ =~= Seq::<(Seq<char>, Seq<char>)>::empty());
        r
    }

    /// Sets `name` to `value`, over any earlier value.
    pub fn set(&mut self, name: &str, value: &str)
        ensures
            final(self)@ == old(self)@.push((name@, value@)),
    {
        let ghost before = self@;
        self.vars.push((String::from_str(name), String::from_str(value)));
        assert(self@ =~= before.push((name@, value@)));
    }

    /// The value of `name`, if it is set.
    pub fn get(&self, name: &str) -> (r: Option<String>)
        ensures
            r matches Some(v) ==> lookup_in(self@, name@) == Some(v@),
            r is None ==> lookup_in(self@, name@) is None,
    {
        let mut i: usize = self.vars.len();
        assert(self@.subrange(0, i as int) =~= self@);
        while i > 0
            invariant
                i <= self.vars@.len(),
                lookup_in(self@, name@) == lookup_in(self@.subrange(0, i as int), name@),
            decreases i,
        {
            let ghost prefix = self@.subrange(0, i as int);
            assert(prefix.drop_last() =~= self@.subrange(0, i - 1));
            if text_eq(self.vars[i - 1].0.as_str(), name) {
                return Some(self.vars[i - 1].1.clone());
            }
            i = i - 1;
        }
        None
    }
}

/// The secret that a session authenticates with.
#[derive(Clone, Debug)]
pub enum Credential {
    PrivateKeyPath(String),
    Password(String),
    Nothing,
}

pub enum CredentialView {
    PrivateKeyPath(Seq<char>),
    Password(Seq<char>),
    Nothing,
}

impl View for Credential {
    type V = CredentialView;

    open spec fn view(&self) -> CredentialView {
        match self {
            Credential::PrivateKeyPath(p) => CredentialView::PrivateKeyPath(p@),
            Credential::Password(p) => CredentialView::Password(p@),
            Credential::Nothing => CredentialView::Nothing,
        }
    }
}

/// Where to connect, as whom, and with what.
#[derive(Clone, Debug)]
pub struct ConnectionParams {
    pub host: String,
    pub port: u16,
    pub username: String,
    pub credential: Credential,
}

pub struct ParamsView {
    pub host: Seq<char>,
    pub port: u16,
    pub username: Seq<char>,
    pub credential: CredentialView,
}

impl View for ConnectionParams {
    type V = ParamsView;

    open spec fn view(&self) -> ParamsView {
        ParamsView {
            host: self.host@,
            port: self.port,
            username: self.username@,
            credential: self.credential@,
        }
    }
}

/// What an SSH client configuration says of one alias. Every field may be
/// absent.
#[derive(Clone, Debug)]
pub struct SshHostEntry {
    pub host_name: Option<String>,
    pub port: Option<u16>,
    pub user: Option<String>,
    pub identity_files: Vec<String>,
}

impl SshHostEntry {
    /// An entry that overrides nothing.
    pub fn empty() -> (r: SshHostEntry)
        ensures
            r.host_name is None,
            r.port is None,
            r.user is None,
            r.identity_files@.len() == 0,
    {
        SshHostEntry { host_name: None, port: None, user: None, identity_files: Vec::new() }
    }
}

// ---- the key path ----

/// Where the private key of a key-based declaration is, or why it cannot be
/// told.
pub open spec fn key_path_resolution(a: Authentication, env: Seq<(Seq<char>, Seq<char>)>) -> Result<Seq<char>, ErrorView> {
    match a.private_key_ref {
        None => Err(ErrorView::MissingPrivateKeyReference),
        Some(r) => match a.method {
            AuthenticationMethod::EnvKey => match lookup_in(env, r@) {
                Some(v) => Ok(v),
                None => Err(ErrorView::EnvVarNotFound(r@)),
            },
            AuthenticationMethod::PrivateKey => Ok(r@),
            _ => Err(ErrorView::AuthenticationFailed(unsupported_method_text())),
        },
    }
}

pub open spec fn unsupported_method_text() -> Seq<char> {
    "Unsupported authentication method for get_private_key_path"@
}

pub open spec fn text_outcome(r: Result<String, AppError>) -> Result<Seq<char>, ErrorView> {
    match outcome(r) {
        Ok(s) => Ok(s@),
        Err(e) => Err(e),
    }
}

/// The path of the private key: the reference itself for `PrivateKey`, the
/// value of the variable it names for `EnvKey`.
pub fn get_private_key_path(auth: &Authentication, env: &Environment) -> (r: Result<String, AppError>)
    ensures
        text_outcome(r) == key_path_resolution(*auth, env@),
{
    match &auth.private_key_ref {
        None => Err(AppError::MissingPrivateKeyReference),
        Some(key_ref) => match auth.method {
            AuthenticationMethod::EnvKey => match env.get(key_ref.as_str()) {
                Some(v) => Ok(v),
                None => Err(AppError::EnvVarNotFound(key_ref.clone())),
            },
            AuthenticationMethod::PrivateKey => Ok(key_ref.clone()),
            _ => Err(AppError::AuthenticationFailed(
                String::from_str("Unsupported authentication method for get_private_key_path"),
            )),
        },
    }
}

// ---- paths ----

/// Whether `Path::is_relative` holds of a text.
pub uninterp spec fn relative_path(p: Seq<char>) -> bool;

/// What `Path::join` makes of a base and a further path.
pub uninterp spec fn joined_path(base: Seq<char>, rest: Seq<char>) -> Seq<char>;

/// Relies on `std::path::Path::is_relative`: the answer depends on the text
/// alone.
#[verifier::external_body]
fn is_relative_path(p: &str) -> (r: bool)
    ensures
        r == relative_path(p@),
{
    std::path::Path::new(p).is_relative()
}

/// Relies on `std::path::Path::join`: the joined path depends on the two
/// texts alone, and joining two UTF-8 texts gives UTF-8 text.
#[verifier::external_body]
fn join_path(base: &str, rest: &str) -> (r: String)
    ensures
        r@ == joined_path(base@, rest@),
{
    std::path::Path::new(base).join(rest).to_string_lossy().into_owned()
}

/// The key file that an SSH configuration entry names: its first identity
/// file, taken from the home directory when relative. `Ok(None)` when it
/// names none.
pub open spec fn identity_resolution(entry: SshHostEntry, home: Option<Seq<char>>) -> Result<Option<Seq<char>>, ErrorView> {
    if entry.identity_files@.len() == 0 {
        Ok(None)
    } else {
        let first = entry.identity_files@[0]@;
        if !relative_path(first) {
            Ok(Some(first))
        } else {
            match home {
                None => Err(ErrorView::Validation(no_home_text())),
                Some(h) => Ok(Some(joined_path(h, first))),
            }
        }
    }
}

pub open spec fn no_home_text() -> Seq<char> {
    "No home dir found for resolving relative path"@
}

fn resolve_identity(entry: &SshHostEntry, home: &Option<String>) -> (r: Result<Option<String>, AppError>)
    ensures
        match (r, identity_resolution(*entry, opt_view(*home))) {
            (Ok(Some(p)), Ok(Some(q))) => p@ == q,
            (Ok(None), Ok(None)) => true,
            (Err(e), Err(f)) => crate::error::error_view(e) == f,
            _ => false,
        },
{
    if entry.identity_files.len() == 0 {
        return Ok(None);
    }
    let first = &entry.identity_files[0];
    if !is_relative_path(first.as_str()) {
        return Ok(Some(first.clone()));
    }
    match home {
        None => Err(AppError::Validation(String::from_str("No home dir found for resolving relative path"))),
        Some(h) => Ok(Some(join_path(h.as_str(), first.as_str()))),
    }
}

pub open spec fn opt_view(o: Option<String>) -> Option<Seq<char>> {
    match o {
        Some(s) => Some(s@),
        None => None,
    }
}

// ---- the alias override ----

/// The host, port and user after an SSH configuration entry overrides the
/// declared ones: the entry wins, the declaration is the fallback, and
/// `localhost`, 22 and the declared username come last.
pub open spec fn merged_host(declared: Option<Seq<char>>, entry: SshHostEntry) -> Seq<char> {
    match entry.host_name {
        Some(h) => h@,
        None => match declared {
            Some(h) => h,
            None => "localhost"@,
        },
    }
}

pub open spec fn merged_port(declared: Option<u16>, entry: SshHostEntry) -> u16 {
    match entry.port {
        Some(p) => p,
        None => match declared {
            Some(p) => p,
            None => 22,
        },
    }
}

pub open spec fn merged_user(declared: Seq<char>, entry: SshHostEntry) -> Seq<char> {
    match entry.user {
        Some(u) => u@,
        None => declared,
    }
}

/// Merges what an SSH configuration entry says over the declared host, port
/// and username.
pub fn merge_ssh_entry(
    declared_host: &Option<String>,
    declared_port: Option<u16>,
    username: &String,
    entry: &SshHostEntry,
) -> (r: (String, u16, String))
    ensures
        r.0@ == merged_host(opt_view(*declared_host), *entry),
        r.1 == merged_port(declared_port, *entry),
        r.2@ == merged_user(username@, *entry),
{
    let host = match &entry.host_name {
        Some(h) => h.clone(),
        None => match declared_host {
            Some(h) => h.clone(),
            None => String::from_str("localhost"),
        },
    };
    let port = match entry.port {
        Some(p) => p,
        None => match declared_port {
            Some(p) => p,
            None => 22,
        },
    };
    let user = match &entry.user {
        Some(u) => u.clone(),
        None => username.clone(),
    };
    (host, port, user)
}

// ---- the resolver ----

pub open spec fn password_text(a: Authentication, env: Seq<(Seq<char>, Seq<char>)>) -> CredentialView {
    match a.password_ref {
        None => CredentialView::Nothing,
        Some(r) => match lookup_in(env, r@) {
            Some(v) => CredentialView::Password(v),
            None => CredentialView::Password(Seq::empty()),
        },
    }
}

/// The connection parameters that a declaration resolves to.
///
/// `Password` reads the variable that `passwordRef` names, an unset one
/// reading as the empty password; `PrivateKey` and `EnvKey` resolve the key
/// path; `SshConfig` lets the configuration entry override host, port and
/// user and takes its first identity file as the key.
pub open spec fn resolution(
    auth: Option<Authentication>,
    declared_host: Option<Seq<char>>,
    declared_port: Option<u16>,
    env: Seq<(Seq<char>, Seq<char>)>,
    entry: SshHostEntry,
    home: Option<Seq<char>>,
) -> Result<ParamsView, ErrorView> {
    let host = match declared_host {
        Some(h) => h,
        None => "localhost"@,
    };
    let port = match declared_port {
        Some(p) => p,
        None => 22u16,
    };
    match auth {
        None => Err(ErrorView::AuthenticationFailed("Missing auth"@)),
        Some(a) => match a.method {
            AuthenticationMethod::Password => Ok(ParamsView {
                host,
                port,
                username: a.username@,
                credential: password_text(a, env),
            }),
            AuthenticationMethod::PrivateKey | AuthenticationMethod::EnvKey => match key_path_resolution(a, env) {
                Err(e) => Err(e),
                Ok(p) => Ok(ParamsView { host, port, username: a.username@, credential: CredentialView::PrivateKeyPath(p) }),
            },
            AuthenticationMethod::SshConfig => if a.ssh_config_alias is None {
                Err(ErrorView::Validation("sshConfigAlias is required for SshConfig method"@))
            } else {
                match identity_resolution(entry, home) {
                    Err(e) => Err(e),
                    Ok(key) => Ok(ParamsView {
                        host: merged_host(declared_host, entry),
                        port: merged_port(declared_port, entry),
                        username: merged_user(a.username@, entry),
                        credential: match key {
                            Some(k) => CredentialView::PrivateKeyPath(k),
                            None => CredentialView::Nothing,
                        },
                    }),
                }
            },
        },
    }
}

pub open spec fn params_outcome(r: Result<ConnectionParams, AppError>) -> Result<ParamsView, ErrorView> {
    match outcome(r) {
        Ok(p) => Ok(p@),
        Err(e) => Err(e),
    }
}

/// Resolves a declaration into connection parameters. `env` holds the
/// process environment, `entry` what the SSH configuration says of the
/// declared alias (consulted for `SshConfig` only), and `home` the user's
/// home directory.
pub fn resolve_connection(
    auth: &Option<Authentication>,
    declared_host: &Option<String>,
    declared_port: Option<u16>,
    env: &Environment,
    entry: &SshHostEntry,
    home: &Option<String>,
) -> (r: Result<ConnectionParams, AppError>)
    ensures
        params_outcome(r) == resolution(*auth, opt_view(*declared_host), declared_port, env@, *entry, opt_view(*home)),
{
    let a = match auth {
        None => {
            return Err(AppError::AuthenticationFailed(String::from_str("Missing auth")));
        },
        Some(a) => a,
    };
    let host = match declared_host {
        Some(h) => h.clone(),
        None => String::from_str("localhost"),
    };
    let port: u16 = match declared_port {
        Some(p) => p,
        None => 22,
    };
    match a.method {
        AuthenticationMethod::Password => {
            let credential = match &a.password_ref {
                None => Credential::Nothing,
                Some(r) => match env.get(r.as_str()) {
                    Some(v) => Credential::Password(v),
                    None => Credential::Password(String::new()),
                },
            };
            Ok(ConnectionParams { host, port, username: a.username.clone(), credential })
        },
        AuthenticationMethod::PrivateKey | AuthenticationMethod::EnvKey => {
            match get_private_key_path(a, env) {
                Err(e) => Err(e),
                Ok(p) => Ok(ConnectionParams {
                    host,
                    port,
                    username: a.username.clone(),
                    credential: Credential::PrivateKeyPath(p),
                }),
            }
        },
        AuthenticationMethod::SshConfig => {
            if a.ssh_config_alias.is_none() {
                return Err(AppError::Validation(
                    String::from_str("sshConfigAlias is required for SshConfig method"),
                ));
            }
            let key = match resolve_identity(entry, home) {
                Err(e) => {
                    return Err(e);
                },
                Ok(k) => k,
            };
            let (host, port, username) = merge_ssh_entry(declared_host, declared_port, &a.username, entry);
            let credential = match key {
                Some(k) => Credential::PrivateKeyPath(k),
                None => Credential::Nothing,
            };
            Ok(ConnectionParams { host, port, username, credential })
        },
    }
}

// ---- authenticating a session ----

/// The one authentication a session attempts.
#[derive(Clone, Debug)]
pub enum AuthAttempt {
    PublicKey { username: String, key_path: String },
    Password { username: String, password: String },
}

/// Picks the authentication for resolved parameters: by key when a key path
/// was resolved, else by password when one was, else none can be made.
pub fn plan_authentication(params: &ConnectionParams) -> (r: Result<AuthAttempt, AppError>)
    ensures
        match (params.credential, r) {
            (Credential::PrivateKeyPath(k), Ok(AuthAttempt::PublicKey { username, key_path })) =>
                username@ == params.username@ && key_path@ == k@,
            (Credential::Password(p), Ok(AuthAttempt::Password { username, password })) =>
                username@ == params.username@ && password@ == p@,
            (Credential::Nothing, Err(e)) =>
                crate::error::error_view(e) == ErrorView::AuthenticationFailed("No auth method resolved"@),
            _ => false,
        },
{
    match &params.credential {
        Credential::PrivateKeyPath(k) => Ok(AuthAttempt::PublicKey {
            username: params.username.clone(),
            key_path: k.clone(),
        }),
        Credential::Password(p) => Ok(AuthAttempt::Password {
            username: params.username.clone(),
            password: p.clone(),
        }),
        Credential::Nothing => Err(AppError::AuthenticationFailed(String::from_str("No auth method resolved"))),
    }
}

/// Accepts a session after its authentication call only if the session
/// reports itself authenticated.
pub fn confirm_authenticated(protocol: ProtocolType, authenticated: bool) -> (r: Result<(), AppError>)
    ensures
        authenticated <==> r is Ok,
        !authenticated ==> outcome(r) == Err::<(), ErrorView>(
            ErrorView::AuthenticationFailed(protocol_type_name(protocol) + " authentication failed"@),
        ),
{
    if authenticated {
        Ok(())
    } else {
        let name = protocol.to_string();
        Err(AppError::AuthenticationFailed(join2(name.as_str(), " authentication failed")))
    }
}

// ---- laws of resolution ----

/// A variable set last reads back as the value it was set to.
pub proof fn lemma_lookup_after_set(env: Seq<(Seq<char>, Seq<char>)>, name: Seq<char>, value: Seq<char>)
    ensures
        lookup_in(env.push((name, value)), name) == Some(value),
{
}

/// A `PrivateKey` declaration without a key reference fails to resolve with
/// `MissingPrivateKeyReference`, whatever else is given.
pub proof fn lemma_private_key_needs_reference(
    a: Authentication,
    declared_host: Option<Seq<char>>,
    declared_port: Option<u16>,
    env: Seq<(Seq<char>, Seq<char>)>,
    entry: SshHostEntry,
    home: Option<Seq<char>>,
)
    requires
        a.method == AuthenticationMethod::PrivateKey,
        a.private_key_ref is None,
    ensures
        key_path_resolution(a, env) == Err::<Seq<char>, ErrorView>(ErrorView::MissingPrivateKeyReference),
        resolution(Some(a), declared_host, declared_port, env, entry, home)
            == Err::<ParamsView, ErrorView>(ErrorView::MissingPrivateKeyReference),
{
}

/// An `EnvKey` declaration resolves to exactly the value of the variable its
/// reference names.
pub proof fn lemma_env_key_reads_variable(a: Authentication, env: Seq<(Seq<char>, Seq<char>)>, value: Seq<char>)
    requires
        a.method == AuthenticationMethod::EnvKey,
        a.private_key_ref is Some,
        lookup_in(env, a.private_key_ref->Some_0@) == Some(value),
    ensures
        key_path_resolution(a, env) == Ok::<Seq<char>, ErrorView>(value),
{
}

} // verus!
