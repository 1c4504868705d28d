//! Declarative file-transfer jobs between a local filesystem and a remote
//! host: the profile model and its validation, credential resolution, size
//! limits, and the sequencing of hooks around a transfer.

pub mod admin;
pub mod auth;
pub mod cli;
pub mod config;
pub mod error;
pub mod orchestrator;
pub mod profile;
pub mod text;
pub mod transfer;
pub mod validator;

pub use error::AppError;
pub use validator::{validate_ascii, validate_cross_platform_path, PathRuleError};
pub use profile::{
    Authentication, AuthenticationMethod, Destination, DestinationType, Profile, ProtocolType,
    Source, SourceType, TransferProfile, TransferProtocol, Trigger, TriggerType,
};
pub use auth::{
    confirm_authenticated, get_private_key_path, merge_ssh_entry, plan_authentication,
    resolve_connection, AuthAttempt, ConnectionParams, Credential,
    Environment, SshHostEntry,
};
pub use config::{
    get_max_file_size_mb, init_max_file_size_mb, AppConfig, FileSizeLimit, MAX_ALLOWED_MB,
};
pub use transfer::{
    check_file_size, remote_endpoint, select_direction, transfer_paths, CopyProgress, CopyStep,
    Direction, DEFAULT_BUFFER_SIZE,
};
pub use orchestrator::{advance, begin, Action, Event, JobType, Stage};
pub use cli::{find_profile, Cli, Commands};
pub use admin::{handle_key_event, AdminMode, AdminState, EditState, EditorEffect, InputField, Key, UiState};
