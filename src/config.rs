//! Application settings and the file-size ceiling that every transfer reads.

use crate::error::{outcome, AppError, ErrorView};
use crate::text::{decimal_text, join3, u64_decimal};
use vstd::prelude::*;

verus! {

/// The largest ceiling that may be configured, in megabytes.
pub const MAX_ALLOWED_MB: u64 = 2048;

/// The ceiling taken when the settings name none, in megabytes.
pub const DEFAULT_MAX_FILE_SIZE_MB: u64 = 500;

/// Application settings, every one optional.
#[derive(Clone, Debug)]
pub struct AppConfig {
    pub default_profile_file: Option<String>,
    pub log_level: Option<String>,
    pub log_file: Option<String>,
    pub log_stdout: Option<bool>,
    pub max_file_size_mb: Option<u64>,
}

/// The maximum size of a transferred file, in megabytes; never above
/// `MAX_ALLOWED_MB`. It is set once and handed to every transfer.
#[derive(Clone, Copy, Debug)]
pub struct FileSizeLimit {
    mb: u64,
}

impl FileSizeLimit {
    pub closed spec fn spec_mb(&self) -> u64 {
        self.mb
    }

    pub open spec fn wf(&self) -> bool {
        self.spec_mb() <= MAX_ALLOWED_MB
    }

    /// The ceiling in bytes.
    pub open spec fn spec_bytes(&self) -> nat {
        self.spec_mb() as nat * 1024 * 1024
    }
}

pub open spec fn too_large_text(val: u64) -> Seq<char> {
    "max_file_size_mb must not exceed 2048MB (got: "@ + decimal_text(val as nat) + "MB)"@
}

/// Makes the ceiling from a configured value in megabytes, refusing one
/// above `MAX_ALLOWED_MB`.
pub fn init_max_file_size_mb(val: u64) -> (r: Result<FileSizeLimit, AppError>)
    ensures
        r is Ok <==> val <= MAX_ALLOWED_MB,
        r matches Ok(l) ==> l.spec_mb() == val && l.wf(),
        r is Err ==> outcome(r) == Err::<FileSizeLimit, ErrorView>(ErrorView::Validation(too_large_text(val))),
{
    if val > MAX_ALLOWED_MB {
        let got = u64_decimal(val);
        return Err(AppError::Validation(join3(
            "max_file_size_mb must not exceed 2048MB (got: ",
            got.as_str(),
            "MB)",
        )));
    }
    Ok(FileSizeLimit { mb: val })
}

/// The ceiling in megabytes.
pub fn get_max_file_size_mb(limit: &FileSizeLimit) -> (r: u64)
    ensures
        r == limit.spec_mb(),
{
    limit.mb
}

impl AppConfig {
    /// The ceiling the settings ask for, `DEFAULT_MAX_FILE_SIZE_MB` when they
    /// name none.
    pub fn max_file_size_or_default(&self) -> (r: u64)
        ensures
            r == match self.max_file_size_mb {
                Some(v) => v,
                None => DEFAULT_MAX_FILE_SIZE_MB,
            },
    {
        match self.max_file_size_mb {
            Some(v) => v,
            None => DEFAULT_MAX_FILE_SIZE_MB,
        }
    }
}

} // verus!
