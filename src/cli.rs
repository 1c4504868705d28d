//! The commands of the program and the choice of the profile to run.

use crate::error::{outcome, AppError, ErrorView};
use crate::profile::{Profile, TransferProfile};
use crate::text::{join3, text_eq};
use vstd::prelude::*;

verus! {

/// What the program was asked to do.
#[derive(Clone, Debug)]
pub enum Commands {
    /// Run the transfer job with this id.
    Transfer { profile_id: String },
    /// Open the settings and profile editor.
    Admin,
}

/// The parsed command line.
#[derive(Clone, Debug)]
pub struct Cli {
    /// A settings file to read instead of the default one.
    pub config: Option<String>,
    pub command: Commands,
}

/// Whether no job before `n` in `jobs` has the id `id`.
pub open spec fn absent_before(jobs: Seq<TransferProfile>, id: Seq<char>, n: int) -> bool {
    forall|k: int| 0 <= k < n ==> (#[trigger] jobs[k]).profile_id@ != id
}

pub open spec fn not_found_text(id: Seq<char>) -> Seq<char> {
    "Profile '"@ + id + "' not found in config.yaml"@
}

/// Takes out of the store the first job whose id is `id`.
pub fn find_profile(profiles: Profile, id: &str) -> (r: Result<TransferProfile, AppError>)
    ensures
        r matches Ok(p) ==> exists|k: int|
            0 <= k < profiles.transfer_profiles@.len() && profiles.transfer_profiles@[k] == p
                && absent_before(profiles.transfer_profiles@, id@, k) && p.profile_id@ == id@,
        r is Err ==> absent_before(profiles.transfer_profiles@, id@, profiles.transfer_profiles@.len() as int)
            && outcome(r) == Err::<TransferProfile, ErrorView>(ErrorView::Validation(not_found_text(id@))),
{
    let mut jobs = profiles.transfer_profiles;
    let n = jobs.len();
    let mut i: usize = 0;
    while i < n
        invariant
            jobs@ == profiles.transfer_profiles@,
            n == jobs@.len(),
            i <= n,
            absent_before(jobs@, id@, i as int),
        decreases n - i,
    {
        if text_eq(jobs[i].profile_id.as_str(), id) {
            let ghost before = jobs@;
            let p = jobs.swap_remove(i);
            assert(before[i as int] == p);
            return Ok(p);
        }
        i = i + 1;
    }
    Err(AppError::Validation(join3("Profile '", id, "' not found in config.yaml")))
}

} // verus!
