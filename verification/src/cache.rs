//! Where the progress of a run is kept and when it is taken up again.

use vstd::prelude::*;

verus! {

/// The file that a provisioning run saves its progress to.
pub const ACCOUNTS_SET_CACHE_FILENAME: &'static str = "accounts-set.cache";

/// The file that a discovery run saves its progress to.
pub const ACCOUNTS_GET_CACHE_FILENAME: &'static str = "accounts-get.cache";

/// The progress that a run starts from: what was saved, if the run is to
/// resume and something could be loaded, and the fallback otherwise.
pub open spec fn progress_to_start_from<T>(
    resume_option: bool,
    cached: Option<T>,
    fallback_value: T,
) -> T {
    if resume_option && cached is Some {
        cached->0
    } else {
        fallback_value
    }
}

/// Chooses the progress that a run starts from.
pub fn get_command_progress_data_from_cache<T>(
    resume_option: bool,
    cached: Option<T>,
    fallback_value: T,
) -> (data: T)
    ensures
        data == progress_to_start_from(resume_option, cached, fallback_value),
{
    if resume_option {
        match cached {
            Some(data) => data,
            None => fallback_value,
        }
    } else {
        fallback_value
    }
}

} // verus!
