use spt::cache::{
    get_command_progress_data_from_cache, ACCOUNTS_GET_CACHE_FILENAME, ACCOUNTS_SET_CACHE_FILENAME,
};

#[test]
fn progress_is_taken_up_only_on_resume() {
    assert_eq!(get_command_progress_data_from_cache(true, Some(3), 0), 3);
    assert_eq!(get_command_progress_data_from_cache(true, None, 0), 0);
    assert_eq!(get_command_progress_data_from_cache(false, Some(3), 0), 0);
    assert_eq!(get_command_progress_data_from_cache(false, None, 0), 0);
    assert_eq!(ACCOUNTS_SET_CACHE_FILENAME, "accounts-set.cache");
    assert_eq!(ACCOUNTS_GET_CACHE_FILENAME, "accounts-get.cache");
}
