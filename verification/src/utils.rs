//! Path derivation for the application's files, and the wall clock.
//!
//! Every file of the application — settings, cache store, log — lives under
//! one base directory, which is an explicit parameter here, so callers and
//! tests can point the cache at any directory.

use vstd::prelude::*;
use vstd::string::StringExecFns;

verus! {

/// Joins `relative_path` onto a base directory with a `/` separator.
pub fn path_to(base_dir: &str, relative_path: &str) -> (r: String)
    ensures
        r@ == base_dir@ + "/"@ + relative_path@,
{
    let mut r = base_dir.to_owned();
    r.append("/");
    r.append(relative_path);
    r
}

/// The settings file, `settings.json`, under the base directory.
pub fn settings_path(base_dir: &str) -> (r: String)
    ensures
        r@ == base_dir@ + "/"@ + "settings.json"@,
{
    path_to(base_dir, "settings.json")
}

/// The cache store's directory, `cache`, under the base directory.
pub fn cache_path(base_dir: &str) -> (r: String)
    ensures
        r@ == base_dir@ + "/"@ + "cache"@,
{
    path_to(base_dir, "cache")
}

/// The log file, `output.log`, under the base directory.
pub fn log_path(base_dir: &str) -> (r: String)
    ensures
        r@ == base_dir@ + "/"@ + "output.log"@,
{
    path_to(base_dir, "output.log")
}

/// Relies on `std::time::SystemTime::now`: milliseconds since the Unix epoch.
/// The clock is outside the program; nothing is promised of the value.
#[verifier::external_body]
pub fn get_unix_msec() -> u64 {
    match std::time::SystemTime::now().duration_since(std::time::UNIX_EPOCH) {
        Ok(d) => d.as_millis() as u64,
        Err(_) => 0,
    }
}

} // verus!
