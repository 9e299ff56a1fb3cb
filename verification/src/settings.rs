//! Application configuration: the list of browsers to show and the cache's
//! time-to-live. Reading and writing the settings file is the caller's
//! business; the library holds the values themselves.

use vstd::prelude::*;

verus! {

/// Configuration of one browser: a display name, the executable's path,
/// and extra command-line arguments.
#[derive(Clone, PartialEq, Eq, Debug)]
pub struct BrowserInfo {
    pub name: String,
    pub path: String,
    pub cmd: Vec<String>,
}

/// The application's settings.
#[derive(Clone, PartialEq, Eq, Debug)]
pub struct Settings {
    pub browsers: Vec<BrowserInfo>,
    pub cols: usize,
    pub rows: usize,
    pub cache_expire_days: usize,
}

impl Default for Settings {
    /// The default configuration: no browsers, a 3-by-2 grid, cache
    /// entries kept seven days.
    fn default() -> (r: Self)
        ensures
            r.browsers@.len() == 0,
            r.cols == 3,
            r.rows == 2,
            r.cache_expire_days == 7,
    {
        Settings { browsers: Vec::new(), cols: 3, rows: 2, cache_expire_days: 7 }
    }
}

/// The command to run for a chosen browser: its executable and arguments.
#[derive(Clone, PartialEq, Eq, Debug)]
pub struct BrowserExec {
    pub path: String,
    pub cmd: Vec<String>,
}

} // verus!
