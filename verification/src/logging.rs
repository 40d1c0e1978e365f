//! Where the client writes its log, and how the log rotates.
use vstd::prelude::*;

verus! {

/// File names of the rotated log start with this.
pub const LOG_FILE_PREFIX: &'static str = "wazuh-agent-status-client";

/// File names of the rotated log end with this.
pub const LOG_FILE_SUFFIX: &'static str = "log";

/// How many rotated log files are kept.
pub const MAX_LOG_FILES: usize = 30;

/// The log directory used when the log file's path has no parent.
pub const FALLBACK_LOG_DIR: &'static str = "./logs";

/// The log filter used when the environment sets none.
pub const DEFAULT_LOG_FILTER: &'static str = "info";

/// The home directory: `HOME`, else `USERPROFILE`, else the current directory.
pub open spec fn home_dir(home: Option<Seq<char>>, user_profile: Option<Seq<char>>) -> Seq<char> {
    match home {
        Some(h) => h,
        None => match user_profile {
            Some(u) => u,
            None => "."@,
        },
    }
}

/// The log file's path for a home directory; on Windows it lies under
/// `APPDATA` (by default the roaming application data of the home directory).
pub open spec fn log_path(home: Seq<char>, is_windows: bool, app_data: Option<Seq<char>>) -> Seq<char> {
    if is_windows {
        let base = match app_data {
            Some(a) => a,
            None => home + "\\AppData\\Roaming"@,
        };
        base + "\\wazuh\\logs\\wazuh-agent-status-client.log"@
    } else {
        home + "/.wazuh/wazuh-agent-status-client.log"@
    }
}

/// The value of an optional string.
pub open spec fn opt_view(s: Option<&str>) -> Option<Seq<char>> {
    match s {
        Some(t) => Some(t@),
        None => None,
    }
}

/// The home directory from the values of `HOME` and `USERPROFILE` (`None` when unset).
pub fn resolve_home(home: Option<&str>, user_profile: Option<&str>) -> (r: String)
    ensures
        r@ == home_dir(opt_view(home), opt_view(user_profile)),
{
    match home {
        Some(h) => String::from_str(h),
        None => match user_profile {
            Some(u) => String::from_str(u),
            None => String::from_str("."),
        },
    }
}

/// Get the log file path based on the operating system.
pub fn get_log_file_path(home: &str, is_windows: bool, app_data: Option<&str>) -> (r: String)
    ensures
        r@ == log_path(home@, is_windows, opt_view(app_data)),
{
    if is_windows {
        let base = match app_data {
            Some(a) => String::from_str(a),
            None => String::from_str(home).concat("\\AppData\\Roaming"),
        };
        base.concat("\\wazuh\\logs\\wazuh-agent-status-client.log")
    } else {
        String::from_str(home).concat("/.wazuh/wazuh-agent-status-client.log")
    }
}

} // verus!
