//! The configuration of the server: what the environment sets, and the
//! defaults for what it does not.

use vstd::prelude::*;
use vstd::string::StringExecFns;

verus! {

/// The directory of the front end's files.
pub const WWW_DIR: &'static str = "./build";

pub const SERVER_PORT: &'static str = "8099";

pub const SERVER_HOST: &'static str = "0.0.0.0";

/// The token that is accepted where none is configured.
pub const API_FIXED_SECRET: &'static str = "123456789";

/// The directory of the persisted artifacts.
pub const TIME_SHEET_DIR: &'static str = "./data";

/// A configured value, or the default where none is configured.
pub open spec fn or_default(value: Option<String>, default: Seq<char>) -> Seq<char> {
    match value {
        Some(text) => text@,
        None => default,
    }
}

/// The value of a setting: the configured one, or the default.
pub fn setting(value: Option<String>, default: &str) -> (text: String)
    ensures
        text@ == or_default(value, default@),
{
    match value {
        Some(text) => text,
        None => String::from_str(default),
    }
}

/// The server's configuration from the values of the environment variables
/// `SERVER_PORT`, `SERVER_HOST`, `SERVER_SECRET`, `TIME_SHEET_DIR` and
/// `WWW_DIR`, in this order: port, host, secret, data directory and
/// front-end directory, each with its default where the variable is not set.
pub fn from_env(
    port: Option<String>,
    host: Option<String>,
    secret: Option<String>,
    timesheet_dir: Option<String>,
    www_dir: Option<String>,
) -> (config: (String, String, String, String, String))
    ensures
        config.0@ == or_default(port, SERVER_PORT@),
        config.1@ == or_default(host, SERVER_HOST@),
        config.2@ == or_default(secret, API_FIXED_SECRET@),
        config.3@ == or_default(timesheet_dir, TIME_SHEET_DIR@),
        config.4@ == or_default(www_dir, WWW_DIR@),
{
    (
        setting(port, SERVER_PORT),
        setting(host, SERVER_HOST),
        setting(secret, API_FIXED_SECRET),
        setting(timesheet_dir, TIME_SHEET_DIR),
        setting(www_dir, WWW_DIR),
    )
}

/// The address that the server listens on: host, a colon, and port.
pub fn listen_address(host: &str, port: &str) -> (address: String)
    ensures
        address@ == host@ + ":"@ + port@,
{
    String::from_str(host).concat(":").concat(port)
}

} // verus!
