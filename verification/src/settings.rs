use vstd::prelude::*;

use vstd::string::StringExecFns;

verus! {

/// The three values the configuration source must supply before the watcher
/// may start: the remote endpoint, the API credential, and the local
/// installation directory.
#[derive(Debug)]
pub struct Settings {
    pub backend_api_key: String,
    pub sts_directory: String,
    pub server_addr: String,
}

/// A required configuration value that the configuration source did not
/// supply. Each variant names one missing key; finding one is a fatal
/// startup error.
#[derive(Clone, Copy, Debug, PartialEq, Eq, Structural)]
pub enum SettingsError {
    MissingApiKey,
    MissingStsDirectory,
    MissingServerAddr,
}

/// The message text owed for each missing-setting error, naming the key.
pub open spec fn spec_message(e: SettingsError) -> Seq<char> {
    match e {
        SettingsError::MissingApiKey => "Missing setting `backend_api_key`"@,
        SettingsError::MissingStsDirectory => "Missing setting `sts_directory`"@,
        SettingsError::MissingServerAddr => "Missing setting `server_addr`"@,
    }
}

impl SettingsError {
    /// The human-readable error message, naming the missing key.
    pub fn message(&self) -> (m: String)
        ensures
            m@ == spec_message(*self),
    {
        match self {
            SettingsError::MissingApiKey => {
                String::from_str("Missing setting `backend_api_key`")
            },
            SettingsError::MissingStsDirectory => {
                String::from_str("Missing setting `sts_directory`")
            },
            SettingsError::MissingServerAddr => {
                String::from_str("Missing setting `server_addr`")
            },
        }
    }
}

/// Assemble the startup settings from the optional values the configuration
/// source produced for the three required keys. Succeeds exactly when all
/// three are present, carrying them through unchanged; otherwise reports the
/// first missing key, checked in the order API key, installation directory,
/// server address.
pub fn build_settings(
    backend_api_key: Option<String>,
    sts_directory: Option<String>,
    server_addr: Option<String>,
) -> (r: Result<Settings, SettingsError>)
    ensures
        r is Ok <==> (backend_api_key is Some && sts_directory is Some && server_addr is Some),
        r matches Ok(s) ==> {
            &&& backend_api_key matches Some(k) && s.backend_api_key == k
            &&& sts_directory matches Some(d) && s.sts_directory == d
            &&& server_addr matches Some(a) && s.server_addr == a
        },
        backend_api_key is None ==> r == Result::<Settings, SettingsError>::Err(
            SettingsError::MissingApiKey,
        ),
        backend_api_key is Some && sts_directory is None ==> r == Result::<
            Settings,
            SettingsError,
        >::Err(SettingsError::MissingStsDirectory),
        backend_api_key is Some && sts_directory is Some && server_addr is None ==> r == Result::<
            Settings,
            SettingsError,
        >::Err(SettingsError::MissingServerAddr),
{
    let backend_api_key = match backend_api_key {
        Some(k) => k,
        None => {
            return Err(SettingsError::MissingApiKey);
        },
    };
    let sts_directory = match sts_directory {
        Some(d) => d,
        None => {
            return Err(SettingsError::MissingStsDirectory);
        },
    };
    let server_addr = match server_addr {
        Some(a) => a,
        None => {
            return Err(SettingsError::MissingServerAddr);
        },
    };
    Ok(Settings { backend_api_key, sts_directory, server_addr })
}

} // verus!
