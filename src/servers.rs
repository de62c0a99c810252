use vstd::prelude::*;
use crate::names::{executable_name, underscored};
use crate::platform::AssetScheme;
use crate::resolver::ServerProfile;

verus! {

/// The Erlang Language Platform server (`elp`), with its cached executable path.
pub struct ErlangLanguagePlatform {
    pub profile: ServerProfile,
    pub cached_binary_path: Option<String>,
}

impl ErlangLanguagePlatform {
    pub const LANGUAGE_SERVER_ID: &'static str = "elp";

    pub fn new() -> (r: Self)
        ensures
            r.cached_binary_path is None,
            r.profile.server_id@ == "elp"@,
            r.profile.binary_name@ == "elp"@,
            r.profile.asset_stem@ == "elp"@,
            r.profile.repository@ == "WhatsApp/erlang-language-platform"@,
            r.profile.scheme == AssetScheme::OsArchTarget,
            r.profile.default_args@.len() == 1,
            r.profile.default_args@[0]@ == "server"@,
            r.profile.default_otp@ == "28"@,
            r.profile.windows_otp is None,
    {
        ErlangLanguagePlatform {
            profile: ServerProfile {
                server_id: String::from_str("elp"),
                binary_name: String::from_str("elp"),
                asset_stem: String::from_str("elp"),
                repository: String::from_str("WhatsApp/erlang-language-platform"),
                scheme: AssetScheme::OsArchTarget,
                default_args: vec![String::from_str("server")],
                default_otp: String::from_str("28"),
                windows_otp: None,
            },
            cached_binary_path: None,
        }
    }
}

/// The erlang_ls server, with its cached executable path.
pub struct ErlangLs {
    pub profile: ServerProfile,
    pub cached_binary_path: Option<String>,
}

impl ErlangLs {
    pub const LANGUAGE_SERVER_ID: &'static str = "erlang-ls";

    pub fn new() -> (r: Self)
        ensures
            r.cached_binary_path is None,
            r.profile.server_id@ == "erlang-ls"@,
            r.profile.binary_name@ == underscored("erlang-ls"@),
            r.profile.asset_stem@ == underscored("erlang-ls"@),
            r.profile.repository@ == "erlang-ls/erlang_ls"@,
            r.profile.scheme == AssetScheme::OsOnly,
            r.profile.default_args@.len() == 2,
            r.profile.default_args@[0]@ == "--transport"@,
            r.profile.default_args@[1]@ == "stdio"@,
            r.profile.default_otp@ == "27"@,
            r.profile.windows_otp is Some,
            r.profile.windows_otp->0@ == "26.2.5.3"@,
    {
        let binary_name = executable_name("erlang-ls");
        ErlangLs {
            profile: ServerProfile {
                server_id: String::from_str("erlang-ls"),
                asset_stem: binary_name.clone(),
                binary_name,
                repository: String::from_str("erlang-ls/erlang_ls"),
                scheme: AssetScheme::OsOnly,
                default_args: vec![String::from_str("--transport"), String::from_str("stdio")],
                default_otp: String::from_str("27"),
                windows_otp: Some(String::from_str("26.2.5.3")),
            },
            cached_binary_path: None,
        }
    }
}

} // verus!
