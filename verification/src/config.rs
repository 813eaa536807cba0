//! Account settings and the platform directories they live under. Reading
//! and writing the settings file itself is the surrounding program's work;
//! here stand the settings values and every decision taken over them.

use vstd::prelude::*;
use vstd::string::*;

verus! {

/// The persisted account settings: where the server is, who signs in, and
/// the local proxy and player overrides.
pub struct Config {
    pub domain: String,
    pub username: String,
    pub password: String,
    pub port: String,
    pub user_id: String,
    pub access_token: String,
    pub proxy: String,
    pub mpv: String,
}

/// The server coordinates one request needs.
pub struct ServerInfo {
    pub domain: String,
    pub user_id: String,
    pub access_token: String,
    pub port: String,
}

impl Config {
    /// The configuration a successful sign-in persists: the credentials the
    /// caller supplied plus the identifiers the server answered with, with
    /// no proxy and no player override yet.
    pub fn with_credentials(
        domain: String,
        username: String,
        password: String,
        port: String,
        user_id: String,
        access_token: String,
    ) -> (c: Config)
        ensures
            c.domain@ == domain@,
            c.username@ == username@,
            c.password@ == password@,
            c.port@ == port@,
            c.user_id@ == user_id@,
            c.access_token@ == access_token@,
            c.proxy@.len() == 0,
            c.mpv@.len() == 0,
    {
        Config {
            domain,
            username,
            password,
            port,
            user_id,
            access_token,
            proxy: String::new(),
            mpv: String::new(),
        }
    }

    /// Whether a proxy is configured at all; the empty setting means none.
    pub fn has_proxy(&self) -> (b: bool)
        ensures
            b == (self.proxy@.len() != 0),
    {
        !self.proxy.as_str().is_empty()
    }
}

/// The server coordinates, copied out of the settings.
pub fn get_server_info(config: &Config) -> (s: ServerInfo)
    ensures
        s.domain@ == config.domain@,
        s.user_id@ == config.user_id@,
        s.access_token@ == config.access_token@,
        s.port@ == config.port@,
{
    ServerInfo {
        domain: config.domain.clone(),
        user_id: config.user_id.clone(),
        access_token: config.access_token.clone(),
        port: config.port.clone(),
    }
}

/// The proxy setting as stored; empty means none.
pub fn get_proxy_info(config: &Config) -> (r: String)
    ensures
        r@ == config.proxy@,
{
    config.proxy.clone()
}

/// The player command used when the settings name none.
pub fn default_mpv() -> (r: String)
    ensures
        r@ == "mpv"@,
{
    String::from_str("mpv")
}

/// The player command to launch: the configured override, or the platform
/// default when the setting is empty.
pub fn mpv(config: &Config) -> (r: String)
    ensures
        config.mpv@.len() == 0 ==> r@ == "mpv"@,
        config.mpv@.len() != 0 ==> r@ == config.mpv@,
{
    if config.mpv.as_str().is_empty() {
        default_mpv()
    } else {
        config.mpv.clone()
    }
}

/// The cache directory that belongs to a home directory.
pub open spec fn spec_cache_dir(home: Seq<char>) -> Seq<char> {
    home + "/.local/share/tsukimi"@
}

/// The settings file path that belongs to a home directory.
pub open spec fn spec_config_path(home: Seq<char>) -> Seq<char> {
    home + "/.config/tsukimi.toml"@
}

/// Whether a path is the cache directory of some home directory.
pub open spec fn is_cache_dir(p: Seq<char>) -> bool {
    exists|h: Seq<char>| p == #[trigger] spec_cache_dir(h)
}

/// Whether a path is the settings file of some home directory.
pub open spec fn is_config_path(p: Seq<char>) -> bool {
    exists|h: Seq<char>| p == #[trigger] spec_config_path(h)
}

/// Relies on dirs::home_dir: the platform home directory, if the system
/// reports one. The answer depends on the environment, so nothing further
/// is promised of it.
#[verifier::external_body]
fn home_dir() -> (r: Option<String>) {
    dirs::home_dir().map(|p| p.to_string_lossy().into_owned())
}

/// The platform directories the cache and the settings live under.
pub struct Dir;

impl Dir {
    /// The cache directory under a given home directory: pure joining, no
    /// input-output.
    pub fn cache_dir_under(home: &str) -> (r: String)
        ensures
            r@ == spec_cache_dir(home@),
    {
        let mut s = home.to_owned();
        s.append("/.local/share/tsukimi");
        s
    }

    /// The settings file path under a given home directory: pure joining,
    /// no input-output.
    pub fn config_path_under(home: &str) -> (r: String)
        ensures
            r@ == spec_config_path(home@),
    {
        let mut s = home.to_owned();
        s.append("/.config/tsukimi.toml");
        s
    }

    /// The cache directory of this machine's home directory, when the
    /// system reports one.
    pub fn get_cache_dir() -> (r: Option<String>)
        ensures
            r matches Some(p) ==> is_cache_dir(p@),
    {
        match home_dir() {
            Some(h) => {
                let p = Dir::cache_dir_under(h.as_str());
                proof {
                    assert(p@ == spec_cache_dir(h@));
                }
                Some(p)
            },
            None => None,
        }
    }

    /// The settings file path of this machine's home directory, when the
    /// system reports one.
    pub fn get_config_path() -> (r: Option<String>)
        ensures
            r matches Some(p) ==> is_config_path(p@),
    {
        match home_dir() {
            Some(h) => {
                let p = Dir::config_path_under(h.as_str());
                proof {
                    assert(p@ == spec_config_path(h@));
                }
                Some(p)
            },
            None => None,
        }
    }
}

} // verus!
