//! Settings of the client and the daemon, and the paths that follow from them.

use crate::error::Error;
use crate::path::{
    join, join_bytes, joined_bytes, joined_path, with_extension, with_extension_of,
};
use crate::text::text_of;
use vstd::prelude::*;
use vstd::string::*;
use vstd::utf8::encode_utf8;

verus! {

/// The settings shared by the client and the daemon.
#[derive(Debug, Clone)]
pub struct Config {
    /// The Unix socket on which the daemon listens.
    pub socket_path: String,
    /// How long a cached value may be served.
    pub ttl_seconds: u64,
    /// How many entries each cache holds at most.
    pub max_entries: u64,
    /// The command that reads a secret.
    pub op_path: String,
    /// How long that command may run.
    pub op_timeout_seconds: u64,
}

/// What a `Config` says.
pub struct ConfigView {
    pub socket_path: Seq<char>,
    pub ttl_seconds: u64,
    pub max_entries: u64,
    pub op_path: Seq<char>,
    pub op_timeout_seconds: u64,
}

impl View for Config {
    type V = ConfigView;

    open spec fn view(&self) -> ConfigView {
        ConfigView {
            socket_path: self.socket_path@,
            ttl_seconds: self.ttl_seconds,
            max_entries: self.max_entries,
            op_path: self.op_path@,
            op_timeout_seconds: self.op_timeout_seconds,
        }
    }
}

/// The settings that hold where nothing is configured.
pub open spec fn default_settings() -> ConfigView {
    ConfigView {
        socket_path: "/tmp/op-cache.sock"@,
        ttl_seconds: 86400,
        max_entries: 1000,
        op_path: "op"@,
        op_timeout_seconds: 30,
    }
}

/// The configuration file, given the directory for this program's configuration, if the platform
/// has one. A path may be any bytes.
pub open spec fn config_file(dir: Option<Seq<u8>>) -> Seq<u8> {
    match dir {
        Some(dir) => joined_bytes(dir, "config.yaml"@),
        None => encode_utf8("~/.config/op-cache/config.yaml"@),
    }
}

/// Whether a name of a program is spelled in a directory as it is given: it has nothing but
/// lowercase letters, digits and hyphens.
pub open spec fn is_plain_name(name: Seq<char>) -> bool {
    forall|i: int|
        0 <= i < name.len() ==> 'a' <= #[trigger] name[i] <= 'z' || '0' <= name[i] <= '9' || name[i]
            == '-'
}

/// Whether `dir` is the entry of a program in the directory `base`, in the way of Unix or of
/// Windows.
pub open spec fn is_entry_of(dir: Seq<u8>, base: Seq<u8>, program: Seq<char>) -> bool {
    ||| dir == joined_bytes(base, program)
    ||| dir == base + encode_utf8(program) + encode_utf8("\\config"@)
}

/// Whether `dir` is a directory for the configuration of a program.
pub open spec fn is_project_dir(dir: Seq<u8>, program: Seq<char>) -> bool {
    exists|base: Seq<u8>| #[trigger] is_entry_of(dir, base, program)
}

/// The directory for fetched files, given the value of `TMPDIR`, if it is set.
pub open spec fn fetched_file_dir(tmpdir: Option<Seq<char>>) -> Seq<char> {
    match tmpdir {
        Some(base) => joined_path(base, "op-cache-fs"@),
        None => joined_path("/tmp"@, "op-cache-fs"@),
    }
}

/// The socket path that holds where none is configured.
pub fn default_socket_path() -> (path: String)
    ensures
        path@ == default_settings().socket_path,
{
    "/tmp/op-cache.sock".to_owned()
}

/// The time to live that holds where none is configured: one day.
pub fn default_ttl_seconds() -> (seconds: u64)
    ensures
        seconds == default_settings().ttl_seconds,
{
    86400
}

/// The capacity that holds where none is configured.
pub fn default_max_entries() -> (entries: u64)
    ensures
        entries == default_settings().max_entries,
{
    1000
}

/// The command that is run where none is configured.
pub fn default_op_path() -> (path: String)
    ensures
        path@ == default_settings().op_path,
{
    "op".to_owned()
}

/// The time limit on the command that holds where none is configured.
pub fn default_op_timeout_seconds() -> (seconds: u64)
    ensures
        seconds == default_settings().op_timeout_seconds,
{
    30
}

impl Default for Config {
    fn default() -> (config: Self)
        ensures
            config@ == default_settings(),
    {
        Config {
            socket_path: default_socket_path(),
            ttl_seconds: default_ttl_seconds(),
            max_entries: default_max_entries(),
            op_path: default_op_path(),
            op_timeout_seconds: default_op_timeout_seconds(),
        }
    }
}

/// The names by which the platform is asked for this program's directories: the qualifier, the
/// organization and the application.
pub fn project() -> (names: (&'static str, &'static str, &'static str))
    ensures
        names.0@ == ""@,
        names.1@ == ""@,
        names.2@ == "op-cache"@,
{
    ("", "", "op-cache")
}

/// Calls `directories::ProjectDirs::from` with its three arguments, and
/// `ProjectDirs::config_dir` on what it returns, and takes the bytes of the path. Where there is
/// neither qualifier nor organization and the application has a plain name, the directory is the
/// one of that name in some base directory. Which base it is, and whether there is any, depends on
/// the platform, the environment and the user's account, and is not claimed.
#[verifier::external_body]
fn project_config_dir(qualifier: &str, organization: &str, application: &str) -> (dir: Option<
    Vec<u8>,
>)
    ensures
        (qualifier@.len() == 0 && organization@.len() == 0 && application@.len() > 0
            && is_plain_name(application@)) ==> (dir matches Some(path) ==> is_project_dir(
            path@,
            application@,
        )),
{
    match directories::ProjectDirs::from(qualifier, organization, application) {
        Some(dirs) => Some(dirs.config_dir().as_os_str().as_encoded_bytes().to_vec()),
        None => None,
    }
}

impl Config {
    /// The effective settings: those of the configuration file where there is one, the defaults
    /// where there is none. A file that could not be read or parsed is reported as it is.
    pub fn load(file: Option<Result<Config, Error>>) -> (config: Result<Config, Error>)
        ensures
            match file {
                Some(outcome) => config == outcome,
                None => config matches Ok(c) && c@ == default_settings(),
            },
    {
        match file {
            Some(outcome) => outcome,
            None => Ok(Config::default()),
        }
    }

    /// The configuration file of the current user, as the bytes of its path.
    pub fn config_path() -> (path: Vec<u8>)
        ensures
            path@ == config_file(None) || exists|dir: Seq<u8>|
                is_project_dir(dir, "op-cache"@) && path@ == #[trigger] config_file(Some(dir)),
    {
        let (qualifier, organization, application) = project();
        proof {
            reveal_strlit("");
            reveal_strlit("op-cache");
        }
        match project_config_dir(qualifier, organization, application) {
            Some(dir) => {
                let path = Config::config_path_in(Some(dir.as_slice()));
                assert(path@ == config_file(Some(dir@)));
                path
            },
            None => Config::config_path_in(None),
        }
    }

    /// The configuration file, given the directory for this program's configuration.
    pub fn config_path_in(dir: Option<&[u8]>) -> (path: Vec<u8>)
        ensures
            path@ == config_file(
                match dir {
                    Some(dir) => Some(dir@),
                    None => None,
                },
            ),
    {
        match dir {
            Some(dir) => join_bytes(dir, "config.yaml"),
            None => {
                let mut path: Vec<u8> = Vec::new();
                path.extend_from_slice("~/.config/op-cache/config.yaml".as_bytes());
                assert(path@ =~= config_file(None));
                path
            },
        }
    }

    /// The file that holds the daemon's process id.
    pub fn pid_path(&self) -> (path: String)
        ensures
            path@ == with_extension_of(self@.socket_path, "pid"@),
    {
        proof {
            reveal_strlit("pid");
        }
        with_extension(self.socket_path.as_str(), "pid")
    }

    /// The file that holds the daemon's log.
    pub fn log_path(&self) -> (path: String)
        ensures
            path@ == with_extension_of(self@.socket_path, "log"@),
    {
        proof {
            reveal_strlit("log");
        }
        with_extension(self.socket_path.as_str(), "log")
    }

    /// The directory for fetched files, given the value of `TMPDIR`.
    pub fn temp_file_dir(&self, tmpdir: Option<&str>) -> (path: String)
        ensures
            path@ == fetched_file_dir(text_of(tmpdir)),
    {
        match tmpdir {
            Some(base) => join(base, "op-cache-fs"),
            None => join("/tmp", "op-cache-fs"),
        }
    }
}

} // verus!
