use vstd::prelude::*;

verus! {

/// One configured project: deliveries for `repo` run `command`.
pub struct Project {
    pub repo: String,
    pub command: String,
}

/// The receiver's configuration, read once at startup.
pub struct UpdateHookConfig {
    pub port: i32,
    pub path: Option<String>,
    pub project: Vec<Project>,
}

/// The path that is served when none is configured.
pub open spec fn default_trigger_path() -> Seq<char> {
    seq!['/']
}

/// The single path on which deliveries are accepted.
pub open spec fn trigger_path_of(path: Option<String>) -> Seq<char> {
    match path {
        Some(p) => p@,
        None => default_trigger_path(),
    }
}

impl UpdateHookConfig {
    /// The configured trigger path, or `/` when none is set.
    pub fn trigger_path(&self) -> (r: &str)
        ensures
            r@ == trigger_path_of(self.path),
    {
        match &self.path {
            Some(p) => p.as_str(),
            None => {
                proof {
                    reveal_strlit("/");
                }
                "/"
            },
        }
    }
}

/// The directory under the home directory that holds the configuration
/// and the logs.
pub open spec fn hook_subdir() -> Seq<char> {
    seq!['/', '.', 'h', 'o', 'o', 'k']
}

/// The configuration file read when none is named.
pub open spec fn default_config_file() -> Seq<char> {
    seq!['c', 'o', 'n', 'f', 'i', 'g', '.', 't', 'o', 'm', 'l']
}

/// `<home>/.hook/<file>`, with `config.toml` when no file is named.
pub open spec fn config_file_path_of(home: Seq<char>, file_name: Option<Seq<char>>) -> Seq<char> {
    let file = match file_name {
        Some(f) => f,
        None => default_config_file(),
    };
    home + hook_subdir() + seq!['/'] + file
}

/// Where the configuration is read from: `<home>/.hook/<file_name>`, and
/// `<home>/.hook/config.toml` when no file name is given.
pub fn config_file_path(home: &str, file_name: Option<&str>) -> (r: String)
    ensures
        r@ == config_file_path_of(
            home@,
            match file_name {
                Some(f) => Some(f@),
                None => None,
            },
        ),
{
    proof {
        reveal_strlit("/.hook/");
        reveal_strlit("config.toml");
    }
    let mut path = home.to_owned();
    path.append("/.hook/");
    match file_name {
        Some(f) => path.append(f),
        None => path.append("config.toml"),
    }
    path
}

/// The port to listen on, where the configured one is a valid TCP port.
pub fn listen_port(config: &UpdateHookConfig) -> (r: Option<u16>)
    ensures
        r matches Some(p) ==> p as int == config.port as int,
        r is None <==> !(0 <= config.port <= 65535),
{
    if 0 <= config.port && config.port <= 65535 {
        Some(config.port as u16)
    } else {
        None
    }
}

/// What a request handler reads: the configuration, fixed at startup, and
/// the directory that holds it.
pub struct HookContext {
    config: UpdateHookConfig,
    config_dir: String,
}

impl HookContext {
    /// The configuration this context holds.
    pub closed spec fn config(&self) -> UpdateHookConfig {
        self.config
    }

    /// The configuration directory this context holds.
    pub closed spec fn config_dir(&self) -> Seq<char> {
        self.config_dir@
    }

    /// A context for `config`, whose directory is `<home>/.hook`.
    pub fn new(config: UpdateHookConfig, home: &str) -> (r: HookContext)
        ensures
            r.config() == config,
            r.config_dir() == home@ + hook_subdir(),
    {
        proof {
            reveal_strlit("/.hook");
        }
        let mut config_dir = home.to_owned();
        config_dir.append("/.hook");
        HookContext { config, config_dir }
    }

    /// The configuration.
    pub fn get_config(&self) -> (r: &UpdateHookConfig)
        ensures
            *r == self.config(),
    {
        &self.config
    }

    /// The configuration directory, `<home>/.hook`.
    pub fn get_config_dir(&self) -> (r: &str)
        ensures
            r@ == self.config_dir(),
    {
        self.config_dir.as_str()
    }

    /// The directory that holds the log files, `<config dir>/logs`.
    pub fn logs_dir(&self) -> (r: String)
        ensures
            r@ == self.config_dir() + seq!['/', 'l', 'o', 'g', 's'],
    {
        proof {
            reveal_strlit("/logs");
        }
        let mut dir = self.config_dir.clone();
        dir.append("/logs");
        dir
    }
}

} // verus!
