//! Where the configuration directory is, and which files lie in it.
//!
//! The directory comes from the command line, else from the environment variable
//! `FLOW_CONFIG_DIR`, else it is `.config/flow` in the user's home directory.
use crate::paths::{
    ends_in_a_name, ends_with_entry, entries_tell_names_apart, fits_parent, is_backslash_entry, is_entry,
    is_file_name, is_separator, is_verbatim, join, joined, joined_path_ends_with_the_file_name, parent,
    names_come_after_a_separator, parent_of_a_backslash_entry,
};
use crate::text::{concat3, text_of};
use vstd::prelude::*;
use vstd::string::*;

verus! {

/// Name of the environment variable that overrides the configuration directory.
pub const CONFIG_DIR_ENV: &'static str = "FLOW_CONFIG_DIR";

/// The environment as far as directories go: each variable where it is set.
#[derive(Debug, Clone, PartialEq)]
pub struct DirEnv {
    /// `FLOW_CONFIG_DIR`.
    pub flow_config_dir: Option<String>,
    /// `USERPROFILE`.
    pub userprofile: Option<String>,
    /// `APPDATA`.
    pub appdata: Option<String>,
}

/// Where the configuration directory was taken from.
#[derive(Debug, Clone, Copy, PartialEq, Eq, Structural)]
pub enum DirSource {
    /// The command line.
    CliFlag,
    /// `FLOW_CONFIG_DIR`.
    EnvVar,
    /// The default.
    Default,
}

impl DirSource {
    /// The source in words.
    pub fn label(self) -> (res: &'static str)
        ensures
            res@ == match self {
                DirSource::CliFlag => "CLI --config flag"@,
                DirSource::EnvVar => "FLOW_CONFIG_DIR env var"@,
                DirSource::Default => "default (USERPROFILE/.config/flow)"@,
            },
    {
        match self {
            DirSource::CliFlag => "CLI --config flag",
            DirSource::EnvVar => "FLOW_CONFIG_DIR env var",
            DirSource::Default => "default (USERPROFILE/.config/flow)",
        }
    }
}

/// Whether `dir` is `.config/flow` under `home`.
pub open spec fn is_flow_dir_under(home: Seq<char>, dir: Seq<char>) -> bool {
    exists|config: Seq<char>| #[trigger]
        joined(home, ".config"@, config) && joined(config, "flow"@, dir)
}

/// Whether `dir` can be the directory two levels above `path`, if there is one.
pub open spec fn is_two_up(path: Seq<char>, dir: Option<Seq<char>>) -> bool {
    exists|up: Option<Seq<char>>|
        {
            &&& #[trigger] fits_parent(path, up)
            &&& match up {
                Some(u) => fits_parent(u, dir),
                None => dir is None,
            }
        }
}

/// Whether `home` can be the home directory that the application data directory lies in: the
/// directory two levels up, or the directory itself where there is none.
pub open spec fn is_home_of(appdata: Seq<char>, home: Seq<char>) -> bool {
    exists|two_up: Option<Seq<char>>|
        {
            &&& #[trigger] is_two_up(appdata, two_up)
            &&& home == match two_up {
                Some(dir) => dir,
                None => appdata,
            }
        }
}

/// Whether `dir` is the default configuration directory.
pub open spec fn is_default_dir(env: DirEnv, dir: Seq<char>) -> bool {
    match env.userprofile {
        Some(userprofile) => is_flow_dir_under(userprofile@, dir),
        None => match env.appdata {
            Some(appdata) => exists|home: Seq<char>| #[trigger]
                is_home_of(appdata@, home) && is_flow_dir_under(home, dir),
            None => joined("."@, "flow"@, dir),
        },
    }
}

/// Where the directory is taken from.
pub open spec fn source_of(cli_override: Option<&str>, env: DirEnv) -> DirSource {
    if cli_override is Some {
        DirSource::CliFlag
    } else if env.flow_config_dir is Some {
        DirSource::EnvVar
    } else {
        DirSource::Default
    }
}

/// Whether `dir` is the configuration directory.
pub open spec fn is_config_dir(
    cli_override: Option<&str>,
    env: DirEnv,
    dir: Seq<char>,
) -> bool {
    match source_of(cli_override, env) {
        DirSource::CliFlag => dir == cli_override->Some_0@,
        DirSource::EnvVar => dir == env.flow_config_dir->Some_0@,
        DirSource::Default => is_default_dir(env, dir),
    }
}

/// Where the configuration directory is taken from.
pub fn dir_source(cli_override: Option<&str>, env: &DirEnv) -> (res: DirSource)
    ensures
        res == source_of(cli_override, *env),
{
    if cli_override.is_some() {
        DirSource::CliFlag
    } else if env.flow_config_dir.is_some() {
        DirSource::EnvVar
    } else {
        DirSource::Default
    }
}

/// The configuration directory: from the command line, else from the environment, else the
/// default. Creating it is left to the program.
#[must_use]
pub fn resolve_config_dir(cli_override: Option<&str>, env: &DirEnv) -> (res: String)
    ensures
        is_config_dir(cli_override, *env, res@),
{
    if let Some(path) = cli_override {
        return path.to_owned();
    }
    if let Some(path) = &env.flow_config_dir {
        return path.clone();
    }
    default_config_dir(env)
}

/// The configuration directory without a command line.
#[must_use]
pub fn config_dir(env: &DirEnv) -> (res: String)
    ensures
        is_config_dir(None, *env, res@),
{
    resolve_config_dir(None, env)
}

/// The home directory that the application data directory lies in, given the directory two
/// levels up where there is one.
pub fn home_from_appdata(appdata: &str, two_up: Option<String>) -> (res: String)
    ensures
        res@ == match two_up {
            Some(home) => home@,
            None => appdata@,
        },
{
    match two_up {
        Some(home) => home,
        None => appdata.to_owned(),
    }
}

fn flow_dir_under(home: &str) -> (res: String)
    ensures
        is_flow_dir_under(home@, res@),
{
    proof {
        reveal_strlit(".config");
        reveal_strlit("flow");
    }
    let config: String = join(home, ".config");
    let dir: String = join(config.as_str(), "flow");
    assert(joined(home@, ".config"@, config@) && joined(config@, "flow"@, dir@));
    dir
}

/// The default configuration directory: in the home directory, else in the directory that the
/// application data directory lies in, else in the current directory.
fn default_config_dir(env: &DirEnv) -> (res: String)
    ensures
        is_default_dir(*env, res@),
{
    if let Some(userprofile) = &env.userprofile {
        return flow_dir_under(userprofile.as_str());
    }
    if let Some(appdata) = &env.appdata {
        let two_up: Option<String> = match parent(appdata.as_str()) {
            Some(up) => {
                let two: Option<String> = parent(up.as_str());
                assert(fits_parent(appdata@, Some(up@)) && fits_parent(up@, text_of(two)));
                two
            },
            None => {
                assert(fits_parent(appdata@, None));
                None
            },
        };
        assert(is_two_up(appdata@, text_of(two_up)));
        let home: String = home_from_appdata(appdata.as_str(), two_up);
        assert(is_home_of(appdata@, home@));
        return flow_dir_under(home.as_str());
    }
    proof {
        reveal_strlit("flow");
    }
    join(".", "flow")
}

/// Path of `flow-rules.toml` in a directory.
#[must_use]
pub fn user_rules_path_in(dir: &str) -> (res: String)
    ensures
        joined(dir@, "flow-rules.toml"@, res@),
{
    proof {
        reveal_strlit("flow-rules.toml");
    }
    join(dir, "flow-rules.toml")
}

/// Whether `path` is the file `name` in the configuration directory.
pub open spec fn in_config_dir(env: DirEnv, name: Seq<char>, path: Seq<char>) -> bool {
    exists|dir: Seq<char>| #[trigger] is_config_dir(None, env, dir) && joined(dir, name, path)
}

/// Path of `flow-rules.toml` in the configuration directory.
#[must_use]
pub fn user_rules_path(env: &DirEnv) -> (res: String)
    ensures
        in_config_dir(*env, "flow-rules.toml"@, res@),
{
    let dir: String = config_dir(env);
    user_rules_path_in(dir.as_str())
}

/// Path of `history-flow-rules.toml` in a directory.
#[must_use]
pub fn history_rules_path_in(dir: &str) -> (res: String)
    ensures
        joined(dir@, "history-flow-rules.toml"@, res@),
{
    proof {
        reveal_strlit("history-flow-rules.toml");
    }
    join(dir, "history-flow-rules.toml")
}

/// Path of `history-flow-rules.toml` in the configuration directory.
#[must_use]
pub fn history_rules_path(env: &DirEnv) -> (res: String)
    ensures
        in_config_dir(*env, "history-flow-rules.toml"@, res@),
{
    let dir: String = config_dir(env);
    history_rules_path_in(dir.as_str())
}

/// Path of `flow.toml` in a directory.
#[must_use]
pub fn user_app_config_path_in(dir: &str) -> (res: String)
    ensures
        joined(dir@, "flow.toml"@, res@),
{
    proof {
        reveal_strlit("flow.toml");
    }
    join(dir, "flow.toml")
}

/// Path of `flow.toml` in the configuration directory.
#[must_use]
pub fn user_app_config_path(env: &DirEnv) -> (res: String)
    ensures
        in_config_dir(*env, "flow.toml"@, res@),
{
    let dir: String = config_dir(env);
    user_app_config_path_in(dir.as_str())
}

/// Path of the logs directory in a directory.
#[must_use]
pub fn logs_dir_in(dir: &str) -> (res: String)
    ensures
        joined(dir@, "logs"@, res@),
{
    proof {
        reveal_strlit("logs");
    }
    join(dir, "logs")
}

/// Path of the logs directory in the configuration directory.
#[must_use]
pub fn logs_dir(env: &DirEnv) -> (res: String)
    ensures
        in_config_dir(*env, "logs"@, res@),
{
    let dir: String = config_dir(env);
    logs_dir_in(dir.as_str())
}

/// Name of the log file of a day.
pub open spec fn log_file_name(date: Seq<char>) -> Seq<char> {
    "flowd-"@ + date + ".log"@
}

/// Whether `path` is the log file of a day in the logs directory of `dir`.
pub open spec fn is_log_file(dir: Seq<char>, date: Seq<char>, path: Seq<char>) -> bool {
    exists|logs: Seq<char>| #[trigger]
        joined(dir, "logs"@, logs) && joined(logs, log_file_name(date), path)
}

/// Path of the log file of a day, given as `YYYY-MM-DD`, in the logs directory of a directory.
#[must_use]
pub fn log_file_path_in(dir: &str, date: &str) -> (res: String)
    ensures
        is_log_file(dir@, date@, res@),
{
    let logs: String = logs_dir_in(dir);
    let name: String = concat3("flowd-", date, ".log");
    proof {
        reveal_strlit("flowd-");
        assert(name@[0] == 'f' && name@[1] == 'l');
    }
    join(logs.as_str(), name.as_str())
}

/// Where `APPDATA` is a directory in a directory of the home directory, that home directory is
/// found.
pub proof fn home_lies_two_levels_up(
    home: Seq<char>,
    outer: Seq<char>,
    between: Seq<char>,
    inner: Seq<char>,
    appdata: Seq<char>,
    found: Seq<char>,
)
    requires
        is_entry(home, outer, between),
        is_entry(between, inner, appdata),
        is_home_of(appdata, found),
    ensures
        found == home,
{
}

/// Where `APPDATA` is such a directory after backslashes, as in `C:\Users\x\AppData\Roaming`, the
/// same home directory is found. On a system where a backslash is part of a name there is none two
/// levels up, and `APPDATA` itself is taken. What is known of each step alone leaves the empty path
/// open too.
pub proof fn home_lies_two_backslashes_up(
    home: Seq<char>,
    outer: Seq<char>,
    between: Seq<char>,
    inner: Seq<char>,
    appdata: Seq<char>,
    found: Seq<char>,
)
    requires
        is_backslash_entry(home, outer, between),
        is_backslash_entry(between, inner, appdata),
        !appdata.contains('/'),
        is_home_of(appdata, found),
    ensures
        found == home || found == appdata || found.len() == 0,
{
    let two_up = choose|two_up: Option<Seq<char>>|
        {
            &&& #[trigger] is_two_up(appdata, two_up)
            &&& found == match two_up {
                Some(dir) => dir,
                None => appdata,
            }
        };
    let up = choose|up: Option<Seq<char>>|
        {
            &&& #[trigger] fits_parent(appdata, up)
            &&& match up {
                Some(u) => fits_parent(u, two_up),
                None => two_up is None,
            }
        };
    assert forall|i: int| 0 <= i < appdata.len() implies #[trigger] appdata[i] != '/' by {
        assert(appdata.contains(appdata[i]));
    }
    assert forall|i: int| 0 <= i < between.len() implies #[trigger] between[i] != '/' by {
        assert(appdata[i] == between[i]);
    }
    parent_of_a_backslash_entry(between, inner, appdata, up);
    if up == Some(between) {
        parent_of_a_backslash_entry(home, outer, between, two_up);
    }
}

/// The name of a log file is that of a file where the day holds no separator.
proof fn lemma_log_file_name(date: Seq<char>)
    requires
        forall|i: int| 0 <= i < date.len() ==> !is_separator(#[trigger] date[i]),
    ensures
        is_file_name(log_file_name(date)),
{
    reveal_strlit("flowd-");
    reveal_strlit(".log");
    let name = log_file_name(date);
    assert(name[0] == 'f' && name[1] == 'l');
    assert forall|i: int| 0 <= i < name.len() implies !is_separator(#[trigger] name[i]) by {
        if 6 <= i < 6 + date.len() {
            assert(name[i] == date[i - 6]);
        }
    }
}

/// Different days have different log files, whatever directory they are in.
pub proof fn log_files_are_kept_apart(
    dir: Seq<char>,
    date: Seq<char>,
    other: Seq<char>,
    path: Seq<char>,
)
    requires
        forall|i: int| 0 <= i < date.len() ==> !is_separator(#[trigger] date[i]),
        forall|i: int| 0 <= i < other.len() ==> !is_separator(#[trigger] other[i]),
        is_log_file(dir, date, path),
        is_log_file(dir, other, path),
    ensures
        date == other,
{
    lemma_log_file_ends_with_its_name(dir, date, path);
    lemma_log_file_ends_with_its_name(dir, other, path);
    lemma_log_file_name(date);
    lemma_log_file_name(other);
    entries_tell_names_apart(log_file_name(date), log_file_name(other), path);
    lemma_log_file_names_differ(date, other);
}

proof fn lemma_log_file_ends_with_its_name(dir: Seq<char>, date: Seq<char>, path: Seq<char>)
    requires
        forall|i: int| 0 <= i < date.len() ==> !is_separator(#[trigger] date[i]),
        is_log_file(dir, date, path),
    ensures
        ends_with_entry(log_file_name(date), path),
{
    reveal_strlit("logs");
    lemma_log_file_name(date);
    let logs = choose|logs: Seq<char>| #[trigger]
        joined(dir, "logs"@, logs) && joined(logs, log_file_name(date), path);
    assert("logs"@[0] == 'l' && "logs"@[1] == 'o' && "logs"@[2] == 'g' && "logs"@[3] == 's');
    assert(is_file_name("logs"@));
    joined_path_ends_with_the_file_name(dir, "logs"@, logs);
    assert("logs"@ =~= logs.skip(logs.len() - 4));
    assert(logs.last() == 's') by {
        assert(logs.skip(logs.len() - 4)[3] == logs.last());
    }
    joined_path_ends_with_the_file_name(logs, log_file_name(date), path);
}

/// A file in the directory that the environment asks for is a file of the configuration: to look
/// up the directory first comes to the same.
pub proof fn files_lie_in_the_resolved_directory(
    env: DirEnv,
    dir: Seq<char>,
    name: Seq<char>,
    path: Seq<char>,
)
    requires
        is_config_dir(None, env, dir),
        joined(dir, name, path),
    ensures
        in_config_dir(env, name, path),
{
}

/// The path of a file of the configuration ends with the name of that file.
pub proof fn configuration_files_keep_their_names(env: DirEnv, name: Seq<char>, path: Seq<char>)
    requires
        is_file_name(name),
        in_config_dir(env, name, path),
    ensures
        name.is_suffix_of(path),
{
    let dir = choose|dir: Seq<char>| #[trigger]
        is_config_dir(None, env, dir) && joined(dir, name, path);
    joined_path_ends_with_the_file_name(dir, name, path);
}

/// The command line decides, whatever the environment says.
pub proof fn command_line_decides(path: &str, env: DirEnv, other: DirEnv, dir: Seq<char>)
    requires
        is_config_dir(Some(path), env, dir),
    ensures
        dir == path@,
        is_config_dir(Some(path), other, dir),
{
}

/// Without a command line `FLOW_CONFIG_DIR` decides, whatever else is set.
pub proof fn environment_beats_the_default(env: DirEnv, dir: Seq<char>)
    requires
        env.flow_config_dir is Some,
        is_config_dir(None, env, dir),
    ensures
        dir == env.flow_config_dir->Some_0@,
{
}

/// Log files of different days have different names.
proof fn lemma_log_file_names_differ(date: Seq<char>, other: Seq<char>)
    requires
        log_file_name(date) == log_file_name(other),
    ensures
        date == other,
{
    reveal_strlit("flowd-");
    reveal_strlit(".log");
    let (a, b) = (log_file_name(date), log_file_name(other));
    assert(a.len() == date.len() + 10);
    assert(b.len() == other.len() + 10);
    assert forall|i: int| 0 <= i < date.len() implies date[i] == other[i] by {
        assert(a[i + 6] == date[i]);
        assert(b[i + 6] == other[i]);
    }
    assert(date =~= other);
}

/// The command line comes before the environment, and the environment before the default.
pub proof fn sources_in_order(cli_override: Option<&str>, env: DirEnv)
    ensures
        source_of(cli_override, env) == DirSource::CliFlag <==> cli_override is Some,
        source_of(cli_override, env) == DirSource::EnvVar <==> cli_override is None
            && env.flow_config_dir is Some,
        source_of(cli_override, env) == DirSource::Default <==> cli_override is None
            && env.flow_config_dir is None,
{
}

/// The default directory is `.config/flow` under the user's home directory, whatever else is set.
pub proof fn default_directory_lies_under_home(
    env: DirEnv,
    other: DirEnv,
    home: Seq<char>,
    dir: Seq<char>,
)
    requires
        env.flow_config_dir is None,
        env.userprofile is Some,
        env.userprofile->Some_0@ == home,
        other.flow_config_dir is None,
        other.userprofile == env.userprofile,
        is_config_dir(None, env, dir),
    ensures
        is_config_dir(None, other, dir),
        exists|config: Seq<char>| #[trigger]
            joined(home, ".config"@, config) && joined(config, "flow"@, dir),
        ends_in_a_name(home) ==> dir == home + "/.config/flow"@ || dir == home + "/.config\\flow"@
            || dir == home + "\\.config/flow"@ || dir == home + "\\.config\\flow"@,
{
    assert(is_flow_dir_under(home, dir));
    if ends_in_a_name(home) {
        lemma_flow_dir_text(home, dir);
    }
}

/// Without a home directory it lies under the one that the application data directory lies in.
pub proof fn default_directory_falls_back_to_appdata(env: DirEnv, dir: Seq<char>)
    requires
        env.flow_config_dir is None,
        env.userprofile is None,
        env.appdata is Some,
        is_config_dir(None, env, dir),
    ensures
        exists|home: Seq<char>, config: Seq<char>|
            #[trigger] is_home_of(env.appdata->Some_0@, home) && #[trigger] joined(
                home,
                ".config"@,
                config,
            ) && joined(config, "flow"@, dir),
{
    let home = choose|home: Seq<char>| #[trigger]
        is_home_of(env.appdata->Some_0@, home) && is_flow_dir_under(home, dir);
    let config = choose|config: Seq<char>| #[trigger]
        joined(home, ".config"@, config) && joined(config, "flow"@, dir);
    assert(is_home_of(env.appdata->Some_0@, home) && joined(home, ".config"@, config));
}

/// With nothing set the directory is `flow` in the current directory.
pub proof fn last_resort_is_the_current_directory(env: DirEnv, dir: Seq<char>)
    requires
        env.flow_config_dir is None,
        env.userprofile is None,
        env.appdata is None,
        is_config_dir(None, env, dir),
    ensures
        dir == "./flow"@ || dir == ".\\flow"@,
{
    reveal_strlit(".");
    reveal_strlit("flow");
    reveal_strlit("./flow");
    reveal_strlit(".\\flow");
    assert(dir =~= "./flow"@ || dir =~= ".\\flow"@);
}

/// A file of the configuration is in the directory that is asked for.
pub proof fn files_are_looked_for_in_the_directory(env: DirEnv, name: Seq<char>, path: Seq<char>)
    requires
        env.flow_config_dir is Some,
        in_config_dir(env, name, path),
    ensures
        joined(env.flow_config_dir->Some_0@, name, path),
{
}

/// The log file of a day holds the day in its name.
pub proof fn log_files_are_named_by_day(dir: Seq<char>, date: Seq<char>, path: Seq<char>)
    requires
        is_log_file(dir, date, path),
    ensures
        log_file_name(date) == "flowd-"@ + date + ".log"@,
        exists|logs: Seq<char>| #[trigger]
            joined(dir, "logs"@, logs) && joined(logs, "flowd-"@ + date + ".log"@, path),
{
}

proof fn lemma_flow_dir_text(home: Seq<char>, dir: Seq<char>)
    requires
        ends_in_a_name(home),
        is_flow_dir_under(home, dir),
    ensures
        dir == home + "/.config/flow"@ || dir == home + "/.config\\flow"@ || dir == home
            + "\\.config/flow"@ || dir == home + "\\.config\\flow"@,
{
    reveal_strlit(".config");
    reveal_strlit("flow");
    reveal_strlit("/.config/flow");
    reveal_strlit("/.config\\flow");
    reveal_strlit("\\.config/flow");
    reveal_strlit("\\.config\\flow");
    let config = choose|config: Seq<char>| #[trigger]
        joined(home, ".config"@, config) && joined(config, "flow"@, dir);
    names_come_after_a_separator(home, ".config"@, config);
    assert(config.last() == 'g');
    if is_verbatim(config) {
        if home.len() >= 2 {
            assert(config[0] == home[0] && config[1] == home[1]);
        } else {
            assert(config[0] == home[0]);
        }
    }
    names_come_after_a_separator(config, "flow"@, dir);
    let (s, b) = (seq!['/'], seq!['\\']);
    assert(dir =~= home + s + ".config"@ + s + "flow"@ || dir =~= home + s + ".config"@ + b
        + "flow"@ || dir =~= home + b + ".config"@ + s + "flow"@ || dir =~= home + b + ".config"@
        + b + "flow"@);
    assert(s + ".config"@ + s + "flow"@ =~= "/.config/flow"@);
    assert(s + ".config"@ + b + "flow"@ =~= "/.config\\flow"@);
    assert(b + ".config"@ + s + "flow"@ =~= "\\.config/flow"@);
    assert(b + ".config"@ + b + "flow"@ =~= "\\.config\\flow"@);
    assert(home + s + ".config"@ + s + "flow"@ =~= home + (s + ".config"@ + s + "flow"@));
    assert(home + s + ".config"@ + b + "flow"@ =~= home + (s + ".config"@ + b + "flow"@));
    assert(home + b + ".config"@ + s + "flow"@ =~= home + (b + ".config"@ + s + "flow"@));
    assert(home + b + ".config"@ + b + "flow"@ =~= home + (b + ".config"@ + b + "flow"@));
}

} // verus!
