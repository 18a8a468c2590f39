//! Life of the configuration files: creating, loading and checking them.
//!
//! Reading and writing is done by the program, which hands in what came of it.
use crate::common::error::FlowError;
use crate::config::dirs::{user_app_config_path_in, user_rules_path_in};
use crate::config::types::{FlowConfig, WindowRulesConfig};
use crate::paths::{join, joined};
use crate::text::{concat, concat3, debug_quoted, quoted, text_of};
use vstd::prelude::*;
use vstd::string::*;

verus! {

/// Line at the top of `flow-rules.toml` that tells editors where its schema is.
pub const FLOW_RULES_SCHEMA_HEADER: &'static str = "#:schema ./schemas/flow-rules.schema.json\n\n";

/// Why a configuration file could not be loaded.
#[derive(Debug, PartialEq)]
pub enum ConfigLoadError {
    /// There is no such file.
    Missing,
    /// It could not be read.
    Io(String),
    /// It could not be understood.
    Parse(String),
}

impl ConfigLoadError {
    /// The text of the error.
    pub open spec fn text(&self) -> Seq<char> {
        match self {
            ConfigLoadError::Missing => "file not found"@,
            ConfigLoadError::Io(cause) => "I/O error: "@ + cause@,
            ConfigLoadError::Parse(cause) => "parse error: "@ + cause@,
        }
    }

    /// The text of the error.
    pub fn to_string(&self) -> (res: String)
        ensures
            res@ == self.text(),
    {
        match self {
            ConfigLoadError::Missing => "file not found".to_owned(),
            ConfigLoadError::Io(cause) => concat("I/O error: ", cause.as_str()),
            ConfigLoadError::Parse(cause) => concat("parse error: ", cause.as_str()),
        }
    }
}

/// What came of reading a file: its contents, or the cause of the failure and whether it was
/// that there is no such file.
#[derive(Debug)]
pub enum FileRead {
    /// The contents.
    Contents(String),
    /// There is no such file.
    NotFound,
    /// Any other failure.
    Failed(String),
}

/// Sorts out a file that was not read. A file that is not there is told apart from one that
/// cannot be read; contents are handed on to be parsed.
pub fn read_result(read: FileRead) -> (res: Result<String, ConfigLoadError>)
    ensures
        match read {
            FileRead::Contents(contents) => res == Ok::<String, ConfigLoadError>(contents),
            FileRead::NotFound => res == Err::<String, ConfigLoadError>(ConfigLoadError::Missing),
            FileRead::Failed(cause) => res == Err::<String, ConfigLoadError>(
                ConfigLoadError::Io(cause),
            ),
        },
{
    match read {
        FileRead::Contents(contents) => Ok(contents),
        FileRead::NotFound => Err(ConfigLoadError::Missing),
        FileRead::Failed(cause) => Err(ConfigLoadError::Io(cause)),
    }
}

/// The message for a file that could not be loaded.
pub open spec fn load_failure(path: Seq<char>, e: ConfigLoadError) -> Seq<char> {
    "failed to load config "@ + path + ": "@ + e.text()
}

fn load_error(path: &str, e: &ConfigLoadError) -> (res: FlowError)
    ensures
        res is Config,
        res->Config_0@ == load_failure(path@, *e),
{
    let mut s: String = concat3("failed to load config ", path, ": ");
    s.append(e.to_string().as_str());
    FlowError::Config(s)
}

/// The application settings from what came of loading the file at `path`. A file that is not
/// there gives the defaults; any other failure is an error that names the file. Settings that
/// are not valid are returned all the same.
pub fn load_app_config(path: &str, loaded: Result<FlowConfig, ConfigLoadError>) -> (res: Result<
    FlowConfig,
    FlowError,
>)
    ensures
        match loaded {
            Ok(config) => res == Ok::<FlowConfig, FlowError>(config),
            Err(ConfigLoadError::Missing) => res is Ok && res->Ok_0.is_default(),
            Err(e) => res is Err && res->Err_0 is Config && res->Err_0->Config_0@ == load_failure(
                path@,
                e,
            ),
        },
{
    match loaded {
        Ok(config) => Ok(config),
        Err(ConfigLoadError::Missing) => Ok(FlowConfig::default()),
        Err(e) => Err(load_error(path, &e)),
    }
}

/// The window rules from what came of loading the file at `path`. A file that is not there gives
/// the defaults; any other failure is an error that names the file.
pub fn load_rules_config(
    path: &str,
    loaded: Result<WindowRulesConfig, ConfigLoadError>,
) -> (res: Result<WindowRulesConfig, FlowError>)
    ensures
        match loaded {
            Ok(config) => res == Ok::<WindowRulesConfig, FlowError>(config),
            Err(ConfigLoadError::Missing) => res is Ok && res->Ok_0.is_default(),
            Err(e) => res is Err && res->Err_0 is Config && res->Err_0->Config_0@ == load_failure(
                path@,
                e,
            ),
        },
{
    match loaded {
        Ok(config) => Ok(config),
        Err(ConfigLoadError::Missing) => Ok(WindowRulesConfig::default()),
        Err(e) => Err(load_error(path, &e)),
    }
}

/// The bundled window rules, from what came of parsing them. Should that fail, there are none.
#[must_use]
pub fn load_default_rules(parsed: Result<WindowRulesConfig, String>) -> (res: WindowRulesConfig)
    ensures
        match parsed {
            Ok(config) => res == config,
            Err(_) => res.is_default(),
        },
{
    match parsed {
        Ok(config) => config,
        Err(_) => WindowRulesConfig::default(),
    }
}

// ---------------------------------------------------------------------------
// Creating the files
// ---------------------------------------------------------------------------

/// One step of setting up a configuration directory.
#[derive(Debug, PartialEq)]
pub enum InitStep {
    /// Create a directory, with those above it, unless it is there.
    CreateDir {
        /// The directory.
        path: String,
        /// What a failure is called, up to its cause.
        failure: String,
    },
    /// Write a file unless it is there.
    WriteNew {
        /// The file.
        path: String,
        /// Its contents.
        content: String,
        /// What a failure is called, up to its cause; none where a failure does not matter.
        failure: Option<String>,
    },
    /// Give up.
    Fail {
        /// The message.
        message: String,
    },
}

/// Everything that goes into the files of a new configuration directory: the example settings,
/// and the default rules and the two schemas as far as they could be generated.
#[derive(Debug)]
pub struct InitContents {
    /// Contents of `flow.toml`.
    pub config_example: String,
    /// The default rules in file format.
    pub default_rules: Result<String, String>,
    /// Schema of the settings.
    pub config_schema: Result<String, String>,
    /// Schema of the rules.
    pub rules_schema: Result<String, String>,
}

/// Whether a step creates the directory `path`.
pub open spec fn creates(step: InitStep, path: Seq<char>, what: Seq<char>) -> bool {
    match step {
        InitStep::CreateDir { path: p, failure } => p@ == path && failure@
            == "failed to create "@ + what + " directory "@ + debug_quoted(path) + ": "@,
        _ => false,
    }
}

/// Whether a step writes the new file `path`, where a failure matters.
pub open spec fn writes(
    step: InitStep,
    path: Seq<char>,
    content: Seq<char>,
    what: Seq<char>,
) -> bool {
    match step {
        InitStep::WriteNew { path: p, content: c, failure: Some(failure) } => p@ == path && c@
            == content && failure@ == "failed to write default "@ + what + " "@ + debug_quoted(path)
            + ": "@,
        _ => false,
    }
}

/// Whether a step writes the new file `path`, where a failure does not matter.
pub open spec fn may_write(step: InitStep, path: Seq<char>, content: Seq<char>) -> bool {
    match step {
        InitStep::WriteNew { path: p, content: c, failure: None } => p@ == path && c@ == content,
        _ => false,
    }
}

/// Whether `steps` set up the directory `dir` with these contents, given the paths in it.
pub open spec fn sets_up(
    steps: Seq<InitStep>,
    dir: Seq<char>,
    contents: InitContents,
    schemas: Seq<char>,
    config: Seq<char>,
    rules: Seq<char>,
    config_schema: Seq<char>,
    rules_schema: Seq<char>,
) -> bool {
    &&& joined(dir, "schemas"@, schemas)
    &&& joined(dir, "flow.toml"@, config)
    &&& joined(dir, "flow-rules.toml"@, rules)
    &&& joined(schemas, "flow-config.schema.json"@, config_schema)
    &&& joined(schemas, "flow-rules.schema.json"@, rules_schema)
    &&& steps.len() >= 2
    &&& creates(steps[0], dir, "config"@)
    &&& creates(steps[1], schemas, "schemas"@)
    &&& match contents.default_rules {
        Err(cause) => {
            &&& steps.len() == 3
            &&& steps[2] is Fail
            &&& steps[2]->Fail_message@ == "failed to serialize default WindowRulesConfig: "@
                + cause@
        },
        Ok(default_rules) => {
            let after_config_schema: int = if contents.config_schema is Ok { 5 } else { 4 };
            &&& steps.len() == after_config_schema + if contents.rules_schema is Ok {
                1int
            } else {
                0int
            }
            &&& writes(steps[2], config, contents.config_example@, "config"@)
            &&& writes(
                steps[3],
                rules,
                FLOW_RULES_SCHEMA_HEADER@ + default_rules@,
                "rules"@,
            )
            &&& contents.config_schema is Ok ==> may_write(
                steps[4],
                config_schema,
                contents.config_schema->Ok_0@,
            )
            &&& contents.rules_schema is Ok ==> may_write(
                steps[after_config_schema],
                rules_schema,
                contents.rules_schema->Ok_0@,
            )
        },
    }
}

fn failure_text(start: &str, path: &str) -> (res: String)
    ensures
        res@ == start@ + debug_quoted(path@) + ": "@,
{
    concat3(start, quoted(path).as_str(), ": ")
}

fn create_step(path: &str, what: &str) -> (res: InitStep)
    ensures
        creates(res, path@, what@),
{
    let start: String = concat3("failed to create ", what, " directory ");
    InitStep::CreateDir { path: path.to_owned(), failure: failure_text(start.as_str(), path) }
}

fn write_step(path: &str, content: &str, what: &str) -> (res: InitStep)
    ensures
        writes(res, path@, content@, what@),
{
    let start: String = concat3("failed to write default ", what, " ");
    InitStep::WriteNew {
        path: path.to_owned(),
        content: content.to_owned(),
        failure: Some(failure_text(start.as_str(), path)),
    }
}

/// The steps that set up a configuration directory: the directory itself and the one for
/// schemas, then the settings, the rules and the schemas, each only where it is not there yet.
/// Schemas that could not be generated are left out.
#[must_use]
pub fn init_config_dir(dir: &str, contents: &InitContents) -> (res: Vec<InitStep>)
    ensures
        exists|
            schemas: Seq<char>,
            config: Seq<char>,
            rules: Seq<char>,
            config_schema: Seq<char>,
            rules_schema: Seq<char>,
        | #[trigger]
            sets_up(
                res@,
                dir@,
                *contents,
                schemas,
                config,
                rules,
                config_schema,
                rules_schema,
            ),
{
    proof {
        reveal_strlit("schemas");
        reveal_strlit("flow-config.schema.json");
        reveal_strlit("flow-rules.schema.json");
    }
    let schemas: String = join(dir, "schemas");
    let config: String = user_app_config_path_in(dir);
    let rules: String = user_rules_path_in(dir);
    let config_schema: String = join(schemas.as_str(), "flow-config.schema.json");
    let rules_schema: String = join(schemas.as_str(), "flow-rules.schema.json");
    let mut steps: Vec<InitStep> = Vec::new();
    steps.push(create_step(dir, "config"));
    steps.push(create_step(schemas.as_str(), "schemas"));
    match &contents.default_rules {
        Err(cause) => {
            steps.push(
                InitStep::Fail {
                    message: concat(
                        "failed to serialize default WindowRulesConfig: ",
                        cause.as_str(),
                    ),
                },
            );
        },
        Ok(default_rules) => {
            steps.push(write_step(config.as_str(), contents.config_example.as_str(), "config"));
            let rules_content: String = concat(FLOW_RULES_SCHEMA_HEADER, default_rules.as_str());
            steps.push(write_step(rules.as_str(), rules_content.as_str(), "rules"));
            if let Ok(schema) = &contents.config_schema {
                steps.push(
                    InitStep::WriteNew {
                        path: config_schema.clone(),
                        content: schema.clone(),
                        failure: None,
                    },
                );
            }
            if let Ok(schema) = &contents.rules_schema {
                steps.push(
                    InitStep::WriteNew {
                        path: rules_schema.clone(),
                        content: schema.clone(),
                        failure: None,
                    },
                );
            }
        },
    }
    assert(sets_up(
        steps@,
        dir@,
        *contents,
        schemas@,
        config@,
        rules@,
        config_schema@,
        rules_schema@,
    ));
    steps
}

impl InitStep {
    /// The message that ends the set-up when this step came out as `outcome` says; none where
    /// it goes on.
    pub open spec fn abort(&self, outcome: Result<bool, String>) -> Option<Seq<char>> {
        match self {
            InitStep::Fail { message } => Some(message@),
            InitStep::CreateDir { failure, .. } => match outcome {
                Ok(_) => None,
                Err(cause) => Some(failure@ + cause@),
            },
            InitStep::WriteNew { failure, .. } => match (outcome, failure) {
                (Err(cause), Some(start)) => Some(start@ + cause@),
                _ => None,
            },
        }
    }

    /// Whether the set-up goes on after this step came out as `outcome` says, or the message
    /// that it ends with.
    pub fn finish(&self, outcome: &Result<bool, String>) -> (res: Result<(), String>)
        ensures
            crate::config::types::reports(res, self.abort(*outcome)),
    {
        match self {
            InitStep::Fail { message } => Err(message.clone()),
            InitStep::CreateDir { failure, .. } => match outcome {
                Ok(_) => Ok(()),
                Err(cause) => Err(concat(failure.as_str(), cause.as_str())),
            },
            InitStep::WriteNew { failure, .. } => match (outcome, failure) {
                (Err(cause), Some(start)) => Err(concat(start.as_str(), cause.as_str())),
                _ => Ok(()),
            },
        }
    }
}

/// A run of the steps that set up a configuration directory.
#[derive(Debug)]
pub struct InitRun {
    /// The steps.
    pub steps: Vec<InitStep>,
    /// How many of them were done.
    pub done: usize,
    /// The message that ended the run.
    pub failure: Option<String>,
}

impl InitRun {
    /// Whether no more steps are done than there are.
    pub open spec fn well_formed(&self) -> bool {
        self.done <= self.steps@.len()
    }

    /// Whether there is a step to do.
    pub open spec fn goes_on(&self) -> bool {
        self.failure is None && self.done < self.steps@.len()
    }

    /// Whether this is the run after its current step came out as `outcome` says.
    pub open spec fn advanced(&self, after: InitRun, outcome: Result<bool, String>) -> bool {
        &&& after.steps@ == self.steps@
        &&& after.done == self.done + 1
        &&& text_of(after.failure) == self.steps@[self.done as int].abort(outcome)
    }

    /// A run at its start.
    pub fn new(steps: Vec<InitStep>) -> (res: Self)
        ensures
            res.well_formed(),
            res.steps == steps,
            res.done == 0,
            res.failure is None,
    {
        InitRun { steps, done: 0, failure: None }
    }

    /// The step to do; none where the run is over.
    pub fn current(&self) -> (res: Option<&InitStep>)
        ensures
            res == if self.goes_on() {
                Some(&self.steps@[self.done as int])
            } else {
                None
            },
    {
        if self.failure.is_none() && self.done < self.steps.len() {
            Some(&self.steps[self.done])
        } else {
            None
        }
    }

    /// Goes on after the current step came out as `outcome` says.
    pub fn advance(&mut self, outcome: &Result<bool, String>)
        requires
            old(self).goes_on(),
        ensures
            final(self).well_formed(),
            old(self).advanced(*final(self), *outcome),
    {
        let count: usize = self.steps.len();
        assert(self.done < count);
        match self.steps[self.done].finish(outcome) {
            Ok(()) => {},
            Err(message) => {
                self.failure = Some(message);
            },
        }
        self.done = self.done + 1;
    }

    /// The result of a run that is over.
    pub fn result(self) -> (res: Result<(), String>)
        ensures
            crate::config::types::reports(res, text_of(self.failure)),
    {
        match self.failure {
            Some(message) => Err(message),
            None => Ok(()),
        }
    }
}

/// A run that is over failed exactly when some step aborted it. That was the last step that was
/// done, and the message is its own. A run that did not fail did every step.
pub proof fn set_up_fails_with_the_first_step_that_aborts(
    runs: Seq<InitRun>,
    outcomes: Seq<Result<bool, String>>,
)
    requires
        runs.len() == outcomes.len() + 1,
        runs[0].done == 0,
        runs[0].failure is None,
        forall|i: int|
            0 <= i < outcomes.len() ==> (#[trigger] runs[i]).goes_on() && runs[i].advanced(
                runs[i + 1],
                outcomes[i],
            ),
        !runs.last().goes_on(),
    ensures
        ({
            let steps = runs[0].steps@;
            let n = outcomes.len() as int;
            &&& n <= steps.len()
            &&& runs.last().failure is None <==> n == steps.len() && forall|i: int|
                0 <= i < n ==> (#[trigger] steps[i]).abort(outcomes[i]) is None
            &&& runs.last().failure is Some ==> n > 0 && steps[n - 1].abort(outcomes[n - 1])
                == text_of(runs.last().failure)
            &&& forall|i: int| 0 <= i < n - 1 ==> (#[trigger] steps[i]).abort(outcomes[i]) is None
        }),
{
    let steps = runs[0].steps@;
    let n = outcomes.len() as int;
    assert forall|i: int| 0 <= i <= n implies (#[trigger] runs[i]).steps@ == steps && runs[i].done
        == i by {
        lemma_run_advances(runs, outcomes, i);
    }
    assert forall|i: int| 0 <= i < n implies text_of(runs[i + 1].failure) == (
    #[trigger] steps[i]).abort(outcomes[i]) by {
        assert(runs[i].goes_on() && runs[i].advanced(runs[i + 1], outcomes[i]));
        assert(runs[i].steps@ == steps);
    }
    assert forall|i: int| 0 <= i < n - 1 implies (#[trigger] steps[i]).abort(
        outcomes[i],
    ) is None by {
        assert(runs[i + 1].goes_on());
    }
    if n > 0 {
        assert(runs[n - 1].goes_on());
        assert(runs[n - 1].done == n - 1);
        assert(text_of(runs[n - 1 + 1].failure) == steps[n - 1].abort(outcomes[n - 1]));
    }
    assert(runs.last() == runs[n]);
    assert(runs[n].done == n);
    if runs.last().failure is None {
        assert forall|i: int| 0 <= i < n implies (#[trigger] steps[i]).abort(
            outcomes[i],
        ) is None by {
            if i == n - 1 {
                assert(text_of(runs[n].failure) == steps[n - 1].abort(outcomes[n - 1]));
            }
        }
    }
}

proof fn lemma_run_advances(runs: Seq<InitRun>, outcomes: Seq<Result<bool, String>>, i: int)
    requires
        runs.len() == outcomes.len() + 1,
        runs[0].done == 0,
        forall|k: int|
            0 <= k < outcomes.len() ==> (#[trigger] runs[k]).goes_on() && runs[k].advanced(
                runs[k + 1],
                outcomes[k],
            ),
        0 <= i < runs.len(),
    ensures
        runs[i].steps@ == runs[0].steps@,
        runs[i].done == i,
    decreases i,
{
    if i > 0 {
        lemma_run_advances(runs, outcomes, i - 1);
        assert(runs[i - 1].goes_on() && runs[i - 1].advanced(runs[i - 1 + 1], outcomes[i - 1]));
    }
}

/// Whether a default file is to be written: only where there is none, so that nothing the user
/// wrote is lost.
pub fn writes_default_file(present: bool) -> (res: bool)
    ensures
        res == !present,
{
    !present
}

/// Path of `flow.ahk` in a directory.
pub fn ahk_template_path(dir: &str) -> (res: String)
    ensures
        joined(dir@, "flow.ahk"@, res@),
{
    proof {
        reveal_strlit("flow.ahk");
    }
    join(dir, "flow.ahk")
}

/// The result of writing the key binding template to `dir`, from what came of writing the file
/// unless it is there: whether it is new, or a message that names the file.
pub fn write_ahk_template(dir: &str, written: Result<bool, String>) -> (res: Result<bool, String>)
    ensures
        match written {
            Ok(new) => res == Ok::<bool, String>(new),
            Err(cause) => res is Err && exists|path: Seq<char>| #[trigger]
                joined(dir@, "flow.ahk"@, path) && res->Err_0@
                    == "failed to write AutoHotkey template "@ + debug_quoted(path) + ": "@
                    + cause@,
        },
{
    match written {
        Ok(new) => Ok(new),
        Err(cause) => {
            let path: String = ahk_template_path(dir);
            let start: String = failure_text("failed to write AutoHotkey template ", path.as_str());
            Err(concat(start.as_str(), cause.as_str()))
        },
    }
}

// ---------------------------------------------------------------------------
// Checking the files
// ---------------------------------------------------------------------------

/// What came of looking at a configuration file.
#[derive(Debug)]
pub enum FileCheck<T> {
    /// There is no such file.
    Missing,
    /// It could not be read.
    Unreadable(String),
    /// It could not be understood.
    Malformed(String),
    /// What it says.
    Parsed(T),
}

/// The fault of the settings file, given its path.
pub open spec fn app_fault(path: Seq<char>, file: FileCheck<FlowConfig>) -> Option<Seq<char>> {
    match file {
        FileCheck::Missing => None,
        FileCheck::Unreadable(cause) => Some(
            "failed to read "@ + debug_quoted(path) + ": "@ + cause@,
        ),
        FileCheck::Malformed(cause) => Some("flow.toml parse error: "@ + cause@),
        FileCheck::Parsed(config) => match config.fault() {
            Some(fault) => Some("flow.toml validation error: "@ + fault),
            None => None,
        },
    }
}

/// The fault of the rules file, given its path.
pub open spec fn rules_fault(
    path: Seq<char>,
    file: FileCheck<WindowRulesConfig>,
) -> Option<Seq<char>> {
    match file {
        FileCheck::Missing => None,
        FileCheck::Unreadable(cause) => Some(
            "failed to read "@ + debug_quoted(path) + ": "@ + cause@,
        ),
        FileCheck::Malformed(cause) => Some("flow-rules.toml parse error: "@ + cause@),
        FileCheck::Parsed(_) => None,
    }
}

/// The first fault of the two files.
pub open spec fn config_fault(
    app_path: Seq<char>,
    rules_path: Seq<char>,
    app: FileCheck<FlowConfig>,
    rules: FileCheck<WindowRulesConfig>,
) -> Option<Seq<char>> {
    match app_fault(app_path, app) {
        Some(fault) => Some(fault),
        None => rules_fault(rules_path, rules),
    }
}

/// Checks the two configuration files of a directory. Files that are not there are no fault; the
/// message is about the first fault.
#[must_use]
pub fn check_config(
    dir: &str,
    app: &FileCheck<FlowConfig>,
    rules: &FileCheck<WindowRulesConfig>,
) -> (res: Result<(), String>)
    ensures
        exists|app_path: Seq<char>, rules_path: Seq<char>|
            {
                &&& #[trigger] joined(dir@, "flow.toml"@, app_path)
                &&& #[trigger] joined(dir@, "flow-rules.toml"@, rules_path)
                &&& crate::config::types::reports(
                    res,
                    config_fault(app_path, rules_path, *app, *rules),
                )
            },
{
    let app_path: String = user_app_config_path_in(dir);
    let rules_path: String = user_rules_path_in(dir);
    match app {
        FileCheck::Missing => {},
        FileCheck::Unreadable(cause) => {
            let start: String = failure_text("failed to read ", app_path.as_str());
            return Err(concat(start.as_str(), cause.as_str()));
        },
        FileCheck::Malformed(cause) => {
            return Err(concat("flow.toml parse error: ", cause.as_str()));
        },
        FileCheck::Parsed(config) => {
            if let Err(fault) = config.validate() {
                return Err(concat("flow.toml validation error: ", fault.as_str()));
            }
        },
    }
    match rules {
        FileCheck::Missing => Ok(()),
        FileCheck::Unreadable(cause) => {
            let start: String = failure_text("failed to read ", rules_path.as_str());
            Err(concat(start.as_str(), cause.as_str()))
        },
        FileCheck::Malformed(cause) => Err(concat("flow-rules.toml parse error: ", cause.as_str())),
        FileCheck::Parsed(_) => Ok(()),
    }
}

/// A directory without configuration files passes the check.
pub proof fn missing_files_pass_the_check(app_path: Seq<char>, rules_path: Seq<char>)
    ensures
        config_fault(app_path, rules_path, FileCheck::Missing, FileCheck::Missing) is None,
{
}

/// A directory that was just set up, so that its settings are the defaults, passes the check,
/// whatever rules it has.
pub proof fn default_files_pass_the_check(
    app_path: Seq<char>,
    rules_path: Seq<char>,
    config: FlowConfig,
    rules: WindowRulesConfig,
)
    requires
        config.is_default(),
    ensures
        config_fault(
            app_path,
            rules_path,
            FileCheck::Parsed(config),
            FileCheck::Parsed(rules),
        ) is None,
{
}

/// The files, by path, after a step succeeded on them.
pub open spec fn after_step(
    files: Map<Seq<char>, Seq<char>>,
    step: InitStep,
) -> Map<Seq<char>, Seq<char>> {
    match step {
        InitStep::WriteNew { path, content, .. } => if files.contains_key(path@) {
            files
        } else {
            files.insert(path@, content@)
        },
        _ => files,
    }
}

/// The files, by path, after a list of steps succeeded on them.
pub open spec fn after_steps(
    files: Map<Seq<char>, Seq<char>>,
    steps: Seq<InitStep>,
) -> Map<Seq<char>, Seq<char>>
    decreases steps.len(),
{
    if steps.len() == 0 {
        files
    } else {
        after_step(after_steps(files, steps.drop_last()), steps.last())
    }
}

/// Setting up a directory leaves every file that is there as it is.
pub proof fn existing_files_are_never_replaced(
    files: Map<Seq<char>, Seq<char>>,
    steps: Seq<InitStep>,
    path: Seq<char>,
)
    requires
        files.contains_key(path),
    ensures
        after_steps(files, steps).contains_key(path),
        after_steps(files, steps)[path] == files[path],
    decreases steps.len(),
{
    if steps.len() > 0 {
        existing_files_are_never_replaced(files, steps.drop_last(), path);
    }
}

/// Where every file of a list of steps is there, the steps change nothing.
proof fn lemma_nothing_to_write(files: Map<Seq<char>, Seq<char>>, steps: Seq<InitStep>)
    requires
        forall|i: int|
            0 <= i < steps.len() && #[trigger] steps[i] is WriteNew ==> files.contains_key(
                steps[i]->WriteNew_path@,
            ),
    ensures
        after_steps(files, steps) == files,
    decreases steps.len(),
{
    if steps.len() > 0 {
        let rest = steps.drop_last();
        assert forall|i: int| 0 <= i < rest.len() && #[trigger] rest[i] is WriteNew implies
            files.contains_key(rest[i]->WriteNew_path@) by {
            assert(rest[i] == steps[i]);
        }
        lemma_nothing_to_write(files, rest);
        assert(steps.last() == steps[steps.len() - 1]);
    }
}

/// After a list of steps every file of it is there.
pub proof fn set_up_leaves_every_file(
    files: Map<Seq<char>, Seq<char>>,
    steps: Seq<InitStep>,
    i: int,
)
    requires
        0 <= i < steps.len(),
        steps[i] is WriteNew,
    ensures
        after_steps(files, steps).contains_key(steps[i]->WriteNew_path@),
    decreases steps.len(),
{
    if i < steps.len() - 1 {
        set_up_leaves_every_file(files, steps.drop_last(), i);
    }
}

/// Setting up a directory twice is setting it up once.
pub proof fn set_up_is_idempotent(files: Map<Seq<char>, Seq<char>>, steps: Seq<InitStep>)
    ensures
        after_steps(after_steps(files, steps), steps) == after_steps(files, steps),
{
    let once = after_steps(files, steps);
    assert forall|i: int| 0 <= i < steps.len() && #[trigger] steps[i] is WriteNew implies
        once.contains_key(steps[i]->WriteNew_path@) by {
        set_up_leaves_every_file(files, steps, i);
    }
    lemma_nothing_to_write(once, steps);
}

/// Once the directories are there and the default rules could be written down, only a file that
/// cannot be written ends the set-up early, and never a schema.
pub proof fn schemas_do_not_stop_the_set_up(
    steps: Seq<InitStep>,
    dir: Seq<char>,
    contents: InitContents,
    schemas: Seq<char>,
    config: Seq<char>,
    rules: Seq<char>,
    config_schema: Seq<char>,
    rules_schema: Seq<char>,
    i: int,
    outcome: Result<bool, String>,
)
    requires
        sets_up(steps, dir, contents, schemas, config, rules, config_schema, rules_schema),
        contents.default_rules is Ok,
        0 <= i < steps.len(),
        i >= 4 || outcome is Ok,
    ensures
        steps[i].abort(outcome) is None,
{
}

/// The check passes exactly when each file passes on its own: it is not there, or it is understood
/// and, for the settings, every setting is within its limits.
pub proof fn check_passes_exactly_when_both_files_pass(
    app_path: Seq<char>,
    rules_path: Seq<char>,
    app: FileCheck<FlowConfig>,
    rules: FileCheck<WindowRulesConfig>,
)
    ensures
        config_fault(app_path, rules_path, app, rules) is None <==> {
            &&& app is Missing || (app is Parsed && app->Parsed_0.fault() is None)
            &&& rules is Missing || rules is Parsed
        },
{
}

/// A fault of the settings file is reported whatever the rules file is, and one of the rules file
/// wherever the settings file passes.
pub proof fn each_fault_is_reported_in_its_words(
    app_path: Seq<char>,
    rules_path: Seq<char>,
    app: FileCheck<FlowConfig>,
    rules: FileCheck<WindowRulesConfig>,
)
    ensures
        ({
            let fault = config_fault(app_path, rules_path, app, rules);
            let app_passes = app is Missing || (app is Parsed && app->Parsed_0.fault() is None);
            &&& app is Unreadable ==> fault == Some(
                "failed to read "@ + debug_quoted(app_path) + ": "@ + app->Unreadable_0@,
            )
            &&& app is Malformed ==> fault == Some(
                "flow.toml parse error: "@ + app->Malformed_0@,
            )
            &&& app is Parsed && app->Parsed_0.fault() is Some ==> fault == Some(
                "flow.toml validation error: "@ + app->Parsed_0.fault()->Some_0,
            )
            &&& app_passes && rules is Unreadable ==> fault == Some(
                "failed to read "@ + debug_quoted(rules_path) + ": "@ + rules->Unreadable_0@,
            )
            &&& app_passes && rules is Malformed ==> fault == Some(
                "flow-rules.toml parse error: "@ + rules->Malformed_0@,
            )
        }),
{
}

/// A file that could not be loaded is named in the message, with the kind of failure and its cause.
pub proof fn load_failures_name_file_and_cause(path: Seq<char>, cause: String)
    ensures
        load_failure(path, ConfigLoadError::Io(cause)) == "failed to load config "@ + path + ": "@
            + ("I/O error: "@ + cause@),
        load_failure(path, ConfigLoadError::Parse(cause)) == "failed to load config "@ + path
            + ": "@ + ("parse error: "@ + cause@),
        load_failure(path, ConfigLoadError::Missing) == "failed to load config "@ + path + ": "@
            + "file not found"@,
{
}

/// A step ends the set-up exactly when it gives up, or when what it does failed and that matters.
/// The message then ends with the cause.
pub proof fn steps_abort_on_failures_that_matter(step: InitStep, outcome: Result<bool, String>)
    ensures
        step.abort(outcome) is Some <==> step is Fail || (outcome is Err && (step is CreateDir || (
        step is WriteNew && step->WriteNew_failure is Some))),
        step is Fail ==> step.abort(outcome) == Some(step->Fail_message@),
        step is CreateDir && outcome is Err ==> step.abort(outcome) == Some(
            step->CreateDir_failure@ + outcome->Err_0@,
        ),
        step is WriteNew && step->WriteNew_failure is Some && outcome is Err ==> step.abort(outcome)
            == Some(step->WriteNew_failure->Some_0@ + outcome->Err_0@),
{
}

/// What a set-up does, in order: it creates the directory and the one for schemas in it, then
/// writes the example settings and the default rules under the line that names their schema, and
/// last the schemas that could be generated, whose failure does not matter.
pub proof fn set_up_creates_directories_and_writes_files(
    steps: Seq<InitStep>,
    dir: Seq<char>,
    contents: InitContents,
    schemas: Seq<char>,
    config: Seq<char>,
    rules: Seq<char>,
    config_schema: Seq<char>,
    rules_schema: Seq<char>,
)
    requires
        sets_up(steps, dir, contents, schemas, config, rules, config_schema, rules_schema),
    ensures
        joined(dir, "schemas"@, schemas),
        joined(dir, "flow.toml"@, config),
        joined(dir, "flow-rules.toml"@, rules),
        joined(schemas, "flow-config.schema.json"@, config_schema),
        joined(schemas, "flow-rules.schema.json"@, rules_schema),
        steps.len() >= 3,
        steps[0] is CreateDir && steps[0]->CreateDir_path@ == dir && steps[0]->CreateDir_failure@
            == "failed to create "@ + "config"@ + " directory "@ + debug_quoted(dir) + ": "@,
        steps[1] is CreateDir && steps[1]->CreateDir_path@ == schemas
            && steps[1]->CreateDir_failure@ == "failed to create "@ + "schemas"@ + " directory "@
            + debug_quoted(schemas) + ": "@,
        contents.default_rules is Err ==> steps.len() == 3 && steps[2] is Fail
            && steps[2]->Fail_message@ == "failed to serialize default WindowRulesConfig: "@
            + contents.default_rules->Err_0@,
        contents.default_rules is Ok ==> {
            &&& steps.len() >= 4
            &&& steps[2] is WriteNew && steps[2]->WriteNew_path@ == config
                && steps[2]->WriteNew_content@ == contents.config_example@
                && steps[2]->WriteNew_failure is Some && steps[2]->WriteNew_failure->Some_0@
                == "failed to write default "@ + "config"@ + " "@ + debug_quoted(config) + ": "@
            &&& steps[3] is WriteNew && steps[3]->WriteNew_path@ == rules
                && steps[3]->WriteNew_content@
                == "#:schema ./schemas/flow-rules.schema.json\n\n"@ + contents.default_rules->Ok_0@
                && steps[3]->WriteNew_failure is Some && steps[3]->WriteNew_failure->Some_0@
                == "failed to write default "@ + "rules"@ + " "@ + debug_quoted(rules) + ": "@
            &&& contents.config_schema is Ok ==> steps.len() >= 5 && steps[4] is WriteNew
                && steps[4]->WriteNew_path@ == config_schema && steps[4]->WriteNew_content@
                == contents.config_schema->Ok_0@
            &&& contents.rules_schema is Ok ==> steps.last() is WriteNew
                && steps.last()->WriteNew_path@ == rules_schema && steps.last()->WriteNew_content@
                == contents.rules_schema->Ok_0@
            &&& steps.len() == 4 + (if contents.config_schema is Ok { 1int } else { 0 }) + (
            if contents.rules_schema is Ok { 1int } else { 0 })
            &&& forall|i: int|
                4 <= i < steps.len() ==> (#[trigger] steps[i]) is WriteNew
                    && steps[i]->WriteNew_failure is None
        },
{
}

} // verus!
