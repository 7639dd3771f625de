//! Loading and saving the configuration: step by step, with file operations in between.
//!
//! `load_or_create`, `load_existing`, `save` and `set_extension_port` give the first step. A step
//! is either the end, with the configuration that is then in force, or a `ConfigRun` that waits
//! for an action to be carried out; `ConfigRun::reply` takes what came of it and gives the next
//! step.

use vstd::prelude::*;

use crate::config::{
    bare_error, config_dir_in, config_path, config_path_in, default_config, error_at, failed_at,
    home_of, plain_error, port_fault, user_config_dir, valid_port, validate_port, AppConfig,
    ConfigError, ConfigErrorKind, ConfigErrorView, HomeVars, HomeVarsView,
};
use crate::path::LocalPath;
use crate::text::{blank, is_blank, joined};

verus! {

// ---- Actions and replies ----

/// An action to carry out.
#[derive(Debug)]
pub enum ConfigAction {
    /// See whether there is anything at the path.
    Exists(LocalPath),
    /// Read the file as text.
    Read(LocalPath),
    /// Read the text as a configuration.
    Parse(String),
    /// Make the directory and those above it, as far as they are missing.
    CreateDirs(LocalPath),
    /// Write the configuration as text.
    Serialize(AppConfig),
    /// Make the text the content of the file.
    Write { path: LocalPath, text: String },
}

/// What came of an action, or the text of the error that came instead.
#[derive(Debug)]
pub enum ConfigReply {
    Exists(bool),
    Read(Result<String, String>),
    Parsed(Result<AppConfig, String>),
    Created(Result<(), String>),
    Serialized(Result<String, String>),
    Written(Result<(), String>),
}

/// The model of an action.
pub enum ConfigActionView {
    Exists(Seq<u8>),
    Read(Seq<u8>),
    Parse(Seq<char>),
    CreateDirs(Seq<u8>),
    Serialize(AppConfig),
    Write { path: Seq<u8>, text: Seq<char> },
}

/// The model of a reply.
pub enum ConfigReplyView {
    Exists(bool),
    Read(Result<Seq<char>, Seq<char>>),
    Parsed(Result<AppConfig, Seq<char>>),
    Created(Result<(), Seq<char>>),
    Serialized(Result<Seq<char>, Seq<char>>),
    Written(Result<(), Seq<char>>),
}

/// The model of text or an error.
pub open spec fn text_result(r: Result<String, String>) -> Result<Seq<char>, Seq<char>> {
    match r {
        Ok(s) => Ok(s@),
        Err(error) => Err(error@),
    }
}

/// The model of what may fail.
pub open spec fn unit_result(r: Result<(), String>) -> Result<(), Seq<char>> {
    match r {
        Ok(_) => Ok(()),
        Err(error) => Err(error@),
    }
}

impl View for ConfigAction {
    type V = ConfigActionView;

    open spec fn view(&self) -> ConfigActionView {
        match *self {
            ConfigAction::Exists(path) => ConfigActionView::Exists(path@),
            ConfigAction::Read(path) => ConfigActionView::Read(path@),
            ConfigAction::Parse(text) => ConfigActionView::Parse(text@),
            ConfigAction::CreateDirs(path) => ConfigActionView::CreateDirs(path@),
            ConfigAction::Serialize(config) => ConfigActionView::Serialize(config),
            ConfigAction::Write { path, text } => ConfigActionView::Write {
                path: path@,
                text: text@,
            },
        }
    }
}

impl View for ConfigReply {
    type V = ConfigReplyView;

    open spec fn view(&self) -> ConfigReplyView {
        match *self {
            ConfigReply::Exists(yes) => ConfigReplyView::Exists(yes),
            ConfigReply::Read(r) => ConfigReplyView::Read(text_result(r)),
            ConfigReply::Parsed(Ok(config)) => ConfigReplyView::Parsed(Ok(config)),
            ConfigReply::Parsed(Err(error)) => ConfigReplyView::Parsed(Err(error@)),
            ConfigReply::Created(r) => ConfigReplyView::Created(unit_result(r)),
            ConfigReply::Serialized(r) => ConfigReplyView::Serialized(text_result(r)),
            ConfigReply::Written(r) => ConfigReplyView::Written(unit_result(r)),
        }
    }
}

// ---- The state of a run ----

/// What is to become of the configuration once it is loaded.
#[derive(Debug, Clone, Copy, PartialEq, Eq, Structural)]
pub enum Goal {
    /// It stays as it is.
    Keep,
    /// Its port is replaced, and it is saved.
    SetPort(u16),
}

/// How far a run has come. A configuration that is being saved is the `last` one to be, or the
/// default one, which stands for one that was loaded.
#[derive(Debug)]
pub enum ConfigStage {
    Checking,
    Reading,
    Parsing { text: String },
    CreatingDir { config: AppConfig, last: bool },
    Serializing { config: AppConfig, last: bool },
    Writing { config: AppConfig, last: bool, text: String },
}

/// A run that waits for an action to be carried out.
#[derive(Debug)]
pub struct ConfigRun {
    pub goal: Goal,
    /// An empty file is refused and not filled.
    pub existing_only: bool,
    pub dir: LocalPath,
    pub file: LocalPath,
    pub stage: ConfigStage,
}

/// A step of a run.
#[derive(Debug)]
pub enum ConfigStep {
    Act(ConfigRun),
    Done(Result<AppConfig, ConfigError>),
}

/// The model of a stage.
pub enum ConfigStageView {
    Checking,
    Reading,
    Parsing { text: Seq<char> },
    CreatingDir { config: AppConfig, last: bool },
    Serializing { config: AppConfig, last: bool },
    Writing { config: AppConfig, last: bool, text: Seq<char> },
}

/// The model of a run.
pub struct ConfigRunView {
    pub goal: Goal,
    pub existing_only: bool,
    pub dir: Seq<u8>,
    pub file: Seq<u8>,
    pub stage: ConfigStageView,
}

/// The model of a step.
pub enum ConfigStepView {
    Act(ConfigRunView),
    Done(Result<AppConfig, ConfigErrorView>),
}

impl View for ConfigStage {
    type V = ConfigStageView;

    open spec fn view(&self) -> ConfigStageView {
        match *self {
            ConfigStage::Checking => ConfigStageView::Checking,
            ConfigStage::Reading => ConfigStageView::Reading,
            ConfigStage::Parsing { text } => ConfigStageView::Parsing { text: text@ },
            ConfigStage::CreatingDir { config, last } => ConfigStageView::CreatingDir {
                config,
                last,
            },
            ConfigStage::Serializing { config, last } => ConfigStageView::Serializing {
                config,
                last,
            },
            ConfigStage::Writing { config, last, text } => ConfigStageView::Writing {
                config,
                last,
                text: text@,
            },
        }
    }
}

impl View for ConfigRun {
    type V = ConfigRunView;

    open spec fn view(&self) -> ConfigRunView {
        ConfigRunView {
            goal: self.goal,
            existing_only: self.existing_only,
            dir: self.dir@,
            file: self.file@,
            stage: self.stage@,
        }
    }
}

impl View for ConfigStep {
    type V = ConfigStepView;

    open spec fn view(&self) -> ConfigStepView {
        match *self {
            ConfigStep::Act(run) => ConfigStepView::Act(run@),
            ConfigStep::Done(Ok(config)) => ConfigStepView::Done(Ok(config)),
            ConfigStep::Done(Err(error)) => ConfigStepView::Done(Err(error@)),
        }
    }
}

// ---- What each step is ----

/// The run, come to another stage.
pub open spec fn at_stage(run: ConfigRunView, stage: ConfigStageView) -> ConfigStepView {
    ConfigStepView::Act(ConfigRunView { stage, ..run })
}

/// The step that saves a configuration: one with a port that the extension cannot have is
/// refused.
pub open spec fn save_step(run: ConfigRunView, config: AppConfig, last: bool) -> ConfigStepView {
    match port_fault(config.extension_port) {
        Some(kind) => ConfigStepView::Done(Err(plain_error(kind))),
        None => at_stage(run, ConfigStageView::CreatingDir { config, last }),
    }
}

/// The step once a configuration is loaded.
pub open spec fn loaded_step(run: ConfigRunView, config: AppConfig) -> ConfigStepView {
    match run.goal {
        Goal::Keep => ConfigStepView::Done(Ok(config)),
        Goal::SetPort(port) => save_step(run, AppConfig { extension_port: port }, true),
    }
}

/// The step where there is no configuration yet: the default one is saved in its place.
pub open spec fn create_step(run: ConfigRunView) -> ConfigStepView {
    save_step(run, default_config(), false)
}

/// The step once the file is read.
pub open spec fn read_step(run: ConfigRunView, text: Seq<char>) -> ConfigStepView {
    if !blank(text) {
        at_stage(run, ConfigStageView::Parsing { text })
    } else if run.existing_only {
        ConfigStepView::Done(Err(error_at(ConfigErrorKind::EmptyConfig, run.file)))
    } else {
        create_step(run)
    }
}

/// The step once the text is read as a configuration.
pub open spec fn parsed_step(run: ConfigRunView, config: AppConfig) -> ConfigStepView {
    match port_fault(config.extension_port) {
        Some(kind) => ConfigStepView::Done(Err(plain_error(kind))),
        None => loaded_step(run, config),
    }
}

/// The step after a reply. A reply to some other action changes nothing.
pub open spec fn next_config_step(run: ConfigRunView, reply: ConfigReplyView) -> ConfigStepView {
    match (run.stage, reply) {
        (ConfigStageView::Checking, ConfigReplyView::Exists(yes)) => if yes {
            at_stage(run, ConfigStageView::Reading)
        } else {
            create_step(run)
        },
        (ConfigStageView::Reading, ConfigReplyView::Read(Ok(text))) => read_step(run, text),
        (ConfigStageView::Reading, ConfigReplyView::Read(Err(cause))) => ConfigStepView::Done(
            Err(failed_at(ConfigErrorKind::ReadConfig, run.file, cause)),
        ),
        (ConfigStageView::Parsing { .. }, ConfigReplyView::Parsed(Ok(config))) => parsed_step(
            run,
            config,
        ),
        (ConfigStageView::Parsing { .. }, ConfigReplyView::Parsed(Err(cause))) =>
            ConfigStepView::Done(Err(failed_at(ConfigErrorKind::ParseConfig, run.file, cause))),
        (
            ConfigStageView::CreatingDir { config, last },
            ConfigReplyView::Created(Ok(_)),
        ) => at_stage(run, ConfigStageView::Serializing { config, last }),
        (ConfigStageView::CreatingDir { .. }, ConfigReplyView::Created(Err(cause))) =>
            ConfigStepView::Done(Err(failed_at(ConfigErrorKind::CreateConfigDir, run.dir, cause))),
        (
            ConfigStageView::Serializing { config, last },
            ConfigReplyView::Serialized(Ok(text)),
        ) => at_stage(run, ConfigStageView::Writing { config, last, text: text + "\n"@ }),
        (ConfigStageView::Serializing { .. }, ConfigReplyView::Serialized(Err(cause))) =>
            ConfigStepView::Done(Err(bare_error(cause))),
        (
            ConfigStageView::Writing { config, last, .. },
            ConfigReplyView::Written(Ok(_)),
        ) => if last {
            ConfigStepView::Done(Ok(config))
        } else {
            loaded_step(run, config)
        },
        (ConfigStageView::Writing { .. }, ConfigReplyView::Written(Err(cause))) =>
            ConfigStepView::Done(Err(failed_at(ConfigErrorKind::WriteConfig, run.file, cause))),
        _ => ConfigStepView::Act(run),
    }
}

/// The action that a run waits for.
pub open spec fn action_of(run: ConfigRunView) -> ConfigActionView {
    match run.stage {
        ConfigStageView::Checking => ConfigActionView::Exists(run.file),
        ConfigStageView::Reading => ConfigActionView::Read(run.file),
        ConfigStageView::Parsing { text } => ConfigActionView::Parse(text),
        ConfigStageView::CreatingDir { .. } => ConfigActionView::CreateDirs(run.dir),
        ConfigStageView::Serializing { config, .. } => ConfigActionView::Serialize(config),
        ConfigStageView::Writing { text, .. } => ConfigActionView::Write { path: run.file, text },
    }
}

/// A run at its first stage, where the home directory is known.
pub open spec fn begin_step(
    vars: HomeVarsView,
    goal: Goal,
    existing_only: bool,
    stage: ConfigStageView,
) -> ConfigStepView {
    match home_of(vars) {
        Some(home) => ConfigStepView::Act(
            ConfigRunView {
                goal,
                existing_only,
                dir: config_dir_in(home),
                file: config_path_in(home),
                stage,
            },
        ),
        None => ConfigStepView::Done(Err(plain_error(ConfigErrorKind::HomeUnknown))),
    }
}

/// The first step of loading the configuration, or making one where there is none.
pub open spec fn load_or_create_step(vars: HomeVarsView) -> ConfigStepView {
    begin_step(vars, Goal::Keep, false, ConfigStageView::Checking)
}

/// The first step of loading the configuration that is there.
pub open spec fn load_existing_step(vars: HomeVarsView) -> ConfigStepView {
    begin_step(vars, Goal::Keep, true, ConfigStageView::Reading)
}

/// The first step of saving a configuration.
pub open spec fn save_config_step(vars: HomeVarsView, config: AppConfig) -> ConfigStepView {
    match port_fault(config.extension_port) {
        Some(kind) => ConfigStepView::Done(Err(plain_error(kind))),
        None => begin_step(
            vars,
            Goal::Keep,
            false,
            ConfigStageView::CreatingDir { config, last: true },
        ),
    }
}

/// The first step of replacing the port.
pub open spec fn set_port_step(vars: HomeVarsView, port: u16) -> ConfigStepView {
    match port_fault(port) {
        Some(kind) => ConfigStepView::Done(Err(plain_error(kind))),
        None => begin_step(vars, Goal::SetPort(port), false, ConfigStageView::Checking),
    }
}

/// What holds of the state of a run: a configuration that is being saved, and a port that is to
/// be set, is one that the extension can have.
pub open spec fn config_run_ok(run: ConfigRunView) -> bool {
    &&& run.goal matches Goal::SetPort(port) ==> valid_port(port)
    &&& match run.stage {
        ConfigStageView::CreatingDir { config, .. } => valid_port(config.extension_port),
        ConfigStageView::Serializing { config, .. } => valid_port(config.extension_port),
        ConfigStageView::Writing { config, .. } => valid_port(config.extension_port),
        _ => true,
    }
}

/// A step is a run whose state is in order, a failure, or a configuration with a port that the
/// extension can have.
pub open spec fn config_step_ok(step: ConfigStepView) -> bool {
    match step {
        ConfigStepView::Act(run) => config_run_ok(run),
        ConfigStepView::Done(Ok(config)) => valid_port(config.extension_port),
        ConfigStepView::Done(Err(_)) => true,
    }
}

// ---- Taking the steps ----

impl ConfigRun {
    fn come_to(self, stage: ConfigStage) -> (r: ConfigStep)
        ensures
            r@ == at_stage(self@, stage@),
    {
        ConfigStep::Act(ConfigRun { stage, ..self })
    }

    fn fail(self, kind: ConfigErrorKind, cause: String) -> (r: ConfigStep)
        ensures
            r@ == ConfigStepView::Done(Err(failed_at(kind, self@.file, cause@))),
    {
        ConfigStep::Done(Err(ConfigError::failed(kind, &self.file, cause)))
    }

    fn save(self, config: AppConfig, last: bool) -> (r: ConfigStep)
        ensures
            r@ == save_step(self@, config, last),
    {
        match validate_port(config.extension_port) {
            Err(error) => ConfigStep::Done(Err(error)),
            Ok(_) => self.come_to(ConfigStage::CreatingDir { config, last }),
        }
    }

    fn loaded(self, config: AppConfig) -> (r: ConfigStep)
        ensures
            r@ == loaded_step(self@, config),
    {
        match self.goal {
            Goal::Keep => ConfigStep::Done(Ok(config)),
            Goal::SetPort(port) => {
                let mut config = config;
                config.extension_port = port;
                self.save(config, true)
            },
        }
    }

    fn create(self) -> (r: ConfigStep)
        ensures
            r@ == create_step(self@),
    {
        self.save(AppConfig::default(), false)
    }

    fn read(self, text: String) -> (r: ConfigStep)
        ensures
            r@ == read_step(self@, text@),
    {
        if !is_blank(text.as_str()) {
            self.come_to(ConfigStage::Parsing { text })
        } else if self.existing_only {
            ConfigStep::Done(Err(ConfigError::at(ConfigErrorKind::EmptyConfig, &self.file)))
        } else {
            self.create()
        }
    }

    fn parsed(self, config: AppConfig) -> (r: ConfigStep)
        ensures
            r@ == parsed_step(self@, config),
    {
        match validate_port(config.extension_port) {
            Err(error) => ConfigStep::Done(Err(error)),
            Ok(_) => self.loaded(config),
        }
    }

    /// The action that this waits for.
    pub fn action(&self) -> (r: ConfigAction)
        ensures
            r@ == action_of(self@),
    {
        match &self.stage {
            ConfigStage::Checking => ConfigAction::Exists(self.file.copy()),
            ConfigStage::Reading => ConfigAction::Read(self.file.copy()),
            ConfigStage::Parsing { text } => ConfigAction::Parse(text.clone()),
            ConfigStage::CreatingDir { .. } => ConfigAction::CreateDirs(self.dir.copy()),
            ConfigStage::Serializing { config, .. } => ConfigAction::Serialize(*config),
            ConfigStage::Writing { text, .. } => ConfigAction::Write {
                path: self.file.copy(),
                text: text.clone(),
            },
        }
    }

    /// The step after a reply. A reply to some other action changes nothing.
    pub fn reply(self, reply: ConfigReply) -> (r: ConfigStep)
        ensures
            r@ == next_config_step(self@, reply@),
            config_run_ok(self@) ==> config_step_ok(r@),
    {
        let run = ConfigRun {
            goal: self.goal,
            existing_only: self.existing_only,
            dir: self.dir,
            file: self.file,
            stage: ConfigStage::Checking,
        };
        match (self.stage, reply) {
            (ConfigStage::Checking, ConfigReply::Exists(yes)) => if yes {
                run.come_to(ConfigStage::Reading)
            } else {
                run.create()
            },
            (ConfigStage::Reading, ConfigReply::Read(Ok(text))) => run.read(text),
            (ConfigStage::Reading, ConfigReply::Read(Err(cause))) => run.fail(
                ConfigErrorKind::ReadConfig,
                cause,
            ),
            (ConfigStage::Parsing { .. }, ConfigReply::Parsed(Ok(config))) => run.parsed(config),
            (ConfigStage::Parsing { .. }, ConfigReply::Parsed(Err(cause))) => run.fail(
                ConfigErrorKind::ParseConfig,
                cause,
            ),
            (ConfigStage::CreatingDir { config, last }, ConfigReply::Created(Ok(_))) =>
                run.come_to(ConfigStage::Serializing { config, last }),
            (ConfigStage::CreatingDir { .. }, ConfigReply::Created(Err(cause))) => ConfigStep::Done(
                Err(ConfigError::failed(ConfigErrorKind::CreateConfigDir, &run.dir, cause)),
            ),
            (ConfigStage::Serializing { config, last }, ConfigReply::Serialized(Ok(text))) =>
                run.come_to(
                    ConfigStage::Writing { config, last, text: joined(text.as_str(), "\n") },
                ),
            (ConfigStage::Serializing { .. }, ConfigReply::Serialized(Err(cause))) =>
                ConfigStep::Done(Err(ConfigError::bare(cause))),
            (ConfigStage::Writing { config, last, .. }, ConfigReply::Written(Ok(_))) => if last {
                ConfigStep::Done(Ok(config))
            } else {
                run.loaded(config)
            },
            (ConfigStage::Writing { .. }, ConfigReply::Written(Err(cause))) => run.fail(
                ConfigErrorKind::WriteConfig,
                cause,
            ),
            (stage, _) => run.come_to(stage),
        }
    }
}

fn begin(vars: &HomeVars, goal: Goal, existing_only: bool, stage: ConfigStage) -> (r: ConfigStep)
    ensures
        r@ == begin_step(vars@, goal, existing_only, stage@),
{
    match (user_config_dir(vars), config_path(vars)) {
        (Ok(dir), Ok(file)) => ConfigStep::Act(
            ConfigRun { goal, existing_only, dir, file, stage },
        ),
        _ => ConfigStep::Done(Err(ConfigError::plain(ConfigErrorKind::HomeUnknown))),
    }
}

/// Loads the configuration. Where there is none, or its file is empty, the default one is saved.
pub fn load_or_create(vars: &HomeVars) -> (r: ConfigStep)
    ensures
        r@ == load_or_create_step(vars@),
        config_step_ok(r@),
{
    begin(vars, Goal::Keep, false, ConfigStage::Checking)
}

/// Loads the configuration that is there.
pub fn load_existing(vars: &HomeVars) -> (r: ConfigStep)
    ensures
        r@ == load_existing_step(vars@),
        config_step_ok(r@),
{
    begin(vars, Goal::Keep, true, ConfigStage::Reading)
}

/// Saves a configuration.
pub fn save(vars: &HomeVars, config: &AppConfig) -> (r: ConfigStep)
    ensures
        r@ == save_config_step(vars@, *config),
        config_step_ok(r@),
{
    match validate_port(config.extension_port) {
        Err(error) => ConfigStep::Done(Err(error)),
        Ok(_) => begin(
            vars,
            Goal::Keep,
            false,
            ConfigStage::CreatingDir { config: *config, last: true },
        ),
    }
}

/// Loads the configuration, replaces its port and saves it.
pub fn set_extension_port(vars: &HomeVars, port: u16) -> (r: ConfigStep)
    ensures
        r@ == set_port_step(vars@, port),
        config_step_ok(r@),
{
    match validate_port(port) {
        Err(error) => ConfigStep::Done(Err(error)),
        Ok(_) => begin(vars, Goal::SetPort(port), false, ConfigStage::Checking),
    }
}

} // verus!
