//! The file of the API token: reading the token from it, and putting a new one in its place.
//!
//! A new token is written to a file of its own first, which then takes the place of the old one.
//! `save_api_token` gives the first step; `TokenRun::reply` takes what came of the action that a
//! run waits for and gives the next step.

use vstd::prelude::*;
use vstd::utf8::encode_utf8;

use crate::config::{
    api_token_path, api_token_path_in, bare_error, config_dir_in, error_at, failed_at, home_of,
    plain_error, user_config_dir, ConfigError, ConfigErrorKind, ConfigErrorView, HomeVars,
    HomeVarsView,
};
use crate::config_files::unit_result;
use crate::path::{joined_path, LocalPath};
use crate::text::{decimal, joined3, to_decimal, trim, trimmed};
use crate::urls::option_text;

verus! {

// ---- Reading the token ----

/// What came of reading the file.
#[derive(Debug)]
pub enum TokenFile {
    Text(String),
    /// There is no such file.
    Missing,
    /// The text of some other error.
    Failed(String),
}

/// The model of what came of reading the file.
pub enum TokenFileView {
    Text(Seq<char>),
    Missing,
    Failed(Seq<char>),
}

impl View for TokenFile {
    type V = TokenFileView;

    open spec fn view(&self) -> TokenFileView {
        match *self {
            TokenFile::Text(s) => TokenFileView::Text(s@),
            TokenFile::Missing => TokenFileView::Missing,
            TokenFile::Failed(error) => TokenFileView::Failed(error@),
        }
    }
}

/// The token that the file holds: its text without the white space at the ends, which has to
/// leave something. Where there is no file there is no token.
pub open spec fn loaded_token(path: Seq<u8>, file: TokenFileView) -> Result<
    Option<Seq<char>>,
    ConfigErrorView,
> {
    match file {
        TokenFileView::Missing => Ok(None),
        TokenFileView::Failed(cause) => Err(failed_at(ConfigErrorKind::ReadToken, path, cause)),
        TokenFileView::Text(s) => if trimmed(s).len() == 0 {
            Err(error_at(ConfigErrorKind::EmptyTokenFile, path))
        } else {
            Ok(Some(trimmed(s)))
        },
    }
}

/// The token that the file at `path` holds, by what came of reading it.
pub fn load_api_token(path: &LocalPath, file: TokenFile) -> (r: Result<Option<String>, ConfigError>)
    ensures
        (match r {
            Ok(token) => Ok(option_text(token)),
            Err(error) => Err(error@),
        }) == loaded_token(path@, file@),
{
    match file {
        TokenFile::Missing => Ok(None),
        TokenFile::Failed(cause) => Err(
            ConfigError::failed(ConfigErrorKind::ReadToken, path, cause),
        ),
        TokenFile::Text(s) => {
            let token = trim(s.as_str());
            if token.as_str().is_empty() {
                Err(ConfigError::at(ConfigErrorKind::EmptyTokenFile, path))
            } else {
                Ok(Some(token))
            }
        },
    }
}

// ---- Saving a token ----

/// An action to carry out.
#[derive(Debug)]
pub enum TokenAction {
    /// Make the directory and those above it, as far as they are missing.
    CreateDirs(LocalPath),
    /// Open the file for writing, empty, and new where it is missing; only its owner may read and
    /// write it.
    OpenPrivate(LocalPath),
    /// Write the whole text to the open file.
    WriteAll(String),
    /// See that what was written to the open file is stored.
    SyncAll,
    /// See that only the owner of the open file may read and write it.
    Restrict,
    /// Give the file another name, in place of what has that name.
    Rename { from: LocalPath, to: LocalPath },
    /// Remove the file; whether that works does not matter.
    Remove(LocalPath),
}

/// How far a run has come.
#[derive(Debug)]
pub enum TokenStage {
    CreatingDir,
    Opening,
    WritingToken,
    WritingNewline,
    Syncing,
    Restricting,
    Renaming,
    /// Something has failed, and the new file is being removed.
    Removing { error: ConfigError },
}

/// A run that waits for an action to be carried out.
#[derive(Debug)]
pub struct TokenRun {
    pub token: String,
    pub dir: LocalPath,
    pub file: LocalPath,
    /// The file that the token is written to first.
    pub temp: LocalPath,
    pub stage: TokenStage,
}

/// A step of a run.
#[derive(Debug)]
pub enum TokenStep {
    Act(TokenRun),
    Done(Result<(), ConfigError>),
}

/// The model of an action.
pub enum TokenActionView {
    CreateDirs(Seq<u8>),
    OpenPrivate(Seq<u8>),
    WriteAll(Seq<char>),
    SyncAll,
    Restrict,
    Rename { from: Seq<u8>, to: Seq<u8> },
    Remove(Seq<u8>),
}

/// The model of a stage.
pub enum TokenStageView {
    CreatingDir,
    Opening,
    WritingToken,
    WritingNewline,
    Syncing,
    Restricting,
    Renaming,
    Removing { error: ConfigErrorView },
}

/// The model of a run.
pub struct TokenRunView {
    pub token: Seq<char>,
    pub dir: Seq<u8>,
    pub file: Seq<u8>,
    pub temp: Seq<u8>,
    pub stage: TokenStageView,
}

/// The model of a step.
pub enum TokenStepView {
    Act(TokenRunView),
    Done(Result<(), ConfigErrorView>),
}

impl View for TokenAction {
    type V = TokenActionView;

    open spec fn view(&self) -> TokenActionView {
        match *self {
            TokenAction::CreateDirs(path) => TokenActionView::CreateDirs(path@),
            TokenAction::OpenPrivate(path) => TokenActionView::OpenPrivate(path@),
            TokenAction::WriteAll(text) => TokenActionView::WriteAll(text@),
            TokenAction::SyncAll => TokenActionView::SyncAll,
            TokenAction::Restrict => TokenActionView::Restrict,
            TokenAction::Rename { from, to } => TokenActionView::Rename { from: from@, to: to@ },
            TokenAction::Remove(path) => TokenActionView::Remove(path@),
        }
    }
}

impl View for TokenStage {
    type V = TokenStageView;

    open spec fn view(&self) -> TokenStageView {
        match *self {
            TokenStage::CreatingDir => TokenStageView::CreatingDir,
            TokenStage::Opening => TokenStageView::Opening,
            TokenStage::WritingToken => TokenStageView::WritingToken,
            TokenStage::WritingNewline => TokenStageView::WritingNewline,
            TokenStage::Syncing => TokenStageView::Syncing,
            TokenStage::Restricting => TokenStageView::Restricting,
            TokenStage::Renaming => TokenStageView::Renaming,
            TokenStage::Removing { error } => TokenStageView::Removing { error: error@ },
        }
    }
}

impl View for TokenRun {
    type V = TokenRunView;

    open spec fn view(&self) -> TokenRunView {
        TokenRunView {
            token: self.token@,
            dir: self.dir@,
            file: self.file@,
            temp: self.temp@,
            stage: self.stage@,
        }
    }
}

impl View for TokenStep {
    type V = TokenStepView;

    open spec fn view(&self) -> TokenStepView {
        match *self {
            TokenStep::Act(run) => TokenStepView::Act(run@),
            TokenStep::Done(Ok(_)) => TokenStepView::Done(Ok(())),
            TokenStep::Done(Err(error)) => TokenStepView::Done(Err(error@)),
        }
    }
}

/// The name of the file that a token is written to first, which no other process uses.
pub open spec fn temp_name(process_id: u32) -> Seq<char> {
    ".api-token-"@ + decimal(process_id as nat) + ".tmp"@
}

/// The first step of saving a token: an empty one is refused.
pub open spec fn save_token_step(
    vars: HomeVarsView,
    token: Seq<char>,
    process_id: u32,
) -> TokenStepView {
    if token.len() == 0 {
        TokenStepView::Done(Err(plain_error(ConfigErrorKind::EmptyToken)))
    } else {
        match home_of(vars) {
            None => TokenStepView::Done(Err(plain_error(ConfigErrorKind::HomeUnknown))),
            Some(home) => TokenStepView::Act(
                TokenRunView {
                    token,
                    dir: config_dir_in(home),
                    file: api_token_path_in(home),
                    temp: joined_path(config_dir_in(home), encode_utf8(temp_name(process_id))),
                    stage: TokenStageView::CreatingDir,
                },
            ),
        }
    }
}

/// The action that a run waits for.
pub open spec fn token_action_of(run: TokenRunView) -> TokenActionView {
    match run.stage {
        TokenStageView::CreatingDir => TokenActionView::CreateDirs(run.dir),
        TokenStageView::Opening => TokenActionView::OpenPrivate(run.temp),
        TokenStageView::WritingToken => TokenActionView::WriteAll(run.token),
        TokenStageView::WritingNewline => TokenActionView::WriteAll("\n"@),
        TokenStageView::Syncing => TokenActionView::SyncAll,
        TokenStageView::Restricting => TokenActionView::Restrict,
        TokenStageView::Renaming => TokenActionView::Rename { from: run.temp, to: run.file },
        TokenStageView::Removing { .. } => TokenActionView::Remove(run.temp),
    }
}

/// The stage after one whose action has worked, or nothing where that was the last.
pub open spec fn stage_after(stage: TokenStageView) -> Option<TokenStageView> {
    match stage {
        TokenStageView::CreatingDir => Some(TokenStageView::Opening),
        TokenStageView::Opening => Some(TokenStageView::WritingToken),
        TokenStageView::WritingToken => Some(TokenStageView::WritingNewline),
        TokenStageView::WritingNewline => Some(TokenStageView::Syncing),
        TokenStageView::Syncing => Some(TokenStageView::Restricting),
        TokenStageView::Restricting => Some(TokenStageView::Renaming),
        TokenStageView::Renaming => None,
        TokenStageView::Removing { .. } => None,
    }
}

/// The error for an action that has failed.
pub open spec fn token_failure(run: TokenRunView, cause: Seq<char>) -> ConfigErrorView {
    match run.stage {
        TokenStageView::CreatingDir => failed_at(ConfigErrorKind::CreateConfigDir, run.dir, cause),
        TokenStageView::Opening => failed_at(ConfigErrorKind::CreateTempToken, run.temp, cause),
        TokenStageView::Renaming => failed_at(ConfigErrorKind::SaveToken, run.file, cause),
        _ => bare_error(cause),
    }
}

/// The step after a reply. When anything fails but making the directory, the new file is removed
/// before the run ends.
pub open spec fn next_token_step(run: TokenRunView, reply: Result<(), Seq<char>>) -> TokenStepView {
    match (run.stage, reply) {
        (TokenStageView::Removing { error }, _) => TokenStepView::Done(Err(error)),
        (stage, Ok(_)) => match stage_after(stage) {
            Some(stage) => TokenStepView::Act(TokenRunView { stage, ..run }),
            None => TokenStepView::Done(Ok(())),
        },
        (TokenStageView::CreatingDir, Err(cause)) => TokenStepView::Done(
            Err(token_failure(run, cause)),
        ),
        (_, Err(cause)) => TokenStepView::Act(
            TokenRunView {
                stage: TokenStageView::Removing { error: token_failure(run, cause) },
                ..run
            },
        ),
    }
}

/// Puts a token in the place of the one that was saved before. `process_id` is the number of this
/// process.
pub fn save_api_token(vars: &HomeVars, token: &str, process_id: u32) -> (r: TokenStep)
    ensures
        r@ == save_token_step(vars@, token@, process_id),
{
    if token.is_empty() {
        return TokenStep::Done(Err(ConfigError::plain(ConfigErrorKind::EmptyToken)));
    }
    match (user_config_dir(vars), api_token_path(vars)) {
        (Ok(dir), Ok(file)) => {
            let number = to_decimal(process_id);
            let name = joined3(".api-token-", number.as_str(), ".tmp");
            let temp = dir.entry(name.as_str());
            TokenStep::Act(
                TokenRun {
                    token: token.to_owned(),
                    dir,
                    file,
                    temp,
                    stage: TokenStage::CreatingDir,
                },
            )
        },
        _ => TokenStep::Done(Err(ConfigError::plain(ConfigErrorKind::HomeUnknown))),
    }
}

impl TokenRun {
    /// The action that this waits for.
    pub fn action(&self) -> (r: TokenAction)
        ensures
            r@ == token_action_of(self@),
    {
        match &self.stage {
            TokenStage::CreatingDir => TokenAction::CreateDirs(self.dir.copy()),
            TokenStage::Opening => TokenAction::OpenPrivate(self.temp.copy()),
            TokenStage::WritingToken => TokenAction::WriteAll(self.token.clone()),
            TokenStage::WritingNewline => TokenAction::WriteAll("\n".to_owned()),
            TokenStage::Syncing => TokenAction::SyncAll,
            TokenStage::Restricting => TokenAction::Restrict,
            TokenStage::Renaming => TokenAction::Rename {
                from: self.temp.copy(),
                to: self.file.copy(),
            },
            TokenStage::Removing { .. } => TokenAction::Remove(self.temp.copy()),
        }
    }

    /// The step after what came of the action, or the text of the error that came instead.
    pub fn reply(self, reply: Result<(), String>) -> (r: TokenStep)
        ensures
            r@ == next_token_step(self@, unit_result(reply)),
    {
        let TokenRun { token, dir, file, temp, stage } = self;
        let next = match (stage, reply) {
            (TokenStage::Removing { error }, _) => {
                return TokenStep::Done(Err(error));
            },
            (TokenStage::CreatingDir, Ok(_)) => TokenStage::Opening,
            (TokenStage::Opening, Ok(_)) => TokenStage::WritingToken,
            (TokenStage::WritingToken, Ok(_)) => TokenStage::WritingNewline,
            (TokenStage::WritingNewline, Ok(_)) => TokenStage::Syncing,
            (TokenStage::Syncing, Ok(_)) => TokenStage::Restricting,
            (TokenStage::Restricting, Ok(_)) => TokenStage::Renaming,
            (TokenStage::Renaming, Ok(_)) => {
                return TokenStep::Done(Ok(()));
            },
            (TokenStage::CreatingDir, Err(cause)) => {
                return TokenStep::Done(
                    Err(ConfigError::failed(ConfigErrorKind::CreateConfigDir, &dir, cause)),
                );
            },
            (TokenStage::Opening, Err(cause)) => TokenStage::Removing {
                error: ConfigError::failed(ConfigErrorKind::CreateTempToken, &temp, cause),
            },
            (TokenStage::Renaming, Err(cause)) => TokenStage::Removing {
                error: ConfigError::failed(ConfigErrorKind::SaveToken, &file, cause),
            },
            (_, Err(cause)) => TokenStage::Removing { error: ConfigError::bare(cause) },
        };
        TokenStep::Act(TokenRun { token, dir, file, temp, stage: next })
    }
}

} // verus!
