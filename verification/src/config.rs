//! The tool's configuration: its values, where its files are, and what can be wrong with them.

use vstd::prelude::*;
use vstd::utf8::encode_utf8;

use crate::path::{joined_path, shown_path, LocalPath};
use crate::text::joined;
use crate::urls::{option_path, option_text};

verus! {

/// The port for the browser extension where none is configured.
pub const DEFAULT_EXTENSION_PORT: u16 = 18765;

/// The port of the tool's own API.
pub const CLI_API_PORT: u16 = 18767;

/// The header that carries the API token.
pub const API_TOKEN_HEADER: &'static str = "x-agent-browser-token";

/// The configuration.
#[derive(Debug, Clone, Copy, PartialEq, Eq, Structural)]
pub struct AppConfig {
    pub extension_port: u16,
}

/// The configuration where there is none yet.
pub open spec fn default_config() -> AppConfig {
    AppConfig { extension_port: DEFAULT_EXTENSION_PORT }
}

impl Default for AppConfig {
    fn default() -> (r: AppConfig)
        ensures
            r == default_config(),
    {
        AppConfig { extension_port: DEFAULT_EXTENSION_PORT }
    }
}

// ---- Errors ----

/// What went wrong with one of the tool's files.
#[derive(Debug, Clone, Copy, PartialEq, Eq, Structural)]
pub enum ConfigErrorKind {
    HomeUnknown,
    PortZero,
    PortReserved,
    ReadConfig,
    ParseConfig,
    EmptyConfig,
    CreateConfigDir,
    WriteConfig,
    EmptyToken,
    ReadToken,
    EmptyTokenFile,
    CreateTempToken,
    SaveToken,
    CreateLogDir,
    CreateLogFile,
    /// An error of the layer below, of which nothing more is said.
    Bare,
}

/// What went wrong, with which file, and the error of the layer below, if one led to it.
#[derive(Debug)]
pub struct ConfigError {
    pub kind: ConfigErrorKind,
    pub path: Option<LocalPath>,
    pub cause: Option<String>,
}

/// The model of an error.
pub struct ConfigErrorView {
    pub kind: ConfigErrorKind,
    pub path: Option<Seq<u8>>,
    pub cause: Option<Seq<char>>,
}

impl View for ConfigError {
    type V = ConfigErrorView;

    open spec fn view(&self) -> ConfigErrorView {
        ConfigErrorView {
            kind: self.kind,
            path: option_path(self.path),
            cause: option_text(self.cause),
        }
    }
}

/// What the message for an error begins with; the path, if there is one, follows.
pub open spec fn message_opening(kind: ConfigErrorKind) -> Seq<char> {
    match kind {
        ConfigErrorKind::HomeUnknown =>
            "无法定位用户主目录，不能创建 agent-browser-cli 配置文件"@,
        ConfigErrorKind::PortZero => "extension_port 必须是 1-65535"@,
        ConfigErrorKind::PortReserved =>
            "18767 是 agent-browser-cli API 端口，插件端口请换一个"@,
        ConfigErrorKind::ReadConfig => "读取配置文件失败: "@,
        ConfigErrorKind::ParseConfig => "解析配置文件失败: "@,
        ConfigErrorKind::EmptyConfig => "配置文件为空: "@,
        ConfigErrorKind::CreateConfigDir => "创建配置目录失败: "@,
        ConfigErrorKind::WriteConfig => "写入配置文件失败: "@,
        ConfigErrorKind::EmptyToken => "API token 不能为空"@,
        ConfigErrorKind::ReadToken => "读取 API token 失败: "@,
        ConfigErrorKind::EmptyTokenFile => "API token 文件为空: "@,
        ConfigErrorKind::CreateTempToken => "创建 API token 临时文件失败: "@,
        ConfigErrorKind::SaveToken => "保存 API token 失败: "@,
        ConfigErrorKind::CreateLogDir => "创建日志目录失败: "@,
        ConfigErrorKind::CreateLogFile => "创建日志文件失败: "@,
        ConfigErrorKind::Bare => ""@,
    }
}

/// The message for an error: what it is, and the path it is about. For an error of which nothing
/// is known but what the layer below said, the message is that.
pub open spec fn error_message(error: ConfigErrorView) -> Seq<char> {
    let about = if error.kind == ConfigErrorKind::Bare {
        error.cause
    } else {
        match error.path {
            Some(path) => Some(shown_path(path)),
            None => None,
        }
    };
    match about {
        Some(s) => message_opening(error.kind) + s,
        None => message_opening(error.kind),
    }
}

/// An error of which nothing but the kind is known.
pub open spec fn plain_error(kind: ConfigErrorKind) -> ConfigErrorView {
    ConfigErrorView { kind, path: None, cause: None }
}

/// An error with a file.
pub open spec fn error_at(kind: ConfigErrorKind, path: Seq<u8>) -> ConfigErrorView {
    ConfigErrorView { kind, path: Some(path), cause: None }
}

/// An error with a file that an error of the layer below led to.
pub open spec fn failed_at(
    kind: ConfigErrorKind,
    path: Seq<u8>,
    cause: Seq<char>,
) -> ConfigErrorView {
    ConfigErrorView { kind, path: Some(path), cause: Some(cause) }
}

/// An error of the layer below.
pub open spec fn bare_error(cause: Seq<char>) -> ConfigErrorView {
    ConfigErrorView { kind: ConfigErrorKind::Bare, path: None, cause: Some(cause) }
}

impl ConfigError {
    pub(crate) fn plain(kind: ConfigErrorKind) -> (r: ConfigError)
        ensures
            r@ == plain_error(kind),
    {
        ConfigError { kind, path: None, cause: None }
    }

    pub(crate) fn at(kind: ConfigErrorKind, path: &LocalPath) -> (r: ConfigError)
        ensures
            r@ == error_at(kind, path@),
    {
        ConfigError { kind, path: Some(path.copy()), cause: None }
    }

    pub(crate) fn failed(kind: ConfigErrorKind, path: &LocalPath, cause: String) -> (r: ConfigError)
        ensures
            r@ == failed_at(kind, path@, cause@),
    {
        ConfigError { kind, path: Some(path.copy()), cause: Some(cause) }
    }

    pub(crate) fn bare(cause: String) -> (r: ConfigError)
        ensures
            r@ == bare_error(cause@),
    {
        ConfigError { kind: ConfigErrorKind::Bare, path: None, cause: Some(cause) }
    }

    /// The message for the error.
    pub fn message(&self) -> (r: String)
        ensures
            r@ == error_message(self@),
    {
        let opening = match self.kind {
            ConfigErrorKind::HomeUnknown =>
                "无法定位用户主目录，不能创建 agent-browser-cli 配置文件",
            ConfigErrorKind::PortZero => "extension_port 必须是 1-65535",
            ConfigErrorKind::PortReserved =>
                "18767 是 agent-browser-cli API 端口，插件端口请换一个",
            ConfigErrorKind::ReadConfig => "读取配置文件失败: ",
            ConfigErrorKind::ParseConfig => "解析配置文件失败: ",
            ConfigErrorKind::EmptyConfig => "配置文件为空: ",
            ConfigErrorKind::CreateConfigDir => "创建配置目录失败: ",
            ConfigErrorKind::WriteConfig => "写入配置文件失败: ",
            ConfigErrorKind::EmptyToken => "API token 不能为空",
            ConfigErrorKind::ReadToken => "读取 API token 失败: ",
            ConfigErrorKind::EmptyTokenFile => "API token 文件为空: ",
            ConfigErrorKind::CreateTempToken => "创建 API token 临时文件失败: ",
            ConfigErrorKind::SaveToken => "保存 API token 失败: ",
            ConfigErrorKind::CreateLogDir => "创建日志目录失败: ",
            ConfigErrorKind::CreateLogFile => "创建日志文件失败: ",
            ConfigErrorKind::Bare => "",
        };
        if self.kind == ConfigErrorKind::Bare {
            match &self.cause {
                Some(cause) => joined(opening, cause.as_str()),
                None => opening.to_owned(),
            }
        } else {
            match &self.path {
                Some(path) => joined(opening, path.display().as_str()),
                None => opening.to_owned(),
            }
        }
    }
}

// ---- Ports ----

/// What is wrong with a port for the extension, if anything.
pub open spec fn port_fault(port: u16) -> Option<ConfigErrorKind> {
    if port == 0 {
        Some(ConfigErrorKind::PortZero)
    } else if port == CLI_API_PORT {
        Some(ConfigErrorKind::PortReserved)
    } else {
        None
    }
}

/// The extension can have the port: any but zero and that of the tool's own API.
pub open spec fn valid_port(port: u16) -> bool {
    port != 0 && port != CLI_API_PORT
}

/// Refuses a port that the extension cannot have.
pub fn validate_port(port: u16) -> (r: Result<(), ConfigError>)
    ensures
        r is Ok == valid_port(port),
        match r {
            Ok(_) => port_fault(port) is None,
            Err(error) => port_fault(port) is Some && error@ == plain_error(port_fault(port)->0),
        },
{
    if port == 0 {
        return Err(ConfigError::plain(ConfigErrorKind::PortZero));
    }
    if port == CLI_API_PORT {
        return Err(ConfigError::plain(ConfigErrorKind::PortReserved));
    }
    Ok(())
}

// ---- Paths ----

/// What the environment says of the user's home directory: the variables `HOME` and
/// `USERPROFILE`.
#[derive(Debug)]
pub struct HomeVars {
    pub home: Option<LocalPath>,
    pub user_profile: Option<LocalPath>,
}

/// The model of what the environment says.
pub struct HomeVarsView {
    pub home: Option<Seq<u8>>,
    pub user_profile: Option<Seq<u8>>,
}

impl View for HomeVars {
    type V = HomeVarsView;

    open spec fn view(&self) -> HomeVarsView {
        HomeVarsView {
            home: option_path(self.home),
            user_profile: option_path(self.user_profile),
        }
    }
}

/// The user's home directory: `HOME`, or where that is not set `USERPROFILE`.
pub open spec fn home_of(vars: HomeVarsView) -> Option<Seq<u8>> {
    match vars.home {
        Some(home) => Some(home),
        None => vars.user_profile,
    }
}

/// The path with which each of the tool's files begins.
pub open spec fn config_dir_in(home: Seq<u8>) -> Seq<u8> {
    joined_path(home, encode_utf8(".agent-browser-cli"@))
}

pub open spec fn config_path_in(home: Seq<u8>) -> Seq<u8> {
    joined_path(config_dir_in(home), encode_utf8("config.json"@))
}

pub open spec fn log_dir_in(home: Seq<u8>) -> Seq<u8> {
    joined_path(config_dir_in(home), encode_utf8("logs"@))
}

pub open spec fn daemon_log_path_in(home: Seq<u8>) -> Seq<u8> {
    joined_path(log_dir_in(home), encode_utf8("daemon.log"@))
}

pub open spec fn api_token_path_in(home: Seq<u8>) -> Seq<u8> {
    joined_path(config_dir_in(home), encode_utf8("api-token"@))
}

/// A path in the home directory, where one is known.
pub open spec fn path_in_home(
    r: Result<LocalPath, ConfigError>,
    vars: HomeVarsView,
    path: spec_fn(Seq<u8>) -> Seq<u8>,
) -> bool {
    match home_of(vars) {
        Some(home) => r is Ok && r->Ok_0@ == path(home),
        None => r is Err && r->Err_0@ == plain_error(ConfigErrorKind::HomeUnknown),
    }
}

/// The directory of the tool's files.
pub fn user_config_dir(vars: &HomeVars) -> (r: Result<LocalPath, ConfigError>)
    ensures
        path_in_home(r, vars@, |home: Seq<u8>| config_dir_in(home)),
{
    match &vars.home {
        Some(home) => Ok(home.entry(".agent-browser-cli")),
        None => match &vars.user_profile {
            Some(home) => Ok(home.entry(".agent-browser-cli")),
            None => Err(ConfigError::plain(ConfigErrorKind::HomeUnknown)),
        },
    }
}

/// The file of the configuration.
pub fn config_path(vars: &HomeVars) -> (r: Result<LocalPath, ConfigError>)
    ensures
        path_in_home(r, vars@, |home: Seq<u8>| config_path_in(home)),
{
    match user_config_dir(vars) {
        Ok(dir) => Ok(dir.entry("config.json")),
        Err(error) => Err(error),
    }
}

/// The directory of the logs.
pub fn log_dir(vars: &HomeVars) -> (r: Result<LocalPath, ConfigError>)
    ensures
        path_in_home(r, vars@, |home: Seq<u8>| log_dir_in(home)),
{
    match user_config_dir(vars) {
        Ok(dir) => Ok(dir.entry("logs")),
        Err(error) => Err(error),
    }
}

/// The log of the daemon.
pub fn daemon_log_path(vars: &HomeVars) -> (r: Result<LocalPath, ConfigError>)
    ensures
        path_in_home(r, vars@, |home: Seq<u8>| daemon_log_path_in(home)),
{
    match log_dir(vars) {
        Ok(dir) => Ok(dir.entry("daemon.log")),
        Err(error) => Err(error),
    }
}

/// The file of the API token.
pub fn api_token_path(vars: &HomeVars) -> (r: Result<LocalPath, ConfigError>)
    ensures
        path_in_home(r, vars@, |home: Seq<u8>| api_token_path_in(home)),
{
    match user_config_dir(vars) {
        Ok(dir) => Ok(dir.entry("api-token")),
        Err(error) => Err(error),
    }
}

} // verus!
