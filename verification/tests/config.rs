//! Loading and saving the tool's files on a small file system held in memory.

use agent_browser::config::{
    api_token_path, config_path, daemon_log_path, log_dir, user_config_dir, validate_port,
    AppConfig, ConfigError, ConfigErrorKind, HomeVars, API_TOKEN_HEADER, CLI_API_PORT,
    DEFAULT_EXTENSION_PORT,
};
use agent_browser::config_files::{
    load_existing, load_or_create, save, set_extension_port, ConfigAction, ConfigReply, ConfigStep,
};
use agent_browser::log_file::{ensure_log_file, LogAction, LogReply, LogStep};
use agent_browser::path::LocalPath;
use agent_browser::token::{load_api_token, save_api_token, TokenAction, TokenFile, TokenStep};
use std::collections::BTreeMap;

const CONFIG: &str = "/home/alice/.agent-browser-cli/config.json";
const TOKEN: &str = "/home/alice/.agent-browser-cli/api-token";
const TEMP: &str = "/home/alice/.agent-browser-cli/.api-token-4711.tmp";
const LOG: &str = "/home/alice/.agent-browser-cli/logs/daemon.log";

fn vars() -> HomeVars {
    HomeVars { home: Some(LocalPath::from_text("/home/alice")), user_profile: None }
}

fn nobody() -> HomeVars {
    HomeVars { home: None, user_profile: None }
}

fn text(path: &LocalPath) -> String {
    path.to_text().unwrap()
}

/// Files by their paths, what was done, and an action that fails.
#[derive(Default)]
struct Disk {
    files: BTreeMap<String, String>,
    done: Vec<String>,
    failing: &'static str,
    open: String,
}

impl Disk {
    fn with(path: &str, content: &str) -> Disk {
        let mut disk = Disk::default();
        disk.files.insert(path.to_string(), content.to_string());
        disk
    }

    fn failing(mut self, action: &'static str) -> Disk {
        self.failing = action;
        self
    }

    fn log(&mut self, action: &str) -> Result<(), String> {
        self.done.push(action.to_string());
        if action == self.failing {
            Err("disk on fire".to_string())
        } else {
            Ok(())
        }
    }

    fn config_reply(&mut self, action: ConfigAction) -> ConfigReply {
        match action {
            ConfigAction::Exists(path) => {
                self.done.push("exists".to_string());
                ConfigReply::Exists(self.files.contains_key(&text(&path)))
            }
            ConfigAction::Read(path) => ConfigReply::Read(self.log("read").and_then(|_| {
                self.files.get(&text(&path)).cloned().ok_or("no such file".to_string())
            })),
            ConfigAction::Parse(content) => {
                self.done.push("parse".to_string());
                ConfigReply::Parsed(parse(&content))
            }
            ConfigAction::CreateDirs(path) => {
                assert_eq!(text(&path), "/home/alice/.agent-browser-cli");
                ConfigReply::Created(self.log("mkdir"))
            }
            ConfigAction::Serialize(config) => {
                ConfigReply::Serialized(self.log("serialize").map(|_| serialize(config)))
            }
            ConfigAction::Write { path, text: content } => {
                let r = self.log("write");
                if r.is_ok() {
                    self.files.insert(text(&path), content);
                }
                ConfigReply::Written(r)
            }
        }
    }

    fn run(&mut self, mut step: ConfigStep) -> Result<AppConfig, ConfigError> {
        for _ in 0..9 {
            match step {
                ConfigStep::Done(r) => return r,
                ConfigStep::Act(run) => {
                    let reply = self.config_reply(run.action());
                    step = run.reply(reply);
                }
            }
        }
        panic!("more than eight actions")
    }

    fn token_reply(&mut self, action: TokenAction) -> Result<(), String> {
        match action {
            TokenAction::CreateDirs(path) => {
                assert_eq!(text(&path), "/home/alice/.agent-browser-cli");
                self.log("mkdir")
            }
            TokenAction::OpenPrivate(path) => {
                self.log("open")?;
                self.open = text(&path);
                self.files.insert(text(&path), String::new());
                Ok(())
            }
            TokenAction::WriteAll(content) => {
                self.log(if content == "\n" { "write newline" } else { "write token" })?;
                let open = self.open.clone();
                self.files.get_mut(&open).unwrap().push_str(&content);
                Ok(())
            }
            TokenAction::SyncAll => self.log("sync"),
            TokenAction::Restrict => self.log("restrict"),
            TokenAction::Rename { from, to } => {
                self.log("rename")?;
                let content = self.files.remove(&text(&from)).unwrap();
                self.files.insert(text(&to), content);
                Ok(())
            }
            TokenAction::Remove(path) => {
                self.log("remove")?;
                self.files.remove(&text(&path));
                Ok(())
            }
        }
    }

    fn run_token(&mut self, mut step: TokenStep) -> Result<(), ConfigError> {
        for _ in 0..9 {
            match step {
                TokenStep::Done(r) => return r,
                TokenStep::Act(run) => {
                    let reply = self.token_reply(run.action());
                    step = run.reply(reply);
                }
            }
        }
        panic!("more than eight actions")
    }

    fn load_token(&self) -> Result<Option<String>, ConfigError> {
        let path = api_token_path(&vars()).unwrap();
        let file = match self.files.get(&text(&path)) {
            Some(content) => TokenFile::Text(content.clone()),
            None => TokenFile::Missing,
        };
        load_api_token(&path, file)
    }

    fn run_log(&mut self, mut step: LogStep) -> Result<LocalPath, ConfigError> {
        for _ in 0..4 {
            match step {
                LogStep::Done(r) => return r,
                LogStep::Act(run) => {
                    let reply = match run.action() {
                        LogAction::CreateDirs(path) => {
                            assert_eq!(text(&path), "/home/alice/.agent-browser-cli/logs");
                            LogReply::Finished(self.log("mkdir"))
                        }
                        LogAction::Exists(path) => {
                            LogReply::Exists(self.files.contains_key(&text(&path)))
                        }
                        LogAction::Create(path) => {
                            let r = self.log("create");
                            if r.is_ok() {
                                self.files.insert(text(&path), String::new());
                            }
                            LogReply::Finished(r)
                        }
                    };
                    step = run.reply(reply);
                }
            }
        }
        panic!("more than three actions")
    }
}

fn parse(content: &str) -> Result<AppConfig, String> {
    let value: serde_json::Value = serde_json::from_str(content).map_err(|e| e.to_string())?;
    let port = value.get("extension_port").and_then(|p| p.as_u64());
    match port.and_then(|p| u16::try_from(p).ok()) {
        Some(extension_port) => Ok(AppConfig { extension_port }),
        None => Err("no port".to_string()),
    }
}

fn serialize(config: AppConfig) -> String {
    let mut map = serde_json::Map::new();
    map.insert("extension_port".to_string(), serde_json::Value::from(config.extension_port));
    serde_json::to_string_pretty(&serde_json::Value::Object(map)).unwrap()
}

fn written(port: u16) -> String {
    format!("{{\n  \"extension_port\": {port}\n}}\n")
}

#[test]
fn constants_and_default() {
    assert_eq!(DEFAULT_EXTENSION_PORT, 18765);
    assert_eq!(CLI_API_PORT, 18767);
    assert_eq!(API_TOKEN_HEADER, "x-agent-browser-token");
    assert_eq!(AppConfig::default().extension_port, 18765);
    assert!(validate_port(AppConfig::default().extension_port).is_ok());
}

#[test]
fn paths_lie_in_the_home_directory() {
    assert_eq!(text(&user_config_dir(&vars()).unwrap()), "/home/alice/.agent-browser-cli");
    assert_eq!(text(&config_path(&vars()).unwrap()), CONFIG);
    assert_eq!(text(&log_dir(&vars()).unwrap()), "/home/alice/.agent-browser-cli/logs");
    assert_eq!(text(&daemon_log_path(&vars()).unwrap()), LOG);
    assert_eq!(text(&api_token_path(&vars()).unwrap()), TOKEN);
}

#[test]
fn home_comes_before_user_profile() {
    let both = HomeVars {
        home: Some(LocalPath::from_text("/a/")),
        user_profile: Some(LocalPath::from_text("/b")),
    };
    assert_eq!(text(&user_config_dir(&both).unwrap()), "/a/.agent-browser-cli");
    let profile = HomeVars { home: None, user_profile: Some(LocalPath::from_text("/b")) };
    assert_eq!(text(&user_config_dir(&profile).unwrap()), "/b/.agent-browser-cli");
    let empty = HomeVars {
        home: Some(LocalPath::from_text("")),
        user_profile: Some(LocalPath::from_text("/b")),
    };
    assert_eq!(text(&config_path(&empty).unwrap()), ".agent-browser-cli/config.json");
}

#[test]
fn nothing_works_without_a_home_directory() {
    let message = "无法定位用户主目录，不能创建 agent-browser-cli 配置文件";
    for r in [
        user_config_dir(&nobody()),
        config_path(&nobody()),
        log_dir(&nobody()),
        daemon_log_path(&nobody()),
        api_token_path(&nobody()),
        Disk::default().run_log(ensure_log_file(&nobody())),
    ] {
        let err = r.unwrap_err();
        assert_eq!(err.kind, ConfigErrorKind::HomeUnknown);
        assert_eq!(err.message(), message);
    }
    for step in [
        load_or_create(&nobody()),
        load_existing(&nobody()),
        save(&nobody(), &AppConfig::default()),
        set_extension_port(&nobody(), 1),
    ] {
        assert_eq!(Disk::default().run(step).unwrap_err().message(), message);
    }
    let step = save_api_token(&nobody(), "t", 1);
    assert_eq!(Disk::default().run_token(step).unwrap_err().message(), message);
}

#[test]
fn ports_of_the_extension() {
    for port in [1, 80, 18765, 18766, 18768, 65535] {
        assert!(validate_port(port).is_ok());
    }
    let err = validate_port(0).unwrap_err();
    assert_eq!(err.kind, ConfigErrorKind::PortZero);
    assert_eq!(err.message(), "extension_port 必须是 1-65535");
    let err = validate_port(18767).unwrap_err();
    assert_eq!(err.kind, ConfigErrorKind::PortReserved);
    assert_eq!(err.message(), "18767 是 agent-browser-cli API 端口，插件端口请换一个");
}

#[test]
fn default_is_created_where_there_is_none() {
    let mut disk = Disk::default();
    let config = disk.run(load_or_create(&vars())).unwrap();
    assert_eq!(config, AppConfig::default());
    assert_eq!(disk.files[CONFIG], written(18765));
    assert_eq!(disk.done, vec!["exists", "mkdir", "serialize", "write"]);
    assert_eq!(disk.run(load_existing(&vars())).unwrap(), AppConfig::default());
    let mut disk = Disk::with(CONFIG, " \n\t");
    assert_eq!(disk.run(load_or_create(&vars())).unwrap(), AppConfig::default());
    assert_eq!(disk.files[CONFIG], written(18765));
}

#[test]
fn saved_config_is_loaded() {
    let mut disk = Disk::default();
    let config = AppConfig { extension_port: 4000 };
    assert_eq!(disk.run(save(&vars(), &config)).unwrap(), config);
    assert_eq!(disk.files[CONFIG], written(4000));
    assert_eq!(disk.done, vec!["mkdir", "serialize", "write"]);
    assert_eq!(disk.run(load_or_create(&vars())).unwrap(), config);
    assert_eq!(disk.run(load_existing(&vars())).unwrap(), config);
}

#[test]
fn loading_what_exists_writes_nothing() {
    let mut disk = Disk::default();
    let err = disk.run(load_existing(&vars())).unwrap_err();
    assert_eq!(err.kind, ConfigErrorKind::ReadConfig);
    assert_eq!(err.message(), format!("读取配置文件失败: {CONFIG}"));
    assert_eq!(err.cause.as_deref(), Some("no such file"));
    assert!(disk.files.is_empty());
    let mut disk = Disk::with(CONFIG, "  ");
    let err = disk.run(load_existing(&vars())).unwrap_err();
    assert_eq!(err.kind, ConfigErrorKind::EmptyConfig);
    assert_eq!(err.message(), format!("配置文件为空: {CONFIG}"));
    assert_eq!(disk.done, vec!["read"]);
}

#[test]
fn port_is_set_and_kept() {
    let mut disk = Disk::default();
    assert_eq!(disk.run(set_extension_port(&vars(), 5000)).unwrap().extension_port, 5000);
    assert_eq!(disk.files[CONFIG], written(5000));
    assert_eq!(
        disk.done,
        vec!["exists", "mkdir", "serialize", "write", "mkdir", "serialize", "write"]
    );
    assert_eq!(disk.run(load_or_create(&vars())).unwrap().extension_port, 5000);
    assert_eq!(disk.run(load_existing(&vars())).unwrap().extension_port, 5000);
    assert_eq!(disk.run(set_extension_port(&vars(), 6000)).unwrap().extension_port, 6000);
    assert_eq!(disk.run(load_existing(&vars())).unwrap().extension_port, 6000);
}

#[test]
fn invalid_ports_are_refused_before_anything_is_done() {
    for port in [0, 18767] {
        let mut disk = Disk::default();
        assert!(disk.run(set_extension_port(&vars(), port)).is_err());
        assert!(disk.run(save(&vars(), &AppConfig { extension_port: port })).is_err());
        assert!(disk.done.is_empty());
    }
    let err = Disk::default().run(set_extension_port(&nobody(), 0)).unwrap_err();
    assert_eq!(err.kind, ConfigErrorKind::PortZero);
}

#[test]
fn broken_config_is_left_alone() {
    for content in ["{", "{\"extension_port\": 18767}", "{\"extension_port\": 0}"] {
        let mut disk = Disk::with(CONFIG, content);
        assert!(disk.run(load_or_create(&vars())).is_err());
        assert!(disk.run(load_existing(&vars())).is_err());
        assert!(disk.run(set_extension_port(&vars(), 5000)).is_err());
        assert_eq!(disk.files[CONFIG], content);
    }
    let err = Disk::with(CONFIG, "{").run(load_or_create(&vars())).unwrap_err();
    assert_eq!(err.kind, ConfigErrorKind::ParseConfig);
    assert_eq!(err.message(), format!("解析配置文件失败: {CONFIG}"));
}

#[test]
fn errors_while_saving_are_reported() {
    let step = || save(&vars(), &AppConfig::default());
    let err = Disk::default().failing("mkdir").run(step()).unwrap_err();
    assert_eq!(err.kind, ConfigErrorKind::CreateConfigDir);
    assert_eq!(err.message(), "创建配置目录失败: /home/alice/.agent-browser-cli");
    assert_eq!(err.cause.as_deref(), Some("disk on fire"));
    let err = Disk::default().failing("serialize").run(step()).unwrap_err();
    assert_eq!(err.kind, ConfigErrorKind::Bare);
    assert_eq!(err.message(), "disk on fire");
    let err = Disk::default().failing("write").run(step()).unwrap_err();
    assert_eq!(err.kind, ConfigErrorKind::WriteConfig);
    assert_eq!(err.message(), format!("写入配置文件失败: {CONFIG}"));
    let err = Disk::with(CONFIG, "x").failing("read").run(load_or_create(&vars())).unwrap_err();
    assert_eq!(err.kind, ConfigErrorKind::ReadConfig);
}

#[test]
fn replies_to_other_actions_change_nothing() {
    let run = match load_or_create(&vars()) {
        ConfigStep::Act(run) => run,
        ConfigStep::Done(_) => panic!("nothing is to be done"),
    };
    match run.reply(ConfigReply::Written(Ok(()))) {
        ConfigStep::Act(run) => assert!(matches!(run.action(), ConfigAction::Exists(_))),
        ConfigStep::Done(_) => panic!("the wrong reply was taken"),
    }
}

#[test]
fn saved_token_is_loaded() {
    let mut disk = Disk::with(TOKEN, "old\n");
    disk.run_token(save_api_token(&vars(), "SECRET", 4711)).unwrap();
    assert_eq!(disk.files.len(), 1);
    assert_eq!(disk.files[TOKEN], "SECRET\n");
    assert_eq!(
        disk.done,
        vec!["mkdir", "open", "write token", "write newline", "sync", "restrict", "rename"]
    );
    assert_eq!(disk.load_token().unwrap().as_deref(), Some("SECRET"));
}

#[test]
fn token_loses_the_white_space_at_its_ends() {
    let mut disk = Disk::default();
    disk.run_token(save_api_token(&vars(), " a b ", 4711)).unwrap();
    assert_eq!(disk.load_token().unwrap().as_deref(), Some("a b"));
    disk.run_token(save_api_token(&vars(), "  ", 4711)).unwrap();
    let err = disk.load_token().unwrap_err();
    assert_eq!(err.kind, ConfigErrorKind::EmptyTokenFile);
    assert_eq!(err.message(), format!("API token 文件为空: {TOKEN}"));
}

#[test]
fn missing_token_is_none() {
    assert_eq!(Disk::default().load_token().unwrap(), None);
    let path = api_token_path(&vars()).unwrap();
    let err = load_api_token(&path, TokenFile::Failed("denied".to_string())).unwrap_err();
    assert_eq!(err.kind, ConfigErrorKind::ReadToken);
    assert_eq!(err.message(), format!("读取 API token 失败: {TOKEN}"));
    assert_eq!(err.cause.as_deref(), Some("denied"));
}

#[test]
fn empty_token_is_refused() {
    let err = Disk::default().run_token(save_api_token(&nobody(), "", 1)).unwrap_err();
    assert_eq!(err.kind, ConfigErrorKind::EmptyToken);
    assert_eq!(err.message(), "API token 不能为空");
}

#[test]
fn failed_save_leaves_the_old_token_and_no_temporary_file() {
    for (action, kind, message) in [
        (
            "open",
            ConfigErrorKind::CreateTempToken,
            format!("创建 API token 临时文件失败: {TEMP}"),
        ),
        ("write token", ConfigErrorKind::Bare, "disk on fire".to_string()),
        ("write newline", ConfigErrorKind::Bare, "disk on fire".to_string()),
        ("sync", ConfigErrorKind::Bare, "disk on fire".to_string()),
        ("restrict", ConfigErrorKind::Bare, "disk on fire".to_string()),
        ("rename", ConfigErrorKind::SaveToken, format!("保存 API token 失败: {TOKEN}")),
    ] {
        let mut disk = Disk::with(TOKEN, "old\n").failing(action);
        let err = disk.run_token(save_api_token(&vars(), "SECRET", 4711)).unwrap_err();
        assert_eq!(err.kind, kind, "{action}");
        assert_eq!(err.message(), message, "{action}");
        assert_eq!(disk.done.last().unwrap(), "remove", "{action}");
        assert_eq!(disk.files.len(), 1, "{action}");
        assert_eq!(disk.files[TOKEN], "old\n", "{action}");
    }
    let mut disk = Disk::default().failing("mkdir");
    let err = disk.run_token(save_api_token(&vars(), "SECRET", 4711)).unwrap_err();
    assert_eq!(err.kind, ConfigErrorKind::CreateConfigDir);
    assert_eq!(disk.done, vec!["mkdir"]);
}

#[test]
fn log_is_created_where_it_is_missing() {
    let mut disk = Disk::default();
    assert_eq!(text(&disk.run_log(ensure_log_file(&vars())).unwrap()), LOG);
    assert_eq!(disk.files[LOG], "");
    let mut disk = Disk::with(LOG, "line\n");
    assert_eq!(text(&disk.run_log(ensure_log_file(&vars())).unwrap()), LOG);
    assert_eq!(disk.files[LOG], "line\n");
    assert_eq!(disk.done, vec!["mkdir"]);
}

#[test]
fn errors_with_the_log_are_reported() {
    let err = Disk::default().failing("mkdir").run_log(ensure_log_file(&vars())).unwrap_err();
    assert_eq!(err.kind, ConfigErrorKind::CreateLogDir);
    assert_eq!(err.message(), "创建日志目录失败: /home/alice/.agent-browser-cli/logs");
    let err = Disk::default().failing("create").run_log(ensure_log_file(&vars())).unwrap_err();
    assert_eq!(err.kind, ConfigErrorKind::CreateLogFile);
    assert_eq!(err.message(), format!("创建日志文件失败: {LOG}"));
}
