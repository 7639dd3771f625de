//! Laws of the tool's files, action by action, and of what is written and said about them.

use vstd::prelude::*;
use vstd::utf8::{encode_utf8, valid_utf8};

use crate::config::{
    api_token_path_in, config_dir_in, config_path_in, daemon_log_path_in, default_config,
    error_message, home_of, log_dir_in, message_opening, port_fault, valid_port, AppConfig,
    ConfigErrorKind, ConfigErrorView, HomeVarsView,
};
use crate::config_files::{
    action_of, load_existing_step, load_or_create_step, next_config_step, save_config_step,
    set_port_step, ConfigActionView, ConfigReplyView, ConfigRunView, ConfigStepView,
};
use crate::config_laws::{replies_to, run_config, Files, Format};
use crate::log_file::{
    ensure_log_step, log_action_of, next_log_step, LogActionView, LogReplyView, LogRunView,
    LogStepView,
};
use crate::path::{joined_path, lossy_text};
use crate::path_laws::{law_joined_path, law_path_shows_its_text};
use crate::text::{blank, decimal, lemma_blank_is_trimmed_away, white_space};
use crate::text_laws::{law_decimal_tells_numbers_apart, law_trimmed_is_the_core};
use crate::token::{
    loaded_token, next_token_step, save_token_step, temp_name, token_action_of, TokenActionView,
    TokenFileView, TokenRunView, TokenStepView,
};

verus! {

// ---- Ports, homes and paths ----

/// Any port but 0 and 18767 will do, and 18765 is the one where none is configured.
pub proof fn law_ports(port: u16)
    ensures
        valid_port(port) == (port != 0 && port != 18767),
        port_fault(port) == (if port == 0 {
            Some(ConfigErrorKind::PortZero)
        } else if port == 18767 {
            Some(ConfigErrorKind::PortReserved)
        } else {
            None
        }),
        default_config().extension_port == 18765,
{
}

/// The home directory is what `HOME` says, even if that is empty, and else what `USERPROFILE` says.
pub proof fn law_home_directory(home: Seq<u8>, profile: Seq<u8>)
    ensures
        home_of(HomeVarsView { home: Some(home), user_profile: None }) == Some(home),
        home_of(HomeVarsView { home: Some(home), user_profile: Some(profile) }) == Some(home),
        home_of(HomeVarsView { home: None, user_profile: Some(profile) }) == Some(profile),
        home_of(HomeVarsView { home: None, user_profile: None }) is None,
{
}

/// Where the tool's files are: each under its name in a directory of the home directory.
pub proof fn law_where_the_files_are(home: Seq<u8>)
    requires
        home.len() > 0,
        home.last() != 47,
    ensures
        ({
            let dir = home + seq![47u8] + encode_utf8(".agent-browser-cli"@);
            let logs = dir + seq![47u8] + encode_utf8("logs"@);
            &&& config_dir_in(home) == dir
            &&& config_path_in(home) == dir + seq![47u8] + encode_utf8("config.json"@)
            &&& api_token_path_in(home) == dir + seq![47u8] + encode_utf8("api-token"@)
            &&& log_dir_in(home) == logs
            &&& daemon_log_path_in(home) == logs + seq![47u8] + encode_utf8("daemon.log"@)
        }),
{
    crate::config_laws::law_files_lie_in_their_directory(home);
    law_joined_path(home, encode_utf8(".agent-browser-cli"@));
    lemma_dir_name();
    let dir = config_dir_in(home);
    assert(dir.push(47u8) =~= dir + seq![47u8]);
    let logs = log_dir_in(home);
    assert(logs.push(47u8) =~= logs + seq![47u8]);
}

/// The name of the tool's directory is no absolute path.
proof fn lemma_dir_name()
    ensures
        encode_utf8(".agent-browser-cli"@).len() > 0,
        encode_utf8(".agent-browser-cli"@)[0] != 47,
{
    reveal_strlit(".agent-browser-cli");
    vstd::utf8::is_ascii_chars_encode_utf8(".agent-browser-cli"@);
    assert(".agent-browser-cli"@[0] == '.');
    assert(encode_utf8(".agent-browser-cli"@)[0] == '.' as u8);
}

/// A home directory that ends in a slash, or is empty, has the tool's directory right behind it.
pub proof fn law_home_that_ends_in_a_slash(home: Seq<u8>)
    requires
        home.len() == 0 || home.last() == 47,
    ensures
        config_dir_in(home) == home + encode_utf8(".agent-browser-cli"@),
{
    lemma_dir_name();
}

// ---- Messages ----

/// The message for an error says what it is, and behind that the path that it is about, whatever
/// led to it. An error of which nothing else is known says what led to it.
pub proof fn law_error_message(
    kind: ConfigErrorKind,
    path: Seq<u8>,
    text: Seq<char>,
    cause: Option<Seq<char>>,
    why: Seq<char>,
)
    ensures
        kind != ConfigErrorKind::Bare ==> error_message(
            ConfigErrorView { kind, path: Some(encode_utf8(text)), cause },
        ) == message_opening(kind) + text,
        kind != ConfigErrorKind::Bare && !valid_utf8(path) ==> error_message(
            ConfigErrorView { kind, path: Some(path), cause },
        ) == message_opening(kind) + lossy_text(path),
        kind != ConfigErrorKind::Bare ==> error_message(
            ConfigErrorView { kind, path: None, cause },
        ) == message_opening(kind),
        error_message(
            ConfigErrorView { kind: ConfigErrorKind::Bare, path: None, cause: Some(why) },
        ) == why,
{
    law_path_shows_its_text(text);
    reveal_strlit("");
    assert(""@ + why =~= why);
}

// ---- Loading ----

/// An end with an error.
pub open spec fn failed(
    kind: ConfigErrorKind,
    path: Option<Seq<u8>>,
    cause: Option<Seq<char>>,
) -> ConfigStepView {
    ConfigStepView::Done(Err(ConfigErrorView { kind, path, cause }))
}

/// What is loaded is what the file says, whatever its text: where the format reads it as a
/// configuration with a port that will do, that is in force; else the error says why, also where
/// its port is to be set. Either way the files stay as they are.
pub proof fn law_file_is_loaded(
    format: Format,
    files: Files,
    vars: HomeVarsView,
    home: Seq<u8>,
    config: AppConfig,
    error: Seq<char>,
    port: u16,
)
    requires
        home_of(vars) == Some(home),
        files.contains_key(config_path_in(home)),
        !blank(files[config_path_in(home)]),
        port != 0,
        port != 18767,
    ensures
        ({
            let text = files[config_path_in(home)];
            let loaded = run_config(format, files, load_or_create_step(vars), 3);
            let existing = run_config(format, files, load_existing_step(vars), 2);
            &&& loaded == existing
            &&& loaded.1 == files
            &&& (format.read)(text) == Err::<AppConfig, _>(error) ==> loaded.0 == failed(
                ConfigErrorKind::ParseConfig,
                Some(config_path_in(home)),
                Some(error),
            )
            &&& (format.read)(text) == Ok::<_, Seq<char>>(config) ==> loaded.0 == (
            if config.extension_port == 0 {
                failed(ConfigErrorKind::PortZero, None, None)
            } else if config.extension_port == 18767 {
                failed(ConfigErrorKind::PortReserved, None, None)
            } else {
                ConfigStepView::Done(Ok(config))
            })
            &&& loaded.0->Done_0 is Err ==> run_config(format, files, set_port_step(vars, port), 3)
                == loaded
        }),
{
    reveal_with_fuel(run_config, 4);
}

/// Setting the port of a configuration that can be loaded, whatever its text, or where there is
/// none yet, ends with that port in force and in the file, and touches no other file.
pub proof fn law_port_is_set(
    format: Format,
    files: Files,
    vars: HomeVarsView,
    home: Seq<u8>,
    port: u16,
)
    requires
        home_of(vars) == Some(home),
        port != 0,
        port != 18767,
        files.contains_key(config_path_in(home)) && !blank(files[config_path_in(home)]) ==> (
        (format.read)(files[config_path_in(home)]) matches Ok(config) && config.extension_port != 0
            && config.extension_port != 18767),
    ensures
        ({
            let (end, then) = run_config(format, files, set_port_step(vars, port), 8);
            &&& end == ConfigStepView::Done(Ok(AppConfig { extension_port: port }))
            &&& then == files.insert(
                config_path_in(home),
                (format.write)(AppConfig { extension_port: port }) + seq!['\n'],
            )
        }),
{
    reveal_with_fuel(run_config, 9);
    reveal_strlit("\n");
    assert("\n"@ =~= seq!['\n']);
    let (end, then) = run_config(format, files, set_port_step(vars, port), 8);
    assert(then =~= files.insert(
        config_path_in(home),
        (format.write)(AppConfig { extension_port: port }) + seq!['\n'],
    ));
}

/// Where the file is missing or blank, loading makes the default configuration, and loading what
/// exists fails, by what is wrong.
pub proof fn law_no_file_to_load(
    format: Format,
    files: Files,
    vars: HomeVarsView,
    home: Seq<u8>,
)
    requires
        home_of(vars) == Some(home),
    ensures
        files.contains_key(config_path_in(home)) && blank(files[config_path_in(home)])
            ==> run_config(format, files, load_existing_step(vars), 2) == (
            failed(ConfigErrorKind::EmptyConfig, Some(config_path_in(home)), None),
            files,
        ),
        !files.contains_key(config_path_in(home)) ==> run_config(
            format,
            files,
            load_existing_step(vars),
            2,
        ) == (
            failed(
                ConfigErrorKind::ReadConfig,
                Some(config_path_in(home)),
                Some("not found"@),
            ),
            files,
        ),
        (files.contains_key(config_path_in(home)) ==> blank(files[config_path_in(home)]))
            ==> run_config(format, files, load_or_create_step(vars), 5) == (
            ConfigStepView::Done(Ok(AppConfig { extension_port: 18765 })),
            files.insert(
                config_path_in(home),
                (format.write)(AppConfig { extension_port: 18765 }) + seq!['\n'],
            ),
        ),
{
    reveal_with_fuel(run_config, 6);
    reveal_strlit("\n");
    assert("\n"@ =~= seq!['\n']);
}

/// Every run is about the file of the configuration and the directory that it lies in, and what it
/// comes to does not change that.
pub proof fn law_files_of_a_run(
    vars: HomeVarsView,
    home: Seq<u8>,
    config: AppConfig,
    port: u16,
    run: ConfigRunView,
    reply: ConfigReplyView,
)
    requires
        home_of(vars) == Some(home),
        valid_port(config.extension_port),
        valid_port(port),
    ensures
        about_config(load_or_create_step(vars), home),
        about_config(load_existing_step(vars), home),
        about_config(save_config_step(vars, config), home),
        about_config(set_port_step(vars, port), home),
        run.dir == config_dir_in(home) && run.file == config_path_in(home) && next_config_step(
            run,
            reply,
        ) is Act ==> about_config(next_config_step(run, reply), home),
        action_of(run) matches ConfigActionView::CreateDirs(path) ==> path == run.dir,
        action_of(run) matches ConfigActionView::Exists(path) ==> path == run.file,
        action_of(run) matches ConfigActionView::Read(path) ==> path == run.file,
        action_of(run) matches ConfigActionView::Write { path, .. } ==> path == run.file,
{
}

/// The step is a run about the configuration in that home directory.
pub open spec fn about_config(step: ConfigStepView, home: Seq<u8>) -> bool {
    step matches ConfigStepView::Act(run) && run.dir == config_dir_in(home) && run.file
        == config_path_in(home)
}

/// Without a home directory nothing is done.
pub proof fn law_no_home_no_files(vars: HomeVarsView, config: AppConfig, port: u16)
    requires
        home_of(vars) is None,
        valid_port(config.extension_port),
        valid_port(port),
    ensures
        load_or_create_step(vars) == failed(ConfigErrorKind::HomeUnknown, None, None),
        load_existing_step(vars) == failed(ConfigErrorKind::HomeUnknown, None, None),
        save_config_step(vars, config) == failed(ConfigErrorKind::HomeUnknown, None, None),
        set_port_step(vars, port) == failed(ConfigErrorKind::HomeUnknown, None, None),
        ensure_log_step(vars) == LogStepView::Done(
            Err(
                ConfigErrorView { kind: ConfigErrorKind::HomeUnknown, path: None, cause: None },
            ),
        ),
        forall|token: Seq<char>, process_id: u32|
            token.len() > 0 ==> #[trigger] save_token_step(vars, token, process_id)
                == TokenStepView::Done(
                Err(
                    ConfigErrorView {
                        kind: ConfigErrorKind::HomeUnknown,
                        path: None,
                        cause: None,
                    },
                ),
            ),
{
}

/// A port that will not do is refused before anything is done.
pub proof fn law_bad_port_is_refused(vars: HomeVarsView)
    ensures
        set_port_step(vars, 0) == failed(ConfigErrorKind::PortZero, None, None),
        set_port_step(vars, 18767) == failed(ConfigErrorKind::PortReserved, None, None),
        save_config_step(vars, AppConfig { extension_port: 0 }) == failed(
            ConfigErrorKind::PortZero,
            None,
            None,
        ),
        save_config_step(vars, AppConfig { extension_port: 18767 }) == failed(
            ConfigErrorKind::PortReserved,
            None,
            None,
        ),
{
}

// ---- Saving, action by action ----

/// The run that a step is, which has not ended.
pub open spec fn config_run(step: ConfigStepView) -> ConfigRunView {
    step->Act_0
}

/// Saving makes the directory, writes the configuration as text and puts that, with a line break
/// behind it, into the file, in that order; then it ends with the configuration.
pub proof fn law_actions_of_saving(
    vars: HomeVarsView,
    home: Seq<u8>,
    config: AppConfig,
    text: Seq<char>,
)
    requires
        home_of(vars) == Some(home),
        config.extension_port != 0,
        config.extension_port != 18767,
    ensures
        ({
            let first = save_config_step(vars, config);
            let second = next_config_step(config_run(first), ConfigReplyView::Created(Ok(())));
            let third = next_config_step(config_run(second), ConfigReplyView::Serialized(Ok(text)));
            let last = next_config_step(config_run(third), ConfigReplyView::Written(Ok(())));
            &&& first is Act && action_of(config_run(first)) == ConfigActionView::CreateDirs(
                config_dir_in(home),
            )
            &&& second is Act && action_of(config_run(second)) == ConfigActionView::Serialize(
                config,
            )
            &&& third is Act && action_of(config_run(third)) == ConfigActionView::Write {
                path: config_path_in(home),
                text: text + seq!['\n'],
            }
            &&& last == ConfigStepView::Done(Ok(config))
        }),
{
    reveal_strlit("\n");
    assert("\n"@ =~= seq!['\n']);
}

/// Loading sees whether the file is there, reads it and reads its text; what exists is read right
/// away.
pub proof fn law_actions_of_loading(vars: HomeVarsView, home: Seq<u8>, text: Seq<char>)
    requires
        home_of(vars) == Some(home),
        !blank(text),
    ensures
        ({
            let first = load_or_create_step(vars);
            let second = next_config_step(config_run(first), ConfigReplyView::Exists(true));
            let third = next_config_step(config_run(second), ConfigReplyView::Read(Ok(text)));
            let existing = load_existing_step(vars);
            let parsing = next_config_step(config_run(existing), ConfigReplyView::Read(Ok(text)));
            &&& first is Act && action_of(config_run(first)) == ConfigActionView::Exists(
                config_path_in(home),
            )
            &&& second is Act && action_of(config_run(second)) == ConfigActionView::Read(
                config_path_in(home),
            )
            &&& third is Act && action_of(config_run(third)) == ConfigActionView::Parse(text)
            &&& existing is Act && action_of(config_run(existing)) == ConfigActionView::Read(
                config_path_in(home),
            )
            &&& parsing is Act && action_of(config_run(parsing)) == ConfigActionView::Parse(text)
        }),
{
}

/// The default configuration is made in a run like any other is saved: the directory, the text,
/// the file.
pub proof fn law_actions_of_creating(run: ConfigRunView, text: Seq<char>)
    requires
        run.stage is Checking,
    ensures
        ({
            let first = next_config_step(run, ConfigReplyView::Exists(false));
            let second = next_config_step(config_run(first), ConfigReplyView::Created(Ok(())));
            let third = next_config_step(config_run(second), ConfigReplyView::Serialized(Ok(text)));
            &&& first is Act && action_of(config_run(first)) == ConfigActionView::CreateDirs(
                run.dir,
            )
            &&& second is Act && action_of(config_run(second)) == ConfigActionView::Serialize(
                AppConfig { extension_port: 18765 },
            )
            &&& third is Act && action_of(config_run(third)) == ConfigActionView::Write {
                path: run.file,
                text: text + seq!['\n'],
            }
        }),
{
    reveal_strlit("\n");
    assert("\n"@ =~= seq!['\n']);
}

/// Whatever fails ends the run, with an error that says what it was, where, and what led to it.
pub proof fn law_failed_action_ends_the_run(run: ConfigRunView, cause: Seq<char>)
    ensures
        action_of(run) is Read ==> next_config_step(run, ConfigReplyView::Read(Err(cause)))
            == failed(ConfigErrorKind::ReadConfig, Some(run.file), Some(cause)),
        action_of(run) is Parse ==> next_config_step(run, ConfigReplyView::Parsed(Err(cause)))
            == failed(ConfigErrorKind::ParseConfig, Some(run.file), Some(cause)),
        action_of(run) is CreateDirs ==> next_config_step(run, ConfigReplyView::Created(Err(cause)))
            == failed(ConfigErrorKind::CreateConfigDir, Some(run.dir), Some(cause)),
        action_of(run) is Serialize ==> next_config_step(
            run,
            ConfigReplyView::Serialized(Err(cause)),
        ) == failed(ConfigErrorKind::Bare, None, Some(cause)),
        action_of(run) is Write ==> next_config_step(run, ConfigReplyView::Written(Err(cause)))
            == failed(ConfigErrorKind::WriteConfig, Some(run.file), Some(cause)),
{
}

/// A reply to some other action changes nothing.
pub proof fn law_other_replies_change_nothing(run: ConfigRunView, reply: ConfigReplyView)
    requires
        !replies_to(action_of(run), reply),
    ensures
        next_config_step(run, reply) == ConfigStepView::Act(run),
{
}

// ---- The token ----

/// The token in a file is its text without the white space around it, all of the rest. A blank
/// file is an error, a missing one is no token, and one that cannot be read is an error.
pub proof fn law_token_in_a_file(
    path: Seq<u8>,
    front: Seq<char>,
    token: Seq<char>,
    back: Seq<char>,
    cause: Seq<char>,
)
    requires
        blank(front),
        blank(back),
        token.len() > 0 ==> !white_space(token[0]) && !white_space(token.last()),
    ensures
        token.len() > 0 ==> loaded_token(path, TokenFileView::Text(front + token + back)) == Ok::<
            _,
            ConfigErrorView,
        >(Some(token)),
        loaded_token(path, TokenFileView::Text(front)) == Err::<Option<Seq<char>>, _>(
            ConfigErrorView {
                kind: ConfigErrorKind::EmptyTokenFile,
                path: Some(path),
                cause: None,
            },
        ),
        loaded_token(path, TokenFileView::Missing) == Ok::<_, ConfigErrorView>(None::<Seq<char>>),
        loaded_token(path, TokenFileView::Failed(cause)) == Err::<Option<Seq<char>>, _>(
            ConfigErrorView {
                kind: ConfigErrorKind::ReadToken,
                path: Some(path),
                cause: Some(cause),
            },
        ),
{
    law_trimmed_is_the_core(front, token, back);
    lemma_blank_is_trimmed_away(front);
}

/// The name of the file that a token is written to first is made of the number of the process, and
/// no other process has it.
pub proof fn law_temporary_name(a: u32, b: u32)
    ensures
        temp_name(a) == ".api-token-"@ + decimal(a as nat) + ".tmp"@,
        temp_name(a) == temp_name(b) ==> a == b,
{
    if temp_name(a) == temp_name(b) {
        reveal_strlit(".api-token-");
        reveal_strlit(".tmp");
        let x = temp_name(a);
        let y = temp_name(b);
        let n = x.len() - 4;
        assert(x.subrange(11, n) =~= decimal(a as nat));
        assert(y.subrange(11, n) =~= decimal(b as nat));
        law_decimal_tells_numbers_apart(a as nat, b as nat);
    }
}

/// What a run waits for while every action works, `n` times.
pub open spec fn token_actions(step: TokenStepView, n: nat) -> Seq<TokenActionView>
    decreases n,
{
    match step {
        TokenStepView::Act(run) => if n == 0 {
            Seq::empty()
        } else {
            seq![token_action_of(run)] + token_actions(next_token_step(run, Ok(())), (n - 1) as nat)
        },
        TokenStepView::Done(_) => Seq::empty(),
    }
}

/// Saving a token makes the directory, writes the token and a line break to a private file of its
/// own, stores it, keeps it private, and only then puts it in the place of the old one.
pub proof fn law_actions_of_saving_a_token(
    vars: HomeVarsView,
    home: Seq<u8>,
    token: Seq<char>,
    process_id: u32,
)
    requires
        home_of(vars) == Some(home),
        token.len() > 0,
    ensures
        ({
            let dir = config_dir_in(home);
            let temp = joined_path(
                dir,
                encode_utf8(".api-token-"@ + decimal(process_id as nat) + ".tmp"@),
            );
            token_actions(save_token_step(vars, token, process_id), 8) == seq![
                TokenActionView::CreateDirs(dir),
                TokenActionView::OpenPrivate(temp),
                TokenActionView::WriteAll(token),
                TokenActionView::WriteAll("\n"@),
                TokenActionView::SyncAll,
                TokenActionView::Restrict,
                TokenActionView::Rename { from: temp, to: api_token_path_in(home) },
            ]
        }),
{
    reveal_with_fuel(token_actions, 9);
    let dir = config_dir_in(home);
    let temp = joined_path(dir, encode_utf8(".api-token-"@ + decimal(process_id as nat) + ".tmp"@));
    assert(token_actions(save_token_step(vars, token, process_id), 8) =~= seq![
        TokenActionView::CreateDirs(dir),
        TokenActionView::OpenPrivate(temp),
        TokenActionView::WriteAll(token),
        TokenActionView::WriteAll("\n"@),
        TokenActionView::SyncAll,
        TokenActionView::Restrict,
        TokenActionView::Rename { from: temp, to: api_token_path_in(home) },
    ]);
}

/// An empty token is refused; no other is.
pub proof fn law_empty_token_is_refused(vars: HomeVarsView, token: Seq<char>, process_id: u32)
    ensures
        save_token_step(vars, Seq::empty(), process_id) == TokenStepView::Done(
            Err(ConfigErrorView { kind: ConfigErrorKind::EmptyToken, path: None, cause: None }),
        ),
        token.len() > 0 && home_of(vars) is Some ==> save_token_step(
            vars,
            token,
            process_id,
        ) is Act,
{
}

/// The error that an action leaves behind when it fails.
pub open spec fn token_error(
    kind: ConfigErrorKind,
    path: Option<Seq<u8>>,
    cause: Seq<char>,
) -> ConfigErrorView {
    ConfigErrorView { kind, path, cause: Some(cause) }
}

/// A failure to make the directory ends the run. Any other is followed by removing the new file,
/// and then the run ends with the error of what failed first, whatever comes of that.
pub proof fn law_failed_token_action(
    run: TokenRunView,
    cause: Seq<char>,
    removed: Result<(), Seq<char>>,
)
    requires
        !(run.stage is Removing),
    ensures
        ({
            let next = next_token_step(run, Err(cause));
            let error = match token_action_of(run) {
                TokenActionView::CreateDirs(_) => token_error(
                    ConfigErrorKind::CreateConfigDir,
                    Some(run.dir),
                    cause,
                ),
                TokenActionView::OpenPrivate(_) => token_error(
                    ConfigErrorKind::CreateTempToken,
                    Some(run.temp),
                    cause,
                ),
                TokenActionView::Rename { .. } => token_error(
                    ConfigErrorKind::SaveToken,
                    Some(run.file),
                    cause,
                ),
                _ => token_error(ConfigErrorKind::Bare, None, cause),
            };
            if token_action_of(run) is CreateDirs {
                next == TokenStepView::Done(Err(error))
            } else {
                &&& next is Act
                &&& token_action_of(next->Act_0) == TokenActionView::Remove(run.temp)
                &&& next_token_step(next->Act_0, removed) == TokenStepView::Done(Err(error))
            }
        }),
{
}

// ---- The log ----

/// The log is seen to by making its directory and looking whether it is there; only where it is
/// not is it created. Then the run ends with its path.
pub proof fn law_actions_of_seeing_to_the_log(vars: HomeVarsView, home: Seq<u8>)
    requires
        home_of(vars) == Some(home),
    ensures
        ({
            let first = ensure_log_step(vars);
            let second = next_log_step(first->Act_0, LogReplyView::Finished(Ok(())));
            let there = next_log_step(second->Act_0, LogReplyView::Exists(true));
            let third = next_log_step(second->Act_0, LogReplyView::Exists(false));
            let last = next_log_step(third->Act_0, LogReplyView::Finished(Ok(())));
            let done = LogStepView::Done(Ok(daemon_log_path_in(home)));
            &&& first is Act && log_action_of(first->Act_0) == LogActionView::CreateDirs(
                log_dir_in(home),
            )
            &&& second is Act && log_action_of(second->Act_0) == LogActionView::Exists(
                daemon_log_path_in(home),
            )
            &&& there == done
            &&& third is Act && log_action_of(third->Act_0) == LogActionView::Create(
                daemon_log_path_in(home),
            )
            &&& last == done
        }),
{
}

/// Whatever fails ends the run, with an error that says what it was, where, and what led to it; a
/// reply to some other action changes nothing.
pub proof fn law_failed_log_action(run: LogRunView, cause: Seq<char>, yes: bool)
    ensures
        log_action_of(run) is CreateDirs ==> next_log_step(run, LogReplyView::Finished(Err(cause)))
            == LogStepView::Done(
            Err(token_error(ConfigErrorKind::CreateLogDir, Some(run.dir), cause)),
        ),
        log_action_of(run) is Create ==> next_log_step(run, LogReplyView::Finished(Err(cause)))
            == LogStepView::Done(
            Err(token_error(ConfigErrorKind::CreateLogFile, Some(run.file), cause)),
        ),
        !(log_action_of(run) is Exists) ==> next_log_step(run, LogReplyView::Exists(yes))
            == LogStepView::Act(run),
        log_action_of(run) is Exists ==> next_log_step(run, LogReplyView::Finished(Err(cause)))
            == LogStepView::Act(run) && next_log_step(run, LogReplyView::Finished(Ok(())))
            == LogStepView::Act(run),
{
}

} // verus!
