//! Laws of the tool's files.
//!
//! Those that follow a run to its end speak of a file system in which every action works, as a
//! map from paths to texts; the others hold whatever comes of an action.

use vstd::prelude::*;
use vstd::utf8::{encode_utf8, is_ascii_chars, is_ascii_chars_encode_utf8};

use crate::config::{
    api_token_path_in, config_dir_in, config_path_in, daemon_log_path_in, default_config, home_of,
    log_dir_in, plain_error, port_fault, valid_port, AppConfig, ConfigErrorView, HomeVarsView,
};
use crate::config_files::{
    action_of, load_existing_step, load_or_create_step, next_config_step, save_config_step,
    set_port_step, ConfigActionView, ConfigReplyView, ConfigRunView, ConfigStageView,
    ConfigStepView,
};
use crate::log_file::{
    ensure_log_step, log_action_of, next_log_step, LogActionView, LogReplyView, LogStepView,
};
use crate::path::{absolute, joined_path, SEPARATOR};
use crate::text::{
    blank, dark, first_where, last_where, lemma_blank_is_trimmed_away, lemma_first_where,
    lemma_first_where_found, lemma_last_where, lemma_last_where_found, trimmed, white_space,
};
use crate::token::{
    loaded_token, next_token_step, save_token_step, temp_name, token_action_of, token_failure,
    TokenActionView, TokenFileView, TokenRunView, TokenStageView, TokenStepView,
};

verus! {

// ---- Where the files are ----

/// An ASCII name that is not empty and begins and ends with no separator lies right behind it.
proof fn lemma_entry(dir: Seq<u8>, name: Seq<char>)
    requires
        is_ascii_chars(name),
        name.len() > 0,
        name[0] != '/',
        name.last() != '/',
    ensures
        !absolute(encode_utf8(name)),
        joined_path(dir, encode_utf8(name)).len() > 0,
        joined_path(dir, encode_utf8(name)).last() != SEPARATOR,
        dir.len() > 0 && dir.last() != SEPARATOR ==> joined_path(dir, encode_utf8(name))
            == dir.push(SEPARATOR) + encode_utf8(name),
{
    is_ascii_chars_encode_utf8(name);
    let bytes = encode_utf8(name);
    assert(bytes.len() == name.len());
    assert(bytes[0] == name[0] as u8);
    assert(bytes.last() == name.last() as u8);
    assert(joined_path(dir, bytes).last() == bytes.last());
}

proof fn lemma_names()
    ensures
        is_ascii_chars(".agent-browser-cli"@) && ".agent-browser-cli"@.len() > 0
            && ".agent-browser-cli"@[0] != '/' && ".agent-browser-cli"@.last() != '/',
        is_ascii_chars("config.json"@) && "config.json"@.len() > 0 && "config.json"@[0] != '/'
            && "config.json"@.last() != '/',
        is_ascii_chars("logs"@) && "logs"@.len() > 0 && "logs"@[0] != '/' && "logs"@.last() != '/',
        is_ascii_chars("daemon.log"@) && "daemon.log"@.len() > 0 && "daemon.log"@[0] != '/'
            && "daemon.log"@.last() != '/',
        is_ascii_chars("api-token"@) && "api-token"@.len() > 0 && "api-token"@[0] == 'a'
            && "api-token"@.last() != '/',
{
    reveal_strlit(".agent-browser-cli");
    reveal_strlit("config.json");
    reveal_strlit("logs");
    reveal_strlit("daemon.log");
    reveal_strlit("api-token");
}

/// Each of the tool's files lies in the directory that is made for it: its path is that of the
/// directory, a separator and a name.
pub proof fn law_files_lie_in_their_directory(home: Seq<u8>)
    ensures
        config_path_in(home) == config_dir_in(home).push(SEPARATOR) + encode_utf8("config.json"@),
        api_token_path_in(home) == config_dir_in(home).push(SEPARATOR) + encode_utf8("api-token"@),
        log_dir_in(home) == config_dir_in(home).push(SEPARATOR) + encode_utf8("logs"@),
        daemon_log_path_in(home) == log_dir_in(home).push(SEPARATOR) + encode_utf8("daemon.log"@),
{
    lemma_names();
    lemma_entry(home, ".agent-browser-cli"@);
    lemma_entry(config_dir_in(home), "config.json"@);
    lemma_entry(config_dir_in(home), "api-token"@);
    lemma_entry(config_dir_in(home), "logs"@);
    lemma_entry(log_dir_in(home), "daemon.log"@);
}

// ---- The configuration ----

/// How configurations are written as text and read from it.
pub struct Format {
    pub write: spec_fn(AppConfig) -> Seq<char>,
    pub read: spec_fn(Seq<char>) -> Result<AppConfig, Seq<char>>,
}

/// The texts of files by their paths.
pub type Files = Map<Seq<u8>, Seq<char>>;

/// The format reads back what it has written of `config`, a line break behind it.
pub open spec fn faithful(format: Format, config: AppConfig) -> bool {
    let text = (format.write)(config) + "\n"@;
    !blank(text) && (format.read)(text) == Ok::<_, Seq<char>>(config)
}

/// The reply to an action where every action works.
pub open spec fn config_reply(
    format: Format,
    files: Files,
    action: ConfigActionView,
) -> ConfigReplyView {
    match action {
        ConfigActionView::Exists(path) => ConfigReplyView::Exists(files.contains_key(path)),
        ConfigActionView::Read(path) => ConfigReplyView::Read(
            if files.contains_key(path) {
                Ok(files[path])
            } else {
                Err("not found"@)
            },
        ),
        ConfigActionView::Parse(text) => ConfigReplyView::Parsed((format.read)(text)),
        ConfigActionView::CreateDirs(_) => ConfigReplyView::Created(Ok(())),
        ConfigActionView::Serialize(config) => ConfigReplyView::Serialized(
            Ok((format.write)(config)),
        ),
        ConfigActionView::Write { .. } => ConfigReplyView::Written(Ok(())),
    }
}

/// The files after an action where every action works.
pub open spec fn config_effect(files: Files, action: ConfigActionView) -> Files {
    match action {
        ConfigActionView::Write { path, text } => files.insert(path, text),
        _ => files,
    }
}

/// What a step comes to, and the files then, when up to `n` actions are carried out.
pub open spec fn run_config(format: Format, files: Files, step: ConfigStepView, n: nat) -> (
    ConfigStepView,
    Files,
)
    decreases n,
{
    match step {
        ConfigStepView::Done(_) => (step, files),
        ConfigStepView::Act(run) => if n == 0 {
            (step, files)
        } else {
            let action = action_of(run);
            run_config(
                format,
                config_effect(files, action),
                next_config_step(run, config_reply(format, files, action)),
                (n - 1) as nat,
            )
        },
    }
}

/// The end of a run: the configuration that is then in force.
pub open spec fn in_force(config: AppConfig) -> ConfigStepView {
    ConfigStepView::Done(Ok(config))
}

/// Saving a configuration makes it, and a line break, the text of its file, and touches no other.
pub proof fn law_save_writes_the_file(
    format: Format,
    files: Files,
    vars: HomeVarsView,
    config: AppConfig,
    home: Seq<u8>,
)
    requires
        home_of(vars) == Some(home),
        valid_port(config.extension_port),
    ensures
        run_config(format, files, save_config_step(vars, config), 3) == (
            in_force(config),
            files.insert(config_path_in(home), (format.write)(config) + "\n"@),
        ),
{
    reveal_with_fuel(run_config, 4);
}

/// What is loaded is what was saved last.
pub proof fn law_load_gives_back_what_was_saved(
    format: Format,
    files: Files,
    vars: HomeVarsView,
    config: AppConfig,
)
    requires
        home_of(vars) is Some,
        valid_port(config.extension_port),
        faithful(format, config),
    ensures
        ({
            let saved = run_config(format, files, save_config_step(vars, config), 3).1;
            &&& run_config(format, saved, load_or_create_step(vars), 3) == (in_force(config), saved)
            &&& run_config(format, saved, load_existing_step(vars), 2) == (in_force(config), saved)
        }),
{
    reveal_with_fuel(run_config, 4);
    law_save_writes_the_file(format, files, vars, config, home_of(vars)->0);
}

/// Where there is no configuration, or its file is empty, loading makes the default one.
pub proof fn law_default_is_created(
    format: Format,
    files: Files,
    vars: HomeVarsView,
    home: Seq<u8>,
)
    requires
        home_of(vars) == Some(home),
        files.contains_key(config_path_in(home)) ==> blank(files[config_path_in(home)]),
    ensures
        run_config(format, files, load_or_create_step(vars), 5) == (
            in_force(default_config()),
            files.insert(config_path_in(home), (format.write)(default_config()) + "\n"@),
        ),
{
    reveal_with_fuel(run_config, 6);
}

/// Once a configuration is in force, by loading, making or setting it, loading what exists gives
/// that one, and its port is one that the extension can have.
pub proof fn law_load_existing_gives_what_is_in_force(
    format: Format,
    files: Files,
    vars: HomeVarsView,
    home: Seq<u8>,
    config: AppConfig,
    port: u16,
)
    requires
        home_of(vars) == Some(home),
        faithful(format, default_config()),
        faithful(format, AppConfig { extension_port: port }),
    ensures
        ({
            let (end, then) = run_config(format, files, load_or_create_step(vars), 5);
            end == in_force(config) ==> valid_port(config.extension_port) && run_config(
                format,
                then,
                load_existing_step(vars),
                2,
            ) == (in_force(config), then)
        }),
        ({
            let (end, then) = run_config(format, files, set_port_step(vars, port), 8);
            end == in_force(config) ==> config.extension_port == port && valid_port(port)
                && run_config(format, then, load_existing_step(vars), 2) == (in_force(config), then)
        }),
{
    reveal_with_fuel(run_config, 9);
}

/// Loading the configuration that is there writes nothing, and fails where its file is missing or
/// empty.
pub proof fn law_load_existing_only_reads(
    format: Format,
    files: Files,
    vars: HomeVarsView,
    home: Seq<u8>,
)
    requires
        home_of(vars) == Some(home),
    ensures
        run_config(format, files, load_existing_step(vars), 2).0 is Done,
        run_config(format, files, load_existing_step(vars), 2).1 == files,
        (files.contains_key(config_path_in(home)) ==> blank(files[config_path_in(home)])) ==> (
        run_config(format, files, load_existing_step(vars), 2).0 matches ConfigStepView::Done(
            Err(_),
        )),
{
    reveal_with_fuel(run_config, 3);
}

/// The file is missing, empty, or holds a configuration that can be loaded.
pub open spec fn loadable(format: Format, files: Files, file: Seq<u8>) -> bool {
    files.contains_key(file) && !blank(files[file]) ==> ((format.read)(files[file]) matches Ok(
        config,
    ) && valid_port(config.extension_port))
}

/// Setting the port saves a configuration with that port, and it is what is loaded then.
pub proof fn law_set_port_is_kept(
    format: Format,
    files: Files,
    vars: HomeVarsView,
    home: Seq<u8>,
    port: u16,
)
    requires
        home_of(vars) == Some(home),
        valid_port(port),
        loadable(format, files, config_path_in(home)),
        faithful(format, AppConfig { extension_port: port }),
    ensures
        ({
            let config = AppConfig { extension_port: port };
            let (end, saved) = run_config(format, files, set_port_step(vars, port), 8);
            &&& end == in_force(config)
            &&& saved == files.insert(config_path_in(home), (format.write)(config) + "\n"@)
            &&& run_config(format, saved, load_or_create_step(vars), 3) == (in_force(config), saved)
        }),
{
    reveal_with_fuel(run_config, 9);
    let config = AppConfig { extension_port: port };
    let (end, saved) = run_config(format, files, set_port_step(vars, port), 8);
    assert(saved =~= files.insert(config_path_in(home), (format.write)(config) + "\n"@));
}

/// A port that the extension cannot have is refused before anything is read or written, whether it
/// is to be saved or set.
pub proof fn law_invalid_port_is_refused(vars: HomeVarsView, port: u16)
    requires
        !valid_port(port),
    ensures
        port_fault(port) is Some,
        set_port_step(vars, port) == ConfigStepView::Done(Err(plain_error(port_fault(port)->0))),
        save_config_step(vars, AppConfig { extension_port: port }) == ConfigStepView::Done(
            Err(plain_error(port_fault(port)->0)),
        ),
{
}

/// The default configuration is one that the extension can have.
pub proof fn law_default_is_valid()
    ensures
        valid_port(default_config().extension_port),
{
}

/// A configuration that cannot be read, or whose port the extension cannot have, is left as it
/// is: neither loading it nor setting its port writes anything.
pub proof fn law_broken_config_is_left_alone(
    format: Format,
    files: Files,
    vars: HomeVarsView,
    home: Seq<u8>,
    port: u16,
)
    requires
        home_of(vars) == Some(home),
        !loadable(format, files, config_path_in(home)),
    ensures
        ({
            let (loaded, then) = run_config(format, files, load_or_create_step(vars), 3);
            loaded matches ConfigStepView::Done(Err(_)) && then == files
        }),
        ({
            let (set, then) = run_config(format, files, set_port_step(vars, port), 3);
            set matches ConfigStepView::Done(Err(_)) && then == files
        }),
{
    reveal_with_fuel(run_config, 4);
}

/// The reply is one to the action, whatever came of it.
pub open spec fn replies_to(action: ConfigActionView, reply: ConfigReplyView) -> bool {
    match action {
        ConfigActionView::Exists(_) => reply is Exists,
        ConfigActionView::Read(_) => reply is Read,
        ConfigActionView::Parse(_) => reply is Parsed,
        ConfigActionView::CreateDirs(_) => reply is Created,
        ConfigActionView::Serialize(_) => reply is Serialized,
        ConfigActionView::Write { .. } => reply is Written,
    }
}

/// How many actions a run can still wait for.
pub open spec fn config_actions_left(run: ConfigRunView) -> nat {
    match run.stage {
        ConfigStageView::Checking => 8,
        ConfigStageView::Reading => 7,
        ConfigStageView::Parsing { .. } => 4,
        ConfigStageView::CreatingDir { last, .. } => if last {
            3
        } else {
            6
        },
        ConfigStageView::Serializing { last, .. } => if last {
            2
        } else {
            5
        },
        ConfigStageView::Writing { last, .. } => if last {
            1
        } else {
            4
        },
    }
}

/// With each reply to its action a run comes closer to its end, whatever the reply is.
pub proof fn law_config_run_ends(run: ConfigRunView, reply: ConfigReplyView)
    requires
        replies_to(action_of(run), reply),
    ensures
        config_actions_left(run) <= 8,
        next_config_step(run, reply) matches ConfigStepView::Act(next) ==> config_actions_left(next)
            < config_actions_left(run),
{
}

/// The files of a run stay the same from its first step to its end.
pub proof fn law_config_run_keeps_its_files(run: ConfigRunView, reply: ConfigReplyView)
    ensures
        next_config_step(run, reply) matches ConfigStepView::Act(next) ==> next.file == run.file
            && next.dir == run.dir,
        action_of(run) matches ConfigActionView::Write { path, .. } ==> path == run.file,
{
}

// ---- The token ----

/// White space at the end of text goes when it is trimmed.
proof fn lemma_trimmed_with_space_behind(s: Seq<char>, c: char)
    requires
        white_space(c),
    ensures
        trimmed(s.push(c)) == trimmed(s),
{
    let t = s.push(c);
    lemma_first_where_found(s, dark(), 0);
    lemma_last_where_found(s, dark(), s.len() as int);
    let from = first_where(s, dark(), 0);
    let last = last_where(s, dark(), s.len() as int);
    if from < s.len() {
        assert(dark()(t[from]));
        assert forall|i: int| 0 <= i < from implies !dark()(#[trigger] t[i]) by {
            assert(!dark()(s[i]));
        }
        lemma_first_where(t, dark(), 0, from);
        assert(last >= from);
        assert forall|i: int| last < i < t.len() implies !dark()(#[trigger] t[i]) by {
            if i < s.len() {
                assert(!dark()(s[i]));
            }
        }
        lemma_last_where(t, dark(), t.len() as int, last);
        assert(t.subrange(from, last + 1) =~= s.subrange(from, last + 1));
    } else {
        assert forall|i: int| 0 <= i < t.len() implies !dark()(#[trigger] t[i]) by {
            if i < s.len() {
                assert(!dark()(s[i]));
            }
        }
        lemma_first_where(t, dark(), 0, t.len() as int);
        lemma_last_where(t, dark(), t.len() as int, -1);
        assert(last == -1);
    }
}

/// Text without white space at its ends is not changed when it is trimmed.
proof fn lemma_trimmed_of_trim_text(s: Seq<char>)
    requires
        s.len() > 0,
        !white_space(s[0]),
        !white_space(s.last()),
    ensures
        trimmed(s) == s,
{
    lemma_first_where(s, dark(), 0, 0);
    lemma_last_where(s, dark(), s.len() as int, s.len() - 1);
    assert(s.subrange(0, s.len() as int) =~= s);
}

/// Files, and the one that is open for writing.
pub struct TokenFiles {
    pub files: Files,
    pub open: Seq<u8>,
}

/// The files after an action where every action works.
pub open spec fn token_effect(state: TokenFiles, action: TokenActionView) -> TokenFiles {
    match action {
        TokenActionView::OpenPrivate(path) => TokenFiles {
            files: state.files.insert(path, Seq::empty()),
            open: path,
        },
        TokenActionView::WriteAll(text) => TokenFiles {
            files: state.files.insert(state.open, state.files[state.open] + text),
            ..state
        },
        TokenActionView::Rename { from, to } => TokenFiles {
            files: state.files.remove(from).insert(to, state.files[from]),
            ..state
        },
        TokenActionView::Remove(path) => TokenFiles { files: state.files.remove(path), ..state },
        _ => state,
    }
}

/// What a step comes to, and the files then, when up to `n` actions are carried out.
pub open spec fn run_token(state: TokenFiles, step: TokenStepView, n: nat) -> (
    TokenStepView,
    TokenFiles,
)
    decreases n,
{
    match step {
        TokenStepView::Done(_) => (step, state),
        TokenStepView::Act(run) => if n == 0 {
            (step, state)
        } else {
            run_token(
                token_effect(state, token_action_of(run)),
                next_token_step(run, Ok(())),
                (n - 1) as nat,
            )
        },
    }
}

/// The file that a token is written to first is another than that of the token.
proof fn lemma_temp_is_another_file(dir: Seq<u8>, process_id: u32)
    ensures
        joined_path(dir, encode_utf8(temp_name(process_id))) != joined_path(
            dir,
            encode_utf8("api-token"@),
        ),
{
    lemma_names();
    lemma_entry(dir, "api-token"@);
    is_ascii_chars_encode_utf8("api-token"@);
    reveal_strlit(".api-token-");
    let name = temp_name(process_id);
    assert(name[0] == '.');
    let rest = encode_utf8(name.drop_first());
    assert(encode_utf8(name) == vstd::utf8::encode_scalar('.' as u32) + rest);
    assert(vstd::utf8::encode_scalar('.' as u32)[0] == 46u8) by {
        assert((0x2eu32 & 0x7f) as u8 == 46u8) by (bit_vector);
    }
    let a = encode_utf8(name);
    let b = encode_utf8("api-token"@);
    let n: int = if dir.len() == 0 || dir.last() == SEPARATOR {
        dir.len() as int
    } else {
        (dir.len() + 1) as int
    };
    assert(a[0] != b[0]);
    assert(joined_path(dir, a)[n] == a[0]);
    assert(joined_path(dir, b)[n] == b[0]);
}

/// A saved token is the text of its file, with a line break behind it; the file that it was
/// written to first is gone, and no other is touched.
pub proof fn law_saved_token_is_in_its_file(
    state: TokenFiles,
    vars: HomeVarsView,
    home: Seq<u8>,
    token: Seq<char>,
    process_id: u32,
)
    requires
        home_of(vars) == Some(home),
        token.len() > 0,
    ensures
        ({
            let temp = joined_path(config_dir_in(home), encode_utf8(temp_name(process_id)));
            let (end, after) = run_token(state, save_token_step(vars, token, process_id), 7);
            &&& end == TokenStepView::Done(Ok(()))
            &&& after.files == state.files.remove(temp).insert(
                api_token_path_in(home),
                token + "\n"@,
            )
        }),
{
    reveal_with_fuel(run_token, 8);
    lemma_temp_is_another_file(config_dir_in(home), process_id);
    let temp = joined_path(config_dir_in(home), encode_utf8(temp_name(process_id)));
    let (end, after) = run_token(state, save_token_step(vars, token, process_id), 7);
    assert(Seq::<char>::empty() + token + "\n"@ =~= token + "\n"@);
    assert(after.files =~= state.files.remove(temp).insert(
        api_token_path_in(home),
        token + "\n"@,
    ));
}

/// What reading the file of the token gives.
pub open spec fn token_file(files: Files, path: Seq<u8>) -> TokenFileView {
    if files.contains_key(path) {
        TokenFileView::Text(files[path])
    } else {
        TokenFileView::Missing
    }
}

/// The token that is loaded is the one that was saved, where that has no white space at its ends.
/// Of one that has, the rest is loaded; of one that is nothing else, an error is.
pub proof fn law_load_gives_back_the_token(
    state: TokenFiles,
    vars: HomeVarsView,
    home: Seq<u8>,
    token: Seq<char>,
    process_id: u32,
)
    requires
        home_of(vars) == Some(home),
        token.len() > 0,
    ensures
        ({
            let path = api_token_path_in(home);
            let saved = run_token(state, save_token_step(vars, token, process_id), 7).1.files;
            let loaded = loaded_token(path, token_file(saved, path));
            &&& !white_space(token[0]) && !white_space(token.last()) ==> loaded == Ok::<
                _,
                ConfigErrorView,
            >(Some(token))
            &&& !blank(token) ==> loaded == Ok::<_, ConfigErrorView>(Some(trimmed(token)))
            &&& blank(token) ==> loaded is Err
        }),
{
    law_saved_token_is_in_its_file(state, vars, home, token, process_id);
    reveal_strlit("\n");
    assert(token + "\n"@ =~= token.push('\n'));
    lemma_trimmed_with_space_behind(token, '\n');
    lemma_blank_is_trimmed_away(token);
    if !white_space(token[0]) && !white_space(token.last()) {
        lemma_trimmed_of_trim_text(token);
    }
}

/// Until the new file takes its place, the file of the token is not touched: no action but the
/// last names it.
pub proof fn law_token_file_changes_only_by_renaming(run: TokenRunView)
    ensures
        token_action_of(run) matches TokenActionView::OpenPrivate(path) ==> path == run.temp,
        token_action_of(run) matches TokenActionView::Remove(path) ==> path == run.temp,
        token_action_of(run) matches TokenActionView::Rename { from, to } ==> from == run.temp && to
            == run.file && run.stage is Renaming,
{
}

/// When saving fails once the new file may be there, that file is removed, and what failed is
/// still what is reported.
pub proof fn law_failed_save_leaves_no_temporary_file(
    run: TokenRunView,
    cause: Seq<char>,
    removed: Result<(), Seq<char>>,
)
    requires
        !(run.stage is CreatingDir),
        !(run.stage is Removing),
    ensures
        next_token_step(run, Err(cause)) matches TokenStepView::Act(next) && token_action_of(next)
            == TokenActionView::Remove(run.temp) && next_token_step(next, removed)
            == TokenStepView::Done(Err(token_failure(run, cause))),
{
}

/// How many actions a run can still wait for.
pub open spec fn token_actions_left(run: TokenRunView) -> nat {
    match run.stage {
        TokenStageView::CreatingDir => 8,
        TokenStageView::Opening => 7,
        TokenStageView::WritingToken => 6,
        TokenStageView::WritingNewline => 5,
        TokenStageView::Syncing => 4,
        TokenStageView::Restricting => 3,
        TokenStageView::Renaming => 2,
        TokenStageView::Removing { .. } => 1,
    }
}

/// With each reply a run comes closer to its end, whatever the reply is, and its files stay the
/// same.
pub proof fn law_token_run_ends(run: TokenRunView, reply: Result<(), Seq<char>>)
    ensures
        token_actions_left(run) <= 8,
        next_token_step(run, reply) matches TokenStepView::Act(next) ==> token_actions_left(next)
            < token_actions_left(run) && next.file == run.file && next.temp == run.temp && next.dir
            == run.dir && next.token == run.token,
{
}

// ---- The log ----

/// The reply to an action where every action works.
pub open spec fn log_reply(files: Files, action: LogActionView) -> LogReplyView {
    match action {
        LogActionView::Exists(path) => LogReplyView::Exists(files.contains_key(path)),
        _ => LogReplyView::Finished(Ok(())),
    }
}

/// The files after an action where every action works.
pub open spec fn log_effect(files: Files, action: LogActionView) -> Files {
    match action {
        LogActionView::Create(path) => if files.contains_key(path) {
            files
        } else {
            files.insert(path, Seq::empty())
        },
        _ => files,
    }
}

/// What a step comes to, and the files then, when up to `n` actions are carried out.
pub open spec fn run_log(files: Files, step: LogStepView, n: nat) -> (LogStepView, Files)
    decreases n,
{
    match step {
        LogStepView::Done(_) => (step, files),
        LogStepView::Act(run) => if n == 0 {
            (step, files)
        } else {
            let action = log_action_of(run);
            run_log(
                log_effect(files, action),
                next_log_step(run, log_reply(files, action)),
                (n - 1) as nat,
            )
        },
    }
}

/// Once it is seen to, the log is there: empty where it was missing, and else as it was.
pub proof fn law_log_is_there(files: Files, vars: HomeVarsView, home: Seq<u8>)
    requires
        home_of(vars) == Some(home),
    ensures
        run_log(files, ensure_log_step(vars), 3) == (
            LogStepView::Done(Ok(daemon_log_path_in(home))),
            if files.contains_key(daemon_log_path_in(home)) {
                files
            } else {
                files.insert(daemon_log_path_in(home), Seq::empty())
            },
        ),
{
    reveal_with_fuel(run_log, 4);
}

} // verus!
