//! Resolving an Open Target: step by step, with questions about the file system in between.
//!
//! `resolve_open_target` gives the first step. A step is either the outcome or a `Resolution` that
//! waits for the answer to a question; `Resolution::answer` takes that answer and gives the next
//! step.

use vstd::prelude::*;
use vstd::utf8::{decode_utf8_encode_utf8, encode_utf8};

use crate::open_target::{
    drops_localhost, error_about, error_with, error_with_two, expand_current_user_home,
    expanded_path, explicit_scheme, explicit_web_outcome, file_url_outcome, foreign_path,
    foreign_path_platform, implicit_scheme, implicit_web_outcome, is_explicit_path, is_home_path,
    known_host, lemma_localhost_shape, lemma_scheme_in_front, lemma_scheme_shape,
    looks_like_host_port, names_home, outcome_view, resolve_explicit_web, resolve_file_url,
    resolve_implicit_web, scheme_name, spec_explicit_port, spec_explicit_scheme,
    spec_is_explicit_path, Detail, DetailValue, DetailView, ErrorView, FileUrlTarget, FileUrlView,
    HostOs, OpenTargetError, OutcomeView, ResolvedOpenTarget, ResolvedView, TargetKind, WebScheme,
};
use crate::clean::{clean_text_path, from_root, lemma_clean_stays};
use crate::path::{
    absolute, clean_path, cleaned, home_dir, joined_path, path_text, shown_path, LocalPath,
};
use crate::text::{blank, chars_of, is_blank, is_text, joined, joined3, starts_with};
use crate::urls::{
    file_url, file_url_path, file_url_with, fits_file_url, has_room_in_file_url, is_readable,
    keeps_host_over_http, local_file_url, names_localhost, option_path, option_text, parsed_url,
    plain_tail, read_back, readable, spec_host_defaults_to_http, unmarked, with_tail,
};

verus! {

// ---- Questions and answers ----

/// What kind of file a path leads to.
#[derive(Debug, Clone, Copy, PartialEq, Eq, Structural)]
pub enum FileType {
    File,
    Directory,
    Other,
}

/// A question about the file system.
#[derive(Debug)]
pub enum Question {
    /// Is there a directory at the path?
    IsDirectory(LocalPath),
    /// Is there anything at the path?
    Exists(LocalPath),
    /// What is the path once every symbolic link in it is followed?
    Canonicalize(LocalPath),
    /// What kind of file is at the path?
    FileType(LocalPath),
}

/// The answer to a question, or the text of the error that came instead.
#[derive(Debug)]
pub enum Answer {
    IsDirectory(bool),
    Exists(bool),
    Canonical(Result<LocalPath, String>),
    FileType(Result<FileType, String>),
}

/// The model of a question.
pub enum QuestionView {
    IsDirectory(Seq<u8>),
    Exists(Seq<u8>),
    Canonicalize(Seq<u8>),
    FileType(Seq<u8>),
}

/// The model of an answer.
pub enum AnswerView {
    IsDirectory(bool),
    Exists(bool),
    Canonical(Result<Seq<u8>, Seq<char>>),
    FileType(Result<FileType, Seq<char>>),
}

impl View for Question {
    type V = QuestionView;

    open spec fn view(&self) -> QuestionView {
        match *self {
            Question::IsDirectory(path) => QuestionView::IsDirectory(path@),
            Question::Exists(path) => QuestionView::Exists(path@),
            Question::Canonicalize(path) => QuestionView::Canonicalize(path@),
            Question::FileType(path) => QuestionView::FileType(path@),
        }
    }
}

impl View for Answer {
    type V = AnswerView;

    open spec fn view(&self) -> AnswerView {
        match *self {
            Answer::IsDirectory(yes) => AnswerView::IsDirectory(yes),
            Answer::Exists(yes) => AnswerView::Exists(yes),
            Answer::Canonical(Ok(path)) => AnswerView::Canonical(Ok(path@)),
            Answer::Canonical(Err(error)) => AnswerView::Canonical(Err(error@)),
            Answer::FileType(Ok(file_type)) => AnswerView::FileType(Ok(file_type)),
            Answer::FileType(Err(error)) => AnswerView::FileType(Err(error@)),
        }
    }
}

// ---- The state of a resolution ----

/// What a resolution is about.
#[derive(Debug)]
pub struct Request {
    pub input: String,
    /// The home directory, where one is known.
    pub home: Option<LocalPath>,
    /// The platform this runs on.
    pub host_os: HostOs,
}

/// How far a resolution has come.
#[derive(Debug)]
pub enum Stage {
    /// Is the working directory one?
    CheckingCwd { cwd: LocalPath },
    /// Is there something in the working directory under the target's name?
    LookingInCwd { cwd: LocalPath },
    /// Is the working directory still one, now that a path is taken relative to it?
    RecheckingCwd { cwd: LocalPath, path: LocalPath },
    /// Is there anything where the target leads?
    Finding { file: FileUrlTarget },
    /// Where does the target lead in the end?
    Canonicalizing { file: FileUrlTarget },
    /// Is it a regular file? The path of `file` is canonical, and `text` is its text.
    Inspecting { file: FileUrlTarget, text: String },
}

/// A resolution that waits for an answer.
#[derive(Debug)]
pub struct Resolution {
    pub request: Request,
    pub stage: Stage,
}

/// A step of a resolution.
#[derive(Debug)]
pub enum Step {
    Ask(Resolution),
    Done(Result<ResolvedOpenTarget, OpenTargetError>),
}

/// The model of a request.
pub struct RequestView {
    pub input: Seq<char>,
    pub home: Option<Seq<u8>>,
    pub host_os: Seq<char>,
}

/// The model of a stage.
pub enum StageView {
    CheckingCwd { cwd: Seq<u8> },
    LookingInCwd { cwd: Seq<u8> },
    RecheckingCwd { cwd: Seq<u8>, path: Seq<u8> },
    Finding { file: FileUrlView },
    Canonicalizing { file: FileUrlView },
    Inspecting { file: FileUrlView, text: Seq<char> },
}

/// The model of a resolution.
pub struct ResolutionView {
    pub request: RequestView,
    pub stage: StageView,
}

/// The model of a step.
pub enum StepView {
    Ask(ResolutionView),
    Done(OutcomeView),
}

/// The request is one that there can be: the platform is not Windows.
pub open spec fn valid_request(request: RequestView) -> bool {
    known_host(request.host_os)
}

impl View for Request {
    type V = RequestView;

    open spec fn view(&self) -> RequestView {
        RequestView { input: self.input@, home: option_path(self.home), host_os: self.host_os@ }
    }
}

impl View for Stage {
    type V = StageView;

    open spec fn view(&self) -> StageView {
        match *self {
            Stage::CheckingCwd { cwd } => StageView::CheckingCwd { cwd: cwd@ },
            Stage::LookingInCwd { cwd } => StageView::LookingInCwd { cwd: cwd@ },
            Stage::RecheckingCwd { cwd, path } => StageView::RecheckingCwd {
                cwd: cwd@,
                path: path@,
            },
            Stage::Finding { file } => StageView::Finding { file: file@ },
            Stage::Canonicalizing { file } => StageView::Canonicalizing { file: file@ },
            Stage::Inspecting { file, text } => StageView::Inspecting {
                file: file@,
                text: text@,
            },
        }
    }
}

impl View for Resolution {
    type V = ResolutionView;

    open spec fn view(&self) -> ResolutionView {
        ResolutionView { request: self.request@, stage: self.stage@ }
    }
}

impl View for Step {
    type V = StepView;

    open spec fn view(&self) -> StepView {
        match *self {
            Step::Ask(resolution) => StepView::Ask(resolution@),
            Step::Done(r) => StepView::Done(outcome_view(r)),
        }
    }
}

// ---- What each step is ----

/// The error for a working directory that is none.
pub open spec fn invalid_cwd_error(input: Seq<char>, cwd: Seq<u8>) -> ErrorView {
    error_with(
        "invalid_cwd"@,
        "cwd must be an absolute existing directory"@,
        input,
        ("cwd"@, DetailView::Path(cwd)),
    )
}

/// The error for a target that is a path as another platform writes it.
pub open spec fn foreign_path_error(input: Seq<char>, host_os: Seq<char>) -> ErrorView {
    error_with_two(
        "foreign_platform_path"@,
        "The Open Target looks like a "@ + "windows"@ + " path, but the CLI is running on "@
            + host_os,
        input,
        ("host_platform"@, DetailView::Text(host_os)),
        ("detected_platform"@, DetailView::Text("windows"@)),
    )
}

/// The error for a target with a scheme that nothing is known of.
pub open spec fn unsupported_scheme_error(scheme: Seq<char>) -> ErrorView {
    ErrorView {
        code: "unsupported_scheme"@,
        message: "Unsupported Open Target scheme: "@ + scheme,
        details: seq![
            ("scheme"@, DetailView::Text(scheme)),
            ("supported_schemes"@, DetailView::List(seq!["http"@, "https"@, "file"@])),
        ],
    }
}

/// The step for a local resource: it is asked whether anything is there.
pub open spec fn local_step(request: RequestView, file: FileUrlView) -> StepView {
    StepView::Ask(ResolutionView { request, stage: StageView::Finding { file } })
}

/// The step for a local resource at `path`, with nothing to put behind its URL.
pub open spec fn find_path(request: RequestView, path: Seq<u8>) -> StepView {
    local_step(request, FileUrlView { path: cleaned(path), query: None, fragment: None })
}

/// A path from the root is looked for under a clean one, which it is itself where it is clean.
pub open spec fn looked_for(request: RequestView, path: Seq<u8>, step: StepView) -> bool {
    &&& absolute(path) ==> clean_path(cleaned(path)) && step == find_path(request, path)
    &&& clean_path(path) ==> step == local_step(
        request,
        FileUrlView { path, query: None, fragment: None },
    )
}

/// The step for a target that is read as a path: it is looked for, a relative one from the
/// working directory, which has to be a directory still.
pub open spec fn path_step(request: RequestView, cwd: Option<Seq<u8>>) -> StepView {
    match expanded_path(request.input, request.home) {
        Err(error) => StepView::Done(Err(error)),
        Ok(path) => if absolute(path) {
            find_path(request, path)
        } else {
            match cwd {
                None => StepView::Done(
                    Err(
                        error_about(
                            "missing_cwd"@,
                            "A working directory is required for a relative Open Target"@,
                            request.input,
                        ),
                    ),
                ),
                Some(cwd) => if absolute(cwd) {
                    StepView::Ask(
                        ResolutionView { request, stage: StageView::RecheckingCwd { cwd, path } },
                    )
                } else {
                    StepView::Done(Err(invalid_cwd_error(request.input, cwd)))
                },
            }
        },
    }
}

/// The step for a target that is a `file` URL.
pub open spec fn file_step(request: RequestView) -> StepView {
    match file_url_outcome(request.input, request.host_os) {
        Err(error) => StepView::Done(Err(error)),
        Ok(file) => local_step(request, file),
    }
}

/// The outcome for a target that is read as a web address without a scheme.
pub open spec fn web_step(request: RequestView) -> StepView {
    StepView::Done(
        implicit_web_outcome(
            request.input,
            parsed_url("https://"@ + request.input),
        ),
    )
}

/// The step for a target that names a scheme.
pub open spec fn scheme_step(request: RequestView, scheme: Seq<char>) -> StepView {
    let input = request.input;
    if scheme == "http"@ {
        StepView::Done(
            explicit_web_outcome(input, WebScheme::Http, parsed_url(input)),
        )
    } else if scheme == "https"@ {
        StepView::Done(
            explicit_web_outcome(input, WebScheme::Https, parsed_url(input)),
        )
    } else if scheme == "file"@ {
        file_step(request)
    } else if spec_explicit_port(input) is Some {
        web_step(request)
    } else {
        StepView::Done(Err(unsupported_scheme_error(scheme)))
    }
}

/// The step for a target by its shape, once the working directory, if any, is known to be one.
pub open spec fn shape_step(request: RequestView, cwd: Option<Seq<u8>>) -> StepView {
    if foreign_path(request.input) {
        StepView::Done(Err(foreign_path_error(request.input, request.host_os)))
    } else {
        match spec_explicit_scheme(request.input) {
            Some(scheme) => scheme_step(request, scheme),
            None => if spec_is_explicit_path(request.input) {
                path_step(request, cwd)
            } else {
                match cwd {
                    Some(cwd) => StepView::Ask(
                        ResolutionView { request, stage: StageView::LookingInCwd { cwd } },
                    ),
                    None => web_step(request),
                }
            },
        }
    }
}

/// The first step: an empty target and a working directory that is not absolute are refused.
pub open spec fn first_step(request: RequestView, cwd: Option<Seq<u8>>) -> StepView {
    if blank(request.input) {
        StepView::Done(
            Err(
                error_about(
                    "invalid_open_target"@,
                    "Open Target must not be empty"@,
                    request.input,
                ),
            ),
        )
    } else {
        match cwd {
            None => shape_step(request, None),
            Some(cwd) => if absolute(cwd) {
                StepView::Ask(ResolutionView { request, stage: StageView::CheckingCwd { cwd } })
            } else {
                StepView::Done(Err(invalid_cwd_error(request.input, cwd)))
            },
        }
    }
}

/// The question that a resolution waits for an answer to.
pub open spec fn question_of(resolution: ResolutionView) -> QuestionView {
    match resolution.stage {
        StageView::CheckingCwd { cwd } => QuestionView::IsDirectory(cwd),
        StageView::LookingInCwd { cwd } => QuestionView::Exists(
            joined_path(cwd, encode_utf8(resolution.request.input)),
        ),
        StageView::RecheckingCwd { cwd, .. } => QuestionView::IsDirectory(cwd),
        StageView::Finding { file } => QuestionView::Exists(file.path),
        StageView::Canonicalizing { file } => QuestionView::Canonicalize(file.path),
        StageView::Inspecting { file, .. } => QuestionView::FileType(file.path),
    }
}

/// An error that shows the path of a local resource.
pub open spec fn resource_error(
    code: Seq<char>,
    message: Seq<char>,
    input: Seq<char>,
    path: Seq<u8>,
) -> ErrorView {
    error_with(code, message, input, ("resolved_path"@, DetailView::Path(path)))
}

/// The step once it is known whether there is anything where the target leads.
pub open spec fn found_step(request: RequestView, file: FileUrlView, found: bool) -> StepView {
    if found {
        StepView::Ask(ResolutionView { request, stage: StageView::Canonicalizing { file } })
    } else {
        StepView::Done(
            Err(
                resource_error(
                    "local_resource_not_found"@,
                    "Local Resource does not exist: "@ + shown_path(file.path),
                    request.input,
                    file.path,
                ),
            ),
        )
    }
}

/// The step once it is known where the target leads in the end.
pub open spec fn canonical_step(
    request: RequestView,
    file: FileUrlView,
    canonical: Result<Seq<u8>, Seq<char>>,
) -> StepView {
    match canonical {
        Err(error) => StepView::Done(
            Err(
                resource_error(
                    "local_resource_not_found"@,
                    "Could not resolve Local Resource "@ + shown_path(file.path) + ": "@ + error,
                    request.input,
                    file.path,
                ),
            ),
        ),
        Ok(path) => match path_text(path) {
            None => StepView::Done(
                Err(
                    error_about(
                        "non_utf8_local_resource"@,
                        "Local Resource path cannot be represented as UTF-8"@,
                        request.input,
                    ),
                ),
            ),
            Some(text) => StepView::Ask(
                ResolutionView {
                    request,
                    stage: StageView::Inspecting { file: FileUrlView { path, ..file }, text },
                },
            ),
        },
    }
}

/// The outcome for a local resource, by the `file` URL of its path.
pub open spec fn resource_outcome(
    input: Seq<char>,
    path: Seq<u8>,
    url: Option<Seq<char>>,
) -> OutcomeView {
    match url {
        Some(url) => Ok(ResolvedView { navigation_url: url, kind: TargetKind::LocalResource }),
        None => Err(
            resource_error(
                "invalid_file_url"@,
                "Could not convert Local Resource to a file URL"@,
                input,
                path,
            ),
        ),
    }
}

/// The outcome once it is known what kind of file is there: nothing but a regular file will do.
pub open spec fn inspected_outcome(
    request: RequestView,
    file: FileUrlView,
    text: Seq<char>,
    file_type: Result<FileType, Seq<char>>,
) -> OutcomeView {
    match file_type {
        Err(error) => Err(
            resource_error(
                "local_resource_not_found"@,
                "Could not inspect Local Resource "@ + shown_path(file.path) + ": "@ + error,
                request.input,
                file.path,
            ),
        ),
        Ok(FileType::File) => resource_outcome(
            request.input,
            file.path,
            file_url_with(text, file.query, file.fragment),
        ),
        Ok(other) => Err(
            error_with_two(
                "local_resource_not_file"@,
                "Local Resource must be a regular file: "@ + shown_path(file.path),
                request.input,
                ("resolved_path"@, DetailView::Path(file.path)),
                (
                    "actual_type"@,
                    DetailView::Text(
                        if other == FileType::Directory {
                            "directory"@
                        } else {
                            "non_regular"@
                        },
                    ),
                ),
            ),
        ),
    }
}

/// The step after an answer. An answer to some other question changes nothing.
pub open spec fn next_step(resolution: ResolutionView, answer: AnswerView) -> StepView {
    let request = resolution.request;
    match (resolution.stage, answer) {
        (StageView::CheckingCwd { cwd }, AnswerView::IsDirectory(yes)) => if yes {
            shape_step(request, Some(cwd))
        } else {
            StepView::Done(Err(invalid_cwd_error(request.input, cwd)))
        },
        (StageView::LookingInCwd { cwd }, AnswerView::Exists(yes)) => if yes {
            path_step(request, Some(cwd))
        } else {
            web_step(request)
        },
        (StageView::RecheckingCwd { cwd, path }, AnswerView::IsDirectory(yes)) => if yes {
            find_path(request, joined_path(cwd, path))
        } else {
            StepView::Done(Err(invalid_cwd_error(request.input, cwd)))
        },
        (StageView::Finding { file }, AnswerView::Exists(yes)) => found_step(request, file, yes),
        (StageView::Canonicalizing { file }, AnswerView::Canonical(canonical)) => canonical_step(
            request,
            file,
            canonical,
        ),
        (StageView::Inspecting { file, text }, AnswerView::FileType(file_type)) => StepView::Done(
            inspected_outcome(request, file, text, file_type),
        ),
        _ => StepView::Ask(resolution),
    }
}

/// The target can be resolved: it is short enough to be read as a URL, or by its shape it is a
/// path, of this platform or another.
pub open spec fn resolvable(input: Seq<char>) -> bool {
    ||| readable(input)
    ||| foreign_path(input)
    ||| spec_explicit_scheme(input) is None && spec_is_explicit_path(input)
}

/// Whether the target can be resolved.
pub fn is_resolvable(input: &str) -> (r: bool)
    ensures
        r == resolvable(input@),
{
    is_readable(input) || foreign_path_platform(input).is_some() || (explicit_scheme(
        input,
    ).is_none() && is_explicit_path(input))
}

/// The answer can be taken: where it leads to reading the target as a URL, the target is short
/// enough, and where it leads to a `file` URL, there is room in that.
pub open spec fn admits(resolution: ResolutionView, answer: AnswerView) -> bool {
    match (resolution.stage, answer) {
        (StageView::CheckingCwd { .. }, AnswerView::IsDirectory(true)) => resolvable(
            resolution.request.input,
        ),
        (StageView::LookingInCwd { .. }, AnswerView::Exists(false)) => readable(
            resolution.request.input,
        ),
        (StageView::Inspecting { file, text }, AnswerView::FileType(Ok(FileType::File))) =>
            fits_file_url(text, file.query, file.fragment),
        _ => true,
    }
}

/// What holds of the state of a resolution: the working directory is absolute; a path to be taken
/// relative to it is not; what is looked for is absolute; what the path of a local resource is
/// written as is its text; and nothing that goes behind its URL needs encoding there.
pub open spec fn well_formed(resolution: ResolutionView) -> bool {
    match resolution.stage {
        StageView::CheckingCwd { cwd } => absolute(cwd),
        StageView::LookingInCwd { cwd } => absolute(cwd),
        StageView::RecheckingCwd { cwd, path } => absolute(cwd) && !absolute(path),
        StageView::Finding { file } => absolute(file.path) && plain_tail(file.query, file.fragment),
        StageView::Canonicalizing { file } => absolute(file.path) && plain_tail(
            file.query,
            file.fragment,
        ),
        StageView::Inspecting { file, text } => path_text(file.path) == Some(text) && plain_tail(
            file.query,
            file.fragment,
        ),
    }
}

/// A step is the outcome, or a resolution whose state is well formed.
pub open spec fn well_formed_step(step: StepView) -> bool {
    match step {
        StepView::Ask(resolution) => well_formed(resolution),
        StepView::Done(_) => true,
    }
}

/// The answer is that there is a regular file where the target leads.
pub open spec fn finds_file(resolution: ResolutionView, answer: AnswerView) -> bool {
    resolution.stage is Inspecting && answer == AnswerView::FileType(Ok(FileType::File))
}

/// Where the step is a target that was found, it is a local resource, and its address begins as
/// that of a file on this host.
pub open spec fn begins_as_file(step: StepView) -> bool {
    step matches StepView::Done(Ok(target)) ==> target.kind == TargetKind::LocalResource
        && starts_with(target.navigation_url, "file:///"@)
}

/// The address that a regular file is opened at names the path of that file, which `text` writes,
/// where that is clean.
pub open spec fn names_path(text: Seq<char>, path: Seq<u8>, step: StepView) -> bool {
    clean_text_path(text) ==> (step matches StepView::Done(Ok(target)) && file_url_path(
        target.navigation_url,
    ) == Some(read_back(text, path)))
}

/// A regular file is opened exactly where the text of its path begins at the root; no `?` or `#`
/// of that text is left in its URL, before what is put behind it.
pub open spec fn opens_rooted(text: Seq<char>, step: StepView) -> bool {
    &&& from_root(text) == (step is Done && step->Done_0 is Ok)
    &&& from_root(text) ==> file_url(text) is Some && unmarked(file_url(text)->0)
}

/// What a regular file leads to from a state that is well formed: the `file` URL of its path with
/// the query and the fragment of the target, letter for letter, behind it.
pub open spec fn plain_file_outcome(resolution: ResolutionView) -> OutcomeView
    recommends
        resolution.stage is Inspecting,
{
    let file = resolution.stage->Inspecting_file;
    let text = resolution.stage->Inspecting_text;
    resource_outcome(
        resolution.request.input,
        file.path,
        with_tail(file_url(text), file.query, file.fragment),
    )
}

/// The address is one that resolving it again does not change.
pub open spec fn settled(target: ResolvedView) -> bool {
    forall|request: RequestView|
        request.input == target.navigation_url ==> #[trigger] first_step(request, None)
            == StepView::Done(Ok(target))
}

/// Where the step is a web address, resolving that does not change it.
pub open spec fn settles_web(step: StepView) -> bool {
    step matches StepView::Done(Ok(target)) ==> (target.kind == TargetKind::Web
        ==> settled(target))
}

/// A text that names a web scheme and is read as a URL with a host is settled.
proof fn lemma_settled(url: Seq<char>, scheme: WebScheme)
    requires
        spec_explicit_scheme(url) == Some(scheme_name(scheme)),
        parsed_url(url) is Ok,
        parsed_url(url)->Ok_0.host is Some,
    ensures
        settled(ResolvedView { navigation_url: url, kind: TargetKind::Web }),
{
    reveal_strlit("http");
    reveal_strlit("https");
    assert("http"@.len() != "https"@.len());
    lemma_scheme_shape(url, scheme_name(scheme));
}

/// What a target with a web scheme leads to is settled.
pub(crate) proof fn lemma_explicit_is_settled(input: Seq<char>)
    ensures
        spec_explicit_scheme(input) == Some("http"@) ==> settles_web(
            StepView::Done(explicit_web_outcome(input, WebScheme::Http, parsed_url(input))),
        ),
        spec_explicit_scheme(input) == Some("https"@) ==> settles_web(
            StepView::Done(explicit_web_outcome(input, WebScheme::Https, parsed_url(input))),
        ),
{
    if parsed_url(input) is Ok && parsed_url(input)->Ok_0.host is Some {
        if spec_explicit_scheme(input) == Some("http"@) {
            lemma_settled(input, WebScheme::Http);
        } else if spec_explicit_scheme(input) == Some("https"@) {
            lemma_settled(input, WebScheme::Https);
        }
    }
}

/// What a target without a scheme leads to is settled.
pub(crate) proof fn lemma_implicit_is_settled(input: Seq<char>)
    requires
        implicit_web_outcome(input, parsed_url("https://"@ + input)) matches Ok(target) && (
        target.navigation_url == "http://"@ + input) ==> keeps_host_over_http(
            "https://"@ + input,
            parsed_url("https://"@ + input),
        ),
    ensures
        settles_web(
            StepView::Done(implicit_web_outcome(input, parsed_url("https://"@ + input))),
        ),
{
    let text = "https://"@ + input;
    let outcome = implicit_web_outcome(input, parsed_url(text));
    reveal_strlit("http");
    reveal_strlit("https");
    reveal_strlit("://");
    reveal_strlit("http://");
    reveal_strlit("https://");
    if outcome is Ok {
        let url = outcome->Ok_0.navigation_url;
        let scheme = implicit_scheme(
            spec_explicit_port(input),
            spec_host_defaults_to_http(parsed_url(text)->Ok_0.host->0),
        );
        assert(url =~= scheme_name(scheme) + ("://"@ + input));
        lemma_scheme_in_front(scheme_name(scheme), "://"@ + input);
        assert(text.take(8) =~= "https://"@);
        assert(text.skip(8) =~= input);
        assert("http"@ + "://"@ + input =~= "http://"@ + input);
        assert("https"@ + "://"@ + input =~= text);
        lemma_settled(url, scheme);
    }
}

// ---- Taking the steps ----

/// The error for a working directory that is none.
fn invalid_cwd(input: &str, cwd: &LocalPath) -> (r: OpenTargetError)
    ensures
        r@ == invalid_cwd_error(input@, cwd@),
{
    OpenTargetError::with(
        "invalid_cwd",
        "cwd must be an absolute existing directory".to_owned(),
        input,
        Detail::path("cwd", cwd),
    )
}

/// The error for a target that is a path as another platform writes it.
fn foreign_platform(input: &str, platform: &str, host_os: &str) -> (r: OpenTargetError)
    requires
        platform@ == "windows"@,
    ensures
        r@ == foreign_path_error(input@, host_os@),
{
    let opening = joined3(
        "The Open Target looks like a ",
        platform,
        " path, but the CLI is running on ",
    );
    OpenTargetError::with_two(
        "foreign_platform_path",
        joined(opening.as_str(), host_os),
        input,
        Detail::text("host_platform", host_os),
        Detail::text("detected_platform", platform),
    )
}

/// The error for a target with a scheme that nothing is known of.
fn unsupported_scheme(scheme: &str) -> (r: OpenTargetError)
    ensures
        r@ == unsupported_scheme_error(scheme@),
{
    let supported = Detail {
        key: "supported_schemes",
        value: DetailValue::List(vec!["http", "https", "file"]),
    };
    assert(supported@ == (
        "supported_schemes"@,
        DetailView::List(seq!["http"@, "https"@, "file"@]),
    )) by {
        assert(supported@.1->List_0 =~= seq!["http"@, "https"@, "file"@]);
    }
    let error = OpenTargetError {
        code: "unsupported_scheme",
        message: joined("Unsupported Open Target scheme: ", scheme),
        details: vec![Detail::text("scheme", scheme), supported],
    };
    assert(error@.details =~= unsupported_scheme_error(scheme@).details);
    error
}

/// An error that shows the path of a local resource.
fn about_resource(code: &'static str, message: String, input: &str, path: &LocalPath) -> (r:
    OpenTargetError)
    ensures
        r@ == resource_error(code@, message@, input@, path@),
{
    OpenTargetError::with(code, message, input, Detail::path("resolved_path", path))
}

impl Request {
    /// Takes the target for a local resource. What it leads to is settled by three questions: is
    /// it there, where do its links lead, and is it a regular file?
    pub fn resolve_local_path(self, file: FileUrlTarget) -> (r: Step)
        ensures
            r@ == local_step(self@, file@),
            absolute(file@.path) && plain_tail(file@.query, file@.fragment) ==> well_formed_step(
                r@,
            ),
    {
        Step::Ask(Resolution { request: self, stage: Stage::Finding { file } })
    }

    /// Takes the target for the local resource at `path`, once that is clean.
    fn find(self, path: LocalPath) -> (r: Step)
        ensures
            r@ == find_path(self@, path@),
            absolute(path@) ==> well_formed_step(r@),
            looked_for(self@, path@, r@),
    {
        let file = FileUrlTarget { path: path.clean(), query: None, fragment: None };
        self.resolve_local_path(file)
    }

    /// Takes the target for a path.
    pub fn resolve_path_input(self, cwd: Option<LocalPath>) -> (r: Step)
        ensures
            r@ == path_step(self@, option_path(cwd)),
            well_formed_step(r@),
            expanded_path(self@.input, self@.home) matches Ok(path) ==> absolute(path)
                ==> looked_for(self@, path, r@),
    {
        match expand_current_user_home(self.input.as_str(), &self.home) {
            Err(error) => Step::Done(Err(error)),
            Ok(path) => if path.is_absolute() {
                self.find(path)
            } else {
                match validate_cwd(cwd, self.input.as_str()) {
                    Err(error) => Step::Done(Err(error)),
                    Ok(cwd) => Step::Ask(
                        Resolution { request: self, stage: Stage::RecheckingCwd { cwd, path } },
                    ),
                }
            },
        }
    }

    /// Takes the target for a `file` URL.
    fn resolve_file(self) -> (r: Step)
        requires
            readable(self@.input),
        ensures
            r@ == file_step(self@),
            well_formed_step(r@),
            drops_localhost(self@.input, self@.host_os),
    {
        match resolve_file_url(self.input.as_str(), &self.host_os) {
            Err(error) => Step::Done(Err(error)),
            Ok(file) => self.resolve_local_path(file),
        }
    }

    /// Takes the target for a web address without a scheme.
    fn resolve_web(self) -> (r: Step)
        requires
            readable(self@.input),
        ensures
            r@ == web_step(self@),
            settles_web(r@),
    {
        let outcome = resolve_implicit_web(self.input.as_str());
        proof {
            lemma_implicit_is_settled(self@.input);
        }
        Step::Done(outcome)
    }

    /// Resolves a target that names a scheme.
    fn resolve_scheme(self, scheme: String) -> (r: Step)
        requires
            readable(self@.input),
            spec_explicit_scheme(self@.input) == Some(scheme@),
        ensures
            r@ == scheme_step(self@, scheme@),
            well_formed_step(r@),
            settles_web(r@),
            drops_localhost(self@.input, self@.host_os),
    {
        proof {
            lemma_explicit_is_settled(self@.input);
            if names_localhost(self@.input) {
                lemma_localhost_shape(self@.input);
                reveal_strlit("file");
                reveal_strlit("http");
                reveal_strlit("https");
                assert("file"@[0] != "http"@[0] && "file"@[0] != "https"@[0]);
            }
        }
        let name = chars_of(scheme.as_str());
        if is_text(&name, "http") {
            Step::Done(resolve_explicit_web(self.input.as_str(), WebScheme::Http))
        } else if is_text(&name, "https") {
            Step::Done(resolve_explicit_web(self.input.as_str(), WebScheme::Https))
        } else if is_text(&name, "file") {
            self.resolve_file()
        } else if looks_like_host_port(self.input.as_str()) {
            self.resolve_web()
        } else {
            Step::Done(Err(unsupported_scheme(scheme.as_str())))
        }
    }

    /// Resolves a target by its shape, once the working directory, if any, is known to be one.
    fn resolve_shape(self, cwd: Option<LocalPath>) -> (r: Step)
        requires
            resolvable(self@.input),
        ensures
            r@ == shape_step(self@, option_path(cwd)),
            (cwd matches Some(dir) ==> absolute(dir@)) ==> well_formed_step(r@),
            settles_web(r@),
            drops_localhost(self@.input, self@.host_os),
    {
        proof {
            if names_localhost(self@.input) {
                lemma_localhost_shape(self@.input);
            }
        }
        if let Some(platform) = foreign_path_platform(self.input.as_str()) {
            return Step::Done(
                Err(foreign_platform(self.input.as_str(), platform, self.host_os.name())),
            );
        }
        if let Some(scheme) = explicit_scheme(self.input.as_str()) {
            return self.resolve_scheme(scheme);
        }
        if is_explicit_path(self.input.as_str()) {
            return self.resolve_path_input(cwd);
        }
        match cwd {
            Some(cwd) => Step::Ask(
                Resolution { request: self, stage: Stage::LookingInCwd { cwd } },
            ),
            None => self.resolve_web(),
        }
    }

    /// The first step of resolving the target.
    pub fn begin(self, cwd: Option<LocalPath>) -> (r: Step)
        requires
            resolvable(self@.input),
        ensures
            r@ == first_step(self@, option_path(cwd)),
            well_formed_step(r@),
            settles_web(r@),
            cwd is None ==> drops_localhost(self@.input, self@.host_os),
    {
        proof {
            if names_localhost(self@.input) {
                lemma_localhost_shape(self@.input);
            }
        }
        if is_blank(self.input.as_str()) {
            return Step::Done(
                Err(
                    OpenTargetError::about(
                        "invalid_open_target",
                        "Open Target must not be empty".to_owned(),
                        self.input.as_str(),
                    ),
                ),
            );
        }
        match cwd {
            None => self.resolve_shape(None),
            Some(cwd) => if cwd.is_absolute() {
                Step::Ask(Resolution { request: self, stage: Stage::CheckingCwd { cwd } })
            } else {
                Step::Done(Err(invalid_cwd(self.input.as_str(), &cwd)))
            },
        }
    }
}

/// The working directory, where there is one and it is absolute. That it is a directory remains
/// to be asked.
pub fn validate_cwd(cwd: Option<LocalPath>, input: &str) -> (r: Result<LocalPath, OpenTargetError>)
    ensures
        match r {
            Ok(path) => option_path(cwd) == Some(path@) && absolute(path@),
            Err(error) => match cwd {
                None => error@ == error_about(
                    "missing_cwd"@,
                    "A working directory is required for a relative Open Target"@,
                    input@,
                ),
                Some(cwd) => !absolute(cwd@) && error@ == invalid_cwd_error(input@, cwd@),
            },
        },
{
    match cwd {
        None => Err(
            OpenTargetError::about(
                "missing_cwd",
                "A working directory is required for a relative Open Target".to_owned(),
                input,
            ),
        ),
        Some(cwd) => if cwd.is_absolute() {
            Ok(cwd)
        } else {
            Err(invalid_cwd(input, &cwd))
        },
    }
}

/// The first step of resolving a target. `cwd` is the working directory, if there is one, and
/// `host_os` the platform this runs on. Where the target begins with a tilde, the home directory
/// is looked up.
pub fn resolve_open_target(input: &str, cwd: Option<LocalPath>, host_os: HostOs) -> (r: Step)
    requires
        resolvable(input@),
    ensures
        well_formed_step(r@),
        settles_web(r@),
        cwd is None ==> drops_localhost(input@, host_os@),
        !names_home(input@) ==> r@ == first_step(
            RequestView { input: input@, home: None, host_os: host_os@ },
            option_path(cwd),
        ),
        exists|home: Option<Seq<u8>>|
            (home matches Some(h) ==> h.len() > 0) && r@ == #[trigger] first_step(
                RequestView { input: input@, home, host_os: host_os@ },
                option_path(cwd),
            ),
{
    let home = if is_home_path(input) {
        home_dir()
    } else {
        None
    };
    let request = Request { input: input.to_owned(), home, host_os };
    request.begin(cwd)
}

/// The outcome for a local resource, by the `file` URL of its path.
pub fn resource_target(input: &str, path: &LocalPath, url: Option<String>) -> (r: Result<
    ResolvedOpenTarget,
    OpenTargetError,
>)
    ensures
        outcome_view(r) == resource_outcome(input@, path@, option_text(url)),
{
    match url {
        Some(url) => Ok(
            ResolvedOpenTarget { navigation_url: url, kind: TargetKind::LocalResource },
        ),
        None => Err(
            about_resource(
                "invalid_file_url",
                "Could not convert Local Resource to a file URL".to_owned(),
                input,
                path,
            ),
        ),
    }
}

impl Resolution {
    /// The question that this waits for an answer to.
    pub fn question(&self) -> (r: Question)
        ensures
            r@ == question_of(self@),
    {
        match &self.stage {
            Stage::CheckingCwd { cwd } => Question::IsDirectory(cwd.copy()),
            Stage::LookingInCwd { cwd } => Question::Exists(cwd.entry(self.request.input.as_str())),
            Stage::RecheckingCwd { cwd, .. } => Question::IsDirectory(cwd.copy()),
            Stage::Finding { file } => Question::Exists(file.path.copy()),
            Stage::Canonicalizing { file } => Question::Canonicalize(file.path.copy()),
            Stage::Inspecting { file, .. } => Question::FileType(file.path.copy()),
        }
    }

    /// Whether the answer can be taken: where it leads to reading the target as a URL, the target
    /// is short enough, and where it leads to a `file` URL, there is room in that.
    pub fn admits_answer(&self, answer: &Answer) -> (r: bool)
        ensures
            r == admits(self@, answer@),
    {
        match (&self.stage, answer) {
            (Stage::CheckingCwd { .. }, Answer::IsDirectory(true)) => is_resolvable(
                self.request.input.as_str(),
            ),
            (Stage::LookingInCwd { .. }, Answer::Exists(false)) => is_readable(
                self.request.input.as_str(),
            ),
            (Stage::Inspecting { file, text }, Answer::FileType(Ok(FileType::File))) =>
                has_room_in_file_url(text.as_str(), &file.query, &file.fragment),
            _ => true,
        }
    }

    /// The step after an answer. An answer to some other question changes nothing.
    pub fn answer(self, answer: Answer) -> (r: Step)
        requires
            admits(self@, answer@),
        ensures
            r@ == next_step(self@, answer@),
            well_formed(self@) ==> well_formed_step(r@),
            settles_web(r@),
            self@.stage is CheckingCwd && answer@ == AnswerView::IsDirectory(true)
                ==> drops_localhost(self@.request.input, self@.request.host_os),
            self@.stage matches StageView::RecheckingCwd { cwd, path } ==> answer@
                == AnswerView::IsDirectory(true) ==> looked_for(
                self@.request,
                joined_path(cwd, path),
                r@,
            ),
            well_formed(self@) && finds_file(self@, answer@) ==> r@ == StepView::Done(
                plain_file_outcome(self@),
            ),
            self@.stage is Inspecting ==> begins_as_file(r@),
            finds_file(self@, answer@) ==> opens_rooted(self@.stage->Inspecting_text, r@),
            well_formed(self@) && finds_file(self@, answer@) ==> names_path(
                self@.stage->Inspecting_text,
                self@.stage->Inspecting_file.path,
                r@,
            ),
    {
        let request = self.request;
        proof {
            if well_formed(self@) && self@.stage is Inspecting {
                decode_utf8_encode_utf8(self@.stage->Inspecting_file.path);
            }
        }
        match (self.stage, answer) {
            (Stage::CheckingCwd { cwd }, Answer::IsDirectory(yes)) => if yes {
                request.resolve_shape(Some(cwd))
            } else {
                Step::Done(Err(invalid_cwd(request.input.as_str(), &cwd)))
            },
            (Stage::LookingInCwd { cwd }, Answer::Exists(yes)) => if yes {
                request.resolve_path_input(Some(cwd))
            } else {
                request.resolve_web()
            },
            (Stage::RecheckingCwd { cwd, path }, Answer::IsDirectory(yes)) => if yes {
                request.find(cwd.join(&path))
            } else {
                Step::Done(Err(invalid_cwd(request.input.as_str(), &cwd)))
            },
            (Stage::Finding { file }, Answer::Exists(yes)) => request.after_finding(file, yes),
            (Stage::Canonicalizing { file }, Answer::Canonical(canonical)) =>
                request.after_canonicalizing(file, canonical),
            (Stage::Inspecting { file, text }, Answer::FileType(file_type)) => Step::Done(
                request.after_inspecting(file, text, file_type),
            ),
            (stage, _) => Step::Ask(Resolution { request, stage }),
        }
    }
}

impl Request {
    /// Goes on once it is known whether there is anything where the target leads.
    fn after_finding(self, file: FileUrlTarget, found: bool) -> (r: Step)
        ensures
            r@ == found_step(self@, file@, found),
    {
        if found {
            Step::Ask(Resolution { request: self, stage: Stage::Canonicalizing { file } })
        } else {
            let message = joined("Local Resource does not exist: ", file.path.display().as_str());
            Step::Done(
                Err(
                    about_resource(
                        "local_resource_not_found",
                        message,
                        self.input.as_str(),
                        &file.path,
                    ),
                ),
            )
        }
    }

    /// Goes on once it is known where the target leads in the end.
    fn after_canonicalizing(
        self,
        file: FileUrlTarget,
        canonical: Result<LocalPath, String>,
    ) -> (r: Step)
        ensures
            plain_tail(file@.query, file@.fragment) ==> well_formed_step(r@),
            r@ == canonical_step(
                self@,
                file@,
                match canonical {
                    Ok(path) => Ok(path@),
                    Err(error) => Err(error@),
                },
            ),
    {
        match canonical {
            Err(error) => {
                let opening = joined3(
                    "Could not resolve Local Resource ",
                    file.path.display().as_str(),
                    ": ",
                );
                let message = joined(opening.as_str(), error.as_str());
                Step::Done(
                    Err(
                        about_resource(
                            "local_resource_not_found",
                            message,
                            self.input.as_str(),
                            &file.path,
                        ),
                    ),
                )
            },
            Ok(path) => match path.to_text() {
                None => Step::Done(
                    Err(
                        OpenTargetError::about(
                            "non_utf8_local_resource",
                            "Local Resource path cannot be represented as UTF-8".to_owned(),
                            self.input.as_str(),
                        ),
                    ),
                ),
                Some(text) => {
                    let file = FileUrlTarget {
                        path,
                        query: file.query,
                        fragment: file.fragment,
                    };
                    Step::Ask(
                        Resolution { request: self, stage: Stage::Inspecting { file, text } },
                    )
                },
            },
        }
    }

    /// Ends once it is known what kind of file is there.
    fn after_inspecting(
        self,
        file: FileUrlTarget,
        text: String,
        file_type: Result<FileType, String>,
    ) -> (r: Result<ResolvedOpenTarget, OpenTargetError>)
        requires
            file_type matches Ok(FileType::File) ==> fits_file_url(
                text@,
                option_text(file.query),
                option_text(file.fragment),
            ),
        ensures
            outcome_view(r) == inspected_outcome(
                self@,
                file@,
                text@,
                match file_type {
                    Ok(file_type) => Ok(file_type),
                    Err(error) => Err(error@),
                },
            ),
            plain_tail(file@.query, file@.fragment) && file_type == Ok::<FileType, String>(
                FileType::File,
            ) ==> outcome_view(r) == resource_outcome(
                self@.input,
                file@.path,
                with_tail(file_url(text@), file@.query, file@.fragment),
            ),
            begins_as_file(StepView::Done(outcome_view(r))),
            file_type == Ok::<FileType, String>(FileType::File) ==> opens_rooted(
                text@,
                StepView::Done(outcome_view(r)),
            ),
            file_type == Ok::<FileType, String>(FileType::File) ==> names_path(
                text@,
                encode_utf8(text@),
                StepView::Done(outcome_view(r)),
            ),
    {
        match file_type {
            Err(error) => {
                let opening = joined3(
                    "Could not inspect Local Resource ",
                    file.path.display().as_str(),
                    ": ",
                );
                Err(
                    about_resource(
                        "local_resource_not_found",
                        joined(opening.as_str(), error.as_str()),
                        self.input.as_str(),
                        &file.path,
                    ),
                )
            },
            Ok(FileType::File) => {
                let query = match &file.query {
                    Some(query) => Some(query.as_str()),
                    None => None,
                };
                let fragment = match &file.fragment {
                    Some(fragment) => Some(fragment.as_str()),
                    None => None,
                };
                let url = local_file_url(text.as_str(), query, fragment);
                proof {
                    if clean_text_path(text@) {
                        lemma_clean_stays(text@);
                    }
                }
                resource_target(self.input.as_str(), &file.path, url)
            },
            Ok(other) => {
                let actual = if other == FileType::Directory {
                    "directory"
                } else {
                    "non_regular"
                };
                let message = joined(
                    "Local Resource must be a regular file: ",
                    file.path.display().as_str(),
                );
                Err(
                    OpenTargetError::with_two(
                        "local_resource_not_file",
                        message,
                        self.input.as_str(),
                        Detail::path("resolved_path", &file.path),
                        Detail::text("actual_type", actual),
                    ),
                )
            },
        }
    }
}

} // verus!
