//! Laws of resolving Open Targets.
//!
//! A `World` says what the file system answers to each question. `target_outcome` says, in such a
//! world, where a target leads; the steps of a resolution come to just that.

use vstd::prelude::*;
use vstd::utf8::encode_utf8;

use crate::open_target::{
    drops_localhost, error_about, expanded_path, explicit_web_outcome, file_url_outcome,
    foreign_path, implicit_web_outcome, lemma_localhost_shape, lemma_scheme_in_front,
    lemma_scheme_shape, names_home, relative_file_url_error, scheme_name, spec_explicit_port,
    spec_explicit_scheme, spec_is_explicit_path, ErrorView, FileUrlView, OutcomeView, ResolvedView,
    TargetKind, WebScheme,
};
use crate::path::{absolute, cleaned, joined_path, path_text, shown_path};
use crate::resolution::{
    first_step, foreign_path_error, inspected_outcome, invalid_cwd_error, lemma_explicit_is_settled,
    lemma_implicit_is_settled, next_step, path_step, question_of, resource_error, settled,
    shape_step, unsupported_scheme_error, valid_request, AnswerView, FileType, QuestionView,
    RequestView, ResolutionView, StageView, StepView,
};
use crate::text::{blank, lower, starts_with, white_space};
use crate::urls::{
    file_url_with, keeps_host_over_http, names_localhost, parsed_url, spec_host_defaults_to_http,
    without_localhost, UrlPartsView,
};

verus! {

/// What the file system answers to each question.
pub struct World {
    pub is_directory: spec_fn(Seq<u8>) -> bool,
    pub exists: spec_fn(Seq<u8>) -> bool,
    pub canonical: spec_fn(Seq<u8>) -> Result<Seq<u8>, Seq<char>>,
    pub file_type: spec_fn(Seq<u8>) -> Result<FileType, Seq<char>>,
}

/// The answer that the world gives to a question.
pub open spec fn answer_in(world: World, question: QuestionView) -> AnswerView {
    match question {
        QuestionView::IsDirectory(path) => AnswerView::IsDirectory((world.is_directory)(path)),
        QuestionView::Exists(path) => AnswerView::Exists((world.exists)(path)),
        QuestionView::Canonicalize(path) => AnswerView::Canonical((world.canonical)(path)),
        QuestionView::FileType(path) => AnswerView::FileType((world.file_type)(path)),
    }
}

/// What a step comes to when the world answers up to `n` questions.
pub open spec fn run(world: World, step: StepView, n: nat) -> StepView
    decreases n,
{
    match step {
        StepView::Done(_) => step,
        StepView::Ask(resolution) => if n == 0 {
            step
        } else {
            run(
                world,
                next_step(resolution, answer_in(world, question_of(resolution))),
                (n - 1) as nat,
            )
        },
    }
}

/// The working directory can be used in the world: it is absolute and there.
pub open spec fn usable_cwd(world: World, cwd: Seq<u8>) -> bool {
    absolute(cwd) && (world.is_directory)(cwd)
}

/// Where a local resource leads in the world.
pub open spec fn local_outcome(
    world: World,
    request: RequestView,
    file: FileUrlView,
) -> OutcomeView {
    if !(world.exists)(file.path) {
        Err(
            resource_error(
                "local_resource_not_found"@,
                "Local Resource does not exist: "@ + shown_path(file.path),
                request.input,
                file.path,
            ),
        )
    } else {
        match (world.canonical)(file.path) {
            Err(error) => Err(
                resource_error(
                    "local_resource_not_found"@,
                    "Could not resolve Local Resource "@ + shown_path(file.path) + ": "@ + error,
                    request.input,
                    file.path,
                ),
            ),
            Ok(path) => match path_text(path) {
                None => Err(
                    error_about(
                        "non_utf8_local_resource"@,
                        "Local Resource path cannot be represented as UTF-8"@,
                        request.input,
                    ),
                ),
                Some(text) => inspected_outcome(
                    request,
                    FileUrlView { path, query: file.query, fragment: file.fragment },
                    text,
                    (world.file_type)(path),
                ),
            },
        }
    }
}

/// The file that a path is, with nothing to put behind its URL.
pub open spec fn plain_file(path: Seq<u8>) -> FileUrlView {
    FileUrlView { path: cleaned(path), query: None, fragment: None }
}

/// Where a target that is read as a path leads in the world.
pub open spec fn path_outcome(
    world: World,
    request: RequestView,
    cwd: Option<Seq<u8>>,
) -> OutcomeView {
    match expanded_path(request.input, request.home) {
        Err(error) => Err(error),
        Ok(path) => if absolute(path) {
            local_outcome(world, request, plain_file(path))
        } else {
            match cwd {
                None => Err(
                    error_about(
                        "missing_cwd"@,
                        "A working directory is required for a relative Open Target"@,
                        request.input,
                    ),
                ),
                Some(cwd) => if usable_cwd(world, cwd) {
                    local_outcome(world, request, plain_file(joined_path(cwd, path)))
                } else {
                    Err(invalid_cwd_error(request.input, cwd))
                },
            }
        },
    }
}

/// Where a target that is read as a web address without a scheme leads.
pub open spec fn web_outcome(request: RequestView) -> OutcomeView {
    implicit_web_outcome(request.input, parsed_url("https://"@ + request.input))
}

/// Where a target that names a scheme leads in the world.
pub open spec fn scheme_outcome(
    world: World,
    request: RequestView,
    scheme: Seq<char>,
) -> OutcomeView {
    let input = request.input;
    if scheme == "http"@ {
        explicit_web_outcome(input, WebScheme::Http, parsed_url(input))
    } else if scheme == "https"@ {
        explicit_web_outcome(input, WebScheme::Https, parsed_url(input))
    } else if scheme == "file"@ {
        match file_url_outcome(input, request.host_os) {
            Err(error) => Err(error),
            Ok(file) => local_outcome(world, request, file),
        }
    } else if spec_explicit_port(input) is Some {
        web_outcome(request)
    } else {
        Err(unsupported_scheme_error(scheme))
    }
}

/// Where a target leads in the world.
pub open spec fn target_outcome(
    world: World,
    request: RequestView,
    cwd: Option<Seq<u8>>,
) -> OutcomeView {
    let input = request.input;
    if blank(input) {
        Err(error_about("invalid_open_target"@, "Open Target must not be empty"@, input))
    } else if cwd matches Some(dir) && !usable_cwd(world, dir) {
        Err(invalid_cwd_error(input, cwd->0))
    } else if foreign_path(input) {
        Err(foreign_path_error(input, request.host_os))
    } else {
        match spec_explicit_scheme(input) {
            Some(scheme) => scheme_outcome(world, request, scheme),
            None => if spec_is_explicit_path(input) {
                path_outcome(world, request, cwd)
            } else if cwd matches Some(dir) && (world.exists)(
                joined_path(dir, encode_utf8(input)),
            ) {
                path_outcome(world, request, cwd)
            } else {
                web_outcome(request)
            },
        }
    }
}

// ---- The steps of a resolution ----

proof fn lemma_run_finding(world: World, request: RequestView, file: FileUrlView, n: nat)
    requires
        n >= 3,
    ensures
        run(
            world,
            StepView::Ask(ResolutionView { request, stage: StageView::Finding { file } }),
            n,
        ) == StepView::Done(local_outcome(world, request, file)),
{
    reveal_with_fuel(run, 4);
}

proof fn lemma_run_path(world: World, request: RequestView, cwd: Option<Seq<u8>>, n: nat)
    requires
        n >= 4,
    ensures
        run(world, path_step(request, cwd), n) == StepView::Done(
            path_outcome(world, request, cwd),
        ),
{
    reveal_with_fuel(run, 2);
    match expanded_path(request.input, request.home) {
        Err(_) => {},
        Ok(path) => {
            if absolute(path) {
                lemma_run_finding(world, request, plain_file(path), n);
            } else if cwd is Some {
                lemma_run_finding(
                    world,
                    request,
                    plain_file(joined_path(cwd->0, path)),
                    (n - 1) as nat,
                );
            }
        },
    }
}

proof fn lemma_run_shape(world: World, request: RequestView, cwd: Option<Seq<u8>>, n: nat)
    requires
        n >= 5,
        !blank(request.input),
        cwd matches Some(dir) ==> usable_cwd(world, dir),
    ensures
        run(world, shape_step(request, cwd), n) == StepView::Done(
            target_outcome(world, request, cwd),
        ),
{
    reveal_with_fuel(run, 2);
    lemma_run_path(world, request, cwd, n);
    lemma_run_path(world, request, cwd, (n - 1) as nat);
    if let Ok(file) = file_url_outcome(request.input, request.host_os) {
        lemma_run_finding(world, request, file, n);
    }
}

/// A resolution comes to the outcome of its target after at most six answers.
pub proof fn law_resolution_comes_to_the_outcome(
    world: World,
    request: RequestView,
    cwd: Option<Seq<u8>>,
)
    requires
        valid_request(request),
    ensures
        run(world, first_step(request, cwd), 6) == StepView::Done(
            target_outcome(world, request, cwd),
        ),
{
    reveal_with_fuel(run, 2);
    if !blank(request.input) {
        if cwd is None || usable_cwd(world, cwd->0) {
            lemma_run_shape(world, request, cwd, 6);
            lemma_run_shape(world, request, cwd, 5);
        }
    }
}

/// How many questions a resolution may still ask.
pub open spec fn questions_left(stage: StageView) -> nat {
    match stage {
        StageView::CheckingCwd { .. } => 6,
        StageView::LookingInCwd { .. } => 5,
        StageView::RecheckingCwd { .. } => 4,
        StageView::Finding { .. } => 3,
        StageView::Canonicalizing { .. } => 2,
        StageView::Inspecting { .. } => 1,
    }
}

/// The answer is one to the question.
pub open spec fn answers(answer: AnswerView, question: QuestionView) -> bool {
    match question {
        QuestionView::IsDirectory(_) => answer is IsDirectory,
        QuestionView::Exists(_) => answer is Exists,
        QuestionView::Canonicalize(_) => answer is Canonical,
        QuestionView::FileType(_) => answer is FileType,
    }
}

/// Each answer to the question that was asked brings a resolution nearer to its end, whatever
/// the file system answers and even if it changes its mind.
pub proof fn law_every_answer_counts(resolution: ResolutionView, answer: AnswerView)
    requires
        answers(answer, question_of(resolution)),
    ensures
        next_step(resolution, answer) matches StepView::Ask(next) ==> questions_left(next.stage)
            < questions_left(resolution.stage),
{
}

/// A resolution never loses sight of what it is about.
pub proof fn law_request_is_kept(resolution: ResolutionView, answer: AnswerView)
    ensures
        next_step(resolution, answer) matches StepView::Ask(next) ==> next.request
            == resolution.request,
{
}

// ---- What is refused ----

/// A path as another platform writes it is not blank.
proof fn lemma_foreign_is_not_blank(input: Seq<char>)
    requires
        foreign_path(input),
    ensures
        !blank(input),
{
    reveal_strlit("\\\\");
    reveal_strlit(".\\");
    reveal_strlit("..\\");
    reveal_strlit("~\\");
    if starts_with(input, "\\\\"@) {
        assert(input.take(2)[0] == '\\');
    } else if starts_with(input, ".\\"@) || starts_with(input, "~\\"@) {
        assert(input.take(2)[0] == '.' || input.take(2)[0] == '~');
    } else if starts_with(input, "..\\"@) {
        assert(input.take(3)[0] == '.');
    }
    assert(!white_space(input[0]));
}

/// A target that holds nothing but white space is refused, whatever the working directory.
pub proof fn law_empty_target_is_refused(
    world: World,
    request: RequestView,
    cwd: Option<Seq<u8>>,
)
    requires
        valid_request(request),
        blank(request.input),
    ensures
        target_outcome(world, request, cwd) == Err::<ResolvedView, _>(
            error_about(
                "invalid_open_target"@,
                "Open Target must not be empty"@,
                request.input,
            ),
        ),
{
}

/// A working directory that is not absolute, or not there, is refused, whatever the target.
pub proof fn law_invalid_cwd_is_refused(world: World, request: RequestView, cwd: Seq<u8>)
    requires
        valid_request(request),
        !blank(request.input),
        !usable_cwd(world, cwd),
    ensures
        target_outcome(world, request, Some(cwd)) == Err::<ResolvedView, _>(
            invalid_cwd_error(request.input, cwd),
        ),
{
}

/// A path as another platform writes it is refused, even where there is a file of that name.
pub proof fn law_foreign_path_is_refused(
    world: World,
    request: RequestView,
    cwd: Option<Seq<u8>>,
)
    requires
        valid_request(request),
        foreign_path(request.input),
        cwd matches Some(dir) ==> usable_cwd(world, dir),
    ensures
        target_outcome(world, request, cwd) == Err::<ResolvedView, _>(
            foreign_path_error(request.input, request.host_os),
        ),
{
    lemma_foreign_is_not_blank(request.input);
}

/// A `file` URL without two slashes behind the colon is refused.
pub proof fn law_relative_file_url_is_refused(
    world: World,
    request: RequestView,
    cwd: Option<Seq<u8>>,
)
    requires
        valid_request(request),
        spec_explicit_scheme(request.input) == Some("file"@),
        !starts_with(lower(request.input), "file://"@),
        cwd matches Some(dir) ==> usable_cwd(world, dir),
    ensures
        target_outcome(world, request, cwd) == Err::<ResolvedView, _>(
            relative_file_url_error(request.input),
        ),
{
    lemma_scheme_shape(request.input, "file"@);
    reveal_strlit("file");
    reveal_strlit("http");
    reveal_strlit("https");
    assert("file"@[0] != "http"@[0]);
    assert("file"@[0] != "https"@[0]);
}

/// A scheme other than those of the web and `file` is refused, unless what looks like one is the
/// host before a port.
pub proof fn law_unsupported_scheme_is_refused(
    world: World,
    request: RequestView,
    cwd: Option<Seq<u8>>,
    scheme: Seq<char>,
)
    requires
        valid_request(request),
        spec_explicit_scheme(request.input) == Some(scheme),
        scheme != "http"@ && scheme != "https"@ && scheme != "file"@,
        spec_explicit_port(request.input) is None,
        !foreign_path(request.input),
        cwd matches Some(dir) ==> usable_cwd(world, dir),
    ensures
        target_outcome(world, request, cwd) == Err::<ResolvedView, _>(
            unsupported_scheme_error(scheme),
        ),
{
    lemma_scheme_shape(request.input, scheme);
}

/// A path that begins with a dot is relative: its first byte is no separator.
proof fn lemma_dot_is_relative(input: Seq<char>)
    requires
        input.len() > 0,
        input[0] == '.',
    ensures
        !absolute(encode_utf8(input)),
{
    let rest = encode_utf8(input.drop_first());
    assert(encode_utf8(input) == vstd::utf8::encode_scalar('.' as u32) + rest);
    assert(vstd::utf8::encode_scalar('.' as u32)[0] == 46u8) by {
        assert((0x2eu32 & 0x7f) as u8 == 46u8) by (bit_vector);
    }
}

/// A path that begins with a dot needs a working directory.
pub proof fn law_relative_path_needs_cwd(world: World, request: RequestView)
    requires
        valid_request(request),
        starts_with(request.input, "./"@) || starts_with(request.input, "../"@),
    ensures
        target_outcome(world, request, None) == Err::<ResolvedView, _>(
            error_about(
                "missing_cwd"@,
                "A working directory is required for a relative Open Target"@,
                request.input,
            ),
        ),
{
    let input = request.input;
    reveal_strlit("./");
    reveal_strlit("../");
    reveal_strlit("~");
    reveal_strlit("~/");
    reveal_strlit("\\\\");
    reveal_strlit(".\\");
    reveal_strlit("..\\");
    reveal_strlit("~\\");
    if starts_with(input, "./"@) {
        assert(input.take(2)[0] == '.' && input.take(2)[1] == '/');
    } else {
        assert(input.take(3)[0] == '.' && input.take(3)[1] == '.' && input.take(3)[2] == '/');
    }
    assert(input[0] == '.');
    lemma_dot_is_relative(input);
    assert(!foreign_path(input)) by {
        if starts_with(input, "\\\\"@) {
            assert(input.take(2)[0] == '\\');
        }
        if starts_with(input, ".\\"@) {
            assert(input.take(2)[1] == '\\');
        }
        if starts_with(input, "..\\"@) {
            assert(input.take(3)[1] == '.' && input.take(3)[2] == '\\');
        }
        if starts_with(input, "~\\"@) {
            assert(input.take(2)[0] == '~');
        }
    }
    assert(!names_home(input)) by {
        if starts_with(input, "~/"@) {
            assert(input.take(2)[0] == '~');
        }
    }
    assert(spec_explicit_scheme(input) is None);
    assert(!blank(input));
}

// ---- Where targets lead ----

/// A target with a web scheme leads to itself, letter for letter, or nowhere; and it does lead
/// there where it is a URL with a host.
pub proof fn law_explicit_web_url_is_preserved(
    world: World,
    request: RequestView,
    cwd: Option<Seq<u8>>,
)
    requires
        valid_request(request),
        spec_explicit_scheme(request.input) == Some("http"@) || spec_explicit_scheme(request.input)
            == Some("https"@),
    ensures
        target_outcome(world, request, cwd) matches Ok(target) ==> target.navigation_url
            == request.input && target.kind == TargetKind::Web,
        (cwd matches Some(dir) ==> usable_cwd(world, dir)) ==> (target_outcome(
            world,
            request,
            cwd,
        ) is Ok <==> (parsed_url(request.input) matches Ok(parts) && parts.host is Some)),
{
    reveal_strlit("http");
    reveal_strlit("https");
    lemma_scheme_shape(request.input, spec_explicit_scheme(request.input)->0);
}

/// A bare name that exists in the working directory is taken for that path, though it could be a
/// web address; one that does not exist there is taken for a web address.
pub proof fn law_existing_bare_path_wins_over_web(
    world: World,
    request: RequestView,
    cwd: Seq<u8>,
)
    requires
        valid_request(request),
        usable_cwd(world, cwd),
        !blank(request.input),
        !foreign_path(request.input),
        spec_explicit_scheme(request.input) is None,
        !spec_is_explicit_path(request.input),
    ensures
        (world.exists)(joined_path(cwd, encode_utf8(request.input))) ==> target_outcome(
            world,
            request,
            Some(cwd),
        ) == path_outcome(world, request, Some(cwd)),
        !(world.exists)(joined_path(cwd, encode_utf8(request.input))) ==> target_outcome(
            world,
            request,
            Some(cwd),
        ) == web_outcome(request),
{
}

/// A path as it is seen from the working directory, which has to be there for a relative one.
pub open spec fn seen_from(path: Seq<u8>, cwd: Option<Seq<u8>>) -> Seq<u8> {
    if absolute(path) {
        path
    } else {
        joined_path(cwd->0, path)
    }
}

/// A target that is read as a path is one from its first to its last character: a `#` or `?` in
/// it belongs to a file name, and nothing goes behind the URL of the file.
pub proof fn law_path_is_taken_whole(world: World, request: RequestView, cwd: Option<Seq<u8>>)
    requires
        valid_request(request),
        !names_home(request.input),
        absolute(encode_utf8(request.input)) || (cwd matches Some(dir) && usable_cwd(world, dir)),
    ensures
        path_outcome(world, request, cwd) == local_outcome(
            world,
            request,
            FileUrlView {
                path: cleaned(seen_from(encode_utf8(request.input), cwd)),
                query: None,
                fragment: None,
            },
        ),
{
}

/// In the world, `file` is there, every link in its path leads to `path`, which `text` writes and
/// which is a regular file, and `url` is the URL of that with the query and fragment of `file`.
pub open spec fn opens_file(
    world: World,
    file: FileUrlView,
    path: Seq<u8>,
    text: Seq<char>,
    url: Seq<char>,
) -> bool {
    &&& (world.exists)(file.path)
    &&& (world.canonical)(file.path) == Ok::<_, Seq<char>>(path)
    &&& path_text(path) == Some(text)
    &&& (world.file_type)(path) == Ok::<_, Seq<char>>(FileType::File)
    &&& Some(url) == file_url_with(text, file.query, file.fragment)
}

/// A `file` URL leads to the file it names, with its query and its fragment.
pub proof fn law_file_url_keeps_query_and_fragment(
    world: World,
    request: RequestView,
    cwd: Option<Seq<u8>>,
    parts: UrlPartsView,
)
    requires
        valid_request(request),
        spec_explicit_scheme(request.input) == Some("file"@),
        parsed_url(request.input) == Ok::<_, Seq<char>>(parts),
        target_outcome(world, request, cwd) is Ok,
    ensures
        exists|file: FileUrlView, path: Seq<u8>, text: Seq<char>|
            file.query == parts.query && file.fragment == parts.fragment && #[trigger] opens_file(
                world,
                file,
                path,
                text,
                target_outcome(world, request, cwd)->Ok_0.navigation_url,
            ),
{
    reveal_strlit("file");
    reveal_strlit("http");
    reveal_strlit("https");
    assert("file"@[0] != "http"@[0]);
    assert("file"@[0] != "https"@[0]);
    let file = file_url_outcome(request.input, request.host_os)->Ok_0;
    let path = (world.canonical)(file.path)->Ok_0;
    let text = path_text(path)->0;
    assert(target_outcome(world, request, cwd) == local_outcome(world, request, file));
    assert(opens_file(
        world,
        file,
        path,
        text,
        target_outcome(world, request, cwd)->Ok_0.navigation_url,
    ));
}

/// A local resource is a regular file, under the path that every symbolic link leads to: a
/// directory, or anything else that is no regular file, is never opened.
pub proof fn law_local_resource_is_a_regular_file(
    world: World,
    request: RequestView,
    cwd: Option<Seq<u8>>,
)
    requires
        valid_request(request),
        target_outcome(world, request, cwd) matches Ok(target) && target.kind
            == TargetKind::LocalResource,
    ensures
        exists|file: FileUrlView, path: Seq<u8>, text: Seq<char>|
            opens_file(
                world,
                file,
                path,
                text,
                target_outcome(world, request, cwd)->Ok_0.navigation_url,
            ),
{
    let input = request.input;
    let outcome = target_outcome(world, request, cwd);
    let file = match spec_explicit_scheme(input) {
        Some(_) => file_url_outcome(input, request.host_os)->Ok_0,
        None => plain_file(seen_from(expanded_path(input, request.home)->Ok_0, cwd)),
    };
    assert(outcome == local_outcome(world, request, file));
    let path = (world.canonical)(file.path)->Ok_0;
    let text = path_text(path)->0;
    assert(opens_file(world, file, path, text, outcome->Ok_0.navigation_url));
}

/// A web address without a scheme gets that of the standard port it names, whatever its host.
pub proof fn law_standard_port_decides(
    input: Seq<char>,
    parsed: Result<UrlPartsView, Seq<char>>,
    port: u16,
)
    requires
        spec_explicit_port(input) == Some(port),
        port == 80 || port == 443,
    ensures
        implicit_web_outcome(input, parsed) matches Ok(target) ==> target.kind == TargetKind::Web
            && target.navigation_url == scheme_name(
            if port == 80 {
                WebScheme::Http
            } else {
                WebScheme::Https
            },
        ) + "://"@ + input,
{
}

/// Where no standard port decides, a web address without a scheme gets `http` just when its host
/// is on this machine or on the network around it, and else `https`.
pub proof fn law_host_decides(input: Seq<char>, parts: UrlPartsView)
    requires
        spec_explicit_port(input) != Some(80u16),
        spec_explicit_port(input) != Some(443u16),
        parts.host is Some,
    ensures
        implicit_web_outcome(input, Ok(parts)) == Ok::<_, ErrorView>(
            ResolvedView {
                navigation_url: scheme_name(
                    if spec_host_defaults_to_http(parts.host->0) {
                        WebScheme::Http
                    } else {
                        WebScheme::Https
                    },
                ) + "://"@ + input,
                kind: TargetKind::Web,
            },
        ),
{
}

/// What stands before a port is a host, though it could be a scheme: unless it is `http`, `https`
/// or `file`, the target is a web address.
pub proof fn law_host_before_a_port_is_no_scheme(
    world: World,
    request: RequestView,
    cwd: Option<Seq<u8>>,
    scheme: Seq<char>,
)
    requires
        valid_request(request),
        spec_explicit_scheme(request.input) == Some(scheme),
        scheme != "http"@ && scheme != "https"@ && scheme != "file"@,
        spec_explicit_port(request.input) is Some,
        !foreign_path(request.input),
        cwd matches Some(dir) ==> usable_cwd(world, dir),
    ensures
        target_outcome(world, request, cwd) == web_outcome(request),
{
    lemma_scheme_shape(request.input, scheme);
}

/// A target that has the shape of a path is a path and never a web address: what is missing is an
/// error, and a regular file that is there is opened.
pub proof fn law_explicit_path_is_a_path(
    world: World,
    request: RequestView,
    cwd: Option<Seq<u8>>,
    path: Seq<u8>,
)
    requires
        valid_request(request),
        !blank(request.input),
        !foreign_path(request.input),
        spec_explicit_scheme(request.input) is None,
        spec_is_explicit_path(request.input),
        cwd matches Some(dir) ==> usable_cwd(world, dir),
        expanded_path(request.input, request.home) == Ok::<_, ErrorView>(path),
        absolute(path) || cwd is Some,
    ensures
        ({
            let file = plain_file(seen_from(path, cwd));
            let outcome = target_outcome(world, request, cwd);
            &&& !(world.exists)(file.path) ==> outcome == Err::<ResolvedView, _>(
                resource_error(
                    "local_resource_not_found"@,
                    "Local Resource does not exist: "@ + shown_path(file.path),
                    request.input,
                    file.path,
                ),
            )
            &&& forall|canonical: Seq<u8>, text: Seq<char>, url: Seq<char>| #[trigger]
                opens_file(world, file, canonical, text, url) ==> outcome == Ok::<_, ErrorView>(
                    ResolvedView { navigation_url: url, kind: TargetKind::LocalResource },
                )
        }),
{
}

/// Resolving a resolved web address changes nothing. For one that was given `http`, this takes
/// that a URL over `https` is one with the same host over `http`, which reading it shows.
pub proof fn law_resolved_web_address_is_kept(
    world: World,
    request: RequestView,
    cwd: Option<Seq<u8>>,
)
    requires
        valid_request(request),
        target_outcome(world, request, cwd) matches Ok(target) && target.kind == TargetKind::Web,
        target_outcome(world, request, cwd)->Ok_0.navigation_url == "http://"@ + request.input
            ==> keeps_host_over_http(
            "https://"@ + request.input,
            parsed_url("https://"@ + request.input),
        ),
    ensures
        ({
            let target = target_outcome(world, request, cwd)->Ok_0;
            target_outcome(
                world,
                RequestView { input: target.navigation_url, ..request },
                None,
            ) == Ok::<_, ErrorView>(target)
        }),
{
    let target = target_outcome(world, request, cwd)->Ok_0;
    let again = RequestView { input: target.navigation_url, ..request };
    lemma_explicit_is_settled(request.input);
    if target.navigation_url != request.input {
        lemma_implicit_is_settled(request.input);
    }
    assert(settled(target));
    assert(first_step(again, None) == StepView::Done(Ok(target)));
    law_resolution_comes_to_the_outcome(world, again, None);
    reveal_with_fuel(run, 2);
}

/// Two outcomes are the same target, or failures of the same code.
pub open spec fn same_outcome(a: OutcomeView, b: OutcomeView) -> bool {
    match (a, b) {
        (Ok(a), Ok(b)) => a == b,
        (Err(a), Err(b)) => a.code == b.code,
        _ => false,
    }
}

/// The host `localhost` in a `file` URL means no host: the URL leads where it does without that,
/// in any world. That it names the same file is what resolving it shows.
pub proof fn law_localhost_means_no_host(
    world: World,
    request: RequestView,
    cwd: Option<Seq<u8>>,
)
    requires
        valid_request(request),
        names_localhost(request.input),
        drops_localhost(request.input, request.host_os),
    ensures
        same_outcome(
            target_outcome(world, request, cwd),
            target_outcome(
                world,
                RequestView { input: without_localhost(request.input), ..request },
                cwd,
            ),
        ),
{
    let input = without_localhost(request.input);
    let rest = request.input.skip(16);
    reveal_strlit("file");
    reveal_strlit("http");
    reveal_strlit("https");
    reveal_strlit("file://");
    reveal_strlit("://");
    assert("file"@[0] != "http"@[0]);
    assert("file"@[0] != "https"@[0]);
    assert(input =~= "file"@ + ("://"@ + rest));
    lemma_scheme_in_front("file"@, "://"@ + rest);
    lemma_scheme_shape(input, "file"@);
    lemma_localhost_shape(request.input);
}

/// Without a working directory nothing is asked of the file system for a target that is neither
/// a path nor a `file` URL: the first step is the outcome.
pub proof fn law_web_target_asks_nothing(request: RequestView)
    requires
        valid_request(request),
        !spec_is_explicit_path(request.input),
        spec_explicit_scheme(request.input) != Some("file"@),
    ensures
        first_step(request, None) is Done,
{
}

} // verus!
