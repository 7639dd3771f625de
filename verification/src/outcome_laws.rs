//! Laws of where targets lead, said of how a target is written and what the file system answers.

use vstd::prelude::*;
use vstd::utf8::encode_utf8;

use crate::clean::proper_name;
use crate::open_target::{
    expanded_path, explicit_web_outcome, file_url_outcome, foreign_path, implicit_web_outcome,
    spec_explicit_port, spec_explicit_scheme, DetailView, ErrorView, FileUrlView, OutcomeView,
    ResolvedView, TargetKind, WebScheme,
};
use crate::path::{absolute, cleaned, joined_path, path_text, shown_path};
use crate::path_laws::law_joined_path;
use crate::resolution::{
    admits, next_step, path_step, question_of, resolvable, valid_request, AnswerView, FileType,
    QuestionView, RequestView, ResolutionView, StageView, StepView,
};
use crate::shape_laws::{
    law_explicit_path_by_its_beginning, law_file_url_names_its_file,
    law_foreign_path_by_its_beginning, law_home_by_its_beginning, law_scheme_before_the_first_colon,
    law_tilde_needs_home, law_tilde_stands_for_home,
};
use crate::target_laws::{answers, local_outcome, target_outcome, World};
use crate::text::{
    blank, equals, first_of, lemma_first_where_found, lower, starts_with, white_space,
};
use crate::urls::{
    encoded_fragment, encoded_query, file_url, fits_file_url, parsed_url, readable, text_room,
    with_tail, UrlPartsView,
};

verus! {

// ---- Local resources ----

/// The error for a local resource, with the target and the path.
pub open spec fn refused_resource(
    code: Seq<char>,
    message: Seq<char>,
    input: Seq<char>,
    path: Seq<u8>,
) -> OutcomeView {
    Err(
        ErrorView {
            code,
            message,
            details: seq![
                ("open_target"@, DetailView::Text(input)),
                ("resolved_path"@, DetailView::Path(path)),
            ],
        },
    )
}

/// The error for something that is no regular file.
pub open spec fn refused_file_type(
    input: Seq<char>,
    path: Seq<u8>,
    actual: Seq<char>,
) -> OutcomeView {
    Err(
        ErrorView {
            code: "local_resource_not_file"@,
            message: "Local Resource must be a regular file: "@ + shown_path(path),
            details: seq![
                ("open_target"@, DetailView::Text(input)),
                ("resolved_path"@, DetailView::Path(path)),
                ("actual_type"@, DetailView::Text(actual)),
            ],
        },
    )
}

/// The URL of a file with what goes behind it: the query behind `?` and the fragment behind `#`,
/// as far as there is one.
pub proof fn law_query_and_fragment_behind_the_url(url: Seq<char>, q: Seq<char>, f: Seq<char>)
    ensures
        with_tail(Some(url), None, None) == Some(url),
        with_tail(Some(url), Some(q), None) == Some(url + seq!['?'] + q),
        with_tail(Some(url), None, Some(f)) == Some(url + seq!['#'] + f),
        with_tail(Some(url), Some(q), Some(f)) == Some(url + seq!['?'] + q + seq!['#'] + f),
        with_tail(None, Some(q), Some(f)) is None,
{
    let none = Seq::<char>::empty();
    assert(url + (none + none) =~= url);
    assert(url + (seq!['?'] + q + none) =~= url + seq!['?'] + q);
    assert(url + (none + (seq!['#'] + f)) =~= url + seq!['#'] + f);
    assert(url + (seq!['?'] + q + (seq!['#'] + f)) =~= url + seq!['?'] + q + seq!['#'] + f);
}

/// What a local resource comes to, by each thing that the file system may answer. What is not
/// there, leads nowhere, has no text, cannot be looked at or is no regular file is refused; else
/// it is opened at the URL of where its links lead, with its query and its fragment.
pub proof fn law_local_resource(
    world: World,
    request: RequestView,
    file: FileUrlView,
    path: Seq<u8>,
    text: Seq<char>,
    error: Seq<char>,
)
    ensures
        !(world.exists)(file.path) ==> local_outcome(world, request, file) == refused_resource(
            "local_resource_not_found"@,
            "Local Resource does not exist: "@ + shown_path(file.path),
            request.input,
            file.path,
        ),
        (world.exists)(file.path) && (world.canonical)(file.path) == Err::<Seq<u8>, _>(error)
            ==> local_outcome(world, request, file) == refused_resource(
            "local_resource_not_found"@,
            "Could not resolve Local Resource "@ + shown_path(file.path) + ": "@ + error,
            request.input,
            file.path,
        ),
        (world.exists)(file.path) && (world.canonical)(file.path) == Ok::<_, Seq<char>>(path)
            && path_text(path) is None ==> local_outcome(world, request, file) == Err::<
            ResolvedView,
            _,
        >(
            ErrorView {
                code: "non_utf8_local_resource"@,
                message: "Local Resource path cannot be represented as UTF-8"@,
                details: seq![("open_target"@, DetailView::Text(request.input))],
            },
        ),
        (world.exists)(file.path) && (world.canonical)(file.path) == Ok::<_, Seq<char>>(path)
            && path_text(path) == Some(text) ==> {
            let outcome = local_outcome(world, request, file);
            &&& (world.file_type)(path) == Err::<FileType, _>(error) ==> outcome
                == refused_resource(
                "local_resource_not_found"@,
                "Could not inspect Local Resource "@ + shown_path(path) + ": "@ + error,
                request.input,
                path,
            )
            &&& (world.file_type)(path) == Ok::<_, Seq<char>>(FileType::Directory) ==> outcome
                == refused_file_type(request.input, path, "directory"@)
            &&& (world.file_type)(path) == Ok::<_, Seq<char>>(FileType::Other) ==> outcome
                == refused_file_type(request.input, path, "non_regular"@)
            &&& (world.file_type)(path) == Ok::<_, Seq<char>>(FileType::File) ==> (match with_tail(
                file_url(text),
                encoded_query(file.query),
                encoded_fragment(file.fragment),
            ) {
                Some(url) => outcome == Ok::<_, ErrorView>(
                    ResolvedView { navigation_url: url, kind: TargetKind::LocalResource },
                ),
                None => outcome == refused_resource(
                    "invalid_file_url"@,
                    "Could not convert Local Resource to a file URL"@,
                    request.input,
                    path,
                ),
            })
        },
{
}

// ---- Paths ----

/// A working directory, if there is one, is absolute and there.
pub open spec fn cwd_is_there(world: World, cwd: Option<Seq<u8>>) -> bool {
    cwd matches Some(dir) ==> dir.len() > 0 && dir[0] == 47 && (world.is_directory)(dir)
}

/// The local resource at a path, with nothing behind its URL.
pub open spec fn resource_at(path: Seq<u8>) -> FileUrlView {
    FileUrlView { path, query: None, fragment: None }
}

/// A target that begins with none of the letters has no scheme and is not blank, unless it begins
/// with white space.
proof fn lemma_no_scheme(input: Seq<char>)
    requires
        input.len() > 0,
        !('a' <= input[0] && input[0] <= 'z'),
        !('A' <= input[0] && input[0] <= 'Z'),
        !white_space(input[0]),
    ensures
        spec_explicit_scheme(input) is None,
        !blank(input),
{
}

/// A target that begins with a slash is looked for at that path, once it is clean, whatever the
/// working directory.
pub proof fn law_absolute_path_target(world: World, request: RequestView, cwd: Option<Seq<u8>>)
    requires
        valid_request(request),
        request.input.len() > 0,
        request.input[0] == '/',
        cwd_is_there(world, cwd),
    ensures
        target_outcome(world, request, cwd) == local_outcome(
            world,
            request,
            resource_at(cleaned(encode_utf8(request.input))),
        ),
{
    let input = request.input;
    law_explicit_path_by_its_beginning(input);
    law_foreign_path_by_its_beginning(input);
    law_home_by_its_beginning(input);
    lemma_no_scheme(input);
    lemma_first_byte(input);
    assert(absolute(encode_utf8(input)));
}

/// A target with an ASCII character before all has that as its first byte.
proof fn lemma_first_byte(input: Seq<char>)
    requires
        input.len() > 0,
        input[0] as u32 <= 127,
    ensures
        encode_utf8(input).len() > 0,
        encode_utf8(input)[0] as u32 == input[0] as u32,
{
    let c = input[0];
    let n = c as u32;
    assert(encode_utf8(input) == vstd::utf8::encode_scalar(n) + encode_utf8(input.drop_first()));
    assert((n & 0x7f) as u8 as u32 == n) by (bit_vector)
        requires
            n <= 127,
    ;
    assert(vstd::utf8::encode_scalar(n)[0] as u32 == n);
}

/// A target that begins with one or two dots and a slash is looked for from the working directory,
/// and without one is refused.
pub proof fn law_dotted_path_target(world: World, request: RequestView, cwd: Seq<u8>)
    requires
        valid_request(request),
        request.input.len() > 1,
        request.input[0] == '.',
        request.input[1] == '/' || request.input[1] == '.' && request.input.len() > 2
            && request.input[2] == '/',
    ensures
        target_outcome(world, request, None) == Err::<ResolvedView, _>(
            ErrorView {
                code: "missing_cwd"@,
                message: "A working directory is required for a relative Open Target"@,
                details: seq![("open_target"@, DetailView::Text(request.input))],
            },
        ),
        cwd_is_there(world, Some(cwd)) ==> target_outcome(world, request, Some(cwd))
            == local_outcome(
            world,
            request,
            resource_at(cleaned(joined_path(cwd, encode_utf8(request.input)))),
        ),
        cwd_is_there(world, Some(cwd)) && cwd.last() != 47 ==> joined_path(
            cwd,
            encode_utf8(request.input),
        ) == cwd + seq![47u8] + encode_utf8(request.input),
{
    let input = request.input;
    law_explicit_path_by_its_beginning(input);
    law_foreign_path_by_its_beginning(input);
    law_home_by_its_beginning(input);
    lemma_no_scheme(input);
    lemma_first_byte(input);
    law_joined_path(cwd, encode_utf8(input));
}

/// A tilde, and a tilde with a path behind it, are looked for in the home directory: behind a home
/// from the root, the whole of that path, as the target would be with the home written out.
pub proof fn law_home_target(
    world: World,
    request: RequestView,
    cwd: Option<Seq<u8>>,
    home: Seq<u8>,
    rest: Seq<char>,
)
    requires
        valid_request(request),
        cwd_is_there(world, cwd),
        request.home == Some(home),
        home.len() > 0,
        home[0] == 47,
    ensures
        request.input == seq!['~'] ==> target_outcome(world, request, cwd) == local_outcome(
            world,
            request,
            resource_at(cleaned(home)),
        ),
        request.input == seq!['~', '/'] + rest && !(rest.len() > 0 && rest[0] == '/') ==> {
            &&& home.last() != 47 ==> target_outcome(world, request, cwd) == local_outcome(
                world,
                request,
                resource_at(cleaned(home + seq![47u8] + encode_utf8(rest))),
            )
            &&& home.last() == 47 ==> target_outcome(world, request, cwd) == local_outcome(
                world,
                request,
                resource_at(cleaned(home + encode_utf8(rest))),
            )
        },
        request.input == seq!['~', '/'] + rest && rest.len() > 0 && rest[0] == '/'
            ==> target_outcome(world, request, cwd) == local_outcome(
            world,
            request,
            resource_at(cleaned(encode_utf8(rest))),
        ),
{
    let input = request.input;
    if input == seq!['~'] || input == seq!['~', '/'] + rest {
        law_explicit_path_by_its_beginning(input);
        law_foreign_path_by_its_beginning(input);
        lemma_no_scheme(input);
        law_tilde_stands_for_home(home, rest, rest);
        let tail = encode_utf8(rest);
        if rest.len() > 0 {
            lemma_first_byte_tells(rest);
        }
        law_joined_path(home, tail);
        assert(home.last() == 47 ==> joined_path(home, tail) == if absolute(tail) {
            tail
        } else {
            home + tail
        });
        if !absolute(tail) {
            assert(joined_path(home, tail)[0] == home[0]);
        }
    }
}

/// The first byte of a text is a slash just where its first character is one.
proof fn lemma_first_byte_tells(s: Seq<char>)
    requires
        s.len() > 0,
    ensures
        absolute(encode_utf8(s)) == (s[0] == '/'),
{
    vstd::utf8::char_is_scalar(s[0]);
    vstd::utf8::char_u32_cast(s[0], s[0] as u32);
    if s[0] as u32 <= 127 {
        lemma_first_byte(s);
        assert(encode_utf8(s)[0] == 47 ==> s[0] as u32 == 47);
    } else {
        vstd::utf8::encode_utf8_first_scalar(s);
        let bytes = encode_utf8(s);
        let n = s[0] as u32;
        assert(bytes == vstd::utf8::encode_scalar(n) + encode_utf8(s.drop_first()));
        if bytes[0] == 47 {
            assert(vstd::utf8::decode_first_scalar(bytes) == n);
            assert(47u8 & 0x7f == 47u8) by (bit_vector);
            assert(vstd::utf8::decode_first_scalar(bytes) <= 127);
        }
    }
}

/// A tilde is refused where the home directory is not known.
pub proof fn law_home_target_needs_home(world: World, request: RequestView, cwd: Option<Seq<u8>>)
    requires
        valid_request(request),
        cwd_is_there(world, cwd),
        request.home is None,
        request.input.len() > 0,
        request.input[0] == '~',
        request.input.len() == 1 || request.input[1] == '/',
    ensures
        target_outcome(world, request, cwd) == Err::<ResolvedView, _>(
            ErrorView {
                code: "home_directory_unavailable"@,
                message: "Could not determine the current user's home directory"@,
                details: seq![("open_target"@, DetailView::Text(request.input))],
            },
        ),
{
    law_explicit_path_by_its_beginning(request.input);
    law_foreign_path_by_its_beginning(request.input);
    lemma_no_scheme(request.input);
    law_tilde_needs_home(request.input);
}

// ---- Bare names ----

/// A target that begins like no path, and has no scheme, is a web address, unless something of
/// that name is in the working directory: that is opened then. How it goes on and how it ends has
/// no part in it.
pub proof fn law_bare_target(world: World, request: RequestView, cwd: Seq<u8>)
    requires
        valid_request(request),
        !blank(request.input),
        request.input[0] != '/' && request.input[0] != '.' && request.input[0] != '~',
        !(request.input.len() > 1 && request.input[0] == '\\' && request.input[1] == '\\'),
        spec_explicit_scheme(request.input) is None,
        cwd_is_there(world, Some(cwd)),
    ensures
        target_outcome(world, request, None) == implicit_web_outcome(
            request.input,
            parsed_url("https://"@ + request.input),
        ),
        !(world.exists)(joined_path(cwd, encode_utf8(request.input))) ==> target_outcome(
            world,
            request,
            Some(cwd),
        ) == implicit_web_outcome(request.input, parsed_url("https://"@ + request.input)),
        (world.exists)(joined_path(cwd, encode_utf8(request.input))) ==> target_outcome(
            world,
            request,
            Some(cwd),
        ) == local_outcome(
            world,
            request,
            resource_at(cleaned(joined_path(cwd, encode_utf8(request.input)))),
        ),
{
    let input = request.input;
    assert(input.len() > 0);
    law_explicit_path_by_its_beginning(input);
    law_home_by_its_beginning(input);
    law_foreign_path_by_its_beginning(input);
    if foreign_path(input) {
        lemma_drive_is_a_scheme(input);
    }
    lemma_first_byte_tells(input);
}

/// A drive is written like a scheme.
proof fn lemma_drive_is_a_scheme(input: Seq<char>)
    requires
        input.len() > 2,
        'a' <= input[0] && input[0] <= 'z' || 'A' <= input[0] && input[0] <= 'Z',
        input[1] == ':',
    ensures
        spec_explicit_scheme(input) is Some,
{
    let name = seq![input[0]];
    assert(!name.contains(':'));
    law_scheme_before_the_first_colon(name, input.skip(2));
    assert(name + seq![':'] + input.skip(2) =~= input);
}

/// The same of a target that begins with dots or a tilde and is no explicit path by that.
pub proof fn law_bare_target_with_dots(world: World, request: RequestView, cwd: Seq<u8>)
    requires
        valid_request(request),
        request.input.len() > 0,
        request.input[0] == '.' || request.input[0] == '~',
        request.input[0] == '~' ==> request.input.len() > 1 && request.input[1] != '/'
            && request.input[1] != '\\',
        request.input[0] == '.' && request.input.len() > 1 ==> request.input[1] != '/'
            && request.input[1] != '\\' && (request.input[1] == '.' && request.input.len() > 2
            ==> request.input[2] != '/' && request.input[2] != '\\'),
        cwd_is_there(world, Some(cwd)),
    ensures
        target_outcome(world, request, None) == implicit_web_outcome(
            request.input,
            parsed_url("https://"@ + request.input),
        ),
        !(world.exists)(joined_path(cwd, encode_utf8(request.input))) ==> target_outcome(
            world,
            request,
            Some(cwd),
        ) == implicit_web_outcome(request.input, parsed_url("https://"@ + request.input)),
        (world.exists)(joined_path(cwd, encode_utf8(request.input))) ==> target_outcome(
            world,
            request,
            Some(cwd),
        ) == local_outcome(
            world,
            request,
            resource_at(cleaned(joined_path(cwd, encode_utf8(request.input)))),
        ),
{
    let input = request.input;
    law_explicit_path_by_its_beginning(input);
    law_home_by_its_beginning(input);
    law_foreign_path_by_its_beginning(input);
    lemma_no_scheme(input);
    lemma_first_byte(input);
}

// ---- Schemes ----

/// A target that names a scheme is read by it, whatever is in the working directory: over `http`
/// and `https` as the URL that it is, with `file` as a file, with another before a port as a host;
/// else it is refused.
pub proof fn law_target_with_a_scheme(
    world: World,
    request: RequestView,
    cwd: Option<Seq<u8>>,
    scheme: Seq<char>,
)
    requires
        valid_request(request),
        cwd_is_there(world, cwd),
        spec_explicit_scheme(request.input) == Some(scheme),
        !(scheme.len() == 1 && request.input.len() > 2 && (request.input[2] == '/'
            || request.input[2] == '\\')),
    ensures
        scheme == "http"@ ==> target_outcome(world, request, cwd) == explicit_web_outcome(
            request.input,
            WebScheme::Http,
            parsed_url(request.input),
        ),
        scheme == "https"@ ==> target_outcome(world, request, cwd) == explicit_web_outcome(
            request.input,
            WebScheme::Https,
            parsed_url(request.input),
        ),
        scheme == "file"@ ==> (match file_url_outcome(request.input, request.host_os) {
            Ok(file) => target_outcome(world, request, cwd) == local_outcome(world, request, file),
            Err(error) => target_outcome(world, request, cwd) == Err::<ResolvedView, _>(error),
        }),
        scheme != "http"@ && scheme != "https"@ && scheme != "file"@ ==> (if spec_explicit_port(
            request.input,
        ) is Some {
            target_outcome(world, request, cwd) == implicit_web_outcome(
                request.input,
                parsed_url("https://"@ + request.input),
            )
        } else {
            target_outcome(world, request, cwd) == Err::<ResolvedView, _>(
                ErrorView {
                    code: "unsupported_scheme"@,
                    message: "Unsupported Open Target scheme: "@ + scheme,
                    details: seq![
                        ("scheme"@, DetailView::Text(scheme)),
                        ("supported_schemes"@, DetailView::List(seq!["http"@, "https"@, "file"@])),
                    ],
                },
            )
        }),
{
    let input = request.input;
    reveal_strlit("http");
    reveal_strlit("https");
    reveal_strlit("file");
    assert("file"@[0] != "http"@[0]);
    assert("file"@[0] != "https"@[0]);
    assert("http"@.len() != "https"@.len());
    lemma_first_where_found(input, equals(':'), 0);
    assert(scheme.len() == first_of(input, ':'));
    law_foreign_path_by_its_beginning(input);
    assert(!white_space(input[0]));
    if scheme.len() > 1 {
        assert(!equals(':')(input[1]));
    }
}

/// A `file` URL without credentials, a port or a host that maps to a path from the root leads to
/// the file there, with its query and its fragment behind the URL, whichever of the two it has:
/// where it is there and leads to a regular file whose path is text from the root, it is opened.
pub proof fn law_file_url_target(
    world: World,
    request: RequestView,
    cwd: Option<Seq<u8>>,
    parts: UrlPartsView,
    path: Seq<u8>,
    canonical: Seq<u8>,
    text: Seq<char>,
    url: Seq<char>,
)
    requires
        valid_request(request),
        cwd_is_there(world, cwd),
        starts_with(lower(request.input), "file://"@),
        parsed_url(request.input) == Ok::<_, Seq<char>>(parts),
        parts.username.len() == 0,
        parts.password is None,
        parts.port is None,
        parts.host_text matches Some(host) ==> host.len() == 0,
        crate::urls::file_url_path(request.input) == Some(path),
        path.len() > 0,
        path[0] == 47,
        (world.exists)(path),
        (world.canonical)(path) == Ok::<_, Seq<char>>(canonical),
        path_text(canonical) == Some(text),
        (world.file_type)(canonical) == Ok::<_, Seq<char>>(FileType::File),
        file_url(text) == Some(url),
    ensures
        ({
            let query = encoded_query(parts.query);
            let fragment = encoded_fragment(parts.fragment);
            let behind_query = match query {
                Some(q) => url + seq!['?'] + q,
                None => url,
            };
            target_outcome(world, request, cwd) == Ok::<_, ErrorView>(
                ResolvedView {
                    navigation_url: match fragment {
                        Some(f) => behind_query + seq!['#'] + f,
                        None => behind_query,
                    },
                    kind: TargetKind::LocalResource,
                },
            )
        }),
{
    let input = request.input;
    let q = encoded_query(parts.query);
    let f = encoded_fragment(parts.fragment);
    lemma_file_scheme(input);
    reveal_strlit("file");
    assert("file"@.len() == 4);
    law_target_with_a_scheme(world, request, cwd, "file"@);
    law_file_url_names_its_file(input, request.host_os, parts, path, Seq::empty());
    law_local_resource(
        world,
        request,
        FileUrlView { path, query: parts.query, fragment: parts.fragment },
        canonical,
        text,
        Seq::empty(),
    );
    law_query_and_fragment_behind_the_url(
        url,
        match q {
            Some(q) => q,
            None => Seq::empty(),
        },
        match f {
            Some(f) => f,
            None => Seq::empty(),
        },
    );
}

/// What begins with `file://`, in any case, names the scheme `file`.
proof fn lemma_file_scheme(input: Seq<char>)
    requires
        starts_with(lower(input), "file://"@),
    ensures
        spec_explicit_scheme(input) == Some("file"@),
{
    reveal_strlit("file://");
    reveal_strlit("file");
    let low = lower(input);
    let front = "file://"@;
    let name = input.take(4);
    assert forall|i: int| 0 <= i < 7 implies low[i] == front[i] by {
        assert(low.take(7)[i] == front[i]);
    }
    assert forall|i: int| 0 <= i < 7 implies low[i] == crate::text::lower_char(
        #[trigger] input[i],
    ) by {}
    assert(input[0] == 'f' || input[0] == 'F');
    assert(input[1] == 'i' || input[1] == 'I');
    assert(input[2] == 'l' || input[2] == 'L');
    assert(input[3] == 'e' || input[3] == 'E');
    assert(input[4] == ':');
    assert(!name.contains(':'));
    law_scheme_before_the_first_colon(name, input.skip(5));
    assert(name + seq![':'] + input.skip(5) =~= input);
    assert(lower(name) =~= "file"@);
}

// ---- What is refused ----

/// A request is valid on any platform but Windows, whatever it asks for.
pub proof fn law_any_request_is_valid(request: RequestView)
    ensures
        valid_request(request) == (request.host_os != "windows"@),
{
}

/// What a target is refused for before anything else: that it is blank, that its working directory
/// is not absolute or not there, and that it is a path of another platform; each with its error.
pub proof fn law_refused_targets(world: World, request: RequestView, cwd: Option<Seq<u8>>)
    requires
        valid_request(request),
    ensures
        blank(request.input) ==> target_outcome(world, request, cwd) == Err::<ResolvedView, _>(
            ErrorView {
                code: "invalid_open_target"@,
                message: "Open Target must not be empty"@,
                details: seq![("open_target"@, DetailView::Text(request.input))],
            },
        ),
        !blank(request.input) ==> (cwd matches Some(dir) ==> (!cwd_is_there(world, cwd)
            ==> target_outcome(world, request, cwd) == Err::<ResolvedView, _>(
            ErrorView {
                code: "invalid_cwd"@,
                message: "cwd must be an absolute existing directory"@,
                details: seq![
                    ("open_target"@, DetailView::Text(request.input)),
                    ("cwd"@, DetailView::Path(dir)),
                ],
            },
        ))),
        !blank(request.input) && cwd_is_there(world, cwd) && foreign_path(request.input)
            ==> target_outcome(world, request, cwd) == Err::<ResolvedView, _>(
            ErrorView {
                code: "foreign_platform_path"@,
                message: "The Open Target looks like a "@ + "windows"@
                    + " path, but the CLI is running on "@ + request.host_os,
                details: seq![
                    ("open_target"@, DetailView::Text(request.input)),
                    ("host_platform"@, DetailView::Text(request.host_os)),
                    ("detected_platform"@, DetailView::Text("windows"@)),
                ],
            },
        ),
{
}

// ---- Steps ----

/// What is asked at each stage: whether the working directory is there, whether the target is in
/// it, and of a local resource whether it is there, where it leads and what it is.
pub proof fn law_questions(request: RequestView, cwd: Seq<u8>, path: Seq<u8>, file: FileUrlView)
    ensures
        question_of(ResolutionView { request, stage: StageView::CheckingCwd { cwd } })
            == QuestionView::IsDirectory(cwd),
        question_of(ResolutionView { request, stage: StageView::LookingInCwd { cwd } })
            == QuestionView::Exists(joined_path(cwd, encode_utf8(request.input))),
        question_of(ResolutionView { request, stage: StageView::RecheckingCwd { cwd, path } })
            == QuestionView::IsDirectory(cwd),
        question_of(ResolutionView { request, stage: StageView::Finding { file } })
            == QuestionView::Exists(file.path),
        question_of(ResolutionView { request, stage: StageView::Canonicalizing { file } })
            == QuestionView::Canonicalize(file.path),
        forall|text: Seq<char>|
            question_of(
                #[trigger] inspecting(request, file, text),
            ) == QuestionView::FileType(file.path),
{
}

/// The last stage of a local resource.
pub open spec fn inspecting(
    request: RequestView,
    file: FileUrlView,
    text: Seq<char>,
) -> ResolutionView {
    ResolutionView { request, stage: StageView::Inspecting { file, text } }
}

/// An answer to some other question than the one that was asked changes nothing.
pub proof fn law_other_answers_change_nothing(resolution: ResolutionView, answer: AnswerView)
    requires
        !answers(answer, question_of(resolution)),
    ensures
        next_step(resolution, answer) == StepView::Ask(resolution),
{
}

/// The working directory is asked for again before a path is taken from it: where it is gone the
/// target is refused, and where it is there still the path is looked for from it.
pub proof fn law_working_directory_may_be_gone(
    request: RequestView,
    cwd: Seq<u8>,
    path: Seq<u8>,
)
    ensures
        ({
            let resolution = ResolutionView {
                request,
                stage: StageView::RecheckingCwd { cwd, path },
            };
            &&& next_step(resolution, AnswerView::IsDirectory(false)) == refused_cwd(request, cwd)
            &&& next_step(resolution, AnswerView::IsDirectory(true)) == StepView::Ask(
                ResolutionView {
                    request,
                    stage: StageView::Finding {
                        file: resource_at(cleaned(joined_path(cwd, path))),
                    },
                },
            )
        }),
{
}

/// The end for a working directory that cannot be used.
pub open spec fn refused_cwd(request: RequestView, cwd: Seq<u8>) -> StepView {
    StepView::Done(
        Err(
            ErrorView {
                code: "invalid_cwd"@,
                message: "cwd must be an absolute existing directory"@,
                details: seq![
                    ("open_target"@, DetailView::Text(request.input)),
                    ("cwd"@, DetailView::Path(cwd)),
                ],
            },
        ),
    )
}

/// A target that is taken for a path is looked for at that where it is absolute; else it needs a
/// working directory, which has to be absolute and is asked for.
pub proof fn law_target_taken_for_a_path(request: RequestView, cwd: Seq<u8>, path: Seq<u8>)
    requires
        expanded_path(request.input, request.home) == Ok::<_, ErrorView>(path),
    ensures
        path.len() > 0 && path[0] == 47 ==> (forall|any: Option<Seq<u8>>| #[trigger]
            path_step(request, any) == StepView::Ask(
                ResolutionView {
                    request,
                    stage: StageView::Finding { file: resource_at(cleaned(path)) },
                },
            )),
        !(path.len() > 0 && path[0] == 47) ==> {
            &&& path_step(request, None) == StepView::Done(
                Err(
                    ErrorView {
                        code: "missing_cwd"@,
                        message: "A working directory is required for a relative Open Target"@,
                        details: seq![("open_target"@, DetailView::Text(request.input))],
                    },
                ),
            )
            &&& !(cwd.len() > 0 && cwd[0] == 47) ==> path_step(request, Some(cwd)) == refused_cwd(
                request,
                cwd,
            )
            &&& cwd.len() > 0 && cwd[0] == 47 ==> path_step(request, Some(cwd)) == StepView::Ask(
                ResolutionView { request, stage: StageView::RecheckingCwd { cwd, path } },
            )
        },
{
}

// ---- What can be resolved ----

/// A target of no more than twenty million characters can be resolved, and any answer about it can
/// be taken where the path of what was found is no longer than that.
pub proof fn law_ordinary_targets_can_be_resolved(
    resolution: ResolutionView,
    answer: AnswerView,
)
    requires
        resolution.request.input.len() <= 20_000_000,
        resolution.stage matches StageView::Inspecting { file, text } ==> text.len() <= 20_000_000
            && (file.query matches Some(q) ==> q.len() <= 20_000_000),
    ensures
        resolvable(resolution.request.input),
        admits(resolution, answer),
{
    if let StageView::Inspecting { file, text } = resolution.stage {
        lemma_room(text, true);
        if let Some(q) = file.query {
            lemma_room(q, false);
        }
    }
}

/// What is too long for the positions in a URL is told apart: a target that is no path and has more
/// than twenty million characters, and a path, or a path and a query, of 2^32 characters or more
/// before what follows it.
pub proof fn law_too_long_for_a_url(
    input: Seq<char>,
    path: Seq<char>,
    query: Seq<char>,
    fragment: Option<Seq<char>>,
)
    ensures
        readable(input) == (input.len() <= 20_000_000),
        path.len() >= 0x1_0000_0000 ==> !fits_file_url(path, Some(query), fragment),
        path.len() + query.len() >= 0x1_0000_0000 && fragment is Some ==> !fits_file_url(
            path,
            Some(query),
            fragment,
        ),
        fits_file_url(path, None, None),
{
    lemma_room(path, true);
    lemma_room(query, false);
}

/// A character takes at least one byte and at most twelve.
proof fn lemma_room(s: Seq<char>, in_path: bool)
    ensures
        s.len() <= text_room(s, in_path) <= 12 * s.len(),
    decreases s.len(),
{
    if s.len() > 0 {
        lemma_room(s.drop_last(), in_path);
    }
}

} // verus!
