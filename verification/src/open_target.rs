//! Open Targets: the text a user gives to say what to open, and how its shape is read.

use vstd::prelude::*;
use vstd::utf8::encode_utf8;

use crate::path::{absolute, joined_path, LocalPath};
use crate::text::{
    ascii_digit, ascii_letter, blank, chars_of, equals, find_first, find_last, first_of,
    first_where, has_prefix, is_text, joined, joined3, last_of, lemma_first_where,
    lemma_first_where_found, lower, lower_char, parse_u16, spec_parse_u16, starts_with, text_of,
    to_lower,
};
use crate::urls::{
    file_scheme, file_url_path, host_defaults_to_http, keeps_host_over_http, names_localhost,
    option_path, option_text, parse_url, parsed_url, parsed_view, plain_tail, readable,
    spec_host_defaults_to_http, to_file_path, url_without_host, without_host, without_localhost,
    UrlParts, UrlPartsView,
};

verus! {

// ---- Results ----

/// What kind of resource a target names.
#[derive(Debug, Clone, Copy, PartialEq, Eq, Structural)]
pub enum TargetKind {
    Web,
    LocalResource,
}

/// Where a target leads.
#[derive(Debug, Clone)]
pub struct ResolvedOpenTarget {
    pub navigation_url: String,
    pub kind: TargetKind,
}

/// A value among the details of an error.
#[derive(Debug, Clone)]
pub enum DetailValue {
    Text(String),
    Path(LocalPath),
    List(Vec<&'static str>),
}

/// One detail of an error, under its key.
#[derive(Debug, Clone)]
pub struct Detail {
    pub key: &'static str,
    pub value: DetailValue,
}

/// Why a target could not be resolved.
#[derive(Debug, Clone)]
pub struct OpenTargetError {
    pub code: &'static str,
    pub message: String,
    pub details: Vec<Detail>,
}

/// The model of a resolved target.
pub struct ResolvedView {
    pub navigation_url: Seq<char>,
    pub kind: TargetKind,
}

/// The model of a detail's value.
pub enum DetailView {
    Text(Seq<char>),
    Path(Seq<u8>),
    List(Seq<Seq<char>>),
}

/// The model of an error.
pub struct ErrorView {
    pub code: Seq<char>,
    pub message: Seq<char>,
    pub details: Seq<(Seq<char>, DetailView)>,
}

/// The model of what came of resolving a target.
pub type OutcomeView = Result<ResolvedView, ErrorView>;

impl View for ResolvedOpenTarget {
    type V = ResolvedView;

    open spec fn view(&self) -> ResolvedView {
        ResolvedView { navigation_url: self.navigation_url@, kind: self.kind }
    }
}

impl View for DetailValue {
    type V = DetailView;

    open spec fn view(&self) -> DetailView {
        match *self {
            DetailValue::Text(s) => DetailView::Text(s@),
            DetailValue::Path(path) => DetailView::Path(path@),
            DetailValue::List(items) => DetailView::List(items@.map_values(|s: &'static str| s@)),
        }
    }
}

impl View for Detail {
    type V = (Seq<char>, DetailView);

    open spec fn view(&self) -> (Seq<char>, DetailView) {
        (self.key@, self.value@)
    }
}

impl View for OpenTargetError {
    type V = ErrorView;

    open spec fn view(&self) -> ErrorView {
        ErrorView {
            code: self.code@,
            message: self.message@,
            details: self.details@.map_values(|d: Detail| d@),
        }
    }
}

/// The model of what came of resolving a target.
pub open spec fn outcome_view(r: Result<ResolvedOpenTarget, OpenTargetError>) -> OutcomeView {
    match r {
        Ok(target) => Ok(target@),
        Err(error) => Err(error@),
    }
}

impl Detail {
    pub(crate) fn text(key: &'static str, s: &str) -> (r: Detail)
        ensures
            r@ == (key@, DetailView::Text(s@)),
    {
        Detail { key, value: DetailValue::Text(s.to_owned()) }
    }

    pub(crate) fn path(key: &'static str, path: &LocalPath) -> (r: Detail)
        ensures
            r@ == (key@, DetailView::Path(path@)),
    {
        Detail { key, value: DetailValue::Path(path.copy()) }
    }
}

impl OpenTargetError {
    /// An error about `input`, which is its one detail.
    pub(crate) fn about(code: &'static str, message: String, input: &str) -> (r: OpenTargetError)
        ensures
            r@ == error_about(code@, message@, input@),
    {
        let details = vec![Detail::text("open_target", input)];
        let error = OpenTargetError { code, message, details };
        assert(error@.details =~= seq![("open_target"@, DetailView::Text(input@))]);
        error
    }

    /// An error about `input` with one more detail.
    pub(crate) fn with(
        code: &'static str,
        message: String,
        input: &str,
        detail: Detail,
    ) -> (r: OpenTargetError)
        ensures
            r@ == error_with(code@, message@, input@, detail@),
    {
        let details = vec![Detail::text("open_target", input), detail];
        let error = OpenTargetError { code, message, details };
        assert(error@.details =~= seq![("open_target"@, DetailView::Text(input@)), detail@]);
        error
    }

    /// An error about `input` with two more details.
    pub(crate) fn with_two(
        code: &'static str,
        message: String,
        input: &str,
        first: Detail,
        second: Detail,
    ) -> (r: OpenTargetError)
        ensures
            r@ == error_with_two(code@, message@, input@, first@, second@),
    {
        let details = vec![Detail::text("open_target", input), first, second];
        let error = OpenTargetError { code, message, details };
        assert(error@.details =~= seq![
            ("open_target"@, DetailView::Text(input@)),
            first@,
            second@,
        ]);
        error
    }

    /// The error as it is shown to a reader: its message.
    pub fn to_text(&self) -> (r: String)
        ensures
            r@ == self.message@,
    {
        self.message.clone()
    }
}

/// An error with the input as its one detail.
pub open spec fn error_about(code: Seq<char>, message: Seq<char>, input: Seq<char>) -> ErrorView {
    ErrorView { code, message, details: seq![("open_target"@, DetailView::Text(input))] }
}

/// An error with the input and one more detail.
pub open spec fn error_with(
    code: Seq<char>,
    message: Seq<char>,
    input: Seq<char>,
    detail: (Seq<char>, DetailView),
) -> ErrorView {
    ErrorView { code, message, details: seq![("open_target"@, DetailView::Text(input)), detail] }
}

/// An error with the input and two more details.
pub open spec fn error_with_two(
    code: Seq<char>,
    message: Seq<char>,
    input: Seq<char>,
    first: (Seq<char>, DetailView),
    second: (Seq<char>, DetailView),
) -> ErrorView {
    ErrorView {
        code,
        message,
        details: seq![("open_target"@, DetailView::Text(input)), first, second],
    }
}

// ---- The host ----

/// The platform has the paths that this library reads: it is not Windows.
pub open spec fn known_host(name: Seq<char>) -> bool {
    name != "windows"@
}

/// The name of the platform that this runs on, which is not Windows: what is a path, what is a
/// path of another platform and what a `file` URL may name is all different there.
#[derive(Debug)]
pub struct HostOs {
    name: String,
}

impl View for HostOs {
    type V = Seq<char>;

    closed spec fn view(&self) -> Seq<char> {
        self.name@
    }
}

impl HostOs {
    #[verifier::type_invariant]
    spec fn not_windows(&self) -> bool {
        known_host(self.name@)
    }

    /// The platform of that name, where it is not Windows.
    pub fn new(name: &str) -> (r: Option<HostOs>)
        ensures
            r is Some == known_host(name@),
            r matches Some(host_os) ==> host_os@ == name@,
    {
        if is_text(&chars_of(name), "windows") {
            None
        } else {
            Some(HostOs { name: name.to_owned() })
        }
    }

    /// The name of the platform.
    pub fn name(&self) -> (r: &str)
        ensures
            r@ == self@,
            known_host(r@),
    {
        proof {
            use_type_invariant(self);
        }
        self.name.as_str()
    }
}

// ---- The shape of a target ----

/// A character of a URL scheme behind the first.
pub open spec fn scheme_char(c: char) -> bool {
    ascii_letter(c) || ascii_digit(c) || c == '+' || c == '-' || c == '.'
}

/// The scheme that the target names before its first colon, in lower case: a letter, and behind
/// it letters, digits, `+`, `-` and `.`.
pub open spec fn spec_explicit_scheme(input: Seq<char>) -> Option<Seq<char>> {
    let n = first_of(input, ':');
    if 0 < n < input.len() && ascii_letter(input[0]) && (forall|i: int|
        0 < i < n ==> scheme_char(#[trigger] input[i])) {
        Some(lower(input.take(n)))
    } else {
        None
    }
}

/// Ending the authority of a web address.
pub open spec fn authority_end() -> spec_fn(char) -> bool {
    |c: char| c == '/' || c == '?' || c == '#'
}

/// The authority of a web address: what stands before its path, query or fragment.
pub open spec fn authority(input: Seq<char>) -> Seq<char> {
    input.take(first_where(input, authority_end(), 0))
}

/// The port that the target names: behind the bracketed host, where it begins with one, else
/// behind the last colon of the authority and a host that is not empty.
pub open spec fn spec_explicit_port(input: Seq<char>) -> Option<u16> {
    let a = authority(input);
    if a.len() > 0 && a[0] == '[' {
        let end = first_of(a, ']');
        if end + 1 < a.len() && a[end + 1] == ':' {
            spec_parse_u16(a.skip(end + 2))
        } else {
            None
        }
    } else {
        let colon = last_of(a, ':');
        if colon > 0 {
            spec_parse_u16(a.skip(colon + 1))
        } else {
            None
        }
    }
}

/// The target names the home directory or something in it.
pub open spec fn names_home(input: Seq<char>) -> bool {
    input == "~"@ || starts_with(input, "~/"@)
}

/// The target can be nothing but a path.
pub open spec fn spec_is_explicit_path(input: Seq<char>) -> bool {
    ||| names_home(input)
    ||| starts_with(input, "./"@)
    ||| starts_with(input, "../"@)
    ||| starts_with(input, ".\\"@)
    ||| starts_with(input, "..\\"@)
    ||| starts_with(input, "/"@)
}

/// The target is a path as another platform writes it: behind a drive letter, on a server, or
/// with a backslash behind the dots or the tilde that it begins with.
pub open spec fn foreign_path(input: Seq<char>) -> bool {
    ||| input.len() >= 3 && ascii_letter(input[0]) && input[1] == ':' && (input[2] == '\\'
        || input[2] == '/')
    ||| starts_with(input, "\\\\"@)
    ||| starts_with(input, ".\\"@)
    ||| starts_with(input, "..\\"@)
    ||| starts_with(input, "~\\"@)
}

/// A target with a scheme is not blank, and with a scheme of more than one letter it is no path
/// as another platform writes it.
pub proof fn lemma_scheme_shape(input: Seq<char>, scheme: Seq<char>)
    requires
        spec_explicit_scheme(input) == Some(scheme),
    ensures
        !blank(input),
        scheme.len() > 1 ==> !foreign_path(input),
{
    reveal_strlit("\\\\");
    reveal_strlit(".\\");
    reveal_strlit("..\\");
    reveal_strlit("~\\");
    lemma_first_where_found(input, equals(':'), 0);
    assert(scheme.len() == first_of(input, ':'));
    assert(ascii_letter(input[0]));
    if scheme.len() > 1 {
        assert(!equals(':')(input[1]));
    }
    if starts_with(input, "\\\\"@) {
        assert(input.take(2)[0] == '\\');
    }
    if starts_with(input, ".\\"@) {
        assert(input.take(2)[0] == '.');
    }
    if starts_with(input, "..\\"@) {
        assert(input.take(3)[0] == '.');
    }
    if starts_with(input, "~\\"@) {
        assert(input.take(2)[0] == '~');
    }
}

/// A name of lower case letters and `:` before a text are the scheme of it.
pub proof fn lemma_scheme_in_front(name: Seq<char>, rest: Seq<char>)
    requires
        name.len() > 0,
        forall|i: int| 0 <= i < name.len() ==> 'a' <= #[trigger] name[i] && name[i] <= 'z',
        rest.len() > 0,
        rest[0] == ':',
    ensures
        spec_explicit_scheme(name + rest) == Some(name),
{
    let input = name + rest;
    assert forall|i: int| 0 <= i < name.len() implies !equals(':')(#[trigger] input[i]) by {
        assert(input[i] == name[i]);
    }
    lemma_first_where(input, equals(':'), 0, name.len() as int);
    assert(input.take(name.len() as int) =~= name);
    assert forall|i: int| 0 < i < name.len() implies scheme_char(#[trigger] input[i]) by {
        assert(input[i] == name[i]);
    }
    assert(input[0] == name[0]);
    assert(lower(name) =~= name);
}

/// The scheme that the target names before its first colon, in lower case.
pub fn explicit_scheme(input: &str) -> (r: Option<String>)
    ensures
        option_text(r) == spec_explicit_scheme(input@),
{
    let chars = chars_of(input);
    let n: usize = find_first(&chars, ':');
    if n == 0 || n == chars.len() || !is_ascii_letter(chars[0]) {
        return None;
    }
    let mut i: usize = 1;
    while i < n
        invariant
            1 <= i <= n < chars@.len(),
            chars@ == input@,
            n == first_of(input@, ':'),
            forall|j: int| 0 < j < i ==> scheme_char(#[trigger] chars@[j]),
        decreases n - i,
    {
        let c = chars[i];
        if !(is_ascii_letter(c) || ('0' <= c && c <= '9') || c == '+' || c == '-' || c == '.') {
            assert(!scheme_char(input@[i as int]));
            return None;
        }
        i += 1;
    }
    let all = to_lower(&chars);
    let scheme = text_of(&all, 0, n);
    assert(scheme@ =~= lower(input@.take(n as int)));
    Some(scheme)
}

fn is_ascii_letter(c: char) -> (r: bool)
    ensures
        r == ascii_letter(c),
{
    ('a' <= c && c <= 'z') || ('A' <= c && c <= 'Z')
}

/// The characters of the authority of a web address.
fn authority_of(input: &str) -> (r: Vec<char>)
    ensures
        r@ == authority(input@),
{
    let chars = chars_of(input);
    let mut r: Vec<char> = Vec::new();
    let mut i: usize = 0;
    while i < chars.len() && chars[i] != '/' && chars[i] != '?' && chars[i] != '#'
        invariant
            i <= chars@.len(),
            r@ == chars@.take(i as int),
            forall|j: int| 0 <= j < i ==> !authority_end()(#[trigger] chars@[j]),
        decreases chars@.len() - i,
    {
        r.push(chars[i]);
        i += 1;
        assert(r@ =~= chars@.take(i as int));
    }
    proof {
        lemma_first_where(chars@, authority_end(), 0, i as int);
    }
    r
}

/// The port that the target names.
pub fn explicit_port(input: &str) -> (r: Option<u16>)
    ensures
        r == spec_explicit_port(input@),
{
    let a = authority_of(input);
    if a.len() > 0 && a[0] == '[' {
        let end: usize = find_first(&a, ']');
        if end < a.len() && end + 1 < a.len() && a[end + 1] == ':' {
            parse_u16(&a, end + 2)
        } else {
            None
        }
    } else {
        match find_last(&a, ':') {
            Some(colon) => if colon > 0 {
                parse_u16(&a, colon + 1)
            } else {
                None
            },
            None => None,
        }
    }
}

/// Whether the target is a host and a port.
pub fn looks_like_host_port(input: &str) -> (r: bool)
    ensures
        r == spec_explicit_port(input@) is Some,
{
    explicit_port(input).is_some()
}

/// Whether the target names the home directory or something in it.
pub fn is_home_path(input: &str) -> (r: bool)
    ensures
        r == names_home(input@),
{
    let chars = chars_of(input);
    is_text(&chars, "~") || has_prefix(&chars, "~/")
}

/// Whether the target can be nothing but a path.
pub fn is_explicit_path(input: &str) -> (r: bool)
    ensures
        r == spec_is_explicit_path(input@),
{
    let chars = chars_of(input);
    is_home_path(input) || has_prefix(&chars, "./") || has_prefix(&chars, "../") || has_prefix(
        &chars,
        ".\\",
    ) || has_prefix(&chars, "..\\") || has_prefix(&chars, "/")
}

/// The platform whose paths look like the target, where it is not this one.
pub fn foreign_path_platform(input: &str) -> (r: Option<&'static str>)
    ensures
        r is Some == foreign_path(input@),
        r matches Some(platform) ==> platform@ == "windows"@,
{
    let chars = chars_of(input);
    let drive = chars.len() >= 3 && is_ascii_letter(chars[0]) && chars[1] == ':' && (chars[2]
        == '\\' || chars[2] == '/');
    let server = has_prefix(&chars, "\\\\");
    let relative = has_prefix(&chars, ".\\") || has_prefix(&chars, "..\\");
    if drive || server || relative || has_prefix(&chars, "~\\") {
        Some("windows")
    } else {
        None
    }
}

/// The path that the target is, the home directory put in for a leading tilde.
pub open spec fn expanded_path(input: Seq<char>, home: Option<Seq<u8>>) -> Result<
    Seq<u8>,
    ErrorView,
> {
    if names_home(input) {
        match home {
            Some(home) => if input.len() == 1 {
                Ok(home)
            } else {
                Ok(joined_path(home, encode_utf8(input.skip(2))))
            },
            None => Err(
                error_about(
                    "home_directory_unavailable"@,
                    "Could not determine the current user's home directory"@,
                    input,
                ),
            ),
        }
    } else {
        Ok(encode_utf8(input))
    }
}

/// The model of a path or the reason why there is none.
pub open spec fn path_result(r: Result<LocalPath, OpenTargetError>) -> Result<Seq<u8>, ErrorView> {
    match r {
        Ok(path) => Ok(path@),
        Err(error) => Err(error@),
    }
}

/// The path that the target is, `home` put in for a leading tilde.
pub fn expand_current_user_home(input: &str, home: &Option<LocalPath>) -> (r: Result<
    LocalPath,
    OpenTargetError,
>)
    ensures
        path_result(r) == expanded_path(input@, option_path(*home)),
{
    if !is_home_path(input) {
        return Ok(LocalPath::from_text(input));
    }
    let n: usize = input.unicode_len();
    proof {
        reveal_strlit("~");
        reveal_strlit("~/");
    }
    match home {
        Some(home) => if n == 1 {
            Ok(home.copy())
        } else {
            assert(n >= 2);
            Ok(home.entry(input.substring_char(2, n)))
        },
        None => Err(
            OpenTargetError::about(
                "home_directory_unavailable",
                "Could not determine the current user's home directory".to_owned(),
                input,
            ),
        ),
    }
}

// ---- Web addresses ----

/// A scheme of the web.
#[derive(Debug, Clone, Copy, PartialEq, Eq, Structural)]
pub enum WebScheme {
    Http,
    Https,
}

/// The scheme as URLs write it.
pub open spec fn scheme_name(scheme: WebScheme) -> Seq<char> {
    match scheme {
        WebScheme::Http => "http"@,
        WebScheme::Https => "https"@,
    }
}

/// The scheme as messages write it.
pub open spec fn scheme_title(scheme: WebScheme) -> Seq<char> {
    match scheme {
        WebScheme::Http => "HTTP"@,
        WebScheme::Https => "HTTPS"@,
    }
}

impl WebScheme {
    /// The scheme as URLs write it.
    pub fn name(self) -> (r: &'static str)
        ensures
            r@ == scheme_name(self),
    {
        match self {
            WebScheme::Http => "http",
            WebScheme::Https => "https",
        }
    }

    /// The scheme as messages write it.
    pub fn title(self) -> (r: &'static str)
        ensures
            r@ == scheme_title(self),
    {
        match self {
            WebScheme::Http => "HTTP",
            WebScheme::Https => "HTTPS",
        }
    }
}

/// Where a target with a web scheme leads, by what came of reading it as a URL: to itself, letter
/// for letter, where it is one and names a host.
pub open spec fn explicit_web_outcome(
    input: Seq<char>,
    scheme: WebScheme,
    parsed: Result<UrlPartsView, Seq<char>>,
) -> OutcomeView {
    let detail = ("scheme"@, DetailView::Text(scheme_name(scheme)));
    let opening = "Invalid "@ + scheme_title(scheme);
    match parsed {
        Err(error) => Err(
            error_with("invalid_http_url"@, opening + " URL: "@ + error, input, detail),
        ),
        Ok(parts) => if parts.host is None {
            Err(error_with("invalid_http_url"@, opening + " URL: host is missing"@, input, detail))
        } else {
            Ok(ResolvedView { navigation_url: input, kind: TargetKind::Web })
        },
    }
}

/// The scheme of a web address that names none: that of the standard port, where one is named,
/// else the one that suits the host.
pub open spec fn implicit_scheme(port: Option<u16>, host_prefers_http: bool) -> WebScheme {
    if port == Some(80u16) {
        WebScheme::Http
    } else if port == Some(443u16) {
        WebScheme::Https
    } else if host_prefers_http {
        WebScheme::Http
    } else {
        WebScheme::Https
    }
}

/// Where a target without a scheme leads, by what came of reading it as a URL behind `https://`.
pub open spec fn implicit_web_outcome(
    input: Seq<char>,
    parsed: Result<UrlPartsView, Seq<char>>,
) -> OutcomeView {
    match parsed {
        Err(error) => Err(
            error_about(
                "invalid_open_target"@,
                "Open Target is neither a valid local path nor a valid web address: "@ + error,
                input,
            ),
        ),
        Ok(parts) => match parts.host {
            None => Err(
                error_about("invalid_open_target"@, "Open Target is missing a web host"@, input),
            ),
            Some(host) => {
                let scheme = implicit_scheme(
                    spec_explicit_port(input),
                    spec_host_defaults_to_http(host),
                );
                Ok(
                    ResolvedView {
                        navigation_url: scheme_name(scheme) + "://"@ + input,
                        kind: TargetKind::Web,
                    },
                )
            },
        },
    }
}

/// Where a target with a web scheme leads, by what came of reading it as a URL.
pub fn explicit_web_target(input: &str, scheme: WebScheme, parsed: &Result<UrlParts, String>) -> (r:
    Result<ResolvedOpenTarget, OpenTargetError>)
    ensures
        outcome_view(r) == explicit_web_outcome(input@, scheme, parsed_view(*parsed)),
{
    match parsed {
        Err(error) => {
            let opening = joined3("Invalid ", scheme.title(), " URL: ");
            Err(
                OpenTargetError::with(
                    "invalid_http_url",
                    joined(opening.as_str(), error.as_str()),
                    input,
                    Detail::text("scheme", scheme.name()),
                ),
            )
        },
        Ok(parts) => if parts.host.is_none() {
            Err(
                OpenTargetError::with(
                    "invalid_http_url",
                    joined3("Invalid ", scheme.title(), " URL: host is missing"),
                    input,
                    Detail::text("scheme", scheme.name()),
                ),
            )
        } else {
            Ok(ResolvedOpenTarget { navigation_url: input.to_owned(), kind: TargetKind::Web })
        },
    }
}

/// Where a target with a web scheme leads.
pub fn resolve_explicit_web(input: &str, scheme: WebScheme) -> (r: Result<
    ResolvedOpenTarget,
    OpenTargetError,
>)
    requires
        readable(input@),
    ensures
        outcome_view(r) == explicit_web_outcome(input@, scheme, parsed_url(input@)),
{
    explicit_web_target(input, scheme, &parse_url(input))
}

/// Where a target without a scheme leads, by what came of reading it as a URL behind `https://`.
pub fn implicit_web_target(input: &str, parsed: &Result<UrlParts, String>) -> (r: Result<
    ResolvedOpenTarget,
    OpenTargetError,
>)
    ensures
        outcome_view(r) == implicit_web_outcome(input@, parsed_view(*parsed)),
{
    match parsed {
        Err(error) => Err(
            OpenTargetError::about(
                "invalid_open_target",
                joined(
                    "Open Target is neither a valid local path nor a valid web address: ",
                    error.as_str(),
                ),
                input,
            ),
        ),
        Ok(parts) => match &parts.host {
            None => Err(
                OpenTargetError::about(
                    "invalid_open_target",
                    "Open Target is missing a web host".to_owned(),
                    input,
                ),
            ),
            Some(host) => {
                let port = explicit_port(input);
                let scheme = match port {
                    Some(80) => WebScheme::Http,
                    Some(443) => WebScheme::Https,
                    _ => if host_defaults_to_http(host) {
                        WebScheme::Http
                    } else {
                        WebScheme::Https
                    },
                };
                Ok(
                    ResolvedOpenTarget {
                        navigation_url: joined3(scheme.name(), "://", input),
                        kind: TargetKind::Web,
                    },
                )
            },
        },
    }
}

/// Where a target without a scheme leads.
pub fn resolve_implicit_web(input: &str) -> (r: Result<ResolvedOpenTarget, OpenTargetError>)
    requires
        readable(input@),
    ensures
        outcome_view(r) == implicit_web_outcome(input@, parsed_url("https://"@ + input@)),
        keeps_host_over_http("https://"@ + input@, parsed_url("https://"@ + input@)),
{
    let url = joined("https://", input);
    proof {
        reveal_strlit("https://");
    }
    implicit_web_target(input, &parse_url(url.as_str()))
}

// ---- File URLs ----

/// The file that a `file` URL names, and what the URL has behind the path.
#[derive(Debug)]
pub struct FileUrlTarget {
    pub path: LocalPath,
    pub query: Option<String>,
    pub fragment: Option<String>,
}

/// The model of the file that a `file` URL names.
pub struct FileUrlView {
    pub path: Seq<u8>,
    pub query: Option<Seq<char>>,
    pub fragment: Option<Seq<char>>,
}

impl View for FileUrlTarget {
    type V = FileUrlView;

    open spec fn view(&self) -> FileUrlView {
        FileUrlView {
            path: self.path@,
            query: option_text(self.query),
            fragment: option_text(self.fragment),
        }
    }
}

/// The model of the file that a `file` URL names, or the reason why it names none.
pub open spec fn file_result(r: Result<FileUrlTarget, OpenTargetError>) -> Result<
    FileUrlView,
    ErrorView,
> {
    match r {
        Ok(target) => Ok(target@),
        Err(error) => Err(error@),
    }
}

/// The error for a `file` URL that is not absolute.
pub open spec fn relative_file_url_error(input: Seq<char>) -> ErrorView {
    error_about(
        "invalid_file_url"@,
        "Relative file URLs are not supported; pass a relative filesystem path instead"@,
        input,
    )
}

/// What the parts of a `file` URL say against it, or whether its host, which then is the local
/// one, has to be taken away first.
pub open spec fn checked_file_url(
    input: Seq<char>,
    parts: UrlPartsView,
    host_os: Seq<char>,
) -> Result<bool, ErrorView> {
    let host = match parts.host_text {
        Some(host) => host,
        None => Seq::empty(),
    };
    if parts.username.len() > 0 || parts.password is Some || parts.port is Some {
        Err(
            error_about(
                "invalid_file_url"@,
                "File URL must not contain credentials or a port"@,
                input,
            ),
        )
    } else if host.len() == 0 {
        Ok(false)
    } else if lower(host) == "localhost"@ {
        Ok(true)
    } else {
        Err(
            error_with_two(
                "unsupported_file_host"@,
                "File URL host is not supported on this platform: "@ + host,
                input,
                ("host"@, DetailView::Text(host)),
                ("host_platform"@, DetailView::Text(host_os)),
            ),
        )
    }
}

/// The file that a `file` URL names, by the path that it maps to.
pub open spec fn located_file_url(
    input: Seq<char>,
    parts: UrlPartsView,
    path: Option<Seq<u8>>,
) -> Result<FileUrlView, ErrorView> {
    match path {
        None => Err(
            error_about(
                "invalid_file_url"@,
                "File URL must be absolute and map to a path on this platform"@,
                input,
            ),
        ),
        Some(path) => if absolute(path) {
            Ok(FileUrlView { path, query: parts.query, fragment: parts.fragment })
        } else {
            Err(relative_file_url_error(input))
        },
    }
}

/// The file that a `file` URL names.
pub open spec fn file_url_outcome(input: Seq<char>, host_os: Seq<char>) -> Result<
    FileUrlView,
    ErrorView,
> {
    if !starts_with(lower(input), "file://"@) {
        Err(relative_file_url_error(input))
    } else {
        match parsed_url(input) {
            Err(error) => Err(
                error_about("invalid_file_url"@, "Invalid file URL: "@ + error, input),
            ),
            Ok(parts) => match checked_file_url(input, parts, host_os) {
                Err(error) => Err(error),
                Ok(drop_host) => match if drop_host {
                    url_without_host(input)
                } else {
                    Some(input)
                } {
                    None => Err(
                        error_about(
                            "invalid_file_url"@,
                            "Could not normalize localhost file URL"@,
                            input,
                        ),
                    ),
                    Some(url) => located_file_url(input, parts, file_url_path(url)),
                },
            },
        }
    }
}

/// Two `file` URLs name the same file with the same behind it, or neither names one, for the same
/// reason.
pub open spec fn same_file(
    a: Result<FileUrlView, ErrorView>,
    b: Result<FileUrlView, ErrorView>,
) -> bool {
    match (a, b) {
        (Ok(a), Ok(b)) => a == b,
        (Err(a), Err(b)) => a.code == b.code && a.message == b.message,
        _ => false,
    }
}

/// Where the host of a `file` URL is written `localhost`, the URL names what it does without that.
pub open spec fn drops_localhost(input: Seq<char>, host_os: Seq<char>) -> bool {
    names_localhost(input) ==> same_file(
        file_url_outcome(input, host_os),
        file_url_outcome(without_localhost(input), host_os),
    )
}

/// A `file` URL whose host is written `localhost` has the shape of one.
pub proof fn lemma_localhost_shape(input: Seq<char>)
    requires
        names_localhost(input),
    ensures
        starts_with(lower(input), "file://"@),
        spec_explicit_scheme(input) == Some("file"@),
        !foreign_path(input),
        !blank(input),
{
    reveal_strlit("file://localhost/");
    reveal_strlit("file://");
    reveal_strlit("file");
    let low = lower(input);
    let front = "file://localhost/"@;
    assert forall|i: int| 0 <= i < 17 implies low[i] == front[i] by {
        assert(low.take(17)[i] == front[i]);
    }
    assert(low.take(7) =~= "file://"@);
    assert(low[0] == lower_char(input[0]) && low[1] == lower_char(input[1]));
    assert(low[2] == lower_char(input[2]) && low[3] == lower_char(input[3]));
    assert(low[4] == lower_char(input[4]));
    assert(input[0] == 'f' || input[0] == 'F');
    assert(input[1] == 'i' || input[1] == 'I');
    assert(input[2] == 'l' || input[2] == 'L');
    assert(input[3] == 'e' || input[3] == 'E');
    assert(input[4] == ':');
    lemma_first_where(input, equals(':'), 0, 4);
    assert(lower(input.take(4)) =~= "file"@);
    lemma_scheme_shape(input, "file"@);
}

/// A `file` URL with its host taken away is one still.
proof fn lemma_without_localhost(input: Seq<char>)
    ensures
        starts_with(lower(without_localhost(input)), "file://"@),
{
    reveal_strlit("file://");
    assert(lower(without_localhost(input)).take(7) =~= "file://"@);
}

fn relative_file_url(input: &str) -> (r: OpenTargetError)
    ensures
        r@ == relative_file_url_error(input@),
{
    OpenTargetError::about(
        "invalid_file_url",
        "Relative file URLs are not supported; pass a relative filesystem path instead".to_owned(),
        input,
    )
}

/// What the parts of a `file` URL say against it, or whether its host has to be taken away first.
pub fn check_file_url(input: &str, parts: &UrlParts, host_os: &HostOs) -> (r: Result<
    bool,
    OpenTargetError,
>)
    ensures
        (match r {
            Ok(drop_host) => Ok(drop_host),
            Err(error) => Err(error@),
        }) == checked_file_url(input@, parts@, host_os@),
{
    if parts.username.as_str().unicode_len() > 0 || parts.password.is_some()
        || parts.port.is_some() {
        return Err(
            OpenTargetError::about(
                "invalid_file_url",
                "File URL must not contain credentials or a port".to_owned(),
                input,
            ),
        );
    }
    let host = match &parts.host_text {
        Some(host) => host.clone(),
        None => String::new(),
    };
    let chars = chars_of(host.as_str());
    if chars.len() == 0 {
        assert(host@ =~= Seq::empty());
        Ok(false)
    } else if is_text(&to_lower(&chars), "localhost") {
        Ok(true)
    } else {
        Err(
            OpenTargetError::with_two(
                "unsupported_file_host",
                joined("File URL host is not supported on this platform: ", host.as_str()),
                input,
                Detail::text("host", host.as_str()),
                Detail::text("host_platform", host_os.name()),
            ),
        )
    }
}

/// The file that a `file` URL names, by the path that it maps to.
pub fn locate_file_url(input: &str, parts: UrlParts, path: Option<LocalPath>) -> (r: Result<
    FileUrlTarget,
    OpenTargetError,
>)
    ensures
        file_result(r) == located_file_url(input@, parts@, option_path(path)),
{
    match path {
        None => Err(
            OpenTargetError::about(
                "invalid_file_url",
                "File URL must be absolute and map to a path on this platform".to_owned(),
                input,
            ),
        ),
        Some(path) => if path.is_absolute() {
            Ok(FileUrlTarget { path, query: parts.query, fragment: parts.fragment })
        } else {
            Err(relative_file_url(input))
        },
    }
}

/// The file that a `file` URL names. What it has behind the path needs no encoding there.
pub fn resolve_file_url(input: &str, host_os: &HostOs) -> (r: Result<
    FileUrlTarget,
    OpenTargetError,
>)
    requires
        readable(input@),
    ensures
        file_result(r) == file_url_outcome(input@, host_os@),
        r matches Ok(target) ==> plain_tail(target@.query, target@.fragment),
        drops_localhost(input@, host_os@),
{
    proof {
        if names_localhost(input@) {
            lemma_localhost_shape(input@);
        }
    }
    let chars = chars_of(input);
    if !has_prefix(&to_lower(&chars), "file://") {
        return Err(relative_file_url(input));
    }
    proof {
        reveal_strlit("file://");
        reveal_strlit("file:");
        assert(lower(input@).take(5) =~= lower(input@).take(7).take(5));
        assert("file://"@.take(5) =~= "file:"@);
        assert(file_scheme(input@));
        lemma_without_localhost(input@);
    }
    let parts = match parse_url(input) {
        Ok(parts) => parts,
        Err(error) => {
            return Err(
                OpenTargetError::about(
                    "invalid_file_url",
                    joined("Invalid file URL: ", error.as_str()),
                    input,
                ),
            );
        },
    };
    let drop_host = match check_file_url(input, &parts, host_os) {
        Ok(drop_host) => drop_host,
        Err(error) => {
            return Err(error);
        },
    };
    let path = if drop_host {
        match without_host(input) {
            Some(url) => to_file_path(url.as_str()),
            None => {
                return Err(
                    OpenTargetError::about(
                        "invalid_file_url",
                        "Could not normalize localhost file URL".to_owned(),
                        input,
                    ),
                );
            },
        }
    } else {
        to_file_path(input)
    };
    locate_file_url(input, parts, path)
}

} // verus!
