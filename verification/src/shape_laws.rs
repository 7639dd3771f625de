//! Laws of the shape of targets, of hosts, and of what a target leads to by them.
//!
//! They say it of the characters of a target and the parts of a URL.

use vstd::prelude::*;
use vstd::utf8::encode_utf8;

use crate::open_target::{
    authority, authority_end, checked_file_url, expanded_path, explicit_web_outcome,
    file_url_outcome, foreign_path, implicit_web_outcome, known_host, located_file_url, names_home,
    scheme_char, spec_explicit_port, spec_explicit_scheme, spec_is_explicit_path, DetailView,
    ErrorView, FileUrlView, OutcomeView, ResolvedView, TargetKind, WebScheme,
};
use crate::path::joined_path;
use crate::text::{
    ascii_letter, equals, first_of, last_of, lemma_first_where, lemma_first_where_found,
    lemma_last_where, lemma_last_where_found, lower, lower_char, spec_parse_u16, starts_with,
};
use crate::urls::{
    file_url_path, parsed_url, spec_host_defaults_to_http, url_without_host, UrlHostView,
    UrlPartsView,
};

verus! {

// ---- Schemes ----

/// What stands before the first colon is a scheme just where it begins with a letter and holds
/// nothing but letters, digits, `+`, `-` and `.`; it is given in lower case.
pub proof fn law_scheme_before_the_first_colon(name: Seq<char>, rest: Seq<char>)
    requires
        !name.contains(':'),
    ensures
        ({
            let input = name + seq![':'] + rest;
            let letter = |c: char| 'a' <= c && c <= 'z' || 'A' <= c && c <= 'Z';
            let is_scheme = name.len() > 0 && letter(name[0]) && forall|i: int|
                0 <= i < name.len() ==> {
                    let c = #[trigger] name[i];
                    letter(c) || '0' <= c && c <= '9' || c == '+' || c == '-' || c == '.'
                };
            spec_explicit_scheme(input) == if is_scheme {
                Some(lower(name))
            } else {
                None
            }
        }),
{
    let input = name + seq![':'] + rest;
    let n = name.len() as int;
    assert forall|i: int| 0 <= i < n implies !equals(':')(#[trigger] input[i]) by {
        assert(input[i] == name[i]);
        assert(name.contains(name[i]));
    }
    assert(input[n] == ':');
    lemma_first_where(input, equals(':'), 0, n);
    assert(input.take(n) =~= name);
    if n > 0 {
        assert(input[0] == name[0]);
        if forall|i: int| 0 < i < n ==> scheme_char(#[trigger] input[i]) {
            assert forall|i: int| 0 <= i < n implies (ascii_letter(name[i]) || '0'
                <= #[trigger] name[i] && name[i] <= '9' || name[i] == '+' || name[i] == '-'
                || name[i] == '.' || i == 0) by {
                if i > 0 {
                    assert(scheme_char(input[i]));
                }
            }
        } else {
            let i = choose|i: int| 0 < i < n && !scheme_char(#[trigger] input[i]);
            assert(name[i] == input[i]);
        }
    }
}

/// Without a colon there is no scheme.
pub proof fn law_no_scheme_without_a_colon(input: Seq<char>)
    requires
        !input.contains(':'),
    ensures
        spec_explicit_scheme(input) is None,
{
    lemma_first_where_found(input, equals(':'), 0);
    let n = first_of(input, ':');
    if n < input.len() {
        assert(input[n] == ':');
    }
}

// ---- Ports ----

/// No character of the text ends an authority.
pub open spec fn within_authority(s: Seq<char>) -> bool {
    !s.contains('/') && !s.contains('?') && !s.contains('#')
}

/// The text is empty or begins with what ends an authority.
pub open spec fn behind_authority(s: Seq<char>) -> bool {
    s.len() > 0 ==> s[0] == '/' || s[0] == '?' || s[0] == '#'
}

proof fn lemma_authority(a: Seq<char>, tail: Seq<char>)
    requires
        within_authority(a),
        behind_authority(tail),
    ensures
        authority(a + tail) == a,
{
    let s = a + tail;
    assert forall|i: int| 0 <= i < a.len() implies !authority_end()(#[trigger] s[i]) by {
        assert(s[i] == a[i]);
        assert(a.contains(a[i]));
    }
    if tail.len() > 0 {
        assert(s[a.len() as int] == tail[0]);
    }
    lemma_first_where(s, authority_end(), 0, a.len() as int);
    assert(s.take(a.len() as int) =~= a);
}

proof fn lemma_within(a: Seq<char>, b: Seq<char>)
    requires
        within_authority(a),
        within_authority(b),
    ensures
        within_authority(a + b),
{
    assert forall|c: char| (a + b).contains(c) implies a.contains(c) || b.contains(c) by {
        let k = choose|k: int| 0 <= k < (a + b).len() && (a + b)[k] == c;
        if k < a.len() {
            assert(a[k] == c);
        } else {
            assert(b[k - a.len()] == c);
        }
    }
}

/// The port is what stands between the last colon of an authority and its end, where it is a
/// number and a host stands before the colon.
pub proof fn law_port_behind_the_host(host: Seq<char>, port: Seq<char>, tail: Seq<char>)
    requires
        within_authority(host),
        within_authority(port),
        behind_authority(tail),
        !port.contains(':'),
        host.len() > 0 ==> host[0] != '[',
    ensures
        spec_explicit_port(host + seq![':'] + port + tail) == if host.len() > 0 {
            spec_parse_u16(port)
        } else {
            None
        },
{
    let a = host + seq![':'] + port;
    assert(within_authority(seq![':']));
    lemma_within(host, seq![':']);
    lemma_within(host + seq![':'], port);
    lemma_authority(a, tail);
    let n = host.len() as int;
    assert forall|i: int| n < i < a.len() implies !equals(':')(#[trigger] a[i]) by {
        assert(a[i] == port[i - n - 1]);
        assert(port.contains(port[i - n - 1]));
    }
    assert(a[n] == ':');
    lemma_last_where(a, equals(':'), a.len() as int, n);
    assert(a.skip(n + 1) =~= port);
    assert(a[0] != '[') by {
        if n > 0 {
            assert(a[0] == host[0]);
        }
    }
}

/// Without a colon in the authority there is no port.
pub proof fn law_no_port_without_a_colon(host: Seq<char>, tail: Seq<char>)
    requires
        within_authority(host),
        behind_authority(tail),
        !host.contains(':'),
    ensures
        spec_explicit_port(host + tail) is None,
{
    lemma_authority(host, tail);
    lemma_last_where_found(host, equals(':'), host.len() as int);
    lemma_first_where_found(host, equals(']'), 0);
    let n = last_of(host, ':');
    if n >= 0 {
        assert(host[n] == ':');
    }
    let end = first_of(host, ']');
    if end + 1 < host.len() {
        assert(host.contains(host[end + 1]));
    }
}

/// Behind a host in brackets the port is what stands between a colon and the end of the authority.
pub proof fn law_port_behind_brackets(inner: Seq<char>, after: Seq<char>, tail: Seq<char>)
    requires
        within_authority(inner),
        within_authority(after),
        behind_authority(tail),
        !inner.contains(']'),
    ensures
        spec_explicit_port(seq!['['] + inner + seq![']'] + after + tail) == if after.len() > 0
            && after[0] == ':' {
            spec_parse_u16(after.skip(1))
        } else {
            None
        },
        spec_explicit_port(seq!['['] + inner + tail) is None,
{
    let a = seq!['['] + inner + seq![']'] + after;
    assert(within_authority(seq!['[']) && within_authority(seq![']']));
    lemma_within(seq!['['], inner);
    lemma_within(seq!['['] + inner, seq![']']);
    lemma_within(seq!['['] + inner + seq![']'], after);
    lemma_authority(a, tail);
    let n = (inner.len() + 1) as int;
    assert forall|i: int| 0 <= i < n implies !equals(']')(#[trigger] a[i]) by {
        if i > 0 {
            assert(a[i] == inner[i - 1]);
            assert(inner.contains(inner[i - 1]));
        }
    }
    assert(a[n] == ']');
    lemma_first_where(a, equals(']'), 0, n);
    if after.len() > 0 {
        assert(a[n + 1] == after[0]);
        assert(a.skip(n + 2) =~= after.skip(1));
    }
    let b = seq!['['] + inner;
    lemma_authority(b, tail);
    lemma_first_where_found(b, equals(']'), 0);
    let end = first_of(b, ']');
    if end < b.len() {
        assert(b[end] == ']');
        assert(inner.contains(inner[end - 1]));
    }
}

// ---- Paths ----

/// A target is an explicit path by how it begins: with a slash; with a tilde that is all or has a
/// slash behind it; or with one or two dots that have a slash or a backslash behind them. Whatever
/// else it holds has no part in it.
pub proof fn law_explicit_path_by_its_beginning(input: Seq<char>)
    ensures
        spec_is_explicit_path(input) == ({
            let n = input.len();
            let slash = |i: int| i < n && (input[i] == '/' || input[i] == '\\');
            n > 0 && {
                ||| input[0] == '/'
                ||| input[0] == '~' && (n == 1 || input[1] == '/')
                ||| input[0] == '.' && slash(1)
                ||| input[0] == '.' && n > 1 && input[1] == '.' && slash(2)
            }
        }),
{
    reveal_strlit("~");
    reveal_strlit("~/");
    reveal_strlit("./");
    reveal_strlit("../");
    reveal_strlit(".\\");
    reveal_strlit("..\\");
    reveal_strlit("/");
    lemma_begins_with("~/"@, input);
    lemma_begins_with("./"@, input);
    lemma_begins_with("../"@, input);
    lemma_begins_with(".\\"@, input);
    lemma_begins_with("..\\"@, input);
    lemma_begins_with("/"@, input);
    if input.len() == 1 && input[0] == '~' {
        assert(input =~= "~"@);
    }
}

/// A text begins with a short one just where their characters are the same as far as that goes.
proof fn lemma_begins_with(front: Seq<char>, s: Seq<char>)
    requires
        1 <= front.len() <= 3,
    ensures
        starts_with(s, front) == (front.len() <= s.len() && s[0] == front[0] && (front.len() > 1
            ==> s[1] == front[1]) && (front.len() > 2 ==> s[2] == front[2])),
{
    if front.len() <= s.len() {
        let t = s.take(front.len() as int);
        if starts_with(s, front) {
            assert(t[0] == front[0]);
            assert(front.len() > 1 ==> t[1] == front[1]);
            assert(front.len() > 2 ==> t[2] == front[2]);
        }
        if s[0] == front[0] && (front.len() > 1 ==> s[1] == front[1]) && (front.len() > 2 ==> s[2]
            == front[2]) {
            assert(t =~= front);
        }
    }
}

/// A target that does not begin with a slash, a dot or a tilde is no explicit path.
pub proof fn law_other_beginnings_are_no_path(input: Seq<char>)
    requires
        input.len() > 0 ==> input[0] != '/' && input[0] != '.' && input[0] != '~',
    ensures
        !spec_is_explicit_path(input),
        !names_home(input),
{
    law_explicit_path_by_its_beginning(input);
    law_home_by_its_beginning(input);
}

/// A target names the home directory just where it is a tilde, or begins with one and a slash.
pub proof fn law_home_by_its_beginning(input: Seq<char>)
    ensures
        names_home(input) == (input.len() > 0 && input[0] == '~' && (input.len() == 1 || input[1]
            == '/')),
{
    reveal_strlit("~");
    reveal_strlit("~/");
    lemma_begins_with("~/"@, input);
    if input.len() == 1 && input[0] == '~' {
        assert(input =~= "~"@);
    }
}

/// A target is a path of another platform by how it begins: with a letter, a colon and a slash of
/// either kind; with two backslashes; or with one or two dots, or a tilde, and a backslash.
pub proof fn law_foreign_path_by_its_beginning(input: Seq<char>)
    ensures
        foreign_path(input) == ({
            let n = input.len();
            let backslash = |i: int| i < n && input[i] == '\\';
            n > 1 && {
                ||| n > 2 && ('a' <= input[0] && input[0] <= 'z' || 'A' <= input[0] && input[0]
                    <= 'Z') && input[1] == ':' && (input[2] == '/' || input[2] == '\\')
                ||| input[0] == '\\' && backslash(1)
                ||| input[0] == '.' && backslash(1)
                ||| input[0] == '.' && input[1] == '.' && backslash(2)
                ||| input[0] == '~' && backslash(1)
            }
        }),
{
    reveal_strlit("\\\\");
    reveal_strlit(".\\");
    reveal_strlit("..\\");
    reveal_strlit("~\\");
    lemma_begins_with("\\\\"@, input);
    lemma_begins_with(".\\"@, input);
    lemma_begins_with("..\\"@, input);
    lemma_begins_with("~\\"@, input);
}

/// A tilde stands for the home directory, and what stands behind it and a slash is taken from
/// there, all of it. Any other target is the path that it is.
pub proof fn law_tilde_stands_for_home(home: Seq<u8>, rest: Seq<char>, other: Seq<char>)
    ensures
        expanded_path(seq!['~'], Some(home)) == Ok::<_, ErrorView>(home),
        expanded_path(seq!['~', '/'] + rest, Some(home)) == Ok::<_, ErrorView>(
            joined_path(home, encode_utf8(rest)),
        ),
        !(other.len() > 0 && other[0] == '~' && (other.len() == 1 || other[1] == '/')) ==> (forall|
            any: Option<Seq<u8>>,
        | #[trigger] expanded_path(other, any) == Ok::<_, ErrorView>(encode_utf8(other))),
{
    let input = seq!['~', '/'] + rest;
    law_home_by_its_beginning(seq!['~']);
    law_home_by_its_beginning(input);
    law_home_by_its_beginning(other);
    assert(input.skip(2) =~= rest);
}

/// Where the home directory is not known, a target that names it is refused.
pub proof fn law_tilde_needs_home(input: Seq<char>)
    requires
        input.len() > 0,
        input[0] == '~',
        input.len() == 1 || input[1] == '/',
    ensures
        expanded_path(input, None) == Err::<Seq<u8>, _>(
            ErrorView {
                code: "home_directory_unavailable"@,
                message: "Could not determine the current user's home directory"@,
                details: seq![("open_target"@, DetailView::Text(input))],
            },
        ),
{
    law_home_by_its_beginning(input);
}

// ---- Hosts ----

/// Any platform but Windows is a host.
pub proof fn law_any_other_platform_is_a_host(name: Seq<char>)
    ensures
        known_host(name) == (name != "windows"@),
{
}

/// A domain goes without encryption just where it has no dot, or its last label is `localhost` or
/// `local`, in any case.
pub proof fn law_local_domains(front: Seq<char>, label: Seq<char>)
    requires
        !label.contains('.'),
    ensures
        spec_host_defaults_to_http(UrlHostView::Domain(label)),
        spec_host_defaults_to_http(UrlHostView::Domain(front + seq!['.'] + label)) == (lower(label)
            == "localhost"@ || lower(label) == "local"@),
{
    reveal_strlit("localhost");
    reveal_strlit(".localhost");
    reveal_strlit(".local");
    reveal_strlit("local");
    lemma_lower_keeps_dots(label);
    let domain = front + seq!['.'] + label;
    let name = lower(domain);
    let low = lower(label);
    assert(name =~= lower(front) + seq!['.'] + low);
    assert(name[front.len() as int] == '.');
    assert(name.contains('.'));
    assert(name != "localhost"@) by {
        assert(!"localhost"@.contains('.'));
    }
    lemma_label_at_the_end(lower(front), low, "localhost"@);
    lemma_label_at_the_end(lower(front), low, "local"@);
    assert(".localhost"@ =~= seq!['.'] + "localhost"@);
    assert(".local"@ =~= seq!['.'] + "local"@);
}

proof fn lemma_lower_keeps_dots(s: Seq<char>)
    ensures
        lower(s).contains('.') == s.contains('.'),
{
    if s.contains('.') {
        let k = choose|k: int| 0 <= k < s.len() && s[k] == '.';
        assert(lower(s)[k] == '.');
    }
    if lower(s).contains('.') {
        let k = choose|k: int| 0 <= k < lower(s).len() && lower(s)[k] == '.';
        assert(lower_char(s[k]) == '.');
        assert(s[k] == '.');
    }
}

/// A name ends in a dot and a label just where that is its last one.
proof fn lemma_label_at_the_end(front: Seq<char>, label: Seq<char>, word: Seq<char>)
    requires
        !label.contains('.'),
        !word.contains('.'),
    ensures
        crate::text::ends_with(front + seq!['.'] + label, seq!['.'] + word) == (label == word),
{
    let name = front + seq!['.'] + label;
    let end = seq!['.'] + word;
    if label == word {
        assert(name.skip(name.len() - end.len()) =~= end);
    }
    if crate::text::ends_with(name, end) {
        let back = name.skip(name.len() - end.len());
        assert(back[0] == '.');
        let at = name.len() - end.len();
        assert(name[at] == '.');
        if at > front.len() {
            assert(label[at - front.len() - 1] == '.');
        }
        if at < front.len() {
            let k = front.len() - at;
            assert(back[k] == name[front.len() as int]);
            assert(end[k] == '.');
            assert(word[k - 1] == '.');
        }
        assert(label =~= word) by {
            assert forall|i: int| 0 <= i < word.len() implies label[i] == word[i] by {
                assert(back[i + 1] == end[i + 1]);
            }
        }
    }
}

/// The IPv4 addresses that go without encryption are those of the blocks 127.0.0.0/8, 10.0.0.0/8,
/// 172.16.0.0/12, 192.168.0.0/16 and 169.254.0.0/16, and 0.0.0.0.
pub proof fn law_local_ipv4_addresses(o: Seq<u8>)
    requires
        o.len() == 4,
    ensures
        spec_host_defaults_to_http(UrlHostView::Ipv4(o)) == ({
            let n = o[0] * 0x1000000 + o[1] * 0x10000 + o[2] * 0x100 + o[3];
            0x7f000000 <= n <= 0x7fffffff || 0x0a000000 <= n <= 0x0affffff || 0xac100000 <= n
                <= 0xac1fffff || 0xc0a80000 <= n <= 0xc0a8ffff || 0xa9fe0000 <= n <= 0xa9feffff || n
                == 0
        }),
{
}

/// The IPv6 addresses that go without encryption are `::`, `::1`, and those of the blocks fc00::/7
/// and fe80::/10.
pub proof fn law_local_ipv6_addresses(s: Seq<u16>)
    requires
        s.len() == 8,
    ensures
        spec_host_defaults_to_http(UrlHostView::Ipv6(s)) == ({
            ||| s[0] + s[1] + s[2] + s[3] + s[4] + s[5] + s[6] == 0 && s[7] <= 1
            ||| s[0] as int / 0x200 == 0x7e
            ||| s[0] as int / 0x40 == 0x3fa
        }),
{
}

// ---- Web addresses ----

/// A target with a web scheme leads to itself where it is a URL with a host. Else the error says
/// what is wrong, and shows the target and the scheme.
pub proof fn law_explicit_web_address(input: Seq<char>, parts: UrlPartsView, error: Seq<char>)
    ensures
        parts.host is Some ==> explicit_web_outcome(input, WebScheme::Http, Ok(parts)) == Ok::<
            _,
            ErrorView,
        >(ResolvedView { navigation_url: input, kind: TargetKind::Web }),
        parts.host is Some ==> explicit_web_outcome(input, WebScheme::Https, Ok(parts)) == Ok::<
            _,
            ErrorView,
        >(ResolvedView { navigation_url: input, kind: TargetKind::Web }),
        parts.host is None ==> explicit_web_outcome(input, WebScheme::Http, Ok(parts))
            == refused_web(input, "http"@, "Invalid "@ + "HTTP"@ + " URL: host is missing"@),
        parts.host is None ==> explicit_web_outcome(input, WebScheme::Https, Ok(parts))
            == refused_web(input, "https"@, "Invalid "@ + "HTTPS"@ + " URL: host is missing"@),
        explicit_web_outcome(input, WebScheme::Http, Err(error)) == refused_web(
            input,
            "http"@,
            "Invalid "@ + "HTTP"@ + " URL: "@ + error,
        ),
        explicit_web_outcome(input, WebScheme::Https, Err(error)) == refused_web(
            input,
            "https"@,
            "Invalid "@ + "HTTPS"@ + " URL: "@ + error,
        ),
{
}

/// A web address that is refused, with its scheme and a message.
pub open spec fn refused_web(
    input: Seq<char>,
    scheme: Seq<char>,
    message: Seq<char>,
) -> OutcomeView {
    Err(
        ErrorView {
            code: "invalid_http_url"@,
            message,
            details: seq![
                ("open_target"@, DetailView::Text(input)),
                ("scheme"@, DetailView::Text(scheme)),
            ],
        },
    )
}

/// A target without a scheme gets one where it is read as a URL with a host: `http` where it names
/// port 80, or no port 443 and its host goes without encryption; else `https`. It stands behind
/// that as it is.
pub proof fn law_implicit_web_address(input: Seq<char>, parts: UrlPartsView, error: Seq<char>)
    ensures
        parts.host matches Some(host) ==> implicit_web_outcome(input, Ok(parts)) == Ok::<
            _,
            ErrorView,
        >(
            ResolvedView {
                navigation_url: if spec_explicit_port(input) == Some(80u16) || spec_explicit_port(
                    input,
                ) != Some(443u16) && spec_host_defaults_to_http(host) {
                    "http"@ + "://"@ + input
                } else {
                    "https"@ + "://"@ + input
                },
                kind: TargetKind::Web,
            },
        ),
        parts.host is None ==> implicit_web_outcome(input, Ok(parts)) == Err::<ResolvedView, _>(
            ErrorView {
                code: "invalid_open_target"@,
                message: "Open Target is missing a web host"@,
                details: seq![("open_target"@, DetailView::Text(input))],
            },
        ),
        implicit_web_outcome(input, Err(error)) == Err::<ResolvedView, _>(
            ErrorView {
                code: "invalid_open_target"@,
                message: "Open Target is neither a valid local path nor a valid web address: "@
                    + error,
                details: seq![("open_target"@, DetailView::Text(input))],
            },
        ),
{
}

/// A domain with a dot in it whose last label is neither `localhost` nor `local` gets `https`,
/// unless port 80 is named; one whose last label is one of the two, and one without a dot, gets
/// `http`, unless port 443 is named.
pub proof fn law_public_domains_get_https(
    input: Seq<char>,
    parts: UrlPartsView,
    front: Seq<char>,
    label: Seq<char>,
)
    requires
        !label.contains('.'),
    ensures
        parts.host == Some(UrlHostView::Domain(front + seq!['.'] + label)) && lower(label)
            != "localhost"@ && lower(label) != "local"@ && spec_explicit_port(input) != Some(80u16)
            ==> implicit_web_outcome(input, Ok(parts)) == Ok::<_, ErrorView>(
            ResolvedView { navigation_url: "https"@ + "://"@ + input, kind: TargetKind::Web },
        ),
        (parts.host == Some(UrlHostView::Domain(label)) || parts.host == Some(
            UrlHostView::Domain(front + seq!['.'] + label),
        ) && (lower(label) == "localhost"@ || lower(label) == "local"@)) && spec_explicit_port(
            input,
        ) != Some(443u16) ==> implicit_web_outcome(input, Ok(parts)) == Ok::<_, ErrorView>(
            ResolvedView { navigation_url: "http"@ + "://"@ + input, kind: TargetKind::Web },
        ),
{
    law_local_domains(front, label);
    law_implicit_web_address(input, parts, Seq::empty());
}

// ---- File URLs ----

/// A `file` URL that was read is refused just where it has credentials, a port, or a host that is
/// not the local one; the host is to be taken away just where it is written `localhost`, in any
/// case. Neither its query nor its fragment has a part in it.
pub proof fn law_checked_file_url(input: Seq<char>, parts: UrlPartsView, host_os: Seq<char>)
    ensures
        checked_file_url(input, parts, host_os) is Ok == (parts.username.len() == 0
            && parts.password is None && parts.port is None && (parts.host_text matches Some(host)
            ==> host.len() == 0 || lower(host) == "localhost"@)),
        checked_file_url(input, parts, host_os) matches Ok(drop_host) ==> drop_host == (
        parts.host_text matches Some(host) && lower(host) == "localhost"@),
        parts.username.len() > 0 || parts.password is Some || parts.port is Some
            ==> checked_file_url(input, parts, host_os) == Err::<bool, _>(
            ErrorView {
                code: "invalid_file_url"@,
                message: "File URL must not contain credentials or a port"@,
                details: seq![("open_target"@, DetailView::Text(input))],
            },
        ),
        parts.username.len() == 0 && parts.password is None && parts.port is None ==> (
        parts.host_text matches Some(host) ==> (host.len() > 0 && lower(host) != "localhost"@
            ==> checked_file_url(input, parts, host_os) == Err::<bool, _>(
            ErrorView {
                code: "unsupported_file_host"@,
                message: "File URL host is not supported on this platform: "@ + host,
                details: seq![
                    ("open_target"@, DetailView::Text(input)),
                    ("host"@, DetailView::Text(host)),
                    ("host_platform"@, DetailView::Text(host_os)),
                ],
            },
        ))),
{
    reveal_strlit("localhost");
    assert("localhost"@.len() > 0);
}

/// A `file` URL that maps to a path from the root names that file, with the query and the fragment
/// of the URL, whichever of the two it has.
pub proof fn law_located_file_url(input: Seq<char>, parts: UrlPartsView, path: Seq<u8>)
    ensures
        path.len() > 0 && path[0] == 47 ==> located_file_url(input, parts, Some(path)) == Ok::<
            _,
            ErrorView,
        >(FileUrlView { path, query: parts.query, fragment: parts.fragment }),
        !(path.len() > 0 && path[0] == 47) ==> located_file_url(input, parts, Some(path)) == Err::<
            FileUrlView,
            _,
        >(refused_file_url(
            input,
            "Relative file URLs are not supported; pass a relative filesystem path instead"@,
        )),
        located_file_url(input, parts, None) == Err::<FileUrlView, _>(
            refused_file_url(
                input,
                "File URL must be absolute and map to a path on this platform"@,
            ),
        ),
{
}

/// The error for a `file` URL that is refused with a message.
pub open spec fn refused_file_url(input: Seq<char>, message: Seq<char>) -> ErrorView {
    ErrorView {
        code: "invalid_file_url"@,
        message,
        details: seq![("open_target"@, DetailView::Text(input))],
    }
}

/// A `file` URL names the file of the path that it maps to, with its query and its fragment, where
/// it has two slashes behind the colon, is read, has neither credentials nor a port nor a host, and
/// maps to a path from the root. Where it cannot be read the error says so.
pub proof fn law_file_url_names_its_file(
    input: Seq<char>,
    host_os: Seq<char>,
    parts: UrlPartsView,
    path: Seq<u8>,
    error: Seq<char>,
)
    ensures
        !starts_with(lower(input), "file://"@) ==> file_url_outcome(input, host_os) == Err::<
            FileUrlView,
            _,
        >(
            refused_file_url(
                input,
                "Relative file URLs are not supported; pass a relative filesystem path instead"@,
            ),
        ),
        starts_with(lower(input), "file://"@) && parsed_url(input) == Err::<UrlPartsView, _>(error)
            ==> file_url_outcome(input, host_os) == Err::<FileUrlView, _>(
            refused_file_url(input, "Invalid file URL: "@ + error),
        ),
        starts_with(lower(input), "file://"@) && parsed_url(input) == Ok::<_, Seq<char>>(parts)
            && checked_file_url(input, parts, host_os) is Err ==> file_url_outcome(input, host_os)
            == Err::<FileUrlView, _>(checked_file_url(input, parts, host_os)->Err_0),
        starts_with(lower(input), "file://"@) && parsed_url(input) == Ok::<_, Seq<char>>(parts)
            && parts.username.len() == 0 && parts.password is None && parts.port is None && (
        parts.host_text matches Some(host) ==> host.len() == 0) && file_url_path(input) is None
            ==> file_url_outcome(input, host_os) == Err::<FileUrlView, _>(
            refused_file_url(
                input,
                "File URL must be absolute and map to a path on this platform"@,
            ),
        ),
        starts_with(lower(input), "file://"@) && parsed_url(input) == Ok::<_, Seq<char>>(parts)
            && parts.username.len() == 0 && parts.password is None && parts.port is None && (
        parts.host_text matches Some(host) ==> host.len() == 0) && file_url_path(input) == Some(
            path,
        ) && path.len() > 0 && path[0] == 47 ==> file_url_outcome(input, host_os) == Ok::<
            _,
            ErrorView,
        >(FileUrlView { path, query: parts.query, fragment: parts.fragment }),
        starts_with(lower(input), "file://"@) && parsed_url(input) == Ok::<_, Seq<char>>(parts)
            && parts.username.len() == 0 && parts.password is None && parts.port is None && (
        parts.host_text matches Some(host) && lower(host) == "localhost"@) ==> (
        match url_without_host(input) {
            None => file_url_outcome(input, host_os) == Err::<FileUrlView, _>(
                refused_file_url(input, "Could not normalize localhost file URL"@),
            ),
            Some(url) => file_url_path(url) == Some(path) && path.len() > 0 && path[0] == 47
                ==> file_url_outcome(input, host_os) == Ok::<_, ErrorView>(
                FileUrlView { path, query: parts.query, fragment: parts.fragment },
            ),
        }),
{
    reveal_strlit("localhost");
    assert("localhost"@.len() > 0);
    law_checked_file_url(input, parts, host_os);
    law_located_file_url(input, parts, path);
}

} // verus!
