//! URLs: what the resolver reads of one, and the `file` URLs of local paths.

use vstd::prelude::*;
use vstd::utf8::encode_utf8;

use crate::clean::{clean_text_path, from_root};
use crate::path::{absolute, LocalPath, SEPARATOR};
use crate::text::{
    ascii_letter, chars_of, ends_with, has_suffix, is_text, lower, starts_with, to_lower,
};

verus! {

/// The host of a URL.
#[derive(Debug)]
pub enum UrlHost {
    /// A domain name.
    Domain(String),
    /// The four octets of an IPv4 address.
    Ipv4([u8; 4]),
    /// The eight segments of an IPv6 address.
    Ipv6([u16; 8]),
}

/// What the resolver reads of a URL.
#[derive(Debug)]
pub struct UrlParts {
    pub username: String,
    pub password: Option<String>,
    pub port: Option<u16>,
    pub host: Option<UrlHost>,
    /// The host as the URL writes it.
    pub host_text: Option<String>,
    pub query: Option<String>,
    pub fragment: Option<String>,
}

/// The model of a host.
pub enum UrlHostView {
    Domain(Seq<char>),
    Ipv4(Seq<u8>),
    Ipv6(Seq<u16>),
}

/// The model of the parts of a URL.
pub struct UrlPartsView {
    pub username: Seq<char>,
    pub password: Option<Seq<char>>,
    pub port: Option<u16>,
    pub host: Option<UrlHostView>,
    pub host_text: Option<Seq<char>>,
    pub query: Option<Seq<char>>,
    pub fragment: Option<Seq<char>>,
}

/// The model of text that may be missing.
pub open spec fn option_text(s: Option<String>) -> Option<Seq<char>> {
    match s {
        Some(s) => Some(s@),
        None => None,
    }
}

/// The model of borrowed text that may be missing.
pub open spec fn option_str(s: Option<&str>) -> Option<Seq<char>> {
    match s {
        Some(s) => Some(s@),
        None => None,
    }
}

/// The model of a path that may be missing.
pub open spec fn option_path(path: Option<LocalPath>) -> Option<Seq<u8>> {
    match path {
        Some(path) => Some(path@),
        None => None,
    }
}

impl View for UrlHost {
    type V = UrlHostView;

    open spec fn view(&self) -> UrlHostView {
        match *self {
            UrlHost::Domain(domain) => UrlHostView::Domain(domain@),
            UrlHost::Ipv4(octets) => UrlHostView::Ipv4(octets@),
            UrlHost::Ipv6(segments) => UrlHostView::Ipv6(segments@),
        }
    }
}

impl View for UrlParts {
    type V = UrlPartsView;

    open spec fn view(&self) -> UrlPartsView {
        UrlPartsView {
            username: self.username@,
            password: option_text(self.password),
            port: self.port,
            host: match self.host {
                Some(host) => Some(host@),
                None => None,
            },
            host_text: option_text(self.host_text),
            query: option_text(self.query),
            fragment: option_text(self.fragment),
        }
    }
}

/// The model of what came of reading a URL: its parts, or what is wrong with it.
pub open spec fn parsed_view(parsed: Result<UrlParts, String>) -> Result<UrlPartsView, Seq<char>> {
    match parsed {
        Ok(parts) => Ok(parts@),
        Err(error) => Err(error@),
    }
}

// ---- What is said of hosts ----

/// 127.0.0.0/8.
pub open spec fn ipv4_loopback(o: Seq<u8>) -> bool {
    o[0] == 127
}

/// 10.0.0.0/8, 172.16.0.0/12 and 192.168.0.0/16.
pub open spec fn ipv4_private(o: Seq<u8>) -> bool {
    ||| o[0] == 10
    ||| o[0] == 172 && 16 <= o[1] <= 31
    ||| o[0] == 192 && o[1] == 168
}

/// 169.254.0.0/16.
pub open spec fn ipv4_link_local(o: Seq<u8>) -> bool {
    o[0] == 169 && o[1] == 254
}

/// 0.0.0.0.
pub open spec fn ipv4_unspecified(o: Seq<u8>) -> bool {
    o[0] == 0 && o[1] == 0 && o[2] == 0 && o[3] == 0
}

/// The first seven segments are zero.
pub open spec fn seven_zeros(s: Seq<u16>) -> bool {
    s[0] == 0 && s[1] == 0 && s[2] == 0 && s[3] == 0 && s[4] == 0 && s[5] == 0 && s[6] == 0
}

/// The domain is the local host's, ends in `.localhost` or `.local`, or has no dot.
pub open spec fn local_domain(domain: Seq<char>) -> bool {
    let name = lower(domain);
    ||| name == "localhost"@
    ||| ends_with(name, ".localhost"@)
    ||| ends_with(name, ".local"@)
    ||| !name.contains('.')
}

/// The host is one that is reached without encryption unless the port says otherwise: it is on
/// this machine or on the network around it.
pub open spec fn spec_host_defaults_to_http(host: UrlHostView) -> bool {
    match host {
        UrlHostView::Domain(domain) => local_domain(domain),
        UrlHostView::Ipv4(o) => ipv4_loopback(o) || ipv4_private(o) || ipv4_link_local(o)
            || ipv4_unspecified(o),
        UrlHostView::Ipv6(s) => {
            // ::1 and ::
            ||| seven_zeros(s) && (s[7] == 1 || s[7] == 0)
            // fc00::/7
            ||| 0xfc00 <= s[0] <= 0xfdff
            // fe80::/10
            ||| 0xfe80 <= s[0] <= 0xfebf
        },
    }
}

/// Whether the host is one that is reached without encryption unless the port says otherwise.
pub fn host_defaults_to_http(host: &UrlHost) -> (r: bool)
    ensures
        r == spec_host_defaults_to_http(host@),
{
    match host {
        UrlHost::Domain(domain) => {
            let name = to_lower(&chars_of(domain.as_str()));
            is_text(&name, "localhost") || has_suffix(&name, ".localhost") || has_suffix(
                &name,
                ".local",
            ) || !holds_dot(&name)
        },
        UrlHost::Ipv4(o) => {
            o[0] == 127 || o[0] == 10 || (o[0] == 172 && 16 <= o[1] && o[1] <= 31) || (o[0] == 192
                && o[1] == 168) || (o[0] == 169 && o[1] == 254) || (o[0] == 0 && o[1] == 0 && o[2]
                == 0 && o[3] == 0)
        },
        UrlHost::Ipv6(s) => {
            (s[0] == 0 && s[1] == 0 && s[2] == 0 && s[3] == 0 && s[4] == 0 && s[5] == 0 && s[6] == 0
                && (s[7] == 1 || s[7] == 0)) || (0xfc00 <= s[0] && s[0] <= 0xfdff) || (0xfe80
                <= s[0] && s[0] <= 0xfebf)
        },
    }
}

/// Whether a dot is among the characters.
fn holds_dot(s: &Vec<char>) -> (r: bool)
    ensures
        r == s@.contains('.'),
{
    crate::text::find_first(s, '.') < s.len()
}

// ---- Calls into the URL library ----

/// What `url::Url::parse` reads in a text: the parts of the URL, or the text of its error.
pub uninterp spec fn parsed_url(text: Seq<char>) -> Result<UrlPartsView, Seq<char>>;

/// What is left of a URL once `url::Url::set_host` has taken its host away.
pub uninterp spec fn url_without_host(text: Seq<char>) -> Option<Seq<char>>;

/// The path that `url::Url::to_file_path` gives for a URL.
pub uninterp spec fn file_url_path(text: Seq<char>) -> Option<Seq<u8>>;

/// The URL that `url::Url::from_file_path` gives for a path.
pub uninterp spec fn file_url(path: Seq<char>) -> Option<Seq<char>>;

/// What `url::Url::set_query` writes for a query, if any, into a `file` URL.
pub uninterp spec fn encoded_query(query: Option<Seq<char>>) -> Option<Seq<char>>;

/// What `url::Url::set_fragment` writes for a fragment, if any.
pub uninterp spec fn encoded_fragment(fragment: Option<Seq<char>>) -> Option<Seq<char>>;

/// The path ends like the name of a drive: in a letter and `:` or `|`.
pub open spec fn ends_like_drive(path: Seq<char>) -> bool {
    path.len() > 2 && ascii_letter(path[path.len() - 2]) && (path.last() == ':' || path.last()
        == '|')
}

/// The path as it is read back from its `file` URL: where it ends like the name of a drive, a
/// separator stands behind it, which makes no other path of it.
pub open spec fn read_back(text: Seq<char>, path: Seq<u8>) -> Seq<u8> {
    if ends_like_drive(text) {
        path.push(SEPARATOR)
    } else {
        path
    }
}

/// The text holds none of the marks that begin a query or a fragment.
pub open spec fn unmarked(text: Seq<char>) -> bool {
    !text.contains('?') && !text.contains('#')
}

/// The text is a `file` URL whose host is written `localhost`.
pub open spec fn names_localhost(text: Seq<char>) -> bool {
    starts_with(lower(text), "file://localhost/"@)
}

/// A `file` URL whose host is written `localhost`, without that.
pub open spec fn without_localhost(text: Seq<char>) -> Seq<char> {
    "file://"@ + text.skip(16)
}

/// A `file` URL that was read has some other host than the local one, or none.
pub open spec fn no_localhost(
    text: Seq<char>,
    parsed: Result<UrlPartsView, Seq<char>>,
) -> bool {
    file_scheme(text) ==> (parsed matches Ok(parts) ==> (parts.host_text matches Some(host)
        ==> lower(host) != "localhost"@))
}

/// The greatest number of characters in a target that is read as a URL. The URL library holds the
/// positions in a URL in 32 bits; a character takes fewer than two hundred bytes there, even in a
/// host, where it may be taken apart and written in ASCII.
pub const MAX_URL_CHARS: usize = 20_000_000;

/// The target is short enough to be read as a URL.
pub open spec fn readable(input: Seq<char>) -> bool {
    input.len() <= MAX_URL_CHARS
}

/// Whether the target is short enough to be read as a URL.
pub fn is_readable(input: &str) -> (r: bool)
    ensures
        r == readable(input@),
{
    input.unicode_len() <= MAX_URL_CHARS
}

/// An `https` URL with a host that was read is one with that host over `http` too.
pub open spec fn keeps_host_over_http(
    text: Seq<char>,
    parsed: Result<UrlPartsView, Seq<char>>,
) -> bool {
    starts_with(text, "https://"@) ==> (parsed matches Ok(parts) ==> (parts.host is Some ==> (
    parsed_url("http://"@ + text.skip(8)) matches Ok(other) && other.host == parts.host)))
}

/// The text is that of a URL in the `file` scheme.
pub open spec fn file_scheme(text: Seq<char>) -> bool {
    starts_with(lower(text), "file:"@)
}

/// The character stands for itself in the query of a `file` URL: it is printable ASCII other than
/// the space, quotes, `#`, `<` and `>`.
pub open spec fn plain_query_char(c: char) -> bool {
    '!' <= c && c <= '~' && c != '"' && c != '\'' && c != '#' && c != '<' && c != '>'
}

/// The query holds only characters that stand for themselves in the query of a `file` URL.
pub open spec fn plain_query(query: Seq<char>) -> bool {
    forall|i: int| 0 <= i < query.len() ==> plain_query_char(#[trigger] query[i])
}

/// The fragment holds only characters that stand for themselves in a fragment: printable ASCII
/// other than the space, the double quote, the backquote, `<` and `>`.
pub open spec fn plain_fragment(fragment: Seq<char>) -> bool {
    forall|i: int|
        0 <= i < fragment.len() ==> ('!' <= #[trigger] fragment[i] && fragment[i] <= '~'
            && fragment[i] != '"' && fragment[i] != '`' && fragment[i] != '<' && fragment[i] != '>')
}

/// The query and the fragment as they are put behind a URL, each behind its mark.
pub open spec fn url_tail(query: Option<Seq<char>>, fragment: Option<Seq<char>>) -> Seq<char> {
    let q = match query {
        Some(q) => seq!['?'] + q,
        None => Seq::empty(),
    };
    let f = match fragment {
        Some(f) => seq!['#'] + f,
        None => Seq::empty(),
    };
    q + f
}

/// A URL, if there is one, with a query and a fragment behind it.
pub open spec fn with_tail(
    url: Option<Seq<char>>,
    query: Option<Seq<char>>,
    fragment: Option<Seq<char>>,
) -> Option<Seq<char>> {
    match url {
        Some(url) => Some(url + url_tail(query, fragment)),
        None => None,
    }
}

/// The `file` URL of a path with a query and a fragment, each encoded where it has to be.
pub open spec fn file_url_with(
    path: Seq<char>,
    query: Option<Seq<char>>,
    fragment: Option<Seq<char>>,
) -> Option<Seq<char>> {
    with_tail(file_url(path), encoded_query(query), encoded_fragment(fragment))
}

/// A query and a fragment, as far as there is one, need no encoding in a `file` URL.
pub open spec fn plain_tail(query: Option<Seq<char>>, fragment: Option<Seq<char>>) -> bool {
    &&& query matches Some(q) ==> plain_query(q)
    &&& fragment matches Some(f) ==> plain_fragment(f)
}

/// The character stands for itself in the path of a `file` URL: it is printable ASCII other than
/// the space, the double quote, the backquote, the backslash, `#`, `%`, `<`, `>`, `?`, `{` and `}`.
pub open spec fn plain_path_char(c: char) -> bool {
    '!' <= c && c <= '~' && c != '"' && c != '`' && c != '\\' && c != '#' && c != '%' && c != '<'
        && c != '>' && c != '?' && c != '{' && c != '}'
}

/// The greatest number of bytes that a character can take in the path or in the query of a `file`
/// URL.
pub open spec fn char_room(c: char, in_path: bool) -> nat {
    if in_path && plain_path_char(c) || !in_path && plain_query_char(c) {
        1
    } else if c <= '\u{7f}' {
        3
    } else {
        12
    }
}

/// The greatest number of bytes that a text can take in the path or in the query of a `file` URL.
pub open spec fn text_room(s: Seq<char>, in_path: bool) -> nat
    decreases s.len(),
{
    if s.len() == 0 {
        0
    } else {
        text_room(s.drop_last(), in_path) + char_room(s.last(), in_path)
    }
}

/// Where the query and the fragment begin in the `file` URL of the path is a position of 32 bits.
pub open spec fn fits_file_url(
    path: Seq<char>,
    query: Option<Seq<char>>,
    fragment: Option<Seq<char>>,
) -> bool {
    let path_end = 7 + text_room(path, true);
    let query_end = match query {
        Some(q) => path_end + 1 + text_room(q, false),
        None => path_end,
    };
    &&& query is Some ==> path_end <= u32::MAX
    &&& fragment is Some ==> query_end <= u32::MAX
}

/// The greatest number of bytes that a text can take in the path or in the query of a `file` URL.
fn room_of(s: &str, in_path: bool) -> (r: u128)
    ensures
        r == text_room(s@, in_path),
        r <= 12 * usize::MAX,
{
    let chars = chars_of(s);
    let n: usize = chars.len();
    let mut r: u128 = 0;
    let mut i: usize = 0;
    while i < n
        invariant
            i <= n == chars@.len(),
            r == text_room(chars@.take(i as int), in_path),
            r <= 12 * i,
        decreases n - i,
    {
        let c = chars[i];
        let printable = '!' <= c && c <= '~' && c != '"' && c != '#' && c != '<' && c != '>';
        let plain = if in_path {
            printable && c != '`' && c != '\\' && c != '%' && c != '?' && c != '{' && c != '}'
        } else {
            printable && c != '\''
        };
        let room: u128 = if plain {
            1
        } else if c <= '\u{7f}' {
            3
        } else {
            12
        };
        assert(room == char_room(c, in_path));
        r = r + room;
        i += 1;
        assert(chars@.take(i as int).drop_last() =~= chars@.take(i - 1));
    }
    assert(chars@.take(i as int) =~= chars@);
    r
}

/// Whether there is room for the path, the query and the fragment in a `file` URL.
pub fn has_room_in_file_url(path: &str, query: &Option<String>, fragment: &Option<String>) -> (r:
    bool)
    ensures
        r == fits_file_url(path@, option_text(*query), option_text(*fragment)),
{
    let path_end: u128 = 7 + room_of(path, true);
    let query_end: u128 = match query {
        Some(query) => path_end + 1 + room_of(query.as_str(), false),
        None => path_end,
    };
    (query.is_none() || path_end <= u32::MAX as u128) && (fragment.is_none() || query_end
        <= u32::MAX as u128)
}

/// `url::Url::parse`, and what its getters say of the URL. A query and a fragment are given as
/// the URL writes them: in a `file` URL every character of the query, and in any URL every
/// character of the fragment, is one that needs no encoding there. In a `file` URL the host
/// `localhost` is read as none. An `https` URL is read as an `http` one is, but for the port that
/// goes without saying. The library counts the characters of an authority, and adds to the
/// positions of a query and a fragment, in 32 bits; the text has to be short enough for that.
#[verifier::external_body]
pub(crate) fn parse_url(text: &str) -> (r: Result<UrlParts, String>)
    requires
        text@.len() <= MAX_URL_CHARS + 8,
    ensures
        parsed_view(r) == parsed_url(text@),
        file_scheme(text@) ==> (parsed_view(r) matches Ok(parts) ==> (parts.query matches Some(q)
            ==> plain_query(q))),
        parsed_view(r) matches Ok(parts) ==> (parts.fragment matches Some(f) ==> plain_fragment(f)),
        no_localhost(text@, parsed_view(r)),
        names_localhost(text@) ==> parsed_view(r) == parsed_url(without_localhost(text@)),
        keeps_host_over_http(text@, parsed_view(r)),
{
    let url = url::Url::parse(text).map_err(|error| error.to_string())?;
    let host = url.host().map(|host| match host {
        url::Host::Domain(domain) => UrlHost::Domain(domain.to_owned()),
        url::Host::Ipv4(ip) => UrlHost::Ipv4(ip.octets()),
        url::Host::Ipv6(ip) => UrlHost::Ipv6(ip.segments()),
    });
    Ok(UrlParts {
        username: url.username().to_owned(),
        password: url.password().map(str::to_owned),
        port: url.port(),
        host,
        host_text: url.host_str().map(str::to_owned),
        query: url.query().map(str::to_owned),
        fragment: url.fragment().map(str::to_owned),
    })
}

/// `url::Url::set_host` with no host, on the URL that the text is: the URL without its host, or
/// nothing where the host cannot be taken away. It is in the `file` scheme still.
#[verifier::external_body]
pub(crate) fn without_host(text: &str) -> (r: Option<String>)
    requires
        file_scheme(text@),
    ensures
        option_text(r) == url_without_host(text@),
        r matches Some(url) ==> file_scheme(url@),
{
    let mut url = url::Url::parse(text).ok()?;
    url.set_host(None).ok()?;
    Some(String::from(url))
}

/// `url::Url::to_file_path`, on the URL that the text is: the path that the URL names, which
/// begins at the root, or nothing where it names none. Neither the query nor the fragment has
/// any part in it, nor has the host `localhost`.
#[verifier::external_body]
pub(crate) fn to_file_path(text: &str) -> (r: Option<LocalPath>)
    requires
        file_scheme(text@),
    ensures
        option_path(r) == file_url_path(text@),
        r matches Some(path) ==> absolute(path@),
        names_localhost(text@) ==> option_path(r) == file_url_path(without_localhost(text@)),
{
    let path = url::Url::parse(text).ok()?.to_file_path().ok()?;
    Some(LocalPath { bytes: path.into_os_string().into_encoded_bytes() })
}

/// `url::Url::from_file_path`, `url::Url::set_query` and `url::Url::set_fragment`: the `file` URL
/// of a path, with a query and a fragment put behind it. There is one exactly where the path
/// begins at the root. What needs no encoding in the query or the fragment stands there as it is,
/// and in the path `?` and `#` are encoded. A clean path is the one that `url::Url::to_file_path`
/// gives for the URL, with a slash behind it where it ends like the name of a drive. (A drive's
/// letter and `|` at the beginning stay as they are: the parser puts `:` there only in the first
/// segment, and here an empty one comes before.)
#[verifier::external_body]
pub(crate) fn local_file_url(path: &str, query: Option<&str>, fragment: Option<&str>) -> (r: Option<
    String,
>)
    requires
        fits_file_url(path@, option_str(query), option_str(fragment)),
    ensures
        option_text(r) == with_tail(
            file_url(path@),
            encoded_query(option_str(query)),
            encoded_fragment(option_str(fragment)),
        ),
        r is Some == from_root(path@),
        r matches Some(url) ==> starts_with(url@, "file:///"@),
        r is Some ==> file_url(path@) is Some && unmarked(file_url(path@)->0),
        clean_text_path(path@) ==> (r matches Some(url) ==> file_url_path(url@) == Some(
            read_back(path@, encode_utf8(path@)),
        )),
        plain_tail(option_str(query), option_str(fragment)) ==> option_text(r) == with_tail(
            file_url(path@),
            option_str(query),
            option_str(fragment),
        ),
{
    let mut url = url::Url::from_file_path(path).ok()?;
    url.set_query(query);
    url.set_fragment(fragment);
    Some(String::from(url))
}

} // verus!
