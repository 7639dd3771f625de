//! The shape of targets, the parts of URLs and the hosts that go without encryption.

use agent_browser::open_target::{
    check_file_url, explicit_port, explicit_scheme, explicit_web_target, foreign_path_platform,
    implicit_web_target, is_explicit_path, is_home_path, locate_file_url, looks_like_host_port,
    resolve_file_url, HostOs, TargetKind, WebScheme,
};
use agent_browser::path::LocalPath;
use agent_browser::urls::{
    has_room_in_file_url, host_defaults_to_http, is_readable, UrlHost, UrlParts, MAX_URL_CHARS,
};

fn parts(host: Option<UrlHost>) -> UrlParts {
    UrlParts {
        username: String::new(),
        password: None,
        port: None,
        host,
        host_text: None,
        query: None,
        fragment: None,
    }
}

fn linux() -> HostOs {
    HostOs::new("linux").unwrap()
}

fn domain(name: &str) -> UrlHost {
    UrlHost::Domain(name.to_string())
}

#[test]
fn schemes() {
    for (input, expected) in [
        ("http://x", Some("http")),
        ("HTTPS:", Some("https")),
        ("a+b-c.9:x", Some("a+b-c.9")),
        ("localhost:3000", Some("localhost")),
        (":80", None),
        ("", None),
        ("example.com", None),
        ("1a:x", None),
        ("a_b:x", None),
        ("./a:b", None),
        ("é:x", None),
        ("aé:x", None),
        ("a:b:c", Some("a")),
    ] {
        assert_eq!(explicit_scheme(input).as_deref(), expected, "{input}");
    }
}

#[test]
fn ports() {
    for (input, expected) in [
        ("example.com:80", Some(80)),
        ("example.com:443/path?x#y", Some(443)),
        ("example.com", None),
        ("example.com:", None),
        (":80", None),
        ("host:65535", Some(65535)),
        ("host:65536", None),
        ("host:+80", Some(80)),
        ("host:-80", None),
        ("host:00080", Some(80)),
        ("host:8a", None),
        ("host/x:80", None),
        ("host?x:80", None),
        ("host#x:80", None),
        ("a:b:80", Some(80)),
        ("[::1]:8080", Some(8080)),
        ("[::1]", None),
        ("[::1]8080", None),
        ("[::1", None),
        ("[::1]:", None),
        ("[", None),
        ("", None),
    ] {
        assert_eq!(explicit_port(input), expected, "{input}");
        assert_eq!(looks_like_host_port(input), expected.is_some(), "{input}");
    }
}

#[test]
fn path_shapes() {
    for input in ["~", "~/x", "./x", "../x", ".\\x", "..\\x", "/", "/x"] {
        assert!(is_explicit_path(input), "{input}");
    }
    for input in ["", "x", ".", "..", "~x", ".x", "x/y", "\\x"] {
        assert!(!is_explicit_path(input), "{input}");
    }
    assert!(is_home_path("~"));
    assert!(is_home_path("~/x"));
    assert!(!is_home_path("~x"));
    assert!(!is_home_path("/~"));
}

#[test]
fn foreign_paths() {
    for input in ["C:\\x", "c:/", "\\\\server", ".\\x", "..\\x", "~\\x"] {
        assert_eq!(foreign_path_platform(input), Some("windows"), "{input}");
    }
    for input in ["", "C:", "C:x", "1:/x", "\\x", "./x", "~/x", "é:/"] {
        assert_eq!(foreign_path_platform(input), None, "{input}");
    }
}

#[test]
fn domains_on_the_local_network() {
    for name in ["localhost", "LocalHost", "a.localhost", "printer.LOCAL", "intranet", ""] {
        assert!(host_defaults_to_http(&domain(name)), "{name}");
    }
    for name in ["example.com", "localhost.com", "local.net", "a.locale", "."] {
        assert!(!host_defaults_to_http(&domain(name)), "{name}");
    }
}

#[test]
fn addresses_on_the_local_network() {
    for text in [
        "127.0.0.1",
        "127.255.255.255",
        "10.1.2.3",
        "172.15.255.255",
        "172.16.0.0",
        "172.31.255.255",
        "172.32.0.0",
        "192.168.1.1",
        "192.169.0.1",
        "169.254.0.1",
        "169.253.0.1",
        "0.0.0.0",
        "0.0.0.1",
        "8.8.8.8",
        "[::1]",
        "[::]",
        "[::2]",
        "[fc00::]",
        "[fdff:ffff::1]",
        "[fe00::]",
        "[fe80::1]",
        "[febf::1]",
        "[fec0::1]",
        "[fbff::1]",
        "[2001:db8::1]",
        "[::ffff:127.0.0.1]",
    ] {
        match url::Host::parse(text).unwrap() {
            url::Host::Ipv4(ip) => assert_eq!(
                host_defaults_to_http(&UrlHost::Ipv4(ip.octets())),
                ip.is_loopback() || ip.is_private() || ip.is_link_local() || ip.is_unspecified(),
                "{text}"
            ),
            url::Host::Ipv6(ip) => assert_eq!(
                host_defaults_to_http(&UrlHost::Ipv6(ip.segments())),
                ip.is_loopback()
                    || ip.is_unique_local()
                    || ip.is_unicast_link_local()
                    || ip.is_unspecified(),
                "{text}"
            ),
            url::Host::Domain(name) => panic!("{name} is no address"),
        }
    }
}

#[test]
fn explicit_web_targets() {
    let target =
        explicit_web_target("http://x", WebScheme::Http, &Ok(parts(Some(domain("x"))))).unwrap();
    assert_eq!(target.navigation_url, "http://x");
    assert_eq!(target.kind, TargetKind::Web);
    let err = explicit_web_target("https:x", WebScheme::Https, &Ok(parts(None))).unwrap_err();
    assert_eq!(err.code, "invalid_http_url");
    assert_eq!(err.message, "Invalid HTTPS URL: host is missing");
    let err =
        explicit_web_target("http:x", WebScheme::Http, &Err("bad".to_string())).unwrap_err();
    assert_eq!(err.message, "Invalid HTTP URL: bad");
}

#[test]
fn implicit_web_targets() {
    for (input, host, expected) in [
        ("intranet", domain("intranet"), "http://intranet"),
        ("example.com:8080/x", domain("example.com"), "https://example.com:8080/x"),
        ("10.0.0.1", UrlHost::Ipv4([10, 0, 0, 1]), "http://10.0.0.1"),
        ("[::1]:443", UrlHost::Ipv6([0, 0, 0, 0, 0, 0, 0, 1]), "https://[::1]:443"),
    ] {
        let target = implicit_web_target(input, &Ok(parts(Some(host)))).unwrap();
        assert_eq!(target.navigation_url, expected);
        assert_eq!(target.kind, TargetKind::Web);
    }
    let err = implicit_web_target("x", &Ok(parts(None))).unwrap_err();
    assert_eq!(err.code, "invalid_open_target");
    assert_eq!(err.message, "Open Target is missing a web host");
}

#[test]
fn file_urls_with_credentials_or_a_port_are_rejected() {
    let with_user = UrlParts { username: "u".to_string(), ..parts(None) };
    let with_password = UrlParts { password: Some(String::new()), ..parts(None) };
    let with_port = UrlParts { port: Some(80), ..parts(None) };
    for p in [with_user, with_password, with_port] {
        let err = check_file_url("file://x", &p, &linux()).unwrap_err();
        assert_eq!(err.code, "invalid_file_url");
        assert_eq!(err.message, "File URL must not contain credentials or a port");
    }
    assert!(!check_file_url("file:///", &parts(None), &linux()).unwrap());
    let local = UrlParts { host_text: Some("LOCALHOST".to_string()), ..parts(None) };
    assert!(check_file_url("file://LOCALHOST/", &local, &linux()).unwrap());
}

#[test]
fn file_urls_are_located_by_their_path() {
    let err = locate_file_url("file:///x", parts(None), None).unwrap_err();
    assert_eq!(err.message, "File URL must be absolute and map to a path on this platform");
    let relative = Some(LocalPath::from_text("x"));
    let err = locate_file_url("file:///x", parts(None), relative).unwrap_err();
    assert_eq!(
        err.message,
        "Relative file URLs are not supported; pass a relative filesystem path instead"
    );
    let p = UrlParts { query: Some("q".to_string()), ..parts(None) };
    let file = locate_file_url("file:///x?q", p, Some(LocalPath::from_text("/x"))).unwrap();
    assert_eq!(file.path.to_text().unwrap(), "/x");
    assert_eq!(file.query.as_deref(), Some("q"));
    assert_eq!(file.fragment, None);
}

#[test]
fn file_urls_give_their_path_query_and_fragment() {
    let file = resolve_file_url("file:///a%20b/%E9.html?x=%20'#y z", &linux()).unwrap();
    assert_eq!(file.path.bytes, b"/a b/\xe9.html".to_vec());
    assert_eq!(file.query.as_deref(), Some("x=%20%27"));
    assert_eq!(file.fragment.as_deref(), Some("y%20z"));
}

#[test]
fn room_in_a_file_url() {
    let some = |s: &str| Some(s.to_string());
    assert!(has_room_in_file_url("/a", &None, &None));
    assert!(has_room_in_file_url("/a", &some("theme=dark"), &some("intro")));
    assert!(has_room_in_file_url("/ä {}", &some("ä '"), &some("ä")));
}

#[test]
fn targets_short_enough_for_a_url() {
    assert_eq!(MAX_URL_CHARS, 20_000_000);
    assert!(is_readable("https://example.com"));
    assert!(is_readable(&"ä".repeat(20_000_000)));
    assert!(!is_readable(&"a".repeat(20_000_001)));
}
