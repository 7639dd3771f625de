//! Resolving Open Targets against a small file system held in memory.

use agent_browser::open_target::{
    DetailValue, HostOs, OpenTargetError, ResolvedOpenTarget, TargetKind,
};
use agent_browser::path::LocalPath;
use agent_browser::resolution::{
    is_resolvable, resolve_open_target, Answer, FileType, Question, Request, Resolution, Stage,
    Step,
};

const DIR: &str = "/tmp/agent-browser-open-target";

/// What is where: directories, regular files, other things, and symbolic links.
#[derive(Default)]
struct Disk {
    directories: Vec<&'static str>,
    files: Vec<&'static str>,
    others: Vec<&'static str>,
    links: Vec<(&'static str, &'static str)>,
}

impl Disk {
    /// A disk with the one directory `DIR` and files in it.
    fn with_files(files: &[&'static str]) -> Disk {
        Disk { directories: vec![DIR], files: files.to_vec(), ..Disk::default() }
    }

    fn follow(&self, path: &str) -> String {
        match self.links.iter().find(|(from, _)| *from == path) {
            Some((_, to)) => to.to_string(),
            None => path.to_string(),
        }
    }

    fn file_type(&self, path: &str) -> Option<FileType> {
        let path = self.follow(path);
        if self.directories.contains(&path.as_str()) {
            Some(FileType::Directory)
        } else if self.files.contains(&path.as_str()) {
            Some(FileType::File)
        } else if self.others.contains(&path.as_str()) {
            Some(FileType::Other)
        } else {
            None
        }
    }

    fn answer(&self, question: &Question) -> Answer {
        match question {
            Question::IsDirectory(path) => {
                Answer::IsDirectory(self.file_type(&text(path)) == Some(FileType::Directory))
            }
            Question::Exists(path) => Answer::Exists(self.file_type(&text(path)).is_some()),
            Question::Canonicalize(path) => {
                Answer::Canonical(Ok(LocalPath::from_text(&self.follow(&text(path)))))
            }
            Question::FileType(path) => {
                Answer::FileType(self.file_type(&text(path)).ok_or("not found".to_string()))
            }
        }
    }
}

fn linux() -> HostOs {
    HostOs::new("linux").unwrap()
}

fn text(path: &LocalPath) -> String {
    path.to_text().unwrap()
}

/// Answers every question from the disk until there is an outcome.
fn run(mut step: Step, disk: &Disk) -> Result<ResolvedOpenTarget, OpenTargetError> {
    for _ in 0..7 {
        match step {
            Step::Done(outcome) => return outcome,
            Step::Ask(resolution) => {
                let answer = disk.answer(&resolution.question());
                assert!(resolution.admits_answer(&answer));
                step = resolution.answer(answer);
            }
        }
    }
    panic!("more than six questions")
}

fn resolve(
    input: &str,
    cwd: Option<&str>,
    disk: &Disk,
) -> Result<ResolvedOpenTarget, OpenTargetError> {
    run(resolve_open_target(input, cwd.map(LocalPath::from_text), linux()), disk)
}

fn detail_text(error: &OpenTargetError, key: &str) -> String {
    let detail = error.details.iter().find(|d| d.key == key).unwrap();
    match &detail.value {
        DetailValue::Text(s) => s.clone(),
        DetailValue::Path(path) => text(path),
        DetailValue::List(items) => items.join(","),
    }
}

fn keys(error: &OpenTargetError) -> Vec<&'static str> {
    error.details.iter().map(|d| d.key).collect()
}

#[test]
fn existing_bare_path_wins_over_web() {
    let disk = Disk::with_files(&["/tmp/agent-browser-open-target/example.com"]);
    let resolved = resolve("example.com", Some(DIR), &disk).unwrap();
    assert_eq!(resolved.kind, TargetKind::LocalResource);
    assert!(resolved.navigation_url.starts_with("file://"));
    assert_eq!(resolved.navigation_url, "file:///tmp/agent-browser-open-target/example.com");
}

#[test]
fn missing_bare_file_shape_falls_back_to_web() {
    let disk = Disk::with_files(&[]);
    let resolved = resolve("demo.html", Some(DIR), &disk).unwrap();
    assert_eq!(resolved.navigation_url, "https://demo.html");
}

#[test]
fn explicit_missing_path_is_an_error() {
    let disk = Disk::with_files(&[]);
    let err = resolve("./missing.html", Some(DIR), &disk).unwrap_err();
    assert_eq!(err.code, "local_resource_not_found");
    assert_eq!(
        err.to_text(),
        "Local Resource does not exist: /tmp/agent-browser-open-target/missing.html"
    );
    assert_eq!(keys(&err), vec!["open_target", "resolved_path"]);
    assert_eq!(detail_text(&err, "open_target"), "./missing.html");
    assert_eq!(
        detail_text(&err, "resolved_path"),
        "/tmp/agent-browser-open-target/missing.html"
    );
}

#[test]
fn directories_are_rejected() {
    let disk = Disk::with_files(&[]);
    let err = resolve(DIR, None, &disk).unwrap_err();
    assert_eq!(err.code, "local_resource_not_file");
    assert_eq!(
        err.message,
        "Local Resource must be a regular file: /tmp/agent-browser-open-target"
    );
    assert_eq!(keys(&err), vec!["open_target", "resolved_path", "actual_type"]);
    assert_eq!(detail_text(&err, "actual_type"), "directory");
}

#[test]
fn explicit_web_url_is_preserved() {
    let input = "HTTPS://EXAMPLE.com:443/a/../b?q=a%2Fb";
    let resolved = resolve(input, None, &Disk::default()).unwrap();
    assert_eq!(resolved.navigation_url, input);
    assert_eq!(resolved.kind, TargetKind::Web);
}

#[test]
fn local_hosts_default_to_http_and_public_hosts_to_https() {
    let disk = Disk::default();
    assert_eq!(
        resolve("localhost:3000", None, &disk).unwrap().navigation_url,
        "http://localhost:3000"
    );
    assert_eq!(
        resolve("printer.local", None, &disk).unwrap().navigation_url,
        "http://printer.local"
    );
    assert_eq!(
        resolve("example.com", None, &disk).unwrap().navigation_url,
        "https://example.com"
    );
}

#[test]
fn standard_ports_override_host_defaults() {
    let disk = Disk::default();
    assert_eq!(
        resolve("example.com:80", None, &disk).unwrap().navigation_url,
        "http://example.com:80"
    );
    assert_eq!(
        resolve("localhost:443", None, &disk).unwrap().navigation_url,
        "https://localhost:443"
    );
}

#[test]
fn unsupported_schemes_are_rejected() {
    let err = resolve("mailto:user@example.com", None, &Disk::default()).unwrap_err();
    assert_eq!(err.code, "unsupported_scheme");
    assert_eq!(err.message, "Unsupported Open Target scheme: mailto");
    assert_eq!(keys(&err), vec!["scheme", "supported_schemes"]);
    assert_eq!(detail_text(&err, "scheme"), "mailto");
    assert_eq!(detail_text(&err, "supported_schemes"), "http,https,file");
}

#[test]
fn path_hash_and_question_mark_are_filename_characters() {
    let filename = "report#1?draft.html";
    let disk = Disk::with_files(&["/tmp/agent-browser-open-target/report#1?draft.html"]);
    let resolved = resolve(&format!("./{filename}"), Some(DIR), &disk).unwrap();
    assert!(resolved.navigation_url.contains("report%231%3Fdraft.html"));
}

#[test]
fn relative_file_urls_are_rejected() {
    let err = resolve("file:demo.html", None, &Disk::default()).unwrap_err();
    assert_eq!(err.code, "invalid_file_url");
    assert_eq!(
        err.message,
        "Relative file URLs are not supported; pass a relative filesystem path instead"
    );
}

#[test]
fn relative_paths_require_a_valid_absolute_cwd() {
    let disk = Disk::with_files(&[]);
    let err = resolve("./demo.html", None, &disk).unwrap_err();
    assert_eq!(err.code, "missing_cwd");
    assert_eq!(err.message, "A working directory is required for a relative Open Target");
    let err = resolve("./demo.html", Some("relative"), &disk).unwrap_err();
    assert_eq!(err.code, "invalid_cwd");
    assert_eq!(detail_text(&err, "cwd"), "relative");
    let err = resolve("https://example.com", Some("relative"), &disk).unwrap_err();
    assert_eq!(err.code, "invalid_cwd");
    assert_eq!(err.message, "cwd must be an absolute existing directory");
}

#[test]
fn symbolic_links_resolve_to_the_real_file() {
    let disk = Disk {
        links: vec![(
            "/tmp/agent-browser-open-target/current.html",
            "/tmp/agent-browser-open-target/real.html",
        )],
        ..Disk::with_files(&["/tmp/agent-browser-open-target/real.html"])
    };
    let link = "/tmp/agent-browser-open-target/current.html";
    let resolved = resolve(link, None, &disk).unwrap();
    assert_eq!(
        url::Url::parse(&resolved.navigation_url)
            .unwrap()
            .to_file_path()
            .unwrap()
            .to_str()
            .unwrap(),
        "/tmp/agent-browser-open-target/real.html"
    );
}

#[test]
fn file_url_preserves_query_and_fragment() {
    let disk = Disk::with_files(&["/tmp/agent-browser-open-target/demo.html"]);
    let mut url =
        url::Url::from_file_path("/tmp/agent-browser-open-target/demo.html").unwrap();
    url.set_query(Some("theme=dark"));
    url.set_fragment(Some("intro"));
    let resolved = resolve(url.as_str(), None, &disk).unwrap();
    assert!(resolved.navigation_url.ends_with("?theme=dark#intro"));
    assert_eq!(
        resolved.navigation_url,
        "file:///tmp/agent-browser-open-target/demo.html?theme=dark#intro"
    );
}

#[test]
fn windows_paths_are_rejected_on_unix() {
    for input in [
        r"C:\Users\Alice\demo.html",
        r"\\server\share\demo.html",
        r".\demo.html",
        r"~\demo.html",
    ] {
        let err = resolve(input, None, &Disk::default()).unwrap_err();
        assert_eq!(err.code, "foreign_platform_path", "input: {input}");
        assert_eq!(
            err.message,
            "The Open Target looks like a windows path, but the CLI is running on linux"
        );
        assert_eq!(detail_text(&err, "host_platform"), "linux");
        assert_eq!(detail_text(&err, "detected_platform"), "windows");
    }
}

#[test]
fn more_windows_paths_are_rejected() {
    for input in [r"..\demo.html", "c:/demo.html", "Z:\\"] {
        let err = resolve(input, None, &Disk::default()).unwrap_err();
        assert_eq!(err.code, "foreign_platform_path", "input: {input}");
    }
    let err = resolve("C:demo", None, &Disk::default()).unwrap_err();
    assert_eq!(err.code, "unsupported_scheme");
}

#[test]
fn blank_targets_are_rejected() {
    for input in ["", " ", "\t\n", "\u{3000}\u{a0}"] {
        let err = resolve(input, Some("relative"), &Disk::default()).unwrap_err();
        assert_eq!(err.code, "invalid_open_target");
        assert_eq!(err.message, "Open Target must not be empty");
        assert_eq!(detail_text(&err, "open_target"), input);
    }
}

#[test]
fn missing_cwd_directory_is_rejected_for_any_target() {
    let err = resolve("example.com", Some("/nowhere"), &Disk::default()).unwrap_err();
    assert_eq!(err.code, "invalid_cwd");
    assert_eq!(detail_text(&err, "cwd"), "/nowhere");
}

#[test]
fn cwd_is_checked_again_before_a_relative_path_is_joined() {
    let cwd = Some(LocalPath::from_text(DIR));
    let step = resolve_open_target("./a.html", cwd, linux());
    let resolution = match step {
        Step::Ask(resolution) => resolution,
        Step::Done(_) => panic!("nothing was asked"),
    };
    assert!(matches!(resolution.question(), Question::IsDirectory(_)));
    let again = match resolution.answer(Answer::IsDirectory(true)) {
        Step::Ask(resolution) => resolution,
        Step::Done(_) => panic!("the working directory was not checked again"),
    };
    assert!(matches!(again.question(), Question::IsDirectory(_)));
    match again.answer(Answer::IsDirectory(false)) {
        Step::Done(Err(err)) => assert_eq!(err.code, "invalid_cwd"),
        _ => panic!("a working directory that is gone was used"),
    }
}

#[test]
fn targets_that_are_too_long_for_a_url_are_told_apart() {
    let resolution = |input: String, stage: Stage| Resolution {
        request: Request { input, home: None, host_os: linux() },
        stage,
    };
    let cwd = || LocalPath::from_text(DIR);
    let long = || "a".repeat(20_000_001);
    let checking = resolution(long(), Stage::CheckingCwd { cwd: cwd() });
    assert!(!checking.admits_answer(&Answer::IsDirectory(true)));
    assert!(checking.admits_answer(&Answer::IsDirectory(false)));
    let looking = resolution(long(), Stage::LookingInCwd { cwd: cwd() });
    assert!(!looking.admits_answer(&Answer::Exists(false)));
    assert!(looking.admits_answer(&Answer::Exists(true)));
    assert!(!is_resolvable(&long()));
    assert!(!is_resolvable(&format!("file:///{}", long())));
    for front in ["/", "./", "~/", "C:\\"] {
        let input = format!("{front}{}", long());
        assert!(is_resolvable(&input));
        let checking = resolution(input, Stage::CheckingCwd { cwd: cwd() });
        assert!(checking.admits_answer(&Answer::IsDirectory(true)));
    }
    let looking = resolution("a".to_string(), Stage::LookingInCwd { cwd: cwd() });
    assert!(looking.admits_answer(&Answer::Exists(false)));
}

#[test]
fn answers_to_other_questions_change_nothing() {
    let step = resolve_open_target("/a.html", None, linux());
    let resolution = match step {
        Step::Ask(resolution) => resolution,
        Step::Done(_) => panic!("nothing was asked"),
    };
    match resolution.answer(Answer::IsDirectory(true)) {
        Step::Ask(resolution) => match resolution.question() {
            Question::Exists(path) => assert_eq!(text(&path), "/a.html"),
            _ => panic!("another question is asked"),
        },
        Step::Done(_) => panic!("the wrong answer was taken"),
    }
}

#[test]
fn paths_are_cleaned_before_they_are_looked_for() {
    let disk = Disk::with_files(&["/tmp/agent-browser-open-target/b.html"]);
    let resolved = resolve("./a/.././b.html", Some(DIR), &disk).unwrap();
    assert_eq!(resolved.navigation_url, "file:///tmp/agent-browser-open-target/b.html");
    let resolved =
        resolve("/tmp//x/../agent-browser-open-target/b.html", None, &disk).unwrap();
    assert_eq!(resolved.navigation_url, "file:///tmp/agent-browser-open-target/b.html");
}

#[test]
fn paths_that_are_not_utf8_are_refused_only_in_the_end() {
    let bytes = b"/tmp/caf\xe9.html".to_vec();
    let cwd = LocalPath { bytes: b"/tmp/d\xff/./x/..".to_vec() };
    let step = resolve_open_target("./a.html", Some(cwd), linux());
    let mut found = None;
    let mut step = step;
    for _ in 0..7 {
        match step {
            Step::Done(Err(err)) => {
                found = Some(err);
                break;
            }
            Step::Done(Ok(_)) => panic!("it was opened"),
            Step::Ask(resolution) => {
                let answer = match resolution.question() {
                    Question::IsDirectory(_) => Answer::IsDirectory(true),
                    Question::Exists(path) => {
                        assert_eq!(path.bytes, b"/tmp/d\xff/a.html".to_vec());
                        Answer::Exists(true)
                    }
                    Question::Canonicalize(_) => {
                        Answer::Canonical(Ok(LocalPath { bytes: bytes.clone() }))
                    }
                    Question::FileType(_) => panic!("its type was asked for"),
                };
                step = resolution.answer(answer);
            }
        }
    }
    let err = found.unwrap();
    assert_eq!(err.code, "non_utf8_local_resource");
    assert_eq!(err.message, "Local Resource path cannot be represented as UTF-8");
    assert_eq!(keys(&err), vec!["open_target"]);
}

#[test]
fn missing_path_that_is_not_utf8_is_shown_with_replacements() {
    let cwd = LocalPath { bytes: b"/tmp/d\xff".to_vec() };
    let mut step = resolve_open_target("./a.html", Some(cwd), linux());
    loop {
        match step {
            Step::Done(Err(err)) => {
                assert_eq!(err.message, "Local Resource does not exist: /tmp/d\u{fffd}/a.html");
                return;
            }
            Step::Done(Ok(_)) => panic!("it was opened"),
            Step::Ask(resolution) => {
                let answer = match resolution.question() {
                    Question::IsDirectory(_) => Answer::IsDirectory(true),
                    _ => Answer::Exists(false),
                };
                step = resolution.answer(answer);
            }
        }
    }
}

fn inspecting(path: &str, query: Option<&str>, fragment: Option<&str>) -> Resolution {
    Resolution {
        request: Request {
            input: path.to_string(),
            home: None,
            host_os: linux(),
        },
        stage: Stage::Inspecting {
            file: agent_browser::open_target::FileUrlTarget {
                path: LocalPath::from_text(path),
                query: query.map(str::to_string),
                fragment: fragment.map(str::to_string),
            },
            text: path.to_string(),
        },
    }
}

#[test]
fn errors_of_the_file_system_are_reported() {
    let canonicalizing = match resolve_open_target("/a.html", None, linux()) {
        Step::Ask(resolution) => match resolution.answer(Answer::Exists(true)) {
            Step::Ask(resolution) => resolution,
            Step::Done(_) => panic!("nothing more was asked"),
        },
        Step::Done(_) => panic!("nothing was asked"),
    };
    match canonicalizing.answer(Answer::Canonical(Err("too many links".to_string()))) {
        Step::Done(Err(err)) => {
            assert_eq!(err.code, "local_resource_not_found");
            assert_eq!(
                err.message,
                "Could not resolve Local Resource /a.html: too many links"
            );
        }
        _ => panic!("the error was passed over"),
    }
    match inspecting("/a.html", None, None)
        .answer(Answer::FileType(Err("permission denied".to_string())))
    {
        Step::Done(Err(err)) => {
            assert_eq!(err.code, "local_resource_not_found");
            assert_eq!(
                err.message,
                "Could not inspect Local Resource /a.html: permission denied"
            );
            assert_eq!(detail_text(&err, "resolved_path"), "/a.html");
        }
        _ => panic!("the error was passed over"),
    }
}

#[test]
fn other_things_than_files_are_rejected() {
    let disk = Disk { others: vec!["/dev/null"], ..Disk::default() };
    let err = resolve("/dev/null", None, &disk).unwrap_err();
    assert_eq!(err.code, "local_resource_not_file");
    assert_eq!(detail_text(&err, "actual_type"), "non_regular");
}

#[test]
fn path_without_a_root_has_no_file_url() {
    match inspecting("a.html", None, None).answer(Answer::FileType(Ok(FileType::File))) {
        Step::Done(Err(err)) => {
            assert_eq!(err.code, "invalid_file_url");
            assert_eq!(err.message, "Could not convert Local Resource to a file URL");
        }
        _ => panic!("a relative path has a file URL"),
    }
}

#[test]
fn query_and_fragment_stand_behind_the_file_url() {
    for (query, fragment, expected) in [
        (None, None, "file:///a%20b.html"),
        (Some(""), None, "file:///a%20b.html?"),
        (None, Some(""), "file:///a%20b.html#"),
        (Some("a=1?2&%20{}`"), Some("x'?/#y"), "file:///a%20b.html?a=1?2&%20{}`#x'?/#y"),
        (Some("a 'b'"), Some("c d"), "file:///a%20b.html?a%20%27b%27#c%20d"),
    ] {
        let resolution = inspecting("/a b.html", query, fragment);
        let answer = Answer::FileType(Ok(FileType::File));
        assert!(resolution.admits_answer(&answer));
        match resolution.answer(answer) {
            Step::Done(Ok(target)) => {
                assert_eq!(target.navigation_url, expected);
                assert_eq!(target.kind, TargetKind::LocalResource);
            }
            _ => panic!("it was not opened"),
        }
    }
}

#[test]
fn navigation_url_names_the_file() {
    for path in [
        "/",
        "/a",
        "/a b/%2e/é.html",
        "/x#y?z\\w/`{}^[]\"<>\t\n",
        "/...",
        "/~/%",
        "/a:b.html",
        "/a|b.html",
        "/C:/x",
        "/C|/x",
        "/C:/D|/x",
        "/C|x",
        "/C:x/..y",
        "/C:/é:",
        "/1:",
        "/|",
        "/a/:",
    ] {
        match inspecting(path, Some("q"), Some("f")).answer(Answer::FileType(Ok(FileType::File))) {
            Step::Done(Ok(target)) => {
                let url = url::Url::parse(&target.navigation_url).unwrap();
                assert_eq!(url.to_file_path().unwrap().to_str(), Some(path));
                assert_eq!(url.query(), Some("q"));
                assert_eq!(url.fragment(), Some("f"));
            }
            _ => panic!("it was not opened"),
        }
    }
}

#[test]
fn empty_query_and_fragment_are_kept() {
    let disk = Disk::with_files(&["/tmp/agent-browser-open-target/demo.html"]);
    let resolved =
        resolve("FILE:///tmp/agent-browser-open-target/demo.html?#", None, &disk).unwrap();
    assert_eq!(
        resolved.navigation_url,
        "file:///tmp/agent-browser-open-target/demo.html?#"
    );
    let resolved =
        resolve("file:///tmp/agent-browser-open-target/demo.html?a b#c`d", None, &disk).unwrap();
    assert_eq!(
        resolved.navigation_url,
        "file:///tmp/agent-browser-open-target/demo.html?a%20b#c%60d"
    );
}

#[test]
fn localhost_in_a_file_url_is_the_local_host() {
    let disk = Disk::with_files(&["/tmp/agent-browser-open-target/demo.html"]);
    let resolved =
        resolve("file://LocalHost/tmp/agent-browser-open-target/demo.html", None, &disk).unwrap();
    assert_eq!(
        resolved.navigation_url,
        "file:///tmp/agent-browser-open-target/demo.html"
    );
}

#[test]
fn localhost_means_no_host() {
    let disk = Disk::with_files(&["/tmp/agent-browser-open-target/demo.html"]);
    for rest in [
        "/tmp/agent-browser-open-target/demo.html",
        "/tmp/agent-browser-open-target/demo.html?a b#c",
        "//tmp/agent-browser-open-target/demo.html",
        "/tmp/agent-browser-open-target",
        "/missing",
        "/",
        "/C|/x",
    ] {
        let with = resolve(&format!("file://localhost{rest}"), None, &disk);
        let without = resolve(&format!("file://{rest}"), None, &disk);
        match (with, without) {
            (Ok(a), Ok(b)) => {
                assert_eq!(a.navigation_url, b.navigation_url, "{rest}");
                assert_eq!(a.kind, b.kind);
            }
            (Err(a), Err(b)) => {
                assert_eq!(a.code, b.code, "{rest}");
                assert_eq!(a.message, b.message, "{rest}");
            }
            _ => panic!("{rest}"),
        }
    }
}

#[test]
fn resolved_web_addresses_are_kept() {
    for input in [
        "example.com",
        "localhost:3000/a?b#c",
        "printer.local",
        "example.com:80",
        "localhost:443",
        "127.0.0.1:4\t43",
        "1user:secret@intranet/x y",
        "[::1]:8080",
        "HTTPS://EXAMPLE.com:443/a/../b?q=a%2Fb",
        "http:example.com",
        "bücher.local",
    ] {
        let first = resolve(input, None, &Disk::default()).unwrap();
        let second = resolve(&first.navigation_url, None, &Disk::default()).unwrap();
        assert_eq!(first.navigation_url, second.navigation_url, "{input}");
        assert_eq!(second.kind, TargetKind::Web);
    }
}

#[test]
fn windows_is_no_host() {
    assert!(HostOs::new("windows").is_none());
    assert_eq!(HostOs::new("macos").unwrap().name(), "macos");
    assert_eq!(HostOs::new("Windows").unwrap().name(), "Windows");
}

#[test]
fn path_that_ends_like_a_drive_gets_a_slash_in_its_url_read_back() {
    for (path, back) in [
        ("/C:", "/C:/"),
        ("/C|", "/C|/"),
        ("/a/b|", "/a/b|/"),
        ("/tmp/a:", "/tmp/a:/"),
    ] {
        match inspecting(path, None, None).answer(Answer::FileType(Ok(FileType::File))) {
            Step::Done(Ok(target)) => {
                assert_eq!(target.navigation_url, format!("file://{path}"));
                let url = url::Url::parse(&target.navigation_url).unwrap();
                assert_eq!(url.to_file_path().unwrap().to_str(), Some(back));
                assert_eq!(url.to_file_path().unwrap().as_path(), std::path::Path::new(path));
            }
            _ => panic!("it was not opened"),
        }
    }
}

#[test]
fn other_hosts_in_a_file_url_are_rejected() {
    let err = resolve("file://server/share/demo.html", None, &Disk::default()).unwrap_err();
    assert_eq!(err.code, "unsupported_file_host");
    assert_eq!(err.message, "File URL host is not supported on this platform: server");
    assert_eq!(keys(&err), vec!["open_target", "host", "host_platform"]);
    assert_eq!(detail_text(&err, "host"), "server");
    assert_eq!(detail_text(&err, "host_platform"), "linux");
}

#[test]
fn file_urls_that_cannot_be_read_are_rejected() {
    let err = resolve("file://[/demo.html", None, &Disk::default()).unwrap_err();
    assert_eq!(err.code, "invalid_file_url");
    assert_eq!(err.message, "Invalid file URL: invalid IPv6 address");
}

#[test]
fn web_urls_that_cannot_be_read_are_rejected() {
    let err = resolve("http://", None, &Disk::default()).unwrap_err();
    assert_eq!(err.code, "invalid_http_url");
    assert_eq!(err.message, "Invalid HTTP URL: empty host");
    assert_eq!(keys(&err), vec!["open_target", "scheme"]);
    assert_eq!(detail_text(&err, "scheme"), "http");
    let err = resolve("https://a b", None, &Disk::default()).unwrap_err();
    assert_eq!(err.message, "Invalid HTTPS URL: invalid international domain name");
    let err = resolve("a b", None, &Disk::default()).unwrap_err();
    assert_eq!(err.code, "invalid_open_target");
    assert_eq!(
        err.message,
        "Open Target is neither a valid local path nor a valid web address: \
         invalid international domain name"
    );
}

#[test]
fn web_targets_ask_nothing() {
    for input in ["example.com", "http://example.com", "host:8080", "mailto:x", "[::1]"] {
        assert!(matches!(resolve_open_target(input, None, linux()), Step::Done(_)));
    }
}

#[test]
fn home_is_put_in_for_a_tilde() {
    let request = |input: &str, home: Option<&str>| Request {
        input: input.to_string(),
        home: home.map(LocalPath::from_text),
        host_os: linux(),
    };
    let disk = Disk {
        directories: vec!["/home/alice"],
        files: vec!["/home/alice/demo.html"],
        ..Disk::default()
    };
    let resolved = run(request("~/demo.html", Some("/home/alice")).begin(None), &disk).unwrap();
    assert_eq!(resolved.navigation_url, "file:///home/alice/demo.html");
    let err = run(request("~", Some("/home/alice")).begin(None), &disk).unwrap_err();
    assert_eq!(err.code, "local_resource_not_file");
    let err = run(request("~/demo.html", None).begin(None), &disk).unwrap_err();
    assert_eq!(err.code, "home_directory_unavailable");
    assert_eq!(err.message, "Could not determine the current user's home directory");
}

#[test]
fn home_directory_of_the_user_is_looked_up() {
    let expected = dirs::home_dir();
    let step = resolve_open_target("~/no such file", None, linux());
    match (expected, step) {
        (Some(home), Step::Ask(resolution)) => match resolution.question() {
            Question::Exists(path) => {
                if let (Some(home), Some(path)) = (home.to_str(), path.to_text()) {
                    if home.starts_with('/') && !home.ends_with('/') {
                        assert_eq!(path, format!("{home}/no such file"));
                    }
                }
            }
            _ => assert!(!home.is_absolute()),
        },
        (Some(home), Step::Done(Err(err))) => {
            assert!(!home.is_absolute());
            assert_eq!(err.code, "missing_cwd");
        }
        (None, Step::Done(Err(err))) => assert_eq!(err.code, "home_directory_unavailable"),
        _ => panic!("the home directory was passed over"),
    }
}

#[test]
fn other_tildes_are_names() {
    let disk = Disk::with_files(&["/tmp/agent-browser-open-target/~bob"]);
    let resolved = resolve("~bob", Some(DIR), &disk).unwrap();
    assert_eq!(resolved.navigation_url, "file:///tmp/agent-browser-open-target/~bob");
}
