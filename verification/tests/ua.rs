use linehaul::ua::rules::{rules, Handler, RULE_COUNT};
use linehaul::ua::{
    apply, group_names, parse, Distro, Implementation, Installer, LibC, Outcome, System,
    UserAgent, UserAgentParser,
};

fn classify(input: &str) -> Outcome {
    UserAgentParser::new().unwrap().classify(input)
}

fn text(s: &str) -> Option<String> {
    Some(s.to_string())
}

fn installer(name: &str, version: Option<&str>) -> UserAgent {
    UserAgent {
        installer: Some(Installer { name: text(name), version: version.map(|v| v.to_string()) }),
        ..Default::default()
    }
}

fn structured(input: &str) -> UserAgent {
    match classify(input) {
        Outcome::Structured(ua) => ua,
        other => panic!("{:?} for {:?}", other, input),
    }
}

#[test]
fn defaults_are_empty() {
    let ua = UserAgent::default();
    assert_eq!(ua.installer, None);
    assert_eq!(ua.python, None);
    assert_eq!(ua.implementation, None);
    assert_eq!(ua.distro, None);
    assert_eq!(ua.system, None);
    assert_eq!(ua.cpu, None);
    assert_eq!(ua.openssl_version, None);
    assert_eq!(ua.setuptools_version, None);
    assert_eq!(Installer::default(), Installer { name: None, version: None });
    assert_eq!(Implementation::default(), Implementation { name: None, version: None });
    assert_eq!(System::default(), System { name: None, release: None });
    assert_eq!(Distro::default(), Distro { name: None, version: None, id: None, libc: None });
}

#[test]
fn the_table_has_its_rules_in_order() {
    let table = rules();
    assert_eq!(table.len(), RULE_COUNT);
    assert!(matches!(table[0].handler, Handler::Details));
    assert!(matches!(table[1].handler, Handler::Legacy));
    assert!(matches!(table[RULE_COUNT - 1].handler, Handler::Ignore));
    let first_ignore = table.iter().position(|r| matches!(r.handler, Handler::Ignore)).unwrap();
    assert!(table[first_ignore..].iter().all(|r| matches!(r.handler, Handler::Ignore)));
    assert_eq!(table.len() - first_ignore, 30);
}

#[test]
fn pip_with_a_record() {
    let input = r#"pip/18.0 {"cpu":"x86_64","distro":{"id":"bionic","libc":{"lib":"glibc","version":"2.27"},"name":"Ubuntu","version":"18.04"},"implementation":{"name":"CPython","version":"3.6.5"},"installer":{"name":"pip","version":"18.0"},"openssl_version":"OpenSSL 1.1.0g  2 Nov 2017","python":"3.6.5","setuptools_version":"39.1.0","system":{"name":"Linux","release":"4.15.0"}}"#;
    let expected = UserAgent {
        installer: Some(Installer { name: text("pip"), version: text("18.0") }),
        python: text("3.6.5"),
        implementation: Some(Implementation { name: text("CPython"), version: text("3.6.5") }),
        distro: Some(Distro {
            name: text("Ubuntu"),
            version: text("18.04"),
            id: text("bionic"),
            libc: Some(LibC { lib: text("glibc"), version: text("2.27") }),
        }),
        system: Some(System { name: text("Linux"), release: text("4.15.0") }),
        cpu: text("x86_64"),
        openssl_version: text("OpenSSL 1.1.0g  2 Nov 2017"),
        setuptools_version: text("39.1.0"),
    };
    assert_eq!(classify(input), Outcome::Structured(expected.clone()));
    assert_eq!(parse(input).unwrap(), Some(expected));
}

#[test]
fn pip_with_a_sparse_record() {
    let ua = structured(r#"pip/6.0 {"installer":{"name":"pip"},"python":null,"other":[1,2]}"#);
    assert_eq!(
        ua,
        UserAgent {
            installer: Some(Installer { name: text("pip"), version: None }),
            ..Default::default()
        }
    );
    assert_eq!(structured("pip/6.0 {}"), UserAgent::default());
}

#[test]
fn pip_with_a_record_written_as_arrays() {
    let ua = structured(r#"pip/6.0 [["pip","6.0"],"2.7",null,["Debian","8",null,["glibc",null]],null,"x86",null,null]"#);
    assert_eq!(
        ua,
        UserAgent {
            installer: Some(Installer { name: text("pip"), version: text("6.0") }),
            python: text("2.7"),
            distro: Some(Distro {
                name: text("Debian"),
                version: text("8"),
                id: None,
                libc: Some(LibC { lib: text("glibc"), version: None }),
            }),
            cpu: text("x86"),
            ..Default::default()
        }
    );
}

#[test]
fn pip_with_a_record_of_the_wrong_shape_is_not_recognized() {
    assert_eq!(classify(r#"pip/6.0 {"python":3}"#), Outcome::Unrecognized);
    assert_eq!(classify(r#"pip/6.0 {"installer":"pip"}"#), Outcome::Unrecognized);
    assert_eq!(classify(r#"pip/6.0 {"installer":{"name":1}}"#), Outcome::Unrecognized);
    assert_eq!(classify(r#"pip/6.0 {"distro":{"libc":{"lib":[]}}}"#), Outcome::Unrecognized);
    assert_eq!(classify(r#"pip/6.0 ["pip"]"#), Outcome::Unrecognized);
    assert_eq!(classify(r#"pip/6.0 null"#), Outcome::Unrecognized);
    assert_eq!(classify(r#"pip/6.0 "text""#), Outcome::Unrecognized);
    assert_eq!(classify(r#"pip/6.0 {"python":"3.6""#), Outcome::Unrecognized);
    assert_eq!(classify(r#"pip/6.0 {"python":"3.6"} trailing"#), Outcome::Unrecognized);
}

#[test]
fn a_record_that_does_not_decode_leaves_the_agent_to_later_rules() {
    let ua = structured("pip/1.4.1 CPython/2.7.6 Linux/3.13.0");
    assert_eq!(ua.installer, Some(Installer { name: text("pip"), version: text("1.4.1") }));
    let ua = structured("pip/6.0 {not json} curl/7");
    assert_eq!(ua, installer("Browser", None));
}

#[test]
fn older_pip() {
    let ua = structured("pip/21.0 CPython/3.9.0 Linux/5.4");
    assert_eq!(
        ua,
        UserAgent {
            installer: Some(Installer { name: text("pip"), version: text("21.0") }),
            python: text("3.9.0"),
            implementation: Some(Implementation { name: text("CPython"), version: text("3.9.0") }),
            system: Some(System { name: text("Linux"), release: text("5.4") }),
            ..Default::default()
        }
    );
}

#[test]
fn older_pip_python_only_for_cpython() {
    assert_eq!(structured("pip/1.5 cPyThOn/2.7 Linux/3.0").python, text("2.7"));
    assert_eq!(structured("pip/1.5 CPYTHON/2.7 Linux/3.0").python, text("2.7"));
    assert_eq!(structured("pip/1.5 PyPy/2.7 Linux/3.0").python, None);
    assert_eq!(structured("pip/1.5 cpython3/2.7 Linux/3.0").python, None);
    let ua = structured("pip/1.5 PyPy/5.1 Linux/3.0");
    assert_eq!(
        ua.implementation,
        Some(Implementation { name: text("PyPy"), version: text("5.1") })
    );
}

#[test]
fn older_pip_unknown_is_absent() {
    let ua = structured("pip/1.5 Unknown/UNKNOWN unknown/uNkNoWn");
    assert_eq!(ua.installer, Some(Installer { name: text("pip"), version: text("1.5") }));
    assert_eq!(ua.implementation, Some(Implementation { name: None, version: None }));
    assert_eq!(ua.system, Some(System { name: None, release: None }));
    assert_eq!(ua.python, None);
    let ua = structured("pip/1.5 CPython/unknown Linux/unknown");
    assert_eq!(ua.implementation, Some(Implementation { name: text("CPython"), version: None }));
    assert_eq!(ua.system, Some(System { name: text("Linux"), release: None }));
    assert_eq!(ua.python, text("unknown"));
    let ua = structured("pip/1.5 CPython/unknownx Linux/xunknown");
    assert_eq!(
        ua.implementation,
        Some(Implementation { name: text("CPython"), version: text("unknownx") })
    );
    assert_eq!(ua.system, Some(System { name: text("Linux"), release: text("xunknown") }));
}

#[test]
fn captured_text_keeps_its_case() {
    let ua = structured("pip/1.5RC CPYTHON/2.7B LiNuX/3.0-X");
    assert_eq!(ua.installer, Some(Installer { name: text("pip"), version: text("1.5RC") }));
    assert_eq!(
        ua.implementation,
        Some(Implementation { name: text("CPYTHON"), version: text("2.7B") })
    );
    assert_eq!(ua.system, Some(System { name: text("LiNuX"), release: text("3.0-X") }));
    assert_eq!(ua.python, text("2.7B"));
}

#[test]
fn installers_on_urllib() {
    let mut expected = installer("distribute", Some("0.6.21"));
    expected.python = text("2.7");
    assert_eq!(structured("Python-urllib/2.7 distribute/0.6.21"), expected);
    let mut expected = installer("setuptools", Some("18.0.1"));
    expected.python = text("3.4");
    assert_eq!(structured("Python-urllib/3.4 setuptools/18.0.1"), expected);
    assert_eq!(structured("setuptools/18.0.1 Python-urllib/3.4"), expected);
}

#[test]
fn installers_with_a_version() {
    assert_eq!(structured("pex/1.2.3"), installer("pex", Some("1.2.3")));
    assert_eq!(structured("something pex/1.2.3"), installer("pex", Some("1.2.3")));
    assert_eq!(structured("conda/4.3.16 requests/2.12.4"), installer("conda", Some("4.3.16")));
    assert_eq!(structured("conda/4.3.16"), installer("conda", Some("4.3.16")));
    assert_eq!(structured("Bazel/0.10.0"), installer("Bazel", Some("0.10.0")));
    assert_eq!(structured("Bazel/release 0.10.0"), installer("Bazel", Some("0.10.0")));
    assert_eq!(
        structured("bandersnatch/2.2.1 (cpython 3.6.5-final0, Linux x86_64)"),
        installer("bandersnatch", Some("2.2.1"))
    );
    assert_eq!(
        structured("devpi-server/4.5.0 (py3.6.5; linux)"),
        installer("devpi", Some("4.5.0"))
    );
    assert_eq!(structured("z3c.pypimirror/1.0.16"), installer("z3c.pypimirror", Some("1.0.16")));
    assert_eq!(structured("Artifactory/5.10.3"), installer("Artifactory", Some("5.10.3")));
    assert_eq!(structured("Nexus/3.9.0-01 (OSS; Linux)"), installer("Nexus", Some("3.9.0-01")));
    assert_eq!(structured("pep381client/1.5"), installer("pep381client", Some("1.5")));
    assert_eq!(structured("pep381client-proxy/1.5"), installer("pep381client", Some("1.5")));
}

#[test]
fn homebrew() {
    let mut expected = installer("Homebrew", Some("1.6.9"));
    expected.distro =
        Some(Distro { name: text("OS X"), version: text("10.13.5"), id: None, libc: None });
    assert_eq!(
        structured("Homebrew/1.6.9 (Macintosh; Intel Mac OS X 10.13.5) curl/7.54.0"),
        expected
    );
    let mut expected = installer("Homebrew", Some("2.0"));
    expected.distro =
        Some(Distro { name: text("OS X"), version: text("10.14"), id: None, libc: None });
    assert_eq!(structured("Homebrew/2.0 (Macintosh; Intel macOS 10.14)"), expected);
}

#[test]
fn tools_of_an_operating_system() {
    let parser = UserAgentParser::new().unwrap();
    for input in [
        "fetch libfetch/2.0",
        "libfetch/2.0",
        "OpenBSD ftp",
        "MacPorts/2.4",
        "MacPorts",
        "NetBSD-ftp/20100108",
        "slapt-get",
        "pypi-install/0.6.2",
        "slackrepo",
        "PTXdist",
        "GARstow/0.1",
        "xbps/0.51",
    ] {
        assert_eq!(
            parser.classify(input),
            Outcome::Structured(installer("OS", None)),
            "{}",
            input
        );
    }
}

#[test]
fn browsers_and_clients() {
    let parser = UserAgentParser::new().unwrap();
    for input in [
        "Python-urllib/3.6",
        "python-requests/2.18.4",
        "python-requests/2.18.4 CPython/3.6",
        "Mozilla/5.0 (X11; Linux x86_64)",
        "mozilla",
        "Safari/537",
        "Wget/1.19",
        "curl/7.54.0",
        "Opera/9.80",
        "aria2/1.33",
        "AndroidDownloadManager/7.0",
        "com.apple.WebKit.Networking/8605",
        "FDM 3.x",
        "URL/Emacs",
        "Firefox/60",
        "UCWEB/2.0",
        "Links (2.14; Linux)",
        "okhttp/3.10.0",
        "Apache-HttpClient/4.5 (Java/1.8)",
        "excon/0.62.0",
    ] {
        assert_eq!(
            parser.classify(input),
            Outcome::Structured(installer("Browser", None)),
            "{}",
            input
        );
    }
}

#[test]
fn ignored_agents() {
    let parser = UserAgentParser::new().unwrap();
    for input in [
        "Datadog Agent/5.21",
        "(null)",
        "WordPress/4.9; https://example.com",
        "Chef Client/12.1",
        "Chef Knife/12.1",
        "Ruby",
        "Slackbot-LinkExpanding 1.0",
        "TextualInlineMedia/1.0",
        "WeeChat/2.1",
        "Download Master",
        "Java/1.8.0",
        "Go 1.1 package http",
        "Go-http-client/1.1",
        "GNU Guile",
        "github-olee",
        "YisouSpider",
        "Apache Ant/1.9",
        "Salt/2018.3",
        "ansible-httpget",
        "ltx71 - (http://ltx71.com/)",
        "Scrapy/1.5 (+https://scrapy.org)",
        "spectool/1.0",
        "Apache-Nutch/1.14",
        "AWSBrewLinkChecker/1.0",
        "Y!J-ASR/0.1 crawler",
        "Debian uscan 2.18",
        "Pingdom.com_bot_version_1.4_(http://www.pingdom.com/)",
        "MauiBot (crawler.feedback+dc@gmail.com)",
        "smartiproxy/1",
        "Apache-Maven/3.5",
    ] {
        assert_eq!(parser.classify(input), Outcome::Ignored, "{}", input);
        assert_eq!(parser.parse(input).unwrap(), None, "{}", input);
    }
    assert_eq!(parse("Java/1.8.0").unwrap(), None);
}

#[test]
fn a_specific_rule_wins_over_the_rules_that_ignore() {
    assert_eq!(structured("Java/1.8 curl/7"), installer("Browser", None));
    assert_eq!(structured("Nutch pex/1.0"), installer("pex", Some("1.0")));
    assert_eq!(structured("Scrapy/1.5 Mozilla"), installer("Browser", None));
    assert_eq!(structured("NSIS_Inetc (Mozilla)"), installer("Browser", None));
}

#[test]
fn earlier_rules_win_over_later_ones() {
    assert_eq!(structured("conda/4.3 curl/7.1"), installer("conda", Some("4.3")));
    assert_eq!(structured("Artifactory/5.1"), installer("Artifactory", Some("5.1")));
    assert_eq!(structured("MacPorts/2 curl/7"), installer("OS", None));
}

#[test]
fn unrecognized_agents() {
    let parser = UserAgentParser::new().unwrap();
    for input in ["", " ", "something else entirely", "pip", "pip/", "Bazel", "ruby", "conda"] {
        assert_eq!(parser.classify(input), Outcome::Unrecognized, "{:?}", input);
        assert_eq!(parser.parse(input).unwrap_err().ua(), input);
        let error = parse(input).unwrap_err();
        assert_eq!(error.ua(), input);
        assert_eq!(error.description(), "Unknown or invalid user agent");
    }
}

#[test]
fn classification_is_a_function_of_the_agent() {
    for input in [
        "pip/21.0 CPython/3.9.0 Linux/5.4",
        r#"pip/18.0 {"cpu":"x86_64","python":"3.6.5"}"#,
        "Homebrew/1.6.9 (Macintosh; Intel Mac OS X 10.13.5) curl/7.54.0",
        "curl/7.54.0",
        "Java/1.8",
        "no such agent",
    ] {
        let parser = UserAgentParser::new().unwrap();
        let other = UserAgentParser::new().unwrap();
        assert_eq!(parser.classify(input), parser.classify(input));
        assert_eq!(parser.classify(input), other.classify(&input.to_string()));
        assert_eq!(parser.parse(input), parse(input));
        assert_eq!(parse(input), parse(input));
    }
}

#[test]
fn handlers_name_the_groups_that_they_read() {
    assert_eq!(group_names(Handler::Details), vec!["data"]);
    assert_eq!(
        group_names(Handler::Legacy),
        vec!["version", "impl_name", "impl_version", "system_name", "system_release"]
    );
    assert_eq!(group_names(Handler::WithPython("x")), vec!["version", "python"]);
    assert_eq!(group_names(Handler::Versioned("x")), vec!["version"]);
    assert_eq!(group_names(Handler::Homebrew), vec!["version", "osx_version"]);
    assert!(group_names(Handler::Labelled("x")).is_empty());
    assert!(group_names(Handler::Ignore).is_empty());
}

#[test]
fn handlers_answer_the_groups_of_a_match() {
    assert_eq!(
        apply(Handler::Versioned("pex"), &vec![text("1.0")]),
        Outcome::Structured(installer("pex", Some("1.0")))
    );
    assert_eq!(apply(Handler::Labelled("OS"), &vec![]), Outcome::Structured(installer("OS", None)));
    assert_eq!(apply(Handler::Ignore, &vec![]), Outcome::Ignored);
    assert_eq!(
        apply(Handler::Details, &vec![text(r#"{"python":"3.7"}"#)]),
        Outcome::Structured(UserAgent { python: text("3.7"), ..Default::default() })
    );
    assert_eq!(apply(Handler::Details, &vec![text("{")]), Outcome::Unrecognized);
}

#[test]
fn handlers_decline_where_a_group_is_missing() {
    assert_eq!(apply(Handler::Versioned("pex"), &vec![None]), Outcome::Unrecognized);
    assert_eq!(apply(Handler::Versioned("pex"), &vec![]), Outcome::Unrecognized);
    assert_eq!(
        apply(Handler::Versioned("pex"), &vec![text("1"), text("2")]),
        Outcome::Unrecognized
    );
    assert_eq!(apply(Handler::Homebrew, &vec![text("1"), None]), Outcome::Unrecognized);
    assert_eq!(apply(Handler::Ignore, &vec![text("1")]), Outcome::Unrecognized);
    assert_eq!(
        apply(Handler::Legacy, &vec![text("1"), text("2"), text("3"), text("4")]),
        Outcome::Unrecognized
    );
}
