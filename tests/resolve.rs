use mailsend::cli::{read_options, resolve_plan, usage_brief, BodySource, CliArgs, RawOptions, ResolveError};
use mailsend::config::config_is_safe;
use mailsend::mailbox::Contact;

fn args(v: &[&str]) -> Vec<String> {
    v.iter().map(|s| s.to_string()).collect()
}

fn full() -> RawOptions {
    RawOptions {
        help: false,
        config: Some("mail.conf".to_string()),
        from: Some("Alice <a@example.com>".to_string()),
        to: Some("b@example.com".to_string()),
        subject: Some("Hi".to_string()),
        body: Some("A\\nB".to_string()),
        body_file: None,
    }
}

const CONFIG: &str = "Username alice\nPassword secret\nMailServer smtp.example.com\n";

#[test]
fn long_and_short_forms_are_read() {
    let raw = read_options(&args(&[
        "-c", "mail.conf", "--from", "a@example.com", "-t", "b@example.com", "--subject", "Hi",
        "-b", "text", "--body-file", "body.txt",
    ]))
    .unwrap();
    assert!(!raw.help);
    assert_eq!(raw.config.as_deref(), Some("mail.conf"));
    assert_eq!(raw.from.as_deref(), Some("a@example.com"));
    assert_eq!(raw.to.as_deref(), Some("b@example.com"));
    assert_eq!(raw.subject.as_deref(), Some("Hi"));
    assert_eq!(raw.body.as_deref(), Some("text"));
    assert_eq!(raw.body_file.as_deref(), Some("body.txt"));
}

#[test]
fn unknown_option_is_a_usage_error() {
    let r = read_options(&args(&["--nope", "x"]));
    assert!(matches!(r, Err(ResolveError::Usage(_))));
}

#[test]
fn option_without_value_is_a_usage_error() {
    let r = read_options(&args(&["--subject"]));
    assert!(matches!(r, Err(ResolveError::Usage(_))));
}

#[test]
fn help_stops_resolution() {
    let raw = read_options(&args(&["--help", "-s", "Hi"])).unwrap();
    assert!(raw.help);
    assert!(matches!(resolve_plan(&raw), Err(ResolveError::Help)));
    let mut r = full();
    r.help = true;
    assert!(matches!(resolve_plan(&r), Err(ResolveError::Help)));
    let short = read_options(&args(&["-h"])).unwrap();
    assert!(short.help);
}

#[test]
fn short_and_long_forms_agree() {
    let long = read_options(&args(&["--config", "m", "--from", "a@x.org", "--to", "b@x.org", "--subject", "S", "--body", "B"])).unwrap();
    let short = read_options(&args(&["-b", "B", "-s", "S", "-t", "b@x.org", "-f", "a@x.org", "-c", "m"])).unwrap();
    assert_eq!(long, short);
    assert!(!long.help);
}

#[test]
fn usage_line_names_the_program() {
    assert_eq!(usage_brief("mailsend"), "usage: mailsend FILE [options]");
}

#[test]
fn full_options_resolve_to_the_given_values() {
    let plan = resolve_plan(&full()).unwrap();
    assert_eq!(plan.config_path, "mail.conf");
    assert_eq!(plan.subject, "Hi");
    assert_eq!(plan.body, BodySource::Inline("A\\nB".to_string()));
    let a = CliArgs::complete(plan, Some(CONFIG.to_string()), None).unwrap();
    assert_eq!(a.config, CONFIG);
    assert_eq!(a.subject, "Hi");
    assert_eq!(a.body, "A\\nB");
    assert_eq!(a.from.address(), "a@example.com");
    assert_eq!(a.to.address(), "b@example.com");
}

#[test]
fn each_missing_input_fails() {
    let mut r = full();
    r.config = None;
    assert!(matches!(resolve_plan(&r), Err(ResolveError::MissingConfig)));
    let mut r = full();
    r.from = None;
    assert!(matches!(resolve_plan(&r), Err(ResolveError::MissingFrom)));
    let mut r = full();
    r.to = None;
    assert!(matches!(resolve_plan(&r), Err(ResolveError::MissingTo)));
    let mut r = full();
    r.subject = None;
    assert!(matches!(resolve_plan(&r), Err(ResolveError::MissingSubject)));
    let mut r = full();
    r.body = None;
    r.body_file = None;
    assert!(matches!(resolve_plan(&r), Err(ResolveError::MissingBody)));
}

#[test]
fn bad_mailboxes_are_reported() {
    let mut r = full();
    r.from = Some("not a mailbox".to_string());
    assert!(matches!(resolve_plan(&r), Err(ResolveError::BadFrom(_))));
    let mut r = full();
    r.to = Some("nobody".to_string());
    assert!(matches!(resolve_plan(&r), Err(ResolveError::BadTo(_))));
}

#[test]
fn inline_body_wins_over_body_file() {
    let mut r = full();
    r.body_file = Some("somefile.txt".to_string());
    let plan = resolve_plan(&r).unwrap();
    assert_eq!(plan.body, BodySource::Inline("A\\nB".to_string()));
    let a = CliArgs::complete(plan, Some(CONFIG.to_string()), Some("ignored".to_string())).unwrap();
    assert_eq!(a.body, "A\\nB");
}

#[test]
fn body_file_is_taken_verbatim() {
    let mut r = full();
    r.body = None;
    r.body_file = Some("body.txt".to_string());
    let plan = resolve_plan(&r).unwrap();
    assert_eq!(plan.body, BodySource::File("body.txt".to_string()));
    let a = CliArgs::complete(plan, Some(CONFIG.to_string()), Some("Hello\nWorld".to_string())).unwrap();
    assert_eq!(a.body, "Hello\nWorld");
}

#[test]
fn unreadable_files_fail() {
    let plan = resolve_plan(&full()).unwrap();
    assert!(matches!(CliArgs::complete(plan, None, None), Err(ResolveError::ConfigUnreadable)));
    let mut r = full();
    r.body = None;
    r.body_file = Some("body.txt".to_string());
    let plan = resolve_plan(&r).unwrap();
    assert!(matches!(
        CliArgs::complete(plan, Some(CONFIG.to_string()), None),
        Err(ResolveError::BodyUnreadable)
    ));
}

#[test]
fn malformed_config_fails() {
    for text in ["Username alice\n \tPassword x\n", "\tUsername alice\n", "# note\n\tUsername alice\n", "Username\r alice\n\rX\n"] {
        let plan = resolve_plan(&full()).unwrap();
        let r = CliArgs::complete(plan, Some(text.to_string()), None);
        assert!(matches!(r, Err(ResolveError::ConfigInvalid)), "{:?}", text);
    }
}

#[test]
fn config_with_comments_is_accepted() {
    let text = "# mail settings\n\nUsername alice\n\t# nested note\nPassword secret\r\nMailServer smtp.example.com\n";
    assert!(config_is_safe(text));
    let plan = resolve_plan(&full()).unwrap();
    assert!(CliArgs::complete(plan, Some(text.to_string()), None).is_ok());
}

#[test]
fn config_safety_check() {
    assert!(config_is_safe(""));
    assert!(config_is_safe("Key value\n\tChild v\n"));
    assert!(!config_is_safe("\n  Key value\n"));
    assert!(!config_is_safe("# note\n\tKey value\n"));
    assert!(!config_is_safe("Key value\n\rChild v\n"));
    assert!(!config_is_safe("Key value\n \u{c}Child v\n"));
    assert!(config_is_safe("\tKey value\n"));
    assert!(config_is_safe("K v\u{c}"));
    assert!(config_is_safe("Key value\r"));
    assert!(config_is_safe("\u{e9} v\n\tx y"));
    assert!(config_is_safe("\n\r\n \u{c}\nKey value\n\tChild v\n"));
}

#[test]
fn config_with_odd_characters_is_accepted() {
    for text in ["Username a\u{c}b\nPassword secret\nMailServer smtp.example.com\n", "\u{e9} v\n\tx y\nUsername alice\n"] {
        let plan = resolve_plan(&full()).unwrap();
        assert!(CliArgs::complete(plan, Some(text.to_string()), None).is_ok(), "{:?}", text);
    }
}

#[test]
fn mailbox_with_and_without_name() {
    let from = Contact::parse("Alice <a@example.com>").unwrap();
    assert_eq!(from.name().as_deref(), Some("Alice"));
    assert_eq!(from.address(), "a@example.com");
    let to = Contact::parse("b@example.com").unwrap();
    assert_eq!(to.name(), None);
    assert_eq!(to.address(), "b@example.com");
    assert!(Contact::parse("no at sign").is_err());
}

#[test]
fn parse_resolves_a_full_command_line() {
    let a = CliArgs::parse(
        &args(&["-c", "mail.conf", "-f", "Alice <a@example.com>", "--to", "b@example.com", "-s", "Hi", "--body-file", "b.txt"]),
        Some(CONFIG.to_string()),
        Some("Hello\nWorld".to_string()),
    )
    .unwrap();
    assert_eq!(a.from.name().as_deref(), Some("Alice"));
    assert_eq!(a.from.address(), "a@example.com");
    assert_eq!(a.to.name(), None);
    assert_eq!(a.subject, "Hi");
    assert_eq!(a.body, "Hello\nWorld");
    assert_eq!(a.config, CONFIG);
}

#[test]
fn parse_inline_body_wins() {
    let a = CliArgs::parse(
        &args(&["-c", "m", "-f", "a@example.com", "-t", "b@example.com", "-s", "Hi", "--body", "A\\nB", "--body-file", "somefile.txt"]),
        Some(CONFIG.to_string()),
        Some("ignored".to_string()),
    )
    .unwrap();
    assert_eq!(a.body, "A\\nB");
}

#[test]
fn parse_reports_each_missing_field() {
    let full = ["-c", "m", "-f", "a@example.com", "-t", "b@example.com", "-s", "Hi", "-b", "x"];
    let cases: [(usize, fn(&ResolveError) -> bool); 5] = [
        (0, |e| matches!(e, ResolveError::MissingConfig)),
        (2, |e| matches!(e, ResolveError::MissingFrom)),
        (4, |e| matches!(e, ResolveError::MissingTo)),
        (6, |e| matches!(e, ResolveError::MissingSubject)),
        (8, |e| matches!(e, ResolveError::MissingBody)),
    ];
    for (drop, expected) in cases {
        let mut v: Vec<&str> = full.to_vec();
        v.drain(drop..drop + 2);
        let r = CliArgs::parse(&args(&v), Some(CONFIG.to_string()), None);
        match r {
            Err(e) => assert!(expected(&e), "{:?}", e),
            Ok(_) => panic!("resolved without {}", full[drop]),
        }
    }
}

#[test]
fn parse_stops_on_help_and_bad_flags() {
    let r = CliArgs::parse(&args(&["-s", "Hi", "--help"]), Some(CONFIG.to_string()), None);
    assert!(matches!(r, Err(ResolveError::Help)));
    let r = CliArgs::parse(&args(&["--bogus"]), None, None);
    assert!(matches!(r, Err(ResolveError::Usage(_))));
    let r = CliArgs::parse(&args(&["-c", "m", "-s"]), None, None);
    assert!(matches!(r, Err(ResolveError::Usage(_))));
}
