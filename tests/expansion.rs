use expander::{Action, Channel, Edition, Event, Expander, Expansion, RustFmt, RustfmtOutcome};

const STRUCT_X: &str = "pub struct X { x: [u8;32], }";

fn token_text(src: &str) -> String {
    src.parse::<proc_macro2::TokenStream>().expect("valid tokens").to_string()
}

fn pretty(text: &str) -> Option<String> {
    syn::parse_file(text).ok().map(|file| prettyplease::unparse(&file))
}

/// Drives an expansion whose lock is free, returning the written bytes and the output.
fn run_uncontended(cfg: &Expander, text: &str, prefix: &str, rustfmt: Option<RustfmtOutcome>) -> (String, Vec<u8>, String) {
    let (mut exp, mut action) = Expansion::start(cfg, text, prefix);
    let mut path = String::new();
    let mut written = Vec::new();
    loop {
        let event = match action {
            Action::PrettyPrint { text } => Event::Printed { output: pretty(&text) },
            Action::RunRustfmt { .. } => Event::Formatted { outcome: rustfmt.clone().expect("rustfmt outcome") },
            Action::Open { path: p } => {
                path = p;
                Event::Locked
            }
            Action::Write { bytes } => {
                written = bytes;
                Event::Written
            }
            Action::Wait => Event::Released,
            Action::Finish { output } => return (path, written, output),
            Action::Fail { error } => panic!("unexpected failure: {}", error.message()),
        };
        assert!(exp.accepts(&event));
        let next = exp.step(event);
        exp = next.0;
        action = next.1;
    }
}

#[test]
fn dry() {
    let ts = token_text(STRUCT_X);
    let cfg = Expander::new("foo")
        .add_comment(Some("This is generated code!".to_owned()))
        .fmt(Edition::_2021)
        .dry(true);
    let (exp, action) = Expansion::start(&cfg, &ts, "/out/foo");
    match action {
        Action::Finish { output } => assert_eq!(ts, output, "Dry does not alter the provided `TokenStream`. qed"),
        other => panic!("dry run asked for {:?}", other),
    }
    assert!(!exp.accepts(&Event::Locked));
    assert!(!exp.accepts(&Event::Written));
}

#[test]
fn basic() {
    let ts = token_text(STRUCT_X);
    let cfg = Expander::new("bar")
        .add_comment(Some("This is generated code!".to_owned()))
        .fmt(Edition::_2021);
    let (path, written, output) = run_uncontended(&cfg, &ts, "/out/bar", None);
    let s = token_text(&output);
    assert_ne!(s, ts);
    assert!(s.contains("include ! ("));
    assert!(output.contains(&path));
    let text = String::from_utf8(written).expect("utf-8");
    assert!(text.starts_with("/* This is generated code! */\n"));
    assert!(text.contains("pub struct X {\n"));
}

#[test]
fn test_formatting_errors() {
    let input = "struct Invalid { missing_semicolon }".as_bytes().to_vec();
    let failed = RustfmtOutcome::Failed { code: Some(1), stderr: "error: expected `:`".to_owned() };

    let result = expander::finish_rustfmt(&input, true, failed.clone());
    assert!(result.is_ok(), "Should not fail when allow_failure is true");
    assert_eq!(
        result.unwrap(),
        input,
        "Should return original content when formatting fails with allow_failure=true"
    );

    let result = expander::finish_rustfmt(&input, false, failed);
    assert!(result.is_err(), "Should fail when allow_failure is false");
    assert!(
        result.unwrap_err().message().contains("rustfmt failed"),
        "Error should mention rustfmt failure"
    );
}

#[test]
fn test_maybe_rustfmt_with_pretty_feature_failure() {
    let input = "struct Foo { invalid rust".to_string();
    assert!(pretty(&input).is_none());

    let cfg = Expander::new("foo").fmt_full(Channel::Default, Edition::_2021, true);
    let failed = RustfmtOutcome::Failed { code: Some(1), stderr: "error: this file contains an unclosed delimiter".to_owned() };
    let (_, written, _) = run_uncontended(&cfg, &input, "/out/foo", Some(failed));
    assert_eq!(String::from_utf8(written).expect("Invalid UTF-8"), input);

    let cfg = Expander::new("foo");
    let (_, written, _) = run_uncontended(&cfg, &input, "/out/foo", None);
    assert_eq!(String::from_utf8(written).expect("Invalid UTF-8"), input);
}

#[test]
fn test_maybe_rustfmt_with_pretty_feature_failure_strict() {
    let input = "struct Foo { invalid rust".to_string();
    let cfg = Expander::new("foo").fmt_full(Channel::Default, Edition::_2021, false);
    let (exp, action) = Expansion::start(&cfg, &input, "/out/foo");
    assert!(matches!(action, Action::PrettyPrint { .. }));
    let (exp, action) = exp.step(Event::Printed { output: None });
    assert!(matches!(action, Action::RunRustfmt { .. }));
    let failed = RustfmtOutcome::Failed { code: Some(1), stderr: String::new() };
    let (exp2, action) = exp.step(Event::Formatted { outcome: failed });
    match action {
        Action::Fail { error } => assert!(error.message().contains("rustfmt failed")),
        other => panic!("expected a failure, got {:?}", other),
    }
    assert!(!exp2.accepts(&Event::Locked));
}

#[test]
fn rustfmt_is_asked_for_unparsable_text() {
    let input = "struct Foo { invalid rust";
    let cfg = Expander::new("foo").fmt_full(Channel::Nightly, Edition::_2018, true);
    let (exp, action) = Expansion::start(&cfg, input, "/out/foo");
    match action {
        Action::PrettyPrint { text } => assert_eq!(text, input),
        other => panic!("expected the pretty-printer, got {:?}", other),
    }
    let (_, action) = exp.step(Event::Printed { output: pretty(input) });
    match action {
        Action::RunRustfmt { args, input: fed } => {
            assert_eq!(args, vec!["+nightly", "--edition=2018", "--emit=stdout", "--"]);
            assert_eq!(fed, input.as_bytes());
        }
        other => panic!("expected rustfmt, got {:?}", other),
    }
}

#[test]
fn rustfmt_output_is_what_gets_written() {
    let input = "struct Foo { invalid rust";
    let cfg = Expander::new("foo").fmt(Edition::_2021);
    let stdout = b"struct Foo {}\n".to_vec();
    let (path, written, _) = run_uncontended(&cfg, input, "/out/foo", Some(RustfmtOutcome::Formatted { stdout: stdout.clone() }));
    assert_eq!(written, stdout);
    assert_eq!(path, expander::destination_path("/out/foo", &stdout));
}

#[test]
fn unavailable_rustfmt_follows_policy() {
    let input = "struct Foo { invalid rust";
    let missing = RustfmtOutcome::Unavailable { reason: "No such file or directory (os error 2)".to_owned() };
    let cfg = Expander::new("foo").fmt_full(Channel::Default, Edition::_2021, true);
    let (_, written, _) = run_uncontended(&cfg, input, "/out/foo", Some(missing.clone()));
    assert_eq!(written, input.as_bytes());

    let cfg = Expander::new("foo").fmt(Edition::_2021);
    let (exp, _) = Expansion::start(&cfg, input, "/out/foo");
    let (exp, _) = exp.step(Event::Printed { output: None });
    match exp.step(Event::Formatted { outcome: missing }).1 {
        Action::Fail { error } => assert_eq!(error.message(), "rustfmt could not be started: No such file or directory (os error 2)"),
        other => panic!("expected a failure, got {:?}", other),
    }
}

#[test]
fn formatting_disabled_writes_text_as_is() {
    let text = "fn  f ( ) { }";
    let cfg = Expander::new("bar");
    let (path, written, output) = run_uncontended(&cfg, text, "/out/bar", None);
    assert_eq!(written, text.as_bytes());
    let name = path.strip_prefix("/out/bar-").expect("prefix");
    let hex = name.strip_suffix(".rs").expect("extension");
    assert_eq!(hex.len(), 12);
    assert!(hex.chars().all(|c| c.is_ascii_digit() || ('a'..='f').contains(&c)));
    assert_eq!(output, format!("include!(\"{}\");", path));
}

#[test]
fn header_precedes_content() {
    let cfg = Expander::new("bar").add_comment(Some("Test".to_owned()));
    let (_, written, _) = run_uncontended(&cfg, "struct Test;", "/out/bar", None);
    assert_eq!(written, b"/* Test */\nstruct Test;".to_vec());
}

#[test]
fn formatted_struct_is_multi_line() {
    let cfg = Expander::new("foo").fmt(Edition::_2021);
    let (path, written, output) = run_uncontended(&cfg, "struct Foo{x:i32,y:String}", "/out/foo", None);
    let text = String::from_utf8(written).expect("utf-8");
    assert!(text.contains("struct Foo {\n"));
    assert!(text.contains("    x: i32,\n"));
    assert!(text.contains("    y: String,\n"));
    assert!(text.contains("}\n"));
    assert!(output.contains("include!("));
    assert!(output.contains(&path));
}

#[test]
fn repeated_run_gives_same_path_and_bytes() {
    let cfg = Expander::new("bar").add_comment(Some("c".to_owned())).fmt(Edition::_2021);
    let first = run_uncontended(&cfg, "struct A{a:u8}", "/out/bar", None);
    let second = run_uncontended(&cfg, "struct A{a:u8}", "/out/bar", None);
    assert_eq!(first, second);
}

#[test]
fn contended_runs_wait_and_agree() {
    let cfg = Expander::new("bar").fmt(Edition::_2021);
    let text = "struct Shared{v:u64}";
    let (winner_path, written, winner_output) = run_uncontended(&cfg, text, "/out/bar", None);
    assert!(!written.is_empty());
    for _ in 0..3 {
        let (exp, _) = Expansion::start(&cfg, text, "/out/bar");
        let (exp, action) = exp.step(Event::Printed { output: pretty(text) });
        match action {
            Action::Open { path } => assert_eq!(path, winner_path),
            other => panic!("expected open, got {:?}", other),
        }
        let (exp, action) = exp.step(Event::Contended);
        assert!(matches!(action, Action::Wait));
        assert!(!exp.accepts(&Event::Written));
        let (_, action) = exp.step(Event::Released);
        match action {
            Action::Finish { output } => assert_eq!(output, winner_output),
            other => panic!("expected finish, got {:?}", other),
        }
    }
}

#[test]
fn different_texts_get_different_paths() {
    let cfg = Expander::new("bar");
    let (a, _, _) = run_uncontended(&cfg, "struct A;", "/out/bar", None);
    let (b, _, _) = run_uncontended(&cfg, "struct B;", "/out/bar", None);
    assert_ne!(a, b);
}

#[test]
fn builders_set_policy() {
    let cfg = Expander::new("x").fmt_full(Channel::Beta, Edition::_2015, true).verbose(true);
    assert!(cfg.is_verbose());
    assert!(!cfg.is_dry());
    assert_eq!(cfg.filename_base(), "x");
    assert_eq!(cfg.rustfmt(), RustFmt::Yes { edition: Edition::_2015, channel: Channel::Beta, allow_failure: true });
    let cfg = cfg.fmt(Edition::_2021);
    assert_eq!(cfg.rustfmt(), RustFmt::from(Edition::_2021));
    assert_eq!(cfg.header(), &None);
    let cfg = cfg.add_comment(Some("hi".to_owned()));
    assert_eq!(cfg.header(), &Some("/* hi */\n".to_owned()));
    assert_eq!(RustFmt::default(), RustFmt::No);
    assert_eq!(Expander::new("y").rustfmt(), RustFmt::No);
    let d = Expander::default();
    assert_eq!(d.filename_base(), "");
    assert!(!d.is_dry() && !d.is_verbose());
    assert_eq!(d.rustfmt(), RustFmt::No);
}

#[test]
fn printed_text_is_what_gets_written() {
    let cfg = Expander::new("foo").fmt(Edition::_2021);
    let (exp, _) = Expansion::start(&cfg, "struct A;", "/out/foo");
    let (exp, action) = exp.step(Event::Printed { output: Some("struct A;\n".to_owned()) });
    match action {
        Action::Open { path } => assert_eq!(path, expander::destination_path("/out/foo", b"struct A;\n")),
        other => panic!("expected open, got {:?}", other),
    }
    match exp.step(Event::Locked).1 {
        Action::Write { bytes } => assert_eq!(bytes, b"struct A;\n".to_vec()),
        other => panic!("expected write, got {:?}", other),
    }
}
