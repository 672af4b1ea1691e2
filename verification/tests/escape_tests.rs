use ninja_writer::{escape, escape_build, escape_path};

fn run_test_on_all(input: &str, output: &str) {
    assert_eq!(escape(input), output);
    assert_eq!(escape_path(input), output);
    assert_eq!(escape_build(input), output);
}

fn run_test_space(input: &str, output_no_escape_space: &str, output: &str) {
    assert_eq!(escape(input), output_no_escape_space);
    assert_eq!(escape_path(input), output);
    assert_eq!(escape_build(input), output);
}

fn run_test_colon_no_space(input: &str, output_no_escape_colon: &str, output: &str) {
    assert_eq!(escape(input), output_no_escape_colon);
    assert_eq!(escape_path(input), output_no_escape_colon);
    assert_eq!(escape_build(input), output);
}

#[test]
fn util_test_empty() {
    run_test_on_all("", "");
}

#[test]
fn test_no_escape() {
    run_test_on_all("foo", "foo");
    run_test_on_all("foo,bar", "foo,bar");
}

#[test]
fn test_newline() {
    run_test_on_all("foo\nbar", "foo$\nbar");
    run_test_on_all("foo$\nbar", "foo$$$\nbar");
    run_test_on_all("\nfoobar\n", "$\nfoobar$\n");
}

#[test]
fn test_dollar() {
    run_test_on_all("foo$$bar", "foo$$$$bar");
    run_test_on_all("foo$bar", "foo$$bar");
    run_test_on_all("$foobar$", "$$foobar$$");
}

#[test]
fn test_space() {
    run_test_space("foo bar", "foo bar", "foo$ bar");
    run_test_space(" foo bar ", " foo bar ", "$ foo$ bar$ ");
    run_test_space("foo  bar", "foo  bar", "foo$ $ bar");
    run_test_space("foo\nb a r$baz", "foo$\nb a r$$baz", "foo$\nb$ a$ r$$baz");
}

#[test]
fn test_colon() {
    run_test_colon_no_space("foo:bar", "foo:bar", "foo$:bar");
    run_test_colon_no_space("foo::bar", "foo::bar", "foo$:$:bar");
    run_test_colon_no_space("$foo:bar\n", "$$foo:bar$\n", "$$foo$:bar$\n");
}

#[test]
fn test_all() {
    let input = "foo$\nb ar$$baz$:$qux";
    assert_eq!(escape(input), "foo$$$\nb ar$$$$baz$$:$$qux");
    assert_eq!(escape_path(input), "foo$$$\nb$ ar$$$$baz$$:$$qux");
    assert_eq!(escape_build(input), "foo$$$\nb$ ar$$$$baz$$$:$$qux");

    let input = "\u{4f60}he llo\u{597d}$\nb: ";
    assert_eq!(escape(input), "\u{4f60}he llo\u{597d}$$$\nb: ");
    assert_eq!(escape_path(input), "\u{4f60}he$ llo\u{597d}$$$\nb:$ ");
    assert_eq!(escape_build(input), "\u{4f60}he$ llo\u{597d}$$$\nb$:$ ");
}

// The documented examples for the three policies.
#[test]
fn escape_policy_examples() {
    assert_eq!(escape("$foo"), "$$foo");
    assert_eq!(escape_path("foo bar"), "foo$ bar");
    assert_eq!(escape_build("foo: bar"), "foo$:$ bar");
}

// Inputs free of every escaped character come back unchanged.
#[test]
fn escape_safe_input_unchanged() {
    assert_eq!(escape("abc-def_123,\u{4f60}\u{597d}"), "abc-def_123,\u{4f60}\u{597d}");
    assert_eq!(escape_path("plain.o"), "plain.o");
    assert_eq!(escape_build("plain.o"), "plain.o");
    // The plain policy leaves spaces and colons alone.
    assert_eq!(escape("a b:c"), "a b:c");
}

fn is_escaped_class(c: char, space: bool, colon: bool) -> bool {
    c == '$' || c == '\n' || (c == ' ' && space) || (c == ':' && colon)
}

fn unescape(s: &str, space: bool, colon: bool) -> String {
    let cs: Vec<char> = s.chars().collect();
    let mut out = String::new();
    let mut i = 0;
    while i < cs.len() {
        if cs[i] == '$' && i + 1 < cs.len() && is_escaped_class(cs[i + 1], space, colon) {
            out.push(cs[i + 1]);
            i += 2;
        } else {
            out.push(cs[i]);
            i += 1;
        }
    }
    out
}

// Removing every marker that escaping inserted reconstructs the input.
#[test]
fn escape_round_trip_examples() {
    let inputs = [
        "",
        "$",
        "$$$",
        "foo$\nb ar$$baz$:$qux",
        "\u{4f60}he llo\u{597d}$\nb: ",
        "a b:c\nd$ e",
    ];
    for input in inputs {
        assert_eq!(unescape(&escape(input), false, false), input);
        assert_eq!(unescape(&escape_path(input), true, false), input);
        assert_eq!(unescape(&escape_build(input), true, true), input);
    }
}

// Each policy escapes a superset of the characters of the one before it.
#[test]
fn escape_policy_superset() {
    let input = "$ :\nx";
    let plain = escape(input);
    let path = escape_path(input);
    let build = escape_build(input);
    assert_eq!(plain, "$$ :$\nx");
    assert_eq!(path, "$$$ :$\nx");
    assert_eq!(build, "$$$ $:$\nx");
    assert!(plain.len() <= path.len());
    assert!(path.len() <= build.len());
    // Every character escaped by the plain policy is escaped by the
    // path policy, and so on.
    for c in ['$', '\n'] {
        assert!(escape(&c.to_string()).starts_with('$'));
        assert!(escape_path(&c.to_string()).starts_with('$'));
        assert!(escape_build(&c.to_string()).starts_with('$'));
    }
    assert!(escape_path(" ").starts_with('$'));
    assert!(escape_build(" ").starts_with('$'));
    assert!(escape_build(":").starts_with('$'));
}
