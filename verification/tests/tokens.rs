use lua_driver::args::{has_marker, read_option, OptionToken};
use lua_driver::text::{ends_with, join3, skip_chars, starts_with, strip_newline};

fn kind_name(token: &str) -> String {
    match read_option(token) {
        OptionToken::Script => format!("script"),
        OptionToken::StopOptions => format!("stop"),
        OptionToken::IgnoreEnv => format!("ignore-env"),
        OptionToken::Interactive => format!("interactive"),
        OptionToken::Version => format!("version"),
        OptionToken::ExecuteInline(code) => format!("execute:{}", code),
        OptionToken::ExecuteNext => format!("execute-next"),
        OptionToken::LibraryInline(name) => format!("library:{}", name),
        OptionToken::LibraryNext => format!("library-next"),
        OptionToken::Bad => format!("bad"),
    }
}

#[test]
fn marker_is_seen_at_the_front_only() {
    assert!(has_marker("-"));
    assert!(has_marker("-e"));
    assert!(has_marker("--"));
    assert!(!has_marker(""));
    assert!(!has_marker("e-"));
    assert!(!has_marker("name"));
    assert!(!has_marker("\u{2212}e"));
}

#[test]
fn tokens_read_as_options() {
    assert_eq!(kind_name(""), "script");
    assert_eq!(kind_name("name"), "script");
    assert_eq!(kind_name("-"), "script");
    assert_eq!(kind_name("--"), "stop");
    assert_eq!(kind_name("--x"), "bad");
    assert_eq!(kind_name("-E"), "ignore-env");
    assert_eq!(kind_name("-Ex"), "bad");
    assert_eq!(kind_name("-i"), "interactive");
    assert_eq!(kind_name("-ii"), "bad");
    assert_eq!(kind_name("-v"), "version");
    assert_eq!(kind_name("-v1"), "bad");
    assert_eq!(kind_name("-e"), "execute-next");
    assert_eq!(kind_name("-eprint(1)"), "execute:print(1)");
    assert_eq!(kind_name("-l"), "library-next");
    assert_eq!(kind_name("-lsocket"), "library:socket");
    assert_eq!(kind_name("-x"), "bad");
    assert_eq!(kind_name("-\u{e9}"), "bad");
    assert_eq!(kind_name("-e\u{e9}"), "execute:\u{e9}");
}

#[test]
fn suffixes() {
    assert!(ends_with("stdin:1: unexpected symbol near <eof>", "<eof>"));
    assert!(ends_with("<eof>", "<eof>"));
    assert!(ends_with("anything", ""));
    assert!(ends_with("", ""));
    assert!(!ends_with("eof>", "<eof>"));
    assert!(!ends_with("<eof> ", "<eof>"));
    assert!(!ends_with("near <eof", "<eof>"));
    assert!(!ends_with("", "<eof>"));
    assert!(ends_with("na\u{ef}ve \u{e9}", "e \u{e9}"));
}

#[test]
fn prefixes() {
    assert!(starts_with("@init.lua", "@"));
    assert!(starts_with("@", "@"));
    assert!(starts_with("x", ""));
    assert!(!starts_with("", "@"));
    assert!(!starts_with("a@", "@"));
    assert!(starts_with("\u{e9}t\u{e9}", "\u{e9}t"));
}

#[test]
fn skipping_characters() {
    assert_eq!(skip_chars("@init.lua", 1), "init.lua");
    assert_eq!(skip_chars("abc", 0), "abc");
    assert_eq!(skip_chars("abc", 3), "");
    assert_eq!(skip_chars("\u{e9}t\u{e9}", 1), "t\u{e9}");
}

#[test]
fn one_line_feed_is_stripped() {
    assert_eq!(strip_newline("x = 1\n"), "x = 1");
    assert_eq!(strip_newline("x = 1"), "x = 1");
    assert_eq!(strip_newline("x\n\n"), "x\n");
    assert_eq!(strip_newline("\n"), "");
    assert_eq!(strip_newline(""), "");
    assert_eq!(strip_newline("a\nb"), "a\nb");
}

#[test]
fn three_texts_joined() {
    assert_eq!(join3("a", "b", "c"), "abc");
    assert_eq!(join3("", "", ""), "");
    assert_eq!(join3("return ", "1", ";"), "return 1;");
}
