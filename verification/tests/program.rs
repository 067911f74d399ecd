use std::path::PathBuf;

use hsharp::cli::{
    banner, bar_chars, bar_template, docs_address, docs_openers, shows_banner, spinner_template,
    targets_report, Cli, Command, DocsSession, LibCommand, Platform, TICK_MILLIS,
};
use hsharp::console::{Line, Paint};
use hsharp::runtime::{async_rt_c_source, runtime_c_source, RuntimeSources};

fn flat(lines: &[Line]) -> Vec<String> {
    lines
        .iter()
        .map(|l| l.pieces.iter().map(|p| p.text.as_str()).collect::<Vec<_>>().concat())
        .collect()
}

#[test]
fn the_server_and_the_session_have_no_banner() {
    assert!(!shows_banner(&Command::Lsp));
    assert!(!shows_banner(&Command::Repl));
    assert!(shows_banner(&Command::Docs));
    assert!(shows_banner(&Command::Targets));
    let cli = Cli { command: Command::Lib(LibCommand::Inspect { file: PathBuf::from("a.hlib") }) };
    assert!(shows_banner(&cli.command));
}

#[test]
fn the_banner_names_the_program() {
    let lines = banner();
    assert_eq!(lines[0].pieces[0].paint, Paint::CyanBold);
    assert_eq!(flat(&lines), vec!["  H# v0.8  LLVM backend", ""]);
}

#[test]
fn targets_are_listed_in_columns() {
    let targets = vec![
        ("linux-x86_64".to_string(), "Linux".to_string()),
        ("a-name-of-more-than-25-characters".to_string(), "long".to_string()),
    ];
    let lines = targets_report(&targets);
    assert_eq!(lines[2].pieces[1].paint, Paint::Cyan);
    assert_eq!(
        flat(&lines),
        vec![
            "Available cross-compilation targets:".to_string(),
            "".to_string(),
            format!("  {:<25}  Linux", "linux-x86_64"),
            "  a-name-of-more-than-25-characters  long".to_string(),
            "".to_string(),
            "Usage: h# compile --target linux-aarch64 src/main.h#".to_string(),
        ]
    );
    assert_eq!(targets_report(&Vec::new()).len(), 4);
}

#[test]
fn each_platform_has_its_openers() {
    let url = docs_address();
    assert_eq!(url, "https://hackeros-linux-system.github.io/HackerOS-Website/h-sharp/docs.html");
    assert_eq!(docs_openers(Platform::Windows, false), vec![vec!["cmd", "/c", "start", url]]);
    assert_eq!(docs_openers(Platform::MacOs, true), vec![vec!["open", url]]);
    assert_eq!(docs_openers(Platform::Unix, false), vec![vec!["xdg-open", url]]);
    assert_eq!(
        docs_openers(Platform::Unix, true),
        vec![vec!["termux-open-url", url], vec!["xdg-open", url]]
    );
}

#[test]
fn openers_are_tried_until_one_works() {
    let mut s = DocsSession::start(Platform::Unix, true);
    assert_eq!(s.next_opener().unwrap()[0], "termux-open-url");
    s.advance(false);
    assert_eq!(s.next_opener().unwrap()[0], "xdg-open");
    s.advance(true);
    assert!(s.next_opener().is_none());
    assert_eq!(flat(&s.report()), vec![format!("Opened docs: {}", docs_address())]);
    s.advance(false);
    assert!(s.opened && s.tried == 2);
}

#[test]
fn the_address_is_told_where_no_opener_works() {
    let mut s = DocsSession::start(Platform::MacOs, false);
    s.advance(false);
    assert!(s.next_opener().is_none());
    let lines = s.report();
    assert_eq!(lines[1].pieces[1].paint, Paint::CyanUnderline);
    assert_eq!(
        flat(&lines),
        vec![
            "Couldn't open a browser automatically. Docs are here:".to_string(),
            format!("  {}", docs_address()),
        ]
    );
}

#[test]
fn progress_has_a_layout() {
    assert_eq!(
        bar_template("Linking"),
        "{spinner:.cyan} Linking [{bar:40.cyan/blue}] {pos}/{len}  {msg}"
    );
    assert_eq!(bar_chars(), "<#>-");
    assert_eq!(spinner_template(), "{spinner:.cyan} {msg}");
    assert_eq!(TICK_MILLIS, 80);
}

#[test]
fn runtime_sources_are_handed_out() {
    let sources = RuntimeSources { core: "int a;".to_string(), async_rt: "int b;".to_string() };
    assert_eq!(runtime_c_source(&sources), "int a;");
    assert_eq!(async_rt_c_source(&sources), "int b;");
}
