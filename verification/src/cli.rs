//! The `h#` command line: its commands, what it prints of its own, and how it opens the docs.

use std::path::PathBuf;

use vstd::prelude::*;

use crate::console;
use crate::console::{Line, Paint};
use crate::text;

verus! {

/// `std::path::PathBuf`: a path of the file system. Values are carried unread.
#[verifier::external_type_specification]
#[verifier::external_body]
pub struct ExPathBuf(std::path::PathBuf);

/// The arguments of the program.
pub struct Cli {
    pub command: Command,
}

/// A command of the program.
pub enum Command {
    /// Compiles a source file to a native binary.
    Compile {
        file: PathBuf,
        output: Option<String>,
        target: Option<String>,
        release: bool,
        no_opt: bool,
        debug: bool,
        dynamic: bool,
        emit_ir: bool,
        emit_kind: Option<String>,
        verbose: bool,
        mem_mode: Option<String>,
    },
    /// Interprets a file without compiling it.
    Preview { file: PathBuf },
    /// Checks syntax and types only.
    Check { files: Vec<PathBuf> },
    /// Creates a project from a template.
    New { name: String, template: String },
    /// Lists the cross-compilation targets.
    Targets,
    /// Starts an interactive session.
    Repl,
    /// Reformats source files.
    Fmt { files: Vec<PathBuf>, check: bool },
    /// Runs the language server over standard input and output.
    Lsp,
    /// Opens the documentation in a browser.
    Docs,
    /// Generates a companion C or Rust header.
    FfiHeader { file: PathBuf, lang: String },
    /// Works on `.hlib` archives.
    Lib(LibCommand),
}

/// A command on `.hlib` archives.
pub enum LibCommand {
    /// Compiles a source file and packages it.
    Build {
        file: PathBuf,
        output: Option<String>,
        lib_version: String,
        target: Option<String>,
        sign: Option<PathBuf>,
        release: bool,
    },
    /// Prints the manifest of an archive, unverified.
    Inspect { file: PathBuf },
    /// Verifies the checksums of an archive, and its signature where a key is given.
    Verify { file: PathBuf, pubkey: Option<String> },
    /// Generates a key pair for signing.
    Keygen { out: PathBuf },
    /// Extracts an archive and writes a binding stub.
    Bind { file: PathBuf, into: PathBuf },
}

/// Whether a command starts with the banner: all do but those that own the terminal.
pub open spec fn has_banner(command: Command) -> bool {
    !(command is Lsp || command is Repl)
}

/// Whether `command` starts with the banner. The language server speaks a protocol on its output
/// that a stray line breaks, and the interactive session prints a banner of its own.
pub fn shows_banner(command: &Command) -> (r: bool)
    ensures
        r == has_banner(*command),
{
    match command {
        Command::Lsp => false,
        Command::Repl => false,
        _ => true,
    }
}

/// The banner: the name of the program and an empty line.
pub fn banner() -> (r: Vec<Line>)
    ensures
        console::shown(r@) == seq![
            seq![(Paint::CyanBold, "  H# v0.8  LLVM backend"@)],
            Seq::empty(),
        ],
{
    let mut r: Vec<Line> = Vec::new();
    r.push(Line::of(Paint::CyanBold, "  H# v0.8  LLVM backend"));
    r.push(Line { pieces: Vec::new() });
    proof {
        assert(r@[1]@ =~= Seq::empty());
        assert(console::shown(r@) =~= seq![
            seq![(Paint::CyanBold, "  H# v0.8  LLVM backend"@)],
            Seq::empty(),
        ]);
    }
    r
}

/// The line that lists a target: its name, padded to a column of 25, and its description.
pub open spec fn target_pieces(target: (String, String)) -> Seq<(Paint, Seq<char>)> {
    seq![
        (Paint::Plain, "  "@),
        (Paint::Cyan, text::padded(target.0@, 25)),
        (Paint::Plain, "  "@ + target.1@),
    ]
}

/// The list of the cross-compilation targets.
pub open spec fn targets_lines(targets: Seq<(String, String)>) -> Seq<Seq<(Paint, Seq<char>)>> {
    seq![seq![(Paint::Bold, "Available cross-compilation targets:"@)], Seq::empty()]
        + targets.map_values(|t: (String, String)| target_pieces(t)) + seq![
        Seq::empty(),
        seq![(Paint::Dimmed, "Usage: h# compile --target linux-aarch64 src/main.h#"@)],
    ]
}

/// Lists the cross-compilation targets, each with its name and its description.
pub fn targets_report(targets: &Vec<(String, String)>) -> (r: Vec<Line>)
    ensures
        console::shown(r@) == targets_lines(targets@),
{
    let ghost head: Seq<Seq<(Paint, Seq<char>)>> = seq![
        seq![(Paint::Bold, "Available cross-compilation targets:"@)],
        Seq::empty(),
    ];
    let ghost body = targets@.map_values(|t: (String, String)| target_pieces(t));
    let mut r: Vec<Line> = Vec::new();
    r.push(Line::of(Paint::Bold, "Available cross-compilation targets:"));
    r.push(Line { pieces: Vec::new() });
    proof {
        assert(r@[1]@ =~= Seq::empty());
        assert(console::shown(r@) =~= head + body.take(0));
    }
    let mut i: usize = 0;
    while i < targets.len()
        invariant
            i <= targets@.len(),
            body == targets@.map_values(|t: (String, String)| target_pieces(t)),
            console::shown(r@) == head + body.take(i as int),
        decreases targets@.len() - i,
    {
        let ghost before = r@;
        let mut rest: String = "  ".to_owned();
        rest.append(targets[i].1.as_str());
        let mut line = Line::of(Paint::Plain, "  ");
        line.add(Paint::Cyan, text::pad(targets[i].0.as_str(), 25).as_str());
        line.add(Paint::Plain, rest.as_str());
        r.push(line);
        proof {
            assert(line@ =~= target_pieces(targets@[i as int]));
            console::lemma_shown_push(before, line);
            assert(body.take(i + 1) =~= body.take(i as int).push(line@));
            assert(console::shown(r@) =~= head + body.take(i + 1));
        }
        i = i + 1;
    }
    let ghost before = r@;
    r.push(Line { pieces: Vec::new() });
    r.push(Line::of(Paint::Dimmed, "Usage: h# compile --target linux-aarch64 src/main.h#"));
    proof {
        assert(body.take(targets@.len() as int) =~= body);
        assert(r@[before.len() as int]@ =~= Seq::empty());
        assert(console::shown(r@) =~= targets_lines(targets@));
    }
    r
}

/// Where the documentation is.
pub open spec fn docs_url() -> Seq<char> {
    "https://hackeros-linux-system.github.io/HackerOS-Website/h-sharp/docs.html"@
}

/// Where the documentation is.
pub fn docs_address() -> (r: &'static str)
    ensures
        r@ == docs_url(),
{
    "https://hackeros-linux-system.github.io/HackerOS-Website/h-sharp/docs.html"
}

/// The family of the operating system.
#[derive(Debug, Clone, Copy, PartialEq, Eq, Structural)]
pub enum Platform {
    Windows,
    MacOs,
    Unix,
}

/// The commands that may open the documentation, in the order in which they are tried; of each the
/// program comes first, then its arguments. Termux has no desktop session, but an opener of its
/// own.
pub open spec fn opener_words(platform: Platform, termux: bool) -> Seq<Seq<Seq<char>>> {
    match platform {
        Platform::Windows => seq![seq!["cmd"@, "/c"@, "start"@, docs_url()]],
        Platform::MacOs => seq![seq!["open"@, docs_url()]],
        Platform::Unix => if termux {
            seq![seq!["termux-open-url"@, docs_url()], seq!["xdg-open"@, docs_url()]]
        } else {
            seq![seq!["xdg-open"@, docs_url()]]
        },
    }
}

/// The words of each command.
pub open spec fn commands_of(commands: Seq<Vec<String>>) -> Seq<Seq<Seq<char>>> {
    commands.map_values(|c: Vec<String>| text::texts(c@))
}

/// The command that opens the documentation with `program`.
fn opener(program: &str) -> (r: Vec<String>)
    ensures
        text::texts(r@) == seq![program@, docs_url()],
{
    let mut r: Vec<String> = Vec::new();
    r.push(program.to_owned());
    r.push(docs_address().to_owned());
    assert(text::texts(r@) =~= seq![program@, docs_url()]);
    r
}

/// The commands that may open the documentation in the browser of the user, in the order in which
/// they are tried. `termux` tells whether the program runs under Termux.
pub fn docs_openers(platform: Platform, termux: bool) -> (r: Vec<Vec<String>>)
    ensures
        commands_of(r@) == opener_words(platform, termux),
{
    let mut r: Vec<Vec<String>> = Vec::new();
    match platform {
        Platform::Windows => {
            let mut start: Vec<String> = Vec::new();
            start.push("cmd".to_owned());
            start.push("/c".to_owned());
            start.push("start".to_owned());
            start.push(docs_address().to_owned());
            assert(text::texts(start@) =~= seq!["cmd"@, "/c"@, "start"@, docs_url()]);
            r.push(start);
        },
        Platform::MacOs => r.push(opener("open")),
        Platform::Unix => {
            if termux {
                r.push(opener("termux-open-url"));
            }
            r.push(opener("xdg-open"));
        },
    }
    assert(commands_of(r@) =~= opener_words(platform, termux));
    r
}

/// An attempt to open the documentation.
#[derive(Debug)]
pub struct DocsSession {
    /// The commands to try, in order.
    pub openers: Vec<Vec<String>>,
    /// How many of them have been tried.
    pub tried: usize,
    /// Whether the last one that was tried worked.
    pub opened: bool,
}

impl DocsSession {
    /// Whether no more was tried than there is.
    pub open spec fn wf(&self) -> bool {
        self.tried <= self.openers@.len()
    }

    /// The attempt on `platform`, before anything is tried.
    pub fn start(platform: Platform, termux: bool) -> (r: DocsSession)
        ensures
            r.wf(),
            commands_of(r.openers@) == opener_words(platform, termux),
            r.tried == 0,
            !r.opened,
    {
        DocsSession { openers: docs_openers(platform, termux), tried: 0, opened: false }
    }

    /// The command to try next; none where one worked, or all have been tried.
    pub fn next_opener(&self) -> (r: Option<&Vec<String>>)
        requires
            self.wf(),
        ensures
            r is None <==> self.opened || self.tried == self.openers@.len(),
            r matches Some(words) ==> *words == self.openers@[self.tried as int],
    {
        if self.opened || self.tried == self.openers.len() {
            None
        } else {
            Some(&self.openers[self.tried])
        }
    }

    /// Takes note of whether the command that was next worked: it could be started and ended well.
    /// Where none was next, nothing changes.
    pub fn advance(&mut self, worked: bool)
        requires
            old(self).wf(),
        ensures
            final(self).wf(),
            final(self).openers == old(self).openers,
            old(self).opened || old(self).tried == old(self).openers@.len() ==> *final(self)
                == *old(self),
            !old(self).opened && old(self).tried < old(self).openers@.len() ==> final(self).tried
                == old(self).tried + 1 && final(self).opened == worked,
    {
        if !self.opened && self.tried < self.openers.len() {
            self.tried = self.tried + 1;
            self.opened = worked;
        }
    }

    /// Tells how the attempt ended.
    pub fn report(&self) -> (r: Vec<Line>)
        ensures
            console::shown(r@) == docs_lines(self.opened),
    {
        docs_report(self.opened)
    }
}

/// What the attempt to open the documentation tells: that it worked, or where the documentation is.
pub open spec fn docs_lines(opened: bool) -> Seq<Seq<(Paint, Seq<char>)>> {
    if opened {
        seq![
            seq![
                (Paint::GreenBold, "Opened docs:"@),
                (Paint::Plain, " "@),
                (Paint::Dimmed, docs_url()),
            ],
        ]
    } else {
        seq![
            seq![(Paint::Yellow, "Couldn't open a browser automatically. Docs are here:"@)],
            seq![(Paint::Plain, "  "@), (Paint::CyanUnderline, docs_url())],
        ]
    }
}

/// Tells how the attempt to open the documentation ended.
pub fn docs_report(opened: bool) -> (r: Vec<Line>)
    ensures
        console::shown(r@) == docs_lines(opened),
{
    let mut r: Vec<Line> = Vec::new();
    if opened {
        let mut line = Line::of(Paint::GreenBold, "Opened docs:");
        line.add(Paint::Plain, " ");
        line.add(Paint::Dimmed, docs_address());
        r.push(line);
        assert(line@ =~= docs_lines(true)[0]);
    } else {
        r.push(Line::of(Paint::Yellow, "Couldn't open a browser automatically. Docs are here:"));
        let mut line = Line::of(Paint::Plain, "  ");
        line.add(Paint::CyanUnderline, docs_address());
        r.push(line);
        assert(line@ =~= docs_lines(false)[1]);
    }
    assert(console::shown(r@) =~= docs_lines(opened));
    r
}

/// The time between two ticks of a progress bar or a spinner, in milliseconds.
pub const TICK_MILLIS: u64 = 80;

/// The layout of a progress bar with `prefix` in front of it.
pub open spec fn bar_layout(prefix: Seq<char>) -> Seq<char> {
    "{spinner:.cyan} "@ + prefix + " [{bar:40.cyan/blue}] {pos}/{len}  {msg}"@
}

/// The layout of a progress bar with `prefix` in front of it.
pub fn bar_template(prefix: &str) -> (r: String)
    ensures
        r@ == bar_layout(prefix@),
{
    text::concat3("{spinner:.cyan} ", prefix, " [{bar:40.cyan/blue}] {pos}/{len}  {msg}")
}

/// The characters of a progress bar: done, current and open.
pub fn bar_chars() -> (r: &'static str)
    ensures
        r@ == "<#>-"@,
{
    "<#>-"
}

/// The layout of a spinner.
pub fn spinner_template() -> (r: &'static str)
    ensures
        r@ == "{spinner:.cyan} {msg}"@,
{
    "{spinner:.cyan} {msg}"
}

} // verus!
