//! The `.hlib` commands: which work follows on which, and what is said of it.
//!
//! A command that alternates work on files with decisions is a session. Its stage names the work
//! that is due; `advance` takes what came of the work, and gives the session afterwards and the
//! lines to print.

use std::path::PathBuf;

use vstd::prelude::*;

use crate::cli::LibCommand;
use crate::console;
use crate::console::{Line, Paint};
use crate::export::{ExportSummary, ExportedSymbol};
use crate::hlib;
use crate::text;

verus! {

/// What a build is asked for.
pub struct BuildRequest {
    pub file: PathBuf,
    pub output: Option<String>,
    pub lib_version: String,
    pub target: Option<String>,
    pub sign: Option<PathBuf>,
    pub release: bool,
}

/// The handler of an `.hlib` command, with what it is given.
pub enum LibTask {
    Build(BuildRequest),
    Inspect { file: PathBuf },
    Verify { file: PathBuf, pubkey: Option<String> },
    Keygen { out: PathBuf },
    Bind { file: PathBuf, into: PathBuf },
}

/// The handler that `cmd` goes to.
pub open spec fn task_of(cmd: LibCommand) -> LibTask {
    match cmd {
        LibCommand::Build { file, output, lib_version, target, sign, release } => LibTask::Build(
            BuildRequest { file, output, lib_version, target, sign, release },
        ),
        LibCommand::Inspect { file } => LibTask::Inspect { file },
        LibCommand::Verify { file, pubkey } => LibTask::Verify { file, pubkey },
        LibCommand::Keygen { out } => LibTask::Keygen { out },
        LibCommand::Bind { file, into } => LibTask::Bind { file, into },
    }
}

/// Hands `cmd` to its handler.
pub fn run(cmd: LibCommand) -> (r: LibTask)
    ensures
        cmd matches LibCommand::Build { file, output, lib_version, target, sign, release } ==> (r
            matches LibTask::Build(request) && request.file == file && request.output == output
            && request.lib_version == lib_version && request.target == target && request.sign
            == sign && request.release == release),
        cmd matches LibCommand::Inspect { file } ==> (r matches LibTask::Inspect { file: f } && f
            == file),
        cmd matches LibCommand::Verify { file, pubkey } ==> (r matches LibTask::Verify {
            file: f,
            pubkey: key,
        } && f == file && key == pubkey),
        cmd matches LibCommand::Keygen { out } ==> (r matches LibTask::Keygen { out: o } && o
            == out),
        cmd matches LibCommand::Bind { file, into } ==> (r matches LibTask::Bind {
            file: f,
            into: i,
        } && f == file && i == into),
        r == task_of(cmd),
{
    match cmd {
        LibCommand::Build { file, output, lib_version, target, sign, release } => LibTask::Build(
            BuildRequest { file, output, lib_version, target, sign, release },
        ),
        LibCommand::Inspect { file } => LibTask::Inspect { file },
        LibCommand::Verify { file, pubkey } => LibTask::Verify { file, pubkey },
        LibCommand::Keygen { out } => LibTask::Keygen { out },
        LibCommand::Bind { file, into } => LibTask::Bind { file, into },
    }
}

/// The text of an optional string.
pub open spec fn option_text(s: Option<String>) -> Option<Seq<char>> {
    match s {
        Some(s) => Some(s@),
        None => None,
    }
}

/// How much a module exports.
#[derive(Debug, Clone, Copy, PartialEq, Eq, Structural)]
pub struct ExportCounts {
    pub symbols: usize,
    pub generic: usize,
    pub items: usize,
}

/// The number of generic ones among the first `n` symbols.
pub open spec fn generic_count(symbols: Seq<ExportedSymbol>, n: nat) -> nat
    decreases n,
{
    if n == 0 || n > symbols.len() {
        0
    } else if symbols[n - 1].generic {
        generic_count(symbols, (n - 1) as nat) + 1
    } else {
        generic_count(symbols, (n - 1) as nat)
    }
}

/// Counts what a summary holds.
pub fn count_exports<'a>(summary: &ExportSummary<'a>) -> (r: ExportCounts)
    ensures
        r.symbols == summary.symbols@.len(),
        r.generic == generic_count(summary.symbols@, summary.symbols@.len()),
        r.items == summary.pub_items@.len(),
{
    let mut generic: usize = 0;
    let mut i: usize = 0;
    while i < summary.symbols.len()
        invariant
            i <= summary.symbols@.len(),
            generic <= i,
            generic == generic_count(summary.symbols@, i as nat),
        decreases summary.symbols@.len() - i,
    {
        if summary.symbols[i].generic {
            generic = generic + 1;
        }
        i = i + 1;
    }
    ExportCounts { symbols: summary.symbols.len(), generic, items: summary.pub_items.len() }
}

/// The work that a build does next.
#[derive(Debug, Clone, Copy, PartialEq, Eq, Structural)]
pub enum BuildStage {
    /// Create the directory of the output and `build`; whether this works does not matter.
    Prepare,
    /// Find the named target, or that of the host where none is named.
    FindTarget,
    ReadSource,
    Parse,
    /// Bring in the modules that the source names.
    Resolve,
    /// Compile to a shared object.
    Compile,
    ReadObject,
    /// Summarise and count the exports.
    Summarize,
    SerializeHeader,
    SerializeAst,
    AddObject,
    AddHeader,
    AddAst,
    AddExports,
    ReadKey,
    /// Write the archive, signed with the signing key where there is one.
    Write,
    /// Remove the shared object; whether this works does not matter.
    Cleanup,
    Finished,
    /// The program ends with exit status 1.
    Failed,
}

/// What came of the work of a stage.
#[derive(Debug)]
pub enum BuildEvent {
    Done,
    /// The work failed, for the given reason.
    Failed(String),
    /// Compiling failed, and the type errors have been shown.
    TypeErrors,
    /// The target was found; its LLVM triple.
    Target(String),
    /// The source was compiled; the suffix of the shared object.
    Compiled(String),
    Exports(ExportCounts),
    /// The signing key file was read; its text.
    Key(String),
    Written { artifacts: usize, signed: bool },
}

/// A build of an archive.
#[derive(Debug)]
pub struct BuildSession {
    /// The source file, as it is shown.
    pub file: String,
    pub stem: String,
    /// The version of the library.
    pub version: String,
    /// Where the archive goes.
    pub out: String,
    /// The path of the shared object, without its suffix.
    pub tmp: String,
    pub target: Option<String>,
    /// The signing key file, as it is shown.
    pub key: Option<String>,
    pub release: bool,
    pub stage: BuildStage,
    pub triple: String,
    /// The path of the shared object.
    pub object: String,
    pub counts: ExportCounts,
    /// The signing key that the archive is written with, if one is given.
    pub signing_key: Option<String>,
    pub artifacts: usize,
    pub signed: bool,
    /// Why the build failed.
    pub failure: String,
}

/// The mathematical value of a [`BuildSession`].
pub struct Build {
    pub file: Seq<char>,
    pub stem: Seq<char>,
    pub version: Seq<char>,
    pub out: Seq<char>,
    pub tmp: Seq<char>,
    pub target: Option<Seq<char>>,
    pub key: Option<Seq<char>>,
    pub release: bool,
    pub stage: BuildStage,
    pub triple: Seq<char>,
    pub object: Seq<char>,
    pub counts: ExportCounts,
    pub signing_key: Option<Seq<char>>,
    pub artifacts: usize,
    pub signed: bool,
    pub failure: Seq<char>,
}

impl View for BuildSession {
    type V = Build;

    open spec fn view(&self) -> Build {
        Build {
            file: self.file@,
            stem: self.stem@,
            version: self.version@,
            out: self.out@,
            tmp: self.tmp@,
            target: option_text(self.target),
            key: option_text(self.key),
            release: self.release,
            stage: self.stage,
            triple: self.triple@,
            object: self.object@,
            counts: self.counts,
            signing_key: option_text(self.signing_key),
            artifacts: self.artifacts,
            signed: self.signed,
            failure: self.failure@,
        }
    }
}

/// The name of a library whose source file has no usable name.
pub open spec fn stem_text(stem: Option<String>) -> Seq<char> {
    match stem {
        Some(s) => s@,
        None => "mylib"@,
    }
}

/// The lines of a step.
pub type Lines = Seq<Seq<(Paint, Seq<char>)>>;

/// The step to a failure.
pub open spec fn fails(b: Build, message: Seq<char>) -> (Build, Lines) {
    (
        Build { stage: BuildStage::Failed, failure: message, ..b },
        seq![console::error_pieces(message)],
    )
}

/// The silent step to `stage`.
pub open spec fn goes(b: Build, stage: BuildStage) -> (Build, Lines) {
    (Build { stage, ..b }, Seq::empty())
}

pub open spec fn compiling_pieces(b: Build) -> Seq<(Paint, Seq<char>)> {
    seq![
        (Paint::Plain, "  "@),
        (Paint::GreenBold, "Compiling:"@),
        (Paint::Plain, " "@ + b.file + " (target: "@ + b.triple + ")"@),
    ]
}

pub open spec fn exports_pieces(counts: ExportCounts) -> Seq<(Paint, Seq<char>)> {
    seq![
        (Paint::Plain, "  "@),
        (Paint::GreenBold, "Exports:"@),
        (
            Paint::Plain,
            " "@ + text::decimal_text(counts.symbols as nat) + " export(s) ("@
                + text::decimal_text(counts.generic as nat) + " generic — carried via AST only)"@,
        ),
    ]
}

pub open spec fn built_pieces(b: Build) -> Seq<(Paint, Seq<char>)> {
    seq![
        (Paint::GreenBold, "✓"@),
        (Paint::Plain, " "@ + b.file + " → "@),
        (Paint::Bold, b.out),
        (
            Paint::Plain,
            " ("@ + text::decimal_text(b.artifacts as nat) + " artifact(s)"@ + if b.signed {
                ", signed)"@
            } else {
                ", unsigned)"@
            },
        ),
    ]
}

/// The step of a build whose work succeeded without a result of its own.
pub open spec fn build_done(b: Build) -> (Build, Lines) {
    match b.stage {
        BuildStage::Prepare => goes(b, BuildStage::FindTarget),
        BuildStage::ReadSource => goes(b, BuildStage::Parse),
        BuildStage::Parse => goes(b, BuildStage::Resolve),
        BuildStage::Resolve => (
            Build { stage: BuildStage::Compile, ..b },
            seq![compiling_pieces(b)],
        ),
        BuildStage::ReadObject => goes(b, BuildStage::Summarize),
        BuildStage::SerializeHeader => goes(b, BuildStage::SerializeAst),
        BuildStage::SerializeAst => (
            Build { stage: BuildStage::AddObject, ..b },
            seq![exports_pieces(b.counts)],
        ),
        BuildStage::AddObject => goes(b, BuildStage::AddHeader),
        BuildStage::AddHeader => if b.counts.items > 0 {
            goes(b, BuildStage::AddAst)
        } else {
            goes(b, BuildStage::AddExports)
        },
        BuildStage::AddAst => goes(b, BuildStage::AddExports),
        BuildStage::AddExports => if b.key is Some {
            goes(b, BuildStage::ReadKey)
        } else {
            goes(b, BuildStage::Write)
        },
        BuildStage::Cleanup => (Build { stage: BuildStage::Finished, ..b }, seq![built_pieces(b)]),
        _ => (b, Seq::empty()),
    }
}

/// The step of a build whose work failed for the reason `e`.
pub open spec fn build_failed(b: Build, e: Seq<char>) -> (Build, Lines) {
    match b.stage {
        BuildStage::FindTarget => match b.target {
            Some(t) => fails(
                b,
                "unknown target `"@ + t + "`. Run `h# targets` to list them."@,
            ),
            None => (b, Seq::empty()),
        },
        BuildStage::ReadSource => fails(b, "cannot read `"@ + b.file + "`: "@ + e),
        BuildStage::Parse => (
            Build { stage: BuildStage::Failed, failure: "parsing failed."@, ..b },
            seq![hlib::plain(e), console::error_pieces("parsing failed."@)],
        ),
        BuildStage::Resolve => fails(b, e),
        BuildStage::Compile => fails(b, e),
        BuildStage::ReadObject => fails(
            b,
            "compiled .so vanished at `"@ + b.object + "`: "@ + e,
        ),
        BuildStage::SerializeHeader => fails(b, "failed to serialize header: "@ + e),
        BuildStage::SerializeAst => fails(b, "failed to serialize AST: "@ + e),
        BuildStage::AddObject => fails(b, e),
        BuildStage::AddHeader => fails(b, e),
        BuildStage::AddAst => fails(b, e),
        BuildStage::ReadKey => match b.key {
            Some(key) => fails(b, "cannot read signing key `"@ + key + "`: "@ + e),
            None => (b, Seq::empty()),
        },
        BuildStage::Write => fails(b, e),
        _ => (b, Seq::empty()),
    }
}

/// The step of a build on `event`. An event that does not belong to the stage changes nothing.
pub open spec fn build_step(b: Build, event: BuildEvent) -> (Build, Lines) {
    match event {
        BuildEvent::Done => build_done(b),
        BuildEvent::Failed(e) => build_failed(b, e@),
        BuildEvent::TypeErrors => if b.stage == BuildStage::Compile {
            fails(b, "compilation failed (type errors above)."@)
        } else {
            (b, Seq::empty())
        },
        BuildEvent::Target(triple) => if b.stage == BuildStage::FindTarget {
            (Build { stage: BuildStage::ReadSource, triple: triple@, ..b }, Seq::empty())
        } else {
            (b, Seq::empty())
        },
        BuildEvent::Compiled(suffix) => if b.stage == BuildStage::Compile {
            (Build { stage: BuildStage::ReadObject, object: b.tmp + suffix@, ..b }, Seq::empty())
        } else {
            (b, Seq::empty())
        },
        BuildEvent::Exports(counts) => if b.stage == BuildStage::Summarize {
            (Build { stage: BuildStage::SerializeHeader, counts, ..b }, Seq::empty())
        } else {
            (b, Seq::empty())
        },
        BuildEvent::Key(key) => if b.stage == BuildStage::ReadKey {
            (
                Build { stage: BuildStage::Write, signing_key: Some(text::trimmed(key@)), ..b },
                Seq::empty(),
            )
        } else {
            (b, Seq::empty())
        },
        BuildEvent::Written { artifacts, signed } => if b.stage == BuildStage::Write {
            (Build { stage: BuildStage::Cleanup, artifacts, signed, ..b }, Seq::empty())
        } else {
            (b, Seq::empty())
        },
    }
}

impl BuildSession {
    /// The build of `file`, of which `stem` is the name without directory and extension if that can
    /// be spelled. `version` is that of the library, and `key` the signing key file, if one is given.
    pub fn start(
        file: String,
        stem: Option<String>,
        version: String,
        output: Option<String>,
        target: Option<String>,
        key: Option<String>,
        release: bool,
    ) -> (r: BuildSession)
        ensures
            r.stage == BuildStage::Prepare,
            r.file@ == file@,
            stem matches Some(s) ==> r.stem@ == s@,
            r.version@ == version@,
            output matches Some(out) ==> r.out@ == out@,
            output is None ==> r.out@ == "build/"@ + r.stem@ + ".hlib"@,
            r.tmp@ == "build/.hlib-"@ + r.stem@,
            target is Some <==> r.target is Some,
            target matches Some(t) ==> r.target->0@ == t@,
            key is Some <==> r.key is Some,
            key matches Some(k) ==> r.key->0@ == k@,
            r.release == release,
            r.signing_key is None,
            r@ == (Build {
                file: file@,
                stem: stem_text(stem),
                version: version@,
                out: match output {
                    Some(out) => out@,
                    None => "build/"@ + stem_text(stem) + ".hlib"@,
                },
                tmp: "build/.hlib-"@ + stem_text(stem),
                target: option_text(target),
                key: option_text(key),
                release,
                stage: BuildStage::Prepare,
                triple: Seq::empty(),
                object: Seq::empty(),
                counts: ExportCounts { symbols: 0, generic: 0, items: 0 },
                signing_key: None,
                artifacts: 0,
                signed: false,
                failure: Seq::empty(),
            }),
    {
        let stem: String = match stem {
            Some(s) => s,
            None => "mylib".to_owned(),
        };
        let out: String = match output {
            Some(out) => out,
            None => text::concat3("build/", stem.as_str(), ".hlib"),
        };
        let mut tmp: String = "build/.hlib-".to_owned();
        tmp.append(stem.as_str());
        BuildSession {
            file,
            stem,
            version,
            out,
            tmp,
            target,
            key,
            release,
            stage: BuildStage::Prepare,
            triple: String::new(),
            object: String::new(),
            counts: ExportCounts { symbols: 0, generic: 0, items: 0 },
            signing_key: None,
            artifacts: 0,
            signed: false,
            failure: String::new(),
        }
    }

    /// The failed build, with the line that tells of it.
    fn fail(self, message: String) -> (r: (BuildSession, Vec<Line>))
        ensures
            (r.0@, console::shown(r.1@)) == fails(self@, message@),
    {
        let mut lines: Vec<Line> = Vec::new();
        lines.push(console::error_line(message.as_str()));
        let mut next = self;
        next.stage = BuildStage::Failed;
        next.failure = message;
        assert(console::shown(lines@) =~= seq![console::error_pieces(message@)]);
        (next, lines)
    }

    /// The build at another stage, without a word.
    fn go(self, stage: BuildStage) -> (r: (BuildSession, Vec<Line>))
        ensures
            (r.0@, console::shown(r.1@)) == goes(self@, stage),
    {
        let lines: Vec<Line> = Vec::new();
        let mut next = self;
        next.stage = stage;
        assert(console::shown(lines@) =~= Seq::empty());
        (next, lines)
    }

    /// The build at another stage, with one line.
    fn go_saying(self, stage: BuildStage, line: Line) -> (r: (BuildSession, Vec<Line>))
        ensures
            r.0@ == (Build { stage, ..self@ }),
            console::shown(r.1@) == seq![line@],
    {
        let mut lines: Vec<Line> = Vec::new();
        lines.push(line);
        let mut next = self;
        next.stage = stage;
        assert(console::shown(lines@) =~= seq![line@]);
        (next, lines)
    }

    /// The step of the build on `event`.
    pub fn advance(self, event: BuildEvent) -> (r: (BuildSession, Vec<Line>))
        ensures
            (r.0@, console::shown(r.1@)) == build_step(self@, event),
    {
        let stage: BuildStage = self.stage;
        match event {
            BuildEvent::Done => self.advance_done(),
            BuildEvent::Failed(e) => self.advance_failed(e),
            BuildEvent::TypeErrors => {
                if stage == BuildStage::Compile {
                    self.fail("compilation failed (type errors above).".to_owned())
                } else {
                    self.go(stage)
                }
            },
            BuildEvent::Target(triple) => {
                if stage == BuildStage::FindTarget {
                    let mut next = self;
                    next.triple = triple;
                    next.go(BuildStage::ReadSource)
                } else {
                    self.go(stage)
                }
            },
            BuildEvent::Compiled(suffix) => {
                if stage == BuildStage::Compile {
                    let mut next = self;
                    let mut object: String = next.tmp.clone();
                    object.append(suffix.as_str());
                    next.object = object;
                    next.go(BuildStage::ReadObject)
                } else {
                    self.go(stage)
                }
            },
            BuildEvent::Exports(counts) => {
                if stage == BuildStage::Summarize {
                    let mut next = self;
                    next.counts = counts;
                    next.go(BuildStage::SerializeHeader)
                } else {
                    self.go(stage)
                }
            },
            BuildEvent::Key(key) => {
                if stage == BuildStage::ReadKey {
                    let mut next = self;
                    next.signing_key = Some(text::trim(key.as_str()));
                    next.go(BuildStage::Write)
                } else {
                    self.go(stage)
                }
            },
            BuildEvent::Written { artifacts, signed } => {
                if stage == BuildStage::Write {
                    let mut next = self;
                    next.artifacts = artifacts;
                    next.signed = signed;
                    next.go(BuildStage::Cleanup)
                } else {
                    self.go(stage)
                }
            },
        }
    }

    /// The step of the build after work that succeeded without a result of its own.
    fn advance_done(self) -> (r: (BuildSession, Vec<Line>))
        ensures
            (r.0@, console::shown(r.1@)) == build_done(self@),
    {
        let stage: BuildStage = self.stage;
        match stage {
            BuildStage::Prepare => self.go(BuildStage::FindTarget),
            BuildStage::ReadSource => self.go(BuildStage::Parse),
            BuildStage::Parse => self.go(BuildStage::Resolve),
            BuildStage::Resolve => {
                let mut rest: String = text::concat3(" ", self.file.as_str(), " (target: ");
                rest.append(self.triple.as_str());
                rest.append(")");
                let mut line = Line::of(Paint::Plain, "  ");
                line.add(Paint::GreenBold, "Compiling:");
                line.add(Paint::Plain, rest.as_str());
                assert(line@ =~= compiling_pieces(self@));
                self.go_saying(BuildStage::Compile, line)
            },
            BuildStage::ReadObject => self.go(BuildStage::Summarize),
            BuildStage::SerializeHeader => self.go(BuildStage::SerializeAst),
            BuildStage::SerializeAst => {
                let mut rest: String = text::concat3(
                    " ",
                    text::decimal(self.counts.symbols as u64).as_str(),
                    " export(s) (",
                );
                rest.append(text::decimal(self.counts.generic as u64).as_str());
                rest.append(" generic — carried via AST only)");
                let mut line = Line::of(Paint::Plain, "  ");
                line.add(Paint::GreenBold, "Exports:");
                line.add(Paint::Plain, rest.as_str());
                assert(line@ =~= exports_pieces(self@.counts));
                self.go_saying(BuildStage::AddObject, line)
            },
            BuildStage::AddObject => self.go(BuildStage::AddHeader),
            BuildStage::AddHeader => {
                if self.counts.items > 0 {
                    self.go(BuildStage::AddAst)
                } else {
                    self.go(BuildStage::AddExports)
                }
            },
            BuildStage::AddAst => self.go(BuildStage::AddExports),
            BuildStage::AddExports => {
                if self.key.is_some() {
                    self.go(BuildStage::ReadKey)
                } else {
                    self.go(BuildStage::Write)
                }
            },
            BuildStage::Cleanup => {
                let mut line = Line::of(Paint::GreenBold, "✓");
                line.add(
                    Paint::Plain,
                    text::concat3(" ", self.file.as_str(), " → ").as_str(),
                );
                line.add(Paint::Bold, self.out.as_str());
                let mut rest: String = text::concat3(
                    " (",
                    text::decimal(self.artifacts as u64).as_str(),
                    " artifact(s)",
                );
                rest.append(
                    if self.signed {
                        ", signed)"
                    } else {
                        ", unsigned)"
                    },
                );
                line.add(Paint::Plain, rest.as_str());
                assert(line@ =~= built_pieces(self@));
                self.go_saying(BuildStage::Finished, line)
            },
            _ => self.go(stage),
        }
    }

    /// The step of the build after work that failed for the reason `e`.
    fn advance_failed(self, e: String) -> (r: (BuildSession, Vec<Line>))
        ensures
            (r.0@, console::shown(r.1@)) == build_failed(self@, e@),
    {
        let stage: BuildStage = self.stage;
        match stage {
            BuildStage::FindTarget => {
                let message: Option<String> = match &self.target {
                    Some(t) => Some(
                        text::concat3(
                            "unknown target `",
                            t.as_str(),
                            "`. Run `h# targets` to list them.",
                        ),
                    ),
                    None => None,
                };
                match message {
                    Some(message) => self.fail(message),
                    None => self.go(stage),
                }
            },
            BuildStage::ReadSource => {
                let mut message: String = text::concat3("cannot read `", self.file.as_str(), "`: ");
                message.append(e.as_str());
                self.fail(message)
            },
            BuildStage::Parse => {
                let mut lines: Vec<Line> = Vec::new();
                lines.push(Line::of(Paint::Plain, e.as_str()));
                lines.push(console::error_line("parsing failed."));
                let mut next = self;
                next.stage = BuildStage::Failed;
                next.failure = "parsing failed.".to_owned();
                assert(console::shown(lines@) =~= seq![
                    hlib::plain(e@),
                    console::error_pieces("parsing failed."@),
                ]);
                (next, lines)
            },
            BuildStage::Resolve => self.fail(e),
            BuildStage::Compile => self.fail(e),
            BuildStage::ReadObject => {
                let mut message: String = text::concat3(
                    "compiled .so vanished at `",
                    self.object.as_str(),
                    "`: ",
                );
                message.append(e.as_str());
                self.fail(message)
            },
            BuildStage::SerializeHeader => {
                let mut message: String = "failed to serialize header: ".to_owned();
                message.append(e.as_str());
                self.fail(message)
            },
            BuildStage::SerializeAst => {
                let mut message: String = "failed to serialize AST: ".to_owned();
                message.append(e.as_str());
                self.fail(message)
            },
            BuildStage::AddObject => self.fail(e),
            BuildStage::AddHeader => self.fail(e),
            BuildStage::AddAst => self.fail(e),
            BuildStage::ReadKey => {
                let message: Option<String> = match &self.key {
                    Some(key) => {
                        let mut message: String = text::concat3(
                            "cannot read signing key `",
                            key.as_str(),
                            "`: ",
                        );
                        message.append(e.as_str());
                        Some(message)
                    },
                    None => None,
                };
                match message {
                    Some(message) => self.fail(message),
                    None => self.go(stage),
                }
            },
            BuildStage::Write => self.fail(e),
            _ => self.go(stage),
        }
    }
}

/// The work that a verification or a binding does next.
#[derive(Debug, Clone, Copy, PartialEq, Eq, Structural)]
pub enum ArchiveStage {
    Open,
    Checksums,
    /// Verify the signature against the given key.
    Signature,
    /// Create the directory, and extract the artifacts into it.
    Extract,
    WriteStub,
    Finished,
    /// The program ends with exit status 1.
    Failed,
}

/// What came of the work of a stage.
#[derive(Debug)]
pub enum ArchiveEvent {
    Done,
    /// The work failed, for the given reason.
    Failed(String),
    /// The archive was opened: its name, the number of its artifacts, and whether it is signed.
    Opened { name: String, artifacts: usize, signed: bool },
    /// The artifacts were extracted; where the stub goes, as it is shown.
    Extracted { stub: String },
}

/// A mark and a remark behind it.
pub open spec fn marked(paint: Paint, mark: Seq<char>, rest: Seq<char>) -> Seq<(Paint, Seq<char>)> {
    seq![(paint, mark), (Paint::Plain, rest)]
}

/// The line of a mark and a remark behind it.
fn mark_line(paint: Paint, mark: &str, rest: &str) -> (r: Line)
    ensures
        r@ == marked(paint, mark@, rest@),
{
    let mut r = Line::of(paint, mark);
    r.add(Paint::Plain, rest);
    assert(r@ =~= marked(paint, mark@, rest@));
    r
}

/// A verification of an archive.
#[derive(Debug)]
pub struct VerifySession {
    /// The public key that the signature is held against, if one is given.
    pub pubkey: Option<String>,
    pub stage: ArchiveStage,
    pub artifacts: usize,
    pub signed: bool,
    /// Why the verification failed.
    pub failure: String,
}

/// The mathematical value of a [`VerifySession`].
pub struct Verification {
    pub pubkey: Option<Seq<char>>,
    pub stage: ArchiveStage,
    pub artifacts: usize,
    pub signed: bool,
    pub failure: Seq<char>,
}

impl View for VerifySession {
    type V = Verification;

    open spec fn view(&self) -> Verification {
        Verification {
            pubkey: option_text(self.pubkey),
            stage: self.stage,
            artifacts: self.artifacts,
            signed: self.signed,
            failure: self.failure@,
        }
    }
}

/// How many bytes of `key` its short form has.
pub open spec fn short_len(key: Seq<char>) -> int {
    let len = vstd::utf8::encode_utf8(key).len();
    if len < 16 {
        len as int
    } else {
        16
    }
}

/// Whether the short form of `key` ends between two characters.
pub open spec fn has_short_key(key: Seq<char>) -> bool {
    vstd::utf8::is_char_boundary(vstd::utf8::encode_utf8(key), short_len(key))
}

pub open spec fn checksums_pieces(artifacts: usize) -> Seq<(Paint, Seq<char>)> {
    marked(
        Paint::GreenBold,
        "✓"@,
        " checksums OK ("@ + text::decimal_text(artifacts as nat) + " entries)"@,
    )
}

pub open spec fn skipped_pieces(signed: bool) -> Seq<(Paint, Seq<char>)> {
    marked(
        Paint::YellowBold,
        "!"@,
        " no --pubkey given — skipped signature verification (archive signed: "@ + if signed {
            "true"@
        } else {
            "false"@
        } + ")"@,
    )
}

pub open spec fn signature_pieces(key: Seq<char>) -> Seq<(Paint, Seq<char>)> {
    marked(
        Paint::GreenBold,
        "✓"@,
        " signature OK (public key "@ + text::byte_prefix_text(key, short_len(key)) + "…)"@,
    )
}

/// The step of a verification to a failure.
pub open spec fn verify_fails(v: Verification, message: Seq<char>) -> (Verification, Lines) {
    (
        Verification { stage: ArchiveStage::Failed, failure: message, ..v },
        seq![console::error_pieces(message)],
    )
}

/// The step of a verification on `event`. An event that does not belong to the stage changes
/// nothing.
pub open spec fn verify_step(v: Verification, event: ArchiveEvent) -> (Verification, Lines) {
    match (v.stage, event) {
        (ArchiveStage::Open, ArchiveEvent::Opened { artifacts, signed, .. }) => (
            Verification { stage: ArchiveStage::Checksums, artifacts, signed, ..v },
            Seq::empty(),
        ),
        (ArchiveStage::Open, ArchiveEvent::Failed(e)) => verify_fails(v, e@),
        (ArchiveStage::Checksums, ArchiveEvent::Failed(e)) => verify_fails(
            v,
            "checksum verification failed: "@ + e@,
        ),
        (ArchiveStage::Checksums, ArchiveEvent::Done) => match v.pubkey {
            Some(_) => (
                Verification { stage: ArchiveStage::Signature, ..v },
                seq![checksums_pieces(v.artifacts)],
            ),
            None => (
                Verification { stage: ArchiveStage::Finished, ..v },
                seq![checksums_pieces(v.artifacts), skipped_pieces(v.signed)],
            ),
        },
        (ArchiveStage::Signature, ArchiveEvent::Failed(e)) => verify_fails(
            v,
            "signature verification failed: "@ + e@,
        ),
        (ArchiveStage::Signature, ArchiveEvent::Done) => match v.pubkey {
            Some(key) => (
                Verification { stage: ArchiveStage::Finished, ..v },
                seq![signature_pieces(key)],
            ),
            None => (v, Seq::empty()),
        },
        _ => (v, Seq::empty()),
    }
}

impl VerifySession {
    /// The verification of an archive, against `pubkey` if it is given.
    pub fn start(pubkey: Option<String>) -> (r: VerifySession)
        ensures
            r.stage == ArchiveStage::Open,
            pubkey is Some <==> r.pubkey is Some,
            pubkey matches Some(key) ==> r.pubkey->0@ == key@,
            r@ == (Verification {
                pubkey: option_text(pubkey),
                stage: ArchiveStage::Open,
                artifacts: 0,
                signed: false,
                failure: Seq::empty(),
            }),
    {
        VerifySession {
            pubkey,
            stage: ArchiveStage::Open,
            artifacts: 0,
            signed: false,
            failure: String::new(),
        }
    }

    /// Whether the short form of the key can be shown.
    pub fn key_can_be_shown(&self) -> (r: bool)
        ensures
            r == (self@.pubkey matches Some(key) ==> has_short_key(key)),
    {
        match &self.pubkey {
            Some(key) => {
                let s: &str = key.as_str();
                proof {
                    vstd::utf8::encode_utf8_valid_utf8(key@);
                    vstd::utf8::is_char_boundary_start_end_of_seq(vstd::utf8::encode_utf8(key@));
                }
                if s.as_bytes().len() < 16 {
                    true
                } else {
                    s.is_char_boundary(16)
                }
            },
            None => true,
        }
    }

    /// The failed verification, with the line that tells of it.
    fn fail(self, message: String) -> (r: (VerifySession, Vec<Line>))
        ensures
            (r.0@, console::shown(r.1@)) == verify_fails(self@, message@),
    {
        let mut lines: Vec<Line> = Vec::new();
        lines.push(console::error_line(message.as_str()));
        let mut next = self;
        next.stage = ArchiveStage::Failed;
        next.failure = message;
        assert(console::shown(lines@) =~= seq![console::error_pieces(message@)]);
        (next, lines)
    }

    /// The step of the verification on `event`. Where the signature was found good, the short form
    /// of the key ends between two characters.
    pub fn advance(self, event: ArchiveEvent) -> (r: (VerifySession, Vec<Line>))
        requires
            self@.stage == ArchiveStage::Signature && event is Done ==> (self@.pubkey matches Some(
                key,
            ) ==> has_short_key(key)),
        ensures
            (r.0@, console::shown(r.1@)) == verify_step(self@, event),
    {
        let mut lines: Vec<Line> = Vec::new();
        let mut next = self;
        match (next.stage, event) {
            (ArchiveStage::Open, ArchiveEvent::Opened { artifacts, signed, .. }) => {
                next.artifacts = artifacts;
                next.signed = signed;
                next.stage = ArchiveStage::Checksums;
            },
            (ArchiveStage::Open, ArchiveEvent::Failed(e)) => {
                return next.fail(e);
            },
            (ArchiveStage::Checksums, ArchiveEvent::Failed(e)) => {
                let mut message: String = "checksum verification failed: ".to_owned();
                message.append(e.as_str());
                return next.fail(message);
            },
            (ArchiveStage::Checksums, ArchiveEvent::Done) => {
                let rest: String = text::concat3(
                    " checksums OK (",
                    text::decimal(next.artifacts as u64).as_str(),
                    " entries)",
                );
                lines.push(mark_line(Paint::GreenBold, "✓", rest.as_str()));
                if next.pubkey.is_some() {
                    next.stage = ArchiveStage::Signature;
                } else {
                    let rest: String = text::concat3(
                        " no --pubkey given — skipped signature verification (archive signed: ",
                        if next.signed {
                            "true"
                        } else {
                            "false"
                        },
                        ")",
                    );
                    lines.push(mark_line(Paint::YellowBold, "!", rest.as_str()));
                    next.stage = ArchiveStage::Finished;
                }
            },
            (ArchiveStage::Signature, ArchiveEvent::Failed(e)) => {
                let mut message: String = "signature verification failed: ".to_owned();
                message.append(e.as_str());
                return next.fail(message);
            },
            (ArchiveStage::Signature, ArchiveEvent::Done) => {
                if let Some(key) = &next.pubkey {
                    let len: usize = key.as_str().as_bytes().len();
                    let short: usize = if len < 16 {
                        len
                    } else {
                        16
                    };
                    let head: String = text::byte_prefix(key.as_str(), short);
                    let rest: String = text::concat3(
                        " signature OK (public key ",
                        head.as_str(),
                        "…)",
                    );
                    lines.push(mark_line(Paint::GreenBold, "✓", rest.as_str()));
                    next.stage = ArchiveStage::Finished;
                }
            },
            _ => {},
        }
        assert(console::shown(lines@) =~= verify_step(self@, event).1);
        (next, lines)
    }
}

/// A binding of an archive.
#[derive(Debug)]
pub struct BindSession {
    /// The directory that the archive is extracted into, as it is shown.
    pub into: String,
    pub stage: ArchiveStage,
    pub name: String,
    pub artifacts: usize,
    /// The file of the stub, as it is shown.
    pub stub: String,
    /// Why the binding failed.
    pub failure: String,
}

/// The mathematical value of a [`BindSession`].
pub struct Binding {
    pub into: Seq<char>,
    pub stage: ArchiveStage,
    pub name: Seq<char>,
    pub artifacts: usize,
    pub stub: Seq<char>,
    pub failure: Seq<char>,
}

impl View for BindSession {
    type V = Binding;

    open spec fn view(&self) -> Binding {
        Binding {
            into: self.into@,
            stage: self.stage,
            name: self.name@,
            artifacts: self.artifacts,
            stub: self.stub@,
            failure: self.failure@,
        }
    }
}

/// What a finished binding tells.
pub open spec fn bound_lines(b: Binding) -> Lines {
    seq![
        marked(
            Paint::GreenBold,
            "✓"@,
            " extracted "@ + text::decimal_text(b.artifacts as nat) + " artifact(s) to "@ + b.into,
        ),
        seq![(Paint::Plain, "  generated binding: "@), (Paint::Bold, b.stub)],
        hlib::plain("  use it with:       mod "@ + hlib::stub_module(b.name) + ";"@),
    ]
}

/// The step of a binding to a failure.
pub open spec fn bind_fails(b: Binding, message: Seq<char>) -> (Binding, Lines) {
    (
        Binding { stage: ArchiveStage::Failed, failure: message, ..b },
        seq![console::error_pieces(message)],
    )
}

/// The step of a binding on `event`. An event that does not belong to the stage changes nothing.
pub open spec fn bind_step(b: Binding, event: ArchiveEvent) -> (Binding, Lines) {
    match (b.stage, event) {
        (ArchiveStage::Open, ArchiveEvent::Opened { name, artifacts, .. }) => (
            Binding { stage: ArchiveStage::Checksums, name: name@, artifacts, ..b },
            Seq::empty(),
        ),
        (ArchiveStage::Open, ArchiveEvent::Failed(e)) => bind_fails(b, e@),
        (ArchiveStage::Checksums, ArchiveEvent::Done) => (
            Binding { stage: ArchiveStage::Extract, ..b },
            Seq::empty(),
        ),
        (ArchiveStage::Checksums, ArchiveEvent::Failed(e)) => bind_fails(
            b,
            "checksum verification failed: "@ + e@,
        ),
        (ArchiveStage::Extract, ArchiveEvent::Extracted { stub }) => (
            Binding { stage: ArchiveStage::WriteStub, stub: stub@, ..b },
            Seq::empty(),
        ),
        (ArchiveStage::Extract, ArchiveEvent::Failed(e)) => bind_fails(b, e@),
        (ArchiveStage::WriteStub, ArchiveEvent::Done) => (
            Binding { stage: ArchiveStage::Finished, ..b },
            bound_lines(b),
        ),
        (ArchiveStage::WriteStub, ArchiveEvent::Failed(e)) => bind_fails(
            b,
            "cannot write `"@ + b.stub + "`: "@ + e@,
        ),
        _ => (b, Seq::empty()),
    }
}

impl BindSession {
    /// The binding of an archive into the directory `into`.
    pub fn start(into: String) -> (r: BindSession)
        ensures
            r.stage == ArchiveStage::Open,
            r.into@ == into@,
            r@ == (Binding {
                into: into@,
                stage: ArchiveStage::Open,
                name: Seq::empty(),
                artifacts: 0,
                stub: Seq::empty(),
                failure: Seq::empty(),
            }),
    {
        BindSession {
            into,
            stage: ArchiveStage::Open,
            name: String::new(),
            artifacts: 0,
            stub: String::new(),
            failure: String::new(),
        }
    }

    /// The failed binding, with the line that tells of it.
    fn fail(self, message: String) -> (r: (BindSession, Vec<Line>))
        ensures
            (r.0@, console::shown(r.1@)) == bind_fails(self@, message@),
    {
        let mut lines: Vec<Line> = Vec::new();
        lines.push(console::error_line(message.as_str()));
        let mut next = self;
        next.stage = ArchiveStage::Failed;
        next.failure = message;
        assert(console::shown(lines@) =~= seq![console::error_pieces(message@)]);
        (next, lines)
    }

    /// What the finished binding tells.
    fn report(&self) -> (r: Vec<Line>)
        ensures
            console::shown(r@) == bound_lines(self@),
    {
        let mut lines: Vec<Line> = Vec::new();
        let mut rest: String = text::concat3(
            " extracted ",
            text::decimal(self.artifacts as u64).as_str(),
            " artifact(s) to ",
        );
        rest.append(self.into.as_str());
        lines.push(mark_line(Paint::GreenBold, "✓", rest.as_str()));
        let mut line = Line::of(Paint::Plain, "  generated binding: ");
        line.add(Paint::Bold, self.stub.as_str());
        assert(line@ =~= bound_lines(self@)[1]);
        lines.push(line);
        let mut module: String = self.name.clone();
        module.append("_hlib_bind");
        let usage: String = text::concat3("  use it with:       mod ", module.as_str(), ";");
        lines.push(Line::of(Paint::Plain, usage.as_str()));
        assert(console::shown(lines@) =~= bound_lines(self@));
        lines
    }

    /// The step of the binding on `event`.
    pub fn advance(self, event: ArchiveEvent) -> (r: (BindSession, Vec<Line>))
        ensures
            (r.0@, console::shown(r.1@)) == bind_step(self@, event),
    {
        let mut lines: Vec<Line> = Vec::new();
        let mut next = self;
        match (next.stage, event) {
            (ArchiveStage::Open, ArchiveEvent::Opened { name, artifacts, .. }) => {
                next.name = name;
                next.artifacts = artifacts;
                next.stage = ArchiveStage::Checksums;
            },
            (ArchiveStage::Open, ArchiveEvent::Failed(e)) => {
                return next.fail(e);
            },
            (ArchiveStage::Checksums, ArchiveEvent::Done) => {
                next.stage = ArchiveStage::Extract;
            },
            (ArchiveStage::Checksums, ArchiveEvent::Failed(e)) => {
                let mut message: String = "checksum verification failed: ".to_owned();
                message.append(e.as_str());
                return next.fail(message);
            },
            (ArchiveStage::Extract, ArchiveEvent::Extracted { stub }) => {
                next.stub = stub;
                next.stage = ArchiveStage::WriteStub;
            },
            (ArchiveStage::Extract, ArchiveEvent::Failed(e)) => {
                return next.fail(e);
            },
            (ArchiveStage::WriteStub, ArchiveEvent::Done) => {
                lines = next.report();
                next.stage = ArchiveStage::Finished;
            },
            (ArchiveStage::WriteStub, ArchiveEvent::Failed(e)) => {
                let mut message: String = text::concat3("cannot write `", next.stub.as_str(), "`: ");
                message.append(e.as_str());
                return next.fail(message);
            },
            _ => {},
        }
        assert(console::shown(lines@) =~= bind_step(self@, event).1);
        (next, lines)
    }
}

/// The permissions of a signing key file: for its owner alone.
pub const KEY_FILE_MODE: u32 = 0o600;

/// What is told of a new key pair.
pub open spec fn keygen_lines(out: Seq<char>, public_key: Seq<char>) -> Lines {
    seq![
        marked(
            Paint::GreenBold,
            "✓"@,
            " secret signing key written to "@ + out + " (keep it private!)"@,
        ),
        hlib::plain("  public key (share this / commit it to your trust store):"@),
        seq![(Paint::Plain, "  "@), (Paint::Bold, public_key)],
    ]
}

/// Tells of a new key pair: `out` is the file of the secret key, as it is shown.
fn keygen_report(out: &str, public_key: &str) -> (r: Vec<Line>)
    ensures
        console::shown(r@) == keygen_lines(out@, public_key@),
{
    let mut lines: Vec<Line> = Vec::new();
    let rest: String = text::concat3(" secret signing key written to ", out, " (keep it private!)");
    lines.push(mark_line(Paint::GreenBold, "✓", rest.as_str()));
    lines.push(
        Line::of(Paint::Plain, "  public key (share this / commit it to your trust store):"),
    );
    let mut line = Line::of(Paint::Plain, "  ");
    line.add(Paint::Bold, public_key);
    assert(line@ =~= keygen_lines(out@, public_key@)[2]);
    lines.push(line);
    assert(console::shown(lines@) =~= keygen_lines(out@, public_key@));
    lines
}

/// The line that tells that the key file `out` could not be written, for the reason `e`.
fn keygen_failure(out: &str, e: &str) -> (r: Line)
    ensures
        r@ == console::error_pieces("cannot write `"@ + out@ + "`: "@ + e@),
{
    let mut message: String = text::concat3("cannot write `", out, "`: ");
    message.append(e);
    console::error_line(message.as_str())
}

/// The end of making a key pair, after the attempt to write the secret key to the file `out`: whether
/// it went well, and what is told of it. The public key is told only where the secret one is safe.
pub fn keygen_end(out: &str, public_key: &str, written: Result<(), String>) -> (r: (
    bool,
    Vec<Line>,
))
    ensures
        r.0 <==> written is Ok,
        written is Ok ==> console::shown(r.1@) == keygen_lines(out@, public_key@),
        written matches Err(e) ==> console::shown(r.1@) == seq![
            console::error_pieces("cannot write `"@ + out@ + "`: "@ + e@),
        ],
{
    match written {
        Ok(()) => (true, keygen_report(out, public_key)),
        Err(e) => {
            let mut lines: Vec<Line> = Vec::new();
            lines.push(keygen_failure(out, e.as_str()));
            assert(console::shown(lines@) =~= seq![
                console::error_pieces("cannot write `"@ + out@ + "`: "@ + e@),
            ]);
            (false, lines)
        },
    }
}

} // verus!
