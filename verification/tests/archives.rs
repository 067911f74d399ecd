use std::path::PathBuf;

use hsharp::cli::LibCommand;
use hsharp::console::{error_line, Line, Paint};
use hsharp::export::{ExportedSymbol, ExportedSymbolKind};
use hsharp::hlib::{
    bind_stub, can_shorten, inspect_report, inspect_start, render_stub, shared_object_path,
    stub_file_name, stub_path, Artifact, ArtifactKind, Manifest,
};
use hsharp::hlib_cmd::{
    keygen_end, run, ArchiveEvent, ArchiveStage, BindSession, BuildEvent,
    BuildSession, BuildStage, ExportCounts, LibTask, VerifySession, KEY_FILE_MODE,
};

fn flat(lines: &[Line]) -> Vec<String> {
    lines
        .iter()
        .map(|l| l.pieces.iter().map(|p| p.text.as_str()).collect::<Vec<_>>().concat())
        .collect()
}

fn symbol(name: &str, kind: ExportedSymbolKind, generic: bool) -> ExportedSymbol {
    ExportedSymbol {
        name: name.to_string(),
        kind,
        signature: format!("sig {}", name),
        params: Vec::new(),
        returns: None,
        generic,
        is_macro: false,
    }
}

fn artifact(kind: ArtifactKind, path: &str) -> Artifact {
    Artifact {
        kind,
        path: path.to_string(),
        size: 42,
        sha256: "0123456789abcdef0123456789abcdef".to_string(),
    }
}

fn manifest() -> Manifest {
    Manifest {
        name: "mylib".to_string(),
        version: "0.1.0".to_string(),
        language: "hsharp".to_string(),
        language_version: "0.8.0".to_string(),
        spec_version: "1".to_string(),
        abi_version: "2".to_string(),
        created_at: "today".to_string(),
        description: String::new(),
        public_key: None,
        artifacts: vec![
            artifact(ArtifactKind::Other("Header".to_string()), "header.json"),
            artifact(ArtifactKind::SharedObject, "native/mylib.so"),
            artifact(ArtifactKind::SharedObject, "native/second.so"),
        ],
        exports: vec![
            symbol("add", ExportedSymbolKind::Function, false),
            symbol("id", ExportedSymbolKind::Function, true),
            symbol("Point", ExportedSymbolKind::Struct, false),
            symbol("Show", ExportedSymbolKind::Trait, true),
        ],
    }
}

#[test]
fn commands_go_to_their_handler() {
    let out = PathBuf::from("k");
    assert!(matches!(run(LibCommand::Keygen { out }), LibTask::Keygen { out } if out == PathBuf::from("k")));
    let task = run(LibCommand::Build {
        file: PathBuf::from("a.h#"),
        output: Some("a.hlib".to_string()),
        lib_version: "2.0".to_string(),
        target: None,
        sign: None,
        release: true,
    });
    match task {
        LibTask::Build(r) => {
            assert_eq!(r.file, PathBuf::from("a.h#"));
            assert_eq!(r.output, Some("a.hlib".to_string()));
            assert_eq!(r.lib_version, "2.0");
            assert!(r.release && r.target.is_none() && r.sign.is_none());
        }
        _ => panic!("another handler"),
    }
    let file = PathBuf::from("x");
    assert!(matches!(run(LibCommand::Inspect { file: file.clone() }), LibTask::Inspect { .. }));
    assert!(matches!(run(LibCommand::Verify { file: file.clone(), pubkey: Some("p".to_string()) }), LibTask::Verify { pubkey: Some(_), .. }));
    assert!(matches!(run(LibCommand::Bind { file, into: PathBuf::from("i") }), LibTask::Bind { .. }));
}

#[test]
fn errors_are_marked() {
    let line = error_line("bad");
    assert_eq!(line.pieces[0].paint, Paint::RedBold);
    assert_eq!(flat(&[line]), vec!["Error: bad"]);
}

#[test]
fn manifests_are_shown() {
    let m = manifest();
    assert!(m.artifacts.iter().all(|a| can_shorten(&a.sha256)));
    let lines = inspect_report(&m);
    assert_eq!(lines[0].pieces[0].paint, Paint::Bold);
    assert_eq!(
        flat(&lines),
        vec![
            "hlib: mylib v0.1.0 (hsharp)".to_string(),
            "  spec version:     1".to_string(),
            "  abi version:      2".to_string(),
            "  built by:         hsharp 0.8.0".to_string(),
            "  created at:       today".to_string(),
            "  signed:           no".to_string(),
            "  artifacts (3):".to_string(),
            format!("    {:<10} {:<45} {} bytes  sha256:{}", "Header", "header.json", 42, "0123456789abcdef"),
            format!("    {:<10} {:<45} {} bytes  sha256:{}", "SharedObject", "native/mylib.so", 42, "0123456789abcdef"),
            format!("    {:<10} {:<45} {} bytes  sha256:{}", "SharedObject", "native/second.so", 42, "0123456789abcdef"),
            "  exports (4):".to_string(),
            "    sig add".to_string(),
            "    sig id  [generic — AST only]".to_string(),
            "    sig Point".to_string(),
            "    sig Show  [generic — AST only]".to_string(),
        ]
    );
}

#[test]
fn descriptions_and_keys_are_shown() {
    let mut m = manifest();
    m.description = "tools".to_string();
    m.public_key = Some("beef".to_string());
    m.artifacts = Vec::new();
    m.exports = Vec::new();
    let lines = flat(&inspect_report(&m));
    assert_eq!(
        lines[5..],
        [
            "  description:      tools",
            "  signed:           yes",
            "    public key:     beef",
            "  artifacts (0):",
            "  exports (0):",
        ]
    );
}

#[test]
fn short_digests_cannot_be_cut() {
    assert!(can_shorten("0123456789abcdef"));
    assert!(!can_shorten("0123456789abcde"));
    assert!(!can_shorten("0123456789abcdeż"));
}

#[test]
fn manifests_are_shown_up_to_a_short_digest() {
    let mut m = manifest();
    assert_eq!(flat(&inspect_start(&m)), flat(&inspect_report(&m))[..10]);
    m.artifacts[1].sha256 = "short".to_string();
    assert_eq!(flat(&inspect_start(&m)), flat(&inspect_report(&manifest()))[..8]);
}

#[test]
fn stubs_lie_below_their_directory() {
    let m = manifest();
    let path = std::path::Path::new("hlibs").join("native/mylib.so").display().to_string();
    assert_eq!(bind_stub(&m, "a.hlib", "hlibs"), render_stub(&m, "a.hlib", "hlibs", &path));
    assert!(bind_stub(&m, "a.hlib", "hlibs/").contains("[rust, \"hlibs/native/mylib.so\"]"));
    let shown = std::path::Path::new("hlibs").join("mylib_hlib_bind.h#").display().to_string();
    assert_eq!(stub_path(&m, "hlibs"), shown);
    assert_eq!(stub_path(&m, ""), "mylib_hlib_bind.h#");
}

#[test]
fn stubs_declare_exports_and_name_generics() {
    let m = manifest();
    assert_eq!(shared_object_path(&m).unwrap(), "native/mylib.so");
    assert_eq!(
        render_stub(&m, "mylib.hlib", "hlibs", "hlibs/native/mylib.so"),
        "// Auto-generated by `h# lib bind` from mylib.hlib\n\
         // mylib v0.1.0 (hsharp) — do not edit by hand, re-run `h# lib bind` instead.\n\n\
         extern dynamic [rust, \"hlibs/native/mylib.so\"] is\n    sig add\n    sig Point\nend\n\
         \n// The following exports carry unresolved type parameters and are only\n\
         // available via the AST artifact — see hlibs/ast/mylib.ast.json.\n\
         // H# does not yet auto-splice these into your module; for now, copy the\n\
         // relevant source from the AST (or from the producer's own source) directly:\n\
         // id, Show\n"
    );
    assert_eq!(stub_file_name(&m), "mylib_hlib_bind.h#");
}

#[test]
fn stubs_of_bare_archives_are_heads() {
    let mut m = manifest();
    m.artifacts = Vec::new();
    m.exports = vec![symbol("add", ExportedSymbolKind::Function, false)];
    assert!(shared_object_path(&m).is_none());
    assert_eq!(
        bind_stub(&m, "a", "b"),
        "// Auto-generated by `h# lib bind` from a\n// mylib v0.1.0 (hsharp) — do not edit by hand, re-run `h# lib bind` instead.\n\n"
    );
}

fn build(target: Option<&str>, key: Option<&str>) -> BuildSession {
    BuildSession::start(
        "src/mylib.h#".to_string(),
        Some("mylib".to_string()),
        "0.1.0".to_string(),
        None,
        target.map(|t| t.to_string()),
        key.map(|k| k.to_string()),
        false,
    )
}

fn advance(b: BuildSession, said: &mut Vec<String>, event: BuildEvent) -> BuildSession {
    let (next, lines) = b.advance(event);
    said.extend(flat(&lines));
    next
}

/// The build at `stage`, on a path without an accident.
fn build_at(stage: BuildStage, key: Option<&str>, items: usize) -> BuildSession {
    let mut b = build(Some("mars"), key);
    let mut said = Vec::new();
    while b.stage != stage {
        let event = match b.stage {
            BuildStage::FindTarget => BuildEvent::Target("x86_64-linux".to_string()),
            BuildStage::Compile => BuildEvent::Compiled(".so".to_string()),
            BuildStage::Summarize => BuildEvent::Exports(ExportCounts { symbols: items, generic: 0, items }),
            BuildStage::ReadKey => BuildEvent::Key(" cafe\n".to_string()),
            BuildStage::Write => BuildEvent::Written { artifacts: 3, signed: key.is_some() },
            BuildStage::Finished | BuildStage::Failed => panic!("over"),
            _ => BuildEvent::Done,
        };
        b = advance(b, &mut said, event);
    }
    b
}

#[test]
fn builds_start_from_the_stem() {
    let b = build(None, None);
    assert_eq!((b.out.as_str(), b.tmp.as_str()), ("build/mylib.hlib", "build/.hlib-mylib"));
    let b = BuildSession::start(
        "..".to_string(),
        None,
        "2.0.0".to_string(),
        Some("o.hlib".to_string()),
        None,
        None,
        true,
    );
    assert_eq!((b.stem.as_str(), b.out.as_str()), ("mylib", "o.hlib"));
    assert!(b.release);
    assert_eq!(b.version, "2.0.0");
    assert!(b.signing_key.is_none());
}

#[test]
fn builds_do_their_work_in_order() {
    let mut said = Vec::new();
    let mut stages = Vec::new();
    let mut b = build(None, Some("keys/k"));
    let counts = ExportCounts { symbols: 5, generic: 2, items: 5 };
    while b.stage != BuildStage::Finished {
        stages.push(b.stage);
        let event = match b.stage {
            BuildStage::FindTarget => BuildEvent::Target("x86_64-linux".to_string()),
            BuildStage::Compile => BuildEvent::Compiled(".so".to_string()),
            BuildStage::Summarize => BuildEvent::Exports(counts),
            BuildStage::ReadKey => BuildEvent::Key(" cafe\n".to_string()),
            BuildStage::Write => BuildEvent::Written { artifacts: 3, signed: true },
            _ => BuildEvent::Done,
        };
        b = advance(b, &mut said, event);
    }
    assert_eq!(
        stages,
        vec![
            BuildStage::Prepare,
            BuildStage::FindTarget,
            BuildStage::ReadSource,
            BuildStage::Parse,
            BuildStage::Resolve,
            BuildStage::Compile,
            BuildStage::ReadObject,
            BuildStage::Summarize,
            BuildStage::SerializeHeader,
            BuildStage::SerializeAst,
            BuildStage::AddObject,
            BuildStage::AddHeader,
            BuildStage::AddAst,
            BuildStage::AddExports,
            BuildStage::ReadKey,
            BuildStage::Write,
            BuildStage::Cleanup,
        ]
    );
    assert_eq!(b.object, "build/.hlib-mylib.so");
    assert_eq!(
        said,
        vec![
            "  Compiling: src/mylib.h# (target: x86_64-linux)",
            "  Exports: 5 export(s) (2 generic — carried via AST only)",
            "✓ src/mylib.h# → build/mylib.hlib (3 artifact(s), signed)",
        ]
    );
}

#[test]
fn builds_without_items_or_key_skip_their_stages() {
    let b = build_at(BuildStage::AddHeader, None, 0);
    let (b, _) = b.advance(BuildEvent::Done);
    assert_eq!(b.stage, BuildStage::AddExports);
    let (b, _) = b.advance(BuildEvent::Done);
    assert_eq!(b.stage, BuildStage::Write);
    let (b, _) = b.advance(BuildEvent::Written { artifacts: 2, signed: false });
    let (b, lines) = b.advance(BuildEvent::Done);
    assert_eq!(b.stage, BuildStage::Finished);
    assert_eq!(flat(&lines), vec!["✓ src/mylib.h# → build/mylib.hlib (2 artifact(s), unsigned)"]);
}

#[test]
fn archives_are_signed_with_the_trimmed_key() {
    let b = build_at(BuildStage::Write, Some("keys/k"), 1);
    assert_eq!(b.signing_key.as_deref(), Some("cafe"));
    assert!(build_at(BuildStage::Write, None, 1).signing_key.is_none());
}

#[test]
fn every_failure_of_a_build_is_told() {
    let cases = vec![
        (BuildStage::FindTarget, "Error: unknown target `mars`. Run `h# targets` to list them."),
        (BuildStage::ReadSource, "Error: cannot read `src/mylib.h#`: e"),
        (BuildStage::Resolve, "Error: e"),
        (BuildStage::Compile, "Error: e"),
        (BuildStage::ReadObject, "Error: compiled .so vanished at `build/.hlib-mylib.so`: e"),
        (BuildStage::SerializeHeader, "Error: failed to serialize header: e"),
        (BuildStage::SerializeAst, "Error: failed to serialize AST: e"),
        (BuildStage::AddObject, "Error: e"),
        (BuildStage::AddHeader, "Error: e"),
        (BuildStage::AddAst, "Error: e"),
        (BuildStage::ReadKey, "Error: cannot read signing key `k`: e"),
        (BuildStage::Write, "Error: e"),
    ];
    for (stage, told) in cases {
        let (b, lines) = build_at(stage, Some("k"), 1).advance(BuildEvent::Failed("e".to_string()));
        assert_eq!(b.stage, BuildStage::Failed);
        assert_eq!(flat(&lines), vec![told]);
        assert_eq!(format!("Error: {}", b.failure), told);
    }
    let (b, lines) = build_at(BuildStage::Parse, None, 0).advance(BuildEvent::Failed("3:1: e".to_string()));
    assert_eq!(b.failure, "parsing failed.");
    assert_eq!(flat(&lines), vec!["3:1: e", "Error: parsing failed."]);
    let (_, lines) = build_at(BuildStage::Compile, None, 0).advance(BuildEvent::TypeErrors);
    assert_eq!(flat(&lines), vec!["Error: compilation failed (type errors above)."]);
}

#[test]
fn stray_events_leave_a_build_as_it_is() {
    let (b, lines) = build(None, None).advance(BuildEvent::Written { artifacts: 9, signed: true });
    assert_eq!((b.stage, b.artifacts), (BuildStage::Prepare, 0));
    assert!(lines.is_empty());
    let failed = build_at(BuildStage::Write, None, 0).advance(BuildEvent::Failed("e".to_string())).0;
    let (again, lines) = failed.advance(BuildEvent::Done);
    assert_eq!(again.stage, BuildStage::Failed);
    assert!(lines.is_empty());
}

fn opened() -> ArchiveEvent {
    ArchiveEvent::Opened { name: "mylib".to_string(), artifacts: 3, signed: true }
}

#[test]
fn archives_are_verified_without_a_key() {
    let v = VerifySession::start(None);
    assert!(v.key_can_be_shown());
    let (v, _) = v.advance(opened());
    let (v, lines) = v.advance(ArchiveEvent::Done);
    assert_eq!(v.stage, ArchiveStage::Finished);
    assert_eq!(lines[0].pieces[0].paint, Paint::GreenBold);
    assert_eq!(lines[1].pieces[0].paint, Paint::YellowBold);
    assert_eq!(
        flat(&lines),
        vec![
            "✓ checksums OK (3 entries)",
            "! no --pubkey given — skipped signature verification (archive signed: true)",
        ]
    );
}

#[test]
fn archives_are_verified_with_a_key() {
    let v = VerifySession::start(Some("0123456789abcdef0123".to_string()));
    assert!(v.key_can_be_shown());
    let (v, _) = v.advance(opened());
    let (v, lines) = v.advance(ArchiveEvent::Done);
    assert_eq!(v.stage, ArchiveStage::Signature);
    assert_eq!(flat(&lines), vec!["✓ checksums OK (3 entries)"]);
    let (v, lines) = v.advance(ArchiveEvent::Done);
    assert_eq!(v.stage, ArchiveStage::Finished);
    assert_eq!(flat(&lines), vec!["✓ signature OK (public key 0123456789abcdef…)"]);
}

#[test]
fn short_keys_are_shown_whole() {
    let v = VerifySession::start(Some("abc".to_string()));
    assert!(v.key_can_be_shown());
    let v = v.advance(opened()).0.advance(ArchiveEvent::Done).0;
    assert_eq!(flat(&v.advance(ArchiveEvent::Done).1), vec!["✓ signature OK (public key abc…)"]);
    assert!(!VerifySession::start(Some("0123456789abcdeż".to_string())).key_can_be_shown());
}

#[test]
fn failed_verifications_are_told() {
    let fail = || ArchiveEvent::Failed("e".to_string());
    let key = || Some("k".to_string());
    let (v, lines) = VerifySession::start(key()).advance(fail());
    assert_eq!(v.stage, ArchiveStage::Failed);
    assert_eq!(flat(&lines), vec!["Error: e"]);
    let (_, lines) = VerifySession::start(key()).advance(opened()).0.advance(fail());
    assert_eq!(flat(&lines), vec!["Error: checksum verification failed: e"]);
    let signature = VerifySession::start(key()).advance(opened()).0.advance(ArchiveEvent::Done).0;
    let (v, lines) = signature.advance(fail());
    assert_eq!(flat(&lines), vec!["Error: signature verification failed: e"]);
    assert_eq!(v.failure, "signature verification failed: e");
    assert_eq!(v.advance(ArchiveEvent::Done).0.stage, ArchiveStage::Failed);
}

#[test]
fn archives_are_bound() {
    let b = BindSession::start("hlibs".to_string());
    let b = b.advance(opened()).0.advance(ArchiveEvent::Done).0;
    assert_eq!(b.stage, ArchiveStage::Extract);
    let b = b.advance(ArchiveEvent::Extracted { stub: "hlibs/mylib_hlib_bind.h#".to_string() }).0;
    assert_eq!(b.stage, ArchiveStage::WriteStub);
    let (b, lines) = b.advance(ArchiveEvent::Done);
    assert_eq!(b.stage, ArchiveStage::Finished);
    assert_eq!(
        flat(&lines),
        vec![
            "✓ extracted 3 artifact(s) to hlibs",
            "  generated binding: hlibs/mylib_hlib_bind.h#",
            "  use it with:       mod mylib_hlib_bind;",
        ]
    );
}

#[test]
fn failed_bindings_are_told() {
    let fail = || ArchiveEvent::Failed("e".to_string());
    let start = || BindSession::start("hlibs".to_string());
    assert_eq!(flat(&start().advance(fail()).1), vec!["Error: e"]);
    let checked = || start().advance(opened()).0;
    assert_eq!(flat(&checked().advance(fail()).1), vec!["Error: checksum verification failed: e"]);
    let extract = || checked().advance(ArchiveEvent::Done).0;
    assert_eq!(flat(&extract().advance(fail()).1), vec!["Error: e"]);
    let write = extract().advance(ArchiveEvent::Extracted { stub: "s".to_string() }).0;
    assert_eq!(flat(&write.advance(fail()).1), vec!["Error: cannot write `s`: e"]);
    assert_eq!(start().advance(ArchiveEvent::Done).0.stage, ArchiveStage::Open);
}

#[test]
fn new_keys_are_told() {
    assert_eq!(KEY_FILE_MODE, 0o600);
    let (safe, lines) = keygen_end("k.key", "beef", Ok(()));
    assert!(safe);
    assert_eq!(lines[2].pieces[1].paint, Paint::Bold);
    assert_eq!(
        flat(&lines),
        vec![
            "✓ secret signing key written to k.key (keep it private!)",
            "  public key (share this / commit it to your trust store):",
            "  beef",
        ]
    );
    let (safe, lines) = keygen_end("k.key", "beef", Err("denied".to_string()));
    assert!(!safe);
    assert_eq!(flat(&lines), vec!["Error: cannot write `k.key`: denied"]);
}
