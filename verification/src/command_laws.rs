//! What each step of an `.hlib` session does, and what the program says of it.

use vstd::prelude::*;

use crate::cli;
use crate::cli::{Command, LibCommand, Platform};
use crate::console;
use crate::console::Paint;
use crate::export::ExportedSymbol;
use crate::hlib_cmd;
use crate::hlib_cmd::{
    ArchiveEvent, ArchiveStage, Binding, Build, BuildEvent, BuildStage, Verification,
};
use crate::session_laws;
use crate::text;

verus! {

/// Every command goes to its own handler, and every option that was given reaches it unchanged.
pub proof fn law_options_reach_their_handler(cmd: LibCommand)
    ensures
        ({
            let task = hlib_cmd::task_of(cmd);
            &&& cmd is Build <==> task is Build
            &&& cmd is Inspect <==> task is Inspect
            &&& cmd is Verify <==> task is Verify
            &&& cmd is Keygen <==> task is Keygen
            &&& cmd is Bind <==> task is Bind
            &&& cmd is Build ==> {
                let request = task->Build_0;
                &&& request.file == cmd->Build_file
                &&& request.output == cmd->Build_output
                &&& request.lib_version == cmd->Build_lib_version
                &&& request.target == cmd->Build_target
                &&& request.sign == cmd->Build_sign
                &&& request.release == cmd->Build_release
            }
            &&& cmd is Inspect ==> task->Inspect_file == cmd->Inspect_file
            &&& cmd is Verify ==> task->Verify_file == cmd->Verify_file && task->Verify_pubkey
                == cmd->Verify_pubkey
            &&& cmd is Keygen ==> task->Keygen_out == cmd->Keygen_out
            &&& cmd is Bind ==> task->Bind_file == cmd->Bind_file && task->Bind_into
                == cmd->Bind_into
        }),
{
}

/// A failure is told behind a red mark.
pub proof fn law_errors_are_marked(message: Seq<char>)
    ensures
        console::error_pieces(message) == seq![
            (Paint::RedBold, "Error:"@),
            (Paint::Plain, " "@ + message),
        ],
{
}

/// The generic exports of two lists are those of the one and of the other together; one export
/// counts if and only if it is generic.
pub proof fn law_generic_exports_are_counted(a: Seq<ExportedSymbol>, b: Seq<ExportedSymbol>)
    ensures
        hlib_cmd::generic_count(a + b, (a + b).len()) == hlib_cmd::generic_count(a, a.len())
            + hlib_cmd::generic_count(b, b.len()),
        b.len() == 1 ==> hlib_cmd::generic_count(b, 1) == if b[0].generic {
            1nat
        } else {
            0nat
        },
{
    lemma_count(a, b, b.len());
    assert(hlib_cmd::generic_count(b, 0) == 0);
}

proof fn lemma_count_of_prefix(a: Seq<ExportedSymbol>, b: Seq<ExportedSymbol>, n: nat)
    requires
        n <= a.len(),
    ensures
        hlib_cmd::generic_count(a + b, n) == hlib_cmd::generic_count(a, n),
    decreases n,
{
    if n > 0 {
        lemma_count_of_prefix(a, b, (n - 1) as nat);
        assert((a + b)[n - 1] == a[n - 1]);
    }
}

proof fn lemma_count(a: Seq<ExportedSymbol>, b: Seq<ExportedSymbol>, n: nat)
    requires
        n <= b.len(),
    ensures
        hlib_cmd::generic_count(a + b, a.len() + n) == hlib_cmd::generic_count(a, a.len())
            + hlib_cmd::generic_count(b, n),
    decreases n,
{
    if n == 0 {
        lemma_count_of_prefix(a, b, a.len());
    } else {
        lemma_count(a, b, (n - 1) as nat);
        assert((a + b)[a.len() + n - 1] == b[n - 1]);
    }
}

/// A library is named after its file, whatever that is called, and `mylib` where the name cannot be
/// spelled.
pub proof fn law_libraries_are_named_after_their_file(stem: Option<String>)
    ensures
        stem matches Some(s) ==> hlib_cmd::stem_text(stem) == s@,
        stem is None ==> hlib_cmd::stem_text(stem) == "mylib"@,
        stem matches Some(s) ==> hlib_cmd::option_text(stem) == Some(s@),
        stem is None ==> hlib_cmd::option_text(stem) is None,
{
}

/// Whether `event` tells that the work of `stage` succeeded.
pub open spec fn succeeds(stage: BuildStage, event: BuildEvent) -> bool {
    match stage {
        BuildStage::FindTarget => event is Target,
        BuildStage::Compile => event is Compiled,
        BuildStage::Summarize => event is Exports,
        BuildStage::ReadKey => event is Key,
        BuildStage::Write => event is Written,
        BuildStage::Finished => false,
        BuildStage::Failed => false,
        _ => event is Done,
    }
}

/// Whether `event` tells that the work of the stage failed, where it can.
pub open spec fn breaks(b: Build, event: BuildEvent) -> bool {
    match b.stage {
        BuildStage::Prepare => false,
        BuildStage::FindTarget => event is Failed && b.target is Some,
        BuildStage::Compile => event is Failed || event is TypeErrors,
        BuildStage::Summarize => false,
        BuildStage::AddExports => false,
        BuildStage::ReadKey => event is Failed && b.key is Some,
        BuildStage::Cleanup => false,
        BuildStage::Finished => false,
        BuildStage::Failed => false,
        _ => event is Failed,
    }
}

/// Work that succeeds takes a build to the next stage whose work is needed.
pub proof fn law_success_takes_the_next_needed_stage(
    b: Build,
    event: BuildEvent,
    skipped: BuildStage,
)
    requires
        succeeds(b.stage, event),
    ensures
        ({
            let next = hlib_cmd::build_step(b, event).0;
            &&& session_laws::build_rank(next.stage) > session_laws::build_rank(b.stage)
            &&& session_laws::build_needs(next, next.stage)
            &&& b.stage == BuildStage::AddHeader ==> (next.stage == BuildStage::AddAst
                <==> b.counts.items >= 1)
            &&& b.stage == BuildStage::AddExports ==> (next.stage == BuildStage::ReadKey
                <==> b.key is Some)
            &&& session_laws::build_rank(b.stage) < session_laws::build_rank(skipped)
                < session_laws::build_rank(next.stage) ==> !session_laws::build_needs(next, skipped)
        }),
{
}

/// Work that fails ends a build, and any event that belongs to another stage changes nothing.
pub proof fn law_failure_ends_a_build(b: Build, event: BuildEvent)
    ensures
        breaks(b, event) ==> hlib_cmd::build_step(b, event).0.stage == BuildStage::Failed,
        !breaks(b, event) && b.stage != BuildStage::Failed ==> hlib_cmd::build_step(
            b,
            event,
        ).0.stage != BuildStage::Failed,
        !breaks(b, event) && !succeeds(b.stage, event) ==> hlib_cmd::build_step(b, event) == (
            b,
            session_laws::silence(),
        ),
{
}

/// A build takes note of what its work brings, as it is brought, and of nothing else: the triple of
/// its target, where the shared object is, how much is exported, the key, and what was written.
pub proof fn law_builds_take_note(b: Build, event: BuildEvent)
    requires
        succeeds(b.stage, event),
    ensures
        ({
            let next = hlib_cmd::build_step(b, event).0;
            let stage = next.stage;
            match event {
                BuildEvent::Target(triple) => next == (Build { stage, triple: triple@, ..b }),
                BuildEvent::Compiled(suffix) => next == (Build {
                    stage,
                    object: b.tmp + suffix@,
                    ..b
                }),
                BuildEvent::Exports(counts) => next == (Build { stage, counts, ..b }),
                BuildEvent::Key(key) => next == (Build {
                    stage,
                    signing_key: Some(text::trimmed(key@)),
                    ..b
                }),
                BuildEvent::Written { artifacts, signed } => next == (Build {
                    stage,
                    artifacts,
                    signed,
                    ..b
                }),
                _ => next == (Build { stage, ..b }),
            }
        }),
{
}

/// A failed build is as it was, but for its stage and the reason. The reason names what could not be
/// done, on what, and why.
pub proof fn law_builds_fail_for_a_reason(b: Build, event: BuildEvent)
    requires
        breaks(b, event),
    ensures
        ({
            let next = hlib_cmd::build_step(b, event).0;
            &&& next == (Build { stage: BuildStage::Failed, failure: next.failure, ..b })
            &&& event is TypeErrors ==> next.failure == "compilation failed (type errors above)."@
            &&& event matches BuildEvent::Failed(e) ==> match b.stage {
                BuildStage::FindTarget => next.failure == "unknown target `"@ + b.target->0
                    + "`. Run `h# targets` to list them."@,
                BuildStage::ReadSource => next.failure == "cannot read `"@ + b.file + "`: "@ + e@,
                BuildStage::Parse => next.failure == "parsing failed."@,
                BuildStage::ReadObject => next.failure == "compiled .so vanished at `"@ + b.object
                    + "`: "@ + e@,
                BuildStage::SerializeHeader => next.failure == "failed to serialize header: "@ + e@,
                BuildStage::SerializeAst => next.failure == "failed to serialize AST: "@ + e@,
                BuildStage::ReadKey => next.failure == "cannot read signing key `"@ + b.key->0
                    + "`: "@ + e@,
                _ => next.failure == e@,
            }
        }),
{
}

/// A failing build says its reason, behind what the parser renders where parsing failed, and nothing
/// else.
pub proof fn law_failing_builds_say_why(b: Build, event: BuildEvent)
    requires
        breaks(b, event),
    ensures
        ({
            let (next, lines) = hlib_cmd::build_step(b, event);
            let error = seq![(Paint::RedBold, "Error:"@), (Paint::Plain, " "@ + next.failure)];
            &&& b.stage != BuildStage::Parse ==> lines == seq![error]
            &&& b.stage == BuildStage::Parse ==> (event matches BuildEvent::Failed(e) ==> lines
                == seq![seq![(Paint::Plain, e@)], error])
        }),
{
}

/// A build says what it compiles for which target, how much is exported, and where the archive is;
/// it is silent at every other step that succeeds.
pub proof fn law_builds_say_how_they_go_on(b: Build, event: BuildEvent)
    requires
        succeeds(b.stage, event),
    ensures
        ({
            let lines = hlib_cmd::build_step(b, event).1;
            match b.stage {
                BuildStage::Resolve => lines == seq![
                    seq![
                        (Paint::Plain, "  "@),
                        (Paint::GreenBold, "Compiling:"@),
                        (Paint::Plain, " "@ + b.file + " (target: "@ + b.triple + ")"@),
                    ],
                ],
                BuildStage::SerializeAst => lines == seq![
                    seq![
                        (Paint::Plain, "  "@),
                        (Paint::GreenBold, "Exports:"@),
                        (
                            Paint::Plain,
                            " "@ + text::decimal_text(b.counts.symbols as nat) + " export(s) ("@
                                + text::decimal_text(b.counts.generic as nat)
                                + " generic — carried via AST only)"@,
                        ),
                    ],
                ],
                BuildStage::Cleanup => lines.len() == 1 && lines[0].len() == 4 && lines[0][0] == (
                    Paint::GreenBold,
                    "✓"@,
                ) && lines[0][1] == (Paint::Plain, " "@ + b.file + " → "@) && lines[0][2] == (
                    Paint::Bold,
                    b.out,
                ) && lines[0][3].0 == Paint::Plain && (b.signed ==> lines[0][3].1 == " ("@
                    + text::decimal_text(b.artifacts as nat) + " artifact(s)"@ + ", signed)"@) && (
                !b.signed ==> lines[0][3].1 == " ("@ + text::decimal_text(b.artifacts as nat)
                    + " artifact(s)"@ + ", unsigned)"@),
                _ => lines.len() == 0,
            }
        }),
{
}

/// Work that succeeds takes a verification from opening to the checksums, from these to the
/// signature where a key is given, and else to its end. What was opened is taken note of.
pub proof fn law_verifications_go_on(v: Verification, event: ArchiveEvent)
    ensures
        ({
            let next = hlib_cmd::verify_step(v, event).0;
            let stage = next.stage;
            &&& v.stage == ArchiveStage::Open ==> (event matches ArchiveEvent::Opened {
                artifacts,
                signed,
                ..
            } ==> stage == ArchiveStage::Checksums && next == (Verification {
                stage,
                artifacts,
                signed,
                ..v
            }))
            &&& v.stage == ArchiveStage::Checksums && event is Done ==> next == (Verification {
                stage,
                ..v
            }) && (v.pubkey is Some ==> stage == ArchiveStage::Signature) && (v.pubkey is None
                ==> stage == ArchiveStage::Finished)
            &&& v.stage == ArchiveStage::Signature && event is Done && v.pubkey is Some ==> next
                == (Verification { stage: ArchiveStage::Finished, ..v })
        }),
{
}

/// A verification says how many entries were checked, and then that the signature is good with the
/// head of the key, or that there was no key and whether the archive is signed.
pub proof fn law_verifications_say_what_they_found(v: Verification, event: ArchiveEvent)
    ensures
        ({
            let lines = hlib_cmd::verify_step(v, event).1;
            &&& v.stage == ArchiveStage::Open && event is Opened ==> lines.len() == 0
            &&& v.stage == ArchiveStage::Checksums && event is Done ==> {
                &&& lines[0] == seq![
                    (Paint::GreenBold, "✓"@),
                    (
                        Paint::Plain,
                        " checksums OK ("@ + text::decimal_text(v.artifacts as nat) + " entries)"@,
                    ),
                ]
                &&& v.pubkey is Some ==> lines.len() == 1
                &&& v.pubkey is None ==> lines.len() == 2 && lines[1].len() == 2 && lines[1][0] == (
                    Paint::YellowBold,
                    "!"@,
                ) && lines[1][1].0 == Paint::Plain
                &&& v.pubkey is None && v.signed ==> lines[1][1].1
                    == " no --pubkey given — skipped signature verification (archive signed: "@
                    + "true"@ + ")"@
                &&& v.pubkey is None && !v.signed ==> lines[1][1].1
                    == " no --pubkey given — skipped signature verification (archive signed: "@
                    + "false"@ + ")"@
            }
            &&& v.stage == ArchiveStage::Signature && event is Done ==> (v.pubkey matches Some(key)
                ==> lines == seq![
                seq![
                    (Paint::GreenBold, "✓"@),
                    (
                        Paint::Plain,
                        " signature OK (public key "@ + text::byte_prefix_text(
                            key,
                            hlib_cmd::short_len(key),
                        ) + "…)"@,
                    ),
                ],
            ])
        }),
{
}

/// The head of a key has 16 bytes, or all of them where there are fewer.
pub proof fn law_key_heads(key: Seq<char>)
    ensures
        hlib_cmd::short_len(key) <= 16,
        hlib_cmd::short_len(key) <= vstd::utf8::encode_utf8(key).len(),
        hlib_cmd::short_len(key) == 16 || hlib_cmd::short_len(key) == vstd::utf8::encode_utf8(
            key,
        ).len(),
{
}

/// Work that fails ends a verification, for a reason that names the work; any other event changes
/// nothing.
pub proof fn law_verifications_fail_for_a_reason(v: Verification, event: ArchiveEvent)
    ensures
        ({
            let next = hlib_cmd::verify_step(v, event).0;
            &&& event matches ArchiveEvent::Failed(e) ==> {
                &&& v.stage == ArchiveStage::Open ==> next.stage == ArchiveStage::Failed
                    && next.failure == e@
                &&& v.stage == ArchiveStage::Checksums ==> next.stage == ArchiveStage::Failed
                    && next.failure == "checksum verification failed: "@ + e@
                &&& v.stage == ArchiveStage::Signature ==> next.stage == ArchiveStage::Failed
                    && next.failure == "signature verification failed: "@ + e@
            }
            &&& event is Extracted ==> next == v
            &&& event is Opened && v.stage != ArchiveStage::Open ==> next == v
            &&& event is Done && v.stage == ArchiveStage::Open ==> next == v
        }),
{
}

/// Work that succeeds takes a binding from opening to the checksums, from these to extracting, to
/// writing the stub and to its end. What was opened, and where the stub goes, is taken note of.
pub proof fn law_bindings_go_on(b: Binding, event: ArchiveEvent)
    ensures
        ({
            let next = hlib_cmd::bind_step(b, event).0;
            &&& b.stage == ArchiveStage::Open ==> (event matches ArchiveEvent::Opened {
                name,
                artifacts,
                ..
            } ==> next == (Binding {
                stage: ArchiveStage::Checksums,
                name: name@,
                artifacts,
                ..b
            }))
            &&& b.stage == ArchiveStage::Checksums && event is Done ==> next == (Binding {
                stage: ArchiveStage::Extract,
                ..b
            })
            &&& b.stage == ArchiveStage::Extract ==> (event matches ArchiveEvent::Extracted { stub }
                ==> next == (Binding { stage: ArchiveStage::WriteStub, stub: stub@, ..b }))
            &&& b.stage == ArchiveStage::WriteStub && event is Done ==> next == (Binding {
                stage: ArchiveStage::Finished,
                ..b
            })
        }),
{
}

/// Work that fails ends a binding, for a reason that names the work; any other event changes
/// nothing.
pub proof fn law_bindings_fail_for_a_reason(b: Binding, event: ArchiveEvent)
    ensures
        ({
            let next = hlib_cmd::bind_step(b, event).0;
            &&& event matches ArchiveEvent::Failed(e) ==> {
                &&& b.stage == ArchiveStage::Open || b.stage == ArchiveStage::Extract ==> next.stage
                    == ArchiveStage::Failed && next.failure == e@
                &&& b.stage == ArchiveStage::Checksums ==> next.stage == ArchiveStage::Failed
                    && next.failure == "checksum verification failed: "@ + e@
                &&& b.stage == ArchiveStage::WriteStub ==> next.stage == ArchiveStage::Failed
                    && next.failure == "cannot write `"@ + b.stub + "`: "@ + e@
            }
            &&& event is Opened && b.stage != ArchiveStage::Open ==> next == b
            &&& event is Extracted && b.stage != ArchiveStage::Extract ==> next == b
            &&& event is Done && (b.stage == ArchiveStage::Open || b.stage == ArchiveStage::Extract)
                ==> next == b
        }),
{
}

/// A binding is silent until its end, and then says how much was extracted where, where the stub is,
/// and by which module it is used.
pub proof fn law_bindings_say_what_was_bound(b: Binding, event: ArchiveEvent)
    ensures
        ({
            let (next, lines) = hlib_cmd::bind_step(b, event);
            &&& next.stage != ArchiveStage::Failed && next.stage != ArchiveStage::Finished
                ==> lines.len() == 0
            &&& b.stage == ArchiveStage::WriteStub && event is Done ==> {
                &&& lines.len() == 3
                &&& lines[0] == seq![
                    (Paint::GreenBold, "✓"@),
                    (
                        Paint::Plain,
                        " extracted "@ + text::decimal_text(b.artifacts as nat)
                            + " artifact(s) to "@ + b.into,
                    ),
                ]
                &&& lines[1] == seq![
                    (Paint::Plain, "  generated binding: "@),
                    (Paint::Bold, b.stub),
                ]
                &&& lines[2] == seq![
                    (
                        Paint::Plain,
                        "  use it with:       mod "@ + (b.name + "_hlib_bind"@) + ";"@,
                    ),
                ]
            }
        }),
{
}

/// A new key pair is told by the file of the secret key and by the public key.
pub proof fn law_new_keys_are_told(out: Seq<char>, public_key: Seq<char>)
    ensures
        hlib_cmd::keygen_lines(out, public_key) == seq![
            seq![
                (Paint::GreenBold, "✓"@),
                (Paint::Plain, " secret signing key written to "@ + out + " (keep it private!)"@),
            ],
            seq![
                (Paint::Plain, "  public key (share this / commit it to your trust store):"@),
            ],
            seq![(Paint::Plain, "  "@), (Paint::Bold, public_key)],
        ],
{
}

/// Every command starts with the banner but the language server and the interactive session.
pub proof fn law_banners(command: Command)
    ensures
        command is Lsp || command is Repl ==> !cli::has_banner(command),
        command is Compile || command is Preview || command is Check || command is New || command
            is Targets ==> cli::has_banner(command),
        command is Fmt || command is Docs || command is FfiHeader || command is Lib
            ==> cli::has_banner(command),
{
}

/// Each target has a line of its own, in order, with its name and its description, between a title
/// and a hint.
pub proof fn law_targets_are_listed(targets: Seq<(String, String)>, i: int)
    requires
        0 <= i < targets.len(),
    ensures
        ({
            let lines = cli::targets_lines(targets);
            let end = targets.len() as int + 2;
            &&& lines.len() == targets.len() + 4
            &&& lines[0] == seq![(Paint::Bold, "Available cross-compilation targets:"@)]
            &&& lines[1].len() == 0
            &&& lines[2 + i] == seq![
                (Paint::Plain, "  "@),
                (Paint::Cyan, text::padded(targets[i].0@, 25)),
                (Paint::Plain, "  "@ + targets[i].1@),
            ]
            &&& lines[end].len() == 0
            &&& lines[end + 1] == seq![
                (Paint::Dimmed, "Usage: h# compile --target linux-aarch64 src/main.h#"@),
            ]
        }),
{
}

/// Every opener opens the documentation; on Windows it is `start`, on macOS `open`, elsewhere
/// `xdg-open`, with the opener of Termux in front of it under Termux.
pub proof fn law_openers(platform: Platform, termux: bool, i: int)
    ensures
        ({
            let openers = cli::opener_words(platform, termux);
            &&& openers.len() >= 1
            &&& 0 <= i < openers.len() ==> openers[i].len() >= 2 && openers[i].last()
                == cli::docs_url()
            &&& openers.len() == 2 <==> platform == Platform::Unix && termux
            &&& platform == Platform::Windows ==> openers[0] == seq![
                "cmd"@,
                "/c"@,
                "start"@,
                cli::docs_url(),
            ]
            &&& platform == Platform::MacOs ==> openers[0] == seq!["open"@, cli::docs_url()]
            &&& platform == Platform::Unix ==> openers.last() == seq!["xdg-open"@, cli::docs_url()]
            &&& platform == Platform::Unix && termux ==> openers[0] == seq![
                "termux-open-url"@,
                cli::docs_url(),
            ]
        }),
{
}

/// Whether an opener worked or not, where the documentation is is told.
pub proof fn law_docs_are_told(opened: bool)
    ensures
        opened ==> cli::docs_lines(opened) == seq![
            seq![
                (Paint::GreenBold, "Opened docs:"@),
                (Paint::Plain, " "@),
                (Paint::Dimmed, cli::docs_url()),
            ],
        ],
        !opened ==> cli::docs_lines(opened) == seq![
            seq![(Paint::Yellow, "Couldn't open a browser automatically. Docs are here:"@)],
            seq![(Paint::Plain, "  "@), (Paint::CyanUnderline, cli::docs_url())],
        ],
{
}

/// A progress bar has its prefix between the spinner and the bar.
pub proof fn law_bars(prefix: Seq<char>)
    ensures
        cli::bar_layout(prefix) == "{spinner:.cyan} "@ + prefix
            + " [{bar:40.cyan/blue}] {pos}/{len}  {msg}"@,
{
}

} // verus!
