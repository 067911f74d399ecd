//! What holds of the `.hlib` sessions as a whole.

use vstd::prelude::*;

use crate::console;
use crate::hlib_cmd;
use crate::hlib_cmd::{
    ArchiveEvent, ArchiveStage, Binding, Build, BuildEvent, BuildStage, Lines, Verification,
};
use crate::text;

verus! {

/// Not a line.
pub open spec fn silence() -> Lines {
    Seq::empty()
}

/// The place of a stage in the order of the work.
pub open spec fn build_rank(stage: BuildStage) -> nat {
    match stage {
        BuildStage::Prepare => 0,
        BuildStage::FindTarget => 1,
        BuildStage::ReadSource => 2,
        BuildStage::Parse => 3,
        BuildStage::Resolve => 4,
        BuildStage::Compile => 5,
        BuildStage::ReadObject => 6,
        BuildStage::Summarize => 7,
        BuildStage::SerializeHeader => 8,
        BuildStage::SerializeAst => 9,
        BuildStage::AddObject => 10,
        BuildStage::AddHeader => 11,
        BuildStage::AddAst => 12,
        BuildStage::AddExports => 13,
        BuildStage::ReadKey => 14,
        BuildStage::Write => 15,
        BuildStage::Cleanup => 16,
        BuildStage::Finished => 17,
        BuildStage::Failed => 18,
    }
}

/// A build only moves forward: an event leaves it as it is, without a word, or takes it to a later
/// stage.
pub proof fn law_builds_move_forward(b: Build, event: BuildEvent)
    ensures
        hlib_cmd::build_step(b, event) == (b, silence()) || build_rank(
            hlib_cmd::build_step(b, event).0.stage,
        ) > build_rank(b.stage),
{
    let next = hlib_cmd::build_step(b, event);
    if next.0.stage == b.stage {
        assert(next.0 == b);
        assert(next.1 =~= silence());
    }
}

/// A build that is over stays as it is.
pub proof fn law_ended_builds_stay(b: Build, event: BuildEvent)
    requires
        b.stage == BuildStage::Finished || b.stage == BuildStage::Failed,
    ensures
        hlib_cmd::build_step(b, event) == (b, silence()),
{
}

/// A build that fails says why, at the end.
pub proof fn law_build_failures_are_told(b: Build, event: BuildEvent)
    requires
        b.stage != BuildStage::Failed,
        hlib_cmd::build_step(b, event).0.stage == BuildStage::Failed,
    ensures
        hlib_cmd::build_step(b, event).1.len() > 0,
        hlib_cmd::build_step(b, event).1.last() == console::error_pieces(
            hlib_cmd::build_step(b, event).0.failure,
        ),
{
}

/// A build keeps what it was started with.
pub proof fn law_builds_keep_their_request(b: Build, event: BuildEvent)
    ensures
        ({
            let next = hlib_cmd::build_step(b, event).0;
            &&& next.file == b.file
            &&& next.stem == b.stem
            &&& next.version == b.version
            &&& next.out == b.out
            &&& next.tmp == b.tmp
            &&& next.target == b.target
            &&& next.key == b.key
            &&& next.release == b.release
        }),
{
}

/// The build after the first `n` of `events`.
pub open spec fn build_after(b: Build, events: Seq<BuildEvent>, n: nat) -> Build
    decreases n,
{
    if n == 0 || n > events.len() {
        b
    } else {
        hlib_cmd::build_step(build_after(b, events, (n - 1) as nat), events[n - 1]).0
    }
}

/// Whether a build comes to `stage` within the first `n` of `events`.
pub open spec fn build_passes(
    b: Build,
    events: Seq<BuildEvent>,
    n: nat,
    stage: BuildStage,
) -> bool {
    exists|k: nat| k <= n && (#[trigger] build_after(b, events, k)).stage == stage
}

/// Whether a build does the work of `stage`: the AST is added where there are `pub` items, and a
/// key is read where one is given.
pub open spec fn build_needs(b: Build, stage: BuildStage) -> bool {
    match stage {
        BuildStage::AddAst => b.counts.items > 0,
        BuildStage::ReadKey => b.key is Some,
        BuildStage::Failed => false,
        _ => true,
    }
}

proof fn lemma_build_passes(b: Build, events: Seq<BuildEvent>, n: nat, stage: BuildStage)
    requires
        b.stage == BuildStage::Prepare,
        n <= events.len(),
    ensures
        ({
            let now = build_after(b, events, n);
            &&& now.key == b.key
            &&& now.stage != BuildStage::Failed && build_needs(now, stage) && build_rank(stage)
                <= build_rank(now.stage) ==> build_passes(b, events, n, stage)
            &&& build_passes(b, events, n, stage) ==> build_rank(stage) <= build_rank(now.stage)
            &&& build_passes(b, events, n, stage) && stage != BuildStage::Failed ==> build_needs(
                now,
                stage,
            )
        }),
    decreases n,
{
    let now = build_after(b, events, n);
    if n == 0 {
        if stage == BuildStage::Prepare {
            assert(build_after(b, events, 0).stage == stage);
        }
    } else {
        lemma_build_passes(b, events, (n - 1) as nat, stage);
        let before = build_after(b, events, (n - 1) as nat);
        law_builds_move_forward(before, events[n - 1]);
        if build_passes(b, events, (n - 1) as nat, stage) {
            let k = choose|k: nat|
                k <= n - 1 && (#[trigger] build_after(b, events, k)).stage == stage;
            assert(build_after(b, events, k).stage == stage);
        }
        if now.stage == stage {
            assert(build_passes(b, events, n, stage));
        }
        if build_passes(b, events, n, stage) && !build_passes(b, events, (n - 1) as nat, stage) {
            let k = choose|k: nat| k <= n && (#[trigger] build_after(b, events, k)).stage == stage;
            assert(k == n);
        }
    }
}

/// A build that finishes has done the work of every stage that it needs, and of no other.
pub proof fn law_finished_builds_did_their_work(
    b: Build,
    events: Seq<BuildEvent>,
    stage: BuildStage,
)
    requires
        b.stage == BuildStage::Prepare,
        build_after(b, events, events.len()).stage == BuildStage::Finished,
    ensures
        build_passes(b, events, events.len(), stage) <==> build_needs(
            build_after(b, events, events.len()),
            stage,
        ),
{
    lemma_build_passes(b, events, events.len(), stage);
}

/// The signing key that an event brings: the text of the file without the white space at its ends.
pub open spec fn key_read(event: BuildEvent) -> Option<Seq<char>> {
    match event {
        BuildEvent::Key(file) => Some(text::trimmed(file@)),
        _ => None,
    }
}

/// An archive is written with a signing key if and only if a key file is given, and the key is the
/// text of that file without the white space at its ends.
pub proof fn law_archives_are_signed_on_request(b: Build, events: Seq<BuildEvent>, n: nat)
    requires
        b.stage == BuildStage::Prepare,
        b.signing_key is None,
        n <= events.len(),
        build_after(b, events, n).stage == BuildStage::Write,
    ensures
        ({
            let key = build_after(b, events, n).signing_key;
            &&& key is Some <==> b.key is Some
            &&& key is Some ==> exists|k: int| 0 <= k < n && key == #[trigger] key_read(events[k])
        }),
{
    lemma_signing_key(b, events, n);
}

proof fn lemma_signing_key(b: Build, events: Seq<BuildEvent>, n: nat)
    requires
        b.stage == BuildStage::Prepare,
        b.signing_key is None,
        n <= events.len(),
    ensures
        ({
            let now = build_after(b, events, n);
            &&& now.key == b.key
            &&& build_rank(now.stage) < build_rank(BuildStage::Write) ==> now.signing_key is None
            &&& now.stage == BuildStage::ReadKey ==> b.key is Some
            &&& now.stage == BuildStage::Write && b.key is Some ==> now.signing_key is Some
            &&& now.signing_key is Some ==> b.key is Some && exists|k: int|
                0 <= k < n && now.signing_key == #[trigger] key_read(events[k])
        }),
    decreases n,
{
    if n > 0 {
        lemma_signing_key(b, events, (n - 1) as nat);
        let before = build_after(b, events, (n - 1) as nat);
        if before.signing_key is Some {
            let k = choose|k: int|
                0 <= k < n - 1 && before.signing_key == #[trigger] key_read(events[k]);
            assert(before.signing_key == key_read(events[k]));
        }
        let last = key_read(events[n - 1]);
    }
}

/// The place of a stage in the order of the work.
pub open spec fn archive_rank(stage: ArchiveStage) -> nat {
    match stage {
        ArchiveStage::Open => 0,
        ArchiveStage::Checksums => 1,
        ArchiveStage::Signature => 2,
        ArchiveStage::Extract => 3,
        ArchiveStage::WriteStub => 4,
        ArchiveStage::Finished => 5,
        ArchiveStage::Failed => 6,
    }
}

/// A verification only moves forward, stays as it is when it is over, says why it fails, and keeps
/// its key.
pub proof fn law_verifications_move_forward(v: Verification, event: ArchiveEvent)
    ensures
        ({
            let next = hlib_cmd::verify_step(v, event);
            &&& next == (v, silence()) || archive_rank(next.0.stage) > archive_rank(v.stage)
            &&& v.stage == ArchiveStage::Finished || v.stage == ArchiveStage::Failed ==> next == (
                v,
                silence(),
            )
            &&& v.stage != ArchiveStage::Failed && next.0.stage == ArchiveStage::Failed
                ==> next.1 == seq![console::error_pieces(next.0.failure)]
            &&& next.0.pubkey == v.pubkey
        }),
{
}

/// The verification after the first `n` of `events`.
pub open spec fn verified_after(v: Verification, events: Seq<ArchiveEvent>, n: nat) -> Verification
    decreases n,
{
    if n == 0 || n > events.len() {
        v
    } else {
        hlib_cmd::verify_step(verified_after(v, events, (n - 1) as nat), events[n - 1]).0
    }
}

/// Whether a verification passes the work of `stage` within the first `n` of `events`: it is at
/// that stage, and its work is done.
pub open spec fn verification_did(
    v: Verification,
    events: Seq<ArchiveEvent>,
    n: nat,
    stage: ArchiveStage,
) -> bool {
    exists|k: nat|
        k < n && (#[trigger] verified_after(v, events, k)).stage == stage && events[k as int]
            is Done
}

proof fn lemma_verification_did(v: Verification, events: Seq<ArchiveEvent>, n: nat)
    requires
        v.stage == ArchiveStage::Open,
        n <= events.len(),
    ensures
        ({
            let now = verified_after(v, events, n);
            &&& now.pubkey == v.pubkey
            &&& now.stage == ArchiveStage::Signature || now.stage == ArchiveStage::Finished
                ==> verification_did(v, events, n, ArchiveStage::Checksums)
            &&& now.stage == ArchiveStage::Finished && v.pubkey is Some ==> verification_did(
                v,
                events,
                n,
                ArchiveStage::Signature,
            )
        }),
    decreases n,
{
    if n > 0 {
        lemma_verification_did(v, events, (n - 1) as nat);
        let before = verified_after(v, events, (n - 1) as nat);
        if verification_did(v, events, (n - 1) as nat, ArchiveStage::Checksums) {
            let k = choose|k: nat|
                k < n - 1 && (#[trigger] verified_after(v, events, k)).stage
                    == ArchiveStage::Checksums && events[k as int] is Done;
            assert(verified_after(v, events, k).stage == ArchiveStage::Checksums);
        }
        if verification_did(v, events, (n - 1) as nat, ArchiveStage::Signature) {
            let k = choose|k: nat|
                k < n - 1 && (#[trigger] verified_after(v, events, k)).stage
                    == ArchiveStage::Signature && events[k as int] is Done;
            assert(verified_after(v, events, k).stage == ArchiveStage::Signature);
        }
        assert(verified_after(v, events, (n - 1) as nat) == before);
    }
}

/// A verification finishes only after the checksums were found good and, where a key is given, the
/// signature too.
pub proof fn law_finished_verifications_verified(v: Verification, events: Seq<ArchiveEvent>)
    requires
        v.stage == ArchiveStage::Open,
        verified_after(v, events, events.len()).stage == ArchiveStage::Finished,
    ensures
        verification_did(v, events, events.len(), ArchiveStage::Checksums),
        v.pubkey is Some ==> verification_did(v, events, events.len(), ArchiveStage::Signature),
{
    lemma_verification_did(v, events, events.len());
}

/// A binding only moves forward, stays as it is when it is over, says why it fails, and keeps its
/// directory.
pub proof fn law_bindings_move_forward(b: Binding, event: ArchiveEvent)
    ensures
        ({
            let next = hlib_cmd::bind_step(b, event);
            &&& next == (b, silence()) || archive_rank(next.0.stage) > archive_rank(b.stage)
            &&& b.stage == ArchiveStage::Finished || b.stage == ArchiveStage::Failed ==> next == (
                b,
                silence(),
            )
            &&& b.stage != ArchiveStage::Failed && next.0.stage == ArchiveStage::Failed
                ==> next.1 == seq![console::error_pieces(next.0.failure)]
            &&& next.0.into == b.into
        }),
{
}

/// The binding after the first `n` of `events`.
pub open spec fn bound_after(b: Binding, events: Seq<ArchiveEvent>, n: nat) -> Binding
    decreases n,
{
    if n == 0 || n > events.len() {
        b
    } else {
        hlib_cmd::bind_step(bound_after(b, events, (n - 1) as nat), events[n - 1]).0
    }
}

/// Nothing is extracted or written before the checksums were found good.
pub proof fn law_bindings_check_first(b: Binding, events: Seq<ArchiveEvent>, n: nat)
    requires
        b.stage == ArchiveStage::Open,
        n <= events.len(),
        ({
            let stage = bound_after(b, events, n).stage;
            stage == ArchiveStage::Extract || stage == ArchiveStage::WriteStub || stage
                == ArchiveStage::Finished
        }),
    ensures
        exists|k: nat|
            k < n && (#[trigger] bound_after(b, events, k)).stage == ArchiveStage::Checksums
                && events[k as int] is Done,
    decreases n,
{
    let before = bound_after(b, events, (n - 1) as nat);
    if before.stage == ArchiveStage::Checksums {
        assert(bound_after(b, events, (n - 1) as nat).stage == ArchiveStage::Checksums);
    } else {
        law_bindings_check_first(b, events, (n - 1) as nat);
        let k = choose|k: nat|
            k < n - 1 && (#[trigger] bound_after(b, events, k)).stage == ArchiveStage::Checksums
                && events[k as int] is Done;
        assert(bound_after(b, events, k).stage == ArchiveStage::Checksums);
    }
}

} // verus!
