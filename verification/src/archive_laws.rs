//! What the shown manifest and the binding stub of an archive hold.

use vstd::prelude::*;

use crate::console::Paint;
use crate::export::ExportedSymbol;
use crate::hlib;
use crate::hlib::{Artifact, ArtifactKind, Manifest};
use crate::text;

verus! {

/// There is a shared object to bind if and only if some artifact is one, at whatever place, and it is
/// the first of them.
pub proof fn law_first_shared_object_is_bound(m: Manifest)
    ensures
        hlib::shared_object(m) is Some <==> exists|i: int|
            0 <= i < m.artifacts@.len() && (#[trigger] m.artifacts@[i]).kind is SharedObject,
        hlib::shared_object(m) matches Some(a) ==> exists|i: int|
            {
                &&& 0 <= i < m.artifacts@.len()
                &&& #[trigger] m.artifacts@[i] == a
                &&& a.kind is SharedObject
                &&& forall|k: int|
                    0 <= k < i ==> !((#[trigger] m.artifacts@[k]).kind is SharedObject)
            },
{
    lemma_first_shared_object(m.artifacts@, m.artifacts@.len());
}

/// The first shared object among the first `n` artifacts.
pub proof fn lemma_first_shared_object(artifacts: Seq<Artifact>, n: nat)
    requires
        n <= artifacts.len(),
    ensures
        hlib::first_shared_object(artifacts, n) is Some <==> exists|i: int|
            0 <= i < n && (#[trigger] artifacts[i]).kind is SharedObject,
        hlib::first_shared_object(artifacts, n) matches Some(a) ==> exists|i: int|
            {
                &&& 0 <= i < n
                &&& #[trigger] artifacts[i] == a
                &&& a.kind is SharedObject
                &&& forall|k: int| 0 <= k < i ==> !((#[trigger] artifacts[k]).kind is SharedObject)
            },
    decreases n,
{
    if n > 0 {
        lemma_first_shared_object(artifacts, (n - 1) as nat);
        match hlib::first_shared_object(artifacts, (n - 1) as nat) {
            Some(a) => {
                let i = choose|i: int|
                    {
                        &&& 0 <= i < n - 1
                        &&& #[trigger] artifacts[i] == a
                        &&& a.kind is SharedObject
                        &&& forall|k: int|
                            0 <= k < i ==> !((#[trigger] artifacts[k]).kind is SharedObject)
                    };
                assert(artifacts[i] == a);
            },
            None => {
                if artifacts[n - 1].kind is SharedObject {
                    assert(artifacts[n - 1] == hlib::first_shared_object(artifacts, n)->0);
                }
            },
        }
    }
}

/// The declarations of exports are those of the first part and then those of the rest; one export
/// is declared by its signature, on a line of its own, unless it is generic.
pub proof fn law_declarations(a: Seq<ExportedSymbol>, b: Seq<ExportedSymbol>)
    ensures
        hlib::declarations(a + b, (a + b).len()) == hlib::declarations(a, a.len())
            + hlib::declarations(b, b.len()),
        b.len() == 1 ==> hlib::declarations(b, 1) == if b[0].generic {
            Seq::<char>::empty()
        } else {
            "    "@ + b[0].signature@ + "\n"@
        },
{
    lemma_declarations(a, b, b.len());
    if b.len() == 1 {
        assert(hlib::declarations(b, 0) == Seq::<char>::empty());
        assert(Seq::<char>::empty() + ("    "@ + b[0].signature@ + "\n"@) =~= "    "@
            + b[0].signature@ + "\n"@);
    }
}

proof fn lemma_declarations_of_prefix(a: Seq<ExportedSymbol>, b: Seq<ExportedSymbol>, n: nat)
    requires
        n <= a.len(),
    ensures
        hlib::declarations(a + b, n) == hlib::declarations(a, n),
        hlib::generic_names(a + b, n) == hlib::generic_names(a, n),
    decreases n,
{
    if n > 0 {
        lemma_declarations_of_prefix(a, b, (n - 1) as nat);
        assert((a + b)[n - 1] == a[n - 1]);
    }
}

proof fn lemma_declarations(a: Seq<ExportedSymbol>, b: Seq<ExportedSymbol>, n: nat)
    requires
        n <= b.len(),
    ensures
        hlib::declarations(a + b, a.len() + n) == hlib::declarations(a, a.len())
            + hlib::declarations(b, n),
        hlib::generic_names(a + b, a.len() + n) == hlib::generic_names(a, a.len())
            + hlib::generic_names(b, n),
    decreases n,
{
    if n == 0 {
        lemma_declarations_of_prefix(a, b, a.len());
    } else {
        lemma_declarations(a, b, (n - 1) as nat);
        assert((a + b)[a.len() + n - 1] == b[n - 1]);
    }
    assert(hlib::declarations(a + b, a.len() + n) =~= hlib::declarations(a, a.len())
        + hlib::declarations(b, n));
    assert(hlib::generic_names(a + b, a.len() + n) =~= hlib::generic_names(a, a.len())
        + hlib::generic_names(b, n));
}

/// The generic names of exports are those of the first part and then those of the rest; one export
/// is named if and only if it is generic.
pub proof fn law_generic_names(a: Seq<ExportedSymbol>, b: Seq<ExportedSymbol>)
    ensures
        hlib::generic_names(a + b, (a + b).len()) == hlib::generic_names(a, a.len())
            + hlib::generic_names(b, b.len()),
        b.len() == 1 ==> hlib::generic_names(b, 1) == if b[0].generic {
            seq![b[0].name@]
        } else {
            Seq::<Seq<char>>::empty()
        },
{
    lemma_declarations(a, b, b.len());
    if b.len() == 1 {
        assert(hlib::generic_names(b, 0) == Seq::<Seq<char>>::empty());
        assert(Seq::<Seq<char>>::empty().push(b[0].name@) =~= seq![b[0].name@]);
    }
}

proof fn lemma_some_generic(exports: Seq<ExportedSymbol>, n: nat)
    requires
        n <= exports.len(),
    ensures
        hlib::generic_names(exports, n).len() > 0 <==> exists|i: int|
            0 <= i < n && (#[trigger] exports[i]).generic,
    decreases n,
{
    if n > 0 {
        lemma_some_generic(exports, (n - 1) as nat);
        if exports[n - 1].generic {
            assert(exports[n - 1].generic);
        } else if exists|i: int| 0 <= i < n && (#[trigger] exports[i]).generic {
            let i = choose|i: int| 0 <= i < n && (#[trigger] exports[i]).generic;
            assert(exports[i].generic);
        }
    }
}

/// A stub is its head, a block that names the shared object and declares what is not generic where
/// some artifact is a shared object, and a comment with the generic names where some export is
/// generic.
pub proof fn law_stub_parts(
    m: Manifest,
    file: Seq<char>,
    into: Seq<char>,
    lib_path: Seq<char>,
)
    ensures
        ({
            let head = "// Auto-generated by `h# lib bind` from "@ + file + "\n// "@ + m.name@
                + " v"@ + m.version@ + " ("@ + m.language@
                + ") — do not edit by hand, re-run `h# lib bind` instead.\n\n"@;
            let block = "extern dynamic [rust, \""@ + lib_path + "\"] is\n"@ + hlib::declarations(
                m.exports@,
                m.exports@.len(),
            ) + "end\n"@;
            let tail =
                "\n// The following exports carry unresolved type parameters and are only\n// available via the AST artifact — see "@
                + into + "/ast/"@ + m.name@
                + ".ast.json.\n// H# does not yet auto-splice these into your module; for now, copy the\n// relevant source from the AST (or from the producer's own source) directly:\n// "@
                + text::joined(hlib::generic_names(m.exports@, m.exports@.len()), ", "@) + "\n"@;
            let native = exists|i: int|
                0 <= i < m.artifacts@.len() && (#[trigger] m.artifacts@[i]).kind is SharedObject;
            let generic = exists|i: int|
                0 <= i < m.exports@.len() && (#[trigger] m.exports@[i]).generic;
            let stub = hlib::stub_text(m, file, into, lib_path);
            &&& native && generic ==> stub == head + block + tail
            &&& native && !generic ==> stub == head + block
            &&& !native && generic ==> stub == head + tail
            &&& !native && !generic ==> stub == head
        }),
{
    law_first_shared_object_is_bound(m);
    lemma_some_generic(m.exports@, m.exports@.len());
    let head = hlib::stub_head(m, file);
    let block = hlib::stub_block(m, lib_path);
    let tail = hlib::stub_tail(m, into);
    assert(head + block + Seq::<char>::empty() =~= head + block);
    assert(head + Seq::<char>::empty() + tail =~= head + tail);
    assert(head + Seq::<char>::empty() + Seq::<char>::empty() =~= head);
}

/// Where there is a shared object, the stub names it between quotes in its block.
pub proof fn law_stub_names_the_shared_object(
    m: Manifest,
    file: Seq<char>,
    into: Seq<char>,
    lib_path: Seq<char>,
)
    requires
        exists|i: int|
            0 <= i < m.artifacts@.len() && (#[trigger] m.artifacts@[i]).kind is SharedObject,
    ensures
        text::has_text(
            hlib::stub_text(m, file, into, lib_path),
            "[rust, \""@ + lib_path + "\"] is\n"@,
        ),
{
    law_first_shared_object_is_bound(m);
    let needle = "[rust, \""@ + lib_path + "\"] is\n"@;
    let rest = hlib::declarations(m.exports@, m.exports@.len()) + "end\n"@;
    let block = hlib::stub_block(m, lib_path);
    reveal_strlit("extern dynamic [rust, \"");
    reveal_strlit("extern dynamic ");
    reveal_strlit("[rust, \"");
    assert("extern dynamic [rust, \""@ =~= "extern dynamic "@ + "[rust, \""@);
    assert(block =~= "extern dynamic "@ + needle + rest);
    text::lemma_has_text_itself(needle);
    text::lemma_has_text_between("extern dynamic "@, needle, rest, needle);
    let tail = if hlib::generic_names(m.exports@, m.exports@.len()).len() > 0 {
        hlib::stub_tail(m, into)
    } else {
        Seq::empty()
    };
    text::lemma_has_text_between(hlib::stub_head(m, file), block, tail, needle);
}

/// The module of a stub is named after the library.
pub proof fn law_stub_modules(name: Seq<char>)
    ensures
        hlib::stub_module(name) == name + "_hlib_bind"@,
{
}

/// A line of one piece without a colour.
pub open spec fn bare(s: Seq<char>) -> Seq<(Paint, Seq<char>)> {
    seq![(Paint::Plain, s)]
}

/// A shown manifest starts with the name, the versions, the language and the date; a description is
/// there if it is not empty; a public key is there if and only if the archive is signed.
pub proof fn law_manifest_heads(m: Manifest)
    ensures
        ({
            let lines = hlib::manifest_head(m);
            let d: int = if m.description@.len() > 0 {
                1
            } else {
                0
            };
            &&& lines[0] == seq![
                (Paint::Bold, "hlib:"@),
                (Paint::Plain, " "@ + m.name@ + " v"@ + m.version@ + " ("@ + m.language@ + ")"@),
            ]
            &&& lines[1] == bare("  spec version:     "@ + m.spec_version@)
            &&& lines[2] == bare("  abi version:      "@ + m.abi_version@)
            &&& lines[3] == bare("  built by:         "@ + m.language@ + " "@ + m.language_version@)
            &&& lines[4] == bare("  created at:       "@ + m.created_at@)
            &&& m.description@.len() > 0 ==> lines[5] == bare(
                "  description:      "@ + m.description@,
            )
            &&& m.public_key is None ==> lines.len() == 6 + d && lines[5 + d] == bare(
                "  signed:           "@ + "no"@,
            )
            &&& m.public_key matches Some(key) ==> lines.len() == 7 + d && lines[5 + d] == bare(
                "  signed:           "@ + "yes"@,
            ) && lines[6 + d] == bare("    public key:     "@ + key@)
        }),
{
}

/// Behind its head a manifest shows the number of its artifacts, each artifact in order, the number
/// of its exports, and each export in order.
pub proof fn law_manifests_show_everything(m: Manifest, i: int)
    ensures
        ({
            let head = hlib::manifest_head(m).len() as int;
            let lines = hlib::manifest_lines(m);
            let a = m.artifacts@.len() as int;
            let x = m.exports@.len() as int;
            &&& hlib::manifest_head(m).is_prefix_of(lines)
            &&& lines.len() == head + a + x + 2
            &&& lines[head] == bare("  artifacts ("@ + text::decimal_text(a as nat) + "):"@)
            &&& lines[head + 1 + a] == bare("  exports ("@ + text::decimal_text(x as nat) + "):"@)
            &&& 0 <= i < a ==> lines[head + 1 + i] == bare(hlib::artifact_text(m.artifacts@[i]))
            &&& 0 <= i < x ==> lines[head + 2 + a + i] == bare(hlib::export_text(m.exports@[i]))
        }),
{
}

/// The line of an artifact has its kind, its path, its size and the first 16 bytes of its digest;
/// the line of an export has its signature, and a mark if it is generic.
pub proof fn law_entry_lines(a: Artifact, s: ExportedSymbol)
    ensures
        ({
            let kind = match a.kind {
                ArtifactKind::SharedObject => "SharedObject"@,
                ArtifactKind::Other(name) => name@,
            };
            hlib::artifact_text(a) == "    "@ + text::padded(kind, 10) + " "@ + text::padded(
                a.path@,
                45,
            ) + " "@ + text::decimal_text(a.size as nat) + " bytes  sha256:"@
                + text::byte_prefix_text(a.sha256@, 16)
        }),
        s.generic ==> hlib::export_text(s) == "    "@ + s.signature@ + "  [generic — AST only]"@,
        !s.generic ==> hlib::export_text(s) == "    "@ + s.signature@,
{
    reveal_strlit("");
    assert("    "@ + s.signature@ + ""@ =~= "    "@ + s.signature@);
}

/// A manifest is shown up to the first artifact whose digest is too short to be cut.
pub proof fn law_shown_up_to_a_short_digest(artifacts: Seq<Artifact>, n: nat)
    requires
        n <= artifacts.len(),
    ensures
        hlib::showable(artifacts, n) <= n,
        forall|i: int|
            0 <= i < hlib::showable(artifacts, n) ==> hlib::has_short_form(
                (#[trigger] artifacts[i]).sha256@,
            ),
        hlib::showable(artifacts, n) < n ==> !hlib::has_short_form(
            artifacts[hlib::showable(artifacts, n) as int].sha256@,
        ),
    decreases n,
{
    if n > 0 {
        law_shown_up_to_a_short_digest(artifacts, (n - 1) as nat);
    }
}

/// The start of a manifest is its head, the number of its artifacts and the first of them.
pub proof fn law_manifest_starts(m: Manifest, n: nat, i: int)
    requires
        n <= m.artifacts@.len(),
    ensures
        ({
            let head = hlib::manifest_head(m).len() as int;
            let lines = hlib::manifest_start(m, n);
            &&& lines.len() == head + 1 + n
            &&& lines.is_prefix_of(hlib::manifest_lines(m))
            &&& 0 <= i < n ==> lines[head + 1 + i] == bare(hlib::artifact_text(m.artifacts@[i]))
        }),
{
}

} // verus!
