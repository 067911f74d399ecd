//! The manifest of an `.hlib` archive: how it is shown, and the stub that binds its exports.

use vstd::prelude::*;

use crate::archive_laws;
use crate::console;
use crate::console::{Line, Paint};
use crate::export::ExportedSymbol;
use crate::text;

verus! {

/// The kind of an artifact.
#[derive(Debug)]
pub enum ArtifactKind {
    SharedObject,
    /// Any other kind, by its name.
    Other(String),
}

/// A file in an archive.
#[derive(Debug)]
pub struct Artifact {
    pub kind: ArtifactKind,
    pub path: String,
    pub size: u64,
    /// The SHA-256 digest, in hexadecimal.
    pub sha256: String,
}

/// The manifest of an archive. Versions and dates are kept as they are shown.
#[derive(Debug)]
pub struct Manifest {
    pub name: String,
    pub version: String,
    pub language: String,
    pub language_version: String,
    pub spec_version: String,
    pub abi_version: String,
    pub created_at: String,
    pub description: String,
    /// The public key of the signature, if the archive is signed.
    pub public_key: Option<String>,
    pub artifacts: Vec<Artifact>,
    pub exports: Vec<ExportedSymbol>,
}

/// The name of a kind.
pub open spec fn kind_text(kind: ArtifactKind) -> Seq<char> {
    match kind {
        ArtifactKind::SharedObject => "SharedObject"@,
        ArtifactKind::Other(name) => name@,
    }
}

/// A line of one plain piece.
pub open spec fn plain(s: Seq<char>) -> Seq<(Paint, Seq<char>)> {
    seq![(Paint::Plain, s)]
}

/// Whether the first 16 bytes of `s` are there and end between two characters.
pub open spec fn has_short_form(s: Seq<char>) -> bool {
    vstd::utf8::is_char_boundary(vstd::utf8::encode_utf8(s), 16)
}

/// The line of an artifact: its kind, its path, its size and the head of its digest.
pub open spec fn artifact_text(a: Artifact) -> Seq<char> {
    "    "@ + text::padded(kind_text(a.kind), 10) + " "@ + text::padded(a.path@, 45) + " "@
        + text::decimal_text(a.size as nat) + " bytes  sha256:"@ + text::byte_prefix_text(
        a.sha256@,
        16,
    )
}

/// The line of an export: its signature, and a mark where only its source serves.
pub open spec fn export_text(s: ExportedSymbol) -> Seq<char> {
    "    "@ + s.signature@ + if s.generic {
        "  [generic — AST only]"@
    } else {
        ""@
    }
}

/// What is shown of a manifest up to its artifacts.
pub open spec fn manifest_head(m: Manifest) -> Seq<Seq<(Paint, Seq<char>)>> {
    let title = seq![
        (Paint::Bold, "hlib:"@),
        (Paint::Plain, " "@ + m.name@ + " v"@ + m.version@ + " ("@ + m.language@ + ")"@),
    ];
    let facts = Seq::empty().push(title).push(plain("  spec version:     "@ + m.spec_version@)).push(
        plain("  abi version:      "@ + m.abi_version@),
    ).push(plain("  built by:         "@ + m.language@ + " "@ + m.language_version@)).push(
        plain("  created at:       "@ + m.created_at@),
    );
    let described = if m.description@.len() == 0 {
        facts
    } else {
        facts.push(plain("  description:      "@ + m.description@))
    };
    match m.public_key {
        Some(key) => described.push(plain("  signed:           "@ + "yes"@)).push(
            plain("    public key:     "@ + key@),
        ),
        None => described.push(plain("  signed:           "@ + "no"@)),
    }
}

/// What is shown of a manifest.
pub open spec fn manifest_lines(m: Manifest) -> Seq<Seq<(Paint, Seq<char>)>> {
    manifest_head(m).push(
        plain("  artifacts ("@ + text::decimal_text(m.artifacts@.len()) + "):"@),
    ) + m.artifacts@.map_values(|a: Artifact| plain(artifact_text(a))) + seq![
        plain("  exports ("@ + text::decimal_text(m.exports@.len()) + "):"@),
    ] + m.exports@.map_values(|s: ExportedSymbol| plain(export_text(s)))
}

/// Appends a line of one plain piece.
fn push_plain(lines: &mut Vec<Line>, s: &str)
    ensures
        console::shown(final(lines)@) == console::shown(old(lines)@).push(plain(s@)),
{
    let line = Line::of(Paint::Plain, s);
    let ghost before = lines@;
    lines.push(line);
    proof {
        console::lemma_shown_push(before, line);
    }
}

/// The line of an artifact.
fn render_artifact(a: &Artifact) -> (r: String)
    requires
        has_short_form(a.sha256@),
    ensures
        r@ == artifact_text(*a),
{
    let kind: String = match &a.kind {
        ArtifactKind::SharedObject => "SharedObject".to_owned(),
        ArtifactKind::Other(name) => name.clone(),
    };
    let mut r: String = "    ".to_owned();
    r.append(text::pad(kind.as_str(), 10).as_str());
    r.append(" ");
    r.append(text::pad(a.path.as_str(), 45).as_str());
    r.append(" ");
    r.append(text::decimal(a.size).as_str());
    r.append(" bytes  sha256:");
    r.append(text::byte_prefix(a.sha256.as_str(), 16).as_str());
    r
}

/// The line of an export.
fn render_export(s: &ExportedSymbol) -> (r: String)
    ensures
        r@ == export_text(*s),
{
    text::concat3(
        "    ",
        s.signature.as_str(),
        if s.generic {
            "  [generic — AST only]"
        } else {
            ""
        },
    )
}

/// Shows a manifest up to its artifacts.
fn show_head(m: &Manifest) -> (r: Vec<Line>)
    ensures
        console::shown(r@) == manifest_head(*m),
{
    let mut r: Vec<Line> = Vec::new();
    let mut title_text: String = text::concat3(" ", m.name.as_str(), " v");
    title_text.append(m.version.as_str());
    title_text.append(" (");
    title_text.append(m.language.as_str());
    title_text.append(")");
    let mut title = Line::of(Paint::Bold, "hlib:");
    title.add(Paint::Plain, title_text.as_str());
    r.push(title);
    proof {
        assert(title@ =~= seq![
            (Paint::Bold, "hlib:"@),
            (Paint::Plain, " "@ + m.name@ + " v"@ + m.version@ + " ("@ + m.language@ + ")"@),
        ]);
        assert(console::shown(r@) =~= Seq::empty().push(title@));
    }
    let mut line: String = "  spec version:     ".to_owned();
    line.append(m.spec_version.as_str());
    push_plain(&mut r, line.as_str());
    let mut line: String = "  abi version:      ".to_owned();
    line.append(m.abi_version.as_str());
    push_plain(&mut r, line.as_str());
    let mut line: String = text::concat3("  built by:         ", m.language.as_str(), " ");
    line.append(m.language_version.as_str());
    push_plain(&mut r, line.as_str());
    let mut line: String = "  created at:       ".to_owned();
    line.append(m.created_at.as_str());
    push_plain(&mut r, line.as_str());
    if !m.description.as_str().is_empty() {
        let mut line: String = "  description:      ".to_owned();
        line.append(m.description.as_str());
        push_plain(&mut r, line.as_str());
    }
    let mut line: String = "  signed:           ".to_owned();
    match &m.public_key {
        Some(key) => {
            line.append("yes");
            push_plain(&mut r, line.as_str());
            let mut line: String = "    public key:     ".to_owned();
            line.append(key.as_str());
            push_plain(&mut r, line.as_str());
        },
        None => {
            line.append("no");
            push_plain(&mut r, line.as_str());
        },
    }
    r
}

/// What is shown of a manifest up to its first `n` artifacts.
pub open spec fn manifest_start(m: Manifest, n: nat) -> Seq<Seq<(Paint, Seq<char>)>> {
    manifest_head(m).push(
        plain("  artifacts ("@ + text::decimal_text(m.artifacts@.len()) + "):"@),
    ) + m.artifacts@.map_values(|a: Artifact| plain(artifact_text(a))).take(n as int)
}

/// Shows a manifest up to its first `n` artifacts, whose digests can be cut to their first 16 bytes.
fn show_start(m: &Manifest, n: usize) -> (r: Vec<Line>)
    requires
        n <= m.artifacts@.len(),
        forall|i: int| 0 <= i < n ==> has_short_form((#[trigger] m.artifacts@[i]).sha256@),
    ensures
        console::shown(r@) == manifest_start(*m, n as nat),
{
    let mut r: Vec<Line> = show_head(m);
    let line: String = text::concat3(
        "  artifacts (",
        text::decimal(m.artifacts.len() as u64).as_str(),
        "):",
    );
    push_plain(&mut r, line.as_str());
    let ghost head = console::shown(r@);
    let ghost artifacts = m.artifacts@.map_values(|a: Artifact| plain(artifact_text(a)));
    let mut i: usize = 0;
    assert(head =~= head + artifacts.take(0));
    while i < n
        invariant
            i <= n <= m.artifacts@.len(),
            forall|k: int| 0 <= k < n ==> has_short_form((#[trigger] m.artifacts@[k]).sha256@),
            artifacts == m.artifacts@.map_values(|a: Artifact| plain(artifact_text(a))),
            console::shown(r@) == head + artifacts.take(i as int),
        decreases n - i,
    {
        let line: String = render_artifact(&m.artifacts[i]);
        push_plain(&mut r, line.as_str());
        i = i + 1;
        proof {
            assert(artifacts.take(i as int) =~= artifacts.take(i - 1).push(plain(line@)));
            assert(console::shown(r@) =~= head + artifacts.take(i as int));
        }
    }
    r
}

/// How many artifacts stand in front of the first whose digest is too short to be cut.
pub open spec fn showable(artifacts: Seq<Artifact>, n: nat) -> nat
    decreases n,
{
    if n == 0 || n > artifacts.len() {
        0
    } else {
        let before = showable(artifacts, (n - 1) as nat);
        if before == n - 1 && has_short_form(artifacts[n - 1].sha256@) {
            n
        } else {
            before
        }
    }
}

/// Shows a manifest as far as its digests can be cut to their first 16 bytes: up to the first
/// artifact whose digest is too short.
pub fn inspect_start(m: &Manifest) -> (r: Vec<Line>)
    ensures
        console::shown(r@) == manifest_start(*m, showable(m.artifacts@, m.artifacts@.len())),
{
    let mut count: usize = 0;
    let mut i: usize = 0;
    while i < m.artifacts.len()
        invariant
            count <= i <= m.artifacts@.len(),
            count == showable(m.artifacts@, i as nat),
            forall|k: int| 0 <= k < count ==> has_short_form((#[trigger] m.artifacts@[k]).sha256@),
        decreases m.artifacts@.len() - i,
    {
        if count == i && can_shorten(m.artifacts[i].sha256.as_str()) {
            count = i + 1;
        }
        i = i + 1;
    }
    show_start(m, count)
}

/// Shows a manifest. Every digest is long enough to be cut to its first 16 bytes.
pub fn inspect_report(m: &Manifest) -> (r: Vec<Line>)
    requires
        forall|i: int|
            0 <= i < m.artifacts@.len() ==> has_short_form((#[trigger] m.artifacts@[i]).sha256@),
    ensures
        console::shown(r@) == manifest_lines(*m),
{
    let mut r: Vec<Line> = show_start(m, m.artifacts.len());
    let line: String = text::concat3(
        "  exports (",
        text::decimal(m.exports.len() as u64).as_str(),
        "):",
    );
    push_plain(&mut r, line.as_str());
    let ghost head = console::shown(r@);
    let ghost exports = m.exports@.map_values(|s: ExportedSymbol| plain(export_text(s)));
    let mut k: usize = 0;
    assert(console::shown(r@) =~= head + exports.take(0));
    while k < m.exports.len()
        invariant
            k <= m.exports@.len(),
            exports == m.exports@.map_values(|s: ExportedSymbol| plain(export_text(s))),
            console::shown(r@) == head + exports.take(k as int),
        decreases m.exports@.len() - k,
    {
        let line: String = render_export(&m.exports[k]);
        push_plain(&mut r, line.as_str());
        k = k + 1;
        proof {
            assert(exports.take(k as int) =~= exports.take(k - 1).push(plain(line@)));
            assert(console::shown(r@) =~= head + exports.take(k as int));
        }
    }
    proof {
        let artifacts = m.artifacts@.map_values(|a: Artifact| plain(artifact_text(a)));
        assert(artifacts.take(m.artifacts@.len() as int) =~= artifacts);
        assert(exports.take(m.exports@.len() as int) =~= exports);
        assert(console::shown(r@) =~= manifest_lines(*m));
    }
    r
}

/// Whether the first 16 bytes of `s` are there and end between two characters.
pub fn can_shorten(s: &str) -> (r: bool)
    ensures
        r == has_short_form(s@),
{
    s.is_char_boundary(16)
}

/// The first of the first `n` artifacts that is a shared object.
pub open spec fn first_shared_object(artifacts: Seq<Artifact>, n: nat) -> Option<Artifact>
    decreases n,
{
    if n == 0 || n > artifacts.len() {
        None
    } else {
        match first_shared_object(artifacts, (n - 1) as nat) {
            Some(a) => Some(a),
            None => if artifacts[n - 1].kind is SharedObject {
                Some(artifacts[n - 1])
            } else {
                None
            },
        }
    }
}

/// The shared object that a binding loads.
pub open spec fn shared_object(m: Manifest) -> Option<Artifact> {
    first_shared_object(m.artifacts@, m.artifacts@.len())
}

/// The path in the archive of the shared object that a binding loads.
pub fn shared_object_path(m: &Manifest) -> (r: Option<&String>)
    ensures
        r is Some <==> shared_object(*m) is Some,
        r matches Some(path) ==> path@ == shared_object(*m)->0.path@,
        r is None <==> forall|i: int|
            0 <= i < m.artifacts@.len() ==> !((#[trigger] m.artifacts@[i]).kind is SharedObject),
        r matches Some(path) ==> exists|i: int|
            {
                &&& 0 <= i < m.artifacts@.len()
                &&& (#[trigger] m.artifacts@[i]).kind is SharedObject
                &&& m.artifacts@[i].path@ == path@
                &&& forall|k: int|
                    0 <= k < i ==> !((#[trigger] m.artifacts@[k]).kind is SharedObject)
            },
{
    proof {
        archive_laws::law_first_shared_object_is_bound(*m);
    }
    let mut found: Option<&String> = None;
    let mut i: usize = 0;
    while i < m.artifacts.len()
        invariant
            i <= m.artifacts@.len(),
            found is Some <==> first_shared_object(m.artifacts@, i as nat) is Some,
            found matches Some(path) ==> path@ == first_shared_object(
                m.artifacts@,
                i as nat,
            )->0.path@,
        decreases m.artifacts@.len() - i,
    {
        if found.is_none() {
            if let ArtifactKind::SharedObject = &m.artifacts[i].kind {
                found = Some(&m.artifacts[i].path);
            }
        }
        i = i + 1;
    }
    found
}

/// Whether a stub declares `s`: all exports are that need no source.
pub open spec fn is_bound(s: ExportedSymbol) -> bool {
    !s.generic
}

/// The declarations that a stub makes of the first `n` exports, one per line.
pub open spec fn declarations(exports: Seq<ExportedSymbol>, n: nat) -> Seq<char>
    decreases n,
{
    if n == 0 || n > exports.len() {
        Seq::empty()
    } else if is_bound(exports[n - 1]) {
        declarations(exports, (n - 1) as nat) + ("    "@ + exports[n - 1].signature@ + "\n"@)
    } else {
        declarations(exports, (n - 1) as nat)
    }
}

/// The names of the generic ones among the first `n` exports.
pub open spec fn generic_names(exports: Seq<ExportedSymbol>, n: nat) -> Seq<Seq<char>>
    decreases n,
{
    if n == 0 || n > exports.len() {
        Seq::empty()
    } else if exports[n - 1].generic {
        generic_names(exports, (n - 1) as nat).push(exports[n - 1].name@)
    } else {
        generic_names(exports, (n - 1) as nat)
    }
}

/// The comment at the head of a stub.
pub open spec fn stub_head(m: Manifest, file: Seq<char>) -> Seq<char> {
    "// Auto-generated by `h# lib bind` from "@ + file + "\n// "@ + m.name@ + " v"@ + m.version@
        + " ("@ + m.language@
        + ") — do not edit by hand, re-run `h# lib bind` instead.\n\n"@
}

/// The block that declares the bound exports of the shared object at `lib_path`.
pub open spec fn stub_block(m: Manifest, lib_path: Seq<char>) -> Seq<char> {
    "extern dynamic [rust, \""@ + lib_path + "\"] is\n"@ + declarations(
        m.exports@,
        m.exports@.len(),
    ) + "end\n"@
}

/// The comment that lists the generic exports.
pub open spec fn stub_tail(m: Manifest, into: Seq<char>) -> Seq<char> {
    "\n// The following exports carry unresolved type parameters and are only\n// available via the AST artifact — see "@
        + into + "/ast/"@ + m.name@
        + ".ast.json.\n// H# does not yet auto-splice these into your module; for now, copy the\n// relevant source from the AST (or from the producer's own source) directly:\n// "@
        + text::joined(generic_names(m.exports@, m.exports@.len()), ", "@) + "\n"@
}

/// The stub that binds an archive: a head, a block where there is a shared object, and a tail where
/// there are generic exports.
pub open spec fn stub_text(
    m: Manifest,
    file: Seq<char>,
    into: Seq<char>,
    lib_path: Seq<char>,
) -> Seq<char> {
    let block = if shared_object(m) is Some {
        stub_block(m, lib_path)
    } else {
        Seq::empty()
    };
    let tail = if generic_names(m.exports@, m.exports@.len()).len() > 0 {
        stub_tail(m, into)
    } else {
        Seq::empty()
    };
    stub_head(m, file) + block + tail
}

/// The declarations that a stub makes.
fn render_declarations(exports: &Vec<ExportedSymbol>) -> (r: String)
    ensures
        r@ == declarations(exports@, exports@.len()),
{
    let mut r: String = String::new();
    let mut i: usize = 0;
    while i < exports.len()
        invariant
            i <= exports@.len(),
            r@ == declarations(exports@, i as nat),
        decreases exports@.len() - i,
    {
        if !exports[i].generic {
            r.append(text::concat3("    ", exports[i].signature.as_str(), "\n").as_str());
        }
        i = i + 1;
    }
    r
}

/// The names of the generic exports.
fn list_generic(exports: &Vec<ExportedSymbol>) -> (r: Vec<String>)
    ensures
        text::texts(r@) == generic_names(exports@, exports@.len()),
{
    let mut r: Vec<String> = Vec::new();
    let mut i: usize = 0;
    assert(text::texts(r@) =~= generic_names(exports@, 0));
    while i < exports.len()
        invariant
            i <= exports@.len(),
            text::texts(r@) == generic_names(exports@, i as nat),
        decreases exports@.len() - i,
    {
        let ghost before = text::texts(r@);
        if exports[i].generic {
            r.push(exports[i].name.clone());
            assert(text::texts(r@) =~= before.push(exports@[i as int].name@));
        }
        i = i + 1;
    }
    r
}

/// The stub that binds an archive. `file` and `into` are the archive and the directory as they are
/// shown; `lib_path` is where the shared object lies, if there is one.
pub fn render_stub(m: &Manifest, file: &str, into: &str, lib_path: &str) -> (r: String)
    ensures
        r@ == stub_text(*m, file@, into@, lib_path@),
{
    let mut r: String = text::concat3("// Auto-generated by `h# lib bind` from ", file, "\n// ");
    r.append(m.name.as_str());
    r.append(" v");
    r.append(m.version.as_str());
    r.append(" (");
    r.append(m.language.as_str());
    r.append(") — do not edit by hand, re-run `h# lib bind` instead.\n\n");
    assert(r@ == stub_head(*m, file@));
    let ghost head = r@;
    let mut block: String = String::new();
    if shared_object_path(m).is_some() {
        block = text::concat3("extern dynamic [rust, \"", lib_path, "\"] is\n");
        block.append(render_declarations(&m.exports).as_str());
        block.append("end\n");
    }
    r.append(block.as_str());
    let mut tail: String = String::new();
    let names: Vec<String> = list_generic(&m.exports);
    assert(names@.len() == text::texts(names@).len());
    if names.len() > 0 {
        tail =
        text::concat3(
            "\n// The following exports carry unresolved type parameters and are only\n// available via the AST artifact — see ",
            into,
            "/ast/",
        );
        tail.append(m.name.as_str());
        tail.append(
            ".ast.json.\n// H# does not yet auto-splice these into your module; for now, copy the\n// relevant source from the AST (or from the producer's own source) directly:\n// ",
        );
        tail.append(text::join(&names, ", ").as_str());
        tail.append("\n");
    }
    r.append(tail.as_str());
    r
}

/// Whether `path` is a relative path on every platform: no root in front of it, no drive.
pub open spec fn is_inner_path(path: Seq<char>) -> bool {
    &&& path.len() > 0 ==> path[0] != '/' && path[0] != '\\'
    &&& path.len() > 1 ==> path[1] != ':'
}

/// Whether `dir` is a verbatim path of Windows, in which `.` and `..` are no names.
pub open spec fn is_verbatim(dir: Seq<char>) -> bool {
    "\\\\?\\"@.is_prefix_of(dir)
}

/// Whether `r` is `path` adjoined to `dir`. A separator stands in between unless `dir` is empty or
/// ends in one. Whether `\` is a separator, and whether `dir` can be a bare drive, behind which there
/// is none, depends on the platform.
pub open spec fn is_adjoined(dir: Seq<char>, path: Seq<char>, r: Seq<char>) -> bool {
    if dir.len() == 0 || dir.last() == '/' {
        r == dir + path
    } else if dir.last() == '\\' || dir.last() == ':' {
        r == dir + path || r == dir + "/"@ + path || r == dir + "\\"@ + path
    } else {
        r == dir + "/"@ + path || r == dir + "\\"@ + path
    }
}

/// The path `path` below the directory `dir`.
///
/// Trusted: `std::path::Path::join`. The contract claims that a relative path is adjoined to the
/// directory, with a separator in between unless the directory is empty, ends in one or is a bare
/// drive. Which separator that is depends on the platform. What an absolute path gives, or a path below a verbatim directory of Windows, is
/// left unsaid.
#[verifier::external_body]
fn join_path(dir: &str, path: &str) -> (r: String)
    ensures
        is_inner_path(path@) && !is_verbatim(dir@) ==> is_adjoined(dir@, path@, r@),
{
    std::path::Path::new(dir).join(path).display().to_string()
}

/// Whether `stub` binds `m` with its shared object at a path that `path` below `into` may have.
pub open spec fn is_stub_below(
    m: Manifest,
    file: Seq<char>,
    into: Seq<char>,
    path: Seq<char>,
    stub: Seq<char>,
) -> bool {
    exists|lib_path: Seq<char>|
        stub == #[trigger] stub_text(m, file, into, lib_path) && (is_inner_path(path)
            && !is_verbatim(into) ==> is_adjoined(into, path, lib_path))
}

/// Whether `artifacts[i]` is the first shared object.
pub open spec fn is_first_shared_object(artifacts: Seq<Artifact>, i: int) -> bool {
    &&& 0 <= i < artifacts.len()
    &&& artifacts[i].kind is SharedObject
    &&& forall|k: int| 0 <= k < i ==> !((#[trigger] artifacts[k]).kind is SharedObject)
}

/// Whether a path below `dir` follows on a separator, on every platform.
pub open spec fn is_plain_dir(dir: Seq<char>) -> bool {
    &&& dir.len() > 0
    &&& dir.last() != '/' && dir.last() != '\\' && dir.last() != ':'
    &&& !is_verbatim(dir)
}

/// The stub that binds an archive. `file` and `into` are the archive and the directory as they are
/// shown; the shared object, if there is one, lies below `into`.
pub fn bind_stub(m: &Manifest, file: &str, into: &str) -> (r: String)
    ensures
        match shared_object(*m) {
            Some(so) => is_stub_below(*m, file@, into@, so.path@, r@),
            None => forall|lib_path: Seq<char>|
                r@ == #[trigger] stub_text(*m, file@, into@, lib_path),
        },
        forall|i: int|
            (#[trigger] m.artifacts@[i]).kind is SharedObject && is_first_shared_object(
                m.artifacts@,
                i,
            ) && is_inner_path(m.artifacts@[i].path@) && is_plain_dir(into@) ==> text::has_text(
                r@,
                "[rust, \""@ + (into@ + "/"@ + m.artifacts@[i].path@) + "\"] is\n"@,
            ) || text::has_text(
                r@,
                "[rust, \""@ + (into@ + "\\"@ + m.artifacts@[i].path@) + "\"] is\n"@,
            ),
{
    match shared_object_path(m) {
        Some(path) => {
            let lib_path: String = join_path(into, path.as_str());
            let r: String = render_stub(m, file, into, lib_path.as_str());
            proof {
                assert(r@ == stub_text(*m, file@, into@, lib_path@));
                archive_laws::law_stub_names_the_shared_object(*m, file@, into@, lib_path@);
            }
            r
        },
        None => render_stub(m, file, into, ""),
    }
}

/// The name of the module that a stub makes.
pub open spec fn stub_module(name: Seq<char>) -> Seq<char> {
    name + "_hlib_bind"@
}

/// The name of the file that a stub goes into.
pub fn stub_file_name(m: &Manifest) -> (r: String)
    ensures
        r@ == stub_module(m.name@) + ".h#"@,
{
    let mut r: String = m.name.clone();
    r.append("_hlib_bind");
    r.append(".h#");
    r
}

/// Where the stub goes, as it is shown: its file below the directory `into`.
pub fn stub_path(m: &Manifest, into: &str) -> (r: String)
    ensures
        is_inner_path(m.name@) && !is_verbatim(into@) ==> is_adjoined(
            into@,
            stub_module(m.name@) + ".h#"@,
            r@,
        ),
        is_inner_path(m.name@) && is_plain_dir(into@) ==> r@ == into@ + "/"@ + (m.name@
            + "_hlib_bind"@ + ".h#"@) || r@ == into@ + "\\"@ + (m.name@ + "_hlib_bind"@ + ".h#"@),
{
    let name: String = stub_file_name(m);
    proof {
        reveal_strlit("_hlib_bind");
    }
    join_path(into, name.as_str())
}

/// A bound export is among the declarations.
proof fn lemma_declared(exports: Seq<ExportedSymbol>, n: nat, i: int)
    requires
        0 <= i < n <= exports.len(),
        is_bound(exports[i]),
    ensures
        text::has_text(declarations(exports, n), "    "@ + exports[i].signature@ + "\n"@),
    decreases n,
{
    let line = "    "@ + exports[i].signature@ + "\n"@;
    let before = declarations(exports, (n - 1) as nat);
    if i == n - 1 {
        text::lemma_has_text_itself(line);
        text::lemma_has_text_between(before, line, Seq::empty(), line);
        assert(declarations(exports, n) =~= before + line + Seq::<char>::empty());
    } else {
        lemma_declared(exports, (n - 1) as nat, i);
        let last = "    "@ + exports[n - 1].signature@ + "\n"@;
        text::lemma_has_text_between(Seq::empty(), before, last, line);
        assert(Seq::<char>::empty() + before + last =~= before + last);
    }
}

/// A generic export is among the generic names.
proof fn lemma_listed(exports: Seq<ExportedSymbol>, n: nat, i: int) -> (k: int)
    requires
        0 <= i < n <= exports.len(),
        exports[i].generic,
    ensures
        0 <= k < generic_names(exports, n).len(),
        generic_names(exports, n)[k] == exports[i].name@,
    decreases n,
{
    if i == n - 1 {
        generic_names(exports, (n - 1) as nat).len() as int
    } else {
        lemma_listed(exports, (n - 1) as nat, i)
    }
}

/// Where there is a shared object, the stub declares every export that is not generic, on a line of
/// its own.
pub proof fn law_stub_declares_exports(
    m: Manifest,
    file: Seq<char>,
    into: Seq<char>,
    lib_path: Seq<char>,
    i: int,
)
    requires
        shared_object(m) is Some,
        0 <= i < m.exports@.len(),
        !m.exports@[i].generic,
    ensures
        text::has_text(
            stub_text(m, file, into, lib_path),
            "    "@ + m.exports@[i].signature@ + "\n"@,
        ),
{
    let line = "    "@ + m.exports@[i].signature@ + "\n"@;
    let decls = declarations(m.exports@, m.exports@.len());
    lemma_declared(m.exports@, m.exports@.len(), i);
    text::lemma_has_text_between(
        "extern dynamic [rust, \""@ + lib_path + "\"] is\n"@,
        decls,
        "end\n"@,
        line,
    );
    let tail = if generic_names(m.exports@, m.exports@.len()).len() > 0 {
        stub_tail(m, into)
    } else {
        Seq::empty()
    };
    text::lemma_has_text_between(stub_head(m, file), stub_block(m, lib_path), tail, line);
}

/// The stub names every generic export.
pub proof fn law_stub_names_generic_exports(
    m: Manifest,
    file: Seq<char>,
    into: Seq<char>,
    lib_path: Seq<char>,
    i: int,
)
    requires
        0 <= i < m.exports@.len(),
        m.exports@[i].generic,
    ensures
        text::has_text(stub_text(m, file, into, lib_path), m.exports@[i].name@),
{
    let names = generic_names(m.exports@, m.exports@.len());
    let name = m.exports@[i].name@;
    let k = lemma_listed(m.exports@, m.exports@.len(), i);
    text::lemma_joined_has_parts(names, ", "@, k);
    let list = text::joined(names, ", "@);
    let tail = stub_tail(m, into);
    let lead = tail.take(tail.len() - list.len() - "\n"@.len());
    assert(tail =~= lead + list + "\n"@);
    text::lemma_has_text_between(lead, list, "\n"@, name);
    let block = if shared_object(m) is Some {
        stub_block(m, lib_path)
    } else {
        Seq::empty()
    };
    text::lemma_has_text_between(stub_head(m, file) + block, tail, Seq::empty(), name);
    assert(stub_text(m, file, into, lib_path) =~= stub_head(m, file) + block + tail
        + Seq::<char>::empty());
}

} // verus!
