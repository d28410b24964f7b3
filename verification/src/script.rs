use vstd::prelude::*;
use vstd::string::*;

verus! {

/// The launch directive used when the caller supplies none.
pub const DEFAULT_SHEBANG: &'static str =
    "#!/usr/bin/env -S RUSTC_BOOTSTRAP=1 RUSTFLAGS=-Coverflow-checks cargo run -qZscript --release --manifest-path";

/// What is embedded as the manifest of the produced artifact.
#[derive(Debug, Clone, PartialEq, Eq)]
pub enum EmbeddedManifest {
    /// The raw text of a manifest file.
    Text(String),
    /// A manifest without dependencies.
    Empty,
    /// No manifest: the code is emitted without an envelope.
    Absent,
}

/// The launch directive in force: the override where one is set, else the default.
pub open spec fn shebang_spec(overriding: Option<Seq<char>>) -> Seq<char> {
    match overriding {
        Some(s) => s,
        None => DEFAULT_SHEBANG@,
    }
}

/// The number of line feeds at the end of `s`.
pub open spec fn trailing_newlines(s: Seq<char>) -> nat
    decreases s.len(),
{
    if s.len() > 0 && s.last() == '\n' {
        1 + trailing_newlines(s.drop_last())
    } else {
        0
    }
}

/// `manifest` as it is embedded: a line feed is added only where it ends in none.
pub open spec fn newline_terminated(manifest: Seq<char>) -> Seq<char> {
    if manifest.len() > 0 && manifest.last() == '\n' {
        manifest
    } else {
        manifest.push('\n')
    }
}

/// All of the envelope that follows the launch directive.
pub open spec fn envelope_rest(manifest: Seq<char>, code: Seq<char>) -> Seq<char> {
    seq!['\n'] + "---cargo\n"@ + newline_terminated(manifest) + "---\n\n"@ + code
}

/// The script envelope: launch directive, delimited manifest, blank line, code.
pub open spec fn envelope(shebang: Seq<char>, manifest: Seq<char>, code: Seq<char>) -> Seq<char> {
    shebang + envelope_rest(manifest, code)
}

/// The final text for each kind of manifest.
pub open spec fn format_spec(shebang: Seq<char>, code: Seq<char>, manifest: EmbeddedManifest) -> Seq<
    char,
> {
    match manifest {
        EmbeddedManifest::Text(text) => envelope(shebang, text@, code),
        EmbeddedManifest::Empty => envelope(shebang, "[dependencies]\n"@, code),
        EmbeddedManifest::Absent => code,
    }
}

/// Whether `s` ends in the character `c`.
fn ends_with_char(s: &str, c: char) -> (r: bool)
    ensures
        r == (s@.len() > 0 && s@.last() == c),
{
    let n = s.unicode_len();
    n > 0 && s.get_char(n - 1) == c
}

/// Picks the launch directive: the override verbatim where there is one.
pub fn get_shebang(overriding: Option<String>) -> (r: String)
    ensures
        r@ == shebang_spec(
            match overriding {
                Some(s) => Some(s@),
                None => None,
            },
        ),
{
    match overriding {
        Some(s) => s,
        None => String::from_str(DEFAULT_SHEBANG),
    }
}

/// Frames `code` with a manifest that declares no dependencies.
pub fn build_cargo_script_empty(shebang: &str, code: &str) -> (r: String)
    ensures
        r@ == envelope(shebang@, "[dependencies]\n"@, code@),
        r@ == shebang@ + seq!['\n'] + "---cargo\n"@ + "[dependencies]\n"@ + "---\n\n"@ + code@,
{
    let mut script = String::new();
    script.append(shebang);
    script.append("\n");
    script.append("---cargo\n");
    script.append("[dependencies]\n");
    script.append("---\n\n");
    script.append(code);
    proof {
        reveal_strlit("\n");
        reveal_strlit("[dependencies]\n");
        assert("\n"@ =~= seq!['\n']);
        assert("[dependencies]\n"@.last() == '\n');
        assert(script@ =~= envelope(shebang@, "[dependencies]\n"@, code@));
        assert(script@ =~= shebang@ + seq!['\n'] + "---cargo\n"@ + "[dependencies]\n"@
            + "---\n\n"@ + code@);
    }
    script
}

/// Frames `code` with the text of a manifest file.
pub fn build_cargo_script_with_manifest(shebang: &str, manifest_content: &str, code: &str) -> (r:
    String)
    ensures
        r@ == envelope(shebang@, manifest_content@, code@),
{
    let mut script = String::new();
    script.append(shebang);
    script.append("\n");
    script.append("---cargo\n");
    script.append(manifest_content);
    if !ends_with_char(manifest_content, '\n') {
        script.append("\n");
    }
    script.append("---\n\n");
    script.append(code);
    proof {
        reveal_strlit("\n");
        assert("\n"@ =~= seq!['\n']);
        assert(script@ =~= envelope(shebang@, manifest_content@, code@));
    }
    script
}

/// Assembles the final text: the code alone, or the code in its envelope.
pub fn format_output(shebang: &str, code: &str, manifest: &EmbeddedManifest) -> (r: String)
    ensures
        r@ == format_spec(shebang@, code@, *manifest),
{
    match manifest {
        EmbeddedManifest::Text(text) => build_cargo_script_with_manifest(
            shebang,
            text.as_str(),
            code,
        ),
        EmbeddedManifest::Empty => build_cargo_script_empty(shebang, code),
        EmbeddedManifest::Absent => String::from_str(code),
    }
}

/// The embedded manifest always ends in a line feed, and the envelope adds
/// one only where the manifest text ends in none: a text that ends in at
/// most one line feed is embedded with exactly one, and a text that ends in
/// more keeps its own.
pub proof fn lemma_manifest_newline(manifest: Seq<char>)
    ensures
        newline_terminated(manifest).len() > 0,
        newline_terminated(manifest).last() == '\n',
        trailing_newlines(manifest) <= 1 ==> trailing_newlines(newline_terminated(manifest)) == 1,
        trailing_newlines(manifest) >= 1 ==> newline_terminated(manifest) == manifest,
        trailing_newlines(manifest) == 0 ==> newline_terminated(manifest) == manifest.push('\n'),
{
    if manifest.len() > 0 && manifest.last() == '\n' {
    } else {
        let t = manifest.push('\n');
        assert(t.drop_last() =~= manifest);
        assert(trailing_newlines(t) == 1 + trailing_newlines(manifest));
    }
}

/// In the envelope the manifest, newline-terminated, stands directly before
/// the closing delimiter, whatever the launch directive and the code are.
pub proof fn lemma_envelope_layout(shebang: Seq<char>, manifest: Seq<char>, code: Seq<char>)
    ensures
        envelope(shebang, manifest, code) == shebang + seq!['\n'] + "---cargo\n"@
            + newline_terminated(manifest) + "---\n\n"@ + code,
        envelope(shebang, manifest, code).subrange(0, shebang.len() as int) == shebang,
        envelope(shebang, manifest, code)[shebang.len() as int] == '\n',
{
    let e = envelope(shebang, manifest, code);
    assert(e =~= shebang + seq!['\n'] + "---cargo\n"@ + newline_terminated(manifest) + "---\n\n"@
        + code);
    assert(e.subrange(0, shebang.len() as int) =~= shebang);
}

/// The launch directive is the override verbatim where one is set and the
/// default otherwise, and two envelopes that differ only in their launch
/// directive agree on everything that follows it.
pub proof fn lemma_shebang_only_changes_first_line(
    a: Seq<char>,
    b: Seq<char>,
    manifest: Seq<char>,
    code: Seq<char>,
)
    ensures
        shebang_spec(Some(a)) == a,
        shebang_spec(None) == DEFAULT_SHEBANG@,
        envelope(a, manifest, code).subrange(0, a.len() as int) == a,
        envelope(a, manifest, code).skip(a.len() as int) == envelope(b, manifest, code).skip(
            b.len() as int,
        ),
{
    let rest = envelope_rest(manifest, code);
    assert(envelope(a, manifest, code).skip(a.len() as int) =~= rest);
    assert(envelope(b, manifest, code).skip(b.len() as int) =~= rest);
    assert(envelope(a, manifest, code).subrange(0, a.len() as int) =~= a);
}

} // verus!
