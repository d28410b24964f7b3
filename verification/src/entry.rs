use vstd::prelude::*;
use vstd::string::*;
use crate::error::{text_result, Failure};
use crate::manifest::{
    parse_toml, toml_error_message, toml_error_text, toml_items, toml_member, toml_parse,
    toml_text, value_as_array, value_as_str, value_get,
};
use crate::paths::{join, opt_view, path_join, DEFAULT_LIB, DEFAULT_MAIN};

verus! {

/// The target declarations of a manifest that decide the entry point.
#[derive(Debug, Clone, PartialEq, Eq)]
pub struct Targets {
    /// The path of the first entry of an array-style binary declaration.
    pub bin_array_path: Option<String>,
    /// The path of a single-table binary declaration.
    pub bin_table_path: Option<String>,
    /// The library declaration: `None` where there is none, `Some(None)`
    /// where it names no path, `Some(Some(path))` where it names one.
    pub lib: Option<Option<String>>,
}

/// The plain content of a `Targets` value.
pub struct TargetsView {
    pub bin_array_path: Option<Seq<char>>,
    pub bin_table_path: Option<Seq<char>>,
    pub lib: Option<Option<Seq<char>>>,
}

impl View for Targets {
    type V = TargetsView;

    open spec fn view(&self) -> TargetsView {
        TargetsView {
            bin_array_path: opt_view(self.bin_array_path),
            bin_table_path: opt_view(self.bin_table_path),
            lib: match self.lib {
                Some(p) => Some(opt_view(p)),
                None => None,
            },
        }
    }
}

/// The text under the key `path` of `v`.
pub open spec fn path_entry(v: toml::Value) -> Option<Seq<char>> {
    match toml_member(v, "path"@) {
        Some(p) => toml_text(p),
        None => None,
    }
}

/// The path of the first item of `v`, where `v` is an array that has one.
pub open spec fn first_item_path(v: toml::Value) -> Option<Seq<char>> {
    match toml_items(v) {
        Some(items) => if items.len() > 0 {
            path_entry(items[0])
        } else {
            None
        },
        None => None,
    }
}

/// The target declarations that a parsed manifest holds.
pub open spec fn targets_of(doc: toml::Value) -> TargetsView {
    TargetsView {
        bin_array_path: match toml_member(doc, "bin"@) {
            Some(b) => first_item_path(b),
            None => None,
        },
        bin_table_path: match toml_member(doc, "bin"@) {
            Some(b) => path_entry(b),
            None => None,
        },
        lib: match toml_member(doc, "lib"@) {
            Some(l) => Some(path_entry(l)),
            None => None,
        },
    }
}

/// The entry point by strict precedence: the array-style binary path, the
/// single-table binary path, the library's path or (for a library without
/// one) its conventional file if present, then the conventional binary
/// file, then the conventional library file.
pub open spec fn entry_spec(
    t: TargetsView,
    base: Seq<char>,
    main_exists: bool,
    lib_exists: bool,
) -> Result<Seq<char>, Failure> {
    if let Some(p) = t.bin_array_path {
        Ok(path_join(base, p))
    } else if let Some(p) = t.bin_table_path {
        Ok(path_join(base, p))
    } else if let Some(Some(p)) = t.lib {
        Ok(path_join(base, p))
    } else if t.lib is Some && lib_exists {
        Ok(path_join(base, DEFAULT_LIB@))
    } else if main_exists {
        Ok(path_join(base, DEFAULT_MAIN@))
    } else if lib_exists {
        Ok(path_join(base, DEFAULT_LIB@))
    } else {
        Err(Failure::NoEntryPointDeterminable)
    }
}

/// The text under the key `path` of `v`, copied out.
fn read_path(v: &toml::Value) -> (r: Option<String>)
    ensures
        opt_view(r) == path_entry(*v),
{
    match value_get(v, "path") {
        Some(p) => match value_as_str(p) {
            Some(s) => Some(String::from_str(s)),
            None => None,
        },
        None => None,
    }
}

/// Reads from a parsed manifest the declarations that decide the entry point.
pub fn read_targets(doc: &toml::Value) -> (r: Targets)
    ensures
        r@ == targets_of(*doc),
{
    let mut bin_array_path: Option<String> = None;
    let mut bin_table_path: Option<String> = None;
    if let Some(bin) = value_get(doc, "bin") {
        if let Some(items) = value_as_array(bin) {
            if items.len() > 0 {
                bin_array_path = read_path(&items[0]);
            }
        }
        bin_table_path = read_path(bin);
    }
    let lib = match value_get(doc, "lib") {
        Some(l) => Some(read_path(l)),
        None => None,
    };
    Targets { bin_array_path, bin_table_path, lib }
}

/// Picks the entry point of the crate in `base_dir` from its target
/// declarations and from whether its two conventional files exist.
pub fn select_entry_point(
    targets: &Targets,
    base_dir: &str,
    main_exists: bool,
    lib_exists: bool,
) -> (r: Result<String, Failure>)
    ensures
        text_result(r) == entry_spec(targets@, base_dir@, main_exists, lib_exists),
{
    if let Some(p) = &targets.bin_array_path {
        return Ok(join(base_dir, p.as_str()));
    }
    if let Some(p) = &targets.bin_table_path {
        return Ok(join(base_dir, p.as_str()));
    }
    if let Some(lib) = &targets.lib {
        if let Some(p) = lib {
            return Ok(join(base_dir, p.as_str()));
        }
        if lib_exists {
            return Ok(join(base_dir, DEFAULT_LIB));
        }
    }
    if main_exists {
        return Ok(join(base_dir, DEFAULT_MAIN));
    }
    if lib_exists {
        return Ok(join(base_dir, DEFAULT_LIB));
    }
    Err(Failure::NoEntryPointDeterminable)
}

/// `r` is the entry point of the crate in `base` by its manifest text:
/// for a TOML document what the precedence gives for its declarations,
/// and for any other text the failure that carries the parser's message.
pub open spec fn is_entry_point(
    manifest: Seq<char>,
    base: Seq<char>,
    main_exists: bool,
    lib_exists: bool,
    r: Result<String, Failure>,
) -> bool {
    match toml_parse(manifest) {
        Ok(doc) => text_result(r) == entry_spec(targets_of(doc), base, main_exists, lib_exists),
        Err(e) => r matches Err(Failure::ManifestUnparsable(reason)) && reason@
            == toml_error_message(e),
    }
}

/// Parses a manifest and picks the entry point of the crate in `base_dir`.
/// Fails with `ManifestUnparsable` and the parser's message exactly when
/// the text is no TOML document, and otherwise decides as
/// `select_entry_point` does.
pub fn parse_entry_point(
    manifest_content: &str,
    base_dir: &str,
    main_exists: bool,
    lib_exists: bool,
) -> (r: Result<String, Failure>)
    ensures
        is_entry_point(manifest_content@, base_dir@, main_exists, lib_exists, r),
{
    match parse_toml(manifest_content) {
        Ok(doc) => {
            let targets = read_targets(&doc);
            select_entry_point(&targets, base_dir, main_exists, lib_exists)
        },
        Err(e) => Err(Failure::ManifestUnparsable(toml_error_text(&e))),
    }
}

/// What is known of an input path before it is resolved.
#[derive(Debug, Clone, PartialEq, Eq)]
pub enum InputKind {
    /// Not a directory: taken to be the source file itself.
    File,
    /// A directory without a manifest directly inside it.
    BareDirectory,
    /// A directory, with the text of its manifest and whether its
    /// conventional binary and library entry files exist.
    Crate { manifest_content: String, main_exists: bool, lib_exists: bool },
}

/// Resolves the input to the source file to start from: a file stands for
/// itself, a directory without manifest is refused, and a crate directory
/// gives the entry point that its manifest and its files decide.
pub fn resolve_input_path(input: &str, kind: &InputKind) -> (r: Result<String, Failure>)
    ensures
        match *kind {
            InputKind::File => text_result(r) == Ok::<Seq<char>, Failure>(input@),
            InputKind::BareDirectory => r matches Err(Failure::NoManifestFound(d)) && d@ == input@,
            InputKind::Crate { manifest_content, main_exists, lib_exists } => is_entry_point(
                manifest_content@,
                input@,
                main_exists,
                lib_exists,
                r,
            ),
        },
{
    match kind {
        InputKind::File => Ok(String::from_str(input)),
        InputKind::BareDirectory => Err(Failure::NoManifestFound(String::from_str(input))),
        InputKind::Crate { manifest_content, main_exists, lib_exists } => parse_entry_point(
            manifest_content.as_str(),
            input,
            *main_exists,
            *lib_exists,
        ),
    }
}

/// Resolving a crate directory and parsing its manifest directly agree:
/// two results for the same manifest, directory and files are the same
/// path, or the same failure with the same message.
pub proof fn lemma_entry_point_unique(
    manifest: Seq<char>,
    base: Seq<char>,
    main_exists: bool,
    lib_exists: bool,
    a: Result<String, Failure>,
    b: Result<String, Failure>,
)
    requires
        is_entry_point(manifest, base, main_exists, lib_exists, a),
        is_entry_point(manifest, base, main_exists, lib_exists, b),
    ensures
        a is Ok <==> b is Ok,
        a is Ok ==> a->Ok_0@ == b->Ok_0@,
        a is Err ==> a->Err_0.message_spec() == b->Err_0.message_spec() && a->Err_0.kind_spec()
            == b->Err_0.kind_spec(),
{
}

/// An array-style binary declaration whose first entry names a path
/// wins over every other declaration and over the conventional files.
pub proof fn lemma_bin_array_wins(
    t: TargetsView,
    base: Seq<char>,
    main_exists: bool,
    lib_exists: bool,
)
    requires
        t.bin_array_path is Some,
    ensures
        entry_spec(t, base, main_exists, lib_exists) == Ok::<Seq<char>, Failure>(
            path_join(base, t.bin_array_path->0),
        ),
{
}

/// The same of a parsed manifest: where `bin` is an array whose first
/// item holds a text under `path`, that path, joined to the directory, is
/// the entry point, whatever else the manifest declares.
pub proof fn lemma_declared_bin_array_wins(
    doc: toml::Value,
    base: Seq<char>,
    main_exists: bool,
    lib_exists: bool,
)
    requires
        toml_member(doc, "bin"@) is Some,
        first_item_path(toml_member(doc, "bin"@)->0) is Some,
    ensures
        entry_spec(targets_of(doc), base, main_exists, lib_exists) == Ok::<Seq<char>, Failure>(
            path_join(base, first_item_path(toml_member(doc, "bin"@)->0)->0),
        ),
{
}

/// Without a binary path, without a library declaration and without
/// either conventional file, no entry point can be determined.
pub proof fn lemma_nothing_to_resolve(t: TargetsView, base: Seq<char>)
    requires
        t.bin_array_path is None,
        t.bin_table_path is None,
        t.lib is None,
    ensures
        entry_spec(t, base, false, false) == Err::<Seq<char>, Failure>(
            Failure::NoEntryPointDeterminable,
        ),
{
}

/// The same of a parsed manifest: one that holds neither `bin` nor `lib`
/// gives no entry point where neither conventional file exists.
pub proof fn lemma_undeclared_and_no_files(doc: toml::Value, base: Seq<char>)
    requires
        toml_member(doc, "bin"@) is None,
        toml_member(doc, "lib"@) is None,
    ensures
        entry_spec(targets_of(doc), base, false, false) == Err::<Seq<char>, Failure>(
            Failure::NoEntryPointDeterminable,
        ),
{
}

} // verus!
