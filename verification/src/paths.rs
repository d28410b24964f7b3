use vstd::prelude::*;

verus! {

/// The file name of a manifest.
pub const MANIFEST_FILE: &'static str = "Cargo.toml";

/// The conventional entry file of a binary, relative to its directory.
pub const DEFAULT_MAIN: &'static str = "src/main.rs";

/// The conventional entry file of a library, relative to its directory.
pub const DEFAULT_LIB: &'static str = "src/lib.rs";

/// What `std::path::Path::join` gives for `base` and `rel`, by the path
/// rules of the platform that the crate is built for.
pub uninterp spec fn path_join(base: Seq<char>, rel: Seq<char>) -> Seq<char>;

/// What `std::path::Path::parent` gives for `path`, by the same rules.
pub uninterp spec fn path_parent(path: Seq<char>) -> Option<Seq<char>>;

/// The views inside an optional string.
pub open spec fn opt_view(o: Option<String>) -> Option<Seq<char>> {
    match o {
        Some(s) => Some(s@),
        None => None,
    }
}

/// The manifest that lies directly inside `dir`.
pub open spec fn manifest_in(dir: Seq<char>) -> Seq<char> {
    path_join(dir, MANIFEST_FILE@)
}

/// `std::path::Path::join` on text: the result is the path that std
/// builds from `base` and `rel`, named `path_join`.
#[verifier::external_body]
pub(crate) fn join(base: &str, rel: &str) -> (r: String)
    ensures
        r@ == path_join(base@, rel@),
{
    std::path::Path::new(base).join(rel).to_string_lossy().into_owned()
}

/// `std::path::Path::parent` on text: the path without its final
/// component, named `path_parent`; where there is one it is shorter than
/// `path`, since a component was taken off.
#[verifier::external_body]
pub(crate) fn parent(path: &str) -> (r: Option<String>)
    ensures
        opt_view(r) == path_parent(path@),
        r matches Some(p) ==> p@.len() < path@.len(),
{
    match std::path::Path::new(path).parent() {
        Some(p) => Some(p.to_string_lossy().into_owned()),
        None => None,
    }
}

/// The path of the manifest directly inside `dir`.
pub fn manifest_path(dir: &str) -> (r: String)
    ensures
        r@ == manifest_in(dir@),
{
    join(dir, MANIFEST_FILE)
}

/// The conventional binary entry file of `dir`.
pub fn default_main_path(dir: &str) -> (r: String)
    ensures
        r@ == path_join(dir@, DEFAULT_MAIN@),
{
    join(dir, DEFAULT_MAIN)
}

/// The conventional library entry file of `dir`.
pub fn default_lib_path(dir: &str) -> (r: String)
    ensures
        r@ == path_join(dir@, DEFAULT_LIB@),
{
    join(dir, DEFAULT_LIB)
}

} // verus!
