use vstd::prelude::*;
use vstd::string::*;
use crate::error::{text_result, Failure};
use crate::paths::opt_view;
use crate::script::{format_output, format_spec, EmbeddedManifest};

verus! {

/// What `str::to_lowercase` gives for `s`.
pub uninterp spec fn lowercased(s: Seq<char>) -> Seq<char>;

/// `str::to_lowercase`: the lowercase form of `s`, named `lowercased`.
#[verifier::external_body]
fn lowercase(s: &str) -> (r: String)
    ensures
        r@ == lowercased(s@),
{
    s.to_lowercase()
}

/// The name of the theme at place `index` of the list that
/// `arborium::theme::builtin::all()` returns; nothing past its end.
pub uninterp spec fn builtin_theme_name(index: nat) -> Option<Seq<char>>;

/// `arborium::theme::builtin::all()`, each theme given by its name: the
/// result holds, place by place and in the list's order, the names that
/// `builtin_theme_name` stands for, and ends where the list ends.
#[verifier::external_body]
fn builtin_theme_names() -> (r: Vec<String>)
    ensures
        forall|i: nat| #[trigger]
            builtin_theme_name(i) == (if i < r@.len() {
                Some(r@[i as int]@)
            } else {
                None
            }),
{
    arborium::theme::builtin::all().into_iter().map(|t| t.name).collect()
}

/// The colored text that arborium's ANSI highlighter makes of the Rust
/// source `code` under the built-in theme at place `theme_index`; nothing
/// where the highlighter fails or the catalog has no such place.
pub uninterp spec fn highlighted(theme_index: nat, code: Seq<char>) -> Option<Seq<char>>;

/// `arborium::AnsiHighlighter::highlight` for the language `rust`, with a
/// highlighter made by `AnsiHighlighter::new` from the theme at place
/// `theme_index` of `arborium::theme::builtin::all()`: the colored text,
/// named `highlighted`. As arborium is built here the text depends on the
/// theme and the code alone. `None` stands for an error of the
/// highlighter or a place outside the list.
#[verifier::external_body]
fn highlight_rust(theme_index: usize, code: &str) -> (r: Option<String>)
    ensures
        opt_view(r) == highlighted(theme_index as nat, code@),
{
    match arborium::theme::builtin::all().into_iter().nth(theme_index) {
        Some(theme) => arborium::AnsiHighlighter::new(theme).highlight("rust", code).ok(),
        None => None,
    }
}

/// `name` and `wanted` are the same theme name, letter case aside.
pub open spec fn same_theme(name: Seq<char>, wanted: Seq<char>) -> bool {
    lowercased(name) == lowercased(wanted)
}

/// `r` is the place of `wanted` in the catalog `names`: the last entry
/// that matches it, letter case aside, or nothing where none matches.
pub open spec fn is_theme_index(names: Seq<String>, wanted: Seq<char>, r: Option<usize>) -> bool {
    match r {
        Some(i) => i < names.len() && same_theme(names[i as int]@, wanted) && forall|j: int|
            i < j < names.len() ==> !same_theme(#[trigger] names[j]@, wanted),
        None => forall|j: int| 0 <= j < names.len() ==> !same_theme(#[trigger] names[j]@, wanted),
    }
}

/// The highlighted text, or the code as it is where highlighting failed.
pub open spec fn colored_or_plain(code: Seq<char>, colored: Option<Seq<char>>) -> Seq<char> {
    match colored {
        Some(text) => text,
        None => code,
    }
}

/// Looks a theme name up in a catalog, letter case aside.
pub fn find_theme(names: &Vec<String>, wanted: &str) -> (r: Option<usize>)
    ensures
        is_theme_index(names@, wanted@, r),
{
    let key = lowercase(wanted);
    let mut i: usize = names.len();
    while i > 0
        invariant
            i <= names.len(),
            key@ == lowercased(wanted@),
            forall|j: int| i <= j < names.len() ==> !same_theme(#[trigger] names[j]@, wanted@),
        decreases i,
    {
        i -= 1;
        let candidate = lowercase(names[i].as_str());
        if candidate == key {
            return Some(i);
        }
    }
    None
}

/// Falls back to the plain code where highlighting gave nothing.
pub fn colored_or_code(code: &str, colored: Option<String>) -> (r: String)
    ensures
        r@ == colored_or_plain(code@, opt_view(colored)),
{
    match colored {
        Some(text) => text,
        None => String::from_str(code),
    }
}

/// The place of the theme `wanted` in the catalog `names`, or the error
/// for a name that the catalog does not hold. Needs no file and no
/// highlighter, so a wrong name can be reported before any other work.
pub fn require_theme(names: &Vec<String>, wanted: &str) -> (r: Result<usize, Failure>)
    ensures
        match r {
            Ok(i) => is_theme_index(names@, wanted@, Some(i)),
            Err(e) => is_theme_index(names@, wanted@, None) && (e matches Failure::UnknownTheme(t)
                && t@ == wanted@),
        },
{
    match find_theme(names, wanted) {
        Some(i) => Ok(i),
        None => Err(Failure::UnknownTheme(String::from_str(wanted))),
    }
}

/// Highlights `code` under the theme `theme_name` of the catalog `names`.
/// It succeeds exactly when the catalog holds the name, at the place that
/// `find_theme` gives; the text is then what the highlighter makes of the
/// code under the built-in theme at that very place, or the code itself
/// where the highlighter gives nothing. So `names` is meant to be the
/// built-in catalog, as `theme_names` returns it: with any other list
/// the place still counts in the built-in one. An unknown name is the
/// only error.
pub fn highlight_with(names: &Vec<String>, code: &str, theme_name: &str) -> (r: Result<
    String,
    Failure,
>)
    ensures
        match r {
            Ok(text) => exists|i: usize| #[trigger]
                is_theme_index(names@, theme_name@, Some(i)) && text@ == colored_or_plain(
                    code@,
                    highlighted(i as nat, code@),
                ),
            Err(e) => is_theme_index(names@, theme_name@, None) && (e matches Failure::UnknownTheme(
                t,
            ) && t@ == theme_name@),
        },
{
    match require_theme(names, theme_name) {
        Ok(i) => Ok(colored_or_code(code, highlight_rust(i, code))),
        Err(e) => Err(e),
    }
}

/// A catalog holds a name at one place at most: two answers to the same
/// lookup are the same answer.
pub proof fn lemma_theme_index_unique(
    names: Seq<String>,
    wanted: Seq<char>,
    a: Option<usize>,
    b: Option<usize>,
)
    requires
        is_theme_index(names, wanted, a),
        is_theme_index(names, wanted, b),
    ensures
        a == b,
{
}

/// `names` is the built-in catalog: it holds the name of every built-in
/// theme, in catalog order, and nothing else.
pub open spec fn is_builtin_catalog(names: Seq<String>) -> bool {
    forall|i: nat| #[trigger]
        builtin_theme_name(i) == (if i < names.len() {
            Some(names[i as int]@)
        } else {
            None
        })
}

/// The built-in catalog holds a theme of this name, letter case aside.
pub open spec fn is_builtin_theme(wanted: Seq<char>) -> bool {
    exists|i: nat|
        #![trigger builtin_theme_name(i)]
        match builtin_theme_name(i) {
            Some(name) => same_theme(name, wanted),
            None => false,
        }
}

/// The names of the built-in themes, in catalog order.
pub fn theme_names() -> (r: Vec<String>)
    ensures
        is_builtin_catalog(r@),
{
    builtin_theme_names()
}

/// `i` is the place of the theme `wanted` in the built-in catalog: the
/// last place whose name matches it, letter case aside.
pub open spec fn is_builtin_index(wanted: Seq<char>, i: nat) -> bool {
    &&& match builtin_theme_name(i) {
        Some(name) => same_theme(name, wanted),
        None => false,
    }
    &&& forall|j: nat|
        i < j ==> match #[trigger] builtin_theme_name(j) {
            Some(name) => !same_theme(name, wanted),
            None => true,
        }
}

/// The place of the built-in theme `wanted` in the catalog.
pub open spec fn builtin_theme_index(wanted: Seq<char>) -> nat {
    choose|i: nat| is_builtin_index(wanted, i)
}

/// What highlighting gives for `code` under the built-in theme `wanted`:
/// the colored text, or the code as it is where the highlighter fails.
pub open spec fn highlighted_text(code: Seq<char>, wanted: Seq<char>) -> Seq<char> {
    colored_or_plain(code, highlighted(builtin_theme_index(wanted), code))
}

/// The outcome of highlighting `code` under the theme `wanted`: the
/// highlighted text for a built-in theme, and for any other name the
/// error that carries it.
pub open spec fn is_highlight_result(
    code: Seq<char>,
    wanted: Seq<char>,
    r: Result<String, Failure>,
) -> bool {
    if is_builtin_theme(wanted) {
        r matches Ok(text) && text@ == highlighted_text(code, wanted)
    } else {
        r matches Err(Failure::UnknownTheme(t)) && t@ == wanted
    }
}

/// A built-in theme has one place in the catalog.
pub proof fn lemma_builtin_index_unique(wanted: Seq<char>, a: nat, b: nat)
    requires
        is_builtin_index(wanted, a),
        is_builtin_index(wanted, b),
    ensures
        a == b,
        builtin_theme_index(wanted) == a,
{
    if a < b {
        assert(builtin_theme_name(b) is Some);
    }
    if b < a {
        assert(builtin_theme_name(a) is Some);
    }
    let c = builtin_theme_index(wanted);
    assert(is_builtin_index(wanted, c));
    if a < c {
        assert(builtin_theme_name(c) is Some);
    }
    if c < a {
        assert(builtin_theme_name(a) is Some);
    }
}

/// A lookup in the built-in catalog finds a place exactly for the names
/// of built-in themes, and the place it finds is the theme's place in
/// the catalog.
pub proof fn lemma_catalog_lookup(names: Seq<String>, wanted: Seq<char>, at: Option<usize>)
    requires
        is_builtin_catalog(names),
        is_theme_index(names, wanted, at),
    ensures
        at is Some <==> is_builtin_theme(wanted),
        at matches Some(i) ==> is_builtin_index(wanted, i as nat) && builtin_theme_index(wanted)
            == i as nat,
{
    match at {
        Some(i) => {
            assert(builtin_theme_name(i as nat) == Some(names[i as int]@));
            assert forall|j: nat| i < j implies (match #[trigger] builtin_theme_name(j) {
                Some(name) => !same_theme(name, wanted),
                None => true,
            }) by {
                if j < names.len() {
                    assert(!same_theme(names[j as int]@, wanted));
                }
            }
            lemma_builtin_index_unique(wanted, i as nat, i as nat);
        },
        None => {
            assert forall|i: nat|
                (match #[trigger] builtin_theme_name(i) {
                    Some(name) => same_theme(name, wanted),
                    None => false,
                }) implies false by {
                if i < names.len() {
                    assert(!same_theme(names[i as int]@, wanted));
                }
            }
        },
    }
}

/// The text of the catalog listing for the theme names `names`.
pub open spec fn listing_spec(names: Seq<String>) -> Seq<char>
    decreases names.len(),
{
    if names.len() == 0 {
        "Available themes:\n"@
    } else {
        listing_spec(names.drop_last()) + "  "@ + names.last()@ + "\n"@
    }
}

/// The catalog listing: a heading, then one indented line for each theme.
pub fn list_themes(names: &Vec<String>) -> (r: String)
    ensures
        r@ == listing_spec(names@),
{
    let mut out = String::from_str("Available themes:\n");
    let mut i: usize = 0;
    while i < names.len()
        invariant
            i <= names.len(),
            out@ == listing_spec(names@.take(i as int)),
        decreases names.len() - i,
    {
        let ghost before = out@;
        out.append("  ");
        out.append(names[i].as_str());
        out.append("\n");
        proof {
            let next = names@.take(i + 1);
            assert(next.drop_last() =~= names@.take(i as int));
            assert(next.last() == names@[i as int]);
            assert(out@ =~= before + "  "@ + names@[i as int]@ + "\n"@);
        }
        i += 1;
    }
    proof {
        assert(names@.take(names.len() as int) =~= names@);
    }
    out
}

/// Highlights `code` under a built-in theme, found by its name, letter
/// case aside. The result is the colored text, or the code itself where
/// the highlighter fails; a name that the built-in catalog does not hold
/// is refused as unknown, with the name as given.
pub fn highlight_code(code: &str, theme_name: &str) -> (r: Result<String, Failure>)
    ensures
        is_highlight_result(code@, theme_name@, r),
{
    let names = theme_names();
    let r = highlight_with(&names, code, theme_name);
    proof {
        if r is Ok {
            let text = r->Ok_0;
            let i = choose|i: usize| #[trigger]
                is_theme_index(names@, theme_name@, Some(i)) && text@ == colored_or_plain(
                    code@,
                    highlighted(i as nat, code@),
                );
            lemma_catalog_lookup(names@, theme_name@, Some(i));
        } else {
            lemma_catalog_lookup(names@, theme_name@, None);
        }
    }
    r
}

/// Highlights `code` where a theme is given, as `highlight_code` does,
/// and leaves it as it is otherwise.
pub fn apply_syntax_highlighting(code: &str, theme: Option<&str>) -> (r: Result<String, Failure>)
    ensures
        match theme {
            Some(name) => is_highlight_result(code@, name@, r),
            None => text_result(r) == Ok::<Seq<char>, Failure>(code@),
        },
{
    match theme {
        Some(name) => highlight_code(code, name),
        None => Ok(String::from_str(code)),
    }
}

/// Highlights the code where a theme is given, then frames it as the
/// manifest asks. It fails exactly for a theme that the built-in catalog
/// does not hold, with the name as given.
pub fn prepare_output(
    shebang: &str,
    code: &str,
    theme: Option<&str>,
    manifest: &EmbeddedManifest,
) -> (r: Result<String, Failure>)
    ensures
        match theme {
            Some(name) => if is_builtin_theme(name@) {
                r matches Ok(text) && text@ == format_spec(
                    shebang@,
                    highlighted_text(code@, name@),
                    *manifest,
                )
            } else {
                r matches Err(Failure::UnknownTheme(t)) && t@ == name@
            },
            None => text_result(r) == Ok::<Seq<char>, Failure>(
                format_spec(shebang@, code@, *manifest),
            ),
        },
{
    match apply_syntax_highlighting(code, theme) {
        Ok(body) => Ok(format_output(shebang, body.as_str(), manifest)),
        Err(e) => Err(e),
    }
}

} // verus!
