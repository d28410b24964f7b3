use scriptify::error::Failure;
use scriptify::highlight::{
    apply_syntax_highlighting, colored_or_code, find_theme, highlight_code, highlight_with,
    list_themes, prepare_output, require_theme, theme_names,
};
use scriptify::script::EmbeddedManifest;

fn names(list: &[&str]) -> Vec<String> {
    list.iter().map(|n| n.to_string()).collect()
}

#[test]
fn theme_lookup_ignores_case() {
    let catalog = names(&["Alabaster", "Dracula", "GitHub Dark"]);
    assert_eq!(find_theme(&catalog, "dracula"), Some(1));
    assert_eq!(find_theme(&catalog, "DRACULA"), Some(1));
    assert_eq!(find_theme(&catalog, "github dark"), Some(2));
    assert_eq!(find_theme(&catalog, "Alabaster"), Some(0));
}

#[test]
fn theme_lookup_misses_unknown_names() {
    let catalog = names(&["Alabaster", "Dracula"]);
    assert_eq!(find_theme(&catalog, "dracul"), None);
    assert_eq!(find_theme(&catalog, ""), None);
    assert_eq!(find_theme(&Vec::new(), "Dracula"), None);
}

#[test]
fn later_entry_wins_among_equal_names() {
    let catalog = names(&["Nord", "NORD", "other", "nord", "last"]);
    assert_eq!(find_theme(&catalog, "Nord"), Some(3));
}

#[test]
fn catalog_is_not_empty_and_finds_its_own_names() {
    let catalog = theme_names();
    assert!(!catalog.is_empty());
    for name in catalog.iter() {
        assert!(find_theme(&catalog, &name.to_uppercase()).is_some());
    }
}

#[test]
fn unknown_theme_is_an_error() {
    assert_eq!(
        highlight_code("fn main() {}\n", "no-such-theme"),
        Err(Failure::UnknownTheme("no-such-theme".to_string()))
    );
    assert_eq!(
        apply_syntax_highlighting("fn main() {}\n", Some("no-such-theme")),
        Err(Failure::UnknownTheme("no-such-theme".to_string()))
    );
    assert_eq!(
        prepare_output("#!run", "fn main() {}\n", Some("No-Such-Theme"), &EmbeddedManifest::Empty),
        Err(Failure::UnknownTheme("No-Such-Theme".to_string()))
    );
    assert_eq!(
        highlight_with(&names(&["a"]), "code", "b"),
        Err(Failure::UnknownTheme("b".to_string()))
    );
}

#[test]
fn known_theme_keeps_the_source_text() {
    let catalog = theme_names();
    let first = catalog[0].to_lowercase();
    let out = highlight_code("fn main() {}\n", &first).unwrap();
    assert!(out.contains("main"));
}

#[test]
fn failed_highlighting_falls_back_to_the_code() {
    assert_eq!(colored_or_code("plain", None), "plain");
    assert_eq!(colored_or_code("plain", Some("colored".to_string())), "colored");
    let far = names(&["a"; 4000]);
    assert_eq!(highlight_with(&far, "fn main() {}", "A"), Ok("fn main() {}".to_string()));
}

#[test]
fn no_theme_leaves_the_code_alone() {
    assert_eq!(apply_syntax_highlighting("fn main() {}\n", None), Ok("fn main() {}\n".to_string()));
}

#[test]
fn raw_code_without_manifest_and_theme() {
    assert_eq!(
        prepare_output("#!run", "fn main() {}\n", None, &EmbeddedManifest::Absent),
        Ok("fn main() {}\n".to_string())
    );
}

#[test]
fn prepared_output_is_framed() {
    assert_eq!(
        prepare_output("#!run", "code", None, &EmbeddedManifest::Text("[package]".to_string())),
        Ok("#!run\n---cargo\n[package]\n---\n\ncode".to_string())
    );
    assert_eq!(
        prepare_output("#!run", "code", None, &EmbeddedManifest::Empty),
        Ok("#!run\n---cargo\n[dependencies]\n---\n\ncode".to_string())
    );
}

#[test]
fn listing_has_a_heading_and_one_line_per_theme() {
    assert_eq!(list_themes(&Vec::new()), "Available themes:\n");
    assert_eq!(
        list_themes(&names(&["Alabaster", "Dracula"])),
        "Available themes:\n  Alabaster\n  Dracula\n"
    );
    let catalog = theme_names();
    assert_eq!(list_themes(&catalog).lines().count(), catalog.len() + 1);
}

#[test]
fn theme_is_checked_against_the_catalog() {
    let catalog = names(&["Alabaster", "Dracula"]);
    assert_eq!(require_theme(&catalog, "dRaCuLa"), Ok(1));
    assert_eq!(
        require_theme(&catalog, "Monokai"),
        Err(Failure::UnknownTheme("Monokai".to_string()))
    );
}

#[test]
fn rust_source_is_colored_under_a_builtin_theme() {
    let catalog = theme_names();
    let code = "fn main() { let x = 1; }\n";
    let out = highlight_with(&catalog, code, &catalog[0]).unwrap();
    assert_ne!(out, code);
    assert!(out.contains("\u{1b}["));
}

#[test]
fn catalog_is_the_same_on_every_call() {
    let first = theme_names();
    assert_eq!(theme_names(), first);
    assert!(first.iter().any(|name| name == "Dracula"));
}

#[test]
fn builtin_theme_names_succeed_in_any_case() {
    assert!(highlight_code("fn main() {}\n", "dracula").is_ok());
    assert!(highlight_code("fn main() {}\n", "DRACULA").is_ok());
    assert!(apply_syntax_highlighting("fn main() {}\n", Some("Dracula")).is_ok());
    assert!(prepare_output("#!run", "fn main() {}\n", Some("Dracula"), &EmbeddedManifest::Absent).is_ok());
    for name in theme_names().iter() {
        assert!(highlight_code("let x = 1;", name).is_ok());
    }
}

#[test]
fn highlighted_text_is_what_the_highlighter_gives_for_that_theme() {
    let code = "fn main() { let x = 1; }\n";
    let mut themes = arborium::theme::builtin::all();
    let catalog = theme_names();
    assert_eq!(themes.len(), catalog.len());
    let at = catalog.iter().position(|name| name == "Dracula").unwrap();
    assert_eq!(find_theme(&catalog, "Dracula"), Some(at));
    let theme = themes.swap_remove(at);
    let expected = arborium::AnsiHighlighter::new(theme).highlight("rust", code).unwrap();
    assert_ne!(expected, code);
    assert_eq!(highlight_code(code, "DRACULA"), Ok(expected.clone()));
    assert_eq!(highlight_with(&catalog, code, "dracula"), Ok(expected.clone()));
    assert_eq!(apply_syntax_highlighting(code, Some("Dracula")), Ok(expected.clone()));
    assert_eq!(
        prepare_output("#!run", code, Some("Dracula"), &EmbeddedManifest::Empty),
        Ok(format!("#!run\n---cargo\n[dependencies]\n---\n\n{expected}"))
    );
}

#[test]
fn themes_color_the_same_code_differently() {
    let code = "fn main() { let x = 1; }\n";
    let catalog = theme_names();
    let light = highlight_code(code, "Alabaster").unwrap();
    let dark = highlight_with(&catalog, code, "Dracula").unwrap();
    assert_ne!(light, dark);
}

#[test]
fn highlighting_twice_gives_the_same_text() {
    let code = "struct S;\nimpl S { fn f(&self) -> u8 { 1 } }\n";
    assert_eq!(highlight_code(code, "dracula"), highlight_code(code, "Dracula"));
}

#[test]
fn place_counts_in_the_builtin_catalog() {
    let code = "fn main() {}\n";
    let first = theme_names()[0].clone();
    let renamed = names(&["mine"]);
    assert_eq!(highlight_with(&renamed, code, "MINE"), highlight_code(code, &first));
}
