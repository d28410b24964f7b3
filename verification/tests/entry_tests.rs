use scriptify::entry::{
    parse_entry_point, read_targets, resolve_input_path, select_entry_point, InputKind, Targets,
};
use scriptify::error::Failure;
use scriptify::paths::{default_lib_path, default_main_path, manifest_path};

fn no_targets() -> Targets {
    Targets { bin_array_path: None, bin_table_path: None, lib: None }
}

#[test]
fn array_bin_path_is_the_entry_point() {
    let text = "[package]\nname = \"p\"\n\n[[bin]]\npath = \"src/tool.rs\"\n";
    assert_eq!(parse_entry_point(text, "proj", false, false), Ok("proj/src/tool.rs".to_string()));
}

#[test]
fn array_bin_wins_over_lib_and_defaults() {
    let text = "[lib]\npath = \"src/other.rs\"\n\n[[bin]]\nname = \"a\"\npath = \"src/a.rs\"\n\n[[bin]]\npath = \"src/b.rs\"\n";
    assert_eq!(parse_entry_point(text, "proj", true, true), Ok("proj/src/a.rs".to_string()));
}

#[test]
fn array_bin_without_path_falls_through() {
    let text = "[[bin]]\nname = \"a\"\n\n[[bin]]\npath = \"src/b.rs\"\n";
    assert_eq!(parse_entry_point(text, "proj", true, false), Ok("proj/src/main.rs".to_string()));
}

#[test]
fn single_table_bin_path_is_used() {
    let text = "[bin]\npath = \"src/single.rs\"\n\n[lib]\npath = \"src/l.rs\"\n";
    assert_eq!(parse_entry_point(text, "proj", true, true), Ok("proj/src/single.rs".to_string()));
}

#[test]
fn explicit_lib_path_is_used() {
    let text = "[lib]\npath = \"src/mylib.rs\"\n";
    assert_eq!(parse_entry_point(text, "proj", true, true), Ok("proj/src/mylib.rs".to_string()));
}

#[test]
fn lib_without_path_uses_default_lib_when_present() {
    let text = "[lib]\nname = \"l\"\n";
    assert_eq!(parse_entry_point(text, "proj", true, true), Ok("proj/src/lib.rs".to_string()));
}

#[test]
fn lib_without_path_and_without_file_falls_to_main() {
    let text = "[lib]\nname = \"l\"\n";
    assert_eq!(parse_entry_point(text, "proj", true, false), Ok("proj/src/main.rs".to_string()));
}

#[test]
fn default_main_is_preferred_over_default_lib() {
    let text = "[package]\nname = \"p\"\n";
    assert_eq!(parse_entry_point(text, "proj", true, true), Ok("proj/src/main.rs".to_string()));
}

#[test]
fn default_lib_is_the_last_resort() {
    let text = "[package]\nname = \"p\"\n";
    assert_eq!(parse_entry_point(text, "proj", false, true), Ok("proj/src/lib.rs".to_string()));
}

#[test]
fn nothing_resolvable_is_an_error() {
    let text = "[package]\nname = \"p\"\n";
    assert_eq!(parse_entry_point(text, "proj", false, false), Err(Failure::NoEntryPointDeterminable));
    assert_eq!(parse_entry_point("", "proj", false, false), Err(Failure::NoEntryPointDeterminable));
}

#[test]
fn lib_without_path_and_no_files_is_an_error() {
    assert_eq!(
        parse_entry_point("[lib]\nname = \"l\"\n", "proj", false, false),
        Err(Failure::NoEntryPointDeterminable)
    );
}

#[test]
fn invalid_manifest_is_reported() {
    let r = parse_entry_point("[[bin\npath = ", "proj", true, true);
    assert!(matches!(r, Err(Failure::ManifestUnparsable(_))));
}

#[test]
fn non_string_path_is_ignored() {
    let text = "[[bin]]\npath = 3\n";
    assert_eq!(parse_entry_point(text, "proj", false, true), Ok("proj/src/lib.rs".to_string()));
}

#[test]
fn absolute_target_path_replaces_the_base() {
    let text = "[[bin]]\npath = \"/abs/tool.rs\"\n";
    assert_eq!(parse_entry_point(text, "proj", false, false), Ok("/abs/tool.rs".to_string()));
}

#[test]
fn base_with_trailing_separator_is_joined_once() {
    let text = "[[bin]]\npath = \"src/tool.rs\"\n";
    assert_eq!(parse_entry_point(text, "proj/", false, false), Ok("proj/src/tool.rs".to_string()));
}

#[test]
fn read_targets_sees_each_declaration() {
    let doc: toml::Value =
        toml::from_str("[[bin]]\npath = \"a.rs\"\n\n[lib]\npath = \"l.rs\"\n").unwrap();
    let t = read_targets(&doc);
    assert_eq!(t.bin_array_path, Some("a.rs".to_string()));
    assert_eq!(t.bin_table_path, None);
    assert_eq!(t.lib, Some(Some("l.rs".to_string())));

    let doc: toml::Value = toml::from_str("[bin]\npath = \"b.rs\"\n\n[lib]\n").unwrap();
    let t = read_targets(&doc);
    assert_eq!(t.bin_array_path, None);
    assert_eq!(t.bin_table_path, Some("b.rs".to_string()));
    assert_eq!(t.lib, Some(None));

    let doc: toml::Value = toml::from_str("bin = []\n").unwrap();
    assert_eq!(read_targets(&doc), no_targets());
}

#[test]
fn select_follows_the_precedence() {
    let all = Targets {
        bin_array_path: Some("a.rs".to_string()),
        bin_table_path: Some("b.rs".to_string()),
        lib: Some(Some("l.rs".to_string())),
    };
    assert_eq!(select_entry_point(&all, "d", true, true), Ok("d/a.rs".to_string()));
    let no_array = Targets { bin_array_path: None, ..all.clone() };
    assert_eq!(select_entry_point(&no_array, "d", true, true), Ok("d/b.rs".to_string()));
    let lib_only = Targets { bin_table_path: None, ..no_array.clone() };
    assert_eq!(select_entry_point(&lib_only, "d", true, true), Ok("d/l.rs".to_string()));
    let bare_lib = Targets { lib: Some(None), ..lib_only.clone() };
    assert_eq!(select_entry_point(&bare_lib, "d", true, true), Ok("d/src/lib.rs".to_string()));
    assert_eq!(select_entry_point(&bare_lib, "d", true, false), Ok("d/src/main.rs".to_string()));
    assert_eq!(select_entry_point(&no_targets(), "d", true, true), Ok("d/src/main.rs".to_string()));
    assert_eq!(select_entry_point(&no_targets(), "d", false, true), Ok("d/src/lib.rs".to_string()));
    assert_eq!(
        select_entry_point(&no_targets(), "d", false, false),
        Err(Failure::NoEntryPointDeterminable)
    );
}

#[test]
fn a_file_input_stands_for_itself() {
    assert_eq!(resolve_input_path("a.rs", &InputKind::File), Ok("a.rs".to_string()));
}

#[test]
fn a_directory_without_manifest_is_refused() {
    assert_eq!(
        resolve_input_path("proj", &InputKind::BareDirectory),
        Err(Failure::NoManifestFound("proj".to_string()))
    );
}

#[test]
fn a_crate_directory_resolves_through_its_manifest() {
    let kind = InputKind::Crate {
        manifest_content: "[[bin]]\npath = \"src/tool.rs\"\n".to_string(),
        main_exists: true,
        lib_exists: false,
    };
    assert_eq!(resolve_input_path("proj/", &kind), Ok("proj/src/tool.rs".to_string()));
}

#[test]
fn conventional_paths_are_joined_to_the_directory() {
    assert_eq!(manifest_path("/ws/proj"), "/ws/proj/Cargo.toml");
    assert_eq!(default_main_path("proj"), "proj/src/main.rs");
    assert_eq!(default_lib_path("proj"), "proj/src/lib.rs");
}

#[test]
fn unparsable_manifest_carries_the_parser_message() {
    let text = "[[bin\npath = ";
    let expected = toml::from_str::<toml::Value>(text).unwrap_err().to_string();
    assert!(!expected.is_empty());
    assert_eq!(
        parse_entry_point(text, "proj", true, true),
        Err(Failure::ManifestUnparsable(expected.clone()))
    );
    assert_eq!(
        parse_entry_point(text, "proj", true, true).unwrap_err().message(),
        expected
    );
}

#[test]
fn resolving_a_crate_agrees_with_parsing_its_manifest() {
    for text in ["[[bin\npath = ", "[[bin]]\npath = \"src/tool.rs\"\n", "[package]\n", "x = = 1"] {
        let kind = InputKind::Crate {
            manifest_content: text.to_string(),
            main_exists: false,
            lib_exists: true,
        };
        assert_eq!(
            resolve_input_path("proj", &kind),
            parse_entry_point(text, "proj", false, true)
        );
    }
}
