use vstd::prelude::*;
use vstd::string::*;

verus! {

/// The classes of failure of a run.
#[derive(Debug, Clone, Copy, PartialEq, Eq)]
pub enum FailureKind {
    /// The option set is incomplete or contradicts itself.
    Usage,
    /// No entry point or search directory could be determined.
    Resolution,
    /// A manifest could not be read or parsed.
    Manifest,
    /// The modules could not be merged.
    Consolidation,
    /// The theme is not in the catalog.
    Theme,
    /// The destination could not be written.
    Write,
}

/// Everything that can stop a run before its artifact is written.
#[derive(Debug, Clone, PartialEq, Eq)]
pub enum Failure {
    /// No input path was given.
    MissingInput,
    /// A highlight theme was asked for together with an output file.
    ThemeWithOutput,
    /// An empty manifest was asked for together with an explicit manifest.
    EmptyManifestWithManifest,
    /// An empty manifest was asked for together with manifest discovery.
    EmptyManifestWithZscript,
    /// The search boundary was asked for without manifest discovery.
    StopAtCwdWithoutZscript,
    /// The input directory holds no manifest; carries the directory.
    NoManifestFound(String),
    /// The manifest names no target and no conventional entry file exists.
    NoEntryPointDeterminable,
    /// The input file has no parent directory to search from.
    NoParentDirectory,
    /// The manifest text is not valid TOML; carries the parser's message.
    ManifestUnparsable(String),
    /// The manifest file could not be read; carries its path and the reason.
    ManifestUnreadable(String, String),
    /// The modules could not be merged; carries the merger's message.
    Consolidation(String),
    /// The theme name is not in the catalog; carries the name as given.
    UnknownTheme(String),
    /// The destination could not be written; carries the reason.
    Write(String),
}

/// A result with its text taken by its view.
pub open spec fn text_result(r: Result<String, Failure>) -> Result<Seq<char>, Failure> {
    match r {
        Ok(s) => Ok(s@),
        Err(e) => Err(e),
    }
}

impl Failure {
    /// The class that each failure belongs to.
    pub open spec fn kind_spec(self) -> FailureKind {
        match self {
            Failure::MissingInput
            | Failure::ThemeWithOutput
            | Failure::EmptyManifestWithManifest
            | Failure::EmptyManifestWithZscript
            | Failure::StopAtCwdWithoutZscript => FailureKind::Usage,
            Failure::NoManifestFound(_)
            | Failure::NoEntryPointDeterminable
            | Failure::NoParentDirectory => FailureKind::Resolution,
            Failure::ManifestUnparsable(_) | Failure::ManifestUnreadable(_, _) => {
                FailureKind::Manifest
            },
            Failure::Consolidation(_) => FailureKind::Consolidation,
            Failure::UnknownTheme(_) => FailureKind::Theme,
            Failure::Write(_) => FailureKind::Write,
        }
    }

    /// The one-line diagnostic of each failure. Messages of the TOML
    /// parser and of the module merger are passed on unchanged; an
    /// unreadable manifest is named by its path.
    pub open spec fn message_spec(self) -> Seq<char> {
        match self {
            Failure::MissingInput => "<INPUT> is required"@,
            Failure::ThemeWithOutput => "--theme cannot be used with --output"@,
            Failure::EmptyManifestWithManifest =>
                "--empty-manifest cannot be used with --manifest"@,
            Failure::EmptyManifestWithZscript => "--empty-manifest cannot be used with --zscript"@,
            Failure::StopAtCwdWithoutZscript => "--stop-at-cwd requires --zscript"@,
            Failure::NoManifestFound(dir) => "No Cargo.toml found in directory: "@ + dir@,
            Failure::NoEntryPointDeterminable =>
                "Could not determine entry point from Cargo.toml. No src/main.rs or src/lib.rs found."@,
            Failure::NoParentDirectory => "Input file has no parent directory"@,
            Failure::ManifestUnparsable(reason) => reason@,
            Failure::ManifestUnreadable(path, reason) => path@ + ": "@ + reason@,
            Failure::Consolidation(reason) => reason@,
            Failure::UnknownTheme(name) => "unknown theme '"@ + name@
                + "'. Use --list-themes to see available themes"@,
            Failure::Write(reason) => reason@,
        }
    }

    /// The class of this failure.
    pub fn kind(&self) -> (r: FailureKind)
        ensures
            r == self.kind_spec(),
    {
        match self {
            Failure::MissingInput
            | Failure::ThemeWithOutput
            | Failure::EmptyManifestWithManifest
            | Failure::EmptyManifestWithZscript
            | Failure::StopAtCwdWithoutZscript => FailureKind::Usage,
            Failure::NoManifestFound(_)
            | Failure::NoEntryPointDeterminable
            | Failure::NoParentDirectory => FailureKind::Resolution,
            Failure::ManifestUnparsable(_) | Failure::ManifestUnreadable(_, _) => {
                FailureKind::Manifest
            },
            Failure::Consolidation(_) => FailureKind::Consolidation,
            Failure::UnknownTheme(_) => FailureKind::Theme,
            Failure::Write(_) => FailureKind::Write,
        }
    }

    /// The one-line diagnostic shown to the user.
    pub fn message(&self) -> (r: String)
        ensures
            r@ == self.message_spec(),
    {
        let mut out = String::new();
        match self {
            Failure::MissingInput => out.append("<INPUT> is required"),
            Failure::ThemeWithOutput => out.append("--theme cannot be used with --output"),
            Failure::EmptyManifestWithManifest => out.append(
                "--empty-manifest cannot be used with --manifest",
            ),
            Failure::EmptyManifestWithZscript => out.append(
                "--empty-manifest cannot be used with --zscript",
            ),
            Failure::StopAtCwdWithoutZscript => out.append("--stop-at-cwd requires --zscript"),
            Failure::NoManifestFound(dir) => {
                out.append("No Cargo.toml found in directory: ");
                out.append(dir.as_str());
            },
            Failure::NoEntryPointDeterminable => out.append(
                "Could not determine entry point from Cargo.toml. No src/main.rs or src/lib.rs found.",
            ),
            Failure::NoParentDirectory => out.append("Input file has no parent directory"),
            Failure::ManifestUnparsable(reason) => out.append(reason.as_str()),
            Failure::ManifestUnreadable(path, reason) => {
                out.append(path.as_str());
                out.append(": ");
                out.append(reason.as_str());
            },
            Failure::Consolidation(reason) => out.append(reason.as_str()),
            Failure::UnknownTheme(name) => {
                out.append("unknown theme '");
                out.append(name.as_str());
                out.append("'. Use --list-themes to see available themes");
            },
            Failure::Write(reason) => out.append(reason.as_str()),
        }
        assert(out@ =~= self.message_spec());
        out
    }
}

} // verus!
