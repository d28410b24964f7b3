use vstd::prelude::*;
use vstd::string::*;
use crate::error::{Failure, FailureKind};
use crate::locate::{find_cargo_toml, located, path_set};
use crate::paths::{parent, path_parent};

verus! {

/// The option set of one invocation, as given on the command line.
#[derive(Debug, Clone, PartialEq, Eq)]
pub struct Options {
    /// The file or directory to start from.
    pub input: Option<String>,
    /// The file to write to; standard output where there is none.
    pub output: Option<String>,
    /// The highlight theme.
    pub theme: Option<String>,
    /// Print the theme catalog and do nothing else.
    pub list_themes: bool,
    /// The manifest file to embed.
    pub manifest: Option<String>,
    /// Search upward from the input for the manifest to embed.
    pub zscript: bool,
    /// End that search at the working directory.
    pub stop_at_cwd: bool,
    /// Embed a manifest without dependencies.
    pub empty_manifest: bool,
}

/// Where the manifest to embed comes from, before any file is looked at.
#[derive(Debug, Clone, PartialEq, Eq)]
pub enum ManifestRequest {
    /// The file named on the command line.
    Explicit(String),
    /// Whatever an upward search finds, bounded by the working directory or not.
    Discover { stop_at_cwd: bool },
    /// A manifest without dependencies.
    Empty,
    /// No manifest.
    Absent,
}

/// The manifest that accompanies the output, once the search is done.
#[derive(Debug, Clone, PartialEq, Eq)]
pub enum ManifestSelection {
    /// The file named on the command line.
    ExplicitPath(String),
    /// The file that the upward search found.
    Discovered(String),
    /// A manifest without dependencies.
    Empty,
    /// No manifest: the code is emitted without an envelope.
    Absent,
}

/// Where the artifact goes; a theme can only accompany standard output.
#[derive(Debug, Clone, PartialEq, Eq)]
pub enum OutputSink {
    /// Standard output, highlighted with the theme where one is given.
    Stdout { theme: Option<String> },
    /// A file, never highlighted.
    File(String),
}

/// A validated run: every field is the one choice left by the options.
#[derive(Debug, Clone, PartialEq, Eq)]
pub struct Plan {
    pub input: String,
    pub sink: OutputSink,
    pub manifest: ManifestRequest,
}

/// What an invocation is to do.
#[derive(Debug, Clone, PartialEq, Eq)]
pub enum Command {
    /// Print the theme catalog.
    ListThemes,
    /// Produce the artifact.
    Run(Plan),
}

/// The first rule that an option set breaks, if it breaks one. Conflicts
/// among the options come before everything else; a missing input counts
/// only where the catalog listing is not asked for.
pub open spec fn usage_error(o: Options) -> Option<Failure> {
    if o.theme is Some && o.output is Some {
        Some(Failure::ThemeWithOutput)
    } else if o.empty_manifest && o.manifest is Some {
        Some(Failure::EmptyManifestWithManifest)
    } else if o.empty_manifest && o.zscript {
        Some(Failure::EmptyManifestWithZscript)
    } else if o.stop_at_cwd && !o.zscript {
        Some(Failure::StopAtCwdWithoutZscript)
    } else if !o.list_themes && o.input is None {
        Some(Failure::MissingInput)
    } else {
        None
    }
}

/// The manifest request by fixed precedence: empty, then explicit, then
/// discovery, then none.
pub open spec fn request_spec(o: Options) -> ManifestRequest {
    if o.empty_manifest {
        ManifestRequest::Empty
    } else if let Some(m) = o.manifest {
        ManifestRequest::Explicit(m)
    } else if o.zscript {
        ManifestRequest::Discover { stop_at_cwd: o.stop_at_cwd }
    } else {
        ManifestRequest::Absent
    }
}

/// The sink of an option set without a usage error.
pub open spec fn sink_spec(o: Options) -> OutputSink {
    match o.output {
        Some(path) => OutputSink::File(path),
        None => OutputSink::Stdout { theme: o.theme },
    }
}

/// What a valid option set asks for.
pub open spec fn command_spec(o: Options) -> Command {
    if o.list_themes {
        Command::ListThemes
    } else {
        Command::Run(Plan { input: o.input->0, sink: sink_spec(o), manifest: request_spec(o) })
    }
}

/// Picks where the manifest comes from, by fixed precedence.
pub fn resolve_manifest(opts: &Options) -> (r: ManifestRequest)
    ensures
        r == request_spec(*opts),
{
    if opts.empty_manifest {
        return ManifestRequest::Empty;
    }
    if let Some(m) = &opts.manifest {
        return ManifestRequest::Explicit(m.clone());
    }
    if opts.zscript {
        return ManifestRequest::Discover { stop_at_cwd: opts.stop_at_cwd };
    }
    ManifestRequest::Absent
}

/// Checks the option set and turns it into the one command it stands for.
/// Every usage error is reported from the options alone, before any file
/// is looked at.
pub fn validate(opts: &Options) -> (r: Result<Command, Failure>)
    ensures
        match usage_error(*opts) {
            Some(e) => r == Err::<Command, Failure>(e),
            None => r == Ok::<Command, Failure>(command_spec(*opts)),
        },
        r matches Err(e) ==> e.kind_spec() == FailureKind::Usage,
{
    if opts.theme.is_some() && opts.output.is_some() {
        return Err(Failure::ThemeWithOutput);
    }
    if opts.empty_manifest && opts.manifest.is_some() {
        return Err(Failure::EmptyManifestWithManifest);
    }
    if opts.empty_manifest && opts.zscript {
        return Err(Failure::EmptyManifestWithZscript);
    }
    if opts.stop_at_cwd && !opts.zscript {
        return Err(Failure::StopAtCwdWithoutZscript);
    }
    if opts.list_themes {
        return Ok(Command::ListThemes);
    }
    let input = match &opts.input {
        Some(path) => path.clone(),
        None => {
            return Err(Failure::MissingInput);
        },
    };
    let sink = match &opts.output {
        Some(path) => OutputSink::File(path.clone()),
        None => OutputSink::Stdout {
            theme: match &opts.theme {
                Some(t) => Some(t.clone()),
                None => None,
            },
        },
    };
    let manifest = resolve_manifest(opts);
    Ok(Command::Run(Plan { input, sink, manifest }))
}

/// The selection that a request stands for without a search; nothing
/// where a search is asked for.
pub fn settled(request: &ManifestRequest) -> (r: Option<ManifestSelection>)
    ensures
        r == match *request {
            ManifestRequest::Explicit(path) => Some(ManifestSelection::ExplicitPath(path)),
            ManifestRequest::Discover { .. } => None,
            ManifestRequest::Empty => Some(ManifestSelection::Empty),
            ManifestRequest::Absent => Some(ManifestSelection::Absent),
        },
{
    match request {
        ManifestRequest::Explicit(path) => Some(ManifestSelection::ExplicitPath(path.clone())),
        ManifestRequest::Discover { .. } => None,
        ManifestRequest::Empty => Some(ManifestSelection::Empty),
        ManifestRequest::Absent => Some(ManifestSelection::Absent),
    }
}

/// Runs the upward search for the source file `input_abs`, a canonical
/// path: it starts in the file's directory and yields the manifest found,
/// or no manifest. Fails exactly when the file has no parent directory.
pub fn discover_manifest(input_abs: &str, stop_at: Option<&str>, present: &Vec<String>) -> (r:
    Result<ManifestSelection, Failure>)
    ensures
        match path_parent(input_abs@) {
            None => r == Err::<ManifestSelection, Failure>(Failure::NoParentDirectory),
            Some(dir) => match r {
                Ok(ManifestSelection::Discovered(m)) => located(
                    dir,
                    match stop_at {
                        Some(s) => Some(s@),
                        None => None,
                    },
                    path_set(present@),
                    Some(m@),
                ),
                Ok(ManifestSelection::Absent) => located(
                    dir,
                    match stop_at {
                        Some(s) => Some(s@),
                        None => None,
                    },
                    path_set(present@),
                    None,
                ),
                _ => false,
            },
        },
{
    match parent(input_abs) {
        None => Err(Failure::NoParentDirectory),
        Some(dir) => match find_cargo_toml(dir.as_str(), stop_at, present) {
            Some(m) => Ok(ManifestSelection::Discovered(m)),
            None => Ok(ManifestSelection::Absent),
        },
    }
}

/// A theme together with an output file is refused, whatever else is set.
pub proof fn lemma_theme_conflicts_with_output(o: Options)
    requires
        o.theme is Some,
        o.output is Some,
    ensures
        usage_error(o) == Some(Failure::ThemeWithOutput),
{
}

/// An empty manifest together with an explicit manifest is refused,
/// whatever else is set.
pub proof fn lemma_empty_manifest_conflicts_with_manifest(o: Options)
    requires
        o.empty_manifest,
        o.manifest is Some,
    ensures
        usage_error(o) is Some,
        usage_error(o)->0.kind_spec() == FailureKind::Usage,
        !(o.theme is Some && o.output is Some) ==> usage_error(o) == Some(
            Failure::EmptyManifestWithManifest,
        ),
{
}

/// A request never names two sources: an explicit path wins over the
/// search, and an empty manifest over both.
pub proof fn lemma_request_precedence(o: Options)
    ensures
        o.empty_manifest ==> request_spec(o) == ManifestRequest::Empty,
        !o.empty_manifest && o.manifest is Some ==> request_spec(o) == ManifestRequest::Explicit(
            o.manifest->0,
        ),
        request_spec(o) is Discover ==> o.zscript && o.manifest is None && !o.empty_manifest,
{
}

} // verus!
